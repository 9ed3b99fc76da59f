//! Calendar logic: the monthly grid and holidays.

pub mod grid;
pub mod holidays;
