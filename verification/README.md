# solstice

A terminal calendar: a monthly and a weekly view, a list of the selected day's
events, upcoming events, holidays from local files or the Calendarific service,
local events with simple recurrence kept in SQLite, and a one-way import from
Google Calendar.

## Layout

- `src/` is the verified library (Verus). It holds the dates and their text
  forms, the monthly grid, recurrence expansion, the event form and its
  validation, the text input, the key and click state machine of the
  application, the layout of every panel and overlay (what is drawn, where and
  in which tone), the decisions of the holiday sources and of the Google
  Calendar import (token freshness, paging, reading API items), and the
  configuration's defaults and theme colours.
- `app/` is the program around it: the terminal, drawing with ratatui from the
  library's layouts, SQLite storage, configuration files, HTTP requests and
  OAuth. It hands the library plain values and carries out what the library
  decides.
- `tests/` exercise the library from outside.

Calls into chrono, chrono-tz and ratatui that the library's logic needs stand
in `src/` behind small trusted wrappers, each with a doc comment saying what
its contract claims of the outside function.
