use solstice::date::Date;
use solstice::daymap::DayMap;

fn ymd(y: i32, m: u32, d: u32) -> Date {
    Date::from_ymd_opt(y, m, d).unwrap()
}

#[test]
fn daymap_get_after_insert() {
    let mut map: DayMap<u32> = DayMap::new();
    assert_eq!(map.len(), 0);
    assert!(map.get(ymd(2026, 1, 1)).is_none());
    map.insert(ymd(2026, 1, 1), 5);
    map.insert(ymd(2026, 1, 2), 6);
    assert_eq!(map.get(ymd(2026, 1, 1)), Some(&5));
    assert_eq!(map.get(ymd(2026, 1, 2)), Some(&6));
    assert_eq!(map.len(), 2);
}

#[test]
fn daymap_insert_replaces_earlier_value() {
    let mut map: DayMap<u32> = DayMap::new();
    map.insert(ymd(2026, 3, 1), 1);
    map.insert(ymd(2026, 3, 1), 2);
    assert_eq!(map.len(), 1);
    assert_eq!(map.get(ymd(2026, 3, 1)), Some(&2));
}
