use skylar::series::{trim, RollingSeries, CAPACITY};

#[test]
fn pushing_150_values_keeps_the_last_100() {
    let mut series: RollingSeries<u64> = RollingSeries::new();
    for value in 1..=150u64 {
        series.push(value);
    }
    let expected: Vec<u64> = (51..=150u64).collect();
    assert_eq!(series.entries(), &expected);
    assert_eq!(series.len(), 100);
}

#[test]
fn series_below_capacity_keeps_everything() {
    let mut series: RollingSeries<u64> = RollingSeries::new();
    assert_eq!(series.len(), 0);
    assert_eq!(series.last(), None);
    for value in 0..100u64 {
        series.push(value * 2);
    }
    let expected: Vec<u64> = (0..100u64).map(|v| v * 2).collect();
    assert_eq!(series.entries(), &expected);
    assert_eq!(series.last(), Some(&198));
}

#[test]
fn the_101st_push_evicts_the_oldest() {
    let mut series: RollingSeries<u64> = RollingSeries::new();
    for value in 0..100u64 {
        series.push(value);
    }
    assert_eq!(series.entries()[0], 0);
    series.push(100);
    assert_eq!(series.len(), CAPACITY);
    assert_eq!(series.entries()[0], 1);
    assert_eq!(series.entries()[99], 100);
}

#[test]
fn push_all_equals_pushing_one_by_one() {
    let mut one_by_one: RollingSeries<String> = RollingSeries::new();
    let mut at_once: RollingSeries<String> = RollingSeries::new();
    let rows: Vec<String> = (0..230).map(|i| format!("row {}", i)).collect();
    for row in rows.iter() {
        one_by_one.push(row.clone());
    }
    at_once.push_all(rows.clone());
    assert_eq!(one_by_one.entries(), at_once.entries());
    assert_eq!(at_once.entries().as_slice(), &rows[130..]);
}

#[test]
fn push_all_of_nothing_changes_nothing() {
    let mut series: RollingSeries<u64> = RollingSeries::new();
    series.push(7);
    series.push_all(Vec::new());
    assert_eq!(series.entries(), &vec![7]);
}

#[test]
fn trim_keeps_the_most_recent_100() {
    let mut short: Vec<u64> = (0..100).collect();
    trim(&mut short);
    assert_eq!(short, (0..100).collect::<Vec<u64>>());
    let mut long: Vec<u64> = (0..101).collect();
    trim(&mut long);
    assert_eq!(long, (1..101).collect::<Vec<u64>>());
    let mut longer: Vec<u64> = (0..103).collect();
    trim(&mut longer);
    assert_eq!(longer, (3..103).collect::<Vec<u64>>());
    let mut longest: Vec<u64> = (1..=150).collect();
    trim(&mut longest);
    assert_eq!(longest, (51..=150).collect::<Vec<u64>>());
    let mut empty: Vec<u64> = Vec::new();
    trim(&mut empty);
    assert!(empty.is_empty());
}

#[test]
fn trimming_twice_is_trimming_once() {
    let mut entries: Vec<u64> = (0..1000).collect();
    trim(&mut entries);
    let once = entries.clone();
    trim(&mut entries);
    assert_eq!(entries, once);
    assert_eq!(entries.len(), CAPACITY);
    assert_eq!(entries[0], 900);
}
