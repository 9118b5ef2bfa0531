use mugen_autosplitter::watcher::{Pair, Watcher};

#[test]
fn watcher_starts_empty() {
    let w: Watcher<bool> = Watcher::new();
    assert_eq!(w.pair, None);
}

#[test]
fn watcher_first_sample_fills_both() {
    let mut w = Watcher::new();
    w.update(Some(7u32));
    assert_eq!(w.pair, Some(Pair { previous: 7, current: 7 }));
}

#[test]
fn watcher_records_falling_edge() {
    let mut w = Watcher::new();
    w.update(Some(true));
    w.update(Some(false));
    let p = w.pair.unwrap();
    assert!(p.previous);
    assert!(!p.current);
}

#[test]
fn watcher_ignores_missing_sample() {
    let mut w = Watcher::new();
    w.update(Some(1u8));
    w.update(Some(2u8));
    let before = w.pair;
    w.update(None);
    assert_eq!(w.pair, before);
    assert_eq!(w.pair, Some(Pair { previous: 1, current: 2 }));
}

#[test]
fn watcher_none_on_empty_stays_empty() {
    let mut w: Watcher<bool> = Watcher::new();
    w.update(None);
    assert_eq!(w.pair, None);
}
