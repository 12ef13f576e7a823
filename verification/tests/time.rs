use katana_sysex::time::Instant;

#[test]
fn instant_keeps_its_ticks() {
    assert_eq!(Instant::from_ticks(0).ticks(), 0);
    assert_eq!(Instant::from_ticks(u64::MAX).ticks(), u64::MAX);
    assert_eq!(Instant::from_ticks(5), Instant::from_ticks(5));
    assert_ne!(Instant::from_ticks(5), Instant::from_ticks(6));
}

#[test]
fn elapsed_is_strictly_more() {
    let since = Instant::from_ticks(1_000);
    assert!(!Instant::from_ticks(1_000).has_elapsed(since, 0));
    assert!(Instant::from_ticks(1_001).has_elapsed(since, 0));
    assert!(!Instant::from_ticks(21_000).has_elapsed(since, 20_000));
    assert!(Instant::from_ticks(21_001).has_elapsed(since, 20_000));
}

#[test]
fn earlier_reading_has_let_no_time_pass() {
    let since = Instant::from_ticks(1_000);
    assert!(!Instant::from_ticks(999).has_elapsed(since, 0));
    assert!(!Instant::from_ticks(0).has_elapsed(since, 0));
}

#[test]
fn elapsed_at_the_ends_of_the_range() {
    assert!(Instant::from_ticks(u64::MAX).has_elapsed(Instant::from_ticks(0), u64::MAX - 1));
    assert!(!Instant::from_ticks(u64::MAX).has_elapsed(Instant::from_ticks(0), u64::MAX));
}
