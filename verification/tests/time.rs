use aw_watcher_zed::time::Timestamp;
use aw_watcher_zed::time::NANOS_PER_SEC;

#[test]
fn timestamp_keeps_its_parts() {
    let t = Timestamp::new(-3, 17);
    assert_eq!(t.secs, -3);
    assert_eq!(t.nanos, 17);
}

#[test]
fn nanos_since_is_the_difference_in_nanoseconds() {
    assert_eq!(NANOS_PER_SEC, 1_000_000_000);
    let earlier = Timestamp::new(10, 900_000_000);
    let later = Timestamp::new(12, 100_000_000);
    assert_eq!(later.nanos_since(&earlier), 1_200_000_000);
    assert_eq!(earlier.nanos_since(&later), -1_200_000_000);
    assert_eq!(earlier.nanos_since(&earlier), 0);
}

#[test]
fn nanos_since_counts_nanoseconds_beyond_a_second() {
    // One second and a half, written in two ways.
    let plain = Timestamp::new(1, 500_000_000);
    let folded = Timestamp::new(0, 1_500_000_000);
    assert_eq!(plain.nanos_since(&folded), 0);
    assert_eq!(folded.nanos_since(&Timestamp::new(0, 0)), 1_500_000_000);
}

#[test]
fn nanos_since_spans_the_whole_range() {
    let first = Timestamp::new(i64::MIN, u32::MAX);
    let last = Timestamp::new(i64::MAX, 0);
    let span = (i64::MAX as i128 - i64::MIN as i128) * 1_000_000_000 - u32::MAX as i128;
    assert_eq!(last.nanos_since(&first), span);
    assert_eq!(first.nanos_since(&last), -span);
}
