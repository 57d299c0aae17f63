use faasrail_loadgen::source::error::SourceError;
use faasrail_loadgen::source::MinuteRange;

#[test]
fn minuterange01() {
    let default = MinuteRange::default();
    assert_eq!(default, "1..65535".parse().unwrap());
    assert_eq!(default, "1:65535".parse().unwrap());
}

#[test]
fn minuterange_parse_forms() {
    let r: MinuteRange = "2..3".parse().unwrap();
    assert_eq!((r.start(), r.end()), (2, 3));
    let r: MinuteRange = "2:3".parse().unwrap();
    assert_eq!((r.start(), r.end()), (2, 3));
    let r: MinuteRange = "  2 .. 3  ".parse().unwrap();
    assert_eq!((r.start(), r.end()), (2, 3));
    let r: MinuteRange = "+2:+3".parse().unwrap();
    assert_eq!((r.start(), r.end()), (2, 3));
    let r: MinuteRange = "7:7".parse().unwrap();
    assert_eq!((r.start(), r.end()), (7, 7));
}

#[test]
fn minuterange_parse_rejects() {
    for bad in &[
        "", "5", "5..", "..5", "abc", "2..1", "0:4", "1:2:3", "1..2..3", "1:70000", "-1:4",
        "1.5:2",
    ] {
        let r: Result<MinuteRange, _> = bad.parse();
        match r {
            Ok(v) => panic!("{bad:?} unexpectedly parsed to {v:?}"),
            Err(e) => assert!(matches!(e, SourceError::Minute { .. })),
        }
    }
}

#[test]
fn minuterange_new_inclusive() {
    let r = MinuteRange::new_inclusive(1, 4).unwrap();
    assert_eq!((r.start(), r.end()), (1, 4));
    assert!(matches!(
        MinuteRange::new_inclusive(0, 4),
        Err(SourceError::Minute { .. })
    ));
    assert!(matches!(
        MinuteRange::new_inclusive(5, 4),
        Err(SourceError::Minute { .. })
    ));
}

#[test]
fn minuterange_contains() {
    let r = MinuteRange::new_inclusive(2, 4).unwrap();
    assert!(!r.contains(1));
    assert!(r.contains(2));
    assert!(r.contains(3));
    assert!(r.contains(4));
    assert!(!r.contains(5));
}
