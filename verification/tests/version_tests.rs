use iotedged::error::ErrorKind;
use iotedged::version::{Version, CURRENT};

#[test]
fn parse_known_versions() {
    assert_eq!(Version::parse("2018-06-28").unwrap(), Version::Version2018_06_28);
    assert_eq!(Version::parse("2018-12-30").unwrap(), Version::Version2018_12_30);
}

#[test]
fn parse_unknown_version_fails() {
    for s in ["", "2017-01-01", "2018-12-31", "garbage", "2018-12-30 ", "not-a-valid-version"] {
        let e = Version::parse(s).unwrap_err();
        assert_eq!(e.kind(), ErrorKind::UnsupportedApiVersion);
    }
}

#[test]
fn render_is_canonical() {
    assert_eq!(Version::Version2018_06_28.render(), "2018-06-28");
    assert_eq!(Version::Version2018_12_30.render(), "2018-12-30");
}

#[test]
fn round_trip_both_versions() {
    for v in [Version::Version2018_06_28, Version::Version2018_12_30] {
        let rendered = v.render();
        assert_eq!(Version::parse(&rendered).unwrap(), v);
    }
}

#[test]
fn current_is_newest() {
    assert_eq!(CURRENT, Version::Version2018_12_30);
    assert!(Version::Version2018_06_28.le(&CURRENT));
    assert!(!CURRENT.le(&Version::Version2018_06_28));
    assert!(CURRENT.le(&CURRENT));
}
