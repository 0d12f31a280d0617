use wolfram_app_discovery::error::ErrorKind;
use wolfram_app_discovery::text::{lines, parse_u32, split, IntError};
use wolfram_app_discovery::version::{render_u32, AppVersion, WolframVersion};

#[test]
fn test_wolfram_version_ordering() {
    let v13_2_0 = WolframVersion::new(13, 2, 0);
    let v13_2_1 = WolframVersion::new(13, 2, 1);
    let v13_3_0 = WolframVersion::new(13, 3, 0);

    assert!(v13_2_0 == v13_2_0);
    assert!(v13_2_0 <= v13_2_0);

    assert!(v13_2_0 != v13_2_1);
    assert!(v13_2_0 <= v13_2_1);

    assert!(v13_3_0 > v13_2_0);
    assert!(v13_3_0 > v13_2_1);
}

#[test]
fn version_order_is_total_and_transitive() {
    let a = WolframVersion::new(13, 2, 0);
    let b = WolframVersion::new(13, 2, 1);
    let c = WolframVersion::new(13, 3, 0);
    assert!(a < b && b < c && a < c);
    assert!(a == a && !(a < a));
    assert!(c > a);
    assert_eq!(a.partial_cmp(&b), Some(std::cmp::Ordering::Less));
    assert_eq!(c.partial_cmp(&b), Some(std::cmp::Ordering::Greater));
    assert_eq!(b.partial_cmp(&b), Some(std::cmp::Ordering::Equal));
}

#[test]
fn parse_three_components() {
    let v = AppVersion::parse("13.1.0").unwrap();
    assert_eq!((v.major(), v.minor(), v.revision()), (13, 1, 0));
    assert_eq!(v.minor_revision(), None);
    assert_eq!(v.build_code(), None);
}

#[test]
fn parse_four_components_has_build_code() {
    let v = AppVersion::parse("13.2.1.7").unwrap();
    assert_eq!((v.major(), v.minor(), v.revision()), (13, 2, 1));
    assert_eq!(v.minor_revision(), None);
    assert_eq!(v.build_code(), Some(7));
}

#[test]
fn parse_four_components_with_oversized_build_code() {
    let v = AppVersion::parse("13.2.0.202302011100").unwrap();
    assert_eq!((v.major(), v.minor(), v.revision()), (13, 2, 0));
    assert_eq!(v.build_code(), None);
}

#[test]
fn parse_five_components() {
    let v = AppVersion::parse("12.3.1.4.5").unwrap();
    assert_eq!((v.major(), v.minor(), v.revision()), (12, 3, 1));
    assert_eq!(v.minor_revision(), Some(4));
    assert_eq!(v.build_code(), Some(5));
}

#[test]
fn parse_rejects_malformed_versions() {
    for text in ["13.1", "13", "", "13.1.0.0.0.0", "13.x.0", "13.1.0.x", "13..0", "13.1.0.4.x"] {
        let err = AppVersion::parse(text).unwrap_err();
        assert!(matches!(err.kind(), ErrorKind::Other(_)), "{text}");
    }
}

#[test]
fn parse_rejects_overflowing_major() {
    assert!(AppVersion::parse("4294967296.1.0").is_err());
    assert!(AppVersion::parse("4294967295.1.0").is_ok());
}

#[test]
fn parse_round_trip_keeps_triple() {
    for (a, b, c) in [(0u32, 0u32, 0u32), (13, 1, 0), (4294967295, 7, 12)] {
        let text = format!("{a}.{b}.{c}");
        let v = AppVersion::parse(&text).unwrap();
        assert_eq!((v.major(), v.minor(), v.revision()), (a, b, c));
        let text4 = format!("{a}.{b}.{c}.99");
        let v4 = AppVersion::parse(&text4).unwrap();
        assert_eq!((v4.major(), v4.minor(), v4.revision()), (a, b, c));
        let text5 = format!("{a}.{b}.{c}.1.2");
        let v5 = AppVersion::parse(&text5).unwrap();
        assert_eq!((v5.major(), v5.minor(), v5.revision()), (a, b, c));
    }
}

#[test]
fn parse_u32_follows_std() {
    assert_eq!(parse_u32("0"), Ok(0));
    assert_eq!(parse_u32("+42"), Ok(42));
    assert_eq!(parse_u32("4294967295"), Ok(u32::MAX));
    assert_eq!(parse_u32("4294967296"), Err(IntError::PosOverflow));
    assert_eq!(parse_u32(""), Err(IntError::Empty));
    assert_eq!(parse_u32("+"), Err(IntError::InvalidDigit));
    assert_eq!(parse_u32("-1"), Err(IntError::InvalidDigit));
    assert_eq!(parse_u32("12a"), Err(IntError::InvalidDigit));
}

#[test]
fn split_and_lines() {
    assert_eq!(split("a..b", '.'), vec!["a", "", "b"]);
    assert_eq!(split("", '.'), vec![""]);
    assert_eq!(lines("a\r\nb\n"), vec!["a", "b"]);
    assert_eq!(lines("a\n\nb"), vec!["a", "", "b"]);
    assert!(lines("").is_empty());
}

#[test]
fn version_text_and_decimal() {
    assert_eq!(render_u32(0), "0");
    assert_eq!(render_u32(4294967295), "4294967295");
    assert_eq!(WolframVersion::new(13, 2, 10).to_text(), "13.2.10");
}

#[test]
fn parse_rejects_overflowing_build_code_with_letters() {
    assert!(AppVersion::parse("1.2.3.9999999999a").is_err());
    assert_eq!(AppVersion::parse("1.2.3.9999999999").unwrap().build_code(), None);
}
