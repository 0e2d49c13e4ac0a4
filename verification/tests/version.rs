use game_launcher::version::{SdkVersion, VersionConstraint};

fn v(text: &str) -> SdkVersion {
    SdkVersion::parse(text).unwrap()
}

#[test]
fn parse_accepts_semantic_versions_only() {
    assert!(SdkVersion::parse("1.0.0").is_some());
    assert!(SdkVersion::parse("17.0.2+build.5").is_some());
    assert!(SdkVersion::parse("1.0.0-alpha.1").is_some());
    assert!(SdkVersion::parse("1.0").is_none());
    assert!(SdkVersion::parse("1.0.01").is_none());
    assert!(SdkVersion::parse("").is_none());
    assert!(SdkVersion::parse(" 1.0.0").is_none());
    assert!(SdkVersion::parse("23456789999999999999.0.0").is_none());
}

#[test]
fn a_version_keeps_its_text() {
    let a = v("17.0.2-rc.1+sha.5114f85");
    assert_eq!(a.as_str(), "17.0.2-rc.1+sha.5114f85");
    let b = a.clone();
    assert_eq!(b.as_str(), a.as_str());
}

#[test]
fn versions_are_ordered_by_precedence() {
    assert!(v("1.5.0").is_older_than(&v("1.19.0")));
    assert!(!v("1.19.0").is_older_than(&v("1.5.0")));
    assert!(!v("1.0.0").is_older_than(&v("1.0.0")));
    assert!(v("1.0.0-alpha").is_older_than(&v("1.0.0")));
    assert!(v("1.0.0-alpha").is_older_than(&v("1.0.0-alpha.1")));
    assert!(v("1.0.0-pre.8").is_older_than(&v("1.0.0-pre.12")));
    assert!(v("2.0.0").is_older_than(&v("10.0.0")));
}

#[test]
fn the_order_of_versions_is_transitive_on_a_sample() {
    let sample = ["0.9.9", "1.0.0-alpha", "1.0.0-alpha.1", "1.0.0-beta", "1.0.0", "1.0.1", "1.1.0", "2.0.0"];
    for (i, a) in sample.iter().enumerate() {
        for (j, b) in sample.iter().enumerate() {
            assert_eq!(v(a).is_older_than(&v(b)), i < j, "{} < {}", a, b);
        }
    }
}

#[test]
fn parse_accepts_version_requirements_only() {
    assert!(VersionConstraint::parse("^17.0.0").is_some());
    assert!(VersionConstraint::parse(">=1.2.3, <1.8").is_some());
    assert!(VersionConstraint::parse("*").is_some());
    assert!(VersionConstraint::parse("17").is_some());
    assert!(VersionConstraint::parse("").is_none());
    assert!(VersionConstraint::parse("@1.0.0").is_none());
    assert!(VersionConstraint::parse(">=1.0 <2.0").is_none());
}

#[test]
fn any_is_the_star() {
    let any = VersionConstraint::any();
    assert_eq!(any.as_str(), "*");
    assert!(any.is_any());
    assert!(VersionConstraint::parse("*").unwrap().is_any());
    assert!(VersionConstraint::parse(" X ").unwrap().is_any());
    assert!(!VersionConstraint::parse("=17.0.0").unwrap().is_any());
    assert!(!VersionConstraint::parse("^17").unwrap().is_any());
    assert!(!VersionConstraint::parse("1.*").unwrap().is_any());
}

#[test]
fn exactly_puts_the_equal_sign_before_the_version() {
    let c = VersionConstraint::exactly("17.0.0").unwrap();
    assert_eq!(c.as_str(), "=17.0.0");
    assert!(c.admits(&v("17.0.0")));
    assert!(!c.admits(&v("17.0.1")));
    assert!(VersionConstraint::exactly("seventeen").is_none());
    assert!(VersionConstraint::exactly("").is_none());
}

#[test]
fn admits_follows_the_comparators() {
    let caret = VersionConstraint::parse("^17").unwrap();
    assert!(caret.admits(&v("17.0.0")));
    assert!(caret.admits(&v("17.9.3")));
    assert!(!caret.admits(&v("18.0.0")));
    assert!(!caret.admits(&v("16.9.9")));
    assert!(!caret.admits(&v("17.0.1-beta")));
    let range = VersionConstraint::parse(">=1.2.3, <1.8").unwrap();
    assert!(range.admits(&v("1.2.3")));
    assert!(range.admits(&v("1.7.99")));
    assert!(!range.admits(&v("1.8.0")));
    let copy = range.clone();
    assert_eq!(copy.as_str(), ">=1.2.3, <1.8");
}
