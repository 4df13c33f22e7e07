use rime_wanxiang_updater::version_choose::{
    choose_latest, choose_latest_stable, compare, is_newer, Version,
};
use std::cmp::Ordering;

#[test]
fn test_version_parsing() {
    let v1 = Version::parse("1.2.3").unwrap();
    assert_eq!(v1.major, 1);
    assert_eq!(v1.minor, 2);
    assert_eq!(v1.patch, 3);
    assert_eq!(v1.pre_release, None);

    let v2 = Version::parse("v2.0.0-beta.1").unwrap();
    assert_eq!(v2.major, 2);
    assert_eq!(v2.minor, 0);
    assert_eq!(v2.patch, 0);
    assert_eq!(v2.pre_release, Some("beta.1".to_string()));
}

#[test]
fn test_version_comparison() {
    let v1 = Version::parse("1.0.0").unwrap();
    let v2 = Version::parse("1.0.1").unwrap();
    let v3 = Version::parse("1.1.0").unwrap();
    let v4 = Version::parse("2.0.0-beta").unwrap();
    let v5 = Version::parse("2.0.0").unwrap();

    assert!(v2 > v1);
    assert!(v3 > v2);
    assert!(v5 > v4);
    assert!(v4 > v3);
}

#[test]
fn parse_rejects_incomplete_versions() {
    assert!(Version::parse("").is_none());
    assert!(Version::parse("1.2").is_none());
    assert!(Version::parse("1.2.x").is_none());
    assert!(Version::parse("1..3").is_none());
    assert!(Version::parse("1.2.4294967296").is_none());
    assert!(Version::parse("-1.2.3").is_none());
}

#[test]
fn parse_accepts_edge_forms() {
    let v = Version::parse("vv1.2.4294967295").unwrap();
    assert_eq!((v.major, v.minor, v.patch), (1, 2, 4294967295));
    let v = Version::parse("+1.02.3.9").unwrap();
    assert_eq!((v.major, v.minor, v.patch), (1, 2, 3));
    assert_eq!(v.pre_release, None);
    let v = Version::parse("1.2.3-").unwrap();
    assert_eq!(v.pre_release, Some(String::new()));
    assert!(v.is_prerelease());
    let v = Version::parse("1.2.3-rc-1").unwrap();
    assert_eq!(v.pre_release, Some("rc-1".to_string()));
}

#[test]
fn version_equality_and_order_agree() {
    let a = Version::parse("1.2.3-beta").unwrap();
    let b = Version::parse("v1.2.3-beta").unwrap();
    let c = Version::parse("1.2.3-alpha").unwrap();
    assert!(a == b);
    assert!(a != c);
    assert_eq!(a.cmp(&b), Ordering::Equal);
    assert_eq!(a.cmp(&c), Ordering::Greater);
    assert_eq!(c.cmp(&a), Ordering::Less);
    assert!(a.outranks(&c));
    assert!(!a.outranks(&b));
    assert_eq!(a.partial_cmp(&c), Some(Ordering::Greater));
}

#[test]
fn compare_is_numeric_not_lexicographic() {
    assert_eq!(compare("v1.9.0", "v1.10.0"), Ordering::Less);
    assert_eq!(compare("v1.10.0", "v1.9.0"), Ordering::Greater);
    assert!(is_newer("v1.10.0", "v1.9.0"));
    assert!(!is_newer("v1.9.0", "v1.10.0"));
}

#[test]
fn compare_ranks_stable_above_prerelease() {
    assert_eq!(compare("v2.0.0", "v2.0.0-beta"), Ordering::Greater);
    assert_eq!(compare("v2.0.0-beta", "v2.0.0"), Ordering::Less);
    assert_eq!(compare("2.0.0rc1", "2.0.0"), Ordering::Less);
    assert_eq!(compare("v2.0.0-alpha", "v2.0.0-beta"), Ordering::Less);
    assert_eq!(compare("v2.0.0-beta.2", "v2.0.0-beta.1"), Ordering::Greater);
    assert_eq!(compare("v2.0.1-beta", "v2.0.0"), Ordering::Greater);
}

#[test]
fn compare_never_fails() {
    assert_eq!(compare("", ""), Ordering::Equal);
    assert_eq!(compare("LTS", "dict-nightly"), Ordering::Equal);
    assert_eq!(compare("v1", "1.0.0"), Ordering::Equal);
    assert_eq!(compare("v1.2", "1.2.0"), Ordering::Equal);
    assert_eq!(compare("release-3.1.4", "3.1.4"), Ordering::Equal);
    assert_eq!(compare("1.99999999999.0", "1.0.0"), Ordering::Equal);
    assert_eq!(compare("1.4294967295.0", "1.4294967294.0"), Ordering::Greater);
    assert_eq!(compare("1.x.0", "1.0.0"), Ordering::Less);
}

#[test]
fn from_tag_reads_fields_and_marker() {
    let v = Version::from_tag("v12.3.4-beta.1");
    assert_eq!((v.major, v.minor, v.patch), (12, 3, 4));
    assert_eq!(v.pre_release, Some("-beta.1".to_string()));
    let v = Version::from_tag("1a.2b.3c");
    assert_eq!((v.major, v.minor, v.patch), (1, 2, 3));
    assert_eq!(v.pre_release, Some("abc".to_string()));
    let v = Version::from_tag("nightly");
    assert_eq!((v.major, v.minor, v.patch), (0, 0, 0));
    assert_eq!(v.pre_release, None);
}

#[test]
fn choose_latest_takes_the_greatest() {
    let versions: Vec<String> = ["1.0.0", "junk", "v2.0.0-beta", "1.5.0", "2.0.0-beta", "0.9"]
        .iter()
        .map(|s| s.to_string())
        .collect();
    assert_eq!(choose_latest(&versions), Some("v2.0.0-beta".to_string()));
    assert_eq!(choose_latest_stable(&versions), Some("1.5.0".to_string()));
}

#[test]
fn choose_latest_of_nothing_is_none() {
    let none: Vec<String> = Vec::new();
    assert_eq!(choose_latest(&none), None);
    assert_eq!(choose_latest_stable(&none), None);
    let only_pre: Vec<String> = vec!["1.0.0-rc1".to_string(), "x".to_string()];
    assert_eq!(choose_latest(&only_pre), Some("1.0.0-rc1".to_string()));
    assert_eq!(choose_latest_stable(&only_pre), None);
}

#[test]
fn choose_latest_keeps_the_first_of_equals() {
    let versions: Vec<String> = vec!["v1.2.3".to_string(), "1.2.3".to_string()];
    assert_eq!(choose_latest(&versions), Some("v1.2.3".to_string()));
    assert_eq!(choose_latest_stable(&versions), Some("v1.2.3".to_string()));
}

#[test]
fn compare_is_a_total_order_on_these_tags() {
    let tags = [
        "", "v0.0.1", "0.0.1-a", "v1", "1.0.0", "v1.0.0-beta", "1.0.0-alpha", "1.2", "v1.2.0",
        "1.2.0-rc1", "1.10.0", "v1.9.0", "2.0.0-beta.1", "2.0.0-beta.2", "2.0.0", "dict-nightly",
        "LTS", "3.x.1", "1.2.3.4",
    ];
    for a in tags {
        assert_eq!(compare(a, a), Ordering::Equal);
        for b in tags {
            assert_eq!(compare(a, b), compare(b, a).reverse(), "{} {}", a, b);
            assert_eq!(is_newer(a, b), compare(a, b) == Ordering::Greater);
            let left = Version::from_tag(a);
            let right = Version::from_tag(b);
            assert_eq!(compare(a, b) == Ordering::Equal, left == right, "{} {}", a, b);
            for c in tags {
                if compare(a, b) != Ordering::Greater && compare(b, c) != Ordering::Greater {
                    assert_ne!(compare(a, c), Ordering::Greater, "{} {} {}", a, b, c);
                }
            }
        }
    }
}

#[test]
fn extra_fields_of_a_tag_count_as_a_marker() {
    assert_eq!(compare("1.2.3.4", "1.2.3"), Ordering::Less);
    let v = Version::from_tag("1.2.3.4");
    assert_eq!((v.major, v.minor, v.patch), (1, 2, 3));
    assert_eq!(v.pre_release, Some(".4".to_string()));
}
