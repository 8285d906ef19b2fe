use notion_core::version::Version;

fn tagged(major: u64, minor: u64, patch: u64, pre: &str, build: &str) -> Version {
    Version { major, minor, patch, pre: pre.to_string(), build: build.to_string() }
}

#[test]
fn new_makes_a_plain_release() {
    let version = Version::new(16, 2, 0);
    assert_eq!(version.major, 16);
    assert_eq!(version.minor, 2);
    assert_eq!(version.patch, 0);
    assert_eq!(version.pre, "");
    assert_eq!(version.build, "");
}

#[test]
fn new_takes_the_largest_numbers() {
    let version = Version::new(u64::MAX, u64::MAX, u64::MAX);
    assert_eq!(version.major, u64::MAX);
    assert_eq!(version.minor, u64::MAX);
    assert_eq!(version.patch, u64::MAX);
}

#[test]
fn equal_components_make_equal_versions() {
    assert!(Version::new(16, 2, 0).same_as(&Version::new(16, 2, 0)));
    assert_eq!(Version::new(16, 2, 0), Version::new(16, 2, 0));
    assert!(tagged(1, 0, 0, "alpha.1", "build.5").same_as(&tagged(1, 0, 0, "alpha.1", "build.5")));
}

#[test]
fn each_number_counts() {
    let base = Version::new(1, 2, 3);
    assert!(!base.same_as(&Version::new(2, 2, 3)));
    assert!(!base.same_as(&Version::new(1, 3, 3)));
    assert!(!base.same_as(&Version::new(1, 2, 4)));
    assert_ne!(base, Version::new(1, 2, 4));
}

#[test]
fn the_pre_release_tag_counts() {
    assert!(!tagged(1, 0, 0, "alpha", "").same_as(&Version::new(1, 0, 0)));
    assert!(!tagged(1, 0, 0, "alpha", "").same_as(&tagged(1, 0, 0, "beta", "")));
    assert_ne!(tagged(1, 0, 0, "rc.1", ""), tagged(1, 0, 0, "rc.2", ""));
}

#[test]
fn the_build_metadata_counts() {
    assert!(!tagged(1, 0, 0, "", "20240101").same_as(&Version::new(1, 0, 0)));
    assert!(!tagged(1, 0, 0, "", "a").same_as(&tagged(1, 0, 0, "", "b")));
    assert_ne!(tagged(1, 0, 0, "", "a"), tagged(1, 0, 0, "", "b"));
}

#[test]
fn a_tag_is_not_metadata() {
    assert!(!tagged(1, 0, 0, "x", "").same_as(&tagged(1, 0, 0, "", "x")));
}

#[test]
fn same_as_goes_both_ways() {
    let left = tagged(3, 1, 4, "pre", "b1");
    let right = tagged(3, 1, 4, "pre", "b2");
    assert_eq!(left.same_as(&right), right.same_as(&left));
    assert!(left.same_as(&left));
}

#[test]
fn a_clone_is_the_same_version() {
    let version = tagged(12, 0, 1, "beta.3", "exp.sha.5114f85");
    let copy = version.clone();
    assert!(copy.same_as(&version));
    assert_eq!(copy.pre, "beta.3");
    assert_eq!(copy.build, "exp.sha.5114f85");
}
