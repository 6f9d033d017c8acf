use alvr_sockets::version::{is_version_compatible, VersionParseError};

#[test]
fn version_inside_the_range_is_compatible() {
    assert_eq!(is_version_compatible("20.1.0", "20.*"), Ok(true));
    assert_eq!(is_version_compatible("20.0.0", "20.*"), Ok(true));
    assert_eq!(is_version_compatible("1.2.3", ">=1.2.0, <2.0.0"), Ok(true));
}

#[test]
fn version_outside_the_range_is_incompatible() {
    assert_eq!(is_version_compatible("9.0.0", "20.*"), Ok(false));
    assert_eq!(is_version_compatible("21.0.0", "20.*"), Ok(false));
    assert_eq!(is_version_compatible("2.0.0", ">=1.2.0, <2.0.0"), Ok(false));
}

#[test]
fn the_answer_depends_on_both_texts() {
    assert_eq!(is_version_compatible("1.0.0", "=1.0.0"), Ok(true));
    assert_eq!(is_version_compatible("1.0.1", "=1.0.0"), Ok(false));
    assert_eq!(is_version_compatible("1.0.0", "=1.0.1"), Ok(false));
}

#[test]
fn a_prerelease_needs_a_requirement_that_names_one() {
    assert_eq!(is_version_compatible("20.1.0-alpha.1", "20.*"), Ok(false));
    assert_eq!(is_version_compatible("20.1.0-alpha.1", ">=20.1.0-alpha.0"), Ok(true));
}

#[test]
fn malformed_version_is_an_error() {
    for version in ["", "20", "20.1", "1.0.01", "1.0.unknown", "v1.0.0", "20.*"] {
        assert_eq!(is_version_compatible(version, "20.*"), Err(VersionParseError::Version));
    }
}

#[test]
fn malformed_requirement_is_an_error() {
    for requirement in ["@1.0.0", ">a.b", "*.*", ">=1.0 <2.0"] {
        assert_eq!(is_version_compatible("1.0.0", requirement), Err(VersionParseError::Requirement));
    }
}

#[test]
fn the_requirement_is_read_first() {
    assert_eq!(is_version_compatible("nonsense", "@nonsense"), Err(VersionParseError::Requirement));
}
