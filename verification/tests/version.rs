use nexus::addon::AddonVersion;
use nexus::version::{
    addon_version_from_parts, get_revision, parse_i16_decimal, parse_u8_decimal, STABLE_REVISION,
};

// sanity check for possible pre-release revision range
#[test]
fn semver_revision_range() {
    // non-null ascii
    let first_min = 1;
    let first_max = 0x7F << 8;

    // byte number or non-null ascii
    let second_min = 0;
    let second_max = 0xFF;

    assert!(first_min + second_min > 0);
    assert!(i16::MIN + first_max + second_max - 1 < STABLE_REVISION);
}

#[test]
fn semver_revisions() {
    let alpha0 = get_revision("alpha.0");
    let alpha1 = get_revision("alpha.1");
    let alpha2 = get_revision("alpha.2");
    let beta0 = get_revision("beta.0");
    let pre0 = get_revision("pre.0");
    let rc0 = get_revision("rc.0");
    let x_a = get_revision("x.a");
    let x_b = get_revision("x.b");

    assert!(alpha0 < alpha1);
    assert!(alpha1 < alpha2);
    assert!(alpha2 < beta0);
    assert!(beta0 < pre0);
    assert!(pre0 < rc0);
    assert!(rc0 < x_a);
    assert!(x_a < x_b);
    assert!(x_b < STABLE_REVISION)
}

#[test]
fn revision_exact_values() {
    // stable: empty pre-release, or an empty first identifier
    assert_eq!(get_revision(""), STABLE_REVISION);
    assert_eq!(get_revision(".1"), STABLE_REVISION);
    // 'a' is 97: 97 * 256 - 32768 - 1
    assert_eq!(get_revision("alpha.0"), -7937);
    assert_eq!(get_revision("alpha.1"), -7936);
    // no second identifier
    assert_eq!(get_revision("x") as i32, 120 * 256 - 32768 - 1);
    // second identifier taken by its first character when not a number
    assert_eq!(get_revision("x.a") as i32, 120 * 256 + 97 - 32768 - 1);
    // a numeric second identifier may carry a plus sign
    assert_eq!(get_revision("x.+9") as i32, 120 * 256 + 9 - 32768 - 1);
    // a numeric second identifier above one byte falls back to its first
    // character ('2' is 50)
    assert_eq!(get_revision("x.256") as i32, 120 * 256 + 50 - 32768 - 1);
}

#[test]
fn u8_decimal_parsing() {
    assert_eq!(parse_u8_decimal("0"), Some(0));
    assert_eq!(parse_u8_decimal("255"), Some(255));
    assert_eq!(parse_u8_decimal("007"), Some(7));
    assert_eq!(parse_u8_decimal("+7"), Some(7));
    assert_eq!(parse_u8_decimal("256"), None);
    assert_eq!(parse_u8_decimal(""), None);
    assert_eq!(parse_u8_decimal("+"), None);
    assert_eq!(parse_u8_decimal("-1"), None);
    assert_eq!(parse_u8_decimal("12a"), None);
}

#[test]
fn i16_decimal_parsing() {
    assert_eq!(parse_i16_decimal("0"), Some(0));
    assert_eq!(parse_i16_decimal("32767"), Some(32767));
    assert_eq!(parse_i16_decimal("32768"), None);
    assert_eq!(parse_i16_decimal("-32768"), Some(-32768));
    assert_eq!(parse_i16_decimal("-32769"), None);
    assert_eq!(parse_i16_decimal("+5"), Some(5));
    assert_eq!(parse_i16_decimal("-0"), Some(0));
    assert_eq!(parse_i16_decimal(""), None);
    assert_eq!(parse_i16_decimal("-"), None);
    assert_eq!(parse_i16_decimal("1.2"), None);
}

#[test]
fn version_from_parts() {
    let version = addon_version_from_parts("1", "2", "3", "alpha.1");
    assert_eq!(
        version,
        AddonVersion {
            major: 1,
            minor: 2,
            build: 3,
            revision: -7936,
        }
    );
    let stable = addon_version_from_parts("0", "12", "345", "");
    assert_eq!(
        stable,
        AddonVersion {
            major: 0,
            minor: 12,
            build: 345,
            revision: STABLE_REVISION,
        }
    );
}
