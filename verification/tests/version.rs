use sane_scan::{
    Version, SANE_VERSION_BUILD, SANE_VERSION_CODE, SANE_VERSION_MAJOR, SANE_VERSION_MINOR,
};

#[test]
fn version_fields_of_a_known_code() {
    let code: i32 = 0x0102_0304;
    assert_eq!(SANE_VERSION_MAJOR(code), 1);
    assert_eq!(SANE_VERSION_MINOR(code), 2);
    assert_eq!(SANE_VERSION_BUILD(code), 0x0304);
}

#[test]
fn version_fields_of_a_negative_code() {
    // All bits set: each field is all ones in its own width.
    assert_eq!(SANE_VERSION_MAJOR(-1), 0xff);
    assert_eq!(SANE_VERSION_MINOR(-1), 0xff);
    assert_eq!(SANE_VERSION_BUILD(-1), 0xffff);
    assert_eq!(SANE_VERSION_MAJOR(i32::MIN), 0x80);
    assert_eq!(SANE_VERSION_MINOR(i32::MIN), 0);
    assert_eq!(SANE_VERSION_BUILD(i32::MIN), 0);
}

#[test]
fn version_code_packs_the_fields() {
    assert_eq!(SANE_VERSION_CODE(1, 0, 29), 0x0100_001d);
    assert_eq!(SANE_VERSION_CODE(1, 2, 0x0304), 0x0102_0304);
    // Only the low bits of each number are kept.
    assert_eq!(SANE_VERSION_CODE(0x101, 0x102, 0x1_0003), 0x0102_0003);
}

#[test]
fn version_round_trip_from_fields() {
    for &(major, minor, build) in &[(0, 0, 0), (1, 0, 29), (255, 255, 65535), (128, 7, 4096)] {
        let code = SANE_VERSION_CODE(major, minor, build);
        assert_eq!(SANE_VERSION_MAJOR(code), major);
        assert_eq!(SANE_VERSION_MINOR(code), minor);
        assert_eq!(SANE_VERSION_BUILD(code), build);
    }
}

#[test]
fn version_round_trip_from_code() {
    for &code in &[0, 1, -1, i32::MIN, i32::MAX, 0x0100_001d, -123_456_789] {
        let again = SANE_VERSION_CODE(
            SANE_VERSION_MAJOR(code),
            SANE_VERSION_MINOR(code),
            SANE_VERSION_BUILD(code),
        );
        assert_eq!(again, code);
    }
}

#[test]
fn version_type_reads_its_code() {
    let v = Version(0x0100_001d);
    assert_eq!(v.major(), 1);
    assert_eq!(v.minor(), 0);
    assert_eq!(v.build(), 29);
    let w = Version::new(1, 0, 29);
    assert_eq!(w, v);
}
