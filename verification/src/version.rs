//! The packed version code that the backend reports when it is initialised.

use vstd::prelude::*;

verus! {

/// Bits 31..24 of a version code.
pub open spec fn major_of(code: i32) -> i32 {
    (code >> 24u32) & 0xff
}

/// Bits 23..16 of a version code.
pub open spec fn minor_of(code: i32) -> i32 {
    (code >> 16u32) & 0xff
}

/// Bits 15..0 of a version code.
pub open spec fn build_of(code: i32) -> i32 {
    code & 0xffff
}

/// The code whose three bit fields are the low bits of `major`, `minor` and
/// `build`.
pub open spec fn code_of(major: i32, minor: i32, build: i32) -> i32 {
    (((major as u32 & 0xff) << 24u32) | ((minor as u32 & 0xff) << 16u32) | (build as u32
        & 0xffff)) as i32
}

/// The major number of a version code: its bits 31..24.
#[allow(non_snake_case)]
pub fn SANE_VERSION_MAJOR(code: i32) -> (major: i32)
    ensures
        major == major_of(code),
        0 <= major <= 0xff,
{
    assert(0 <= ((code >> 24u32) & 0xff) <= 0xff) by (bit_vector);
    (code >> 24u32) & 0xff
}

/// The minor number of a version code: its bits 23..16.
#[allow(non_snake_case)]
pub fn SANE_VERSION_MINOR(code: i32) -> (minor: i32)
    ensures
        minor == minor_of(code),
        0 <= minor <= 0xff,
{
    assert(0 <= ((code >> 16u32) & 0xff) <= 0xff) by (bit_vector);
    (code >> 16u32) & 0xff
}

/// The build number of a version code: its bits 15..0.
#[allow(non_snake_case)]
pub fn SANE_VERSION_BUILD(code: i32) -> (build: i32)
    ensures
        build == build_of(code),
        0 <= build <= 0xffff,
{
    assert(0 <= (code & 0xffff) <= 0xffff) by (bit_vector);
    code & 0xffff
}

/// Packs three numbers into one version code. Only the low eight bits of
/// `major` and `minor` and the low sixteen bits of `build` are kept.
#[allow(non_snake_case)]
pub fn SANE_VERSION_CODE(major: i32, minor: i32, build: i32) -> (code: i32)
    ensures
        code == code_of(major, minor, build),
{
    let hi: u32 = (major as u32 & 0xff) << 24u32;
    let mid: u32 = (minor as u32 & 0xff) << 16u32;
    let lo: u32 = build as u32 & 0xffff;
    (hi | mid | lo) as i32
}

/// A version code as the backend reports it.
#[derive(Clone, Copy, Debug, PartialEq, Eq, Structural)]
pub struct Version(pub i32);

impl Version {
    /// The version made of the three numbers, each cut to its field's width.
    pub fn new(major: i32, minor: i32, build: i32) -> (v: Version)
        ensures
            v.0 == code_of(major, minor, build),
    {
        Version(SANE_VERSION_CODE(major, minor, build))
    }

    pub fn major(self) -> (major: i32)
        ensures
            major == major_of(self.0),
            0 <= major <= 0xff,
    {
        SANE_VERSION_MAJOR(self.0)
    }

    pub fn minor(self) -> (minor: i32)
        ensures
            minor == minor_of(self.0),
            0 <= minor <= 0xff,
    {
        SANE_VERSION_MINOR(self.0)
    }

    pub fn build(self) -> (build: i32)
        ensures
            build == build_of(self.0),
            0 <= build <= 0xffff,
    {
        SANE_VERSION_BUILD(self.0)
    }
}

/// Unpacking a code and packing the three numbers again gives the code back.
pub proof fn lemma_pack_unpack(code: i32)
    ensures
        code_of(major_of(code), minor_of(code), build_of(code)) == code,
{
    assert((((((code >> 24u32) & 0xff) as u32 & 0xff) << 24u32) | ((((code >> 16u32) & 0xff) as u32
        & 0xff) << 16u32) | ((code & 0xffff) as u32 & 0xffff)) as i32 == code) by (bit_vector);
}

/// Packing three numbers that fit their fields and unpacking the code gives
/// the three numbers back.
pub proof fn lemma_unpack_pack(major: i32, minor: i32, build: i32)
    requires
        0 <= major <= 0xff,
        0 <= minor <= 0xff,
        0 <= build <= 0xffff,
    ensures
        major_of(code_of(major, minor, build)) == major,
        minor_of(code_of(major, minor, build)) == minor,
        build_of(code_of(major, minor, build)) == build,
{
    let code = code_of(major, minor, build);
    assert(((((((major as u32 & 0xff) << 24u32) | ((minor as u32 & 0xff) << 16u32) | (build as u32
        & 0xffff)) as i32) >> 24u32) & 0xff) == major) by (bit_vector)
        requires
            0 <= major <= 0xff,
            0 <= minor <= 0xff,
            0 <= build <= 0xffff,
    ;
    assert(((((((major as u32 & 0xff) << 24u32) | ((minor as u32 & 0xff) << 16u32) | (build as u32
        & 0xffff)) as i32) >> 16u32) & 0xff) == minor) by (bit_vector)
        requires
            0 <= major <= 0xff,
            0 <= minor <= 0xff,
            0 <= build <= 0xffff,
    ;
    assert((((((major as u32 & 0xff) << 24u32) | ((minor as u32 & 0xff) << 16u32) | (build as u32
        & 0xffff)) as i32) & 0xffff) == build) by (bit_vector)
        requires
            0 <= major <= 0xff,
            0 <= minor <= 0xff,
            0 <= build <= 0xffff,
    ;
}

/// The three fields as arithmetic on a code that is not negative.
pub proof fn lemma_fields_as_arithmetic(code: i32)
    requires
        code >= 0,
    ensures
        major_of(code) == code / 0x100_0000,
        minor_of(code) == (code / 0x1_0000) % 0x100,
        build_of(code) == code % 0x1_0000,
{
    assert(((code >> 24u32) & 0xff) == code / 0x100_0000) by (bit_vector)
        requires
            code >= 0,
    ;
    assert(((code >> 16u32) & 0xff) == (code / 0x1_0000) % 0x100) by (bit_vector)
        requires
            code >= 0,
    ;
    assert((code & 0xffff) == code % 0x1_0000) by (bit_vector)
        requires
            code >= 0,
    ;
}

} // verus!
