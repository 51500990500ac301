//! Four-character pixel format codes.

use vstd::arithmetic::div_mod::lemma_fundamental_div_mod_converse;
use vstd::prelude::*;

verus! {

/// A four-character code: the four bytes that name a pixel layout, first
/// character first.
#[derive(Clone, Copy, Debug, PartialEq, Eq, Structural, Hash)]
pub struct FourCC(pub u8, pub u8, pub u8, pub u8);

/// Packed 24-bit RGB, `RGB3`.
pub open spec fn spec_rgb3() -> FourCC {
    FourCC(0x52, 0x47, 0x42, 0x33)
}

/// Packed 32-bit RGB with an unused fourth byte, `RGBX`.
pub open spec fn spec_rgbx() -> FourCC {
    FourCC(0x52, 0x47, 0x42, 0x58)
}

/// Packed 32-bit RGB with alpha, `RGBA`.
pub open spec fn spec_rgba() -> FourCC {
    FourCC(0x52, 0x47, 0x42, 0x41)
}

/// Packed 4:2:2 YUV, `YUYV`.
pub open spec fn spec_yuyv() -> FourCC {
    FourCC(0x59, 0x55, 0x59, 0x56)
}

/// Planar 4:2:0 YUV, `NV12`.
pub open spec fn spec_nv12() -> FourCC {
    FourCC(0x4e, 0x56, 0x31, 0x32)
}

/// Packed 24-bit RGB, `RGB3`.
#[verifier::when_used_as_spec(spec_rgb3)]
pub fn rgb3() -> (f: FourCC)
    ensures
        f == spec_rgb3(),
{
    FourCC(0x52, 0x47, 0x42, 0x33)
}

/// Packed 32-bit RGB with an unused fourth byte, `RGBX`.
#[verifier::when_used_as_spec(spec_rgbx)]
pub fn rgbx() -> (f: FourCC)
    ensures
        f == spec_rgbx(),
{
    FourCC(0x52, 0x47, 0x42, 0x58)
}

/// Packed 32-bit RGB with alpha, `RGBA`.
#[verifier::when_used_as_spec(spec_rgba)]
pub fn rgba() -> (f: FourCC)
    ensures
        f == spec_rgba(),
{
    FourCC(0x52, 0x47, 0x42, 0x41)
}

/// Packed 4:2:2 YUV, `YUYV`.
#[verifier::when_used_as_spec(spec_yuyv)]
pub fn yuyv() -> (f: FourCC)
    ensures
        f == spec_yuyv(),
{
    FourCC(0x59, 0x55, 0x59, 0x56)
}

/// Planar 4:2:0 YUV, `NV12`.
#[verifier::when_used_as_spec(spec_nv12)]
pub fn nv12() -> (f: FourCC)
    ensures
        f == spec_nv12(),
{
    FourCC(0x4e, 0x56, 0x31, 0x32)
}

impl FourCC {
    /// The number that the code packs to: the first character in the lowest
    /// byte, the fourth in the highest.
    pub open spec fn packed(self) -> int {
        self.0 + 256 * self.1 + 65536 * self.2 + 16777216 * self.3
    }

    /// The code that a number unpacks to: the inverse of [`FourCC::packed`].
    pub open spec fn unpacked(code: int) -> FourCC {
        FourCC(
            (code % 256) as u8,
            (code / 256 % 256) as u8,
            (code / 65536 % 256) as u8,
            (code / 16777216 % 256) as u8,
        )
    }

    /// The code made of four bytes, first character first.
    pub fn new(bytes: [u8; 4]) -> (f: FourCC)
        ensures
            f == FourCC(bytes[0], bytes[1], bytes[2], bytes[3]),
    {
        FourCC(bytes[0], bytes[1], bytes[2], bytes[3])
    }

    /// The four bytes, first character first.
    pub fn bytes(self) -> (b: [u8; 4])
        ensures
            b@ == seq![self.0, self.1, self.2, self.3],
    {
        let b: [u8; 4] = [self.0, self.1, self.2, self.3];
        assert(b@ =~= seq![self.0, self.1, self.2, self.3]);
        b
    }

    /// Packs the code into a `u32`, first character in the lowest byte.
    pub fn as_u32(self) -> (code: u32)
        ensures
            code == self.packed(),
    {
        let b0: u32 = self.0 as u32;
        let b1: u32 = self.1 as u32;
        let b2: u32 = self.2 as u32;
        let b3: u32 = self.3 as u32;
        b0 + 256 * b1 + 65536 * b2 + 16777216 * b3
    }

    /// Unpacks a `u32` into a code, lowest byte first.
    pub fn from_u32(code: u32) -> (f: FourCC)
        ensures
            f == FourCC::unpacked(code as int),
            f.packed() == code,
    {
        let f = FourCC(
            (code % 256) as u8,
            (code / 256 % 256) as u8,
            (code / 65536 % 256) as u8,
            (code / 16777216) as u8,
        );
        proof {
            FourCC::lemma_unpack_pack(code as int);
        }
        f
    }

    /// Packing what a 32-bit number unpacks to gives the number back.
    pub proof fn lemma_unpack_pack(code: int)
        requires
            0 <= code < 0x1_0000_0000,
        ensures
            FourCC::unpacked(code).packed() == code,
            code / 16777216 % 256 == code / 16777216,
    {
    }

    /// Unpacking what a code packs to gives the code back.
    pub proof fn lemma_pack_unpack(f: FourCC)
        ensures
            0 <= f.packed() < 0x1_0000_0000,
            FourCC::unpacked(f.packed()) == f,
    {
        let p = f.packed();
        let low2 = f.0 + 256 * f.1;
        let low3 = low2 + 65536 * f.2;
        lemma_fundamental_div_mod_converse(p, 256, f.1 + 256 * f.2 + 65536 * f.3, f.0 as int);
        lemma_fundamental_div_mod_converse(p / 256, 256, f.2 + 256 * f.3, f.1 as int);
        lemma_fundamental_div_mod_converse(p, 65536, f.2 + 256 * f.3, low2);
        lemma_fundamental_div_mod_converse(p / 65536, 256, f.3 as int, f.2 as int);
        lemma_fundamental_div_mod_converse(p, 16777216, f.3 as int, low3);
        lemma_fundamental_div_mod_converse(p / 16777216, 256, 0, f.3 as int);
    }
}

} // verus!
