//! The decoder: bit-field extraction from a 16-bit instruction word, and
//! the closed sets of opcode families and sub-families that dispatch uses.
//!
//! Every 16-bit word decodes to some field combination; validity is judged
//! only at dispatch, where a word whose family or sub-family has no handler
//! is reported as an invalid opcode.

use vstd::prelude::*;

verus! {

/// The opcode family selected by the leading nibble (bits 12-15) of an
/// instruction word.
#[derive(Clone, Copy, Debug, PartialEq, Eq, Structural)]
pub enum Opcode {
    ZeroOpcode,
    JpAddr,
    CallAddr,
    SeVxByte,
    SneVxByte,
    SeVxVy,
    LdVxByte,
    AddVxByte,
    EightOpcode,
    SneVxVy,
    LdIAddr,
    JpV0Addr,
    RndVxByte,
    DrwVxVy,
    FourteenOpcode,
    FifteenOpcode,
}

/// Sub-family of family 0x0, selected by the trailing byte.
#[derive(Clone, Copy, Debug, PartialEq, Eq, Structural)]
pub enum ZeroOpcode {
    CLS,
    RET,
}

/// Sub-family of family 0x8, selected by the final nibble.
#[derive(Clone, Copy, Debug, PartialEq, Eq, Structural)]
pub enum EightOpcode {
    LdVxVy,
    OrVxVy,
    AndVxVy,
    XorVxVy,
    AddVxVy,
    SubVxVy,
    ShrVx,
    SubnVxVy,
    ShlVx,
}

/// Sub-family of family 0xE, selected by the trailing byte.
#[derive(Clone, Copy, Debug, PartialEq, Eq, Structural)]
pub enum FourteenOpcode {
    SkpVx,
    SkpnVx,
}

/// Sub-family of family 0xF, selected by the trailing byte.
#[derive(Clone, Copy, Debug, PartialEq, Eq, Structural)]
pub enum FifteenOpcode {
    LdVxDt,
    LdVxK,
    LdDtVx,
    LdStVx,
    AddIVx,
    LdFVx,
    LdBVx,
    LdIVx,
    LdVxI,
}

/// The leading nibble of the word: bits 12-15.
pub open spec fn family_of(w: u16) -> int {
    (w as int) / 4096
}

/// The three-nibble address/immediate field: bits 0-11.
pub open spec fn nnn_of(w: u16) -> int {
    (w as int) % 4096
}

/// The trailing byte: bits 0-7.
pub open spec fn kk_of(w: u16) -> int {
    (w as int) % 256
}

/// The register-index nibble at bits 8-11.
pub open spec fn x_of(w: u16) -> int {
    ((w as int) / 256) % 16
}

/// The register-index nibble at bits 4-7.
pub open spec fn y_of(w: u16) -> int {
    ((w as int) / 16) % 16
}

/// The final nibble: bits 0-3.
pub open spec fn n_of(w: u16) -> int {
    (w as int) % 16
}

/// The family that the leading nibble selects; every word has one.
pub open spec fn spec_family(w: u16) -> Opcode {
    if family_of(w) == 0x0 {
        Opcode::ZeroOpcode
    } else if family_of(w) == 0x1 {
        Opcode::JpAddr
    } else if family_of(w) == 0x2 {
        Opcode::CallAddr
    } else if family_of(w) == 0x3 {
        Opcode::SeVxByte
    } else if family_of(w) == 0x4 {
        Opcode::SneVxByte
    } else if family_of(w) == 0x5 {
        Opcode::SeVxVy
    } else if family_of(w) == 0x6 {
        Opcode::LdVxByte
    } else if family_of(w) == 0x7 {
        Opcode::AddVxByte
    } else if family_of(w) == 0x8 {
        Opcode::EightOpcode
    } else if family_of(w) == 0x9 {
        Opcode::SneVxVy
    } else if family_of(w) == 0xA {
        Opcode::LdIAddr
    } else if family_of(w) == 0xB {
        Opcode::JpV0Addr
    } else if family_of(w) == 0xC {
        Opcode::RndVxByte
    } else if family_of(w) == 0xD {
        Opcode::DrwVxVy
    } else if family_of(w) == 0xE {
        Opcode::FourteenOpcode
    } else {
        Opcode::FifteenOpcode
    }
}

/// The sub-family of a family-0x0 word, if its trailing byte names one.
pub open spec fn spec_zero(w: u16) -> Option<ZeroOpcode> {
    if kk_of(w) == 0xE0 {
        Some(ZeroOpcode::CLS)
    } else if kk_of(w) == 0xEE {
        Some(ZeroOpcode::RET)
    } else {
        None
    }
}

/// The sub-family of a family-0x8 word, if its final nibble names one.
pub open spec fn spec_eight(w: u16) -> Option<EightOpcode> {
    if n_of(w) == 0x0 {
        Some(EightOpcode::LdVxVy)
    } else if n_of(w) == 0x1 {
        Some(EightOpcode::OrVxVy)
    } else if n_of(w) == 0x2 {
        Some(EightOpcode::AndVxVy)
    } else if n_of(w) == 0x3 {
        Some(EightOpcode::XorVxVy)
    } else if n_of(w) == 0x4 {
        Some(EightOpcode::AddVxVy)
    } else if n_of(w) == 0x5 {
        Some(EightOpcode::SubVxVy)
    } else if n_of(w) == 0x6 {
        Some(EightOpcode::ShrVx)
    } else if n_of(w) == 0x7 {
        Some(EightOpcode::SubnVxVy)
    } else if n_of(w) == 0xE {
        Some(EightOpcode::ShlVx)
    } else {
        None
    }
}

/// The sub-family of a family-0xE word, if its trailing byte names one.
pub open spec fn spec_fourteen(w: u16) -> Option<FourteenOpcode> {
    if kk_of(w) == 0x9E {
        Some(FourteenOpcode::SkpVx)
    } else if kk_of(w) == 0xA1 {
        Some(FourteenOpcode::SkpnVx)
    } else {
        None
    }
}

/// The sub-family of a family-0xF word, if its trailing byte names one.
pub open spec fn spec_fifteen(w: u16) -> Option<FifteenOpcode> {
    if kk_of(w) == 0x07 {
        Some(FifteenOpcode::LdVxDt)
    } else if kk_of(w) == 0x0A {
        Some(FifteenOpcode::LdVxK)
    } else if kk_of(w) == 0x15 {
        Some(FifteenOpcode::LdDtVx)
    } else if kk_of(w) == 0x18 {
        Some(FifteenOpcode::LdStVx)
    } else if kk_of(w) == 0x1E {
        Some(FifteenOpcode::AddIVx)
    } else if kk_of(w) == 0x29 {
        Some(FifteenOpcode::LdFVx)
    } else if kk_of(w) == 0x33 {
        Some(FifteenOpcode::LdBVx)
    } else if kk_of(w) == 0x55 {
        Some(FifteenOpcode::LdIVx)
    } else if kk_of(w) == 0x65 {
        Some(FifteenOpcode::LdVxI)
    } else {
        None
    }
}

/// The three-nibble address/immediate field of the word.
pub fn extract_addr(w: u16) -> (r: u16)
    ensures
        r == nnn_of(w),
{
    w % 4096
}

/// The trailing byte of the word.
pub fn extract_byte(w: u16) -> (r: u8)
    ensures
        r == kk_of(w),
{
    ((w % 256) as u8)
}

/// The register-index nibble at bits 8-11.
pub fn extract_x(w: u16) -> (r: u8)
    ensures
        r == x_of(w),
        r < 16,
{
    (((w / 256) % 16) as u8)
}

/// The register-index nibble at bits 4-7.
pub fn extract_y(w: u16) -> (r: u8)
    ensures
        r == y_of(w),
        r < 16,
{
    (((w / 16) % 16) as u8)
}

/// The final nibble of the word.
pub fn extract_n(w: u16) -> (r: u8)
    ensures
        r == n_of(w),
        r < 16,
{
    ((w % 16) as u8)
}

impl Opcode {
    /// The family of the word; total, since every leading nibble names one.
    pub fn from_word(w: u16) -> (r: Opcode)
        ensures
            r == spec_family(w),
    {
        let f: u16 = w / 4096;
        if f == 0x0 {
            Opcode::ZeroOpcode
        } else if f == 0x1 {
            Opcode::JpAddr
        } else if f == 0x2 {
            Opcode::CallAddr
        } else if f == 0x3 {
            Opcode::SeVxByte
        } else if f == 0x4 {
            Opcode::SneVxByte
        } else if f == 0x5 {
            Opcode::SeVxVy
        } else if f == 0x6 {
            Opcode::LdVxByte
        } else if f == 0x7 {
            Opcode::AddVxByte
        } else if f == 0x8 {
            Opcode::EightOpcode
        } else if f == 0x9 {
            Opcode::SneVxVy
        } else if f == 0xA {
            Opcode::LdIAddr
        } else if f == 0xB {
            Opcode::JpV0Addr
        } else if f == 0xC {
            Opcode::RndVxByte
        } else if f == 0xD {
            Opcode::DrwVxVy
        } else if f == 0xE {
            Opcode::FourteenOpcode
        } else {
            Opcode::FifteenOpcode
        }
    }
}

impl ZeroOpcode {
    /// The sub-family of a family-0x0 word, `None` where no handler exists.
    pub fn from_word(w: u16) -> (r: Option<ZeroOpcode>)
        ensures
            r == spec_zero(w),
    {
        let kk: u16 = w % 256;
        if kk == 0xE0 {
            Some(ZeroOpcode::CLS)
        } else if kk == 0xEE {
            Some(ZeroOpcode::RET)
        } else {
            None
        }
    }
}

impl EightOpcode {
    /// The sub-family of a family-0x8 word, `None` where no handler exists.
    pub fn from_word(w: u16) -> (r: Option<EightOpcode>)
        ensures
            r == spec_eight(w),
    {
        let n: u16 = w % 16;
        if n == 0x0 {
            Some(EightOpcode::LdVxVy)
        } else if n == 0x1 {
            Some(EightOpcode::OrVxVy)
        } else if n == 0x2 {
            Some(EightOpcode::AndVxVy)
        } else if n == 0x3 {
            Some(EightOpcode::XorVxVy)
        } else if n == 0x4 {
            Some(EightOpcode::AddVxVy)
        } else if n == 0x5 {
            Some(EightOpcode::SubVxVy)
        } else if n == 0x6 {
            Some(EightOpcode::ShrVx)
        } else if n == 0x7 {
            Some(EightOpcode::SubnVxVy)
        } else if n == 0xE {
            Some(EightOpcode::ShlVx)
        } else {
            None
        }
    }
}

impl FourteenOpcode {
    /// The sub-family of a family-0xE word, `None` where no handler exists.
    pub fn from_word(w: u16) -> (r: Option<FourteenOpcode>)
        ensures
            r == spec_fourteen(w),
    {
        let kk: u16 = w % 256;
        if kk == 0x9E {
            Some(FourteenOpcode::SkpVx)
        } else if kk == 0xA1 {
            Some(FourteenOpcode::SkpnVx)
        } else {
            None
        }
    }
}

impl FifteenOpcode {
    /// The sub-family of a family-0xF word, `None` where no handler exists.
    pub fn from_word(w: u16) -> (r: Option<FifteenOpcode>)
        ensures
            r == spec_fifteen(w),
    {
        let kk: u16 = w % 256;
        if kk == 0x07 {
            Some(FifteenOpcode::LdVxDt)
        } else if kk == 0x0A {
            Some(FifteenOpcode::LdVxK)
        } else if kk == 0x15 {
            Some(FifteenOpcode::LdDtVx)
        } else if kk == 0x18 {
            Some(FifteenOpcode::LdStVx)
        } else if kk == 0x1E {
            Some(FifteenOpcode::AddIVx)
        } else if kk == 0x29 {
            Some(FifteenOpcode::LdFVx)
        } else if kk == 0x33 {
            Some(FifteenOpcode::LdBVx)
        } else if kk == 0x55 {
            Some(FifteenOpcode::LdIVx)
        } else if kk == 0x65 {
            Some(FifteenOpcode::LdVxI)
        } else {
            None
        }
    }
}

} // verus!
