//! Checks of the decoder: family selection, sub-family selection and the
//! bit-field extractions.

use nauka::opcode::{
    EightOpcode, FifteenOpcode, FourteenOpcode, Opcode, ZeroOpcode, extract_addr, extract_byte,
    extract_n, extract_x, extract_y,
};

#[test]
fn family_follows_leading_nibble() {
    assert_eq!(Opcode::from_word(0x00E0), Opcode::ZeroOpcode);
    assert_eq!(Opcode::from_word(0x1234), Opcode::JpAddr);
    assert_eq!(Opcode::from_word(0x2ABC), Opcode::CallAddr);
    assert_eq!(Opcode::from_word(0x3123), Opcode::SeVxByte);
    assert_eq!(Opcode::from_word(0x4123), Opcode::SneVxByte);
    assert_eq!(Opcode::from_word(0x5120), Opcode::SeVxVy);
    assert_eq!(Opcode::from_word(0x6123), Opcode::LdVxByte);
    assert_eq!(Opcode::from_word(0x7123), Opcode::AddVxByte);
    assert_eq!(Opcode::from_word(0x8124), Opcode::EightOpcode);
    assert_eq!(Opcode::from_word(0x9120), Opcode::SneVxVy);
    assert_eq!(Opcode::from_word(0xA123), Opcode::LdIAddr);
    assert_eq!(Opcode::from_word(0xB123), Opcode::JpV0Addr);
    assert_eq!(Opcode::from_word(0xC123), Opcode::RndVxByte);
    assert_eq!(Opcode::from_word(0xD123), Opcode::DrwVxVy);
    assert_eq!(Opcode::from_word(0xE19E), Opcode::FourteenOpcode);
    assert_eq!(Opcode::from_word(0xF107), Opcode::FifteenOpcode);
}

#[test]
fn zero_family_follows_trailing_byte() {
    assert_eq!(ZeroOpcode::from_word(0x00E0), Some(ZeroOpcode::CLS));
    assert_eq!(ZeroOpcode::from_word(0x00EE), Some(ZeroOpcode::RET));
    assert_eq!(ZeroOpcode::from_word(0x0000), None);
    assert_eq!(ZeroOpcode::from_word(0x0123), None);
}

#[test]
fn eight_family_follows_final_nibble() {
    assert_eq!(EightOpcode::from_word(0x8120), Some(EightOpcode::LdVxVy));
    assert_eq!(EightOpcode::from_word(0x8121), Some(EightOpcode::OrVxVy));
    assert_eq!(EightOpcode::from_word(0x8122), Some(EightOpcode::AndVxVy));
    assert_eq!(EightOpcode::from_word(0x8123), Some(EightOpcode::XorVxVy));
    assert_eq!(EightOpcode::from_word(0x8124), Some(EightOpcode::AddVxVy));
    assert_eq!(EightOpcode::from_word(0x8125), Some(EightOpcode::SubVxVy));
    assert_eq!(EightOpcode::from_word(0x8126), Some(EightOpcode::ShrVx));
    assert_eq!(EightOpcode::from_word(0x8127), Some(EightOpcode::SubnVxVy));
    assert_eq!(EightOpcode::from_word(0x812E), Some(EightOpcode::ShlVx));
    assert_eq!(EightOpcode::from_word(0x8128), None);
    assert_eq!(EightOpcode::from_word(0x812F), None);
}

#[test]
fn fourteen_family_follows_trailing_byte() {
    assert_eq!(FourteenOpcode::from_word(0xE19E), Some(FourteenOpcode::SkpVx));
    assert_eq!(FourteenOpcode::from_word(0xE1A1), Some(FourteenOpcode::SkpnVx));
    assert_eq!(FourteenOpcode::from_word(0xE100), None);
}

#[test]
fn fifteen_family_follows_trailing_byte() {
    assert_eq!(FifteenOpcode::from_word(0xF107), Some(FifteenOpcode::LdVxDt));
    assert_eq!(FifteenOpcode::from_word(0xF10A), Some(FifteenOpcode::LdVxK));
    assert_eq!(FifteenOpcode::from_word(0xF115), Some(FifteenOpcode::LdDtVx));
    assert_eq!(FifteenOpcode::from_word(0xF118), Some(FifteenOpcode::LdStVx));
    assert_eq!(FifteenOpcode::from_word(0xF11E), Some(FifteenOpcode::AddIVx));
    assert_eq!(FifteenOpcode::from_word(0xF129), Some(FifteenOpcode::LdFVx));
    assert_eq!(FifteenOpcode::from_word(0xF133), Some(FifteenOpcode::LdBVx));
    assert_eq!(FifteenOpcode::from_word(0xF155), Some(FifteenOpcode::LdIVx));
    assert_eq!(FifteenOpcode::from_word(0xF165), Some(FifteenOpcode::LdVxI));
    assert_eq!(FifteenOpcode::from_word(0xF1FF), None);
}

#[test]
fn field_extractions() {
    assert_eq!(extract_addr(0x1ABC), 0xABC);
    assert_eq!(extract_byte(0x3A5F), 0x5F);
    assert_eq!(extract_x(0xD7A5), 0x7);
    assert_eq!(extract_y(0xD7A5), 0xA);
    assert_eq!(extract_n(0xD7A5), 0x5);
    assert_eq!(extract_addr(0xFFFF), 0xFFF);
    assert_eq!(extract_x(0x0000), 0);
}
