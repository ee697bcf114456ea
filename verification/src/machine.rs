//! The mathematical model of the machine: a ghost view of the whole state
//! and one transition function per instruction.  The engine's contracts say
//! that each cycle takes the state to exactly what these functions compute.

use vstd::prelude::*;
use crate::opcode::{Opcode, ZeroOpcode, EightOpcode, FourteenOpcode, FifteenOpcode};
use crate::opcode::{spec_family, spec_zero, spec_eight, spec_fourteen, spec_fifteen};
use crate::opcode::{nnn_of, kk_of, x_of, y_of, n_of};

verus! {

/// Everything that can cut a cycle short.  All of these are fatal: the
/// program counter is left where the failing instruction was fetched, so the
/// host can report it and decide whether to reset, reload or exit.
#[derive(Clone, Copy, Debug, PartialEq, Eq, Structural)]
pub enum EmulatorError {
    /// The program image does not fit between 0x200 and the end of memory.
    RomTooLarge,
    /// The fetched word matches no recognized opcode pattern; carries the raw
    /// word and the program counter at which it was fetched.
    InvalidOpcode { opcode: u16, pc: u16 },
    /// A call would nest deeper than the sixteen stack slots.
    StackOverflow,
    /// A return was executed with no matching call.
    StackUnderflow,
    /// A fetch, sprite read or store/load would touch memory past 0xFFF;
    /// carries the base address of the offending access.
    MemoryOutOfRange { address: u16 },
}

/// The machine state as mathematics: memory and registers as sequences, the
/// framebuffer as a 64-column sequence of 32-pixel columns (indexed x, then
/// y), and the pressed-key set as the sequence the host supplied.
#[verifier::ext_equal]
pub ghost struct MachineView {
    pub mem: Seq<u8>,
    pub stack: Seq<u16>,
    pub video: Seq<Seq<bool>>,
    pub sp: u8,
    pub pc: u16,
    pub vx: Seq<u8>,
    pub i: u16,
    pub delay: u8,
    pub sound: u8,
    pub keys: Seq<u8>,
}

impl MachineView {
    /// Well-formedness: the fixed sizes of the data, the stack pointer within
    /// its sixteen slots, and every stored return address low enough that the
    /// return instruction's `+ 2` stays a valid fetch address.
    pub open spec fn wf(self) -> bool {
        &&& self.mem.len() == 4096
        &&& self.stack.len() == 16
        &&& self.vx.len() == 16
        &&& self.video.len() == 64
        &&& (forall|x: int| 0 <= x < 64 ==> (#[trigger] self.video[x]).len() == 32)
        &&& self.sp <= 16
        &&& (forall|k: int| 0 <= k < 16 ==> #[trigger] self.stack[k] <= 4094)
    }
}

/// The fixed glyph font: digits 0 to F, five bytes each.
pub open spec fn font_seq() -> Seq<u8> {
    seq![
        0xF0u8, 0x90, 0x90, 0x90, 0xF0,
        0x20, 0x60, 0x20, 0x20, 0x70,
        0xF0, 0x10, 0xF0, 0x80, 0xF0,
        0xF0, 0x10, 0xF0, 0x10, 0xF0,
        0x90, 0x90, 0xF0, 0x10, 0x10,
        0xF0, 0x80, 0xF0, 0x10, 0xF0,
        0xF0, 0x80, 0xF0, 0x90, 0xF0,
        0xF0, 0x10, 0x20, 0x40, 0x40,
        0xF0, 0x90, 0xF0, 0x90, 0xF0,
        0xF0, 0x90, 0xF0, 0x10, 0xF0,
        0xF0, 0x90, 0xF0, 0x90, 0x90,
        0xE0, 0x90, 0xE0, 0x90, 0xE0,
        0xF0, 0x80, 0x80, 0x80, 0xF0,
        0xE0, 0x90, 0x90, 0x90, 0xE0,
        0xF0, 0x80, 0xF0, 0x80, 0xF0,
        0xF0, 0x80, 0xF0, 0x80, 0x80,
    ]
}

/// An all-dark framebuffer.
pub open spec fn blank_video() -> Seq<Seq<bool>> {
    Seq::new(64, |x: int| Seq::new(32, |y: int| false))
}

/// The machine as constructed: font at 0x50, the program image at 0x200,
/// every register, timer and pixel zeroed, the program counter at the entry
/// address 0x200.  Only meaningful for images of at most 3584 bytes.
pub open spec fn spec_new(rom: Seq<u8>) -> MachineView {
    MachineView {
        mem: Seq::new(4096, |a: int|
            if 0x50 <= a < 0xA0 {
                font_seq()[a - 0x50]
            } else if 0x200 <= a < 0x200 + rom.len() {
                rom[a - 0x200]
            } else {
                0u8
            }),
        stack: Seq::new(16, |k: int| 0u16),
        video: blank_video(),
        sp: 0,
        pc: 0x200,
        vx: Seq::new(16, |k: int| 0u8),
        i: 0,
        delay: 0,
        sound: 0,
        keys: Seq::empty(),
    }
}

/// One countdown step of a timer: toward zero, never below it.
pub open spec fn spec_tick_timer(t: u8) -> u8 {
    if t > 0 { (t - 1) as u8 } else { 0 }
}

/// Phase (a) of a cycle: both timers count down.
pub open spec fn spec_tick_timers(m: MachineView) -> MachineView {
    MachineView { delay: spec_tick_timer(m.delay), sound: spec_tick_timer(m.sound), ..m }
}

/// Phase (d) of a cycle: the pressed-key snapshot is discarded.
pub open spec fn spec_clear_keys(m: MachineView) -> MachineView {
    MachineView { keys: Seq::empty(), ..m }
}

/// The big-endian instruction word at the program counter.
pub open spec fn spec_fetch(m: MachineView) -> u16 {
    (m.mem[m.pc as int] * 256 + m.mem[m.pc as int + 1]) as u16
}

/// Screen clear: every pixel dark, program counter past the instruction.
pub open spec fn spec_cls(m: MachineView) -> MachineView {
    MachineView { video: blank_video(), pc: (m.pc + 2) as u16, ..m }
}

/// Return: pop the stored call address, zero the freed slot, and resume two
/// bytes past it.  Underflows when no call is outstanding.
pub open spec fn spec_ret(m: MachineView) -> Result<MachineView, EmulatorError> {
    if m.sp == 0 {
        Err(EmulatorError::StackUnderflow)
    } else {
        Ok(MachineView {
            pc: (m.stack[m.sp as int - 1] + 2) as u16,
            stack: m.stack.update(m.sp as int - 1, 0u16),
            sp: (m.sp - 1) as u8,
            ..m
        })
    }
}

/// Jump: the program counter becomes the 12-bit address.
pub open spec fn spec_jump(m: MachineView, nnn: u16) -> MachineView {
    MachineView { pc: nnn, ..m }
}

/// Call: push the call instruction's own address, then jump.  Overflows when
/// all sixteen slots hold outstanding calls.
pub open spec fn spec_call(m: MachineView, nnn: u16) -> Result<MachineView, EmulatorError> {
    if m.sp >= 16 {
        Err(EmulatorError::StackOverflow)
    } else {
        Ok(MachineView {
            stack: m.stack.update(m.sp as int, m.pc),
            sp: (m.sp + 1) as u8,
            pc: nnn,
            ..m
        })
    }
}

/// A conditional skip: four bytes forward when the condition holds, else two.
pub open spec fn spec_skip_if(m: MachineView, cond: bool) -> MachineView {
    MachineView { pc: if cond { (m.pc + 4) as u16 } else { (m.pc + 2) as u16 }, ..m }
}

/// Load immediate into Vx.
pub open spec fn spec_ld_vx_byte(m: MachineView, x: int, kk: u8) -> MachineView {
    MachineView { vx: m.vx.update(x, kk), pc: (m.pc + 2) as u16, ..m }
}

/// Add immediate to Vx, wrapping modulo 256; no flag.
pub open spec fn spec_add_vx_byte(m: MachineView, x: int, kk: u8) -> MachineView {
    MachineView { vx: m.vx.update(x, ((m.vx[x] + kk) % 256) as u8), pc: (m.pc + 2) as u16, ..m }
}

/// Copy Vy into Vx.
pub open spec fn spec_ld_vx_vy(m: MachineView, x: int, y: int) -> MachineView {
    MachineView { vx: m.vx.update(x, m.vx[y]), pc: (m.pc + 2) as u16, ..m }
}

/// Bitwise OR of Vx and Vy into Vx.
pub open spec fn spec_or_vx_vy(m: MachineView, x: int, y: int) -> MachineView {
    MachineView { vx: m.vx.update(x, m.vx[x] | m.vx[y]), pc: (m.pc + 2) as u16, ..m }
}

/// Bitwise AND of Vx and Vy into Vx.
pub open spec fn spec_and_vx_vy(m: MachineView, x: int, y: int) -> MachineView {
    MachineView { vx: m.vx.update(x, m.vx[x] & m.vx[y]), pc: (m.pc + 2) as u16, ..m }
}

/// Bitwise XOR of Vx and Vy into Vx.
pub open spec fn spec_xor_vx_vy(m: MachineView, x: int, y: int) -> MachineView {
    MachineView { vx: m.vx.update(x, m.vx[x] ^ m.vx[y]), pc: (m.pc + 2) as u16, ..m }
}

/// Add Vy to Vx modulo 256; VF becomes 1 exactly when the mathematical sum
/// exceeds 255 (a flag written after the sum, so with x = 15 the flag wins).
pub open spec fn spec_add_vx_vy(m: MachineView, x: int, y: int) -> MachineView {
    MachineView {
        vx: m.vx
            .update(x, ((m.vx[x] + m.vx[y]) % 256) as u8)
            .update(15, if m.vx[x] + m.vx[y] > 255 { 1u8 } else { 0u8 }),
        pc: (m.pc + 2) as u16,
        ..m
    }
}

/// Subtract Vy from Vx modulo 256; VF becomes 1 exactly when the minuend Vx
/// strictly exceeded the subtrahend Vy (the no-borrow case).
pub open spec fn spec_sub_vx_vy(m: MachineView, x: int, y: int) -> MachineView {
    MachineView {
        vx: m.vx
            .update(x, ((m.vx[x] - m.vx[y] + 256) % 256) as u8)
            .update(15, if m.vx[x] > m.vx[y] { 1u8 } else { 0u8 }),
        pc: (m.pc + 2) as u16,
        ..m
    }
}

/// Shift Vx right one bit; VF receives the bit shifted out.
pub open spec fn spec_shr_vx(m: MachineView, x: int) -> MachineView {
    MachineView {
        vx: m.vx
            .update(x, ((m.vx[x] as int) / 2) as u8)
            .update(15, ((m.vx[x] as int) % 2) as u8),
        pc: (m.pc + 2) as u16,
        ..m
    }
}

/// Subtract Vx from Vy into Vx modulo 256; VF becomes 1 exactly when the
/// minuend Vy strictly exceeded the subtrahend Vx.
pub open spec fn spec_subn_vx_vy(m: MachineView, x: int, y: int) -> MachineView {
    MachineView {
        vx: m.vx
            .update(x, ((m.vx[y] - m.vx[x] + 256) % 256) as u8)
            .update(15, if m.vx[y] > m.vx[x] { 1u8 } else { 0u8 }),
        pc: (m.pc + 2) as u16,
        ..m
    }
}

/// Shift Vx left one bit modulo 256; VF receives the bit shifted out.
pub open spec fn spec_shl_vx(m: MachineView, x: int) -> MachineView {
    MachineView {
        vx: m.vx
            .update(x, ((m.vx[x] * 2) % 256) as u8)
            .update(15, if m.vx[x] >= 128 { 1u8 } else { 0u8 }),
        pc: (m.pc + 2) as u16,
        ..m
    }
}

/// Set the index register to the 12-bit address.
pub open spec fn spec_ld_i(m: MachineView, nnn: u16) -> MachineView {
    MachineView { i: nnn, pc: (m.pc + 2) as u16, ..m }
}

/// The divisor that isolates sprite-row bit `j`, most significant first.
pub open spec fn mask_of(j: int) -> int {
    if j == 0 { 128 }
    else if j == 1 { 64 }
    else if j == 2 { 32 }
    else if j == 3 { 16 }
    else if j == 4 { 8 }
    else if j == 5 { 4 }
    else if j == 6 { 2 }
    else { 1 }
}

/// Bit `j` of a sprite row byte, counting from the most significant bit.
pub open spec fn sprite_bit(b: u8, j: int) -> bool {
    ((b as int) / mask_of(j)) % 2 == 1
}

/// Whether the sprite of `n` rows at memory address `i`, with its origin at
/// (sx, sy), covers the pixel (px, py) with a set bit.  Pixels outside the
/// sprite's 8-by-n window are untouched; so are pixels off the grid, since
/// callers only ask about 0 <= px < 64, 0 <= py < 32 (the deliberate
/// clipping choice: the origin wraps once, drawn pixels never wrap).
pub open spec fn sprite_covers(mem: Seq<u8>, i: int, sx: int, sy: int, n: int, px: int, py: int) -> bool {
    &&& sx <= px < sx + 8
    &&& sy <= py < sy + n
    &&& sprite_bit(mem[i + (py - sy)], px - sx)
}

/// Draw sprite: XOR the sprite's set bits onto the grid, clipping at the
/// right and bottom edges.  VF becomes 1 when at least one on-grid pixel is
/// toggled (XOR with a set bit always toggles, so the per-bit "else 0" of
/// the legacy flag rule can never fire) and keeps its old value otherwise;
/// this is the legacy last-toggle rule, not an accumulated collision OR.
/// Fails when the sprite read would pass the end of memory.
pub open spec fn spec_draw(m: MachineView, x: int, y: int, n: int) -> Result<MachineView, EmulatorError> {
    if m.i + n > 4096 {
        Err(EmulatorError::MemoryOutOfRange { address: m.i })
    } else {
        let sx = (m.vx[x] as int) % 64;
        let sy = (m.vx[y] as int) % 32;
        let toggled = exists|px: int, py: int|
            0 <= px < 64 && 0 <= py < 32 && sprite_covers(m.mem, m.i as int, sx, sy, n, px, py);
        Ok(MachineView {
            video: Seq::new(64, |px: int| Seq::new(32, |py: int|
                m.video[px][py] ^ sprite_covers(m.mem, m.i as int, sx, sy, n, px, py))),
            vx: m.vx.update(15, if toggled { 1u8 } else { m.vx[15] }),
            pc: (m.pc + 2) as u16,
            ..m
        })
    }
}

/// Whether some pressed key equals the low nibble of the register value.
pub open spec fn spec_key_matched(keys: Seq<u8>, v: u8) -> bool {
    exists|k: int| 0 <= k < keys.len() && keys[k] as int == (v as int) % 16
}

/// Skip if the key named by Vx's low nibble is pressed.
pub open spec fn spec_skp_vx(m: MachineView, x: int) -> MachineView {
    spec_skip_if(m, spec_key_matched(m.keys, m.vx[x]))
}

/// Skip if the key named by Vx's low nibble is not pressed.
pub open spec fn spec_skpn_vx(m: MachineView, x: int) -> MachineView {
    spec_skip_if(m, !spec_key_matched(m.keys, m.vx[x]))
}

/// Read the delay timer into Vx.
pub open spec fn spec_ld_vx_dt(m: MachineView, x: int) -> MachineView {
    MachineView { vx: m.vx.update(x, m.delay), pc: (m.pc + 2) as u16, ..m }
}

/// Write Vx into the delay timer.
pub open spec fn spec_ld_dt_vx(m: MachineView, x: int) -> MachineView {
    MachineView { delay: m.vx[x], pc: (m.pc + 2) as u16, ..m }
}

/// Add Vx to the index register, wrapping modulo 65536.
pub open spec fn spec_add_i_vx(m: MachineView, x: int) -> MachineView {
    MachineView { i: ((m.i + m.vx[x]) % 65536) as u16, pc: (m.pc + 2) as u16, ..m }
}

/// Point the index register at the five-byte glyph for Vx's value.
pub open spec fn spec_ld_f_vx(m: MachineView, x: int) -> MachineView {
    MachineView { i: (0x50 + 5 * m.vx[x]) as u16, pc: (m.pc + 2) as u16, ..m }
}

/// Store Vx's three decimal digits at I, I+1, I+2.  Fails when the three
/// bytes would pass the end of memory.
pub open spec fn spec_ld_b_vx(m: MachineView, x: int) -> Result<MachineView, EmulatorError> {
    if m.i + 2 > 4095 {
        Err(EmulatorError::MemoryOutOfRange { address: m.i })
    } else {
        let v = m.vx[x] as int;
        Ok(MachineView {
            mem: m.mem
                .update(m.i as int, (v / 100) as u8)
                .update(m.i as int + 1, ((v % 100) / 10) as u8)
                .update(m.i as int + 2, (v % 10) as u8),
            pc: (m.pc + 2) as u16,
            ..m
        })
    }
}

/// Store V0 through Vx (inclusive) at consecutive addresses from I.  Fails
/// when the run would pass the end of memory.
pub open spec fn spec_ld_i_vx(m: MachineView, x: int) -> Result<MachineView, EmulatorError> {
    if m.i + x > 4095 {
        Err(EmulatorError::MemoryOutOfRange { address: m.i })
    } else {
        Ok(MachineView {
            mem: Seq::new(4096, |a: int|
                if m.i <= a <= m.i + x { m.vx[a - m.i] } else { m.mem[a] }),
            pc: (m.pc + 2) as u16,
            ..m
        })
    }
}

/// Load V0 through Vx (inclusive) from consecutive addresses from I.  Fails
/// when the run would pass the end of memory.
pub open spec fn spec_ld_vx_i(m: MachineView, x: int) -> Result<MachineView, EmulatorError> {
    if m.i + x > 4095 {
        Err(EmulatorError::MemoryOutOfRange { address: m.i })
    } else {
        Ok(MachineView {
            vx: Seq::new(16, |r: int| if r <= x { m.mem[m.i + r] } else { m.vx[r] }),
            pc: (m.pc + 2) as u16,
            ..m
        })
    }
}

/// Phase (c) of a cycle: dispatch the fetched word to exactly one handler.
/// A word whose family or sub-family has no handler is the fatal invalid
/// opcode, reported with the program counter it was fetched from; so are the
/// families and sub-families the machine does not implement.
pub open spec fn spec_dispatch(m: MachineView, w: u16) -> Result<MachineView, EmulatorError> {
    match spec_family(w) {
        Opcode::ZeroOpcode => match spec_zero(w) {
            Some(ZeroOpcode::CLS) => Ok(spec_cls(m)),
            Some(ZeroOpcode::RET) => spec_ret(m),
            None => Err(EmulatorError::InvalidOpcode { opcode: w, pc: m.pc }),
        },
        Opcode::JpAddr => Ok(spec_jump(m, nnn_of(w) as u16)),
        Opcode::CallAddr => spec_call(m, nnn_of(w) as u16),
        Opcode::SeVxByte => Ok(spec_skip_if(m, m.vx[x_of(w)] as int == kk_of(w))),
        Opcode::SneVxByte => Ok(spec_skip_if(m, m.vx[x_of(w)] as int != kk_of(w))),
        Opcode::SeVxVy => Ok(spec_skip_if(m, m.vx[x_of(w)] == m.vx[y_of(w)])),
        Opcode::LdVxByte => Ok(spec_ld_vx_byte(m, x_of(w), kk_of(w) as u8)),
        Opcode::AddVxByte => Ok(spec_add_vx_byte(m, x_of(w), kk_of(w) as u8)),
        Opcode::EightOpcode => match spec_eight(w) {
            Some(EightOpcode::LdVxVy) => Ok(spec_ld_vx_vy(m, x_of(w), y_of(w))),
            Some(EightOpcode::OrVxVy) => Ok(spec_or_vx_vy(m, x_of(w), y_of(w))),
            Some(EightOpcode::AndVxVy) => Ok(spec_and_vx_vy(m, x_of(w), y_of(w))),
            Some(EightOpcode::XorVxVy) => Ok(spec_xor_vx_vy(m, x_of(w), y_of(w))),
            Some(EightOpcode::AddVxVy) => Ok(spec_add_vx_vy(m, x_of(w), y_of(w))),
            Some(EightOpcode::SubVxVy) => Ok(spec_sub_vx_vy(m, x_of(w), y_of(w))),
            Some(EightOpcode::ShrVx) => Ok(spec_shr_vx(m, x_of(w))),
            Some(EightOpcode::SubnVxVy) => Ok(spec_subn_vx_vy(m, x_of(w), y_of(w))),
            Some(EightOpcode::ShlVx) => Ok(spec_shl_vx(m, x_of(w))),
            None => Err(EmulatorError::InvalidOpcode { opcode: w, pc: m.pc }),
        },
        Opcode::SneVxVy => Ok(spec_skip_if(m, m.vx[x_of(w)] != m.vx[y_of(w)])),
        Opcode::LdIAddr => Ok(spec_ld_i(m, nnn_of(w) as u16)),
        Opcode::JpV0Addr => Err(EmulatorError::InvalidOpcode { opcode: w, pc: m.pc }),
        Opcode::RndVxByte => Err(EmulatorError::InvalidOpcode { opcode: w, pc: m.pc }),
        Opcode::DrwVxVy => spec_draw(m, x_of(w), y_of(w), n_of(w)),
        Opcode::FourteenOpcode => match spec_fourteen(w) {
            Some(FourteenOpcode::SkpVx) => Ok(spec_skp_vx(m, x_of(w))),
            Some(FourteenOpcode::SkpnVx) => Ok(spec_skpn_vx(m, x_of(w))),
            None => Err(EmulatorError::InvalidOpcode { opcode: w, pc: m.pc }),
        },
        Opcode::FifteenOpcode => match spec_fifteen(w) {
            Some(FifteenOpcode::LdVxDt) => Ok(spec_ld_vx_dt(m, x_of(w))),
            Some(FifteenOpcode::LdVxK) => Err(EmulatorError::InvalidOpcode { opcode: w, pc: m.pc }),
            Some(FifteenOpcode::LdDtVx) => Ok(spec_ld_dt_vx(m, x_of(w))),
            Some(FifteenOpcode::LdStVx) => Err(EmulatorError::InvalidOpcode { opcode: w, pc: m.pc }),
            Some(FifteenOpcode::AddIVx) => Ok(spec_add_i_vx(m, x_of(w))),
            Some(FifteenOpcode::LdFVx) => Ok(spec_ld_f_vx(m, x_of(w))),
            Some(FifteenOpcode::LdBVx) => spec_ld_b_vx(m, x_of(w)),
            Some(FifteenOpcode::LdIVx) => spec_ld_i_vx(m, x_of(w)),
            Some(FifteenOpcode::LdVxI) => spec_ld_vx_i(m, x_of(w)),
            None => Err(EmulatorError::InvalidOpcode { opcode: w, pc: m.pc }),
        },
    }
}

/// The state a failed cycle leaves behind: the timers have already counted
/// down and the key snapshot is discarded, but nothing else moved — in
/// particular the program counter still names the failing instruction.
pub open spec fn spec_fault_state(m: MachineView) -> MachineView {
    spec_clear_keys(spec_tick_timers(m))
}

/// One full cycle: timers count down, the word at the program counter is
/// fetched (failing when a fetch would pass the end of memory), dispatch
/// runs exactly one handler, and the key snapshot is discarded.
pub open spec fn spec_step(m: MachineView) -> Result<MachineView, EmulatorError> {
    let m1 = spec_tick_timers(m);
    if m1.pc > 4094 {
        Err(EmulatorError::MemoryOutOfRange { address: m1.pc })
    } else {
        match spec_dispatch(m1, spec_fetch(m1)) {
            Ok(m2) => Ok(spec_clear_keys(m2)),
            Err(e) => Err(e),
        }
    }
}

} // verus!
