//! The engine: machine state plus the fetch-decode-execute cycle.  Every
//! public method's contract is stated over the ghost `MachineView`; a cycle
//! takes the state to exactly what `spec_step` computes.

use vstd::prelude::*;
use crate::machine::{
    EmulatorError, MachineView, blank_video, font_seq, spec_add_i_vx, spec_add_vx_byte,
    spec_add_vx_vy, spec_and_vx_vy, spec_call, spec_clear_keys, spec_cls, spec_dispatch,
    spec_draw, spec_fault_state, spec_fetch, spec_jump, spec_key_matched, spec_ld_b_vx,
    spec_ld_dt_vx, spec_ld_f_vx, spec_ld_i, spec_ld_i_vx, spec_ld_vx_byte, spec_ld_vx_dt,
    spec_ld_vx_i, spec_ld_vx_vy, spec_new, spec_or_vx_vy, spec_ret, spec_shl_vx, spec_shr_vx,
    spec_skip_if, spec_skp_vx, spec_skpn_vx, spec_step, spec_sub_vx_vy, spec_subn_vx_vy,
    spec_tick_timers, spec_xor_vx_vy, sprite_bit, sprite_covers, mask_of,
};
use crate::opcode::{
    Opcode, ZeroOpcode, EightOpcode, FourteenOpcode, FifteenOpcode, extract_addr, extract_byte,
    extract_n, extract_x, extract_y,
};

verus! {

/// The framebuffer as one flat run of pixels, column by column: the pixel
/// (x, y) lives at index 32 * x + y.
spec fn view2d(v: Seq<bool>) -> Seq<Seq<bool>> {
    Seq::new(64, |x: int| Seq::new(32, |y: int| v[32 * x + y]))
}

/// The machine: memory, registers, stack, framebuffer, timers and the
/// pressed-key snapshot, exclusively owned by one engine instance.
pub struct Emulator {
    stack: Vec<u16>,
    memory: Vec<u8>,
    video_memory: Vec<bool>,
    sp: u8,
    pc: u16,
    vx: Vec<u8>,
    i: u16,
    delay_timer: u8,
    sound_timer: u8,
    scancodes: Vec<u8>,
}

impl View for Emulator {
    type V = MachineView;

    closed spec fn view(&self) -> MachineView {
        MachineView {
            mem: self.memory@,
            stack: self.stack@,
            video: view2d(self.video_memory@),
            sp: self.sp,
            pc: self.pc,
            vx: self.vx@,
            i: self.i,
            delay: self.delay_timer,
            sound: self.sound_timer,
            keys: self.scancodes@,
        }
    }
}

impl Emulator {
    /// The representation invariant: the fixed sizes of every run of cells,
    /// the stack pointer within its slots, and stored return addresses low
    /// enough for the return instruction's `+ 2`.  Constructors establish it
    /// and every method preserves it; it implies `self@.wf()`.
    pub closed spec fn inv(self) -> bool {
        &&& self.memory@.len() == 4096
        &&& self.stack@.len() == 16
        &&& self.vx@.len() == 16
        &&& self.video_memory@.len() == 2048
        &&& self.sp <= 16
        &&& (forall|k: int| 0 <= k < 16 ==> #[trigger] self.stack@[k] <= 4094)
    }

}

/// A vector of `n` copies of one value.
fn filled<T: Copy>(value: T, n: usize) -> (v: Vec<T>)
    ensures
        v@.len() == n,
        forall|k: int| 0 <= k < n ==> v@[k] == value,
{
    let mut v: Vec<T> = Vec::new();
    while v.len() < n
        invariant
            v@.len() <= n,
            forall|k: int| 0 <= k < v@.len() ==> v@[k] == value,
        decreases n - v@.len(),
    {
        v.push(value);
    }
    v
}

/// The eighty font bytes, as data.
fn font_data() -> (v: Vec<u8>)
    ensures
        v@ == font_seq(),
{
    let v: Vec<u8> = vec![
        0xF0, 0x90, 0x90, 0x90, 0xF0,
        0x20, 0x60, 0x20, 0x20, 0x70,
        0xF0, 0x10, 0xF0, 0x80, 0xF0,
        0xF0, 0x10, 0xF0, 0x10, 0xF0,
        0x90, 0x90, 0xF0, 0x10, 0x10,
        0xF0, 0x80, 0xF0, 0x10, 0xF0,
        0xF0, 0x80, 0xF0, 0x90, 0xF0,
        0xF0, 0x10, 0x20, 0x40, 0x40,
        0xF0, 0x90, 0xF0, 0x90, 0xF0,
        0xF0, 0x90, 0xF0, 0x10, 0xF0,
        0xF0, 0x90, 0xF0, 0x90, 0x90,
        0xE0, 0x90, 0xE0, 0x90, 0xE0,
        0xF0, 0x80, 0x80, 0x80, 0xF0,
        0xE0, 0x90, 0x90, 0x90, 0xE0,
        0xF0, 0x80, 0xF0, 0x80, 0xF0,
        0xF0, 0x80, 0xF0, 0x80, 0x80,
    ];
    proof {
        assert(v@ =~= font_seq());
    }
    v
}

impl Emulator {
    /// Construct the machine around a program image: the font copied to
    /// 0x50, the image copied to 0x200, everything else zeroed and the
    /// program counter at the entry address.  An image that does not fit
    /// between 0x200 and the end of memory is rejected.
    pub fn new(rom: Vec<u8>) -> (r: Result<Emulator, EmulatorError>)
        ensures
            rom@.len() > 3584 ==> r == Err::<Emulator, EmulatorError>(EmulatorError::RomTooLarge),
            rom@.len() <= 3584 ==> r is Ok && r->Ok_0.inv() && r->Ok_0@.wf()
                && r->Ok_0@ == spec_new(rom@),
    {
        if rom.len() > 3584 {
            return Err(EmulatorError::RomTooLarge);
        }
        let mut memory = filled(0u8, 4096);
        let font = font_data();
        let mut k: usize = 0;
        while k < 80
            invariant
                memory@.len() == 4096,
                font@ == font_seq(),
                k <= 80,
                forall|a: int| 0x50 <= a < 0x50 + k ==> #[trigger] memory@[a] == font_seq()[a - 0x50],
                forall|a: int| 0 <= a < 4096 && !(0x50 <= a < 0x50 + k) ==> #[trigger] memory@[a] == 0u8,
            decreases 80 - k,
        {
            memory.set(0x50 + k, font[k]);
            k += 1;
        }
        let mut k: usize = 0;
        while k < rom.len()
            invariant
                memory@.len() == 4096,
                rom@.len() <= 3584,
                k <= rom@.len(),
                forall|a: int| 0x50 <= a < 0xA0 ==> #[trigger] memory@[a] == font_seq()[a - 0x50],
                forall|a: int| 0x200 <= a < 0x200 + k ==> #[trigger] memory@[a] == rom@[a - 0x200],
                forall|a: int| 0 <= a < 4096 && !(0x50 <= a < 0xA0) && !(0x200 <= a < 0x200 + k)
                    ==> #[trigger] memory@[a] == 0u8,
            decreases rom@.len() - k,
        {
            memory.set(0x200 + k, rom[k]);
            k += 1;
        }
        let e = Emulator {
            stack: filled(0u16, 16),
            memory,
            video_memory: filled(false, 2048),
            sp: 0,
            pc: 0x200,
            vx: filled(0u8, 16),
            i: 0,
            delay_timer: 0,
            sound_timer: 0,
            scancodes: Vec::new(),
        };
        proof {
            assert(e@ =~~= spec_new(rom@));
        }
        Ok(e)
    }

    /// The framebuffer, as the host reads it for presentation: 64 columns of
    /// 32 pixels, equal pixel for pixel to the machine's own.
    pub fn video_memory(&self) -> (r: Vec<Vec<bool>>)
        requires
            self.inv(),
        ensures
            r.deep_view() == self@.video,
            r@.len() == 64,
            forall|x: int| 0 <= x < 64 ==> (#[trigger] r@[x])@.len() == 32,
    {
        let mut out: Vec<Vec<bool>> = Vec::new();
        let mut x: usize = 0;
        while x < 64
            invariant
                self.inv(),
                x <= 64,
                out@.len() == x,
                forall|c: int| 0 <= c < x ==> (#[trigger] out@[c])@ =~= self@.video[c],
            decreases 64 - x,
        {
            let mut col: Vec<bool> = Vec::new();
            let mut y: usize = 0;
            while y < 32
                invariant
                    self.inv(),
                    x < 64,
                    y <= 32,
                    col@.len() == y,
                    forall|ry: int| 0 <= ry < y ==> #[trigger] col@[ry] == self@.video[x as int][ry],
                decreases 32 - y,
            {
                col.push(self.video_memory[32 * x + y]);
                y += 1;
            }
            out.push(col);
            x += 1;
        }
        proof {
            assert(out.deep_view() =~~= self@.video);
        }
        out
    }

    /// One general register's value.
    pub fn register(&self, index: u8) -> (r: u8)
        requires
            self.inv(),
            index < 16,
        ensures
            r == self@.vx[index as int],
    {
        self.vx[index as usize]
    }

    /// The program counter.
    pub fn program_counter(&self) -> (r: u16)
        ensures
            r == self@.pc,
    {
        self.pc
    }

    /// The index register.
    pub fn index_register(&self) -> (r: u16)
        ensures
            r == self@.i,
    {
        self.i
    }

    /// The number of outstanding calls on the stack.
    pub fn stack_pointer(&self) -> (r: u8)
        ensures
            r == self@.sp,
    {
        self.sp
    }

    /// The delay timer's value.
    pub fn delay_timer(&self) -> (r: u8)
        ensures
            r == self@.delay,
    {
        self.delay_timer
    }

    /// The sound timer's value.
    pub fn sound_timer(&self) -> (r: u8)
        ensures
            r == self@.sound,
    {
        self.sound_timer
    }

    /// Supply the pressed-key snapshot for the next cycle: key symbols drawn
    /// from the sixteen-symbol alphabet 0x0 to 0xF.
    pub fn set_scancodes(&mut self, scancodes: Vec<u8>)
        requires
            old(self).inv(),
            forall|k: int| 0 <= k < scancodes@.len() ==> scancodes@[k] < 16,
        ensures
            final(self).inv(),
            final(self)@ == (MachineView { keys: scancodes@, ..old(self)@ }),
    {
        self.scancodes = scancodes;
        proof {
            assert(self@ =~~= (MachineView { keys: self.scancodes@, ..old(self)@ }));
        }
    }

    /// Read a run of bytes out of memory, for the host or for tests.
    pub fn read_ram(&self, offset: u16, number_of_bytes: u16) -> (r: Vec<u8>)
        requires
            self.inv(),
            offset + number_of_bytes <= 4096,
        ensures
            r@ == self@.mem.subrange(offset as int, offset as int + number_of_bytes as int),
    {
        let mut r: Vec<u8> = Vec::new();
        let mut k: u16 = 0;
        while k < number_of_bytes
            invariant
                self.inv(),
                offset + number_of_bytes <= 4096,
                k <= number_of_bytes,
                r@.len() == k,
                forall|j: int| 0 <= j < k ==> #[trigger] r@[j] == self@.mem[offset + j],
            decreases number_of_bytes - k,
        {
            r.push(self.memory[(offset + k) as usize]);
            k += 1;
        }
        proof {
            assert(r@ =~= self@.mem.subrange(offset as int, offset as int + number_of_bytes as int));
        }
        r
    }
}

impl Emulator {
    /// Phase (a) of a cycle: both timers count down toward zero.
    fn tick_timers(&mut self)
        requires
            old(self).inv(),
        ensures
            final(self).inv(),
            final(self)@ == spec_tick_timers(old(self)@),
    {
        if self.delay_timer > 0 {
            self.delay_timer = self.delay_timer - 1;
        }
        if self.sound_timer > 0 {
            self.sound_timer = self.sound_timer - 1;
        }
        proof {
            assert(self@ =~~= spec_tick_timers(old(self)@));
        }
    }

    /// Phase (b): the big-endian instruction word at the program counter.
    fn fetch_opcode(&self) -> (w: u16)
        requires
            self.inv(),
            self.pc <= 4094,
        ensures
            w == spec_fetch(self@),
    {
        let hi = self.memory[self.pc as usize];
        let lo = self.memory[(self.pc + 1) as usize];
        (hi as u16) * 256 + (lo as u16)
    }

    /// Jump to a specific place in memory.
    fn jump(&mut self, location: u16)
        requires
            old(self).inv(),
        ensures
            final(self).inv(),
            final(self)@ == spec_jump(old(self)@, location),
    {
        self.pc = location;
        proof {
            assert(self@ =~~= spec_jump(old(self)@, location));
        }
    }

    /// Push a return address onto the stack.
    fn push(&mut self, value: u16)
        requires
            old(self).inv(),
            old(self).sp < 16,
            value <= 4094,
        ensures
            final(self).inv(),
            final(self)@ == (MachineView {
                stack: old(self)@.stack.update(old(self)@.sp as int, value),
                sp: (old(self)@.sp + 1) as u8,
                ..old(self)@
            }),
    {
        self.stack.set(self.sp as usize, value);
        self.sp = self.sp + 1;
        proof {
            assert(self@ =~~= (MachineView {
                stack: old(self)@.stack.update(old(self)@.sp as int, value),
                sp: (old(self)@.sp + 1) as u8,
                ..old(self)@
            }));
        }
    }

    /// Pop a return address from the stack, zeroing the freed slot.
    fn pop(&mut self) -> (r: u16)
        requires
            old(self).inv(),
            old(self).sp > 0,
        ensures
            final(self).inv(),
            r == old(self)@.stack[old(self)@.sp as int - 1],
            r <= 4094,
            final(self)@ == (MachineView {
                stack: old(self)@.stack.update(old(self)@.sp as int - 1, 0u16),
                sp: (old(self)@.sp - 1) as u8,
                ..old(self)@
            }),
    {
        self.sp = self.sp - 1;
        let r = self.stack[self.sp as usize];
        self.stack.set(self.sp as usize, 0);
        proof {
            assert(self@ =~~= (MachineView {
                stack: old(self)@.stack.update(old(self)@.sp as int - 1, 0u16),
                sp: (old(self)@.sp - 1) as u8,
                ..old(self)@
            }));
        }
        r
    }

    /// Override the entire framebuffer with dark pixels.
    fn clear_screen(&mut self)
        requires
            old(self).inv(),
        ensures
            final(self).inv(),
            final(self)@ == (MachineView { video: blank_video(), ..old(self)@ }),
    {
        self.video_memory = filled(false, 2048);
        proof {
            assert(self@ =~~= (MachineView { video: blank_video(), ..old(self)@ }));
        }
    }

    /// Screen clear, then step past the instruction.
    fn handle_cls(&mut self)
        requires
            old(self).inv(),
            old(self).pc <= 4094,
        ensures
            final(self).inv(),
            final(self)@ == spec_cls(old(self)@),
    {
        self.clear_screen();
        self.pc = self.pc + 2;
        proof {
            assert(self@ =~~= spec_cls(old(self)@));
        }
    }

    /// Return from the innermost outstanding call.
    fn handle_ret(&mut self) -> (r: Result<(), EmulatorError>)
        requires
            old(self).inv(),
        ensures
            final(self).inv(),
            spec_ret(old(self)@) is Ok ==> r is Ok && final(self)@ == spec_ret(old(self)@)->Ok_0,
            spec_ret(old(self)@) is Err ==> r == Err::<(), EmulatorError>(spec_ret(old(self)@)->Err_0)
                && final(self)@ == old(self)@,
    {
        if self.sp == 0 {
            return Err(EmulatorError::StackUnderflow);
        }
        let target = self.pop();
        self.pc = target + 2;
        proof {
            assert(self@ =~~= spec_ret(old(self)@)->Ok_0);
        }
        Ok(())
    }

    /// Call: push the call instruction's own address, then jump.
    fn handle_call(&mut self, address: u16) -> (r: Result<(), EmulatorError>)
        requires
            old(self).inv(),
            old(self).pc <= 4094,
        ensures
            final(self).inv(),
            spec_call(old(self)@, address) is Ok ==> r is Ok
                && final(self)@ == spec_call(old(self)@, address)->Ok_0,
            spec_call(old(self)@, address) is Err ==> r == Err::<(), EmulatorError>(
                spec_call(old(self)@, address)->Err_0) && final(self)@ == old(self)@,
    {
        if self.sp >= 16 {
            return Err(EmulatorError::StackOverflow);
        }
        let here = self.pc;
        self.push(here);
        self.jump(address);
        proof {
            assert(self@ =~~= spec_call(old(self)@, address)->Ok_0);
        }
        Ok(())
    }

    /// Step two bytes, or four when the condition holds.
    fn skip_if(&mut self, cond: bool)
        requires
            old(self).inv(),
            old(self).pc <= 4094,
        ensures
            final(self).inv(),
            final(self)@ == spec_skip_if(old(self)@, cond),
    {
        if cond {
            self.pc = self.pc + 4;
        } else {
            self.pc = self.pc + 2;
        }
        proof {
            assert(self@ =~~= spec_skip_if(old(self)@, cond));
        }
    }

    /// Skip if Vx equals the immediate byte.
    fn handle_se_vx_byte(&mut self, register: u8, value: u8)
        requires
            old(self).inv(),
            old(self).pc <= 4094,
            register < 16,
        ensures
            final(self).inv(),
            final(self)@ == spec_skip_if(old(self)@, old(self)@.vx[register as int] == value),
    {
        let cond = self.vx[register as usize] == value;
        self.skip_if(cond);
    }

    /// Skip if Vx differs from the immediate byte.
    fn handle_sne_vx_byte(&mut self, register: u8, value: u8)
        requires
            old(self).inv(),
            old(self).pc <= 4094,
            register < 16,
        ensures
            final(self).inv(),
            final(self)@ == spec_skip_if(old(self)@, old(self)@.vx[register as int] != value),
    {
        let cond = self.vx[register as usize] != value;
        self.skip_if(cond);
    }

    /// Skip if the two registers hold equal values.
    fn handle_se_vx_vy(&mut self, first_register: u8, second_register: u8)
        requires
            old(self).inv(),
            old(self).pc <= 4094,
            first_register < 16,
            second_register < 16,
        ensures
            final(self).inv(),
            final(self)@ == spec_skip_if(old(self)@,
                old(self)@.vx[first_register as int] == old(self)@.vx[second_register as int]),
    {
        let cond = self.vx[first_register as usize] == self.vx[second_register as usize];
        self.skip_if(cond);
    }

    /// Skip if the two registers hold different values.
    fn handle_sne_vx_vy(&mut self, first_register: u8, second_register: u8)
        requires
            old(self).inv(),
            old(self).pc <= 4094,
            first_register < 16,
            second_register < 16,
        ensures
            final(self).inv(),
            final(self)@ == spec_skip_if(old(self)@,
                old(self)@.vx[first_register as int] != old(self)@.vx[second_register as int]),
    {
        let cond = self.vx[first_register as usize] != self.vx[second_register as usize];
        self.skip_if(cond);
    }

    /// Load the immediate byte into Vx.
    fn handle_ld_vx_byte(&mut self, register: u8, value: u8)
        requires
            old(self).inv(),
            old(self).pc <= 4094,
            register < 16,
        ensures
            final(self).inv(),
            final(self)@ == spec_ld_vx_byte(old(self)@, register as int, value),
    {
        self.vx.set(register as usize, value);
        self.pc = self.pc + 2;
        proof {
            assert(self@ =~~= spec_ld_vx_byte(old(self)@, register as int, value));
        }
    }

    /// Add the immediate byte to Vx, wrapping modulo 256.
    fn handle_add_vx_byte(&mut self, register: u8, value: u8)
        requires
            old(self).inv(),
            old(self).pc <= 4094,
            register < 16,
        ensures
            final(self).inv(),
            final(self)@ == spec_add_vx_byte(old(self)@, register as int, value),
    {
        let sum: u16 = self.vx[register as usize] as u16 + value as u16;
        self.vx.set(register as usize, (sum % 256) as u8);
        self.pc = self.pc + 2;
        proof {
            assert(self@ =~~= spec_add_vx_byte(old(self)@, register as int, value));
        }
    }

    /// Copy Vy into Vx.
    fn handle_ld_vx_vy(&mut self, first_register: u8, second_register: u8)
        requires
            old(self).inv(),
            old(self).pc <= 4094,
            first_register < 16,
            second_register < 16,
        ensures
            final(self).inv(),
            final(self)@ == spec_ld_vx_vy(old(self)@, first_register as int, second_register as int),
    {
        let v = self.vx[second_register as usize];
        self.vx.set(first_register as usize, v);
        self.pc = self.pc + 2;
        proof {
            assert(self@ =~~= spec_ld_vx_vy(old(self)@, first_register as int, second_register as int));
        }
    }

    /// OR Vy into Vx.
    fn handle_or_vx_vy(&mut self, first_register: u8, second_register: u8)
        requires
            old(self).inv(),
            old(self).pc <= 4094,
            first_register < 16,
            second_register < 16,
        ensures
            final(self).inv(),
            final(self)@ == spec_or_vx_vy(old(self)@, first_register as int, second_register as int),
    {
        let v = self.vx[first_register as usize] | self.vx[second_register as usize];
        self.vx.set(first_register as usize, v);
        self.pc = self.pc + 2;
        proof {
            assert(self@ =~~= spec_or_vx_vy(old(self)@, first_register as int, second_register as int));
        }
    }

    /// AND Vy into Vx.
    fn handle_and_vx_vy(&mut self, first_register: u8, second_register: u8)
        requires
            old(self).inv(),
            old(self).pc <= 4094,
            first_register < 16,
            second_register < 16,
        ensures
            final(self).inv(),
            final(self)@ == spec_and_vx_vy(old(self)@, first_register as int, second_register as int),
    {
        let v = self.vx[first_register as usize] & self.vx[second_register as usize];
        self.vx.set(first_register as usize, v);
        self.pc = self.pc + 2;
        proof {
            assert(self@ =~~= spec_and_vx_vy(old(self)@, first_register as int, second_register as int));
        }
    }

    /// XOR Vy into Vx.
    fn handle_xor_vx_vy(&mut self, first_register: u8, second_register: u8)
        requires
            old(self).inv(),
            old(self).pc <= 4094,
            first_register < 16,
            second_register < 16,
        ensures
            final(self).inv(),
            final(self)@ == spec_xor_vx_vy(old(self)@, first_register as int, second_register as int),
    {
        let v = self.vx[first_register as usize] ^ self.vx[second_register as usize];
        self.vx.set(first_register as usize, v);
        self.pc = self.pc + 2;
        proof {
            assert(self@ =~~= spec_xor_vx_vy(old(self)@, first_register as int, second_register as int));
        }
    }

    /// Add Vy to Vx modulo 256; VF reports whether the sum exceeded 255.
    fn handle_add_vx_vy(&mut self, first_register: u8, second_register: u8)
        requires
            old(self).inv(),
            old(self).pc <= 4094,
            first_register < 16,
            second_register < 16,
        ensures
            final(self).inv(),
            final(self)@ == spec_add_vx_vy(old(self)@, first_register as int, second_register as int),
    {
        let sum: u16 = self.vx[first_register as usize] as u16
            + self.vx[second_register as usize] as u16;
        self.vx.set(first_register as usize, (sum % 256) as u8);
        self.vx.set(15, if sum > 255 { 1 } else { 0 });
        self.pc = self.pc + 2;
        proof {
            assert(self@ =~~= spec_add_vx_vy(old(self)@, first_register as int, second_register as int));
        }
    }

    /// Subtract Vy from Vx modulo 256; VF reports the no-borrow case Vx > Vy.
    fn handle_sub_vx_vy(&mut self, first_register: u8, second_register: u8)
        requires
            old(self).inv(),
            old(self).pc <= 4094,
            first_register < 16,
            second_register < 16,
        ensures
            final(self).inv(),
            final(self)@ == spec_sub_vx_vy(old(self)@, first_register as int, second_register as int),
    {
        let a = self.vx[first_register as usize];
        let b = self.vx[second_register as usize];
        let difference: u8 = if a >= b { a - b } else { (256 + a as u16 - b as u16) as u8 };
        self.vx.set(first_register as usize, difference);
        self.vx.set(15, if a > b { 1 } else { 0 });
        self.pc = self.pc + 2;
        proof {
            assert(self@ =~~= spec_sub_vx_vy(old(self)@, first_register as int, second_register as int));
        }
    }

    /// Shift Vx right one bit; VF receives the bit shifted out.
    fn handle_shr_vx(&mut self, register: u8)
        requires
            old(self).inv(),
            old(self).pc <= 4094,
            register < 16,
        ensures
            final(self).inv(),
            final(self)@ == spec_shr_vx(old(self)@, register as int),
    {
        let a = self.vx[register as usize];
        self.vx.set(register as usize, a / 2);
        self.vx.set(15, a % 2);
        self.pc = self.pc + 2;
        proof {
            assert(self@ =~~= spec_shr_vx(old(self)@, register as int));
        }
    }

    /// Subtract Vx from Vy into Vx modulo 256; VF reports Vy > Vx.
    fn handle_subn_vx_vy(&mut self, first_register: u8, second_register: u8)
        requires
            old(self).inv(),
            old(self).pc <= 4094,
            first_register < 16,
            second_register < 16,
        ensures
            final(self).inv(),
            final(self)@ == spec_subn_vx_vy(old(self)@, first_register as int, second_register as int),
    {
        let a = self.vx[first_register as usize];
        let b = self.vx[second_register as usize];
        let difference: u8 = if b >= a { b - a } else { (256 + b as u16 - a as u16) as u8 };
        self.vx.set(first_register as usize, difference);
        self.vx.set(15, if b > a { 1 } else { 0 });
        self.pc = self.pc + 2;
        proof {
            assert(self@ =~~= spec_subn_vx_vy(old(self)@, first_register as int, second_register as int));
        }
    }

    /// Shift Vx left one bit modulo 256; VF receives the bit shifted out.
    fn handle_shl_vx(&mut self, register: u8)
        requires
            old(self).inv(),
            old(self).pc <= 4094,
            register < 16,
        ensures
            final(self).inv(),
            final(self)@ == spec_shl_vx(old(self)@, register as int),
    {
        let a = self.vx[register as usize];
        let doubled: u16 = a as u16 * 2;
        self.vx.set(register as usize, (doubled % 256) as u8);
        self.vx.set(15, if a >= 128 { 1 } else { 0 });
        self.pc = self.pc + 2;
        proof {
            assert(self@ =~~= spec_shl_vx(old(self)@, register as int));
        }
    }

    /// Set the index register to the 12-bit address.
    fn handle_ld_i(&mut self, address: u16)
        requires
            old(self).inv(),
            old(self).pc <= 4094,
        ensures
            final(self).inv(),
            final(self)@ == spec_ld_i(old(self)@, address),
    {
        self.i = address;
        self.pc = self.pc + 2;
        proof {
            assert(self@ =~~= spec_ld_i(old(self)@, address));
        }
    }

    /// Whether some pressed key equals the low nibble of the value.
    fn key_matched(&self, value: u8) -> (r: bool)
        requires
            self.inv(),
        ensures
            r == spec_key_matched(self@.keys, value),
    {
        let nibble = value % 16;
        let mut k: usize = 0;
        let mut found = false;
        while k < self.scancodes.len()
            invariant
                self.inv(),
                k <= self.scancodes@.len(),
                nibble == (value as int) % 16,
                found <==> (exists|j: int| 0 <= j < k
                    && #[trigger] self.scancodes@[j] as int == (value as int) % 16),
            decreases self.scancodes@.len() - k,
        {
            if self.scancodes[k] == nibble {
                found = true;
            }
            k += 1;
        }
        found
    }

    /// Skip if the key named by Vx's low nibble is pressed.
    fn handle_skp_vx(&mut self, register: u8)
        requires
            old(self).inv(),
            old(self).pc <= 4094,
            register < 16,
        ensures
            final(self).inv(),
            final(self)@ == spec_skp_vx(old(self)@, register as int),
    {
        let v = self.vx[register as usize];
        let cond = self.key_matched(v);
        self.skip_if(cond);
    }

    /// Skip if the key named by Vx's low nibble is not pressed.
    fn handle_skpn_vx(&mut self, register: u8)
        requires
            old(self).inv(),
            old(self).pc <= 4094,
            register < 16,
        ensures
            final(self).inv(),
            final(self)@ == spec_skpn_vx(old(self)@, register as int),
    {
        let v = self.vx[register as usize];
        let cond = !self.key_matched(v);
        self.skip_if(cond);
    }

    /// Read the delay timer into Vx.
    fn handle_ld_vx_dt(&mut self, register: u8)
        requires
            old(self).inv(),
            old(self).pc <= 4094,
            register < 16,
        ensures
            final(self).inv(),
            final(self)@ == spec_ld_vx_dt(old(self)@, register as int),
    {
        let t = self.delay_timer;
        self.vx.set(register as usize, t);
        self.pc = self.pc + 2;
        proof {
            assert(self@ =~~= spec_ld_vx_dt(old(self)@, register as int));
        }
    }

    /// Write Vx into the delay timer.
    fn handle_ld_dt_vx(&mut self, register: u8)
        requires
            old(self).inv(),
            old(self).pc <= 4094,
            register < 16,
        ensures
            final(self).inv(),
            final(self)@ == spec_ld_dt_vx(old(self)@, register as int),
    {
        self.delay_timer = self.vx[register as usize];
        self.pc = self.pc + 2;
        proof {
            assert(self@ =~~= spec_ld_dt_vx(old(self)@, register as int));
        }
    }

    /// Add Vx to the index register, wrapping modulo 65536.
    fn handle_add_i_vx(&mut self, register: u8)
        requires
            old(self).inv(),
            old(self).pc <= 4094,
            register < 16,
        ensures
            final(self).inv(),
            final(self)@ == spec_add_i_vx(old(self)@, register as int),
    {
        let sum: u32 = self.i as u32 + self.vx[register as usize] as u32;
        self.i = (sum % 65536) as u16;
        self.pc = self.pc + 2;
        proof {
            assert(self@ =~~= spec_add_i_vx(old(self)@, register as int));
        }
    }

    /// Point the index register at the glyph for Vx's value.
    fn handle_ld_f_vx(&mut self, register: u8)
        requires
            old(self).inv(),
            old(self).pc <= 4094,
            register < 16,
        ensures
            final(self).inv(),
            final(self)@ == spec_ld_f_vx(old(self)@, register as int),
    {
        let v = self.vx[register as usize];
        self.i = 0x50 + 5 * (v as u16);
        self.pc = self.pc + 2;
        proof {
            assert(self@ =~~= spec_ld_f_vx(old(self)@, register as int));
        }
    }

    /// Store Vx's three decimal digits at I, I+1, I+2.
    fn handle_ld_b_vx(&mut self, register: u8) -> (r: Result<(), EmulatorError>)
        requires
            old(self).inv(),
            old(self).pc <= 4094,
            register < 16,
        ensures
            final(self).inv(),
            spec_ld_b_vx(old(self)@, register as int) is Ok ==> r is Ok
                && final(self)@ == spec_ld_b_vx(old(self)@, register as int)->Ok_0,
            spec_ld_b_vx(old(self)@, register as int) is Err ==> r == Err::<(), EmulatorError>(
                spec_ld_b_vx(old(self)@, register as int)->Err_0) && final(self)@ == old(self)@,
    {
        if self.i > 4093 {
            return Err(EmulatorError::MemoryOutOfRange { address: self.i });
        }
        let v = self.vx[register as usize];
        self.memory.set(self.i as usize, v / 100);
        self.memory.set(self.i as usize + 1, (v % 100) / 10);
        self.memory.set(self.i as usize + 2, v % 10);
        self.pc = self.pc + 2;
        proof {
            assert(self@ =~~= spec_ld_b_vx(old(self)@, register as int)->Ok_0);
        }
        Ok(())
    }

    /// Store V0 through Vx at consecutive addresses from I.
    fn handle_ld_i_vx(&mut self, register: u8) -> (r: Result<(), EmulatorError>)
        requires
            old(self).inv(),
            old(self).pc <= 4094,
            register < 16,
        ensures
            final(self).inv(),
            spec_ld_i_vx(old(self)@, register as int) is Ok ==> r is Ok
                && final(self)@ == spec_ld_i_vx(old(self)@, register as int)->Ok_0,
            spec_ld_i_vx(old(self)@, register as int) is Err ==> r == Err::<(), EmulatorError>(
                spec_ld_i_vx(old(self)@, register as int)->Err_0) && final(self)@ == old(self)@,
    {
        if self.i as usize + register as usize > 4095 {
            return Err(EmulatorError::MemoryOutOfRange { address: self.i });
        }
        let base = self.i as usize;
        let mut k: usize = 0;
        while k <= register as usize
            invariant
                self.inv(),
                base == old(self)@.i,
                base + register <= 4095,
                register < 16,
                k <= register + 1,
                self.stack@ == old(self)@.stack,
                self.vx@ == old(self)@.vx,
                self.video_memory@ == old(self).video_memory@,
                self.sp == old(self)@.sp,
                self.pc == old(self)@.pc,
                self.i == old(self)@.i,
                self.delay_timer == old(self)@.delay,
                self.sound_timer == old(self)@.sound,
                self.scancodes@ == old(self)@.keys,
                self.memory@.len() == 4096,
                forall|a: int| base <= a < base + k ==> #[trigger] self.memory@[a] == old(self)@.vx[a - base],
                forall|a: int| 0 <= a < 4096 && !(base <= a < base + k)
                    ==> #[trigger] self.memory@[a] == old(self)@.mem[a],
            decreases register + 1 - k,
        {
            let v = self.vx[k];
            self.memory.set(base + k, v);
            k += 1;
        }
        self.pc = self.pc + 2;
        proof {
            assert(self@ =~~= spec_ld_i_vx(old(self)@, register as int)->Ok_0);
        }
        Ok(())
    }

    /// Load V0 through Vx from consecutive addresses from I.
    fn handle_ld_vx_i(&mut self, register: u8) -> (r: Result<(), EmulatorError>)
        requires
            old(self).inv(),
            old(self).pc <= 4094,
            register < 16,
        ensures
            final(self).inv(),
            spec_ld_vx_i(old(self)@, register as int) is Ok ==> r is Ok
                && final(self)@ == spec_ld_vx_i(old(self)@, register as int)->Ok_0,
            spec_ld_vx_i(old(self)@, register as int) is Err ==> r == Err::<(), EmulatorError>(
                spec_ld_vx_i(old(self)@, register as int)->Err_0) && final(self)@ == old(self)@,
    {
        if self.i as usize + register as usize > 4095 {
            return Err(EmulatorError::MemoryOutOfRange { address: self.i });
        }
        let base = self.i as usize;
        let mut k: usize = 0;
        while k <= register as usize
            invariant
                self.inv(),
                base == old(self)@.i,
                base + register <= 4095,
                register < 16,
                k <= register + 1,
                self.stack@ == old(self)@.stack,
                self.memory@ == old(self)@.mem,
                self.video_memory@ == old(self).video_memory@,
                self.sp == old(self)@.sp,
                self.pc == old(self)@.pc,
                self.i == old(self)@.i,
                self.delay_timer == old(self)@.delay,
                self.sound_timer == old(self)@.sound,
                self.scancodes@ == old(self)@.keys,
                self.vx@.len() == 16,
                forall|j: int| 0 <= j < k ==> #[trigger] self.vx@[j] == old(self)@.mem[base + j],
                forall|j: int| k <= j < 16 ==> #[trigger] self.vx@[j] == old(self)@.vx[j],
            decreases register + 1 - k,
        {
            let v = self.memory[base + k];
            self.vx.set(k, v);
            k += 1;
        }
        self.pc = self.pc + 2;
        proof {
            assert(self@ =~~= spec_ld_vx_i(old(self)@, register as int)->Ok_0);
        }
        Ok(())
    }
}

/// Coverage by the part of the sprite already drawn: rows before `rows`
/// whole, plus the first `bits` bits of row `rows`.
spec fn covers_upto(mem: Seq<u8>, i: int, sx: int, sy: int, n: int, rows: int, bits: int, px: int, py: int) -> bool {
    &&& sx <= px < sx + 8
    &&& sy <= py < sy + n
    &&& (py - sy < rows || (py - sy == rows && px - sx < bits))
    &&& sprite_bit(mem[i + (py - sy)], px - sx)
}

/// The divisor that isolates sprite-row bit `j`, as data.
fn bit_mask(j: usize) -> (r: u8)
    requires
        j < 8,
    ensures
        r as int == mask_of(j as int),
{
    if j == 0 { 128 }
    else if j == 1 { 64 }
    else if j == 2 { 32 }
    else if j == 3 { 16 }
    else if j == 4 { 8 }
    else if j == 5 { 4 }
    else if j == 6 { 2 }
    else { 1 }
}

impl Emulator {
    /// Draw sprite: XOR the sprite's set bits onto the grid, the origin
    /// wrapped once, drawn pixels clipped at the right and bottom edges.
    fn handle_drw(&mut self, x_register: u8, y_register: u8, sprite_size: u8) -> (r: Result<(), EmulatorError>)
        requires
            old(self).inv(),
            old(self).pc <= 4094,
            x_register < 16,
            y_register < 16,
            sprite_size < 16,
        ensures
            final(self).inv(),
            spec_draw(old(self)@, x_register as int, y_register as int, sprite_size as int) is Ok
                ==> r is Ok && final(self)@
                    == spec_draw(old(self)@, x_register as int, y_register as int, sprite_size as int)->Ok_0,
            spec_draw(old(self)@, x_register as int, y_register as int, sprite_size as int) is Err
                ==> r == Err::<(), EmulatorError>(
                    spec_draw(old(self)@, x_register as int, y_register as int, sprite_size as int)->Err_0)
                    && final(self)@ == old(self)@,
    {
        if self.i as usize + sprite_size as usize > 4096 {
            return Err(EmulatorError::MemoryOutOfRange { address: self.i });
        }
        let sx: usize = (self.vx[x_register as usize] % 64) as usize;
        let sy: usize = (self.vx[y_register as usize] % 32) as usize;
        let base: usize = self.i as usize;
        let n: usize = sprite_size as usize;
        let ghost m0 = self@;
        let ghost gb = base as int;
        let ghost gsx = sx as int;
        let ghost gsy = sy as int;
        let ghost gn = n as int;
        let mut toggled_any = false;
        let mut row: usize = 0;
        while row < n
            invariant
                self.inv(),
                row <= n,
                n == sprite_size as int,
                x_register < 16,
                y_register < 16,
                gb == base as int,
                gsx == sx as int,
                gsy == sy as int,
                gn == n as int,
                m0.wf(),
                sx == (m0.vx[x_register as int] as int) % 64,
                sy == (m0.vx[y_register as int] as int) % 32,
                base == m0.i,
                base + n <= 4096,
                self.stack@ == m0.stack,
                self.memory@ == m0.mem,
                self.vx@ == m0.vx,
                self.sp == m0.sp,
                self.pc == m0.pc,
                self.i == m0.i,
                self.delay_timer == m0.delay,
                self.sound_timer == m0.sound,
                self.scancodes@ == m0.keys,
                forall|t: int| 0 <= t < 2048 ==> #[trigger] self.video_memory@[t]
                    == m0.video[t / 32][t % 32]
                        ^ covers_upto(m0.mem, gb, gsx, gsy, gn, row as int, 0, t / 32, t % 32),
                toggled_any ==> (exists|px: int, py: int| 0 <= px < 64 && 0 <= py < 32
                    && covers_upto(m0.mem, gb, gsx, gsy, gn, row as int, 0, px, py)),
                !toggled_any ==> (forall|px: int, py: int| 0 <= px < 64 && 0 <= py < 32
                    ==> !covers_upto(m0.mem, gb, gsx, gsy, gn, row as int, 0, px, py)),
            decreases n - row,
        {
            let byte = self.memory[base + row];
            let mut bit: usize = 0;
            while bit < 8
                invariant
                    self.inv(),
                    row < n,
                    bit <= 8,
                    gb == base as int,
                    gsx == sx as int,
                    gsy == sy as int,
                    gn == n as int,
                    m0.wf(),
                    sx < 64,
                    sy < 32,
                    base == m0.i,
                    base + n <= 4096,
                    byte == m0.mem[gb + row],
                    self.stack@ == m0.stack,
                    self.memory@ == m0.mem,
                    self.vx@ == m0.vx,
                    self.sp == m0.sp,
                    self.pc == m0.pc,
                    self.i == m0.i,
                    self.delay_timer == m0.delay,
                    self.sound_timer == m0.sound,
                    self.scancodes@ == m0.keys,
                    forall|t: int| 0 <= t < 2048 ==> #[trigger] self.video_memory@[t]
                        == m0.video[t / 32][t % 32]
                            ^ covers_upto(m0.mem, gb, gsx, gsy, gn, row as int, bit as int, t / 32, t % 32),
                    toggled_any ==> (exists|px: int, py: int| 0 <= px < 64 && 0 <= py < 32
                        && covers_upto(m0.mem, gb, gsx, gsy, gn, row as int, bit as int, px, py)),
                    !toggled_any ==> (forall|px: int, py: int| 0 <= px < 64 && 0 <= py < 32
                        ==> !covers_upto(m0.mem, gb, gsx, gsy, gn, row as int, bit as int, px, py)),
                decreases 8 - bit,
            {
                let is_set = (byte / bit_mask(bit)) % 2 == 1;
                let px = sx + bit;
                let py = sy + row;
                let in_grid = px < 64 && py < 32;
                proof {
                    assert(is_set == sprite_bit(m0.mem[gb + row], bit as int));
                }
                let ghost was_toggled = toggled_any;
                if is_set && in_grid {
                    let idx = 32 * px + py;
                    proof {
                        assert(idx / 32 == px as int && idx % 32 == py as int);
                    }
                    let cur = self.video_memory[idx];
                    self.video_memory.set(idx, !cur);
                    toggled_any = true;
                }
                proof {
                    let b1 = bit as int + 1;
                    // A pixel covered by the first bit + 1 bits but not by the
                    // first bit bits can only be this iteration's target.
                    assert forall|qx: int, qy: int|
                        covers_upto(m0.mem, gb, gsx, gsy, gn, row as int, b1, qx, qy)
                        && !covers_upto(m0.mem, gb, gsx, gsy, gn, row as int, bit as int, qx, qy)
                        implies qx == px as int && qy == py as int && is_set by {}
                    assert forall|t: int| 0 <= t < 2048 implies #[trigger] self.video_memory@[t]
                        == m0.video[t / 32][t % 32]
                            ^ covers_upto(m0.mem, gb, gsx, gsy, gn, row as int, b1, t / 32, t % 32) by {
                        assert(t == 32 * (t / 32) + (t % 32));
                    }
                    if toggled_any {
                        if was_toggled {
                            let (wx, wy) = choose|qx: int, qy: int| 0 <= qx < 64 && 0 <= qy < 32
                                && covers_upto(m0.mem, gb, gsx, gsy, gn, row as int, bit as int, qx, qy);
                            assert(covers_upto(m0.mem, gb, gsx, gsy, gn, row as int, b1, wx, wy));
                        } else {
                            assert(covers_upto(m0.mem, gb, gsx, gsy, gn, row as int, b1, px as int, py as int));
                        }
                    } else {
                        assert forall|qx: int, qy: int| 0 <= qx < 64 && 0 <= qy < 32
                            implies !covers_upto(m0.mem, gb, gsx, gsy, gn, row as int, b1, qx, qy) by {}
                    }
                }
                bit += 1;
            }
            proof {
                let r1 = row as int + 1;
                // Eight bits of a row drawn is the same coverage as one more
                // whole row.
                assert forall|qx: int, qy: int|
                    covers_upto(m0.mem, gb, gsx, gsy, gn, row as int, 8, qx, qy)
                    == covers_upto(m0.mem, gb, gsx, gsy, gn, r1, 0, qx, qy) by {}
                assert forall|t: int| 0 <= t < 2048 implies #[trigger] self.video_memory@[t]
                    == m0.video[t / 32][t % 32]
                        ^ covers_upto(m0.mem, gb, gsx, gsy, gn, r1, 0, t / 32, t % 32) by {
                    assert(t == 32 * (t / 32) + (t % 32));
                }
                if toggled_any {
                    let (wx, wy) = choose|qx: int, qy: int| 0 <= qx < 64 && 0 <= qy < 32
                        && covers_upto(m0.mem, gb, gsx, gsy, gn, row as int, 8, qx, qy);
                    assert(covers_upto(m0.mem, gb, gsx, gsy, gn, r1, 0, wx, wy));
                }
            }
            row += 1;
        }
        let vf = if toggled_any { 1 } else { self.vx[15] };
        self.vx.set(15, vf);
        self.pc = self.pc + 2;
        proof {
            // Full coverage is the sprite's coverage.
            assert forall|qx: int, qy: int|
                covers_upto(m0.mem, gb, gsx, gsy, gn, gn, 0, qx, qy)
                == sprite_covers(m0.mem, gb, gsx, gsy, gn, qx, qy) by {}
            assert forall|px: int, py: int| 0 <= px < 64 && 0 <= py < 32 implies
                self.video_memory@[32 * px + py]
                    == m0.video[px][py] ^ sprite_covers(m0.mem, gb, gsx, gsy, gn, px, py) by {
                let t = 32 * px + py;
                assert(0 <= t < 2048);
                assert(t / 32 == px && t % 32 == py);
            }
            if toggled_any {
                let (wx, wy) = choose|qx: int, qy: int| 0 <= qx < 64 && 0 <= qy < 32
                    && covers_upto(m0.mem, gb, gsx, gsy, gn, gn, 0, qx, qy);
                assert(sprite_covers(m0.mem, gb, gsx, gsy, gn, wx, wy));
            }
            assert(self@ =~~= spec_draw(m0, x_register as int, y_register as int,
                sprite_size as int)->Ok_0);
        }
        Ok(())
    }
}

impl Emulator {
    /// One full cycle: timers count down, the word at the program counter is
    /// fetched and dispatched to exactly one handler, and the pressed-key
    /// snapshot is discarded.  Returns the fatal condition, if any, with the
    /// state otherwise untouched: the program counter still names the
    /// failing instruction.
    pub fn next_cycle(&mut self) -> (r: Result<(), EmulatorError>)
        requires
            old(self).inv(),
        ensures
            final(self).inv(),
            final(self)@.wf(),
            spec_step(old(self)@) is Ok ==> r is Ok && final(self)@ == spec_step(old(self)@)->Ok_0,
            spec_step(old(self)@) is Err ==> r == Err::<(), EmulatorError>(
                spec_step(old(self)@)->Err_0) && final(self)@ == spec_fault_state(old(self)@),
    {
        self.tick_timers();
        let ghost m1 = self@;
        if self.pc > 4094 {
            let address = self.pc;
            self.scancodes = Vec::new();
            proof {
                assert(self@ =~~= spec_fault_state(old(self)@));
                assert(self@.wf());
            }
            return Err(EmulatorError::MemoryOutOfRange { address });
        }
        let w = self.fetch_opcode();
        let pc_now = self.pc;
        let outcome: Result<(), EmulatorError> = match Opcode::from_word(w) {
            Opcode::ZeroOpcode => match ZeroOpcode::from_word(w) {
                Some(ZeroOpcode::CLS) => {
                    self.handle_cls();
                    Ok(())
                },
                Some(ZeroOpcode::RET) => self.handle_ret(),
                None => Err(EmulatorError::InvalidOpcode { opcode: w, pc: pc_now }),
            },
            Opcode::JpAddr => {
                let address = extract_addr(w);
                self.jump(address);
                Ok(())
            },
            Opcode::CallAddr => {
                let address = extract_addr(w);
                self.handle_call(address)
            },
            Opcode::SeVxByte => {
                let register = extract_x(w);
                let value = extract_byte(w);
                self.handle_se_vx_byte(register, value);
                Ok(())
            },
            Opcode::SneVxByte => {
                let register = extract_x(w);
                let value = extract_byte(w);
                self.handle_sne_vx_byte(register, value);
                Ok(())
            },
            Opcode::SeVxVy => {
                let first_register = extract_x(w);
                let second_register = extract_y(w);
                self.handle_se_vx_vy(first_register, second_register);
                Ok(())
            },
            Opcode::LdVxByte => {
                let register = extract_x(w);
                let value = extract_byte(w);
                self.handle_ld_vx_byte(register, value);
                Ok(())
            },
            Opcode::AddVxByte => {
                let register = extract_x(w);
                let value = extract_byte(w);
                self.handle_add_vx_byte(register, value);
                Ok(())
            },
            Opcode::EightOpcode => match EightOpcode::from_word(w) {
                Some(EightOpcode::LdVxVy) => {
                    self.handle_ld_vx_vy(extract_x(w), extract_y(w));
                    Ok(())
                },
                Some(EightOpcode::OrVxVy) => {
                    self.handle_or_vx_vy(extract_x(w), extract_y(w));
                    Ok(())
                },
                Some(EightOpcode::AndVxVy) => {
                    self.handle_and_vx_vy(extract_x(w), extract_y(w));
                    Ok(())
                },
                Some(EightOpcode::XorVxVy) => {
                    self.handle_xor_vx_vy(extract_x(w), extract_y(w));
                    Ok(())
                },
                Some(EightOpcode::AddVxVy) => {
                    self.handle_add_vx_vy(extract_x(w), extract_y(w));
                    Ok(())
                },
                Some(EightOpcode::SubVxVy) => {
                    self.handle_sub_vx_vy(extract_x(w), extract_y(w));
                    Ok(())
                },
                Some(EightOpcode::ShrVx) => {
                    self.handle_shr_vx(extract_x(w));
                    Ok(())
                },
                Some(EightOpcode::SubnVxVy) => {
                    self.handle_subn_vx_vy(extract_x(w), extract_y(w));
                    Ok(())
                },
                Some(EightOpcode::ShlVx) => {
                    self.handle_shl_vx(extract_x(w));
                    Ok(())
                },
                None => Err(EmulatorError::InvalidOpcode { opcode: w, pc: pc_now }),
            },
            Opcode::SneVxVy => {
                let first_register = extract_x(w);
                let second_register = extract_y(w);
                self.handle_sne_vx_vy(first_register, second_register);
                Ok(())
            },
            Opcode::LdIAddr => {
                let address = extract_addr(w);
                self.handle_ld_i(address);
                Ok(())
            },
            Opcode::JpV0Addr => Err(EmulatorError::InvalidOpcode { opcode: w, pc: pc_now }),
            Opcode::RndVxByte => Err(EmulatorError::InvalidOpcode { opcode: w, pc: pc_now }),
            Opcode::DrwVxVy => {
                let x_register = extract_x(w);
                let y_register = extract_y(w);
                let sprite_size = extract_n(w);
                self.handle_drw(x_register, y_register, sprite_size)
            },
            Opcode::FourteenOpcode => match FourteenOpcode::from_word(w) {
                Some(FourteenOpcode::SkpVx) => {
                    self.handle_skp_vx(extract_x(w));
                    Ok(())
                },
                Some(FourteenOpcode::SkpnVx) => {
                    self.handle_skpn_vx(extract_x(w));
                    Ok(())
                },
                None => Err(EmulatorError::InvalidOpcode { opcode: w, pc: pc_now }),
            },
            Opcode::FifteenOpcode => match FifteenOpcode::from_word(w) {
                Some(FifteenOpcode::LdVxDt) => {
                    self.handle_ld_vx_dt(extract_x(w));
                    Ok(())
                },
                Some(FifteenOpcode::LdVxK) => Err(EmulatorError::InvalidOpcode { opcode: w, pc: pc_now }),
                Some(FifteenOpcode::LdDtVx) => {
                    self.handle_ld_dt_vx(extract_x(w));
                    Ok(())
                },
                Some(FifteenOpcode::LdStVx) => Err(EmulatorError::InvalidOpcode { opcode: w, pc: pc_now }),
                Some(FifteenOpcode::AddIVx) => {
                    self.handle_add_i_vx(extract_x(w));
                    Ok(())
                },
                Some(FifteenOpcode::LdFVx) => {
                    self.handle_ld_f_vx(extract_x(w));
                    Ok(())
                },
                Some(FifteenOpcode::LdBVx) => self.handle_ld_b_vx(extract_x(w)),
                Some(FifteenOpcode::LdIVx) => self.handle_ld_i_vx(extract_x(w)),
                Some(FifteenOpcode::LdVxI) => self.handle_ld_vx_i(extract_x(w)),
                None => Err(EmulatorError::InvalidOpcode { opcode: w, pc: pc_now }),
            },
        };
        proof {
            assert(match outcome {
                Ok(()) => spec_dispatch(m1, w) is Ok && self@ == spec_dispatch(m1, w)->Ok_0,
                Err(e) => spec_dispatch(m1, w) == Err::<MachineView, EmulatorError>(e)
                    && self@ == m1,
            });
        }
        let ghost m2 = self@;
        self.scancodes = Vec::new();
        proof {
            assert(self@ =~~= spec_clear_keys(m2));
            assert(self@.wf());
            if outcome is Err {
                assert(self@ =~~= spec_fault_state(old(self)@));
            }
        }
        outcome
    }
}

} // verus!
