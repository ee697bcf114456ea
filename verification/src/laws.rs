//! The general properties the machine keeps, proved once and for all over
//! the transition functions of `machine`.

use vstd::prelude::*;
use crate::machine::{
    MachineView, spec_add_vx_vy, spec_call, spec_cls, spec_draw, spec_ret, spec_sub_vx_vy,
};

verus! {

/// For every register pair: an add whose mathematical sum exceeds 255 sets
/// VF to 1, a sum of at most 255 sets VF to 0, and the destination register
/// receives the sum modulo 256 — exact when it fits.  (When the destination
/// is VF itself, the flag overwrites the sum, so the destination clauses
/// hold for the other fifteen registers.)
pub proof fn lemma_add_carry(m: MachineView, x: int, y: int)
    requires
        m.wf(),
        0 <= x < 16,
        0 <= y < 16,
    ensures
        ({
            let m2 = spec_add_vx_vy(m, x, y);
            let sum = m.vx[x] + m.vx[y];
            &&& sum > 255 ==> m2.vx[15] == 1 && (x != 15 ==> m2.vx[x] == sum - 256)
            &&& sum <= 255 ==> m2.vx[15] == 0 && (x != 15 ==> m2.vx[x] == sum)
        }),
{
}

/// For every register pair: a subtract whose minuend strictly exceeds the
/// subtrahend sets VF to 1 and leaves the exact difference; otherwise VF is
/// 0 and the difference wraps modulo 256.  (When the destination is VF
/// itself, the flag overwrites the difference, so the difference clauses
/// hold for the other fifteen registers.)
pub proof fn lemma_sub_borrow(m: MachineView, x: int, y: int)
    requires
        m.wf(),
        0 <= x < 16,
        0 <= y < 16,
    ensures
        ({
            let m2 = spec_sub_vx_vy(m, x, y);
            &&& m.vx[x] > m.vx[y] ==> m2.vx[15] == 1
                && (x != 15 ==> m2.vx[x] == m.vx[x] - m.vx[y])
            &&& m.vx[x] <= m.vx[y] ==> m2.vx[15] == 0
                && (x != 15 ==> m2.vx[x] == (m.vx[x] - m.vx[y] + 256) % 256)
        }),
{
}

/// A screen clear leaves every pixel of the framebuffer dark, so any read
/// that follows it sees only dark pixels.
pub proof fn lemma_cls_clears(m: MachineView)
    requires
        m.wf(),
    ensures
        forall|px: int, py: int| 0 <= px < 64 && 0 <= py < 32
            ==> (#[trigger] spec_cls(m).video[px][py]) == false,
{
}

/// Drawing the same sprite at the same origin twice in succession restores
/// the framebuffer exactly: XOR composition cancels itself.  The origin
/// registers must not be VF, which the first draw may overwrite.
pub proof fn lemma_draw_twice_restores(m: MachineView, x: int, y: int, n: int)
    requires
        m.wf(),
        0 <= x < 16,
        0 <= y < 16,
        x != 15,
        y != 15,
        0 <= n <= 15,
        m.i + n <= 4096,
    ensures
        spec_draw(m, x, y, n) is Ok,
        spec_draw(spec_draw(m, x, y, n)->Ok_0, x, y, n) is Ok,
        spec_draw(spec_draw(m, x, y, n)->Ok_0, x, y, n)->Ok_0.video == m.video,
{
    let m2 = spec_draw(m, x, y, n)->Ok_0;
    let m3 = spec_draw(m2, x, y, n)->Ok_0;
    assert forall|px: int, py: int| 0 <= px < 64 && 0 <= py < 32
        implies #[trigger] m3.video[px][py] == m.video[px][py] by {}
    assert(m3.video =~~= m.video);
}

/// A call followed immediately by a return leaves the program counter
/// exactly two past the call instruction's own address, with the stack
/// pointer back where it was before the call.
pub proof fn lemma_call_then_ret(m: MachineView, address: u16)
    requires
        m.wf(),
        m.sp < 16,
        m.pc <= 4094,
    ensures
        spec_call(m, address) is Ok,
        spec_ret(spec_call(m, address)->Ok_0) is Ok,
        spec_ret(spec_call(m, address)->Ok_0)->Ok_0.pc == m.pc + 2,
        spec_ret(spec_call(m, address)->Ok_0)->Ok_0.sp == m.sp,
{
}

} // verus!
