//! General properties of the instruction semantics, each proved against the
//! abstract step function in `model`.

use vstd::prelude::*;

use crate::model::{
    carry_bit, cpu_step, jcn_taken, kbp_code, pc_after, stack_pop, stack_push, CpuView,
};

verus! {

/// 4-bit closure: every operation leaves the machine state well formed; in
/// particular, whatever it writes to the accumulator or to an index register
/// lies in [0, 15].
pub proof fn lemma_nibble_closure(s: CpuView, op: u8)
    requires
        s.wf(),
    ensures
        cpu_step(s, op).wf(),
        cpu_step(s, op).acc < 16,
        forall|i: int| 0 <= i < 16 ==> cpu_step(s, op).index[i] < 16,
{
    let t = cpu_step(s, op);
    let opa = (op % 16) as u8;
    if op < 0x60 {
        assert(t.wf());
    } else if op < 0x80 {
        assert(t.wf());
    } else if op < 0xA0 {
        assert(t.wf());
    } else if op < 0xE0 {
        assert(t.wf());
    } else if op < 0xF0 {
        if opa < 0x8 {
            assert(t.wf());
        } else {
            assert(t.wf());
        }
    } else {
        if opa < 0x8 {
            assert(t.wf());
        } else {
            assert(t.wf());
        }
    }
}

/// Carry duality of addition and subtraction: for every accumulator value,
/// register value and carry-in, addition yields the 4-bit sum with the carry
/// reporting overflow, and subtraction (whose borrow is the complement of the
/// carry-in) yields the 4-bit difference with the carry reporting underflow.
pub proof fn lemma_add_sub_carry(s: CpuView, r: u8)
    requires
        s.wf(),
        r < 16,
    ensures
        ({
            let t = cpu_step(s, (0x80 + r) as u8);
            let sum = s.acc + s.index[r as int] + carry_bit(s.carry);
            t.acc == sum % 16 && t.carry == (sum > 15)
        }),
        ({
            let t = cpu_step(s, (0x90 + r) as u8);
            let taken = s.index[r as int] + 1 - carry_bit(s.carry);
            t.acc == (s.acc - taken) % 16 && t.carry == (s.acc < taken)
        }),
{
}

/// Rotate round-trip: rotating left then right through the carry (or right
/// then left) restores both the accumulator and the carry.
pub proof fn lemma_rotate_round_trip(s: CpuView)
    requires
        s.wf(),
    ensures
        cpu_step(cpu_step(s, 0xF5), 0xF6).acc == s.acc,
        cpu_step(cpu_step(s, 0xF5), 0xF6).carry == s.carry,
        cpu_step(cpu_step(s, 0xF6), 0xF5).acc == s.acc,
        cpu_step(cpu_step(s, 0xF6), 0xF5).carry == s.carry,
{
}

/// Stack discipline with saturation: pushing four distinct addresses onto the
/// empty 3-slot stack drops the oldest; the next three pops return the last
/// three pushed addresses in reverse order, and a fourth pop, below empty,
/// saturates at the (cleared, zero-valued) bottom slot.
pub proof fn lemma_stack_lifo_saturation(a: u16, b: u16, c: u16, d: u16)
    requires
        a < 4096,
        b < 4096,
        c < 4096,
        d < 4096,
        a != b,
        a != c,
        a != d,
        b != c,
        b != d,
        c != d,
    ensures
        ({
            let s0 = (seq![0u16, 0u16, 0u16], 0u8);
            let s1 = stack_push(s0.0, s0.1, a);
            let s2 = stack_push(s1.0, s1.1, b);
            let s3 = stack_push(s2.0, s2.1, c);
            let s4 = stack_push(s3.0, s3.1, d);
            let pop1 = stack_pop(s4.0, s4.1);
            let pop2 = stack_pop(pop1.0, pop1.1);
            let pop3 = stack_pop(pop2.0, pop2.1);
            let pop4 = stack_pop(pop3.0, pop3.1);
            pop1.2 == d && pop2.2 == c && pop3.2 == b && pop4.2 == 0 && pop4.1 == 0
        }),
{
    let s0 = (seq![0u16, 0u16, 0u16], 0u8);
    let s1 = stack_push(s0.0, s0.1, a);
    let s2 = stack_push(s1.0, s1.1, b);
    let s3 = stack_push(s2.0, s2.1, c);
    let s4 = stack_push(s3.0, s3.1, d);
    assert(s4.0 =~= seq![b, c, d]);
    let pop1 = stack_pop(s4.0, s4.1);
    let pop2 = stack_pop(pop1.0, pop1.1);
    let pop3 = stack_pop(pop2.0, pop2.1);
    let pop4 = stack_pop(pop3.0, pop3.1);
    assert(pop3.2 == b);
    assert(pop4.2 == 0);
}

/// Keyboard-process mapping: the one-of-four codes 0000, 0001, 0010, 0100 and
/// 1000 map to 0, 1, 2, 3 and 4; every other accumulator value maps to the
/// sentinel 15.
pub proof fn lemma_kbp_one_hot(s: CpuView)
    requires
        s.wf(),
    ensures
        cpu_step(s, 0xFC).acc == kbp_code(s.acc),
        s.acc == 0 ==> cpu_step(s, 0xFC).acc == 0,
        s.acc == 1 ==> cpu_step(s, 0xFC).acc == 1,
        s.acc == 2 ==> cpu_step(s, 0xFC).acc == 2,
        s.acc == 4 ==> cpu_step(s, 0xFC).acc == 3,
        s.acc == 8 ==> cpu_step(s, 0xFC).acc == 4,
        (s.acc != 0 && s.acc != 1 && s.acc != 2 && s.acc != 4 && s.acc != 8) ==> cpu_step(
            s,
            0xFC,
        ).acc == 15,
{
}

/// A conditional jump whose invert bit is set always falls through to the
/// instruction after the operand byte, whatever the accumulator, carry and
/// signal state, and changes nothing else.
pub proof fn lemma_jcn_invert_suppresses(s: CpuView, cond: u8)
    requires
        s.wf(),
        cond < 16,
        cond / 8 == 1,
    ensures
        !jcn_taken(s, cond),
        cpu_step(s, (0x10 + cond) as u8) == (CpuView { pc: pc_after(s.pc, 2), ..s }),
{
    assert(cpu_step(s, (0x10 + cond) as u8) =~= (CpuView { pc: pc_after(s.pc, 2), ..s }));
}

} // verus!
