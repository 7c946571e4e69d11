//! Mathematical model of the processor: an abstract machine state and a step
//! function giving the exact semantics of every opcode. The executable engine
//! in `intel4004` is proved to implement `cpu_step` byte for byte.
//!
//! Conventions of this instruction set:
//! - every value stored in the accumulator, an index register, a memory
//!   character or a port is a nibble, masked to 4 bits at each write;
//! - the program counter is 12 bits wide and advances modulo 4096;
//! - the call stack has exactly 3 slots; pushing onto a full stack drops the
//!   oldest entry, popping an empty stack yields slot 0 (saturation, never an
//!   error);
//! - an opcode with no defined meaning is a no-operation that still advances
//!   the program counter.

use vstd::prelude::*;

verus! {

/// Abstract state of the whole machine: CPU registers, call stack, the
/// program-memory unit (bytes and its I/O port) and the data-memory unit
/// (main characters, status characters and its output port).
#[verifier::ext_equal]
pub ghost struct CpuView {
    pub pc: u16,
    pub carry: bool,
    pub acc: u8,
    pub index: Seq<u8>,
    pub stack: Seq<u16>,
    pub sp: u8,
    pub signal: bool,
    pub command_control: u8,
    pub ram_addrs: u8,
    pub rom: Seq<u8>,
    pub rom_io: u8,
    pub ram: Seq<u8>,
    pub status: Seq<u8>,
    pub ram_output: u8,
}

impl CpuView {
    /// Well-formed machine state: fixed array sizes, every 4-bit cell below
    /// 16, the program counter within its 12-bit range, stack addresses
    /// within 12 bits and the stack pointer within [0, 3].
    pub open spec fn wf(self) -> bool {
        &&& self.pc < 4096
        &&& self.acc < 16
        &&& self.index.len() == 16
        &&& (forall|i: int| 0 <= i < 16 ==> self.index[i] < 16)
        &&& self.stack.len() == 3
        &&& self.sp <= 3
        &&& (forall|i: int| 0 <= i < 3 ==> self.stack[i] < 4096)
        &&& self.command_control < 16
        &&& self.rom.len() == 256
        &&& self.rom_io < 16
        &&& self.ram.len() == 64
        &&& (forall|i: int| 0 <= i < 64 ==> self.ram[i] < 16)
        &&& self.status.len() == 16
        &&& (forall|i: int| 0 <= i < 16 ==> self.status[i] < 16)
        &&& self.ram_output < 16
    }
}

/// Carry flag as an integer summand.
pub open spec fn carry_bit(carry: bool) -> int {
    if carry {
        1int
    } else {
        0int
    }
}

/// Program-counter advance, modulo the 12-bit address space.
pub open spec fn pc_after(pc: u16, n: int) -> u16 {
    ((pc + n) % 4096) as u16
}

/// Program-memory read: the stored byte, or 0 for an out-of-range address
/// (a defensive read never fails).
pub open spec fn rom_fetch(rom: Seq<u8>, addr: int) -> u8 {
    if 0 <= addr < rom.len() {
        rom[addr]
    } else {
        0
    }
}

/// Status bank selected by the data-memory address register: bits 4 and 5 of
/// the selector.
pub open spec fn status_bank(sel: u8) -> int {
    ((sel / 16) % 4) as int
}

/// Main-memory character currently selected, or 0 when the selector is out
/// of range of the 64-character array.
pub open spec fn main_char(s: CpuView) -> u8 {
    if s.ram_addrs < 64 {
        s.ram[s.ram_addrs as int]
    } else {
        0
    }
}

// --- Call stack ---

/// Push onto the 3-slot stack: write at the pointer and advance it; on a
/// full stack the oldest entry is dropped and the newest three remain.
pub open spec fn stack_push(addrs: Seq<u16>, sp: u8, addr: u16) -> (Seq<u16>, u8) {
    if sp < 3 {
        (addrs.update(sp as int, addr), (sp + 1) as u8)
    } else {
        (seq![addrs[1], addrs[2], addr], sp)
    }
}

/// Slot read by a pop: the topmost occupied slot, or slot 0 when the stack
/// is empty (the pointer saturates at 0).
pub open spec fn stack_pop_index(sp: u8) -> int {
    if sp > 0 {
        sp - 1
    } else {
        0
    }
}

/// Pop from the stack: read the top slot, clear it, and lower the pointer,
/// saturating at 0. Returns the new slots, the new pointer and the value read.
pub open spec fn stack_pop(addrs: Seq<u16>, sp: u8) -> (Seq<u16>, u8, u16) {
    let i = stack_pop_index(sp);
    (addrs.update(i, 0), (if sp > 0 { (sp - 1) as int } else { 0int }) as u8, addrs[i])
}

// --- Machine instructions ---

/// No operation; the program counter still advances.
pub open spec fn spec_nop(s: CpuView) -> CpuView {
    CpuView { pc: pc_after(s.pc, 1), ..s }
}

/// Condition test of the conditional jump: bit 3 inverts (forces the jump to
/// be skipped), bit 2 tests the accumulator for zero, bit 1 tests the carry,
/// bit 0 tests the external signal line.
pub open spec fn jcn_taken(s: CpuView, cond: u8) -> bool {
    cond / 8 != 1 && ((s.acc == 0 && (cond / 4) % 2 == 1) || (s.carry && (cond / 2) % 2 == 1) || (
    s.signal
        && cond % 2 == 1))
}

/// Conditional jump (two words): when the condition holds, jump to the
/// operand byte; otherwise fall through past the operand.
pub open spec fn spec_jcn(s: CpuView, cond: u8) -> CpuView {
    if jcn_taken(s, cond) {
        CpuView { pc: rom_fetch(s.rom, pc_after(s.pc, 1) as int) as u16, ..s }
    } else {
        CpuView { pc: pc_after(s.pc, 2), ..s }
    }
}

/// Fetch immediate (two words): the operand byte, masked to a nibble, goes
/// into the even register of the selected pair.
pub open spec fn spec_fim(s: CpuView, opa: u8) -> CpuView {
    let rp = ((opa / 2) * 2) as int;
    let v = (rom_fetch(s.rom, pc_after(s.pc, 1) as int) % 16) as u8;
    CpuView { pc: pc_after(s.pc, 2), index: s.index.update(rp, v), ..s }
}

/// Send register control: the pair selector becomes the data-memory address.
pub open spec fn spec_src(s: CpuView, opa: u8) -> CpuView {
    CpuView { pc: pc_after(s.pc, 1), ram_addrs: (opa / 2) as u8, ..s }
}

/// Fetch indirect: read program memory at the address held in register 0 and
/// store the byte, masked to a nibble, into the even register of the pair.
pub open spec fn spec_fin(s: CpuView, opa: u8) -> CpuView {
    let rp = ((opa / 2) * 2) as int;
    let v = (rom_fetch(s.rom, s.index[0] as int) % 16) as u8;
    CpuView { pc: pc_after(s.pc, 1), index: s.index.update(rp, v), ..s }
}

/// Jump indirect: the even register of the pair becomes the data-memory
/// address register.
pub open spec fn spec_jin(s: CpuView, opa: u8) -> CpuView {
    let rp = ((opa / 2) * 2) as int;
    CpuView { pc: pc_after(s.pc, 1), ram_addrs: s.index[rp], ..s }
}

/// Jump target of the unconditional jump and the subroutine call: the low
/// nibble of the opcode supplies the high 4 address bits, the operand byte
/// at the next address the low 8.
pub open spec fn jump_target(s: CpuView, opa: u8) -> u16 {
    ((opa % 16) * 256 + rom_fetch(s.rom, pc_after(s.pc, 1) as int)) as u16
}

/// Unconditional jump (two words); no stack effect.
pub open spec fn spec_jun(s: CpuView, opa: u8) -> CpuView {
    CpuView { pc: jump_target(s, opa), ..s }
}

/// Jump to subroutine (two words): push the current program counter, then
/// jump to the target.
pub open spec fn spec_jms(s: CpuView, opa: u8) -> CpuView {
    let st = stack_push(s.stack, s.sp, s.pc);
    CpuView { pc: jump_target(s, opa), stack: st.0, sp: st.1, ..s }
}

/// Increment an index register, wrapping at 4 bits.
pub open spec fn spec_inc(s: CpuView, opa: u8) -> CpuView {
    let r = opa as int;
    CpuView {
        pc: pc_after(s.pc, 1),
        index: s.index.update(r, ((s.index[r] + 1) % 16) as u8),
        ..s
    }
}

/// Increment and skip (two words): increment the register, wrapping at 4
/// bits; jump to the operand byte when the result is non-zero, otherwise
/// fall through past the operand.
pub open spec fn spec_isz(s: CpuView, opa: u8) -> CpuView {
    let r = opa as int;
    let v = ((s.index[r] + 1) % 16) as u8;
    let target = rom_fetch(s.rom, pc_after(s.pc, 1) as int) as u16;
    CpuView {
        pc: if v != 0 {
            target
        } else {
            pc_after(s.pc, 2)
        },
        index: s.index.update(r, v),
        ..s
    }
}

/// Add a register to the accumulator with carry-in; the carry flag is
/// recomputed as the overflow of the 4-bit sum.
pub open spec fn spec_add(s: CpuView, opa: u8) -> CpuView {
    let sum = s.acc + s.index[opa as int] + carry_bit(s.carry);
    CpuView { pc: pc_after(s.pc, 1), acc: (sum % 16) as u8, carry: sum > 15, ..s }
}

/// Subtract a register from the accumulator with borrow: the amount taken is
/// the register plus the complement of the carry-in; the carry flag is set
/// exactly when the subtraction underflowed.
pub open spec fn spec_sub(s: CpuView, opa: u8) -> CpuView {
    let taken = s.index[opa as int] + 1 - carry_bit(s.carry);
    CpuView {
        pc: pc_after(s.pc, 1),
        acc: ((s.acc - taken) % 16) as u8,
        carry: s.acc < taken,
        ..s
    }
}

/// Load a register into the accumulator.
pub open spec fn spec_ld(s: CpuView, opa: u8) -> CpuView {
    CpuView { pc: pc_after(s.pc, 1), acc: s.index[opa as int], ..s }
}

/// Exchange the accumulator with a register.
pub open spec fn spec_xch(s: CpuView, opa: u8) -> CpuView {
    CpuView {
        pc: pc_after(s.pc, 1),
        acc: s.index[opa as int],
        index: s.index.update(opa as int, s.acc),
        ..s
    }
}

/// Branch back and load: pop the call stack into the program counter and
/// load the opcode's low nibble into the accumulator.
pub open spec fn spec_bbl(s: CpuView, opa: u8) -> CpuView {
    let st = stack_pop(s.stack, s.sp);
    CpuView { pc: st.2, acc: (opa % 16) as u8, stack: st.0, sp: st.1, ..s }
}

/// Load immediate: the opcode's low nibble goes into the accumulator.
pub open spec fn spec_ldm(s: CpuView, opa: u8) -> CpuView {
    CpuView { pc: pc_after(s.pc, 1), acc: (opa % 16) as u8, ..s }
}

// --- Input/output and data-memory instructions ---

/// Write the accumulator into the selected main-memory character; a selector
/// out of range of the 64-character array leaves memory unchanged.
pub open spec fn spec_wrm(s: CpuView) -> CpuView {
    CpuView {
        pc: pc_after(s.pc, 1),
        ram: if s.ram_addrs < 64 {
            s.ram.update(s.ram_addrs as int, s.acc)
        } else {
            s.ram
        },
        ..s
    }
}

/// Write the accumulator to the data-memory output port.
pub open spec fn spec_wmp(s: CpuView) -> CpuView {
    CpuView { pc: pc_after(s.pc, 1), ram_output: s.acc, ..s }
}

/// Write the accumulator to the program-memory I/O port.
pub open spec fn spec_wrr(s: CpuView) -> CpuView {
    CpuView { pc: pc_after(s.pc, 1), rom_io: s.acc, ..s }
}

/// Write the accumulator into status character `k` of the selected bank.
pub open spec fn spec_wr_status(s: CpuView, k: int) -> CpuView {
    CpuView {
        pc: pc_after(s.pc, 1),
        status: s.status.update(status_bank(s.ram_addrs) * 4 + k, s.acc),
        ..s
    }
}

/// Subtract the selected main-memory character from the accumulator; the
/// amount taken is the character plus the carry-in, and the carry flag is
/// set exactly when the subtraction underflowed.
pub open spec fn spec_sbm(s: CpuView) -> CpuView {
    let taken = main_char(s) + carry_bit(s.carry);
    CpuView {
        pc: pc_after(s.pc, 1),
        acc: ((s.acc - taken) % 16) as u8,
        carry: s.acc < taken,
        ..s
    }
}

/// Read the selected main-memory character into the accumulator.
pub open spec fn spec_rdm(s: CpuView) -> CpuView {
    CpuView { pc: pc_after(s.pc, 1), acc: main_char(s), ..s }
}

/// Read the program-memory I/O port into the accumulator.
pub open spec fn spec_rdr(s: CpuView) -> CpuView {
    CpuView { pc: pc_after(s.pc, 1), acc: s.rom_io, ..s }
}

/// Add the selected main-memory character to the accumulator with carry.
pub open spec fn spec_adm(s: CpuView) -> CpuView {
    let sum = s.acc + main_char(s) + carry_bit(s.carry);
    CpuView { pc: pc_after(s.pc, 1), acc: (sum % 16) as u8, carry: sum > 15, ..s }
}

/// Read status character `k` of the selected bank into the accumulator.
pub open spec fn spec_rd_status(s: CpuView, k: int) -> CpuView {
    CpuView { pc: pc_after(s.pc, 1), acc: s.status[status_bank(s.ram_addrs) * 4 + k], ..s }
}

// --- Accumulator group instructions ---

/// Clear both the accumulator and the carry flag.
pub open spec fn spec_clb(s: CpuView) -> CpuView {
    CpuView { pc: pc_after(s.pc, 1), acc: 0, carry: false, ..s }
}

/// Clear the carry flag.
pub open spec fn spec_clc(s: CpuView) -> CpuView {
    CpuView { pc: pc_after(s.pc, 1), carry: false, ..s }
}

/// Increment the accumulator; the carry flag is the 4-bit overflow.
pub open spec fn spec_iac(s: CpuView) -> CpuView {
    CpuView { pc: pc_after(s.pc, 1), acc: ((s.acc + 1) % 16) as u8, carry: s.acc + 1 > 15, ..s }
}

/// Complement the carry flag.
pub open spec fn spec_cmc(s: CpuView) -> CpuView {
    CpuView { pc: pc_after(s.pc, 1), carry: !s.carry, ..s }
}

/// Complement the accumulator (bitwise, within 4 bits); carry unaffected.
pub open spec fn spec_cma(s: CpuView) -> CpuView {
    CpuView { pc: pc_after(s.pc, 1), acc: (15 - s.acc) as u8, ..s }
}

/// Rotate the accumulator left through the carry: carry-in enters bit 0, the
/// old bit 3 becomes the new carry.
pub open spec fn spec_ral(s: CpuView) -> CpuView {
    CpuView {
        pc: pc_after(s.pc, 1),
        acc: ((s.acc % 8) * 2 + carry_bit(s.carry)) as u8,
        carry: s.acc >= 8,
        ..s
    }
}

/// Rotate the accumulator right through the carry: carry-in enters bit 3,
/// the old bit 0 becomes the new carry.
pub open spec fn spec_rar(s: CpuView) -> CpuView {
    CpuView {
        pc: pc_after(s.pc, 1),
        acc: (s.acc / 2 + 8 * carry_bit(s.carry)) as u8,
        carry: s.acc % 2 == 1,
        ..s
    }
}

/// Transmit carry to accumulator (1 or 0) and clear the carry.
pub open spec fn spec_tcc(s: CpuView) -> CpuView {
    CpuView { pc: pc_after(s.pc, 1), acc: carry_bit(s.carry) as u8, carry: false, ..s }
}

/// Decrement the accumulator, wrapping to 15 below zero; the carry flag is
/// set exactly when no underflow occurred (inverted borrow convention).
pub open spec fn spec_dac(s: CpuView) -> CpuView {
    if s.acc == 0 {
        CpuView { pc: pc_after(s.pc, 1), acc: 15, carry: false, ..s }
    } else {
        CpuView { pc: pc_after(s.pc, 1), acc: (s.acc - 1) as u8, carry: true, ..s }
    }
}

/// Transfer carry subtract: 10 when the carry is set, 9 otherwise; the carry
/// is cleared.
pub open spec fn spec_tcs(s: CpuView) -> CpuView {
    CpuView {
        pc: pc_after(s.pc, 1),
        acc: if s.carry {
            10
        } else {
            9
        },
        carry: false,
        ..s
    }
}

/// Set the carry flag.
pub open spec fn spec_stc(s: CpuView) -> CpuView {
    CpuView { pc: pc_after(s.pc, 1), carry: true, ..s }
}

/// Decimal adjust: when the carry is set or the accumulator exceeds 9, add 6
/// and set the carry if that addition overflowed 4 bits; otherwise nothing
/// changes but the program counter.
pub open spec fn spec_daa(s: CpuView) -> CpuView {
    if s.carry || s.acc > 9 {
        CpuView {
            pc: pc_after(s.pc, 1),
            acc: ((s.acc + 6) % 16) as u8,
            carry: s.carry || s.acc + 6 > 15,
            ..s
        }
    } else {
        CpuView { pc: pc_after(s.pc, 1), ..s }
    }
}

/// Keyboard process: map a one-of-four code in the accumulator to its index
/// (0000, 0001, 0010, 0100, 1000 become 0 to 4); every other pattern maps to
/// the sentinel 15.
pub open spec fn kbp_code(acc: u8) -> u8 {
    if acc == 0 {
        0
    } else if acc == 1 {
        1
    } else if acc == 2 {
        2
    } else if acc == 4 {
        3
    } else if acc == 8 {
        4
    } else {
        15
    }
}

/// Keyboard process applied to the accumulator.
pub open spec fn spec_kbp(s: CpuView) -> CpuView {
    CpuView { pc: pc_after(s.pc, 1), acc: kbp_code(s.acc), ..s }
}

/// Designate command line: latch the accumulator into the command control
/// register.
pub open spec fn spec_dcl(s: CpuView) -> CpuView {
    CpuView { pc: pc_after(s.pc, 1), command_control: s.acc, ..s }
}

// --- Dispatch ---

/// Second-level dispatch of the I/O and data-memory group (high nibble 0xE)
/// on the full low nibble.
pub open spec fn spec_io_ram(s: CpuView, opa: u8) -> CpuView {
    if opa == 0x0 {
        spec_wrm(s)
    } else if opa == 0x1 {
        spec_wmp(s)
    } else if opa == 0x2 {
        spec_wrr(s)
    } else if opa == 0x3 {
        spec_nop(s)  // write program memory: no read/write program memory is attached
    } else if opa == 0x4 {
        spec_wr_status(s, 0)
    } else if opa == 0x5 {
        spec_wr_status(s, 1)
    } else if opa == 0x6 {
        spec_wr_status(s, 2)
    } else if opa == 0x7 {
        spec_wr_status(s, 3)
    } else if opa == 0x8 {
        spec_sbm(s)
    } else if opa == 0x9 {
        spec_rdm(s)
    } else if opa == 0xA {
        spec_rdr(s)
    } else if opa == 0xB {
        spec_adm(s)
    } else if opa == 0xC {
        spec_rd_status(s, 0)
    } else if opa == 0xD {
        spec_rd_status(s, 1)
    } else if opa == 0xE {
        spec_rd_status(s, 2)
    } else {
        spec_rd_status(s, 3)
    }
}

/// Second-level dispatch of the accumulator group (high nibble 0xF) on the
/// full low nibble; the two unassigned codes are no-operations.
pub open spec fn spec_acc_group(s: CpuView, opa: u8) -> CpuView {
    if opa == 0x0 {
        spec_clb(s)
    } else if opa == 0x1 {
        spec_clc(s)
    } else if opa == 0x2 {
        spec_iac(s)
    } else if opa == 0x3 {
        spec_cmc(s)
    } else if opa == 0x4 {
        spec_cma(s)
    } else if opa == 0x5 {
        spec_ral(s)
    } else if opa == 0x6 {
        spec_rar(s)
    } else if opa == 0x7 {
        spec_tcc(s)
    } else if opa == 0x8 {
        spec_dac(s)
    } else if opa == 0x9 {
        spec_tcs(s)
    } else if opa == 0xA {
        spec_stc(s)
    } else if opa == 0xB {
        spec_daa(s)
    } else if opa == 0xC {
        spec_kbp(s)
    } else if opa == 0xD {
        spec_dcl(s)
    } else {
        spec_nop(s)
    }
}

/// One fetch-decode-execute step on the abstract state: the high nibble of
/// the opcode selects the group, the low nibble is an operand, a register or
/// pair selector, a parity bit choosing between two sibling operations, or a
/// second-level dispatch code.
pub open spec fn cpu_step(s: CpuView, op: u8) -> CpuView {
    let opa = (op % 16) as u8;
    if op < 0x10 {
        spec_nop(s)
    } else if op < 0x20 {
        spec_jcn(s, opa)
    } else if op < 0x30 {
        if opa % 2 == 0 {
            spec_fim(s, opa)
        } else {
            spec_src(s, opa)
        }
    } else if op < 0x40 {
        if opa % 2 == 0 {
            spec_fin(s, opa)
        } else {
            spec_jin(s, opa)
        }
    } else if op < 0x50 {
        spec_jun(s, opa)
    } else if op < 0x60 {
        spec_jms(s, opa)
    } else if op < 0x70 {
        spec_inc(s, opa)
    } else if op < 0x80 {
        spec_isz(s, opa)
    } else if op < 0x90 {
        spec_add(s, opa)
    } else if op < 0xA0 {
        spec_sub(s, opa)
    } else if op < 0xB0 {
        spec_ld(s, opa)
    } else if op < 0xC0 {
        spec_xch(s, opa)
    } else if op < 0xD0 {
        spec_bbl(s, opa)
    } else if op < 0xE0 {
        spec_ldm(s, opa)
    } else if op < 0xF0 {
        spec_io_ram(s, opa)
    } else {
        spec_acc_group(s, opa)
    }
}

} // verus!
