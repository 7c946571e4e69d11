//! The processor core: index registers, accumulator, carry flag, call stack,
//! data-memory address register, and the decode-execute engine. Each public
//! mutation is specified against the abstract step function in `model`.

use vstd::prelude::*;

use crate::intel4001::Intel4001;
use crate::intel4002::Intel4002;
use crate::model::{
    cpu_step, spec_adm, spec_bbl, spec_clb, spec_clc, spec_cma, spec_cmc, spec_daa, spec_dac,
    spec_dcl, spec_fim, spec_fin, spec_iac, spec_inc, spec_isz, spec_jcn, spec_jin, spec_jms,
    spec_jun, spec_kbp, spec_ld, spec_ldm, spec_nop, spec_ral, spec_rar, spec_rd_status, spec_rdm,
    spec_rdr, spec_sbm, spec_src, spec_stc, spec_sub, spec_tcc, spec_tcs, spec_wmp, spec_wr_status,
    spec_wrm, spec_wrr, spec_xch, spec_add, stack_pop, stack_push, CpuView,
};

verus! {

/// Call stack: exactly 3 return-address slots of 12 bits each, with a
/// saturating pointer. Pushing onto a full stack drops the oldest entry;
/// popping an empty stack reads slot 0 and leaves the pointer at 0.
pub struct Stack {
    /// The 3 return-address slots.
    pub addrs: Vec<u16>,
    /// Stack pointer: number of occupied slots, in [0, 3].
    pub sp: u8,
}

impl Stack {
    /// Fixed depth, pointer in range, every slot a 12-bit address.
    pub open spec fn wf(&self) -> bool {
        &&& self.addrs@.len() == 3
        &&& self.sp <= 3
        &&& forall|i: int| 0 <= i < 3 ==> self.addrs@[i] < 4096
    }

    /// An empty stack: all slots zero, pointer at 0.
    pub fn new() -> (r: Stack)
        ensures
            r.wf(),
            r.addrs@ == seq![0u16, 0u16, 0u16],
            r.sp == 0,
    {
        let mut addrs: Vec<u16> = Vec::new();
        addrs.push(0);
        addrs.push(0);
        addrs.push(0);
        Stack { addrs, sp: 0 }
    }

    /// Push a return address: write at the pointer and advance it; on a full
    /// stack the oldest entry is dropped and the newest three remain.
    pub fn push(&mut self, addr: u16)
        requires
            old(self).wf(),
            addr < 4096,
        ensures
            final(self).wf(),
            (final(self).addrs@, final(self).sp) == stack_push(
                old(self).addrs@,
                old(self).sp,
                addr,
            ),
    {
        if self.sp < 3 {
            let sp = self.sp as usize;
            self.addrs.set(sp, addr);
            self.sp = self.sp + 1;
        } else {
            let a1 = self.addrs[1];
            let a2 = self.addrs[2];
            self.addrs.set(0, a1);
            self.addrs.set(1, a2);
            self.addrs.set(2, addr);
        }
    }

    /// Pop a return address: read the top occupied slot, clear it, and lower
    /// the pointer, saturating at 0 on an empty stack.
    pub fn pop(&mut self) -> (addr: u16)
        requires
            old(self).wf(),
        ensures
            final(self).wf(),
            addr < 4096,
            (final(self).addrs@, final(self).sp, addr) == stack_pop(
                old(self).addrs@,
                old(self).sp,
            ),
    {
        let i: usize = if self.sp > 0 {
            (self.sp - 1) as usize
        } else {
            0
        };
        let addr = self.addrs[i];
        self.addrs.set(i, 0);  // reset the vacated slot
        if self.sp > 0 {
            self.sp = self.sp - 1;
        }
        addr
    }
}

/// The processor: composes the register file, the call stack and the two
/// memory units, and executes one instruction per `clock` call.
pub struct Intel4004 {
    pc: u16,
    carry: bool,
    acc: u8,
    index: Vec<u8>,  // 16 independent 4-bit registers
    stack: Stack,
    signal: bool,  // external test line, never driven here
    command_control: u8,
    ram_addrs: u8,  // data-memory address register, set by SRC/JIN
    pub rom: Intel4001,
    pub ram: Intel4002,
}

impl View for Intel4004 {
    type V = CpuView;

    closed spec fn view(&self) -> CpuView {
        CpuView {
            pc: self.pc,
            carry: self.carry,
            acc: self.acc,
            index: self.index@,
            stack: self.stack.addrs@,
            sp: self.stack.sp,
            signal: self.signal,
            command_control: self.command_control,
            ram_addrs: self.ram_addrs,
            rom: self.rom.rom@,
            rom_io: self.rom.io,
            ram: self.ram.ram@,
            status: self.ram.status@,
            ram_output: self.ram.output,
        }
    }
}

impl Intel4004 {
    /// The abstract state is well formed.
    pub open spec fn wf(&self) -> bool {
        self@.wf()
    }

    /// A freshly constructed processor is zeroed everywhere.
    pub fn new() -> (r: Intel4004)
        ensures
            r.wf(),
            r@.pc == 0,
            !r@.carry,
            r@.acc == 0,
            r@.index == Seq::new(16, |i: int| 0u8),
            r@.stack == seq![0u16, 0u16, 0u16],
            r@.sp == 0,
            !r@.signal,
            r@.command_control == 0,
            r@.ram_addrs == 0,
            r@.rom == Seq::new(256, |i: int| 0u8),
            r@.rom_io == 0,
            r@.ram == Seq::new(64, |i: int| 0u8),
            r@.status == Seq::new(16, |i: int| 0u8),
            r@.ram_output == 0,
    {
        let mut index: Vec<u8> = Vec::new();
        while index.len() < 16
            invariant
                index@.len() <= 16,
                forall|i: int| 0 <= i < index@.len() ==> index@[i] == 0,
            decreases 16 - index@.len(),
        {
            index.push(0);
        }
        let r = Intel4004 {
            pc: 0x00,
            carry: false,
            acc: 0,
            index,
            stack: Stack::new(),
            signal: false,
            command_control: 0,
            ram_addrs: 0x00,
            rom: Intel4001::new(),
            ram: Intel4002::new(),
        };
        r
    }

    // --- Getters and setters (the test-harness surface) ---

    pub fn get_pc(&self) -> (r: u16)
        ensures
            r == self@.pc,
    {
        self.pc
    }

    pub fn get_carry(&self) -> (r: bool)
        ensures
            r == self@.carry,
    {
        self.carry
    }

    pub fn get_acc(&self) -> (r: u8)
        ensures
            r == self@.acc,
    {
        self.acc
    }

    pub fn get_index(&self) -> (r: &Vec<u8>)
        ensures
            r@ == self@.index,
    {
        &self.index
    }

    pub fn get_stack(&self) -> (r: &Vec<u16>)
        ensures
            r@ == self@.stack,
    {
        &self.stack.addrs
    }

    pub fn get_cc(&self) -> (r: u8)
        ensures
            r == self@.command_control,
    {
        self.command_control
    }

    pub fn get_ram_addrs(&self) -> (r: u8)
        ensures
            r == self@.ram_addrs,
    {
        self.ram_addrs
    }

    /// Set the program counter, masked to its 12-bit range.
    pub fn set_pc(&mut self, pc: u16)
        requires
            old(self).wf(),
        ensures
            final(self).wf(),
            final(self)@ == (CpuView { pc: (pc % 4096) as u16, ..old(self)@ }),
    {
        self.pc = pc % 4096;
    }

    pub fn set_carry(&mut self, carry: bool)
        requires
            old(self).wf(),
        ensures
            final(self).wf(),
            final(self)@ == (CpuView { carry, ..old(self)@ }),
    {
        self.carry = carry;
    }

    /// Set the accumulator, masked to 4 bits.
    pub fn set_acc(&mut self, acc: u8)
        requires
            old(self).wf(),
        ensures
            final(self).wf(),
            final(self)@ == (CpuView { acc: (acc % 16) as u8, ..old(self)@ }),
    {
        self.acc = acc % 16;
    }

    /// Replace all 16 index registers; each value is masked to 4 bits.
    pub fn set_index(&mut self, index: Vec<u8>)
        requires
            old(self).wf(),
            index@.len() == 16,
        ensures
            final(self).wf(),
            final(self)@ == (CpuView {
                index: Seq::new(16, |i: int| (index@[i] % 16) as u8),
                ..old(self)@
            }),
    {
        let mut i: usize = 0;
        while i < 16
            invariant
                old(self).wf(),
                index@.len() == 16,
                i <= 16,
                self.index@.len() == 16,
                forall|j: int| 0 <= j < i ==> self.index@[j] == index@[j] % 16,
                forall|j: int| i <= j < 16 ==> self.index@[j] == old(self).index@[j],
                self.pc == old(self).pc,
                self.carry == old(self).carry,
                self.acc == old(self).acc,
                self.stack == old(self).stack,
                self.signal == old(self).signal,
                self.command_control == old(self).command_control,
                self.ram_addrs == old(self).ram_addrs,
                self.rom == old(self).rom,
                self.ram == old(self).ram,
            decreases 16 - i,
        {
            self.index.set(i, index[i] % 16);
            i = i + 1;
        }
    }

    /// Replace the 3 call-stack slots; each address is masked to 12 bits.
    /// The stack pointer is untouched.
    pub fn set_stack(&mut self, stack: Vec<u16>)
        requires
            old(self).wf(),
            stack@.len() == 3,
        ensures
            final(self).wf(),
            final(self)@ == (CpuView {
                stack: Seq::new(3, |i: int| (stack@[i] % 4096) as u16),
                ..old(self)@
            }),
    {
        self.stack.addrs.set(0, stack[0] % 4096);
        self.stack.addrs.set(1, stack[1] % 4096);
        self.stack.addrs.set(2, stack[2] % 4096);
    }

    /// Set the command control latch, masked to 4 bits.
    pub fn set_cc(&mut self, cc: u8)
        requires
            old(self).wf(),
        ensures
            final(self).wf(),
            final(self)@ == (CpuView { command_control: (cc % 16) as u8, ..old(self)@ }),
    {
        self.command_control = cc % 16;
    }

    /// Set the data-memory address register (the full 8-bit selector).
    pub fn set_ram_addrs(&mut self, ram_addrs: u8)
        requires
            old(self).wf(),
        ensures
            final(self).wf(),
            final(self)@ == (CpuView { ram_addrs, ..old(self)@ }),
    {
        self.ram_addrs = ram_addrs;
    }

    /// One fetch-decode-execute cycle: fetch the byte at the program counter
    /// and execute it.
    pub fn clock(&mut self)
        requires
            old(self).wf(),
        ensures
            final(self).wf(),
            final(self)@ == cpu_step(
                old(self)@,
                crate::model::rom_fetch(old(self)@.rom, old(self)@.pc as int),
            ),
    {
        let op = self.rom.fetch_u8(self.pc as usize);
        self.decode_op(op);
    }

    /// Decode and execute one opcode: the high nibble selects the group, the
    /// low nibble is an operand, a register or pair selector, a parity bit
    /// choosing between two sibling operations, or a second-level dispatch
    /// code. An opcode with no defined meaning is a no-operation that still
    /// advances the program counter.
    pub fn decode_op(&mut self, op_code: u8)
        requires
            old(self).wf(),
        ensures
            final(self).wf(),
            final(self)@ == cpu_step(old(self)@, op_code),
    {
        proof {
            crate::laws::lemma_nibble_closure(old(self)@, op_code);
        }
        let opa = op_code % 16;
        match op_code / 16 {
            // Machine instructions
            0x0 => self.nop(),
            0x1 => self.jcn(opa),  // 2-word instruction
            0x2 => {
                // parity of the low nibble selects the sibling operation
                if opa % 2 == 0 {
                    self.fim(opa);
                } else {
                    self.src(opa);
                }
            },
            0x3 => {
                if opa % 2 == 0 {
                    self.fin(opa);
                } else {
                    self.jin(opa);
                }
            },
            0x4 => self.jun(opa),  // 2-word instruction
            0x5 => self.jms(opa),  // 2-word instruction
            0x6 => self.inc(opa),
            0x7 => self.isz(opa),  // 2-word instruction
            0x8 => self.add(opa),
            0x9 => self.sub(opa),
            0xA => self.ld(opa),
            0xB => self.xch(opa),
            0xC => self.bbl(opa),
            0xD => self.ldm(opa),
            // Input/output and data-memory instructions
            0xE => match opa {
                0x0 => self.wrm(),
                0x1 => self.wmp(),
                0x2 => self.wrr(),
                0x3 => self.wpm(),
                0x4 => self.wr_status(0),
                0x5 => self.wr_status(1),
                0x6 => self.wr_status(2),
                0x7 => self.wr_status(3),
                0x8 => self.sbm(),
                0x9 => self.rdm(),
                0xA => self.rdr(),
                0xB => self.adm(),
                0xC => self.rd_status(0),
                0xD => self.rd_status(1),
                0xE => self.rd_status(2),
                _ => self.rd_status(3),
            },
            // Accumulator group instructions
            _ => match opa {
                0x0 => self.clb(),
                0x1 => self.clc(),
                0x2 => self.iac(),
                0x3 => self.cmc(),
                0x4 => self.cma(),
                0x5 => self.ral(),
                0x6 => self.rar(),
                0x7 => self.tcc(),
                0x8 => self.dac(),
                0x9 => self.tcs(),
                0xA => self.stc(),
                0xB => self.daa(),
                0xC => self.kbp(),
                0xD => self.dcl(),
                _ => self.nop(),
            },
        }
    }

    // --- Machine instructions ---

    /// No operation.
    fn nop(&mut self)
        requires
            old(self).wf(),
        ensures
            final(self)@ == spec_nop(old(self)@),
    {
        self.pc = (self.pc + 1) % 4096;
    }

    /// Jump to the operand address if the condition nibble holds, otherwise
    /// fall through past the operand byte.
    fn jcn(&mut self, opa: u8)
        requires
            old(self).wf(),
            opa < 16,
        ensures
            final(self)@ == spec_jcn(old(self)@, opa),
    {
        let c1 = opa / 8;  // invert bit: forces the jump to be skipped
        let c2 = (opa / 4) % 2;  // test: accumulator is zero
        let c3 = (opa / 2) % 2;  // test: carry set
        let c4 = opa % 2;  // test: external signal

        self.pc = (self.pc + 1) % 4096;

        if c1 != 1 && ((self.acc == 0 && c2 == 1) || (self.carry && c3 == 1) || (self.signal
            && c4 == 1)) {
            self.pc = self.rom.fetch_u8(self.pc as usize) as u16;
        } else {
            self.pc = (self.pc + 1) % 4096;
        }
    }

    /// Fetch immediate: the next byte, masked to a nibble, goes into the
    /// even register of the selected pair.
    fn fim(&mut self, opa: u8)
        requires
            old(self).wf(),
            opa < 16,
        ensures
            final(self)@ == spec_fim(old(self)@, opa),
    {
        self.pc = (self.pc + 1) % 4096;

        let rp = ((opa / 2) * 2) as usize;
        let value = self.rom.fetch_u8(self.pc as usize);
        self.index.set(rp, value % 16);

        self.pc = (self.pc + 1) % 4096;
    }

    /// Send register control: the pair selector becomes the data-memory
    /// address for the following memory instructions.
    fn src(&mut self, opa: u8)
        requires
            old(self).wf(),
            opa < 16,
        ensures
            final(self)@ == spec_src(old(self)@, opa),
    {
        self.pc = (self.pc + 1) % 4096;

        self.ram_addrs = opa / 2;
    }

    /// Fetch indirect: read program memory at the address in register 0 and
    /// place the byte, masked to a nibble, in the selected pair.
    fn fin(&mut self, opa: u8)
        requires
            old(self).wf(),
            opa < 16,
        ensures
            final(self)@ == spec_fin(old(self)@, opa),
    {
        self.pc = (self.pc + 1) % 4096;

        let rp = ((opa / 2) * 2) as usize;
        let val = self.rom.fetch_u8(self.index[0] as usize);
        self.index.set(rp, val % 16);
    }

    /// Jump indirect: the even register of the pair becomes the data-memory
    /// address register.
    fn jin(&mut self, opa: u8)
        requires
            old(self).wf(),
            opa < 16,
        ensures
            final(self)@ == spec_jin(old(self)@, opa),
    {
        self.pc = (self.pc + 1) % 4096;

        let rp = ((opa / 2) * 2) as usize;
        self.ram_addrs = self.index[rp];
    }

    /// Jump unconditional: the opcode's low nibble and the operand byte form
    /// the 12-bit target.
    fn jun(&mut self, opa: u8)
        requires
            old(self).wf(),
            opa < 16,
        ensures
            final(self)@ == spec_jun(old(self)@, opa),
    {
        let low = self.rom.fetch_u8(((self.pc + 1) % 4096) as usize);
        self.pc = (opa as u16) * 256 + (low as u16);
    }

    /// Jump to subroutine: push the current program counter, then jump to
    /// the 12-bit target.
    fn jms(&mut self, opa: u8)
        requires
            old(self).wf(),
            opa < 16,
        ensures
            final(self)@ == spec_jms(old(self)@, opa),
    {
        let low = self.rom.fetch_u8(((self.pc + 1) % 4096) as usize);
        let pc = self.pc;
        self.stack.push(pc);
        self.pc = (opa as u16) * 256 + (low as u16);
    }

    /// Increment an index register, wrapping at 4 bits.
    fn inc(&mut self, opa: u8)
        requires
            old(self).wf(),
            opa < 16,
        ensures
            final(self)@ == spec_inc(old(self)@, opa),
    {
        self.pc = (self.pc + 1) % 4096;

        let reg_addr = opa as usize;
        let v = (self.index[reg_addr] + 1) % 16;
        self.index.set(reg_addr, v);
    }

    /// Increment an index register (wrapping at 4 bits) and jump to the
    /// operand address if the result is non-zero, otherwise fall through.
    fn isz(&mut self, opa: u8)
        requires
            old(self).wf(),
            opa < 16,
        ensures
            final(self)@ == spec_isz(old(self)@, opa),
    {
        self.pc = (self.pc + 1) % 4096;

        let rom_addr = self.rom.fetch_u8(self.pc as usize) as u16;
        let reg_addr = opa as usize;

        let v = (self.index[reg_addr] + 1) % 16;
        self.index.set(reg_addr, v);
        if v != 0 {
            self.pc = rom_addr;
        } else {
            self.pc = (self.pc + 1) % 4096;
        }
    }

    /// Add a register to the accumulator with carry-in; the carry becomes
    /// the 4-bit overflow.
    fn add(&mut self, opa: u8)
        requires
            old(self).wf(),
            opa < 16,
        ensures
            final(self)@ == spec_add(old(self)@, opa),
    {
        self.pc = (self.pc + 1) % 4096;

        let reg_addr = opa as usize;
        let sum = self.acc + self.index[reg_addr] + if self.carry {
            1
        } else {
            0
        };
        self.acc = sum % 16;
        self.carry = sum > 15;
    }

    /// Subtract a register from the accumulator with borrow (the complement
    /// of the carry-in); the carry is set exactly on underflow.
    fn sub(&mut self, opa: u8)
        requires
            old(self).wf(),
            opa < 16,
        ensures
            final(self)@ == spec_sub(old(self)@, opa),
    {
        self.pc = (self.pc + 1) % 4096;

        let reg_addr = opa as usize;
        let taken = self.index[reg_addr] + if self.carry {
            0
        } else {
            1
        };
        let new_carry = self.acc < taken;
        let widened = self.acc + 32 - taken;
        self.acc = widened % 16;
        self.carry = new_carry;
    }

    /// Load a register into the accumulator.
    fn ld(&mut self, opa: u8)
        requires
            old(self).wf(),
            opa < 16,
        ensures
            final(self)@ == spec_ld(old(self)@, opa),
    {
        let reg_addr = opa as usize;

        self.acc = self.index[reg_addr];

        self.pc = (self.pc + 1) % 4096;
    }

    /// Exchange the accumulator with a register.
    fn xch(&mut self, opa: u8)
        requires
            old(self).wf(),
            opa < 16,
        ensures
            final(self)@ == spec_xch(old(self)@, opa),
    {
        self.pc = (self.pc + 1) % 4096;

        let reg_addr = opa as usize;

        let temp = self.acc;
        self.acc = self.index[reg_addr];
        self.index.set(reg_addr, temp);
    }

    /// Branch back: pop the call stack into the program counter and load the
    /// opcode's low nibble into the accumulator.
    fn bbl(&mut self, opa: u8)
        requires
            old(self).wf(),
            opa < 16,
        ensures
            final(self)@ == spec_bbl(old(self)@, opa),
    {
        let addr = self.stack.pop();
        self.pc = addr;
        self.acc = opa % 16;
    }

    /// Load the opcode's low nibble into the accumulator.
    fn ldm(&mut self, opa: u8)
        requires
            old(self).wf(),
            opa < 16,
        ensures
            final(self)@ == spec_ldm(old(self)@, opa),
    {
        self.pc = (self.pc + 1) % 4096;

        self.acc = opa % 16;
    }

    // --- Input/output and data-memory instructions ---

    /// Write the accumulator into the selected main-memory character; an
    /// out-of-range selector leaves memory unchanged.
    fn wrm(&mut self)
        requires
            old(self).wf(),
        ensures
            final(self)@ == spec_wrm(old(self)@),
    {
        self.pc = (self.pc + 1) % 4096;

        if self.ram_addrs < 64 {
            self.ram.ram.set(self.ram_addrs as usize, self.acc);
        }
    }

    /// Write the accumulator to the data-memory output port.
    fn wmp(&mut self)
        requires
            old(self).wf(),
        ensures
            final(self)@ == spec_wmp(old(self)@),
    {
        self.pc = (self.pc + 1) % 4096;

        self.ram.output = self.acc;
    }

    /// Write the accumulator to the program-memory I/O port.
    fn wrr(&mut self)
        requires
            old(self).wf(),
        ensures
            final(self)@ == spec_wrr(old(self)@),
    {
        self.pc = (self.pc + 1) % 4096;

        self.rom.io = self.acc;
    }

    /// Write program memory: no read/write program-memory chip is attached,
    /// so only the program counter advances.
    fn wpm(&mut self)
        requires
            old(self).wf(),
        ensures
            final(self)@ == spec_nop(old(self)@),
    {
        self.pc = (self.pc + 1) % 4096;
    }

    /// Write the accumulator into status character `k` of the selected bank.
    fn wr_status(&mut self, k: u8)
        requires
            old(self).wf(),
            k < 4,
        ensures
            final(self)@ == spec_wr_status(old(self)@, k as int),
    {
        self.pc = (self.pc + 1) % 4096;

        let ram_register = (self.ram_addrs / 16) % 4;
        self.ram.status.set((ram_register * 4 + k) as usize, self.acc);
    }

    /// Subtract the selected main-memory character (plus the carry-in) from
    /// the accumulator; the carry is set exactly on underflow.
    fn sbm(&mut self)
        requires
            old(self).wf(),
        ensures
            final(self)@ == spec_sbm(old(self)@),
    {
        self.pc = (self.pc + 1) % 4096;

        let m = if self.ram_addrs < 64 {
            self.ram.ram[self.ram_addrs as usize]
        } else {
            0
        };
        let taken = m + if self.carry {
            1
        } else {
            0
        };
        let new_carry = self.acc < taken;
        let widened = self.acc + 32 - taken;
        self.acc = widened % 16;
        self.carry = new_carry;
    }

    /// Read the selected main-memory character into the accumulator.
    fn rdm(&mut self)
        requires
            old(self).wf(),
        ensures
            final(self)@ == spec_rdm(old(self)@),
    {
        self.pc = (self.pc + 1) % 4096;

        let val = if self.ram_addrs < 64 {
            self.ram.ram[self.ram_addrs as usize]
        } else {
            0
        };
        self.acc = val;
    }

    /// Read the program-memory I/O port into the accumulator.
    fn rdr(&mut self)
        requires
            old(self).wf(),
        ensures
            final(self)@ == spec_rdr(old(self)@),
    {
        self.pc = (self.pc + 1) % 4096;

        self.acc = self.rom.io;
    }

    /// Add the selected main-memory character to the accumulator with carry.
    fn adm(&mut self)
        requires
            old(self).wf(),
        ensures
            final(self)@ == spec_adm(old(self)@),
    {
        self.pc = (self.pc + 1) % 4096;

        let m = if self.ram_addrs < 64 {
            self.ram.ram[self.ram_addrs as usize]
        } else {
            0
        };
        let sum = self.acc + m + if self.carry {
            1
        } else {
            0
        };
        self.acc = sum % 16;
        self.carry = sum > 15;
    }

    /// Read status character `k` of the selected bank into the accumulator.
    fn rd_status(&mut self, k: u8)
        requires
            old(self).wf(),
            k < 4,
        ensures
            final(self)@ == spec_rd_status(old(self)@, k as int),
    {
        self.pc = (self.pc + 1) % 4096;

        let ram_register = (self.ram_addrs / 16) % 4;
        let val = self.ram.status[(ram_register * 4 + k) as usize];
        self.acc = val;
    }

    // --- Accumulator group instructions ---

    /// Clear the accumulator and the carry.
    fn clb(&mut self)
        requires
            old(self).wf(),
        ensures
            final(self)@ == spec_clb(old(self)@),
    {
        self.pc = (self.pc + 1) % 4096;

        self.acc = 0;
        self.carry = false;
    }

    /// Clear the carry.
    fn clc(&mut self)
        requires
            old(self).wf(),
        ensures
            final(self)@ == spec_clc(old(self)@),
    {
        self.pc = (self.pc + 1) % 4096;

        self.carry = false;
    }

    /// Increment the accumulator; the carry becomes the 4-bit overflow.
    fn iac(&mut self)
        requires
            old(self).wf(),
        ensures
            final(self)@ == spec_iac(old(self)@),
    {
        self.pc = (self.pc + 1) % 4096;

        let sum = self.acc + 1;
        self.acc = sum % 16;
        self.carry = sum > 15;
    }

    /// Complement the carry.
    fn cmc(&mut self)
        requires
            old(self).wf(),
        ensures
            final(self)@ == spec_cmc(old(self)@),
    {
        self.pc = (self.pc + 1) % 4096;

        self.carry = !self.carry;
    }

    /// Complement the accumulator within 4 bits; carry unaffected.
    fn cma(&mut self)
        requires
            old(self).wf(),
        ensures
            final(self)@ == spec_cma(old(self)@),
    {
        self.pc = (self.pc + 1) % 4096;

        self.acc = 15 - self.acc;
    }

    /// Rotate the accumulator left through the carry.
    fn ral(&mut self)
        requires
            old(self).wf(),
        ensures
            final(self)@ == spec_ral(old(self)@),
    {
        self.pc = (self.pc + 1) % 4096;

        let new_carry = self.acc >= 8;  // old bit 3 leaves through the carry

        self.acc = (self.acc % 8) * 2 + if self.carry {
            1
        } else {
            0
        };
        self.carry = new_carry;
    }

    /// Rotate the accumulator right through the carry.
    fn rar(&mut self)
        requires
            old(self).wf(),
        ensures
            final(self)@ == spec_rar(old(self)@),
    {
        self.pc = (self.pc + 1) % 4096;

        let new_carry = self.acc % 2 == 1;  // old bit 0 leaves through the carry

        self.acc = self.acc / 2 + if self.carry {
            8
        } else {
            0
        };
        self.carry = new_carry;
    }

    /// Transmit carry to the accumulator and clear the carry.
    fn tcc(&mut self)
        requires
            old(self).wf(),
        ensures
            final(self)@ == spec_tcc(old(self)@),
    {
        self.pc = (self.pc + 1) % 4096;

        self.acc = if self.carry {
            1
        } else {
            0
        };
        self.carry = false;
    }

    /// Decrement the accumulator, wrapping to 15 below zero; the carry is
    /// set exactly when no underflow occurred.
    fn dac(&mut self)
        requires
            old(self).wf(),
        ensures
            final(self)@ == spec_dac(old(self)@),
    {
        self.pc = (self.pc + 1) % 4096;

        if self.acc == 0 {
            self.acc = 0x0F;
            self.carry = false;
        } else {
            self.acc = self.acc - 1;
            self.carry = true;
        }
    }

    /// Transfer carry subtract: 10 when the carry is set, 9 otherwise, then
    /// clear the carry.
    fn tcs(&mut self)
        requires
            old(self).wf(),
        ensures
            final(self)@ == spec_tcs(old(self)@),
    {
        self.pc = (self.pc + 1) % 4096;

        if self.carry {
            self.acc = 10;
        } else {
            self.acc = 9;
        }
        self.carry = false;
    }

    /// Set the carry.
    fn stc(&mut self)
        requires
            old(self).wf(),
        ensures
            final(self)@ == spec_stc(old(self)@),
    {
        self.pc = (self.pc + 1) % 4096;

        self.carry = true;
    }

    /// Decimal adjust the accumulator.
    fn daa(&mut self)
        requires
            old(self).wf(),
        ensures
            final(self)@ == spec_daa(old(self)@),
    {
        self.pc = (self.pc + 1) % 4096;

        if self.carry || self.acc > 9 {
            let val = self.acc + 6;
            self.acc = val % 16;
            if val > 15 {
                self.carry = true;
            }
        }
    }

    /// Keyboard process: map a one-of-four code to its index, or to the
    /// sentinel 15 for any other pattern.
    fn kbp(&mut self)
        requires
            old(self).wf(),
        ensures
            final(self)@ == spec_kbp(old(self)@),
    {
        self.pc = (self.pc + 1) % 4096;

        self.acc = if self.acc == 0 {
            0
        } else if self.acc == 1 {
            1
        } else if self.acc == 2 {
            2
        } else if self.acc == 4 {
            3
        } else if self.acc == 8 {
            4
        } else {
            0x0F
        };
    }

    /// Designate command line: latch the accumulator.
    fn dcl(&mut self)
        requires
            old(self).wf(),
        ensures
            final(self)@ == spec_dcl(old(self)@),
    {
        self.pc = (self.pc + 1) % 4096;

        self.command_control = self.acc;
    }
}

} // verus!
