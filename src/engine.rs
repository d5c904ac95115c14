//! The instruction execution engine: what each operation does to the processor, and the
//! code that does it.

use vstd::prelude::*;

use crate::cpu::CPU;
use crate::instruction::{
    decode, is_address_mode, is_value_mode, lookup, well_formed, AddressingMode, Instruction,
    Mnemonic, MAX_INSTRUCTION_TIME,
};
use crate::state::{CpuState, Flag};

verus! {

/// A shift or rotate of `v` with carry-in `carry`: the new byte and the bit shifted out.
/// ASL and ROL shift left and give out bit 7; LSR and ROR shift right and give out bit 0.
/// The incoming bit is zero for the shifts and the carry for the rotates.
pub open spec fn shifted(m: Mnemonic, v: u8, carry: bool) -> (u8, bool) {
    let c: int = if carry { 1 } else { 0 };
    match m {
        Mnemonic::ASL => (((v % 128) * 2) as u8, v >= 0x80),
        Mnemonic::LSR => ((v / 2) as u8, v % 2 == 1),
        Mnemonic::ROL => (((v % 128) * 2 + c) as u8, v >= 0x80),
        _ => ((v / 2 + c * 0x80) as u8, v % 2 == 1),
    }
}

pub open spec fn is_shift(m: Mnemonic) -> bool {
    m == Mnemonic::ASL || m == Mnemonic::LSR || m == Mnemonic::ROL || m == Mnemonic::ROR
}

impl CpuState {
    /// ADC: `a + operand + carry` as a 9-bit sum. Carry iff the sum exceeds `0xFF`;
    /// Overflow iff both addends have the same sign and the sum lies in `0x80..0x180`.
    /// Decimal mode is never consulted.
    pub open spec fn add_with_carry(self, mode: AddressingMode) -> CpuState {
        let v = self.operand(mode);
        let sum = self.a + v + if self.flag(Flag::Carry) { 1int } else { 0 };
        let overflow = (self.a < 0x80) == (v < 0x80) && 0x80 <= sum < 0x180;
        let r = (sum % 256) as u8;
        CpuState {
            a: r,
            ..self.after_operand(mode).set_flag(Flag::Overflow, overflow).set_flag(
                Flag::Carry,
                sum > 0xff,
            ).update_status(r)
        }
    }

    /// SBC: the carry stands for bit 8 of the minuend, and the difference is
    /// `a + 0x100 * carry - operand`. Carry iff that difference lies in `0..=0xFF`;
    /// Overflow iff the operands differ in sign and it lies in `0x80..0x180`.
    pub open spec fn subtract_with_borrow(self, mode: AddressingMode) -> CpuState {
        let v = self.operand(mode);
        let diff = self.a + if self.flag(Flag::Carry) { 0x100int } else { 0 } - v;
        let overflow = (self.a < 0x80) != (v < 0x80) && 0x80 <= diff < 0x180;
        let r = (diff % 256) as u8;
        CpuState {
            a: r,
            ..self.after_operand(mode).set_flag(Flag::Overflow, overflow).set_flag(
                Flag::Carry,
                0 <= diff <= 0xff,
            ).update_status(r)
        }
    }

    /// A shift or rotate of the accumulator or of the byte at the effective address.
    pub open spec fn shift(self, m: Mnemonic, mode: AddressingMode) -> CpuState {
        let carry = self.flag(Flag::Carry);
        if mode == AddressingMode::Accumulator {
            let r = shifted(m, self.a, carry);
            CpuState { a: r.0, ..self.set_flag(Flag::Carry, r.1).update_status(r.0) }
        } else {
            let address = self.effective_address(mode);
            let r = shifted(m, self.byte(address), carry);
            self.after_operand(mode).set_flag(Flag::Carry, r.1).write(address, r.0).update_status(
                r.0,
            )
        }
    }
}

/// The effect of one instruction, with the program counter just past its opcode.
pub open spec fn execute(s: CpuState, i: Instruction) -> CpuState {
    let mode = i.mode;
    let v = s.operand(mode);
    let address = s.effective_address(mode);
    let after = s.after_operand(mode);
    match i.mnemonic {
        Mnemonic::ADC => s.add_with_carry(mode),
        Mnemonic::SBC => s.subtract_with_borrow(mode),
        Mnemonic::AND => CpuState { a: s.a & v, ..after.update_status(s.a & v) },
        Mnemonic::EOR => CpuState { a: s.a ^ v, ..after.update_status(s.a ^ v) },
        Mnemonic::ORA => CpuState { a: s.a | v, ..after.update_status(s.a | v) },
        Mnemonic::ASL | Mnemonic::LSR | Mnemonic::ROL | Mnemonic::ROR => s.shift(i.mnemonic, mode),
        Mnemonic::BIT => {
            let m = s.byte(address);
            after.set_flag(Flag::Zero, s.a & m == 0).set_flag(Flag::Negative, m >= 0x80).set_flag(
                Flag::Overflow,
                m & 0x40 != 0,
            )
        },
        Mnemonic::BPL => CpuState { pc: s.branch_target(!s.flag(Flag::Negative)), ..s },
        Mnemonic::BMI => CpuState { pc: s.branch_target(s.flag(Flag::Negative)), ..s },
        Mnemonic::BVC => CpuState { pc: s.branch_target(!s.flag(Flag::Overflow)), ..s },
        Mnemonic::BVS => CpuState { pc: s.branch_target(s.flag(Flag::Overflow)), ..s },
        Mnemonic::BCC => CpuState { pc: s.branch_target(!s.flag(Flag::Carry)), ..s },
        Mnemonic::BCS => CpuState { pc: s.branch_target(s.flag(Flag::Carry)), ..s },
        Mnemonic::BNE => CpuState { pc: s.branch_target(!s.flag(Flag::Zero)), ..s },
        Mnemonic::BEQ => CpuState { pc: s.branch_target(s.flag(Flag::Zero)), ..s },
        Mnemonic::BRK => s.set_flag(Flag::B, true).advance(1).interrupt_entry(),
        Mnemonic::CMP => after.compare(s.a, v),
        Mnemonic::CPX => after.compare(s.x, v),
        Mnemonic::CPY => after.compare(s.y, v),
        Mnemonic::DEC => {
            let r = s.byte(address).wrapping_sub(1);
            after.write(address, r).update_status(r)
        },
        Mnemonic::INC => {
            let r = s.byte(address).wrapping_add(1);
            after.write(address, r).update_status(r)
        },
        Mnemonic::CLC => s.set_flag(Flag::Carry, false),
        Mnemonic::SEC => s.set_flag(Flag::Carry, true),
        Mnemonic::CLI => s.set_flag(Flag::Interrupt, false),
        Mnemonic::SEI => s.set_flag(Flag::Interrupt, true),
        Mnemonic::CLV => s.set_flag(Flag::Overflow, false),
        Mnemonic::CLD => s.set_flag(Flag::Decimal, false),
        Mnemonic::SED => s.set_flag(Flag::Decimal, true),
        Mnemonic::JMP => CpuState { pc: address, ..s },
        Mnemonic::JSR => s.call(),
        Mnemonic::LDA => CpuState { a: v, ..after.update_status(v) },
        Mnemonic::LDX => CpuState { x: v, ..after.update_status(v) },
        Mnemonic::LDY => CpuState { y: v, ..after.update_status(v) },
        Mnemonic::NOP => if mode == AddressingMode::Implied {
            s
        } else {
            after
        },
        Mnemonic::TAX => CpuState { x: s.a, ..s.update_status(s.a) },
        Mnemonic::TXA => CpuState { a: s.x, ..s.update_status(s.x) },
        Mnemonic::TAY => CpuState { y: s.a, ..s.update_status(s.a) },
        Mnemonic::TYA => CpuState { a: s.y, ..s.update_status(s.y) },
        Mnemonic::DEX => CpuState { x: s.x.wrapping_sub(1), ..s.update_status(s.x.wrapping_sub(1)) },
        Mnemonic::INX => CpuState { x: s.x.wrapping_add(1), ..s.update_status(s.x.wrapping_add(1)) },
        Mnemonic::DEY => CpuState { y: s.y.wrapping_sub(1), ..s.update_status(s.y.wrapping_sub(1)) },
        Mnemonic::INY => CpuState { y: s.y.wrapping_add(1), ..s.update_status(s.y.wrapping_add(1)) },
        Mnemonic::RTI => s.return_from_interrupt(),
        Mnemonic::RTS => s.return_from_subroutine(),
        Mnemonic::STA => after.write(address, s.a),
        Mnemonic::STX => after.write(address, s.x),
        Mnemonic::STY => after.write(address, s.y),
        Mnemonic::TXS => CpuState { sp: s.x, ..s.update_status(s.x) },
        Mnemonic::TSX => CpuState { x: s.sp, ..s.update_status(s.sp) },
        Mnemonic::PHA => s.push(s.a),
        Mnemonic::PLA => CpuState { a: s.top(), ..s.pop().update_status(s.top()) },
        Mnemonic::PHP => s.push(s.status),
        Mnemonic::PLP => CpuState { status: s.top(), ..s.pop() },
        Mnemonic::XAA | Mnemonic::LAX => CpuState { running: false, ..s },
    }
}

/// Carries out the opcode `opcode`, with the program counter just past it: an opcode
/// that the table lacks halts the processor; any other adds its base cost to the cycle
/// count and takes effect.
pub open spec fn run_opcode(s: CpuState, opcode: u8) -> CpuState {
    match decode(opcode) {
        None => CpuState { running: false, ..s },
        Some(i) => execute(CpuState { cycles: (s.cycles + i.time) as nat, ..s }, i),
    }
}

/// One step: fetch the opcode at the program counter, move past it, carry it out.
pub open spec fn next(s: CpuState) -> CpuState {
    run_opcode(s.advance(1), s.byte(s.pc))
}

/// ASL on a byte: the shifted byte and the bit shifted out of the top.
fn shift_left(value: u8) -> (r: (u8, bool))
    ensures
        r == shifted(Mnemonic::ASL, value, false),
{
    ((value % 128) * 2, value >= 0x80)
}

/// LSR on a byte: the shifted byte and the bit shifted out of the bottom.
fn shift_right(value: u8) -> (r: (u8, bool))
    ensures
        r == shifted(Mnemonic::LSR, value, false),
{
    (value / 2, value % 2 == 1)
}

/// ROL on a byte: the carry comes in at the bottom, bit 7 goes out.
fn rotate_left(value: u8, carry: bool) -> (r: (u8, bool))
    ensures
        r == shifted(Mnemonic::ROL, value, carry),
{
    ((value % 128) * 2 + if carry {
        1
    } else {
        0
    }, value >= 0x80)
}

/// ROR on a byte: the carry comes in at the top, bit 0 goes out.
fn rotate_right(value: u8, carry: bool) -> (r: (u8, bool))
    ensures
        r == shifted(Mnemonic::ROR, value, carry),
{
    (value / 2 + if carry {
        0x80
    } else {
        0
    }, value % 2 == 1)
}

/// The shift or rotate `mnemonic` on a byte.
fn shift_byte(mnemonic: Mnemonic, value: u8, carry: bool) -> (r: (u8, bool))
    requires
        is_shift(mnemonic),
    ensures
        r == shifted(mnemonic, value, carry),
{
    match mnemonic {
        Mnemonic::ASL => shift_left(value),
        Mnemonic::LSR => shift_right(value),
        Mnemonic::ROL => rotate_left(value, carry),
        _ => rotate_right(value, carry),
    }
}

impl CPU {
    /// Adds the operand and the carry to the accumulator.
    fn adc(&mut self, mode: AddressingMode)
        requires
            is_value_mode(mode),
        ensures
            final(self)@ == old(self)@.add_with_carry(mode),
    {
        let augend = self.read_value(mode);
        let carry: u16 = if self.is_set(Flag::Carry) {
            1
        } else {
            0
        };
        let sum: u16 = self.a as u16 + augend as u16 + carry;
        let same_sign = (self.a < 0x80) == (augend < 0x80);
        self.set_flag(Flag::Overflow, same_sign && 0x80 <= sum && sum < 0x180);
        self.set_flag(Flag::Carry, sum > 0xff);
        let result = (sum % 256) as u8;
        self.update_status(result);
        self.a = result;
    }

    /// Subtracts the operand from the accumulator, the carry standing for bit 8 of the
    /// minuend.
    fn sbc(&mut self, mode: AddressingMode)
        requires
            is_value_mode(mode),
        ensures
            final(self)@ == old(self)@.subtract_with_borrow(mode),
    {
        let subtrahend = self.read_value(mode);
        let minuend: u16 = self.a as u16 + if self.is_set(Flag::Carry) {
            0x100
        } else {
            0
        };
        let different_sign = (self.a < 0x80) != (subtrahend < 0x80);
        let result = minuend.wrapping_sub(subtrahend as u16);
        self.set_flag(Flag::Overflow, different_sign && 0x80 <= result && result < 0x180);
        self.set_flag(Flag::Carry, result <= 0xff);
        let r = (result % 256) as u8;
        self.update_status(r);
        self.a = r;
    }

    /// Bitwise AND of the operand into the accumulator.
    fn and(&mut self, mode: AddressingMode)
        requires
            is_value_mode(mode),
        ensures
            final(self)@ == (CpuState {
                a: old(self)@.a & old(self)@.operand(mode),
                ..old(self)@.after_operand(mode).update_status(old(self)@.a & old(self)@.operand(mode))
            }),
    {
        let operand = self.read_value(mode);
        self.a = self.a & operand;
        self.update_status(self.a);
    }

    /// A shift or rotate of the accumulator, or of the byte at the effective address.
    fn shift(&mut self, mnemonic: Mnemonic, mode: AddressingMode)
        requires
            is_shift(mnemonic),
            mode == AddressingMode::Accumulator || is_address_mode(mode),
        ensures
            final(self)@ == old(self)@.shift(mnemonic, mode),
    {
        let carry = self.is_set(Flag::Carry);
        if let AddressingMode::Accumulator = mode {
            let (result, out) = shift_byte(mnemonic, self.a, carry);
            self.set_flag(Flag::Carry, out);
            self.update_status(result);
            self.a = result;
        } else {
            let address = self.read_address(mode);
            let (result, out) = shift_byte(mnemonic, self.memory[address as usize], carry);
            self.set_flag(Flag::Carry, out);
            self.memory[address as usize] = result;
            self.update_status(result);
        }
    }

    /// Carries out one decoded instruction, with the program counter just past its opcode.
    #[verifier::rlimit(40)]
    fn perform(&mut self, i: Instruction)
        requires
            well_formed(i),
        ensures
            final(self)@ == execute(old(self)@, i),
    {
        let mode = i.mode;
        match i.mnemonic {
            Mnemonic::ADC => self.adc(mode),
            Mnemonic::SBC => self.sbc(mode),
            Mnemonic::AND => self.and(mode),
            Mnemonic::EOR => {
                let value = self.read_value(mode);
                self.a = self.a ^ value;
                self.update_status(self.a);
            },
            Mnemonic::ORA => {
                let value = self.read_value(mode);
                self.a = self.a | value;
                self.update_status(self.a);
            },
            Mnemonic::ASL | Mnemonic::LSR | Mnemonic::ROL | Mnemonic::ROR => {
                self.shift(i.mnemonic, mode)
            },
            Mnemonic::BIT => {
                // Zero as if the accumulator and the operand were ANDed; Negative and
                // Overflow copy bits 7 and 6 of the operand.
                let address = self.read_address(mode);
                let m = self.memory[address as usize];
                self.set_flag(Flag::Zero, (self.a & m) == 0);
                self.set_flag(Flag::Negative, m >= 0x80);
                self.set_flag(Flag::Overflow, (m & 0x40) != 0);
            },
            Mnemonic::BPL => {
                let taken = !self.is_set(Flag::Negative);
                self.branch(taken)
            },
            Mnemonic::BMI => {
                let taken = self.is_set(Flag::Negative);
                self.branch(taken)
            },
            Mnemonic::BVC => {
                let taken = !self.is_set(Flag::Overflow);
                self.branch(taken)
            },
            Mnemonic::BVS => {
                let taken = self.is_set(Flag::Overflow);
                self.branch(taken)
            },
            Mnemonic::BCC => {
                let taken = !self.is_set(Flag::Carry);
                self.branch(taken)
            },
            Mnemonic::BCS => {
                let taken = self.is_set(Flag::Carry);
                self.branch(taken)
            },
            Mnemonic::BNE => {
                let taken = !self.is_set(Flag::Zero);
                self.branch(taken)
            },
            Mnemonic::BEQ => {
                let taken = self.is_set(Flag::Zero);
                self.branch(taken)
            },
            Mnemonic::BRK => {
                // BRK is two bytes long: the opcode and a padding byte.
                self.set_flag(Flag::B, true);
                self.pc = self.pc.wrapping_add(1);
                self.interrupt();
            },
            Mnemonic::CMP => {
                let rhs = self.read_value(mode);
                self.compare(self.a, rhs);
            },
            Mnemonic::CPX => {
                let rhs = self.read_value(mode);
                self.compare(self.x, rhs);
            },
            Mnemonic::CPY => {
                let rhs = self.read_value(mode);
                self.compare(self.y, rhs);
            },
            Mnemonic::DEC => {
                let address = self.read_address(mode);
                let r = self.memory[address as usize].wrapping_sub(1);
                self.memory[address as usize] = r;
                self.update_status(r);
            },
            Mnemonic::INC => {
                let address = self.read_address(mode);
                let r = self.memory[address as usize].wrapping_add(1);
                self.memory[address as usize] = r;
                self.update_status(r);
            },
            Mnemonic::CLC => self.set_flag(Flag::Carry, false),
            Mnemonic::SEC => self.set_flag(Flag::Carry, true),
            Mnemonic::CLI => self.set_flag(Flag::Interrupt, false),
            Mnemonic::SEI => self.set_flag(Flag::Interrupt, true),
            Mnemonic::CLV => self.set_flag(Flag::Overflow, false),
            Mnemonic::CLD => self.set_flag(Flag::Decimal, false),
            Mnemonic::SED => self.set_flag(Flag::Decimal, true),
            Mnemonic::JMP => {
                if let AddressingMode::Absolute = mode {
                    self.pc = self.read_absolute_address();
                } else {
                    self.pc = self.read_indirect_address();
                }
            },
            Mnemonic::JSR => self.jsr(),
            Mnemonic::LDA => {
                self.a = self.read_value(mode);
                self.update_status(self.a);
            },
            Mnemonic::LDX => {
                self.x = self.read_value(mode);
                self.update_status(self.x);
            },
            Mnemonic::LDY => {
                self.y = self.read_value(mode);
                self.update_status(self.y);
            },
            Mnemonic::NOP => {
                // Some forms carry an operand, which is read and dropped.
                if let AddressingMode::Implied = mode {
                } else {
                    self.read_value(mode);
                }
            },
            Mnemonic::TAX => {
                self.x = self.a;
                self.update_status(self.x);
            },
            Mnemonic::TXA => {
                self.a = self.x;
                self.update_status(self.a);
            },
            Mnemonic::TAY => {
                self.y = self.a;
                self.update_status(self.y);
            },
            Mnemonic::TYA => {
                self.a = self.y;
                self.update_status(self.a);
            },
            Mnemonic::DEX => {
                self.x = self.x.wrapping_sub(1);
                self.update_status(self.x);
            },
            Mnemonic::INX => {
                self.x = self.x.wrapping_add(1);
                self.update_status(self.x);
            },
            Mnemonic::DEY => {
                self.y = self.y.wrapping_sub(1);
                self.update_status(self.y);
            },
            Mnemonic::INY => {
                self.y = self.y.wrapping_add(1);
                self.update_status(self.y);
            },
            Mnemonic::RTI => self.ret(false),
            Mnemonic::RTS => self.ret(true),
            Mnemonic::STA => self.store(self.a, mode),
            Mnemonic::STX => self.store(self.x, mode),
            Mnemonic::STY => self.store(self.y, mode),
            Mnemonic::TXS => {
                self.sp = self.x;
                self.update_status(self.sp);
            },
            Mnemonic::TSX => {
                self.x = self.sp;
                self.update_status(self.x);
            },
            Mnemonic::PHA => self.push(self.a),
            Mnemonic::PLA => {
                self.a = self.pop();
                self.update_status(self.a);
            },
            Mnemonic::PHP => self.push(self.status),
            Mnemonic::PLP => {
                self.status = self.pop();
            },
            Mnemonic::XAA | Mnemonic::LAX => {
                // Unstable on real hardware: not emulated, the processor halts.
                self.running = false;
            },
        }
    }

    /// Looks `opcode` up and carries it out; an opcode with no table entry halts the
    /// processor.
    fn execute_instruction(&mut self, opcode: u8)
        requires
            old(self)@.cycles + MAX_INSTRUCTION_TIME <= u64::MAX,
        ensures
            final(self)@ == run_opcode(old(self)@, opcode),
    {
        match lookup(opcode) {
            None => {
                self.running = false;
            },
            Some(i) => {
                self.cycles = self.cycles + i.time as u64;
                self.perform(i);
            },
        }
    }

    /// Executes one instruction: fetches the opcode at the program counter, moves past it
    /// and carries it out, adding its base cost to the cycle count. An opcode that the
    /// table lacks, or an unstable undocumented one, halts the processor instead.
    pub fn step(&mut self)
        requires
            old(self)@.cycles + MAX_INSTRUCTION_TIME <= u64::MAX,
        ensures
            final(self)@ == next(old(self)@),
    {
        let opcode = self.memory[self.pc as usize];
        self.pc = self.pc.wrapping_add(1);
        self.execute_instruction(opcode);
    }
}

} // verus!
