//! The processor's state as mathematics: registers, flags, memory, and the rules by which
//! operands are found and the stack is used.

use vstd::prelude::*;

use crate::instruction::AddressingMode;

verus! {

/// Number of addressable bytes.
pub const MEMORY_SIZE: usize = 0x10000;

/// The stack lives in page one, `0x0100` to `0x01FF`.
pub const STACK_BASE: u16 = 0x0100;

/// The three vectors at the top of memory, each a little-endian address: the
/// non-maskable interrupt handler, the reset routine and the interrupt-request handler.
pub const NMI_VECTOR: u16 = 0xfffa;
pub const RESET_VECTOR: u16 = 0xfffc;
pub const IRQ_VECTOR: u16 = 0xfffe;

/// The individually addressable bits of the status register.
#[derive(Debug, Clone, Copy, PartialEq, Eq, Structural)]
pub enum Flag {
    Negative,
    Overflow,
    B,
    Decimal,
    Interrupt,
    Zero,
    Carry,
}

/// The bit of the status register that holds a flag.
pub open spec fn flag_mask(f: Flag) -> u8 {
    match f {
        Flag::Negative => 0x80,
        Flag::Overflow => 0x40,
        Flag::B => 0x10,
        Flag::Decimal => 0x08,
        Flag::Interrupt => 0x04,
        Flag::Zero => 0x02,
        Flag::Carry => 0x01,
    }
}

/// Whether `f` is set in `status`.
pub open spec fn has_flag(status: u8, f: Flag) -> bool {
    status & flag_mask(f) != 0
}

/// `status` with the bit of `f` set to `v` and every other bit kept.
pub open spec fn with_flag(status: u8, f: Flag, v: bool) -> u8 {
    (status & !flag_mask(f)) | (if v { flag_mask(f) } else { 0u8 })
}

/// `status` after a result `value`: Zero iff it is zero, Negative iff its top bit is set.
pub open spec fn with_nz(status: u8, value: u8) -> u8 {
    with_flag(with_flag(status, Flag::Zero, value == 0), Flag::Negative, value >= 0x80)
}

/// The address formed by a little-endian pair of bytes.
pub open spec fn le16(lo: u8, hi: u8) -> u16 {
    (hi * 256 + lo) as u16
}

/// Low and high byte of an address.
pub open spec fn lo_byte(w: u16) -> u8 {
    (w % 256) as u8
}

pub open spec fn hi_byte(w: u16) -> u8 {
    (w / 256) as u8
}

/// The stack address that a stack pointer designates.
pub open spec fn stack_address(sp: u8) -> u16 {
    (STACK_BASE + sp) as u16
}

/// The two's-complement value of a byte.
pub open spec fn as_signed(b: u8) -> int {
    if b < 0x80 { b as int } else { b - 256 }
}

/// Number of operand bytes that follow the opcode in each mode.
pub open spec fn operand_length(mode: AddressingMode) -> u16 {
    match mode {
        AddressingMode::Absolute | AddressingMode::AbsoluteX | AddressingMode::AbsoluteY
        | AddressingMode::Indirect => 2,
        AddressingMode::Implied | AddressingMode::Accumulator => 0,
        _ => 1,
    }
}

/// The whole processor: registers, cycle counter, run state and the flat address space.
pub struct CpuState {
    pub cycles: nat,
    pub running: bool,
    pub status: u8,
    pub pc: u16,
    pub sp: u8,
    pub a: u8,
    pub x: u8,
    pub y: u8,
    pub memory: Seq<u8>,
}

impl CpuState {
    /// The address space holds exactly 65536 bytes.
    pub open spec fn valid(self) -> bool {
        self.memory.len() == MEMORY_SIZE
    }

    pub open spec fn byte(self, addr: u16) -> u8 {
        self.memory[addr as int]
    }

    /// The address stored little-endian at `lo_addr` and `hi_addr`.
    pub open spec fn word(self, lo_addr: u16, hi_addr: u16) -> u16 {
        le16(self.byte(lo_addr), self.byte(hi_addr))
    }

    pub open spec fn flag(self, f: Flag) -> bool {
        has_flag(self.status, f)
    }

    pub open spec fn write(self, addr: u16, v: u8) -> CpuState {
        CpuState { memory: self.memory.update(addr as int, v), ..self }
    }

    pub open spec fn set_flag(self, f: Flag, v: bool) -> CpuState {
        CpuState { status: with_flag(self.status, f, v), ..self }
    }

    pub open spec fn update_status(self, value: u8) -> CpuState {
        CpuState { status: with_nz(self.status, value), ..self }
    }

    pub open spec fn advance(self, n: u16) -> CpuState {
        CpuState { pc: self.pc.wrapping_add(n), ..self }
    }

    /// The state once the operand bytes of `mode` have been consumed.
    pub open spec fn after_operand(self, mode: AddressingMode) -> CpuState {
        self.advance(operand_length(mode))
    }

    /// The effective address of the operand, with the program counter at the first
    /// operand byte. Modes without one (immediate, implied, relative, accumulator) give 0;
    /// the engine never asks for it there.
    pub open spec fn effective_address(self, mode: AddressingMode) -> u16 {
        let op = self.byte(self.pc);
        let next = self.byte(self.pc.wrapping_add(1));
        match mode {
            AddressingMode::Zero => op as u16,
            AddressingMode::ZeroX => op.wrapping_add(self.x) as u16,
            AddressingMode::ZeroY => op.wrapping_add(self.y) as u16,
            AddressingMode::Absolute => le16(op, next),
            AddressingMode::AbsoluteX => le16(op, next).wrapping_add(self.x as u16),
            AddressingMode::AbsoluteY => le16(op, next).wrapping_add(self.y as u16),
            // The pointer's high byte is never carried into: a pointer at the end of a
            // page takes its high byte from the start of the same page.
            AddressingMode::Indirect => self.word(le16(op, next), le16(op.wrapping_add(1), next)),
            AddressingMode::IndirectX => {
                let p = op.wrapping_add(self.x);
                self.word(p as u16, p.wrapping_add(1) as u16)
            },
            AddressingMode::IndirectY => self.word(op as u16, op.wrapping_add(1) as u16).wrapping_add(
                self.y as u16,
            ),
            _ => 0,
        }
    }

    /// The operand byte: inline for the immediate mode, else at the effective address.
    pub open spec fn operand(self, mode: AddressingMode) -> u8 {
        if mode == AddressingMode::Immediate {
            self.byte(self.pc)
        } else {
            self.byte(self.effective_address(mode))
        }
    }

    /// Writes `v` at the stack pointer, then moves the pointer down, wrapping in the page.
    pub open spec fn push(self, v: u8) -> CpuState {
        CpuState {
            memory: self.memory.update(stack_address(self.sp) as int, v),
            sp: self.sp.wrapping_sub(1),
            ..self
        }
    }

    /// The byte that a pop returns: the one above the stack pointer.
    pub open spec fn top(self) -> u8 {
        self.byte(stack_address(self.sp.wrapping_add(1)))
    }

    /// The state after a pop: the pointer moves up, wrapping in the page.
    pub open spec fn pop(self) -> CpuState {
        CpuState { sp: self.sp.wrapping_add(1), ..self }
    }
    /// The power-on state: every register, flag and byte zero, not running.
    pub open spec fn zeroed() -> CpuState {
        CpuState {
            cycles: 0,
            running: false,
            status: 0,
            pc: 0,
            sp: 0,
            a: 0,
            x: 0,
            y: 0,
            memory: Seq::new(MEMORY_SIZE as nat, |i: int| 0u8),
        }
    }

    /// Reset: the program counter from the reset vector, the stack pointer at `0xFF`,
    /// running.
    pub open spec fn reset(self) -> CpuState {
        CpuState {
            pc: self.word(RESET_VECTOR, (RESET_VECTOR + 1) as u16),
            sp: 0xff,
            running: true,
            ..self
        }
    }

    /// `program` written at `base` onward, everything else kept.
    pub open spec fn load(self, base: u16, program: Seq<u8>) -> CpuState {
        CpuState {
            memory: Seq::new(
                self.memory.len(),
                |i: int|
                    if base <= i < base + program.len() {
                        program[i - base]
                    } else {
                        self.memory[i]
                    },
            ),
            ..self
        }
    }

    /// Interrupt entry: pushes the program counter, high byte first, then the status
    /// register, sets Interrupt-disable and continues at the address in the IRQ vector.
    pub open spec fn interrupt_entry(self) -> CpuState {
        let s = self.push(hi_byte(self.pc)).push(lo_byte(self.pc)).push(self.status);
        CpuState {
            pc: s.word(IRQ_VECTOR, (IRQ_VECTOR + 1) as u16),
            ..s.set_flag(Flag::Interrupt, true)
        }
    }

    /// Subroutine call, with the program counter at the two-byte target: pushes the address
    /// of the call's last byte, high byte first, and continues at the target.
    pub open spec fn call(self) -> CpuState {
        let target = self.effective_address(AddressingMode::Absolute);
        let ret = self.pc.wrapping_add(2).wrapping_sub(1);
        CpuState { pc: target, ..self.advance(2).push(hi_byte(ret)).push(lo_byte(ret)) }
    }

    /// Return from a subroutine: pops the low then the high byte and continues one past
    /// that address.
    pub open spec fn return_from_subroutine(self) -> CpuState {
        let lo = self.top();
        let hi = self.pop().top();
        CpuState { pc: le16(lo, hi).wrapping_add(1), ..self.pop().pop() }
    }

    /// Return from an interrupt: pops the status register, then the low and the high byte
    /// of the address to continue at, with no adjustment.
    pub open spec fn return_from_interrupt(self) -> CpuState {
        let s = CpuState { status: self.top(), ..self.pop() };
        let lo = s.top();
        let hi = s.pop().top();
        CpuState { pc: le16(lo, hi), ..s.pop().pop() }
    }

    /// Comparison of a register with an operand: Zero iff equal, Carry iff the register is
    /// not below the operand, Negative from the register's top bit.
    pub open spec fn compare(self, left: u8, right: u8) -> CpuState {
        self.set_flag(Flag::Zero, left == right).set_flag(Flag::Carry, left >= right).set_flag(
            Flag::Negative,
            left >= 0x80,
        )
    }

    /// Where a relative branch leaves the program counter, which is at the offset byte.
    pub open spec fn branch_target(self, taken: bool) -> u16 {
        let next = self.pc.wrapping_add(1);
        if taken {
            ((next + as_signed(self.byte(self.pc))) % 0x10000) as u16
        } else {
            next
        }
    }
}

} // verus!
