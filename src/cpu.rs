//! The processor: registers, memory, flag rules, operand resolution, stack and control
//! transfer, and the stepping interface.

use vstd::prelude::*;

use crate::instruction::{is_address_mode, is_value_mode, AddressingMode};
use crate::state::{
    flag_mask, has_flag, hi_byte, le16, lo_byte, CpuState, Flag, IRQ_VECTOR, MEMORY_SIZE,
    RESET_VECTOR, STACK_BASE,
};

verus! {

/// Clock rate of the NTSC console, in cycles per second.
pub const NTSC_SPEED: u32 = 1790000;

/// Clock rate of the PAL console, in cycles per second.
pub const PAL_SPEED: u32 = 1660000;

/// The processor with its flat 64 KiB address space.
pub struct CPU {
    pub(crate) cycles: u64,
    pub(crate) running: bool,
    pub(crate) status: u8,
    pub(crate) pc: u16,
    pub(crate) sp: u8,
    pub(crate) a: u8,
    pub(crate) x: u8,
    pub(crate) y: u8,
    pub(crate) memory: [u8; 65536],
}

impl View for CPU {
    type V = CpuState;

    open(crate) spec fn view(&self) -> CpuState {
        CpuState {
            cycles: self.cycles as nat,
            running: self.running,
            status: self.status,
            pc: self.pc,
            sp: self.sp,
            a: self.a,
            x: self.x,
            y: self.y,
            memory: self.memory@,
        }
    }
}

/// The bit of the status register that holds `f`.
fn get_flag_constant(f: Flag) -> (r: u8)
    ensures
        r == flag_mask(f),
{
    match f {
        Flag::Negative => 0x80,
        Flag::Overflow => 0x40,
        Flag::B => 0x10,
        Flag::Decimal => 0x08,
        Flag::Interrupt => 0x04,
        Flag::Zero => 0x02,
        Flag::Carry => 0x01,
    }
}

/// The address formed by a little-endian pair of bytes.
fn join(lo: u8, hi: u8) -> (r: u16)
    ensures
        r == le16(lo, hi),
{
    (hi as u16) * 256 + lo as u16
}

impl CPU {
    /// Sets the flag `f` to `v`, leaving the other bits of the status register alone.
    pub fn set_flag(&mut self, f: Flag, v: bool)
        ensures
            final(self)@ == old(self)@.set_flag(f, v),
    {
        let mask = get_flag_constant(f);
        self.status = (self.status & !mask) | if v {
            mask
        } else {
            0
        };
    }

    /// Whether the flag `f` is set.
    pub fn is_set(&self, f: Flag) -> (r: bool)
        ensures
            r == has_flag(self@.status, f),
    {
        let mask = get_flag_constant(f);
        (self.status & mask) != 0
    }

    /// Sets Zero iff `value` is zero and Negative iff its top bit is set; no other effect.
    pub fn update_status(&mut self, value: u8)
        ensures
            final(self)@ == old(self)@.update_status(value),
    {
        self.set_flag(Flag::Zero, value == 0);
        self.set_flag(Flag::Negative, value >= 0x80);
    }

    /// The zero-page address of the operand, with the index register of the mode added
    /// within page zero.
    pub(crate) fn read_zp_address(&mut self, mode: AddressingMode) -> (r: u16)
        requires
            mode == AddressingMode::Zero || mode == AddressingMode::ZeroX || mode
                == AddressingMode::ZeroY,
        ensures
            r == old(self)@.effective_address(mode),
            final(self)@ == old(self)@.after_operand(mode),
    {
        let index = match mode {
            AddressingMode::ZeroX => self.x,
            AddressingMode::ZeroY => self.y,
            _ => 0,
        };
        let address = self.memory[self.pc as usize].wrapping_add(index);
        self.pc = self.pc.wrapping_add(1);
        address as u16
    }

    /// The two-byte address at the program counter, which moves past it.
    pub(crate) fn read_absolute_address(&mut self) -> (r: u16)
        ensures
            r == old(self)@.effective_address(AddressingMode::Absolute),
            final(self)@ == old(self)@.advance(2),
    {
        let lo = self.memory[self.pc as usize];
        let hi = self.memory[self.pc.wrapping_add(1) as usize];
        self.pc = self.pc.wrapping_add(2);
        join(lo, hi)
    }

    /// The address stored at the two-byte pointer that follows the opcode. A pointer at the
    /// last byte of a page takes its high byte from the first byte of that same page, as the
    /// hardware does: `($02FF)` reads `0x02FF` and `0x0200`.
    pub(crate) fn read_indirect_address(&mut self) -> (r: u16)
        ensures
            r == old(self)@.effective_address(AddressingMode::Indirect),
            final(self)@ == old(self)@.after_operand(AddressingMode::Indirect),
    {
        let ptr_lo = self.memory[self.pc as usize];
        let ptr_hi = self.memory[self.pc.wrapping_add(1) as usize];
        let lo = self.memory[join(ptr_lo, ptr_hi) as usize];
        let hi = self.memory[join(ptr_lo.wrapping_add(1), ptr_hi) as usize];
        self.pc = self.pc.wrapping_add(2);
        join(lo, hi)
    }

    /// `(zp),Y`: the address stored in page zero at the operand byte, plus Y.
    pub(crate) fn read_indirect_indexed_address(&mut self) -> (r: u16)
        ensures
            r == old(self)@.effective_address(AddressingMode::IndirectY),
            final(self)@ == old(self)@.after_operand(AddressingMode::IndirectY),
    {
        let zp = self.memory[self.pc as usize];
        let lo = self.memory[zp as usize];
        let hi = self.memory[zp.wrapping_add(1) as usize];
        self.pc = self.pc.wrapping_add(1);
        join(lo, hi).wrapping_add(self.y as u16)
    }

    /// `(zp,X)`: the address stored in page zero at the operand byte plus X.
    pub(crate) fn read_indexed_indirect_address(&mut self) -> (r: u16)
        ensures
            r == old(self)@.effective_address(AddressingMode::IndirectX),
            final(self)@ == old(self)@.after_operand(AddressingMode::IndirectX),
    {
        let zp = self.memory[self.pc as usize].wrapping_add(self.x);
        let lo = self.memory[zp as usize];
        let hi = self.memory[zp.wrapping_add(1) as usize];
        self.pc = self.pc.wrapping_add(1);
        join(lo, hi)
    }

    /// Resolves the effective address of a mode that has one, consuming its operand bytes.
    pub(crate) fn read_address(&mut self, mode: AddressingMode) -> (r: u16)
        requires
            is_address_mode(mode),
        ensures
            r == old(self)@.effective_address(mode),
            final(self)@ == old(self)@.after_operand(mode),
    {
        match mode {
            AddressingMode::Zero | AddressingMode::ZeroX | AddressingMode::ZeroY => {
                self.read_zp_address(mode)
            },
            AddressingMode::Absolute => self.read_absolute_address(),
            AddressingMode::AbsoluteX => self.read_absolute_address().wrapping_add(self.x as u16),
            AddressingMode::AbsoluteY => self.read_absolute_address().wrapping_add(self.y as u16),
            AddressingMode::Indirect => self.read_indirect_address(),
            AddressingMode::IndirectX => self.read_indexed_indirect_address(),
            _ => self.read_indirect_indexed_address(),
        }
    }

    /// Fetches the operand byte of a mode that has one, consuming its operand bytes.
    pub(crate) fn read_value(&mut self, mode: AddressingMode) -> (r: u8)
        requires
            is_value_mode(mode),
        ensures
            r == old(self)@.operand(mode),
            final(self)@ == old(self)@.after_operand(mode),
    {
        if let AddressingMode::Immediate = mode {
            let value = self.memory[self.pc as usize];
            self.pc = self.pc.wrapping_add(1);
            value
        } else {
            let address = self.read_address(mode);
            self.memory[address as usize]
        }
    }

    /// Stores `value` at the effective address of `mode`. Affects no flags.
    pub(crate) fn store(&mut self, value: u8, mode: AddressingMode)
        requires
            is_address_mode(mode),
        ensures
            final(self)@ == old(self)@.after_operand(mode).write(
                old(self)@.effective_address(mode),
                value,
            ),
    {
        let address = self.read_address(mode);
        self.memory[address as usize] = value;
    }

    /// Pushes `value`: writes it at the stack pointer, then moves the pointer down. The
    /// pointer wraps within the stack page; there is no overflow detection.
    pub fn push(&mut self, value: u8)
        ensures
            final(self)@ == old(self)@.push(value),
    {
        let address: u16 = STACK_BASE + self.sp as u16;
        self.memory[address as usize] = value;
        self.sp = self.sp.wrapping_sub(1);
    }

    /// Pops a value: moves the stack pointer up, then reads. The pointer wraps within the
    /// stack page; there is no underflow detection.
    pub fn pop(&mut self) -> (r: u8)
        ensures
            r == old(self)@.top(),
            final(self)@ == old(self)@.pop(),
    {
        self.sp = self.sp.wrapping_add(1);
        let address: u16 = STACK_BASE + self.sp as u16;
        self.memory[address as usize]
    }

    /// Interrupt entry: pushes the program counter and the status register, sets
    /// Interrupt-disable and jumps through the IRQ vector.
    pub(crate) fn interrupt(&mut self)
        ensures
            final(self)@ == old(self)@.interrupt_entry(),
    {
        self.push((self.pc / 256) as u8);
        self.push((self.pc % 256) as u8);
        self.push(self.status);
        self.set_flag(Flag::Interrupt, true);
        let lo = self.memory[IRQ_VECTOR as usize];
        let hi = self.memory[IRQ_VECTOR as usize + 1];
        self.pc = join(lo, hi);
    }

    /// Transfers control to the subroutine whose address follows the opcode, pushing the
    /// return address less one, high byte first.
    pub(crate) fn jsr(&mut self)
        ensures
            final(self)@ == old(self)@.call(),
    {
        let target = self.read_absolute_address();
        let return_address = self.pc.wrapping_sub(1);
        self.push((return_address / 256) as u8);
        self.push((return_address % 256) as u8);
        self.pc = target;
    }

    /// Returns from a subroutine (`is_subroutine`: to the popped address plus one) or from an
    /// interrupt (status first, then to the popped address itself).
    pub(crate) fn ret(&mut self, is_subroutine: bool)
        ensures
            final(self)@ == if is_subroutine {
                old(self)@.return_from_subroutine()
            } else {
                old(self)@.return_from_interrupt()
            },
    {
        if !is_subroutine {
            self.status = self.pop();
        }
        let lsb = self.pop();
        let msb = self.pop();
        let address = join(lsb, msb);
        self.pc = if is_subroutine {
            address.wrapping_add(1)
        } else {
            address
        };
    }

    /// Sets the flags from a comparison of `left` with `right`.
    pub(crate) fn compare(&mut self, left: u8, right: u8)
        ensures
            final(self)@ == old(self)@.compare(left, right),
    {
        self.set_flag(Flag::Zero, left == right);
        self.set_flag(Flag::Carry, left >= right);
        self.set_flag(Flag::Negative, left >= 0x80);
    }

    /// Consumes the offset byte and, if `condition` holds, adds it as a signed number to
    /// the program counter, wrapping.
    pub(crate) fn branch(&mut self, condition: bool)
        ensures
            final(self)@ == (CpuState { pc: old(self)@.branch_target(condition), ..old(self)@ }),
    {
        let offset = self.memory[self.pc as usize];
        self.pc = self.pc.wrapping_add(1);
        if condition {
            if offset < 0x80 {
                self.pc = self.pc.wrapping_add(offset as u16);
            } else {
                self.pc = self.pc.wrapping_sub(256 - offset as u16);
            }
        }
    }
}

impl Default for CPU {
    /// The power-on state: everything zero, not running.
    fn default() -> (r: CPU)
        ensures
            r@ == CpuState::zeroed(),
    {
        let r = CPU {
            cycles: 0,
            running: false,
            status: 0,
            pc: 0,
            sp: 0,
            a: 0,
            x: 0,
            y: 0,
            memory: [0u8; 65536],
        };
        assert(r@.memory =~= CpuState::zeroed().memory);
        r
    }
}

impl CPU {
    /// Every processor's model has the full address space.
    pub proof fn lemma_valid(&self)
        ensures
            self@.valid(),
    {
    }

    /// Whether the processor is executing code.
    pub fn is_running(&self) -> (r: bool)
        ensures
            r == self@.running,
    {
        self.running
    }

    /// The number of cycles that have passed since the count was last reset.
    pub fn cycle_count(&self) -> (r: u64)
        ensures
            r == self@.cycles,
    {
        self.cycles
    }

    /// Sets the cycle count back to zero, for the driver that paces execution.
    pub fn reset_cycle_count(&mut self)
        ensures
            final(self)@ == (CpuState { cycles: 0, ..old(self)@ }),
    {
        self.cycles = 0;
    }

    /// Writes `value` little-endian at `vector` and the byte after it.
    pub fn load_vector(&mut self, vector: u16, value: u16)
        ensures
            final(self)@ == old(self)@.write(vector, lo_byte(value)).write(
                vector.wrapping_add(1),
                hi_byte(value),
            ),
    {
        self.memory[vector as usize] = (value % 256) as u8;
        self.memory[vector.wrapping_add(1) as usize] = (value / 256) as u8;
    }

    /// Copies `program` into memory from `base` onward.
    pub fn load_program(&mut self, base: u16, program: &[u8])
        requires
            base + program@.len() <= MEMORY_SIZE,
        ensures
            final(self)@ == old(self)@.load(base, program@),
    {
        let mut i: usize = 0;
        while i < program.len()
            invariant
                base + program@.len() <= MEMORY_SIZE,
                0 <= i <= program@.len(),
                self@ == (CpuState { memory: self@.memory, ..old(self)@ }),
                self@.memory.len() == MEMORY_SIZE,
                forall|k: int|
                    0 <= k < MEMORY_SIZE ==> #[trigger] self@.memory[k] == if base <= k < base
                        + i {
                        program@[k - base]
                    } else {
                        old(self)@.memory[k]
                    },
            decreases program@.len() - i,
        {
            self.memory[base as usize + i] = program[i];
            i = i + 1;
        }
        assert(self@.memory =~= old(self)@.load(base, program@).memory);
    }

    /// Resets the processor: the program counter from the reset vector, the stack pointer
    /// at `0xFF`, running.
    pub fn reset(&mut self)
        ensures
            final(self)@ == old(self)@.reset(),
    {
        self.pc = RESET_VECTOR;
        let start_address = self.read_absolute_address();
        self.pc = start_address;
        self.running = true;
        self.sp = 0xff;
    }

    /// The byte at `address`.
    pub fn read_memory(&self, address: u16) -> (r: u8)
        ensures
            r == self@.byte(address),
    {
        self.memory[address as usize]
    }

    /// Writes `value` at `address`.
    pub fn write_memory(&mut self, address: u16, value: u8)
        ensures
            final(self)@ == old(self)@.write(address, value),
    {
        self.memory[address as usize] = value;
    }

    pub fn accumulator(&self) -> (r: u8)
        ensures
            r == self@.a,
    {
        self.a
    }

    pub fn index_x(&self) -> (r: u8)
        ensures
            r == self@.x,
    {
        self.x
    }

    pub fn index_y(&self) -> (r: u8)
        ensures
            r == self@.y,
    {
        self.y
    }

    pub fn program_counter(&self) -> (r: u16)
        ensures
            r == self@.pc,
    {
        self.pc
    }

    pub fn stack_pointer(&self) -> (r: u8)
        ensures
            r == self@.sp,
    {
        self.sp
    }

    /// The status register as one byte: N V - B D I Z C from the top bit down.
    pub fn status(&self) -> (r: u8)
        ensures
            r == self@.status,
    {
        self.status
    }
}

} // verus!
