//! Properties of the processor that relate several operations or hold for every input,
//! proved over the model that the operations' contracts are stated in.

use vstd::prelude::*;

use crate::engine::next;
use crate::instruction::AddressingMode;
use crate::state::{
    as_signed, flag_mask, has_flag, hi_byte, le16, lo_byte, stack_address, with_flag, with_nz, CpuState,
    Flag,
};

verus! {

proof fn lemma_single_bit_update(s: u8, m: u8, k: u8)
    by (bit_vector)
    requires
        m == 1 || m == 2 || m == 4 || m == 8 || m == 16 || m == 32 || m == 64 || m == 128,
        k == 1 || k == 2 || k == 4 || k == 8 || k == 16 || k == 32 || k == 64 || k == 128,
    ensures
        ((s & !m) | m) & k != 0 <==> (m == k || s & k != 0),
        ((s & !m) | 0) & k != 0 <==> (m != k && s & k != 0),
{
}

/// Setting one flag leaves every other flag as it was.
pub proof fn lemma_with_flag(status: u8, f: Flag, v: bool, g: Flag)
    ensures
        has_flag(with_flag(status, f, v), g) == if f == g {
            v
        } else {
            has_flag(status, g)
        },
{
    lemma_single_bit_update(status, flag_mask(f), flag_mask(g));
}

/// After the status update for a value `v`, Zero is set iff `v` is zero and Negative iff
/// `v >= 0x80`; the two are never set together, and every other flag is unchanged.
pub proof fn lemma_update_status(status: u8, v: u8)
    ensures
        has_flag(with_nz(status, v), Flag::Zero) == (v == 0),
        has_flag(with_nz(status, v), Flag::Negative) == (v >= 0x80),
        !(has_flag(with_nz(status, v), Flag::Zero) && has_flag(with_nz(status, v), Flag::Negative)),
        forall|g: Flag|
            g != Flag::Zero && g != Flag::Negative ==> #[trigger] has_flag(with_nz(status, v), g)
                == has_flag(status, g),
{
    let z = with_flag(status, Flag::Zero, v == 0);
    lemma_with_flag(status, Flag::Zero, v == 0, Flag::Zero);
    lemma_with_flag(z, Flag::Negative, v >= 0x80, Flag::Zero);
    lemma_with_flag(z, Flag::Negative, v >= 0x80, Flag::Negative);
    assert forall|g: Flag| g != Flag::Zero && g != Flag::Negative implies #[trigger] has_flag(
        with_nz(status, v),
        g,
    ) == has_flag(status, g) by {
        lemma_with_flag(status, Flag::Zero, v == 0, g);
        lemma_with_flag(z, Flag::Negative, v >= 0x80, g);
    }
}

/// ADC sets Carry iff the unsigned sum `a + operand + carry` exceeds `0xFF`, and Overflow
/// iff the signed sum leaves `-128..=127`; so operands of different sign never overflow.
pub proof fn lemma_adc_flags(s: CpuState, mode: AddressingMode)
    ensures
        ({
            let c: int = if s.flag(Flag::Carry) { 1 } else { 0 };
            let r = s.add_with_carry(mode);
            &&& r.flag(Flag::Carry) == (s.a + s.operand(mode) + c > 0xff)
            &&& r.flag(Flag::Overflow) == !(-128 <= as_signed(s.a) + as_signed(s.operand(mode)) + c
                <= 127)
            &&& (s.a < 0x80) != (s.operand(mode) < 0x80) ==> !r.flag(Flag::Overflow)
        }),
{
    let v = s.operand(mode);
    let c: int = if s.flag(Flag::Carry) { 1 } else { 0 };
    let sum = s.a + v + c;
    let overflow = (s.a < 0x80) == (v < 0x80) && 0x80 <= sum < 0x180;
    let st1 = with_flag(s.status, Flag::Overflow, overflow);
    let st2 = with_flag(st1, Flag::Carry, sum > 0xff);
    lemma_with_flag(st1, Flag::Carry, sum > 0xff, Flag::Carry);
    lemma_with_flag(st1, Flag::Carry, sum > 0xff, Flag::Overflow);
    lemma_with_flag(s.status, Flag::Overflow, overflow, Flag::Overflow);
    lemma_update_status(st2, (sum % 256) as u8);
}

/// `JMP (ptr)` with a pointer at the last byte of a page takes the target's high byte from
/// the first byte of that same page: `JMP ($02FF)` reads `0x02FF` and `0x0200`.
pub proof fn lemma_indirect_jump_page_wrap(s: CpuState, page: u8)
    requires
        s.valid(),
        s.byte(s.pc) == 0x6c,
        s.byte(s.pc.wrapping_add(1)) == 0xff,
        s.byte(s.pc.wrapping_add(2)) == page,
    ensures
        next(s).pc == le16(s.byte(le16(0xff, page)), s.byte(le16(0x00, page))),
{
}

/// A pop returns the byte that the push before it stored, and leaves the stack pointer
/// where it was before the push.
pub proof fn lemma_push_pop(s: CpuState, v: u8)
    requires
        s.valid(),
    ensures
        s.push(v).top() == v,
        s.push(v).pop() == s.write(stack_address(s.sp), v),
{
}

/// The state after pushing each byte of `vs` in turn.
pub open spec fn push_all(s: CpuState, vs: Seq<u8>) -> CpuState
    decreases vs.len(),
{
    if vs.len() == 0 {
        s
    } else {
        push_all(s.push(vs[0]), vs.drop_first())
    }
}

/// Any number of pushes wraps the stack pointer around the stack page, never leaving it:
/// after `n` pushes the pointer is `sp - n` modulo 256, and no byte outside the page has
/// changed.
pub proof fn lemma_push_wraps(s: CpuState, vs: Seq<u8>)
    requires
        s.valid(),
    ensures
        push_all(s, vs).valid(),
        push_all(s, vs).sp == (s.sp - vs.len()) % 256,
        forall|a: int|
            0 <= a < 0x10000 && !(0x100 <= a < 0x200) ==> #[trigger] push_all(s, vs).memory[a]
                == s.memory[a],
    decreases vs.len(),
{
    if vs.len() > 0 {
        lemma_push_wraps(s.push(vs[0]), vs.drop_first());
    }
}

/// `JSR target` followed by `RTS` at `target` returns to the instruction right after the
/// three-byte `JSR`, with the stack pointer restored. The return address that `JSR`
/// pushes must not land on the `RTS` itself.
pub proof fn lemma_call_return(s: CpuState, target: u16)
    requires
        s.valid(),
        s.byte(s.pc) == 0x20,
        s.byte(s.pc.wrapping_add(1)) == lo_byte(target),
        s.byte(s.pc.wrapping_add(2)) == hi_byte(target),
        s.byte(target) == 0x60,
        target != stack_address(s.sp),
        target != stack_address(s.sp.wrapping_sub(1)),
    ensures
        next(s).pc == target,
        next(next(s)).pc == s.pc.wrapping_add(3),
        next(next(s)).sp == s.sp,
{
}

} // verus!
