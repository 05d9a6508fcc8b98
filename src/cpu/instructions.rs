//! Instruction semantics: each operation's effect on the registers, the flags
//! and, where it addresses memory, the bus.
use vstd::prelude::*;
use crate::memory::{Memory, word, next_address};
use crate::mmu::lemma_read_after_write;
use crate::ppu::is_lcd_register;
use crate::registers::{Flags, Registers, flags, lemma_flag_byte};
use super::CPU;

verus! {

/// 1 when `b` holds, else 0.
pub open spec fn bit_of(b: bool) -> int {
    if b {
        1
    } else {
        0
    }
}

/// `add`: A + v, wrapping.
pub open spec fn alu_add(a: u8, v: u8) -> (u8, Flags) {
    let r = ((a + v) % 256) as u8;
    (r, flags(r == 0, false, (a & 0x0F) + (v & 0x0F) > 0x0F, a + v > 0xFF))
}

/// `adc`: A + v + carry-in, wrapping.
pub open spec fn alu_adc(a: u8, v: u8, carry: bool) -> (u8, Flags) {
    let ci = bit_of(carry);
    let r = ((a + v + ci) % 256) as u8;
    (r, flags(r == 0, false, (a & 0x0F) + (v & 0x0F) + ci > 0x0F, a + v + ci > 0xFF))
}

/// `sub`: A - v, wrapping.
pub open spec fn alu_sub(a: u8, v: u8) -> (u8, Flags) {
    let r = ((a + 256 - v) % 256) as u8;
    (r, flags(r == 0, true, (a & 0x0F) < (v & 0x0F), a < v))
}

/// `sbc`: A - v - carry-in, wrapping.
pub open spec fn alu_sbc(a: u8, v: u8, carry: bool) -> (u8, Flags) {
    let ci = bit_of(carry);
    let r = ((a + 256 - v - ci) % 256) as u8;
    (r, flags(r == 0, true, (a & 0x0F) < (v & 0x0F) + ci, a < v + ci))
}

pub open spec fn alu_and(a: u8, v: u8) -> (u8, Flags) {
    (a & v, flags(a & v == 0, false, true, false))
}

pub open spec fn alu_or(a: u8, v: u8) -> (u8, Flags) {
    (a | v, flags(a | v == 0, false, false, false))
}

pub open spec fn alu_xor(a: u8, v: u8) -> (u8, Flags) {
    (a ^ v, flags(a ^ v == 0, false, false, false))
}

/// `inc` of an 8-bit value; the carry flag is kept.
pub open spec fn op_inc(v: u8, f: Flags) -> (u8, Flags) {
    let r = ((v + 1) % 256) as u8;
    (r, flags(r == 0, false, (v & 0x0F) + 1 > 0x0F, f.c()))
}

/// `dec` of an 8-bit value; the carry flag is kept. A borrow out of bit 4
/// happens exactly when the low nibble is zero.
pub open spec fn op_dec(v: u8, f: Flags) -> (u8, Flags) {
    let r = ((v + 255) % 256) as u8;
    (r, flags(r == 0, true, v & 0x0F == 0, f.c()))
}

/// Rotate left, bit 7 to carry and to bit 0.
pub open spec fn op_rlc(v: u8) -> (u8, Flags) {
    let r = (v << 1) | (v >> 7);
    (r, flags(r == 0, false, false, v & 0x80 != 0))
}

/// Rotate right, bit 0 to carry and to bit 7.
pub open spec fn op_rrc(v: u8) -> (u8, Flags) {
    let r = (v >> 1) | (v << 7);
    (r, flags(r == 0, false, false, v & 0x01 != 0))
}

/// Rotate left through carry.
pub open spec fn op_rl(v: u8, f: Flags) -> (u8, Flags) {
    let r = (v << 1) | (if f.c() { 1u8 } else { 0u8 });
    (r, flags(r == 0, false, false, v & 0x80 != 0))
}

/// Rotate right through carry.
pub open spec fn op_rr(v: u8, f: Flags) -> (u8, Flags) {
    let r = (v >> 1) | (if f.c() { 0x80u8 } else { 0u8 });
    (r, flags(r == 0, false, false, v & 0x01 != 0))
}

/// Shift left, bit 0 cleared.
pub open spec fn op_sla(v: u8) -> (u8, Flags) {
    let r = v << 1;
    (r, flags(r == 0, false, false, v & 0x80 != 0))
}

/// Shift right, bit 7 kept.
pub open spec fn op_sra(v: u8) -> (u8, Flags) {
    let r = (v >> 1) | (v & 0x80);
    (r, flags(r == 0, false, false, v & 0x01 != 0))
}

/// Shift right, bit 7 cleared.
pub open spec fn op_srl(v: u8) -> (u8, Flags) {
    let r = v >> 1;
    (r, flags(r == 0, false, false, v & 0x01 != 0))
}

/// Exchange the nibbles.
pub open spec fn op_swap(v: u8) -> (u8, Flags) {
    let r = (v >> 4) | (v << 4);
    (r, flags(r == 0, false, false, false))
}

/// The flags after testing bit `n` of `v`: zero set when the bit is clear.
pub open spec fn op_bit(v: u8, n: u8, f: Flags) -> Flags {
    flags(v & (1u8 << n) == 0, false, true, f.c())
}

/// Whether the low nibble of A needs the decimal adjustment.
pub open spec fn daa_low(a: u8, f: Flags) -> bool {
    f.h() || (!f.n() && a & 0x0F > 0x09)
}

/// Whether the high nibble of A needs the decimal adjustment.
pub open spec fn daa_high(a: u8, f: Flags) -> bool {
    f.c() || (!f.n() && a > 0x99)
}

/// `daa`: A adjusted to binary-coded decimal after an addition (N clear) or a
/// subtraction (N set), by 0x06 and/or 0x60.
pub open spec fn op_daa(a: u8, f: Flags) -> (u8, Flags) {
    let adjust = (if daa_low(a, f) { 0x06int } else { 0 }) + (if daa_high(a, f) { 0x60int } else { 0 });
    let r = if f.n() { ((a + 256 - adjust) % 256) as u8 } else { ((a + adjust) % 256) as u8 };
    (r, flags(r == 0, f.n(), false, daa_high(a, f)))
}

/// The 16-bit sum of `sp` and the sign-extended `e`, with the flags that
/// `add16_sp` sets: carries out of bits 3 and 7 of the unsigned low bytes.
pub open spec fn sp_plus(sp: u16, e: u8) -> (u16, Flags) {
    let offset = if e < 128 { e as int } else { e as int - 256 };
    (
        ((sp + 0x10000 + offset) % 0x10000) as u16,
        flags(false, false, (sp & 0x000F) + (e & 0x0F) > 0x0F, (sp & 0x00FF) + e > 0xFF),
    )
}

/// Bounds of the masks that the half-carry tests take.
pub proof fn lemma_mask_bounds()
    by (bit_vector)
    ensures
        forall|x: u8| #[trigger] (x & 0x0F) <= 0x0F,
        forall|x: u16| #[trigger] (x & 0x000F) <= 0x000F,
        forall|x: u16| #[trigger] (x & 0x00FF) <= 0x00FF,
        forall|x: u16| #[trigger] (x & 0x0FFF) <= 0x0FFF,
{
}

impl CPU {
    /// The register file after `add16_hl(v)`.
    pub open spec fn add16_hl_spec(self, v: u16) -> Registers {
        let hl = self.registers.hl();
        let r = self.registers.with_hl(((hl + v) % 0x10000) as u16);
        Registers {
            f: flags(
                self.registers.f.z(),
                false,
                (hl & 0x0FFF) + (v & 0x0FFF) > 0x0FFF,
                hl + v > 0xFFFF,
            ),
            ..r
        }
    }

    /// The state after the relative jump whose offset is the byte at PC.
    pub open spec fn jr_spec(self) -> CPU {
        let e = self.imm8();
        let offset = if e < 128 { e as int } else { e as int - 256 };
        self.with_pc(((self.registers.pc + 1 + 0x10000 + offset) % 0x10000) as u16)
    }

    /// The state after the call whose target is the word at PC.
    pub open spec fn call_spec(self) -> CPU {
        self.skip(2).pushed(self.skip(2).registers.pc).with_pc(self.imm16())
    }

    /// The state after returning to the address on top of the stack.
    pub open spec fn ret_spec(self) -> CPU {
        self.popped().with_pc(self.top())
    }

    /// 8-bit add operation with register A.
    pub fn add(&mut self, value: u8)
        ensures
            *final(self) == old(self).with_acc(alu_add(old(self).registers.a, value)),
    {
        let a = self.registers.a;
        let result = a.wrapping_add(value);
        proof {
            lemma_mask_bounds();
        }
        let half = (a & 0x0F) + (value & 0x0F) > 0x0F;
        let carry = (a as u16) + (value as u16) > 0xFF;
        self.registers.a = result;
        self.registers.f = Flags::pack(result == 0, false, half, carry);
    }

    /// 16-bit add operation with register HL.
    pub fn add16_hl(&mut self, value: u16)
        ensures
            *final(self) == old(self).with_registers(old(self).add16_hl_spec(value)),
    {
        let hl = self.registers.hl();
        let result = hl.wrapping_add(value);
        proof {
            lemma_mask_bounds();
        }
        let half = (hl & 0x0FFF) + (value & 0x0FFF) > 0x0FFF;
        let carry = (hl as u32) + (value as u32) > 0xFFFF;
        let z = self.registers.f.z();
        self.registers.set_hl(result);
        self.registers.f = Flags::pack(z, false, half, carry);
    }

    /// 16-bit add of a signed byte to SP.
    pub fn add16_sp(&mut self, value: u8)
        ensures
            *final(self) == old(self).with_sp(sp_plus(old(self).registers.sp, value).0).with_flags(
                sp_plus(old(self).registers.sp, value).1,
            ),
    {
        let (result, f) = Self::offset_sp(self.registers.sp, value);
        self.registers.sp = result;
        self.registers.f = f;
    }

    /// SP plus a sign-extended byte, and the flags of that sum.
    pub fn offset_sp(sp: u16, value: u8) -> (r: (u16, Flags))
        ensures
            r == sp_plus(sp, value),
    {
        let result = if value < 128 {
            sp.wrapping_add(value as u16)
        } else {
            sp.wrapping_sub(256 - value as u16)
        };
        proof {
            lemma_mask_bounds();
        }
        let half = (sp & 0x000F) + ((value & 0x0F) as u16) > 0x000F;
        let carry = (sp & 0x00FF) + (value as u16) > 0x00FF;
        (result, Flags::pack(false, false, half, carry))
    }

    /// 8-bit add with carry operation with register A.
    pub fn adc(&mut self, value: u8)
        ensures
            *final(self) == old(self).with_acc(
                alu_adc(old(self).registers.a, value, old(self).registers.f.c()),
            ),
    {
        let a = self.registers.a;
        let carry_in: u8 = if self.registers.f.c() { 1 } else { 0 };
        let result = a.wrapping_add(value).wrapping_add(carry_in);
        proof {
            lemma_mask_bounds();
        }
        let half = (a & 0x0F) + (value & 0x0F) + carry_in > 0x0F;
        let carry = (a as u16) + (value as u16) + (carry_in as u16) > 0xFF;
        self.registers.a = result;
        self.registers.f = Flags::pack(result == 0, false, half, carry);
    }

    /// Bitwise AND operation with register A.
    pub fn and(&mut self, value: u8)
        ensures
            *final(self) == old(self).with_acc(alu_and(old(self).registers.a, value)),
    {
        let result = self.registers.a & value;
        self.registers.a = result;
        self.registers.f = Flags::pack(result == 0, false, true, false);
    }

    /// Test bit `value` of `register`: zero flag set when the bit is clear.
    pub fn bit(&mut self, register: u8, value: u8)
        requires
            value < 8,
        ensures
            *final(self) == old(self).with_flags(op_bit(register, value, old(self).registers.f)),
    {
        let zero = (register & (1u8 << value)) == 0;
        let c = self.registers.f.c();
        self.registers.f = Flags::pack(zero, false, true, c);
    }

    /// Push the address of the next instruction onto the stack and jump to
    /// the address in the word at PC.
    pub fn call(&mut self)
        ensures
            *final(self) == old(self).call_spec(),
    {
        let address = self.fetch_word();
        let next_instruction = self.registers.pc;
        self.push(next_instruction);
        self.registers.pc = address;
    }

    /// Compare A with a value: the flags of `sub`, with A kept.
    pub fn cp(&mut self, value: u8)
        ensures
            *final(self) == old(self).with_flags(alu_sub(old(self).registers.a, value).1),
    {
        let old = self.registers.a;
        self.sub(value);
        self.registers.a = old;
    }

    /// Complement carry flag.
    pub fn ccf(&mut self)
        ensures
            *final(self) == old(self).with_flags(
                flags(old(self).registers.f.z(), false, false, !old(self).registers.f.c()),
            ),
    {
        let z = self.registers.f.z();
        let c = self.registers.f.c();
        self.registers.f = Flags::pack(z, false, false, !c);
    }

    /// Complement A register (flip all bits).
    pub fn cpl(&mut self)
        ensures
            *final(self) == old(self).with_acc(
                (
                    !old(self).registers.a,
                    flags(old(self).registers.f.z(), true, true, old(self).registers.f.c()),
                ),
            ),
    {
        let z = self.registers.f.z();
        let c = self.registers.f.c();
        self.registers.a = !self.registers.a;
        self.registers.f = Flags::pack(z, true, true, c);
    }

    /// Decimal adjust register A, so that it holds the binary-coded decimal
    /// result of the previous addition or subtraction.
    pub fn daa(&mut self)
        ensures
            *final(self) == old(self).with_acc(op_daa(old(self).registers.a, old(self).registers.f)),
    {
        let a = self.registers.a;
        let n = self.registers.f.n();
        let low = self.registers.f.h() || (!n && a & 0x0F > 0x09);
        let high = self.registers.f.c() || (!n && a > 0x99);
        let adjust: u8 = (if low { 0x06u8 } else { 0u8 }) + (if high { 0x60u8 } else { 0u8 });
        let result = if n { a.wrapping_sub(adjust) } else { a.wrapping_add(adjust) };
        self.registers.a = result;
        self.registers.f = Flags::pack(result == 0, n, false, high);
    }

    /// Decrement 8bit value.
    pub fn dec(&mut self, value: u8) -> (r: u8)
        ensures
            r == op_dec(value, old(self).registers.f).0,
            *final(self) == old(self).with_flags(op_dec(value, old(self).registers.f).1),
    {
        let result = value.wrapping_sub(1);
        let c = self.registers.f.c();
        self.registers.f = Flags::pack(result == 0, true, value & 0x0F == 0, c);
        result
    }

    /// Decrement 16-bit value.
    pub fn dec16(&mut self, value: u16) -> (r: u16)
        ensures
            r == (value + 0xFFFF) % 0x10000,
            *final(self) == *old(self),
    {
        value.wrapping_sub(1)
    }

    /// Increment 8bit value.
    pub fn inc(&mut self, value: u8) -> (r: u8)
        ensures
            r == op_inc(value, old(self).registers.f).0,
            *final(self) == old(self).with_flags(op_inc(value, old(self).registers.f).1),
    {
        let result = value.wrapping_add(1);
        let c = self.registers.f.c();
        proof {
            lemma_mask_bounds();
        }
        self.registers.f = Flags::pack(result == 0, false, (value & 0x0F) + 1 > 0x0F, c);
        result
    }

    /// Increment 16bit value.
    pub fn inc16(&mut self, value: u16) -> (r: u16)
        ensures
            r == (value + 1) % 0x10000,
            *final(self) == *old(self),
    {
        value.wrapping_add(1)
    }

    /// Jump to the address in the word at PC.
    pub fn jp(&mut self)
        ensures
            *final(self) == old(self).with_pc(old(self).imm16()),
    {
        let address = self.fetch_word();
        self.registers.pc = address;
    }

    /// Jump relative: the signed byte at PC is added to the address after it.
    pub fn jr(&mut self)
        ensures
            *final(self) == old(self).jr_spec(),
    {
        let offset = self.fetch_byte();
        let pc = self.registers.pc;
        self.registers.pc = if offset < 128 {
            pc.wrapping_add(offset as u16)
        } else {
            pc.wrapping_sub(256 - offset as u16)
        };
    }

    /// No operation.
    pub fn nop(&mut self)
        ensures
            *final(self) == *old(self),
    {
    }

    /// Bitwise OR operation with register A.
    pub fn or(&mut self, value: u8)
        ensures
            *final(self) == old(self).with_acc(alu_or(old(self).registers.a, value)),
    {
        let result = self.registers.a | value;
        self.registers.a = result;
        self.registers.f = Flags::pack(result == 0, false, false, false);
    }

    /// Pop a 16bit value from the stack.
    pub fn pop(&mut self) -> (r: u16)
        ensures
            r == old(self).top(),
            *final(self) == old(self).popped(),
    {
        let value = self.mmu.read_word(self.registers.sp);
        self.registers.sp = self.registers.sp.wrapping_add(2);
        value
    }

    /// Push a 16bit value to the stack.
    pub fn push(&mut self, value: u16)
        ensures
            *final(self) == old(self).pushed(value),
    {
        self.registers.sp = self.registers.sp.wrapping_sub(2);
        self.mmu.write_word(self.registers.sp, value);
    }

    /// Reset bit `value` of `register`.
    pub fn res(&mut self, register: u8, value: u8) -> (r: u8)
        requires
            value < 8,
        ensures
            r == register & !(1u8 << value),
            *final(self) == *old(self),
    {
        register & !(1u8 << value)
    }

    /// Return to the address on top of the stack.
    pub fn ret(&mut self)
        ensures
            *final(self) == old(self).ret_spec(),
    {
        self.registers.pc = self.pop();
    }

    /// Rotate left through Carry flag.
    pub fn rl(&mut self, value: u8) -> (r: u8)
        ensures
            r == op_rl(value, old(self).registers.f).0,
            *final(self) == old(self).with_flags(op_rl(value, old(self).registers.f).1),
    {
        let carry = value & 0x80 != 0;
        let rotated = (value << 1) | if self.registers.f.c() { 1u8 } else { 0u8 };
        self.registers.f = Flags::pack(rotated == 0, false, false, carry);
        rotated
    }

    /// Rotate register A left through Carry flag; Z is cleared.
    pub fn rla(&mut self)
        ensures
            *final(self) == old(self).with_acc(
                (
                    op_rl(old(self).registers.a, old(self).registers.f).0,
                    flags(false, false, false, old(self).registers.a & 0x80 != 0),
                ),
            ),
    {
        let a = self.registers.a;
        let carry = a & 0x80 != 0;
        self.registers.a = (a << 1) | if self.registers.f.c() { 1u8 } else { 0u8 };
        self.registers.f = Flags::pack(false, false, false, carry);
    }

    /// Rotate left. Old bit 7 to Carry flag.
    pub fn rlc(&mut self, value: u8) -> (r: u8)
        ensures
            r == op_rlc(value).0,
            *final(self) == old(self).with_flags(op_rlc(value).1),
    {
        let carry = value & 0x80 != 0;
        let rotated = (value << 1) | (value >> 7);
        self.registers.f = Flags::pack(rotated == 0, false, false, carry);
        rotated
    }

    /// Rotate register A left. Old bit 7 to Carry flag; Z is cleared.
    pub fn rlca(&mut self)
        ensures
            *final(self) == old(self).with_acc(
                (
                    op_rlc(old(self).registers.a).0,
                    flags(false, false, false, old(self).registers.a & 0x80 != 0),
                ),
            ),
    {
        let a = self.registers.a;
        let carry = a & 0x80 != 0;
        self.registers.a = (a << 1) | (a >> 7);
        self.registers.f = Flags::pack(false, false, false, carry);
    }

    /// Rotate right through Carry flag.
    pub fn rr(&mut self, value: u8) -> (r: u8)
        ensures
            r == op_rr(value, old(self).registers.f).0,
            *final(self) == old(self).with_flags(op_rr(value, old(self).registers.f).1),
    {
        let carry = value & 0x01 != 0;
        let rotated = (value >> 1) | if self.registers.f.c() { 0x80u8 } else { 0u8 };
        self.registers.f = Flags::pack(rotated == 0, false, false, carry);
        rotated
    }

    /// Rotate register A right through Carry flag; Z is cleared.
    pub fn rra(&mut self)
        ensures
            *final(self) == old(self).with_acc(
                (
                    op_rr(old(self).registers.a, old(self).registers.f).0,
                    flags(false, false, false, old(self).registers.a & 0x01 != 0),
                ),
            ),
    {
        let a = self.registers.a;
        let carry = a & 0x01 != 0;
        self.registers.a = (a >> 1) | if self.registers.f.c() { 0x80u8 } else { 0u8 };
        self.registers.f = Flags::pack(false, false, false, carry);
    }

    /// Rotate right. Old bit 0 to Carry flag.
    pub fn rrc(&mut self, value: u8) -> (r: u8)
        ensures
            r == op_rrc(value).0,
            *final(self) == old(self).with_flags(op_rrc(value).1),
    {
        let carry = value & 0x01 != 0;
        let rotated = (value >> 1) | (value << 7);
        self.registers.f = Flags::pack(rotated == 0, false, false, carry);
        rotated
    }

    /// Rotate register A right. Old bit 0 to Carry flag; Z is cleared.
    pub fn rrca(&mut self)
        ensures
            *final(self) == old(self).with_acc(
                (
                    op_rrc(old(self).registers.a).0,
                    flags(false, false, false, old(self).registers.a & 0x01 != 0),
                ),
            ),
    {
        let a = self.registers.a;
        let carry = a & 0x01 != 0;
        self.registers.a = (a >> 1) | (a << 7);
        self.registers.f = Flags::pack(false, false, false, carry);
    }

    /// Push PC onto the stack and jump to `address`.
    pub fn rst(&mut self, address: u16)
        ensures
            *final(self) == old(self).pushed(old(self).registers.pc).with_pc(address),
    {
        let pc = self.registers.pc;
        self.push(pc);
        self.registers.pc = address;
    }

    /// Sub operation with carry with register A.
    pub fn sbc(&mut self, value: u8)
        ensures
            *final(self) == old(self).with_acc(
                alu_sbc(old(self).registers.a, value, old(self).registers.f.c()),
            ),
    {
        let a = self.registers.a;
        let carry_in: u8 = if self.registers.f.c() { 1 } else { 0 };
        let result = a.wrapping_sub(value).wrapping_sub(carry_in);
        proof {
            lemma_mask_bounds();
        }
        let half = (a & 0x0F) < (value & 0x0F) + carry_in;
        let carry = (a as u16) < (value as u16) + (carry_in as u16);
        self.registers.a = result;
        self.registers.f = Flags::pack(result == 0, true, half, carry);
    }

    /// Set carry flag.
    pub fn scf(&mut self)
        ensures
            *final(self) == old(self).with_flags(flags(old(self).registers.f.z(), false, false, true)),
    {
        let z = self.registers.f.z();
        self.registers.f = Flags::pack(z, false, false, true);
    }

    /// Set bit `value` of `register`.
    pub fn set(&mut self, register: u8, value: u8) -> (r: u8)
        requires
            value < 8,
        ensures
            r == register | (1u8 << value),
            *final(self) == *old(self),
    {
        register | (1u8 << value)
    }

    /// Shift left into Carry. LSB set to 0.
    pub fn sla(&mut self, value: u8) -> (r: u8)
        ensures
            r == op_sla(value).0,
            *final(self) == old(self).with_flags(op_sla(value).1),
    {
        let carry = value & 0x80 != 0;
        let shifted = value << 1;
        self.registers.f = Flags::pack(shifted == 0, false, false, carry);
        shifted
    }

    /// Shift right into Carry. MSB doesn't change.
    pub fn sra(&mut self, value: u8) -> (r: u8)
        ensures
            r == op_sra(value).0,
            *final(self) == old(self).with_flags(op_sra(value).1),
    {
        let carry = value & 0x01 != 0;
        let shifted = (value >> 1) | (value & 0x80);
        self.registers.f = Flags::pack(shifted == 0, false, false, carry);
        shifted
    }

    /// Shift right into Carry. MSB set to 0.
    pub fn srl(&mut self, value: u8) -> (r: u8)
        ensures
            r == op_srl(value).0,
            *final(self) == old(self).with_flags(op_srl(value).1),
    {
        let carry = value & 0x01 != 0;
        let shifted = value >> 1;
        self.registers.f = Flags::pack(shifted == 0, false, false, carry);
        shifted
    }

    /// Sub operation with register A.
    pub fn sub(&mut self, value: u8)
        ensures
            *final(self) == old(self).with_acc(alu_sub(old(self).registers.a, value)),
    {
        let a = self.registers.a;
        let result = a.wrapping_sub(value);
        let half = (a & 0x0F) < (value & 0x0F);
        self.registers.a = result;
        self.registers.f = Flags::pack(result == 0, true, half, a < value);
    }

    /// Swap upper and lower nibbles.
    pub fn swap(&mut self, value: u8) -> (r: u8)
        ensures
            r == op_swap(value).0,
            *final(self) == old(self).with_flags(op_swap(value).1),
    {
        let swapped = (value >> 4) | (value << 4);
        self.registers.f = Flags::pack(swapped == 0, false, false, false);
        swapped
    }

    /// Bitwise XOR operation with register A.
    pub fn xor(&mut self, value: u8)
        ensures
            *final(self) == old(self).with_acc(alu_xor(old(self).registers.a, value)),
    {
        let result = self.registers.a ^ value;
        self.registers.a = result;
        self.registers.f = Flags::pack(result == 0, false, false, false);
    }
}

/// Incrementing undoes decrementing: the value comes back, and the flags are
/// those of incrementing its predecessor: zero when the value is zero,
/// half-carry when its low nibble is zero, subtract clear, carry kept.
pub proof fn lemma_inc_undoes_dec(v: u8, f: Flags)
    ensures
        op_inc(op_dec(v, f).0, op_dec(v, f).1).0 == v,
        op_inc(op_dec(v, f).0, op_dec(v, f).1).1 == flags(v == 0, false, v & 0x0F == 0, f.c()),
{
    let d = op_dec(v, f);
    lemma_flag_byte(d.0 == 0, true, v & 0x0F == 0, f.c());
    let w = d.0;
    assert(w == ((v + 255) % 256) as u8);
    assert(((w & 0x0F) + 1 > 0x0F) == (v & 0x0F == 0)) by (bit_vector)
        requires
            w == ((v + 255) % 256) as u8,
    ;
}

/// Decrementing undoes incrementing: the value comes back, and the flags are
/// those of decrementing its successor: zero when the value is zero,
/// half-carry when its low nibble is 0xF, subtract set, carry kept.
pub proof fn lemma_dec_undoes_inc(v: u8, f: Flags)
    ensures
        op_dec(op_inc(v, f).0, op_inc(v, f).1).0 == v,
        op_dec(op_inc(v, f).0, op_inc(v, f).1).1 == flags(v == 0, true, v & 0x0F == 0x0F, f.c()),
{
    let i = op_inc(v, f);
    lemma_flag_byte(i.0 == 0, false, (v & 0x0F) + 1 > 0x0F, f.c());
    let w = i.0;
    assert(w == ((v + 1) % 256) as u8);
    assert((w & 0x0F == 0) == (v & 0x0F == 0x0F)) by (bit_vector)
        requires
            w == ((v + 1) % 256) as u8,
    ;
}

/// What is pushed is popped back, and SP returns to where it was, provided
/// the two stack bytes are plain storage rather than LCD registers.
pub proof fn lemma_pop_undoes_push(s: CPU, x: u16)
    requires
        !is_lcd_register(((s.registers.sp + 0x10000 - 2) % 0x10000) as u16),
        !is_lcd_register(((s.registers.sp + 0x10000 - 1) % 0x10000) as u16),
    ensures
        s.pushed(x).top() == x,
        s.pushed(x).popped().registers == s.registers,
{
    let sp = ((s.registers.sp + 0x10000 - 2) % 0x10000) as u16;
    let hi_address = next_address(sp);
    let m0 = s.mmu;
    let m1 = m0.after_write(sp, (x % 256) as u8);
    let m2 = m1.after_write(hi_address, (x / 256) as u8);
    assert(hi_address == ((s.registers.sp + 0x10000 - 1) % 0x10000) as u16);
    lemma_read_after_write(m1, hi_address, (x / 256) as u8, hi_address);
    lemma_read_after_write(m1, hi_address, (x / 256) as u8, sp);
    lemma_read_after_write(m0, sp, (x % 256) as u8, sp);
    assert(s.pushed(x).mmu == m2);
    assert(s.pushed(x).registers.sp == sp);
    assert(word((x / 256) as u8, (x % 256) as u8) == x);
}

/// Whether both nibbles of `v` are decimal digits.
pub open spec fn is_bcd(v: u8) -> bool {
    v / 16 <= 9 && v % 16 <= 9
}

/// The number that a binary-coded decimal byte stands for.
pub open spec fn bcd_value(v: u8) -> int {
    (v / 16) * 10 + v % 16
}

/// Adding two binary-coded decimal bytes and then adjusting with `daa` gives
/// the decimal sum below 100, with carry set exactly when the sum reaches 100.
pub proof fn lemma_daa_after_add(a: u8, b: u8)
    requires
        is_bcd(a),
        is_bcd(b),
    ensures
        is_bcd(op_daa(alu_add(a, b).0, alu_add(a, b).1).0),
        bcd_value(op_daa(alu_add(a, b).0, alu_add(a, b).1).0) == (bcd_value(a) + bcd_value(b))
            % 100,
        op_daa(alu_add(a, b).0, alu_add(a, b).1).1.c() == (bcd_value(a) + bcd_value(b) >= 100),
{
    let s = alu_add(a, b);
    let r = s.0;
    let h = (a & 0x0F) + (b & 0x0F) > 0x0F;
    let c = a + b > 0xFF;
    lemma_flag_byte(r == 0, false, h, c);
    let low = daa_low(r, s.1);
    let high = daa_high(r, s.1);
    assert(low == (h || r & 0x0F > 0x09));
    assert(high == (c || r > 0x99));
    let d = op_daa(r, s.1);
    let adjust: u8 = ((if low { 0x06u8 } else { 0u8 }) + (if high { 0x60u8 } else { 0u8 })) as u8;
    let out = d.0;
    assert(out == ((r + adjust) % 256) as u8);
    assert(is_bcd(out) && bcd_value(out) == (bcd_value(a) + bcd_value(b)) % 100 && high == (
    bcd_value(a) + bcd_value(b) >= 100)) by (bit_vector)
        requires
            r == ((a + b) % 256) as u8,
            h == ((a & 0x0F) + (b & 0x0F) > 0x0F),
            c == (a + b > 0xFF),
            low == (h || r & 0x0F > 0x09),
            high == (c || r > 0x99),
            adjust == ((if low { 0x06u8 } else { 0u8 }) + (if high { 0x60u8 } else { 0u8 })) as u8,
            out == ((r + adjust) % 256) as u8,
            is_bcd(a),
            is_bcd(b),
    ;
    lemma_flag_byte(out == 0, false, false, high);
}

/// `cp` is `sub` with A kept: the state after `cp(v)` is the state after
/// `sub(v)` with A put back, so both set the same flags.
pub proof fn lemma_cp_is_sub_keeping_a(s: CPU, v: u8)
    ensures
        s.with_flags(alu_sub(s.registers.a, v).1) == s.with_acc(alu_sub(s.registers.a, v)).with_registers(
            Registers { a: s.registers.a, ..s.with_acc(alu_sub(s.registers.a, v)).registers },
        ),
{
}

} // verus!
