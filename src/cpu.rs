//! The CPU: register file, interrupt-enable state, halt mode and the bus,
//! driven one instruction at a time by `step`.
use vstd::prelude::*;
use crate::memory::{Memory, word, next_address};
use crate::mmu::MMU;
use crate::registers::{Flags, Registers};
use decode::{Instruction, instruction_of};

pub mod decode;
pub mod instructions;

verus! {

/// The interrupt master enable state. Enabling or disabling takes effect one
/// instruction late: the requested change is pending until the next `step`.
#[derive(Clone, Copy, Debug, PartialEq, Eq, Structural)]
pub enum ImeFlag {
    Enabled,
    Disabled,
    WillEnable,
    WillDisable,
}

/// The interrupt master enable flag together with its pending change.
#[derive(Clone, Copy, Debug, PartialEq, Eq, Structural)]
pub struct ImeFlagTimer {
    pub flag: ImeFlag,
}

impl ImeFlagTimer {
    /// The state one `step` later: a pending change takes effect.
    pub open spec fn ticked(self) -> ImeFlagTimer {
        ImeFlagTimer {
            flag: match self.flag {
                ImeFlag::WillEnable => ImeFlag::Enabled,
                ImeFlag::WillDisable => ImeFlag::Disabled,
                f => f,
            },
        }
    }

    pub open spec fn spec_interrupts_enabled(&self) -> bool {
        self.flag is Enabled || self.flag is WillDisable
    }

    /// Interrupts enabled, nothing pending.
    pub fn new() -> (r: Self)
        ensures
            r.flag == ImeFlag::Enabled,
    {
        ImeFlagTimer { flag: ImeFlag::Enabled }
    }

    /// Lets a pending change take effect.
    pub fn tick(&mut self)
        ensures
            *final(self) == old(self).ticked(),
    {
        self.flag = match self.flag {
            ImeFlag::WillEnable => ImeFlag::Enabled,
            ImeFlag::WillDisable => ImeFlag::Disabled,
            f => f,
        };
    }

    /// Whether interrupts may be delivered now: enabled, or enabled with a
    /// disable still pending.
    #[verifier::when_used_as_spec(spec_interrupts_enabled)]
    pub fn interrupts_enabled(&self) -> (r: bool)
        ensures
            r == self.spec_interrupts_enabled(),
    {
        match self.flag {
            ImeFlag::Enabled | ImeFlag::WillDisable => true,
            _ => false,
        }
    }
}

/// A fault that ends emulation.
#[derive(Clone, Copy, Debug, PartialEq, Eq, Structural)]
pub enum CpuError {
    /// `opcode` has no defined semantics; `pc` is the address it was fetched from.
    UnimplementedOpcode { opcode: u8, pc: u16 },
}

pub struct CPU {
    pub halt: bool,
    pub ime_timer: ImeFlagTimer,
    pub mmu: MMU,
    pub registers: Registers,
}

impl CPU {
    pub open spec fn with_registers(self, r: Registers) -> CPU {
        CPU { registers: r, ..self }
    }

    pub open spec fn with_flags(self, f: Flags) -> CPU {
        self.with_registers(Registers { f: f, ..self.registers })
    }

    /// A and F set from an accumulator result and its flags.
    pub open spec fn with_acc(self, r: (u8, Flags)) -> CPU {
        self.with_registers(Registers { a: r.0, f: r.1, ..self.registers })
    }

    pub open spec fn with_pc(self, pc: u16) -> CPU {
        self.with_registers(Registers { pc: pc, ..self.registers })
    }

    pub open spec fn with_sp(self, sp: u16) -> CPU {
        self.with_registers(Registers { sp: sp, ..self.registers })
    }

    pub open spec fn with_ime(self, flag: ImeFlag) -> CPU {
        CPU { ime_timer: ImeFlagTimer { flag: flag }, ..self }
    }

    pub open spec fn with_byte(self, address: u16, value: u8) -> CPU {
        CPU { mmu: self.mmu.after_write(address, value), ..self }
    }

    /// `value` written little-endian at `address`.
    pub open spec fn with_word(self, address: u16, value: u16) -> CPU {
        CPU {
            mmu: self.mmu.after_write(address, (value % 256) as u8).after_write(
                next_address(address),
                (value / 256) as u8,
            ),
            ..self
        }
    }

    /// The little-endian word at `address`.
    pub open spec fn word_at(self, address: u16) -> u16 {
        word(self.mmu.byte(next_address(address)), self.mmu.byte(address))
    }

    /// The program counter advanced by `n`, wrapping.
    pub open spec fn skip(self, n: int) -> CPU {
        self.with_pc(((self.registers.pc + n) % 0x10000) as u16)
    }

    /// The byte at the program counter.
    pub open spec fn imm8(self) -> u8 {
        self.mmu.byte(self.registers.pc)
    }

    /// The word at the program counter.
    pub open spec fn imm16(self) -> u16 {
        self.word_at(self.registers.pc)
    }

    /// `value` pushed: SP lowered by two, then the word written at the new SP.
    pub open spec fn pushed(self, value: u16) -> CPU {
        let sp = ((self.registers.sp + 0x10000 - 2) % 0x10000) as u16;
        self.with_sp(sp).with_word(sp, value)
    }

    /// The word on top of the stack.
    pub open spec fn top(self) -> u16 {
        self.word_at(self.registers.sp)
    }

    /// SP raised by two.
    pub open spec fn popped(self) -> CPU {
        self.with_sp(((self.registers.sp + 2) % 0x10000) as u16)
    }

    /// The state after `step` and what it returns: pending interrupt-enable
    /// changes take effect; a halted CPU idles for one cycle; otherwise the
    /// opcode at PC is fetched and executed.
    pub open spec fn step_spec(self) -> (CPU, Result<u32, CpuError>) {
        let s = CPU { ime_timer: self.ime_timer.ticked(), ..self };
        if s.halt {
            (s, Ok(1))
        } else {
            s.skip(1).execute_spec(s.imm8())
        }
    }

    /// A CPU at power-on around `mmu`: all registers zero, interrupts enabled,
    /// running.
    pub fn new(mmu: MMU) -> (r: Self)
        ensures
            r.registers == (Registers {
                a: 0,
                b: 0,
                c: 0,
                d: 0,
                e: 0,
                f: Flags(0),
                h: 0,
                l: 0,
                pc: 0,
                sp: 0,
            }),
            r.mmu == mmu,
            r.ime_timer.flag == ImeFlag::Enabled,
            !r.halt,
    {
        CPU { registers: Registers::new(), mmu: mmu, ime_timer: ImeFlagTimer::new(), halt: false }
    }

    /// Reads the byte at PC and advances PC past it.
    pub fn fetch_byte(&mut self) -> (r: u8)
        ensures
            r == old(self).imm8(),
            *final(self) == old(self).skip(1),
    {
        let byte = self.mmu.read_byte(self.registers.pc);
        self.registers.pc = self.registers.pc.wrapping_add(1);
        byte
    }

    /// Reads the word at PC and advances PC past it.
    pub fn fetch_word(&mut self) -> (r: u16)
        ensures
            r == old(self).imm16(),
            *final(self) == old(self).skip(2),
    {
        let word = self.mmu.read_word(self.registers.pc);
        self.registers.pc = self.registers.pc.wrapping_add(2);
        word
    }

    /// Lets a pending interrupt-enable change take effect.
    pub fn update_ime(&mut self)
        ensures
            *final(self) == (CPU { ime_timer: old(self).ime_timer.ticked(), ..*old(self) }),
    {
        self.ime_timer.tick();
    }

    /// Whether interrupts may be delivered now.
    pub fn interrupts_enabled(&self) -> (r: bool)
        ensures
            r == self.ime_timer.spec_interrupts_enabled(),
    {
        self.ime_timer.interrupts_enabled()
    }

    /// Leaves halt mode, as delivering an interrupt does.
    pub fn resume(&mut self)
        ensures
            *final(self) == (CPU { halt: false, ..*old(self) }),
    {
        self.halt = false;
    }

    /// Executes one instruction, or idles one cycle while halted, and returns
    /// the machine cycles it took.
    pub fn step(&mut self) -> (r: Result<u32, CpuError>)
        ensures
            (*final(self), r) == old(self).step_spec(),
    {
        self.update_ime();
        if self.halt {
            return Ok(1);
        }
        let instruction = self.fetch_byte();
        self.execute(instruction)
    }
}

/// Only DI, EI and RETI change the interrupt-enable state.
pub proof fn lemma_run_keeps_ime(s: CPU, i: Instruction)
    requires
        !(i is Di),
        !(i is Ei),
        !(i is Reti),
    ensures
        s.run_spec(i).0.ime_timer == s.ime_timer,
{
}

/// DI takes effect one instruction late. With interrupts enabled, the step
/// that executes DI leaves them enabled; the step after it, executing any
/// instruction that does not itself change the interrupt-enable state,
/// leaves them disabled.
pub proof fn lemma_di_takes_effect_after_next_instruction(s: CPU)
    requires
        s.ime_timer.flag == ImeFlag::Enabled,
        !s.halt,
        s.mmu.byte(s.registers.pc) == 0xF3,
        instruction_of(s.mmu.byte(next_address(s.registers.pc))) is Some,
        !(instruction_of(s.mmu.byte(next_address(s.registers.pc)))->0 is Di),
        !(instruction_of(s.mmu.byte(next_address(s.registers.pc)))->0 is Ei),
        !(instruction_of(s.mmu.byte(next_address(s.registers.pc)))->0 is Reti),
    ensures
        s.step_spec().1 == Ok::<u32, CpuError>(1),
        s.step_spec().0.ime_timer.spec_interrupts_enabled(),
        s.step_spec().0.step_spec().1 is Ok,
        !s.step_spec().0.step_spec().0.ime_timer.spec_interrupts_enabled(),
{
    let s1 = s.step_spec().0;
    assert(instruction_of(0xF3) == Some(Instruction::Di));
    assert(s1.registers.pc == next_address(s.registers.pc));
    assert(s1.mmu == s.mmu);
    let t = CPU { ime_timer: s1.ime_timer.ticked(), ..s1 };
    lemma_run_keeps_ime(t.skip(1), instruction_of(t.imm8())->0);
}

} // verus!
