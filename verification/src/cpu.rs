//! The execution engine: an instruction table mapping opcode bytes to
//! descriptors, and a `step` that fetches one opcode at the program counter,
//! decodes it and applies its effect to the register file and the cartridge.

use vstd::prelude::*;
use vstd::wrapping::u8_specs;

use crate::cartdrige::{Cartdrige, ExecutionError};
use crate::register::{
    reg8_get, reg8_set, Flag, Flags, FlagsModel, ProgramCounter, Reg8, Registers, RegsModel,
    StackPointer,
};

verus! {

/// The register file at power-up.
pub open spec fn power_up_registers() -> RegsModel {
    RegsModel {
        a: 0x01,
        f: FlagsModel { zero: true, subtraction: false, half_carry: false, carry: false },
        b: 0x00,
        c: 0x13,
        d: 0x00,
        e: 0xD8,
        h: 0x01,
        l: 0x4D,
        sp: 0xFFFE,
        pc: 0x0100,
    }
}

/// A displacement byte read as a signed value: 0x80 and above count down
/// from -128.
pub open spec fn sign_extend(b: u8) -> int {
    if b < 0x80 {
        b as int
    } else {
        b - 0x100
    }
}

/// A 16-bit sum folded back into range; exact for any value one wraparound
/// away, which covers the program counter plus any displacement.
pub open spec fn wrap_u16(x: int) -> u16 {
    if x < 0 {
        (x + 0x10000) as u16
    } else if x > 0xFFFF {
        (x - 0x10000) as u16
    } else {
        x as u16
    }
}

/// The little-endian 16-bit word whose low byte sits at `addr`.
pub open spec fn word_at(rom: Seq<u8>, addr: int) -> u16 {
    (rom[addr + 1] * 0x100 + rom[addr]) as u16
}

/// An 8-bit decrement: modulo 256, no fault.
pub open spec fn dec_u8(v: u8) -> u8 {
    u8_specs::wrapping_sub(v, 1)
}

/// The flag register after an 8-bit decrement of `original`: ZERO follows
/// the result, SUBTRACTION is set, HALFCARRY records the borrow out of bit
/// 3, and CARRY is left untouched.
pub open spec fn dec_flags(f: FlagsModel, original: u8) -> FlagsModel {
    FlagsModel {
        zero: dec_u8(original) == 0,
        subtraction: true,
        half_carry: original & 0x0F == 0,
        carry: f.carry,
    }
}

/// The register file with the program counter moved `k` bytes forward.
pub open spec fn advance_pc(r: RegsModel, k: int) -> RegsModel {
    RegsModel { pc: (r.pc + k) as u16, ..r }
}

/// The state transition an instruction performs, beyond the opcode fetch
/// itself. Each effect is a pure function of the engine state.
#[derive(Copy, Clone, Debug, PartialEq, Eq, Structural)]
pub enum Effect {
    /// Do nothing.
    Nop,
    /// Consume one operand byte and ignore it.
    SkipOperand,
    /// Consume a displacement byte; add it, sign-extended, to the program
    /// counter when ZERO is clear.
    JumpRelIfNotZero,
    /// Copy one 8-bit register into another.
    CopyReg { dst: Reg8, src: Reg8 },
    /// Decrement an 8-bit register and update the flags.
    DecReg { reg: Reg8 },
    /// Consume one operand byte into an 8-bit register.
    LoadImm8 { reg: Reg8 },
    /// Consume a little-endian word into the h and l registers.
    LoadHlImm16,
    /// Complement the accumulator; set SUBTRACTION and HALFCARRY.
    Complement,
    /// Store the accumulator at address h·l, then decrement h·l.
    StoreAHlDec,
    /// Exclusive-or a register into the accumulator; ZERO follows the
    /// result, the other flags clear.
    XorWithA { reg: Reg8 },
    /// Consume a little-endian word and load it into the program counter.
    JumpImm16,
}

/// What the table promises of one opcode: its descriptor fields.
pub ghost struct InstrSpec {
    pub opcode: u8,
    pub mnemonic: Seq<char>,
    pub length: u8,
    pub cycles: u8,
    pub effect: Effect,
}

/// The ground-truth instruction table: which opcodes are implemented, and
/// with what descriptor.
pub open spec fn spec_instr(op: u8) -> Option<InstrSpec> {
    match op {
        0x00 => Some(
            InstrSpec { opcode: 0x00, mnemonic: "NOP"@, length: 1, cycles: 4, effect: Effect::Nop },
        ),
        0x05 => Some(
            InstrSpec {
                opcode: 0x05,
                mnemonic: "DEC B"@,
                length: 1,
                cycles: 4,
                effect: Effect::DecReg { reg: Reg8::B },
            },
        ),
        0x06 => Some(
            InstrSpec {
                opcode: 0x06,
                mnemonic: "LD B,d8"@,
                length: 2,
                cycles: 8,
                effect: Effect::LoadImm8 { reg: Reg8::B },
            },
        ),
        0x0D => Some(
            InstrSpec {
                opcode: 0x0D,
                mnemonic: "DEC C"@,
                length: 1,
                cycles: 4,
                effect: Effect::DecReg { reg: Reg8::C },
            },
        ),
        0x0E => Some(
            InstrSpec {
                opcode: 0x0E,
                mnemonic: "LD C,d8"@,
                length: 2,
                cycles: 8,
                effect: Effect::LoadImm8 { reg: Reg8::C },
            },
        ),
        0x10 => Some(
            InstrSpec {
                opcode: 0x10,
                mnemonic: "STOP 0"@,
                length: 2,
                cycles: 4,
                effect: Effect::SkipOperand,
            },
        ),
        0x20 => Some(
            InstrSpec {
                opcode: 0x20,
                mnemonic: "JR NZ,r8"@,
                length: 2,
                cycles: 8,
                effect: Effect::JumpRelIfNotZero,
            },
        ),
        0x21 => Some(
            InstrSpec {
                opcode: 0x21,
                mnemonic: "LD HL,d16"@,
                length: 3,
                cycles: 12,
                effect: Effect::LoadHlImm16,
            },
        ),
        0x2F => Some(
            InstrSpec {
                opcode: 0x2F,
                mnemonic: "CPL"@,
                length: 1,
                cycles: 4,
                effect: Effect::Complement,
            },
        ),
        0x32 => Some(
            InstrSpec {
                opcode: 0x32,
                mnemonic: "LD (HL-),A"@,
                length: 1,
                cycles: 8,
                effect: Effect::StoreAHlDec,
            },
        ),
        0x3E => Some(
            InstrSpec {
                opcode: 0x3E,
                mnemonic: "LD A,d8"@,
                length: 2,
                cycles: 8,
                effect: Effect::LoadImm8 { reg: Reg8::A },
            },
        ),
        0x60 => Some(
            InstrSpec {
                opcode: 0x60,
                mnemonic: "LD H,B"@,
                length: 1,
                cycles: 4,
                effect: Effect::CopyReg { dst: Reg8::H, src: Reg8::B },
            },
        ),
        0xAF => Some(
            InstrSpec {
                opcode: 0xAF,
                mnemonic: "XOR A, A"@,
                length: 1,
                cycles: 4,
                effect: Effect::XorWithA { reg: Reg8::A },
            },
        ),
        0xC3 => Some(
            InstrSpec {
                opcode: 0xC3,
                mnemonic: "JP a16"@,
                length: 3,
                cycles: 16,
                effect: Effect::JumpImm16,
            },
        ),
        _ => None,
    }
}

/// How many bytes a step at this opcode consumes: the instruction's length,
/// or just the opcode byte when the opcode is unknown.
pub open spec fn instruction_len(op: u8) -> int {
    match spec_instr(op) {
        Some(desc) => desc.length as int,
        None => 1,
    }
}

/// A step can run: every byte it fetches lies inside the image, and the
/// program counter never leaves its 16-bit range while advancing.
pub open spec fn step_enabled(r: RegsModel, rom: Seq<u8>) -> bool {
    &&& r.pc + instruction_len(rom[r.pc as int]) <= rom.len()
    &&& r.pc + instruction_len(rom[r.pc as int]) <= 0xFFFF
}

/// The state an effect leaves, and the failure it hits, starting from the
/// state right after the opcode fetch (`r.pc` sits on the first operand
/// byte). The one write this table performs is refused by the read-only
/// mapping, so the image itself never changes.
pub open spec fn effect_step(e: Effect, r: RegsModel, rom: Seq<u8>) -> (RegsModel, Option<
    ExecutionError,
>) {
    match e {
        Effect::Nop => (r, None),
        Effect::SkipOperand => (advance_pc(r, 1), None),
        Effect::JumpRelIfNotZero => {
            let displacement = rom[r.pc as int];
            let r1 = advance_pc(r, 1);
            if !r.f.zero {
                (RegsModel { pc: wrap_u16(r1.pc + sign_extend(displacement)), ..r1 }, None)
            } else {
                (r1, None)
            }
        },
        Effect::CopyReg { dst, src } => (reg8_set(r, dst, reg8_get(r, src)), None),
        Effect::DecReg { reg } => {
            let original = reg8_get(r, reg);
            (
                RegsModel { f: dec_flags(r.f, original), ..reg8_set(r, reg, dec_u8(original)) },
                None,
            )
        },
        Effect::LoadImm8 { reg } => (reg8_set(advance_pc(r, 1), reg, rom[r.pc as int]), None),
        Effect::LoadHlImm16 => (
            RegsModel { h: rom[r.pc + 1], l: rom[r.pc as int], ..advance_pc(r, 2) },
            None,
        ),
        Effect::Complement => (
            RegsModel {
                a: !r.a,
                f: FlagsModel { subtraction: true, half_carry: true, ..r.f },
                ..r
            },
            None,
        ),
        Effect::StoreAHlDec => (r, Some(ExecutionError::WriteToReadOnly)),
        Effect::XorWithA { reg } => {
            let v = r.a ^ reg8_get(r, reg);
            (
                RegsModel {
                    a: v,
                    f: FlagsModel {
                        zero: v == 0,
                        subtraction: false,
                        half_carry: false,
                        carry: false,
                    },
                    ..r
                },
                None,
            )
        },
        Effect::JumpImm16 => (RegsModel { pc: word_at(rom, r.pc as int), ..r }, None),
    }
}

/// One whole step: fetch the opcode at the program counter (advancing it),
/// decode, and apply the effect. Yields the next register file, and either
/// the opcode that ran or the failure that stopped the step.
pub open spec fn spec_step(r: RegsModel, rom: Seq<u8>) -> (RegsModel, Result<
    u8,
    ExecutionError,
>) {
    let op = rom[r.pc as int];
    let fetched = advance_pc(r, 1);
    match spec_instr(op) {
        None => (fetched, Err(ExecutionError::UnknownOpcode(op))),
        Some(desc) => {
            let stepped = effect_step(desc.effect, fetched, rom);
            match stepped.1 {
                None => (stepped.0, Ok(op)),
                Some(e) => (stepped.0, Err(e)),
            }
        },
    }
}

/// One immutable table entry: opcode byte, display mnemonic, total length
/// in bytes (opcode plus operands), base cycle cost (informational), and
/// the execution effect.
#[derive(Copy, Clone, Debug)]
pub struct Instruction {
    pub opcode: u8,
    pub mnemonic: &'static str,
    pub length: u8,
    pub cycles: u8,
    pub effect: Effect,
}

impl Instruction {
    /// This entry carries exactly the fields the ground truth gives its
    /// opcode.
    pub open spec fn matches_spec(self, desc: InstrSpec) -> bool {
        &&& self.opcode == desc.opcode
        &&& self.mnemonic@ == desc.mnemonic
        &&& self.length == desc.length
        &&& self.cycles == desc.cycles
        &&& self.effect == desc.effect
    }
}

/// The instruction table: one slot per possible opcode byte, built once,
/// never mutated afterward. Building it rejects duplicate opcodes: a slot
/// may only be filled while it is empty.
pub struct InstructionTable {
    entries: Vec<Option<Instruction>>,
}

impl InstructionTable {
    /// Every slot agrees with the ground-truth table.
    pub closed spec fn wf(&self) -> bool {
        &&& self.entries.len() == 256
        &&& forall|op: u8|
            match spec_instr(op) {
                Some(desc) => #[trigger] self.entries@[op as int] is Some
                    && self.entries@[op as int]->Some_0.matches_spec(desc),
                None => self.entries@[op as int] is None,
            }
    }

    /// Fills the slot of the entry's opcode. The slot must still be empty:
    /// a duplicate opcode is rejected when the table is built.
    fn insert(&mut self, instr: Instruction)
        requires
            old(self).entries.len() == 256,
            old(self).entries@[instr.opcode as int] is None,
        ensures
            final(self).entries@ == old(self).entries@.update(
                instr.opcode as int,
                Some(instr),
            ),
    {
        let idx: usize = instr.opcode as usize;
        self.entries[idx] = Some(instr);
    }

    /// Builds the table, one descriptor per implemented opcode.
    pub fn new() -> (table: InstructionTable)
        ensures
            table.wf(),
    {
        let mut entries: Vec<Option<Instruction>> = Vec::new();
        while entries.len() < 256
            invariant
                entries.len() <= 256,
                forall|j: int| 0 <= j < entries.len() ==> entries@[j] is None,
            decreases 256 - entries.len(),
        {
            entries.push(None);
        }
        let mut table = InstructionTable { entries };
        table.insert(
            Instruction { opcode: 0x00, mnemonic: "NOP", length: 1, cycles: 4, effect: Effect::Nop },
        );
        table.insert(
            Instruction {
                opcode: 0x05,
                mnemonic: "DEC B",
                length: 1,
                cycles: 4,
                effect: Effect::DecReg { reg: Reg8::B },
            },
        );
        table.insert(
            Instruction {
                opcode: 0x06,
                mnemonic: "LD B,d8",
                length: 2,
                cycles: 8,
                effect: Effect::LoadImm8 { reg: Reg8::B },
            },
        );
        table.insert(
            Instruction {
                opcode: 0x0D,
                mnemonic: "DEC C",
                length: 1,
                cycles: 4,
                effect: Effect::DecReg { reg: Reg8::C },
            },
        );
        table.insert(
            Instruction {
                opcode: 0x0E,
                mnemonic: "LD C,d8",
                length: 2,
                cycles: 8,
                effect: Effect::LoadImm8 { reg: Reg8::C },
            },
        );
        table.insert(
            Instruction {
                opcode: 0x10,
                mnemonic: "STOP 0",
                length: 2,
                cycles: 4,
                effect: Effect::SkipOperand,
            },
        );
        table.insert(
            Instruction {
                opcode: 0x20,
                mnemonic: "JR NZ,r8",
                length: 2,
                cycles: 8,
                effect: Effect::JumpRelIfNotZero,
            },
        );
        table.insert(
            Instruction {
                opcode: 0x21,
                mnemonic: "LD HL,d16",
                length: 3,
                cycles: 12,
                effect: Effect::LoadHlImm16,
            },
        );
        table.insert(
            Instruction {
                opcode: 0x2F,
                mnemonic: "CPL",
                length: 1,
                cycles: 4,
                effect: Effect::Complement,
            },
        );
        table.insert(
            Instruction {
                opcode: 0x32,
                mnemonic: "LD (HL-),A",
                length: 1,
                cycles: 8,
                effect: Effect::StoreAHlDec,
            },
        );
        table.insert(
            Instruction {
                opcode: 0x3E,
                mnemonic: "LD A,d8",
                length: 2,
                cycles: 8,
                effect: Effect::LoadImm8 { reg: Reg8::A },
            },
        );
        table.insert(
            Instruction {
                opcode: 0x60,
                mnemonic: "LD H,B",
                length: 1,
                cycles: 4,
                effect: Effect::CopyReg { dst: Reg8::H, src: Reg8::B },
            },
        );
        table.insert(
            Instruction {
                opcode: 0xAF,
                mnemonic: "XOR A, A",
                length: 1,
                cycles: 4,
                effect: Effect::XorWithA { reg: Reg8::A },
            },
        );
        table.insert(
            Instruction {
                opcode: 0xC3,
                mnemonic: "JP a16",
                length: 3,
                cycles: 16,
                effect: Effect::JumpImm16,
            },
        );
        proof {
            assert forall|op: u8|
                match spec_instr(op) {
                    Some(desc) => #[trigger] table.entries@[op as int] is Some
                        && table.entries@[op as int]->Some_0.matches_spec(desc),
                    None => table.entries@[op as int] is None,
                } by {
                if spec_instr(op) is Some {
                    assert(table.entries@[op as int] is Some);
                }
            }
        }
        table
    }

    /// Looks the opcode up; yields its descriptor, or nothing when the
    /// opcode is not implemented.
    pub fn lookup(&self, opcode: u8) -> (entry: Option<Instruction>)
        requires
            self.wf(),
        ensures
            match entry {
                Some(instr) => spec_instr(opcode) is Some && instr.matches_spec(
                    spec_instr(opcode)->Some_0,
                ),
                None => spec_instr(opcode) is None,
            },
    {
        self.entries[opcode as usize]
    }
}

/// The execution engine: one register file, one cartridge, and the
/// instruction table built at start-up.
pub struct Cpu {
    pub registers: Registers,
    pub cartdrige: Cartdrige,
    pub table: InstructionTable,
}

impl Cpu {
    /// The engine's table still agrees with the ground truth.
    pub closed spec fn wf(&self) -> bool {
        self.table.wf()
    }

    /// Builds an engine over the given cartridge, with the register file at
    /// its power-up values and the instruction table freshly built.
    pub fn new(cartdrige: Cartdrige) -> (cpu: Cpu)
        ensures
            cpu.wf(),
            cpu.registers@ == power_up_registers(),
            cpu.cartdrige == cartdrige,
    {
        Cpu {
            registers: Registers {
                a: 0x01,
                f: Flags::new(true, false, false, false),
                b: 0x00,
                c: 0x13,
                d: 0x00,
                e: 0xD8,
                h: 0x01,
                l: 0x4D,
                sp: StackPointer(0xFFFE),
                pc: ProgramCounter(0x0100),
            },
            cartdrige,
            table: InstructionTable::new(),
        }
    }

    /// Reads the byte at the program counter and advances the counter past
    /// it.
    fn fetch(&mut self) -> (value: u8)
        requires
            old(self).registers.pc.0 < old(self).cartdrige@.len(),
            old(self).registers.pc.0 < 0xFFFF,
        ensures
            value == old(self).cartdrige@[old(self).registers@.pc as int],
            final(self).registers@ == advance_pc(old(self).registers@, 1),
            final(self).cartdrige == old(self).cartdrige,
            final(self).table == old(self).table,
    {
        let value = self.cartdrige.read(self.registers.pc.value());
        self.registers.pc.increment();
        value
    }

    /// Reads the little-endian word at the program counter and advances the
    /// counter past both bytes.
    fn fetch_word(&mut self) -> (value: u16)
        requires
            old(self).registers.pc.0 + 2 <= old(self).cartdrige@.len(),
            old(self).registers.pc.0 + 2 <= 0xFFFF,
        ensures
            value == word_at(old(self).cartdrige@, old(self).registers@.pc as int),
            final(self).registers@ == advance_pc(old(self).registers@, 2),
            final(self).cartdrige == old(self).cartdrige,
            final(self).table == old(self).table,
    {
        let lo = self.fetch();
        let hi = self.fetch();
        (hi as u16) * 0x100 + (lo as u16)
    }

    /// Decrements a value modulo 256 and writes the flags the ALU owes: ZERO
    /// from the result, SUBTRACTION set, HALFCARRY from the borrow out of
    /// bit 3, CARRY untouched.
    fn alu_dec(&mut self, value: u8) -> (result: u8)
        ensures
            result == dec_u8(value),
            final(self).registers@ == (RegsModel {
                f: dec_flags(old(self).registers@.f, value),
                ..old(self).registers@
            }),
            final(self).cartdrige == old(self).cartdrige,
            final(self).table == old(self).table,
    {
        let result = value.wrapping_sub(1);
        self.registers.f.set(Flag::Zero, result == 0);
        self.registers.f.set(Flag::Subtraction, true);
        self.registers.f.set(Flag::HalfCarry, (value & 0x0F) == 0x00);
        result
    }

    /// A step can run from the current state: the whole instruction at the
    /// program counter lies inside the image and within the counter's range.
    pub fn can_step(&self) -> (enabled: bool)
        requires
            self.wf(),
        ensures
            enabled == step_enabled(self.registers@, self.cartdrige@),
    {
        let pc = self.registers.pc.value();
        let len = self.cartdrige.len();
        if (pc as usize) >= len {
            return false;
        }
        let op = self.cartdrige.read(pc);
        let instr_len: usize = match self.table.lookup(op) {
            Some(instr) => instr.length as usize,
            None => 1,
        };
        (pc as usize) + instr_len <= len && (pc as usize) + instr_len <= 0xFFFF
    }

    /// One fetch-decode-execute transition. Fetches the opcode at the
    /// program counter, looks it up, and applies its effect; the returned
    /// descriptor reports what ran. An opcode missing from the table, or a
    /// write against read-only memory, stops the step with the error
    /// instead.
    pub fn step(&mut self) -> (outcome: Result<Instruction, ExecutionError>)
        requires
            old(self).wf(),
            step_enabled(old(self).registers@, old(self).cartdrige@),
        ensures
            final(self).wf(),
            final(self).cartdrige@ == old(self).cartdrige@,
            final(self).registers@ == spec_step(old(self).registers@, old(self).cartdrige@).0,
            (match outcome {
                Ok(instr) => {
                    let ran = spec_step(old(self).registers@, old(self).cartdrige@).1;
                    ran is Ok && spec_instr(ran->Ok_0) is Some && instr.matches_spec(
                        spec_instr(ran->Ok_0)->Some_0,
                    )
                },
                Err(e) => spec_step(old(self).registers@, old(self).cartdrige@).1 == Err::<
                    u8,
                    ExecutionError,
                >(e),
            }),
    {
        let opcode = self.fetch();
        let looked_up = self.table.lookup(opcode);
        match looked_up {
            None => Err(ExecutionError::UnknownOpcode(opcode)),
            Some(instr) => {
                match instr.effect {
                    Effect::Nop => Ok(instr),
                    Effect::SkipOperand => {
                        let _ = self.fetch();
                        Ok(instr)
                    },
                    Effect::JumpRelIfNotZero => {
                        let displacement = self.fetch();
                        if !self.registers.f.contains(Flag::Zero) {
                            let pc_now = self.registers.pc.value();
                            let target: u16 = if displacement < 0x80 {
                                pc_now.wrapping_add(displacement as u16)
                            } else {
                                pc_now.wrapping_sub(0x100 - (displacement as u16))
                            };
                            self.registers.pc = ProgramCounter(target);
                        }
                        Ok(instr)
                    },
                    Effect::CopyReg { dst, src } => {
                        let v = self.registers.get8(src);
                        self.registers.set8(dst, v);
                        Ok(instr)
                    },
                    Effect::DecReg { reg } => {
                        let original = self.registers.get8(reg);
                        let result = self.alu_dec(original);
                        self.registers.set8(reg, result);
                        Ok(instr)
                    },
                    Effect::LoadImm8 { reg } => {
                        let v = self.fetch();
                        self.registers.set8(reg, v);
                        Ok(instr)
                    },
                    Effect::LoadHlImm16 => {
                        let word = self.fetch_word();
                        let ghost hi: u8 = old(self).cartdrige@[old(self).registers@.pc + 2];
                        let ghost lo: u8 = old(self).cartdrige@[old(self).registers@.pc + 1];
                        proof {
                            assert(word >> 8 == hi as u16 && word & 0xFF == lo as u16)
                                by (bit_vector)
                                requires
                                    word == (hi as u16) * 0x100 + (lo as u16),
                            ;
                        }
                        self.registers.h = (word >> 8) as u8;
                        self.registers.l = (word & 0xFF) as u8;
                        Ok(instr)
                    },
                    Effect::Complement => {
                        self.registers.a = !self.registers.a;
                        self.registers.f.set(Flag::Subtraction, true);
                        self.registers.f.set(Flag::HalfCarry, true);
                        Ok(instr)
                    },
                    Effect::StoreAHlDec => {
                        let hl = (self.registers.h as u16) * 0x100 + (self.registers.l as u16);
                        let a = self.registers.a;
                        match self.cartdrige.set(hl, a) {
                            Err(e) => Err(e),
                            Ok(()) => {
                                let next_hl = hl.wrapping_sub(1);
                                self.registers.h = (next_hl >> 8) as u8;
                                self.registers.l = (next_hl & 0xFF) as u8;
                                Ok(instr)
                            },
                        }
                    },
                    Effect::XorWithA { reg } => {
                        let v = self.registers.get8(reg);
                        let result = self.registers.a ^ v;
                        self.registers.a = result;
                        self.registers.f.set(Flag::Zero, result == 0);
                        self.registers.f.set(Flag::Subtraction, false);
                        self.registers.f.set(Flag::HalfCarry, false);
                        self.registers.f.set(Flag::Carry, false);
                        Ok(instr)
                    },
                    Effect::JumpImm16 => {
                        let word = self.fetch_word();
                        self.registers.pc = ProgramCounter(word);
                        Ok(instr)
                    },
                }
            },
        }
    }
}

/// A NOP step advances the program counter by one byte and leaves every
/// other register and flag unchanged.
pub proof fn lemma_nop_step(r: RegsModel, rom: Seq<u8>)
    requires
        step_enabled(r, rom),
        rom[r.pc as int] == 0x00,
    ensures
        spec_step(r, rom).0 == (RegsModel { pc: (r.pc + 1) as u16, ..r }),
        spec_step(r, rom).1 == Ok::<u8, ExecutionError>(0x00),
{
}

/// An unconditional jump loads the program counter with its little-endian
/// operand word and changes no other register.
pub proof fn lemma_jump_step(r: RegsModel, rom: Seq<u8>)
    requires
        step_enabled(r, rom),
        rom[r.pc as int] == 0xC3,
    ensures
        spec_step(r, rom).0 == (RegsModel {
            pc: (rom[r.pc + 2] * 0x100 + rom[r.pc + 1]) as u16,
            ..r
        }),
        spec_step(r, rom).1 == Ok::<u8, ExecutionError>(0xC3),
{
}

/// XOR of the accumulator with itself clears the accumulator, leaves
/// exactly the ZERO flag set, and advances the program counter by one.
pub proof fn lemma_xor_a_a_step(r: RegsModel, rom: Seq<u8>)
    requires
        step_enabled(r, rom),
        rom[r.pc as int] == 0xAF,
    ensures
        spec_step(r, rom).0 == (RegsModel {
            a: 0,
            f: FlagsModel { zero: true, subtraction: false, half_carry: false, carry: false },
            pc: (r.pc + 1) as u16,
            ..r
        }),
        spec_step(r, rom).1 == Ok::<u8, ExecutionError>(0xAF),
{
    let a = r.a;
    assert(a ^ a == 0) by (bit_vector);
}

/// Loading a 16-bit immediate into h·l puts the second operand byte in h,
/// the first in l, and advances the program counter past all three bytes.
pub proof fn lemma_ld_hl_step(r: RegsModel, rom: Seq<u8>)
    requires
        step_enabled(r, rom),
        rom[r.pc as int] == 0x21,
    ensures
        spec_step(r, rom).0 == (RegsModel {
            h: rom[r.pc + 2],
            l: rom[r.pc + 1],
            pc: (r.pc + 3) as u16,
            ..r
        }),
        spec_step(r, rom).1 == Ok::<u8, ExecutionError>(0x21),
{
}

/// A conditional relative jump consumes its displacement either way: with
/// ZERO set the counter just advances past the instruction; with ZERO clear
/// the sign-extended displacement is added on top.
pub proof fn lemma_jr_nz_step(r: RegsModel, rom: Seq<u8>)
    requires
        step_enabled(r, rom),
        rom[r.pc as int] == 0x20,
    ensures
        r.f.zero ==> spec_step(r, rom).0 == (RegsModel { pc: (r.pc + 2) as u16, ..r }),
        !r.f.zero ==> spec_step(r, rom).0 == (RegsModel {
            pc: wrap_u16(r.pc + 2 + sign_extend(rom[r.pc + 1])),
            ..r
        }),
        spec_step(r, rom).1 == Ok::<u8, ExecutionError>(0x20),
{
}

} // verus!
