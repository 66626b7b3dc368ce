//! Processor-visible state: eight 8-bit registers, the packed flag register,
//! the stack pointer and the program counter.

use vstd::prelude::*;

verus! {

/// The four status bits of the flag register, as mathematical values.
pub ghost struct FlagsModel {
    pub zero: bool,
    pub subtraction: bool,
    pub half_carry: bool,
    pub carry: bool,
}

/// Names one of the four status bits.
#[derive(Copy, Clone, Debug, PartialEq, Eq, Structural)]
pub enum Flag {
    Zero,
    Subtraction,
    HalfCarry,
    Carry,
}

/// Reads the named bit of a flags model.
pub open spec fn flag_value(m: FlagsModel, flag: Flag) -> bool {
    match flag {
        Flag::Zero => m.zero,
        Flag::Subtraction => m.subtraction,
        Flag::HalfCarry => m.half_carry,
        Flag::Carry => m.carry,
    }
}

/// Replaces the named bit of a flags model, leaving the other three alone.
pub open spec fn flag_update(m: FlagsModel, flag: Flag, value: bool) -> FlagsModel {
    match flag {
        Flag::Zero => FlagsModel { zero: value, ..m },
        Flag::Subtraction => FlagsModel { subtraction: value, ..m },
        Flag::HalfCarry => FlagsModel { half_carry: value, ..m },
        Flag::Carry => FlagsModel { carry: value, ..m },
    }
}

/// The flag register: ZERO (bit 7), SUBTRACTION (bit 6), HALFCARRY (bit 5)
/// and CARRY (bit 4) packed into the high nibble of one byte; the low nibble
/// is always zero.
#[derive(Copy, Clone, Debug, PartialEq, Eq, Structural)]
pub struct Flags {
    bits: u8,
}

impl View for Flags {
    type V = FlagsModel;

    closed spec fn view(&self) -> FlagsModel {
        FlagsModel {
            zero: self.bits & 0x80 != 0,
            subtraction: self.bits & 0x40 != 0,
            half_carry: self.bits & 0x20 != 0,
            carry: self.bits & 0x10 != 0,
        }
    }
}

impl Flags {
    /// The packed byte keeps its low nibble clear.
    #[verifier::type_invariant]
    pub closed spec fn low_nibble_clear(self) -> bool {
        self.bits & 0x0F == 0
    }

    /// Builds a flag register holding exactly the four given bits.
    pub fn new(zero: bool, subtraction: bool, half_carry: bool, carry: bool) -> (flags: Flags)
        ensures
            flags@ == (FlagsModel { zero, subtraction, half_carry, carry }),
    {
        let zb: u8 = if zero { 0x80 } else { 0x00 };
        let sb: u8 = if subtraction { 0x40 } else { 0x00 };
        let hb: u8 = if half_carry { 0x20 } else { 0x00 };
        let cb: u8 = if carry { 0x10 } else { 0x00 };
        let bits: u8 = zb | sb | hb | cb;
        proof {
            assert(((zb | sb | hb | cb) & 0x80 != 0) == (zb == 0x80)
                && ((zb | sb | hb | cb) & 0x40 != 0) == (sb == 0x40)
                && ((zb | sb | hb | cb) & 0x20 != 0) == (hb == 0x20)
                && ((zb | sb | hb | cb) & 0x10 != 0) == (cb == 0x10)
                && (zb | sb | hb | cb) & 0x0F == 0) by (bit_vector)
                requires
                    zb == 0x80 || zb == 0x00,
                    sb == 0x40 || sb == 0x00,
                    hb == 0x20 || hb == 0x00,
                    cb == 0x10 || cb == 0x00,
            ;
        }
        Flags { bits }
    }

    /// Tests the named bit without disturbing anything.
    pub fn contains(&self, flag: Flag) -> (set: bool)
        ensures
            set == flag_value(self@, flag),
    {
        match flag {
            Flag::Zero => self.bits & 0x80 != 0,
            Flag::Subtraction => self.bits & 0x40 != 0,
            Flag::HalfCarry => self.bits & 0x20 != 0,
            Flag::Carry => self.bits & 0x10 != 0,
        }
    }

    /// Sets or clears the named bit, leaving the other three untouched.
    pub fn set(&mut self, flag: Flag, value: bool)
        ensures
            final(self)@ == flag_update(old(self)@, flag, value),
    {
        proof {
            use_type_invariant(&*self);
        }
        let mask: u8 = match flag {
            Flag::Zero => 0x80,
            Flag::Subtraction => 0x40,
            Flag::HalfCarry => 0x20,
            Flag::Carry => 0x10,
        };
        let ghost ob: u8 = self.bits;
        if value {
            let nb: u8 = self.bits | mask;
            proof {
                assert((nb & 0x80 != 0) == (mask == 0x80 || ob & 0x80 != 0)
                    && (nb & 0x40 != 0) == (mask == 0x40 || ob & 0x40 != 0)
                    && (nb & 0x20 != 0) == (mask == 0x20 || ob & 0x20 != 0)
                    && (nb & 0x10 != 0) == (mask == 0x10 || ob & 0x10 != 0)
                    && nb & 0x0F == 0) by (bit_vector)
                    requires
                        nb == ob | mask,
                        mask == 0x80 || mask == 0x40 || mask == 0x20 || mask == 0x10,
                        ob & 0x0F == 0,
                ;
            }
            self.bits = nb;
        } else {
            let nb: u8 = self.bits & !mask;
            proof {
                assert((nb & 0x80 != 0) == (mask != 0x80 && ob & 0x80 != 0)
                    && (nb & 0x40 != 0) == (mask != 0x40 && ob & 0x40 != 0)
                    && (nb & 0x20 != 0) == (mask != 0x20 && ob & 0x20 != 0)
                    && (nb & 0x10 != 0) == (mask != 0x10 && ob & 0x10 != 0)
                    && nb & 0x0F == 0) by (bit_vector)
                    requires
                        nb == ob & !mask,
                        mask == 0x80 || mask == 0x40 || mask == 0x20 || mask == 0x10,
                        ob & 0x0F == 0,
                ;
            }
            self.bits = nb;
        }
    }
}

/// Names one of the seven 8-bit registers.
#[derive(Copy, Clone, Debug, PartialEq, Eq, Structural)]
pub enum Reg8 {
    A,
    B,
    C,
    D,
    E,
    H,
    L,
}

/// The whole register file, as mathematical values.
pub ghost struct RegsModel {
    pub a: u8,
    pub f: FlagsModel,
    pub b: u8,
    pub c: u8,
    pub d: u8,
    pub e: u8,
    pub h: u8,
    pub l: u8,
    pub sp: u16,
    pub pc: u16,
}

/// Reads the named 8-bit register of a register-file model.
pub open spec fn reg8_get(r: RegsModel, reg: Reg8) -> u8 {
    match reg {
        Reg8::A => r.a,
        Reg8::B => r.b,
        Reg8::C => r.c,
        Reg8::D => r.d,
        Reg8::E => r.e,
        Reg8::H => r.h,
        Reg8::L => r.l,
    }
}

/// Replaces the named 8-bit register of a register-file model.
pub open spec fn reg8_set(r: RegsModel, reg: Reg8, v: u8) -> RegsModel {
    match reg {
        Reg8::A => RegsModel { a: v, ..r },
        Reg8::B => RegsModel { b: v, ..r },
        Reg8::C => RegsModel { c: v, ..r },
        Reg8::D => RegsModel { d: v, ..r },
        Reg8::E => RegsModel { e: v, ..r },
        Reg8::H => RegsModel { h: v, ..r },
        Reg8::L => RegsModel { l: v, ..r },
    }
}

/// The 16-bit stack pointer.
#[derive(Copy, Clone, Debug, PartialEq, Eq, Structural)]
pub struct StackPointer(pub u16);

/// The 16-bit program counter: the address of the next byte to fetch.
#[derive(Copy, Clone, Debug, PartialEq, Eq, Structural)]
pub struct ProgramCounter(pub u16);

impl ProgramCounter {
    /// The current address.
    pub fn value(&self) -> (v: u16)
        ensures
            v == self.0,
    {
        self.0
    }

    /// Moves one byte forward.
    pub fn increment(&mut self)
        requires
            old(self).0 < 0xFFFF,
        ensures
            final(self).0 == old(self).0 + 1,
    {
        self.0 = self.0 + 1;
    }
}

/// The register file: eight 8-bit registers (the flag register packed as one
/// byte), the stack pointer and the program counter. Register pairs are
/// computed views over the 8-bit halves, never stored separately.
#[derive(Copy, Clone, Debug, PartialEq, Eq, Structural)]
pub struct Registers {
    pub a: u8,
    pub f: Flags,
    pub b: u8,
    pub c: u8,
    pub d: u8,
    pub e: u8,
    pub h: u8,
    pub l: u8,
    pub sp: StackPointer,
    pub pc: ProgramCounter,
}

impl View for Registers {
    type V = RegsModel;

    open spec fn view(&self) -> RegsModel {
        RegsModel {
            a: self.a,
            f: self.f@,
            b: self.b,
            c: self.c,
            d: self.d,
            e: self.e,
            h: self.h,
            l: self.l,
            sp: self.sp.0,
            pc: self.pc.0,
        }
    }
}

impl Registers {
    /// Reads the named 8-bit register.
    pub fn get8(&self, reg: Reg8) -> (v: u8)
        ensures
            v == reg8_get(self@, reg),
    {
        match reg {
            Reg8::A => self.a,
            Reg8::B => self.b,
            Reg8::C => self.c,
            Reg8::D => self.d,
            Reg8::E => self.e,
            Reg8::H => self.h,
            Reg8::L => self.l,
        }
    }

    /// Writes the named 8-bit register, leaving everything else alone.
    pub fn set8(&mut self, reg: Reg8, v: u8)
        ensures
            final(self)@ == reg8_set(old(self)@, reg, v),
    {
        match reg {
            Reg8::A => self.a = v,
            Reg8::B => self.b = v,
            Reg8::C => self.c = v,
            Reg8::D => self.d = v,
            Reg8::E => self.e = v,
            Reg8::H => self.h = v,
            Reg8::L => self.l = v,
        }
    }
}

} // verus!
