//! The architectural registers and their grouping into families.
use vstd::prelude::*;

use crate::inst::SizedOperand;
use crate::modrm::Arch;
use crate::opcode::OpSize;

verus! {

#[derive(Debug, Clone, Copy, PartialEq, Eq, Structural)]
pub enum Reg {
    AL,
    AX,
    EAX,
    MM0,
    XMM0,
    CL,
    CX,
    ECX,
    MM1,
    XMM1,
    DL,
    DX,
    EDX,
    MM2,
    XMM2,
    BL,
    BX,
    EBX,
    MM3,
    XMM3,
    AH,
    SP,
    ESP,
    MM4,
    XMM4,
    CH,
    BP,
    EBP,
    MM5,
    XMM5,
    DH,
    SI,
    ESI,
    MM6,
    XMM6,
    BH,
    DI,
    EDI,
    MM7,
    XMM7,
    RAX,
    RCX,
    RDX,
    RBX,
    RSP,
    RBP,
    RSI,
    RDI,
    R8,
    R9,
    R10,
    R11,
    R12,
    R13,
    R14,
    R15,
    R8b,
    R9b,
    R10b,
    R11b,
    R12b,
    R13b,
    R14b,
    R15b,
    R8w,
    R9w,
    R10w,
    R11w,
    R12w,
    R13w,
    R14w,
    R15w,
    R8d,
    R9d,
    R10d,
    R11d,
    R12d,
    R13d,
    R14d,
    R15d,
    SIL,
    DIL,
    SPL,
    BPL,
}

/// The segment registers.
#[derive(Debug, Clone, Copy, PartialEq, Eq, Structural)]
pub enum SegmentRegister {
    ES,
    CS,
    SS,
    DS,
    FS,
    GS,
}

/// A general-purpose register regardless of its width. Every general-purpose register belongs
/// to exactly one family.
#[derive(Debug, Clone, Copy, PartialEq, Eq, Structural)]
pub enum RegFamily {
    Accumulator,
    Counter,
    Data,
    Base,
    StackPointer,
    BasePointer,
    Source,
    Destination,
    R8,
    R9,
    R10,
    R11,
    R12,
    R13,
    R14,
    R15,
}

/// The members of a family: low byte, high byte (only the four legacy families have one),
/// word, doubleword and quadword.
pub open spec fn family_members(f: RegFamily) -> (Reg, Option<Reg>, Reg, Reg, Reg) {
    match f {
        RegFamily::Accumulator => (Reg::AL, Some(Reg::AH), Reg::AX, Reg::EAX, Reg::RAX),
        RegFamily::Counter => (Reg::CL, Some(Reg::CH), Reg::CX, Reg::ECX, Reg::RCX),
        RegFamily::Data => (Reg::DL, Some(Reg::DH), Reg::DX, Reg::EDX, Reg::RDX),
        RegFamily::Base => (Reg::BL, Some(Reg::BH), Reg::BX, Reg::EBX, Reg::RBX),
        RegFamily::StackPointer => (Reg::SPL, None, Reg::SP, Reg::ESP, Reg::RSP),
        RegFamily::BasePointer => (Reg::BPL, None, Reg::BP, Reg::EBP, Reg::RBP),
        RegFamily::Source => (Reg::SIL, None, Reg::SI, Reg::ESI, Reg::RSI),
        RegFamily::Destination => (Reg::DIL, None, Reg::DI, Reg::EDI, Reg::RDI),
        RegFamily::R8 => (Reg::R8b, None, Reg::R8w, Reg::R8d, Reg::R8),
        RegFamily::R9 => (Reg::R9b, None, Reg::R9w, Reg::R9d, Reg::R9),
        RegFamily::R10 => (Reg::R10b, None, Reg::R10w, Reg::R10d, Reg::R10),
        RegFamily::R11 => (Reg::R11b, None, Reg::R11w, Reg::R11d, Reg::R11),
        RegFamily::R12 => (Reg::R12b, None, Reg::R12w, Reg::R12d, Reg::R12),
        RegFamily::R13 => (Reg::R13b, None, Reg::R13w, Reg::R13d, Reg::R13),
        RegFamily::R14 => (Reg::R14b, None, Reg::R14w, Reg::R14d, Reg::R14),
        RegFamily::R15 => (Reg::R15b, None, Reg::R15w, Reg::R15d, Reg::R15),
    }
}

/// The member of family `f` for operand size `s`. Sizes without a member of their own (the
/// signed sizes and the mode-derived size) take the doubleword member.
pub open spec fn family_reg(f: RegFamily, s: OpSize) -> Reg {
    let m = family_members(f);
    match s {
        OpSize::U8 => m.0,
        OpSize::U16 => m.2,
        OpSize::U32 => m.3,
        OpSize::U64 => m.4,
        _ => m.3,
    }
}

/// The family that register `r` belongs to; `None` for the MMX and XMM registers.
pub open spec fn family_of(r: Reg) -> Option<RegFamily> {
    match r {
        Reg::AL | Reg::AH | Reg::AX | Reg::EAX | Reg::RAX => Some(RegFamily::Accumulator),
        Reg::CL | Reg::CH | Reg::CX | Reg::ECX | Reg::RCX => Some(RegFamily::Counter),
        Reg::DL | Reg::DH | Reg::DX | Reg::EDX | Reg::RDX => Some(RegFamily::Data),
        Reg::BL | Reg::BH | Reg::BX | Reg::EBX | Reg::RBX => Some(RegFamily::Base),
        Reg::SPL | Reg::SP | Reg::ESP | Reg::RSP => Some(RegFamily::StackPointer),
        Reg::BPL | Reg::BP | Reg::EBP | Reg::RBP => Some(RegFamily::BasePointer),
        Reg::SIL | Reg::SI | Reg::ESI | Reg::RSI => Some(RegFamily::Source),
        Reg::DIL | Reg::DI | Reg::EDI | Reg::RDI => Some(RegFamily::Destination),
        Reg::R8b | Reg::R8w | Reg::R8d | Reg::R8 => Some(RegFamily::R8),
        Reg::R9b | Reg::R9w | Reg::R9d | Reg::R9 => Some(RegFamily::R9),
        Reg::R10b | Reg::R10w | Reg::R10d | Reg::R10 => Some(RegFamily::R10),
        Reg::R11b | Reg::R11w | Reg::R11d | Reg::R11 => Some(RegFamily::R11),
        Reg::R12b | Reg::R12w | Reg::R12d | Reg::R12 => Some(RegFamily::R12),
        Reg::R13b | Reg::R13w | Reg::R13d | Reg::R13 => Some(RegFamily::R13),
        Reg::R14b | Reg::R14w | Reg::R14d | Reg::R14 => Some(RegFamily::R14),
        Reg::R15b | Reg::R15w | Reg::R15d | Reg::R15 => Some(RegFamily::R15),
        _ => None,
    }
}

/// Whether `r` is a general-purpose register.
pub open spec fn is_gpr(r: Reg) -> bool {
    family_of(r) is Some
}

/// The width of register `r`; the mode-derived size for registers outside the general-purpose
/// families.
pub open spec fn reg_size(r: Reg) -> OpSize {
    match family_of(r) {
        Some(f) => {
            let m = family_members(f);
            if r == m.0 || Some(r) == m.1 {
                OpSize::U8
            } else if r == m.2 {
                OpSize::U16
            } else if r == m.3 {
                OpSize::U32
            } else {
                OpSize::U64
            }
        },
        None => OpSize::CpuMode,
    }
}

/// The 16-bit register that a 3-bit register number selects.
pub open spec fn rm16_reg(value: u8) -> Reg {
    let v = value & 0b111;
    if v == 0 { Reg::AX }
    else if v == 1 { Reg::CX }
    else if v == 2 { Reg::DX }
    else if v == 3 { Reg::BX }
    else if v == 4 { Reg::SP }
    else if v == 5 { Reg::BP }
    else if v == 6 { Reg::SI }
    else { Reg::DI }
}

/// The 32-bit register that a 3-bit register number selects.
pub open spec fn rm32_reg(value: u8) -> Reg {
    let v = value & 0b111;
    if v == 0 { Reg::EAX }
    else if v == 1 { Reg::ECX }
    else if v == 2 { Reg::EDX }
    else if v == 3 { Reg::EBX }
    else if v == 4 { Reg::ESP }
    else if v == 5 { Reg::EBP }
    else if v == 6 { Reg::ESI }
    else { Reg::EDI }
}

/// The 64-bit register that a 4-bit register number selects.
pub open spec fn rm64_reg(value: u8) -> Reg {
    let v = value & 0b1111;
    if v == 0 { Reg::RAX }
    else if v == 1 { Reg::RCX }
    else if v == 2 { Reg::RDX }
    else if v == 3 { Reg::RBX }
    else if v == 4 { Reg::RSP }
    else if v == 5 { Reg::RBP }
    else if v == 6 { Reg::RSI }
    else if v == 7 { Reg::RDI }
    else if v == 8 { Reg::R8 }
    else if v == 9 { Reg::R9 }
    else if v == 10 { Reg::R10 }
    else if v == 11 { Reg::R11 }
    else if v == 12 { Reg::R12 }
    else if v == 13 { Reg::R13 }
    else if v == 14 { Reg::R14 }
    else { Reg::R15 }
}

/// The register that a register number selects under `arch` (64-bit when no mode is given).
pub open spec fn arch_reg(value: u8, maybe_arch: Option<Arch>) -> Reg {
    match maybe_arch {
        Some(Arch::Arch16) => rm16_reg(value),
        Some(Arch::Arch32) => rm32_reg(value),
        _ => rm64_reg(value),
    }
}

impl RegFamily {
    /// The members of this family, as `family_members` lists them.
    pub fn members(&self) -> (r: (Reg, Option<Reg>, Reg, Reg, Reg))
        ensures
            r == family_members(*self),
    {
        match self {
            RegFamily::Accumulator => (Reg::AL, Some(Reg::AH), Reg::AX, Reg::EAX, Reg::RAX),
            RegFamily::Counter => (Reg::CL, Some(Reg::CH), Reg::CX, Reg::ECX, Reg::RCX),
            RegFamily::Data => (Reg::DL, Some(Reg::DH), Reg::DX, Reg::EDX, Reg::RDX),
            RegFamily::Base => (Reg::BL, Some(Reg::BH), Reg::BX, Reg::EBX, Reg::RBX),
            RegFamily::StackPointer => (Reg::SPL, None, Reg::SP, Reg::ESP, Reg::RSP),
            RegFamily::BasePointer => (Reg::BPL, None, Reg::BP, Reg::EBP, Reg::RBP),
            RegFamily::Source => (Reg::SIL, None, Reg::SI, Reg::ESI, Reg::RSI),
            RegFamily::Destination => (Reg::DIL, None, Reg::DI, Reg::EDI, Reg::RDI),
            RegFamily::R8 => (Reg::R8b, None, Reg::R8w, Reg::R8d, Reg::R8),
            RegFamily::R9 => (Reg::R9b, None, Reg::R9w, Reg::R9d, Reg::R9),
            RegFamily::R10 => (Reg::R10b, None, Reg::R10w, Reg::R10d, Reg::R10),
            RegFamily::R11 => (Reg::R11b, None, Reg::R11w, Reg::R11d, Reg::R11),
            RegFamily::R12 => (Reg::R12b, None, Reg::R12w, Reg::R12d, Reg::R12),
            RegFamily::R13 => (Reg::R13b, None, Reg::R13w, Reg::R13d, Reg::R13),
            RegFamily::R14 => (Reg::R14b, None, Reg::R14w, Reg::R14d, Reg::R14),
            RegFamily::R15 => (Reg::R15b, None, Reg::R15w, Reg::R15d, Reg::R15),
        }
    }

    /// The member of this family for operand size `op_size`.
    pub fn reg_from(&self, op_size: &OpSize) -> (r: Reg)
        ensures
            r == family_reg(*self, *op_size),
    {
        let m = self.members();
        match op_size {
            OpSize::U8 => m.0,
            OpSize::U16 => m.2,
            OpSize::U32 => m.3,
            OpSize::U64 => m.4,
            _ => m.3,
        }
    }
}

/// A register family seen as a type: each implementor stands for one family.
pub trait Gpr {
    spec fn spec_family() -> RegFamily;

    fn family() -> (r: RegFamily)
        ensures
            r == Self::spec_family(),
    ;

    /// The member of this family for operand size `op_size`.
    fn from_opsize(op_size: &OpSize) -> (r: Reg)
        ensures
            r == family_reg(Self::spec_family(), *op_size),
    {
        Self::family().reg_from(op_size)
    }
}

#[derive(Debug, Clone, Copy, PartialEq, Eq)]
pub struct Accumulator;

impl Gpr for Accumulator {
    open spec fn spec_family() -> RegFamily {
        RegFamily::Accumulator
    }

    fn family() -> (r: RegFamily) {
        RegFamily::Accumulator
    }
}

#[derive(Debug, Clone, Copy, PartialEq, Eq)]
pub struct Counter;

impl Gpr for Counter {
    open spec fn spec_family() -> RegFamily {
        RegFamily::Counter
    }

    fn family() -> (r: RegFamily) {
        RegFamily::Counter
    }
}

#[derive(Debug, Clone, Copy, PartialEq, Eq)]
pub struct Data;

impl Gpr for Data {
    open spec fn spec_family() -> RegFamily {
        RegFamily::Data
    }

    fn family() -> (r: RegFamily) {
        RegFamily::Data
    }
}

#[derive(Debug, Clone, Copy, PartialEq, Eq)]
pub struct Base;

impl Gpr for Base {
    open spec fn spec_family() -> RegFamily {
        RegFamily::Base
    }

    fn family() -> (r: RegFamily) {
        RegFamily::Base
    }
}

#[derive(Debug, Clone, Copy, PartialEq, Eq)]
pub struct StackPointer;

impl Gpr for StackPointer {
    open spec fn spec_family() -> RegFamily {
        RegFamily::StackPointer
    }

    fn family() -> (r: RegFamily) {
        RegFamily::StackPointer
    }
}

#[derive(Debug, Clone, Copy, PartialEq, Eq)]
pub struct BasePointer;

impl Gpr for BasePointer {
    open spec fn spec_family() -> RegFamily {
        RegFamily::BasePointer
    }

    fn family() -> (r: RegFamily) {
        RegFamily::BasePointer
    }
}

#[derive(Debug, Clone, Copy, PartialEq, Eq)]
pub struct Source;

impl Gpr for Source {
    open spec fn spec_family() -> RegFamily {
        RegFamily::Source
    }

    fn family() -> (r: RegFamily) {
        RegFamily::Source
    }
}

#[derive(Debug, Clone, Copy, PartialEq, Eq)]
pub struct Destination;

impl Gpr for Destination {
    open spec fn spec_family() -> RegFamily {
        RegFamily::Destination
    }

    fn family() -> (r: RegFamily) {
        RegFamily::Destination
    }
}

#[derive(Debug, Clone, Copy, PartialEq, Eq)]
pub struct R8Reg;

impl Gpr for R8Reg {
    open spec fn spec_family() -> RegFamily {
        RegFamily::R8
    }

    fn family() -> (r: RegFamily) {
        RegFamily::R8
    }
}

#[derive(Debug, Clone, Copy, PartialEq, Eq)]
pub struct R9Reg;

impl Gpr for R9Reg {
    open spec fn spec_family() -> RegFamily {
        RegFamily::R9
    }

    fn family() -> (r: RegFamily) {
        RegFamily::R9
    }
}

#[derive(Debug, Clone, Copy, PartialEq, Eq)]
pub struct R10Reg;

impl Gpr for R10Reg {
    open spec fn spec_family() -> RegFamily {
        RegFamily::R10
    }

    fn family() -> (r: RegFamily) {
        RegFamily::R10
    }
}

#[derive(Debug, Clone, Copy, PartialEq, Eq)]
pub struct R11Reg;

impl Gpr for R11Reg {
    open spec fn spec_family() -> RegFamily {
        RegFamily::R11
    }

    fn family() -> (r: RegFamily) {
        RegFamily::R11
    }
}

#[derive(Debug, Clone, Copy, PartialEq, Eq)]
pub struct R12Reg;

impl Gpr for R12Reg {
    open spec fn spec_family() -> RegFamily {
        RegFamily::R12
    }

    fn family() -> (r: RegFamily) {
        RegFamily::R12
    }
}

#[derive(Debug, Clone, Copy, PartialEq, Eq)]
pub struct R13Reg;

impl Gpr for R13Reg {
    open spec fn spec_family() -> RegFamily {
        RegFamily::R13
    }

    fn family() -> (r: RegFamily) {
        RegFamily::R13
    }
}

#[derive(Debug, Clone, Copy, PartialEq, Eq)]
pub struct R14Reg;

impl Gpr for R14Reg {
    open spec fn spec_family() -> RegFamily {
        RegFamily::R14
    }

    fn family() -> (r: RegFamily) {
        RegFamily::R14
    }
}

#[derive(Debug, Clone, Copy, PartialEq, Eq)]
pub struct R15Reg;

impl Gpr for R15Reg {
    open spec fn spec_family() -> RegFamily {
        RegFamily::R15
    }

    fn family() -> (r: RegFamily) {
        RegFamily::R15
    }
}

impl SizedOperand for Reg {
    open spec fn spec_size(&self) -> OpSize {
        reg_size(*self)
    }

    fn size(&self) -> (r: OpSize) {
        match self.family() {
            Some(f) => {
                let m = f.members();
                if *self == m.0 || Some(*self) == m.1 {
                    OpSize::U8
                } else if *self == m.2 {
                    OpSize::U16
                } else if *self == m.3 {
                    OpSize::U32
                } else {
                    OpSize::U64
                }
            },
            None => OpSize::CpuMode,
        }
    }
}

impl Reg {
    /// The family this register belongs to; `None` for the MMX and XMM registers.
    pub fn family(&self) -> (r: Option<RegFamily>)
        ensures
            r == family_of(*self),
    {
        match self {
            Reg::AL | Reg::AH | Reg::AX | Reg::EAX | Reg::RAX => Some(RegFamily::Accumulator),
            Reg::CL | Reg::CH | Reg::CX | Reg::ECX | Reg::RCX => Some(RegFamily::Counter),
            Reg::DL | Reg::DH | Reg::DX | Reg::EDX | Reg::RDX => Some(RegFamily::Data),
            Reg::BL | Reg::BH | Reg::BX | Reg::EBX | Reg::RBX => Some(RegFamily::Base),
            Reg::SPL | Reg::SP | Reg::ESP | Reg::RSP => Some(RegFamily::StackPointer),
            Reg::BPL | Reg::BP | Reg::EBP | Reg::RBP => Some(RegFamily::BasePointer),
            Reg::SIL | Reg::SI | Reg::ESI | Reg::RSI => Some(RegFamily::Source),
            Reg::DIL | Reg::DI | Reg::EDI | Reg::RDI => Some(RegFamily::Destination),
            Reg::R8b | Reg::R8w | Reg::R8d | Reg::R8 => Some(RegFamily::R8),
            Reg::R9b | Reg::R9w | Reg::R9d | Reg::R9 => Some(RegFamily::R9),
            Reg::R10b | Reg::R10w | Reg::R10d | Reg::R10 => Some(RegFamily::R10),
            Reg::R11b | Reg::R11w | Reg::R11d | Reg::R11 => Some(RegFamily::R11),
            Reg::R12b | Reg::R12w | Reg::R12d | Reg::R12 => Some(RegFamily::R12),
            Reg::R13b | Reg::R13w | Reg::R13d | Reg::R13 => Some(RegFamily::R13),
            Reg::R14b | Reg::R14w | Reg::R14d | Reg::R14 => Some(RegFamily::R14),
            Reg::R15b | Reg::R15w | Reg::R15d | Reg::R15 => Some(RegFamily::R15),
            _ => None,
        }
    }

    /// The register of the same family at operand size `op_size` (AL at `U32` is EAX).
    pub fn convert_with_opsize(self, op_size: &OpSize) -> (r: Reg)
        requires
            is_gpr(self),
        ensures
            r == family_reg(family_of(self).unwrap(), *op_size),
            is_gpr(r),
    {
        let f = self.family().unwrap();
        f.reg_from(op_size)
    }

    /// The word register that `value` selects in r/m16 form; only the low three bits count.
    pub fn from_rm16(value: u8) -> (r: Self)
        ensures
            r == rm16_reg(value),
    {
        let value = value & 0b111;
        match value {
            0 => Self::AX,
            1 => Self::CX,
            2 => Self::DX,
            3 => Self::BX,
            4 => Self::SP,
            5 => Self::BP,
            6 => Self::SI,
            _ => Self::DI,
        }
    }

    /// The doubleword register that `value` selects in r/m32 form; only the low three bits count.
    pub fn from_rm32(value: u8) -> (r: Self)
        ensures
            r == rm32_reg(value),
    {
        let value = value & 0b111;
        match value {
            0 => Self::EAX,
            1 => Self::ECX,
            2 => Self::EDX,
            3 => Self::EBX,
            4 => Self::ESP,
            5 => Self::EBP,
            6 => Self::ESI,
            _ => Self::EDI,
        }
    }

    /// The quadword register that `value` selects in r/m64 form; the low four bits count, the
    /// fourth one coming from a REX extension.
    pub fn from_rm64(value: u8) -> (r: Self)
        ensures
            r == rm64_reg(value),
    {
        let value = value & 0b1111;
        match value {
            0 => Self::RAX,
            1 => Self::RCX,
            2 => Self::RDX,
            3 => Self::RBX,
            4 => Self::RSP,
            5 => Self::RBP,
            6 => Self::RSI,
            7 => Self::RDI,
            8 => Self::R8,
            9 => Self::R9,
            10 => Self::R10,
            11 => Self::R11,
            12 => Self::R12,
            13 => Self::R13,
            14 => Self::R14,
            _ => Self::R15,
        }
    }

    /// The register that `value` selects under `maybe_arch`, 64-bit mode when none is given.
    pub fn from_byte_with_arch(value: u8, maybe_arch: Option<Arch>) -> (r: Self)
        ensures
            r == arch_reg(value, maybe_arch),
    {
        let arch = match maybe_arch {
            Some(arch) => arch,
            None => Arch::Arch64,
        };
        match arch {
            Arch::Arch16 => Self::from_rm16(value),
            Arch::Arch32 => Self::from_rm32(value),
            Arch::Arch64 => Self::from_rm64(value),
        }
    }
}

} // verus!
