//! Decoding of the ModR/M and SIB bytes into registers and effective addresses.
use vstd::prelude::*;

use crate::imm::DispArch;
use crate::inst::SizedOperand;
use crate::opcode::{addr_opsize, AddrSize, OpSize};
use crate::reg::{arch_reg, family_of, family_reg, is_gpr, reg_size, rm32_reg, rm64_reg, Reg};
use crate::rex::Rex;

verus! {

/// The CPU mode: selects default operand and address sizes and the register numbering.
#[derive(Debug, Clone, Copy, PartialEq, Eq, Structural)]
pub enum Arch {
    Arch16,
    Arch32,
    Arch64,
}

/// A decoded ModR/M byte: the register that its `reg` field selects (REX-extended in 64-bit
/// mode) and the addressing form of its `mod` and `r/m` fields.
///
/// The byte is made of `r/m` (bits 0 to 2), `reg` (bits 3 to 5) and `mod` (bits 6 and 7).
/// `mod` and `r/m` together give eight registers and 24 memory addressing forms.
#[derive(Debug, Clone, Copy, PartialEq, Eq, Structural)]
pub struct ModRM(pub Reg, pub Addressing);

/// The addressing form of a ModR/M byte, by CPU mode.
#[derive(Debug, Clone, Copy, PartialEq, Eq, Structural)]
pub enum Addressing {
    EffAddr16Bit(EffAddr16Bit),
    EffAddr32Bit(EffAddr32Bit),
    EffAddr64Bit(EffAddr64Bit),
}

/// An effective address in 16-bit addressing: up to two of BX, BP, SI, DI and a displacement.
#[derive(Debug, Clone, Copy, PartialEq, Eq, Structural)]
pub struct EffAddr16Bit {
    pub maybe_reg1: Option<Reg>,
    pub maybe_reg2: Option<Reg>,
    pub maybe_disp: Option<DispArch>,
    pub mod_addr: u8,
}

/// An effective address in 32-bit addressing.
#[derive(Debug, Clone, Copy, PartialEq, Eq, Structural)]
pub struct EffAddr32Bit {
    pub eff_addr: EffAddrType,
    pub maybe_disp: Option<DispArch>,
    pub mod_addr: u8,
}

/// An effective address in 64-bit addressing.
#[derive(Debug, Clone, Copy, PartialEq, Eq, Structural)]
pub struct EffAddr64Bit {
    pub eff_addr: EffAddrType,
    pub maybe_disp: Option<DispArch>,
    pub mod_addr: u8,
}

/// What the `r/m` field designates in 32- and 64-bit addressing.
#[derive(Debug, Clone, Copy, PartialEq, Eq, Structural)]
pub enum EffAddrType {
    // A register: the operand itself when `mod` is 0b11, else the base of the address
    Reg(Reg),
    // A SIB byte follows the ModR/M byte and describes the address
    Sib,
    // No base register: the address is a bare displacement (RIP-relative in 64-bit mode)
    NoBase,
}

/// A decoded SIB byte: base (bits 0 to 2), index (bits 3 to 5) and scale (bits 6 and 7).
#[derive(Debug, Clone, Copy, PartialEq, Eq, Structural)]
pub enum Sib {
    Sib32(Sib32),
    Sib64(Sib64),
}

/// The scale factor of a SIB byte: 2, 4 or 8.
#[derive(Debug, Clone, Copy, PartialEq, Eq, Structural)]
pub struct Scale(pub u8);

/// A SIB byte in 32-bit addressing.
#[derive(Debug, Clone, Copy, PartialEq, Eq, Structural)]
pub struct Sib32 {
    pub base: Option<Reg>,
    pub scaled_index: Option<Reg>,
    pub scale: Option<Scale>,
}

/// A SIB byte in 64-bit addressing, with REX.X and REX.B applied.
#[derive(Debug, Clone, Copy, PartialEq, Eq, Structural)]
pub struct Sib64 {
    pub base: Option<Reg>,
    pub scaled_index: Option<Reg>,
    pub scale: Option<Scale>,
}

/// The `mod` field of a ModR/M byte.
pub open spec fn mod_of(value: u8) -> u8 {
    (value >> 6) & 0b11
}

/// The `r/m` field of a ModR/M byte.
pub open spec fn rm_of(value: u8) -> u8 {
    value & 0b111
}

/// The `reg` field of a ModR/M byte.
pub open spec fn reg_field_of(value: u8) -> u8 {
    (value >> 3) & 0b111
}

/// REX.B, or 0 without a REX prefix.
pub open spec fn rex_b(maybe_rex: Option<Rex>) -> u8 {
    match maybe_rex {
        Some(rex) => rex.spec_b(),
        None => 0,
    }
}

/// REX.X, or 0 without a REX prefix.
pub open spec fn rex_x(maybe_rex: Option<Rex>) -> u8 {
    match maybe_rex {
        Some(rex) => rex.spec_x(),
        None => 0,
    }
}

/// REX.R, or 0 without a REX prefix.
pub open spec fn rex_r(maybe_rex: Option<Rex>) -> u8 {
    match maybe_rex {
        Some(rex) => rex.spec_r(),
        None => 0,
    }
}

/// The displacement that `mod` calls for in 32- and 64-bit addressing.
pub open spec fn disp_for_mod(m: u8) -> Option<DispArch> {
    if m == 1 {
        Some(DispArch::Bit8)
    } else if m == 2 {
        Some(DispArch::Bit32)
    } else {
        None
    }
}

/// The register pair that `r/m` selects in 16-bit memory addressing.
pub open spec fn pair16(rm: u8) -> (Option<Reg>, Option<Reg>) {
    if rm == 0 {
        (Some(Reg::BX), Some(Reg::SI))
    } else if rm == 1 {
        (Some(Reg::BX), Some(Reg::DI))
    } else if rm == 2 {
        (Some(Reg::BP), Some(Reg::SI))
    } else if rm == 3 {
        (Some(Reg::BP), Some(Reg::DI))
    } else if rm == 4 {
        (Some(Reg::SI), None)
    } else if rm == 5 {
        (Some(Reg::DI), None)
    } else if rm == 6 {
        (Some(Reg::BP), None)
    } else {
        (Some(Reg::BX), None)
    }
}

/// 16-bit addressing: `mod` 0b11 names a register; `mod` 0b00 with `r/m` 0b110 is a bare 16-bit
/// displacement; otherwise a register pair with no displacement, an 8-bit one or a 16-bit one
/// as `mod` is 0b00, 0b01 or 0b10.
pub open spec fn eff16_of(value: u8) -> EffAddr16Bit {
    let m = mod_of(value);
    let rm = rm_of(value);
    if m == 3 {
        EffAddr16Bit { maybe_reg1: Some(rm32_reg(rm)), maybe_reg2: None, maybe_disp: None, mod_addr: m }
    } else if m == 0 && rm == 6 {
        EffAddr16Bit { maybe_reg1: None, maybe_reg2: None, maybe_disp: Some(DispArch::Bit16), mod_addr: m }
    } else {
        let p = pair16(rm);
        let d = if m == 0 {
            None
        } else if m == 1 {
            Some(DispArch::Bit8)
        } else {
            Some(DispArch::Bit16)
        };
        EffAddr16Bit { maybe_reg1: p.0, maybe_reg2: p.1, maybe_disp: d, mod_addr: m }
    }
}

/// 32-bit addressing: `mod` 0b11 names a register; `r/m` 0b100 means a SIB byte follows; `mod`
/// 0b00 with `r/m` 0b101 is a bare 32-bit displacement; otherwise `r/m` names the base register.
pub open spec fn eff32_of(value: u8) -> EffAddr32Bit {
    let m = mod_of(value);
    let rm = rm_of(value);
    if m == 3 {
        EffAddr32Bit { eff_addr: EffAddrType::Reg(rm32_reg(rm)), maybe_disp: None, mod_addr: m }
    } else if rm == 4 {
        EffAddr32Bit { eff_addr: EffAddrType::Sib, maybe_disp: disp_for_mod(m), mod_addr: m }
    } else if m == 0 && rm == 5 {
        EffAddr32Bit { eff_addr: EffAddrType::NoBase, maybe_disp: Some(DispArch::Bit32), mod_addr: m }
    } else {
        EffAddr32Bit { eff_addr: EffAddrType::Reg(rm32_reg(rm)), maybe_disp: disp_for_mod(m), mod_addr: m }
    }
}

/// 64-bit addressing: as 32-bit addressing over the 4-bit register number that REX.B extends
/// `r/m` to. A SIB byte follows whenever the low three bits of `r/m` are 0b100; the bare
/// displacement form is `mod` 0b00 with the extended `r/m` 0b0101.
pub open spec fn eff64_of(value: u8, maybe_rex: Option<Rex>) -> EffAddr64Bit {
    let m = mod_of(value);
    let rm = (rex_b(maybe_rex) << 3) | rm_of(value);
    if m == 3 {
        EffAddr64Bit { eff_addr: EffAddrType::Reg(rm64_reg(rm)), maybe_disp: None, mod_addr: m }
    } else if rm_of(value) == 4 {
        EffAddr64Bit { eff_addr: EffAddrType::Sib, maybe_disp: disp_for_mod(m), mod_addr: m }
    } else if m == 0 && rm == 5 {
        EffAddr64Bit { eff_addr: EffAddrType::NoBase, maybe_disp: Some(DispArch::Bit32), mod_addr: m }
    } else {
        EffAddr64Bit { eff_addr: EffAddrType::Reg(rm64_reg(rm)), maybe_disp: disp_for_mod(m), mod_addr: m }
    }
}

/// The ModR/M byte `value` decoded under `maybe_arch` (32-bit addressing when no mode is given).
pub open spec fn modrm_of(value: u8, maybe_arch: Option<Arch>, maybe_rex: Option<Rex>) -> ModRM {
    let reg = reg_field_of(value);
    match maybe_arch {
        Some(Arch::Arch16) => ModRM(arch_reg(reg, maybe_arch), Addressing::EffAddr16Bit(eff16_of(value))),
        Some(Arch::Arch64) => ModRM(
            arch_reg((rex_r(maybe_rex) << 3) | reg, maybe_arch),
            Addressing::EffAddr64Bit(eff64_of(value, maybe_rex)),
        ),
        _ => ModRM(arch_reg(reg, maybe_arch), Addressing::EffAddr32Bit(eff32_of(value))),
    }
}

/// The scale factor that the two scale bits of a SIB byte select; none for a factor of one.
pub open spec fn scale_of(bits: u8) -> Option<Scale> {
    if bits == 1 {
        Some(Scale(2))
    } else if bits == 2 {
        Some(Scale(4))
    } else if bits == 3 {
        Some(Scale(8))
    } else {
        None
    }
}

/// A SIB byte in 32-bit addressing. An index field of 0b100 means no index (and no scale).
pub open spec fn sib32_of(value: u8) -> Sib32 {
    let idx = (value >> 3) & 0b111;
    if idx == 4 {
        Sib32 { base: Some(rm32_reg(value & 0b111)), scaled_index: None, scale: None }
    } else {
        Sib32 {
            base: Some(rm32_reg(value & 0b111)),
            scaled_index: Some(rm32_reg(idx)),
            scale: scale_of((value >> 6) & 0b11),
        }
    }
}

/// A SIB byte in 64-bit addressing, index extended by REX.X and base by REX.B. An index whose
/// low three bits are 0b100 means no index, whatever REX.X holds.
pub open spec fn sib64_of(value: u8, maybe_rex: Option<Rex>) -> Sib64 {
    let idx = (value >> 3) & 0b111;
    let base = (rex_b(maybe_rex) << 3) | (value & 0b111);
    if idx == 4 {
        Sib64 { base: Some(rm64_reg(base)), scaled_index: None, scale: None }
    } else {
        Sib64 {
            base: Some(rm64_reg(base)),
            scaled_index: Some(rm64_reg((rex_x(maybe_rex) << 3) | idx)),
            scale: scale_of((value >> 6) & 0b11),
        }
    }
}

pub open spec fn addressing_disp(a: Addressing) -> Option<DispArch> {
    match a {
        Addressing::EffAddr16Bit(e) => e.maybe_disp,
        Addressing::EffAddr32Bit(e) => e.maybe_disp,
        Addressing::EffAddr64Bit(e) => e.maybe_disp,
    }
}

pub open spec fn addressing_with_disp(a: Addressing, d: Option<DispArch>) -> Addressing {
    match a {
        Addressing::EffAddr16Bit(e) => Addressing::EffAddr16Bit(EffAddr16Bit { maybe_disp: d, ..e }),
        Addressing::EffAddr32Bit(e) => Addressing::EffAddr32Bit(EffAddr32Bit { maybe_disp: d, ..e }),
        Addressing::EffAddr64Bit(e) => Addressing::EffAddr64Bit(EffAddr64Bit { maybe_disp: d, ..e }),
    }
}

pub open spec fn addressing_mod(a: Addressing) -> u8 {
    match a {
        Addressing::EffAddr16Bit(e) => e.mod_addr,
        Addressing::EffAddr32Bit(e) => e.mod_addr,
        Addressing::EffAddr64Bit(e) => e.mod_addr,
    }
}

/// Whether a SIB byte follows: only in 32- and 64-bit addressing.
pub open spec fn addressing_has_sib(a: Addressing) -> bool {
    match a {
        Addressing::EffAddr32Bit(e) => e.eff_addr is Sib,
        Addressing::EffAddr64Bit(e) => e.eff_addr is Sib,
        Addressing::EffAddr16Bit(_) => false,
    }
}

/// The register that `r/m` designates directly: only `mod` 0b11 forms designate one; memory
/// forms give `None`.
pub open spec fn addressing_rm_reg(a: Addressing) -> Option<Reg> {
    if addressing_mod(a) != 0b11 {
        None
    } else {
        match a {
            Addressing::EffAddr16Bit(e) => e.maybe_reg1,
            Addressing::EffAddr32Bit(e) => match e.eff_addr {
                EffAddrType::Reg(r) => Some(r),
                _ => None,
            },
            Addressing::EffAddr64Bit(e) => match e.eff_addr {
                EffAddrType::Reg(r) => Some(r),
                _ => None,
            },
        }
    }
}

/// Whether every register in an effective address is a general-purpose one.
pub open spec fn eff_addr_gpr(e: EffAddrType) -> bool {
    match e {
        EffAddrType::Reg(r) => is_gpr(r),
        _ => true,
    }
}

pub open spec fn opt_gpr(r: Option<Reg>) -> bool {
    match r {
        Some(x) => is_gpr(x),
        None => true,
    }
}

/// Whether the registers of a SIB byte are general-purpose ones.
pub open spec fn sib_gpr(s: Sib) -> bool {
    match s {
        Sib::Sib32(x) => opt_gpr(x.base) && opt_gpr(x.scaled_index),
        Sib::Sib64(x) => opt_gpr(x.base) && opt_gpr(x.scaled_index),
    }
}

/// A register reinterpreted at the width of an address size.
pub open spec fn opt_reg_at(r: Option<Reg>, s: OpSize) -> Option<Reg> {
    match r {
        Some(x) => Some(family_reg(family_of(x).unwrap(), s)),
        None => None,
    }
}

pub open spec fn eff_addr_at(e: EffAddrType, a: AddrSize) -> EffAddrType {
    match e {
        EffAddrType::Reg(r) => EffAddrType::Reg(family_reg(family_of(r).unwrap(), addr_opsize(a))),
        _ => e,
    }
}

pub open spec fn sib_at(s: Sib, a: AddrSize) -> Sib {
    let sz = addr_opsize(a);
    match s {
        Sib::Sib32(x) => Sib::Sib32(Sib32 {
            base: opt_reg_at(x.base, sz),
            scaled_index: opt_reg_at(x.scaled_index, sz),
            scale: x.scale,
        }),
        Sib::Sib64(x) => Sib::Sib64(Sib64 {
            base: opt_reg_at(x.base, sz),
            scaled_index: opt_reg_at(x.scaled_index, sz),
            scale: x.scale,
        }),
    }
}

pub open spec fn sib_base(s: Sib) -> Option<Reg> {
    match s {
        Sib::Sib32(x) => x.base,
        Sib::Sib64(x) => x.base,
    }
}

pub open spec fn sib_with_base(s: Sib, base: Option<Reg>) -> Sib {
    match s {
        Sib::Sib32(x) => Sib::Sib32(Sib32 { base, ..x }),
        Sib::Sib64(x) => Sib::Sib64(Sib64 { base, ..x }),
    }
}

pub open spec fn eff_addr_size(e: EffAddrType) -> OpSize {
    match e {
        EffAddrType::Reg(r) => reg_size(r),
        _ => OpSize::CpuMode,
    }
}

pub open spec fn sib_size(s: Sib) -> OpSize {
    match s {
        Sib::Sib32(_) => OpSize::U32,
        Sib::Sib64(_) => OpSize::U64,
    }
}

/// The displacement that `mod` calls for in 32- and 64-bit addressing.
fn mod_disp(m: u8) -> (r: Option<DispArch>)
    ensures
        r == disp_for_mod(m),
{
    if m == 1 {
        Some(DispArch::Bit8)
    } else if m == 2 {
        Some(DispArch::Bit32)
    } else {
        None
    }
}

fn rex_b_of(maybe_rex: Option<Rex>) -> (r: u8)
    ensures
        r == rex_b(maybe_rex),
{
    match maybe_rex {
        Some(rex) => rex.b(),
        None => 0,
    }
}

impl ModRM {
    /// Decodes ModR/M byte `value` under `maybe_arch` (see `modrm_of`). In 64-bit mode REX.R
    /// extends `reg` and REX.B extends `r/m`.
    pub fn from_byte_with_arch(
        value: u8,
        maybe_arch: Option<Arch>,
        maybe_rex: Option<Rex>,
    ) -> (r: Self)
        ensures
            r == modrm_of(value, maybe_arch, maybe_rex),
    {
        let reg = (value >> 3) & 0b111;
        let (reg, addressing) = match maybe_arch {
            Some(arch) => match arch {
                Arch::Arch16 => (reg, Addressing::EffAddr16Bit(EffAddr16Bit::from(value))),
                Arch::Arch32 => (reg, Addressing::EffAddr32Bit(EffAddr32Bit::from(value))),
                Arch::Arch64 => {
                    let addr = Addressing::EffAddr64Bit(EffAddr64Bit::from_byte_with_rex(value, maybe_rex));
                    // REX.R is prepended to `reg` as its fourth bit
                    let reg = match maybe_rex {
                        Some(rex) => (rex.r() << 3) | reg,
                        None => reg,
                    };
                    proof {
                        if maybe_rex is None {
                            assert(((0u8 << 3u8) | reg) == reg) by (bit_vector);
                        }
                    }
                    (reg, addr)
                },
            },
            None => (reg, Addressing::EffAddr32Bit(EffAddr32Bit::from(value))),
        };
        Self(Reg::from_byte_with_arch(reg, maybe_arch), addressing)
    }

    /// The register that `r/m` designates directly: `None` for the memory forms (`mod` other
    /// than 0b11).
    pub fn rm_reg(&self) -> (r: Option<Reg>)
        ensures
            r == addressing_rm_reg(self.1),
            r is Some ==> addressing_mod(self.1) == 0b11,
    {
        self.1.rm_reg()
    }

    /// The memory form of `r/m` in 32- and 64-bit addressing.
    pub fn rm_mem(&self) -> (r: EffAddrType)
        requires
            !(self.1 is EffAddr16Bit),
        ensures
            r == addressing_eff_addr(self.1),
    {
        self.1.rm_mem()
    }

    /// The register that the `reg` field selects.
    pub fn reg(&self) -> (r: Reg)
        ensures
            r == self.0,
    {
        self.0
    }

    pub fn mod_bits(&self) -> (r: u8)
        ensures
            r == addressing_mod(self.1),
    {
        self.1.mod_bits()
    }
}

/// The `r/m` effective address in 32- and 64-bit addressing.
pub open spec fn addressing_eff_addr(a: Addressing) -> EffAddrType {
    match a {
        Addressing::EffAddr32Bit(e) => e.eff_addr,
        Addressing::EffAddr64Bit(e) => e.eff_addr,
        Addressing::EffAddr16Bit(_) => EffAddrType::NoBase,
    }
}

impl Addressing {
    /// The width of the displacement that follows, if one does.
    pub fn displacement(&self) -> (r: Option<DispArch>)
        ensures
            r == addressing_disp(*self),
    {
        match self {
            Self::EffAddr16Bit(addr_16bit) => addr_16bit.maybe_disp,
            Self::EffAddr32Bit(addr_32bit) => addr_32bit.maybe_disp,
            Self::EffAddr64Bit(addr_64bit) => addr_64bit.maybe_disp,
        }
    }

    /// Replaces the displacement width.
    pub fn set_displacement(&mut self, disp: Option<DispArch>)
        ensures
            *final(self) == addressing_with_disp(*old(self), disp),
    {
        match self {
            Self::EffAddr16Bit(addr_16bit) => addr_16bit.maybe_disp = disp,
            Self::EffAddr32Bit(addr_32bit) => addr_32bit.maybe_disp = disp,
            Self::EffAddr64Bit(addr_64bit) => addr_64bit.maybe_disp = disp,
        }
    }

    /// Whether a SIB byte follows; only 32- and 64-bit addressing have one.
    pub fn has_sib(&self) -> (r: bool)
        ensures
            r == addressing_has_sib(*self),
    {
        let eff_addr = match self {
            Self::EffAddr32Bit(eff_addr_32bit) => eff_addr_32bit.eff_addr,
            Self::EffAddr64Bit(eff_addr_64bit) => eff_addr_64bit.eff_addr,
            Self::EffAddr16Bit(_) => return false,
        };
        if let EffAddrType::Sib = eff_addr {
            true
        } else {
            false
        }
    }

    pub fn mod_bits(&self) -> (r: u8)
        ensures
            r == addressing_mod(*self),
    {
        match self {
            Self::EffAddr16Bit(eff_addr_16bit) => eff_addr_16bit.mod_addr,
            Self::EffAddr32Bit(eff_addr_32bit) => eff_addr_32bit.mod_addr,
            Self::EffAddr64Bit(eff_addr_64bit) => eff_addr_64bit.mod_addr,
        }
    }

    /// The memory form of `r/m`. 16-bit addressing has a register pair instead, which this
    /// form cannot hold.
    pub fn rm_mem(&self) -> (r: EffAddrType)
        requires
            !(self is EffAddr16Bit),
        ensures
            r == addressing_eff_addr(*self),
    {
        match self {
            Self::EffAddr32Bit(eff_addr_32bit) => eff_addr_32bit.eff_addr,
            Self::EffAddr64Bit(eff_addr_64bit) => eff_addr_64bit.eff_addr,
            Self::EffAddr16Bit(_) => EffAddrType::NoBase,
        }
    }

    /// The register that `r/m` designates directly: `None` for the memory forms (`mod` other
    /// than 0b11).
    pub fn rm_reg(&self) -> (r: Option<Reg>)
        ensures
            r == addressing_rm_reg(*self),
            r is Some ==> addressing_mod(*self) == 0b11,
    {
        if self.mod_bits() != 0b11 {
            return None;
        }
        match self {
            Addressing::EffAddr16Bit(eff_addr_16bit) => eff_addr_16bit.maybe_reg1,
            Addressing::EffAddr32Bit(eff_addr_32bit) => match eff_addr_32bit.eff_addr {
                EffAddrType::Reg(reg) => Some(reg),
                _ => None,
            },
            Addressing::EffAddr64Bit(eff_addr_64bit) => match eff_addr_64bit.eff_addr {
                EffAddrType::Reg(reg) => Some(reg),
                _ => None,
            },
        }
    }
}

impl From<u8> for EffAddr16Bit {
    fn from(value: u8) -> (r: Self)
        ensures
            r == eff16_of(value),
    {
        let r_m = value & 0b111;
        let mod_addr = (value >> 6) & 0b11;
        if mod_addr == 0b11 {
            // `mod` 0b11 names a register; the doubleword one stands for its family
            return Self {
                maybe_reg1: Some(Reg::from_rm32(r_m)),
                maybe_reg2: None,
                maybe_disp: None,
                mod_addr,
            };
        }
        if mod_addr == 0b00 && r_m == 0b110 {
            return Self { maybe_reg1: None, maybe_reg2: None, maybe_disp: Some(DispArch::Bit16), mod_addr };
        }
        let (maybe_reg1, maybe_reg2) = match r_m {
            0b000 => (Some(Reg::BX), Some(Reg::SI)),
            0b001 => (Some(Reg::BX), Some(Reg::DI)),
            0b010 => (Some(Reg::BP), Some(Reg::SI)),
            0b011 => (Some(Reg::BP), Some(Reg::DI)),
            0b100 => (Some(Reg::SI), None),
            0b101 => (Some(Reg::DI), None),
            0b110 => (Some(Reg::BP), None),
            _ => (Some(Reg::BX), None),
        };
        let maybe_disp = if mod_addr == 0b00 {
            None
        } else if mod_addr == 0b01 {
            Some(DispArch::Bit8)
        } else {
            Some(DispArch::Bit16)
        };
        Self { maybe_reg1, maybe_reg2, maybe_disp, mod_addr }
    }
}

impl vstd::std_specs::convert::FromSpecImpl<u8> for EffAddr16Bit {
    open spec fn obeys_from_spec() -> bool {
        true
    }

    open spec fn from_spec(v: u8) -> EffAddr16Bit {
        eff16_of(v)
    }
}

impl From<u8> for EffAddr32Bit {
    fn from(value: u8) -> (r: Self)
        ensures
            r == eff32_of(value),
    {
        let r_m = value & 0b111;
        let mod_addr = (value >> 6) & 0b11;
        if mod_addr == 0b11 {
            Self { eff_addr: EffAddrType::Reg(Reg::from_rm32(r_m)), maybe_disp: None, mod_addr }
        } else if r_m == 0b100 {
            Self { eff_addr: EffAddrType::Sib, maybe_disp: mod_disp(mod_addr), mod_addr }
        } else if mod_addr == 0b00 && r_m == 0b101 {
            Self { eff_addr: EffAddrType::NoBase, maybe_disp: Some(DispArch::Bit32), mod_addr }
        } else {
            Self { eff_addr: EffAddrType::Reg(Reg::from_rm32(r_m)), maybe_disp: mod_disp(mod_addr), mod_addr }
        }
    }
}

impl vstd::std_specs::convert::FromSpecImpl<u8> for EffAddr32Bit {
    open spec fn obeys_from_spec() -> bool {
        true
    }

    open spec fn from_spec(v: u8) -> EffAddr32Bit {
        eff32_of(v)
    }
}

impl EffAddr64Bit {
    /// Decodes the `mod` and `r/m` fields of ModR/M byte `value` in 64-bit addressing, `r/m`
    /// extended by REX.B (see `eff64_of`).
    pub fn from_byte_with_rex(value: u8, maybe_rex: Option<Rex>) -> (r: Self)
        ensures
            r == eff64_of(value, maybe_rex),
    {
        let low = value & 0b111;
        let r_m = (rex_b_of(maybe_rex) << 3) | low;
        let mod_addr = (value >> 6) & 0b11;
        if mod_addr == 0b11 {
            Self { eff_addr: EffAddrType::Reg(Reg::from_rm64(r_m)), maybe_disp: None, mod_addr }
        } else if low == 0b100 {
            Self { eff_addr: EffAddrType::Sib, maybe_disp: mod_disp(mod_addr), mod_addr }
        } else if mod_addr == 0b00 && r_m == 0b0101 {
            Self { eff_addr: EffAddrType::NoBase, maybe_disp: Some(DispArch::Bit32), mod_addr }
        } else {
            Self { eff_addr: EffAddrType::Reg(Reg::from_rm64(r_m)), maybe_disp: mod_disp(mod_addr), mod_addr }
        }
    }
}

fn scale_from_bits(bits: u8) -> (r: Option<Scale>)
    ensures
        r == scale_of(bits),
{
    if bits == 1 {
        Some(Scale(2))
    } else if bits == 2 {
        Some(Scale(4))
    } else if bits == 3 {
        Some(Scale(8))
    } else {
        None
    }
}

impl From<u8> for Sib32 {
    fn from(value: u8) -> (r: Self)
        ensures
            r == sib32_of(value),
    {
        let scale = (value >> 6) & 0b11;
        let idx = (value >> 3) & 0b111;
        let base = Some(Reg::from_rm32(value & 0b111));
        if idx == 0b100 {
            // The ESP slot of the index field encodes "no index"
            Self { base, scaled_index: None, scale: None }
        } else {
            Self { base, scaled_index: Some(Reg::from_rm32(idx)), scale: scale_from_bits(scale) }
        }
    }
}

impl vstd::std_specs::convert::FromSpecImpl<u8> for Sib32 {
    open spec fn obeys_from_spec() -> bool {
        true
    }

    open spec fn from_spec(v: u8) -> Sib32 {
        sib32_of(v)
    }
}

impl Sib64 {
    /// Decodes SIB byte `value` in 64-bit addressing (see `sib64_of`).
    pub fn from_byte_with_rex(value: u8, maybe_rex: Option<Rex>) -> (r: Self)
        ensures
            r == sib64_of(value, maybe_rex),
    {
        let scale = (value >> 6) & 0b11;
        let idx = (value >> 3) & 0b111;
        let base = (rex_b_of(maybe_rex) << 3) | (value & 0b111);
        let base = Some(Reg::from_rm64(base));
        if idx == 0b100 {
            // The RSP slot of the index field encodes "no index", with or without REX.X
            Self { base, scaled_index: None, scale: None }
        } else {
            let x = match maybe_rex {
                Some(rex) => rex.x(),
                None => 0,
            };
            Self { base, scaled_index: Some(Reg::from_rm64((x << 3) | idx)), scale: scale_from_bits(scale) }
        }
    }
}

impl SizedOperand for EffAddrType {
    open spec fn spec_size(&self) -> OpSize {
        eff_addr_size(*self)
    }

    fn size(&self) -> (r: OpSize) {
        match self {
            EffAddrType::Reg(reg) => reg.size(),
            _ => OpSize::CpuMode,
        }
    }
}

impl EffAddrType {
    /// The same address with its register at the width of `addr_size`.
    pub fn convert_with_addrsize(self, addr_size: AddrSize) -> (r: Self)
        requires
            eff_addr_gpr(self),
        ensures
            r == eff_addr_at(self, addr_size),
            eff_addr_gpr(r),
    {
        match self {
            Self::Reg(reg) => Self::Reg(reg.convert_with_opsize(&OpSize::from(addr_size))),
            Self::Sib => Self::Sib,
            Self::NoBase => Self::NoBase,
        }
    }
}

impl SizedOperand for Sib {
    open spec fn spec_size(&self) -> OpSize {
        sib_size(*self)
    }

    fn size(&self) -> (r: OpSize) {
        match self {
            Sib::Sib32(_) => OpSize::U32,
            Sib::Sib64(_) => OpSize::U64,
        }
    }
}

fn opt_convert(r: Option<Reg>, s: &OpSize) -> (o: Option<Reg>)
    requires
        opt_gpr(r),
    ensures
        o == opt_reg_at(r, *s),
        opt_gpr(o),
{
    match r {
        Some(reg) => Some(reg.convert_with_opsize(s)),
        None => None,
    }
}

impl Sib {
    /// The same SIB with base and index at the width of `addr_size`.
    pub fn convert_with_addrsize(self, addr_size: AddrSize) -> (r: Self)
        requires
            sib_gpr(self),
        ensures
            r == sib_at(self, addr_size),
            sib_gpr(r),
    {
        let op_size = OpSize::from(addr_size);
        match self {
            Self::Sib32(sib32) => Self::Sib32(Sib32 {
                base: opt_convert(sib32.base, &op_size),
                scaled_index: opt_convert(sib32.scaled_index, &op_size),
                scale: sib32.scale,
            }),
            Self::Sib64(sib64) => Self::Sib64(Sib64 {
                base: opt_convert(sib64.base, &op_size),
                scaled_index: opt_convert(sib64.scaled_index, &op_size),
                scale: sib64.scale,
            }),
        }
    }

    pub fn base(&self) -> (r: Option<Reg>)
        ensures
            r == sib_base(*self),
    {
        match self {
            Self::Sib32(sib32) => sib32.base,
            Self::Sib64(sib64) => sib64.base,
        }
    }

    pub fn set_base(&mut self, base: Option<Reg>)
        ensures
            *final(self) == sib_with_base(*old(self), base),
    {
        match self {
            Self::Sib32(sib32) => sib32.base = base,
            Self::Sib64(sib64) => sib64.base = base,
        };
    }
}

/// An index field whose low three bits are 0b100 (the ESP/RSP slot) encodes "no index": the SIB
/// byte then has no scaled index and no scale, for every scale value and whatever REX.X holds.
pub proof fn lemma_sib_no_index(value: u8, maybe_rex: Option<Rex>)
    requires
        (value >> 3) & 0b111 == 4,
    ensures
        sib32_of(value).scaled_index is None,
        sib32_of(value).scale is None,
        sib64_of(value, maybe_rex).scaled_index is None,
        sib64_of(value, maybe_rex).scale is None,
{
}

/// `mod` 0b00 with `r/m` 0b101 in 32-bit addressing is no base register and a 32-bit
/// displacement, whatever the `reg` field holds; the same holds in 64-bit addressing without
/// REX.B.
pub proof fn lemma_mod0_rm5_bare_disp32(value: u8, maybe_rex: Option<Rex>)
    requires
        mod_of(value) == 0,
        rm_of(value) == 5,
    ensures
        eff32_of(value).eff_addr == EffAddrType::NoBase,
        eff32_of(value).maybe_disp == Some(DispArch::Bit32),
        rex_b(maybe_rex) == 0 ==> eff64_of(value, maybe_rex).eff_addr == EffAddrType::NoBase,
        rex_b(maybe_rex) == 0 ==> eff64_of(value, maybe_rex).maybe_disp == Some(DispArch::Bit32),
{
    let b = rex_b(maybe_rex);
    assert(b == 0 ==> ((b << 3u8) | (value & 0b111u8)) == (value & 0b111u8)) by (bit_vector);
}

/// The `mod` 0b11 forms name a register, never a memory address, in every mode.
pub proof fn lemma_mod3_is_register(value: u8, maybe_rex: Option<Rex>)
    requires
        mod_of(value) == 3,
    ensures
        addressing_rm_reg(Addressing::EffAddr16Bit(eff16_of(value))) is Some,
        addressing_rm_reg(Addressing::EffAddr32Bit(eff32_of(value))) is Some,
        addressing_rm_reg(Addressing::EffAddr64Bit(eff64_of(value, maybe_rex))) is Some,
        eff32_of(value).eff_addr is Reg,
        eff64_of(value, maybe_rex).eff_addr is Reg,
        eff32_of(value).maybe_disp is None,
        eff64_of(value, maybe_rex).maybe_disp is None,
{
}

/// A decoded ModR/M byte designates a register directly exactly when its `mod` field is 0b11,
/// in every mode.
pub proof fn lemma_rm_reg_iff_mod3(value: u8, maybe_arch: Option<Arch>, maybe_rex: Option<Rex>)
    ensures
        addressing_rm_reg(modrm_of(value, maybe_arch, maybe_rex).1) is Some <==> mod_of(value) == 3,
{
}

} // verus!
