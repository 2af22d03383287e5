//! Displacements and immediates: their widths, how they are read and how immediates widen.
use vstd::prelude::*;

use crate::inst::SizedOperand;
use crate::opcode::{op_bits, OpSize};
use crate::reader::{FromLeBytes, Reader, ReaderError};

verus! {

/// A constant added to the rest of an effective address (`[reg + disp]`, `[disp]`,
/// `[reg * scale + disp]`). It follows the ModR/M byte, or the SIB byte when there is one.
#[derive(Debug, Clone, Copy, PartialEq, Eq, Structural)]
pub enum Displacement {
    Disp8(u8),
    Disp16(u16),
    Disp32(u32),
    Disp64(u64),
}

/// The width of a displacement, as the ModR/M and SIB bytes select it.
#[derive(Debug, Clone, Copy, PartialEq, Eq, Structural)]
pub enum DispArch {
    Bit8,
    Bit16,
    Bit32,
    Bit64,
}

#[derive(Debug, Clone, Copy, PartialEq, Eq, Structural)]
pub enum DispError {
    ReaderError(ReaderError),
}

/// An immediate operand. It follows any displacement bytes.
#[derive(Debug, Clone, Copy, PartialEq, Eq, Structural)]
pub enum Immediate {
    ImmU8(u8),
    ImmU16(u16),
    ImmU32(u32),
    ImmU64(u64),
    ImmI8(i8),
    ImmI16(i16),
    ImmI32(i32),
    ImmI64(i64),
}

#[derive(Debug, Clone, Copy, PartialEq, Eq, Structural)]
pub enum ImmError {
    ReaderError(ReaderError),
}

/// Reads a little-endian `T` off the front of `s`: the value and the bytes after it, or `None`
/// when `s` is too short.
pub open spec fn take_le<T: FromLeBytes>(s: Seq<u8>) -> Option<(T, Seq<u8>)> {
    if T::spec_width() <= s.len() {
        Some((T::spec_from_le(s.take(T::spec_width() as int)), s.skip(T::spec_width() as int)))
    } else {
        None
    }
}

/// Number of bytes a displacement of width `d` occupies.
pub open spec fn disp_len(d: DispArch) -> nat {
    match d {
        DispArch::Bit8 => 1,
        DispArch::Bit16 => 2,
        DispArch::Bit32 => 4,
        DispArch::Bit64 => 8,
    }
}

/// Reads a displacement of width `d` off the front of `s`.
pub open spec fn disp_read(d: DispArch, s: Seq<u8>) -> Result<(Displacement, Seq<u8>), DispError> {
    let nb = Err(DispError::ReaderError(ReaderError::NotEnoughBytes));
    match d {
        DispArch::Bit8 => match take_le::<u8>(s) {
            Some((v, t)) => Ok((Displacement::Disp8(v), t)),
            None => nb,
        },
        DispArch::Bit16 => match take_le::<u16>(s) {
            Some((v, t)) => Ok((Displacement::Disp16(v), t)),
            None => nb,
        },
        DispArch::Bit32 => match take_le::<u32>(s) {
            Some((v, t)) => Ok((Displacement::Disp32(v), t)),
            None => nb,
        },
        DispArch::Bit64 => match take_le::<u64>(s) {
            Some((v, t)) => Ok((Displacement::Disp64(v), t)),
            None => nb,
        },
    }
}

impl DispArch {
    /// Reads a little-endian unsigned displacement of this width.
    pub fn read(&self, reader: &mut Reader) -> (r: Result<Displacement, DispError>)
        ensures
            final(reader).data() == old(reader).data(),
            final(reader).position() >= old(reader).position(),
            match disp_read(*self, old(reader).rest()) {
                Ok((v, t)) => r == Ok::<Displacement, DispError>(v) && final(reader).rest() == t,
                Err(e) => r == Err::<Displacement, DispError>(e),
            },
            r is Err ==> final(reader).position() == old(reader).position(),
    {
        match self {
            Self::Bit8 => match reader.read::<u8>() {
                Ok(v) => Ok(Displacement::Disp8(v)),
                Err(e) => Err(DispError::ReaderError(e)),
            },
            Self::Bit16 => match reader.read::<u16>() {
                Ok(v) => Ok(Displacement::Disp16(v)),
                Err(e) => Err(DispError::ReaderError(e)),
            },
            Self::Bit32 => match reader.read::<u32>() {
                Ok(v) => Ok(Displacement::Disp32(v)),
                Err(e) => Err(DispError::ReaderError(e)),
            },
            Self::Bit64 => match reader.read::<u64>() {
                Ok(v) => Ok(Displacement::Disp64(v)),
                Err(e) => Err(DispError::ReaderError(e)),
            },
        }
    }
}

/// Width in bits of an immediate.
pub open spec fn imm_bits(i: Immediate) -> nat {
    match i {
        Immediate::ImmU8(_) | Immediate::ImmI8(_) => 8,
        Immediate::ImmU16(_) | Immediate::ImmI16(_) => 16,
        Immediate::ImmU32(_) | Immediate::ImmI32(_) => 32,
        Immediate::ImmU64(_) | Immediate::ImmI64(_) => 64,
    }
}

/// Whether an immediate is read as a two's complement value.
pub open spec fn imm_signed(i: Immediate) -> bool {
    match i {
        Immediate::ImmI8(_) | Immediate::ImmI16(_) | Immediate::ImmI32(_)
        | Immediate::ImmI64(_) => true,
        _ => false,
    }
}

/// The number an immediate stands for.
pub open spec fn imm_value(i: Immediate) -> int {
    match i {
        Immediate::ImmU8(v) => v as int,
        Immediate::ImmU16(v) => v as int,
        Immediate::ImmU32(v) => v as int,
        Immediate::ImmU64(v) => v as int,
        Immediate::ImmI8(v) => v as int,
        Immediate::ImmI16(v) => v as int,
        Immediate::ImmI32(v) => v as int,
        Immediate::ImmI64(v) => v as int,
    }
}

/// The operand size of an immediate.
pub open spec fn imm_size(i: Immediate) -> OpSize {
    match i {
        Immediate::ImmU8(_) => OpSize::U8,
        Immediate::ImmU16(_) => OpSize::U16,
        Immediate::ImmU32(_) => OpSize::U32,
        Immediate::ImmU64(_) => OpSize::U64,
        Immediate::ImmI8(_) => OpSize::I8,
        Immediate::ImmI16(_) => OpSize::I16,
        Immediate::ImmI32(_) => OpSize::I32,
        Immediate::ImmI64(_) => OpSize::I64,
    }
}

/// The immediate of the given signedness and width (16, 32 or 64 bits) that holds `v`.
pub open spec fn imm_of(signed: bool, bits: nat, v: int) -> Immediate {
    if signed {
        if bits == 16 {
            Immediate::ImmI16(v as i16)
        } else if bits == 32 {
            Immediate::ImmI32(v as i32)
        } else {
            Immediate::ImmI64(v as i64)
        }
    } else {
        if bits == 16 {
            Immediate::ImmU16(v as u16)
        } else if bits == 32 {
            Immediate::ImmU32(v as u32)
        } else {
            Immediate::ImmU64(v as u64)
        }
    }
}

/// `i` extended to the width of `to`: sign-extended when it is signed, zero-extended otherwise.
/// An immediate at least as wide as `to` stays as it is.
pub open spec fn widen_spec(i: Immediate, to: OpSize) -> Immediate {
    if op_bits(to) <= imm_bits(i) {
        i
    } else {
        imm_of(imm_signed(i), op_bits(to), imm_value(i))
    }
}

/// Reads the immediate of operand size `s` off the front of `s`. Immediates are read as signed
/// values; the sizes without a direct encoding here (64-bit and mode-derived) read 32 bits.
pub open spec fn imm_parse(size: OpSize, s: Seq<u8>) -> Result<(Immediate, Seq<u8>), ImmError> {
    let nb = Err(ImmError::ReaderError(ReaderError::NotEnoughBytes));
    match size {
        OpSize::U8 | OpSize::I8 => match take_le::<i8>(s) {
            Some((v, t)) => Ok((Immediate::ImmI8(v), t)),
            None => nb,
        },
        OpSize::U16 | OpSize::I16 => match take_le::<i16>(s) {
            Some((v, t)) => Ok((Immediate::ImmI16(v), t)),
            None => nb,
        },
        _ => match take_le::<i32>(s) {
            Some((v, t)) => Ok((Immediate::ImmI32(v), t)),
            None => nb,
        },
    }
}

impl SizedOperand for Immediate {
    open spec fn spec_size(&self) -> OpSize {
        imm_size(*self)
    }

    fn size(&self) -> (r: OpSize) {
        match self {
            Immediate::ImmU8(_) => OpSize::U8,
            Immediate::ImmU16(_) => OpSize::U16,
            Immediate::ImmU32(_) => OpSize::U32,
            Immediate::ImmU64(_) => OpSize::U64,
            Immediate::ImmI8(_) => OpSize::I8,
            Immediate::ImmI16(_) => OpSize::I16,
            Immediate::ImmI32(_) => OpSize::I32,
            Immediate::ImmI64(_) => OpSize::I64,
        }
    }
}

impl Immediate {
    /// Reads an immediate of operand size `op_size` (see `imm_parse`).
    pub fn parse(op_size: &OpSize, reader: &mut Reader) -> (r: Result<Self, ImmError>)
        ensures
            final(reader).data() == old(reader).data(),
            final(reader).position() >= old(reader).position(),
            match imm_parse(*op_size, old(reader).rest()) {
                Ok((v, t)) => r == Ok::<Immediate, ImmError>(v) && final(reader).rest() == t,
                Err(e) => r == Err::<Immediate, ImmError>(e),
            },
            r is Err ==> final(reader).position() == old(reader).position(),
    {
        match op_size {
            OpSize::U8 | OpSize::I8 => match reader.read::<i8>() {
                Ok(v) => Ok(Immediate::ImmI8(v)),
                Err(e) => Err(ImmError::ReaderError(e)),
            },
            OpSize::U16 | OpSize::I16 => match reader.read::<i16>() {
                Ok(v) => Ok(Immediate::ImmI16(v)),
                Err(e) => Err(ImmError::ReaderError(e)),
            },
            _ => match reader.read::<i32>() {
                Ok(v) => Ok(Immediate::ImmI32(v)),
                Err(e) => Err(ImmError::ReaderError(e)),
            },
        }
    }

    /// Width in bits.
    pub fn bits(&self) -> (r: u8)
        ensures
            r == imm_bits(*self),
    {
        match self {
            Immediate::ImmU8(_) | Immediate::ImmI8(_) => 8,
            Immediate::ImmU16(_) | Immediate::ImmI16(_) => 16,
            Immediate::ImmU32(_) | Immediate::ImmI32(_) => 32,
            Immediate::ImmU64(_) | Immediate::ImmI64(_) => 64,
        }
    }

    /// Extends this immediate to the width of `to` without reading anything (see `widen_spec`).
    pub fn widen(self, to: OpSize) -> (r: Immediate)
        ensures
            r == widen_spec(self, to),
            imm_signed(r) == imm_signed(self),
            imm_value(r) == imm_value(self),
            op_bits(to) <= imm_bits(self) ==> r == self,
            op_bits(to) > imm_bits(self) ==> imm_bits(r) == op_bits(to),
    {
        let target = to.bits();
        if target <= self.bits() {
            return self;
        }
        match self {
            Immediate::ImmI8(v) => if target == 16 {
                Immediate::ImmI16(v as i16)
            } else if target == 32 {
                Immediate::ImmI32(v as i32)
            } else {
                Immediate::ImmI64(v as i64)
            },
            Immediate::ImmI16(v) => if target == 32 {
                Immediate::ImmI32(v as i32)
            } else {
                Immediate::ImmI64(v as i64)
            },
            Immediate::ImmI32(v) => Immediate::ImmI64(v as i64),
            Immediate::ImmU8(v) => if target == 16 {
                Immediate::ImmU16(v as u16)
            } else if target == 32 {
                Immediate::ImmU32(v as u32)
            } else {
                Immediate::ImmU64(v as u64)
            },
            Immediate::ImmU16(v) => if target == 32 {
                Immediate::ImmU32(v as u32)
            } else {
                Immediate::ImmU64(v as u64)
            },
            Immediate::ImmU32(v) => Immediate::ImmU64(v as u64),
            _ => self,
        }
    }
}

/// Widening is idempotent and composes: an immediate widened to one width and then to a wider
/// one is the immediate widened to the wider width at once, and widening to its own width or a
/// narrower one changes nothing.
pub proof fn lemma_widen_compose(i: Immediate, w2: OpSize, w3: OpSize)
    requires
        imm_bits(i) <= op_bits(w2),
        op_bits(w2) <= op_bits(w3),
    ensures
        widen_spec(widen_spec(i, w2), w3) == widen_spec(i, w3),
        op_bits(w2) == imm_bits(i) ==> widen_spec(i, w2) == i,
{
}

impl From<ReaderError> for DispError {
    fn from(value: ReaderError) -> (r: Self)
        ensures
            r == DispError::ReaderError(value),
    {
        DispError::ReaderError(value)
    }
}

impl vstd::std_specs::convert::FromSpecImpl<ReaderError> for DispError {
    open spec fn obeys_from_spec() -> bool {
        true
    }

    open spec fn from_spec(v: ReaderError) -> DispError {
        DispError::ReaderError(v)
    }
}

impl From<ReaderError> for ImmError {
    fn from(value: ReaderError) -> (r: Self)
        ensures
            r == ImmError::ReaderError(value),
    {
        ImmError::ReaderError(value)
    }
}

impl vstd::std_specs::convert::FromSpecImpl<ReaderError> for ImmError {
    open spec fn obeys_from_spec() -> bool {
        true
    }

    open spec fn from_spec(v: ReaderError) -> ImmError {
        ImmError::ReaderError(v)
    }
}

} // verus!
