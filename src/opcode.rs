//! Opcode resolution: one-, two- and three-byte opcode maps, ModR/M opcode extensions and the
//! operand templates that each opcode carries.
use vstd::prelude::*;

use crate::imm::take_le;
use crate::modrm::Arch;
use crate::prefix::{prefix_of, Group1, Prefix};
use crate::reader::{Reader, ReaderError};
use crate::reg::{Reg, RegFamily, SegmentRegister};
use crate::rex::{lemma_rex_of_fields, rex_of, Rex};

verus! {

/// The identity of an opcode: a mnemonic, a prefix that the caller has to accumulate, or an
/// opcode that needs the `reg` field of the following ModR/M byte to be known.
#[derive(Debug, Clone, Copy, PartialEq, Eq, Structural)]
pub enum OpcodeType {
    // A legacy prefix byte; the caller accumulates it and resolves the next byte
    Prefix(Prefix),
    // A REX prefix byte (64-bit mode only)
    Rex(Rex),
    Add,
    Or,
    Adc,
    Sbb,
    And,
    Sub,
    Cmp,
    Lea,
    Inc,
    Dec,
    CallNear,
    CallFar,
    JmpNear,
    JmpFar,
    Push,
    Mov,
    Xor,
    // The opcode byte alone is not enough: the ModR/M `reg` field completes it
    NeedsModRMExtension(u8),
    // Terminate an indirect branch in 32-bit and compatibility mode
    EndBr32,
    // Terminate an indirect branch in 64-bit mode
    EndBr64,
    // An opcode this decoder does not cover
    Unknown,
}

/// A resolved opcode: its identity, up to four operand templates, how the operands are encoded
/// and how many opcode bytes (escape bytes included) it took.
#[derive(Debug, Clone, Copy, PartialEq, Eq)]
pub struct Opcode {
    pub ident: OpcodeType,
    pub operands: [Option<Operand>; 4],
    pub encoding: Option<OperandEncoding>,
    pub len: u8,
}

/// The addressing methods of the processor manual's opcode tables.
#[derive(Debug, Clone, Copy, PartialEq, Eq, Structural)]
pub enum AddressingMethod {
    // A ModR/M byte follows and its `r/m` field names a register or a memory address
    E,
    // The `reg` field of the ModR/M byte selects a general register
    G,
    // Immediate data follows the opcode
    I,
    // The `r/m` field of the ModR/M byte names a memory address only
    M,
}

/// The operand types of the processor manual's opcode tables.
#[derive(Debug, Clone, Copy, PartialEq, Eq, Structural)]
pub enum OperandType {
    // Byte, whatever the operand-size attribute
    B,
    // Doubleword, whatever the operand-size attribute
    D,
    // Word, doubleword or quadword, by operand-size attribute
    V,
    // Word for a 16-bit operand size, doubleword otherwise
    Z,
}

/// How an opcode's operands map onto the byte stream.
#[derive(Debug, Clone, Copy, PartialEq, Eq, Structural)]
pub enum OperandEncoding {
    // Op1 = AL/AX/EAX/RAX, Op2 = immediate
    I,
    // Op1 = ModR/M r/m
    M,
    // Op1 is encoded in the low three bits of the opcode
    O,
    // Op1 = ModR/M r/m, Op2 = immediate
    MI,
    // Op1 = ModR/M r/m, Op2 = ModR/M reg
    MR,
    // Op1 = ModR/M reg, Op2 = ModR/M r/m
    RM,
    // No operands
    ZO,
}

/// The three-bit `reg` field of a ModR/M byte used as an opcode extension.
#[derive(Debug, Clone, Copy, PartialEq, Eq, Structural)]
pub struct RegFieldExt(u8);

#[derive(Debug, Clone, Copy, PartialEq, Eq, Structural)]
pub enum RegFieldExtError {
    CannotConvertFrom(u8),
}

/// Up to four operand templates.
#[derive(Debug, Clone, Copy, PartialEq, Eq, Structural)]
pub struct OperandList(pub Option<Operand>, pub Option<Operand>, pub Option<Operand>, pub Option<Operand>);

/// An operand template: what an operand is before the instruction's bytes resolve it.
#[derive(Debug, Clone, Copy, PartialEq, Eq, Structural)]
pub enum Operand {
    // A register or memory operand in the `r/m` field of ModR/M
    ModRM(OpSize, AddrSize),
    // A register in the `reg` field of ModR/M
    ModReg(OpSize),
    // An operand embedded in the opcode
    Opcode(OpSize),
    // An immediate that follows the opcode
    Immediate(OpSize),
    // A signed immediate that follows the opcode
    SignedImmediate(OpSize),
    // One specific register
    Reg(Reg),
    // A register family, at the instruction's operand size
    RegFamily(RegFamily),
    // A register numbered by the low three bits of the opcode byte
    RegInOpcode(u8),
    // A segment register
    Segment(SegmentRegister),
}

#[derive(Debug, Clone, Copy, PartialEq, Eq, Structural)]
pub enum OpcodeError {
    ReaderError(ReaderError),
    InvalidPrefix(Prefix),
    InexistentPrefix,
    InvalidOpcode(u8),
    Invalid3ByteOpcode(u8, u8, u8),
}

/// The escape byte that starts two- and three-byte opcodes.
pub const ESCAPE_CODE: u8 = 0x0F;

/// Operand sizes. Their widths order them; the signed and unsigned sizes of one width are equally
/// wide, and the mode-derived size counts as the default doubleword.
#[derive(Debug, Clone, Copy, PartialEq, Eq, Structural)]
pub enum OpSize {
    U8,
    I8,
    U16,
    I16,
    U32,
    I32,
    U64,
    I64,
    CpuMode,
}

/// Address sizes.
#[derive(Debug, Clone, Copy, PartialEq, Eq, Structural)]
pub enum AddrSize {
    Addr16Bit,
    Addr32Bit,
    Addr64Bit,
}

/// Width in bits of an operand size.
pub open spec fn op_bits(s: OpSize) -> nat {
    match s {
        OpSize::U8 | OpSize::I8 => 8,
        OpSize::U16 | OpSize::I16 => 16,
        OpSize::U32 | OpSize::I32 | OpSize::CpuMode => 32,
        OpSize::U64 | OpSize::I64 => 64,
    }
}

pub open spec fn addr_opsize(a: AddrSize) -> OpSize {
    match a {
        AddrSize::Addr16Bit => OpSize::U16,
        AddrSize::Addr32Bit => OpSize::U32,
        AddrSize::Addr64Bit => OpSize::U64,
    }
}

/// Default operand size of a CPU mode: 16 bits in 16-bit mode, 32 bits otherwise.
pub open spec fn arch_opsize(a: Arch) -> OpSize {
    match a {
        Arch::Arch16 => OpSize::U16,
        Arch::Arch32 | Arch::Arch64 => OpSize::U32,
    }
}

/// Default address size of a CPU mode.
pub open spec fn arch_addrsize(a: Arch) -> AddrSize {
    match a {
        Arch::Arch16 => AddrSize::Addr16Bit,
        Arch::Arch32 => AddrSize::Addr32Bit,
        Arch::Arch64 => AddrSize::Addr64Bit,
    }
}

impl OpSize {
    /// Width in bits.
    pub fn bits(&self) -> (r: u8)
        ensures
            r == op_bits(*self),
    {
        match self {
            OpSize::U8 | OpSize::I8 => 8,
            OpSize::U16 | OpSize::I16 => 16,
            OpSize::U32 | OpSize::I32 | OpSize::CpuMode => 32,
            OpSize::U64 | OpSize::I64 => 64,
        }
    }
}

impl From<AddrSize> for OpSize {
    fn from(value: AddrSize) -> (r: OpSize)
        ensures
            r == addr_opsize(value),
    {
        match value {
            AddrSize::Addr16Bit => OpSize::U16,
            AddrSize::Addr32Bit => OpSize::U32,
            AddrSize::Addr64Bit => OpSize::U64,
        }
    }
}

impl vstd::std_specs::convert::FromSpecImpl<AddrSize> for OpSize {
    open spec fn obeys_from_spec() -> bool {
        true
    }

    open spec fn from_spec(v: AddrSize) -> OpSize {
        addr_opsize(v)
    }
}

impl From<Arch> for OpSize {
    fn from(value: Arch) -> (r: OpSize)
        ensures
            r == arch_opsize(value),
    {
        match value {
            Arch::Arch16 => Self::U16,
            Arch::Arch32 | Arch::Arch64 => Self::U32,
        }
    }
}

impl vstd::std_specs::convert::FromSpecImpl<Arch> for OpSize {
    open spec fn obeys_from_spec() -> bool {
        true
    }

    open spec fn from_spec(v: Arch) -> OpSize {
        arch_opsize(v)
    }
}

impl From<Arch> for AddrSize {
    fn from(value: Arch) -> (r: AddrSize)
        ensures
            r == arch_addrsize(value),
    {
        match value {
            Arch::Arch16 => Self::Addr16Bit,
            Arch::Arch32 => Self::Addr32Bit,
            Arch::Arch64 => Self::Addr64Bit,
        }
    }
}

impl vstd::std_specs::convert::FromSpecImpl<Arch> for AddrSize {
    open spec fn obeys_from_spec() -> bool {
        true
    }

    open spec fn from_spec(v: Arch) -> AddrSize {
        arch_addrsize(v)
    }
}

/// The size that an operand type stands for under `arch`.
pub open spec fn type_opsize(op_type: OperandType, arch: Arch) -> OpSize {
    match op_type {
        OperandType::B => OpSize::U8,
        OperandType::V => OpSize::CpuMode,
        OperandType::Z => match arch {
            Arch::Arch16 => OpSize::U16,
            _ => OpSize::U32,
        },
        OperandType::D => OpSize::U32,
    }
}

/// The operand template for an addressing method and an operand type of the manual's tables.
pub open spec fn operand_of_map(m: AddressingMethod, t: OperandType, arch: Arch) -> Operand {
    let size = type_opsize(t, arch);
    match m {
        AddressingMethod::E | AddressingMethod::M => Operand::ModRM(size, arch_addrsize(arch)),
        AddressingMethod::G => Operand::ModReg(size),
        AddressingMethod::I => Operand::Immediate(size),
    }
}

/// The mnemonics of the eight arithmetic-logic operations, in the order in which both the
/// opcode rows 0x00 to 0x3F and the extension field of opcodes 0x80 to 0x83 list them.
pub open spec fn alu_ident(k: u8) -> OpcodeType {
    if k == 0 {
        OpcodeType::Add
    } else if k == 1 {
        OpcodeType::Or
    } else if k == 2 {
        OpcodeType::Adc
    } else if k == 3 {
        OpcodeType::Sbb
    } else if k == 4 {
        OpcodeType::And
    } else if k == 5 {
        OpcodeType::Sub
    } else if k == 6 {
        OpcodeType::Xor
    } else {
        OpcodeType::Cmp
    }
}

/// The mnemonics that the extension field selects for opcode 0xFF; `Unknown` for 7.
pub open spec fn ff_ident(k: u8) -> OpcodeType {
    if k == 0 {
        OpcodeType::Inc
    } else if k == 1 {
        OpcodeType::Dec
    } else if k == 2 {
        OpcodeType::CallNear
    } else if k == 3 {
        OpcodeType::CallFar
    } else if k == 4 {
        OpcodeType::JmpNear
    } else if k == 5 {
        OpcodeType::JmpFar
    } else if k == 6 {
        OpcodeType::Push
    } else {
        OpcodeType::Unknown
    }
}

/// The operand templates of the six forms that each arithmetic-logic row has (and that the MOV
/// row 0x88 to 0x8B shares for its first four): Eb,Gb; Ev,Gv; Gb,Eb; Gv,Ev; AL,Ib; rAX,Iz.
pub open spec fn alu_operands(low: u8, arch: Arch) -> [Option<Operand>; 4] {
    let e = AddressingMethod::E;
    let g = AddressingMethod::G;
    let i = AddressingMethod::I;
    if low == 0 {
        [
            Some(operand_of_map(e, OperandType::B, arch)),
            Some(operand_of_map(g, OperandType::B, arch)),
            None,
            None,
        ]
    } else if low == 1 {
        [
            Some(operand_of_map(e, OperandType::V, arch)),
            Some(operand_of_map(g, OperandType::V, arch)),
            None,
            None,
        ]
    } else if low == 2 {
        [
            Some(operand_of_map(g, OperandType::B, arch)),
            Some(operand_of_map(e, OperandType::B, arch)),
            None,
            None,
        ]
    } else if low == 3 {
        [
            Some(operand_of_map(g, OperandType::V, arch)),
            Some(operand_of_map(e, OperandType::V, arch)),
            None,
            None,
        ]
    } else if low == 4 {
        [Some(Operand::Reg(Reg::AL)), Some(operand_of_map(i, OperandType::B, arch)), None, None]
    } else {
        [
            Some(Operand::RegFamily(RegFamily::Accumulator)),
            Some(operand_of_map(i, OperandType::Z, arch)),
            None,
            None,
        ]
    }
}

/// The encoding of the six arithmetic-logic forms.
pub open spec fn alu_encoding(low: u8) -> OperandEncoding {
    if low == 0 || low == 1 {
        OperandEncoding::MR
    } else if low == 2 || low == 3 {
        OperandEncoding::RM
    } else {
        OperandEncoding::I
    }
}

pub open spec fn bare_opcode(ident: OpcodeType, len: u8) -> Opcode {
    Opcode { ident, operands: [None, None, None, None], encoding: None, len }
}

/// An opcode of encoding ZO, without operands.
pub open spec fn zero_operand(ident: OpcodeType, len: u8) -> Opcode {
    Opcode { ident, operands: [None, None, None, None], encoding: Some(OperandEncoding::ZO), len }
}

pub open spec fn push_segment(seg: SegmentRegister, len: u8) -> Opcode {
    Opcode {
        ident: OpcodeType::Push,
        operands: [Some(Operand::Segment(seg)), None, None, None],
        encoding: Some(OperandEncoding::ZO),
        len,
    }
}

/// The one-byte opcode map. It is total: bytes it does not cover are `Unknown`.
pub open spec fn opcode_table(byte: u8, arch: Arch) -> Opcode {
    if byte < 0x40 && (byte & 7) <= 5 {
        Opcode {
            ident: alu_ident(byte >> 3),
            operands: alu_operands(byte & 7, arch),
            encoding: Some(alu_encoding(byte & 7)),
            len: 1,
        }
    } else if byte == 0x06 {
        push_segment(SegmentRegister::ES, 1)
    } else if byte == 0x0E {
        push_segment(SegmentRegister::CS, 1)
    } else if byte == 0x16 {
        push_segment(SegmentRegister::SS, 1)
    } else if byte == 0x1E {
        push_segment(SegmentRegister::DS, 1)
    } else if 0x50 <= byte && byte <= 0x57 {
        Opcode {
            ident: OpcodeType::Push,
            operands: [Some(Operand::RegInOpcode(byte)), None, None, None],
            encoding: Some(OperandEncoding::O),
            len: 1,
        }
    } else if byte == 0x68 || byte == 0x6A {
        let t = if byte == 0x68 { OperandType::Z } else { OperandType::B };
        Opcode {
            ident: OpcodeType::Push,
            operands: [Some(operand_of_map(AddressingMethod::I, t, arch)), None, None, None],
            encoding: Some(OperandEncoding::I),
            len: 1,
        }
    } else if (0x80 <= byte && byte <= 0x83) || byte == 0xFF {
        bare_opcode(OpcodeType::NeedsModRMExtension(byte), 1)
    } else if 0x88 <= byte && byte <= 0x8B {
        Opcode {
            ident: OpcodeType::Mov,
            operands: alu_operands(byte & 3, arch),
            encoding: Some(alu_encoding(byte & 3)),
            len: 1,
        }
    } else if byte == 0x8D {
        Opcode {
            ident: OpcodeType::Lea,
            operands: alu_operands(3, arch),
            encoding: Some(OperandEncoding::RM),
            len: 1,
        }
    } else {
        bare_opcode(OpcodeType::Unknown, 1)
    }
}

/// What one byte resolves to on its own: a legacy prefix, a REX prefix (64-bit mode only) or an
/// entry of the one-byte map.
pub open spec fn opcode_of_byte(byte: u8, arch: Arch) -> Opcode {
    if let Some(p) = prefix_of(byte) {
        bare_opcode(OpcodeType::Prefix(p), 1)
    } else if arch == Arch::Arch64 && rex_of(byte) is Some {
        bare_opcode(OpcodeType::Rex(rex_of(byte).unwrap()), 1)
    } else {
        opcode_table(byte, arch)
    }
}

/// An opcode that needs a ModR/M extension completed with extension field `ext`: its templates,
/// encoding and mnemonic for that extension. Any other opcode is left as it is.
pub open spec fn ext_convert(op: Opcode, ext: u8, arch: Arch) -> Opcode {
    match op.ident {
        OpcodeType::NeedsModRMExtension(byte) => {
            if 0x80 <= byte && byte <= 0x83 {
                let t1 = if byte == 0x81 || byte == 0x83 { OperandType::V } else { OperandType::B };
                let t2 = if byte == 0x81 { OperandType::Z } else { OperandType::B };
                Opcode {
                    ident: alu_ident(ext),
                    operands: [
                        Some(operand_of_map(AddressingMethod::E, t1, arch)),
                        Some(operand_of_map(AddressingMethod::I, t2, arch)),
                        None,
                        None,
                    ],
                    encoding: Some(OperandEncoding::MI),
                    len: op.len,
                }
            } else if byte == 0xFF && ext <= 6 {
                Opcode {
                    ident: ff_ident(ext),
                    operands: [
                        Some(operand_of_map(AddressingMethod::E, OperandType::V, arch)),
                        None,
                        None,
                        None,
                    ],
                    encoding: Some(OperandEncoding::M),
                    len: op.len,
                }
            } else {
                bare_opcode(OpcodeType::Unknown, op.len)
            }
        },
        _ => op,
    }
}

/// The rest of an opcode that starts with the escape byte, read off the front of `s` (the bytes
/// after the escape), given the prefixes that came before.
///
/// Without prefixes, 0x0F 0xA0 and 0x0F 0xA8 push FS and GS; any other second byte is invalid.
/// With prefixes, the first one decides: REP followed by 0x1E and then 0xFB or 0xFA is ENDBR32 or
/// ENDBR64 (any other third byte is invalid), REP followed by anything else, REPNE and the
/// operand-size override give `Unknown`, and every other prefix is invalid with the escape.
pub open spec fn escape_read(
    s: Seq<u8>,
    prefixes: Seq<Prefix>,
) -> Result<(Opcode, Seq<u8>), OpcodeError> {
    let nb = Err(OpcodeError::ReaderError(ReaderError::NotEnoughBytes));
    if prefixes.len() == 0 {
        match take_le::<u8>(s) {
            None => nb,
            Some((b2, t2)) => if b2 == 0xA0 {
                Ok((push_segment(SegmentRegister::FS, 2), t2))
            } else if b2 == 0xA8 {
                Ok((push_segment(SegmentRegister::GS, 2), t2))
            } else {
                Err(OpcodeError::InvalidOpcode(b2))
            },
        }
    } else {
        match prefixes[0] {
            Prefix::Group1(Group1::RepNE) | Prefix::OpSize => Ok((bare_opcode(OpcodeType::Unknown, 1), s)),
            Prefix::Group1(Group1::Rep) => match take_le::<u8>(s) {
                None => nb,
                Some((b2, t2)) => if b2 == 0x1E {
                    match take_le::<u8>(t2) {
                        None => nb,
                        Some((b3, t3)) => if b3 == 0xFB {
                            Ok((zero_operand(OpcodeType::EndBr32, 3), t3))
                        } else if b3 == 0xFA {
                            Ok((zero_operand(OpcodeType::EndBr64, 3), t3))
                        } else {
                            Err(OpcodeError::Invalid3ByteOpcode(ESCAPE_CODE, b2, b3))
                        },
                    }
                } else {
                    Ok((bare_opcode(OpcodeType::Unknown, 2), t2))
                },
            },
            p => Err(OpcodeError::InvalidPrefix(p)),
        }
    }
}

/// The opcode read off the front of `s` given the prefixes already accumulated, and the bytes
/// after it.
pub open spec fn opcode_read(
    s: Seq<u8>,
    prefixes: Seq<Prefix>,
    arch: Arch,
) -> Result<(Opcode, Seq<u8>), OpcodeError> {
    match take_le::<u8>(s) {
        None => Err(OpcodeError::ReaderError(ReaderError::NotEnoughBytes)),
        Some((b, t)) => if b == ESCAPE_CODE {
            escape_read(t, prefixes)
        } else {
            Ok((opcode_of_byte(b, arch), t))
        },
    }
}

pub open spec fn ext_result(value: u8) -> Result<RegFieldExt, RegFieldExtError> {
    if value <= 7 {
        Ok(RegFieldExt::spec_new(value))
    } else {
        Err(RegFieldExtError::CannotConvertFrom(value))
    }
}

impl RegFieldExt {
    #[verifier::type_invariant]
    spec fn inv(&self) -> bool {
        self.0 <= 7
    }

    pub closed spec fn spec_new(value: u8) -> RegFieldExt {
        RegFieldExt(value)
    }

    pub closed spec fn spec_value(&self) -> u8 {
        self.0
    }

    /// The extension a field value makes is that value.
    pub broadcast proof fn lemma_value(value: u8)
        ensures
            #[trigger] RegFieldExt::spec_new(value).spec_value() == value,
    {
    }

    pub fn value(&self) -> (r: u8)
        ensures
            r == self.spec_value(),
            r <= 7,
    {
        proof {
            use_type_invariant(self);
        }
        self.0
    }
}

impl TryFrom<u8> for RegFieldExt {
    type Error = RegFieldExtError;

    fn try_from(value: u8) -> (r: Result<Self, Self::Error>)
        ensures
            r == ext_result(value),
    {
        if value <= 7 {
            Ok(Self(value))
        } else {
            Err(RegFieldExtError::CannotConvertFrom(value))
        }
    }
}

impl vstd::std_specs::convert::TryFromSpecImpl<u8> for RegFieldExt {
    open spec fn obeys_try_from_spec() -> bool {
        true
    }

    open spec fn try_from_spec(value: u8) -> Result<Self, RegFieldExtError> {
        ext_result(value)
    }
}

impl Operand {
    /// The template for addressing method `addr_meth` and operand type `op_type`: type B is a
    /// byte, V the mode-derived size, Z a word in 16-bit mode and a doubleword otherwise, D a
    /// doubleword; methods E and M are ModR/M `r/m` operands at the mode's address size, G the
    /// ModR/M `reg` register and I an immediate.
    pub fn from_map(addr_meth: AddressingMethod, op_type: OperandType, arch: Arch) -> (r: Self)
        ensures
            r == operand_of_map(addr_meth, op_type, arch),
    {
        let op_size = match op_type {
            OperandType::B => OpSize::U8,
            OperandType::V => OpSize::CpuMode,
            OperandType::Z => match arch {
                Arch::Arch16 => OpSize::U16,
                Arch::Arch32 | Arch::Arch64 => OpSize::U32,
            },
            OperandType::D => OpSize::U32,
        };
        match addr_meth {
            AddressingMethod::E => Operand::ModRM(op_size, AddrSize::from(arch)),
            AddressingMethod::M => Operand::ModRM(op_size, AddrSize::from(arch)),
            AddressingMethod::G => Operand::ModReg(op_size),
            AddressingMethod::I => Operand::Immediate(op_size),
        }
    }
}

fn alu_ident_of(k: u8) -> (r: OpcodeType)
    ensures
        r == alu_ident(k),
{
    match k {
        0 => OpcodeType::Add,
        1 => OpcodeType::Or,
        2 => OpcodeType::Adc,
        3 => OpcodeType::Sbb,
        4 => OpcodeType::And,
        5 => OpcodeType::Sub,
        6 => OpcodeType::Xor,
        _ => OpcodeType::Cmp,
    }
}

fn ff_ident_of(k: u8) -> (r: OpcodeType)
    ensures
        r == ff_ident(k),
{
    match k {
        0 => OpcodeType::Inc,
        1 => OpcodeType::Dec,
        2 => OpcodeType::CallNear,
        3 => OpcodeType::CallFar,
        4 => OpcodeType::JmpNear,
        5 => OpcodeType::JmpFar,
        6 => OpcodeType::Push,
        _ => OpcodeType::Unknown,
    }
}

fn alu_operands_of(low: u8, arch: Arch) -> (r: [Option<Operand>; 4])
    ensures
        r == alu_operands(low, arch),
{
    let e = AddressingMethod::E;
    let g = AddressingMethod::G;
    let i = AddressingMethod::I;
    if low == 0 {
        [
            Some(Operand::from_map(e, OperandType::B, arch)),
            Some(Operand::from_map(g, OperandType::B, arch)),
            None,
            None,
        ]
    } else if low == 1 {
        [
            Some(Operand::from_map(e, OperandType::V, arch)),
            Some(Operand::from_map(g, OperandType::V, arch)),
            None,
            None,
        ]
    } else if low == 2 {
        [
            Some(Operand::from_map(g, OperandType::B, arch)),
            Some(Operand::from_map(e, OperandType::B, arch)),
            None,
            None,
        ]
    } else if low == 3 {
        [
            Some(Operand::from_map(g, OperandType::V, arch)),
            Some(Operand::from_map(e, OperandType::V, arch)),
            None,
            None,
        ]
    } else if low == 4 {
        [Some(Operand::Reg(Reg::AL)), Some(Operand::from_map(i, OperandType::B, arch)), None, None]
    } else {
        [
            Some(Operand::RegFamily(RegFamily::Accumulator)),
            Some(Operand::from_map(i, OperandType::Z, arch)),
            None,
            None,
        ]
    }
}

fn alu_encoding_of(low: u8) -> (r: OperandEncoding)
    ensures
        r == alu_encoding(low),
{
    if low == 0 || low == 1 {
        OperandEncoding::MR
    } else if low == 2 || low == 3 {
        OperandEncoding::RM
    } else {
        OperandEncoding::I
    }
}

fn bare(ident: OpcodeType, len: u8) -> (r: Opcode)
    ensures
        r == bare_opcode(ident, len),
{
    Opcode { ident, operands: [None, None, None, None], encoding: None, len }
}

fn zero_op(ident: OpcodeType, len: u8) -> (r: Opcode)
    ensures
        r == zero_operand(ident, len),
{
    Opcode { ident, operands: [None, None, None, None], encoding: Some(OperandEncoding::ZO), len }
}

fn push_seg(seg: SegmentRegister, len: u8) -> (r: Opcode)
    ensures
        r == push_segment(seg, len),
{
    Opcode {
        ident: OpcodeType::Push,
        operands: [Some(Operand::Segment(seg)), None, None, None],
        encoding: Some(OperandEncoding::ZO),
        len,
    }
}

impl Opcode {
    /// Reads one byte and resolves it on its own (see `opcode_of_byte`); no escape sequence is
    /// followed.
    pub fn from_reader_with_arch(reader: &mut Reader, arch: Arch) -> (r: Result<Self, OpcodeError>)
        ensures
            final(reader).data() == old(reader).data(),
            final(reader).position() >= old(reader).position(),
            match take_le::<u8>(old(reader).rest()) {
                Some((b, t)) => {
                    &&& r == Ok::<Opcode, OpcodeError>(opcode_of_byte(b, arch))
                    &&& final(reader).rest() == t
                },
                None => r == Err::<Opcode, OpcodeError>(
                    OpcodeError::ReaderError(ReaderError::NotEnoughBytes),
                ),
            },
    {
        let byte = match reader.read::<u8>() {
            Ok(b) => b,
            Err(e) => return Err(OpcodeError::ReaderError(e)),
        };
        Self::from_byte_with_arch(byte, arch)
    }

    /// Resolves one byte: a legacy prefix, a REX prefix in 64-bit mode, or an entry of the
    /// one-byte map (see `opcode_of_byte`). It never fails.
    pub fn from_byte_with_arch(byte: u8, arch: Arch) -> (r: Result<Self, OpcodeError>)
        ensures
            r == Ok::<Opcode, OpcodeError>(opcode_of_byte(byte, arch)),
    {
        if let Some(prefix) = Prefix::from_byte(byte) {
            return Ok(bare(OpcodeType::Prefix(prefix), 1));
        }
        if let Arch::Arch64 = arch {
            if let Some(rex) = Rex::from_byte(byte) {
                return Ok(bare(OpcodeType::Rex(rex), 1));
            }
        }
        let op = if byte < 0x40 && (byte & 7) <= 5 {
            Opcode {
                ident: alu_ident_of(byte >> 3),
                operands: alu_operands_of(byte & 7, arch),
                encoding: Some(alu_encoding_of(byte & 7)),
                len: 1,
            }
        } else if byte == 0x06 {
            push_seg(SegmentRegister::ES, 1)
        } else if byte == 0x0E {
            push_seg(SegmentRegister::CS, 1)
        } else if byte == 0x16 {
            push_seg(SegmentRegister::SS, 1)
        } else if byte == 0x1E {
            push_seg(SegmentRegister::DS, 1)
        } else if 0x50 <= byte && byte <= 0x57 {
            Opcode {
                ident: OpcodeType::Push,
                operands: [Some(Operand::RegInOpcode(byte)), None, None, None],
                encoding: Some(OperandEncoding::O),
                len: 1,
            }
        } else if byte == 0x68 || byte == 0x6A {
            let t = if byte == 0x68 { OperandType::Z } else { OperandType::B };
            Opcode {
                ident: OpcodeType::Push,
                operands: [Some(Operand::from_map(AddressingMethod::I, t, arch)), None, None, None],
                encoding: Some(OperandEncoding::I),
                len: 1,
            }
        } else if (0x80 <= byte && byte <= 0x83) || byte == 0xFF {
            bare(OpcodeType::NeedsModRMExtension(byte), 1)
        } else if 0x88 <= byte && byte <= 0x8B {
            Opcode {
                ident: OpcodeType::Mov,
                operands: alu_operands_of(byte & 3, arch),
                encoding: Some(alu_encoding_of(byte & 3)),
                len: 1,
            }
        } else if byte == 0x8D {
            Opcode {
                ident: OpcodeType::Lea,
                operands: alu_operands_of(3, arch),
                encoding: Some(OperandEncoding::RM),
                len: 1,
            }
        } else {
            bare(OpcodeType::Unknown, 1)
        };
        Ok(op)
    }

    /// Completes an opcode that needs a ModR/M extension with the extension field `ext` (see
    /// `ext_convert`); any other opcode is left as it is.
    pub fn convert_with_ext_arch(
        &mut self,
        ext: RegFieldExt,
        arch: Arch,
    ) -> (r: Result<(), OpcodeError>)
        ensures
            r is Ok,
            *final(self) == ext_convert(*old(self), ext.spec_value(), arch),
    {
        let ext = ext.value();
        if let OpcodeType::NeedsModRMExtension(byte) = self.ident {
            if 0x80 <= byte && byte <= 0x83 {
                let t1 = if byte == 0x81 || byte == 0x83 { OperandType::V } else { OperandType::B };
                let t2 = if byte == 0x81 { OperandType::Z } else { OperandType::B };
                self.operands = [
                    Some(Operand::from_map(AddressingMethod::E, t1, arch)),
                    Some(Operand::from_map(AddressingMethod::I, t2, arch)),
                    None,
                    None,
                ];
                self.encoding = Some(OperandEncoding::MI);
                self.ident = alu_ident_of(ext);
            } else if byte == 0xFF && ext <= 6 {
                self.operands = [
                    Some(Operand::from_map(AddressingMethod::E, OperandType::V, arch)),
                    None,
                    None,
                    None,
                ];
                self.encoding = Some(OperandEncoding::M);
                self.ident = ff_ident_of(ext);
            } else {
                self.operands = [None, None, None, None];
                self.encoding = None;
                self.ident = OpcodeType::Unknown;
            }
        }
        Ok(())
    }

    /// Reads an opcode given the prefixes already accumulated (see `opcode_read`). This is where
    /// two- and three-byte opcodes are read; REX prefixes are the caller's to handle.
    pub fn with_prefix_arch(
        reader: &mut Reader,
        prefixs: &[Prefix],
        arch: Arch,
    ) -> (r: Result<Self, OpcodeError>)
        ensures
            final(reader).data() == old(reader).data(),
            final(reader).position() >= old(reader).position(),
            match opcode_read(old(reader).rest(), prefixs@, arch) {
                Ok((op, t)) => r == Ok::<Opcode, OpcodeError>(op) && final(reader).rest() == t,
                Err(e) => r == Err::<Opcode, OpcodeError>(e),
            },
    {
        let first_byte = match reader.read::<u8>() {
            Ok(b) => b,
            Err(e) => return Err(OpcodeError::ReaderError(e)),
        };
        if first_byte != ESCAPE_CODE {
            return Self::from_byte_with_arch(first_byte, arch);
        }
        if prefixs.len() == 0 {
            let second_byte = match reader.read::<u8>() {
                Ok(b) => b,
                Err(e) => return Err(OpcodeError::ReaderError(e)),
            };
            return match second_byte {
                0xA0 => Ok(push_seg(SegmentRegister::FS, 2)),
                0xA8 => Ok(push_seg(SegmentRegister::GS, 2)),
                _ => Err(OpcodeError::InvalidOpcode(second_byte)),
            };
        }
        let prefix = prefixs[0];
        match prefix {
            Prefix::Group1(Group1::RepNE) | Prefix::OpSize => Ok(bare(OpcodeType::Unknown, 1)),
            Prefix::Group1(Group1::Rep) => {
                let second_byte = match reader.read::<u8>() {
                    Ok(b) => b,
                    Err(e) => return Err(OpcodeError::ReaderError(e)),
                };
                if second_byte != 0x1E {
                    return Ok(bare(OpcodeType::Unknown, 2));
                }
                let third_byte = match reader.read::<u8>() {
                    Ok(b) => b,
                    Err(e) => return Err(OpcodeError::ReaderError(e)),
                };
                match third_byte {
                    0xFB => Ok(zero_op(OpcodeType::EndBr32, 3)),
                    0xFA => Ok(zero_op(OpcodeType::EndBr64, 3)),
                    _ => Err(OpcodeError::Invalid3ByteOpcode(first_byte, second_byte, third_byte)),
                }
            },
            _ => Err(OpcodeError::InvalidPrefix(prefix)),
        }
    }
}

impl From<ReaderError> for OpcodeError {
    fn from(value: ReaderError) -> (r: Self)
        ensures
            r == OpcodeError::ReaderError(value),
    {
        OpcodeError::ReaderError(value)
    }
}

impl vstd::std_specs::convert::FromSpecImpl<ReaderError> for OpcodeError {
    open spec fn obeys_from_spec() -> bool {
        true
    }

    open spec fn from_spec(v: ReaderError) -> OpcodeError {
        OpcodeError::ReaderError(v)
    }
}

/// In 64-bit mode a byte 0x48 to 0x4F resolves to a REX record with W set, which makes the
/// operand size of the instruction it belongs to 64 bits.
pub proof fn lemma_rex_w_byte(value: u8)
    requires
        0x48 <= value <= 0x4F,
    ensures
        opcode_of_byte(value, Arch::Arch64).ident matches OpcodeType::Rex(x) && x.spec_w() == 1,
{
    lemma_rex_of_fields(value);
    assert((value >> 3) & 1 == 1) by (bit_vector)
        requires
            0x48 <= value <= 0x4F,
    ;
}

} // verus!
