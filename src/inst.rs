//! Assembly of one instruction from a byte cursor: prefixes, REX, opcode, ModR/M, SIB,
//! displacement, and the resolution of the operand templates into operands.
use vstd::prelude::*;

use crate::imm::{
    disp_read, imm_bits, imm_parse, imm_size, lemma_widen_compose, take_le, widen_spec, DispArch, DispError,
    Displacement, ImmError, Immediate,
};
use crate::modrm::{
    addressing_disp, addressing_eff_addr, addressing_has_sib, addressing_mod, addressing_rm_reg,
    addressing_with_disp, eff_addr_at, eff_addr_gpr, eff_addr_size, modrm_of, rex_b, sib32_of,
    sib64_of, sib_at, sib_base, sib_gpr, sib_size, sib_with_base, Addressing, Arch, EffAddrType,
    ModRM, Sib, Sib32, Sib64,
};
use crate::opcode::{
    op_bits, arch_addrsize, arch_opsize, ext_convert, opcode_read, AddrSize, OpSize, Opcode,
    OpcodeError, OpcodeType, Operand, OperandEncoding, RegFieldExt, RegFieldExtError,
};
use crate::prefix::Prefix;
use crate::reader::{FromLeBytes, Reader, ReaderError};
use crate::reg::{arch_reg, family_of, family_reg, is_gpr, reg_size, Reg, SegmentRegister};
use crate::rex::Rex;

verus! {

/// Anything that has an operand width.
pub trait SizedOperand {
    spec fn spec_size(&self) -> OpSize;

    fn size(&self) -> (r: OpSize)
        ensures
            r == self.spec_size(),
    ;
}

/// The most legacy prefixes accumulated for one instruction: a guard against malformed input,
/// not an architectural limit.
pub const MAX_PREFIXES: usize = 3;

/// A decoded instruction.
#[derive(Debug)]
pub struct Instruction {
    // Legacy prefixes, in the order they came
    pub prefixs: Vec<Prefix>,
    // The REX prefix, in 64-bit mode
    pub rex: Option<Rex>,
    // The resolved opcode, with its operand templates and encoding
    pub opcode: Opcode,
    // The ModR/M byte, when the encoding has one
    pub modrm: Option<ModRM>,
    // The SIB byte, when the ModR/M byte calls for one
    pub sib: Option<Sib>,
    // The displacement, when the addressing form has one
    pub disp: Option<Displacement>,
    // The immediate as it was read, before any widening
    pub imm: Option<Immediate>,
    // The resolved operands, up to four
    pub operands: [Option<ResolvedOperand>; 4],
    // The effective operand size the operands were resolved with
    pub op_size: OpSize,
}

/// The value of an `Instruction`, with its prefixes as a sequence.
pub struct InstructionView {
    pub prefixes: Seq<Prefix>,
    pub rex: Option<Rex>,
    pub opcode: Opcode,
    pub modrm: Option<ModRM>,
    pub sib: Option<Sib>,
    pub disp: Option<Displacement>,
    pub imm: Option<Immediate>,
    pub operands: [Option<ResolvedOperand>; 4],
    pub op_size: OpSize,
}

impl View for Instruction {
    type V = InstructionView;

    open spec fn view(&self) -> InstructionView {
        InstructionView {
            prefixes: self.prefixs@,
            rex: self.rex,
            opcode: self.opcode,
            modrm: self.modrm,
            sib: self.sib,
            disp: self.disp,
            imm: self.imm,
            operands: self.operands,
            op_size: self.op_size,
        }
    }
}

/// A resolved operand.
#[derive(Debug, Clone, Copy, PartialEq, Eq)]
pub enum ResolvedOperand {
    Immediate(Immediate),
    Reg(Reg),
    Segment(SegmentRegister),
    Mem((EffAddrType, Option<Sib>, Option<Displacement>)),
    // An operand template this decoder does not resolve (16-bit memory forms, operands embedded
    // in the opcode)
    ToBeDecided,
}

/// Errors of instruction decoding.
#[derive(Debug, Clone, Copy, PartialEq, Eq, Structural)]
pub enum InstructionError {
    OpcodeError(OpcodeError),
    ReaderError(ReaderError),
    RegFieldExtError(RegFieldExtError),
    DispError(DispError),
    ImmError(ImmError),
    InvalidModRMError,
}

/// What operand resolution works with once the opcode, ModR/M, SIB and displacement are known.
#[derive(Debug, Clone, Copy, PartialEq, Eq, Structural)]
pub struct OperandContext {
    pub arch: Arch,
    // Effective operand size, overrides applied
    pub op_size: OpSize,
    // Effective address size, overrides applied
    pub addr_size: AddrSize,
    pub rex: Option<Rex>,
    pub modrm: Option<ModRM>,
    pub sib: Option<Sib>,
    pub disp: Option<Displacement>,
}

pub open spec fn resolved_size(o: ResolvedOperand) -> OpSize {
    match o {
        ResolvedOperand::Immediate(i) => imm_size(i),
        ResolvedOperand::Reg(r) => reg_size(r),
        ResolvedOperand::Segment(_) => OpSize::U16,
        ResolvedOperand::Mem((e, maybe_sib, _)) => if eff_addr_size(e) == OpSize::CpuMode {
            match maybe_sib {
                Some(s) => sib_size(s),
                None => OpSize::CpuMode,
            }
        } else {
            eff_addr_size(e)
        },
        ResolvedOperand::ToBeDecided => OpSize::CpuMode,
    }
}

impl SizedOperand for ResolvedOperand {
    open spec fn spec_size(&self) -> OpSize {
        resolved_size(*self)
    }

    fn size(&self) -> (r: OpSize) {
        match self {
            ResolvedOperand::Immediate(imm) => imm.size(),
            ResolvedOperand::Reg(reg) => reg.size(),
            ResolvedOperand::Segment(_) => OpSize::U16,
            ResolvedOperand::Mem((eff_addr, maybe_sib, _)) => {
                let eff_addr_size = eff_addr.size();
                match eff_addr_size {
                    OpSize::CpuMode => match maybe_sib {
                        Some(sib) => sib.size(),
                        None => OpSize::CpuMode,
                    },
                    _ => eff_addr_size,
                }
            },
            ResolvedOperand::ToBeDecided => OpSize::CpuMode,
        }
    }
}

/// Whether operand size `s` follows the instruction's effective operand size rather than being
/// fixed by the template.
pub open spec fn overridable(s: OpSize) -> bool {
    s == OpSize::CpuMode || s == OpSize::U16 || s == OpSize::U32 || s == OpSize::U64
}

/// The effective operand size: the mode's default, flipped by an operand-size override (to 32
/// bits in 16-bit mode, to 16 bits otherwise), and 64 bits whenever REX.W is set, which wins
/// over the override.
pub open spec fn effective_opsize(arch: Arch, prefixes: Seq<Prefix>, rex: Option<Rex>) -> OpSize {
    if rex is Some && rex.unwrap().spec_w() == 1 {
        OpSize::U64
    } else if prefixes.contains(Prefix::OpSize) {
        if arch == Arch::Arch16 {
            OpSize::U32
        } else {
            OpSize::U16
        }
    } else {
        arch_opsize(arch)
    }
}

/// The effective address size: the mode's default, or 32 bits under an address-size override.
/// The override has no meaning in 16-bit mode here, and is refused there.
pub open spec fn effective_addrsize(
    arch: Arch,
    prefixes: Seq<Prefix>,
) -> Result<AddrSize, InstructionError> {
    if prefixes.contains(Prefix::AddrSize) {
        if arch == Arch::Arch16 {
            Err(InstructionError::OpcodeError(OpcodeError::InvalidPrefix(Prefix::AddrSize)))
        } else {
            Ok(AddrSize::Addr32Bit)
        }
    } else {
        Ok(arch_addrsize(arch))
    }
}

/// Accumulates legacy prefixes: while the opcode last read is a prefix and fewer than
/// `MAX_PREFIXES` are held, the prefix joins `prefixes` and the next opcode is read with them.
pub open spec fn scan_prefixes(
    s: Seq<u8>,
    prefixes: Seq<Prefix>,
    op: Opcode,
    arch: Arch,
) -> Result<(Seq<Prefix>, Opcode, Seq<u8>), OpcodeError>
    decreases MAX_PREFIXES - prefixes.len(),
{
    if op.ident is Prefix && prefixes.len() < MAX_PREFIXES {
        let ps = prefixes.push(op.ident->Prefix_0);
        match opcode_read(s, ps, arch) {
            Ok((op2, s2)) => scan_prefixes(s2, ps, op2, arch),
            Err(e) => Err(e),
        }
    } else {
        Ok((prefixes, op, s))
    }
}

/// Whether the encoding has a ModR/M byte.
pub open spec fn encoding_has_modrm(e: Option<OperandEncoding>) -> bool {
    match e {
        Some(OperandEncoding::M)
        | Some(OperandEncoding::MI)
        | Some(OperandEncoding::MR)
        | Some(OperandEncoding::RM) => true,
        _ => false,
    }
}

/// The SIB byte `b` under `arch`, and the addressing after the correction for a SIB base of
/// EBP/RBP under `mod` 0b00: that base is no base, and a 32-bit displacement follows instead.
pub open spec fn sib_stage(
    b: u8,
    a: Addressing,
    arch: Arch,
    rex: Option<Rex>,
) -> (Sib, Addressing) {
    let sib = if arch == Arch::Arch32 {
        Sib::Sib32(sib32_of(b))
    } else {
        Sib::Sib64(sib64_of(b, rex))
    };
    let frame = if arch == Arch::Arch32 { Reg::EBP } else { Reg::RBP };
    if addressing_mod(a) == 0 && sib_base(sib) == Some(frame) {
        (sib_with_base(sib, None), addressing_with_disp(a, Some(DispArch::Bit32)))
    } else {
        (sib, a)
    }
}

/// Reads the displacement that addressing `a` calls for, if any.
pub open spec fn disp_stage(
    a: Addressing,
    s: Seq<u8>,
) -> Result<(Option<Displacement>, Seq<u8>), InstructionError> {
    match addressing_disp(a) {
        Some(d) => match disp_read(d, s) {
            Ok((v, t)) => Ok((Some(v), t)),
            Err(e) => Err(InstructionError::DispError(e)),
        },
        None => Ok((None, s)),
    }
}

/// Reads the ModR/M byte, the SIB byte and the displacement that opcode `op` calls for.
#[verifier::opaque]
pub open spec fn modrm_stage(
    s: Seq<u8>,
    op: Opcode,
    arch: Arch,
    rex: Option<Rex>,
) -> Result<(Option<ModRM>, Option<Sib>, Option<Displacement>, Seq<u8>), InstructionError> {
    if !encoding_has_modrm(op.encoding) {
        Ok((None, None, None, s))
    } else {
        match take_le::<u8>(s) {
            None => Err(InstructionError::ReaderError(ReaderError::NotEnoughBytes)),
            Some((b, t)) => {
                let m = modrm_of(b, Some(arch), rex);
                if arch != Arch::Arch16 && addressing_has_sib(m.1) {
                    match take_le::<u8>(t) {
                        None => Err(InstructionError::ReaderError(ReaderError::NotEnoughBytes)),
                        Some((sb, t2)) => {
                            let (sib, a) = sib_stage(sb, m.1, arch, rex);
                            match disp_stage(a, t2) {
                                Ok((d, t3)) => Ok((Some(ModRM(m.0, a)), Some(sib), d, t3)),
                                Err(e) => Err(e),
                            }
                        },
                    }
                } else {
                    match disp_stage(m.1, t) {
                        Ok((d, t3)) => Ok((Some(m), None, d, t3)),
                        Err(e) => Err(e),
                    }
                }
            },
        }
    }
}

/// A register at the width that template size `s` gives under the effective size `eff`.
pub open spec fn reg_at(r: Reg, s: OpSize, eff: OpSize) -> Reg {
    family_reg(family_of(r).unwrap(), if overridable(s) { eff } else { s })
}

/// The register of a register-in-opcode template: the low three bits of the opcode byte,
/// extended by REX.B in 64-bit mode, at the effective operand size.
pub open spec fn reg_in_opcode(byte: u8, ctx: OperandContext) -> Reg {
    let low = byte & 0b111;
    let idx = if ctx.arch == Arch::Arch64 { (rex_b(ctx.rex) << 3) | low } else { low };
    family_reg(family_of(arch_reg(idx, Some(ctx.arch))).unwrap(), ctx.op_size)
}

/// A ModR/M `r/m` template: the register for `mod` 0b11, else the memory operand at the
/// address size (the template's, or the effective one where the template has the 64-bit
/// default). 16-bit memory forms are left undecided.
pub open spec fn modrm_operand(
    size: OpSize,
    asize: AddrSize,
    ctx: OperandContext,
) -> Result<ResolvedOperand, InstructionError> {
    match ctx.modrm {
        None => Err(InstructionError::InvalidModRMError),
        Some(m) => if addressing_mod(m.1) == 0b11 {
            match addressing_rm_reg(m.1) {
                Some(r) => Ok(ResolvedOperand::Reg(reg_at(r, size, ctx.op_size))),
                None => Err(InstructionError::InvalidModRMError),
            }
        } else if m.1 is EffAddr16Bit {
            Ok(ResolvedOperand::ToBeDecided)
        } else {
            let a = if asize == AddrSize::Addr64Bit { ctx.addr_size } else { asize };
            let sib = match ctx.sib {
                Some(x) => Some(sib_at(x, a)),
                None => None,
            };
            Ok(ResolvedOperand::Mem((eff_addr_at(addressing_eff_addr(m.1), a), sib, ctx.disp)))
        },
    }
}

/// Resolves one operand template, reading its immediate off the front of `s` if it has one.
/// `prev` is the operand resolved just before; an immediate is widened to its size. The result
/// holds the operand, the immediate as read, and the bytes after it.
pub open spec fn resolve_slot(
    t: Option<Operand>,
    prev: Option<ResolvedOperand>,
    ctx: OperandContext,
    s: Seq<u8>,
) -> Result<(Option<ResolvedOperand>, Option<Immediate>, Seq<u8>), InstructionError> {
    match t {
        None => Ok((None, None, s)),
        Some(Operand::Immediate(sz)) | Some(Operand::SignedImmediate(sz)) => {
            let read_size = if overridable(sz) { ctx.op_size } else { sz };
            match imm_parse(read_size, s) {
                Err(e) => Err(InstructionError::ImmError(e)),
                Ok((i, s2)) => {
                    let v = match prev {
                        Some(p) => widen_spec(i, resolved_size(p)),
                        None => i,
                    };
                    Ok((Some(ResolvedOperand::Immediate(v)), Some(i), s2))
                },
            }
        },
        Some(Operand::RegFamily(f)) => Ok((Some(ResolvedOperand::Reg(family_reg(f, ctx.op_size))), None, s)),
        Some(Operand::Reg(r)) => Ok((Some(ResolvedOperand::Reg(r)), None, s)),
        Some(Operand::Segment(sr)) => Ok((Some(ResolvedOperand::Segment(sr)), None, s)),
        Some(Operand::RegInOpcode(b)) => Ok((Some(ResolvedOperand::Reg(reg_in_opcode(b, ctx))), None, s)),
        Some(Operand::ModRM(sz, asz)) => match modrm_operand(sz, asz, ctx) {
            Ok(o) => Ok((Some(o), None, s)),
            Err(e) => Err(e),
        },
        Some(Operand::ModReg(sz)) => match ctx.modrm {
            None => Err(InstructionError::InvalidModRMError),
            Some(m) => Ok((Some(ResolvedOperand::Reg(reg_at(m.0, sz, ctx.op_size))), None, s)),
        },
        Some(Operand::Opcode(_)) => Ok((Some(ResolvedOperand::ToBeDecided), None, s)),
    }
}

pub open spec fn latest_imm(acc: Option<Immediate>, i: Option<Immediate>) -> Option<Immediate> {
    if i is Some { i } else { acc }
}

/// Resolves the four templates of `op` from left to right.
pub open spec fn resolve_all(
    op: Opcode,
    ctx: OperandContext,
    s: Seq<u8>,
) -> Result<([Option<ResolvedOperand>; 4], Option<Immediate>, Seq<u8>), InstructionError> {
    match resolve_slot(op.operands[0], None, ctx, s) {
        Err(e) => Err(e),
        Ok((r0, i0, s0)) => match resolve_slot(op.operands[1], r0, ctx, s0) {
            Err(e) => Err(e),
            Ok((r1, i1, s1)) => match resolve_slot(op.operands[2], r1, ctx, s1) {
                Err(e) => Err(e),
                Ok((r2, i2, s2)) => match resolve_slot(op.operands[3], r2, ctx, s2) {
                    Err(e) => Err(e),
                    Ok((r3, i3, s3)) => {
                        let imm = latest_imm(latest_imm(latest_imm(i0, i1), i2), i3);
                        Ok(([r0, r1, r2, r3], imm, s3))
                    },
                },
            },
        },
    }
}

pub open spec fn has_operands(op: Opcode) -> bool {
    op.operands[0] is Some || op.operands[1] is Some || op.operands[2] is Some || op.operands[3] is Some
}

/// A REX prefix, if the opcode after the legacy prefixes is one (the opcode is then read again),
/// and the completion of an opcode that needs a ModR/M extension from the `reg` field of the
/// next byte, which is not consumed.
#[verifier::opaque]
pub open spec fn rex_ext_stage(
    s: Seq<u8>,
    prefixes: Seq<Prefix>,
    op0: Opcode,
    arch: Arch,
) -> Result<(Option<Rex>, Opcode, Seq<u8>), InstructionError> {
    let rex_read: Result<(Option<Rex>, Opcode, Seq<u8>), InstructionError> = if op0.ident is Rex {
        match opcode_read(s, prefixes, arch) {
            Ok((op1, s1)) => Ok((Some(op0.ident->Rex_0), op1, s1)),
            Err(e) => Err(InstructionError::OpcodeError(e)),
        }
    } else {
        Ok((None, op0, s))
    };
    match rex_read {
        Err(e) => Err(e),
        Ok((rex, op1, s1)) => if op1.ident is NeedsModRMExtension {
            match take_le::<u8>(s1) {
                None => Err(InstructionError::ReaderError(ReaderError::NotEnoughBytes)),
                Some((b, _)) => Ok((rex, ext_convert(op1, (b >> 3) & 0b111, arch), s1)),
            }
        } else {
            Ok((rex, op1, s1))
        },
    }
}

/// The operand context and the resolved operands, once ModR/M, SIB and displacement are read.
#[verifier::opaque]
pub open spec fn operands_stage(
    s: Seq<u8>,
    prefixes: Seq<Prefix>,
    rex: Option<Rex>,
    op: Opcode,
    modrm: Option<ModRM>,
    sib: Option<Sib>,
    disp: Option<Displacement>,
    arch: Arch,
) -> Result<(InstructionView, Seq<u8>), InstructionError> {
    let op_size = effective_opsize(arch, prefixes, rex);
    let addr = effective_addrsize(arch, prefixes);
    if addr is Err && has_operands(op) {
        Err(addr->Err_0)
    } else {
        let ctx = OperandContext {
            arch,
            op_size,
            addr_size: match addr {
                Ok(a) => a,
                Err(_) => arch_addrsize(arch),
            },
            rex,
            modrm,
            sib,
            disp,
        };
        match resolve_all(op, ctx, s) {
            Err(e) => Err(e),
            Ok((operands, imm, s3)) => Ok((
                InstructionView { prefixes, rex, opcode: op, modrm, sib, disp, imm, operands, op_size },
                s3,
            )),
        }
    }
}

/// From the prefixes on: REX, the opcode extension, ModR/M, SIB, displacement and operands.
pub open spec fn decode_after_prefixes(
    s: Seq<u8>,
    prefixes: Seq<Prefix>,
    op0: Opcode,
    arch: Arch,
) -> Result<(InstructionView, Seq<u8>), InstructionError> {
    match rex_ext_stage(s, prefixes, op0, arch) {
        Err(e) => Err(e),
        Ok((rex, op, s1)) => match modrm_stage(s1, op, arch, rex) {
            Err(e) => Err(e),
            Ok((modrm, sib, disp, s2)) => operands_stage(s2, prefixes, rex, op, modrm, sib, disp, arch),
        },
    }
}

/// One instruction decoded off the front of `s` under `arch`, and the bytes after it.
#[verifier::opaque]
pub open spec fn decode_spec(
    s: Seq<u8>,
    arch: Arch,
) -> Result<(InstructionView, Seq<u8>), InstructionError> {
    match opcode_read(s, Seq::empty(), arch) {
        Err(e) => Err(InstructionError::OpcodeError(e)),
        Ok((op0, s0)) => match scan_prefixes(s0, Seq::empty(), op0, arch) {
            Err(e) => Err(InstructionError::OpcodeError(e)),
            Ok((prefixes, op1, s1)) => decode_after_prefixes(s1, prefixes, op1, arch),
        },
    }
}

/// The CPU mode a decode runs in: 32-bit when none is given.
pub open spec fn mode_or_default(maybe_arch: Option<Arch>) -> Arch {
    match maybe_arch {
        Some(a) => a,
        None => Arch::Arch32,
    }
}

/// Whether the registers a ModR/M byte names are general-purpose ones.
pub open spec fn modrm_gpr(m: ModRM) -> bool {
    &&& is_gpr(m.0)
    &&& match addressing_rm_reg(m.1) {
        Some(r) => is_gpr(r),
        None => true,
    }
    &&& eff_addr_gpr(addressing_eff_addr(m.1))
}

/// Whether the registers of the context are general-purpose ones.
pub open spec fn context_gpr(ctx: OperandContext) -> bool {
    &&& match ctx.modrm {
        Some(m) => modrm_gpr(m),
        None => true,
    }
    &&& match ctx.sib {
        Some(x) => sib_gpr(x),
        None => true,
    }
}

proof fn lemma_numbered_regs_gpr(v: u8)
    ensures
        is_gpr(crate::reg::rm16_reg(v)),
        is_gpr(crate::reg::rm32_reg(v)),
        is_gpr(crate::reg::rm64_reg(v)),
        forall|a: Option<Arch>| #[trigger] is_gpr(arch_reg(v, a)),
{
}

proof fn lemma_modrm_gpr(b: u8, arch: Arch, rex: Option<Rex>)
    ensures
        modrm_gpr(modrm_of(b, Some(arch), rex)),
        forall|d: Option<DispArch>|
            #[trigger] modrm_gpr(
                ModRM(
                    modrm_of(b, Some(arch), rex).0,
                    addressing_with_disp(modrm_of(b, Some(arch), rex).1, d),
                ),
            ),
{
    lemma_numbered_regs_gpr((b >> 3) & 0b111);
    lemma_numbered_regs_gpr((crate::modrm::rex_r(rex) << 3) | ((b >> 3) & 0b111));
    lemma_numbered_regs_gpr(b & 0b111);
    lemma_numbered_regs_gpr((rex_b(rex) << 3) | (b & 0b111));
}

proof fn lemma_sib_gpr(b: u8, arch: Arch, rex: Option<Rex>)
    ensures
        forall|a: Addressing| #[trigger] sib_gpr(sib_stage(b, a, arch, rex).0),
{
    lemma_numbered_regs_gpr(b & 0b111);
    lemma_numbered_regs_gpr((b >> 3) & 0b111);
    lemma_numbered_regs_gpr((rex_b(rex) << 3) | (b & 0b111));
    lemma_numbered_regs_gpr((crate::modrm::rex_x(rex) << 3) | ((b >> 3) & 0b111));
}

/// Whether `p` is among `ps`.
fn has_prefix(ps: &[Prefix], p: Prefix) -> (r: bool)
    ensures
        r == ps@.contains(p),
{
    let mut i: usize = 0;
    while i < ps.len()
        invariant
            i <= ps@.len(),
            forall|j: int| 0 <= j < i ==> ps@[j] != p,
        decreases ps@.len() - i,
    {
        if ps[i] == p {
            return true;
        }
        i = i + 1;
    }
    false
}

fn is_overridable(s: OpSize) -> (r: bool)
    ensures
        r == overridable(s),
{
    match s {
        OpSize::CpuMode | OpSize::U16 | OpSize::U32 | OpSize::U64 => true,
        _ => false,
    }
}

/// Reads the ModR/M byte, the SIB byte and the displacement that `op` calls for (see
/// `modrm_stage`).
fn read_modrm(
    reader: &mut Reader,
    op: &Opcode,
    arch: Arch,
    rex: Option<Rex>,
) -> (r: Result<(Option<ModRM>, Option<Sib>, Option<Displacement>), InstructionError>)
    ensures
        final(reader).data() == old(reader).data(),
        final(reader).position() >= old(reader).position(),
        match modrm_stage(old(reader).rest(), *op, arch, rex) {
            Ok((m, x, d, t)) => {
                &&& r == Ok::<(Option<ModRM>, Option<Sib>, Option<Displacement>), InstructionError>((m, x, d))
                &&& final(reader).rest() == t
                &&& (m matches Some(mm) ==> modrm_gpr(mm))
                &&& (x matches Some(xx) ==> sib_gpr(xx))
            },
            Err(e) => r == Err::<(Option<ModRM>, Option<Sib>, Option<Displacement>), InstructionError>(e),
        },
{
    proof {
        reveal(modrm_stage);
    }
    let has_modrm = match op.encoding {
        Some(OperandEncoding::M)
        | Some(OperandEncoding::MI)
        | Some(OperandEncoding::MR)
        | Some(OperandEncoding::RM) => true,
        _ => false,
    };
    if !has_modrm {
        return Ok((None, None, None));
    }
    let b = match reader.read::<u8>() {
        Ok(b) => b,
        Err(e) => return Err(InstructionError::ReaderError(e)),
    };
    proof {
        lemma_modrm_gpr(b, arch, rex);
    }
    let mut modrm = ModRM::from_byte_with_arch(b, Some(arch), rex);
    let mut maybe_sib = None;
    if arch != Arch::Arch16 && modrm.1.has_sib() {
        let sb = match reader.read::<u8>() {
            Ok(b) => b,
            Err(e) => return Err(InstructionError::ReaderError(e)),
        };
        proof {
            lemma_sib_gpr(sb, arch, rex);
        }
        let mut sib = if arch == Arch::Arch32 {
            Sib::Sib32(Sib32::from(sb))
        } else {
            Sib::Sib64(Sib64::from_byte_with_rex(sb, rex))
        };
        let frame = if arch == Arch::Arch32 { Reg::EBP } else { Reg::RBP };
        // With `mod` 0b00 a SIB base of EBP/RBP would collide with the bare displacement
        // form: it means no base and a 32-bit displacement
        let frame_base = match sib.base() {
            Some(base) => base == frame,
            None => false,
        };
        if modrm.1.mod_bits() == 0 && frame_base {
            sib.set_base(None);
            modrm.1.set_displacement(Some(DispArch::Bit32));
        }
        maybe_sib = Some(sib);
    }
    let disp = match modrm.1.displacement() {
        Some(d) => match d.read(reader) {
            Ok(v) => Some(v),
            Err(e) => return Err(InstructionError::DispError(e)),
        },
        None => None,
    };
    Ok((Some(modrm), maybe_sib, disp))
}

/// Resolves a ModR/M `r/m` template (see `modrm_operand`).
fn resolve_modrm(
    size: OpSize,
    asize: AddrSize,
    ctx: &OperandContext,
) -> (r: Result<ResolvedOperand, InstructionError>)
    requires
        context_gpr(*ctx),
    ensures
        r == modrm_operand(size, asize, *ctx),
{
    let m = match ctx.modrm {
        Some(m) => m,
        None => return Err(InstructionError::InvalidModRMError),
    };
    if m.mod_bits() == 0b11 {
        let reg = match m.rm_reg() {
            Some(r) => r,
            None => return Err(InstructionError::InvalidModRMError),
        };
        let s = if is_overridable(size) { ctx.op_size } else { size };
        return Ok(ResolvedOperand::Reg(reg.convert_with_opsize(&s)));
    }
    if let Addressing::EffAddr16Bit(_) = m.1 {
        return Ok(ResolvedOperand::ToBeDecided);
    }
    let a = if asize == AddrSize::Addr64Bit { ctx.addr_size } else { asize };
    let eff = m.rm_mem().convert_with_addrsize(a);
    let sib = match ctx.sib {
        Some(x) => Some(x.convert_with_addrsize(a)),
        None => None,
    };
    Ok(ResolvedOperand::Mem((eff, sib, ctx.disp)))
}

/// Resolves one operand template (see `resolve_slot`).
fn resolve_operand(
    reader: &mut Reader,
    t: Option<Operand>,
    prev: Option<ResolvedOperand>,
    ctx: &OperandContext,
) -> (r: Result<(Option<ResolvedOperand>, Option<Immediate>), InstructionError>)
    requires
        context_gpr(*ctx),
    ensures
        final(reader).data() == old(reader).data(),
        final(reader).position() >= old(reader).position(),
        match resolve_slot(t, prev, *ctx, old(reader).rest()) {
            Ok((o, i, s2)) => {
                &&& r == Ok::<(Option<ResolvedOperand>, Option<Immediate>), InstructionError>((o, i))
                &&& final(reader).rest() == s2
            },
            Err(e) => r == Err::<(Option<ResolvedOperand>, Option<Immediate>), InstructionError>(e),
        },
{
    match t {
        None => Ok((None, None)),
        Some(Operand::Immediate(sz)) | Some(Operand::SignedImmediate(sz)) => {
            let read_size = if is_overridable(sz) { ctx.op_size } else { sz };
            let i = match Immediate::parse(&read_size, reader) {
                Ok(i) => i,
                Err(e) => return Err(InstructionError::ImmError(e)),
            };
            // An immediate takes the size of the operand before it when that one is wider
            let v = match prev {
                Some(p) => i.widen(p.size()),
                None => i,
            };
            Ok((Some(ResolvedOperand::Immediate(v)), Some(i)))
        },
        Some(Operand::RegFamily(f)) => Ok((Some(ResolvedOperand::Reg(f.reg_from(&ctx.op_size))), None)),
        Some(Operand::Reg(r)) => Ok((Some(ResolvedOperand::Reg(r)), None)),
        Some(Operand::Segment(sr)) => Ok((Some(ResolvedOperand::Segment(sr)), None)),
        Some(Operand::RegInOpcode(b)) => {
            let low = b & 0b111;
            let idx = if ctx.arch == Arch::Arch64 {
                let rb = match ctx.rex {
                    Some(rex) => rex.b(),
                    None => 0,
                };
                (rb << 3) | low
            } else {
                low
            };
            proof {
                lemma_numbered_regs_gpr(idx);
            }
            let reg = Reg::from_byte_with_arch(idx, Some(ctx.arch));
            Ok((Some(ResolvedOperand::Reg(reg.convert_with_opsize(&ctx.op_size))), None))
        },
        Some(Operand::ModRM(sz, asz)) => match resolve_modrm(sz, asz, ctx) {
            Ok(o) => Ok((Some(o), None)),
            Err(e) => Err(e),
        },
        Some(Operand::ModReg(sz)) => match ctx.modrm {
            None => Err(InstructionError::InvalidModRMError),
            Some(m) => {
                let s = if is_overridable(sz) { ctx.op_size } else { sz };
                Ok((Some(ResolvedOperand::Reg(m.reg().convert_with_opsize(&s))), None))
            },
        },
        Some(Operand::Opcode(_)) => Ok((Some(ResolvedOperand::ToBeDecided), None)),
    }
}

/// Reads the first opcode and accumulates the legacy prefixes before it (see `scan_prefixes`).
fn read_prefixes(reader: &mut Reader, arch: Arch) -> (r: Result<(Vec<Prefix>, Opcode), OpcodeError>)
    ensures
        final(reader).data() == old(reader).data(),
        final(reader).position() >= old(reader).position(),
        match opcode_read(old(reader).rest(), Seq::empty(), arch) {
            Err(e) => r == Err::<(Vec<Prefix>, Opcode), OpcodeError>(e),
            Ok((op0, s0)) => match scan_prefixes(s0, Seq::empty(), op0, arch) {
                Ok((ps, op, t)) => r matches Ok((v, o)) && v@ == ps && o == op && final(reader).rest() == t,
                Err(e) => r == Err::<(Vec<Prefix>, Opcode), OpcodeError>(e),
            },
        },
{
    let ghost s0 = reader.rest();
    let mut prefixs: Vec<Prefix> = Vec::new();
    let mut op = match Opcode::with_prefix_arch(reader, prefixs.as_slice(), arch) {
        Ok(op) => op,
        Err(e) => return Err(e),
    };
    proof {
        assert(prefixs@ =~= Seq::<Prefix>::empty());
    }
    let ghost first = op;
    let ghost s1 = reader.rest();
    let ghost target = scan_prefixes(s1, Seq::empty(), first, arch);
    while matches!(op.ident, OpcodeType::Prefix(_)) && prefixs.len() < MAX_PREFIXES
        invariant
            reader.data() == old(reader).data(),
            reader.position() >= old(reader).position(),
            prefixs@.len() <= MAX_PREFIXES,
            s0 == old(reader).rest(),
            opcode_read(s0, Seq::empty(), arch) == Ok::<(Opcode, Seq<u8>), OpcodeError>((first, s1)),
            target == scan_prefixes(s1, Seq::empty(), first, arch),
            target == scan_prefixes(reader.rest(), prefixs@, op, arch),
        decreases MAX_PREFIXES - prefixs@.len(),
    {
        let ghost before = reader.rest();
        let ghost ps_before = prefixs@;
        let ghost op_before = op;
        if let OpcodeType::Prefix(p) = op.ident {
            prefixs.push(p);
        }
        assert(prefixs@ == ps_before.push(op_before.ident->Prefix_0));
        let next = Opcode::with_prefix_arch(reader, prefixs.as_slice(), arch);
        assert(scan_prefixes(before, ps_before, op_before, arch) == match opcode_read(
            before,
            prefixs@,
            arch,
        ) {
            Ok((op2, s2)) => scan_prefixes(s2, prefixs@, op2, arch),
            Err(e) => Err(e),
        });
        op = match next {
            Ok(op) => op,
            Err(e) => return Err(e),
        };
    }
    Ok((prefixs, op))
}

/// Handles a REX prefix and completes an opcode that needs a ModR/M extension (see
/// `rex_ext_stage`).
fn read_rex_ext(
    reader: &mut Reader,
    prefixs: &[Prefix],
    op0: Opcode,
    arch: Arch,
) -> (r: Result<(Option<Rex>, Opcode), InstructionError>)
    ensures
        final(reader).data() == old(reader).data(),
        final(reader).position() >= old(reader).position(),
        match rex_ext_stage(old(reader).rest(), prefixs@, op0, arch) {
            Ok((rex, op, t)) => {
                &&& r == Ok::<(Option<Rex>, Opcode), InstructionError>((rex, op))
                &&& final(reader).rest() == t
            },
            Err(e) => r == Err::<(Option<Rex>, Opcode), InstructionError>(e),
        },
{
    proof {
        reveal(rex_ext_stage);
    }
    let mut op = op0;
    let mut maybe_rex: Option<Rex> = None;
    if let OpcodeType::Rex(rex) = op.ident {
        maybe_rex = Some(rex);
        op = match Opcode::with_prefix_arch(reader, prefixs, arch) {
            Ok(op) => op,
            Err(e) => return Err(InstructionError::OpcodeError(e)),
        };
    }
    // Peek at the `reg` field of the ModR/M byte without consuming it
    if let OpcodeType::NeedsModRMExtension(_) = op.ident {
        let modrm_byte = match reader.peek::<u8>() {
            Ok(b) => b,
            Err(e) => return Err(InstructionError::ReaderError(e)),
        };
        let reg = (modrm_byte >> 3) & 0b111;
        assert(reg <= 7) by (bit_vector)
            requires
                reg == (modrm_byte >> 3) & 0b111,
        ;
        proof {
            RegFieldExt::lemma_value(reg);
        }
        let ext = match RegFieldExt::try_from(reg) {
            Ok(ext) => ext,
            Err(e) => return Err(InstructionError::RegFieldExtError(e)),
        };
        match op.convert_with_ext_arch(ext, arch) {
            Ok(()) => {},
            Err(e) => return Err(InstructionError::OpcodeError(e)),
        }
    }
    Ok((maybe_rex, op))
}

/// Builds the operand context and resolves the four operand templates (see `operands_stage`).
fn read_operands(
    reader: &mut Reader,
    prefixs: Vec<Prefix>,
    maybe_rex: Option<Rex>,
    op: Opcode,
    maybe_modrm: Option<ModRM>,
    maybe_sib: Option<Sib>,
    maybe_disp: Option<Displacement>,
    arch: Arch,
) -> (r: Result<Instruction, InstructionError>)
    requires
        maybe_modrm matches Some(m) ==> modrm_gpr(m),
        maybe_sib matches Some(x) ==> sib_gpr(x),
    ensures
        final(reader).data() == old(reader).data(),
        final(reader).position() >= old(reader).position(),
        match operands_stage(
            old(reader).rest(),
            prefixs@,
            maybe_rex,
            op,
            maybe_modrm,
            maybe_sib,
            maybe_disp,
            arch,
        ) {
            Ok((v, t)) => r matches Ok(inst) && inst@ == v && final(reader).rest() == t,
            Err(e) => r == Err::<Instruction, InstructionError>(e),
        },
{
    proof {
        reveal(operands_stage);
    }
    // Operand size: the mode's default, flipped by 0x66, and 64-bit under REX.W
    let mut op_size = OpSize::from(arch);
    if has_prefix(prefixs.as_slice(), Prefix::OpSize) {
        op_size = match arch {
            Arch::Arch16 => OpSize::U32,
            Arch::Arch32 | Arch::Arch64 => OpSize::U16,
        };
    }
    if let Some(rex) = maybe_rex {
        if rex.w() == 1 {
            op_size = OpSize::U64;
        }
    }
    // Address size: the mode's default, or 32-bit under 0x67
    let mut addr_size = AddrSize::from(arch);
    if has_prefix(prefixs.as_slice(), Prefix::AddrSize) {
        match arch {
            Arch::Arch16 => {
                let any = op.operands[0].is_some() || op.operands[1].is_some() || op.operands[2].is_some()
                    || op.operands[3].is_some();
                if any {
                    return Err(InstructionError::OpcodeError(OpcodeError::InvalidPrefix(Prefix::AddrSize)));
                }
            },
            Arch::Arch32 | Arch::Arch64 => addr_size = AddrSize::Addr32Bit,
        }
    }
    let ctx = OperandContext {
        arch,
        op_size,
        addr_size,
        rex: maybe_rex,
        modrm: maybe_modrm,
        sib: maybe_sib,
        disp: maybe_disp,
    };
    let (r0, i0) = match resolve_operand(reader, op.operands[0], None, &ctx) {
        Ok(t) => t,
        Err(e) => return Err(e),
    };
    let (r1, i1) = match resolve_operand(reader, op.operands[1], r0, &ctx) {
        Ok(t) => t,
        Err(e) => return Err(e),
    };
    let (r2, i2) = match resolve_operand(reader, op.operands[2], r1, &ctx) {
        Ok(t) => t,
        Err(e) => return Err(e),
    };
    let (r3, i3) = match resolve_operand(reader, op.operands[3], r2, &ctx) {
        Ok(t) => t,
        Err(e) => return Err(e),
    };
    let mut maybe_imm = i0;
    if i1.is_some() {
        maybe_imm = i1;
    }
    if i2.is_some() {
        maybe_imm = i2;
    }
    if i3.is_some() {
        maybe_imm = i3;
    }
    Ok(Instruction {
        prefixs,
        rex: maybe_rex,
        opcode: op,
        modrm: maybe_modrm,
        sib: maybe_sib,
        disp: maybe_disp,
        imm: maybe_imm,
        operands: [r0, r1, r2, r3],
        op_size,
    })
}

/// Decodes one instruction (see `Instruction::from_reader`); after an error the position is
/// wherever the failing read left it.
fn read_instruction(
    reader: &mut Reader,
    maybe_arch: Option<Arch>,
) -> (r: Result<Instruction, InstructionError>)
    ensures
        final(reader).data() == old(reader).data(),
        final(reader).position() >= old(reader).position(),
        match decode_spec(old(reader).rest(), mode_or_default(maybe_arch)) {
            Ok((v, t)) => r matches Ok(inst) && inst@ == v && final(reader).rest() == t,
            Err(e) => r == Err::<Instruction, InstructionError>(e),
        },
        r matches Ok(inst) ==> {
            &&& encoded_len(inst@) <= old(reader).rest().len()
            &&& final(reader).rest() == old(reader).rest().skip(encoded_len(inst@) as int)
        },
{
    proof {
        lemma_consumed_len(reader.rest(), mode_or_default(maybe_arch));
    }
    let cpu_mode = match maybe_arch {
        Some(arch) => arch,
        None => Arch::Arch32,
    };
    proof {
        reveal(decode_spec);
    }
    let (prefixs, op) = match read_prefixes(reader, cpu_mode) {
        Ok(t) => t,
        Err(e) => return Err(InstructionError::OpcodeError(e)),
    };
    let (maybe_rex, op) = match read_rex_ext(reader, prefixs.as_slice(), op, cpu_mode) {
        Ok(t) => t,
        Err(e) => return Err(e),
    };
    let (maybe_modrm, maybe_sib, maybe_disp) = match read_modrm(reader, &op, cpu_mode, maybe_rex) {
        Ok(t) => t,
        Err(e) => return Err(e),
    };
    read_operands(reader, prefixs, maybe_rex, op, maybe_modrm, maybe_sib, maybe_disp, cpu_mode)
}

impl Instruction {
    /// Decodes one instruction at the reader's position under `maybe_arch` (32-bit mode when
    /// none is given). On success the reader stands just past the instruction; the result and
    /// the bytes consumed are those of `decode_spec` over the unread bytes, a function of those
    /// bytes and the mode alone. No partial instruction is ever returned: after an error the
    /// reader stands where it stood before the call.
    pub fn from_reader(
        reader: &mut Reader,
        maybe_arch: Option<Arch>,
    ) -> (r: Result<Self, InstructionError>)
        ensures
            final(reader).data() == old(reader).data(),
            final(reader).position() >= old(reader).position(),
            match decode_spec(old(reader).rest(), mode_or_default(maybe_arch)) {
                Ok((v, t)) => r matches Ok(inst) && inst@ == v && final(reader).rest() == t,
                Err(e) => r == Err::<Instruction, InstructionError>(e),
            },
            r is Err ==> final(reader).position() == old(reader).position(),
            r matches Ok(inst) ==> {
                &&& encoded_len(inst@) <= old(reader).rest().len()
                &&& final(reader).rest() == old(reader).rest().skip(encoded_len(inst@) as int)
            },
    {
        let start = reader.pos();
        let r = read_instruction(reader, maybe_arch);
        if let Err(_) = r {
            // No partial instruction: the cursor goes back to where the instruction started
            reader.rewind(start);
        }
        r
    }
}

/// Decoding depends on the unread bytes and the mode alone: two cursors, over any buffers and at
/// any positions, whose unread bytes agree decode the same instruction or the same error.
pub proof fn lemma_decode_deterministic(d1: Seq<u8>, p1: int, d2: Seq<u8>, p2: int, arch: Arch)
    requires
        d1.skip(p1) == d2.skip(p2),
    ensures
        decode_spec(d1.skip(p1), arch) == decode_spec(d2.skip(p2), arch),
{
}

/// REX.W wins over the operand-size override: with REX.W set the effective operand size is 64
/// bits whether or not 0x66 is among the prefixes, and a register of any template whose size
/// follows the effective size resolves to its 64-bit member.
pub proof fn lemma_rex_w_precedence(
    arch: Arch,
    prefixes: Seq<Prefix>,
    rex: Option<Rex>,
    r: Reg,
    s: OpSize,
)
    requires
        rex matches Some(x) && x.spec_w() == 1,
        is_gpr(r),
        overridable(s),
    ensures
        effective_opsize(arch, prefixes, rex) == OpSize::U64,
        effective_opsize(arch, prefixes.push(Prefix::OpSize), rex) == OpSize::U64,
        reg_size(reg_at(r, s, effective_opsize(arch, prefixes, rex))) == OpSize::U64,
{
}

/// A decoded instruction that carries REX.W has a 64-bit operand size.
pub proof fn lemma_decoded_rex_w(s: Seq<u8>, arch: Arch)
    ensures
        match decode_spec(s, arch) {
            Ok((v, _)) => (v.rex matches Some(x) && x.spec_w() == 1) ==> v.op_size == OpSize::U64,
            Err(_) => true,
        },
{
    reveal(decode_spec);
    lemma_opcode_read(s, Seq::empty(), arch);
    match opcode_read(s, Seq::empty(), arch) {
        Ok((op0, s0)) => {
            lemma_scan(s0, Seq::empty(), op0, arch);
            match scan_prefixes(s0, Seq::empty(), op0, arch) {
                Ok((ps, op1, s1)) => lemma_after_prefixes(s1, ps, op1, arch),
                Err(_) => {},
            }
        },
        Err(_) => {},
    }
}

/// Whether template `t` reads an immediate.
pub open spec fn is_imm_template(t: Option<Operand>) -> bool {
    t matches Some(Operand::Immediate(_)) || t matches Some(Operand::SignedImmediate(_))
}

/// One for a condition that holds, zero otherwise.
pub open spec fn count_if(b: bool) -> nat {
    if b {
        1
    } else {
        0
    }
}

/// How many of an opcode's templates read an immediate.
pub open spec fn imm_slots(op: Opcode) -> nat {
    count_if(is_imm_template(op.operands[0])) + count_if(is_imm_template(op.operands[1]))
        + count_if(is_imm_template(op.operands[2])) + count_if(is_imm_template(op.operands[3]))
}

/// Number of bytes of a displacement.
pub open spec fn disp_bytes(d: Option<Displacement>) -> nat {
    match d {
        Some(Displacement::Disp8(_)) => 1,
        Some(Displacement::Disp16(_)) => 2,
        Some(Displacement::Disp32(_)) => 4,
        Some(Displacement::Disp64(_)) => 8,
        None => 0,
    }
}

/// Number of bytes of an immediate as read.
pub open spec fn imm_bytes(i: Option<Immediate>) -> nat {
    match i {
        Some(x) => imm_bits(x) / 8,
        None => 0,
    }
}

/// The length of an instruction as its parts give it: one byte per prefix and for REX, the
/// opcode bytes, the ModR/M and SIB bytes, the displacement and the immediate.
pub open spec fn encoded_len(v: InstructionView) -> nat {
    (v.prefixes.len() + count_if(v.rex is Some) + v.opcode.len + count_if(v.modrm is Some) + count_if(
        v.sib is Some,
    ) + disp_bytes(v.disp) + imm_bytes(v.imm)) as nat
}

proof fn lemma_skip_skip(s: Seq<u8>, a: int, b: int)
    requires
        0 <= a <= s.len(),
        0 <= b <= s.len() - a,
    ensures
        s.skip(a).skip(b) == s.skip(a + b),
{
    assert(s.skip(a).skip(b) =~= s.skip(a + b));
}

/// What every opcode read leaves: the bytes after its `len` opcode bytes, one byte for a
/// prefix or REX, and at most one immediate template.
pub open spec fn opcode_read_ok(s: Seq<u8>, op: Opcode, t: Seq<u8>) -> bool {
    &&& 1 <= op.len <= s.len()
    &&& t == s.skip(op.len as int)
    &&& (op.ident is Prefix || op.ident is Rex) ==> op.len == 1
    &&& imm_slots(op) <= 1
}

proof fn lemma_opcode_read(s: Seq<u8>, prefixes: Seq<Prefix>, arch: Arch)
    ensures
        opcode_read(s, prefixes, arch) matches Ok((op, t)) ==> opcode_read_ok(s, op, t),
{
    if s.len() >= 1 {
        let t1 = s.skip(1);
        if t1.len() >= 1 {
            lemma_skip_skip(s, 1, 1);
            if t1.skip(1).len() >= 1 {
                lemma_skip_skip(s, 2, 1);
            }
        }
    }
}

proof fn lemma_scan(s: Seq<u8>, prefixes: Seq<Prefix>, op0: Opcode, arch: Arch)
    requires
        prefixes.len() <= MAX_PREFIXES,
        op0.ident is Prefix ==> op0.len == 1,
        imm_slots(op0) <= 1,
        (op0.ident is Rex) ==> op0.len == 1,
    ensures
        match scan_prefixes(s, prefixes, op0, arch) {
            Ok((ps, op, t)) => {
                &&& ps.len() >= prefixes.len()
                &&& ps.len() - prefixes.len() + op.len - op0.len >= 0
                &&& ps.len() - prefixes.len() + op.len - op0.len <= s.len()
                &&& t == s.skip(ps.len() - prefixes.len() + op.len - op0.len)
                &&& imm_slots(op) <= 1
                &&& (op.ident is Rex) ==> op.len == 1
                &&& ps.len() == prefixes.len() ==> op == op0
            },
            Err(_) => true,
        },
    decreases MAX_PREFIXES - prefixes.len(),
{
    if op0.ident is Prefix && prefixes.len() < MAX_PREFIXES {
        let ps = prefixes.push(op0.ident->Prefix_0);
        lemma_opcode_read(s, ps, arch);
        match opcode_read(s, ps, arch) {
            Ok((op2, s2)) => {
                lemma_scan(s2, ps, op2, arch);
                match scan_prefixes(s2, ps, op2, arch) {
                    Ok((psf, opf, t)) => {
                        lemma_skip_skip(s, op2.len as int, psf.len() - ps.len() + opf.len - op2.len);
                    },
                    Err(_) => {},
                }
            },
            Err(_) => {},
        }
    } else {
        assert(s.skip(0) =~= s);
    }
}

proof fn lemma_ext_convert(op: Opcode, ext: u8, arch: Arch)
    requires
        imm_slots(op) <= 1,
    ensures
        ext_convert(op, ext, arch).len == op.len,
        imm_slots(ext_convert(op, ext, arch)) <= 1,
{
}

proof fn lemma_rex_ext(s: Seq<u8>, prefixes: Seq<Prefix>, op0: Opcode, arch: Arch)
    requires
        imm_slots(op0) <= 1,
        (op0.ident is Rex) ==> op0.len == 1,
    ensures
        match rex_ext_stage(s, prefixes, op0, arch) {
            Ok((rex, op, t)) => {
                &&& imm_slots(op) <= 1
                &&& rex is Some ==> op0.len == 1 && op.len <= s.len() && t == s.skip(op.len as int)
                &&& rex is None ==> op.len == op0.len && t == s
            },
            Err(_) => true,
        },
{
    reveal(rex_ext_stage);
    lemma_opcode_read(s, prefixes, arch);
    if op0.ident is Rex {
        match opcode_read(s, prefixes, arch) {
            Ok((op1, s1)) => {
                if op1.ident is NeedsModRMExtension && s1.len() >= 1 {
                    let b = <u8 as FromLeBytes>::spec_from_le(s1.take(1));
                    lemma_ext_convert(op1, (b >> 3) & 0b111, arch);
                }
            },
            Err(_) => {},
        }
    } else {
        if op0.ident is NeedsModRMExtension && s.len() >= 1 {
            lemma_ext_convert(op0, (<u8 as FromLeBytes>::spec_from_le(s.take(1)) >> 3) & 0b111, arch);
        }
    }
}

proof fn lemma_disp_stage(a: Addressing, s: Seq<u8>)
    ensures
        disp_stage(a, s) matches Ok((d, t)) ==> disp_bytes(d) <= s.len() && t == s.skip(disp_bytes(d) as int),
{
    if addressing_disp(a) is None {
        assert(s.skip(0) =~= s);
    }
}

proof fn lemma_modrm_stage(s: Seq<u8>, op: Opcode, arch: Arch, rex: Option<Rex>)
    ensures
        match modrm_stage(s, op, arch, rex) {
            Ok((m, x, d, t)) => {
                let n = count_if(m is Some) + count_if(x is Some) + disp_bytes(d);
                n <= s.len() && t == s.skip(n as int)
            },
            Err(_) => true,
        },
{
    reveal(modrm_stage);
    if !encoding_has_modrm(op.encoding) {
        assert(s.skip(0) =~= s);
    } else if s.len() >= 1 {
        let t = s.skip(1);
        let b = <u8 as FromLeBytes>::spec_from_le(s.take(1));
        let m = modrm_of(b, Some(arch), rex);
        if arch != Arch::Arch16 && addressing_has_sib(m.1) {
            if t.len() >= 1 {
                let t2 = t.skip(1);
                lemma_skip_skip(s, 1, 1);
                let sb = <u8 as FromLeBytes>::spec_from_le(t.take(1));
                let (sib, a) = sib_stage(sb, m.1, arch, rex);
                lemma_disp_stage(a, t2);
                match disp_stage(a, t2) {
                    Ok((d, t3)) => lemma_skip_skip(s, 2, disp_bytes(d) as int),
                    Err(_) => {},
                }
            }
        } else {
            lemma_disp_stage(m.1, t);
            match disp_stage(m.1, t) {
                Ok((d, t3)) => lemma_skip_skip(s, 1, disp_bytes(d) as int),
                Err(_) => {},
            }
        }
    }
}

proof fn lemma_resolve_slot(
    t: Option<Operand>,
    prev: Option<ResolvedOperand>,
    ctx: OperandContext,
    s: Seq<u8>,
)
    ensures
        match resolve_slot(t, prev, ctx, s) {
            Ok((o, i, s2)) => {
                &&& imm_bytes(i) <= s.len()
                &&& s2 == s.skip(imm_bytes(i) as int)
                &&& (i is Some ==> is_imm_template(t))
            },
            Err(_) => true,
        },
{
    if !is_imm_template(t) {
        assert(s.skip(0) =~= s);
    }
}

proof fn lemma_resolve_all(op: Opcode, ctx: OperandContext, s: Seq<u8>)
    requires
        imm_slots(op) <= 1,
    ensures
        resolve_all(op, ctx, s) matches Ok((ops, imm, t)) ==> {
            &&& imm_bytes(imm) <= s.len()
            &&& t == s.skip(imm_bytes(imm) as int)
        },
{
    lemma_resolve_slot(op.operands[0], None, ctx, s);
    match resolve_slot(op.operands[0], None, ctx, s) {
        Ok((r0, i0, s0)) => {
            lemma_resolve_slot(op.operands[1], r0, ctx, s0);
            match resolve_slot(op.operands[1], r0, ctx, s0) {
                Ok((r1, i1, s1)) => {
                    lemma_skip_skip(s, imm_bytes(i0) as int, imm_bytes(i1) as int);
                    lemma_resolve_slot(op.operands[2], r1, ctx, s1);
                    match resolve_slot(op.operands[2], r1, ctx, s1) {
                        Ok((r2, i2, s2)) => {
                            lemma_skip_skip(s, (imm_bytes(i0) + imm_bytes(i1)) as int, imm_bytes(i2) as int);
                            lemma_resolve_slot(op.operands[3], r2, ctx, s2);
                            match resolve_slot(op.operands[3], r2, ctx, s2) {
                                Ok((r3, i3, s3)) => {
                                    let done = imm_bytes(i0) + imm_bytes(i1) + imm_bytes(i2);
                                    lemma_skip_skip(s, done as int, imm_bytes(i3) as int);
                                },
                                Err(_) => {},
                            }
                        },
                        Err(_) => {},
                    }
                },
                Err(_) => {},
            }
        },
        Err(_) => {},
    }
}

proof fn lemma_operands_stage(
    s: Seq<u8>,
    prefixes: Seq<Prefix>,
    rex: Option<Rex>,
    op: Opcode,
    modrm: Option<ModRM>,
    sib: Option<Sib>,
    disp: Option<Displacement>,
    arch: Arch,
)
    requires
        imm_slots(op) <= 1,
    ensures
        operands_stage(s, prefixes, rex, op, modrm, sib, disp, arch) matches Ok((v, t)) ==> {
            &&& v.prefixes == prefixes
            &&& v.rex == rex
            &&& v.opcode == op
            &&& v.modrm == modrm
            &&& v.sib == sib
            &&& v.disp == disp
            &&& v.op_size == effective_opsize(arch, prefixes, rex)
            &&& imm_bytes(v.imm) <= s.len()
            &&& t == s.skip(imm_bytes(v.imm) as int)
        },
{
    reveal(operands_stage);
    let op_size = effective_opsize(arch, prefixes, rex);
    let addr = effective_addrsize(arch, prefixes);
    if !(addr is Err && has_operands(op)) {
        let ctx = OperandContext {
            arch,
            op_size,
            addr_size: match addr {
                Ok(a) => a,
                Err(_) => arch_addrsize(arch),
            },
            rex,
            modrm,
            sib,
            disp,
        };
        lemma_resolve_all(op, ctx, s);
    }
}

proof fn lemma_after_prefixes(s: Seq<u8>, prefixes: Seq<Prefix>, op0: Opcode, arch: Arch)
    requires
        imm_slots(op0) <= 1,
        (op0.ident is Rex) ==> op0.len == 1,
    ensures
        decode_after_prefixes(s, prefixes, op0, arch) matches Ok((v, t)) ==> {
            &&& v.prefixes == prefixes
            &&& v.op_size == effective_opsize(arch, prefixes, v.rex)
            &&& encoded_len(v) >= prefixes.len() + op0.len
            &&& encoded_len(v) - prefixes.len() - op0.len <= s.len()
            &&& t == s.skip(encoded_len(v) - prefixes.len() - op0.len)
        },
{
    lemma_rex_ext(s, prefixes, op0, arch);
    match rex_ext_stage(s, prefixes, op0, arch) {
        Ok((rex, op, s2)) => {
            let k2 = if rex is Some { op.len as int } else { 0 };
            if rex is None {
                assert(s.skip(0) =~= s);
            }
            lemma_modrm_stage(s2, op, arch, rex);
            match modrm_stage(s2, op, arch, rex) {
                Ok((m, x, d, s3)) => {
                    let k3 = (count_if(m is Some) + count_if(x is Some) + disp_bytes(d)) as int;
                    lemma_skip_skip(s, k2, k3);
                    lemma_operands_stage(s3, prefixes, rex, op, m, x, d, arch);
                    match operands_stage(s3, prefixes, rex, op, m, x, d, arch) {
                        Ok((v, t)) => {
                            lemma_skip_skip(s, k2 + k3, imm_bytes(v.imm) as int);
                        },
                        Err(_) => {},
                    }
                },
                Err(_) => {},
            }
        },
        Err(_) => {},
    }
}

/// A decoded instruction took exactly the bytes its parts account for: prefixes, REX, opcode
/// bytes, ModR/M, SIB, displacement and immediate. What is left is the rest of the input from
/// there on, so decoding again starts at the next byte and reads nothing twice.
pub proof fn lemma_consumed_len(s: Seq<u8>, arch: Arch)
    ensures
        decode_spec(s, arch) matches Ok((v, t)) ==> {
            &&& encoded_len(v) <= s.len()
            &&& t == s.skip(encoded_len(v) as int)
        },
{
    reveal(decode_spec);
    lemma_opcode_read(s, Seq::empty(), arch);
    match opcode_read(s, Seq::empty(), arch) {
        Ok((op0, s0)) => {
            lemma_scan(s0, Seq::empty(), op0, arch);
            match scan_prefixes(s0, Seq::empty(), op0, arch) {
                Ok((ps, op1, s1)) => {
                    lemma_skip_skip(s, op0.len as int, ps.len() + op1.len - op0.len);
                    lemma_after_prefixes(s1, ps, op1, arch);
                    match decode_after_prefixes(s1, ps, op1, arch) {
                        Ok((v, t)) => {
                            lemma_skip_skip(s, ps.len() + op1.len, encoded_len(v) - ps.len() - op1.len);
                        },
                        Err(_) => {},
                    }
                },
                Err(_) => {},
            }
        },
        Err(_) => {},
    }
}

impl From<OpcodeError> for InstructionError {
    fn from(value: OpcodeError) -> (r: Self)
        ensures
            r == InstructionError::OpcodeError(value),
    {
        InstructionError::OpcodeError(value)
    }
}

impl vstd::std_specs::convert::FromSpecImpl<OpcodeError> for InstructionError {
    open spec fn obeys_from_spec() -> bool {
        true
    }

    open spec fn from_spec(v: OpcodeError) -> InstructionError {
        InstructionError::OpcodeError(v)
    }
}

impl From<ReaderError> for InstructionError {
    fn from(value: ReaderError) -> (r: Self)
        ensures
            r == InstructionError::ReaderError(value),
    {
        InstructionError::ReaderError(value)
    }
}

impl vstd::std_specs::convert::FromSpecImpl<ReaderError> for InstructionError {
    open spec fn obeys_from_spec() -> bool {
        true
    }

    open spec fn from_spec(v: ReaderError) -> InstructionError {
        InstructionError::ReaderError(v)
    }
}

impl From<RegFieldExtError> for InstructionError {
    fn from(value: RegFieldExtError) -> (r: Self)
        ensures
            r == InstructionError::RegFieldExtError(value),
    {
        InstructionError::RegFieldExtError(value)
    }
}

impl vstd::std_specs::convert::FromSpecImpl<RegFieldExtError> for InstructionError {
    open spec fn obeys_from_spec() -> bool {
        true
    }

    open spec fn from_spec(v: RegFieldExtError) -> InstructionError {
        InstructionError::RegFieldExtError(v)
    }
}

impl From<DispError> for InstructionError {
    fn from(value: DispError) -> (r: Self)
        ensures
            r == InstructionError::DispError(value),
    {
        InstructionError::DispError(value)
    }
}

impl vstd::std_specs::convert::FromSpecImpl<DispError> for InstructionError {
    open spec fn obeys_from_spec() -> bool {
        true
    }

    open spec fn from_spec(v: DispError) -> InstructionError {
        InstructionError::DispError(v)
    }
}

impl From<ImmError> for InstructionError {
    fn from(value: ImmError) -> (r: Self)
        ensures
            r == InstructionError::ImmError(value),
    {
        InstructionError::ImmError(value)
    }
}

impl vstd::std_specs::convert::FromSpecImpl<ImmError> for InstructionError {
    open spec fn obeys_from_spec() -> bool {
        true
    }

    open spec fn from_spec(v: ImmError) -> InstructionError {
        InstructionError::ImmError(v)
    }
}

/// An immediate operand is the immediate as read, widened to the size of the operand resolved
/// before it: unchanged when it is already that wide, and the same as widening in two steps
/// through any width in between. Without an operand before it, it is the immediate as read.
pub proof fn lemma_imm_operand_widened(
    t: Option<Operand>,
    prev: Option<ResolvedOperand>,
    ctx: OperandContext,
    s: Seq<u8>,
    w2: OpSize,
)
    ensures
        resolve_slot(t, prev, ctx, s) matches Ok((Some(ResolvedOperand::Immediate(x)), Some(i), _)) ==> {
            &&& prev is None ==> x == i
            &&& prev matches Some(p) ==> {
                let size = resolved_size(p);
                &&& x == widen_spec(i, size)
                &&& imm_bits(x) >= imm_bits(i)
                &&& op_bits(size) <= imm_bits(i) ==> x == i
                &&& (imm_bits(i) <= op_bits(w2) && op_bits(w2) <= op_bits(size)) ==> x == widen_spec(
                    widen_spec(i, w2),
                    size,
                )
            }
        },
{
    match resolve_slot(t, prev, ctx, s) {
        Ok((Some(ResolvedOperand::Immediate(x)), Some(i), _)) => {
            match prev {
                Some(p) => {
                    if imm_bits(i) <= op_bits(w2) && op_bits(w2) <= op_bits(resolved_size(p)) {
                        lemma_widen_compose(i, w2, resolved_size(p));
                    }
                },
                None => {},
            }
        },
        _ => {},
    }
}

} // verus!
