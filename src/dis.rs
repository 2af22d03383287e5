//! The driving loop: decodes instructions one after the other.
use vstd::prelude::*;

use crate::inst::{decode_spec, Instruction, InstructionError, InstructionView};
use crate::modrm::Arch;
use crate::opcode::OpcodeError;
use crate::reader::{Reader, ReaderError};

verus! {

/// The most instructions one call of `Disassembler::parse` decodes.
pub const MAX_INSTRUCTIONS: usize = 20;

#[derive(Debug, Clone, Copy, PartialEq, Eq)]
pub struct Disassembler;

#[derive(Debug, Clone, Copy, PartialEq, Eq)]
pub enum DisassemblerError {
    ReaderError(ReaderError),
    OpcodeError(OpcodeError),
    InstructionError(InstructionError),
}

/// What a run of the disassembler gives: the instructions decoded, each with the number of
/// bytes it took, the bytes left unread, and the error that stopped the run, if one did.
pub struct ParseRun {
    pub entries: Seq<(InstructionView, nat)>,
    pub rest: Seq<u8>,
    pub error: Option<DisassemblerError>,
}

/// Decodes up to `n` instructions off the front of `s`, stopping early at the end of the bytes
/// or at the first error. An instruction that fails to decode consumes nothing.
pub open spec fn parse_spec(s: Seq<u8>, arch: Arch, n: nat) -> ParseRun
    decreases n,
{
    if n == 0 || s.len() == 0 {
        ParseRun { entries: Seq::empty(), rest: s, error: None }
    } else {
        match decode_spec(s, arch) {
            Err(e) => ParseRun {
                entries: Seq::empty(),
                rest: s,
                error: Some(DisassemblerError::InstructionError(e)),
            },
            Ok((v, t)) => {
                let run = parse_spec(t, arch, (n - 1) as nat);
                ParseRun {
                    entries: seq![(v, (s.len() - t.len()) as nat)] + run.entries,
                    rest: run.rest,
                    error: run.error,
                }
            },
        }
    }
}

pub open spec fn entries_view(v: Seq<(usize, Instruction)>) -> Seq<(InstructionView, nat)> {
    v.map_values(|e: (usize, Instruction)| (e.1@, e.0 as nat))
}

/// 64-bit mode unless another is given.
pub open spec fn parse_mode(maybe_arch: Option<Arch>) -> Arch {
    match maybe_arch {
        Some(a) => a,
        None => Arch::Arch64,
    }
}

proof fn lemma_parse_step(
    len: nat,
    v: InstructionView,
    out_before: Seq<(usize, Instruction)>,
    out_after: Seq<(usize, Instruction)>,
    rest: Seq<(InstructionView, nat)>,
)
    requires
        out_after.len() == out_before.len() + 1,
        out_after.subrange(0, out_before.len() as int) == out_before,
        out_after.last().1@ == v,
        out_after.last().0 as nat == len,
    ensures
        entries_view(out_before) + (seq![(v, len)] + rest) == entries_view(out_after) + rest,
{
    assert(entries_view(out_after) =~= entries_view(out_before) + seq![(v, len)]);
    assert(entries_view(out_before) + (seq![(v, len)] + rest) =~= entries_view(out_after) + rest);
}

impl Disassembler {
    /// Decodes up to `MAX_INSTRUCTIONS` instructions from the reader's position, in `maybe_arch`
    /// (64-bit mode when none is given), until the bytes run out. Returns each instruction with
    /// the number of bytes it took, or the first error; the reader then stands at the start of
    /// the instruction that failed.
    pub fn parse(
        &self,
        reader: &mut Reader,
        maybe_arch: Option<Arch>,
    ) -> (r: Result<Vec<(usize, Instruction)>, DisassemblerError>)
        ensures
            final(reader).data() == old(reader).data(),
            ({
                let run = parse_spec(old(reader).rest(), parse_mode(maybe_arch), MAX_INSTRUCTIONS as nat);
                &&& final(reader).rest() == run.rest
                &&& match run.error {
                    None => r matches Ok(v) && entries_view(v@) == run.entries,
                    Some(e) => r == Err::<Vec<(usize, Instruction)>, DisassemblerError>(e),
                }
            }),
            r matches Ok(v) ==> v.len() == MAX_INSTRUCTIONS || final(reader).rest().len() == 0,
            r matches Ok(v) ==> v.len() <= MAX_INSTRUCTIONS,
    {
        let arch = match maybe_arch {
            Some(arch) => arch,
            None => Arch::Arch64,
        };
        let ghost target = parse_spec(reader.rest(), arch, MAX_INSTRUCTIONS as nat);
        let mut out: Vec<(usize, Instruction)> = Vec::new();
        let mut parsed_insts: usize = 0;
        proof {
            assert(entries_view(out@) =~= Seq::<(InstructionView, nat)>::empty());
            assert(target.entries =~= entries_view(out@) + target.entries);
        }
        while parsed_insts < MAX_INSTRUCTIONS && reader.bytes_unread() > 0
            invariant
                reader.data() == old(reader).data(),
                parsed_insts <= MAX_INSTRUCTIONS,
                out@.len() == parsed_insts,
                arch == parse_mode(maybe_arch),
                target == parse_spec(old(reader).rest(), arch, MAX_INSTRUCTIONS as nat),
                ({
                    let cur = parse_spec(reader.rest(), arch, (MAX_INSTRUCTIONS - parsed_insts) as nat);
                    &&& target.entries == entries_view(out@) + cur.entries
                    &&& target.rest == cur.rest
                    &&& target.error == cur.error
                }),
            decreases MAX_INSTRUCTIONS - parsed_insts,
        {
            let ghost before = reader.rest();
            let ghost out_before = out@;
            let start = reader.pos();
            let ghost n = (MAX_INSTRUCTIONS - parsed_insts) as nat;
            let instruction = match Instruction::from_reader(reader, Some(arch)) {
                Ok(inst) => inst,
                Err(e) => {
                    assert(reader.rest() == before);
                    return Err(DisassemblerError::InstructionError(e));
                },
            };
            let end = reader.pos();
            out.push((end - start, instruction));
            parsed_insts = parsed_insts + 1;
            proof {
                assert(out@.subrange(0, out_before.len() as int) =~= out_before);
                let cur = parse_spec(reader.rest(), arch, (n - 1) as nat);
                lemma_parse_step((end - start) as nat, instruction@, out_before, out@, cur.entries);
            }
        }
        proof {
            assert(entries_view(out@) + Seq::<(InstructionView, nat)>::empty() =~= entries_view(out@));
        }
        Ok(out)
    }
}

impl From<ReaderError> for DisassemblerError {
    fn from(value: ReaderError) -> (r: Self)
        ensures
            r == DisassemblerError::ReaderError(value),
    {
        DisassemblerError::ReaderError(value)
    }
}

impl vstd::std_specs::convert::FromSpecImpl<ReaderError> for DisassemblerError {
    open spec fn obeys_from_spec() -> bool {
        true
    }

    open spec fn from_spec(v: ReaderError) -> DisassemblerError {
        DisassemblerError::ReaderError(v)
    }
}

impl From<OpcodeError> for DisassemblerError {
    fn from(value: OpcodeError) -> (r: Self)
        ensures
            r == DisassemblerError::OpcodeError(value),
    {
        DisassemblerError::OpcodeError(value)
    }
}

impl vstd::std_specs::convert::FromSpecImpl<OpcodeError> for DisassemblerError {
    open spec fn obeys_from_spec() -> bool {
        true
    }

    open spec fn from_spec(v: OpcodeError) -> DisassemblerError {
        DisassemblerError::OpcodeError(v)
    }
}

impl From<InstructionError> for DisassemblerError {
    fn from(value: InstructionError) -> (r: Self)
        ensures
            r == DisassemblerError::InstructionError(value),
    {
        DisassemblerError::InstructionError(value)
    }
}

impl vstd::std_specs::convert::FromSpecImpl<InstructionError> for DisassemblerError {
    open spec fn obeys_from_spec() -> bool {
        true
    }

    open spec fn from_spec(v: InstructionError) -> DisassemblerError {
        DisassemblerError::InstructionError(v)
    }
}

} // verus!
