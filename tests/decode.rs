use x86dis::dis::{Disassembler, DisassemblerError};
use x86dis::imm::{DispArch, Displacement, DispError, ImmError, Immediate};
use x86dis::inst::{Instruction, InstructionError, ResolvedOperand, SizedOperand};
use x86dis::modrm::{Arch, EffAddrType, Sib, Sib64};
use x86dis::opcode::{OpSize, OpcodeError, OpcodeType, OperandEncoding};
use x86dis::prefix::{Group1, Group2, Prefix};
use x86dis::reader::{Reader, ReaderError};
use x86dis::reg::Reg;

fn decode(bytes: &[u8], arch: Arch) -> (Result<Instruction, InstructionError>, usize) {
    let mut reader = Reader::from_vec(bytes.to_vec());
    let r = Instruction::from_reader(&mut reader, Some(arch));
    (r, reader.pos())
}

#[test]
fn xor_eax_eax_in_64_bit_mode() {
    let (r, pos) = decode(&[0x31, 0xC0], Arch::Arch64);
    let inst = r.unwrap();
    assert_eq!(inst.opcode.ident, OpcodeType::Xor);
    assert_eq!(inst.opcode.encoding, Some(OperandEncoding::MR));
    assert_eq!(inst.operands[0], Some(ResolvedOperand::Reg(Reg::EAX)));
    assert_eq!(inst.operands[1], Some(ResolvedOperand::Reg(Reg::EAX)));
    assert_eq!(inst.operands[2], None);
    assert_eq!(inst.op_size, OpSize::U32);
    assert_eq!(pos, 2);
}

#[test]
fn rex_w_mov_rdx_rsp() {
    let (r, pos) = decode(&[0x48, 0x89, 0xE2], Arch::Arch64);
    let inst = r.unwrap();
    assert_eq!(inst.rex.unwrap().w(), 1);
    assert_eq!(inst.rex.unwrap().r(), 0);
    assert_eq!(inst.opcode.ident, OpcodeType::Mov);
    assert_eq!(inst.op_size, OpSize::U64);
    assert_eq!(inst.operands[0], Some(ResolvedOperand::Reg(Reg::RDX)));
    assert_eq!(inst.operands[1], Some(ResolvedOperand::Reg(Reg::RSP)));
    assert_eq!(pos, 3);
}

#[test]
fn endbr64_after_rep_prefix() {
    let (r, pos) = decode(&[0xF3, 0x0F, 0x1E, 0xFA], Arch::Arch64);
    let inst = r.unwrap();
    assert_eq!(inst.opcode.ident, OpcodeType::EndBr64);
    assert_eq!(inst.prefixs, vec![Prefix::Group1(Group1::Rep)]);
    assert_eq!(inst.operands, [None, None, None, None]);
    assert_eq!(pos, 4);
}

#[test]
fn endbr32_after_rep_prefix() {
    let (r, pos) = decode(&[0xF3, 0x0F, 0x1E, 0xFB], Arch::Arch32);
    assert_eq!(r.unwrap().opcode.ident, OpcodeType::EndBr32);
    assert_eq!(pos, 4);
}

#[test]
fn group1_extension_six_is_xor_with_sign_extended_imm8() {
    let (r, pos) = decode(&[0x83, 0xF0, 0xFB], Arch::Arch64);
    let inst = r.unwrap();
    assert_eq!(inst.opcode.ident, OpcodeType::Xor);
    assert_eq!(inst.opcode.encoding, Some(OperandEncoding::MI));
    assert_eq!(inst.operands[0], Some(ResolvedOperand::Reg(Reg::EAX)));
    assert_eq!(inst.operands[1], Some(ResolvedOperand::Immediate(Immediate::ImmI32(-5))));
    assert_eq!(inst.imm, Some(Immediate::ImmI8(-5)));
    assert_eq!(pos, 3);
}

#[test]
fn lone_group1_opcode_is_short_input() {
    let (r, _) = decode(&[0x81], Arch::Arch64);
    assert_eq!(r.unwrap_err(), InstructionError::ReaderError(ReaderError::NotEnoughBytes));
}

#[test]
fn rex_w_wins_over_operand_size_override() {
    let (r, pos) = decode(&[0x66, 0x48, 0x01, 0xC8], Arch::Arch64);
    let inst = r.unwrap();
    assert_eq!(inst.op_size, OpSize::U64);
    assert_eq!(inst.operands[0], Some(ResolvedOperand::Reg(Reg::RAX)));
    assert_eq!(inst.operands[1], Some(ResolvedOperand::Reg(Reg::RCX)));
    assert_eq!(pos, 4);
    let (r, _) = decode(&[0x66, 0x01, 0xC8], Arch::Arch64);
    let inst = r.unwrap();
    assert_eq!(inst.op_size, OpSize::U16);
    assert_eq!(inst.operands[0], Some(ResolvedOperand::Reg(Reg::AX)));
}

#[test]
fn operand_size_override_in_16_bit_mode() {
    let (r, _) = decode(&[0x66, 0x01, 0xC8], Arch::Arch16);
    let inst = r.unwrap();
    assert_eq!(inst.op_size, OpSize::U32);
    assert_eq!(inst.operands[0], Some(ResolvedOperand::Reg(Reg::EAX)));
    assert_eq!(inst.operands[1], Some(ResolvedOperand::Reg(Reg::ECX)));
}

#[test]
fn same_bytes_decode_the_same() {
    let bytes = [0x48, 0x83, 0xE4, 0xF0];
    let (a, pa) = decode(&bytes, Arch::Arch64);
    let mut reader = Reader::from_vec(vec![0x90, 0x48, 0x83, 0xE4, 0xF0]);
    reader.read::<u8>().unwrap();
    let b = Instruction::from_reader(&mut reader, Some(Arch::Arch64));
    let (a, b) = (a.unwrap(), b.unwrap());
    assert_eq!(a.opcode, b.opcode);
    assert_eq!(a.operands, b.operands);
    assert_eq!(a.prefixs, b.prefixs);
    assert_eq!(pa, 4);
    assert_eq!(reader.pos(), 5);
    assert_eq!(a.opcode.ident, OpcodeType::And);
    assert_eq!(a.operands[0], Some(ResolvedOperand::Reg(Reg::RSP)));
    assert_eq!(a.operands[1], Some(ResolvedOperand::Immediate(Immediate::ImmI64(-16))));
}

#[test]
fn consumed_length_counts_every_part() {
    // add dword [rsp + 0x10], 0x12345678
    let bytes = [0x81, 0x84, 0x24, 0x10, 0x00, 0x00, 0x00, 0x78, 0x56, 0x34, 0x12, 0xC3];
    let (r, pos) = decode(&bytes, Arch::Arch64);
    let inst = r.unwrap();
    assert_eq!(inst.opcode.ident, OpcodeType::Add);
    assert!(inst.modrm.is_some());
    assert!(inst.sib.is_some());
    assert_eq!(inst.disp, Some(Displacement::Disp32(0x10)));
    assert_eq!(inst.imm, Some(Immediate::ImmI32(0x12345678)));
    let sib = Sib64 { base: Some(Reg::RSP), scaled_index: None, scale: None };
    assert_eq!(
        inst.operands[0],
        Some(ResolvedOperand::Mem((EffAddrType::Sib, Some(Sib::Sib64(sib)), Some(Displacement::Disp32(0x10)))))
    );
    assert_eq!(pos, 11);
}

#[test]
fn sib_base_rbp_under_mod_zero_is_disp32() {
    let bytes = [0x01, 0x04, 0x25, 0x78, 0x56, 0x34, 0x12];
    let (r, pos) = decode(&bytes, Arch::Arch64);
    let inst = r.unwrap();
    let sib = Sib64 { base: None, scaled_index: None, scale: None };
    assert_eq!(
        inst.operands[0],
        Some(ResolvedOperand::Mem((EffAddrType::Sib, Some(Sib::Sib64(sib)), Some(Displacement::Disp32(0x12345678)))))
    );
    assert_eq!(inst.operands[1], Some(ResolvedOperand::Reg(Reg::EAX)));
    assert_eq!(pos, 7);
}

#[test]
fn address_size_override_narrows_64_bit_addressing() {
    // add [eax], ecx with 0x67
    let (r, pos) = decode(&[0x67, 0x01, 0x08], Arch::Arch64);
    let inst = r.unwrap();
    assert_eq!(inst.operands[0], Some(ResolvedOperand::Mem((EffAddrType::Reg(Reg::EAX), None, None))));
    assert_eq!(inst.operands[1], Some(ResolvedOperand::Reg(Reg::ECX)));
    assert_eq!(pos, 3);
}

#[test]
fn rip_relative_lea() {
    let bytes = [0x48, 0x8D, 0x05, 0x10, 0x00, 0x00, 0x00];
    let (r, pos) = decode(&bytes, Arch::Arch64);
    let inst = r.unwrap();
    assert_eq!(inst.opcode.ident, OpcodeType::Lea);
    assert_eq!(inst.operands[0], Some(ResolvedOperand::Reg(Reg::RAX)));
    assert_eq!(inst.operands[1], Some(ResolvedOperand::Mem((EffAddrType::NoBase, None, Some(Displacement::Disp32(0x10))))));
    assert_eq!(pos, 7);
}

#[test]
fn unknown_opcode_is_not_an_error() {
    let (r, pos) = decode(&[0xC3], Arch::Arch64);
    let inst = r.unwrap();
    assert_eq!(inst.opcode.ident, OpcodeType::Unknown);
    assert_eq!(inst.operands, [None, None, None, None]);
    assert_eq!(pos, 1);
}

#[test]
fn rex_byte_is_inc_row_outside_64_bit_mode() {
    let (r, pos) = decode(&[0x48, 0x01, 0xC0], Arch::Arch32);
    let inst = r.unwrap();
    assert!(inst.rex.is_none());
    assert_eq!(inst.opcode.ident, OpcodeType::Unknown);
    assert_eq!(pos, 1);
}

#[test]
fn push_register_in_opcode_uses_rex_b() {
    let (r, _) = decode(&[0x41, 0x50], Arch::Arch64);
    assert_eq!(r.unwrap().operands[0], Some(ResolvedOperand::Reg(Reg::R8d)));
    let (r, _) = decode(&[0x48, 0x53], Arch::Arch64);
    assert_eq!(r.unwrap().operands[0], Some(ResolvedOperand::Reg(Reg::RBX)));
}

#[test]
fn push_fs_through_escape() {
    let (r, pos) = decode(&[0x0F, 0xA0], Arch::Arch64);
    let inst = r.unwrap();
    assert_eq!(inst.opcode.ident, OpcodeType::Push);
    assert_eq!(inst.operands[0], Some(ResolvedOperand::Segment(x86dis::reg::SegmentRegister::FS)));
    assert_eq!(pos, 2);
}

#[test]
fn escape_after_segment_override_is_invalid_prefix() {
    let (r, _) = decode(&[0x2E, 0x0F, 0xA0], Arch::Arch64);
    assert_eq!(
        r.unwrap_err(),
        InstructionError::OpcodeError(OpcodeError::InvalidPrefix(Prefix::Group2(Group2::CsSegOverride)))
    );
}

#[test]
fn unknown_second_escape_byte_is_invalid_opcode() {
    let (r, _) = decode(&[0x0F, 0x05], Arch::Arch64);
    assert_eq!(r.unwrap_err(), InstructionError::OpcodeError(OpcodeError::InvalidOpcode(0x05)));
}

#[test]
fn bad_endbr_third_byte_is_invalid_3_byte_opcode() {
    let (r, _) = decode(&[0xF3, 0x0F, 0x1E, 0x00], Arch::Arch64);
    assert_eq!(r.unwrap_err(), InstructionError::OpcodeError(OpcodeError::Invalid3ByteOpcode(0x0F, 0x1E, 0x00)));
}

#[test]
fn missing_displacement_is_disp_error() {
    let (r, _) = decode(&[0x01, 0x80, 0x00], Arch::Arch64);
    assert_eq!(r.unwrap_err(), InstructionError::DispError(DispError::ReaderError(ReaderError::NotEnoughBytes)));
}

#[test]
fn missing_immediate_is_imm_error() {
    let (r, _) = decode(&[0x05, 0x01], Arch::Arch64);
    assert_eq!(r.unwrap_err(), InstructionError::ImmError(ImmError::ReaderError(ReaderError::NotEnoughBytes)));
}

#[test]
fn address_size_override_in_16_bit_mode_is_refused() {
    let (r, _) = decode(&[0x67, 0x01, 0xC0], Arch::Arch16);
    assert_eq!(r.unwrap_err(), InstructionError::OpcodeError(OpcodeError::InvalidPrefix(Prefix::AddrSize)));
}

#[test]
fn empty_input_is_short_input() {
    let (r, _) = decode(&[], Arch::Arch64);
    assert_eq!(r.unwrap_err(), InstructionError::OpcodeError(OpcodeError::ReaderError(ReaderError::NotEnoughBytes)));
}

#[test]
fn sixteen_bit_memory_form_is_left_undecided() {
    let (r, pos) = decode(&[0x01, 0x00], Arch::Arch16);
    let inst = r.unwrap();
    assert_eq!(inst.operands[0], Some(ResolvedOperand::ToBeDecided));
    assert_eq!(inst.operands[1], Some(ResolvedOperand::Reg(Reg::AX)));
    assert_eq!(pos, 2);
}

#[test]
fn ff_extension_two_is_near_call() {
    let (r, pos) = decode(&[0xFF, 0xD0], Arch::Arch64);
    let inst = r.unwrap();
    assert_eq!(inst.opcode.ident, OpcodeType::CallNear);
    assert_eq!(inst.opcode.encoding, Some(OperandEncoding::M));
    assert_eq!(pos, 2);
}

#[test]
fn resolved_operand_sizes() {
    assert_eq!(ResolvedOperand::Reg(Reg::AX).size(), OpSize::U16);
    assert_eq!(ResolvedOperand::Immediate(Immediate::ImmI8(1)).size(), OpSize::I8);
    assert_eq!(ResolvedOperand::Mem((EffAddrType::Reg(Reg::RBX), None, None)).size(), OpSize::U64);
    let sib = Sib64 { base: None, scaled_index: None, scale: None };
    assert_eq!(ResolvedOperand::Mem((EffAddrType::Sib, Some(Sib::Sib64(sib)), None)).size(), OpSize::U64);
    assert_eq!(ResolvedOperand::Mem((EffAddrType::NoBase, None, None)).size(), OpSize::CpuMode);
}

#[test]
fn disassembler_runs_over_a_program_entry() {
    let bytes = vec![
        0xf3, 0x0f, 0x1e, 0xfa, 0x31, 0xed, 0x49, 0x89, 0xd1, 0x5e, 0x48, 0x89, 0xe2, 0x48, 0x83,
        0xe4, 0xf0, 0x50, 0x54,
    ];
    let mut reader = Reader::from_vec(bytes);
    let out = Disassembler.parse(&mut reader, None).unwrap();
    let lens: Vec<usize> = out.iter().map(|e| e.0).collect();
    assert_eq!(lens, vec![4, 2, 3, 1, 3, 4, 1, 1]);
    assert_eq!(out[1].1.operands[0], Some(ResolvedOperand::Reg(Reg::EBP)));
    assert_eq!(out[2].1.operands[0], Some(ResolvedOperand::Reg(Reg::R9)));
    assert_eq!(out[2].1.operands[1], Some(ResolvedOperand::Reg(Reg::RDX)));
    assert_eq!(reader.bytes_unread(), 0);
}

#[test]
fn disassembler_stops_on_a_cut_instruction() {
    let mut reader = Reader::from_vec(vec![0x31, 0xC0, 0x45]);
    let r = Disassembler.parse(&mut reader, Some(Arch::Arch64));
    assert_eq!(
        r.unwrap_err(),
        DisassemblerError::InstructionError(InstructionError::OpcodeError(OpcodeError::ReaderError(
            ReaderError::NotEnoughBytes
        )))
    );
}

#[test]
fn disassembler_caps_instruction_count() {
    let mut reader = Reader::from_vec(vec![0xC3; 30]);
    let out = Disassembler.parse(&mut reader, Some(Arch::Arch32)).unwrap();
    assert_eq!(out.len(), 20);
    assert_eq!(reader.bytes_unread(), 10);
}

#[test]
fn displacement_widths() {
    let mut reader = Reader::from_vec(vec![0x01, 0x02, 0x03, 0x04, 0x05, 0x06, 0x07]);
    assert_eq!(DispArch::Bit8.read(&mut reader).unwrap(), Displacement::Disp8(1));
    assert_eq!(DispArch::Bit16.read(&mut reader).unwrap(), Displacement::Disp16(0x0302));
    assert_eq!(DispArch::Bit32.read(&mut reader).unwrap(), Displacement::Disp32(0x07060504));
    assert_eq!(DispArch::Bit8.read(&mut reader).unwrap_err(), DispError::ReaderError(ReaderError::NotEnoughBytes));
}

#[test]
fn error_conversions_wrap_the_cause() {
    let e = InstructionError::from(ReaderError::NotEnoughBytes);
    assert_eq!(e, InstructionError::ReaderError(ReaderError::NotEnoughBytes));
    let e = InstructionError::from(OpcodeError::InvalidOpcode(7));
    assert_eq!(e, InstructionError::OpcodeError(OpcodeError::InvalidOpcode(7)));
    let d = DisassemblerError::from(e);
    assert_eq!(d, DisassemblerError::InstructionError(InstructionError::OpcodeError(OpcodeError::InvalidOpcode(7))));
    assert_eq!(DispError::from(ReaderError::NotEnoughBytes), DispError::ReaderError(ReaderError::NotEnoughBytes));
    assert_eq!(ImmError::from(ReaderError::LengthMismatch), ImmError::ReaderError(ReaderError::LengthMismatch));
}

#[test]
fn group1_extension_six_reads_ff_as_minus_one() {
    let (r, pos) = decode(&[0x83, 0xF0, 0xFF], Arch::Arch64);
    let inst = r.unwrap();
    assert_eq!(inst.opcode.ident, OpcodeType::Xor);
    assert_eq!(inst.operands[0], Some(ResolvedOperand::Reg(Reg::EAX)));
    assert_eq!(inst.operands[1], Some(ResolvedOperand::Immediate(Immediate::ImmI32(-1))));
    assert_eq!(pos, 3);
}

#[test]
fn rex_w_wins_for_xor() {
    let (r, pos) = decode(&[0x66, 0x48, 0x31, 0xC0], Arch::Arch64);
    let inst = r.unwrap();
    assert_eq!(inst.op_size, OpSize::U64);
    assert_eq!(inst.operands, [Some(ResolvedOperand::Reg(Reg::RAX)), Some(ResolvedOperand::Reg(Reg::RAX)), None, None]);
    assert_eq!(pos, 4);
}

#[test]
fn failed_decode_leaves_the_cursor_in_place() {
    let (r, pos) = decode(&[0x01, 0x80, 0x00], Arch::Arch64);
    assert!(r.is_err());
    assert_eq!(pos, 0);
    let mut reader = Reader::from_vec(vec![0x90, 0xF3, 0x0F, 0x1E, 0x00]);
    reader.read::<u8>().unwrap();
    assert!(Instruction::from_reader(&mut reader, Some(Arch::Arch64)).is_err());
    assert_eq!(reader.pos(), 1);
}

#[test]
fn disassembler_error_leaves_cursor_at_failing_instruction() {
    let mut reader = Reader::from_vec(vec![0x31, 0xC0, 0x01, 0x80]);
    assert!(Disassembler.parse(&mut reader, Some(Arch::Arch64)).is_err());
    assert_eq!(reader.pos(), 2);
}

#[test]
fn short_displacement_and_immediate_leave_cursor_in_place() {
    let mut reader = Reader::from_vec(vec![0x01, 0x02, 0x03]);
    assert!(DispArch::Bit32.read(&mut reader).is_err());
    assert_eq!(reader.pos(), 0);
    assert!(Immediate::parse(&OpSize::U32, &mut reader).is_err());
    assert_eq!(reader.pos(), 0);
}

#[test]
fn immediate_of_operand_width_is_not_widened() {
    let (r, _) = decode(&[0x04, 0x7F], Arch::Arch64);
    let inst = r.unwrap();
    assert_eq!(inst.operands[0], Some(ResolvedOperand::Reg(Reg::AL)));
    assert_eq!(inst.operands[1], Some(ResolvedOperand::Immediate(Immediate::ImmI8(0x7F))));
}
