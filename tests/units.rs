use x86dis::imm::Immediate;
use x86dis::modrm::{Addressing, Arch, EffAddr16Bit, EffAddr32Bit, EffAddr64Bit, EffAddrType, ModRM, Scale, Sib, Sib32, Sib64};
use x86dis::imm::DispArch;
use x86dis::opcode::{
    AddrSize, AddressingMethod, OpSize, Opcode, OpcodeType, Operand, OperandEncoding, OperandType,
    RegFieldExt, RegFieldExtError,
};
use x86dis::prefix::{Group1, Group2, Prefix, PrefixError};
use x86dis::reader::{Reader, ReaderError};
use x86dis::reg::{Counter, Gpr, R11Reg, Reg, RegFamily};
use x86dis::rex::Rex;

#[test]
fn reader_reads_little_endian() {
    let mut reader = Reader::from_vec(vec![0x7f, 0x45, 0x4c, 0x46, 0x02, 0x01, 0x01, 0x00, 0xff]);
    assert_eq!(reader.peek::<u16>().unwrap(), 0x457f);
    assert_eq!(reader.pos(), 0);
    assert_eq!(reader.read::<u64>().unwrap(), 282584257676671);
    assert_eq!(reader.pos(), 8);
    assert_eq!(reader.bytes_unread(), 1);
    assert_eq!(reader.read::<u16>().unwrap_err(), ReaderError::NotEnoughBytes);
    assert_eq!(reader.pos(), 8);
    assert_eq!(reader.read::<i8>().unwrap(), -1);
    assert_eq!(reader.bytes_unread(), 0);
}

#[test]
fn reader_signed_and_wide_values() {
    let mut reader = Reader::from_vec(vec![0xfe, 0xff, 0xff, 0xff, 0x03, 0x00, 0x00, 0x00, 0x01, 0x00, 0x00, 0x00, 0x00, 0x00, 0x00, 0x00, 0x00, 0x00, 0x00, 0x00]);
    assert_eq!(reader.read::<i32>().unwrap(), -2);
    assert_eq!(reader.peek::<u32>().unwrap(), 3);
    assert_eq!(reader.read::<u128>().unwrap(), 3 + (1u128 << 32));
    assert_eq!(reader.read_bytes(1).unwrap_err(), ReaderError::NotEnoughBytes);
}

#[test]
fn reader_bytes() {
    let mut reader = Reader::from_vec(vec![1, 2, 3]);
    assert_eq!(reader.peek_bytes(2).unwrap(), &[1, 2]);
    assert_eq!(reader.read_bytes(2).unwrap(), &[1, 2]);
    assert_eq!(reader.peek_bytes(2).unwrap_err(), ReaderError::NotEnoughBytes);
    assert_eq!(reader.read_bytes(1).unwrap(), &[3]);
}

#[test]
fn prefix_classification() {
    assert_eq!(Prefix::from_byte(0xF0), Some(Prefix::Group1(Group1::Lock)));
    assert_eq!(Prefix::from_byte(0xF2), Some(Prefix::Group1(Group1::RepNE)));
    assert_eq!(Prefix::from_byte(0xF3), Some(Prefix::Group1(Group1::Rep)));
    assert_eq!(Prefix::from_byte(0x64), Some(Prefix::Group2(Group2::FsSegOverride)));
    assert_eq!(Prefix::from_byte(0x26), Some(Prefix::Group2(Group2::EsSegOverride)));
    assert_eq!(Prefix::from_byte(0x66), Some(Prefix::OpSize));
    assert_eq!(Prefix::from_byte(0x67), Some(Prefix::AddrSize));
    assert_eq!(Prefix::from_byte(0x90), None);
    assert_eq!(Prefix::from_byte(0x48), None);
    assert_eq!(Prefix::from_byte(0x66), Prefix::from_byte(0x66));
    assert_eq!(Group1::try_from(0x2E), Err(PrefixError::InvalidPrefix));
    assert_eq!(Group2::try_from(0x3E), Ok(Group2::DsSegOverride));
}

#[test]
fn rex_classification() {
    let rex = Rex::from_byte(0x4D).unwrap();
    assert_eq!((rex.w(), rex.r(), rex.x(), rex.b()), (1, 1, 0, 1));
    let rex = Rex::from_byte(0x42).unwrap();
    assert_eq!((rex.w(), rex.r(), rex.x(), rex.b()), (0, 0, 1, 0));
    assert!(Rex::from_byte(0x3F).is_none());
    assert!(Rex::from_byte(0x50).is_none());
    assert_eq!(Rex::from_byte(0x4D), Rex::from_byte(0x4D));
}

#[test]
fn register_families() {
    assert_eq!(Reg::AL.convert_with_opsize(&OpSize::U32), Reg::EAX);
    assert_eq!(Reg::RSP.convert_with_opsize(&OpSize::U8), Reg::SPL);
    assert_eq!(Reg::R11b.convert_with_opsize(&OpSize::U64), Reg::R11);
    assert_eq!(Reg::EDX.convert_with_opsize(&OpSize::CpuMode), Reg::EDX);
    assert_eq!(Reg::BX.convert_with_opsize(&OpSize::I16), Reg::EBX);
    assert_eq!(RegFamily::Accumulator.reg_from(&OpSize::U16), Reg::AX);
    assert_eq!(Counter::from_opsize(&OpSize::U64), Reg::RCX);
    assert_eq!(R11Reg::from_opsize(&OpSize::U32), Reg::R11d);
    assert_eq!(Reg::AH.family(), Some(RegFamily::Accumulator));
    assert_eq!(Reg::XMM3.family(), None);
}

#[test]
fn register_numbers() {
    assert_eq!(Reg::from_rm16(0b110), Reg::SI);
    assert_eq!(Reg::from_rm32(0b1_011), Reg::EBX);
    assert_eq!(Reg::from_rm64(0b1_101), Reg::R13);
    assert_eq!(Reg::from_byte_with_arch(4, None), Reg::RSP);
    assert_eq!(Reg::from_byte_with_arch(4, Some(Arch::Arch32)), Reg::ESP);
}

#[test]
fn mod_zero_rm_101_is_bare_disp32() {
    let e = EffAddr32Bit::from(0b00_000_101);
    assert_eq!(e, EffAddr32Bit { eff_addr: EffAddrType::NoBase, maybe_disp: Some(DispArch::Bit32), mod_addr: 0 });
    let e = EffAddr32Bit::from(0b00_111_101);
    assert_eq!(e.eff_addr, EffAddrType::NoBase);
    let e = EffAddr64Bit::from_byte_with_rex(0b00_000_101, None);
    assert_eq!(e.eff_addr, EffAddrType::NoBase);
    assert_eq!(e.maybe_disp, Some(DispArch::Bit32));
}

#[test]
fn addressing_forms_32_bit() {
    assert_eq!(EffAddr32Bit::from(0b01_000_101).eff_addr, EffAddrType::Reg(Reg::EBP));
    assert_eq!(EffAddr32Bit::from(0b01_000_101).maybe_disp, Some(DispArch::Bit8));
    assert_eq!(EffAddr32Bit::from(0b10_000_100).eff_addr, EffAddrType::Sib);
    assert_eq!(EffAddr32Bit::from(0b10_000_100).maybe_disp, Some(DispArch::Bit32));
    assert_eq!(EffAddr32Bit::from(0b11_000_100).eff_addr, EffAddrType::Reg(Reg::ESP));
    assert_eq!(EffAddr32Bit::from(0b11_000_100).maybe_disp, None);
}

#[test]
fn addressing_forms_16_bit() {
    let e = EffAddr16Bit::from(0b00_000_110);
    assert_eq!(e, EffAddr16Bit { maybe_reg1: None, maybe_reg2: None, maybe_disp: Some(DispArch::Bit16), mod_addr: 0 });
    let e = EffAddr16Bit::from(0b10_000_110);
    assert_eq!(e, EffAddr16Bit { maybe_reg1: Some(Reg::BP), maybe_reg2: None, maybe_disp: Some(DispArch::Bit16), mod_addr: 2 });
    let e = EffAddr16Bit::from(0b01_000_010);
    assert_eq!(e, EffAddr16Bit { maybe_reg1: Some(Reg::BP), maybe_reg2: Some(Reg::SI), maybe_disp: Some(DispArch::Bit8), mod_addr: 1 });
}

#[test]
fn modrm_with_rex_extensions() {
    let rex = Rex::from_byte(0x4C);
    let m = ModRM::from_byte_with_arch(0b11_001_010, Some(Arch::Arch64), rex);
    assert_eq!(m.reg(), Reg::R9);
    assert_eq!(m.rm_reg(), Some(Reg::RDX));
    assert_eq!(m.mod_bits(), 3);
    let m = ModRM::from_byte_with_arch(0b00_001_100, Some(Arch::Arch64), Rex::from_byte(0x41));
    assert!(m.1.has_sib());
    assert_eq!(m.rm_mem(), EffAddrType::Sib);
    assert_eq!(m.1.displacement(), None);
    let m = ModRM::from_byte_with_arch(0b00_001_100, Some(Arch::Arch16), None);
    assert!(!m.1.has_sib());
}

#[test]
fn addressing_displacement_update() {
    let mut a = Addressing::EffAddr32Bit(EffAddr32Bit::from(0b00_000_100));
    assert_eq!(a.displacement(), None);
    a.set_displacement(Some(DispArch::Bit32));
    assert_eq!(a.displacement(), Some(DispArch::Bit32));
    assert_eq!(a.mod_bits(), 0);
    assert_eq!(a.rm_reg(), None);
}

#[test]
fn sib_esp_index_means_no_index() {
    for scale in 0u8..4 {
        let byte = (scale << 6) | (0b100 << 3) | 0b011;
        let s32 = Sib32::from(byte);
        assert_eq!(s32.scaled_index, None);
        assert_eq!(s32.scale, None);
        assert_eq!(s32.base, Some(Reg::EBX));
        let s64 = Sib64::from_byte_with_rex(byte, Rex::from_byte(0x42));
        assert_eq!(s64.scaled_index, None);
    }
}

#[test]
fn sib_scaled_index() {
    let s = Sib32::from(0b10_001_000);
    assert_eq!(s, Sib32 { base: Some(Reg::EAX), scaled_index: Some(Reg::ECX), scale: Some(Scale(4)) });
    let s = Sib64::from_byte_with_rex(0b11_001_101, Rex::from_byte(0x43));
    assert_eq!(s, Sib64 { base: Some(Reg::R13), scaled_index: Some(Reg::R9), scale: Some(Scale(8)) });
}

#[test]
fn sib_reinterpretation() {
    let mut s = Sib::Sib64(Sib64 { base: Some(Reg::RAX), scaled_index: Some(Reg::R9), scale: None });
    let c = s.convert_with_addrsize(AddrSize::Addr32Bit);
    assert_eq!(c, Sib::Sib64(Sib64 { base: Some(Reg::EAX), scaled_index: Some(Reg::R9d), scale: None }));
    assert_eq!(s.base(), Some(Reg::RAX));
    s.set_base(None);
    assert_eq!(s.base(), None);
    assert_eq!(EffAddrType::Reg(Reg::RSI).convert_with_addrsize(AddrSize::Addr16Bit), EffAddrType::Reg(Reg::SI));
}

#[test]
fn immediate_widening() {
    assert_eq!(Immediate::ImmI8(-1).widen(OpSize::U32), Immediate::ImmI32(-1));
    assert_eq!(Immediate::ImmU8(0xFF).widen(OpSize::U16), Immediate::ImmU16(0xFF));
    assert_eq!(Immediate::ImmI16(-300).widen(OpSize::I16), Immediate::ImmI16(-300));
    assert_eq!(Immediate::ImmI32(7).widen(OpSize::U8), Immediate::ImmI32(7));
    let twice = Immediate::ImmI8(-7).widen(OpSize::U16).widen(OpSize::U64);
    assert_eq!(twice, Immediate::ImmI8(-7).widen(OpSize::U64));
    assert_eq!(twice, Immediate::ImmI64(-7));
}

#[test]
fn immediate_parsing() {
    let mut reader = Reader::from_vec(vec![0xFF, 0x34, 0x12, 0x01, 0x00, 0x00, 0x80]);
    assert_eq!(Immediate::parse(&OpSize::U8, &mut reader).unwrap(), Immediate::ImmI8(-1));
    assert_eq!(Immediate::parse(&OpSize::I16, &mut reader).unwrap(), Immediate::ImmI16(0x1234));
    assert_eq!(Immediate::parse(&OpSize::CpuMode, &mut reader).unwrap(), Immediate::ImmI32(-0x7fff_ffff));
}

#[test]
fn operand_templates_from_manual_notation() {
    assert_eq!(Operand::from_map(AddressingMethod::E, OperandType::V, Arch::Arch64), Operand::ModRM(OpSize::CpuMode, AddrSize::Addr64Bit));
    assert_eq!(Operand::from_map(AddressingMethod::I, OperandType::Z, Arch::Arch16), Operand::Immediate(OpSize::U16));
    assert_eq!(Operand::from_map(AddressingMethod::I, OperandType::Z, Arch::Arch32), Operand::Immediate(OpSize::U32));
    assert_eq!(Operand::from_map(AddressingMethod::G, OperandType::B, Arch::Arch32), Operand::ModReg(OpSize::U8));
    assert_eq!(Operand::from_map(AddressingMethod::M, OperandType::D, Arch::Arch16), Operand::ModRM(OpSize::U32, AddrSize::Addr16Bit));
}

#[test]
fn one_byte_opcode_map() {
    let op = Opcode::from_byte_with_arch(0x2B, Arch::Arch32).unwrap();
    assert_eq!(op.ident, OpcodeType::Sub);
    assert_eq!(op.encoding, Some(OperandEncoding::RM));
    let op = Opcode::from_byte_with_arch(0x3C, Arch::Arch32).unwrap();
    assert_eq!(op.ident, OpcodeType::Cmp);
    assert_eq!(op.operands[0], Some(Operand::Reg(Reg::AL)));
    let op = Opcode::from_byte_with_arch(0x45, Arch::Arch64).unwrap();
    assert!(matches!(op.ident, OpcodeType::Rex(_)));
    let op = Opcode::from_byte_with_arch(0x45, Arch::Arch32).unwrap();
    assert_eq!(op.ident, OpcodeType::Unknown);
    let op = Opcode::from_byte_with_arch(0x82, Arch::Arch32).unwrap();
    assert_eq!(op.ident, OpcodeType::NeedsModRMExtension(0x82));
    let mut reader = Reader::from_vec(vec![0x0F]);
    let op = Opcode::from_reader_with_arch(&mut reader, Arch::Arch64).unwrap();
    assert_eq!(op.ident, OpcodeType::Unknown);
}

#[test]
fn opcode_extension_conversion() {
    let mut op = Opcode::from_byte_with_arch(0x80, Arch::Arch32).unwrap();
    op.convert_with_ext_arch(RegFieldExt::try_from(7).unwrap(), Arch::Arch32).unwrap();
    assert_eq!(op.ident, OpcodeType::Cmp);
    assert_eq!(op.operands[1], Some(Operand::Immediate(OpSize::U8)));
    let mut op = Opcode::from_byte_with_arch(0xFF, Arch::Arch32).unwrap();
    op.convert_with_ext_arch(RegFieldExt::try_from(6).unwrap(), Arch::Arch32).unwrap();
    assert_eq!(op.ident, OpcodeType::Push);
    let mut op = Opcode::from_byte_with_arch(0xFF, Arch::Arch32).unwrap();
    op.convert_with_ext_arch(RegFieldExt::try_from(7).unwrap(), Arch::Arch32).unwrap();
    assert_eq!(op.ident, OpcodeType::Unknown);
    assert_eq!(RegFieldExt::try_from(8), Err(RegFieldExtError::CannotConvertFrom(8)));
}

#[test]
fn prefixed_escape_forms() {
    let mut reader = Reader::from_vec(vec![0x0F, 0x10]);
    let op = Opcode::with_prefix_arch(&mut reader, &[Prefix::OpSize], Arch::Arch64).unwrap();
    assert_eq!(op.ident, OpcodeType::Unknown);
    assert_eq!(reader.pos(), 1);
    let mut reader = Reader::from_vec(vec![0x0F, 0x10]);
    let op = Opcode::with_prefix_arch(&mut reader, &[Prefix::Group1(Group1::Rep)], Arch::Arch64).unwrap();
    assert_eq!(op.ident, OpcodeType::Unknown);
    assert_eq!(reader.pos(), 2);
    let mut reader = Reader::from_vec(vec![0x0F, 0x10]);
    let r = Opcode::with_prefix_arch(&mut reader, &[Prefix::Group1(Group1::Lock)], Arch::Arch64);
    assert!(r.is_err());
}

#[test]
fn memory_forms_name_no_direct_register() {
    let m = ModRM::from_byte_with_arch(0x00, Some(Arch::Arch32), None);
    assert_eq!(m.rm_reg(), None);
    let m = ModRM::from_byte_with_arch(0b01_000_111, Some(Arch::Arch16), None);
    assert_eq!(m.rm_reg(), None);
    let m = ModRM::from_byte_with_arch(0b11_000_111, Some(Arch::Arch16), None);
    assert_eq!(m.rm_reg(), Some(Reg::EDI));
    let m = ModRM::from_byte_with_arch(0b10_000_011, Some(Arch::Arch64), None);
    assert_eq!(m.rm_reg(), None);
}

#[test]
fn signed_reads_are_twos_complement() {
    let mut reader = Reader::from_vec(vec![0xFF, 0x00, 0x80, 0xFF, 0xFF, 0xFF, 0xFF, 0xFF, 0xFF, 0xFF, 0xFF]);
    assert_eq!(reader.read::<i8>().unwrap(), -1);
    assert_eq!(reader.read::<i16>().unwrap(), i16::MIN);
    assert_eq!(reader.read::<i64>().unwrap(), -1);
}
