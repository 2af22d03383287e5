//! Decoding of x86 machine code, one instruction at a time.
//!
//! `inst::Instruction::from_reader` decodes one instruction at a `reader::Reader`'s position:
//! legacy prefixes (`prefix`), the REX prefix (`rex`), the opcode and its operand templates
//! (`opcode`), the ModR/M and SIB bytes (`modrm`), displacement and immediate (`imm`), and the
//! resolution of the templates into registers (`reg`), memory operands and immediates. Its
//! contract pins the result to `inst::decode_spec` over the unread bytes. `dis` runs it over a
//! buffer.
pub mod dis;
pub mod imm;
pub mod inst;
pub mod modrm;
pub mod opcode;
pub mod prefix;
pub mod reader;
pub mod reg;
pub mod rex;
