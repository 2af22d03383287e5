//! Legacy instruction prefixes.
use vstd::prelude::*;

verus! {

pub const LOCK: u8 = 0xF0;

pub const REPNE: u8 = 0xF2;

pub const REP: u8 = 0xF3;

pub const CS_SEG_OVERRIDE: u8 = 0x2E;

pub const SS_SEG_OVERRIDE: u8 = 0x36;

pub const DS_SEG_OVERRIDE: u8 = 0x3E;

pub const ES_SEG_OVERRIDE: u8 = 0x26;

pub const FS_SEG_OVERRIDE: u8 = 0x64;

pub const GS_SEG_OVERRIDE: u8 = 0x65;

pub const OP_SIZE_OVERRIDE: u8 = 0x66;

pub const ADDR_SIZE_OVERRIDE: u8 = 0x67;

/// Instruction prefixes of one byte each, in the groups the processor manual defines.
#[derive(Debug, Clone, Copy, PartialEq, Eq, Structural)]
pub enum Prefix {
    // Lock, repeat and BND prefixes
    Group1(Group1),
    // Segment override prefixes
    Group2(Group2),
    // Operand-size override: switches between the mode's default operand size and its alternate
    OpSize,
    // Address-size override: switches between the mode's default address size and its alternate
    AddrSize,
}

#[derive(Debug, Clone, Copy, PartialEq, Eq, Structural)]
pub enum PrefixError {
    InvalidPrefix,
}

#[derive(Debug, Clone, Copy, PartialEq, Eq, Structural)]
pub enum Group1 {
    // Exclusive use of shared memory for the instruction
    Lock,
    // Repeat while not equal / not zero; also BND in some contexts
    RepNE,
    // Repeat, for string and I/O instructions
    Rep,
}

#[derive(Debug, Clone, Copy, PartialEq, Eq, Structural)]
pub enum Group2 {
    CsSegOverride,
    SsSegOverride,
    DsSegOverride,
    EsSegOverride,
    FsSegOverride,
    GsSegOverride,
}

/// The group-1 prefix that `value` encodes, if any.
pub open spec fn group1_of(value: u8) -> Option<Group1> {
    if value == LOCK {
        Some(Group1::Lock)
    } else if value == REPNE {
        Some(Group1::RepNE)
    } else if value == REP {
        Some(Group1::Rep)
    } else {
        None
    }
}

/// The group-2 prefix that `value` encodes, if any.
pub open spec fn group2_of(value: u8) -> Option<Group2> {
    if value == CS_SEG_OVERRIDE {
        Some(Group2::CsSegOverride)
    } else if value == SS_SEG_OVERRIDE {
        Some(Group2::SsSegOverride)
    } else if value == DS_SEG_OVERRIDE {
        Some(Group2::DsSegOverride)
    } else if value == ES_SEG_OVERRIDE {
        Some(Group2::EsSegOverride)
    } else if value == FS_SEG_OVERRIDE {
        Some(Group2::FsSegOverride)
    } else if value == GS_SEG_OVERRIDE {
        Some(Group2::GsSegOverride)
    } else {
        None
    }
}

/// The legacy prefix that `value` encodes, if any.
pub open spec fn prefix_of(value: u8) -> Option<Prefix> {
    if let Some(g) = group1_of(value) {
        Some(Prefix::Group1(g))
    } else if let Some(g) = group2_of(value) {
        Some(Prefix::Group2(g))
    } else if value == OP_SIZE_OVERRIDE {
        Some(Prefix::OpSize)
    } else if value == ADDR_SIZE_OVERRIDE {
        Some(Prefix::AddrSize)
    } else {
        None
    }
}

pub open spec fn group1_result(value: u8) -> Result<Group1, PrefixError> {
    match group1_of(value) {
        Some(g) => Ok(g),
        None => Err(PrefixError::InvalidPrefix),
    }
}

pub open spec fn group2_result(value: u8) -> Result<Group2, PrefixError> {
    match group2_of(value) {
        Some(g) => Ok(g),
        None => Err(PrefixError::InvalidPrefix),
    }
}

impl Prefix {
    /// Classifies one byte as a legacy prefix. Any byte that is not one yields `None`, and the
    /// caller has to read it as a REX byte or an opcode byte.
    pub fn from_byte(value: u8) -> (r: Option<Self>)
        ensures
            r == prefix_of(value),
    {
        if let Ok(temp_prefix) = Group1::try_from(value) {
            return Some(Self::Group1(temp_prefix));
        }
        if let Ok(temp_prefix) = Group2::try_from(value) {
            return Some(Self::Group2(temp_prefix));
        }
        match value {
            OP_SIZE_OVERRIDE => Some(Self::OpSize),
            ADDR_SIZE_OVERRIDE => Some(Self::AddrSize),
            _ => None,
        }
    }
}

impl TryFrom<u8> for Group1 {
    type Error = PrefixError;

    fn try_from(value: u8) -> (r: Result<Self, Self::Error>)
        ensures
            r == group1_result(value),
    {
        match value {
            LOCK => Ok(Self::Lock),
            REPNE => Ok(Self::RepNE),
            REP => Ok(Self::Rep),
            _ => Err(PrefixError::InvalidPrefix),
        }
    }
}

impl vstd::std_specs::convert::TryFromSpecImpl<u8> for Group1 {
    open spec fn obeys_try_from_spec() -> bool {
        true
    }

    open spec fn try_from_spec(value: u8) -> Result<Self, PrefixError> {
        group1_result(value)
    }
}

impl TryFrom<u8> for Group2 {
    type Error = PrefixError;

    fn try_from(value: u8) -> (r: Result<Self, Self::Error>)
        ensures
            r == group2_result(value),
    {
        match value {
            CS_SEG_OVERRIDE => Ok(Self::CsSegOverride),
            SS_SEG_OVERRIDE => Ok(Self::SsSegOverride),
            DS_SEG_OVERRIDE => Ok(Self::DsSegOverride),
            ES_SEG_OVERRIDE => Ok(Self::EsSegOverride),
            FS_SEG_OVERRIDE => Ok(Self::FsSegOverride),
            GS_SEG_OVERRIDE => Ok(Self::GsSegOverride),
            _ => Err(PrefixError::InvalidPrefix),
        }
    }
}

impl vstd::std_specs::convert::TryFromSpecImpl<u8> for Group2 {
    open spec fn obeys_try_from_spec() -> bool {
        true
    }

    open spec fn try_from_spec(value: u8) -> Result<Self, PrefixError> {
        group2_result(value)
    }
}

} // verus!
