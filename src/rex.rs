//! The REX prefix of 64-bit mode.
use vstd::prelude::*;

verus! {

/// REX prefixes occupy the opcode row 0x40 to 0x4F and are only prefixes in 64-bit mode; in the
/// other modes the same bytes are INC/DEC instructions. The high nibble is always 0100 and the
/// low nibble holds four one-bit fields:
/// - `w`: 1 selects a 64-bit operand size, which wins over an operand-size override prefix
/// - `r`: extends the ModR/M `reg` field
/// - `x`: extends the SIB `index` field
/// - `b`: extends the ModR/M `r/m` field, the SIB `base` field or the opcode `reg` field
#[derive(Debug, Clone, Copy, PartialEq, Eq, Structural)]
pub struct Rex {
    w: u8,
    r: u8,
    x: u8,
    b: u8,
}

/// The REX record that `value` encodes, if it is in the REX row.
pub open spec fn rex_of(value: u8) -> Option<Rex> {
    if 0x40 <= value && value <= 0x4F {
        Some(Rex::spec_new((value >> 3) & 1, (value >> 2) & 1, (value >> 1) & 1, value & 1))
    } else {
        None
    }
}

impl Rex {
    #[verifier::type_invariant]
    spec fn inv(&self) -> bool {
        self.w <= 1 && self.r <= 1 && self.x <= 1 && self.b <= 1
    }

    pub closed spec fn spec_new(w: u8, r: u8, x: u8, b: u8) -> Rex {
        Rex { w, r, x, b }
    }

    pub closed spec fn spec_w(&self) -> u8 {
        self.w
    }

    pub closed spec fn spec_r(&self) -> u8 {
        self.r
    }

    pub closed spec fn spec_x(&self) -> u8 {
        self.x
    }

    pub closed spec fn spec_b(&self) -> u8 {
        self.b
    }

    /// Classifies one byte as a REX prefix: bytes 0x40 to 0x4F inclusive, with W in bit 3, R in
    /// bit 2, X in bit 1 and B in bit 0. Whether REX applies at all (64-bit mode only) is the
    /// caller's decision.
    pub fn from_byte(value: u8) -> (r: Option<Rex>)
        ensures
            r == rex_of(value),
            r is Some <==> 0x40 <= value <= 0x4F,
            r matches Some(x) ==> {
                &&& x.spec_w() == (value >> 3) & 1
                &&& x.spec_r() == (value >> 2) & 1
                &&& x.spec_x() == (value >> 1) & 1
                &&& x.spec_b() == value & 1
            },
    {
        match value {
            0x40..=0x4F => {
                let w = (value >> 3) & 1;
                let r = (value >> 2) & 1;
                let x = (value >> 1) & 1;
                let b = value & 1;
                assert(((value >> 3) & 1) <= 1 && ((value >> 2) & 1) <= 1 && ((value >> 1) & 1) <= 1
                    && (value & 1) <= 1) by (bit_vector);
                Some(Rex { w, r, x, b })
            }
            _ => None,
        }
    }

    pub fn w(&self) -> (r: u8)
        ensures
            r == self.spec_w(),
            r <= 1,
    {
        proof {
            use_type_invariant(self);
        }
        self.w
    }

    pub fn r(&self) -> (r: u8)
        ensures
            r == self.spec_r(),
            r <= 1,
    {
        proof {
            use_type_invariant(self);
        }
        self.r
    }

    pub fn x(&self) -> (r: u8)
        ensures
            r == self.spec_x(),
            r <= 1,
    {
        proof {
            use_type_invariant(self);
        }
        self.x
    }

    pub fn b(&self) -> (r: u8)
        ensures
            r == self.spec_b(),
            r <= 1,
    {
        proof {
            use_type_invariant(self);
        }
        self.b
    }
}

/// The REX record that a byte of the REX row encodes holds the byte's low four bits: W is bit
/// 3, R bit 2, X bit 1 and B bit 0. Bytes outside the row encode none.
pub broadcast proof fn lemma_rex_of_fields(value: u8)
    ensures
        #[trigger] rex_of(value) is Some <==> 0x40 <= value <= 0x4F,
        rex_of(value) matches Some(x) ==> {
            &&& x.spec_w() == (value >> 3) & 1
            &&& x.spec_r() == (value >> 2) & 1
            &&& x.spec_x() == (value >> 1) & 1
            &&& x.spec_b() == value & 1
        },
{
}

} // verus!
