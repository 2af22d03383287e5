//! A bounds-checked cursor over an owned byte buffer.
use vstd::prelude::*;

verus! {

/// Little-endian value of a byte sequence: the first byte is the least significant.
pub open spec fn le_value(bs: Seq<u8>) -> nat
    decreases bs.len(),
{
    if bs.len() == 0 {
        0
    } else {
        bs[0] as nat + 256 * le_value(bs.drop_first())
    }
}

/// Two's complement value of a byte sequence read little-endian: the unsigned value, less
/// `256` to the power of the length when the top bit of the last byte is set.
pub open spec fn le_signed(bs: Seq<u8>) -> int {
    let v = le_value(bs);
    let m = pow256(bs.len());
    if 2 * v >= m {
        v - m
    } else {
        v as int
    }
}

/// `256` raised to the power `k`.
pub open spec fn pow256(k: nat) -> nat
    decreases k,
{
    if k == 0 {
        1
    } else {
        256 * pow256((k - 1) as nat)
    }
}

proof fn lemma_pow256_monotone(a: nat, b: nat)
    requires
        a <= b,
    ensures
        pow256(a) <= pow256(b),
    decreases b,
{
    if a < b {
        lemma_pow256_monotone(a, (b - 1) as nat);
    }
}

/// Sequential reader over a byte buffer. Every read is checked against the end of the buffer.
pub struct Reader {
    // Offset of the next byte to read
    pos: usize,
    // The bytes being read
    bytes: Vec<u8>,
}

/// Raised when a read cannot be satisfied.
#[derive(Debug, Clone, Copy, PartialEq, Eq, Structural)]
pub enum ReaderError {
    /// Fewer bytes remain than the read asks for
    NotEnoughBytes,
    /// A conversion was handed a slice whose length is not the width of the target type
    LengthMismatch,
}

impl Reader {
    #[verifier::type_invariant]
    spec fn inv(&self) -> bool {
        self.pos <= self.bytes.len()
    }

    /// The whole buffer.
    pub closed spec fn data(&self) -> Seq<u8> {
        self.bytes@
    }

    /// Offset of the next byte to be read.
    pub closed spec fn position(&self) -> nat {
        self.pos as nat
    }

    /// The bytes not read yet.
    pub open spec fn rest(&self) -> Seq<u8> {
        self.data().skip(self.position() as int)
    }

    /// Create a new `Reader` positioned at the first byte of `bytes`.
    pub fn from_vec(bytes: Vec<u8>) -> (r: Self)
        ensures
            r.data() == bytes@,
            r.position() == 0,
    {
        Self { pos: 0, bytes }
    }

    pub fn bytes_unread(&self) -> (r: usize)
        ensures
            r == self.rest().len(),
            r == self.data().len() - self.position(),
            self.position() <= self.data().len(),
    {
        proof {
            use_type_invariant(self);
        }
        self.bytes.len() - self.pos
    }

    pub fn pos(&self) -> (r: usize)
        ensures
            r == self.position(),
            r <= self.data().len(),
    {
        proof {
            use_type_invariant(self);
        }
        self.pos
    }

    /// Moves the position back to `pos`, an offset already read past.
    pub(crate) fn rewind(&mut self, pos: usize)
        requires
            pos <= old(self).position(),
        ensures
            final(self).data() == old(self).data(),
            final(self).position() == pos,
    {
        proof {
            use_type_invariant(&*self);
        }
        self.pos = pos;
    }

    /// Reads `size` bytes and moves the position past them.
    pub fn read_bytes(&mut self, size: usize) -> (r: Result<&[u8], ReaderError>)
        ensures
            final(self).data() == old(self).data(),
            match r {
                Ok(bs) => {
                    &&& size <= old(self).rest().len()
                    &&& bs@ == old(self).rest().take(size as int)
                    &&& final(self).position() == old(self).position() + size
                    &&& final(self).rest() == old(self).rest().skip(size as int)
                },
                Err(e) => {
                    &&& e == ReaderError::NotEnoughBytes
                    &&& size > old(self).rest().len()
                    &&& final(self).position() == old(self).position()
                },
            },
    {
        proof {
            use_type_invariant(&*self);
        }
        if size > self.bytes.len() - self.pos {
            return Err(ReaderError::NotEnoughBytes);
        }
        let start = self.pos;
        self.pos = start + size;
        let all = self.bytes.as_slice();
        let bs = &all[start..start + size];
        proof {
            assert(bs@ =~= old(self).rest().take(size as int));
            assert(self.rest() =~= old(self).rest().skip(size as int));
        }
        Ok(bs)
    }

    /// Returns the next `size` bytes without moving the position.
    pub fn peek_bytes(&self, size: usize) -> (r: Result<&[u8], ReaderError>)
        ensures
            match r {
                Ok(bs) => size <= self.rest().len() && bs@ == self.rest().take(size as int),
                Err(e) => e == ReaderError::NotEnoughBytes && size > self.rest().len(),
            },
    {
        proof {
            use_type_invariant(self);
        }
        if size > self.bytes.len() - self.pos {
            return Err(ReaderError::NotEnoughBytes);
        }
        let all = self.bytes.as_slice();
        let bs = &all[self.pos..self.pos + size];
        proof {
            assert(bs@ =~= self.rest().take(size as int));
        }
        Ok(bs)
    }

    /// Reads a `T` stored little-endian and moves the position past it.
    pub fn read<T: FromLeBytes>(&mut self) -> (r: Result<T, ReaderError>)
        ensures
            final(self).data() == old(self).data(),
            match r {
                Ok(v) => {
                    &&& T::spec_width() <= old(self).rest().len()
                    &&& v == T::spec_from_le(old(self).rest().take(T::spec_width() as int))
                    &&& final(self).position() == old(self).position() + T::spec_width()
                    &&& final(self).rest() == old(self).rest().skip(T::spec_width() as int)
                },
                Err(e) => {
                    &&& e == ReaderError::NotEnoughBytes
                    &&& T::spec_width() > old(self).rest().len()
                    &&& final(self).position() == old(self).position()
                },
            },
    {
        let nbytes = T::width();
        let bytes = self.read_bytes(nbytes)?;
        T::from_bytes(bytes)
    }

    /// Reads a `T` stored little-endian without moving the position.
    pub fn peek<T: FromLeBytes>(&self) -> (r: Result<T, ReaderError>)
        ensures
            match r {
                Ok(v) => {
                    &&& T::spec_width() <= self.rest().len()
                    &&& v == T::spec_from_le(self.rest().take(T::spec_width() as int))
                },
                Err(e) => e == ReaderError::NotEnoughBytes && T::spec_width() > self.rest().len(),
            },
    {
        let nbytes = T::width();
        let bytes = self.peek_bytes(nbytes)?;
        T::from_bytes(bytes)
    }
}

/// Implemented by the integer types that a `Reader` can produce from little-endian bytes.
pub trait FromLeBytes: Sized {
    /// Number of bytes a value occupies.
    spec fn spec_width() -> nat;

    /// The value that the given bytes encode.
    spec fn spec_from_le(bytes: Seq<u8>) -> Self;

    fn width() -> (r: usize)
        ensures
            r == Self::spec_width(),
    ;

    fn from_bytes(bytes: &[u8]) -> (r: Result<Self, ReaderError>)
        ensures
            bytes@.len() == Self::spec_width() ==> r == Ok::<Self, ReaderError>(
                Self::spec_from_le(bytes@),
            ),
            bytes@.len() != Self::spec_width() ==> r == Err::<Self, ReaderError>(
                ReaderError::LengthMismatch,
            ),
    ;
}

/// Little-endian value of at most sixteen bytes.
fn le_u128(bytes: &[u8]) -> (r: u128)
    requires
        bytes@.len() <= 16,
    ensures
        r == le_value(bytes@),
        r < pow256(bytes@.len()),
{
    let n = bytes.len();
    let mut i: usize = n;
    let mut acc: u128 = 0;
    proof {
        assert(bytes@.subrange(n as int, n as int) =~= Seq::<u8>::empty());
        lemma_pow256_monotone(0, 16);
    }
    while i > 0
        invariant
            n == bytes@.len(),
            n <= 16,
            i <= n,
            acc == le_value(bytes@.subrange(i as int, n as int)),
            acc < pow256((n - i) as nat),
        decreases i,
    {
        i = i - 1;
        let b = bytes[i];
        proof {
            let k = (n - i - 1) as nat;
            assert(bytes@.subrange(i as int, n as int).drop_first() =~= bytes@.subrange(
                i + 1,
                n as int,
            ));
            assert(pow256(k + 1) == 256 * pow256(k));
            lemma_pow256_monotone(k + 1, 16);
            assert(pow256(16) == 0x1_0000_0000_0000_0000_0000_0000_0000_0000) by {
                reveal_with_fuel(pow256, 17);
            }
            assert(acc * 256 + b < 256 * pow256(k)) by (nonlinear_arith)
                requires
                    acc < pow256(k),
                    b < 256,
            ;
        }
        acc = acc * 256 + b as u128;
    }
    proof {
        assert(bytes@.subrange(0, n as int) =~= bytes@);
    }
    acc
}

/// The little-endian value of `bs` is below `256` to the power of its length.
pub proof fn lemma_le_value_bound(bs: Seq<u8>)
    ensures
        le_value(bs) < pow256(bs.len()),
    decreases bs.len(),
{
    if bs.len() > 0 {
        lemma_le_value_bound(bs.drop_first());
        let k = bs.drop_first().len();
        assert(pow256(k + 1) == 256 * pow256(k));
        let v = le_value(bs.drop_first());
        let b = bs[0];
        assert(b + 256 * v < 256 * pow256(k)) by (nonlinear_arith)
            requires
                v < pow256(k),
                b < 256,
        ;
    }
}

/// The two's complement value of `bs` lies in the signed range of its width, so reading it as a
/// signed integer of that width keeps it.
pub proof fn lemma_le_signed_range(bs: Seq<u8>)
    ensures
        -pow256(bs.len()) <= 2 * le_signed(bs) < pow256(bs.len()),
{
    lemma_le_value_bound(bs);
}

/// `256` to the powers that the integer widths use.
pub proof fn lemma_pow256_widths()
    ensures
        pow256(1) == 0x100,
        pow256(2) == 0x1_0000,
        pow256(4) == 0x1_0000_0000,
        pow256(8) == 0x1_0000_0000_0000_0000,
        pow256(16) == 0x1_0000_0000_0000_0000_0000_0000_0000_0000,
{
    reveal_with_fuel(pow256, 17);
}

impl FromLeBytes for u8 {
    open spec fn spec_width() -> nat {
        1
    }

    open spec fn spec_from_le(bytes: Seq<u8>) -> u8 {
        le_value(bytes) as u8
    }

    fn width() -> (r: usize) {
        1
    }

    fn from_bytes(bytes: &[u8]) -> (r: Result<u8, ReaderError>) {
        if bytes.len() != 1 {
            return Err(ReaderError::LengthMismatch);
        }
        Ok(le_u128(bytes) as u8)
    }
}

impl FromLeBytes for u16 {
    open spec fn spec_width() -> nat {
        2
    }

    open spec fn spec_from_le(bytes: Seq<u8>) -> u16 {
        le_value(bytes) as u16
    }

    fn width() -> (r: usize) {
        2
    }

    fn from_bytes(bytes: &[u8]) -> (r: Result<u16, ReaderError>) {
        if bytes.len() != 2 {
            return Err(ReaderError::LengthMismatch);
        }
        Ok(le_u128(bytes) as u16)
    }
}

impl FromLeBytes for u32 {
    open spec fn spec_width() -> nat {
        4
    }

    open spec fn spec_from_le(bytes: Seq<u8>) -> u32 {
        le_value(bytes) as u32
    }

    fn width() -> (r: usize) {
        4
    }

    fn from_bytes(bytes: &[u8]) -> (r: Result<u32, ReaderError>) {
        if bytes.len() != 4 {
            return Err(ReaderError::LengthMismatch);
        }
        Ok(le_u128(bytes) as u32)
    }
}

impl FromLeBytes for u64 {
    open spec fn spec_width() -> nat {
        8
    }

    open spec fn spec_from_le(bytes: Seq<u8>) -> u64 {
        le_value(bytes) as u64
    }

    fn width() -> (r: usize) {
        8
    }

    fn from_bytes(bytes: &[u8]) -> (r: Result<u64, ReaderError>) {
        if bytes.len() != 8 {
            return Err(ReaderError::LengthMismatch);
        }
        Ok(le_u128(bytes) as u64)
    }
}

impl FromLeBytes for u128 {
    open spec fn spec_width() -> nat {
        16
    }

    open spec fn spec_from_le(bytes: Seq<u8>) -> u128 {
        le_value(bytes) as u128
    }

    fn width() -> (r: usize) {
        16
    }

    fn from_bytes(bytes: &[u8]) -> (r: Result<u128, ReaderError>) {
        if bytes.len() != 16 {
            return Err(ReaderError::LengthMismatch);
        }
        Ok(le_u128(bytes) as u128)
    }
}

impl FromLeBytes for i8 {
    open spec fn spec_width() -> nat {
        1
    }

    open spec fn spec_from_le(bytes: Seq<u8>) -> i8 {
        le_signed(bytes) as i8
    }

    fn width() -> (r: usize) {
        1
    }

    fn from_bytes(bytes: &[u8]) -> (r: Result<i8, ReaderError>) {
        if bytes.len() != 1 {
            return Err(ReaderError::LengthMismatch);
        }
        let v = le_u128(bytes);
        proof {
            lemma_pow256_widths();
        }
        // Two's complement: values from half the range up stand for negative numbers
        if v >= 0x80 {
            Ok(((v - 0x80) as i8) - 0x7f - 1)
        } else {
            Ok(v as i8)
        }
    }
}

impl FromLeBytes for i16 {
    open spec fn spec_width() -> nat {
        2
    }

    open spec fn spec_from_le(bytes: Seq<u8>) -> i16 {
        le_signed(bytes) as i16
    }

    fn width() -> (r: usize) {
        2
    }

    fn from_bytes(bytes: &[u8]) -> (r: Result<i16, ReaderError>) {
        if bytes.len() != 2 {
            return Err(ReaderError::LengthMismatch);
        }
        let v = le_u128(bytes);
        proof {
            lemma_pow256_widths();
        }
        // Two's complement: values from half the range up stand for negative numbers
        if v >= 0x8000 {
            Ok(((v - 0x8000) as i16) - 0x7fff - 1)
        } else {
            Ok(v as i16)
        }
    }
}

impl FromLeBytes for i32 {
    open spec fn spec_width() -> nat {
        4
    }

    open spec fn spec_from_le(bytes: Seq<u8>) -> i32 {
        le_signed(bytes) as i32
    }

    fn width() -> (r: usize) {
        4
    }

    fn from_bytes(bytes: &[u8]) -> (r: Result<i32, ReaderError>) {
        if bytes.len() != 4 {
            return Err(ReaderError::LengthMismatch);
        }
        let v = le_u128(bytes);
        proof {
            lemma_pow256_widths();
        }
        // Two's complement: values from half the range up stand for negative numbers
        if v >= 0x80000000 {
            Ok(((v - 0x80000000) as i32) - 0x7fffffff - 1)
        } else {
            Ok(v as i32)
        }
    }
}

impl FromLeBytes for i64 {
    open spec fn spec_width() -> nat {
        8
    }

    open spec fn spec_from_le(bytes: Seq<u8>) -> i64 {
        le_signed(bytes) as i64
    }

    fn width() -> (r: usize) {
        8
    }

    fn from_bytes(bytes: &[u8]) -> (r: Result<i64, ReaderError>) {
        if bytes.len() != 8 {
            return Err(ReaderError::LengthMismatch);
        }
        let v = le_u128(bytes);
        proof {
            lemma_pow256_widths();
        }
        // Two's complement: values from half the range up stand for negative numbers
        if v >= 0x8000000000000000 {
            Ok(((v - 0x8000000000000000) as i64) - 0x7fffffffffffffff - 1)
        } else {
            Ok(v as i64)
        }
    }
}

impl FromLeBytes for i128 {
    open spec fn spec_width() -> nat {
        16
    }

    open spec fn spec_from_le(bytes: Seq<u8>) -> i128 {
        le_signed(bytes) as i128
    }

    fn width() -> (r: usize) {
        16
    }

    fn from_bytes(bytes: &[u8]) -> (r: Result<i128, ReaderError>) {
        if bytes.len() != 16 {
            return Err(ReaderError::LengthMismatch);
        }
        let v = le_u128(bytes);
        proof {
            lemma_pow256_widths();
        }
        // Two's complement: values from half the range up stand for negative numbers
        if v >= 0x80000000000000000000000000000000 {
            Ok(((v - 0x80000000000000000000000000000000) as i128) - 0x7fffffffffffffffffffffffffffffff - 1)
        } else {
            Ok(v as i128)
        }
    }
}

} // verus!
