//! Parsing helpers for wire-encoded `Option<T>` integer values.
//!
//! Expected layout:
//! - `0x00` => `None`
//! - `0x01` => `Some(T)` followed by little-endian bytes of `T`

use vstd::prelude::*;
use crate::error::UtilError;

verus! {

/// The number denoted by a little-endian byte string.
pub open spec fn le_value(bytes: Seq<u8>) -> nat
    decreases bytes.len(),
{
    if bytes.len() == 0 {
        0
    } else {
        bytes[0] as nat + 256 * le_value(bytes.drop_first())
    }
}

/// `256` raised to the power `n`.
pub open spec fn pow256(n: nat) -> nat
    decreases n,
{
    if n == 0 {
        1
    } else {
        256 * pow256((n - 1) as nat)
    }
}

/// The two's complement reading of an unsigned value `v` whose width has
/// `half` as its sign bit (`half` is `2^(bits - 1)`).
pub open spec fn twos_complement(v: int, half: int) -> int {
    if v < half {
        v
    } else {
        v - 2 * half
    }
}

proof fn lemma_pow256_monotonic(a: nat, b: nat)
    requires
        a <= b,
    ensures
        pow256(a) <= pow256(b),
    decreases b,
{
    if a < b {
        lemma_pow256_monotonic(a, (b - 1) as nat);
    }
}

proof fn lemma_pow256_values()
    ensures
        pow256(1) == 0x100,
        pow256(2) == 0x1_0000,
        pow256(4) == 0x1_0000_0000,
        pow256(8) == 0x1_0000_0000_0000_0000,
        pow256(16) == 0x1_0000_0000_0000_0000_0000_0000_0000_0000,
{
    reveal_with_fuel(pow256, 17);
}

/// A little-endian value is below `256^len`.
proof fn lemma_le_value_bound(bytes: Seq<u8>)
    ensures
        le_value(bytes) < pow256(bytes.len()),
    decreases bytes.len(),
{
    if bytes.len() > 0 {
        lemma_le_value_bound(bytes.drop_first());
    }
}

/// The `n` little-endian bytes of `v` (taken modulo `256^n`).
pub open spec fn le_bytes(v: nat, n: nat) -> Seq<u8>
    decreases n,
{
    if n == 0 {
        Seq::empty()
    } else {
        seq![(v % 256) as u8] + le_bytes(v / 256, (n - 1) as nat)
    }
}

/// The unsigned value whose two's complement reading, at the width whose
/// sign bit is `half`, is `v`.
pub open spec fn twos_complement_bits(v: int, half: int) -> nat {
    if v >= 0 {
        v as nat
    } else {
        (v + 2 * half) as nat
    }
}

/// Reading the little-endian bytes of a value gives the value back.
proof fn lemma_le_value_of_le_bytes(v: nat, n: nat)
    requires
        v < pow256(n),
    ensures
        le_bytes(v, n).len() == n,
        le_value(le_bytes(v, n)) == v,
    decreases n,
{
    if n > 0 {
        let q = v / 256;
        let p = pow256((n - 1) as nat);
        assert(v == 256 * q + v % 256 && v % 256 < 256) by (nonlinear_arith)
            requires
                q == v / 256,
        ;
        assert(q < p) by (nonlinear_arith)
            requires
                v < 256 * p,
                q == v / 256,
        ;
        lemma_le_value_of_le_bytes(q, (n - 1) as nat);
        let s = le_bytes(v, n);
        assert(s.drop_first() =~= le_bytes(q, (n - 1) as nat));
    }
}

/// Reads at most sixteen little-endian bytes as an unsigned number.
fn le_u128(bytes: &[u8]) -> (r: u128)
    requires
        bytes@.len() <= 16,
    ensures
        r == le_value(bytes@),
{
    let n = bytes.len();
    let mut v: u128 = 0;
    let mut i: usize = n;
    assert(bytes@.subrange(n as int, n as int) =~= Seq::<u8>::empty());
    while i > 0
        invariant
            i <= n,
            n == bytes@.len(),
            n <= 16,
            v == le_value(bytes@.subrange(i as int, n as int)),
            v < pow256((n - i) as nat),
        decreases i,
    {
        i = i - 1;
        proof {
            let s = bytes@.subrange(i as int, n as int);
            assert(s.drop_first() =~= bytes@.subrange(i + 1, n as int));
            lemma_pow256_monotonic((n - i) as nat, 16);
            lemma_pow256_values();
        }
        v = (bytes[i] as u128) + 256 * v;
    }
    assert(bytes@.subrange(0, n as int) =~= bytes@);
    v
}

/// An integer type that can appear as the payload of a wire-encoded option.
pub trait OptionInteger: Sized {
    /// Number of payload bytes.
    const LEN: usize;

    /// Number of payload bytes, for specifications.
    spec fn spec_len() -> nat;

    /// `LEN` is the number of payload bytes that `spec_len` states.
    proof fn lemma_len()
        ensures
            Self::LEN == Self::spec_len(),
    ;

    /// The value denoted by `bytes`, read little-endian, when it holds
    /// exactly `LEN` bytes.
    spec fn spec_from_le(bytes: Seq<u8>) -> Self;

    /// The `LEN` little-endian bytes of this value.
    spec fn spec_to_le(self) -> Seq<u8>;

    /// Reading the little-endian bytes of a value gives the value back.
    proof fn lemma_from_to_le(self)
        ensures
            self.spec_to_le().len() == Self::LEN,
            Self::spec_from_le(self.spec_to_le()) == self,
    ;

    /// Reads a value from exactly `LEN` little-endian bytes.
    fn from_le_slice(data: &[u8]) -> (r: Result<Self, UtilError>)
        ensures
            data@.len() == Self::LEN ==> r == Ok::<Self, UtilError>(Self::spec_from_le(data@)),
            data@.len() != Self::LEN ==> r == Err::<Self, UtilError>(UtilError::InvalidInstructionData),
    ;
}

impl OptionInteger for u8 {
    const LEN: usize = 1;

    open spec fn spec_len() -> nat {
        1
    }

    proof fn lemma_len() {
    }

    open spec fn spec_from_le(bytes: Seq<u8>) -> u8 {
        le_value(bytes) as u8
    }

    open spec fn spec_to_le(self) -> Seq<u8> {
        le_bytes(self as nat, 1)
    }

    proof fn lemma_from_to_le(self) {
        lemma_pow256_values();
        lemma_le_value_of_le_bytes(self as nat, 1);
    }

    fn from_le_slice(data: &[u8]) -> (r: Result<u8, UtilError>) {
        if data.len() != 1 {
            return Err(UtilError::InvalidInstructionData);
        }
        proof {
            lemma_le_value_bound(data@);
            lemma_pow256_values();
        }
        Ok(le_u128(data) as u8)
    }
}

impl OptionInteger for u16 {
    const LEN: usize = 2;

    open spec fn spec_len() -> nat {
        2
    }

    proof fn lemma_len() {
    }

    open spec fn spec_from_le(bytes: Seq<u8>) -> u16 {
        le_value(bytes) as u16
    }

    open spec fn spec_to_le(self) -> Seq<u8> {
        le_bytes(self as nat, 2)
    }

    proof fn lemma_from_to_le(self) {
        lemma_pow256_values();
        lemma_le_value_of_le_bytes(self as nat, 2);
    }

    fn from_le_slice(data: &[u8]) -> (r: Result<u16, UtilError>) {
        if data.len() != 2 {
            return Err(UtilError::InvalidInstructionData);
        }
        proof {
            lemma_le_value_bound(data@);
            lemma_pow256_values();
        }
        Ok(le_u128(data) as u16)
    }
}

impl OptionInteger for u32 {
    const LEN: usize = 4;

    open spec fn spec_len() -> nat {
        4
    }

    proof fn lemma_len() {
    }

    open spec fn spec_from_le(bytes: Seq<u8>) -> u32 {
        le_value(bytes) as u32
    }

    open spec fn spec_to_le(self) -> Seq<u8> {
        le_bytes(self as nat, 4)
    }

    proof fn lemma_from_to_le(self) {
        lemma_pow256_values();
        lemma_le_value_of_le_bytes(self as nat, 4);
    }

    fn from_le_slice(data: &[u8]) -> (r: Result<u32, UtilError>) {
        if data.len() != 4 {
            return Err(UtilError::InvalidInstructionData);
        }
        proof {
            lemma_le_value_bound(data@);
            lemma_pow256_values();
        }
        Ok(le_u128(data) as u32)
    }
}

impl OptionInteger for u64 {
    const LEN: usize = 8;

    open spec fn spec_len() -> nat {
        8
    }

    proof fn lemma_len() {
    }

    open spec fn spec_from_le(bytes: Seq<u8>) -> u64 {
        le_value(bytes) as u64
    }

    open spec fn spec_to_le(self) -> Seq<u8> {
        le_bytes(self as nat, 8)
    }

    proof fn lemma_from_to_le(self) {
        lemma_pow256_values();
        lemma_le_value_of_le_bytes(self as nat, 8);
    }

    fn from_le_slice(data: &[u8]) -> (r: Result<u64, UtilError>) {
        if data.len() != 8 {
            return Err(UtilError::InvalidInstructionData);
        }
        proof {
            lemma_le_value_bound(data@);
            lemma_pow256_values();
        }
        Ok(le_u128(data) as u64)
    }
}

impl OptionInteger for u128 {
    const LEN: usize = 16;

    open spec fn spec_len() -> nat {
        16
    }

    proof fn lemma_len() {
    }

    open spec fn spec_from_le(bytes: Seq<u8>) -> u128 {
        le_value(bytes) as u128
    }

    open spec fn spec_to_le(self) -> Seq<u8> {
        le_bytes(self as nat, 16)
    }

    proof fn lemma_from_to_le(self) {
        lemma_pow256_values();
        lemma_le_value_of_le_bytes(self as nat, 16);
    }

    fn from_le_slice(data: &[u8]) -> (r: Result<u128, UtilError>) {
        if data.len() != 16 {
            return Err(UtilError::InvalidInstructionData);
        }
        Ok(le_u128(data))
    }
}

impl OptionInteger for i8 {
    const LEN: usize = 1;

    open spec fn spec_len() -> nat {
        1
    }

    proof fn lemma_len() {
    }

    open spec fn spec_from_le(bytes: Seq<u8>) -> i8 {
        twos_complement(le_value(bytes) as int, 0x80) as i8
    }

    open spec fn spec_to_le(self) -> Seq<u8> {
        le_bytes(twos_complement_bits(self as int, 0x80), 1)
    }

    proof fn lemma_from_to_le(self) {
        lemma_pow256_values();
        lemma_le_value_of_le_bytes(twos_complement_bits(self as int, 0x80), 1);
    }

    fn from_le_slice(data: &[u8]) -> (r: Result<i8, UtilError>) {
        if data.len() != 1 {
            return Err(UtilError::InvalidInstructionData);
        }
        proof {
            lemma_le_value_bound(data@);
            lemma_pow256_values();
        }
        let u = le_u128(data) as u8;
        assert(u < 0x80 ==> (u as i8) == u) by (bit_vector);
        assert(u >= 0x80 ==> (u as i8) == u - 0x100) by (bit_vector);
        Ok(u as i8)
    }
}

impl OptionInteger for i16 {
    const LEN: usize = 2;

    open spec fn spec_len() -> nat {
        2
    }

    proof fn lemma_len() {
    }

    open spec fn spec_from_le(bytes: Seq<u8>) -> i16 {
        twos_complement(le_value(bytes) as int, 0x8000) as i16
    }

    open spec fn spec_to_le(self) -> Seq<u8> {
        le_bytes(twos_complement_bits(self as int, 0x8000), 2)
    }

    proof fn lemma_from_to_le(self) {
        lemma_pow256_values();
        lemma_le_value_of_le_bytes(twos_complement_bits(self as int, 0x8000), 2);
    }

    fn from_le_slice(data: &[u8]) -> (r: Result<i16, UtilError>) {
        if data.len() != 2 {
            return Err(UtilError::InvalidInstructionData);
        }
        proof {
            lemma_le_value_bound(data@);
            lemma_pow256_values();
        }
        let u = le_u128(data) as u16;
        assert(u < 0x8000 ==> (u as i16) == u) by (bit_vector);
        assert(u >= 0x8000 ==> (u as i16) == u - 0x1_0000) by (bit_vector);
        Ok(u as i16)
    }
}

impl OptionInteger for i32 {
    const LEN: usize = 4;

    open spec fn spec_len() -> nat {
        4
    }

    proof fn lemma_len() {
    }

    open spec fn spec_from_le(bytes: Seq<u8>) -> i32 {
        twos_complement(le_value(bytes) as int, 0x8000_0000) as i32
    }

    open spec fn spec_to_le(self) -> Seq<u8> {
        le_bytes(twos_complement_bits(self as int, 0x8000_0000), 4)
    }

    proof fn lemma_from_to_le(self) {
        lemma_pow256_values();
        lemma_le_value_of_le_bytes(twos_complement_bits(self as int, 0x8000_0000), 4);
    }

    fn from_le_slice(data: &[u8]) -> (r: Result<i32, UtilError>) {
        if data.len() != 4 {
            return Err(UtilError::InvalidInstructionData);
        }
        proof {
            lemma_le_value_bound(data@);
            lemma_pow256_values();
        }
        let u = le_u128(data) as u32;
        assert(u < 0x8000_0000 ==> (u as i32) == u) by (bit_vector);
        assert(u >= 0x8000_0000 ==> (u as i32) == u - 0x1_0000_0000) by (bit_vector);
        Ok(u as i32)
    }
}

impl OptionInteger for i64 {
    const LEN: usize = 8;

    open spec fn spec_len() -> nat {
        8
    }

    proof fn lemma_len() {
    }

    open spec fn spec_from_le(bytes: Seq<u8>) -> i64 {
        twos_complement(le_value(bytes) as int, 0x8000_0000_0000_0000) as i64
    }

    open spec fn spec_to_le(self) -> Seq<u8> {
        le_bytes(twos_complement_bits(self as int, 0x8000_0000_0000_0000), 8)
    }

    proof fn lemma_from_to_le(self) {
        lemma_pow256_values();
        lemma_le_value_of_le_bytes(twos_complement_bits(self as int, 0x8000_0000_0000_0000), 8);
    }

    fn from_le_slice(data: &[u8]) -> (r: Result<i64, UtilError>) {
        if data.len() != 8 {
            return Err(UtilError::InvalidInstructionData);
        }
        proof {
            lemma_le_value_bound(data@);
            lemma_pow256_values();
        }
        let u = le_u128(data) as u64;
        assert(u < 0x8000_0000_0000_0000 ==> (u as i64) == u) by (bit_vector);
        assert(u >= 0x8000_0000_0000_0000 ==> (u as i64) == u - 0x1_0000_0000_0000_0000) by (bit_vector);
        Ok(u as i64)
    }
}

impl OptionInteger for i128 {
    const LEN: usize = 16;

    open spec fn spec_len() -> nat {
        16
    }

    proof fn lemma_len() {
    }

    open spec fn spec_from_le(bytes: Seq<u8>) -> i128 {
        twos_complement(le_value(bytes) as int, 0x8000_0000_0000_0000_0000_0000_0000_0000) as i128
    }

    open spec fn spec_to_le(self) -> Seq<u8> {
        le_bytes(twos_complement_bits(self as int, 0x8000_0000_0000_0000_0000_0000_0000_0000), 16)
    }

    proof fn lemma_from_to_le(self) {
        lemma_pow256_values();
        lemma_le_value_of_le_bytes(twos_complement_bits(self as int, 0x8000_0000_0000_0000_0000_0000_0000_0000), 16);
    }

    fn from_le_slice(data: &[u8]) -> (r: Result<i128, UtilError>) {
        if data.len() != 16 {
            return Err(UtilError::InvalidInstructionData);
        }
        let u = le_u128(data);
        assert(u < 0x8000_0000_0000_0000_0000_0000_0000_0000 ==> (u as i128) == u) by (bit_vector);
        assert(u >= 0x8000_0000_0000_0000_0000_0000_0000_0000 ==> (u as i128) == u
            - 0x1_0000_0000_0000_0000_0000_0000_0000_0000) by (bit_vector);
        Ok(u as i128)
    }
}

/// What `parse_option` returns on `data`: a missing or unknown tag and a
/// payload shorter than `T::LEN` are rejected, bytes after the payload are
/// ignored.
pub open spec fn spec_parse_option<T: OptionInteger>(data: Seq<u8>) -> Result<Option<T>, UtilError> {
    if data.len() == 0 {
        Err(UtilError::InvalidInstructionData)
    } else if data[0] == 0 {
        Ok(None)
    } else if data[0] == 1 {
        if data.len() - 1 < T::LEN {
            Err(UtilError::InvalidInstructionData)
        } else {
            Ok(Some(T::spec_from_le(data.subrange(1, 1 + T::LEN))))
        }
    } else {
        Err(UtilError::InvalidInstructionData)
    }
}

/// Parse wire-encoded `Option<T>` from a byte slice using a 1-byte tag
/// followed by an optional little-endian payload.
pub fn parse_option<T: OptionInteger>(data: &[u8]) -> (r: Result<Option<T>, UtilError>)
    ensures
        r == spec_parse_option::<T>(data@),
{
    if data.len() == 0 {
        return Err(UtilError::InvalidInstructionData);
    }
    let tag = data[0];
    if tag == 0 {
        Ok(None)
    } else if tag == 1 {
        if data.len() - 1 < T::LEN {
            return Err(UtilError::InvalidInstructionData);
        }
        let payload = vstd::slice::slice_subrange(data, 1, 1 + T::LEN);
        match T::from_le_slice(payload) {
            Ok(v) => Ok(Some(v)),
            Err(e) => Err(e),
        }
    } else {
        Err(UtilError::InvalidInstructionData)
    }
}

/// Parsing reads back what the documented layout writes: a `0` tag is
/// `None`, and a `1` tag followed by the little-endian bytes of a value is
/// that value; bytes after the encoding are ignored.
pub proof fn lemma_parse_option_reads_written_value<T: OptionInteger>(v: T, extra: Seq<u8>)
    ensures
        spec_parse_option::<T>(seq![1u8] + v.spec_to_le() + extra) == Ok::<Option<T>, UtilError>(Some(v)),
        spec_parse_option::<T>(seq![0u8] + extra) == Ok::<Option<T>, UtilError>(None),
{
    v.lemma_from_to_le();
    let d = seq![1u8] + v.spec_to_le() + extra;
    assert(d.subrange(1, 1 + T::LEN) =~= v.spec_to_le());
}

/// Bytes that follow a complete encoding do not change what is parsed.
pub proof fn lemma_parse_option_ignores_trailing_bytes<T: OptionInteger>(data: Seq<u8>, extra: Seq<u8>)
    requires
        spec_parse_option::<T>(data) is Ok,
    ensures
        spec_parse_option::<T>(data + extra) == spec_parse_option::<T>(data),
{
    if data[0] == 1 {
        assert((data + extra).subrange(1, 1 + T::LEN) =~= data.subrange(1, 1 + T::LEN));
    }
}

} // verus!
