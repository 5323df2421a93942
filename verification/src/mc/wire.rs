//! Mathematical model of the wire's primitive encodings, and the facts that
//! tie each encoder to its decoder.
//!
//! Every encoding is a function from a value to a byte sequence; every
//! decoding reads a prefix of a byte sequence and says how many bytes it took.

use vstd::prelude::*;

verus! {

/// The number of values of an unsigned 32-bit integer.
pub const TWO_TO_32: u64 = 0x1_0000_0000;

/// The number of values of an unsigned 64-bit integer.
pub const TWO_TO_64: u128 = 0x1_0000_0000_0000_0000;

/// The unsigned reading of a signed 32-bit value in two's complement.
pub open spec fn spec_i32_bits(v: i32) -> nat {
    if v < 0 {
        (v + TWO_TO_32) as nat
    } else {
        v as nat
    }
}

/// The signed value whose two's complement is the low 32 bits of `n`.
pub open spec fn spec_i32_from_bits(n: nat) -> i32 {
    let low = n as int % (TWO_TO_32 as int);
    if low >= 0x8000_0000 {
        (low - TWO_TO_32) as i32
    } else {
        low as i32
    }
}

/// The unsigned reading of a signed 16-bit value in two's complement.
pub open spec fn spec_i16_bits(v: i16) -> nat {
    if v < 0 {
        (v + 0x1_0000) as nat
    } else {
        v as nat
    }
}

/// The signed value whose two's complement is the low 16 bits of `n`.
pub open spec fn spec_i16_from_bits(n: nat) -> i16 {
    let low = n as int % 0x1_0000;
    if low >= 0x8000 {
        (low - 0x1_0000) as i16
    } else {
        low as i16
    }
}

/// The unsigned reading of a signed 64-bit value in two's complement.
pub open spec fn spec_i64_bits(v: i64) -> nat {
    if v < 0 {
        (v + TWO_TO_64) as nat
    } else {
        v as nat
    }
}

/// The signed value whose two's complement is the low 64 bits of `n`.
pub open spec fn spec_i64_from_bits(n: nat) -> i64 {
    let low = n as int % (TWO_TO_64 as int);
    if low >= 0x8000_0000_0000_0000 {
        (low - TWO_TO_64) as i64
    } else {
        low as i64
    }
}

/// The VarInt bytes of an unsigned value: seven bits per byte, lowest group
/// first, the high bit set on every byte but the last.
pub open spec fn spec_varint_bytes(n: nat) -> Seq<u8>
    decreases n,
{
    if n < 128 {
        seq![n as u8]
    } else {
        seq![(n % 128 + 128) as u8] + spec_varint_bytes(n / 128)
    }
}

/// The VarInt of a signed 32-bit value: that of its two's complement.
pub open spec fn spec_varint(v: i32) -> Seq<u8> {
    spec_varint_bytes(spec_i32_bits(v))
}

/// Whether the byte at `k` ends a VarInt that starts at the front of `bytes`:
/// it has no continuation bit and every byte before it has one.
pub open spec fn spec_varint_ends_at(bytes: Seq<u8>, k: int) -> bool {
    &&& 0 <= k < bytes.len()
    &&& bytes[k] < 128
    &&& forall|j: int| 0 <= j < k ==> bytes[j] >= 128
}

/// The length of the VarInt at the front of `bytes`, if one ends within its
/// first five bytes.
pub open spec fn spec_varint_len(bytes: Seq<u8>) -> Option<nat> {
    if spec_varint_ends_at(bytes, 0) {
        Some(1)
    } else if spec_varint_ends_at(bytes, 1) {
        Some(2)
    } else if spec_varint_ends_at(bytes, 2) {
        Some(3)
    } else if spec_varint_ends_at(bytes, 3) {
        Some(4)
    } else if spec_varint_ends_at(bytes, 4) {
        Some(5)
    } else {
        None
    }
}

/// Whether `bytes` starts with five bytes that all carry the continuation
/// bit: no VarInt is that long.
pub open spec fn spec_varint_malformed(bytes: Seq<u8>) -> bool {
    bytes.len() >= 5 && forall|j: int| 0 <= j < 5 ==> bytes[j] >= 128
}

/// The number that the seven-bit groups of `bytes[from..to]` spell, lowest
/// group first.
pub open spec fn spec_varint_groups(bytes: Seq<u8>, from: int, to: int) -> nat
    decreases to - from,
{
    if from >= to {
        0
    } else {
        (bytes[from] % 128) as nat + 128 * spec_varint_groups(bytes, from + 1, to)
    }
}

/// The value and length of the VarInt at the front of `bytes`. Bits above the
/// 32nd are dropped.
pub open spec fn spec_read_varint(bytes: Seq<u8>) -> Option<(i32, nat)> {
    match spec_varint_len(bytes) {
        Some(len) => Some((spec_i32_from_bits(spec_varint_groups(bytes, 0, len as int)), len)),
        None => None,
    }
}

/// Big-endian bytes of `n` in `width` bytes; higher bytes of `n` are dropped.
pub open spec fn spec_be_bytes(n: nat, width: nat) -> Seq<u8>
    decreases width,
{
    if width == 0 {
        Seq::empty()
    } else {
        spec_be_bytes(n / 256, (width - 1) as nat).push((n % 256) as u8)
    }
}

/// The number that `bytes` spell in big-endian.
pub open spec fn spec_be_value(bytes: Seq<u8>) -> nat
    decreases bytes.len(),
{
    if bytes.len() == 0 {
        0
    } else {
        spec_be_value(bytes.drop_last()) * 256 + bytes.last() as nat
    }
}

/// Little-endian bytes of a 16-bit value.
pub open spec fn spec_u16_le_bytes(v: u16) -> Seq<u8> {
    seq![(v % 256) as u8, (v / 256) as u8]
}

/// The wire form of a boolean: one byte, 1 or 0.
pub open spec fn spec_bool_byte(b: bool) -> u8 {
    if b {
        1
    } else {
        0
    }
}

/// The wire form of a string: the VarInt of its UTF-8 length, then the UTF-8
/// bytes.
pub open spec fn spec_string_bytes(s: Seq<char>) -> Seq<u8> {
    spec_varint_bytes(vstd::utf8::encode_utf8(s).len()) + vstd::utf8::encode_utf8(s)
}

/// A VarInt of a 32-bit value has one to five bytes, and only its last byte
/// lacks the continuation bit.
pub proof fn lemma_varint_bytes_shape(n: nat)
    requires
        n < TWO_TO_32,
    ensures
        1 <= spec_varint_bytes(n).len() <= 5,
        spec_varint_ends_at(spec_varint_bytes(n), spec_varint_bytes(n).len() - 1),
        n < 0x80 ==> spec_varint_bytes(n).len() == 1,
        0x80 <= n < 0x4000 ==> spec_varint_bytes(n).len() == 2,
        0x4000 <= n < 0x20_0000 ==> spec_varint_bytes(n).len() == 3,
        0x20_0000 <= n < 0x1000_0000 ==> spec_varint_bytes(n).len() == 4,
        0x1000_0000 <= n ==> spec_varint_bytes(n).len() == 5,
{
    lemma_varint_bytes_shape_bounded(n, 5);
}

/// Shape of the VarInt of a value below `128^limit`.
proof fn lemma_varint_bytes_shape_bounded(n: nat, limit: nat)
    requires
        1 <= limit <= 5,
        limit == 1 ==> n < 0x80,
        limit == 2 ==> n < 0x4000,
        limit == 3 ==> n < 0x20_0000,
        limit == 4 ==> n < 0x1000_0000,
        limit == 5 ==> n < TWO_TO_32,
    ensures
        1 <= spec_varint_bytes(n).len() <= limit,
        spec_varint_ends_at(spec_varint_bytes(n), spec_varint_bytes(n).len() - 1),
        n < 0x80 ==> spec_varint_bytes(n).len() == 1,
        0x80 <= n < 0x4000 ==> spec_varint_bytes(n).len() == 2,
        0x4000 <= n < 0x20_0000 ==> spec_varint_bytes(n).len() == 3,
        0x20_0000 <= n < 0x1000_0000 ==> spec_varint_bytes(n).len() == 4,
        0x1000_0000 <= n ==> spec_varint_bytes(n).len() == 5,
    decreases limit,
{
    if n >= 128 {
        lemma_varint_bytes_shape_bounded(n / 128, (limit - 1) as nat);
        let head = seq![(n % 128 + 128) as u8];
        let tail = spec_varint_bytes(n / 128);
        let all = spec_varint_bytes(n);
        assert(all =~= head + tail);
        assert forall|j: int| 0 <= j < all.len() - 1 implies all[j] >= 128 by {
            if j > 0 {
                assert(all[j] == tail[j - 1]);
            }
        }
        assert(all[all.len() - 1] == tail[tail.len() - 1]);
    }
}

/// Reading back the VarInt of `n` gives `n`, whatever follows it.
pub proof fn lemma_varint_roundtrip(n: nat, rest: Seq<u8>)
    requires
        n < TWO_TO_32,
    ensures
        spec_varint_len(spec_varint_bytes(n) + rest) == Some(spec_varint_bytes(n).len()),
        spec_varint_groups(
            spec_varint_bytes(n) + rest,
            0,
            spec_varint_bytes(n).len() as int,
        ) == n,
{
    let enc = spec_varint_bytes(n);
    let all = enc + rest;
    lemma_varint_bytes_shape(n);
    let last = enc.len() - 1;
    assert(spec_varint_ends_at(all, last)) by {
        assert(all[last] == enc[last]);
        assert forall|j: int| 0 <= j < last implies all[j] >= 128 by {
            assert(all[j] == enc[j]);
        }
    }
    assert(forall|k: int| 0 <= k < last ==> !spec_varint_ends_at(all, k));
    lemma_varint_groups_of_bytes(n, rest, 0, Seq::empty());
    assert(Seq::<u8>::empty() + enc + rest =~= all);
}

/// The groups of an encoded value spell the value, wherever the encoding
/// stands in a longer sequence.
proof fn lemma_varint_groups_of_bytes(n: nat, rest: Seq<u8>, at: int, before: Seq<u8>)
    requires
        at == before.len(),
    ensures
        spec_varint_groups(
            before + spec_varint_bytes(n) + rest,
            at,
            at + spec_varint_bytes(n).len(),
        ) == n,
    decreases n,
{
    let enc = spec_varint_bytes(n);
    let all = before + enc + rest;
    assert(all[at] == enc[0]);
    if n < 128 {
        assert(spec_varint_groups(all, at + 1, at + 1) == 0);
    } else {
        let head = seq![(n % 128 + 128) as u8];
        let tail = spec_varint_bytes(n / 128);
        assert(enc =~= head + tail);
        lemma_varint_groups_of_bytes(n / 128, rest, at + 1, before + head);
        assert(before + head + tail + rest =~= all);
    }
}

/// The two's complement of a 32-bit value reads back as the value.
pub proof fn lemma_i32_bits_roundtrip(v: i32)
    ensures
        spec_i32_bits(v) < TWO_TO_32,
        spec_i32_from_bits(spec_i32_bits(v)) == v,
{
}

/// The two's complement of a 16-bit value reads back as the value.
pub proof fn lemma_i16_bits_roundtrip(v: i16)
    ensures
        spec_i16_bits(v) < 0x1_0000,
        spec_i16_from_bits(spec_i16_bits(v)) == v,
{
}

/// The two's complement of a 64-bit value reads back as the value.
pub proof fn lemma_i64_bits_roundtrip(v: i64)
    ensures
        spec_i64_bits(v) < TWO_TO_64,
        spec_i64_from_bits(spec_i64_bits(v)) == v,
{
}

/// Reading back the VarInt of a signed value gives the value and the
/// encoding's length, whatever follows it.
pub proof fn lemma_read_varint_of_varint(v: i32, rest: Seq<u8>)
    ensures
        spec_read_varint(spec_varint(v) + rest) == Some((v, spec_varint(v).len())),
        1 <= spec_varint(v).len() <= 5,
{
    lemma_i32_bits_roundtrip(v);
    lemma_varint_roundtrip(spec_i32_bits(v), rest);
    lemma_varint_bytes_shape(spec_i32_bits(v));
}

/// `256` to the power of `width`, for the widths the wire uses.
pub open spec fn spec_be_limit(width: nat) -> nat
    decreases width,
{
    if width == 0 {
        1
    } else {
        256 * spec_be_limit((width - 1) as nat)
    }
}

/// Big-endian bytes have the width asked for, and spell the value again if
/// it fits the width.
pub proof fn lemma_be_roundtrip(n: nat, width: nat)
    ensures
        spec_be_bytes(n, width).len() == width,
        n < spec_be_limit(width) ==> spec_be_value(spec_be_bytes(n, width)) == n,
        spec_be_value(spec_be_bytes(n, width)) < spec_be_limit(width),
    decreases width,
{
    if width > 0 {
        lemma_be_roundtrip(n / 256, (width - 1) as nat);
        let bytes = spec_be_bytes(n, width);
        assert(bytes.drop_last() =~= spec_be_bytes(n / 256, (width - 1) as nat));
        assert(bytes.last() == (n % 256) as u8);
        if n < spec_be_limit(width) {
            assert(n / 256 < spec_be_limit((width - 1) as nat));
        }
    }
}

/// The limits of the widths that occur on the wire.
pub proof fn lemma_be_limits()
    ensures
        spec_be_limit(1) == 0x100,
        spec_be_limit(2) == 0x1_0000,
        spec_be_limit(4) == TWO_TO_32,
        spec_be_limit(8) == TWO_TO_64,
        spec_be_limit(16) == 0x1_0000_0000_0000_0000_0000_0000_0000_0000,
{
    reveal_with_fuel(spec_be_limit, 17);
}

/// Why a byte sequence could not be decoded.
#[derive(Clone, Copy, Debug, PartialEq, Eq, Structural)]
pub enum DecodeError {
    /// A frame's length prefix is above the packet size limit.
    PacketTooLarge,
    /// Five bytes in a row carry the continuation bit.
    MalformedVarInt,
    /// The bytes end before the value does.
    UnexpectedEnd,
    /// A length field is negative.
    InvalidLength,
    /// A string is not valid UTF-8.
    InvalidUtf8,
    /// A field holds a number that names none of its type's values.
    InvalidValue,
    /// A compressed payload is no valid zlib stream.
    InvalidCompression,
}

/// `128` to the power of `k`.
pub open spec fn spec_pow128(k: nat) -> nat
    decreases k,
{
    if k == 0 {
        1
    } else {
        128 * spec_pow128((k - 1) as nat)
    }
}

/// The groups of `k` bytes spell a number below `128^k`.
pub proof fn lemma_varint_groups_bound(bytes: Seq<u8>, from: int, to: int)
    requires
        from <= to,
    ensures
        spec_varint_groups(bytes, from, to) < spec_pow128((to - from) as nat),
    decreases to - from,
{
    if from < to {
        lemma_varint_groups_bound(bytes, from + 1, to);
    }
}

/// Takes `width` bytes off the front and reads them as a big-endian number.
pub open spec fn spec_take_be(bytes: Seq<u8>, width: nat) -> Result<(nat, Seq<u8>), DecodeError> {
    if bytes.len() >= width {
        Ok((spec_be_value(bytes.subrange(0, width as int)), bytes.skip(width as int)))
    } else {
        Err(DecodeError::UnexpectedEnd)
    }
}

pub open spec fn spec_take_u8(bytes: Seq<u8>) -> Result<(u8, Seq<u8>), DecodeError> {
    match spec_take_be(bytes, 1) {
        Ok((n, rest)) => Ok((n as u8, rest)),
        Err(e) => Err(e),
    }
}

/// A boolean is one byte; any byte but zero reads as `true`.
pub open spec fn spec_take_bool(bytes: Seq<u8>) -> Result<(bool, Seq<u8>), DecodeError> {
    match spec_take_be(bytes, 1) {
        Ok((n, rest)) => Ok((n != 0, rest)),
        Err(e) => Err(e),
    }
}

pub open spec fn spec_take_u16(bytes: Seq<u8>) -> Result<(u16, Seq<u8>), DecodeError> {
    match spec_take_be(bytes, 2) {
        Ok((n, rest)) => Ok((n as u16, rest)),
        Err(e) => Err(e),
    }
}

pub open spec fn spec_take_i16(bytes: Seq<u8>) -> Result<(i16, Seq<u8>), DecodeError> {
    match spec_take_be(bytes, 2) {
        Ok((n, rest)) => Ok((spec_i16_from_bits(n), rest)),
        Err(e) => Err(e),
    }
}

pub open spec fn spec_take_u32(bytes: Seq<u8>) -> Result<(u32, Seq<u8>), DecodeError> {
    match spec_take_be(bytes, 4) {
        Ok((n, rest)) => Ok((n as u32, rest)),
        Err(e) => Err(e),
    }
}

pub open spec fn spec_take_i32(bytes: Seq<u8>) -> Result<(i32, Seq<u8>), DecodeError> {
    match spec_take_be(bytes, 4) {
        Ok((n, rest)) => Ok((spec_i32_from_bits(n), rest)),
        Err(e) => Err(e),
    }
}

pub open spec fn spec_take_u64(bytes: Seq<u8>) -> Result<(u64, Seq<u8>), DecodeError> {
    match spec_take_be(bytes, 8) {
        Ok((n, rest)) => Ok((n as u64, rest)),
        Err(e) => Err(e),
    }
}

pub open spec fn spec_take_i64(bytes: Seq<u8>) -> Result<(i64, Seq<u8>), DecodeError> {
    match spec_take_be(bytes, 8) {
        Ok((n, rest)) => Ok((spec_i64_from_bits(n), rest)),
        Err(e) => Err(e),
    }
}

/// Takes the VarInt at the front. Fails as malformed where five bytes in a
/// row carry the continuation bit, and as ended where the bytes stop before
/// the VarInt does.
pub open spec fn spec_take_varint(bytes: Seq<u8>) -> Result<(i32, Seq<u8>), DecodeError> {
    match spec_read_varint(bytes) {
        Some((v, used)) => Ok((v, bytes.skip(used as int))),
        None => if spec_varint_malformed(bytes) {
            Err(DecodeError::MalformedVarInt)
        } else {
            Err(DecodeError::UnexpectedEnd)
        },
    }
}

/// Takes the length-prefixed string at the front.
pub open spec fn spec_take_string(bytes: Seq<u8>) -> Result<(Seq<char>, Seq<u8>), DecodeError> {
    match spec_take_varint(bytes) {
        Ok((len, rest)) => {
            if len < 0 {
                Err(DecodeError::InvalidLength)
            } else if rest.len() < len {
                Err(DecodeError::UnexpectedEnd)
            } else if !vstd::utf8::valid_utf8(rest.subrange(0, len as int)) {
                Err(DecodeError::InvalidUtf8)
            } else {
                Ok((vstd::utf8::decode_utf8(rest.subrange(0, len as int)), rest.skip(len as int)))
            }
        },
        Err(e) => Err(e),
    }
}

/// Taking a big-endian number back off its own bytes gives the number and
/// what follows.
pub proof fn lemma_take_be_of_bytes(n: nat, width: nat, rest: Seq<u8>)
    requires
        n < spec_be_limit(width),
    ensures
        spec_take_be(spec_be_bytes(n, width) + rest, width) == Ok::<_, DecodeError>((n, rest)),
{
    lemma_be_roundtrip(n, width);
    let enc = spec_be_bytes(n, width);
    assert((enc + rest).subrange(0, width as int) =~= enc);
    assert((enc + rest).skip(width as int) =~= rest);
}

/// Taking a VarInt back off its own bytes gives the value and what follows.
pub proof fn lemma_take_varint_of_varint(v: i32, rest: Seq<u8>)
    ensures
        spec_take_varint(spec_varint(v) + rest) == Ok::<_, DecodeError>((v, rest)),
{
    lemma_read_varint_of_varint(v, rest);
    assert((spec_varint(v) + rest).skip(spec_varint(v).len() as int) =~= rest);
}

/// Taking a string back off its own wire form gives the string and what
/// follows.
pub proof fn lemma_take_string_of_string(s: Seq<char>, rest: Seq<u8>)
    requires
        vstd::utf8::encode_utf8(s).len() <= i32::MAX,
    ensures
        spec_take_string(spec_string_bytes(s) + rest) == Ok::<_, DecodeError>((s, rest)),
{
    let body = vstd::utf8::encode_utf8(s);
    let n = body.len();
    assert(spec_i32_bits(n as i32) == n);
    lemma_take_varint_of_varint(n as i32, body + rest);
    assert(spec_varint(n as i32) + (body + rest) =~= spec_string_bytes(s) + rest);
    assert((body + rest).subrange(0, n as int) =~= body);
    assert((body + rest).skip(n as int) =~= rest);
    vstd::utf8::encode_utf8_valid_utf8(s);
    vstd::utf8::encode_utf8_decode_utf8(s);
}

/// A VarInt with the continuation bit on its fifth byte is rejected.
pub proof fn lemma_varint_five_continuations_rejected(bytes: Seq<u8>)
    requires
        spec_varint_malformed(bytes),
    ensures
        spec_take_varint(bytes) == Err::<(i32, Seq<u8>), _>(DecodeError::MalformedVarInt),
{
}

/// Big-endian bytes of a wide number are those of its high part followed by
/// those of its low part.
pub proof fn lemma_be_bytes_split(n: nat, high: nat, low: nat)
    ensures
        spec_be_bytes(n, high + low) == spec_be_bytes(n / spec_be_limit(low), high) + spec_be_bytes(
            n % spec_be_limit(low),
            low,
        ),
    decreases low,
{
    if low == 0 {
        assert(spec_be_limit(0) == 1);
        assert(spec_be_bytes(n % 1, 0) =~= Seq::<u8>::empty());
        assert(spec_be_bytes(n, high) + Seq::<u8>::empty() =~= spec_be_bytes(n, high));
        assert((high + low) as nat == high);
    } else {
        assert(spec_be_limit(low) == 256 * spec_be_limit((low - 1) as nat));
        assert(spec_be_bytes(n, high + low) == spec_be_bytes(n / 256, (high + low - 1) as nat).push(
            (n % 256) as u8,
        ));
        assert((high + low - 1) as nat == high + (low - 1) as nat);
        let l1 = (low - 1) as nat;
        lemma_be_bytes_split(n / 256, high, l1);
        let m = spec_be_limit(l1);
        assert(m > 0) by {
            lemma_be_limit_positive(l1);
        }
        vstd::arithmetic::div_mod::lemma_div_denominator(n as int, 256, m as int);
        vstd::arithmetic::div_mod::lemma_mod_breakdown(n as int, 256, m as int);
        let rest = n as int % (256 * m as int);
        let mid = (n as int / 256) % (m as int);
        assert(rest == 256 * mid + n as int % 256);
        vstd::arithmetic::div_mod::lemma_fundamental_div_mod_converse(
            rest,
            256,
            mid,
            n as int % 256,
        );
        assert(spec_be_bytes(n, high + low) =~= spec_be_bytes(n / spec_be_limit(low), high)
            + spec_be_bytes(n % spec_be_limit(low), low));
    }
}

/// Every limit is positive.
pub proof fn lemma_be_limit_positive(width: nat)
    ensures
        spec_be_limit(width) > 0,
    decreases width,
{
    if width > 0 {
        lemma_be_limit_positive((width - 1) as nat);
    }
}

/// Concatenation may be regrouped.
pub proof fn lemma_concat_assoc(a: Seq<u8>, b: Seq<u8>, c: Seq<u8>)
    ensures
        a + b + c == a + (b + c),
{
    assert(a + b + c =~= a + (b + c));
}

/// Cutting a concatenation where its parts meet gives the parts.
pub proof fn lemma_concat_split(a: Seq<u8>, b: Seq<u8>)
    ensures
        (a + b).subrange(0, a.len() as int) == a,
        (a + b).skip(a.len() as int) == b,
{
    assert((a + b).subrange(0, a.len() as int) =~= a);
    assert((a + b).skip(a.len() as int) =~= b);
}

} // verus!
