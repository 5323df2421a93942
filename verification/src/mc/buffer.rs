//! Growable byte buffers with the wire's primitive reads and writes.

use crate::mc::wire::{
    lemma_be_bytes_split, lemma_be_limits, lemma_varint_groups_bound, spec_be_bytes,
    spec_be_limit, spec_be_value, spec_bool_byte, spec_i16_bits, spec_i16_from_bits,
    spec_i32_bits, spec_i32_from_bits, spec_i64_bits, spec_i64_from_bits, spec_pow128,
    spec_string_bytes, spec_take_be, spec_take_bool, spec_take_i16, spec_take_i32,
    spec_take_i64, spec_take_string, spec_take_u16, spec_take_u32, spec_take_u64, spec_take_u8,
    spec_take_varint, spec_u16_le_bytes, spec_varint, spec_varint_bytes, spec_varint_ends_at,
    spec_varint_groups, spec_varint_len, spec_varint_malformed, DecodeError,
};
use vstd::prelude::*;

verus! {

/// The limits of the widths that fit a 64-bit accumulator.
proof fn lemma_be_limit_table(width: nat)
    requires
        width <= 8,
    ensures
        width == 0 ==> spec_be_limit(width) == 1,
        width == 1 ==> spec_be_limit(width) == 0x100,
        width == 2 ==> spec_be_limit(width) == 0x1_0000,
        width == 3 ==> spec_be_limit(width) == 0x100_0000,
        width == 4 ==> spec_be_limit(width) == 0x1_0000_0000,
        width == 5 ==> spec_be_limit(width) == 0x100_0000_0000,
        width == 6 ==> spec_be_limit(width) == 0x1_0000_0000_0000,
        width == 7 ==> spec_be_limit(width) == 0x100_0000_0000_0000,
        width == 8 ==> spec_be_limit(width) == 0x1_0000_0000_0000_0000,
{
    reveal_with_fuel(spec_be_limit, 9);
}

/// The powers of 128 that a VarInt can reach.
proof fn lemma_pow128_table(k: nat)
    requires
        k <= 5,
    ensures
        k == 0 ==> spec_pow128(k) == 1,
        k == 1 ==> spec_pow128(k) == 0x80,
        k == 2 ==> spec_pow128(k) == 0x4000,
        k == 3 ==> spec_pow128(k) == 0x20_0000,
        k == 4 ==> spec_pow128(k) == 0x1000_0000,
        k == 5 ==> spec_pow128(k) == 0x8_0000_0000,
{
    reveal_with_fuel(spec_pow128, 6);
}

/// The two's complement of `v` as an unsigned number.
pub fn i32_bits(v: i32) -> (n: u32)
    ensures
        n == spec_i32_bits(v),
{
    if v < 0 {
        (v as i64 + 0x1_0000_0000) as u32
    } else {
        v as u32
    }
}

/// The signed value whose two's complement is `n`.
pub fn i32_from_bits(n: u32) -> (v: i32)
    ensures
        v == spec_i32_from_bits(n as nat),
{
    if n >= 0x8000_0000 {
        (n as i64 - 0x1_0000_0000) as i32
    } else {
        n as i32
    }
}

/// The two's complement of `v` as an unsigned number.
pub fn i16_bits(v: i16) -> (n: u16)
    ensures
        n == spec_i16_bits(v),
{
    if v < 0 {
        (v as i32 + 0x1_0000) as u16
    } else {
        v as u16
    }
}

/// The signed value whose two's complement is `n`.
pub fn i16_from_bits(n: u16) -> (v: i16)
    ensures
        v == spec_i16_from_bits(n as nat),
{
    if n >= 0x8000 {
        (n as i32 - 0x1_0000) as i16
    } else {
        n as i16
    }
}

/// The two's complement of `v` as an unsigned number.
pub fn i64_bits(v: i64) -> (n: u64)
    ensures
        n == spec_i64_bits(v),
{
    if v < 0 {
        (v as i128 + 0x1_0000_0000_0000_0000) as u64
    } else {
        v as u64
    }
}

/// The signed value whose two's complement is `n`.
pub fn i64_from_bits(n: u64) -> (v: i64)
    ensures
        v == spec_i64_from_bits(n as nat),
{
    if n >= 0x8000_0000_0000_0000 {
        (n as i128 - 0x1_0000_0000_0000_0000) as i64
    } else {
        n as i64
    }
}

/// Appends the VarInt of `value` to `out`.
pub fn push_varint(out: &mut Vec<u8>, value: i32)
    ensures
        final(out)@ == old(out)@ + spec_varint(value),
{
    let bits: u32 = i32_bits(value);
    let mut n: u32 = bits;
    loop
        invariant_except_break
            old(out)@ + spec_varint_bytes(bits as nat) == out@ + spec_varint_bytes(n as nat),
        ensures
            out@ == old(out)@ + spec_varint_bytes(bits as nat),
        decreases n,
    {
        let ghost before = out@;
        if n < 128 {
            out.push(n as u8);
            assert(out@ =~= before + spec_varint_bytes(n as nat));
            break ;
        }
        out.push((n % 128 + 128) as u8);
        assert(before + spec_varint_bytes(n as nat) =~= out@ + spec_varint_bytes((n / 128) as nat));
        n = n / 128;
    }
}

/// Appends `n` in big-endian, in `width` bytes.
pub fn push_be(out: &mut Vec<u8>, n: u64, width: usize)
    requires
        width <= 8,
    ensures
        final(out)@ == old(out)@ + spec_be_bytes(n as nat, width as nat),
{
    let start: usize = out.len();
    let mut k: usize = 0;
    while k < width
        invariant
            k <= width,
            out@.len() == start + k,
            out@.subrange(0, start as int) == old(out)@,
            start == old(out)@.len(),
        decreases width - k,
    {
        let ghost before = out@;
        out.push(0);
        assert(out@.subrange(0, start as int) =~= before.subrange(0, start as int));
        k = k + 1;
    }
    let total: usize = out.len();
    let mut rem: u64 = n;
    let mut i: usize = width;
    while i > 0
        invariant
            i <= width,
            total == start + width,
            out@.len() == start + width,
            out@.subrange(0, start as int) == old(out)@,
            start == old(out)@.len(),
            spec_be_bytes(n as nat, width as nat) == spec_be_bytes(rem as nat, i as nat)
                + out@.subrange(start + i, start + width),
        decreases i,
    {
        let ghost before = out@;
        let idx: usize = start + (i - 1);
        out[idx] = (rem % 256) as u8;
        proof {
            assert(out@.subrange(0, start as int) =~= before.subrange(0, start as int));
            assert(out@.subrange(start + i - 1, start + width) =~= seq![(rem % 256) as u8]
                + before.subrange(start + i, start + width));
            assert(spec_be_bytes(rem as nat, i as nat) + before.subrange(start + i, start + width)
                =~= spec_be_bytes((rem / 256) as nat, (i - 1) as nat) + out@.subrange(
                start + i - 1,
                start + width,
            ));
        }
        rem = rem / 256;
        i = i - 1;
    }
    assert(out@ =~= old(out)@ + spec_be_bytes(n as nat, width as nat));
}

/// The length of the VarInt that starts at `pos`, if it ends within five
/// bytes and within `bytes`.
pub fn slice_varint_len(bytes: &[u8], pos: usize) -> (len: Option<usize>)
    requires
        pos <= bytes@.len(),
    ensures
        match len {
            Some(k) => spec_varint_len(bytes@.skip(pos as int)) == Some(k as nat) && 1 <= k <= 5 && pos
                + k <= bytes@.len(),
            None => spec_varint_len(bytes@.skip(pos as int)) is None,
        },
{
    let ghost s = bytes@.skip(pos as int);
    let avail: usize = bytes.len() - pos;
    let mut i: usize = 0;
    while i < 5
        invariant
            i <= 5,
            pos + avail <= usize::MAX,
            i <= avail,
            avail == bytes@.len() - pos,
            s == bytes@.skip(pos as int),
            forall|j: int| 0 <= j < i ==> s[j] >= 128,
        decreases 5 - i,
    {
        if i >= avail {
            return None;
        }
        if bytes[pos + i] < 128 {
            assert(spec_varint_ends_at(s, i as int));
            assert(forall|k: int| 0 <= k < i ==> !spec_varint_ends_at(s, k));
            return Some(i + 1);
        }
        i = i + 1;
    }
    None
}

/// Why no VarInt can be taken at `pos`: five bytes in a row carry the
/// continuation bit, or the bytes end too early.
pub fn slice_varint_error(bytes: &[u8], pos: usize) -> (error: DecodeError)
    requires
        pos <= bytes@.len(),
        spec_varint_len(bytes@.skip(pos as int)) is None,
    ensures
        spec_take_varint(bytes@.skip(pos as int)) == Err::<(i32, Seq<u8>), _>(error),
{
    if bytes.len() - pos >= 5 {
        proof {
            let s = bytes@.skip(pos as int);
            if !spec_varint_malformed(s) {
                let j = choose|j: int| 0 <= j < 5 && s[j] < 128;
                lemma_first_terminator(s, j);
            }
        }
        DecodeError::MalformedVarInt
    } else {
        DecodeError::UnexpectedEnd
    }
}

/// The value of the VarInt of `len` bytes that starts at `pos`.
pub fn slice_varint_value(bytes: &[u8], pos: usize, len: usize) -> (v: i32)
    requires
        1 <= len <= 5,
        pos + len <= bytes@.len(),
    ensures
        v == spec_i32_from_bits(spec_varint_groups(bytes@.skip(pos as int), 0, len as int)),
{
    let ghost s = bytes@.skip(pos as int);
    let total: usize = bytes.len();
    let mut acc: u64 = 0;
    let mut i: usize = len;
    while i > 0
        invariant
            i <= len,
            total == bytes@.len(),
            1 <= len <= 5,
            pos + len <= bytes@.len(),
            s == bytes@.skip(pos as int),
            acc == spec_varint_groups(s, i as int, len as int),
        decreases i,
    {
        proof {
            lemma_varint_groups_bound(s, i as int, len as int);
            lemma_pow128_table((len - i) as nat);
        }
        i = i - 1;
        acc = acc * 128 + (bytes[pos + i] % 128) as u64;
    }
    proof {
        lemma_varint_groups_bound(s, 0, len as int);
        lemma_pow128_table(len as nat);
    }
    i32_from_bits((acc % 0x1_0000_0000) as u32)
}

/// The big-endian number that the `width` bytes from `pos` spell.
pub fn slice_be_value(bytes: &[u8], pos: usize, width: usize) -> (v: u64)
    requires
        width <= 8,
        pos + width <= bytes@.len(),
    ensures
        v == spec_be_value(bytes@.subrange(pos as int, pos + width)),
        v < spec_be_limit(width as nat),
{
    let total: usize = bytes.len();
    let mut acc: u64 = 0;
    let mut i: usize = 0;
    assert(bytes@.subrange(pos as int, pos as int).len() == 0);
    while i < width
        invariant
            i <= width,
            total == bytes@.len(),
            width <= 8,
            pos + width <= bytes@.len(),
            acc == spec_be_value(bytes@.subrange(pos as int, pos + i)),
            acc < spec_be_limit(i as nat),
        decreases width - i,
    {
        proof {
            lemma_be_limit_table(i as nat);
            assert(bytes@.subrange(pos as int, pos + i + 1).drop_last() =~= bytes@.subrange(
                pos as int,
                pos + i,
            ));
        }
        acc = acc * 256 + bytes[pos + i] as u64;
        i = i + 1;
    }
    acc
}

/// A growable buffer that the wire's values are appended to.
pub struct WriteBuffer {
    buf: Vec<u8>,
}

impl View for WriteBuffer {
    type V = Seq<u8>;

    closed spec fn view(&self) -> Seq<u8> {
        self.buf@
    }
}

impl WriteBuffer {
    pub fn new() -> (buffer: WriteBuffer)
        ensures
            buffer@ == Seq::<u8>::empty(),
    {
        WriteBuffer { buf: Vec::new() }
    }

    pub fn write_varint(&mut self, value: i32)
        ensures
            final(self)@ == old(self)@ + spec_varint(value),
    {
        push_varint(&mut self.buf, value);
    }

    pub fn write_u8(&mut self, value: u8)
        ensures
            final(self)@ == old(self)@.push(value),
    {
        self.buf.push(value);
    }

    pub fn write_bool(&mut self, value: bool)
        ensures
            final(self)@ == old(self)@.push(spec_bool_byte(value)),
    {
        self.buf.push(
            if value {
                1
            } else {
                0
            },
        );
    }

    pub fn write_u16(&mut self, value: u16)
        ensures
            final(self)@ == old(self)@ + spec_be_bytes(value as nat, 2),
    {
        push_be(&mut self.buf, value as u64, 2);
    }

    pub fn write_u16_le(&mut self, value: u16)
        ensures
            final(self)@ == old(self)@ + spec_u16_le_bytes(value),
    {
        self.buf.push((value % 256) as u8);
        self.buf.push((value / 256) as u8);
        assert(self.buf@ =~= old(self).buf@ + spec_u16_le_bytes(value));
    }

    pub fn write_i16(&mut self, value: i16)
        ensures
            final(self)@ == old(self)@ + spec_be_bytes(spec_i16_bits(value), 2),
    {
        push_be(&mut self.buf, i16_bits(value) as u64, 2);
    }

    pub fn write_u32(&mut self, value: u32)
        ensures
            final(self)@ == old(self)@ + spec_be_bytes(value as nat, 4),
    {
        push_be(&mut self.buf, value as u64, 4);
    }

    pub fn write_i32(&mut self, value: i32)
        ensures
            final(self)@ == old(self)@ + spec_be_bytes(spec_i32_bits(value), 4),
    {
        push_be(&mut self.buf, i32_bits(value) as u64, 4);
    }

    pub fn write_u64(&mut self, value: u64)
        ensures
            final(self)@ == old(self)@ + spec_be_bytes(value as nat, 8),
    {
        push_be(&mut self.buf, value, 8);
    }

    pub fn write_i64(&mut self, value: i64)
        ensures
            final(self)@ == old(self)@ + spec_be_bytes(spec_i64_bits(value), 8),
    {
        push_be(&mut self.buf, i64_bits(value), 8);
    }

    /// Appends a 32-bit float, given as its bits.
    pub fn write_f32(&mut self, bits: u32)
        ensures
            final(self)@ == old(self)@ + spec_be_bytes(bits as nat, 4),
    {
        self.write_u32(bits);
    }

    /// Appends a 64-bit float, given as its bits.
    pub fn write_f64(&mut self, bits: u64)
        ensures
            final(self)@ == old(self)@ + spec_be_bytes(bits as nat, 8),
    {
        self.write_u64(bits);
    }

    pub fn write_u128(&mut self, value: u128)
        ensures
            final(self)@ == old(self)@ + spec_be_bytes(value as nat, 16),
    {
        let high: u64 = (value / 0x1_0000_0000_0000_0000) as u64;
        let low: u64 = (value % 0x1_0000_0000_0000_0000) as u64;
        push_be(&mut self.buf, high, 8);
        push_be(&mut self.buf, low, 8);
        proof {
            lemma_be_limits();
            lemma_be_bytes_split(value as nat, 8, 8);
            assert(self.buf@ =~= old(self).buf@ + (spec_be_bytes(high as nat, 8) + spec_be_bytes(
                low as nat,
                8,
            )));
        }
    }

    /// Appends a string: the VarInt of its length in bytes, then its bytes.
    pub fn write_string(&mut self, value: &str)
        requires
            vstd::utf8::encode_utf8(value@).len() <= i32::MAX,
        ensures
            final(self)@ == old(self)@ + spec_string_bytes(value@),
    {
        let bytes = value.as_bytes();
        push_varint(&mut self.buf, bytes.len() as i32);
        self.buf.extend_from_slice(bytes);
        assert(self.buf@ =~= old(self).buf@ + spec_string_bytes(value@));
    }

    pub fn write_buf(&mut self, other: &WriteBuffer)
        ensures
            final(self)@ == old(self)@ + other@,
    {
        self.buf.extend_from_slice(other.buf.as_slice());
    }

    pub fn write_bytes(&mut self, bytes: &[u8])
        ensures
            final(self)@ == old(self)@ + bytes@,
    {
        self.buf.extend_from_slice(bytes);
    }

    pub fn len(&self) -> (len: usize)
        ensures
            len == self@.len(),
    {
        self.buf.len()
    }

    pub fn data(&self) -> (bytes: &[u8])
        ensures
            bytes@ == self@,
    {
        self.buf.as_slice()
    }

    /// Hands out the bytes written so far.
    pub fn into_vec(self) -> (bytes: Vec<u8>)
        ensures
            bytes@ == self@,
    {
        self.buf
    }
}

/// What a zlib stream inflates to, by the `inflate` crate's reading of it;
/// `None` for bytes that it rejects.
pub uninterp spec fn spec_inflate_zlib(data: Seq<u8>) -> Option<Seq<u8>>;

/// `String::from_utf8` of std: the string that the bytes spell in UTF-8, or
/// nothing where they are no valid UTF-8.
#[verifier::external_body]
pub(crate) fn string_from_utf8(bytes: Vec<u8>) -> (text: Option<String>)
    ensures
        match text {
            Some(s) => vstd::utf8::valid_utf8(bytes@) && s@ == vstd::utf8::decode_utf8(bytes@),
            None => !vstd::utf8::valid_utf8(bytes@),
        },
{
    String::from_utf8(bytes).ok()
}

/// `inflate::inflate_bytes_zlib`: the inflated bytes of a zlib stream, or
/// nothing where the stream is rejected. The result depends on `data` alone.
#[verifier::external_body]
pub(crate) fn inflate_zlib(data: &[u8]) -> (inflated: Option<Vec<u8>>)
    ensures
        match inflated {
            Some(v) => spec_inflate_zlib(data@) == Some(v@),
            None => spec_inflate_zlib(data@) is None,
        },
{
    inflate::inflate_bytes_zlib(data).ok()
}

/// How a read went, against what the bytes hold: on success the value and
/// the bytes left are those the model names; on failure the error is the
/// model's and nothing was consumed.
pub open spec fn spec_took<T>(
    outcome: Result<T, DecodeError>,
    model: Result<(T, Seq<u8>), DecodeError>,
    before: Seq<u8>,
    after: Seq<u8>,
) -> bool {
    match outcome {
        Ok(v) => model == Ok::<_, DecodeError>((v, after)),
        Err(e) => model == Err::<(T, Seq<u8>), _>(e) && after == before,
    }
}

/// How a read of several fields went, against what the bytes hold: on
/// success the value and the bytes left are those the model names; on failure
/// the error is the model's, and how far the reader came is left open.
pub open spec fn spec_parsed<T>(
    outcome: Result<T, DecodeError>,
    model: Result<(T, Seq<u8>), DecodeError>,
    after: Seq<u8>,
) -> bool {
    match outcome {
        Ok(v) => model == Ok::<_, DecodeError>((v, after)),
        Err(e) => model == Err::<(T, Seq<u8>), _>(e),
    }
}

/// As `spec_took`, for a string, which the model holds as its characters.
pub open spec fn spec_took_string(
    outcome: Result<String, DecodeError>,
    model: Result<(Seq<char>, Seq<u8>), DecodeError>,
    before: Seq<u8>,
    after: Seq<u8>,
) -> bool {
    match outcome {
        Ok(v) => model == Ok::<_, DecodeError>((v@, after)),
        Err(e) => model == Err::<(Seq<char>, Seq<u8>), _>(e) && after == before,
    }
}

/// A byte buffer that is read from the front. Its view is what is left to
/// read.
pub struct ReadBuffer {
    buf: Vec<u8>,
    pos: usize,
}

impl View for ReadBuffer {
    type V = Seq<u8>;

    closed spec fn view(&self) -> Seq<u8> {
        self.buf@.skip(self.pos as int)
    }
}

impl ReadBuffer {
    #[verifier::type_invariant]
    spec fn in_range(self) -> bool {
        self.pos <= self.buf@.len()
    }

    pub fn new(vec: Vec<u8>) -> (buffer: ReadBuffer)
        ensures
            buffer@ == vec@,
    {
        assert(vec@.skip(0) =~= vec@);
        ReadBuffer { buf: vec, pos: 0 }
    }

    /// The number of bytes left to read.
    pub fn remaining(&self) -> (len: usize)
        ensures
            len == self@.len(),
    {
        proof {
            use_type_invariant(self);
        }
        self.buf.len() - self.pos
    }

    /// Whether a whole VarInt stands at the front.
    pub fn has_complete_var_int(&self) -> (complete: bool)
        ensures
            complete == spec_varint_len(self@).is_some(),
            complete == spec_take_varint(self@).is_ok(),
    {
        proof {
            use_type_invariant(self);
        }
        slice_varint_len(self.buf.as_slice(), self.pos).is_some()
    }

    /// Takes `width` bytes as a big-endian number, if that many are left.
    pub fn get_be(&mut self, width: usize) -> (outcome: Result<u64, DecodeError>)
        requires
            width <= 8,
        ensures
            match outcome {
                Ok(v) => spec_take_be(old(self)@, width as nat) == Ok::<_, DecodeError>(
                    (v as nat, final(self)@),
                ),
                Err(e) => spec_take_be(old(self)@, width as nat) == Err::<(nat, Seq<u8>), _>(e)
                    && final(self)@ == old(self)@,
            },
            outcome is Ok ==> outcome.unwrap() < spec_be_limit(width as nat),
    {
        proof {
            use_type_invariant(&*self);
        }
        if self.buf.len() - self.pos < width {
            return Err(DecodeError::UnexpectedEnd);
        }
        let v = slice_be_value(self.buf.as_slice(), self.pos, width);
        proof {
            assert(self@.subrange(0, width as int) =~= self.buf@.subrange(
                self.pos as int,
                self.pos + width,
            ));
            assert(self@.skip(width as int) =~= self.buf@.skip(self.pos + width));
        }
        self.pos = self.pos + width;
        Ok(v)
    }

    pub fn get_u8(&mut self) -> (outcome: Result<u8, DecodeError>)
        ensures
            spec_took(outcome, spec_take_u8(old(self)@), old(self)@, final(self)@),
    {
        proof {
            lemma_be_limit_table(1);
        }
        match self.get_be(1) {
            Ok(v) => Ok(v as u8),
            Err(e) => Err(e),
        }
    }

    pub fn get_bool(&mut self) -> (outcome: Result<bool, DecodeError>)
        ensures
            spec_took(outcome, spec_take_bool(old(self)@), old(self)@, final(self)@),
    {
        match self.get_be(1) {
            Ok(v) => Ok(v != 0),
            Err(e) => Err(e),
        }
    }

    pub fn get_u16(&mut self) -> (outcome: Result<u16, DecodeError>)
        ensures
            spec_took(outcome, spec_take_u16(old(self)@), old(self)@, final(self)@),
    {
        proof {
            lemma_be_limit_table(2);
        }
        match self.get_be(2) {
            Ok(v) => Ok(v as u16),
            Err(e) => Err(e),
        }
    }

    pub fn get_i16(&mut self) -> (outcome: Result<i16, DecodeError>)
        ensures
            spec_took(outcome, spec_take_i16(old(self)@), old(self)@, final(self)@),
    {
        proof {
            lemma_be_limit_table(2);
        }
        match self.get_be(2) {
            Ok(v) => Ok(i16_from_bits(v as u16)),
            Err(e) => Err(e),
        }
    }

    pub fn get_u32(&mut self) -> (outcome: Result<u32, DecodeError>)
        ensures
            spec_took(outcome, spec_take_u32(old(self)@), old(self)@, final(self)@),
    {
        proof {
            lemma_be_limit_table(4);
        }
        match self.get_be(4) {
            Ok(v) => Ok(v as u32),
            Err(e) => Err(e),
        }
    }

    pub fn get_i32(&mut self) -> (outcome: Result<i32, DecodeError>)
        ensures
            spec_took(outcome, spec_take_i32(old(self)@), old(self)@, final(self)@),
    {
        proof {
            lemma_be_limit_table(4);
        }
        match self.get_be(4) {
            Ok(v) => Ok(i32_from_bits(v as u32)),
            Err(e) => Err(e),
        }
    }

    pub fn get_u64(&mut self) -> (outcome: Result<u64, DecodeError>)
        ensures
            spec_took(outcome, spec_take_u64(old(self)@), old(self)@, final(self)@),
    {
        self.get_be(8)
    }

    pub fn get_i64(&mut self) -> (outcome: Result<i64, DecodeError>)
        ensures
            spec_took(outcome, spec_take_i64(old(self)@), old(self)@, final(self)@),
    {
        match self.get_be(8) {
            Ok(v) => Ok(i64_from_bits(v)),
            Err(e) => Err(e),
        }
    }

    /// Takes the VarInt at the front.
    pub fn get_var_int(&mut self) -> (outcome: Result<i32, DecodeError>)
        ensures
            spec_took(outcome, spec_take_varint(old(self)@), old(self)@, final(self)@),
    {
        proof {
            use_type_invariant(&*self);
        }
        let total: usize = self.buf.len();
        match slice_varint_len(self.buf.as_slice(), self.pos) {
            Some(len) => {
                let v = slice_varint_value(self.buf.as_slice(), self.pos, len);
                assert(self.pos + len <= total);
                proof {
                    assert(self@.skip(len as int) =~= self.buf@.skip(self.pos + len));
                }
                self.pos = self.pos + len;
                Ok(v)
            },
            None => Err(slice_varint_error(self.buf.as_slice(), self.pos)),
        }
    }

    /// Takes `len` bytes off the front, if that many are left.
    pub fn get_bytes(&mut self, len: usize) -> (outcome: Result<Vec<u8>, DecodeError>)
        ensures
            match outcome {
                Ok(bytes) => len <= old(self)@.len() && bytes@ == old(self)@.subrange(0, len as int)
                    && final(self)@ == old(self)@.skip(len as int),
                Err(e) => e == DecodeError::UnexpectedEnd && len > old(self)@.len() && final(self)@
                    == old(self)@,
            },
    {
        proof {
            use_type_invariant(&*self);
        }
        if self.buf.len() - self.pos < len {
            return Err(DecodeError::UnexpectedEnd);
        }
        let end: usize = self.pos + len;
        let taken = vstd::slice::slice_to_vec(
            vstd::slice::slice_subrange(self.buf.as_slice(), self.pos, end),
        );
        proof {
            assert(taken@ =~= self@.subrange(0, len as int));
            assert(self@.skip(len as int) =~= self.buf@.skip(end as int));
        }
        self.pos = end;
        Ok(taken)
    }

    /// Takes the length-prefixed string at the front.
    pub fn get_string(&mut self) -> (outcome: Result<String, DecodeError>)
        ensures
            spec_took_string(outcome, spec_take_string(old(self)@), old(self)@, final(self)@),
    {
        proof {
            use_type_invariant(&*self);
        }
        let total: usize = self.buf.len();
        let used: usize = match slice_varint_len(self.buf.as_slice(), self.pos) {
            Some(used) => used,
            None => {
                return Err(slice_varint_error(self.buf.as_slice(), self.pos));
            },
        };
        let len: i32 = slice_varint_value(self.buf.as_slice(), self.pos, used);
        let ghost rest = self@.skip(used as int);
        if len < 0 {
            return Err(DecodeError::InvalidLength);
        }
        let start: usize = self.pos + used;
        if total - start < len as usize {
            return Err(DecodeError::UnexpectedEnd);
        }
        let end: usize = start + len as usize;
        let bytes = vstd::slice::slice_to_vec(
            vstd::slice::slice_subrange(self.buf.as_slice(), start, end),
        );
        proof {
            assert(bytes@ =~= rest.subrange(0, len as int));
            assert(rest.skip(len as int) =~= self.buf@.skip(end as int));
        }
        match string_from_utf8(bytes) {
            Some(text) => {
                self.pos = end;
                Ok(text)
            },
            None => Err(DecodeError::InvalidUtf8),
        }
    }

    pub fn read_var_int(&mut self) -> (value: i32)
        requires
            spec_take_varint(old(self)@) is Ok,
        ensures
            spec_take_varint(old(self)@) == Ok::<_, DecodeError>((value, final(self)@)),
    {
        self.get_var_int().unwrap()
    }

    pub fn read_u8(&mut self) -> (value: u8)
        requires
            old(self)@.len() >= 1,
        ensures
            spec_take_u8(old(self)@) == Ok::<_, DecodeError>((value, final(self)@)),
    {
        self.get_u8().unwrap()
    }

    pub fn read_u16(&mut self) -> (value: u16)
        requires
            old(self)@.len() >= 2,
        ensures
            spec_take_u16(old(self)@) == Ok::<_, DecodeError>((value, final(self)@)),
    {
        self.get_u16().unwrap()
    }

    /// Takes two bytes as a little-endian number.
    pub fn read_u16_le(&mut self) -> (value: u16)
        requires
            old(self)@.len() >= 2,
        ensures
            value == old(self)@[0] + 256 * old(self)@[1],
            spec_u16_le_bytes(value) == old(self)@.subrange(0, 2),
            final(self)@ == old(self)@.skip(2),
    {
        proof {
            use_type_invariant(&*self);
        }
        let total: usize = self.buf.len();
        let low: u8 = self.buf[self.pos];
        let high: u8 = self.buf[self.pos + 1];
        proof {
            assert(self@.skip(2) =~= self.buf@.skip(self.pos + 2));
        }
        self.pos = self.pos + 2;
        let value: u16 = low as u16 + 256 * (high as u16);
        assert(spec_u16_le_bytes(value) =~= old(self)@.subrange(0, 2));
        value
    }

    pub fn read_i32(&mut self) -> (value: i32)
        requires
            old(self)@.len() >= 4,
        ensures
            spec_take_i32(old(self)@) == Ok::<_, DecodeError>((value, final(self)@)),
    {
        self.get_i32().unwrap()
    }

    pub fn read_i64(&mut self) -> (value: i64)
        requires
            old(self)@.len() >= 8,
        ensures
            spec_take_i64(old(self)@) == Ok::<_, DecodeError>((value, final(self)@)),
    {
        self.get_i64().unwrap()
    }

    /// Takes a 32-bit float, as its bits.
    pub fn read_f32(&mut self) -> (bits: u32)
        requires
            old(self)@.len() >= 4,
        ensures
            spec_take_u32(old(self)@) == Ok::<_, DecodeError>((bits, final(self)@)),
    {
        self.get_u32().unwrap()
    }

    /// Takes a 64-bit float, as its bits.
    pub fn read_f64(&mut self) -> (bits: u64)
        requires
            old(self)@.len() >= 8,
        ensures
            spec_take_u64(old(self)@) == Ok::<_, DecodeError>((bits, final(self)@)),
    {
        self.get_u64().unwrap()
    }

    pub fn read_string(&mut self) -> (value: String)
        requires
            spec_take_string(old(self)@) is Ok,
        ensures
            spec_take_string(old(self)@) == Ok::<_, DecodeError>((value@, final(self)@)),
    {
        self.get_string().unwrap()
    }

    pub fn read_bool(&mut self) -> (value: bool)
        requires
            old(self)@.len() >= 1,
        ensures
            spec_take_bool(old(self)@) == Ok::<_, DecodeError>((value, final(self)@)),
    {
        self.get_bool().unwrap()
    }

    /// Takes `len` bytes off the front.
    pub fn read_bytes(&mut self, len: usize) -> (bytes: Vec<u8>)
        requires
            len <= old(self)@.len(),
        ensures
            bytes@ == old(self)@.subrange(0, len as int),
            final(self)@ == old(self)@.skip(len as int),
    {
        self.get_bytes(len).unwrap()
    }

    /// Passes over `num` bytes, or over all that is left if that is less.
    pub fn skip(&mut self, num: u64)
        ensures
            final(self)@ == if num <= old(self)@.len() {
                old(self)@.skip(num as int)
            } else {
                Seq::<u8>::empty()
            },
    {
        proof {
            use_type_invariant(&*self);
        }
        let left: usize = self.buf.len() - self.pos;
        if num <= left as u64 {
            proof {
                assert(self@.skip(num as int) =~= self.buf@.skip(self.pos + num));
            }
            self.pos = self.pos + num as usize;
        } else {
            self.pos = self.buf.len();
            assert(self@ =~= Seq::<u8>::empty());
        }
    }

    /// Replaces what is left to read by what it inflates to as a zlib
    /// stream. Reports whether it did; a stream that is rejected leaves the
    /// buffer as it was.
    pub fn decompress(&mut self) -> (inflated: bool)
        ensures
            inflated == spec_inflate_zlib(old(self)@).is_some(),
            inflated ==> final(self)@ == spec_inflate_zlib(old(self)@).unwrap(),
            !inflated ==> final(self)@ == old(self)@,
    {
        proof {
            use_type_invariant(&*self);
        }
        let len: usize = self.buf.len();
        let rest = vstd::slice::slice_subrange(self.buf.as_slice(), self.pos, len);
        assert(rest@ =~= self@);
        match inflate_zlib(rest) {
            Some(out) => {
                assert(out@.skip(0) =~= out@);
                self.pos = 0;
                self.buf = out;
                true
            },
            None => false,
        }
    }
}

/// Where some byte among the first five lacks the continuation bit, a VarInt
/// ends within them.
proof fn lemma_first_terminator(s: Seq<u8>, j: int)
    requires
        0 <= j < 5,
        j < s.len(),
        s[j] < 128,
    ensures
        spec_varint_len(s) is Some,
    decreases j,
{
    if exists|k: int| 0 <= k < j && s[k] < 128 {
        let k = choose|k: int| 0 <= k < j && s[k] < 128;
        lemma_first_terminator(s, k);
    } else {
        assert(spec_varint_ends_at(s, j));
    }
}

} // verus!
