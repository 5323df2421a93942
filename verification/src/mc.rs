//! The wire protocol: primitive encodings, the packet catalog and the
//! framing codec.

pub mod buffer;
pub mod codec;
pub mod decode;
pub mod encode;
pub mod laws;
pub mod proto;
pub mod wire;
pub mod zlib;

use crate::mc::buffer::{i32_bits, slice_varint_error, slice_varint_len, slice_varint_value};
use crate::mc::wire::{
    lemma_varint_bytes_shape, spec_i32_bits, spec_take_varint, spec_varint, DecodeError,
};
use vstd::prelude::*;

verus! {

/// Reads the VarInt at the front of `source`: its value and the number of
/// bytes it takes.
pub fn read_var_int(source: &[u8]) -> (outcome: Result<(i32, usize), DecodeError>)
    ensures
        match outcome {
            Ok((value, used)) => used <= source@.len() && spec_take_varint(source@) == Ok::<
                _,
                DecodeError,
            >((value, source@.skip(used as int))),
            Err(e) => spec_take_varint(source@) == Err::<(i32, Seq<u8>), _>(e),
        },
{
    assert(source@.skip(0) =~= source@);
    match slice_varint_len(source, 0) {
        Some(len) => Ok((slice_varint_value(source, 0, len), len)),
        None => Err(slice_varint_error(source, 0)),
    }
}

/// The number of bytes that the VarInt of `value` takes.
pub fn calc_varint_size(value: i32) -> (size: usize)
    ensures
        size == spec_varint(value).len(),
        1 <= size <= 5,
{
    let bits: u32 = i32_bits(value);
    proof {
        lemma_varint_bytes_shape(spec_i32_bits(value));
    }
    if bits < 0x80 {
        1
    } else if bits < 0x4000 {
        2
    } else if bits < 0x20_0000 {
        3
    } else if bits < 0x1000_0000 {
        4
    } else {
        5
    }
}

/// The place of block (`x`, `y`, `z`) in a y-major, then z, then x layout of
/// rows of sixteen.
pub fn block_pos_to_idx(x: u32, y: u32, z: u32) -> (idx: u32)
    requires
        (y * 16 + z) * 16 + x <= u32::MAX,
    ensures
        idx == (y * 16 + z) * 16 + x,
{
    (y * 16 + z) * 16 + x
}

} // verus!
