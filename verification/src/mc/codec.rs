//! The framing codec: length-prefixed, optionally compressed frames, read
//! and written under a protocol phase that changes between packets.

use crate::mc::buffer::{
    i32_bits, push_varint, slice_varint_error, slice_varint_len, slice_varint_value,
    string_from_utf8, ReadBuffer, WriteBuffer,
};
use crate::mc::decode::{decode_payload, spec_decode_payload, spec_decoded};
use crate::mc::encode::{encodable, encode_packet, spec_encodable, spec_packet_buffer};
use crate::mc::laws::{lemma_decode_encode, spec_wire_valid};
use crate::mc::proto::{Packet, PacketView, PlayState};
use crate::mc::wire::{
    spec_bool_byte, spec_i32_bits, spec_read_varint, spec_string_bytes, spec_take_bool,
    spec_take_string, spec_take_varint, spec_varint, spec_varint_bytes, spec_varint_len,
    spec_varint_malformed, DecodeError,
};
use crate::mc::zlib::{compress, decompress, spec_zlib_deflate, spec_zlib_inflate};
use bytes::BytesMut;
use std::ops::Deref;
use vstd::prelude::*;

verus! {

/// No payload may be longer than this, in bytes.
pub const PACKET_SIZE_LIMIT: usize = 2 * 1024 * 1024;

/// `bytes::BytesMut`, taken as it is: nothing is known of what is inside
/// but what `spec_bytes_mut` names.
#[verifier::external_type_specification]
#[verifier::external_body]
pub struct ExBytesMut(BytesMut);

/// The bytes that a `BytesMut` holds, first to last.
pub uninterp spec fn spec_bytes_mut(buf: BytesMut) -> Seq<u8>;

/// `BytesMut::len`: the number of bytes held.
pub assume_specification[ BytesMut::len ](buf: &BytesMut) -> (len: usize)
    ensures
        len == spec_bytes_mut(*buf).len(),
;

/// `BytesMut::split_to`: takes the first `at` bytes out into a buffer of
/// their own and keeps the rest. It panics where `at` is beyond the end.
pub assume_specification[ BytesMut::split_to ](buf: &mut BytesMut, at: usize) -> (front: BytesMut)
    requires
        at <= spec_bytes_mut(*old(buf)).len(),
    ensures
        spec_bytes_mut(front) == spec_bytes_mut(*old(buf)).subrange(0, at as int),
        spec_bytes_mut(*final(buf)) == spec_bytes_mut(*old(buf)).skip(at as int),
;

/// `BytesMut::extend_from_slice`: appends the bytes of `extend`.
pub assume_specification[ BytesMut::extend_from_slice ](buf: &mut BytesMut, extend: &[u8])
    ensures
        spec_bytes_mut(*final(buf)) == spec_bytes_mut(*old(buf)) + extend@,
;

/// `Deref` of `BytesMut`: the bytes held, as a slice.
pub assume_specification[ <BytesMut as Deref>::deref ](buf: &BytesMut) -> (bytes: &[u8])
    ensures
        bytes@ == spec_bytes_mut(*buf),
;

/// The wire's variable-length values, read from and written to a byte
/// buffer.
pub trait MinecraftBufExt {
    /// The bytes that the buffer holds.
    spec fn spec_bytes(&self) -> Seq<u8>;

    /// Whether a whole VarInt stands at the front. Nothing is consumed.
    fn has_complete_var_int(&mut self) -> (complete: bool)
        ensures
            complete == spec_varint_len(old(self).spec_bytes()).is_some(),
            final(self).spec_bytes() == old(self).spec_bytes(),
    ;

    fn get_var_int(&mut self) -> (value: i32)
        requires
            spec_take_varint(old(self).spec_bytes()) is Ok,
        ensures
            spec_take_varint(old(self).spec_bytes()) == Ok::<_, DecodeError>(
                (value, final(self).spec_bytes()),
            ),
    ;

    fn get_string(&mut self) -> (value: String)
        requires
            spec_take_string(old(self).spec_bytes()) is Ok,
        ensures
            spec_take_string(old(self).spec_bytes()) == Ok::<_, DecodeError>(
                (value@, final(self).spec_bytes()),
            ),
    ;

    fn get_bool(&mut self) -> (value: bool)
        requires
            old(self).spec_bytes().len() >= 1,
        ensures
            spec_take_bool(old(self).spec_bytes()) == Ok::<_, DecodeError>(
                (value, final(self).spec_bytes()),
            ),
    ;

    fn put_var_int(&mut self, value: i32)
        ensures
            final(self).spec_bytes() == old(self).spec_bytes() + spec_varint(value),
    ;

    fn put_string(&mut self, value: &str)
        requires
            vstd::utf8::encode_utf8(value@).len() <= i32::MAX,
        ensures
            final(self).spec_bytes() == old(self).spec_bytes() + spec_string_bytes(value@),
    ;

    fn put_bool(&mut self, value: bool)
        ensures
            final(self).spec_bytes() == old(self).spec_bytes().push(spec_bool_byte(value)),
    ;
}

impl MinecraftBufExt for BytesMut {
    open spec fn spec_bytes(&self) -> Seq<u8> {
        spec_bytes_mut(*self)
    }

    fn has_complete_var_int(&mut self) -> (complete: bool) {
        let bytes = (&*self).deref();
        assert(bytes@.skip(0) =~= bytes@);
        slice_varint_len(bytes, 0).is_some()
    }

    fn get_var_int(&mut self) -> (value: i32) {
        let bytes = (&*self).deref();
        assert(bytes@.skip(0) =~= bytes@);
        let len = slice_varint_len(bytes, 0).unwrap();
        let value = slice_varint_value(bytes, 0, len);
        let _ = self.split_to(len);
        value
    }

    fn get_string(&mut self) -> (value: String) {
        let len = self.get_var_int();
        let text = self.split_to(len as usize);
        let bytes = vstd::slice::slice_to_vec((&text).deref());
        string_from_utf8(bytes).unwrap()
    }

    fn get_bool(&mut self) -> (value: bool) {
        let bytes = (&*self).deref();
        let byte = bytes[0];
        proof {
            assert(bytes@.subrange(0, 1).drop_last() =~= Seq::<u8>::empty());
            assert(crate::mc::wire::spec_be_value(bytes@.subrange(0, 1)) == byte) by {
                reveal_with_fuel(crate::mc::wire::spec_be_value, 2);
            }
        }
        let _ = self.split_to(1);
        byte != 0
    }

    fn put_var_int(&mut self, value: i32) {
        let mut bytes: Vec<u8> = Vec::new();
        push_varint(&mut bytes, value);
        self.extend_from_slice(bytes.as_slice());
        assert(bytes@ =~= spec_varint(value));
    }

    fn put_string(&mut self, value: &str) {
        let bytes = value.as_bytes();
        self.put_var_int(bytes.len() as i32);
        self.extend_from_slice(bytes);
        assert(spec_bytes_mut(*self) =~= spec_bytes_mut(*old(self)) + spec_string_bytes(value@));
    }

    fn put_bool(&mut self, value: bool) {
        let mut bytes: Vec<u8> = Vec::new();
        bytes.push(
            if value {
                1
            } else {
                0
            },
        );
        self.extend_from_slice(bytes.as_slice());
        assert(spec_bytes_mut(*self) =~= spec_bytes_mut(*old(self)).push(spec_bool_byte(value)));
    }
}

/// Why a packet could not be written.
#[derive(Clone, Copy, Debug, PartialEq, Eq, Structural)]
pub enum EncodeError {
    /// The payload would be above the packet size limit, or a string or list
    /// in the packet is too long for the wire's length fields.
    PacketTooLarge,
    /// The compressor reported a failure.
    CompressionFailed,
}

/// How far the decoder has come with the frame at the front of its input.
#[derive(Clone, Copy, Debug, PartialEq, Eq, Structural)]
pub enum DecoderState {
    /// The length prefix is still to be read.
    Header,
    /// The length prefix said this many bytes; the payload is awaited.
    Body(usize),
}

/// What one call of the decoder comes to.
pub struct DecodeStep {
    /// The packet, no packet, or the error.
    pub outcome: Result<Option<PacketView>, DecodeError>,
    /// The decoder's progress after the call.
    pub progress: DecoderState,
    /// The input that is left after the call.
    pub rest: Seq<u8>,
}

/// What a payload means under a compression threshold: with compression
/// switched on it starts with the inflated size as a VarInt, and what follows
/// is a zlib stream if that size is above zero.
pub open spec fn spec_decode_packed(threshold: usize, phase: PlayState, payload: Seq<u8>) -> Result<
    Option<PacketView>,
    DecodeError,
> {
    if threshold > 0 {
        match spec_take_varint(payload) {
            Err(e) => Err(e),
            Ok((size, rest)) => if size > 0 {
                match spec_zlib_inflate(rest) {
                    Some(data) => spec_decode_payload(phase, data),
                    None => Err(DecodeError::InvalidCompression),
                }
            } else {
                spec_decode_payload(phase, rest)
            },
        }
    } else {
        spec_decode_payload(phase, payload)
    }
}

/// What the decoder does once it knows the payload's length: it waits until
/// that many bytes are there, then takes them and decodes them.
pub open spec fn spec_decode_frame(
    threshold: usize,
    phase: PlayState,
    len: usize,
    src: Seq<u8>,
) -> DecodeStep {
    if src.len() < len {
        DecodeStep { outcome: Ok(None), progress: DecoderState::Body(len), rest: src }
    } else {
        DecodeStep {
            outcome: spec_decode_packed(threshold, phase, src.subrange(0, len as int)),
            progress: DecoderState::Header,
            rest: src.skip(len as int),
        }
    }
}

/// What one call of the decoder does.
///
/// Waiting for a length prefix, it asks for more input until a whole VarInt
/// is there, fails where none can come any more, and fails where the length
/// is above the limit. A length is read as an unsigned number.
pub open spec fn spec_decode_step(
    threshold: usize,
    phase: PlayState,
    progress: DecoderState,
    src: Seq<u8>,
) -> DecodeStep {
    match progress {
        DecoderState::Header => match spec_read_varint(src) {
            None => DecodeStep {
                outcome: if spec_varint_malformed(src) {
                    Err(DecodeError::MalformedVarInt)
                } else {
                    Ok(None)
                },
                progress: DecoderState::Header,
                rest: src,
            },
            Some((len, used)) => if spec_i32_bits(len) > PACKET_SIZE_LIMIT {
                DecodeStep {
                    outcome: Err(DecodeError::PacketTooLarge),
                    progress: DecoderState::Header,
                    rest: src.skip(used as int),
                }
            } else {
                spec_decode_frame(threshold, phase, spec_i32_bits(len) as usize, src.skip(used as int))
            },
        },
        DecoderState::Body(len) => spec_decode_frame(threshold, phase, len, src),
    }
}

/// The frame of a packet buffer. `deflated` is what the compressor made of
/// the buffer, if it made anything.
///
/// Without compression the frame is the buffer behind its length. With
/// compression a buffer up to the threshold goes out behind a zero, and a
/// longer one goes out deflated behind its own length; the length prefix
/// then counts that marker too. A payload above the limit is refused.
pub open spec fn spec_frame(threshold: usize, buffer: Seq<u8>, deflated: Option<Seq<u8>>) -> Result<
    Seq<u8>,
    EncodeError,
> {
    if buffer.len() > PACKET_SIZE_LIMIT {
        Err(EncodeError::PacketTooLarge)
    } else if threshold == 0 {
        Ok(spec_varint_bytes(buffer.len()) + buffer)
    } else if buffer.len() <= threshold {
        if buffer.len() + 1 > PACKET_SIZE_LIMIT {
            Err(EncodeError::PacketTooLarge)
        } else {
            Ok(spec_varint_bytes(buffer.len() + 1) + spec_varint_bytes(0) + buffer)
        }
    } else {
        match deflated {
            None => Err(EncodeError::CompressionFailed),
            Some(stream) => if spec_varint_bytes(buffer.len()).len() + stream.len()
                > PACKET_SIZE_LIMIT {
                Err(EncodeError::PacketTooLarge)
            } else {
                Ok(
                    spec_varint_bytes(spec_varint_bytes(buffer.len()).len() + stream.len())
                        + spec_varint_bytes(buffer.len()) + stream,
                )
            },
        }
    }
}

/// Whether framing `buffer` under `threshold` calls for the compressor.
pub open spec fn spec_needs_deflate(threshold: usize, buffer: Seq<u8>) -> bool {
    buffer.len() <= PACKET_SIZE_LIMIT && threshold > 0 && buffer.len() > threshold
}

/// How the encoding of a packet went, against the frame model.
///
/// A packet that cannot be written fails as too large. Where the compressor
/// is not needed, the outcome is the model's. Where it is needed, either it
/// failed, or the outcome is the model's for the stream that the buffer
/// deflates to, and that stream inflates to the buffer again.
pub open spec fn spec_encoded(
    threshold: usize,
    p: PacketView,
    outcome: Result<Seq<u8>, EncodeError>,
) -> bool {
    let buffer = spec_packet_buffer(p);
    if !spec_encodable(p) {
        outcome == Err::<Seq<u8>, _>(EncodeError::PacketTooLarge)
    } else if !spec_needs_deflate(threshold, buffer) {
        outcome == spec_frame(threshold, buffer, None)
    } else {
        ||| outcome == Err::<Seq<u8>, _>(EncodeError::CompressionFailed)
        ||| spec_zlib_inflate(spec_zlib_deflate(buffer)) == Some(buffer) && outcome == spec_frame(
            threshold,
            buffer,
            Some(spec_zlib_deflate(buffer)),
        )
    }
}

/// The bytes of a vector that may be absent.
pub open spec fn spec_opt_bytes(v: Option<Vec<u8>>) -> Option<Seq<u8>> {
    match v {
        Some(v) => Some(v@),
        None => None,
    }
}

/// Frames a packet buffer. `deflated` is what the compressor made of the
/// buffer; it is looked at only where the buffer is longer than the
/// threshold.
pub fn frame_packet(threshold: usize, buffer: &[u8], deflated: Option<Vec<u8>>) -> (outcome: Result<
    Vec<u8>,
    EncodeError,
>)
    ensures
        match outcome {
            Ok(frame) => spec_frame(threshold, buffer@, spec_opt_bytes(deflated)) == Ok::<
                _,
                EncodeError,
            >(frame@),
            Err(e) => spec_frame(threshold, buffer@, spec_opt_bytes(deflated)) == Err::<Seq<u8>, _>(
                e,
            ),
        },
{
    let len: usize = buffer.len();
    if len > PACKET_SIZE_LIMIT {
        return Err(EncodeError::PacketTooLarge);
    }
    let mut frame: Vec<u8> = Vec::new();
    if threshold == 0 {
        push_varint(&mut frame, len as i32);
        frame.extend_from_slice(buffer);
        assert(frame@ =~= spec_varint_bytes(len as nat) + buffer@);
        Ok(frame)
    } else if len <= threshold {
        if len + 1 > PACKET_SIZE_LIMIT {
            return Err(EncodeError::PacketTooLarge);
        }
        push_varint(&mut frame, (len + 1) as i32);
        push_varint(&mut frame, 0);
        frame.extend_from_slice(buffer);
        assert(frame@ =~= spec_varint_bytes((len + 1) as nat) + spec_varint_bytes(0) + buffer@);
        Ok(frame)
    } else {
        match deflated {
            None => Err(EncodeError::CompressionFailed),
            Some(stream) => {
                let mut size: Vec<u8> = Vec::new();
                push_varint(&mut size, len as i32);
                assert(size@ =~= spec_varint_bytes(len as nat));
                proof {
                    crate::mc::wire::lemma_varint_bytes_shape(len as nat);
                }
                if stream.len() > PACKET_SIZE_LIMIT || size.len() + stream.len()
                    > PACKET_SIZE_LIMIT {
                    return Err(EncodeError::PacketTooLarge);
                }
                push_varint(&mut frame, (size.len() + stream.len()) as i32);
                frame.extend_from_slice(size.as_slice());
                frame.extend_from_slice(stream.as_slice());
                assert(frame@ =~= spec_varint_bytes((size@.len() + stream@.len()) as nat)
                    + spec_varint_bytes(len as nat) + stream@);
                Ok(frame)
            },
        }
    }
}

/// The framing codec of one connection.
pub struct MinecraftCodec {
    compression_threshold: usize,
    current_state: PlayState,
    decoder_state: DecoderState,
}

impl MinecraftCodec {
    /// The compression threshold; zero switches compression off.
    pub closed spec fn spec_threshold(&self) -> usize {
        self.compression_threshold
    }

    /// The protocol phase.
    pub closed spec fn spec_phase(&self) -> PlayState {
        self.current_state
    }

    /// The decoder's progress.
    pub closed spec fn spec_progress(&self) -> DecoderState {
        self.decoder_state
    }

    /// The codec with its phase set to `next_state`.
    pub closed spec fn spec_change_state(self, next_state: PlayState) -> MinecraftCodec {
        MinecraftCodec { current_state: next_state, ..self }
    }

    /// The codec with its compression threshold set.
    pub closed spec fn spec_change_compression_threshold(self, threshold: usize) -> MinecraftCodec {
        MinecraftCodec { compression_threshold: threshold, ..self }
    }

    /// Setting the phase twice to one value is setting it once, and so for
    /// the compression threshold.
    pub proof fn lemma_mutators_idempotent(self, next_state: PlayState, threshold: usize)
        ensures
            self.spec_change_state(next_state).spec_change_state(next_state)
                == self.spec_change_state(next_state),
            self.spec_change_compression_threshold(threshold).spec_change_compression_threshold(
                threshold,
            ) == self.spec_change_compression_threshold(threshold),
    {
    }

    /// What the mutators change and what they leave.
    pub proof fn lemma_mutators(self, next_state: PlayState, threshold: usize)
        ensures
            self.spec_change_state(next_state).spec_phase() == next_state,
            self.spec_change_state(next_state).spec_threshold() == self.spec_threshold(),
            self.spec_change_state(next_state).spec_progress() == self.spec_progress(),
            self.spec_change_compression_threshold(threshold).spec_threshold() == threshold,
            self.spec_change_compression_threshold(threshold).spec_phase() == self.spec_phase(),
            self.spec_change_compression_threshold(threshold).spec_progress()
                == self.spec_progress(),
    {
    }

    /// A codec in the handshake phase, without compression, at a frame's
    /// start.
    pub fn new() -> (codec: MinecraftCodec)
        ensures
            codec.spec_threshold() == 0,
            codec.spec_phase() == PlayState::Handshake,
            codec.spec_progress() == DecoderState::Header,
    {
        MinecraftCodec {
            compression_threshold: 0,
            current_state: PlayState::Handshake,
            decoder_state: DecoderState::Header,
        }
    }

    /// Sets the protocol phase. It holds from the next packet on; input that
    /// is buffered stays as it is.
    pub fn change_state(&mut self, next_state: PlayState)
        ensures
            *final(self) == old(self).spec_change_state(next_state),
            final(self).spec_phase() == next_state,
            final(self).spec_threshold() == old(self).spec_threshold(),
            final(self).spec_progress() == old(self).spec_progress(),
    {
        self.current_state = next_state;
    }

    /// Sets the compression threshold. It holds from the next packet on;
    /// input that is buffered stays as it is.
    pub fn change_compression_threshold(&mut self, compression_threshold: usize)
        ensures
            *final(self) == old(self).spec_change_compression_threshold(compression_threshold),
            final(self).spec_threshold() == compression_threshold,
            final(self).spec_phase() == old(self).spec_phase(),
            final(self).spec_progress() == old(self).spec_progress(),
    {
        self.compression_threshold = compression_threshold;
    }

    pub fn compression_threshold(&self) -> (threshold: usize)
        ensures
            threshold == self.spec_threshold(),
    {
        self.compression_threshold
    }

    pub fn current_state(&self) -> (phase: PlayState)
        ensures
            phase == self.spec_phase(),
    {
        self.current_state
    }

    pub fn decoder_state(&self) -> (progress: DecoderState)
        ensures
            progress == self.spec_progress(),
    {
        self.decoder_state
    }

    /// Decodes a payload under the codec's threshold and phase.
    pub fn decode_packed(&self, payload: Vec<u8>) -> (outcome: Result<Option<Packet>, DecodeError>)
        ensures
            spec_decoded(
                outcome,
                spec_decode_packed(self.spec_threshold(), self.spec_phase(), payload@),
            ),
    {
        if self.compression_threshold > 0 {
            let mut buf = ReadBuffer::new(payload);
            let size_uncompressed = buf.get_var_int()?;
            let ghost after_size = buf@;
            let left = buf.remaining();
            let rest = buf.read_bytes(left);
            assert(rest@ =~= after_size);
            if size_uncompressed > 0 {
                match decompress(rest.as_slice()) {
                    Some(data) => decode_payload(self.current_state, data),
                    None => Err(DecodeError::InvalidCompression),
                }
            } else {
                decode_payload(self.current_state, rest)
            }
        } else {
            decode_payload(self.current_state, payload)
        }
    }

    fn decode_frame(&mut self, src: &mut BytesMut, len: usize) -> (outcome: Result<
        Option<Packet>,
        DecodeError,
    >)
        ensures
            final(self).spec_threshold() == old(self).spec_threshold(),
            final(self).spec_phase() == old(self).spec_phase(),
            ({
                let step = spec_decode_frame(
                    old(self).spec_threshold(),
                    old(self).spec_phase(),
                    len,
                    spec_bytes_mut(*old(src)),
                );
                &&& spec_decoded(outcome, step.outcome)
                &&& final(self).spec_progress() == step.progress
                &&& spec_bytes_mut(*final(src)) == step.rest
            }),
    {
        if src.len() < len {
            self.decoder_state = DecoderState::Body(len);
            return Ok(None);
        }
        self.decoder_state = DecoderState::Header;
        let payload = src.split_to(len);
        let bytes = vstd::slice::slice_to_vec((&payload).deref());
        self.decode_packed(bytes)
    }

    /// Takes the next packet off the front of `src`, if a whole frame is
    /// there.
    ///
    /// `Ok(None)` comes back while the frame is incomplete, with nothing
    /// consumed but a length prefix that was there in full, and also for a
    /// frame whose opcode the phase does not define, which is consumed.
    pub fn decode(&mut self, src: &mut BytesMut) -> (outcome: Result<Option<Packet>, DecodeError>)
        ensures
            final(self).spec_threshold() == old(self).spec_threshold(),
            final(self).spec_phase() == old(self).spec_phase(),
            ({
                let step = spec_decode_step(
                    old(self).spec_threshold(),
                    old(self).spec_phase(),
                    old(self).spec_progress(),
                    spec_bytes_mut(*old(src)),
                );
                &&& spec_decoded(outcome, step.outcome)
                &&& final(self).spec_progress() == step.progress
                &&& spec_bytes_mut(*final(src)) == step.rest
            }),
    {
        match self.decoder_state {
            DecoderState::Header => {
                if !src.has_complete_var_int() {
                    let bytes = (&*src).deref();
                    assert(bytes@.skip(0) =~= bytes@);
                    return match slice_varint_error(bytes, 0) {
                        DecodeError::MalformedVarInt => Err(DecodeError::MalformedVarInt),
                        _ => Ok(None),
                    };
                }
                let packet_len: u32 = i32_bits(src.get_var_int());
                if packet_len as usize > PACKET_SIZE_LIMIT {
                    return Err(DecodeError::PacketTooLarge);
                }
                self.decode_frame(src, packet_len as usize)
            },
            DecoderState::Body(packet_len) => self.decode_frame(src, packet_len),
        }
    }

    /// The frame of `item` under the codec's threshold.
    ///
    /// Fails as too large where the packet cannot be written or its payload
    /// would be above the limit. Where the packet buffer is longer than the
    /// threshold the compressor is called, and may fail.
    ///
    /// The frame of a packet from the client that reads back as written
    /// decodes to the packet: see `spec_wire_valid`.
    pub fn encode_frame(&self, item: &Packet) -> (outcome: Result<Vec<u8>, EncodeError>)
        ensures
            spec_encoded(
                self.spec_threshold(),
                item@,
                match outcome {
                    Ok(frame) => Ok(frame@),
                    Err(e) => Err(e),
                },
            ),
            outcome is Ok && item@.serverbound() && spec_wire_valid(item@) ==> forall|
                rest: Seq<u8>,
            |
                #[trigger] spec_decode_step(
                    self.spec_threshold(),
                    item@.phase(),
                    DecoderState::Header,
                    outcome.unwrap()@ + rest,
                ) == (DecodeStep {
                    outcome: Ok::<_, DecodeError>(Some(item@)),
                    progress: DecoderState::Header,
                    rest,
                }),
    {
        if !encodable(item) {
            return Err(EncodeError::PacketTooLarge);
        }
        let mut packet_buf = WriteBuffer::new();
        packet_buf.write_varint(item.id());
        encode_packet(item, &mut packet_buf);
        assert(packet_buf@ =~= spec_packet_buffer(item@));
        let len = packet_buf.len();
        let deflated = if len <= PACKET_SIZE_LIMIT && self.compression_threshold > 0 && len
            > self.compression_threshold {
            compress(packet_buf.data())
        } else {
            None
        };
        let ghost stream = spec_opt_bytes(deflated);
        let outcome = frame_packet(self.compression_threshold, packet_buf.data(), deflated);
        proof {
            if outcome is Ok && item@.serverbound() && spec_wire_valid(item@) {
                assert forall|rest: Seq<u8>|
                    #[trigger] spec_decode_step(
                        self.spec_threshold(),
                        item@.phase(),
                        DecoderState::Header,
                        outcome.unwrap()@ + rest,
                    ) == (DecodeStep {
                        outcome: Ok::<_, DecodeError>(Some(item@)),
                        progress: DecoderState::Header,
                        rest,
                    }) by {
                    lemma_decode_encode(self.spec_threshold(), item@, stream, rest);
                }
            }
        }
        outcome
    }

    /// Appends the frame of `item` to `dst`. On failure `dst` stays as it
    /// was.
    pub fn encode(&mut self, item: Packet, dst: &mut BytesMut) -> (outcome: Result<(), EncodeError>)
        ensures
            final(self).spec_threshold() == old(self).spec_threshold(),
            final(self).spec_phase() == old(self).spec_phase(),
            final(self).spec_progress() == old(self).spec_progress(),
            match outcome {
                Ok(_) => {
                    let frame = spec_bytes_mut(*final(dst)).skip(
                        spec_bytes_mut(*old(dst)).len() as int,
                    );
                    &&& spec_bytes_mut(*final(dst)) == spec_bytes_mut(*old(dst)) + frame
                    &&& spec_encoded(old(self).spec_threshold(), item@, Ok(frame))
                },
                Err(e) => {
                    &&& spec_bytes_mut(*final(dst)) == spec_bytes_mut(*old(dst))
                    &&& spec_encoded(old(self).spec_threshold(), item@, Err(e))
                },
            },
    {
        match self.encode_frame(&item) {
            Ok(frame) => {
                dst.extend_from_slice(frame.as_slice());
                assert(spec_bytes_mut(*dst).skip(spec_bytes_mut(*old(dst)).len() as int)
                    =~= frame@);
                Ok(())
            },
            Err(e) => Err(e),
        }
    }
}

} // verus!
