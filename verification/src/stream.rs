//! Parsing of the audio packets that the USB host streams to the speaker.
use vstd::prelude::*;
use crate::board::{SAMPLE_SIZE, USB_MAX_PACKET_SIZE, USB_MAX_SAMPLE_COUNT};
use crate::buffers::{SampleBlock, sample_block_samples, new_sample_block, push_sample};

verus! {

/// The unsigned integer whose little-endian bytes are `b0`, `b1`, `b2`, `b3`.
pub open spec fn le_word(b0: u8, b1: u8, b2: u8, b3: u8) -> int {
    b0 + 256 * b1 + 65536 * b2 + 16777216 * b3
}

/// The `i`-th 32 bit little-endian sample of a packet.
pub open spec fn packet_sample(data: Seq<u8>, i: int) -> u32 {
    le_word(
        data[SAMPLE_SIZE * i],
        data[SAMPLE_SIZE * i + 1],
        data[SAMPLE_SIZE * i + 2],
        data[SAMPLE_SIZE * i + 3],
    ) as u32
}

/// The samples of a packet: one per four bytes, in order.
pub open spec fn packet_samples(data: Seq<u8>) -> Seq<u32> {
    Seq::new(data.len() / (SAMPLE_SIZE as nat), |i: int| packet_sample(data, i))
}

/// Why a streamed packet was not turned into samples.
#[derive(Debug, Clone, Copy, PartialEq, Eq, Structural)]
pub enum StreamError {
    /// The packet's size, given here, is not a whole number of samples; the
    /// packet is skipped.
    InvalidBufferSize(usize),
}

/// `u32::from_le_bytes`: the integer whose representation in little-endian
/// byte order is `bytes`.
#[verifier::external_body]
fn u32_from_le_bytes(bytes: [u8; 4]) -> (v: u32)
    ensures
        v as int == le_word(bytes[0], bytes[1], bytes[2], bytes[3]),
{
    u32::from_le_bytes(bytes)
}

/// Turns the bytes of one streamed USB packet into a block of samples.
///
/// A packet is accepted when its size is a whole number of 32 bit samples;
/// each group of four bytes is one little-endian sample.
pub fn parse_sample_block(data: &[u8]) -> (r: Result<SampleBlock, StreamError>)
    requires
        data@.len() <= USB_MAX_PACKET_SIZE,
    ensures
        r is Ok <==> data@.len() % (SAMPLE_SIZE as nat) == 0,
        r matches Ok(block) ==> sample_block_samples(block) == packet_samples(data@),
        r matches Err(e) ==> e == StreamError::InvalidBufferSize(data@.len() as usize),
{
    let data_size = data.len();
    let word_count = data_size / SAMPLE_SIZE;

    if word_count * SAMPLE_SIZE == data_size {
        let mut samples = new_sample_block();

        for w in 0..word_count
            invariant
                word_count == data@.len() / 4,
                data@.len() <= USB_MAX_PACKET_SIZE,
                sample_block_samples(samples) == packet_samples(data@).take(w as int),
        {
            let byte_offset = w * SAMPLE_SIZE;
            let bytes = [data[byte_offset], data[byte_offset + 1], data[byte_offset + 2], data[byte_offset + 3]];
            let sample = u32_from_le_bytes(bytes);
            let pushed = push_sample(&mut samples, sample);
            assert(pushed is Ok);
            assert(packet_samples(data@).take(w + 1) =~= packet_samples(data@).take(w as int).push(sample));
        }
        assert(packet_samples(data@).take(word_count as int) =~= packet_samples(data@));
        Ok(samples)
    } else {
        Err(StreamError::InvalidBufferSize(data_size))
    }
}

} // verus!
