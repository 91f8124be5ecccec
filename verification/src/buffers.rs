//! Fixed-capacity buffers of the `heapless` crate, as the firmware uses them.
//!
//! `heapless::Vec` is held opaque; what a vector holds is named by a spec
//! function per instantiation, and the methods the library calls are wrappers
//! whose contracts restate what `heapless` 0.8 does.
use vstd::prelude::*;
use crate::board::USB_MAX_SAMPLE_COUNT;

verus! {

#[verifier::external_type_specification]
#[verifier::external_body]
#[verifier::reject_recursive_types(T)]
pub struct ExHeaplessVec<T, const N: usize>(heapless::Vec<T, N>);

/// The capacity of a feedback packet buffer.
pub const FEEDBACK_PACKET_CAPACITY: usize = 4;

/// The block of samples that one USB packet carries to the I2S output.
pub type SampleBlock = heapless::Vec<u32, USB_MAX_SAMPLE_COUNT>;

/// The buffer that a feedback value is written to before it is sent.
pub type FeedbackPacket = heapless::Vec<u8, FEEDBACK_PACKET_CAPACITY>;

/// The samples that a sample block holds, in order.
pub uninterp spec fn sample_block_samples(block: heapless::Vec<u32, USB_MAX_SAMPLE_COUNT>) -> Seq<u32>;

/// The bytes that a feedback packet buffer holds, in order.
pub uninterp spec fn feedback_packet_bytes(packet: heapless::Vec<u8, FEEDBACK_PACKET_CAPACITY>) -> Seq<u8>;

/// `heapless::Vec::new`: a vector that holds nothing.
#[verifier::external_body]
pub(crate) fn new_sample_block() -> (block: SampleBlock)
    ensures
        sample_block_samples(block) == Seq::<u32>::empty(),
{
    heapless::Vec::new()
}

/// `heapless::Vec::push`: appends the sample while the block holds fewer than
/// its capacity, and otherwise hands the sample back and changes nothing.
#[verifier::external_body]
pub(crate) fn push_sample(block: &mut SampleBlock, sample: u32) -> (r: Result<(), u32>)
    ensures
        sample_block_samples(*old(block)).len() < USB_MAX_SAMPLE_COUNT ==> {
            &&& r == Ok::<(), u32>(())
            &&& sample_block_samples(*final(block)) == sample_block_samples(*old(block)).push(sample)
        },
        sample_block_samples(*old(block)).len() >= USB_MAX_SAMPLE_COUNT ==> {
            &&& r == Err::<(), u32>(sample)
            &&& sample_block_samples(*final(block)) == sample_block_samples(*old(block))
        },
{
    block.push(sample)
}

/// `heapless::Vec::clear`: afterwards the packet holds nothing.
#[verifier::external_body]
pub(crate) fn clear_packet(packet: &mut FeedbackPacket)
    ensures
        feedback_packet_bytes(*final(packet)) == Seq::<u8>::empty(),
{
    packet.clear()
}

/// `heapless::Vec::push`: appends the byte while the packet holds fewer than
/// its capacity, and otherwise hands the byte back and changes nothing.
#[verifier::external_body]
pub(crate) fn push_packet_byte(packet: &mut FeedbackPacket, byte: u8) -> (r: Result<(), u8>)
    ensures
        feedback_packet_bytes(*old(packet)).len() < FEEDBACK_PACKET_CAPACITY ==> {
            &&& r == Ok::<(), u8>(())
            &&& feedback_packet_bytes(*final(packet)) == feedback_packet_bytes(*old(packet)).push(byte)
        },
        feedback_packet_bytes(*old(packet)).len() >= FEEDBACK_PACKET_CAPACITY ==> {
            &&& r == Err::<(), u8>(byte)
            &&& feedback_packet_bytes(*final(packet)) == feedback_packet_bytes(*old(packet))
        },
{
    packet.push(byte)
}

} // verus!
