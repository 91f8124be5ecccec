//! Board constants of the USB audio speaker and the I2S frame layout.
use vstd::prelude::*;

verus! {

/// The number of sample blocks that exist in the USB-to-I2S channel.
pub const SAMPLE_BLOCK_COUNT: usize = 2;

/// Stereo playback.
pub const CHANNEL_COUNT: usize = 2;

/// The fixed sample rate of the audio stream.
pub const SAMPLE_RATE_HZ: u32 = 48_000;

/// The tick rate of the timer that measures USB start-of-frame periods.
pub const FEEDBACK_COUNTER_TICK_RATE: u32 = 24_576_000;

/// Bytes per sample: the stream uses 32 bit samples, which allow for a lot of
/// software volume adjustment without degradation of quality.
pub const SAMPLE_SIZE: usize = 4;

/// Bits per sample.
pub const SAMPLE_WIDTH_BIT: usize = 8 * SAMPLE_SIZE;

/// Audio bytes per second of the stream.
pub const SAMPLE_SIZE_PER_S: usize = (SAMPLE_RATE_HZ as usize) * CHANNEL_COUNT * SAMPLE_SIZE;

/// Audio bytes per 1 ms full-speed USB frame, rounded up.
pub const USB_FRAME_SIZE: usize = (SAMPLE_SIZE_PER_S + 999) / 1000;

/// The largest packet the host may send: one frame plus a margin of eight
/// stereo samples for the rate feedback.
pub const USB_MAX_PACKET_SIZE: usize = 8 * CHANNEL_COUNT * SAMPLE_SIZE + USB_FRAME_SIZE;

/// The most samples one USB packet can carry.
pub const USB_MAX_SAMPLE_COUNT: usize = USB_MAX_PACKET_SIZE / SAMPLE_SIZE;

/// Feedback is provided in 10.14 format for full-speed endpoints.
pub const FEEDBACK_SHIFT: usize = 14;

/// Signals the LED to blink.
#[derive(Debug, Clone, Copy, PartialEq, Eq, Structural)]
pub enum Blink {
    Red,
    Yellow,
    Green,
}

} // verus!

verus! {

/// The frame layout of the serial audio interface in I2S-compatible mode.
#[derive(Debug, Clone, Copy, PartialEq, Eq, Structural)]
pub struct SaiFrameLayout {
    /// Slots per frame: one per channel.
    pub slot_count: u8,
    /// Bit clocks for which frame sync is active: one slot, as in I2S.
    pub frame_sync_active_level_length: u8,
    /// Bit clocks per frame: every channel's sample.
    pub frame_length: u8,
}

/// The I2S frame layout for `channel_count` channels of `sample_width_bit`
/// bit samples. The slot count is a 4 bit field and the frame sync length a
/// 7 bit field of the interface, the frame length an 8 bit one.
pub fn i2s_frame_layout(channel_count: usize, sample_width_bit: usize) -> (layout: SaiFrameLayout)
    requires
        channel_count < 16,
        sample_width_bit < 128,
        channel_count * sample_width_bit < 256,
    ensures
        layout.slot_count == channel_count,
        layout.frame_sync_active_level_length == sample_width_bit,
        layout.frame_length == channel_count * sample_width_bit,
{
    SaiFrameLayout {
        slot_count: channel_count as u8,
        frame_sync_active_level_length: sample_width_bit as u8,
        frame_length: (channel_count * sample_width_bit) as u8,
    }
}

/// The layout of the board's stereo stream of 32 bit samples.
pub fn board_frame_layout() -> (layout: SaiFrameLayout)
    ensures
        layout.slot_count == 2,
        layout.frame_sync_active_level_length == 32,
        layout.frame_length == 64,
{
    i2s_frame_layout(CHANNEL_COUNT, SAMPLE_WIDTH_BIT)
}

} // verus!
