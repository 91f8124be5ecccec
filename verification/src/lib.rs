//! USB audio playback and DSP control, verified with Verus.
//!
//! The library holds the logic of a USB audio class 1.0 speaker firmware and
//! of its DSP control protocol: parsing streamed sample packets, the
//! sample-rate feedback counter and its wire encoding, the decisions of the
//! audio routing loops, the I2S frame layout and the protocol's data model.
pub mod audio;
pub mod board;
pub mod buffers;
pub mod stream;
pub mod feedback;
pub mod protocol;
pub mod host;
pub mod routing;
