//! Errors and audio source kinds shared by the firmware.
use vstd::prelude::*;

verus! {

/// Errors that can occur during audio processing or device control.
#[derive(Debug, Clone, Copy, PartialEq, Eq, Structural)]
pub enum AudioError {
    /// I2C communication error with device.
    I2cError,
    /// Buffer overflow in audio processing.
    BufferOverflow,
    /// Invalid sample rate requested.
    InvalidSampleRate,
    /// Invalid configuration provided.
    InvalidConfiguration,
    /// Device initialization failed.
    InitializationFailed,
}

/// The human readable description of each error.
pub open spec fn audio_error_message(e: AudioError) -> Seq<char> {
    match e {
        AudioError::I2cError => "I2C communication error"@,
        AudioError::BufferOverflow => "Audio buffer overflow"@,
        AudioError::InvalidSampleRate => "Invalid sample rate"@,
        AudioError::InvalidConfiguration => "Invalid configuration"@,
        AudioError::InitializationFailed => "Device initialization failed"@,
    }
}

impl AudioError {
    /// The message that describes this error.
    pub fn message(&self) -> (msg: &'static str)
        ensures
            msg@ == audio_error_message(*self),
    {
        match self {
            AudioError::I2cError => "I2C communication error",
            AudioError::BufferOverflow => "Audio buffer overflow",
            AudioError::InvalidSampleRate => "Invalid sample rate",
            AudioError::InvalidConfiguration => "Invalid configuration",
            AudioError::InitializationFailed => "Device initialization failed",
        }
    }
}

/// Audio source type enumeration.
#[derive(Debug, Clone, Copy, PartialEq, Eq, Structural)]
pub enum AudioSource {
    /// No active source.
    NoSource,
    /// USB audio input.
    Usb,
    /// S/PDIF input.
    Spdif,
    /// External input.
    Ext,
    /// Raspberry Pi input.
    Rpi,
}

} // verus!
