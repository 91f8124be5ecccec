//! The data model of the DSP control protocol between the host GUI and the
//! device: filter settings per channel, and device information.
//!
//! Floating-point settings are carried as their IEEE 754 single-precision bit
//! patterns (`f32::to_bits`), so that the model holds them exactly.
use vstd::prelude::*;

verus! {

/// The kind of a biquad filter stage.
#[derive(Debug, Clone, Copy, PartialEq, Eq, PartialOrd, Structural)]
pub enum Variant {
    Peak,
    LowPass,
    HighPass,
    LowShelf,
    HighShelf,
    AllPass,
}

/// The display name of a filter kind.
pub open spec fn variant_name(variant: Variant) -> &'static str {
    match variant {
        Variant::Peak => "Peak",
        Variant::LowPass => "Low pass",
        Variant::HighPass => "High pass",
        Variant::LowShelf => "Low shelf",
        Variant::HighShelf => "High shelf",
        Variant::AllPass => "All pass",
    }
}

impl From<Variant> for &'static str {
    fn from(value: Variant) -> (name: &'static str) {
        match value {
            Variant::Peak => "Peak",
            Variant::LowPass => "Low pass",
            Variant::HighPass => "High pass",
            Variant::LowShelf => "Low shelf",
            Variant::HighShelf => "High shelf",
            Variant::AllPass => "All pass",
        }
    }
}

impl vstd::std_specs::convert::FromSpecImpl<Variant> for &'static str {
    open spec fn obeys_from_spec() -> bool {
        true
    }

    open spec fn from_spec(v: Variant) -> &'static str {
        variant_name(v)
    }
}

/// Whether a filter kind has a gain level: the shelving and peaking filters
/// boost or cut by a level in dB, the others only shape the response.
pub open spec fn spec_uses_level(variant: Variant) -> bool {
    variant == Variant::LowShelf || variant == Variant::HighShelf || variant == Variant::Peak
}

impl Variant {
    /// Whether this filter kind has a gain level, which the user can set.
    pub fn uses_level(&self) -> (r: bool)
        ensures
            r == spec_uses_level(*self),
    {
        match self {
            Variant::LowShelf | Variant::HighShelf | Variant::Peak => true,
            _ => false,
        }
    }
}

/// The bit pattern of `0.0_f32`.
pub const LEVEL_DB_DEFAULT_BITS: u32 = 0x0000_0000;
/// The bit pattern of `48000.0_f32`.
pub const FS_HZ_DEFAULT_BITS: u32 = 0x473B_8000;
/// The bit pattern of `1000.0_f32`.
pub const F0_HZ_DEFAULT_BITS: u32 = 0x447A_0000;
/// The bit pattern of `0.71_f32`.
pub const Q_VALUE_DEFAULT_BITS: u32 = 0x3F35_C28F;

/// The settings of one filter stage.
#[derive(Debug, Clone, Copy, PartialEq, Eq, Structural)]
pub struct Filter {
    pub id: u32,
    pub variant: Variant,
    /// Gain level in dB, as `f32` bits.
    pub level_db_bits: u32,
    /// Center or corner frequency in Hz, as `f32` bits.
    pub f0_hz_bits: u32,
    /// Sample rate in Hz, as `f32` bits.
    pub fs_hz_bits: u32,
    /// Quality factor, as `f32` bits.
    pub q_value_bits: u32,
    pub is_muted: bool,
}

/// The default settings, given an id: a 1 kHz peaking filter with 0 dB gain
/// and Q 0.71 at 48 kHz, not muted.
pub open spec fn default_filter(id: u32) -> Filter {
    Filter {
        id,
        variant: Variant::Peak,
        level_db_bits: LEVEL_DB_DEFAULT_BITS,
        fs_hz_bits: FS_HZ_DEFAULT_BITS,
        f0_hz_bits: F0_HZ_DEFAULT_BITS,
        q_value_bits: Q_VALUE_DEFAULT_BITS,
        is_muted: false,
    }
}

/// A new filter's settings do not depend on its id: any two new filters
/// differ in their id alone, and every new filter is an unmuted 1 kHz peaking
/// filter with 0 dB gain and Q 0.71 at 48 kHz.
pub proof fn lemma_new_filters_differ_only_in_id(a: u32, b: u32)
    ensures
        default_filter(a) == (Filter { id: a, ..default_filter(b) }),
        default_filter(a).id == a,
        !default_filter(a).is_muted,
        default_filter(a).variant == Variant::Peak,
        default_filter(a).level_db_bits == 0x0000_0000u32,
        default_filter(a).fs_hz_bits == 0x473B_8000u32,
        default_filter(a).f0_hz_bits == 0x447A_0000u32,
        default_filter(a).q_value_bits == 0x3F35_C28Fu32,
{
}

impl Filter {
    /// Create a new filter with a given ID.
    pub fn new(id: u32) -> (filter: Self)
        ensures
            filter == default_filter(id),
    {
        Filter { id, ..Default::default() }
    }
}

impl Default for Filter {
    fn default() -> (filter: Self)
        ensures
            filter == default_filter(0),
    {
        Filter {
            id: 0,
            variant: Variant::Peak,
            level_db_bits: LEVEL_DB_DEFAULT_BITS,
            fs_hz_bits: FS_HZ_DEFAULT_BITS,
            f0_hz_bits: F0_HZ_DEFAULT_BITS,
            q_value_bits: Q_VALUE_DEFAULT_BITS,
            is_muted: false,
        }
    }
}

/// The number of filter stages of a channel.
pub const FILTERS_PER_CHANNEL: usize = 10;

/// The filter chain of one output channel.
#[derive(Debug, Clone, Copy)]
pub struct Channel {
    pub id: u32,
    pub input_id: u32,
    pub filters: [Filter; FILTERS_PER_CHANNEL],
}

/// Device information.
#[derive(Debug, Clone, Copy, PartialEq, Eq, Structural)]
pub struct Info {
    pub channel_count: u32,
    pub input_count: u32,
    pub sample_rate_hz: u32,
}

} // verus!
