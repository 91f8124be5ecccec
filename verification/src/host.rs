//! Host-side logic of the DSP control GUI: finding the device and the filter
//! settings it is initialised with.
use vstd::prelude::*;
use crate::protocol::{Channel, Filter, FILTERS_PER_CHANNEL, default_filter};

verus! {

/// The USB product string by which the DSP device is recognised.
pub const DSP_PRODUCT_NAME: &'static str = "usb-dsp";

/// `<str as PartialEq>::eq`: two string slices are equal when they hold the
/// same characters.
#[verifier::external_body]
fn str_eq(a: &str, b: &str) -> (r: bool)
    ensures
        r == (a@ == b@),
{
    a == b
}

/// Whether a USB device with the given product string is the DSP device.
pub fn is_dsp_device(product: Option<&str>) -> (r: bool)
    ensures
        r == (product matches Some(name) && name@ == DSP_PRODUCT_NAME@),
{
    match product {
        Some(name) => str_eq(name, DSP_PRODUCT_NAME),
        None => false,
    }
}

/// The settings that the GUI sends to a channel when it connects: input 0,
/// and filter stages with ids 0 to 9 in default settings.
pub fn initial_channel(channel_id: u32) -> (channel: Channel)
    ensures
        channel.id == channel_id,
        channel.input_id == 0,
        forall|i: int| 0 <= i < FILTERS_PER_CHANNEL ==> #[trigger] channel.filters@[i] == default_filter(i as u32),
{
    let mut filters = [Filter::new(0); FILTERS_PER_CHANNEL];
    for id in 0..FILTERS_PER_CHANNEL
        invariant
            forall|i: int| 0 <= i < id ==> #[trigger] filters@[i] == default_filter(i as u32),
    {
        filters[id] = Filter::new(id as u32);
    }
    Channel { id: channel_id, input_id: 0, filters }
}

} // verus!
