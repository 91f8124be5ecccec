//! The decisions of the audio routing loops, which move sample blocks from
//! the USB stream to the serial audio interface (SAI).
//!
//! The loops themselves await the USB stream, the SAI and timers; each round
//! they hand what happened to these functions and carry out what is returned.
use vstd::prelude::*;
use crate::board::Blink;

verus! {

/// The playback volume, as last signalled by the USB host.
pub struct VolumeControl<V> {
    pub volume: V,
}

impl<V> VolumeControl<V> {
    /// Starts at the given volume.
    pub fn new(volume: V) -> (control: Self)
        ensures
            control.volume == volume,
    {
        VolumeControl { volume }
    }

    /// Takes a volume change signalled since the last round, if there is one;
    /// the latest signalled volume replaces the current one.
    pub fn update(&mut self, signalled: Option<V>)
        ensures
            final(self).volume == (match signalled {
                Some(v) => v,
                None => old(self).volume,
            }),
    {
        if let Some(v) = signalled {
            self.volume = v;
        }
    }
}

/// What ended the wait for the next sample block: a block arrived, or the
/// SAI reported a write error (an overrun or underrun of its buffer).
#[derive(Debug, Clone, Copy, PartialEq, Eq, Structural)]
pub enum ReceiverEvent {
    SamplesReceived,
    SaiWriteError,
}

/// What the receiving loop does next.
#[derive(Debug, Clone, Copy, PartialEq, Eq, Structural)]
pub enum ReceiverAction {
    /// Scale the block by the volume and write it to the SAI.
    Play,
    /// Signal the LED, drop the SAI and set it up anew.
    RenewSai { blink: Blink },
}

/// The receiving loop's reaction: a block is played; after a write error the
/// red LED is signalled and the SAI is renewed.
pub fn receiver_action(event: ReceiverEvent) -> (action: ReceiverAction)
    ensures
        event == ReceiverEvent::SamplesReceived ==> action == ReceiverAction::Play,
        event == ReceiverEvent::SaiWriteError ==> action == (ReceiverAction::RenewSai { blink: Blink::Red }),
{
    match event {
        ReceiverEvent::SamplesReceived => ReceiverAction::Play,
        ReceiverEvent::SaiWriteError => ReceiverAction::RenewSai { blink: Blink::Red },
    }
}

/// One round of the routing loop that waits for USB data with a timeout.
#[derive(Debug, Clone, Copy, PartialEq, Eq, Structural)]
pub enum RoutingOutcome {
    /// No block arrived in time: streaming has paused.
    TimedOut,
    /// A block arrived and was written to the SAI.
    Written,
    /// A block arrived and writing it to the SAI failed.
    WriteFailed,
}

/// Whether the SAI is stopped and set up anew after a round: only after a
/// failed write. A pause of the stream keeps the SAI as it is.
pub fn sai_needs_renewal(outcome: RoutingOutcome) -> (renew: bool)
    ensures
        renew == (outcome == RoutingOutcome::WriteFailed),
{
    match outcome {
        RoutingOutcome::WriteFailed => true,
        _ => false,
    }
}

/// The LED signal after handing a sample block to the playback queue: none
/// when it was queued, yellow when the queue was full (playback consumes
/// too slowly) and the block was dropped.
pub fn queue_signal(queued: bool) -> (blink: Option<Blink>)
    ensures
        queued ==> blink is None,
        !queued ==> blink == Some(Blink::Yellow),
{
    if queued {
        None
    } else {
        Some(Blink::Yellow)
    }
}

} // verus!
