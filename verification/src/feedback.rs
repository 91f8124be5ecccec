//! Sample-rate feedback: counting timer ticks over USB frames, and the wire
//! format of the feedback value that is sent to the host.
//!
//! The timer captures its counter at every USB start-of-frame. Once per
//! feedback refresh period the ticks that elapsed over that period are
//! handed on; the host uses them to match its sending rate to the rate at
//! which the speaker plays samples.
use vstd::prelude::*;
use embassy_usb::class::uac1::FeedbackRefresh;
use crate::buffers::{FeedbackPacket, feedback_packet_bytes, clear_packet, push_packet_byte};

verus! {

#[verifier::external_type_specification]
#[verifier::external_body]
pub struct ExFeedbackRefresh(FeedbackRefresh);

/// The number of frames per feedback refresh period of a `FeedbackRefresh`
/// setting.
pub uninterp spec fn feedback_refresh_frames(refresh: FeedbackRefresh) -> usize;

/// `FeedbackRefresh::frame_count`: `1 << n` for the variant's discriminant
/// `n`, which `embassy-usb` 0.6 sets from 1 (two frames) to 9 (512 frames).
/// The contract names the result, which depends on the setting alone, and
/// states that range; which setting maps to which count is left unsaid,
/// since the type is held opaque.
pub assume_specification[ FeedbackRefresh::frame_count ](refresh: &FeedbackRefresh) -> (frames: usize)
    ensures
        frames == feedback_refresh_frames(*refresh),
        frames == 2 || frames == 4 || frames == 8 || frames == 16 || frames == 32
            || frames == 64 || frames == 128 || frames == 256 || frames == 512,
;

/// The ticks that a free-running 32 bit counter advanced from `last` to
/// `now`, allowing for one wrap-around.
pub open spec fn elapsed_ticks(last: u32, now: u32) -> u32 {
    if now >= last {
        (now - last) as u32
    } else {
        (now - last + 0x1_0000_0000) as u32
    }
}

/// The abstract state of a feedback counter.
pub struct CounterState {
    /// The counter value captured at the end of the last refresh period.
    pub last_ticks: u32,
    /// Frames captured since the end of the last refresh period.
    pub frame_count: nat,
    /// Frames per refresh period.
    pub refresh_frames: nat,
}

/// One capture: the next state and, at the end of a refresh period, the
/// ticks that elapsed over it.
pub open spec fn capture_step(s: CounterState, ticks: u32) -> (CounterState, Option<u32>) {
    if s.frame_count + 1 >= s.refresh_frames {
        (
            CounterState { last_ticks: ticks, frame_count: 0, refresh_frames: s.refresh_frames },
            Some(elapsed_ticks(s.last_ticks, ticks)),
        )
    } else {
        (
            CounterState {
                last_ticks: s.last_ticks,
                frame_count: s.frame_count + 1,
                refresh_frames: s.refresh_frames,
            },
            None,
        )
    }
}

/// A sequence of captures: the final state and every value handed on, in order.
pub open spec fn capture_run(s: CounterState, captures: Seq<u32>) -> (CounterState, Seq<u32>)
    decreases captures.len(),
{
    if captures.len() == 0 {
        (s, Seq::empty())
    } else {
        let (mid, out) = capture_run(s, captures.drop_last());
        let (next, signal) = capture_step(mid, captures.last());
        match signal {
            Some(v) => (next, out.push(v)),
            None => (next, out),
        }
    }
}

/// The sum of a sequence of tick counts.
pub open spec fn sum_ticks(values: Seq<u32>) -> int
    decreases values.len(),
{
    if values.len() == 0 {
        0
    } else {
        sum_ticks(values.drop_last()) + values.last()
    }
}

/// Counts timer ticks over feedback refresh periods of USB frames.
pub struct FeedbackCounter {
    last_ticks: u32,
    frame_count: usize,
    refresh_frames: usize,
}

impl FeedbackCounter {
    #[verifier::type_invariant]
    spec fn inv(self) -> bool {
        &&& 1 <= self.refresh_frames
        &&& self.frame_count < self.refresh_frames
    }

    /// The counter's abstract state.
    pub closed spec fn state(self) -> CounterState {
        CounterState {
            last_ticks: self.last_ticks,
            frame_count: self.frame_count as nat,
            refresh_frames: self.refresh_frames as nat,
        }
    }

    /// A counter at the start of a refresh period, with no ticks counted yet.
    pub fn new(refresh: &FeedbackRefresh) -> (counter: Self)
        ensures
            counter.state().last_ticks == 0,
            counter.state().frame_count == 0,
            counter.state().refresh_frames == feedback_refresh_frames(*refresh),
            counter.state().refresh_frames >= 2,
            counter.state().refresh_frames <= 512,
            counter_state_valid(counter.state()),
    {
        Self::with_refresh_frames(refresh.frame_count())
    }

    /// A counter at the start of a refresh period of `refresh_frames` frames,
    /// with no ticks counted yet.
    pub fn with_refresh_frames(refresh_frames: usize) -> (counter: Self)
        requires
            refresh_frames >= 1,
        ensures
            counter.state() == (CounterState { last_ticks: 0, frame_count: 0, refresh_frames: refresh_frames as nat }),
            counter_state_valid(counter.state()),
    {
        FeedbackCounter { last_ticks: 0, frame_count: 0, refresh_frames }
    }

    /// Frames per refresh period.
    pub fn refresh_frames(&self) -> (frames: usize)
        ensures
            frames == self.state().refresh_frames,
    {
        self.refresh_frames
    }

    /// Records the counter value captured at a USB start-of-frame. At the end
    /// of a refresh period it returns the ticks elapsed since the end of the
    /// previous one, counting through a wrap-around of the counter.
    pub fn on_capture(&mut self, ticks: u32) -> (signal: Option<u32>)
        ensures
            (final(self).state(), signal) == capture_step(old(self).state(), ticks),
            counter_state_valid(final(self).state()),
    {
        proof { use_type_invariant(&*self); }
        let frame_count = self.frame_count + 1;
        if frame_count >= self.refresh_frames {
            let elapsed = ticks.wrapping_sub(self.last_ticks);
            self.frame_count = 0;
            self.last_ticks = ticks;
            Some(elapsed)
        } else {
            self.frame_count = frame_count;
            None
        }
    }
}

/// The state invariant that every counter keeps.
pub open spec fn counter_state_valid(s: CounterState) -> bool {
    1 <= s.refresh_frames && s.frame_count < s.refresh_frames
}

/// Over any sequence of captures, a value is handed on exactly once per
/// completed refresh period, the refresh period is kept, and the frames of the
/// unfinished period are what is left over.
pub proof fn lemma_one_signal_per_refresh_period(s: CounterState, captures: Seq<u32>)
    requires
        counter_state_valid(s),
    ensures
        capture_run(s, captures).1.len() == (s.frame_count + captures.len()) / s.refresh_frames,
        capture_run(s, captures).0.frame_count == (s.frame_count + captures.len()) % s.refresh_frames,
        capture_run(s, captures).0.refresh_frames == s.refresh_frames,
    decreases captures.len(),
{
    let p = s.refresh_frames as int;
    if captures.len() == 0 {
        vstd::arithmetic::div_mod::lemma_fundamental_div_mod_converse(s.frame_count as int, p, 0, s.frame_count as int);
    } else {
        lemma_one_signal_per_refresh_period(s, captures.drop_last());
        let (mid, out) = capture_run(s, captures.drop_last());
        let n = captures.len();
        let a = s.frame_count + n - 1;
        vstd::arithmetic::div_mod::lemma_fundamental_div_mod(a, p);
        let q = a / p;
        let r = a % p;
        assert(mid.frame_count == r && out.len() == q && mid.refresh_frames == p);
        if r + 1 >= p {
            assert(a + 1 == (q + 1) * p + 0) by (nonlinear_arith)
                requires a == p * q + r, r + 1 == p;
            vstd::arithmetic::div_mod::lemma_fundamental_div_mod_converse(a + 1, p, q + 1, 0);
        } else {
            assert(a + 1 == q * p + (r + 1)) by (nonlinear_arith)
                requires a == p * q + r;
            vstd::arithmetic::div_mod::lemma_fundamental_div_mod_converse(a + 1, p, q, r + 1);
        }
    }
}

/// What one capture does, for every valid state and every captured counter
/// value: a capture that completes the refresh period hands on the ticks
/// that, added to the counter value at the end of the previous period, give
/// the captured value (modulo the counter's range), and the captured value
/// becomes the new period end; any other capture hands on nothing, only
/// counts the frame, and keeps the period end.
pub proof fn lemma_capture_hands_on_elapsed_ticks(s: CounterState, t: u32)
    requires
        counter_state_valid(s),
    ensures
        s.frame_count + 1 >= s.refresh_frames ==> {
            &&& capture_step(s, t).1 is Some
            &&& (s.last_ticks + capture_step(s, t).1->0) % 0x1_0000_0000 == t as int
            &&& capture_step(s, t).0.last_ticks == t
            &&& capture_step(s, t).0.frame_count == 0
            &&& capture_step(s, t).0.refresh_frames == s.refresh_frames
        },
        s.frame_count + 1 < s.refresh_frames ==> {
            &&& capture_step(s, t).1 is None
            &&& capture_step(s, t).0.last_ticks == s.last_ticks
            &&& capture_step(s, t).0.frame_count == s.frame_count + 1
            &&& capture_step(s, t).0.refresh_frames == s.refresh_frames
        },
{
    if s.frame_count + 1 >= s.refresh_frames {
        let e = elapsed_ticks(s.last_ticks, t);
        if t >= s.last_ticks {
            vstd::arithmetic::div_mod::lemma_small_mod(t as nat, 0x1_0000_0000);
        } else {
            assert(s.last_ticks + e == t + 0x1_0000_0000);
            vstd::arithmetic::div_mod::lemma_small_mod(t as nat, 0x1_0000_0000);
            vstd::arithmetic::div_mod::lemma_mod_add_multiples_vanish(t as int, 0x1_0000_0000);
        }
    }
}

/// Every tick is counted once: the values handed on over any sequence of
/// captures add up, modulo the counter's range, to how far the counter value
/// of the last period end moved.
pub proof fn lemma_signalled_ticks_add_up(s: CounterState, captures: Seq<u32>)
    ensures
        (s.last_ticks + sum_ticks(capture_run(s, captures).1)) % 0x1_0000_0000
            == capture_run(s, captures).0.last_ticks as int,
    decreases captures.len(),
{
    if captures.len() == 0 {
        vstd::arithmetic::div_mod::lemma_small_mod(s.last_ticks as nat, 0x1_0000_0000);
    } else {
        lemma_signalled_ticks_add_up(s, captures.drop_last());
        let (mid, out) = capture_run(s, captures.drop_last());
        let t = captures.last();
        if mid.frame_count + 1 >= mid.refresh_frames {
            let e = elapsed_ticks(mid.last_ticks, t);
            let total = s.last_ticks + sum_ticks(out);
            assert(out.push(e).drop_last() =~= out);
            assert(sum_ticks(out.push(e)) == sum_ticks(out) + e);
            assert(e as int == (t - mid.last_ticks) + (if t >= mid.last_ticks { 0int } else { 0x1_0000_0000int }));
            vstd::arithmetic::div_mod::lemma_add_mod_noop(total, e as int, 0x1_0000_0000);
            vstd::arithmetic::div_mod::lemma_small_mod(mid.last_ticks as nat, 0x1_0000_0000);
            vstd::arithmetic::div_mod::lemma_small_mod(t as nat, 0x1_0000_0000);
            vstd::arithmetic::div_mod::lemma_add_mod_noop(mid.last_ticks as int, e as int, 0x1_0000_0000);
            if t < mid.last_ticks {
                vstd::arithmetic::div_mod::lemma_mod_add_multiples_vanish(t as int, 0x1_0000_0000);
            }
        }
    }
}

/// The bytes of a feedback value on the wire: the low three bytes of the
/// 10.14 fixed-point value, least significant first.
pub open spec fn feedback_bytes(value: u32) -> Seq<u8> {
    seq![value as u8, (value >> 8) as u8, (value >> 16) as u8]
}

/// Writes a feedback value into the packet buffer, replacing what it held.
pub fn write_feedback_packet(packet: &mut FeedbackPacket, value: u32)
    ensures
        feedback_packet_bytes(*final(packet)) == feedback_bytes(value),
{
    clear_packet(packet);
    let r0 = push_packet_byte(packet, value as u8);
    let r1 = push_packet_byte(packet, (value >> 8) as u8);
    let r2 = push_packet_byte(packet, (value >> 16) as u8);
    assert(r0 is Ok && r1 is Ok && r2 is Ok);
    assert(feedback_packet_bytes(*packet) =~= feedback_bytes(value));
}

/// A feedback packet is exactly three bytes, and the three bytes, read back
/// least significant first, are the value's low 24 bits: a 10.14 value is
/// sent without loss.
pub proof fn lemma_feedback_bytes_hold_low_24_bits(value: u32)
    ensures
        feedback_bytes(value).len() == 3,
        feedback_bytes(value)[0] + 256 * feedback_bytes(value)[1] + 65536 * feedback_bytes(value)[2]
            == value % 0x100_0000,
{
    let b0 = value as u8;
    let b1 = (value >> 8) as u8;
    let b2 = (value >> 16) as u8;
    assert(b0 as u32 + 256 * (b1 as u32) + 65536 * (b2 as u32) == value % 0x100_0000) by (bit_vector)
        requires
            b0 == value as u8,
            b1 == (value >> 8) as u8,
            b2 == (value >> 16) as u8,
    ;
}

} // verus!
