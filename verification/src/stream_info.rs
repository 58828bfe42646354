//! What a decoder reports about an opened stream, and the stream's length
//! in time.

use vstd::prelude::*;
use vstd::arithmetic::div_mod::lemma_fundamental_div_mod;
use vstd::arithmetic::div_mod::lemma_hoist_over_denominator;
use vstd::arithmetic::div_mod::lemma_multiply_divide_lt;

verus! {

/// Nanoseconds in one second.
pub const NANOS_PER_SEC: u64 = 1_000_000_000;

/// Code a device uses for buffers of 16-bit samples on one channel.
pub const AL_FORMAT_MONO16: i32 = 0x1101;

/// Code a device uses for buffers of 16-bit samples on two channels.
pub const AL_FORMAT_STEREO16: i32 = 0x1103;

/// The highest sample rate a device buffer can be given.
pub const MAX_SAMPLE_RATE: u32 = 0x7fff_ffff;

/// A length of time: whole seconds and the nanoseconds beyond them.
#[derive(Clone, Copy, Debug, PartialEq, Eq, Structural)]
pub struct Span {
    pub secs: u64,
    pub nanos: u32,
}

impl Span {
    /// The whole length in nanoseconds.
    pub open spec fn total_nanos(self) -> nat {
        (self.secs * NANOS_PER_SEC + self.nanos) as nat
    }
}

/// The metadata a decoder reports for an opened stream.
#[derive(Clone, Copy, Debug, PartialEq, Eq, Structural)]
pub struct StreamInfo {
    /// Total number of frames in the stream.
    pub frames: u64,
    /// Frames per second.
    pub sample_rate: u32,
    /// Samples per frame.
    pub channels: u16,
}

/// The playing time of `frames` frames at `sample_rate` frames per second,
/// rounded down to the nanosecond.
pub open spec fn spec_stream_duration(frames: nat, sample_rate: nat) -> Span
    recommends
        sample_rate > 0,
{
    Span {
        secs: (frames / sample_rate) as u64,
        nanos: ((frames % sample_rate) * NANOS_PER_SEC as nat / sample_rate) as u32,
    }
}

/// The playing time of `frames` frames at `sample_rate` frames per second.
///
/// The seconds are the whole quotient; the nanoseconds are what the
/// remaining frames amount to, rounded down.
pub fn stream_duration(frames: u64, sample_rate: u32) -> (span: Span)
    requires
        sample_rate > 0,
    ensures
        span == spec_stream_duration(frames as nat, sample_rate as nat),
        span.secs == frames as nat / sample_rate as nat,
        span.nanos == (frames as nat % sample_rate as nat) * 1_000_000_000 / sample_rate as nat,
        span.nanos < NANOS_PER_SEC,
{
    let rate: u64 = sample_rate as u64;
    let secs: u64 = frames / rate;
    let rest: u64 = frames % rate;
    proof {
        lemma_multiply_divide_lt(rest * 1_000_000_000, rate as int, 1_000_000_000);
    }
    let nanos: u64 = rest * NANOS_PER_SEC / rate;
    Span { secs, nanos: nanos as u32 }
}

impl StreamInfo {
    /// The device's code for buffers of this stream's samples: mono for one
    /// channel, stereo for two. The device takes no other channel count.
    pub open spec fn spec_format(self) -> Option<i32> {
        if self.channels == 1 {
            Some(AL_FORMAT_MONO16)
        } else if self.channels == 2 {
            Some(AL_FORMAT_STEREO16)
        } else {
            None
        }
    }

    /// The device's code for buffers of this stream's samples, if the
    /// device takes its channel count.
    pub fn format(&self) -> (format: Option<i32>)
        ensures
            format == self.spec_format(),
    {
        if self.channels == 1 {
            Some(AL_FORMAT_MONO16)
        } else if self.channels == 2 {
            Some(AL_FORMAT_STEREO16)
        } else {
            None
        }
    }

    /// Whether a stream of this description can be played: it has a sample
    /// rate that a device buffer can be given, and one or two channels.
    pub open spec fn playable(self) -> bool {
        0 < self.sample_rate <= MAX_SAMPLE_RATE && self.spec_format() is Some
    }

    /// Whether a stream of this description can be played.
    pub fn is_playable(&self) -> (ok: bool)
        ensures
            ok == self.playable(),
    {
        self.sample_rate > 0 && self.sample_rate <= MAX_SAMPLE_RATE && (self.channels == 1
            || self.channels == 2)
    }

    /// The playing time of the whole stream, if it has a sample rate.
    pub fn duration(&self) -> (span: Option<Span>)
        ensures
            span == if self.sample_rate > 0 {
                Some(spec_stream_duration(self.frames as nat, self.sample_rate as nat))
            } else {
                None
            },
    {
        if self.sample_rate > 0 {
            Some(stream_duration(self.frames, self.sample_rate))
        } else {
            None
        }
    }
}

/// The duration of a stream is its exact playing time in nanoseconds,
/// rounded down, with fewer than a second's worth of nanoseconds beside
/// the whole seconds.
pub proof fn law_duration_is_floor_of_exact_time(frames: u64, sample_rate: u32)
    requires
        sample_rate > 0,
    ensures
        spec_stream_duration(frames as nat, sample_rate as nat).nanos < NANOS_PER_SEC,
        spec_stream_duration(frames as nat, sample_rate as nat).total_nanos()
            == (frames as nat * NANOS_PER_SEC as nat) / sample_rate as nat,
{
    let f: int = frames as int;
    let d: int = sample_rate as int;
    let q: int = f / d;
    let r: int = f % d;
    lemma_fundamental_div_mod(f, d);
    lemma_multiply_divide_lt(r * 1_000_000_000, d, 1_000_000_000);
    lemma_hoist_over_denominator(r * 1_000_000_000, q * 1_000_000_000, d as nat);
    assert(q * 1_000_000_000 * d == d * q * 1_000_000_000) by (nonlinear_arith);
    assert(r * 1_000_000_000 + q * 1_000_000_000 * d == f * 1_000_000_000);
    assert((r * 1_000_000_000) / d + q * 1_000_000_000 == (f * 1_000_000_000) / d);
    assert(0 <= (r * 1_000_000_000) / d) by (nonlinear_arith)
        requires
            0 <= r,
            0 < d,
    ;
    assert(0 <= q <= f) by (nonlinear_arith)
        requires
            q == f / d,
            0 <= f,
            0 < d,
    ;
}

/// A longer stream never has a shorter duration at the same sample rate.
pub proof fn law_duration_is_monotone(shorter: u64, longer: u64, sample_rate: u32)
    requires
        sample_rate > 0,
        shorter <= longer,
    ensures
        spec_stream_duration(shorter as nat, sample_rate as nat).total_nanos()
            <= spec_stream_duration(longer as nat, sample_rate as nat).total_nanos(),
{
    law_duration_is_floor_of_exact_time(shorter, sample_rate);
    law_duration_is_floor_of_exact_time(longer, sample_rate);
    let d: int = sample_rate as int;
    let a: int = shorter as int * 1_000_000_000;
    let b: int = longer as int * 1_000_000_000;
    assert(a / d <= b / d) by (nonlinear_arith)
        requires
            a <= b,
            0 < d,
    ;
}

} // verus!
