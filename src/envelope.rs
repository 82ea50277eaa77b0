//! Frame accounting of the envelope builder: how many frames are taken, when
//! a window closes, and when the cap stops the decode.

use vstd::arithmetic::div_mod::lemma_fundamental_div_mod_converse;
use vstd::prelude::*;

verus! {

/// Frames per envelope window unless configured otherwise.
pub const DEFAULT_WINDOW: usize = 1024;

/// The sample rate assumed where the track declares none.
pub const DEFAULT_SAMPLE_RATE: u32 = 44100;

/// Seconds of audio read at most.
pub const CAP_SECONDS: u64 = 30;

/// The sample rate of a track: the declared one, or the default where none
/// (or zero) is declared.
pub open spec fn effective_rate_spec(declared: Option<u32>) -> u32 {
    match declared {
        Some(r) => if r > 0 { r } else { DEFAULT_SAMPLE_RATE },
        None => DEFAULT_SAMPLE_RATE,
    }
}

/// The sample rate of a track: the declared one, or the default where none
/// (or zero) is declared.
pub fn effective_sample_rate(declared: Option<u32>) -> (r: u32)
    ensures
        r == effective_rate_spec(declared),
        r > 0,
{
    match declared {
        Some(rate) => if rate > 0 { rate } else { DEFAULT_SAMPLE_RATE },
        None => DEFAULT_SAMPLE_RATE,
    }
}

/// The number of frames read at most: `sample_rate * 30`.
pub fn frame_cap(sample_rate: u32) -> (r: u64)
    ensures
        r == sample_rate * CAP_SECONDS,
{
    sample_rate as u64 * CAP_SECONDS
}

/// What happens to one more mono frame.
#[derive(PartialEq, Eq, Structural, Clone, Copy, Debug)]
pub enum FrameStep {
    /// The cap was reached before this frame: it is not taken, and decoding stops.
    Stop,
    /// The frame is taken into the current window, which stays open.
    Accumulate,
    /// The frame is taken and completes the current window, whose RMS is emitted.
    CloseWindow,
}

/// The counters of the envelope builder.
pub struct EnvelopeCounter {
    window: usize,
    cap: u64,
    frames: u64,
    pending: usize,
    windows: u64,
}

/// The counters as numbers.
pub struct EnvelopeCounterView {
    /// Frames per window.
    pub window: nat,
    /// Frames taken at most.
    pub cap: nat,
    /// Frames taken so far.
    pub frames: nat,
    /// Frames in the open, incomplete window.
    pub pending: nat,
    /// Windows completed, which is the length of the envelope.
    pub windows: nat,
}

impl View for EnvelopeCounter {
    type V = EnvelopeCounterView;

    closed spec fn view(&self) -> EnvelopeCounterView {
        EnvelopeCounterView {
            window: self.window as nat,
            cap: self.cap as nat,
            frames: self.frames as nat,
            pending: self.pending as nat,
            windows: self.windows as nat,
        }
    }
}

impl EnvelopeCounter {
    /// Every frame taken lies in a completed window or in the open one, which
    /// is never full, and no more frames are taken than the cap.
    pub open spec fn wf(&self) -> bool {
        &&& self@.window > 0
        &&& self@.pending < self@.window
        &&& self@.frames == self@.windows * self@.window + self@.pending
        &&& self@.frames <= self@.cap
    }

    /// Counters with nothing taken yet.
    pub fn new(window: usize, cap: u64) -> (r: EnvelopeCounter)
        requires
            window > 0,
        ensures
            r.wf(),
            r@.window == window,
            r@.cap == cap,
            r@.frames == 0,
            r@.pending == 0,
            r@.windows == 0,
    {
        EnvelopeCounter { window, cap, frames: 0, pending: 0, windows: 0 }
    }

    /// Accounts for one more mono frame.
    pub fn step(&mut self) -> (r: FrameStep)
        requires
            old(self).wf(),
        ensures
            final(self).wf(),
            final(self)@.window == old(self)@.window,
            final(self)@.cap == old(self)@.cap,
            old(self)@.frames >= old(self)@.cap <==> r == FrameStep::Stop,
            r == FrameStep::Stop ==> final(self)@ == old(self)@,
            r != FrameStep::Stop ==> final(self)@.frames == old(self)@.frames + 1,
            r == FrameStep::CloseWindow <==> (r != FrameStep::Stop && old(self)@.pending + 1
                == old(self)@.window),
            r == FrameStep::CloseWindow ==> final(self)@.pending == 0 && final(self)@.windows
                == old(self)@.windows + 1,
            r == FrameStep::Accumulate ==> final(self)@.pending == old(self)@.pending + 1
                && final(self)@.windows == old(self)@.windows,
    {
        if self.frames >= self.cap {
            return FrameStep::Stop;
        }
        self.frames = self.frames + 1;
        if self.pending + 1 == self.window {
            proof {
                assert(self.windows * self.window + self.window <= self.cap) by (nonlinear_arith)
                    requires
                        self.frames == self.windows * self.window + self.window,
                        self.frames <= self.cap,
                ;
                assert(self.windows + 1 <= self.cap) by (nonlinear_arith)
                    requires
                        self.windows * self.window + self.window <= self.cap,
                        self.window >= 1,
                ;
            }
            self.pending = 0;
            self.windows = self.windows + 1;
            proof {
                assert(self.frames == self.windows * self.window) by (nonlinear_arith)
                    requires
                        self.frames == (self.windows - 1) * self.window + self.window,
                ;
            }
            FrameStep::CloseWindow
        } else {
            self.pending = self.pending + 1;
            FrameStep::Accumulate
        }
    }

    /// Frames taken so far.
    pub fn frames(&self) -> (r: u64)
        ensures
            r == self@.frames,
    {
        self.frames
    }

    /// Windows completed so far: the length of the envelope.
    pub fn windows(&self) -> (r: u64)
        ensures
            r == self@.windows,
    {
        self.windows
    }

    /// Whether the cap has been reached.
    pub fn is_full(&self) -> (r: bool)
        ensures
            r == (self@.frames >= self@.cap),
    {
        self.frames >= self.cap
    }
}

/// The envelope has one entry per complete window of the frames taken:
/// `floor(frames / window)`, and the remainder frames add none.
pub proof fn envelope_length_law(c: EnvelopeCounter)
    requires
        c.wf(),
    ensures
        c@.windows == c@.frames / c@.window,
        c@.pending == c@.frames % c@.window,
{
    lemma_fundamental_div_mod_converse(
        c@.frames as int,
        c@.window as int,
        c@.windows as int,
        c@.pending as int,
    );
}

} // verus!
