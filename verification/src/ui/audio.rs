//! Sound: what the audio callback plays, and how the queue is filled before.
//!
//! Times are in nanoseconds.

use crate::audio_queue::Ring;
use crate::network_link::state::after;
use vstd::arithmetic::div_mod::lemma_fundamental_div_mod_converse;
use vstd::prelude::*;

verus! {

/// Instructions between two looks at the queue while it is filled.
pub const WARMUP_CHECK_INTERVAL: u32 = 1024;

/// How long the queue is filled at most.
pub const WARMUP_TIMEOUT_NS: u64 = 200_000_000;

/// The frame that is played at `i`: of the queue, and then silence.
pub open spec fn played(queue: Seq<(i16, i16)>, i: int) -> (i16, i16) {
    if i < queue.len() {
        queue[i]
    } else {
        (0i16, 0i16)
    }
}

/// An unsigned sample for a signed one.
pub open spec fn unsigned_sample(sample: i16) -> u16 {
    (sample + 32768) as u16
}

/// The queue after `n` frames were taken, as far as it had any.
pub open spec fn queue_after(queue: Seq<(i16, i16)>, n: int) -> Seq<(i16, i16)> {
    if n < queue.len() {
        queue.skip(n)
    } else {
        Seq::empty()
    }
}

/// Number of frames in a buffer of `len` samples. The last one may be short of
/// channels.
pub open spec fn frames_of(len: int, channels: int) -> int {
    (len + channels - 1) / channels
}

/// Whether a buffer of `len` samples has both samples in each of its frames,
/// where a frame has two.
pub open spec fn frames_fit(len: int, channels: int) -> bool {
    channels > 0 && (channels == 1 || len % channels != 1)
}

/// Sample `i` of a buffer of signed samples, filled from `queue`, that was
/// `before`: left is the first channel, right the second, and others are kept.
pub open spec fn signed_at(before: Seq<i16>, channels: int, queue: Seq<(i16, i16)>, i: int) -> i16 {
    let frame = played(queue, i / channels);
    if i % channels == 0 {
        frame.0
    } else if i % channels == 1 {
        frame.1
    } else {
        before[i]
    }
}

/// Sample `i` of a buffer of unsigned samples, as [`signed_at`] has it.
pub open spec fn unsigned_at(
    before: Seq<u16>,
    channels: int,
    queue: Seq<(i16, i16)>,
    i: int,
) -> u16 {
    let frame = played(queue, i / channels);
    if i % channels == 0 {
        unsigned_sample(frame.0)
    } else if i % channels == 1 {
        unsigned_sample(frame.1)
    } else {
        before[i]
    }
}

/// A sample of a buffer.
trait Sample: Copy {
    /// The sample for a signed one.
    spec fn of_signed(sample: i16) -> Self;

    fn from_signed(sample: i16) -> (out: Self)
        ensures
            out == Self::of_signed(sample),
    ;
}

impl Sample for i16 {
    spec fn of_signed(sample: i16) -> i16 {
        sample
    }

    fn from_signed(sample: i16) -> (out: i16) {
        sample
    }
}

impl Sample for u16 {
    spec fn of_signed(sample: i16) -> u16 {
        unsigned_sample(sample)
    }

    fn from_signed(sample: i16) -> (out: u16) {
        (sample as i32 + 32768) as u16
    }
}

fn next_frame(queue: &mut Ring, Ghost(before): Ghost<Seq<(i16, i16)>>, Ghost(n): Ghost<int>) -> (
frame: (i16, i16))
    requires
        old(queue).wf(),
        n >= 0,
        old(queue)@ == queue_after(before, n),
    ensures
        final(queue).wf(),
        final(queue).capacity() == old(queue).capacity(),
        frame == played(before, n),
        final(queue)@ == queue_after(before, n + 1),
{
    let popped = queue.pop_stereo();
    proof {
        if n < before.len() {
            assert(before.skip(n).skip(1) == before.skip(n + 1));
            assert(before.skip(n + 1).len() == 0 ==> before.skip(n + 1) == Seq::<(i16, i16)>::empty());
        }
    }
    match popped {
        Some(frame) => frame,
        None => (0, 0),
    }
}

/// Fill a buffer with frames of the queue, and with silence once it is empty.
fn fill<S: Sample>(data: &mut [S], channels: usize, queue: &mut Ring)
    requires
        channels > 0,
        old(queue).wf(),
    ensures
        final(queue).wf(),
        final(queue).capacity() == old(queue).capacity(),
        final(queue)@ == queue_after(
            old(queue)@,
            frames_of(old(data)@.len() as int, channels as int),
        ),
        final(data)@.len() == old(data)@.len(),
        forall|i: int|
            0 <= i < old(data)@.len() ==> #[trigger] final(data)@[i] == ({
                let frame = played(old(queue)@, i / channels as int);
                if i % channels as int == 0 {
                    S::of_signed(frame.0)
                } else if i % channels as int == 1 {
                    S::of_signed(frame.1)
                } else {
                    old(data)@[i]
                }
            }),
{
    let len: usize = data.len();
    let mut at: usize = 0;
    let mut channel: usize = 0;
    let ghost mut n: int = 0;
    let mut frame: (i16, i16) = (0, 0);
    proof {
        assert(queue@ == queue_after(old(queue)@, 0)) by {
            assert(old(queue)@.skip(0) == old(queue)@);
            assert(old(queue)@.len() == 0 ==> old(queue)@ == Seq::<(i16, i16)>::empty());
        }
    }
    while at < len
        invariant
            channels > 0,
            len == data@.len(),
            data@.len() == old(data)@.len(),
            at <= len,
            channel < channels,
            n >= 0,
            at == n * channels + channel,
            queue.wf(),
            queue.capacity() == old(queue).capacity(),
            queue@ == queue_after(old(queue)@, if channel == 0 {
                n
            } else {
                n + 1
            }),
            channel > 0 ==> frame == played(old(queue)@, n),
            forall|i: int| at <= i < len ==> #[trigger] data@[i] == old(data)@[i],
            forall|i: int|
                0 <= i < at ==> #[trigger] data@[i] == ({
                    let frame = played(old(queue)@, i / channels as int);
                    if i % channels as int == 0 {
                        S::of_signed(frame.0)
                    } else if i % channels as int == 1 {
                        S::of_signed(frame.1)
                    } else {
                        old(data)@[i]
                    }
                }),
        decreases len - at,
    {
        proof {
            lemma_fundamental_div_mod_converse(at as int, channels as int, n, channel as int);
        }
        if channel == 0 {
            frame = next_frame(queue, Ghost(old(queue)@), Ghost(n));
            data[at] = S::from_signed(frame.0);
        } else if channel == 1 {
            data[at] = S::from_signed(frame.1);
        }
        at = at + 1;
        channel = channel + 1;
        if channel == channels {
            proof {
                assert((n + 1) * channels == n * channels + channels) by (nonlinear_arith);
                n = n + 1;
            }
            channel = 0;
        }
    }
    proof {
        let last = len + channels - 1;
        if channel == 0 {
            lemma_fundamental_div_mod_converse(last, channels as int, n, channels - 1);
        } else {
            assert((n + 1) * channels == n * channels + channels) by (nonlinear_arith);
            lemma_fundamental_div_mod_converse(last, channels as int, n + 1, channel - 1);
        }
    }
}

/// Fill a buffer of signed samples with frames of the queue, and with silence
/// once it is empty. Left is the first channel, right the second, if there is
/// one; others are left as they are. The last frame may be short of channels,
/// but not of the second.
pub fn fill_i16(data: &mut [i16], channels: usize, queue: &mut Ring)
    requires
        frames_fit(old(data)@.len() as int, channels as int),
        old(queue).wf(),
    ensures
        final(queue).wf(),
        final(queue).capacity() == old(queue).capacity(),
        final(queue)@ == queue_after(
            old(queue)@,
            frames_of(old(data)@.len() as int, channels as int),
        ),
        final(data)@.len() == old(data)@.len(),
        forall|i: int|
            0 <= i < old(data)@.len() ==> #[trigger] final(data)@[i] == signed_at(
                old(data)@,
                channels as int,
                old(queue)@,
                i,
            ),
{
    fill(data, channels, queue);
}

/// Fill a buffer of unsigned samples as [`fill_i16`] fills one of signed ones.
pub fn fill_u16(data: &mut [u16], channels: usize, queue: &mut Ring)
    requires
        frames_fit(old(data)@.len() as int, channels as int),
        old(queue).wf(),
    ensures
        final(queue).wf(),
        final(queue).capacity() == old(queue).capacity(),
        final(queue)@ == queue_after(
            old(queue)@,
            frames_of(old(data)@.len() as int, channels as int),
        ),
        final(data)@.len() == old(data)@.len(),
        forall|i: int|
            0 <= i < old(data)@.len() ==> #[trigger] final(data)@[i] == unsigned_at(
                old(data)@,
                channels as int,
                old(queue)@,
                i,
            ),
{
    fill(data, channels, queue);
}

/// Filling the queue before playback starts.
#[derive(Clone, Copy, Debug, PartialEq, Eq, Structural)]
pub struct Warmup {
    /// Frames to have in the queue.
    pub target: usize,
    pub deadline: u64,
    /// Instructions since the last look at the queue.
    pub steps: u32,
}

impl Warmup {
    pub open spec fn wf(self) -> bool {
        self.steps < WARMUP_CHECK_INTERVAL
    }

    /// The filling that a queue needs, if any.
    pub open spec fn begun(queued: usize, target: usize, now: u64) -> Option<Self> {
        if queued >= target {
            None
        } else {
            Some(Warmup { target, deadline: after(now, WARMUP_TIMEOUT_NS), steps: 0 })
        }
    }

    /// Whether the filling is over.
    pub open spec fn is_over(self, queued: usize, now: u64) -> bool {
        queued >= self.target || now >= self.deadline
    }

    /// Start to fill the queue, unless it is full enough.
    pub fn start(queued: usize, target: usize, now: u64) -> (warmup: Option<Self>)
        ensures
            warmup == Self::begun(queued, target, now),
    {
        if queued >= target {
            None
        } else {
            Some(Warmup { target, deadline: now.saturating_add(WARMUP_TIMEOUT_NS), steps: 0 })
        }
    }

    /// An instruction was executed. The result is whether to look at the queue.
    pub fn stepped(&mut self) -> (look: bool)
        requires
            old(self).wf(),
        ensures
            final(self).wf(),
            *final(self) == old(self).after_step(),
            look == (final(self).steps == 0),
    {
        self.steps = self.steps + 1;
        if self.steps >= WARMUP_CHECK_INTERVAL {
            self.steps = 0;
            true
        } else {
            false
        }
    }

    /// The state after an instruction.
    pub open spec fn after_step(self) -> Self {
        Warmup { steps: ((self.steps + 1) % WARMUP_CHECK_INTERVAL as int) as u32, ..self }
    }

    /// Whether to stop: the queue is full enough, or it has taken too long.
    pub fn stops(&self, queued: usize, now: u64) -> (stop: bool)
        ensures
            stop == self.is_over(queued, now),
    {
        queued >= self.target || now >= self.deadline
    }
}

/// The state after `n` instructions.
pub open spec fn after_steps(warmup: Warmup, n: nat) -> Warmup
    decreases n,
{
    if n == 0 {
        warmup
    } else {
        after_steps(warmup, (n - 1) as nat).after_step()
    }
}

/// The queue is looked at after every [`WARMUP_CHECK_INTERVAL`] instructions,
/// and at no other time.
pub proof fn law_queue_is_looked_at_every_interval(warmup: Warmup, n: nat)
    requires
        warmup.steps == 0,
    ensures
        after_steps(warmup, n) == (Warmup {
            steps: (n % WARMUP_CHECK_INTERVAL as nat) as u32,
            ..warmup
        }),
    decreases n,
{
    if n > 0 {
        law_queue_is_looked_at_every_interval(warmup, (n - 1) as nat);
    }
}

/// Unsigned samples keep the order of signed ones, and silence is the middle.
pub proof fn law_unsigned_samples(a: i16, b: i16)
    ensures
        unsigned_sample(0) == 0x8000,
        a < b <==> unsigned_sample(a) < unsigned_sample(b),
{
}

} // verus!
