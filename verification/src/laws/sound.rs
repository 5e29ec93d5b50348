//! Sound: which frame is heard in which sample.

use crate::audio_queue::{occurs, slots, QueueEvent};
use crate::ui::audio::{
    frames_fit, frames_of, played, queue_after, signed_at, unsigned_at, unsigned_sample, Warmup,
};
use vstd::arithmetic::div_mod::lemma_fundamental_div_mod_converse;
use vstd::prelude::*;

verus! {

/// A queue has room for as many frames as were asked for, and for at least one.
pub proof fn law_room(asked: nat)
    ensures
        asked >= 1 ==> slots(asked as int) - 1 == asked,
        asked == 0 ==> slots(asked as int) - 1 == 1,
{
}

/// A frame that is pushed stands behind all others, if there is room; else the
/// queue stays as it is.
pub proof fn law_push(
    before: Seq<(i16, i16)>,
    capacity: nat,
    frame: (i16, i16),
    pushed: bool,
    after: Seq<(i16, i16)>,
)
    requires
        occurs(before, capacity, (QueueEvent::Push { frame, pushed }), after),
    ensures
        before.len() < capacity ==> pushed && after == before + seq![frame],
        before.len() >= capacity ==> !pushed && after == before,
{
    assert(before.push(frame) =~= before + seq![frame]);
}

/// A frame that is popped stood in front of what is left. None comes from an
/// empty queue alone.
pub proof fn law_pop(
    before: Seq<(i16, i16)>,
    capacity: nat,
    popped: Option<(i16, i16)>,
    after: Seq<(i16, i16)>,
)
    requires
        occurs(before, capacity, (QueueEvent::Pop { popped }), after),
    ensures
        popped is None <==> before.len() == 0,
        popped is None ==> after == before,
        popped matches Some(frame) ==> before == seq![frame] + after,
{
    if let Some(frame) = popped {
        assert(before =~= seq![frame] + before.skip(1));
    }
}

/// The frames that fill a buffer: enough for all samples, and not one more.
pub proof fn law_frames_of_a_buffer(len: nat, channels: nat)
    requires
        channels > 0,
    ensures
        frames_of(len as int, channels as int) * channels >= len,
        len > 0 ==> (frames_of(len as int, channels as int) - 1) * channels < len,
        len == 0 ==> frames_of(len as int, channels as int) == 0,
{
    let frames = frames_of(len as int, channels as int);
    let last = len + channels - 1;
    vstd::arithmetic::div_mod::lemma_fundamental_div_mod(last, channels as int);
    vstd::arithmetic::div_mod::lemma_mod_bound(last, channels as int);
    assert(channels * frames == frames * channels) by (nonlinear_arith);
    assert((frames - 1) * channels == frames * channels - channels) by (nonlinear_arith);
    if len == 0 {
        lemma_fundamental_div_mod_converse(last, channels as int, 0, channels - 1);
    }
}

/// Each frame goes to its own place of a buffer: its left sample to the first
/// channel, its right one to the second, and the other channels are kept. Where
/// the queue has run out there is silence.
pub proof fn law_frames_in_a_buffer(
    before: Seq<i16>,
    channels: nat,
    queue: Seq<(i16, i16)>,
    n: nat,
    channel: nat,
)
    requires
        channel < channels,
        n * channels + channel < before.len(),
    ensures
        ({
            let at = n * channels + channel as int;
            let sample = signed_at(before, channels as int, queue, at);
            &&& channel == 0 && n < queue.len() ==> sample == queue[n as int].0
            &&& channel == 1 && n < queue.len() ==> sample == queue[n as int].1
            &&& channel < 2 && n >= queue.len() ==> sample == 0
            &&& channel >= 2 ==> sample == before[at]
        }),
{
    let at = n * channels + channel as int;
    lemma_fundamental_div_mod_converse(at, channels as int, n as int, channel as int);
}

/// A buffer of unsigned samples gets the same frames. Silence is 32768 there, and
/// the distance between two samples is the same.
pub proof fn law_frames_in_an_unsigned_buffer(
    before: Seq<u16>,
    channels: nat,
    queue: Seq<(i16, i16)>,
    n: nat,
    channel: nat,
)
    requires
        channel < channels,
        n * channels + channel < before.len(),
    ensures
        ({
            let at = n * channels + channel as int;
            let sample = unsigned_at(before, channels as int, queue, at);
            &&& channel == 0 && n < queue.len() ==> sample - 32768 == queue[n as int].0
            &&& channel == 1 && n < queue.len() ==> sample - 32768 == queue[n as int].1
            &&& channel < 2 && n >= queue.len() ==> sample == 32768
            &&& channel >= 2 ==> sample == before[at]
        }),
{
    let at = n * channels + channel as int;
    lemma_fundamental_div_mod_converse(at, channels as int, n as int, channel as int);
}

/// Filling a buffer takes the frames that were played out of the queue, in front,
/// and no others: played frames and what is left make up the queue, and two
/// buffers play what one of their joint length does.
pub proof fn law_filling_takes_what_it_plays(queue: Seq<(i16, i16)>, n: nat, m: nat)
    ensures
        n <= queue.len() ==> queue == Seq::new(n, |i: int| played(queue, i)) + queue_after(
            queue,
            n as int,
        ),
        n >= queue.len() ==> queue_after(queue, n as int).len() == 0,
        forall|i: int|
            0 <= i < m ==> #[trigger] played(queue_after(queue, n as int), i) == played(queue, n + i),
        queue_after(queue_after(queue, n as int), m as int) == queue_after(queue, n + m as int),
{
    if n <= queue.len() {
        assert(queue =~= Seq::new(n, |i: int| played(queue, i)) + queue_after(queue, n as int));
    }
    assert(queue_after(queue_after(queue, n as int), m as int) =~= queue_after(queue, n + m as int));
}

/// A buffer can be filled unless its last frame has a left sample and misses the
/// right one.
pub proof fn law_buffers_that_can_be_filled(n: nat, channels: nat, rest: nat)
    requires
        rest < channels,
    ensures
        frames_fit(n * channels + rest as int, channels as int) <==> channels == 1 || rest != 1,
{
    lemma_fundamental_div_mod_converse(
        n * channels + rest as int,
        channels as int,
        n as int,
        rest as int,
    );
}

/// A queue is filled before playback until it holds what it should, or for 200 ms; one
/// that holds enough is not.
pub proof fn law_warmup_ends(queued: usize, target: usize, start: u64, later: usize, now: u64)
    requires
        start + 200_000_000 <= u64::MAX,
    ensures
        queued >= target ==> Warmup::begun(queued, target, start) is None,
        queued < target ==> {
            &&& Warmup::begun(queued, target, start) matches Some(warmup) && warmup.wf()
                && warmup.steps == 0 && (warmup.is_over(later, now) <==> later >= target || now
                >= start + 200_000_000)
        },
{
}

/// While the queue is filled before playback, every 1024th instruction looks at it.
pub proof fn law_warmup_step(warmup: Warmup)
    requires
        warmup.wf(),
    ensures
        warmup.steps < 1024,
        warmup.steps == 1023 ==> warmup.after_step().steps == 0,
        warmup.steps < 1023 ==> warmup.after_step().steps == warmup.steps + 1,
        warmup.after_step().target == warmup.target,
        warmup.after_step().deadline == warmup.deadline,
{
}

} // verus!
