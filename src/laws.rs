//! Properties of the playback model that hold across sequences of commands
//! and scheduler ticks.
use crate::device::{decodes, loaded_after, paused_after, DeviceCall};
use crate::player::{load_calls, Notification, PlayerError, PlayerModel};
use crate::track::Track;
use vstd::prelude::*;

verus! {

/// The state after `n` skips (or autoplay advances) in a row.
pub open spec fn skipped_times(m: PlayerModel, n: nat) -> PlayerModel
    decreases n,
{
    if n == 0 {
        m
    } else {
        skipped_times(m, (n - 1) as nat).skipped()
    }
}

/// Queued tracks come out in the order they went in: after `k + 1` skips
/// the current track is the queue's entry `k`, and the queue holds what
/// came after it.
pub proof fn lemma_skips_follow_queue_order(m: PlayerModel, k: nat)
    requires
        k < m.queue.len(),
    ensures
        skipped_times(m, k + 1).current == Some(m.queue[k as int]),
        skipped_times(m, k + 1).queue == m.queue.subrange(k + 1 as int, m.queue.len() as int),
    decreases k,
{
    if k > 0 {
        lemma_skips_follow_queue_order(m, (k - 1) as nat);
        let prev = skipped_times(m, k);
        assert(prev.queue[0] == m.queue[k as int]);
        assert(prev.queue.drop_first() =~= m.queue.subrange(k + 1 as int, m.queue.len() as int));
    } else {
        assert(m.queue.drop_first() =~= m.queue.subrange(1, m.queue.len() as int));
    }
}

/// Enqueuing `a`, `b` and `c` on an empty queue and skipping three times
/// plays `a`, then `b`, then `c`, and leaves the queue empty, so that a
/// fourth skip finds nothing queued.
pub proof fn lemma_enqueue_then_skip_is_fifo(m: PlayerModel, a: Track, b: Track, c: Track)
    requires
        m.queue.len() == 0,
    ensures
        ({
            let q = m.enqueued(a).enqueued(b).enqueued(c);
            &&& q.skipped().current == Some(a)
            &&& q.skipped().skipped().current == Some(b)
            &&& q.skipped().skipped().skipped().current == Some(c)
            &&& q.skipped().skipped().skipped().queue.len() == 0
        }),
{
    let q = m.enqueued(a).enqueued(b).enqueued(c);
    assert(q.queue =~= seq![a, b, c]);
    assert(q.skipped().queue =~= seq![b, c]);
    assert(q.skipped().skipped().queue =~= seq![c]);
}

/// Skipping pushes the superseded track on the history, and stepping back
/// right after brings it back as the current track, with the history as it
/// was.
pub proof fn lemma_skip_then_previous_restores(m: PlayerModel)
    requires
        m.queue.len() > 0,
        m.current is Some,
    ensures
        m.skipped().history == m.history.push(m.current->0),
        m.skipped().went_back().current == m.current,
        m.skipped().went_back().history == m.history,
{
    assert(m.history.push(m.current->0).drop_last() =~= m.history);
}

/// Playing `a`, enqueuing `b` and skipping makes `b` current with `a` the
/// most recent history entry; stepping back makes `a` current again.
pub proof fn lemma_play_skip_previous(m: PlayerModel, a: Track, b: Track)
    ensures
        m.played(a).enqueued(b).skipped().current == Some(b),
        m.played(a).enqueued(b).skipped().history == m.superseded().push(a),
        m.played(a).enqueued(b).skipped().went_back().current == Some(a),
{
    let s = m.played(a).enqueued(b);
    assert(s.queue =~= seq![b]);
    lemma_skip_then_previous_restores(s);
}

/// Every load restarts progress: right after a play, a skip, a step back or
/// an autoplay advance no second has been counted.
pub proof fn lemma_load_resets_progress(m: PlayerModel, t: Track)
    ensures
        m.played(t).elapsed == 0,
        m.queue.len() > 0 ==> m.skipped().elapsed == 0,
        m.history.len() > 0 ==> m.went_back().elapsed == 0,
        m.queue.len() > 0 ==> m.ticked(true, Ok(())).0.elapsed == 0,
{
}

/// When the output runs dry with something queued and the front loads, the
/// front becomes current, leaves the queue, and the tick reports it.
pub proof fn lemma_autoplay_advances(m: PlayerModel)
    requires
        m.queue.len() > 0,
    ensures
        m.ticked(true, Ok(())).0.current == Some(m.queue[0]),
        m.ticked(true, Ok(())).0.queue == m.queue.drop_first(),
        m.ticked(true, Ok(())).1 == Notification::AutoplayAdvanced(m.queue[0]),
        m.queue.len() == 1 ==> m.ticked(true, Ok(())).0.queue.len() == 0,
{
}

/// When the output runs dry with nothing queued, the tick reports the end
/// of playback unless it did so since the last load; either way it is
/// reported by then, and the next such tick stays quiet.
pub proof fn lemma_exhaustion_reported(m: PlayerModel, outcome: Result<(), PlayerError>)
    requires
        m.queue.len() == 0,
    ensures
        !m.ended_reported ==> m.ticked(true, outcome).1 == Notification::PlaybackEnded,
        m.ticked(true, outcome).0.ended_reported,
        m.ticked(true, outcome).0.ticked(true, outcome).1 == Notification::Idle,
{
}

/// Any tick that finds something queued while the output is empty re-arms
/// the end-of-playback report, whether the front loads or not, so that the
/// next exhaustion is reported again.
pub proof fn lemma_advance_rearms_end_report(m: PlayerModel, outcome: Result<(), PlayerError>)
    requires
        m.queue.len() > 0,
    ensures
        !m.ticked(true, outcome).0.ended_reported,
        m.queue.len() == 1 ==> m.ticked(true, outcome).0.ticked(true, outcome).1
            == Notification::PlaybackEnded,
{
}

/// After a load the output holds exactly the new stream and is not paused
/// when the bytes decode; otherwise it was only stopped and holds nothing.
pub proof fn lemma_load_leaves_output(calls: Seq<DeviceCall>, contents: Option<Seq<u8>>, initially: bool)
    ensures
        contents is Some && decodes(contents->0) ==> loaded_after(calls + load_calls(contents))
            == contents && !paused_after(initially, calls + load_calls(contents)),
        !(contents is Some && decodes(contents->0)) ==> loaded_after(calls + load_calls(contents))
            is None && paused_after(initially, calls + load_calls(contents)) == paused_after(
            initially,
            calls,
        ),
{
    let all = calls + load_calls(contents);
    if contents is Some && decodes(contents->0) {
        let b = contents->0;
        assert(all.last() == DeviceCall::Play);
        assert(all.drop_last() =~= calls + seq![DeviceCall::Stop, DeviceCall::Append(b)]);
        assert(all.drop_last().last() == DeviceCall::Append(b));
        assert(loaded_after(all.drop_last()) == Some(b));
        assert(loaded_after(all) == loaded_after(all.drop_last()));
        assert(!paused_after(initially, all));
    } else {
        assert(all =~= calls.push(DeviceCall::Stop));
        assert(all.drop_last() =~= calls);
    }
}

/// A tick keeps the count of ticks within a second below a second.
pub proof fn lemma_tick_count_stays_below_a_second(
    m: PlayerModel,
    device_empty: bool,
    outcome: Result<(), PlayerError>,
)
    requires
        m.sub_ticks < crate::player::TICKS_PER_SECOND,
    ensures
        m.ticked(device_empty, outcome).0.sub_ticks < crate::player::TICKS_PER_SECOND,
{
}

/// No two queued tracks name the same file, and none names the file of the
/// current track.
pub open spec fn queue_clear_of_current(m: PlayerModel) -> bool {
    &&& forall|i: int, j: int|
        #![trigger m.queue[i], m.queue[j]]
        0 <= i < j < m.queue.len() ==> !m.queue[i].same_file(&m.queue[j])
    &&& forall|i: int|
        0 <= i < m.queue.len() && m.current is Some ==> !(#[trigger] m.queue[i]).same_file(
            &m.current->0,
        )
}

/// Whether some queued track names the file of `t`.
pub open spec fn queued_file(m: PlayerModel, t: Track) -> bool {
    exists|i: int| 0 <= i < m.queue.len() && (#[trigger] m.queue[i]).same_file(&t)
}

/// The queue never holds the current track. A play establishes this; a
/// skip, an autoplay advance, any other tick and a step back keep it; an
/// enqueue keeps it for a track that is neither current nor queued. It can
/// break only where the new track is one of those: enqueuing the current
/// track or one already queued, or stepping back to a track that is queued.
pub proof fn lemma_queue_never_holds_current(
    m: PlayerModel,
    t: Track,
    device_empty: bool,
    outcome: Result<(), PlayerError>,
)
    ensures
        queue_clear_of_current(m.played(t)),
        queue_clear_of_current(m) && !queued_file(m, t) && !(m.current is Some
            && t.same_file(&m.current->0)) ==> queue_clear_of_current(m.enqueued(t)),
        queue_clear_of_current(m) && m.queue.len() > 0 ==> queue_clear_of_current(m.skipped()),
        queue_clear_of_current(m) ==> queue_clear_of_current(m.ticked(device_empty, outcome).0),
        queue_clear_of_current(m) && m.history.len() > 0 && !queued_file(m, m.history.last())
            ==> queue_clear_of_current(m.went_back()),
{
    if queue_clear_of_current(m) && m.queue.len() > 0 {
        let s = m.skipped();
        assert forall|i: int| 0 <= i < s.queue.len() implies !(#[trigger] s.queue[i]).same_file(
            &s.current->0,
        ) by {
            assert(s.queue[i] == m.queue[i + 1]);
            assert(!m.queue[0].same_file(&m.queue[i + 1]));
        }
        assert forall|i: int, j: int| #![trigger s.queue[i], s.queue[j]] 0 <= i < j < s.queue.len() implies !s.queue[i].same_file(&s.queue[j]) by {
            assert(s.queue[i] == m.queue[i + 1]);
            assert(s.queue[j] == m.queue[j + 1]);
        }
    }
    if queue_clear_of_current(m) && m.queue.len() > 0 {
        let s = m.dropped_front();
        assert forall|i: int| 0 <= i < s.queue.len() && s.current is Some implies !(
        #[trigger] s.queue[i]).same_file(&s.current->0) by {
            assert(s.queue[i] == m.queue[i + 1]);
        }
        assert forall|i: int, j: int| #![trigger s.queue[i], s.queue[j]] 0 <= i < j < s.queue.len() implies !s.queue[i].same_file(&s.queue[j]) by {
            assert(s.queue[i] == m.queue[i + 1]);
            assert(s.queue[j] == m.queue[j + 1]);
        }
    }
    if queue_clear_of_current(m) && !queued_file(m, t) && !(m.current is Some && t.same_file(
        &m.current->0,
    )) {
        let s = m.enqueued(t);
        assert forall|i: int, j: int| #![trigger s.queue[i], s.queue[j]] 0 <= i < j < s.queue.len() implies !s.queue[i].same_file(&s.queue[j]) by {
            if j == m.queue.len() {
                assert(s.queue[i] == m.queue[i]);
            }
        }
        assert forall|i: int| 0 <= i < s.queue.len() && s.current is Some implies !(
        #[trigger] s.queue[i]).same_file(&s.current->0) by {
            if i < m.queue.len() {
                assert(s.queue[i] == m.queue[i]);
            }
        }
    }
    if queue_clear_of_current(m) && m.history.len() > 0 && !queued_file(m, m.history.last()) {
        let s = m.went_back();
        assert forall|i: int| 0 <= i < s.queue.len() && s.current is Some implies !(
        #[trigger] s.queue[i]).same_file(&s.current->0) by {
            if m.queue[i].same_file(&m.history.last()) {
                assert(queued_file(m, m.history.last()));
            }
        }
    }
}

} // verus!
