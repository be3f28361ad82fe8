//! Runs of the update flow: what a sequence of events leads to, and the laws
//! that every run obeys.
use vstd::prelude::*;
use crate::coordinator::{initial, next, Action, Coordinator, Event, Outcome, Phase};

verus! {

/// The state reached from `s` after the events, in order.
pub open spec fn run(s: Coordinator, events: Seq<Event>) -> Coordinator
    decreases events.len(),
{
    if events.len() == 0 {
        s
    } else {
        next(run(s, events.drop_last()), events.last()).0
    }
}

/// The action asked for on the event at position `i`.
pub open spec fn action_at(s: Coordinator, events: Seq<Event>, i: int) -> Action {
    next(run(s, events.take(i)), events[i]).1
}

/// One `Chunk` event for each length, in order.
pub open spec fn chunk_events(lens: Seq<u64>) -> Seq<Event> {
    lens.map_values(|len: u64| Event::Chunk { len })
}

/// The sum of the lengths.
pub open spec fn total_len(lens: Seq<u64>) -> int
    decreases lens.len(),
{
    if lens.len() == 0 {
        0
    } else {
        total_len(lens.drop_last()) + lens.last()
    }
}

/// Running the events of `a` and then those of `b` is running `a + b`.
pub proof fn lemma_run_append(s: Coordinator, a: Seq<Event>, b: Seq<Event>)
    ensures
        run(s, a + b) == run(run(s, a), b),
    decreases b.len(),
{
    if b.len() == 0 {
        assert(a + b =~= a);
    } else {
        lemma_run_append(s, a, b.drop_last());
        assert((a + b).drop_last() =~= a + b.drop_last());
        assert((a + b).last() == b.last());
    }
}

/// The state after the first `j` events is the state after the first `i`,
/// run on through the events from `i` to `j`.
proof fn lemma_run_take(s: Coordinator, events: Seq<Event>, i: int, j: int)
    requires
        0 <= i <= j <= events.len(),
    ensures
        run(s, events.take(j)) == run(run(s, events.take(i)), events.subrange(i, j)),
{
    lemma_run_append(s, events.take(i), events.subrange(i, j));
    assert(events.take(i) + events.subrange(i, j) =~= events.take(j));
}

/// A finished flow stays as it is and asks for nothing, whatever events
/// follow.
pub proof fn lemma_finished_is_absorbing(s: Coordinator, events: Seq<Event>)
    requires
        s.phase is Finished,
    ensures
        run(s, events) == s,
        forall|i: int| 0 <= i < events.len() ==> action_at(s, events, i) == Action::Nothing,
    decreases events.len(),
{
    if events.len() > 0 {
        lemma_finished_is_absorbing(s, events.drop_last());
    }
    assert forall|i: int| 0 <= i < events.len() implies action_at(s, events, i) == Action::Nothing by {
        lemma_finished_is_absorbing(s, events.take(i));
    }
}

/// Once the flow has finished at event `i`, it asks for nothing more and ends
/// in the state it finished in.
proof fn lemma_nothing_after_finish(s: Coordinator, events: Seq<Event>, i: int)
    requires
        0 <= i < events.len(),
        run(s, events.take(i + 1)).phase is Finished,
    ensures
        run(s, events) == run(s, events.take(i + 1)),
        forall|j: int| i < j < events.len() ==> action_at(s, events, j) == Action::Nothing,
{
    let f = run(s, events.take(i + 1));
    let rest = events.subrange(i + 1, events.len() as int);
    lemma_finished_is_absorbing(f, rest);
    lemma_run_take(s, events, i + 1, events.len() as int);
    assert(events.take(events.len() as int) =~= events);
    assert forall|j: int| i < j < events.len() implies action_at(s, events, j) == Action::Nothing by {
        lemma_run_take(s, events, i + 1, j);
        assert(events.subrange(i + 1, j) =~= rest.take(j - (i + 1)));
        assert(action_at(f, rest, j - (i + 1)) == Action::Nothing);
    }
}

/// When the update source, asked at event `i`, offers nothing newer or
/// cannot be reached, the flow asks for no download or installation, nor for
/// anything else, and ends with nothing to do.
pub proof fn lemma_no_newer_release_no_download(s: Coordinator, events: Seq<Event>, i: int)
    requires
        0 <= i < events.len(),
        run(s, events.take(i)).phase == Phase::Checking,
        events[i] == Event::NoUpdate || events[i] == Event::CheckFailed,
    ensures
        forall|j: int| i <= j < events.len() ==> action_at(s, events, j) == Action::Nothing,
        run(s, events).phase == Phase::Finished(Outcome::NothingToDo),
{
    assert(events.take(i + 1).drop_last() =~= events.take(i));
    lemma_nothing_after_finish(s, events, i);
}

/// When the updater client cannot be built at event `i`, the flow reports it
/// once, asks for nothing more, and ends without a download.
pub proof fn lemma_client_failure_ends_flow(s: Coordinator, events: Seq<Event>, i: int)
    requires
        0 <= i < events.len(),
        run(s, events.take(i)).phase == Phase::BuildingClient,
        events[i] == Event::ClientFailed,
    ensures
        action_at(s, events, i) == Action::ReportClientFailure,
        forall|j: int| i < j < events.len() ==> action_at(s, events, j) == Action::Nothing,
        run(s, events).phase == Phase::Finished(Outcome::ClientUnavailable),
{
    assert(events.take(i + 1).drop_last() =~= events.take(i));
    lemma_nothing_after_finish(s, events, i);
}

/// The byte counter never goes down as the events of a run come in.
pub proof fn lemma_counter_never_decreases(s: Coordinator, events: Seq<Event>, i: int, j: int)
    requires
        0 <= i <= j <= events.len(),
    ensures
        run(s, events.take(i)).downloaded <= run(s, events.take(j)).downloaded,
    decreases j - i,
{
    if i < j {
        lemma_counter_never_decreases(s, events, i, j - 1);
        assert(events.take(j).drop_last() =~= events.take(j - 1));
    }
}

/// Successive progress reports of a run never show fewer bytes than the one
/// before.
pub proof fn lemma_progress_reports_never_decrease(s: Coordinator, events: Seq<Event>, i: int, j: int)
    requires
        0 <= i < j < events.len(),
        action_at(s, events, i) is ReportProgress,
        action_at(s, events, j) is ReportProgress,
    ensures
        action_at(s, events, i)->ReportProgress_downloaded <= action_at(s, events, j)->ReportProgress_downloaded,
{
    assert(events.take(i + 1).drop_last() =~= events.take(i));
    assert(events.take(j + 1).drop_last() =~= events.take(j));
    lemma_counter_never_decreases(s, events, i + 1, j + 1);
}

/// While downloading, the chunks add their lengths to the byte counter
/// (held at `u64::MAX`), and the flow stays in the download.
pub proof fn lemma_chunks_add_up(s: Coordinator, lens: Seq<u64>)
    requires
        s.phase == Phase::Downloading,
    ensures
        run(s, chunk_events(lens)).phase == Phase::Downloading,
        run(s, chunk_events(lens)).total == s.total,
        run(s, chunk_events(lens)).downloaded == if s.downloaded + total_len(lens) > u64::MAX {
            u64::MAX as int
        } else {
            s.downloaded + total_len(lens)
        },
    decreases lens.len(),
{
    if lens.len() > 0 {
        lemma_chunks_add_up(s, lens.drop_last());
        assert(chunk_events(lens).drop_last() =~= chunk_events(lens.drop_last()));
    }
}

/// A flow that finds a newer release of known size, and receives chunks
/// whose lengths add up to that size, has counted exactly that many bytes
/// after the last chunk, and reported it.
pub proof fn lemma_counter_reaches_size(size: u64, lens: Seq<u64>)
    requires
        total_len(lens) == size,
    ensures
        ({
            let events = seq![
                Event::Start,
                Event::ClientReady,
                Event::UpdateFound { content_length: Some(size) },
            ] + chunk_events(lens);
            &&& run(initial(), events).downloaded == size
            &&& run(initial(), events).phase == Phase::Downloading
            &&& lens.len() > 0 ==> action_at(initial(), events, events.len() - 1)
                == (Action::ReportProgress { downloaded: size, total: Some(size) })
        }),
{
    let head = seq![
        Event::Start,
        Event::ClientReady,
        Event::UpdateFound { content_length: Some(size) },
    ];
    let events = head + chunk_events(lens);
    let one = seq![Event::Start];
    let two = seq![Event::Start, Event::ClientReady];
    assert(one.drop_last() =~= Seq::<Event>::empty());
    assert(two.drop_last() =~= one);
    assert(head.drop_last() =~= two);
    assert(run(initial(), Seq::<Event>::empty()) == initial());
    assert(one.last() == Event::Start);
    assert(run(initial(), one).phase == Phase::BuildingClient);
    assert(run(initial(), two).phase == Phase::Checking);
    let d = run(initial(), head);
    assert(d == Coordinator { phase: Phase::Downloading, downloaded: 0, total: Some(size) });
    lemma_run_append(initial(), head, chunk_events(lens));
    lemma_chunks_add_up(d, lens);
    if lens.len() > 0 {
        assert(events.take(events.len() - 1) =~= events.drop_last());
        assert(events.drop_last() =~= head + chunk_events(lens.drop_last()));
        lemma_run_append(initial(), head, chunk_events(lens.drop_last()));
        lemma_chunks_add_up(d, lens.drop_last());
    }
}

} // verus!
