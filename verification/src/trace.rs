//! Runs of a streamer: what it asks of the driver over a whole sequence of
//! reports, and what the listener of the channel therefore sees.

use vstd::prelude::*;
use crate::subscription::next;
use crate::subscription::result_emission;
use crate::subscription::sentinel_emission;
use crate::subscription::ActionView;
use crate::subscription::EmissionView;
use crate::subscription::EventView;
use crate::subscription::PayloadView;
use crate::subscription::Phase;
use crate::subscription::StreamerView;

verus! {

/// The streamer of the subscription `id` before its first poll.
pub open spec fn fresh(id: u32) -> StreamerView {
    StreamerView { id, phase: Phase::Polling }
}

/// Follows the rule from `state` through `events`: the state reached, and
/// what was asked of the driver on the way. Reports that the rule refuses
/// are passed over.
pub open spec fn run(state: StreamerView, events: Seq<EventView>) -> (StreamerView, Seq<ActionView>)
    decreases events.len(),
{
    if events.len() == 0 {
        (state, Seq::empty())
    } else {
        let (before, asked) = run(state, events.drop_last());
        match next(before, events.last()) {
            Some((after, action)) => (after, asked.push(action)),
            None => (before, asked),
        }
    }
}

/// The emissions among `actions`, in order.
pub open spec fn emissions(actions: Seq<ActionView>) -> Seq<EmissionView>
    decreases actions.len(),
{
    if actions.len() == 0 {
        Seq::empty()
    } else {
        let earlier = emissions(actions.drop_last());
        match actions.last() {
            ActionView::Emit(emission) => earlier.push(emission),
            _ => earlier,
        }
    }
}

/// Every emission is a result on the channel of the subscription `id`.
pub open spec fn results_only(id: u32, emitted: Seq<EmissionView>) -> bool {
    forall|i: int|
        0 <= i < emitted.len() ==> (#[trigger] emitted[i]).payload is Text && emitted[i].channel
            == crate::channel::channel_name(id)
}

/// Results on the channel of the subscription `id`, then the sentinel on the
/// same channel, and nothing after it.
pub open spec fn results_then_sentinel(id: u32, emitted: Seq<EmissionView>) -> bool {
    &&& emitted.len() >= 1
    &&& results_only(id, emitted.drop_last())
    &&& emitted.last() == sentinel_emission(id)
}

/// The reports of a run in which nothing fails: each of `items` is polled and
/// delivered in turn, then the stream ends and the sentinel is delivered.
pub open spec fn complete_reports(items: Seq<Seq<char>>) -> Seq<EventView>
    decreases items.len(),
{
    if items.len() == 0 {
        seq![EventView::Exhausted, EventView::Delivered]
    } else {
        seq![EventView::Item(items.first()), EventView::Delivered] + complete_reports(
            items.drop_first(),
        )
    }
}

/// What the listener of the subscription `id` is sent when `items` are
/// relayed and the sequence is closed: each item in order, then the sentinel.
pub open spec fn relayed(id: u32, items: Seq<Seq<char>>) -> Seq<EmissionView> {
    Seq::new(items.len(), |i: int| result_emission(id, items[i])).push(sentinel_emission(id))
}

/// Adding one action adds its emission, if it has one.
pub proof fn lemma_emissions_push(actions: Seq<ActionView>, action: ActionView)
    ensures
        emissions(actions.push(action)) == match action {
            ActionView::Emit(emission) => emissions(actions).push(emission),
            _ => emissions(actions),
        },
{
    assert(actions.push(action).drop_last() =~= actions);
}

/// The emissions of two runs of actions, one after the other, are the
/// emissions of the first followed by those of the second.
pub proof fn lemma_emissions_concat(first: Seq<ActionView>, second: Seq<ActionView>)
    ensures
        emissions(first + second) == emissions(first) + emissions(second),
    decreases second.len(),
{
    if second.len() > 0 {
        let shorter = second.drop_last();
        lemma_emissions_concat(first, shorter);
        assert((first + second).drop_last() =~= first + shorter);
    }
}

/// A run through two sequences of reports, one after the other, is the run
/// through the first followed, from where it ended, by the run through the
/// second.
pub proof fn lemma_run_concat(state: StreamerView, first: Seq<EventView>, second: Seq<EventView>)
    ensures
        run(state, first + second) == ({
            let (middle, asked) = run(state, first);
            let (end, then_asked) = run(middle, second);
            (end, asked + then_asked)
        }),
    decreases second.len(),
{
    if second.len() > 0 {
        let shorter = second.drop_last();
        lemma_run_concat(state, first, shorter);
        assert((first + second).drop_last() =~= first + shorter);
    }
}

/// The identifier of a subscription never changes.
pub proof fn lemma_run_keeps_id(state: StreamerView, events: Seq<EventView>)
    ensures
        run(state, events).0.id == state.id,
    decreases events.len(),
{
    if events.len() > 0 {
        lemma_run_keeps_id(state, events.drop_last());
    }
}

/// Once a subscription is finished or aborted, no report moves it and
/// nothing more is asked of the driver: no event follows the sentinel, and
/// none follows a failure.
pub proof fn lemma_ended_stays_ended(state: StreamerView, events: Seq<EventView>)
    requires
        state.phase == Phase::Finished || state.phase == Phase::Failed,
    ensures
        run(state, events) == (state, Seq::<ActionView>::empty()),
    decreases events.len(),
{
    if events.len() > 0 {
        lemma_ended_stays_ended(state, events.drop_last());
    }
}

/// Whatever the driver reports, and in whatever order, the emissions that a
/// subscription asks for are results on its own channel, followed by at most
/// one sentinel, which is then the last emission. While the subscription
/// polls or relays no sentinel was asked for; once it closes or has finished,
/// exactly one was, after every result.
pub proof fn lemma_emission_order(id: u32, events: Seq<EventView>)
    ensures
        ({
            let (state, asked) = run(fresh(id), events);
            let emitted = emissions(asked);
            &&& results_only(id, emitted) || results_then_sentinel(id, emitted)
            &&& state.phase == Phase::Polling || state.phase == Phase::Relaying ==> results_only(
                id,
                emitted,
            )
            &&& state.phase == Phase::Closing || state.phase == Phase::Finished
                ==> results_then_sentinel(id, emitted)
        }),
    decreases events.len(),
{
    if events.len() > 0 {
        let earlier = events.drop_last();
        lemma_emission_order(id, earlier);
        lemma_run_keeps_id(fresh(id), earlier);
        let (before, asked) = run(fresh(id), earlier);
        match next(before, events.last()) {
            Some((after, action)) => {
                lemma_emissions_push(asked, action);
            },
            None => {},
        }
    }
}

/// A run in which nothing fails finishes the subscription, and its emissions
/// are exactly the items, in the order in which the engine produced them, and
/// then the sentinel.
pub proof fn lemma_complete_run(id: u32, items: Seq<Seq<char>>)
    ensures
        run(fresh(id), complete_reports(items)).0 == (StreamerView { id, phase: Phase::Finished }),
        emissions(run(fresh(id), complete_reports(items)).1) == relayed(id, items),
    decreases items.len(),
{
    let start = fresh(id);
    let nothing = Seq::<ActionView>::empty();
    if items.len() == 0 {
        // Exhausted, then Delivered: the sentinel is asked for, then the end.
        let reports = complete_reports(items);
        let sentinel = ActionView::Emit(sentinel_emission(id));
        let closing = StreamerView { id, phase: Phase::Closing };
        assert(run(start, reports.drop_last().drop_last()) == (start, nothing));
        assert(run(start, reports.drop_last()) == (closing, nothing.push(sentinel)));
        lemma_emissions_push(nothing, sentinel);
        lemma_emissions_push(nothing.push(sentinel), ActionView::Finish);
    } else {
        // The first item is relayed and delivered, which leaves the streamer
        // where it started; the rest follows by induction.
        let head = seq![EventView::Item(items.first()), EventView::Delivered];
        let rest = items.drop_first();
        let first = ActionView::Emit(result_emission(id, items.first()));
        lemma_complete_run(id, rest);
        lemma_run_concat(start, head, complete_reports(rest));
        let relaying = StreamerView { id, phase: Phase::Relaying };
        assert(run(start, head.drop_last().drop_last()) == (start, nothing));
        assert(run(start, head.drop_last()) == (relaying, nothing.push(first)));
        lemma_emissions_push(nothing, first);
        lemma_emissions_push(nothing.push(first), ActionView::Poll);
        lemma_emissions_concat(run(start, head).1, run(start, complete_reports(rest)).1);
    }
}

} // verus!
