//! What holds of every turn, proved over the turn's model.

use vstd::prelude::*;
use crate::message::MessageView;
use crate::turn::{EventView, PhaseView, TurnView};
use crate::turn;

verus! {

/// A turn that is over stays as it is, and so does the conversation,
/// whatever is reported to it.
pub proof fn lemma_over_is_final(
    t: TurnView,
    messages: Seq<MessageView>,
    events: Seq<EventView>,
    names: Seq<Seq<char>>,
)
    requires
        turn::over(t.phase),
    ensures
        turn::run(t, messages, events, names) == (t, messages),
    decreases events.len(),
{
    if events.len() > 0 {
        lemma_over_is_final(t, messages, events.drop_first(), names);
    }
}

/// The count of refinements never passes its cap, and the cap, the input
/// and, once routed, the choice stay as they are.
pub proof fn lemma_iterations_within_cap(
    t: TurnView,
    messages: Seq<MessageView>,
    events: Seq<EventView>,
    names: Seq<Seq<char>>,
)
    requires
        t.iterations <= t.max_iterations,
    ensures
        turn::run(t, messages, events, names).0.iterations <= t.max_iterations,
        turn::run(t, messages, events, names).0.iterations >= t.iterations,
        turn::run(t, messages, events, names).0.max_iterations == t.max_iterations,
        turn::run(t, messages, events, names).0.input == t.input,
        !(t.phase is Routing) ==> turn::run(t, messages, events, names).0.choice == t.choice,
        !(t.phase is Routing) ==> !(turn::run(t, messages, events, names).0.phase is Routing),
    decreases events.len(),
{
    if events.len() > 0 {
        lemma_iterations_within_cap(
            turn::next_turn(t, events[0], names),
            turn::next_messages(t, messages, events[0]),
            events.drop_first(),
            names,
        );
    }
}

/// One step appends a response at most once: together with the follow-up
/// when a refinement supersedes it, alone when it becomes final. No other
/// step appends anything, and nothing that was there changes.
pub proof fn lemma_step_appends(
    t: TurnView,
    messages: Seq<MessageView>,
    event: EventView,
    names: Seq<Seq<char>>,
)
    ensures
        ({
            let after = turn::next_turn(t, event, names);
            let appended = turn::next_messages(t, messages, event);
            &&& turn::finished(t.phase) ==> after == t && appended == messages
            &&& !turn::finished(t.phase) && turn::finished(after.phase) ==> appended
                == messages.push(turn::final_response(after.phase)) && after.iterations
                == t.iterations
            &&& !turn::finished(after.phase) && after.iterations == t.iterations ==> appended
                == messages
            &&& after.iterations != t.iterations ==> {
                &&& after.iterations == t.iterations + 1
                &&& t.phase is Evaluating
                &&& after.phase is Responding
                &&& appended == messages.push(t.phase->Evaluating_0).push(
                    crate::orchestrator::follow_up_of(turn::reason_in(event->Reply_0)),
                )
            }
        }),
{
}

/// Over a whole turn, each refinement appends two messages, the superseded
/// response and the follow-up, and the end of the turn appends exactly
/// one, the final response. The conversation as it stood is kept in front.
pub proof fn lemma_single_terminal_append(
    t: TurnView,
    messages: Seq<MessageView>,
    events: Seq<EventView>,
    names: Seq<Seq<char>>,
)
    ensures
        ({
            let (after, appended) = turn::run(t, messages, events, names);
            let ends = !turn::finished(t.phase) && turn::finished(after.phase);
            &&& messages.is_prefix_of(appended)
            &&& after.iterations >= t.iterations
            &&& appended.len() == messages.len() + 2 * (after.iterations - t.iterations) + (if ends {
                1nat
            } else {
                0nat
            })
            &&& ends ==> appended.last() == turn::final_response(after.phase)
            &&& turn::finished(t.phase) ==> turn::finished(after.phase)
        }),
    decreases events.len(),
{
    if events.len() > 0 {
        let t1 = turn::next_turn(t, events[0], names);
        let m1 = turn::next_messages(t, messages, events[0]);
        lemma_step_appends(t, messages, events[0], names);
        lemma_single_terminal_append(t1, m1, events.drop_first(), names);
        if turn::over(t1.phase) {
            lemma_over_is_final(t1, m1, events.drop_first(), names);
        }
        let (after, appended) = turn::run(t1, m1, events.drop_first(), names);
        assert(messages.is_prefix_of(m1));
        assert(messages.is_prefix_of(appended)) by {
            assert(appended.subrange(0, messages.len() as int) =~= m1.subrange(
                0,
                messages.len() as int,
            ));
        }
    }
}

/// Behind one round, the agent's response and the evaluator's reply, the
/// rest of the replies are again those of an evaluator that never has
/// enough.
pub proof fn lemma_next_round(events: Seq<EventView>)
    requires
        events.len() >= 2,
        turn::always_needs_more_work(events),
    ensures
        turn::always_needs_more_work(events.drop_first().drop_first()),
{
    let tail = events.drop_first().drop_first();
    assert forall|i: int| 0 <= i < tail.len() implies {
        &&& (#[trigger] tail[i]) is Reply
        &&& i % 2 == 1 ==> crate::decision::decision_of(
            crate::text::normalized(tail[i]->Reply_0.content),
        ) is NeedsMoreWork
    } by {
        assert(tail[i] == events[i + 2]);
    }
}

/// The refinements are bounded. From the moment an agent is asked, with
/// `k` refinements behind it, an evaluator that always asks for more work
/// gets exactly the refinements that the cap leaves: after the agent's
/// response to the last of them the turn ends on the cap, with that
/// response as the final one, and the evaluator is not asked again.
pub proof fn lemma_iteration_bound(
    t: TurnView,
    messages: Seq<MessageView>,
    events: Seq<EventView>,
    names: Seq<Seq<char>>,
)
    requires
        t.phase is Responding,
        t.iterations <= t.max_iterations,
        turn::always_needs_more_work(events),
        events.len() == 2 * (t.max_iterations - t.iterations) + 1,
    ensures
        ({
            let (after, appended) = turn::run(t, messages, events, names);
            &&& after.phase == PhaseView::IterationLimitReached(events.last()->Reply_0)
            &&& after.iterations == t.max_iterations
            &&& appended.len() == messages.len() + 2 * (t.max_iterations - t.iterations) + 1
            &&& appended.last() == events.last()->Reply_0
        }),
    decreases t.max_iterations - t.iterations,
{
    assert(events[0] is Reply);
    let t1 = turn::next_turn(t, events[0], names);
    let m1 = turn::next_messages(t, messages, events[0]);
    let rest = events.drop_first();
    if t.iterations == t.max_iterations {
        assert(rest.len() == 0);
        assert(turn::run(t1, m1, rest, names) == (t1, m1));
    } else {
        assert(events[1] is Reply);
        assert(rest[0] == events[1]);
        let t2 = turn::next_turn(t1, rest[0], names);
        let m2 = turn::next_messages(t1, m1, rest[0]);
        let tail = rest.drop_first();
        assert(turn::refines(t1, events[1]->Reply_0));
        assert(turn::run(t, messages, events, names) == turn::run(t1, m1, rest, names));
        assert(turn::run(t1, m1, rest, names) == turn::run(t2, m2, tail, names));
        lemma_next_round(events);
        assert(tail.last() == events.last());
        lemma_iteration_bound(t2, m2, tail, names);
    }
}

/// While the turn started with room under the cap has not ended, fewer
/// events than a full run of refinements leave it unfinished: the cap is
/// reached by no shorter way.
pub proof fn lemma_no_early_limit(
    t: TurnView,
    messages: Seq<MessageView>,
    events: Seq<EventView>,
    names: Seq<Seq<char>>,
)
    requires
        t.phase is Responding,
        t.iterations <= t.max_iterations,
        turn::always_needs_more_work(events),
        events.len() < 2 * (t.max_iterations - t.iterations) + 1,
    ensures
        !turn::over(turn::run(t, messages, events, names).0.phase),
    decreases events.len(),
{
    if events.len() > 0 {
        assert(events[0] is Reply);
        let t1 = turn::next_turn(t, events[0], names);
        let m1 = turn::next_messages(t, messages, events[0]);
        let rest = events.drop_first();
        if rest.len() > 0 {
            assert(rest[0] == events[1]);
            assert(events[1] is Reply);
            let t2 = turn::next_turn(t1, rest[0], names);
            let m2 = turn::next_messages(t1, m1, rest[0]);
            let tail = rest.drop_first();
            assert(turn::refines(t1, events[1]->Reply_0));
            assert(turn::run(t, messages, events, names) == turn::run(t1, m1, rest, names));
            assert(turn::run(t1, m1, rest, names) == turn::run(t2, m2, tail, names));
            lemma_next_round(events);
            lemma_no_early_limit(t2, m2, tail, names);
        } else {
            assert(turn::run(t1, m1, rest, names) == (t1, m1));
        }
    }
}

/// The bound, from the start of a turn: after the router's reply, an
/// evaluator that always asks for more work gets exactly as many
/// refinements as the cap allows, and the turn then ends on the cap with
/// the agent's last response as the final one. The conversation has grown
/// by two messages per refinement and by the final response.
pub proof fn lemma_turn_is_bounded(
    t: TurnView,
    messages: Seq<MessageView>,
    events: Seq<EventView>,
    names: Seq<Seq<char>>,
)
    requires
        t.phase is Routing,
        t.iterations == 0,
        events.len() == 2 * t.max_iterations + 2,
        events[0] is Reply,
        turn::always_needs_more_work(events.drop_first()),
    ensures
        ({
            let (after, appended) = turn::run(t, messages, events, names);
            &&& after.phase == PhaseView::IterationLimitReached(events.last()->Reply_0)
            &&& after.iterations == t.max_iterations
            &&& appended.len() == messages.len() + 2 * t.max_iterations + 1
            &&& messages.is_prefix_of(appended)
        }),
{
    let t1 = turn::next_turn(t, events[0], names);
    let m1 = turn::next_messages(t, messages, events[0]);
    let rest = events.drop_first();
    assert(turn::run(t, messages, events, names) == turn::run(t1, m1, rest, names));
    assert(rest.last() == events.last());
    lemma_iteration_bound(t1, m1, rest, names);
    lemma_single_terminal_append(t, messages, events, names);
}

} // verus!
