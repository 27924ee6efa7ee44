//! Whole runs of the sampling machine, and what holds of every run.
//!
//! A run feeds a sequence of events to the machine one after another. The
//! order is the order in which the machine sees them: with the machine held
//! under mutual exclusion, any interleaving of the sampling loop and the
//! interrupt is one such sequence.

use vstd::prelude::*;

use crate::report::report_text;
use crate::sampler::{
    cpu_delta, initial, is_trigger, percentage, transition, Effect, Event, Phase, SamplerState,
};
use crate::status::{cpu_column, memory_column, Sample};

verus! {

/// The state after all of `events`, fed in order.
pub open spec fn run(state: SamplerState, events: Seq<Event>) -> SamplerState
    decreases events.len(),
{
    if events.len() == 0 {
        state
    } else {
        transition(run(state, events.drop_last()), events.last()).0
    }
}

/// The answers to `events`, one for each, in order.
pub open spec fn effects(state: SamplerState, events: Seq<Event>) -> Seq<Effect>
    decreases events.len(),
{
    if events.len() == 0 {
        Seq::empty()
    } else {
        effects(state, events.drop_last()).push(
            transition(run(state, events.drop_last()), events.last()).1,
        )
    }
}

/// How many of `answers` hand out a report.
pub open spec fn report_count(answers: Seq<Effect>) -> nat
    decreases answers.len(),
{
    if answers.len() == 0 {
        0
    } else {
        report_count(answers.drop_last()) + if answers.last() is Report {
            1nat
        } else {
            0nat
        }
    }
}

/// The samples that `answers` announce as recorded, in order.
pub open spec fn recorded(answers: Seq<Effect>) -> Seq<Sample>
    decreases answers.len(),
{
    if answers.len() == 0 {
        Seq::empty()
    } else {
        match answers.last() {
            Effect::Recorded(sample) => recorded(answers.drop_last()).push(sample),
            _ => recorded(answers.drop_last()),
        }
    }
}

/// Whether some event of `events` ends monitoring.
pub open spec fn has_trigger(events: Seq<Event>) -> bool {
    exists|i: int| 0 <= i < events.len() && is_trigger(#[trigger] events[i])
}

/// Answer `i` of a run is the machine's answer to event `i` in the state
/// that the events before it led to.
pub proof fn lemma_effects_index(state: SamplerState, events: Seq<Event>, i: int)
    requires
        0 <= i < events.len(),
    ensures
        effects(state, events).len() == events.len(),
        effects(state, events)[i] == transition(run(state, events.take(i)), events[i]).1,
        run(state, events.take(i + 1)) == transition(run(state, events.take(i)), events[i]).0,
    decreases events.len(),
{
    let front = events.drop_last();
    lemma_effects_len(state, events);
    assert(events.take(i + 1).drop_last() == events.take(i));
    if i < events.len() - 1 {
        lemma_effects_index(state, front, i);
        assert(front.take(i) == events.take(i));
    } else {
        assert(events.take(i) == front);
    }
}

/// A run answers every event.
pub proof fn lemma_effects_len(state: SamplerState, events: Seq<Event>)
    ensures
        effects(state, events).len() == events.len(),
    decreases events.len(),
{
    if events.len() > 0 {
        lemma_effects_len(state, events.drop_last());
    }
}

/// A finished machine stays as it is and hands out nothing more.
pub proof fn lemma_done_is_final(state: SamplerState, events: Seq<Event>)
    requires
        state.phase is Done,
    ensures
        run(state, events) == state,
        report_count(effects(state, events)) == 0,
        recorded(effects(state, events)) == Seq::<Sample>::empty(),
        forall|i: int| 0 <= i < events.len() ==> #[trigger] effects(state, events)[i] is Stop,
    decreases events.len(),
{
    if events.len() > 0 {
        let front = events.drop_last();
        lemma_done_is_final(state, front);
        lemma_effects_len(state, front);
        assert(effects(state, events).drop_last() == effects(state, front));
        assert forall|i: int| 0 <= i < events.len() implies #[trigger] effects(
            state,
            events,
        )[i] is Stop by {
            if i < front.len() {
                assert(effects(state, events)[i] == effects(state, front)[i]);
            }
        }
    }
}

/// The report is handed out exactly once: never twice in any run, and once
/// in every run, from a machine still at work, in which monitoring ends.
/// Until then the machine is at work; from then on it is finished.
pub proof fn lemma_report_exactly_once(state: SamplerState, events: Seq<Event>)
    ensures
        report_count(effects(state, events)) <= 1,
        state.phase is Done ==> report_count(effects(state, events)) == 0,
        state.phase !is Done ==> (report_count(effects(state, events)) == 1 <==> has_trigger(
            events,
        )),
        state.phase !is Done ==> (run(state, events).phase is Done <==> has_trigger(events)),
    decreases events.len(),
{
    if state.phase is Done {
        lemma_done_is_final(state, events);
    } else if events.len() > 0 {
        let front = events.drop_last();
        lemma_report_exactly_once(state, front);
        lemma_effects_len(state, front);
        assert(effects(state, events).drop_last() == effects(state, front));
        if has_trigger(front) {
            let i = choose|i: int| 0 <= i < front.len() && is_trigger(#[trigger] front[i]);
            assert(is_trigger(events[i]));
        } else if is_trigger(events.last()) {
            assert(is_trigger(events[events.len() - 1]));
        } else {
            assert forall|i: int| 0 <= i < events.len() implies !is_trigger(
                #[trigger] events[i],
            ) by {
                if i < front.len() {
                    assert(front[i] == events[i]);
                }
            }
        }
    }
}

/// The report that answer `i` hands out is the report on the samples
/// recorded before event `i`, that event ends monitoring, and the samples
/// are the same at the end of the run however long it goes on.
pub proof fn lemma_report_is_snapshot(state: SamplerState, events: Seq<Event>, i: int)
    requires
        0 <= i < events.len(),
        effects(state, events)[i] is Report,
    ensures
        is_trigger(events[i]),
        effects(state, events)[i] == Effect::Report(
            report_text(run(state, events.take(i)).samples),
        ),
        run(state, events).samples == run(state, events.take(i)).samples,
        run(state, events).phase is Done,
{
    lemma_effects_index(state, events, i);
    let after = run(state, events.take(i + 1));
    assert(after.phase is Done);
    lemma_run_split(state, events, i + 1);
    lemma_done_is_final(after, events.skip(i + 1));
}

/// A run over `events` is a run over the first `i` of them followed by a
/// run over the rest.
pub proof fn lemma_run_split(state: SamplerState, events: Seq<Event>, i: int)
    requires
        0 <= i <= events.len(),
    ensures
        run(state, events) == run(run(state, events.take(i)), events.skip(i)),
        effects(state, events) == effects(state, events.take(i)) + effects(
            run(state, events.take(i)),
            events.skip(i),
        ),
    decreases events.len(),
{
    if i == events.len() {
        assert(events.take(i) == events);
        assert(events.skip(i) == Seq::<Event>::empty());
    } else {
        let front = events.drop_last();
        lemma_run_split(state, front, i);
        assert(front.take(i) == events.take(i));
        assert(events.skip(i).drop_last() == front.skip(i));
        assert(events.skip(i).last() == events.last());
    }
}

/// The samples held after a run are those held before it followed by the
/// samples of the ticks completed during it, in the order of completion:
/// sample `i` belongs to the tick that was completed `i`-th.
pub proof fn lemma_samples_in_tick_order(state: SamplerState, events: Seq<Event>)
    ensures
        run(state, events).samples == state.samples + recorded(effects(state, events)),
    decreases events.len(),
{
    if events.len() > 0 {
        let front = events.drop_last();
        lemma_samples_in_tick_order(state, front);
        lemma_effects_len(state, front);
        assert(effects(state, events).drop_last() == effects(state, front));
    }
}

/// Going on with a run never changes a sample already recorded: what was
/// held after the first `i` events is the front of what is held at the end.
pub proof fn lemma_samples_only_grow(state: SamplerState, events: Seq<Event>, i: int)
    requires
        0 <= i <= events.len(),
    ensures
        run(state, events.take(i)).samples.is_prefix_of(run(state, events).samples),
{
    lemma_run_split(state, events, i);
    lemma_samples_in_tick_order(run(state, events.take(i)), events.skip(i));
}

/// The report of a run from the start lists exactly the samples of the
/// ticks completed before monitoring ended, oldest first and as many in one
/// column as in the other, and nothing changes them afterwards.
pub proof fn lemma_final_report(events: Seq<Event>, i: int)
    requires
        0 <= i < events.len(),
        effects(initial(), events)[i] is Report,
    ensures
        ({
            let samples = recorded(effects(initial(), events.take(i)));
            &&& effects(initial(), events)[i] == Effect::Report(report_text(samples))
            &&& run(initial(), events).samples == samples
            &&& memory_column(samples).len() == samples.len()
            &&& cpu_column(samples).len() == samples.len()
        }),
{
    lemma_report_is_snapshot(initial(), events, i);
    lemma_samples_in_tick_order(initial(), events.take(i));
    assert(Seq::<Sample>::empty() + recorded(effects(initial(), events.take(i))) == recorded(
        effects(initial(), events.take(i)),
    ));
}

/// A tick whose CPU time reads lower at its end than at its start is
/// recorded with a utilisation of zero, and any other tick with the
/// utilisation that its consumed time amounts to.
pub proof fn lemma_tick_sample(samples: Seq<Sample>, cpu_before: u64, memory: u64, cpu_after: u64)
    ensures
        ({
            let state = SamplerState { phase: Phase::Sleeping { cpu_before }, samples };
            let (next, answer) = transition(state, Event::Sampled { memory, cpu_after });
            &&& next.phase is Idle
            &&& next.samples == samples.push(next.samples.last())
            &&& answer == Effect::Recorded(next.samples.last())
            &&& next.samples.last().memory == memory
            &&& next.samples.last().cpu == percentage(cpu_delta(cpu_before, cpu_after))
            &&& cpu_after < cpu_before ==> next.samples.last().cpu == 0
            &&& cpu_after >= cpu_before ==> next.samples.last().cpu == cpu_after - cpu_before
        }),
{
}

} // verus!
