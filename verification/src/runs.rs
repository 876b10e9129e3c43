//! Whole runs of the bootstrap flow, and what holds of every run.
//!
//! A run is a flow at some point together with the inputs it is given from
//! there on, in order. The statements below are about every such run,
//! whatever the caller reports and in whatever order.

use crate::bootstrap::{
    boot_input, boot_step, BootActionView, BootEventView, BootInput, BootModel, BootState,
    BootStepView,
};
use vstd::prelude::*;

verus! {

/// The flow after it was given `inputs` in order, starting from `start`.
pub open spec fn boot_run(start: BootModel, inputs: Seq<BootInput>) -> BootModel
    decreases inputs.len(),
{
    if inputs.len() == 0 {
        start
    } else {
        boot_step(boot_run(start, inputs.drop_last()), inputs.last()).next
    }
}

/// The answer of the flow to `inputs[i]`, after it was given the inputs
/// before that one.
pub open spec fn boot_answer(start: BootModel, inputs: Seq<BootInput>, i: int) -> BootStepView {
    boot_step(boot_run(start, inputs.take(i)), inputs[i]).step
}

/// Whether a flow in `state` has ended.
pub open spec fn is_final(state: BootState) -> bool {
    state == BootState::Persisted || state == BootState::Abandoned
}

/// Whether an action is part of a further attempt: a wait before one, or
/// the request itself.
pub open spec fn asks_for_attempt(action: BootActionView) -> bool {
    action is Sleep || action is Fetch
}

/// A run of `i + 1` inputs is the run of the first `i` followed by one move.
pub proof fn lemma_run_unfolds(start: BootModel, inputs: Seq<BootInput>, i: int)
    requires
        0 <= i < inputs.len(),
    ensures
        boot_run(start, inputs.take(i + 1)) == boot_step(
            boot_run(start, inputs.take(i)),
            inputs[i],
        ).next,
{
    assert(inputs.take(i + 1).drop_last() == inputs.take(i));
}

/// A flow that has ended stays as it is: once the run has reached a final
/// state after `from` inputs, nothing changes it any more, and every later
/// input is passed over.
pub proof fn lemma_finished_flow_stays(
    start: BootModel,
    inputs: Seq<BootInput>,
    from: int,
    to: int,
)
    requires
        0 <= from <= to <= inputs.len(),
        is_final(boot_run(start, inputs.take(from)).state),
    ensures
        boot_run(start, inputs.take(to)) == boot_run(start, inputs.take(from)),
        to < inputs.len() ==> boot_answer(start, inputs, to).action == BootActionView::Ignored,
    decreases to - from,
{
    if from < to {
        lemma_finished_flow_stays(start, inputs, from, to - 1);
        lemma_run_unfolds(start, inputs, to - 1);
    }
}

/// Where the store holds an identifier, no request is ever made: the flow
/// takes the stored identifier, ends at once, and asks for a request at no
/// point of the run.
pub proof fn lemma_stored_identifier_makes_no_request(
    start: BootModel,
    inputs: Seq<BootInput>,
    uid: Seq<char>,
)
    requires
        start.state == BootState::CheckLocal,
        inputs.len() >= 1,
        inputs[0].event == BootEventView::StoreRead(Some(uid)),
    ensures
        forall|i: int|
            0 <= i < inputs.len() ==> !(#[trigger] boot_answer(start, inputs, i).action
                is Fetch),
        boot_answer(start, inputs, 0).action == BootActionView::Done,
        boot_run(start, inputs).state == BootState::Persisted,
        boot_run(start, inputs).uid == Some(uid),
{
    assert(inputs.take(0) == Seq::<BootInput>::empty());
    lemma_run_unfolds(start, inputs, 0);
    assert forall|i: int| 0 <= i < inputs.len() implies !(#[trigger] boot_answer(
        start,
        inputs,
        i,
    ).action is Fetch) by {
        if i > 0 {
            lemma_finished_flow_stays(start, inputs, 1, i);
        }
    }
    lemma_finished_flow_stays(start, inputs, 1, inputs.len() as int);
    assert(inputs.take(inputs.len() as int) == inputs);
}

/// Where the first request fails while the service is offline, no retry is
/// set up: the flow gives up at once with the identifier as it was, and
/// asks neither for a wait nor for a request at any point of the run.
pub proof fn lemma_offline_failure_sets_up_no_retry(
    start: BootModel,
    inputs: Seq<BootInput>,
    line: Seq<char>,
)
    requires
        start.state == BootState::FetchRemote,
        inputs.len() >= 1,
        inputs[0] == boot_input(BootEventView::Fetched(Err(line)), false),
    ensures
        forall|i: int|
            0 <= i < inputs.len() ==> !asks_for_attempt(
                #[trigger] boot_answer(start, inputs, i).action,
            ),
        boot_answer(start, inputs, 0).action == BootActionView::Done,
        boot_run(start, inputs).state == BootState::Abandoned,
        boot_run(start, inputs).uid == start.uid,
{
    assert(inputs.take(0) == Seq::<BootInput>::empty());
    lemma_run_unfolds(start, inputs, 0);
    assert forall|i: int| 0 <= i < inputs.len() implies !asks_for_attempt(
        #[trigger] boot_answer(start, inputs, i).action,
    ) by {
        if i > 0 {
            lemma_finished_flow_stays(start, inputs, 1, i);
        }
    }
    lemma_finished_flow_stays(start, inputs, 1, inputs.len() as int);
    assert(inputs.take(inputs.len() as int) == inputs);
}

/// While the flow waits and the timer has not fired, the flow keeps
/// waiting and passes every input over.
proof fn lemma_waits_for_timer(start: BootModel, inputs: Seq<BootInput>, from: int, to: int)
    requires
        0 <= from <= to <= inputs.len(),
        boot_run(start, inputs.take(from)).state == BootState::RetryWait,
        forall|j: int| from <= j < to ==> !(inputs[j].event is TimerElapsed),
    ensures
        boot_run(start, inputs.take(to)) == boot_run(start, inputs.take(from)),
        forall|j: int|
            from <= j < to ==> #[trigger] boot_answer(start, inputs, j).action
                == BootActionView::Ignored,
    decreases to - from,
{
    if from < to {
        lemma_waits_for_timer(start, inputs, from, to - 1);
        lemma_run_unfolds(start, inputs, to - 1);
    }
}

/// Where the first request fails while the service is online, the next
/// attempt comes after exactly one interval and not before: the flow asks
/// for a wait of one interval; until the caller reports that the time has
/// passed, whatever else it reports, nothing is requested; and when the time
/// has passed the request is made, provided the service is still online.
/// `k` is the position of the first report that the time has passed.
pub proof fn lemma_online_failure_retries_after_one_interval(
    start: BootModel,
    inputs: Seq<BootInput>,
    line: Seq<char>,
    k: int,
)
    requires
        start.state == BootState::FetchRemote,
        1 <= k < inputs.len(),
        inputs[0] == boot_input(BootEventView::Fetched(Err(line)), true),
        forall|j: int| 1 <= j < k ==> !(inputs[j].event is TimerElapsed),
        inputs[k].event is TimerElapsed,
    ensures
        boot_answer(start, inputs, 0).action == (BootActionView::Sleep { secs: start.retry_secs }),
        forall|j: int|
            1 <= j < k ==> #[trigger] boot_answer(start, inputs, j).action
                == BootActionView::Ignored,
        inputs[k].online ==> boot_answer(start, inputs, k).action == BootActionView::Fetch,
        !inputs[k].online ==> boot_answer(start, inputs, k).action == BootActionView::Done,
{
    assert(inputs.take(0) == Seq::<BootInput>::empty());
    lemma_run_unfolds(start, inputs, 0);
    lemma_waits_for_timer(start, inputs, 1, k);
}

/// An identifier that is known stays known: no run takes the shared
/// identifier back to unset.
pub proof fn lemma_identifier_never_reverts(start: BootModel, inputs: Seq<BootInput>)
    requires
        start.uid is Some,
    ensures
        boot_run(start, inputs).uid is Some,
    decreases inputs.len(),
{
    if inputs.len() > 0 {
        lemma_identifier_never_reverts(start, inputs.drop_last());
    }
}

/// A flow that started at the beginning and stands at `Persisted` has an
/// identifier, and a flow that stands anywhere else has left the identifier
/// as it found it.
pub proof fn lemma_persisted_means_known(start: BootModel, inputs: Seq<BootInput>)
    requires
        start.state == BootState::CheckLocal,
    ensures
        boot_run(start, inputs).state == BootState::Persisted ==> boot_run(start, inputs).uid
            is Some,
        boot_run(start, inputs).state != BootState::Persisted ==> boot_run(start, inputs).uid
            == start.uid,
    decreases inputs.len(),
{
    if inputs.len() > 0 {
        lemma_persisted_means_known(start, inputs.drop_last());
    }
}

/// The store is written at most once in a run: after the flow has handed
/// out an identifier to be written, it passes every later input over. What
/// it handed out is the shared identifier from then on.
pub proof fn lemma_at_most_one_write(start: BootModel, inputs: Seq<BootInput>, i: int, j: int)
    requires
        0 <= i < j < inputs.len(),
        boot_answer(start, inputs, i).action is Persist,
    ensures
        boot_answer(start, inputs, j).action == BootActionView::Ignored,
        boot_run(start, inputs.take(j)).uid == Some(
            boot_answer(start, inputs, i).action->Persist_uid,
        ),
{
    lemma_run_unfolds(start, inputs, i);
    lemma_finished_flow_stays(start, inputs, i + 1, j);
}

/// The interval is fixed: the flow keeps the interval it was made with, and
/// every wait it asks for is one interval long.
pub proof fn lemma_interval_is_constant(start: BootModel, inputs: Seq<BootInput>, i: int)
    requires
        0 <= i < inputs.len(),
    ensures
        boot_run(start, inputs).retry_secs == start.retry_secs,
        boot_answer(start, inputs, i).action matches BootActionView::Sleep { secs } ==> secs
            == start.retry_secs,
{
    lemma_interval_kept(start, inputs);
    lemma_interval_kept(start, inputs.take(i));
}

/// The flow keeps the interval it was made with.
proof fn lemma_interval_kept(start: BootModel, inputs: Seq<BootInput>)
    ensures
        boot_run(start, inputs).retry_secs == start.retry_secs,
    decreases inputs.len(),
{
    if inputs.len() > 0 {
        lemma_interval_kept(start, inputs.drop_last());
    }
}

} // verus!
