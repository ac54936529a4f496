//! Runs of the subscription loop: what holds of the answers to a whole
//! sequence of inputs.

use vstd::prelude::*;
use crate::pipeline::{batch_plan, PlanView};
use crate::subscription::{
    transition, ConfigView, InputView, NoticeView, StateView, StepView, WorkView,
};

verus! {

/// The state of the machine after the first `at` of the inputs, taken one
/// after another from `start`.
pub open spec fn state_at(
    config: ConfigView,
    start: StateView,
    inputs: Seq<InputView>,
    at: nat,
) -> StateView
    decreases at,
{
    if at == 0 {
        start
    } else {
        transition(config, state_at(config, start, inputs, (at - 1) as nat), inputs[at - 1]).0
    }
}

/// The machine's answer to the input at position `at`.
pub open spec fn step_at(
    config: ConfigView,
    start: StateView,
    inputs: Seq<InputView>,
    at: nat,
) -> StepView {
    transition(config, state_at(config, start, inputs, at), inputs[at as int]).1
}

/// Whether the answer to the input at position `at` tells an event.
pub open spec fn tells_event(
    config: ConfigView,
    start: StateView,
    inputs: Seq<InputView>,
    at: nat,
) -> bool {
    step_at(config, start, inputs, at).notice is Detected
}

/// How many events the answers to the first `upto` inputs tell.
pub open spec fn events_before(
    config: ConfigView,
    start: StateView,
    inputs: Seq<InputView>,
    upto: nat,
) -> nat
    decreases upto,
{
    if upto == 0 {
        0
    } else if tells_event(config, start, inputs, (upto - 1) as nat) {
        events_before(config, start, inputs, (upto - 1) as nat) + 1
    } else {
        events_before(config, start, inputs, (upto - 1) as nat)
    }
}

/// How many of the first `upto` inputs are batches.
pub open spec fn batches_before(inputs: Seq<InputView>, upto: nat) -> nat
    decreases upto,
{
    if upto == 0 {
        0
    } else if inputs[upto - 1] is Batch {
        batches_before(inputs, (upto - 1) as nat) + 1
    } else {
        batches_before(inputs, (upto - 1) as nat)
    }
}

/// Whether a state is that of a stream resolving a batch.
pub open spec fn is_resolving(state: StateView) -> bool {
    state matches StateView::Streaming(WorkView::Resolving { .. })
}

/// The events still owed in a state: one while a batch is being resolved.
pub open spec fn owed(state: StateView) -> nat {
    if is_resolving(state) {
        1
    } else {
        0
    }
}

/// The position of the last input before `at` on which a transaction was
/// asked for, and -1 where there is none: the batch that is being resolved
/// at `at`, if any is.
pub open spec fn origin(
    config: ConfigView,
    start: StateView,
    inputs: Seq<InputView>,
    at: nat,
) -> int
    decreases at,
{
    if at == 0 {
        -1
    } else if step_at(config, start, inputs, (at - 1) as nat).request is Transaction {
        at - 1
    } else {
        origin(config, start, inputs, (at - 1) as nat)
    }
}

/// At most one event per batch: over the first `upto` inputs the machine
/// tells no more events than it was handed batches, counting the batch that
/// it was resolving at the start.
pub proof fn lemma_at_most_one_event_per_batch(
    config: ConfigView,
    start: StateView,
    inputs: Seq<InputView>,
    upto: nat,
)
    requires
        upto <= inputs.len(),
    ensures
        events_before(config, start, inputs, upto) + owed(state_at(config, start, inputs, upto))
            <= batches_before(inputs, upto) + owed(start),
    decreases upto,
{
    if upto > 0 {
        lemma_at_most_one_event_per_batch(config, start, inputs, (upto - 1) as nat);
    }
}

/// A stream that is resolving after `at` inputs, and was not at the start,
/// resolves the batch at the origin: that input is a batch whose plan was to
/// resolve the very kind and signature that the stream holds.
pub proof fn lemma_resolving_stream_holds_its_batch(
    config: ConfigView,
    start: StateView,
    inputs: Seq<InputView>,
    at: nat,
)
    requires
        at <= inputs.len(),
        !is_resolving(start),
    ensures
        state_at(config, start, inputs, at) matches StateView::Streaming(
            WorkView::Resolving { kind, signature },
        ) ==> {
            let from = origin(config, start, inputs, at);
            &&& 0 <= from < at
            &&& inputs[from] matches InputView::Batch(batch)
            &&& batch_plan(config.target, batch) == PlanView::Resolve { kind, signature }
        },
    decreases at,
{
    if at > 0 {
        lemma_resolving_stream_holds_its_batch(config, start, inputs, (at - 1) as nat);
    }
}

/// A stream that is resolving after `at` inputs, and was not after `since`
/// of them, resolves a batch that arrived at `since` or later.
pub proof fn lemma_origin_is_recent(
    config: ConfigView,
    start: StateView,
    inputs: Seq<InputView>,
    since: nat,
    at: nat,
)
    requires
        since <= at <= inputs.len(),
        !is_resolving(state_at(config, start, inputs, since)),
        is_resolving(state_at(config, start, inputs, at)),
    ensures
        since <= origin(config, start, inputs, at),
    decreases at,
{
    if at > since {
        let before = (at - 1) as nat;
        if !(step_at(config, start, inputs, before).request is Transaction) {
            lemma_origin_is_recent(config, start, inputs, since, before);
        }
    }
}

/// Every event stems from a batch of its own: where the answer to the input
/// at `at` tells an event, an earlier input is the batch it stems from, a
/// batch whose plan was to resolve the kind and the signature of the event.
pub proof fn lemma_event_stems_from_its_batch(
    config: ConfigView,
    start: StateView,
    inputs: Seq<InputView>,
    at: nat,
)
    requires
        at < inputs.len(),
        !is_resolving(start),
    ensures
        step_at(config, start, inputs, at).notice matches NoticeView::Detected(
            event,
        ) ==> {
            let from = origin(config, start, inputs, at);
            &&& 0 <= from < at
            &&& inputs[from] matches InputView::Batch(batch)
            &&& batch_plan(config.target, batch) == PlanView::Resolve {
                kind: event.kind,
                signature: event.signature,
            }
        },
{
    lemma_resolving_stream_holds_its_batch(config, start, inputs, at);
}

/// Events keep the order of their batches: of two events, the one told later
/// stems from a batch that arrived after the earlier event was told, and so
/// after the batch of that event.
pub proof fn lemma_events_keep_batch_order(
    config: ConfigView,
    start: StateView,
    inputs: Seq<InputView>,
    earlier: nat,
    later: nat,
)
    requires
        earlier < later < inputs.len(),
        !is_resolving(start),
        tells_event(config, start, inputs, earlier),
        tells_event(config, start, inputs, later),
    ensures
        origin(config, start, inputs, earlier) < earlier < origin(config, start, inputs, later)
            < later,
{
    lemma_event_stems_from_its_batch(config, start, inputs, earlier);
    lemma_event_stems_from_its_batch(config, start, inputs, later);
    assert(state_at(config, start, inputs, earlier + 1) == transition(
        config,
        state_at(config, start, inputs, earlier),
        inputs[earlier as int],
    ).0);
    lemma_origin_is_recent(config, start, inputs, earlier + 1, later);
}

} // verus!
