//! Whole runs of the supervisor, and what holds of every one of them.
//!
//! A run is the sequence of inputs that a supervisor is given, taken from
//! the state in which the first of them arrives. The laws below are stated
//! over the same transition functions as the contract of
//! [`Supervisor::step`](crate::supervisor::Supervisor::step), so they hold
//! of whatever sequence of steps a caller makes.

use vstd::prelude::*;
use crate::supervisor::log_action;
use crate::supervisor::next_state;
use crate::supervisor::reaction;
use crate::supervisor::ActionView;
use crate::supervisor::InputView;
use crate::supervisor::Stage;
use crate::supervisor::StartupError;
use crate::supervisor::State;

verus! {

/// The state after `inputs` have arrived one after another in `start`.
pub open spec fn state_after(start: State, inputs: Seq<InputView>) -> State
    decreases inputs.len(),
{
    if inputs.len() == 0 {
        start
    } else {
        next_state(state_after(start, inputs.drop_last()), inputs.last())
    }
}

/// The action that answers the input at position `i` of a run that begins
/// in `start`.
pub open spec fn action_at(start: State, inputs: Seq<InputView>, i: int) -> ActionView
    recommends
        0 <= i < inputs.len(),
{
    reaction(state_after(start, inputs.take(i)), inputs[i])
}

/// The place of a stage in the order in which a run passes through them.
pub open spec fn stage_rank(stage: Stage) -> nat {
    match stage {
        Stage::NotStarted => 0,
        Stage::Launching => 1,
        Stage::Draining => 2,
        Stage::Closed => 3,
        Stage::Failed => 4,
    }
}

/// What a draining supervisor answers to an input that neither closes the
/// stream nor reports a rejected sink: the log entry of an event, if it has
/// one, and nothing otherwise.
pub open spec fn drain_answer(input: InputView) -> ActionView {
    match input {
        InputView::Event(event) => log_action(event),
        _ => ActionView::Idle,
    }
}

/// A run can be cut at any position: what follows the cut goes on from the
/// state that the part before it has reached.
pub proof fn lemma_state_after_split(start: State, inputs: Seq<InputView>, k: int)
    requires
        0 <= k <= inputs.len(),
    ensures
        state_after(start, inputs)
            == state_after(state_after(start, inputs.take(k)), inputs.skip(k)),
    decreases inputs.len(),
{
    if k == inputs.len() {
        assert(inputs.take(k) =~= inputs);
        assert(inputs.skip(k).len() == 0);
    } else {
        let shorter = inputs.drop_last();
        lemma_state_after_split(start, shorter, k);
        assert(shorter.take(k) =~= inputs.take(k));
        assert(shorter.skip(k) =~= inputs.skip(k).drop_last());
        assert(inputs.skip(k).last() == inputs.last());
    }
}

/// No input takes the supervisor back to an earlier stage, and none changes
/// its profile.
pub proof fn lemma_stage_never_goes_back(start: State, inputs: Seq<InputView>)
    ensures
        stage_rank(state_after(start, inputs).stage) >= stage_rank(start.stage),
        state_after(start, inputs).profile == start.profile,
    decreases inputs.len(),
{
    if inputs.len() > 0 {
        lemma_stage_never_goes_back(start, inputs.drop_last());
    }
}

/// The stage reached after a longer part of a run is no earlier than the
/// stage reached after a shorter part of it.
proof fn lemma_later_is_no_earlier(start: State, inputs: Seq<InputView>, i: int, j: int)
    requires
        0 <= i <= j <= inputs.len(),
    ensures
        stage_rank(state_after(start, inputs.take(i)).stage)
            <= stage_rank(state_after(start, inputs.take(j)).stage),
{
    let upto = inputs.take(j);
    lemma_state_after_split(start, upto, i);
    assert(upto.take(i) =~= inputs.take(i));
    lemma_stage_never_goes_back(state_after(start, inputs.take(i)), upto.skip(i));
}

/// The state right after the input at position `i` has been answered.
proof fn lemma_state_after_one_more(start: State, inputs: Seq<InputView>, i: int)
    requires
        0 <= i < inputs.len(),
    ensures
        state_after(start, inputs.take(i + 1))
            == next_state(state_after(start, inputs.take(i)), inputs[i]),
{
    assert(inputs.take(i + 1).drop_last() =~= inputs.take(i));
}

/// In one run the backend is launched at most once and the drain task is
/// started at most once, whatever arrives and in whatever order.
pub proof fn lemma_launched_at_most_once(start: State, inputs: Seq<InputView>)
    ensures
        forall|i: int, j: int|
            0 <= i < j < inputs.len() && #[trigger] action_at(start, inputs, i) is Launch
                ==> !(#[trigger] action_at(start, inputs, j) is Launch),
        forall|i: int, j: int|
            0 <= i < j < inputs.len() && #[trigger] action_at(start, inputs, i) is Drain
                ==> !(#[trigger] action_at(start, inputs, j) is Drain),
{
    assert forall|i: int, j: int|
        0 <= i < j < inputs.len() && #[trigger] action_at(start, inputs, i) is Launch
        implies !(#[trigger] action_at(start, inputs, j) is Launch) by {
        lemma_state_after_one_more(start, inputs, i);
        lemma_later_is_no_earlier(start, inputs, i + 1, j);
    }
    assert forall|i: int, j: int|
        0 <= i < j < inputs.len() && #[trigger] action_at(start, inputs, i) is Drain
        implies !(#[trigger] action_at(start, inputs, j) is Drain) by {
        lemma_state_after_one_more(start, inputs, i);
        lemma_later_is_no_earlier(start, inputs, i + 1, j);
    }
}

/// A launch that fails is the end of the run. Where the launch is answered
/// with a missing or unspawnable backend, that answer aborts start-up, the
/// supervisor has failed for good, and at no position of the run, before or
/// after, is the drain task started or an entry logged.
pub proof fn lemma_failed_launch_is_final(start: State, inputs: Seq<InputView>, k: int)
    requires
        0 <= k < inputs.len(),
        state_after(start, inputs.take(k)).stage is Launching,
        inputs[k] is BackendMissing || inputs[k] is SpawnFailed,
    ensures
        inputs[k] is BackendMissing
            ==> action_at(start, inputs, k) == ActionView::Abort(StartupError::BackendNotFound),
        inputs[k] is SpawnFailed
            ==> action_at(start, inputs, k) == ActionView::Abort(StartupError::SpawnFailed),
        state_after(start, inputs).stage is Failed,
        forall|i: int|
            0 <= i < inputs.len() ==> !(#[trigger] action_at(start, inputs, i) is Drain)
                && !(action_at(start, inputs, i) is Log),
        forall|i: int| k < i < inputs.len() ==> #[trigger] action_at(start, inputs, i) is Idle,
{
    lemma_state_after_one_more(start, inputs, k);
    assert(inputs.take(inputs.len() as int) =~= inputs);
    lemma_later_is_no_earlier(start, inputs, k + 1, inputs.len() as int);
    assert forall|i: int| 0 <= i < inputs.len() implies {
        &&& !(#[trigger] action_at(start, inputs, i) is Drain)
        &&& !(action_at(start, inputs, i) is Log)
        &&& (k < i ==> action_at(start, inputs, i) is Idle)
    } by {
        if i < k {
            lemma_state_after_one_more(start, inputs, i);
            lemma_later_is_no_earlier(start, inputs, i + 1, k);
        } else if i > k {
            lemma_later_is_no_earlier(start, inputs, k + 1, i);
        }
    }
}

/// The stream is drained until it closes. As long as no input closes the
/// stream or reports a rejected sink, the supervisor stays as it is, and
/// every event is answered at its own position with its own log entry: none
/// is dropped, held back or put before another, whatever the events hold.
pub proof fn lemma_drains_until_closed(start: State, inputs: Seq<InputView>)
    requires
        start.stage is Draining,
        forall|i: int|
            0 <= i < inputs.len() ==> !(#[trigger] inputs[i] is StreamClosed)
                && !(inputs[i] is SinkRejected),
    ensures
        state_after(start, inputs) == start,
        forall|i: int|
            0 <= i < inputs.len() ==> #[trigger] action_at(start, inputs, i)
                == drain_answer(inputs[i]),
    decreases inputs.len(),
{
    if inputs.len() > 0 {
        lemma_drains_until_closed(start, inputs.drop_last());
    }
    assert forall|i: int| 0 <= i < inputs.len() implies #[trigger] action_at(start, inputs, i)
        == drain_answer(inputs[i]) by {
        lemma_drains_until_closed(start, inputs.take(i));
    }
}

} // verus!
