use vstd::prelude::*;

use crate::target::Registry;

verus! {

/// A toolchain failure, carrying the tool's own diagnostic text.
#[derive(Debug)]
pub struct ToolError {
    pub detail: String,
}

/// The failure of one per-target operation, attributed to its target.
#[derive(Debug)]
pub struct TargetFailure {
    /// Position of the failing target in the registry.
    pub target: usize,
    pub cause: ToolError,
}

/// A per-target operation's failure, labelled with the target's identifier.
#[derive(Debug)]
pub struct OperationFailed {
    pub target: String,
    pub cause: ToolError,
}

/// The per-target operations a dispatch runs.
#[derive(Clone, Copy, Debug, PartialEq, Eq, Structural)]
pub enum Operation {
    Check,
    Build,
    Run,
    CompileLib,
}

/// The abstract state of a dispatch: the targets in order, how many
/// operations have reported, and the failure that stopped it, if any.
pub struct DispatchView {
    pub order: Seq<usize>,
    pub done: nat,
    pub failure: Option<TargetFailure>,
}

pub open spec fn start(order: Seq<usize>) -> DispatchView {
    DispatchView { order, done: 0, failure: None }
}

/// Whether another operation is owed: nothing has failed and targets remain.
pub open spec fn pending(v: DispatchView) -> bool {
    v.failure is None && v.done < v.order.len()
}

/// The target the next operation runs against.
pub open spec fn next_spec(v: DispatchView) -> Option<usize> {
    if pending(v) {
        Some(v.order[v.done as int])
    } else {
        None
    }
}

/// The state after the pending operation reported `outcome`.
pub open spec fn record_spec(v: DispatchView, outcome: Result<(), ToolError>) -> DispatchView {
    DispatchView {
        order: v.order,
        done: v.done + 1,
        failure: match outcome {
            Ok(_) => None,
            Err(cause) => Some(TargetFailure { target: v.order[v.done as int], cause }),
        },
    }
}

/// The state after the outcomes `outs` were reported one by one.
pub open spec fn replay(v: DispatchView, outs: Seq<Result<(), ToolError>>) -> DispatchView
    decreases outs.len(),
{
    if outs.len() == 0 {
        v
    } else {
        record_spec(replay(v, outs.drop_last()), outs.last())
    }
}

/// The overall result once nothing is pending: the failure, if any.
pub open spec fn result_spec(v: DispatchView) -> Result<(), TargetFailure> {
    match v.failure {
        Some(f) => Err(f),
        None => Ok(()),
    }
}

/// Runs one operation per target, in order, stopping at the first failure.
/// The operations themselves are performed by the caller, which asks
/// `next` for the target and reports the outcome with `record`.
#[derive(Debug)]
pub struct Dispatch {
    order: Vec<usize>,
    done: usize,
    failure: Option<TargetFailure>,
}

impl Dispatch {
    pub closed spec fn view(&self) -> DispatchView {
        DispatchView { order: self.order@, done: self.done as nat, failure: self.failure }
    }

    pub fn new(order: Vec<usize>) -> (r: Dispatch)
        ensures
            r@ == start(order@),
    {
        Dispatch { order, done: 0, failure: None }
    }

    /// The target whose operation should run next, or `None` when finished.
    pub fn next(&self) -> (r: Option<usize>)
        ensures
            r == next_spec(self@),
    {
        if self.failure.is_none() && self.done < self.order.len() {
            Some(self.order[self.done])
        } else {
            None
        }
    }

    /// Reports the outcome of the operation that `next` asked for.
    pub fn record(&mut self, outcome: Result<(), ToolError>)
        requires
            pending(old(self)@),
        ensures
            final(self)@ == record_spec(old(self)@, outcome),
    {
        let n = self.order.len();
        assert(self.done < n);
        let target = self.order[self.done];
        self.done = self.done + 1;
        match outcome {
            Ok(()) => {},
            Err(cause) => {
                self.failure = Some(TargetFailure { target, cause });
            },
        }
    }

    /// The overall result: the first failure, else success.
    pub fn finish(self) -> (r: Result<(), TargetFailure>)
        requires
            !pending(self@),
        ensures
            r == result_spec(self@),
    {
        match self.failure {
            Some(f) => Err(f),
            None => Ok(()),
        }
    }
}

/// Labels a failure with the identifier of the target it came from.
pub fn attribute(reg: &Registry, f: TargetFailure) -> (r: OperationFailed)
    requires
        f.target < reg@.len(),
    ensures
        r.target@ == reg@[f.target as int].id@,
        r.cause == f.cause,
{
    OperationFailed { target: reg.id(f.target).clone(), cause: f.cause }
}

/// When every operation succeeds, each target is run once, in order, and the
/// dispatch succeeds.
pub proof fn lemma_all_succeed(order: Seq<usize>, outs: Seq<Result<(), ToolError>>)
    requires
        outs.len() == order.len(),
        forall|j: int| 0 <= j < outs.len() ==> outs[j] is Ok,
    ensures
        forall|j: int| 0 <= j < outs.len() ==> next_spec(#[trigger] replay(start(order), outs.take(j)))
            == Some(order[j]),
        !pending(replay(start(order), outs)),
        result_spec(replay(start(order), outs)) == Ok::<(), TargetFailure>(()),
{
    assert forall|j: int| 0 <= j <= outs.len() implies #[trigger] replay(start(order), outs.take(j))
        == (DispatchView { order, done: j as nat, failure: None }) by {
        lemma_replay_successes(order, outs, j);
    }
    assert(outs.take(outs.len() as int) =~= outs);
}

/// Fail-fast: when the operation for the target at position `k` is the first
/// to fail, the targets before it ran in order, the dispatch stops after it
/// with that failure attributed to that target, and no later target runs.
pub proof fn lemma_first_failure_wins(order: Seq<usize>, outs: Seq<Result<(), ToolError>>, k: int)
    requires
        0 <= k < order.len(),
        outs.len() == k + 1,
        forall|j: int| 0 <= j < k ==> outs[j] is Ok,
        outs[k] is Err,
    ensures
        forall|j: int| 0 <= j <= k ==> next_spec(#[trigger] replay(start(order), outs.take(j)))
            == Some(order[j]),
        next_spec(replay(start(order), outs)) == None::<usize>,
        result_spec(replay(start(order), outs)) == Err::<(), TargetFailure>(
            TargetFailure { target: order[k], cause: outs[k]->Err_0 },
        ),
{
    assert forall|j: int| 0 <= j <= k implies #[trigger] replay(start(order), outs.take(j))
        == (DispatchView { order, done: j as nat, failure: None }) by {
        lemma_replay_successes(order, outs, j);
    }
    assert(outs.drop_last() =~= outs.take(k));
    lemma_replay_successes(order, outs, k);
}

proof fn lemma_replay_successes(order: Seq<usize>, outs: Seq<Result<(), ToolError>>, j: int)
    requires
        0 <= j <= outs.len(),
        j <= order.len(),
        forall|m: int| 0 <= m < j ==> outs[m] is Ok,
    ensures
        replay(start(order), outs.take(j)) == (DispatchView { order, done: j as nat, failure: None }),
    decreases j,
{
    if j > 0 {
        assert(outs.take(j).drop_last() =~= outs.take(j - 1));
        lemma_replay_successes(order, outs, j - 1);
    } else {
        assert(outs.take(0) =~= Seq::<Result<(), ToolError>>::empty());
    }
}

} // verus!
