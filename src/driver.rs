use vstd::prelude::*;
use crate::task::{Poll, Task};
use crate::waker::{Context, Waker};

verus! {

/// Polls a task until it completes or a budget of polls runs out.
///
/// The waker it hands out notifies nobody, so the driver does not wait for
/// a wake-up between polls: it polls again at once.
pub struct Driver {
    budget: usize,
}

/// The outcomes that a run of `budget` polls on a task with `pending`
/// `Pending` results still to come reports: `Pending` for each poll before
/// the last of those, then `Ready(value)`, cut short by the budget.
pub open spec fn expected_trace<T>(pending: nat, budget: nat, value: T) -> Seq<Poll<T>> {
    let len = if pending < budget { pending + 1 } else { budget };
    Seq::new(len, |i: int| if i < pending { Poll::Pending } else { Poll::Ready(value) })
}

impl Driver {
    pub closed spec fn budget_spec(&self) -> nat {
        self.budget as nat
    }

    /// A driver that polls at most `budget` times per run.
    pub fn new(budget: usize) -> (d: Driver)
        ensures
            d.budget_spec() == budget,
    {
        Driver { budget }
    }

    pub fn budget(&self) -> (r: usize)
        ensures
            r == self.budget_spec(),
    {
        self.budget
    }

    /// Polls `task` with a context holding `waker` until it reports `Ready`
    /// or the budget is spent, and returns every poll's outcome in order.
    /// A task with `n` `Pending` results to come completes on poll `n + 1`
    /// if the budget allows that many; otherwise it is left `n - budget`
    /// steps from completion, still pollable.
    pub fn run<T: Task>(&self, task: &mut T, waker: &Waker) -> (trace: Vec<Poll<T::Output>>)
        requires
            old(task).inv(),
            !old(task).done(),
        ensures
            trace@ == expected_trace(old(task).pending_left(), self.budget_spec(), old(task).output()),
            final(task).inv(),
            old(task).pending_left() >= self.budget_spec() ==> {
                &&& !final(task).done()
                &&& final(task).pending_left() == old(task).pending_left() - self.budget_spec()
                &&& final(task).output() == old(task).output()
            },
    {
        let ghost n = task.pending_left();
        let ghost value = task.output();
        let cx = Context::from_waker(waker);
        let mut trace: Vec<Poll<T::Output>> = Vec::new();
        let mut polls: usize = 0;
        while polls < self.budget
            invariant
                task.inv(),
                !task.done(),
                n == old(task).pending_left(),
                value == old(task).output(),
                polls <= self.budget,
                polls <= n,
                task.pending_left() == n - polls,
                task.output() == value,
                trace@ == expected_trace(n, polls as nat, value),
            decreases self.budget - polls,
        {
            let r = task.poll(&cx);
            let ready = r.is_ready();
            trace.push(r);
            polls = polls + 1;
            if ready {
                assert(trace@ =~= expected_trace(n, self.budget as nat, value));
                return trace;
            }
            assert(trace@ =~= expected_trace(n, polls as nat, value));
        }
        assert(trace@ =~= expected_trace(n, self.budget as nat, value));
        trace
    }
}

/// A run whose budget exceeds the number of `Pending` results still to come
/// ends in `Ready`: the trace holds exactly `pending + 1` polls, the last one
/// `Ready(value)` and every earlier one `Pending`.
pub proof fn lemma_run_completes<T>(pending: nat, budget: nat, value: T)
    requires
        pending < budget,
    ensures
        expected_trace(pending, budget, value).len() == pending + 1,
        expected_trace(pending, budget, value).last() == Poll::Ready(value),
        forall|i: int|
            0 <= i < pending ==> #[trigger] expected_trace(pending, budget, value)[i]
                == Poll::<T>::Pending,
{
}

/// A run whose budget does not exceed the number of `Pending` results still
/// to come uses the whole budget and sees only `Pending`.
pub proof fn lemma_run_exhausts_budget<T>(pending: nat, budget: nat, value: T)
    requires
        budget <= pending,
    ensures
        expected_trace(pending, budget, value).len() == budget,
        forall|i: int|
            0 <= i < budget ==> #[trigger] expected_trace(pending, budget, value)[i]
                == Poll::<T>::Pending,
{
}

} // verus!
