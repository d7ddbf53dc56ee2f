use vstd::prelude::*;
use crate::waker::Context;

verus! {

/// What one poll of a task reports.
#[derive(Debug, PartialEq, Eq)]
pub enum Poll<T> {
    /// The final value: the task must not be asked for more.
    Ready(T),
    /// No value yet: poll again later.
    Pending,
}

impl<T> Poll<T> {
    pub fn is_ready(&self) -> (r: bool)
        ensures
            r == (self is Ready),
    {
        match self {
            Poll::Ready(_) => true,
            Poll::Pending => false,
        }
    }

    pub fn is_pending(&self) -> (r: bool)
        ensures
            r == (self is Pending),
    {
        match self {
            Poll::Ready(_) => false,
            Poll::Pending => true,
        }
    }
}

/// A suspendable computation driven by repeated polls.
///
/// Its progress is summed up by `pending_left`: the number of `Pending`
/// results still to come. Every poll either reports `Pending` and brings that
/// number one closer to zero, or, once it is zero, reports `Ready` with the
/// value `output`. A task that is `done` must not be polled again.
pub trait Task {
    type Output;

    spec fn inv(&self) -> bool;

    spec fn done(&self) -> bool;

    spec fn pending_left(&self) -> nat;

    spec fn output(&self) -> Self::Output;

    fn poll(&mut self, cx: &Context) -> (r: Poll<Self::Output>)
        requires
            old(self).inv(),
            !old(self).done(),
        ensures
            final(self).inv(),
            old(self).pending_left() == 0 ==> r == Poll::Ready(old(self).output()),
            old(self).pending_left() > 0 ==> {
                &&& r == Poll::<Self::Output>::Pending
                &&& !final(self).done()
                &&& final(self).pending_left() == old(self).pending_left() - 1
                &&& final(self).output() == old(self).output()
            },
    ;
}

/// The value a `DummyFuture` completes with.
pub const READY_VALUE: u8 = 11;

/// A task that reports `Pending` a fixed number of times, counting each one,
/// and then `Ready(READY_VALUE)`. Polling it again after that is harmless: it
/// reports the same value and changes nothing.
pub struct DummyFuture {
    count: u8,
    threshold: u8,
}

impl DummyFuture {
    /// The number of `Pending` results reported so far.
    pub closed spec fn count_spec(&self) -> nat {
        self.count as nat
    }

    /// The number of `Pending` results to report before completing.
    pub closed spec fn threshold_spec(&self) -> nat {
        self.threshold as nat
    }

    /// The state after one poll.
    pub closed spec fn stepped(self) -> DummyFuture {
        if self.count < self.threshold {
            DummyFuture { count: (self.count + 1) as u8, threshold: self.threshold }
        } else {
            self
        }
    }

    /// What one poll reports.
    pub closed spec fn outcome(self) -> Poll<u8> {
        if self.count < self.threshold {
            Poll::Pending
        } else {
            Poll::Ready(READY_VALUE)
        }
    }

    /// The state after `k` polls.
    pub closed spec fn after(self, k: nat) -> DummyFuture
        decreases k,
    {
        if k == 0 {
            self
        } else {
            self.stepped().after((k - 1) as nat)
        }
    }

    /// The two-step task: one `Pending`, then `Ready`.
    pub fn new() -> (f: DummyFuture)
        ensures
            f.inv(),
            f.count_spec() == 0,
            f.threshold_spec() == 1,
    {
        DummyFuture { count: 0, threshold: 1 }
    }

    /// A task that reports `Pending` `steps` times before completing.
    pub fn with_steps(steps: u8) -> (f: DummyFuture)
        ensures
            f.inv(),
            f.count_spec() == 0,
            f.threshold_spec() == steps,
    {
        DummyFuture { count: 0, threshold: steps }
    }

    pub fn count(&self) -> (r: u8)
        ensures
            r == self.count_spec(),
    {
        self.count
    }

    pub fn threshold(&self) -> (r: u8)
        ensures
            r == self.threshold_spec(),
    {
        self.threshold
    }
}

impl Task for DummyFuture {
    type Output = u8;

    closed spec fn inv(&self) -> bool {
        self.count <= self.threshold
    }

    open spec fn done(&self) -> bool {
        false
    }

    closed spec fn pending_left(&self) -> nat {
        (self.threshold - self.count) as nat
    }

    open spec fn output(&self) -> u8 {
        READY_VALUE
    }

    fn poll(&mut self, _cx: &Context) -> (r: Poll<u8>)
        ensures
            *final(self) == old(self).stepped(),
            r == old(self).outcome(),
            final(self).threshold_spec() == old(self).threshold_spec(),
            old(self).count_spec() < old(self).threshold_spec() ==> {
                &&& r == Poll::<u8>::Pending
                &&& final(self).count_spec() == old(self).count_spec() + 1
            },
            old(self).count_spec() >= old(self).threshold_spec() ==> {
                &&& r == Poll::Ready(READY_VALUE)
                &&& *final(self) == *old(self)
            },
    {
        if self.count >= self.threshold {
            Poll::Ready(READY_VALUE)
        } else {
            self.count = self.count + 1;
            Poll::Pending
        }
    }
}

/// A parent task that awaits a two-step child and then completes with `()`.
/// Each `Pending` of the child is passed up unchanged; the parent has no
/// steps of its own, so it needs exactly as many polls as the child.
/// Once it has reported `Ready` it is finished and must not be polled again.
pub struct HelloWorld {
    child: DummyFuture,
    finished: bool,
}

impl HelloWorld {
    /// A parent that has not yet been polled, awaiting `child`.
    pub closed spec fn awaiting(child: DummyFuture) -> HelloWorld {
        HelloWorld { child, finished: false }
    }

    /// The state after one poll.
    pub closed spec fn stepped(self) -> HelloWorld {
        if self.finished {
            self
        } else {
            HelloWorld { child: self.child.stepped(), finished: self.child.outcome() is Ready }
        }
    }

    /// What one poll of an unfinished parent reports.
    pub closed spec fn outcome(self) -> Poll<()> {
        if self.child.outcome() is Ready {
            Poll::Ready(())
        } else {
            Poll::Pending
        }
    }

    /// The state after `k` polls.
    pub closed spec fn after(self, k: nat) -> HelloWorld
        decreases k,
    {
        if k == 0 {
            self
        } else {
            self.stepped().after((k - 1) as nat)
        }
    }

    /// The parent of a fresh two-step child.
    pub fn new() -> (t: HelloWorld)
        ensures
            t.inv(),
            !t.done(),
            t.pending_left() == 1,
    {
        HelloWorld::from_child(DummyFuture::new())
    }

    /// The parent of `child`.
    pub fn from_child(child: DummyFuture) -> (t: HelloWorld)
        requires
            child.inv(),
        ensures
            t == HelloWorld::awaiting(child),
            t.inv(),
            !t.done(),
            t.pending_left() == child.pending_left(),
    {
        HelloWorld { child, finished: false }
    }

    /// Whether the task has completed and may no longer be polled.
    pub fn is_done(&self) -> (r: bool)
        ensures
            r == self.done(),
    {
        self.finished
    }
}

impl Task for HelloWorld {
    type Output = ();

    closed spec fn inv(&self) -> bool {
        self.child.inv()
    }

    closed spec fn done(&self) -> bool {
        self.finished
    }

    closed spec fn pending_left(&self) -> nat {
        self.child.pending_left()
    }

    open spec fn output(&self) -> () {
        ()
    }

    fn poll(&mut self, cx: &Context) -> (r: Poll<()>)
        ensures
            *final(self) == old(self).stepped(),
            r == old(self).outcome(),
            final(self).done() == (r is Ready),
    {
        let r = self.child.poll(cx);
        match r {
            Poll::Ready(_) => {
                self.finished = true;
                Poll::Ready(())
            },
            Poll::Pending => Poll::Pending,
        }
    }
}

/// After `k` polls a well-formed task has counted `k` more `Pending` results,
/// as long as `k` does not pass the threshold.
proof fn lemma_after_counts(f: DummyFuture, k: nat)
    requires
        f.inv(),
        k <= f.pending_left(),
    ensures
        f.after(k).count_spec() == f.count_spec() + k,
        f.after(k).threshold_spec() == f.threshold_spec(),
        f.after(k).inv(),
    decreases k,
{
    if k > 0 {
        lemma_after_counts(f.stepped(), (k - 1) as nat);
    }
}

/// Polling before the threshold is reached always reports `Pending`, and
/// each such poll moves the count up by exactly one, never past the
/// threshold.
pub proof fn lemma_pending_until_threshold(f: DummyFuture, k: nat)
    requires
        f.inv(),
        k < f.pending_left(),
    ensures
        f.after(k).outcome() == Poll::<u8>::Pending,
        f.after(k).count_spec() == f.count_spec() + k,
        f.after(k).count_spec() < f.threshold_spec(),
        f.after(k).pending_left() == f.pending_left() - k,
{
    lemma_after_counts(f, k);
}

/// Once as many polls as there are `Pending` results to come have been made,
/// the next poll reports `Ready(READY_VALUE)`, and so does every later one,
/// with no further change of state.
pub proof fn lemma_ready_at_threshold(f: DummyFuture, j: nat)
    requires
        f.inv(),
    ensures
        f.after(f.pending_left() + j) == f.after(f.pending_left()),
        f.after(f.pending_left()).outcome() == Poll::Ready(READY_VALUE),
        f.after(f.pending_left()).count_spec() == f.threshold_spec(),
    decreases f.pending_left(),
{
    lemma_after_counts(f, f.pending_left());
    if f.pending_left() > 0 {
        lemma_ready_at_threshold(f.stepped(), j);
    } else {
        lemma_done_is_fixed(f, j);
    }
}

proof fn lemma_done_is_fixed(f: DummyFuture, j: nat)
    requires
        f.count_spec() >= f.threshold_spec(),
    ensures
        f.after(j) == f,
    decreases j,
{
    if j > 0 {
        lemma_done_is_fixed(f.stepped(), (j - 1) as nat);
    }
}

/// A parent awaiting `child` passes each of the child's polls through: after
/// `k` polls, for `k` up to the child's completion, it awaits exactly the
/// child's own state after `k` polls, and reports `Pending` or `Ready` just
/// when the child does. The parent adds no steps of its own, so it needs as
/// many polls as the child to complete.
pub proof fn lemma_parent_follows_child(child: DummyFuture, k: nat)
    requires
        child.inv(),
        k <= child.pending_left(),
    ensures
        HelloWorld::awaiting(child).after(k) == HelloWorld::awaiting(child.after(k)),
        HelloWorld::awaiting(child.after(k)).outcome() is Pending
            <==> child.after(k).outcome() is Pending,
        HelloWorld::awaiting(child).pending_left() == child.pending_left(),
        k == child.pending_left() ==> HelloWorld::awaiting(child.after(k)).outcome() == Poll::Ready(()),
    decreases k,
{
    if k > 0 {
        assert(child.outcome() is Pending);
        lemma_parent_follows_child(child.stepped(), (k - 1) as nat);
    }
    if k == child.pending_left() {
        lemma_ready_at_threshold(child, 0);
    }
}

} // verus!
