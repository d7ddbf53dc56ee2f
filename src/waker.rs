use vstd::prelude::*;

verus! {

/// The untyped core of a waker: the scheduling slot it would notify.
/// The no-op waker refers to no slot at all.
#[derive(Clone, Copy, Debug, PartialEq, Eq)]
pub struct RawWaker {
    pub slot: Option<usize>,
}

/// A copyable notification handle handed to a task on every poll.
#[derive(Clone, Copy, Debug, PartialEq, Eq)]
pub struct Waker {
    raw: RawWaker,
}

/// The raw parts of a waker that notifies nobody.
pub fn noop_raw_waker() -> (r: RawWaker)
    ensures
        r.slot is None,
{
    RawWaker { slot: None }
}

/// A waker whose `wake` does nothing: there is no event source to notify.
pub fn noop_waker() -> (w: Waker)
    ensures
        w.is_noop(),
{
    Waker { raw: noop_raw_waker() }
}

impl Waker {
    /// The waker schedules nothing when woken.
    pub closed spec fn is_noop(&self) -> bool {
        self.raw.slot is None
    }

    /// The slot whose task a wake-up would schedule, if any.
    pub closed spec fn target(&self) -> Option<usize> {
        self.raw.slot
    }

    /// Builds a waker from its raw parts.
    pub fn from_raw(raw: RawWaker) -> (w: Waker)
        ensures
            w.target() == raw.slot,
    {
        Waker { raw }
    }

    /// Asks for another poll of the associated task. Returns the slot that
    /// would be scheduled; a no-op waker schedules none. Waking changes
    /// nothing, so it is harmless at any time, also after completion.
    pub fn wake_by_ref(&self) -> (scheduled: Option<usize>)
        ensures
            scheduled == self.target(),
            self.is_noop() ==> scheduled is None,
    {
        self.raw.slot
    }
}

/// The per-poll bundle handed to a task: the current waker and nothing else.
#[derive(Clone, Copy, Debug)]
pub struct Context {
    waker: Waker,
}

impl Context {
    pub closed spec fn waker_spec(&self) -> Waker {
        self.waker
    }

    pub fn from_waker(waker: &Waker) -> (cx: Context)
        ensures
            cx.waker_spec() == *waker,
    {
        Context { waker: *waker }
    }

    pub fn waker(&self) -> (w: &Waker)
        ensures
            *w == self.waker_spec(),
    {
        &self.waker
    }
}

} // verus!
