use vstd::prelude::*;

verus! {

/// The tri-state of the single-slot waker cell: no interest, an interest held
/// as the foreign runtime's native callback handle, or a clone of a generic
/// waker. Both kinds of handle are carried as plain identifiers.
#[derive(Clone, Copy, Debug, PartialEq, Eq, Structural)]
pub enum WakerState {
    Empty,
    NativeCallback(u64),
    GenericWaker(u64),
}

/// What the foreign runtime's notification path delivered when it read the
/// waker cell: nothing (the cell was empty), one invocation of a native
/// callback, or one wake of a generic waker.
#[derive(Clone, Copy, Debug, PartialEq, Eq, Structural)]
pub enum WakeOutcome {
    NoInterest,
    WokeNative(u64),
    WokeGeneric(u64),
}

impl WakerState {
    /// The cell state after storing a clone of a generic waker: the newer
    /// interest supersedes whatever was stored before.
    pub open spec fn after_set(self, waker: u64) -> WakerState {
        WakerState::GenericWaker(waker)
    }

    /// The cell state after storing a native callback handle: the newer
    /// interest supersedes whatever was stored before.
    pub open spec fn after_set_native(self, handle: u64) -> WakerState {
        WakerState::NativeCallback(handle)
    }

    /// The single notification the foreign wake path delivers when it reads a
    /// cell in this state.
    pub open spec fn wake_outcome(self) -> WakeOutcome {
        match self {
            WakerState::Empty => WakeOutcome::NoInterest,
            WakerState::NativeCallback(h) => WakeOutcome::WokeNative(h),
            WakerState::GenericWaker(w) => WakeOutcome::WokeGeneric(w),
        }
    }
}

/// A single-slot, overwrite-on-write holder for the current interest in being
/// woken. A newer interest supersedes an older one without ever producing two
/// notifications for one stored interest; the foreign wake path reads the
/// slot, delivers at most one notification, and clears it. Safe only under
/// the bridge's single-active-loop discipline, not by synchronization.
pub struct RustWaker {
    slot: WakerState,
}

impl RustWaker {
    /// The interest currently stored in the cell.
    pub closed spec fn state(&self) -> WakerState {
        self.slot
    }

    /// A fresh cell, holding no interest.
    pub fn empty() -> (w: RustWaker)
        ensures
            w.state() == WakerState::Empty,
    {
        RustWaker { slot: WakerState::Empty }
    }

    /// Clears the cell, discarding any stored interest.
    pub fn set_none(&mut self)
        ensures
            final(self).state() == WakerState::Empty,
    {
        self.slot = WakerState::Empty;
    }

    /// Stores a clone of a generic waker, discarding any prior content.
    pub fn set(&mut self, waker: u64)
        ensures
            final(self).state() == old(self).state().after_set(waker),
    {
        self.slot = WakerState::GenericWaker(waker);
    }

    /// Stores a native callback handle, discarding any prior content.
    pub fn set_native(&mut self, handle: u64)
        ensures
            final(self).state() == old(self).state().after_set_native(handle),
    {
        self.slot = WakerState::NativeCallback(handle);
    }

    /// The foreign runtime's notification path: reads the cell, delivers
    /// exactly one notification if an interest is stored (none otherwise),
    /// and clears the cell.
    pub fn wake(&mut self) -> (delivered: WakeOutcome)
        ensures
            delivered == old(self).state().wake_outcome(),
            final(self).state() == WakerState::Empty,
    {
        let current = self.slot;
        self.slot = WakerState::Empty;
        match current {
            WakerState::Empty => WakeOutcome::NoInterest,
            WakerState::NativeCallback(h) => WakeOutcome::WokeNative(h),
            WakerState::GenericWaker(w) => WakeOutcome::WokeGeneric(w),
        }
    }

    /// The stored interest, for inspection.
    pub fn current(&self) -> (s: WakerState)
        ensures
            s == self.state(),
    {
        self.slot
    }
}

/// Law: arming the cell twice in succession, with no intervening wake, keeps
/// exactly one stored interest — the newer one — and the foreign wake path
/// then delivers exactly one notification, for that interest.
pub proof fn lemma_wake_interest_overwrite(s: WakerState, first: u64, second: u64)
    ensures
        s.after_set(first).after_set(second) == WakerState::GenericWaker(second),
        s.after_set(first).after_set(second).wake_outcome() == WakeOutcome::WokeGeneric(second),
{
}

/// The waker a poll receives from the host scheduler, as this bridge reads
/// it: either it wraps the foreign runtime's own native callback handle, or
/// it is a generic waker known only by identity.
#[derive(Clone, Copy, Debug, PartialEq, Eq, Structural)]
pub enum PollWaker {
    Native(u64),
    Generic(u64),
}

impl PollWaker {
    /// The native callback handle this waker wraps, if it wraps one.
    pub open spec fn native_handle(self) -> Option<u64> {
        match self {
            PollWaker::Native(h) => Some(h),
            PollWaker::Generic(_) => None,
        }
    }
}

/// The one inspection point deciding between the bridge's two poll paths:
/// reports the native callback handle when the waker actually originates from
/// the foreign runtime's callback mechanism, and "not native" otherwise.
pub fn deref_co_await_waker(waker: &PollWaker) -> (handle: Option<u64>)
    ensures
        handle == waker.native_handle(),
{
    match waker {
        PollWaker::Native(h) => Some(*h),
        PollWaker::Generic(_) => None,
    }
}

} // verus!
