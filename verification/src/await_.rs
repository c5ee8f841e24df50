use vstd::prelude::*;

use crate::lazy_pin_init::LazyPinInit;
use crate::promise::OwnPromiseNode;
use crate::waker::PollWaker;
use crate::waker::RustWaker;
use crate::waker::WakeOutcome;
use crate::waker::WakerState;
use crate::waker::deref_co_await_waker;

verus! {

/// A non-owning reference to a guarded awaiter, carried as the identity of
/// the promise node the awaiter is bound to. It is the token the modeled
/// construction and destruction entry points exchange; it never owns the
/// awaiter it refers to.
#[derive(Clone, Copy, Debug, PartialEq, Eq, Structural)]
pub struct PtrGuardedRustPromiseAwaiter(pub u64);

/// The live binding between one consumed promise node and the bridge that
/// awaits it. It records the event loop the node belongs to at construction
/// and demands, as a precondition of both poll entry points, that this loop
/// is the one currently active: polling under any other loop is a fatal
/// scheduling error in the modeled runtime and is excluded here. The awaiter
/// is address-sensitive in the foreign runtime, so it is only ever
/// constructed in place, inside a `LazyPinInit` slot.
pub struct GuardedRustPromiseAwaiter {
    node: OwnPromiseNode,
    loop_id: u64,
    co_await_waker: Option<u64>,
    polls: Ghost<nat>,
}

impl GuardedRustPromiseAwaiter {
    /// The promise node this awaiter consumed.
    pub closed spec fn node(&self) -> OwnPromiseNode {
        self.node
    }

    /// The event loop recorded at construction.
    pub closed spec fn loop_id(&self) -> u64 {
        self.loop_id
    }

    /// How many times either poll entry point has run.
    pub closed spec fn polls(&self) -> nat {
        self.polls@
    }

    /// The native callback handle registered by the last poll, if the last
    /// poll used the fast path.
    pub closed spec fn co_await_waker(&self) -> Option<u64> {
        self.co_await_waker
    }

    /// The recorded loop is the loop of the bound node.
    pub open spec fn wf(&self) -> bool {
        self.loop_id() == self.node().loop_id()
    }

    /// The modeled construction entry point: consumes the promise node,
    /// registers it with the bridge, and records the event loop it belongs
    /// to. Must be invoked at most once per awaiter, which the bridge's
    /// deferred initializer enforces.
    pub fn new_in_place(node: OwnPromiseNode) -> (awaiter: GuardedRustPromiseAwaiter)
        ensures
            awaiter.node() == node,
            awaiter.loop_id() == node.loop_id(),
            awaiter.polls() == 0,
            awaiter.co_await_waker() is None,
            awaiter.wf(),
    {
        let loop_id = node.event_loop();
        GuardedRustPromiseAwaiter { node, loop_id, co_await_waker: None, polls: Ghost(0nat) }
    }

    /// The generic poll entry point: with the bound event loop active,
    /// reports whether the bridged computation has completed. Interest was
    /// already armed in the waker cell by the caller, so any native handle
    /// registered by an earlier fast-path poll is dropped.
    pub fn poll(&mut self, active_loop: Option<u64>) -> (done: bool)
        requires
            active_loop == Some(old(self).loop_id()),
        ensures
            done == old(self).node().is_resolved(),
            final(self).node() == old(self).node(),
            final(self).loop_id() == old(self).loop_id(),
            final(self).polls() == old(self).polls() + 1,
            final(self).co_await_waker() is None,
    {
        proof {
            self.polls@ = self.polls@ + 1;
        }
        self.co_await_waker = None;
        self.node.resolved()
    }

    /// The fast poll entry point: with the bound event loop active, registers
    /// the foreign runtime's own native callback handle directly, bypassing
    /// the waker cell, and reports whether the bridged computation has
    /// completed.
    pub fn poll_with_co_await_waker(&mut self, active_loop: Option<u64>, waker: u64) -> (done:
        bool)
        requires
            active_loop == Some(old(self).loop_id()),
        ensures
            done == old(self).node().is_resolved(),
            final(self).node() == old(self).node(),
            final(self).loop_id() == old(self).loop_id(),
            final(self).polls() == old(self).polls() + 1,
            final(self).co_await_waker() == Some(waker),
    {
        proof {
            self.polls@ = self.polls@ + 1;
        }
        self.co_await_waker = Some(waker);
        self.node.resolved()
    }

    /// The foreign event loop completes the computation behind the consumed
    /// node.
    pub fn resolve(&mut self)
        ensures
            final(self).node().id() == old(self).node().id(),
            final(self).node().loop_id() == old(self).node().loop_id(),
            final(self).node().is_resolved(),
            final(self).loop_id() == old(self).loop_id(),
            final(self).polls() == old(self).polls(),
            final(self).co_await_waker() == old(self).co_await_waker(),
            old(self).wf() ==> final(self).wf(),
    {
        self.node.resolve();
    }

    /// The non-owning token referring to this awaiter.
    pub fn ptr(&self) -> (p: PtrGuardedRustPromiseAwaiter)
        ensures
            p == PtrGuardedRustPromiseAwaiter(self.node().id()),
    {
        PtrGuardedRustPromiseAwaiter(self.node.identity())
    }

    /// The modeled destruction entry point: tears the awaiter down in place,
    /// releasing the consumed promise node with it, and reports which awaiter
    /// was destroyed. The pointer-level teardown done here is safe with or
    /// without the event loop active.
    pub fn drop_in_place(self) -> (p: PtrGuardedRustPromiseAwaiter)
        ensures
            p == PtrGuardedRustPromiseAwaiter(self.node().id()),
    {
        self.ptr()
    }

    /// The event loop recorded at construction, for inspection.
    pub fn bound_loop(&self) -> (l: u64)
        ensures
            l == self.loop_id(),
    {
        self.loop_id
    }

    /// Whether the bridged computation has completed, for inspection.
    pub fn resolved(&self) -> (r: bool)
        ensures
            r == self.node().is_resolved(),
    {
        self.node.resolved()
    }

    /// The identity of the consumed node, for inspection.
    pub fn node_identity(&self) -> (i: u64)
        ensures
            i == self.node().id(),
    {
        self.node.identity()
    }

    /// The native callback handle registered by the last fast-path poll, for
    /// inspection.
    pub fn co_await_handle(&self) -> (h: Option<u64>)
        ensures
            h == self.co_await_waker(),
    {
        self.co_await_waker
    }
}

/// What a poll reports to the host scheduler: the bridged computation is
/// complete, or the future is suspended until a wake is delivered.
#[derive(Clone, Copy, Debug, PartialEq, Eq, Structural)]
pub enum PollOutcome {
    Ready,
    Pending,
}

/// One step of a bridge's teardown, in the order the steps happen.
#[derive(Clone, Copy, Debug, PartialEq, Eq, Structural)]
pub enum DropStep {
    AwaiterDropped(PtrGuardedRustPromiseAwaiter),
    NodeDropped,
    WakerCellDropped,
}

/// The public future that bridges one foreign promise node to a host
/// future/poll abstraction. It owns the not-yet-consumed node, the deferred
/// slot for the guarded awaiter, and the waker cell, and tears them down in
/// exactly that order, so the cell that the awaiter refers to is destroyed
/// strictly after the awaiter. The awaiter is constructed on the first poll
/// only; a bridge that is never polled never runs the foreign constructor.
pub struct LazyRustPromiseAwaiter {
    node: Option<OwnPromiseNode>,
    awaiter: LazyPinInit<GuardedRustPromiseAwaiter>,
    rust_waker: RustWaker,
    done: bool,
    ctor_calls: u64,
}

impl LazyRustPromiseAwaiter {
    /// Whether the first poll has happened, so the awaiter exists and the
    /// node has been consumed.
    pub closed spec fn is_armed(&self) -> bool {
        self.awaiter.is_init()
    }

    /// Whether a poll has already reported completion; `Ready` is terminal.
    pub closed spec fn is_done(&self) -> bool {
        self.done
    }

    /// How many times the foreign construction entry point has run.
    pub closed spec fn construction_count(&self) -> u64 {
        self.ctor_calls
    }

    /// The event loop the bridged node is bound to.
    pub closed spec fn loop_id(&self) -> u64 {
        if self.node is Some {
            self.node->Some_0.loop_id()
        } else {
            self.awaiter.value().loop_id()
        }
    }

    /// The identity of the bridged node.
    pub closed spec fn node_id(&self) -> u64 {
        if self.node is Some {
            self.node->Some_0.id()
        } else {
            self.awaiter.value().node().id()
        }
    }

    /// Whether the bridged computation has completed.
    pub closed spec fn is_resolved(&self) -> bool {
        if self.node is Some {
            self.node->Some_0.is_resolved()
        } else {
            self.awaiter.value().node().is_resolved()
        }
    }

    /// The interest currently stored in the waker cell.
    pub closed spec fn waker_state(&self) -> WakerState {
        self.rust_waker.state()
    }

    /// The native callback handle the awaiter holds registered, if the last
    /// poll used the fast path.
    pub closed spec fn co_await_interest(&self) -> Option<u64> {
        if self.awaiter.is_init() {
            self.awaiter.value().co_await_waker()
        } else {
            None
        }
    }

    /// How many foreign poll calls the guarded awaiter has seen.
    pub closed spec fn awaiter_polls(&self) -> nat {
        if self.awaiter.is_init() {
            self.awaiter.value().polls()
        } else {
            0
        }
    }

    /// The bridge's invariant: the node is held exactly until the awaiter is
    /// constructed; the foreign constructor has run once if and only if the
    /// bridge is armed; a completed bridge is armed and its computation has
    /// resolved.
    pub closed spec fn wf(&self) -> bool {
        &&& (self.node is Some <==> !self.awaiter.is_init())
        &&& (self.node is Some ==> self.ctor_calls == 0)
        &&& (self.awaiter.is_init() ==> self.ctor_calls == 1 && self.awaiter.value().wf())
        &&& (self.done ==> self.awaiter.is_init() && self.awaiter.value().node().is_resolved())
    }

    /// The state a bridge is in right after being created from `node`:
    /// unpolled, nothing constructed, the waker cell empty.
    pub open spec fn fresh_from(&self, node: OwnPromiseNode) -> bool {
        &&& self.wf()
        &&& !self.is_armed()
        &&& !self.is_done()
        &&& self.construction_count() == 0
        &&& self.waker_state() == WakerState::Empty
        &&& self.loop_id() == node.loop_id()
        &&& self.node_id() == node.id()
        &&& self.is_resolved() == node.is_resolved()
        &&& self.awaiter_polls() == 0
    }

    /// Wraps a promise node into a bridge future without consuming it: the
    /// node is only handed to the foreign runtime on the first poll.
    pub fn new(node: OwnPromiseNode) -> (bridge: LazyRustPromiseAwaiter)
        ensures
            bridge.fresh_from(node),
    {
        LazyRustPromiseAwaiter {
            node: Some(node),
            awaiter: LazyPinInit::uninit(),
            rust_waker: RustWaker::empty(),
            done: false,
            ctor_calls: 0,
        }
    }

    /// Hands out the guarded awaiter, constructing it from the stored node on
    /// the first call only: later calls find the node slot empty and the
    /// awaiter already built.
    fn get_awaiter(&mut self) -> (awaiter: &mut GuardedRustPromiseAwaiter)
        requires
            old(self).wf(),
        ensures
            awaiter.wf(),
            awaiter.loop_id() == old(self).loop_id(),
            awaiter.node().id() == old(self).node_id(),
            awaiter.node().is_resolved() == old(self).is_resolved(),
            awaiter.polls() == old(self).awaiter_polls(),
            final(self).node is None,
            final(self).awaiter.is_init(),
            final(self).awaiter.value() == *final(awaiter),
            final(self).rust_waker == old(self).rust_waker,
            final(self).done == old(self).done,
            final(self).ctor_calls == 1,
    {
        let node = self.node.take();
        if node.is_some() {
            self.ctor_calls = self.ctor_calls + 1;
        }
        self.awaiter.get_or_init(
            (move || -> (fresh: GuardedRustPromiseAwaiter)
                requires
                    node is Some,
                ensures
                    fresh.wf(),
                    fresh.node() == node->Some_0,
                    fresh.loop_id() == node->Some_0.loop_id(),
                    fresh.polls() == 0,
                {
                    GuardedRustPromiseAwaiter::new_in_place(node.unwrap())
                }),
        )
    }

    /// What one poll on the correct event loop does: it arms exactly one
    /// wake-interest (or, on the fast path, none), constructs the awaiter on
    /// the first call only, makes exactly one foreign poll, and reports
    /// `Ready` exactly when the computation has resolved — except that a
    /// bridge which already reported `Ready` is left untouched and reports
    /// `Ready` again without any foreign call.
    pub open spec fn poll_post(pre: Self, post: Self, waker: PollWaker, outcome: PollOutcome) -> bool {
        &&& post.wf()
        &&& post.loop_id() == pre.loop_id()
        &&& post.node_id() == pre.node_id()
        &&& post.is_resolved() == pre.is_resolved()
        &&& post.is_armed()
        &&& post.construction_count() == 1
        &&& post.is_done() == (pre.is_done() || pre.is_resolved())
        &&& outcome == (if post.is_done() {
            PollOutcome::Ready
        } else {
            PollOutcome::Pending
        })
        &&& (pre.is_done() ==> post == pre && outcome == PollOutcome::Ready)
        &&& (!pre.is_done() ==> post.waker_state() == (match waker {
            PollWaker::Native(_) => WakerState::Empty,
            PollWaker::Generic(w) => WakerState::GenericWaker(w),
        }))
        &&& (!pre.is_done() ==> post.awaiter_polls() == pre.awaiter_polls() + 1)
        &&& (pre.is_done() ==> post.awaiter_polls() == pre.awaiter_polls())
        &&& (!pre.is_done() ==> post.co_await_interest() == waker.native_handle())
    }

    /// Polls the bridge. The bound event loop must be the active one; polling
    /// under any other loop is a fatal scheduling error, excluded here and
    /// refused with no state change by `poll_checked`. A waker that wraps the
    /// foreign runtime's native callback takes the fast path, which leaves
    /// the waker cell empty; any other waker is stored in the cell,
    /// superseding the previous interest, before the foreign poll.
    pub fn poll(&mut self, active_loop: Option<u64>, waker: &PollWaker) -> (outcome: PollOutcome)
        requires
            old(self).wf(),
            active_loop == Some(old(self).loop_id()),
        ensures
            Self::poll_post(*old(self), *final(self), *waker, outcome),
    {
        if self.done {
            return PollOutcome::Ready;
        }
        let done = if let Some(native_handle) = deref_co_await_waker(waker) {
            self.rust_waker.set_none();
            let awaiter = self.get_awaiter();
            awaiter.poll_with_co_await_waker(active_loop, native_handle)
        } else {
            let generic = match *waker {
                PollWaker::Generic(w) => w,
                PollWaker::Native(_) => vstd::pervasive::unreached(),
            };
            self.rust_waker.set(generic);
            let awaiter = self.get_awaiter();
            awaiter.poll(active_loop)
        };
        if done {
            self.done = true;
            PollOutcome::Ready
        } else {
            PollOutcome::Pending
        }
    }

    /// Polls only if the bound event loop is the active one; otherwise
    /// refuses, changing nothing, so the caller can abort as the scheduling
    /// discipline demands. This is the loop-affinity guard made checkable: a
    /// refused poll mutates neither the waker cell nor the awaiter.
    pub fn poll_checked(&mut self, active_loop: Option<u64>, waker: &PollWaker) -> (outcome:
        Option<PollOutcome>)
        requires
            old(self).wf(),
        ensures
            outcome is Some <==> active_loop == Some(old(self).loop_id()),
            outcome is None ==> *final(self) == *old(self),
            outcome is Some ==> Self::poll_post(
                *old(self),
                *final(self),
                *waker,
                outcome->Some_0,
            ),
    {
        let bound = self.bound_loop();
        let on_bound_loop = match active_loop {
            Some(l) => l == bound,
            None => false,
        };
        if on_bound_loop {
            Some(self.poll(active_loop, waker))
        } else {
            None
        }
    }

    /// The foreign event loop completes the bridged computation, wherever the
    /// node currently lives: still held by the bridge, or consumed into the
    /// awaiter.
    pub fn resolve(&mut self)
        requires
            old(self).wf(),
        ensures
            final(self).wf(),
            final(self).is_resolved(),
            final(self).loop_id() == old(self).loop_id(),
            final(self).node_id() == old(self).node_id(),
            final(self).is_armed() == old(self).is_armed(),
            final(self).is_done() == old(self).is_done(),
            final(self).construction_count() == old(self).construction_count(),
            final(self).waker_state() == old(self).waker_state(),
            final(self).awaiter_polls() == old(self).awaiter_polls(),
            final(self).co_await_interest() == old(self).co_await_interest(),
    {
        match &mut self.node {
            Some(n) => n.resolve(),
            None => {
                let awaiter = self.awaiter.borrow_mut();
                awaiter.resolve();
            },
        }
    }

    /// The foreign runtime's wake path, reading this bridge's waker cell:
    /// delivers exactly one notification if an interest is stored (none
    /// otherwise) and clears the cell. Nothing else changes.
    pub fn deliver_wake(&mut self) -> (delivered: WakeOutcome)
        ensures
            delivered == old(self).waker_state().wake_outcome(),
            final(self).waker_state() == WakerState::Empty,
            final(self).loop_id() == old(self).loop_id(),
            final(self).node_id() == old(self).node_id(),
            final(self).is_resolved() == old(self).is_resolved(),
            final(self).is_armed() == old(self).is_armed(),
            final(self).is_done() == old(self).is_done(),
            final(self).construction_count() == old(self).construction_count(),
            final(self).awaiter_polls() == old(self).awaiter_polls(),
            final(self).co_await_interest() == old(self).co_await_interest(),
            old(self).wf() ==> final(self).wf(),
    {
        self.rust_waker.wake()
    }

    /// Tears the bridge down, field by field in declaration order, and
    /// reports each step: an unpolled bridge releases the never-consumed node
    /// without ever running the foreign constructor; an armed bridge destroys
    /// the guarded awaiter (releasing the consumed node with it) strictly
    /// before the waker cell the awaiter refers to. Either way the node is
    /// released exactly once and the cell is destroyed last, so no callback
    /// reference outlives its target. Dropping the bridge before `Ready` is
    /// the bridge's only cancellation mechanism.
    pub fn dismantle(self) -> (trace: Vec<DropStep>)
        requires
            self.wf(),
        ensures
            !self.is_armed() ==> trace@ == seq![
                DropStep::NodeDropped,
                DropStep::WakerCellDropped,
            ],
            self.is_armed() ==> trace@ == seq![
                DropStep::AwaiterDropped(PtrGuardedRustPromiseAwaiter(self.node_id())),
                DropStep::NodeDropped,
                DropStep::WakerCellDropped,
            ],
    {
        let LazyRustPromiseAwaiter { node, awaiter, rust_waker, done: _, ctor_calls: _ } = self;
        let mut trace: Vec<DropStep> = Vec::new();
        match node {
            Some(_unconsumed) => {
                trace.push(DropStep::NodeDropped);
            },
            None => {},
        }
        match awaiter.into_value() {
            Some(live) => {
                let p = live.drop_in_place();
                trace.push(DropStep::AwaiterDropped(p));
                trace.push(DropStep::NodeDropped);
            },
            None => {},
        }
        let _cell = rust_waker;
        trace.push(DropStep::WakerCellDropped);
        proof {
            if self.is_armed() {
                assert(trace@ =~= seq![
                    DropStep::AwaiterDropped(PtrGuardedRustPromiseAwaiter(self.node_id())),
                    DropStep::NodeDropped,
                    DropStep::WakerCellDropped,
                ]);
            } else {
                assert(trace@ =~= seq![DropStep::NodeDropped, DropStep::WakerCellDropped]);
            }
        }
        trace
    }

    /// Whether the first poll has happened, for inspection.
    pub fn armed(&self) -> (r: bool)
        ensures
            r == self.is_armed(),
    {
        self.awaiter.initialized()
    }

    /// Whether a poll has already reported `Ready`, for inspection.
    pub fn ready(&self) -> (r: bool)
        ensures
            r == self.is_done(),
    {
        self.done
    }

    /// How many times the foreign construction entry point has run, for
    /// inspection.
    pub fn constructions(&self) -> (n: u64)
        ensures
            n == self.construction_count(),
    {
        self.ctor_calls
    }

    /// The event loop the bridged node is bound to, for inspection.
    pub fn bound_loop(&self) -> (l: u64)
        requires
            self.wf(),
        ensures
            l == self.loop_id(),
    {
        match &self.node {
            Some(n) => n.event_loop(),
            None => self.awaiter.borrow().bound_loop(),
        }
    }

    /// The identity of the bridged node, for inspection.
    pub fn node_identity(&self) -> (i: u64)
        requires
            self.wf(),
        ensures
            i == self.node_id(),
    {
        match &self.node {
            Some(n) => n.identity(),
            None => self.awaiter.borrow().node_identity(),
        }
    }

    /// Whether the bridged computation has completed, for inspection.
    pub fn resolved(&self) -> (r: bool)
        requires
            self.wf(),
        ensures
            r == self.is_resolved(),
    {
        match &self.node {
            Some(n) => n.resolved(),
            None => self.awaiter.borrow().resolved(),
        }
    }

    /// The native callback handle the awaiter holds registered, for
    /// inspection.
    pub fn native_interest(&self) -> (h: Option<u64>)
        ensures
            h == self.co_await_interest(),
    {
        if self.awaiter.initialized() {
            self.awaiter.borrow().co_await_handle()
        } else {
            None
        }
    }

    /// The interest currently stored in the waker cell, for inspection.
    pub fn current_waker(&self) -> (s: WakerState)
        ensures
            s == self.waker_state(),
    {
        self.rust_waker.current()
    }
}

impl OwnPromiseNode {
    /// Converts the node into the future a host scheduler can poll. The node
    /// is not consumed into the foreign runtime here: that happens on the
    /// first poll.
    pub fn into_future(self) -> (bridge: LazyRustPromiseAwaiter)
        ensures
            bridge.fresh_from(self),
    {
        LazyRustPromiseAwaiter::new(self)
    }
}

/// Law: however many times a bridge has been polled, once it is armed — and
/// every poll leaves it armed — the foreign construction entry point has run
/// exactly once; until then it has not run at all.
pub proof fn lemma_single_construction(bridge: LazyRustPromiseAwaiter)
    requires
        bridge.wf(),
    ensures
        bridge.is_armed() ==> bridge.construction_count() == 1,
        !bridge.is_armed() ==> bridge.construction_count() == 0,
{
}

/// Law: along any run of polls — `states` the bridge states, with each
/// consecutive pair related as one poll relates them — the foreign
/// construction entry point has run exactly once at every state after the
/// first poll, however long the run is.
pub proof fn lemma_single_construction_along_polls(
    states: Seq<LazyRustPromiseAwaiter>,
    wakers: Seq<PollWaker>,
    outcomes: Seq<PollOutcome>,
)
    requires
        states.len() == wakers.len() + 1,
        outcomes.len() == wakers.len(),
        forall|i: int|
            0 <= i < wakers.len() ==> #[trigger] LazyRustPromiseAwaiter::poll_post(
                states[i],
                states[i + 1],
                wakers[i],
                outcomes[i],
            ),
    ensures
        forall|i: int| 1 <= i < states.len() ==> #[trigger] states[i].construction_count() == 1,
{
    assert forall|i: int| 1 <= i < states.len() implies #[trigger] states[i].construction_count()
        == 1 by {
        let j = i - 1;
        assert(LazyRustPromiseAwaiter::poll_post(states[j], states[j + 1], wakers[j], outcomes[j]));
    }
}

} // verus!

