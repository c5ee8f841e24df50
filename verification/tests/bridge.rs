use promise_bridge::DropStep;
use promise_bridge::GuardedRustPromiseAwaiter;
use promise_bridge::LazyRustPromiseAwaiter;
use promise_bridge::OwnPromiseNode;
use promise_bridge::PollOutcome;
use promise_bridge::PollWaker;
use promise_bridge::PtrGuardedRustPromiseAwaiter;
use promise_bridge::WakeOutcome;
use promise_bridge::WakerState;

const LOOP: u64 = 3;

#[test]
fn scenario_a_resolved_node_is_ready_on_first_poll() {
    let node = OwnPromiseNode::new(7, LOOP, true);
    let mut bridge = node.into_future();
    assert!(!bridge.armed());
    assert_eq!(bridge.constructions(), 0);
    let outcome = bridge.poll_checked(Some(LOOP), &PollWaker::Generic(5));
    assert_eq!(outcome, Some(PollOutcome::Ready));
    assert!(bridge.ready());
    assert!(bridge.armed());
}

#[test]
fn scenario_b_pending_then_trigger_then_wake_then_ready() {
    let node = OwnPromiseNode::new(7, LOOP, false);
    let mut bridge = LazyRustPromiseAwaiter::new(node);
    let first = bridge.poll(Some(LOOP), &PollWaker::Generic(42));
    assert_eq!(first, PollOutcome::Pending);
    assert_eq!(bridge.current_waker(), WakerState::GenericWaker(42));
    bridge.resolve();
    assert_eq!(bridge.deliver_wake(), WakeOutcome::WokeGeneric(42));
    assert_eq!(bridge.current_waker(), WakerState::Empty);
    let second = bridge.poll(Some(LOOP), &PollWaker::Generic(42));
    assert_eq!(second, PollOutcome::Ready);
}

#[test]
fn scenario_c_native_fast_path_leaves_cell_empty() {
    let node = OwnPromiseNode::new(7, LOOP, false);
    let mut bridge = LazyRustPromiseAwaiter::new(node);
    assert_eq!(bridge.current_waker(), WakerState::Empty);
    let first = bridge.poll(Some(LOOP), &PollWaker::Native(9));
    assert_eq!(first, PollOutcome::Pending);
    assert_eq!(bridge.current_waker(), WakerState::Empty);
    assert_eq!(bridge.native_interest(), Some(9));
    let second = bridge.poll(Some(LOOP), &PollWaker::Native(9));
    assert_eq!(second, PollOutcome::Pending);
    assert_eq!(bridge.current_waker(), WakerState::Empty);
    let third = bridge.poll(Some(LOOP), &PollWaker::Generic(2));
    assert_eq!(third, PollOutcome::Pending);
    assert_eq!(bridge.current_waker(), WakerState::GenericWaker(2));
    assert_eq!(bridge.native_interest(), None);
}

#[test]
fn scenario_d_drop_mid_flight_destroys_awaiter_before_cell() {
    let node = OwnPromiseNode::new(7, LOOP, false);
    let mut bridge = LazyRustPromiseAwaiter::new(node);
    assert_eq!(bridge.poll(Some(LOOP), &PollWaker::Generic(1)), PollOutcome::Pending);
    assert!(!bridge.ready());
    let trace = bridge.dismantle();
    assert_eq!(
        trace,
        vec![
            DropStep::AwaiterDropped(PtrGuardedRustPromiseAwaiter(7)),
            DropStep::NodeDropped,
            DropStep::WakerCellDropped,
        ]
    );
}

#[test]
fn single_construction_no_matter_how_many_polls() {
    let node = OwnPromiseNode::new(7, LOOP, false);
    let mut bridge = LazyRustPromiseAwaiter::new(node);
    for i in 0..3u64 {
        assert_eq!(bridge.poll(Some(LOOP), &PollWaker::Generic(i)), PollOutcome::Pending);
        assert_eq!(bridge.constructions(), 1);
    }
    bridge.resolve();
    assert_eq!(bridge.poll(Some(LOOP), &PollWaker::Generic(9)), PollOutcome::Ready);
    assert_eq!(bridge.constructions(), 1);
}

#[test]
fn drop_before_first_poll_never_constructs_and_releases_node_once() {
    let node = OwnPromiseNode::new(7, LOOP, false);
    let bridge = LazyRustPromiseAwaiter::new(node);
    assert_eq!(bridge.constructions(), 0);
    let trace = bridge.dismantle();
    assert_eq!(trace, vec![DropStep::NodeDropped, DropStep::WakerCellDropped]);
    assert_eq!(
        trace.iter().filter(|s| **s == DropStep::NodeDropped).count(),
        1
    );
}

#[test]
fn wrong_loop_poll_is_refused_and_mutates_nothing() {
    let node = OwnPromiseNode::new(7, LOOP, false);
    let mut bridge = LazyRustPromiseAwaiter::new(node);
    assert_eq!(bridge.poll(Some(LOOP), &PollWaker::Generic(1)), PollOutcome::Pending);
    assert_eq!(bridge.poll_checked(Some(LOOP + 1), &PollWaker::Generic(2)), None);
    assert_eq!(bridge.poll_checked(None, &PollWaker::Generic(2)), None);
    assert_eq!(bridge.current_waker(), WakerState::GenericWaker(1));
    assert_eq!(bridge.constructions(), 1);
    assert!(!bridge.ready());
}

#[test]
fn wrong_loop_poll_on_fresh_bridge_constructs_nothing() {
    let node = OwnPromiseNode::new(7, LOOP, true);
    let mut bridge = LazyRustPromiseAwaiter::new(node);
    assert_eq!(bridge.poll_checked(Some(LOOP + 1), &PollWaker::Generic(2)), None);
    assert!(!bridge.armed());
    assert_eq!(bridge.constructions(), 0);
    assert_eq!(bridge.current_waker(), WakerState::Empty);
}

#[test]
fn completion_is_sticky() {
    let node = OwnPromiseNode::new(7, LOOP, true);
    let mut bridge = LazyRustPromiseAwaiter::new(node);
    assert_eq!(bridge.poll(Some(LOOP), &PollWaker::Generic(4)), PollOutcome::Ready);
    assert!(bridge.ready());
    assert_eq!(bridge.poll(Some(LOOP), &PollWaker::Generic(8)), PollOutcome::Ready);
    assert_eq!(bridge.current_waker(), WakerState::GenericWaker(4));
    assert!(bridge.ready());
}

#[test]
fn bridge_reports_the_node_it_wraps() {
    let node = OwnPromiseNode::new(21, 5, false);
    let mut bridge = node.into_future();
    assert_eq!(bridge.bound_loop(), 5);
    assert_eq!(bridge.node_identity(), 21);
    assert!(!bridge.resolved());
    assert_eq!(bridge.poll(Some(5), &PollWaker::Generic(1)), PollOutcome::Pending);
    assert_eq!(bridge.bound_loop(), 5);
    assert_eq!(bridge.node_identity(), 21);
    bridge.resolve();
    assert!(bridge.resolved());
}

#[test]
fn guarded_awaiter_polls_and_registers_native_handle() {
    let node = OwnPromiseNode::new(13, LOOP, false);
    let mut awaiter = GuardedRustPromiseAwaiter::new_in_place(node);
    assert_eq!(awaiter.bound_loop(), LOOP);
    assert!(!awaiter.poll(Some(LOOP)));
    assert_eq!(awaiter.co_await_handle(), None);
    assert!(!awaiter.poll_with_co_await_waker(Some(LOOP), 8));
    assert_eq!(awaiter.co_await_handle(), Some(8));
    awaiter.resolve();
    assert!(awaiter.poll(Some(LOOP)));
    assert_eq!(awaiter.co_await_handle(), None);
    assert_eq!(awaiter.drop_in_place(), PtrGuardedRustPromiseAwaiter(13));
}

#[test]
fn promise_node_resolution_is_observable() {
    let mut node = OwnPromiseNode::new(2, 4, false);
    assert_eq!(node.identity(), 2);
    assert_eq!(node.event_loop(), 4);
    assert!(!node.resolved());
    node.resolve();
    assert!(node.resolved());
    assert_eq!(node.event_loop(), 4);
}
