//! A cross-runtime future bridge: lets code scheduled by one cooperative,
//! event-loop-driven promise runtime be awaited from a second, independent
//! future/poll abstraction.
//!
//! The bridge owns a not-yet-consumed promise node, a deferred once-only
//! initializer for the address-sensitive awaiter that binds the node, and a
//! single-slot waker cell. Construction of the awaiter is deferred to the
//! first poll, so a bridge that is never polled never runs the foreign
//! constructor; teardown destroys the awaiter strictly before the waker cell
//! it refers to, so no dangling callback reference survives.
//!
//! The foreign runtime itself is outside this crate. Its handles (event
//! loops, promise nodes, wakers, native callbacks) appear here as plain
//! identifiers, and the events it would deliver (completing a computation,
//! invoking a stored wake) are explicit entry points, so every decision the
//! bridge makes is stated and verified over those values.

mod await_;
mod lazy_pin_init;
mod promise;
mod waker;

pub use await_::DropStep;
pub use await_::GuardedRustPromiseAwaiter;
pub use await_::LazyRustPromiseAwaiter;
pub use await_::PollOutcome;
pub use await_::PtrGuardedRustPromiseAwaiter;
pub use await_::lemma_single_construction;
pub use await_::lemma_single_construction_along_polls;
pub use lazy_pin_init::LazyPinInit;
pub use promise::OwnPromiseNode;
pub use waker::PollWaker;
pub use waker::RustWaker;
pub use waker::WakeOutcome;
pub use waker::WakerState;
pub use waker::deref_co_await_waker;
pub use waker::lemma_wake_interest_overwrite;
