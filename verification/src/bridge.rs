//! The blocking bridge: how one in-flight request's completion-based
//! handle is driven to a synchronous outcome.
//!
//! The host yields a future-like handle that is polled, not awaited. The
//! driver polls it once; only if nothing is ready yet does it block — once —
//! on the handle's waitable and poll again, which the host guarantees to
//! succeed. [`bridge_step`] is that decision procedure: given where the
//! driver stands and what a poll returned, it says what to do next. The
//! driver performs the action (block, take the response, give up) and, for
//! a wait, feeds the second poll's outcome back in.

use crate::error::Error;
use vstd::prelude::*;

verus! {

/// What a poll of the future-response handle reported, as plain values;
/// the response resource itself, when ready, stays with the driver.
pub enum PollEvent {
    /// The handle has no result yet.
    Pending,
    /// The handle was already resolved by an earlier poll cycle: a
    /// programming error, since each handle is used exactly once.
    Taken,
    /// The transport failed (DNS, refused, timeout, TLS); the payload is
    /// the host's diagnostic code.
    Failed(String),
    /// The response resource is available.
    Ready,
}

/// Where the driver stands: before its first poll has been answered, or
/// after its one blocking wait.
pub enum BridgeState {
    FirstPoll,
    AfterWait,
}

/// What the driver must do next.
pub enum BridgeAction {
    /// Block on the handle's waitable, then poll again.
    Wait,
    /// Take the ready response resource and go on.
    Accept,
    /// Surface this error to the caller.
    Fail(Error),
    /// A poll after the waitable fired reported nothing: the host broke
    /// its readiness guarantee, which correct usage cannot reach.
    Unreachable,
}

/// The bridge's decision for one poll outcome.
pub open spec fn bridge_step_spec(state: BridgeState, event: PollEvent) -> (BridgeState,
    BridgeAction,
) {
    match event {
        PollEvent::Ready => (state, BridgeAction::Accept),
        PollEvent::Taken => (state, BridgeAction::Fail(Error::AlreadyConsumed)),
        PollEvent::Failed(code) => (state, BridgeAction::Fail(Error::Transport(code))),
        PollEvent::Pending => match state {
            BridgeState::FirstPoll => (BridgeState::AfterWait, BridgeAction::Wait),
            BridgeState::AfterWait => (BridgeState::AfterWait, BridgeAction::Unreachable),
        },
    }
}

/// Decides what the driver does after one poll of the future-response
/// handle.
pub fn bridge_step(state: BridgeState, event: PollEvent) -> (r: (BridgeState, BridgeAction))
    ensures
        r == bridge_step_spec(state, event),
{
    match event {
        PollEvent::Ready => (state, BridgeAction::Accept),
        PollEvent::Taken => (state, BridgeAction::Fail(Error::AlreadyConsumed)),
        PollEvent::Failed(code) => (state, BridgeAction::Fail(Error::Transport(code))),
        PollEvent::Pending => match state {
            BridgeState::FirstPoll => (BridgeState::AfterWait, BridgeAction::Wait),
            BridgeState::AfterWait => (BridgeState::AfterWait, BridgeAction::Unreachable),
        },
    }
}

/// There is at most one blocking wait per send: a wait is only ever asked
/// for from the first poll, it moves the bridge past it, and no step taken
/// from there — whatever the next poll reports — can ask for another.
pub proof fn lemma_single_wait(state: BridgeState, first: PollEvent, second: PollEvent)
    ensures
        bridge_step_spec(state, first).1 is Wait ==> state is FirstPoll && bridge_step_spec(
            state,
            first,
        ).0 is AfterWait,
        bridge_step_spec(state, first).1 is Wait ==> !(bridge_step_spec(
            bridge_step_spec(state, first).0,
            second,
        ).1 is Wait),
{
}

} // verus!
