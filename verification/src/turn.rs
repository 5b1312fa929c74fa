//! Radio turn controller: the state machine that owns the single half-duplex
//! transceiver and alternates it between transmit and receive phases.
//!
//! The physical radio cannot transmit and receive at once, so every operation
//! is strictly turn-based: a phase is first prepared, then — after a settling
//! delay that lets the RF hardware settle — its main operation is issued.
//! The controller decides transitions only; its owner performs the radio
//! operations it asks for and reports their outcomes back as events.
//!
//! Hardware rejection of a prepare step drives the session into `Faulted`,
//! which is terminal: no event leads out of it and no further operation is
//! ever asked for. A failure of the transmit or receive operation itself
//! returns the session to `Idle` and surfaces the fault to the owner.

use vstd::prelude::*;

verus! {

/// Faults surfaced by the radio hardware, by the operation that failed.
#[derive(Clone, Copy, PartialEq, Eq, Structural, Debug)]
pub enum RadioFault {
    PrepareTxFailed,
    TxFailed,
    PrepareRxFailed,
    RxFailed,
}

/// The phase a radio session is in; exactly one at any instant.
#[derive(Clone, Copy, PartialEq, Eq, Structural, Debug)]
pub enum SessionState {
    Idle,
    PreparingTx,
    Transmitting,
    PreparingRx,
    Receiving,
    Faulted,
}

/// What the controller's owner reports: requests from above, outcomes from
/// the radio below.
#[derive(Clone, Copy, PartialEq, Eq, Structural, Debug)]
pub enum TurnEvent {
    /// The owner asks to transmit a staged frame.
    SendRequested,
    /// The radio confirms it is ready to transmit.
    TxReady,
    /// The radio rejected the transmit preparation.
    TxRejected,
    /// The transmit operation completed.
    TxCompleted,
    /// The transmit operation failed.
    TxErrored,
    /// The owner asks to listen for a frame.
    ListenRequested,
    /// The radio confirms it is ready to receive.
    RxReady,
    /// The radio rejected the receive preparation.
    RxRejected,
    /// A frame arrived.
    FrameArrived,
    /// The owner cancelled the receive phase.
    RxCancelled,
    /// The receive operation failed or timed out.
    RxErrored,
}

/// The operation the controller asks its owner to perform next.
#[derive(Clone, Copy, PartialEq, Eq, Structural, Debug)]
pub enum TurnAction {
    /// Ask the radio to get ready for transmission.
    PrepareTx,
    /// Wait out the settling delay, then transmit the staged frame.
    IssueTx,
    /// Ask the radio to get ready for reception.
    PrepareRx,
    /// Wait out the settling delay, then receive into the staged buffer.
    IssueRx,
    /// Hand the arrived frame to the caller.
    DeliverFrame,
    /// Perform nothing.
    Hold,
}

/// What one controller step yields: the operation to perform, and the fault
/// it surfaces, if any.
#[derive(Clone, Copy, PartialEq, Eq, Structural, Debug)]
pub struct TurnOutput {
    pub action: TurnAction,
    pub fault: Option<RadioFault>,
}

/// The transition table. An event that the current state does not expect
/// changes nothing; in particular no event leads out of `Faulted`.
pub open spec fn turn_step(s: SessionState, e: TurnEvent) -> (SessionState, TurnOutput) {
    match (s, e) {
        (SessionState::Idle, TurnEvent::SendRequested) => (
            SessionState::PreparingTx,
            TurnOutput { action: TurnAction::PrepareTx, fault: None },
        ),
        (SessionState::PreparingTx, TurnEvent::TxReady) => (
            SessionState::Transmitting,
            TurnOutput { action: TurnAction::IssueTx, fault: None },
        ),
        (SessionState::PreparingTx, TurnEvent::TxRejected) => (
            SessionState::Faulted,
            TurnOutput { action: TurnAction::Hold, fault: Some(RadioFault::PrepareTxFailed) },
        ),
        (SessionState::Transmitting, TurnEvent::TxCompleted) => (
            SessionState::Idle,
            TurnOutput { action: TurnAction::Hold, fault: None },
        ),
        (SessionState::Transmitting, TurnEvent::TxErrored) => (
            SessionState::Idle,
            TurnOutput { action: TurnAction::Hold, fault: Some(RadioFault::TxFailed) },
        ),
        (SessionState::Idle, TurnEvent::ListenRequested) => (
            SessionState::PreparingRx,
            TurnOutput { action: TurnAction::PrepareRx, fault: None },
        ),
        (SessionState::PreparingRx, TurnEvent::RxReady) => (
            SessionState::Receiving,
            TurnOutput { action: TurnAction::IssueRx, fault: None },
        ),
        (SessionState::PreparingRx, TurnEvent::RxRejected) => (
            SessionState::Faulted,
            TurnOutput { action: TurnAction::Hold, fault: Some(RadioFault::PrepareRxFailed) },
        ),
        (SessionState::Receiving, TurnEvent::FrameArrived) => (
            SessionState::Idle,
            TurnOutput { action: TurnAction::DeliverFrame, fault: None },
        ),
        (SessionState::Receiving, TurnEvent::RxCancelled) => (
            SessionState::Idle,
            TurnOutput { action: TurnAction::Hold, fault: None },
        ),
        (SessionState::Receiving, TurnEvent::RxErrored) => (
            SessionState::Idle,
            TurnOutput { action: TurnAction::Hold, fault: Some(RadioFault::RxFailed) },
        ),
        _ => (s, TurnOutput { action: TurnAction::Hold, fault: None }),
    }
}

/// Owns the session state and the configured minimum settling delay.
pub struct TurnController {
    state: SessionState,
    min_settle_ms: u64,
}

impl TurnController {
    /// The phase the session is in.
    pub closed spec fn session_state(self) -> SessionState {
        self.state
    }

    /// The configured minimum settling delay, in milliseconds, owed between
    /// a phase's preparation and its operation.
    pub closed spec fn spec_settle_ms(self) -> u64 {
        self.min_settle_ms
    }

    /// A fresh controller: the session is idle and the settling delay is the
    /// given minimum.
    pub fn new(min_settle_ms: u64) -> (c: Self)
        ensures
            c.session_state() == SessionState::Idle,
            c.spec_settle_ms() == min_settle_ms,
    {
        TurnController { state: SessionState::Idle, min_settle_ms }
    }

    pub fn state(&self) -> (s: SessionState)
        ensures
            s == self.session_state(),
    {
        self.state
    }

    pub fn settle_ms(&self) -> (d: u64)
        ensures
            d == self.spec_settle_ms(),
    {
        self.min_settle_ms
    }

    /// Advances the session by one event, per the transition table
    /// [`turn_step`]. The settling delay never changes.
    pub fn step(&mut self, e: TurnEvent) -> (r: TurnOutput)
        ensures
            final(self).session_state() == turn_step(old(self).session_state(), e).0,
            r == turn_step(old(self).session_state(), e).1,
            final(self).spec_settle_ms() == old(self).spec_settle_ms(),
    {
        let (next, out) = match (self.state, e) {
            (SessionState::Idle, TurnEvent::SendRequested) => (
                SessionState::PreparingTx,
                TurnOutput { action: TurnAction::PrepareTx, fault: None },
            ),
            (SessionState::PreparingTx, TurnEvent::TxReady) => (
                SessionState::Transmitting,
                TurnOutput { action: TurnAction::IssueTx, fault: None },
            ),
            (SessionState::PreparingTx, TurnEvent::TxRejected) => (
                SessionState::Faulted,
                TurnOutput { action: TurnAction::Hold, fault: Some(RadioFault::PrepareTxFailed) },
            ),
            (SessionState::Transmitting, TurnEvent::TxCompleted) => (
                SessionState::Idle,
                TurnOutput { action: TurnAction::Hold, fault: None },
            ),
            (SessionState::Transmitting, TurnEvent::TxErrored) => (
                SessionState::Idle,
                TurnOutput { action: TurnAction::Hold, fault: Some(RadioFault::TxFailed) },
            ),
            (SessionState::Idle, TurnEvent::ListenRequested) => (
                SessionState::PreparingRx,
                TurnOutput { action: TurnAction::PrepareRx, fault: None },
            ),
            (SessionState::PreparingRx, TurnEvent::RxReady) => (
                SessionState::Receiving,
                TurnOutput { action: TurnAction::IssueRx, fault: None },
            ),
            (SessionState::PreparingRx, TurnEvent::RxRejected) => (
                SessionState::Faulted,
                TurnOutput { action: TurnAction::Hold, fault: Some(RadioFault::PrepareRxFailed) },
            ),
            (SessionState::Receiving, TurnEvent::FrameArrived) => (
                SessionState::Idle,
                TurnOutput { action: TurnAction::DeliverFrame, fault: None },
            ),
            (SessionState::Receiving, TurnEvent::RxCancelled) => (
                SessionState::Idle,
                TurnOutput { action: TurnAction::Hold, fault: None },
            ),
            (SessionState::Receiving, TurnEvent::RxErrored) => (
                SessionState::Idle,
                TurnOutput { action: TurnAction::Hold, fault: Some(RadioFault::RxFailed) },
            ),
            (s, _) => (s, TurnOutput { action: TurnAction::Hold, fault: None }),
        };
        self.state = next;
        out
    }
}

/// The session states reached along an event sequence.
pub open spec fn run_states(s: SessionState, es: Seq<TurnEvent>) -> SessionState
    decreases es.len(),
{
    if es.len() == 0 {
        s
    } else {
        run_states(turn_step(s, es[0]).0, es.drop_first())
    }
}

/// Turn exclusivity, pointwise: a transmit is issued only out of
/// `PreparingTx`, and a receive only out of `PreparingRx` — never while the
/// session sits in the opposite direction's phase.
pub proof fn lemma_turn_exclusive(s: SessionState, e: TurnEvent)
    ensures
        turn_step(s, e).1.action == TurnAction::IssueTx ==> s == SessionState::PreparingTx,
        turn_step(s, e).1.action == TurnAction::IssueRx ==> s == SessionState::PreparingRx,
{
}

/// Turn exclusivity over any run: from any start, no step of any event
/// sequence issues a transmit while the session is in `PreparingRx` or
/// `Receiving`, nor a receive while it is in `PreparingTx` or `Transmitting`.
pub proof fn lemma_turn_exclusive_trace(s0: SessionState, es: Seq<TurnEvent>, i: int)
    requires
        0 <= i < es.len(),
    ensures
        ({
            let before = run_states(s0, es.take(i));
            let issued = turn_step(before, es[i]).1.action;
            &&& issued == TurnAction::IssueTx ==> before == SessionState::PreparingTx
            &&& issued == TurnAction::IssueRx ==> before == SessionState::PreparingRx
        }),
{
    lemma_turn_exclusive(run_states(s0, es.take(i)), es[i]);
}

/// A faulted session is terminal: no event leads out of `Faulted`, and no
/// further operation is ever asked for from it.
pub proof fn lemma_faulted_terminal(e: TurnEvent)
    ensures
        turn_step(SessionState::Faulted, e).0 == SessionState::Faulted,
        turn_step(SessionState::Faulted, e).1 == (TurnOutput {
            action: TurnAction::Hold,
            fault: None,
        }),
{
}

} // verus!
