//! Link driver: composes the turn controller, the codec and the neighbour
//! table into the point-to-point exchange.
//!
//! The driver is a pure step function from its state and an event to its next
//! state and the work its runner owes: a radio operation to perform, an
//! indicator to notify, or nothing. The runner performs the operation —
//! including the settling wait — and reports the outcome back as the next
//! event. Ordering is enforced structurally: the driver owns the single turn
//! controller, so a second radio operation can never be in flight before the
//! first one's outcome has been stepped through.
//!
//! On a cold start the initiator unconditionally transmits a greeting with
//! counter zero; the responder starts listening. On a valid inbound data
//! frame the driver records the sender as a neighbour, computes the reply —
//! the embedded counter incremented by exactly one — and transmits it; a
//! frame that does not decode, or whose counter text is invalid or out of
//! range, is dropped and listening resumes, with no state mutated. An
//! inbound ping records the sender and listening resumes. Any radio fault
//! halts the driver for good: a halted driver never asks for another radio
//! operation and never changes again, so the session must be rebuilt from
//! scratch by its supervisor.

use vstd::prelude::*;

verus! {

use crate::codec::{
    counter_reply,
    counter_text,
    decode,
    encode_vec,
    frame_bytes,
    lemma_codec_round_trip,
    lemma_counter_reply_increments,
    parse_frame,
    spec_counter_reply,
};
use crate::message::{KindModel, MessageBuilder, MessageModel, MessageType};
use crate::neighbour::{
    NEIGHBOUR_CAPACITY,
    NeighbourTable,
    contains_id,
    index_of_id,
    observe_model,
    unique_ids,
};
use crate::turn::{RadioFault, SessionState, TurnController, TurnEvent};

/// Which side of the bootstrap a device plays: the initiator opens with the
/// greeting, the responder listens first.
#[derive(Clone, Copy, PartialEq, Eq, Structural, Debug)]
pub enum Role {
    Initiator,
    Responder,
}

/// Fire-and-forget indicator notifications for a collaborator such as an
/// LED handler.
#[derive(Clone, Copy, PartialEq, Eq, Structural, Debug)]
pub enum IndicatorKind {
    /// The session came up.
    Startup,
    /// A recognized message arrived.
    MessageReceived,
    /// A message went out.
    MessageSent,
}

/// The radio operation the driver asks its runner to perform next.
#[derive(Clone, PartialEq, Eq, Debug)]
pub enum RadioCommand {
    /// Nothing to perform.
    NoCommand,
    /// Ask the radio to get ready for transmission.
    PrepareTx,
    /// Wait out the settling delay, then transmit the frame.
    Transmit { frame: Vec<u8>, settle_ms: u64 },
    /// Ask the radio to get ready for reception.
    PrepareRx,
    /// Wait out the settling delay, then receive one frame.
    Receive { settle_ms: u64 },
}

/// Model of a [`RadioCommand`]: the frame as its byte sequence.
pub enum RadioCommandModel {
    NoCommand,
    PrepareTx,
    Transmit { frame: Seq<u8>, settle_ms: u64 },
    PrepareRx,
    Receive { settle_ms: u64 },
}

impl View for RadioCommand {
    type V = RadioCommandModel;

    open spec fn view(&self) -> RadioCommandModel {
        match self {
            RadioCommand::NoCommand => RadioCommandModel::NoCommand,
            RadioCommand::PrepareTx => RadioCommandModel::PrepareTx,
            RadioCommand::Transmit { frame, settle_ms } => RadioCommandModel::Transmit {
                frame: frame@,
                settle_ms: *settle_ms,
            },
            RadioCommand::PrepareRx => RadioCommandModel::PrepareRx,
            RadioCommand::Receive { settle_ms } => RadioCommandModel::Receive {
                settle_ms: *settle_ms,
            },
        }
    }
}

/// What one driver step yields: an indicator to notify, a radio operation to
/// perform, and the fault that halted the session, if one did.
#[derive(Clone, PartialEq, Eq, Debug)]
pub struct DriverOutput {
    pub notify: Option<IndicatorKind>,
    pub command: RadioCommand,
    pub fault: Option<RadioFault>,
}

/// Model of a [`DriverOutput`].
pub struct DriverOutputModel {
    pub notify: Option<IndicatorKind>,
    pub command: RadioCommandModel,
    pub fault: Option<RadioFault>,
}

impl View for DriverOutput {
    type V = DriverOutputModel;

    open spec fn view(&self) -> DriverOutputModel {
        DriverOutputModel { notify: self.notify, command: self.command@, fault: self.fault }
    }
}

/// What the driver's runner reports: the cold start, each radio operation's
/// outcome, and arrived frames with the time they arrived.
#[derive(Clone, PartialEq, Eq, Debug)]
pub enum DriverEvent {
    /// Cold start.
    Started,
    /// The radio is ready to transmit.
    PrepareTxDone,
    /// The radio rejected the transmit preparation.
    PrepareTxFailed,
    /// The transmit operation completed.
    TxDone,
    /// The transmit operation failed.
    TxFailed,
    /// The radio is ready to receive.
    PrepareRxDone,
    /// The radio rejected the receive preparation.
    PrepareRxFailed,
    /// A frame arrived at time `now`.
    RxDone { bytes: Vec<u8>, now: u64 },
    /// The receive operation failed or timed out.
    RxFailed,
}

/// Model of a [`DriverEvent`].
pub enum DriverEventModel {
    Started,
    PrepareTxDone,
    PrepareTxFailed,
    TxDone,
    TxFailed,
    PrepareRxDone,
    PrepareRxFailed,
    RxDone { bytes: Seq<u8>, now: u64 },
    RxFailed,
}

impl View for DriverEvent {
    type V = DriverEventModel;

    open spec fn view(&self) -> DriverEventModel {
        match self {
            DriverEvent::Started => DriverEventModel::Started,
            DriverEvent::PrepareTxDone => DriverEventModel::PrepareTxDone,
            DriverEvent::PrepareTxFailed => DriverEventModel::PrepareTxFailed,
            DriverEvent::TxDone => DriverEventModel::TxDone,
            DriverEvent::TxFailed => DriverEventModel::TxFailed,
            DriverEvent::PrepareRxDone => DriverEventModel::PrepareRxDone,
            DriverEvent::PrepareRxFailed => DriverEventModel::PrepareRxFailed,
            DriverEvent::RxDone { bytes, now } => DriverEventModel::RxDone {
                bytes: bytes@,
                now: *now,
            },
            DriverEvent::RxFailed => DriverEventModel::RxFailed,
        }
    }
}

/// Mathematical state of a driver.
pub struct DriverModel {
    pub role: Role,
    pub uid: u16,
    pub settle_ms: u64,
    pub started: bool,
    pub halted: bool,
    pub turn: SessionState,
    /// The frame staged for the next transmission.
    pub staged: Seq<u8>,
    pub neighbours: Seq<(u16, u64)>,
}

/// The greeting the initiator opens with: counter zero, addressed to no one
/// in particular.
pub open spec fn greeting_model(uid: u16) -> MessageModel {
    MessageModel { sender: uid, kind: KindModel::Data { destination: 0, payload: counter_text(0) } }
}

/// A step that performs nothing and changes nothing.
pub open spec fn quiet_output() -> DriverOutputModel {
    DriverOutputModel { notify: None, command: RadioCommandModel::NoCommand, fault: None }
}

/// A step that halts the session, surfacing `f`.
pub open spec fn halt_output(f: RadioFault) -> DriverOutputModel {
    DriverOutputModel { notify: None, command: RadioCommandModel::NoCommand, fault: Some(f) }
}

/// What an inbound frame does to the driver, once the controller has handed
/// it over: reply to valid counter text, record a ping's sender, drop
/// everything else.
pub open spec fn inbound_model(m: DriverModel, bytes: Seq<u8>, now: u64) -> (DriverModel, DriverOutputModel) {
    match parse_frame(bytes) {
        Err(_) => (
            DriverModel { turn: SessionState::PreparingRx, ..m },
            DriverOutputModel {
                notify: None,
                command: RadioCommandModel::PrepareRx,
                fault: None,
            },
        ),
        Ok(msg) => match msg.kind {
            KindModel::Ping => (
                DriverModel {
                    turn: SessionState::PreparingRx,
                    neighbours: observe_model(m.neighbours, msg.sender, now),
                    ..m
                },
                DriverOutputModel {
                    notify: Some(IndicatorKind::MessageReceived),
                    command: RadioCommandModel::PrepareRx,
                    fault: None,
                },
            ),
            KindModel::Data { payload, .. } => match spec_counter_reply(payload) {
                Err(_) => (
                    DriverModel { turn: SessionState::PreparingRx, ..m },
                    DriverOutputModel {
                        notify: None,
                        command: RadioCommandModel::PrepareRx,
                        fault: None,
                    },
                ),
                Ok(reply) => (
                    DriverModel {
                        turn: SessionState::PreparingTx,
                        neighbours: observe_model(m.neighbours, msg.sender, now),
                        staged: frame_bytes(
                            MessageModel {
                                sender: m.uid,
                                kind: KindModel::Data { destination: msg.sender, payload: reply },
                            },
                        ),
                        ..m
                    },
                    DriverOutputModel {
                        notify: Some(IndicatorKind::MessageReceived),
                        command: RadioCommandModel::PrepareTx,
                        fault: None,
                    },
                ),
            },
        },
    }
}

/// The driver's transition function. Events that the current state does not
/// expect change nothing; a halted driver never changes again.
pub open spec fn driver_step_model(m: DriverModel, e: DriverEventModel) -> (DriverModel, DriverOutputModel) {
    if m.halted {
        (m, quiet_output())
    } else {
        match e {
            DriverEventModel::Started => {
                if m.started || m.turn != SessionState::Idle {
                    (m, quiet_output())
                } else if m.role == Role::Initiator {
                    (
                        DriverModel {
                            started: true,
                            turn: SessionState::PreparingTx,
                            staged: frame_bytes(greeting_model(m.uid)),
                            ..m
                        },
                        DriverOutputModel {
                            notify: Some(IndicatorKind::Startup),
                            command: RadioCommandModel::PrepareTx,
                            fault: None,
                        },
                    )
                } else {
                    (
                        DriverModel { started: true, turn: SessionState::PreparingRx, ..m },
                        DriverOutputModel {
                            notify: Some(IndicatorKind::Startup),
                            command: RadioCommandModel::PrepareRx,
                            fault: None,
                        },
                    )
                }
            },
            DriverEventModel::PrepareTxDone => {
                if m.turn == SessionState::PreparingTx {
                    (
                        DriverModel { turn: SessionState::Transmitting, ..m },
                        DriverOutputModel {
                            notify: None,
                            command: RadioCommandModel::Transmit {
                                frame: m.staged,
                                settle_ms: m.settle_ms,
                            },
                            fault: None,
                        },
                    )
                } else {
                    (m, quiet_output())
                }
            },
            DriverEventModel::PrepareTxFailed => {
                if m.turn == SessionState::PreparingTx {
                    (
                        DriverModel { turn: SessionState::Faulted, halted: true, ..m },
                        halt_output(RadioFault::PrepareTxFailed),
                    )
                } else {
                    (m, quiet_output())
                }
            },
            DriverEventModel::TxDone => {
                if m.turn == SessionState::Transmitting {
                    (
                        DriverModel { turn: SessionState::PreparingRx, ..m },
                        DriverOutputModel {
                            notify: Some(IndicatorKind::MessageSent),
                            command: RadioCommandModel::PrepareRx,
                            fault: None,
                        },
                    )
                } else {
                    (m, quiet_output())
                }
            },
            DriverEventModel::TxFailed => {
                if m.turn == SessionState::Transmitting {
                    (
                        DriverModel { turn: SessionState::Idle, halted: true, ..m },
                        halt_output(RadioFault::TxFailed),
                    )
                } else {
                    (m, quiet_output())
                }
            },
            DriverEventModel::PrepareRxDone => {
                if m.turn == SessionState::PreparingRx {
                    (
                        DriverModel { turn: SessionState::Receiving, ..m },
                        DriverOutputModel {
                            notify: None,
                            command: RadioCommandModel::Receive { settle_ms: m.settle_ms },
                            fault: None,
                        },
                    )
                } else {
                    (m, quiet_output())
                }
            },
            DriverEventModel::PrepareRxFailed => {
                if m.turn == SessionState::PreparingRx {
                    (
                        DriverModel { turn: SessionState::Faulted, halted: true, ..m },
                        halt_output(RadioFault::PrepareRxFailed),
                    )
                } else {
                    (m, quiet_output())
                }
            },
            DriverEventModel::RxDone { bytes, now } => {
                if m.turn == SessionState::Receiving {
                    inbound_model(m, bytes, now)
                } else {
                    (m, quiet_output())
                }
            },
            DriverEventModel::RxFailed => {
                if m.turn == SessionState::Receiving {
                    (
                        DriverModel { turn: SessionState::Idle, halted: true, ..m },
                        halt_output(RadioFault::RxFailed),
                    )
                } else {
                    (m, quiet_output())
                }
            },
        }
    }
}

/// The link driver: one device's half of the exchange.
pub struct LinkDriver {
    role: Role,
    uid: u16,
    started: bool,
    halted: bool,
    controller: TurnController,
    staged: Vec<u8>,
    table: NeighbourTable,
}

impl View for LinkDriver {
    type V = DriverModel;

    closed spec fn view(&self) -> DriverModel {
        DriverModel {
            role: self.role,
            uid: self.uid,
            settle_ms: self.controller.spec_settle_ms(),
            started: self.started,
            halted: self.halted,
            turn: self.controller.session_state(),
            staged: self.staged@,
            neighbours: self.table@,
        }
    }
}

impl LinkDriver {
    /// The neighbour table stays within capacity with pairwise distinct
    /// identifiers.
    pub open spec fn wf(self) -> bool {
        self@.neighbours.len() <= NEIGHBOUR_CAPACITY && unique_ids(self@.neighbours)
    }

    /// A fresh driver: not yet started, idle, with an empty neighbour table.
    pub fn new(role: Role, uid: u16, settle_ms: u64) -> (d: Self)
        ensures
            d.wf(),
            d@ == (DriverModel {
                role,
                uid,
                settle_ms,
                started: false,
                halted: false,
                turn: SessionState::Idle,
                staged: Seq::<u8>::empty(),
                neighbours: Seq::<(u16, u64)>::empty(),
            }),
    {
        let d = LinkDriver {
            role,
            uid,
            started: false,
            halted: false,
            controller: TurnController::new(settle_ms),
            staged: Vec::new(),
            table: NeighbourTable::new(),
        };
        d
    }

    pub fn is_halted(&self) -> (b: bool)
        ensures
            b == self@.halted,
    {
        self.halted
    }

    /// Whether `id` has been recorded as a neighbour.
    pub fn knows(&self, id: u16) -> (r: bool)
        ensures
            r == contains_id(self@.neighbours, id),
    {
        self.table.contains(id)
    }

    pub fn neighbour_count(&self) -> (n: usize)
        ensures
            n == self@.neighbours.len(),
    {
        self.table.len()
    }

    /// The timestamp `id` was last heard from, if it is a neighbour.
    pub fn last_heard(&self, id: u16) -> (r: Option<u64>)
        requires
            self.wf(),
        ensures
            match r {
                Some(t) => contains_id(self@.neighbours, id) && self@.neighbours[index_of_id(
                    self@.neighbours,
                    id,
                )] == (id, t),
                None => !contains_id(self@.neighbours, id),
            },
    {
        self.table.last_seen_of(id)
    }

    /// Advances the driver by one event, per [`driver_step_model`].
    pub fn step(&mut self, event: DriverEvent) -> (out: DriverOutput)
        requires
            old(self).wf(),
        ensures
            final(self).wf(),
            final(self)@ == driver_step_model(old(self)@, event@).0,
            out@ == driver_step_model(old(self)@, event@).1,
    {
        if self.halted {
            return DriverOutput { notify: None, command: RadioCommand::NoCommand, fault: None };
        }
        match event {
            DriverEvent::Started => {
                if self.started || !(self.controller.state() == SessionState::Idle) {
                    return DriverOutput {
                        notify: None,
                        command: RadioCommand::NoCommand,
                        fault: None,
                    };
                }
                self.started = true;
                if self.role == Role::Initiator {
                    let builder = MessageBuilder::new(self.uid);
                    let zero = crate::codec::render_counter(0);
                    let greeting = builder.normal(0, zero.as_slice());
                    self.staged = encode_vec(&greeting);
                    let _turn = self.controller.step(TurnEvent::SendRequested);
                    DriverOutput {
                        notify: Some(IndicatorKind::Startup),
                        command: RadioCommand::PrepareTx,
                        fault: None,
                    }
                } else {
                    let _turn = self.controller.step(TurnEvent::ListenRequested);
                    DriverOutput {
                        notify: Some(IndicatorKind::Startup),
                        command: RadioCommand::PrepareRx,
                        fault: None,
                    }
                }
            },
            DriverEvent::PrepareTxDone => {
                if self.controller.state() == SessionState::PreparingTx {
                    let _turn = self.controller.step(TurnEvent::TxReady);
                    let settle_ms = self.controller.settle_ms();
                    DriverOutput {
                        notify: None,
                        command: RadioCommand::Transmit { frame: self.staged.clone(), settle_ms },
                        fault: None,
                    }
                } else {
                    DriverOutput { notify: None, command: RadioCommand::NoCommand, fault: None }
                }
            },
            DriverEvent::PrepareTxFailed => {
                if self.controller.state() == SessionState::PreparingTx {
                    let turn = self.controller.step(TurnEvent::TxRejected);
                    self.halted = true;
                    DriverOutput { notify: None, command: RadioCommand::NoCommand, fault: turn.fault }
                } else {
                    DriverOutput { notify: None, command: RadioCommand::NoCommand, fault: None }
                }
            },
            DriverEvent::TxDone => {
                if self.controller.state() == SessionState::Transmitting {
                    let _turn = self.controller.step(TurnEvent::TxCompleted);
                    let _turn2 = self.controller.step(TurnEvent::ListenRequested);
                    DriverOutput {
                        notify: Some(IndicatorKind::MessageSent),
                        command: RadioCommand::PrepareRx,
                        fault: None,
                    }
                } else {
                    DriverOutput { notify: None, command: RadioCommand::NoCommand, fault: None }
                }
            },
            DriverEvent::TxFailed => {
                if self.controller.state() == SessionState::Transmitting {
                    let turn = self.controller.step(TurnEvent::TxErrored);
                    self.halted = true;
                    DriverOutput { notify: None, command: RadioCommand::NoCommand, fault: turn.fault }
                } else {
                    DriverOutput { notify: None, command: RadioCommand::NoCommand, fault: None }
                }
            },
            DriverEvent::PrepareRxDone => {
                if self.controller.state() == SessionState::PreparingRx {
                    let _turn = self.controller.step(TurnEvent::RxReady);
                    let settle_ms = self.controller.settle_ms();
                    DriverOutput {
                        notify: None,
                        command: RadioCommand::Receive { settle_ms },
                        fault: None,
                    }
                } else {
                    DriverOutput { notify: None, command: RadioCommand::NoCommand, fault: None }
                }
            },
            DriverEvent::PrepareRxFailed => {
                if self.controller.state() == SessionState::PreparingRx {
                    let turn = self.controller.step(TurnEvent::RxRejected);
                    self.halted = true;
                    DriverOutput { notify: None, command: RadioCommand::NoCommand, fault: turn.fault }
                } else {
                    DriverOutput { notify: None, command: RadioCommand::NoCommand, fault: None }
                }
            },
            DriverEvent::RxDone { bytes, now } => {
                if self.controller.state() == SessionState::Receiving {
                    let _turn = self.controller.step(TurnEvent::FrameArrived);
                    match decode(bytes.as_slice()) {
                        Err(_) => {
                            let _turn2 = self.controller.step(TurnEvent::ListenRequested);
                            DriverOutput {
                                notify: None,
                                command: RadioCommand::PrepareRx,
                                fault: None,
                            }
                        },
                        Ok(msg) => match &msg.message_type {
                            MessageType::Ping => {
                                self.table.observe(msg.sender_uid, now);
                                let _turn2 = self.controller.step(TurnEvent::ListenRequested);
                                DriverOutput {
                                    notify: Some(IndicatorKind::MessageReceived),
                                    command: RadioCommand::PrepareRx,
                                    fault: None,
                                }
                            },
                            MessageType::Normal { .. } => {
                                let payload = msg.payload_vec();
                                match counter_reply(payload.as_slice()) {
                                    Err(_) => {
                                        let _turn2 = self.controller.step(
                                            TurnEvent::ListenRequested,
                                        );
                                        DriverOutput {
                                            notify: None,
                                            command: RadioCommand::PrepareRx,
                                            fault: None,
                                        }
                                    },
                                    Ok(reply) => {
                                        self.table.observe(msg.sender_uid, now);
                                        let builder = MessageBuilder::new(self.uid);
                                        let reply_msg = builder.normal(
                                            msg.sender_uid,
                                            reply.as_slice(),
                                        );
                                        self.staged = encode_vec(&reply_msg);
                                        let _turn2 = self.controller.step(
                                            TurnEvent::SendRequested,
                                        );
                                        DriverOutput {
                                            notify: Some(IndicatorKind::MessageReceived),
                                            command: RadioCommand::PrepareTx,
                                            fault: None,
                                        }
                                    },
                                }
                            },
                        },
                    }
                } else {
                    DriverOutput { notify: None, command: RadioCommand::NoCommand, fault: None }
                }
            },
            DriverEvent::RxFailed => {
                if self.controller.state() == SessionState::Receiving {
                    let turn = self.controller.step(TurnEvent::RxErrored);
                    self.halted = true;
                    DriverOutput { notify: None, command: RadioCommand::NoCommand, fault: turn.fault }
                } else {
                    DriverOutput { notify: None, command: RadioCommand::NoCommand, fault: None }
                }
            },
        }
    }
}

/// Fault fatality: a radio fault surfacing at any point of a send or listen
/// halts the driver, asks for no further radio operation, and leaves the
/// neighbour table untouched — and a halted driver never acts nor changes
/// again.
pub proof fn lemma_fault_fatal(m: DriverModel, e: DriverEventModel)
    ensures
        ({
            let (m2, out) = driver_step_model(m, e);
            &&& out.fault is Some ==> m2.halted && out.command == RadioCommandModel::NoCommand
                && m2.neighbours == m.neighbours
            &&& m.halted ==> m2 == m && out == quiet_output()
        }),
{
}

/// One hop of the exchange, for any driver state and any counter: a
/// listening driver that receives the frame of a data message carrying
/// counter `n`, with `n` below the field's top value, records the sender as
/// a neighbour and stages the frame of its reply — the same text with the
/// counter advanced by exactly one, addressed back to the sender. Chained
/// hop after hop, the counter climbs monotonically.
pub proof fn lemma_exchange_advances_counter(
    m: DriverModel,
    sender: u16,
    destination: u16,
    n: int,
    pad: Seq<u8>,
    now: u64,
)
    requires
        !m.halted,
        m.turn == SessionState::Receiving,
        0 <= n < 99,
    ensures
        ({
            let inbound = MessageModel {
                sender,
                kind: KindModel::Data { destination, payload: counter_text(n) },
            };
            let (m2, out) = driver_step_model(
                m,
                DriverEventModel::RxDone { bytes: frame_bytes(inbound) + pad, now },
            );
            &&& m2.turn == SessionState::PreparingTx
            &&& out.command == RadioCommandModel::PrepareTx
            &&& out.notify == Some(IndicatorKind::MessageReceived)
            &&& out.fault is None
            &&& m2.neighbours == observe_model(m.neighbours, sender, now)
            &&& m2.staged == frame_bytes(
                MessageModel {
                    sender: m.uid,
                    kind: KindModel::Data { destination: sender, payload: counter_text(n + 1) },
                },
            )
        }),
{
    let inbound = MessageModel {
        sender,
        kind: KindModel::Data { destination, payload: counter_text(n) },
    };
    assert(inbound.wf());
    lemma_codec_round_trip(inbound, pad);
    lemma_counter_reply_increments(n);
}

/// Whenever the driver is in a transmit phase, its staged frame is the exact
/// encoding of a well-formed message stamped with the driver's own
/// identifier.
pub open spec fn staged_frame_decodable(m: DriverModel) -> bool {
    m.turn == SessionState::PreparingTx || m.turn == SessionState::Transmitting
        ==> exists|msg: MessageModel|
        msg.wf() && msg.sender == m.uid && m.staged == #[trigger] frame_bytes(msg)
}

/// The driver never stages garbage: every step out of a state whose staged
/// frame decodes leads to another such state. Together with
/// [`lemma_transmitted_frames_decode`], no frame the driver ever hands to the
/// radio can be rejected by its peer's decoder.
pub proof fn lemma_staged_frame_stays_decodable(m: DriverModel, e: DriverEventModel)
    requires
        staged_frame_decodable(m),
    ensures
        staged_frame_decodable(driver_step_model(m, e).0),
{
    let m2 = driver_step_model(m, e).0;
    if !m.halted {
        match e {
            DriverEventModel::Started => {
                if !m.started && m.turn == SessionState::Idle && m.role == Role::Initiator {
                    let greeting = greeting_model(m.uid);
                    assert(greeting.wf());
                    assert(m2.staged == frame_bytes(greeting));
                }
            },
            DriverEventModel::RxDone { bytes, now } => {
                if m.turn == SessionState::Receiving {
                    match parse_frame(bytes) {
                        Ok(msg) => match msg.kind {
                            KindModel::Data { payload, .. } => match spec_counter_reply(payload) {
                                Ok(reply) => {
                                    let reply_msg = MessageModel {
                                        sender: m.uid,
                                        kind: KindModel::Data {
                                            destination: msg.sender,
                                            payload: reply,
                                        },
                                    };
                                    assert(reply.len() <= 8) by {
                                        let n = crate::codec::spec_parse_counter(payload)->Ok_0;
                                        assert(reply == counter_text(n + 1));
                                    }
                                    assert(reply_msg.wf());
                                    assert(m2.staged == frame_bytes(reply_msg));
                                },
                                Err(_) => {},
                            },
                            KindModel::Ping => {},
                        },
                        Err(_) => {},
                    }
                }
            },
            _ => {},
        }
    }
}

/// Every frame the driver commands the radio to transmit decodes, back to a
/// message stamped with the driver's own identifier.
pub proof fn lemma_transmitted_frames_decode(m: DriverModel, e: DriverEventModel)
    requires
        staged_frame_decodable(m),
    ensures
        ({
            let out = driver_step_model(m, e).1;
            out.command matches RadioCommandModel::Transmit { frame, .. } ==> (
            parse_frame(frame) matches Ok(msg) && msg.sender == m.uid)
        }),
{
    let out = driver_step_model(m, e).1;
    match out.command {
        RadioCommandModel::Transmit { frame, .. } => {
            assert(m.turn == SessionState::PreparingTx && frame == m.staged);
            let msg = choose|msg: MessageModel|
                msg.wf() && msg.sender == m.uid && m.staged == #[trigger] frame_bytes(msg);
            lemma_codec_round_trip(msg, Seq::empty());
            assert(frame_bytes(msg) + Seq::<u8>::empty() =~= frame_bytes(msg));
        },
        _ => {},
    }
}

/// Turn exclusivity at the driver's boundary: a transmit is commanded only
/// out of `PreparingTx`, a receive only out of `PreparingRx` — never while
/// the session sits in the opposite direction's phase.
pub proof fn lemma_driver_turn_exclusive(m: DriverModel, e: DriverEventModel)
    ensures
        ({
            let (m2, out) = driver_step_model(m, e);
            &&& (out.command matches RadioCommandModel::Transmit { .. }) ==> m.turn
                == SessionState::PreparingTx && m2.turn == SessionState::Transmitting
            &&& (out.command matches RadioCommandModel::Receive { .. }) ==> m.turn
                == SessionState::PreparingRx && m2.turn == SessionState::Receiving
        }),
{
}

} // verus!
