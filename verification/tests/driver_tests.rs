use lorelay::codec::{decode, encode_vec};
use lorelay::driver::{
    DriverEvent, DriverOutput, IndicatorKind, LinkDriver, RadioCommand, Role,
};
use lorelay::message::{MessageBuilder, MessageType};
use lorelay::turn::RadioFault;

/// The frame a `Transmit` command carries, or a panic if it is another
/// command.
fn transmitted_frame(out: &DriverOutput) -> Vec<u8> {
    match &out.command {
        RadioCommand::Transmit { frame, .. } => frame.clone(),
        other => panic!("expected a transmit command, got {:?}", other),
    }
}

/// Decodes a frame and returns (sender, destination, payload).
fn unpack_data_frame(frame: &[u8]) -> (u16, u16, Vec<u8>) {
    let msg = decode(frame).expect("transmitted frame must decode");
    let payload = msg.payload_vec();
    match msg.message_type {
        MessageType::Normal { destination_uid, .. } => (msg.sender_uid, destination_uid, payload),
        MessageType::Ping => panic!("expected a data frame"),
    }
}

#[test]
fn initiator_bootstraps_with_greeting() {
    let mut a = LinkDriver::new(Role::Initiator, 1, 1000);
    let out = a.step(DriverEvent::Started);
    assert_eq!(out.notify, Some(IndicatorKind::Startup));
    assert_eq!(out.command, RadioCommand::PrepareTx);
    assert_eq!(out.fault, None);

    let out = a.step(DriverEvent::PrepareTxDone);
    let frame = transmitted_frame(&out);
    let (sender, destination, payload) = unpack_data_frame(&frame);
    assert_eq!(sender, 1);
    assert_eq!(destination, 0);
    assert_eq!(payload.as_slice(), b"hello 0");
    match out.command {
        RadioCommand::Transmit { settle_ms, .. } => assert_eq!(settle_ms, 1000),
        _ => unreachable!(),
    }
}

#[test]
fn responder_bootstraps_listening() {
    let mut b = LinkDriver::new(Role::Responder, 2, 1000);
    let out = b.step(DriverEvent::Started);
    assert_eq!(out.notify, Some(IndicatorKind::Startup));
    assert_eq!(out.command, RadioCommand::PrepareRx);
    let out = b.step(DriverEvent::PrepareRxDone);
    assert_eq!(out.command, RadioCommand::Receive { settle_ms: 1000 });
}

/// Walks a responder into the receiving phase.
fn listening_responder(uid: u16) -> LinkDriver {
    let mut d = LinkDriver::new(Role::Responder, uid, 1000);
    d.step(DriverEvent::Started);
    d.step(DriverEvent::PrepareRxDone);
    d
}

#[test]
fn inbound_counter_draws_incremented_reply() {
    // Inbound "hello 41": the reply carries exactly "hello 42".
    let mut b = listening_responder(2);
    let builder = MessageBuilder::new(7);
    let inbound = encode_vec(&builder.normal(2, b"hello 41"));

    let out = b.step(DriverEvent::RxDone { bytes: inbound, now: 500 });
    assert_eq!(out.notify, Some(IndicatorKind::MessageReceived));
    assert_eq!(out.command, RadioCommand::PrepareTx);
    assert!(b.knows(7));
    assert_eq!(b.last_heard(7), Some(500));

    let out = b.step(DriverEvent::PrepareTxDone);
    let frame = transmitted_frame(&out);
    let (sender, destination, payload) = unpack_data_frame(&frame);
    assert_eq!(sender, 2);
    assert_eq!(destination, 7);
    assert_eq!(payload.as_slice(), b"hello 42");
}

#[test]
fn inbound_top_counter_is_dropped() {
    // Inbound "hello 99": its successor does not fit the field, so the frame
    // is dropped — no reply, no neighbour recorded — and listening resumes.
    let mut b = listening_responder(2);
    let builder = MessageBuilder::new(7);
    let inbound = encode_vec(&builder.normal(2, b"hello 99"));

    let out = b.step(DriverEvent::RxDone { bytes: inbound, now: 500 });
    assert_eq!(out.notify, None);
    assert_eq!(out.command, RadioCommand::PrepareRx);
    assert_eq!(out.fault, None);
    assert!(!b.knows(7));
    assert_eq!(b.neighbour_count(), 0);
    assert!(!b.is_halted());
}

#[test]
fn unrecognized_frames_are_ignored_without_mutation() {
    let mut b = listening_responder(2);
    // Garbage that does not decode at all.
    let out = b.step(DriverEvent::RxDone { bytes: vec![0xFF, 0x00], now: 10 });
    assert_eq!(out.notify, None);
    assert_eq!(out.command, RadioCommand::PrepareRx);
    assert_eq!(b.neighbour_count(), 0);

    // A data frame whose payload is no counter text.
    b.step(DriverEvent::PrepareRxDone);
    let builder = MessageBuilder::new(9);
    let inbound = encode_vec(&builder.normal(2, b"greetings"));
    let out = b.step(DriverEvent::RxDone { bytes: inbound, now: 11 });
    assert_eq!(out.notify, None);
    assert_eq!(out.command, RadioCommand::PrepareRx);
    assert_eq!(b.neighbour_count(), 0);
    assert!(!b.is_halted());
}

#[test]
fn inbound_ping_records_sender() {
    let mut b = listening_responder(2);
    let builder = MessageBuilder::new(31);
    let inbound = encode_vec(&builder.ping());
    let out = b.step(DriverEvent::RxDone { bytes: inbound, now: 77 });
    assert_eq!(out.notify, Some(IndicatorKind::MessageReceived));
    assert_eq!(out.command, RadioCommand::PrepareRx);
    assert!(b.knows(31));
    assert_eq!(b.last_heard(31), Some(77));
}

#[test]
fn rx_fault_halts_driver_and_preserves_table() {
    // Let the responder learn a neighbour first.
    let mut b = listening_responder(2);
    let builder = MessageBuilder::new(7);
    let inbound = encode_vec(&builder.ping());
    b.step(DriverEvent::RxDone { bytes: inbound, now: 1 });
    b.step(DriverEvent::PrepareRxDone);
    assert_eq!(b.neighbour_count(), 1);

    // Inject a fault at the receive suspension point.
    let out = b.step(DriverEvent::RxFailed);
    assert_eq!(out.fault, Some(RadioFault::RxFailed));
    assert_eq!(out.command, RadioCommand::NoCommand);
    assert!(b.is_halted());
    // The table survives uncorrupted.
    assert_eq!(b.neighbour_count(), 1);
    assert!(b.knows(7));
    assert_eq!(b.last_heard(7), Some(1));

    // A halted driver never asks for another radio operation.
    let followups = [
        DriverEvent::Started,
        DriverEvent::PrepareTxDone,
        DriverEvent::PrepareRxDone,
        DriverEvent::TxDone,
        DriverEvent::RxDone { bytes: vec![0, 0, 1], now: 2 },
    ];
    for e in followups {
        let out = b.step(e);
        assert_eq!(out.command, RadioCommand::NoCommand);
        assert_eq!(out.notify, None);
        assert_eq!(out.fault, None);
    }
    assert_eq!(b.neighbour_count(), 1);
}

#[test]
fn prepare_tx_fault_halts_driver() {
    let mut a = LinkDriver::new(Role::Initiator, 1, 1000);
    a.step(DriverEvent::Started);
    let out = a.step(DriverEvent::PrepareTxFailed);
    assert_eq!(out.fault, Some(RadioFault::PrepareTxFailed));
    assert_eq!(out.command, RadioCommand::NoCommand);
    assert!(a.is_halted());
    let out = a.step(DriverEvent::PrepareTxDone);
    assert_eq!(out.command, RadioCommand::NoCommand);
}

#[test]
fn tx_fault_halts_driver() {
    let mut a = LinkDriver::new(Role::Initiator, 1, 1000);
    a.step(DriverEvent::Started);
    a.step(DriverEvent::PrepareTxDone);
    let out = a.step(DriverEvent::TxFailed);
    assert_eq!(out.fault, Some(RadioFault::TxFailed));
    assert!(a.is_halted());
}

#[test]
fn prepare_rx_fault_halts_driver() {
    let mut b = LinkDriver::new(Role::Responder, 2, 1000);
    b.step(DriverEvent::Started);
    let out = b.step(DriverEvent::PrepareRxFailed);
    assert_eq!(out.fault, Some(RadioFault::PrepareRxFailed));
    assert!(b.is_halted());
}

/// Hands a frame on the air to a receiving driver.
fn deliver(frame: Vec<u8>, receiver: &mut LinkDriver, now: u64) -> DriverOutput {
    receiver.step(DriverEvent::RxDone { bytes: frame, now })
}

#[test]
fn end_to_end_counter_exchange() {
    // Two sessions: A initiates with "hello 0"; B replies "hello 1";
    // A replies "hello 2"; the counter climbs monotonically.
    let mut a = LinkDriver::new(Role::Initiator, 1, 10);
    let mut b = LinkDriver::new(Role::Responder, 2, 10);

    // Cold start.
    assert_eq!(a.step(DriverEvent::Started).command, RadioCommand::PrepareTx);
    assert_eq!(b.step(DriverEvent::Started).command, RadioCommand::PrepareRx);
    assert_eq!(b.step(DriverEvent::PrepareRxDone).command, RadioCommand::Receive { settle_ms: 10 });

    // A transmits the greeting.
    let out = a.step(DriverEvent::PrepareTxDone);
    let frame0 = transmitted_frame(&out);
    let (_, _, payload0) = unpack_data_frame(&frame0);
    assert_eq!(payload0.as_slice(), b"hello 0");
    assert_eq!(a.step(DriverEvent::TxDone).notify, Some(IndicatorKind::MessageSent));
    assert_eq!(a.step(DriverEvent::PrepareRxDone).command, RadioCommand::Receive { settle_ms: 10 });

    // B receives it, records A, and replies "hello 1".
    let out = deliver(frame0, &mut b, 100);
    assert_eq!(out.notify, Some(IndicatorKind::MessageReceived));
    assert!(b.knows(1));
    let out = b.step(DriverEvent::PrepareTxDone);
    let frame1 = transmitted_frame(&out);
    let (sender1, dest1, payload1) = unpack_data_frame(&frame1);
    assert_eq!((sender1, dest1), (2, 1));
    assert_eq!(payload1.as_slice(), b"hello 1");
    assert_eq!(b.step(DriverEvent::TxDone).notify, Some(IndicatorKind::MessageSent));
    assert_eq!(b.step(DriverEvent::PrepareRxDone).command, RadioCommand::Receive { settle_ms: 10 });

    // A receives it, records B, and replies "hello 2".
    let out = deliver(frame1, &mut a, 200);
    assert_eq!(out.notify, Some(IndicatorKind::MessageReceived));
    assert!(a.knows(2));
    let out = a.step(DriverEvent::PrepareTxDone);
    let frame2 = transmitted_frame(&out);
    let (sender2, dest2, payload2) = unpack_data_frame(&frame2);
    assert_eq!((sender2, dest2), (1, 2));
    assert_eq!(payload2.as_slice(), b"hello 2");
    assert_eq!(a.step(DriverEvent::TxDone).notify, Some(IndicatorKind::MessageSent));
    a.step(DriverEvent::PrepareRxDone);

    // And onwards: the sequence keeps climbing.
    let out = deliver(frame2, &mut b, 300);
    assert_eq!(out.command, RadioCommand::PrepareTx);
    let out = b.step(DriverEvent::PrepareTxDone);
    let (_, _, payload3) = unpack_data_frame(&transmitted_frame(&out));
    assert_eq!(payload3.as_slice(), b"hello 3");

    // Neither session halted, and each knows exactly the other.
    assert!(!a.is_halted() && !b.is_halted());
    assert_eq!(a.neighbour_count(), 1);
    assert_eq!(b.neighbour_count(), 1);
}

#[test]
fn started_twice_is_inert() {
    let mut a = LinkDriver::new(Role::Initiator, 1, 1000);
    a.step(DriverEvent::Started);
    let out = a.step(DriverEvent::Started);
    assert_eq!(out.command, RadioCommand::NoCommand);
    assert_eq!(out.notify, None);
}
