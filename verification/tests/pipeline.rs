use rc_link::crc::checksum;
use rc_link::link::{
    scale_samples, transition_allowed, InitStatus, RadioMode, Receiver, Sender, Status,
    PROCESS_QUEUE_CAPACITY,
};
use rc_link::protocol::{Transmitter, TransmitterMessage};

fn packet(id: u32, values: [u16; 4]) -> Vec<u8> {
    let message = Transmitter {
        correlation_id: id,
        body: TransmitterMessage::ChannelValues(values),
    };
    message.encode().unwrap()
}

#[test]
fn loss_accounting_counts_the_gap() {
    let mut status = Status::startup(InitStatus::Ready);
    for id in [1u32, 2, 4, 5] {
        status.process(&packet(id, [0; 4]));
    }
    assert_eq!(status.missed_messages, 1);
    assert_eq!(status.last_correlation_id, 5);
}

#[test]
fn sequential_ids_count_no_loss() {
    let mut status = Status::startup(InitStatus::Ready);
    for id in 0..100u32 {
        status.process(&packet(id, [7; 4]));
    }
    assert_eq!(status.missed_messages, 0);
    assert_eq!(status.last_correlation_id, 99);
}

#[test]
fn malformed_payload_changes_nothing() {
    let mut status = Status::startup(InitStatus::Ready);
    status.process(&packet(3, [9, 9, 9, 9]));
    status.process(&[0xff; 5]);
    assert_eq!(status.last_correlation_id, 3);
    assert_eq!(status.missed_messages, 2);
    assert_eq!(status.values, [9, 9, 9, 9]);
}

#[test]
fn end_to_end() {
    let mut sender = Sender::startup();
    let mut receiver = Receiver::startup(InitStatus::Ready);
    let mut fifo: Vec<Vec<u8>> = Vec::new();
    for _ in 0..3 {
        let actions = sender.transmit([1000, 2000, 3000, 4000]);
        fifo.push(actions.packet);
    }
    receiver.interrupt();
    receiver.receive(&mut fifo);
    assert!(fifo.is_empty());
    while receiver.process_next() {}
    assert_eq!(receiver.status.last_correlation_id, 2);
    assert_eq!(receiver.status.missed_messages, 0);
    assert_eq!(receiver.status.values, [1000, 2000, 3000, 4000]);
    let frame = receiver.send_to_flight_controller();
    assert_eq!(frame.len(), 13);
    assert_eq!(frame[0], 0xa8);
    assert_eq!(frame[1], 0x01);
    let crc = u16::from_be_bytes([frame[11], frame[12]]);
    assert_eq!(crc, checksum(&frame[..11]));
}

#[test]
fn backpressure_terminates_and_ticks_continue() {
    let mut receiver = Receiver::startup(InitStatus::Ready);
    let mut fifo: Vec<Vec<u8>> = (0..10u32).map(|id| packet(id, [0; 4])).collect();
    receiver.receive(&mut fifo);
    // The queue saturates at its capacity; the packet read when it was
    // already full is dropped and the rest stays for a later run.
    assert_eq!(receiver.process_queue.len(), PROCESS_QUEUE_CAPACITY);
    assert_eq!(fifo.len(), 10 - PROCESS_QUEUE_CAPACITY - 1);
    // A second run against the still-saturated queue terminates too.
    receiver.receive(&mut fifo);
    assert_eq!(fifo.len(), 10 - PROCESS_QUEUE_CAPACITY - 2);
    assert_eq!(receiver.process_queue.len(), PROCESS_QUEUE_CAPACITY);
    // And the periodic tick carries on normally.
    let first = receiver.tick(false, false);
    assert!(first.send_to_flight_controller);
    let second = receiver.tick(false, false);
    assert!(!second.send_to_flight_controller);
    assert_eq!(receiver.status.counter, 2);
}

#[test]
fn interrupt_backpressure_counts_missed() {
    let mut receiver = Receiver::startup(InitStatus::Ready);
    receiver.interrupt();
    receiver.interrupt();
    assert_eq!(receiver.status.interrupts, 2);
    assert_eq!(receiver.status.missed_interrupts, 1);
}

#[test]
fn tick_cadence() {
    let mut receiver = Receiver::startup(InitStatus::Ready);
    let first = receiver.tick(false, true);
    assert!(first.send_to_flight_controller);
    assert!(first.toggle_led);
    assert_eq!(first.log_status, Some((false, true)));
    assert!(!first.spawn_receive);
    for _ in 0..9 {
        receiver.tick(false, false);
    }
    let eleventh = receiver.tick(false, false);
    assert!(eleventh.send_to_flight_controller);
    assert!(!eleventh.toggle_led);
    assert_eq!(eleventh.log_status, None);
}

#[test]
fn tick_polls_radio_as_fallback() {
    let mut receiver = Receiver::startup(InitStatus::Ready);
    let first = receiver.tick(true, false);
    assert!(first.spawn_receive);
    let second = receiver.tick(true, false);
    assert!(!second.spawn_receive);
    let mut fifo: Vec<Vec<u8>> = Vec::new();
    receiver.receive(&mut fifo);
    let third = receiver.tick(true, false);
    assert!(third.spawn_receive);
}

#[test]
fn transmit_sequences_and_toggles() {
    let mut sender = Sender::startup();
    let first = sender.transmit([0; 4]);
    assert!(first.toggle_led);
    assert_eq!(Transmitter::decode(&first.packet).unwrap().correlation_id, 0);
    let second = sender.transmit([0; 4]);
    assert!(!second.toggle_led);
    assert_eq!(
        Transmitter::decode(&second.packet).unwrap().correlation_id,
        1
    );
}

#[test]
fn sample_scaling_fills_16_bits() {
    let scaled = scale_samples(&[0, 1, 2048, 4095]);
    assert_eq!(scaled, [0, 16, 32768, 65520]);
}

#[test]
fn radio_mode_discipline() {
    assert!(transition_allowed(RadioMode::Standby, RadioMode::Receiving));
    assert!(transition_allowed(RadioMode::Standby, RadioMode::Transmitting));
    assert!(transition_allowed(RadioMode::Transmitting, RadioMode::Standby));
    assert!(!transition_allowed(RadioMode::Receiving, RadioMode::Transmitting));
    assert!(!transition_allowed(RadioMode::Receiving, RadioMode::Standby));
}
