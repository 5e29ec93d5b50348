//! What the peer's packets do to the link.

use std::collections::VecDeque;
use vibe_emu::network_link::packet::{
    bgb_sync1_control_to_dot_cycles_per_bit, BgbPacket, CMD_SYNC1, CMD_SYNC2, CMD_SYNC3,
    RX_PACKET_SIZE,
};
use vibe_emu::network_link::state::{
    handle_packet, ExternalClockPending, LinkState, SlaveReadyState,
};

/// The moment at which the packets arrive.
const NOW: u64 = 1_000_000_000;

fn pop_packet(tx_queue: &mut VecDeque<u8>) -> BgbPacket {
    let mut bytes = [0u8; RX_PACKET_SIZE];
    for byte in &mut bytes {
        *byte = tx_queue.pop_front().expect("missing queued packet byte");
    }
    BgbPacket::from_bytes(&bytes)
}

#[test]
fn sync1_packet_uses_bgb_control_value() {
    let packet = BgbPacket::sync1(0x42, 0x85, 0x1234_5678);
    assert_eq!(packet.b1, CMD_SYNC1);
    assert_eq!(packet.b2, 0x42);
    assert_eq!(packet.b3, 0x85);
    assert_eq!(packet.b4, 0);
    assert_eq!(packet.i1, 0x1234_5678);
}

#[test]
fn sync1_control_bits_map_to_expected_clock_rates() {
    assert_eq!(bgb_sync1_control_to_dot_cycles_per_bit(0x81), 512);
    assert_eq!(bgb_sync1_control_to_dot_cycles_per_bit(0x85), 256);
    assert_eq!(bgb_sync1_control_to_dot_cycles_per_bit(0x83), 16);
    assert_eq!(bgb_sync1_control_to_dot_cycles_per_bit(0x87), 8);
}

#[test]
fn sync1_ready_uses_control_bits_for_external_clock_pacing() {
    let mut state = LinkState::default();
    let mut pending = ExternalClockPending::default();
    let mut slave_ready = SlaveReadyState::default();
    slave_ready.set_ready(0x34);
    let mut tx_queue = VecDeque::new();
    let mut master_retry_not_before = None;

    handle_packet(
        BgbPacket::sync1(0x12, 0x87, 99),
        &mut state,
        &mut pending,
        &slave_ready,
        &mut master_retry_not_before,
        NOW,
        &mut tx_queue,
    );

    assert!(pending.is_pending());
    assert_eq!(pending.dot_cycles_per_bit(), 8);
}

#[test]
fn sync1_not_ready_responds_with_sync3_ack() {
    let mut state = LinkState::default();
    let mut pending = ExternalClockPending::default();
    let slave_ready = SlaveReadyState::default();
    let mut tx_queue = VecDeque::new();
    let mut master_retry_not_before = None;

    handle_packet(
        BgbPacket::sync1(0x12, 0x85, 99),
        &mut state,
        &mut pending,
        &slave_ready,
        &mut master_retry_not_before,
        NOW,
        &mut tx_queue,
    );

    let packet = pop_packet(&mut tx_queue);
    assert_eq!(packet.b1, CMD_SYNC3);
    assert_eq!(packet.b2, 1);
    assert_eq!(packet.i1, 0);
    assert!(
        !pending.is_pending(),
        "external clock should not be armed when slave is not ready"
    );
}

#[test]
fn sync1_ready_responds_sync2_and_queues_incoming() {
    let mut state = LinkState::default();
    let mut pending = ExternalClockPending::default();
    let mut slave_ready = SlaveReadyState::default();
    slave_ready.set_ready(0x34);
    let mut tx_queue = VecDeque::new();
    let mut master_retry_not_before = None;

    handle_packet(
        BgbPacket::sync1(0x12, 0x85, 99),
        &mut state,
        &mut pending,
        &slave_ready,
        &mut master_retry_not_before,
        NOW,
        &mut tx_queue,
    );

    let packet = pop_packet(&mut tx_queue);
    assert_eq!(packet.b1, CMD_SYNC2);
    assert_eq!(packet.b2, 0x34);
    assert_eq!(packet.b3, 0x80);
    assert_eq!(packet.b4, 1);

    assert_eq!(state.slave_incoming, Some(0x12));
    assert!(state.slave_complete);
    assert!(pending.is_pending());
    assert_eq!(pending.dot_cycles_per_bit(), 256);
}

#[test]
fn sync3_ack_rearms_master_with_retry_delay() {
    let mut state = LinkState::default();
    state.master_outgoing = Some(0x77);
    state.master_waiting = true;

    let mut pending = ExternalClockPending::default();
    let slave_ready = SlaveReadyState::default();
    let mut tx_queue = VecDeque::new();
    let mut master_retry_not_before = None;

    handle_packet(
        BgbPacket::sync3_ack(),
        &mut state,
        &mut pending,
        &slave_ready,
        &mut master_retry_not_before,
        NOW,
        &mut tx_queue,
    );

    assert_eq!(state.master_response, None);
    assert_eq!(state.master_outgoing, Some(0x77));
    assert!(!state.master_waiting);
    assert!(master_retry_not_before.is_some());
}

#[test]
fn sync3_timestamp_echoes_once_per_unique_remote_timestamp() {
    let mut state = LinkState::default();
    let mut pending = ExternalClockPending::default();
    let slave_ready = SlaveReadyState::default();
    let mut tx_queue = VecDeque::new();
    let mut master_retry_not_before = None;

    handle_packet(
        BgbPacket::sync3_timestamp(0x0012_3456),
        &mut state,
        &mut pending,
        &slave_ready,
        &mut master_retry_not_before,
        NOW,
        &mut tx_queue,
    );

    let first = pop_packet(&mut tx_queue);
    assert_eq!(first.b1, CMD_SYNC3);
    assert_eq!(first.b2, 0);
    assert_eq!(first.i1, 0x0012_3456);

    // Duplicate timestamp should not be echoed again.
    handle_packet(
        BgbPacket::sync3_timestamp(0x0012_3456),
        &mut state,
        &mut pending,
        &slave_ready,
        &mut master_retry_not_before,
        NOW,
        &mut tx_queue,
    );
    assert!(tx_queue.is_empty());

    // A newer timestamp should be echoed.
    handle_packet(
        BgbPacket::sync3_timestamp(0x0012_3856),
        &mut state,
        &mut pending,
        &slave_ready,
        &mut master_retry_not_before,
        NOW,
        &mut tx_queue,
    );
    let second = pop_packet(&mut tx_queue);
    assert_eq!(second.b1, CMD_SYNC3);
    assert_eq!(second.b2, 0);
    assert_eq!(second.i1, 0x0012_3856);
}

#[test]
fn sync2_waiting_master_completes_transfer() {
    let mut state = LinkState::default();
    state.master_outgoing = Some(0x11);
    state.master_waiting = true;

    let mut pending = ExternalClockPending::default();
    let slave_ready = SlaveReadyState::default();
    let mut tx_queue = VecDeque::new();
    let mut master_retry_not_before = None;

    handle_packet(
        BgbPacket::sync2(0x22, true),
        &mut state,
        &mut pending,
        &slave_ready,
        &mut master_retry_not_before,
        NOW,
        &mut tx_queue,
    );

    assert_eq!(state.master_response, Some(0x22));
    assert_eq!(state.master_outgoing, None);
    assert!(!state.master_waiting);
}

#[test]
fn sync2_not_waiting_master_is_ignored() {
    let mut state = LinkState::default();
    state.master_outgoing = Some(0x11);
    state.master_waiting = false;

    let mut pending = ExternalClockPending::default();
    let slave_ready = SlaveReadyState::default();
    let mut tx_queue = VecDeque::new();
    let mut master_retry_not_before = None;

    let event = handle_packet(
        BgbPacket::sync2(0x22, true),
        &mut state,
        &mut pending,
        &slave_ready,
        &mut master_retry_not_before,
        NOW,
        &mut tx_queue,
    );

    assert_eq!(state.master_response, None);
    assert_eq!(state.master_outgoing, Some(0x11));
    assert!(!state.master_waiting);
    assert!(!pending.is_pending());
    assert!(tx_queue.is_empty());
    assert!(event.is_none());
}

#[test]
fn collision_followed_by_late_sync2_keeps_collision_response() {
    let mut state = LinkState::default();
    state.master_outgoing = Some(0xA1);
    state.master_waiting = true;

    let mut pending = ExternalClockPending::default();
    let slave_ready = SlaveReadyState::default();
    let mut tx_queue = VecDeque::new();
    let mut master_retry_not_before = None;

    // First packet collides with our in-flight master transfer.
    handle_packet(
        BgbPacket::sync1(0xB2, 0x85, 123),
        &mut state,
        &mut pending,
        &slave_ready,
        &mut master_retry_not_before,
        NOW,
        &mut tx_queue,
    );

    let packet = pop_packet(&mut tx_queue);
    assert_eq!(packet.b1, CMD_SYNC2);
    assert_eq!(packet.b2, 0xA1);

    // A late SYNC2 for the abandoned transfer must be ignored.
    handle_packet(
        BgbPacket::sync2(0xC3, true),
        &mut state,
        &mut pending,
        &slave_ready,
        &mut master_retry_not_before,
        NOW,
        &mut tx_queue,
    );

    assert_eq!(state.master_response, Some(0xB2));
    assert_eq!(state.master_outgoing, None);
    assert!(!state.master_waiting);
}
