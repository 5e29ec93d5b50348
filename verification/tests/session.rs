//! Two peers of the link, joined in memory.

use std::collections::VecDeque;
use vibe_emu::network_link::handshake::{Handshake, HandshakeAction, Role};
use vibe_emu::network_link::packet::{
    bgb_sync1_control_value, sanitize_sync1_control, BgbPacket, CMD_WANTDISCONNECT,
};
use vibe_emu::network_link::session::{
    drain_packets, flush_step, next_chunk, read_step, CommandAction, ConnectStep, FlushStep,
    LinkSession, PendingConnect, ReadOutcome, ReadState, WriteOutcome,
};
use vibe_emu::network_link::state::{
    handle_packet, handle_packet_without_state, queue_packet, ExternalClockPending, LinkCommand,
    LinkEvent, LinkState, PendingTimestamp, SlaveReadyState, TransferStep,
    LINK_TRANSFER_TIMEOUT, MASTER_RETRY_INTERVAL,
};
use vibe_emu::serial::{
    clock_bit_index, serial_dot_cycles_per_bit, LinkPort, NullLinkPort, Serial,
    SerialTransferClock,
};

struct Peer {
    session: LinkSession,
    state: LinkState,
    clock: ExternalClockPending,
    ready: SlaveReadyState,
}

impl Peer {
    fn connected(accepted: bool) -> Self {
        let mut peer = Peer {
            session: LinkSession::new(),
            state: LinkState::default(),
            clock: ExternalClockPending::default(),
            ready: SlaveReadyState::default(),
        };
        let event = peer.session.connected(accepted, false, true, &mut peer.state);
        assert!(matches!(event, LinkEvent::Connected));
        peer
    }

    fn flush(&mut self) -> Vec<u8> {
        let mut wire = Vec::new();
        while !self.session.tx_queue.is_empty() {
            let chunk = next_chunk(&self.session.tx_queue);
            wire.extend_from_slice(&chunk);
            let step = flush_step(&mut self.session.tx_queue, WriteOutcome::Wrote(chunk.len()));
            assert_eq!(step, FlushStep::Again);
        }
        wire
    }

    fn receive(&mut self, wire: Vec<u8>, now: u64) -> Vec<LinkEvent> {
        if !wire.is_empty() {
            read_step(&mut self.session.rx_buf, ReadOutcome::Data(wire));
        }
        self.session.receive(&mut self.state, &mut self.clock, &self.ready, now)
    }
}

#[test]
fn handshake_between_two_peers() {
    let mut client = Handshake::new(Role::Client);
    let mut server = Handshake::new(Role::Server);
    let mut to_server: VecDeque<BgbPacket> = VecDeque::new();
    let mut to_client: VecDeque<BgbPacket> = VecDeque::new();
    for _ in 0..20 {
        match client.action() {
            HandshakeAction::Send(p) => {
                to_server.push_back(p);
                client.sent(true);
            }
            HandshakeAction::Receive => {
                if let Some(p) = to_client.pop_front() {
                    client.received(Some(p));
                }
            }
            _ => {}
        }
        match server.action() {
            HandshakeAction::Send(p) => {
                to_client.push_back(p);
                server.sent(true);
            }
            HandshakeAction::Receive => {
                if let Some(p) = to_server.pop_front() {
                    server.received(Some(p));
                }
            }
            _ => {}
        }
    }
    assert_eq!(
        client.action(),
        HandshakeAction::Done { remote_paused: true, remote_support_reconnect: true }
    );
    assert_eq!(
        server.action(),
        HandshakeAction::Done { remote_paused: false, remote_support_reconnect: true }
    );
    // The server's second status is left for the session.
    assert_eq!(to_client.pop_front(), Some(BgbPacket::status(true, false, true)));
}

#[test]
fn handshake_fails_on_anything_else() {
    let mut client = Handshake::new(Role::Client);
    client.sent(false);
    assert_eq!(client.action(), HandshakeAction::Failed);

    let mut server = Handshake::new(Role::Server);
    server.received(None);
    assert_eq!(server.action(), HandshakeAction::Failed);

    let mut server = Handshake::new(Role::Server);
    server.received(Some(BgbPacket { b3: 3, ..BgbPacket::version() }));
    assert_eq!(server.action(), HandshakeAction::Failed);

    let mut client = Handshake::new(Role::Client);
    client.sent(true);
    client.received(Some(BgbPacket::version()));
    client.received(Some(BgbPacket::sync3_ack()));
    assert_eq!(client.action(), HandshakeAction::Failed);
}

#[test]
fn a_transfer_exchanges_the_bytes() {
    let mut master = Peer::connected(false);
    let mut slave = Peer::connected(true);
    slave.ready.set_ready(0x34);
    let clock = SerialTransferClock { high_speed: false, double_speed: false };

    assert_eq!(master.state.try_transfer_with_clock(0x12, clock), None);
    assert!(master.session.start_master_transfer(&mut master.state, 99, 0));
    // Only once.
    assert!(!master.session.start_master_transfer(&mut master.state, 99, 0));
    let events = slave.receive(master.flush(), 0);
    assert_eq!(events.len(), 1);
    assert!(matches!(events[0], LinkEvent::SlaveTransferReady));
    assert!(slave.clock.is_pending());
    assert_eq!(slave.clock.dot_cycles_per_bit(), 512);
    assert_eq!(slave.state.try_external_transfer(0x34), Some(0x12));
    assert_eq!(slave.state.try_external_transfer(0x34), None);

    assert!(master.receive(slave.flush(), 0).is_empty());
    assert_eq!(master.state.try_transfer(0x12), Some(0x34));
}

#[test]
fn a_refused_transfer_is_tried_again() {
    let mut master = Peer::connected(false);
    let mut slave = Peer::connected(true);
    assert_eq!(master.state.try_transfer(0x55), None);
    assert!(master.session.start_master_transfer(&mut master.state, 1, 1_000));
    slave.receive(master.flush(), 1_000);
    assert!(!slave.clock.is_pending());
    master.receive(slave.flush(), 1_000);
    // Not before the pause is over.
    let due = 1_000 + MASTER_RETRY_INTERVAL;
    assert!(!master.session.start_master_transfer(&mut master.state, 2, due - 1));
    assert!(master.session.start_master_transfer(&mut master.state, 2, due));
    slave.ready.set_ready(0x66);
    slave.receive(master.flush(), due);
    master.receive(slave.flush(), due);
    assert_eq!(master.state.try_transfer(0x55), Some(0x66));
}

#[test]
fn framing_ignores_pieces() {
    let packets = [
        BgbPacket::version(),
        BgbPacket::sync1(1, 0x85, 0xDEAD_BEEF),
        BgbPacket::sync3_timestamp(7),
    ];
    let mut tx = VecDeque::new();
    for p in packets {
        queue_packet(&mut tx, p);
    }
    let wire: Vec<u8> = tx.drain(..).collect();
    assert_eq!(wire.len(), 24);
    let mut rx = Vec::new();
    let mut seen = Vec::new();
    for piece in wire.chunks(5) {
        let state = read_step(&mut rx, ReadOutcome::Data(piece.to_vec()));
        assert_eq!(state, ReadState::Alive);
        seen.extend(drain_packets(&mut rx));
    }
    assert_eq!(seen, packets.to_vec());
    assert!(rx.is_empty());
    rx.extend_from_slice(&wire[..7]);
    assert!(drain_packets(&mut rx).is_empty());
    assert_eq!(rx.len(), 7);
}

#[test]
fn reading_and_writing_outcomes() {
    let mut rx = vec![1];
    assert_eq!(read_step(&mut rx, ReadOutcome::Data(Vec::new())), ReadState::Disconnected);
    assert_eq!(read_step(&mut rx, ReadOutcome::Data(vec![0; 1024])), ReadState::Again);
    assert_eq!(read_step(&mut rx, ReadOutcome::WouldBlock), ReadState::Alive);
    assert_eq!(read_step(&mut rx, ReadOutcome::Interrupted), ReadState::Again);
    assert_eq!(read_step(&mut rx, ReadOutcome::Failed), ReadState::Failed);
    assert_eq!(rx.len(), 1025);

    let mut tx: VecDeque<u8> = (0..600u32).map(|i| i as u8).collect();
    let chunk = next_chunk(&tx);
    assert_eq!(chunk.len(), 512);
    assert_eq!(chunk[511], 255);
    assert_eq!(flush_step(&mut tx, WriteOutcome::WouldBlock), FlushStep::Later);
    assert_eq!(flush_step(&mut tx, WriteOutcome::Interrupted), FlushStep::Again);
    assert_eq!(flush_step(&mut tx, WriteOutcome::Failed), FlushStep::Failed);
    assert_eq!(flush_step(&mut tx, WriteOutcome::Wrote(0)), FlushStep::Closed);
    assert_eq!(tx.len(), 600);
    assert_eq!(flush_step(&mut tx, WriteOutcome::Wrote(10)), FlushStep::Again);
    assert_eq!(tx.front(), Some(&10));
}

#[test]
fn a_pending_connection_is_tried_until_its_deadline() {
    let mut connect = PendingConnect::new("localhost".to_string(), 8765, 1_000);
    assert_eq!(connect.endpoint(), "localhost:8765");
    assert!(matches!(connect.poll(1_000), ConnectStep::Attempt));
    connect.attempt_failed("refused".to_string(), 2_000);
    assert!(matches!(connect.poll(2_001), ConnectStep::Wait));
    assert!(matches!(connect.poll(2_000 + 300_000_000), ConnectStep::Attempt));
    match connect.poll(1_000 + 12_000_000_000) {
        ConnectStep::GiveUp(LinkEvent::Error(text)) => {
            assert_eq!(text, "Connection to localhost:8765 failed after 2 attempt(s): refused")
        }
        _ => panic!("the deadline is over"),
    }
    let mut late = PendingConnect::new("h".to_string(), 1, 0);
    match late.poll(u64::MAX) {
        ConnectStep::GiveUp(LinkEvent::Error(text)) => assert_eq!(
            text,
            "Connection to h:1 failed after 1 attempt(s): timed out while waiting for peer"
        ),
        _ => panic!("the deadline is over"),
    }
    let mut unknown = PendingConnect::new("h".to_string(), 1, 0);
    unknown.host_not_found("no such host".to_string(), 5);
    assert!(matches!(unknown.poll(5), ConnectStep::GiveUp(_)));
}

#[test]
fn commands_of_the_program() {
    let mut p = Peer::connected(true);
    let act = |p: &mut Peer, cmd| p.session.command(cmd, &mut p.state, &mut p.clock, 10);
    assert_eq!(act(&mut p, LinkCommand::NotifyPause), CommandAction::Nothing);
    assert_eq!(act(&mut p, LinkCommand::NotifyResume), CommandAction::Nothing);
    let mut wire = p.flush();
    assert_eq!(
        drain_packets(&mut wire),
        vec![BgbPacket::status(true, true, true), BgbPacket::status(true, false, true)]
    );
    assert_eq!(act(&mut p, LinkCommand::Disconnect), CommandAction::Close { announce: true });
    assert!(!p.state.connected);
    assert!(!p.session.streaming);
    assert_eq!(act(&mut p, LinkCommand::NotifyPause), CommandAction::Nothing);
    assert!(p.session.tx_queue.is_empty());

    assert_eq!(act(&mut p, LinkCommand::Listen { port: 8765 }), CommandAction::Bind { port: 8765 });
    assert!(!p.session.accepts());
    assert!(matches!(p.session.bound(8765), LinkEvent::Listening { port: 8765 }));
    assert!(p.session.accepts());

    let cmd = LinkCommand::Connect { host: "h".to_string(), port: 1 };
    assert_eq!(act(&mut p, cmd), CommandAction::Connect);
    assert!(!p.session.accepts());
    assert!(p.session.connects());
    assert!(matches!(p.session.poll_connect(10), ConnectStep::Attempt));
    assert!(matches!(p.session.poll_connect(u64::MAX), ConnectStep::GiveUp(_)));
    assert!(!p.session.connects());
    assert!(matches!(p.session.poll_connect(10), ConnectStep::Wait));
    assert_eq!(act(&mut p, LinkCommand::Shutdown), CommandAction::Stop);
}

#[test]
fn a_lost_connection_leaves_nothing() {
    let mut p = Peer::connected(true);
    p.state.master_waiting = true;
    p.state.queue_slave_incoming(9);
    p.clock.mark_pending(16);
    p.session.rx_buf.push(1);
    assert!(matches!(p.session.lost(&mut p.state, &mut p.clock), LinkEvent::Disconnected));
    assert!(!p.state.connected && !p.state.master_waiting);
    assert_eq!(p.state.try_external_transfer(0), Some(0xFF));
    assert!(!p.clock.is_pending());
    assert_eq!(p.clock.dot_cycles_per_bit(), 512);
    assert!(p.session.rx_buf.is_empty());
    // Without a connection a master transfer reads an open cable.
    assert_eq!(p.state.try_transfer(0x12), Some(0xFF));
}

#[test]
fn a_blocking_transfer_times_out() {
    let mut p = Peer::connected(true);
    assert!(matches!(p.state.poll_transfer(1, 0), TransferStep::Wait));
    assert!(matches!(p.state.poll_transfer(1, LINK_TRANSFER_TIMEOUT), TransferStep::Wait));
    assert!(matches!(
        p.state.poll_transfer(1, LINK_TRANSFER_TIMEOUT + 1),
        TransferStep::Done(0xFF)
    ));
    assert_eq!(p.state.master_outgoing, None);
}

#[test]
fn status_packets_report_the_peer() {
    let mut p = Peer::connected(true);
    let mut tx = VecDeque::new();
    queue_packet(&mut tx, BgbPacket::status(true, true, false));
    queue_packet(&mut tx, BgbPacket::status(true, false, true));
    let events = p.receive(tx.drain(..).collect(), 0);
    assert_eq!(events.len(), 2);
    assert!(matches!(events[0], LinkEvent::RemotePaused));
    assert!(matches!(events[1], LinkEvent::RemoteResumed));
    assert!(!p.state.remote_paused);
    assert!(p.state.remote_supports_reconnect);
}

#[test]
fn timestamps_are_echoed_also_without_the_state() {
    let mut tx = VecDeque::new();
    handle_packet_without_state(BgbPacket::sync3_timestamp(5), &mut tx);
    let mut wire: Vec<u8> = tx.drain(..).collect();
    assert_eq!(drain_packets(&mut wire), vec![BgbPacket::sync3_timestamp(5)]);
    handle_packet_without_state(BgbPacket::sync3_ack(), &mut tx);
    assert!(tx.is_empty());
    assert_eq!(PendingTimestamp::default().0, 0);
}

#[test]
fn control_values() {
    assert_eq!(bgb_sync1_control_value(false, false), 0x81);
    assert_eq!(bgb_sync1_control_value(false, true), 0x85);
    assert_eq!(bgb_sync1_control_value(true, false), 0x83);
    assert_eq!(bgb_sync1_control_value(true, true), 0x87);
    assert_eq!(sanitize_sync1_control(0x00), 0x81);
    assert_eq!(sanitize_sync1_control(0xFF), 0x87);
    assert_eq!(BgbPacket::want_disconnect().b1, CMD_WANTDISCONNECT);
    let odd = BgbPacket { b1: 0x77, ..BgbPacket::default() };
    let mut p = Peer::connected(true);
    let mut tx = VecDeque::new();
    let mut retry = None;
    let event = handle_packet(odd, &mut p.state, &mut p.clock, &p.ready, &mut retry, 0, &mut tx);
    assert!(event.is_none() && tx.is_empty());
}

#[test]
fn ready_bytes() {
    let mut ready = SlaveReadyState::default();
    assert_eq!(ready.get_ready_byte(), None);
    ready.set_ready(0xFF);
    assert_eq!(ready.get_ready_byte(), Some(0xFF));
    ready.set_not_ready();
    assert_eq!(ready.get_ready_byte(), None);
}

#[test]
fn serial_clocks() {
    assert_eq!(clock_bit_index(false, false, false), 8);
    assert_eq!(clock_bit_index(false, true, true), 7);
    assert_eq!(clock_bit_index(true, false, false), 8);
    assert_eq!(clock_bit_index(true, true, false), 7);
    assert_eq!(clock_bit_index(true, false, true), 3);
    assert_eq!(clock_bit_index(true, true, true), 2);
    assert_eq!(serial_dot_cycles_per_bit(false, false), 512);
    assert_eq!(serial_dot_cycles_per_bit(true, true), 8);
}

#[test]
fn a_loopback_port_echoes() {
    let mut port = NullLinkPort::new(true);
    assert_eq!(port.transfer(0x5A), 0x5A);
    let mut dead = NullLinkPort::default();
    assert_eq!(dead.transfer(0x5A), 0xFF);

    let mut serial = Serial::new(false, Default::default());
    serial.connect(Box::new(NullLinkPort::new(true)));
    serial.write(0xFF01, 0x5A);
    serial.write(0xFF02, 0x81);
    let mut if_reg = 0;
    serial.step(0, 4096, false, &mut if_reg);
    assert_eq!(serial.read(0xFF01), 0x5A);
    assert_eq!(serial.take_output(), vec![0x5A]);
    assert_eq!(serial.read(0xFF02) & 0x81, 0x01);
}
