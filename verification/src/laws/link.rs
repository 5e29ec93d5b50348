//! The link protocol: the bytes on the wire, and what they do on both sides.

use crate::network_link::handshake::{Handshake, HandshakeAction, HandshakeStage, Role};
use crate::network_link::packet::{
    control_dots, control_value, disconnect_packet, sanitized_control, status_packet, sync1_packet,
    sync2_packet, version_packet, BgbPacket,
};
use crate::network_link::session::{
    master_due, master_packet, pause_packet, BatchEffect, LinkSessionView,
};
use crate::network_link::state::{
    after, answer_packet, front, packet_bytes, reply_without_state, retry_packet, timestamp_packet,
    ExternalClockPending, LinkEvent, LinkStateView, PacketEffect, SlaveReadyState,
};
use crate::serial::SerialTransferClock;
use vstd::prelude::*;

verus! {

/// The wire of a packet whose timestamp is the given four digits in base 256,
/// least significant first: its four bytes, then these digits. Read back, the
/// wire is the packet.
pub proof fn law_packet_on_the_wire(p: BgbPacket, t0: u8, t1: u8, t2: u8, t3: u8)
    requires
        p.i1 == t0 + 0x100 * t1 + 0x1_0000 * t2 + 0x100_0000 * t3,
    ensures
        p.bytes() == seq![p.b1, p.b2, p.b3, p.b4, t0, t1, t2, t3],
        BgbPacket::of_bytes(seq![p.b1, p.b2, p.b3, p.b4, t0, t1, t2, t3]) == p,
{
    let value = p.i1 as int;
    let upper = t1 + 0x100 * t2 + 0x1_0000 * t3;
    assert(value == 0x100 * upper + t0);
    assert(value / 0x100 == upper && value % 0x100 == t0);
    let upper2 = t2 + 0x100 * t3;
    assert(upper == 0x100 * upper2 + t1);
    assert(value / 0x1_0000 == upper2);
    assert(value / 0x100_0000 == t3);
    assert(p.bytes() =~= seq![p.b1, p.b2, p.b3, p.b4, t0, t1, t2, t3]);
    let wire = seq![p.b1, p.b2, p.b3, p.b4, t0, t1, t2, t3];
    assert(wire.subrange(4, 8) =~= seq![t0, t1, t2, t3]);
}

/// The packets that answer others: SYNC2 carries the byte, SYNC3 refuses or tells
/// the time in 31 bits, STATUS says that we run, whether we are paused, and that
/// we can reconnect.
pub proof fn law_answers_on_the_wire(data: u8, timestamp: u32, paused: bool)
    ensures
        answer_packet(data).bytes() == seq![105u8, data, 0x80, 1, 0, 0, 0, 0],
        retry_packet().bytes() == seq![106u8, 1, 0, 0, 0, 0, 0, 0],
        timestamp_packet(timestamp).b1 == 106,
        timestamp_packet(timestamp).b2 == 0,
        timestamp_packet(timestamp).i1 == timestamp % 0x8000_0000,
        pause_packet(paused).bytes() == seq![
            108u8,
            if paused {
                7
            } else {
                5
            },
            0,
            0,
            0,
            0,
            0,
            0,
        ],
{
    law_packet_on_the_wire(answer_packet(data), 0, 0, 0, 0);
    law_packet_on_the_wire(retry_packet(), 0, 0, 0, 0);
    law_packet_on_the_wire(pause_packet(paused), 0, 0, 0, 0);
}

/// The control byte of a SYNC1: 0x81, plus 2 for the fast clock, plus 4 for double
/// speed.
pub open spec fn rate_byte(clock: SerialTransferClock) -> int {
    0x81 + (if clock.high_speed {
        2int
    } else {
        0int
    }) + (if clock.double_speed {
        4int
    } else {
        0int
    })
}

/// Dots between two bits at the rate of a control byte: 512, or 16 for the fast
/// clock, and half of that at double speed.
pub open spec fn rate_dots(control: u8) -> int {
    (if control / 2 % 2 == 1 {
        16int
    } else {
        512int
    }) / (if control / 4 % 2 == 1 {
        2int
    } else {
        1int
    })
}

/// The packets as they are built: which byte says what.
pub proof fn law_packets(
    data: u8,
    control: u8,
    timestamp: u32,
    running: bool,
    paused: bool,
    reconnect: bool,
)
    ensures
        version_packet() == (BgbPacket { b1: 1, b2: 1, b3: 4, b4: 0, i1: 0 }),
        disconnect_packet() == (BgbPacket { b1: 109, b2: 0, b3: 0, b4: 0, i1: 0 }),
        sync1_packet(data, control, timestamp).b1 == 104,
        sync1_packet(data, control, timestamp).b2 == data,
        sync1_packet(data, control, timestamp).b3 == 0x81 + 2 * (control as int / 2 % 2) + 4 * (
        control as int / 4 % 2),
        sync1_packet(data, control, timestamp).b4 == 0,
        sync1_packet(data, control, timestamp).i1 == timestamp,
        sync2_packet(data, true) == (BgbPacket { b1: 105, b2: data, b3: 0x80, b4: 1, i1: 0 }),
        sync2_packet(data, false) == (BgbPacket { b1: 105, b2: data, b3: 0x80, b4: 0, i1: 0 }),
        ({
            let status = status_packet(running, paused, reconnect);
            &&& status.b1 == 108
            &&& (status.b2 % 2 == 1) == running
            &&& (status.b2 / 2 % 2 == 1) == paused
            &&& (status.b2 / 4 % 2 == 1) == reconnect
            &&& status.b2 < 8
            &&& status.b3 == 0 && status.b4 == 0 && status.i1 == 0
        }),
{
    assert(0x81u8 | (control & 0x06) == 0x81 + 2 * (control / 2 % 2) + 4 * (control / 4 % 2))
        by (bit_vector);
    assert(sanitized_control(control) == 0x81u8 | (control & 0x06));
}

/// Before there is any state, a timestamp is sent back in 31 bits, and no other packet
/// is answered.
pub proof fn law_reply_without_state(packet: BgbPacket)
    ensures
        packet.b1 == 106 && packet.b2 != 1 ==> reply_without_state(packet) == Some(
            BgbPacket { b1: 106, b2: 0, b3: 0, b4: 0, i1: (packet.i1 % 0x8000_0000) as u32 },
        ),
        packet.b1 != 106 || packet.b2 == 1 ==> packet_bytes(reply_without_state(packet)).len() == 0,
{
}

/// The rate bits of a control byte.
pub proof fn law_rates(control: u8, clock: SerialTransferClock)
    ensures
        control_dots(control) == rate_dots(control),
        control_value(clock.high_speed, clock.double_speed) == rate_byte(clock),
{
    crate::bits::lemma_bits_of(control);
}

/// The byte, if it can be had from the four.
pub(crate) proof fn lemma_kept_rate(control: u8)
    requires
        control == 0x81 || control == 0x83 || control == 0x85 || control == 0x87,
    ensures
        0x81u8 | (control & 0x06) == control,
{
    assert((control == 0x81 || control == 0x83 || control == 0x85 || control == 0x87) ==> 0x81u8 | (
    control & 0x06) == control) by (bit_vector);
}

/// A connected master that is asked to send a byte, and has nothing under way,
/// queues exactly one packet when it looks next: a SYNC1 with that byte, with the
/// rate that was asked for and with the lower 31 bits of the time. Then it waits.
pub proof fn law_master_sends_its_byte(
    master: LinkStateView,
    session: LinkSessionView,
    byte: u8,
    clock: SerialTransferClock,
    timestamp: u32,
    now: u64,
)
    requires
        master.connected,
        master.master_response is None,
        !master.master_waiting,
        session.retry is None,
    ensures
        ({
            let asked = master.master_tried(byte, clock);
            let packet = master_packet(asked, timestamp);
            &&& master.master_answer() is None
            &&& master_due(asked, session.retry, now)
            &&& packet == (BgbPacket {
                b1: 104,
                b2: byte,
                b3: rate_byte(clock) as u8,
                b4: 0,
                i1: (timestamp % 0x8000_0000) as u32,
            })
            &&& session.sending(packet).to_send == session.to_send + packet.bytes()
            &&& session.sending(packet).received == session.received
            &&& session.sending(packet).streaming == session.streaming
        }),
{
    lemma_kept_rate(rate_byte(clock) as u8);
}

/// A byte goes from a master to a slave and one comes back. The master, connected
/// and with nothing under way, is asked to send `x`; what it then sends reaches a
/// slave that is ready with `y` and idle; what the slave answers reaches the
/// master. Then the slave's transfer reads `x`, at the pace that the master asked
/// for, and the master's reads `y`; and both have nothing more under way.
pub proof fn law_bytes_cross_the_link(
    master: LinkStateView,
    slave: LinkStateView,
    x: u8,
    y: u8,
    clock: SerialTransferClock,
    timestamp: u32,
    idle: ExternalClockPending,
    retry: Option<u64>,
    now: u64,
)
    requires
        master.connected,
        master.master_response is None,
        !master.master_waiting,
        slave.slave_queue.len() == 0,
        !slave.slave_complete,
        !slave.master_waiting,
        !idle.pending,
    ensures
        ({
            let asked = master.master_tried(x, clock);
            let waiting = LinkStateView { master_waiting: true, ..asked };
            let sync1 = BgbPacket::of_bytes(master_packet(asked, timestamp).bytes());
            let at_slave = PacketEffect::of(sync1, slave, idle, Some(y), retry, now);
            let sync2 = BgbPacket::of_bytes(at_slave.reply->0.bytes());
            let at_master = PacketEffect::of(sync2, waiting, idle, None, retry, now);
            &&& at_slave.reply is Some
            &&& at_slave.state.slave_queue == seq![x]
            &&& at_slave.state.slave_incoming == Some(x)
            &&& at_slave.state.slave_outgoing == Some(y)
            &&& at_slave.state.slave_complete
            &&& at_slave.clock.pending
            &&& at_slave.clock.dot_cycles_per_bit == rate_dots(rate_byte(clock) as u8)
            &&& at_slave.event == Some(LinkEvent::SlaveTransferReady)
            &&& at_slave.state.slave_popped().slave_queue.len() == 0
            &&& !at_slave.state.slave_popped().slave_complete
            &&& at_master.reply is None
            &&& at_master.state.master_answer() == Some(y)
            &&& at_master.state.master_outgoing is None
            &&& !at_master.state.master_waiting
            &&& at_master.retry is None
        }),
{
    let asked = master.master_tried(x, clock);
    law_master_sends_its_byte(
        master,
        LinkSessionView {
            listening: false,
            streaming: true,
            pending_connect: None,
            received: Seq::empty(),
            to_send: Seq::empty(),
            retry: None,
        },
        x,
        clock,
        timestamp,
        now,
    );
    let sync1 = master_packet(asked, timestamp);
    crate::network_link::packet::law_packet_roundtrip(sync1);
    law_rates(sync1.b3, clock);
    let at_slave = PacketEffect::of(sync1, slave, idle, Some(y), retry, now);
    crate::network_link::packet::law_packet_roundtrip(at_slave.reply->0);
}

/// A SYNC1 that meets one of our own on its way is the answer to it, and is
/// answered with the byte that we are sending.
pub proof fn law_crossing_masters(
    state: LinkStateView,
    x: u8,
    y: u8,
    packet: BgbPacket,
    clock: ExternalClockPending,
    ready: Option<u8>,
    retry: Option<u64>,
    now: u64,
)
    requires
        packet.b1 == 104,
        packet.b2 == y,
        state.master_waiting,
        state.master_outgoing == Some(x),
    ensures
        ({
            let effect = PacketEffect::of(packet, state, clock, ready, retry, now);
            &&& effect.reply matches Some(reply) && reply.bytes() == seq![
                105u8,
                x,
                0x80,
                1,
                0,
                0,
                0,
                0,
            ]
            &&& effect.state.master_answer() == Some(y)
            &&& effect.state.master_outgoing is None
            &&& !effect.state.master_waiting
            &&& effect.state.slave_queue == state.slave_queue
            &&& effect.clock == clock
            &&& effect.event is None
            &&& effect.retry is None
        }),
{
    law_answers_on_the_wire(x, 0, false);
}

/// A SYNC1 that reaches a slave that is ready with `y` and has nothing under way is
/// answered with `y`; its byte waits to be read, and the emulation is to clock it at
/// the pace of the packet's control byte. Nothing of a transfer of our own changes.
pub proof fn law_ready_slave_answers(
    state: LinkStateView,
    packet: BgbPacket,
    y: u8,
    clock: ExternalClockPending,
    retry: Option<u64>,
    now: u64,
)
    requires
        packet.b1 == 104,
        !state.master_waiting,
        !clock.pending,
        !state.slave_complete,
        state.slave_queue.len() == 0,
    ensures
        ({
            let effect = PacketEffect::of(packet, state, clock, Some(y), retry, now);
            &&& effect.reply matches Some(reply) && reply.bytes() == seq![
                105u8,
                y,
                0x80,
                1,
                0,
                0,
                0,
                0,
            ]
            &&& effect.event == Some(LinkEvent::SlaveTransferReady)
            &&& effect.clock.pending
            &&& effect.clock.dot_cycles_per_bit == rate_dots(packet.b3)
            &&& effect.retry == retry
            &&& effect.state == (LinkStateView {
                slave_queue: seq![packet.b2],
                slave_incoming: Some(packet.b2),
                slave_complete: true,
                slave_outgoing: Some(y),
                ..state
            })
            &&& effect.state.slave_answer() == Some(packet.b2)
        }),
{
    law_answers_on_the_wire(y, 0, false);
    law_rates(packet.b3, SerialTransferClock { high_speed: false, double_speed: false });
}

/// A master that waits without a byte of its own answers a SYNC1 with 0xFF; and
/// without a byte a refusal sets no moment to try again.
pub proof fn law_nothing_to_send(
    state: LinkStateView,
    packet: BgbPacket,
    clock: ExternalClockPending,
    ready: Option<u8>,
    retry: Option<u64>,
    now: u64,
)
    requires
        state.master_outgoing is None,
    ensures
        packet.b1 == 104 && state.master_waiting ==> {
            let effect = PacketEffect::of(packet, state, clock, ready, retry, now);
            effect.reply matches Some(reply) && reply.bytes() == seq![
                105u8,
                0xFF,
                0x80,
                1,
                0,
                0,
                0,
                0,
            ]
        },
        packet.b1 == 106 && packet.b2 == 1 ==> {
            let effect = PacketEffect::of(packet, state, clock, ready, retry, now);
            &&& effect.retry == retry
            &&& effect.state == (LinkStateView { master_waiting: false, ..state })
            &&& effect.reply is None
        },
{
    law_answers_on_the_wire(0xFF, 0, false);
}

/// A slave that is not ready, or has a transfer under way, refuses a SYNC1 and
/// stays as it is.
pub proof fn law_busy_slave_refuses(
    state: LinkStateView,
    packet: BgbPacket,
    clock: ExternalClockPending,
    ready: Option<u8>,
    retry: Option<u64>,
    now: u64,
)
    requires
        packet.b1 == 104,
        !state.master_waiting,
        ready is None || clock.pending || state.slave_complete || state.slave_queue.len() > 0,
    ensures
        ({
            let effect = PacketEffect::of(packet, state, clock, ready, retry, now);
            &&& effect.reply matches Some(reply) && reply.bytes() == seq![
                106u8,
                1,
                0,
                0,
                0,
                0,
                0,
                0,
            ]
            &&& effect.state == state
            &&& effect.clock == clock
            &&& effect.retry == retry
            &&& effect.event is None
        }),
{
    law_answers_on_the_wire(0, 0, false);
}

/// A refused master keeps its byte and sends it again 16 ms later, not earlier;
/// the SYNC1 then carries the same byte.
pub proof fn law_refused_master_sends_again(
    state: LinkStateView,
    packet: BgbPacket,
    clock: ExternalClockPending,
    ready: Option<u8>,
    retry: Option<u64>,
    now: u64,
    later: u64,
    timestamp: u32,
)
    requires
        packet.b1 == 106,
        packet.b2 == 1,
        state.master_outgoing is Some,
        now + 16_000_000 <= u64::MAX,
    ensures
        ({
            let effect = PacketEffect::of(packet, state, clock, ready, retry, now);
            &&& master_due(effect.state, effect.retry, later) == (later >= now + 16_000_000)
            &&& master_packet(effect.state, timestamp).b1 == 104
            &&& Some(master_packet(effect.state, timestamp).b2) == state.master_outgoing
            &&& effect.state == (LinkStateView { master_waiting: false, ..state })
            &&& effect.reply is None
            &&& effect.event is None
            &&& effect.clock == clock
        }),
{
}

/// A SYNC2 is the answer to the SYNC1 that is on its way, and is nothing without
/// one.
pub proof fn law_sync2_answers(
    state: LinkStateView,
    packet: BgbPacket,
    clock: ExternalClockPending,
    ready: Option<u8>,
    retry: Option<u64>,
    now: u64,
)
    requires
        packet.b1 == 105,
    ensures
        ({
            let effect = PacketEffect::of(packet, state, clock, ready, retry, now);
            &&& effect.reply is None
            &&& effect.event is None
            &&& effect.clock == clock
            &&& state.master_waiting ==> effect.state == (LinkStateView {
                master_waiting: false,
                master_outgoing: None,
                master_response: Some(packet.b2),
                ..state
            }) && effect.retry is None
            &&& !state.master_waiting ==> effect.state == state && effect.retry == retry
        }),
{
}

/// A STATUS tells whether the peer is paused, in bit 1, and whether it can
/// reconnect, in bit 2. Both are kept; a change of the pause is reported. Nothing
/// else changes.
pub proof fn law_status_is_kept(
    state: LinkStateView,
    packet: BgbPacket,
    clock: ExternalClockPending,
    ready: Option<u8>,
    retry: Option<u64>,
    now: u64,
)
    requires
        packet.b1 == 108,
    ensures
        ({
            let effect = PacketEffect::of(packet, state, clock, ready, retry, now);
            let paused = packet.b2 / 2 % 2 == 1;
            &&& effect.state == (LinkStateView {
                remote_paused: paused,
                remote_supports_reconnect: packet.b2 / 4 % 2 == 1,
                ..state
            })
            &&& effect.event is None == (paused == state.remote_paused)
            &&& paused && !state.remote_paused ==> effect.event == Some(LinkEvent::RemotePaused)
            &&& !paused && state.remote_paused ==> effect.event == Some(LinkEvent::RemoteResumed)
            &&& effect.reply is None
            &&& effect.clock == clock
            &&& effect.retry == retry
        }),
{
    lemma_status_bits(packet.b2);
}

proof fn lemma_status_bits(flags: u8)
    ensures
        (flags & 0x02 != 0) == (flags / 2 % 2 == 1),
        (flags & 0x04 != 0) == (flags / 4 % 2 == 1),
{
    crate::bits::lemma_bits_of(flags);
}

/// A timestamp is sent back, in 31 bits, unless it came before; it is remembered.
/// Nothing else changes.
pub proof fn law_time_is_echoed(
    state: LinkStateView,
    packet: BgbPacket,
    clock: ExternalClockPending,
    ready: Option<u8>,
    retry: Option<u64>,
    now: u64,
)
    requires
        packet.b1 == 106,
        packet.b2 != 1,
    ensures
        ({
            let effect = PacketEffect::of(packet, state, clock, ready, retry, now);
            &&& effect.state == (LinkStateView {
                last_remote_sync3_timestamp: Some(packet.i1),
                ..state
            })
            &&& effect.reply is None == (state.last_remote_sync3_timestamp == Some(packet.i1))
            &&& effect.reply matches Some(reply) ==> reply == (BgbPacket {
                b1: 106,
                b2: 0,
                b3: 0,
                b4: 0,
                i1: (packet.i1 % 0x8000_0000) as u32,
            })
            &&& effect.event is None
            &&& effect.clock == clock
            &&& effect.retry == retry
        }),
{
}

/// Packets of no other kind do anything.
pub proof fn law_other_packets_are_ignored(
    state: LinkStateView,
    packet: BgbPacket,
    clock: ExternalClockPending,
    ready: Option<u8>,
    retry: Option<u64>,
    now: u64,
)
    requires
        packet.b1 != 104,
        packet.b1 != 105,
        packet.b1 != 106,
        packet.b1 != 108,
    ensures
        ({
            let effect = PacketEffect::of(packet, state, clock, ready, retry, now);
            &&& effect.state == state
            &&& effect.clock == clock
            &&& effect.retry == retry
            &&& effect.reply is None
            &&& effect.event is None
        }),
{
}

/// A number of packets does what they do one after the other: the last one finds
/// what those before it left, and what it sends and reports comes last.
pub proof fn law_packets_act_in_order(
    packets: Seq<BgbPacket>,
    last: BgbPacket,
    state: LinkStateView,
    clock: ExternalClockPending,
    ready: Option<u8>,
    retry: Option<u64>,
    now: u64,
)
    ensures
        ({
            let before = BatchEffect::of(packets, state, clock, ready, retry, now);
            let all = BatchEffect::of(packets.push(last), state, clock, ready, retry, now);
            let effect = PacketEffect::of(
                last,
                before.state,
                before.clock,
                ready,
                before.retry,
                now,
            );
            let none = BatchEffect::of(Seq::empty(), state, clock, ready, retry, now);
            &&& all.state == effect.state
            &&& all.clock == effect.clock
            &&& all.retry == effect.retry
            &&& effect.reply matches Some(reply) ==> all.sent == before.sent + reply.bytes()
            &&& effect.reply is None ==> all.sent == before.sent
            &&& effect.event matches Some(event) ==> all.events == before.events.push(event)
            &&& effect.event is None ==> all.events == before.events
            &&& none.state == state
            &&& none.clock == clock
            &&& none.retry == retry
            &&& none.sent.len() == 0
            &&& none.events.len() == 0
        }),
{
    assert(packets.push(last).drop_last() =~= packets);
    let before = BatchEffect::of(packets, state, clock, ready, retry, now);
    assert(before.sent + Seq::<u8>::empty() =~= before.sent);
}

/// What a blocking master transfer finds: the peer's byte if it has come, 0xFF
/// without a connection, else nothing yet. With an answer nothing stays under way;
/// without one the newest byte is to be sent, unless one is on its way already.
pub proof fn law_master_transfer(
    state: LinkStateView,
    byte: u8,
    clock: SerialTransferClock,
    response: u8,
)
    ensures
        state.master_response == Some(response) ==> state.master_answer() == Some(response),
        state.master_response is None && !state.connected ==> state.master_answer() == Some(0xFFu8),
        state.master_response is None && state.connected ==> state.master_answer() is None,
        state.master_answer() is Some ==> state.master_tried(byte, clock) == (LinkStateView {
            master_response: None,
            master_waiting: false,
            master_outgoing: None,
            ..state
        }),
        state.master_answer() is None && state.master_waiting ==> state.master_tried(byte, clock)
            == state,
        state.master_answer() is None && !state.master_waiting ==> state.master_tried(byte, clock)
            == (LinkStateView {
            master_outgoing: Some(byte),
            master_control: rate_byte(clock) as u8,
            ..state
        }),
        state.master_abandoned() == (LinkStateView {
            master_response: None,
            master_waiting: false,
            master_outgoing: None,
            ..state
        }),
{
}

/// The peer's bytes are taken oldest first, and only once. With the last one taken
/// the slave has nothing under way.
pub proof fn law_slave_takes_bytes_once(state: LinkStateView, byte: u8, rest: Seq<u8>)
    requires
        state.slave_queue == seq![byte] + rest,
    ensures
        front(state.slave_queue) == Some(byte),
        state.slave_popped().slave_queue == rest,
        state.slave_popped().slave_complete == (rest.len() > 0),
        state.slave_popped().slave_incoming == front(rest),
        rest.len() == 0 ==> state.slave_popped().slave_outgoing is None,
        front(Seq::<u8>::empty()) is None,
        state.slave_popped().connected == state.connected,
        state.slave_popped().master_outgoing == state.master_outgoing,
        state.slave_popped().master_response == state.master_response,
        state.slave_popped().master_waiting == state.master_waiting,
{
    assert(state.slave_queue.drop_first() =~= rest);
}

/// Nothing of a connection outlives it: no byte of either side, no flag of the
/// peer, no pause, no clock.
pub proof fn law_disconnect_leaves_nothing()
    ensures
        ({
            let state = LinkStateView::initial();
            &&& !state.connected
            &&& !state.remote_paused
            &&& !state.remote_supports_reconnect
            &&& state.master_outgoing is None
            &&& state.master_response is None
            &&& !state.master_waiting
            &&& state.slave_incoming is None
            &&& state.slave_outgoing is None
            &&& !state.slave_complete
            &&& state.slave_queue.len() == 0
            &&& state.last_remote_sync3_timestamp is None
        }),
        !ExternalClockPending::idle().pending,
        ExternalClockPending::idle().dot_cycles_per_bit == 512,
{
}

/// The byte with which a slave is ready is the one that it was made ready with.
pub proof fn law_ready_byte(byte: u8)
    ensures
        SlaveReadyState(byte as u32).ready_byte() == Some(byte),
        SlaveReadyState(u32::MAX).ready_byte() is None,
{
}

/// A transfer is not due while there is nothing to send, while it is on its way,
/// or before its retry moment; else it is.
pub proof fn law_master_is_due(state: LinkStateView, retry: Option<u64>, now: u64, next: u64)
    ensures
        state.master_outgoing is None ==> !master_due(state, retry, now),
        state.master_waiting ==> !master_due(state, retry, now),
        retry == Some(next) && now < next ==> !master_due(state, retry, now),
        state.master_outgoing is Some && !state.master_waiting && retry is None ==> master_due(
            state,
            retry,
            now,
        ),
        state.master_outgoing is Some && !state.master_waiting && retry == Some(next) && now >= next
            ==> master_due(state, retry, now),
{
}

/// A moment and an interval add up, as far as time goes.
pub proof fn law_moments_add(now: u64, interval: u64)
    ensures
        now + interval <= u64::MAX ==> after(now, interval) == now + interval,
        now + interval > u64::MAX ==> after(now, interval) == u64::MAX,
{
}

/// A lost connection leaves nothing to send and nothing received.
pub proof fn law_dropped_session(session: LinkSessionView)
    ensures
        session.dropped().to_send.len() == 0,
        session.dropped().received.len() == 0,
        !session.dropped().streaming,
        session.dropped().listening == session.listening,
        session.dropped().pending_connect == session.pending_connect,
{
}

/// A handshake on the wire, of a client: it sends its version, reads that of the
/// peer and the peer's STATUS, and sends that it runs. It fails at the first packet
/// that is not what it waits for; else it ends with what the STATUS said.
pub proof fn law_client_handshake(version: BgbPacket, status: BgbPacket)
    ensures
        ({
            let start = Handshake::begun(Role::Client);
            let sent = start.after_sending(true);
            let read = sent.after_reading(Some(version));
            let told = read.after_reading(Some(status));
            let end = told.after_sending(true);
            let right = version.b1 == 1 && version.b2 == 1 && version.b3 == 4 && version.b4 == 0;
            &&& start.action_spec() matches HandshakeAction::Send(p) && p.bytes() == seq![
                1u8,
                1,
                4,
                0,
                0,
                0,
                0,
                0,
            ]
            &&& sent.action_spec() == HandshakeAction::Receive
            &&& !right ==> read.action_spec() == HandshakeAction::Failed
            &&& right ==> read.action_spec() == HandshakeAction::Receive
            &&& right && status.b1 != 108 ==> told.action_spec() == HandshakeAction::Failed
            &&& right && status.b1 == 108 ==> {
                &&& told.action_spec() matches HandshakeAction::Send(p) && p.bytes() == seq![
                    108u8,
                    5,
                    0,
                    0,
                    0,
                    0,
                    0,
                    0,
                ]
                &&& end.action_spec() == (HandshakeAction::Done {
                    remote_paused: status.b2 / 2 % 2 == 1,
                    remote_support_reconnect: status.b2 / 4 % 2 == 1,
                })
            }
        }),
{
    lemma_status_bits(status.b2);
    law_packet_on_the_wire(BgbPacket { b1: 1, b2: 1, b3: 4, b4: 0, i1: 0 }, 0, 0, 0, 0);
    law_packet_on_the_wire(BgbPacket { b1: 108, b2: 5, b3: 0, b4: 0, i1: 0 }, 0, 0, 0, 0);
}

/// A handshake on the wire, of a server: it reads the version of the peer, sends
/// its own, then that it is paused, then that it runs, and reads the peer's STATUS.
pub proof fn law_server_handshake(version: BgbPacket, status: BgbPacket)
    ensures
        ({
            let start = Handshake::begun(Role::Server);
            let read = start.after_reading(Some(version));
            let sent = read.after_sending(true);
            let paused = sent.after_sending(true);
            let running = paused.after_sending(true);
            let end = running.after_reading(Some(status));
            let right = version.b1 == 1 && version.b2 == 1 && version.b3 == 4 && version.b4 == 0;
            &&& start.action_spec() == HandshakeAction::Receive
            &&& !right ==> read.action_spec() == HandshakeAction::Failed
            &&& right ==> {
                &&& read.action_spec() matches HandshakeAction::Send(p) && p.bytes() == seq![
                    1u8,
                    1,
                    4,
                    0,
                    0,
                    0,
                    0,
                    0,
                ]
                &&& sent.action_spec() matches HandshakeAction::Send(p) && p.bytes() == seq![
                    108u8,
                    7,
                    0,
                    0,
                    0,
                    0,
                    0,
                    0,
                ]
                &&& paused.action_spec() matches HandshakeAction::Send(p) && p.bytes() == seq![
                    108u8,
                    5,
                    0,
                    0,
                    0,
                    0,
                    0,
                    0,
                ]
                &&& running.action_spec() == HandshakeAction::Receive
                &&& status.b1 != 108 ==> end.action_spec() == HandshakeAction::Failed
                &&& status.b1 == 108 ==> end.action_spec() == (HandshakeAction::Done {
                    remote_paused: status.b2 / 2 % 2 == 1,
                    remote_support_reconnect: status.b2 / 4 % 2 == 1,
                })
            }
        }),
{
    lemma_status_bits(status.b2);
    law_packet_on_the_wire(BgbPacket { b1: 1, b2: 1, b3: 4, b4: 0, i1: 0 }, 0, 0, 0, 0);
    law_packet_on_the_wire(BgbPacket { b1: 108, b2: 7, b3: 0, b4: 0, i1: 0 }, 0, 0, 0, 0);
    law_packet_on_the_wire(BgbPacket { b1: 108, b2: 5, b3: 0, b4: 0, i1: 0 }, 0, 0, 0, 0);
}

/// A handshake in which a packet cannot be sent or read fails.
pub proof fn law_broken_handshake_fails(h: Handshake)
    requires
        !(h.stage is Done),
    ensures
        h.action_spec() matches HandshakeAction::Send(_) ==> h.after_sending(false).action_spec()
            == HandshakeAction::Failed,
        h.action_spec() == HandshakeAction::Receive ==> h.after_reading(None).action_spec()
            == HandshakeAction::Failed,
        h.stage == HandshakeStage::Failed ==> h.action_spec() == HandshakeAction::Failed,
{
}

} // verus!
