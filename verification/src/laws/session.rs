//! Connections: how they are opened, what goes over them, and how they end.

use crate::laws::link::rate_byte;
use crate::network_link::packet::BgbPacket;
use crate::network_link::session::{
    chunk_of, flushed, master_due, packets_in, read_after, rest_of, BatchEffect, CommandAction,
    ConnectStep, FlushStep, LinkSessionView, PendingConnect, ReadOutcome, ReadState, WriteOutcome,
};
use crate::network_link::state::{
    ExternalClockPending, LinkCommand, LinkEvent, LinkStateView, TransferStep,
};
use crate::serial::SerialTransferClock;
use vstd::prelude::*;

verus! {

/// Connecting goes on for twelve seconds, of which the first moment has an attempt.
/// After an attempt that failed, the next one is due 300 ms later. After the twelve
/// seconds, and not before, it is given up; at once where the host has no address.
pub proof fn law_connecting(
    host: String,
    port: u16,
    start: u64,
    now: u64,
    error: String,
    failed_at: u64,
    step: ConnectStep,
    next: PendingConnect,
)
    requires
        start + 12_000_000_000 <= u64::MAX,
        failed_at + 300_000_000 <= u64::MAX,
    ensures
        ({
            let asked = PendingConnect::asked(host, port, start);
            &&& asked.host == host && asked.port == port
            &&& asked.attempts == 0 && asked.last_error is None
            &&& asked.polled(now, step, next) ==> {
                &&& step is GiveUp <==> now >= start + 12_000_000_000
                &&& step is Attempt <==> start <= now < start + 12_000_000_000
            }
        }),
        ({
            let again = PendingConnect::asked(host, port, start).failed(error, failed_at);
            &&& again.last_error == Some(error)
            &&& again.host == host && again.port == port && again.attempts == 0
            &&& again.polled(now, step, next) ==> {
                &&& step is GiveUp <==> now >= start + 12_000_000_000
                &&& step is Attempt <==> failed_at + 300_000_000 <= now < start + 12_000_000_000
            }
        }),
        ({
            let lost = PendingConnect::asked(host, port, start).without_host(error, failed_at);
            &&& lost.last_error == Some(error)
            &&& lost.host == host && lost.port == port && lost.attempts == 0
            &&& lost.polled(now, step, next) && now >= failed_at ==> step is GiveUp
        }),
{
}

/// Attempts are counted, and nothing else about a pending connection changes when
/// it is looked at. The failure that is reported speaks of its endpoint, of the
/// attempts and of the last error.
pub proof fn law_attempts_are_counted(
    connect: PendingConnect,
    now: u64,
    step: ConnectStep,
    next: PendingConnect,
)
    requires
        connect.polled(now, step, next),
    ensures
        next.host == connect.host,
        next.port == connect.port,
        next.next_attempt_at == connect.next_attempt_at,
        next.deadline == connect.deadline,
        next.last_error == connect.last_error,
        step is Attempt && connect.attempts < u32::MAX ==> next.attempts == connect.attempts + 1,
        !(step is Attempt) ==> next.attempts == connect.attempts,
        step matches ConnectStep::GiveUp(event) ==> {
            &&& event matches LinkEvent::Error(text) && exists|endpoint: Seq<char>, detail: Seq<char>|
                {
                    &&& endpoint == connect.host@ + ":"@ + crate::text::decimal(connect.port as nat)
                    &&& connect.last_error matches Some(e) ==> detail == e@
                    &&& connect.last_error is None ==> detail == "timed out while waiting for peer"@
                    &&& text@ == #[trigger] ("Connection to "@ + endpoint) + " failed after "@
                        + crate::text::decimal(
                        if connect.attempts > 0 {
                            connect.attempts as nat
                        } else {
                            1
                        },
                    ) + #[trigger] (" attempt(s): "@ + detail)
                }
        },
{
    if let ConnectStep::GiveUp(LinkEvent::Error(text)) = step {
        let endpoint = connect.host@ + ":"@ + crate::text::decimal(connect.port as nat);
        let detail = match connect.last_error {
            Some(e) => e@,
            None => "timed out while waiting for peer"@,
        };
        let head = ("Connection to "@ + endpoint) + " failed after "@ + crate::text::decimal(
            if connect.attempts > 0 {
                connect.attempts as nat
            } else {
                1
            },
        );
        assert(head + " attempt(s): "@ + detail =~= head + (" attempt(s): "@ + detail));
    }
}

/// A look at a session's pending connection is a look at the connection. What is
/// given up is forgotten, and what is not stays.
pub proof fn law_session_connects(
    session: LinkSessionView,
    now: u64,
    step: ConnectStep,
    next: LinkSessionView,
)
    requires
        session.polled(now, step, next),
    ensures
        session.pending_connect is None ==> step is Wait && next == session,
        session.pending_connect matches Some(connect) ==> {
            &&& step is GiveUp <==> now >= connect.deadline
            &&& step is Attempt <==> connect.next_attempt_at <= now < connect.deadline
            &&& step is GiveUp <==> next.pending_connect is None
            &&& step is Wait ==> next == session
            &&& step is Attempt && connect.attempts < u32::MAX ==> next.pending_connect == Some(
                PendingConnect { attempts: (connect.attempts + 1) as u32, ..connect },
            )
        },
        next == (LinkSessionView { pending_connect: next.pending_connect, ..session }),
{
    if let Some(connect) = session.pending_connect {
        let looked = choose|looked: PendingConnect| #[trigger]
            connect.polled(now, step, looked) && next == (LinkSessionView {
                pending_connect: if step is GiveUp {
                    None
                } else {
                    Some(looked)
                },
                ..session
            });
        assert(connect.polled(now, step, looked));
    }
}

/// Up to 512 bytes are written at once, from the front of the queue. What a write
/// took leaves the queue, from the front, and nothing else does. A write that takes
/// nothing means that the connection is closed.
pub proof fn law_sending(queue: Seq<u8>, n: usize)
    requires
        n <= queue.len(),
    ensures
        chunk_of(queue).len() <= 512,
        chunk_of(queue).len() == 512 || chunk_of(queue) == queue,
        chunk_of(queue) == queue.take(chunk_of(queue).len() as int),
        queue == queue.take(n as int) + flushed(queue, WriteOutcome::Wrote(n)).1,
        n > 0 ==> flushed(queue, WriteOutcome::Wrote(n)).0 == FlushStep::Again,
        n == 0 ==> flushed(queue, WriteOutcome::Wrote(n)).0 == FlushStep::Closed,
        flushed(queue, WriteOutcome::WouldBlock) == (FlushStep::Later, queue),
        flushed(queue, WriteOutcome::Interrupted) == (FlushStep::Again, queue),
        flushed(queue, WriteOutcome::Failed) == (FlushStep::Failed, queue),
{
    assert(chunk_of(queue) =~= queue.take(chunk_of(queue).len() as int));
    assert(queue.len() <= 512 ==> chunk_of(queue) =~= queue);
    assert(queue =~= queue.take(n as int) + queue.skip(n as int));
}

/// What is read is kept behind what came before. A full buffer of 1024 bytes may be
/// followed by more; no byte at all means that the peer has gone.
pub proof fn law_receiving(received: Seq<u8>, data: Vec<u8>)
    ensures
        read_after(received, ReadOutcome::Data(data)).1 == received + data@,
        data@.len() == 0 ==> read_after(received, ReadOutcome::Data(data)).0
            == ReadState::Disconnected,
        0 < data@.len() < 1024 ==> read_after(received, ReadOutcome::Data(data)).0
            == ReadState::Alive,
        data@.len() >= 1024 ==> read_after(received, ReadOutcome::Data(data)).0 == ReadState::Again,
        read_after(received, ReadOutcome::WouldBlock) == (ReadState::Alive, received),
        read_after(received, ReadOutcome::Interrupted) == (ReadState::Again, received),
        read_after(received, ReadOutcome::Failed) == (ReadState::Failed, received),
{
}

/// Every eight bytes of the wire are a packet, and up to seven stay for the next.
/// The first four bytes of the packet are those of the wire, and its timestamp is
/// the other four, the least significant first.
pub proof fn law_packets_are_eight_bytes(wire: Seq<u8>, i: int)
    requires
        0 <= 8 * i,
        8 * i + 8 <= wire.len(),
    ensures
        rest_of(wire).len() < 8,
        wire.len() == 8 * packets_in(wire).len() + rest_of(wire).len(),
        rest_of(wire) == wire.skip(wire.len() - rest_of(wire).len()),
        packets_in(wire)[i].b1 == wire[8 * i],
        packets_in(wire)[i].b2 == wire[8 * i + 1],
        packets_in(wire)[i].b3 == wire[8 * i + 2],
        packets_in(wire)[i].b4 == wire[8 * i + 3],
        packets_in(wire)[i].i1 == wire[8 * i + 4] + 0x100 * wire[8 * i + 5] + 0x1_0000 * wire[8 * i
            + 6] + 0x100_0000 * wire[8 * i + 7],
{
    let eight = wire.subrange(8 * i, 8 * i + 8);
    let packet = BgbPacket {
        b1: wire[8 * i],
        b2: wire[8 * i + 1],
        b3: wire[8 * i + 2],
        b4: wire[8 * i + 3],
        i1: (wire[8 * i + 4] + 0x100 * wire[8 * i + 5] + 0x1_0000 * wire[8 * i + 6] + 0x100_0000
            * wire[8 * i + 7]) as u32,
    };
    crate::laws::link::law_packet_on_the_wire(
        packet,
        wire[8 * i + 4],
        wire[8 * i + 5],
        wire[8 * i + 6],
        wire[8 * i + 7],
    );
    assert(eight =~= seq![
        wire[8 * i],
        wire[8 * i + 1],
        wire[8 * i + 2],
        wire[8 * i + 3],
        wire[8 * i + 4],
        wire[8 * i + 5],
        wire[8 * i + 6],
        wire[8 * i + 7],
    ]);
    assert(packets_in(wire)[i] == BgbPacket::of_bytes(eight));
}

/// What a command asks for is done, with its own port and host. Every command but
/// the news of a pause ends the connection; that news goes to the peer, if there is
/// one, as a STATUS, and changes nothing else.
pub proof fn law_commands(
    session: LinkSessionView,
    state: LinkStateView,
    host: String,
    port: u16,
    now: u64,
)
    requires
        now + 12_000_000_000 <= u64::MAX,
    ensures
        ({
            let (action, after) = session.commanded((LinkCommand::Listen { port }), state, now);
            &&& action == (CommandAction::Bind { port })
            &&& after.pending_connect is None
            &&& after.listening == session.listening
            &&& ended(after)
        }),
        ({
            let (action, after) = session.commanded(
                (LinkCommand::Connect { host, port }),
                state,
                now,
            );
            &&& action == CommandAction::Connect
            &&& after.pending_connect matches Some(connect) && connect.host == host && connect.port
                == port && connect.next_attempt_at == now && connect.deadline == now
                + 12_000_000_000
            &&& !after.listening
            &&& ended(after)
        }),
        ({
            let (action, after) = session.commanded(LinkCommand::Disconnect, state, now);
            &&& action == (CommandAction::Close {
                announce: session.streaming && state.remote_supports_reconnect,
            })
            &&& after.pending_connect is None
            &&& !after.listening
            &&& ended(after)
        }),
        session.commanded(LinkCommand::Shutdown, state, now) == (CommandAction::Stop, session),
        ({
            let (action, after) = session.commanded(LinkCommand::NotifyPause, state, now);
            &&& action == CommandAction::Nothing
            &&& !session.streaming ==> after == session
            &&& session.streaming ==> after == (LinkSessionView {
                to_send: session.to_send + seq![108u8, 7, 0, 0, 0, 0, 0, 0],
                ..session
            })
        }),
        ({
            let (action, after) = session.commanded(LinkCommand::NotifyResume, state, now);
            &&& action == CommandAction::Nothing
            &&& !session.streaming ==> after == session
            &&& session.streaming ==> after == (LinkSessionView {
                to_send: session.to_send + seq![108u8, 5, 0, 0, 0, 0, 0, 0],
                ..session
            })
        }),
        (LinkCommand::Listen { port }).ends_connection(),
        (LinkCommand::Connect { host, port }).ends_connection(),
        LinkCommand::Disconnect.ends_connection(),
        LinkCommand::Shutdown.ends_connection(),
        !LinkCommand::NotifyPause.ends_connection(),
        !LinkCommand::NotifyResume.ends_connection(),
{
    crate::laws::link::law_answers_on_the_wire(0, 0, true);
    crate::laws::link::law_answers_on_the_wire(0, 0, false);
}

/// No connection, and nothing of one is left.
pub open spec fn ended(session: LinkSessionView) -> bool {
    !session.streaming && session.received.len() == 0 && session.to_send.len() == 0
}

/// A session begins without a connection, and with nothing asked for.
pub proof fn law_session_begins()
    ensures
        ended(LinkSessionView::initial()),
        !LinkSessionView::initial().listening,
        LinkSessionView::initial().pending_connect is None,
        LinkSessionView::initial().retry is None,
{
}

/// With a connection open, an accepted peer ends the listening, one that we connected
/// to ends the connecting, and what the peer told of itself is kept.
pub proof fn law_connection_opens(
    session: LinkSessionView,
    state: LinkStateView,
    paused: bool,
    reconnects: bool,
)
    ensures
        session.opened(true) == (LinkSessionView { streaming: true, listening: false, ..session }),
        session.opened(false) == (LinkSessionView {
            streaming: true,
            pending_connect: None,
            ..session
        }),
        state.opened(paused, reconnects).connected,
        state.opened(paused, reconnects).remote_paused == paused,
        state.opened(paused, reconnects).remote_supports_reconnect == reconnects,
        state.opened(paused, reconnects).master_outgoing == state.master_outgoing,
        state.opened(paused, reconnects).slave_queue == state.slave_queue,
{
}

/// A master transfer that is due goes out once: eight bytes behind all others, of
/// which the first says SYNC1, the second is the byte and the third the rate that
/// was asked for, or the slowest where none was. Until it is answered it is not due
/// again, and where it is not due nothing changes.
pub proof fn law_master_transfer_goes_out_once(
    session: LinkSessionView,
    state: LinkStateView,
    x: u8,
    clock: SerialTransferClock,
    timestamp: u32,
    now: u64,
    later: u64,
)
    requires
        state.master_outgoing == Some(x),
        state.master_control == 0 || state.master_control == rate_byte(clock),
    ensures
        ({
            let (started, after, waiting) = session.master_started(state, timestamp, now);
            let sent = after.to_send.skip(session.to_send.len() as int);
            &&& started ==> {
                &&& after.to_send == session.to_send + sent
                &&& sent.len() == 8
                &&& sent[0] == 104
                &&& sent[1] == x
                &&& state.master_control == 0 ==> sent[2] == 0x81
                &&& state.master_control != 0 ==> sent[2] == rate_byte(clock)
                &&& sent[3] == 0
                &&& sent[4] + 0x100 * sent[5] + 0x1_0000 * sent[6] + 0x100_0000 * sent[7]
                    == timestamp % 0x8000_0000
                &&& waiting == (LinkStateView { master_waiting: true, ..state })
                &&& after == (LinkSessionView { to_send: after.to_send, ..session })
                &&& !after.master_started(waiting, timestamp, later).0
            }
            &&& !started ==> after == session && waiting == state
            &&& started <==> !state.master_waiting && (session.retry matches Some(next) ==> now
                >= next)
        }),
{
    if master_due(state, session.retry, now) {
        let packet = crate::network_link::session::master_packet(state, timestamp);
        let t = packet.i1 as int;
        let t0 = (t % 0x100) as u8;
        let t1 = (t / 0x100 % 0x100) as u8;
        let t2 = (t / 0x1_0000 % 0x100) as u8;
        let t3 = (t / 0x100_0000) as u8;
        assert(t == t0 + 0x100 * t1 + 0x1_0000 * t2 + 0x100_0000 * t3);
        crate::laws::link::law_packet_on_the_wire(packet, t0, t1, t2, t3);
        let after = session.sending(packet);
        assert(after.to_send.skip(session.to_send.len() as int) =~= packet.bytes());
        crate::laws::link::lemma_kept_rate(0x81);
        if state.master_control != 0 {
            crate::laws::link::lemma_kept_rate(state.master_control);
        }
    }
}

/// Whatever packets do, their answers go out behind what was to be sent before, and
/// what they left unfinished on the wire stays.
pub proof fn law_answers_go_out_in_order(session: LinkSessionView, effect: BatchEffect)
    ensures
        session.acted(effect).to_send == session.to_send + effect.sent,
        session.acted(effect).received == rest_of(session.received),
        session.acted(effect).retry == effect.retry,
        session.acted(effect).streaming == session.streaming,
        session.acted(effect).listening == session.listening,
        session.acted(effect).pending_connect == session.pending_connect,
{
}

/// A blocking transfer ends with the peer's byte, with 0xFF where there is no
/// connection, or with 0xFF after more than a second, and then nothing of it is left.
/// Before, it waits.
pub proof fn law_blocking_transfer(state: LinkStateView, byte: u8, elapsed: u64, reply: u8)
    ensures
        ({
            let (step, after) = state.transfer_polled(byte, elapsed);
            &&& state.master_response == Some(reply) ==> step == TransferStep::Done(reply)
            &&& state.master_response is None && !state.connected ==> step == TransferStep::Done(
                0xFF,
            )
            &&& state.master_response is None && state.connected && elapsed > 1_000_000_000
                ==> step == TransferStep::Done(0xFF)
            &&& state.master_response is None && state.connected && elapsed <= 1_000_000_000
                ==> step == TransferStep::Wait && after.master_response is None
                && after.master_waiting == state.master_waiting && (!state.master_waiting
                ==> after.master_outgoing == Some(byte))
            &&& step is Done ==> after.master_outgoing is None && after.master_response is None
                && !after.master_waiting
            &&& after.connected == state.connected
            &&& after.slave_queue == state.slave_queue
        }),
{
}

/// A byte of the peer is taken in while none waits, and is then what the next
/// external-clock transfer reads. Without a connection that reads 0xFF.
pub proof fn law_slave_reads_what_came(state: LinkStateView, byte: u8)
    ensures
        ({
            let (accepted, after) = state.slave_queued(byte);
            &&& accepted <==> state.slave_queue.len() == 0
            &&& !accepted ==> after == state
            &&& accepted ==> after.slave_answer() == Some(byte) && after.slave_queue == seq![byte]
                && after.slave_incoming == Some(byte) && after.slave_complete
            &&& accepted ==> after.slave_popped().slave_queue.len() == 0
            &&& state.slave_queue.len() == 0 && state.connected ==> state.slave_answer() is None
            &&& state.slave_queue.len() == 0 && !state.connected ==> state.slave_answer() == Some(
                0xFFu8,
            )
            &&& after.connected == state.connected
            &&& after.master_outgoing == state.master_outgoing
        }),
{
}

/// Clearing the queues keeps what is known of the peer, and nothing that is under way.
pub proof fn law_queues_are_cleared(state: LinkStateView)
    ensures
        state.cleared().connected == state.connected,
        state.cleared().remote_paused == state.remote_paused,
        state.cleared().remote_supports_reconnect == state.remote_supports_reconnect,
        state.cleared().master_outgoing is None,
        state.cleared().master_response is None,
        !state.cleared().master_waiting,
        state.cleared().master_control == 0,
        state.cleared().slave_incoming is None,
        state.cleared().slave_outgoing is None,
        !state.cleared().slave_complete,
        state.cleared().slave_queue.len() == 0,
        state.cleared().last_remote_sync3_timestamp is None,
{
}

/// A transfer that waits for the emulation to clock it keeps its pace. A pace of zero
/// counts as one dot.
pub proof fn law_waiting_transfer(dots: u32)
    ensures
        ExternalClockPending::waiting(dots).pending,
        dots > 0 ==> ExternalClockPending::waiting(dots).dot_cycles_per_bit == dots,
        ExternalClockPending::waiting(0).dot_cycles_per_bit == 1,
{
}

} // verus!
