//! What the network side of the link does between two looks at its sockets.

use crate::network_link::packet::{
    bgb_sync1_control_value, control_value, sanitized_control, BgbPacket, CMD_STATUS, CMD_SYNC1,
    RX_PACKET_SIZE,
};
use crate::network_link::state::{
    after, disconnect, handle_packet, packet_bytes, queue_packet, ExternalClockPending,
    LinkCommand, LinkEvent, LinkState, LinkStateView, PacketEffect, SlaveReadyState,
};
use crate::text::{decimal, push_decimal};
use std::collections::VecDeque;
use vstd::prelude::*;
use vstd::string::StringExecFns;

verus! {

/// Pause between two attempts to connect, in nanoseconds.
pub const CONNECT_RETRY_INTERVAL: u64 = 300_000_000;

/// How long one attempt to connect may take, in nanoseconds.
pub const CONNECT_ATTEMPT_TIMEOUT: u64 = 800_000_000;

/// How long connecting goes on, in nanoseconds.
pub const CONNECT_RETRY_WINDOW: u64 = 12_000_000_000;

/// How much is written to the socket at once.
pub const WRITE_CHUNK: usize = 512;

/// How much is read from the socket at once.
pub const READ_CHUNK: usize = 1024;

/// A connection that we try to open.
pub struct PendingConnect {
    pub host: String,
    pub port: u16,
    pub next_attempt_at: u64,
    pub deadline: u64,
    pub attempts: u32,
    pub last_error: Option<String>,
}

/// What to do about a pending connection.
pub enum ConnectStep {
    /// Nothing yet.
    Wait,
    /// Try to connect now, and report what came of it.
    Attempt,
    /// Stop trying, and report the failure.
    GiveUp(LinkEvent),
}

/// Text of an endpoint.
pub open spec fn endpoint_text(host: Seq<char>, port: u16) -> Seq<char> {
    host + ":"@ + decimal(port as nat)
}

/// Text of a connection that failed.
pub open spec fn failure_text(
    endpoint: Seq<char>,
    attempts: u32,
    detail: Option<Seq<char>>,
) -> Seq<char> {
    "Connection to "@ + endpoint + " failed after "@ + decimal(
        if attempts == 0 {
            1
        } else {
            attempts as nat
        },
    ) + " attempt(s): "@ + match detail {
        Some(detail) => detail,
        None => "timed out while waiting for peer"@,
    }
}

impl PendingConnect {
    /// What a look at the connection at `now` leads to.
    pub open spec fn polled(self, now: u64, step: ConnectStep, next: Self) -> bool {
        if now >= self.deadline {
            &&& next == self
            &&& step matches ConnectStep::GiveUp(LinkEvent::Error(text)) && text@ == failure_text(
                endpoint_text(self.host@, self.port),
                self.attempts,
                match self.last_error {
                    Some(e) => Some(e@),
                    None => None,
                },
            )
        } else if now >= self.next_attempt_at {
            &&& step is Attempt
            &&& next == (PendingConnect {
                attempts: if self.attempts == u32::MAX {
                    u32::MAX
                } else {
                    (self.attempts + 1) as u32
                },
                ..self
            })
        } else {
            &&& step is Wait
            &&& next == self
        }
    }

    /// The connection after an attempt that did not get through.
    pub open spec fn failed(self, error: String, now: u64) -> Self {
        PendingConnect {
            last_error: Some(error),
            next_attempt_at: after(now, CONNECT_RETRY_INTERVAL),
            ..self
        }
    }

    /// The connection to a host that has no address.
    pub open spec fn without_host(self, error: String, now: u64) -> Self {
        PendingConnect { last_error: Some(error), deadline: now, ..self }
    }

    /// A connection that was asked for at `now`.
    pub open spec fn asked(host: String, port: u16, now: u64) -> Self {
        PendingConnect {
            host,
            port,
            next_attempt_at: now,
            deadline: after(now, CONNECT_RETRY_WINDOW),
            attempts: 0,
            last_error: None,
        }
    }

    /// The first attempt is due at once.
    pub fn new(host: String, port: u16, now: u64) -> (connect: Self)
        ensures
            connect == Self::asked(host, port, now),
    {
        Self {
            host,
            port,
            next_attempt_at: now,
            deadline: now.saturating_add(CONNECT_RETRY_WINDOW),
            attempts: 0,
            last_error: None,
        }
    }

    pub fn endpoint(&self) -> (text: String)
        ensures
            text@ == endpoint_text(self.host@, self.port),
    {
        let mut text = self.host.clone();
        text.append(":");
        push_decimal(&mut text, self.port as u64);
        text
    }

    /// The failure as it is reported.
    fn failure(&self) -> (text: String)
        ensures
            text@ == failure_text(
                endpoint_text(self.host@, self.port),
                self.attempts,
                match self.last_error {
                    Some(e) => Some(e@),
                    None => None,
                },
            ),
    {
        let endpoint = self.endpoint();
        let attempts: u32 = if self.attempts < 1 {
            1
        } else {
            self.attempts
        };
        let mut text = String::new();
        text.append("Connection to ");
        text.append(endpoint.as_str());
        text.append(" failed after ");
        push_decimal(&mut text, attempts as u64);
        text.append(" attempt(s): ");
        match &self.last_error {
            Some(e) => text.append(e.as_str()),
            None => text.append("timed out while waiting for peer"),
        }
        proof {
            assert(Seq::<char>::empty() + "Connection to "@ =~= "Connection to "@);
        }
        text
    }

    /// Decide what to do at `now`: past the deadline give up, else try as soon
    /// as the pause after the last attempt is over.
    pub fn poll(&mut self, now: u64) -> (step: ConnectStep)
        ensures
            old(self).polled(now, step, *final(self)),
    {
        if now >= self.deadline {
            ConnectStep::GiveUp(LinkEvent::Error(self.failure()))
        } else if now >= self.next_attempt_at {
            self.attempts = self.attempts.saturating_add(1);
            ConnectStep::Attempt
        } else {
            ConnectStep::Wait
        }
    }

    /// An attempt did not get through: pause, then try again.
    pub fn attempt_failed(&mut self, error: String, now: u64)
        ensures
            *final(self) == old(self).failed(error, now),
    {
        self.last_error = Some(error);
        self.next_attempt_at = now.saturating_add(CONNECT_RETRY_INTERVAL);
    }

    /// The host has no address: there is no use in trying again.
    pub fn host_not_found(&mut self, error: String, now: u64)
        ensures
            *final(self) == old(self).without_host(error, now),
    {
        self.last_error = Some(error);
        self.deadline = now;
    }
}

/// What a write to the socket gave.
#[derive(Clone, Copy, Debug, PartialEq, Eq, Structural)]
pub enum WriteOutcome {
    /// So many bytes went out.
    Wrote(usize),
    WouldBlock,
    Interrupted,
    Failed,
}

/// How sending goes on.
#[derive(Clone, Copy, Debug, PartialEq, Eq, Structural)]
pub enum FlushStep {
    /// Write the next chunk.
    Again,
    /// Leave it for now.
    Later,
    /// The peer takes no more: the connection is closed.
    Closed,
    /// The connection failed.
    Failed,
}

/// The bytes to write next.
pub open spec fn chunk_of(queue: Seq<u8>) -> Seq<u8> {
    queue.take(
        if queue.len() < WRITE_CHUNK {
            queue.len() as int
        } else {
            WRITE_CHUNK as int
        },
    )
}

/// How sending goes on after a write, and what is left to send.
pub open spec fn flushed(queue: Seq<u8>, outcome: WriteOutcome) -> (FlushStep, Seq<u8>) {
    match outcome {
        WriteOutcome::Wrote(n) => (
            if n == 0 {
                FlushStep::Closed
            } else {
                FlushStep::Again
            },
            queue.skip(
                if n < queue.len() {
                    n as int
                } else {
                    queue.len() as int
                },
            ),
        ),
        WriteOutcome::WouldBlock => (FlushStep::Later, queue),
        WriteOutcome::Interrupted => (FlushStep::Again, queue),
        WriteOutcome::Failed => (FlushStep::Failed, queue),
    }
}

/// The bytes to write next: the oldest of the queue, as many as fit.
pub fn next_chunk(tx_queue: &VecDeque<u8>) -> (chunk: Vec<u8>)
    ensures
        chunk@ == chunk_of(tx_queue@),
{
    let chunk_len: usize = if tx_queue.len() < WRITE_CHUNK {
        tx_queue.len()
    } else {
        WRITE_CHUNK
    };
    let mut chunk: Vec<u8> = Vec::new();
    let mut i: usize = 0;
    while i < chunk_len
        invariant
            i <= chunk_len <= tx_queue@.len(),
            chunk@ == tx_queue@.take(i as int),
        decreases chunk_len - i,
    {
        chunk.push(tx_queue[i]);
        i = i + 1;
        proof {
            assert(tx_queue@.take(i as int) =~= tx_queue@.take(i - 1).push(tx_queue@[i - 1]));
        }
    }
    chunk
}

/// Act on what a write gave: what went out leaves the queue.
pub fn flush_step(tx_queue: &mut VecDeque<u8>, outcome: WriteOutcome) -> (step: FlushStep)
    ensures
        (step, final(tx_queue)@) == flushed(old(tx_queue)@, outcome),
{
    match outcome {
        WriteOutcome::Wrote(n) => {
            let mut i: usize = 0;
            proof {
                assert(tx_queue@ =~= old(tx_queue)@.skip(0));
            }
            while i < n && tx_queue.len() > 0
                invariant
                    i <= n,
                    i <= old(tx_queue)@.len(),
                    tx_queue@ == old(tx_queue)@.skip(i as int),
                decreases n - i,
            {
                let _ = tx_queue.pop_front();
                i = i + 1;
                proof {
                    assert(tx_queue@ =~= old(tx_queue)@.skip(i as int));
                }
            }
            if n == 0 {
                FlushStep::Closed
            } else {
                FlushStep::Again
            }
        },
        WriteOutcome::WouldBlock => FlushStep::Later,
        WriteOutcome::Interrupted => FlushStep::Again,
        WriteOutcome::Failed => FlushStep::Failed,
    }
}

/// What a read of up to [`READ_CHUNK`] bytes from the socket gave.
pub enum ReadOutcome {
    /// These bytes came in; none at all means that the peer has gone.
    Data(Vec<u8>),
    WouldBlock,
    Interrupted,
    Failed,
}

/// How reading goes on.
#[derive(Clone, Copy, Debug, PartialEq, Eq, Structural)]
pub enum ReadState {
    /// Read on: there may be more.
    Again,
    /// All that was there has been read.
    Alive,
    Disconnected,
    Failed,
}

/// How reading goes on after a read, and what has come in.
pub open spec fn read_after(received: Seq<u8>, outcome: ReadOutcome) -> (ReadState, Seq<u8>) {
    match outcome {
        ReadOutcome::Data(data) => (
            if data@.len() == 0 {
                ReadState::Disconnected
            } else if data@.len() < READ_CHUNK {
                ReadState::Alive
            } else {
                ReadState::Again
            },
            received + data@,
        ),
        ReadOutcome::WouldBlock => (ReadState::Alive, received),
        ReadOutcome::Interrupted => (ReadState::Again, received),
        ReadOutcome::Failed => (ReadState::Failed, received),
    }
}

/// Act on what a read gave: what came in is kept.
pub fn read_step(rx_buf: &mut Vec<u8>, outcome: ReadOutcome) -> (state: ReadState)
    ensures
        (state, final(rx_buf)@) == read_after(old(rx_buf)@, outcome),
{
    match outcome {
        ReadOutcome::Data(data) => {
            let n: usize = data.len();
            let mut data = data;
            rx_buf.append(&mut data);
            if n == 0 {
                ReadState::Disconnected
            } else if n < READ_CHUNK {
                ReadState::Alive
            } else {
                ReadState::Again
            }
        },
        ReadOutcome::WouldBlock => ReadState::Alive,
        ReadOutcome::Interrupted => ReadState::Again,
        ReadOutcome::Failed => ReadState::Failed,
    }
}

/// The packets that a stretch of the wire holds, up to the last whole one.
pub open spec fn packets_in(wire: Seq<u8>) -> Seq<BgbPacket> {
    Seq::new(
        wire.len() / 8,
        |i: int| BgbPacket::of_bytes(wire.subrange(8 * i, 8 * i + 8)),
    )
}

/// The bytes behind the last whole packet.
pub open spec fn rest_of(wire: Seq<u8>) -> Seq<u8> {
    wire.skip(8 * (wire.len() as int / 8))
}

/// Take the whole packets out of what came in. An unfinished one stays.
pub fn drain_packets(rx_buf: &mut Vec<u8>) -> (packets: Vec<BgbPacket>)
    ensures
        packets@ == packets_in(old(rx_buf)@),
        final(rx_buf)@ == rest_of(old(rx_buf)@),
{
    let mut packets: Vec<BgbPacket> = Vec::new();
    let mut offset: usize = 0;
    let ghost wire = rx_buf@;
    while rx_buf.len() - offset >= RX_PACKET_SIZE
        invariant
            rx_buf@ == wire,
            offset <= wire.len(),
            offset == 8 * packets@.len(),
            forall|i: int|
                0 <= i < packets@.len() ==> packets@[i] == BgbPacket::of_bytes(
                    #[trigger] wire.subrange(8 * i, 8 * i + 8),
                ),
        decreases wire.len() - offset,
    {
        let bytes: [u8; RX_PACKET_SIZE] = [
            rx_buf[offset],
            rx_buf[offset + 1],
            rx_buf[offset + 2],
            rx_buf[offset + 3],
            rx_buf[offset + 4],
            rx_buf[offset + 5],
            rx_buf[offset + 6],
            rx_buf[offset + 7],
        ];
        proof {
            assert(bytes@ =~= wire.subrange(offset as int, offset + 8));
        }
        packets.push(BgbPacket::from_bytes(&bytes));
        offset = offset + RX_PACKET_SIZE;
    }
    let rest = rx_buf.split_off(offset);
    *rx_buf = rest;
    proof {
        assert(packets@ =~= packets_in(wire));
        assert(rx_buf@ =~= rest_of(wire));
    }
    packets
}

/// What the network side keeps: which sockets it has, what came in and what is
/// to go out.
pub struct LinkSession {
    pub listening: bool,
    pub streaming: bool,
    pub pending_connect: Option<PendingConnect>,
    pub rx_buf: Vec<u8>,
    pub tx_queue: VecDeque<u8>,
    pub master_retry_not_before: Option<u64>,
}

/// What a [`LinkSession`] holds.
pub struct LinkSessionView {
    pub listening: bool,
    pub streaming: bool,
    pub pending_connect: Option<PendingConnect>,
    pub received: Seq<u8>,
    pub to_send: Seq<u8>,
    pub retry: Option<u64>,
}

impl View for LinkSession {
    type V = LinkSessionView;

    open spec fn view(&self) -> LinkSessionView {
        LinkSessionView {
            listening: self.listening,
            streaming: self.streaming,
            pending_connect: self.pending_connect,
            received: self.rx_buf@,
            to_send: self.tx_queue@,
            retry: self.master_retry_not_before,
        }
    }
}

/// What the program is to do about a command.
#[derive(Clone, Copy, Debug, PartialEq, Eq, Structural)]
pub enum CommandAction {
    /// Nothing more.
    Nothing,
    /// Drop the stream, and open a listener on this port.
    Bind { port: u16 },
    /// Drop stream and listener; connecting starts.
    Connect,
    /// Drop stream and listener, after the announcement if one is due, and
    /// report the disconnect.
    Close { announce: bool },
    /// Drop all and stop.
    Stop,
}

impl LinkSessionView {
    /// No sockets, and nothing to do.
    pub open spec fn initial() -> Self {
        LinkSessionView {
            listening: false,
            streaming: false,
            pending_connect: None,
            received: Seq::empty(),
            to_send: Seq::empty(),
            retry: None,
        }
    }

    /// What a command leads to, and the session after it.
    pub open spec fn commanded(
        self,
        cmd: LinkCommand,
        state: LinkStateView,
        now: u64,
    ) -> (CommandAction, Self) {
        match cmd {
            LinkCommand::Listen { port } => (
                CommandAction::Bind { port },
                LinkSessionView { pending_connect: None, ..self.dropped() },
            ),
            LinkCommand::Connect { host, port } => (
                CommandAction::Connect,
                LinkSessionView {
                    listening: false,
                    pending_connect: Some(PendingConnect::asked(host, port, now)),
                    ..self.dropped()
                },
            ),
            LinkCommand::Disconnect => (
                CommandAction::Close {
                    announce: self.streaming && state.remote_supports_reconnect,
                },
                LinkSessionView { listening: false, pending_connect: None, ..self.dropped() },
            ),
            LinkCommand::NotifyPause => (CommandAction::Nothing, self.telling(true)),
            LinkCommand::NotifyResume => (CommandAction::Nothing, self.telling(false)),
            LinkCommand::Shutdown => (CommandAction::Stop, self),
        }
    }

    /// The session after the peer, if there is one, is to be told of a pause.
    pub open spec fn telling(self, paused: bool) -> Self {
        if self.streaming {
            self.sending(pause_packet(paused))
        } else {
            self
        }
    }

    /// The session with a connection, to a peer that was accepted or was
    /// connected to.
    pub open spec fn opened(self, accepted: bool) -> Self {
        if accepted {
            LinkSessionView { streaming: true, listening: false, ..self }
        } else {
            LinkSessionView { streaming: true, pending_connect: None, ..self }
        }
    }

    /// Whether a master transfer is started at `now`, and session and state after
    /// it.
    pub open spec fn master_started(
        self,
        state: LinkStateView,
        timestamp: u32,
        now: u64,
    ) -> (bool, Self, LinkStateView) {
        if master_due(state, self.retry, now) {
            (
                true,
                self.sending(master_packet(state, timestamp)),
                LinkStateView { master_waiting: true, ..state },
            )
        } else {
            (false, self, state)
        }
    }

    /// The session after the packets that came in were acted on, with `effect`.
    pub open spec fn acted(self, effect: BatchEffect) -> Self {
        LinkSessionView {
            received: rest_of(self.received),
            to_send: self.to_send + effect.sent,
            retry: effect.retry,
            ..self
        }
    }

    /// What a look at the pending connection leads to.
    pub open spec fn polled(self, now: u64, step: ConnectStep, next: Self) -> bool {
        match self.pending_connect {
            None => step is Wait && next == self,
            Some(connect) => exists|looked: PendingConnect| #[trigger]
                connect.polled(now, step, looked) && next == (LinkSessionView {
                    pending_connect: if step is GiveUp {
                        None
                    } else {
                        Some(looked)
                    },
                    ..self
                }),
        }
    }

    /// No connection: what is left of an old one is dropped.
    pub open spec fn dropped(self) -> Self {
        LinkSessionView {
            streaming: false,
            received: Seq::empty(),
            to_send: Seq::empty(),
            ..self
        }
    }

    /// The session with a packet more to send.
    pub open spec fn sending(self, packet: BgbPacket) -> Self {
        LinkSessionView { to_send: self.to_send + packet.bytes(), ..self }
    }
}

/// The STATUS that tells the peer whether we are paused.
pub open spec fn pause_packet(paused: bool) -> BgbPacket {
    BgbPacket {
        b1: CMD_STATUS,
        b2: if paused {
            7
        } else {
            5
        },
        b3: 0,
        b4: 0,
        i1: 0,
    }
}

/// What a number of packets do, one after the other.
pub struct BatchEffect {
    pub state: LinkStateView,
    pub clock: ExternalClockPending,
    pub retry: Option<u64>,
    pub sent: Seq<u8>,
    pub events: Seq<LinkEvent>,
}

impl BatchEffect {
    pub open spec fn of(
        packets: Seq<BgbPacket>,
        state: LinkStateView,
        clock: ExternalClockPending,
        ready: Option<u8>,
        retry: Option<u64>,
        now: u64,
    ) -> Self
        decreases packets.len(),
    {
        if packets.len() == 0 {
            BatchEffect { state, clock, retry, sent: Seq::empty(), events: Seq::empty() }
        } else {
            let before = Self::of(packets.drop_last(), state, clock, ready, retry, now);
            let last = PacketEffect::of(
                packets.last(),
                before.state,
                before.clock,
                ready,
                before.retry,
                now,
            );
            BatchEffect {
                state: last.state,
                clock: last.clock,
                retry: last.retry,
                sent: before.sent + packet_bytes(last.reply),
                events: match last.event {
                    Some(event) => before.events.push(event),
                    None => before.events,
                },
            }
        }
    }
}

/// Whether a master transfer is to be started at `now`.
pub open spec fn master_due(state: LinkStateView, retry: Option<u64>, now: u64) -> bool {
    &&& state.master_outgoing is Some
    &&& !state.master_waiting
    &&& retry matches Some(next) ==> now >= next
}

/// The SYNC1 of a master transfer.
pub open spec fn master_packet(state: LinkStateView, timestamp: u32) -> BgbPacket {
    BgbPacket {
        b1: CMD_SYNC1,
        b2: state.master_outgoing->0,
        b3: sanitized_control(
            if state.master_control == 0 {
                control_value(false, false) as u8
            } else {
                state.master_control
            },
        ),
        b4: 0,
        i1: (timestamp as int % 0x8000_0000) as u32,
    }
}

impl LinkSession {
    pub fn new() -> (session: Self)
        ensures
            session@ == LinkSessionView::initial(),
    {
        Self {
            listening: false,
            streaming: false,
            pending_connect: None,
            rx_buf: Vec::new(),
            tx_queue: VecDeque::new(),
            master_retry_not_before: None,
        }
    }

    fn drop_connection(&mut self)
        ensures
            final(self)@ == old(self)@.dropped(),
    {
        self.streaming = false;
        self.rx_buf.clear();
        self.tx_queue.clear();
    }

    /// Act on a command. Every one that ends a connection leaves nothing of it;
    /// the announcement is for a peer that supports reconnecting.
    pub fn command(
        &mut self,
        cmd: LinkCommand,
        state: &mut LinkState,
        external_clock_pending: &mut ExternalClockPending,
        now: u64,
    ) -> (action: CommandAction)
        ensures
            (action, final(self)@) == old(self)@.commanded(cmd, old(state)@, now),
            final(state)@ == if cmd.ends_connection() {
                LinkStateView::initial()
            } else {
                old(state)@
            },
            *final(external_clock_pending) == if cmd.ends_connection() {
                ExternalClockPending::idle()
            } else {
                *old(external_clock_pending)
            },
    {
        match cmd {
            LinkCommand::Listen { port } => {
                disconnect(state, external_clock_pending);
                self.drop_connection();
                self.pending_connect = None;
                CommandAction::Bind { port }
            },
            LinkCommand::Connect { host, port } => {
                disconnect(state, external_clock_pending);
                self.drop_connection();
                self.listening = false;
                self.pending_connect = Some(PendingConnect::new(host, port, now));
                CommandAction::Connect
            },
            LinkCommand::Disconnect => {
                let announce = self.streaming && state.remote_supports_reconnect;
                disconnect(state, external_clock_pending);
                self.drop_connection();
                self.listening = false;
                self.pending_connect = None;
                CommandAction::Close { announce }
            },
            LinkCommand::NotifyPause => {
                if self.streaming {
                    queue_packet(&mut self.tx_queue, BgbPacket::status(true, true, true));
                }
                CommandAction::Nothing
            },
            LinkCommand::NotifyResume => {
                if self.streaming {
                    queue_packet(&mut self.tx_queue, BgbPacket::status(true, false, true));
                }
                CommandAction::Nothing
            },
            LinkCommand::Shutdown => {
                disconnect(state, external_clock_pending);
                CommandAction::Stop
            },
        }
    }

    /// The listener of a [`CommandAction::Bind`] is open.
    pub fn bound(&mut self, port: u16) -> (event: LinkEvent)
        ensures
            final(self)@ == (LinkSessionView { listening: true, ..old(self)@ }),
            event == (LinkEvent::Listening { port }),
    {
        self.listening = true;
        LinkEvent::Listening { port }
    }

    /// Whether to look for a peer at the listener.
    pub fn accepts(&self) -> (accepts: bool)
        ensures
            accepts == (self@.listening && !self@.streaming),
    {
        self.listening && !self.streaming
    }

    /// Whether to look after the pending connection.
    pub fn connects(&self) -> (connects: bool)
        ensures
            connects == (self@.pending_connect is Some && !self@.streaming),
    {
        self.pending_connect.is_some() && !self.streaming
    }

    /// Decide about the pending connection. One that is given up is forgotten.
    pub fn poll_connect(&mut self, now: u64) -> (step: ConnectStep)
        ensures
            old(self)@.polled(now, step, final(self)@),
    {
        match self.pending_connect.take() {
            None => ConnectStep::Wait,
            Some(connect) => {
                let mut connect = connect;
                let step = connect.poll(now);
                proof {
                    assert((old(self)@.pending_connect->0).polled(now, step, connect));
                }
                match &step {
                    ConnectStep::GiveUp(_) => {},
                    _ => {
                        self.pending_connect = Some(connect);
                    },
                }
                step
            },
        }
    }

    /// A connection is open and its handshake done. A peer that we accepted
    /// ends the listening; one that we connected to ends the connecting.
    pub fn connected(
        &mut self,
        accepted: bool,
        remote_paused: bool,
        remote_support_reconnect: bool,
        state: &mut LinkState,
    ) -> (event: LinkEvent)
        ensures
            event == LinkEvent::Connected,
            final(state)@ == old(state)@.opened(remote_paused, remote_support_reconnect),
            final(self)@ == old(self)@.opened(accepted),
    {
        state.connected = true;
        state.remote_paused = remote_paused;
        state.remote_supports_reconnect = remote_support_reconnect;
        self.streaming = true;
        if accepted {
            self.listening = false;
        } else {
            self.pending_connect = None;
        }
        LinkEvent::Connected
    }

    /// Start the master transfer that is due, if there is one: its SYNC1 is
    /// queued and its answer awaited.
    pub fn start_master_transfer(&mut self, state: &mut LinkState, timestamp: u32, now: u64) -> (started:
        bool)
        ensures
            (started, final(self)@, final(state)@) == old(self)@.master_started(
                old(state)@,
                timestamp,
                now,
            ),
    {
        let rested = match self.master_retry_not_before {
            Some(next) => now >= next,
            None => true,
        };
        match state.master_outgoing {
            Some(outgoing) => {
                if !state.master_waiting && rested {
                    state.master_waiting = true;
                    let control: u8 = if state.master_control == 0 {
                        bgb_sync1_control_value(false, false)
                    } else {
                        state.master_control
                    };
                    proof {
                        crate::bits::lemma_timestamp(timestamp);
                    }
                    let ts: u32 = timestamp & 0x7FFF_FFFF;
                    queue_packet(&mut self.tx_queue, BgbPacket::sync1(outgoing, control, ts));
                    true
                } else {
                    false
                }
            },
            None => false,
        }
    }

    /// Act on the whole packets that came in, in order.
    pub fn receive(
        &mut self,
        state: &mut LinkState,
        external_clock_pending: &mut ExternalClockPending,
        slave_ready: &SlaveReadyState,
        now: u64,
    ) -> (events: Vec<LinkEvent>)
        ensures
            ({
                let effect = BatchEffect::of(
                    packets_in(old(self)@.received),
                    old(state)@,
                    *old(external_clock_pending),
                    slave_ready.ready_byte(),
                    old(self)@.retry,
                    now,
                );
                &&& final(state)@ == effect.state
                &&& *final(external_clock_pending) == effect.clock
                &&& events@ == effect.events
                &&& final(self)@ == old(self)@.acted(effect)
            }),
    {
        let packets = drain_packets(&mut self.rx_buf);
        let mut events: Vec<LinkEvent> = Vec::new();
        let mut i: usize = 0;
        let ghost before = old(self)@;
        proof {
            assert(packets@.take(0) =~= Seq::<BgbPacket>::empty());
            assert(before.to_send + Seq::<u8>::empty() =~= before.to_send);
        }
        while i < packets.len()
            invariant
                i <= packets@.len(),
                packets@ == packets_in(before.received),
                ({
                    let effect = BatchEffect::of(
                        packets@.take(i as int),
                        old(state)@,
                        *old(external_clock_pending),
                        slave_ready.ready_byte(),
                        before.retry,
                        now,
                    );
                    &&& state@ == effect.state
                    &&& *external_clock_pending == effect.clock
                    &&& events@ == effect.events
                    &&& self@ == (LinkSessionView {
                        received: rest_of(before.received),
                        to_send: before.to_send + effect.sent,
                        retry: effect.retry,
                        ..before
                    })
                }),
            decreases packets@.len() - i,
        {
            let event = handle_packet(
                packets[i],
                state,
                external_clock_pending,
                slave_ready,
                &mut self.master_retry_not_before,
                now,
                &mut self.tx_queue,
            );
            proof {
                let next = packets@.take(i + 1);
                assert(next.drop_last() =~= packets@.take(i as int));
                assert(next.last() == packets@[i as int]);
                let done = BatchEffect::of(
                    packets@.take(i as int),
                    old(state)@,
                    *old(external_clock_pending),
                    slave_ready.ready_byte(),
                    before.retry,
                    now,
                );
                let all = BatchEffect::of(
                    next,
                    old(state)@,
                    *old(external_clock_pending),
                    slave_ready.ready_byte(),
                    before.retry,
                    now,
                );
                assert(self.tx_queue@ =~= before.to_send + all.sent);
            }
            match event {
                Some(event) => events.push(event),
                None => {},
            }
            i = i + 1;
        }
        proof {
            assert(packets@.take(i as int) =~= packets@);
        }
        events
    }

    /// The connection is lost.
    pub fn lost(
        &mut self,
        state: &mut LinkState,
        external_clock_pending: &mut ExternalClockPending,
    ) -> (event: LinkEvent)
        ensures
            event == LinkEvent::Disconnected,
            final(self)@ == old(self)@.dropped(),
            final(state)@ == LinkStateView::initial(),
            *final(external_clock_pending) == ExternalClockPending::idle(),
    {
        disconnect(state, external_clock_pending);
        self.drop_connection();
        LinkEvent::Disconnected
    }
}

/// It makes no difference in which pieces the wire comes in: the packets of two
/// pieces are those of the first, then those of what the first left over
/// followed by the second.
pub proof fn law_framing_ignores_pieces(a: Seq<u8>, b: Seq<u8>)
    ensures
        packets_in(a + b) == packets_in(a) + packets_in(rest_of(a) + b),
        rest_of(a + b) == rest_of(rest_of(a) + b),
{
    let whole = a + b;
    let left = rest_of(a) + b;
    let n = a.len() as int / 8;
    assert(left =~= whole.skip(8 * n));
    assert(left.len() == whole.len() - 8 * n);
    assert(left.len() as int / 8 == whole.len() as int / 8 - n);
    assert forall|i: int| 0 <= i < packets_in(whole).len() implies packets_in(whole)[i] == (
    packets_in(a) + packets_in(left))[i] by {
        if i < n {
            assert(whole.subrange(8 * i, 8 * i + 8) =~= a.subrange(8 * i, 8 * i + 8));
        } else {
            let j = i - n;
            assert(whole.subrange(8 * i, 8 * i + 8) =~= left.subrange(8 * j, 8 * j + 8));
        }
    }
    assert(packets_in(whole) =~= packets_in(a) + packets_in(left));
    assert(rest_of(whole) =~= rest_of(left));
}

/// The wire that carries packets one after the other.
pub open spec fn wire_of(packets: Seq<BgbPacket>) -> Seq<u8>
    decreases packets.len(),
{
    if packets.len() == 0 {
        Seq::empty()
    } else {
        wire_of(packets.drop_last()) + packets.last().bytes()
    }
}

/// What was sent packet by packet is received packet by packet.
pub proof fn law_sent_packets_are_received(packets: Seq<BgbPacket>)
    ensures
        packets_in(wire_of(packets)) == packets,
        rest_of(wire_of(packets)).len() == 0,
        wire_of(packets).len() == 8 * packets.len(),
    decreases packets.len(),
{
    if packets.len() == 0 {
        assert(packets_in(wire_of(packets)) =~= packets);
    } else {
        let head = wire_of(packets.drop_last());
        let tail = packets.last().bytes();
        law_sent_packets_are_received(packets.drop_last());
        law_framing_ignores_pieces(head, tail);
        crate::network_link::packet::law_packet_roundtrip(packets.last());
        assert(rest_of(head) + tail =~= tail);
        assert(tail.subrange(0, 8) =~= tail);
        assert(packets_in(tail) =~= seq![packets.last()]);
        assert(packets_in(wire_of(packets)) =~= packets);
    }
}

/// However much of a chunk goes out, what was sent and what is left are the
/// queue, in order.
pub proof fn law_flushing_keeps_the_order(queue: Seq<u8>, n: int)
    requires
        0 <= n <= queue.len(),
        n <= WRITE_CHUNK,
    ensures
        chunk_of(queue).take(n) + queue.skip(n) == queue,
{
    let chunk = chunk_of(queue);
    assert(chunk.take(n) =~= queue.take(n));
    assert(queue.take(n) + queue.skip(n) =~= queue);
}

/// A master transfer that was started is not started again before it is
/// answered or refused.
pub proof fn law_master_starts_once(state: LinkStateView, retry: Option<u64>, now: u64, later: u64)
    requires
        master_due(state, retry, now),
    ensures
        !master_due(LinkStateView { master_waiting: true, ..state }, retry, later),
{
}

/// A refused transfer is due again exactly from the retry moment on.
pub proof fn law_refused_transfer_is_due_again(
    state: LinkStateView,
    clock: ExternalClockPending,
    ready: Option<u8>,
    retry: Option<u64>,
    now: u64,
    later: u64,
)
    requires
        state.master_outgoing is Some,
    ensures
        ({
            let effect = PacketEffect::of(
                crate::network_link::state::retry_packet(),
                state,
                clock,
                ready,
                retry,
                now,
            );
            master_due(effect.state, effect.retry, later) == (later >= after(
                now,
                crate::network_link::state::MASTER_RETRY_INTERVAL,
            ))
        }),
{
}

/// Packets keep the state well-formed, however many come.
pub proof fn law_batch_keeps_state_wf(
    packets: Seq<BgbPacket>,
    state: LinkStateView,
    clock: ExternalClockPending,
    ready: Option<u8>,
    retry: Option<u64>,
    now: u64,
)
    requires
        state.wf(),
    ensures
        BatchEffect::of(packets, state, clock, ready, retry, now).state.wf(),
    decreases packets.len(),
{
    if packets.len() != 0 {
        law_batch_keeps_state_wf(packets.drop_last(), state, clock, ready, retry, now);
    }
}

} // verus!
