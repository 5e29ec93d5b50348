//! The state of a link connection, and what packets and transfers do to it.

use crate::network_link::packet::{
    bgb_sync1_control_to_dot_cycles_per_bit, bgb_sync1_control_value, control_dots, control_value,
    sanitize_sync1_control, sanitized_control, BgbPacket, CMD_JOYPAD, CMD_STATUS, CMD_SYNC1,
    CMD_SYNC2, CMD_SYNC3, CMD_VERSION, CMD_WANTDISCONNECT, STATUS_PAUSED, STATUS_SUPPORT_RECONNECT,
};
use crate::serial::SerialTransferClock;
use std::collections::VecDeque;
use vstd::prelude::*;

verus! {

/// How long a blocking transfer waits for its partner, in nanoseconds.
pub const LINK_TRANSFER_TIMEOUT: u64 = 1_000_000_000;

/// How long a refused master waits before it asks again, in nanoseconds.
pub const MASTER_RETRY_INTERVAL: u64 = 16_000_000;

/// Pace of an external clock for which the peer asked no other.
pub const DEFAULT_EXTERNAL_DOT_CYCLES_PER_BIT: u32 = 512;

/// What the program asks of the link.
pub enum LinkCommand {
    Listen { port: u16 },
    Connect { host: String, port: u16 },
    Disconnect,
    NotifyPause,
    NotifyResume,
    Shutdown,
}

impl LinkCommand {
    /// Whether a command ends the connection that there is.
    pub open spec fn ends_connection(self) -> bool {
        !(self is NotifyPause || self is NotifyResume)
    }
}

/// What the link reports to the program.
#[derive(Clone, Debug)]
pub enum LinkEvent {
    Listening { port: u16 },
    Connected,
    Disconnected,
    RemotePaused,
    RemoteResumed,
    SlaveTransferReady,
    Error(String),
}

/// An external-clock transfer that waits to be clocked by the emulation, and
/// its pace.
#[derive(Clone, Copy, Debug, PartialEq, Eq, Structural)]
pub struct ExternalClockPending {
    pub pending: bool,
    pub dot_cycles_per_bit: u32,
}

impl ExternalClockPending {
    /// Nothing pending, at the default pace.
    pub open spec fn idle() -> Self {
        ExternalClockPending {
            pending: false,
            dot_cycles_per_bit: DEFAULT_EXTERNAL_DOT_CYCLES_PER_BIT,
        }
    }

    pub fn is_pending(&self) -> (pending: bool)
        ensures
            pending == self.pending,
    {
        self.pending
    }

    pub fn dot_cycles_per_bit(&self) -> (dots: u32)
        ensures
            dots == self.dot_cycles_per_bit,
    {
        self.dot_cycles_per_bit
    }

    /// A transfer that waits to be clocked at the given pace.
    pub open spec fn waiting(dot_cycles_per_bit: u32) -> Self {
        ExternalClockPending {
            pending: true,
            dot_cycles_per_bit: if dot_cycles_per_bit == 0 {
                1
            } else {
                dot_cycles_per_bit
            },
        }
    }

    /// A pace of zero counts as one.
    pub fn mark_pending(&mut self, dot_cycles_per_bit: u32)
        ensures
            *final(self) == Self::waiting(dot_cycles_per_bit),
    {
        self.dot_cycles_per_bit =
        if dot_cycles_per_bit < 1 {
            1
        } else {
            dot_cycles_per_bit
        };
        self.pending = true;
    }

    pub fn clear(&mut self)
        ensures
            *final(self) == Self::idle(),
    {
        self.pending = false;
        self.dot_cycles_per_bit = DEFAULT_EXTERNAL_DOT_CYCLES_PER_BIT;
    }
}

impl Default for ExternalClockPending {
    fn default() -> (clock: Self)
        ensures
            clock == Self::idle(),
    {
        Self { pending: false, dot_cycles_per_bit: DEFAULT_EXTERNAL_DOT_CYCLES_PER_BIT }
    }
}

/// Timestamp of a transfer that waits for its answer.
#[derive(Clone, Copy, Debug, PartialEq, Eq, Structural)]
pub struct PendingTimestamp(pub u32);

impl Default for PendingTimestamp {
    fn default() -> (timestamp: Self)
        ensures
            timestamp.0 == 0,
    {
        Self(0)
    }
}

/// The byte with which the emulation is ready to answer an external clock, or
/// [`SlaveReadyState::NOT_READY`].
#[derive(Clone, Copy, Debug, PartialEq, Eq, Structural)]
pub struct SlaveReadyState(pub u32);

impl SlaveReadyState {
    /// The value without a byte.
    pub const NOT_READY: u32 = u32::MAX;

    /// The byte to answer with, if there is one.
    pub open spec fn ready_byte(self) -> Option<u8> {
        if self.0 == Self::NOT_READY {
            None
        } else {
            Some((self.0 as int % 0x100) as u8)
        }
    }

    pub fn set_ready(&mut self, outgoing_byte: u8)
        ensures
            final(self).0 == outgoing_byte,
            final(self).ready_byte() == Some(outgoing_byte),
    {
        self.0 = outgoing_byte as u32;
    }

    pub fn set_not_ready(&mut self)
        ensures
            final(self).0 == Self::NOT_READY,
            final(self).ready_byte() is None,
    {
        self.0 = Self::NOT_READY;
    }

    pub fn get_ready_byte(&self) -> (byte: Option<u8>)
        ensures
            byte == self.ready_byte(),
    {
        if self.0 == Self::NOT_READY {
            None
        } else {
            Some((self.0 % 0x100) as u8)
        }
    }
}

impl Default for SlaveReadyState {
    fn default() -> (ready: Self)
        ensures
            ready.ready_byte() is None,
    {
        Self(Self::NOT_READY)
    }
}

/// Unified state for the link connection.
pub struct LinkState {
    pub connected: bool,
    pub remote_paused: bool,

    // Master transfer state (we are sending with internal clock)
    pub master_outgoing: Option<u8>,
    pub master_response: Option<u8>,
    pub master_waiting: bool,
    pub master_control: u8,

    // Slave transfer state (we are responding with external clock)
    pub slave_incoming: Option<u8>,
    pub slave_outgoing: Option<u8>,
    pub slave_complete: bool,

    pub slave_queue: VecDeque<u8>,
    pub last_remote_sync3_timestamp: Option<u32>,
    pub remote_supports_reconnect: bool,
}

/// What a [`LinkState`] holds.
pub struct LinkStateView {
    pub connected: bool,
    pub remote_paused: bool,
    /// The byte that we are to send as master.
    pub master_outgoing: Option<u8>,
    /// The peer's answer to it.
    pub master_response: Option<u8>,
    /// A SYNC1 of ours is on its way and not answered yet.
    pub master_waiting: bool,
    pub master_control: u8,
    pub slave_incoming: Option<u8>,
    /// The byte that we answered as slave.
    pub slave_outgoing: Option<u8>,
    pub slave_complete: bool,
    /// Bytes of the peer that the emulation has not taken yet.
    pub slave_queue: Seq<u8>,
    pub last_remote_sync3_timestamp: Option<u32>,
    pub remote_supports_reconnect: bool,
}

/// The first of a queue, if there is one.
pub open spec fn front(queue: Seq<u8>) -> Option<u8> {
    if queue.len() == 0 {
        None
    } else {
        Some(queue[0])
    }
}

impl LinkStateView {
    /// The peer's bytes are taken one by one: at most one waits, and the slave
    /// fields show it.
    pub open spec fn wf(self) -> bool {
        &&& self.slave_queue.len() <= 1
        &&& self.slave_incoming == front(self.slave_queue)
        &&& self.slave_complete == (self.slave_queue.len() != 0)
    }

    /// The state with a connection, to a peer that told us this in the handshake.
    pub open spec fn opened(self, remote_paused: bool, remote_supports_reconnect: bool) -> Self {
        LinkStateView { connected: true, remote_paused, remote_supports_reconnect, ..self }
    }

    /// Whether a byte of the peer is taken in, and the state after it.
    pub open spec fn slave_queued(self, byte: u8) -> (bool, Self) {
        if self.slave_queue.len() == 0 {
            (true, self.with_slave_queue(seq![byte]))
        } else {
            (false, self)
        }
    }

    /// What an external-clock transfer reads now.
    pub open spec fn slave_answer(self) -> Option<u8> {
        if self.slave_queue.len() != 0 {
            front(self.slave_queue)
        } else if !self.connected {
            Some(0xFF)
        } else {
            None
        }
    }

    /// What a look at a blocking transfer of `byte` leads to, `elapsed` nanoseconds
    /// after it began, and the state after it.
    pub open spec fn transfer_polled(self, byte: u8, elapsed: u64) -> (TransferStep, Self) {
        let tried = self.master_tried(
            byte,
            SerialTransferClock { high_speed: false, double_speed: false },
        );
        match self.master_answer() {
            Some(answer) => (TransferStep::Done(answer), tried),
            None => if elapsed > LINK_TRANSFER_TIMEOUT {
                (TransferStep::Done(0xFF), tried.master_abandoned())
            } else {
                (TransferStep::Wait, tried)
            },
        }
    }

    /// No connection and nothing under way.
    pub open spec fn initial() -> Self {
        LinkStateView {
            connected: false,
            remote_paused: false,
            master_outgoing: None,
            master_response: None,
            master_waiting: false,
            master_control: 0,
            slave_incoming: None,
            slave_outgoing: None,
            slave_complete: false,
            slave_queue: Seq::empty(),
            last_remote_sync3_timestamp: None,
            remote_supports_reconnect: false,
        }
    }

    /// Nothing under way; the connection stays.
    pub open spec fn cleared(self) -> Self {
        LinkStateView {
            connected: self.connected,
            remote_paused: self.remote_paused,
            remote_supports_reconnect: self.remote_supports_reconnect,
            ..Self::initial()
        }
    }

    /// The state with `queue` in place of the slave queue.
    pub open spec fn with_slave_queue(self, queue: Seq<u8>) -> Self {
        LinkStateView {
            slave_queue: queue,
            slave_incoming: front(queue),
            slave_complete: queue.len() != 0,
            ..self
        }
    }

    /// The state once the emulation has taken the oldest byte of the peer.
    pub open spec fn slave_popped(self) -> Self {
        let rest = if self.slave_queue.len() == 0 {
            self.slave_queue
        } else {
            self.slave_queue.drop_first()
        };
        LinkStateView {
            slave_outgoing: if rest.len() == 0 {
                None
            } else {
                self.slave_outgoing
            },
            ..self.with_slave_queue(rest)
        }
    }

    /// What a master transfer of `byte` at the given rate is answered now, if
    /// the answer is there: the peer's byte, or 0xFF without a connection.
    pub open spec fn master_answer(self) -> Option<u8> {
        if self.master_response is Some {
            self.master_response
        } else if !self.connected {
            Some(0xFF)
        } else {
            None
        }
    }

    /// The state after a master transfer of `byte` was asked for.
    pub open spec fn master_tried(self, byte: u8, clock: SerialTransferClock) -> Self {
        if self.master_answer() is Some {
            LinkStateView {
                master_response: None,
                master_waiting: false,
                master_outgoing: None,
                ..self
            }
        } else if self.master_waiting {
            self
        } else {
            LinkStateView {
                master_control: control_value(clock.high_speed, clock.double_speed) as u8,
                master_outgoing: Some(byte),
                ..self
            }
        }
    }

    /// The state after a master transfer was given up.
    pub open spec fn master_abandoned(self) -> Self {
        LinkStateView {
            master_waiting: false,
            master_outgoing: None,
            master_response: None,
            ..self
        }
    }
}

impl View for LinkState {
    type V = LinkStateView;

    open spec fn view(&self) -> LinkStateView {
        LinkStateView {
            connected: self.connected,
            remote_paused: self.remote_paused,
            master_outgoing: self.master_outgoing,
            master_response: self.master_response,
            master_waiting: self.master_waiting,
            master_control: self.master_control,
            slave_incoming: self.slave_incoming,
            slave_outgoing: self.slave_outgoing,
            slave_complete: self.slave_complete,
            slave_queue: self.slave_queue@,
            last_remote_sync3_timestamp: self.last_remote_sync3_timestamp,
            remote_supports_reconnect: self.remote_supports_reconnect,
        }
    }
}

impl Default for LinkState {
    fn default() -> (state: Self)
        ensures
            state@ == LinkStateView::initial(),
    {
        Self {
            connected: false,
            remote_paused: false,
            master_outgoing: None,
            master_response: None,
            master_waiting: false,
            master_control: 0,
            slave_incoming: None,
            slave_outgoing: None,
            slave_complete: false,
            slave_queue: VecDeque::new(),
            last_remote_sync3_timestamp: None,
            remote_supports_reconnect: false,
        }
    }
}

/// What became of a blocking transfer that was polled.
#[derive(Clone, Copy, Debug, PartialEq, Eq, Structural)]
pub enum TransferStep {
    /// The transfer is over, with this byte from the peer.
    Done(u8),
    /// No answer yet: poll again later.
    Wait,
}

impl LinkState {
    /// Show the oldest waiting byte in the slave fields.
    fn refresh_slave_fields(&mut self)
        ensures
            final(self)@ == old(self)@.with_slave_queue(old(self)@.slave_queue),
    {
        if self.slave_queue.len() == 0 {
            self.slave_incoming = None;
            self.slave_complete = false;
        } else {
            self.slave_incoming = Some(self.slave_queue[0]);
            self.slave_complete = true;
        }
    }

    /// Keep slave transfers strictly lockstepped: do not accept a new byte
    /// until the previous one has been consumed by the emulation thread.
    pub fn queue_slave_incoming(&mut self, byte: u8) -> (accepted: bool)
        ensures
            (accepted, final(self)@) == old(self)@.slave_queued(byte),
    {
        if self.slave_queue.len() != 0 {
            return false;
        }
        self.slave_queue.push_back(byte);
        proof {
            assert(self.slave_queue@ =~= seq![byte]);
        }
        self.refresh_slave_fields();
        true
    }

    pub fn pop_slave_incoming(&mut self) -> (incoming: Option<u8>)
        ensures
            incoming == front(old(self)@.slave_queue),
            final(self)@ == old(self)@.slave_popped(),
    {
        let incoming = self.slave_queue.pop_front();
        self.refresh_slave_fields();
        if !self.slave_complete {
            self.slave_outgoing = None;
        }
        proof {
            assert(self@.slave_queue =~= old(self)@.slave_popped().slave_queue);
        }
        incoming
    }

    pub fn clear_queues(&mut self)
        ensures
            final(self)@ == old(self)@.cleared(),
    {
        self.master_outgoing = None;
        self.master_response = None;
        self.master_waiting = false;
        self.master_control = 0;
        self.slave_incoming = None;
        self.slave_outgoing = None;
        self.slave_complete = false;
        self.slave_queue.clear();
        self.last_remote_sync3_timestamp = None;
    }

    /// Ask for a master transfer of `byte`. Returns the peer's byte once it is
    /// there; until then, call again with the byte.
    pub fn try_transfer_with_clock(&mut self, byte: u8, clock: SerialTransferClock) -> (answer:
        Option<u8>)
        ensures
            answer == old(self)@.master_answer(),
            final(self)@ == old(self)@.master_tried(byte, clock),
    {
        if let Some(response) = self.master_response.take() {
            self.master_waiting = false;
            self.master_outgoing = None;
            return Some(response);
        }
        if !self.connected {
            self.master_waiting = false;
            self.master_outgoing = None;
            return Some(0xFF);
        }
        if self.master_waiting {
            return None;
        }
        let control: u8 = bgb_sync1_control_value(clock.high_speed, clock.double_speed);
        proof {
            crate::network_link::packet::law_announced_rate_is_read_back(
                clock.high_speed,
                clock.double_speed,
                control,
            );
        }
        self.master_control = sanitize_sync1_control(control);
        // A restart request carries the latest byte.
        self.master_outgoing = Some(byte);
        None
    }

    /// [`Self::try_transfer_with_clock`] at the normal rate.
    pub fn try_transfer(&mut self, byte: u8) -> (answer: Option<u8>)
        ensures
            answer == old(self)@.master_answer(),
            final(self)@ == old(self)@.master_tried(
                byte,
                SerialTransferClock { high_speed: false, double_speed: false },
            ),
    {
        let clock: SerialTransferClock = SerialTransferClock::default();
        self.try_transfer_with_clock(byte, clock)
    }

    /// Ask for the byte of an external-clock transfer: the oldest one that the
    /// peer sent, or 0xFF without a connection.
    pub fn try_external_transfer(&mut self, _byte: u8) -> (answer: Option<u8>)
        ensures
            final(self)@ == old(self)@.slave_popped(),
            answer == old(self)@.slave_answer(),
    {
        let incoming = self.pop_slave_incoming();
        if incoming.is_some() {
            return incoming;
        }
        if !self.connected {
            return Some(0xFF);
        }
        None
    }

    /// Poll a blocking transfer that has been under way for `elapsed`
    /// nanoseconds. Past the timeout it is given up and reads 0xFF.
    pub fn poll_transfer(&mut self, byte: u8, elapsed: u64) -> (step: TransferStep)
        ensures
            (step, final(self)@) == old(self)@.transfer_polled(byte, elapsed),
    {
        match self.try_transfer(byte) {
            Some(answer) => TransferStep::Done(answer),
            None => {
                if elapsed > LINK_TRANSFER_TIMEOUT {
                    self.master_waiting = false;
                    self.master_outgoing = None;
                    self.master_response = None;
                    TransferStep::Done(0xFF)
                } else {
                    TransferStep::Wait
                }
            },
        }
    }
}

/// Append a packet to what is to be sent.
pub fn queue_packet(tx_queue: &mut VecDeque<u8>, packet: BgbPacket)
    ensures
        final(tx_queue)@ == old(tx_queue)@ + packet.bytes(),
{
    let bytes = packet.to_bytes();
    let mut i: usize = 0;
    while i < 8
        invariant
            i <= 8,
            bytes@ == packet.bytes(),
            bytes@.len() == 8,
            tx_queue@ == old(tx_queue)@ + bytes@.subrange(0, i as int),
        decreases 8 - i,
    {
        tx_queue.push_back(bytes[i]);
        i = i + 1;
        proof {
            assert(bytes@.subrange(0, i as int) =~= bytes@.subrange(0, i - 1).push(bytes[i - 1]));
        }
    }
    proof {
        assert(bytes@.subrange(0, 8) =~= bytes@);
    }
}

/// What a packet is answered that came before there is any state.
pub open spec fn reply_without_state(packet: BgbPacket) -> Option<BgbPacket> {
    if packet.b1 == CMD_SYNC3 && packet.b2 != 1 {
        Some(timestamp_packet(packet.i1))
    } else {
        None
    }
}

/// End a connection: nothing stays of it.
pub fn disconnect(state: &mut LinkState, external_clock_pending: &mut ExternalClockPending)
    ensures
        final(state)@ == LinkStateView::initial(),
        *final(external_clock_pending) == ExternalClockPending::idle(),
{
    external_clock_pending.clear();
    state.connected = false;
    state.remote_paused = false;
    state.remote_supports_reconnect = false;
    state.clear_queues();
}

/// What a packet does: the state after it, and what it makes us send and
/// report.
pub struct PacketEffect {
    pub state: LinkStateView,
    pub clock: ExternalClockPending,
    /// Until when a refused master transfer rests.
    pub retry: Option<u64>,
    pub reply: Option<BgbPacket>,
    pub event: Option<LinkEvent>,
}

impl PacketEffect {
    /// A packet that does nothing.
    pub open spec fn none(
        state: LinkStateView,
        clock: ExternalClockPending,
        retry: Option<u64>,
    ) -> Self {
        PacketEffect { state, clock, retry, reply: None, event: None }
    }

    /// STATUS: the peer's flags are kept; a change of its pause is reported.
    pub open spec fn status(
        packet: BgbPacket,
        state: LinkStateView,
        clock: ExternalClockPending,
        retry: Option<u64>,
    ) -> Self {
        PacketEffect {
            state: LinkStateView {
                remote_paused: packet.says_paused(),
                remote_supports_reconnect: packet.says_support_reconnect(),
                ..state
            },
            event: if state.remote_paused == packet.says_paused() {
                None
            } else if packet.says_paused() {
                Some(LinkEvent::RemotePaused)
            } else {
                Some(LinkEvent::RemoteResumed)
            },
            ..Self::none(state, clock, retry)
        }
    }

    /// SYNC1: the peer starts a transfer.
    ///
    /// While a SYNC1 of our own is on its way the two collide: each side takes
    /// the other's byte as the answer to its own. Else, if the emulation is
    /// ready and has no earlier transfer under way, it answers with its byte.
    /// Else the peer is asked to try again.
    pub open spec fn sync1(
        packet: BgbPacket,
        state: LinkStateView,
        clock: ExternalClockPending,
        ready: Option<u8>,
        retry: Option<u64>,
    ) -> Self {
        if state.master_waiting {
            PacketEffect {
                state: LinkStateView {
                    master_outgoing: None,
                    master_waiting: false,
                    master_response: Some(packet.b2),
                    ..state
                },
                retry: None,
                reply: Some(
                    answer_packet(
                        match state.master_outgoing {
                            Some(outgoing) => outgoing,
                            None => 0xFF,
                        },
                    ),
                ),
                ..Self::none(state, clock, retry)
            }
        } else if ready is Some && !clock.pending && !state.slave_complete
            && state.slave_queue.len() == 0 {
            PacketEffect {
                state: LinkStateView {
                    slave_outgoing: ready,
                    ..state.with_slave_queue(seq![packet.b2])
                },
                clock: ExternalClockPending {
                    pending: true,
                    dot_cycles_per_bit: control_dots(packet.b3) as u32,
                },
                reply: Some(answer_packet(ready->0)),
                event: Some(LinkEvent::SlaveTransferReady),
                ..Self::none(state, clock, retry)
            }
        } else {
            PacketEffect {
                reply: Some(retry_packet()),
                ..Self::none(state, clock, retry)
            }
        }
    }

    /// SYNC2: the answer to our SYNC1; stray ones are ignored.
    pub open spec fn sync2(
        packet: BgbPacket,
        state: LinkStateView,
        clock: ExternalClockPending,
        retry: Option<u64>,
    ) -> Self {
        if state.master_waiting {
            PacketEffect {
                state: LinkStateView {
                    master_response: Some(packet.b2),
                    master_outgoing: None,
                    master_waiting: false,
                    ..state
                },
                retry: None,
                ..Self::none(state, clock, retry)
            }
        } else {
            Self::none(state, clock, retry)
        }
    }

    /// SYNC3: the peer is not ready, so our transfer rests for a while; or it
    /// tells its time, which is echoed once for each new timestamp.
    pub open spec fn sync3(
        packet: BgbPacket,
        state: LinkStateView,
        clock: ExternalClockPending,
        retry: Option<u64>,
        now: u64,
    ) -> Self {
        if packet.b2 == 1 {
            PacketEffect {
                state: LinkStateView { master_waiting: false, ..state },
                retry: if state.master_outgoing is Some {
                    Some(after(now, MASTER_RETRY_INTERVAL))
                } else {
                    retry
                },
                ..Self::none(state, clock, retry)
            }
        } else {
            PacketEffect {
                state: LinkStateView { last_remote_sync3_timestamp: Some(packet.i1), ..state },
                reply: if state.last_remote_sync3_timestamp == Some(packet.i1) {
                    None
                } else {
                    Some(timestamp_packet(packet.i1))
                },
                ..Self::none(state, clock, retry)
            }
        }
    }

    pub open spec fn of(
        packet: BgbPacket,
        state: LinkStateView,
        clock: ExternalClockPending,
        ready: Option<u8>,
        retry: Option<u64>,
        now: u64,
    ) -> Self {
        if packet.b1 == CMD_STATUS {
            Self::status(packet, state, clock, retry)
        } else if packet.b1 == CMD_SYNC1 {
            Self::sync1(packet, state, clock, ready, retry)
        } else if packet.b1 == CMD_SYNC2 {
            Self::sync2(packet, state, clock, retry)
        } else if packet.b1 == CMD_SYNC3 {
            Self::sync3(packet, state, clock, retry, now)
        } else {
            Self::none(state, clock, retry)
        }
    }
}

/// The SYNC2 that answers a SYNC1.
pub open spec fn answer_packet(data: u8) -> BgbPacket {
    BgbPacket { b1: CMD_SYNC2, b2: data, b3: 0x80, b4: 1, i1: 0 }
}

/// The SYNC3 that asks the master to try again later.
pub open spec fn retry_packet() -> BgbPacket {
    BgbPacket { b1: CMD_SYNC3, b2: 1, b3: 0, b4: 0, i1: 0 }
}

/// The SYNC3 that tells the time.
pub open spec fn timestamp_packet(timestamp: u32) -> BgbPacket {
    BgbPacket { b1: CMD_SYNC3, b2: 0, b3: 0, b4: 0, i1: (timestamp as int % 0x8000_0000) as u32 }
}

/// The moment `interval` nanoseconds after `now`, or the end of time.
pub open spec fn after(now: u64, interval: u64) -> u64 {
    if now + interval > u64::MAX {
        u64::MAX
    } else {
        (now + interval) as u64
    }
}

/// The bytes of a packet, if there is one.
pub open spec fn packet_bytes(packet: Option<BgbPacket>) -> Seq<u8> {
    match packet {
        Some(packet) => packet.bytes(),
        None => Seq::empty(),
    }
}

/// Act on a packet of the peer. What it makes us send is appended to
/// `tx_queue`; what it makes us report is returned.
pub fn handle_packet(
    packet: BgbPacket,
    state: &mut LinkState,
    external_clock_pending: &mut ExternalClockPending,
    slave_ready: &SlaveReadyState,
    master_retry_not_before: &mut Option<u64>,
    now: u64,
    tx_queue: &mut VecDeque<u8>,
) -> (event: Option<LinkEvent>)
    ensures
        ({
            let effect = PacketEffect::of(
                packet,
                old(state)@,
                *old(external_clock_pending),
                slave_ready.ready_byte(),
                *old(master_retry_not_before),
                now,
            );
            &&& final(state)@ == effect.state
            &&& *final(external_clock_pending) == effect.clock
            &&& *final(master_retry_not_before) == effect.retry
            &&& final(tx_queue)@ == old(tx_queue)@ + packet_bytes(effect.reply)
            &&& event == effect.event
        }),
{
    let mut event: Option<LinkEvent> = None;
    let mut reply: Option<BgbPacket> = None;
    match packet.b1 {
        CMD_STATUS => {
            let paused = (packet.b2 & STATUS_PAUSED) != 0;
            let support_reconnect = (packet.b2 & STATUS_SUPPORT_RECONNECT) != 0;
            if state.remote_paused != paused {
                state.remote_paused = paused;
                event =
                Some(
                    if paused {
                        LinkEvent::RemotePaused
                    } else {
                        LinkEvent::RemoteResumed
                    },
                );
            }
            state.remote_supports_reconnect = support_reconnect;
        },
        CMD_SYNC1 => {
            let incoming: u8 = packet.b2;
            let dot_cycles_per_bit: u32 = bgb_sync1_control_to_dot_cycles_per_bit(packet.b3);
            let slave_busy = external_clock_pending.is_pending();
            if state.master_waiting {
                // Collision: both sides attempted active transfer. Resolve by
                // using their SYNC1 byte as our response, and reply with our
                // pending outgoing byte as SYNC2.
                let outgoing: u8 = state.master_outgoing.take().unwrap_or(0xFF);
                state.master_waiting = false;
                state.master_response = Some(incoming);
                *master_retry_not_before = None;
                reply = Some(BgbPacket::sync2(outgoing, true));
            } else if slave_busy || state.slave_complete {
                // Keep transfers in lockstep: while a previous external
                // transfer is still pending/in-flight, ask the master to
                // retry later instead of queueing ahead.
                reply = Some(BgbPacket::sync3_ack());
            } else if let Some(outgoing) = slave_ready.get_ready_byte() {
                if state.queue_slave_incoming(incoming) {
                    state.slave_outgoing = Some(outgoing);
                    reply = Some(BgbPacket::sync2(outgoing, true));
                    external_clock_pending.mark_pending(dot_cycles_per_bit);
                    event = Some(LinkEvent::SlaveTransferReady);
                } else {
                    reply = Some(BgbPacket::sync3_ack());
                }
            } else {
                // Passive side not ready yet; ask master to retry.
                reply = Some(BgbPacket::sync3_ack());
            }
        },
        CMD_SYNC2 => {
            // SYNC2 is only valid as a response to our in-flight SYNC1.
            // Anything else is stale/stray traffic.
            if state.master_waiting {
                state.master_response = Some(packet.b2);
                state.master_outgoing = None;
                state.master_waiting = false;
                *master_retry_not_before = None;
            }
        },
        CMD_SYNC3 => {
            if packet.b2 == 1 {
                // Peer is not in passive transfer mode. Retry the pending master
                // transfer later with BGB-like pacing instead of busy-looping.
                if state.master_outgoing.is_some() {
                    *master_retry_not_before = Some(now.saturating_add(MASTER_RETRY_INTERVAL));
                }
                state.master_waiting = false;
            } else {
                // BGB expects timestamp sync packets to be acknowledged with
                // a timestamp sync packet in return. De-duplicate by remote
                // timestamp value to avoid ping-pong loops on echoed packets.
                let is_new = match state.last_remote_sync3_timestamp {
                    Some(last) => last != packet.i1,
                    None => true,
                };
                state.last_remote_sync3_timestamp = Some(packet.i1);
                if is_new {
                    reply = Some(BgbPacket::sync3_timestamp(packet.i1));
                }
            }
        },
        // A late VERSION, joypad remote control, the announcement of a
        // disconnect and unknown commands are ignored.
        CMD_VERSION | CMD_JOYPAD | CMD_WANTDISCONNECT => {},
        _ => {},
    }
    match reply {
        Some(packet) => queue_packet(tx_queue, packet),
        None => {
            proof {
                assert(tx_queue@ =~= old(tx_queue)@ + Seq::<u8>::empty());
            }
        },
    }
    event
}

/// Answer a packet when the state of the connection cannot be had: only
/// timestamps are echoed.
pub fn handle_packet_without_state(packet: BgbPacket, tx_queue: &mut VecDeque<u8>)
    ensures
        final(tx_queue)@ == old(tx_queue)@ + packet_bytes(reply_without_state(packet)),
{
    if packet.b1 == CMD_SYNC3 && packet.b2 != 1 {
        queue_packet(tx_queue, BgbPacket::sync3_timestamp(packet.i1));
    }
}

/// Packets, transfers and the emulation keep the state well-formed.
pub proof fn law_state_stays_wf(
    packet: BgbPacket,
    state: LinkStateView,
    clock: ExternalClockPending,
    ready: Option<u8>,
    retry: Option<u64>,
    now: u64,
    byte: u8,
    rate: SerialTransferClock,
)
    requires
        state.wf(),
    ensures
        LinkStateView::initial().wf(),
        PacketEffect::of(packet, state, clock, ready, retry, now).state.wf(),
        state.master_tried(byte, rate).wf(),
        state.master_abandoned().wf(),
        state.slave_popped().wf(),
        state.cleared().wf(),
{
}

/// Every SYNC1 gets exactly one answer. Without a SYNC1 of our own under way it
/// is the byte of the emulation, at once, if the emulation is ready and idle,
/// and a request to try again only if it is not.
pub proof fn law_sync1_is_answered(
    packet: BgbPacket,
    state: LinkStateView,
    clock: ExternalClockPending,
    ready: Option<u8>,
    retry: Option<u64>,
    now: u64,
)
    requires
        packet.b1 == CMD_SYNC1,
        state.wf(),
    ensures
        ({
            let effect = PacketEffect::of(packet, state, clock, ready, retry, now);
            &&& effect.reply is Some
            &&& !state.master_waiting && ready is Some && !clock.pending && !state.slave_complete
                ==> effect.reply == Some(answer_packet(ready->0))
            &&& !state.master_waiting && !(ready is Some && !clock.pending && !state.slave_complete)
                ==> effect.reply == Some(retry_packet()) && effect.state == state && effect.clock
                == clock
        }),
{
}

/// A transfer over the link: the slave, ready with `y`, gets the master's SYNC1
/// of `x` and answers; the master gets the answer. Then the master's transfer
/// reads `y` and the slave's reads `x`, at the pace that the master asked for.
pub proof fn law_transfer_exchanges_bytes(
    master: LinkStateView,
    slave: LinkStateView,
    x: u8,
    y: u8,
    control: u8,
    timestamp: u32,
    clock: ExternalClockPending,
    now: u64,
)
    requires
        master.master_waiting,
        slave.wf(),
        !slave.master_waiting,
        !slave.slave_complete,
        !clock.pending,
    ensures
        ({
            let sync1 = BgbPacket {
                b1: CMD_SYNC1,
                b2: x,
                b3: sanitized_control(control),
                b4: 0,
                i1: timestamp,
            };
            let at_slave = PacketEffect::of(sync1, slave, clock, Some(y), None, now);
            let at_master = PacketEffect::of(
                at_slave.reply->0,
                master,
                ExternalClockPending::idle(),
                None,
                None,
                now,
            );
            &&& at_slave.reply is Some
            &&& at_master.state.master_answer() == Some(y)
            &&& at_master.reply is None
            &&& front(at_slave.state.slave_queue) == Some(x)
            &&& at_slave.clock.pending
            &&& at_slave.clock.dot_cycles_per_bit == control_dots(control)
            &&& at_slave.event == Some(LinkEvent::SlaveTransferReady)
        }),
{
    crate::network_link::packet::law_sanitizing_keeps_the_rate(control);
}

/// Two masters that start at the same time exchange their bytes, and the
/// answers that cross afterwards change nothing.
pub proof fn law_collision_exchanges_bytes(
    left: LinkStateView,
    right: LinkStateView,
    x: u8,
    y: u8,
    control: u8,
    timestamp: u32,
    clock: ExternalClockPending,
    ready: Option<u8>,
    now: u64,
)
    requires
        left.master_waiting,
        left.master_outgoing == Some(x),
        right.master_waiting,
        right.master_outgoing == Some(y),
    ensures
        ({
            let from_left = BgbPacket {
                b1: CMD_SYNC1,
                b2: x,
                b3: control,
                b4: 0,
                i1: timestamp,
            };
            let from_right = BgbPacket { b2: y, ..from_left };
            let at_left = PacketEffect::of(from_right, left, clock, ready, None, now);
            let at_right = PacketEffect::of(from_left, right, clock, ready, None, now);
            let late_left = PacketEffect::of(
                at_right.reply->0,
                at_left.state,
                clock,
                ready,
                None,
                now,
            );
            &&& at_left.state.master_answer() == Some(y)
            &&& at_right.state.master_answer() == Some(x)
            &&& at_left.reply == Some(answer_packet(x))
            &&& at_right.reply == Some(answer_packet(y))
            &&& late_left.state == at_left.state
            &&& late_left.reply is None
        }),
{
}

/// A refused master keeps its byte, sends nothing more until the retry moment,
/// and has no answer yet.
pub proof fn law_refused_master_retries(
    state: LinkStateView,
    clock: ExternalClockPending,
    ready: Option<u8>,
    retry: Option<u64>,
    now: u64,
)
    requires
        state.master_outgoing is Some,
    ensures
        ({
            let effect = PacketEffect::of(retry_packet(), state, clock, ready, retry, now);
            &&& effect.state.master_outgoing == state.master_outgoing
            &&& effect.state.master_response == state.master_response
            &&& !effect.state.master_waiting
            &&& effect.retry == Some(after(now, MASTER_RETRY_INTERVAL))
            &&& effect.reply is None
        }),
{
}

/// A SYNC2 that answers nothing is ignored.
pub proof fn law_stray_sync2_is_ignored(
    packet: BgbPacket,
    state: LinkStateView,
    clock: ExternalClockPending,
    ready: Option<u8>,
    retry: Option<u64>,
    now: u64,
)
    requires
        packet.b1 == CMD_SYNC2,
        !state.master_waiting,
    ensures
        PacketEffect::of(packet, state, clock, ready, retry, now) == PacketEffect::none(
            state,
            clock,
            retry,
        ),
{
}

/// A timestamp is echoed when it is new, and not again when it comes twice.
pub proof fn law_timestamp_echoed_once(
    timestamp: u32,
    state: LinkStateView,
    clock: ExternalClockPending,
    ready: Option<u8>,
    retry: Option<u64>,
    now: u64,
)
    ensures
        ({
            let packet = BgbPacket { b1: CMD_SYNC3, b2: 0, b3: 0, b4: 0, i1: timestamp };
            let first = PacketEffect::of(packet, state, clock, ready, retry, now);
            let second = PacketEffect::of(packet, first.state, clock, ready, retry, now);
            &&& state.last_remote_sync3_timestamp != Some(timestamp) ==> first.reply == Some(
                timestamp_packet(timestamp),
            )
            &&& second.reply is None
            &&& second.state == first.state
        }),
{
}

/// Two peers that echo each other's timestamps fall silent: the echo of an echo
/// is not echoed.
pub proof fn law_timestamp_echo_stops(
    timestamp: u32,
    left: LinkStateView,
    right: LinkStateView,
    clock: ExternalClockPending,
    now: u64,
)
    requires
        timestamp < 0x8000_0000,
    ensures
        ({
            let told = timestamp_packet(timestamp);
            let echoed = PacketEffect::of(told, right, clock, None, None, now);
            let back = PacketEffect::of(told, left, clock, None, None, now);
            let again = PacketEffect::of(told, echoed.state, clock, None, None, now);
            &&& echoed.reply is None || echoed.reply == Some(told)
            &&& back.reply is None || back.reply == Some(told)
            &&& again.reply is None
        }),
{
}

/// Without a connection a transfer is answered at once: with what the peer sent
/// before, or with 0xFF.
pub proof fn law_disconnected_answers_at_once(state: LinkStateView)
    requires
        !state.connected,
    ensures
        state.master_answer() is Some,
        state.master_response is None ==> state.master_answer() == Some(0xFFu8),
        LinkStateView::initial().master_answer() == Some(0xFFu8),
{
}

} // verus!
