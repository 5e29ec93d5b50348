//! The serial port: the SB and SC registers, the transfer that they drive,
//! and the link cable behind it.
//!
//! SB and the byte coming in from the partner form one 16-bit shift register.
//! Each clock moves it one place to the left; after eight clocks SB holds the
//! partner's byte, the transfer is over and the serial interrupt is requested.

use crate::hardware::DmgRevision;
use vstd::prelude::*;

verus! {

/// The far end of the link cable.
pub trait LinkPort: Send {
    /// One call that sends `byte` may give `reply` and leave the port as
    /// `after`. A port that does not say so may answer anything.
    open spec fn answers(&self, byte: u8, reply: u8, after: &Self) -> bool {
        true
    }

    /// Transfer a byte over the link. Returns the byte received from the
    /// partner. Implementations may perform the transfer immediately.
    fn transfer(&mut self, byte: u8) -> (reply: u8)
        ensures
            old(self).answers(byte, reply, final(self)),
    ;
}

/// A stub link port used when no cable is attached.
/// By default it emulates a "line dead" scenario where incoming bits are all 1,
/// so any transfer receives 0xFF. When `loopback` is true the sent byte is
/// echoed back instead.
pub struct NullLinkPort {
    pub loopback: bool,
}

impl NullLinkPort {
    pub fn new(loopback: bool) -> (port: Self)
        ensures
            port.loopback == loopback,
    {
        Self { loopback }
    }
}

impl Default for NullLinkPort {
    fn default() -> (port: Self)
        ensures
            !port.loopback,
    {
        Self { loopback: false }
    }
}

impl LinkPort for NullLinkPort {
    open spec fn answers(&self, byte: u8, reply: u8, after: &Self) -> bool {
        &&& after == self
        &&& reply == if self.loopback {
            byte
        } else {
            0xFF
        }
    }

    fn transfer(&mut self, byte: u8) -> (reply: u8) {
        if self.loopback {
            byte
        } else {
            0xFF
        }
    }
}

/// Clock rate of a transfer, as the master announces it to its partner.
#[derive(Clone, Copy, Debug, PartialEq, Eq, Structural)]
pub struct SerialTransferClock {
    pub high_speed: bool,
    pub double_speed: bool,
}

impl Default for SerialTransferClock {
    fn default() -> (clock: Self)
        ensures
            !clock.high_speed,
            !clock.double_speed,
    {
        Self { high_speed: false, double_speed: false }
    }
}

/// Number of DIV increments (dots) between two clocks of an internal-clock
/// transfer.
pub open spec fn clock_period(cgb_mode: bool, double_speed: bool, fast_clock: bool) -> int {
    if cgb_mode && fast_clock {
        if double_speed {
            8
        } else {
            16
        }
    } else if double_speed {
        256
    } else {
        512
    }
}

/// Number of clocks that fall on the way when DIV counts from `prev_div` up to
/// `curr_div`, wrapping at 16 bits: one at each multiple of `period`.
pub open spec fn clocks_between(prev_div: u16, curr_div: u16, period: int) -> int {
    (prev_div + div_steps(prev_div, curr_div)) / period - prev_div as int / period
}

/// How many increments take DIV from `prev_div` to `curr_div`.
pub open spec fn div_steps(prev_div: u16, curr_div: u16) -> int {
    if curr_div >= prev_div {
        curr_div - prev_div
    } else {
        0x1_0000 + curr_div - prev_div
    }
}

/// The 16-bit shift register of SB and the incoming byte after `bits` clocks.
pub open spec fn shift_register(sb: u8, pending_in: u8, bits: u16) -> u16 {
    (((sb as u16) << 8u16) | (pending_in as u16)) << bits
}

/// A transfer in progress.
#[derive(Clone, Copy, Debug, PartialEq, Eq, Structural)]
pub struct TransferState {
    pub remaining_bits: u8,
    pub outgoing: u8,
    pub incoming: Option<u8>,
    pub pending_in: u8,
    pub internal_clock: bool,
    pub fast_clock: bool,
}

impl TransferState {
    /// A transfer has between one and eight bits to go, and none of them has
    /// gone before the partner's byte is known.
    pub open spec fn wf(self) -> bool {
        &&& 1 <= self.remaining_bits <= 8
        &&& self.incoming is None ==> self.remaining_bits == 8 && self.pending_in == 0
    }

    /// The transfer that a write of `sc` starts.
    pub open spec fn started(outgoing: u8, sc: u8) -> Self {
        TransferState {
            remaining_bits: 8,
            outgoing,
            incoming: None,
            pending_in: 0,
            internal_clock: sc & 0x01 != 0,
            fast_clock: sc & 0x02 != 0,
        }
    }

    /// The transfer once the partner's byte is known. The first byte stays.
    pub open spec fn latched(self, reply: u8) -> Self {
        if self.incoming is Some {
            self
        } else {
            TransferState { incoming: Some(reply), pending_in: reply, ..self }
        }
    }

    fn new(outgoing: u8, internal_clock: bool, fast_clock: bool) -> (state: Self)
        ensures
            state == (TransferState {
                remaining_bits: 8,
                outgoing,
                incoming: None,
                pending_in: 0,
                internal_clock,
                fast_clock,
            }),
    {
        Self {
            remaining_bits: 8,
            outgoing,
            incoming: None,
            pending_in: 0,
            internal_clock,
            fast_clock,
        }
    }

    fn latch_incoming(&mut self, incoming: u8)
        ensures
            *final(self) == old(self).latched(incoming),
    {
        if self.incoming.is_some() {
            return;
        }
        self.incoming = Some(incoming);
        self.pending_in = incoming;
    }

    /// Clock one bit. Returns true when none is left.
    fn shift(&mut self, sb: &mut u8) -> (done: bool)
        requires
            old(self).remaining_bits >= 1,
        ensures
            final(self).remaining_bits == old(self).remaining_bits - 1,
            *final(self) == (TransferState {
                remaining_bits: final(self).remaining_bits,
                pending_in: final(self).pending_in,
                ..*old(self)
            }),
            *final(sb) == shift_register(*old(sb), old(self).pending_in, 1) >> 8u16,
            final(self).pending_in == shift_register(*old(sb), old(self).pending_in, 1) & 0xFF,
            done == (final(self).remaining_bits == 0),
    {
        if self.remaining_bits == 0 {
            return true;
        }
        let pending: u8 = self.pending_in;
        let before: u8 = *sb;
        let incoming_bit = (self.pending_in & 0x80) != 0;
        self.pending_in = self.pending_in << 1;
        *sb = (*sb << 1) | (if incoming_bit { 1u8 } else { 0u8 });
        self.remaining_bits = self.remaining_bits - 1;
        proof {
            assert(((before << 1) | (if (pending & 0x80) != 0 { 1u8 } else { 0u8 })) as u16 == (((((
            before as u16) << 8u16) | (pending as u16)) << 1u16) >> 8u16)) by (bit_vector);
            assert((pending << 1) as u16 == ((((before as u16) << 8u16) | (pending as u16)) << 1u16)
                & 0xFF) by (bit_vector);
        }
        self.remaining_bits == 0
    }
}

/// What the registers and the output buffer of a [`Serial`] hold.
pub struct SerialView {
    pub sb: u8,
    pub sc: u8,
    /// The bytes sent by completed transfers, oldest first.
    pub output: Seq<u8>,
    pub transfer: Option<TransferState>,
    pub cgb_mode: bool,
    pub dmg_revision: DmgRevision,
}

impl SerialView {
    pub open spec fn wf(self) -> bool {
        self.transfer matches Some(t) ==> t.wf()
    }

    /// A port with nothing sent, nothing received and no transfer in progress.
    pub open spec fn initial(cgb: bool, dmg_revision: DmgRevision) -> Self {
        SerialView {
            sb: 0,
            sc: if cgb {
                0x7F
            } else {
                0x7E
            },
            output: Seq::empty(),
            transfer: None,
            cgb_mode: cgb,
            dmg_revision,
        }
    }

    /// What a read of `addr` gives.
    pub open spec fn read(self, addr: u16) -> u8 {
        if addr == 0xFF01 {
            self.sb
        } else if addr == 0xFF02 {
            if self.cgb_mode {
                self.sc
            } else {
                self.sc | 0x7E
            }
        } else {
            0xFF
        }
    }

    /// The port after a write of `val` to `addr`. A write to SC with bit 7 set
    /// starts a transfer of the current SB, also in the middle of another one;
    /// with bit 7 clear it leaves no transfer in progress.
    pub open spec fn written(self, addr: u16, val: u8) -> Self {
        if addr == 0xFF01 {
            SerialView { sb: val, ..self }
        } else if addr == 0xFF02 {
            SerialView {
                sc: val,
                transfer: if val & 0x80 != 0 {
                    Some(TransferState::started(self.sb, val))
                } else {
                    None
                },
                ..self
            }
        } else {
            self
        }
    }

    /// Whether `bits` clocks end the transfer in progress.
    pub open spec fn completes(self, bits: int) -> bool {
        self.transfer matches Some(t) && bits >= t.remaining_bits
    }

    /// The port after `bits` clocks of the transfer in progress.
    pub open spec fn clocked(self, bits: int) -> Self {
        match self.transfer {
            None => self,
            Some(t) => if bits >= t.remaining_bits {
                SerialView {
                    sb: match t.incoming {
                        Some(incoming) => incoming,
                        None => 0xFF,
                    },
                    sc: self.sc & 0x7F,
                    output: self.output.push(t.outgoing),
                    transfer: None,
                    ..self
                }
            } else {
                let register = shift_register(self.sb, t.pending_in, bits as u16);
                SerialView {
                    sb: (register >> 8u16) as u8,
                    transfer: Some(
                        TransferState {
                            remaining_bits: (t.remaining_bits - bits) as u8,
                            pending_in: (register & 0xFF) as u8,
                            ..t
                        },
                    ),
                    ..self
                }
            },
        }
    }

    /// The port once the partner's byte is known.
    pub open spec fn latched(self, reply: u8) -> Self {
        match self.transfer {
            None => self,
            Some(t) => SerialView { transfer: Some(t.latched(reply)), ..self },
        }
    }

    /// Whether an internal-clock (or, with `internal` false, an external-clock)
    /// transfer is in progress.
    pub open spec fn transferring(self, internal: bool) -> bool {
        self.transfer matches Some(t) && t.internal_clock == internal
    }

    /// The clocks that an internal-clock transfer gets while DIV counts from
    /// `prev_div` to `curr_div`.
    pub open spec fn internal_clocks(self, prev_div: u16, curr_div: u16, double_speed: bool) -> int {
        match self.transfer {
            None => 0,
            Some(t) => clocks_between(
                prev_div,
                curr_div,
                clock_period(self.cgb_mode, double_speed, t.fast_clock),
            ),
        }
    }

    /// Whether a transfer is over once DIV has counted from `prev_div` to
    /// `curr_div`.
    pub open spec fn step_completes(self, prev_div: u16, curr_div: u16, double_speed: bool) -> bool {
        self.transferring(true) && self.completes(
            self.internal_clocks(prev_div, curr_div, double_speed),
        )
    }

    /// Whether a transfer is over after `count` clock pulses of the partner.
    pub open spec fn pulses_complete(self, count: u8) -> bool {
        self.transferring(false) && self.completes(count as int)
    }

    /// The interrupt flags once DIV has counted from `prev_div` to `curr_div`.
    pub open spec fn flags_after_step(
        self,
        prev_div: u16,
        curr_div: u16,
        double_speed: bool,
        if_reg: u8,
    ) -> u8 {
        requested(if_reg, self.step_completes(prev_div, curr_div, double_speed))
    }

    /// The interrupt flags after `count` clock pulses of the partner.
    pub open spec fn flags_after_pulses(self, count: u8, if_reg: u8) -> u8 {
        requested(if_reg, self.pulses_complete(count))
    }
}

/// The interrupt flags `if_reg`, with the serial interrupt requested when a
/// transfer is over.
pub open spec fn requested(if_reg: u8, complete: bool) -> u8 {
    if complete {
        if_reg | 0x08
    } else {
        if_reg
    }
}

/// Sending `byte` once over the line may give `reply` and leave `after` at its
/// end. With nothing connected the line is dead.
pub open spec fn line_answers<P: LinkPort>(
    port: Option<Box<P>>,
    byte: u8,
    reply: u8,
    after: Option<Box<P>>,
) -> bool {
    match port {
        Some(p) => after is Some && p.answers(byte, reply, &*after->0),
        None => after is None && reply == 0xFF,
    }
}

/// Represents the Game Boy serial registers.
/// This struct handles SB/SC behavior and raises the serial interrupt
/// when a transfer completes.
///
/// Without a connected port the line is dead, as behind [`NullLinkPort`].
pub struct Serial<P> {
    sb: u8,
    sc: u8,
    out_buf: Vec<u8>,
    port: Option<Box<P>>,
    transfer: Option<TransferState>,
    cgb_mode: bool,
    dmg_revision: DmgRevision,
}

impl<P> View for Serial<P> {
    type V = SerialView;

    closed spec fn view(&self) -> SerialView {
        SerialView {
            sb: self.sb,
            sc: self.sc,
            output: self.out_buf@,
            transfer: self.transfer,
            cgb_mode: self.cgb_mode,
            dmg_revision: self.dmg_revision,
        }
    }
}

impl<P: LinkPort> Serial<P> {
    /// The connected port, if there is one.
    pub closed spec fn port(&self) -> Option<Box<P>> {
        self.port
    }

    /// The port after `bits` clocks of the transfer in progress, once the
    /// partner has answered. The partner is asked once, when the transfer gets
    /// its first clock source, and gets the byte that the transfer started with;
    /// from then on nothing goes over the line.
    pub open spec fn exchanged(before: &Self, bits: int, after: &Self) -> bool {
        if before@.transfer->0.incoming is Some {
            after@ == before@.clocked(bits) && after.port() == before.port()
        } else {
            exists|reply: u8| #[trigger]
                line_answers(
                    before.port(),
                    before@.transfer->0.outgoing,
                    reply,
                    after.port(),
                ) && after@ == before@.latched(reply).clocked(bits)
        }
    }

    /// The port after DIV has counted from `prev_div` to `curr_div`.
    pub open spec fn stepped(
        before: &Self,
        prev_div: u16,
        curr_div: u16,
        double_speed: bool,
        after: &Self,
    ) -> bool {
        if before@.transferring(true) {
            Self::exchanged(
                before,
                before@.internal_clocks(prev_div, curr_div, double_speed),
                after,
            )
        } else {
            after@ == before@ && after.port() == before.port()
        }
    }

    /// The port after `count` clock pulses of the partner.
    pub open spec fn pulsed(before: &Self, count: u8, after: &Self) -> bool {
        if before@.transferring(false) {
            Self::exchanged(before, count as int, after)
        } else {
            after@ == before@ && after.port() == before.port()
        }
    }

    pub fn new(cgb: bool, dmg_revision: DmgRevision) -> (serial: Self)
        ensures
            serial@ == SerialView::initial(cgb, dmg_revision),
            serial.port() is None,
    {
        Self {
            sb: 0,
            sc: if cgb {
                0x7F
            } else {
                0x7E
            },
            out_buf: Vec::new(),
            port: None,
            transfer: None,
            cgb_mode: cgb,
            dmg_revision,
        }
    }

    pub fn connect(&mut self, port: Box<P>)
        ensures
            final(self)@ == old(self)@,
            final(self).port() == Some(port),
    {
        self.port = Some(port);
    }

    pub fn read(&self, addr: u16) -> (val: u8)
        ensures
            val == self@.read(addr),
    {
        match addr {
            0xFF01 => self.sb,
            0xFF02 => {
                if self.cgb_mode {
                    self.sc
                } else {
                    self.sc | 0x7E
                }
            },
            _ => 0xFF,
        }
    }

    pub fn write(&mut self, addr: u16, val: u8)
        ensures
            final(self)@ == old(self)@.written(addr, val),
            final(self).port() == old(self).port(),
            old(self)@.wf() ==> final(self)@.wf(),
    {
        match addr {
            0xFF01 => {
                self.sb = val;
            },
            0xFF02 => {
                // A write with bit 7 clear cancels; one with bit 7 set starts
                // over, with the current SB and the clock mode bits written.
                self.sc = val;
                if val & 0x80 == 0 {
                    self.transfer = None;
                } else {
                    let internal_clock = val & 0x01 != 0;
                    let fast_clock = val & 0x02 != 0;
                    // When using an external clock the transfer will only
                    // complete if the link partner supplies the necessary
                    // pulses, so SC bit 7 simply stays asserted until the
                    // clock edges arrive.
                    self.transfer = Some(TransferState::new(self.sb, internal_clock, fast_clock));
                }
            },
            _ => {},
        }
    }

    /// Ask the partner for its byte, unless it has answered already.
    fn exchange(&mut self)
        requires
            old(self)@.transfer is Some,
        ensures
            final(self)@.transfer is Some,
            final(self)@.transfer->0.incoming is Some,
            old(self)@.wf() ==> final(self)@.wf(),
            if old(self)@.transfer->0.incoming is Some {
                final(self)@ == old(self)@ && final(self).port() == old(self).port()
            } else {
                exists|reply: u8| #[trigger]
                    line_answers(
                        old(self).port(),
                        old(self)@.transfer->0.outgoing,
                        reply,
                        final(self).port(),
                    ) && final(self)@ == old(self)@.latched(reply)
            },
    {
        if let Some(mut state) = self.transfer {
            let mut reply: u8 = 0xFF;
            if state.incoming.is_none() {
                match self.port.as_mut() {
                    Some(port) => {
                        reply = port.transfer(state.outgoing);
                    },
                    None => {},
                }
                proof {
                    assert(line_answers(old(self).port, state.outgoing, reply, self.port));
                }
                state.latch_incoming(reply);
            }
            self.transfer = Some(state);
        }
    }

    /// Give the transfer in progress one clock. Returns true when it is over;
    /// the serial interrupt is then requested.
    fn clock(&mut self, if_reg: &mut u8) -> (complete: bool)
        requires
            old(self)@.wf(),
            old(self)@.transfer is Some,
            old(self)@.transfer->0.incoming is Some,
        ensures
            final(self)@ == old(self)@.clocked(1),
            final(self)@.wf(),
            final(self).port() == old(self).port(),
            complete == old(self)@.completes(1),
            *final(if_reg) == requested(*old(if_reg), complete),
    {
        let mut complete = false;
        if let Some(mut state) = self.transfer {
            let ghost before = self@;
            complete = state.shift(&mut self.sb);
            if complete {
                self.sb = state.incoming.unwrap_or(0xFF);
                self.out_buf.push(state.outgoing);
                self.sc = self.sc & 0x7F;
                *if_reg = *if_reg | 0x08;
                self.transfer = None;
            } else {
                self.transfer = Some(state);
                proof {
                    lemma_register_halves(before.sb, before.transfer->0.pending_in, 1);
                }
            }
        }
        complete
    }

    /// Deliver external clock pulses to the serial unit.
    ///
    /// Each pulse clocks one bit. This is only meaningful when the transfer
    /// is in external clock mode (SC bit0 = 0).
    pub fn external_clock_pulse(&mut self, count: u8, if_reg: &mut u8)
        requires
            old(self)@.wf(),
        ensures
            final(self)@.wf(),
            Self::pulsed(old(self), count, final(self)),
            *final(if_reg) == old(self)@.flags_after_pulses(count, *old(if_reg)),
    {
        match self.transfer {
            None => {
                return;
            },
            Some(state) => {
                if state.internal_clock {
                    return;
                }
            },
        }
        self.exchange();
        let ghost asked_self = *self;
        let ghost asked = self@;
        proof {
            lemma_clocked_none(asked);
        }
        let mut done: u8 = 0;
        let mut complete = false;
        while done < count && !complete
            invariant
                done <= count,
                asked.wf(),
                asked.transfer is Some,
                asked.transfer->0.incoming is Some,
                self@.wf(),
                self@ == asked.clocked(done as int),
                complete == asked.completes(done as int),
                !complete ==> self@.transfer is Some && self@.transfer->0.incoming is Some,
                self.port() == asked_self.port(),
                *if_reg == requested(*old(if_reg), complete),
            decreases count - done,
        {
            proof {
                lemma_clocked_add(asked, done as int, 1);
            }
            complete = self.clock(if_reg);
            done = done + 1;
        }
        proof {
            lemma_clocked_past_end(asked, done as int, count as int);
        }
    }

    /// Advance the port while DIV counts from `prev_div` to `curr_div`. An
    /// internal-clock transfer gets a clock at each falling edge of the DIV bit
    /// that its rate selects; an external-clock transfer waits for its partner.
    pub fn step(&mut self, prev_div: u16, curr_div: u16, double_speed: bool, if_reg: &mut u8)
        requires
            old(self)@.wf(),
        ensures
            final(self)@.wf(),
            Self::stepped(old(self), prev_div, curr_div, double_speed, final(self)),
            *final(if_reg) == old(self)@.flags_after_step(
                prev_div,
                curr_div,
                double_speed,
                *old(if_reg),
            ),
    {
        let fast_clock = match self.transfer {
            None => {
                return;
            },
            Some(state) => {
                if !state.internal_clock {
                    return;
                }
                state.fast_clock
            },
        };
        let clock_bit: u32 = clock_bit_index(self.cgb_mode, double_speed, fast_clock);
        let phase: u16 = self.phase_adjust(double_speed, fast_clock);
        let ghost period = clock_period(self.cgb_mode, double_speed, fast_clock);

        // The link exchange waits until the transfer actually has a clock, so
        // external-clock transfers don't consume bytes when no clock edges
        // arrive. In internal clock mode the partner byte is latched before
        // the first shifted bit.
        self.exchange();
        let ghost asked_self = *self;
        let ghost asked = self@;
        proof {
            lemma_clocked_none(asked);
        }

        let mut div: u16 = prev_div;
        let steps: u16 = curr_div.wrapping_sub(prev_div);
        let mut prev_clock = ((div.wrapping_sub(phase) >> clock_bit) & 1) != 0;
        let mut done: u16 = 0;
        let mut complete = false;
        let ghost mut clocks: int = 0;
        while done < steps && !complete
            invariant
                done <= steps,
                phase == 0,
                div == (prev_div + done) % 0x1_0000,
                prev_clock == (((div >> clock_bit) & 1) != 0),
                is_clock_bit(clock_bit, period),
                clocks == (prev_div + done) / period - prev_div as int / period,
                asked.wf(),
                asked.transfer is Some,
                asked.transfer->0.incoming is Some,
                self@.wf(),
                self@ == asked.clocked(clocks),
                clocks >= 0,
                complete == asked.completes(clocks),
                !complete ==> self@.transfer is Some && self@.transfer->0.incoming is Some,
                self.port() == asked_self.port(),
                *if_reg == requested(*old(if_reg), complete),
            decreases steps - done,
        {
            let ghost last = div;
            div = div.wrapping_add(1);
            let clock = ((div.wrapping_sub(phase) >> clock_bit) & 1) != 0;
            proof {
                lemma_falling_edge(last, div, clock_bit, period);
                lemma_multiples(prev_div + done, div, period);
                lemma_clocked_add(asked, clocks, 1);
            }
            if prev_clock && !clock {
                complete = self.clock(if_reg);
                proof {
                    clocks = clocks + 1;
                }
            }
            prev_clock = clock;
            done = done + 1;
        }
        proof {
            lemma_clocks_grow(prev_div + done, prev_div + steps, period);
            lemma_clocked_past_end(
                asked,
                clocks,
                asked.internal_clocks(prev_div, curr_div, double_speed),
            );
        }
    }

    pub fn take_output(&mut self) -> (out: Vec<u8>)
        ensures
            out@ == old(self)@.output,
            final(self)@ == (SerialView { output: Seq::empty(), ..old(self)@ }),
            final(self).port() == old(self).port(),
    {
        let out = self.out_buf.clone();
        self.out_buf.clear();
        out
    }

    pub fn peek_output(&self) -> (out: &[u8])
        ensures
            out@ == self@.output,
    {
        self.out_buf.as_slice()
    }

    /// Offset between DIV and the serial clock. No known revision has one.
    fn phase_adjust(&self, double_speed: bool, fast_clock: bool) -> (phase: u16)
        ensures
            phase == 0,
    {
        if self.cgb_mode {
            return 0;
        }
        if double_speed || fast_clock {
            return 0;
        }
        match self.dmg_revision {
            DmgRevision::RevA | DmgRevision::RevB | DmgRevision::RevC => 0,
            DmgRevision::Rev0 => 0,
        }
    }
}

/// DIV bit `bit` falls once in `period` increments.
pub open spec fn is_clock_bit(bit: u32, period: int) -> bool {
    ||| bit == 2 && period == 8
    ||| bit == 3 && period == 16
    ||| bit == 7 && period == 256
    ||| bit == 8 && period == 512
}

/// The DIV bit whose falling edges clock an internal-clock transfer.
pub fn clock_bit_index(cgb_mode: bool, double_speed: bool, fast_clock: bool) -> (bit: u32)
    ensures
        is_clock_bit(bit, clock_period(cgb_mode, double_speed, fast_clock)),
{
    if !cgb_mode {
        if double_speed {
            7
        } else {
            8
        }
    } else {
        match (fast_clock, double_speed) {
            (false, false) => 8,
            (false, true) => 7,
            (true, false) => 3,
            (true, true) => 2,
        }
    }
}

/// Number of dots between two clocks of a transfer at the given rate.
pub fn serial_dot_cycles_per_bit(high_speed: bool, double_speed: bool) -> (dots: u32)
    ensures
        dots == clock_period(true, double_speed, high_speed),
{
    proof {
        assert(2u32 << 2u32 == 8 && 2u32 << 3u32 == 16 && 2u32 << 7u32 == 256 && 2u32 << 8u32
            == 512) by (bit_vector);
    }
    2u32 << clock_bit_index(true, double_speed, high_speed)
}

/// The clock bit falls exactly where DIV reaches a multiple of the period.
proof fn lemma_falling_edge(div: u16, next: u16, bit: u32, period: int)
    requires
        is_clock_bit(bit, period),
        next == (div + 1) % 0x1_0000,
    ensures
        ((div >> bit) & 1 != 0 && (next >> bit) & 1 == 0) == (next as int % period == 0),
{
    assert(next == (div + 1) as u16) by (bit_vector)
        requires
            next == (div + 1) % 0x1_0000,
    ;
    if bit == 2 {
        assert(((div >> 2u32) & 1 != 0 && (next >> 2u32) & 1 == 0) == (next % 8 == 0))
            by (bit_vector)
            requires
                next == (div + 1) as u16,
        ;
    } else if bit == 3 {
        assert(((div >> 3u32) & 1 != 0 && (next >> 3u32) & 1 == 0) == (next % 16 == 0))
            by (bit_vector)
            requires
                next == (div + 1) as u16,
        ;
    } else if bit == 7 {
        assert(((div >> 7u32) & 1 != 0 && (next >> 7u32) & 1 == 0) == (next % 256 == 0))
            by (bit_vector)
            requires
                next == (div + 1) as u16,
        ;
    } else {
        assert(((div >> 8u32) & 1 != 0 && (next >> 8u32) & 1 == 0) == (next % 512 == 0))
            by (bit_vector)
            requires
                next == (div + 1) as u16,
        ;
    }
}

/// Counting one further passes a multiple of the period or does not.
proof fn lemma_multiples(x: int, next: u16, period: int)
    requires
        period == 8 || period == 16 || period == 256 || period == 512,
        x >= 0,
        next == (x + 1) % 0x1_0000,
    ensures
        (x + 1) / period == x / period + if next as int % period == 0 {
            1int
        } else {
            0int
        },
{
}

proof fn lemma_clocks_grow(x: int, y: int, period: int)
    requires
        period == 8 || period == 16 || period == 256 || period == 512,
        0 <= x <= y,
    ensures
        x / period <= y / period,
{
}

/// Clocks beyond the last bit change nothing.
proof fn lemma_clocked_past_end(v: SerialView, a: int, b: int)
    requires
        a <= b,
        a == b || v.completes(a),
    ensures
        v.clocked(a) == v.clocked(b),
        v.completes(a) == v.completes(b),
{
}

/// The two bytes of the shift register make up the register.
proof fn lemma_register_halves(sb: u8, pending_in: u8, bits: u16)
    requires
        bits < 8,
    ensures
        ({
            let register = shift_register(sb, pending_in, bits);
            &&& register >> 8u16 == ((register >> 8u16) as u8) as u16
            &&& register & 0xFF == ((register & 0xFF) as u8) as u16
        }),
{
    let register = shift_register(sb, pending_in, bits);
    assert(register >> 8u16 == ((register >> 8u16) as u8) as u16 && register & 0xFF == ((register
        & 0xFF) as u8) as u16) by (bit_vector);
}

/// No clock changes nothing.
pub proof fn lemma_clocked_none(v: SerialView)
    requires
        v.wf(),
    ensures
        v.clocked(0) == v,
{
    if let Some(t) = v.transfer {
        let sb = v.sb;
        let p = t.pending_in;
        assert((((((sb as u16) << 8u16) | (p as u16)) << 0u16) >> 8u16) as u8 == sb
            && (((((sb as u16) << 8u16) | (p as u16)) << 0u16) & 0xFF) as u8 == p) by (bit_vector);
    }
}

/// Clocks add up: it makes no difference whether a transfer gets its clocks at
/// once or one after the other.
pub proof fn lemma_clocked_add(v: SerialView, a: int, b: int)
    requires
        v.wf(),
        0 <= a,
        0 <= b,
    ensures
        v.clocked(a).clocked(b) == v.clocked(a + b),
        v.completes(a + b) == (v.completes(a) || v.clocked(a).completes(b)),
{
    if let Some(t) = v.transfer {
        if a + b < t.remaining_bits {
            let sb = v.sb;
            let p = t.pending_in;
            let m = a as u16;
            let n = b as u16;
            let r = shift_register(sb, p, m);
            assert((((((r >> 8u16) as u8) as u16) << 8u16) | (((r & 0xFF) as u8) as u16)) == r)
                by (bit_vector);
            let w = ((sb as u16) << 8u16) | (p as u16);
            assert((w << m) << n == w << ((m + n) as u16)) by (bit_vector)
                requires
                    m + n < 8,
            ;
        }
    }
}

/// A byte written to SB and sent by a write to SC with bit 7 set comes back as
/// the partner's byte: after eight clocks SB holds it, bit 7 of SC is clear, no
/// transfer is in progress, and the byte sent is the newest of the output.
pub proof fn law_transfer_exchanges_bytes(v: SerialView, sent: u8, sc: u8, reply: u8, bits: int)
    requires
        sc & 0x80 != 0,
        bits >= 8,
    ensures
        ({
            let start = v.written(0xFF01, sent).written(0xFF02, sc).latched(reply);
            let end = start.clocked(bits);
            &&& start.completes(bits)
            &&& end.read(0xFF01) == reply
            &&& end.read(0xFF02) & 0x80 == 0
            &&& end.transfer is None
            &&& end.output == v.output.push(sent)
        }),
{
    crate::bits::lemma_bits_of(sc);
    crate::bits::lemma_bits_of(sc & 0x7F);
    crate::bits::lemma_bits_of((sc & 0x7F) | 0x7E);
}

/// Before its last bit a transfer is not over: bit 7 of SC stays as written,
/// the output has nothing new, and SB has shifted the bits of the partner's
/// byte in behind its own.
pub proof fn law_transfer_not_over_before_last_bit(
    v: SerialView,
    sent: u8,
    sc: u8,
    reply: u8,
    bits: int,
)
    requires
        sc & 0x80 != 0,
        0 <= bits < 8,
    ensures
        ({
            let start = v.written(0xFF01, sent).written(0xFF02, sc).latched(reply);
            let middle = start.clocked(bits);
            &&& !start.completes(bits)
            &&& middle.read(0xFF02) & 0x80 != 0
            &&& middle.output == v.output
            &&& middle.sb == (shift_register(sent, reply, bits as u16) >> 8u16) as u8
        }),
{
    crate::bits::lemma_bits_of(sc);
    crate::bits::lemma_bits_of(sc | 0x7E);
}

/// A write to SC with bit 7 clear cancels: no number of clocks completes the
/// transfer any more.
pub proof fn law_cleared_sc_cancels(v: SerialView, sc: u8, bits: int)
    requires
        sc & 0x80 == 0,
    ensures
        ({
            let cancelled = v.written(0xFF02, sc);
            &&& !cancelled.completes(bits)
            &&& cancelled.clocked(bits) == cancelled
            &&& cancelled.read(0xFF02) & 0x80 == 0
        }),
{
    crate::bits::lemma_bits_of(sc);
    crate::bits::lemma_bits_of(sc | 0x7E);
}

/// A write to SC with bit 7 set in the middle of a transfer starts over with
/// the SB of that moment: the transfer in progress leaves no trace.
pub proof fn law_restart_uses_current_sb(v: SerialView, sc: u8)
    requires
        sc & 0x80 != 0,
    ensures
        v.written(0xFF02, sc).transfer == Some(TransferState::started(v.sb, sc)),
        v.written(0xFF02, sc) == (SerialView { transfer: None, ..v }).written(0xFF02, sc),
{
}

/// With nothing connected every transfer that completes receives 0xFF.
pub proof fn law_open_bus_receives_ff<P: LinkPort>(before: &Serial<P>, bits: int, after: &Serial<P>)
    requires
        before.port() is None,
        before@.transfer is Some,
        before@.transfer->0.incoming is None,
        before@.completes(bits),
        Serial::exchanged(before, bits, after),
    ensures
        after@.sb == 0xFF,
{
}

/// DIV counted in two stretches gives the clocks of the two stretches.
pub proof fn law_clocks_between_add(a: u16, b: u16, c: u16, period: int)
    requires
        period == 8 || period == 16 || period == 256 || period == 512,
        div_steps(a, b) + div_steps(b, c) < 0x1_0000,
    ensures
        div_steps(a, c) == div_steps(a, b) + div_steps(b, c),
        clocks_between(a, c, period) == clocks_between(a, b, period) + clocks_between(b, c, period),
{
    let x = b as int;
    let y = b + div_steps(b, c);
    assert(a + div_steps(a, b) == x || a + div_steps(a, b) == x + 0x1_0000);
    assert(a + div_steps(a, c) == y || a + div_steps(a, c) == y + 0x1_0000);
    lemma_period_divides_wrap(x, period);
    lemma_period_divides_wrap(y, period);
}

/// Every period divides the 65536 values of DIV.
proof fn lemma_period_divides_wrap(x: int, period: int)
    requires
        period == 8 || period == 16 || period == 256 || period == 512,
    ensures
        (x + 0x1_0000) / period == x / period + 0x1_0000int / period,
{
    if period == 8 {
        assert((x + 0x1_0000) / 8 == x / 8 + 0x1_0000int / 8);
    } else if period == 16 {
        assert((x + 0x1_0000) / 16 == x / 16 + 0x1_0000int / 16);
    } else if period == 256 {
        assert((x + 0x1_0000) / 256 == x / 256 + 0x1_0000int / 256);
    } else {
        assert((x + 0x1_0000) / 512 == x / 512 + 0x1_0000int / 512);
    }
}

/// Eight periods of DIV are a byte, and, counted from a multiple of the period,
/// not one increment less.
pub proof fn law_byte_takes_eight_periods(prev_div: u16, curr_div: u16, period: int)
    requires
        period == 8 || period == 16 || period == 256 || period == 512,
    ensures
        div_steps(prev_div, curr_div) == 8 * period ==> clocks_between(prev_div, curr_div, period)
            == 8,
        prev_div as int % period == 0 && div_steps(prev_div, curr_div) < 8 * period
            ==> clocks_between(prev_div, curr_div, period) < 8,
{
}

/// Clocks of a transfer add up with the partner in between: it makes no
/// difference to the registers or to the line whether a transfer gets its clocks
/// at once or one after the other.
proof fn lemma_exchanged_add<P: LinkPort>(
    before: &Serial<P>,
    a: int,
    middle: &Serial<P>,
    b: int,
    after: &Serial<P>,
)
    requires
        before@.wf(),
        before@.transfer is Some,
        0 <= a,
        0 <= b,
        Serial::exchanged(before, a, middle),
        if middle@.transfer is Some {
            Serial::exchanged(middle, b, after)
        } else {
            after@ == middle@ && after.port() == middle.port()
        },
    ensures
        Serial::exchanged(before, a + b, after),
        before@.completes(a + b) == (before@.completes(a) || middle@.completes(b)),
{
    let t = before@.transfer->0;
    if t.incoming is Some {
        lemma_clocked_add(before@, a, b);
    } else {
        let reply = choose|reply: u8| #[trigger]
            line_answers(before.port(), t.outgoing, reply, middle.port()) && middle@
                == before@.latched(reply).clocked(a);
        lemma_clocked_add(before@.latched(reply), a, b);
        assert(line_answers(before.port(), t.outgoing, reply, after.port()));
    }
}

/// DIV counted in two stretches does what it does when counted in one: the
/// registers, the output, what the partner is asked and the interrupt are the
/// same.
pub proof fn law_split_step_is_one_step<P: LinkPort>(
    before: &Serial<P>,
    a: u16,
    b: u16,
    c: u16,
    double_speed: bool,
    middle: &Serial<P>,
    after: &Serial<P>,
    if_reg: u8,
)
    requires
        before@.wf(),
        div_steps(a, b) + div_steps(b, c) < 0x1_0000,
        Serial::stepped(before, a, b, double_speed, middle),
        Serial::stepped(middle, b, c, double_speed, after),
    ensures
        Serial::stepped(before, a, c, double_speed, after),
        requested(
            requested(if_reg, before@.step_completes(a, b, double_speed)),
            middle@.step_completes(b, c, double_speed),
        ) == requested(if_reg, before@.step_completes(a, c, double_speed)),
{
    assert((if_reg | 0x08) | 0x08 == if_reg | 0x08) by (bit_vector);
    if before@.transferring(true) {
        let period = clock_period(before@.cgb_mode, double_speed, before@.transfer->0.fast_clock);
        law_clocks_between_add(a, b, c, period);
        lemma_clocks_grow(a as int, a + div_steps(a, b), period);
        lemma_clocks_grow(b as int, b + div_steps(b, c), period);
        lemma_exchanged_add(
            before,
            clocks_between(a, b, period),
            middle,
            clocks_between(b, c, period),
            after,
        );
    }
}

/// What asking with `byte` gives and leaves is determined.
pub open spec fn answers_one_way<P: LinkPort>(port: Option<Box<P>>, byte: u8) -> bool {
    forall|r1: u8, p1: Option<Box<P>>, r2: u8, p2: Option<Box<P>>|
        #[trigger] line_answers(port, byte, r1, p1) && #[trigger] line_answers(port, byte, r2, p2)
            ==> r1 == r2 && p1 == p2
}

/// Of two ports in the same state on lines that answer the same, one that DIV
/// steps in two stretches and one that it steps at once agree again.
pub proof fn law_split_steps_agree<P: LinkPort>(
    before: &Serial<P>,
    a: u16,
    b: u16,
    c: u16,
    double_speed: bool,
    middle: &Serial<P>,
    split: &Serial<P>,
    whole: &Serial<P>,
)
    requires
        before@.wf(),
        div_steps(a, b) + div_steps(b, c) < 0x1_0000,
        before@.transfer matches Some(t) ==> answers_one_way(before.port(), t.outgoing),
        Serial::stepped(before, a, b, double_speed, middle),
        Serial::stepped(middle, b, c, double_speed, split),
        Serial::stepped(before, a, c, double_speed, whole),
    ensures
        split@ == whole@,
        split.port() == whole.port(),
{
    law_split_step_is_one_step(before, a, b, c, double_speed, middle, split, 0);
}

/// What can happen to a port.
pub enum SerialEvent {
    /// A write to a register.
    Write { addr: u16, val: u8 },
    /// DIV counts.
    Step { prev_div: u16, curr_div: u16, double_speed: bool },
    /// The partner sends clock pulses.
    Pulses { count: u8 },
    /// Another partner is connected.
    Connect,
    /// The output is taken.
    Take,
}

/// `event` may leave `after`.
pub open spec fn occurs<P: LinkPort>(
    before: &Serial<P>,
    event: SerialEvent,
    after: &Serial<P>,
) -> bool {
    match event {
        SerialEvent::Write { addr, val } => {
            after@ == before@.written(addr, val) && after.port() == before.port()
        },
        SerialEvent::Step { prev_div, curr_div, double_speed } => {
            Serial::stepped(before, prev_div, curr_div, double_speed, after)
        },
        SerialEvent::Pulses { count } => Serial::pulsed(before, count, after),
        SerialEvent::Connect => after@ == before@,
        SerialEvent::Take => {
            after@ == (SerialView { output: Seq::empty(), ..before@ }) && after.port()
                == before.port()
        },
    }
}

/// `states` are those that a port goes through with `events`.
pub open spec fn is_history<P: LinkPort>(
    states: Seq<Serial<P>>,
    events: Seq<SerialEvent>,
) -> bool {
    &&& states.len() == events.len() + 1
    &&& states[0]@.wf()
    &&& forall|i: int|
        0 <= i < events.len() ==> #[trigger] occurs(&states[i], events[i], &states[i + 1])
}

/// Whether a transfer is over with `event`.
pub open spec fn ends_transfer(before: SerialView, event: SerialEvent) -> bool {
    match event {
        SerialEvent::Step { prev_div, curr_div, double_speed } => before.step_completes(
            prev_div,
            curr_div,
            double_speed,
        ),
        SerialEvent::Pulses { count } => before.pulses_complete(count),
        _ => false,
    }
}

/// The bytes of the transfers that were over since the output was last taken,
/// oldest first.
pub open spec fn sent_since_take<P: LinkPort>(
    states: Seq<Serial<P>>,
    events: Seq<SerialEvent>,
) -> Seq<u8>
    decreases events.len(),
{
    if events.len() == 0 {
        Seq::empty()
    } else {
        let before = states[events.len() - 1]@;
        let sent = sent_since_take(states.drop_last(), events.drop_last());
        if events.last() is Take {
            Seq::empty()
        } else if ends_transfer(before, events.last()) {
            sent.push(before.transfer->0.outgoing)
        } else {
            sent
        }
    }
}

/// What [`Serial::take_output`] gives, after any history of a port that had no
/// output: the bytes of the transfers that were over since the output was last
/// taken, in order. Cancelled and unfinished transfers give none.
pub proof fn law_output_is_what_was_sent<P: LinkPort>(
    states: Seq<Serial<P>>,
    events: Seq<SerialEvent>,
)
    requires
        is_history(states, events),
        states[0]@.output == Seq::<u8>::empty(),
    ensures
        states.last()@.output == sent_since_take(states, events),
        states.last()@.wf(),
    decreases events.len(),
{
    if events.len() > 0 {
        let n = events.len() - 1;
        let earlier = states.drop_last();
        assert forall|i: int| 0 <= i < n implies #[trigger] occurs(
            &earlier[i],
            events.drop_last()[i],
            &earlier[i + 1],
        ) by {
            assert(occurs(&states[i], events[i], &states[i + 1]));
        }
        law_output_is_what_was_sent(earlier, events.drop_last());
        assert(occurs(&states[n], events[n], &states[n + 1]));
    }
}

/// From its start on a transfer asks the partner at most once, with the byte
/// that it started with, however often DIV steps or the partner sends pulses:
/// as long as nobody writes to the port, either nothing has happened yet, or the
/// partner was asked once and the transfer got some number of clocks. A transfer
/// that is over has asked.
pub proof fn law_partner_is_asked_once<P: LinkPort>(
    states: Seq<Serial<P>>,
    events: Seq<SerialEvent>,
) -> (clocks: int)
    requires
        is_history(states, events),
        states[0]@.transfer matches Some(t) && t.incoming is None,
        forall|i: int|
            0 <= i < events.len() ==> (#[trigger] events[i] is Step || events[i] is Pulses),
    ensures
        clocks >= 0,
        ({
            ||| states.last()@ == states[0]@ && states.last().port() == states[0].port()
            ||| Serial::exchanged(&states[0], clocks, &states.last())
        }),
        states.last()@.transfer is None ==> Serial::exchanged(
            &states[0],
            clocks,
            &states.last(),
        ),
    decreases events.len(),
{
    if events.len() == 0 {
        0
    } else {
        let n = events.len() - 1;
        let earlier = states.drop_last();
        assert forall|i: int| 0 <= i < n implies #[trigger] occurs(
            &earlier[i],
            events.drop_last()[i],
            &earlier[i + 1],
        ) by {
            assert(occurs(&states[i], events[i], &states[i + 1]));
        }
        assert forall|i: int| 0 <= i < n implies (#[trigger] events.drop_last()[i] is Step
            || events.drop_last()[i] is Pulses) by {
            assert(events[i] is Step || events[i] is Pulses);
        }
        let first = &states[0];
        let clocks = law_partner_is_asked_once(earlier, events.drop_last());
        let before = &states[n];
        let after = &states[n + 1];
        assert(occurs(before, events[n], after));
        let more = match events[n] {
            SerialEvent::Step { prev_div, curr_div, double_speed } => before@.internal_clocks(
                prev_div,
                curr_div,
                double_speed,
            ),
            SerialEvent::Pulses { count } => count as int,
            _ => 0,
        };
        if let SerialEvent::Step { prev_div, curr_div, double_speed } = events[n] {
            if let Some(t) = before@.transfer {
                lemma_clocks_grow(
                    prev_div as int,
                    prev_div + div_steps(prev_div, curr_div),
                    clock_period(before@.cgb_mode, double_speed, t.fast_clock),
                );
            }
        }
        if after@ == before@ && after.port() == before.port() {
            clocks
        } else if Serial::exchanged(first, clocks, before) {
            lemma_exchanged_add(first, clocks, before, more, after);
            clocks + more
        } else {
            more
        }
    }
}

} // verus!
