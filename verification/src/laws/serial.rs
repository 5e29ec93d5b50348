//! The serial port: what goes over the line, when, and what the registers show.

use crate::hardware::DmgRevision;
use crate::serial::{
    clock_period, clocks_between, div_steps, line_answers, requested, LinkPort, NullLinkPort,
    Serial, SerialView, TransferState,
};
use vstd::prelude::*;

verus! {

/// The end of a transfer sets bit 3 of the interrupt flags, and leaves the seven
/// others; without the end of one all eight stay.
pub proof fn law_end_of_transfer_sets_one_flag(flags: u8, complete: bool)
    ensures
        requested(flags, complete) as int / 16 == flags as int / 16,
        requested(flags, complete) as int % 8 == flags as int % 8,
        complete ==> requested(flags, complete) as int / 8 % 2 == 1,
        !complete ==> requested(flags, complete) == flags,
        requested(flags, complete) & 0xF7 == flags & 0xF7,
{
    assert((flags | 0x08) / 16 == flags / 16 && (flags | 0x08) % 8 == flags % 8 && (flags | 0x08)
        / 8 % 2 == 1 && (flags | 0x08) & 0xF7 == flags & 0xF7) by (bit_vector);
}

/// Increments of DIV between two bits of an internal-clock transfer: 512, and 16
/// for the fast clock of a CGB; half of that at double speed.
pub open spec fn increments_per_bit(cgb: bool, fast: bool, double_speed: bool) -> int {
    (if cgb && fast {
        16int
    } else {
        512int
    }) / (if double_speed {
        2int
    } else {
        1int
    })
}

/// How far DIV counts from `from` to `to`, around the end of its 16 bits if it has
/// to.
pub open spec fn counted(from: u16, to: u16) -> int {
    (to - from) % 0x1_0000
}

/// An internal-clock transfer gets a bit at each multiple of its period that DIV
/// reaches, and is over exactly when it has got all that were left. An
/// external-clock transfer gets none from DIV.
pub proof fn law_div_clocks_the_transfer(
    v: SerialView,
    t: TransferState,
    from: u16,
    to: u16,
    double_speed: bool,
)
    requires
        v.transfer == Some(t),
    ensures
        ({
            let per = increments_per_bit(v.cgb_mode, t.fast_clock, double_speed);
            v.step_completes(from, to, double_speed) == (t.internal_clock && (from as int % per
                + counted(from, to)) / per >= t.remaining_bits)
        }),
{
    lemma_clocks(v.cgb_mode, t.fast_clock, double_speed, from, to);
}

proof fn lemma_clocks(cgb: bool, fast: bool, double_speed: bool, from: u16, to: u16)
    ensures
        ({
            let per = increments_per_bit(cgb, fast, double_speed);
            &&& per == clock_period(cgb, double_speed, fast)
            &&& clocks_between(from, to, per) == (from as int % per + counted(from, to)) / per
            &&& clocks_between(from, to, per) >= 0
        }),
{
    let per = increments_per_bit(cgb, fast, double_speed);
    let n = counted(from, to);
    assert(n == div_steps(from, to));
    if per == 8 {
        assert((from + n) / 8 - from as int / 8 == (from as int % 8 + n) / 8);
    } else if per == 16 {
        assert((from + n) / 16 - from as int / 16 == (from as int % 16 + n) / 16);
    } else if per == 256 {
        assert((from + n) / 256 - from as int / 256 == (from as int % 256 + n) / 256);
    } else {
        assert((from + n) / 512 - from as int / 512 == (from as int % 512 + n) / 512);
    }
}

/// An external-clock transfer gets one bit with each pulse of the partner, and is
/// over when it has got all that were left. An internal-clock transfer gets none
/// from the partner.
pub proof fn law_pulses_clock_the_transfer(v: SerialView, t: TransferState, count: u8)
    requires
        v.transfer == Some(t),
    ensures
        v.pulses_complete(count) == (!t.internal_clock && count >= t.remaining_bits),
{
}

/// A transfer that DIV or the partner has clocked to its end has requested its
/// interrupt, in bit 3; no other flag changes, and none at all before the end or
/// without a transfer on that clock.
pub proof fn law_transfer_requests_its_interrupt(
    v: SerialView,
    t: TransferState,
    from: u16,
    to: u16,
    double_speed: bool,
    count: u8,
    flags: u8,
)
    requires
        v.transfer == Some(t),
    ensures
        ({
            let per = increments_per_bit(v.cgb_mode, t.fast_clock, double_speed);
            let over = t.internal_clock && (from as int % per + counted(from, to)) / per
                >= t.remaining_bits;
            let stepped = v.flags_after_step(from, to, double_speed, flags);
            &&& stepped as int / 16 == flags as int / 16
            &&& stepped as int % 8 == flags as int % 8
            &&& over ==> stepped as int / 8 % 2 == 1
            &&& !over ==> stepped == flags
        }),
        ({
            let over = !t.internal_clock && count >= t.remaining_bits;
            let pulsed = v.flags_after_pulses(count, flags);
            &&& pulsed as int / 16 == flags as int / 16
            &&& pulsed as int % 8 == flags as int % 8
            &&& over ==> pulsed as int / 8 % 2 == 1
            &&& !over ==> pulsed == flags
        }),
{
    law_div_clocks_the_transfer(v, t, from, to, double_speed);
    law_end_of_transfer_sets_one_flag(flags, true);
}

/// Without a transfer nothing is ever over.
pub proof fn law_no_transfer_no_end(
    v: SerialView,
    from: u16,
    to: u16,
    double_speed: bool,
    count: u8,
    flags: u8,
)
    requires
        v.transfer is None,
    ensures
        !v.step_completes(from, to, double_speed),
        !v.pulses_complete(count),
        v.flags_after_step(from, to, double_speed, flags) == flags,
        v.flags_after_pulses(count, flags) == flags,
{
}

/// SB reads what was written; SC reads what was written on a CGB, and on a DMG
/// with the six bits that it does not have set. Other addresses read 0xFF and
/// ignore what is written. A write changes no register but its own, nor the
/// output.
pub proof fn law_registers_read_back(v: SerialView, addr: u16, val: u8)
    ensures
        v.written(0xFF01, val).read(0xFF01) == val,
        v.written(0xFF01, val).read(0xFF02) == v.read(0xFF02),
        v.written(0xFF01, val).transfer == v.transfer,
        v.cgb_mode ==> v.written(0xFF02, val).read(0xFF02) == val,
        !v.cgb_mode ==> v.written(0xFF02, val).read(0xFF02) == 128 * (val as int / 128) + 0x7E
            + val as int % 2,
        v.written(0xFF02, val).read(0xFF01) == v.read(0xFF01),
        v.written(addr, val).output == v.output,
        v.written(addr, val).cgb_mode == v.cgb_mode,
        addr != 0xFF01 && addr != 0xFF02 ==> v.written(addr, val) == v && v.read(addr) == 0xFF,
{
    crate::bits::lemma_bits_of(val);
}

/// A new port has sent nothing and has no transfer; SB reads 0 and SC 0x7E, on a
/// CGB 0x7F.
pub proof fn law_new_port(cgb: bool, dmg_revision: DmgRevision)
    ensures
        ({
            let v = SerialView::initial(cgb, dmg_revision);
            &&& v.read(0xFF01) == 0
            &&& v.read(0xFF02) == if cgb {
                0x7Fu8
            } else {
                0x7Eu8
            }
            &&& v.output.len() == 0
            &&& v.transfer is None
        }),
{
    crate::bits::lemma_bits_of(0x7E);
}

/// A write to SC starts a transfer exactly if bit 7 is set: of the byte in SB, all
/// eight bits of it, on the internal clock exactly if bit 0 is set, and on the fast
/// one exactly if bit 1 is.
pub proof fn law_sc_starts_a_transfer(v: SerialView, sc: u8)
    ensures
        v.written(0xFF02, sc).transfer is Some == (sc >= 0x80),
        v.written(0xFF02, sc).transfer matches Some(t) ==> {
            &&& t.outgoing == v.sb
            &&& t.remaining_bits == 8
            &&& t.incoming is None
            &&& t.internal_clock == (sc % 2 == 1)
            &&& t.fast_clock == (sc / 2 % 2 == 1)
        },
        v.written(0xFF02, sc).sb == v.sb,
{
    crate::bits::lemma_bits_of(sc);
}

/// While a transfer goes on, SB shows the bits of the byte sent that are still to
/// go, followed by those of the partner's byte that have come.
pub proof fn law_sb_shifts(v: SerialView, sent: u8, sc: u8, reply: u8, bits: u8)
    requires
        sc >= 0x80,
        1 <= bits < 8,
    ensures
        ({
            let middle = v.written(0xFF01, sent).written(0xFF02, sc).latched(reply).clocked(
                bits as int,
            );
            &&& middle.read(0xFF01) == (sent << bits) | (reply >> ((8 - bits) as u8))
            &&& middle.transfer matches Some(t) && t.remaining_bits == 8 - bits && t.outgoing
                == sent
            &&& middle.sc == sc
            &&& middle.output == v.output
        }),
{
    let wide = bits as u16;
    assert(((((((sent as u16) << 8u16) | (reply as u16)) << wide) >> 8u16) as u8 == (sent << bits)
        | (reply >> ((8 - bits) as u8))) && (sc >= 0x80 ==> sc & 0x80 != 0)) by (bit_vector)
        requires
            1 <= bits < 8,
            wide == bits as u16,
            sc >= 0x80,
    ;
}

/// What a transfer of `sent` leaves once the partner has answered with `reply` and
/// all eight bits have gone.
pub open spec fn transfer_over(v: SerialView, sent: u8, sc: u8, reply: u8, end: SerialView) -> bool {
    &&& end.sb == reply
    &&& end.sc == sc - 0x80
    &&& end.output == v.output.push(sent)
    &&& end.transfer is None
}

/// The partner is asked for its byte with the byte that was in SB when the
/// transfer started, and with no other. When DIV has clocked all bits, SB holds
/// its answer, bit 7 of SC is clear and the others stay, and the byte sent is the
/// newest of the output.
pub proof fn law_step_exchanges_with_the_partner<P: LinkPort>(
    v: SerialView,
    sent: u8,
    sc: u8,
    before: &Serial<P>,
    from: u16,
    to: u16,
    double_speed: bool,
    after: &Serial<P>,
) -> (reply: u8)
    requires
        sc >= 0x80,
        sc % 2 == 1,
        before@ == v.written(0xFF01, sent).written(0xFF02, sc),
        Serial::stepped(before, from, to, double_speed, after),
    ensures
        before.port() matches Some(p) ==> after.port() is Some && p.answers(
            sent,
            reply,
            &*after.port()->0,
        ),
        before.port() is None ==> after.port() is None && reply == 0xFF,
        ({
            let per = increments_per_bit(v.cgb_mode, sc / 2 % 2 == 1, double_speed);
            if (from as int % per + counted(from, to)) / per >= 8 {
                transfer_over(v, sent, sc, reply, after@)
            } else {
                &&& after@.output == v.output
                &&& after@.sc == sc
                &&& after@.transfer matches Some(t) && t.incoming == Some(reply) && t.outgoing
                    == sent
            }
        }),
{
    law_sc_starts_a_transfer(v.written(0xFF01, sent), sc);
    let t = before@.transfer->0;
    law_div_clocks_the_transfer(before@, t, from, to, double_speed);
    lemma_clocks(v.cgb_mode, t.fast_clock, double_speed, from, to);
    let bits = before@.internal_clocks(from, to, double_speed);
    lemma_exchange(v, sent, sc, before, bits, after)
}

/// The same when the partner gives the clock.
pub proof fn law_pulses_exchange_with_the_partner<P: LinkPort>(
    v: SerialView,
    sent: u8,
    sc: u8,
    before: &Serial<P>,
    count: u8,
    after: &Serial<P>,
) -> (reply: u8)
    requires
        sc >= 0x80,
        sc % 2 == 0,
        before@ == v.written(0xFF01, sent).written(0xFF02, sc),
        Serial::pulsed(before, count, after),
    ensures
        before.port() matches Some(p) ==> after.port() is Some && p.answers(
            sent,
            reply,
            &*after.port()->0,
        ),
        before.port() is None ==> after.port() is None && reply == 0xFF,
        if count >= 8 {
            transfer_over(v, sent, sc, reply, after@)
        } else {
            &&& after@.output == v.output
            &&& after@.sc == sc
            &&& after@.transfer matches Some(t) && t.incoming == Some(reply) && t.outgoing == sent
        },
{
    law_sc_starts_a_transfer(v.written(0xFF01, sent), sc);
    lemma_exchange(v, sent, sc, before, count as int, after)
}

proof fn lemma_exchange<P: LinkPort>(
    v: SerialView,
    sent: u8,
    sc: u8,
    before: &Serial<P>,
    bits: int,
    after: &Serial<P>,
) -> (reply: u8)
    requires
        sc >= 0x80,
        bits >= 0,
        before@ == v.written(0xFF01, sent).written(0xFF02, sc),
        Serial::exchanged(before, bits, after),
    ensures
        before.port() matches Some(p) ==> after.port() is Some && p.answers(
            sent,
            reply,
            &*after.port()->0,
        ),
        before.port() is None ==> after.port() is None && reply == 0xFF,
        if bits >= 8 {
            transfer_over(v, sent, sc, reply, after@)
        } else {
            &&& after@.output == v.output
            &&& after@.sc == sc
            &&& after@.transfer matches Some(t) && t.incoming == Some(reply) && t.outgoing == sent
        },
{
    law_sc_starts_a_transfer(v.written(0xFF01, sent), sc);
    crate::bits::lemma_bits_of(sc);
    let reply = choose|reply: u8| #[trigger]
        line_answers(before.port(), before@.transfer->0.outgoing, reply, after.port()) && after@
            == before@.latched(reply).clocked(bits);
    reply
}

/// Once the partner has answered, it is not asked again, whatever clocks the
/// transfer; and without a transfer on the clock in question nothing happens at
/// all.
pub proof fn law_partner_is_left_alone<P: LinkPort>(
    before: &Serial<P>,
    from: u16,
    to: u16,
    double_speed: bool,
    count: u8,
    after: &Serial<P>,
)
    requires
        before@.transfer matches Some(t) ==> t.incoming is Some,
    ensures
        Serial::stepped(before, from, to, double_speed, after) ==> after.port() == before.port(),
        Serial::pulsed(before, count, after) ==> after.port() == before.port(),
        before@.transfer is None && Serial::stepped(before, from, to, double_speed, after)
            ==> after@ == before@,
        before@.transfer is None && Serial::pulsed(before, count, after) ==> after@ == before@,
{
}

/// A cable that is not there answers 0xFF; one that loops back answers with the
/// byte itself. Neither changes.
pub proof fn law_null_port(port: NullLinkPort, byte: u8, reply: u8, after: NullLinkPort)
    requires
        port.answers(byte, reply, &after),
    ensures
        port.loopback ==> reply == byte,
        !port.loopback ==> reply == 0xFF,
        after.loopback == port.loopback,
{
}

/// Later clocks of DIV: with all bits gone SB holds the partner's byte and the
/// byte sent is the newest of the output; before that so many bits fewer are left,
/// and SB has taken as many bits of what is still to come.
pub proof fn law_later_steps<P: LinkPort>(
    before: &Serial<P>,
    t: TransferState,
    from: u16,
    to: u16,
    double_speed: bool,
    after: &Serial<P>,
)
    requires
        before@.transfer == Some(t),
        before@.wf(),
        t.internal_clock,
        t.incoming is Some,
        Serial::stepped(before, from, to, double_speed, after),
    ensures
        ({
            let per = increments_per_bit(before@.cgb_mode, t.fast_clock, double_speed);
            let bits = (from as int % per + counted(from, to)) / per;
            if bits >= t.remaining_bits {
                &&& Some(after@.sb) == t.incoming
                &&& after@.sc == before@.sc as int % 128
                &&& after@.output == before@.output.push(t.outgoing)
                &&& after@.transfer is None
            } else {
                &&& after@.sc == before@.sc
                &&& after@.output == before@.output
                &&& after@.transfer matches Some(u) && u.remaining_bits == t.remaining_bits - bits
                    && u.incoming == t.incoming && u.outgoing == t.outgoing && u.fast_clock
                    == t.fast_clock && u.internal_clock
                &&& bits > 0 ==> after@.sb == (before@.sb << bits as u8) | (t.pending_in >> (8
                    - bits) as u8)
            }
        }),
{
    lemma_clocks(before@.cgb_mode, t.fast_clock, double_speed, from, to);
    let per = increments_per_bit(before@.cgb_mode, t.fast_clock, double_speed);
    let n = (from as int % per + counted(from, to)) / per;
    let sc = before@.sc;
    let sb = before@.sb;
    let pending = t.pending_in;
    crate::bits::lemma_bits_of(sc);
    if 0 < n < t.remaining_bits {
        let bits = n as u8;
        let wide = n as u16;
        assert((((((sb as u16) << 8u16) | (pending as u16)) << wide) >> 8u16) as u8 == (sb << bits)
            | (pending >> ((8 - bits) as u8)))
            by (bit_vector)
            requires
                1 <= bits < 8,
                wide == bits as u16,
        ;
    }
}

} // verus!
