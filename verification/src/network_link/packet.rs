//! BGB packets: eight bytes each, a command, three arguments and a 32-bit
//! little-endian timestamp.

use crate::serial::serial_dot_cycles_per_bit;
use vstd::prelude::*;

verus! {

/// Version handshake.
pub const CMD_VERSION: u8 = 1;

/// Remote joypad input.
pub const CMD_JOYPAD: u8 = 101;

/// The master starts a transfer.
pub const CMD_SYNC1: u8 = 104;

/// The slave answers with its byte.
pub const CMD_SYNC2: u8 = 105;

/// Acknowledgement or timestamp.
pub const CMD_SYNC3: u8 = 106;

/// Pause/resume state.
pub const CMD_STATUS: u8 = 108;

/// The peer is about to disconnect.
pub const CMD_WANTDISCONNECT: u8 = 109;

pub const STATUS_RUNNING: u8 = 0x01;

pub const STATUS_PAUSED: u8 = 0x02;

pub const STATUS_SUPPORT_RECONNECT: u8 = 0x04;

/// Bytes of a packet.
pub const RX_PACKET_SIZE: usize = 8;

/// A BGB protocol packet.
#[derive(Clone, Copy, Debug, PartialEq, Eq, Structural)]
pub struct BgbPacket {
    /// Command.
    pub b1: u8,
    /// Data byte (SYNC1/2) or flags (STATUS).
    pub b2: u8,
    /// Control byte (SYNC1/2).
    pub b3: u8,
    pub b4: u8,
    /// Timestamp.
    pub i1: u32,
}

/// The number that four bytes are in little-endian order.
pub open spec fn le_value(b: Seq<u8>) -> int
    recommends
        b.len() == 4,
{
    b[0] + 0x100 * b[1] + 0x1_0000 * b[2] + 0x100_0000 * b[3]
}

/// The four bytes of a number, least significant first.
pub open spec fn le_bytes(value: u32) -> Seq<u8> {
    seq![
        (value as int % 0x100) as u8,
        (value as int / 0x100 % 0x100) as u8,
        (value as int / 0x1_0000 % 0x100) as u8,
        (value as int / 0x100_0000) as u8,
    ]
}

/// The flags of a STATUS packet.
pub open spec fn status_flags(running: bool, paused: bool, support_reconnect: bool) -> int {
    (if running {
        1int
    } else {
        0
    }) + (if paused {
        2int
    } else {
        0
    }) + (if support_reconnect {
        4int
    } else {
        0
    })
}

/// The VERSION packet.
pub open spec fn version_packet() -> BgbPacket {
    BgbPacket { b1: CMD_VERSION, b2: 1, b3: 4, b4: 0, i1: 0 }
}

/// A STATUS packet.
pub open spec fn status_packet(running: bool, paused: bool, support_reconnect: bool) -> BgbPacket {
    BgbPacket {
        b1: CMD_STATUS,
        b2: status_flags(running, paused, support_reconnect) as u8,
        b3: 0,
        b4: 0,
        i1: 0,
    }
}

/// A SYNC1 packet.
pub open spec fn sync1_packet(data: u8, control: u8, timestamp: u32) -> BgbPacket {
    BgbPacket { b1: CMD_SYNC1, b2: data, b3: sanitized_control(control), b4: 0, i1: timestamp }
}

/// A SYNC2 packet.
pub open spec fn sync2_packet(data: u8, response_to_sync1: bool) -> BgbPacket {
    BgbPacket {
        b1: CMD_SYNC2,
        b2: data,
        b3: 0x80,
        b4: if response_to_sync1 {
            1
        } else {
            0
        },
        i1: 0,
    }
}

/// The WANTDISCONNECT packet.
pub open spec fn disconnect_packet() -> BgbPacket {
    BgbPacket { b1: CMD_WANTDISCONNECT, b2: 0, b3: 0, b4: 0, i1: 0 }
}

impl BgbPacket {
    /// The packet on the wire.
    pub open spec fn bytes(self) -> Seq<u8> {
        seq![self.b1, self.b2, self.b3, self.b4] + le_bytes(self.i1)
    }

    /// The packet that eight bytes of the wire are.
    pub open spec fn of_bytes(b: Seq<u8>) -> Self
        recommends
            b.len() == 8,
    {
        BgbPacket {
            b1: b[0],
            b2: b[1],
            b3: b[2],
            b4: b[3],
            i1: le_value(b.subrange(4, 8)) as u32,
        }
    }

    /// Whether STATUS flags say that the peer is paused.
    pub open spec fn says_paused(self) -> bool {
        self.b2 & STATUS_PAUSED != 0
    }

    /// Whether STATUS flags say that the peer can reconnect.
    pub open spec fn says_support_reconnect(self) -> bool {
        self.b2 & STATUS_SUPPORT_RECONNECT != 0
    }

    pub fn to_bytes(self) -> (buf: [u8; RX_PACKET_SIZE])
        ensures
            buf@ == self.bytes(),
    {
        let i1: u32 = self.i1;
        let low: u8 = (i1 % 0x100) as u8;
        let mid: u8 = (i1 / 0x100 % 0x100) as u8;
        let high: u8 = (i1 / 0x1_0000 % 0x100) as u8;
        let top: u8 = (i1 / 0x100_0000) as u8;
        [self.b1, self.b2, self.b3, self.b4, low, mid, high, top]
    }

    pub fn from_bytes(buf: &[u8; RX_PACKET_SIZE]) -> (packet: Self)
        ensures
            packet == Self::of_bytes(buf@),
    {
        let low: u32 = buf[4] as u32;
        let mid: u32 = buf[5] as u32;
        let high: u32 = buf[6] as u32;
        let top: u32 = buf[7] as u32;
        Self {
            b1: buf[0],
            b2: buf[1],
            b3: buf[2],
            b4: buf[3],
            i1: low + 0x100 * mid + 0x1_0000 * high + 0x100_0000 * top,
        }
    }

    pub fn version() -> (packet: Self)
        ensures
            packet == version_packet(),
    {
        Self { b1: CMD_VERSION, b2: 1, b3: 4, b4: 0, i1: 0 }
    }

    /// Whether the packet is the VERSION that this protocol answers to.
    pub open spec fn is_version(self) -> bool {
        self.b1 == CMD_VERSION && self.b2 == 1 && self.b3 == 4 && self.b4 == 0
    }

    pub fn status(running: bool, paused: bool, support_reconnect: bool) -> (packet: Self)
        ensures
            packet == status_packet(running, paused, support_reconnect),
            packet.says_paused() == paused,
            packet.says_support_reconnect() == support_reconnect,
    {
        let mut flags: u8 = 0;
        if running {
            flags = flags | STATUS_RUNNING;
        }
        if paused {
            flags = flags | STATUS_PAUSED;
        }
        if support_reconnect {
            flags = flags | STATUS_SUPPORT_RECONNECT;
        }
        proof {
            assert(0u8 | 1 == 1 && 0u8 | 2 == 2 && 0u8 | 4 == 4 && 1u8 | 2 == 3 && 1u8 | 4 == 5
                && 2u8 | 4 == 6 && 3u8 | 4 == 7 && 0u8 & 2 == 0 && 1u8 & 2 == 0 && 2u8 & 2 == 2
                && 3u8 & 2 == 2 && 4u8 & 2 == 0 && 5u8 & 2 == 0 && 6u8 & 2 == 2 && 7u8 & 2
                == 2 && 0u8 & 4 == 0 && 1u8 & 4 == 0 && 2u8 & 4 == 0 && 3u8 & 4 == 0 && 4u8 & 4
                == 4 && 5u8 & 4 == 4 && 6u8 & 4 == 4 && 7u8 & 4 == 4) by (bit_vector);
        }
        Self { b1: CMD_STATUS, b2: flags, b3: 0, b4: 0, i1: 0 }
    }

    pub fn sync1(data: u8, control: u8, timestamp: u32) -> (packet: Self)
        ensures
            packet == sync1_packet(data, control, timestamp),
    {
        Self { b1: CMD_SYNC1, b2: data, b3: sanitize_sync1_control(control), b4: 0, i1: timestamp }
    }

    pub fn sync2(data: u8, response_to_sync1: bool) -> (packet: Self)
        ensures
            packet == sync2_packet(data, response_to_sync1),
    {
        Self {
            b1: CMD_SYNC2,
            b2: data,
            b3: 0x80,
            b4: if response_to_sync1 {
                1
            } else {
                0
            },
            i1: 0,
        }
    }

    pub fn sync3_ack() -> (packet: Self)
        ensures
            packet == (BgbPacket { b1: CMD_SYNC3, b2: 1, b3: 0, b4: 0, i1: 0 }),
    {
        Self { b1: CMD_SYNC3, b2: 1, b3: 0, b4: 0, i1: 0 }
    }

    /// Timestamps have 31 bits.
    pub fn sync3_timestamp(timestamp: u32) -> (packet: Self)
        ensures
            packet == (BgbPacket {
                b1: CMD_SYNC3,
                b2: 0,
                b3: 0,
                b4: 0,
                i1: (timestamp as int % 0x8000_0000) as u32,
            }),
    {
        proof {
            crate::bits::lemma_timestamp(timestamp);
        }
        Self { b1: CMD_SYNC3, b2: 0, b3: 0, b4: 0, i1: timestamp & 0x7FFF_FFFF }
    }

    pub fn want_disconnect() -> (packet: Self)
        ensures
            packet == disconnect_packet(),
    {
        Self { b1: CMD_WANTDISCONNECT, b2: 0, b3: 0, b4: 0, i1: 0 }
    }
}

impl Default for BgbPacket {
    fn default() -> (packet: Self)
        ensures
            packet == (BgbPacket { b1: 0, b2: 0, b3: 0, b4: 0, i1: 0 }),
    {
        Self { b1: 0, b2: 0, b3: 0, b4: 0, i1: 0 }
    }
}

/// A SYNC1 control byte with bits 0 and 7 set and only the rate bits 1 and 2
/// kept from `control`.
pub open spec fn sanitized_control(control: u8) -> u8 {
    0x81 | (control & 0x06)
}

/// The SYNC1 control byte of a transfer rate.
pub open spec fn control_value(high_speed: bool, double_speed: bool) -> int {
    0x81 + (if high_speed {
        2int
    } else {
        0
    }) + (if double_speed {
        4int
    } else {
        0
    })
}

/// Number of dots between two clocks that a SYNC1 control byte asks for.
pub open spec fn control_dots(control: u8) -> int {
    crate::serial::clock_period(true, control & 0x04 != 0, control & 0x02 != 0)
}

pub fn sanitize_sync1_control(control: u8) -> (sanitized: u8)
    ensures
        sanitized == sanitized_control(control),
{
    // Only bits 0,1,2,7 are valid in SYNC1 control.
    0x81 | (control & 0x06)
}

pub fn bgb_sync1_control_value(high_speed: bool, double_speed: bool) -> (control: u8)
    ensures
        control == control_value(high_speed, double_speed),
{
    let high: u8 = if high_speed {
        1
    } else {
        0
    };
    let double: u8 = if double_speed {
        1
    } else {
        0
    };
    proof {
        assert(high <= 1 && double <= 1 ==> 0x80u8 | 0x01 | (high << 1) | (double << 2) == 0x81 + 2
            * high + 4 * double) by (bit_vector);
    }
    0x80 | 0x01 | (high << 1) | (double << 2)
}

pub fn bgb_sync1_control_to_dot_cycles_per_bit(control: u8) -> (dots: u32)
    ensures
        dots == control_dots(control),
{
    let high_speed = (control & 0x02) != 0;
    let double_speed = (control & 0x04) != 0;
    serial_dot_cycles_per_bit(high_speed, double_speed)
}

/// Reading a packet back from its bytes gives the packet.
pub proof fn law_packet_roundtrip(packet: BgbPacket)
    ensures
        packet.bytes().len() == 8,
        BgbPacket::of_bytes(packet.bytes()) == packet,
{
    assert(packet.bytes().subrange(4, 8) =~= le_bytes(packet.i1));
}

/// Writing the packet that eight bytes are gives the eight bytes.
pub proof fn law_bytes_roundtrip(b: Seq<u8>)
    requires
        b.len() == 8,
    ensures
        BgbPacket::of_bytes(b).bytes() == b,
{
    let tail = b.subrange(4, 8);
    assert(tail[0] == b[4] && tail[1] == b[5] && tail[2] == b[6] && tail[3] == b[7]);
    lemma_le_digits(b[4] as int, b[5] as int, b[6] as int, b[7] as int);
    assert(BgbPacket::of_bytes(b).bytes() =~= b);
}

/// The digits of a number in base 256 are its bytes.
proof fn lemma_le_digits(low: int, mid: int, high: int, top: int)
    requires
        0 <= low < 0x100,
        0 <= mid < 0x100,
        0 <= high < 0x100,
        0 <= top < 0x100,
    ensures
        ({
            let value = low + 0x100 * mid + 0x1_0000 * high + 0x100_0000 * top;
            &&& 0 <= value < 0x1_0000_0000
            &&& value % 0x100 == low
            &&& value / 0x100 % 0x100 == mid
            &&& value / 0x1_0000 % 0x100 == high
            &&& value / 0x100_0000 == top
        }),
{
    let value = low + 0x100 * mid + 0x1_0000 * high + 0x100_0000 * top;
    let upper = mid + 0x100 * high + 0x1_0000 * top;
    assert(value == 0x100 * upper + low);
    assert(value / 0x100 == upper && value % 0x100 == low);
    let upper2 = high + 0x100 * top;
    assert(value == 0x1_0000 * upper2 + (low + 0x100 * mid));
    assert(value / 0x1_0000 == upper2);
    assert(upper == 0x100 * upper2 + mid);
    assert(upper % 0x100 == mid);
    assert(upper2 % 0x100 == high);
    assert(value == 0x100_0000 * top + (low + 0x100 * mid + 0x1_0000 * high));
}

/// Different packets have different bytes.
pub proof fn law_packet_bytes_injective(p: BgbPacket, q: BgbPacket)
    requires
        p.bytes() == q.bytes(),
    ensures
        p == q,
{
    law_packet_roundtrip(p);
    law_packet_roundtrip(q);
}

/// The rate that a master announces in its SYNC1 is the rate that the slave
/// reads out of it, and no sanitizing on the way changes it.
pub proof fn law_announced_rate_is_read_back(high_speed: bool, double_speed: bool, control: u8)
    requires
        control == control_value(high_speed, double_speed),
    ensures
        control_dots(control) == crate::serial::clock_period(true, double_speed, high_speed),
        sanitized_control(control) == control,
{
    assert(0x81u8 & 2 == 0 && 0x81u8 & 4 == 0 && 0x83u8 & 2 != 0 && 0x83u8 & 4 == 0 && 0x85u8 & 2
        == 0 && 0x85u8 & 4 != 0 && 0x87u8 & 2 != 0 && 0x87u8 & 4 != 0 && 0x81u8 | (0x81u8
        & 6) == 0x81 && 0x81u8 | (0x83u8 & 6) == 0x83 && 0x81u8 | (0x85u8 & 6) == 0x85 && 0x81u8 | (0x87u8 & 6) == 0x87) by (bit_vector);
}

/// A sanitized control byte asks for the same rate, sanitizing it again changes
/// nothing, and it is never zero.
pub proof fn law_sanitizing_keeps_the_rate(control: u8)
    ensures
        control_dots(sanitized_control(control)) == control_dots(control),
        sanitized_control(sanitized_control(control)) == sanitized_control(control),
        sanitized_control(control) != 0,
{
    assert((0x81u8 | (control & 0x06)) & 0x02 == control & 0x02 && (0x81u8 | (control & 0x06)) & 0x04
        == control & 0x04 && 0x81u8 | ((0x81u8 | (control & 0x06)) & 0x06) == 0x81u8 | (control
        & 0x06) && 0x81u8 | (control & 0x06) != 0) by (bit_vector);
}

} // verus!
