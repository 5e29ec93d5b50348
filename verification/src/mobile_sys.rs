//! Constants and codes of libmobile's public C interface (mobile.h).

#![allow(non_camel_case_types)]

use vstd::prelude::*;

verus! {

/// Maximum number of concurrent libmobile connections.
pub const MOBILE_MAX_CONNECTIONS: usize = 2;

/// Maximum number of independent libmobile timers.
pub const MOBILE_MAX_TIMERS: usize = 4;

/// Maximum transfer size for a single serial transaction.
pub const MOBILE_MAX_TRANSFER_SIZE: usize = 0xFE;

/// Maximum length of a phone number string.
pub const MOBILE_MAX_NUMBER_SIZE: usize = 0x20;

/// Size of the persisted configuration blob.
pub const MOBILE_CONFIG_SIZE: usize = 0x200;

/// Size of the relay token in bytes.
pub const MOBILE_RELAY_TOKEN_SIZE: usize = 0x10;

/// Idle filler byte used by the mobile serial protocol.
pub const MOBILE_SERIAL_IDLE_BYTE: u8 = 0xD2;

/// 32-bit form of [`MOBILE_SERIAL_IDLE_BYTE`].
pub const MOBILE_SERIAL_IDLE_WORD: u32 = 0xD2D2D2D2;

/// IPv4 host length in bytes.
pub const MOBILE_HOSTLEN_IPV4: usize = 4;

/// IPv6 host length in bytes.
pub const MOBILE_HOSTLEN_IPV6: usize = 16;

/// Opaque libmobile adapter type.
pub struct mobile_adapter {
    _private: [u8; 0],
}

/// Adapter device identifier.
#[derive(Clone, Copy, Debug, PartialEq, Eq, Structural)]
pub enum mobile_adapter_device {
    MOBILE_ADAPTER_GAMEBOY,
    MOBILE_ADAPTER_GAMEBOY_ADVANCE,
    MOBILE_ADAPTER_BLUE,
    MOBILE_ADAPTER_YELLOW,
    MOBILE_ADAPTER_GREEN,
    MOBILE_ADAPTER_RED,
}

/// Bitflags describing actions requested by libmobile.
#[derive(Clone, Copy, Debug, PartialEq, Eq, Structural)]
pub enum mobile_action {
    MOBILE_ACTION_NONE,
    MOBILE_ACTION_PROCESS_COMMAND,
    MOBILE_ACTION_DROP_CONNECTION,
    MOBILE_ACTION_RESET,
    MOBILE_ACTION_RESET_SERIAL,
    MOBILE_ACTION_CHANGE_32BIT_MODE,
    MOBILE_ACTION_WRITE_CONFIG,
    MOBILE_ACTION_INIT_NUMBER,
}

/// Socket type requested by libmobile.
#[derive(Clone, Copy, Debug, PartialEq, Eq, Structural)]
pub enum mobile_socktype {
    MOBILE_SOCKTYPE_TCP,
    MOBILE_SOCKTYPE_UDP,
}

/// Address type tag of an address.
#[derive(Clone, Copy, Debug, PartialEq, Eq, Structural)]
pub enum mobile_addrtype {
    MOBILE_ADDRTYPE_NONE,
    MOBILE_ADDRTYPE_IPV4,
    MOBILE_ADDRTYPE_IPV6,
}

/// Which phone number (user or peer) is being updated.
#[derive(Clone, Copy, Debug, PartialEq, Eq, Structural)]
pub enum mobile_number {
    MOBILE_NUMBER_USER,
    MOBILE_NUMBER_PEER,
}

/// IPv4 address representation.
#[derive(Clone, Copy)]
pub struct mobile_addr4 {
    pub type_: mobile_addrtype,
    pub port: u32,
    pub host: [u8; MOBILE_HOSTLEN_IPV4],
}

/// IPv6 address representation.
#[derive(Clone, Copy)]
pub struct mobile_addr6 {
    pub type_: mobile_addrtype,
    pub port: u32,
    pub host: [u8; MOBILE_HOSTLEN_IPV6],
}

impl mobile_adapter_device {
    /// The number that stands for the device in the C interface.
    pub open spec fn number(self) -> u32 {
        match self {
            mobile_adapter_device::MOBILE_ADAPTER_GAMEBOY => 0,
            mobile_adapter_device::MOBILE_ADAPTER_GAMEBOY_ADVANCE => 1,
            mobile_adapter_device::MOBILE_ADAPTER_BLUE => 8,
            mobile_adapter_device::MOBILE_ADAPTER_YELLOW => 9,
            mobile_adapter_device::MOBILE_ADAPTER_GREEN => 10,
            mobile_adapter_device::MOBILE_ADAPTER_RED => 11,
        }
    }

    pub fn code(self) -> (code: u32)
        ensures
            code == self.number(),
    {
        match self {
            mobile_adapter_device::MOBILE_ADAPTER_GAMEBOY => 0,
            mobile_adapter_device::MOBILE_ADAPTER_GAMEBOY_ADVANCE => 1,
            mobile_adapter_device::MOBILE_ADAPTER_BLUE => 8,
            mobile_adapter_device::MOBILE_ADAPTER_YELLOW => 9,
            mobile_adapter_device::MOBILE_ADAPTER_GREEN => 10,
            mobile_adapter_device::MOBILE_ADAPTER_RED => 11,
        }
    }
}

impl mobile_action {
    /// The bit that stands for the action in the C interface.
    pub open spec fn bit(self) -> Option<u32> {
        match self {
            mobile_action::MOBILE_ACTION_NONE => None,
            mobile_action::MOBILE_ACTION_PROCESS_COMMAND => Some(0),
            mobile_action::MOBILE_ACTION_DROP_CONNECTION => Some(1),
            mobile_action::MOBILE_ACTION_RESET => Some(2),
            mobile_action::MOBILE_ACTION_RESET_SERIAL => Some(3),
            mobile_action::MOBILE_ACTION_CHANGE_32BIT_MODE => Some(4),
            mobile_action::MOBILE_ACTION_WRITE_CONFIG => Some(5),
            mobile_action::MOBILE_ACTION_INIT_NUMBER => Some(6),
        }
    }

    /// The flag that stands for the action in the C interface.
    pub open spec fn flag(self) -> u32 {
        match self.bit() {
            Some(bit) => 1u32 << bit,
            None => 0,
        }
    }

    pub fn code(self) -> (code: u32)
        ensures
            code == self.flag(),
    {
        match self {
            mobile_action::MOBILE_ACTION_NONE => 0,
            mobile_action::MOBILE_ACTION_PROCESS_COMMAND => 1u32 << 0u32,
            mobile_action::MOBILE_ACTION_DROP_CONNECTION => 1u32 << 1u32,
            mobile_action::MOBILE_ACTION_RESET => 1u32 << 2u32,
            mobile_action::MOBILE_ACTION_RESET_SERIAL => 1u32 << 3u32,
            mobile_action::MOBILE_ACTION_CHANGE_32BIT_MODE => 1u32 << 4u32,
            mobile_action::MOBILE_ACTION_WRITE_CONFIG => 1u32 << 5u32,
            mobile_action::MOBILE_ACTION_INIT_NUMBER => 1u32 << 6u32,
        }
    }
}

impl mobile_socktype {
    /// The number that stands for the socket type in the C interface.
    pub open spec fn number(self) -> u32 {
        match self {
            mobile_socktype::MOBILE_SOCKTYPE_TCP => 0,
            mobile_socktype::MOBILE_SOCKTYPE_UDP => 1,
        }
    }

    pub fn code(self) -> (code: u32)
        ensures
            code == self.number(),
    {
        match self {
            mobile_socktype::MOBILE_SOCKTYPE_TCP => 0,
            mobile_socktype::MOBILE_SOCKTYPE_UDP => 1,
        }
    }
}

impl mobile_addrtype {
    /// The number that stands for the address type in the C interface.
    pub open spec fn number(self) -> u32 {
        match self {
            mobile_addrtype::MOBILE_ADDRTYPE_NONE => 0,
            mobile_addrtype::MOBILE_ADDRTYPE_IPV4 => 1,
            mobile_addrtype::MOBILE_ADDRTYPE_IPV6 => 2,
        }
    }

    pub fn code(self) -> (code: u32)
        ensures
            code == self.number(),
    {
        match self {
            mobile_addrtype::MOBILE_ADDRTYPE_NONE => 0,
            mobile_addrtype::MOBILE_ADDRTYPE_IPV4 => 1,
            mobile_addrtype::MOBILE_ADDRTYPE_IPV6 => 2,
        }
    }
}

impl mobile_number {
    /// The number that stands for the phone number's owner in the C interface.
    pub open spec fn number(self) -> u32 {
        match self {
            mobile_number::MOBILE_NUMBER_USER => 0,
            mobile_number::MOBILE_NUMBER_PEER => 1,
        }
    }

    pub fn code(self) -> (code: u32)
        ensures
            code == self.number(),
    {
        match self {
            mobile_number::MOBILE_NUMBER_USER => 0,
            mobile_number::MOBILE_NUMBER_PEER => 1,
        }
    }
}

/// No two devices share a number.
pub proof fn law_device_numbers_differ(a: mobile_adapter_device, b: mobile_adapter_device)
    ensures
        a.number() == b.number() ==> a == b,
{
}

/// Actions can be combined into one word: no two share a bit.
pub proof fn law_action_flags_are_disjoint(a: mobile_action, b: mobile_action)
    ensures
        a != b ==> a.flag() & b.flag() == 0,
{
    if let (Some(x), Some(y)) = (a.bit(), b.bit()) {
        assert(x < 32 && y < 32 && x != y ==> (1u32 << x) & (1u32 << y) == 0) by (bit_vector);
    } else {
        let (x, y) = (a.flag(), b.flag());
        assert(0u32 & y == 0 && x & 0u32 == 0) by (bit_vector);
    }
}

/// The codes as the C interface has them.
pub proof fn law_codes()
    ensures
        mobile_adapter_device::MOBILE_ADAPTER_GAMEBOY.number() == 0,
        mobile_adapter_device::MOBILE_ADAPTER_GAMEBOY_ADVANCE.number() == 1,
        mobile_adapter_device::MOBILE_ADAPTER_BLUE.number() == 8,
        mobile_adapter_device::MOBILE_ADAPTER_YELLOW.number() == 9,
        mobile_adapter_device::MOBILE_ADAPTER_GREEN.number() == 10,
        mobile_adapter_device::MOBILE_ADAPTER_RED.number() == 11,
        mobile_action::MOBILE_ACTION_NONE.flag() == 0,
        mobile_action::MOBILE_ACTION_PROCESS_COMMAND.flag() == 1,
        mobile_action::MOBILE_ACTION_DROP_CONNECTION.flag() == 2,
        mobile_action::MOBILE_ACTION_RESET.flag() == 4,
        mobile_action::MOBILE_ACTION_RESET_SERIAL.flag() == 8,
        mobile_action::MOBILE_ACTION_CHANGE_32BIT_MODE.flag() == 16,
        mobile_action::MOBILE_ACTION_WRITE_CONFIG.flag() == 32,
        mobile_action::MOBILE_ACTION_INIT_NUMBER.flag() == 64,
        mobile_socktype::MOBILE_SOCKTYPE_TCP.number() == 0,
        mobile_socktype::MOBILE_SOCKTYPE_UDP.number() == 1,
        mobile_addrtype::MOBILE_ADDRTYPE_NONE.number() == 0,
        mobile_addrtype::MOBILE_ADDRTYPE_IPV4.number() == 1,
        mobile_addrtype::MOBILE_ADDRTYPE_IPV6.number() == 2,
        mobile_number::MOBILE_NUMBER_USER.number() == 0,
        mobile_number::MOBILE_NUMBER_PEER.number() == 1,
{
    assert(1u32 << 0u32 == 1 && 1u32 << 1u32 == 2 && 1u32 << 2u32 == 4 && 1u32 << 3u32 == 8 && 1u32
        << 4u32 == 16 && 1u32 << 5u32 == 32 && 1u32 << 6u32 == 64) by (bit_vector);
}

/// The idle word is the idle byte four times.
pub proof fn law_idle_word()
    ensures
        MOBILE_SERIAL_IDLE_WORD == 0x0101_0101 * MOBILE_SERIAL_IDLE_BYTE,
{
}

} // verus!
