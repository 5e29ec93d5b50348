//! Log sinks, texts and the codes of libmobile.

use std::cell::RefCell;
use std::sync::{Arc, Mutex};
use vibe_emu::diagnostics::{emit, has_log_sink, try_set_log_sink, Level, LogSink, LogSlot};
use vibe_emu::mobile_sys::{
    mobile_action, mobile_adapter_device, mobile_addrtype, mobile_number, mobile_socktype,
    MOBILE_SERIAL_IDLE_BYTE, MOBILE_SERIAL_IDLE_WORD,
};
use vibe_emu::text::format_serial_bytes;

struct Recorder {
    name: u8,
    lines: RefCell<Vec<(Level, String, String)>>,
}

impl Recorder {
    fn new(name: u8) -> Self {
        Recorder { name, lines: RefCell::new(Vec::new()) }
    }
}

impl LogSink for Recorder {
    fn log(&self, level: Level, target: &str, message: &str) {
        self.lines.borrow_mut().push((level, target.to_string(), message.to_string()));
        assert_eq!(self.name, 1);
    }
}

#[test]
fn the_first_sink_stays() {
    let mut slot = LogSlot::new();
    assert!(!has_log_sink(&slot));
    assert!(!emit(&slot, Level::Info, "core", "lost"));
    assert!(try_set_log_sink(&mut slot, Recorder::new(1)).is_ok());
    assert!(has_log_sink(&slot));
    match try_set_log_sink(&mut slot, Recorder::new(2)) {
        Ok(()) => panic!("a second sink was taken"),
        Err(second) => assert_eq!(second.name, 2),
    }
    assert!(emit(&slot, Level::Warn, "core", "kept"));
}

#[test]
fn serial_text_escapes_what_cannot_be_printed() {
    assert_eq!(format_serial_bytes(b"Passed all tests"), "Passed all tests");
    assert_eq!(format_serial_bytes(&[0x00, 0x0A, 0x1F, 0x7F, 0xAB, 0xFF]), "\\x00\\x0A\\x1F\\x7F\\xAB\\xFF");
    assert_eq!(format_serial_bytes(b" ~"), " ~");
    assert_eq!(format_serial_bytes(&[]), "");
    let whole = format_serial_bytes(b"ab\x01cd");
    assert_eq!(whole, format_serial_bytes(b"ab\x01") + &format_serial_bytes(b"cd"));
}

#[test]
fn mobile_codes() {
    assert_eq!(mobile_adapter_device::MOBILE_ADAPTER_GAMEBOY.code(), 0);
    assert_eq!(mobile_adapter_device::MOBILE_ADAPTER_GAMEBOY_ADVANCE.code(), 1);
    assert_eq!(mobile_adapter_device::MOBILE_ADAPTER_BLUE.code(), 8);
    assert_eq!(mobile_adapter_device::MOBILE_ADAPTER_YELLOW.code(), 9);
    assert_eq!(mobile_adapter_device::MOBILE_ADAPTER_GREEN.code(), 10);
    assert_eq!(mobile_adapter_device::MOBILE_ADAPTER_RED.code(), 11);
    let actions = [
        mobile_action::MOBILE_ACTION_PROCESS_COMMAND,
        mobile_action::MOBILE_ACTION_DROP_CONNECTION,
        mobile_action::MOBILE_ACTION_RESET,
        mobile_action::MOBILE_ACTION_RESET_SERIAL,
        mobile_action::MOBILE_ACTION_CHANGE_32BIT_MODE,
        mobile_action::MOBILE_ACTION_WRITE_CONFIG,
        mobile_action::MOBILE_ACTION_INIT_NUMBER,
    ];
    assert_eq!(mobile_action::MOBILE_ACTION_NONE.code(), 0);
    for (i, action) in actions.iter().enumerate() {
        assert_eq!(action.code(), 1 << i);
    }
    assert_eq!(mobile_socktype::MOBILE_SOCKTYPE_TCP.code(), 0);
    assert_eq!(mobile_socktype::MOBILE_SOCKTYPE_UDP.code(), 1);
    assert_eq!(mobile_addrtype::MOBILE_ADDRTYPE_NONE.code(), 0);
    assert_eq!(mobile_addrtype::MOBILE_ADDRTYPE_IPV4.code(), 1);
    assert_eq!(mobile_addrtype::MOBILE_ADDRTYPE_IPV6.code(), 2);
    assert_eq!(mobile_number::MOBILE_NUMBER_USER.code(), 0);
    assert_eq!(mobile_number::MOBILE_NUMBER_PEER.code(), 1);
    assert_eq!(MOBILE_SERIAL_IDLE_WORD.to_le_bytes(), [MOBILE_SERIAL_IDLE_BYTE; 4]);
}

struct Shared {
    lines: Arc<Mutex<Vec<(Level, String, String)>>>,
}

impl LogSink for Shared {
    fn log(&self, level: Level, target: &str, message: &str) {
        self.lines.lock().unwrap().push((level, target.to_string(), message.to_string()));
    }
}

#[test]
fn the_sink_receives_each_message_once() {
    let first = Arc::new(Mutex::new(Vec::new()));
    let second = Arc::new(Mutex::new(Vec::new()));
    let mut slot = LogSlot::new();
    assert!(!emit(&slot, Level::Info, "core", "lost"));
    assert!(try_set_log_sink(&mut slot, Shared { lines: Arc::clone(&first) }).is_ok());
    assert!(emit(&slot, Level::Warn, "core", "one"));
    assert!(try_set_log_sink(&mut slot, Shared { lines: Arc::clone(&second) }).is_err());
    assert!(emit(&slot, Level::Trace, "mmu", "two"));
    assert_eq!(
        *first.lock().unwrap(),
        [
            (Level::Warn, "core".to_string(), "one".to_string()),
            (Level::Trace, "mmu".to_string(), "two".to_string()),
        ]
    );
    assert!(second.lock().unwrap().is_empty());
}
