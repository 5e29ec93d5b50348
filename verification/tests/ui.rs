//! The decisions of the front end.

use vibe_emu::snapshot::CpuSnapshot;
use vibe_emu::ui::config::{
    cgb_mode, default_keybinds_path, default_log_filter, dmg_palette, reception_preview,
    wanted_peripheral, wgpu_backend, BackendChoice, ConfigBase, LogLevelArg, WgpuBackendArg,
    NEUTRAL_DMG_PALETTE,
};
use vibe_emu::ui::debugger::register_rows;
use vibe_emu::ui::emulator::{
    adapter_work, settle_peripheral, AdapterWork, EmuCommand, EmuLoop, EmuStep, HeadlessLimits,
    PortChoice, SerialPeripheral, Speed, UiAction, UiToEmu, FRAME_TIME_NS,
};
use vibe_emu::ui::icon::{icon_image, load_window_icon};
use vibe_emu::ui::pixels::{convert_frame, draw_game_screen, frame_bytes, to_rgba_word};
use vibe_emu::ui::state::{
    default_key, handle_ui_event, rebind_rows, take_frame, EmulationMenu, FileMenu, Key, KeyEvent,
    KeyStep, MenuBar, MouseButton, OptionsMenu, RebindTarget, SerialMenu, SpawnStep, ToolsMenu,
    UiState,
};
use vibe_emu::ui::vram_viewer::{build_bg_map_texture, screen_frames, VramTab, VramViewerWindow};
use vibe_emu::ui::window::{
    clamp_clip, close_requested, desired_main_inner_size, game_viewport, redraws_on_input, Area,
    CloseStep, Surface, WindowKind,
};

const NORMAL: Speed = Speed { fast: false };

fn closed() -> MenuBar<u8> {
    MenuBar { file: None, emulation: None, tools: None, options: None }
}

fn emulation(toggle_pause: bool, serial: Option<SerialMenu>) -> MenuBar<u8> {
    MenuBar { emulation: Some(EmulationMenu { toggle_pause, serial }), ..closed() }
}

fn tools(debugger: bool, vram_viewer: bool) -> MenuBar<u8> {
    MenuBar { tools: Some(ToolsMenu { debugger, vram_viewer }), ..closed() }
}

#[test]
fn a_menu_pauses_and_resumes() {
    let mut ui: UiState<u8> = UiState::new(SerialPeripheral::Unplugged);
    ui.build_ui(emulation(false, None), true);
    assert!(ui.paused && ui.menu_pause_active);
    assert_eq!(ui.pending_pause, Some(true));
    assert_eq!(ui.pause_label(), "Resume");
    ui.build_ui(emulation(false, None), true);
    assert!(ui.paused);
    ui.build_ui(closed(), true);
    assert!(!ui.paused && !ui.menu_pause_active);
    assert_eq!(ui.pending_pause, Some(false));
    assert_eq!(ui.pause_label(), "Pause");

    // A machine that was paused before stays paused.
    ui.paused = true;
    ui.pending_pause = None;
    ui.build_ui(tools(false, false), true);
    ui.build_ui(closed(), true);
    assert!(ui.paused);
    assert_eq!(ui.pending_pause, None);
}

#[test]
fn a_manual_pause_overrides_the_menu() {
    let mut ui: UiState<u8> = UiState::new(SerialPeripheral::Unplugged);
    // Opened, then resumed by hand: it runs on.
    ui.build_ui(emulation(false, None), true);
    ui.build_ui(emulation(true, None), true);
    assert!(!ui.paused);
    ui.build_ui(closed(), true);
    assert!(!ui.paused);
    assert_eq!(ui.pending_pause, Some(false));
    // Paused by hand with the opening of the menu: it stays paused.
    ui.build_ui(emulation(true, None), true);
    ui.build_ui(closed(), true);
    assert!(ui.paused);
    assert_eq!(ui.pending_pause, Some(true));
}

#[test]
fn tools_leave_it_paused() {
    let mut ui: UiState<u8> = UiState::new(SerialPeripheral::Unplugged);
    ui.build_ui(tools(false, false), true);
    ui.build_ui(tools(true, true), true);
    ui.build_ui(closed(), true);
    assert!(ui.paused && ui.spawn_debugger && ui.spawn_vram);
    assert_eq!(ui.pending_pause, Some(true));

    assert_eq!(ui.take_spawn(WindowKind::Debugger, true), SpawnStep::Nothing);
    assert!(ui.spawn_debugger);
    assert_eq!(ui.take_spawn(WindowKind::Debugger, false), SpawnStep::SpawnPaused);
    assert!(!ui.spawn_debugger);
    assert_eq!(ui.take_spawn(WindowKind::Debugger, false), SpawnStep::Nothing);
    assert_eq!(ui.take_spawn(WindowKind::VramViewer, false), SpawnStep::SpawnPaused);
    assert_eq!(ui.take_spawn(WindowKind::Options, false), SpawnStep::Nothing);
    ui.build_ui(MenuBar { options: Some(OptionsMenu { options: true }), ..closed() }, true);
    assert_eq!(ui.take_spawn(WindowKind::Options, false), SpawnStep::Spawn);
    assert_eq!(ui.take_spawn(WindowKind::Main, false), SpawnStep::Nothing);
}

#[test]
fn the_peripheral_is_chosen_once() {
    let mut ui: UiState<u8> = UiState::new(SerialPeripheral::Unplugged);
    let mobile = SerialMenu { unplug: false, mobile_adapter: true };
    ui.build_ui(emulation(false, Some(mobile)), true);
    assert_eq!(ui.serial_peripheral, SerialPeripheral::MobileAdapter);
    assert_eq!(ui.pending_serial_peripheral, Some(SerialPeripheral::MobileAdapter));
    ui.pending_serial_peripheral = None;
    ui.build_ui(emulation(false, Some(mobile)), true);
    assert_eq!(ui.pending_serial_peripheral, None);
    let unplug = SerialMenu { unplug: true, mobile_adapter: false };
    ui.build_ui(emulation(false, Some(unplug)), true);
    assert_eq!(ui.pending_serial_peripheral, Some(SerialPeripheral::Unplugged));
    // Without an adapter there is nothing to choose.
    ui.serial_peripheral = SerialPeripheral::MobileAdapter;
    ui.pending_serial_peripheral = None;
    ui.build_ui(emulation(false, Some(mobile)), false);
    assert_eq!(ui.serial_peripheral, SerialPeripheral::Unplugged);
    assert_eq!(ui.pending_serial_peripheral, None);
}

#[test]
fn messages_go_out_in_order() {
    let mut ui: UiState<u8> = UiState::new(SerialPeripheral::Unplugged);
    ui.build_ui(
        MenuBar { file: Some(FileMenu { load: Some(7), reset: false }), ..closed() },
        true,
    );
    ui.pending_serial_peripheral = Some(SerialPeripheral::MobileAdapter);
    let (msgs, redraw) = ui.take_messages();
    assert!(redraw);
    assert_eq!(msgs.len(), 4);
    assert!(matches!(
        msgs[0],
        UiToEmu::Command(EmuCommand::SetSerialPeripheral(SerialPeripheral::MobileAdapter))
    ));
    assert!(matches!(msgs[1], UiToEmu::Command(EmuCommand::SetPaused(true))));
    assert!(matches!(msgs[2], UiToEmu::Action(UiAction::Load(7))));
    assert!(matches!(msgs[3], UiToEmu::Command(EmuCommand::SetPaused(false))));
    assert!(!ui.paused);
    let (msgs, redraw) = ui.take_messages();
    assert!(msgs.is_empty() && !redraw);

    // A reset counts rather than a cartridge.
    ui.build_ui(
        MenuBar { file: Some(FileMenu { load: Some(7), reset: true }), ..closed() },
        true,
    );
    assert!(matches!(ui.pending_action, Some(UiAction::Reset)));
}

#[test]
fn options_and_rebinding() {
    let rows = rebind_rows();
    assert_eq!(rows.len(), 11);
    assert_eq!(rows[0].label, "Up");
    assert_eq!(rows[0].target, RebindTarget::Joypad(0x04));
    assert_eq!(rows[7].label, "Start");
    assert_eq!(rows[7].target, RebindTarget::Joypad(0x80));
    assert_eq!(rows[10].target, RebindTarget::Quit);

    let mut ui: UiState<u8> = UiState::new(SerialPeripheral::Unplugged);
    ui.draw_options_window(false, Some(RebindTarget::Pause));
    assert_eq!(ui.rebinding, Some(RebindTarget::Pause));
    ui.draw_options_window(false, None);
    assert_eq!(ui.rebinding, Some(RebindTarget::Pause));
    ui.draw_options_window(true, None);
    assert_eq!(ui.rebinding, None);
}

#[test]
fn keys_in_order_of_precedence() {
    let mut ui: UiState<u8> = UiState::new(SerialPeripheral::Unplugged);
    let mut speed = NORMAL;
    let mut joypad = 0xFF;
    let all = KeyEvent {
        pressed: true,
        in_options: false,
        is_quit: true,
        is_pause: true,
        is_fast_forward: true,
        joypad_mask: Some(0x10),
        text_input: false,
    };
    ui.rebinding = Some(RebindTarget::Quit);
    assert_eq!(
        ui.key_event(KeyEvent { in_options: true, ..all }, &mut speed, &mut joypad),
        KeyStep::Rebind(RebindTarget::Quit)
    );
    assert_eq!(ui.rebinding, None);
    assert_eq!(
        ui.key_event(KeyEvent { in_options: true, ..all }, &mut speed, &mut joypad),
        KeyStep::Ignore
    );
    assert_eq!(ui.key_event(all, &mut speed, &mut joypad), KeyStep::Quit);
    let release = KeyEvent { pressed: false, ..all };
    assert_eq!(ui.key_event(release, &mut speed, &mut joypad), KeyStep::Ignore);

    let no_quit = KeyEvent { is_quit: false, ..all };
    assert_eq!(ui.key_event(no_quit, &mut speed, &mut joypad), KeyStep::SetPaused(true));
    assert!(ui.paused);
    assert_eq!(ui.key_event(no_quit, &mut speed, &mut joypad), KeyStep::SetPaused(false));
    ui.menu_pause_active = true;
    let fast = Speed { fast: true };
    assert_eq!(ui.key_event(no_quit, &mut speed, &mut joypad), KeyStep::SetSpeed(fast));
    assert_eq!(speed.factor(), 4);
    let released = KeyEvent { pressed: false, ..no_quit };
    assert_eq!(ui.key_event(released, &mut speed, &mut joypad), KeyStep::SetSpeed(NORMAL));
    assert_eq!(speed.factor(), 1);
    ui.menu_pause_active = false;

    let button = KeyEvent { is_pause: false, is_fast_forward: false, ..no_quit };
    assert_eq!(ui.key_event(button, &mut speed, &mut joypad), KeyStep::UpdateInput(0xEF));
    assert_eq!(joypad, 0xEF);
    let typed = KeyEvent { text_input: true, ..button };
    assert_eq!(ui.key_event(typed, &mut speed, &mut joypad), KeyStep::Ignore);
    ui.paused = true;
    assert_eq!(ui.key_event(button, &mut speed, &mut joypad), KeyStep::Ignore);
    ui.paused = false;
    let up = KeyEvent { pressed: false, ..button };
    assert_eq!(ui.key_event(up, &mut speed, &mut joypad), KeyStep::UpdateInput(0xFF));
    let other = KeyEvent { joypad_mask: None, ..button };
    assert_eq!(ui.key_event(other, &mut speed, &mut joypad), KeyStep::Ignore);
}

#[test]
fn default_keys() {
    let mut joypad = 0xFF;
    let buttons = [
        (Key::Right, 0x01),
        (Key::Left, 0x02),
        (Key::Up, 0x04),
        (Key::Down, 0x08),
        (Key::S, 0x10),
        (Key::A, 0x20),
        (Key::LShift, 0x40),
        (Key::RShift, 0x40),
        (Key::Return, 0x80),
    ];
    for (key, mask) in buttons {
        assert_eq!(default_key(key, true, &mut joypad), KeyStep::UpdateInput(!mask));
        assert_eq!(default_key(key, false, &mut joypad), KeyStep::UpdateInput(0xFF));
    }
    assert_eq!(default_key(Key::Escape, true, &mut joypad), KeyStep::Quit);
    assert_eq!(default_key(Key::Escape, false, &mut joypad), KeyStep::Ignore);
    assert_eq!(default_key(Key::Other, true, &mut joypad), KeyStep::Ignore);
    assert_eq!(joypad, 0xFF);
}

#[test]
fn the_right_button_opens_the_context_menu() {
    let mut shown = false;
    handle_ui_event(MouseButton::Left, true, &mut shown);
    handle_ui_event(MouseButton::Right, false, &mut shown);
    assert!(!shown);
    handle_ui_event(MouseButton::Right, true, &mut shown);
    assert!(shown);
    handle_ui_event(MouseButton::Middle, true, &mut shown);
    assert!(shown);
}

#[test]
fn frames_are_swapped_if_they_fit() {
    let mut frame = vec![1, 2];
    assert_eq!(take_frame(&mut frame, vec![3, 4]), Some(vec![1, 2]));
    assert_eq!(frame, vec![3, 4]);
    assert_eq!(take_frame(&mut frame, vec![5]), None);
    assert_eq!(frame, vec![3, 4]);
}

#[test]
fn the_window_is_asked_for_once() {
    let mut ui: UiState<u8> = UiState::new(SerialPeripheral::Unplugged);
    assert_eq!(desired_main_inner_size(19), (320, 307));
    assert_eq!(ui.enforce_main_window_inner_size(19), Some((320, 307)));
    assert_eq!(ui.enforce_main_window_inner_size(19), None);
    assert_eq!(ui.enforce_main_window_inner_size(38), Some((320, 326)));
}

#[test]
fn emulator_loop_takes_messages() {
    let mut emu = EmuLoop::new(NORMAL, SerialPeripheral::MobileAdapter, 1_000);
    assert_eq!(emu.next_frame, 1_000 + FRAME_TIME_NS);
    assert!(emu.mobile_active);
    let pause: UiToEmu<u8> = UiToEmu::Command(EmuCommand::SetPaused(true));
    assert!(matches!(emu.message(pause, 5_000), EmuStep::Continue));
    assert!(emu.paused);
    assert_eq!(emu.next_frame, 5_000 + FRAME_TIME_NS);
    let fast = Speed { fast: true };
    let speed: UiToEmu<u8> = UiToEmu::Command(EmuCommand::SetSpeed(fast));
    assert!(matches!(emu.message(speed, 6_000), EmuStep::SetSpeed(s) if s == fast));
    assert_eq!(emu.speed, fast);
    let input: UiToEmu<u8> = UiToEmu::Command(EmuCommand::UpdateInput(0xFE));
    assert!(matches!(emu.message(input, 7_000), EmuStep::UpdateInput(0xFE)));
    let plug: UiToEmu<u8> =
        UiToEmu::Command(EmuCommand::SetSerialPeripheral(SerialPeripheral::Unplugged));
    assert!(matches!(
        emu.message(plug, 7_000),
        EmuStep::SetPeripheral(SerialPeripheral::Unplugged)
    ));
    let load: UiToEmu<u8> = UiToEmu::Action(UiAction::Load(9));
    assert!(matches!(emu.message(load, 7_000), EmuStep::Apply(UiAction::Load(9))));
    let stop: UiToEmu<u8> = UiToEmu::Command(EmuCommand::Shutdown);
    assert!(matches!(emu.message(stop, 7_000), EmuStep::Shutdown));
    assert_eq!(emu.next_frame, 6_000 + FRAME_TIME_NS);
    emu.frame_count = 10;
    emu.action_applied(8_000);
    assert_eq!(emu.frame_count, 0);
    assert_eq!(emu.next_frame, 8_000 + FRAME_TIME_NS);
}

#[test]
fn peripherals_are_settled() {
    let mobile = SerialPeripheral::MobileAdapter;
    let none = SerialPeripheral::Unplugged;
    assert_eq!(adapter_work(mobile, true), AdapterWork::Restart);
    assert_eq!(adapter_work(none, true), AdapterWork::Stop);
    assert_eq!(adapter_work(mobile, false), AdapterWork::Nothing);
    assert_eq!(settle_peripheral(mobile, true, Some(true), false), (mobile, PortChoice::Mobile));
    assert_eq!(
        settle_peripheral(mobile, true, None, true),
        (mobile, PortChoice::MobileDiagnosed)
    );
    assert_eq!(settle_peripheral(mobile, true, Some(false), true), (none, PortChoice::Null));
    assert_eq!(settle_peripheral(mobile, false, None, true), (none, PortChoice::Null));
    assert_eq!(settle_peripheral(none, true, Some(true), true), (none, PortChoice::Null));

    let mut emu = EmuLoop::new(NORMAL, mobile, 0);
    emu.mobile_time_accum_ns = 5;
    assert_eq!(emu.apply_serial_peripheral(mobile, true, Some(true), false), PortChoice::Mobile);
    assert!(emu.mobile_active);
    assert_eq!(emu.mobile_time_accum_ns, 0);
    assert_eq!(emu.apply_serial_peripheral(mobile, true, Some(false), false), PortChoice::Null);
    assert!(!emu.mobile_active);
    assert_eq!(emu.serial_peripheral, none);
}

#[test]
fn mobile_time_does_not_drift() {
    let mut emu = EmuLoop::new(NORMAL, SerialPeripheral::MobileAdapter, 0);
    let mut total: u64 = 0;
    for n in 1..=600u64 {
        total += emu.frame_done(true).unwrap_or(0) as u64;
        assert_eq!(total, n * FRAME_TIME_NS / 1_000_000);
        assert_eq!(total * 1_000_000 + emu.mobile_time_accum_ns, n * FRAME_TIME_NS);
    }
    assert_eq!(emu.frame_count, 600);
    assert_eq!(emu.frame_done(false), None);
    emu.mobile_active = false;
    assert_eq!(emu.frame_done(true), None);
    emu.frame_count = u64::MAX;
    emu.frame_done(true);
    assert_eq!(emu.frame_count, 0);
}

#[test]
fn frames_are_paced() {
    let mut emu = EmuLoop::new(NORMAL, SerialPeripheral::Unplugged, 0);
    assert_eq!(emu.pace(742_706), Some(16_000_000));
    assert_eq!(emu.next_frame, 2 * FRAME_TIME_NS);
    // Late: no sleep, and the schedule holds.
    assert_eq!(emu.pace(40_000_000), None);
    assert_eq!(emu.next_frame, 3 * FRAME_TIME_NS);
    emu.speed = Speed { fast: true };
    assert_eq!(emu.pace(41_000_000), None);
    assert_eq!(emu.next_frame, 41_000_000);
    assert!(!emu.over_budget(u64::MAX));
    emu.speed = NORMAL;
    assert!(!emu.over_budget(25_114_059));
    assert!(emu.over_budget(25_114_060));
    emu.frame_count = 120;
    assert!(emu.serial_due(true));
    assert!(!emu.serial_due(false));
    emu.frame_count = 121;
    assert!(!emu.serial_due(true));
}

#[test]
fn headless_limits() {
    let none = HeadlessLimits { frames: None, cycles: None, seconds: None };
    assert!(!none.stops_within_frame(u64::MAX, u64::MAX));
    assert!(!none.stops_after_frame(u64::MAX, u64::MAX));
    let cycles = HeadlessLimits { cycles: Some(100), ..none };
    assert!(!cycles.stops_within_frame(99, 0));
    assert!(cycles.stops_within_frame(100, 0));
    assert!(!cycles.stops_after_frame(1, 0));
    let frames = HeadlessLimits { frames: Some(2), ..none };
    assert!(!frames.stops_after_frame(1, 0));
    assert!(frames.stops_after_frame(2, 0));
    let seconds = HeadlessLimits { seconds: Some(3), ..none };
    assert!(!seconds.stops_within_frame(0, 2_999_999_999));
    assert!(seconds.stops_within_frame(0, 3_000_000_000));
    assert!(seconds.stops_after_frame(0, 3_000_000_000));
    let never = HeadlessLimits { seconds: Some(u64::MAX), ..none };
    assert!(!never.stops_after_frame(0, u64::MAX));
}

#[test]
fn windows_and_surfaces() {
    assert_eq!(WindowKind::Debugger.title(), "vibeEmu \u{2013} Debugger");
    assert_eq!(WindowKind::VramViewer.title(), "vibeEmu \u{2013} VRAM");
    assert_eq!(WindowKind::Options.title(), "vibeEmu \u{2013} Options");
    assert_eq!(WindowKind::Main.title(), "vibeEmu");
    assert_eq!(WindowKind::Main.initial_size(), (320, 320));
    assert_eq!(WindowKind::Debugger.initial_size(), (320, 288));
    assert_eq!(WindowKind::VramViewer.initial_size(), (640, 600));
    assert_eq!(WindowKind::Options.initial_size(), (520, 420));
    assert_eq!(WindowKind::Main.buffer_size(), (160, 144));
    assert_eq!(WindowKind::Options.buffer_size(), (1, 1));
    assert!(!redraws_on_input(WindowKind::Main, false, false, false));
    assert!(redraws_on_input(WindowKind::Main, false, true, false));
    assert!(redraws_on_input(WindowKind::Main, true, false, false));
    assert!(redraws_on_input(WindowKind::Debugger, false, false, false));

    let mut sent = false;
    assert_eq!(close_requested(WindowKind::Debugger, &mut sent), CloseStep::Remove);
    assert!(!sent);
    assert_eq!(
        close_requested(WindowKind::Main, &mut sent),
        CloseStep::Exit { send_shutdown: true }
    );
    assert_eq!(
        close_requested(WindowKind::Main, &mut sent),
        CloseStep::Exit { send_shutdown: false }
    );

    let mut surface = Surface::new((160, 144));
    assert_eq!(surface.surface_size(), (0, 0));
    assert_eq!(surface.buffer_size(), (160, 144));
    assert!(surface.mismatches(320, 320));
    assert!(!surface.mismatches(0, 320));
    assert!(!Surface::can_resize(320, 0));
    surface.resized(320, 320, false);
    assert_eq!(surface.surface_size(), (0, 0));
    surface.resized(320, 320, true);
    assert!(!surface.mismatches(320, 320));
    assert_eq!(surface.surface_size(), (320, 320));
}

#[test]
fn clip_is_clamped_to_the_surface() {
    let clip = Area { x: 10, y: 20, w: 100, h: 100 };
    assert_eq!(clamp_clip(clip, 200, 200), Some(clip));
    assert_eq!(clamp_clip(clip, 50, 60), Some(Area { x: 10, y: 20, w: 40, h: 40 }));
    assert_eq!(clamp_clip(clip, 10, 60), None);
    assert_eq!(clamp_clip(clip, 0, 0), None);
    assert_eq!(clamp_clip(Area { w: 0, ..clip }, 200, 200), None);
    let wide = Area { x: u32::MAX - 1, y: 0, w: u32::MAX, h: 1 };
    assert_eq!(
        clamp_clip(wide, u32::MAX, 1),
        Some(Area { x: u32::MAX - 1, y: 0, w: 1, h: 1 })
    );
}

#[test]
fn the_viewport_is_whole_and_centered() {
    // The size that is asked for: exactly twice, right below the menu bar.
    assert_eq!(game_viewport(320, 307, 160, 144, 19), Area { x: 0, y: 19, w: 320, h: 288 });
    // Room left over is shared.
    assert_eq!(game_viewport(500, 500, 160, 144, 20), Area { x: 10, y: 44, w: 480, h: 432 });
    // Too small: cut.
    assert_eq!(game_viewport(100, 100, 160, 144, 20), Area { x: 0, y: 20, w: 100, h: 80 });
    // No room at all below the menu.
    assert_eq!(game_viewport(160, 10, 160, 144, 20), Area { x: 0, y: 20, w: 160, h: 1 });
}

#[test]
fn colors_become_rgba() {
    assert_eq!(to_rgba_word(0x0012_3456), 0xFF56_3412);
    assert_eq!(to_rgba_word(0xAA12_3456), 0xFF56_3412);
    let mut dst = vec![0, 0, 7];
    convert_frame(&mut dst, &[0x00FF_0000, 0x0000_00FF]);
    assert_eq!(dst, vec![0xFF00_00FF, 0xFFFF_0000, 7]);
    let mut screen = [0u8; 8];
    draw_game_screen(&mut screen, &[to_rgba_word(0x0012_3456), 0x0403_0201]);
    assert_eq!(screen, [0x12, 0x34, 0x56, 0xFF, 1, 2, 3, 4]);
    draw_game_screen(&mut screen, &[0]);
    assert_eq!(screen, [0x12, 0x34, 0x56, 0xFF, 1, 2, 3, 4]);
}

#[test]
fn frames_as_bytes_in_memory() {
    let frame = [0x0403_0201u32, 0x0807_0605];
    let bytes = frame_bytes(&frame);
    let expected: Vec<u8> = frame.iter().flat_map(|w| w.to_ne_bytes()).collect();
    assert_eq!(bytes, expected);
}

#[test]
fn icons_are_expanded() {
    let rgba = icon_image(6, 1, 1, vec![1, 2, 3, 4]).expect("rgba");
    assert_eq!(rgba.rgba, vec![1, 2, 3, 4]);
    let rgb = icon_image(2, 2, 1, vec![1, 2, 3, 4, 5, 6]).expect("rgb");
    assert_eq!(rgb.rgba, vec![1, 2, 3, 255, 4, 5, 6, 255]);
    assert_eq!((rgb.width, rgb.height), (2, 1));
    let gray = icon_image(0, 2, 1, vec![9, 8]).expect("gray");
    assert_eq!(gray.rgba, vec![9, 9, 9, 255, 8, 8, 8, 255]);
    let alpha = icon_image(4, 1, 1, vec![9, 8, 7]).expect("gray with alpha");
    assert_eq!(alpha.rgba, vec![9, 9, 9, 8]);
    assert!(icon_image(3, 1, 1, vec![0]).is_none());
}

fn encode_png(color: png::ColorType, width: u32, height: u32, data: &[u8]) -> Vec<u8> {
    let mut file = Vec::new();
    {
        let mut encoder = png::Encoder::new(&mut file, width, height);
        encoder.set_color(color);
        encoder.set_depth(png::BitDepth::Eight);
        let mut writer = encoder.write_header().expect("header");
        writer.write_image_data(data).expect("data");
    }
    file
}

#[test]
fn icons_are_decoded_from_png() {
    let data = [10, 20, 30, 40, 50, 60];
    let icon = load_window_icon(&encode_png(png::ColorType::Rgb, 1, 2, &data)).expect("an icon");
    assert_eq!((icon.width, icon.height), (1, 2));
    assert_eq!(icon.rgba, vec![10, 20, 30, 255, 40, 50, 60, 255]);
    let data = [1, 2, 3, 4];
    let icon = load_window_icon(&encode_png(png::ColorType::Rgba, 1, 1, &data)).expect("an icon");
    assert_eq!(icon.rgba, vec![1, 2, 3, 4]);
    let icon =
        load_window_icon(&encode_png(png::ColorType::GrayscaleAlpha, 2, 1, &data)).expect("gray");
    assert_eq!(icon.rgba, vec![1, 1, 1, 2, 3, 3, 3, 4]);
    let icon = load_window_icon(&encode_png(png::ColorType::Grayscale, 4, 1, &data)).expect("gray");
    assert_eq!(icon.rgba.len(), 16);
    assert!(load_window_icon(b"not a picture").is_none());
    let whole = encode_png(png::ColorType::Rgba, 1, 1, &data);
    assert!(load_window_icon(&whole[..whole.len() / 2]).is_none());
}

#[test]
fn background_map_picture() {
    let mut vram = vec![0u8; 0x2000];
    // Tile 1: the first row has the color numbers 0 1 2 3 0 1 2 3.
    vram[0x10] = 0b0101_0101;
    vram[0x11] = 0b0011_0011;
    vram[0x1800] = 1;
    let rgba = build_bg_map_texture(&vram, 0x10, 0xE4);
    assert_eq!(rgba.len(), 256 * 256 * 4);
    assert_eq!(&rgba[0..4], &[0x9B, 0xBC, 0x0F, 0xFF]);
    assert_eq!(&rgba[4..8], &[0x8B, 0xAC, 0x0F, 0xFF]);
    assert_eq!(&rgba[8..12], &[0x30, 0x62, 0x30, 0xFF]);
    assert_eq!(&rgba[12..16], &[0x0F, 0x38, 0x0F, 0xFF]);
    assert_eq!(&rgba[32..36], &[0x9B, 0xBC, 0x0F, 0xFF]);
    // The palette maps numbers to shades.
    let inverted = build_bg_map_texture(&vram, 0x10, 0x1B);
    assert_eq!(&inverted[0..4], &[0x0F, 0x38, 0x0F, 0xFF]);
    // The other map, at its last tile.
    let mut other = vec![0u8; 0x2000];
    other[0x1FFF] = 2;
    other[0x2E] = 0xFF;
    let rgba = build_bg_map_texture(&other, 0x18, 0xE4);
    let at = (255 * 256 + 248) * 4;
    assert_eq!(&rgba[at..at + 4], &[0x8B, 0xAC, 0x0F, 0xFF]);
    assert_eq!(&rgba[at - 4..at], &[0x9B, 0xBC, 0x0F, 0xFF]);
    // Numbers with a sign.
    let mut signed = vec![0u8; 0x2000];
    signed[0x1800] = 0xFF;
    signed[0x1801] = 0x01;
    signed[0x800 - 16] = 0x80;
    signed[0x810] = 0x80;
    let rgba = build_bg_map_texture(&signed, 0x00, 0xE4);
    assert_eq!(&rgba[0..4], &[0x8B, 0xAC, 0x0F, 0xFF]);
    assert_eq!(&rgba[32..36], &[0x8B, 0xAC, 0x0F, 0xFF]);
}

#[test]
fn frames_around_the_screen() {
    let frames = screen_frames(10, 20);
    assert_eq!(frames.len(), 1);
    assert_eq!(
        (frames[0].left, frames[0].top, frames[0].right, frames[0].bottom),
        (10, 20, 170, 164)
    );
    let frames = screen_frames(200, 200);
    assert_eq!(frames.len(), 3);
    assert_eq!((frames[1].left, frames[1].right, frames[1].top), (-56, 104, 200));
    assert_eq!((frames[2].top, frames[2].bottom, frames[2].left), (-56, 88, 200));
    assert_eq!(screen_frames(96, 112).len(), 1);
}

#[test]
fn vram_viewer_state() {
    let mut viewer = VramViewerWindow::new();
    assert_eq!(viewer.current, VramTab::BgMap);
    assert!(viewer.draw_bg_map());
    assert_eq!(viewer.last_vblank_frame, 1);
    viewer.last_vblank_frame = u64::MAX;
    assert!(viewer.draw_bg_map());
    assert_eq!(viewer.last_vblank_frame, 0);
    viewer.tab_item(VramTab::Oam);
    assert_eq!(viewer.current, VramTab::Oam);
    assert_eq!(VramTab::BgMap.label(), "BG Map");
    assert_eq!(VramTab::Palettes.label(), "Palettes");
}

#[test]
fn registers_as_text() {
    let cpu = CpuSnapshot {
        a: 0x0A,
        f: 0xB0,
        pc: 0xBEEF,
        sp: 0x00FE,
        ime: true,
        cycles: 1_234_567_890_123,
        ..CpuSnapshot::default()
    };
    let rows = register_rows(&cpu);
    let texts: Vec<(&str, &str)> = rows.iter().map(|r| (r.label, r.text.as_str())).collect();
    assert_eq!(
        texts,
        vec![
            ("A", "0A"),
            ("F", "B0"),
            ("B", "00"),
            ("C", "00"),
            ("D", "00"),
            ("E", "00"),
            ("H", "00"),
            ("L", "00"),
            ("SP", "00FE"),
            ("PC", "BEEF"),
            ("IME", "true"),
            ("Cycles", "1234567890123"),
        ]
    );
    assert_eq!(register_rows(&CpuSnapshot::default())[10].text, "false");
}

#[test]
fn configuration_choices() {
    let levels = [
        (LogLevelArg::Off, "off"),
        (LogLevelArg::Error, "error"),
        (LogLevelArg::Warn, "warn"),
        (LogLevelArg::Info, "info"),
        (LogLevelArg::Debug, "debug"),
        (LogLevelArg::Trace, "trace"),
    ];
    for (level, filter) in levels {
        assert_eq!(level.as_filter_str(), filter);
        assert_eq!(default_log_filter(Some(level), true), filter);
    }
    assert_eq!(default_log_filter(None, true), "info");
    assert_eq!(default_log_filter(None, false), "off");
    assert!(!cgb_mode(true, false, true));
    assert!(cgb_mode(false, true, false));
    assert!(cgb_mode(false, false, true));
    assert!(!cgb_mode(false, false, false));
    assert_eq!(dmg_palette(false, true), Some(NEUTRAL_DMG_PALETTE));
    assert_eq!(dmg_palette(true, true), None);
    assert_eq!(dmg_palette(false, false), None);
    assert_eq!(wanted_peripheral(true), SerialPeripheral::MobileAdapter);
    assert_eq!(wanted_peripheral(false), SerialPeripheral::default());
    assert_eq!(
        default_keybinds_path(true, true, true, true),
        (ConfigBase::AppData, vec!["vibeemu", "keybinds.cfg"])
    );
    assert_eq!(
        default_keybinds_path(false, true, true, true),
        (ConfigBase::XdgConfigHome, vec!["vibeemu", "keybinds.cfg"])
    );
    assert_eq!(
        default_keybinds_path(false, false, false, true),
        (ConfigBase::Home, vec![".config", "vibeemu", "keybinds.cfg"])
    );
    assert_eq!(
        default_keybinds_path(true, false, false, false),
        (ConfigBase::WorkingDirectory, vec!["keybinds.cfg"])
    );
    assert_eq!(reception_preview(-1), None);
    assert_eq!(reception_preview(0), None);
    assert_eq!(reception_preview(32), Some((32, false)));
    assert_eq!(reception_preview(33), Some((32, true)));
}

#[test]
fn graphics_interface_is_asked_for_named_or_default() {
    let names = [
        (WgpuBackendArg::Dx12, "dx12"),
        (WgpuBackendArg::Dx11, "dx11"),
        (WgpuBackendArg::Vulkan, "vulkan"),
        (WgpuBackendArg::Metal, "metal"),
        (WgpuBackendArg::Gl, "gl"),
    ];
    for (asked, name) in names {
        for (named, windows) in [(false, false), (false, true), (true, false), (true, true)] {
            assert_eq!(wgpu_backend(Some(asked), named, windows), BackendChoice::Named(name));
        }
    }
    assert_eq!(wgpu_backend(Some(WgpuBackendArg::Auto), true, true), BackendChoice::Automatic);
    assert_eq!(wgpu_backend(None, true, true), BackendChoice::Keep);
    assert_eq!(wgpu_backend(None, false, true), BackendChoice::Named("dx12"));
    assert_eq!(wgpu_backend(None, false, false), BackendChoice::Keep);
}
