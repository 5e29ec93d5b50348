//! The menus, the options and the keys.

use crate::ui::emulator::{EmuCommand, SerialPeripheral, Speed, UiAction, UiToEmu};
use crate::ui::window::{desired_main_inner_size, size_below, WindowKind, SCALE, SCREEN_HEIGHT};
use vstd::prelude::*;

verus! {

/// What a key press is to be bound to.
#[derive(Clone, Copy, Debug, PartialEq, Eq, Structural)]
pub enum RebindTarget {
    Joypad(u8),
    Pause,
    FastForward,
    Quit,
}

/// The state of the front end. `C` is a cartridge.
pub struct UiState<C> {
    pub paused: bool,
    pub spawn_debugger: bool,
    pub spawn_vram: bool,
    pub spawn_options: bool,
    pub pending_action: Option<UiAction<C>>,
    pub pending_pause: Option<bool>,
    /// Whether the machine is paused because a menu is open.
    pub menu_pause_active: bool,
    /// Whether it resumes when the menu closes.
    pub menu_resume_armed: bool,
    pub rebinding: Option<RebindTarget>,
    pub serial_peripheral: SerialPeripheral,
    pub pending_serial_peripheral: Option<SerialPeripheral>,
    /// The size that was last asked for the main window.
    pub last_main_inner_size: Option<(u32, u32)>,
}

/// What was clicked in the open File menu.
pub struct FileMenu<C> {
    /// A cartridge that was picked and could be read.
    pub load: Option<C>,
    pub reset: bool,
}

/// What was clicked in the open Serial Peripheral menu.
#[derive(Clone, Copy, Debug, PartialEq, Eq, Structural)]
pub struct SerialMenu {
    pub unplug: bool,
    pub mobile_adapter: bool,
}

/// What was clicked in the open Emulation menu.
#[derive(Clone, Copy, Debug, PartialEq, Eq, Structural)]
pub struct EmulationMenu {
    pub toggle_pause: bool,
    pub serial: Option<SerialMenu>,
}

/// What was clicked in the open Tools menu.
#[derive(Clone, Copy, Debug, PartialEq, Eq, Structural)]
pub struct ToolsMenu {
    pub debugger: bool,
    pub vram_viewer: bool,
}

/// What was clicked in the open Options menu.
#[derive(Clone, Copy, Debug, PartialEq, Eq, Structural)]
pub struct OptionsMenu {
    pub options: bool,
}

/// The menu bar as it was drawn once: which menus are open, and what was
/// clicked in them.
pub struct MenuBar<C> {
    pub file: Option<FileMenu<C>>,
    pub emulation: Option<EmulationMenu>,
    pub tools: Option<ToolsMenu>,
    pub options: Option<OptionsMenu>,
}

impl<C> MenuBar<C> {
    /// Whether a menu is open.
    pub open spec fn any_open(self) -> bool {
        self.file is Some || self.emulation is Some || self.tools is Some || self.options is Some
    }

    /// Whether nothing was clicked.
    pub open spec fn idle(self) -> bool {
        &&& self.file matches Some(m) ==> m.load is None && !m.reset
        &&& self.emulation matches Some(m) ==> !m.toggle_pause && (m.serial matches Some(s)
            ==> !s.unplug && !s.mobile_adapter)
        &&& self.tools matches Some(m) ==> !m.debugger && !m.vram_viewer
        &&& self.options matches Some(m) ==> !m.options
    }
}

impl<C> UiState<C> {
    /// The state of the front end as it starts.
    pub open spec fn started(serial_peripheral: SerialPeripheral) -> Self {
        UiState {
            paused: false,
            spawn_debugger: false,
            spawn_vram: false,
            spawn_options: false,
            pending_action: None,
            pending_pause: None,
            menu_pause_active: false,
            menu_resume_armed: false,
            rebinding: None,
            serial_peripheral,
            pending_serial_peripheral: None,
            last_main_inner_size: None,
        }
    }

    pub fn new(serial_peripheral: SerialPeripheral) -> (s: Self)
        ensures
            s == Self::started(serial_peripheral),
    {
        UiState {
            paused: false,
            spawn_debugger: false,
            spawn_vram: false,
            spawn_options: false,
            pending_action: None,
            pending_pause: None,
            menu_pause_active: false,
            menu_resume_armed: false,
            rebinding: None,
            serial_peripheral,
            pending_serial_peripheral: None,
            last_main_inner_size: None,
        }
    }

    /// The label of the menu item that pauses or resumes.
    pub open spec fn pause_text(self) -> Seq<char> {
        if self.paused {
            "Resume"@
        } else {
            "Pause"@
        }
    }

    /// The label of the menu item that pauses or resumes.
    pub fn pause_label(&self) -> (label: &'static str)
        ensures
            label@ == self.pause_text(),
    {
        if self.paused {
            "Resume"
        } else {
            "Pause"
        }
    }

    /// After the File menu. A reset counts rather than a cartridge.
    pub open spec fn after_file(self, menu: FileMenu<C>) -> Self {
        UiState {
            pending_action: if menu.reset {
                Some(UiAction::Reset)
            } else {
                match menu.load {
                    Some(cart) => Some(UiAction::Load(cart)),
                    None => self.pending_action,
                }
            },
            ..self
        }
    }

    /// After the pause item. A pause by hand overrides that of the menu.
    pub open spec fn after_pause_item(self, clicked: bool) -> Self {
        if clicked {
            UiState {
                paused: !self.paused,
                pending_pause: Some(!self.paused),
                menu_resume_armed: false,
                ..self
            }
        } else {
            self
        }
    }

    /// After a choice of peripheral, which counts only if it is another one.
    pub open spec fn after_choice(self, clicked: bool, choice: SerialPeripheral) -> Self {
        if clicked && self.serial_peripheral != choice {
            UiState {
                serial_peripheral: choice,
                pending_serial_peripheral: Some(choice),
                ..self
            }
        } else {
            self
        }
    }

    /// After the Serial Peripheral menu. Without the adapter there is no choice.
    pub open spec fn after_serial(self, menu: SerialMenu, mobile_available: bool) -> Self {
        if mobile_available {
            self.after_choice(menu.unplug, SerialPeripheral::Unplugged).after_choice(
                menu.mobile_adapter,
                SerialPeripheral::MobileAdapter,
            )
        } else {
            UiState { serial_peripheral: SerialPeripheral::Unplugged, ..self }
        }
    }

    /// After the Emulation menu.
    pub open spec fn after_emulation(self, menu: EmulationMenu, mobile_available: bool) -> Self {
        let toggled = self.after_pause_item(menu.toggle_pause);
        match menu.serial {
            Some(serial) => toggled.after_serial(serial, mobile_available),
            None => toggled,
        }
    }

    /// After the Tools menu. A tool pauses the machine, and it stays paused.
    pub open spec fn after_tools(self, menu: ToolsMenu) -> Self {
        if menu.debugger || menu.vram_viewer {
            UiState {
                spawn_debugger: self.spawn_debugger || menu.debugger,
                spawn_vram: self.spawn_vram || menu.vram_viewer,
                paused: true,
                pending_pause: Some(true),
                menu_resume_armed: false,
                ..self
            }
        } else {
            self
        }
    }

    /// After the menus were open, or not. The machine is paused while one is
    /// open, and resumes when they close, if it was running before.
    pub open spec fn after_auto_pause(self, any_menu_open: bool) -> Self {
        if any_menu_open {
            if self.menu_pause_active {
                self
            } else {
                UiState {
                    menu_pause_active: true,
                    menu_resume_armed: !self.paused,
                    paused: true,
                    pending_pause: if self.paused {
                        self.pending_pause
                    } else {
                        Some(true)
                    },
                    ..self
                }
            }
        } else if self.menu_pause_active {
            if self.menu_resume_armed {
                UiState {
                    menu_pause_active: false,
                    menu_resume_armed: false,
                    paused: false,
                    pending_pause: Some(false),
                    ..self
                }
            } else {
                UiState { menu_pause_active: false, ..self }
            }
        } else {
            self
        }
    }

    /// After the menu bar was drawn, from left to right.
    pub open spec fn after_menus(self, bar: MenuBar<C>, mobile_available: bool) -> Self {
        let a = match bar.file {
            Some(menu) => self.after_file(menu),
            None => self,
        };
        let b = match bar.emulation {
            Some(menu) => a.after_emulation(menu, mobile_available),
            None => a,
        };
        let c = match bar.tools {
            Some(menu) => b.after_tools(menu),
            None => b,
        };
        let d = match bar.options {
            Some(menu) => UiState { spawn_options: c.spawn_options || menu.options, ..c },
            None => c,
        };
        d.after_auto_pause(bar.any_open())
    }

    fn file_menu(&mut self, menu: FileMenu<C>)
        ensures
            *final(self) == old(self).after_file(menu),
    {
        match menu.load {
            Some(cart) => {
                self.pending_action = Some(UiAction::Load(cart));
            },
            None => {},
        }
        if menu.reset {
            self.pending_action = Some(UiAction::Reset);
        }
    }

    fn emulation_menu(&mut self, menu: EmulationMenu, mobile_available: bool)
        ensures
            *final(self) == old(self).after_emulation(menu, mobile_available),
    {
        if menu.toggle_pause {
            let new_paused = !self.paused;
            self.paused = new_paused;
            self.pending_pause = Some(new_paused);
            // Manual pause overrides menu auto-resume.
            self.menu_resume_armed = false;
        }
        match menu.serial {
            Some(serial) => {
                if mobile_available {
                    if serial.unplug && self.serial_peripheral != SerialPeripheral::Unplugged {
                        self.serial_peripheral = SerialPeripheral::Unplugged;
                        self.pending_serial_peripheral = Some(SerialPeripheral::Unplugged);
                    }
                    if serial.mobile_adapter && self.serial_peripheral
                        != SerialPeripheral::MobileAdapter {
                        self.serial_peripheral = SerialPeripheral::MobileAdapter;
                        self.pending_serial_peripheral = Some(SerialPeripheral::MobileAdapter);
                    }
                } else {
                    self.serial_peripheral = SerialPeripheral::Unplugged;
                }
            },
            None => {},
        }
    }

    fn tools_menu(&mut self, menu: ToolsMenu)
        ensures
            *final(self) == old(self).after_tools(menu),
    {
        if menu.debugger {
            self.spawn_debugger = true;
            self.paused = true;
            self.pending_pause = Some(true);
            self.menu_resume_armed = false;
        }
        if menu.vram_viewer {
            self.spawn_vram = true;
            self.paused = true;
            self.pending_pause = Some(true);
            self.menu_resume_armed = false;
        }
    }

    /// Auto-pause while the top menu is open, and resume when it closes.
    fn auto_pause(&mut self, any_menu_open: bool)
        ensures
            *final(self) == old(self).after_auto_pause(any_menu_open),
    {
        if any_menu_open {
            if !self.menu_pause_active {
                self.menu_pause_active = true;
                self.menu_resume_armed = !self.paused;
                if !self.paused {
                    self.paused = true;
                    self.pending_pause = Some(true);
                }
            }
        } else if self.menu_pause_active {
            self.menu_pause_active = false;
            if self.menu_resume_armed {
                self.menu_resume_armed = false;
                self.paused = false;
                self.pending_pause = Some(false);
            }
        }
    }

    /// Take what was clicked in the menu bar.
    pub fn build_ui(&mut self, bar: MenuBar<C>, mobile_available: bool)
        ensures
            *final(self) == old(self).after_menus(bar, mobile_available),
    {
        let any_menu_open = bar.file.is_some() || bar.emulation.is_some() || bar.tools.is_some()
            || bar.options.is_some();
        match bar.file {
            Some(menu) => self.file_menu(menu),
            None => {},
        }
        match bar.emulation {
            Some(menu) => self.emulation_menu(menu, mobile_available),
            None => {},
        }
        match bar.tools {
            Some(menu) => self.tools_menu(menu),
            None => {},
        }
        match bar.options {
            Some(menu) => {
                if menu.options {
                    self.spawn_options = true;
                }
            },
            None => {},
        }
        self.auto_pause(any_menu_open);
    }

    /// After the Options window.
    pub open spec fn after_options(self, cancel: bool, clicked: Option<RebindTarget>) -> Self {
        UiState {
            rebinding: match clicked {
                Some(target) => Some(target),
                None => if cancel {
                    None
                } else {
                    self.rebinding
                },
            },
            ..self
        }
    }

    /// Take what was clicked in the Options window: Cancel, which is shown while
    /// a key is waited for, or the button of a row of [`rebind_rows`].
    pub fn draw_options_window(&mut self, cancel: bool, clicked: Option<RebindTarget>)
        ensures
            *final(self) == old(self).after_options(cancel, clicked),
    {
        if cancel {
            self.rebinding = None;
        }
        match clicked {
            Some(target) => {
                self.rebinding = Some(target);
            },
            None => {},
        }
    }

    /// The size to ask for the main window.
    pub open spec fn size_to_ask(self, top_padding_px: u32) -> Option<(u32, u32)> {
        if self.last_main_inner_size == Some(size_below(top_padding_px)) {
            None
        } else {
            Some(size_below(top_padding_px))
        }
    }

    /// After a size was asked for the main window.
    pub open spec fn after_asking(self, top_padding_px: u32) -> Self {
        UiState { last_main_inner_size: Some(size_below(top_padding_px)), ..self }
    }

    /// The size to ask for the main window, unless it was asked for last.
    pub fn enforce_main_window_inner_size(&mut self, top_padding_px: u32) -> (ask: Option<
        (u32, u32),
    >)
        requires
            top_padding_px + SCREEN_HEIGHT * SCALE <= u32::MAX,
        ensures
            ask == old(self).size_to_ask(top_padding_px),
            *final(self) == old(self).after_asking(top_padding_px),
    {
        let desired = desired_main_inner_size(top_padding_px);
        let same = match self.last_main_inner_size {
            Some(last) => last.0 == desired.0 && last.1 == desired.1,
            None => false,
        };
        if same {
            return None;
        }
        self.last_main_inner_size = Some(desired);
        Some(desired)
    }

    /// Take a key.
    ///
    /// Key rebinding takes precedence over all bindings, and is all that the
    /// Options window cares about. Quit is always honored; so is the pause
    /// toggle, unless text is typed or a menu is open. Fast-forward is a hold
    /// action. Joypad input is disabled while paused or while text is typed.
    pub fn key_event(&mut self, key: KeyEvent, speed: &mut Speed, joypad: &mut u8) -> (step:
        KeyStep)
        ensures
            step == old(self).key_step(key, *old(joypad)),
            *final(self) == old(self).after_key(step),
            *final(speed) == step.speed_after(*old(speed)),
            *final(joypad) == step.joypad_after(*old(joypad)),
    {
        if key.pressed {
            match self.rebinding {
                Some(target) => {
                    self.rebinding = None;
                    return KeyStep::Rebind(target);
                },
                None => {},
            }
        }
        if key.in_options {
            return KeyStep::Ignore;
        }
        if key.is_quit {
            if key.pressed {
                return KeyStep::Quit;
            }
            return KeyStep::Ignore;
        }
        if key.is_pause && key.pressed && !key.text_input && !self.menu_pause_active {
            self.paused = !self.paused;
            return KeyStep::SetPaused(self.paused);
        }
        if key.is_fast_forward {
            speed.fast = key.pressed;
            return KeyStep::SetSpeed(*speed);
        }
        if self.paused || key.text_input {
            return KeyStep::Ignore;
        }
        match key.joypad_mask {
            Some(mask) => {
                *joypad = joypad_after(*joypad, mask, key.pressed);
                KeyStep::UpdateInput(*joypad)
            },
            None => KeyStep::Ignore,
        }
    }

    /// After a key that led to `step`.
    pub open spec fn after_key(self, step: KeyStep) -> Self {
        match step {
            KeyStep::Rebind(_) => UiState { rebinding: None, ..self },
            KeyStep::SetPaused(paused) => UiState { paused, ..self },
            _ => self,
        }
    }

    /// What a key leads to.
    pub open spec fn key_step(self, key: KeyEvent, joypad: u8) -> KeyStep {
        if key.pressed && self.rebinding is Some {
            KeyStep::Rebind(self.rebinding->0)
        } else if key.in_options {
            KeyStep::Ignore
        } else if key.is_quit {
            if key.pressed {
                KeyStep::Quit
            } else {
                KeyStep::Ignore
            }
        } else if key.is_pause && key.pressed && !key.text_input && !self.menu_pause_active {
            KeyStep::SetPaused(!self.paused)
        } else if key.is_fast_forward {
            KeyStep::SetSpeed(Speed { fast: key.pressed })
        } else if self.paused || key.text_input {
            KeyStep::Ignore
        } else {
            match key.joypad_mask {
                Some(mask) => KeyStep::UpdateInput(joypad_with(joypad, mask, key.pressed)),
                None => KeyStep::Ignore,
            }
        }
    }

    /// The messages that are due to the emulator thread, in order.
    pub open spec fn due(self) -> Seq<UiToEmu<C>> {
        let serial = match self.pending_serial_peripheral {
            Some(p) => seq![UiToEmu::<C>::Command(EmuCommand::SetSerialPeripheral(p))],
            None => Seq::empty(),
        };
        let pause = match self.pending_pause {
            Some(p) => seq![UiToEmu::<C>::Command(EmuCommand::SetPaused(p))],
            None => Seq::empty(),
        };
        let action = match self.pending_action {
            Some(a) => seq![
                UiToEmu::Action(a),
                UiToEmu::<C>::Command(EmuCommand::SetPaused(false)),
            ],
            None => Seq::empty(),
        };
        serial + pause + action
    }

    /// After the messages were taken.
    pub open spec fn after_messages(self) -> Self {
        UiState {
            pending_serial_peripheral: None,
            pending_pause: None,
            pending_action: None,
            paused: self.paused && self.pending_action is None,
            ..self
        }
    }

    /// Take the messages that are due to the emulator thread. An action ends a
    /// pause. The second result is whether to redraw.
    pub fn take_messages(&mut self) -> (out: (Vec<UiToEmu<C>>, bool))
        ensures
            out.0@ == old(self).due(),
            out.1 == (old(self).pending_action is Some),
            *final(self) == old(self).after_messages(),
    {
        let mut msgs: Vec<UiToEmu<C>> = Vec::new();
        let serial = self.pending_serial_peripheral.take();
        match serial {
            Some(p) => msgs.push(UiToEmu::Command(EmuCommand::SetSerialPeripheral(p))),
            None => {},
        }
        let pause = self.pending_pause.take();
        match pause {
            Some(p) => msgs.push(UiToEmu::Command(EmuCommand::SetPaused(p))),
            None => {},
        }
        let action = self.pending_action.take();
        let redraw = action.is_some();
        match action {
            Some(a) => {
                msgs.push(UiToEmu::Action(a));
                self.paused = false;
                msgs.push(UiToEmu::Command(EmuCommand::SetPaused(false)));
            },
            None => {},
        }
        proof {
            assert(msgs@ == old(self).due());
        }
        (msgs, redraw)
    }

    /// Whether a window of this kind was asked for.
    pub open spec fn spawn_requested(self, kind: WindowKind) -> bool {
        match kind {
            WindowKind::Debugger => self.spawn_debugger,
            WindowKind::VramViewer => self.spawn_vram,
            WindowKind::Options => self.spawn_options,
            WindowKind::Main => false,
        }
    }

    /// What to do about the request for a window of this kind.
    pub open spec fn spawn_step(self, kind: WindowKind, already_open: bool) -> SpawnStep {
        if !self.spawn_requested(kind) || already_open {
            SpawnStep::Nothing
        } else if kind is Options {
            SpawnStep::Spawn
        } else {
            SpawnStep::SpawnPaused
        }
    }

    /// After a window of this kind was opened.
    pub open spec fn after_spawn(self, kind: WindowKind) -> Self {
        match kind {
            WindowKind::Debugger => UiState { spawn_debugger: false, paused: true, ..self },
            WindowKind::VramViewer => UiState { spawn_vram: false, paused: true, ..self },
            _ => UiState { spawn_options: false, ..self },
        }
    }

    /// Take the request for a window of this kind, unless one is open already.
    /// The machine is paused while a tool is opened.
    pub fn take_spawn(&mut self, kind: WindowKind, already_open: bool) -> (step: SpawnStep)
        ensures
            step == old(self).spawn_step(kind, already_open),
            *final(self) == (match step {
                SpawnStep::Nothing => *old(self),
                _ => old(self).after_spawn(kind),
            }),
    {
        if already_open {
            return SpawnStep::Nothing;
        }
        match kind {
            WindowKind::Debugger => {
                if self.spawn_debugger {
                    self.paused = true;
                    self.spawn_debugger = false;
                    return SpawnStep::SpawnPaused;
                }
            },
            WindowKind::VramViewer => {
                if self.spawn_vram {
                    self.paused = true;
                    self.spawn_vram = false;
                    return SpawnStep::SpawnPaused;
                }
            },
            WindowKind::Options => {
                if self.spawn_options {
                    self.spawn_options = false;
                    return SpawnStep::Spawn;
                }
            },
            WindowKind::Main => {},
        }
        SpawnStep::Nothing
    }
}

/// What to do about the request for a window.
#[derive(Clone, Copy, Debug, PartialEq, Eq, Structural)]
pub enum SpawnStep {
    Nothing,
    Spawn,
    /// Open it, and tell the emulator thread to pause.
    SpawnPaused,
}

/// A row of the list of key bindings.
pub struct RebindRow {
    pub label: &'static str,
    pub target: RebindTarget,
}

/// The labels of the list of key bindings.
pub open spec fn row_labels() -> Seq<Seq<char>> {
    seq![
        "Up"@,
        "Down"@,
        "Left"@,
        "Right"@,
        "A"@,
        "B"@,
        "Select"@,
        "Start"@,
        "Pause"@,
        "Fast Forward"@,
        "Quit"@,
    ]
}

/// What the rows of the list bind.
pub open spec fn row_targets() -> Seq<RebindTarget> {
    seq![
        RebindTarget::Joypad(0x04),
        RebindTarget::Joypad(0x08),
        RebindTarget::Joypad(0x02),
        RebindTarget::Joypad(0x01),
        RebindTarget::Joypad(0x10),
        RebindTarget::Joypad(0x20),
        RebindTarget::Joypad(0x40),
        RebindTarget::Joypad(0x80),
        RebindTarget::Pause,
        RebindTarget::FastForward,
        RebindTarget::Quit,
    ]
}

/// The list of key bindings, in the order in which it is shown.
pub fn rebind_rows() -> (rows: Vec<RebindRow>)
    ensures
        rows@.len() == row_labels().len(),
        forall|i: int|
            0 <= i < rows@.len() ==> (#[trigger] rows@[i]).label@ == row_labels()[i]
                && rows@[i].target == row_targets()[i],
{
    let mut rows: Vec<RebindRow> = Vec::new();
    rows.push(RebindRow { label: "Up", target: RebindTarget::Joypad(0x04) });
    rows.push(RebindRow { label: "Down", target: RebindTarget::Joypad(0x08) });
    rows.push(RebindRow { label: "Left", target: RebindTarget::Joypad(0x02) });
    rows.push(RebindRow { label: "Right", target: RebindTarget::Joypad(0x01) });
    rows.push(RebindRow { label: "A", target: RebindTarget::Joypad(0x10) });
    rows.push(RebindRow { label: "B", target: RebindTarget::Joypad(0x20) });
    rows.push(RebindRow { label: "Select", target: RebindTarget::Joypad(0x40) });
    rows.push(RebindRow { label: "Start", target: RebindTarget::Joypad(0x80) });
    rows.push(RebindRow { label: "Pause", target: RebindTarget::Pause });
    rows.push(RebindRow { label: "Fast Forward", target: RebindTarget::FastForward });
    rows.push(RebindRow { label: "Quit", target: RebindTarget::Quit });
    rows
}

/// A key that was pressed or released, and what it is bound to.
#[derive(Clone, Copy, Debug, PartialEq, Eq, Structural)]
pub struct KeyEvent {
    pub pressed: bool,
    /// Whether it went to the Options window.
    pub in_options: bool,
    pub is_quit: bool,
    pub is_pause: bool,
    pub is_fast_forward: bool,
    pub joypad_mask: Option<u8>,
    /// Whether text is being typed.
    pub text_input: bool,
}

/// What a key leads to.
#[derive(Clone, Copy, Debug, PartialEq, Eq, Structural)]
pub enum KeyStep {
    Ignore,
    /// Bind the key, and save the bindings.
    Rebind(RebindTarget),
    Quit,
    SetPaused(bool),
    SetSpeed(Speed),
    UpdateInput(u8),
}

impl KeyStep {
    /// The speed after a key that led to this.
    pub open spec fn speed_after(self, speed: Speed) -> Speed {
        match self {
            KeyStep::SetSpeed(set) => set,
            _ => speed,
        }
    }

    /// The buttons after a key that led to this.
    pub open spec fn joypad_after(self, joypad: u8) -> u8 {
        match self {
            KeyStep::UpdateInput(state) => state,
            _ => joypad,
        }
    }
}

/// The buttons after those of `mask` were pressed or released. A button that is
/// down reads 0.
pub open spec fn joypad_with(joypad: u8, mask: u8, pressed: bool) -> u8 {
    if pressed {
        joypad & !mask
    } else {
        joypad | mask
    }
}

fn joypad_after(joypad: u8, mask: u8, pressed: bool) -> (state: u8)
    ensures
        state == joypad_with(joypad, mask, pressed),
{
    if pressed {
        joypad & !mask
    } else {
        joypad | mask
    }
}

/// The keys that have a meaning without any configuration.
#[derive(Clone, Copy, Debug, PartialEq, Eq, Structural)]
pub enum Key {
    Right,
    Left,
    Up,
    Down,
    S,
    A,
    LShift,
    RShift,
    Return,
    Escape,
    Other,
}

/// The button of a key.
pub open spec fn default_mask(key: Key) -> Option<u8> {
    match key {
        Key::Right => Some(0x01),
        Key::Left => Some(0x02),
        Key::Up => Some(0x04),
        Key::Down => Some(0x08),
        Key::S => Some(0x10),
        Key::A => Some(0x20),
        Key::LShift => Some(0x40),
        Key::RShift => Some(0x40),
        Key::Return => Some(0x80),
        Key::Escape => None,
        Key::Other => None,
    }
}

/// What a key leads to without any configuration.
pub open spec fn default_step(key: Key, pressed: bool, joypad: u8) -> KeyStep {
    if key is Escape && pressed {
        KeyStep::Quit
    } else {
        match default_mask(key) {
            Some(mask) => KeyStep::UpdateInput(joypad_with(joypad, mask, pressed)),
            None => KeyStep::Ignore,
        }
    }
}

/// Take a key without any configuration: Escape quits, the others are buttons.
pub fn default_key(key: Key, pressed: bool, joypad: &mut u8) -> (step: KeyStep)
    ensures
        step == default_step(key, pressed, *old(joypad)),
        *final(joypad) == step.joypad_after(*old(joypad)),
{
    let mask: u8 = match key {
        Key::Right => 0x01,
        Key::Left => 0x02,
        Key::Up => 0x04,
        Key::Down => 0x08,
        Key::S => 0x10,
        Key::A => 0x20,
        Key::LShift => 0x40,
        Key::RShift => 0x40,
        Key::Return => 0x80,
        Key::Escape => {
            return if pressed {
                KeyStep::Quit
            } else {
                KeyStep::Ignore
            };
        },
        Key::Other => {
            return KeyStep::Ignore;
        },
    };
    *joypad = joypad_after(*joypad, mask, pressed);
    KeyStep::UpdateInput(*joypad)
}

/// The buttons of a mouse.
#[derive(Clone, Copy, Debug, PartialEq, Eq, Structural)]
pub enum MouseButton {
    Left,
    Right,
    Middle,
    Other,
}

/// Whether the context menu is shown after a mouse button.
pub open spec fn context_shown(button: MouseButton, pressed: bool, shown: bool) -> bool {
    shown || (pressed && button is Right)
}

/// Take a mouse button: a press of the right one opens the context menu.
pub fn handle_ui_event(button: MouseButton, pressed: bool, show_context: &mut bool)
    ensures
        *final(show_context) == context_shown(button, pressed, *old(show_context)),
{
    if pressed && button == MouseButton::Right {
        *show_context = true;
    }
}

/// `incoming` was taken, and `after` is shown and `to_pool` goes back.
pub open spec fn frame_taken(
    before: Seq<u32>,
    incoming: Seq<u32>,
    after: Seq<u32>,
    to_pool: Option<Seq<u32>>,
) -> bool {
    match to_pool {
        Some(old_frame) => {
            &&& incoming.len() == before.len()
            &&& after == incoming
            &&& old_frame == before
        },
        None => incoming.len() != before.len() && after == before,
    }
}

/// Take a frame from the emulator thread: it becomes the one that is shown if
/// it has the right size, and the one that was shown goes back to the pool.
pub fn take_frame(frame: &mut Vec<u32>, incoming: Vec<u32>) -> (to_pool: Option<Vec<u32>>)
    ensures
        frame_taken(
            old(frame)@,
            incoming@,
            final(frame)@,
            match to_pool {
                Some(old_frame) => Some(old_frame@),
                None => None,
            },
        ),
{
    if incoming.len() == frame.len() {
        let mut shown = incoming;
        std::mem::swap(frame, &mut shown);
        Some(shown)
    } else {
        None
    }
}

/// The menu bar after it was drawn several times.
pub open spec fn after_bars<C>(
    start: UiState<C>,
    bars: Seq<MenuBar<C>>,
    mobile_available: bool,
) -> UiState<C>
    decreases bars.len(),
{
    if bars.len() == 0 {
        start
    } else {
        after_bars(start, bars.drop_last(), mobile_available).after_menus(
            bars.last(),
            mobile_available,
        )
    }
}

/// While a menu is open, and nothing is clicked, the machine is paused, and it
/// is remembered whether it was running.
pub proof fn law_open_menu_pauses<C>(
    start: UiState<C>,
    bars: Seq<MenuBar<C>>,
    mobile_available: bool,
)
    requires
        !start.menu_pause_active,
        mobile_available || start.serial_peripheral is Unplugged,
        bars.len() > 0,
        forall|i: int| 0 <= i < bars.len() ==> (#[trigger] bars[i]).idle() && bars[i].any_open(),
    ensures
        after_bars(start, bars, mobile_available) == (UiState {
            paused: true,
            pending_pause: if start.paused {
                start.pending_pause
            } else {
                Some(true)
            },
            menu_pause_active: true,
            menu_resume_armed: !start.paused,
            ..start
        }),
    decreases bars.len(),
{
    let last = bars[bars.len() - 1];
    assert(last.idle() && last.any_open());
    if bars.len() > 1 {
        law_open_menu_pauses(start, bars.drop_last(), mobile_available);
    } else {
        assert(after_bars(start, bars.drop_last(), mobile_available) == start);
    }
}

/// A menu that is opened and closed without a click leaves the machine running
/// or paused as it was.
pub proof fn law_menu_resumes<C>(
    start: UiState<C>,
    bars: Seq<MenuBar<C>>,
    closed: MenuBar<C>,
    mobile_available: bool,
)
    requires
        !start.menu_pause_active,
        mobile_available || start.serial_peripheral is Unplugged,
        bars.len() > 0,
        forall|i: int| 0 <= i < bars.len() ==> (#[trigger] bars[i]).idle() && bars[i].any_open(),
        !closed.any_open(),
    ensures
        ({
            let end = after_bars(start, bars, mobile_available).after_menus(
                closed,
                mobile_available,
            );
            &&& end.paused == start.paused
            &&& !end.menu_pause_active
            &&& !start.paused ==> end.pending_pause == Some(false)
            &&& start.paused ==> end.pending_pause == start.pending_pause
        }),
{
    law_open_menu_pauses(start, bars, mobile_available);
}

/// A pause or resume by hand, in an open menu, still holds when the menu has
/// closed.
pub proof fn law_manual_pause_overrides_the_menu<C>(
    start: UiState<C>,
    bar: MenuBar<C>,
    closed: MenuBar<C>,
    mobile_available: bool,
)
    requires
        bar.emulation matches Some(m) && m.toggle_pause,
        bar.tools is None,
        !closed.any_open(),
    ensures
        ({
            let end = start.after_menus(bar, mobile_available).after_menus(
                closed,
                mobile_available,
            );
            &&& end.paused == !start.paused
            &&& end.pending_pause == Some(!start.paused)
        }),
{
}

/// A tool that is opened leaves the machine paused, also when the menu has
/// closed.
pub proof fn law_tools_leave_it_paused<C>(
    start: UiState<C>,
    bar: MenuBar<C>,
    closed: MenuBar<C>,
    mobile_available: bool,
)
    requires
        bar.tools matches Some(m) && (m.debugger || m.vram_viewer),
        !closed.any_open(),
    ensures
        ({
            let end = start.after_menus(bar, mobile_available).after_menus(
                closed,
                mobile_available,
            );
            &&& end.paused
            &&& end.pending_pause == Some(true)
            &&& bar.tools->0.debugger ==> end.spawn_debugger
            &&& bar.tools->0.vram_viewer ==> end.spawn_vram
        }),
{
}

/// A pressed button reads 0 and a released one 1; the other buttons do not
/// change. Releasing what was pressed undoes it.
pub proof fn law_buttons(joypad: u8, mask: u8)
    ensures
        joypad_with(joypad, mask, true) & mask == 0,
        joypad_with(joypad, mask, false) & mask == mask,
        joypad_with(joypad, mask, true) & !mask == joypad & !mask,
        joypad_with(joypad, mask, false) & !mask == joypad & !mask,
        joypad & mask == mask ==> joypad_with(
            joypad_with(joypad, mask, true),
            mask,
            false,
        ) == joypad,
{
    assert((joypad & !mask) & mask == 0 && (joypad | mask) & mask == mask && (joypad & !mask)
        & !mask == joypad & !mask && (joypad | mask) & !mask == joypad & !mask && (joypad & mask
        == mask ==> (joypad & !mask) | mask == joypad)) by (bit_vector);
}

} // verus!
