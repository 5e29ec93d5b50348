//! What clicks and keys lead to.

use crate::ui::emulator::{EmuCommand, SerialPeripheral, Speed, UiAction, UiToEmu};
use crate::ui::state::{
    default_mask, default_step, row_labels, row_targets, EmulationMenu, FileMenu, Key, KeyEvent,
    KeyStep, MenuBar, OptionsMenu, RebindTarget, SerialMenu, SpawnStep, ToolsMenu, UiState,
};
use crate::ui::window::WindowKind;
use vstd::prelude::*;

verus! {

/// A menu bar with every menu closed.
pub open spec fn closed_bar<C>() -> MenuBar<C> {
    MenuBar { file: None, emulation: None, tools: None, options: None }
}

/// A bar that was drawn with every menu closed changes nothing while no menu had
/// the machine paused.
pub proof fn law_closed_menus_change_nothing<C>(state: UiState<C>, mobile_available: bool)
    requires
        !state.menu_pause_active,
    ensures
        state.after_menus(closed_bar(), mobile_available) == state,
{
}

/// What is clicked in the File menu: a cartridge is to be loaded, or the machine
/// reset, and the reset counts where both were. What was pending stays pending
/// without a click. The rest is that of an open menu.
pub proof fn law_file_menu<C>(state: UiState<C>, cart: C, mobile_available: bool)
    requires
        state.menu_pause_active,
    ensures
        ({
            let bar = |load: Option<C>, reset: bool|
                MenuBar { file: Some(FileMenu { load, reset }), ..closed_bar() };
            &&& state.after_menus(bar(Some(cart), false), mobile_available) == (UiState {
                pending_action: Some(UiAction::Load(cart)),
                ..state
            })
            &&& state.after_menus(bar(None, true), mobile_available) == (UiState {
                pending_action: Some(UiAction::Reset),
                ..state
            })
            &&& state.after_menus(bar(Some(cart), true), mobile_available) == (UiState {
                pending_action: Some(UiAction::Reset),
                ..state
            })
            &&& state.after_menus(bar(None, false), mobile_available) == state
        }),
{
}

/// The choice of a peripheral: with the adapter at hand, another one than the
/// current is remembered and sent, and the current one is not sent again. Without
/// it the cable stays unplugged, whatever is clicked.
pub proof fn law_peripheral_menu<C>(state: UiState<C>)
    requires
        state.menu_pause_active,
    ensures
        ({
            let bar = |unplug: bool, mobile_adapter: bool|
                MenuBar::<C> {
                    emulation: Some(
                        EmulationMenu {
                            toggle_pause: false,
                            serial: Some(SerialMenu { unplug, mobile_adapter }),
                        },
                    ),
                    ..closed_bar()
                };
            let unplugged = state.after_menus(bar(true, false), true);
            let adapter = state.after_menus(bar(false, true), true);
            &&& unplugged.serial_peripheral == SerialPeripheral::Unplugged
            &&& adapter.serial_peripheral == SerialPeripheral::MobileAdapter
            &&& state.serial_peripheral == SerialPeripheral::Unplugged ==> unplugged == state
                && adapter.pending_serial_peripheral == Some(SerialPeripheral::MobileAdapter)
            &&& state.serial_peripheral == SerialPeripheral::MobileAdapter ==> adapter == state
                && unplugged.pending_serial_peripheral == Some(SerialPeripheral::Unplugged)
            &&& unplugged == (UiState {
                serial_peripheral: unplugged.serial_peripheral,
                pending_serial_peripheral: unplugged.pending_serial_peripheral,
                ..state
            })
            &&& adapter == (UiState {
                serial_peripheral: adapter.serial_peripheral,
                pending_serial_peripheral: adapter.pending_serial_peripheral,
                ..state
            })
            &&& state.after_menus(bar(false, false), true) == state
            &&& forall|unplug: bool, mobile_adapter: bool| #[trigger]
                state.after_menus(bar(unplug, mobile_adapter), false) == (UiState {
                    serial_peripheral: SerialPeripheral::Unplugged,
                    ..state
                })
        }),
{
}

/// Each tool, and the options, are asked for by their own item alone. A tool
/// pauses the machine for good; the options do not.
pub proof fn law_tools_and_options<C>(state: UiState<C>, mobile_available: bool)
    requires
        state.menu_pause_active,
    ensures
        ({
            let tools = |debugger: bool, vram_viewer: bool|
                MenuBar::<C> {
                    tools: Some(ToolsMenu { debugger, vram_viewer }),
                    ..closed_bar()
                };
            let options = |options: bool|
                MenuBar::<C> { options: Some(OptionsMenu { options }), ..closed_bar() };
            let debugger = state.after_menus(tools(true, false), mobile_available);
            let vram = state.after_menus(tools(false, true), mobile_available);
            &&& debugger == (UiState {
                spawn_debugger: true,
                paused: true,
                pending_pause: Some(true),
                menu_resume_armed: false,
                ..state
            })
            &&& vram == (UiState {
                spawn_vram: true,
                paused: true,
                pending_pause: Some(true),
                menu_resume_armed: false,
                ..state
            })
            &&& state.after_menus(tools(false, false), mobile_available) == state
            &&& state.after_menus(options(true), mobile_available) == (UiState {
                spawn_options: true,
                ..state
            })
            &&& state.after_menus(options(false), mobile_available) == state
        }),
{
}

/// The pause item toggles the pause, sends it, and closing the menu does not undo
/// it. Toggled twice, it is as it was.
pub proof fn law_pause_item<C>(state: UiState<C>, mobile_available: bool)
    requires
        state.menu_pause_active,
    ensures
        ({
            let bar = MenuBar::<C> {
                emulation: Some(EmulationMenu { toggle_pause: true, serial: None }),
                ..closed_bar()
            };
            let once = state.after_menus(bar, mobile_available);
            let twice = once.after_menus(bar, mobile_available);
            let closed = once.after_menus(closed_bar(), mobile_available);
            &&& once.paused == !state.paused
            &&& once.pending_pause == Some(!state.paused)
            &&& twice.paused == state.paused
            &&& twice.pending_pause == Some(state.paused)
            &&& closed.paused == !state.paused
            &&& closed.pending_pause == Some(!state.paused)
            &&& !closed.menu_pause_active
        }),
{
}

/// The front end starts running, with nothing asked for and nothing to send.
pub proof fn law_front_end_starts<C>(peripheral: SerialPeripheral)
    ensures
        ({
            let start = UiState::<C>::started(peripheral);
            &&& !start.paused
            &&& !start.menu_pause_active
            &&& start.rebinding is None
            &&& start.serial_peripheral == peripheral
            &&& start.last_main_inner_size is None
            &&& start.due().len() == 0
            &&& forall|kind: WindowKind| !#[trigger] start.spawn_requested(kind)
        }),
{
}

/// A click on a row waits for its key, also where a key was waited for; Cancel
/// waits no more.
pub proof fn law_options_window<C>(state: UiState<C>, target: RebindTarget, cancel: bool)
    ensures
        state.after_options(cancel, Some(target)) == (UiState { rebinding: Some(target), ..state }),
        state.after_options(true, None) == (UiState { rebinding: None, ..state }),
        state.after_options(false, None) == state,
{
}

/// A key that is waited for is bound, to what was asked, and does nothing else;
/// the next one is not.
pub proof fn law_rebinding<C>(
    state: UiState<C>,
    key: KeyEvent,
    target: RebindTarget,
    joypad: u8,
    speed: Speed,
)
    requires
        state.rebinding == Some(target),
        key.pressed,
    ensures
        ({
            let step = state.key_step(key, joypad);
            &&& step == KeyStep::Rebind(target)
            &&& state.after_key(step) == (UiState { rebinding: None, ..state })
            &&& step.speed_after(speed) == speed
            &&& step.joypad_after(joypad) == joypad
            &&& !(state.after_key(step).key_step(key, joypad) is Rebind)
        }),
{
}

/// Where no key is waited for, in the main window: quit works always; the pause key
/// toggles, but not while text is typed or a menu is open; fast-forward lasts as
/// long as its key is down; buttons work while the machine runs and no text is
/// typed. In the Options window no key does anything.
pub proof fn law_keys<C>(state: UiState<C>, key: KeyEvent, joypad: u8, speed: Speed)
    requires
        state.rebinding is None || !key.pressed,
    ensures
        ({
            let step = state.key_step(key, joypad);
            let main = !key.in_options;
            &&& key.in_options ==> step == KeyStep::Ignore
            &&& main && key.is_quit && key.pressed ==> step == KeyStep::Quit
            &&& main && key.is_quit && !key.pressed ==> step == KeyStep::Ignore
            &&& step == KeyStep::Quit ==> key.is_quit && key.pressed
            &&& main && !key.is_quit && key.is_pause && key.pressed && !key.text_input
                && !state.menu_pause_active ==> step == KeyStep::SetPaused(!state.paused)
                && state.after_key(step).paused == !state.paused
            &&& step is SetPaused ==> key.is_pause && key.pressed && !key.text_input
                && !state.menu_pause_active
            &&& main && !key.is_quit && !key.is_pause && key.is_fast_forward ==> step
                == KeyStep::SetSpeed(Speed { fast: key.pressed }) && step.speed_after(speed).fast
                == key.pressed
            &&& !key.is_fast_forward ==> step.speed_after(speed) == speed
            &&& state.paused || key.text_input || key.joypad_mask is None ==> !(step is UpdateInput)
                && step.joypad_after(joypad) == joypad
            &&& !(step is SetPaused) ==> state.after_key(step) == state
            &&& step is SetPaused ==> state.after_key(step) == (UiState {
                paused: !state.paused,
                ..state
            })
        }),
{
}

/// A button that is pressed while the machine runs turns its own bit to 0, and one
/// that is released turns it to 1. `joypad` is given by the button's bit, the bits
/// above and those below it.
pub proof fn law_button_keys<C>(
    state: UiState<C>,
    key: KeyEvent,
    mask: u8,
    above: int,
    bit: int,
    below: int,
    joypad: u8,
)
    requires
        state.rebinding is None,
        !state.paused,
        !key.text_input,
        !key.in_options,
        !key.is_quit,
        !key.is_pause,
        !key.is_fast_forward,
        key.joypad_mask == Some(mask),
        mask == 1 || mask == 2 || mask == 4 || mask == 8 || mask == 16 || mask == 32 || mask == 64
            || mask == 128,
        0 <= below < mask,
        bit == 0 || bit == 1,
        above >= 0,
        joypad == above * (2 * mask) + bit * mask + below,
    ensures
        state.key_step(key, joypad) is UpdateInput,
        ({
            let up = if key.pressed {
                0int
            } else {
                1int
            };
            state.key_step(key, joypad).joypad_after(joypad) == above * (2 * mask) + up * mask
                + below
        }),
{
    assert(mask == 1 || mask == 2 || mask == 4 || mask == 8 || mask == 16 || mask == 32 || mask == 64
        || mask == 128 ==> (joypad / mask % 2 == 1 ==> joypad & !mask == joypad - mask && joypad
        | mask == joypad) && (joypad / mask % 2 == 0 ==> joypad & !mask == joypad && joypad | mask
        == joypad + mask)) by (bit_vector);
    assert(joypad as int / mask as int % 2 == bit) by {
        assert(joypad as int / mask as int == 2 * above + bit) by (nonlinear_arith)
            requires
                joypad == above * (2 * mask) + bit * mask + below,
                0 <= below < mask,
        ;
    }
    assert(1 * mask == mask && 0 * mask == 0);
}

/// The keys of the eight buttons without any configuration: arrows for the pad, S
/// for A, A for B, shift for Select and return for Start. Escape quits.
pub proof fn law_default_keys(pressed: bool, joypad: u8)
    ensures
        default_mask(Key::Right) == Some(1u8),
        default_mask(Key::Left) == Some(2u8),
        default_mask(Key::Up) == Some(4u8),
        default_mask(Key::Down) == Some(8u8),
        default_mask(Key::S) == Some(16u8),
        default_mask(Key::A) == Some(32u8),
        default_mask(Key::LShift) == Some(64u8),
        default_mask(Key::RShift) == Some(64u8),
        default_mask(Key::Return) == Some(128u8),
        default_step(Key::Escape, true, joypad) == KeyStep::Quit,
        default_step(Key::Escape, false, joypad) == KeyStep::Ignore,
        default_step(Key::Other, pressed, joypad) == KeyStep::Ignore,
        forall|key: Key|
            default_mask(key) is Some ==> (#[trigger] default_step(key, pressed, joypad))
                is UpdateInput,
{
}

/// A button key without any configuration changes its own bit of the buttons: 0
/// for pressed, 1 for released.
pub proof fn law_default_button_keys(key: Key, mask: u8, pressed: bool, joypad: u8)
    requires
        default_mask(key) == Some(mask),
    ensures
        ({
            let after = default_step(key, pressed, joypad).joypad_after(joypad);
            &&& pressed && joypad as int / mask as int % 2 == 1 ==> after == joypad - mask
            &&& pressed && joypad as int / mask as int % 2 == 0 ==> after == joypad
            &&& !pressed && joypad as int / mask as int % 2 == 0 ==> after == joypad + mask
            &&& !pressed && joypad as int / mask as int % 2 == 1 ==> after == joypad
        }),
{
    let bit = joypad as int / mask as int % 2;
    let state = UiState::<int>::started(SerialPeripheral::Unplugged);
    let event = KeyEvent {
        pressed,
        in_options: false,
        is_quit: false,
        is_pause: false,
        is_fast_forward: false,
        joypad_mask: Some(mask),
        text_input: false,
    };
    let m = mask as int;
    let quotient = joypad as int / m;
    vstd::arithmetic::div_mod::lemma_fundamental_div_mod(joypad as int, m);
    vstd::arithmetic::div_mod::lemma_mod_bound(joypad as int, m);
    assert(joypad == (quotient / 2) * (2 * m) + bit * m + joypad as int % m) by (nonlinear_arith)
        requires
            joypad as int == m * quotient + joypad as int % m,
            bit == quotient % 2,
            quotient == 2 * (quotient / 2) + quotient % 2,
    ;
    assert(quotient / 2 >= 0) by (nonlinear_arith)
        requires
            quotient == joypad as int / m,
            m > 0,
            joypad >= 0,
    ;
    law_button_keys(state, event, mask, quotient / 2, bit, joypad as int % m, joypad);
    assert(0 * m == 0 && 1 * m == m);
}

/// The list of bindings: each row binds what its label says.
pub proof fn law_rows_of_bindings()
    ensures
        row_labels().len() == 11,
        row_targets().len() == 11,
        row_labels()[0] == "Up"@ && row_targets()[0] == RebindTarget::Joypad(4),
        row_labels()[1] == "Down"@ && row_targets()[1] == RebindTarget::Joypad(8),
        row_labels()[2] == "Left"@ && row_targets()[2] == RebindTarget::Joypad(2),
        row_labels()[3] == "Right"@ && row_targets()[3] == RebindTarget::Joypad(1),
        row_labels()[4] == "A"@ && row_targets()[4] == RebindTarget::Joypad(16),
        row_labels()[5] == "B"@ && row_targets()[5] == RebindTarget::Joypad(32),
        row_labels()[6] == "Select"@ && row_targets()[6] == RebindTarget::Joypad(64),
        row_labels()[7] == "Start"@ && row_targets()[7] == RebindTarget::Joypad(128),
        row_labels()[8] == "Pause"@ && row_targets()[8] == RebindTarget::Pause,
        row_labels()[9] == "Fast Forward"@ && row_targets()[9] == RebindTarget::FastForward,
        row_labels()[10] == "Quit"@ && row_targets()[10] == RebindTarget::Quit,
{
}

/// Everything that is pending is sent, once: the peripheral, then the pause, then
/// the action, which ends a pause.
pub proof fn law_messages_are_sent_once<C>(state: UiState<C>)
    ensures
        state.after_messages().due().len() == 0,
        state.pending_serial_peripheral matches Some(p) ==> state.due().len() > 0 && state.due()[0]
            == UiToEmu::<C>::Command(EmuCommand::SetSerialPeripheral(p)),
        state.pending_pause matches Some(p) ==> {
            let at = if state.pending_serial_peripheral is Some {
                1int
            } else {
                0int
            };
            state.due().len() > at && state.due()[at] == UiToEmu::<C>::Command(
                EmuCommand::SetPaused(p),
            )
        },
        state.pending_action matches Some(a) ==> {
            let n = state.due().len();
            &&& n >= 2
            &&& state.due()[n - 2] == UiToEmu::Action(a)
            &&& state.due()[n - 1] == UiToEmu::<C>::Command(EmuCommand::SetPaused(false))
            &&& !state.after_messages().paused
        },
        state.pending_action is None ==> state.after_messages().paused == state.paused,
        state.due().len() == (if state.pending_serial_peripheral is Some {
            1int
        } else {
            0
        }) + (if state.pending_pause is Some {
            1int
        } else {
            0
        }) + (if state.pending_action is Some {
            2int
        } else {
            0
        }),
        state.after_messages() == (UiState {
            pending_serial_peripheral: None,
            pending_pause: None,
            pending_action: None,
            paused: state.after_messages().paused,
            ..state
        }),
{
}

/// A window that was asked for is opened once, unless it is open. A tool pauses the
/// machine, the options do not.
pub proof fn law_windows_are_opened_once<C>(state: UiState<C>, kind: WindowKind, other: WindowKind)
    ensures
        state.spawn_step(kind, true) is Nothing,
        state.spawn_step(kind, false) is Nothing <==> !state.spawn_requested(kind),
        !state.after_spawn(kind).spawn_requested(kind),
        kind != other && kind != WindowKind::Main ==> state.after_spawn(kind).spawn_requested(other)
            == state.spawn_requested(other),
        state.spawn_requested(WindowKind::Debugger) == state.spawn_debugger,
        state.spawn_requested(WindowKind::VramViewer) == state.spawn_vram,
        state.spawn_requested(WindowKind::Options) == state.spawn_options,
        !state.spawn_requested(WindowKind::Main),
        state.spawn_requested(WindowKind::Options) ==> state.spawn_step(WindowKind::Options, false)
            is Spawn && state.after_spawn(WindowKind::Options).paused == state.paused,
        state.spawn_requested(WindowKind::Debugger) ==> state.spawn_step(
            WindowKind::Debugger,
            false,
        ) is SpawnPaused && state.after_spawn(WindowKind::Debugger).paused,
        state.spawn_requested(WindowKind::VramViewer) ==> state.spawn_step(
            WindowKind::VramViewer,
            false,
        ) is SpawnPaused && state.after_spawn(WindowKind::VramViewer).paused,
        state.after_spawn(kind) == (UiState {
            spawn_debugger: state.after_spawn(kind).spawn_debugger,
            spawn_vram: state.after_spawn(kind).spawn_vram,
            spawn_options: state.after_spawn(kind).spawn_options,
            paused: state.after_spawn(kind).paused,
            ..state
        }),
{
}

} // verus!
