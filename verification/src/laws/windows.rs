//! Windows and settings.

use crate::ui::config::{
    filter_for, is_backend, keybinds_base, keybinds_names, palette_for, preview_of, runs_as_cgb,
    BackendChoice, ConfigBase, LogLevelArg, WgpuBackendArg,
};
use crate::ui::state::{context_shown, frame_taken, MouseButton, UiState};
use crate::ui::window::{
    closed, is_clamped, is_redrawn, size_below, Area, CloseStep, Surface, WindowKind,
};
use vstd::prelude::*;

verus! {

/// What is left of a rectangle on a surface is the rectangle from its own corner to
/// its own far edges or those of the surface, whichever come first.
pub proof fn law_clip(clip: Area, max_w: u32, max_h: u32, area: Area)
    requires
        is_clamped(clip, max_w, max_h, Some(area)),
    ensures
        area.x == clip.x,
        area.y == clip.y,
        area.x + area.w == clip.x + clip.w || area.x + area.w == max_w,
        area.y + area.h == clip.y + clip.h || area.y + area.h == max_h,
        area.x + area.w <= clip.x + clip.w,
        area.y + area.h <= clip.y + clip.h,
        area.x + area.w <= max_w,
        area.y + area.h <= max_h,
{
    assert(area.contains(area.x as int, area.y as int));
    assert(clip.contains(area.x as int, area.y as int));
    assert(clip.contains(clip.x as int, clip.y as int));
    assert(area.contains(clip.x as int, clip.y as int));
    let right = area.x + area.w;
    let bottom = area.y + area.h;
    assert(area.contains(right - 1, area.y as int));
    assert(!area.contains(right, area.y as int));
    assert(area.contains(area.x as int, bottom - 1));
    assert(!area.contains(area.x as int, bottom));
    assert(!clip.contains(right, area.y as int) || right >= max_w);
    assert(!clip.contains(area.x as int, bottom) || bottom >= max_h);
}

/// A rectangle of which nothing is left is empty, or lies off the surface.
pub proof fn law_clip_is_empty(clip: Area, max_w: u32, max_h: u32)
    requires
        is_clamped(clip, max_w, max_h, None),
    ensures
        clip.w == 0 || clip.h == 0 || clip.x >= max_w || clip.y >= max_h,
{
    if clip.w > 0 && clip.h > 0 {
        assert(clip.contains(clip.x as int, clip.y as int));
    }
}

/// The main window just holds the picture at twice its size below the menu bar. The
/// size is asked for once, and again only for a menu bar of another height.
pub proof fn law_main_window_size<C>(state: UiState<C>, top: u32, other: u32)
    requires
        top + 288 <= u32::MAX,
        other + 288 <= u32::MAX,
    ensures
        size_below(top).0 == 320,
        size_below(top).1 == top + 288,
        state.after_asking(top).size_to_ask(top) is None,
        other != top ==> state.after_asking(top).size_to_ask(other) == Some(
            (320u32, (other + 288) as u32),
        ),
        state.last_main_inner_size is None ==> state.size_to_ask(top) is Some,
        state.after_asking(top) == (UiState {
            last_main_inner_size: state.after_asking(top).last_main_inner_size,
            ..state
        }),
{
}

/// The sizes of the windows and of their pixels.
pub proof fn law_window_sizes(kind: WindowKind)
    ensures
        WindowKind::Main.pixels() == (160u32, 144u32),
        kind != WindowKind::Main ==> kind.pixels() == (1u32, 1u32),
        WindowKind::Main.first_size() == (320u32, 320u32),
        WindowKind::Debugger.first_size() == (320u32, 288u32),
        WindowKind::VramViewer.first_size() == (640u32, 600u32),
        WindowKind::Options.first_size() == (520u32, 420u32),
        WindowKind::Main.title_text() == "vibeEmu"@,
        WindowKind::Debugger.title_text() == "vibeEmu \u{2013} Debugger"@,
        WindowKind::VramViewer.title_text() == "vibeEmu \u{2013} VRAM"@,
        WindowKind::Options.title_text() == "vibeEmu \u{2013} Options"@,
{
}

/// The pause item says what a click on it does.
pub proof fn law_pause_label<C>(state: UiState<C>)
    ensures
        state.paused ==> state.pause_text() == "Resume"@,
        !state.paused ==> state.pause_text() == "Pause"@,
{
}

/// A press of the right mouse button shows the context menu. Nothing hides it here.
pub proof fn law_context_menu(button: MouseButton, pressed: bool, shown: bool)
    ensures
        context_shown(MouseButton::Right, true, shown),
        context_shown(button, pressed, true),
        !context_shown(button, false, false),
        button != MouseButton::Right ==> !context_shown(button, pressed, false),
{
}

/// A frame of the right size is shown, and the one before it goes back to the pool:
/// no frame is lost. One of another size is not shown.
pub proof fn law_frames_are_exchanged(
    before: Seq<u32>,
    incoming: Seq<u32>,
    after: Seq<u32>,
    to_pool: Option<Seq<u32>>,
)
    requires
        frame_taken(before, incoming, after, to_pool),
    ensures
        incoming.len() == before.len() ==> after == incoming && to_pool == Some(before),
        incoming.len() != before.len() ==> after == before && to_pool is None,
{
}

/// Closing the main window ends the program, and the emulator thread is told so
/// exactly once. Closing another window closes that window alone.
pub proof fn law_closing(kind: WindowKind)
    ensures
        closed(WindowKind::Main, false) == (CloseStep::Exit { send_shutdown: true }, true),
        closed(WindowKind::Main, true) == (CloseStep::Exit { send_shutdown: false }, true),
        kind != WindowKind::Main ==> closed(kind, false) == (CloseStep::Remove, false) && closed(
            kind,
            true,
        ) == (CloseStep::Remove, true),
{
}

/// Input redraws every window but the main one, which it redraws while paused and
/// while the menu takes it.
pub proof fn law_redraws(kind: WindowKind, paused: bool, mouse: bool, keyboard: bool)
    ensures
        kind != WindowKind::Main ==> is_redrawn(kind, paused, mouse, keyboard),
        is_redrawn(WindowKind::Main, true, mouse, keyboard),
        is_redrawn(WindowKind::Main, paused, true, keyboard),
        is_redrawn(WindowKind::Main, paused, mouse, true),
        !is_redrawn(WindowKind::Main, false, false, false),
{
}

/// A surface is resized when its window has another size, unless that has no area;
/// once it was, it matches. A resize that failed changes nothing.
pub proof fn law_surfaces(surface: Surface, width: u32, height: u32)
    ensures
        !surface.after_resize(width, height, true).is_mismatch(width, height),
        surface.after_resize(width, height, true) == (Surface {
            surface_width: width,
            surface_height: height,
            ..surface
        }),
        surface.after_resize(width, height, false) == surface,
        width > 0 && height > 0 ==> (surface.is_mismatch(width, height) <==> width
            != surface.surface_width || height != surface.surface_height),
        !surface.is_mismatch(0, height),
        !surface.is_mismatch(width, 0),
{
}

/// A model that is forced counts before what the cartridge says, and the DMG before
/// the CGB.
pub proof fn law_model(force_cgb: bool, cart_cgb: bool)
    ensures
        !runs_as_cgb(true, force_cgb, cart_cgb),
        runs_as_cgb(false, true, cart_cgb),
        runs_as_cgb(false, false, cart_cgb) == cart_cgb,
{
}

/// The palette that is not green is for a DMG that asks for it.
pub proof fn law_palettes(neutral: bool)
    ensures
        palette_for(true, neutral) is None,
        palette_for(false, false) is None,
        palette_for(false, true) matches Some(p) && p@ == seq![
            0xE0F8D0u32,
            0x88C070,
            0x346856,
            0x081820,
        ],
{
    assert(palette_for(false, true)->0@ =~= seq![0xE0F8D0u32, 0x88C070, 0x346856, 0x081820]);
}

/// Up to 32 bytes of a reception are logged, and it is said when there were more. Of a
/// failed or empty one nothing is.
pub proof fn law_previews(received: i32)
    ensures
        received <= 0 ==> preview_of(received) is None,
        0 < received <= 32 ==> preview_of(received) == Some((received as usize, false)),
        received > 32 ==> preview_of(received) == Some((32usize, true)),
{
}

/// A level that was asked for is taken; else debug builds log what `info` does and
/// others nothing.
pub proof fn law_log_filters(level: LogLevelArg, debug_build: bool)
    ensures
        filter_for(Some(level), debug_build) == level.filter(),
        filter_for(None, true) == "info"@,
        filter_for(None, false) == "off"@,
        LogLevelArg::Off.filter() == "off"@,
        LogLevelArg::Error.filter() == "error"@,
        LogLevelArg::Warn.filter() == "warn"@,
        LogLevelArg::Info.filter() == "info"@,
        LogLevelArg::Debug.filter() == "debug"@,
        LogLevelArg::Trace.filter() == "trace"@,
{
}

/// The choice names an interface.
pub open spec fn names(choice: BackendChoice, name: Seq<char>) -> bool {
    choice is Named && choice->Named_0@ == name
}

/// A graphics interface that was asked for counts before the environment, and that
/// before the default.
pub proof fn law_backends(
    backend: WgpuBackendArg,
    named: bool,
    windows: bool,
    choice: BackendChoice,
)
    ensures
        is_backend(Some(WgpuBackendArg::Auto), named, windows, choice) <==> choice is Automatic,
        is_backend(Some(backend), named, windows, choice) && backend != WgpuBackendArg::Auto
            ==> choice is Named,
        is_backend(None, true, windows, choice) <==> choice is Keep,
        is_backend(None, false, false, choice) <==> choice is Keep,
        is_backend(None, false, true, choice) <==> names(choice, "dx12"@),
        is_backend(Some(WgpuBackendArg::Dx12), named, windows, choice) <==> names(choice, "dx12"@),
        is_backend(Some(WgpuBackendArg::Dx11), named, windows, choice) <==> names(choice, "dx11"@),
        is_backend(Some(WgpuBackendArg::Vulkan), named, windows, choice) <==> names(
            choice,
            "vulkan"@,
        ),
        is_backend(Some(WgpuBackendArg::Metal), named, windows, choice) <==> names(
            choice,
            "metal"@,
        ),
        is_backend(Some(WgpuBackendArg::Gl), named, windows, choice) <==> names(choice, "gl"@),
{
}

/// The key bindings lie in the directory for applications on Windows, in that for
/// settings elsewhere, else under the home directory, else where the program runs.
pub proof fn law_keybinds_path(windows: bool, appdata: bool, xdg: bool, home: bool)
    ensures
        keybinds_base(true, true, xdg, home) == ConfigBase::AppData,
        keybinds_base(false, appdata, true, home) == ConfigBase::XdgConfigHome,
        keybinds_base(windows, false, true, home) == ConfigBase::XdgConfigHome,
        keybinds_base(false, appdata, false, true) == ConfigBase::Home,
        keybinds_base(windows, false, false, true) == ConfigBase::Home,
        keybinds_base(false, appdata, false, false) == ConfigBase::WorkingDirectory,
        keybinds_base(windows, false, false, false) == ConfigBase::WorkingDirectory,
        keybinds_names(ConfigBase::AppData) == seq!["vibeemu"@, "keybinds.cfg"@],
        keybinds_names(ConfigBase::XdgConfigHome) == seq!["vibeemu"@, "keybinds.cfg"@],
        keybinds_names(ConfigBase::Home) == seq![".config"@, "vibeemu"@, "keybinds.cfg"@],
        keybinds_names(ConfigBase::WorkingDirectory) == seq!["keybinds.cfg"@],
{
}

} // verus!
