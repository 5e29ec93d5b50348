//! Choices between what was asked for and what there is.

use crate::ui::emulator::SerialPeripheral;
use vstd::prelude::*;

verus! {

/// A palette for the DMG that is not green, as 0x00RRGGBB.
pub const NEUTRAL_DMG_PALETTE: [u32; 4] = [0x00E0F8D0, 0x0088C070, 0x00346856, 0x00081820];

/// Bytes of what came over the network that are logged.
pub const PREVIEW_LEN: usize = 32;

/// Logging verbosity.
#[derive(Clone, Copy, Debug, PartialEq, Eq, Structural)]
pub enum LogLevelArg {
    Off,
    Error,
    Warn,
    Info,
    Debug,
    Trace,
}

impl LogLevelArg {
    /// The filter of the level.
    pub open spec fn filter(self) -> Seq<char> {
        match self {
            LogLevelArg::Off => "off"@,
            LogLevelArg::Error => "error"@,
            LogLevelArg::Warn => "warn"@,
            LogLevelArg::Info => "info"@,
            LogLevelArg::Debug => "debug"@,
            LogLevelArg::Trace => "trace"@,
        }
    }

    pub fn as_filter_str(self) -> (filter: &'static str)
        ensures
            filter@ == self.filter(),
    {
        match self {
            LogLevelArg::Off => "off",
            LogLevelArg::Error => "error",
            LogLevelArg::Warn => "warn",
            LogLevelArg::Info => "info",
            LogLevelArg::Debug => "debug",
            LogLevelArg::Trace => "trace",
        }
    }
}

/// The filter of the log.
pub open spec fn filter_for(asked: Option<LogLevelArg>, debug_build: bool) -> Seq<char> {
    match asked {
        Some(level) => level.filter(),
        None => if debug_build {
            LogLevelArg::Info.filter()
        } else {
            LogLevelArg::Off.filter()
        },
    }
}

/// The filter of the log: the level that was asked for, or `info` in debug
/// builds and `off` in others.
pub fn default_log_filter(asked: Option<LogLevelArg>, debug_build: bool) -> (filter: &'static str)
    ensures
        filter@ == filter_for(asked, debug_build),
{
    match asked {
        Some(level) => level.as_filter_str(),
        None => if debug_build {
            LogLevelArg::Info.as_filter_str()
        } else {
            LogLevelArg::Off.as_filter_str()
        },
    }
}

/// The graphics interface that was asked for.
#[derive(Clone, Copy, Debug, PartialEq, Eq, Structural)]
pub enum WgpuBackendArg {
    Auto,
    Dx12,
    Dx11,
    Vulkan,
    Metal,
    Gl,
}

/// What to do about the variable that names the graphics interface.
#[derive(Clone, Copy, Debug, PartialEq, Eq)]
pub enum BackendChoice {
    /// Leave it as it is.
    Keep,
    /// Leave the choice to the graphics library.
    Automatic,
    /// Name this one.
    Named(&'static str),
}

impl WgpuBackendArg {
    /// The name of the interface, if it is one.
    pub open spec fn name(self) -> Option<Seq<char>> {
        match self {
            WgpuBackendArg::Auto => None,
            WgpuBackendArg::Dx12 => Some("dx12"@),
            WgpuBackendArg::Dx11 => Some("dx11"@),
            WgpuBackendArg::Vulkan => Some("vulkan"@),
            WgpuBackendArg::Metal => Some("metal"@),
            WgpuBackendArg::Gl => Some("gl"@),
        }
    }
}

/// `choice` is the graphics interface to take.
pub open spec fn is_backend(
    asked: Option<WgpuBackendArg>,
    named: bool,
    windows: bool,
    choice: BackendChoice,
) -> bool {
    match asked {
        Some(backend) => match backend.name() {
            Some(name) => choice matches BackendChoice::Named(n) && n@ == name,
            None => choice is Automatic,
        },
        None => if named || !windows {
            choice is Keep
        } else {
            choice matches BackendChoice::Named(n) && n@ == "dx12"@
        },
    }
}

/// The graphics interface: the one that was asked for; if none was, the one that
/// the environment names (`named`); if it names none, DirectX on Windows, where
/// the others have buggy present modes, and elsewhere what the graphics library
/// chooses.
pub fn wgpu_backend(asked: Option<WgpuBackendArg>, named: bool, windows: bool) -> (choice:
    BackendChoice)
    ensures
        is_backend(asked, named, windows, choice),
{
    match asked {
        Some(WgpuBackendArg::Auto) => BackendChoice::Automatic,
        Some(WgpuBackendArg::Dx12) => BackendChoice::Named("dx12"),
        Some(WgpuBackendArg::Dx11) => BackendChoice::Named("dx11"),
        Some(WgpuBackendArg::Vulkan) => BackendChoice::Named("vulkan"),
        Some(WgpuBackendArg::Metal) => BackendChoice::Named("metal"),
        Some(WgpuBackendArg::Gl) => BackendChoice::Named("gl"),
        None => if named || !windows {
            BackendChoice::Keep
        } else {
            BackendChoice::Named("dx12")
        },
    }
}

/// Whether the machine runs in CGB mode.
pub open spec fn runs_as_cgb(force_dmg: bool, force_cgb: bool, cart_cgb: bool) -> bool {
    !force_dmg && (force_cgb || cart_cgb)
}

/// Whether the machine runs in CGB mode: as forced, or as the cartridge says.
pub fn cgb_mode(force_dmg: bool, force_cgb: bool, cart_cgb: bool) -> (cgb: bool)
    ensures
        cgb == runs_as_cgb(force_dmg, force_cgb, cart_cgb),
{
    if force_dmg {
        false
    } else if force_cgb {
        true
    } else {
        cart_cgb
    }
}

/// The palette to set.
pub open spec fn palette_for(cgb: bool, neutral: bool) -> Option<[u32; 4]> {
    if !cgb && neutral {
        Some(NEUTRAL_DMG_PALETTE)
    } else {
        None
    }
}

/// The palette to set, if another one than the default is wanted. A CGB keeps
/// its own.
pub fn dmg_palette(cgb: bool, neutral: bool) -> (palette: Option<[u32; 4]>)
    ensures
        palette == palette_for(cgb, neutral),
{
    if !cgb && neutral {
        Some(NEUTRAL_DMG_PALETTE)
    } else {
        None
    }
}

/// What the link cable is to end in.
pub fn wanted_peripheral(mobile: bool) -> (p: SerialPeripheral)
    ensures
        p == (if mobile {
            SerialPeripheral::MobileAdapter
        } else {
            SerialPeripheral::Unplugged
        }),
{
    if mobile {
        SerialPeripheral::MobileAdapter
    } else {
        SerialPeripheral::Unplugged
    }
}

/// The directory that the path of the key bindings starts from.
#[derive(Clone, Copy, Debug, PartialEq, Eq, Structural)]
pub enum ConfigBase {
    AppData,
    XdgConfigHome,
    Home,
    WorkingDirectory,
}

/// Where the key bindings are by default, given which directories there are:
/// the base, and the names that follow.
pub open spec fn keybinds_base(windows: bool, appdata: bool, xdg: bool, home: bool) -> ConfigBase {
    if windows && appdata {
        ConfigBase::AppData
    } else if xdg {
        ConfigBase::XdgConfigHome
    } else if home {
        ConfigBase::Home
    } else {
        ConfigBase::WorkingDirectory
    }
}

/// The names that follow a base in the path of the key bindings.
pub open spec fn keybinds_names(base: ConfigBase) -> Seq<Seq<char>> {
    match base {
        ConfigBase::AppData => seq!["vibeemu"@, "keybinds.cfg"@],
        ConfigBase::XdgConfigHome => seq!["vibeemu"@, "keybinds.cfg"@],
        ConfigBase::Home => seq![".config"@, "vibeemu"@, "keybinds.cfg"@],
        ConfigBase::WorkingDirectory => seq!["keybinds.cfg"@],
    }
}

/// Where the key bindings are by default.
pub fn default_keybinds_path(windows: bool, appdata: bool, xdg: bool, home: bool) -> (path: (
    ConfigBase,
    Vec<&'static str>,
))
    ensures
        path.0 == keybinds_base(windows, appdata, xdg, home),
        path.1@.len() == keybinds_names(path.0).len(),
        forall|i: int|
            0 <= i < path.1@.len() ==> (#[trigger] path.1@[i])@ == keybinds_names(path.0)[i],
{
    let mut names: Vec<&'static str> = Vec::new();
    let base = if windows && appdata {
        ConfigBase::AppData
    } else if xdg {
        ConfigBase::XdgConfigHome
    } else if home {
        ConfigBase::Home
    } else {
        ConfigBase::WorkingDirectory
    };
    match base {
        ConfigBase::WorkingDirectory => {},
        ConfigBase::Home => {
            names.push(".config");
            names.push("vibeemu");
        },
        _ => {
            names.push("vibeemu");
        },
    }
    names.push("keybinds.cfg");
    (base, names)
}

/// How much of a reception is logged, and whether there is more.
pub open spec fn preview_of(received: i32) -> Option<(usize, bool)> {
    if received <= 0 {
        None
    } else if received <= PREVIEW_LEN {
        Some((received as usize, false))
    } else {
        Some((PREVIEW_LEN, true))
    }
}

/// How much of a reception is logged: nothing of a failed or empty one, else
/// the first bytes, and whether there are more.
pub fn reception_preview(received: i32) -> (preview: Option<(usize, bool)>)
    ensures
        preview == preview_of(received),
{
    if received > 0 {
        let n: usize = received as usize;
        let preview_len: usize = if n < PREVIEW_LEN {
            n
        } else {
            PREVIEW_LEN
        };
        Some((preview_len, n > preview_len))
    } else {
        None
    }
}

} // verus!
