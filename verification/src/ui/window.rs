//! Windows: what kinds there are, and how large things in them are.

use vstd::prelude::*;

verus! {

/// How much larger than the screen of the hardware the picture is at first.
pub const SCALE: u32 = 2;

pub const SCREEN_WIDTH: u32 = 160;

pub const SCREEN_HEIGHT: u32 = 144;

/// The top menu bar consumes vertical space; this much is left for it before
/// its height is known.
pub const DEFAULT_MENU_BAR_HEIGHT_PX: u32 = 32;

#[derive(Clone, Copy, Debug, PartialEq, Eq, Structural)]
pub enum WindowKind {
    Debugger,
    VramViewer,
    Main,
    Options,
}

impl WindowKind {
    /// The title of a window.
    pub open spec fn title_text(self) -> Seq<char> {
        match self {
            WindowKind::Debugger => "vibeEmu \u{2013} Debugger"@,
            WindowKind::VramViewer => "vibeEmu \u{2013} VRAM"@,
            WindowKind::Main => "vibeEmu"@,
            WindowKind::Options => "vibeEmu \u{2013} Options"@,
        }
    }

    /// The logical size that a window is opened with.
    pub open spec fn first_size(self) -> (u32, u32) {
        match self {
            WindowKind::Debugger => (320u32, 288u32),
            WindowKind::VramViewer => (640u32, 600u32),
            WindowKind::Main => (320u32, 320u32),
            WindowKind::Options => (520u32, 420u32),
        }
    }

    /// The size of a window's pixel buffer.
    pub open spec fn pixels(self) -> (u32, u32) {
        if self is Main {
            (SCREEN_WIDTH, SCREEN_HEIGHT)
        } else {
            (1, 1)
        }
    }

    /// The title of a window.
    pub fn title(self) -> (title: &'static str)
        ensures
            title@ == self.title_text(),
    {
        match self {
            WindowKind::Debugger => "vibeEmu \u{2013} Debugger",
            WindowKind::VramViewer => "vibeEmu \u{2013} VRAM",
            WindowKind::Main => "vibeEmu",
            WindowKind::Options => "vibeEmu \u{2013} Options",
        }
    }

    /// The logical size that a window is opened with.
    pub fn initial_size(self) -> (size: (u32, u32))
        ensures
            size == self.first_size(),
    {
        match self {
            WindowKind::Debugger => (SCREEN_WIDTH * SCALE, SCREEN_HEIGHT * SCALE),
            WindowKind::VramViewer => (640, 600),
            WindowKind::Main => (
                SCREEN_WIDTH * SCALE,
                SCREEN_HEIGHT * SCALE + DEFAULT_MENU_BAR_HEIGHT_PX,
            ),
            WindowKind::Options => (520, 420),
        }
    }

    /// The size of a window's pixel buffer. Only the main window draws pixels.
    pub fn buffer_size(self) -> (size: (u32, u32))
        ensures
            size == self.pixels(),
    {
        match self {
            WindowKind::Main => (SCREEN_WIDTH, SCREEN_HEIGHT),
            _ => (1, 1),
        }
    }
}

/// The physical size of the main window with a menu bar of the given height.
pub open spec fn size_below(top_padding_px: u32) -> (u32, u32) {
    ((SCREEN_WIDTH * SCALE) as u32, (top_padding_px + SCREEN_HEIGHT * SCALE) as u32)
}

/// The physical size of the main window that just holds the menu bar and the
/// picture.
pub fn desired_main_inner_size(top_padding_px: u32) -> (size: (u32, u32))
    requires
        top_padding_px + SCREEN_HEIGHT * SCALE <= u32::MAX,
    ensures
        size == size_below(top_padding_px),
{
    (SCREEN_WIDTH * SCALE, top_padding_px + SCREEN_HEIGHT * SCALE)
}

/// Whether an input event makes a window redraw itself.
pub open spec fn is_redrawn(
    kind: WindowKind,
    paused: bool,
    captures_mouse: bool,
    captures_keyboard: bool,
) -> bool {
    kind !is Main || paused || captures_mouse || captures_keyboard
}

/// Whether an input event makes a window redraw itself. The main window redraws
/// with every frame anyway, unless it is paused or a menu has the input.
pub fn redraws_on_input(kind: WindowKind, paused: bool, captures_mouse: bool, captures_keyboard:
    bool) -> (redraw: bool)
    ensures
        redraw == is_redrawn(kind, paused, captures_mouse, captures_keyboard),
{
    kind != WindowKind::Main || paused || captures_mouse || captures_keyboard
}

/// What a request to close a window leads to.
#[derive(Clone, Copy, Debug, PartialEq, Eq, Structural)]
pub enum CloseStep {
    /// Close just this window.
    Remove,
    /// End the program, and tell the emulator thread so first if asked to.
    Exit { send_shutdown: bool },
}

/// What a request to close a window leads to, and whether the emulator thread has
/// been told then.
pub open spec fn closed(kind: WindowKind, sent_shutdown: bool) -> (CloseStep, bool) {
    if kind is Main {
        (CloseStep::Exit { send_shutdown: !sent_shutdown }, true)
    } else {
        (CloseStep::Remove, sent_shutdown)
    }
}

/// Close a window. The emulator thread is told to shut down only once.
pub fn close_requested(kind: WindowKind, sent_shutdown: &mut bool) -> (step: CloseStep)
    ensures
        (step, *final(sent_shutdown)) == closed(kind, *old(sent_shutdown)),
{
    if kind == WindowKind::Main {
        let send_shutdown = !*sent_shutdown;
        *sent_shutdown = true;
        CloseStep::Exit { send_shutdown }
    } else {
        CloseStep::Remove
    }
}

/// The sizes of a window's pixel buffer and of the surface that it is drawn on.
#[derive(Clone, Copy, Debug, PartialEq, Eq, Structural)]
pub struct Surface {
    pub buffer_width: u32,
    pub buffer_height: u32,
    pub surface_width: u32,
    pub surface_height: u32,
}

impl Surface {
    /// The size of the surface is unknown until it was set once. It starts at 0
    /// so the first redraw can force it into step.
    pub fn new(buffer_size: (u32, u32)) -> (s: Self)
        ensures
            s == (Surface {
                buffer_width: buffer_size.0,
                buffer_height: buffer_size.1,
                surface_width: 0,
                surface_height: 0,
            }),
    {
        Surface {
            buffer_width: buffer_size.0,
            buffer_height: buffer_size.1,
            surface_width: 0,
            surface_height: 0,
        }
    }

    pub fn surface_size(&self) -> (size: (u32, u32))
        ensures
            size == (self.surface_width, self.surface_height),
    {
        (self.surface_width, self.surface_height)
    }

    pub fn buffer_size(&self) -> (size: (u32, u32))
        ensures
            size == (self.buffer_width, self.buffer_height),
    {
        (self.buffer_width, self.buffer_height)
    }

    /// Whether the surface has another size than a window with an area.
    pub open spec fn is_mismatch(self, width: u32, height: u32) -> bool {
        width != 0 && height != 0 && (width, height) != (self.surface_width, self.surface_height)
    }

    /// The surface after a resize.
    pub open spec fn after_resize(self, width: u32, height: u32, ok: bool) -> Self {
        if ok {
            Surface { surface_width: width, surface_height: height, ..self }
        } else {
            self
        }
    }

    /// Whether the surface has to be resized to match a window of the given
    /// size. A window without an area is left alone.
    pub fn mismatches(&self, width: u32, height: u32) -> (resize: bool)
        ensures
            resize == self.is_mismatch(width, height),
    {
        width != 0 && height != 0 && (width != self.surface_width || height != self.surface_height)
    }

    /// Whether a resize to the given size is carried out at all.
    pub fn can_resize(width: u32, height: u32) -> (can: bool)
        ensures
            can == (width != 0 && height != 0),
    {
        width != 0 && height != 0
    }

    /// The surface was resized, or could not be.
    pub fn resized(&mut self, width: u32, height: u32, ok: bool)
        ensures
            *final(self) == old(self).after_resize(width, height, ok),
    {
        if ok {
            self.surface_width = width;
            self.surface_height = height;
        }
    }
}

/// A rectangle of pixels.
#[derive(Clone, Copy, Debug, PartialEq, Eq, Structural)]
pub struct Area {
    pub x: u32,
    pub y: u32,
    pub w: u32,
    pub h: u32,
}

impl Area {
    /// Whether a point is in the rectangle.
    pub open spec fn contains(self, x: int, y: int) -> bool {
        self.x <= x < self.x + self.w && self.y <= y < self.y + self.h
    }
}

/// `clamped` is the part of `clip` that lies on a surface of the given size.
pub open spec fn is_clamped(clip: Area, max_w: u32, max_h: u32, clamped: Option<Area>) -> bool {
    match clamped {
        Some(area) => {
            &&& area.w > 0 && area.h > 0
            &&& forall|x: int, y: int| #[trigger]
                area.contains(x, y) <==> clip.contains(x, y) && x < max_w && y < max_h
        },
        None => forall|x: int, y: int| #[trigger]
            clip.contains(x, y) ==> !(x < max_w && y < max_h),
    }
}

/// The part of `clip` that lies on a surface of the given size, if any.
pub fn clamp_clip(clip: Area, max_w: u32, max_h: u32) -> (clamped: Option<Area>)
    ensures
        is_clamped(clip, max_w, max_h, clamped),
{
    if max_w == 0 || max_h == 0 || clip.w == 0 || clip.h == 0 || clip.x >= max_w || clip.y >= max_h
    {
        return None;
    }
    let x2: u32 = if clip.x.saturating_add(clip.w) < max_w {
        clip.x.saturating_add(clip.w)
    } else {
        max_w
    };
    let y2: u32 = if clip.y.saturating_add(clip.h) < max_h {
        clip.y.saturating_add(clip.h)
    } else {
        max_h
    };
    let area = Area { x: clip.x, y: clip.y, w: x2 - clip.x, h: y2 - clip.y };
    Some(area)
}

/// The height that is left below the menu bar, at least one pixel.
pub open spec fn height_below(surface_h: u32, top_padding_px: u32) -> int {
    if surface_h > top_padding_px {
        surface_h - top_padding_px
    } else {
        1
    }
}

pub open spec fn min(a: int, b: int) -> int {
    if a < b {
        a
    } else {
        b
    }
}

/// The largest whole factor by which the buffer can be drawn without being cut,
/// at least one.
pub open spec fn whole_scale(width: int, height: int, buffer_w: int, buffer_h: int) -> int {
    let fits = min(width / buffer_w, height / buffer_h);
    if fits < 1 {
        1
    } else {
        fits
    }
}

/// Where the picture goes: below the menu bar, as large as a whole factor
/// allows, and in the middle of what is left. It is cut to what is left.
pub open spec fn is_viewport(
    surface_w: u32,
    surface_h: u32,
    buffer_w: u32,
    buffer_h: u32,
    top_padding_px: u32,
    area: Area,
) -> bool {
    let avail_h = height_below(surface_h, top_padding_px);
    let scale = whole_scale(surface_w as int, avail_h, buffer_w as int, buffer_h as int);
    &&& area.w == min(buffer_w * scale, surface_w as int)
    &&& area.h == min(buffer_h * scale, avail_h)
    &&& area.x == (surface_w - area.w) / 2
    &&& area.y == top_padding_px + (avail_h - area.h) / 2
}

/// Where to draw the picture on a surface with a menu bar at its top.
pub fn game_viewport(
    surface_w: u32,
    surface_h: u32,
    buffer_w: u32,
    buffer_h: u32,
    top_padding_px: u32,
) -> (area: Area)
    requires
        buffer_w > 0,
        buffer_h > 0,
    ensures
        is_viewport(surface_w, surface_h, buffer_w, buffer_h, top_padding_px, area),
{
    let avail_h: u32 = if surface_h > top_padding_px {
        surface_h - top_padding_px
    } else {
        1
    };
    let scale_x: u32 = surface_w / buffer_w;
    let scale_y: u32 = avail_h / buffer_h;
    let fits: u32 = if scale_x < scale_y {
        scale_x
    } else {
        scale_y
    };
    let scale: u32 = if fits < 1 {
        1
    } else {
        fits
    };
    proof {
        assert(scale == whole_scale(
            surface_w as int,
            avail_h as int,
            buffer_w as int,
            buffer_h as int,
        ));
    }
    proof {
        assert(fits >= 1 ==> buffer_w * fits <= surface_w && buffer_h * fits <= avail_h)
            by (nonlinear_arith)
            requires
                buffer_w > 0,
                buffer_h > 0,
                fits <= surface_w / buffer_w,
                fits <= avail_h / buffer_h,
        ;
    }
    let grown_w: u32 = buffer_w * scale;
    let grown_h: u32 = buffer_h * scale;
    let w: u32 = if grown_w < surface_w {
        grown_w
    } else {
        surface_w
    };
    let h: u32 = if grown_h < avail_h {
        grown_h
    } else {
        avail_h
    };
    Area { x: (surface_w - w) / 2, y: top_padding_px + (avail_h - h) / 2, w, h }
}

/// Where the surface has room below the menu bar, the picture lies on it and
/// leaves the menu bar free.
pub proof fn law_viewport_lies_below_the_menu(
    surface_w: u32,
    surface_h: u32,
    buffer_w: u32,
    buffer_h: u32,
    top_padding_px: u32,
    area: Area,
)
    requires
        buffer_w > 0,
        buffer_h > 0,
        top_padding_px < surface_h,
        is_viewport(surface_w, surface_h, buffer_w, buffer_h, top_padding_px, area),
    ensures
        top_padding_px <= area.y,
        area.x + area.w <= surface_w,
        area.y + area.h <= surface_h,
{
}

/// Where the buffer fits as it is, it is drawn without being cut, by a whole
/// factor, and no larger whole factor would fit.
pub proof fn law_viewport_scale_is_whole_and_largest(
    width: int,
    height: int,
    buffer_w: int,
    buffer_h: int,
)
    requires
        0 < buffer_w <= width,
        0 < buffer_h <= height,
    ensures
        ({
            let scale = whole_scale(width, height, buffer_w, buffer_h);
            &&& scale >= 1
            &&& min(buffer_w * scale, width) == buffer_w * scale
            &&& min(buffer_h * scale, height) == buffer_h * scale
            &&& buffer_w * (scale + 1) > width || buffer_h * (scale + 1) > height
        }),
{
    let scale = whole_scale(width, height, buffer_w, buffer_h);
    let by_w = width / buffer_w;
    let by_h = height / buffer_h;
    assert(by_w >= 1 && buffer_w * by_w <= width && buffer_w * (by_w + 1) > width)
        by (nonlinear_arith)
        requires
            0 < buffer_w <= width,
            by_w == width / buffer_w,
    ;
    assert(by_h >= 1 && buffer_h * by_h <= height && buffer_h * (by_h + 1) > height)
        by (nonlinear_arith)
        requires
            0 < buffer_h <= height,
            by_h == height / buffer_h,
    ;
    assert(buffer_w * scale <= buffer_w * by_w) by (nonlinear_arith)
        requires
            scale <= by_w,
            buffer_w > 0,
    ;
    assert(buffer_h * scale <= buffer_h * by_h) by (nonlinear_arith)
        requires
            scale <= by_h,
            buffer_h > 0,
    ;
}

/// The main window, at the size that is asked for it, shows the picture at
/// exactly [`SCALE`], right below the menu bar.
pub proof fn law_desired_size_fits_the_picture(top_padding_px: u32, area: Area)
    requires
        top_padding_px + SCREEN_HEIGHT * SCALE <= u32::MAX,
        is_viewport(
            (SCREEN_WIDTH * SCALE) as u32,
            (top_padding_px + SCREEN_HEIGHT * SCALE) as u32,
            SCREEN_WIDTH,
            SCREEN_HEIGHT,
            top_padding_px,
            area,
        ),
    ensures
        area == (Area {
            x: 0,
            y: top_padding_px,
            w: (SCREEN_WIDTH * SCALE) as u32,
            h: (SCREEN_HEIGHT * SCALE) as u32,
        }),
{
    assert(320int / 160 == 2 && 288int / 144 == 2);
}

} // verus!
