//! The Win32 window styles that the widget windows are given: the compact
//! popup loses every frame and becomes a tool window, the detail panel loses
//! its non-client frame.
use vstd::prelude::*;

verus! {

pub const WS_POPUP: u32 = 0x8000_0000;

pub const WS_CHILD: u32 = 0x4000_0000;

pub const WS_BORDER: u32 = 0x0080_0000;

pub const WS_CAPTION: u32 = 0x00C0_0000;

pub const WS_DLGFRAME: u32 = 0x0040_0000;

pub const WS_MAXIMIZEBOX: u32 = 0x0001_0000;

pub const WS_MINIMIZEBOX: u32 = 0x0002_0000;

pub const WS_SYSMENU: u32 = 0x0008_0000;

pub const WS_THICKFRAME: u32 = 0x0004_0000;

pub const WS_EX_TOOLWINDOW: u32 = 0x0000_0080;

pub const WS_EX_APPWINDOW: u32 = 0x0004_0000;

pub const WS_EX_CLIENTEDGE: u32 = 0x0000_0200;

pub const WS_EX_DLGMODALFRAME: u32 = 0x0000_0001;

pub const WS_EX_WINDOWEDGE: u32 = 0x0000_0100;

/// The style bits that a frameless window must not have.
pub open spec fn frame_mask() -> u32 {
    WS_BORDER | WS_CAPTION | WS_DLGFRAME | WS_MAXIMIZEBOX | WS_MINIMIZEBOX | WS_SYSMENU
        | WS_THICKFRAME
}

/// The extended style bits that a frameless window must not have.
pub open spec fn frame_ex_mask() -> u32 {
    WS_EX_CLIENTEDGE | WS_EX_DLGMODALFRAME | WS_EX_WINDOWEDGE
}

/// The style bits that the compact popup must not have: its frame, and
/// `WS_CHILD`.
pub open spec fn popup_mask() -> u32 {
    WS_CHILD | WS_BORDER | WS_CAPTION | WS_DLGFRAME | WS_MAXIMIZEBOX | WS_MINIMIZEBOX | WS_SYSMENU
        | WS_THICKFRAME
}

/// The extended style bits that the compact popup must not have: the
/// application button and the window edges.
pub open spec fn popup_ex_mask() -> u32 {
    WS_EX_APPWINDOW | WS_EX_CLIENTEDGE | WS_EX_DLGMODALFRAME | WS_EX_WINDOWEDGE
}

/// The style of the compact popup made from `style`: `WS_POPUP` set, the
/// frame and `WS_CHILD` cleared, every other bit kept.
pub open spec fn popup_style(style: isize) -> isize {
    (style | (WS_POPUP as isize)) & !(popup_mask() as isize)
}

/// The extended style of the compact popup: a tool window without an
/// application button or edges.
pub open spec fn popup_ex_style(ex_style: isize) -> isize {
    (ex_style | (WS_EX_TOOLWINDOW as isize)) & !(popup_ex_mask() as isize)
}

/// The style with the non-client frame cleared.
pub open spec fn frameless_style(style: isize) -> isize {
    style & !(frame_mask() as isize)
}

/// The extended style with the window edges cleared.
pub open spec fn frameless_ex_style(ex_style: isize) -> isize {
    ex_style & !(frame_ex_mask() as isize)
}

/// The styles that turn a window into the compact popup, and whether they
/// differ from the window's present ones (so that its frame must be
/// redrawn).
pub fn popup_styles(style: isize, ex_style: isize) -> (r: (isize, isize, bool))
    ensures
        r.0 == popup_style(style),
        r.1 == popup_ex_style(ex_style),
        r.2 == (r.0 != style || r.1 != ex_style),
{
    let popup = (style | (WS_POPUP as isize)) & !((WS_CHILD | WS_BORDER | WS_CAPTION | WS_DLGFRAME
        | WS_MAXIMIZEBOX | WS_MINIMIZEBOX | WS_SYSMENU | WS_THICKFRAME) as isize);
    let popup_ex = (ex_style | (WS_EX_TOOLWINDOW as isize)) & !((WS_EX_APPWINDOW
        | WS_EX_CLIENTEDGE | WS_EX_DLGMODALFRAME | WS_EX_WINDOWEDGE) as isize);
    (popup, popup_ex, popup != style || popup_ex != ex_style)
}

/// The styles without the non-client frame, and whether they differ from the
/// window's present ones.
pub fn frameless_styles(style: isize, ex_style: isize) -> (r: (isize, isize, bool))
    ensures
        r.0 == frameless_style(style),
        r.1 == frameless_ex_style(ex_style),
        r.2 == (r.0 != style || r.1 != ex_style),
{
    let normalized = style & !((WS_BORDER | WS_CAPTION | WS_DLGFRAME | WS_MAXIMIZEBOX
        | WS_MINIMIZEBOX | WS_SYSMENU | WS_THICKFRAME) as isize);
    let normalized_ex = ex_style & !((WS_EX_CLIENTEDGE | WS_EX_DLGMODALFRAME | WS_EX_WINDOWEDGE)
        as isize);
    (normalized, normalized_ex, normalized != style || normalized_ex != ex_style)
}

proof fn lemma_set_then_clear_settles(value: isize, set: isize, clear: isize)
    ensures
        (((value | set) & !clear) | set) & !clear == (value | set) & !clear,
        ((value & !clear) & !clear) == value & !clear,
{
    assert((((value | set) & !clear) | set) & !clear == (value | set) & !clear) by (bit_vector);
    assert(((value & !clear) & !clear) == value & !clear) by (bit_vector);
}

/// A window that already has the popup styles keeps them: preparing it a
/// second time changes nothing and asks for no redraw of its frame.
pub proof fn lemma_popup_styles_settle(style: isize, ex_style: isize)
    ensures
        popup_style(popup_style(style)) == popup_style(style),
        popup_ex_style(popup_ex_style(ex_style)) == popup_ex_style(ex_style),
{
    lemma_set_then_clear_settles(
        style,
        WS_POPUP as isize,
        popup_mask() as isize,
    );
    lemma_set_then_clear_settles(
        ex_style,
        WS_EX_TOOLWINDOW as isize,
        popup_ex_mask() as isize,
    );
}

/// A window without a frame stays so: removing the frame a second time
/// changes nothing and asks for no redraw.
pub proof fn lemma_frameless_styles_settle(style: isize, ex_style: isize)
    ensures
        frameless_style(frameless_style(style)) == frameless_style(style),
        frameless_ex_style(frameless_ex_style(ex_style)) == frameless_ex_style(ex_style),
{
    lemma_set_then_clear_settles(style, 0, frame_mask() as isize);
    lemma_set_then_clear_settles(ex_style, 0, frame_ex_mask() as isize);
}

} // verus!
