use vstd::prelude::*;

use crate::handle::WindowHandle;
use crate::locator::DesktopDetection;

verus! {

pub const WS_BORDER: u32 = 0x0080_0000;
pub const WS_DLGFRAME: u32 = 0x0040_0000;
pub const WS_CAPTION: u32 = 0x00C0_0000;
pub const WS_THICKFRAME: u32 = 0x0004_0000;
pub const WS_SYSMENU: u32 = 0x0008_0000;
pub const WS_MAXIMIZEBOX: u32 = 0x0001_0000;
pub const WS_MINIMIZEBOX: u32 = 0x0002_0000;
pub const WS_POPUP: u32 = 0x8000_0000;
pub const WS_CHILD: u32 = 0x4000_0000;
pub const WS_VISIBLE: u32 = 0x1000_0000;

pub const WS_EX_DLGMODALFRAME: u32 = 0x0000_0001;
pub const WS_EX_WINDOWEDGE: u32 = 0x0000_0100;
pub const WS_EX_CLIENTEDGE: u32 = 0x0000_0200;
pub const WS_EX_STATICEDGE: u32 = 0x0002_0000;
pub const WS_EX_LAYERED: u32 = 0x0008_0000;
pub const WS_EX_NOACTIVATE: u32 = 0x0800_0000;

/// Frame, caption, resize and pop-up styles, all stripped from the content surface.
pub const SURFACE_FRAME_STYLES: u32 = WS_THICKFRAME | WS_CAPTION | WS_SYSMENU | WS_MAXIMIZEBOX
    | WS_MINIMIZEBOX | WS_POPUP | WS_BORDER | WS_DLGFRAME;
/// Edge, layering and activation extended styles stripped from the content surface.
pub const SURFACE_EX_STYLES: u32 = WS_EX_LAYERED | WS_EX_NOACTIVATE | WS_EX_CLIENTEDGE
    | WS_EX_WINDOWEDGE | WS_EX_DLGMODALFRAME | WS_EX_STATICEDGE;
/// Border styles stripped from the renderer's child windows.
pub const CHILD_FRAME_STYLES: u32 = WS_BORDER | WS_THICKFRAME | WS_DLGFRAME | WS_CAPTION;
/// Edge extended styles stripped from the renderer's child windows.
pub const CHILD_EX_STYLES: u32 = WS_EX_CLIENTEDGE | WS_EX_WINDOWEDGE | WS_EX_STATICEDGE
    | WS_EX_DLGMODALFRAME;

/// The content surface's style: no frame of any kind, a visible child window.
pub open spec fn surface_style(style: u32) -> u32 {
    (style & !SURFACE_FRAME_STYLES) | (WS_CHILD | WS_VISIBLE)
}

pub open spec fn surface_ex_style(ex: u32) -> u32 {
    ex & !SURFACE_EX_STYLES
}

pub open spec fn child_style(style: u32) -> u32 {
    style & !CHILD_FRAME_STYLES
}

pub open spec fn child_ex_style(ex: u32) -> u32 {
    ex & !CHILD_EX_STYLES
}

/// The style for the content surface; whatever it had before, no frame bit is left.
pub fn content_surface_style(style: u32) -> (r: u32)
    ensures
        r == surface_style(style),
        r & SURFACE_FRAME_STYLES == 0,
        r & WS_CHILD != 0 && r & WS_VISIBLE != 0,
{
    let m = SURFACE_FRAME_STYLES;
    let c = WS_CHILD;
    let v = WS_VISIBLE;
    let r = (style & !m) | (c | v);
    assert(r & m == 0 && r & c != 0 && r & v != 0) by (bit_vector)
        requires
            r == (style & !m) | (c | v),
            m == 0x0004_0000u32 | 0x00C0_0000u32 | 0x0008_0000u32 | 0x0001_0000u32 | 0x0002_0000u32
                | 0x8000_0000u32 | 0x0080_0000u32 | 0x0040_0000u32,
            c == 0x4000_0000u32,
            v == 0x1000_0000u32,
    ;
    r
}

/// The extended style for the content surface; none of the stripped bits is left.
pub fn content_surface_ex_style(ex: u32) -> (r: u32)
    ensures
        r == surface_ex_style(ex),
        r & SURFACE_EX_STYLES == 0,
{
    let m = SURFACE_EX_STYLES;
    let r = ex & !m;
    assert(r & m == 0) by (bit_vector)
        requires
            r == ex & !m,
    ;
    r
}

/// The style for one of the renderer's child windows.
pub fn renderer_child_style(style: u32) -> (r: u32)
    ensures
        r == child_style(style),
        r & CHILD_FRAME_STYLES == 0,
{
    let m = CHILD_FRAME_STYLES;
    let r = style & !m;
    assert(r & m == 0) by (bit_vector)
        requires
            r == style & !m,
    ;
    r
}

/// The extended style for one of the renderer's child windows.
pub fn renderer_child_ex_style(ex: u32) -> (r: u32)
    ensures
        r == child_ex_style(ex),
        r & CHILD_EX_STYLES == 0,
{
    let m = CHILD_EX_STYLES;
    let r = ex & !m;
    assert(r & m == 0) by (bit_vector)
        requires
            r == ex & !m,
    ;
    r
}

/// What the injection does to the content surface: the new styles, then the container as
/// parent (shown first), then the full size with a frame-change notification.
#[derive(Clone, Copy, Debug, PartialEq, Eq, Structural)]
pub struct InjectionPlan {
    pub style: u32,
    pub ex_style: u32,
    pub parent: WindowHandle,
    pub width: i32,
    pub height: i32,
}

/// Plans the injection of a surface whose current parent is `current_parent` and whose
/// styles are `style` and `ex_style`. Nothing to do when it already sits in the container.
pub fn injection_plan(current_parent: WindowHandle, d: &DesktopDetection, style: u32, ex_style: u32) -> (r: Option<InjectionPlan>)
    ensures
        current_parent == d.container ==> r is None,
        current_parent != d.container ==> r == Some(
            InjectionPlan {
                style: surface_style(style),
                ex_style: surface_ex_style(ex_style),
                parent: d.container,
                width: d.width,
                height: d.height,
            },
        ),
{
    if current_parent == d.container {
        return None;
    }
    Some(
        InjectionPlan {
            style: content_surface_style(style),
            ex_style: content_surface_ex_style(ex_style),
            parent: d.container,
            width: d.width,
            height: d.height,
        },
    )
}

/// The two non-client messages the surface's subclass handles.
pub const MSG_NCDESTROY: u32 = 0x0082;
pub const MSG_NCCALCSIZE: u32 = 0x0083;

#[derive(Clone, Copy, Debug, PartialEq, Eq, Structural)]
pub enum SubclassAction {
    /// Answer zero: no non-client area, so the client fills the whole window.
    ZeroNonClient,
    /// Remove the subclass, then default handling.
    DetachThenDefault,
    Default,
}

/// What the surface's subclass does with a message.
pub fn subclass_action(message: u32) -> (r: SubclassAction)
    ensures
        message == MSG_NCCALCSIZE ==> r == SubclassAction::ZeroNonClient,
        message == MSG_NCDESTROY ==> r == SubclassAction::DetachThenDefault,
        message != MSG_NCCALCSIZE && message != MSG_NCDESTROY ==> r == SubclassAction::Default,
{
    if message == MSG_NCCALCSIZE {
        SubclassAction::ZeroNonClient
    } else if message == MSG_NCDESTROY {
        SubclassAction::DetachThenDefault
    } else {
        SubclassAction::Default
    }
}

} // verus!
