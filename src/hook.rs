use vstd::prelude::*;

use crate::class_name::{
    class_matches, is_class_name, RENDERER_INPUT_CLASS, SHELL_CORE_CLASS,
};
use crate::double_click::{after_press, completes_double, DoubleClickTracker};
use crate::handle::WindowHandle;
use crate::locator::DesktopDetection;
use crate::ownership::{
    destinations, idle_destination, lemma_ownership_invariance, ownership_after, route, route_spec,
    ClickOwnership, Destination, RouteInput, TargetClass,
};
use crate::pointer::{
    button_flag, double_click_message, double_code, flag_of, kind_code, message_code, Button,
    PointerKind, MK_CONTROL, MK_LBUTTON, MK_MBUTTON, MK_NONE, MK_RBUTTON, MK_SHIFT,
    MSG_HWHEEL, MSG_LEFT_DOUBLE, MSG_LEFT_DOWN, MSG_MIDDLE_DOUBLE, MSG_MIDDLE_DOWN,
    MSG_RIGHT_DOUBLE, MSG_RIGHT_DOWN, MSG_WHEEL,
};
use crate::relay::{RelayMessage, SESSION_LOCK, SESSION_UNLOCK};

verus! {

/// Which buttons and modifier keys are held, as the platform reports them at the event.
#[derive(Clone, Copy, Debug, PartialEq, Eq, Structural)]
pub struct KeyState {
    pub left: bool,
    pub right: bool,
    pub middle: bool,
    pub shift: bool,
    pub control: bool,
}

/// One system-wide pointer event, with the icon hit-test at its point.
#[derive(Clone, Copy, Debug, PartialEq, Eq, Structural)]
pub struct PointerEvent {
    pub kind: PointerKind,
    /// Screen coordinates.
    pub x: i32,
    pub y: i32,
    /// Wheel delta; zero for other kinds.
    pub wheel: i16,
    /// Milliseconds, from the platform's event time stamp.
    pub time: u32,
    /// The accessibility hit-test found a desktop icon at the point.
    pub over_icon: bool,
    pub keys: KeyState,
}

/// Whether the hook lets the event go on to its ordinary delivery or swallows it.
#[derive(Clone, Copy, Debug, PartialEq, Eq, Structural)]
pub enum Verdict {
    PassThrough,
    Consume,
}

/// A message to post to the icon list control.
#[derive(Clone, Copy, Debug, PartialEq, Eq, Structural)]
pub struct IconMessage {
    pub message: u32,
    pub wparam: u64,
    pub lparam: u64,
}

/// Everything the hook does with one event.
#[derive(Clone, Copy, Debug, PartialEq, Eq, Structural)]
pub struct HookOutcome {
    /// Posted to the dispatch relay for the renderer.
    pub relay: Option<RelayMessage>,
    /// Posted to the icon list control.
    pub icon: Option<IconMessage>,
    pub verdict: Verdict,
}

pub open spec fn pass_through() -> HookOutcome {
    HookOutcome { relay: None, icon: None, verdict: Verdict::PassThrough }
}

/// Process-wide state read by the hook on every pointer event and written by the locator,
/// the injector and the watchdog.
#[derive(Clone, Copy, Debug)]
pub struct HookRuntimeState {
    /// The content surface; while it is none the hook passes every event through.
    pub content: WindowHandle,
    /// The renderer's input window inside the content surface, once discovered.
    pub renderer_input: WindowHandle,
    pub container: WindowHandle,
    pub root: WindowHandle,
    /// The shell's core window over the desktop, once discovered.
    pub shell_core: WindowHandle,
    pub icon_list: WindowHandle,
    pub shell_pid: u32,
    pub own_pid: u32,
    pub dispatch: WindowHandle,
    /// Opaque reference to the renderer's input-injection interface; zero until known.
    pub engine_input: isize,
    /// Button flag of the drag in progress towards the content, or none.
    pub drag_buttons: u16,
    pub ownership: ClickOwnership,
    pub session_active: bool,
    /// Screen position of the content surface's client origin.
    pub content_origin_x: i32,
    pub content_origin_y: i32,
    /// Screen position of the icon list's client origin.
    pub icon_origin_x: i32,
    pub icon_origin_y: i32,
    pub double_click: DoubleClickTracker,
}

/// A screen coordinate made local to an origin, held to the `i32` range.
pub open spec fn local_coord(s: i32, origin: i32) -> i32 {
    if s - origin > i32::MAX {
        i32::MAX
    } else if s - origin < i32::MIN {
        i32::MIN
    } else {
        (s - origin) as i32
    }
}

pub fn to_local(s: i32, origin: i32) -> (r: i32)
    ensures
        r == local_coord(s, origin),
{
    let d = s as i64 - origin as i64;
    if d > i32::MAX as i64 {
        i32::MAX
    } else if d < i32::MIN as i64 {
        i32::MIN
    } else {
        d as i32
    }
}

/// The relay message for an event routed to the content, and the drag flag after it.
/// A press starts a drag with its button, a release ends it, a move carries the drag's button.
pub open spec fn content_message(s: HookRuntimeState, ev: PointerEvent) -> (u16, RelayMessage) {
    let x = local_coord(ev.x, s.content_origin_x);
    let y = local_coord(ev.y, s.content_origin_y);
    match ev.kind {
        PointerKind::Move => (
            s.drag_buttons,
            RelayMessage { kind: ev.kind, buttons: s.drag_buttons, wheel: 0, x, y },
        ),
        PointerKind::Press(b) => (
            button_flag(b),
            RelayMessage { kind: ev.kind, buttons: button_flag(b), wheel: 0, x, y },
        ),
        PointerKind::Release(_) => (
            MK_NONE,
            RelayMessage { kind: ev.kind, buttons: MK_NONE, wheel: 0, x, y },
        ),
        _ => (s.drag_buttons, RelayMessage { kind: ev.kind, buttons: MK_NONE, wheel: ev.wheel, x, y }),
    }
}

/// The key-state flags sent with a message to the icon list.
pub open spec fn icon_key_flags(message: u32, keys: KeyState) -> u16 {
    (if message == MSG_LEFT_DOWN || message == MSG_LEFT_DOUBLE || keys.left { MK_LBUTTON } else { 0u16 })
        | (if message == MSG_RIGHT_DOWN || message == MSG_RIGHT_DOUBLE || keys.right { MK_RBUTTON } else { 0u16 })
        | (if message == MSG_MIDDLE_DOWN || message == MSG_MIDDLE_DOUBLE || keys.middle { MK_MBUTTON } else { 0u16 })
        | (if keys.shift { MK_SHIFT } else { 0u16 })
        | (if keys.control { MK_CONTROL } else { 0u16 })
}

/// Two signed 16-bit coordinates packed as the platform packs a point in a message.
pub open spec fn point_param(x: i32, y: i32) -> u64 {
    (x as u16 as u64) | ((y as u16 as u64) << 16u64)
}

pub open spec fn is_wheel(k: PointerKind) -> bool {
    k == PointerKind::Wheel || k == PointerKind::HWheel
}

/// The message for an event routed to the icon layer, given its message identifier. Wheel
/// messages carry screen coordinates and the delta; the others carry list-local coordinates.
pub open spec fn icon_message(s: HookRuntimeState, ev: PointerEvent, message: u32) -> IconMessage {
    let flags = icon_key_flags(message, ev.keys) as u64;
    if is_wheel(ev.kind) {
        IconMessage {
            message,
            wparam: ((ev.wheel as u16 as u64) << 16u64) | flags,
            lparam: point_param(ev.x, ev.y),
        }
    } else {
        IconMessage {
            message,
            wparam: flags,
            lparam: point_param(
                local_coord(ev.x, s.icon_origin_x),
                local_coord(ev.y, s.icon_origin_y),
            ),
        }
    }
}

/// One step of the hook: the state after an event over a window of class `target`, and
/// what is done with the event.
pub open spec fn hook_step(s: HookRuntimeState, ev: PointerEvent, target: TargetClass) -> (
    HookRuntimeState,
    HookOutcome,
) {
    if s.content.raw == 0 || !s.session_active {
        (s, pass_through())
    } else {
        let (dest, own) = route_spec(s.ownership, target, ev.over_icon, ev.kind);
        match dest {
            Destination::Native => (HookRuntimeState { ownership: own, ..s }, pass_through()),
            Destination::Content => {
                let (drag, m) = content_message(s, ev);
                (
                    HookRuntimeState { ownership: own, drag_buttons: drag, ..s },
                    HookOutcome {
                        relay: Some(m),
                        icon: None,
                        verdict: if ev.kind == PointerKind::Move {
                            Verdict::PassThrough
                        } else {
                            Verdict::Consume
                        },
                    },
                )
            },
            Destination::IconLayer => {
                let (tracker, message) = match ev.kind {
                    PointerKind::Press(b) => (
                        after_press(s.double_click, b, ev.time, ev.x, ev.y),
                        if completes_double(s.double_click, b, ev.time, ev.x, ev.y) {
                            double_code(b)
                        } else {
                            kind_code(ev.kind)
                        },
                    ),
                    _ => (s.double_click, kind_code(ev.kind)),
                };
                (
                    HookRuntimeState { ownership: own, double_click: tracker, ..s },
                    HookOutcome {
                        relay: None,
                        icon: Some(icon_message(s, ev, message)),
                        verdict: Verdict::PassThrough,
                    },
                )
            },
        }
    }
}

fn key_flags(message: u32, keys: KeyState) -> (r: u16)
    ensures
        r == icon_key_flags(message, keys),
{
    let l = if message == MSG_LEFT_DOWN || message == MSG_LEFT_DOUBLE || keys.left { MK_LBUTTON } else { 0u16 };
    let r = if message == MSG_RIGHT_DOWN || message == MSG_RIGHT_DOUBLE || keys.right { MK_RBUTTON } else { 0u16 };
    let m = if message == MSG_MIDDLE_DOWN || message == MSG_MIDDLE_DOUBLE || keys.middle { MK_MBUTTON } else { 0u16 };
    let s = if keys.shift { MK_SHIFT } else { 0u16 };
    let c = if keys.control { MK_CONTROL } else { 0u16 };
    l | r | m | s | c
}

#[verifier::truncate]
fn low16(v: i32) -> (r: u64)
    ensures
        r == v as u16 as u64,
{
    #[verifier::truncate]
    let t = v as u16;
    t as u64
}

#[verifier::truncate]
fn wheel_bits(w: i16) -> (r: u64)
    ensures
        r == w as u16 as u64,
{
    #[verifier::truncate]
    let t = w as u16;
    t as u64
}

fn point(x: i32, y: i32) -> (r: u64)
    ensures
        r == point_param(x, y),
{
    low16(x) | (low16(y) << 16u64)
}

impl HookRuntimeState {
    /// The state at startup: nothing known, session active, no interaction in progress.
    pub fn new(own_pid: u32, double_click: DoubleClickTracker) -> (r: HookRuntimeState)
        ensures
            r.content.raw == 0 && r.renderer_input.raw == 0 && r.container.raw == 0,
            r.root.raw == 0 && r.shell_core.raw == 0 && r.icon_list.raw == 0,
            r.dispatch.raw == 0 && r.engine_input == 0,
            r.shell_pid == 0 && r.own_pid == own_pid,
            r.drag_buttons == MK_NONE,
            r.ownership == ClickOwnership::Idle,
            r.session_active,
            r.content_origin_x == 0 && r.content_origin_y == 0,
            r.icon_origin_x == 0 && r.icon_origin_y == 0,
            r.double_click == double_click,
    {
        HookRuntimeState {
            content: WindowHandle::none(),
            renderer_input: WindowHandle::none(),
            container: WindowHandle::none(),
            root: WindowHandle::none(),
            shell_core: WindowHandle::none(),
            icon_list: WindowHandle::none(),
            shell_pid: 0,
            own_pid,
            dispatch: WindowHandle::none(),
            engine_input: 0,
            drag_buttons: MK_NONE,
            ownership: ClickOwnership::Idle,
            session_active: true,
            content_origin_x: 0,
            content_origin_y: 0,
            icon_origin_x: 0,
            icon_origin_y: 0,
            double_click,
        }
    }

    /// Handles one pointer event over a window of class `target`. While the session is
    /// locked, or before the content surface is known, every event passes through and nothing
    /// is forwarded. Otherwise the click-ownership machine picks the destination: the content
    /// gets a relay message in content-local coordinates (button events are swallowed, moves
    /// go on so the cursor keeps moving); the icon layer gets a posted message, a second press
    /// that completes a double-click turned into a double-click message.
    pub fn on_pointer_event(&mut self, ev: &PointerEvent, target: TargetClass) -> (r: HookOutcome)
        ensures
            (*final(self), r) == hook_step(*old(self), *ev, target),
    {
        if self.content.is_none() || !self.session_active {
            return HookOutcome { relay: None, icon: None, verdict: Verdict::PassThrough };
        }
        let (dest, own) = route(self.ownership, target, ev.over_icon, ev.kind);
        self.ownership = own;
        match dest {
            Destination::Native => HookOutcome { relay: None, icon: None, verdict: Verdict::PassThrough },
            Destination::Content => {
                let x = to_local(ev.x, self.content_origin_x);
                let y = to_local(ev.y, self.content_origin_y);
                let m = match ev.kind {
                    PointerKind::Move => RelayMessage { kind: ev.kind, buttons: self.drag_buttons, wheel: 0, x, y },
                    PointerKind::Press(b) => {
                        self.drag_buttons = flag_of(b);
                        RelayMessage { kind: ev.kind, buttons: self.drag_buttons, wheel: 0, x, y }
                    },
                    PointerKind::Release(_) => {
                        self.drag_buttons = MK_NONE;
                        RelayMessage { kind: ev.kind, buttons: MK_NONE, wheel: 0, x, y }
                    },
                    _ => RelayMessage { kind: ev.kind, buttons: MK_NONE, wheel: ev.wheel, x, y },
                };
                let verdict = if ev.kind == PointerKind::Move {
                    Verdict::PassThrough
                } else {
                    Verdict::Consume
                };
                HookOutcome { relay: Some(m), icon: None, verdict }
            },
            Destination::IconLayer => {
                let message = match ev.kind {
                    PointerKind::Press(b) => {
                        if self.double_click.on_press(b, ev.time, ev.x, ev.y) {
                            double_click_message(b)
                        } else {
                            message_code(ev.kind)
                        }
                    },
                    _ => message_code(ev.kind),
                };
                let flags = key_flags(message, ev.keys) as u64;
                let icon = if ev.kind == PointerKind::Wheel || ev.kind == PointerKind::HWheel {
                    IconMessage {
                        message,
                        wparam: (wheel_bits(ev.wheel) << 16u64) | flags,
                        lparam: point(ev.x, ev.y),
                    }
                } else {
                    let lx = to_local(ev.x, self.icon_origin_x);
                    let ly = to_local(ev.y, self.icon_origin_y);
                    IconMessage { message, wparam: flags, lparam: point(lx, ly) }
                };
                HookOutcome { relay: None, icon: Some(icon), verdict: Verdict::PassThrough }
            },
        }
    }
}


/// What the platform tells about a window not yet classified, besides its class name.
#[derive(Clone, Copy, Debug, PartialEq, Eq, Structural)]
pub struct WindowProbe {
    pub handle: WindowHandle,
    /// The window is a descendant of the shell root.
    pub child_of_root: bool,
    /// Process that owns the window.
    pub owner_pid: u32,
    /// The window's direct parent, or none.
    pub parent: WindowHandle,
    /// Process that owns the direct parent.
    pub parent_owner_pid: u32,
}

/// The class of a window under the cursor from the handles known so far; `None` when the
/// window is none of them and must be probed.
pub open spec fn known_class(s: HookRuntimeState, under: WindowHandle) -> Option<TargetClass> {
    if under.raw == 0 {
        None
    } else if under == s.content || under == s.renderer_input {
        Some(TargetClass::Content)
    } else if under == s.shell_core || under == s.container || under == s.root {
        Some(TargetClass::IconLayer)
    } else {
        None
    }
}

/// Whether a probed window is the renderer's input window of this application: the
/// renderer's class, while none is known yet, under a parent owned by this process or by
/// a descendant of it in the process snapshot (which rejects a same-classed window of an
/// unrelated program).
pub open spec fn is_own_renderer(
    s: HookRuntimeState,
    p: WindowProbe,
    class_name: Seq<u16>,
    processes: Seq<ProcessEntry>,
) -> bool {
    s.renderer_input.raw == 0 && s.content.raw != 0 && class_matches(class_name, RENDERER_INPUT_CLASS@)
        && p.parent.raw != 0 && descends(processes, p.parent_owner_pid, s.own_pid)
}

/// Classifies a probed window and caches what it discovers: the shell's core window, and the
/// renderer's input window.
pub open spec fn discover_spec(
    s: HookRuntimeState,
    p: WindowProbe,
    class_name: Seq<u16>,
    processes: Seq<ProcessEntry>,
) -> (
    HookRuntimeState,
    TargetClass,
) {
    if p.child_of_root {
        (s, TargetClass::IconLayer)
    } else if class_matches(class_name, SHELL_CORE_CLASS@) && s.shell_pid != 0 && p.owner_pid
        == s.shell_pid {
        (HookRuntimeState { shell_core: p.handle, ..s }, TargetClass::IconLayer)
    } else if is_own_renderer(s, p, class_name, processes) {
        (HookRuntimeState { renderer_input: p.handle, ..s }, TargetClass::Content)
    } else {
        (s, TargetClass::Other)
    }
}

/// The state after a new detection: container, shell root and shell process replaced, the
/// icon list replaced only when one was found.
pub open spec fn with_detection(s: HookRuntimeState, d: DesktopDetection) -> HookRuntimeState {
    HookRuntimeState {
        container: d.container,
        root: d.root,
        shell_pid: d.shell_pid,
        icon_list: if d.icon_list.raw != 0 { d.icon_list } else { s.icon_list },
        ..s
    }
}

/// The state after a session notification: a lock pauses routing, an unlock resumes it,
/// other codes change nothing.
pub open spec fn with_session(s: HookRuntimeState, code: u64) -> HookRuntimeState {
    if code == SESSION_LOCK {
        HookRuntimeState { session_active: false, ..s }
    } else if code == SESSION_UNLOCK {
        HookRuntimeState { session_active: true, ..s }
    } else {
        s
    }
}

impl HookRuntimeState {
    /// The fast path of classification: a handful of comparisons with cached handles.
    pub fn known_target(&self, under: WindowHandle) -> (r: Option<TargetClass>)
        ensures
            r == known_class(*self, under),
    {
        if under.is_none() {
            None
        } else if under == self.content || under == self.renderer_input {
            Some(TargetClass::Content)
        } else if under == self.shell_core || under == self.container || under == self.root {
            Some(TargetClass::IconLayer)
        } else {
            None
        }
    }

    /// Whether a window of this class needs its owner's parent process looked up before it
    /// can be classified.
    pub fn needs_ancestry(&self, class_name: &[u16]) -> (r: bool)
        ensures
            r == (self.renderer_input.raw == 0 && self.content.raw != 0 && class_matches(
                class_name@,
                RENDERER_INPUT_CLASS@,
            )),
    {
        self.renderer_input.is_none() && !self.content.is_none() && is_class_name(
            class_name,
            RENDERER_INPUT_CLASS,
        )
    }

    /// The slow path of classification, for a window that `known_target` did not recognise,
    /// given its class name as the platform reports it (read into a buffer, not allocated)
    /// and, where `needs_ancestry` asked for it, a snapshot of the processes.
    pub fn discover(&mut self, p: &WindowProbe, class_name: &[u16], processes: &[ProcessEntry]) -> (r: TargetClass)
        ensures
            (*final(self), r) == discover_spec(*old(self), *p, class_name@, processes@),
    {
        if p.child_of_root {
            return TargetClass::IconLayer;
        }
        let name = class_name;
        if is_class_name(name, SHELL_CORE_CLASS) && self.shell_pid != 0 && p.owner_pid
            == self.shell_pid {
            self.shell_core = p.handle;
            return TargetClass::IconLayer;
        }
        if self.needs_ancestry(name) && !p.parent.is_none() {
            if is_descendant(processes, p.parent_owner_pid, self.own_pid) {
                self.renderer_input = p.handle;
                return TargetClass::Content;
            }
        }
        TargetClass::Other
    }

    /// Records a new detection.
    pub fn apply_detection(&mut self, d: &DesktopDetection)
        ensures
            *final(self) == with_detection(*old(self), *d),
    {
        self.container = d.container;
        self.root = d.root;
        self.shell_pid = d.shell_pid;
        if !d.icon_list.is_none() {
            self.icon_list = d.icon_list;
        }
    }

    /// Follows the session lock and unlock notifications; other codes change nothing.
    pub fn on_session_change(&mut self, code: u64)
        ensures
            *final(self) == with_session(*old(self), code),
    {
        if code == SESSION_LOCK {
            self.session_active = false;
        } else if code == SESSION_UNLOCK {
            self.session_active = true;
        }
    }
}

impl HookRuntimeState {
    pub fn set_webview_hwnd(&mut self, h: WindowHandle)
        ensures
            *final(self) == (HookRuntimeState { content: h, ..*old(self) }),
    {
        self.content = h;
    }

    pub fn set_syslistview_hwnd(&mut self, h: WindowHandle)
        ensures
            *final(self) == (HookRuntimeState { icon_list: h, ..*old(self) }),
    {
        self.icon_list = h;
    }

    pub fn set_target_parent_hwnd(&mut self, h: WindowHandle)
        ensures
            *final(self) == (HookRuntimeState { container: h, ..*old(self) }),
    {
        self.container = h;
    }

    pub fn set_progman_hwnd(&mut self, h: WindowHandle)
        ensures
            *final(self) == (HookRuntimeState { root: h, ..*old(self) }),
    {
        self.root = h;
    }

    pub fn set_explorer_pid(&mut self, pid: u32)
        ensures
            *final(self) == (HookRuntimeState { shell_pid: pid, ..*old(self) }),
    {
        self.shell_pid = pid;
    }

    pub fn get_syslistview_hwnd(&self) -> (r: WindowHandle)
        ensures
            r == self.icon_list,
    {
        self.icon_list
    }

    pub fn set_comp_controller_ptr(&mut self, p: isize)
        ensures
            *final(self) == (HookRuntimeState { engine_input: p, ..*old(self) }),
    {
        self.engine_input = p;
    }

    pub fn get_comp_controller_ptr(&self) -> (r: isize)
        ensures
            r == self.engine_input,
    {
        self.engine_input
    }

    pub fn set_dispatch_hwnd(&mut self, h: WindowHandle)
        ensures
            *final(self) == (HookRuntimeState { dispatch: h, ..*old(self) }),
    {
        self.dispatch = h;
    }

    pub fn get_dispatch_hwnd(&self) -> (r: WindowHandle)
        ensures
            r == self.dispatch,
    {
        self.dispatch
    }

    /// Records where the content surface and the icon list have their client origins on screen.
    pub fn set_origins(&mut self, content_x: i32, content_y: i32, icon_x: i32, icon_y: i32)
        ensures
            *final(self) == (HookRuntimeState {
                content_origin_x: content_x,
                content_origin_y: content_y,
                icon_origin_x: icon_x,
                icon_origin_y: icon_y,
                ..*old(self)
            }),
    {
        self.content_origin_x = content_x;
        self.content_origin_y = content_y;
        self.icon_origin_x = icon_x;
        self.icon_origin_y = icon_y;
    }
}

/// One entry of a process snapshot.
#[derive(Clone, Copy, Debug, PartialEq, Eq, Structural)]
pub struct ProcessEntry {
    pub pid: u32,
    pub parent_pid: u32,
}

/// The parent of `pid` according to the first entry for it, from index `from` on.
pub open spec fn parent_in(entries: Seq<ProcessEntry>, pid: u32, from: int) -> Option<u32>
    decreases entries.len() - from,
{
    if from < 0 || from >= entries.len() {
        None
    } else if entries[from].pid == pid {
        Some(entries[from].parent_pid)
    } else {
        parent_in(entries, pid, from + 1)
    }
}

/// Looks up the parent process of `pid` in a process snapshot.
pub fn parent_process_of(entries: &[ProcessEntry], pid: u32) -> (r: Option<u32>)
    ensures
        r == parent_in(entries@, pid, 0),
{
    let mut i: usize = 0;
    while i < entries.len()
        invariant
            i <= entries@.len(),
            parent_in(entries@, pid, 0) == parent_in(entries@, pid, i as int),
        decreases entries@.len() - i,
    {
        if entries[i].pid == pid {
            return Some(entries[i].parent_pid);
        }
        i = i + 1;
    }
    None
}

/// Whether `pid` is `ancestor` or descends from it, following parent links in the snapshot
/// at most `steps` times.
pub open spec fn descends_within(entries: Seq<ProcessEntry>, pid: u32, ancestor: u32, steps: nat) -> bool
    decreases steps,
{
    if pid == ancestor {
        true
    } else if steps == 0 {
        false
    } else {
        match parent_in(entries, pid, 0) {
            Some(pp) => descends_within(entries, pp, ancestor, (steps - 1) as nat),
            None => false,
        }
    }
}

/// Whether `pid` is `ancestor` or one of its descendants. A chain of parents longer than the
/// snapshot goes round a loop, so following as many links as there are entries is enough.
pub open spec fn descends(entries: Seq<ProcessEntry>, pid: u32, ancestor: u32) -> bool {
    descends_within(entries, pid, ancestor, entries.len())
}

pub fn is_descendant(entries: &[ProcessEntry], pid: u32, ancestor: u32) -> (r: bool)
    ensures
        r == descends(entries@, pid, ancestor),
{
    let mut cur = pid;
    let mut steps: usize = entries.len();
    loop
        invariant
            descends(entries@, pid, ancestor) == descends_within(entries@, cur, ancestor, steps as nat),
        decreases steps,
    {
        if cur == ancestor {
            return true;
        }
        if steps == 0 {
            return false;
        }
        match parent_process_of(entries, cur) {
            None => return false,
            Some(pp) => {
                cur = pp;
                steps = steps - 1;
            },
        }
    }
}

/// One event handed to the hook, with the class of the window under it.
#[derive(Clone, Copy, Debug, PartialEq, Eq, Structural)]
pub struct HookInput {
    pub event: PointerEvent,
    pub target: TargetClass,
}

/// The state after a sequence of events.
pub open spec fn state_after(s: HookRuntimeState, inputs: Seq<HookInput>) -> HookRuntimeState
    decreases inputs.len(),
{
    if inputs.len() == 0 {
        s
    } else {
        state_after(hook_step(s, inputs[0].event, inputs[0].target).0, inputs.drop_first())
    }
}

/// What the hook does with each event of a sequence.
pub open spec fn outcomes(s: HookRuntimeState, inputs: Seq<HookInput>) -> Seq<HookOutcome>
    decreases inputs.len(),
{
    if inputs.len() == 0 {
        Seq::empty()
    } else {
        let (next, o) = hook_step(s, inputs[0].event, inputs[0].target);
        seq![o] + outcomes(next, inputs.drop_first())
    }
}

/// While the session is locked, no event of any sequence is forwarded anywhere: every
/// event passes through, and the state does not change.
pub proof fn lemma_session_suppression(s: HookRuntimeState, inputs: Seq<HookInput>)
    requires
        !s.session_active,
    ensures
        outcomes(s, inputs).len() == inputs.len(),
        forall|i: int| 0 <= i < inputs.len() ==> #[trigger] outcomes(s, inputs)[i] == pass_through(),
        state_after(s, inputs) == s,
    decreases inputs.len(),
{
    if inputs.len() > 0 {
        lemma_session_suppression(s, inputs.drop_first());
        assert forall|i: int| 0 <= i < inputs.len() implies #[trigger] outcomes(s, inputs)[i]
            == pass_through() by {
            if i > 0 {
                assert(outcomes(s, inputs)[i] == outcomes(s, inputs.drop_first())[i - 1]);
            }
        }
    }
}

/// An event routed to the content at a screen point inside the content's bounds reaches
/// the renderer at exactly that point minus the content's origin, on the boundary as inside.
pub proof fn lemma_coordinate_translation(
    s: HookRuntimeState,
    ev: PointerEvent,
    target: TargetClass,
    width: i32,
    height: i32,
)
    requires
        s.content.raw != 0,
        s.session_active,
        route_spec(s.ownership, target, ev.over_icon, ev.kind).0 == Destination::Content,
        0 <= width,
        0 <= height,
        s.content_origin_x <= ev.x <= s.content_origin_x + width,
        s.content_origin_y <= ev.y <= s.content_origin_y + height,
    ensures
        hook_step(s, ev, target).1.relay matches Some(m) && m.x == ev.x - s.content_origin_x && m.y
            == ev.y - s.content_origin_y,
{
}

/// What the hook sends to the icon layer for four events in a row: `None` where it sends
/// it nothing or sends something to the content.
pub open spec fn icon_messages4(
    s: HookRuntimeState,
    e1: PointerEvent,
    e2: PointerEvent,
    e3: PointerEvent,
    e4: PointerEvent,
    target: TargetClass,
) -> Seq<Option<u32>> {
    let (s1, o1) = hook_step(s, e1, target);
    let (s2, o2) = hook_step(s1, e2, target);
    let (s3, o3) = hook_step(s2, e3, target);
    let (s4, o4) = hook_step(s3, e4, target);
    seq![o1, o2, o3, o4].map_values(
        |o: HookOutcome|
            if o.relay is None && o.icon is Some {
                Some(o.icon.unwrap().message)
            } else {
                None
            },
    )
}

/// Two clicks of the same button on desktop icons, the presses within the double-click
/// interval and distance, reach the icon layer as one press, one release, one double-click
/// press and one release: never as two single clicks, and nothing goes to the content.
pub proof fn lemma_icon_double_click(
    s: HookRuntimeState,
    b: Button,
    e1: PointerEvent,
    e2: PointerEvent,
    e3: PointerEvent,
    e4: PointerEvent,
    target: TargetClass,
)
    requires
        s.content.raw != 0,
        s.session_active,
        s.ownership == ClickOwnership::Idle,
        s.double_click.last is None,
        target != TargetClass::Other,
        e1.kind == PointerKind::Press(b) && e1.over_icon,
        e2.kind == PointerKind::Release(b) && e2.over_icon,
        e3.kind == PointerKind::Press(b) && e3.over_icon,
        e4.kind == PointerKind::Release(b) && e4.over_icon,
        e1.time < e3.time,
        e3.time - e1.time <= s.double_click.max_interval,
        crate::double_click::abs_diff(e3.x, e1.x) <= s.double_click.max_dx,
        crate::double_click::abs_diff(e3.y, e1.y) <= s.double_click.max_dy,
    ensures
        icon_messages4(s, e1, e2, e3, e4, target) == seq![
            Some(kind_code(PointerKind::Press(b))),
            Some(kind_code(PointerKind::Release(b))),
            Some(double_code(b)),
            Some(kind_code(PointerKind::Release(b))),
        ],
{
    let (s1, o1) = hook_step(s, e1, target);
    let (s2, o2) = hook_step(s1, e2, target);
    let (s3, o3) = hook_step(s2, e3, target);
    let (s4, o4) = hook_step(s3, e4, target);
    assert(s1.ownership == ClickOwnership::OwnedByIconLayer(b));
    assert(s2.ownership == ClickOwnership::Idle);
    assert(s2.double_click == after_press(s.double_click, b, e1.time, e1.x, e1.y));
    assert(completes_double(s2.double_click, b, e3.time, e3.x, e3.y));
    assert(icon_messages4(s, e1, e2, e3, e4, target) =~= seq![
        Some(kind_code(PointerKind::Press(b))),
        Some(kind_code(PointerKind::Release(b))),
        Some(double_code(b)),
        Some(kind_code(PointerKind::Release(b))),
    ]);
}

/// The destination an outcome delivered its event to.
pub open spec fn delivered_to(o: HookOutcome) -> Destination {
    if o.relay is Some {
        Destination::Content
    } else if o.icon is Some {
        Destination::IconLayer
    } else {
        Destination::Native
    }
}

/// The classification and hit-test of each event of a sequence.
pub open spec fn route_inputs(inputs: Seq<HookInput>) -> Seq<RouteInput> {
    inputs.map_values(
        |i: HookInput| RouteInput { target: i.target, over_icon: i.event.over_icon, kind: i.event.kind },
    )
}

proof fn lemma_outcomes_follow_routes(s: HookRuntimeState, inputs: Seq<HookInput>)
    requires
        s.content.raw != 0,
        s.session_active,
    ensures
        outcomes(s, inputs).len() == inputs.len(),
        destinations(s.ownership, route_inputs(inputs)).len() == inputs.len(),
        forall|i: int|
            0 <= i < inputs.len() ==> delivered_to(#[trigger] outcomes(s, inputs)[i]) == destinations(
                s.ownership,
                route_inputs(inputs),
            )[i],
    decreases inputs.len(),
{
    if inputs.len() > 0 {
        let next = hook_step(s, inputs[0].event, inputs[0].target).0;
        let rest = inputs.drop_first();
        lemma_outcomes_follow_routes(next, rest);
        assert(route_inputs(inputs).drop_first() =~= route_inputs(rest));
        assert(next.ownership == route_spec(
            s.ownership,
            inputs[0].target,
            inputs[0].event.over_icon,
            inputs[0].event.kind,
        ).1);
        assert forall|i: int| 0 <= i < inputs.len() implies delivered_to(
            #[trigger] outcomes(s, inputs)[i],
        ) == destinations(s.ownership, route_inputs(inputs))[i] by {
            if i > 0 {
                assert(outcomes(s, inputs)[i] == outcomes(next, rest)[i - 1]);
                assert(destinations(s.ownership, route_inputs(inputs))[i] == destinations(
                    next.ownership,
                    route_inputs(rest),
                )[i - 1]);
            }
        }
    } else {
        assert(route_inputs(inputs) =~= Seq::<RouteInput>::empty());
    }
}

/// The ownership law as the hook applies it: a press of `b` on the desktop, moves, and the
/// release of `b`, with no interaction in progress before, are each delivered to the one
/// destination that the hit-test gave at the press (relayed to the content, or posted to
/// the icon layer), whatever the later events were over; afterwards no interaction is in
/// progress.
pub proof fn lemma_hook_ownership_invariance(s: HookRuntimeState, inputs: Seq<HookInput>, b: Button)
    requires
        s.content.raw != 0,
        s.session_active,
        s.ownership == ClickOwnership::Idle,
        inputs.len() >= 2,
        inputs[0].event.kind == PointerKind::Press(b),
        inputs[0].target != TargetClass::Other,
        forall|i: int| 1 <= i < inputs.len() - 1 ==> inputs[i].event.kind == PointerKind::Move,
        inputs[inputs.len() - 1].event.kind == PointerKind::Release(b),
    ensures
        forall|i: int|
            0 <= i < inputs.len() ==> delivered_to(#[trigger] outcomes(s, inputs)[i]) == idle_destination(
                inputs[0].target,
                inputs[0].event.over_icon,
            ),
        state_after(s, inputs).ownership == ClickOwnership::Idle,
{
    let r = route_inputs(inputs);
    lemma_outcomes_follow_routes(s, inputs);
    assert forall|i: int| 1 <= i < r.len() - 1 implies r[i].kind == PointerKind::Move by {
        assert(r[i].kind == inputs[i].event.kind);
    }
    lemma_ownership_invariance(r, b);
    lemma_state_after_follows_routes(s, inputs);
}

proof fn lemma_state_after_follows_routes(s: HookRuntimeState, inputs: Seq<HookInput>)
    requires
        s.content.raw != 0,
        s.session_active,
    ensures
        state_after(s, inputs).ownership == ownership_after(s.ownership, route_inputs(inputs)),
    decreases inputs.len(),
{
    if inputs.len() > 0 {
        let next = hook_step(s, inputs[0].event, inputs[0].target).0;
        let rest = inputs.drop_first();
        lemma_state_after_follows_routes(next, rest);
        assert(route_inputs(inputs).drop_first() =~= route_inputs(rest));
    }
}

} // verus!
