use vstd::prelude::*;

use crate::error::AppError;
use crate::handle::WindowHandle;
use crate::hook::{with_detection, HookRuntimeState};
use crate::locator::DesktopDetection;

verus! {

/// An operation on the platform that the caller performs.
#[derive(Clone, Copy, Debug, PartialEq, Eq, Structural)]
pub enum WindowOp {
    Show(WindowHandle),
    Hide(WindowHandle),
    /// Remove the pointer hook with this handle.
    Unhook(isize),
}

/// Shows or hides the desktop icons; nothing to do when the icon list was never found.
pub fn set_desktop_icons_visible(icon_list: WindowHandle, visible: bool) -> (r: Option<WindowOp>)
    ensures
        icon_list.raw == 0 ==> r is None,
        icon_list.raw != 0 && visible ==> r == Some(WindowOp::Show(icon_list)),
        icon_list.raw != 0 && !visible ==> r == Some(WindowOp::Hide(icon_list)),
{
    if icon_list.is_none() {
        None
    } else if visible {
        Some(WindowOp::Show(icon_list))
    } else {
        Some(WindowOp::Hide(icon_list))
    }
}

/// One-shot guard of the teardown at process exit.
#[derive(Clone, Copy, Debug, PartialEq, Eq, Structural)]
pub struct TeardownGuard {
    pub done: bool,
}

impl TeardownGuard {
    pub fn new() -> (r: TeardownGuard)
        ensures
            !r.done,
    {
        TeardownGuard { done: false }
    }
}

/// The operations of a teardown: show the icons again, if the list is known, then remove
/// the hook, if one was installed.
pub open spec fn teardown_ops(icon_list: WindowHandle, hook: isize) -> Seq<WindowOp> {
    (if icon_list.raw != 0 { seq![WindowOp::Show(icon_list)] } else { Seq::empty() }) + (if hook
        != 0 {
        seq![WindowOp::Unhook(hook)]
    } else {
        Seq::empty()
    })
}

pub open spec fn teardown_spec(g: TeardownGuard, icon_list: WindowHandle, hook: isize) -> (
    TeardownGuard,
    Seq<WindowOp>,
) {
    if g.done {
        (g, Seq::empty())
    } else {
        (TeardownGuard { done: true }, teardown_ops(icon_list, hook))
    }
}

/// Restores the icons and removes the hook, once: later calls do nothing. It never fails,
/// whatever part of the setup was done.
pub fn restore_desktop_icons_and_unhook(
    guard: &mut TeardownGuard,
    icon_list: WindowHandle,
    hook: isize,
) -> (ops: Vec<WindowOp>)
    ensures
        (*final(guard), ops@) == teardown_spec(*old(guard), icon_list, hook),
{
    let mut ops = Vec::new();
    if guard.done {
        proof {
            assert(ops@ =~= Seq::<WindowOp>::empty());
        }
        return ops;
    }
    guard.done = true;
    if !icon_list.is_none() {
        ops.push(WindowOp::Show(icon_list));
    }
    if hook != 0 {
        ops.push(WindowOp::Unhook(hook));
    }
    proof {
        assert(ops@ =~= teardown_ops(icon_list, hook));
    }
    ops
}

/// Tearing down twice ends as tearing down once: the second call performs nothing and
/// leaves the guard as the first left it.
pub proof fn lemma_teardown_idempotent(g: TeardownGuard, icon_list: WindowHandle, hook: isize)
    ensures
        teardown_spec(teardown_spec(g, icon_list, hook).0, icon_list, hook).1 == Seq::<WindowOp>::empty(),
        teardown_spec(teardown_spec(g, icon_list, hook).0, icon_list, hook).0 == teardown_spec(
            g,
            icon_list,
            hook,
        ).0,
        teardown_spec(g, icon_list, hook).0.done,
{
}

/// Seconds between two checks of the watchdog.
pub const WATCHDOG_INTERVAL_SECS: u64 = 30;

#[derive(Clone, Copy, Debug, PartialEq, Eq, Structural)]
pub enum WatchdogAction {
    /// Nothing to do until the next check.
    Wait,
    /// The container is gone: detect the desktop again and inject again.
    Redetect,
}

pub open spec fn watchdog_action(s: HookRuntimeState, container_alive: bool) -> WatchdogAction {
    if s.container.raw != 0 && !container_alive {
        WatchdogAction::Redetect
    } else {
        WatchdogAction::Wait
    }
}

/// One check of the watchdog, given whether the cached container is still a live window.
pub fn watchdog_tick(s: &HookRuntimeState, container_alive: bool) -> (r: WatchdogAction)
    ensures
        r == watchdog_action(*s, container_alive),
{
    if !s.container.is_none() && !container_alive {
        WatchdogAction::Redetect
    } else {
        WatchdogAction::Wait
    }
}

pub open spec fn redetection_spec(s: HookRuntimeState, result: Result<DesktopDetection, AppError>) -> (
    HookRuntimeState,
    Option<DesktopDetection>,
) {
    match result {
        Ok(d) => (with_detection(s, d), Some(d)),
        Err(_) => (s, None),
    }
}

/// Takes in the result of a re-detection: a success replaces the detection in place and
/// asks for the injection into the new container; a failure changes nothing and is tried
/// again at the next check.
pub fn after_redetection(s: &mut HookRuntimeState, result: Result<DesktopDetection, AppError>) -> (r: Option<DesktopDetection>)
    ensures
        (*final(s), r) == redetection_spec(*old(s), result),
{
    match result {
        Ok(d) => {
            s.apply_detection(&d);
            Some(d)
        },
        Err(_) => None,
    }
}

/// One watchdog cycle: the check, then the re-detection when the check asks for one.
pub open spec fn watchdog_cycle(
    s: HookRuntimeState,
    container_alive: bool,
    result: Result<DesktopDetection, AppError>,
) -> (HookRuntimeState, Option<DesktopDetection>) {
    if watchdog_action(s, container_alive) == WatchdogAction::Redetect {
        redetection_spec(s, result)
    } else {
        (s, None)
    }
}

/// The state after cycles in which the container stays invalid and the re-detections give
/// `results` in turn.
pub open spec fn after_failed_cycles(s: HookRuntimeState, results: Seq<Result<DesktopDetection, AppError>>) -> HookRuntimeState
    decreases results.len(),
{
    if results.len() == 0 {
        s
    } else {
        after_failed_cycles(watchdog_cycle(s, false, results[0]).0, results.drop_first())
    }
}

/// After the container is invalidated, re-detection is retried on every cycle without
/// changing anything until it succeeds; the cycle where it first succeeds installs the new
/// detection and asks for the injection, so the watchdog converges in as many cycles as the
/// re-detection needs, and the next check with the new container alive does nothing.
pub proof fn lemma_redetection_converges(
    s: HookRuntimeState,
    failures: Seq<Result<DesktopDetection, AppError>>,
    d: DesktopDetection,
)
    requires
        s.container.raw != 0,
        d.container.raw != 0,
        forall|i: int| 0 <= i < failures.len() ==> failures[i] is Err,
    ensures
        after_failed_cycles(s, failures) == s,
        watchdog_cycle(s, false, Ok(d)) == (with_detection(s, d), Some(d)),
        with_detection(s, d).container == d.container,
        watchdog_action(with_detection(s, d), true) == WatchdogAction::Wait,
    decreases failures.len(),
{
    if failures.len() > 0 {
        assert(failures[0] is Err);
        lemma_redetection_converges(s, failures.drop_first(), d);
    }
}

/// Attempts at finding the renderer's input interface after injection, and the wait between two.
pub const CONTROLLER_WAIT_ATTEMPTS: u32 = 100;
pub const CONTROLLER_WAIT_MS: u64 = 10;

#[derive(Clone, Copy, Debug, PartialEq, Eq, Structural)]
pub enum ControllerWait {
    /// The interface is there: record it and size the renderer.
    Ready(isize),
    /// Wait and look again.
    Wait,
    /// Stop waiting.
    GiveUp,
}

/// Decides after look number `attempt` (from one) for the renderer's input interface,
/// where `engine_ptr` is what the look found (zero for nothing).
pub fn controller_wait_step(attempt: u32, engine_ptr: isize) -> (r: ControllerWait)
    ensures
        engine_ptr != 0 ==> r == ControllerWait::Ready(engine_ptr),
        engine_ptr == 0 && attempt < CONTROLLER_WAIT_ATTEMPTS ==> r == ControllerWait::Wait,
        engine_ptr == 0 && attempt >= CONTROLLER_WAIT_ATTEMPTS ==> r == ControllerWait::GiveUp,
{
    if engine_ptr != 0 {
        ControllerWait::Ready(engine_ptr)
    } else if attempt < CONTROLLER_WAIT_ATTEMPTS {
        ControllerWait::Wait
    } else {
        ControllerWait::GiveUp
    }
}

} // verus!
