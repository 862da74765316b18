use wallpaper_layer::double_click::DoubleClickTracker;
use wallpaper_layer::error::AppError;
use wallpaper_layer::handle::WindowHandle;
use wallpaper_layer::hook::HookRuntimeState;
use wallpaper_layer::layer_mode::{LayerMode, WindowLayerState};
use wallpaper_layer::leave::{leave_verdict, LeaveVerdict};
use wallpaper_layer::lifecycle::{
    after_redetection, controller_wait_step, restore_desktop_icons_and_unhook,
    set_desktop_icons_visible, watchdog_tick, ControllerWait, TeardownGuard, WatchdogAction,
    WindowOp,
};
use wallpaper_layer::locator::{assemble_detection, ScreenRect};

fn h(raw: isize) -> WindowHandle {
    WindowHandle::from_raw(raw)
}

#[test]
fn teardown_runs_once() {
    let mut g = TeardownGuard::new();
    let first = restore_desktop_icons_and_unhook(&mut g, h(7), 0x55);
    assert_eq!(first, vec![WindowOp::Show(h(7)), WindowOp::Unhook(0x55)]);
    let after_first = g;
    let second = restore_desktop_icons_and_unhook(&mut g, h(7), 0x55);
    assert!(second.is_empty());
    assert_eq!(g, after_first);
}

#[test]
fn teardown_after_partial_setup() {
    let mut g = TeardownGuard::new();
    assert!(restore_desktop_icons_and_unhook(&mut g, WindowHandle::none(), 0).is_empty());
    assert!(g.done);
    let mut g2 = TeardownGuard::new();
    assert_eq!(restore_desktop_icons_and_unhook(&mut g2, WindowHandle::none(), 3), vec![WindowOp::Unhook(3)]);
}

#[test]
fn icon_visibility_needs_the_list() {
    assert_eq!(set_desktop_icons_visible(WindowHandle::none(), false), None);
    assert_eq!(set_desktop_icons_visible(h(7), false), Some(WindowOp::Hide(h(7))));
    assert_eq!(set_desktop_icons_visible(h(7), true), Some(WindowOp::Show(h(7))));
}

#[test]
fn watchdog_redetects_after_invalidation() {
    let mut s = HookRuntimeState::new(1, DoubleClickTracker::new(500, 4, 4));
    let old = assemble_detection(h(1), 5, h(2), h(3), &[ScreenRect { left: 0, top: 0, right: 10, bottom: 10 }]);
    s.apply_detection(&old);
    assert_eq!(watchdog_tick(&s, true), WatchdogAction::Wait);
    assert_eq!(watchdog_tick(&s, false), WatchdogAction::Redetect);
    // A failed re-detection changes nothing.
    let failed = after_redetection(&mut s, Err(AppError::WindowLayer("gone".to_string())));
    assert_eq!(failed, None);
    assert_eq!(s.container, h(2));
    assert_eq!(watchdog_tick(&s, false), WatchdogAction::Redetect);
    // The next one succeeds and converges.
    let new = assemble_detection(h(11), 6, h(12), WindowHandle::none(), &[ScreenRect { left: 0, top: 0, right: 20, bottom: 10 }]);
    assert_eq!(after_redetection(&mut s, Ok(new)), Some(new));
    assert_eq!((s.container, s.root, s.shell_pid, s.icon_list), (h(12), h(11), 6, h(3)));
    assert_eq!(watchdog_tick(&s, true), WatchdogAction::Wait);
}

#[test]
fn watchdog_waits_without_container() {
    let s = HookRuntimeState::new(1, DoubleClickTracker::new(500, 4, 4));
    assert_eq!(watchdog_tick(&s, false), WatchdogAction::Wait);
}

#[test]
fn controller_wait_gives_up_after_limit() {
    assert_eq!(controller_wait_step(1, 0x77), ControllerWait::Ready(0x77));
    assert_eq!(controller_wait_step(99, 0), ControllerWait::Wait);
    assert_eq!(controller_wait_step(100, 0), ControllerWait::GiveUp);
}

#[test]
fn spurious_leave_is_suppressed() {
    assert_eq!(leave_verdict(0x02A3, true, false), LeaveVerdict::Suppress);
    assert_eq!(leave_verdict(0x02A3, true, true), LeaveVerdict::DeliverAndConsumeMarker);
    assert_eq!(leave_verdict(0x02A3, false, false), LeaveVerdict::Deliver);
    assert_eq!(leave_verdict(0x0200, true, false), LeaveVerdict::Deliver);
}

#[test]
fn layer_mode_toggles_and_falls_back() {
    let mut l = WindowLayerState::new();
    assert_eq!(l.get_window_layer(), LayerMode::Background);
    assert_eq!(l.toggle_window_layer(), LayerMode::Interactive);
    assert_eq!(l.toggle_window_layer(), LayerMode::Background);
    assert_eq!(l.after_setup(true), LayerMode::Background);
    assert_eq!(l.after_setup(false), LayerMode::Interactive);
    l.set_window_layer(LayerMode::Background);
    assert_eq!(l.get_window_layer(), LayerMode::Background);
}
