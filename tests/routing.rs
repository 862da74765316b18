use wallpaper_layer::double_click::DoubleClickTracker;
use wallpaper_layer::handle::WindowHandle;
use wallpaper_layer::hook::{
    is_descendant, parent_process_of, HookOutcome, HookRuntimeState, KeyState, PointerEvent, ProcessEntry,
    Verdict, WindowProbe,
};
use wallpaper_layer::ownership::{route, ClickOwnership, Destination, TargetClass};
use wallpaper_layer::pointer::{Button, PointerKind};
use wallpaper_layer::relay::{
    dispatch, injections, pack, unpack, DispatchAction, RelayMessage, RELAY_BOUNDS_MESSAGE,
    RELAY_POINTER_MESSAGE, SESSION_CHANGE_MESSAGE,
};

fn no_keys() -> KeyState {
    KeyState { left: false, right: false, middle: false, shift: false, control: false }
}

fn ev(kind: PointerKind, x: i32, y: i32, time: u32, over_icon: bool) -> PointerEvent {
    PointerEvent { kind, x, y, wheel: 0, time, over_icon, keys: no_keys() }
}

fn ready_state() -> HookRuntimeState {
    let mut s = HookRuntimeState::new(4242, DoubleClickTracker::new(500, 4, 4));
    s.set_webview_hwnd(WindowHandle::from_raw(0x100));
    s.set_origins(10, 20, 0, 0);
    s
}

fn utf16(s: &str) -> Vec<u16> {
    s.encode_utf16().collect()
}

#[test]
fn drag_started_on_content_stays_with_content() {
    let mut s = ready_state();
    let press = s.on_pointer_event(&ev(PointerKind::Press(Button::Left), 50, 60, 1, false), TargetClass::IconLayer);
    assert!(press.relay.is_some());
    // Crossing an icon and a foreign window mid-drag changes nothing.
    let over_icon = s.on_pointer_event(&ev(PointerKind::Move, 70, 80, 2, true), TargetClass::IconLayer);
    let over_other = s.on_pointer_event(&ev(PointerKind::Move, 90, 90, 3, false), TargetClass::Other);
    let release = s.on_pointer_event(&ev(PointerKind::Release(Button::Left), 95, 95, 4, true), TargetClass::Other);
    for o in [over_icon, over_other, release] {
        assert!(o.relay.is_some());
        assert!(o.icon.is_none());
    }
    assert_eq!(over_icon.relay.unwrap().buttons, 1);
    assert_eq!(release.relay.unwrap().buttons, 0);
    assert_eq!(release.verdict, Verdict::Consume);
    assert_eq!(over_icon.verdict, Verdict::PassThrough);
    assert_eq!(s.ownership, ClickOwnership::Idle);
}

#[test]
fn drag_started_on_icon_stays_with_icon_layer() {
    let mut s = ready_state();
    let press = s.on_pointer_event(&ev(PointerKind::Press(Button::Right), 50, 60, 1, true), TargetClass::IconLayer);
    let mv = s.on_pointer_event(&ev(PointerKind::Move, 52, 61, 2, false), TargetClass::Content);
    let release = s.on_pointer_event(&ev(PointerKind::Release(Button::Right), 52, 61, 3, false), TargetClass::Content);
    for o in [press, mv, release] {
        assert!(o.relay.is_none());
        assert!(o.icon.is_some());
        assert_eq!(o.verdict, Verdict::PassThrough);
    }
    assert_eq!(press.icon.unwrap().message, 0x0204);
    assert_eq!(press.icon.unwrap().wparam, 0x0002);
    assert_eq!(release.icon.unwrap().message, 0x0205);
    assert_eq!(s.ownership, ClickOwnership::Idle);
}

#[test]
fn ownership_ends_only_with_release_of_same_button() {
    let (d, own) = route(ClickOwnership::OwnedByContent(Button::Left), TargetClass::Other, true, PointerKind::Release(Button::Right));
    assert_eq!(d, Destination::Content);
    assert_eq!(own, ClickOwnership::OwnedByContent(Button::Left));
    let (d, own) = route(ClickOwnership::Idle, TargetClass::Other, false, PointerKind::Press(Button::Left));
    assert_eq!(d, Destination::Native);
    assert_eq!(own, ClickOwnership::Idle);
}

#[test]
fn two_close_presses_make_one_double_click_for_icons() {
    let mut s = ready_state();
    let seq = [
        ev(PointerKind::Press(Button::Left), 100, 100, 1000, true),
        ev(PointerKind::Release(Button::Left), 100, 100, 1050, true),
        ev(PointerKind::Press(Button::Left), 101, 101, 1200, true),
        ev(PointerKind::Release(Button::Left), 101, 101, 1250, true),
    ];
    let messages: Vec<u32> = seq
        .iter()
        .map(|e| s.on_pointer_event(e, TargetClass::IconLayer).icon.unwrap().message)
        .collect();
    assert_eq!(messages, vec![0x0201, 0x0202, 0x0203, 0x0202]);
}

#[test]
fn presses_too_far_apart_stay_single() {
    let mut s = ready_state();
    let a = s.on_pointer_event(&ev(PointerKind::Press(Button::Left), 100, 100, 1000, true), TargetClass::IconLayer);
    s.on_pointer_event(&ev(PointerKind::Release(Button::Left), 100, 100, 1010, true), TargetClass::IconLayer);
    let b = s.on_pointer_event(&ev(PointerKind::Press(Button::Left), 103, 100, 1100, true), TargetClass::IconLayer);
    s.on_pointer_event(&ev(PointerKind::Release(Button::Left), 103, 100, 1110, true), TargetClass::IconLayer);
    let c = s.on_pointer_event(&ev(PointerKind::Press(Button::Left), 103, 100, 1700, true), TargetClass::IconLayer);
    assert_eq!(a.icon.unwrap().message, 0x0201);
    assert_eq!(b.icon.unwrap().message, 0x0201);
    assert_eq!(c.icon.unwrap().message, 0x0201);
}

#[test]
fn double_click_tracker_thresholds() {
    let mut t = DoubleClickTracker::new(500, 4, 4);
    assert_eq!(t.max_dx, 2);
    assert!(!t.on_press(Button::Left, 100, 0, 0));
    assert!(t.on_press(Button::Left, 600, 2, -2));
    assert!(t.last.is_none());
    assert!(!t.on_press(Button::Left, 700, 0, 0));
    assert!(!t.on_press(Button::Right, 710, 0, 0));
    assert!(!t.on_press(Button::Right, 710, 0, 0));
}

#[test]
fn locked_session_forwards_nothing() {
    let mut s = ready_state();
    s.on_session_change(0x7);
    assert!(!s.session_active);
    for e in [
        ev(PointerKind::Press(Button::Left), 5, 5, 1, false),
        ev(PointerKind::Move, 6, 6, 2, true),
        ev(PointerKind::Release(Button::Left), 7, 7, 3, false),
    ] {
        let o = s.on_pointer_event(&e, TargetClass::Content);
        assert_eq!(o, HookOutcome { relay: None, icon: None, verdict: Verdict::PassThrough });
    }
    assert_eq!(s.ownership, ClickOwnership::Idle);
    s.on_session_change(0x8);
    let o = s.on_pointer_event(&ev(PointerKind::Move, 6, 6, 4, false), TargetClass::Content);
    assert!(o.relay.is_some());
}

#[test]
fn unknown_content_passes_everything_through() {
    let mut s = HookRuntimeState::new(1, DoubleClickTracker::new(500, 4, 4));
    let o = s.on_pointer_event(&ev(PointerKind::Press(Button::Left), 5, 5, 1, false), TargetClass::Content);
    assert_eq!(o.relay, None);
    assert_eq!(o.verdict, Verdict::PassThrough);
}

#[test]
fn content_coordinates_are_offset_by_origin() {
    let mut s = ready_state();
    s.set_origins(-1920, 0, 0, 0);
    let corner = s.on_pointer_event(&ev(PointerKind::Move, -1920, 0, 1, false), TargetClass::Content);
    let inside = s.on_pointer_event(&ev(PointerKind::Move, 15, 1079, 2, false), TargetClass::Content);
    let edge = s.on_pointer_event(&ev(PointerKind::Move, 1919, 1080, 3, false), TargetClass::Content);
    assert_eq!((corner.relay.unwrap().x, corner.relay.unwrap().y), (0, 0));
    assert_eq!((inside.relay.unwrap().x, inside.relay.unwrap().y), (1935, 1079));
    assert_eq!((edge.relay.unwrap().x, edge.relay.unwrap().y), (3839, 1080));
}

#[test]
fn wheel_goes_to_content_with_delta() {
    let mut s = ready_state();
    let mut e = ev(PointerKind::Wheel, 30, 40, 1, false);
    e.wheel = -120;
    let o = s.on_pointer_event(&e, TargetClass::Content);
    let m = o.relay.unwrap();
    assert_eq!((m.kind, m.wheel, m.x, m.y, m.buttons), (PointerKind::Wheel, -120, 20, 20, 0));
    assert_eq!(o.verdict, Verdict::Consume);
}

#[test]
fn wheel_to_icons_packs_delta_and_screen_point() {
    let mut s = ready_state();
    let mut e = ev(PointerKind::Wheel, 300, 400, 1, true);
    e.wheel = -120;
    e.keys.control = true;
    let m = s.on_pointer_event(&e, TargetClass::IconLayer).icon.unwrap();
    assert_eq!(m.message, 0x020A);
    assert_eq!(m.wparam, (0xFF88u64 << 16) | 0x0008);
    assert_eq!(m.lparam, 300 | (400 << 16));
}

#[test]
fn relay_message_survives_packing() {
    let m = RelayMessage { kind: PointerKind::Press(Button::Middle), buttons: 0x10, wheel: -32768, x: i32::MIN, y: i32::MAX };
    let p = pack(&m);
    assert_eq!(unpack(&p), Some(m));
    let w = RelayMessage { kind: PointerKind::HWheel, buttons: 0, wheel: 240, x: -5, y: 7 };
    assert_eq!(unpack(&pack(&w)), Some(w));
    assert_ne!(pack(&w), pack(&m));
}

#[test]
fn garbage_parameters_do_not_unpack() {
    let p = pack(&RelayMessage { kind: PointerKind::Move, buttons: 0, wheel: 0, x: 1, y: 2 });
    let mut bad = p;
    bad.wparam = (p.wparam & !0xFFFF) | 0x0203;
    assert_eq!(unpack(&bad), None);
    bad.wparam = p.wparam | (1u64 << 60);
    assert_eq!(unpack(&bad), None);
}

#[test]
fn press_is_preceded_by_a_move() {
    let m = RelayMessage { kind: PointerKind::Press(Button::Left), buttons: 1, wheel: 0, x: 3, y: 4 };
    let v = injections(&m);
    assert_eq!(v.len(), 2);
    assert_eq!(v[0], RelayMessage { kind: PointerKind::Move, ..m });
    assert_eq!(v[1], m);
    let r = RelayMessage { kind: PointerKind::Release(Button::Left), buttons: 0, wheel: 0, x: 3, y: 4 };
    assert_eq!(injections(&r), vec![r]);
}

#[test]
fn dispatch_decisions() {
    let m = RelayMessage { kind: PointerKind::Press(Button::Left), buttons: 1, wheel: 0, x: 3, y: 4 };
    let p = pack(&m);
    match dispatch(RELAY_POINTER_MESSAGE, p.wparam, p.lparam, true) {
        DispatchAction::Inject(v) => assert_eq!(v.len(), 2),
        other => panic!("unexpected {:?}", other),
    }
    assert!(matches!(dispatch(RELAY_POINTER_MESSAGE, p.wparam, p.lparam, false), DispatchAction::Dropped));
    assert!(matches!(
        dispatch(RELAY_BOUNDS_MESSAGE, 1920, 1080, true),
        DispatchAction::SetBounds { width: 1920, height: 1080 }
    ));
    assert!(matches!(dispatch(SESSION_CHANGE_MESSAGE, 7, 0, true), DispatchAction::SessionChanged(false)));
    assert!(matches!(dispatch(SESSION_CHANGE_MESSAGE, 8, 0, false), DispatchAction::SessionChanged(true)));
    assert!(matches!(dispatch(0x0010, 0, 0, true), DispatchAction::Default));
}

#[test]
fn known_handles_classify_without_probing() {
    let mut s = ready_state();
    s.set_target_parent_hwnd(WindowHandle::from_raw(0x200));
    s.set_progman_hwnd(WindowHandle::from_raw(0x300));
    assert_eq!(s.known_target(WindowHandle::from_raw(0x100)), Some(TargetClass::Content));
    assert_eq!(s.known_target(WindowHandle::from_raw(0x200)), Some(TargetClass::IconLayer));
    assert_eq!(s.known_target(WindowHandle::from_raw(0x300)), Some(TargetClass::IconLayer));
    assert_eq!(s.known_target(WindowHandle::from_raw(0x999)), None);
    assert_eq!(s.known_target(WindowHandle::none()), None);
}

#[test]
fn renderer_window_is_discovered_once_by_ancestry() {
    let mut s = ready_state();
    let class = utf16("Chrome_RenderWidgetHostHWND");
    let processes = [
        ProcessEntry { pid: 77, parent_pid: 1 },
        ProcessEntry { pid: 78, parent_pid: 79 },
        ProcessEntry { pid: 79, parent_pid: 4242 },
    ];
    let foreign = WindowProbe {
        handle: WindowHandle::from_raw(0x500),
        child_of_root: false,
        owner_pid: 77,
        parent: WindowHandle::from_raw(0x501),
        parent_owner_pid: 77,
    };
    assert!(s.needs_ancestry(&class));
    assert_eq!(s.discover(&foreign, &class, &processes), TargetClass::Other);
    let ours = WindowProbe { handle: WindowHandle::from_raw(0x600), parent_owner_pid: 78, ..foreign };
    assert_eq!(s.discover(&ours, &utf16("Chrome_WidgetWin_1"), &processes), TargetClass::Other);
    assert_eq!(s.discover(&ours, &class, &processes), TargetClass::Content);
    assert_eq!(s.known_target(WindowHandle::from_raw(0x600)), Some(TargetClass::Content));
    assert!(!s.needs_ancestry(&class));
}

#[test]
fn shell_core_window_is_cached() {
    let mut s = ready_state();
    s.set_explorer_pid(9);
    let class = utf16("Windows.UI.Core.CoreWindow");
    let probe = WindowProbe {
        handle: WindowHandle::from_raw(0x700),
        child_of_root: false,
        owner_pid: 9,
        parent: WindowHandle::none(),
        parent_owner_pid: 0,
    };
    assert_eq!(s.discover(&probe, &class, &[]), TargetClass::IconLayer);
    assert_eq!(s.known_target(WindowHandle::from_raw(0x700)), Some(TargetClass::IconLayer));
    let other = WindowProbe { owner_pid: 10, handle: WindowHandle::from_raw(0x701), ..probe };
    assert_eq!(s.discover(&other, &class, &[]), TargetClass::Other);
    let under_root = WindowProbe { child_of_root: true, ..other };
    assert_eq!(s.discover(&under_root, &utf16("SysListView32"), &[]), TargetClass::IconLayer);
}

#[test]
fn process_parent_lookup() {
    let entries = [
        ProcessEntry { pid: 4, parent_pid: 0 },
        ProcessEntry { pid: 77, parent_pid: 4242 },
        ProcessEntry { pid: 77, parent_pid: 1 },
    ];
    assert_eq!(parent_process_of(&entries, 77), Some(4242));
    assert_eq!(parent_process_of(&entries, 5), None);
}

#[test]
fn descent_follows_parent_links_and_stops_on_loops() {
    let entries = [
        ProcessEntry { pid: 3, parent_pid: 2 },
        ProcessEntry { pid: 2, parent_pid: 1 },
        ProcessEntry { pid: 1, parent_pid: 0 },
        ProcessEntry { pid: 8, parent_pid: 9 },
        ProcessEntry { pid: 9, parent_pid: 8 },
    ];
    assert!(is_descendant(&entries, 3, 1));
    assert!(is_descendant(&entries, 1, 1));
    assert!(!is_descendant(&entries, 1, 3));
    assert!(!is_descendant(&entries, 8, 1));
    assert!(!is_descendant(&[], 5, 1));
}
