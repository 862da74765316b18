use wallpaper_layer::class_name::is_class_name;
use wallpaper_layer::handle::WindowHandle;
use wallpaper_layer::injector::{
    content_surface_ex_style, content_surface_style, injection_plan, renderer_child_style,
    subclass_action, SubclassAction,
};
use wallpaper_layer::locator::{
    after_search, assemble_detection, find_container, find_icon_list, require_shell_root,
    spawn_signals, virtual_bounds, ChildWindow, ContainerChoice, LocateStep, ScreenRect,
    ShellLayout, TopLevelWindow,
};

fn h(raw: isize) -> WindowHandle {
    WindowHandle::from_raw(raw)
}

fn none() -> WindowHandle {
    WindowHandle::none()
}

fn utf16(s: &str) -> Vec<u16> {
    s.encode_utf16().collect()
}

#[test]
fn class_names_compare_exactly() {
    assert!(is_class_name(&utf16("WorkerW"), "WorkerW"));
    assert!(!is_class_name(&utf16("WorkerW2"), "WorkerW"));
    assert!(!is_class_name(&utf16("workerw"), "WorkerW"));
    assert!(is_class_name(&[], ""));
}

#[test]
fn icon_view_under_root_uses_root_container() {
    let layout = ShellLayout {
        root: h(1),
        root_icon_view: h(2),
        root_container: h(3),
        top_level: vec![],
    };
    assert_eq!(find_container(&layout), ContainerChoice { container: h(3), icon_view: h(2) });
}

#[test]
fn icon_view_in_top_level_uses_next_free_container() {
    let layout = ShellLayout {
        root: h(1),
        root_icon_view: none(),
        root_container: none(),
        top_level: vec![
            TopLevelWindow { handle: h(10), is_container: true, icon_view: none() },
            TopLevelWindow { handle: h(11), is_container: true, icon_view: h(20) },
            TopLevelWindow { handle: h(12), is_container: false, icon_view: none() },
            TopLevelWindow { handle: h(13), is_container: true, icon_view: none() },
        ],
    };
    assert_eq!(find_container(&layout), ContainerChoice { container: h(13), icon_view: h(20) });
}

#[test]
fn no_icon_view_finds_nothing() {
    let layout = ShellLayout {
        root: h(1),
        root_icon_view: none(),
        root_container: none(),
        top_level: vec![TopLevelWindow { handle: h(10), is_container: true, icon_view: none() }],
    };
    assert_eq!(find_container(&layout), ContainerChoice { container: none(), icon_view: none() });
}

#[test]
fn spawn_signal_variants_in_order() {
    let v: Vec<(u64, u64)> = spawn_signals().iter().map(|s| (s.wparam, s.lparam)).collect();
    assert_eq!(v, vec![(0x0D, 0), (0x0D, 1), (0, 0)]);
}

#[test]
fn container_after_fourth_attempt_is_found_on_fifth() {
    let missing = ContainerChoice { container: none(), icon_view: h(20) };
    let present = ContainerChoice { container: h(30), icon_view: h(20) };
    let mut waits = Vec::new();
    let mut attempt = 1u32;
    let outcome = loop {
        let found = if attempt >= 5 { present } else { missing };
        match after_search(attempt, h(1), found) {
            LocateStep::Retry { wait_ms } => {
                waits.push(wait_ms);
                attempt += 1;
            }
            other => break other,
        }
    };
    assert_eq!(attempt, 5);
    assert_eq!(waits, vec![200, 400, 600, 800]);
    assert_eq!(outcome, LocateStep::Found(present));
}

#[test]
fn container_never_found_falls_back_to_root_after_fifth() {
    let missing = ContainerChoice { container: none(), icon_view: h(20) };
    let mut attempt = 1u32;
    let outcome = loop {
        match after_search(attempt, h(1), missing) {
            LocateStep::Retry { .. } => attempt += 1,
            other => break other,
        }
    };
    assert_eq!(attempt, 5);
    assert_eq!(outcome, LocateStep::Fallback(ContainerChoice { container: h(1), icon_view: h(20) }));
}

#[test]
fn missing_shell_root_is_an_error() {
    assert!(require_shell_root(none()).is_err());
    assert_eq!(require_shell_root(h(5)).unwrap(), h(5));
}

#[test]
fn virtual_screen_spans_all_monitors() {
    let monitors = [
        ScreenRect { left: 0, top: 0, right: 1920, bottom: 1080 },
        ScreenRect { left: -1280, top: 200, right: 0, bottom: 1224 },
    ];
    assert_eq!(
        virtual_bounds(&monitors),
        Some(ScreenRect { left: -1280, top: 0, right: 1920, bottom: 1224 })
    );
    assert_eq!(virtual_bounds(&[]), None);
    let d = assemble_detection(h(1), 77, h(3), h(4), &monitors);
    assert_eq!((d.width, d.height), (3200, 1224));
    assert_eq!((d.root, d.shell_pid, d.container, d.icon_list), (h(1), 77, h(3), h(4)));
    let e = assemble_detection(h(1), 77, h(3), h(4), &[]);
    assert_eq!((e.width, e.height), (0, 0));
}

#[test]
fn icon_list_found_by_class() {
    let children = vec![
        ChildWindow { handle: h(40), class_name: utf16("Static") },
        ChildWindow { handle: h(41), class_name: utf16("SysListView32") },
        ChildWindow { handle: h(42), class_name: utf16("SysListView32") },
    ];
    assert_eq!(find_icon_list(&children), h(41));
    assert_eq!(find_icon_list(&children[..1].to_vec()), none());
}

#[test]
fn surface_styles_lose_frames() {
    // WS_OVERLAPPEDWINDOW | WS_CLIPCHILDREN
    let s = content_surface_style(0x00CF_0000 | 0x0200_0000);
    assert_eq!(s, 0x0200_0000 | 0x4000_0000 | 0x1000_0000);
    assert_eq!(content_surface_ex_style(0x0008_0300 | 0x0000_0008), 0x0000_0008);
    assert_eq!(renderer_child_style(0x00C4_0000 | 0x0000_0001), 0x0000_0001);
}

#[test]
fn injection_is_skipped_when_already_parented() {
    let d = assemble_detection(h(1), 77, h(3), h(4), &[ScreenRect { left: 0, top: 0, right: 800, bottom: 600 }]);
    assert_eq!(injection_plan(h(3), &d, 0, 0), None);
    let p = injection_plan(h(9), &d, 0x00C0_0000, 0x200).unwrap();
    assert_eq!((p.style, p.ex_style, p.parent, p.width, p.height), (0x5000_0000, 0, h(3), 800, 600));
}

#[test]
fn subclass_handles_non_client_messages() {
    assert_eq!(subclass_action(0x0083), SubclassAction::ZeroNonClient);
    assert_eq!(subclass_action(0x0082), SubclassAction::DetachThenDefault);
    assert_eq!(subclass_action(0x000F), SubclassAction::Default);
}
