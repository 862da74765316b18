use wallpaper_layer::commands::deep_link_arguments;
use wallpaper_layer::events::AppEvent;
use wallpaper_layer::media::{media_info, no_session_media_info, playback_status_name, PlaybackStatus};
use wallpaper_layer::monitor::{
    mean_usage, poll_step, requested_categories, set_poll_categories, stop_monitor, Categories,
    MonitorControl, PollStep, SystemData,
};

#[test]
fn event_names() {
    assert_eq!(AppEvent::WallpaperVisibility { visible: true }.event_name(), "wallpaper-visibility");
    assert_eq!(AppEvent::UpdateProgress { status: "checking".to_string() }.event_name(), "update-progress");
    assert_eq!(AppEvent::SystemDataUpdate(Box::new(SystemData::empty())).event_name(), "system-data-update");
    assert_eq!(AppEvent::DeepLink { url: String::new() }.event_name(), "deep-link");
    assert_eq!(AppEvent::ReloadApp.event_name(), "reload-app");
    assert_eq!(AppEvent::SessionStateChanged { active: false }.event_name(), "session-state-changed");
    assert_eq!(AppEvent::WebViewReloaded.event_name(), "webview-reloaded");
}

#[test]
fn monitor_polls_what_was_asked() {
    let mut c = MonitorControl::new();
    assert_eq!(poll_step(&c), PollStep::Stop);
    assert!(c.start());
    assert!(!c.start());
    assert_eq!(poll_step(&c), PollStep::Idle);
    set_poll_categories(&mut c, vec!["memory".to_string(), "gpu".to_string(), "media".to_string()]);
    assert_eq!(
        poll_step(&c),
        PollStep::Collect(Categories { cpu: false, memory: true, disk: false, network: false, battery: false, media: true })
    );
    stop_monitor(&mut c);
    assert_eq!(poll_step(&c), PollStep::Stop);
    assert_eq!(c.categories.len(), 3);
}

#[test]
fn categories_are_read_exactly() {
    let c = requested_categories(&vec!["CPU".to_string(), "disk".to_string(), "network".to_string(), "battery".to_string()]);
    assert_eq!(c, Categories { cpu: false, memory: false, disk: true, network: true, battery: true, media: false });
}

#[test]
fn usage_is_averaged() {
    assert_eq!(mean_usage(&vec![]), 0);
    assert_eq!(mean_usage(&vec![10000, 0, 5000]), 5000);
    assert_eq!(mean_usage(&vec![1, 2]), 1);
}

#[test]
fn media_status_and_empty_fields() {
    assert_eq!(playback_status_name(Some(PlaybackStatus::Playing)), "playing");
    assert_eq!(playback_status_name(Some(PlaybackStatus::Closed)), "stopped");
    assert_eq!(playback_status_name(Some(PlaybackStatus::Changing)), "unknown");
    assert_eq!(playback_status_name(None), "unknown");
    let m = media_info(Some("Song".to_string()), Some(String::new()), None, Some(PlaybackStatus::Paused), Some("app".to_string()));
    assert_eq!(m.title, Some("Song".to_string()));
    assert_eq!(m.artist, None);
    assert_eq!(m.album, None);
    assert_eq!(m.playback_status, "paused");
    assert_eq!(m.source_app, Some("app".to_string()));
    assert_eq!(no_session_media_info().playback_status, "stopped");
}

#[test]
fn deep_link_arguments_are_filtered() {
    let args = vec![
        "app.exe".to_string(),
        "mywallpaper://callback?code=1".to_string(),
        "--minimized".to_string(),
        "mywallpaper://login".to_string(),
        "MYWALLPAPER://x".to_string(),
    ];
    assert_eq!(
        deep_link_arguments(&args),
        vec!["mywallpaper://callback?code=1".to_string(), "mywallpaper://login".to_string()]
    );
}
