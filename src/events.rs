use vstd::prelude::*;

use crate::monitor::SystemData;

verus! {

/// The events that the application sends to its frontend.
#[derive(Clone, Debug)]
pub enum AppEvent {
    WallpaperVisibility { visible: bool },
    UpdateProgress { status: String },
    SystemDataUpdate(Box<SystemData>),
    DeepLink { url: String },
    ReloadApp,
    SessionStateChanged { active: bool },
    WebViewReloaded,
}

pub open spec fn event_name_of(e: AppEvent) -> Seq<char> {
    match e {
        AppEvent::WallpaperVisibility { .. } => "wallpaper-visibility"@,
        AppEvent::UpdateProgress { .. } => "update-progress"@,
        AppEvent::SystemDataUpdate(_) => "system-data-update"@,
        AppEvent::DeepLink { .. } => "deep-link"@,
        AppEvent::ReloadApp => "reload-app"@,
        AppEvent::SessionStateChanged { .. } => "session-state-changed"@,
        AppEvent::WebViewReloaded => "webview-reloaded"@,
    }
}

impl AppEvent {
    /// The name under which the frontend listens for this event.
    pub fn event_name(&self) -> (r: &'static str)
        ensures
            r@ == event_name_of(*self),
    {
        match self {
            AppEvent::WallpaperVisibility { .. } => "wallpaper-visibility",
            AppEvent::UpdateProgress { .. } => "update-progress",
            AppEvent::SystemDataUpdate(_) => "system-data-update",
            AppEvent::DeepLink { .. } => "deep-link",
            AppEvent::ReloadApp => "reload-app",
            AppEvent::SessionStateChanged { .. } => "session-state-changed",
            AppEvent::WebViewReloaded => "webview-reloaded",
        }
    }
}

} // verus!
