use vstd::prelude::*;

verus! {

/// Where the content surface lives.
#[derive(Clone, Copy, Debug, PartialEq, Eq, Structural)]
pub enum LayerMode {
    /// Behind the desktop icons, inside the shell's background layer.
    Background,
    /// An ordinary foreground window that takes input itself.
    Interactive,
}

/// The layer mode the host configures; a keyboard shortcut may toggle it.
#[derive(Clone, Copy, Debug, PartialEq, Eq, Structural)]
pub struct WindowLayerState {
    pub mode: LayerMode,
}

pub open spec fn toggled(m: LayerMode) -> LayerMode {
    match m {
        LayerMode::Background => LayerMode::Interactive,
        LayerMode::Interactive => LayerMode::Background,
    }
}

impl WindowLayerState {
    pub fn new() -> (r: WindowLayerState)
        ensures
            r.mode == LayerMode::Background,
    {
        WindowLayerState { mode: LayerMode::Background }
    }

    pub fn get_window_layer(&self) -> (r: LayerMode)
        ensures
            r == self.mode,
    {
        self.mode
    }

    pub fn set_window_layer(&mut self, mode: LayerMode)
        ensures
            final(self).mode == mode,
    {
        self.mode = mode;
    }

    /// Switches to the other mode and returns it.
    pub fn toggle_window_layer(&mut self) -> (r: LayerMode)
        ensures
            r == toggled(old(self).mode),
            final(self).mode == r,
    {
        self.mode = match self.mode {
            LayerMode::Background => LayerMode::Interactive,
            LayerMode::Interactive => LayerMode::Background,
        };
        self.mode
    }

    /// The mode after an attempt at setting the desktop layer up: when the shell could not
    /// be found, the surface stays an ordinary interactive window.
    pub fn after_setup(&mut self, desktop_ready: bool) -> (r: LayerMode)
        ensures
            desktop_ready ==> r == old(self).mode,
            !desktop_ready ==> r == LayerMode::Interactive,
            final(self).mode == r,
    {
        if !desktop_ready {
            self.mode = LayerMode::Interactive;
        }
        self.mode
    }
}

} // verus!
