use vstd::prelude::*;

verus! {

/// The errors of the library, each with a message for the user.
#[derive(Clone, Debug)]
pub enum AppError {
    WindowLayer(String),
    Updater(String),
    Validation(String),
    SystemMonitor(String),
    OAuth(String),
    WindowNotFound(String),
    Media(String),
}

pub type AppResult<T> = Result<T, AppError>;

} // verus!
