use vstd::prelude::*;

verus! {

/// Lifecycle state of the application as a whole.
#[derive(Clone, Copy, PartialEq, Eq, Structural, Debug)]
pub enum AppStatus {
    Init,
    Initialized,
    UserInput,
    KeyBindMode,
}

impl AppStatus {
    /// The state reached once start-up has finished.
    pub fn initialized() -> (r: Self)
        ensures
            r == AppStatus::Initialized,
    {
        AppStatus::Initialized
    }

    pub fn is_initialized(&self) -> (r: bool)
        ensures
            r == (*self == AppStatus::Initialized),
    {
        match self {
            AppStatus::Initialized => true,
            _ => false,
        }
    }
}

impl Default for AppStatus {
    fn default() -> (r: AppStatus)
        ensures
            r == AppStatus::Init,
    {
        AppStatus::Init
    }
}

} // verus!
