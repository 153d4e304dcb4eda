//! The editing surfaces the application shows, as data: each surface is
//! a variant of a closed tag, switched explicitly, and a struct holding
//! what it displays. Rendering itself is an external concern.

use vstd::prelude::*;

use crate::profile::Profile;

verus! {

/// The closed set of surfaces: the main editing surface, the
/// key-capture prompt shown while a button is being bound, and the
/// error report.
#[derive(Clone, Copy, PartialEq, Eq, Structural, Debug)]
pub enum WindowType {
    Main,
    KeyPress,
    Error,
}

/// The error surface: displays one error message.
pub struct ErrorWindow {
    /// The message to display.
    pub error: String,
}

impl ErrorWindow {
    /// An error surface for the given message.
    pub fn new(error: String) -> (r: ErrorWindow)
        ensures
            r.error == error,
    {
        ErrorWindow { error }
    }

    /// Which surface this is.
    pub fn window_type(&self) -> (r: WindowType)
        ensures
            r == WindowType::Error,
    {
        WindowType::Error
    }
}

/// The main editing surface: the profile whose first table it shows and
/// edits, and whether the translation loop is currently running.
pub struct MainWindow {
    /// The profile being edited.
    pub profile: Profile,
    /// Whether the translation loop is active.
    pub handler_running: bool,
}

impl MainWindow {
    /// A main surface over the given profile.
    pub fn new(profile: Profile, handler_running: bool) -> (r: MainWindow)
        ensures
            r.profile == profile,
            r.handler_running == handler_running,
    {
        MainWindow { profile, handler_running }
    }

    /// Which surface this is.
    pub fn window_type(&self) -> (r: WindowType)
        ensures
            r == WindowType::Main,
    {
        WindowType::Main
    }
}

/// The key-capture surface: a prompt with no state of its own.
pub struct KeyPressWindow;

impl KeyPressWindow {
    /// Which surface this is.
    pub fn window_type(&self) -> (r: WindowType)
        ensures
            r == WindowType::KeyPress,
    {
        WindowType::KeyPress
    }
}

} // verus!
