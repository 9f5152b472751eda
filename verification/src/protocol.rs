//! The vocabulary shared by the configurator and the application that embeds
//! it: the calls to make on the windowing framework, and what it answers.

use vstd::prelude::*;
use crate::geometry::{MonitorGeometry, WindowSize};

verus! {

/// The label under which the framework knows the main window.
pub const MAIN_WINDOW_LABEL: &'static str = "main";

/// What the platform said when it was asked for the primary monitor.
#[derive(Clone, Copy, Debug, PartialEq, Eq, Structural)]
pub enum MonitorReport {
    /// The query itself failed.
    QueryFailed,
    /// The query succeeded and the platform has no primary monitor.
    NoPrimaryMonitor,
    /// The primary monitor, with its resolution.
    Found(MonitorGeometry),
}

/// One call on the windowing framework, to be made by the embedding application.
#[derive(Clone, Copy, Debug, PartialEq, Eq, Structural)]
pub enum Request {
    /// Look the main window up by its label.
    FindMainWindow,
    /// Ask the platform for the primary monitor.
    PrimaryMonitor,
    /// Give the main window this size, in logical pixels.
    SetLogicalSize(WindowSize),
    /// Center the main window within the work area of its monitor.
    Center,
}

/// What the framework answered to a [`Request`].
#[derive(Clone, Copy, Debug, PartialEq, Eq, Structural)]
pub enum Response {
    /// Answer to [`Request::FindMainWindow`].
    MainWindow { found: bool },
    /// Answer to [`Request::PrimaryMonitor`].
    PrimaryMonitor(MonitorReport),
    /// Answer to [`Request::SetLogicalSize`]: whether the platform took the size.
    SizeApplied { accepted: bool },
    /// Answer to [`Request::Center`]: whether the platform moved the window.
    Centered { accepted: bool },
}

/// What the configurator asks of the embedding application next.
#[derive(Clone, Copy, Debug, PartialEq, Eq, Structural)]
pub enum Step {
    /// Make this call and come back with the answer.
    Call(Request),
    /// Nothing is left to do: report success to the framework.
    Done,
}

impl Request {
    /// The request reads the display configuration.
    pub open spec fn queries_display(self) -> bool {
        self is PrimaryMonitor
    }

    /// The request changes the size or the position of the window.
    pub open spec fn mutates_window(self) -> bool {
        self is SetLogicalSize || self is Center
    }
}

} // verus!
