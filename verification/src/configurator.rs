//! The startup window configurator: which call to make next, given what the
//! framework has answered so far.

use vstd::prelude::*;
use crate::geometry::{target_size, target_size_of};
use crate::protocol::{MonitorReport, Request, Response, Step};

verus! {

/// How far the configuration of the main window has come.
///
/// Seen from outside there are two states, before and after; the phases in
/// between say which call is pending.
#[derive(Clone, Copy, Debug, PartialEq, Eq, Structural)]
pub enum Phase {
    /// Nothing has been asked yet.
    NotConfigured,
    /// The main window is being looked up.
    LocatingWindow,
    /// The main window exists; the primary monitor is being queried.
    QueryingMonitor,
    /// The target size has been handed out and is being applied.
    Resizing,
    /// The window is being centered.
    Centering,
    /// The configurator is through, whether or not anything was changed.
    Configured,
}

impl Phase {
    /// An upper bound on the number of steps the configurator still takes from
    /// this phase.
    pub open spec fn steps_left(self) -> nat {
        match self {
            Phase::NotConfigured => 5,
            Phase::LocatingWindow => 4,
            Phase::QueryingMonitor => 3,
            Phase::Resizing => 2,
            Phase::Centering => 1,
            Phase::Configured => 0,
        }
    }
}

/// The first step of a launch: a fresh configurator looks for the main window.
/// One that has been started before has nothing more to do.
pub open spec fn opening(phase: Phase) -> (Phase, Step) {
    match phase {
        Phase::NotConfigured => (Phase::LocatingWindow, Step::Call(Request::FindMainWindow)),
        _ => (Phase::Configured, Step::Done),
    }
}

/// The step that follows an answer.
///
/// A main window that exists leads to the monitor query, a monitor that was
/// found to the resize, and the resize, accepted or not, to the centering.
/// Every other answer ends the configuration: a missing window, a missing
/// monitor or a failed query, the answer to the centering, and any answer that
/// does not belong to the call that was pending.
pub open spec fn transition(phase: Phase, response: Response) -> (Phase, Step) {
    match (phase, response) {
        (Phase::LocatingWindow, Response::MainWindow { found: true }) => (
            Phase::QueryingMonitor,
            Step::Call(Request::PrimaryMonitor),
        ),
        (Phase::QueryingMonitor, Response::PrimaryMonitor(MonitorReport::Found(monitor))) => (
            Phase::Resizing,
            Step::Call(Request::SetLogicalSize(target_size_of(monitor))),
        ),
        (Phase::Resizing, Response::SizeApplied { accepted: _ }) => (
            Phase::Centering,
            Step::Call(Request::Center),
        ),
        _ => (Phase::Configured, Step::Done),
    }
}

/// Decides, one call at a time, how the main window is sized and placed at
/// launch.
///
/// The embedding application creates one per launch, takes the first step from
/// [`Configurator::begin`], performs each call it is given and passes the answer
/// to [`Configurator::advance`], until it is told that it is done.
#[derive(Clone, Copy, Debug, PartialEq, Eq, Structural)]
pub struct Configurator {
    pub phase: Phase,
}

impl Configurator {
    /// A configurator for a launch that has not begun.
    pub fn new() -> (configurator: Self)
        ensures
            configurator.phase == Phase::NotConfigured,
    {
        Configurator { phase: Phase::NotConfigured }
    }

    /// Whether the configurator is through.
    pub fn is_configured(&self) -> (configured: bool)
        ensures
            configured == (self.phase == Phase::Configured),
    {
        match self.phase {
            Phase::Configured => true,
            _ => false,
        }
    }

    /// Begins the launch and returns its first step.
    pub fn begin(&mut self) -> (step: Step)
        ensures
            (final(self).phase, step) == opening(old(self).phase),
    {
        match self.phase {
            Phase::NotConfigured => {
                self.phase = Phase::LocatingWindow;
                Step::Call(Request::FindMainWindow)
            },
            _ => {
                self.phase = Phase::Configured;
                Step::Done
            },
        }
    }

    /// Takes the answer to the pending call and returns the step that follows.
    pub fn advance(&mut self, response: Response) -> (step: Step)
        ensures
            (final(self).phase, step) == transition(old(self).phase, response),
    {
        match (self.phase, response) {
            (Phase::LocatingWindow, Response::MainWindow { found: true }) => {
                self.phase = Phase::QueryingMonitor;
                Step::Call(Request::PrimaryMonitor)
            },
            (Phase::QueryingMonitor, Response::PrimaryMonitor(MonitorReport::Found(monitor))) => {
                self.phase = Phase::Resizing;
                Step::Call(Request::SetLogicalSize(target_size(monitor)))
            },
            (Phase::Resizing, Response::SizeApplied { accepted: _ }) => {
                self.phase = Phase::Centering;
                Step::Call(Request::Center)
            },
            _ => {
                self.phase = Phase::Configured;
                Step::Done
            },
        }
    }
}

/// Every step brings the configurator closer to its end, and it asks for no
/// further call exactly when it has reached it: a launch takes at most five
/// steps, whatever the framework answers.
pub proof fn lemma_steps_run_out(phase: Phase, response: Response)
    ensures
        opening(phase).0.steps_left() < phase.steps_left() || opening(phase).0 == Phase::Configured,
        transition(phase, response).0.steps_left() < phase.steps_left() || transition(
            phase,
            response,
        ).0 == Phase::Configured,
        opening(phase).1 is Done <==> opening(phase).0 == Phase::Configured,
        transition(phase, response).1 is Done <==> transition(phase, response).0
            == Phase::Configured,
{
}

/// There is no way back: no step returns to the state before the launch, and
/// a configurator that is through stays through and asks for nothing more.
pub proof fn lemma_no_way_back(phase: Phase, response: Response)
    ensures
        opening(phase).0 != Phase::NotConfigured,
        transition(phase, response).0 != Phase::NotConfigured,
        opening(Phase::Configured) == (Phase::Configured, Step::Done),
        transition(Phase::Configured, response) == (Phase::Configured, Step::Done),
{
}

/// No call is made without its cause, whatever the framework answers: the
/// first step can only be the lookup of the main window; the display is
/// queried only upon the answer that the main window exists; a size is handed
/// out only upon a monitor that was found, and it is that monitor's target
/// size; the window is centered only upon the answer to the resize.
pub proof fn lemma_every_call_has_its_cause(phase: Phase, response: Response)
    ensures
        opening(phase).1 matches Step::Call(request) ==> request == Request::FindMainWindow,
        transition(phase, response).1 matches Step::Call(request) ==> {
            &&& !(request is FindMainWindow)
            &&& request.queries_display() ==> phase == Phase::LocatingWindow && response
                == (Response::MainWindow { found: true })
            &&& request is SetLogicalSize ==> {
                &&& phase == Phase::QueryingMonitor
                &&& response matches Response::PrimaryMonitor(MonitorReport::Found(monitor))
                &&& request == Request::SetLogicalSize(target_size_of(monitor))
            }
            &&& request is Center ==> phase == Phase::Resizing && response is SizeApplied
        },
{
}

} // verus!
