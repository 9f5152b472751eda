//! A model of the windowing framework as the configurator meets it, and a
//! launch carried out against that model.
//!
//! The model answers each request the way a framework does whose main window,
//! primary monitor and willingness to resize and to move a window do not
//! change during the launch. It keeps the window's size and position only as
//! far as the configurator determines them.

use vstd::prelude::*;
use crate::configurator::{Configurator, Phase};
use crate::geometry::{target_size_of, WindowSize};
use crate::protocol::{MonitorReport, Request, Response, Step};

verus! {

/// The size of the main window.
#[derive(Clone, Copy, Debug, PartialEq, Eq, Structural)]
pub enum Extent {
    /// The size the framework gave the window when it created it.
    FrameworkDefault,
    /// A size in logical pixels that was applied since.
    Logical(WindowSize),
}

/// The position of the main window.
#[derive(Clone, Copy, Debug, PartialEq, Eq, Structural)]
pub enum Anchor {
    /// Where the framework put the window when it created it.
    FrameworkDefault,
    /// In the middle of the monitor's work area, where the platform put the
    /// window when it centered it at the given size.
    Centered(Extent),
}

/// Size and position of the main window.
#[derive(Clone, Copy, Debug, PartialEq, Eq, Structural)]
pub struct Placement {
    pub extent: Extent,
    pub anchor: Anchor,
}

/// What the configurator can observe and change of the running application.
#[derive(Clone, Copy, Debug, PartialEq, Eq)]
pub struct Desktop {
    /// The main window, if the framework has one under the well-known label.
    pub main_window: Option<Placement>,
    /// What the platform says when asked for the primary monitor.
    pub primary_monitor: MonitorReport,
    /// Whether the platform takes a new size for the main window.
    pub accepts_resize: bool,
    /// Whether the platform moves the main window when asked to center it.
    pub accepts_center: bool,
}

impl Placement {
    /// The placement of a window that nothing has touched since its creation.
    pub open spec fn untouched() -> Placement {
        Placement { extent: Extent::FrameworkDefault, anchor: Anchor::FrameworkDefault }
    }

    /// A window as the framework creates it.
    pub fn new() -> (placement: Placement)
        ensures
            placement == Placement::untouched(),
    {
        Placement { extent: Extent::FrameworkDefault, anchor: Anchor::FrameworkDefault }
    }
}

impl Desktop {
    /// The answer to `request`.
    ///
    /// A size is applied, and a window centered, only where there is a main
    /// window and the platform goes along.
    pub open spec fn answer(self, request: Request) -> Response {
        match request {
            Request::FindMainWindow => Response::MainWindow { found: self.main_window is Some },
            Request::PrimaryMonitor => Response::PrimaryMonitor(self.primary_monitor),
            Request::SetLogicalSize(_) => Response::SizeApplied {
                accepted: self.main_window is Some && self.accepts_resize,
            },
            Request::Center => Response::Centered {
                accepted: self.main_window is Some && self.accepts_center,
            },
        }
    }

    /// The desktop once `request` has been performed.
    ///
    /// An accepted resize replaces the window's size and leaves its position;
    /// an accepted centering puts the window where its present size belongs.
    /// Everything else leaves the desktop as it is.
    pub open spec fn after(self, request: Request) -> Desktop {
        match (request, self.main_window) {
            (Request::SetLogicalSize(size), Some(placement)) if self.accepts_resize => Desktop {
                main_window: Some(
                    Placement { extent: Extent::Logical(size), anchor: placement.anchor },
                ),
                ..self
            },
            (Request::Center, Some(placement)) if self.accepts_center => Desktop {
                main_window: Some(
                    Placement { extent: placement.extent, anchor: Anchor::Centered(placement.extent) },
                ),
                ..self
            },
            _ => self,
        }
    }

    /// The calls that a launch makes on this desktop, in order.
    ///
    /// The main window is always looked up. The primary monitor is queried
    /// only if the window exists, and the window is resized to the target size
    /// and then centered only if the monitor was found.
    pub open spec fn calls_of_launch(self) -> Seq<Request> {
        match (self.main_window, self.primary_monitor) {
            (None, _) => seq![Request::FindMainWindow],
            (Some(_), MonitorReport::Found(monitor)) => seq![
                Request::FindMainWindow,
                Request::PrimaryMonitor,
                Request::SetLogicalSize(target_size_of(monitor)),
                Request::Center,
            ],
            (Some(_), _) => seq![Request::FindMainWindow, Request::PrimaryMonitor],
        }
    }

    /// The desktop after a launch.
    ///
    /// With a main window and a primary monitor, the window has the target size
    /// if the platform took it, and is centered at the size it then has if the
    /// platform moved it. Without either, nothing has changed.
    pub open spec fn after_launch(self) -> Desktop {
        match (self.main_window, self.primary_monitor) {
            (Some(placement), MonitorReport::Found(monitor)) => {
                let extent = if self.accepts_resize {
                    Extent::Logical(target_size_of(monitor))
                } else {
                    placement.extent
                };
                let anchor = if self.accepts_center {
                    Anchor::Centered(extent)
                } else {
                    placement.anchor
                };
                Desktop { main_window: Some(Placement { extent, anchor }), ..self }
            },
            _ => self,
        }
    }

    /// Performs `request` and returns the answer.
    pub fn perform(&mut self, request: Request) -> (response: Response)
        ensures
            response == old(self).answer(request),
            *final(self) == old(self).after(request),
    {
        match request {
            Request::FindMainWindow => Response::MainWindow { found: self.main_window.is_some() },
            Request::PrimaryMonitor => Response::PrimaryMonitor(self.primary_monitor),
            Request::SetLogicalSize(size) => {
                match self.main_window {
                    Some(placement) => {
                        if self.accepts_resize {
                            self.main_window = Some(
                                Placement { extent: Extent::Logical(size), anchor: placement.anchor },
                            );
                        }
                        Response::SizeApplied { accepted: self.accepts_resize }
                    },
                    None => Response::SizeApplied { accepted: false },
                }
            },
            Request::Center => {
                match self.main_window {
                    Some(placement) => {
                        if self.accepts_center {
                            self.main_window = Some(
                                Placement {
                                    extent: placement.extent,
                                    anchor: Anchor::Centered(placement.extent),
                                },
                            );
                        }
                        Response::Centered { accepted: self.accepts_center }
                    },
                    None => Response::Centered { accepted: false },
                }
            },
        }
    }
}

/// Where a launch on `start` stands when the configurator is in `phase`, has
/// `step` pending, and `calls` have been made so far.
spec fn launch_state(
    start: Desktop,
    phase: Phase,
    step: Step,
    now: Desktop,
    calls: Seq<Request>,
) -> bool {
    match phase {
        Phase::NotConfigured => false,
        Phase::LocatingWindow => {
            &&& step == Step::Call(Request::FindMainWindow)
            &&& now == start
            &&& calls =~= Seq::<Request>::empty()
        },
        Phase::QueryingMonitor => {
            &&& start.main_window is Some
            &&& step == Step::Call(Request::PrimaryMonitor)
            &&& now == start
            &&& calls =~= seq![Request::FindMainWindow]
        },
        Phase::Resizing => {
            &&& start.main_window is Some
            &&& start.primary_monitor matches MonitorReport::Found(monitor)
            &&& step == Step::Call(Request::SetLogicalSize(target_size_of(monitor)))
            &&& now == start
            &&& calls =~= seq![Request::FindMainWindow, Request::PrimaryMonitor]
        },
        Phase::Centering => {
            &&& start.main_window is Some
            &&& start.primary_monitor matches MonitorReport::Found(monitor)
            &&& step == Step::Call(Request::Center)
            &&& now == start.after(Request::SetLogicalSize(target_size_of(monitor)))
            &&& calls =~= seq![
                Request::FindMainWindow,
                Request::PrimaryMonitor,
                Request::SetLogicalSize(target_size_of(monitor)),
            ]
        },
        Phase::Configured => {
            &&& step == Step::Done
            &&& now == start.after_launch()
            &&& calls =~= start.calls_of_launch()
        },
    }
}

/// Carries out one launch on `desktop`: runs a fresh configurator to its end,
/// performing each call it asks for, and returns the calls in the order in
/// which they were made.
pub fn launch(desktop: &mut Desktop) -> (calls: Vec<Request>)
    ensures
        *final(desktop) == old(desktop).after_launch(),
        calls@ == old(desktop).calls_of_launch(),
{
    let ghost start = *desktop;
    let mut configurator = Configurator::new();
    let mut calls: Vec<Request> = Vec::new();
    let mut step = configurator.begin();
    loop
        invariant
            start == *old(desktop),
            launch_state(start, configurator.phase, step, *desktop, calls@),
        decreases configurator.phase.steps_left(),
    {
        match step {
            Step::Done => {
                return calls;
            },
            Step::Call(request) => {
                let response = desktop.perform(request);
                calls.push(request);
                step = configurator.advance(response);
            },
        }
    }
}

/// Without a main window a launch asks for nothing beyond the lookup: it
/// neither queries the display nor touches a window, and the desktop stays as
/// it was.
pub proof fn lemma_missing_window_ends_launch(desktop: Desktop)
    requires
        desktop.main_window is None,
    ensures
        desktop.calls_of_launch() =~= seq![Request::FindMainWindow],
        forall|i: int|
            0 <= i < desktop.calls_of_launch().len() ==> {
                &&& !(#[trigger] desktop.calls_of_launch()[i]).queries_display()
                &&& !desktop.calls_of_launch()[i].mutates_window()
            },
        desktop.after_launch() == desktop,
{
}

/// Where the platform reports no primary monitor, or the query fails, a launch
/// makes no call that resizes or moves the window, and the window keeps the
/// size and position it had.
pub proof fn lemma_missing_monitor_leaves_window_untouched(desktop: Desktop)
    requires
        !(desktop.primary_monitor is Found),
    ensures
        forall|i: int|
            0 <= i < desktop.calls_of_launch().len() ==> !(
            #[trigger] desktop.calls_of_launch()[i]).mutates_window(),
        desktop.after_launch() == desktop,
{
}

/// With a main window, a primary monitor and a platform that goes along, a
/// launch leaves the window at seventy percent of the monitor's resolution,
/// centered at that size.
pub proof fn lemma_launch_places_window(desktop: Desktop)
    requires
        desktop.main_window is Some,
        desktop.primary_monitor is Found,
        desktop.accepts_resize,
        desktop.accepts_center,
    ensures
        desktop.after_launch().main_window == Some(
            Placement {
                extent: Extent::Logical(target_size_of(desktop.primary_monitor->Found_0)),
                anchor: Anchor::Centered(
                    Extent::Logical(target_size_of(desktop.primary_monitor->Found_0)),
                ),
            },
        ),
{
}

/// A launch is idempotent: on a desktop whose monitor and platform have not
/// changed, a second launch makes the same calls as the first and leaves the
/// window with the size and position that the first gave it.
pub proof fn lemma_launch_is_idempotent(desktop: Desktop)
    ensures
        desktop.after_launch().calls_of_launch() == desktop.calls_of_launch(),
        desktop.after_launch().after_launch() == desktop.after_launch(),
{
}

/// The calls of a launch are computed from what the desktop reports at that
/// moment, never from the placement an earlier launch left behind.
pub proof fn lemma_calls_ignore_placement(desktop: Desktop, placement: Placement)
    requires
        desktop.main_window is Some,
    ensures
        (Desktop { main_window: Some(placement), ..desktop }).calls_of_launch()
            == desktop.calls_of_launch(),
{
}

} // verus!
