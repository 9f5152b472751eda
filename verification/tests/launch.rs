use startup_window::desktop::{launch, Anchor, Desktop, Extent, Placement};
use startup_window::geometry::{MonitorGeometry, WindowSize};
use startup_window::protocol::{MonitorReport, Request, Response};

fn monitor(width: u32, height: u32) -> MonitorReport {
    MonitorReport::Found(MonitorGeometry { width, height })
}

fn fresh_desktop(primary_monitor: MonitorReport) -> Desktop {
    Desktop {
        main_window: Some(Placement::new()),
        primary_monitor,
        accepts_resize: true,
        accepts_center: true,
    }
}

fn sample_desktops() -> Vec<Desktop> {
    let windows = [
        None,
        Some(Placement::new()),
        Some(Placement {
            extent: Extent::Logical(WindowSize { width: 800, height: 600 }),
            anchor: Anchor::FrameworkDefault,
        }),
        Some(Placement {
            extent: Extent::Logical(WindowSize { width: 1344, height: 756 }),
            anchor: Anchor::Centered(Extent::Logical(WindowSize { width: 800, height: 600 })),
        }),
    ];
    let monitors = [
        MonitorReport::QueryFailed,
        MonitorReport::NoPrimaryMonitor,
        monitor(1920, 1080),
        monitor(2560, 1440),
    ];
    let mut desktops = Vec::new();
    for main_window in windows {
        for primary_monitor in monitors {
            for accepts_resize in [true, false] {
                for accepts_center in [true, false] {
                    desktops.push(Desktop {
                        main_window,
                        primary_monitor,
                        accepts_resize,
                        accepts_center,
                    });
                }
            }
        }
    }
    desktops
}

#[test]
fn new_placement_is_the_framework_default() {
    assert_eq!(
        Placement::new(),
        Placement { extent: Extent::FrameworkDefault, anchor: Anchor::FrameworkDefault }
    );
}

#[test]
fn launch_on_full_hd_resizes_then_centers() {
    let mut desktop = fresh_desktop(monitor(1920, 1080));
    let calls = launch(&mut desktop);
    let size = WindowSize { width: 1344, height: 756 };
    assert_eq!(
        calls,
        vec![
            Request::FindMainWindow,
            Request::PrimaryMonitor,
            Request::SetLogicalSize(size),
            Request::Center,
        ]
    );
    assert_eq!(
        desktop.main_window,
        Some(Placement {
            extent: Extent::Logical(size),
            anchor: Anchor::Centered(Extent::Logical(size)),
        })
    );
    assert_eq!(desktop.primary_monitor, monitor(1920, 1080));
}

#[test]
fn launch_on_quad_hd_applies_1792_by_1008() {
    let mut desktop = fresh_desktop(monitor(2560, 1440));
    let calls = launch(&mut desktop);
    let size = WindowSize { width: 1792, height: 1008 };
    assert_eq!(calls[2], Request::SetLogicalSize(size));
    assert_eq!(
        desktop.main_window,
        Some(Placement {
            extent: Extent::Logical(size),
            anchor: Anchor::Centered(Extent::Logical(size)),
        })
    );
}

#[test]
fn launch_without_primary_monitor_keeps_the_default_placement() {
    let mut desktop = fresh_desktop(MonitorReport::NoPrimaryMonitor);
    let before = desktop;
    let calls = launch(&mut desktop);
    assert_eq!(calls, vec![Request::FindMainWindow, Request::PrimaryMonitor]);
    assert_eq!(desktop, before);
    assert_eq!(desktop.main_window, Some(Placement::new()));
}

#[test]
fn launch_with_failed_monitor_query_keeps_the_default_placement() {
    let mut desktop = fresh_desktop(MonitorReport::QueryFailed);
    let before = desktop;
    let calls = launch(&mut desktop);
    assert_eq!(calls, vec![Request::FindMainWindow, Request::PrimaryMonitor]);
    assert_eq!(desktop, before);
}

#[test]
fn launch_without_main_window_only_looks_for_it() {
    for primary_monitor in
        [MonitorReport::QueryFailed, MonitorReport::NoPrimaryMonitor, monitor(1920, 1080)]
    {
        let mut desktop = Desktop {
            main_window: None,
            primary_monitor,
            accepts_resize: true,
            accepts_center: true,
        };
        let before = desktop;
        let calls = launch(&mut desktop);
        assert_eq!(calls, vec![Request::FindMainWindow]);
        assert_eq!(desktop, before);
    }
}

#[test]
fn launch_without_monitor_makes_no_mutating_call() {
    for mut desktop in sample_desktops() {
        if matches!(desktop.primary_monitor, MonitorReport::Found(_)) {
            continue;
        }
        let before = desktop;
        let calls = launch(&mut desktop);
        for call in calls {
            assert!(!matches!(call, Request::SetLogicalSize(_) | Request::Center));
        }
        assert_eq!(desktop, before);
    }
}

#[test]
fn launch_twice_is_launch_once() {
    for start in sample_desktops() {
        let mut once = start;
        let first_calls = launch(&mut once);
        let mut twice = once;
        let second_calls = launch(&mut twice);
        assert_eq!(twice, once, "starting from {:?}", start);
        assert_eq!(second_calls, first_calls, "starting from {:?}", start);
    }
}

#[test]
fn launch_recomputes_the_size_from_the_monitor() {
    let mut desktop = Desktop {
        main_window: Some(Placement {
            extent: Extent::Logical(WindowSize { width: 800, height: 600 }),
            anchor: Anchor::Centered(Extent::Logical(WindowSize { width: 800, height: 600 })),
        }),
        primary_monitor: monitor(2560, 1440),
        accepts_resize: true,
        accepts_center: true,
    };
    launch(&mut desktop);
    let size = WindowSize { width: 1792, height: 1008 };
    assert_eq!(
        desktop.main_window,
        Some(Placement {
            extent: Extent::Logical(size),
            anchor: Anchor::Centered(Extent::Logical(size)),
        })
    );
}

#[test]
fn rejected_resize_is_swallowed_and_the_window_still_centered() {
    let mut desktop = fresh_desktop(monitor(1920, 1080));
    desktop.accepts_resize = false;
    let calls = launch(&mut desktop);
    assert_eq!(calls.len(), 4);
    assert_eq!(calls[3], Request::Center);
    assert_eq!(
        desktop.main_window,
        Some(Placement {
            extent: Extent::FrameworkDefault,
            anchor: Anchor::Centered(Extent::FrameworkDefault),
        })
    );
}

#[test]
fn rejected_centering_is_swallowed_and_the_size_kept() {
    let mut desktop = fresh_desktop(monitor(1920, 1080));
    desktop.accepts_center = false;
    let calls = launch(&mut desktop);
    assert_eq!(calls.len(), 4);
    assert_eq!(
        desktop.main_window,
        Some(Placement {
            extent: Extent::Logical(WindowSize { width: 1344, height: 756 }),
            anchor: Anchor::FrameworkDefault,
        })
    );
}

#[test]
fn desktop_answers_the_lookup_and_the_query_without_changing() {
    for mut desktop in sample_desktops() {
        let before = desktop;
        assert_eq!(
            desktop.perform(Request::FindMainWindow),
            Response::MainWindow { found: before.main_window.is_some() }
        );
        assert_eq!(desktop, before);
        assert_eq!(
            desktop.perform(Request::PrimaryMonitor),
            Response::PrimaryMonitor(before.primary_monitor)
        );
        assert_eq!(desktop, before);
    }
}

#[test]
fn desktop_applies_a_size_only_to_a_window_that_takes_it() {
    let size = WindowSize { width: 640, height: 480 };
    for mut desktop in sample_desktops() {
        let before = desktop;
        let response = desktop.perform(Request::SetLogicalSize(size));
        match before.main_window {
            Some(placement) if before.accepts_resize => {
                assert_eq!(response, Response::SizeApplied { accepted: true });
                assert_eq!(
                    desktop.main_window,
                    Some(Placement { extent: Extent::Logical(size), anchor: placement.anchor })
                );
            }
            _ => {
                assert_eq!(response, Response::SizeApplied { accepted: false });
                assert_eq!(desktop.main_window, before.main_window);
            }
        }
        assert_eq!(desktop.primary_monitor, before.primary_monitor);
        assert_eq!(desktop.accepts_resize, before.accepts_resize);
        assert_eq!(desktop.accepts_center, before.accepts_center);
    }
}

#[test]
fn desktop_centers_only_a_window_that_moves() {
    for mut desktop in sample_desktops() {
        let before = desktop;
        let response = desktop.perform(Request::Center);
        match before.main_window {
            Some(placement) if before.accepts_center => {
                assert_eq!(response, Response::Centered { accepted: true });
                assert_eq!(
                    desktop.main_window,
                    Some(Placement {
                        extent: placement.extent,
                        anchor: Anchor::Centered(placement.extent),
                    })
                );
            }
            _ => {
                assert_eq!(response, Response::Centered { accepted: false });
                assert_eq!(desktop.main_window, before.main_window);
            }
        }
        assert_eq!(desktop.primary_monitor, before.primary_monitor);
    }
}
