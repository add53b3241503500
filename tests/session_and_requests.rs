use lulu::request::{diagnostic_verdict, instance_request, queue_request, sink_filter, QueueRequest};
use lulu::session::{Extent, Reaction, Session, WindowEvent};

#[test]
fn resize_updates_extent_only() {
    let mut s = Session::new(1280, 720);
    assert_eq!(s.handle(WindowEvent::Resized(800, 600)), Reaction::Wait);
    assert_eq!(s.extent, Extent { width: 800, height: 600 });
    assert!(s.running);
}

#[test]
fn close_terminates_and_ignores_later_events() {
    let mut s = Session::new(1280, 720);
    assert_eq!(s.handle(WindowEvent::CloseRequested), Reaction::Exit);
    assert!(!s.running);
    assert_eq!(s.handle(WindowEvent::Resized(1, 1)), Reaction::Exit);
    assert_eq!(s.extent, Extent { width: 1280, height: 720 });
}

#[test]
fn redraw_and_other_events_keep_running() {
    let mut s = Session::new(10, 20);
    assert_eq!(s.handle(WindowEvent::RedrawRequested), Reaction::Redraw);
    assert_eq!(s.handle(WindowEvent::Other), Reaction::Wait);
    assert_eq!(s, Session::new(10, 20));
}

#[test]
fn dispatch_stops_after_close() {
    let mut s = Session::new(1280, 720);
    let events = vec![
        WindowEvent::Resized(800, 600),
        WindowEvent::CloseRequested,
        WindowEvent::Resized(1, 1),
    ];
    assert_eq!(s.dispatch(&events), 2);
    assert!(!s.running);
    assert_eq!(s.extent, Extent { width: 800, height: 600 });

    let mut t = Session::new(1, 1);
    assert_eq!(t.dispatch(&vec![WindowEvent::Other, WindowEvent::Resized(3, 4)]), 2);
    assert!(t.running);
    assert_eq!(t.extent, Extent { width: 3, height: 4 });
}

#[test]
fn instance_request_adds_debug_utils_and_validation() {
    let window = vec!["VK_KHR_surface".to_string(), "VK_KHR_xlib_surface".to_string()];
    let r = instance_request(window);
    assert_eq!(r.api_version, 1 << 22);
    assert_eq!(
        r.extensions,
        vec![
            "VK_KHR_surface".to_string(),
            "VK_KHR_xlib_surface".to_string(),
            "VK_EXT_debug_utils".to_string()
        ]
    );
    assert_eq!(r.layers, vec!["VK_LAYER_KHRONOS_validation".to_string()]);
}

#[test]
fn sink_filter_is_warning_and_error_of_all_kinds() {
    let f = sink_filter();
    assert_eq!(f.severities, 0x100 | 0x1000);
    assert_eq!(f.kinds, 0b111);
}

#[test]
fn diagnostic_verdict_never_aborts() {
    for severity in [0x100u32, 0x1000, 0x1100] {
        for kinds in 1u32..8 {
            assert_eq!(diagnostic_verdict(severity, kinds), 0);
        }
    }
}

#[test]
fn one_queue_from_chosen_family() {
    assert_eq!(queue_request(2), QueueRequest { family: 2, count: 1 });
}
