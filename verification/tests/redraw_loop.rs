//! Exercises the redraw loop end to end: identifier stability, the
//! draw-if-changed gate, forced redraws, exit determinism, update
//! coalescing, and the emitted scene's declared properties.

use hello_canvas::event::{
    convert_event, event_forces_redraw, event_requests_exit, KeyCode, PlatformEvent, UiEvent,
};
use hello_canvas::glue::{dispatch, run_loop, Control, Event};
use hello_canvas::ids::{Generator, Ids};
use hello_canvas::render::Display;
use hello_canvas::scene::{Color, Primitive, Rect, Widget};
use hello_canvas::state::{create_ui, App};

fn fresh_app() -> App {
    App::new(Display::new(640, 480, "the-conrod-application", true, 4))
}

#[test]
fn generator_counts_monotonically() {
    let mut gen = Generator::new();
    let a = gen.next();
    let b = gen.next();
    let c = gen.next();
    assert_eq!(a.index, 0);
    assert_eq!(b.index, 1);
    assert_eq!(c.index, 2);
}

#[test]
fn ids_are_two_distinct_identifiers() {
    let mut gen = Generator::new();
    let ids = Ids::new(&mut gen);
    assert_ne!(ids.root, ids.label);
    assert_eq!(gen.next_index, 2);
}

#[test]
fn app_construction_sizes_ui_to_surface() {
    let app = fresh_app();
    assert_eq!(app.ui.width, 640);
    assert_eq!(app.ui.height, 480);
    assert_eq!(app.ids.root.index, 0);
    assert_eq!(app.ids.label.index, 1);
    assert_eq!(app.image_map.len, 0);
    assert!(app.display.presented.is_none());
}

#[test]
fn scene_builder_uses_only_the_registry_identifiers() {
    let mut app = fresh_app();
    let ids_before = app.ids;
    create_ui(&mut app);
    assert_eq!(app.ui.staged.len(), 2);
    assert_eq!(app.ui.staged[0].id, ids_before.root);
    assert_eq!(app.ui.staged[1].id, ids_before.label);
    assert_eq!(app.ids, ids_before);
    // A second frame stages the same two identifiers again.
    create_ui(&mut app);
    assert_eq!(app.ui.staged.len(), 2);
    assert_eq!(app.ui.staged[0].id, ids_before.root);
    assert_eq!(app.ui.staged[1].id, ids_before.label);
    assert_eq!(app.ui.id_gen.next_index, 2);
}

#[test]
fn identifiers_stable_across_dispatched_events() {
    let mut app = fresh_app();
    let ids_before = app.ids;
    let mut control = Control::new();
    dispatch(&mut app, &mut control, Event::Platform(PlatformEvent::CursorMoved { x: 3, y: 4 }));
    dispatch(&mut app, &mut control, Event::UpdateUi);
    dispatch(
        &mut app,
        &mut control,
        Event::Platform(PlatformEvent::Resized { width: 800, height: 600 }),
    );
    dispatch(&mut app, &mut control, Event::UpdateUi);
    assert_eq!(app.ids, ids_before);
    assert_eq!(app.ui.id_gen.next_index, 2);
}

#[test]
fn second_unchanged_scene_draws_nothing() {
    let mut app = fresh_app();
    create_ui(&mut app);
    assert!(app.ui.draw_if_changed().is_some());
    create_ui(&mut app);
    assert!(app.ui.draw_if_changed().is_none());
}

#[test]
fn input_that_changes_no_content_draws_nothing() {
    let mut app = fresh_app();
    create_ui(&mut app);
    assert!(app.ui.draw_if_changed().is_some());
    app.ui.handle_event(UiEvent::Motion { x: 10, y: 20 });
    create_ui(&mut app);
    assert!(app.ui.draw_if_changed().is_none());
}

#[test]
fn refresh_forces_redraw_of_unchanged_content() {
    let mut app = fresh_app();
    create_ui(&mut app);
    assert!(app.ui.draw_if_changed().is_some());
    let mut control = Control::new();
    dispatch(&mut app, &mut control, Event::Platform(PlatformEvent::Refresh));
    assert!(control.update_requested);
    create_ui(&mut app);
    assert!(app.ui.draw_if_changed().is_some());
}

#[test]
fn resize_forces_redraw_and_relayout() {
    let mut app = fresh_app();
    create_ui(&mut app);
    assert!(app.ui.draw_if_changed().is_some());
    let mut control = Control::new();
    dispatch(
        &mut app,
        &mut control,
        Event::Platform(PlatformEvent::Resized { width: 800, height: 600 }),
    );
    create_ui(&mut app);
    let prims = app.ui.draw_if_changed().expect("a resize must reopen the draw gate");
    match &prims[0] {
        Primitive::Rectangle { rect, .. } => {
            assert_eq!(*rect, Rect { x: 0, y: 0, width: 800, height: 600 });
        }
        other => panic!("expected the root rectangle first, got {:?}", other),
    }
}

#[test]
fn awakened_forces_redraw() {
    let mut app = fresh_app();
    create_ui(&mut app);
    assert!(app.ui.draw_if_changed().is_some());
    let mut control = Control::new();
    dispatch(&mut app, &mut control, Event::Platform(PlatformEvent::Awakened));
    assert!(control.update_requested);
    create_ui(&mut app);
    assert!(app.ui.draw_if_changed().is_some());
}

#[test]
fn escape_ends_the_loop_and_nothing_follows() {
    let mut app = fresh_app();
    let events = vec![
        PlatformEvent::CursorMoved { x: 1, y: 2 },
        PlatformEvent::KeyboardInput { key: Some(KeyCode::Escape) },
        PlatformEvent::CursorMoved { x: 5, y: 6 },
        PlatformEvent::Refresh,
    ];
    let trace = run_loop(&mut app, &events);
    assert_eq!(
        trace,
        vec![
            Event::Platform(PlatformEvent::CursorMoved { x: 1, y: 2 }),
            Event::UpdateUi,
            Event::Platform(PlatformEvent::KeyboardInput { key: Some(KeyCode::Escape) }),
        ]
    );
}

#[test]
fn window_close_ends_the_loop() {
    let mut app = fresh_app();
    let events = vec![PlatformEvent::Closed, PlatformEvent::Refresh];
    let trace = run_loop(&mut app, &events);
    assert_eq!(trace, vec![Event::Platform(PlatformEvent::Closed)]);
}

#[test]
fn unrecognized_events_request_no_update() {
    let mut app = fresh_app();
    let events = vec![
        PlatformEvent::Other,
        PlatformEvent::KeyboardInput { key: None },
    ];
    let trace = run_loop(&mut app, &events);
    assert_eq!(
        trace,
        vec![
            Event::Platform(PlatformEvent::Other),
            Event::Platform(PlatformEvent::KeyboardInput { key: None }),
        ]
    );
}

#[test]
fn repeated_update_requests_coalesce() {
    let mut control = Control::new();
    control.needs_update();
    let once = control;
    control.needs_update();
    control.needs_update();
    assert_eq!(control, once);
}

#[test]
fn trace_never_has_two_consecutive_updates() {
    let mut app = fresh_app();
    let events = vec![
        PlatformEvent::CursorMoved { x: 1, y: 1 },
        PlatformEvent::Resized { width: 700, height: 500 },
        PlatformEvent::Refresh,
        PlatformEvent::CursorMoved { x: 2, y: 2 },
    ];
    let trace = run_loop(&mut app, &events);
    assert_eq!(trace.len(), 8);
    for pair in trace.windows(2) {
        assert!(
            !(pair[0] == Event::UpdateUi && pair[1] == Event::UpdateUi),
            "two consecutive update events in {:?}",
            trace
        );
    }
}

#[test]
fn end_to_end_scene_on_640_by_480() {
    let mut app = fresh_app();
    let mut control = Control::new();
    dispatch(&mut app, &mut control, Event::UpdateUi);
    let presented = app.display.presented.clone().expect("the first update must present");
    assert_eq!(
        presented,
        vec![
            Primitive::Rectangle {
                id: app.ids.root,
                color: Color::Grey,
                rect: Rect { x: 0, y: 0, width: 640, height: 480 },
                border: 0,
            },
            Primitive::Text {
                id: app.ids.label,
                text: String::from("hello"),
                color: Color::Black,
                x: 320,
                y: 240,
            },
        ]
    );
}

#[test]
fn label_is_centered_in_its_parent_canvas() {
    let mut app = fresh_app();
    create_ui(&mut app);
    match &app.ui.staged[1].widget {
        Widget::Text(t) => {
            assert_eq!(t.text, "hello");
            assert_eq!(t.color, Color::Black);
            assert_eq!(
                t.position,
                hello_canvas::scene::Position::MiddleOf(app.ids.root)
            );
        }
        other => panic!("expected the label second, got {:?}", other),
    }
}

#[test]
fn meaningful_events_translate_for_the_gui() {
    assert_eq!(
        convert_event(&PlatformEvent::KeyboardInput { key: Some(KeyCode::Other) }),
        Some(UiEvent::Press { key: KeyCode::Other })
    );
    assert_eq!(
        convert_event(&PlatformEvent::CursorMoved { x: -4, y: 11 }),
        Some(UiEvent::Motion { x: -4, y: 11 })
    );
    assert_eq!(
        convert_event(&PlatformEvent::Resized { width: 2, height: 3 }),
        Some(UiEvent::WindowResized { width: 2, height: 3 })
    );
    assert_eq!(convert_event(&PlatformEvent::KeyboardInput { key: None }), None);
    assert_eq!(convert_event(&PlatformEvent::Closed), None);
    assert_eq!(convert_event(&PlatformEvent::Refresh), None);
    assert_eq!(convert_event(&PlatformEvent::Awakened), None);
    assert_eq!(convert_event(&PlatformEvent::Other), None);
}

#[test]
fn exit_and_redraw_classification() {
    assert!(event_requests_exit(&PlatformEvent::KeyboardInput { key: Some(KeyCode::Escape) }));
    assert!(event_requests_exit(&PlatformEvent::Closed));
    assert!(!event_requests_exit(&PlatformEvent::KeyboardInput { key: Some(KeyCode::Other) }));
    assert!(!event_requests_exit(&PlatformEvent::Refresh));

    assert!(event_forces_redraw(&PlatformEvent::Refresh));
    assert!(event_forces_redraw(&PlatformEvent::Resized { width: 1, height: 1 }));
    assert!(event_forces_redraw(&PlatformEvent::Awakened));
    assert!(!event_forces_redraw(&PlatformEvent::Closed));
    assert!(!event_forces_redraw(&PlatformEvent::CursorMoved { x: 0, y: 0 }));
}

#[test]
fn cursor_motion_is_ingested_by_the_ui() {
    let mut app = fresh_app();
    let mut control = Control::new();
    dispatch(&mut app, &mut control, Event::Platform(PlatformEvent::CursorMoved { x: 7, y: 9 }));
    assert!(control.update_requested);
    assert!(!control.exit_requested);
    assert_eq!(app.ui.input, vec![UiEvent::Motion { x: 7, y: 9 }]);
}

#[test]
fn resize_updates_the_ui_dimensions() {
    let mut app = fresh_app();
    let mut control = Control::new();
    dispatch(
        &mut app,
        &mut control,
        Event::Platform(PlatformEvent::Resized { width: 1024, height: 768 }),
    );
    assert_eq!(app.ui.width, 1024);
    assert_eq!(app.ui.height, 768);
    assert!(app.ui.redraw_forced);
}
