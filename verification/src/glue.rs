//! The event-loop glue and the top-level dispatch: the loop produces one
//! synthetic event per iteration — a platform event, or an update request
//! manufactured when a handler asked for one — and the dispatch step
//! translates platform events for the GUI, decides exit and forced
//! redraws, and runs the scene builder and renderer on update events.

use vstd::prelude::*;

use crate::event::{
    convert_event, event_forces_redraw, event_requests_exit, forces_redraw, is_exit_event,
    requests_update, translation_of, PlatformEvent,
};
use crate::state::{create_ui, scene_for, App, AppModel};
use crate::ui::{ui_handle_event, ui_wants_draw, UiModel};

verus! {

/// One synthetic event of the loop glue: a platform event passed through,
/// or a manufactured request to update the UI.
#[derive(Clone, Copy, PartialEq, Eq, Structural, Debug)]
pub enum Event {
    Platform(PlatformEvent),
    UpdateUi,
}

/// The loop control handle a handler may mutate: whether another update
/// pass was requested, and whether the loop should terminate.
#[derive(Clone, Copy, PartialEq, Eq, Structural, Debug)]
pub struct Control {
    pub update_requested: bool,
    pub exit_requested: bool,
}

/// The control handle with an update pass requested.
pub open spec fn control_with_update(c: Control) -> Control {
    Control { update_requested: true, ..c }
}

impl Control {
    /// A fresh handle: no update requested, no exit requested.
    pub fn new() -> (c: Control)
        ensures
            !c.update_requested,
            !c.exit_requested,
    {
        Control { update_requested: false, exit_requested: false }
    }

    /// Requests that another update event be produced promptly. Requesting
    /// repeatedly has the same effect as requesting once.
    pub fn needs_update(&mut self)
        ensures
            *final(self) == control_with_update(*old(self)),
    {
        self.update_requested = true;
    }

    /// Requests loop termination: no further events are produced after the
    /// current handler invocation completes.
    pub fn exit(&mut self)
        ensures
            final(self).exit_requested,
            final(self).update_requested == old(self).update_requested,
    {
        self.exit_requested = true;
    }
}

/// The runtime state after dispatching one platform event: the event is
/// ingested if it translates for the GUI, and a full redraw is forced if
/// the event demands one.
pub open spec fn ui_after_platform(u: UiModel, e: PlatformEvent) -> UiModel {
    let u1 = match translation_of(e) {
        Some(ue) => ui_handle_event(u, ue),
        None => u,
    };
    if forces_redraw(e) {
        UiModel { redraw_forced: true, ..u1 }
    } else {
        u1
    }
}

/// The application state after one update event: the scene is rebuilt, and
/// exactly when the draw gate opens, the laid-out primitives are filled
/// into the renderer, drawn, and presented on the surface.
pub open spec fn app_after_update(a: AppModel) -> AppModel {
    let u1 = UiModel { staged: scene_for(a.ids), ..a.ui };
    if ui_wants_draw(u1) {
        let prims = crate::scene::layout(u1.staged, u1.width, u1.height);
        AppModel {
            ui: UiModel { drawn: Some(prims), redraw_forced: false, ..u1 },
            display: crate::render::DisplayModel { presented: Some(prims), ..a.display },
            renderer: prims,
            ..a
        }
    } else {
        AppModel { ui: u1, ..a }
    }
}

/// The application state after dispatching one synthetic event.
pub open spec fn step_app(a: AppModel, ev: Event) -> AppModel {
    match ev {
        Event::Platform(e) => AppModel { ui: ui_after_platform(a.ui, e), ..a },
        Event::UpdateUi => app_after_update(a),
    }
}

/// The control handle after dispatching one synthetic event: a platform
/// event that is meaningful to the GUI or forces a redraw requests an
/// update, and an exit event requests termination.
pub open spec fn step_control(c: Control, ev: Event) -> Control {
    match ev {
        Event::Platform(e) => Control {
            update_requested: c.update_requested || requests_update(e),
            exit_requested: c.exit_requested || is_exit_event(e),
        },
        Event::UpdateUi => c,
    }
}

/// Dispatches one synthetic event against the application state and the
/// loop control handle: the main loop body.
pub fn dispatch(app: &mut App, control: &mut Control, event: Event)
    ensures
        final(app)@ == step_app(old(app)@, event),
        *final(control) == step_control(*old(control), event),
{
    match event {
        Event::Platform(e) => {
            // Pass the event on to the GUI runtime if it is meaningful to it.
            if let Some(ui_event) = convert_event(&e) {
                app.ui.handle_event(ui_event);
                control.needs_update();
            }
            if event_requests_exit(&e) {
                // Escape was pressed or the window was closed: leave the loop.
                control.exit();
            } else if event_forces_redraw(&e) {
                // The window was resized, refreshed, or awakened: redraw the
                // contents even if they are unchanged.
                app.ui.needs_redraw();
                control.needs_update();
            }
            proof {
                assert(app@ =~~= step_app(old(app)@, event));
                assert(*control =~~= step_control(*old(control), event));
            }
        },
        Event::UpdateUi => {
            create_ui(app);

            if let Some(primitives) = app.ui.draw_if_changed() {
                let mut target = app.display.draw();

                app.renderer.fill(&app.display, primitives, &app.image_map);

                app.renderer.draw(&app.display, &mut target, &app.image_map);

                target.finish(&mut app.display);
            }
            proof {
                assert(app@ =~~= step_app(old(app)@, event));
            }
        },
    }
}

/// The application state after dispatching a sequence of synthetic events
/// in order.
pub open spec fn run_state(a: AppModel, t: Seq<Event>) -> AppModel
    decreases t.len(),
{
    if t.len() == 0 {
        a
    } else {
        run_state(step_app(a, t[0]), t.drop_first())
    }
}

/// The synthetic events the loop dispatches for a platform event stream:
/// each platform event in order, an update event right after each one that
/// requested an update, and nothing at all after the first exit event.
pub open spec fn loop_trace(events: Seq<PlatformEvent>) -> Seq<Event>
    decreases events.len(),
{
    if events.len() == 0 {
        Seq::empty()
    } else {
        let e = events[0];
        if is_exit_event(e) {
            seq![Event::Platform(e)]
        } else if requests_update(e) {
            seq![Event::Platform(e), Event::UpdateUi] + loop_trace(events.drop_first())
        } else {
            seq![Event::Platform(e)] + loop_trace(events.drop_first())
        }
    }
}

/// Appending one event to a dispatched sequence steps the resulting state
/// once more.
pub proof fn lemma_run_state_push(a: AppModel, t: Seq<Event>, ev: Event)
    ensures
        run_state(a, t.push(ev)) == step_app(run_state(a, t), ev),
    decreases t.len(),
{
    if t.len() == 0 {
        assert(run_state(a, t) == a);
        assert(t.push(ev)[0] == ev);
        assert(t.push(ev).drop_first() =~= Seq::<Event>::empty());
        assert(run_state(a, t.push(ev)) == run_state(
            step_app(a, ev),
            Seq::<Event>::empty(),
        ));
        assert(run_state(step_app(a, ev), Seq::<Event>::empty()) == step_app(a, ev));
    } else {
        assert(t.push(ev)[0] == t[0]);
        assert(t.push(ev).drop_first() =~= t.drop_first().push(ev));
        assert(run_state(a, t.push(ev)) == run_state(
            step_app(a, t[0]),
            t.drop_first().push(ev),
        ));
        assert(run_state(a, t) == run_state(step_app(a, t[0]), t.drop_first()));
        lemma_run_state_push(step_app(a, t[0]), t.drop_first(), ev);
    }
}

/// Runs the cooperative loop to completion over a platform event stream:
/// dispatches exactly the events of `loop_trace`, in order, against the
/// application state, and returns them. The loop stops after the first
/// exit event, or when the stream is exhausted.
pub fn run_loop(app: &mut App, platform_events: &Vec<PlatformEvent>) -> (trace: Vec<Event>)
    ensures
        trace@ == loop_trace(platform_events@),
        final(app)@ == run_state(old(app)@, loop_trace(platform_events@)),
{
    let ghost evs = platform_events@;
    let mut control = Control::new();
    let mut trace: Vec<Event> = Vec::new();
    let mut i: usize = 0;
    proof {
        assert(evs.skip(0) =~= evs);
        assert(trace@ + loop_trace(evs) =~= loop_trace(evs));
    }
    while i < platform_events.len()
        invariant
            i <= evs.len(),
            evs == platform_events@,
            !control.update_requested,
            !control.exit_requested,
            loop_trace(evs) == trace@ + loop_trace(evs.skip(i as int)),
            app@ == run_state(old(app)@, trace@),
        decreases evs.len() - i,
    {
        proof {
            assert(evs.skip(i as int)[0] == evs[i as int]);
            assert(evs.skip(i as int).drop_first() =~= evs.skip(i as int + 1));
        }
        let e = platform_events[i];
        let ghost trace_before = trace@;

        dispatch(app, &mut control, Event::Platform(e));
        trace.push(Event::Platform(e));
        proof {
            lemma_run_state_push(old(app)@, trace_before, Event::Platform(e));
        }

        if control.exit_requested {
            // The handler asked to leave: stop producing events.
            proof {
                assert(is_exit_event(e));
                assert(loop_trace(evs.skip(i as int)) == seq![Event::Platform(e)]);
                assert(trace@ =~= trace_before.push(Event::Platform(e)));
                assert(loop_trace(evs) =~= trace@);
            }
            return trace;
        }

        if control.update_requested {
            // Coalesce however many requests the handler made into one
            // update event, delivered before the next platform event.
            control.update_requested = false;
            let ghost trace_mid = trace@;
            dispatch(app, &mut control, Event::UpdateUi);
            trace.push(Event::UpdateUi);
            proof {
                lemma_run_state_push(old(app)@, trace_mid, Event::UpdateUi);
                assert(requests_update(e));
                assert(loop_trace(evs.skip(i as int)) == seq![
                    Event::Platform(e),
                    Event::UpdateUi,
                ] + loop_trace(evs.skip(i as int + 1)));
                assert(trace@ =~= trace_before + seq![Event::Platform(e), Event::UpdateUi]);
                assert(loop_trace(evs) =~= trace@ + loop_trace(evs.skip(i as int + 1)));
            }
        } else {
            proof {
                assert(!requests_update(e));
                assert(loop_trace(evs.skip(i as int)) == seq![Event::Platform(e)]
                    + loop_trace(evs.skip(i as int + 1)));
                assert(trace@ =~= trace_before + seq![Event::Platform(e)]);
                assert(loop_trace(evs) =~= trace@ + loop_trace(evs.skip(i as int + 1)));
            }
        }
        i = i + 1;
    }
    proof {
        assert(evs.skip(i as int).len() == 0);
        assert(loop_trace(evs.skip(i as int)) =~= Seq::<Event>::empty());
        assert(loop_trace(evs) =~= trace@);
    }
    trace
}

} // verus!
