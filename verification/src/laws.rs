//! The behavioral laws of the redraw loop, proved over the dispatch model:
//! identifier stability, redraw-gating idempotence, forced redraws, exit
//! determinism, and update coalescing.

use vstd::prelude::*;

use crate::event::{is_exit_event, requests_update, PlatformEvent};
use crate::glue::{
    app_after_update, control_with_update, loop_trace, run_state, step_app, Control, Event,
};
use crate::scene::layout;
use crate::state::{scene_for, AppModel};
use crate::ui::{ui_wants_draw, UiModel};

verus! {

/// Identifier stability: the scene staged every frame references exactly
/// the registry's two identifiers, and no dispatched event ever changes
/// the registry or allocates a new identifier from the generator.
pub proof fn lemma_identifier_stability(a: AppModel, t: Seq<Event>)
    ensures
        run_state(a, t).ids == a.ids,
        run_state(a, t).ui.next_id == a.ui.next_id,
        forall|i: int|
            0 <= i < scene_for(a.ids).len() ==> ((#[trigger] scene_for(a.ids)[i]).id
                == a.ids.root || scene_for(a.ids)[i].id == a.ids.label),
    decreases t.len(),
{
    if t.len() > 0 {
        assert(step_app(a, t[0]).ids == a.ids);
        assert(step_app(a, t[0]).ui.next_id == a.ui.next_id);
        lemma_identifier_stability(step_app(a, t[0]), t.drop_first());
    }
}

/// Redraw-gating idempotence: right after an update pass, a second update
/// pass with no intervening state change finds the draw gate closed and
/// leaves the application exactly as it was.
pub proof fn lemma_redraw_gating_idempotent(a: AppModel)
    ensures
        !ui_wants_draw(
            (UiModel {
                staged: scene_for(step_app(a, Event::UpdateUi).ids),
                ..step_app(a, Event::UpdateUi).ui
            }),
        ),
        step_app(step_app(a, Event::UpdateUi), Event::UpdateUi) == step_app(
            a,
            Event::UpdateUi,
        ),
{
    let a1 = step_app(a, Event::UpdateUi);
    let u1 = UiModel { staged: scene_for(a.ids), ..a.ui };
    let u2 = UiModel { staged: scene_for(a1.ids), ..a1.ui };
    assert(a1.ids == a.ids);
    assert(u2 =~~= a1.ui);
    if ui_wants_draw(u1) {
        assert(a1.ui.drawn == Some(layout(scene_for(a.ids), a.ui.width, a.ui.height)));
        assert(!ui_wants_draw(u2));
    } else {
        assert(a1.ui =~~= u1);
        assert(!ui_wants_draw(u2));
    }
    assert(app_after_update(a1) =~~= a1);
}

/// Forced redraw: after a platform event that forces a redraw, the next
/// update pass draws and presents the scene's primitives even if the
/// content is unchanged.
pub proof fn lemma_forced_redraw(a: AppModel, e: PlatformEvent)
    requires
        crate::event::forces_redraw(e),
    ensures
        step_app(a, Event::Platform(e)).ui.redraw_forced,
        ui_wants_draw(
            (UiModel {
                staged: scene_for(step_app(a, Event::Platform(e)).ids),
                ..step_app(a, Event::Platform(e)).ui
            }),
        ),
        step_app(step_app(a, Event::Platform(e)), Event::UpdateUi).display.presented == Some(
            layout(
                scene_for(step_app(a, Event::Platform(e)).ids),
                step_app(a, Event::Platform(e)).ui.width,
                step_app(a, Event::Platform(e)).ui.height,
            ),
        ),
{
    let a1 = step_app(a, Event::Platform(e));
    let u2 = UiModel { staged: scene_for(a1.ids), ..a1.ui };
    assert(a1.ui.redraw_forced);
    assert(ui_wants_draw(u2));
}

/// Exit determinism: once the first exit event in the stream is
/// dispatched, the loop issues no further events — the trace is exactly
/// the trace of the stream up to and including that event, and ends with
/// it.
pub proof fn lemma_exit_determinism(events: Seq<PlatformEvent>, i: int)
    requires
        0 <= i < events.len(),
        is_exit_event(events[i]),
        forall|j: int| 0 <= j < i ==> !is_exit_event(#[trigger] events[j]),
    ensures
        loop_trace(events) == loop_trace(events.take(i + 1)),
        loop_trace(events).len() > 0,
        loop_trace(events).last() == Event::Platform(events[i]),
    decreases i,
{
    let e = events[0];
    if i == 0 {
        assert(loop_trace(events) == seq![Event::Platform(e)]);
        assert(events.take(1).len() == 1);
        assert(events.take(1)[0] == e);
        assert(loop_trace(events.take(1)) == seq![Event::Platform(e)]);
    } else {
        assert(!is_exit_event(e));
        let rest = events.drop_first();
        assert forall|j: int| 0 <= j < i - 1 implies !is_exit_event(#[trigger] rest[j]) by {
            assert(rest[j] == events[j + 1]);
        }
        assert(rest[i - 1] == events[i]);
        lemma_exit_determinism(rest, i - 1);

        let pre = events.take(i + 1);
        assert(pre.len() == i + 1);
        assert(pre[0] == e);
        assert(pre.drop_first() =~= rest.take(i));
        if requests_update(e) {
            assert(loop_trace(events) == seq![Event::Platform(e), Event::UpdateUi]
                + loop_trace(rest));
            assert(loop_trace(pre) == seq![Event::Platform(e), Event::UpdateUi]
                + loop_trace(rest.take(i)));
            assert(loop_trace(events) =~= loop_trace(pre));
            assert(loop_trace(events).last() == loop_trace(rest).last());
        } else {
            assert(loop_trace(events) == seq![Event::Platform(e)] + loop_trace(rest));
            assert(loop_trace(pre) == seq![Event::Platform(e)] + loop_trace(rest.take(i)));
            assert(loop_trace(events) =~= loop_trace(pre));
            assert(loop_trace(events).last() == loop_trace(rest).last());
        }
    }
}

/// A non-empty trace starts with a platform event.
proof fn lemma_trace_head_platform(events: Seq<PlatformEvent>)
    ensures
        loop_trace(events).len() > 0 ==> loop_trace(events)[0] is Platform,
{
    if events.len() > 0 {
        let e = events[0];
        if is_exit_event(e) {
        } else if requests_update(e) {
            assert(loop_trace(events)[0] == Event::Platform(e));
        } else {
            assert(loop_trace(events)[0] == Event::Platform(e));
        }
    }
}

/// Update coalescing: however many update requests a handler makes, the
/// loop never delivers two update events in a row — every update event is
/// followed by a platform event or by the end of the trace.
pub proof fn lemma_update_coalescing(events: Seq<PlatformEvent>)
    ensures
        forall|i: int|
            0 <= i < loop_trace(events).len() - 1 ==> !((#[trigger] loop_trace(events)[i])
                is UpdateUi && loop_trace(events)[i + 1] is UpdateUi),
    decreases events.len(),
{
    if events.len() > 0 {
        let e = events[0];
        let t = loop_trace(events);
        if is_exit_event(e) {
            assert(t == seq![Event::Platform(e)]);
        } else {
            let rest = loop_trace(events.drop_first());
            lemma_update_coalescing(events.drop_first());
            lemma_trace_head_platform(events.drop_first());
            if requests_update(e) {
                assert(t == seq![Event::Platform(e), Event::UpdateUi] + rest);
                assert forall|i: int| 0 <= i < t.len() - 1 implies !(
                (#[trigger] t[i]) is UpdateUi && t[i + 1] is UpdateUi) by {
                    if i == 0 {
                        assert(t[0] == Event::Platform(e));
                    } else if i == 1 {
                        assert(t[2] == rest[0]);
                    } else {
                        assert(t[i] == rest[i - 2]);
                        assert(t[i + 1] == rest[i - 1]);
                    }
                }
            } else {
                assert(t == seq![Event::Platform(e)] + rest);
                assert forall|i: int| 0 <= i < t.len() - 1 implies !(
                (#[trigger] t[i]) is UpdateUi && t[i + 1] is UpdateUi) by {
                    if i == 0 {
                        assert(t[0] == Event::Platform(e));
                    } else {
                        assert(t[i] == rest[i - 1]);
                        assert(t[i + 1] == rest[i]);
                    }
                }
            }
        }
    }
}

/// Requesting an update is idempotent on the control handle: a second
/// consecutive request changes nothing.
pub proof fn lemma_needs_update_idempotent(c: Control)
    ensures
        control_with_update(control_with_update(c)) == control_with_update(c),
{
}

} // verus!
