//! Platform window events, the GUI runtime's input events, and the
//! translation between them, together with the classification the
//! dispatch loop relies on: which events are meaningful to the GUI,
//! which force a redraw, and which request loop exit.

use vstd::prelude::*;

verus! {

/// A key on the keyboard, as reported by the platform.
#[derive(Clone, Copy, PartialEq, Eq, Structural, Debug)]
pub enum KeyCode {
    Escape,
    Other,
}

/// A window event as the platform event source reports it.
#[derive(Clone, Copy, PartialEq, Eq, Structural, Debug)]
pub enum PlatformEvent {
    /// A key press; the platform may fail to resolve the key, hence `Option`.
    KeyboardInput { key: Option<KeyCode> },
    /// The pointer moved to the given window coordinates.
    CursorMoved { x: i64, y: i64 },
    /// The window was resized to the given pixel dimensions.
    Resized { width: u32, height: u32 },
    /// The user asked to close the window.
    Closed,
    /// The platform asks for the window contents to be repainted.
    Refresh,
    /// Another thread woke the event source to force a redraw.
    Awakened,
    /// Any event the dispatch loop does not act upon.
    Other,
}

/// An input event in the form the GUI runtime ingests.
#[derive(Clone, Copy, PartialEq, Eq, Structural, Debug)]
pub enum UiEvent {
    Press { key: KeyCode },
    Motion { x: i64, y: i64 },
    WindowResized { width: u32, height: u32 },
}

/// The GUI-runtime event a platform event translates to, if the event is
/// meaningful to the GUI: key presses with a resolved key, pointer motion,
/// and window geometry changes translate; everything else does not.
pub open spec fn translation_of(e: PlatformEvent) -> Option<UiEvent> {
    match e {
        PlatformEvent::KeyboardInput { key: Some(k) } => Some(UiEvent::Press { key: k }),
        PlatformEvent::CursorMoved { x, y } => Some(UiEvent::Motion { x, y }),
        PlatformEvent::Resized { width, height } => Some(
            UiEvent::WindowResized { width, height },
        ),
        _ => None,
    }
}

/// Whether a platform event is meaningful to the GUI runtime.
pub open spec fn translates_to_ui(e: PlatformEvent) -> bool {
    translation_of(e) is Some
}

/// Whether a platform event requests loop exit: an Escape key press or a
/// window-close request.
pub open spec fn is_exit_event(e: PlatformEvent) -> bool {
    ||| e matches PlatformEvent::KeyboardInput { key } && key == Some(KeyCode::Escape)
    ||| e is Closed
}

/// Whether a platform event forces a full redraw even of unchanged content:
/// a repaint request, a resize, or an explicit wake-up.
pub open spec fn forces_redraw(e: PlatformEvent) -> bool {
    ||| e is Refresh
    ||| e is Resized
    ||| e is Awakened
}

/// Whether dispatching a platform event requests another update pass.
pub open spec fn requests_update(e: PlatformEvent) -> bool {
    translates_to_ui(e) || forces_redraw(e)
}

/// Translates a platform event into a GUI-runtime event, if it is
/// meaningful to the GUI.
pub fn convert_event(e: &PlatformEvent) -> (r: Option<UiEvent>)
    ensures
        r == translation_of(*e),
{
    match *e {
        PlatformEvent::KeyboardInput { key: Some(k) } => Some(UiEvent::Press { key: k }),
        PlatformEvent::CursorMoved { x, y } => Some(UiEvent::Motion { x, y }),
        PlatformEvent::Resized { width, height } => Some(
            UiEvent::WindowResized { width, height },
        ),
        _ => None,
    }
}

/// Decides whether a platform event requests loop exit.
pub fn event_requests_exit(e: &PlatformEvent) -> (b: bool)
    ensures
        b == is_exit_event(*e),
{
    match *e {
        PlatformEvent::KeyboardInput { key: Some(KeyCode::Escape) } => true,
        PlatformEvent::Closed => true,
        _ => false,
    }
}

/// Decides whether a platform event forces a full redraw.
pub fn event_forces_redraw(e: &PlatformEvent) -> (b: bool)
    ensures
        b == forces_redraw(*e),
{
    match *e {
        PlatformEvent::Refresh => true,
        PlatformEvent::Resized { .. } => true,
        PlatformEvent::Awakened => true,
        _ => false,
    }
}

} // verus!
