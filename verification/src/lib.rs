//! A verified model of an event-driven GUI redraw loop: a window shows a
//! colored canvas with a centered "hello" label, rebuilt declaratively on
//! every update event, with GPU submission gated by a content-equality check.

pub mod event;
pub mod font;
pub mod glue;
pub mod ids;
pub mod laws;
pub mod render;
pub mod scene;
pub mod state;
pub mod ui;
