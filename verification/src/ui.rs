//! The GUI runtime's retained state: the window dimensions it lays out
//! against, the widgets staged during the current frame, the primitives
//! last drawn, the force-redraw flag, the ingested input events, the
//! identifier generator, and the registered fonts.

use vstd::prelude::*;

use crate::event::UiEvent;
use crate::ids::{Generator, WidgetId};
use crate::scene::{
    clone_primitives, layout, prims_model, primitives_equal, staged_model, Canvas, Primitive,
    StagedModel, StagedWidget, Text, Widget, WidgetModel,
};

verus! {

/// A handle naming one font registered with the runtime.
#[derive(Clone, Copy, PartialEq, Eq, Structural, Debug)]
pub struct FontId {
    pub index: u64,
}

/// The GUI runtime's retained state.
pub struct Ui {
    /// The pixel width the runtime lays out against.
    pub width: u32,
    /// The pixel height the runtime lays out against.
    pub height: u32,
    /// The widgets staged by the current frame's scene construction.
    pub staged: Vec<StagedWidget>,
    /// The primitives of the last drawn frame, if any frame was drawn.
    pub drawn: Option<Vec<Primitive>>,
    /// Whether the next draw must happen even if content is unchanged.
    pub redraw_forced: bool,
    /// The input events ingested so far.
    pub input: Vec<UiEvent>,
    /// The runtime's widget identifier generator.
    pub id_gen: Generator,
    /// The fonts registered for text measurement and glyph rendering.
    pub fonts: Vec<rusttype::Font<'static>>,
}

/// The mathematical value of the runtime state.
#[verifier::ext_equal]
pub struct UiModel {
    pub width: u32,
    pub height: u32,
    pub staged: Seq<StagedModel>,
    pub drawn: Option<Seq<crate::scene::PrimitiveModel>>,
    pub redraw_forced: bool,
    pub input: Seq<UiEvent>,
    pub next_id: u64,
    pub fonts: nat,
}

impl View for Ui {
    type V = UiModel;

    open spec fn view(&self) -> UiModel {
        UiModel {
            width: self.width,
            height: self.height,
            staged: staged_model(self.staged@),
            drawn: match self.drawn {
                Some(v) => Some(prims_model(v@)),
                None => None,
            },
            redraw_forced: self.redraw_forced,
            input: self.input@,
            next_id: self.id_gen.next_index,
            fonts: self.fonts@.len(),
        }
    }
}

/// A fresh runtime sized to the given dimensions: nothing staged, nothing
/// drawn, no redraw forced, no input seen, no identifiers allocated, no
/// fonts registered.
pub open spec fn initial_ui(width: u32, height: u32) -> UiModel {
    UiModel {
        width,
        height,
        staged: Seq::empty(),
        drawn: None,
        redraw_forced: false,
        input: Seq::empty(),
        next_id: 0,
        fonts: 0,
    }
}

/// The runtime state after ingesting one input event: the event is
/// recorded, and a window-resize event updates the layout dimensions.
pub open spec fn ui_handle_event(u: UiModel, e: UiEvent) -> UiModel {
    match e {
        UiEvent::WindowResized { width, height } => UiModel {
            width,
            height,
            input: u.input.push(e),
            ..u
        },
        _ => UiModel { input: u.input.push(e), ..u },
    }
}

/// The runtime state with a full redraw forced.
pub open spec fn ui_redraw_forced(u: UiModel) -> UiModel {
    UiModel { redraw_forced: true, ..u }
}

/// Whether a draw pass yields primitives: a redraw is forced, or the staged
/// scene lays out to primitives that differ from the last drawn frame.
pub open spec fn ui_wants_draw(u: UiModel) -> bool {
    u.redraw_forced || u.drawn != Some(layout(u.staged, u.width, u.height))
}

/// The runtime state after a draw pass: if the pass yields primitives they
/// become the last drawn frame and the force-redraw flag clears; otherwise
/// nothing changes.
pub open spec fn ui_after_draw(u: UiModel) -> UiModel {
    if ui_wants_draw(u) {
        UiModel {
            drawn: Some(layout(u.staged, u.width, u.height)),
            redraw_forced: false,
            ..u
        }
    } else {
        u
    }
}

impl Ui {
    /// A fresh runtime sized to the given dimensions.
    pub fn new(width: u32, height: u32) -> (ui: Ui)
        ensures
            ui@ == initial_ui(width, height),
    {
        let ui = Ui {
            width,
            height,
            staged: Vec::new(),
            drawn: None,
            redraw_forced: false,
            input: Vec::new(),
            id_gen: Generator::new(),
            fonts: Vec::new(),
        };
        proof {
            assert(ui@ =~~= initial_ui(width, height));
        }
        ui
    }

    /// Begins a frame's scene construction: the previous frame's staged
    /// widgets are discarded.
    pub fn set_widgets(&mut self)
        ensures
            final(self)@ == (UiModel { staged: Seq::empty(), ..old(self)@ }),
    {
        self.staged = Vec::new();
        proof {
            assert(self@ =~~= (UiModel { staged: Seq::empty(), ..old(self)@ }));
        }
    }

    /// Ingests one translated input event.
    pub fn handle_event(&mut self, e: UiEvent)
        ensures
            final(self)@ == ui_handle_event(old(self)@, e),
    {
        self.input.push(e);
        match e {
            UiEvent::WindowResized { width, height } => {
                self.width = width;
                self.height = height;
            },
            _ => (),
        }
        proof {
            assert(self@ =~~= ui_handle_event(old(self)@, e));
        }
    }

    /// Marks the runtime as needing a full redraw, overriding the
    /// content-equality check at the next draw pass.
    pub fn needs_redraw(&mut self)
        ensures
            final(self)@ == ui_redraw_forced(old(self)@),
    {
        self.redraw_forced = true;
        proof {
            assert(self@ =~~= ui_redraw_forced(old(self)@));
        }
    }

    /// Registers a font with the runtime and names it.
    pub fn insert_font(&mut self, font: rusttype::Font<'static>) -> (id: FontId)
        ensures
            final(self)@ == (UiModel { fonts: old(self)@.fonts + 1, ..old(self)@ }),
            id.index == old(self)@.fonts,
    {
        let id = FontId { index: self.fonts.len() as u64 };
        self.fonts.push(font);
        proof {
            assert(self@ =~~= (UiModel { fonts: old(self)@.fonts + 1, ..old(self)@ }));
        }
        id
    }

    /// Lays out the staged scene and yields its primitives exactly when a
    /// redraw is forced or the laid-out content differs from the last
    /// drawn frame; what it yields becomes the last drawn frame.
    pub fn draw_if_changed(&mut self) -> (r: Option<Vec<Primitive>>)
        ensures
            r is Some <==> ui_wants_draw(old(self)@),
            (r matches Some(v) ==> prims_model(v@) == layout(
                old(self)@.staged,
                old(self)@.width,
                old(self)@.height,
            )),
            final(self)@ == ui_after_draw(old(self)@),
    {
        let prims = crate::scene::layout_widgets(&self.staged, self.width, self.height);
        let unchanged = match &self.drawn {
            Some(d) => primitives_equal(d, &prims),
            None => false,
        };
        if self.redraw_forced || !unchanged {
            self.redraw_forced = false;
            self.drawn = Some(clone_primitives(&prims));
            proof {
                assert(ui_wants_draw(old(self)@));
                assert(self@ =~~= ui_after_draw(old(self)@));
            }
            Some(prims)
        } else {
            proof {
                assert(!ui_wants_draw(old(self)@));
                assert(self@ =~~= ui_after_draw(old(self)@));
            }
            None
        }
    }
}

impl Canvas {
    /// Stages this canvas under the given identifier, as the current
    /// frame's next widget.
    pub fn set(self, id: WidgetId, ui: &mut Ui)
        ensures
            final(ui)@ == (UiModel {
                staged: old(ui)@.staged.push(
                    StagedModel {
                        id,
                        widget: WidgetModel::Canvas { color: self.color, border: self.border },
                    },
                ),
                ..old(ui)@
            }),
    {
        ui.staged.push(StagedWidget { id, widget: Widget::Canvas(self) });
        proof {
            assert(staged_model(ui.staged@) =~= old(ui)@.staged.push(
                StagedModel {
                    id,
                    widget: WidgetModel::Canvas { color: self.color, border: self.border },
                },
            ));
            assert(ui@ =~~= (UiModel {
                staged: old(ui)@.staged.push(
                    StagedModel {
                        id,
                        widget: WidgetModel::Canvas { color: self.color, border: self.border },
                    },
                ),
                ..old(ui)@
            }));
        }
    }
}

impl Text {
    /// Stages this label under the given identifier, as the current
    /// frame's next widget.
    pub fn set(self, id: WidgetId, ui: &mut Ui)
        ensures
            final(ui)@ == (UiModel {
                staged: old(ui)@.staged.push(
                    StagedModel {
                        id,
                        widget: WidgetModel::Text {
                            text: self.text@,
                            color: self.color,
                            position: self.position,
                        },
                    },
                ),
                ..old(ui)@
            }),
    {
        let ghost t = StagedModel {
            id,
            widget: WidgetModel::Text {
                text: self.text@,
                color: self.color,
                position: self.position,
            },
        };
        ui.staged.push(StagedWidget { id, widget: Widget::Text(self) });
        proof {
            assert(staged_model(ui.staged@) =~= old(ui)@.staged.push(t));
            assert(ui@ =~~= (UiModel { staged: old(ui)@.staged.push(t), ..old(ui)@ }));
        }
    }
}

} // verus!
