//! The declarative scene: widget descriptions staged each frame, and the
//! laid-out primitives the runtime derives from them. A root canvas fills
//! the window; a text label can be centered in the middle of a canvas.

use vstd::prelude::*;

use crate::ids::WidgetId;

verus! {

/// A widget color. The scene uses a grey canvas and black text.
#[derive(Clone, Copy, PartialEq, Eq, Structural, Debug)]
pub enum Color {
    Grey,
    Black,
}

/// Where a widget is placed: filling the window, or centered in the middle
/// of another widget.
#[derive(Clone, Copy, PartialEq, Eq, Structural, Debug)]
pub enum Position {
    Window,
    MiddleOf(WidgetId),
}

/// An axis-aligned pixel rectangle.
#[derive(Clone, Copy, PartialEq, Eq, Structural, Debug)]
pub struct Rect {
    pub x: u32,
    pub y: u32,
    pub width: u32,
    pub height: u32,
}

/// A canvas description: a colored container with a border width.
#[derive(Clone, Copy, PartialEq, Eq, Structural, Debug)]
pub struct Canvas {
    pub color: Color,
    pub border: u64,
}

/// A text label description.
#[derive(Clone, PartialEq, Eq, Debug)]
pub struct Text {
    pub text: String,
    pub color: Color,
    pub position: Position,
}

impl Canvas {
    /// A canvas with the default style: black, with a one-pixel border.
    pub fn new() -> (c: Canvas)
        ensures
            c.color == Color::Black,
            c.border == 1,
    {
        Canvas { color: Color::Black, border: 1 }
    }

    /// The same canvas with the given color.
    pub fn color(self, color: Color) -> (c: Canvas)
        ensures
            c == (Canvas { color, ..self }),
    {
        Canvas { color, ..self }
    }

    /// The same canvas with the given border width.
    pub fn border(self, border: u64) -> (c: Canvas)
        ensures
            c == (Canvas { border, ..self }),
    {
        Canvas { border, ..self }
    }
}

impl Text {
    /// A label with the given text, in the default style: black, placed
    /// against the window.
    pub fn new(text: &str) -> (t: Text)
        ensures
            t.text@ == text@,
            t.color == Color::Black,
            t.position == Position::Window,
    {
        Text { text: text.to_owned(), color: Color::Black, position: Position::Window }
    }

    /// The same label with the given color.
    pub fn color(self, color: Color) -> (t: Text)
        ensures
            t.text@ == self.text@,
            t.color == color,
            t.position == self.position,
    {
        Text { color, ..self }
    }

    /// The same label, centered in the middle of the widget named by `id`.
    pub fn middle_of(self, id: WidgetId) -> (t: Text)
        ensures
            t.text@ == self.text@,
            t.color == self.color,
            t.position == Position::MiddleOf(id),
    {
        Text { position: Position::MiddleOf(id), ..self }
    }
}

/// A widget description, as staged during one frame's scene construction.
#[derive(Clone, PartialEq, Eq, Debug)]
pub enum Widget {
    Canvas(Canvas),
    Text(Text),
}

/// A staged widget: a widget description bound to its stable identifier.
#[derive(Clone, PartialEq, Eq, Debug)]
pub struct StagedWidget {
    pub id: WidgetId,
    pub widget: Widget,
}

/// The mathematical value of a widget description.
#[verifier::ext_equal]
pub enum WidgetModel {
    Canvas { color: Color, border: u64 },
    Text { text: Seq<char>, color: Color, position: Position },
}

/// The mathematical value of a staged widget.
#[verifier::ext_equal]
pub struct StagedModel {
    pub id: WidgetId,
    pub widget: WidgetModel,
}

impl View for Widget {
    type V = WidgetModel;

    open spec fn view(&self) -> WidgetModel {
        match self {
            Widget::Canvas(c) => WidgetModel::Canvas { color: c.color, border: c.border },
            Widget::Text(t) => WidgetModel::Text {
                text: t.text@,
                color: t.color,
                position: t.position,
            },
        }
    }
}

impl View for StagedWidget {
    type V = StagedModel;

    open spec fn view(&self) -> StagedModel {
        StagedModel { id: self.id, widget: self.widget@ }
    }
}

/// A rendered primitive: what one frame submits to the GPU backend.
#[derive(Clone, PartialEq, Eq, Debug)]
pub enum Primitive {
    /// A filled rectangle for a canvas.
    Rectangle { id: WidgetId, color: Color, rect: Rect, border: u64 },
    /// A text run anchored at a center point.
    Text { id: WidgetId, text: String, color: Color, x: u32, y: u32 },
}

/// The mathematical value of a rendered primitive.
#[verifier::ext_equal]
pub enum PrimitiveModel {
    Rectangle { id: WidgetId, color: Color, rect: Rect, border: u64 },
    Text { id: WidgetId, text: Seq<char>, color: Color, x: int, y: int },
}

impl View for Primitive {
    type V = PrimitiveModel;

    open spec fn view(&self) -> PrimitiveModel {
        match self {
            Primitive::Rectangle { id, color, rect, border } => PrimitiveModel::Rectangle {
                id: *id,
                color: *color,
                rect: *rect,
                border: *border,
            },
            Primitive::Text { id, text, color, x, y } => PrimitiveModel::Text {
                id: *id,
                text: text@,
                color: *color,
                x: *x as int,
                y: *y as int,
            },
        }
    }
}

/// The value sequence of a staged-widget sequence.
pub open spec fn staged_model(s: Seq<StagedWidget>) -> Seq<StagedModel> {
    s.map_values(|w: StagedWidget| w@)
}

/// The value sequence of a primitive sequence.
pub open spec fn prims_model(s: Seq<Primitive>) -> Seq<PrimitiveModel> {
    s.map_values(|p: Primitive| p@)
}

/// The rectangle that fills the whole window.
pub open spec fn window_rect(width: u32, height: u32) -> Rect {
    Rect { x: 0, y: 0, width, height }
}

/// First placement recorded for the given identifier, searching from the
/// front of the placement list.
pub open spec fn lookup_placed(placed: Seq<(u64, Rect)>, index: u64) -> Option<Rect>
    decreases placed.len(),
{
    if placed.len() == 0 {
        None
    } else if placed[0].0 == index {
        Some(placed[0].1)
    } else {
        lookup_placed(placed.drop_first(), index)
    }
}

/// The rectangle a positioned widget is laid out against: the window, or the
/// recorded rectangle of the named parent (the window if the parent has not
/// been placed).
pub open spec fn parent_rect(
    placed: Seq<(u64, Rect)>,
    pos: Position,
    width: u32,
    height: u32,
) -> Rect {
    match pos {
        Position::Window => window_rect(width, height),
        Position::MiddleOf(pid) => match lookup_placed(placed, pid.index) {
            Some(r) => r,
            None => window_rect(width, height),
        },
    }
}

/// Lays out the staged widgets in order against a window of the given size,
/// threading through the rectangles already placed: a canvas becomes a
/// window-filling rectangle and records its placement; a text label becomes
/// a text run anchored at the center of its parent's rectangle.
pub open spec fn layout_from(
    staged: Seq<StagedModel>,
    width: u32,
    height: u32,
    placed: Seq<(u64, Rect)>,
) -> Seq<PrimitiveModel>
    decreases staged.len(),
{
    if staged.len() == 0 {
        Seq::empty()
    } else {
        let sw = staged[0];
        match sw.widget {
            WidgetModel::Canvas { color, border } => seq![
                PrimitiveModel::Rectangle {
                    id: sw.id,
                    color,
                    rect: window_rect(width, height),
                    border,
                },
            ] + layout_from(
                staged.drop_first(),
                width,
                height,
                placed.push((sw.id.index, window_rect(width, height))),
            ),
            WidgetModel::Text { text, color, position } => {
                let r = parent_rect(placed, position, width, height);
                seq![
                    PrimitiveModel::Text {
                        id: sw.id,
                        text,
                        color,
                        x: r.x + r.width / 2,
                        y: r.y + r.height / 2,
                    },
                ] + layout_from(staged.drop_first(), width, height, placed)
            },
        }
    }
}

/// The primitives one frame's staged widgets lay out to.
pub open spec fn layout(staged: Seq<StagedModel>, width: u32, height: u32) -> Seq<
    PrimitiveModel,
> {
    layout_from(staged, width, height, Seq::empty())
}

/// Finds the first recorded placement of `index`, falling back to the
/// window rectangle.
fn find_placed(placed: &Vec<(u64, Rect)>, index: u64, width: u32, height: u32) -> (r: Rect)
    requires
        forall|j: int|
            0 <= j < placed@.len() ==> (#[trigger] placed@[j]).1.x == 0 && placed@[j].1.y == 0,
    ensures
        r == (match lookup_placed(placed@, index) {
            Some(rr) => rr,
            None => window_rect(width, height),
        }),
        r.x == 0,
        r.y == 0,
{
    let mut j: usize = 0;
    proof {
        assert(placed@.skip(0) =~= placed@);
    }
    while j < placed.len()
        invariant
            j <= placed@.len(),
            forall|k: int|
                0 <= k < placed@.len() ==> (#[trigger] placed@[k]).1.x == 0 && placed@[k].1.y
                    == 0,
            lookup_placed(placed@, index) == lookup_placed(placed@.skip(j as int), index),
        decreases placed@.len() - j,
    {
        let entry = placed[j];
        proof {
            assert(placed@.skip(j as int).len() > 0);
            assert(placed@.skip(j as int)[0] == placed@[j as int]);
            assert(placed@.skip(j as int).drop_first() =~= placed@.skip(j as int + 1));
        }
        if entry.0 == index {
            return entry.1;
        }
        j = j + 1;
    }
    proof {
        assert(placed@.skip(j as int).len() == 0);
    }
    Rect { x: 0, y: 0, width, height }
}

/// Lays out the staged widgets, computing exactly the primitives that
/// `layout` describes.
pub fn layout_widgets(staged: &Vec<StagedWidget>, width: u32, height: u32) -> (prims: Vec<
    Primitive,
>)
    ensures
        prims_model(prims@) == layout(staged_model(staged@), width, height),
{
    let ghost s = staged_model(staged@);
    let mut prims: Vec<Primitive> = Vec::new();
    let mut placed: Vec<(u64, Rect)> = Vec::new();
    let mut i: usize = 0;
    proof {
        assert(s.skip(0) =~= s);
        assert(prims_model(prims@) + layout_from(s, width, height, placed@) =~= layout_from(
            s,
            width,
            height,
            placed@,
        ));
    }
    while i < staged.len()
        invariant
            i <= staged@.len(),
            s == staged_model(staged@),
            forall|j: int|
                0 <= j < placed@.len() ==> (#[trigger] placed@[j]).1.x == 0 && placed@[j].1.y
                    == 0,
            layout(s, width, height) == prims_model(prims@) + layout_from(
                s.skip(i as int),
                width,
                height,
                placed@,
            ),
        decreases staged@.len() - i,
    {
        proof {
            assert(s.skip(i as int).len() > 0);
            assert(s.skip(i as int)[0] == s[i as int]);
            assert(s[i as int] == staged@[i as int]@);
            assert(s.skip(i as int).drop_first() =~= s.skip(i as int + 1));
        }
        let ghost prims_before = prims@;
        let ghost placed_before = placed@;
        let sw = &staged[i];
        match &sw.widget {
            Widget::Canvas(c) => {
                let rect = Rect { x: 0, y: 0, width, height };
                prims.push(
                    Primitive::Rectangle { id: sw.id, color: c.color, rect, border: c.border },
                );
                placed.push((sw.id.index, rect));
            },
            Widget::Text(t) => {
                let r = match &t.position {
                    Position::Window => Rect { x: 0, y: 0, width, height },
                    Position::MiddleOf(pid) => find_placed(&placed, pid.index, width, height),
                };
                prims.push(
                    Primitive::Text {
                        id: sw.id,
                        text: t.text.clone(),
                        color: t.color,
                        x: r.x + r.width / 2,
                        y: r.y + r.height / 2,
                    },
                );
            },
        }
        proof {
            assert(prims_model(prims@) =~= prims_model(prims_before) + seq![
                prims@[prims@.len() - 1]@,
            ]);
        }
        i = i + 1;
    }
    proof {
        assert(s.skip(i as int).len() == 0);
        assert(prims_model(prims@) + layout_from(s.skip(i as int), width, height, placed@)
            =~= prims_model(prims@));
    }
    prims
}

/// Decides whether two primitives have the same value.
fn primitive_equal(a: &Primitive, b: &Primitive) -> (r: bool)
    ensures
        r == (a@ == b@),
{
    match (a, b) {
        (
            Primitive::Rectangle { id: i1, color: c1, rect: r1, border: b1 },
            Primitive::Rectangle { id: i2, color: c2, rect: r2, border: b2 },
        ) => *i1 == *i2 && *c1 == *c2 && *r1 == *r2 && *b1 == *b2,
        (
            Primitive::Text { id: i1, text: t1, color: c1, x: x1, y: y1 },
            Primitive::Text { id: i2, text: t2, color: c2, x: x2, y: y2 },
        ) => *i1 == *i2 && t1.eq(t2) && *c1 == *c2 && *x1 == *x2 && *y1 == *y2,
        _ => false,
    }
}

/// Decides whether two primitive sequences have the same value: the
/// content-equality check behind the draw-if-changed gate.
pub fn primitives_equal(a: &Vec<Primitive>, b: &Vec<Primitive>) -> (r: bool)
    ensures
        r == (prims_model(a@) == prims_model(b@)),
{
    if a.len() != b.len() {
        proof {
            assert(prims_model(a@).len() != prims_model(b@).len());
        }
        return false;
    }
    let mut i: usize = 0;
    while i < a.len()
        invariant
            a@.len() == b@.len(),
            i <= a@.len(),
            forall|j: int|
                0 <= j < i ==> (#[trigger] prims_model(a@)[j]) == prims_model(b@)[j],
        decreases a@.len() - i,
    {
        if !primitive_equal(&a[i], &b[i]) {
            proof {
                assert(prims_model(a@)[i as int] != prims_model(b@)[i as int]);
            }
            return false;
        }
        i = i + 1;
    }
    proof {
        assert(prims_model(a@) =~= prims_model(b@));
    }
    true
}

/// Copies one primitive.
fn clone_primitive(p: &Primitive) -> (r: Primitive)
    ensures
        r@ == p@,
{
    match p {
        Primitive::Rectangle { id, color, rect, border } => Primitive::Rectangle {
            id: *id,
            color: *color,
            rect: *rect,
            border: *border,
        },
        Primitive::Text { id, text, color, x, y } => Primitive::Text {
            id: *id,
            text: text.clone(),
            color: *color,
            x: *x,
            y: *y,
        },
    }
}

/// Copies a primitive sequence.
pub fn clone_primitives(v: &Vec<Primitive>) -> (r: Vec<Primitive>)
    ensures
        prims_model(r@) == prims_model(v@),
{
    let mut r: Vec<Primitive> = Vec::new();
    let mut i: usize = 0;
    while i < v.len()
        invariant
            i <= v@.len(),
            r@.len() == i,
            forall|j: int|
                0 <= j < i ==> (#[trigger] prims_model(r@)[j]) == prims_model(v@)[j],
        decreases v@.len() - i,
    {
        let ghost r_before = r@;
        r.push(clone_primitive(&v[i]));
        proof {
            assert forall|j: int| 0 <= j < i + 1 implies (#[trigger] prims_model(r@)[j])
                == prims_model(v@)[j] by {
                assert(prims_model(r@)[j] == r@[j]@);
                if j < i {
                    assert(r@[j] == r_before[j]);
                    assert(prims_model(r_before)[j] == r_before[j]@);
                }
            }
        }
        i = i + 1;
    }
    proof {
        assert(prims_model(r@) =~= prims_model(v@));
    }
    r
}

} // verus!
