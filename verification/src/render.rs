//! The drawing surface, the frame target, the renderer, and the image
//! registry: the presentation side of the loop, modelled by what flows
//! through it — the primitives filled, drawn, and presented.

use vstd::prelude::*;

use crate::scene::{clone_primitives, prims_model, Primitive, PrimitiveModel};

verus! {

/// The GPU-backed presentable target associated with the window.
pub struct Display {
    /// Current pixel width of the surface.
    pub width: u32,
    /// Current pixel height of the surface.
    pub height: u32,
    /// The window title.
    pub title: String,
    /// Whether presentation waits for vertical sync.
    pub vsync: bool,
    /// The multisampling factor.
    pub multisampling: u32,
    /// The primitives of the frame last presented, if any.
    pub presented: Option<Vec<Primitive>>,
}

/// The mathematical value of the drawing surface.
#[verifier::ext_equal]
pub struct DisplayModel {
    pub width: u32,
    pub height: u32,
    pub title: Seq<char>,
    pub vsync: bool,
    pub multisampling: u32,
    pub presented: Option<Seq<PrimitiveModel>>,
}

impl View for Display {
    type V = DisplayModel;

    open spec fn view(&self) -> DisplayModel {
        DisplayModel {
            width: self.width,
            height: self.height,
            title: self.title@,
            vsync: self.vsync,
            multisampling: self.multisampling,
            presented: match self.presented {
                Some(v) => Some(prims_model(v@)),
                None => None,
            },
        }
    }
}

impl Display {
    /// A fresh surface with the given fixed window settings; nothing has
    /// been presented on it.
    pub fn new(width: u32, height: u32, title: &str, vsync: bool, multisampling: u32) -> (d:
        Display)
        ensures
            d@ == (DisplayModel {
                width,
                height,
                title: title@,
                vsync,
                multisampling,
                presented: None,
            }),
    {
        let d = Display {
            width,
            height,
            title: title.to_owned(),
            vsync,
            multisampling,
            presented: None,
        };
        proof {
            assert(d@ =~~= (DisplayModel {
                width,
                height,
                title: title@,
                vsync,
                multisampling,
                presented: None,
            }));
        }
        d
    }

    /// Queries the surface's current pixel dimensions.
    pub fn get_inner_size(&self) -> (dims: (u32, u32))
        ensures
            dims.0 == self.width,
            dims.1 == self.height,
    {
        (self.width, self.height)
    }

    /// Acquires a fresh frame target for drawing.
    pub fn draw(&self) -> (f: Frame)
        ensures
            f@ == Seq::<PrimitiveModel>::empty(),
    {
        let f = Frame { content: Vec::new() };
        proof {
            assert(f@ =~= Seq::<PrimitiveModel>::empty());
        }
        f
    }
}

/// A frame target being drawn: the primitives drawn into it so far.
pub struct Frame {
    pub content: Vec<Primitive>,
}

impl View for Frame {
    type V = Seq<PrimitiveModel>;

    open spec fn view(&self) -> Seq<PrimitiveModel> {
        prims_model(self.content@)
    }
}

impl Frame {
    /// Presents the frame on the drawing surface.
    pub fn finish(self, display: &mut Display)
        ensures
            final(display)@ == (DisplayModel { presented: Some(self@), ..old(display)@ }),
    {
        display.presented = Some(self.content);
        proof {
            assert(display@ =~~= (DisplayModel { presented: Some(self@), ..old(display)@ }));
        }
    }
}

/// The registry mapping image handles to GPU textures. This program renders
/// no images, so the registry stays empty.
pub struct ImageMap {
    /// The number of images registered.
    pub len: u64,
}

impl ImageMap {
    /// An empty registry.
    pub fn new() -> (m: ImageMap)
        ensures
            m.len == 0,
    {
        ImageMap { len: 0 }
    }
}

/// The renderer converting GUI primitives into GPU draw calls: modelled by
/// the primitives its buffers were last filled from.
pub struct Renderer {
    pub filled: Vec<Primitive>,
}

impl View for Renderer {
    type V = Seq<PrimitiveModel>;

    open spec fn view(&self) -> Seq<PrimitiveModel> {
        prims_model(self.filled@)
    }
}

impl Renderer {
    /// A fresh renderer bound to the drawing surface; its buffers are empty.
    pub fn new(_display: &Display) -> (r: Renderer)
        ensures
            r@ == Seq::<PrimitiveModel>::empty(),
    {
        let r = Renderer { filled: Vec::new() };
        proof {
            assert(r@ =~= Seq::<PrimitiveModel>::empty());
        }
        r
    }

    /// Populates the renderer's buffers from one frame's primitives.
    pub fn fill(
        &mut self,
        _display: &Display,
        primitives: Vec<Primitive>,
        _image_map: &ImageMap,
    )
        ensures
            final(self)@ == prims_model(primitives@),
    {
        self.filled = primitives;
    }

    /// Issues the buffered primitives as draw calls against the frame
    /// target.
    pub fn draw(&self, _display: &Display, target: &mut Frame, _image_map: &ImageMap)
        ensures
            final(target)@ == self@,
    {
        target.content = clone_primitives(&self.filled);
    }
}

} // verus!
