//! The application state: the GUI runtime, the drawing surface, the image
//! registry, the identifier registry, and the renderer — assembled in one
//! atomic construction step — together with the per-frame scene builder.

use vstd::prelude::*;

use crate::font::{load_font, FontError};
use crate::ids::{Ids, WidgetId};
use crate::render::{Display, DisplayModel, ImageMap, Renderer};
use crate::scene::{Canvas, Color, Position, PrimitiveModel, StagedModel, Text, WidgetModel};
use crate::ui::{Ui, UiModel};

verus! {

/// The fixed initial window width in pixels.
pub const WINDOW_WIDTH: u32 = 640;

/// The fixed initial window height in pixels.
pub const WINDOW_HEIGHT: u32 = 480;

/// Everything the application needs across frames.
pub struct App {
    /// The GUI runtime's retained state.
    pub ui: Ui,
    /// The handle to the window's drawing surface.
    pub display: Display,
    /// The registry of images the GUI can render; unused here.
    pub image_map: ImageMap,
    /// The identifier registry.
    pub ids: Ids,
    /// The renderer converting primitives to GPU draw calls.
    pub renderer: Renderer,
}

/// The mathematical value of the application state.
#[verifier::ext_equal]
pub struct AppModel {
    pub ui: UiModel,
    pub display: DisplayModel,
    pub image_map: u64,
    pub ids: Ids,
    pub renderer: Seq<PrimitiveModel>,
}

impl View for App {
    type V = AppModel;

    open spec fn view(&self) -> AppModel {
        AppModel {
            ui: self.ui@,
            display: self.display@,
            image_map: self.image_map.len,
            ids: self.ids,
            renderer: self.renderer@,
        }
    }
}

/// The application state right after construction on the given surface: a
/// fresh runtime sized to the surface, an empty image registry, empty
/// renderer buffers, and the two identifiers of the registry allocated
/// from the runtime's generator.
pub open spec fn initial_app(d: DisplayModel) -> AppModel {
    AppModel {
        ui: UiModel { next_id: 2, ..crate::ui::initial_ui(d.width, d.height) },
        display: d,
        image_map: 0,
        ids: Ids {
            root: WidgetId { index: 0 },
            label: WidgetId { index: 1 },
        },
        renderer: Seq::empty(),
    }
}

impl App {
    /// Assembles the application state on the given drawing surface: the
    /// runtime is sized to the surface's current dimensions, the renderer
    /// is bound to the surface, the image registry starts empty, and the
    /// identifier registry is allocated from the runtime's generator.
    pub fn new(display: Display) -> (app: App)
        ensures
            app@ == initial_app(display@),
    {
        let (width, height) = display.get_inner_size();
        let mut ui = Ui::new(width, height);
        let renderer = Renderer::new(&display);
        let image_map = ImageMap::new();
        let ids = Ids::new(&mut ui.id_gen);
        let app = App { ui, display, image_map, ids, renderer };
        proof {
            assert(app@ =~~= initial_app(display@));
        }
        app
    }
}

/// The scene every frame stages: a grey, borderless root canvas filling
/// the window, and a black "hello" label centered in the middle of the
/// root — referencing exactly the registry's two identifiers.
pub open spec fn scene_for(ids: Ids) -> Seq<StagedModel> {
    seq![
        StagedModel {
            id: ids.root,
            widget: WidgetModel::Canvas { color: Color::Grey, border: 0 },
        },
        StagedModel {
            id: ids.label,
            widget: WidgetModel::Text {
                text: "hello"@,
                color: Color::Black,
                position: Position::MiddleOf(ids.root),
            },
        },
    ]
}

/// Rebuilds the declarative widget tree from current state: stages the
/// fixed scene under the registry's identifiers. Everything else —
/// including the registry itself — is left unchanged.
pub fn create_ui(app: &mut App)
    ensures
        final(app)@ == (AppModel {
            ui: (UiModel { staged: scene_for(old(app)@.ids), ..old(app)@.ui }),
            ..old(app)@
        }),
{
    app.ui.set_widgets();
    let ids = app.ids;

    Canvas::new().color(Color::Grey).border(0).set(ids.root, &mut app.ui);

    Text::new("hello").color(Color::Black).middle_of(ids.root).set(ids.label, &mut app.ui);

    proof {
        assert(app@.ui.staged =~= scene_for(old(app)@.ids));
        assert(app@ =~~= (AppModel {
            ui: (UiModel { staged: scene_for(old(app)@.ids), ..old(app)@.ui }),
            ..old(app)@
        }));
    }
}

/// The drawing surface the window initializer creates: fixed 640 by 480
/// pixel size, fixed title, vertical sync on, 4x multisampling, nothing
/// presented yet.
pub open spec fn initial_display() -> DisplayModel {
    DisplayModel {
        width: WINDOW_WIDTH,
        height: WINDOW_HEIGHT,
        title: "the-conrod-application"@,
        vsync: true,
        multisampling: 4,
        presented: None,
    }
}

/// Creates the window's drawing surface with the fixed settings, assembles
/// the application state on it, and registers the embedded font bytes with
/// the runtime. Succeeds exactly when the bytes are valid font data.
pub fn init_window(font_data: Vec<u8>) -> (r: Result<App, FontError>)
    ensures
        r is Ok <==> crate::font::font_parses(font_data@),
        (r matches Ok(app) ==> app@ == (AppModel {
            ui: (UiModel { fonts: 1, ..initial_app(initial_display()).ui }),
            ..initial_app(initial_display())
        })),
        (r matches Err(e) ==> e == FontError::InvalidData),
{
    let font = match load_font(font_data) {
        Ok(f) => f,
        Err(e) => {
            return Err(e);
        },
    };

    let display = Display::new(WINDOW_WIDTH, WINDOW_HEIGHT, "the-conrod-application", true, 4);
    let mut app = App::new(display);

    app.ui.insert_font(font);

    proof {
        assert(app@ =~~= (AppModel {
            ui: (UiModel { fonts: 1, ..initial_app(initial_display()).ui }),
            ..initial_app(initial_display())
        }));
    }
    Ok(app)
}

} // verus!
