//! Exercises the font loader against the real font parser: bytes that are
//! not a font must be rejected, and initialization must fail on them.

use hello_canvas::font::{load_font, FontError};
use hello_canvas::state::init_window;

#[test]
fn garbage_bytes_are_not_a_font() {
    let r = load_font(vec![0, 1, 2, 3, 4, 5, 6, 7]);
    assert_eq!(r.err(), Some(FontError::InvalidData));
}

#[test]
fn empty_bytes_are_not_a_font() {
    let r = load_font(Vec::new());
    assert!(r.is_err());
}

#[test]
fn init_window_rejects_invalid_font_bytes() {
    let r = init_window(vec![0xde, 0xad, 0xbe, 0xef]);
    match r {
        Ok(_) => panic!("initialization must fail on invalid font bytes"),
        Err(e) => assert_eq!(e, FontError::InvalidData),
    }
}
