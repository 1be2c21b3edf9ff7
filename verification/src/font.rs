//! The font loader: turns embedded font bytes into a font usable for text
//! measurement and glyph rendering, rejecting bytes that do not parse as a
//! valid font.

use vstd::prelude::*;

verus! {

#[verifier::external_type_specification]
#[verifier::external_body]
pub struct ExFont<'a>(rusttype::Font<'a>);

/// Whether the given bytes parse as a valid font face.
pub uninterp spec fn font_parses(data: Seq<u8>) -> bool;

/// Why font bytes could not be loaded.
#[derive(Clone, Copy, PartialEq, Eq, Structural, Debug)]
pub enum FontError {
    /// The bytes do not parse as a valid font.
    InvalidData,
}

/// Relies on rusttype's `Font::try_from_vec`, which parses the bytes as a
/// font face and returns `None` exactly when they are not valid font data;
/// the outcome depends on the bytes alone.
#[verifier::external_body]
fn parse_font(data: Vec<u8>) -> (r: Option<rusttype::Font<'static>>)
    ensures
        r is Some <==> font_parses(data@),
{
    rusttype::Font::try_from_vec(data)
}

/// Loads font bytes into a font handle, exactly when the bytes are valid
/// font data.
pub fn load_font(data: Vec<u8>) -> (r: Result<rusttype::Font<'static>, FontError>)
    ensures
        r is Ok <==> font_parses(data@),
        (r matches Err(e) ==> e == FontError::InvalidData),
{
    match parse_font(data) {
        Some(font) => Ok(font),
        None => Err(FontError::InvalidData),
    }
}

} // verus!
