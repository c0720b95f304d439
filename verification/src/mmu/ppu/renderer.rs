//! The host rendering interface: a full 160x144 frame of 32-bit color words
//! once per frame, and a palette from the four Game Boy shades to 32-bit
//! values.

use vstd::prelude::*;

verus! {

/// The four shades a Game Boy pixel can take after palette remapping.
#[derive(Debug, PartialEq, Eq, Clone, Copy, Structural)]
pub enum Color {
    White,
    LightGray,
    DarkGray,
    Black,
}

/// The conventional grey palette: the value `Renderer::palette` yields when
/// an implementation does not override it.
pub fn default_palette(color: Color) -> (r: u32)
    ensures
        r == spec_default_palette(color),
{
    match color {
        Color::White => 0xFFFFFF,
        Color::LightGray => 0x454545,
        Color::DarkGray => 0xA8A8A8,
        Color::Black => 0,
    }
}

/// The conventional grey palette as a function.
pub open spec fn spec_default_palette(color: Color) -> u32 {
    match color {
        Color::White => 0xFFFFFF,
        Color::LightGray => 0x454545,
        Color::DarkGray => 0xA8A8A8,
        Color::Black => 0,
    }
}

/// Implemented by the host to display frames. `render` receives the
/// completed 160x144 buffer once per frame; `palette` converts a shade into
/// the 32-bit word the output device uses.
pub trait Renderer {
    /// Called with the completed buffer of pixels every frame.
    fn render(&self, buffer: &Vec<u32>)
        requires
            buffer@.len() == 160 * 144,
    ;

    /// The 32-bit word a shade maps to.
    fn palette(&self, color: Color) -> u32;
}

/// A renderer that discards every frame, for test harnesses.
pub struct TestRenderer;

impl Renderer for TestRenderer {
    fn render(&self, _buffer: &Vec<u32>) {
    }

    fn palette(&self, color: Color) -> u32 {
        default_palette(color)
    }
}

} // verus!
