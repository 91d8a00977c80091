//! The glyph set of the interface and the theme roles that marks are drawn in.
use vstd::prelude::*;

verus! {

/// The glyph set of the interface.
#[derive(Clone, Copy, Debug, PartialEq, Eq, Structural)]
pub enum IconMode {
    Nerd,
    Ascii,
}

/// The theme role a mark or a line of text is drawn in.
#[derive(Clone, Copy, Debug, PartialEq, Eq, Structural)]
pub enum Tone {
    Error,
    Warning,
    Muted,
    Success,
    BarFg,
    Accent,
    AccentAlt,
}

} // verus!
