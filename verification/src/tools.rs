//! The annotation vocabulary: tools, palette colours and annotations.

use vstd::prelude::*;

verus! {

/// The drawing tools offered by the editor's toolbar.
#[derive(Clone, Copy, Debug, PartialEq, Eq, Structural)]
pub enum ToolKind {
    Rect,
    Line,
    Arrow,
    Text,
    Ocr,
    Crop,
}

/// The colours of the toolbar palette, in toolbar order.
#[derive(Clone, Copy, Debug, PartialEq, Eq, Structural)]
pub enum PaletteColor {
    Red,
    Green,
    Blue,
    Yellow,
    White,
}

/// One annotation drawn over the screenshot.
///
/// `P` is the type of a canvas point and `W` the type of a width or font
/// size; the library only moves such values around, it never computes
/// with them.
#[derive(Clone, Debug)]
pub struct Annotation<P, W> {
    pub kind: ToolKind,
    pub start: P,
    pub end: P,
    pub color: PaletteColor,
    pub stroke_width: W,
    pub text: Option<String>,
    pub font_size: W,
}

} // verus!
