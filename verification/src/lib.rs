//! Verified core of a screenshot annotation editor: the editing state
//! machine, keyboard shortcuts, command-line handling, region geometry,
//! pixel layout conversion, OCR reply handling and output naming.

pub mod args;
pub mod editor;
pub mod geometry;
pub mod ocr;
pub mod output;
pub mod pixels;
pub mod shortcuts;
pub mod tools;

use vstd::prelude::*;

verus! {

/// The text held by an optional string.
pub open spec fn option_view(s: Option<String>) -> Option<Seq<char>> {
    match s {
        Some(s) => Some(s@),
        None => None,
    }
}

} // verus!
