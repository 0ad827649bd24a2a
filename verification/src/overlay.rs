//! Overlays that the editor can show over a buffer.
use vstd::prelude::*;

verus! {

/// The kinds of overlay that an instruction can open.
#[derive(Copy, Clone, Debug, PartialEq, Eq, Structural)]
pub enum OverlayType {
    /// A one-line prompt at the bottom of the screen.
    Prompt,
    /// A list of files to pick from.
    SelectFile,
}

} // verus!
