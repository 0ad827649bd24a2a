//! Positions that the editor keeps in a buffer.
use vstd::prelude::*;

verus! {

/// A named position in a buffer.
#[derive(Copy, Clone, Debug, PartialEq, Eq, Structural)]
pub enum Mark {
    /// For keeping track of cursors.
    Cursor(usize),
    /// For use in the display of characters.
    DisplayMark(usize),
}

} // verus!
