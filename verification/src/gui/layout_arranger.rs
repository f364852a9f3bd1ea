use vstd::prelude::*;

verus! {

/// What happens to a control, from left to right, when its parent window is
/// resized.
#[derive(Clone, Copy, Debug, PartialEq, Eq, Structural)]
pub enum Horz {
    /// The control keeps its place and its width.
    Nothing,
    /// The control moves with the right edge of the parent.
    Repos,
    /// The control grows and shrinks with the parent.
    Resize,
}

/// What happens to a control, from top to bottom, when its parent window is
/// resized.
#[derive(Clone, Copy, Debug, PartialEq, Eq, Structural)]
pub enum Vert {
    /// The control keeps its place and its height.
    Nothing,
    /// The control moves with the bottom edge of the parent.
    Repos,
    /// The control grows and shrinks with the parent.
    Resize,
}

} // verus!
