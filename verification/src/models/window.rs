use vstd::prelude::*;

verus! {

/// Top-left corner of the widget window in screen coordinates.
///
/// This is the only placement state that is kept between runs.
#[derive(Clone, Copy, Debug, PartialEq, Eq, Structural)]
pub struct WindowPosition {
    pub x: i32,
    pub y: i32,
}

} // verus!
