use crate::models::window::WindowPosition;
use crate::window::position::{
    fixed_position, get_top_right_position, top_right_position, validate_and_fix_position,
    WorkArea,
};
use vstd::prelude::*;

verus! {

/// What the store of the window position gave at startup.
#[derive(Clone, Copy, Debug, PartialEq, Eq, Structural)]
pub enum StoredPosition {
    /// A position was stored.
    Found(WindowPosition),
    /// Nothing was stored yet: this is the first run.
    Missing,
    /// The store could not be read.
    Unreadable,
}

/// Where the window goes, and what is to be done about it.
#[derive(Clone, Copy, Debug, PartialEq, Eq, Structural)]
pub struct Placement {
    pub x: i32,
    pub y: i32,
    /// Whether the window has to be moved to (x, y).
    pub set_position: bool,
    /// Whether (x, y) has to be stored.
    pub save: bool,
}

/// The placement that [`startup_placement`] decides on.
pub open spec fn startup_placement_of(stored: StoredPosition, work: WorkArea) -> (int, int, bool) {
    match stored {
        StoredPosition::Found(position) => {
            let fixed = fixed_position(position.x as int, position.y as int, work);
            (fixed.0, fixed.1, fixed != (position.x as int, position.y as int))
        },
        StoredPosition::Missing => (top_right_position(work).0, top_right_position(work).1, true),
        StoredPosition::Unreadable => (
            top_right_position(work).0,
            top_right_position(work).1,
            false,
        ),
    }
}

/// Places the window at startup.
///
/// A stored position is brought back onto `work`, which is then the work
/// area under the centre of the window at that position, and is stored
/// again only where that changed it. Without a stored position the window
/// goes to the top-right default of `work`, which is then the primary work
/// area; the default is stored on the first run, and not where the store
/// could not be read. The window is moved in every case.
pub fn startup_placement(stored: StoredPosition, work: &WorkArea) -> (placement: Placement)
    ensures
        (placement.x as int, placement.y as int, placement.save) == startup_placement_of(
            stored,
            *work,
        ),
        placement.set_position,
{
    match stored {
        StoredPosition::Found(position) => {
            let (x, y) = validate_and_fix_position(position.x, position.y, work);
            Placement { x, y, set_position: true, save: x != position.x || y != position.y }
        },
        StoredPosition::Missing => {
            let (x, y) = get_top_right_position(work);
            Placement { x, y, set_position: true, save: true }
        },
        StoredPosition::Unreadable => {
            let (x, y) = get_top_right_position(work);
            Placement { x, y, set_position: true, save: false }
        },
    }
}

/// Places the window after it was moved to (x, y).
///
/// The position is brought back onto `work`, the work area under the centre
/// of the window. The window is moved only where that changed the position;
/// the result is stored in every case.
pub fn moved_placement(x: i32, y: i32, work: &WorkArea) -> (placement: Placement)
    ensures
        (placement.x as int, placement.y as int) == fixed_position(x as int, y as int, *work),
        placement.set_position == ((placement.x, placement.y) != (x, y)),
        placement.save,
{
    let (fixed_x, fixed_y) = validate_and_fix_position(x, y, work);
    Placement {
        x: fixed_x,
        y: fixed_y,
        set_position: fixed_x != x || fixed_y != y,
        save: true,
    }
}

} // verus!
