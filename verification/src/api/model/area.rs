//! Town definitions.

use vstd::prelude::*;

verus! {

use crate::api::model::{item, Position};

/// A town definition.
#[derive(Debug, Clone)]
pub struct Area {
    /// Town id.
    pub area_id: Id,
    /// Town name.
    pub name: String,
    /// Appeal comments shown for the town.
    pub desc: Vec<String>,
    /// Item shown as the town's icon; the provider sends `0` for "none".
    pub icon: Option<item::Id>,
    /// Map position.
    pub pos: Position,
    /// Map extent.
    pub size: Size,
}

/// A town id; the provider never issues id `0`.
#[derive(Debug, Clone, Copy, PartialEq, Eq, Structural, PartialOrd, Ord, Hash)]
pub struct Id(pub u8);

/// Reads an optional town id as the provider sends it: `0` stands for
/// "none".
pub fn optional_id(raw: u8) -> (r: Option<Id>)
    ensures
        raw == 0 ==> r == Option::<Id>::None,
        raw != 0 ==> r == Option::Some(Id(raw)),
{
    if raw == 0 {
        Option::None
    } else {
        Option::Some(Id(raw))
    }
}

/// The number of map squares a town covers.
#[derive(Debug, Clone, PartialEq, Eq, Structural)]
pub struct Size {
    /// Vertical squares.
    pub height: i32,
    /// Horizontal squares.
    pub width: i32,
}

} // verus!
