//! Settings of a replay.

use vstd::prelude::*;

verus! {

/// What the label of a detection shows.
#[derive(Clone, Copy, Debug, PartialEq, Eq, Structural)]
pub enum LabelSetting {
    Index,
    Label,
    Score,
    LabelScore,
    Track,
}

} // verus!
