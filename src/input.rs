//! What the library knows of an input source.

use vstd::prelude::*;

verus! {

/// The capability of an input source.
#[derive(Clone, Copy, Debug, PartialEq, Eq, Structural)]
pub enum InputKind {
    /// A tracked hand, with thumb and index tips and a palm.
    Hand,
    /// A ray with an origin and a direction.
    Pointer,
    /// A single tracked point with an orientation.
    Tip,
}

/// An input source of one frame: its handle and its capability.
#[derive(Clone, Copy, Debug, PartialEq, Eq, Structural)]
pub struct InputSource {
    pub id: u64,
    pub kind: InputKind,
}

/// The datamap entry that presses the trigger of a grab handle: a hand
/// pinches, other sources use their grab axis.
pub fn grab_trigger_key(kind: InputKind) -> (r: &'static str)
    ensures
        r@ == (if kind == InputKind::Hand { "pinch_strength"@ } else { "grab"@ }),
{
    match kind {
        InputKind::Hand => "pinch_strength",
        _ => "grab",
    }
}

/// The datamap entry that presses a hover surface: a hand pinches, other
/// sources use their select axis.
pub fn interact_trigger_key(kind: InputKind) -> (r: &'static str)
    ensures
        r@ == (if kind == InputKind::Hand { "pinch_strength"@ } else { "select"@ }),
{
    match kind {
        InputKind::Hand => "pinch_strength",
        _ => "select",
    }
}

} // verus!
