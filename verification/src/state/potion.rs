//! Potion ids (rows of the potion table).

use vstd::prelude::*;

verus! {

/// The empty potion slot.
pub const NONE: u8 = 0;
/// Fairy in a Bottle: triggers by itself when the player would die.
pub const FAIRY: u8 = 14;

} // verus!
