//! The names of the feedback sounds.

use vstd::prelude::*;

verus! {

pub const LOCK: &'static str = "lock";

pub const UNLOCK: &'static str = "unlock";

pub const CENTER: &'static str = "center";

} // verus!
