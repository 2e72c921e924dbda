//! Target lock.

use vstd::prelude::*;

verus! {

pub const MAX_RANGE: i32 = 190;

} // verus!
