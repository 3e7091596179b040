use vstd::prelude::*;

verus! {

/// The identifier under which a cache stores a value.
pub type Key = String;

} // verus!
