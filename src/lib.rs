use vstd::prelude::*;

pub mod laws;
pub mod query;
pub mod timestamp;

verus! {

} // verus!
