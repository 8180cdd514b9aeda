use vstd::prelude::*;

pub mod plan;
pub mod schedule;
pub mod shape;

verus! {

} // verus!
