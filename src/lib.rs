use vstd::prelude::*;

pub mod candidates;
pub mod commands;
pub mod laws;
pub mod writer;

verus! {

} // verus!
