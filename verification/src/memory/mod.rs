use vstd::prelude::*;

pub mod constants;
pub mod location;

pub use location::MemoryLocation;

verus! {

} // verus!
