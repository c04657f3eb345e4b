use vstd::prelude::*;

pub mod identity;
pub mod order;
pub mod revaultd;
pub mod scripts;
pub mod status;
pub mod text;
pub mod vault;

verus! {

} // verus!
