use vstd::prelude::*;

pub mod driver;
pub mod scene;

verus! {

} // verus!
