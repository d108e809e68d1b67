use vstd::prelude::*;

pub mod decimal;
pub mod not_unix;
pub mod protocol;
pub mod unix;

verus! {

} // verus!
