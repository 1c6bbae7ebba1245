use vstd::prelude::*;

pub mod value;
pub mod ops;
pub mod storage;
pub mod elastic;
pub mod env;
pub mod equal;

pub use value::VALUE;
pub use value::Ty;

verus! {

} // verus!
