use vstd::prelude::*;

pub mod config;
pub mod http;
pub mod pool;

verus! {

} // verus!
