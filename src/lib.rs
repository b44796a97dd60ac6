use vstd::prelude::*;

pub mod config;
pub mod converter;
pub mod forecast;
pub mod query;

verus! {

} // verus!
