use vstd::prelude::*;

pub mod app;
pub mod ids;
pub mod markdown;
pub mod models;
pub mod ordering;
pub mod services;
pub mod utils;

verus! {

} // verus!
