use vstd::prelude::*;

pub mod api;
pub mod catalog;
pub mod category;
pub mod fetch;
pub mod laws;
pub mod message;
pub mod search;
pub mod store;
pub mod text;

verus! {

} // verus!
