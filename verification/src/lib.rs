use vstd::prelude::*;

pub mod text;
pub mod json;
pub mod models;
pub mod schema;
pub mod fetcher;
pub mod cleaner;
pub mod db;
pub mod config;

verus! {

} // verus!
