//! Typed schema derivation and comparison-operator resolution for a connector
//! that serves Postgres-family databases.
use vstd::prelude::*;

pub mod catalog;
pub mod entries;
pub mod configuration;
pub mod metadata;
pub mod models;
pub mod operators;
pub mod schema;

verus! {

} // verus!
