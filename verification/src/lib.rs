//! Verified core of the Temple of Heaven acoustic simulation backend.
use vstd::prelude::*;

pub mod text;
pub mod site;
pub mod history;
pub mod store;
pub mod measurement;
pub mod select;
pub mod comparison;
pub mod vr;
pub mod noise;
pub mod alerts;
pub mod models;
pub mod routes;
pub mod sti;

verus! {

} // verus!
