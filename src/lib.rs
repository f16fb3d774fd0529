//! Account selection, lazy credential materialization and first-run
//! bootstrap for a multi-account mail tool's configuration.
use vstd::prelude::*;

pub mod account;
pub mod config;
pub mod wizard;

verus! {

} // verus!
