use vstd::prelude::*;

pub mod mssql;
pub mod text;
pub mod adapter_config;
pub mod auth;
pub mod config;

verus! {

} // verus!
