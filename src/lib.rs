use vstd::prelude::*;

pub mod error;
pub mod token;
pub mod crypto;
pub mod models;
pub mod login;
pub mod header;

verus! {

} // verus!
