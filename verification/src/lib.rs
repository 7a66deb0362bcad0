//! The request-handling logic of the Umamurl URL shortener: who may do what,
//! what each endpoint answers, how short URLs and analytics events are built,
//! and how passwords are checked and stored.

pub mod access;
pub mod analytics;
pub mod endpoint_laws;
pub mod laws;
pub mod links;
pub mod login;
pub mod settings;
pub mod text;
pub mod types;

use vstd::prelude::*;

verus! {

} // verus!
