//! A client for the Kraken cryptocurrency exchange's REST API: a registry of
//! optional arguments, the query strings built from it, nonces, and the signed
//! requests that private end-points require.
#![allow(non_camel_case_types)]

pub mod client;
pub mod crypto;
pub mod error;
pub mod nonce;
pub mod options;
pub mod orders;
pub mod query;

pub use client::{connect, Kraken_API, PrivateRequest, SentRequest, Transport};
pub use error::ApiError;
pub use options::API_Option;
pub use orders::{Instruction, Order_Type, Report_Type};
