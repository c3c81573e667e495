//! The core of an ACME v2 client: the JOSE layer, the protocol decisions of
//! one certificate issuance, and the HTTP-01 responder's routing, with
//! contracts that Verus proves.

pub mod base64url;
pub mod crypto;
pub mod driver;
pub mod error;
pub mod jose;
pub mod json;
pub mod machine;
pub mod persist;
pub mod responder;
pub mod text;
pub mod types;
pub mod util;
