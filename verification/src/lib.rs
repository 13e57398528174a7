//! Email-and-password authentication with an optional second factor:
//! validated domain values, identity / challenge / revocation stores,
//! signed bearer tokens, and the request flows that tie them together.

pub mod domain;
pub mod routes;
pub mod services;
pub mod utils;
