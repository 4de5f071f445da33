//! A multi-transport DNS query bridge: request validation, the IPv6 answer
//! policy, forwarding to an exchanger, response assembly, TLS material
//! selection and the best-effort startup of the five listeners.

pub mod bridge;
pub mod certs;
pub mod error;
pub mod listener;
pub mod message;

pub use error::DNSError;
