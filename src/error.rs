use vstd::prelude::*;

verus! {

#[verifier::external_type_specification]
#[verifier::external_body]
pub struct ExIoError(std::io::Error);

/// What can go wrong while serving a request or running the server.
#[derive(Debug)]
pub enum DNSError {
    /// A socket, transport or file failure.
    Io(std::io::Error),
    /// The request is not a standard query (wrong operation or a response).
    InvalidOpQuery(String),
    /// The exchanger failed; its message.
    QueryFailed(String),
}

} // verus!
