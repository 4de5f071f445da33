//! The library's own model of a DNS message: the header as plain values,
//! names and EDNS options carried as opaque values of hickory-proto, and
//! resource records of any type `R` (the transport uses hickory-proto's).
use vstd::prelude::*;

verus! {

#[verifier::external_type_specification]
#[verifier::external_body]
pub struct ExName(hickory_proto::rr::Name);

#[verifier::external_type_specification]
#[verifier::external_body]
pub struct ExOpt(hickory_proto::rr::rdata::OPT);

/// The record type code of `AAAA` (an IPv6 address).
pub const RECORD_TYPE_AAAA: u16 = 28;

/// Response code `NoError`.
pub const RESPONSE_CODE_NO_ERROR: u16 = 0;

/// Response code `ServFail`.
pub const RESPONSE_CODE_SERV_FAIL: u16 = 2;

/// The operation of a message.
#[derive(Clone, Copy, Debug, PartialEq, Eq, Structural)]
pub enum OpCode {
    Query,
    Status,
    Notify,
    Update,
}

/// Whether a message is a request or a response.
#[derive(Clone, Copy, Debug, PartialEq, Eq, Structural)]
pub enum MessageType {
    Query,
    Response,
}

/// The fixed header of a DNS message.
#[derive(Clone, Copy, Debug, PartialEq, Eq, Structural)]
pub struct Header {
    pub id: u16,
    pub message_type: MessageType,
    pub op_code: OpCode,
    pub authoritative: bool,
    pub truncation: bool,
    pub recursion_desired: bool,
    pub recursion_available: bool,
    pub authentic_data: bool,
    pub checking_disabled: bool,
    pub response_code: u16,
    pub query_count: u16,
    pub answer_count: u16,
    pub name_server_count: u16,
    pub additional_count: u16,
}

/// The header of a fresh message: a query with every flag clear.
pub open spec fn blank_header() -> Header {
    Header {
        id: 0,
        message_type: MessageType::Query,
        op_code: OpCode::Query,
        authoritative: false,
        truncation: false,
        recursion_desired: false,
        recursion_available: false,
        authentic_data: false,
        checking_disabled: false,
        response_code: RESPONSE_CODE_NO_ERROR,
        query_count: 0,
        answer_count: 0,
        name_server_count: 0,
        additional_count: 0,
    }
}

/// The header that starts a response to a request with header `h`: it keeps
/// the id, the operation, recursion-desired and checking-disabled, and
/// clears everything else.
pub open spec fn reply_header(h: Header) -> Header {
    Header {
        id: h.id,
        message_type: MessageType::Response,
        op_code: h.op_code,
        authoritative: false,
        truncation: false,
        recursion_desired: h.recursion_desired,
        recursion_available: false,
        authentic_data: false,
        checking_disabled: h.checking_disabled,
        response_code: RESPONSE_CODE_NO_ERROR,
        query_count: 0,
        answer_count: 0,
        name_server_count: 0,
        additional_count: 0,
    }
}

impl Header {
    /// A header with every flag clear, for a new query.
    pub fn new() -> (r: Header)
        ensures
            r == blank_header(),
    {
        Header {
            id: 0,
            message_type: MessageType::Query,
            op_code: OpCode::Query,
            authoritative: false,
            truncation: false,
            recursion_desired: false,
            recursion_available: false,
            authentic_data: false,
            checking_disabled: false,
            response_code: RESPONSE_CODE_NO_ERROR,
            query_count: 0,
            answer_count: 0,
            name_server_count: 0,
            additional_count: 0,
        }
    }

    /// The header that starts the response to a request with this header.
    pub fn response_from_request(h: &Header) -> (r: Header)
        ensures
            r == reply_header(*h),
    {
        Header {
            id: h.id,
            message_type: MessageType::Response,
            op_code: h.op_code,
            authoritative: false,
            truncation: false,
            recursion_desired: h.recursion_desired,
            recursion_available: false,
            authentic_data: false,
            checking_disabled: h.checking_disabled,
            response_code: RESPONSE_CODE_NO_ERROR,
            query_count: 0,
            answer_count: 0,
            name_server_count: 0,
            additional_count: 0,
        }
    }
}

/// The EDNS block of a message (the OPT pseudo-record).
pub struct Edns {
    pub rcode_high: u8,
    pub version: u8,
    pub dnssec_ok: bool,
    pub max_payload: u16,
    pub options: hickory_proto::rr::rdata::OPT,
}

/// A question: the name asked for, its record type and its class.
pub struct Question {
    pub name: hickory_proto::rr::Name,
    pub query_type: u16,
    pub query_class: u16,
}

/// An inbound request as the transport parsed it: one question.
pub struct Request<R> {
    pub header: Header,
    pub query: Question,
    pub additionals: Vec<R>,
    pub name_servers: Vec<R>,
    pub sig0: Vec<R>,
    pub edns: Option<Edns>,
}

/// A whole message: what is handed to the exchanger and what it answers.
pub struct Message<R> {
    pub header: Header,
    pub queries: Vec<Question>,
    pub answers: Vec<R>,
    pub name_servers: Vec<R>,
    pub additionals: Vec<R>,
    pub sig0: Vec<R>,
    pub edns: Option<Edns>,
}

/// The response sent back on the transport; the transport echoes the
/// request's question in it.
pub struct Response<R> {
    pub header: Header,
    pub answers: Vec<R>,
    pub name_servers: Vec<R>,
    pub additionals: Vec<R>,
    pub edns: Option<Edns>,
}

} // verus!
