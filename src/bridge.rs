//! The request/response bridge, as a machine that the transport drives: it
//! hands in the request, the exchanger's IPv6 policy when asked for, and the
//! exchanger's answer, and gets back what to do next.
use crate::error::DNSError;
use crate::message::{
    blank_header, reply_header, Edns, Header, Message, MessageType, OpCode, Request, Response,
    RECORD_TYPE_AAAA, RESPONSE_CODE_NO_ERROR, RESPONSE_CODE_SERV_FAIL,
};
use vstd::prelude::*;

verus! {

/// What the bridge keeps while the exchanger works on a forwarded query.
#[derive(Clone, Copy, Debug, PartialEq, Eq, Structural)]
pub struct Pending {
    /// The header that the response starts from.
    pub header: Header,
    /// Whether the client asked for DNSSEC records (EDNS with DNSSEC-OK).
    pub dnssec_requested: bool,
}

/// What the transport does next for a request.
pub enum Step<R> {
    /// The request is refused; the transport answers `ServFail`.
    Fail(DNSError),
    /// Ask the exchanger whether IPv6 answers are wanted, then call `on_ipv6`.
    AskIpv6(Request<R>),
    /// Send this response; the exchanger is not called.
    Reply(Response<R>),
    /// Hand the message to the exchanger, then call `on_answer`.
    Exchange(Message<R>, Pending),
}

/// A standard query: operation QUERY in a request message.
pub open spec fn is_standard_query(h: Header) -> bool {
    h.op_code == OpCode::Query && h.message_type == MessageType::Query
}

/// An IPv6 question that the exchanger's policy turns away.
pub open spec fn ipv6_filtered(query_type: u16, ipv6: bool) -> bool {
    query_type == RECORD_TYPE_AAAA && !ipv6
}

/// The header of the message forwarded for a request with header `h`.
pub open spec fn forward_header(h: Header) -> Header {
    Header {
        op_code: h.op_code,
        message_type: h.message_type,
        recursion_desired: h.recursion_desired,
        ..blank_header()
    }
}

/// The header of the empty, authoritative answer to a filtered question.
pub open spec fn empty_reply_header(h: Header) -> Header {
    Header { authoritative: true, ..reply_header(h) }
}

/// The header of the minimal failure response.
pub open spec fn failure_header(h: Header) -> Header {
    Header { response_code: RESPONSE_CODE_SERV_FAIL, ..reply_header(h) }
}

/// Whether EDNS with DNSSEC-OK came with the request.
pub open spec fn asks_dnssec(edns: Option<Edns>) -> bool {
    match edns {
        Some(e) => e.dnssec_ok,
        None => false,
    }
}

/// What the bridge remembers for request `req`.
pub open spec fn pending_for<R>(req: Request<R>) -> Pending {
    Pending { header: reply_header(req.header), dnssec_requested: asks_dnssec(req.edns) }
}

/// `fwd` carries the operation, message type, recursion-desired flag,
/// question, additional, name-server and SIG(0) records, and EDNS block of
/// `req`, and nothing else.
pub open spec fn forwards<R>(req: Request<R>, fwd: Message<R>) -> bool {
    &&& fwd.header == forward_header(req.header)
    &&& fwd.queries@ == seq![req.query]
    &&& fwd.answers@.len() == 0
    &&& fwd.additionals@ == req.additionals@
    &&& fwd.name_servers@ == req.name_servers@
    &&& fwd.sig0@ == req.sig0@
    &&& fwd.edns == req.edns
}

/// `s` forwards `req` to the exchanger.
pub open spec fn is_forward_step<R>(req: Request<R>, s: Step<R>) -> bool {
    match s {
        Step::Exchange(fwd, p) => forwards(req, fwd) && p == pending_for(req),
        _ => false,
    }
}

/// `r` holds no records and no EDNS block.
pub open spec fn is_empty_response<R>(r: Response<R>) -> bool {
    &&& r.answers@.len() == 0
    &&& r.name_servers@.len() == 0
    &&& r.additionals@.len() == 0
    &&& r.edns is None
}

/// `s` answers `req` at once with an empty, authoritative response.
pub open spec fn is_empty_reply_step<R>(req: Request<R>, s: Step<R>) -> bool {
    match s {
        Step::Reply(r) => r.header == empty_reply_header(req.header) && is_empty_response(r),
        _ => false,
    }
}

/// The response header for an answer with header `ans`, started from `base`:
/// recursion-available, the response code, the authoritative flag and the
/// three record counts come from the answer.
pub open spec fn answered_header(base: Header, ans: Header) -> Header {
    Header {
        recursion_available: ans.recursion_available,
        response_code: ans.response_code,
        authoritative: ans.authoritative,
        answer_count: ans.answer_count,
        name_server_count: ans.name_server_count,
        additional_count: ans.additional_count,
        ..base
    }
}

/// The EDNS block of the response: the answer's, and only where the client
/// asked for DNSSEC.
pub open spec fn echoed_edns(dnssec_requested: bool, ans: Option<Edns>) -> Option<Edns> {
    if dnssec_requested {
        ans
    } else {
        None
    }
}

/// `resp` is the response built for answer `ans` to the request remembered
/// by `p`.
pub open spec fn responds<R>(p: Pending, ans: Message<R>, resp: Response<R>) -> bool {
    &&& resp.header == answered_header(p.header, ans.header)
    &&& resp.answers@ == ans.answers@
    &&& resp.name_servers@ == ans.name_servers@
    &&& resp.additionals@ == ans.additionals@
    &&& resp.edns == echoed_edns(p.dnssec_requested, ans.edns)
}

/// The name of an operation, as DNS tools print it.
pub open spec fn op_code_name(op: OpCode) -> Seq<char> {
    match op {
        OpCode::Query => "QUERY"@,
        OpCode::Status => "STATUS"@,
        OpCode::Notify => "NOTIFY"@,
        OpCode::Update => "UPDATE"@,
    }
}

/// The name of a message type, as DNS tools print it.
pub open spec fn message_type_name(t: MessageType) -> Seq<char> {
    match t {
        MessageType::Query => "QUERY"@,
        MessageType::Response => "RESPONSE"@,
    }
}

/// The message of the error for a request with header `h` that is not a
/// standard query: the operation is checked first.
pub open spec fn refusal_text(h: Header) -> Seq<char> {
    if h.op_code != OpCode::Query {
        "invalid OP code: "@ + op_code_name(h.op_code)
    } else {
        "invalid message type: "@ + message_type_name(h.message_type)
    }
}

/// Relies on hickory-proto's `Display` for `OpCode`, which writes the
/// operation's upper-case name, to word the error.
#[verifier::external_body]
fn invalid_op_code_text(op: OpCode) -> (r: String)
    ensures
        r@ == "invalid OP code: "@ + op_code_name(op),
{
    let op = match op {
        OpCode::Query => hickory_proto::op::OpCode::Query,
        OpCode::Status => hickory_proto::op::OpCode::Status,
        OpCode::Notify => hickory_proto::op::OpCode::Notify,
        OpCode::Update => hickory_proto::op::OpCode::Update,
    };
    format!("invalid OP code: {}", op)
}

/// Relies on hickory-proto's `Display` for `MessageType`, which writes the
/// message type's upper-case name, to word the error.
#[verifier::external_body]
fn invalid_message_type_text(t: MessageType) -> (r: String)
    ensures
        r@ == "invalid message type: "@ + message_type_name(t),
{
    let t = match t {
        MessageType::Query => hickory_proto::op::MessageType::Query,
        MessageType::Response => hickory_proto::op::MessageType::Response,
    };
    format!("invalid message type: {}", t)
}

/// Checks that `h` is a standard query: the operation first, then the
/// message type.
pub fn check_request(h: &Header) -> (r: Result<(), DNSError>)
    ensures
        r is Ok <==> is_standard_query(*h),
        r is Err ==> r->Err_0 is InvalidOpQuery && r->Err_0->InvalidOpQuery_0@ == refusal_text(*h),
{
    if h.op_code != OpCode::Query {
        return Err(DNSError::InvalidOpQuery(invalid_op_code_text(h.op_code)));
    }
    if h.message_type != MessageType::Query {
        return Err(DNSError::InvalidOpQuery(invalid_message_type_text(h.message_type)));
    }
    Ok(())
}

/// Builds the message handed to the exchanger for `req`, and what the bridge
/// remembers for the response.
pub fn forward<R>(req: Request<R>) -> (r: (Message<R>, Pending))
    ensures
        forwards(req, r.0),
        r.1 == pending_for(req),
{
    let dnssec_requested = match &req.edns {
        Some(e) => e.dnssec_ok,
        None => false,
    };
    let pending = Pending { header: Header::response_from_request(&req.header), dnssec_requested };
    let mut header = Header::new();
    header.op_code = req.header.op_code;
    header.message_type = req.header.message_type;
    header.recursion_desired = req.header.recursion_desired;
    let mut queries: Vec<crate::message::Question> = Vec::new();
    queries.push(req.query);
    let fwd = Message {
        header,
        queries,
        answers: Vec::new(),
        name_servers: req.name_servers,
        additionals: req.additionals,
        sig0: req.sig0,
        edns: req.edns,
    };
    proof {
        assert(fwd.queries@ =~= seq![req.query]);
    }
    (fwd, pending)
}

/// The empty, authoritative response to a filtered question.
fn empty_reply<R>(h: &Header) -> (r: Response<R>)
    ensures
        r.header == empty_reply_header(*h),
        is_empty_response(r),
{
    let mut header = Header::response_from_request(h);
    header.authoritative = true;
    Response {
        header,
        answers: Vec::new(),
        name_servers: Vec::new(),
        additionals: Vec::new(),
        edns: None,
    }
}

/// First step for an inbound request: refuse anything but a standard query;
/// for an IPv6 question ask for the exchanger's policy; else forward.
pub fn on_request<R>(req: Request<R>) -> (s: Step<R>)
    ensures
        !is_standard_query(req.header) <==> s is Fail,
        s is Fail ==> s->Fail_0 is InvalidOpQuery && s->Fail_0->InvalidOpQuery_0@ == refusal_text(
            req.header,
        ),
        is_standard_query(req.header) && req.query.query_type == RECORD_TYPE_AAAA ==> s
            == Step::AskIpv6(req),
        is_standard_query(req.header) && req.query.query_type != RECORD_TYPE_AAAA
            ==> is_forward_step(req, s),
{
    match check_request(&req.header) {
        Err(e) => Step::Fail(e),
        Ok(()) => {
            if req.query.query_type == RECORD_TYPE_AAAA {
                Step::AskIpv6(req)
            } else {
                let (fwd, p) = forward(req);
                Step::Exchange(fwd, p)
            }
        },
    }
}

/// Step after the exchanger's IPv6 policy is known: an IPv6 question that
/// the policy turns away gets an empty, authoritative answer; anything else
/// is forwarded.
pub fn on_ipv6<R>(req: Request<R>, ipv6: bool) -> (s: Step<R>)
    ensures
        ipv6_filtered(req.query.query_type, ipv6) ==> is_empty_reply_step(req, s),
        !ipv6_filtered(req.query.query_type, ipv6) ==> is_forward_step(req, s),
{
    if req.query.query_type == RECORD_TYPE_AAAA && !ipv6 {
        Step::Reply(empty_reply(&req.header))
    } else {
        let (fwd, p) = forward(req);
        Step::Exchange(fwd, p)
    }
}

/// Last step: build the response from the exchanger's answer, or fail with
/// its error message.
pub fn on_answer<R>(p: Pending, ans: Result<Message<R>, String>) -> (r: Result<
    Response<R>,
    DNSError,
>)
    ensures
        match ans {
            Ok(m) => r is Ok && responds(p, m, r->Ok_0),
            Err(e) => r == Err::<Response<R>, DNSError>(DNSError::QueryFailed(e)),
        },
{
    match ans {
        Err(e) => Err(DNSError::QueryFailed(e)),
        Ok(m) => {
            let mut header = p.header;
            header.recursion_available = m.header.recursion_available;
            header.response_code = m.header.response_code;
            header.authoritative = m.header.authoritative;
            header.answer_count = m.header.answer_count;
            header.name_server_count = m.header.name_server_count;
            header.additional_count = m.header.additional_count;
            let edns = if p.dnssec_requested {
                m.edns
            } else {
                None
            };
            Ok(
                Response {
                    header,
                    answers: m.answers,
                    name_servers: m.name_servers,
                    additionals: m.additionals,
                    edns,
                },
            )
        },
    }
}

/// The minimal response sent in place of any failure: `ServFail`, no records.
pub fn failure_response<R>(h: &Header) -> (r: Response<R>)
    ensures
        r.header == failure_header(*h),
        is_empty_response(r),
{
    let mut header = Header::response_from_request(h);
    header.response_code = RESPONSE_CODE_SERV_FAIL;
    Response {
        header,
        answers: Vec::new(),
        name_servers: Vec::new(),
        additionals: Vec::new(),
        edns: None,
    }
}

/// A request that is not a standard query (another operation, or a response
/// message) is refused, and the response that takes its place is `ServFail`.
pub proof fn law_non_query_is_refused(h: Header)
    requires
        h.op_code != OpCode::Query || h.message_type != MessageType::Query,
    ensures
        !is_standard_query(h),
        failure_header(h).response_code == RESPONSE_CODE_SERV_FAIL,
{
}

/// An IPv6 question, when the exchanger's policy declines IPv6, is answered
/// at once with success, the authoritative flag set and no records.
pub proof fn law_declined_ipv6_answer(h: Header, ipv6: bool)
    requires
        !ipv6,
    ensures
        ipv6_filtered(RECORD_TYPE_AAAA, ipv6),
        empty_reply_header(h).response_code == RESPONSE_CODE_NO_ERROR,
        empty_reply_header(h).authoritative,
        empty_reply_header(h).message_type == MessageType::Response,
{
}

/// A forwarded message keeps the request's operation, message type,
/// recursion-desired flag, question, and additional, name-server and SIG(0)
/// records, in order.
pub proof fn law_forward_preserves_request<R>(req: Request<R>, fwd: Message<R>)
    requires
        forwards(req, fwd),
    ensures
        fwd.header.op_code == req.header.op_code,
        fwd.header.message_type == req.header.message_type,
        fwd.header.recursion_desired == req.header.recursion_desired,
        fwd.queries@.len() == 1 && fwd.queries@[0] == req.query,
        fwd.additionals@ == req.additionals@,
        fwd.name_servers@ == req.name_servers@,
        fwd.sig0@ == req.sig0@,
{
}

/// The response carries an EDNS block if and only if the request had EDNS
/// with DNSSEC-OK and the answer carries one; it is then the answer's.
pub proof fn law_dnssec_echo(req_edns: Option<Edns>, ans_edns: Option<Edns>)
    ensures
        echoed_edns(asks_dnssec(req_edns), ans_edns) is Some <==> (asks_dnssec(req_edns)
            && ans_edns is Some),
        echoed_edns(asks_dnssec(req_edns), ans_edns) is Some ==> echoed_edns(
            asks_dnssec(req_edns),
            ans_edns,
        ) == ans_edns,
{
}

/// When the exchanger fails, the bridge fails with its message, and the
/// response that takes its place is `ServFail` with no records.
pub proof fn law_exchange_failure_is_servfail(h: Header)
    ensures
        failure_header(h).response_code == RESPONSE_CODE_SERV_FAIL,
        failure_header(h).message_type == MessageType::Response,
        failure_header(h).answer_count == 0,
        failure_header(h).name_server_count == 0,
        failure_header(h).additional_count == 0,
{
}

} // verus!
