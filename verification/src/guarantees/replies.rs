//! What replies guarantee: how errors are told, and what is not told with them.

use vstd::prelude::*;
use vstd::utf8::*;

use crate::error::{json_error, transport_failure, AppError, TransportError};
use crate::http::Reply;
use crate::json::{json_text, Tree};
use crate::payment::{Answer, Outcome};

verus! {

/// Whether a reply has one header, and this one.
pub open spec fn has_only(reply: Reply, name: Seq<char>, value: Seq<u8>) -> bool {
    &&& reply.headers.entries@.len() == 1
    &&& reply.headers.entries@[0].name@ == name
    &&& reply.headers.entries@[0].value@ == value
}

/// Whether a reply tells a client of an error: this status, and this message as JSON.
pub open spec fn tells(reply: Reply, status: u16, message: Seq<char>) -> bool {
    &&& reply.status == status
    &&& has_only(reply, "content-type"@, encode_utf8("application/json"@))
    &&& reply.body@ == encode_utf8(
        json_text(Tree::Object(seq![("error"@, Tree::Text(message))])),
    )
}

/// Whether two replies are the same to a client.
pub open spec fn same_reply(a: Reply, b: Reply) -> bool {
    a.status == b.status && a.headers@ == b.headers@ && a.body@ == b.body@
}

pub(crate) proof fn lemma_one_header(reply: Reply, name: Seq<char>, value: Seq<u8>)
    requires
        reply.headers@ == seq![(name, value)],
    ensures
        has_only(reply, name, value),
{
    assert(reply.headers@.len() == 1);
    assert(reply.headers@[0] == (name, value));
}

/// An error is told by its status, and its message as the one member of a JSON object.
pub proof fn an_error_is_told_as_json(status: u16, message: &str, reply: Reply)
    requires
        call_ensures(json_error, (status, message), reply),
    ensures
        tells(reply, status, message@),
{
    lemma_one_header(reply, "content-type"@, encode_utf8("application/json"@));
}

/// Each error has its status and message. The detail of a bad request is told; the cause of
/// a server error is not.
pub proof fn each_error_has_its_reply(err: AppError, reply: Reply)
    requires
        call_ensures(AppError::into_response, (err,), reply),
    ensures
        match err {
            AppError::Upstream(_) => tells(reply, 502, "upstream error"@),
            AppError::BadRequest(detail) => tells(reply, 400, detail@),
            AppError::MissingConfig(_) => tells(reply, 500, "server misconfigured"@),
            AppError::InvalidConfig(_) => tells(reply, 500, "server misconfigured"@),
        },
{
    lemma_one_header(reply, "content-type"@, encode_utf8("application/json"@));
}

/// No client learns the cause of a server error: whatever it was, the reply is the same.
pub proof fn server_errors_keep_their_cause(
    first: AppError,
    second: AppError,
    first_reply: Reply,
    second_reply: Reply,
)
    requires
        call_ensures(AppError::into_response, (first,), first_reply),
        call_ensures(AppError::into_response, (second,), second_reply),
        first_reply.status == second_reply.status,
        first_reply.status >= 500,
    ensures
        same_reply(first_reply, second_reply),
{
}

/// The logs tell what kind of error it was and its detail, verbatim.
pub proof fn the_logs_tell_the_detail(err: AppError, text: String)
    requires
        call_ensures(AppError::message, (&err,), text),
    ensures
        match err {
            AppError::Upstream(_) => text@ == "upstream Brave Search API call failed"@,
            AppError::BadRequest(detail) => text@ == "invalid request: "@ + detail@,
            AppError::MissingConfig(name) => text@ == "missing required configuration: "@ + name@,
            AppError::InvalidConfig(detail) => text@ == "invalid configuration: "@ + detail@,
        },
{
}

/// A transport failure has one of four labels, and a deadline that passed tells before a
/// connection that failed, and that before a response that could not be decoded.
pub proof fn a_transport_failure_has_one_label(err: &TransportError, label: &'static str)
    requires
        call_ensures(transport_failure, (err,), label),
    ensures
        err.timeout ==> label@ == "timeout"@,
        err.connect && !err.timeout ==> label@ == "connect"@,
        err.decode && !err.connect && !err.timeout ==> label@ == "decode"@,
        !err.decode && !err.connect && !err.timeout ==> label@ == "transport"@,
{
}

/// An answer that charges nothing charges nothing, and hands the reply on as it is.
pub proof fn an_uncharged_answer_hands_the_reply_on(reply: Reply, outcome: Outcome, answer: Answer)
    requires
        call_ensures(Answer::uncharged, (reply, outcome), answer),
    ensures
        same_reply(answer.reply, reply),
        answer.outcome == outcome,
        answer.charged is None,
{
}

/// The health probe is answered with `200` and an empty body.
pub proof fn the_probe_is_answered(reply: Reply)
    requires
        call_ensures(crate::health, (), reply),
    ensures
        reply.status == 200,
        reply.headers.entries@.len() == 0,
        reply.body@.len() == 0,
{
    assert(reply.headers@.len() == 0);
}

} // verus!
