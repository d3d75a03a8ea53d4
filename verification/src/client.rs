//! The request and result types of one round trip, and the reading of a reply.
//!
//! Sending a request is the caller's business. What the library fixes is how
//! a reply is read: a transport failure, a status outside the 2xx range and a
//! body that is no JSON each become a failure of their own kind.

use crate::json::{parse_json, parsed_json, Json};
use crate::text::{decimal, decimal_text, pairs_view};
use vstd::prelude::*;
use vstd::string::*;

verus! {

/// The kinds of failure that an action can report.
#[derive(Clone, Copy, Debug, PartialEq, Eq, Structural)]
pub enum ErrorKind {
    /// The cookie cannot be sent as a header value.
    InvalidCookieFormat,
    /// The request never got an answer.
    NetworkError,
    /// The answer carried a status outside the 2xx range.
    HttpStatusError,
    /// The body of a 2xx answer is no JSON.
    DecodeError,
    /// The timeline lookup names no topic.
    TopicNotFound,
    /// The handshake names no client.
    HandshakeFailed,
    /// The platform reported an error inside a 2xx answer.
    PlatformError,
}

/// The outcome of one round trip or of a whole action.
#[derive(Debug, PartialEq, Eq)]
pub enum ActionResult {
    Success(Json),
    Failure(ErrorKind, String),
}

#[derive(Clone, Copy, Debug, PartialEq, Eq, Structural)]
pub enum Method {
    Get,
    Post,
}

/// What a request carries.
#[derive(Debug, PartialEq, Eq)]
pub enum Body {
    Empty,
    /// Fields to be sent form-encoded, in this order.
    Form(Vec<(String, String)>),
    /// A JSON document, as the text to be sent.
    Json(String),
}

/// One request, complete: nothing is added to it before it is sent.
#[derive(Debug, PartialEq, Eq)]
pub struct ActionRequest {
    pub method: Method,
    pub url: String,
    pub headers: Vec<(String, String)>,
    pub body: Body,
}

/// What came of sending a request.
#[derive(Debug, PartialEq, Eq)]
pub enum Reply {
    /// The transport failed; the text says how.
    Unreachable(String),
    /// An answer arrived, with this status code and body.
    Answered(u16, String),
}

pub ghost enum BodyView {
    Empty,
    Form(Seq<(Seq<char>, Seq<char>)>),
    Json(Seq<char>),
}

pub ghost struct RequestView {
    pub method: Method,
    pub url: Seq<char>,
    pub headers: Seq<(Seq<char>, Seq<char>)>,
    pub body: BodyView,
}

impl View for Body {
    type V = BodyView;

    open spec fn view(&self) -> BodyView {
        match self {
            Body::Empty => BodyView::Empty,
            Body::Form(fields) => BodyView::Form(pairs_view(fields@)),
            Body::Json(text) => BodyView::Json(text@),
        }
    }
}

impl View for ActionRequest {
    type V = RequestView;

    open spec fn view(&self) -> RequestView {
        RequestView {
            method: self.method,
            url: self.url@,
            headers: pairs_view(self.headers@),
            body: self.body@,
        }
    }
}

/// Seconds after which a request that has no answer yet is given up.
pub const TIMEOUT_SECONDS: u64 = 10;

/// A status in the 2xx range.
pub open spec fn is_success(status: u16) -> bool {
    200 <= status < 300
}

/// The reason phrase that `http::StatusCode::canonical_reason` gives for
/// `status`, where it knows one.
pub uninterp spec fn canonical_reason_text(status: u16) -> Option<Seq<char>>;

/// The text of a reason, empty where there is none.
pub open spec fn reason_or_empty(reason: Option<Seq<char>>) -> Seq<char> {
    match reason {
        Some(s) => s,
        None => Seq::empty(),
    }
}

/// The reason phrase shown for `status`: the canonical one for a code of three
/// digits that has one, else nothing.
pub open spec fn reason_phrase(status: u16) -> Seq<char> {
    if 100 <= status <= 999 {
        reason_or_empty(canonical_reason_text(status))
    } else {
        Seq::empty()
    }
}

/// The message of a status failure: the code in decimal, a space, the reason.
pub open spec fn status_line(status: u16, reason: Seq<char>) -> Seq<char> {
    decimal(status as nat) + seq![' '] + reason
}

/// Calls `StatusCode::from_u16` and then `canonical_reason` on the status it
/// made. The first accepts exactly the codes from 100 to 999, which is what is
/// required here; the second looks the code up in a fixed table, and the
/// contract names what it finds.
#[verifier::external_body]
fn canonical_reason(status: u16) -> (r: Option<String>)
    requires
        100 <= status <= 999,
    ensures
        match r {
            Some(s) => canonical_reason_text(status) == Some(s@),
            None => canonical_reason_text(status) is None,
        },
{
    match reqwest::StatusCode::from_u16(status) {
        Ok(code) => code.canonical_reason().map(String::from),
        Err(_) => None,
    }
}

/// Whether a status counts as success.
pub fn status_is_success(status: u16) -> (r: bool)
    ensures
        r == is_success(status),
{
    200 <= status && status < 300
}

/// The failure reported for an answer whose status is outside the 2xx range.
/// Its message always begins with the status code in decimal.
pub fn status_failure(status: u16, reason: Option<String>) -> (r: ActionResult)
    ensures
        r matches ActionResult::Failure(kind, message) && kind == ErrorKind::HttpStatusError
            && message@ == status_line(
            status,
            match reason {
                Some(s) => s@,
                None => Seq::empty(),
            },
        ),
{
    let mut message = decimal_text(status as u32);
    message.append(" ");
    proof {
        reveal_strlit(" ");
        assert(" "@ =~= seq![' ']);
    }
    match reason {
        Some(s) => {
            message.append(s.as_str());
        },
        None => {
            assert(message@ + Seq::<char>::empty() =~= message@);
        },
    }
    ActionResult::Failure(ErrorKind::HttpStatusError, message)
}

/// The result of a 2xx answer, given what the parser made of its body.
pub fn decoded(parsed: Result<Json, String>) -> (r: ActionResult)
    ensures
        match parsed {
            Ok(j) => r == ActionResult::Success(j),
            Err(detail) => r == ActionResult::Failure(ErrorKind::DecodeError, detail),
        },
{
    match parsed {
        Ok(j) => ActionResult::Success(j),
        Err(detail) => ActionResult::Failure(ErrorKind::DecodeError, detail),
    }
}

/// The words that introduce a failure of each kind. An error of the platform
/// is reported in the platform's own words, with nothing in front.
pub open spec fn kind_label(kind: ErrorKind) -> Seq<char> {
    match kind {
        ErrorKind::InvalidCookieFormat => "非法Cookie格式: "@,
        ErrorKind::NetworkError => "网络请求失败: "@,
        ErrorKind::HttpStatusError => "HTTP错误: "@,
        ErrorKind::DecodeError => "JSON解析失败: "@,
        ErrorKind::TopicNotFound => "未找到topicId: "@,
        ErrorKind::HandshakeFailed => "未获取到clientId: "@,
        ErrorKind::PlatformError => ""@,
    }
}

fn kind_label_text(kind: ErrorKind) -> (r: &'static str)
    ensures
        r@ == kind_label(kind),
{
    match kind {
        ErrorKind::InvalidCookieFormat => "非法Cookie格式: ",
        ErrorKind::NetworkError => "网络请求失败: ",
        ErrorKind::HttpStatusError => "HTTP错误: ",
        ErrorKind::DecodeError => "JSON解析失败: ",
        ErrorKind::TopicNotFound => "未找到topicId: ",
        ErrorKind::HandshakeFailed => "未获取到clientId: ",
        ErrorKind::PlatformError => "",
    }
}

/// What an action hands to its caller: the body of the last answer, or one
/// line of text that says what went wrong.
pub fn into_outcome(result: ActionResult) -> (r: Result<Json, String>)
    ensures
        match result {
            ActionResult::Success(body) => r == Ok::<Json, String>(body),
            ActionResult::Failure(kind, message) => r matches Err(line) && line@ == kind_label(kind)
                + message@,
        },
{
    match result {
        ActionResult::Success(body) => Ok(body),
        ActionResult::Failure(kind, message) => {
            let mut line = String::from_str(kind_label_text(kind));
            line.append(message.as_str());
            Err(line)
        },
    }
}

/// `result` is how `reply` is read.
pub open spec fn reply_outcome(reply: Reply, result: ActionResult) -> bool {
    match reply {
        Reply::Unreachable(detail) => result == ActionResult::Failure(
            ErrorKind::NetworkError,
            detail,
        ),
        Reply::Answered(status, body) => if is_success(status) {
            match parsed_json(body@) {
                Ok(j) => result == ActionResult::Success(j),
                Err(detail) => result matches ActionResult::Failure(kind, message) && kind
                    == ErrorKind::DecodeError && message@ == detail,
            }
        } else {
            result matches ActionResult::Failure(kind, message) && kind
                == ErrorKind::HttpStatusError && message@ == status_line(
                status,
                reason_phrase(status),
            )
        },
    }
}

/// Reads a reply. A transport failure keeps its text. An answer outside the
/// 2xx range is a status failure whatever its body holds, and never a success.
/// A 2xx answer succeeds with the parsed body, or is a decode failure where
/// the body does not parse.
pub fn interpret(reply: Reply) -> (r: ActionResult)
    ensures
        reply_outcome(reply, r),
        reply is Answered && !is_success(reply->Answered_0) ==> (r matches ActionResult::Failure(
            kind,
            message,
        ) && kind == ErrorKind::HttpStatusError && decimal(
            reply->Answered_0 as nat,
        ).is_prefix_of(message@)),
        reply is Answered && is_success(reply->Answered_0) && parsed_json(reply->Answered_1@) is Err
            ==> (r matches ActionResult::Failure(kind, _) && kind == ErrorKind::DecodeError),
        r is Success ==> reply is Answered && is_success(reply->Answered_0) && parsed_json(
            reply->Answered_1@,
        ) is Ok,
{
    match reply {
        Reply::Unreachable(detail) => ActionResult::Failure(ErrorKind::NetworkError, detail),
        Reply::Answered(status, body) => {
            if status_is_success(status) {
                decoded(parse_json(body.as_str()))
            } else {
                let reason = if 100 <= status && status <= 999 {
                    canonical_reason(status)
                } else {
                    None
                };
                status_failure(status, reason)
            }
        },
    }
}

} // verus!
