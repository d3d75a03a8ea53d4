//! The four actions, each as a flow of requests.
//!
//! A flow never sends anything. Starting an action yields either its first
//! request, together with the state that waits for the reply, or a failure.
//! The caller sends the request and hands the reply to [`advance`], which
//! yields the next request or the final result. Listing followers and fetching
//! the login code take one request; commenting and messaging take two, the
//! second built from what the first reply names.

use crate::client::{
    interpret, is_success, reply_outcome, ActionRequest, ActionResult, Body, BodyView, ErrorKind,
    Method, Reply, RequestView,
};
use crate::cookie::{extract_token, token_value};
use crate::json::Json;
use crate::session::{
    fixed_headers, header_list, header_safe, push_fixed_headers, session_headers, Action,
    SessionContext,
};
use crate::text::{decimal, decimal_text, pairs_view, push_pair};
use vstd::prelude::*;
use vstd::string::*;

verus! {

/// What a flow is waiting for.
#[derive(Debug, PartialEq, Eq)]
pub enum Flow {
    /// The page of followers.
    Followers,
    /// The login code.
    QrCode,
    /// The timeline of the user to comment on; the comment is still to be sent.
    TopicLookup { cookie: String, comment: String },
    /// The answer to the comment.
    CommentPost,
    /// The messaging handshake; the message is still to be sent.
    Handshake { cookie: String, text: String, uid: String, source: String },
    /// The answer to the message.
    MessagePost,
}

/// What the caller does next.
#[derive(Debug, PartialEq, Eq)]
pub enum Step {
    /// Send the request, then call [`advance`] with the flow and the reply.
    Send(Flow, ActionRequest),
    /// The action is over, with this result.
    Done(ActionResult),
}

/// The size of the login code where the caller names none.
pub const DEFAULT_QR_SIZE: u32 = 180;

/// How many requests a flow may still ask for after the one it waits on.
pub open spec fn requests_left(flow: Flow) -> nat {
    match flow {
        Flow::TopicLookup { .. } => 1,
        Flow::Handshake { .. } => 1,
        _ => 0,
    }
}

pub open spec fn followers_url(page: u32, uid: Seq<char>) -> Seq<char> {
    "https://weibo.com/ajax/friendships/friends?relate=fans&page="@ + decimal(page as nat)
        + "&uid="@ + uid + "&type=fans"@
}

pub open spec fn timeline_url(uid: Seq<char>) -> Seq<char> {
    "https://weibo.com/ajax/statuses/searchProfile?uid="@ + uid
        + "&page=1&endtime=1752076800&hasori=1&hasret=1"@
}

pub open spec fn comment_url() -> Seq<char> {
    "https://weibo.com/ajax/comments/create"@
}

pub open spec fn handshake_url() -> Seq<char> {
    "https://web.im.weibo.com/im/handshake"@
}

pub open spec fn message_url() -> Seq<char> {
    "https://api.weibo.com/webim/2/direct_messages/new.json"@
}

pub open spec fn qrcode_url(size: u32) -> Seq<char> {
    "https://passport.weibo.com/sso/v2/qrcode/image?entry=miniblog&size="@ + decimal(size as nat)
}

/// The handshake descriptor: its id, the protocol version, the connection
/// types the client supports and the advice block.
pub open spec fn handshake_payload() -> Seq<char> {
    "[{\"id\":\"1\",\"version\":\"1.0\",\"minimumVersion\":\"1.0\",\"channel\":\"/meta/handshake\",\"supportedConnectionTypes\":[\"callback-polling\"],\"advice\":{\"timeout\":60000,\"interval\":0}}]"@
}

/// The `extensions` field of a message: the client named by the handshake.
pub open spec fn extensions_field(client_id: Seq<char>) -> Seq<char> {
    "{\"clientid\":\""@ + client_id + "\"}"@
}

/// The headers of the comment request: those of the session, and the
/// anti-forgery token of the cookie where it has one.
pub open spec fn comment_headers(cookie: Seq<char>) -> Seq<(Seq<char>, Seq<char>)> {
    let base = session_headers(cookie, Action::CommentCreate);
    match token_value(cookie, "XSRF-TOKEN"@) {
        Some(token) => base.push(("x-xsrf-token"@, token)),
        None => base,
    }
}

pub open spec fn followers_request(
    cookie: Seq<char>,
    page: u32,
    uid: Seq<char>,
) -> RequestView {
    RequestView {
        method: Method::Get,
        url: followers_url(page, uid),
        headers: session_headers(cookie, Action::ListFollowers),
        body: BodyView::Empty,
    }
}

pub open spec fn timeline_request(cookie: Seq<char>, uid: Seq<char>) -> RequestView {
    RequestView {
        method: Method::Get,
        url: timeline_url(uid),
        headers: session_headers(cookie, Action::TopicLookup),
        body: BodyView::Empty,
    }
}

pub open spec fn comment_request(
    cookie: Seq<char>,
    topic: Seq<char>,
    comment: Seq<char>,
) -> RequestView {
    RequestView {
        method: Method::Post,
        url: comment_url(),
        headers: comment_headers(cookie),
        body: BodyView::Form(
            seq![
                ("id"@, topic),
                ("comment"@, comment),
                ("is_repost"@, "0"@),
                ("comment_ori"@, "0"@),
                ("is_comment"@, "0"@),
            ],
        ),
    }
}

pub open spec fn handshake_request(cookie: Seq<char>) -> RequestView {
    RequestView {
        method: Method::Post,
        url: handshake_url(),
        headers: session_headers(cookie, Action::Handshake),
        body: BodyView::Json(handshake_payload()),
    }
}

pub open spec fn message_request(
    cookie: Seq<char>,
    text: Seq<char>,
    uid: Seq<char>,
    source: Seq<char>,
    client_id: Seq<char>,
) -> RequestView {
    RequestView {
        method: Method::Post,
        url: message_url(),
        headers: session_headers(cookie, Action::MessageSend),
        body: BodyView::Form(
            seq![
                ("text"@, text),
                ("uid"@, uid),
                ("extensions"@, extensions_field(client_id)),
                ("is_encoded"@, "0"@),
                ("decodetime"@, "1"@),
                ("source"@, source),
            ],
        ),
    }
}

pub open spec fn qrcode_request(size: u32) -> RequestView {
    RequestView {
        method: Method::Get,
        url: qrcode_url(size),
        headers: fixed_headers(Action::LoginQrCode),
        body: BodyView::Empty,
    }
}

/// The text at `data.list[0].idstr`, where the body has one.
pub open spec fn spec_topic_id(body: Json) -> Option<Seq<char>> {
    match body.spec_member("data"@) {
        Some(data) => match data.spec_member("list"@) {
            Some(list) => match list.spec_item(0) {
                Some(first) => match first.spec_member("idstr"@) {
                    Some(id) => id.spec_text(),
                    None => None,
                },
                None => None,
            },
            None => None,
        },
        None => None,
    }
}

/// The text at `[0].clientId`, where the body has one.
pub open spec fn spec_client_id(body: Json) -> Option<Seq<char>> {
    match body.spec_item(0) {
        Some(first) => match first.spec_member("clientId"@) {
            Some(id) => id.spec_text(),
            None => None,
        },
        None => None,
    }
}

/// The text of the member `error`, where the body is an object that has one
/// and it is a string.
pub open spec fn spec_platform_error(body: Json) -> Option<Seq<char>> {
    match body.spec_member("error"@) {
        Some(error) => error.spec_text(),
        None => None,
    }
}

/// A text, or its absence, as characters.
pub open spec fn text_view(text: Option<&str>) -> Option<Seq<char>> {
    match text {
        Some(s) => Some(s@),
        None => None,
    }
}

/// The identifier of the newest topic in a timeline body.
pub fn topic_id(body: &Json) -> (r: Option<&str>)
    ensures
        text_view(r) == spec_topic_id(*body),
{
    match body.member("data") {
        Some(data) => match data.member("list") {
            Some(list) => match list.item(0) {
                Some(first) => match first.member("idstr") {
                    Some(id) => id.text(),
                    None => None,
                },
                None => None,
            },
            None => None,
        },
        None => None,
    }
}

/// The client identifier that a handshake body names.
pub fn client_id(body: &Json) -> (r: Option<&str>)
    ensures
        text_view(r) == spec_client_id(*body),
{
    match body.item(0) {
        Some(first) => match first.member("clientId") {
            Some(id) => id.text(),
            None => None,
        },
        None => None,
    }
}

/// The error that the platform reports inside a body, if it reports one.
pub fn platform_error(body: &Json) -> (r: Option<&str>)
    ensures
        text_view(r) == spec_platform_error(*body),
{
    match body.member("error") {
        Some(error) => error.text(),
        None => None,
    }
}

/// What is said of a cookie that cannot be sent.
pub open spec fn cookie_refused_message() -> Seq<char> {
    "the cookie is no valid header value"@
}

/// What is said of a timeline that names no topic.
pub open spec fn topic_missing_message() -> Seq<char> {
    "data.list[0].idstr is missing or no string"@
}

/// What is said of a handshake that names no client.
pub open spec fn client_missing_message() -> Seq<char> {
    "[0].clientId is missing or no string"@
}

/// `step` ends a flow with a failure of `kind` that says `message`.
pub open spec fn fails_with(step: Step, kind: ErrorKind, message: Seq<char>) -> bool {
    step matches Step::Done(ActionResult::Failure(k, m)) && k == kind && m@ == message
}

/// The failure reported for a cookie that cannot be sent.
fn refused_cookie() -> (r: Step)
    ensures
        fails_with(r, ErrorKind::InvalidCookieFormat, cookie_refused_message()),
{
    Step::Done(
        ActionResult::Failure(
            ErrorKind::InvalidCookieFormat,
            String::from_str("the cookie is no valid header value"),
        ),
    )
}

/// A start with a cookie that cannot be sent ends at once, as
/// `InvalidCookieFormat`; any other start asks for `first` and waits.
pub open spec fn started(cookie: Seq<char>, first: RequestView, step: Step) -> bool {
    if header_safe(cookie) {
        step matches Step::Send(_, request) && request@ == first
    } else {
        fails_with(step, ErrorKind::InvalidCookieFormat, cookie_refused_message())
    }
}

/// Starts listing the followers of `uid`, one page of them.
pub fn fetch_fans(cookie: String, page: u32, uid: String) -> (r: Step)
    ensures
        started(cookie@, followers_request(cookie@, page, uid@), r),
        r matches Step::Send(flow, _) ==> flow is Followers,
{
    match SessionContext::new(cookie.as_str(), Action::ListFollowers) {
        Err(_) => refused_cookie(),
        Ok(session) => {
            let mut url = String::from_str(
                "https://weibo.com/ajax/friendships/friends?relate=fans&page=",
            );
            url.append(decimal_text(page).as_str());
            url.append("&uid=");
            url.append(uid.as_str());
            url.append("&type=fans");
            Step::Send(
                Flow::Followers,
                ActionRequest {
                    method: Method::Get,
                    url,
                    headers: session.base_headers,
                    body: Body::Empty,
                },
            )
        },
    }
}

/// Starts fetching the login code, of the size named or of the default one.
/// No cookie is involved, so this start never fails.
pub fn get_login_qrcode(size: Option<u32>) -> (r: Step)
    ensures
        r matches Step::Send(flow, request) && flow is QrCode && request@ == qrcode_request(
            match size {
                Some(s) => s,
                None => DEFAULT_QR_SIZE,
            },
        ),
{
    let size_value: u32 = match size {
        Some(s) => s,
        None => DEFAULT_QR_SIZE,
    };
    let mut url = String::from_str(
        "https://passport.weibo.com/sso/v2/qrcode/image?entry=miniblog&size=",
    );
    url.append(decimal_text(size_value).as_str());
    let mut headers: Vec<(String, String)> = Vec::new();
    push_fixed_headers(&mut headers, Action::LoginQrCode);
    proof {
        assert(pairs_view(headers@) =~= fixed_headers(Action::LoginQrCode));
    }
    Step::Send(Flow::QrCode, ActionRequest { method: Method::Get, url, headers, body: Body::Empty })
}

/// Starts commenting on the newest topic of `uid`: the first request looks the
/// topic up.
pub fn fetch_user_timeline(cookie: String, uid: String, comment_text: String) -> (r: Step)
    ensures
        started(cookie@, timeline_request(cookie@, uid@), r),
        r matches Step::Send(flow, _) ==> (flow matches Flow::TopicLookup { cookie: c, comment: m }
            && c@ == cookie@ && m@ == comment_text@),
{
    match SessionContext::new(cookie.as_str(), Action::TopicLookup) {
        Err(_) => refused_cookie(),
        Ok(session) => {
            let mut url = String::from_str("https://weibo.com/ajax/statuses/searchProfile?uid=");
            url.append(uid.as_str());
            url.append("&page=1&endtime=1752076800&hasori=1&hasret=1");
            Step::Send(
                Flow::TopicLookup { cookie, comment: comment_text },
                ActionRequest {
                    method: Method::Get,
                    url,
                    headers: session.base_headers,
                    body: Body::Empty,
                },
            )
        },
    }
}

/// Starts sending a direct message: the first request is the handshake.
pub fn send_direct_message(cookie: String, text: String, uid: String, source: String) -> (r: Step)
    ensures
        started(cookie@, handshake_request(cookie@), r),
        r matches Step::Send(flow, _) ==> (flow matches Flow::Handshake {
            cookie: c,
            text: t,
            uid: u,
            source: s,
        } && c@ == cookie@ && t@ == text@ && u@ == uid@ && s@ == source@),
{
    match SessionContext::new(cookie.as_str(), Action::Handshake) {
        Err(_) => refused_cookie(),
        Ok(session) => {
            let payload = String::from_str(
                "[{\"id\":\"1\",\"version\":\"1.0\",\"minimumVersion\":\"1.0\",\"channel\":\"/meta/handshake\",\"supportedConnectionTypes\":[\"callback-polling\"],\"advice\":{\"timeout\":60000,\"interval\":0}}]",
            );
            Step::Send(
                Flow::Handshake { cookie, text, uid, source },
                ActionRequest {
                    method: Method::Post,
                    url: String::from_str("https://web.im.weibo.com/im/handshake"),
                    headers: session.base_headers,
                    body: Body::Json(payload),
                },
            )
        },
    }
}

/// The request that posts `comment` on `topic`.
pub fn build_comment_request(cookie: &str, topic: &str, comment: &str) -> (r: ActionRequest)
    ensures
        r@ == comment_request(cookie@, topic@, comment@),
{
    let mut headers = header_list(cookie, Action::CommentCreate);
    match extract_token(cookie, "XSRF-TOKEN") {
        Some(token) => {
            push_pair(&mut headers, "x-xsrf-token", token.as_str());
        },
        None => {},
    }
    let mut form: Vec<(String, String)> = Vec::new();
    push_pair(&mut form, "id", topic);
    push_pair(&mut form, "comment", comment);
    push_pair(&mut form, "is_repost", "0");
    push_pair(&mut form, "comment_ori", "0");
    push_pair(&mut form, "is_comment", "0");
    proof {
        assert(pairs_view(form@) =~= comment_request(cookie@, topic@, comment@).body->Form_0);
    }
    ActionRequest {
        method: Method::Post,
        url: String::from_str("https://weibo.com/ajax/comments/create"),
        headers,
        body: Body::Form(form),
    }
}

/// The request that sends `text` to `uid` on behalf of the client that the
/// handshake named.
pub fn build_message_request(
    cookie: &str,
    text: &str,
    uid: &str,
    source: &str,
    client: &str,
) -> (r: ActionRequest)
    ensures
        r@ == message_request(cookie@, text@, uid@, source@, client@),
{
    let headers = header_list(cookie, Action::MessageSend);
    let mut extensions = String::from_str("{\"clientid\":\"");
    extensions.append(client);
    extensions.append("\"}");
    let mut form: Vec<(String, String)> = Vec::new();
    push_pair(&mut form, "text", text);
    push_pair(&mut form, "uid", uid);
    push_pair(&mut form, "extensions", extensions.as_str());
    push_pair(&mut form, "is_encoded", "0");
    push_pair(&mut form, "decodetime", "1");
    push_pair(&mut form, "source", source);
    proof {
        assert(pairs_view(form@) =~= message_request(
            cookie@,
            text@,
            uid@,
            source@,
            client@,
        ).body->Form_0);
    }
    ActionRequest {
        method: Method::Post,
        url: String::from_str("https://api.weibo.com/webim/2/direct_messages/new.json"),
        headers,
        body: Body::Form(form),
    }
}

/// `step` is what follows when `flow` meets `result`.
///
/// A failure ends every flow, unchanged. A success ends a flow that waits for
/// its last answer, with the body as the result; only the answer to a comment
/// is looked into first, and an error that the platform reports in it becomes
/// a `PlatformError` with the platform's own words. A success of a first step
/// that names no topic, or no client, ends the flow as `TopicNotFound` or
/// `HandshakeFailed`; one that names it asks for the second request.
pub open spec fn decided(flow: Flow, result: ActionResult, step: Step) -> bool {
    match result {
        ActionResult::Failure(_, _) => step == Step::Done(result),
        ActionResult::Success(body) => match flow {
            Flow::Followers | Flow::QrCode | Flow::MessagePost => step == Step::Done(result),
            Flow::CommentPost => match spec_platform_error(body) {
                Some(words) => fails_with(step, ErrorKind::PlatformError, words),
                None => step == Step::Done(result),
            },
            Flow::TopicLookup { cookie, comment } => match spec_topic_id(body) {
                Some(topic) => step matches Step::Send(next, request) && next is CommentPost
                    && request@ == comment_request(cookie@, topic, comment@),
                None => fails_with(step, ErrorKind::TopicNotFound, topic_missing_message()),
            },
            Flow::Handshake { cookie, text, uid, source } => match spec_client_id(body) {
                Some(client) => step matches Step::Send(next, request) && next is MessagePost
                    && request@ == message_request(cookie@, text@, uid@, source@, client),
                None => fails_with(step, ErrorKind::HandshakeFailed, client_missing_message()),
            },
        },
    }
}

/// A flow that waits for followers or for the login code ends with the first
/// reply, whatever it is: such an action sends exactly one request.
pub proof fn law_single_request(flow: Flow, result: ActionResult, step: Step)
    requires
        flow is Followers || flow is QrCode,
        decided(flow, result, step),
    ensures
        step == Step::Done(result),
{
}

/// A failed request ends its flow on the spot, with that failure: after a
/// failed first step the second request is never asked for.
pub proof fn law_failure_ends_flow(flow: Flow, result: ActionResult, step: Step)
    requires
        result is Failure,
        decided(flow, result, step),
    ensures
        step == Step::Done(result),
{
}

/// A request that a flow asks for after a reply is its last one: no action
/// sends more than two.
pub proof fn law_second_request_is_last(flow: Flow, result: ActionResult, step: Step)
    requires
        decided(flow, result, step),
        step is Send,
    ensures
        requests_left(flow) == 1,
        requests_left(step->Send_0) == 0,
{
}

/// Decides what follows when `flow` meets the result of its request.
pub fn decide(flow: Flow, result: ActionResult) -> (r: Step)
    ensures
        decided(flow, result, r),
        r matches Step::Send(next, _) ==> requests_left(next) < requests_left(flow),
{
    match result {
        ActionResult::Failure(kind, message) => Step::Done(ActionResult::Failure(kind, message)),
        ActionResult::Success(body) => match flow {
            Flow::Followers => Step::Done(ActionResult::Success(body)),
            Flow::QrCode => Step::Done(ActionResult::Success(body)),
            Flow::MessagePost => Step::Done(ActionResult::Success(body)),
            Flow::CommentPost => {
                let failure = match platform_error(&body) {
                    Some(words) => Some(String::from_str(words)),
                    None => None,
                };
                match failure {
                    Some(message) => Step::Done(
                        ActionResult::Failure(ErrorKind::PlatformError, message),
                    ),
                    None => Step::Done(ActionResult::Success(body)),
                }
            },
            Flow::TopicLookup { cookie, comment } => match topic_id(&body) {
                Some(topic) => Step::Send(
                    Flow::CommentPost,
                    build_comment_request(cookie.as_str(), topic, comment.as_str()),
                ),
                None => Step::Done(
                    ActionResult::Failure(
                        ErrorKind::TopicNotFound,
                        String::from_str("data.list[0].idstr is missing or no string"),
                    ),
                ),
            },
            Flow::Handshake { cookie, text, uid, source } => match client_id(&body) {
                Some(client) => Step::Send(
                    Flow::MessagePost,
                    build_message_request(
                        cookie.as_str(),
                        text.as_str(),
                        uid.as_str(),
                        source.as_str(),
                        client,
                    ),
                ),
                None => Step::Done(
                    ActionResult::Failure(
                        ErrorKind::HandshakeFailed,
                        String::from_str("[0].clientId is missing or no string"),
                    ),
                ),
            },
        },
    }
}

/// Reads the reply to the request that `flow` waits on and decides what
/// follows. Whatever the reply, a flow asks for fewer requests each time.
pub fn advance(flow: Flow, reply: Reply) -> (r: Step)
    ensures
        exists|result: ActionResult| reply_outcome(reply, result) && decided(flow, result, r),
        r matches Step::Send(next, _) ==> requests_left(next) < requests_left(flow),
        requests_left(flow) == 0 ==> r is Done,
        !(reply is Answered) || !is_success(reply->Answered_0) ==> r is Done,
{
    let result = interpret(reply);
    let step = decide(flow, result);
    proof {
        assert(reply_outcome(reply, result) && decided(flow, result, step));
    }
    step
}

} // verus!
