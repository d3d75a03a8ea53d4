//! The session context: the caller's cookie and the headers that go with it.
//!
//! Each endpoint family wants a fixed set of headers of its own. They are kept
//! here as one table, from action to header list; a session adds the cookie in
//! front of the list of the action it is made for.

use crate::client::ErrorKind;
use crate::cookie::{
    first_token, lemma_first_token_meaning, lemma_value_end_meaning, token_value, value_end,
};
use crate::text::{pairs_view, push_pair};
use vstd::prelude::*;
use vstd::string::*;

verus! {

/// The requests that the library knows how to build.
#[derive(Clone, Copy, Debug, PartialEq, Eq, Structural)]
pub enum Action {
    ListFollowers,
    TopicLookup,
    CommentCreate,
    Handshake,
    MessageSend,
    LoginQrCode,
}

/// A character that may stand in a header value: a tab, or anything from the
/// space upwards but the delete character.
pub open spec fn header_char(c: char) -> bool {
    c == '\t' || (c as u32 >= 32 && c as u32 != 127)
}

/// A text that can be sent as a header value.
pub open spec fn header_safe(value: Seq<char>) -> bool {
    forall|i: int| 0 <= i < value.len() ==> header_char(#[trigger] value[i])
}

/// Whatever is cut out of a text that can be sent as a header value can be
/// sent as one too. So can, in particular, a token taken from a cookie.
pub proof fn law_part_is_header_safe(value: Seq<char>, from: int, to: int)
    requires
        header_safe(value),
        0 <= from <= to <= value.len(),
    ensures
        header_safe(value.subrange(from, to)),
{
    let part = value.subrange(from, to);
    assert forall|i: int| 0 <= i < part.len() implies header_char(#[trigger] part[i]) by {
        assert(part[i] == value[from + i]);
    }
}

/// A token taken from a cookie that can be sent as a header value can be sent
/// as one too.
pub proof fn law_token_is_header_safe(cookie: Seq<char>, name: Seq<char>)
    requires
        header_safe(cookie),
    ensures
        token_value(cookie, name) matches Some(value) ==> header_safe(value),
{
    lemma_first_token_meaning(cookie, name, 0);
    if let Some(i) = first_token(cookie, name, 0) {
        let start = i + name.len() + 1;
        lemma_value_end_meaning(cookie, start);
        law_part_is_header_safe(cookie, start, value_end(cookie, start));
    }
}

/// Calls `HeaderValue::from_str` and tells whether it accepted the text. That
/// function refuses a text exactly when one of its bytes is below 32 and no
/// tab, or is 127. Every byte of a character beyond ASCII is 128 or more, so
/// the test on bytes is the test on characters stated here.
#[verifier::external_body]
fn header_value_accepts(value: &str) -> (r: bool)
    ensures
        r == header_safe(value@),
{
    reqwest::header::HeaderValue::from_str(value).is_ok()
}

pub open spec fn main_site() -> Seq<char> {
    "https://weibo.com"@
}

pub open spec fn chat_site() -> Seq<char> {
    "https://api.weibo.com"@
}

pub open spec fn browser_agent() -> Seq<char> {
    "Mozilla/5.0 (Macintosh; Intel Mac OS X 10_15_7) AppleWebKit/537.36 (KHTML, like Gecko) Chrome/138.0.0.0 Safari/537.36"@
}

pub open spec fn sign_in_page() -> Seq<char> {
    "https://passport.weibo.com/sso/signin?entry=miniblog&source=miniblog&disp=popup&url=https%3A%2F%2Fweibo.com%2Fnewlogin%3Ftabtype%3Dweibo%26gid%3D102803%26openLoginLayer%3D0%26url%3Dhttps%253A%252F%252Fweibo.com%252F&from=weibopro"@
}

/// The fixed headers of each action, in the order in which they are sent.
pub open spec fn fixed_headers(action: Action) -> Seq<(Seq<char>, Seq<char>)> {
    match action {
        Action::ListFollowers => seq![("Referer"@, main_site())],
        Action::TopicLookup => seq![("Referer"@, main_site()), ("User-Agent"@, browser_agent())],
        Action::CommentCreate => seq![
            ("Referer"@, main_site()),
            ("User-Agent"@, browser_agent()),
            ("Content-Type"@, "application/x-www-form-urlencoded"@),
            ("Origin"@, main_site()),
        ],
        Action::Handshake => seq![
            ("Referer"@, "https://api.weibo.com/chat/"@),
            ("Origin"@, chat_site()),
            ("User-Agent"@, browser_agent()),
            ("Content-Type"@, "application/json"@),
        ],
        Action::MessageSend => seq![
            ("Referer"@, "https://api.weibo.com/chat/"@),
            ("Origin"@, chat_site()),
            ("User-Agent"@, browser_agent()),
            ("Content-Type"@, "application/x-www-form-urlencoded"@),
        ],
        Action::LoginQrCode => seq![
            ("Referer"@, sign_in_page()),
            ("Accept"@, "application/json, text/plain, */*"@),
            ("User-Agent"@, browser_agent()),
            ("sec-ch-ua"@, "\"Not)A;Brand\";v=\"8\", \"Chromium\";v=\"138\", \"Google Chrome\";v=\"138\""@),
            ("sec-ch-ua-platform"@, "\"macOS\""@),
            ("sec-fetch-dest"@, "empty"@),
            ("sec-fetch-mode"@, "cors"@),
            ("sec-fetch-site"@, "same-origin"@),
            ("x-requested-with"@, "XMLHttpRequest"@),
        ],
    }
}

/// The headers of a session: the cookie, then the fixed headers of the action.
pub open spec fn session_headers(cookie: Seq<char>, action: Action) -> Seq<
    (Seq<char>, Seq<char>),
> {
    seq![("Cookie"@, cookie)] + fixed_headers(action)
}

fn main_site_text() -> (r: &'static str)
    ensures
        r@ == main_site(),
{
    "https://weibo.com"
}

fn chat_site_text() -> (r: &'static str)
    ensures
        r@ == chat_site(),
{
    "https://api.weibo.com"
}

fn browser_agent_text() -> (r: &'static str)
    ensures
        r@ == browser_agent(),
{
    "Mozilla/5.0 (Macintosh; Intel Mac OS X 10_15_7) AppleWebKit/537.36 (KHTML, like Gecko) Chrome/138.0.0.0 Safari/537.36"
}

fn sign_in_page_text() -> (r: &'static str)
    ensures
        r@ == sign_in_page(),
{
    "https://passport.weibo.com/sso/signin?entry=miniblog&source=miniblog&disp=popup&url=https%3A%2F%2Fweibo.com%2Fnewlogin%3Ftabtype%3Dweibo%26gid%3D102803%26openLoginLayer%3D0%26url%3Dhttps%253A%252F%252Fweibo.com%252F&from=weibopro"
}

/// Appends the fixed headers of `action` to `headers`.
pub fn push_fixed_headers(headers: &mut Vec<(String, String)>, action: Action)
    ensures
        pairs_view(final(headers)@) == pairs_view(old(headers)@) + fixed_headers(action),
{
    match action {
        Action::ListFollowers => {
            push_pair(headers, "Referer", main_site_text());
        },
        Action::TopicLookup => {
            push_pair(headers, "Referer", main_site_text());
            push_pair(headers, "User-Agent", browser_agent_text());
        },
        Action::CommentCreate => {
            push_pair(headers, "Referer", main_site_text());
            push_pair(headers, "User-Agent", browser_agent_text());
            push_pair(headers, "Content-Type", "application/x-www-form-urlencoded");
            push_pair(headers, "Origin", main_site_text());
        },
        Action::Handshake => {
            push_pair(headers, "Referer", "https://api.weibo.com/chat/");
            push_pair(headers, "Origin", chat_site_text());
            push_pair(headers, "User-Agent", browser_agent_text());
            push_pair(headers, "Content-Type", "application/json");
        },
        Action::MessageSend => {
            push_pair(headers, "Referer", "https://api.weibo.com/chat/");
            push_pair(headers, "Origin", chat_site_text());
            push_pair(headers, "User-Agent", browser_agent_text());
            push_pair(headers, "Content-Type", "application/x-www-form-urlencoded");
        },
        Action::LoginQrCode => {
            push_pair(headers, "Referer", sign_in_page_text());
            push_pair(headers, "Accept", "application/json, text/plain, */*");
            push_pair(headers, "User-Agent", browser_agent_text());
            push_pair(
                headers,
                "sec-ch-ua",
                "\"Not)A;Brand\";v=\"8\", \"Chromium\";v=\"138\", \"Google Chrome\";v=\"138\"",
            );
            push_pair(headers, "sec-ch-ua-platform", "\"macOS\"");
            push_pair(headers, "sec-fetch-dest", "empty");
            push_pair(headers, "sec-fetch-mode", "cors");
            push_pair(headers, "sec-fetch-site", "same-origin");
            push_pair(headers, "x-requested-with", "XMLHttpRequest");
        },
    }
    proof {
        assert(pairs_view(headers@) =~= pairs_view(old(headers)@) + fixed_headers(action));
    }
}

/// The headers that go with `cookie` for `action`, the cookie taken as it is.
pub fn header_list(cookie: &str, action: Action) -> (r: Vec<(String, String)>)
    ensures
        pairs_view(r@) == session_headers(cookie@, action),
{
    let mut headers: Vec<(String, String)> = Vec::new();
    push_pair(&mut headers, "Cookie", cookie);
    push_fixed_headers(&mut headers, action);
    proof {
        assert(pairs_view(headers@) =~= session_headers(cookie@, action));
    }
    headers
}

/// A cookie together with the headers of the action it is used for.
#[derive(Debug, PartialEq, Eq)]
pub struct SessionContext {
    pub cookie: String,
    pub base_headers: Vec<(String, String)>,
}

impl SessionContext {
    /// The cookie can be sent, and the headers are those of `action` for it.
    pub open spec fn is_for(&self, cookie: Seq<char>, action: Action) -> bool {
        &&& self.cookie@ == cookie
        &&& header_safe(cookie)
        &&& pairs_view(self.base_headers@) == session_headers(cookie, action)
    }

    /// Makes the session of one call. The cookie is refused, with
    /// `InvalidCookieFormat`, exactly when it cannot be sent as a header value.
    pub fn new(cookie: &str, action: Action) -> (r: Result<SessionContext, ErrorKind>)
        ensures
            match r {
                Ok(session) => session.is_for(cookie@, action),
                Err(kind) => kind == ErrorKind::InvalidCookieFormat && !header_safe(cookie@),
            },
    {
        if !header_value_accepts(cookie) {
            return Err(ErrorKind::InvalidCookieFormat);
        }
        Ok(
            SessionContext {
                cookie: String::from_str(cookie),
                base_headers: header_list(cookie, action),
            },
        )
    }
}

} // verus!
