use weibo_actions::cookie::extract_token;
use weibo_actions::session::{Action, SessionContext};
use weibo_actions::client::ErrorKind;
use weibo_actions::text::decimal_text;

#[test]
fn token_followed_by_delimiter() {
    assert_eq!(extract_token("XSRF-TOKEN=tok1;other=2", "XSRF-TOKEN"), Some("tok1".to_string()));
    assert_eq!(extract_token("a=1;XSRF-TOKEN=tok1;other=2", "XSRF-TOKEN"), Some("tok1".to_string()));
}

#[test]
fn token_at_end_of_cookie() {
    assert_eq!(extract_token("a=1;XSRF-TOKEN=tail", "XSRF-TOKEN"), Some("tail".to_string()));
    assert_eq!(extract_token("XSRF-TOKEN=tail", "XSRF-TOKEN"), Some("tail".to_string()));
}

#[test]
fn token_absent() {
    assert_eq!(extract_token("a=1;b=2", "XSRF-TOKEN"), None);
    assert_eq!(extract_token("", "XSRF-TOKEN"), None);
    assert_eq!(extract_token("XSRF-TOKEN", "XSRF-TOKEN"), None);
}

#[test]
fn token_after_spaces() {
    assert_eq!(extract_token("a=1; XSRF-TOKEN=tok1; b=2", "XSRF-TOKEN"), Some("tok1".to_string()));
    assert_eq!(extract_token("a=1;   b=x y ;c=3", "b"), Some("x y ".to_string()));
}

#[test]
fn token_name_ending_another_key_is_not_taken() {
    assert_eq!(extract_token("MY-XSRF-TOKEN=bad;XSRF-TOKEN=good", "XSRF-TOKEN"), Some("good".to_string()));
    assert_eq!(extract_token("MY-XSRF-TOKEN=bad;", "XSRF-TOKEN"), None);
    assert_eq!(extract_token("a=XSRF-TOKEN=inner;b=2", "XSRF-TOKEN"), None);
}

#[test]
fn token_first_of_two_wins() {
    assert_eq!(extract_token("t=1;t=2", "t"), Some("1".to_string()));
}

#[test]
fn token_with_empty_value() {
    assert_eq!(extract_token("t=;u=2", "t"), Some(String::new()));
    assert_eq!(extract_token("u=2;t=", "t"), Some(String::new()));
}

#[test]
fn token_beyond_ascii() {
    assert_eq!(extract_token("名=值;t=微博;", "t"), Some("微博".to_string()));
    assert_eq!(extract_token("名=值;t=微博;", "名"), Some("值".to_string()));
}

#[test]
fn token_value_keeps_equal_signs() {
    assert_eq!(extract_token("t=a=b;u=2", "t"), Some("a=b".to_string()));
}

#[test]
fn decimal_text_values() {
    assert_eq!(decimal_text(0), "0");
    assert_eq!(decimal_text(7), "7");
    assert_eq!(decimal_text(10), "10");
    assert_eq!(decimal_text(180), "180");
    assert_eq!(decimal_text(404), "404");
    assert_eq!(decimal_text(4294967295), "4294967295");
}

#[test]
fn session_refuses_control_characters() {
    assert_eq!(SessionContext::new("a=1\nb=2", Action::ListFollowers), Err(ErrorKind::InvalidCookieFormat));
    assert_eq!(SessionContext::new("a=\u{7f}", Action::ListFollowers), Err(ErrorKind::InvalidCookieFormat));
    assert_eq!(SessionContext::new("a=\u{0}", Action::TopicLookup), Err(ErrorKind::InvalidCookieFormat));
}

#[test]
fn session_accepts_tab_and_text_beyond_ascii() {
    assert!(SessionContext::new("a=1\tb", Action::ListFollowers).is_ok());
    assert!(SessionContext::new("a=微博", Action::ListFollowers).is_ok());
    assert!(SessionContext::new("", Action::ListFollowers).is_ok());
}

#[test]
fn session_headers_start_with_the_cookie() {
    let session = SessionContext::new("SUB=abc", Action::ListFollowers).unwrap();
    assert_eq!(session.cookie, "SUB=abc");
    assert_eq!(
        session.base_headers,
        vec![
            ("Cookie".to_string(), "SUB=abc".to_string()),
            ("Referer".to_string(), "https://weibo.com".to_string()),
        ]
    );
}

#[test]
fn characters_one_by_one() {
    assert_eq!(weibo_actions::text::characters(""), Vec::<char>::new());
    assert_eq!(weibo_actions::text::characters("a微;"), vec!['a', '微', ';']);
}

#[test]
fn header_lists_per_action() {
    let list = weibo_actions::session::header_list("k=v", Action::MessageSend);
    assert_eq!(list.len(), 5);
    assert_eq!(list[0], ("Cookie".to_string(), "k=v".to_string()));
    assert_eq!(list[2], ("Origin".to_string(), "https://api.weibo.com".to_string()));
    let mut own = vec![("a".to_string(), "b".to_string())];
    weibo_actions::session::push_fixed_headers(&mut own, Action::ListFollowers);
    assert_eq!(
        own,
        vec![
            ("a".to_string(), "b".to_string()),
            ("Referer".to_string(), "https://weibo.com".to_string()),
        ]
    );
    weibo_actions::text::push_pair(&mut own, "x", "y");
    assert_eq!(own[2], ("x".to_string(), "y".to_string()));
}
