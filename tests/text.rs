use visualizer::config::{app_config_dir, Config, DEFAULT_REDIRECT_URI_PORT};
use visualizer::login::{callback_code, code_from_query, redirect_uri, LoginError};
use visualizer::format::{format_duration, format_two_digit_int};

#[test]
fn two_digit_fields() {
    assert_eq!(format_two_digit_int(0), "00");
    assert_eq!(format_two_digit_int(5), "05");
    assert_eq!(format_two_digit_int(42), "42");
    assert_eq!(format_two_digit_int(59), "59");
    assert_eq!(format_two_digit_int(123), "123");
    assert_eq!(format_two_digit_int(-5), "-1-5");
}

#[test]
fn durations_as_minutes_and_seconds() {
    assert_eq!(format_duration(0), "00:00");
    assert_eq!(format_duration(30_000), "00:30");
    assert_eq!(format_duration(32_999), "00:32");
    assert_eq!(format_duration(200_000), "03:20");
    assert_eq!(format_duration(3_600_000), "60:00");
    assert_eq!(format_duration(-1_500), "00:-1-1");
}

#[test]
fn missing_port_gets_default() {
    let c = Config { redirect_uri_port: None }.with_defaults();
    assert_eq!(c.redirect_uri_port, Some(8888));
    assert_eq!(DEFAULT_REDIRECT_URI_PORT, 8888);
    let c = Config { redirect_uri_port: Some(1234) }.with_defaults();
    assert_eq!(c.redirect_uri_port, Some(1234));
}

#[test]
fn config_dir_under_home() {
    assert_eq!(app_config_dir("/home/ada"), "/home/ada/.config/visify");
    assert_eq!(app_config_dir("/home/ada/"), "/home/ada/.config/visify");
    assert_eq!(app_config_dir(""), ".config/visify");
}

#[test]
fn redirect_uri_names_port() {
    assert_eq!(redirect_uri(8888), "http://localhost:8888/callback");
    assert_eq!(redirect_uri(0), "http://localhost:0/callback");
    assert_eq!(redirect_uri(65535), "http://localhost:65535/callback");
}

#[test]
fn callback_code_lookup() {
    let p = |k: &str, v: &str| (k.to_string(), v.to_string());
    assert_eq!(code_from_query(&vec![p("state", "x"), p("code", "abc")]), Some("abc".to_string()));
    assert_eq!(code_from_query(&vec![p("code", "one"), p("code", "two")]), Some("two".to_string()));
    assert_eq!(code_from_query(&vec![p("error", "access_denied")]), None);
    assert_eq!(code_from_query(&vec![]), None);
}

#[test]
fn callback_url_code() {
    let code = callback_code("http://localhost:8888/callback?state=s&code=abc");
    assert_eq!(code.unwrap(), "abc");
    let code = callback_code("http://localhost:8888/callback?code=a%20b+c");
    assert_eq!(code.unwrap(), "a b c");
    match callback_code("http://localhost:8888/callback?error=access_denied") {
        Err(LoginError::UrlMissingParam(name)) => assert_eq!(name, "code"),
        other => panic!("unexpected {:?}", other),
    }
    assert!(matches!(callback_code("not a url"), Err(LoginError::UrlParse(_))));
}
