use rustcommon::redisaccessor::RedisAccessorErrorType;
use rustcommon::reply::{acknowledges, has_prefix, match_resp_value, same_text, Reply, Response};

fn s(text: &str) -> String {
    text.to_string()
}

#[test]
fn a_status_line_is_read_as_its_text() {
    let response = Response::Reply(Reply::SimpleString(s("PONG")));
    assert_eq!(match_resp_value(&response, false), Ok(s("PONG")));
    assert_eq!(match_resp_value(&response, true), Ok(s("PONG")));
}

#[test]
fn a_bulk_string_is_read_as_text() {
    let response = Response::Reply(Reply::BulkString(vec![104, 101, 108, 108, 111]));
    assert_eq!(match_resp_value(&response, false), Ok(s("hello")));
}

#[test]
fn malformed_bytes_are_replaced_in_a_bulk_string() {
    let response = Response::Reply(Reply::BulkString(vec![0x66, 0xff, 0x6f]));
    assert_eq!(match_resp_value(&response, false), Ok(s("f\u{fffd}o")));
}

#[test]
fn an_integer_is_read_in_decimal() {
    let response = Response::Reply(Reply::Integer(-42));
    assert_eq!(match_resp_value(&response, false), Ok(s("-42")));
    let zero = Response::Reply(Reply::Integer(0));
    assert_eq!(match_resp_value(&zero, true), Ok(s("0")));
}

#[test]
fn an_array_is_read_as_the_empty_text() {
    let response = Response::Reply(Reply::Array);
    assert_eq!(match_resp_value(&response, false), Ok(s("")));
}

#[test]
fn the_absent_value_is_a_missing_key() {
    let response = Response::Reply(Reply::Nil);
    assert_eq!(match_resp_value(&response, false), Err(RedisAccessorErrorType::GetKeyNotExist));
    assert_eq!(match_resp_value(&response, true), Err(RedisAccessorErrorType::GetKeyNotExist));
}

#[test]
fn a_lost_command_is_a_content_error() {
    let response = Response::TransportFailure;
    assert_eq!(match_resp_value(&response, false), Err(RedisAccessorErrorType::GetContentError));
    assert_eq!(match_resp_value(&response, true), Err(RedisAccessorErrorType::GetContentError));
}

#[test]
fn noauth_is_an_auth_error_on_either_attempt() {
    let response = Response::Reply(Reply::Error(s("NOAUTH Authentication required.")));
    assert_eq!(match_resp_value(&response, false), Err(RedisAccessorErrorType::AuthError));
    assert_eq!(match_resp_value(&response, true), Err(RedisAccessorErrorType::AuthError));
}

#[test]
fn another_error_line_is_handed_on_the_first_time_only() {
    let response = Response::Reply(Reply::Error(s("ERR unknown command")));
    assert_eq!(match_resp_value(&response, false), Ok(s("ERR unknown command")));
    assert_eq!(match_resp_value(&response, true), Err(RedisAccessorErrorType::GetContentError));
}

#[test]
fn noauth_must_stand_at_the_start_of_the_line() {
    let response = Response::Reply(Reply::Error(s("ERR NOAUTH")));
    assert_eq!(match_resp_value(&response, false), Ok(s("ERR NOAUTH")));
    let short = Response::Reply(Reply::Error(s("NOAUT")));
    assert_eq!(match_resp_value(&short, false), Ok(s("NOAUT")));
}

#[test]
fn has_prefix_compares_characters() {
    assert!(has_prefix("NOAUTH required", "NOAUTH"));
    assert!(has_prefix("NOAUTH", "NOAUTH"));
    assert!(has_prefix("anything", ""));
    assert!(!has_prefix("NOAUT", "NOAUTH"));
    assert!(!has_prefix("noauth required", "NOAUTH"));
    assert!(!has_prefix("", "N"));
    assert!(has_prefix("\u{e9}t\u{e9}", "\u{e9}t"));
}

#[test]
fn same_text_is_equality() {
    assert!(same_text("OK", "OK"));
    assert!(same_text("", ""));
    assert!(!same_text("OK", "OK "));
    assert!(!same_text("OK", "O"));
    assert!(!same_text("ok", "OK"));
}

#[test]
fn only_the_status_ok_acknowledges() {
    assert!(acknowledges(&Response::Reply(Reply::SimpleString(s("OK")))));
    assert!(!acknowledges(&Response::Reply(Reply::SimpleString(s("QUEUED")))));
    assert!(!acknowledges(&Response::Reply(Reply::BulkString(vec![79, 75]))));
    assert!(!acknowledges(&Response::Reply(Reply::Error(s("OK")))));
    assert!(!acknowledges(&Response::Reply(Reply::Nil)));
    assert!(!acknowledges(&Response::TransportFailure));
}
