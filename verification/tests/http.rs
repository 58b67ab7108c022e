use rustcommon::fanout::{Action, ResultOrder};
use rustcommon::httpaccessor::{
    Exchange, HttpAccessor, HttpAccessorErrorType, HttpAccessorResponse, HttpAccessorResponseError,
    Method,
};

fn s(text: &str) -> String {
    text.to_string()
}

fn received(status_code: u16, body: &str) -> Exchange {
    Exchange::Received { status_code, text: Ok(s(body)) }
}

fn success(outcome: &Result<HttpAccessorResponse, HttpAccessorResponseError>) -> &HttpAccessorResponse {
    match outcome {
        Ok(response) => response,
        Err(error) => panic!("expected a response, got {:?}", error),
    }
}

fn failure(outcome: &Result<HttpAccessorResponse, HttpAccessorResponseError>) -> &HttpAccessorResponseError {
    match outcome {
        Ok(response) => panic!("expected a failure, got {:?}", response),
        Err(error) => error,
    }
}

#[test]
fn an_accessor_has_a_timeout_of_sixty_seconds_unless_told() {
    assert_eq!(HttpAccessor::new().timeout_secs(), 60);
    assert_eq!(HttpAccessor::new().timeout(5).timeout_secs(), 5);
    assert_eq!(HttpAccessor::new().timeout(5).timeout(0).timeout_secs(), 0);
}

#[test]
fn a_get_is_described_by_url_and_timeout() {
    let request = HttpAccessor::async_get("http://www.baidu.com", 10);
    assert_eq!(request.method, Method::Get);
    assert_eq!(request.url, "http://www.baidu.com");
    assert_eq!(request.body, None);
    assert_eq!(request.timeout_secs, 10);
}

#[test]
fn a_post_carries_its_body() {
    let request = HttpAccessor::async_post("http://host/path", "a=1&b=2", u32::MAX);
    assert_eq!(request.method, Method::Post);
    assert_eq!(request.url, "http://host/path");
    assert_eq!(request.body, Some(s("a=1&b=2")));
    assert_eq!(request.timeout_secs, 4294967295);
}

#[test]
fn a_body_that_was_read_makes_a_response() {
    let outcome = HttpAccessor::handle_async_resp("http://a/", 404, Ok(s("not here")));
    let response = success(&outcome);
    assert_eq!(response.url(), "http://a/");
    assert_eq!(response.status_code(), 404);
    assert_eq!(response.content(), "not here");
}

#[test]
fn a_body_that_could_not_be_read_keeps_the_status() {
    let outcome = HttpAccessor::handle_async_resp("http://a/", 200, Err(s("connection reset")));
    let error = failure(&outcome);
    assert_eq!(error.url(), "http://a/");
    assert_eq!(*error.status_code(), Some(200));
    let cause = error.err().as_ref().expect("the failure has a cause");
    assert_eq!(*cause.err_type(), HttpAccessorErrorType::GetContentError(s("connection reset")));
    assert_eq!(cause.msg(), "async get text fail");
}

#[test]
fn a_request_that_was_not_sent_has_no_status() {
    let outcome =
        HttpAccessor::handle_exchange("http://a/", Exchange::SendFailed { cause: s("dns error") });
    let error = failure(&outcome);
    assert_eq!(error.url(), "http://a/");
    assert_eq!(*error.status_code(), None);
    let cause = error.err().as_ref().expect("the failure has a cause");
    assert_eq!(*cause.err_type(), HttpAccessorErrorType::OpenUrlError(s("dns error")));
    assert_eq!(cause.msg(), "async get fail");
}

#[test]
fn an_exchange_with_a_response_makes_that_response() {
    let outcome = HttpAccessor::handle_exchange("http://a/", received(200, "hello"));
    let response = success(&outcome);
    assert_eq!(response.url(), "http://a/");
    assert_eq!(response.status_code(), 200);
    assert_eq!(response.content(), "hello");
}

#[test]
fn test_http_async_get() {
    let request = HttpAccessor::async_get("http://www.baidu.com", 10);
    let outcome = HttpAccessor::handle_exchange(request.url.as_str(), received(200, "<html></html>"));
    match outcome {
        Ok(resp) => assert_eq!(resp.status_code(), 200),
        Err(_) => panic!("do http_async_get fail"),
    }
}

#[test]
fn test_http_async_multi_get() {
    let urls = vec!["http://www.baidu.com", "http://www.taobao.com"];
    let mut plan = HttpAccessor::async_multi_get(&urls, 10);
    let mut launched = Vec::new();
    loop {
        match plan.next_action() {
            Action::Launch(i) => launched.push(i),
            Action::Wait => {
                let i = launched.pop().expect("something is in flight");
                let request = plan.request(i).expect("a launched request exists");
                assert_eq!(request.url, urls[i]);
                assert_eq!(request.timeout_secs, 10);
                assert_eq!(plan.complete(i, received(200, "page")), Ok(()));
            }
            Action::Done => break,
        }
    }
    let resp_result_list = plan.finish().expect("do http_async_multi_get fail");
    assert_eq!(resp_result_list.len(), 2);
    assert!(resp_result_list.iter().all(|resp_result| match resp_result {
        Ok(resp) => resp.status_code() == 200,
        _ => false,
    }));
    assert_eq!(success(&resp_result_list[0]).url(), "http://www.baidu.com");
    assert_eq!(success(&resp_result_list[1]).url(), "http://www.taobao.com");
}

#[test]
fn an_ordered_batch_of_two_with_a_timeout() {
    let urls = vec!["https://a.example/ok", "https://b.example/slow-timeout"];
    let mut plan = HttpAccessor::multi_get(&urls, 1, ResultOrder::Ordered, 2);
    assert_eq!(plan.next_action(), Action::Launch(0));
    assert_eq!(plan.next_action(), Action::Launch(1));
    assert_eq!(plan.in_flight(), 2);
    assert_eq!(plan.next_action(), Action::Wait);
    assert_eq!(plan.complete(0, received(200, "body")), Ok(()));
    assert_eq!(plan.next_action(), Action::Wait);
    assert_eq!(plan.complete(1, Exchange::SendFailed { cause: s("operation timed out") }), Ok(()));
    assert_eq!(plan.next_action(), Action::Done);
    let outcomes = plan.finish().expect("the batch is done");
    assert_eq!(outcomes.len(), 2);
    let first = success(&outcomes[0]);
    assert_eq!(first.url(), "https://a.example/ok");
    assert_eq!(first.status_code(), 200);
    assert_eq!(first.content(), "body");
    let second = failure(&outcomes[1]);
    assert_eq!(second.url(), "https://b.example/slow-timeout");
    assert_eq!(*second.status_code(), None);
    let cause = second.err().as_ref().expect("the failure has a cause");
    assert_eq!(*cause.err_type(), HttpAccessorErrorType::OpenUrlError(s("operation timed out")));
}

#[test]
fn an_ordered_batch_keeps_its_order_when_the_second_finishes_first() {
    let urls = vec!["https://a.example/ok", "https://b.example/slow-timeout"];
    let mut plan = HttpAccessor::multi_get(&urls, 1, ResultOrder::Ordered, 2);
    assert_eq!(plan.next_action(), Action::Launch(0));
    assert_eq!(plan.next_action(), Action::Launch(1));
    assert_eq!(plan.complete(1, Exchange::SendFailed { cause: s("operation timed out") }), Ok(()));
    assert_eq!(plan.complete(0, received(200, "body")), Ok(()));
    let outcomes = plan.finish().expect("the batch is done");
    assert_eq!(success(&outcomes[0]).status_code(), 200);
    assert_eq!(failure(&outcomes[1]).url(), "https://b.example/slow-timeout");
}

#[test]
fn an_unordered_batch_hands_out_arrivals() {
    let urls = vec!["http://one/", "http://two/", "http://three/"];
    let mut plan = HttpAccessor::async_multi_get_unordered(&urls, 3);
    for i in 0..3 {
        assert_eq!(plan.next_action(), Action::Launch(i));
    }
    assert_eq!(plan.complete(2, received(200, "3")), Ok(()));
    assert_eq!(plan.complete(0, received(500, "1")), Ok(()));
    assert_eq!(plan.complete(1, Exchange::SendFailed { cause: s("refused") }), Ok(()));
    let outcomes = plan.finish().expect("the batch is done");
    assert_eq!(success(&outcomes[0]).url(), "http://three/");
    assert_eq!(success(&outcomes[1]).url(), "http://one/");
    assert_eq!(success(&outcomes[1]).status_code(), 500);
    assert_eq!(failure(&outcomes[2]).url(), "http://two/");
}

#[test]
fn the_default_window_holds_128_requests() {
    let texts: Vec<String> = (0..200).map(|i| format!("http://host/{}", i)).collect();
    let urls: Vec<&str> = texts.iter().map(|t| t.as_str()).collect();
    let mut plan = HttpAccessor::async_multi_get(&urls, 1);
    for i in 0..128 {
        assert_eq!(plan.next_action(), Action::Launch(i));
    }
    assert_eq!(plan.next_action(), Action::Wait);
    assert_eq!(plan.in_flight(), 128);
    assert_eq!(plan.complete(64, received(200, "")), Ok(()));
    assert_eq!(plan.next_action(), Action::Launch(128));
    assert_eq!(plan.next_action(), Action::Wait);
}

#[test]
fn an_empty_batch_of_urls_is_done_without_a_launch() {
    let urls: Vec<&str> = Vec::new();
    let mut plan = HttpAccessor::async_multi_get(&urls, 10);
    assert_eq!(plan.next_action(), Action::Done);
    assert_eq!(plan.in_flight(), 0);
    assert!(plan.request(0).is_none());
    assert_eq!(plan.finish().expect("an empty batch is done").len(), 0);
}

#[test]
fn a_report_for_a_request_not_in_flight_comes_back() {
    let urls = vec!["http://one/", "http://two/"];
    let mut plan = HttpAccessor::multi_get(&urls, 1, ResultOrder::Ordered, 1);
    assert_eq!(plan.complete(0, received(200, "early")), Err(received(200, "early")));
    assert_eq!(plan.next_action(), Action::Launch(0));
    assert_eq!(plan.complete(1, received(200, "x")), Err(received(200, "x")));
    assert_eq!(plan.complete(5, received(200, "x")), Err(received(200, "x")));
    assert_eq!(plan.complete(0, received(200, "first")), Ok(()));
    assert_eq!(plan.complete(0, received(200, "again")), Err(received(200, "again")));
}

#[test]
fn a_batch_under_way_cannot_be_finished() {
    let urls = vec!["http://one/", "http://two/"];
    let mut plan = HttpAccessor::multi_get(&urls, 1, ResultOrder::Ordered, 2);
    assert_eq!(plan.next_action(), Action::Launch(0));
    let error = plan.finish().expect_err("nothing has arrived yet");
    assert_eq!(
        *error.err_type(),
        HttpAccessorErrorType::GetMultiContentError(s("batch is not complete"))
    );
    assert_eq!(error.msg(), "async multi get fail");
}
