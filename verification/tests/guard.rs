use rustcommon::command::Command;
use rustcommon::reauth::{AuthState, Next, ReauthGuard};
use rustcommon::redisaccessor::{RedisAccessorError, RedisAccessorErrorType};
use rustcommon::reply::{Reply, Response};

fn s(text: &str) -> String {
    text.to_string()
}

fn noauth() -> Response {
    Response::Reply(Reply::Error(s("NOAUTH Authentication required.")))
}

fn ok() -> Response {
    Response::Reply(Reply::SimpleString(s("OK")))
}

fn error(err_type: RedisAccessorErrorType) -> Result<String, RedisAccessorError> {
    Err(RedisAccessorError { err_type })
}

/// A connection that answers from a script and records what it was sent.
struct MockConnection {
    script: Vec<Response>,
    sent: Vec<Command>,
}

impl MockConnection {
    fn new(mut script: Vec<Response>) -> Self {
        script.reverse();
        MockConnection { script, sent: Vec::new() }
    }

    fn send(&mut self, command: Command) -> Response {
        self.sent.push(command);
        self.script.pop().unwrap_or(Response::TransportFailure)
    }
}

fn dispatch(
    connection: &mut MockConnection,
    command: Command,
    password: &str,
    db: i64,
) -> (Result<String, RedisAccessorError>, AuthState) {
    let mut next = ReauthGuard::start(command, s(password), db);
    loop {
        match next {
            Next::Send { command, guard } => {
                let response = connection.send(command);
                next = guard.on_response(response);
            }
            Next::Done { result, state } => return (result, state),
        }
    }
}

fn get(key: &str) -> Command {
    Command::Get { key: s(key) }
}

#[test]
fn an_authenticated_connection_takes_one_call() {
    let mut connection = MockConnection::new(vec![Response::Reply(Reply::BulkString(vec![118]))]);
    let (result, state) = dispatch(&mut connection, get("k"), "pw", 2);
    assert_eq!(result, Ok(s("v")));
    assert_eq!(state, AuthState::NotAttempted);
    assert_eq!(connection.sent, vec![get("k")]);
}

#[test]
fn noauth_leads_to_auth_select_and_one_retry() {
    let script = vec![noauth(), ok(), ok(), Response::Reply(Reply::BulkString(vec![118, 97, 108]))];
    let mut connection = MockConnection::new(script);
    let (result, state) = dispatch(&mut connection, get("k"), "pw", 2);
    assert_eq!(result, Ok(s("val")));
    assert_eq!(state, AuthState::Retried);
    assert_eq!(
        connection.sent,
        vec![get("k"), Command::Auth { password: s("pw") }, Command::Select { index: 2 }, get("k")]
    );
}

#[test]
fn a_second_noauth_is_terminal() {
    let script = vec![noauth(), ok(), ok(), noauth(), ok(), ok(), ok()];
    let mut connection = MockConnection::new(script);
    let (result, state) = dispatch(&mut connection, get("k"), "pw", 0);
    assert_eq!(result, error(RedisAccessorErrorType::AuthError));
    assert_eq!(state, AuthState::Exhausted);
    assert_eq!(connection.sent.len(), 4);
}

#[test]
fn a_refused_auth_is_terminal() {
    let refused = Response::Reply(Reply::Error(s("ERR invalid password")));
    let mut connection = MockConnection::new(vec![noauth(), refused, ok(), ok()]);
    let (result, state) = dispatch(&mut connection, get("k"), "wrong", 0);
    assert_eq!(result, error(RedisAccessorErrorType::AuthError));
    assert_eq!(state, AuthState::Exhausted);
    assert_eq!(connection.sent, vec![get("k"), Command::Auth { password: s("wrong") }]);
}

#[test]
fn a_refused_select_is_terminal() {
    let refused = Response::Reply(Reply::Error(s("ERR DB index is out of range")));
    let mut connection = MockConnection::new(vec![noauth(), ok(), refused, ok()]);
    let (result, state) = dispatch(&mut connection, get("k"), "pw", 99);
    assert_eq!(result, error(RedisAccessorErrorType::AuthError));
    assert_eq!(state, AuthState::Exhausted);
    assert_eq!(connection.sent.len(), 3);
    assert_eq!(connection.sent[2], Command::Select { index: 99 });
}

#[test]
fn a_lost_auth_is_terminal() {
    let mut connection = MockConnection::new(vec![noauth(), Response::TransportFailure]);
    let (result, state) = dispatch(&mut connection, get("k"), "pw", 0);
    assert_eq!(result, error(RedisAccessorErrorType::AuthError));
    assert_eq!(state, AuthState::Exhausted);
    assert_eq!(connection.sent.len(), 2);
}

#[test]
fn a_missing_key_is_named_on_the_first_attempt() {
    let mut connection = MockConnection::new(vec![Response::Reply(Reply::Nil)]);
    let (result, state) = dispatch(&mut connection, get("k"), "pw", 0);
    assert_eq!(result, error(RedisAccessorErrorType::GetKeyNotExist));
    assert_eq!(state, AuthState::NotAttempted);
    assert_eq!(connection.sent.len(), 1);
}

#[test]
fn a_missing_key_after_the_retry_is_named() {
    let mut connection = MockConnection::new(vec![noauth(), ok(), ok(), Response::Reply(Reply::Nil)]);
    let (result, state) = dispatch(&mut connection, get("k"), "pw", 0);
    assert_eq!(result, error(RedisAccessorErrorType::GetKeyNotExist));
    assert_eq!(state, AuthState::Exhausted);
    assert_eq!(connection.sent.len(), 4);
}

#[test]
fn another_error_passes_through_on_the_first_attempt() {
    let wrong = Response::Reply(Reply::Error(s("WRONGTYPE Operation against a key")));
    let mut connection = MockConnection::new(vec![wrong]);
    let (result, state) = dispatch(&mut connection, get("k"), "pw", 0);
    assert_eq!(result, Ok(s("WRONGTYPE Operation against a key")));
    assert_eq!(state, AuthState::NotAttempted);
    assert_eq!(connection.sent.len(), 1);
}

#[test]
fn any_error_after_the_retry_is_terminal() {
    let wrong = Response::Reply(Reply::Error(s("WRONGTYPE Operation against a key")));
    let mut connection = MockConnection::new(vec![noauth(), ok(), ok(), wrong]);
    let (result, state) = dispatch(&mut connection, get("k"), "pw", 0);
    assert_eq!(result, error(RedisAccessorErrorType::GetContentError));
    assert_eq!(state, AuthState::Exhausted);
    let mut lost = MockConnection::new(vec![noauth(), ok(), ok()]);
    let (result, state) = dispatch(&mut lost, get("k"), "pw", 0);
    assert_eq!(result, error(RedisAccessorErrorType::GetContentError));
    assert_eq!(state, AuthState::Exhausted);
    assert_eq!(lost.sent.len(), 4);
}

#[test]
fn a_lost_first_command_ends_the_dispatch() {
    let mut connection = MockConnection::new(vec![]);
    let (result, state) = dispatch(&mut connection, get("k"), "pw", 0);
    assert_eq!(result, error(RedisAccessorErrorType::GetContentError));
    assert_eq!(state, AuthState::NotAttempted);
    assert_eq!(connection.sent.len(), 1);
}

#[test]
fn the_guard_tells_its_state_at_each_step() {
    let next = ReauthGuard::start(get("k"), s("pw"), 1);
    let guard = match next {
        Next::Send { guard, .. } => guard,
        Next::Done { .. } => panic!("a dispatch begins by sending"),
    };
    assert_eq!(guard.state(), AuthState::NotAttempted);
    let guard = match guard.on_response(noauth()) {
        Next::Send { guard, .. } => guard,
        Next::Done { .. } => panic!("authentication was asked for"),
    };
    assert_eq!(guard.state(), AuthState::Authenticating);
    let guard = match guard.on_response(ok()) {
        Next::Send { guard, .. } => guard,
        Next::Done { .. } => panic!("AUTH was acknowledged"),
    };
    assert_eq!(guard.state(), AuthState::Authenticating);
    let guard = match guard.on_response(ok()) {
        Next::Send { guard, .. } => guard,
        Next::Done { .. } => panic!("SELECT was acknowledged"),
    };
    assert_eq!(guard.state(), AuthState::Retried);
    assert!(matches!(guard.on_response(ok()), Next::Done { .. }));
}

#[test]
fn each_dispatch_starts_afresh() {
    let mut connection =
        MockConnection::new(vec![noauth(), ok(), ok(), ok(), Response::Reply(Reply::Integer(7))]);
    let (first, _) = dispatch(&mut connection, get("a"), "pw", 0);
    assert_eq!(first, Ok(s("OK")));
    let (second, state) = dispatch(&mut connection, get("b"), "pw", 0);
    assert_eq!(second, Ok(s("7")));
    assert_eq!(state, AuthState::NotAttempted);
    assert_eq!(connection.sent.len(), 5);
    assert_eq!(connection.sent[4], get("b"));
}
