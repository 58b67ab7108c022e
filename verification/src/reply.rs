//! What the key-value store answers to a command, and how an answer is read.

use vstd::prelude::*;
use vstd::string::StrSliceExecFns;
use crate::decimal::{signed_decimal_chars, signed_text};
use crate::redisaccessor::RedisAccessorErrorType;

verus! {

/// A reply of the server.
#[derive(Debug, PartialEq, Eq)]
pub enum Reply {
    /// A simple status line, such as `OK`.
    SimpleString(String),
    /// An error line.
    Error(String),
    /// The absent value.
    Nil,
    /// A string of bytes.
    BulkString(Vec<u8>),
    /// An integer.
    Integer(i64),
    /// A list of replies; its items are of no concern here.
    Array,
}

/// The mathematical value of a [`Reply`].
pub enum ReplyView {
    SimpleString(Seq<char>),
    Error(Seq<char>),
    Nil,
    BulkString(Seq<u8>),
    Integer(int),
    Array,
}

impl View for Reply {
    type V = ReplyView;

    open spec fn view(&self) -> ReplyView {
        match self {
            Reply::SimpleString(text) => ReplyView::SimpleString(text@),
            Reply::Error(text) => ReplyView::Error(text@),
            Reply::Nil => ReplyView::Nil,
            Reply::BulkString(bytes) => ReplyView::BulkString(bytes@),
            Reply::Integer(n) => ReplyView::Integer(*n as int),
            Reply::Array => ReplyView::Array,
        }
    }
}

/// What came back for a command that was sent: a reply of the server, or
/// nothing because the command or its reply was lost on the way.
#[derive(Debug, PartialEq, Eq)]
pub enum Response {
    Reply(Reply),
    TransportFailure,
}

/// The mathematical value of a [`Response`].
pub enum ResponseView {
    Reply(ReplyView),
    TransportFailure,
}

impl View for Response {
    type V = ResponseView;

    open spec fn view(&self) -> ResponseView {
        match self {
            Response::Reply(reply) => ResponseView::Reply(reply@),
            Response::TransportFailure => ResponseView::TransportFailure,
        }
    }
}

/// The text that a string of bytes stands for when it is read as UTF-8 and
/// each malformed part is replaced by U+FFFD.
pub uninterp spec fn utf8_lossy(bytes: Seq<u8>) -> Seq<char>;

/// Calls `String::from_utf8_lossy` of the standard library and takes the
/// result as an owned string. The text returned depends on the bytes alone;
/// the contract gives it the name [`utf8_lossy`] and claims no more.
#[verifier::external_body]
fn lossy_text(bytes: &Vec<u8>) -> (text: String)
    ensures
        text@ == utf8_lossy(bytes@),
{
    String::from_utf8_lossy(bytes).into_owned()
}

/// Whether an error line says that the connection must authenticate first.
pub open spec fn is_auth_required(line: Seq<char>) -> bool {
    "NOAUTH"@.is_prefix_of(line)
}

/// Whether a response is the status line `OK`.
pub open spec fn is_ok_status(response: ResponseView) -> bool {
    response == ResponseView::Reply(ReplyView::SimpleString("OK"@))
}

/// Whether a response is an error line that asks for authentication.
pub open spec fn asks_for_authentication(response: ResponseView) -> bool {
    response matches ResponseView::Reply(ReplyView::Error(line)) && is_auth_required(line)
}

/// How a response to a command is read. `retried` says whether the command
/// had already been sent once and is now answered for the second time.
///
/// A status line, a bulk string, an integer and an array give a text. An
/// error line that asks for authentication gives `AuthError`. Any other error
/// line is handed on as a text the first time and is `GetContentError` the
/// second time. The absent value is `GetKeyNotExist`, and a lost command is
/// `GetContentError`.
pub open spec fn reading(response: ResponseView, retried: bool) -> Result<
    Seq<char>,
    RedisAccessorErrorType,
> {
    match response {
        ResponseView::TransportFailure => Err(RedisAccessorErrorType::GetContentError),
        ResponseView::Reply(ReplyView::SimpleString(text)) => Ok(text),
        ResponseView::Reply(ReplyView::Error(line)) => if is_auth_required(line) {
            Err(RedisAccessorErrorType::AuthError)
        } else if retried {
            Err(RedisAccessorErrorType::GetContentError)
        } else {
            Ok(line)
        },
        ResponseView::Reply(ReplyView::Nil) => Err(RedisAccessorErrorType::GetKeyNotExist),
        ResponseView::Reply(ReplyView::BulkString(bytes)) => Ok(utf8_lossy(bytes)),
        ResponseView::Reply(ReplyView::Integer(n)) => Ok(signed_decimal_chars(n)),
        ResponseView::Reply(ReplyView::Array) => Ok(Seq::empty()),
    }
}

/// The text of a result, where it has one.
pub open spec fn text_of<E>(result: Result<String, E>) -> Result<Seq<char>, E> {
    match result {
        Ok(text) => Ok(text@),
        Err(e) => Err(e),
    }
}

/// Whether `text` begins with `prefix`.
pub fn has_prefix(text: &str, prefix: &str) -> (b: bool)
    ensures
        b == prefix@.is_prefix_of(text@),
{
    let n = prefix.unicode_len();
    if text.unicode_len() < n {
        return false;
    }
    let mut i: usize = 0;
    while i < n
        invariant
            i <= n,
            n == prefix@.len(),
            n <= text@.len(),
            forall|k: int| 0 <= k < i ==> text@[k] == prefix@[k],
        decreases n - i,
    {
        if text.get_char(i) != prefix.get_char(i) {
            return false;
        }
        i += 1;
    }
    true
}

/// Whether two strings hold the same text.
pub fn same_text(a: &str, b: &str) -> (same: bool)
    ensures
        same == (a@ == b@),
{
    let same = has_prefix(a, b) && a.unicode_len() == b.unicode_len();
    proof {
        if same {
            assert(a@ =~= a@.subrange(0, b@.len() as int));
        }
    }
    same
}

/// Whether a response is the status line `OK`, which is how the server
/// acknowledges an `AUTH` or a `SELECT`.
pub fn acknowledges(response: &Response) -> (b: bool)
    ensures
        b == is_ok_status(response@),
{
    match response {
        Response::Reply(Reply::SimpleString(text)) => same_text(text.as_str(), "OK"),
        _ => false,
    }
}

/// Reads a response to a command, as [`reading`] says.
pub fn match_resp_value(response: &Response, is_last_cmd_auth: bool) -> (result: Result<
    String,
    RedisAccessorErrorType,
>)
    ensures
        text_of(result) == reading(response@, is_last_cmd_auth),
{
    match response {
        Response::TransportFailure => Err(RedisAccessorErrorType::GetContentError),
        Response::Reply(Reply::SimpleString(text)) => Ok(text.clone()),
        Response::Reply(Reply::Error(line)) => {
            if has_prefix(line.as_str(), "NOAUTH") {
                Err(RedisAccessorErrorType::AuthError)
            } else if is_last_cmd_auth {
                Err(RedisAccessorErrorType::GetContentError)
            } else {
                Ok(line.clone())
            }
        },
        Response::Reply(Reply::Nil) => Err(RedisAccessorErrorType::GetKeyNotExist),
        Response::Reply(Reply::BulkString(bytes)) => Ok(lossy_text(bytes)),
        Response::Reply(Reply::Integer(n)) => Ok(signed_text(*n)),
        Response::Reply(Reply::Array) => Ok(String::new()),
    }
}

} // verus!
