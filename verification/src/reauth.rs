//! A guard around one command on a connection that may turn out to be
//! unauthenticated.
//!
//! The guard sends nothing itself. It says which command to send next, is
//! told what came back, and says what to do then. A dispatch starts
//! optimistically with the command itself. Only when the server answers that
//! authentication is required does the guard authenticate, select the
//! namespace and send the command once more. It never sends it a third time.

use vstd::prelude::*;
use crate::command::{Command, CommandView};
use crate::redisaccessor::{RedisAccessorError, RedisAccessorErrorType};
use crate::reply::{
    acknowledges, asks_for_authentication, is_ok_status, match_resp_value, reading, text_of,
    Response, ResponseView,
};

verus! {

/// Where a dispatch stands with respect to authentication.
#[derive(Debug, Clone, Copy, PartialEq, Eq, Structural)]
pub enum AuthState {
    /// The command went out without any authentication step.
    NotAttempted,
    /// The server asked for authentication; `AUTH` and `SELECT` are under way.
    Authenticating,
    /// Authentication went through and the command was sent again.
    Retried,
    /// Authentication failed, or the command failed again after it.
    Exhausted,
}

/// The reply that a guard is waiting for.
#[derive(Debug, Clone, Copy, PartialEq, Eq, Structural)]
pub enum Awaited {
    /// The reply to the command, sent for the first time.
    First,
    /// The reply to `AUTH`.
    Auth,
    /// The reply to `SELECT`.
    Select,
    /// The reply to the command, sent for the second time.
    Retry,
}

impl Awaited {
    /// The authentication state that goes with waiting for this reply.
    pub open spec fn state(self) -> AuthState {
        match self {
            Awaited::First => AuthState::NotAttempted,
            Awaited::Auth => AuthState::Authenticating,
            Awaited::Select => AuthState::Authenticating,
            Awaited::Retry => AuthState::Retried,
        }
    }

    /// How many commands a guard that waits for this reply can still ask to
    /// be sent.
    pub open spec fn sends_left(self) -> nat {
        match self {
            Awaited::First => 3,
            Awaited::Auth => 2,
            Awaited::Select => 1,
            Awaited::Retry => 0,
        }
    }
}

/// One dispatch in progress: a command has been sent and its reply is
/// awaited.
#[derive(Debug, PartialEq, Eq)]
pub struct ReauthGuard {
    command: Command,
    password: String,
    db: i64,
    awaited: Awaited,
}

/// The mathematical value of a [`ReauthGuard`].
pub struct GuardView {
    /// The command that the dispatch is about.
    pub command: CommandView,
    /// The credential to authenticate with.
    pub password: Seq<char>,
    /// The namespace to select after authenticating.
    pub db: int,
    /// The reply that is awaited.
    pub awaited: Awaited,
}

impl View for ReauthGuard {
    type V = GuardView;

    closed spec fn view(&self) -> GuardView {
        GuardView {
            command: self.command@,
            password: self.password@,
            db: self.db as int,
            awaited: self.awaited,
        }
    }
}

/// What a guard asks for.
#[derive(Debug, PartialEq, Eq)]
pub enum Next {
    /// Send `command`, then hand what came back to `guard`.
    Send { command: Command, guard: ReauthGuard },
    /// The dispatch is over, with this result and in this state.
    Done { result: Result<String, RedisAccessorError>, state: AuthState },
}

/// The mathematical value of a [`Next`].
pub enum NextView {
    Send { command: CommandView, guard: GuardView },
    Done { result: Result<Seq<char>, RedisAccessorError>, state: AuthState },
}

impl View for Next {
    type V = NextView;

    open spec fn view(&self) -> NextView {
        match self {
            Next::Send { command, guard } => NextView::Send { command: command@, guard: guard@ },
            Next::Done { result, state } => NextView::Done {
                result: text_of(*result),
                state: *state,
            },
        }
    }
}

/// How a dispatch begins: the command itself is to be sent, with no
/// authentication before it.
pub open spec fn begin(command: CommandView, password: Seq<char>, db: int) -> NextView {
    NextView::Send {
        command,
        guard: GuardView { command, password, db, awaited: Awaited::First },
    }
}

/// What the first answer to the command leads to, unless it asks for
/// authentication: the answer as [`reading`] has it, text or failure, with
/// nothing done to it.
pub open spec fn first_result(response: ResponseView) -> Result<Seq<char>, RedisAccessorError> {
    match reading(response, false) {
        Ok(text) => Ok(text),
        Err(err_type) => Err(RedisAccessorError { err_type }),
    }
}

/// What the second answer to the command leads to: a text is the result;
/// a failure is reported as [`reading`] names it.
pub open spec fn retry_result(response: ResponseView) -> Result<Seq<char>, RedisAccessorError> {
    match reading(response, true) {
        Ok(text) => Ok(text),
        Err(err_type) => Err(RedisAccessorError { err_type }),
    }
}

/// The result of a dispatch whose authentication did not go through.
pub open spec fn auth_failure() -> Result<Seq<char>, RedisAccessorError> {
    Err(RedisAccessorError { err_type: RedisAccessorErrorType::AuthError })
}

/// One step of a dispatch: what a guard asks for once it is told what came
/// back for the command that it had asked to be sent.
pub open spec fn step(guard: GuardView, response: ResponseView) -> NextView {
    match guard.awaited {
        Awaited::First => if asks_for_authentication(response) {
            NextView::Send {
                command: CommandView::Auth { password: guard.password },
                guard: GuardView { awaited: Awaited::Auth, ..guard },
            }
        } else {
            NextView::Done { result: first_result(response), state: AuthState::NotAttempted }
        },
        Awaited::Auth => if is_ok_status(response) {
            NextView::Send {
                command: CommandView::Select { index: guard.db },
                guard: GuardView { awaited: Awaited::Select, ..guard },
            }
        } else {
            NextView::Done { result: auth_failure(), state: AuthState::Exhausted }
        },
        Awaited::Select => if is_ok_status(response) {
            NextView::Send {
                command: guard.command,
                guard: GuardView { awaited: Awaited::Retry, ..guard },
            }
        } else {
            NextView::Done { result: auth_failure(), state: AuthState::Exhausted }
        },
        Awaited::Retry => NextView::Done {
            result: retry_result(response),
            state: if retry_result(response) is Ok {
                AuthState::Retried
            } else {
                AuthState::Exhausted
            },
        },
    }
}

impl ReauthGuard {
    /// Begins a dispatch of `command` on a connection whose credential is
    /// `password` and whose namespace is `db`.
    pub fn start(command: Command, password: String, db: i64) -> (next: Next)
        ensures
            next@ == begin(command@, password@, db as int),
    {
        let first = command.duplicate();
        Next::Send {
            command: first,
            guard: ReauthGuard { command, password, db, awaited: Awaited::First },
        }
    }

    /// The authentication state of the dispatch.
    pub fn state(&self) -> (state: AuthState)
        ensures
            state == self@.awaited.state(),
    {
        match self.awaited {
            Awaited::First => AuthState::NotAttempted,
            Awaited::Auth => AuthState::Authenticating,
            Awaited::Select => AuthState::Authenticating,
            Awaited::Retry => AuthState::Retried,
        }
    }

    /// Tells the guard what came back for the command that it had asked to
    /// be sent, and learns what to do next.
    pub fn on_response(self, response: Response) -> (next: Next)
        ensures
            next@ == step(self@, response@),
    {
        match self.awaited {
            Awaited::First => {
                match match_resp_value(&response, false) {
                    Ok(text) => Next::Done { result: Ok(text), state: AuthState::NotAttempted },
                    Err(RedisAccessorErrorType::AuthError) => {
                        let auth = Command::Auth { password: self.password.clone() };
                        Next::Send {
                            command: auth,
                            guard: ReauthGuard { awaited: Awaited::Auth, ..self },
                        }
                    },
                    Err(err_type) => Next::Done {
                        result: Err(RedisAccessorError { err_type }),
                        state: AuthState::NotAttempted,
                    },
                }
            },
            Awaited::Auth => {
                if acknowledges(&response) {
                    let select = Command::Select { index: self.db };
                    Next::Send {
                        command: select,
                        guard: ReauthGuard { awaited: Awaited::Select, ..self },
                    }
                } else {
                    Next::Done {
                        result: Err(RedisAccessorError { err_type: RedisAccessorErrorType::AuthError }),
                        state: AuthState::Exhausted,
                    }
                }
            },
            Awaited::Select => {
                if acknowledges(&response) {
                    let again = self.command.duplicate();
                    Next::Send {
                        command: again,
                        guard: ReauthGuard { awaited: Awaited::Retry, ..self },
                    }
                } else {
                    Next::Done {
                        result: Err(RedisAccessorError { err_type: RedisAccessorErrorType::AuthError }),
                        state: AuthState::Exhausted,
                    }
                }
            },
            Awaited::Retry => {
                match match_resp_value(&response, true) {
                    Ok(text) => Next::Done { result: Ok(text), state: AuthState::Retried },
                    Err(err_type) => Next::Done {
                        result: Err(RedisAccessorError { err_type }),
                        state: AuthState::Exhausted,
                    },
                }
            },
        }
    }
}

/// A dispatch asks for at most three commands after the first: each step
/// either ends it or leaves one command fewer to ask for.
pub proof fn law_every_step_ends_or_counts_down(guard: GuardView, response: ResponseView)
    ensures
        match step(guard, response) {
            NextView::Send { guard: after, .. } => after.awaited.sends_left() + 1
                == guard.awaited.sends_left(),
            NextView::Done { .. } => true,
        },
        guard.awaited == Awaited::Retry ==> step(guard, response) is Done,
{
}

/// The number of commands that a dispatch asks to be sent from here on, when
/// the connection answers with `responses` in turn and with nothing once they
/// are used up.
pub open spec fn sends(next: NextView, responses: Seq<ResponseView>) -> nat
    decreases responses.len(),
{
    match next {
        NextView::Done { .. } => 0,
        NextView::Send { guard, .. } => if responses.len() == 0 {
            1
        } else {
            1 + sends(step(guard, responses.first()), responses.drop_first())
        },
    }
}

/// Whatever the connection answers, a dispatch sends at most four commands:
/// the command, `AUTH`, `SELECT`, and the command once more.
pub proof fn law_no_dispatch_sends_more_than_four(
    command: CommandView,
    password: Seq<char>,
    db: int,
    responses: Seq<ResponseView>,
)
    ensures
        1 <= sends(begin(command, password, db), responses) <= 4,
{
    lemma_sends_is_bounded(begin(command, password, db), responses);
}

proof fn lemma_sends_is_bounded(next: NextView, responses: Seq<ResponseView>)
    ensures
        match next {
            NextView::Done { .. } => sends(next, responses) == 0,
            NextView::Send { guard, .. } => 1 <= sends(next, responses) <= 1
                + guard.awaited.sends_left(),
        },
    decreases responses.len(),
{
    match next {
        NextView::Done { .. } => {},
        NextView::Send { guard, .. } => {
            if responses.len() > 0 {
                law_every_step_ends_or_counts_down(guard, responses.first());
                lemma_sends_is_bounded(step(guard, responses.first()), responses.drop_first());
            }
        },
    }
}

/// When the first answer to a command asks for authentication and the server
/// then acknowledges `AUTH` and `SELECT`, the guard asks for exactly three
/// more commands: `AUTH` with the credential, `SELECT` with the namespace,
/// and the command again. The answer to that last one decides the dispatch:
/// its own result is the result. If it asks for authentication once more the
/// dispatch ends with `AuthError`, exhausted, and nothing further is sent.
pub proof fn law_reauthenticates_once(
    command: CommandView,
    password: Seq<char>,
    db: int,
    first: ResponseView,
    auth: ResponseView,
    select: ResponseView,
    last: ResponseView,
)
    requires
        asks_for_authentication(first),
        is_ok_status(auth),
        is_ok_status(select),
    ensures
        ({
            let s0 = begin(command, password, db);
            let s1 = step(s0->guard, first);
            let s2 = step(s1->guard, auth);
            let s3 = step(s2->guard, select);
            let s4 = step(s3->guard, last);
            &&& s0 is Send && s0->command == command
            &&& s1 is Send && s1->command == (CommandView::Auth { password })
            &&& s1->guard.awaited.state() == AuthState::Authenticating
            &&& s2 is Send && s2->command == (CommandView::Select { index: db })
            &&& s2->guard.awaited.state() == AuthState::Authenticating
            &&& s3 is Send && s3->command == command
            &&& s3->guard.awaited.state() == AuthState::Retried
            &&& s4 is Done && s4->result == retry_result(last)
            &&& asks_for_authentication(last) ==> s4->result == auth_failure() && s4->state
                == AuthState::Exhausted
        }),
{
}

/// When `AUTH` or `SELECT` is not acknowledged, the dispatch ends at once
/// with `AuthError`, exhausted: the command is not sent again.
pub proof fn law_failed_authentication_is_terminal(guard: GuardView, response: ResponseView)
    requires
        guard.awaited == Awaited::Auth || guard.awaited == Awaited::Select,
        !is_ok_status(response),
    ensures
        step(guard, response) == (NextView::Done {
            result: auth_failure(),
            state: AuthState::Exhausted,
        }),
{
}

/// An answer to the first attempt that does not ask for authentication ends
/// the dispatch at once, with no authentication step and nothing more sent.
pub proof fn law_first_answer_passes_through(guard: GuardView, response: ResponseView)
    requires
        guard.awaited == Awaited::First,
        !asks_for_authentication(response),
    ensures
        step(guard, response) == (NextView::Done {
            result: first_result(response),
            state: AuthState::NotAttempted,
        }),
{
}

} // verus!
