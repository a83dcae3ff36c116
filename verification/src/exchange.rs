//! Exchanges with the store. An exchange is what a request has begun and
//! not yet ended: it names the next command for the store, takes the reply
//! and goes on, until it ends in an outcome or an error.

use vstd::prelude::*;
use vstd::string::*;
use crate::auth::{
    after_attempts_model, attempts_query, authenticate_admin, blank_or_empty, check_rate_limit,
    clear_failed_attempts, create_admin_tokens, increment_failed_attempts, make_login_success,
    save_admin_session, update_session_activity, activity_update, LoginSeed, LoginSeedView,
    LoginSuccess, LoginSuccessView,
};
use crate::csrf::{invalid_csrf, CsrfTokenResponse, CsrfTokenResponseView};
use crate::error::{AppError, AppErrorView};
use crate::keys::{attempts_key, make_session_key, session_key};
use crate::state::{AppState, AppStateView};
use crate::store::{
    apply, commands_view, Contents, MemoryStore, StoreCommand, StoreCommandView, StoreReply,
    StoreReplyView,
};
use crate::token::{AdminClaims, AdminClaimsView};

verus! {

/// What an exchange ends in when nothing went wrong.
#[derive(Debug)]
pub enum Outcome {
    /// The CSRF token was redeemed.
    CsrfAccepted,
    /// A CSRF token was issued.
    CsrfIssued(CsrfTokenResponse),
    /// The login succeeded.
    LoggedIn(LoginSuccess),
    /// The request goes on to the page it asked for, with these claims.
    Admitted(AdminClaims),
    /// The request is sent to the login page.
    Redirected,
    /// The session is over; the cookie is to be cleared and the request
    /// sent to the login page.
    LoggedOut,
}

pub ghost enum OutcomeView {
    CsrfAccepted,
    CsrfIssued(CsrfTokenResponseView),
    LoggedIn(LoginSuccessView),
    Admitted(AdminClaimsView),
    Redirected,
    LoggedOut,
}

impl View for Outcome {
    type V = OutcomeView;

    open spec fn view(&self) -> OutcomeView {
        match self {
            Outcome::CsrfAccepted => OutcomeView::CsrfAccepted,
            Outcome::CsrfIssued(r) => OutcomeView::CsrfIssued(r@),
            Outcome::LoggedIn(s) => OutcomeView::LoggedIn(s@),
            Outcome::Admitted(c) => OutcomeView::Admitted(c@),
            Outcome::Redirected => OutcomeView::Redirected,
            Outcome::LoggedOut => OutcomeView::LoggedOut,
        }
    }
}

/// How an exchange ends.
pub type Ending = Result<OutcomeView, AppErrorView>;

pub open spec fn ending_view(result: Result<Outcome, AppError>) -> Ending {
    match result {
        Ok(outcome) => Ok(outcome@),
        Err(e) => Err(e@),
    }
}

/// What the caller is to do next for an exchange.
#[derive(Debug)]
pub enum Step {
    /// Send the command to the store and resume with its reply.
    Send(StoreCommand),
    /// Answer the request: the exchange has ended.
    Finish(Result<Outcome, AppError>),
}

pub ghost enum StepView {
    Send(StoreCommandView),
    Finish(Ending),
}

impl View for Step {
    type V = StepView;

    open spec fn view(&self) -> StepView {
        match self {
            Step::Send(c) => StepView::Send(c@),
            Step::Finish(r) => StepView::Finish(ending_view(*r)),
        }
    }
}

/// A login that has passed the CSRF check or is about to.
pub struct LoginAttempt {
    pub username: String,
    pub password: String,
    pub seed: LoginSeed,
}

pub ghost struct LoginAttemptView {
    pub username: Seq<char>,
    pub password: Seq<char>,
    pub seed: LoginSeedView,
}

impl View for LoginAttempt {
    type V = LoginAttemptView;

    open spec fn view(&self) -> LoginAttemptView {
        LoginAttemptView { username: self.username@, password: self.password@, seed: self.seed@ }
    }
}

/// What follows when a CSRF token has been redeemed.
pub enum AfterCsrf {
    /// Nothing: the token is all that was asked about.
    Accept,
    /// The login that the token came with.
    Login(LoginAttempt),
}

pub ghost enum AfterCsrfView {
    Accept,
    Login(LoginAttemptView),
}

impl View for AfterCsrf {
    type V = AfterCsrfView;

    open spec fn view(&self) -> AfterCsrfView {
        match self {
            AfterCsrf::Accept => AfterCsrfView::Accept,
            AfterCsrf::Login(a) => AfterCsrfView::Login(a@),
        }
    }
}

/// An exchange, by what it waits for.
pub enum Exchange {
    /// Whether the marker of a CSRF token is there.
    CsrfLookup { key: String, then: AfterCsrf },
    /// That the marker has been taken away.
    CsrfConsume { then: AfterCsrf },
    /// The failed logins remembered under the name of a login.
    Attempts { attempt: LoginAttempt },
    /// Whether the session of a verified token is still kept.
    SessionLookup { claims: AdminClaims, now: i64 },
    /// The record of that session.
    SessionRead { claims: AdminClaims, now: i64 },
    /// That a command was carried out, with `pending` still to be sent
    /// before the exchange ends in `result`.
    Closing { pending: Vec<StoreCommand>, result: Result<Outcome, AppError> },
    /// Nothing: the exchange has ended.
    Finished,
}

pub ghost enum ExchangeView {
    CsrfLookup { key: Seq<char>, then: AfterCsrfView },
    CsrfConsume { then: AfterCsrfView },
    Attempts { attempt: LoginAttemptView },
    SessionLookup { claims: AdminClaimsView, now: int },
    SessionRead { claims: AdminClaimsView, now: int },
    Closing { pending: Seq<StoreCommandView>, result: Ending },
    Finished,
}

impl View for Exchange {
    type V = ExchangeView;

    open spec fn view(&self) -> ExchangeView {
        match self {
            Exchange::CsrfLookup { key, then } => ExchangeView::CsrfLookup {
                key: key@,
                then: then@,
            },
            Exchange::CsrfConsume { then } => ExchangeView::CsrfConsume { then: then@ },
            Exchange::Attempts { attempt } => ExchangeView::Attempts { attempt: attempt@ },
            Exchange::SessionLookup { claims, now } => ExchangeView::SessionLookup {
                claims: claims@,
                now: *now as int,
            },
            Exchange::SessionRead { claims, now } => ExchangeView::SessionRead {
                claims: claims@,
                now: *now as int,
            },
            Exchange::Closing { pending, result } => ExchangeView::Closing {
                pending: commands_view(pending@),
                result: ending_view(*result),
            },
            Exchange::Finished => ExchangeView::Finished,
        }
    }
}

/// The answer to a reply of a kind that was not asked for.
pub open spec fn unexpected_reply() -> AppErrorView {
    AppErrorView::RedisError("unexpected reply from the store"@)
}

/// The answer to a reply that no command was sent for.
pub open spec fn nothing_pending() -> AppErrorView {
    AppErrorView::RedisError("no command is pending"@)
}

/// The error that a reply other than the one awaited stands for: the
/// store's own words where it reports a failure.
pub open spec fn failure_of(reply: StoreReplyView) -> AppErrorView {
    match reply {
        StoreReplyView::Failed(words) => AppErrorView::RedisError(words),
        _ => unexpected_reply(),
    }
}

/// An exchange that ends at once.
pub open spec fn finish_model(result: Ending) -> (ExchangeView, StepView) {
    (ExchangeView::Finished, StepView::Finish(result))
}

/// An exchange that sends `pending`, one command after the other, and
/// then ends in `result`, unless the store fails to carry one of them
/// out.
pub open spec fn play_model(pending: Seq<StoreCommandView>, result: Ending) -> (
    ExchangeView,
    StepView,
) {
    if pending.len() == 0 {
        finish_model(result)
    } else {
        (
            ExchangeView::Closing { pending: pending.drop_first(), result },
            StepView::Send(pending[0]),
        )
    }
}

/// How an exchange goes on when the store has replied to its command.
/// Whatever the exchange waits for, a store that reports a failure ends
/// it in that failure, in the store's own words, and so does a reply of
/// another kind than the one awaited.
pub open spec fn resume_model(exchange: ExchangeView, state: AppStateView, reply: StoreReplyView) -> (
    ExchangeView,
    StepView,
) {
    match exchange {
        ExchangeView::CsrfLookup { key, then } => match reply {
            StoreReplyView::Found(true) => (
                ExchangeView::CsrfConsume { then },
                StepView::Send(StoreCommandView::Del { key }),
            ),
            StoreReplyView::Found(false) => finish_model(Err(invalid_csrf())),
            _ => finish_model(Err(failure_of(reply))),
        },
        ExchangeView::CsrfConsume { then } => match reply {
            StoreReplyView::Done => match then {
                AfterCsrfView::Accept => finish_model(Ok(OutcomeView::CsrfAccepted)),
                AfterCsrfView::Login(attempt) => (
                    ExchangeView::Attempts { attempt },
                    StepView::Send(
                        StoreCommandView::GetCount { key: attempts_key(attempt.username) },
                    ),
                ),
            },
            _ => finish_model(Err(failure_of(reply))),
        },
        ExchangeView::Attempts { attempt } => match reply {
            StoreReplyView::Count(count) => after_attempts_model(attempt, state, count),
            _ => finish_model(Err(failure_of(reply))),
        },
        ExchangeView::SessionLookup { claims, now } => match reply {
            StoreReplyView::Found(true) => (
                ExchangeView::SessionRead { claims, now },
                StepView::Send(StoreCommandView::GetText { key: session_key(claims.session_id) }),
            ),
            StoreReplyView::Found(false) => finish_model(Ok(OutcomeView::Redirected)),
            _ => finish_model(Err(failure_of(reply))),
        },
        ExchangeView::SessionRead { claims, now } => match reply {
            StoreReplyView::Text(found) => match activity_update(claims.session_id, found, now) {
                Ok(Some(command)) => (
                    ExchangeView::Closing {
                        pending: Seq::empty(),
                        result: Ok(OutcomeView::Admitted(claims)),
                    },
                    StepView::Send(command),
                ),
                Ok(None) => finish_model(Ok(OutcomeView::Admitted(claims))),
                Err(e) => finish_model(Err(e)),
            },
            _ => finish_model(Err(failure_of(reply))),
        },
        ExchangeView::Closing { pending, result } => if reply is Done {
            play_model(pending, result)
        } else {
            finish_model(Err(failure_of(reply)))
        },
        ExchangeView::Finished => finish_model(Err(nothing_pending())),
    }
}

/// An exchange that ends at once.
pub fn finish(result: Result<Outcome, AppError>) -> (r: (Exchange, Step))
    ensures
        (r.0@, r.1@) == finish_model(ending_view(result)),
{
    (Exchange::Finished, Step::Finish(result))
}

/// An exchange that sends `pending`, one command after the other, and
/// then ends in `result`, unless the store fails to carry one of them
/// out.
pub fn play(pending: Vec<StoreCommand>, result: Result<Outcome, AppError>) -> (r: (Exchange, Step))
    ensures
        (r.0@, r.1@) == play_model(commands_view(pending@), ending_view(result)),
{
    let mut pending = pending;
    if pending.len() == 0 {
        finish(result)
    } else {
        let ghost before = pending@;
        let first = pending.remove(0);
        proof {
            assert(commands_view(pending@) =~= commands_view(before).drop_first());
        }
        (Exchange::Closing { pending, result }, Step::Send(first))
    }
}

/// The error that a reply other than the one awaited stands for.
pub fn reply_failure(reply: StoreReply) -> (e: AppError)
    ensures
        e@ == failure_of(reply@),
{
    match reply {
        StoreReply::Failed(words) => AppError::RedisError(words),
        _ => AppError::RedisError(String::from_str("unexpected reply from the store")),
    }
}

/// How a login goes on when the failed logins under its name are known.
fn after_attempts(attempt: LoginAttempt, state: &AppState, count: Option<i64>) -> (r: (
    Exchange,
    Step,
))
    ensures
        (r.0@, r.1@) == after_attempts_model(
            attempt@,
            state@,
            match count {
                Some(n) => Some(n as int),
                None => None,
            },
        ),
{
    match check_rate_limit(count) {
        Err(e) => {
            return finish(Err(e));
        },
        Ok(_) => {},
    }
    let username = attempt.username.as_str();
    let password = attempt.password.as_str();
    if blank_or_empty(username, password) {
        return play(
            increment_failed_attempts(username),
            Err(AppError::bad_request("Username and password are required")),
        );
    }
    let seed = &attempt.seed;
    let admin = match authenticate_admin(state, username, password, seed.admin_id()) {
        Ok(admin) => admin,
        Err(e) => {
            return match e {
                AppError::Unauthorized(_) => play(increment_failed_attempts(username), Err(e)),
                _ => finish(Err(e)),
            };
        },
    };
    let now = seed.now();
    let tokens = create_admin_tokens(
        state,
        &admin,
        seed.session_id(),
        now,
        seed.access_jti(),
        seed.refresh_jti(),
    );
    match tokens {
        Err(e) => finish(Err(e)),
        Ok((access_token, refresh_token)) => {
            let mut commands = save_admin_session(
                seed.session_id(),
                &admin,
                access_token.as_str(),
                refresh_token.as_str(),
                now,
            );
            let ghost saved = commands@;
            let clear = clear_failed_attempts(username);
            proof {
                assert(commands_view(saved.push(clear)) =~= commands_view(saved).push(clear@));
            }
            commands.push(clear);
            let success = make_login_success(access_token.as_str(), refresh_token.as_str());
            play(commands, Ok(Outcome::LoggedIn(success)))
        },
    }
}

impl Exchange {
    /// Goes on with the exchange when the store has replied to its command.
    pub fn resume(self, state: &AppState, reply: StoreReply) -> (r: (Exchange, Step))
        ensures
            (r.0@, r.1@) == resume_model(self@, state@, reply@),
    {
        match self {
            Exchange::CsrfLookup { key, then } => match reply {
                StoreReply::Found(true) => (
                    Exchange::CsrfConsume { then },
                    Step::Send(StoreCommand::Del { key }),
                ),
                StoreReply::Found(false) => finish(
                    Err(AppError::unauthorized("Invalid or expired CSRF token")),
                ),
                other => finish(Err(reply_failure(other))),
            },
            Exchange::CsrfConsume { then } => match reply {
                StoreReply::Done => match then {
                    AfterCsrf::Accept => finish(Ok(Outcome::CsrfAccepted)),
                    AfterCsrf::Login(attempt) => {
                        let command = attempts_query(attempt.username.as_str());
                        (Exchange::Attempts { attempt }, Step::Send(command))
                    },
                },
                other => finish(Err(reply_failure(other))),
            },
            Exchange::Attempts { attempt } => match reply {
                StoreReply::Count(count) => after_attempts(attempt, state, count),
                other => finish(Err(reply_failure(other))),
            },
            Exchange::SessionLookup { claims, now } => match reply {
                StoreReply::Found(true) => {
                    let command = StoreCommand::GetText {
                        key: make_session_key(claims.session_id.as_str()),
                    };
                    (Exchange::SessionRead { claims, now }, Step::Send(command))
                },
                StoreReply::Found(false) => finish(Ok(Outcome::Redirected)),
                other => finish(Err(reply_failure(other))),
            },
            Exchange::SessionRead { claims, now } => match reply {
                StoreReply::Text(found) => {
                    match update_session_activity(claims.session_id.as_str(), found, now) {
                        Ok(Some(command)) => {
                            let pending: Vec<StoreCommand> = Vec::new();
                            let exchange = Exchange::Closing {
                                pending,
                                result: Ok(Outcome::Admitted(claims)),
                            };
                            proof {
                                assert(exchange@->Closing_pending =~= Seq::empty());
                            }
                            (exchange, Step::Send(command))
                        },
                        Ok(None) => finish(Ok(Outcome::Admitted(claims))),
                        Err(e) => finish(Err(e)),
                    }
                },
                other => finish(Err(reply_failure(other))),
            },
            Exchange::Closing { pending, result } => match reply {
                StoreReply::Done => play(pending, result),
                other => finish(Err(reply_failure(other))),
            },
            Exchange::Finished => finish(
                Err(AppError::RedisError(String::from_str("no command is pending"))),
            ),
        }
    }
}

/// How many commands an exchange may still send, at most.
pub open spec fn rank(exchange: ExchangeView) -> nat {
    match exchange {
        ExchangeView::CsrfLookup { .. } => 6,
        ExchangeView::CsrfConsume { .. } => 5,
        ExchangeView::Attempts { .. } => 4,
        ExchangeView::SessionLookup { .. } => 3,
        ExchangeView::SessionRead { .. } => 2,
        ExchangeView::Closing { pending, .. } => pending.len(),
        ExchangeView::Finished => 0,
    }
}

/// How far an exchange is from its end when `step` is its next step.
pub open spec fn distance(exchange: ExchangeView, step: StepView) -> nat {
    match step {
        StepView::Send(_) => rank(exchange) + 1,
        StepView::Finish(_) => 0,
    }
}

/// Every reply brings an exchange closer to its end.
pub proof fn lemma_progress(
    exchange: ExchangeView,
    command: StoreCommandView,
    state: AppStateView,
    reply: StoreReplyView,
)
    ensures
        distance(resume_model(exchange, state, reply).0, resume_model(exchange, state, reply).1)
            < distance(exchange, StepView::Send(command)),
{
}

/// What an exchange comes to against a store that holds `contents` and
/// carries every command out at time `now`: the contents of the store
/// when the exchange has ended, and how it ended.
pub open spec fn run(
    exchange: ExchangeView,
    step: StepView,
    state: AppStateView,
    contents: Contents,
    now: int,
) -> (Contents, Ending)
    decreases distance(exchange, step),
{
    match step {
        StepView::Finish(result) => (contents, result),
        StepView::Send(command) => {
            let after = apply(contents, command, now);
            let next = resume_model(exchange, state, after.1);
            proof {
                lemma_progress(exchange, command, state, after.1);
            }
            run(next.0, next.1, state, after.0, now)
        },
    }
}

impl MemoryStore {
    /// Runs an exchange to its end against this store, every command
    /// carried out at time `now`.
    pub fn drive(&mut self, state: &AppState, exchange: Exchange, step: Step, now: i64) -> (r:
        Result<Outcome, AppError>)
        ensures
            final(self)@ == run(exchange@, step@, state@, old(self)@, now as int).0,
            ending_view(r) == run(exchange@, step@, state@, old(self)@, now as int).1,
    {
        let ghost goal = run(exchange@, step@, state@, self@, now as int);
        let mut current = exchange;
        let mut ahead = step;
        loop
            invariant
                run(current@, ahead@, state@, self@, now as int) == goal,
                goal == run(exchange@, step@, state@, old(self)@, now as int),
            decreases distance(current@, ahead@),
        {
            match ahead {
                Step::Finish(result) => {
                    return result;
                },
                Step::Send(command) => {
                    proof {
                        lemma_progress(
                            current@,
                            command@,
                            state@,
                            apply(self@, command@, now as int).1,
                        );
                    }
                    let reply = self.execute(&command, now);
                    let next = current.resume(state, reply);
                    current = next.0;
                    ahead = next.1;
                },
            }
        }
    }
}

} // verus!
