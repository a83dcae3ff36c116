//! Anti-CSRF tokens: random, bound to a session, good for one use.

use vstd::prelude::*;
use vstd::string::*;
use crate::error::{AppError, AppErrorView};
use crate::exchange::{
    finish, finish_model, AfterCsrf, AfterCsrfView, Exchange, ExchangeView, Outcome, OutcomeView,
    Step, StepView,
};
use crate::fresh::{all_alphanumeric, random_token};
use crate::keys::{csrf_key, make_csrf_key};
use crate::store::{StoreCommand, StoreCommandView};
use crate::submission::ErrorResponse;
use crate::text::view_of;

verus! {

/// Characters in a token.
pub const CSRF_TOKEN_LENGTH: usize = 32;

/// Seconds for which a token handed out to a page can be redeemed.
pub const CSRF_TOKEN_TTL: usize = 900;

/// A token as it is handed out.
#[derive(Debug)]
pub struct CsrfTokenResponse {
    pub token: String,
    /// Seconds for which the token can be redeemed.
    pub expires_in: usize,
}

pub ghost struct CsrfTokenResponseView {
    pub token: Seq<char>,
    pub expires_in: int,
}

impl View for CsrfTokenResponse {
    type V = CsrfTokenResponseView;

    open spec fn view(&self) -> CsrfTokenResponseView {
        CsrfTokenResponseView { token: self.token@, expires_in: self.expires_in as int }
    }
}

/// Issues and redeems tokens that last for a set time.
pub struct CsrfService {
    ttl_seconds: usize,
}

/// The answer to a token that is not there to be redeemed.
pub open spec fn invalid_csrf() -> AppErrorView {
    AppErrorView::Unauthorized("Invalid or expired CSRF token"@)
}

/// The value of a token's marker. That the marker is there is all it says.
pub open spec fn marker() -> Seq<char> {
    "1"@
}

/// How `token` is issued to a session: its marker is put into the store,
/// to stay for `ttl` seconds, and then the token is handed out.
pub open spec fn issue_model(ttl: int, session_id: Seq<char>, token: Seq<char>) -> (
    ExchangeView,
    StepView,
) {
    (
        ExchangeView::Closing {
            pending: Seq::empty(),
            result: Ok(OutcomeView::CsrfIssued(CsrfTokenResponseView { token, expires_in: ttl })),
        },
        StepView::Send(
            StoreCommandView::SetEx { key: csrf_key(session_id, token), value: marker(), ttl },
        ),
    )
}

/// How a token is redeemed: the store is asked for its marker.
pub open spec fn redeem_model(session_id: Seq<char>, token: Seq<char>, then: AfterCsrfView) -> (
    ExchangeView,
    StepView,
) {
    (
        ExchangeView::CsrfLookup { key: csrf_key(session_id, token), then },
        StepView::Send(StoreCommandView::Exists { key: csrf_key(session_id, token) }),
    )
}

/// What asking for a token begins: without a session, a refusal; else the
/// issue of a token of the right shape.
pub open spec fn token_request(
    session_id: Option<Seq<char>>,
    exchange: ExchangeView,
    step: StepView,
) -> bool {
    match session_id {
        None => {
            let refusal = finish_model(
                Err(AppErrorView::Unauthorized("Missing or invalid session_id"@)),
            );
            exchange == refusal.0 && step == refusal.1
        },
        Some(id) => fresh_issue(CSRF_TOKEN_TTL as int, id, token_in(exchange), exchange, step),
    }
}

/// The token that an exchange is about to hand out.
pub open spec fn token_in(exchange: ExchangeView) -> Seq<char> {
    match exchange {
        ExchangeView::Closing { result: Ok(OutcomeView::CsrfIssued(response)), .. } => response.token,
        _ => Seq::empty(),
    }
}

/// Whether `r` is the issue of `token`, a token of the right shape.
pub open spec fn fresh_issue(
    ttl: int,
    session_id: Seq<char>,
    token: Seq<char>,
    exchange: ExchangeView,
    step: StepView,
) -> bool {
    &&& token.len() == CSRF_TOKEN_LENGTH
    &&& all_alphanumeric(token)
    &&& exchange == issue_model(ttl, session_id, token).0
    &&& step == issue_model(ttl, session_id, token).1
}

impl CsrfService {
    /// A service whose tokens last for `ttl_seconds` seconds.
    pub fn new(ttl_seconds: usize) -> (service: CsrfService)
        ensures
            service.ttl() == ttl_seconds,
    {
        CsrfService { ttl_seconds }
    }

    /// Seconds for which a token lasts.
    pub closed spec fn ttl(&self) -> int {
        self.ttl_seconds as int
    }

    /// Seconds for which a token lasts.
    pub fn ttl_seconds(&self) -> (ttl: usize)
        ensures
            ttl == self.ttl(),
    {
        self.ttl_seconds
    }

    /// Begins to issue `token` to a session.
    pub fn issue(&self, session_id: &str, token: String) -> (r: (Exchange, Step))
        ensures
            (r.0@, r.1@) == issue_model(self.ttl(), session_id@, token@),
    {
        let command = StoreCommand::SetEx {
            key: make_csrf_key(session_id, token.as_str()),
            value: String::from_str("1"),
            ttl: self.ttl_seconds as u64,
        };
        let response = CsrfTokenResponse { token, expires_in: self.ttl_seconds };
        let pending: Vec<StoreCommand> = Vec::new();
        let exchange = Exchange::Closing { pending, result: Ok(Outcome::CsrfIssued(response)) };
        proof {
            assert(exchange@->Closing_pending =~= Seq::empty());
        }
        (exchange, Step::Send(command))
    }

    /// Begins to issue a new token to a session: 32 random letters and
    /// digits.
    pub fn create_token(&self, session_id: &str) -> (r: (Exchange, Step))
        ensures
            fresh_issue(self.ttl(), session_id@, token_in(r.0@), r.0@, r.1@),
    {
        let token = random_token(CSRF_TOKEN_LENGTH);
        self.issue(session_id, token)
    }

    /// Begins to redeem `token` for a session: it is accepted if its
    /// marker is there, and the marker is taken away.
    ///
    /// The store is asked twice, first for the marker and then to remove
    /// it. Nothing here joins the two: of two exchanges that redeem one
    /// token at the same moment both may find the marker.
    pub fn validate_csrf_token(&self, session_id: &str, token: &str) -> (r: (Exchange, Step))
        ensures
            (r.0@, r.1@) == redeem_model(session_id@, token@, AfterCsrfView::Accept),
    {
        redeem(session_id, token, AfterCsrf::Accept)
    }
}

/// Begins to redeem `token` for a session, with `then` to follow.
pub fn redeem(session_id: &str, token: &str, then: AfterCsrf) -> (r: (Exchange, Step))
    ensures
        (r.0@, r.1@) == redeem_model(session_id@, token@, then@),
{
    let key = make_csrf_key(session_id, token);
    let command = StoreCommand::Exists { key: key.clone() };
    (Exchange::CsrfLookup { key, then }, Step::Send(command))
}

/// Answers a page that asks for a token; `session_id` is the value of
/// its `session_id` cookie.
pub fn get_csrf_token(session_id: Option<&str>) -> (r: (Exchange, Step))
    ensures
        token_request(
            view_of(session_id),
            r.0@,
            r.1@,
        ),
{
    match session_id {
        None => finish(Err(AppError::unauthorized("Missing or invalid session_id"))),
        Some(id) => {
            let service = CsrfService::new(CSRF_TOKEN_TTL);
            service.create_token(id)
        },
    }
}

/// How a page is told that it gets no token: without a session it is not
/// authorised; anything else is the service's failure.
pub fn csrf_refusal(error: &AppError) -> (r: (u16, ErrorResponse))
    ensures
        error is Unauthorized ==> r.0 == 401 && r.1.message@ == "Missing or invalid session_id"@
            && r.1.code@ == "MISSING_SESSION"@,
        !(error is Unauthorized) ==> r.0 == 500 && r.1.message@ == "Failed to generate CSRF token"@
            && r.1.code@ == "INTERNAL_ERROR"@,
{
    match error {
        AppError::Unauthorized(_) => (
            401,
            ErrorResponse {
                message: String::from_str("Missing or invalid session_id"),
                code: String::from_str("MISSING_SESSION"),
            },
        ),
        _ => (
            500,
            ErrorResponse {
                message: String::from_str("Failed to generate CSRF token"),
                code: String::from_str("INTERNAL_ERROR"),
            },
        ),
    }
}

} // verus!
