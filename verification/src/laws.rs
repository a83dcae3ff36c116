//! What holds of every exchange, proved from the way exchanges go and
//! from what the store does with their commands.
//!
//! Where a law speaks of what an exchange comes to, it speaks of a store
//! that carries every command out as [`crate::store::apply`] says. What
//! becomes of an exchange whose store fails is stated by
//! [`lemma_store_failure_ends_exchange`].

use vstd::prelude::*;
use crate::auth::{
    authentication, claims_for, credentials_missing, guard_model, login_model, login_success,
    logout_model, new_session, token_pair, too_many_attempts, AdminUserView, LoginSeedView,
    LOGIN_ATTEMPT_WINDOW, MAX_LOGIN_ATTEMPTS,
};
use crate::csrf::{invalid_csrf, issue_model, redeem_model};
use crate::error::AppErrorView;
use crate::exchange::{
    finish_model, resume_model, run, AfterCsrfView, Ending, ExchangeView, OutcomeView, StepView,
};
use crate::keys::{
    attempts_key, colon_free, csrf_key, lemma_csrf_key_injective, lemma_keys_injective,
    lemma_kinds_differ, session_key, token_key,
};
use crate::password::invalid_credentials;
use crate::session::{access_token_of, record_of_text, SessionRecordView};
use crate::state::AppStateView;
use crate::store::{deadline, live, Contents, Slot, StoreCommandView, StoreReplyView, StoredView};
use crate::token::{verified_claims, AdminClaimsView, ACCESS_TOKEN_EXPIRY};

verus! {

/// What redeeming a CSRF token comes to against a store.
pub open spec fn redeem_run(
    session_id: Seq<char>,
    token: Seq<char>,
    state: AppStateView,
    contents: Contents,
    now: int,
) -> (Contents, Ending) {
    let begin = redeem_model(session_id, token, AfterCsrfView::Accept);
    run(begin.0, begin.1, state, contents, now)
}

/// What issuing a CSRF token comes to against a store.
pub open spec fn issue_run(
    ttl: int,
    session_id: Seq<char>,
    token: Seq<char>,
    state: AppStateView,
    contents: Contents,
    now: int,
) -> (Contents, Ending) {
    let begin = issue_model(ttl, session_id, token);
    run(begin.0, begin.1, state, contents, now)
}

/// What a login comes to against a store.
pub open spec fn login_run(
    state: AppStateView,
    csrf_token: Option<Seq<char>>,
    session_id: Option<Seq<char>>,
    username: Seq<char>,
    password: Seq<char>,
    seed: LoginSeedView,
    contents: Contents,
    now: int,
) -> (Contents, Ending) {
    let begin = login_model(csrf_token, session_id, username, password, seed);
    run(begin.0, begin.1, state, contents, now)
}

/// What the guard comes to against a store.
pub open spec fn guard_run(
    state: AppStateView,
    cookie: Option<Seq<char>>,
    contents: Contents,
    now: int,
) -> (Contents, Ending) {
    let begin = guard_model(state, cookie, now);
    run(begin.0, begin.1, state, contents, now)
}

/// What a logout comes to against a store.
pub open spec fn logout_run(
    state: AppStateView,
    cookie: Option<Seq<char>>,
    contents: Contents,
    now: int,
) -> (Contents, Ending) {
    let begin = logout_model(state, cookie, now);
    run(begin.0, begin.1, state, contents, now)
}

/// A CSRF token is redeemed once. Where its marker is in the store the
/// token is accepted and the marker is gone; redeemed again, at whatever
/// time, the token is refused.
pub proof fn lemma_csrf_redeemed_once(
    session_id: Seq<char>,
    token: Seq<char>,
    state: AppStateView,
    contents: Contents,
    now: int,
    later: int,
)
    requires
        live(contents, csrf_key(session_id, token), now),
    ensures
        redeem_run(session_id, token, state, contents, now).1 == Ok::<OutcomeView, AppErrorView>(
            OutcomeView::CsrfAccepted,
        ),
        redeem_run(session_id, token, state, contents, now).0 == contents.remove(
            csrf_key(session_id, token),
        ),
        redeem_run(
            session_id,
            token,
            state,
            redeem_run(session_id, token, state, contents, now).0,
            later,
        ).1 == Err::<OutcomeView, AppErrorView>(invalid_csrf()),
{
    reveal_with_fuel(run, 3);
}

/// A CSRF token whose marker is not in the store is refused, and the
/// store stays as it is: so is a token presented under another session
/// than the one it was issued to, unless that session has a marker of
/// its own under the same key.
pub proof fn lemma_csrf_unknown_refused(
    session_id: Seq<char>,
    token: Seq<char>,
    state: AppStateView,
    contents: Contents,
    now: int,
)
    requires
        !live(contents, csrf_key(session_id, token), now),
    ensures
        redeem_run(session_id, token, state, contents, now).1 == Err::<OutcomeView, AppErrorView>(
            invalid_csrf(),
        ),
        redeem_run(session_id, token, state, contents, now).0 == contents,
{
    reveal_with_fuel(run, 2);
}

/// A token that was issued can be redeemed until its time is up, and
/// not after.
pub proof fn lemma_csrf_issued_is_redeemable(
    ttl: int,
    session_id: Seq<char>,
    token: Seq<char>,
    state: AppStateView,
    contents: Contents,
    now: int,
    later: int,
)
    requires
        0 < ttl,
        now <= later,
    ensures
        live(issue_run(ttl, session_id, token, state, contents, now).0, csrf_key(session_id, token), later)
            == (deadline(now, ttl) is None || later < now + ttl),
{
    reveal_with_fuel(run, 2);
}

/// A token is bound to the session it was issued to. Issued to one
/// session, it is refused under every other that has no marker of its
/// own for it, and stays good for the session it was issued to. This is
/// so for tokens that hold no colon, as all tokens do that are made here.
pub proof fn lemma_csrf_bound_to_session(
    ttl: int,
    session_id: Seq<char>,
    other_session: Seq<char>,
    token: Seq<char>,
    state: AppStateView,
    contents: Contents,
    now: int,
    later: int,
)
    requires
        0 < ttl,
        colon_free(token),
        session_id != other_session,
        !live(contents, csrf_key(other_session, token), later),
    ensures
        ({
            let issued = issue_run(ttl, session_id, token, state, contents, now).0;
            let refused = redeem_run(other_session, token, state, issued, later);
            &&& refused.1 == Err::<OutcomeView, AppErrorView>(invalid_csrf())
            &&& refused.0 == issued
        }),
{
    if csrf_key(session_id, token) == csrf_key(other_session, token) {
        lemma_csrf_key_injective(session_id, token, other_session, token);
    }
    reveal_with_fuel(run, 2);
    let issued = issue_run(ttl, session_id, token, state, contents, now).0;
    lemma_csrf_unknown_refused(other_session, token, state, issued, later);
}

/// The failed logins remembered under a name at a time.
pub open spec fn attempts(contents: Contents, username: Seq<char>, now: int) -> int {
    if live(contents, attempts_key(username), now) {
        match contents[attempts_key(username)].value {
            StoredView::Count(n) => n,
            StoredView::Text(_) => 0,
        }
    } else {
        0
    }
}

/// Whether the record under the key of a name's failed logins, if there
/// is one, is a counter that can still count.
pub open spec fn counter_sound(contents: Contents, username: Seq<char>, now: int) -> bool {
    live(contents, attempts_key(username), now) ==> (contents[attempts_key(
        username,
    )].value matches StoredView::Count(n) && n < i64::MAX)
}

/// Whether a login comes with a CSRF token that can be redeemed.
pub open spec fn token_in_hand(
    csrf_token: Option<Seq<char>>,
    session_id: Option<Seq<char>>,
    contents: Contents,
    now: int,
) -> bool {
    csrf_token is Some && session_id is Some && live(
        contents,
        csrf_key(session_id->0, csrf_token->0),
        now,
    )
}

/// The store after a login that succeeded: the marker of the CSRF token
/// is gone, the session and the record that leads to it from its access
/// token are kept for as long as the access token lasts, and the failed
/// logins under the name are forgotten.
pub open spec fn after_login(
    contents: Contents,
    csrf_token: Seq<char>,
    session_id: Seq<char>,
    username: Seq<char>,
    admin: AdminUserView,
    seed: LoginSeedView,
    access_token: Seq<char>,
    refresh_token: Seq<char>,
    now: int,
) -> Contents {
    contents.remove(csrf_key(session_id, csrf_token)).insert(
        session_key(seed.session_id),
        Slot {
            value: StoredView::Text(
                new_session(admin, access_token, refresh_token, seed.now).stored(),
            ),
            deadline: deadline(now, ACCESS_TOKEN_EXPIRY as int),
        },
    ).insert(
        token_key(access_token),
        Slot {
            value: StoredView::Text(seed.session_id),
            deadline: deadline(now, ACCESS_TOKEN_EXPIRY as int),
        },
    ).remove(attempts_key(username))
}

/// The store after a login that was counted as a failure: the marker of
/// the CSRF token is gone, and one more failed login is remembered under
/// the name, for the whole window from now.
pub open spec fn after_failure(
    contents: Contents,
    csrf_token: Seq<char>,
    session_id: Seq<char>,
    username: Seq<char>,
    now: int,
) -> Contents {
    contents.remove(csrf_key(session_id, csrf_token)).insert(
        attempts_key(username),
        Slot {
            value: StoredView::Count(attempts(contents, username, now) + 1),
            deadline: deadline(now, LOGIN_ATTEMPT_WINDOW as int),
        },
    )
}

/// A login with the admin's name and password succeeds once per CSRF
/// token: with a token that can be redeemed, under the limit of failed
/// logins, it is answered with the session cookie and leaves its session
/// in the store; the next login with the same token, whoever tries it and
/// whenever, is refused.
pub proof fn lemma_login_once_per_token(
    state: AppStateView,
    csrf_token: Seq<char>,
    session_id: Seq<char>,
    username: Seq<char>,
    password: Seq<char>,
    seed: LoginSeedView,
    contents: Contents,
    now: int,
    next_username: Seq<char>,
    next_password: Seq<char>,
    next_seed: LoginSeedView,
    later: int,
)
    requires
        live(contents, csrf_key(session_id, csrf_token), now),
        counter_sound(contents, username, now),
        attempts(contents, username, now) < MAX_LOGIN_ATTEMPTS,
        !credentials_missing(username, password),
        authentication(state, username, password, seed.admin_id) is Ok,
        token_pair(
            state.jwt_secret,
            authentication(state, username, password, seed.admin_id)->Ok_0,
            seed.session_id,
            seed.now,
            seed.access_jti,
            seed.refresh_jti,
        ) is Ok,
    ensures
        ({
            let admin = authentication(state, username, password, seed.admin_id)->Ok_0;
            let tokens = token_pair(
                state.jwt_secret,
                admin,
                seed.session_id,
                seed.now,
                seed.access_jti,
                seed.refresh_jti,
            )->Ok_0;
            let first = login_run(
                state,
                Some(csrf_token),
                Some(session_id),
                username,
                password,
                seed,
                contents,
                now,
            );
            let second = login_run(
                state,
                Some(csrf_token),
                Some(session_id),
                next_username,
                next_password,
                next_seed,
                first.0,
                later,
            );
            &&& first.1 == Ok::<OutcomeView, AppErrorView>(
                OutcomeView::LoggedIn(login_success(tokens.0, tokens.1)),
            )
            &&& first.0 == after_login(
                contents,
                csrf_token,
                session_id,
                username,
                admin,
                seed,
                tokens.0,
                tokens.1,
                now,
            )
            &&& second.1 == Err::<OutcomeView, AppErrorView>(invalid_csrf())
        }),
{
    let admin = authentication(state, username, password, seed.admin_id)->Ok_0;
    let tokens = token_pair(
        state.jwt_secret,
        admin,
        seed.session_id,
        seed.now,
        seed.access_jti,
        seed.refresh_jti,
    )->Ok_0;
    lemma_kinds_differ(session_id, csrf_token, seed.session_id);
    lemma_kinds_differ(session_id, csrf_token, tokens.0);
    reveal_with_fuel(run, 7);
}

/// Whether a login is one that is counted as a failure: it names nobody,
/// gives no password, or gives the wrong name or the wrong password.
pub open spec fn fails(state: AppStateView, username: Seq<char>, password: Seq<char>) -> bool {
    credentials_missing(username, password) || authentication(
        state,
        username,
        password,
        Seq::empty(),
    ) == Err::<AdminUserView, AppErrorView>(invalid_credentials())
}

/// The answer to a login that is counted as a failure.
pub open spec fn failure_answer(username: Seq<char>, password: Seq<char>) -> AppErrorView {
    if credentials_missing(username, password) {
        crate::auth::credentials_required()
    } else {
        invalid_credentials()
    }
}

/// A login under any other name than the admin's is answered like one
/// with the admin's name and a wrong password, whatever the password.
pub proof fn lemma_wrong_name_like_wrong_password(
    state: AppStateView,
    username: Seq<char>,
    password: Seq<char>,
    admin_id: Seq<char>,
)
    requires
        username != state.admin_username,
    ensures
        authentication(state, username, password, admin_id) == Err::<AdminUserView, AppErrorView>(
            invalid_credentials(),
        ),
        fails(state, username, password),
{
}

/// A login that fails is refused and counted: with a CSRF token that can
/// be redeemed and under the limit, a login without name or password is
/// a bad request and one with the wrong name or password is unauthorized,
/// and either way one more failed login is remembered under the name,
/// for the whole window from now.
pub proof fn lemma_failure_counted(
    state: AppStateView,
    csrf_token: Seq<char>,
    session_id: Seq<char>,
    username: Seq<char>,
    password: Seq<char>,
    seed: LoginSeedView,
    contents: Contents,
    now: int,
)
    requires
        live(contents, csrf_key(session_id, csrf_token), now),
        counter_sound(contents, username, now),
        attempts(contents, username, now) < MAX_LOGIN_ATTEMPTS,
        fails(state, username, password),
    ensures
        login_run(
            state,
            Some(csrf_token),
            Some(session_id),
            username,
            password,
            seed,
            contents,
            now,
        ).1 == Err::<OutcomeView, AppErrorView>(failure_answer(username, password)),
        login_run(
            state,
            Some(csrf_token),
            Some(session_id),
            username,
            password,
            seed,
            contents,
            now,
        ).0 == after_failure(contents, csrf_token, session_id, username, now),
{
    lemma_kinds_differ(session_id, csrf_token, username);
    reveal_with_fuel(run, 6);
}

/// At the limit a login is refused whatever it brings: with five failed
/// logins remembered under its name it is answered with "too many
/// requests" before its credentials are looked at, right or wrong, and
/// nothing is counted.
pub proof fn lemma_blocked_at_limit(
    state: AppStateView,
    csrf_token: Seq<char>,
    session_id: Seq<char>,
    username: Seq<char>,
    password: Seq<char>,
    seed: LoginSeedView,
    contents: Contents,
    now: int,
)
    requires
        live(contents, csrf_key(session_id, csrf_token), now),
        attempts(contents, username, now) >= MAX_LOGIN_ATTEMPTS,
    ensures
        login_run(
            state,
            Some(csrf_token),
            Some(session_id),
            username,
            password,
            seed,
            contents,
            now,
        ).1 == Err::<OutcomeView, AppErrorView>(too_many_attempts()),
        login_run(
            state,
            Some(csrf_token),
            Some(session_id),
            username,
            password,
            seed,
            contents,
            now,
        ).0 == contents.remove(csrf_key(session_id, csrf_token)),
{
    lemma_kinds_differ(session_id, csrf_token, username);
    reveal_with_fuel(run, 4);
}

/// Whether the time is up for the failed logins remembered under a name.
pub open spec fn window_passed(contents: Contents, username: Seq<char>, later: int) -> bool {
    contents.contains_key(attempts_key(username)) ==> match contents[attempts_key(
        username,
    )].deadline {
        Some(end) => end <= later,
        None => false,
    }
}

/// The limit lifts. Once the window has passed since the last failed
/// login, and at once after a login that succeeded, no failed login is
/// remembered under the name.
pub proof fn lemma_limit_lifts(
    contents: Contents,
    csrf_token: Seq<char>,
    session_id: Seq<char>,
    username: Seq<char>,
    admin: AdminUserView,
    seed: LoginSeedView,
    access_token: Seq<char>,
    refresh_token: Seq<char>,
    now: int,
    later: int,
)
    ensures
        window_passed(contents, username, later) ==> attempts(contents, username, later) == 0
            && counter_sound(contents, username, later),
        attempts(
            after_login(
                contents,
                csrf_token,
                session_id,
                username,
                admin,
                seed,
                access_token,
                refresh_token,
                now,
            ),
            username,
            later,
        ) == 0,
        counter_sound(
            after_login(
                contents,
                csrf_token,
                session_id,
                username,
                admin,
                seed,
                access_token,
                refresh_token,
                now,
            ),
            username,
            later,
        ),
{
}

/// One login that failed, as far as the next depends on it.
pub ghost struct FailedLogin {
    pub csrf_token: Seq<char>,
    pub session_id: Seq<char>,
    pub password: Seq<char>,
    pub seed: LoginSeedView,
    pub now: int,
}

/// The store after the logins `tries` under one name, one after the other.
pub open spec fn store_after(
    state: AppStateView,
    username: Seq<char>,
    tries: Seq<FailedLogin>,
    contents: Contents,
) -> Contents
    decreases tries.len(),
{
    if tries.len() == 0 {
        contents
    } else {
        let t = tries.last();
        login_run(
            state,
            Some(t.csrf_token),
            Some(t.session_id),
            username,
            t.password,
            t.seed,
            store_after(state, username, tries.drop_last(), contents),
            t.now,
        ).0
    }
}

/// Whether the logins `tries` under one name are failures in a row: each
/// comes with a CSRF token that can be redeemed when its turn has come,
/// each fails, and each but the first comes no earlier than the one
/// before it and within the window that began with that.
pub open spec fn failures_in_a_row(
    state: AppStateView,
    username: Seq<char>,
    tries: Seq<FailedLogin>,
    contents: Contents,
) -> bool
    decreases tries.len(),
{
    if tries.len() == 0 {
        true
    } else {
        let t = tries.last();
        let earlier = tries.drop_last();
        &&& failures_in_a_row(state, username, earlier, contents)
        &&& live(
            store_after(state, username, earlier, contents),
            csrf_key(t.session_id, t.csrf_token),
            t.now,
        )
        &&& fails(state, username, t.password)
        &&& earlier.len() > 0 ==> earlier.last().now <= t.now < earlier.last().now
            + LOGIN_ATTEMPT_WINDOW
    }
}

/// Failures in a row add up: after as many as the limit allows, begun
/// with none remembered, each is remembered, for the whole window from
/// the last.
pub proof fn lemma_failures_add_up(
    state: AppStateView,
    username: Seq<char>,
    tries: Seq<FailedLogin>,
    contents: Contents,
)
    requires
        0 < tries.len() <= MAX_LOGIN_ATTEMPTS,
        !live(contents, attempts_key(username), tries[0].now),
        failures_in_a_row(state, username, tries, contents),
    ensures
        store_after(state, username, tries, contents).contains_key(attempts_key(username)),
        store_after(state, username, tries, contents)[attempts_key(username)] == (Slot {
            value: StoredView::Count(tries.len() as int),
            deadline: deadline(tries.last().now, LOGIN_ATTEMPT_WINDOW as int),
        }),
    decreases tries.len(),
{
    let t = tries.last();
    let earlier = tries.drop_last();
    let before = store_after(state, username, earlier, contents);
    if earlier.len() > 0 {
        lemma_failures_add_up(state, username, earlier, contents);
    }
    lemma_failure_counted(
        state,
        t.csrf_token,
        t.session_id,
        username,
        t.password,
        t.seed,
        before,
        t.now,
    );
}

/// After five failed logins in a row under a name the sixth login is
/// refused, whatever it brings: within the window that began with the
/// fifth it is answered with "too many requests", with the right
/// password as with any other.
pub proof fn lemma_sixth_login_blocked(
    state: AppStateView,
    username: Seq<char>,
    tries: Seq<FailedLogin>,
    contents: Contents,
    sixth: FailedLogin,
)
    requires
        tries.len() == MAX_LOGIN_ATTEMPTS,
        !live(contents, attempts_key(username), tries[0].now),
        failures_in_a_row(state, username, tries, contents),
        tries.last().now <= sixth.now < tries.last().now + LOGIN_ATTEMPT_WINDOW,
        live(
            store_after(state, username, tries, contents),
            csrf_key(sixth.session_id, sixth.csrf_token),
            sixth.now,
        ),
    ensures
        login_run(
            state,
            Some(sixth.csrf_token),
            Some(sixth.session_id),
            username,
            sixth.password,
            sixth.seed,
            store_after(state, username, tries, contents),
            sixth.now,
        ).1 == Err::<OutcomeView, AppErrorView>(too_many_attempts()),
{
    lemma_failures_add_up(state, username, tries, contents);
    lemma_blocked_at_limit(
        state,
        sixth.csrf_token,
        sixth.session_id,
        username,
        sixth.password,
        sixth.seed,
        store_after(state, username, tries, contents),
        sixth.now,
    );
}

/// Whether the store keeps the session of `claims` at `now`, as the text
/// `text`.
pub open spec fn session_kept(
    contents: Contents,
    claims: AdminClaimsView,
    text: Seq<char>,
    now: int,
) -> bool {
    live(contents, session_key(claims.session_id), now) && contents[session_key(
        claims.session_id,
    )].value == StoredView::Text(text)
}

/// Whether a request carries, in its session cookie, an access token
/// that verifies at `now` and carries `claims`.
pub open spec fn carries(
    state: AppStateView,
    cookie: Seq<char>,
    claims: AdminClaimsView,
    now: int,
) -> bool {
    access_token_of(cookie).len() > 0 && verified_claims(
        access_token_of(cookie),
        state.jwt_secret,
        now,
    ) == Ok::<AdminClaimsView, AppErrorView>(claims)
}

/// How the guard ends for a request whose session is kept as `text`:
/// the request is admitted with its claims; it is an error if the record
/// cannot be read.
pub open spec fn admitted(claims: AdminClaimsView, text: Seq<char>) -> Ending {
    match record_of_text(text) {
        Some(_) => Ok(OutcomeView::Admitted(claims)),
        None => Err(AppErrorView::JsonError),
    }
}

/// The store after the guard has passed a request at `now` whose session
/// is kept as `text`: the record of the session says that it was last
/// active at `now`, and stays for as long as an access token lasts from
/// `now`.
pub open spec fn after_guard(
    contents: Contents,
    claims: AdminClaimsView,
    text: Seq<char>,
    now: int,
) -> Contents {
    match record_of_text(text) {
        Some(record) => contents.insert(
            session_key(claims.session_id),
            Slot {
                value: StoredView::Text(record.touched(now).stored()),
                deadline: deadline(now, ACCESS_TOKEN_EXPIRY as int),
            },
        ),
        None => contents,
    }
}

/// The guard finds a session that is kept: a request with a token that
/// verifies, whose session the store keeps, is not sent to the login
/// page.
pub proof fn lemma_guard_finds_session(
    state: AppStateView,
    cookie: Seq<char>,
    claims: AdminClaimsView,
    text: Seq<char>,
    contents: Contents,
    now: int,
)
    requires
        carries(state, cookie, claims, now),
        session_kept(contents, claims, text, now),
    ensures
        guard_run(state, Some(cookie), contents, now).1 == admitted(claims, text),
        guard_run(state, Some(cookie), contents, now).0 == after_guard(contents, claims, text, now),
{
    reveal_with_fuel(run, 4);
}

/// The guard sends every other request to the login page and leaves the
/// store alone: one without the cookie, without a token in it, with a
/// token that does not verify, or with a token whose session the store
/// does not keep.
pub proof fn lemma_guard_redirects(
    state: AppStateView,
    cookie: Option<Seq<char>>,
    contents: Contents,
    now: int,
)
    requires
        forall|claims: AdminClaimsView|
            cookie is Some && #[trigger] carries(state, cookie->0, claims, now) ==> !live(
                contents,
                session_key(claims.session_id),
                now,
            ),
    ensures
        guard_run(state, cookie, contents, now).1 == Ok::<OutcomeView, AppErrorView>(
            OutcomeView::Redirected,
        ),
        guard_run(state, cookie, contents, now).0 == contents,
{
    reveal_with_fuel(run, 3);
    if cookie is Some {
        let token = access_token_of(cookie->0);
        match verified_claims(token, state.jwt_secret, now) {
            Ok(claims) => {
                if token.len() > 0 {
                    assert(carries(state, cookie->0, claims, now));
                }
            },
            Err(_) => {},
        }
    }
}

/// A session lasts from login to logout. After a login that succeeded,
/// and for as long as the access token lasts, the guard finds the
/// session of a request that carries a token of that session. After the
/// logout of such a request the guard sends it to the login page,
/// whenever it comes.
pub proof fn lemma_session_from_login_to_logout(
    state: AppStateView,
    csrf_token: Seq<char>,
    session_id: Seq<char>,
    username: Seq<char>,
    password: Seq<char>,
    seed: LoginSeedView,
    contents: Contents,
    now: int,
    cookie: Seq<char>,
    claims: AdminClaimsView,
    then: int,
    later: int,
)
    requires
        live(contents, csrf_key(session_id, csrf_token), now),
        counter_sound(contents, username, now),
        attempts(contents, username, now) < MAX_LOGIN_ATTEMPTS,
        !credentials_missing(username, password),
        authentication(state, username, password, seed.admin_id) is Ok,
        token_pair(
            state.jwt_secret,
            authentication(state, username, password, seed.admin_id)->Ok_0,
            seed.session_id,
            seed.now,
            seed.access_jti,
            seed.refresh_jti,
        ) is Ok,
        now <= then < now + ACCESS_TOKEN_EXPIRY,
        carries(state, cookie, claims, then),
        claims.session_id == seed.session_id,
    ensures
        ({
            let admin = authentication(state, username, password, seed.admin_id)->Ok_0;
            let tokens = token_pair(
                state.jwt_secret,
                admin,
                seed.session_id,
                seed.now,
                seed.access_jti,
                seed.refresh_jti,
            )->Ok_0;
            let text = new_session(admin, tokens.0, tokens.1, seed.now).stored();
            let logged_in = login_run(
                state,
                Some(csrf_token),
                Some(session_id),
                username,
                password,
                seed,
                contents,
                now,
            ).0;
            let guarded = guard_run(state, Some(cookie), logged_in, then);
            let logged_out = logout_run(state, Some(cookie), guarded.0, then);
            let refused = guard_run(state, Some(cookie), logged_out.0, later);
            &&& session_kept(logged_in, claims, text, then)
            &&& guarded.1 == admitted(claims, text)
            &&& logged_out.1 == Ok::<OutcomeView, AppErrorView>(OutcomeView::LoggedOut)
            &&& !logged_out.0.contains_key(session_key(seed.session_id))
            &&& refused.1 == Ok::<OutcomeView, AppErrorView>(OutcomeView::Redirected)
        }),
{
    let admin = authentication(state, username, password, seed.admin_id)->Ok_0;
    let tokens = token_pair(
        state.jwt_secret,
        admin,
        seed.session_id,
        seed.now,
        seed.access_jti,
        seed.refresh_jti,
    )->Ok_0;
    let text = new_session(admin, tokens.0, tokens.1, seed.now).stored();
    lemma_login_once_per_token(
        state,
        csrf_token,
        session_id,
        username,
        password,
        seed,
        contents,
        now,
        username,
        password,
        seed,
        now,
    );
    let logged_in = login_run(
        state,
        Some(csrf_token),
        Some(session_id),
        username,
        password,
        seed,
        contents,
        now,
    ).0;
    lemma_kinds_differ(username, username, seed.session_id);
    lemma_kinds_differ(seed.session_id, seed.session_id, tokens.0);
    lemma_guard_finds_session(state, cookie, claims, text, logged_in, then);
    let guarded = guard_run(state, Some(cookie), logged_in, then);
    lemma_logout_ends_session(state, cookie, claims, guarded.0, then);
    let logged_out = logout_run(state, Some(cookie), guarded.0, then);
    // Whatever the token carries later, it carries now: the same claims.
    assert forall|other: AdminClaimsView| #[trigger]
        carries(state, cookie, other, later) implies !live(
        logged_out.0,
        session_key(other.session_id),
        later,
    ) by {
        assert(other == claims);
    }
    lemma_guard_redirects(state, Some(cookie), logged_out.0, later);
}

/// A logout ends the session: for a request that carries a token that
/// verifies, against a store that carries its commands out, the record
/// of the token's session and the record that leads to it from the token
/// are gone from the store, and the request is logged out.
pub proof fn lemma_logout_ends_session(
    state: AppStateView,
    cookie: Seq<char>,
    claims: AdminClaimsView,
    contents: Contents,
    now: int,
)
    requires
        verified_claims(access_token_of(cookie), state.jwt_secret, now) == Ok::<
            AdminClaimsView,
            AppErrorView,
        >(claims),
    ensures
        logout_run(state, Some(cookie), contents, now).1 == Ok::<OutcomeView, AppErrorView>(
            OutcomeView::LoggedOut,
        ),
        logout_run(state, Some(cookie), contents, now).0 == contents.remove(
            session_key(claims.session_id),
        ).remove(token_key(access_token_of(cookie))),
{
    reveal_with_fuel(run, 4);
}

/// A logout ends one session and no other: the record of every other
/// session is kept as it was.
pub proof fn lemma_logout_leaves_other_sessions(
    state: AppStateView,
    cookie: Seq<char>,
    claims: AdminClaimsView,
    other_session: Seq<char>,
    contents: Contents,
    now: int,
)
    requires
        verified_claims(access_token_of(cookie), state.jwt_secret, now) == Ok::<
            AdminClaimsView,
            AppErrorView,
        >(claims),
        other_session != claims.session_id,
    ensures
        ({
            let after = logout_run(state, Some(cookie), contents, now).0;
            let key = session_key(other_session);
            &&& after.contains_key(key) == contents.contains_key(key)
            &&& after[key] == contents[key]
        }),
{
    lemma_logout_ends_session(state, cookie, claims, contents, now);
    lemma_keys_injective(other_session, claims.session_id);
    lemma_kinds_differ(other_session, other_session, access_token_of(cookie));
}

/// Against a store that carries its commands out a logout ends in the
/// request being logged out, whatever cookie it comes with; without a
/// token that verifies it leaves the store alone. A store that fails to
/// delete ends the logout in that failure instead: see
/// [`lemma_logout_reports_store_failure`].
pub proof fn lemma_logout_where_store_works(
    state: AppStateView,
    cookie: Option<Seq<char>>,
    contents: Contents,
    now: int,
)
    ensures
        logout_run(state, cookie, contents, now).1 == Ok::<OutcomeView, AppErrorView>(
            OutcomeView::LoggedOut,
        ),
        (cookie is None || verified_claims(access_token_of(cookie->0), state.jwt_secret, now) is Err)
            ==> logout_run(state, cookie, contents, now).0 == contents,
{
    reveal_with_fuel(run, 4);
    if cookie is Some {
        match verified_claims(access_token_of(cookie->0), state.jwt_secret, now) {
            Ok(claims) => {
                lemma_logout_ends_session(state, cookie->0, claims, contents, now);
            },
            Err(_) => {},
        }
    }
}

/// Activity changes nothing about a session but the time of its last
/// activity and the time it has left. When the guard passes a request,
/// the store keeps the records it kept, none more; every record but that
/// of the session is as it was; and in that of the session the admin,
/// the name, the role, both tokens and the time of the login are as they
/// were. The record stays for as long as an access token lasts from the
/// request, however often that is repeated.
pub proof fn lemma_activity_keeps_session(
    state: AppStateView,
    cookie: Seq<char>,
    claims: AdminClaimsView,
    record: SessionRecordView,
    text: Seq<char>,
    contents: Contents,
    now: int,
)
    requires
        carries(state, cookie, claims, now),
        session_kept(contents, claims, text, now),
        record_of_text(text) == Some(record),
    ensures
        ({
            let after = guard_run(state, Some(cookie), contents, now).0;
            let key = session_key(claims.session_id);
            &&& after.dom() == contents.dom()
            &&& forall|other: Seq<char>| other != key ==> after[other] == contents[other]
            &&& after[key].value == StoredView::Text(record.touched(now).stored())
            &&& after[key].deadline == deadline(now, ACCESS_TOKEN_EXPIRY as int)
            &&& record.touched(now).admin_id == record.admin_id
            &&& record.touched(now).username == record.username
            &&& record.touched(now).role == record.role
            &&& record.touched(now).access_token == record.access_token
            &&& record.touched(now).refresh_token == record.refresh_token
            &&& record.touched(now).created_at == record.created_at
            &&& record.touched(now).last_activity == now
        }),
{
    lemma_guard_finds_session(state, cookie, claims, text, contents, now);
    let after = guard_run(state, Some(cookie), contents, now).0;
}

/// Failed logins are counted up and never down. Whatever a login brings
/// and however it ends, afterwards the store remembers under its name as
/// many failed logins as before or one more, unless the login succeeded:
/// then it remembers none.
pub proof fn lemma_counter_never_goes_down(
    state: AppStateView,
    csrf_token: Option<Seq<char>>,
    session_id: Option<Seq<char>>,
    username: Seq<char>,
    password: Seq<char>,
    seed: LoginSeedView,
    contents: Contents,
    now: int,
)
    requires
        counter_sound(contents, username, now),
    ensures
        ({
            let r = login_run(
                state,
                csrf_token,
                session_id,
                username,
                password,
                seed,
                contents,
                now,
            );
            let before = attempts(contents, username, now);
            let after = attempts(r.0, username, now);
            &&& r.1 is Ok ==> !r.0.contains_key(attempts_key(username))
            &&& r.1 is Err ==> after == before || after == before + 1
            &&& r.1 is Err && after == before + 1 ==> fails(state, username, password)
        }),
{
    if token_in_hand(csrf_token, session_id, contents, now) {
        let token = csrf_token->0;
        let id = session_id->0;
        lemma_kinds_differ(id, token, username);
        if attempts(contents, username, now) >= MAX_LOGIN_ATTEMPTS {
            lemma_blocked_at_limit(state, token, id, username, password, seed, contents, now);
        } else if fails(state, username, password) {
            lemma_failure_counted(state, token, id, username, password, seed, contents, now);
        } else {
            match authentication(state, username, password, seed.admin_id) {
                Ok(admin) => {
                    match token_pair(
                        state.jwt_secret,
                        admin,
                        seed.session_id,
                        seed.now,
                        seed.access_jti,
                        seed.refresh_jti,
                    ) {
                        Ok(_) => {
                            lemma_login_once_per_token(
                                state,
                                token,
                                id,
                                username,
                                password,
                                seed,
                                contents,
                                now,
                                username,
                                password,
                                seed,
                                now,
                            );
                        },
                        Err(_) => {
                            reveal_with_fuel(run, 4);
                        },
                    }
                },
                Err(_) => {
                    reveal_with_fuel(run, 4);
                },
            }
        }
    } else {
        reveal_with_fuel(run, 2);
    }
}

/// Every token of a login expires after it was issued: the access token
/// an hour after, the refresh token a week after.
pub proof fn lemma_issued_claims_valid(
    admin: AdminUserView,
    session_id: Seq<char>,
    now: int,
    jti: Seq<char>,
)
    ensures
        claims_for(admin, session_id, now, ACCESS_TOKEN_EXPIRY as int, jti).valid(),
        claims_for(admin, session_id, now, ACCESS_TOKEN_EXPIRY as int, jti).exp == now + 3600,
        claims_for(admin, session_id, now, crate::token::REFRESH_TOKEN_EXPIRY as int, jti).valid(),
        claims_for(admin, session_id, now, crate::token::REFRESH_TOKEN_EXPIRY as int, jti).exp
            == now + 604800,
{
}

/// A failure of the store ends the exchange that waited for its reply,
/// in the store's own words: whatever an exchange has asked the store,
/// when the store reports that it failed the exchange ends at once in
/// that failure and sends nothing more.
pub proof fn lemma_store_failure_ends_exchange(
    exchange: ExchangeView,
    state: AppStateView,
    words: Seq<char>,
)
    requires
        !(exchange is Finished),
    ensures
        resume_model(exchange, state, StoreReplyView::Failed(words)) == finish_model(
            Err(AppErrorView::RedisError(words)),
        ),
{
}

/// A logout reports a store that fails. For a request that carries a
/// token that verifies, if the store fails to delete the record of the
/// session the logout ends in that failure and the second delete is not
/// sent; if it fails to delete the record that leads to the session from
/// its token the logout ends in that failure. Only a token that does not
/// verify is passed over at logout.
pub proof fn lemma_logout_reports_store_failure(
    state: AppStateView,
    cookie: Seq<char>,
    claims: AdminClaimsView,
    now: int,
    words: Seq<char>,
)
    requires
        verified_claims(access_token_of(cookie), state.jwt_secret, now) == Ok::<
            AdminClaimsView,
            AppErrorView,
        >(claims),
    ensures
        ({
            let begin = logout_model(state, Some(cookie), now);
            let failed_first = resume_model(begin.0, state, StoreReplyView::Failed(words));
            let second = resume_model(begin.0, state, StoreReplyView::Done);
            let failed_second = resume_model(second.0, state, StoreReplyView::Failed(words));
            let done = resume_model(second.0, state, StoreReplyView::Done);
            &&& begin.1 == StepView::Send(
                StoreCommandView::Del { key: session_key(claims.session_id) },
            )
            &&& failed_first == finish_model(Err(AppErrorView::RedisError(words)))
            &&& second.1 == StepView::Send(
                StoreCommandView::Del { key: token_key(access_token_of(cookie)) },
            )
            &&& failed_second == finish_model(Err(AppErrorView::RedisError(words)))
            &&& done == finish_model(Ok(OutcomeView::LoggedOut))
        }),
{
}

/// The guard reports a store that fails. When the store fails to say
/// whether the session is kept, or to hand its record out, the guard
/// ends in that failure; a request is sent to the login page only when
/// the store says that the session is not kept.
pub proof fn lemma_guard_reports_store_failure(
    state: AppStateView,
    cookie: Seq<char>,
    claims: AdminClaimsView,
    now: int,
    words: Seq<char>,
)
    requires
        carries(state, cookie, claims, now),
    ensures
        ({
            let begin = guard_model(state, Some(cookie), now);
            let failed_lookup = resume_model(begin.0, state, StoreReplyView::Failed(words));
            let absent = resume_model(begin.0, state, StoreReplyView::Found(false));
            let found = resume_model(begin.0, state, StoreReplyView::Found(true));
            let failed_read = resume_model(found.0, state, StoreReplyView::Failed(words));
            &&& failed_lookup == finish_model(Err(AppErrorView::RedisError(words)))
            &&& absent == finish_model(Ok(OutcomeView::Redirected))
            &&& failed_read == finish_model(Err(AppErrorView::RedisError(words)))
        }),
{
}

/// The guard admits a request right after its login. Where the token of
/// the request verifies to claims of the session that the login made,
/// and the record that the login wrote reads back as it was written,
/// the guard admits the request with those claims for as long as the
/// access token lasts.
pub proof fn lemma_guard_admits_after_login(
    state: AppStateView,
    csrf_token: Seq<char>,
    session_id: Seq<char>,
    username: Seq<char>,
    password: Seq<char>,
    seed: LoginSeedView,
    contents: Contents,
    now: int,
    cookie: Seq<char>,
    claims: AdminClaimsView,
    then: int,
)
    requires
        live(contents, csrf_key(session_id, csrf_token), now),
        counter_sound(contents, username, now),
        attempts(contents, username, now) < MAX_LOGIN_ATTEMPTS,
        !credentials_missing(username, password),
        authentication(state, username, password, seed.admin_id) is Ok,
        token_pair(
            state.jwt_secret,
            authentication(state, username, password, seed.admin_id)->Ok_0,
            seed.session_id,
            seed.now,
            seed.access_jti,
            seed.refresh_jti,
        ) is Ok,
        now <= then < now + ACCESS_TOKEN_EXPIRY,
        carries(state, cookie, claims, then),
        claims.session_id == seed.session_id,
        reads_back(
            new_session(
                authentication(state, username, password, seed.admin_id)->Ok_0,
                token_pair(
                    state.jwt_secret,
                    authentication(state, username, password, seed.admin_id)->Ok_0,
                    seed.session_id,
                    seed.now,
                    seed.access_jti,
                    seed.refresh_jti,
                )->Ok_0.0,
                token_pair(
                    state.jwt_secret,
                    authentication(state, username, password, seed.admin_id)->Ok_0,
                    seed.session_id,
                    seed.now,
                    seed.access_jti,
                    seed.refresh_jti,
                )->Ok_0.1,
                seed.now,
            ),
        ),
    ensures
        guard_run(
            state,
            Some(cookie),
            login_run(
                state,
                Some(csrf_token),
                Some(session_id),
                username,
                password,
                seed,
                contents,
                now,
            ).0,
            then,
        ).1 == Ok::<OutcomeView, AppErrorView>(OutcomeView::Admitted(claims)),
{
    lemma_session_from_login_to_logout(
        state,
        csrf_token,
        session_id,
        username,
        password,
        seed,
        contents,
        now,
        cookie,
        claims,
        then,
        then,
    );
}

/// Whether a record, written to the store, reads back as it was.
pub open spec fn reads_back(record: SessionRecordView) -> bool {
    record_of_text(record.stored()) == Some(record)
}

/// The store after the guard has passed a request with one cookie at
/// each of `times`, one after the other.
pub open spec fn store_after_passes(
    state: AppStateView,
    cookie: Seq<char>,
    times: Seq<int>,
    contents: Contents,
) -> Contents
    decreases times.len(),
{
    if times.len() == 0 {
        contents
    } else {
        guard_run(
            state,
            Some(cookie),
            store_after_passes(state, cookie, times.drop_last(), contents),
            times.last(),
        ).0
    }
}

/// Whether each of `times` but the first is no earlier than the one
/// before it and within the lifetime of an access token from it, and the
/// request carries `claims` at each.
pub open spec fn passes_in_a_row(
    state: AppStateView,
    cookie: Seq<char>,
    claims: AdminClaimsView,
    times: Seq<int>,
) -> bool {
    &&& forall|i: int| 0 <= i < times.len() ==> #[trigger] carries(state, cookie, claims, times[i])
    &&& forall|i: int|
        0 < i < times.len() ==> times[i - 1] <= #[trigger] times[i] < times[i - 1]
            + ACCESS_TOKEN_EXPIRY
}

/// Passes in a row keep one session alive and add nothing. Where the
/// record of a session reads back as it was written, however often the
/// guard passes requests of that session, each within the lifetime of an
/// access token from the one before: the store keeps the records it kept
/// at first, none more; every record but that of the session is as it
/// was; the record of the session is the one found at first but for the
/// time of the last activity, which is that of the last pass; and it
/// stays for as long as an access token lasts from the last pass. So a
/// second pass at the time of the first leaves the store as the first
/// left it.
pub proof fn lemma_passes_keep_one_session(
    state: AppStateView,
    cookie: Seq<char>,
    claims: AdminClaimsView,
    record: SessionRecordView,
    text: Seq<char>,
    times: Seq<int>,
    contents: Contents,
)
    requires
        times.len() > 0,
        passes_in_a_row(state, cookie, claims, times),
        session_kept(contents, claims, text, times[0]),
        record_of_text(text) == Some(record),
        forall|t: int| #[trigger] reads_back(record.touched(t)),
    ensures
        store_after_passes(state, cookie, times, contents) == contents.insert(
            session_key(claims.session_id),
            Slot {
                value: StoredView::Text(record.touched(times.last()).stored()),
                deadline: deadline(times.last(), ACCESS_TOKEN_EXPIRY as int),
            },
        ),
        store_after_passes(state, cookie, times, contents).dom() == contents.dom(),
    decreases times.len(),
{
    let key = session_key(claims.session_id);
    let earlier = times.drop_last();
    let now = times.last();
    if earlier.len() == 0 {
        assert(times[0] == now);
        lemma_guard_finds_session(state, cookie, claims, text, contents, now);
    } else {
        assert(earlier[0] == times[0]);
        assert forall|i: int| 0 <= i < earlier.len() implies #[trigger] carries(
            state,
            cookie,
            claims,
            earlier[i],
        ) by {
            assert(earlier[i] == times[i]);
        }
        assert forall|i: int| 0 < i < earlier.len() implies earlier[i - 1] <= #[trigger] earlier[i]
            < earlier[i - 1] + ACCESS_TOKEN_EXPIRY by {
            assert(earlier[i] == times[i]);
            assert(earlier[i - 1] == times[i - 1]);
        }
        lemma_passes_keep_one_session(state, cookie, claims, record, text, earlier, contents);
        let before = store_after_passes(state, cookie, earlier, contents);
        let last = earlier.last();
        assert(last == times[times.len() - 2]);
        assert(times[times.len() - 1] == now);
        let written = record.touched(last);
        assert(reads_back(written));
        assert(carries(state, cookie, claims, times[times.len() - 1]));
        assert(session_kept(before, claims, written.stored(), now));
        lemma_guard_finds_session(state, cookie, claims, written.stored(), before, now);
        assert(written.touched(now) == record.touched(now));
        assert(store_after_passes(state, cookie, times, contents) =~= contents.insert(
            key,
            Slot {
                value: StoredView::Text(record.touched(now).stored()),
                deadline: deadline(now, ACCESS_TOKEN_EXPIRY as int),
            },
        ));
    }
    assert(store_after_passes(state, cookie, times, contents).dom() =~= contents.dom());
}

} // verus!
