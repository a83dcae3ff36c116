//! The keys under which the records of the authentication core are stored.

use vstd::prelude::*;
use vstd::string::*;

verus! {

/// Key of the marker of a CSRF token issued to a session.
pub open spec fn csrf_key(session_id: Seq<char>, token: Seq<char>) -> Seq<char> {
    "csrf:"@ + session_id + ":"@ + token
}

/// Key of the counter of failed logins under a user name.
pub open spec fn attempts_key(username: Seq<char>) -> Seq<char> {
    "login_attempts:"@ + username
}

/// Key of the record of a session.
pub open spec fn session_key(session_id: Seq<char>) -> Seq<char> {
    "admin_session:"@ + session_id
}

/// Key of the record that leads from an access token to its session.
pub open spec fn token_key(access_token: Seq<char>) -> Seq<char> {
    "token_session:"@ + access_token
}

/// Whether `s` holds no colon.
pub open spec fn colon_free(s: Seq<char>) -> bool {
    forall|i: int| 0 <= i < s.len() ==> #[trigger] s[i] != ':'
}

pub fn make_csrf_key(session_id: &str, token: &str) -> (key: String)
    ensures
        key@ == csrf_key(session_id@, token@),
{
    let mut key = String::from_str("csrf:");
    key.append(session_id);
    key.append(":");
    key.append(token);
    key
}

pub fn make_attempts_key(username: &str) -> (key: String)
    ensures
        key@ == attempts_key(username@),
{
    String::from_str("login_attempts:").concat(username)
}

pub fn make_session_key(session_id: &str) -> (key: String)
    ensures
        key@ == session_key(session_id@),
{
    String::from_str("admin_session:").concat(session_id)
}

pub fn make_token_key(access_token: &str) -> (key: String)
    ensures
        key@ == token_key(access_token@),
{
    String::from_str("token_session:").concat(access_token)
}

/// Keys of different kinds differ, whatever they are made from.
pub proof fn lemma_kinds_differ(a: Seq<char>, b: Seq<char>, c: Seq<char>)
    ensures
        csrf_key(a, b) != attempts_key(c),
        csrf_key(a, b) != session_key(c),
        csrf_key(a, b) != token_key(c),
        attempts_key(a) != session_key(c),
        attempts_key(a) != token_key(c),
        session_key(a) != token_key(c),
{
    reveal_strlit("csrf:");
    reveal_strlit("login_attempts:");
    reveal_strlit("admin_session:");
    reveal_strlit("token_session:");
    assert(csrf_key(a, b)[0] == 'c');
    assert(attempts_key(a)[0] == 'l' && attempts_key(c)[0] == 'l');
    assert(session_key(a)[0] == 'a' && session_key(c)[0] == 'a');
    assert(token_key(c)[0] == 't');
}

/// Two texts behind one prefix are equal only if they are.
pub proof fn lemma_prefix_cancels(prefix: Seq<char>, a: Seq<char>, b: Seq<char>)
    requires
        prefix + a == prefix + b,
    ensures
        a == b,
{
    let n = prefix.len() as int;
    assert((prefix + a).len() == n + a.len());
    assert((prefix + b).len() == n + b.len());
    assert forall|i: int| 0 <= i < a.len() implies a[i] == b[i] by {
        assert((prefix + a)[n + i] == a[i]);
        assert((prefix + b)[n + i] == b[i]);
    }
    assert(a =~= b);
}

/// Different sessions have different keys, and so have different user
/// names and different access tokens.
pub proof fn lemma_keys_injective(a: Seq<char>, b: Seq<char>)
    requires
        a != b,
    ensures
        session_key(a) != session_key(b),
        attempts_key(a) != attempts_key(b),
        token_key(a) != token_key(b),
{
    if session_key(a) == session_key(b) {
        lemma_prefix_cancels("admin_session:"@, a, b);
    }
    if attempts_key(a) == attempts_key(b) {
        lemma_prefix_cancels("login_attempts:"@, a, b);
    }
    if token_key(a) == token_key(b) {
        lemma_prefix_cancels("token_session:"@, a, b);
    }
}

/// A marker's key tells its session and its token, as long as tokens hold
/// no colon: then two markers under one key are for one session and one
/// token.
pub proof fn lemma_csrf_key_injective(s1: Seq<char>, t1: Seq<char>, s2: Seq<char>, t2: Seq<char>)
    requires
        colon_free(t1),
        colon_free(t2),
        csrf_key(s1, t1) == csrf_key(s2, t2),
    ensures
        s1 == s2,
        t1 == t2,
{
    reveal_strlit("csrf:");
    reveal_strlit(":");
    let k1 = csrf_key(s1, t1);
    let k2 = csrf_key(s2, t2);
    let p = 5int;
    assert(k1.len() == p + s1.len() + 1 + t1.len());
    assert(k2.len() == p + s2.len() + 1 + t2.len());
    // The colon behind the session is the last in the key.
    assert(k1[p + s1.len()] == ':');
    assert(k2[p + s2.len()] == ':');
    if s1.len() < s2.len() {
        assert(k1[p + s2.len()] == t1[s2.len() - s1.len() - 1]);
    }
    if s2.len() < s1.len() {
        assert(k2[p + s1.len()] == t2[s1.len() - s2.len() - 1]);
    }
    assert(s1.len() == s2.len());
    assert(s1 =~= s2) by {
        assert forall|i: int| 0 <= i < s1.len() implies s1[i] == s2[i] by {
            assert(k1[p + i] == s1[i]);
            assert(k2[p + i] == s2[i]);
        }
    }
    assert(t1 =~= t2) by {
        assert forall|i: int| 0 <= i < t1.len() implies t1[i] == t2[i] by {
            assert(k1[p + s1.len() + 1 + i] == t1[i]);
            assert(k2[p + s2.len() + 1 + i] == t2[i]);
        }
    }
}

} // verus!
