//! What differs from call to call: the time, random identifiers, random
//! characters.

use vstd::prelude::*;
use vstd::string::*;
use crate::text::push_char;

verus! {

/// Whether `c` is one of `0` to `9` and `a` to `f`.
pub open spec fn is_lower_hex(c: char) -> bool {
    let n = c as u32;
    (0x30 <= n <= 0x39) || (0x61 <= n <= 0x66)
}

/// Whether `c` is an ASCII letter or digit.
pub open spec fn is_alphanumeric(c: char) -> bool {
    let n = c as u32;
    (0x30 <= n <= 0x39) || (0x41 <= n <= 0x5A) || (0x61 <= n <= 0x7A)
}

/// Whether `s` has the shape of a hyphenated UUID in lower case: 36
/// characters, hyphens after the 8th, 12th, 16th and 20th digit.
pub open spec fn is_uuid_text(s: Seq<char>) -> bool {
    &&& s.len() == 36
    &&& forall|i: int|
        0 <= i < 36 ==> if i == 8 || i == 13 || i == 18 || i == 23 {
            #[trigger] s[i] == '-'
        } else {
            is_lower_hex(s[i])
        }
}

/// Whether every character of `s` is an ASCII letter or digit.
pub open spec fn all_alphanumeric(s: Seq<char>) -> bool {
    forall|i: int| 0 <= i < s.len() ==> is_alphanumeric(#[trigger] s[i])
}

/// The largest number of seconds since the epoch that the clock can show.
pub const MAX_CLOCK: i64 = 185_542_587_187_200;

/// Whether `now` is a time that the clock can show.
pub open spec fn is_clock_time(now: int) -> bool {
    0 <= now <= MAX_CLOCK
}

/// `chrono::Utc::now` and `DateTime::timestamp`: the seconds since the
/// epoch. The clock shows no time before the epoch (it panics there) and
/// none whose day number is beyond 32 bits.
#[verifier::external_body]
pub(crate) fn current_timestamp() -> (now: i64)
    ensures
        is_clock_time(now as int),
{
    chrono::Utc::now().timestamp()
}

/// `uuid::Uuid::new_v4`, written out by its `Display`: a random
/// identifier, hyphenated and in lower case.
#[verifier::external_body]
pub(crate) fn fresh_uuid() -> (id: String)
    ensures
        is_uuid_text(id@),
{
    uuid::Uuid::new_v4().to_string()
}

/// `rand::Rng::sample` of `rand::distr::Alphanumeric` on the thread's
/// generator: a random ASCII letter or digit.
#[verifier::external_body]
pub(crate) fn random_alphanumeric() -> (c: char)
    ensures
        is_alphanumeric(c),
{
    char::from(rand::Rng::sample(&mut rand::rng(), rand::distr::Alphanumeric))
}

/// A random text of `length` ASCII letters and digits.
pub fn random_token(length: usize) -> (token: String)
    ensures
        token@.len() == length,
        all_alphanumeric(token@),
{
    let mut token = String::new();
    let mut i: usize = 0;
    while i < length
        invariant
            i <= length,
            token@.len() == i,
            all_alphanumeric(token@),
        decreases length - i,
    {
        let c = random_alphanumeric();
        push_char(&mut token, c);
        i = i + 1;
    }
    token
}

} // verus!
