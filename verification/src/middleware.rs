//! The limit on requests that the service as a whole takes from one
//! client.

use vstd::prelude::*;

verus! {

/// Milliseconds over which requests are counted.
pub const RATE_WINDOW_MS: u64 = 60_000;

/// Requests that one client may make within the window.
pub const MAX_REQUESTS: u32 = 100;

/// The requests counted for one client since the window began.
#[derive(Debug, Clone, Copy, PartialEq, Eq, Structural)]
pub struct RateLimitEntry {
    pub count: u32,
    /// When the window began, in milliseconds on a clock that never goes
    /// back.
    pub window_start: u64,
}

/// The count of a client as a request at `now` finds it: what was
/// counted, or nothing counted since `now` for a client not seen yet or
/// one whose window has passed.
pub open spec fn entry_in_force(entry: Option<RateLimitEntry>, now: u64) -> RateLimitEntry {
    match entry {
        Some(e) => if now > e.window_start && now - e.window_start > RATE_WINDOW_MS {
            RateLimitEntry { count: 0, window_start: now }
        } else {
            e
        },
        None => RateLimitEntry { count: 0, window_start: now },
    }
}

/// The count after one more request, which stops at the most that can be
/// counted.
pub open spec fn counted(entry: RateLimitEntry) -> RateLimitEntry {
    RateLimitEntry {
        count: if entry.count == u32::MAX {
            u32::MAX
        } else {
            (entry.count + 1) as u32
        },
        window_start: entry.window_start,
    }
}

/// Counts a request at `now` for a client and says whether it is taken:
/// the first hundred of a window are.
pub fn rate_limit_middleware(entry: Option<RateLimitEntry>, now: u64) -> (r: (RateLimitEntry, bool))
    ensures
        r.0 == counted(entry_in_force(entry, now)),
        r.1 == (r.0.count <= MAX_REQUESTS),
{
    let current = match entry {
        Some(e) => {
            if now > e.window_start && now - e.window_start > RATE_WINDOW_MS {
                RateLimitEntry { count: 0, window_start: now }
            } else {
                e
            }
        },
        None => RateLimitEntry { count: 0, window_start: now },
    };
    let count = if current.count == u32::MAX {
        u32::MAX
    } else {
        current.count + 1
    };
    (RateLimitEntry { count, window_start: current.window_start }, count <= MAX_REQUESTS)
}

/// A client is taken a hundred times in a window and no more: from a
/// fresh window the request that makes the count `n` is taken exactly
/// when `n` is at most a hundred.
pub proof fn lemma_hundred_a_window(entry: RateLimitEntry, now: u64)
    requires
        now <= entry.window_start || now - entry.window_start <= RATE_WINDOW_MS,
        entry.count < u32::MAX,
    ensures
        counted(entry_in_force(Some(entry), now)).count == entry.count + 1,
        counted(entry_in_force(Some(entry), now)).window_start == entry.window_start,
        (counted(entry_in_force(Some(entry), now)).count <= MAX_REQUESTS) == (entry.count < 100),
{
}

} // verus!
