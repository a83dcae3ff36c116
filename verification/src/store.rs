//! The key-value store with expiring records, as the authentication core
//! sees it: the commands it sends, the replies it gets, what each command
//! does to the store's contents, and a store in memory that does just that.

use vstd::prelude::*;
use vstd::string::*;
use crate::text::same_text;

verus! {

/// What a record of the store holds.
#[derive(Debug)]
pub enum Stored {
    Text(String),
    Count(i64),
}

pub ghost enum StoredView {
    Text(Seq<char>),
    Count(int),
}

impl View for Stored {
    type V = StoredView;

    open spec fn view(&self) -> StoredView {
        match self {
            Stored::Text(s) => StoredView::Text(s@),
            Stored::Count(n) => StoredView::Count(*n as int),
        }
    }
}

/// A record of the store: its value and the time from which it is gone.
/// A record without a deadline stays until it is deleted.
pub ghost struct Slot {
    pub value: StoredView,
    pub deadline: Option<int>,
}

/// Contents of a store: its records by key, those past their deadline
/// included.
pub type Contents = Map<Seq<char>, Slot>;

/// A command to the store.
#[derive(Debug)]
pub enum StoreCommand {
    /// Is there a record under `key`?
    Exists { key: String },
    /// Read the counter under `key`.
    GetCount { key: String },
    /// Read the text under `key`.
    GetText { key: String },
    /// Put `value` under `key`, to stay for `ttl` seconds.
    SetEx { key: String, value: String, ttl: u64 },
    /// Delete the record under `key`.
    Del { key: String },
    /// Add one to the counter under `key`, starting from zero.
    Incr { key: String },
    /// Let the record under `key` stay for `seconds` seconds from now.
    Expire { key: String, seconds: i64 },
}

pub ghost enum StoreCommandView {
    Exists { key: Seq<char> },
    GetCount { key: Seq<char> },
    GetText { key: Seq<char> },
    SetEx { key: Seq<char>, value: Seq<char>, ttl: int },
    Del { key: Seq<char> },
    Incr { key: Seq<char> },
    Expire { key: Seq<char>, seconds: int },
}

impl View for StoreCommand {
    type V = StoreCommandView;

    open spec fn view(&self) -> StoreCommandView {
        match self {
            StoreCommand::Exists { key } => StoreCommandView::Exists { key: key@ },
            StoreCommand::GetCount { key } => StoreCommandView::GetCount { key: key@ },
            StoreCommand::GetText { key } => StoreCommandView::GetText { key: key@ },
            StoreCommand::SetEx { key, value, ttl } => StoreCommandView::SetEx {
                key: key@,
                value: value@,
                ttl: *ttl as int,
            },
            StoreCommand::Del { key } => StoreCommandView::Del { key: key@ },
            StoreCommand::Incr { key } => StoreCommandView::Incr { key: key@ },
            StoreCommand::Expire { key, seconds } => StoreCommandView::Expire {
                key: key@,
                seconds: *seconds as int,
            },
        }
    }
}

/// The views of a list of commands.
pub open spec fn commands_view(commands: Seq<StoreCommand>) -> Seq<StoreCommandView> {
    commands.map_values(|c: StoreCommand| c@)
}

/// The store's answer to a command.
#[derive(Debug)]
pub enum StoreReply {
    /// Answer to `Exists`.
    Found(bool),
    /// Answer to `GetCount`; `None` where there is no record.
    Count(Option<i64>),
    /// Answer to `GetText`; `None` where there is no record.
    Text(Option<String>),
    /// The command was carried out.
    Done,
    /// The command was not carried out; the store's words.
    Failed(String),
}

pub ghost enum StoreReplyView {
    Found(bool),
    Count(Option<int>),
    Text(Option<Seq<char>>),
    Done,
    Failed(Seq<char>),
}

impl View for StoreReply {
    type V = StoreReplyView;

    open spec fn view(&self) -> StoreReplyView {
        match self {
            StoreReply::Found(b) => StoreReplyView::Found(*b),
            StoreReply::Count(c) => StoreReplyView::Count(
                match c {
                    Some(n) => Some(*n as int),
                    None => None,
                },
            ),
            StoreReply::Text(t) => StoreReplyView::Text(
                match t {
                    Some(s) => Some(s@),
                    None => None,
                },
            ),
            StoreReply::Done => StoreReplyView::Done,
            StoreReply::Failed(m) => StoreReplyView::Failed(m@),
        }
    }
}

/// Whether `contents` holds under `key` a record that is not yet gone at `now`.
pub open spec fn live(contents: Contents, key: Seq<char>, now: int) -> bool {
    contents.contains_key(key) && match contents[key].deadline {
        Some(t) => now < t,
        None => true,
    }
}

/// The time from which a record set at `now` to stay for `ttl` seconds is
/// gone. A time that no clock can show is no deadline.
pub open spec fn deadline(now: int, ttl: int) -> Option<int> {
    if now + ttl > i64::MAX {
        None
    } else {
        Some(now + ttl)
    }
}

pub open spec fn wrong_kind() -> Seq<char> {
    "WRONGTYPE Operation against a key holding the wrong kind of value"@
}

pub open spec fn counter_overflow() -> Seq<char> {
    "ERR increment or decrement would overflow"@
}

pub open spec fn invalid_ttl() -> Seq<char> {
    "ERR invalid expire time in 'setex' command"@
}

/// What a command does at time `now` to a store that holds `contents`:
/// the contents afterwards and the reply.
pub open spec fn apply(contents: Contents, command: StoreCommandView, now: int) -> (
    Contents,
    StoreReplyView,
) {
    match command {
        StoreCommandView::Exists { key } => (contents, StoreReplyView::Found(live(contents, key, now))),
        StoreCommandView::GetCount { key } => if !live(contents, key, now) {
            (contents, StoreReplyView::Count(None))
        } else {
            match contents[key].value {
                StoredView::Count(n) => (contents, StoreReplyView::Count(Some(n))),
                StoredView::Text(_) => (contents, StoreReplyView::Failed(wrong_kind())),
            }
        },
        StoreCommandView::GetText { key } => if !live(contents, key, now) {
            (contents, StoreReplyView::Text(None))
        } else {
            match contents[key].value {
                StoredView::Text(s) => (contents, StoreReplyView::Text(Some(s))),
                StoredView::Count(_) => (contents, StoreReplyView::Failed(wrong_kind())),
            }
        },
        StoreCommandView::SetEx { key, value, ttl } => if ttl == 0 {
            (contents, StoreReplyView::Failed(invalid_ttl()))
        } else {
            (
                contents.insert(
                    key,
                    Slot { value: StoredView::Text(value), deadline: deadline(now, ttl) },
                ),
                StoreReplyView::Done,
            )
        },
        StoreCommandView::Del { key } => (contents.remove(key), StoreReplyView::Done),
        StoreCommandView::Incr { key } => if !live(contents, key, now) {
            (
                contents.insert(key, Slot { value: StoredView::Count(1), deadline: None }),
                StoreReplyView::Done,
            )
        } else {
            match contents[key].value {
                StoredView::Count(n) => if n >= i64::MAX {
                    (contents, StoreReplyView::Failed(counter_overflow()))
                } else {
                    (
                        contents.insert(
                            key,
                            Slot { value: StoredView::Count(n + 1), deadline: contents[key].deadline },
                        ),
                        StoreReplyView::Done,
                    )
                },
                StoredView::Text(_) => (contents, StoreReplyView::Failed(wrong_kind())),
            }
        },
        StoreCommandView::Expire { key, seconds } => if !live(contents, key, now) {
            (contents, StoreReplyView::Done)
        } else if seconds <= 0 {
            (contents.remove(key), StoreReplyView::Done)
        } else {
            (
                contents.insert(
                    key,
                    Slot { value: contents[key].value, deadline: deadline(now, seconds) },
                ),
                StoreReplyView::Done,
            )
        },
    }
}

/// A record of the store in memory.
struct Entry {
    key: String,
    value: Stored,
    deadline: Option<i64>,
}

impl Entry {
    spec fn slot(&self) -> Slot {
        Slot {
            value: self.value@,
            deadline: match self.deadline {
                Some(t) => Some(t as int),
                None => None,
            },
        }
    }

    spec fn key_view(&self) -> Seq<char> {
        self.key@
    }

    fn duplicate(&self) -> (e: Entry)
        ensures
            e.key_view() == self.key_view(),
            e.slot() == self.slot(),
    {
        let value = match &self.value {
            Stored::Text(s) => Stored::Text(s.clone()),
            Stored::Count(n) => Stored::Count(*n),
        };
        Entry { key: self.key.clone(), value, deadline: self.deadline }
    }
}

/// The contents that a list of records stands for: of two records under
/// one key the later counts.
spec fn entries_map(entries: Seq<Entry>) -> Contents
    decreases entries.len(),
{
    if entries.len() == 0 {
        Map::empty()
    } else {
        entries_map(entries.drop_last()).insert(entries.last().key_view(), entries.last().slot())
    }
}

proof fn lemma_entries_push(entries: Seq<Entry>, e: Entry)
    ensures
        entries_map(entries.push(e)) == entries_map(entries).insert(e.key_view(), e.slot()),
{
    assert(entries.push(e).drop_last() =~= entries);
}

proof fn lemma_entries_take(entries: Seq<Entry>, i: int)
    requires
        0 <= i < entries.len(),
    ensures
        entries_map(entries.take(i + 1)) == entries_map(entries.take(i)).insert(
            entries[i].key_view(),
            entries[i].slot(),
        ),
{
    assert(entries.take(i + 1).drop_last() =~= entries.take(i));
}

/// Without a record under `key` from `from` on, the contents are those of
/// the records in front of `from`, as far as `key` goes.
proof fn lemma_entries_tail(entries: Seq<Entry>, key: Seq<char>, from: int)
    requires
        0 <= from <= entries.len(),
        forall|j: int| from <= j < entries.len() ==> entries[j].key_view() != key,
    ensures
        entries_map(entries).contains_key(key) == entries_map(entries.take(from)).contains_key(key),
        entries_map(entries).contains_key(key) ==> entries_map(entries)[key] == entries_map(
            entries.take(from),
        )[key],
    decreases entries.len() - from,
{
    if from == entries.len() {
        assert(entries.take(from) =~= entries);
    } else {
        let init = entries.drop_last();
        lemma_entries_tail(init, key, from);
        assert(init.take(from) =~= entries.take(from));
    }
}

/// A store in memory. Time does not pass in it: every operation is told
/// the time at which it happens.
pub struct MemoryStore {
    entries: Vec<Entry>,
}

impl View for MemoryStore {
    type V = Contents;

    closed spec fn view(&self) -> Contents {
        entries_map(self.entries@)
    }
}

impl MemoryStore {
    /// A store without records.
    pub fn new() -> (store: MemoryStore)
        ensures
            store@ == Map::<Seq<char>, Slot>::empty(),
    {
        MemoryStore { entries: Vec::new() }
    }

    /// Position of the record that counts for `key`.
    fn position(&self, key: &str) -> (r: Option<usize>)
        ensures
            match r {
                Some(i) => i < self.entries@.len() && self.entries@[i as int].key_view() == key@
                    && self@.contains_key(key@) && self@[key@] == self.entries@[i as int].slot(),
                None => !self@.contains_key(key@),
            },
    {
        let mut i: usize = self.entries.len();
        while i > 0
            invariant
                i <= self.entries@.len(),
                forall|j: int| i <= j < self.entries@.len() ==> self.entries@[j].key_view() != key@,
            decreases i,
        {
            i = i - 1;
            if same_text(self.entries[i].key.as_str(), key) {
                proof {
                    lemma_entries_tail(self.entries@, key@, i as int + 1);
                    lemma_entries_take(self.entries@, i as int);
                }
                return Some(i);
            }
        }
        proof {
            lemma_entries_tail(self.entries@, key@, 0);
        }
        None
    }

    /// Position of the record under `key` if it is not gone at `now`.
    fn live_position(&self, key: &str, now: i64) -> (r: Option<usize>)
        ensures
            r is Some == live(self@, key@, now as int),
            r matches Some(i) ==> i < self.entries@.len() && self@[key@] == self.entries@[i as int].slot(),
    {
        match self.position(key) {
            Some(i) => {
                let alive = match self.entries[i].deadline {
                    Some(t) => now < t,
                    None => true,
                };
                if alive {
                    Some(i)
                } else {
                    None
                }
            },
            None => None,
        }
    }

    /// Takes the record under `key` away.
    fn discard(&mut self, key: &str)
        ensures
            final(self)@ == old(self)@.remove(key@),
    {
        let mut kept: Vec<Entry> = Vec::new();
        let n = self.entries.len();
        let mut i: usize = 0;
        while i < n
            invariant
                n == self.entries@.len(),
                i <= n,
                entries_map(kept@) == entries_map(self.entries@.take(i as int)).remove(key@),
            decreases n - i,
        {
            proof {
                lemma_entries_take(self.entries@, i as int);
            }
            if !same_text(self.entries[i].key.as_str(), key) {
                let e = self.entries[i].duplicate();
                proof {
                    lemma_entries_push(kept@, e);
                    assert(entries_map(kept@.push(e)) =~= entries_map(
                        self.entries@.take(i as int + 1),
                    ).remove(key@));
                }
                kept.push(e);
            } else {
                assert(entries_map(kept@) =~= entries_map(self.entries@.take(i as int + 1)).remove(
                    key@,
                ));
            }
            i = i + 1;
        }
        proof {
            assert(self.entries@.take(n as int) =~= self.entries@);
        }
        self.entries = kept;
    }

    /// Puts a record under `key`, in place of the one that was there.
    fn put(&mut self, key: &str, value: Stored, deadline: Option<i64>)
        ensures
            final(self)@ == old(self)@.insert(
                key@,
                Slot {
                    value: value@,
                    deadline: match deadline {
                        Some(t) => Some(t as int),
                        None => None,
                    },
                },
            ),
    {
        self.discard(key);
        let e = Entry { key: key.to_owned(), value, deadline };
        proof {
            lemma_entries_push(self.entries@, e);
            assert(old(self)@.remove(key@).insert(e.key_view(), e.slot()) =~= old(self)@.insert(
                e.key_view(),
                e.slot(),
            ));
        }
        self.entries.push(e);
    }

    /// Carries `command` out at time `now`.
    pub fn execute(&mut self, command: &StoreCommand, now: i64) -> (reply: StoreReply)
        ensures
            (final(self)@, reply@) == apply(old(self)@, command@, now as int),
    {
        match command {
            StoreCommand::Exists { key } => StoreReply::Found(
                self.live_position(key.as_str(), now).is_some(),
            ),
            StoreCommand::GetCount { key } => match self.live_position(key.as_str(), now) {
                None => StoreReply::Count(None),
                Some(i) => match &self.entries[i].value {
                    Stored::Count(n) => StoreReply::Count(Some(*n)),
                    Stored::Text(_) => StoreReply::Failed(
                        String::from_str(
                            "WRONGTYPE Operation against a key holding the wrong kind of value",
                        ),
                    ),
                },
            },
            StoreCommand::GetText { key } => match self.live_position(key.as_str(), now) {
                None => StoreReply::Text(None),
                Some(i) => match &self.entries[i].value {
                    Stored::Text(s) => StoreReply::Text(Some(s.clone())),
                    Stored::Count(_) => StoreReply::Failed(
                        String::from_str(
                            "WRONGTYPE Operation against a key holding the wrong kind of value",
                        ),
                    ),
                },
            },
            StoreCommand::SetEx { key, value, ttl } => {
                if *ttl == 0 {
                    StoreReply::Failed(String::from_str("ERR invalid expire time in 'setex' command"))
                } else {
                    let until = due(now, *ttl);
                    self.put(key.as_str(), Stored::Text(value.clone()), until);
                    StoreReply::Done
                }
            },
            StoreCommand::Del { key } => {
                self.discard(key.as_str());
                StoreReply::Done
            },
            StoreCommand::Incr { key } => match self.live_position(key.as_str(), now) {
                None => {
                    self.put(key.as_str(), Stored::Count(1), None);
                    StoreReply::Done
                },
                Some(i) => {
                    let until = self.entries[i].deadline;
                    match &self.entries[i].value {
                        Stored::Count(n) => {
                            if *n == i64::MAX {
                                StoreReply::Failed(
                                    String::from_str("ERR increment or decrement would overflow"),
                                )
                            } else {
                                let next = *n + 1;
                                self.put(key.as_str(), Stored::Count(next), until);
                                StoreReply::Done
                            }
                        },
                        Stored::Text(_) => StoreReply::Failed(
                            String::from_str(
                                "WRONGTYPE Operation against a key holding the wrong kind of value",
                            ),
                        ),
                    }
                },
            },
            StoreCommand::Expire { key, seconds } => match self.live_position(key.as_str(), now) {
                None => StoreReply::Done,
                Some(i) => {
                    if *seconds <= 0 {
                        self.discard(key.as_str());
                        StoreReply::Done
                    } else {
                        let value = match &self.entries[i].value {
                            Stored::Text(s) => Stored::Text(s.clone()),
                            Stored::Count(n) => Stored::Count(*n),
                        };
                        let until = due(now, *seconds as u64);
                        self.put(key.as_str(), value, until);
                        StoreReply::Done
                    }
                },
            },
        }
    }

    /// Whether there is a record under `key` at time `now`.
    pub fn holds(&self, key: &str, now: i64) -> (b: bool)
        ensures
            b == live(self@, key@, now as int),
    {
        self.live_position(key, now).is_some()
    }
}

/// The time from which a record set at `now` to stay for `ttl` seconds is gone.
fn due(now: i64, ttl: u64) -> (r: Option<i64>)
    ensures
        (match r {
            Some(t) => Some(t as int),
            None => None,
        }) == deadline(now as int, ttl as int),
{
    let sum: i128 = now as i128 + ttl as i128;
    if sum > i64::MAX as i128 {
        None
    } else {
        Some(sum as i64)
    }
}

} // verus!
