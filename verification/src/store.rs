//! The key-value store as the mediator sees it: the commands that it asks
//! for, and the replies that it is handed.

use crate::auth::{AuthToken, AuthTokenView};
use crate::schema::{UserRecord, UserRecordView};
use crate::text::{same_chars, to_chars};
use vstd::prelude::*;

verus! {

/// The number of keys that one step of a scan asks for.
pub const SCAN_BATCH: u64 = 100;

/// A command for the store.
#[derive(Clone, Debug, PartialEq, Eq)]
pub enum StoreCommand {
    /// Raise the counter under `key` by one, in one step with setting its
    /// expiry to `window_secs` seconds where the counter is new; the reply
    /// is the new count.
    Increment { key: String, window_secs: u64 },
    /// Read what is stored under `key` and delete it, in one step.
    GetAndDelete { key: String },
    /// Read what is stored under `key`.
    Get { key: String },
    /// Enumerate, from `cursor` on, about `count` of the keys that match
    /// `pattern`; the reply is the cursor to go on from, and the keys.
    Scan { cursor: u64, pattern: String, count: u64 },
}

/// The mathematical value of a [`StoreCommand`].
pub ghost enum StoreCommandView {
    Increment { key: Seq<char>, window_secs: u64 },
    GetAndDelete { key: Seq<char> },
    Get { key: Seq<char> },
    Scan { cursor: u64, pattern: Seq<char>, count: u64 },
}

impl View for StoreCommand {
    type V = StoreCommandView;

    open spec fn view(&self) -> StoreCommandView {
        match self {
            StoreCommand::Increment { key, window_secs } => StoreCommandView::Increment {
                key: key@,
                window_secs: *window_secs,
            },
            StoreCommand::GetAndDelete { key } => StoreCommandView::GetAndDelete { key: key@ },
            StoreCommand::Get { key } => StoreCommandView::Get { key: key@ },
            StoreCommand::Scan { cursor, pattern, count } => StoreCommandView::Scan {
                cursor: *cursor,
                pattern: pattern@,
                count: *count,
            },
        }
    }
}

/// What the store replied to a command.
#[derive(Clone, Debug)]
pub enum StoreReply {
    /// The new count of a counter.
    Count(i64),
    /// The token that was read and deleted; `None` where the key held
    /// nothing, or nothing that reads as a token.
    Token(Option<AuthToken>),
    /// The record that was read; `None` where the key held nothing, or
    /// nothing that reads as a record.
    Record(Option<UserRecord>),
    /// The cursor to go on from, which is zero at the end of the
    /// enumeration, and the keys that were found.
    Keys { cursor: u64, keys: Vec<String> },
    /// The store failed.
    Failed,
}

/// The mathematical value of a [`StoreReply`].
pub ghost enum StoreReplyView {
    Count(i64),
    Token(Option<AuthTokenView>),
    Record(Option<UserRecordView>),
    Keys { cursor: u64, keys: Seq<Seq<char>> },
    Failed,
}

impl View for StoreReply {
    type V = StoreReplyView;

    open spec fn view(&self) -> StoreReplyView {
        match self {
            StoreReply::Count(count) => StoreReplyView::Count(*count),
            StoreReply::Token(token) => StoreReplyView::Token(token.deep_view()),
            StoreReply::Record(record) => StoreReplyView::Record(record.deep_view()),
            StoreReply::Keys { cursor, keys } => StoreReplyView::Keys {
                cursor: *cursor,
                keys: keys.deep_view(),
            },
            StoreReply::Failed => StoreReplyView::Failed,
        }
    }
}

impl StoreReplyView {
    /// The count that the reply brings, if it brings one.
    pub open spec fn count(self) -> Option<i64> {
        match self {
            StoreReplyView::Count(count) => Some(count),
            _ => None,
        }
    }

    /// The token that the reply brings, if it brings one.
    pub open spec fn token(self) -> Option<AuthTokenView> {
        match self {
            StoreReplyView::Token(token) => token,
            _ => None,
        }
    }

    /// The record that the reply brings, if it brings one.
    pub open spec fn record(self) -> Option<UserRecordView> {
        match self {
            StoreReplyView::Record(record) => record,
            _ => None,
        }
    }
}

/// Whether `response` is what a live store answers to a ping.
pub open spec fn is_pong(response: Seq<char>) -> bool {
    response == "PONG"@
}

/// Whether the store is alive, given what it answered to a ping: `None`
/// where the ping failed.
pub fn is_alive(response: Option<&str>) -> (alive: bool)
    ensures
        alive == (response matches Some(text) && is_pong(text@)),
{
    match response {
        Some(text) => {
            let chars = to_chars(text);
            let pong = to_chars("PONG");
            same_chars(chars.as_slice(), pong.as_slice())
        },
        None => false,
    }
}

/// The keys of a scan after one more batch: those gathered before and
/// those of the batch, cut off after the first `limit`.
pub open spec fn gathered(keys: Seq<Seq<char>>, batch: Seq<Seq<char>>, limit: nat) -> Seq<
    Seq<char>,
> {
    let all = keys + batch;
    if all.len() > limit {
        all.take(limit as int)
    } else {
        all
    }
}

/// Whether a scan is over: it has gathered `limit` keys, or the store has
/// handed back the cursor that an enumeration starts from.
pub open spec fn scan_over(gathered: nat, cursor: u64, limit: nat) -> bool {
    gathered >= limit || cursor == 0
}

/// Adds the keys of `batch` to `keys` and cuts the whole off after the
/// first `limit`.
pub fn gather(keys: Vec<String>, batch: Vec<String>, limit: usize) -> (all: Vec<String>)
    ensures
        all.deep_view() == gathered(keys.deep_view(), batch.deep_view(), limit as nat),
        all.len() <= limit,
{
    let ghost joined = keys.deep_view() + batch.deep_view();
    let mut all = keys;
    let mut rest = batch;
    all.append(&mut rest);
    assert(all.deep_view() =~= joined);
    all.truncate(limit);
    assert(all.deep_view() =~= if joined.len() > limit {
        joined.take(limit as int)
    } else {
        joined
    });
    all
}

} // verus!
