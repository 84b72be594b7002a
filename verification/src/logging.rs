//! What is recorded of a query: how it went, how many rows it gave, and
//! under which level and message the record is to be emitted. Emitting is
//! left to the caller.

use crate::text::{lowercase_of, same_chars, to_chars, to_lowercase};
use vstd::prelude::*;
use vstd::string::*;

verus! {

/// How a query went.
#[derive(Debug, Clone, Copy, PartialEq, Eq)]
pub enum QueryResult {
    Success,
    Rejected,
    RateLimited,
    RedisError,
}

impl QueryResult {
    /// The word under which the result is recorded.
    pub open spec fn label(self) -> Seq<char> {
        match self {
            QueryResult::Success => "success"@,
            QueryResult::Rejected => "rejected"@,
            QueryResult::RateLimited => "rate_limited"@,
            QueryResult::RedisError => "redis_error"@,
        }
    }

    /// The word under which the result is recorded.
    pub fn as_str(self) -> (word: &'static str)
        ensures
            word@ == self.label(),
    {
        match self {
            QueryResult::Success => "success",
            QueryResult::Rejected => "rejected",
            QueryResult::RateLimited => "rate_limited",
            QueryResult::RedisError => "redis_error",
        }
    }

    /// The word under which the result is recorded, as an owned string.
    pub fn to_string(&self) -> (word: String)
        ensures
            word@ == self.label(),
    {
        self.as_str().to_owned()
    }
}

/// The severity of a record.
#[derive(Debug, Clone, Copy, PartialEq, Eq)]
pub enum LogLevel {
    Trace,
    Debug,
    Info,
    Warn,
    Error,
}

impl LogLevel {
    /// The level that the lower-case word `word` names; `Info` where it
    /// names none.
    pub open spec fn named(word: Seq<char>) -> LogLevel {
        if word == "trace"@ {
            LogLevel::Trace
        } else if word == "debug"@ {
            LogLevel::Debug
        } else if word == "info"@ {
            LogLevel::Info
        } else if word == "warn"@ {
            LogLevel::Warn
        } else if word == "error"@ {
            LogLevel::Error
        } else {
            LogLevel::Info
        }
    }

    /// The level that the lower-case word `word` names.
    pub fn from_lowercase(word: &str) -> (level: LogLevel)
        ensures
            level == LogLevel::named(word@),
    {
        let chars = to_chars(word);
        let chars = chars.as_slice();
        if same_chars(chars, to_chars("trace").as_slice()) {
            LogLevel::Trace
        } else if same_chars(chars, to_chars("debug").as_slice()) {
            LogLevel::Debug
        } else if same_chars(chars, to_chars("info").as_slice()) {
            LogLevel::Info
        } else if same_chars(chars, to_chars("warn").as_slice()) {
            LogLevel::Warn
        } else if same_chars(chars, to_chars("error").as_slice()) {
            LogLevel::Error
        } else {
            LogLevel::Info
        }
    }

    /// The level that `text` names, whatever the case of its letters.
    pub fn parse(text: &str) -> (level: LogLevel)
        ensures
            level == LogLevel::named(lowercase_of(text@)),
    {
        let lower = to_lowercase(text);
        LogLevel::from_lowercase(lower.as_str())
    }
}

/// The record of one query.
#[derive(Debug, Clone)]
pub struct QueryLog {
    /// The kind of query.
    pub query_type: &'static str,
    /// The table that the query was about, if any.
    pub table: Option<String>,
    /// The number of rows that were returned.
    pub rows_returned: usize,
    /// How the query went.
    pub result: QueryResult,
}

/// The mathematical value of a [`QueryLog`].
pub ghost struct QueryLogView {
    pub query_type: Seq<char>,
    pub table: Option<Seq<char>>,
    pub rows_returned: nat,
    pub result: QueryResult,
}

impl View for QueryLog {
    type V = QueryLogView;

    open spec fn view(&self) -> QueryLogView {
        QueryLogView {
            query_type: self.query_type@,
            table: self.table.deep_view(),
            rows_returned: self.rows_returned as nat,
            result: self.result,
        }
    }
}

impl QueryLogView {
    /// The level at which the record is emitted: a success is information,
    /// a rejection and a throttled request are warnings, a failure of the
    /// store is an error.
    pub open spec fn level(self) -> LogLevel {
        match self.result {
            QueryResult::Success => LogLevel::Info,
            QueryResult::Rejected => LogLevel::Warn,
            QueryResult::RateLimited => LogLevel::Warn,
            QueryResult::RedisError => LogLevel::Error,
        }
    }

    /// The message under which the record is emitted.
    pub open spec fn message(self) -> Seq<char> {
        match self.result {
            QueryResult::Success => "query_executed"@,
            QueryResult::Rejected => "query_rejected"@,
            QueryResult::RateLimited => "rate_limit_exceeded"@,
            QueryResult::RedisError => "redis_error"@,
        }
    }

    /// The table as the record shows it: a dash where there is none.
    pub open spec fn table_label(self) -> Seq<char> {
        match self.table {
            Some(table) => table,
            None => "-"@,
        }
    }
}

/// What is emitted for a record: the level and the message, and of the
/// record's fields those that its result calls for.
#[derive(Debug, Clone)]
pub struct LogEvent {
    pub level: LogLevel,
    pub message: &'static str,
    pub query_type: &'static str,
    /// The table, or a dash where the record has none; `None` where the
    /// table is not emitted.
    pub table: Option<String>,
    /// The number of rows; `None` where it is not emitted.
    pub rows: Option<usize>,
    /// Whether the time that the query took is emitted.
    pub timed: bool,
    pub result: &'static str,
}

/// The mathematical value of a [`LogEvent`].
pub ghost struct LogEventView {
    pub level: LogLevel,
    pub message: Seq<char>,
    pub query_type: Seq<char>,
    pub table: Option<Seq<char>>,
    pub rows: Option<nat>,
    pub timed: bool,
    pub result: Seq<char>,
}

impl View for LogEvent {
    type V = LogEventView;

    open spec fn view(&self) -> LogEventView {
        LogEventView {
            level: self.level,
            message: self.message@,
            query_type: self.query_type@,
            table: self.table.deep_view(),
            rows: match self.rows {
                Some(rows) => Some(rows as nat),
                None => None,
            },
            timed: self.timed,
            result: self.result@,
        }
    }
}

impl QueryLogView {
    /// What is emitted for the record. The table is emitted unless the
    /// request was throttled, the time for a success and for a rejection,
    /// the number of rows for a success only.
    pub open spec fn event(self) -> LogEventView {
        LogEventView {
            level: self.level(),
            message: self.message(),
            query_type: self.query_type,
            table: if self.result == QueryResult::RateLimited {
                None
            } else {
                Some(self.table_label())
            },
            rows: if self.result == QueryResult::Success {
                Some(self.rows_returned)
            } else {
                None
            },
            timed: self.result == QueryResult::Success || self.result == QueryResult::Rejected,
            result: self.result.label(),
        }
    }
}

/// The record of a successful query of the kind `query_type`, with no table
/// and no rows.
pub open spec fn fresh_log(query_type: Seq<char>) -> QueryLogView {
    QueryLogView { query_type, table: None, rows_returned: 0, result: QueryResult::Success }
}

impl QueryLog {
    /// Begins the record of a query of the kind `query_type`.
    pub fn new(query_type: &'static str) -> (log: QueryLog)
        ensures
            log@ == fresh_log(query_type@),
    {
        QueryLog { query_type, table: None, rows_returned: 0, result: QueryResult::Success }
    }

    /// The record with the table `table`.
    pub fn with_table(self, table: &str) -> (log: QueryLog)
        ensures
            log@ == (QueryLogView { table: Some(table@), ..self@ }),
    {
        QueryLog {
            query_type: self.query_type,
            table: Some(table.to_owned()),
            rows_returned: self.rows_returned,
            result: self.result,
        }
    }

    /// The record with `rows` rows returned.
    pub fn with_rows(self, rows: usize) -> (log: QueryLog)
        ensures
            log@ == (QueryLogView { rows_returned: rows as nat, ..self@ }),
    {
        QueryLog {
            query_type: self.query_type,
            table: self.table,
            rows_returned: rows,
            result: self.result,
        }
    }

    /// The record with the result `result`.
    pub fn with_result(self, result: QueryResult) -> (log: QueryLog)
        ensures
            log@ == (QueryLogView { result, ..self@ }),
    {
        QueryLog {
            query_type: self.query_type,
            table: self.table,
            rows_returned: self.rows_returned,
            result,
        }
    }

    /// The level at which the record is emitted.
    pub fn level(&self) -> (level: LogLevel)
        ensures
            level == self@.level(),
    {
        match self.result {
            QueryResult::Success => LogLevel::Info,
            QueryResult::Rejected => LogLevel::Warn,
            QueryResult::RateLimited => LogLevel::Warn,
            QueryResult::RedisError => LogLevel::Error,
        }
    }

    /// The message under which the record is emitted.
    pub fn message(&self) -> (message: &'static str)
        ensures
            message@ == self@.message(),
    {
        match self.result {
            QueryResult::Success => "query_executed",
            QueryResult::Rejected => "query_rejected",
            QueryResult::RateLimited => "rate_limit_exceeded",
            QueryResult::RedisError => "redis_error",
        }
    }

    /// Closes the record: what is to be emitted for it.
    pub fn log(self) -> (event: LogEvent)
        ensures
            event@ == self@.event(),
    {
        let table = match self.result {
            QueryResult::RateLimited => None,
            _ => Some(self.table_label()),
        };
        let rows = match self.result {
            QueryResult::Success => Some(self.rows_returned),
            _ => None,
        };
        let timed = match self.result {
            QueryResult::Success => true,
            QueryResult::Rejected => true,
            _ => false,
        };
        LogEvent {
            level: self.level(),
            message: self.message(),
            query_type: self.query_type,
            table,
            rows,
            timed,
            result: self.result.as_str(),
        }
    }

    /// The table as the record shows it.
    pub fn table_label(&self) -> (label: String)
        ensures
            label@ == self@.table_label(),
    {
        match &self.table {
            Some(table) => table.clone(),
            None => "-".to_owned(),
        }
    }
}

} // verus!
