//! The execution mediator: from a query to the commands for the store, and
//! from the store's replies to what the client is sent.
//!
//! The mediator does no input or output. [`Backend::on_query`] begins the
//! work on a query and [`Backend::on_reply`] goes on with it; each returns
//! either a command for the store, with the state in which its reply is
//! awaited, or the outcome. The caller runs each command and hands back the
//! reply.

use crate::auth::{
    auth_key, auth_key_of, is_timestamp, outcome, unverified, verify_token,
};
use crate::config::Config;
use crate::logging::{QueryLog, QueryLogView, QueryResult};
use crate::query::{
    classification, lemma_accepted_select, parse_query, where_pk_value, Intent, QueryType,
};
use crate::rate_limit::{
    allowed, check_rate_limit, is_limiting, limiting, rate_limit_key, rate_limit_key_of,
};
use crate::result::{
    describe_result, description, record_row, table_rows, tables_result, user_row,
    verification_result, verification_rows, version_result, version_rows, Response, ResponseView,
    ResultSet, ResultSetView, VERSION,
};
use crate::schema::{
    primary_key, primary_key_of, record_key, record_key_of, scan_pattern, scan_pattern_of,
    users_table, TableSchema, TableSchemaView,
};
use crate::store::{
    gather, gathered, scan_over, StoreCommand, StoreCommandView, StoreReply, StoreReplyView,
    SCAN_BATCH,
};
use crate::text::{lowercase_of, trim};
use vstd::prelude::*;
use vstd::string::*;

verus! {

/// The index of the first of `names`, at or after index `from`, that is
/// `wanted`.
pub open spec fn position(names: Seq<Seq<char>>, wanted: Seq<char>, from: int) -> Option<int>
    decreases names.len() - from,
{
    if from < 0 || from >= names.len() {
        None
    } else if names[from] == wanted {
        Some(from)
    } else {
        position(names, wanted, from + 1)
    }
}

/// The state in which the mediator awaits a reply of the store.
#[derive(Clone, Debug)]
pub enum Pending {
    /// The count of the client's requests is awaited; `query` is the query
    /// that waits for it.
    RateCount { query: String },
    /// The token that a verification takes out of the store is awaited.
    Token,
    /// The record of `table` with the primary key `pk_value` is awaited.
    Record { table: String, pk_value: String },
    /// The next keys of a scan of `table` are awaited; `keys` are those
    /// gathered so far.
    KeyBatch { table: String, keys: Vec<String> },
    /// The record under the key at `index` of the `keys` that a scan of
    /// `table` gathered is awaited; `rows` are the rows of the records
    /// before it.
    ScanRecord { table: String, keys: Vec<String>, index: usize, rows: Vec<Vec<String>> },
}

/// The mathematical value of a [`Pending`].
pub ghost enum PendingView {
    RateCount { query: Seq<char> },
    Token,
    Record { table: Seq<char>, pk_value: Seq<char> },
    KeyBatch { table: Seq<char>, keys: Seq<Seq<char>> },
    ScanRecord { table: Seq<char>, keys: Seq<Seq<char>>, index: nat, rows: Seq<Seq<Seq<char>>> },
}

impl View for Pending {
    type V = PendingView;

    open spec fn view(&self) -> PendingView {
        match self {
            Pending::RateCount { query } => PendingView::RateCount { query: query@ },
            Pending::Token => PendingView::Token,
            Pending::Record { table, pk_value } => PendingView::Record {
                table: table@,
                pk_value: pk_value@,
            },
            Pending::KeyBatch { table, keys } => PendingView::KeyBatch {
                table: table@,
                keys: keys.deep_view(),
            },
            Pending::ScanRecord { table, keys, index, rows } => PendingView::ScanRecord {
                table: table@,
                keys: keys.deep_view(),
                index: *index as nat,
                rows: rows.deep_view(),
            },
        }
    }
}

/// How the work on a query ended.
#[derive(Clone, Debug)]
pub struct Outcome {
    /// What the client is sent.
    pub response: Response,
    /// What is recorded of the query.
    pub log: QueryLog,
    /// Why the query was rejected, where it was; this is recorded and never
    /// sent to the client.
    pub reason: Option<&'static str>,
}

/// The mathematical value of an [`Outcome`].
pub ghost struct OutcomeView {
    pub response: ResponseView,
    pub log: QueryLogView,
    pub reason: Option<Seq<char>>,
}

impl View for Outcome {
    type V = OutcomeView;

    open spec fn view(&self) -> OutcomeView {
        OutcomeView {
            response: self.response@,
            log: self.log@,
            reason: match self.reason {
                Some(reason) => Some(reason@),
                None => None,
            },
        }
    }
}

/// What the mediator asks of its caller.
#[derive(Clone, Debug)]
pub enum Step {
    /// Run `command` and hand its reply back together with `pending`.
    Call { command: StoreCommand, pending: Pending },
    /// The work is done.
    Finish(Outcome),
}

/// The mathematical value of a [`Step`].
pub ghost enum StepView {
    Call { command: StoreCommandView, pending: PendingView },
    Finish(OutcomeView),
}

impl View for Step {
    type V = StepView;

    open spec fn view(&self) -> StepView {
        match self {
            Step::Call { command, pending } => StepView::Call {
                command: command@,
                pending: pending@,
            },
            Step::Finish(outcome) => StepView::Finish(outcome@),
        }
    }
}

/// The end of the work with rows for the client.
pub open spec fn rows_sent(result: ResultSetView, query_type: Seq<char>, table: Option<Seq<char>>) -> StepView {
    StepView::Finish(
        OutcomeView {
            response: ResponseView::Rows(result),
            log: QueryLogView {
                query_type,
                table,
                rows_returned: result.rows.len(),
                result: QueryResult::Success,
            },
            reason: None,
        },
    )
}

/// The end of the work with an acknowledgement and no rows.
pub open spec fn acknowledged(
    query_type: Seq<char>,
    table: Option<Seq<char>>,
    result: QueryResult,
    reason: Option<Seq<char>>,
) -> StepView {
    StepView::Finish(
        OutcomeView {
            response: ResponseView::Ack,
            log: QueryLogView { query_type, table, rows_returned: 0, result },
            reason,
        },
    )
}

/// The mediator for the queries of one client.
#[derive(Clone, Debug)]
pub struct Backend {
    /// The exposed tables.
    pub schemas: Vec<TableSchema>,
    /// The options of the process.
    pub config: Config,
    /// The client's identity, by which its requests are counted.
    pub client: String,
}

impl Backend {
    /// The names of the exposed tables, in the order of the registry.
    pub open spec fn table_names_of(&self) -> Seq<Seq<char>> {
        Seq::new(self.schemas@.len(), |i: int| self.schemas@[i]@.name)
    }

    /// Whether no two tables of the registry have the same name.
    pub open spec fn well_formed(&self) -> bool {
        forall|i: int, j: int|
            0 <= i < j < self.schemas@.len() ==> self.schemas@[i]@.name != self.schemas@[j]@.name
    }

    /// Whether `table` is the name of an exposed table.
    pub open spec fn knows(&self, table: Seq<char>) -> bool {
        self.table_names_of().contains(table)
    }

    /// The schema of the table `table`: the first in the registry under
    /// that name.
    pub open spec fn schema_of(&self, table: Seq<char>) -> TableSchemaView {
        self.schemas@[position(self.table_names_of(), table, 0).unwrap()]@
    }

    /// The most rows that a scan returns.
    pub open spec fn row_cap(&self) -> nat {
        self.config.scan_limit as nat
    }

    /// Whether the mediator can serve `intent`: the table that it names, if
    /// it names one, is exposed.
    pub open spec fn serves(&self, intent: Intent) -> bool {
        match intent {
            Intent::DescribeTable(table) => self.knows(table),
            Intent::SelectByPk { table, pk_value } => self.knows(table),
            Intent::SelectScan { table } => self.knows(table),
            _ => true,
        }
    }

    /// Whether `pending` is a state of this mediator: its table is exposed,
    /// a scan holds no more keys than rows may be returned, and no more
    /// rows than records were read.
    pub open spec fn awaits(&self, pending: PendingView) -> bool {
        match pending {
            PendingView::RateCount { query } => true,
            PendingView::Token => true,
            PendingView::Record { table, pk_value } => self.knows(table),
            PendingView::KeyBatch { table, keys } => self.knows(table) && keys.len()
                <= self.row_cap(),
            PendingView::ScanRecord { table, keys, index, rows } => {
                &&& self.knows(table)
                &&& index < keys.len() <= self.row_cap()
                &&& rows.len() <= index
            },
        }
    }

    /// Whether `step` is one that this mediator takes: where it awaits a
    /// reply, in a state of the mediator.
    pub open spec fn takes(&self, step: StepView) -> bool {
        match step {
            StepView::Call { command, pending } => self.awaits(pending),
            StepView::Finish(outcome) => true,
        }
    }

    /// What executing `intent` begins with.
    ///
    /// The version probe, the list of tables and a description are answered
    /// at once; a look-up, a scan and a verification begin with a command
    /// for the store; a session directive and a rejection are acknowledged
    /// without rows, and so is a scan where scans are switched off.
    pub open spec fn dispatch(&self, intent: Intent) -> StepView {
        match intent {
            Intent::SelectVersion => rows_sent(version_rows(), "version"@, None),
            Intent::SetOrUse => acknowledged("set_use"@, None, QueryResult::Success, None),
            Intent::ShowTables => rows_sent(
                table_rows(self.table_names_of()),
                "show_tables"@,
                None,
            ),
            Intent::DescribeTable(table) => rows_sent(
                description(self.schema_of(table)),
                "describe"@,
                Some(table),
            ),
            Intent::SelectByPk { table, pk_value } => StepView::Call {
                command: StoreCommandView::Get { key: record_key_of(table, pk_value) },
                pending: PendingView::Record { table, pk_value },
            },
            Intent::SelectScan { table } => if self.config.scans_enabled() {
                StepView::Call {
                    command: StoreCommandView::Scan {
                        cursor: 0,
                        pattern: scan_pattern_of(table),
                        count: SCAN_BATCH,
                    },
                    pending: PendingView::KeyBatch { table, keys: Seq::empty() },
                }
            } else {
                acknowledged("scan"@, Some(table), QueryResult::Rejected, None)
            },
            Intent::QrVerify { token } => StepView::Call {
                command: StoreCommandView::GetAndDelete { key: auth_key_of(token) },
                pending: PendingView::Token,
            },
            Intent::Rejected { reason } => acknowledged(
                "rejected"@,
                None,
                QueryResult::Rejected,
                Some(reason),
            ),
        }
    }

    /// What the work on the query text `query` begins with: the count of
    /// the client's requests where requests are limited, and otherwise the
    /// execution of the query's intent.
    pub open spec fn begin(&self, query: Seq<char>) -> StepView {
        if limiting(self.config.rate_limit) {
            StepView::Call {
                command: StoreCommandView::Increment {
                    key: rate_limit_key_of(self.client@),
                    window_secs: self.config.rate_window,
                },
                pending: PendingView::RateCount { query },
            }
        } else {
            self.dispatch(classification(query, self.table_names_of()))
        }
    }

    /// How a scan of `table` goes on once the keys `keys` are gathered and
    /// the records under the first `index` of them are read: with the
    /// record under the next key, or with the rows where there is none.
    pub open spec fn fetch(
        &self,
        table: Seq<char>,
        keys: Seq<Seq<char>>,
        index: nat,
        rows: Seq<Seq<Seq<char>>>,
    ) -> StepView {
        if index < keys.len() {
            StepView::Call {
                command: StoreCommandView::Get { key: keys[index as int] },
                pending: PendingView::ScanRecord { table, keys, index, rows },
            }
        } else {
            rows_sent(
                ResultSetView { columns: self.schema_of(table).columns(), rows },
                "scan"@,
                Some(table),
            )
        }
    }

    /// How the work goes on in the state `pending` with the reply `reply`,
    /// where `stamp` names the present instant.
    ///
    /// - A count above the limit ends the work with an acknowledgement;
    ///   any other reply lets the query be executed.
    /// - A token is reported as verified, stamped with `stamp`; any other
    ///   reply is reported as not verified.
    /// - A record gives one row, any other reply none.
    /// - The keys of a scan are gathered until there are as many as rows
    ///   may be returned, or the enumeration is at its end; then the record
    ///   under each is read, and each record gives a row. A failure of the
    ///   store while the keys are gathered gives no row at all.
    pub open spec fn resume(
        &self,
        pending: PendingView,
        reply: StoreReplyView,
        stamp: Seq<char>,
    ) -> StepView {
        match pending {
            PendingView::RateCount { query } => if allowed(self.config.rate_limit, reply.count()) {
                self.dispatch(classification(query, self.table_names_of()))
            } else {
                acknowledged("rate_limited"@, None, QueryResult::RateLimited, None)
            },
            PendingView::Token => rows_sent(
                verification_rows(outcome(reply.token(), stamp)),
                "qr_verify"@,
                None,
            ),
            PendingView::Record { table, pk_value } => rows_sent(
                ResultSetView {
                    columns: self.schema_of(table).columns(),
                    rows: match reply.record() {
                        Some(record) => seq![user_row(pk_value, record)],
                        None => Seq::empty(),
                    },
                },
                "pk_lookup"@,
                Some(table),
            ),
            PendingView::KeyBatch { table, keys } => match reply {
                StoreReplyView::Keys { cursor, keys: batch } => {
                    let all = gathered(keys, batch, self.row_cap());
                    if scan_over(all.len(), cursor, self.row_cap()) {
                        self.fetch(table, all, 0, Seq::empty())
                    } else {
                        StepView::Call {
                            command: StoreCommandView::Scan {
                                cursor,
                                pattern: scan_pattern_of(table),
                                count: SCAN_BATCH,
                            },
                            pending: PendingView::KeyBatch { table, keys: all },
                        }
                    }
                },
                _ => self.fetch(table, Seq::empty(), 0, Seq::empty()),
            },
            PendingView::ScanRecord { table, keys, index, rows } => self.fetch(
                table,
                keys,
                index + 1,
                match reply.record() {
                    Some(record) => rows.push(
                        user_row(primary_key_of(keys[index as int], table), record),
                    ),
                    None => rows,
                },
            ),
        }
    }

    /// The mediator for the client `client`, with the table of users
    /// exposed.
    pub fn new(config: Config, client: String) -> (backend: Backend)
        ensures
            backend.config == config,
            backend.client == client,
            backend.schemas@.len() == 1,
            backend.schemas@[0]@ == users_table(),
            backend.table_names_of() == seq!["users"@],
            backend.well_formed(),
    {
        let mut schemas: Vec<TableSchema> = Vec::new();
        schemas.push(TableSchema::users());
        let backend = Backend { schemas, config, client };
        assert(backend.table_names_of() =~= seq!["users"@]);
        backend
    }

    /// The version that the server reports of itself.
    pub fn version(&self) -> (version: String)
        ensures
            version@ == VERSION@,
    {
        VERSION.to_owned()
    }

    /// The names of the exposed tables, in the order of the registry.
    pub fn table_names(&self) -> (names: Vec<&str>)
        ensures
            names.deep_view() == self.table_names_of(),
    {
        let mut names: Vec<&str> = Vec::new();
        let mut i: usize = 0;
        while i < self.schemas.len()
            invariant
                i <= self.schemas.len(),
                names.len() == i,
                forall|j: int| 0 <= j < i ==> (#[trigger] names@[j])@ == self.schemas@[j]@.name,
            decreases self.schemas.len() - i,
        {
            names.push(self.schemas[i].name.as_str());
            i += 1;
        }
        assert(names.deep_view() =~= self.table_names_of());
        names
    }

    /// The schema of the table `table`, if it is exposed.
    pub fn schema(&self, table: &str) -> (found: Option<&TableSchema>)
        ensures
            match found {
                Some(schema) => self.knows(table@) && schema@ == self.schema_of(table@),
                None => !self.knows(table@),
            },
    {
        let wanted = table.to_owned();
        let ghost names = self.table_names_of();
        let mut i: usize = 0;
        while i < self.schemas.len()
            invariant
                i <= self.schemas.len(),
                wanted@ == table@,
                names == self.table_names_of(),
                position(names, table@, 0) == position(names, table@, i as int),
                forall|j: int| 0 <= j < i ==> names[j] != table@,
            decreases self.schemas.len() - i,
        {
            if self.schemas[i].name == wanted {
                assert(names[i as int] == table@);
                return Some(&self.schemas[i]);
            }
            i += 1;
        }
        None
    }

    /// The schema of the exposed table `table`.
    pub fn known_schema(&self, table: &str) -> (schema: &TableSchema)
        requires
            self.knows(table@),
        ensures
            schema@ == self.schema_of(table@),
    {
        match self.schema(table) {
            Some(schema) => schema,
            None => vstd::pervasive::unreached(),
        }
    }

    /// Whether `pending` is a state of this mediator.
    pub fn accepts(&self, pending: &Pending) -> (b: bool)
        ensures
            b == self.awaits(pending@),
    {
        match pending {
            Pending::RateCount { query } => true,
            Pending::Token => true,
            Pending::Record { table, pk_value } => self.schema(table.as_str()).is_some(),
            Pending::KeyBatch { table, keys } => self.schema(table.as_str()).is_some()
                && keys.len() <= self.config.scan_limit,
            Pending::ScanRecord { table, keys, index, rows } => self.schema(
                table.as_str(),
            ).is_some() && *index < keys.len() && keys.len() <= self.config.scan_limit
                && rows.len() <= *index,
        }
    }

    /// Begins to execute the intent `query_type`.
    pub fn execute(&self, query_type: QueryType) -> (step: Step)
        requires
            self.serves(query_type@),
        ensures
            step@ == self.dispatch(query_type@),
            self.takes(step@),
    {
        match query_type {
            QueryType::SelectVersion => send_rows(version_result(), "version", None),
            QueryType::SetOrUse => acknowledge("set_use", None, QueryResult::Success, None),
            QueryType::ShowTables => send_rows(tables_result(&self.schemas), "show_tables", None),
            QueryType::DescribeTable(table) => {
                let result = describe_result(self.known_schema(table.as_str()));
                send_rows(result, "describe", Some(table))
            },
            QueryType::SelectByPk { table, pk_value } => Step::Call {
                command: StoreCommand::Get { key: record_key(table.as_str(), pk_value.as_str()) },
                pending: Pending::Record { table, pk_value },
            },
            QueryType::SelectScan { table } => {
                if self.config.scan_enabled() {
                    Step::Call {
                        command: StoreCommand::Scan {
                            cursor: 0,
                            pattern: scan_pattern(table.as_str()),
                            count: SCAN_BATCH,
                        },
                        pending: Pending::KeyBatch { table, keys: no_keys() },
                    }
                } else {
                    acknowledge("scan", Some(table), QueryResult::Rejected, None)
                }
            },
            QueryType::QrVerify { token } => Step::Call {
                command: StoreCommand::GetAndDelete { key: auth_key(token.as_str()) },
                pending: Pending::Token,
            },
            QueryType::Rejected { reason } => acknowledge(
                "rejected",
                None,
                QueryResult::Rejected,
                Some(reason),
            ),
        }
    }

    /// Classifies the query text `query` and begins to execute its intent.
    pub fn classify_and_execute(&self, query: &str) -> (step: Step)
        ensures
            step@ == self.dispatch(classification(query@, self.table_names_of())),
            self.takes(step@),
    {
        let names = self.table_names();
        let query_type = parse_query(query, names.as_slice());
        proof {
            let trimmed = trim(query@);
            lemma_accepted_select(
                trimmed,
                lowercase_of(trimmed),
                where_pk_value(trimmed, "id"@),
                self.table_names_of(),
            );
        }
        self.execute(query_type)
    }

    /// Begins the work on the query text `query`.
    ///
    /// Where requests are limited, the first step counts the request, and
    /// the query is looked at only once the count is known.
    pub fn on_query(&self, query: &str) -> (step: Step)
        ensures
            step@ == self.begin(query@),
            self.takes(step@),
    {
        if is_limiting(self.config.rate_limit) {
            Step::Call {
                command: StoreCommand::Increment {
                    key: rate_limit_key(self.client.as_str()),
                    window_secs: self.config.rate_window,
                },
                pending: Pending::RateCount { query: query.to_owned() },
            }
        } else {
            self.classify_and_execute(query)
        }
    }

    /// Goes on with a scan of `table`: reads the record under the key at
    /// `index`, or ends the scan with `rows` where there is no such key.
    pub fn fetch_next(
        &self,
        table: String,
        keys: Vec<String>,
        index: usize,
        rows: Vec<Vec<String>>,
    ) -> (step: Step)
        requires
            self.knows(table@),
            keys.len() <= self.row_cap(),
            rows.len() <= index <= keys.len(),
        ensures
            step@ == self.fetch(table@, keys.deep_view(), index as nat, rows.deep_view()),
            self.takes(step@),
    {
        if index < keys.len() {
            Step::Call {
                command: StoreCommand::Get { key: keys[index].clone() },
                pending: Pending::ScanRecord { table, keys, index, rows },
            }
        } else {
            let columns = self.known_schema(table.as_str()).columns();
            send_rows(ResultSet { columns, rows }, "scan", Some(table))
        }
    }

    /// Goes on with the work in the state `pending` with the reply
    /// `reply`. `stamp` names the present instant; it is read only where
    /// the reply brings a token to be verified, see [`needs_stamp`].
    pub fn on_reply(&self, pending: Pending, reply: StoreReply, stamp: String) -> (step: Step)
        requires
            self.awaits(pending@),
            stamped(pending@, reply@) ==> is_timestamp(stamp@),
        ensures
            step@ == self.resume(pending@, reply@, stamp@),
            self.takes(step@),
    {
        match pending {
            Pending::RateCount { query } => {
                let count = match reply {
                    StoreReply::Count(count) => Some(count),
                    _ => None,
                };
                if check_rate_limit(self.config.rate_limit, count) {
                    self.classify_and_execute(query.as_str())
                } else {
                    acknowledge("rate_limited", None, QueryResult::RateLimited, None)
                }
            },
            Pending::Token => {
                let payload = match reply {
                    StoreReply::Token(token) => token,
                    _ => None,
                };
                let verified = verify_token(payload, stamp);
                send_rows(verification_result(&verified), "qr_verify", None)
            },
            Pending::Record { table, pk_value } => {
                let columns = self.known_schema(table.as_str()).columns();
                let mut rows: Vec<Vec<String>> = Vec::new();
                match reply {
                    StoreReply::Record(Some(record)) => {
                        rows.push(record_row(pk_value.as_str(), &record));
                    },
                    _ => {},
                }
                let result = ResultSet { columns, rows };
                assert(result@.rows =~= match reply@.record() {
                    Some(record) => seq![user_row(pk_value@, record)],
                    None => Seq::empty(),
                });
                send_rows(result, "pk_lookup", Some(table))
            },
            Pending::KeyBatch { table, keys } => match reply {
                StoreReply::Keys { cursor, keys: batch } => {
                    let all = gather(keys, batch, self.config.scan_limit);
                    if all.len() >= self.config.scan_limit || cursor == 0 {
                        self.fetch_next(table, all, 0, no_rows())
                    } else {
                        Step::Call {
                            command: StoreCommand::Scan {
                                cursor,
                                pattern: scan_pattern(table.as_str()),
                                count: SCAN_BATCH,
                            },
                            pending: Pending::KeyBatch { table, keys: all },
                        }
                    }
                },
                _ => self.fetch_next(table, no_keys(), 0, no_rows()),
            },
            Pending::ScanRecord { table, keys, index, rows } => {
                let mut rows = rows;
                let ghost before = rows.deep_view();
                match reply {
                    StoreReply::Record(Some(record)) => {
                        let pk_value = primary_key(keys[index].as_str(), table.as_str());
                        rows.push(record_row(pk_value.as_str(), &record));
                        assert(rows.deep_view() =~= before.push(
                            user_row(
                                primary_key_of(keys.deep_view()[index as int], table@),
                                record@,
                            ),
                        ));
                    },
                    _ => {},
                }
                self.fetch_next(table, keys, index + 1, rows)
            },
        }
    }
}

/// Whether the reply `reply`, awaited in the state `pending`, brings a
/// token to be verified, so that the stamp of the present instant is read.
pub open spec fn stamped(pending: PendingView, reply: StoreReplyView) -> bool {
    pending is Token && reply.token() is Some
}

/// Decides [`stamped`]: whether [`Backend::on_reply`] reads the stamp that
/// it is handed with `pending` and `reply`.
pub fn needs_stamp(pending: &Pending, reply: &StoreReply) -> (b: bool)
    ensures
        b == stamped(pending@, reply@),
{
    match pending {
        Pending::Token => match reply {
            StoreReply::Token(Some(token)) => true,
            _ => false,
        },
        _ => false,
    }
}

/// Where no token is to be verified, the stamp makes no difference.
pub proof fn lemma_stamp_only_for_tokens(
    backend: &Backend,
    pending: PendingView,
    reply: StoreReplyView,
    stamp: Seq<char>,
    other: Seq<char>,
)
    requires
        !stamped(pending, reply),
    ensures
        backend.resume(pending, reply, stamp) == backend.resume(pending, reply, other),
{
}

/// Whether `step` belongs to a scan that keeps to the row cap of
/// `backend`: it awaits keys or a record of the scan in a state of the
/// mediator, or ends the scan with no more rows than the cap.
pub open spec fn scan_within_cap(backend: &Backend, step: StepView) -> bool {
    match step {
        StepView::Call { command, pending } => backend.awaits(pending) && (pending is KeyBatch
            || pending is ScanRecord),
        StepView::Finish(outcome) => outcome.response.row_count() <= backend.row_cap(),
    }
}

/// Where the work stands after the replies `replies`, in that order, to the
/// commands that the mediator asked for from `step` on. Replies that come
/// after the work is done are left aside.
pub open spec fn after_replies(
    backend: &Backend,
    step: StepView,
    replies: Seq<StoreReplyView>,
    stamp: Seq<char>,
) -> StepView
    decreases replies.len(),
{
    match step {
        StepView::Call { command, pending } => if replies.len() == 0 {
            step
        } else {
            after_replies(
                backend,
                backend.resume(pending, replies[0], stamp),
                replies.drop_first(),
                stamp,
            )
        },
        StepView::Finish(outcome) => step,
    }
}

/// One reply leaves a scan within the row cap, whatever the reply holds.
pub proof fn lemma_scan_step_within_cap(
    backend: &Backend,
    pending: PendingView,
    reply: StoreReplyView,
    stamp: Seq<char>,
)
    requires
        backend.awaits(pending),
        pending is KeyBatch || pending is ScanRecord,
    ensures
        scan_within_cap(backend, backend.resume(pending, reply, stamp)),
{
}

/// A scan never returns more rows than the row cap, however many keys the
/// store holds and whatever it replies: if the work that a scan of an
/// exposed table begins ends after the replies `replies`, it ends with no
/// more rows than the cap. Where scans are switched off it ends at once,
/// with none.
pub proof fn lemma_scan_never_exceeds_cap(
    backend: &Backend,
    table: Seq<char>,
    replies: Seq<StoreReplyView>,
    stamp: Seq<char>,
)
    requires
        backend.knows(table),
    ensures
        after_replies(
            backend,
            backend.dispatch(Intent::SelectScan { table }),
            replies,
            stamp,
        ) matches StepView::Finish(outcome) ==> outcome.response.row_count() <= backend.row_cap(),
        !backend.config.scans_enabled() ==> backend.dispatch(Intent::SelectScan { table })
            == acknowledged("scan"@, Some(table), QueryResult::Rejected, None),
{
    lemma_scan_stays_within_cap(
        backend,
        backend.dispatch(Intent::SelectScan { table }),
        replies,
        stamp,
    );
}

/// A scan that is within the row cap stays within it.
pub proof fn lemma_scan_stays_within_cap(
    backend: &Backend,
    step: StepView,
    replies: Seq<StoreReplyView>,
    stamp: Seq<char>,
)
    requires
        scan_within_cap(backend, step),
    ensures
        scan_within_cap(backend, after_replies(backend, step, replies, stamp)),
    decreases replies.len(),
{
    match step {
        StepView::Call { command, pending } => {
            if replies.len() > 0 {
                lemma_scan_step_within_cap(backend, pending, replies[0], stamp);
                lemma_scan_stays_within_cap(
                    backend,
                    backend.resume(pending, replies[0], stamp),
                    replies.drop_first(),
                    stamp,
                );
            }
        },
        StepView::Finish(outcome) => {},
    }
}

/// A request beyond the limit is acknowledged without rows whatever the
/// query is, and the query is not looked at.
pub proof fn lemma_throttled_whatever_the_query(
    backend: &Backend,
    query: Seq<char>,
    count: i64,
    stamp: Seq<char>,
)
    requires
        limiting(backend.config.rate_limit),
        count > backend.config.rate_limit,
    ensures
        backend.resume(PendingView::RateCount { query }, StoreReplyView::Count(count), stamp)
            == acknowledged("rate_limited"@, None, QueryResult::RateLimited, None),
{
}

/// A failure of the store never surfaces: whatever state it is awaited in,
/// the work goes on or ends with rows or none, and where requests are
/// counted, the request is allowed.
pub proof fn lemma_store_failure_is_absorbed(
    backend: &Backend,
    pending: PendingView,
    stamp: Seq<char>,
)
    requires
        backend.awaits(pending),
    ensures
        match pending {
            PendingView::RateCount { query } => backend.resume(
                pending,
                StoreReplyView::Failed,
                stamp,
            ) == backend.dispatch(classification(query, backend.table_names_of())),
            PendingView::Token => backend.resume(pending, StoreReplyView::Failed, stamp)
                == rows_sent(verification_rows(unverified()), "qr_verify"@, None),
            PendingView::Record { table, pk_value } => backend.resume(
                pending,
                StoreReplyView::Failed,
                stamp,
            ) matches StepView::Finish(outcome) && outcome.response.row_count() == 0
                && outcome.response is Rows,
            PendingView::KeyBatch { table, keys } => backend.resume(
                pending,
                StoreReplyView::Failed,
                stamp,
            ) matches StepView::Finish(outcome) && outcome.response.row_count() == 0
                && outcome.response is Rows,
            PendingView::ScanRecord { table, keys, index, rows } => backend.resume(
                pending,
                StoreReplyView::Failed,
                stamp,
            ) == backend.fetch(table, keys, index + 1, rows),
        },
{
}

/// No keys.
pub fn no_keys() -> (keys: Vec<String>)
    ensures
        keys.len() == 0,
        keys.deep_view() == Seq::<Seq<char>>::empty(),
{
    let keys: Vec<String> = Vec::new();
    assert(keys.deep_view() =~= Seq::<Seq<char>>::empty());
    keys
}

/// No rows.
pub fn no_rows() -> (rows: Vec<Vec<String>>)
    ensures
        rows.len() == 0,
        rows.deep_view() == Seq::<Seq<Seq<char>>>::empty(),
{
    let rows: Vec<Vec<String>> = Vec::new();
    assert(rows.deep_view() =~= Seq::<Seq<Seq<char>>>::empty());
    rows
}

/// Ends the work with the rows of `result` for the client.
pub fn send_rows(result: ResultSet, query_type: &'static str, table: Option<String>) -> (step: Step)
    ensures
        step@ == rows_sent(result@, query_type@, table.deep_view()),
{
    let rows = result.rows.len();
    Step::Finish(
        Outcome {
            response: Response::Rows(result),
            log: QueryLog { query_type, table, rows_returned: rows, result: QueryResult::Success },
            reason: None,
        },
    )
}

/// Ends the work with an acknowledgement and no rows.
pub fn acknowledge(
    query_type: &'static str,
    table: Option<String>,
    result: QueryResult,
    reason: Option<&'static str>,
) -> (step: Step)
    ensures
        step@ == acknowledged(
            query_type@,
            table.deep_view(),
            result,
            match reason {
                Some(reason) => Some(reason@),
                None => None,
            },
        ),
{
    Step::Finish(
        Outcome {
            response: Response::Ack,
            log: QueryLog { query_type, table, rows_returned: 0, result },
            reason,
        },
    )
}

} // verus!
