//! The query classifier: from query text to one of a closed set of intents.
//!
//! Classification is a white list. A query is accepted only in one of a few
//! shapes; whatever else it holds, it is rejected, and before any shape is
//! accepted the text is searched for the constructs that are never allowed.
//! A keyword counts wherever it stands as a word of its own, whatever white
//! space or punctuation surrounds it.

use crate::text::{
    begins_with, contains, contains_in, find, find_in, find_standing, find_word, find_word_start,
    fold, folded, has_opened, has_phrase, has_word, holds_opened, holds_phrase, holds_word,
    index_of, leading_word, lowercase_of, position_of, same_chars, skip_whitespace, skip_word,
    starts_with, substring, to_chars, to_lowercase, trim, trim_start, trimmed,
};
use vstd::prelude::*;
use vstd::string::*;

verus! {

/// What a query asks for.
#[derive(Debug, Clone, PartialEq)]
pub enum QueryType {
    /// The server's version is asked for.
    SelectVersion,
    /// The list of tables is asked for.
    ShowTables,
    /// The description of the named table is asked for.
    DescribeTable(String),
    /// The row of `table` whose primary key is `pk_value` is asked for.
    SelectByPk { table: String, pk_value: String },
    /// The rows of `table` are asked for.
    SelectScan { table: String },
    /// The single-use token `token` is to be verified.
    QrVerify { token: String },
    /// A session directive, which has no effect.
    SetOrUse,
    /// The query is not allowed; `reason` says why.
    Rejected { reason: &'static str },
}

/// The mathematical value of a [`QueryType`].
pub ghost enum Intent {
    SelectVersion,
    ShowTables,
    DescribeTable(Seq<char>),
    SelectByPk { table: Seq<char>, pk_value: Seq<char> },
    SelectScan { table: Seq<char> },
    QrVerify { token: Seq<char> },
    SetOrUse,
    Rejected { reason: Seq<char> },
}

impl View for QueryType {
    type V = Intent;

    open spec fn view(&self) -> Intent {
        match self {
            QueryType::SelectVersion => Intent::SelectVersion,
            QueryType::ShowTables => Intent::ShowTables,
            QueryType::DescribeTable(table) => Intent::DescribeTable(table@),
            QueryType::SelectByPk { table, pk_value } => Intent::SelectByPk {
                table: table@,
                pk_value: pk_value@,
            },
            QueryType::SelectScan { table } => Intent::SelectScan { table: table@ },
            QueryType::QrVerify { token } => Intent::QrVerify { token: token@ },
            QueryType::SetOrUse => Intent::SetOrUse,
            QueryType::Rejected { reason } => Intent::Rejected { reason: reason@ },
        }
    }
}

/// A construct that no accepted query may hold.
#[derive(Clone, Copy, Debug, PartialEq, Eq)]
pub enum RejectRule {
    Insert,
    Update,
    Delete,
    Drop,
    Truncate,
    Alter,
    Create,
    And,
    Or,
    In,
    Like,
    Comparison,
    Between,
    Join,
    OrderBy,
    GroupBy,
    Limit,
    Offset,
    Subquery,
    Union,
}

impl RejectRule {
    /// The rules in the order in which they are tried.
    pub open spec fn ordered() -> Seq<RejectRule> {
        seq![
            RejectRule::Insert,
            RejectRule::Update,
            RejectRule::Delete,
            RejectRule::Drop,
            RejectRule::Truncate,
            RejectRule::Alter,
            RejectRule::Create,
            RejectRule::And,
            RejectRule::Or,
            RejectRule::In,
            RejectRule::Like,
            RejectRule::Comparison,
            RejectRule::Between,
            RejectRule::Join,
            RejectRule::OrderBy,
            RejectRule::GroupBy,
            RejectRule::Limit,
            RejectRule::Offset,
            RejectRule::Subquery,
            RejectRule::Union,
        ]
    }

    /// The reason code under which a rejection by this rule is reported.
    pub open spec fn reason_text(self) -> Seq<char> {
        match self {
            RejectRule::Insert => "insert_not_allowed"@,
            RejectRule::Update => "update_not_allowed"@,
            RejectRule::Delete => "delete_not_allowed"@,
            RejectRule::Drop => "drop_not_allowed"@,
            RejectRule::Truncate => "truncate_not_allowed"@,
            RejectRule::Alter => "alter_not_allowed"@,
            RejectRule::Create => "create_not_allowed"@,
            RejectRule::And => "and_not_allowed"@,
            RejectRule::Or => "or_not_allowed"@,
            RejectRule::In => "in_not_allowed"@,
            RejectRule::Like => "like_not_allowed"@,
            RejectRule::Comparison => "comparison_not_allowed"@,
            RejectRule::Between => "between_not_allowed"@,
            RejectRule::Join => "join_not_allowed"@,
            RejectRule::OrderBy => "order_by_not_allowed"@,
            RejectRule::GroupBy => "group_by_not_allowed"@,
            RejectRule::Limit => "limit_not_allowed"@,
            RejectRule::Offset => "offset_not_allowed"@,
            RejectRule::Subquery => "subquery_not_allowed"@,
            RejectRule::Union => "union_not_allowed"@,
        }
    }

    /// Whether the lower-case query text `lower` holds the construct.
    ///
    /// - The statement keywords are looked for at the start of the text.
    /// - The conditions on a `where` clause count in a text that holds
    ///   `where`: the words `and`, `or`, `in`, `like` and `between`, each
    ///   as a word of its own, and a comparison, which is any of `>`, `<`
    ///   and `!=`, with or without blanks around it.
    /// - The others count in any text: the words `join`, `limit`, `offset`
    ///   and `union`, each as a word of its own; `order by` and `group by`
    ///   with any white space between the two words; and a nested select,
    ///   which is an opening parenthesis with `select` behind it.
    ///
    /// A word is a word of its own where on each side the text ends or a
    /// character stands that is no letter, digit or underscore.
    pub open spec fn triggered_by(self, lower: Seq<char>) -> bool {
        match self {
            RejectRule::Insert => starts_with(lower, "insert"@),
            RejectRule::Update => starts_with(lower, "update"@),
            RejectRule::Delete => starts_with(lower, "delete"@),
            RejectRule::Drop => starts_with(lower, "drop"@),
            RejectRule::Truncate => starts_with(lower, "truncate"@),
            RejectRule::Alter => starts_with(lower, "alter"@),
            RejectRule::Create => starts_with(lower, "create"@),
            RejectRule::And => contains(lower, "where"@) && has_word(lower, "and"@),
            RejectRule::Or => contains(lower, "where"@) && has_word(lower, "or"@),
            RejectRule::In => contains(lower, "where"@) && has_word(lower, "in"@),
            RejectRule::Like => contains(lower, "where"@) && has_word(lower, "like"@),
            RejectRule::Comparison => contains(lower, "where"@) && (contains(lower, ">"@)
                || contains(lower, "<"@) || contains(lower, "!="@)),
            RejectRule::Between => contains(lower, "where"@) && has_word(lower, "between"@),
            RejectRule::Join => has_word(lower, "join"@),
            RejectRule::OrderBy => has_phrase(lower, "order"@, "by"@),
            RejectRule::GroupBy => has_phrase(lower, "group"@, "by"@),
            RejectRule::Limit => has_word(lower, "limit"@),
            RejectRule::Offset => has_word(lower, "offset"@),
            RejectRule::Subquery => has_opened(lower, "select"@),
            RejectRule::Union => has_word(lower, "union"@),
        }
    }

    /// The rules in the order in which they are tried.
    pub fn in_order() -> (rules: Vec<RejectRule>)
        ensures
            rules@ == RejectRule::ordered(),
    {
        let rules = vec![
            RejectRule::Insert,
            RejectRule::Update,
            RejectRule::Delete,
            RejectRule::Drop,
            RejectRule::Truncate,
            RejectRule::Alter,
            RejectRule::Create,
            RejectRule::And,
            RejectRule::Or,
            RejectRule::In,
            RejectRule::Like,
            RejectRule::Comparison,
            RejectRule::Between,
            RejectRule::Join,
            RejectRule::OrderBy,
            RejectRule::GroupBy,
            RejectRule::Limit,
            RejectRule::Offset,
            RejectRule::Subquery,
            RejectRule::Union,
        ];
        assert(rules@ =~= RejectRule::ordered());
        rules
    }

    /// The reason code under which a rejection by this rule is reported.
    pub fn reason(self) -> (code: &'static str)
        ensures
            code@ == self.reason_text(),
    {
        match self {
            RejectRule::Insert => "insert_not_allowed",
            RejectRule::Update => "update_not_allowed",
            RejectRule::Delete => "delete_not_allowed",
            RejectRule::Drop => "drop_not_allowed",
            RejectRule::Truncate => "truncate_not_allowed",
            RejectRule::Alter => "alter_not_allowed",
            RejectRule::Create => "create_not_allowed",
            RejectRule::And => "and_not_allowed",
            RejectRule::Or => "or_not_allowed",
            RejectRule::In => "in_not_allowed",
            RejectRule::Like => "like_not_allowed",
            RejectRule::Comparison => "comparison_not_allowed",
            RejectRule::Between => "between_not_allowed",
            RejectRule::Join => "join_not_allowed",
            RejectRule::OrderBy => "order_by_not_allowed",
            RejectRule::GroupBy => "group_by_not_allowed",
            RejectRule::Limit => "limit_not_allowed",
            RejectRule::Offset => "offset_not_allowed",
            RejectRule::Subquery => "subquery_not_allowed",
            RejectRule::Union => "union_not_allowed",
        }
    }

    /// Decides [`RejectRule::triggered_by`], given whether the text holds
    /// the word `where`.
    pub fn applies(self, lower: &[char], has_where: bool) -> (b: bool)
        requires
            has_where == contains(lower@, "where"@),
        ensures
            b == self.triggered_by(lower@),
    {
        match self {
            RejectRule::Insert => has_prefix(lower, "insert"),
            RejectRule::Update => has_prefix(lower, "update"),
            RejectRule::Delete => has_prefix(lower, "delete"),
            RejectRule::Drop => has_prefix(lower, "drop"),
            RejectRule::Truncate => has_prefix(lower, "truncate"),
            RejectRule::Alter => has_prefix(lower, "alter"),
            RejectRule::Create => has_prefix(lower, "create"),
            RejectRule::And => has_where && has_the_word(lower, "and"),
            RejectRule::Or => has_where && has_the_word(lower, "or"),
            RejectRule::In => has_where && has_the_word(lower, "in"),
            RejectRule::Like => has_where && has_the_word(lower, "like"),
            RejectRule::Comparison => has_where && (holds(lower, ">") || holds(lower, "<")
                || holds(lower, "!=")),
            RejectRule::Between => has_where && has_the_word(lower, "between"),
            RejectRule::Join => has_the_word(lower, "join"),
            RejectRule::OrderBy => has_the_phrase(lower, "order", "by"),
            RejectRule::GroupBy => has_the_phrase(lower, "group", "by"),
            RejectRule::Limit => has_the_word(lower, "limit"),
            RejectRule::Offset => has_the_word(lower, "offset"),
            RejectRule::Subquery => has_nested(lower, "select"),
            RejectRule::Union => has_the_word(lower, "union"),
        }
    }
}

/// Whether `text` begins with the characters of `pattern`.
pub fn has_prefix(text: &[char], pattern: &str) -> (b: bool)
    ensures
        b == starts_with(text@, pattern@),
{
    let pattern_chars = to_chars(pattern);
    begins_with(text, pattern_chars.as_slice())
}

/// Whether the characters of `pattern` stand somewhere in `text`.
pub fn holds(text: &[char], pattern: &str) -> (b: bool)
    ensures
        b == contains(text@, pattern@),
{
    let pattern_chars = to_chars(pattern);
    contains_in(text, pattern_chars.as_slice())
}

/// Whether the characters of `word` stand somewhere in `text` as a word of
/// their own.
pub fn has_the_word(text: &[char], word: &str) -> (b: bool)
    ensures
        b == has_word(text@, word@),
{
    let word_chars = to_chars(word);
    holds_word(text, word_chars.as_slice())
}

/// Whether the words `first` and `second` stand somewhere in `text` as
/// words of their own with white space between them.
pub fn has_the_phrase(text: &[char], first: &str, second: &str) -> (b: bool)
    ensures
        b == has_phrase(text@, first@, second@),
{
    let first_chars = to_chars(first);
    let second_chars = to_chars(second);
    holds_phrase(text, first_chars.as_slice(), second_chars.as_slice())
}

/// Whether somewhere in `text` an opening parenthesis stands with the
/// characters of `word` behind it, after optional white space.
pub fn has_nested(text: &[char], word: &str) -> (b: bool)
    ensures
        b == has_opened(text@, word@),
{
    let word_chars = to_chars(word);
    holds_opened(text, word_chars.as_slice())
}

/// The first rule, at or after index `from` of the order, that `lower`
/// triggers.
pub open spec fn first_triggered(lower: Seq<char>, from: int) -> Option<RejectRule>
    decreases RejectRule::ordered().len() - from,
{
    let rules = RejectRule::ordered();
    if from < 0 || from >= rules.len() {
        None
    } else if rules[from].triggered_by(lower) {
        Some(rules[from])
    } else {
        first_triggered(lower, from + 1)
    }
}

/// The rule that rejects the lower-case query text `lower`, if one does: the
/// first in the order that the text triggers.
pub open spec fn rejection(lower: Seq<char>) -> Option<RejectRule> {
    first_triggered(lower, 0)
}

/// The rule that rejects the lower-case query text `lower`, if one does.
pub fn find_rejection(lower: &[char]) -> (found: Option<RejectRule>)
    ensures
        found == rejection(lower@),
{
    let rules = RejectRule::in_order();
    let has_where = holds(lower, "where");
    let mut i: usize = 0;
    while i < rules.len()
        invariant
            i <= rules.len(),
            rules@ == RejectRule::ordered(),
            has_where == contains(lower@, "where"@),
            rejection(lower@) == first_triggered(lower@, i as int),
        decreases rules.len() - i,
    {
        let rule = rules[i];
        if rule.applies(lower, has_where) {
            return Some(rule);
        }
        i += 1;
    }
    None
}

/// The reason code under which the lower-case query text `query_lower` is
/// rejected, if it holds a construct that is never allowed.
pub fn check_rejected_patterns(query_lower: &str) -> (reason: Option<&'static str>)
    ensures
        match reason {
            Some(code) => rejection(query_lower@) matches Some(rule) && code@
                == rule.reason_text(),
            None => rejection(query_lower@) is None,
        },
{
    let lower = to_chars(query_lower);
    match find_rejection(lower.as_slice()) {
        Some(rule) => Some(rule.reason()),
        None => None,
    }
}

/// The reason code of a query that no rule rejects and no shape accepts.
pub open spec fn unknown_query_text() -> Seq<char> {
    "unknown_query"@
}

/// Reveals the characters of every reason code.
proof fn reveal_reason_codes()
    ensures
        forall|rule: RejectRule| #![trigger rule.reason_text()] rule.reason_text().len() >= 14,
        unknown_query_text().len() == 13,
        forall|a: RejectRule, b: RejectRule|
            #![trigger a.reason_text(), b.reason_text()]
            a.reason_text().len() == b.reason_text().len() && a.reason_text()[0]
                == b.reason_text()[0] ==> a == b,
{
    reveal_strlit("insert_not_allowed");
    reveal_strlit("update_not_allowed");
    reveal_strlit("delete_not_allowed");
    reveal_strlit("drop_not_allowed");
    reveal_strlit("truncate_not_allowed");
    reveal_strlit("alter_not_allowed");
    reveal_strlit("create_not_allowed");
    reveal_strlit("and_not_allowed");
    reveal_strlit("or_not_allowed");
    reveal_strlit("in_not_allowed");
    reveal_strlit("like_not_allowed");
    reveal_strlit("comparison_not_allowed");
    reveal_strlit("between_not_allowed");
    reveal_strlit("join_not_allowed");
    reveal_strlit("order_by_not_allowed");
    reveal_strlit("group_by_not_allowed");
    reveal_strlit("limit_not_allowed");
    reveal_strlit("offset_not_allowed");
    reveal_strlit("subquery_not_allowed");
    reveal_strlit("union_not_allowed");
    reveal_strlit("unknown_query");
}

/// Each disallowed construct is reported under a reason code of its own: two
/// rules with the same code are the same rule, and no rule reports the code
/// of the catch-all.
pub proof fn lemma_reason_codes_distinct(a: RejectRule, b: RejectRule)
    ensures
        a.reason_text() == b.reason_text() ==> a == b,
        a.reason_text() != unknown_query_text(),
{
    reveal_reason_codes();
}

/// Whether `c` is a single or a double quote.
pub open spec fn is_quote(c: char) -> bool {
    c == '\'' || c == '"'
}

/// What stands between the quote that opens `s` and the next quote of the
/// same kind. No escape is interpreted.
pub open spec fn quoted_value(s: Seq<char>) -> Option<Seq<char>> {
    if s.len() > 0 && is_quote(s[0]) {
        match index_of(s.skip(1), s[0]) {
            Some(end) => Some(s.subrange(1, 1 + end)),
            None => None,
        }
    } else {
        None
    }
}

/// The bounds in `text` of the quoted value that opens at index `from`.
pub fn locate_quoted(text: &[char], from: usize) -> (bounds: Option<(usize, usize)>)
    requires
        from <= text.len(),
    ensures
        match bounds {
            Some((start, end)) => {
                &&& from < start <= end < text.len()
                &&& quoted_value(text@.skip(from as int)) == Some(
                    text@.subrange(start as int, end as int),
                )
            },
            None => quoted_value(text@.skip(from as int)) is None,
        },
{
    if from >= text.len() {
        return None;
    }
    let quote = text[from];
    if quote != '\'' && quote != '"' {
        return None;
    }
    let ghost s = text@.skip(from as int);
    assert(s.skip(1) =~= text@.skip(from + 1));
    match position_of(text, quote, from + 1) {
        Some(end) => {
            assert(s.subrange(1, 1 + (end - (from + 1))) =~= text@.subrange(
                from + 1,
                end as int,
            ));
            Some((from + 1, end))
        },
        None => None,
    }
}

/// The token of a token-verification call.
///
/// The lower-case text must name the function. The call itself, the name in
/// whatever case of its letters and directly behind it an opening
/// parenthesis, is looked for in the text as it was written, and the token
/// is the quoted value that follows it there, letter for letter.
pub open spec fn qr_verify_token(lower: Seq<char>, text: Seq<char>) -> Option<Seq<char>> {
    if !contains(lower, "qr_verify"@) {
        None
    } else {
        match find(folded(text), "qr_verify("@) {
            Some(call) => quoted_value(text.skip(call + "qr_verify("@.len())),
            None => None,
        }
    }
}

/// The bounds in `text` of the token of a token-verification call.
pub fn locate_qr_token(lower: &[char], text: &[char]) -> (bounds: Option<(usize, usize)>)
    ensures
        match bounds {
            Some((start, end)) => {
                &&& start <= end <= text.len()
                &&& qr_verify_token(lower@, text@) == Some(
                    text@.subrange(start as int, end as int),
                )
            },
            None => qr_verify_token(lower@, text@) is None,
        },
{
    if !holds(lower, "qr_verify") {
        return None;
    }
    let call = to_chars("qr_verify(");
    let plain = fold(text);
    match find_in(plain.as_slice(), call.as_slice()) {
        Some(at) => locate_quoted(text, at + call.len()),
        None => None,
    }
}

/// The token of the token-verification call in a query, given the query as
/// it was written and its lower-case form.
pub fn parse_qr_verify(query_lower: &str, query_text: &str) -> (token: Option<String>)
    ensures
        token.deep_view() == qr_verify_token(query_lower@, query_text@),
{
    let lower = to_chars(query_lower);
    let text = to_chars(query_text);
    match locate_qr_token(lower.as_slice(), text.as_slice()) {
        Some((start, end)) => Some(substring(query_text, start, end)),
        None => None,
    }
}

/// The value that `s` assigns: `s` is what follows a field's name.
///
/// After optional white space an equals sign must stand, and after it and
/// more optional white space the value: quoted, or else the characters up to
/// the next white space. An empty value counts as none.
pub open spec fn assigned_value(s: Seq<char>) -> Option<Seq<char>> {
    let after_name = trim_start(s);
    if after_name.len() == 0 || after_name[0] != '=' {
        None
    } else {
        let after_sign = trim_start(after_name.skip(1));
        let value = if after_sign.len() > 0 && is_quote(after_sign[0]) {
            quoted_value(after_sign)
        } else {
            Some(after_sign.take(leading_word(after_sign) as int))
        };
        if value is Some && value.unwrap().len() > 0 {
            value
        } else {
            None
        }
    }
}

/// The bounds in `text` of the value that the text from index `from` on
/// assigns.
pub fn locate_assigned(text: &[char], from: usize) -> (bounds: Option<(usize, usize)>)
    requires
        from <= text.len(),
    ensures
        match bounds {
            Some((start, end)) => {
                &&& start < end <= text.len()
                &&& assigned_value(text@.skip(from as int)) == Some(
                    text@.subrange(start as int, end as int),
                )
            },
            None => assigned_value(text@.skip(from as int)) is None,
        },
{
    let sign = skip_whitespace(text, from);
    let ghost after_name = text@.skip(sign as int);
    if sign >= text.len() || text[sign] != '=' {
        return None;
    }
    assert(after_name.skip(1) =~= text@.skip(sign + 1));
    let value = skip_whitespace(text, sign + 1);
    let ghost after_sign = text@.skip(value as int);
    if value < text.len() && (text[value] == '\'' || text[value] == '"') {
        match locate_quoted(text, value) {
            Some((start, end)) => if start < end {
                Some((start, end))
            } else {
                None
            },
            None => None,
        }
    } else {
        let end = skip_word(text, value);
        assert(after_sign.take(leading_word(after_sign) as int) =~= text@.subrange(
            value as int,
            end as int,
        ));
        if value < end {
            Some((value, end))
        } else {
            None
        }
    }
}

/// Where the clause of a query's `where` begins: behind the first `where`
/// that stands in the query as a word of its own, in whatever case of its
/// letters.
pub open spec fn clause_start(query: Seq<char>) -> Option<int> {
    match find_word(folded(query), "where"@) {
        Some(keyword) => Some(keyword + "where"@.len()),
        None => None,
    }
}

/// The value that `clause` assigns to the field `name`.
///
/// The name is looked for in the clause in whatever case of its letters,
/// and counts only where it begins a word: where the clause begins, or a
/// character that is no letter, digit or underscore stands before it. The
/// first such place decides, and the value is what the clause assigns
/// directly behind the name there.
pub open spec fn named_value(clause: Seq<char>, name: Seq<char>) -> Option<Seq<char>> {
    match find_word_start(folded(clause), folded(name)) {
        Some(at) => assigned_value(clause.skip(at + name.len())),
        None => None,
    }
}

/// The value that the `where` clause of `query` assigns to the field
/// `pk_field`.
pub open spec fn where_pk_value(query: Seq<char>, pk_field: Seq<char>) -> Option<Seq<char>> {
    match clause_start(query) {
        Some(start) => named_value(query.skip(start), pk_field),
        None => None,
    }
}

/// Where the clause of the `where` of `query` begins.
pub fn find_clause(query: &str) -> (start: Option<usize>)
    ensures
        match start {
            Some(at) => at <= query@.len() && clause_start(query@) == Some(at as int),
            None => clause_start(query@) is None,
        },
{
    let text = to_chars(query);
    let plain = fold(text.as_slice());
    let word = to_chars("where");
    match find_standing(plain.as_slice(), word.as_slice(), true) {
        Some(keyword) => Some(keyword + word.len()),
        None => None,
    }
}

/// The value that `clause` assigns to the field `name`.
pub fn read_named_value(clause: &str, name: &str) -> (value: Option<String>)
    ensures
        value.deep_view() == named_value(clause@, name@),
{
    let text = to_chars(clause);
    let plain = fold(text.as_slice());
    let wanted = to_chars(name);
    let plain_name = fold(wanted.as_slice());
    let at = match find_standing(plain.as_slice(), plain_name.as_slice(), false) {
        Some(at) => at,
        None => { return None; },
    };
    match locate_assigned(text.as_slice(), at + wanted.len()) {
        Some((start, end)) => Some(substring(clause, start, end)),
        None => None,
    }
}

/// The value that the `where` clause of `query` assigns to the field
/// `pk_field`, if the clause has that simple form.
pub fn parse_where_pk(query: &str, pk_field: &str) -> (value: Option<String>)
    ensures
        value.deep_view() == where_pk_value(query@, pk_field@),
{
    let start = match find_clause(query) {
        Some(at) => at,
        None => { return None; },
    };
    let clause = query.substring_char(start, query.unicode_len());
    assert(clause@ =~= query@.skip(start as int));
    read_named_value(clause, pk_field)
}

/// Whether the lower-case query text `lower` asks for the description of
/// `table`.
pub open spec fn describes(lower: Seq<char>, table: Seq<char>) -> bool {
    lower == "describe "@ + table || lower == "desc "@ + table
}

/// The index of the first table, at or after index `from`, whose description
/// `lower` asks for.
pub open spec fn first_described(lower: Seq<char>, tables: Seq<Seq<char>>, from: int) -> Option<
    int,
>
    decreases tables.len() - from,
{
    if from < 0 || from >= tables.len() {
        None
    } else if describes(lower, tables[from]) {
        Some(from)
    } else {
        first_described(lower, tables, from + 1)
    }
}

/// The index of the first table, at or after index `from`, whose name stands
/// in `lower`.
pub open spec fn first_mentioned(lower: Seq<char>, tables: Seq<Seq<char>>, from: int) -> Option<
    int,
>
    decreases tables.len() - from,
{
    if from < 0 || from >= tables.len() {
        None
    } else if contains(lower, tables[from]) {
        Some(from)
    } else {
        first_mentioned(lower, tables, from + 1)
    }
}

/// The intent of a `select` that no rule rejects: a look-up where the first
/// table that the text mentions is given a primary-key value, a scan where
/// the text has no `where` at all, and a rejection otherwise.
pub open spec fn select_intent(
    lower: Seq<char>,
    pk_value: Option<Seq<char>>,
    tables: Seq<Seq<char>>,
) -> Intent {
    match first_mentioned(lower, tables, 0) {
        Some(index) => match pk_value {
            Some(value) => Intent::SelectByPk { table: tables[index], pk_value: value },
            None => if !contains(lower, "where"@) {
                Intent::SelectScan { table: tables[index] }
            } else {
                Intent::Rejected { reason: unknown_query_text() }
            },
        },
        None => Intent::Rejected { reason: unknown_query_text() },
    }
}

/// The intent of a query, given the query without the white space around it
/// (`trimmed`), the lower-case form of that (`lower`), the value that its
/// `where` clause assigns to the primary key, if any (`pk_value`), and the
/// names of the known tables. The shapes are tried in this order, and the
/// first that fits decides:
///
/// - a session directive: the text begins with `set ` or `use `;
/// - the version probe: the text holds `@@version`;
/// - the list of tables: the text is `show tables`;
/// - the description of a known table: the text is `describe` or `desc`,
///   a space, and the table's name;
/// - a token verification: the text holds a call of `qr_verify` with a
///   quoted argument;
/// - a rejection by one of the rules of [`RejectRule`];
/// - a `select` on a known table: the text begins with `select`;
/// - the rejection of everything else.
///
/// The order matters: a later shape is looked for only in a text that no
/// earlier one fits, so that nothing is accepted as a look-up or a scan
/// that a rule rejects.
pub open spec fn intent(
    trimmed: Seq<char>,
    lower: Seq<char>,
    pk_value: Option<Seq<char>>,
    tables: Seq<Seq<char>>,
) -> Intent {
    if starts_with(lower, "set "@) || starts_with(lower, "use "@) {
        Intent::SetOrUse
    } else if contains(lower, "@@version"@) {
        Intent::SelectVersion
    } else if lower == "show tables"@ {
        Intent::ShowTables
    } else if first_described(lower, tables, 0) is Some {
        Intent::DescribeTable(tables[first_described(lower, tables, 0).unwrap()])
    } else if qr_verify_token(lower, trimmed) is Some {
        Intent::QrVerify { token: qr_verify_token(lower, trimmed).unwrap() }
    } else if rejection(lower) is Some {
        Intent::Rejected { reason: rejection(lower).unwrap().reason_text() }
    } else if starts_with(lower, "select"@) {
        select_intent(lower, pk_value, tables)
    } else {
        Intent::Rejected { reason: unknown_query_text() }
    }
}

/// The intent of the query text `query` among the known tables `tables`.
///
/// White space around the query is ignored, and the shapes are matched on
/// the lower-case form of the text. The value of the primary key, which is
/// the field `id`, is read from the `where` clause of the text itself.
pub open spec fn classification(query: Seq<char>, tables: Seq<Seq<char>>) -> Intent {
    let trimmed = trim(query);
    intent(trimmed, lowercase_of(trimmed), where_pk_value(trimmed, "id"@), tables)
}

/// Whether the lower-case query text `lower` asks for the description of
/// `table`.
pub fn asks_to_describe(lower: &[char], table: &str) -> (b: bool)
    ensures
        b == describes(lower@, table@),
{
    let mut long = to_chars("describe ");
    let mut short = to_chars("desc ");
    let mut name = to_chars(table);
    let mut name_again = to_chars(table);
    long.append(&mut name);
    short.append(&mut name_again);
    same_chars(lower, long.as_slice()) || same_chars(lower, short.as_slice())
}

/// The index of the first known table whose description `lower` asks for.
pub fn find_described(lower: &[char], known_tables: &[&str]) -> (found: Option<usize>)
    ensures
        match found {
            Some(index) => index < known_tables.len() && first_described(
                lower@,
                known_tables.deep_view(),
                0,
            ) == Some(index as int),
            None => first_described(lower@, known_tables.deep_view(), 0) is None,
        },
{
    let ghost tables = known_tables.deep_view();
    let mut i: usize = 0;
    while i < known_tables.len()
        invariant
            i <= known_tables.len(),
            tables == known_tables.deep_view(),
            first_described(lower@, tables, 0) == first_described(lower@, tables, i as int),
        decreases known_tables.len() - i,
    {
        if asks_to_describe(lower, known_tables[i]) {
            return Some(i);
        }
        i += 1;
    }
    None
}

/// The index of the first known table whose name stands in `lower`.
pub fn find_mentioned(lower: &[char], known_tables: &[&str]) -> (found: Option<usize>)
    ensures
        match found {
            Some(index) => index < known_tables.len() && first_mentioned(
                lower@,
                known_tables.deep_view(),
                0,
            ) == Some(index as int),
            None => first_mentioned(lower@, known_tables.deep_view(), 0) is None,
        },
{
    let ghost tables = known_tables.deep_view();
    let mut i: usize = 0;
    while i < known_tables.len()
        invariant
            i <= known_tables.len(),
            tables == known_tables.deep_view(),
            first_mentioned(lower@, tables, 0) == first_mentioned(lower@, tables, i as int),
        decreases known_tables.len() - i,
    {
        if holds(lower, known_tables[i]) {
            return Some(i);
        }
        i += 1;
    }
    None
}

/// The rejection of a query that no rule rejects and no shape accepts.
pub fn unknown_query() -> (rejected: QueryType)
    ensures
        rejected@ == (Intent::Rejected { reason: unknown_query_text() }),
{
    QueryType::Rejected { reason: "unknown_query" }
}

/// Classifies a query from its parts: the query without the white space
/// around it, the lower-case form of that, the value that its `where` clause
/// assigns to the primary key, and the names of the known tables.
pub fn classify(
    trimmed: &str,
    lower: &str,
    pk_value: Option<String>,
    known_tables: &[&str],
) -> (query_type: QueryType)
    ensures
        query_type@ == intent(trimmed@, lower@, pk_value.deep_view(), known_tables.deep_view()),
{
    let text = to_chars(trimmed);
    let low = to_chars(lower);
    let low = low.as_slice();
    if has_prefix(low, "set ") || has_prefix(low, "use ") {
        return QueryType::SetOrUse;
    }
    if holds(low, "@@version") {
        return QueryType::SelectVersion;
    }
    let show_tables = to_chars("show tables");
    if same_chars(low, show_tables.as_slice()) {
        return QueryType::ShowTables;
    }
    if let Some(index) = find_described(low, known_tables) {
        return QueryType::DescribeTable(known_tables[index].to_owned());
    }
    if let Some((start, end)) = locate_qr_token(low, text.as_slice()) {
        return QueryType::QrVerify { token: substring(trimmed, start, end) };
    }
    if let Some(rule) = find_rejection(low) {
        return QueryType::Rejected { reason: rule.reason() };
    }
    if has_prefix(low, "select") {
        if let Some(index) = find_mentioned(low, known_tables) {
            if let Some(value) = pk_value {
                return QueryType::SelectByPk {
                    table: known_tables[index].to_owned(),
                    pk_value: value,
                };
            }
            if !holds(low, "where") {
                return QueryType::SelectScan { table: known_tables[index].to_owned() };
            }
        }
    }
    unknown_query()
}

/// Classifies the query text `query` among the tables `known_tables`.
///
/// Every text has exactly one intent, which depends on nothing but the text
/// and the table names.
pub fn parse_query(query: &str, known_tables: &[&str]) -> (query_type: QueryType)
    ensures
        query_type@ == classification(query@, known_tables.deep_view()),
{
    let text = trimmed(query);
    let lower = to_lowercase(text);
    let pk_value = parse_where_pk(text, "id");
    classify(text, lower.as_str(), pk_value, known_tables)
}

/// A query whose lower-case text holds `@@version`, and is no session
/// directive, is a version probe, whatever the tables and the rest of the
/// text are.
pub proof fn lemma_version_probe(
    trimmed: Seq<char>,
    lower: Seq<char>,
    pk_value: Option<Seq<char>>,
    tables: Seq<Seq<char>>,
)
    requires
        !starts_with(lower, "set "@),
        !starts_with(lower, "use "@),
        contains(lower, "@@version"@),
    ensures
        intent(trimmed, lower, pk_value, tables) == Intent::SelectVersion,
{
}

/// No query is accepted as a look-up or a scan while its text holds a
/// construct that a rule rejects, and the table of an accepted query is one
/// of the known tables.
pub proof fn lemma_accepted_select(
    trimmed: Seq<char>,
    lower: Seq<char>,
    pk_value: Option<Seq<char>>,
    tables: Seq<Seq<char>>,
)
    ensures
        match intent(trimmed, lower, pk_value, tables) {
            Intent::SelectByPk { table, pk_value: value } => {
                &&& rejection(lower) is None
                &&& starts_with(lower, "select"@)
                &&& tables.contains(table)
                &&& pk_value == Some(value)
            },
            Intent::SelectScan { table } => {
                &&& rejection(lower) is None
                &&& starts_with(lower, "select"@)
                &&& tables.contains(table)
                &&& !contains(lower, "where"@)
            },
            Intent::DescribeTable(table) => tables.contains(table),
            _ => true,
        },
{
    lemma_first_described(lower, tables, 0);
    lemma_first_mentioned(lower, tables, 0);
}

/// What `first_described` finds is the index of a table.
pub proof fn lemma_first_described(lower: Seq<char>, tables: Seq<Seq<char>>, from: int)
    requires
        0 <= from,
    ensures
        first_described(lower, tables, from) matches Some(index) ==> from <= index < tables.len()
            && describes(lower, tables[index]),
    decreases tables.len() - from,
{
    if from < tables.len() && !describes(lower, tables[from]) {
        lemma_first_described(lower, tables, from + 1);
    }
}

/// What `first_mentioned` finds is the index of a table.
pub proof fn lemma_first_mentioned(lower: Seq<char>, tables: Seq<Seq<char>>, from: int)
    requires
        0 <= from,
    ensures
        first_mentioned(lower, tables, from) matches Some(index) ==> from <= index < tables.len()
            && contains(lower, tables[index]),
    decreases tables.len() - from,
{
    if from < tables.len() && !contains(lower, tables[from]) {
        lemma_first_mentioned(lower, tables, from + 1);
    }
}

} // verus!
