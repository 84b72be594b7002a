//! The token verifier: single-use tokens and the outcome of verifying one.
//!
//! A token is stored under a key of its own and is taken out of the store
//! by the attempt that verifies it, so that no second attempt finds it. The
//! verifier reads no clock: its caller hands it the stamp of the present
//! instant, in the one format of stamps.

use crate::text::to_chars;
use vstd::prelude::*;
use vstd::string::*;

verus! {

/// What is stored for an issued token.
#[derive(Clone, Debug)]
pub struct AuthToken {
    pub user_id: String,
    pub facility: String,
    /// Further data of the issuer, as text; the verifier hands it on as it is.
    pub data: Option<String>,
}

/// The mathematical value of an [`AuthToken`].
pub ghost struct AuthTokenView {
    pub user_id: Seq<char>,
    pub facility: Seq<char>,
    pub data: Option<Seq<char>>,
}

impl View for AuthToken {
    type V = AuthTokenView;

    open spec fn view(&self) -> AuthTokenView {
        AuthTokenView {
            user_id: self.user_id@,
            facility: self.facility@,
            data: self.data.deep_view(),
        }
    }
}

impl DeepView for AuthToken {
    type V = AuthTokenView;

    open spec fn deep_view(&self) -> AuthTokenView {
        self@
    }
}

/// The outcome of verifying a token.
#[derive(Clone, Debug)]
pub struct QrVerifyResult {
    pub verified: bool,
    pub user_id: Option<String>,
    pub facility: Option<String>,
    pub verified_at: Option<String>,
    pub data: Option<String>,
}

/// The mathematical value of a [`QrVerifyResult`].
pub ghost struct QrVerifyResultView {
    pub verified: bool,
    pub user_id: Option<Seq<char>>,
    pub facility: Option<Seq<char>>,
    pub verified_at: Option<Seq<char>>,
    pub data: Option<Seq<char>>,
}

impl View for QrVerifyResult {
    type V = QrVerifyResultView;

    open spec fn view(&self) -> QrVerifyResultView {
        QrVerifyResultView {
            verified: self.verified,
            user_id: self.user_id.deep_view(),
            facility: self.facility.deep_view(),
            verified_at: self.verified_at.deep_view(),
            data: self.data.deep_view(),
        }
    }
}

/// The outcome for a token that was not found: not verified, and every
/// other field empty.
pub open spec fn unverified() -> QrVerifyResultView {
    QrVerifyResultView {
        verified: false,
        user_id: None,
        facility: None,
        verified_at: None,
        data: None,
    }
}

/// The outcome for the token `token`, verified at the instant that `stamp`
/// names: the token's user, facility and data, and the stamp.
pub open spec fn verified_at(token: AuthTokenView, stamp: Seq<char>) -> QrVerifyResultView {
    QrVerifyResultView {
        verified: true,
        user_id: Some(token.user_id),
        facility: Some(token.facility),
        verified_at: Some(stamp),
        data: token.data,
    }
}

/// Whether `c` is a decimal digit.
pub open spec fn is_digit(c: char) -> bool {
    '0' <= c <= '9'
}

/// Whether the character `c` fits at index `i` of a stamp: a hyphen after
/// the year and after the month, a blank after the day, a colon after the
/// hour and after the minute, and a digit everywhere else.
pub open spec fn fits_stamp(i: int, c: char) -> bool {
    if i == 4 || i == 7 {
        c == '-'
    } else if i == 10 {
        c == ' '
    } else if i == 13 || i == 16 {
        c == ':'
    } else {
        is_digit(c)
    }
}

/// Whether `s` names an instant in the one format of stamps, which sorts
/// as the instants do: `YYYY-MM-DD HH:MM:SS`, nineteen characters.
pub open spec fn is_timestamp(s: Seq<char>) -> bool {
    &&& s.len() == 19
    &&& forall|i: int| 0 <= i < 19 ==> fits_stamp(i, #[trigger] s[i])
}

/// Decides [`is_timestamp`].
pub fn is_timestamp_text(stamp: &str) -> (b: bool)
    ensures
        b == is_timestamp(stamp@),
{
    let chars = to_chars(stamp);
    if chars.len() != 19 {
        return false;
    }
    let mut i: usize = 0;
    while i < 19
        invariant
            i <= 19,
            chars.len() == 19,
            chars@ == stamp@,
            forall|j: int| 0 <= j < i ==> fits_stamp(j, #[trigger] chars@[j]),
        decreases 19 - i,
    {
        let c = chars[i];
        let fits = if i == 4 || i == 7 {
            c == '-'
        } else if i == 10 {
            c == ' '
        } else if i == 13 || i == 16 {
            c == ':'
        } else {
            '0' <= c && c <= '9'
        };
        if !fits {
            return false;
        }
        i += 1;
    }
    true
}

impl QrVerifyResult {
    /// The outcome for a token that was not found.
    pub fn not_found() -> (result: QrVerifyResult)
        ensures
            result@ == unverified(),
    {
        QrVerifyResult {
            verified: false,
            user_id: None,
            facility: None,
            verified_at: None,
            data: None,
        }
    }

    /// The outcome for the token `token`, verified at the instant that
    /// `stamp` names. The stamp is that of the verification, not one that
    /// the token carries.
    pub fn from_token(token: AuthToken, stamp: String) -> (result: QrVerifyResult)
        requires
            is_timestamp(stamp@),
        ensures
            result@ == verified_at(token@, stamp@),
    {
        QrVerifyResult {
            verified: true,
            user_id: Some(token.user_id),
            facility: Some(token.facility),
            verified_at: Some(stamp),
            data: token.data,
        }
    }
}

/// The key under which the token `token` is stored.
pub open spec fn auth_key_of(token: Seq<char>) -> Seq<char> {
    "auth:"@ + token
}

/// The key under which the token `token` is stored.
pub fn auth_key(token: &str) -> (key: String)
    ensures
        key@ == auth_key_of(token@),
{
    "auth:".to_owned().concat(token)
}

/// The outcome of an attempt that was handed `payload`, where the attempt
/// is stamped with `stamp`.
pub open spec fn outcome(payload: Option<AuthTokenView>, stamp: Seq<char>) -> QrVerifyResultView {
    match payload {
        Some(token) => verified_at(token, stamp),
        None => unverified(),
    }
}

/// The outcome of an attempt to verify a token, given what the store handed
/// out for the token's key (`None` where it held nothing, or nothing that
/// reads as a token) and the stamp of the present instant. Whether the
/// token was never issued, was taken before or has expired makes no
/// difference.
pub fn verify_token(payload: Option<AuthToken>, stamp: String) -> (result: QrVerifyResult)
    requires
        payload is Some ==> is_timestamp(stamp@),
    ensures
        result@ == outcome(payload.deep_view(), stamp@),
{
    match payload {
        Some(token) => QrVerifyResult::from_token(token, stamp),
        None => QrVerifyResult::not_found(),
    }
}

/// The names and types of the columns in which an outcome is reported.
pub open spec fn qr_verify_column_names() -> Seq<(Seq<char>, Seq<char>)> {
    seq![
        ("verified"@, "tinyint"@),
        ("user_id"@, "varchar(255)"@),
        ("facility"@, "varchar(255)"@),
        ("verified_at"@, "datetime"@),
        ("data"@, "text"@),
    ]
}

/// The names and types of the columns in which an outcome is reported.
pub fn qr_verify_columns() -> (columns: Vec<(&'static str, &'static str)>)
    ensures
        columns.deep_view() == qr_verify_column_names(),
{
    let mut columns: Vec<(&'static str, &'static str)> = Vec::new();
    columns.push(("verified", "tinyint"));
    columns.push(("user_id", "varchar(255)"));
    columns.push(("facility", "varchar(255)"));
    columns.push(("verified_at", "datetime"));
    columns.push(("data", "text"));
    assert(columns.deep_view() =~= qr_verify_column_names());
    columns
}

/// The tokens that the store holds, each under its key.
pub type TokenStore = Map<Seq<char>, AuthTokenView>;

/// What the store's get-and-delete hands out for `key`.
pub open spec fn taken(store: TokenStore, key: Seq<char>) -> Option<AuthTokenView> {
    if store.dom().contains(key) {
        Some(store[key])
    } else {
        None
    }
}

/// The store after a get-and-delete of `key`.
pub open spec fn after_take(store: TokenStore, key: Seq<char>) -> TokenStore {
    store.remove(key)
}

/// Of two attempts to verify one token, exactly one is verified where the
/// token is in the store, and none where it is not: the store runs each
/// get-and-delete as one step, so one attempt comes first and leaves nothing
/// for the other.
pub proof fn lemma_token_verified_once(
    store: TokenStore,
    token: Seq<char>,
    first_stamp: Seq<char>,
    second_stamp: Seq<char>,
)
    ensures
        ({
            let key = auth_key_of(token);
            let first = outcome(taken(store, key), first_stamp);
            let second = outcome(taken(after_take(store, key), key), second_stamp);
            &&& first.verified == store.dom().contains(key)
            &&& second == unverified()
        }),
{
}

} // verus!
