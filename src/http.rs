//! Form-encoded request bodies and the retry policy for transient server errors.
use vstd::prelude::*;
use vstd::utf8::encode_utf8;
use vstd::string::StringSliceAdditionalSpecFns;
use crate::errors::GmailnatorError;

verus! {

/// The most attempts that one query makes.
pub const QUERY_MAX_TRY: u32 = 2;

/// The status of an internal server error: the one status that is worth retrying.
pub const INTERNAL_SERVER_ERROR: u16 = 500;

/// Whether form encoding keeps the byte `b` as it is.
pub open spec fn byte_unchanged(b: u8) -> bool {
    b == 42 || b == 45 || b == 46 || (48 <= b <= 57) || (65 <= b <= 90) || b == 95 || (97 <= b
        <= 122)
}

/// The upper-case hexadecimal digit for `d`.
pub open spec fn hex_digit(d: u8) -> char {
    if d < 10 {
        ((d + 48) as u8) as char
    } else {
        ((d + 55) as u8) as char
    }
}

/// What form encoding writes for the byte `b`.
pub open spec fn encoded_byte(b: u8) -> Seq<char> {
    if byte_unchanged(b) {
        seq![b as char]
    } else if b == 32 {
        seq!['+']
    } else {
        seq!['%', hex_digit(b / 16), hex_digit(b % 16)]
    }
}

/// The `application/x-www-form-urlencoded` form of a byte string.
pub open spec fn form_encoded(bytes: Seq<u8>) -> Seq<char>
    decreases bytes.len(),
{
    if bytes.len() == 0 {
        seq![]
    } else {
        encoded_byte(bytes[0]) + form_encoded(bytes.drop_first())
    }
}

/// The form-encoded value of a string: its UTF-8 bytes, encoded.
pub open spec fn encoded_value(value: Seq<char>) -> Seq<char> {
    form_encoded(encode_utf8(value))
}

/// Relies on `url::form_urlencoded::byte_serialize`, which keeps ASCII letters,
/// digits and `*-._`, writes a space as `+` and any other byte as `%XX`.
#[verifier::external_body]
pub(crate) fn url_encode(s: &str) -> (r: String)
    ensures
        r@ == form_encoded(s.spec_bytes()),
{
    url::form_urlencoded::byte_serialize(s.as_bytes()).collect()
}

/// `query` with the entry `key=value` added, `&`-separated from what came before.
pub open spec fn with_entry(query: Seq<char>, key: Seq<char>, value: Seq<char>) -> Seq<char> {
    let sep = if query.len() == 0 {
        Seq::<char>::empty()
    } else {
        seq!['&']
    };
    query + sep + key + seq!['='] + encoded_value(value)
}

/// The query string holding `entries` in order.
pub open spec fn query_of(entries: Seq<(Seq<char>, Seq<char>)>) -> Seq<char>
    decreases entries.len(),
{
    if entries.len() == 0 {
        Seq::empty()
    } else {
        let last = entries.last();
        with_entry(query_of(entries.drop_last()), last.0, last.1)
    }
}

/// Adding an entry to a query appends it to the query string.
pub proof fn lemma_query_push(entries: Seq<(Seq<char>, Seq<char>)>, key: Seq<char>, value: Seq<char>)
    ensures
        query_of(entries.push((key, value))) == with_entry(query_of(entries), key, value),
{
    assert(entries.push((key, value)).drop_last() =~= entries);
}

/// A form-encoded query string under construction.
pub struct UrlQuery {
    query_string: String,
}

impl View for UrlQuery {
    type V = Seq<char>;

    closed spec fn view(&self) -> Seq<char> {
        self.query_string@
    }
}

impl UrlQuery {
    /// An empty query.
    pub fn new() -> (r: Self)
        ensures
            r@ == query_of(Seq::empty()),
    {
        Self { query_string: String::new() }
    }

    /// Adds the entry `key=value`, with `value` form-encoded.
    pub fn add(&mut self, key: &str, value: &str)
        ensures
            final(self)@ == with_entry(old(self)@, key@, value@),
    {
        let is_first_entry = self.query_string.as_str().is_empty();
        let encoded_value = url_encode(value);
        proof {
            reveal_strlit("&");
            reveal_strlit("=");
        }
        if !is_first_entry {
            self.query_string.append("&");
        }
        self.query_string.append(key);
        self.query_string.append("=");
        self.query_string.append(encoded_value.as_str());
        assert(self.query_string@ =~= with_entry(old(self)@, key@, value@));
    }

    /// The query string.
    pub fn to_query_string(self) -> (r: String)
        ensures
            r@ == self@,
    {
        self.query_string
    }
}

/// What a single attempt of a query brought back.
pub enum ResponseOutcome {
    /// The server answered without an error status; the body as text, empty
    /// when it could not be read as text.
    Body(String),
    /// The server answered with this error status.
    ErrorStatus(u16),
}

/// What to do after an attempt.
pub enum QueryStep {
    /// Send the same request again.
    Retry,
    /// The query is over, with this result.
    Finished(Result<String, GmailnatorError>),
}

/// The decision after attempt number `attempt` (counted from 0) brought `outcome`.
pub open spec fn query_step(attempt: nat, outcome: ResponseOutcome) -> QueryStep {
    match outcome {
        ResponseOutcome::Body(body) => QueryStep::Finished(Ok(body)),
        ResponseOutcome::ErrorStatus(status) => if status == INTERNAL_SERVER_ERROR && attempt + 1
            < QUERY_MAX_TRY {
            QueryStep::Retry
        } else {
            QueryStep::Finished(Err(GmailnatorError::ServerError(status)))
        },
    }
}

/// The attempts made so far by one query.
pub struct QueryAttempts {
    made: u32,
}

impl QueryAttempts {
    /// How many attempts were made.
    pub closed spec fn made(&self) -> nat {
        self.made as nat
    }

    /// No attempt made yet.
    pub fn new() -> (r: Self)
        ensures
            r.made() == 0,
    {
        Self { made: 0 }
    }

    /// Whether another attempt may be made.
    pub fn attempts_left(&self) -> (r: bool)
        ensures
            r == (self.made() < QUERY_MAX_TRY),
    {
        self.made < QUERY_MAX_TRY
    }

    /// Records what an attempt brought back and decides what comes next.
    pub fn record(&mut self, outcome: ResponseOutcome) -> (step: QueryStep)
        requires
            old(self).made() < QUERY_MAX_TRY,
        ensures
            final(self).made() == old(self).made() + 1,
            step == query_step(old(self).made(), outcome),
            step is Retry ==> final(self).made() < QUERY_MAX_TRY,
    {
        let attempt = self.made;
        self.made = self.made + 1;
        match outcome {
            ResponseOutcome::Body(body) => QueryStep::Finished(Ok(body)),
            ResponseOutcome::ErrorStatus(status) => {
                if status == INTERNAL_SERVER_ERROR && attempt + 1 < QUERY_MAX_TRY {
                    QueryStep::Retry
                } else {
                    QueryStep::Finished(Err(GmailnatorError::ServerError(status)))
                }
            },
        }
    }
}

/// A transient failure on the first attempt is retried, and a success on the
/// second hands back its body.
pub proof fn lemma_transient_then_success(body: String)
    ensures
        query_step(0, ResponseOutcome::ErrorStatus(INTERNAL_SERVER_ERROR)) is Retry,
        query_step(1, ResponseOutcome::Body(body)) == QueryStep::Finished(Ok(body)),
{
}

/// Any error status other than the transient one ends the query at once,
/// carrying that status.
pub proof fn lemma_other_status_is_final(attempt: nat, status: u16)
    requires
        status != INTERNAL_SERVER_ERROR,
    ensures
        query_step(attempt, ResponseOutcome::ErrorStatus(status)) == QueryStep::Finished(
            Err(GmailnatorError::ServerError(status)),
        ),
{
}

/// The transient status is retried only while attempts remain: on the last
/// attempt it is reported.
pub proof fn lemma_transient_budget()
    ensures
        query_step(
            (QUERY_MAX_TRY - 1) as nat,
            ResponseOutcome::ErrorStatus(INTERNAL_SERVER_ERROR),
        ) == QueryStep::Finished(Err(GmailnatorError::ServerError(INTERNAL_SERVER_ERROR))),
{
}

} // verus!
