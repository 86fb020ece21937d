//! Mailboxes and messages: the queries that concern them and the parsing of
//! what the provider answers.
use vstd::prelude::*;
use crate::endpoint::{GmailnatorEndpoint, PreparedQuery};
use crate::errors::GmailnatorError;
use crate::http::{lemma_query_push, query_of, UrlQuery};
use crate::markup::{
    first_groups, first_inner_html, first_texts, html_decoded, json_string_field,
    json_string_member, opt_view, opt_views, regex_first_groups, select_first_inner_html,
    select_first_texts,
};
use crate::text::{
    char_vec, decimal_digits, decimal_string, find_chars, find_first,
    lemma_find_absent, lemma_find_from_bounds,
};

verus! {

/// Member of a json response that holds the subject fragment.
pub const SUBJECT_FIELD: &'static str = "subject";

/// Member of a json response that holds the content fragment.
pub const CONTENT_FIELD: &'static str = "content";

/// Selects the subject: the first bold element.
pub const SUBJECT_SELECTOR: &'static str = "b";

/// Selects the body of a json response's content: its first `div`.
pub const BODY_SELECTOR: &'static str = "div";

/// Selects the body of an html response: the fourth child of the fragment's
/// root, when it is a `div`.
pub const LEGACY_BODY_SELECTOR: &'static str = "html > div:nth-child(4)";

/// Separates the header of an html response from its body.
pub const LEGACY_MARKER: &'static str = "<hr />";

/// Selects the addresses in the answer to a bulk creation.
pub const BULK_EMAIL_SELECTOR: &'static str = "#email-list-message > a";

/// Finds the message identifiers in a mailbox listing.
pub const MAIL_ID_PATTERN: &'static str = r"messageid\\/#(.*?)\\";

/// The field of every query that carries the csrf token.
pub const CSRF_FIELD: &'static str = "csrf_gmailnator_token";

/// The fewest addresses that one bulk creation makes.
pub const MIN_BULK_COUNT: u32 = 1;

/// The most addresses that one bulk creation makes.
pub const MAX_BULK_COUNT: u32 = 1000;

/// The views of a sequence of strings.
pub open spec fn strings_view(v: Seq<String>) -> Seq<Seq<char>> {
    v.map_values(|s: String| s@)
}

/// The values present in `xs`, in order.
pub open spec fn present(xs: Seq<Option<Seq<char>>>) -> Seq<Seq<char>>
    decreases xs.len(),
{
    if xs.len() == 0 {
        Seq::empty()
    } else {
        let prev = present(xs.drop_last());
        match xs.last() {
            Some(x) => prev.push(x),
            None => prev,
        }
    }
}

/// The decoded text of `s`, or nothing when it holds a malformed entity.
pub open spec fn decoded_or_empty(s: Seq<char>) -> Seq<char> {
    match html_decoded(s) {
        Some(d) => d,
        None => Seq::empty(),
    }
}

/// Whether `body` is a json object with a string subject and a string content.
pub open spec fn has_json_fields(body: Seq<char>) -> bool {
    json_string_field(body, SUBJECT_FIELD@) is Some && json_string_field(body, CONTENT_FIELD@) is Some
}

/// What follows the first marker in `body`, or nothing when there is none.
pub open spec fn after_marker(body: Seq<char>) -> Seq<char> {
    match find_first(body, LEGACY_MARKER@) {
        Some(i) => body.subrange((i + LEGACY_MARKER@.len()) as int, body.len() as int),
        None => Seq::empty(),
    }
}

/// The raw content of an html response.
pub open spec fn legacy_content(body: Seq<char>) -> Seq<char> {
    match first_inner_html(body, LEGACY_BODY_SELECTOR@) {
        Some(c) => c,
        None => after_marker(body),
    }
}

/// The raw content of a json response's content fragment.
pub open spec fn json_content(content: Seq<char>) -> Seq<char> {
    match first_inner_html(content, BODY_SELECTOR@) {
        Some(c) => c,
        None => content,
    }
}

/// The subject and raw content that a response yields, when it yields a message.
pub open spec fn parsed_fields(body: Seq<char>) -> Option<(Seq<char>, Seq<char>)> {
    if has_json_fields(body) {
        let subject_html = json_string_field(body, SUBJECT_FIELD@)->Some_0;
        let content_html = json_string_field(body, CONTENT_FIELD@)->Some_0;
        match first_inner_html(subject_html, SUBJECT_SELECTOR@) {
            Some(subject) => Some((decoded_or_empty(subject), json_content(content_html))),
            None => None,
        }
    } else {
        match first_inner_html(body, SUBJECT_SELECTOR@) {
            Some(subject) => Some((decoded_or_empty(subject), legacy_content(body))),
            None => None,
        }
    }
}

/// The server identifier of an address: what comes before its first `+`,
/// when there is a `+` and something before it.
pub open spec fn server_identifier_of(address: Seq<char>) -> Option<Seq<char>> {
    match find_first(address, seq!['+']) {
        Some(i) => if i > 0 {
            Some(address.subrange(0, i as int))
        } else {
            None
        },
        None => None,
    }
}

/// The mailbox, as (address, server identifier), made from `address`, when it
/// names a server.
pub open spec fn inbox_from(address: Seq<char>) -> Option<(Seq<char>, Seq<char>)> {
    match server_identifier_of(address) {
        Some(server) => Some((address, server)),
        None => None,
    }
}

/// The mailboxes, as (address, server identifier), made from the texts of a
/// bulk answer: one per text that is a well-formed address, in order.
pub open spec fn bulk_inboxes(texts: Seq<Option<Seq<char>>>) -> Seq<(Seq<char>, Seq<char>)>
    decreases texts.len(),
{
    if texts.len() == 0 {
        Seq::empty()
    } else {
        let prev = bulk_inboxes(texts.drop_last());
        match texts.last() {
            Some(address) => match inbox_from(address) {
                Some(inbox) => prev.push(inbox),
                None => prev,
            },
            None => prev,
        }
    }
}

/// The entries of every query: the csrf token first.
pub open spec fn tokened(token: Seq<char>) -> Seq<(Seq<char>, Seq<char>)> {
    seq![(CSRF_FIELD@, token)]
}

/// The body of the query that asks for one new address.
pub open spec fn new_email_payload(token: Seq<char>) -> Seq<char> {
    query_of(tokened(token).push(("action"@, "GenerateEmail"@)).push(("data%5B%5D"@, "2"@)))
}

/// The body of the query that asks for `count` new addresses.
pub open spec fn bulk_payload(token: Seq<char>, count: nat) -> Seq<char> {
    query_of(
        tokened(token).push(("email_list"@, decimal_digits((count - 1) as nat))).push(
            ("email%5B%5D"@, "2"@),
        ),
    )
}

/// The body of the query that lists the messages of `address`.
pub open spec fn inbox_payload(token: Seq<char>, address: Seq<char>) -> Seq<char> {
    query_of(tokened(token).push(("action"@, "LoadMailList"@)).push(("Email_address"@, address)))
}

/// The body of the query that fetches message `id` from server `server`.
pub open spec fn message_payload(token: Seq<char>, id: Seq<char>, server: Seq<char>) -> Seq<char> {
    query_of(
        tokened(token).push(("action"@, "get_message"@)).push(("message_id"@, id)).push(
            ("email"@, server),
        ),
    )
}

/// The (subject, raw content) of the messages that the answers to message
/// queries yield, in order; a failed query or an unreadable answer yields none.
pub open spec fn kept_messages(responses: Seq<Result<String, GmailnatorError>>) -> Seq<
    (Seq<char>, Seq<char>),
>
    decreases responses.len(),
{
    if responses.len() == 0 {
        Seq::empty()
    } else {
        let prev = kept_messages(responses.drop_last());
        match responses.last() {
            Ok(body) => match parsed_fields(body@) {
                Some(fields) => prev.push(fields),
                None => prev,
            },
            Err(_) => prev,
        }
    }
}

/// The (subject, raw content) of each message.
pub open spec fn message_views(v: Seq<MailMessage>) -> Seq<(Seq<char>, Seq<char>)> {
    v.map_values(|m: MailMessage| (m.subject(), m.raw_content()))
}

/// A message: its subject, decoded, and its content with entities left encoded.
#[derive(Debug)]
pub struct MailMessage {
    subject: String,
    raw_content: String,
}

/// The decoded text of `s`, or an empty string when it holds a malformed entity.
fn decode_or_empty(s: &str) -> (r: String)
    ensures
        r@ == decoded_or_empty(s@),
{
    match htmlescape::decode_html(s) {
        Ok(decoded) => decoded,
        Err(_) => String::new(),
    }
}

/// What follows the first marker in `body`.
fn content_after_marker(body: &str) -> (r: String)
    ensures
        r@ == after_marker(body@),
{
    let chars = char_vec(body);
    let marker = char_vec(LEGACY_MARKER);
    match find_chars(&chars, &marker) {
        Some(i) => {
            let start = i + marker.len();
            String::from_str(body.substring_char(start, chars.len()))
        },
        None => String::new(),
    }
}

impl MailMessage {
    /// The subject.
    pub closed spec fn subject(&self) -> Seq<char> {
        self.subject@
    }

    /// The raw content.
    pub closed spec fn raw_content(&self) -> Seq<char> {
        self.raw_content@
    }

    /// A message with the given subject and raw content.
    pub fn new(subject: String, raw_content: String) -> (r: Self)
        ensures
            r.subject() == subject@,
            r.raw_content() == raw_content@,
    {
        Self { subject, raw_content }
    }

    /// Parses a response to a message query. A json object with string members
    /// `subject` and `content` is read as such; any other response is read as
    /// an html fragment.
    pub fn parse(response_fragment: &str) -> (r: Result<Self, GmailnatorError>)
        ensures
            match parsed_fields(response_fragment@) {
                Some(fields) => r matches Ok(m) && m.subject() == fields.0 && m.raw_content()
                    == fields.1,
                None => if has_json_fields(response_fragment@) {
                    r matches Err(GmailnatorError::HtmlParsingError(t)) && t@ == response_fragment@
                } else {
                    r matches Err(GmailnatorError::JsonParsingError(t)) && t@ == response_fragment@
                },
            },
    {
        let subject_field = json_string_member(response_fragment, SUBJECT_FIELD);
        let content_field = json_string_member(response_fragment, CONTENT_FIELD);
        match (subject_field, content_field) {
            (Some(subject_html), Some(content_html)) => {
                match select_first_inner_html(subject_html.as_str(), SUBJECT_SELECTOR) {
                    None => Err(
                        GmailnatorError::HtmlParsingError(String::from_str(response_fragment)),
                    ),
                    Some(subject) => {
                        let raw_body = match select_first_inner_html(
                            content_html.as_str(),
                            BODY_SELECTOR,
                        ) {
                            Some(inner) => inner,
                            None => content_html,
                        };
                        Ok(MailMessage::new(decode_or_empty(subject.as_str()), raw_body))
                    },
                }
            },
            _ => {
                match select_first_inner_html(response_fragment, SUBJECT_SELECTOR) {
                    None => Err(
                        GmailnatorError::JsonParsingError(String::from_str(response_fragment)),
                    ),
                    Some(subject) => {
                        let raw_body = match select_first_inner_html(
                            response_fragment,
                            LEGACY_BODY_SELECTOR,
                        ) {
                            Some(inner) => inner,
                            None => content_after_marker(response_fragment),
                        };
                        Ok(MailMessage::new(decode_or_empty(subject.as_str()), raw_body))
                    },
                }
            },
        }
    }

    /// The subject.
    pub fn get_subject(&self) -> (r: &str)
        ensures
            r@ == self.subject(),
    {
        self.subject.as_str()
    }

    /// The raw content with its html entities decoded.
    pub fn decode_content(&self) -> (r: Result<String, GmailnatorError>)
        ensures
            match html_decoded(self.raw_content()) {
                Some(d) => r matches Ok(s) && s@ == d,
                None => r matches Err(GmailnatorError::HtmlDecodingError),
            },
            !self.raw_content().contains('&') ==> (r matches Ok(s) && s@ == self.raw_content()),
    {
        match htmlescape::decode_html(self.raw_content.as_str()) {
            Ok(decoded) => Ok(decoded),
            Err(_) => Err(GmailnatorError::HtmlDecodingError),
        }
    }

    /// The raw content, with its html entities still encoded.
    pub fn get_raw_content(&self) -> (r: &str)
        ensures
            r@ == self.raw_content(),
    {
        self.raw_content.as_str()
    }
}

/// A mailbox: an address of the provider and the server identifier derived
/// from it.
#[derive(Debug)]
pub struct GmailnatorInbox {
    mail_address: String,
    temp_server: String,
}

/// The (address, server identifier) of each mailbox.
pub open spec fn inbox_views(v: Seq<GmailnatorInbox>) -> Seq<(Seq<char>, Seq<char>)> {
    v.map_values(|i: GmailnatorInbox| (i.address(), i.server_id()))
}

impl GmailnatorInbox {
    /// The address.
    pub closed spec fn address(&self) -> Seq<char> {
        self.mail_address@
    }

    /// The server identifier.
    pub closed spec fn server_id(&self) -> Seq<char> {
        self.temp_server@
    }

    /// The query that asks for one new address.
    pub fn new_query(token: &str) -> (r: PreparedQuery)
        ensures
            r.endpoint == GmailnatorEndpoint::GetEmail,
            r.payload@ == new_email_payload(token@),
    {
        let mut mail_query = Self::get_tokened_query(token);
        mail_query.add("action", "GenerateEmail");
        mail_query.add("data%5B%5D", "2");
        proof {
            lemma_query_push(tokened(token@), "action"@, "GenerateEmail"@);
            lemma_query_push(tokened(token@).push(("action"@, "GenerateEmail"@)), "data%5B%5D"@, "2"@);
        }
        PreparedQuery { endpoint: GmailnatorEndpoint::GetEmail, payload: mail_query.to_query_string() }
    }

    /// The mailbox that the answer to `new_query` names: the answer's body is
    /// the new address.
    pub fn new(response: Result<String, GmailnatorError>) -> (r: Result<Self, GmailnatorError>)
        ensures
            match response {
                Err(e) => r matches Err(f) && f == e,
                Ok(body) => match inbox_from(body@) {
                    Some(v) => r matches Ok(i) && (i.address(), i.server_id()) == v,
                    None => r matches Err(GmailnatorError::MailServerParsingError(a)) && a@ == body@,
                },
            },
    {
        match response {
            Err(e) => Err(e),
            Ok(body) => Self::from_address(body.as_str()),
        }
    }

    /// The query that asks for `count` new addresses, when `count` lies in
    /// `MIN_BULK_COUNT..=MAX_BULK_COUNT`.
    pub fn new_bulk_query(count: u32, token: &str) -> (r: Result<PreparedQuery, GmailnatorError>)
        ensures
            !(MIN_BULK_COUNT <= count <= MAX_BULK_COUNT) ==> (r matches Err(
                GmailnatorError::InvalidCountError(c),
            ) && c == count),
            MIN_BULK_COUNT <= count <= MAX_BULK_COUNT ==> (r matches Ok(q) && q.endpoint
                == GmailnatorEndpoint::GetEmailBulk && q.payload@ == bulk_payload(token@, count as nat)),
    {
        if count < MIN_BULK_COUNT || count > MAX_BULK_COUNT {
            return Err(GmailnatorError::InvalidCountError(count));
        }
        let mut bulk_query = Self::get_tokened_query(token);
        let extra = decimal_string(count - 1);
        bulk_query.add("email_list", extra.as_str());
        bulk_query.add("email%5B%5D", "2");
        proof {
            let first = tokened(token@).push(("email_list"@, decimal_digits((count - 1) as nat)));
            lemma_query_push(tokened(token@), "email_list"@, decimal_digits((count - 1) as nat));
            lemma_query_push(first, "email%5B%5D"@, "2"@);
        }
        Ok(PreparedQuery { endpoint: GmailnatorEndpoint::GetEmailBulk, payload: bulk_query.to_query_string() })
    }

    /// The mailboxes that the answer to `new_bulk_query(count, ..)` lists:
    /// one per listed text that is a well-formed address, in order.
    pub fn new_bulk(count: u32, response: Result<String, GmailnatorError>) -> (r: Result<Vec<Self>, GmailnatorError>)
        ensures
            !(MIN_BULK_COUNT <= count <= MAX_BULK_COUNT) ==> (r matches Err(
                GmailnatorError::InvalidCountError(c),
            ) && c == count),
            MIN_BULK_COUNT <= count <= MAX_BULK_COUNT ==> match response {
                Err(e) => r matches Err(f) && f == e,
                Ok(html) => r matches Ok(v) && inbox_views(v@) == bulk_inboxes(
                    first_texts(html@, BULK_EMAIL_SELECTOR@),
                ),
            },
    {
        if count < MIN_BULK_COUNT || count > MAX_BULK_COUNT {
            return Err(GmailnatorError::InvalidCountError(count));
        }
        match response {
            Err(e) => Err(e),
            Ok(html) => Ok(Self::get_bulk_from_html(html.as_str())),
        }
    }

    /// The mailbox of an existing address. Only the shape of the address is
    /// read: whether the provider knows it is not checked.
    pub fn from_address(address: &str) -> (r: Result<Self, GmailnatorError>)
        ensures
            match inbox_from(address@) {
                Some(v) => r matches Ok(i) && (i.address(), i.server_id()) == v,
                None => r matches Err(GmailnatorError::MailServerParsingError(a)) && a@ == address@,
            },
    {
        let temp_server_id = Self::get_temp_server_id(address)?;
        Ok(Self { mail_address: String::from_str(address), temp_server: temp_server_id })
    }

    /// The query that lists the messages of this mailbox.
    pub fn inbox_query(&self, token: &str) -> (r: PreparedQuery)
        ensures
            r.endpoint == GmailnatorEndpoint::GetInbox,
            r.payload@ == inbox_payload(token@, self.address()),
    {
        let mut query = Self::get_tokened_query(token);
        query.add("action", "LoadMailList");
        query.add("Email_address", self.mail_address.as_str());
        proof {
            lemma_query_push(tokened(token@), "action"@, "LoadMailList"@);
            lemma_query_push(tokened(token@).push(("action"@, "LoadMailList"@)), "Email_address"@, self.address());
        }
        PreparedQuery { endpoint: GmailnatorEndpoint::GetInbox, payload: query.to_query_string() }
    }

    /// The messages listed in the answer to `inbox_query`, to be fetched one
    /// at a time.
    pub fn get_messages_iter(&self, response: Result<String, GmailnatorError>) -> (r: Result<MailMessageIterator, GmailnatorError>)
        ensures
            match response {
                Err(e) => r matches Err(f) && f == e,
                Ok(listing) => r matches Ok(it) && it.ids() == present(
                    first_groups(MAIL_ID_PATTERN@, listing@),
                ) && it.server_id() == self.server_id(),
            },
    {
        match response {
            Err(e) => Err(e),
            Ok(listing) => {
                let message_ids = Self::get_inbox_messages_id_collection(listing.as_str());
                Ok(MailMessageIterator { message_ids, temp_server_identifier: self.temp_server.clone() })
            },
        }
    }

    /// The messages read from the answers to this mailbox's message queries;
    /// an answer that failed or cannot be read is left out, the others kept
    /// in order.
    pub fn get_messages(responses: &Vec<Result<String, GmailnatorError>>) -> (r: Vec<MailMessage>)
        ensures
            message_views(r@) == kept_messages(responses@),
    {
        let mut messages: Vec<MailMessage> = Vec::new();
        let mut i: usize = 0;
        while i < responses.len()
            invariant
                i <= responses.len(),
                message_views(messages@) == kept_messages(responses@.subrange(0, i as int)),
            decreases responses.len() - i,
        {
            let ghost before = messages@;
            match &responses[i] {
                Ok(body) => {
                    match MailMessage::parse(body.as_str()) {
                        Ok(message) => {
                            messages.push(message);
                            assert(message_views(messages@) =~= message_views(before).push(
                                (messages@.last().subject(), messages@.last().raw_content()),
                            ));
                        },
                        Err(_) => {},
                    }
                },
                Err(_) => {},
            }
            assert(responses@.subrange(0, i + 1).drop_last() =~= responses@.subrange(0, i as int));
            i = i + 1;
        }
        assert(responses@.subrange(0, responses@.len() as int) =~= responses@);
        messages
    }

    /// The address.
    pub fn get_address(&self) -> (r: &str)
        ensures
            r@ == self.address(),
    {
        self.mail_address.as_str()
    }

    /// The server identifier: the part of the address before its first `+`.
    pub fn get_server_id(&self) -> (r: &str)
        ensures
            r@ == self.server_id(),
    {
        self.temp_server.as_str()
    }

    fn get_bulk_from_html(html: &str) -> (r: Vec<Self>)
        ensures
            inbox_views(r@) == bulk_inboxes(first_texts(html@, BULK_EMAIL_SELECTOR@)),
    {
        let texts = select_first_texts(html, BULK_EMAIL_SELECTOR);
        let mut inbox_list: Vec<Self> = Vec::new();
        let mut i: usize = 0;
        while i < texts.len()
            invariant
                i <= texts.len(),
                inbox_views(inbox_list@) == bulk_inboxes(opt_views(texts@.subrange(0, i as int))),
            decreases texts.len() - i,
        {
            let ghost before = inbox_list@;
            match &texts[i] {
                Some(address) => {
                    match Self::from_address(address.as_str()) {
                        Ok(inbox) => {
                            inbox_list.push(inbox);
                        },
                        Err(_) => {},
                    }
                },
                None => {},
            }
            proof {
                let seen = opt_views(texts@.subrange(0, i + 1));
                assert(seen.drop_last() =~= opt_views(texts@.subrange(0, i as int)));
                assert(seen.last() == opt_view(texts@[i as int]));
                assert(inbox_views(before.push(inbox_list@.last())) =~= inbox_views(before).push(
                    (inbox_list@.last().address(), inbox_list@.last().server_id()),
                ));
                if inbox_list@.len() == before.len() {
                    assert(inbox_list@ =~= before);
                } else {
                    assert(inbox_list@ =~= before.push(inbox_list@.last()));
                }
            }
            i = i + 1;
        }
        assert(texts@.subrange(0, texts@.len() as int) =~= texts@);
        inbox_list
    }

    fn get_tokened_query(token: &str) -> (r: UrlQuery)
        ensures
            r@ == query_of(tokened(token@)),
    {
        let mut tokened_query = UrlQuery::new();
        tokened_query.add(CSRF_FIELD, token);
        proof {
            lemma_query_push(Seq::empty(), CSRF_FIELD@, token@);
            assert(Seq::<(Seq<char>, Seq<char>)>::empty().push((CSRF_FIELD@, token@)) =~= tokened(token@));
        }
        tokened_query
    }

    fn get_temp_server_id(mail_address: &str) -> (r: Result<String, GmailnatorError>)
        ensures
            match server_identifier_of(mail_address@) {
                Some(server) => r matches Ok(s) && s@ == server,
                None => r matches Err(GmailnatorError::MailServerParsingError(a)) && a@ == mail_address@,
            },
    {
        let chars = char_vec(mail_address);
        let plus = char_vec("+");
        proof {
            reveal_strlit("+");
        }
        assert(plus@ =~= seq!['+']);
        match find_chars(&chars, &plus) {
            Some(i) => {
                if i > 0 {
                    Ok(String::from_str(mail_address.substring_char(0, i)))
                } else {
                    Err(GmailnatorError::MailServerParsingError(String::from_str(mail_address)))
                }
            },
            None => Err(GmailnatorError::MailServerParsingError(String::from_str(mail_address))),
        }
    }

    fn get_inbox_messages_id_collection(listing: &str) -> (r: Vec<String>)
        ensures
            strings_view(r@) == present(first_groups(MAIL_ID_PATTERN@, listing@)),
    {
        let groups = regex_first_groups(MAIL_ID_PATTERN, listing);
        let mut id_collection: Vec<String> = Vec::new();
        let mut i: usize = 0;
        while i < groups.len()
            invariant
                i <= groups.len(),
                strings_view(id_collection@) == present(opt_views(groups@.subrange(0, i as int))),
            decreases groups.len() - i,
        {
            let ghost before = id_collection@;
            match &groups[i] {
                Some(id) => {
                    id_collection.push(id.clone());
                    assert(strings_view(id_collection@) =~= strings_view(before).push(id@));
                },
                None => {},
            }
            proof {
                let seen = opt_views(groups@.subrange(0, i + 1));
                assert(seen.drop_last() =~= opt_views(groups@.subrange(0, i as int)));
                assert(seen.last() == opt_view(groups@[i as int]));
            }
            i = i + 1;
        }
        assert(groups@.subrange(0, groups@.len() as int) =~= groups@);
        id_collection
    }

    fn get_message_by_id(server_identifier: &str, message_id: &str, token: &str) -> (r: PreparedQuery)
        ensures
            r.endpoint == GmailnatorEndpoint::GetMessage,
            r.payload@ == message_payload(token@, message_id@, server_identifier@),
    {
        let mut get_message_query = Self::get_tokened_query(token);
        get_message_query.add("action", "get_message");
        get_message_query.add("message_id", message_id);
        get_message_query.add("email", server_identifier);
        proof {
            let a = tokened(token@).push(("action"@, "get_message"@));
            let b = a.push(("message_id"@, message_id@));
            lemma_query_push(tokened(token@), "action"@, "get_message"@);
            lemma_query_push(a, "message_id"@, message_id@);
            lemma_query_push(b, "email"@, server_identifier@);
        }
        PreparedQuery { endpoint: GmailnatorEndpoint::GetMessage, payload: get_message_query.to_query_string() }
    }
}

/// The messages of a mailbox not fetched yet: their identifiers and the
/// mailbox's server. Each step hands out the query for one message.
pub struct MailMessageIterator {
    message_ids: Vec<String>,
    temp_server_identifier: String,
}

impl MailMessageIterator {
    /// The identifiers left, the next one last.
    pub closed spec fn ids(&self) -> Seq<Seq<char>> {
        strings_view(self.message_ids@)
    }

    /// The server identifier of the mailbox.
    pub closed spec fn server_id(&self) -> Seq<char> {
        self.temp_server_identifier@
    }

    /// How many messages are left.
    pub fn remaining(&self) -> (r: usize)
        ensures
            r == self.ids().len(),
    {
        self.message_ids.len()
    }

    /// The query that fetches the next message, without taking its identifier;
    /// none once every identifier was taken.
    pub fn peek_query(&self, token: &str) -> (r: Option<PreparedQuery>)
        ensures
            self.ids().len() == 0 ==> r is None,
            self.ids().len() > 0 ==> (r matches Some(q) && q.endpoint
                == GmailnatorEndpoint::GetMessage && q.payload@ == message_payload(
                token@,
                self.ids().last(),
                self.server_id(),
            )),
    {
        let n = self.message_ids.len();
        if n == 0 {
            return None;
        }
        Some(GmailnatorInbox::get_message_by_id(
            self.temp_server_identifier.as_str(),
            self.message_ids[n - 1].as_str(),
            token,
        ))
    }

    /// Takes the next identifier and returns the query that fetches its
    /// message; none, with nothing changed, once every identifier was taken.
    pub fn next_query(&mut self, token: &str) -> (r: Option<PreparedQuery>)
        ensures
            final(self).server_id() == old(self).server_id(),
            old(self).ids().len() == 0 ==> r is None && final(self).ids() == old(self).ids(),
            old(self).ids().len() > 0 ==> (r matches Some(q) && q.endpoint
                == GmailnatorEndpoint::GetMessage && q.payload@ == message_payload(
                token@,
                old(self).ids().last(),
                old(self).server_id(),
            ) && final(self).ids() == old(self).ids().drop_last()),
    {
        match self.message_ids.pop() {
            Some(id) => {
                assert(strings_view(self.message_ids@) =~= strings_view(old(self).message_ids@).drop_last());
                Some(GmailnatorInbox::get_message_by_id(
                    self.temp_server_identifier.as_str(),
                    id.as_str(),
                    token,
                ))
            },
            None => None,
        }
    }
}

/// A bulk answer that lists `count` well-formed addresses yields `count`
/// mailboxes, in the order listed.
pub proof fn lemma_bulk_count(count: u32, texts: Seq<Option<Seq<char>>>)
    requires
        MIN_BULK_COUNT <= count <= MAX_BULK_COUNT,
        texts.len() == count,
        forall|i: int| 0 <= i < texts.len() ==> (#[trigger] texts[i] matches Some(a)
            && server_identifier_of(a) is Some),
    ensures
        bulk_inboxes(texts).len() == count,
        forall|i: int| 0 <= i < texts.len() ==> Some(#[trigger] bulk_inboxes(texts)[i].0) == texts[i],
{
    lemma_bulk_keeps_valid(texts);
}

proof fn lemma_bulk_keeps_valid(texts: Seq<Option<Seq<char>>>)
    requires
        forall|i: int| 0 <= i < texts.len() ==> (#[trigger] texts[i] matches Some(a)
            && server_identifier_of(a) is Some),
    ensures
        bulk_inboxes(texts).len() == texts.len(),
        forall|i: int| 0 <= i < texts.len() ==> Some(#[trigger] bulk_inboxes(texts)[i].0) == texts[i],
    decreases texts.len(),
{
    if texts.len() > 0 {
        let prefix = texts.drop_last();
        assert forall|i: int| 0 <= i < prefix.len() implies (#[trigger] prefix[i] matches Some(a)
            && server_identifier_of(a) is Some) by {
            assert(prefix[i] == texts[i]);
        }
        lemma_bulk_keeps_valid(prefix);
        assert(texts[texts.len() - 1] matches Some(a) && server_identifier_of(a) is Some);
        assert forall|i: int| 0 <= i < texts.len() implies Some(#[trigger] bulk_inboxes(texts)[i].0) == texts[i] by {
            if i < texts.len() - 1 {
                assert(prefix[i] == texts[i]);
            }
        }
    }
}

/// Making a mailbox from an address and reading its address back gives that
/// address exactly; the mailbox exists precisely when the address names a server.
pub proof fn lemma_address_round_trip(address: Seq<char>)
    ensures
        inbox_from(address) is Some <==> server_identifier_of(address) is Some,
        inbox_from(address) matches Some(v) ==> v.0 == address,
{
}

/// The server identifier is a non-empty prefix of the address, followed by
/// the address's first `+`; an address without `+` has none.
pub proof fn lemma_server_identifier_shape(address: Seq<char>)
    ensures
        !address.contains('+') ==> server_identifier_of(address) is None,
        server_identifier_of(address) matches Some(server) ==> server.len() > 0 && server.len()
            < address.len() && address.subrange(0, server.len() as int) == server
            && address[server.len() as int] == '+' && !server.contains('+'),
{
    let plus = seq!['+'];
    lemma_find_from_bounds(address, plus, 0);
    if let Some(k) = find_first(address, plus) {
        assert(address[k as int] == address.subrange(k as int, (k + 1) as int)[0]);
        if k > 0 {
            let server = address.subrange(0, k as int);
            assert forall|p: int| 0 <= p < server.len() implies server[p] != '+' by {
                assert(address.subrange(p, p + 1) != plus);
                if server[p] == '+' {
                    assert(address.subrange(p, p + 1) =~= plus);
                }
            }
        }
    } else {
        if address.contains('+') {
            let p = choose|p: int| 0 <= p < address.len() && address[p] == '+';
            lemma_find_absent(address, plus, 0, p);
        }
    }
}

} // verus!
