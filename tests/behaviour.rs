use gmailnator::{
    decimal_string, get_token_sync, renew_token, set_token_sync, token_needs_renewal,
    GmailnatorEndpoint, GmailnatorError, GmailnatorInbox, HttpMethod, MailMessage, QueryAttempts,
    QueryStep, ReplayStep, ResponseOutcome, TokenReplay, TokenStore, UrlQuery,
};

fn run_attempts(outcomes: Vec<ResponseOutcome>) -> (Result<String, GmailnatorError>, usize) {
    let mut attempts = QueryAttempts::new();
    let mut sent = 0;
    for outcome in outcomes {
        assert!(attempts.attempts_left());
        sent += 1;
        match attempts.record(outcome) {
            QueryStep::Retry => continue,
            QueryStep::Finished(r) => return (r, sent),
        }
    }
    panic!("the stub ran out of responses after {} attempts", sent);
}

#[test]
fn bulk_count_out_of_range() {
    assert!(matches!(
        GmailnatorInbox::new_bulk(0, Ok(String::new())),
        Err(GmailnatorError::InvalidCountError(0))
    ));
    assert!(matches!(
        GmailnatorInbox::new_bulk(1001, Ok(String::new())),
        Err(GmailnatorError::InvalidCountError(1001))
    ));
    assert!(matches!(
        GmailnatorInbox::new_bulk_query(1001, ""),
        Err(GmailnatorError::InvalidCountError(1001))
    ));
}

#[test]
fn bulk_drops_malformed_addresses() {
    let html = "<div id=\"email-list-message\"><a>extmp+a@gmail.com</a><a>plain@gmail.com</a><a></a><a>deedtmp+b@gmail.com</a></div>";
    let inboxes = GmailnatorInbox::new_bulk(3, Ok(String::from(html))).unwrap();
    assert_eq!(inboxes.len(), 2);
    assert_eq!(inboxes[0].get_address(), "extmp+a@gmail.com");
    assert_eq!(inboxes[1].get_address(), "deedtmp+b@gmail.com");
    assert_eq!(inboxes[1].get_server_id(), "deedtmp");
}

#[test]
fn bulk_passes_server_error_on() {
    let r = GmailnatorInbox::new_bulk(5, Err(GmailnatorError::ServerError(503)));
    assert!(matches!(r, Err(GmailnatorError::ServerError(503))));
}

#[test]
fn bulk_query_asks_for_additional_addresses() {
    let q = GmailnatorInbox::new_bulk_query(1000, "").unwrap();
    assert!(q.endpoint == GmailnatorEndpoint::GetEmailBulk);
    assert_eq!(q.payload, "csrf_gmailnator_token=&email_list=999&email%5B%5D=2");
}

#[test]
fn address_round_trip() {
    let inbox = GmailnatorInbox::from_address("deedtmp+q.r-s@gmail.com").unwrap();
    assert_eq!(inbox.get_address(), "deedtmp+q.r-s@gmail.com");
}

#[test]
fn server_identifier_derivation() {
    let inbox = GmailnatorInbox::from_address("extmp+xyz@gmail.com").unwrap();
    assert_eq!(inbox.get_server_id(), "extmp");
    let inbox = GmailnatorInbox::from_address("a+b+c@gmail.com").unwrap();
    assert_eq!(inbox.get_server_id(), "a");
}

#[test]
fn address_without_plus_is_rejected() {
    match GmailnatorInbox::from_address("invalid.email@gmail.com") {
        Err(GmailnatorError::MailServerParsingError(a)) => assert_eq!(a, "invalid.email@gmail.com"),
        other => panic!("unexpected {:?}", other),
    }
    assert!(matches!(
        GmailnatorInbox::from_address("+xyz@gmail.com"),
        Err(GmailnatorError::MailServerParsingError(_))
    ));
    assert!(matches!(
        GmailnatorInbox::new(Ok(String::new())),
        Err(GmailnatorError::MailServerParsingError(_))
    ));
}

#[test]
fn new_inbox_query_body() {
    let q = GmailnatorInbox::new_query("");
    assert!(q.endpoint == GmailnatorEndpoint::GetEmail);
    assert_eq!(q.payload, "csrf_gmailnator_token=&action=GenerateEmail&data%5B%5D=2");
}

#[test]
fn parse_shape_html_fragment() {
    let message =
        MailMessage::parse("<b>subject</b><div>ago</div><hr/><div dir=\"ltr\">content</div>")
            .unwrap();
    assert_eq!(message.get_subject(), "subject");
    assert_eq!(message.get_raw_content(), "content");
    assert_eq!(message.decode_content().unwrap(), "content");
}

#[test]
fn parse_shape_split_marker() {
    let message = MailMessage::parse("<b>Hello &amp; bye</b><div>2 min ago</div><hr /><p>body text</p>")
        .unwrap();
    assert_eq!(message.get_subject(), "Hello & bye");
    assert_eq!(message.get_raw_content(), "<p>body text</p>");
}

#[test]
fn parse_shape_json() {
    let body = "{\"subject\":\"<b>subject</b><div>5 hrs ago<hr/></div>\",\"content\":\"<div dir=\\\"ltr\\\">content</div>\\r\\n\"}";
    let message = MailMessage::parse(body).unwrap();
    assert_eq!(message.get_subject(), "subject");
    assert_eq!(message.get_raw_content(), "content");
}

#[test]
fn parse_json_without_div_keeps_content() {
    let body = "{\"subject\":\"<b>hi</b>\",\"content\":\"just text\"}";
    let message = MailMessage::parse(body).unwrap();
    assert_eq!(message.get_raw_content(), "just text");
}

#[test]
fn parse_errors() {
    let body = "{\"subject\":\"no bold\",\"content\":\"x\"}";
    match MailMessage::parse(body) {
        Err(GmailnatorError::HtmlParsingError(t)) => assert_eq!(t, body),
        other => panic!("unexpected {:?}", other),
    }
    match MailMessage::parse("not a message") {
        Err(GmailnatorError::JsonParsingError(t)) => assert_eq!(t, "not a message"),
        other => panic!("unexpected {:?}", other),
    }
}

#[test]
fn decode_entities() {
    let message = MailMessage::new(
        String::from("s"),
        String::from("&lt;You&gt; Where did you put the &quot;thing&quot; ?"),
    );
    assert_eq!(message.decode_content().unwrap(), "<You> Where did you put the \"thing\" ?");
    assert_eq!(message.get_raw_content(), "&lt;You&gt; Where did you put the &quot;thing&quot; ?");
}

#[test]
fn decode_is_idempotent_on_plain_text() {
    let once = MailMessage::new(String::new(), String::from("&lt;p&gt;")).decode_content().unwrap();
    assert_eq!(once, "<p>");
    let twice = MailMessage::new(String::new(), once.clone()).decode_content().unwrap();
    assert_eq!(twice, once);
}

#[test]
fn decode_malformed_entity() {
    let message = MailMessage::new(String::new(), String::from("&nosuchentity;"));
    assert!(matches!(message.decode_content(), Err(GmailnatorError::HtmlDecodingError)));
}

#[test]
fn retry_transient_then_success() {
    let (r, sent) = run_attempts(vec![
        ResponseOutcome::ErrorStatus(500),
        ResponseOutcome::Body(String::from("body")),
    ]);
    assert_eq!(r.unwrap(), "body");
    assert_eq!(sent, 2);
}

#[test]
fn retry_budget_spent() {
    let (r, sent) = run_attempts(vec![
        ResponseOutcome::ErrorStatus(500),
        ResponseOutcome::ErrorStatus(500),
        ResponseOutcome::Body(String::from("late")),
    ]);
    assert!(matches!(r, Err(GmailnatorError::ServerError(500))));
    assert_eq!(sent, 2);
}

#[test]
fn other_status_is_not_retried() {
    let (r, sent) = run_attempts(vec![
        ResponseOutcome::ErrorStatus(404),
        ResponseOutcome::Body(String::from("never")),
    ]);
    assert!(matches!(r, Err(GmailnatorError::ServerError(404))));
    assert_eq!(sent, 1);
}

#[test]
fn empty_listing_iterator_stays_exhausted() {
    let inbox = GmailnatorInbox::from_address("extmp+abc@gmail.com").unwrap();
    let mut it = inbox.get_messages_iter(Ok(String::from("[]"))).unwrap();
    assert_eq!(it.remaining(), 0);
    for _ in 0..3 {
        assert!(it.next_query("").is_none());
    }
}

#[test]
fn listing_ids_become_message_queries() {
    let inbox = GmailnatorInbox::from_address("extmp+abc@gmail.com").unwrap();
    let listing = r#"[{"content":"<a href=\"https:\/\/gmailnator.com\/extmp\/messageid\/#17a2b\">x<\/a>"},{"content":"<a href=\"https:\/\/gmailnator.com\/extmp\/messageid\/#99ff\">y<\/a>"}]"#;
    let mut it = inbox.get_messages_iter(Ok(String::from(listing))).unwrap();
    assert_eq!(it.remaining(), 2);
    let q = it.next_query("tok").unwrap();
    assert!(q.endpoint == GmailnatorEndpoint::GetMessage);
    assert_eq!(
        q.payload,
        "csrf_gmailnator_token=tok&action=get_message&message_id=99ff&email=extmp"
    );
    let q = it.next_query("tok").unwrap();
    assert!(q.payload.contains("message_id=17a2b"));
    assert!(it.next_query("tok").is_none());
}

#[test]
fn inbox_listing_query_body() {
    let inbox = GmailnatorInbox::from_address("extmp+abc@gmail.com").unwrap();
    let q = inbox.inbox_query("");
    assert!(q.endpoint == GmailnatorEndpoint::GetInbox);
    assert_eq!(
        q.payload,
        "csrf_gmailnator_token=&action=LoadMailList&Email_address=extmp%2Babc%40gmail.com"
    );
}

#[test]
fn listing_error_is_passed_on() {
    let inbox = GmailnatorInbox::from_address("extmp+abc@gmail.com").unwrap();
    assert!(matches!(
        inbox.get_messages_iter(Err(GmailnatorError::ServerError(502))),
        Err(GmailnatorError::ServerError(502))
    ));
}

#[test]
fn url_query_encodes_values() {
    let mut q = UrlQuery::new();
    q.add("key", "a b&c=é*-._~");
    q.add("second", "");
    assert_eq!(q.to_query_string(), "key=a+b%26c%3D%C3%A9*-._%7E&second=");
}

#[test]
fn request_description() {
    let r = GmailnatorEndpoint::GetMessage.to_request();
    assert!(r.get_method() == HttpMethod::Post);
    assert_eq!(r.get_url(), "https://gmailnator.com/mailbox/get_single_message");
    let headers = r.headers("tok");
    assert_eq!(headers.len(), 3);
    assert_eq!(headers[0], (String::from("Cookie"), String::from("csrf_gmailnator_cookie=tok;")));
    assert_eq!(headers[2].0, "Content-Type");
    let landing = GmailnatorEndpoint::Landing.to_request();
    assert!(landing.get_method() == HttpMethod::Get);
    assert_eq!(landing.headers("").len(), 2);
}

#[test]
fn token_store_renewal() {
    let mut store = TokenStore::new();
    assert!(get_token_sync(&store).is_none());
    assert!(token_needs_renewal(&store, false));
    assert!(matches!(renew_token(&mut store, false, None), Err(GmailnatorError::TokenFetchError)));
    assert!(matches!(
        renew_token(&mut store, false, Some(String::from("session=1; path=/"))),
        Err(GmailnatorError::TokenFetchError)
    ));
    renew_token(&mut store, false, Some(String::from("csrf_gmailnator_cookie=abc123; expires=x")))
        .unwrap();
    assert_eq!(get_token_sync(&store).unwrap(), "abc123");
    assert!(!token_needs_renewal(&store, false));
    renew_token(&mut store, false, Some(String::from("csrf_gmailnator_cookie=other;"))).unwrap();
    assert_eq!(get_token_sync(&store).unwrap(), "abc123");
    renew_token(&mut store, true, Some(String::from("csrf_gmailnator_cookie=fresh;"))).unwrap();
    assert_eq!(get_token_sync(&store).unwrap(), "fresh");
    set_token_sync(&mut store, String::from("set"));
    assert_eq!(get_token_sync(&store).unwrap(), "set");
}

#[test]
fn token_expiry_replays_once() {
    let mut replay = TokenReplay::new();
    assert!(matches!(
        replay.on_result(Err(GmailnatorError::ServerError(403))),
        ReplayStep::RenewAndReplay
    ));
    assert!(matches!(
        replay.on_result(Err(GmailnatorError::ServerError(403))),
        ReplayStep::Finished(Err(GmailnatorError::ServerError(403)))
    ));
    let mut fresh = TokenReplay::new();
    match fresh.on_result(Ok(String::from("extmp+a@gmail.com"))) {
        ReplayStep::Finished(Ok(body)) => assert_eq!(body, "extmp+a@gmail.com"),
        _ => panic!("a success is final"),
    }
    let mut other = TokenReplay::new();
    assert!(matches!(
        other.on_result(Err(GmailnatorError::ServerError(404))),
        ReplayStep::Finished(Err(GmailnatorError::ServerError(404)))
    ));
}

#[test]
fn error_messages() {
    assert_eq!(
        GmailnatorError::ServerError(500).message(),
        "Server error-ed with status code : 500"
    );
    assert_eq!(
        GmailnatorError::InvalidCountError(1001).message(),
        "Count argument has an invalid value (1001)"
    );
    assert_eq!(
        GmailnatorError::MailServerParsingError(String::from("a@b")).message(),
        "Could not parse mail server of : a@b"
    );
}

#[test]
fn decimal_writing() {
    assert_eq!(decimal_string(0), "0");
    assert_eq!(decimal_string(7), "7");
    assert_eq!(decimal_string(4294967295), "4294967295");
}

#[test]
fn eager_listing_skips_failures() {
    let responses = vec![
        Ok(String::from("<b>first</b><div>1</div><hr /><div>one</div>")),
        Err(GmailnatorError::ServerError(500)),
        Ok(String::from("garbage without markup")),
        Ok(String::from("{\"subject\":\"<b>second</b>\",\"content\":\"<div>two</div>\"}")),
    ];
    let messages = GmailnatorInbox::get_messages(&responses);
    assert_eq!(messages.len(), 2);
    assert_eq!(messages[0].get_subject(), "first");
    assert_eq!(messages[0].get_raw_content(), "one");
    assert_eq!(messages[1].get_subject(), "second");
    assert_eq!(messages[1].get_raw_content(), "two");
}
