use gmailnator::{GmailnatorError, GmailnatorInbox, MailMessage};

fn bulk_html(count: u32) -> String {
    let mut html = String::from("<html><body><div id=\"email-list-message\">");
    for i in 0..count {
        html.push_str(&format!("<a href=\"#\">extmp+box{}@gmail.com</a>", i));
    }
    html.push_str("</div></body></html>");
    html
}

fn provider_address() -> Result<String, GmailnatorError> {
    Ok(String::from("extmp+x1y2z3@gmail.com"))
}

#[test]
fn create_inbox() {
    let inbox = GmailnatorInbox::new(provider_address()).expect("Failed to create an inbox.");

    let address = inbox.get_address();

    println!("Inbox created with email : {}", address);

    assert!(address.contains('@'))
}

#[test]
fn retrieve_messages_iter() {
    let inbox = GmailnatorInbox::new(provider_address()).unwrap();

    let mut message_iter = inbox.get_messages_iter(Ok(String::new())).unwrap();

    assert!(message_iter.next_query("").is_none());
}

#[test]
fn create_inbox_from_existing_address() {
    let new_address = GmailnatorInbox::new(provider_address()).unwrap();
    let new_address = new_address.get_address();

    let inbox = GmailnatorInbox::from_address(new_address).unwrap();

    assert_eq!(inbox.get_address(), new_address);
}

#[test]
fn create_bulk() {
    let count: u32 = 1;

    let inboxes = GmailnatorInbox::new_bulk(count, Ok(bulk_html(count))).unwrap();

    assert_eq!(inboxes.len() as u32, count);
}

#[test]
fn create_bulk_larger() {
    let count: u32 = 1000;

    let inboxes = GmailnatorInbox::new_bulk(count, Ok(bulk_html(count))).unwrap();

    assert_eq!(inboxes.len() as u32, count);
}

#[test]
fn create_bulk_invalid() {
    assert!(GmailnatorInbox::new_bulk(0, Ok(String::new())).is_err())
}

#[test]
fn parse_mail_message_classic() {
    let json = "{\"subject\":\"<b>subject<\\/b><div>5 hrs ago<hr \\/><\\/div>\",\"content\":\"<div dir=\\\"ltr\\\">content<\\/div>\\r\\n\"}";

    let message = MailMessage::parse(json).unwrap();

    assert_eq!(message.get_subject(), "subject");

    assert_eq!(message.decode_content().unwrap(), "content");
    assert_eq!(message.get_raw_content(), "content");
}
