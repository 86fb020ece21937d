//! The library's error type.
use vstd::prelude::*;
use crate::text::{decimal_digits, decimal_string};

verus! {

/// Every error that the library reports.
#[derive(Debug)]
pub enum GmailnatorError {
    /// Stores the error code returned by the server.
    ServerError(u16),
    /// Stores the address whose mail server could not be identified.
    MailServerParsingError(String),
    /// Stores the response whose html lacked an expected element.
    HtmlParsingError(String),
    /// Returned by the bulk creation when its count is out of range.
    InvalidCountError(u32),
    /// Returned when malformed html entities are found in a document.
    HtmlDecodingError,
    /// Stores the response that did not have the expected json shape.
    JsonParsingError(String),
    /// Returned when no csrf token could be obtained from the provider.
    TokenFetchError,
}

/// The human-readable text of an error.
pub open spec fn message_of(e: GmailnatorError) -> Seq<char> {
    match e {
        GmailnatorError::MailServerParsingError(address) => "Could not parse mail server of : "@
            + address@,
        GmailnatorError::ServerError(code) => "Server error-ed with status code : "@
            + decimal_digits(code as nat),
        GmailnatorError::HtmlParsingError(html) =>
            "Error occured while parsing the following html element : "@ + html@,
        GmailnatorError::InvalidCountError(count) => "Count argument has an invalid value ("@
            + decimal_digits(count as nat) + ")"@,
        GmailnatorError::HtmlDecodingError => "Malformed html entities were encountered."@,
        GmailnatorError::JsonParsingError(json) => "Invalid json string : "@ + json@,
        GmailnatorError::TokenFetchError => "Could not obtain a csrf token from the server."@,
    }
}

impl GmailnatorError {
    /// The human-readable text of this error.
    pub fn message(&self) -> (r: String)
        ensures
            r@ == message_of(*self),
    {
        match self {
            GmailnatorError::MailServerParsingError(address) => {
                String::from_str("Could not parse mail server of : ").concat(address.as_str())
            },
            GmailnatorError::ServerError(code) => {
                let digits = decimal_string(*code as u32);
                String::from_str("Server error-ed with status code : ").concat(digits.as_str())
            },
            GmailnatorError::HtmlParsingError(html) => {
                String::from_str("Error occured while parsing the following html element : ").concat(
                    html.as_str(),
                )
            },
            GmailnatorError::InvalidCountError(count) => {
                let digits = decimal_string(*count);
                String::from_str("Count argument has an invalid value (").concat(
                    digits.as_str(),
                ).concat(")")
            },
            GmailnatorError::HtmlDecodingError => {
                String::from_str("Malformed html entities were encountered.")
            },
            GmailnatorError::JsonParsingError(json) => {
                String::from_str("Invalid json string : ").concat(json.as_str())
            },
            GmailnatorError::TokenFetchError => {
                String::from_str("Could not obtain a csrf token from the server.")
            },
        }
    }
}

} // verus!
