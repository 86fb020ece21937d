//! Bindings to the HTML, JSON, entity and regular-expression crates that the
//! parsers rely on. Each function here is trusted: its contract names what the
//! outside crate computes, and the parsers are verified against those names.
use vstd::prelude::*;

verus! {

/// The views of an optional string.
pub open spec fn opt_view(o: Option<String>) -> Option<Seq<char>> {
    match o {
        Some(s) => Some(s@),
        None => None,
    }
}

/// The views of a sequence of optional strings.
pub open spec fn opt_views(v: Seq<Option<String>>) -> Seq<Option<Seq<char>>> {
    v.map_values(|o: Option<String>| opt_view(o))
}

/// The string member `key` of the JSON object written in `doc`: none when `doc`
/// is not a JSON object or the member is absent or not a string.
pub uninterp spec fn json_string_field(doc: Seq<char>, key: Seq<char>) -> Option<Seq<char>>;

/// The inner HTML of the first element that the CSS `selector` matches in the
/// HTML fragment `fragment`.
pub uninterp spec fn first_inner_html(fragment: Seq<char>, selector: Seq<char>) -> Option<
    Seq<char>,
>;

/// For each element that the CSS `selector` matches in the HTML document
/// `document`, in document order, its first text node.
pub uninterp spec fn first_texts(document: Seq<char>, selector: Seq<char>) -> Seq<
    Option<Seq<char>>,
>;

/// For each successive non-overlapping match of the regular expression
/// `pattern` in `text`, what its first capture group matched.
pub uninterp spec fn first_groups(pattern: Seq<char>, text: Seq<char>) -> Seq<Option<Seq<char>>>;

/// The text `s` with its HTML entities replaced by the characters they stand
/// for; none when `s` holds a malformed or unknown entity.
pub uninterp spec fn html_decoded(s: Seq<char>) -> Option<Seq<char>>;

/// Relies on `serde_json::from_str` into a `serde_json::Value`, then
/// `Value::get` and `Value::as_str`, for the string member `key` of `doc`.
#[verifier::external_body]
pub(crate) fn json_string_member(doc: &str, key: &str) -> (r: Option<String>)
    ensures
        opt_view(r) == json_string_field(doc@, key@),
{
    let value: serde_json::Value = serde_json::from_str(doc).ok()?;
    value.get(key)?.as_str().map(|s| s.to_string())
}

/// Relies on `scraper::Html::parse_fragment`, `scraper::Selector::parse`,
/// `Html::select` and `ElementRef::inner_html`, for the first match of
/// `selector` in `fragment`.
#[verifier::external_body]
pub(crate) fn select_first_inner_html(fragment: &str, selector: &str) -> (r: Option<String>)
    ensures
        opt_view(r) == first_inner_html(fragment@, selector@),
{
    let selector = scraper::Selector::parse(selector).ok()?;
    let html = scraper::Html::parse_fragment(fragment);
    let inner = html.select(&selector).next().map(|e| e.inner_html());
    inner
}

/// Relies on `scraper::Html::parse_document`, `scraper::Selector::parse`,
/// `Html::select` and `ElementRef::text`, for the first text node of every
/// match of `selector` in `document`.
#[verifier::external_body]
pub(crate) fn select_first_texts(document: &str, selector: &str) -> (r: Vec<Option<String>>)
    ensures
        opt_views(r@) == first_texts(document@, selector@),
{
    let html = scraper::Html::parse_document(document);
    match scraper::Selector::parse(selector) {
        Ok(selector) => html.select(&selector).map(|e| e.text().next().map(|t| t.to_string())).collect(),
        Err(_) => Vec::new(),
    }
}

/// Relies on `regex::Regex::new` and `Regex::captures_iter`, for the first
/// capture group of every match of `pattern` in `text`.
#[verifier::external_body]
pub(crate) fn regex_first_groups(pattern: &str, text: &str) -> (r: Vec<Option<String>>)
    ensures
        opt_views(r@) == first_groups(pattern@, text@),
{
    match regex::Regex::new(pattern) {
        Ok(re) => re.captures_iter(text).map(|c| c.get(1).map(|m| m.as_str().to_string())).collect(),
        Err(_) => Vec::new(),
    }
}

#[verifier::external_type_specification]
#[verifier::external_body]
pub struct ExDecodeErr(htmlescape::DecodeErr);

/// Relies on `htmlescape::decode_html`: the decoded text, or an error on a
/// malformed entity. Text without `&` holds no entity and comes back as it is.
pub assume_specification[ htmlescape::decode_html ](s: &str)
    -> (r: Result<String, htmlescape::DecodeErr>)
    ensures
        r is Ok <==> html_decoded(s@) is Some,
        r matches Ok(d) ==> html_decoded(s@) == Some(d@),
        !s@.contains('&') ==> r is Ok && r->Ok_0@ == s@,
;

} // verus!
