//! Calls into the standard library and outside crates whose results are not proved here.

use quick_xml::events::Event;
use vstd::prelude::*;
use vstd::utf8::{encode_utf8, is_ascii_chars, valid_utf8};
use crate::parsers::xml::{XmlAttribute, XmlElement, XmlElementView, XmlEventView};
use crate::text::opt_text;
use crate::text_scan::ascii_lowered;

verus! {

/// What `String::from_utf8_lossy` makes of the bytes.
pub uninterp spec fn lossy_text(bytes: Seq<u8>) -> Seq<char>;

/// Calls `String::from_utf8_lossy`. Bytes that are valid UTF-8 are decoded unchanged; how invalid
/// sequences are replaced is left to the name `lossy_text`.
#[verifier::external_body]
pub(crate) fn decode_lossy(bytes: &Vec<u8>) -> (r: String)
    ensures
        r@ == lossy_text(bytes@),
        valid_utf8(bytes@) ==> encode_utf8(r@) == bytes@,
{
    String::from_utf8_lossy(bytes).into_owned()
}

/// Calls `String::from_utf8`: the text that the bytes encode, or why they encode none. Nothing is
/// claimed of the words of that reason.
#[verifier::external_body]
pub(crate) fn decode_utf8(bytes: Vec<u8>) -> (r: Result<String, String>)
    ensures
        match r {
            Ok(text) => valid_utf8(bytes@) && encode_utf8(text@) == bytes@,
            Err(_) => !valid_utf8(bytes@),
        },
{
    String::from_utf8(bytes).map_err(|e| e.to_string())
}

/// What `str::to_lowercase` makes of the text.
pub uninterp spec fn lowercase(text: Seq<char>) -> Seq<char>;

/// Calls `str::to_lowercase`: the Unicode lower case of the text, under the name `lowercase`. Text
/// in ASCII has only its capital letters changed.
#[verifier::external_body]
pub(crate) fn to_lowercase(text: &str) -> (r: String)
    ensures
        r@ == lowercase(text@),
        is_ascii_chars(text@) ==> r@ == ascii_lowered(text@),
{
    text.to_lowercase()
}

/// `std::time::Instant`, a reading of the monotonic clock.
#[verifier::external_type_specification]
#[verifier::external_body]
pub struct ExInstant(std::time::Instant);

/// Calls `Instant::now`. Nothing is claimed of the reading.
#[verifier::external_body]
pub(crate) fn clock_reading() -> (r: std::time::Instant) {
    std::time::Instant::now()
}

/// Calls `Instant::elapsed` and gives the whole milliseconds. Nothing is claimed of their number,
/// which depends on the clock.
#[verifier::external_body]
pub(crate) fn elapsed_millis(since: &std::time::Instant) -> (r: u64) {
    since.elapsed().as_millis() as u64
}

/// `serde_json::Value`, a JSON document.
#[verifier::external_type_specification]
#[verifier::external_body]
pub struct ExJsonValue(serde_json::Value);

/// Members of a JSON object that are texts, by name. A document that is no object has none.
pub uninterp spec fn text_members(value: serde_json::Value) -> Map<Seq<char>, Seq<char>>;

/// Text members of the JSON document that the bytes hold, where they hold one.
pub uninterp spec fn json_text_members_of(bytes: Seq<u8>) -> Option<Map<Seq<char>, Seq<char>>>;

/// Calls `serde_json::from_slice`: the document that the bytes hold, if they hold one.
#[verifier::external_body]
pub(crate) fn parse_json(bytes: &Vec<u8>) -> (r: Option<serde_json::Value>)
    ensures
        match r {
            Some(value) => json_text_members_of(bytes@) == Some(text_members(value)),
            None => json_text_members_of(bytes@) is None,
        },
{
    serde_json::from_slice::<serde_json::Value>(bytes).ok()
}

/// Calls `serde_json::Value::get` and `as_str`: the text under the name, if there is one.
#[verifier::external_body]
pub(crate) fn text_member(value: &serde_json::Value, name: &str) -> (r: Option<String>)
    ensures
        match r {
            Some(text) => text_members(*value).contains_key(name@) && text_members(*value)[name@]
                == text@,
            None => !text_members(*value).contains_key(name@),
        },
{
    value.get(name).and_then(serde_json::Value::as_str).map(str::to_owned)
}

/// `regex::Regex`, a compiled pattern.
#[verifier::external_type_specification]
#[verifier::external_body]
pub struct ExRegex(regex::Regex);

/// Pattern that a regular expression was made of.
pub uninterp spec fn regex_source(re: regex::Regex) -> Seq<char>;

/// Whether a match of the pattern stands in the text.
pub uninterp spec fn regex_matches(pattern: Seq<char>, text: Seq<char>) -> bool;

/// Groups of the first match of the pattern in the text, the whole match first; a group that took
/// no part in the match is absent.
pub uninterp spec fn regex_groups_of(pattern: Seq<char>, text: Seq<char>) -> Option<
    Seq<Option<Seq<char>>>,
>;

/// Start of an issue in a module: `{Extension Path(line,column)}: message`.
pub open spec fn module_issue_pattern() -> Seq<char> {
    "^\\{(?:(?P<extension>[[:word:]А-Яа-яЁё_]+)\\s)?(?P<path>[^}]+)\\((?P<line>\\d+),(?P<column>\\d+)\\)}:\\s*(?P<message>.+)$"@
}

/// Line that shows the code of an issue: `{12}:`.
pub open spec fn module_context_pattern() -> Seq<char> {
    "^\\{\\d+\\}\\s*:"@
}

/// Time at the start of a log line: `12:34:56.789`.
pub open spec fn timestamp_pattern() -> Seq<char> {
    "^\\d{2}:\\d{2}:\\d{2}\\.\\d{3}"@
}

/// Mathematical value of the groups of a match.
pub open spec fn groups_view(groups: Option<Vec<Option<String>>>) -> Option<
    Seq<Option<Seq<char>>>,
> {
    match groups {
        Some(list) => Some(list@.map_values(|g: Option<String>| opt_text(g))),
        None => None,
    }
}

/// Calls `regex::Regex::new`. It panics on a pattern that is not well-formed, so only the three
/// patterns of this library are let through.
#[verifier::external_body]
pub(crate) fn compile_regex(pattern: &str) -> (r: regex::Regex)
    requires
        pattern@ == module_issue_pattern() || pattern@ == module_context_pattern() || pattern@
            == timestamp_pattern(),
    ensures
        regex_source(r) == pattern@,
{
    regex::Regex::new(pattern).expect("pattern of this library")
}

/// Calls `regex::Regex::is_match`: whether a match stands in the text.
#[verifier::external_body]
pub(crate) fn regex_is_match(re: &regex::Regex, text: &str) -> (r: bool)
    ensures
        r == regex_matches(regex_source(*re), text@),
{
    re.is_match(text)
}

/// Calls `regex::Regex::captures`: the groups of the first match, where there is one.
#[verifier::external_body]
pub(crate) fn regex_groups(re: &regex::Regex, text: &str) -> (r: Option<Vec<Option<String>>>)
    ensures
        groups_view(r) == regex_groups_of(regex_source(*re), text@),
{
    let found = re.captures(text)?;
    Some(found.iter().map(|group| group.map(|m| m.as_str().to_owned())).collect())
}

/// `quick_xml::Reader`, a reader of XML events.
#[verifier::external_type_specification]
#[verifier::external_body]
#[verifier::reject_recursive_types(R)]
pub struct ExXmlReader<R>(quick_xml::Reader<R>);

/// `quick_xml::events::BytesStart`, a start tag.
#[verifier::external_type_specification]
#[verifier::external_body]
pub struct ExBytesStart<'a>(quick_xml::events::BytesStart<'a>);

/// Event of `quick_xml` with its tag as the reader gives it.
pub enum RawXmlEvent {
    Start(quick_xml::events::BytesStart<'static>),
    Empty(quick_xml::events::BytesStart<'static>),
    End(Vec<u8>),
    Text(Vec<u8>),
    CData(Vec<u8>),
    Eof,
    Other,
}

/// Name and attributes that a tag holds.
pub uninterp spec fn element_content(tag: quick_xml::events::BytesStart<'static>) -> XmlElementView;

/// Events that a reader has yet to give before the end of the document. Where one of them is an
/// error it is the last one.
pub uninterp spec fn pending_events(reader: quick_xml::Reader<&[u8]>) -> Seq<
    Result<XmlEventView, Seq<char>>,
>;

/// Events of the document that the bytes hold, up to its end or the first error.
pub uninterp spec fn xml_events_of(bytes: Seq<u8>) -> Seq<Result<XmlEventView, Seq<char>>>;

/// What an event holds.
pub open spec fn raw_event_view(event: RawXmlEvent) -> XmlEventView {
    match event {
        RawXmlEvent::Start(tag) => XmlEventView::Start(element_content(tag)),
        RawXmlEvent::Empty(tag) => XmlEventView::Empty(element_content(tag)),
        RawXmlEvent::End(name) => XmlEventView::End(name@),
        RawXmlEvent::Text(bytes) => XmlEventView::Text(bytes@),
        RawXmlEvent::CData(bytes) => XmlEventView::CData(bytes@),
        RawXmlEvent::Eof => XmlEventView::Eof,
        RawXmlEvent::Other => XmlEventView::Other,
    }
}

/// What reading an event gives.
pub open spec fn raw_result_view(result: Result<RawXmlEvent, String>) -> Result<
    XmlEventView,
    Seq<char>,
> {
    match result {
        Ok(event) => Ok(raw_event_view(event)),
        Err(message) => Err(message@),
    }
}

/// Calls `quick_xml::Reader::from_reader`: a reader at the start of the document.
#[verifier::external_body]
pub(crate) fn open_xml(bytes: &Vec<u8>) -> (r: quick_xml::Reader<&[u8]>)
    ensures
        pending_events(r) == xml_events_of(bytes@),
{
    quick_xml::Reader::from_reader(bytes.as_slice())
}

/// Calls `quick_xml::Reader::read_event_into`: the first of the events yet to come, which is then
/// gone, or the end where none is left. After an error nothing is claimed of the reader.
#[verifier::external_body]
pub(crate) fn next_raw_event(reader: &mut quick_xml::Reader<&[u8]>) -> (r: Result<
    RawXmlEvent,
    String,
>)
    ensures
        pending_events(*old(reader)).len() == 0 ==> r is Ok && r->Ok_0 is Eof && pending_events(
            *final(reader),
        ).len() == 0,
        pending_events(*old(reader)).len() > 0 ==> raw_result_view(r) == pending_events(
            *old(reader),
        )[0] && (r is Ok ==> pending_events(*final(reader)) == pending_events(*old(reader)).skip(1)),
{
    let mut buf = Vec::new();
    Ok(match reader.read_event_into(&mut buf).map_err(|e| e.to_string())? {
        Event::Start(tag) => RawXmlEvent::Start(tag.into_owned()),
        Event::Empty(tag) => RawXmlEvent::Empty(tag.into_owned()),
        Event::End(tag) => RawXmlEvent::End(tag.name().as_ref().to_vec()),
        Event::Text(text) => RawXmlEvent::Text(text.to_vec()),
        Event::CData(text) => RawXmlEvent::CData(text.to_vec()),
        Event::Eof => RawXmlEvent::Eof,
        _ => RawXmlEvent::Other,
    })
}

/// Calls `BytesStart::name` and `BytesStart::attributes`: the content of the tag, an attribute that
/// the iterator reports as an error given as broken.
#[verifier::external_body]
pub(crate) fn xml_element(tag: &quick_xml::events::BytesStart<'static>) -> (r: XmlElement)
    ensures
        r@ == element_content(*tag),
{
    let attributes = tag.attributes().map(|a| match a {
        Ok(a) => XmlAttribute::Pair { key: a.key.as_ref().to_vec(), value: a.value.to_vec() },
        Err(_) => XmlAttribute::Broken,
    });
    XmlElement { name: tag.name().as_ref().to_vec(), attributes: attributes.collect() }
}

} // verus!
