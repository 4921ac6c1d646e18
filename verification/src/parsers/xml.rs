//! XML as a sequence of events.

use vstd::prelude::*;
use vstd::utf8::encode_utf8;
use crate::outside::{next_raw_event, pending_events, xml_element, RawXmlEvent};
use crate::text::views;

verus! {

/// Attribute of an element, as it is written.
#[derive(Debug, PartialEq, Eq)]
pub enum XmlAttribute {
    Pair { key: Vec<u8>, value: Vec<u8> },
    /// It cannot be read.
    Broken,
}

/// Mathematical value of [`XmlAttribute`].
pub enum XmlAttributeView {
    Pair { key: Seq<u8>, value: Seq<u8> },
    Broken,
}

impl View for XmlAttribute {
    type V = XmlAttributeView;

    open spec fn view(&self) -> XmlAttributeView {
        match *self {
            XmlAttribute::Pair { key, value } => XmlAttributeView::Pair {
                key: key@,
                value: value@,
            },
            XmlAttribute::Broken => XmlAttributeView::Broken,
        }
    }
}

/// Name and attributes of a tag.
#[derive(Debug, PartialEq, Eq)]
pub struct XmlElement {
    pub name: Vec<u8>,
    pub attributes: Vec<XmlAttribute>,
}

/// Mathematical value of [`XmlElement`].
pub struct XmlElementView {
    pub name: Seq<u8>,
    pub attributes: Seq<XmlAttributeView>,
}

impl View for XmlElement {
    type V = XmlElementView;

    open spec fn view(&self) -> XmlElementView {
        XmlElementView {
            name: self.name@,
            attributes: views(self.attributes@),
        }
    }
}

/// Part of a document.
#[derive(Debug, PartialEq, Eq)]
pub enum XmlEvent {
    Start(XmlElement),
    Empty(XmlElement),
    End(Vec<u8>),
    Text(Vec<u8>),
    CData(Vec<u8>),
    Eof,
    Other,
}

/// Mathematical value of [`XmlEvent`].
pub enum XmlEventView {
    Start(XmlElementView),
    Empty(XmlElementView),
    End(Seq<u8>),
    Text(Seq<u8>),
    CData(Seq<u8>),
    Eof,
    Other,
}

impl View for XmlEvent {
    type V = XmlEventView;

    open spec fn view(&self) -> XmlEventView {
        match *self {
            XmlEvent::Start(x0) => XmlEventView::Start(x0@),
            XmlEvent::Empty(x0) => XmlEventView::Empty(x0@),
            XmlEvent::End(x0) => XmlEventView::End(x0@),
            XmlEvent::Text(x0) => XmlEventView::Text(x0@),
            XmlEvent::CData(x0) => XmlEventView::CData(x0@),
            XmlEvent::Eof => XmlEventView::Eof,
            XmlEvent::Other => XmlEventView::Other,
        }
    }
}

/// The bytes spell the name.
pub open spec fn spells(bytes: Seq<u8>, name: Seq<char>) -> bool {
    bytes == encode_utf8(name)
}

/// Whether the bytes spell the name.
pub fn bytes_spell(bytes: &Vec<u8>, name: &str) -> (r: bool)
    ensures
        r == spells(bytes@, name@),
{
    let wanted = name.as_bytes();
    if bytes.len() != wanted.len() {
        return false;
    }
    let mut i: usize = 0;
    while i < bytes.len()
        invariant
            i <= bytes.len(),
            bytes.len() == wanted@.len(),
            wanted@ == encode_utf8(name@),
            forall|k: int| 0 <= k < i ==> bytes@[k] == wanted@[k],
        decreases bytes.len() - i,
    {
        if bytes[i] != wanted[i] {
            return false;
        }
        i += 1;
    }
    assert(bytes@ =~= wanted@);
    true
}

/// Value of the first attribute of the name; attributes that cannot be read do not count.
pub open spec fn attribute_value(attributes: Seq<XmlAttributeView>, name: Seq<char>) -> Option<
    Seq<u8>,
>
    decreases attributes.len(),
{
    if attributes.len() == 0 {
        None
    } else {
        match attributes[0] {
            XmlAttributeView::Pair { key, value } => if spells(key, name) {
                Some(value)
            } else {
                attribute_value(attributes.skip(1), name)
            },
            XmlAttributeView::Broken => attribute_value(attributes.skip(1), name),
        }
    }
}

impl XmlElement {
    /// Value of the first attribute of the name.
    pub fn attribute(&self, name: &str) -> (r: Option<&Vec<u8>>)
        ensures
            match r {
                Some(value) => attribute_value(self@.attributes, name@) == Some(value@),
                None => attribute_value(self@.attributes, name@) is None,
            },
    {
        let ghost all = self@.attributes;
        let mut i: usize = 0;
        assert(all.skip(0) =~= all);
        while i < self.attributes.len()
            invariant
                i <= self.attributes.len(),
                all == views(self.attributes@),
                attribute_value(all, name@) == attribute_value(all.skip(i as int), name@),
            decreases self.attributes.len() - i,
        {
            let ghost rest = all.skip(i as int);
            assert(rest[0] == self.attributes@[i as int]@);
            assert(rest.skip(1) =~= all.skip(i + 1));
            match &self.attributes[i] {
                XmlAttribute::Pair { key, value } => {
                    if bytes_spell(key, name) {
                        return Some(value);
                    }
                },
                XmlAttribute::Broken => {},
            }
            i += 1;
        }
        None
    }
}

/// Mathematical value of what reading an event gives.
pub open spec fn event_result_view(result: Result<XmlEvent, String>) -> Result<
    XmlEventView,
    Seq<char>,
> {
    match result {
        Ok(event) => Ok(event@),
        Err(message) => Err(message@),
    }
}

/// Next event of the document, the end where none is left.
pub open spec fn first_event(pending: Seq<Result<XmlEventView, Seq<char>>>) -> Result<
    XmlEventView,
    Seq<char>,
> {
    if pending.len() == 0 {
        Ok(XmlEventView::Eof)
    } else {
        pending[0]
    }
}

/// Reads the next event of the document.
pub fn next_event(reader: &mut quick_xml::Reader<&[u8]>) -> (r: Result<XmlEvent, String>)
    ensures
        event_result_view(r) == first_event(pending_events(*old(reader))),
        r is Ok && pending_events(*old(reader)).len() > 0 ==> pending_events(*final(reader))
            == pending_events(*old(reader)).skip(1),
        pending_events(*old(reader)).len() == 0 ==> pending_events(*final(reader)).len() == 0,
{
    match next_raw_event(reader) {
        Ok(RawXmlEvent::Start(tag)) => Ok(XmlEvent::Start(xml_element(&tag))),
        Ok(RawXmlEvent::Empty(tag)) => Ok(XmlEvent::Empty(xml_element(&tag))),
        Ok(RawXmlEvent::End(name)) => Ok(XmlEvent::End(name)),
        Ok(RawXmlEvent::Text(bytes)) => Ok(XmlEvent::Text(bytes)),
        Ok(RawXmlEvent::CData(bytes)) => Ok(XmlEvent::CData(bytes)),
        Ok(RawXmlEvent::Eof) => Ok(XmlEvent::Eof),
        Ok(RawXmlEvent::Other) => Ok(XmlEvent::Other),
        Err(message) => Err(message),
    }
}

} // verus!
