//! The events of an XML document, as the crawler consumes them, and the
//! tokenizer that produces them from the bytes of a document.

use crate::text::bytes_eq;
use vstd::prelude::*;
use vstd::string::StringSliceAdditionalSpecFns;
use xml::reader::EventReader;
use xml::reader::ParserConfig;

verus! {

/// An attribute of an element: its local name and its value.
#[derive(Clone, Debug)]
pub struct XmlAttribute {
    pub name: Vec<u8>,
    pub value: Vec<u8>,
}

/// One event of the forward-only stream that a document is read as.
#[derive(Clone, Debug)]
pub enum XmlEvent {
    /// An opening tag, with its attributes in the order of the document.
    StartElement { name: Vec<u8>, attributes: Vec<XmlAttribute> },
    /// A closing tag.
    EndElement { name: Vec<u8> },
    /// Character data between tags.
    Characters { text: Vec<u8> },
    /// The end of the document.
    End,
    /// Anything that the crawler has no use for: the document's declaration,
    /// a processing instruction, a comment, a CDATA block, white space.
    Other,
    /// The document is not well-formed XML from here on.
    Malformed,
}

/// What an [`XmlAttribute`] holds.
pub struct AttrView {
    pub name: Seq<u8>,
    pub value: Seq<u8>,
}

/// What an [`XmlEvent`] holds.
pub enum EventView {
    StartElement { name: Seq<u8>, attributes: Seq<AttrView> },
    EndElement { name: Seq<u8> },
    Characters { text: Seq<u8> },
    End,
    Other,
    Malformed,
}

impl View for XmlAttribute {
    type V = AttrView;

    open spec fn view(&self) -> AttrView {
        AttrView { name: self.name@, value: self.value@ }
    }
}

/// The views of the attributes of `v`.
pub open spec fn attrs_view(v: Seq<XmlAttribute>) -> Seq<AttrView> {
    Seq::new(v.len(), |i: int| v[i]@)
}

impl View for XmlEvent {
    type V = EventView;

    open spec fn view(&self) -> EventView {
        match *self {
            XmlEvent::StartElement { name, attributes } => EventView::StartElement {
                name: name@,
                attributes: attrs_view(attributes@),
            },
            XmlEvent::EndElement { name } => EventView::EndElement { name: name@ },
            XmlEvent::Characters { text } => EventView::Characters { text: text@ },
            XmlEvent::End => EventView::End,
            XmlEvent::Other => EventView::Other,
            XmlEvent::Malformed => EventView::Malformed,
        }
    }
}

/// The views of the events of `v`.
pub open spec fn events_view(v: Seq<XmlEvent>) -> Seq<EventView> {
    Seq::new(v.len(), |i: int| v[i]@)
}

impl EventView {
    /// Whether no event follows this one.
    pub open spec fn is_last(self) -> bool {
        self is End || self is Malformed
    }
}

/// The value of the first attribute of `attrs` that is named `key`.
pub open spec fn attr_value(attrs: Seq<AttrView>, key: Seq<u8>) -> Option<Seq<u8>>
    decreases attrs.len(),
{
    if attrs.len() == 0 {
        None
    } else if attrs[0].name == key {
        Some(attrs[0].value)
    } else {
        attr_value(attrs.drop_first(), key)
    }
}

proof fn lemma_attr_value_skip(attrs: Seq<AttrView>, key: Seq<u8>, i: int)
    requires
        0 <= i <= attrs.len(),
        forall|j: int| 0 <= j < i ==> attrs[j].name != key,
    ensures
        attr_value(attrs, key) == attr_value(attrs.skip(i), key),
    decreases i,
{
    if i == 0 {
        assert(attrs.skip(0) =~= attrs);
    } else {
        lemma_attr_value_skip(attrs.drop_first(), key, i - 1);
        assert(attrs.drop_first().skip(i - 1) =~= attrs.skip(i));
    }
}

/// The value of the first attribute named `key`, if there is one.
pub fn find_attribute<'a>(attributes: &'a Vec<XmlAttribute>, key: &str) -> (value: Option<&'a [u8]>)
    ensures
        value.is_some() == attr_value(attrs_view(attributes@), key.spec_bytes()).is_some(),
        value matches Some(v) ==> attr_value(attrs_view(attributes@), key.spec_bytes()) == Some(
            v@,
        ),
{
    let n = attributes.len();
    let mut i: usize = 0;
    while i < n
        invariant
            i <= n,
            n == attributes@.len(),
            forall|j: int| 0 <= j < i ==> attrs_view(attributes@)[j].name != key.spec_bytes(),
        decreases n - i,
    {
        if bytes_eq(attributes[i].name.as_slice(), key.as_bytes()) {
            proof {
                lemma_attr_value_skip(attrs_view(attributes@), key.spec_bytes(), i as int);
            }
            return Some(attributes[i].value.as_slice());
        }
        i += 1;
    }
    proof {
        lemma_attr_value_skip(attrs_view(attributes@), key.spec_bytes(), n as int);
    }
    None
}

/// The pull parser of the `xml` crate over the bytes of a document; nothing
/// of its state is visible here.
#[verifier::external_body]
pub struct EventSource<'a> {
    reader: EventReader<&'a [u8]>,
}

/// The events that a document of the bytes `bytes` is read as when white
/// space around character data is trimmed: every event up to and including
/// the first that ends the stream.
pub uninterp spec fn xml_events(bytes: Seq<u8>) -> Seq<EventView>;

/// The events that `reader` has yet to give, the one that ends the stream
/// included.
pub uninterp spec fn remaining_events(source: EventSource) -> Seq<EventView>;

/// Calls `EventReader::new_with_config` on the bytes, with a configuration
/// from `ParserConfig::new` in which `trim_whitespace` is switched on. The
/// reader has yet to give all the events of the document.
#[verifier::external_body]
fn open_reader<'a>(bytes: &'a [u8]) -> (source: EventSource<'a>)
    ensures
        remaining_events(source) == xml_events(bytes@),
{
    let config = ParserConfig::new().trim_whitespace(true);
    EventSource { reader: EventReader::new_with_config(bytes, config) }
}

/// Calls `EventReader::next` and hands the event on: the local name of a tag
/// and of each of its attributes, the text of character data. It is the
/// first of the events that the reader had yet to give. An event that ends
/// the stream is the only one left and stays: the reader gives it again on
/// every later call. Any other event is consumed.
#[verifier::external_body]
fn next_event(source: &mut EventSource) -> (event: XmlEvent)
    ensures
        remaining_events(*old(source)).len() > 0,
        event@ == remaining_events(*old(source))[0],
        event@.is_last() ==> remaining_events(*old(source)).len() == 1 && remaining_events(
            *final(source),
        ) == remaining_events(*old(source)),
        !event@.is_last() ==> remaining_events(*final(source)) == remaining_events(
            *old(source),
        ).drop_first(),
{
    match source.reader.next() {
        Ok(xml::reader::XmlEvent::StartElement { name, attributes, .. }) => XmlEvent::StartElement {
            name: name.local_name.into_bytes(),
            attributes: attributes.into_iter().map(
                |a| XmlAttribute { name: a.name.local_name.into_bytes(), value: a.value.into_bytes() },
            ).collect(),
        },
        Ok(xml::reader::XmlEvent::EndElement { name }) => XmlEvent::EndElement {
            name: name.local_name.into_bytes(),
        },
        Ok(xml::reader::XmlEvent::Characters(text)) => XmlEvent::Characters { text: text.into_bytes() },
        Ok(xml::reader::XmlEvent::EndDocument) => XmlEvent::End,
        Ok(_) => XmlEvent::Other,
        Err(_) => XmlEvent::Malformed,
    }
}

/// Reads the whole document: every event up to and including the one that
/// ends the stream.
pub fn read_events(bytes: &[u8]) -> (events: Vec<XmlEvent>)
    ensures
        events_view(events@) == xml_events(bytes@),
{
    let mut reader = open_reader(bytes);
    let mut events: Vec<XmlEvent> = Vec::new();
    assert(events_view(events@) + remaining_events(reader) =~= xml_events(bytes@));
    loop
        invariant_except_break
            events_view(events@) + remaining_events(reader) == xml_events(bytes@),
        ensures
            events_view(events@) == xml_events(bytes@),
        decreases remaining_events(reader).len(),
    {
        let ghost before = events@;
        let ghost pending = remaining_events(reader);
        let event = next_event(&mut reader);
        let last = match &event {
            XmlEvent::End => true,
            XmlEvent::Malformed => true,
            _ => false,
        };
        events.push(event);
        assert(events_view(events@) =~= events_view(before).push(pending[0]));
        if last {
            assert(events_view(events@) =~= events_view(before) + pending);
            break;
        }
        assert(events_view(events@) + pending.drop_first() =~= events_view(before) + pending);
    }
    events
}

} // verus!
