//! The event stream the parser consumes, and the trusted reader that
//! produces it from an XML document. Only the element names and the
//! character data matter to the feed logic; every other kind of event
//! (declarations, attributes, comments, whitespace, CDATA) is `Other`.

use vstd::prelude::*;

verus! {

/// One XML parse event, reduced to what the feed logic reads.
#[derive(Debug)]
pub enum Event {
    /// An element-open event, carrying the element's local name.
    Open(String),
    /// An element-close event, carrying the element's local name.
    Close(String),
    /// A character-data event, carrying the unescaped text.
    Text(String),
    /// Any other event kind; the parser ignores it.
    Other,
}

/// The mathematical value of an `Event`.
pub enum EventV {
    Open(Seq<char>),
    Close(Seq<char>),
    Text(Seq<char>),
    Other,
}

impl View for Event {
    type V = EventV;

    open spec fn view(&self) -> EventV {
        match self {
            Event::Open(name) => EventV::Open(name@),
            Event::Close(name) => EventV::Close(name@),
            Event::Text(data) => EventV::Text(data@),
            Event::Other => EventV::Other,
        }
    }
}

/// The views of a sequence of events, element by element.
pub open spec fn events_view(s: Seq<Event>) -> Seq<EventV> {
    s.map_values(|e: Event| e@)
}

/// The event stream that a well-formed XML document tokenizes to, or
/// `None` when the document is malformed. The stream is a function of the
/// document text alone.
pub uninterp spec fn xml_events_of(s: Seq<char>) -> Option<Seq<EventV>>;

/// Relies on `xml::reader::EventReader` (the `xml-rs` crate): iterating it
/// over the document yields one event per XML token, in document order,
/// until the end of the document or the first well-formedness error.
/// `StartElement`, `EndElement` and `Characters` are kept, with the
/// element's local name or the character data; every other event kind
/// becomes `Other`; an error becomes `Err` with the reader's message.
#[verifier::external_body]
pub(crate) fn read_events(data: &str) -> (r: Result<Vec<Event>, String>)
    ensures
        (r is Ok) == (xml_events_of(data@) is Some),
        r matches Ok(v) ==> xml_events_of(data@) == Some(events_view(v@)),
{
    let mut out = Vec::new();
    for event in xml::reader::EventReader::new(data.as_bytes()) {
        match event {
            Ok(xml::reader::XmlEvent::StartElement { name, .. }) => out.push(Event::Open(name.local_name)),
            Ok(xml::reader::XmlEvent::EndElement { name }) => out.push(Event::Close(name.local_name)),
            Ok(xml::reader::XmlEvent::Characters(data)) => out.push(Event::Text(data)),
            Ok(_) => {}
            Err(e) => return Err(e.to_string()),
        }
    }
    Ok(out)
}

} // verus!
