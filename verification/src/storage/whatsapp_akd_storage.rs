//! The directory that WhatsApp publishes: an object store queried over
//! HTTP. This module holds what the client computes, that is the addresses
//! it asks for and what it makes of the listings it gets back; the requests
//! themselves are made by its caller.

use vstd::prelude::*;
use crate::audit_blob_name::{blob_name_text, parsed_blob_name, SerializableAuditBlobName};
use crate::storage::{AkdProofDirectoryError, AkdProofNameError};
use crate::text::{decimal, decimal_string, string_from_utf8, utf8_text};

verus! {

/// Where WhatsApp publishes its proofs.
pub const WHATSAPP_BASE_URL: &'static str = "https://d1tfr3x7n136ak.cloudfront.net";

/// Header that the listing requests carry to keep caches out of the way.
pub const CACHE_CONTROL_NO_STORE: &'static str = "no-store";

/// One event of reading an XML document.
#[derive(Debug)]
pub enum XmlEvent {
    /// A start tag; the payload is the tag's name.
    Start(Vec<u8>),
    /// Character data between tags.
    Text(Vec<u8>),
    /// Anything else that is well formed.
    Other,
    /// The document is malformed here; the payload is the parser's message.
    Error(String),
}

/// The mathematical value of an `XmlEvent`.
pub enum XmlEventView {
    Start(Seq<u8>),
    Text(Seq<u8>),
    Other,
    Error(Seq<char>),
}

impl View for XmlEvent {
    type V = XmlEventView;

    open spec fn view(&self) -> XmlEventView {
        match self {
            XmlEvent::Start(name) => XmlEventView::Start(name@),
            XmlEvent::Text(text) => XmlEventView::Text(text@),
            XmlEvent::Other => XmlEventView::Other,
            XmlEvent::Error(message) => XmlEventView::Error(message@),
        }
    }
}

/// The values of a list of events.
pub open spec fn event_views(events: Seq<XmlEvent>) -> Seq<XmlEventView> {
    events.map_values(|event: XmlEvent| event@)
}

/// The events that `quick_xml` reads from a document, up to its end or to
/// the first place where it is malformed.
pub uninterp spec fn listing_events(body: Seq<u8>) -> Seq<XmlEventView>;

/// `quick_xml::Reader::read_event_into`, called until the document ends or
/// an error comes: the events in order. Start tags and character data keep
/// their bytes, an error is the last event, the end of the document is not
/// listed.
#[verifier::external_body]
fn xml_events(body: &[u8]) -> (events: Vec<XmlEvent>)
    ensures
        event_views(events@) == listing_events(body@),
{
    let mut reader = quick_xml::Reader::from_reader(body);
    let (mut buf, mut events) = (Vec::new(), Vec::new());
    loop {
        match reader.read_event_into(&mut buf) {
            Ok(quick_xml::events::Event::Start(e)) => events.push(XmlEvent::Start(e.name().as_ref().to_vec())),
            Ok(quick_xml::events::Event::Text(e)) => events.push(XmlEvent::Text(e.as_ref().to_vec())),
            Ok(quick_xml::events::Event::Eof) => return events,
            Ok(_) => events.push(XmlEvent::Other),
            Err(e) => { events.push(XmlEvent::Error(e.to_string())); return events },
        }
        buf.clear();
    }
}

/// The name of the element that holds the key of a listed object.
pub open spec fn key_element() -> Seq<u8> {
    seq![75u8, 101u8, 121u8]
}

/// What a listing says about the first key it lists.
pub enum ListedKey {
    /// The character data that follows the first `Key` start tag.
    Key(Seq<u8>),
    /// The listing holds no key.
    Absent,
    /// The listing is malformed before any key; the payload is the
    /// parser's message.
    Malformed(Seq<char>),
}

/// What the events of a listing, read from position `from` on, say about
/// the first key. A `Key` start tag that is not followed by character data
/// is passed over together with the event after it. Where that event is an
/// error, the error is passed over too; since a listing is read no further
/// than its first malformed place, no key is found then.
pub open spec fn first_key(events: Seq<XmlEventView>, from: int) -> ListedKey
    decreases events.len() - from,
{
    if from < 0 || from >= events.len() {
        ListedKey::Absent
    } else {
        match events[from] {
            XmlEventView::Start(name) => if name == key_element() {
                if from + 1 >= events.len() {
                    ListedKey::Absent
                } else if events[from + 1] is Text {
                    ListedKey::Key(events[from + 1]->Text_0)
                } else {
                    first_key(events, from + 2)
                }
            } else {
                first_key(events, from + 1)
            },
            XmlEventView::Error(message) => ListedKey::Malformed(message),
            _ => first_key(events, from + 1),
        }
    }
}

/// Whether a tag name is `Key`.
fn is_key_element(name: &Vec<u8>) -> (r: bool)
    ensures
        r == (name@ == key_element()),
{
    if name.len() == 3 && name[0] == 75 && name[1] == 101 && name[2] == 121 {
        assert(name@ =~= key_element());
        true
    } else {
        false
    }
}

/// The client of the directory that WhatsApp publishes.
#[derive(Debug)]
pub struct WhatsAppAkdStorage {
    base_url: String,
}

impl View for WhatsAppAkdStorage {
    type V = Seq<char>;

    closed spec fn view(&self) -> Seq<char> {
        self.base_url@
    }
}

impl Clone for WhatsAppAkdStorage {
    fn clone(&self) -> (copy: WhatsAppAkdStorage)
        ensures
            copy@ == self@,
    {
        WhatsAppAkdStorage { base_url: self.base_url.clone() }
    }
}

impl Default for WhatsAppAkdStorage {
    fn default() -> (storage: WhatsAppAkdStorage)
        ensures
            storage@ == WHATSAPP_BASE_URL@,
    {
        WhatsAppAkdStorage::new()
    }
}

impl WhatsAppAkdStorage {
    /// The client of WhatsApp's own directory.
    pub fn new() -> (storage: WhatsAppAkdStorage)
        ensures
            storage@ == WHATSAPP_BASE_URL@,
    {
        WhatsAppAkdStorage { base_url: WHATSAPP_BASE_URL.to_owned() }
    }

    /// The client of a directory at another address.
    pub fn new_with_url(base_url: String) -> (storage: WhatsAppAkdStorage)
        ensures
            storage@ == base_url@,
    {
        WhatsAppAkdStorage { base_url }
    }

    pub fn base_url(&self) -> (url: &String)
        ensures
            url@ == self@,
    {
        &self.base_url
    }

    pub fn to_string(&self) -> (text: String)
        ensures
            text@ == "WhatsApp AKD"@,
    {
        "WhatsApp AKD".to_owned()
    }

    /// The address that lists the proof of an epoch.
    pub fn listing_url(&self, epoch: &u64) -> (url: String)
        ensures
            url@ == self@ + "/?list-type=2&prefix="@ + decimal(*epoch as nat) + "/"@,
    {
        let mut url = self.base_url.clone();
        url.append("/?list-type=2&prefix=");
        url.append(decimal_string(*epoch).as_str());
        url.append("/");
        url
    }

    /// The address of the proof of the given name.
    pub fn proof_url(&self, name: &SerializableAuditBlobName) -> (url: String)
        ensures
            url@ == self@ + "/"@ + blob_name_text(
                name.epoch,
                name.previous_hash@,
                name.current_hash@,
            ),
    {
        let mut url = self.base_url.clone();
        url.append("/");
        url.append(name.to_string().as_str());
        url
    }

    /// The first key among the events of a listing: the character data
    /// after the first `Key` start tag, as text.
    pub fn key_of_events(events: &Vec<XmlEvent>) -> (r: Result<
        Option<String>,
        AkdProofDirectoryError,
    >)
        ensures
            match first_key(event_views(events@), 0) {
                ListedKey::Key(bytes) => match utf8_text(bytes) {
                    Some(text) => r matches Ok(Some(key)) && key@ == text,
                    None => r matches Err(AkdProofDirectoryError::KeyNameParsingError),
                },
                ListedKey::Absent => r matches Ok(None),
                ListedKey::Malformed(message) => r matches Err(
                    AkdProofDirectoryError::XmlParsingError(found),
                ) && found@ == message,
            },
    {
        let ghost views = event_views(events@);
        let mut i: usize = 0;
        while i < events.len()
            invariant
                views == event_views(events@),
                first_key(views, i as int) == first_key(views, 0),
            decreases events@.len() - i,
        {
            assert(views[i as int] == events@[i as int]@);
            match &events[i] {
                XmlEvent::Start(name) => {
                    if is_key_element(name) {
                        if i + 1 < events.len() {
                            assert(views[i + 1] == events@[i + 1]@);
                            match &events[i + 1] {
                                XmlEvent::Text(text) => {
                                    return match string_from_utf8(text.clone()) {
                                        Some(key) => Ok(Some(key)),
                                        None => Err(AkdProofDirectoryError::KeyNameParsingError),
                                    };
                                },
                                _ => {},
                            }
                            i = i + 2;
                        } else {
                            return Ok(None);
                        }
                    } else {
                        i = i + 1;
                    }
                },
                XmlEvent::Error(message) => {
                    return Err(AkdProofDirectoryError::XmlParsingError(message.clone()));
                },
                _ => {
                    i = i + 1;
                },
            }
        }
        Ok(None)
    }

    /// The first key that a listing lists, if it lists one.
    pub fn get_key_for_epoch(listing: &[u8]) -> (r: Result<Option<String>, AkdProofDirectoryError>)
        ensures
            match first_key(listing_events(listing@), 0) {
                ListedKey::Key(bytes) => match utf8_text(bytes) {
                    Some(text) => r matches Ok(Some(key)) && key@ == text,
                    None => r matches Err(AkdProofDirectoryError::KeyNameParsingError),
                },
                ListedKey::Absent => r matches Ok(None),
                ListedKey::Malformed(message) => r matches Err(
                    AkdProofDirectoryError::XmlParsingError(found),
                ) && found@ == message,
            },
    {
        let events = xml_events(listing);
        WhatsAppAkdStorage::key_of_events(&events)
    }

    /// Whether a listing, or the failure to get one, shows a proof.
    pub fn has_proof(listed: &Result<Option<String>, AkdProofDirectoryError>) -> (r: bool)
        ensures
            r == (listed matches Ok(Some(_))),
    {
        match listed {
            Ok(Some(_)) => true,
            _ => false,
        }
    }

    /// The name of the proof of an epoch, from what was listed for it.
    pub fn get_proof_name(
        epoch: &u64,
        listed: Result<Option<String>, AkdProofDirectoryError>,
    ) -> (r: Result<SerializableAuditBlobName, AkdProofNameError>)
        ensures
            match listed {
                Ok(Some(key)) => match parsed_blob_name(key@) {
                    Some((e, previous, current)) => r matches Ok(name) && name.epoch == e
                        && name.previous_hash@ == previous && name.current_hash@ == current,
                    None => r matches Err(AkdProofNameError::AuditBlobNameParsingError),
                },
                Ok(None) => r matches Err(AkdProofNameError::ProofNotFound(e)) && e == *epoch,
                Err(_) => r matches Err(AkdProofNameError::AkdProofDirectoryError(_)),
            },
    {
        match listed {
            Ok(Some(key)) => match SerializableAuditBlobName::parse(key.as_str()) {
                Some(name) => Ok(name),
                None => Err(AkdProofNameError::AuditBlobNameParsingError),
            },
            Ok(None) => Err(AkdProofNameError::ProofNotFound(*epoch)),
            Err(e) => Err(AkdProofNameError::AkdProofDirectoryError(e)),
        }
    }
}

} // verus!
