//! Data model for one container enumeration: object records, decoded pages,
//! per-target outcomes.
use vstd::prelude::*;
use vstd::string::*;

verus! {

/// Properties of one listed object, echoed verbatim from the service.
/// `access_tier` and `resource_type` are optional on the wire and take
/// documented defaults when absent.
pub struct ObjectProperties {
    pub creation_time: String,
    pub last_modified: String,
    pub content_length: String,
    pub content_type: String,
    pub content_md5: String,
    pub blob_type: String,
    pub access_tier: String,
    pub resource_type: String,
}

/// Mathematical model of `ObjectProperties`.
#[verifier::ext_equal]
pub ghost struct PropertiesView {
    pub creation_time: Seq<char>,
    pub last_modified: Seq<char>,
    pub content_length: Seq<char>,
    pub content_type: Seq<char>,
    pub content_md5: Seq<char>,
    pub blob_type: Seq<char>,
    pub access_tier: Seq<char>,
    pub resource_type: Seq<char>,
}

impl View for ObjectProperties {
    type V = PropertiesView;

    open spec fn view(&self) -> PropertiesView {
        PropertiesView {
            creation_time: self.creation_time@,
            last_modified: self.last_modified@,
            content_length: self.content_length@,
            content_type: self.content_type@,
            content_md5: self.content_md5@,
            blob_type: self.blob_type@,
            access_tier: self.access_tier@,
            resource_type: self.resource_type@,
        }
    }
}

/// One enumerated object: its name and its properties.
pub struct ObjectRecord {
    pub name: String,
    pub properties: ObjectProperties,
}

/// Mathematical model of `ObjectRecord`.
#[verifier::ext_equal]
pub ghost struct RecordView {
    pub name: Seq<char>,
    pub properties: PropertiesView,
}

impl View for ObjectRecord {
    type V = RecordView;

    open spec fn view(&self) -> RecordView {
        RecordView { name: self.name@, properties: self.properties@ }
    }
}

/// Model of an `Option`al text value.
pub open spec fn opt_text_view(o: Option<String>) -> Option<Seq<char>> {
    match o {
        Option::Some(s) => Option::Some(s@),
        Option::None => Option::None,
    }
}

/// The decoded form of one listing response body.
pub enum ListingPage {
    /// A valid result set: the records in document order, and the continuation
    /// marker when more pages follow. `marker == None` means the listing is
    /// exhausted; the decoder never yields `Some` of an empty marker.
    Results { records: Vec<ObjectRecord>, marker: Option<String> },
    /// The service reported an error inside the response body.
    ServiceError { code: String, message: String },
    /// The document was malformed; `offset` is the character position at which
    /// decoding failed.
    Malformed { offset: usize },
}

/// Mathematical model of `ListingPage`.
#[verifier::ext_equal]
pub ghost enum PageView {
    Results { records: Seq<RecordView>, marker: Option<Seq<char>> },
    ServiceError { code: Seq<char>, message: Seq<char> },
    Malformed { offset: nat },
}

impl View for ListingPage {
    type V = PageView;

    open spec fn view(&self) -> PageView {
        match self {
            ListingPage::Results { records, marker } => PageView::Results {
                records: records@.map_values(|r: ObjectRecord| r@),
                marker: opt_text_view(*marker),
            },
            ListingPage::ServiceError { code, message } => PageView::ServiceError {
                code: code@,
                message: message@,
            },
            ListingPage::Malformed { offset } => PageView::Malformed { offset: *offset as nat },
        }
    }
}

/// One enumeration job: a storage account and a container inside it.
pub struct Target {
    pub account: String,
    pub container: String,
}

/// Mathematical model of `Target`.
#[verifier::ext_equal]
pub ghost struct TargetView {
    pub account: Seq<char>,
    pub container: Seq<char>,
}

impl View for Target {
    type V = TargetView;

    open spec fn view(&self) -> TargetView {
        TargetView { account: self.account@, container: self.container@ }
    }
}

impl Target {
    /// A copy of this target; written out because a derived clone would say
    /// nothing about the copy.
    pub fn duplicate(&self) -> (r: Target)
        ensures
            r@ == self@,
    {
        Target { account: self.account.clone(), container: self.container.clone() }
    }
}

/// Why a target's enumeration ended without completing.
pub enum TerminalError {
    /// The transport retry budget was exhausted.
    TransportRetriesExhausted,
    /// The service-error retry budget was exhausted; carries the last error.
    ServiceRetriesExhausted { code: String, message: String },
    /// A response body could not be decoded; `offset` is the character
    /// position at which decoding failed.
    MalformedPage { offset: usize },
    /// Appending a record to the output sink failed.
    SinkWriteFailed,
}

/// Mathematical model of `TerminalError`.
#[verifier::ext_equal]
pub ghost enum TerminalErrorView {
    TransportRetriesExhausted,
    ServiceRetriesExhausted { code: Seq<char>, message: Seq<char> },
    MalformedPage { offset: nat },
    SinkWriteFailed,
}

impl View for TerminalError {
    type V = TerminalErrorView;

    open spec fn view(&self) -> TerminalErrorView {
        match self {
            TerminalError::TransportRetriesExhausted => TerminalErrorView::TransportRetriesExhausted,
            TerminalError::ServiceRetriesExhausted { code, message } => TerminalErrorView::ServiceRetriesExhausted {
                code: code@,
                message: message@,
            },
            TerminalError::MalformedPage { offset } => TerminalErrorView::MalformedPage {
                offset: *offset as nat,
            },
            TerminalError::SinkWriteFailed => TerminalErrorView::SinkWriteFailed,
        }
    }
}

impl TerminalError {
    /// A copy of this error; written out because a derived clone would say
    /// nothing about the copy.
    pub fn duplicate(&self) -> (r: TerminalError)
        ensures
            r@ == self@,
    {
        match self {
            TerminalError::TransportRetriesExhausted => TerminalError::TransportRetriesExhausted,
            TerminalError::ServiceRetriesExhausted { code, message } => TerminalError::ServiceRetriesExhausted {
                code: code.clone(),
                message: message.clone(),
            },
            TerminalError::MalformedPage { offset } => TerminalError::MalformedPage {
                offset: *offset,
            },
            TerminalError::SinkWriteFailed => TerminalError::SinkWriteFailed,
        }
    }
}

/// Per-target final state: how many records were emitted, and the terminal
/// error when the target did not complete.
pub struct TargetResult {
    pub record_count: u64,
    pub error: Option<TerminalError>,
}

/// Mathematical model of `TargetResult`.
#[verifier::ext_equal]
pub ghost struct TargetResultView {
    pub record_count: u64,
    pub error: Option<TerminalErrorView>,
}

impl View for TargetResult {
    type V = TargetResultView;

    open spec fn view(&self) -> TargetResultView {
        TargetResultView {
            record_count: self.record_count,
            error: match self.error {
                Option::Some(ref e) => Option::Some(e@),
                Option::None => Option::None,
            },
        }
    }
}

/// Default value of an object's access tier when the listing omits the
/// `AccessTier` element.
pub fn access_tier_default() -> (r: String)
    ensures
        r@ == "None"@,
{
    String::from_str("None")
}

/// Default value of an object's resource type when the listing omits the
/// `ResourceType` element.
pub fn resource_type_default() -> (r: String)
    ensures
        r@ == Seq::<char>::empty(),
{
    let r = String::new();
    assert(r@ =~= Seq::<char>::empty());
    r
}

} // verus!
