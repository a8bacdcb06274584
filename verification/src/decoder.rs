//! Decoder for one listing response body: a single pass over the document's
//! tokens builds the page — the object records in document order, the
//! continuation marker, or the service-reported error.
//!
//! Shape of a decoded document, mirroring what the listing endpoint emits: an
//! enumeration-results root whose `Blob` elements each carry a `Name` and a
//! `Properties` element with one child element per property; an optional
//! `NextMarker` element whose text resumes the listing; and, in place of a
//! result set, an `Error` element with `Code` and `Message` children. An
//! `Error` element anywhere ends decoding: a page is either a result set or
//! an error, never both. A `NextMarker` element with no text (absent, empty,
//! or self-closing) means the listing is exhausted. Repeated text runs for
//! the same field keep the last run.
use vstd::prelude::*;
use vstd::string::*;
use crate::records::{
    ListingPage, ObjectProperties, ObjectRecord, PageView, PropertiesView, RecordView,
    opt_text_view, access_tier_default, resource_type_default,
};
use crate::tokenizer::{
    Token, TokenKind, TokenKindView, TokenView, spec_tokens, toks_text_nonempty, tokenize,
    lemma_spec_tokens_text_nonempty,
};

verus! {

/// The pieces of one `Blob` element read so far.
#[verifier::ext_equal]
pub ghost struct BlobFieldsView {
    pub name: Option<Seq<char>>,
    pub creation_time: Option<Seq<char>>,
    pub last_modified: Option<Seq<char>>,
    pub content_length: Option<Seq<char>>,
    pub content_type: Option<Seq<char>>,
    pub content_md5: Option<Seq<char>>,
    pub blob_type: Option<Seq<char>>,
    pub access_tier: Option<Seq<char>>,
    pub resource_type: Option<Seq<char>>,
}

/// The pieces of one `Error` element read so far.
#[verifier::ext_equal]
pub ghost struct ErrorFieldsView {
    pub code: Option<Seq<char>>,
    pub message: Option<Seq<char>>,
}

/// The walk state over the token list: the enclosing open tags, what has been
/// decoded so far, and the finished outcome once the walk has ended early.
#[verifier::ext_equal]
pub ghost struct WalkState {
    pub done: Option<PageView>,
    pub stack: Seq<Seq<char>>,
    pub records: Seq<RecordView>,
    pub marker: Option<Seq<char>>,
    pub blob: Option<BlobFieldsView>,
    pub err: Option<ErrorFieldsView>,
}

pub open spec fn blob_fields_init() -> BlobFieldsView {
    BlobFieldsView {
        name: Option::None,
        creation_time: Option::None,
        last_modified: Option::None,
        content_length: Option::None,
        content_type: Option::None,
        content_md5: Option::None,
        blob_type: Option::None,
        access_tier: Option::None,
        resource_type: Option::None,
    }
}

pub open spec fn walk_init() -> WalkState {
    WalkState {
        done: Option::None,
        stack: Seq::empty(),
        records: Seq::empty(),
        marker: Option::None,
        blob: Option::None,
        err: Option::None,
    }
}

/// The walk failed at character offset `off`: the document is malformed.
pub open spec fn walk_fail(st: WalkState, off: nat) -> WalkState {
    WalkState { done: Option::Some(PageView::Malformed { offset: off }), ..st }
}

/// Record one property text run of the current `Blob` element; unknown
/// property names are ignored, and a repeated run keeps the last value.
pub open spec fn blob_set_prop(b: BlobFieldsView, p: Seq<char>, v: Seq<char>) -> BlobFieldsView {
    if p == "Creation-Time"@ {
        BlobFieldsView { creation_time: Option::Some(v), ..b }
    } else if p == "Last-Modified"@ {
        BlobFieldsView { last_modified: Option::Some(v), ..b }
    } else if p == "Content-Length"@ {
        BlobFieldsView { content_length: Option::Some(v), ..b }
    } else if p == "Content-Type"@ {
        BlobFieldsView { content_type: Option::Some(v), ..b }
    } else if p == "Content-MD5"@ {
        BlobFieldsView { content_md5: Option::Some(v), ..b }
    } else if p == "BlobType"@ {
        BlobFieldsView { blob_type: Option::Some(v), ..b }
    } else if p == "AccessTier"@ {
        BlobFieldsView { access_tier: Option::Some(v), ..b }
    } else if p == "ResourceType"@ {
        BlobFieldsView { resource_type: Option::Some(v), ..b }
    } else {
        b
    }
}

/// Turn a finished `Blob` element into a record. The name and the six
/// always-present properties are required; a missing `AccessTier` defaults to
/// `"None"` and a missing `ResourceType` to the empty string.
pub open spec fn finalize_blob(b: BlobFieldsView) -> Option<RecordView> {
    match (b.name, b.creation_time, b.last_modified) {
        (Option::Some(name), Option::Some(creation_time), Option::Some(last_modified)) => {
            match (b.content_length, b.content_type, b.content_md5, b.blob_type) {
                (
                    Option::Some(content_length),
                    Option::Some(content_type),
                    Option::Some(content_md5),
                    Option::Some(blob_type),
                ) => Option::Some(
                    RecordView {
                        name,
                        properties: PropertiesView {
                            creation_time,
                            last_modified,
                            content_length,
                            content_type,
                            content_md5,
                            blob_type,
                            access_tier: match b.access_tier {
                                Option::Some(t) => t,
                                Option::None => "None"@,
                            },
                            resource_type: match b.resource_type {
                                Option::Some(t) => t,
                                Option::None => Seq::empty(),
                            },
                        },
                    },
                ),
                _ => Option::None,
            }
        },
        _ => Option::None,
    }
}

/// One step of the walk: the state after consuming token `t`.
pub open spec fn walk_step(st: WalkState, t: TokenView) -> WalkState {
    if st.done is Some {
        st
    } else {
        match t.kind {
            TokenKindView::Open(name) => {
                if st.err is Some {
                    if name == "Error"@ {
                        walk_fail(st, t.off)
                    } else {
                        WalkState { stack: st.stack.push(name), ..st }
                    }
                } else if name == "Error"@ {
                    WalkState {
                        stack: st.stack.push(name),
                        err: Option::Some(
                            ErrorFieldsView { code: Option::None, message: Option::None },
                        ),
                        ..st
                    }
                } else if name == "Blob"@ {
                    if st.blob is Some {
                        walk_fail(st, t.off)
                    } else {
                        WalkState {
                            stack: st.stack.push(name),
                            blob: Option::Some(blob_fields_init()),
                            ..st
                        }
                    }
                } else {
                    WalkState { stack: st.stack.push(name), ..st }
                }
            },
            TokenKindView::Text(txt) => {
                if st.stack.len() == 0 {
                    walk_fail(st, t.off)
                } else {
                    let top = st.stack.last();
                    match st.err {
                        Option::Some(e) => {
                            if top == "Code"@ {
                                WalkState {
                                    err: Option::Some(
                                        ErrorFieldsView { code: Option::Some(txt), ..e },
                                    ),
                                    ..st
                                }
                            } else if top == "Message"@ {
                                WalkState {
                                    err: Option::Some(
                                        ErrorFieldsView { message: Option::Some(txt), ..e },
                                    ),
                                    ..st
                                }
                            } else {
                                st
                            }
                        },
                        Option::None => {
                            match st.blob {
                                Option::Some(b) => {
                                    if top == "Name"@ && st.stack.len() >= 2 && st.stack[st.stack.len()
                                        - 2] == "Blob"@ {
                                        WalkState {
                                            blob: Option::Some(
                                                BlobFieldsView { name: Option::Some(txt), ..b },
                                            ),
                                            ..st
                                        }
                                    } else if st.stack.len() >= 3 && st.stack[st.stack.len() - 2]
                                        == "Properties"@ && st.stack[st.stack.len() - 3]
                                        == "Blob"@ {
                                        WalkState {
                                            blob: Option::Some(blob_set_prop(b, top, txt)),
                                            ..st
                                        }
                                    } else {
                                        st
                                    }
                                },
                                Option::None => {
                                    if top == "NextMarker"@ {
                                        WalkState { marker: Option::Some(txt), ..st }
                                    } else {
                                        st
                                    }
                                },
                            }
                        },
                    }
                }
            },
            TokenKindView::Close(name) => {
                if st.stack.len() == 0 || st.stack.last() != name {
                    walk_fail(st, t.off)
                } else {
                    let popped = st.stack.drop_last();
                    match st.err {
                        Option::Some(e) => {
                            if name == "Error"@ {
                                match (e.code, e.message) {
                                    (Option::Some(code), Option::Some(message)) => WalkState {
                                        done: Option::Some(
                                            PageView::ServiceError { code, message },
                                        ),
                                        stack: popped,
                                        err: Option::None,
                                        ..st
                                    },
                                    _ => walk_fail(st, t.off),
                                }
                            } else {
                                WalkState { stack: popped, ..st }
                            }
                        },
                        Option::None => {
                            match st.blob {
                                Option::Some(b) => {
                                    if name == "Blob"@ {
                                        match finalize_blob(b) {
                                            Option::Some(r) => WalkState {
                                                stack: popped,
                                                records: st.records.push(r),
                                                blob: Option::None,
                                                ..st
                                            },
                                            Option::None => walk_fail(st, t.off),
                                        }
                                    } else {
                                        WalkState { stack: popped, ..st }
                                    }
                                },
                                Option::None => WalkState { stack: popped, ..st },
                            }
                        },
                    }
                }
            },
        }
    }
}

/// The walk state after consuming the first `n` tokens.
pub open spec fn walk_run(toks: Seq<TokenView>, n: nat) -> WalkState
    decreases n,
{
    if n == 0 {
        walk_init()
    } else {
        walk_step(walk_run(toks, (n - 1) as nat), toks[n - 1])
    }
}

/// The finished walk: the page it decoded. A document that ends with open
/// tags still unclosed is malformed at offset `end`.
pub open spec fn walk_finish(st: WalkState, end: nat) -> PageView {
    match st.done {
        Option::Some(o) => o,
        Option::None => {
            if st.stack.len() > 0 || st.blob is Some || st.err is Some {
                PageView::Malformed { offset: end }
            } else {
                PageView::Results { records: st.records, marker: st.marker }
            }
        },
    }
}

/// What decoding a whole response body yields.
pub open spec fn spec_decode_page(s: Seq<char>) -> PageView {
    match spec_tokens(s) {
        Result::Err(off) => PageView::Malformed { offset: off },
        Result::Ok(toks) => walk_finish(walk_run(toks, toks.len()), s.len()),
    }
}

/// A decoded page never carries an empty continuation marker: an empty or
/// self-closing marker element is the same as an absent one, so a marker,
/// when present, has at least one character.
pub proof fn lemma_no_empty_marker(s: Seq<char>)
    ensures
        spec_decode_page(s) matches PageView::Results { marker: Option::Some(m), .. } ==> m.len()
            > 0,
{
    lemma_spec_tokens_text_nonempty(s);
    match spec_tokens(s) {
        Result::Ok(toks) => lemma_walk_run_marker(toks, toks.len()),
        Result::Err(_) => (),
    }
}

/// Along a walk over tokens whose text runs are non-empty, the marker, when
/// set, is non-empty, and an early outcome is never a result set.
proof fn lemma_walk_run_marker(toks: Seq<TokenView>, n: nat)
    requires
        toks_text_nonempty(toks),
        n <= toks.len(),
    ensures
        walk_run(toks, n).marker matches Option::Some(m) ==> m.len() > 0,
        !(walk_run(toks, n).done matches Option::Some(PageView::Results { .. })),
    decreases n,
{
    if n > 0 {
        lemma_walk_run_marker(toks, (n - 1) as nat);
    }
}

/// A finished `Blob` element with no `AccessTier` run decodes with access
/// tier `"None"`, and with no `ResourceType` run with an empty resource type.
pub proof fn lemma_default_properties(b: BlobFieldsView)
    ensures
        finalize_blob(b) matches Option::Some(r) ==> {
            &&& b.access_tier is None ==> r.properties.access_tier == "None"@
            &&& b.resource_type is None ==> r.properties.resource_type == Seq::<char>::empty()
        },
{
}

/// Executable pieces of one `Blob` element; its model is `BlobFieldsView`.
pub struct BlobFields {
    pub name: Option<String>,
    pub creation_time: Option<String>,
    pub last_modified: Option<String>,
    pub content_length: Option<String>,
    pub content_type: Option<String>,
    pub content_md5: Option<String>,
    pub blob_type: Option<String>,
    pub access_tier: Option<String>,
    pub resource_type: Option<String>,
}

impl View for BlobFields {
    type V = BlobFieldsView;

    open spec fn view(&self) -> BlobFieldsView {
        BlobFieldsView {
            name: opt_text_view(self.name),
            creation_time: opt_text_view(self.creation_time),
            last_modified: opt_text_view(self.last_modified),
            content_length: opt_text_view(self.content_length),
            content_type: opt_text_view(self.content_type),
            content_md5: opt_text_view(self.content_md5),
            blob_type: opt_text_view(self.blob_type),
            access_tier: opt_text_view(self.access_tier),
            resource_type: opt_text_view(self.resource_type),
        }
    }
}

/// Executable pieces of one `Error` element; its model is `ErrorFieldsView`.
pub struct ErrorFields {
    pub code: Option<String>,
    pub message: Option<String>,
}

impl View for ErrorFields {
    type V = ErrorFieldsView;

    open spec fn view(&self) -> ErrorFieldsView {
        ErrorFieldsView { code: opt_text_view(self.code), message: opt_text_view(self.message) }
    }
}

/// Executable walk state; its model is `WalkState`.
pub struct Walker {
    pub done: Option<ListingPage>,
    pub stack: Vec<String>,
    pub records: Vec<ObjectRecord>,
    pub marker: Option<String>,
    pub blob: Option<BlobFields>,
    pub err: Option<ErrorFields>,
}

impl View for Walker {
    type V = WalkState;

    open spec fn view(&self) -> WalkState {
        WalkState {
            done: match self.done {
                Option::Some(ref p) => Option::Some(p@),
                Option::None => Option::None,
            },
            stack: self.stack@.map_values(|s: String| s@),
            records: self.records@.map_values(|r: ObjectRecord| r@),
            marker: opt_text_view(self.marker),
            blob: match self.blob {
                Option::Some(ref b) => Option::Some(b@),
                Option::None => Option::None,
            },
            err: match self.err {
                Option::Some(ref e) => Option::Some(e@),
                Option::None => Option::None,
            },
        }
    }
}

/// Turn the pieces of a finished `Blob` element into a record, cloning its
/// texts and filling in the documented defaults.
fn finalize_blob_exec(b: &BlobFields) -> (r: Option<ObjectRecord>)
    ensures
        match r {
            Option::Some(rec) => finalize_blob(b@) == Option::Some(rec@),
            Option::None => finalize_blob(b@) is None,
        },
{
    let name = match &b.name {
        Option::Some(v) => v.clone(),
        Option::None => { return Option::None; },
    };
    let creation_time = match &b.creation_time {
        Option::Some(v) => v.clone(),
        Option::None => { return Option::None; },
    };
    let last_modified = match &b.last_modified {
        Option::Some(v) => v.clone(),
        Option::None => { return Option::None; },
    };
    let content_length = match &b.content_length {
        Option::Some(v) => v.clone(),
        Option::None => { return Option::None; },
    };
    let content_type = match &b.content_type {
        Option::Some(v) => v.clone(),
        Option::None => { return Option::None; },
    };
    let content_md5 = match &b.content_md5 {
        Option::Some(v) => v.clone(),
        Option::None => { return Option::None; },
    };
    let blob_type = match &b.blob_type {
        Option::Some(v) => v.clone(),
        Option::None => { return Option::None; },
    };
    let access_tier = match &b.access_tier {
        Option::Some(v) => v.clone(),
        Option::None => access_tier_default(),
    };
    let resource_type = match &b.resource_type {
        Option::Some(v) => v.clone(),
        Option::None => resource_type_default(),
    };
    Option::Some(
        ObjectRecord {
            name,
            properties: ObjectProperties {
                creation_time,
                last_modified,
                content_length,
                content_type,
                content_md5,
                blob_type,
                access_tier,
                resource_type,
            },
        },
    )
}

impl Walker {
    pub fn new() -> (r: Walker)
        ensures
            r@ == walk_init(),
    {
        let r = Walker {
            done: Option::None,
            stack: Vec::new(),
            records: Vec::new(),
            marker: Option::None,
            blob: Option::None,
            err: Option::None,
        };
        assert(r@.stack =~= walk_init().stack);
        assert(r@.records =~= walk_init().records);
        r
    }

    fn fail(&mut self, off: usize)
        ensures
            final(self)@ == walk_fail(old(self)@, off as nat),
    {
        self.done = Option::Some(ListingPage::Malformed { offset: off });
    }

    /// Whether the `n`th entry from the top of the stack (the top itself for
    /// `n == 0`) holds exactly the characters of `what`.
    fn stack_top_is(&self, n: usize, what: &str) -> (r: bool)
        requires
            n < self.stack@.len(),
        ensures
            r == (self@.stack[self@.stack.len() - 1 - n] == what@),
    {
        let idx = self.stack.len() - 1 - n;
        str_eq(self.stack[idx].as_str(), what)
    }

    /// One step of the walk on token `t`.
    pub fn step(&mut self, t: &Token)
        ensures
            final(self)@ == walk_step(old(self)@, t@),
    {
        if self.done.is_some() {
            return ;
        }
        match &t.kind {
            TokenKind::Open(name) => {
                if self.err.is_some() {
                    if str_eq(name.as_str(), "Error") {
                        self.fail(t.off);
                    } else {
                        self.stack.push(name.clone());
                        assert(self@.stack =~= walk_step(old(self)@, t@).stack);
                    }
                } else if str_eq(name.as_str(), "Error") {
                    self.stack.push(name.clone());
                    self.err = Option::Some(ErrorFields { code: Option::None, message: Option::None });
                    assert(self@.stack =~= walk_step(old(self)@, t@).stack);
                } else if str_eq(name.as_str(), "Blob") {
                    if self.blob.is_some() {
                        self.fail(t.off);
                    } else {
                        self.stack.push(name.clone());
                        self.blob = Option::Some(
                            BlobFields {
                                name: Option::None,
                                creation_time: Option::None,
                                last_modified: Option::None,
                                content_length: Option::None,
                                content_type: Option::None,
                                content_md5: Option::None,
                                blob_type: Option::None,
                                access_tier: Option::None,
                                resource_type: Option::None,
                            },
                        );
                        assert(self@.stack =~= walk_step(old(self)@, t@).stack);
                    }
                } else {
                    self.stack.push(name.clone());
                    assert(self@.stack =~= walk_step(old(self)@, t@).stack);
                }
            },
            TokenKind::Text(txt) => {
                if self.stack.len() == 0 {
                    self.fail(t.off);
                } else if self.err.is_some() {
                    if self.stack_top_is(0, "Code") {
                        let v = txt.clone();
                        match &mut self.err {
                            Option::Some(e) => { e.code = Option::Some(v); },
                            Option::None => {},
                        }
                    } else if self.stack_top_is(0, "Message") {
                        let v = txt.clone();
                        match &mut self.err {
                            Option::Some(e) => { e.message = Option::Some(v); },
                            Option::None => {},
                        }
                    }
                } else if self.blob.is_some() {
                    if self.stack_top_is(0, "Name") && self.stack.len() >= 2 && self.stack_top_is(
                        1,
                        "Blob",
                    ) {
                        let v = txt.clone();
                        match &mut self.blob {
                            Option::Some(b) => { b.name = Option::Some(v); },
                            Option::None => {},
                        }
                    } else if self.stack.len() >= 3 && self.stack_top_is(1, "Properties")
                        && self.stack_top_is(2, "Blob") {
                        let v = txt.clone();
                        if self.stack_top_is(0, "Creation-Time") {
                            match &mut self.blob {
                                Option::Some(b) => { b.creation_time = Option::Some(v); },
                                Option::None => {},
                            }
                        } else if self.stack_top_is(0, "Last-Modified") {
                            match &mut self.blob {
                                Option::Some(b) => { b.last_modified = Option::Some(v); },
                                Option::None => {},
                            }
                        } else if self.stack_top_is(0, "Content-Length") {
                            match &mut self.blob {
                                Option::Some(b) => { b.content_length = Option::Some(v); },
                                Option::None => {},
                            }
                        } else if self.stack_top_is(0, "Content-Type") {
                            match &mut self.blob {
                                Option::Some(b) => { b.content_type = Option::Some(v); },
                                Option::None => {},
                            }
                        } else if self.stack_top_is(0, "Content-MD5") {
                            match &mut self.blob {
                                Option::Some(b) => { b.content_md5 = Option::Some(v); },
                                Option::None => {},
                            }
                        } else if self.stack_top_is(0, "BlobType") {
                            match &mut self.blob {
                                Option::Some(b) => { b.blob_type = Option::Some(v); },
                                Option::None => {},
                            }
                        } else if self.stack_top_is(0, "AccessTier") {
                            match &mut self.blob {
                                Option::Some(b) => { b.access_tier = Option::Some(v); },
                                Option::None => {},
                            }
                        } else if self.stack_top_is(0, "ResourceType") {
                            match &mut self.blob {
                                Option::Some(b) => { b.resource_type = Option::Some(v); },
                                Option::None => {},
                            }
                        }
                    }
                } else if self.stack_top_is(0, "NextMarker") {
                    self.marker = Option::Some(txt.clone());
                }
            },
            TokenKind::Close(name) => {
                if self.stack.len() == 0 || !self.stack_top_is(0, name.as_str()) {
                    self.fail(t.off);
                } else if self.err.is_some() {
                    if str_eq(name.as_str(), "Error") {
                        let (code, message) = match &self.err {
                            Option::Some(e) => (
                                match &e.code {
                                    Option::Some(c) => Option::Some(c.clone()),
                                    Option::None => Option::None,
                                },
                                match &e.message {
                                    Option::Some(m) => Option::Some(m.clone()),
                                    Option::None => Option::None,
                                },
                            ),
                            Option::None => (Option::None, Option::None),
                        };
                        match (code, message) {
                            (Option::Some(code), Option::Some(message)) => {
                                let _ = self.stack.pop();
                                self.err = Option::None;
                                self.done = Option::Some(
                                    ListingPage::ServiceError { code, message },
                                );
                                assert(self@.stack =~= walk_step(old(self)@, t@).stack);
                            },
                            _ => { self.fail(t.off); },
                        }
                    } else {
                        let _ = self.stack.pop();
                        assert(self@.stack =~= walk_step(old(self)@, t@).stack);
                    }
                } else if self.blob.is_some() {
                    if str_eq(name.as_str(), "Blob") {
                        let rec = match &self.blob {
                            Option::Some(b) => finalize_blob_exec(b),
                            Option::None => Option::None,
                        };
                        match rec {
                            Option::Some(r) => {
                                let _ = self.stack.pop();
                                self.records.push(r);
                                self.blob = Option::None;
                                assert(self@.stack =~= walk_step(old(self)@, t@).stack);
                                assert(self@.records =~= walk_step(old(self)@, t@).records);
                            },
                            Option::None => { self.fail(t.off); },
                        }
                    } else {
                        let _ = self.stack.pop();
                        assert(self@.stack =~= walk_step(old(self)@, t@).stack);
                    }
                } else {
                    let _ = self.stack.pop();
                    assert(self@.stack =~= walk_step(old(self)@, t@).stack);
                }
            },
        }
        assert(self@ =~= walk_step(old(self)@, t@));
    }
}

/// Decode one complete response body into a page: its records and marker, the
/// service-reported error it carries, or the position at which it is
/// malformed.
pub fn decode_page(s: &str) -> (r: ListingPage)
    ensures
        r@ == spec_decode_page(s@),
{
    let toks = match tokenize(s) {
        Result::Ok(toks) => toks,
        Result::Err(off) => { return ListingPage::Malformed { offset: off }; },
    };
    let n = toks.len();
    let mut w = Walker::new();
    let mut i: usize = 0;
    while i < n
        invariant
            n == toks@.len(),
            i <= n,
            w@ == walk_run(toks@.map_values(|t: Token| t@), i as nat),
            spec_tokens(s@) == Result::<Seq<TokenView>, nat>::Ok(
                toks@.map_values(|t: Token| t@),
            ),
        decreases n - i,
    {
        w.step(&toks[i]);
        i = i + 1;
    }
    let end = s.unicode_len();
    match w.done {
        Option::Some(p) => p,
        Option::None => {
            if w.stack.len() > 0 || w.blob.is_some() || w.err.is_some() {
                ListingPage::Malformed { offset: end }
            } else {
                ListingPage::Results { records: w.records, marker: w.marker }
            }
        },
    }
}

/// Whether two strings hold the same characters.
pub fn str_eq(a: &str, b: &str) -> (r: bool)
    ensures
        r == (a@ == b@),
{
    let la = a.unicode_len();
    let lb = b.unicode_len();
    if la != lb {
        return false;
    }
    let mut i: usize = 0;
    while i < la
        invariant
            la == a@.len(),
            la == b@.len(),
            i <= la,
            forall|j: int| 0 <= j < i ==> a@[j] == b@[j],
        decreases la - i,
    {
        if a.get_char(i) != b.get_char(i) {
            return false;
        }
        i = i + 1;
    }
    proof {
        assert(a@ =~= b@);
    }
    true
}

} // verus!
