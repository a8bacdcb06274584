//! Streaming tokenizer for the listing wire format: one left-to-right pass
//! over the document's characters yields start tags, end tags and text runs.
//!
//! The grammar is the small XML subset the listing endpoint emits: an optional
//! `<?...?>` prolog, start tags with attributes (attribute values must not
//! contain `>`), end tags, self-closing tags, and text. Text runs are trimmed
//! of surrounding whitespace and dropped when nothing remains, so every `Text`
//! token carries at least one character.
use vstd::prelude::*;
use vstd::string::*;

verus! {

/// What one token is: a start tag, an end tag, or a non-empty text run.
pub enum TokenKind {
    Open(String),
    Close(String),
    Text(String),
}

/// One token together with the character offset where it started.
pub struct Token {
    pub off: usize,
    pub kind: TokenKind,
}

/// Mathematical model of `TokenKind`.
#[verifier::ext_equal]
pub ghost enum TokenKindView {
    Open(Seq<char>),
    Close(Seq<char>),
    Text(Seq<char>),
}

impl View for TokenKind {
    type V = TokenKindView;

    open spec fn view(&self) -> TokenKindView {
        match self {
            TokenKind::Open(s) => TokenKindView::Open(s@),
            TokenKind::Close(s) => TokenKindView::Close(s@),
            TokenKind::Text(s) => TokenKindView::Text(s@),
        }
    }
}

/// Mathematical model of `Token`.
#[verifier::ext_equal]
pub ghost struct TokenView {
    pub off: nat,
    pub kind: TokenKindView,
}

impl View for Token {
    type V = TokenView;

    open spec fn view(&self) -> TokenView {
        TokenView { off: self.off as nat, kind: self.kind@ }
    }
}

/// Where in the grammar the scan currently stands.
#[derive(PartialEq, Eq, Structural, Clone, Copy)]
pub enum ScanMode {
    /// Between tags, possibly inside a text run.
    Text,
    /// Just after `<`.
    TagStart,
    /// Inside a `<?...?>` prolog.
    Prolog,
    /// Inside a prolog, just after `?`.
    PrologQ,
    /// Inside a start tag, reading the tag name.
    OpenName,
    /// Inside a start tag after the name, skipping attributes.
    OpenRest,
    /// Inside a start tag, just after `/`.
    OpenSlash,
    /// Inside an end tag, reading the tag name.
    CloseName,
}

/// The scan state: the mode, the character ranges of the pieces being read,
/// the tokens emitted so far, and the failure offset once the scan has failed.
/// Ranges index into the document; the text run read so far is
/// `s.subrange(text_start, text_end)` with trailing whitespace not yet
/// included, and the tag name read so far is `s.subrange(name_start, name_end)`.
#[verifier::ext_equal]
pub ghost struct ScanState {
    pub mode: ScanMode,
    pub tag_off: nat,
    pub text_start: nat,
    pub text_end: nat,
    pub name_start: nat,
    pub name_end: nat,
    pub toks: Seq<TokenView>,
    pub failed: Option<nat>,
}

/// Whitespace for the purpose of trimming text runs.
pub open spec fn is_space(c: char) -> bool {
    c == ' ' || c == '\t' || c == '\r' || c == '\n'
}

/// The scan state before any character has been read.
pub open spec fn scan_init() -> ScanState {
    ScanState {
        mode: ScanMode::Text,
        tag_off: 0,
        text_start: 0,
        text_end: 0,
        name_start: 0,
        name_end: 0,
        toks: Seq::empty(),
        failed: Option::None,
    }
}

/// The pending text run flushed as a token, if anything remains after
/// trimming.
pub open spec fn scan_flush_text(s: Seq<char>, st: ScanState) -> Seq<TokenView> {
    if st.text_end > st.text_start {
        st.toks.push(
            TokenView {
                off: st.text_start,
                kind: TokenKindView::Text(s.subrange(st.text_start as int, st.text_end as int)),
            },
        )
    } else {
        st.toks
    }
}

/// The scan failed at character `off`.
pub open spec fn scan_fail(st: ScanState, off: nat) -> ScanState {
    ScanState { failed: Option::Some(off), ..st }
}

/// One step of the scan: the state after reading `s[off]`.
pub open spec fn scan_step(s: Seq<char>, st: ScanState, off: nat) -> ScanState {
    let c = s[off as int];
    if st.failed is Some {
        st
    } else {
        match st.mode {
            ScanMode::Text => {
                if c == '<' {
                    ScanState {
                        mode: ScanMode::TagStart,
                        tag_off: off,
                        text_start: 0,
                        text_end: 0,
                        toks: scan_flush_text(s, st),
                        ..st
                    }
                } else if is_space(c) {
                    st
                } else if st.text_end > st.text_start {
                    ScanState { text_end: off + 1, ..st }
                } else {
                    ScanState { text_start: off, text_end: off + 1, ..st }
                }
            },
            ScanMode::TagStart => {
                if c == '?' {
                    ScanState { mode: ScanMode::Prolog, ..st }
                } else if c == '/' {
                    ScanState {
                        mode: ScanMode::CloseName,
                        name_start: off + 1,
                        name_end: off + 1,
                        ..st
                    }
                } else if c == '>' || c == '<' || is_space(c) {
                    scan_fail(st, off)
                } else {
                    ScanState {
                        mode: ScanMode::OpenName,
                        name_start: off,
                        name_end: off + 1,
                        ..st
                    }
                }
            },
            ScanMode::Prolog => {
                if c == '?' {
                    ScanState { mode: ScanMode::PrologQ, ..st }
                } else {
                    st
                }
            },
            ScanMode::PrologQ => {
                if c == '>' {
                    ScanState { mode: ScanMode::Text, ..st }
                } else if c == '?' {
                    st
                } else {
                    ScanState { mode: ScanMode::Prolog, ..st }
                }
            },
            ScanMode::OpenName => {
                if c == '>' {
                    ScanState {
                        mode: ScanMode::Text,
                        toks: st.toks.push(
                            TokenView {
                                off: st.tag_off,
                                kind: TokenKindView::Open(
                                    s.subrange(st.name_start as int, st.name_end as int),
                                ),
                            },
                        ),
                        ..st
                    }
                } else if c == '/' {
                    ScanState { mode: ScanMode::OpenSlash, ..st }
                } else if is_space(c) {
                    ScanState { mode: ScanMode::OpenRest, ..st }
                } else if c == '<' {
                    scan_fail(st, off)
                } else {
                    ScanState { name_end: off + 1, ..st }
                }
            },
            ScanMode::OpenRest => {
                if c == '>' {
                    ScanState {
                        mode: ScanMode::Text,
                        toks: st.toks.push(
                            TokenView {
                                off: st.tag_off,
                                kind: TokenKindView::Open(
                                    s.subrange(st.name_start as int, st.name_end as int),
                                ),
                            },
                        ),
                        ..st
                    }
                } else if c == '/' {
                    ScanState { mode: ScanMode::OpenSlash, ..st }
                } else if c == '<' {
                    scan_fail(st, off)
                } else {
                    st
                }
            },
            ScanMode::OpenSlash => {
                if c == '>' {
                    let name = s.subrange(st.name_start as int, st.name_end as int);
                    ScanState {
                        mode: ScanMode::Text,
                        toks: st.toks.push(
                            TokenView { off: st.tag_off, kind: TokenKindView::Open(name) },
                        ).push(TokenView { off: st.tag_off, kind: TokenKindView::Close(name) }),
                        ..st
                    }
                } else if c == '<' {
                    scan_fail(st, off)
                } else {
                    ScanState { mode: ScanMode::OpenRest, ..st }
                }
            },
            ScanMode::CloseName => {
                if c == '>' {
                    if st.name_end > st.name_start {
                        ScanState {
                            mode: ScanMode::Text,
                            toks: st.toks.push(
                                TokenView {
                                    off: st.tag_off,
                                    kind: TokenKindView::Close(
                                        s.subrange(st.name_start as int, st.name_end as int),
                                    ),
                                },
                            ),
                            ..st
                        }
                    } else {
                        scan_fail(st, off)
                    }
                } else if c == '<' || c == '/' || is_space(c) {
                    scan_fail(st, off)
                } else {
                    ScanState { name_end: off + 1, ..st }
                }
            },
        }
    }
}

/// The scan state after reading the first `n` characters of `s`.
pub open spec fn scan_run(s: Seq<char>, n: nat) -> ScanState
    decreases n,
{
    if n == 0 {
        scan_init()
    } else {
        scan_step(s, scan_run(s, (n - 1) as nat), (n - 1) as nat)
    }
}

/// The finished scan of the whole of `s`: its tokens, or the offset at which
/// it failed. Reaching the end of the document inside a tag or a prolog is a
/// failure at offset `s.len()`.
pub open spec fn spec_tokens(s: Seq<char>) -> Result<Seq<TokenView>, nat> {
    let st = scan_run(s, s.len());
    match st.failed {
        Option::Some(off) => Result::Err(off),
        Option::None => {
            if st.mode is Text {
                Result::Ok(scan_flush_text(s, st))
            } else {
                Result::Err(s.len())
            }
        },
    }
}

/// The ranges of a scan state stay inside the first `n` characters, so that
/// the extraction of names and text runs is well defined.
pub open spec fn scan_wf(st: ScanState, n: nat) -> bool {
    &&& st.text_start <= st.text_end <= n
    &&& st.name_start <= st.name_end <= n
    &&& st.tag_off <= n
}

pub proof fn lemma_scan_run_wf(s: Seq<char>, n: nat)
    requires
        n <= s.len(),
    ensures
        scan_wf(scan_run(s, n), n),
    decreases n,
{
    if n > 0 {
        lemma_scan_run_wf(s, (n - 1) as nat);
    }
}

/// Every `Text` token a scan emits carries at least one character: a run that
/// is empty after trimming is dropped, never emitted.
pub open spec fn toks_text_nonempty(toks: Seq<TokenView>) -> bool {
    forall|i: int|
        0 <= i < toks.len() ==> match #[trigger] toks[i].kind {
            TokenKindView::Text(t) => t.len() > 0,
            _ => true,
        }
}

pub proof fn lemma_scan_run_text_nonempty(s: Seq<char>, n: nat)
    requires
        n <= s.len(),
    ensures
        toks_text_nonempty(scan_run(s, n).toks),
    decreases n,
{
    if n > 0 {
        lemma_scan_run_text_nonempty(s, (n - 1) as nat);
        lemma_scan_run_wf(s, (n - 1) as nat);
    }
}

/// The tokens of the finished scan also carry no empty text run.
pub proof fn lemma_spec_tokens_text_nonempty(s: Seq<char>)
    ensures
        spec_tokens(s) matches Result::Ok(toks) ==> toks_text_nonempty(toks),
{
    lemma_scan_run_text_nonempty(s, s.len());
    lemma_scan_run_wf(s, s.len());
}

/// Executable scan state; its model is `ScanState`.
pub struct Scanner {
    pub mode: ScanMode,
    pub tag_off: usize,
    pub text_start: usize,
    pub text_end: usize,
    pub name_start: usize,
    pub name_end: usize,
    pub toks: Vec<Token>,
    pub failed: Option<usize>,
}

impl View for Scanner {
    type V = ScanState;

    open spec fn view(&self) -> ScanState {
        ScanState {
            mode: self.mode,
            tag_off: self.tag_off as nat,
            text_start: self.text_start as nat,
            text_end: self.text_end as nat,
            name_start: self.name_start as nat,
            name_end: self.name_end as nat,
            toks: self.toks@.map_values(|t: Token| t@),
            failed: match self.failed {
                Option::Some(o) => Option::Some(o as nat),
                Option::None => Option::None,
            },
        }
    }
}

impl Scanner {
    pub fn new() -> (r: Scanner)
        ensures
            r@ == scan_init(),
    {
        let r = Scanner {
            mode: ScanMode::Text,
            tag_off: 0,
            text_start: 0,
            text_end: 0,
            name_start: 0,
            name_end: 0,
            toks: Vec::new(),
            failed: Option::None,
        };
        assert(r@.toks =~= scan_init().toks);
        assert(r@ =~= scan_init());
        r
    }

    /// Extract the tag name currently delimited by `name_start .. name_end`.
    fn take_name(&self, s: &str) -> (r: String)
        requires
            s@.len() <= usize::MAX,
            self.name_start <= self.name_end,
            self.name_end as int <= s@.len(),
        ensures
            r@ == s@.subrange(self@.name_start as int, self@.name_end as int),
    {
        let sub = s.substring_char(self.name_start, self.name_end);
        sub.to_owned()
    }

    /// Flush the pending text run as a token, if anything remains.
    fn flush_text(&mut self, s: &str)
        requires
            s@.len() <= usize::MAX,
            old(self).text_start <= old(self).text_end,
            old(self).text_end as int <= s@.len(),
        ensures
            final(self).toks@.map_values(|t: Token| t@) == scan_flush_text(s@, old(self)@),
            final(self).mode == old(self).mode,
            final(self).tag_off == old(self).tag_off,
            final(self).text_start == old(self).text_start,
            final(self).text_end == old(self).text_end,
            final(self).name_start == old(self).name_start,
            final(self).name_end == old(self).name_end,
            final(self).failed == old(self).failed,
    {
        if self.text_end > self.text_start {
            let run = s.substring_char(self.text_start, self.text_end);
            let tok = Token { off: self.text_start, kind: TokenKind::Text(run.to_owned()) };
            self.toks.push(tok);
            assert(self.toks@.map_values(|t: Token| t@) =~= scan_flush_text(s@, old(self)@));
        } else {
            assert(self.toks@.map_values(|t: Token| t@) =~= scan_flush_text(s@, old(self)@));
        }
    }

    /// One step of the scan on character `i` of `s`.
    pub fn step(&mut self, s: &str, c: char, i: usize)
        requires
            s@.len() <= usize::MAX,
            i < s@.len(),
            c == s@[i as int],
            scan_wf(old(self)@, i as nat),
        ensures
            final(self)@ == scan_step(s@, old(self)@, i as nat),
    {
        if self.failed.is_some() {
            return ;
        }
        match self.mode {
            ScanMode::Text => {
                if c == '<' {
                    self.flush_text(s);
                    self.mode = ScanMode::TagStart;
                    self.tag_off = i;
                    self.text_start = 0;
                    self.text_end = 0;
                } else if c == ' ' || c == '\t' || c == '\r' || c == '\n' {
                } else if self.text_end > self.text_start {
                    self.text_end = i + 1;
                } else {
                    self.text_start = i;
                    self.text_end = i + 1;
                }
            },
            ScanMode::TagStart => {
                if c == '?' {
                    self.mode = ScanMode::Prolog;
                } else if c == '/' {
                    self.mode = ScanMode::CloseName;
                    self.name_start = i + 1;
                    self.name_end = i + 1;
                } else if c == '>' || c == '<' || c == ' ' || c == '\t' || c == '\r' || c == '\n' {
                    self.failed = Option::Some(i);
                } else {
                    self.mode = ScanMode::OpenName;
                    self.name_start = i;
                    self.name_end = i + 1;
                }
            },
            ScanMode::Prolog => {
                if c == '?' {
                    self.mode = ScanMode::PrologQ;
                }
            },
            ScanMode::PrologQ => {
                if c == '>' {
                    self.mode = ScanMode::Text;
                } else if c == '?' {
                } else {
                    self.mode = ScanMode::Prolog;
                }
            },
            ScanMode::OpenName => {
                if c == '>' {
                    let name = self.take_name(s);
                    let tok = Token { off: self.tag_off, kind: TokenKind::Open(name) };
                    self.toks.push(tok);
                    self.mode = ScanMode::Text;
                    assert(self@.toks =~= scan_step(s@, old(self)@, i as nat).toks);
                } else if c == '/' {
                    self.mode = ScanMode::OpenSlash;
                } else if c == ' ' || c == '\t' || c == '\r' || c == '\n' {
                    self.mode = ScanMode::OpenRest;
                } else if c == '<' {
                    self.failed = Option::Some(i);
                } else {
                    self.name_end = i + 1;
                }
            },
            ScanMode::OpenRest => {
                if c == '>' {
                    let name = self.take_name(s);
                    let tok = Token { off: self.tag_off, kind: TokenKind::Open(name) };
                    self.toks.push(tok);
                    self.mode = ScanMode::Text;
                    assert(self@.toks =~= scan_step(s@, old(self)@, i as nat).toks);
                } else if c == '/' {
                    self.mode = ScanMode::OpenSlash;
                } else if c == '<' {
                    self.failed = Option::Some(i);
                }
            },
            ScanMode::OpenSlash => {
                if c == '>' {
                    let name = self.take_name(s);
                    let name2 = self.take_name(s);
                    let tok = Token { off: self.tag_off, kind: TokenKind::Open(name) };
                    self.toks.push(tok);
                    let tok2 = Token { off: self.tag_off, kind: TokenKind::Close(name2) };
                    self.toks.push(tok2);
                    self.mode = ScanMode::Text;
                    assert(self@.toks =~= scan_step(s@, old(self)@, i as nat).toks);
                } else if c == '<' {
                    self.failed = Option::Some(i);
                } else {
                    self.mode = ScanMode::OpenRest;
                }
            },
            ScanMode::CloseName => {
                if c == '>' {
                    if self.name_end > self.name_start {
                        let name = self.take_name(s);
                        let tok = Token { off: self.tag_off, kind: TokenKind::Close(name) };
                        self.toks.push(tok);
                        self.mode = ScanMode::Text;
                        assert(self@.toks =~= scan_step(s@, old(self)@, i as nat).toks);
                    } else {
                        self.failed = Option::Some(i);
                    }
                } else if c == '<' || c == '/' || c == ' ' || c == '\t' || c == '\r' || c == '\n' {
                    self.failed = Option::Some(i);
                } else {
                    self.name_end = i + 1;
                }
            },
        }
        assert(self@ =~= scan_step(s@, old(self)@, i as nat));
    }
}

/// Tokenize the whole document: the token list, or the character offset at
/// which the scan failed.
pub fn tokenize(s: &str) -> (r: Result<Vec<Token>, usize>)
    ensures
        match r {
            Result::Ok(toks) => spec_tokens(s@) == Result::<Seq<TokenView>, nat>::Ok(
                toks@.map_values(|t: Token| t@),
            ),
            Result::Err(off) => spec_tokens(s@) == Result::<Seq<TokenView>, nat>::Err(off as nat),
        },
{
    let n = s.unicode_len();
    let mut sc = Scanner::new();
    let mut i: usize = 0;
    while i < n
        invariant
            n == s@.len() <= usize::MAX,
            i <= n,
            sc@ == scan_run(s@, i as nat),
        decreases n - i,
    {
        proof {
            lemma_scan_run_wf(s@, i as nat);
        }
        let c = s.get_char(i);
        sc.step(s, c, i);
        i = i + 1;
    }
    proof {
        lemma_scan_run_wf(s@, n as nat);
    }
    match sc.failed {
        Option::Some(off) => Result::Err(off),
        Option::None => {
            match sc.mode {
                ScanMode::Text => {
                    sc.flush_text(s);
                    Result::Ok(sc.toks)
                },
                _ => Result::Err(n),
            }
        },
    }
}

} // verus!
