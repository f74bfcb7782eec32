use vstd::prelude::*;
use vstd::string::*;
use vstd::utf8::encode_utf8;

verus! {

// Modes of the scan, after html_editor's tokenizer: between tags, inside a
// tag, inside a comment, inside a script or style body, after the tokenizer
// has stopped with an error, and after an input that could make it panic.
pub const MODE_TEXT: u8 = 0;
pub const MODE_TAG: u8 = 1;
pub const MODE_COMMENT: u8 = 2;
pub const MODE_SCRIPT: u8 = 3;
pub const MODE_STYLE: u8 = 4;
pub const MODE_STOPPED: u8 = 5;
pub const MODE_UNSAFE: u8 = 6;

/// The state of a byte-wise scan of a document that follows the chunking of
/// html_editor's tokenizer. Every character that tokenizer acts on is ASCII,
/// and in UTF-8 every byte of a non-ASCII character is at least 0x80, so a
/// scan over the bytes makes the same decisions as one over the characters.
#[derive(Clone, Copy, PartialEq, Eq, Structural)]
pub struct ScanState {
    pub mode: u8,
    /// Previous byte of the current chunk; 0 at its start.
    pub prev: u8,
    /// Open quote inside a tag, 0 when none.
    pub quote: u8,
    /// How many leading bytes of the tag chunk spell a prefix of `<!--`; 9 when they do not.
    pub lead: u8,
    /// Length of the tag chunk, up to 3.
    pub len: u8,
    /// Second byte of the tag chunk.
    pub second: u8,
    /// Tag name: 0 before it, 1 inside it, 2 after it (it ends at ASCII whitespace).
    pub name_phase: u8,
    /// How much of the name spells a prefix of `script` / `style`; 9 when it does not.
    pub script_k: u8,
    pub style_k: u8,
    /// 0 before the name, 1 from the name to the first space (ASCII only), 2 after.
    pub ascii_phase: u8,
    /// An `=` has been followed only by possible whitespace.
    pub eq_pending: bool,
    /// `eq_pending` before the last byte.
    pub eq_before_last: bool,
    /// Comment length, up to 7.
    pub clen: u8,
    /// Progress towards the end marker of a comment, script or style body.
    pub end_k: u8,
}

pub open spec fn text_state() -> ScanState {
    ScanState {
        mode: MODE_TEXT, prev: 0, quote: 0, lead: 0, len: 0, second: 0, name_phase: 0, script_k: 0,
        style_k: 0, ascii_phase: 0, eq_pending: false, eq_before_last: false, clen: 0, end_k: 0,
    }
}

pub open spec fn with_mode(m: u8) -> ScanState {
    ScanState { mode: m, ..text_state() }
}

pub open spec fn fresh_tag() -> ScanState {
    ScanState { mode: MODE_TAG, prev: 60, lead: 1, len: 1, ..text_state() }
}

pub open spec fn is_ascii_ws(c: u8) -> bool {
    c == 32 || c == 9 || c == 10 || c == 12 || c == 13
}

/// Whitespace that `str::trim` removes, among ASCII bytes.
pub open spec fn is_trim_ws(c: u8) -> bool {
    is_ascii_ws(c) || c == 11
}

/// `<!--`
pub open spec fn comment_open(k: u8) -> u8 {
    if k == 0 { 60 } else if k == 1 { 33 } else if k == 2 { 45 } else if k == 3 { 45 } else { 0 }
}

/// `script`
pub open spec fn script_name(k: u8) -> u8 {
    if k == 0 { 115 } else if k == 1 { 99 } else if k == 2 { 114 } else if k == 3 { 105 }
    else if k == 4 { 112 } else if k == 5 { 116 } else { 0 }
}

/// `style`
pub open spec fn style_name(k: u8) -> u8 {
    if k == 0 { 115 } else if k == 1 { 116 } else if k == 2 { 121 } else if k == 3 { 108 }
    else if k == 4 { 101 } else { 0 }
}

/// `</script>`
pub open spec fn script_close(k: u8) -> u8 {
    if k == 0 { 60 } else if k == 1 { 47 } else if k == 8 { 62 } else { script_name((k - 2) as u8) }
}

/// `</style>`
pub open spec fn style_close(k: u8) -> u8 {
    if k == 0 { 60 } else if k == 1 { 47 } else if k == 7 { 62 } else { style_name((k - 2) as u8) }
}

pub open spec fn advance(k: u8, c: u8, expected: u8, n: u8) -> u8 {
    if k < n && c == expected { (k + 1) as u8 } else { 9 }
}

/// Bookkeeping for one more byte of a tag chunk.
pub open spec fn push_tag(s: ScanState, c: u8) -> ScanState {
    let in_name = if s.name_phase == 0 { !is_ascii_ws(c) } else { s.name_phase == 1 && !is_ascii_ws(c) };
    ScanState {
        prev: c,
        lead: if s.lead < 4 && c == comment_open(s.lead) { (s.lead + 1) as u8 } else { 9 },
        len: if s.len < 3 { (s.len + 1) as u8 } else { 3 },
        second: if s.len == 1 { c } else { s.second },
        name_phase: if in_name { 1 } else if s.name_phase == 0 { 0 } else { 2 },
        script_k: if in_name { advance(s.script_k, c, script_name(s.script_k), 6) } else { s.script_k },
        style_k: if in_name { advance(s.style_k, c, style_name(s.style_k), 5) } else { s.style_k },
        ascii_phase: if s.ascii_phase == 0 {
            if is_ascii_ws(c) { 0 } else { 1 }
        } else if s.ascii_phase == 1 {
            if c == 32 { 2 } else { 1 }
        } else {
            2
        },
        eq_pending: if c == 61 { true } else if is_trim_ws(c) || c >= 128 { s.eq_pending } else { false },
        eq_before_last: s.eq_pending,
        ..s
    }
}

/// The unquoted `>` that ends a tag chunk.
pub open spec fn tag_end(s: ScanState) -> ScanState {
    let closing = s.prev == 47;
    let start = !closing && s.second != 47 && s.second != 33;
    if (closing && s.eq_before_last) || (!closing && s.eq_pending) {
        with_mode(MODE_UNSAFE)
    } else if start && s.script_k == 6 {
        with_mode(MODE_SCRIPT)
    } else if start && s.style_k == 5 {
        with_mode(MODE_STYLE)
    } else {
        text_state()
    }
}

pub open spec fn scan_step(s: ScanState, c: u8) -> ScanState {
    if s.mode == MODE_TEXT {
        if c == 60 {
            fresh_tag()
        } else if c == 62 {
            if s.prev == 47 { with_mode(MODE_UNSAFE) } else { with_mode(MODE_STOPPED) }
        } else {
            ScanState { prev: c, ..s }
        }
    } else if s.mode == MODE_TAG {
        if s.quote != 0 {
            if (c == 34 || c == 39) && s.prev == 61 {
                with_mode(MODE_UNSAFE)
            } else if c >= 128 && s.ascii_phase < 2 {
                with_mode(MODE_UNSAFE)
            } else {
                ScanState { quote: if c == s.quote && s.prev != 92 { 0 } else { s.quote }, ..push_tag(s, c) }
            }
        } else if c == 62 {
            tag_end(s)
        } else if c == 60 {
            fresh_tag()
        } else if (c >= 128 && s.ascii_phase < 2) || (s.len == 1 && c == 63) {
            with_mode(MODE_UNSAFE)
        } else if c == 34 || c == 39 {
            ScanState { quote: c, ..push_tag(s, c) }
        } else if c == 45 && s.lead == 3 {
            ScanState { clen: 4, end_k: 2, ..with_mode(MODE_COMMENT) }
        } else {
            push_tag(s, c)
        }
    } else if s.mode == MODE_COMMENT {
        let clen: u8 = if s.clen < 7 { (s.clen + 1) as u8 } else { 7 };
        if s.end_k == 2 && c == 62 {
            if clen < 7 { with_mode(MODE_UNSAFE) } else { text_state() }
        } else {
            ScanState { clen, end_k: if c == 45 { if s.end_k >= 1 { 2 } else { 1 } } else { 0 }, ..s }
        }
    } else if s.mode == MODE_SCRIPT {
        if s.end_k < 9 && c == script_close(s.end_k) {
            if s.end_k == 8 { text_state() } else { ScanState { end_k: (s.end_k + 1) as u8, ..s } }
        } else {
            ScanState { end_k: if c == 60 { 1 } else { 0 }, ..s }
        }
    } else if s.mode == MODE_STYLE {
        if s.end_k < 8 && c == style_close(s.end_k) {
            if s.end_k == 7 { text_state() } else { ScanState { end_k: (s.end_k + 1) as u8, ..s } }
        } else {
            ScanState { end_k: if c == 60 { 1 } else { 0 }, ..s }
        }
    } else {
        s
    }
}

pub open spec fn scan(bytes: Seq<u8>) -> ScanState
    decreases bytes.len(),
{
    if bytes.len() == 0 {
        text_state()
    } else {
        scan_step(scan(bytes.drop_last()), bytes.last())
    }
}

/// html_editor's `parse` returns on this document without panicking. The
/// scan follows the tokenizer's chunks (tags, comments, script and style
/// bodies, quotes) and refuses, conservatively:
/// - a comment `<!-->` or `<!--->`, which `Token::from_comment` cannot slice;
/// - any `<?` declaration, which needs `version` and `encoding` attributes;
/// - a non-ASCII character between a tag's `<` and the first space after
///   its name, where `Token::from` uses character counts as byte offsets;
/// - text that ends in `/>` at a `>`, which `Token::from` slices as a tag;
/// - an attribute string that would end after `=` or inside a quote that
///   the attribute parser opened, which it rejects with a panic.
/// A `>` in text makes the tokenizer return an error, after which nothing
/// is read.
pub open spec fn html_parse_safe(html: Seq<char>) -> bool {
    scan(encode_utf8(html)).mode != MODE_UNSAFE
}

fn text_state_exec() -> (r: ScanState)
    ensures
        r == text_state(),
{
    ScanState {
        mode: MODE_TEXT, prev: 0, quote: 0, lead: 0, len: 0, second: 0, name_phase: 0, script_k: 0,
        style_k: 0, ascii_phase: 0, eq_pending: false, eq_before_last: false, clen: 0, end_k: 0,
    }
}

fn with_mode_exec(m: u8) -> (r: ScanState)
    ensures
        r == with_mode(m),
{
    ScanState { mode: m, ..text_state_exec() }
}

fn is_ascii_ws_exec(c: u8) -> (r: bool)
    ensures
        r == is_ascii_ws(c),
{
    c == 32 || c == 9 || c == 10 || c == 12 || c == 13
}

fn comment_open_exec(k: u8) -> (r: u8)
    ensures
        r == comment_open(k),
{
    if k == 0 { 60 } else if k == 1 { 33 } else if k == 2 { 45 } else if k == 3 { 45 } else { 0 }
}

fn script_name_exec(k: u8) -> (r: u8)
    ensures
        r == script_name(k),
{
    if k == 0 { 115 } else if k == 1 { 99 } else if k == 2 { 114 } else if k == 3 { 105 }
    else if k == 4 { 112 } else if k == 5 { 116 } else { 0 }
}

fn style_name_exec(k: u8) -> (r: u8)
    ensures
        r == style_name(k),
{
    if k == 0 { 115 } else if k == 1 { 116 } else if k == 2 { 121 } else if k == 3 { 108 }
    else if k == 4 { 101 } else { 0 }
}

fn script_close_exec(k: u8) -> (r: u8)
    requires
        k < 9,
    ensures
        r == script_close(k),
{
    if k == 0 { 60 } else if k == 1 { 47 } else if k == 8 { 62 } else { script_name_exec(k - 2) }
}

fn style_close_exec(k: u8) -> (r: u8)
    requires
        k < 8,
    ensures
        r == style_close(k),
{
    if k == 0 { 60 } else if k == 1 { 47 } else if k == 7 { 62 } else { style_name_exec(k - 2) }
}

fn advance_exec(k: u8, c: u8, expected: u8, n: u8) -> (r: u8)
    requires
        n < 9,
    ensures
        r == advance(k, c, expected, n),
{
    if k < n && c == expected { k + 1 } else { 9 }
}

fn push_tag_exec(s: ScanState, c: u8) -> (r: ScanState)
    ensures
        r == push_tag(s, c),
{
    let ws = is_ascii_ws_exec(c);
    let in_name = if s.name_phase == 0 { !ws } else { s.name_phase == 1 && !ws };
    ScanState {
        prev: c,
        lead: if s.lead < 4 && c == comment_open_exec(s.lead) { s.lead + 1 } else { 9 },
        len: if s.len < 3 { s.len + 1 } else { 3 },
        second: if s.len == 1 { c } else { s.second },
        name_phase: if in_name { 1 } else if s.name_phase == 0 { 0 } else { 2 },
        script_k: if in_name { advance_exec(s.script_k, c, script_name_exec(s.script_k), 6) } else { s.script_k },
        style_k: if in_name { advance_exec(s.style_k, c, style_name_exec(s.style_k), 5) } else { s.style_k },
        ascii_phase: if s.ascii_phase == 0 {
            if ws { 0 } else { 1 }
        } else if s.ascii_phase == 1 {
            if c == 32 { 2 } else { 1 }
        } else {
            2
        },
        eq_pending: if c == 61 { true } else if ws || c == 11 || c >= 128 { s.eq_pending } else { false },
        eq_before_last: s.eq_pending,
        ..s
    }
}

fn tag_end_exec(s: ScanState) -> (r: ScanState)
    ensures
        r == tag_end(s),
{
    let closing = s.prev == 47;
    let start = !closing && s.second != 47 && s.second != 33;
    if (closing && s.eq_before_last) || (!closing && s.eq_pending) {
        with_mode_exec(MODE_UNSAFE)
    } else if start && s.script_k == 6 {
        with_mode_exec(MODE_SCRIPT)
    } else if start && s.style_k == 5 {
        with_mode_exec(MODE_STYLE)
    } else {
        text_state_exec()
    }
}

fn scan_step_exec(s: ScanState, c: u8) -> (r: ScanState)
    ensures
        r == scan_step(s, c),
{
    if s.mode == MODE_TEXT {
        if c == 60 {
            ScanState { mode: MODE_TAG, prev: 60, lead: 1, len: 1, ..text_state_exec() }
        } else if c == 62 {
            if s.prev == 47 { with_mode_exec(MODE_UNSAFE) } else { with_mode_exec(MODE_STOPPED) }
        } else {
            ScanState { prev: c, ..s }
        }
    } else if s.mode == MODE_TAG {
        if s.quote != 0 {
            if (c == 34 || c == 39) && s.prev == 61 {
                with_mode_exec(MODE_UNSAFE)
            } else if c >= 128 && s.ascii_phase < 2 {
                with_mode_exec(MODE_UNSAFE)
            } else {
                let q = if c == s.quote && s.prev != 92 { 0 } else { s.quote };
                ScanState { quote: q, ..push_tag_exec(s, c) }
            }
        } else if c == 62 {
            tag_end_exec(s)
        } else if c == 60 {
            ScanState { mode: MODE_TAG, prev: 60, lead: 1, len: 1, ..text_state_exec() }
        } else if (c >= 128 && s.ascii_phase < 2) || (s.len == 1 && c == 63) {
            with_mode_exec(MODE_UNSAFE)
        } else if c == 34 || c == 39 {
            ScanState { quote: c, ..push_tag_exec(s, c) }
        } else if c == 45 && s.lead == 3 {
            ScanState { clen: 4, end_k: 2, ..with_mode_exec(MODE_COMMENT) }
        } else {
            push_tag_exec(s, c)
        }
    } else if s.mode == MODE_COMMENT {
        let clen: u8 = if s.clen < 7 { s.clen + 1 } else { 7 };
        if s.end_k == 2 && c == 62 {
            if clen < 7 { with_mode_exec(MODE_UNSAFE) } else { text_state_exec() }
        } else {
            let k: u8 = if c == 45 { if s.end_k >= 1 { 2 } else { 1 } } else { 0 };
            ScanState { clen, end_k: k, ..s }
        }
    } else if s.mode == MODE_SCRIPT {
        if s.end_k < 9 && c == script_close_exec(s.end_k) {
            if s.end_k == 8 { text_state_exec() } else { ScanState { end_k: s.end_k + 1, ..s } }
        } else {
            ScanState { end_k: if c == 60 { 1 } else { 0 }, ..s }
        }
    } else if s.mode == MODE_STYLE {
        if s.end_k < 8 && c == style_close_exec(s.end_k) {
            if s.end_k == 7 { text_state_exec() } else { ScanState { end_k: s.end_k + 1, ..s } }
        } else {
            ScanState { end_k: if c == 60 { 1 } else { 0 }, ..s }
        }
    } else {
        s
    }
}

/// Whether html_editor can parse the document without panicking, by the
/// conservative scan of `html_parse_safe`.
pub fn html_is_parse_safe(html: &str) -> (r: bool)
    ensures
        r == html_parse_safe(html@),
{
    let bytes = html.as_bytes();
    let mut st = text_state_exec();
    let mut i: usize = 0;
    while i < bytes.len()
        invariant
            bytes@ == encode_utf8(html@),
            i <= bytes@.len(),
            st == scan(bytes@.subrange(0, i as int)),
        decreases bytes@.len() - i,
    {
        assert(bytes@.subrange(0, i + 1).drop_last() == bytes@.subrange(0, i as int));
        st = scan_step_exec(st, bytes[i]);
        i = i + 1;
    }
    assert(bytes@.subrange(0, i as int) == bytes@);
    st.mode != MODE_UNSAFE
}

} // verus!
