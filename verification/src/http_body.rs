//! Recognising what a provider's HTTP response body is before decoding it, describing it in
//! error messages, and classifying HTTP failures.

use vstd::prelude::*;
use crate::source_contract::{StreamingProviderError, StreamingProviderErrorView};
use crate::text::{
    ascii_lower_byte, ascii_lower_seq, chars_of, chars_start_with, contains_seq, decimal, find_chars, has_prefix,
    hex_byte, is_ascii_whitespace_byte, is_unicode_whitespace, push_char, push_decimal, push_hex_byte,
    to_ascii_lower,
};

verus! {

/// The text `String::from_utf8_lossy` makes of a byte sequence.
pub uninterp spec fn utf8_lossy(bytes: Seq<u8>) -> Seq<char>;

/// Decodes bytes as UTF-8, replacing invalid sequences (`String::from_utf8_lossy`). ASCII
/// bytes are valid UTF-8 and decode to the characters with the same codes.
#[verifier::external_body]
fn utf8_lossy_string(bytes: &[u8]) -> (s: String)
    ensures
        s@ == utf8_lossy(bytes@),
        (forall|i: int| 0 <= i < bytes@.len() ==> #[trigger] bytes@[i] < 0x80) ==> s@ == bytes@.map_values(
            |b: u8| b as char,
        ),
{
    String::from_utf8_lossy(bytes).into_owned()
}

/// `b` without its leading ASCII white space.
pub open spec fn skip_ascii_whitespace(b: Seq<u8>) -> Seq<u8>
    decreases b.len(),
{
    if b.len() > 0 && is_ascii_whitespace_byte(b[0]) {
        skip_ascii_whitespace(b.drop_first())
    } else {
        b
    }
}

/// `b` starts with the ASCII text `p` when its ASCII letters are lower-cased.
pub open spec fn starts_with_folded(b: Seq<u8>, p: Seq<char>) -> bool {
    &&& p.len() <= b.len()
    &&& forall|i: int| 0 <= i < p.len() ==> ascii_lower_byte(#[trigger] b[i]) as u32 == p[i] as u32
}

/// Where the first byte that is not ASCII white space sits.
fn skip_whitespace_index(body: &[u8]) -> (k: usize)
    ensures
        k <= body@.len(),
        body@.subrange(k as int, body@.len() as int) == skip_ascii_whitespace(body@),
{
    let mut k: usize = 0;
    assert(body@.subrange(0, body@.len() as int) =~= body@);
    while k < body.len() && (body[k] == 0x20u8 || body[k] == 0x09u8 || body[k] == 0x0au8 || body[k] == 0x0cu8
        || body[k] == 0x0du8)
        invariant
            k <= body@.len(),
            skip_ascii_whitespace(body@.subrange(k as int, body@.len() as int)) == skip_ascii_whitespace(body@),
        decreases body@.len() - k,
    {
        let ghost rest = body@.subrange(k as int, body@.len() as int);
        assert(rest.drop_first() =~= body@.subrange(k + 1, body@.len() as int));
        k = k + 1;
    }
    k
}

/// Whether `body[from..]` starts with `prefix` after ASCII lower-casing.
fn starts_with_folded_at(body: &[u8], from: usize, prefix: &str) -> (r: bool)
    requires
        from <= body@.len(),
    ensures
        r == starts_with_folded(body@.subrange(from as int, body@.len() as int), prefix@),
{
    let p = chars_of(prefix);
    let ghost rest = body@.subrange(from as int, body@.len() as int);
    if p.len() > body.len() - from {
        return false;
    }
    let mut i: usize = 0;
    assert(from + p@.len() <= body@.len());
    assert(body@.len() == body.len());
    while i < p.len()
        invariant
            p@ == prefix@,
            from <= body@.len(),
            from + p@.len() <= body@.len(),
            body@.len() == body.len(),
            rest == body@.subrange(from as int, body@.len() as int),
            i <= p@.len(),
            forall|j: int| 0 <= j < i ==> ascii_lower_byte(#[trigger] rest[j]) as u32 == p@[j] as u32,
        decreases p.len() - i,
    {
        let b = body[from + i];
        let lowered: u8 = if 0x41u8 <= b && b <= 0x5au8 {
            b + 32
        } else {
            b
        };
        assert(rest[i as int] == b);
        if lowered as u32 != p[i] as u32 {
            return false;
        }
        i = i + 1;
    }
    true
}

/// After leading ASCII white space, `body` starts with one of `prefixes` (ignoring ASCII
/// case).
pub open spec fn starts_with_any_folded(body: Seq<u8>, prefixes: Seq<Seq<char>>) -> bool {
    exists|i: int| 0 <= i < prefixes.len() && starts_with_folded(skip_ascii_whitespace(body), #[trigger] prefixes[i])
}

/// The markers of an HTML or XML error page: `<!doctype`, `<html`, `<?xml`,
/// `<serviceexceptionreport`, `<ows:exceptionreport`.
pub open spec fn markup_error_prefixes() -> Seq<Seq<char>> {
    seq!["<!doctype"@, "<html"@, "<?xml"@, "<serviceexceptionreport"@, "<ows:exceptionreport"@]
}

/// The markers of a textual error answer: the markup ones, and `{"error`, `{"message`,
/// `error`, `message`.
pub open spec fn text_error_prefixes() -> Seq<Seq<char>> {
    markup_error_prefixes() + seq!["{\"error"@, "{\"message"@, "error"@, "message"@]
}

fn starts_with_any_folded_exec(body: &[u8], prefixes: &Vec<&str>) -> (r: bool)
    ensures
        r == starts_with_any_folded(body@, prefixes@.map_values(|p: &str| p@)),
{
    let k = skip_whitespace_index(body);
    let ghost rest = skip_ascii_whitespace(body@);
    let ghost views = prefixes@.map_values(|p: &str| p@);
    let mut i: usize = 0;
    while i < prefixes.len()
        invariant
            k <= body@.len(),
            rest == body@.subrange(k as int, body@.len() as int),
            rest == skip_ascii_whitespace(body@),
            views == prefixes@.map_values(|p: &str| p@),
            i <= prefixes.len(),
            forall|j: int| 0 <= j < i ==> !starts_with_folded(rest, #[trigger] views[j]),
        decreases prefixes.len() - i,
    {
        if starts_with_folded_at(body, k, prefixes[i]) {
            assert(starts_with_folded(rest, views[i as int]));
            return true;
        }
        i = i + 1;
    }
    false
}

/// The body is an HTML or XML error page rather than an image.
pub open spec fn spec_looks_like_error_document(body: Seq<u8>) -> bool {
    starts_with_any_folded(body, markup_error_prefixes())
}

/// The body is an HTML, XML, JSON or plain-text error answer rather than a raster.
pub open spec fn spec_looks_like_text_document(body: Seq<u8>) -> bool {
    starts_with_any_folded(body, text_error_prefixes())
}

/// Whether an imagery response body is an HTML or XML error page.
pub fn response_looks_like_error_document(body: &[u8]) -> (r: bool)
    ensures
        r == spec_looks_like_error_document(body@),
{
    let prefixes: Vec<&str> = vec!["<!doctype", "<html", "<?xml", "<serviceexceptionreport", "<ows:exceptionreport"];
    assert(prefixes@.map_values(|p: &str| p@) =~= markup_error_prefixes());
    starts_with_any_folded_exec(body, &prefixes)
}

/// Whether a height response body is a textual error answer.
pub fn response_looks_like_text_document(body: &[u8]) -> (r: bool)
    ensures
        r == spec_looks_like_text_document(body@),
{
    let prefixes: Vec<&str> = vec![
        "<!doctype",
        "<html",
        "<?xml",
        "<serviceexceptionreport",
        "<ows:exceptionreport",
        "{\"error",
        "{\"message",
        "error",
        "message",
    ];
    assert(prefixes@.map_values(|p: &str| p@) =~= text_error_prefixes());
    starts_with_any_folded_exec(body, &prefixes)
}

/// At most the first 160 characters of `text`, line breaks (`\n`, `\r`) shown as spaces.
pub open spec fn spec_preview_text(text: Seq<char>) -> Seq<char> {
    let n = if text.len() < 160 { text.len() as int } else { 160 };
    Seq::new(n as nat, |i: int| if text[i] == '\n' || text[i] == '\r' { ' ' } else { text[i] })
}

/// The preview of a text: its first 160 characters with line breaks shown as spaces.
pub fn preview_text(text: &str) -> (s: String)
    ensures
        s@ == spec_preview_text(text@),
{
    let chars = chars_of(text);
    let n = if chars.len() < 160 { chars.len() } else { 160 };
    let mut s = String::new();
    let mut i: usize = 0;
    while i < n
        invariant
            chars@ == text@,
            n <= chars.len(),
            n == if text@.len() < 160 { text@.len() as int } else { 160 },
            i <= n,
            s@ == Seq::new(i as nat, |j: int| if text@[j] == '\n' || text@[j] == '\r' { ' ' } else { text@[j] }),
        decreases n - i,
    {
        let c = chars[i];
        if c == '\n' || c == '\r' {
            push_char(&mut s, ' ');
        } else {
            push_char(&mut s, c);
        }
        i = i + 1;
        assert(s@ =~= Seq::new(i as nat, |j: int| if text@[j] == '\n' || text@[j] == '\r' { ' ' } else { text@[j] }));
    }
    s
}

/// The preview of a response body: its first 160 bytes decoded as UTF-8 (invalid sequences
/// replaced), then previewed as text.
pub open spec fn spec_response_preview(body: Seq<u8>) -> Seq<char> {
    spec_preview_text(utf8_lossy(body.subrange(0, if body.len() < 160 { body.len() as int } else { 160 })))
}

/// A short, single-line preview of a response body for error messages.
pub fn response_preview(body: &[u8]) -> (s: String)
    ensures
        s@ == spec_response_preview(body@),
{
    let n = if body.len() < 160 { body.len() } else { 160 };
    let mut head: Vec<u8> = Vec::new();
    let mut i: usize = 0;
    while i < n
        invariant
            n <= body@.len(),
            i <= n,
            head@ == body@.subrange(0, i as int),
        decreases n - i,
    {
        head.push(body[i]);
        i = i + 1;
        assert(head@ =~= body@.subrange(0, i as int));
    }
    let text = utf8_lossy_string(head.as_slice());
    preview_text(text.as_str())
}

/// The body starts with a TIFF or BigTIFF signature (`II*\0`, `MM\0*`, `II+\0`, `MM\0+`).
pub open spec fn spec_has_tiff_signature(body: Seq<u8>) -> bool {
    &&& body.len() >= 4
    &&& {
        ||| (body[0] == 0x49 && body[1] == 0x49 && body[2] == 0x2a && body[3] == 0x00)
        ||| (body[0] == 0x4d && body[1] == 0x4d && body[2] == 0x00 && body[3] == 0x2a)
        ||| (body[0] == 0x49 && body[1] == 0x49 && body[2] == 0x2b && body[3] == 0x00)
        ||| (body[0] == 0x4d && body[1] == 0x4d && body[2] == 0x00 && body[3] == 0x2b)
    }
}

/// Whether a body starts with a TIFF signature.
pub fn body_has_tiff_signature(body: &[u8]) -> (r: bool)
    ensures
        r == spec_has_tiff_signature(body@),
{
    if body.len() < 4 {
        return false;
    }
    let (a, b, c, d) = (body[0], body[1], body[2], body[3]);
    (a == 0x49 && b == 0x49 && c == 0x2a && d == 0x00) || (a == 0x4d && b == 0x4d && c == 0x00 && d == 0x2a) || (a
        == 0x49 && b == 0x49 && c == 0x2b && d == 0x00) || (a == 0x4d && b == 0x4d && c == 0x00 && d == 0x2b)
}

/// Upper-case hexadecimal of the first `n` bytes, separated by single spaces.
pub open spec fn spaced_hex(body: Seq<u8>, n: nat) -> Seq<char>
    decreases n,
{
    if n == 0 {
        Seq::empty()
    } else if n == 1 {
        hex_byte(body[0])
    } else {
        spaced_hex(body, (n - 1) as nat) + seq![' '] + hex_byte(body[n - 1])
    }
}

/// The first (at most) eight bytes of a body in hexadecimal, or `empty`.
pub open spec fn spec_body_magic_preview(body: Seq<u8>) -> Seq<char> {
    if body.len() == 0 {
        "empty"@
    } else {
        spaced_hex(body, if body.len() < 8 { body.len() } else { 8 })
    }
}

/// The first bytes of a body in hexadecimal, for error messages.
pub fn body_magic_preview(body: &[u8]) -> (s: String)
    ensures
        s@ == spec_body_magic_preview(body@),
{
    if body.len() == 0 {
        return String::from_str("empty");
    }
    let n = if body.len() < 8 { body.len() } else { 8 };
    let mut s = String::new();
    push_hex_byte(&mut s, body[0]);
    let mut i: usize = 1;
    while i < n
        invariant
            1 <= i <= n,
            n <= body@.len(),
            n <= 8,
            s@ == spaced_hex(body@, i as nat),
        decreases n - i,
    {
        push_char(&mut s, ' ');
        push_hex_byte(&mut s, body[i]);
        i = i + 1;
    }
    s
}

/// `content_type`, trimmed and ASCII lower-cased, starts with `text/` or mentions `json`,
/// `xml` or `html`.
pub open spec fn spec_content_type_looks_textual(content_type: Seq<char>) -> bool {
    let t = ascii_lower_seq(trim(content_type));
    has_prefix(t, "text/"@) || contains_seq(t, "json"@) || contains_seq(t, "xml"@) || contains_seq(t, "html"@)
}

/// `s` without leading and trailing white space (`str::trim`).
pub open spec fn trim(s: Seq<char>) -> Seq<char>
    decreases s.len(),
{
    if s.len() > 0 && is_unicode_whitespace(s[0]) {
        trim(s.drop_first())
    } else if s.len() > 0 && is_unicode_whitespace(s.last()) {
        trim(s.drop_last())
    } else {
        s
    }
}

/// The characters of `s` without leading and trailing white space.
pub fn trim_chars(s: &str) -> (r: Vec<char>)
    ensures
        r@ == trim(s@),
{
    let chars = chars_of(s);
    let mut lo: usize = 0;
    let mut hi: usize = chars.len();
    assert(chars@.subrange(0, chars@.len() as int) =~= s@);
    while lo < hi && is_whitespace_char(chars[lo])
        invariant
            chars@ == s@,
            lo <= hi <= chars.len(),
            hi == chars.len(),
            trim(chars@.subrange(lo as int, hi as int)) == trim(s@),
        decreases hi - lo,
    {
        let ghost sub = chars@.subrange(lo as int, hi as int);
        assert(sub.drop_first() =~= chars@.subrange(lo + 1, hi as int));
        lo = lo + 1;
    }
    while lo < hi && is_whitespace_char(chars[hi - 1])
        invariant
            chars@ == s@,
            lo <= hi <= chars.len(),
            lo == hi || !is_unicode_whitespace(chars@[lo as int]),
            trim(chars@.subrange(lo as int, hi as int)) == trim(s@),
        decreases hi - lo,
    {
        let ghost sub = chars@.subrange(lo as int, hi as int);
        assert(sub.drop_last() =~= chars@.subrange(lo as int, hi - 1));
        if hi - 1 > lo {
            assert(sub[0] == chars@[lo as int]);
        }
        hi = hi - 1;
    }
    let mut r: Vec<char> = Vec::new();
    let mut i = lo;
    while i < hi
        invariant
            chars@ == s@,
            lo <= i <= hi <= chars.len(),
            r@ == chars@.subrange(lo as int, i as int),
        decreases hi - i,
    {
        r.push(chars[i]);
        i = i + 1;
        assert(r@ =~= chars@.subrange(lo as int, i as int));
    }
    r
}

/// `char::is_whitespace`.
pub fn is_whitespace_char(c: char) -> (r: bool)
    ensures
        r == is_unicode_whitespace(c),
{
    let u = c as u32;
    (0x09 <= u && u <= 0x0d) || u == 0x20 || u == 0x85 || u == 0xa0 || u == 0x1680 || (0x2000 <= u && u <= 0x200a) || u
        == 0x2028 || u == 0x2029 || u == 0x202f || u == 0x205f || u == 0x3000
}

/// Whether a response's content type names a textual format.
pub fn content_type_looks_textual(content_type: &str) -> (r: bool)
    ensures
        r == spec_content_type_looks_textual(content_type@),
{
    let trimmed = trim_chars(content_type);
    let mut t: Vec<char> = Vec::new();
    let mut i: usize = 0;
    while i < trimmed.len()
        invariant
            i <= trimmed.len(),
            t@ == ascii_lower_seq(trimmed@.subrange(0, i as int)),
        decreases trimmed.len() - i,
    {
        t.push(to_ascii_lower(trimmed[i]));
        i = i + 1;
        assert(t@ =~= ascii_lower_seq(trimmed@.subrange(0, i as int)));
    }
    assert(trimmed@.subrange(0, trimmed@.len() as int) =~= trimmed@);
    let text = chars_of("text/");
    let json = chars_of("json");
    let xml = chars_of("xml");
    let html = chars_of("html");
    let starts = chars_start_with(&t, &text);
    starts || find_chars(&t, &json).is_some() || find_chars(&t, &xml).is_some() || find_chars(&t, &html).is_some()
}

/// How a provider's HTTP failure status is classified: rate limiting (429) and server
/// errors (500 and above) are transient, every other status is permanent. The message is
/// `<service> returned HTTP <code> for <url>`.
pub open spec fn spec_http_status_error(service: Seq<char>, code: u16, url: Seq<char>) -> StreamingProviderErrorView {
    let message = service + " returned HTTP "@ + decimal(code as nat) + " for "@ + url;
    if code == 429 || code >= 500 {
        StreamingProviderErrorView::Transient(message)
    } else {
        StreamingProviderErrorView::Permanent(message)
    }
}

/// The provider error for an HTTP failure status.
pub fn http_status_error(service: &str, code: u16, url: &str) -> (e: StreamingProviderError)
    ensures
        e@ == spec_http_status_error(service@, code, url@),
{
    let mut message = String::from_str(service);
    message = message.concat(" returned HTTP ");
    push_decimal(&mut message, code as u64);
    message = message.concat(" for ");
    message = message.concat(url);
    if code == 429 || code >= 500 {
        StreamingProviderError::Transient(message)
    } else {
        StreamingProviderError::Permanent(message)
    }
}

/// A transport failure (no HTTP status) is transient: `<service> transport failed: <message>`,
/// with a stand-in when the transport gave no message.
pub open spec fn spec_transport_error(service: Seq<char>, message: Option<Seq<char>>) -> StreamingProviderErrorView {
    StreamingProviderErrorView::Transient(
        service + " transport failed: "@ + match message {
            Some(m) => m,
            None => "transport error without message"@,
        },
    )
}

/// The provider error for a transport failure.
pub fn transport_error(service: &str, message: Option<&str>) -> (e: StreamingProviderError)
    ensures
        e@ == spec_transport_error(service@, match message {
            Some(m) => Some(m@),
            None => None,
        }),
{
    let s = String::from_str(service);
    let s = s.concat(" transport failed: ");
    let s = match message {
        Some(m) => s.concat(m),
        None => s.concat("transport error without message"),
    };
    StreamingProviderError::Transient(s)
}

} // verus!
