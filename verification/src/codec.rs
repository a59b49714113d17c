//! Serialization of the capture record: base64 for the screenshot bytes and
//! the record's JSON text, with a verified decoder that round-trips what the
//! encoder produces.
//!
//! The JSON text uses the field order `url`, `title`, `markup`,
//! `screenshot`, the `markup` key carrying the record's page source; string
//! values escape the quote, the backslash and the common whitespace
//! controls, and every other character passes through verbatim; a present
//! screenshot is emitted as a base64 string, an absent one as `null`.

use vstd::prelude::*;
use vstd::string::StrSliceExecFns;
use vstd::string::StringExecFns;
use base64::Engine;
use base64::prelude::BASE64_STANDARD;
use crate::page::Page;
use crate::text::push_char;
use crate::text::occurs_at;
use crate::text::match_at;

verus! {

/// The standard base64 text of a byte sequence. The alphabet table and the
/// bit regrouping are the base64 crate's business; only the facts stated by
/// `to_base64` are known about this function.
pub uninterp spec fn b64_of(bytes: Seq<u8>) -> Seq<char>;

/// Whether `c` can occur in standard padded base64 text: a letter, a digit,
/// `+`, `/` or `=`.
pub open spec fn is_b64_char(c: char) -> bool {
    ||| 65 <= (c as int) && (c as int) <= 90
    ||| 97 <= (c as int) && (c as int) <= 122
    ||| 48 <= (c as int) && (c as int) <= 57
    ||| c == '+'
    ||| c == '/'
    ||| c == '='
}

/// The base64 crate's decode error, opaque to the library.
#[verifier::external_type_specification]
#[verifier::external_body]
pub struct ExDecodeError(base64::DecodeError);

/// Relies on `Engine::encode` with the standard engine (RFC 4648 alphabet,
/// padded): the output depends on the input bytes alone, has four
/// characters per started three-byte group, and is drawn from the base64
/// alphabet with `=` padding.
#[verifier::external_body]
pub fn to_base64(bytes: &Vec<u8>) -> (r: String)
    ensures
        r@ == b64_of(bytes@),
        r@.len() == 4 * ((bytes@.len() + 2) / 3),
        forall|k: int| 0 <= k < r@.len() ==> is_b64_char(#[trigger] r@[k]),
{
    BASE64_STANDARD.encode(bytes.as_slice())
}

/// The decode call recognized exactly the encodings: whenever the input
/// text is the encoding of some bytes, exactly those bytes came back; and a
/// successful decode only ever comes from the canonical encoding of the
/// returned bytes, so any other input is rejected.
pub open spec fn decode_exact(s: Seq<char>, r: Result<Vec<u8>, base64::DecodeError>) -> bool {
    &&& forall|b: Seq<u8>| s == b64_of(b) ==> (r matches Ok(v) && v@ == b)
    &&& (r matches Ok(v) ==> s == b64_of(v@))
}

/// Relies on `Engine::decode` with the standard engine, whose configuration
/// demands canonical padding and rejects set trailing bits: it accepts
/// exactly the canonical encodings, returning the bytes they encode.
#[verifier::external_body]
fn b64_decode(s: &str) -> (r: Result<Vec<u8>, base64::DecodeError>)
    ensures
        decode_exact(s@, r),
{
    BASE64_STANDARD.decode(s)
}

/// The library's own error for base64 text that decodes to nothing.
#[derive(Clone, Copy, Debug, PartialEq, Eq, Structural)]
pub struct B64DecodeFault;

/// Decode standard base64 text: on the encoding of any bytes, exactly those
/// bytes come back; on anything else the decode fails, and a success always
/// re-encodes to the input.
pub fn from_base64(s: &str) -> (r: Result<Vec<u8>, B64DecodeFault>)
    ensures
        forall|b: Seq<u8>| s@ == b64_of(b) ==> (r matches Ok(v) && v@ == b),
        r matches Ok(v) ==> s@ == b64_of(v@),
        r is Err <==> !(exists|b: Seq<u8>| s@ == b64_of(b)),
{
    match b64_decode(s) {
        Ok(v) => Ok(v),
        Err(_) => Err(B64DecodeFault),
    }
}

/// Values with a byte view that travel through base64.
pub trait Base64Encoded: View<V = Seq<u8>> + Sized {
    /// The standard base64 text of the value's bytes.
    fn to_base64(&self) -> (r: String)
        ensures
            r@ == b64_of(self@),
    ;

    /// Decode base64 text into a value: text produced by `to_base64` yields
    /// the original value back, anything else is rejected.
    fn from_base64(b64_str: &str) -> (r: Result<Self, B64DecodeFault>)
        ensures
            forall|b: Seq<u8>| b64_str@ == b64_of(b) ==> (r matches Ok(v) && v@ == b),
            r matches Ok(v) ==> b64_str@ == b64_of(v@),
            r is Err <==> !(exists|b: Seq<u8>| b64_str@ == b64_of(b)),
    ;
}

impl Base64Encoded for Vec<u8> {
    fn to_base64(&self) -> (r: String) {
        to_base64(self)
    }

    fn from_base64(b64_str: &str) -> (r: Result<Vec<u8>, B64DecodeFault>) {
        from_base64(b64_str)
    }
}

/// What the JSON encoding emits for one character of a string value.
pub open spec fn esc_char(c: char) -> Seq<char> {
    if c == '"' {
        seq!['\\', '"']
    } else if c == '\\' {
        seq!['\\', '\\']
    } else if c == '\n' {
        seq!['\\', 'n']
    } else if c == '\r' {
        seq!['\\', 'r']
    } else if c == '\t' {
        seq!['\\', 't']
    } else {
        seq![c]
    }
}

/// The escaped form of a whole string value.
pub open spec fn esc(s: Seq<char>) -> Seq<char>
    decreases s.len(),
{
    if s.len() == 0 {
        Seq::empty()
    } else {
        esc_char(s[0]) + esc(s.drop_first())
    }
}

/// What a `\`-escape decodes to.
pub open spec fn unesc_char(c: char) -> Option<char> {
    if c == '"' {
        Some('"')
    } else if c == '\\' {
        Some('\\')
    } else if c == 'n' {
        Some('\n')
    } else if c == 'r' {
        Some('\r')
    } else if c == 't' {
        Some('\t')
    } else {
        None
    }
}

/// Escaping distributes over concatenation.
pub proof fn lemma_esc_append(a: Seq<char>, b: Seq<char>)
    ensures
        esc(a + b) == esc(a) + esc(b),
    decreases a.len(),
{
    if a.len() == 0 {
        assert(a + b =~= b);
        assert(esc(a) + esc(b) =~= esc(b));
    } else {
        lemma_esc_append(a.drop_first(), b);
        assert((a + b).drop_first() =~= a.drop_first() + b);
        assert(esc_char((a + b)[0]) + (esc(a.drop_first()) + esc(b)) =~= (esc_char(a[0]) + esc(
            a.drop_first(),
        )) + esc(b));
    }
}

/// A string without quote, backslash or escaped controls is its own escaped
/// form.
pub proof fn lemma_esc_identity(s: Seq<char>)
    requires
        forall|k: int| 0 <= k < s.len() ==> esc_char(#[trigger] s[k]) == seq![s[k]],
    ensures
        esc(s) == s,
    decreases s.len(),
{
    if s.len() == 0 {
        assert(esc(s) =~= s);
    } else {
        assert(forall|k: int|
            0 <= k < s.drop_first().len() ==> esc_char(#[trigger] s.drop_first()[k]) == seq![
                s.drop_first()[k],
            ]);
        lemma_esc_identity(s.drop_first());
        assert(seq![s[0]] + s.drop_first() =~= s);
    }
}

/// Append the escaped form of `s` to `r`.
fn append_escaped(r: &mut String, s: &str)
    ensures
        final(r)@ == old(r)@ + esc(s@),
{
    let ghost orig = r@;
    let n = s.unicode_len();
    let mut i: usize = 0;
    while i < n
        invariant
            n == s@.len(),
            i <= n,
            r@ == orig + esc(s@.subrange(0, i as int)),
        decreases n - i,
    {
        let c = s.get_char(i);
        if c == '"' {
            push_char(r, '\\');
            push_char(r, '"');
        } else if c == '\\' {
            push_char(r, '\\');
            push_char(r, '\\');
        } else if c == '\n' {
            push_char(r, '\\');
            push_char(r, 'n');
        } else if c == '\r' {
            push_char(r, '\\');
            push_char(r, 'r');
        } else if c == '\t' {
            push_char(r, '\\');
            push_char(r, 't');
        } else {
            push_char(r, c);
        }
        proof {
            let pre = s@.subrange(0, i as int);
            assert(s@.subrange(0, i + 1) =~= pre + seq![s@[i as int]]);
            lemma_esc_append(pre, seq![s@[i as int]]);
            assert(seq![s@[i as int]].drop_first() =~= Seq::<char>::empty());
            assert(esc(Seq::<char>::empty()) == Seq::<char>::empty());
            assert(esc(seq![s@[i as int]]) =~= esc_char(s@[i as int]));
            assert(r@ =~= orig + esc(s@.subrange(0, i + 1)));
        }
        i = i + 1;
    }
    proof {
        assert(s@.subrange(0, n as int) =~= s@);
    }
}

/// The JSON text built from the four already-prepared components; the
/// screenshot component is the base64 text, or absent.
pub open spec fn page_json_chars(
    url: Seq<char>,
    title: Seq<char>,
    source: Seq<char>,
    shot: Option<Seq<char>>,
) -> Seq<char> {
    "{\"url\":\""@ + esc(url) + "\""@ + ",\"title\":\""@ + esc(title) + "\""@ + ",\"markup\":\""@
        + esc(source) + "\""@ + (match shot {
        Some(b) => ",\"screenshot\":\""@ + b + "\""@ + "}"@,
        None => ",\"screenshot\":null}"@,
    })
}

/// The JSON text of a capture record.
pub open spec fn page_json(p: Page) -> Seq<char> {
    page_json_chars(
        p.url@,
        p.title@,
        p.source@,
        match p.screenshot {
            Some(v) => Some(b64_of(v@)),
            None => None,
        },
    )
}

/// Encode a capture record as JSON. The second clause hands callers the
/// alphabet fact about the embedded base64 text, proved from the encoder's
/// contract.
pub fn page_to_json(p: &Page) -> (r: String)
    ensures
        r@ == page_json(*p),
        p.screenshot matches Some(v) ==> forall|k: int|
            0 <= k < b64_of(v@).len() ==> is_b64_char(#[trigger] b64_of(v@)[k]),
{
    let mut r = String::new();
    r.append("{\"url\":\"");
    append_escaped(&mut r, p.url.as_str());
    r.append("\"");
    r.append(",\"title\":\"");
    append_escaped(&mut r, p.title.as_str());
    r.append("\"");
    r.append(",\"markup\":\"");
    append_escaped(&mut r, p.source.as_str());
    r.append("\"");
    match &p.screenshot {
        Some(bytes) => {
            r.append(",\"screenshot\":\"");
            let b64 = to_base64(bytes);
            r.append(b64.as_str());
            r.append("\"");
            r.append("}");
        },
        None => {
            r.append(",\"screenshot\":null}");
        },
    }
    proof {
        assert(r@ =~= page_json(*p));
    }
    r
}

/// The tail of `s` from `i` on.
pub open spec fn suffix(s: Seq<char>, i: int) -> Seq<char> {
    s.subrange(i, s.len() as int)
}

/// Strip a literal prefix: the remainder if `s` starts with `prefix`.
pub open spec fn expect(s: Seq<char>, prefix: Seq<char>) -> Option<Seq<char>> {
    if prefix.len() <= s.len() && s.subrange(0, prefix.len() as int) == prefix {
        Some(s.subrange(prefix.len() as int, s.len() as int))
    } else {
        None
    }
}

/// Scan a JSON string body up to its unescaped closing quote: the decoded
/// content and the remainder after the quote, or nothing on a malformed
/// body.
pub open spec fn scan_str(s: Seq<char>) -> Option<(Seq<char>, Seq<char>)>
    decreases s.len(),
{
    if s.len() == 0 {
        None
    } else if s[0] == '"' {
        Some((Seq::empty(), s.drop_first()))
    } else if s[0] == '\\' {
        if s.len() < 2 {
            None
        } else {
            match unesc_char(s[1]) {
                Some(c) => match scan_str(s.subrange(2, s.len() as int)) {
                    Some(p) => Some((seq![c] + p.0, p.1)),
                    None => None,
                },
                None => None,
            }
        }
    } else {
        match scan_str(s.drop_first()) {
            Some(p) => Some((seq![s[0]] + p.0, p.1)),
            None => None,
        }
    }
}

/// Prefix the content of a scan result.
pub open spec fn prepend(pre: Seq<char>, r: Option<(Seq<char>, Seq<char>)>) -> Option<
    (Seq<char>, Seq<char>),
> {
    match r {
        Some(p) => Some((pre + p.0, p.1)),
        None => None,
    }
}

/// Scanning the escaped form of `s`, closed by a quote, recovers exactly
/// `s` and leaves exactly the rest.
pub proof fn lemma_scan_of_escaped(s: Seq<char>, rest: Seq<char>)
    ensures
        scan_str(esc(s) + seq!['"'] + rest) == Some((s, rest)),
    decreases s.len(),
{
    let input = esc(s) + seq!['"'] + rest;
    if s.len() == 0 {
        assert(esc(s) == Seq::<char>::empty());
        assert(input =~= seq!['"'] + rest);
        assert(input[0] == '"');
        assert(input.drop_first() =~= rest);
        assert(s =~= Seq::<char>::empty());
    } else {
        let c = s[0];
        let s2 = s.drop_first();
        lemma_scan_of_escaped(s2, rest);
        assert(esc(s) == esc_char(c) + esc(s2));
        let tail = esc(s2) + seq!['"'] + rest;
        if c == '"' || c == '\\' || c == '\n' || c == '\r' || c == '\t' {
            let e = esc_char(c)[1];
            assert(input =~= seq!['\\', e] + tail);
            assert(input[0] == '\\');
            assert(input[1] == e);
            assert(unesc_char(e) == Some(c));
            assert(input.subrange(2, input.len() as int) =~= tail);
            assert(seq![c] + s2 =~= s);
        } else {
            assert(esc_char(c) == seq![c]);
            assert(input =~= seq![c] + tail);
            assert(input[0] == c);
            assert(input.drop_first() =~= tail);
            assert(seq![c] + s2 =~= s);
        }
    }
}

/// `expect` on a tail of `s` is exactly an occurrence of the prefix at that
/// position.
proof fn lemma_expect_suffix(s: Seq<char>, pat: Seq<char>, i: int)
    requires
        0 <= i <= s.len(),
    ensures
        occurs_at(s, pat, i) ==> expect(suffix(s, i), pat) == Some(suffix(s, i + pat.len())),
        !occurs_at(s, pat, i) ==> expect(suffix(s, i), pat) is None,
{
    if i + pat.len() <= s.len() {
        assert(suffix(s, i).subrange(0, pat.len() as int) =~= s.subrange(i, i + pat.len()));
        if occurs_at(s, pat, i) {
            assert(suffix(s, i).subrange(pat.len() as int, suffix(s, i).len() as int) =~= suffix(
                s,
                i + pat.len(),
            ));
        }
    }
}

/// A tail equals a literal exactly when the literal occurs there and
/// reaches the end.
proof fn lemma_exact_suffix(s: Seq<char>, lit: Seq<char>, i: int)
    requires
        0 <= i <= s.len(),
    ensures
        (occurs_at(s, lit, i) && i + lit.len() == s.len()) <==> suffix(s, i) == lit,
{
    if occurs_at(s, lit, i) && i + lit.len() == s.len() {
        assert(suffix(s, i) =~= s.subrange(i, i + lit.len()));
    }
    if suffix(s, i) == lit {
        assert(s.subrange(i, i + lit.len()) =~= suffix(s, i));
    }
}

/// Check for a literal at position `i`; on success the position after it.
fn expect_at(s: &str, i: usize, pat: &str) -> (r: Option<usize>)
    requires
        i <= s@.len(),
    ensures
        r matches Some(j) ==> occurs_at(s@, pat@, i as int) && j == i + pat@.len() && j <= s@.len(),
        r is None ==> !occurs_at(s@, pat@, i as int),
{
    let n = s.unicode_len();
    let m = pat.unicode_len();
    if m > n - i {
        return None;
    }
    if match_at(s, pat, i) {
        Some(i + m)
    } else {
        None
    }
}

/// Scan a JSON string body starting at `i`: the decoded content and the
/// position after the closing quote.
fn scan_string_at(s: &str, i: usize) -> (r: Option<(String, usize)>)
    requires
        i <= s@.len(),
    ensures
        r matches Some(p) ==> i <= p.1 <= s@.len() && (scan_str(suffix(s@, i as int)) matches Some(
            q,
        ) && p.0@ == q.0 && suffix(s@, p.1 as int) == q.1),
        r is None ==> scan_str(suffix(s@, i as int)) is None,
{
    let n = s.unicode_len();
    let mut acc = String::new();
    let mut cur: usize = i;
    loop
        invariant
            n == s@.len(),
            i <= cur <= n,
            prepend(acc@, scan_str(suffix(s@, cur as int))) == scan_str(suffix(s@, i as int)),
        decreases n - cur,
    {
        if cur >= n {
            proof {
                assert(suffix(s@, cur as int) =~= Seq::<char>::empty());
            }
            return None;
        }
        let ghost suf = suffix(s@, cur as int);
        proof {
            assert(suf.len() == n - cur);
            assert(suf[0] == s@[cur as int]);
        }
        let c = s.get_char(cur);
        if c == '"' {
            proof {
                assert(suf.drop_first() =~= suffix(s@, cur + 1));
                assert(scan_str(suf) == Some((Seq::<char>::empty(), suffix(s@, cur + 1))));
                assert(acc@ + Seq::<char>::empty() =~= acc@);
            }
            return Some((acc, cur + 1));
        } else if c == '\\' {
            if cur + 1 >= n {
                proof {
                    assert(suf.len() < 2);
                    assert(scan_str(suf) is None);
                }
                return None;
            }
            proof {
                assert(suf[1] == s@[cur + 1]);
            }
            let e = s.get_char(cur + 1);
            let u: Option<char> = if e == '"' {
                Some('"')
            } else if e == '\\' {
                Some('\\')
            } else if e == 'n' {
                Some('\n')
            } else if e == 'r' {
                Some('\r')
            } else if e == 't' {
                Some('\t')
            } else {
                None
            };
            proof {
                assert(u == unesc_char(suf[1]));
            }
            match u {
                Some(d) => {
                    proof {
                        assert(suf.subrange(2, suf.len() as int) =~= suffix(s@, cur + 2));
                        assert(scan_str(suf) == prepend(
                            seq![d],
                            scan_str(suffix(s@, cur + 2)),
                        ));
                        let x = scan_str(suffix(s@, cur + 2));
                        match x {
                            Some(p) => {
                                assert(acc@ + (seq![d] + p.0) =~= (acc@ + seq![d]) + p.0);
                            },
                            None => {},
                        }
                        assert(acc@.push(d) =~= acc@ + seq![d]);
                    }
                    push_char(&mut acc, d);
                    cur = cur + 2;
                },
                None => {
                    return None;
                },
            }
        } else {
            proof {
                assert(suf.drop_first() =~= suffix(s@, cur + 1));
                assert(scan_str(suf) == prepend(seq![c], scan_str(suffix(s@, cur + 1))));
                let x = scan_str(suffix(s@, cur + 1));
                match x {
                    Some(p) => {
                        assert(acc@ + (seq![c] + p.0) =~= (acc@ + seq![c]) + p.0);
                    },
                    None => {},
                }
                assert(acc@.push(c) =~= acc@ + seq![c]);
            }
            push_char(&mut acc, c);
            cur = cur + 1;
        }
    }
}

/// Parse the JSON text of a capture record into its four components: the
/// unescaped url, title and markup, and the raw screenshot text (or absence
/// of the field). Anything that does not fit the encoder's shape parses to
/// nothing.
pub open spec fn parse_page_chars(s: Seq<char>) -> Option<
    (Seq<char>, Seq<char>, Seq<char>, Option<Seq<char>>),
> {
    match expect(s, "{\"url\":\""@) {
        None => None,
        Some(s1) => match scan_str(s1) {
            None => None,
            Some(p1) => match expect(p1.1, ",\"title\":\""@) {
                None => None,
                Some(s3) => match scan_str(s3) {
                    None => None,
                    Some(p2) => match expect(p2.1, ",\"markup\":\""@) {
                        None => None,
                        Some(s5) => match scan_str(s5) {
                            None => None,
                            Some(p3) => if p3.1 == ",\"screenshot\":null}"@ {
                                Some((p1.0, p2.0, p3.0, None))
                            } else {
                                match expect(p3.1, ",\"screenshot\":\""@) {
                                    None => None,
                                    Some(s7) => match scan_str(s7) {
                                        None => None,
                                        Some(p4) => if p4.1 == "}"@ {
                                            Some((p1.0, p2.0, p3.0, Some(p4.0)))
                                        } else {
                                            None
                                        },
                                    },
                                }
                            },
                        },
                    },
                },
            },
        },
    }
}

/// How a decoded record must relate to the parsed components of the input:
/// the three strings unescaped, and the screenshot recovered byte for byte
/// whenever the raw text is the encoding of some bytes.
pub open spec fn parsed_matches(s: Seq<char>, r: Option<Page>) -> bool {
    match parse_page_chars(s) {
        None => r is None,
        Some(q) => match q.3 {
            None => r matches Some(p) && p.url@ == q.0 && p.title@ == q.1 && p.source@ == q.2
                && p.screenshot is None,
            Some(b) => forall|bytes: Seq<u8>|
                b == b64_of(bytes) ==> (r matches Some(p) && p.url@ == q.0 && p.title@ == q.1
                    && p.source@ == q.2 && (p.screenshot matches Some(v) && v@ == bytes)),
        },
    }
}

/// Decode the JSON text of a capture record.
pub fn page_from_json(s: &str) -> (r: Option<Page>)
    ensures
        parsed_matches(s@, r),
{
    let n = s.unicode_len();
    proof {
        assert(suffix(s@, 0) =~= s@);
        lemma_expect_suffix(s@, "{\"url\":\""@, 0);
    }
    let i1 = match expect_at(s, 0, "{\"url\":\"") {
        Some(j) => j,
        None => {
            return None;
        },
    };
    let (url_s, i2) = match scan_string_at(s, i1) {
        Some(p) => p,
        None => {
            return None;
        },
    };
    proof {
        lemma_expect_suffix(s@, ",\"title\":\""@, i2 as int);
    }
    let i3 = match expect_at(s, i2, ",\"title\":\"") {
        Some(j) => j,
        None => {
            return None;
        },
    };
    let (title_s, i4) = match scan_string_at(s, i3) {
        Some(p) => p,
        None => {
            return None;
        },
    };
    proof {
        lemma_expect_suffix(s@, ",\"markup\":\""@, i4 as int);
    }
    let i5 = match expect_at(s, i4, ",\"markup\":\"") {
        Some(j) => j,
        None => {
            return None;
        },
    };
    let (source_s, i6) = match scan_string_at(s, i5) {
        Some(p) => p,
        None => {
            return None;
        },
    };
    proof {
        lemma_exact_suffix(s@, ",\"screenshot\":null}"@, i6 as int);
    }
    let done_null = match expect_at(s, i6, ",\"screenshot\":null}") {
        Some(j) => j == n,
        None => false,
    };
    if done_null {
        return Some(
            Page { url: url_s, title: title_s, source: source_s, screenshot: None },
        );
    }
    proof {
        lemma_expect_suffix(s@, ",\"screenshot\":\""@, i6 as int);
    }
    let i7 = match expect_at(s, i6, ",\"screenshot\":\"") {
        Some(j) => j,
        None => {
            return None;
        },
    };
    let (shot_s, i8) = match scan_string_at(s, i7) {
        Some(p) => p,
        None => {
            return None;
        },
    };
    proof {
        lemma_exact_suffix(s@, "}"@, i8 as int);
    }
    let closed = match expect_at(s, i8, "}") {
        Some(j) => j == n,
        None => false,
    };
    if !closed {
        return None;
    }
    match from_base64(shot_s.as_str()) {
        Ok(v) => Some(
            Page { url: url_s, title: title_s, source: source_s, screenshot: Some(v) },
        ),
        Err(_) => None,
    }
}

/// Parsing inverts encoding at the level of the JSON text: the text built
/// from any components parses back to exactly those components. The raw
/// screenshot text, when present, must be base64 text, which the encoder
/// always emits.
pub proof fn lemma_parse_page_json(
    url: Seq<char>,
    title: Seq<char>,
    source: Seq<char>,
    shot: Option<Seq<char>>,
)
    requires
        match shot {
            Some(b) => forall|k: int| 0 <= k < b.len() ==> is_b64_char(#[trigger] b[k]),
            None => true,
        },
    ensures
        parse_page_chars(page_json_chars(url, title, source, shot)) == Some(
            (url, title, source, shot),
        ),
{
    reveal_strlit("\"");
    reveal_strlit("}");
    reveal_strlit(",\"screenshot\":\"");
    reveal_strlit(",\"screenshot\":null}");
    let l1 = "{\"url\":\""@;
    let l2 = ",\"title\":\""@;
    let l3 = ",\"markup\":\""@;
    let l4s = ",\"screenshot\":\""@;
    let l4n = ",\"screenshot\":null}"@;
    let rb = "}"@;
    let q = "\""@;
    assert(q =~= seq!['"']);
    assert(rb.len() == 1);
    let tail = match shot {
        Some(b) => l4s + b + q + rb,
        None => l4n,
    };
    let s = page_json_chars(url, title, source, shot);
    let rest_u = l2 + esc(title) + q + l3 + esc(source) + q + tail;
    let rest_t = l3 + esc(source) + q + tail;
    assert(s =~= l1 + (esc(url) + seq!['"'] + rest_u));
    assert(s.subrange(0, l1.len() as int) =~= l1);
    assert(expect(s, l1) == Some(s.subrange(l1.len() as int, s.len() as int)));
    assert(s.subrange(l1.len() as int, s.len() as int) =~= esc(url) + seq!['"'] + rest_u);
    lemma_scan_of_escaped(url, rest_u);
    assert(rest_u =~= l2 + (esc(title) + seq!['"'] + rest_t));
    assert(rest_u.subrange(0, l2.len() as int) =~= l2);
    assert(rest_u.subrange(l2.len() as int, rest_u.len() as int) =~= esc(title) + seq!['"']
        + rest_t);
    lemma_scan_of_escaped(title, rest_t);
    assert(rest_t =~= l3 + (esc(source) + seq!['"'] + tail));
    assert(rest_t.subrange(0, l3.len() as int) =~= l3);
    assert(rest_t.subrange(l3.len() as int, rest_t.len() as int) =~= esc(source) + seq!['"']
        + tail);
    lemma_scan_of_escaped(source, tail);
    match shot {
        Some(b) => {
            assert(l4s.len() == 15);
            assert(l4n.len() == 19);
            assert(tail[14] == l4s[14]);
            assert(l4s[14] == '"');
            assert(l4n[14] == 'n');
            assert(tail != l4n);
            assert(tail.subrange(0, l4s.len() as int) =~= l4s);
            assert(tail.subrange(l4s.len() as int, tail.len() as int) =~= b + seq!['"'] + rb);
            assert(forall|k: int| 0 <= k < b.len() ==> esc_char(#[trigger] b[k]) == seq![b[k]]);
            lemma_esc_identity(b);
            lemma_scan_of_escaped(b, rb);
        },
        None => {
            assert(tail == l4n);
        },
    }
}

/// Encoding a capture record and decoding the text yields the record back;
/// in particular a present screenshot's bytes survive the base64 round trip
/// unchanged.
pub fn json_round_trip(p: &Page) -> (r: Option<Page>)
    ensures
        r matches Some(p2) && p2.url@ == p.url@ && p2.title@ == p.title@ && p2.source@
            == p.source@ && (match (p2.screenshot, p.screenshot) {
            (Some(a), Some(b)) => a@ == b@,
            (None, None) => true,
            _ => false,
        }),
{
    let s = page_to_json(p);
    let r = page_from_json(s.as_str());
    proof {
        match &p.screenshot {
            Some(v) => {
                lemma_parse_page_json(p.url@, p.title@, p.source@, Some(b64_of(v@)));
                assert(b64_of(v@) == b64_of(v@));
            },
            None => {
                lemma_parse_page_json(p.url@, p.title@, p.source@, None);
            },
        }
    }
    r
}

} // verus!

