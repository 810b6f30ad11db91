//! The response extractor.
//!
//! A raw response body is prose with a structured fragment somewhere in it:
//! a two-field object `{"code": <integer>, "message": "<text>"}` with any
//! amount of insignificant whitespace between tokens. Extraction finds the
//! first `{` as the candidate start of the fragment, parses the object from
//! there, and ignores whatever follows the closing brace. The message text
//! is decoded: an escaped quote, backslash or newline stands for the
//! character itself, not for its two-character spelling.

use vstd::prelude::*;

verus! {

/// The `(code, message)` pair of a response, extracted from the raw body.
pub struct Envelope {
    pub code: i32,
    pub message: String,
}

/// Extraction failure: the body holds no well-formed structured fragment.
#[derive(Clone, Copy, PartialEq, Eq, Debug)]
pub struct EnvelopeNotFound;

// ------------------------------------------------------------------
// The grammar.
// ------------------------------------------------------------------

/// Insignificant whitespace between tokens.
pub open spec fn is_ws(c: char) -> bool {
    c == ' ' || c == '\t' || c == '\n' || c == '\r'
}

/// The first position at or after `i` holding no whitespace.
pub open spec fn skip_ws(s: Seq<char>, i: int) -> int
    decreases s.len() - i,
{
    if 0 <= i < s.len() && is_ws(s[i]) {
        skip_ws(s, i + 1)
    } else {
        i
    }
}

/// Whether `lit` stands verbatim in `s` at position `i`.
pub open spec fn lit_at(s: Seq<char>, i: int, lit: Seq<char>) -> bool {
    0 <= i && i + lit.len() <= s.len() && s.subrange(i, i + lit.len()) == lit
}

/// A decimal digit.
pub open spec fn is_digit(c: char) -> bool {
    '0' <= c && c <= '9'
}

/// The value of one digit.
pub open spec fn digit_val(c: char) -> int {
    c as int - '0' as int
}

/// The end of the digit run beginning at `i`.
pub open spec fn digits_end(s: Seq<char>, i: int) -> int
    decreases s.len() - i,
{
    if 0 <= i < s.len() && is_digit(s[i]) {
        digits_end(s, i + 1)
    } else {
        i
    }
}

/// The value of the digit run `s[i..j)`, read as a decimal number.
pub open spec fn digits_val(s: Seq<char>, i: int, j: int) -> int
    decreases j - i,
{
    if j <= i {
        0
    } else {
        digits_val(s, i, j - 1) * 10 + digit_val(s[j - 1])
    }
}

/// An optionally negated integer token at `i`: its value and its end.
pub open spec fn int_token(s: Seq<char>, i: int) -> Option<(int, int)> {
    let neg = 0 <= i < s.len() && s[i] == '-';
    let d0 = if neg {
        i + 1
    } else {
        i
    };
    let dend = digits_end(s, d0);
    if dend == d0 {
        None
    } else {
        Some(
            (
                if neg {
                    -digits_val(s, d0, dend)
                } else {
                    digits_val(s, d0, dend)
                },
                dend,
            ),
        )
    }
}

/// What an escape character after a backslash stands for.
pub open spec fn unescape(c: char) -> Option<char> {
    match c {
        '"' => Some('"'),
        '\\' => Some('\\'),
        '/' => Some('/'),
        'n' => Some('\n'),
        't' => Some('\t'),
        'r' => Some('\r'),
        'b' => Some('\u{0008}'),
        'f' => Some('\u{000C}'),
        _ => None,
    }
}

/// The decoded body of a quoted string whose opening quote stands just
/// before `i`: the decoded text and the position after the closing quote.
pub open spec fn string_body(s: Seq<char>, i: int) -> Option<(Seq<char>, int)>
    decreases s.len() - i,
{
    if !(0 <= i < s.len()) {
        None
    } else if s[i] == '"' {
        Some((Seq::<char>::empty(), i + 1))
    } else if s[i] == '\\' {
        if i + 1 < s.len() {
            match unescape(s[i + 1]) {
                Some(c) => match string_body(s, i + 2) {
                    Some(r) => Some((seq![c] + r.0, r.1)),
                    None => None,
                },
                None => None,
            }
        } else {
            None
        }
    } else {
        match string_body(s, i + 1) {
            Some(r) => Some((seq![s[i]] + r.0, r.1)),
            None => None,
        }
    }
}

/// The `"code"` key token.
pub open spec fn code_key() -> Seq<char> {
    "\"code\""@
}

/// The `"message"` key token.
pub open spec fn message_key() -> Seq<char> {
    "\"message\""@
}

/// The envelope denoted by the two-field object beginning at `i`, which
/// must hold a `{`: the code — a signed integer within `i32` — and the
/// decoded message. Whatever follows the closing brace is ignored.
pub open spec fn envelope_at(s: Seq<char>, i: int) -> Option<(int, Seq<char>)> {
    if !(0 <= i < s.len() && s[i] == '{') {
        None
    } else {
        let a = skip_ws(s, i + 1);
        if !lit_at(s, a, code_key()) {
            None
        } else {
            let b = skip_ws(s, a + code_key().len());
            if !(b < s.len() && s[b] == ':') {
                None
            } else {
                let c0 = skip_ws(s, b + 1);
                match int_token(s, c0) {
                    None => None,
                    Some(cv) => {
                        if cv.0 < i32::MIN || cv.0 > i32::MAX {
                            None
                        } else {
                            let d = skip_ws(s, cv.1);
                            if !(d < s.len() && s[d] == ',') {
                                None
                            } else {
                                let e = skip_ws(s, d + 1);
                                if !lit_at(s, e, message_key()) {
                                    None
                                } else {
                                    let f = skip_ws(s, e + message_key().len());
                                    if !(f < s.len() && s[f] == ':') {
                                        None
                                    } else {
                                        let g = skip_ws(s, f + 1);
                                        if !(g < s.len() && s[g] == '"') {
                                            None
                                        } else {
                                            match string_body(s, g + 1) {
                                                None => None,
                                                Some(mr) => {
                                                    let h = skip_ws(s, mr.1);
                                                    if !(h < s.len() && s[h] == '}') {
                                                        None
                                                    } else {
                                                        Some((cv.0, mr.0))
                                                    }
                                                },
                                            }
                                        }
                                    }
                                }
                            }
                        }
                    },
                }
            }
        }
    }
}

/// The first `{` at or after `i`.
pub open spec fn lbrace_from(s: Seq<char>, i: int) -> Option<int>
    decreases s.len() - i,
{
    if !(0 <= i < s.len()) {
        None
    } else if s[i] == '{' {
        Some(i)
    } else {
        lbrace_from(s, i + 1)
    }
}

/// What extraction yields on a raw body: the envelope parsed at the first
/// `{`, if that parse succeeds.
pub open spec fn extract_spec(s: Seq<char>) -> Option<(int, Seq<char>)> {
    match lbrace_from(s, 0) {
        Some(i) => envelope_at(s, i),
        None => None,
    }
}

// ------------------------------------------------------------------
// The parser.
// ------------------------------------------------------------------

/// Relies on `String::push`: appends the character at the end.
#[verifier::external_body]
fn push_char(s: &mut String, c: char)
    ensures
        final(s)@ == old(s)@.push(c),
{
    s.push(c);
}

fn is_ws_exec(c: char) -> (r: bool)
    ensures
        r == is_ws(c),
{
    c == ' ' || c == '\t' || c == '\n' || c == '\r'
}

fn is_digit_exec(c: char) -> (r: bool)
    ensures
        r == is_digit(c),
{
    '0' <= c && c <= '9'
}

fn skip_ws_exec(s: &str, i: usize, n: usize) -> (r: usize)
    requires
        n == s@.len(),
        i <= n,
    ensures
        r == skip_ws(s@, i as int),
        i <= r <= n,
{
    let mut cur = i;
    while cur < n && is_ws_exec(s.get_char(cur))
        invariant
            n == s@.len(),
            i <= cur <= n,
            skip_ws(s@, i as int) == skip_ws(s@, cur as int),
        decreases n - cur,
    {
        cur += 1;
    }
    cur
}

fn lit_at_exec(s: &str, i: usize, n: usize, lit: &str) -> (r: bool)
    requires
        n == s@.len(),
        i <= n,
    ensures
        r == lit_at(s@, i as int, lit@),
{
    let m = lit.unicode_len();
    if m > n - i {
        return false;
    }
    let mut k: usize = 0;
    while k < m
        invariant
            n == s@.len(),
            m == lit@.len(),
            i + m <= n,
            k <= m,
            forall|t: int| 0 <= t < k ==> s@[i + t] == lit@[t],
        decreases m - k,
    {
        if s.get_char(i + k) != lit.get_char(k) {
            proof {
                assert(s@.subrange(i as int, i + lit@.len())[k as int] == s@[i + k]);
            }
            return false;
        }
        k += 1;
    }
    proof {
        assert(s@.subrange(i as int, i + lit@.len()) =~= lit@);
    }
    true
}

fn digits_end_exec(s: &str, i: usize, n: usize) -> (r: usize)
    requires
        n == s@.len(),
        i <= n,
    ensures
        r == digits_end(s@, i as int),
        i <= r <= n,
        forall|t: int| i <= t < r ==> is_digit(s@[t]),
{
    let mut cur = i;
    while cur < n && is_digit_exec(s.get_char(cur))
        invariant
            n == s@.len(),
            i <= cur <= n,
            digits_end(s@, i as int) == digits_end(s@, cur as int),
            forall|t: int| i <= t < cur ==> is_digit(s@[t]),
        decreases n - cur,
    {
        cur += 1;
    }
    cur
}

/// The value of a digit run never sinks as the run extends rightwards.
proof fn lemma_digits_val_grows(s: Seq<char>, i: int, k: int, j: int)
    requires
        i <= k <= j,
        forall|t: int| i <= t < j ==> is_digit(s[t]),
    ensures
        0 <= digits_val(s, i, k) <= digits_val(s, i, j),
    decreases j - k, k - i,
{
    if k == j {
        if i < k {
            lemma_digits_val_grows(s, i, k - 1, k - 1);
        }
    } else {
        lemma_digits_val_grows(s, i, k, j - 1);
    }
}

/// Parse the integer token at `i`: its value — when it fits `i32` — and
/// its end.
fn int_token_exec(s: &str, i: usize, n: usize) -> (r: Option<(i32, usize)>)
    requires
        n == s@.len(),
        i <= n,
    ensures
        match r {
            Some(pair) => int_token(s@, i as int) matches Some(t) && t.0 == pair.0 as int && t.1
                == pair.1 as int && pair.1 <= n,
            None => match int_token(s@, i as int) {
                Some(t) => t.0 < i32::MIN || t.0 > i32::MAX,
                None => true,
            },
        },
{
    let neg = i < n && s.get_char(i) == '-';
    let d0 = if neg {
        i + 1
    } else {
        i
    };
    let dend = digits_end_exec(s, d0, n);
    if dend == d0 {
        return None;
    }
    let mut acc: i64 = 0;
    let mut k = d0;
    while k < dend
        invariant
            n == s@.len(),
            i <= n,
            neg == (i < n && s@[i as int] == '-'),
            d0 == if neg {
                i + 1
            } else {
                i as int
            },
            d0 <= k <= dend <= n,
            dend == digits_end(s@, d0 as int),
            forall|t: int| d0 <= t < dend ==> is_digit(s@[t]),
            acc == digits_val(s@, d0 as int, k as int),
            0 <= acc <= 2147483648,
        decreases dend - k,
    {
        let c = s.get_char(k);
        let d: i64 = (c as u32 - '0' as u32) as i64;
        proof {
            assert(is_digit(s@[k as int]));
            assert(d == digit_val(s@[k as int]));
        }
        acc = acc * 10 + d;
        k += 1;
        proof {
            assert(acc == digits_val(s@, d0 as int, k as int));
        }
        if acc > 2147483648 {
            proof {
                lemma_digits_val_grows(s@, d0 as int, k as int, dend as int);
                assert(digits_val(s@, d0 as int, dend as int) > 2147483648);
            }
            return None;
        }
    }
    if neg {
        Some(((0 - acc) as i32, dend))
    } else {
        if acc > 2147483647 {
            return None;
        }
        Some((acc as i32, dend))
    }
}

fn unescape_exec(c: char) -> (r: Option<char>)
    ensures
        r == unescape(c),
{
    match c {
        '"' => Some('"'),
        '\\' => Some('\\'),
        '/' => Some('/'),
        'n' => Some('\n'),
        't' => Some('\t'),
        'r' => Some('\r'),
        'b' => Some('\u{0008}'),
        'f' => Some('\u{000C}'),
        _ => None,
    }
}

/// Parse and decode the body of the quoted string whose opening quote
/// stands just before `i`.
fn string_body_exec(s: &str, i: usize, n: usize) -> (r: Option<(String, usize)>)
    requires
        n == s@.len(),
        i <= n,
    ensures
        match r {
            Some(pair) => string_body(s@, i as int) matches Some(t) && pair.0@ == t.0 && pair.1
                == t.1 && pair.1 <= n,
            None => string_body(s@, i as int) is None,
        },
{
    let mut out = String::new();
    let mut cur = i;
    while cur < n
        invariant
            n == s@.len(),
            i <= cur <= n,
            match string_body(s@, cur as int) {
                Some(t) => string_body(s@, i as int) == Some((out@ + t.0, t.1)),
                None => string_body(s@, i as int) is None,
            },
        decreases n - cur,
    {
        let c = s.get_char(cur);
        if c == '"' {
            proof {
                assert(out@ + Seq::<char>::empty() =~= out@);
            }
            return Some((out, cur + 1));
        } else if c == '\\' {
            if cur + 1 >= n {
                return None;
            }
            match unescape_exec(s.get_char(cur + 1)) {
                None => {
                    return None;
                },
                Some(u) => {
                    let ghost prev = out@;
                    push_char(&mut out, u);
                    proof {
                        match string_body(s@, cur + 2) {
                            Some(t2) => {
                                assert(prev + (seq![u] + t2.0) =~= out@ + t2.0);
                            },
                            None => {},
                        }
                    }
                    cur += 2;
                },
            }
        } else {
            let ghost prev = out@;
            push_char(&mut out, c);
            proof {
                match string_body(s@, cur + 1) {
                    Some(t2) => {
                        assert(prev + (seq![c] + t2.0) =~= out@ + t2.0);
                    },
                    None => {},
                }
            }
            cur += 1;
        }
    }
    None
}

// ------------------------------------------------------------------
// Extraction.
// ------------------------------------------------------------------

/// Extract the `(code, message)` envelope from a raw response body: parse
/// the two-field object at the body's first `{`, decoding the message's
/// escapes; fail when the body has no `{` or the object there is not
/// well-formed.
pub fn extract(s: &str) -> (r: Result<Envelope, EnvelopeNotFound>)
    ensures
        match extract_spec(s@) {
            Some(t) => r matches Ok(env) && env.code == t.0 && env.message@ == t.1,
            None => r is Err,
        },
{
    let n = s.unicode_len();
    let mut i: usize = 0;
    while i < n && s.get_char(i) != '{'
        invariant
            n == s@.len(),
            i <= n,
            lbrace_from(s@, 0) == lbrace_from(s@, i as int),
        decreases n - i,
    {
        i += 1;
    }
    if i >= n {
        return Err(EnvelopeNotFound);
    }
    let a = skip_ws_exec(s, i + 1, n);
    if !lit_at_exec(s, a, n, "\"code\"") {
        return Err(EnvelopeNotFound);
    }
    let b = skip_ws_exec(s, a + "\"code\"".unicode_len(), n);
    if !(b < n && s.get_char(b) == ':') {
        return Err(EnvelopeNotFound);
    }
    let c0 = skip_ws_exec(s, b + 1, n);
    let code_pair = match int_token_exec(s, c0, n) {
        None => {
            return Err(EnvelopeNotFound);
        },
        Some(p) => p,
    };
    let d = skip_ws_exec(s, code_pair.1, n);
    if !(d < n && s.get_char(d) == ',') {
        return Err(EnvelopeNotFound);
    }
    let e = skip_ws_exec(s, d + 1, n);
    if !lit_at_exec(s, e, n, "\"message\"") {
        return Err(EnvelopeNotFound);
    }
    let f = skip_ws_exec(s, e + "\"message\"".unicode_len(), n);
    if !(f < n && s.get_char(f) == ':') {
        return Err(EnvelopeNotFound);
    }
    let g = skip_ws_exec(s, f + 1, n);
    if !(g < n && s.get_char(g) == '"') {
        return Err(EnvelopeNotFound);
    }
    let msg_pair = match string_body_exec(s, g + 1, n) {
        None => {
            return Err(EnvelopeNotFound);
        },
        Some(p) => p,
    };
    let h = skip_ws_exec(s, msg_pair.1, n);
    if !(h < n && s.get_char(h) == '}') {
        return Err(EnvelopeNotFound);
    }
    Ok(Envelope { code: code_pair.0, message: msg_pair.0 })
}

} // verus!
