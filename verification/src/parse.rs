//! The wire-text parser: from JSON text to the tree of `json`.
//!
//! The mathematical parser (`parse_doc` and its helpers) is the reference;
//! the executable functions return exactly what it describes.
use vstd::prelude::*;

use crate::errors::DecodeError;
use crate::json::JsonMember;
use crate::json::JsonValue;
use crate::json::SpecJson;
use crate::json::is_digit;
use crate::json::view_elems;
use crate::json::view_members;
use crate::json::view_rec;
use crate::trusted::char_from_code;
use crate::trusted::chars_to_string;
use crate::trusted::str_chars;

verus! {

/// Remaining input from `i`, floored at zero: the parser's termination measure.
pub open spec fn rem(s: Seq<char>, i: int) -> int {
    if i <= s.len() {
        s.len() - i
    } else {
        0
    }
}

pub open spec fn is_ws(c: char) -> bool {
    c == ' ' || c == '\n' || c == '\r' || c == '\t'
}

/// Count of consecutive whitespace characters at `i`.
pub open spec fn ws_len(s: Seq<char>, i: int) -> nat
    decreases s.len() - i,
{
    if 0 <= i < s.len() && is_ws(s[i]) {
        (1 + ws_len(s, i + 1)) as nat
    } else {
        0
    }
}

pub open spec fn is_hex(c: char) -> bool {
    is_digit(c) || ('a' <= c && c <= 'f') || ('A' <= c && c <= 'F')
}

pub open spec fn hex_val(c: char) -> nat {
    if is_digit(c) {
        ((c as int) - ('0' as int)) as nat
    } else if 'a' <= c && c <= 'f' {
        ((c as int) - ('a' as int) + 10) as nat
    } else {
        ((c as int) - ('A' as int) + 10) as nat
    }
}

pub open spec fn nat_to_char(n: nat) -> char {
    (n as u32) as char
}

/// What a short escape after a backslash denotes.
pub open spec fn short_escape(e: char) -> Option<char> {
    if e == '"' {
        Some('"')
    } else if e == '\\' {
        Some('\\')
    } else if e == '/' {
        Some('/')
    } else if e == 'b' {
        Some('\u{8}')
    } else if e == 'f' {
        Some('\u{c}')
    } else if e == 'n' {
        Some('\n')
    } else if e == 'r' {
        Some('\r')
    } else if e == 't' {
        Some('\t')
    } else {
        None
    }
}

pub open spec fn hex4_val(s: Seq<char>, i: int) -> nat {
    hex_val(s[i]) * 4096 + hex_val(s[i + 1]) * 256 + hex_val(s[i + 2]) * 16 + hex_val(s[i + 3])
}

pub open spec fn hex4_ok(s: Seq<char>, i: int) -> bool {
    i + 4 <= s.len() && is_hex(s[i]) && is_hex(s[i + 1]) && is_hex(s[i + 2]) && is_hex(s[i + 3])
}

/// The content and consumed length of a string body, starting just after the
/// opening quote and consuming the closing quote.
pub open spec fn parse_str_body(s: Seq<char>, i: int) -> Option<(Seq<char>, nat)>
    decreases s.len() - i,
{
    if i < 0 || i >= s.len() {
        None
    } else {
        let c = s[i];
        if c == '"' {
            Some((Seq::empty(), 1))
        } else if c == '\\' {
            if i + 2 > s.len() {
                None
            } else {
                let e = s[i + 1];
                if e == 'u' {
                    if !hex4_ok(s, i + 2) {
                        None
                    } else {
                        let code = hex4_val(s, i + 2);
                        if code < 0xD800 || code > 0xDFFF {
                            match parse_str_body(s, i + 6) {
                                Some((rest, n)) => Some(
                                    (seq![nat_to_char(code)] + rest, (6 + n) as nat),
                                ),
                                None => None,
                            }
                        } else if code < 0xDC00 {
                            // a high surrogate must pair with a low surrogate escape
                            if !(i + 8 <= s.len() && s[i + 6] == '\\' && s[i + 7] == 'u' && hex4_ok(
                                s,
                                i + 8,
                            )) {
                                None
                            } else {
                                let lo = hex4_val(s, i + 8);
                                if 0xDC00 <= lo && lo <= 0xDFFF {
                                    let cp = 0x10000 + (code - 0xD800) * 0x400 + (lo - 0xDC00);
                                    match parse_str_body(s, i + 12) {
                                        Some((rest, n)) => Some(
                                            (seq![nat_to_char(cp as nat)] + rest, (12 + n) as nat),
                                        ),
                                        None => None,
                                    }
                                } else {
                                    None
                                }
                            }
                        } else {
                            None
                        }
                    }
                } else {
                    match short_escape(e) {
                        Some(d) => match parse_str_body(s, i + 2) {
                            Some((rest, n)) => Some((seq![d] + rest, (2 + n) as nat)),
                            None => None,
                        },
                        None => None,
                    }
                }
            }
        } else if (c as u32) < 0x20 {
            None
        } else {
            match parse_str_body(s, i + 1) {
                Some((rest, n)) => Some((seq![c] + rest, (1 + n) as nat)),
                None => None,
            }
        }
    }
}

/// The content and consumed length of a quoted string at `i`.
pub open spec fn parse_string(s: Seq<char>, i: int) -> Option<(Seq<char>, nat)> {
    if 0 <= i < s.len() && s[i] == '"' {
        match parse_str_body(s, i + 1) {
            Some((content, n)) => Some((content, (1 + n) as nat)),
            None => None,
        }
    } else {
        None
    }
}

/// Count of consecutive decimal digits at `i`.
pub open spec fn digits_len(s: Seq<char>, i: int) -> nat
    decreases s.len() - i,
{
    if 0 <= i < s.len() && is_digit(s[i]) {
        (1 + digits_len(s, i + 1)) as nat
    } else {
        0
    }
}

/// Length of the fraction part at `k`, zero if none, `None` if malformed.
pub open spec fn frac_len(s: Seq<char>, k: int) -> Option<nat> {
    if 0 <= k < s.len() && s[k] == '.' {
        if k + 1 < s.len() && is_digit(s[k + 1]) {
            Some((1 + digits_len(s, k + 1)) as nat)
        } else {
            None
        }
    } else {
        Some(0)
    }
}

/// Length of the exponent part at `k`, zero if none, `None` if malformed.
pub open spec fn exp_len(s: Seq<char>, k: int) -> Option<nat> {
    if 0 <= k < s.len() && (s[k] == 'e' || s[k] == 'E') {
        let m = if k + 1 < s.len() && (s[k + 1] == '+' || s[k + 1] == '-') {
            k + 2
        } else {
            k + 1
        };
        if m < s.len() && is_digit(s[m]) {
            Some(((m - k) + digits_len(s, m)) as nat)
        } else {
            None
        }
    } else {
        Some(0)
    }
}

/// Length of the number token at `i`, per the JSON number grammar.
pub open spec fn num_token_len(s: Seq<char>, i: int) -> Option<nat> {
    let j = if 0 <= i < s.len() && s[i] == '-' {
        i + 1
    } else {
        i
    };
    if j < s.len() && is_digit(s[j]) {
        let ilen: int = if s[j] == '0' {
            1
        } else {
            digits_len(s, j) as int
        };
        let k = j + ilen;
        match frac_len(s, k) {
            None => None,
            Some(f) => match exp_len(s, k + f) {
                None => None,
                Some(e) => Some(((k + f + e) - i) as nat),
            },
        }
    } else {
        None
    }
}

/// The value and consumed length at `i`; no leading whitespace is accepted.
pub open spec fn parse_value(s: Seq<char>, i: int) -> Option<(SpecJson, nat)>
    decreases rem(s, i), 0int,
{
    if i < 0 || i >= s.len() {
        None
    } else {
        let c = s[i];
        if c == 'n' {
            if i + 4 <= s.len() && s[i + 1] == 'u' && s[i + 2] == 'l' && s[i + 3] == 'l' {
                Some((SpecJson::Null, 4))
            } else {
                None
            }
        } else if c == 't' {
            if i + 4 <= s.len() && s[i + 1] == 'r' && s[i + 2] == 'u' && s[i + 3] == 'e' {
                Some((SpecJson::Bool(true), 4))
            } else {
                None
            }
        } else if c == 'f' {
            if i + 5 <= s.len() && s[i + 1] == 'a' && s[i + 2] == 'l' && s[i + 3] == 's' && s[i + 4]
                == 'e' {
                Some((SpecJson::Bool(false), 5))
            } else {
                None
            }
        } else if c == '"' {
            match parse_string(s, i) {
                Some((cs, n)) => Some((SpecJson::Str(cs), n)),
                None => None,
            }
        } else if c == '-' || is_digit(c) {
            match num_token_len(s, i) {
                Some(n) => Some((SpecJson::Num(s.subrange(i, i + n)), n)),
                None => None,
            }
        } else if c == '[' {
            let j = i + 1 + ws_len(s, i + 1);
            if j < s.len() && s[j] == ']' {
                Some((SpecJson::Arr(Seq::empty()), (j + 1 - i) as nat))
            } else {
                match parse_elems(s, j) {
                    Some((es, n)) => Some((SpecJson::Arr(es), ((j + n) - i) as nat)),
                    None => None,
                }
            }
        } else if c == '{' {
            let j = i + 1 + ws_len(s, i + 1);
            if j < s.len() && s[j] == '}' {
                Some((SpecJson::Obj(Seq::empty()), (j + 1 - i) as nat))
            } else {
                match parse_members(s, j) {
                    Some((ms, n)) => Some((SpecJson::Obj(ms), ((j + n) - i) as nat)),
                    None => None,
                }
            }
        } else {
            None
        }
    }
}

/// One or more comma-separated elements at `i` (whitespace already skipped),
/// consuming the closing bracket.
pub open spec fn parse_elems(s: Seq<char>, i: int) -> Option<(Seq<SpecJson>, nat)>
    decreases rem(s, i), 1int,
{
    if i < 0 {
        None
    } else {
        match parse_value(s, i) {
            None => None,
            Some((v, n)) => {
                if n == 0 {
                    None
                } else {
                    let k = i + n + ws_len(s, i + n);
                    if k < s.len() && s[k] == ',' {
                        let m = k + 1 + ws_len(s, k + 1);
                        match parse_elems(s, m) {
                            Some((es, n2)) => Some((seq![v] + es, ((m + n2) - i) as nat)),
                            None => None,
                        }
                    } else if k < s.len() && s[k] == ']' {
                        Some((seq![v], (k + 1 - i) as nat))
                    } else {
                        None
                    }
                }
            },
        }
    }
}

/// One or more `"key": value` members at `i` (whitespace already skipped),
/// consuming the closing brace.
pub open spec fn parse_members(s: Seq<char>, i: int) -> Option<
    (Seq<(Seq<char>, SpecJson)>, nat),
>
    decreases rem(s, i), 1int,
{
    if i < 0 {
        None
    } else {
        match parse_string(s, i) {
            None => None,
            Some((key, n)) => {
                if n == 0 {
                    None
                } else {
                    let k = i + n + ws_len(s, i + n);
                    if k < s.len() && s[k] == ':' {
                        let m = k + 1 + ws_len(s, k + 1);
                        match parse_value(s, m) {
                            None => None,
                            Some((v, n2)) => {
                                if n2 == 0 {
                                    None
                                } else {
                                    let p = m + n2 + ws_len(s, m + n2);
                                    if p < s.len() && s[p] == ',' {
                                        let q = p + 1 + ws_len(s, p + 1);
                                        match parse_members(s, q) {
                                            Some((ms, n3)) => Some(
                                                (seq![(key, v)] + ms, ((q + n3) - i) as nat),
                                            ),
                                            None => None,
                                        }
                                    } else if p < s.len() && s[p] == '}' {
                                        Some((seq![(key, v)], (p + 1 - i) as nat))
                                    } else {
                                        None
                                    }
                                }
                            },
                        }
                    } else {
                        None
                    }
                }
            },
        }
    }
}

/// A whole document: one value, surrounded by optional whitespace.
pub open spec fn parse_doc(s: Seq<char>) -> Option<SpecJson> {
    let i = ws_len(s, 0) as int;
    match parse_value(s, i) {
        Some((v, n)) => if i + n + ws_len(s, i + n) == s.len() {
            Some(v)
        } else {
            None
        },
        None => None,
    }
}

// ---------------------------------------------------------------------------
// Executable parser
// ---------------------------------------------------------------------------
fn exec_is_ws(c: char) -> (r: bool)
    ensures
        r == is_ws(c),
{
    c == ' ' || c == '\n' || c == '\r' || c == '\t'
}

fn exec_is_digit(c: char) -> (r: bool)
    ensures
        r == is_digit(c),
{
    c >= '0' && c <= '9'
}

fn exec_is_hex(c: char) -> (r: bool)
    ensures
        r == is_hex(c),
{
    (c >= '0' && c <= '9') || (c >= 'a' && c <= 'f') || (c >= 'A' && c <= 'F')
}

fn exec_hex_val(c: char) -> (r: u32)
    requires
        is_hex(c),
    ensures
        r == hex_val(c),
        r < 16,
{
    let x = c as u32;
    if x >= 97 {
        x - 87
    } else if x >= 65 {
        x - 55
    } else {
        x - 48
    }
}

fn skip_ws(cs: &Vec<char>, i: usize) -> (j: usize)
    requires
        i <= cs@.len(),
    ensures
        j == i + ws_len(cs@, i as int),
        i <= j <= cs@.len(),
{
    let mut j = i;
    loop
        invariant
            i <= j <= cs@.len(),
            i + ws_len(cs@, i as int) == j + ws_len(cs@, j as int),
        decreases cs@.len() - j,
    {
        if j < cs.len() && exec_is_ws(cs[j]) {
            j = j + 1;
        } else {
            return j;
        }
    }
}

fn scan_digits(cs: &Vec<char>, i: usize) -> (j: usize)
    requires
        i <= cs@.len(),
    ensures
        j == i + digits_len(cs@, i as int),
        i <= j <= cs@.len(),
{
    let mut j = i;
    loop
        invariant
            i <= j <= cs@.len(),
            i + digits_len(cs@, i as int) == j + digits_len(cs@, j as int),
        decreases cs@.len() - j,
    {
        if j < cs.len() && exec_is_digit(cs[j]) {
            j = j + 1;
        } else {
            return j;
        }
    }
}

/// Scans the number token at `i`, returning its end.
fn scan_number(cs: &Vec<char>, i: usize) -> (r: Result<usize, DecodeError>)
    requires
        i <= cs@.len(),
    ensures
        match num_token_len(cs@, i as int) {
            Some(n) => {
                &&& r matches Ok(j)
                &&& j == i + n
                &&& i < j <= cs@.len()
            },
            None => r matches Err(e) && e == DecodeError::Malformed,
        },
{
    let j = if i < cs.len() && cs[i] == '-' {
        i + 1
    } else {
        i
    };
    if !(j < cs.len() && exec_is_digit(cs[j])) {
        return Err(DecodeError::Malformed);
    }
    let k = if cs[j] == '0' {
        j + 1
    } else {
        scan_digits(cs, j)
    };
    let k2 = if k < cs.len() && cs[k] == '.' {
        if k + 1 < cs.len() && exec_is_digit(cs[k + 1]) {
            scan_digits(cs, k + 1)
        } else {
            return Err(DecodeError::Malformed);
        }
    } else {
        k
    };
    let k3 = if k2 < cs.len() && (cs[k2] == 'e' || cs[k2] == 'E') {
        let m = if k2 + 1 < cs.len() && (cs[k2 + 1] == '+' || cs[k2 + 1] == '-') {
            k2 + 2
        } else {
            k2 + 1
        };
        if m < cs.len() && exec_is_digit(cs[m]) {
            scan_digits(cs, m)
        } else {
            return Err(DecodeError::Malformed);
        }
    } else {
        k2
    };
    Ok(k3)
}

/// Copies `cs[a..b]` into a fresh vector.
fn subrange_chars(cs: &Vec<char>, a: usize, b: usize) -> (r: Vec<char>)
    requires
        a <= b <= cs@.len(),
    ensures
        r@ == cs@.subrange(a as int, b as int),
{
    let mut out: Vec<char> = Vec::new();
    let mut j = a;
    while j < b
        invariant
            a <= j <= b <= cs@.len(),
            out@ == cs@.subrange(a as int, j as int),
        decreases b - j,
    {
        out.push(cs[j]);
        proof {
            assert(cs@.subrange(a as int, j + 1) =~= cs@.subrange(a as int, j as int).push(
                cs@[j as int],
            ));
        }
        j = j + 1;
    }
    out
}

/// Parses the string body starting after the opening quote, appending the
/// content to `out` and returning the position after the closing quote.
fn parse_str_body_exec(cs: &Vec<char>, i: usize, out: &mut Vec<char>) -> (r: Result<
    usize,
    DecodeError,
>)
    requires
        i <= cs@.len(),
    ensures
        match parse_str_body(cs@, i as int) {
            Some(res) => {
                &&& r matches Ok(j)
                &&& j == i + res.1
                &&& i < j <= cs@.len()
                &&& final(out)@ == old(out)@ + res.0
            },
            None => r matches Err(e) && e == DecodeError::Malformed,
        },
    decreases cs@.len() - i,
{
    if i >= cs.len() {
        return Err(DecodeError::Malformed);
    }
    let c = cs[i];
    if c == '"' {
        assert(out@ =~= old(out)@ + Seq::<char>::empty());
        Ok(i + 1)
    } else if c == '\\' {
        if cs.len() - i < 2 {
            return Err(DecodeError::Malformed);
        }
        let e = cs[i + 1];
        if e == 'u' {
            if cs.len() - i < 6 || !(exec_is_hex(cs[i + 2]) && exec_is_hex(cs[i + 3]) && exec_is_hex(
                cs[i + 4],
            ) && exec_is_hex(cs[i + 5])) {
                return Err(DecodeError::Malformed);
            }
            let code = exec_hex_val(cs[i + 2]) * 4096 + exec_hex_val(cs[i + 3]) * 256 + exec_hex_val(
                cs[i + 4],
            ) * 16 + exec_hex_val(cs[i + 5]);
            assert(code == hex4_val(cs@, i + 2));
            if code < 0xD800 || code > 0xDFFF {
                let ch = match char_from_code(code) {
                    Some(ch) => ch,
                    None => {
                        assert(false);
                        return Err(DecodeError::Malformed);
                    },
                };
                out.push(ch);
                let ghost mid = out@;
                let r = parse_str_body_exec(cs, i + 6, out)?;
                proof {
                    if parse_str_body(cs@, i + 6) is Some {
                        let rest = (parse_str_body(cs@, i + 6)->0).0;
                        assert(out@ =~= old(out)@ + (seq![nat_to_char(code as nat)] + rest));
                    }
                }
                Ok(r)
            } else if code < 0xDC00 {
                if cs.len() - i < 12 || !(cs[i + 6] == '\\' && cs[i + 7] == 'u') || !(exec_is_hex(cs[i + 8]) && exec_is_hex(cs[i + 9]) && exec_is_hex(
                    cs[i + 10],
                ) && exec_is_hex(cs[i + 11])) {
                    return Err(DecodeError::Malformed);
                }
                let lo = exec_hex_val(cs[i + 8]) * 4096 + exec_hex_val(cs[i + 9]) * 256
                    + exec_hex_val(cs[i + 10]) * 16 + exec_hex_val(cs[i + 11]);
                assert(lo == hex4_val(cs@, i + 8));
                if 0xDC00 <= lo && lo <= 0xDFFF {
                    let cp = 0x10000 + (code - 0xD800) * 0x400 + (lo - 0xDC00);
                    let ch = match char_from_code(cp) {
                        Some(ch) => ch,
                        None => {
                            assert(false);
                            return Err(DecodeError::Malformed);
                        },
                    };
                    out.push(ch);
                    let r = parse_str_body_exec(cs, i + 12, out)?;
                    proof {
                        if parse_str_body(cs@, i + 12) is Some {
                            let rest = (parse_str_body(cs@, i + 12)->0).0;
                            assert(out@ =~= old(out)@ + (seq![nat_to_char(cp as nat)]
                                + rest));
                        }
                    }
                    Ok(r)
                } else {
                    Err(DecodeError::Malformed)
                }
            } else {
                Err(DecodeError::Malformed)
            }
        } else {
            let d = if e == '"' {
                '"'
            } else if e == '\\' {
                '\\'
            } else if e == '/' {
                '/'
            } else if e == 'b' {
                '\u{8}'
            } else if e == 'f' {
                '\u{c}'
            } else if e == 'n' {
                '\n'
            } else if e == 'r' {
                '\r'
            } else if e == 't' {
                '\t'
            } else {
                return Err(DecodeError::Malformed);
            };
            assert(short_escape(e) == Some(d));
            out.push(d);
            let r = parse_str_body_exec(cs, i + 2, out)?;
            proof {
                if parse_str_body(cs@, i + 2) is Some {
                    let rest = (parse_str_body(cs@, i + 2)->0).0;
                    assert(out@ =~= old(out)@ + (seq![d] + rest));
                }
            }
            Ok(r)
        }
    } else if (c as u32) < 0x20 {
        Err(DecodeError::Malformed)
    } else {
        out.push(c);
        let r = parse_str_body_exec(cs, i + 1, out)?;
        proof {
            if parse_str_body(cs@, i + 1) is Some {
                let rest = (parse_str_body(cs@, i + 1)->0).0;
                assert(out@ =~= old(out)@ + (seq![c] + rest));
            }
        }
        Ok(r)
    }
}

/// Parses a quoted string at `i`, returning its content and the position
/// after the closing quote.
fn parse_string_exec(cs: &Vec<char>, i: usize) -> (r: Result<(String, usize), DecodeError>)
    requires
        i <= cs@.len(),
    ensures
        match parse_string(cs@, i as int) {
            Some(res) => {
                &&& r matches Ok(p)
                &&& p.0@ == res.0
                &&& p.1 == i + res.1
                &&& i < p.1 <= cs@.len()
            },
            None => r matches Err(e) && e == DecodeError::Malformed,
        },
{
    if !(i < cs.len() && cs[i] == '"') {
        return Err(DecodeError::Malformed);
    }
    let mut content: Vec<char> = Vec::new();
    let j = parse_str_body_exec(cs, i + 1, &mut content)?;
    Ok((chars_to_string(&content), j))
}

/// Parses the value at `i`; no leading whitespace is accepted.
fn parse_value_exec(cs: &Vec<char>, i: usize) -> (r: Result<(JsonValue, usize), DecodeError>)
    requires
        i <= cs@.len(),
    ensures
        match parse_value(cs@, i as int) {
            Some(res) => {
                &&& r matches Ok(p)
                &&& p.0@ == res.0
                &&& p.1 == i + res.1
                &&& i < p.1 <= cs@.len()
            },
            None => r matches Err(e) && e == DecodeError::Malformed,
        },
    decreases rem(cs@, i as int), 0int,
{
    if i >= cs.len() {
        return Err(DecodeError::Malformed);
    }
    let c = cs[i];
    if c == 'n' {
        if cs.len() - i >= 4 && cs[i + 1] == 'u' && cs[i + 2] == 'l' && cs[i + 3] == 'l' {
            Ok((JsonValue::Null, i + 4))
        } else {
            Err(DecodeError::Malformed)
        }
    } else if c == 't' {
        if cs.len() - i >= 4 && cs[i + 1] == 'r' && cs[i + 2] == 'u' && cs[i + 3] == 'e' {
            Ok((JsonValue::Bool(true), i + 4))
        } else {
            Err(DecodeError::Malformed)
        }
    } else if c == 'f' {
        if cs.len() - i >= 5 && cs[i + 1] == 'a' && cs[i + 2] == 'l' && cs[i + 3] == 's' && cs[i
            + 4] == 'e' {
            Ok((JsonValue::Bool(false), i + 5))
        } else {
            Err(DecodeError::Malformed)
        }
    } else if c == '"' {
        let (content, j) = parse_string_exec(cs, i)?;
        Ok((JsonValue::Str(content), j))
    } else if c == '-' || exec_is_digit(c) {
        let j = scan_number(cs, i)?;
        let lex = subrange_chars(cs, i, j);
        Ok((JsonValue::Num(chars_to_string(&lex)), j))
    } else if c == '[' {
        let j = skip_ws(cs, i + 1);
        if j < cs.len() && cs[j] == ']' {
            let elems: Vec<JsonValue> = Vec::new();
            assert(view_elems(elems@) =~= Seq::<SpecJson>::empty());
            Ok((JsonValue::Arr(elems), j + 1))
        } else {
            let mut elems: Vec<JsonValue> = Vec::new();
            let k = parse_elems_exec(cs, j, &mut elems)?;
            Ok((JsonValue::Arr(elems), k))
        }
    } else if c == '{' {
        let j = skip_ws(cs, i + 1);
        if j < cs.len() && cs[j] == '}' {
            let members: Vec<JsonMember> = Vec::new();
            assert(view_members(members@) =~= Seq::<(Seq<char>, SpecJson)>::empty());
            Ok((JsonValue::Obj(members), j + 1))
        } else {
            let mut members: Vec<JsonMember> = Vec::new();
            let k = parse_members_exec(cs, j, &mut members)?;
            Ok((JsonValue::Obj(members), k))
        }
    } else {
        Err(DecodeError::Malformed)
    }
}

/// Parses one or more comma-separated elements at `i`, appending them to
/// `acc` and returning the position after the closing bracket.
fn parse_elems_exec(cs: &Vec<char>, i: usize, acc: &mut Vec<JsonValue>) -> (r: Result<
    usize,
    DecodeError,
>)
    requires
        i <= cs@.len(),
    ensures
        match parse_elems(cs@, i as int) {
            Some(res) => {
                &&& r matches Ok(j)
                &&& j == i + res.1
                &&& i < j <= cs@.len()
                &&& view_elems(final(acc)@) == view_elems(old(acc)@) + res.0
            },
            None => r matches Err(e) && e == DecodeError::Malformed,
        },
    decreases rem(cs@, i as int), 1int,
{
    let (v, j) = parse_value_exec(cs, i)?;
    let ghost sv = view_rec(v);
    acc.push(v);
    proof {
        assert(acc@.drop_last() =~= old(acc)@);
        assert(view_elems(acc@) =~= view_elems(old(acc)@).push(sv));
    }
    let k = skip_ws(cs, j);
    if k < cs.len() && cs[k] == ',' {
        let m = skip_ws(cs, k + 1);
        let ghost mid = acc@;
        let r = parse_elems_exec(cs, m, acc)?;
        proof {
            if parse_elems(cs@, m as int) is Some {
                let es = (parse_elems(cs@, m as int)->0).0;
                assert(view_elems(acc@) =~= view_elems(old(acc)@) + (seq![sv] + es));
            }
        }
        Ok(r)
    } else if k < cs.len() && cs[k] == ']' {
        proof {
            assert(view_elems(acc@) =~= view_elems(old(acc)@) + seq![sv]);
        }
        Ok(k + 1)
    } else {
        Err(DecodeError::Malformed)
    }
}

/// Parses one or more `"key": value` members at `i`, appending them to `acc`
/// and returning the position after the closing brace.
fn parse_members_exec(cs: &Vec<char>, i: usize, acc: &mut Vec<JsonMember>) -> (r: Result<
    usize,
    DecodeError,
>)
    requires
        i <= cs@.len(),
    ensures
        match parse_members(cs@, i as int) {
            Some(res) => {
                &&& r matches Ok(j)
                &&& j == i + res.1
                &&& i < j <= cs@.len()
                &&& view_members(final(acc)@) == view_members(old(acc)@) + res.0
            },
            None => r matches Err(e) && e == DecodeError::Malformed,
        },
    decreases rem(cs@, i as int), 1int,
{
    let (key, j) = parse_string_exec(cs, i)?;
    let k = skip_ws(cs, j);
    if !(k < cs.len() && cs[k] == ':') {
        return Err(DecodeError::Malformed);
    }
    let m = skip_ws(cs, k + 1);
    let (v, j2) = parse_value_exec(cs, m)?;
    let ghost sm = (key@, view_rec(v));
    acc.push(JsonMember { key, value: v });
    proof {
        assert(acc@.drop_last() =~= old(acc)@);
        assert(view_members(acc@) =~= view_members(old(acc)@).push(sm));
    }
    let p = skip_ws(cs, j2);
    if p < cs.len() && cs[p] == ',' {
        let q = skip_ws(cs, p + 1);
        let r = parse_members_exec(cs, q, acc)?;
        proof {
            if parse_members(cs@, q as int) is Some {
                let ms = (parse_members(cs@, q as int)->0).0;
                assert(view_members(acc@) =~= view_members(old(acc)@) + (seq![sm] + ms));
            }
        }
        Ok(r)
    } else if p < cs.len() && cs[p] == '}' {
        proof {
            assert(view_members(acc@) =~= view_members(old(acc)@) + seq![sm]);
        }
        Ok(p + 1)
    } else {
        Err(DecodeError::Malformed)
    }
}

/// Parses a whole wire document: one value surrounded by optional whitespace.
pub fn parse_text(s: &str) -> (r: Result<JsonValue, DecodeError>)
    ensures
        match parse_doc(s@) {
            Some(t) => r matches Ok(v) && v@ == t,
            None => r matches Err(e) && e == DecodeError::Malformed,
        },
{
    let cs = str_chars(s);
    let i = skip_ws(&cs, 0);
    match parse_value_exec(&cs, i) {
        Ok((v, j)) => {
            let k = skip_ws(&cs, j);
            if k == cs.len() {
                Ok(v)
            } else {
                Err(DecodeError::Malformed)
            }
        },
        Err(e) => Err(e),
    }
}

} // verus!
