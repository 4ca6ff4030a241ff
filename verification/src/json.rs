//! The wire representation: a JSON tree, its mathematical model, and the
//! serializer from trees to wire text.
use vstd::prelude::*;

use crate::trusted::chars_to_string;
use crate::trusted::str_chars;

verus! {

/// Mathematical model of a JSON document: numbers keep their exact wire
/// lexeme, so no precision is lost and serialization is verbatim.
#[verifier::ext_equal]
pub enum SpecJson {
    Null,
    Bool(bool),
    /// The unparsed number lexeme, e.g. `-12.5e3`.
    Num(Seq<char>),
    Str(Seq<char>),
    Arr(Seq<SpecJson>),
    Obj(Seq<(Seq<char>, SpecJson)>),
}

/// One field of a JSON object.
pub struct JsonMember {
    pub key: String,
    pub value: JsonValue,
}

/// A parsed JSON document. Object members keep their wire order.
pub enum JsonValue {
    Null,
    Bool(bool),
    /// The number lexeme exactly as it stands on the wire.
    Num(String),
    Str(String),
    Arr(Vec<JsonValue>),
    Obj(Vec<JsonMember>),
}

pub open spec fn view_rec(v: JsonValue) -> SpecJson
    decreases v,
{
    match v {
        JsonValue::Null => SpecJson::Null,
        JsonValue::Bool(b) => SpecJson::Bool(b),
        JsonValue::Num(s) => SpecJson::Num(s@),
        JsonValue::Str(s) => SpecJson::Str(s@),
        JsonValue::Arr(elems) => SpecJson::Arr(view_elems(elems@)),
        JsonValue::Obj(members) => SpecJson::Obj(view_members(members@)),
    }
}

pub open spec fn view_elems(s: Seq<JsonValue>) -> Seq<SpecJson>
    decreases s,
{
    if s.len() == 0 {
        Seq::empty()
    } else {
        view_elems(s.drop_last()).push(view_rec(s.last()))
    }
}

pub open spec fn view_members(s: Seq<JsonMember>) -> Seq<(Seq<char>, SpecJson)>
    decreases s,
{
    if s.len() == 0 {
        Seq::empty()
    } else {
        view_members(s.drop_last()).push((s.last().key@, view_rec(s.last().value)))
    }
}

pub proof fn lemma_view_elems(s: Seq<JsonValue>)
    ensures
        view_elems(s).len() == s.len(),
        forall|i: int| 0 <= i < s.len() ==> view_elems(s)[i] == view_rec(s[i]),
    decreases s.len(),
{
    if s.len() > 0 {
        lemma_view_elems(s.drop_last());
    }
}

pub proof fn lemma_view_members(s: Seq<JsonMember>)
    ensures
        view_members(s).len() == s.len(),
        forall|i: int| 0 <= i < s.len() ==> view_members(s)[i] == (
            s[i].key@,
            view_rec(s[i].value),
        ),
    decreases s.len(),
{
    if s.len() > 0 {
        lemma_view_members(s.drop_last());
    }
}

// ---------------------------------------------------------------------------
// Decimal integer lexemes
// ---------------------------------------------------------------------------
pub open spec fn is_digit(c: char) -> bool {
    '0' <= c && c <= '9'
}

pub open spec fn digit_val(c: char) -> nat {
    ((c as int) - ('0' as int)) as nat
}

pub open spec fn digit_char(d: nat) -> char {
    ((d + 48) as u8) as char
}

/// The decimal digits of `m`, most significant first.
pub open spec fn dec_digits(m: nat) -> Seq<char>
    decreases m,
{
    if m < 10 {
        seq![digit_char(m)]
    } else {
        dec_digits(m / 10).push(digit_char(m % 10))
    }
}

/// The canonical wire lexeme of an integer.
pub open spec fn i64_lex(n: int) -> Seq<char> {
    if n < 0 {
        seq!['-'] + dec_digits((-n) as nat)
    } else {
        dec_digits(n as nat)
    }
}

pub open spec fn all_digits(s: Seq<char>) -> bool {
    forall|i: int| 0 <= i < s.len() ==> is_digit(#[trigger] s[i])
}

/// The value of a nonempty digit string, most significant first.
pub open spec fn dec_val(s: Seq<char>) -> nat
    decreases s.len(),
{
    if s.len() == 0 {
        0
    } else {
        dec_val(s.drop_last()) * 10 + digit_val(s.last())
    }
}

/// The integer a lexeme denotes, if it is an optionally signed digit string.
/// Leading zeros are tolerated: the engine is free to pad.
pub open spec fn lex_to_int(s: Seq<char>) -> Option<int> {
    if s.len() >= 1 && s[0] == '-' {
        let body = s.skip(1);
        if body.len() >= 1 && all_digits(body) {
            Some(-(dec_val(body) as int))
        } else {
            None
        }
    } else if s.len() >= 1 && all_digits(s) {
        Some(dec_val(s) as int)
    } else {
        None
    }
}

pub open spec fn lex_to_i64(s: Seq<char>) -> Option<i64> {
    match lex_to_int(s) {
        Some(v) => if i64::MIN <= v <= i64::MAX {
            Some(v as i64)
        } else {
            None
        },
        None => None,
    }
}

/// A canonical integer lexeme: what the encoder emits for integer fields.
pub open spec fn is_int_lexeme(s: Seq<char>) -> bool {
    let neg = s.len() >= 1 && s[0] == '-';
    let body = if neg {
        s.skip(1)
    } else {
        s
    };
    &&& body.len() >= 1
    &&& all_digits(body)
    &&& (body.len() == 1 || body[0] != '0')
    &&& (neg ==> !(body.len() == 1 && body[0] == '0'))
}

// ---------------------------------------------------------------------------
// Serialization: tree to wire text
// ---------------------------------------------------------------------------
pub open spec fn hex_digit(d: nat) -> char {
    if d < 10 {
        digit_char(d)
    } else {
        ((d + 87) as u8) as char
    }
}

/// How one character of a string is written on the wire.
pub open spec fn esc_char(c: char) -> Seq<char> {
    if c == '"' {
        seq!['\\', '"']
    } else if c == '\\' {
        seq!['\\', '\\']
    } else if c == '\u{8}' {
        seq!['\\', 'b']
    } else if c == '\u{c}' {
        seq!['\\', 'f']
    } else if c == '\n' {
        seq!['\\', 'n']
    } else if c == '\r' {
        seq!['\\', 'r']
    } else if c == '\t' {
        seq!['\\', 't']
    } else if (c as u32) < 0x20 {
        seq!['\\', 'u', '0', '0', hex_digit(((c as u32) >> 4) as nat), hex_digit(
            ((c as u32) & 0xf) as nat,
        )]
    } else {
        seq![c]
    }
}

pub open spec fn ser_str_body(s: Seq<char>) -> Seq<char>
    decreases s.len(),
{
    if s.len() == 0 {
        Seq::empty()
    } else {
        ser_str_body(s.drop_last()) + esc_char(s.last())
    }
}

pub open spec fn ser_string(s: Seq<char>) -> Seq<char> {
    seq!['"'] + ser_str_body(s) + seq!['"']
}

/// The wire text of a tree: compact form, no whitespace.
pub open spec fn ser(t: SpecJson) -> Seq<char>
    decreases t,
{
    match t {
        SpecJson::Null => seq!['n', 'u', 'l', 'l'],
        SpecJson::Bool(b) => if b {
            seq!['t', 'r', 'u', 'e']
        } else {
            seq!['f', 'a', 'l', 's', 'e']
        },
        SpecJson::Num(lex) => lex,
        SpecJson::Str(s) => ser_string(s),
        SpecJson::Arr(es) => seq!['['] + ser_elems(es) + seq![']'],
        SpecJson::Obj(ms) => seq!['{'] + ser_members(ms) + seq!['}'],
    }
}

pub open spec fn ser_elems(s: Seq<SpecJson>) -> Seq<char>
    decreases s,
{
    if s.len() == 0 {
        Seq::empty()
    } else if s.len() == 1 {
        ser(s.last())
    } else {
        ser_elems(s.drop_last()) + seq![','] + ser(s.last())
    }
}

pub open spec fn ser_members(s: Seq<(Seq<char>, SpecJson)>) -> Seq<char>
    decreases s,
{
    if s.len() == 0 {
        Seq::empty()
    } else if s.len() == 1 {
        ser_string(s.last().0) + seq![':'] + ser(s.last().1)
    } else {
        ser_members(s.drop_last()) + seq![','] + ser_string(s.last().0) + seq![':'] + ser(
            s.last().1,
        )
    }
}

/// Whether every number in the tree is a canonical integer lexeme; all trees
/// the encoders build satisfy this.
pub open spec fn wf(t: SpecJson) -> bool
    decreases t,
{
    match t {
        SpecJson::Null => true,
        SpecJson::Bool(_) => true,
        SpecJson::Num(lex) => is_int_lexeme(lex),
        SpecJson::Str(_) => true,
        SpecJson::Arr(es) => forall|i: int| 0 <= i < es.len() ==> wf(#[trigger] es[i]),
        SpecJson::Obj(ms) => forall|i: int| 0 <= i < ms.len() ==> wf(#[trigger] ms[i].1),
    }
}

// ---------------------------------------------------------------------------
// Executable serializer
// ---------------------------------------------------------------------------
fn hex_digit_exec(d: u8) -> (r: char)
    requires
        d < 16,
    ensures
        r == hex_digit(d as nat),
{
    if d < 10 {
        (48 + d) as char
    } else {
        (87 + d) as char
    }
}

fn write_escaped(c: char, out: &mut Vec<char>)
    ensures
        final(out)@ == old(out)@ + esc_char(c),
{
    if c == '"' {
        out.push('\\');
        out.push('"');
    } else if c == '\\' {
        out.push('\\');
        out.push('\\');
    } else if c == '\u{8}' {
        out.push('\\');
        out.push('b');
    } else if c == '\u{c}' {
        out.push('\\');
        out.push('f');
    } else if c == '\n' {
        out.push('\\');
        out.push('n');
    } else if c == '\r' {
        out.push('\\');
        out.push('r');
    } else if c == '\t' {
        out.push('\\');
        out.push('t');
    } else if (c as u32) < 0x20 {
        let code = c as u32;
        assert(code >> 4 < 16 && code & 0xf < 16) by (bit_vector)
            requires
                code < 0x20,
        ;
        out.push('\\');
        out.push('u');
        out.push('0');
        out.push('0');
        out.push(hex_digit_exec((code >> 4) as u8));
        out.push(hex_digit_exec((code & 0xf) as u8));
        assert(final(out)@ =~= old(out)@ + esc_char(c));
    } else {
        out.push(c);
    }
}

fn write_string(s: &str, out: &mut Vec<char>)
    ensures
        final(out)@ == old(out)@ + ser_string(s@),
{
    let cs = str_chars(s);
    out.push('"');
    let n = cs.len();
    let mut i: usize = 0;
    while i < n
        invariant
            n == cs.len(),
            cs@ == s@,
            i <= n,
            out@ == old(out)@ + seq!['"'] + ser_str_body(s@.take(i as int)),
        decreases n - i,
    {
        write_escaped(cs[i], out);
        proof {
            assert(s@.take(i + 1).drop_last() =~= s@.take(i as int));
            assert(s@.take(i + 1).last() == s@[i as int]);
        }
        i = i + 1;
    }
    out.push('"');
    proof {
        assert(s@.take(n as int) =~= s@);
        assert(final(out)@ =~= old(out)@ + ser_string(s@));
    }
}

fn write_raw(s: &str, out: &mut Vec<char>)
    ensures
        final(out)@ == old(out)@ + s@,
{
    let cs = str_chars(s);
    let n = cs.len();
    let mut i: usize = 0;
    while i < n
        invariant
            n == cs.len(),
            cs@ == s@,
            i <= n,
            out@ == old(out)@ + s@.take(i as int),
        decreases n - i,
    {
        out.push(cs[i]);
        proof {
            assert(old(out)@ + s@.take(i + 1) =~= (old(out)@ + s@.take(i as int)).push(
                s@[i as int],
            ));
        }
        i = i + 1;
    }
    proof {
        assert(s@.take(n as int) =~= s@);
    }
}

fn write_u64_digits(m: u64, out: &mut Vec<char>)
    ensures
        final(out)@ == old(out)@ + dec_digits(m as nat),
    decreases m,
{
    if m < 10 {
        out.push((48 + m as u8) as char);
        assert((48 + m as u8) as char == digit_char(m as nat));
    } else {
        write_u64_digits(m / 10, out);
        out.push((48 + (m % 10) as u8) as char);
        assert((48 + (m % 10) as u8) as char == digit_char((m as nat) % 10));
    }
}

/// Writes the canonical lexeme of `n`.
pub fn write_i64(n: i64, out: &mut Vec<char>)
    ensures
        final(out)@ == old(out)@ + i64_lex(n as int),
{
    if n < 0 {
        out.push('-');
        let mag: u64 = if n == i64::MIN {
            9223372036854775808u64
        } else {
            (-n) as u64
        };
        assert(mag as nat == (-(n as int)) as nat);
        write_u64_digits(mag, out);
        assert(final(out)@ =~= old(out)@ + i64_lex(n as int));
    } else {
        write_u64_digits(n as u64, out);
    }
}

/// Writes the wire text of `v`.
pub fn write_value(v: &JsonValue, out: &mut Vec<char>)
    ensures
        final(out)@ == old(out)@ + ser(v@),
    decreases *v,
{
    match v {
        JsonValue::Null => {
            out.push('n');
            out.push('u');
            out.push('l');
            out.push('l');
            assert(final(out)@ =~= old(out)@ + ser(v@));
        },
        JsonValue::Bool(b) => {
            if *b {
                out.push('t');
                out.push('r');
                out.push('u');
                out.push('e');
            } else {
                out.push('f');
                out.push('a');
                out.push('l');
                out.push('s');
                out.push('e');
            }
            assert(final(out)@ =~= old(out)@ + ser(v@));
        },
        JsonValue::Num(s) => {
            write_raw(s.as_str(), out);
        },
        JsonValue::Str(s) => {
            write_string(s.as_str(), out);
        },
        JsonValue::Arr(elems) => {
            proof {
                lemma_view_elems(elems@);
            }
            let ghost es = view_elems(elems@);
            out.push('[');
            let n = elems.len();
            let mut i: usize = 0;
            while i < n
                invariant
                    n == elems.len(),
                    es == view_elems(elems@),
                    es.len() == n,
                    forall|k: int| 0 <= k < n ==> es[k] == view_rec(elems@[k]),
                    i <= n,
                    out@ == old(out)@ + seq!['['] + ser_elems(es.take(i as int)),
                    v == &JsonValue::Arr(*elems),
                decreases n - i,
            {
                if i > 0 {
                    out.push(',');
                }
                proof {
                    assert((*v)->Arr_0 == *elems);
                    assert(decreases_to!(*v => (*v)->Arr_0));
                    assert(decreases_to!(*elems => elems@));
                    assert(decreases_to!(elems@ => elems@[i as int]));
                }
                write_value(&elems[i], out);
                proof {
                    assert(es.take(i + 1).drop_last() =~= es.take(i as int));
                    assert(es.take(i + 1).last() == es[i as int]);
                    assert(out@ =~= old(out)@ + seq!['['] + ser_elems(es.take(i + 1)));
                }
                i = i + 1;
            }
            out.push(']');
            proof {
                assert(es.take(n as int) =~= es);
                assert(final(out)@ =~= old(out)@ + ser(v@));
            }
        },
        JsonValue::Obj(members) => {
            proof {
                lemma_view_members(members@);
            }
            let ghost ms = view_members(members@);
            out.push('{');
            let n = members.len();
            let mut i: usize = 0;
            while i < n
                invariant
                    n == members.len(),
                    ms == view_members(members@),
                    ms.len() == n,
                    forall|k: int| 0 <= k < n ==> ms[k] == (members@[k].key@, view_rec(
                        members@[k].value,
                    )),
                    i <= n,
                    out@ == old(out)@ + seq!['{'] + ser_members(ms.take(i as int)),
                    v == &JsonValue::Obj(*members),
                decreases n - i,
            {
                if i > 0 {
                    out.push(',');
                }
                write_string(members[i].key.as_str(), out);
                out.push(':');
                proof {
                    assert((*v)->Obj_0 == *members);
                    assert(decreases_to!(*v => (*v)->Obj_0));
                    assert(decreases_to!(*members => members@));
                    assert(decreases_to!(members@ => members@[i as int]));
                    assert(decreases_to!(members@[i as int] => members@[i as int].value));
                }
                write_value(&members[i].value, out);
                proof {
                    assert(ms.take(i + 1).drop_last() =~= ms.take(i as int));
                    assert(ms.take(i + 1).last() == ms[i as int]);
                    assert(out@ =~= old(out)@ + seq!['{'] + ser_members(ms.take(i + 1)));
                }
                i = i + 1;
            }
            out.push('}');
            proof {
                assert(ms.take(n as int) =~= ms);
                assert(final(out)@ =~= old(out)@ + ser(v@));
            }
        },
    }
}

/// The wire text of a tree.
pub fn to_text(v: &JsonValue) -> (r: String)
    ensures
        r@ == ser(v@),
{
    let mut out: Vec<char> = Vec::new();
    write_value(v, &mut out);
    chars_to_string(&out)
}

/// The canonical lexeme of an integer is a well-formed integer lexeme and
/// denotes that integer.
pub proof fn lemma_dec_digits(m: nat)
    ensures
        dec_digits(m).len() >= 1,
        all_digits(dec_digits(m)),
        dec_val(dec_digits(m)) == m,
        (dec_digits(m)[0] == '0') == (m == 0),
    decreases m,
{
    if m < 10 {
        assert(dec_digits(m) =~= seq![digit_char(m)]);
        assert(is_digit(digit_char(m)));
        assert(dec_val(seq![digit_char(m)].drop_last()) == 0);
    } else {
        lemma_dec_digits(m / 10);
        vstd::arithmetic::div_mod::lemma_fundamental_div_mod(m as int, 10);
        let dd = dec_digits(m);
        assert(dd == dec_digits(m / 10).push(digit_char(m % 10)));
        assert(dd.drop_last() =~= dec_digits(m / 10));
        assert(dd.last() == digit_char(m % 10));
        assert(is_digit(digit_char(m % 10)));
        assert(all_digits(dd)) by {
            assert(forall|i: int| 0 <= i < dd.len() - 1 ==> dd[i] == #[trigger] dec_digits(
                m / 10,
            )[i]);
        }
        assert(dec_val(dd) == dec_val(dec_digits(m / 10)) * 10 + digit_val(digit_char(m % 10)));
        assert(m / 10 >= 1);
        assert(dd[0] == dec_digits(m / 10)[0]);
    }
}

/// The canonical lexeme of an `i64` is well formed and decodes back to it.
pub proof fn lemma_i64_lex(n: i64)
    ensures
        is_int_lexeme(i64_lex(n as int)),
        lex_to_i64(i64_lex(n as int)) == Some(n),
{
    let lex = i64_lex(n as int);
    if n < 0 {
        lemma_dec_digits((-(n as int)) as nat);
        let dd = dec_digits((-(n as int)) as nat);
        assert(lex == seq!['-'] + dd);
        assert(lex[0] == '-');
        assert(lex.skip(1) =~= dd);
        assert(lex_to_int(lex) == Some(-(dec_val(dd) as int)));
    } else {
        lemma_dec_digits(n as nat);
        let dd = dec_digits(n as nat);
        assert(lex == dd);
        assert(lex[0] != '-') by {
            assert(is_digit(lex[0]));
        }
        assert(lex_to_int(lex) == Some(dec_val(dd) as int));
    }
}

/// Reads an integer from a lexeme, accepting exactly what `lex_to_i64` does.
pub fn parse_i64_chars(cs: &Vec<char>) -> (r: Option<i64>)
    ensures
        r == lex_to_i64(cs@),
{
    let n = cs.len();
    let neg = n >= 1 && cs[0] == '-';
    let start: usize = if neg {
        1
    } else {
        0
    };
    if n == start {
        proof {
            if neg {
                assert(cs@.skip(1).len() == 0);
            } else {
                assert(cs@.len() == 0);
            }
            assert(lex_to_int(cs@) is None);
        }
        return None;
    }
    let mut i = start;
    let mut mag: u64 = 0;
    let mut over = false;
    let ghost body = if neg {
        cs@.skip(1)
    } else {
        cs@
    };
    assert(body.len() == n - start);
    assert(forall|k: int| 0 <= k < body.len() ==> body[k] == cs@[start + k]);
    while i < n
        invariant
            start <= i <= n,
            n == cs@.len(),
            neg == (cs@.len() >= 1 && cs@[0] == '-'),
            start == (if neg {
                1int
            } else {
                0int
            }),
            body == (if neg {
                cs@.skip(1)
            } else {
                cs@
            }),
            body.len() == n - start,
            forall|k: int| 0 <= k < body.len() ==> body[k] == cs@[start + k],
            forall|k: int| 0 <= k < i - start ==> is_digit(#[trigger] body[k]),
            !over ==> mag == dec_val(body.take(i - start)),
            over ==> dec_val(body.take(i - start)) > u64::MAX,
        decreases n - i,
    {
        let c = cs[i];
        if !(c >= '0' && c <= '9') {
            proof {
                assert(body[i - start] == cs@[i as int]);
                assert(!is_digit(body[i - start]));
                assert(!all_digits(body));
                if neg {
                    assert(cs@.len() >= 1 && cs@[0] == '-');
                    assert(cs@.skip(1) == body);
                    assert(lex_to_int(cs@) is None);
                } else {
                    assert(!(cs@.len() >= 1 && cs@[0] == '-'));
                    assert(lex_to_int(cs@) is None);
                }
            }
            return None;
        }
        let d: u64 = (c as u32 - 48) as u64;
        assert(d == digit_val(c));
        proof {
            assert(body.take(i - start + 1).drop_last() =~= body.take(i - start));
            assert(body.take(i - start + 1).last() == body[i - start]);
        }
        if over || mag > (u64::MAX - d) / 10 {
            proof {
                let prev = dec_val(body.take(i - start));
                if !over {
                    assert(mag * 10 + d > u64::MAX) by (nonlinear_arith)
                        requires
                            mag > (u64::MAX - d) / 10 && d <= 9,
                    ;
                }
                assert(dec_val(body.take(i - start + 1)) == prev * 10 + digit_val(body[i - start]));
                if over {
                    assert(prev * 10 + digit_val(body[i - start]) > u64::MAX) by (nonlinear_arith)
                        requires
                            prev > u64::MAX && digit_val(body[i - start]) >= 0,
                    ;
                }
            }
            over = true;
        } else {
            proof {
                assert(mag * 10 + d <= u64::MAX) by (nonlinear_arith)
                    requires
                        mag <= (u64::MAX - d) / 10 && d <= 9,
                ;
            }
            mag = mag * 10 + d;
        }
        i = i + 1;
    }
    proof {
        assert(body.take(n - start) =~= body);
        assert(all_digits(body));
        if neg {
            assert(lex_to_int(cs@) == Some(-(dec_val(body) as int)));
        } else {
            assert(cs@[0] != '-');
            assert(lex_to_int(cs@) == Some(dec_val(body) as int));
        }
    }
    if over {
        return None;
    }
    if neg {
        if mag > 9223372036854775808u64 {
            None
        } else if mag == 9223372036854775808u64 {
            Some(i64::MIN)
        } else {
            Some(-(mag as i64))
        }
    } else {
        if mag > i64::MAX as u64 {
            None
        } else {
            Some(mag as i64)
        }
    }
}

impl View for JsonValue {
    type V = SpecJson;

    open spec fn view(&self) -> SpecJson {
        view_rec(*self)
    }
}

} // verus!
