//! The round-trip law of the wire format: parsing the serialization of a
//! well-formed tree gives back exactly that tree.
use vstd::prelude::*;

use crate::json::SpecJson;
use crate::json::esc_char;
use crate::json::hex_digit;
use crate::json::is_digit;
use crate::json::is_int_lexeme;
use crate::json::ser;
use crate::json::ser_elems;
use crate::json::ser_members;
use crate::json::ser_str_body;
use crate::json::ser_string;
use crate::json::wf;
use crate::parse::digits_len;
use crate::parse::exp_len;
use crate::parse::frac_len;
use crate::parse::hex4_ok;
use crate::parse::hex4_val;
use crate::parse::hex_val;
use crate::parse::is_hex;
use crate::parse::is_ws;
use crate::parse::nat_to_char;
use crate::parse::num_token_len;
use crate::parse::parse_doc;
use crate::parse::parse_elems;
use crate::parse::parse_members;
use crate::parse::parse_str_body;
use crate::parse::parse_string;
use crate::parse::parse_value;
use crate::parse::short_escape;
use crate::parse::ws_len;

verus! {

/// The characters that may legally follow a value inside a document.
pub open spec fn is_delim(c: char) -> bool {
    c == ',' || c == '}' || c == ']'
}

/// The characters a serialized value can start with.
pub open spec fn is_value_start(c: char) -> bool {
    c == 'n' || c == 't' || c == 'f' || c == '"' || c == '-' || is_digit(c) || c == '[' || c == '{'
}

/// One character of a known subrange of `s`.
pub proof fn lemma_point(s: Seq<char>, i: int, w: Seq<char>, k: int)
    requires
        0 <= i,
        i + w.len() <= s.len(),
        s.subrange(i, i + w.len()) == w,
        0 <= k < w.len(),
    ensures
        s[i + k] == w[k],
{
    assert(s.subrange(i, i + w.len())[k] == w[k]);
}

/// A serialized well-formed value is nonempty and starts with a value-start
/// character, which is neither whitespace nor a delimiter.
pub proof fn lemma_ser_first(t: SpecJson)
    requires
        wf(t),
    ensures
        ser(t).len() >= 1,
        is_value_start(ser(t)[0]),
{
    match t {
        SpecJson::Null => {},
        SpecJson::Bool(b) => {},
        SpecJson::Num(lex) => {
            assert(lex.len() >= 1);
            if lex[0] == '-' {
            } else {
                assert(is_digit(lex[0]));
            }
        },
        SpecJson::Str(s) => {
            assert(ser(t)[0] == '"');
        },
        SpecJson::Arr(es) => {
            assert(ser(t)[0] == '[');
        },
        SpecJson::Obj(ms) => {
            assert(ser(t)[0] == '{');
        },
    }
}

/// Serialization of a string body, decomposed from the front.
pub proof fn lemma_ser_str_body_first(s: Seq<char>)
    requires
        s.len() >= 1,
    ensures
        ser_str_body(s) == esc_char(s[0]) + ser_str_body(s.drop_first()),
    decreases s.len(),
{
    if s.len() == 1 {
        assert(s.drop_last() =~= Seq::<char>::empty());
        assert(s.drop_first() =~= Seq::<char>::empty());
        assert(s.last() == s[0]);
        assert(ser_str_body(s) =~= esc_char(s[0]) + ser_str_body(s.drop_first()));
    } else {
        lemma_ser_str_body_first(s.drop_last());
        assert(s.drop_last()[0] == s[0]);
        assert(s.drop_last().drop_first() =~= s.drop_first().drop_last());
        assert(s.drop_first().last() == s.last());
        assert(ser_str_body(s.drop_first()) == ser_str_body(s.drop_first().drop_last()) + esc_char(
            s.drop_first().last(),
        ));
        assert(ser_str_body(s) =~= esc_char(s[0]) + ser_str_body(s.drop_first()));
    }
}

/// Serialization of an element list, decomposed from the front.
pub proof fn lemma_ser_elems_first(es: Seq<SpecJson>)
    requires
        es.len() >= 1,
    ensures
        es.len() == 1 ==> ser_elems(es) == ser(es[0]),
        es.len() > 1 ==> ser_elems(es) == ser(es[0]) + seq![','] + ser_elems(es.drop_first()),
    decreases es.len(),
{
    if es.len() == 1 {
        assert(es.last() == es[0]);
    } else if es.len() == 2 {
        assert(es.drop_last() =~= seq![es[0]]);
        assert(es.drop_first() =~= seq![es[1]]);
        assert(ser_elems(es.drop_last()) == ser(es[0]));
        assert(ser_elems(es.drop_first()) == ser(es[1]));
        assert(ser_elems(es) =~= ser(es[0]) + seq![','] + ser_elems(es.drop_first()));
    } else {
        lemma_ser_elems_first(es.drop_last());
        assert(es.drop_last()[0] == es[0]);
        assert(es.drop_last().drop_first() =~= es.drop_first().drop_last());
        assert(es.drop_first().last() == es.last());
        assert(ser_elems(es.drop_first()) == ser_elems(es.drop_first().drop_last()) + seq![',']
            + ser(es.drop_first().last()));
        assert(ser_elems(es) =~= ser(es[0]) + seq![','] + ser_elems(es.drop_first()));
    }
}

/// Serialization of a member list, decomposed from the front.
pub proof fn lemma_ser_members_first(ms: Seq<(Seq<char>, SpecJson)>)
    requires
        ms.len() >= 1,
    ensures
        ms.len() == 1 ==> ser_members(ms) == ser_string(ms[0].0) + seq![':'] + ser(ms[0].1),
        ms.len() > 1 ==> ser_members(ms) == ser_string(ms[0].0) + seq![':'] + ser(ms[0].1) + seq![
            ',',
        ] + ser_members(ms.drop_first()),
    decreases ms.len(),
{
    if ms.len() == 1 {
        assert(ms.last() == ms[0]);
    } else if ms.len() == 2 {
        assert(ms.drop_last() =~= seq![ms[0]]);
        assert(ms.drop_first() =~= seq![ms[1]]);
        assert(ser_members(ms.drop_last()) == ser_string(ms[0].0) + seq![':'] + ser(ms[0].1));
        assert(ser_members(ms) =~= ser_string(ms[0].0) + seq![':'] + ser(ms[0].1) + seq![',']
            + ser_members(ms.drop_first()));
    } else {
        lemma_ser_members_first(ms.drop_last());
        assert(ms.drop_last()[0] == ms[0]);
        assert(ms.drop_last().drop_first() =~= ms.drop_first().drop_last());
        assert(ms.drop_first().last() == ms.last());
        assert(ser_members(ms.drop_first()) == ser_members(ms.drop_first().drop_last()) + seq![',']
            + ser_string(ms.drop_first().last().0) + seq![':'] + ser(ms.drop_first().last().1));
        assert(ser_members(ms) =~= ser_string(ms[0].0) + seq![':'] + ser(ms[0].1) + seq![',']
            + ser_members(ms.drop_first()));
    }
}

/// Hex digit characters carry their value back out.
pub proof fn lemma_hex_digit(d: nat)
    requires
        d < 16,
    ensures
        is_hex(hex_digit(d)),
        hex_val(hex_digit(d)) == d,
{
}

/// A digit run bounded by a non-digit (or the end) has exactly its length.
pub proof fn lemma_digits_len_exact(s: Seq<char>, i: int, m: int)
    requires
        0 <= i,
        0 <= m,
        i + m <= s.len(),
        forall|k: int| i <= k < i + m ==> is_digit(#[trigger] s[k]),
        i + m == s.len() || !is_digit(s[i + m]),
    ensures
        digits_len(s, i) == m,
    decreases m,
{
    if m == 0 {
    } else {
        lemma_digits_len_exact(s, i + 1, m - 1);
    }
}

/// Parsing the number token of a canonical integer lexeme consumes exactly
/// the lexeme, when a delimiter or the end of input follows.
pub proof fn lemma_parse_int_lexeme(lex: Seq<char>, s: Seq<char>, i: int)
    requires
        is_int_lexeme(lex),
        0 <= i,
        i + lex.len() <= s.len(),
        s.subrange(i, i + lex.len()) == lex,
        i + lex.len() == s.len() || is_delim(s[i + lex.len()]),
    ensures
        num_token_len(s, i) == Some(lex.len() as nat),
{
    let end = i + lex.len();
    assert(forall|k: int| 0 <= k < lex.len() ==> s[i + k] == #[trigger] lex[k]);
    let neg = lex[0] == '-';
    let j: int = if neg {
        i + 1
    } else {
        i
    };
    let body = if neg {
        lex.skip(1)
    } else {
        lex
    };
    assert(forall|k: int| 0 <= k < body.len() ==> s[j + k] == #[trigger] body[k]);
    assert(s[j] == body[0]);
    assert(is_digit(s[j]));
    if body[0] == '0' {
        assert(body.len() == 1);
        assert(j + 1 == end);
        assert(frac_len(s, end) == Some(0nat));
        assert(exp_len(s, end) == Some(0nat));
    } else {
        assert forall|k: int| j <= k < j + body.len() implies is_digit(#[trigger] s[k]) by {
            assert(s[k] == body[k - j]);
            assert(is_digit(body[k - j]));
        }
        lemma_digits_len_exact(s, j, body.len() as int);
        assert(j + body.len() == end);
        assert(frac_len(s, end) == Some(0nat));
        assert(exp_len(s, end) == Some(0nat));
    }
}

/// Parsing the serialization of a string body gives back its contents.
pub proof fn lemma_parse_ser_str_body(content: Seq<char>, s: Seq<char>, i: int)
    requires
        0 <= i,
        i + ser_str_body(content).len() + 1 <= s.len(),
        s.subrange(i, i + ser_str_body(content).len() + 1) == ser_str_body(content) + seq!['"'],
    ensures
        parse_str_body(s, i) == Some((content, (ser_str_body(content).len() + 1) as nat)),
    decreases content.len(),
{
    let body = ser_str_body(content);
    let bl = body.len() as int;
    assert(forall|k: int| 0 <= k < bl + 1 ==> s[i + k] == #[trigger] (body + seq!['"'])[k]);
    if content.len() == 0 {
        assert(body =~= Seq::<char>::empty());
        lemma_point(s, i, body + seq!['"'], 0);
        assert((body + seq!['"'])[0] == '"');
        assert(s[i] == '"');
    } else {
        let c = content[0];
        let rest = content.drop_first();
        lemma_ser_str_body_first(content);
        let e = esc_char(c);
        let rbody = ser_str_body(rest);
        assert(body == e + rbody);
        // the tail after this character's escape is again a body followed by a quote
        assert(s.subrange(i + e.len(), i + e.len() + rbody.len() + 1) =~= rbody + seq!['"']) by {
            assert(forall|k: int| 0 <= k < rbody.len() + 1 ==> s[i + e.len() + k] == #[trigger] (
            rbody + seq!['"'])[k]) by {
                assert(forall|k: int| 0 <= k < rbody.len() + 1 ==> (body + seq!['"'])[e.len() + k]
                    == #[trigger] (rbody + seq!['"'])[k]);
            }
        }
        lemma_parse_ser_str_body(rest, s, i + e.len());
        if c == '"' {
            lemma_point(s, i, body + seq!['"'], 0);
            lemma_point(s, i, body + seq!['"'], 1);
            assert(e.len() == 2 && e[0] == '\\' && e[1] == '"');
            assert(body[0] == e[0] && body[1] == e[1]);
            assert((body + seq!['"'])[0] == body[0] && (body + seq!['"'])[1] == body[1]);
            assert(s[i] == '\\' && s[i + 1] == '"');
            assert(seq![c] + rest =~= content);
        } else if c == '\\' {
            lemma_point(s, i, body + seq!['"'], 0);
            lemma_point(s, i, body + seq!['"'], 1);
            assert(e.len() == 2 && e[0] == '\\' && e[1] == '\\');
            assert(body[0] == e[0] && body[1] == e[1]);
            assert((body + seq!['"'])[0] == body[0] && (body + seq!['"'])[1] == body[1]);
            assert(s[i] == '\\' && s[i + 1] == '\\');
            assert(seq![c] + rest =~= content);
        } else if c == '\u{8}' {
            lemma_point(s, i, body + seq!['"'], 0);
            lemma_point(s, i, body + seq!['"'], 1);
            assert(e.len() == 2 && e[0] == '\\' && e[1] == 'b');
            assert(body[0] == e[0] && body[1] == e[1]);
            assert((body + seq!['"'])[0] == body[0] && (body + seq!['"'])[1] == body[1]);
            assert(s[i] == '\\' && s[i + 1] == 'b');
            assert(seq![c] + rest =~= content);
        } else if c == '\u{c}' {
            lemma_point(s, i, body + seq!['"'], 0);
            lemma_point(s, i, body + seq!['"'], 1);
            assert(e.len() == 2 && e[0] == '\\' && e[1] == 'f');
            assert(body[0] == e[0] && body[1] == e[1]);
            assert((body + seq!['"'])[0] == body[0] && (body + seq!['"'])[1] == body[1]);
            assert(s[i] == '\\' && s[i + 1] == 'f');
            assert(seq![c] + rest =~= content);
        } else if c == '\n' {
            lemma_point(s, i, body + seq!['"'], 0);
            lemma_point(s, i, body + seq!['"'], 1);
            assert(e.len() == 2 && e[0] == '\\' && e[1] == 'n');
            assert(body[0] == e[0] && body[1] == e[1]);
            assert((body + seq!['"'])[0] == body[0] && (body + seq!['"'])[1] == body[1]);
            assert(s[i] == '\\' && s[i + 1] == 'n');
            assert(seq![c] + rest =~= content);
        } else if c == '\r' {
            lemma_point(s, i, body + seq!['"'], 0);
            lemma_point(s, i, body + seq!['"'], 1);
            assert(e.len() == 2 && e[0] == '\\' && e[1] == 'r');
            assert(body[0] == e[0] && body[1] == e[1]);
            assert((body + seq!['"'])[0] == body[0] && (body + seq!['"'])[1] == body[1]);
            assert(s[i] == '\\' && s[i + 1] == 'r');
            assert(seq![c] + rest =~= content);
        } else if c == '\t' {
            lemma_point(s, i, body + seq!['"'], 0);
            lemma_point(s, i, body + seq!['"'], 1);
            assert(e.len() == 2 && e[0] == '\\' && e[1] == 't');
            assert(body[0] == e[0] && body[1] == e[1]);
            assert((body + seq!['"'])[0] == body[0] && (body + seq!['"'])[1] == body[1]);
            assert(s[i] == '\\' && s[i + 1] == 't');
            assert(seq![c] + rest =~= content);
        } else if (c as u32) < 0x20 {
            let cu = c as u32;
            let hiu: u32 = cu >> 4;
            let lou: u32 = cu & 0xf;
            assert(hiu < 16 && lou < 16 && hiu * 16 + lou == cu) by (bit_vector)
                requires
                    hiu == cu >> 4 && lou == cu & 0xf && cu < 0x20,
            ;
            let hi = hiu as nat;
            let lo = lou as nat;
            lemma_hex_digit(hi);
            lemma_hex_digit(lo);
            assert(e.len() == 6 && e[0] == '\\' && e[1] == 'u' && e[2] == '0' && e[3] == '0'
                && e[4] == hex_digit(hi) && e[5] == hex_digit(lo));
            lemma_point(s, i, body + seq!['"'], 0);
            lemma_point(s, i, body + seq!['"'], 1);
            lemma_point(s, i, body + seq!['"'], 2);
            lemma_point(s, i, body + seq!['"'], 3);
            lemma_point(s, i, body + seq!['"'], 4);
            lemma_point(s, i, body + seq!['"'], 5);
            assert(body[0] == e[0] && body[1] == e[1] && body[2] == e[2] && body[3] == e[3]
                && body[4] == e[4] && body[5] == e[5]);
            assert((body + seq!['"'])[0] == body[0] && (body + seq!['"'])[1] == body[1] && (body
                + seq!['"'])[2] == body[2] && (body + seq!['"'])[3] == body[3] && (body
                + seq!['"'])[4] == body[4] && (body + seq!['"'])[5] == body[5]);
            assert(s[i] == '\\' && s[i + 1] == 'u' && s[i + 2] == '0' && s[i + 3] == '0' && s[i + 4]
                == hex_digit(hi) && s[i + 5] == hex_digit(lo));
            assert(hex4_ok(s, i + 2));
            assert(hex_val('0') == 0);
            assert(hex4_val(s, i + 2) == hi * 16 + lo);
            assert(hex4_val(s, i + 2) == c as u32);
            assert(nat_to_char(hex4_val(s, i + 2)) == c) by {
                vstd::utf8::char_u32_cast(c, c as u32);
            }
            assert(seq![c] + rest =~= content);
        } else {
            assert(e =~= seq![c]);
            lemma_point(s, i, body + seq!['"'], 0);
            assert(body[0] == e[0] && e[0] == c);
            assert((body + seq!['"'])[0] == body[0]);
            assert(s[i] == c);
            assert(s[i] != '"' && s[i] != '\\' && (s[i] as u32) >= 0x20);
            assert(seq![c] + rest =~= content);
        }
    }
}

/// Parsing the serialization of a string gives back its contents.
pub proof fn lemma_parse_ser_string(content: Seq<char>, s: Seq<char>, i: int)
    requires
        0 <= i,
        i + ser_string(content).len() <= s.len(),
        s.subrange(i, i + ser_string(content).len()) == ser_string(content),
    ensures
        parse_string(s, i) == Some((content, ser_string(content).len() as nat)),
{
    let w = ser_string(content);
    assert(forall|k: int| 0 <= k < w.len() ==> s[i + k] == #[trigger] w[k]);
    lemma_point(s, i, w, 0);
    assert(w[0] == '"');
    assert(s[i] == '"');
    let body = ser_str_body(content);
    assert(s.subrange(i + 1, i + 1 + body.len() + 1) =~= body + seq!['"']) by {
        assert(forall|k: int| 0 <= k < body.len() + 1 ==> s[i + 1 + k] == #[trigger] (body
            + seq!['"'])[k]) by {
            assert(forall|k: int| 0 <= k < body.len() + 1 ==> w[1 + k] == #[trigger] (body
                + seq!['"'])[k]);
        }
    }
    lemma_parse_ser_str_body(content, s, i + 1);
}

/// Transports a known subrange of `s` to one of its own subranges.
pub proof fn lemma_subrange_shift(s: Seq<char>, i: int, w: Seq<char>, off: int, target: Seq<char>)
    requires
        0 <= i,
        i + w.len() <= s.len(),
        s.subrange(i, i + w.len()) == w,
        0 <= off,
        off + target.len() <= w.len(),
        forall|k: int| 0 <= k < target.len() ==> w[off + k] == #[trigger] target[k],
    ensures
        s.subrange(i + off, i + off + target.len()) == target,
{
    assert forall|k: int| 0 <= k < target.len() implies s[i + off + k] == target[k] by {
        lemma_point(s, i, w, off + k);
    }
    assert(s.subrange(i + off, i + off + target.len()) =~= target);
}

/// Parsing the serialization of a well-formed value, followed by a delimiter
/// or the end of input, gives back exactly that value.
#[verifier::rlimit(50)]
#[verifier::spinoff_prover]
pub proof fn lemma_parse_ser_value(t: SpecJson, s: Seq<char>, i: int)
    requires
        wf(t),
        0 <= i,
        i + ser(t).len() <= s.len(),
        s.subrange(i, i + ser(t).len()) == ser(t),
        i + ser(t).len() == s.len() || is_delim(s[i + ser(t).len()]),
    ensures
        parse_value(s, i) == Some((t, ser(t).len() as nat)),
    decreases t, 0int,
{
    let w = ser(t);
    let ll = w.len() as int;
    match t {
        SpecJson::Null => {
            lemma_point(s, i, w, 0);
            lemma_point(s, i, w, 1);
            lemma_point(s, i, w, 2);
            lemma_point(s, i, w, 3);
            assert(s[i] == 'n' && s[i + 1] == 'u' && s[i + 2] == 'l' && s[i + 3] == 'l');
            assert(parse_value(s, i) == Some((t, ser(t).len() as nat)));
        },
        SpecJson::Bool(b) => {
            if b {
                lemma_point(s, i, w, 0);
                lemma_point(s, i, w, 1);
                lemma_point(s, i, w, 2);
                lemma_point(s, i, w, 3);
                assert(s[i] == 't' && s[i + 1] == 'r' && s[i + 2] == 'u' && s[i + 3] == 'e');
                assert(parse_value(s, i) == Some((t, ser(t).len() as nat)));
            } else {
                lemma_point(s, i, w, 0);
                lemma_point(s, i, w, 1);
                lemma_point(s, i, w, 2);
                lemma_point(s, i, w, 3);
                lemma_point(s, i, w, 4);
                assert(s[i] == 'f' && s[i + 1] == 'a' && s[i + 2] == 'l' && s[i + 3] == 's' && s[i
                    + 4] == 'e');
                assert(parse_value(s, i) == Some((t, ser(t).len() as nat)));
            }
        },
        SpecJson::Num(lex) => {
            lemma_point(s, i, w, 0);
            assert(s[i] == lex[0]);
            lemma_parse_int_lexeme(lex, s, i);
            assert(s.subrange(i, i + ll) == lex);
            assert(parse_value(s, i) == Some((t, ser(t).len() as nat)));
        },
        SpecJson::Str(content) => {
            lemma_point(s, i, w, 0);
            assert(w[0] == '"');
            lemma_parse_ser_string(content, s, i);
            assert(parse_value(s, i) == Some((t, ser(t).len() as nat)));
        },
        SpecJson::Arr(es) => {
            let q = ser_elems(es);
            lemma_point(s, i, w, 0);
            assert(w[0] == '[');
            assert(s[i] == '[');
            if es.len() == 0 {
                assert(es =~= Seq::<SpecJson>::empty());
                assert(q =~= Seq::<char>::empty());
                assert(w =~= seq!['[', ']']);
                lemma_point(s, i, w, 1);
                assert(s[i + 1] == ']');
                assert(ws_len(s, i + 1) == 0);
                assert(parse_value(s, i) == Some((t, ser(t).len() as nat)));
            } else {
                lemma_ser_elems_first(es);
                lemma_ser_first(es[0]);
                assert(q[0] == ser(es[0])[0]);
                lemma_point(s, i, w, 1);
                assert(w[1] == q[0]);
                assert(is_value_start(s[i + 1]));
                assert(!is_ws(s[i + 1]) && s[i + 1] != ']');
                assert(ws_len(s, i + 1) == 0);
                lemma_subrange_shift(s, i, w, 1, q + seq![']']);
                assert(decreases_to!(t => es));
                lemma_parse_ser_elems(es, s, i + 1);
                assert(parse_elems(s, i + 1) == Some((es, (q.len() + 1) as nat)));
                assert((i + 1 + (q.len() + 1)) - i == ll);
                assert(parse_value(s, i) == Some((t, ser(t).len() as nat)));
            }
        },
        SpecJson::Obj(ms) => {
            let q = ser_members(ms);
            lemma_point(s, i, w, 0);
            assert(w[0] == '{');
            assert(s[i] == '{');
            if ms.len() == 0 {
                assert(ms =~= Seq::<(Seq<char>, SpecJson)>::empty());
                assert(q =~= Seq::<char>::empty());
                assert(w =~= seq!['{', '}']);
                lemma_point(s, i, w, 1);
                assert(s[i + 1] == '}');
                assert(ws_len(s, i + 1) == 0);
                assert(parse_value(s, i) == Some((t, ser(t).len() as nat)));
            } else {
                lemma_ser_members_first(ms);
                assert(q[0] == ser_string(ms[0].0)[0]);
                assert(ser_string(ms[0].0)[0] == '"');
                lemma_point(s, i, w, 1);
                assert(w[1] == q[0]);
                assert(s[i + 1] == '"');
                assert(ws_len(s, i + 1) == 0);
                lemma_subrange_shift(s, i, w, 1, q + seq!['}']);
                assert(decreases_to!(t => ms));
                lemma_parse_ser_members(ms, s, i + 1);
                assert(parse_members(s, i + 1) == Some((ms, (q.len() + 1) as nat)));
                assert((i + 1 + (q.len() + 1)) - i == ll);
                assert(parse_value(s, i) == Some((t, ser(t).len() as nat)));
            }
        },
    }
}

/// Parsing the serialization of a nonempty element list, followed by the
/// closing bracket, gives back exactly those elements.
#[verifier::rlimit(50)]
#[verifier::spinoff_prover]
pub proof fn lemma_parse_ser_elems(es: Seq<SpecJson>, s: Seq<char>, i: int)
    requires
        es.len() >= 1,
        forall|k: int| 0 <= k < es.len() ==> wf(#[trigger] es[k]),
        0 <= i,
        i + ser_elems(es).len() + 1 <= s.len(),
        s.subrange(i, i + ser_elems(es).len() + 1) == ser_elems(es) + seq![']'],
    ensures
        parse_elems(s, i) == Some((es, (ser_elems(es).len() + 1) as nat)),
    decreases es, 1int,
{
    let q = ser_elems(es);
    let full = q + seq![']'];
    let e0 = es[0];
    let w0 = ser(e0);
    let l0 = w0.len() as int;
    lemma_ser_elems_first(es);
    lemma_ser_first(e0);
    assert(forall|k: int| 0 <= k < l0 ==> q[k] == #[trigger] w0[k]);
    lemma_subrange_shift(s, i, full, 0, w0);
    lemma_point(s, i, full, l0);
    if es.len() == 1 {
        assert(q == w0);
        assert(full[l0] == ']');
        assert(s[i + l0] == ']');
        assert(decreases_to!(es => es[0]));
        lemma_parse_ser_value(e0, s, i);
        assert(ws_len(s, i + l0) == 0);
        assert(seq![e0] =~= es);
    } else {
        let rest = es.drop_first();
        let qr = ser_elems(rest);
        assert(q == w0 + seq![','] + qr);
        assert(full[l0] == ',');
        assert(s[i + l0] == ',');
        assert(decreases_to!(es => es[0]));
        lemma_parse_ser_value(e0, s, i);
        assert(ws_len(s, i + l0) == 0);
        let m = i + l0 + 1;
        lemma_ser_elems_first(rest);
        lemma_ser_first(rest[0]);
        assert(qr[0] == ser(rest[0])[0]);
        lemma_point(s, i, full, l0 + 1);
        assert(full[l0 + 1] == qr[0]);
        assert(is_value_start(s[m]));
        assert(!is_ws(s[m]));
        assert(ws_len(s, m) == 0);
        assert(forall|k: int| 0 <= k < qr.len() + 1 ==> full[(l0 + 1) + k] == #[trigger] (qr
            + seq![']'])[k]);
        lemma_subrange_shift(s, i, full, l0 + 1, qr + seq![']']);
        assert(decreases_to!(es => rest));
        lemma_parse_ser_elems(rest, s, m);
        assert(seq![e0] + rest =~= es);
        assert((m + (qr.len() + 1)) - i == q.len() + 1);
    }
}

/// Parsing the serialization of a nonempty member list, followed by the
/// closing brace, gives back exactly those members.
#[verifier::rlimit(50)]
#[verifier::spinoff_prover]
pub proof fn lemma_parse_ser_members(ms: Seq<(Seq<char>, SpecJson)>, s: Seq<char>, i: int)
    requires
        ms.len() >= 1,
        forall|k: int| 0 <= k < ms.len() ==> wf(#[trigger] ms[k].1),
        0 <= i,
        i + ser_members(ms).len() + 1 <= s.len(),
        s.subrange(i, i + ser_members(ms).len() + 1) == ser_members(ms) + seq!['}'],
    ensures
        parse_members(s, i) == Some((ms, (ser_members(ms).len() + 1) as nat)),
    decreases ms, 1int,
{
    let q = ser_members(ms);
    let full = q + seq!['}'];
    let key = ms[0].0;
    let v0 = ms[0].1;
    let wk = ser_string(key);
    let lk = wk.len() as int;
    let wv = ser(v0);
    let lv = wv.len() as int;
    lemma_ser_members_first(ms);
    lemma_ser_first(v0);
    assert(forall|k: int| 0 <= k < lk ==> q[k] == #[trigger] wk[k]);
    lemma_subrange_shift(s, i, full, 0, wk);
    lemma_parse_ser_string(key, s, i);
    lemma_point(s, i, full, lk);
    assert(full[lk] == ':');
    assert(s[i + lk] == ':');
    assert(ws_len(s, i + lk) == 0);
    let m = i + lk + 1;
    lemma_point(s, i, full, lk + 1);
    assert(full[lk + 1] == wv[0]);
    assert(is_value_start(s[m]));
    assert(ws_len(s, m) == 0);
    assert(forall|k: int| 0 <= k < lv ==> full[(lk + 1) + k] == #[trigger] wv[k]);
    lemma_subrange_shift(s, i, full, lk + 1, wv);
    lemma_point(s, i, full, lk + 1 + lv);
    if ms.len() == 1 {
        assert(full[lk + 1 + lv] == '}');
        assert(s[m + lv] == '}');
        assert(decreases_to!(ms => ms[0]));
        assert(decreases_to!(ms[0] => ms[0].1));
        lemma_parse_ser_value(v0, s, m);
        assert(ws_len(s, m + lv) == 0);
        assert(seq![(key, v0)] =~= ms);
        assert((m + lv + 1) - i == q.len() + 1);
    } else {
        let rest = ms.drop_first();
        let qr = ser_members(rest);
        assert(q == wk + seq![':'] + wv + seq![','] + qr);
        assert(full[lk + 1 + lv] == ',');
        assert(s[m + lv] == ',');
        assert(decreases_to!(ms => ms[0]));
        assert(decreases_to!(ms[0] => ms[0].1));
        lemma_parse_ser_value(v0, s, m);
        assert(ws_len(s, m + lv) == 0);
        let p = m + lv + 1;
        lemma_ser_members_first(rest);
        assert(qr[0] == ser_string(rest[0].0)[0]);
        assert(ser_string(rest[0].0)[0] == '"');
        lemma_point(s, i, full, lk + 1 + lv + 1);
        assert(full[lk + 1 + lv + 1] == qr[0]);
        assert(s[p] == '"');
        assert(ws_len(s, p) == 0);
        assert(forall|k: int| 0 <= k < qr.len() + 1 ==> full[(lk + 1 + lv + 1) + k] == #[trigger] (
        qr + seq!['}'])[k]);
        lemma_subrange_shift(s, i, full, lk + 1 + lv + 1, qr + seq!['}']);
        assert(decreases_to!(ms => rest));
        lemma_parse_ser_members(rest, s, p);
        assert(seq![(key, v0)] + rest =~= ms);
        assert((p + (qr.len() + 1)) - i == q.len() + 1);
    }
}

/// The round-trip law of the wire format: parsing the serialization of any
/// well-formed tree yields exactly that tree.
pub proof fn lemma_parse_of_ser(t: SpecJson)
    requires
        wf(t),
    ensures
        parse_doc(ser(t)) == Some(t),
{
    let s = ser(t);
    lemma_ser_first(t);
    assert(s.subrange(0, s.len() as int) =~= s);
    assert(!is_ws(s[0]));
    assert(ws_len(s, 0) == 0);
    lemma_parse_ser_value(t, s, 0);
    assert(ws_len(s, s.len() as int) == 0);
}

} // verus!
