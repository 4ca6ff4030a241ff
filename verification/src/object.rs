//! The typed-object capability: how every schema type exposes its tag and
//! correlation token, and how trees are read into and written from values.
use vstd::prelude::*;

use crate::errors::DecodeError;
use crate::errors::EncodeError;
use crate::errors::SpecDecodeError;
use crate::errors::err_matches;
use crate::json::JsonMember;
use crate::json::JsonValue;
use crate::json::SpecJson;
use crate::json::i64_lex;
use crate::json::lex_to_i64;
use crate::json::ser;
use crate::json::to_text;
use crate::json::view_elems;
use crate::json::view_members;
use crate::json::view_rec;
use crate::json::wf;
use crate::json::write_i64;
use crate::json::parse_i64_chars;
use crate::parse::parse_doc;
use crate::parse::parse_text;
use crate::trusted::chars_to_string;
use crate::trusted::fresh_token;
use crate::trusted::str_chars;

verus! {

// ---------------------------------------------------------------------------
// Reading fields of a tagged value
// ---------------------------------------------------------------------------
/// The first member with the given key, if any.
pub open spec fn get_spec(ms: Seq<(Seq<char>, SpecJson)>, name: Seq<char>) -> Option<SpecJson>
    decreases ms.len(),
{
    if ms.len() == 0 {
        None
    } else if ms[0].0 == name {
        Some(ms[0].1)
    } else {
        get_spec(ms.drop_first(), name)
    }
}

/// The named field of a tagged value.
pub open spec fn field_of(t: SpecJson, name: Seq<char>) -> Option<SpecJson> {
    match t {
        SpecJson::Obj(ms) => get_spec(ms, name),
        _ => None,
    }
}

/// The discriminator of a tagged value: its `@type` field, which must be a
/// string.
pub open spec fn tag_of(t: SpecJson) -> Option<Seq<char>> {
    match field_of(t, "@type"@) {
        Some(SpecJson::Str(s)) => Some(s),
        _ => None,
    }
}

/// An integer read from a tree: a number lexeme or a numeric string.
pub open spec fn as_i64_spec(t: SpecJson) -> Option<i64> {
    match t {
        SpecJson::Num(lex) => lex_to_i64(lex),
        SpecJson::Str(s) => lex_to_i64(s),
        _ => None,
    }
}

pub open spec fn spec_field_i64(t: SpecJson, name: Seq<char>) -> Option<i64> {
    match field_of(t, name) {
        Some(f) => as_i64_spec(f),
        None => None,
    }
}

pub open spec fn spec_field_isize(t: SpecJson, name: Seq<char>) -> Option<isize> {
    match spec_field_i64(t, name) {
        Some(v) => if isize::MIN <= v <= isize::MAX {
            Some(v as isize)
        } else {
            None
        },
        None => None,
    }
}

pub open spec fn spec_field_bool(t: SpecJson, name: Seq<char>) -> Option<bool> {
    match field_of(t, name) {
        Some(SpecJson::Bool(b)) => Some(b),
        _ => None,
    }
}

pub open spec fn spec_field_str(t: SpecJson, name: Seq<char>) -> Option<Seq<char>> {
    match field_of(t, name) {
        Some(SpecJson::Str(s)) => Some(s),
        _ => None,
    }
}

/// An optional string field: absent and `null` both mean none; the outer
/// `None` means the field is present with the wrong shape.
pub open spec fn spec_field_opt_str(t: SpecJson, name: Seq<char>) -> Option<Option<Seq<char>>> {
    match field_of(t, name) {
        None => Some(None),
        Some(SpecJson::Null) => Some(None),
        Some(SpecJson::Str(s)) => Some(Some(s)),
        Some(_) => None,
    }
}

pub open spec fn spec_field_opt_bool(t: SpecJson, name: Seq<char>) -> Option<Option<bool>> {
    match field_of(t, name) {
        None => Some(None),
        Some(SpecJson::Null) => Some(None),
        Some(SpecJson::Bool(b)) => Some(Some(b)),
        Some(_) => None,
    }
}

/// How an executable optional string realizes a mathematical one.
pub open spec fn opt_str_eqv(x: Option<String>, s: Option<Seq<char>>) -> bool {
    match (x, s) {
        (Option::None, Option::None) => true,
        (Option::Some(a), Option::Some(b)) => a@ == b,
        _ => false,
    }
}

/// The correlation token of a tagged value, when it is present and a string.
pub open spec fn extra_of(t: SpecJson) -> Option<Seq<char>> {
    match spec_field_opt_str(t, "@extra"@) {
        Some(o) => o,
        None => None,
    }
}

// ---------------------------------------------------------------------------
// The wire capability every schema type implements
// ---------------------------------------------------------------------------
/// How a typed value moves between its strongly-typed form and the tagged
/// tree of the wire format. `wire_tree` is the mathematical encoding;
/// `accepts` says exactly which trees decode; `decodes_from` pins every field
/// of a decoded value; `err_of` names the error on every rejected tree.
pub trait Wire: Sized {
    /// The fixed discriminator of this type, or of the populated alternative.
    spec fn wire_tree(self) -> Option<SpecJson>;

    spec fn accepts(t: SpecJson) -> bool;

    spec fn err_of(t: SpecJson) -> SpecDecodeError;

    spec fn decodes_from(t: SpecJson, v: Self) -> bool;

    /// Equality of contents: fields agree, strings by their characters.
    spec fn eqv(self, other: Self) -> bool;

    /// An independent copy with the same contents.
    fn clone_val(&self) -> (r: Self)
        ensures
            r.eqv(*self),
    ;

    fn decode_tree(t: &JsonValue) -> (r: Result<Self, DecodeError>)
        ensures
            match r {
                Ok(v) => Self::accepts(t@) && Self::decodes_from(t@, v),
                Err(e) => !Self::accepts(t@) && err_matches(e, Self::err_of(t@)),
            },
    ;

    fn encode_tree(&self) -> (r: Result<JsonValue, EncodeError>)
        ensures
            match self.wire_tree() {
                Some(t) => r matches Ok(jv) && jv@ == t,
                None => r matches Err(e) && e == EncodeError::Unrepresentable,
            },
    ;

    /// Every tree the encoder builds is well formed.
    proof fn lemma_wire_wf(v: Self)
        ensures
            v.wire_tree() matches Some(t) ==> wf(t),
    ;

    /// The encoding of a value is accepted back, and only values with the
    /// same contents decode from it.
    proof fn lemma_round_trip(v: Self)
        ensures
            v.wire_tree() matches Some(t) ==> Self::accepts(t) && (forall|w: Self|
                Self::decodes_from(t, w) ==> #[trigger] w.eqv(v)),
    ;
}

/// Field agreement predicates, used by the types' `decodes_from`.
pub open spec fn m_i64(t: SpecJson, name: Seq<char>, x: i64) -> bool {
    spec_field_i64(t, name) == Some(x)
}

pub open spec fn m_isize(t: SpecJson, name: Seq<char>, x: isize) -> bool {
    spec_field_isize(t, name) == Some(x)
}

pub open spec fn m_bool(t: SpecJson, name: Seq<char>, x: bool) -> bool {
    spec_field_bool(t, name) == Some(x)
}

pub open spec fn m_str(t: SpecJson, name: Seq<char>, x: Seq<char>) -> bool {
    spec_field_str(t, name) == Some(x)
}

pub open spec fn m_opt_str(t: SpecJson, name: Seq<char>, x: Option<String>) -> bool {
    match spec_field_opt_str(t, name) {
        Some(o) => opt_str_eqv(x, o),
        None => false,
    }
}

pub open spec fn m_opt_bool(t: SpecJson, name: Seq<char>, x: Option<bool>) -> bool {
    spec_field_opt_bool(t, name) == Some(x)
}

pub open spec fn m_custom<T: Wire>(t: SpecJson, name: Seq<char>, x: T) -> bool {
    match field_of(t, name) {
        Some(f) => T::decodes_from(f, x),
        None => false,
    }
}

pub open spec fn m_opt_custom<T: Wire>(t: SpecJson, name: Seq<char>, x: Option<T>) -> bool {
    match field_of(t, name) {
        None => x is None,
        Some(f) => if f is Null {
            x is None
        } else {
            x matches Some(y) && T::decodes_from(f, y)
        },
    }
}

pub open spec fn vec_decodes_from<T: Wire>(es: Seq<SpecJson>, v: Seq<T>) -> bool {
    v.len() == es.len() && forall|k: int|
        0 <= k < es.len() ==> T::decodes_from(#[trigger] es[k], v[k])
}

pub open spec fn m_vec_custom<T: Wire>(t: SpecJson, name: Seq<char>, x: Vec<T>) -> bool {
    match field_of(t, name) {
        Some(SpecJson::Arr(es)) => vec_decodes_from(es, x@),
        _ => false,
    }
}

pub open spec fn vec_str_eqv(x: Seq<String>, es: Seq<SpecJson>) -> bool {
    x.len() == es.len() && forall|k: int|
        0 <= k < es.len() ==> (#[trigger] es[k] matches SpecJson::Str(s) && x[k]@ == s)
}

pub open spec fn m_vec_str(t: SpecJson, name: Seq<char>, x: Vec<String>) -> bool {
    match field_of(t, name) {
        Some(SpecJson::Arr(es)) => vec_str_eqv(x@, es),
        _ => false,
    }
}

/// Field decodability predicates, used by the types' `accepts`.
pub open spec fn ok_i64(t: SpecJson, name: Seq<char>) -> bool {
    spec_field_i64(t, name) is Some
}

pub open spec fn ok_isize(t: SpecJson, name: Seq<char>) -> bool {
    spec_field_isize(t, name) is Some
}

pub open spec fn ok_bool(t: SpecJson, name: Seq<char>) -> bool {
    spec_field_bool(t, name) is Some
}

pub open spec fn ok_str(t: SpecJson, name: Seq<char>) -> bool {
    spec_field_str(t, name) is Some
}

pub open spec fn ok_opt_str(t: SpecJson, name: Seq<char>) -> bool {
    spec_field_opt_str(t, name) is Some
}

pub open spec fn ok_opt_bool(t: SpecJson, name: Seq<char>) -> bool {
    spec_field_opt_bool(t, name) is Some
}

pub open spec fn ok_custom<T: Wire>(t: SpecJson, name: Seq<char>) -> bool {
    match field_of(t, name) {
        Some(f) => T::accepts(f),
        None => false,
    }
}

pub open spec fn ok_opt_custom<T: Wire>(t: SpecJson, name: Seq<char>) -> bool {
    match field_of(t, name) {
        None => true,
        Some(f) => f is Null || T::accepts(f),
    }
}

pub open spec fn all_accept<T: Wire>(es: Seq<SpecJson>) -> bool {
    forall|k: int| 0 <= k < es.len() ==> T::accepts(#[trigger] es[k])
}

pub open spec fn ok_vec_custom<T: Wire>(t: SpecJson, name: Seq<char>) -> bool {
    match field_of(t, name) {
        Some(SpecJson::Arr(es)) => all_accept::<T>(es),
        _ => false,
    }
}

pub open spec fn all_str(es: Seq<SpecJson>) -> bool {
    forall|k: int| 0 <= k < es.len() ==> #[trigger] es[k] is Str
}

pub open spec fn ok_vec_str(t: SpecJson, name: Seq<char>) -> bool {
    match field_of(t, name) {
        Some(SpecJson::Arr(es)) => all_str(es),
        _ => false,
    }
}

/// The tree of an optional string field on the way out.
pub open spec fn opt_str_tree(x: Option<Seq<char>>) -> SpecJson {
    match x {
        Some(s) => SpecJson::Str(s),
        None => SpecJson::Null,
    }
}

/// The view of an executable optional string.
pub open spec fn opt_str_view(x: Option<String>) -> Option<Seq<char>> {
    match x {
        Some(s) => Some(s@),
        None => None,
    }
}

/// The trees of an encodable sequence, if every element is encodable.
pub open spec fn vec_wire<T: Wire>(s: Seq<T>) -> Option<Seq<SpecJson>>
    decreases s.len(),
{
    if s.len() == 0 {
        Some(Seq::empty())
    } else {
        match vec_wire::<T>(s.drop_last()) {
            Some(es) => match s.last().wire_tree() {
                Some(t) => Some(es.push(t)),
                None => None,
            },
            None => None,
        }
    }
}

pub open spec fn vec_str_trees(s: Seq<String>) -> Seq<SpecJson> {
    Seq::new(s.len(), |k: int| SpecJson::Str(s[k]@))
}

// ---------------------------------------------------------------------------
// Executable field readers
// ---------------------------------------------------------------------------
/// Whether two strings have the same characters.
pub fn str_eq(a: &str, b: &str) -> (r: bool)
    ensures
        r == (a@ == b@),
{
    let sa = String::from_str(a);
    let sb = String::from_str(b);
    sa.eq(&sb)
}

/// The named field of a tagged value.
pub fn get_field<'a>(v: &'a JsonValue, name: &str) -> (r: Option<&'a JsonValue>)
    ensures
        match field_of(v@, name@) {
            Some(ft) => r matches Some(x) && x@ == ft,
            None => r is None,
        },
{
    match v {
        JsonValue::Obj(members) => {
            proof {
                crate::json::lemma_view_members(members@);
            }
            let ghost ms = view_members(members@);
            proof {
                assert(ms.skip(0) =~= ms);
            }
            let n = members.len();
            let mut i: usize = 0;
            while i < n
                invariant
                    n == members.len(),
                    ms == view_members(members@),
                    ms.len() == n,
                    forall|k: int| 0 <= k < n ==> ms[k] == (members@[k].key@, view_rec(
                        members@[k].value,
                    )),
                    i <= n,
                    v@ == SpecJson::Obj(ms),
                    get_spec(ms, name@) == get_spec(ms.skip(i as int), name@),
                decreases n - i,
            {
                proof {
                    assert(ms.skip(i as int)[0] == ms[i as int]);
                    assert(ms.skip(i as int).drop_first() =~= ms.skip(i + 1));
                }
                if str_eq(members[i].key.as_str(), name) {
                    return Some(&members[i].value);
                }
                i = i + 1;
            }
            proof {
                assert(ms.skip(n as int) =~= Seq::<(Seq<char>, SpecJson)>::empty());
            }
            None
        },
        _ => None,
    }
}

/// Reads the discriminator of a tagged value.
pub fn get_tag(v: &JsonValue) -> (r: Option<String>)
    ensures
        match tag_of(v@) {
            Some(g) => r matches Some(x) && x@ == g,
            None => r is None,
        },
{
    match get_field(v, "@type") {
        Some(JsonValue::Str(s)) => Some(s.clone()),
        _ => None,
    }
}

fn as_i64_of(f: &JsonValue) -> (r: Option<i64>)
    ensures
        r == as_i64_spec(f@),
{
    match f {
        JsonValue::Num(lex) => {
            let cs = str_chars(lex.as_str());
            parse_i64_chars(&cs)
        },
        JsonValue::Str(s) => {
            let cs = str_chars(s.as_str());
            parse_i64_chars(&cs)
        },
        _ => None,
    }
}

pub fn field_i64(v: &JsonValue, name: &str) -> (r: Option<i64>)
    ensures
        r == spec_field_i64(v@, name@),
{
    match get_field(v, name) {
        Some(f) => as_i64_of(f),
        None => None,
    }
}

pub fn field_isize(v: &JsonValue, name: &str) -> (r: Option<isize>)
    ensures
        r == spec_field_isize(v@, name@),
{
    match field_i64(v, name) {
        Some(x) => {
            if x >= isize::MIN as i64 && x <= isize::MAX as i64 {
                Some(x as isize)
            } else {
                None
            }
        },
        None => None,
    }
}

pub fn field_bool(v: &JsonValue, name: &str) -> (r: Option<bool>)
    ensures
        r == spec_field_bool(v@, name@),
{
    match get_field(v, name) {
        Some(JsonValue::Bool(b)) => Some(*b),
        _ => None,
    }
}

pub fn field_string(v: &JsonValue, name: &str) -> (r: Option<String>)
    ensures
        match spec_field_str(v@, name@) {
            Some(s) => r matches Some(x) && x@ == s,
            None => r is None,
        },
{
    match get_field(v, name) {
        Some(JsonValue::Str(s)) => Some(s.clone()),
        _ => None,
    }
}

pub fn field_opt_string(v: &JsonValue, name: &str) -> (r: Option<Option<String>>)
    ensures
        match spec_field_opt_str(v@, name@) {
            Some(o) => r matches Some(x) && opt_str_eqv(x, o),
            None => r is None,
        },
{
    match get_field(v, name) {
        None => Some(None),
        Some(JsonValue::Null) => Some(None),
        Some(JsonValue::Str(s)) => Some(Some(s.clone())),
        Some(_) => None,
    }
}

pub fn field_opt_bool(v: &JsonValue, name: &str) -> (r: Option<Option<bool>>)
    ensures
        r == spec_field_opt_bool(v@, name@),
{
    match get_field(v, name) {
        None => Some(None),
        Some(JsonValue::Null) => Some(None),
        Some(JsonValue::Bool(b)) => Some(Some(*b)),
        Some(_) => None,
    }
}

/// Decodes every element of an array field; `None` on any failure.
pub fn decode_vec<T: Wire>(arr: &Vec<JsonValue>) -> (r: Option<Vec<T>>)
    ensures
        ({
            let es = view_elems(arr@);
            match r {
                Some(x) => all_accept::<T>(es) && vec_decodes_from(es, x@),
                None => !all_accept::<T>(es),
            }
        }),
{
    proof {
        crate::json::lemma_view_elems(arr@);
    }
    let ghost es = view_elems(arr@);
    let mut out: Vec<T> = Vec::new();
    let n = arr.len();
    let mut i: usize = 0;
    while i < n
        invariant
            n == arr.len(),
            es == view_elems(arr@),
            es.len() == n,
            forall|k: int| 0 <= k < n ==> es[k] == view_rec(arr@[k]),
            i <= n,
            out@.len() == i,
            forall|k: int| 0 <= k < i ==> T::accepts(#[trigger] es[k]) && T::decodes_from(
                es[k],
                out@[k],
            ),
        decreases n - i,
    {
        match T::decode_tree(&arr[i]) {
            Ok(x) => {
                out.push(x);
            },
            Err(_) => {
                proof {
                    assert(!T::accepts(es[i as int]));
                }
                return None;
            },
        }
        i = i + 1;
    }
    Some(out)
}

/// Reads every element of an array of strings; `None` on any other shape.
pub fn decode_vec_string(arr: &Vec<JsonValue>) -> (r: Option<Vec<String>>)
    ensures
        ({
            let es = view_elems(arr@);
            match r {
                Some(x) => all_str(es) && vec_str_eqv(x@, es),
                None => !all_str(es),
            }
        }),
{
    proof {
        crate::json::lemma_view_elems(arr@);
    }
    let ghost es = view_elems(arr@);
    let mut out: Vec<String> = Vec::new();
    let n = arr.len();
    let mut i: usize = 0;
    while i < n
        invariant
            n == arr.len(),
            es == view_elems(arr@),
            es.len() == n,
            forall|k: int| 0 <= k < n ==> es[k] == view_rec(arr@[k]),
            i <= n,
            out@.len() == i,
            forall|k: int|
                0 <= k < i ==> (#[trigger] es[k] matches SpecJson::Str(s) && out@[k]@ == s),
        decreases n - i,
    {
        match &arr[i] {
            JsonValue::Str(s) => {
                out.push(s.clone());
            },
            _ => {
                proof {
                    assert(!(es[i as int] is Str));
                }
                return None;
            },
        }
        i = i + 1;
    }
    Some(out)
}

// ---------------------------------------------------------------------------
// Executable encoders for fields
// ---------------------------------------------------------------------------
/// The canonical lexeme of an integer, as a string.
pub fn i64_lexeme(n: i64) -> (r: String)
    ensures
        r@ == i64_lex(n as int),
{
    let mut out: Vec<char> = Vec::new();
    write_i64(n, &mut out);
    chars_to_string(&out)
}

pub fn opt_string_tree(x: &Option<String>) -> (r: JsonValue)
    ensures
        r@ == opt_str_tree(opt_str_view(*x)),
{
    match x {
        Some(s) => JsonValue::Str(s.clone()),
        None => JsonValue::Null,
    }
}

/// Encodes every element of a sequence of typed values.
pub fn encode_vec<T: Wire>(v: &Vec<T>) -> (r: Result<Vec<JsonValue>, EncodeError>)
    ensures
        match vec_wire::<T>(v@) {
            Some(es) => r matches Ok(a) && view_elems(a@) == es,
            None => r matches Err(e) && e == EncodeError::Unrepresentable,
        },
{
    let mut out: Vec<JsonValue> = Vec::new();
    let n = v.len();
    let mut i: usize = 0;
    proof {
        assert(view_elems(out@) =~= Seq::<SpecJson>::empty());
    }
    while i < n
        invariant
            n == v@.len(),
            i <= n,
            vec_wire::<T>(v@.take(i as int)) == Some(view_elems(out@)),
        decreases n - i,
    {
        let ghost prev = view_elems(out@);
        let ghost prevv = out@;
        match v[i].encode_tree() {
            Ok(jv) => {
                let ghost jvv = jv@;
                out.push(jv);
                proof {
                    assert(out@.drop_last() =~= prevv);
                    assert(out@.last() == prevv.push(out@.last()).last());
                    assert(view_elems(out@) =~= prev.push(jvv));
                    assert(v@.take(i + 1).drop_last() =~= v@.take(i as int));
                    assert(v@.take(i + 1).last() == v@[i as int]);
                }
            },
            Err(e) => {
                proof {
                    lemma_vec_wire_prefix_none::<T>(v@, i as int);
                }
                return Err(e);
            },
        }
        i = i + 1;
    }
    proof {
        assert(v@.take(n as int) =~= v@);
    }
    Ok(out)
}

/// If one element cannot be encoded, the whole sequence cannot.
proof fn lemma_vec_wire_prefix_none<T: Wire>(s: Seq<T>, i: int)
    requires
        0 <= i < s.len(),
        s[i].wire_tree() is None,
    ensures
        vec_wire::<T>(s) is None,
    decreases s.len(),
{
    if s.len() > 0 {
        if i == s.len() - 1 {
            assert(s.last() == s[i]);
        } else {
            lemma_vec_wire_prefix_none::<T>(s.drop_last(), i);
        }
    }
}

/// Every element encodable means the whole sequence is, pointwise.
pub proof fn lemma_vec_wire_some<T: Wire>(s: Seq<T>)
    requires
        forall|k: int| 0 <= k < s.len() ==> (#[trigger] s[k].wire_tree()) is Some,
    ensures
        vec_wire::<T>(s) matches Some(es) && es.len() == s.len() && forall|k: int|
            0 <= k < s.len() ==> #[trigger] es[k] == s[k].wire_tree()->0,
    decreases s.len(),
{
    if s.len() > 0 {
        lemma_vec_wire_some::<T>(s.drop_last());
    }
}

pub fn encode_vec_string(v: &Vec<String>) -> (r: Vec<JsonValue>)
    ensures
        view_elems(r@) == vec_str_trees(v@),
{
    let mut out: Vec<JsonValue> = Vec::new();
    let n = v.len();
    let mut i: usize = 0;
    proof {
        assert(view_elems(out@) =~= Seq::<SpecJson>::empty());
        assert(view_elems(out@) =~= vec_str_trees(v@.take(0)));
    }
    while i < n
        invariant
            n == v@.len(),
            i <= n,
            view_elems(out@) == vec_str_trees(v@.take(i as int)),
        decreases n - i,
    {
        let ghost prev = view_elems(out@);
        let ghost prevv = out@;
        let node = JsonValue::Str(v[i].clone());
        let ghost nodev = view_rec(node);
        out.push(node);
        proof {
            assert(out@.drop_last() =~= prevv);
            assert(view_rec(out@.last()) == nodev);
            assert(nodev == SpecJson::Str(v@[i as int]@));
            assert(view_elems(out@) =~= prev.push(SpecJson::Str(v@[i as int]@)));
            assert(view_elems(out@) =~= vec_str_trees(v@.take(i + 1)));
        }
        i = i + 1;
    }
    proof {
        assert(v@.take(n as int) =~= v@);
    }
    out
}

// ---------------------------------------------------------------------------
// The uniform object capability and the generic entry points
// ---------------------------------------------------------------------------
/// The capability every concrete schema type and every variant implements:
/// its own tag, its correlation token, and serialization to wire text.
pub trait RObject: Wire {
    /// The discriminator this value carries: the fixed tag of its concrete
    /// type, or of the populated alternative.
    spec fn tag_chars(&self) -> Seq<char>;

    /// The correlation token, if this value carries one.
    spec fn extra_spec(&self) -> Option<Seq<char>>;

    fn td_name(&self) -> (r: &'static str)
        ensures
            r@ == self.tag_chars(),
    ;

    fn extra(&self) -> (r: Option<String>)
        ensures
            opt_str_eqv(r, self.extra_spec()),
    ;

    fn to_json(&self) -> (r: Result<String, EncodeError>)
        ensures
            match self.wire_tree() {
                Some(t) => r matches Ok(s) && s@ == ser(t),
                None => r matches Err(e) && e == EncodeError::Unrepresentable,
            },
    ;
}

/// Marker for the request types of the schema.
pub trait RFunction: RObject {

}

/// Decodes wire text into any wire-capable type: the generic decode entry
/// point. Malformed text and a missing `@type` are rejected as `Malformed`;
/// everything else is decided by the type's own `accepts`.
pub fn from_json<T: Wire>(json: &str) -> (r: Result<T, DecodeError>)
    ensures
        match parse_doc(json@) {
            Some(t) => match r {
                Ok(v) => T::accepts(t) && T::decodes_from(t, v),
                Err(e) => !T::accepts(t) && err_matches(e, T::err_of(t)),
            },
            None => r matches Err(e) && e == DecodeError::Malformed,
        },
{
    match parse_text(json) {
        Ok(tree) => T::decode_tree(&tree),
        Err(e) => Err(e),
    }
}

/// Serializes a typed value to wire text: the generic encode entry point.
pub fn encode<T: Wire>(value: &T) -> (r: Result<String, EncodeError>)
    ensures
        match value.wire_tree() {
            Some(t) => r matches Ok(s) && s@ == ser(t),
            None => r matches Err(e) && e == EncodeError::Unrepresentable,
        },
{
    match value.encode_tree() {
        Ok(tree) => Ok(to_text(&tree)),
        Err(e) => Err(e),
    }
}

/// The round trip of any wire-capable value: its wire text parses back to
/// exactly its tree, that tree is accepted, and every value that decodes
/// from it has the same contents.
pub proof fn lemma_wire_round_trip<T: Wire>(v: T)
    ensures
        v.wire_tree() matches Some(t) ==> {
            &&& parse_doc(ser(t)) == Some(t)
            &&& T::accepts(t)
            &&& forall|w: T| T::decodes_from(t, w) ==> #[trigger] w.eqv(v)
        },
{
    if v.wire_tree() is Some {
        T::lemma_wire_wf(v);
        crate::roundtrip::lemma_parse_of_ser(v.wire_tree()->0);
        T::lemma_round_trip(v);
    }
}

/// A fresh correlation token for a new request.
pub fn new_token() -> (r: String)
    ensures
        r@.len() == 36,
{
    fresh_token()
}

/// Equality of contents for optional strings.
pub open spec fn eqv_opt_string(a: Option<String>, b: Option<String>) -> bool {
    match (a, b) {
        (Option::None, Option::None) => true,
        (Option::Some(x), Option::Some(y)) => x@ == y@,
        _ => false,
    }
}

/// Equality of contents for string lists.
pub open spec fn eqv_vec_string(a: Vec<String>, b: Vec<String>) -> bool {
    a@.len() == b@.len() && forall|k: int| 0 <= k < a@.len() ==> a@[k]@ == #[trigger] b@[k]@
}

/// Equality of contents for lists of typed values.
pub open spec fn eqv_vec<T: Wire>(a: Vec<T>, b: Vec<T>) -> bool {
    a@.len() == b@.len() && forall|k: int| 0 <= k < a@.len() ==> a@[k].eqv(#[trigger] b@[k])
}

/// Equality of contents for optional typed values.
pub open spec fn eqv_opt<T: Wire>(a: Option<T>, b: Option<T>) -> bool {
    match (a, b) {
        (Option::None, Option::None) => true,
        (Option::Some(x), Option::Some(y)) => x.eqv(y),
        _ => false,
    }
}

pub fn clone_opt_string(x: &Option<String>) -> (r: Option<String>)
    ensures
        r == *x,
{
    match x {
        Some(s) => Some(s.clone()),
        None => None,
    }
}

pub fn clone_vec_string(v: &Vec<String>) -> (r: Vec<String>)
    ensures
        r@.len() == v@.len(),
        forall|k: int| 0 <= k < v@.len() ==> r@[k] == #[trigger] v@[k],
{
    let mut out: Vec<String> = Vec::new();
    let n = v.len();
    let mut i: usize = 0;
    while i < n
        invariant
            n == v@.len(),
            i <= n,
            out@.len() == i,
            forall|k: int| 0 <= k < i ==> out@[k] == #[trigger] v@[k],
        decreases n - i,
    {
        out.push(v[i].clone());
        i = i + 1;
    }
    out
}

/// Appends one member to an object under construction.
pub fn push_member(ms: &mut Vec<JsonMember>, key: &str, value: JsonValue)
    ensures
        view_members(final(ms)@) == view_members(old(ms)@).push((key@, value@)),
{
    let ghost prev = view_members(ms@);
    let ghost prevv = ms@;
    let ghost valv = value@;
    ms.push(JsonMember { key: String::from_str(key), value });
    proof {
        assert(ms@.drop_last() =~= prevv);
        assert(ms@.last().key@ == key@);
        assert(view_rec(ms@.last().value) == valv);
        assert(view_members(ms@) =~= prev.push((key@, valv)));
    }
}

pub fn clone_opt_bool(x: &Option<bool>) -> (r: Option<bool>)
    ensures
        r == *x,
{
    match x {
        Some(b) => Some(*b),
        None => None,
    }
}

pub fn clone_vec_i64(v: &Vec<i64>) -> (r: Vec<i64>)
    ensures
        r@ == v@,
{
    let mut out: Vec<i64> = Vec::new();
    let n = v.len();
    let mut i: usize = 0;
    while i < n
        invariant
            n == v@.len(),
            i <= n,
            out@ == v@.take(i as int),
        decreases n - i,
    {
        out.push(v[i]);
        proof {
            assert(v@.take(i + 1) =~= v@.take(i as int).push(v@[i as int]));
        }
        i = i + 1;
    }
    proof {
        assert(v@.take(n as int) =~= v@);
    }
    out
}

pub fn clone_opt<T: Wire>(x: &Option<T>) -> (r: Option<T>)
    ensures
        eqv_opt(r, *x),
{
    match x {
        Some(v) => Some(v.clone_val()),
        None => None,
    }
}

pub fn clone_vec<T: Wire>(v: &Vec<T>) -> (r: Vec<T>)
    ensures
        eqv_vec(r, *v),
{
    let mut out: Vec<T> = Vec::new();
    let n = v.len();
    let mut i: usize = 0;
    while i < n
        invariant
            n == v@.len(),
            i <= n,
            out@.len() == i,
            forall|k: int| 0 <= k < i ==> out@[k].eqv(#[trigger] v@[k]),
        decreases n - i,
    {
        out.push(v[i].clone_val());
        i = i + 1;
    }
    out
}

/// The tree of an optional boolean field on the way out.
pub open spec fn opt_bool_tree(x: Option<bool>) -> SpecJson {
    match x {
        Some(b) => SpecJson::Bool(b),
        None => SpecJson::Null,
    }
}

pub fn opt_bool_node(x: &Option<bool>) -> (r: JsonValue)
    ensures
        r@ == opt_bool_tree(*x),
{
    match x {
        Some(b) => JsonValue::Bool(*b),
        None => JsonValue::Null,
    }
}

/// The tree of an optional encodable field on the way out; meaningful only
/// when the field is encodable.
pub open spec fn opt_wire_val<T: Wire>(o: Option<T>) -> SpecJson {
    match o {
        None => SpecJson::Null,
        Some(x) => x.wire_tree()->0,
    }
}

pub open spec fn m_vec_i64(t: SpecJson, name: Seq<char>, x: Vec<i64>) -> bool {
    match field_of(t, name) {
        Some(SpecJson::Arr(es)) => x@.len() == es.len() && forall|k: int|
            0 <= k < es.len() ==> as_i64_spec(#[trigger] es[k]) == Some(x@[k]),
        _ => false,
    }
}

pub open spec fn ok_vec_i64(t: SpecJson, name: Seq<char>) -> bool {
    match field_of(t, name) {
        Some(SpecJson::Arr(es)) => forall|k: int|
            0 <= k < es.len() ==> as_i64_spec(#[trigger] es[k]) is Some,
        _ => false,
    }
}

pub open spec fn vec_i64_trees(s: Seq<i64>) -> Seq<SpecJson> {
    Seq::new(s.len(), |k: int| SpecJson::Num(i64_lex(s[k] as int)))
}

/// Reads every element of an array of integers; `None` on any other shape.
pub fn decode_vec_i64(arr: &Vec<JsonValue>) -> (r: Option<Vec<i64>>)
    ensures
        ({
            let es = view_elems(arr@);
            match r {
                Some(x) => x@.len() == es.len() && forall|k: int|
                    0 <= k < es.len() ==> as_i64_spec(#[trigger] es[k]) == Some(x@[k]),
                None => !(forall|k: int| 0 <= k < es.len() ==> as_i64_spec(#[trigger] es[k]) is Some),
            }
        }),
{
    proof {
        crate::json::lemma_view_elems(arr@);
    }
    let ghost es = view_elems(arr@);
    let mut out: Vec<i64> = Vec::new();
    let n = arr.len();
    let mut i: usize = 0;
    while i < n
        invariant
            n == arr.len(),
            es == view_elems(arr@),
            es.len() == n,
            forall|k: int| 0 <= k < n ==> es[k] == crate::json::view_rec(arr@[k]),
            i <= n,
            out@.len() == i,
            forall|k: int| 0 <= k < i ==> as_i64_spec(#[trigger] es[k]) == Some(out@[k]),
        decreases n - i,
    {
        match as_i64_of(&arr[i]) {
            Some(x) => {
                out.push(x);
            },
            None => {
                proof {
                    assert(as_i64_spec(es[i as int]) is None);
                }
                return None;
            },
        }
        i = i + 1;
    }
    Some(out)
}

pub fn encode_vec_i64(v: &Vec<i64>) -> (r: Vec<JsonValue>)
    ensures
        view_elems(r@) == vec_i64_trees(v@),
{
    let mut out: Vec<JsonValue> = Vec::new();
    let n = v.len();
    let mut i: usize = 0;
    proof {
        assert(view_elems(out@) =~= Seq::<SpecJson>::empty());
        assert(view_elems(out@) =~= vec_i64_trees(v@.take(0)));
    }
    while i < n
        invariant
            n == v@.len(),
            i <= n,
            view_elems(out@) == vec_i64_trees(v@.take(i as int)),
        decreases n - i,
    {
        let ghost prev = view_elems(out@);
        let ghost prevv = out@;
        let node = JsonValue::Num(i64_lexeme(v[i]));
        let ghost nodev = view_rec(node);
        out.push(node);
        proof {
            assert(out@.drop_last() =~= prevv);
            assert(view_rec(out@.last()) == nodev);
            assert(view_elems(out@) =~= prev.push(nodev));
            assert(view_elems(out@) =~= vec_i64_trees(v@.take(i + 1)));
        }
        i = i + 1;
    }
    proof {
        assert(v@.take(n as int) =~= v@);
    }
    out
}

/// A pointwise reading of an encodable sequence's trees.
pub proof fn lemma_vec_wire_elts<T: Wire>(s: Seq<T>)
    requires
        vec_wire::<T>(s) is Some,
    ensures
        (vec_wire::<T>(s)->0).len() == s.len(),
        forall|k: int| 0 <= k < s.len() ==> (#[trigger] s[k].wire_tree()) is Some,
        forall|k: int| 0 <= k < s.len() ==> (vec_wire::<T>(s)->0)[k] == (
        #[trigger] s[k].wire_tree())->0,
    decreases s.len(),
{
    if s.len() > 0 {
        lemma_vec_wire_elts::<T>(s.drop_last());
        let full = vec_wire::<T>(s)->0;
        let base = vec_wire::<T>(s.drop_last())->0;
        assert(full == base.push(s.last().wire_tree()->0));
        assert forall|k: int|
            0 <= k < s.len() implies (#[trigger] s[k].wire_tree()) is Some && full[k]
            == s[k].wire_tree()->0 by {
            if k < s.len() - 1 {
                assert(s.drop_last()[k] == s[k]);
                assert(full[k] == base[k]);
            } else {
                assert(s[k] == s.last());
            }
        }
    }
}

/// If the first `j` keys differ from `name` and the `j`-th key is `name`,
/// the lookup finds the `j`-th member.
pub proof fn lemma_get_spec_found(ms: Seq<(Seq<char>, SpecJson)>, name: Seq<char>, j: int)
    requires
        0 <= j < ms.len(),
        forall|k: int| 0 <= k < j ==> (#[trigger] ms[k]).0 != name,
        ms[j].0 == name,
    ensures
        get_spec(ms, name) == Some(ms[j].1),
    decreases j,
{
    if j == 0 {
    } else {
        assert(ms[0].0 != name);
        let tail = ms.drop_first();
        assert forall|k: int| 0 <= k < j - 1 implies (#[trigger] tail[k]).0 != name by {
            assert(tail[k] == ms[k + 1]);
        }
        assert(tail[j - 1] == ms[j]);
        lemma_get_spec_found(tail, name, j - 1);
    }
}

} // verus!
