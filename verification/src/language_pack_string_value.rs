use vstd::prelude::*;

use crate::errors::DecodeError;
use crate::errors::EncodeError;
use crate::errors::SpecDecodeError;
use crate::json::JsonMember;
use crate::json::JsonValue;
use crate::json::SpecJson;
use crate::json::view_members;
use crate::json::wf;
use crate::object::RObject;
use crate::object::Wire;
use crate::object::clone_opt_string;
use crate::object::eqv_opt_string;
use crate::object::field_opt_string;
use crate::object::field_string;
use crate::object::get_spec;
use crate::object::get_tag;
use crate::object::lemma_get_spec_found;
use crate::object::m_opt_str;
use crate::object::m_str;
use crate::object::new_token;
use crate::object::ok_opt_str;
use crate::object::ok_str;
use crate::object::opt_str_tree;
use crate::object::opt_str_view;
use crate::object::opt_string_tree;
use crate::object::push_member;
use crate::object::str_eq;
use crate::object::tag_of;

verus! {

/// Represents the value of a string in a language pack
pub trait TDLanguagePackStringValue: RObject {

}

/// Represents the value of a string in a language pack
#[derive(Debug, PartialEq)]
pub enum LanguagePackStringValue {
    _Default(()),
    /// A deleted language pack string, the value must be taken from the built-in English language pack
    Deleted(LanguagePackStringValueDeleted),
    /// An ordinary language pack string
    Ordinary(LanguagePackStringValueOrdinary),
    /// A language pack string which has different forms based on the number of some object it mentions. See https://www.unicode.org/cldr/charts/latest/supplemental/language_plural_rules.html for more info
    Pluralized(LanguagePackStringValuePluralized),
}

impl Clone for LanguagePackStringValue {
    fn clone(&self) -> (res: Self)
        ensures
            res.eqv(*self),
    {
        match self {
            LanguagePackStringValue::_Default(_) => LanguagePackStringValue::_Default(()),
            LanguagePackStringValue::Deleted(x) => LanguagePackStringValue::Deleted(x.clone()),
            LanguagePackStringValue::Ordinary(x) => LanguagePackStringValue::Ordinary(x.clone()),
            LanguagePackStringValue::Pluralized(x) => LanguagePackStringValue::Pluralized(x.clone()),
        }
    }
}

impl LanguagePackStringValue {
    /// The tags of this variant's alternatives are pairwise distinct.
    pub proof fn lemma_tags_distinct()
        ensures
            "languagePackStringValueDeleted"@ != "languagePackStringValueOrdinary"@,
            "languagePackStringValueDeleted"@ != "languagePackStringValuePluralized"@,
            "languagePackStringValueOrdinary"@ != "languagePackStringValuePluralized"@,
    {
        reveal_strlit("languagePackStringValueDeleted");
        reveal_strlit("languagePackStringValueOrdinary");
        reveal_strlit("languagePackStringValuePluralized");
        assert("languagePackStringValueDeleted"@.len() == 30);
        assert("languagePackStringValueOrdinary"@.len() == 31);
        assert("languagePackStringValuePluralized"@.len() == 33);
    }
}

impl Wire for LanguagePackStringValue {
    open spec fn wire_tree(self) -> Option<SpecJson> {
        match self {
            LanguagePackStringValue::_Default(_) => None,
            LanguagePackStringValue::Deleted(x) => x.wire_tree(),
            LanguagePackStringValue::Ordinary(x) => x.wire_tree(),
            LanguagePackStringValue::Pluralized(x) => x.wire_tree(),
        }
    }

    open spec fn accepts(t: SpecJson) -> bool {
        match tag_of(t) {
            None => false,
            Some(g) => {
                if g == LanguagePackStringValueDeleted::tag_spec() {
                    LanguagePackStringValueDeleted::accepts(t)
                } else if g == LanguagePackStringValueOrdinary::tag_spec() {
                    LanguagePackStringValueOrdinary::accepts(t)
                } else if g == LanguagePackStringValuePluralized::tag_spec() {
                    LanguagePackStringValuePluralized::accepts(t)
                } else {
                    false
                }
            },
        }
    }

    open spec fn err_of(t: SpecJson) -> SpecDecodeError {
        match tag_of(t) {
            None => SpecDecodeError::Malformed,
            Some(g) => {
                if g == LanguagePackStringValueDeleted::tag_spec() {
                    LanguagePackStringValueDeleted::err_of(t)
                } else if g == LanguagePackStringValueOrdinary::tag_spec() {
                    LanguagePackStringValueOrdinary::err_of(t)
                } else if g == LanguagePackStringValuePluralized::tag_spec() {
                    LanguagePackStringValuePluralized::err_of(t)
                } else {
                    SpecDecodeError::UnrecognizedVariant(g)
                }
            },
        }
    }

    open spec fn decodes_from(t: SpecJson, v: Self) -> bool {
        match tag_of(t) {
            None => false,
            Some(g) => {
                if g == LanguagePackStringValueDeleted::tag_spec() {
                    v matches LanguagePackStringValue::Deleted(x) && LanguagePackStringValueDeleted::decodes_from(t, x)
                } else if g == LanguagePackStringValueOrdinary::tag_spec() {
                    v matches LanguagePackStringValue::Ordinary(x) && LanguagePackStringValueOrdinary::decodes_from(t, x)
                } else if g == LanguagePackStringValuePluralized::tag_spec() {
                    v matches LanguagePackStringValue::Pluralized(x) && LanguagePackStringValuePluralized::decodes_from(t, x)
                } else {
                    false
                }
            },
        }
    }

    open spec fn eqv(self, other: Self) -> bool {
        match (self, other) {
            (LanguagePackStringValue::_Default(_), LanguagePackStringValue::_Default(_)) => true,
            (LanguagePackStringValue::Deleted(a), LanguagePackStringValue::Deleted(b)) => a.eqv(b),
            (LanguagePackStringValue::Ordinary(a), LanguagePackStringValue::Ordinary(b)) => a.eqv(b),
            (LanguagePackStringValue::Pluralized(a), LanguagePackStringValue::Pluralized(b)) => a.eqv(b),
            _ => false,
        }
    }

    fn clone_val(&self) -> (r: Self) {
        self.clone()
    }

    fn decode_tree(t: &JsonValue) -> (r: Result<Self, DecodeError>) {
        let g = match get_tag(t) {
            Some(g) => g,
            None => {
                return Err(DecodeError::Malformed);
            },
        };
        if str_eq(g.as_str(), "languagePackStringValueDeleted") {
            match LanguagePackStringValueDeleted::decode_tree(t) {
                Ok(x) => Ok(LanguagePackStringValue::Deleted(x)),
                Err(e) => Err(e),
            }
        } else if str_eq(g.as_str(), "languagePackStringValueOrdinary") {
            match LanguagePackStringValueOrdinary::decode_tree(t) {
                Ok(x) => Ok(LanguagePackStringValue::Ordinary(x)),
                Err(e) => Err(e),
            }
        } else if str_eq(g.as_str(), "languagePackStringValuePluralized") {
            match LanguagePackStringValuePluralized::decode_tree(t) {
                Ok(x) => Ok(LanguagePackStringValue::Pluralized(x)),
                Err(e) => Err(e),
            }
        } else {
            Err(DecodeError::UnrecognizedVariant(g))
        }
    }

    fn encode_tree(&self) -> (r: Result<JsonValue, EncodeError>) {
        match self {
            LanguagePackStringValue::_Default(_) => Err(EncodeError::Unrepresentable),
            LanguagePackStringValue::Deleted(x) => x.encode_tree(),
            LanguagePackStringValue::Ordinary(x) => x.encode_tree(),
            LanguagePackStringValue::Pluralized(x) => x.encode_tree(),
        }
    }

    proof fn lemma_wire_wf(v: Self) {
        match v {
            LanguagePackStringValue::_Default(_) => {},
            LanguagePackStringValue::Deleted(x) => {
                LanguagePackStringValueDeleted::lemma_wire_wf(x);
            },
            LanguagePackStringValue::Ordinary(x) => {
                LanguagePackStringValueOrdinary::lemma_wire_wf(x);
            },
            LanguagePackStringValue::Pluralized(x) => {
                LanguagePackStringValuePluralized::lemma_wire_wf(x);
            },
        }
    }

    proof fn lemma_round_trip(v: Self) {
        Self::lemma_tags_distinct();
        match v {
            LanguagePackStringValue::_Default(_) => {},
            LanguagePackStringValue::Deleted(x) => {
                if x.wire_tree() is Some {
                    let t = x.wire_tree()->0;
                    LanguagePackStringValueDeleted::lemma_wire_tag(x);
                    LanguagePackStringValueDeleted::lemma_round_trip(x);
                    assert(Self::accepts(t));
                    assert forall|w: Self| Self::decodes_from(t, w) implies #[trigger] w.eqv(v) by {
                        assert(w matches LanguagePackStringValue::Deleted(xi) && LanguagePackStringValueDeleted::decodes_from(t, xi));
                    }
                }
            },
            LanguagePackStringValue::Ordinary(x) => {
                if x.wire_tree() is Some {
                    let t = x.wire_tree()->0;
                    LanguagePackStringValueOrdinary::lemma_wire_tag(x);
                    LanguagePackStringValueOrdinary::lemma_round_trip(x);
                    assert(Self::accepts(t));
                    assert forall|w: Self| Self::decodes_from(t, w) implies #[trigger] w.eqv(v) by {
                        assert(w matches LanguagePackStringValue::Ordinary(xi) && LanguagePackStringValueOrdinary::decodes_from(t, xi));
                    }
                }
            },
            LanguagePackStringValue::Pluralized(x) => {
                if x.wire_tree() is Some {
                    let t = x.wire_tree()->0;
                    LanguagePackStringValuePluralized::lemma_wire_tag(x);
                    LanguagePackStringValuePluralized::lemma_round_trip(x);
                    assert(Self::accepts(t));
                    assert forall|w: Self| Self::decodes_from(t, w) implies #[trigger] w.eqv(v) by {
                        assert(w matches LanguagePackStringValue::Pluralized(xi) && LanguagePackStringValuePluralized::decodes_from(t, xi));
                    }
                }
            },
        }
    }
}

impl RObject for LanguagePackStringValue {
    open spec fn tag_chars(&self) -> Seq<char> {
        match self {
            LanguagePackStringValue::_Default(_) => "-1"@,
            LanguagePackStringValue::Deleted(x) => LanguagePackStringValueDeleted::tag_spec(),
            LanguagePackStringValue::Ordinary(x) => LanguagePackStringValueOrdinary::tag_spec(),
            LanguagePackStringValue::Pluralized(x) => LanguagePackStringValuePluralized::tag_spec(),
        }
    }

    open spec fn extra_spec(&self) -> Option<Seq<char>> {
        match self {
            LanguagePackStringValue::_Default(_) => None,
            LanguagePackStringValue::Deleted(x) => opt_str_view(x.extra),
            LanguagePackStringValue::Ordinary(x) => opt_str_view(x.extra),
            LanguagePackStringValue::Pluralized(x) => opt_str_view(x.extra),
    }
    }

    fn td_name(&self) -> (r: &'static str) {
        match self {
            LanguagePackStringValue::_Default(_) => "-1",
            LanguagePackStringValue::Deleted(x) => x.td_name(),
            LanguagePackStringValue::Ordinary(x) => x.td_name(),
            LanguagePackStringValue::Pluralized(x) => x.td_name(),
        }
    }

    fn extra(&self) -> (r: Option<String>) {
        match self {
            LanguagePackStringValue::_Default(_) => None,
            LanguagePackStringValue::Deleted(x) => clone_opt_string(&x.extra),
            LanguagePackStringValue::Ordinary(x) => clone_opt_string(&x.extra),
            LanguagePackStringValue::Pluralized(x) => clone_opt_string(&x.extra),
        }
    }

    fn to_json(&self) -> (r: Result<String, EncodeError>) {
        crate::object::encode(self)
    }
}

impl LanguagePackStringValue {
    pub fn from_json(json: &str) -> (r: Result<LanguagePackStringValue, DecodeError>)
        ensures
            match crate::parse::parse_doc(json@) {
                Some(t) => match r {
                    Ok(v) => Self::accepts(t) && Self::decodes_from(t, v),
                    Err(e) => !Self::accepts(t) && crate::errors::err_matches(e, Self::err_of(t)),
                },
                None => r matches Err(e) && e == DecodeError::Malformed,
            },
    {
        crate::object::from_json::<LanguagePackStringValue>(json)
    }

    pub fn _is_default(&self) -> (r: bool)
        ensures
            r == (self is _Default),
    {
        match self {
            LanguagePackStringValue::_Default(_) => true,
            _ => false,
        }
    }

    pub fn is_deleted(&self) -> (r: bool)
        ensures
            r == (self is Deleted),
    {
        match self {
            LanguagePackStringValue::Deleted(_) => true,
            _ => false,
        }
    }

    pub fn is_ordinary(&self) -> (r: bool)
        ensures
            r == (self is Ordinary),
    {
        match self {
            LanguagePackStringValue::Ordinary(_) => true,
            _ => false,
        }
    }

    pub fn is_pluralized(&self) -> (r: bool)
        ensures
            r == (self is Pluralized),
    {
        match self {
            LanguagePackStringValue::Pluralized(_) => true,
            _ => false,
        }
    }

    pub fn as_deleted(&self) -> (r: Option<&LanguagePackStringValueDeleted>)
        ensures
            (self is Deleted) == (r is Some),
            r matches Some(x) ==> *x == self->Deleted_0,
    {
        match self {
            LanguagePackStringValue::Deleted(x) => Some(x),
            _ => None,
        }
    }

    pub fn as_ordinary(&self) -> (r: Option<&LanguagePackStringValueOrdinary>)
        ensures
            (self is Ordinary) == (r is Some),
            r matches Some(x) ==> *x == self->Ordinary_0,
    {
        match self {
            LanguagePackStringValue::Ordinary(x) => Some(x),
            _ => None,
        }
    }

    pub fn as_pluralized(&self) -> (r: Option<&LanguagePackStringValuePluralized>)
        ensures
            (self is Pluralized) == (r is Some),
            r matches Some(x) ==> *x == self->Pluralized_0,
    {
        match self {
            LanguagePackStringValue::Pluralized(x) => Some(x),
            _ => None,
        }
    }

    pub fn deleted(t: &LanguagePackStringValueDeleted) -> (r: Self)
        ensures
            r matches LanguagePackStringValue::Deleted(x) && x.eqv(*t),
    {
        LanguagePackStringValue::Deleted(t.clone())
    }

    pub fn ordinary(t: &LanguagePackStringValueOrdinary) -> (r: Self)
        ensures
            r matches LanguagePackStringValue::Ordinary(x) && x.eqv(*t),
    {
        LanguagePackStringValue::Ordinary(t.clone())
    }

    pub fn pluralized(t: &LanguagePackStringValuePluralized) -> (r: Self)
        ensures
            r matches LanguagePackStringValue::Pluralized(x) && x.eqv(*t),
    {
        LanguagePackStringValue::Pluralized(t.clone())
    }
}
/// A deleted language pack string, the value must be taken from the built-in English language pack
#[derive(Debug, PartialEq)]
pub struct LanguagePackStringValueDeleted {
    pub extra: Option<String>,
}

impl LanguagePackStringValueDeleted {
    pub open spec fn tag_spec() -> Seq<char> {
        "languagePackStringValueDeleted"@
    }

    /// The members of the wire object, in the order they are written.
    pub open spec fn members_spec(self) -> Seq<(Seq<char>, SpecJson)> {
        seq![
            ("@type"@, SpecJson::Str(Self::tag_spec())),
            ("@extra"@, opt_str_tree(opt_str_view(self.extra))),
        ]
    }

    pub open spec fn fields_ok(t: SpecJson) -> bool {
        &&& ok_opt_str(t, "@extra"@)
    }

    pub open spec fn fail_field(t: SpecJson) -> Seq<char> {
        if !ok_opt_str(t, "@extra"@) {
            "@extra"@
        } else {
            Seq::empty()
        }
    }

    /// The encoding of a value carries exactly this type's tag.
    pub proof fn lemma_wire_tag(v: LanguagePackStringValueDeleted)
        ensures
            v.wire_tree() matches Some(t) ==> tag_of(t) == Some(LanguagePackStringValueDeleted::tag_spec()),
    {
        if v.wire_tree() is Some {
            let t = v.wire_tree()->0;
            let ms = t->Obj_0;
            lemma_get_spec_found(ms, "@type"@, 0);
        }
    }
}

impl Clone for LanguagePackStringValueDeleted {
    fn clone(&self) -> (res: Self)
        ensures
            res.eqv(*self),
    {
        LanguagePackStringValueDeleted {
            extra: clone_opt_string(&self.extra),
        }
    }
}

impl Wire for LanguagePackStringValueDeleted {
    open spec fn wire_tree(self) -> Option<SpecJson> {
        Some(SpecJson::Obj(self.members_spec()))
    }

    open spec fn accepts(t: SpecJson) -> bool {
        tag_of(t) is Some && Self::fields_ok(t)
    }

    open spec fn err_of(t: SpecJson) -> SpecDecodeError {
        match tag_of(t) {
            None => SpecDecodeError::Malformed,
            Some(_) => SpecDecodeError::FieldShapeMismatch(Self::tag_spec(), Self::fail_field(t)),
        }
    }

    open spec fn decodes_from(t: SpecJson, v: Self) -> bool {
        &&& m_opt_str(t, "@extra"@, v.extra)
    }

    open spec fn eqv(self, other: Self) -> bool {
        &&& eqv_opt_string(self.extra, other.extra)
    }

    fn clone_val(&self) -> (r: Self) {
        self.clone()
    }

    fn decode_tree(t: &JsonValue) -> (r: Result<Self, DecodeError>) {
        if get_tag(t).is_none() {
            return Err(DecodeError::Malformed);
        }
        let extra = match field_opt_string(t, "@extra") {
            Some(x) => x,
            None => {
                return Err(DecodeError::FieldShapeMismatch(
                    String::from_str("languagePackStringValueDeleted"),
                    String::from_str("@extra"),
                ));
            },
        };
        Ok(LanguagePackStringValueDeleted { extra })
    }

    fn encode_tree(&self) -> (r: Result<JsonValue, EncodeError>) {
        let mut members: Vec<JsonMember> = Vec::new();
        proof {
            assert(view_members(members@) =~= Seq::<(Seq<char>, SpecJson)>::empty());
        }
        push_member(&mut members, "@type", JsonValue::Str(String::from_str("languagePackStringValueDeleted")));
        push_member(&mut members, "@extra", opt_string_tree(&self.extra));
        let node = JsonValue::Obj(members);
        proof {
            assert(view_members(members@) =~= self.members_spec());
            assert(node@ == self.wire_tree()->0);
        }
        Ok(node)
    }

    proof fn lemma_wire_wf(v: Self) {
        if v.wire_tree() is Some {
            let t = v.wire_tree()->0;
            let ms = t->Obj_0;
            assert(ms == v.members_spec());
            assert forall|i: int| 0 <= i < ms.len() implies wf(#[trigger] ms[i].1) by {
            }
        }
    }

    proof fn lemma_round_trip(v: Self) {
        if v.wire_tree() is Some {
            let t = v.wire_tree()->0;
            let ms = t->Obj_0;
            assert(ms == v.members_spec());
            reveal_strlit("@type");
            reveal_strlit("@extra");
            assert("@type"@.len() == 5);
            assert("@extra"@.len() == 6);
            reveal_with_fuel(get_spec, 4);
            lemma_get_spec_found(ms, "@type"@, 0);
            lemma_get_spec_found(ms, "@extra"@, 1);
            assert(tag_of(t) == Some(Self::tag_spec()));
            assert(ok_opt_str(t, "@extra"@));
            assert(Self::accepts(t));
            assert forall|w: Self| Self::decodes_from(t, w) implies #[trigger] w.eqv(v) by {
            }
        }
    }
}

impl RObject for LanguagePackStringValueDeleted {
    open spec fn tag_chars(&self) -> Seq<char> {
        Self::tag_spec()
    }

    open spec fn extra_spec(&self) -> Option<Seq<char>> {
        opt_str_view(self.extra)
    }

    fn td_name(&self) -> (r: &'static str) {
        "languagePackStringValueDeleted"
    }

    fn extra(&self) -> (r: Option<String>) {
        clone_opt_string(&self.extra)
    }

    fn to_json(&self) -> (r: Result<String, EncodeError>) {
        crate::object::encode(self)
    }
}

impl TDLanguagePackStringValue for LanguagePackStringValueDeleted {

}

impl LanguagePackStringValueDeleted {
    pub fn from_json(json: &str) -> (r: Result<LanguagePackStringValueDeleted, DecodeError>)
        ensures
            match crate::parse::parse_doc(json@) {
                Some(t) => match r {
                    Ok(v) => Self::accepts(t) && Self::decodes_from(t, v),
                    Err(e) => !Self::accepts(t) && crate::errors::err_matches(e, Self::err_of(t)),
                },
                None => r matches Err(e) && e == DecodeError::Malformed,
            },
    {
        crate::object::from_json::<LanguagePackStringValueDeleted>(json)
    }

    pub fn builder() -> (r: RTDLanguagePackStringValueDeletedBuilder)
        ensures
            r.inner.extra is Some,
    {
        RTDLanguagePackStringValueDeletedBuilder {
            inner: LanguagePackStringValueDeleted {
                extra: Some(new_token()),
            },
        }
    }
}

pub struct RTDLanguagePackStringValueDeletedBuilder {
    pub inner: LanguagePackStringValueDeleted,
}

impl RTDLanguagePackStringValueDeletedBuilder {
    pub fn build(&self) -> (r: LanguagePackStringValueDeleted)
        ensures
            r.eqv(self.inner),
    {
        self.inner.clone()
    }
}
/// An ordinary language pack string
#[derive(Debug, PartialEq)]
pub struct LanguagePackStringValueOrdinary {
    pub extra: Option<String>,
    /// String value
    pub value: String,
}

impl LanguagePackStringValueOrdinary {
    pub open spec fn tag_spec() -> Seq<char> {
        "languagePackStringValueOrdinary"@
    }

    /// The members of the wire object, in the order they are written.
    pub open spec fn members_spec(self) -> Seq<(Seq<char>, SpecJson)> {
        seq![
            ("@type"@, SpecJson::Str(Self::tag_spec())),
            ("@extra"@, opt_str_tree(opt_str_view(self.extra))),
            ("value"@, SpecJson::Str(self.value@)),
        ]
    }

    pub open spec fn fields_ok(t: SpecJson) -> bool {
        &&& ok_opt_str(t, "@extra"@)
        &&& ok_str(t, "value"@)
    }

    pub open spec fn fail_field(t: SpecJson) -> Seq<char> {
        if !ok_opt_str(t, "@extra"@) {
            "@extra"@
        } else if !(ok_str(t, "value"@)) {
            "value"@
        } else {
            Seq::empty()
        }
    }

    /// The encoding of a value carries exactly this type's tag.
    pub proof fn lemma_wire_tag(v: LanguagePackStringValueOrdinary)
        ensures
            v.wire_tree() matches Some(t) ==> tag_of(t) == Some(LanguagePackStringValueOrdinary::tag_spec()),
    {
        if v.wire_tree() is Some {
            let t = v.wire_tree()->0;
            let ms = t->Obj_0;
            lemma_get_spec_found(ms, "@type"@, 0);
        }
    }
}

impl Clone for LanguagePackStringValueOrdinary {
    fn clone(&self) -> (res: Self)
        ensures
            res.eqv(*self),
    {
        LanguagePackStringValueOrdinary {
            extra: clone_opt_string(&self.extra),
            value: self.value.clone(),
        }
    }
}

impl Wire for LanguagePackStringValueOrdinary {
    open spec fn wire_tree(self) -> Option<SpecJson> {
        Some(SpecJson::Obj(self.members_spec()))
    }

    open spec fn accepts(t: SpecJson) -> bool {
        tag_of(t) is Some && Self::fields_ok(t)
    }

    open spec fn err_of(t: SpecJson) -> SpecDecodeError {
        match tag_of(t) {
            None => SpecDecodeError::Malformed,
            Some(_) => SpecDecodeError::FieldShapeMismatch(Self::tag_spec(), Self::fail_field(t)),
        }
    }

    open spec fn decodes_from(t: SpecJson, v: Self) -> bool {
        &&& m_opt_str(t, "@extra"@, v.extra)
        &&& m_str(t, "value"@, v.value@)
    }

    open spec fn eqv(self, other: Self) -> bool {
        &&& eqv_opt_string(self.extra, other.extra)
        &&& self.value@ == other.value@
    }

    fn clone_val(&self) -> (r: Self) {
        self.clone()
    }

    fn decode_tree(t: &JsonValue) -> (r: Result<Self, DecodeError>) {
        if get_tag(t).is_none() {
            return Err(DecodeError::Malformed);
        }
        let extra = match field_opt_string(t, "@extra") {
            Some(x) => x,
            None => {
                return Err(DecodeError::FieldShapeMismatch(
                    String::from_str("languagePackStringValueOrdinary"),
                    String::from_str("@extra"),
                ));
            },
        };
        let value = match field_string(t, "value") {
            Some(x) => x,
            None => {
                return Err(DecodeError::FieldShapeMismatch(
                    String::from_str("languagePackStringValueOrdinary"),
                    String::from_str("value"),
                ));
            },
        };
        Ok(LanguagePackStringValueOrdinary { extra, value })
    }

    fn encode_tree(&self) -> (r: Result<JsonValue, EncodeError>) {
        let mut members: Vec<JsonMember> = Vec::new();
        proof {
            assert(view_members(members@) =~= Seq::<(Seq<char>, SpecJson)>::empty());
        }
        push_member(&mut members, "@type", JsonValue::Str(String::from_str("languagePackStringValueOrdinary")));
        push_member(&mut members, "@extra", opt_string_tree(&self.extra));
        push_member(&mut members, "value", JsonValue::Str(self.value.clone()));
        let node = JsonValue::Obj(members);
        proof {
            assert(view_members(members@) =~= self.members_spec());
            assert(node@ == self.wire_tree()->0);
        }
        Ok(node)
    }

    proof fn lemma_wire_wf(v: Self) {
        if v.wire_tree() is Some {
            let t = v.wire_tree()->0;
            let ms = t->Obj_0;
            assert(ms == v.members_spec());
            assert forall|i: int| 0 <= i < ms.len() implies wf(#[trigger] ms[i].1) by {
            }
        }
    }

    proof fn lemma_round_trip(v: Self) {
        if v.wire_tree() is Some {
            let t = v.wire_tree()->0;
            let ms = t->Obj_0;
            assert(ms == v.members_spec());
            reveal_strlit("@type");
            reveal_strlit("@extra");
            reveal_strlit("value");
            assert("@type"@.len() == 5);
            assert("@extra"@.len() == 6);
            assert("value"@.len() == 5);
            assert("@type"@[0] == '@' && "value"@[0] == 'v');
            reveal_with_fuel(get_spec, 5);
            lemma_get_spec_found(ms, "@type"@, 0);
            lemma_get_spec_found(ms, "@extra"@, 1);
            lemma_get_spec_found(ms, "value"@, 2);
            assert(tag_of(t) == Some(Self::tag_spec()));
            assert(ok_opt_str(t, "@extra"@));
            assert(ok_str(t, "value"@));
            assert(Self::accepts(t));
            assert forall|w: Self| Self::decodes_from(t, w) implies #[trigger] w.eqv(v) by {
            }
        }
    }
}

impl RObject for LanguagePackStringValueOrdinary {
    open spec fn tag_chars(&self) -> Seq<char> {
        Self::tag_spec()
    }

    open spec fn extra_spec(&self) -> Option<Seq<char>> {
        opt_str_view(self.extra)
    }

    fn td_name(&self) -> (r: &'static str) {
        "languagePackStringValueOrdinary"
    }

    fn extra(&self) -> (r: Option<String>) {
        clone_opt_string(&self.extra)
    }

    fn to_json(&self) -> (r: Result<String, EncodeError>) {
        crate::object::encode(self)
    }
}

impl TDLanguagePackStringValue for LanguagePackStringValueOrdinary {

}

impl LanguagePackStringValueOrdinary {
    pub fn from_json(json: &str) -> (r: Result<LanguagePackStringValueOrdinary, DecodeError>)
        ensures
            match crate::parse::parse_doc(json@) {
                Some(t) => match r {
                    Ok(v) => Self::accepts(t) && Self::decodes_from(t, v),
                    Err(e) => !Self::accepts(t) && crate::errors::err_matches(e, Self::err_of(t)),
                },
                None => r matches Err(e) && e == DecodeError::Malformed,
            },
    {
        crate::object::from_json::<LanguagePackStringValueOrdinary>(json)
    }

    pub fn builder() -> (r: RTDLanguagePackStringValueOrdinaryBuilder)
        ensures
            r.inner.extra is Some,
            r.inner.value@ == Seq::<char>::empty(),
    {
        RTDLanguagePackStringValueOrdinaryBuilder {
            inner: LanguagePackStringValueOrdinary {
                extra: Some(new_token()),
                value: String::new(),
            },
        }
    }

    pub fn value(&self) -> (r: &String)
        ensures
            *r == self.value,
    {
        &self.value
    }
}

pub struct RTDLanguagePackStringValueOrdinaryBuilder {
    pub inner: LanguagePackStringValueOrdinary,
}

impl RTDLanguagePackStringValueOrdinaryBuilder {
    pub fn build(&self) -> (r: LanguagePackStringValueOrdinary)
        ensures
            r.eqv(self.inner),
    {
        self.inner.clone()
    }

    pub fn value(&mut self, value: String) -> (r: &mut Self)
        ensures
            *r == (RTDLanguagePackStringValueOrdinaryBuilder { inner: LanguagePackStringValueOrdinary { value: value, ..old(self).inner } }),
            *final(self) == *final(r),
    {
        self.inner.value = value;
        self
    }
}
/// A language pack string which has different forms based on the number of some object it mentions. See https://www.unicode.org/cldr/charts/latest/supplemental/language_plural_rules.html for more info
#[derive(Debug, PartialEq)]
pub struct LanguagePackStringValuePluralized {
    pub extra: Option<String>,
    /// Value for zero objects
    pub zero_value: String,
    /// Value for one object
    pub one_value: String,
    /// Value for two objects
    pub two_value: String,
    /// Value for few objects
    pub few_value: String,
    /// Value for many objects
    pub many_value: String,
    /// Default value
    pub other_value: String,
}

impl LanguagePackStringValuePluralized {
    pub open spec fn tag_spec() -> Seq<char> {
        "languagePackStringValuePluralized"@
    }

    /// The members of the wire object, in the order they are written.
    pub open spec fn members_spec(self) -> Seq<(Seq<char>, SpecJson)> {
        seq![
            ("@type"@, SpecJson::Str(Self::tag_spec())),
            ("@extra"@, opt_str_tree(opt_str_view(self.extra))),
            ("zero_value"@, SpecJson::Str(self.zero_value@)),
            ("one_value"@, SpecJson::Str(self.one_value@)),
            ("two_value"@, SpecJson::Str(self.two_value@)),
            ("few_value"@, SpecJson::Str(self.few_value@)),
            ("many_value"@, SpecJson::Str(self.many_value@)),
            ("other_value"@, SpecJson::Str(self.other_value@)),
        ]
    }

    pub open spec fn fields_ok(t: SpecJson) -> bool {
        &&& ok_opt_str(t, "@extra"@)
        &&& ok_str(t, "zero_value"@)
        &&& ok_str(t, "one_value"@)
        &&& ok_str(t, "two_value"@)
        &&& ok_str(t, "few_value"@)
        &&& ok_str(t, "many_value"@)
        &&& ok_str(t, "other_value"@)
    }

    pub open spec fn fail_field(t: SpecJson) -> Seq<char> {
        if !ok_opt_str(t, "@extra"@) {
            "@extra"@
        } else if !(ok_str(t, "zero_value"@)) {
            "zero_value"@
        } else if !(ok_str(t, "one_value"@)) {
            "one_value"@
        } else if !(ok_str(t, "two_value"@)) {
            "two_value"@
        } else if !(ok_str(t, "few_value"@)) {
            "few_value"@
        } else if !(ok_str(t, "many_value"@)) {
            "many_value"@
        } else if !(ok_str(t, "other_value"@)) {
            "other_value"@
        } else {
            Seq::empty()
        }
    }

    /// The encoding of a value carries exactly this type's tag.
    pub proof fn lemma_wire_tag(v: LanguagePackStringValuePluralized)
        ensures
            v.wire_tree() matches Some(t) ==> tag_of(t) == Some(LanguagePackStringValuePluralized::tag_spec()),
    {
        if v.wire_tree() is Some {
            let t = v.wire_tree()->0;
            let ms = t->Obj_0;
            lemma_get_spec_found(ms, "@type"@, 0);
        }
    }
}

impl Clone for LanguagePackStringValuePluralized {
    fn clone(&self) -> (res: Self)
        ensures
            res.eqv(*self),
    {
        LanguagePackStringValuePluralized {
            extra: clone_opt_string(&self.extra),
            zero_value: self.zero_value.clone(),
            one_value: self.one_value.clone(),
            two_value: self.two_value.clone(),
            few_value: self.few_value.clone(),
            many_value: self.many_value.clone(),
            other_value: self.other_value.clone(),
        }
    }
}

impl Wire for LanguagePackStringValuePluralized {
    open spec fn wire_tree(self) -> Option<SpecJson> {
        Some(SpecJson::Obj(self.members_spec()))
    }

    open spec fn accepts(t: SpecJson) -> bool {
        tag_of(t) is Some && Self::fields_ok(t)
    }

    open spec fn err_of(t: SpecJson) -> SpecDecodeError {
        match tag_of(t) {
            None => SpecDecodeError::Malformed,
            Some(_) => SpecDecodeError::FieldShapeMismatch(Self::tag_spec(), Self::fail_field(t)),
        }
    }

    open spec fn decodes_from(t: SpecJson, v: Self) -> bool {
        &&& m_opt_str(t, "@extra"@, v.extra)
        &&& m_str(t, "zero_value"@, v.zero_value@)
        &&& m_str(t, "one_value"@, v.one_value@)
        &&& m_str(t, "two_value"@, v.two_value@)
        &&& m_str(t, "few_value"@, v.few_value@)
        &&& m_str(t, "many_value"@, v.many_value@)
        &&& m_str(t, "other_value"@, v.other_value@)
    }

    open spec fn eqv(self, other: Self) -> bool {
        &&& eqv_opt_string(self.extra, other.extra)
        &&& self.zero_value@ == other.zero_value@
        &&& self.one_value@ == other.one_value@
        &&& self.two_value@ == other.two_value@
        &&& self.few_value@ == other.few_value@
        &&& self.many_value@ == other.many_value@
        &&& self.other_value@ == other.other_value@
    }

    fn clone_val(&self) -> (r: Self) {
        self.clone()
    }

    #[verifier::rlimit(30)]
    #[verifier::spinoff_prover]
    fn decode_tree(t: &JsonValue) -> (r: Result<Self, DecodeError>) {
        if get_tag(t).is_none() {
            return Err(DecodeError::Malformed);
        }
        let extra = match field_opt_string(t, "@extra") {
            Some(x) => x,
            None => {
                return Err(DecodeError::FieldShapeMismatch(
                    String::from_str("languagePackStringValuePluralized"),
                    String::from_str("@extra"),
                ));
            },
        };
        let zero_value = match field_string(t, "zero_value") {
            Some(x) => x,
            None => {
                return Err(DecodeError::FieldShapeMismatch(
                    String::from_str("languagePackStringValuePluralized"),
                    String::from_str("zero_value"),
                ));
            },
        };
        let one_value = match field_string(t, "one_value") {
            Some(x) => x,
            None => {
                return Err(DecodeError::FieldShapeMismatch(
                    String::from_str("languagePackStringValuePluralized"),
                    String::from_str("one_value"),
                ));
            },
        };
        let two_value = match field_string(t, "two_value") {
            Some(x) => x,
            None => {
                return Err(DecodeError::FieldShapeMismatch(
                    String::from_str("languagePackStringValuePluralized"),
                    String::from_str("two_value"),
                ));
            },
        };
        let few_value = match field_string(t, "few_value") {
            Some(x) => x,
            None => {
                return Err(DecodeError::FieldShapeMismatch(
                    String::from_str("languagePackStringValuePluralized"),
                    String::from_str("few_value"),
                ));
            },
        };
        let many_value = match field_string(t, "many_value") {
            Some(x) => x,
            None => {
                return Err(DecodeError::FieldShapeMismatch(
                    String::from_str("languagePackStringValuePluralized"),
                    String::from_str("many_value"),
                ));
            },
        };
        let other_value = match field_string(t, "other_value") {
            Some(x) => x,
            None => {
                return Err(DecodeError::FieldShapeMismatch(
                    String::from_str("languagePackStringValuePluralized"),
                    String::from_str("other_value"),
                ));
            },
        };
        Ok(LanguagePackStringValuePluralized { extra, zero_value, one_value, two_value, few_value, many_value, other_value })
    }

    #[verifier::rlimit(30)]
    #[verifier::spinoff_prover]
    fn encode_tree(&self) -> (r: Result<JsonValue, EncodeError>) {
        let mut members: Vec<JsonMember> = Vec::new();
        proof {
            assert(view_members(members@) =~= Seq::<(Seq<char>, SpecJson)>::empty());
        }
        push_member(&mut members, "@type", JsonValue::Str(String::from_str("languagePackStringValuePluralized")));
        push_member(&mut members, "@extra", opt_string_tree(&self.extra));
        push_member(&mut members, "zero_value", JsonValue::Str(self.zero_value.clone()));
        push_member(&mut members, "one_value", JsonValue::Str(self.one_value.clone()));
        push_member(&mut members, "two_value", JsonValue::Str(self.two_value.clone()));
        push_member(&mut members, "few_value", JsonValue::Str(self.few_value.clone()));
        push_member(&mut members, "many_value", JsonValue::Str(self.many_value.clone()));
        push_member(&mut members, "other_value", JsonValue::Str(self.other_value.clone()));
        let node = JsonValue::Obj(members);
        proof {
            assert(view_members(members@) =~= self.members_spec());
            assert(node@ == self.wire_tree()->0);
        }
        Ok(node)
    }

    proof fn lemma_wire_wf(v: Self) {
        if v.wire_tree() is Some {
            let t = v.wire_tree()->0;
            let ms = t->Obj_0;
            assert(ms == v.members_spec());
            assert forall|i: int| 0 <= i < ms.len() implies wf(#[trigger] ms[i].1) by {
            }
        }
    }

    #[verifier::rlimit(30)]
    #[verifier::spinoff_prover]
    proof fn lemma_round_trip(v: Self) {
        if v.wire_tree() is Some {
            let t = v.wire_tree()->0;
            let ms = t->Obj_0;
            assert(ms == v.members_spec());
            reveal_strlit("@type");
            reveal_strlit("@extra");
            reveal_strlit("zero_value");
            reveal_strlit("one_value");
            reveal_strlit("two_value");
            reveal_strlit("few_value");
            reveal_strlit("many_value");
            reveal_strlit("other_value");
            assert("@type"@.len() == 5);
            assert("@extra"@.len() == 6);
            assert("zero_value"@.len() == 10);
            assert("one_value"@.len() == 9);
            assert("two_value"@.len() == 9);
            assert("few_value"@.len() == 9);
            assert("many_value"@.len() == 10);
            assert("other_value"@.len() == 11);
            assert("zero_value"@[0] == 'z' && "many_value"@[0] == 'm');
            assert("one_value"@[0] == 'o' && "two_value"@[0] == 't');
            assert("one_value"@[0] == 'o' && "few_value"@[0] == 'f');
            assert("two_value"@[0] == 't' && "few_value"@[0] == 'f');
            reveal_with_fuel(get_spec, 10);
            lemma_get_spec_found(ms, "@type"@, 0);
            lemma_get_spec_found(ms, "@extra"@, 1);
            lemma_get_spec_found(ms, "zero_value"@, 2);
            lemma_get_spec_found(ms, "one_value"@, 3);
            lemma_get_spec_found(ms, "two_value"@, 4);
            lemma_get_spec_found(ms, "few_value"@, 5);
            lemma_get_spec_found(ms, "many_value"@, 6);
            lemma_get_spec_found(ms, "other_value"@, 7);
            assert(tag_of(t) == Some(Self::tag_spec()));
            assert(ok_opt_str(t, "@extra"@));
            assert(ok_str(t, "zero_value"@));
            assert(ok_str(t, "one_value"@));
            assert(ok_str(t, "two_value"@));
            assert(ok_str(t, "few_value"@));
            assert(ok_str(t, "many_value"@));
            assert(ok_str(t, "other_value"@));
            assert(Self::accepts(t));
            assert forall|w: Self| Self::decodes_from(t, w) implies #[trigger] w.eqv(v) by {
            }
        }
    }
}

impl RObject for LanguagePackStringValuePluralized {
    open spec fn tag_chars(&self) -> Seq<char> {
        Self::tag_spec()
    }

    open spec fn extra_spec(&self) -> Option<Seq<char>> {
        opt_str_view(self.extra)
    }

    fn td_name(&self) -> (r: &'static str) {
        "languagePackStringValuePluralized"
    }

    fn extra(&self) -> (r: Option<String>) {
        clone_opt_string(&self.extra)
    }

    fn to_json(&self) -> (r: Result<String, EncodeError>) {
        crate::object::encode(self)
    }
}

impl TDLanguagePackStringValue for LanguagePackStringValuePluralized {

}

impl LanguagePackStringValuePluralized {
    pub fn from_json(json: &str) -> (r: Result<LanguagePackStringValuePluralized, DecodeError>)
        ensures
            match crate::parse::parse_doc(json@) {
                Some(t) => match r {
                    Ok(v) => Self::accepts(t) && Self::decodes_from(t, v),
                    Err(e) => !Self::accepts(t) && crate::errors::err_matches(e, Self::err_of(t)),
                },
                None => r matches Err(e) && e == DecodeError::Malformed,
            },
    {
        crate::object::from_json::<LanguagePackStringValuePluralized>(json)
    }

    pub fn builder() -> (r: RTDLanguagePackStringValuePluralizedBuilder)
        ensures
            r.inner.extra is Some,
            r.inner.zero_value@ == Seq::<char>::empty(),
            r.inner.one_value@ == Seq::<char>::empty(),
            r.inner.two_value@ == Seq::<char>::empty(),
            r.inner.few_value@ == Seq::<char>::empty(),
            r.inner.many_value@ == Seq::<char>::empty(),
            r.inner.other_value@ == Seq::<char>::empty(),
    {
        RTDLanguagePackStringValuePluralizedBuilder {
            inner: LanguagePackStringValuePluralized {
                extra: Some(new_token()),
                zero_value: String::new(),
                one_value: String::new(),
                two_value: String::new(),
                few_value: String::new(),
                many_value: String::new(),
                other_value: String::new(),
            },
        }
    }

    pub fn zero_value(&self) -> (r: &String)
        ensures
            *r == self.zero_value,
    {
        &self.zero_value
    }

    pub fn one_value(&self) -> (r: &String)
        ensures
            *r == self.one_value,
    {
        &self.one_value
    }

    pub fn two_value(&self) -> (r: &String)
        ensures
            *r == self.two_value,
    {
        &self.two_value
    }

    pub fn few_value(&self) -> (r: &String)
        ensures
            *r == self.few_value,
    {
        &self.few_value
    }

    pub fn many_value(&self) -> (r: &String)
        ensures
            *r == self.many_value,
    {
        &self.many_value
    }

    pub fn other_value(&self) -> (r: &String)
        ensures
            *r == self.other_value,
    {
        &self.other_value
    }
}

pub struct RTDLanguagePackStringValuePluralizedBuilder {
    pub inner: LanguagePackStringValuePluralized,
}

impl RTDLanguagePackStringValuePluralizedBuilder {
    pub fn build(&self) -> (r: LanguagePackStringValuePluralized)
        ensures
            r.eqv(self.inner),
    {
        self.inner.clone()
    }

    pub fn zero_value(&mut self, zero_value: String) -> (r: &mut Self)
        ensures
            *r == (RTDLanguagePackStringValuePluralizedBuilder { inner: LanguagePackStringValuePluralized { zero_value: zero_value, ..old(self).inner } }),
            *final(self) == *final(r),
    {
        self.inner.zero_value = zero_value;
        self
    }

    pub fn one_value(&mut self, one_value: String) -> (r: &mut Self)
        ensures
            *r == (RTDLanguagePackStringValuePluralizedBuilder { inner: LanguagePackStringValuePluralized { one_value: one_value, ..old(self).inner } }),
            *final(self) == *final(r),
    {
        self.inner.one_value = one_value;
        self
    }

    pub fn two_value(&mut self, two_value: String) -> (r: &mut Self)
        ensures
            *r == (RTDLanguagePackStringValuePluralizedBuilder { inner: LanguagePackStringValuePluralized { two_value: two_value, ..old(self).inner } }),
            *final(self) == *final(r),
    {
        self.inner.two_value = two_value;
        self
    }

    pub fn few_value(&mut self, few_value: String) -> (r: &mut Self)
        ensures
            *r == (RTDLanguagePackStringValuePluralizedBuilder { inner: LanguagePackStringValuePluralized { few_value: few_value, ..old(self).inner } }),
            *final(self) == *final(r),
    {
        self.inner.few_value = few_value;
        self
    }

    pub fn many_value(&mut self, many_value: String) -> (r: &mut Self)
        ensures
            *r == (RTDLanguagePackStringValuePluralizedBuilder { inner: LanguagePackStringValuePluralized { many_value: many_value, ..old(self).inner } }),
            *final(self) == *final(r),
    {
        self.inner.many_value = many_value;
        self
    }

    pub fn other_value(&mut self, other_value: String) -> (r: &mut Self)
        ensures
            *r == (RTDLanguagePackStringValuePluralizedBuilder { inner: LanguagePackStringValuePluralized { other_value: other_value, ..old(self).inner } }),
            *final(self) == *final(r),
    {
        self.inner.other_value = other_value;
        self
    }
}
} // verus!
