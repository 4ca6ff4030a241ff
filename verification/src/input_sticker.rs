use vstd::prelude::*;

use crate::errors::DecodeError;
use crate::errors::EncodeError;
use crate::errors::SpecDecodeError;
use crate::json::JsonMember;
use crate::json::JsonValue;
use crate::json::SpecJson;
use crate::json::view_members;
use crate::json::wf;
use crate::object::RObject;
use crate::object::Wire;
use crate::object::clone_opt_string;
use crate::object::eqv_opt_string;
use crate::object::field_opt_string;
use crate::object::field_string;
use crate::object::get_spec;
use crate::object::get_tag;
use crate::object::lemma_get_spec_found;
use crate::object::m_opt_str;
use crate::object::m_str;
use crate::object::new_token;
use crate::object::ok_opt_str;
use crate::object::ok_str;
use crate::object::opt_str_tree;
use crate::object::opt_str_view;
use crate::object::opt_string_tree;
use crate::object::push_member;
use crate::object::str_eq;
use crate::object::tag_of;

verus! {

/// Describes a sticker that needs to be added to a sticker set
pub trait TDInputSticker: RObject {

}

/// Describes a sticker that needs to be added to a sticker set
#[derive(Debug, PartialEq)]
pub enum InputSticker {
    _Default(()),
    /// An animated sticker in TGS format
    Animated(InputStickerAnimated),
    /// A static sticker in PNG format, which will be converted to WEBP server-side
    Static(InputStickerStatic),
}

impl Clone for InputSticker {
    fn clone(&self) -> (res: Self)
        ensures
            res.eqv(*self),
    {
        match self {
            InputSticker::_Default(_) => InputSticker::_Default(()),
            InputSticker::Animated(x) => InputSticker::Animated(x.clone()),
            InputSticker::Static(x) => InputSticker::Static(x.clone()),
        }
    }
}

impl InputSticker {
    /// The tags of this variant's alternatives are pairwise distinct.
    pub proof fn lemma_tags_distinct()
        ensures
            "inputStickerAnimated"@ != "inputStickerStatic"@,
    {
        reveal_strlit("inputStickerAnimated");
        reveal_strlit("inputStickerStatic");
        assert("inputStickerAnimated"@.len() == 20);
        assert("inputStickerStatic"@.len() == 18);
    }
}

impl Wire for InputSticker {
    open spec fn wire_tree(self) -> Option<SpecJson> {
        match self {
            InputSticker::_Default(_) => None,
            InputSticker::Animated(x) => x.wire_tree(),
            InputSticker::Static(x) => x.wire_tree(),
        }
    }

    open spec fn accepts(t: SpecJson) -> bool {
        match tag_of(t) {
            None => false,
            Some(g) => {
                if g == InputStickerAnimated::tag_spec() {
                    InputStickerAnimated::accepts(t)
                } else if g == InputStickerStatic::tag_spec() {
                    InputStickerStatic::accepts(t)
                } else {
                    false
                }
            },
        }
    }

    open spec fn err_of(t: SpecJson) -> SpecDecodeError {
        match tag_of(t) {
            None => SpecDecodeError::Malformed,
            Some(g) => {
                if g == InputStickerAnimated::tag_spec() {
                    InputStickerAnimated::err_of(t)
                } else if g == InputStickerStatic::tag_spec() {
                    InputStickerStatic::err_of(t)
                } else {
                    SpecDecodeError::UnrecognizedVariant(g)
                }
            },
        }
    }

    open spec fn decodes_from(t: SpecJson, v: Self) -> bool {
        match tag_of(t) {
            None => false,
            Some(g) => {
                if g == InputStickerAnimated::tag_spec() {
                    v matches InputSticker::Animated(x) && InputStickerAnimated::decodes_from(t, x)
                } else if g == InputStickerStatic::tag_spec() {
                    v matches InputSticker::Static(x) && InputStickerStatic::decodes_from(t, x)
                } else {
                    false
                }
            },
        }
    }

    open spec fn eqv(self, other: Self) -> bool {
        match (self, other) {
            (InputSticker::_Default(_), InputSticker::_Default(_)) => true,
            (InputSticker::Animated(a), InputSticker::Animated(b)) => a.eqv(b),
            (InputSticker::Static(a), InputSticker::Static(b)) => a.eqv(b),
            _ => false,
        }
    }

    fn clone_val(&self) -> (r: Self) {
        self.clone()
    }

    fn decode_tree(t: &JsonValue) -> (r: Result<Self, DecodeError>) {
        let g = match get_tag(t) {
            Some(g) => g,
            None => {
                return Err(DecodeError::Malformed);
            },
        };
        if str_eq(g.as_str(), "inputStickerAnimated") {
            match InputStickerAnimated::decode_tree(t) {
                Ok(x) => Ok(InputSticker::Animated(x)),
                Err(e) => Err(e),
            }
        } else if str_eq(g.as_str(), "inputStickerStatic") {
            match InputStickerStatic::decode_tree(t) {
                Ok(x) => Ok(InputSticker::Static(x)),
                Err(e) => Err(e),
            }
        } else {
            Err(DecodeError::UnrecognizedVariant(g))
        }
    }

    fn encode_tree(&self) -> (r: Result<JsonValue, EncodeError>) {
        match self {
            InputSticker::_Default(_) => Err(EncodeError::Unrepresentable),
            InputSticker::Animated(x) => x.encode_tree(),
            InputSticker::Static(x) => x.encode_tree(),
        }
    }

    proof fn lemma_wire_wf(v: Self) {
        match v {
            InputSticker::_Default(_) => {},
            InputSticker::Animated(x) => {
                InputStickerAnimated::lemma_wire_wf(x);
            },
            InputSticker::Static(x) => {
                InputStickerStatic::lemma_wire_wf(x);
            },
        }
    }

    proof fn lemma_round_trip(v: Self) {
        Self::lemma_tags_distinct();
        match v {
            InputSticker::_Default(_) => {},
            InputSticker::Animated(x) => {
                if x.wire_tree() is Some {
                    let t = x.wire_tree()->0;
                    InputStickerAnimated::lemma_wire_tag(x);
                    InputStickerAnimated::lemma_round_trip(x);
                    assert(Self::accepts(t));
                    assert forall|w: Self| Self::decodes_from(t, w) implies #[trigger] w.eqv(v) by {
                        assert(w matches InputSticker::Animated(xi) && InputStickerAnimated::decodes_from(t, xi));
                    }
                }
            },
            InputSticker::Static(x) => {
                if x.wire_tree() is Some {
                    let t = x.wire_tree()->0;
                    InputStickerStatic::lemma_wire_tag(x);
                    InputStickerStatic::lemma_round_trip(x);
                    assert(Self::accepts(t));
                    assert forall|w: Self| Self::decodes_from(t, w) implies #[trigger] w.eqv(v) by {
                        assert(w matches InputSticker::Static(xi) && InputStickerStatic::decodes_from(t, xi));
                    }
                }
            },
        }
    }
}

impl RObject for InputSticker {
    open spec fn tag_chars(&self) -> Seq<char> {
        match self {
            InputSticker::_Default(_) => "-1"@,
            InputSticker::Animated(x) => InputStickerAnimated::tag_spec(),
            InputSticker::Static(x) => InputStickerStatic::tag_spec(),
        }
    }

    open spec fn extra_spec(&self) -> Option<Seq<char>> {
        match self {
            InputSticker::_Default(_) => None,
            InputSticker::Animated(x) => opt_str_view(x.extra),
            InputSticker::Static(x) => opt_str_view(x.extra),
    }
    }

    fn td_name(&self) -> (r: &'static str) {
        match self {
            InputSticker::_Default(_) => "-1",
            InputSticker::Animated(x) => x.td_name(),
            InputSticker::Static(x) => x.td_name(),
        }
    }

    fn extra(&self) -> (r: Option<String>) {
        match self {
            InputSticker::_Default(_) => None,
            InputSticker::Animated(x) => clone_opt_string(&x.extra),
            InputSticker::Static(x) => clone_opt_string(&x.extra),
        }
    }

    fn to_json(&self) -> (r: Result<String, EncodeError>) {
        crate::object::encode(self)
    }
}

impl InputSticker {
    pub fn from_json(json: &str) -> (r: Result<InputSticker, DecodeError>)
        ensures
            match crate::parse::parse_doc(json@) {
                Some(t) => match r {
                    Ok(v) => Self::accepts(t) && Self::decodes_from(t, v),
                    Err(e) => !Self::accepts(t) && crate::errors::err_matches(e, Self::err_of(t)),
                },
                None => r matches Err(e) && e == DecodeError::Malformed,
            },
    {
        crate::object::from_json::<InputSticker>(json)
    }

    pub fn _is_default(&self) -> (r: bool)
        ensures
            r == (self is _Default),
    {
        match self {
            InputSticker::_Default(_) => true,
            _ => false,
        }
    }

    pub fn is_animated(&self) -> (r: bool)
        ensures
            r == (self is Animated),
    {
        match self {
            InputSticker::Animated(_) => true,
            _ => false,
        }
    }

    pub fn is_static_(&self) -> (r: bool)
        ensures
            r == (self is Static),
    {
        match self {
            InputSticker::Static(_) => true,
            _ => false,
        }
    }

    pub fn as_animated(&self) -> (r: Option<&InputStickerAnimated>)
        ensures
            (self is Animated) == (r is Some),
            r matches Some(x) ==> *x == self->Animated_0,
    {
        match self {
            InputSticker::Animated(x) => Some(x),
            _ => None,
        }
    }

    pub fn as_static_(&self) -> (r: Option<&InputStickerStatic>)
        ensures
            (self is Static) == (r is Some),
            r matches Some(x) ==> *x == self->Static_0,
    {
        match self {
            InputSticker::Static(x) => Some(x),
            _ => None,
        }
    }

    pub fn animated(t: &InputStickerAnimated) -> (r: Self)
        ensures
            r matches InputSticker::Animated(x) && x.eqv(*t),
    {
        InputSticker::Animated(t.clone())
    }

    pub fn static_(t: &InputStickerStatic) -> (r: Self)
        ensures
            r matches InputSticker::Static(x) && x.eqv(*t),
    {
        InputSticker::Static(t.clone())
    }
}
/// An animated sticker in TGS format
#[derive(Debug, PartialEq)]
pub struct InputStickerAnimated {
    pub extra: Option<String>,
    /// Emojis corresponding to the sticker
    pub emojis: String,
}

impl InputStickerAnimated {
    pub open spec fn tag_spec() -> Seq<char> {
        "inputStickerAnimated"@
    }

    /// The members of the wire object, in the order they are written.
    pub open spec fn members_spec(self) -> Seq<(Seq<char>, SpecJson)> {
        seq![
            ("@type"@, SpecJson::Str(Self::tag_spec())),
            ("@extra"@, opt_str_tree(opt_str_view(self.extra))),
            ("emojis"@, SpecJson::Str(self.emojis@)),
        ]
    }

    pub open spec fn fields_ok(t: SpecJson) -> bool {
        &&& ok_opt_str(t, "@extra"@)
        &&& ok_str(t, "emojis"@)
    }

    pub open spec fn fail_field(t: SpecJson) -> Seq<char> {
        if !ok_opt_str(t, "@extra"@) {
            "@extra"@
        } else if !(ok_str(t, "emojis"@)) {
            "emojis"@
        } else {
            Seq::empty()
        }
    }

    /// The encoding of a value carries exactly this type's tag.
    pub proof fn lemma_wire_tag(v: InputStickerAnimated)
        ensures
            v.wire_tree() matches Some(t) ==> tag_of(t) == Some(InputStickerAnimated::tag_spec()),
    {
        if v.wire_tree() is Some {
            let t = v.wire_tree()->0;
            let ms = t->Obj_0;
            lemma_get_spec_found(ms, "@type"@, 0);
        }
    }
}

impl Clone for InputStickerAnimated {
    fn clone(&self) -> (res: Self)
        ensures
            res.eqv(*self),
    {
        InputStickerAnimated {
            extra: clone_opt_string(&self.extra),
            emojis: self.emojis.clone(),
        }
    }
}

impl Wire for InputStickerAnimated {
    open spec fn wire_tree(self) -> Option<SpecJson> {
        Some(SpecJson::Obj(self.members_spec()))
    }

    open spec fn accepts(t: SpecJson) -> bool {
        tag_of(t) is Some && Self::fields_ok(t)
    }

    open spec fn err_of(t: SpecJson) -> SpecDecodeError {
        match tag_of(t) {
            None => SpecDecodeError::Malformed,
            Some(_) => SpecDecodeError::FieldShapeMismatch(Self::tag_spec(), Self::fail_field(t)),
        }
    }

    open spec fn decodes_from(t: SpecJson, v: Self) -> bool {
        &&& m_opt_str(t, "@extra"@, v.extra)
        &&& m_str(t, "emojis"@, v.emojis@)
    }

    open spec fn eqv(self, other: Self) -> bool {
        &&& eqv_opt_string(self.extra, other.extra)
        &&& self.emojis@ == other.emojis@
    }

    fn clone_val(&self) -> (r: Self) {
        self.clone()
    }

    fn decode_tree(t: &JsonValue) -> (r: Result<Self, DecodeError>) {
        if get_tag(t).is_none() {
            return Err(DecodeError::Malformed);
        }
        let extra = match field_opt_string(t, "@extra") {
            Some(x) => x,
            None => {
                return Err(DecodeError::FieldShapeMismatch(
                    String::from_str("inputStickerAnimated"),
                    String::from_str("@extra"),
                ));
            },
        };
        let emojis = match field_string(t, "emojis") {
            Some(x) => x,
            None => {
                return Err(DecodeError::FieldShapeMismatch(
                    String::from_str("inputStickerAnimated"),
                    String::from_str("emojis"),
                ));
            },
        };
        Ok(InputStickerAnimated { extra, emojis })
    }

    fn encode_tree(&self) -> (r: Result<JsonValue, EncodeError>) {
        let mut members: Vec<JsonMember> = Vec::new();
        proof {
            assert(view_members(members@) =~= Seq::<(Seq<char>, SpecJson)>::empty());
        }
        push_member(&mut members, "@type", JsonValue::Str(String::from_str("inputStickerAnimated")));
        push_member(&mut members, "@extra", opt_string_tree(&self.extra));
        push_member(&mut members, "emojis", JsonValue::Str(self.emojis.clone()));
        let node = JsonValue::Obj(members);
        proof {
            assert(view_members(members@) =~= self.members_spec());
            assert(node@ == self.wire_tree()->0);
        }
        Ok(node)
    }

    proof fn lemma_wire_wf(v: Self) {
        if v.wire_tree() is Some {
            let t = v.wire_tree()->0;
            let ms = t->Obj_0;
            assert(ms == v.members_spec());
            assert forall|i: int| 0 <= i < ms.len() implies wf(#[trigger] ms[i].1) by {
            }
        }
    }

    proof fn lemma_round_trip(v: Self) {
        if v.wire_tree() is Some {
            let t = v.wire_tree()->0;
            let ms = t->Obj_0;
            assert(ms == v.members_spec());
            reveal_strlit("@type");
            reveal_strlit("@extra");
            reveal_strlit("emojis");
            assert("@type"@.len() == 5);
            assert("@extra"@.len() == 6);
            assert("emojis"@.len() == 6);
            assert("@extra"@[0] == '@' && "emojis"@[0] == 'e');
            reveal_with_fuel(get_spec, 5);
            lemma_get_spec_found(ms, "@type"@, 0);
            lemma_get_spec_found(ms, "@extra"@, 1);
            lemma_get_spec_found(ms, "emojis"@, 2);
            assert(tag_of(t) == Some(Self::tag_spec()));
            assert(ok_opt_str(t, "@extra"@));
            assert(ok_str(t, "emojis"@));
            assert(Self::accepts(t));
            assert forall|w: Self| Self::decodes_from(t, w) implies #[trigger] w.eqv(v) by {
            }
        }
    }
}

impl RObject for InputStickerAnimated {
    open spec fn tag_chars(&self) -> Seq<char> {
        Self::tag_spec()
    }

    open spec fn extra_spec(&self) -> Option<Seq<char>> {
        opt_str_view(self.extra)
    }

    fn td_name(&self) -> (r: &'static str) {
        "inputStickerAnimated"
    }

    fn extra(&self) -> (r: Option<String>) {
        clone_opt_string(&self.extra)
    }

    fn to_json(&self) -> (r: Result<String, EncodeError>) {
        crate::object::encode(self)
    }
}

impl TDInputSticker for InputStickerAnimated {

}

impl InputStickerAnimated {
    pub fn from_json(json: &str) -> (r: Result<InputStickerAnimated, DecodeError>)
        ensures
            match crate::parse::parse_doc(json@) {
                Some(t) => match r {
                    Ok(v) => Self::accepts(t) && Self::decodes_from(t, v),
                    Err(e) => !Self::accepts(t) && crate::errors::err_matches(e, Self::err_of(t)),
                },
                None => r matches Err(e) && e == DecodeError::Malformed,
            },
    {
        crate::object::from_json::<InputStickerAnimated>(json)
    }

    pub fn builder() -> (r: RTDInputStickerAnimatedBuilder)
        ensures
            r.inner.extra is Some,
            r.inner.emojis@ == Seq::<char>::empty(),
    {
        RTDInputStickerAnimatedBuilder {
            inner: InputStickerAnimated {
                extra: Some(new_token()),
                emojis: String::new(),
            },
        }
    }

    pub fn emojis(&self) -> (r: &String)
        ensures
            *r == self.emojis,
    {
        &self.emojis
    }
}

pub struct RTDInputStickerAnimatedBuilder {
    pub inner: InputStickerAnimated,
}

impl RTDInputStickerAnimatedBuilder {
    pub fn build(&self) -> (r: InputStickerAnimated)
        ensures
            r.eqv(self.inner),
    {
        self.inner.clone()
    }

    pub fn emojis(&mut self, emojis: String) -> (r: &mut Self)
        ensures
            *r == (RTDInputStickerAnimatedBuilder { inner: InputStickerAnimated { emojis: emojis, ..old(self).inner } }),
            *final(self) == *final(r),
    {
        self.inner.emojis = emojis;
        self
    }
}
/// A static sticker in PNG format, which will be converted to WEBP server-side
#[derive(Debug, PartialEq)]
pub struct InputStickerStatic {
    pub extra: Option<String>,
    /// Emojis corresponding to the sticker
    pub emojis: String,
}

impl InputStickerStatic {
    pub open spec fn tag_spec() -> Seq<char> {
        "inputStickerStatic"@
    }

    /// The members of the wire object, in the order they are written.
    pub open spec fn members_spec(self) -> Seq<(Seq<char>, SpecJson)> {
        seq![
            ("@type"@, SpecJson::Str(Self::tag_spec())),
            ("@extra"@, opt_str_tree(opt_str_view(self.extra))),
            ("emojis"@, SpecJson::Str(self.emojis@)),
        ]
    }

    pub open spec fn fields_ok(t: SpecJson) -> bool {
        &&& ok_opt_str(t, "@extra"@)
        &&& ok_str(t, "emojis"@)
    }

    pub open spec fn fail_field(t: SpecJson) -> Seq<char> {
        if !ok_opt_str(t, "@extra"@) {
            "@extra"@
        } else if !(ok_str(t, "emojis"@)) {
            "emojis"@
        } else {
            Seq::empty()
        }
    }

    /// The encoding of a value carries exactly this type's tag.
    pub proof fn lemma_wire_tag(v: InputStickerStatic)
        ensures
            v.wire_tree() matches Some(t) ==> tag_of(t) == Some(InputStickerStatic::tag_spec()),
    {
        if v.wire_tree() is Some {
            let t = v.wire_tree()->0;
            let ms = t->Obj_0;
            lemma_get_spec_found(ms, "@type"@, 0);
        }
    }
}

impl Clone for InputStickerStatic {
    fn clone(&self) -> (res: Self)
        ensures
            res.eqv(*self),
    {
        InputStickerStatic {
            extra: clone_opt_string(&self.extra),
            emojis: self.emojis.clone(),
        }
    }
}

impl Wire for InputStickerStatic {
    open spec fn wire_tree(self) -> Option<SpecJson> {
        Some(SpecJson::Obj(self.members_spec()))
    }

    open spec fn accepts(t: SpecJson) -> bool {
        tag_of(t) is Some && Self::fields_ok(t)
    }

    open spec fn err_of(t: SpecJson) -> SpecDecodeError {
        match tag_of(t) {
            None => SpecDecodeError::Malformed,
            Some(_) => SpecDecodeError::FieldShapeMismatch(Self::tag_spec(), Self::fail_field(t)),
        }
    }

    open spec fn decodes_from(t: SpecJson, v: Self) -> bool {
        &&& m_opt_str(t, "@extra"@, v.extra)
        &&& m_str(t, "emojis"@, v.emojis@)
    }

    open spec fn eqv(self, other: Self) -> bool {
        &&& eqv_opt_string(self.extra, other.extra)
        &&& self.emojis@ == other.emojis@
    }

    fn clone_val(&self) -> (r: Self) {
        self.clone()
    }

    fn decode_tree(t: &JsonValue) -> (r: Result<Self, DecodeError>) {
        if get_tag(t).is_none() {
            return Err(DecodeError::Malformed);
        }
        let extra = match field_opt_string(t, "@extra") {
            Some(x) => x,
            None => {
                return Err(DecodeError::FieldShapeMismatch(
                    String::from_str("inputStickerStatic"),
                    String::from_str("@extra"),
                ));
            },
        };
        let emojis = match field_string(t, "emojis") {
            Some(x) => x,
            None => {
                return Err(DecodeError::FieldShapeMismatch(
                    String::from_str("inputStickerStatic"),
                    String::from_str("emojis"),
                ));
            },
        };
        Ok(InputStickerStatic { extra, emojis })
    }

    fn encode_tree(&self) -> (r: Result<JsonValue, EncodeError>) {
        let mut members: Vec<JsonMember> = Vec::new();
        proof {
            assert(view_members(members@) =~= Seq::<(Seq<char>, SpecJson)>::empty());
        }
        push_member(&mut members, "@type", JsonValue::Str(String::from_str("inputStickerStatic")));
        push_member(&mut members, "@extra", opt_string_tree(&self.extra));
        push_member(&mut members, "emojis", JsonValue::Str(self.emojis.clone()));
        let node = JsonValue::Obj(members);
        proof {
            assert(view_members(members@) =~= self.members_spec());
            assert(node@ == self.wire_tree()->0);
        }
        Ok(node)
    }

    proof fn lemma_wire_wf(v: Self) {
        if v.wire_tree() is Some {
            let t = v.wire_tree()->0;
            let ms = t->Obj_0;
            assert(ms == v.members_spec());
            assert forall|i: int| 0 <= i < ms.len() implies wf(#[trigger] ms[i].1) by {
            }
        }
    }

    proof fn lemma_round_trip(v: Self) {
        if v.wire_tree() is Some {
            let t = v.wire_tree()->0;
            let ms = t->Obj_0;
            assert(ms == v.members_spec());
            reveal_strlit("@type");
            reveal_strlit("@extra");
            reveal_strlit("emojis");
            assert("@type"@.len() == 5);
            assert("@extra"@.len() == 6);
            assert("emojis"@.len() == 6);
            assert("@extra"@[0] == '@' && "emojis"@[0] == 'e');
            reveal_with_fuel(get_spec, 5);
            lemma_get_spec_found(ms, "@type"@, 0);
            lemma_get_spec_found(ms, "@extra"@, 1);
            lemma_get_spec_found(ms, "emojis"@, 2);
            assert(tag_of(t) == Some(Self::tag_spec()));
            assert(ok_opt_str(t, "@extra"@));
            assert(ok_str(t, "emojis"@));
            assert(Self::accepts(t));
            assert forall|w: Self| Self::decodes_from(t, w) implies #[trigger] w.eqv(v) by {
            }
        }
    }
}

impl RObject for InputStickerStatic {
    open spec fn tag_chars(&self) -> Seq<char> {
        Self::tag_spec()
    }

    open spec fn extra_spec(&self) -> Option<Seq<char>> {
        opt_str_view(self.extra)
    }

    fn td_name(&self) -> (r: &'static str) {
        "inputStickerStatic"
    }

    fn extra(&self) -> (r: Option<String>) {
        clone_opt_string(&self.extra)
    }

    fn to_json(&self) -> (r: Result<String, EncodeError>) {
        crate::object::encode(self)
    }
}

impl TDInputSticker for InputStickerStatic {

}

impl InputStickerStatic {
    pub fn from_json(json: &str) -> (r: Result<InputStickerStatic, DecodeError>)
        ensures
            match crate::parse::parse_doc(json@) {
                Some(t) => match r {
                    Ok(v) => Self::accepts(t) && Self::decodes_from(t, v),
                    Err(e) => !Self::accepts(t) && crate::errors::err_matches(e, Self::err_of(t)),
                },
                None => r matches Err(e) && e == DecodeError::Malformed,
            },
    {
        crate::object::from_json::<InputStickerStatic>(json)
    }

    pub fn builder() -> (r: RTDInputStickerStaticBuilder)
        ensures
            r.inner.extra is Some,
            r.inner.emojis@ == Seq::<char>::empty(),
    {
        RTDInputStickerStaticBuilder {
            inner: InputStickerStatic {
                extra: Some(new_token()),
                emojis: String::new(),
            },
        }
    }

    pub fn emojis(&self) -> (r: &String)
        ensures
            *r == self.emojis,
    {
        &self.emojis
    }
}

pub struct RTDInputStickerStaticBuilder {
    pub inner: InputStickerStatic,
}

impl RTDInputStickerStaticBuilder {
    pub fn build(&self) -> (r: InputStickerStatic)
        ensures
            r.eqv(self.inner),
    {
        self.inner.clone()
    }

    pub fn emojis(&mut self, emojis: String) -> (r: &mut Self)
        ensures
            *r == (RTDInputStickerStaticBuilder { inner: InputStickerStatic { emojis: emojis, ..old(self).inner } }),
            *final(self) == *final(r),
    {
        self.inner.emojis = emojis;
        self
    }
}
} // verus!
