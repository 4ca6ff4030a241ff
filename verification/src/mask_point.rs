use vstd::prelude::*;

use crate::errors::DecodeError;
use crate::errors::EncodeError;
use crate::errors::SpecDecodeError;
use crate::json::JsonMember;
use crate::json::JsonValue;
use crate::json::SpecJson;
use crate::json::view_members;
use crate::json::wf;
use crate::object::RObject;
use crate::object::Wire;
use crate::object::clone_opt_string;
use crate::object::eqv_opt_string;
use crate::object::field_opt_string;
use crate::object::get_spec;
use crate::object::get_tag;
use crate::object::lemma_get_spec_found;
use crate::object::m_opt_str;
use crate::object::new_token;
use crate::object::ok_opt_str;
use crate::object::opt_str_tree;
use crate::object::opt_str_view;
use crate::object::opt_string_tree;
use crate::object::push_member;
use crate::object::str_eq;
use crate::object::tag_of;

verus! {

/// Part of the face, relative to which a mask is placed
pub trait TDMaskPoint: RObject {

}

/// Part of the face, relative to which a mask is placed
#[derive(Debug, PartialEq)]
pub enum MaskPoint {
    _Default(()),
    /// The mask is placed relatively to the chin
    Chin(MaskPointChin),
    /// The mask is placed relatively to the eyes
    Eyes(MaskPointEyes),
    /// The mask is placed relatively to the forehead
    Forehead(MaskPointForehead),
    /// The mask is placed relatively to the mouth
    Mouth(MaskPointMouth),
}

impl Clone for MaskPoint {
    fn clone(&self) -> (res: Self)
        ensures
            res.eqv(*self),
    {
        match self {
            MaskPoint::_Default(_) => MaskPoint::_Default(()),
            MaskPoint::Chin(x) => MaskPoint::Chin(x.clone()),
            MaskPoint::Eyes(x) => MaskPoint::Eyes(x.clone()),
            MaskPoint::Forehead(x) => MaskPoint::Forehead(x.clone()),
            MaskPoint::Mouth(x) => MaskPoint::Mouth(x.clone()),
        }
    }
}

impl MaskPoint {
    /// The tags of this variant's alternatives are pairwise distinct.
    pub proof fn lemma_tags_distinct()
        ensures
            "maskPointChin"@ != "maskPointEyes"@,
            "maskPointChin"@ != "maskPointForehead"@,
            "maskPointChin"@ != "maskPointMouth"@,
            "maskPointEyes"@ != "maskPointForehead"@,
            "maskPointEyes"@ != "maskPointMouth"@,
            "maskPointForehead"@ != "maskPointMouth"@,
    {
        reveal_strlit("maskPointChin");
        reveal_strlit("maskPointEyes");
        reveal_strlit("maskPointForehead");
        reveal_strlit("maskPointMouth");
        assert("maskPointChin"@.len() == 13);
        assert("maskPointEyes"@.len() == 13);
        assert("maskPointForehead"@.len() == 17);
        assert("maskPointMouth"@.len() == 14);
        assert("maskPointChin"@[9] == 'C' && "maskPointEyes"@[9] == 'E');
    }
}

impl Wire for MaskPoint {
    open spec fn wire_tree(self) -> Option<SpecJson> {
        match self {
            MaskPoint::_Default(_) => None,
            MaskPoint::Chin(x) => x.wire_tree(),
            MaskPoint::Eyes(x) => x.wire_tree(),
            MaskPoint::Forehead(x) => x.wire_tree(),
            MaskPoint::Mouth(x) => x.wire_tree(),
        }
    }

    open spec fn accepts(t: SpecJson) -> bool {
        match tag_of(t) {
            None => false,
            Some(g) => {
                if g == MaskPointChin::tag_spec() {
                    MaskPointChin::accepts(t)
                } else if g == MaskPointEyes::tag_spec() {
                    MaskPointEyes::accepts(t)
                } else if g == MaskPointForehead::tag_spec() {
                    MaskPointForehead::accepts(t)
                } else if g == MaskPointMouth::tag_spec() {
                    MaskPointMouth::accepts(t)
                } else {
                    false
                }
            },
        }
    }

    open spec fn err_of(t: SpecJson) -> SpecDecodeError {
        match tag_of(t) {
            None => SpecDecodeError::Malformed,
            Some(g) => {
                if g == MaskPointChin::tag_spec() {
                    MaskPointChin::err_of(t)
                } else if g == MaskPointEyes::tag_spec() {
                    MaskPointEyes::err_of(t)
                } else if g == MaskPointForehead::tag_spec() {
                    MaskPointForehead::err_of(t)
                } else if g == MaskPointMouth::tag_spec() {
                    MaskPointMouth::err_of(t)
                } else {
                    SpecDecodeError::UnrecognizedVariant(g)
                }
            },
        }
    }

    open spec fn decodes_from(t: SpecJson, v: Self) -> bool {
        match tag_of(t) {
            None => false,
            Some(g) => {
                if g == MaskPointChin::tag_spec() {
                    v matches MaskPoint::Chin(x) && MaskPointChin::decodes_from(t, x)
                } else if g == MaskPointEyes::tag_spec() {
                    v matches MaskPoint::Eyes(x) && MaskPointEyes::decodes_from(t, x)
                } else if g == MaskPointForehead::tag_spec() {
                    v matches MaskPoint::Forehead(x) && MaskPointForehead::decodes_from(t, x)
                } else if g == MaskPointMouth::tag_spec() {
                    v matches MaskPoint::Mouth(x) && MaskPointMouth::decodes_from(t, x)
                } else {
                    false
                }
            },
        }
    }

    open spec fn eqv(self, other: Self) -> bool {
        match (self, other) {
            (MaskPoint::_Default(_), MaskPoint::_Default(_)) => true,
            (MaskPoint::Chin(a), MaskPoint::Chin(b)) => a.eqv(b),
            (MaskPoint::Eyes(a), MaskPoint::Eyes(b)) => a.eqv(b),
            (MaskPoint::Forehead(a), MaskPoint::Forehead(b)) => a.eqv(b),
            (MaskPoint::Mouth(a), MaskPoint::Mouth(b)) => a.eqv(b),
            _ => false,
        }
    }

    fn clone_val(&self) -> (r: Self) {
        self.clone()
    }

    fn decode_tree(t: &JsonValue) -> (r: Result<Self, DecodeError>) {
        let g = match get_tag(t) {
            Some(g) => g,
            None => {
                return Err(DecodeError::Malformed);
            },
        };
        if str_eq(g.as_str(), "maskPointChin") {
            match MaskPointChin::decode_tree(t) {
                Ok(x) => Ok(MaskPoint::Chin(x)),
                Err(e) => Err(e),
            }
        } else if str_eq(g.as_str(), "maskPointEyes") {
            match MaskPointEyes::decode_tree(t) {
                Ok(x) => Ok(MaskPoint::Eyes(x)),
                Err(e) => Err(e),
            }
        } else if str_eq(g.as_str(), "maskPointForehead") {
            match MaskPointForehead::decode_tree(t) {
                Ok(x) => Ok(MaskPoint::Forehead(x)),
                Err(e) => Err(e),
            }
        } else if str_eq(g.as_str(), "maskPointMouth") {
            match MaskPointMouth::decode_tree(t) {
                Ok(x) => Ok(MaskPoint::Mouth(x)),
                Err(e) => Err(e),
            }
        } else {
            Err(DecodeError::UnrecognizedVariant(g))
        }
    }

    fn encode_tree(&self) -> (r: Result<JsonValue, EncodeError>) {
        match self {
            MaskPoint::_Default(_) => Err(EncodeError::Unrepresentable),
            MaskPoint::Chin(x) => x.encode_tree(),
            MaskPoint::Eyes(x) => x.encode_tree(),
            MaskPoint::Forehead(x) => x.encode_tree(),
            MaskPoint::Mouth(x) => x.encode_tree(),
        }
    }

    proof fn lemma_wire_wf(v: Self) {
        match v {
            MaskPoint::_Default(_) => {},
            MaskPoint::Chin(x) => {
                MaskPointChin::lemma_wire_wf(x);
            },
            MaskPoint::Eyes(x) => {
                MaskPointEyes::lemma_wire_wf(x);
            },
            MaskPoint::Forehead(x) => {
                MaskPointForehead::lemma_wire_wf(x);
            },
            MaskPoint::Mouth(x) => {
                MaskPointMouth::lemma_wire_wf(x);
            },
        }
    }

    proof fn lemma_round_trip(v: Self) {
        Self::lemma_tags_distinct();
        match v {
            MaskPoint::_Default(_) => {},
            MaskPoint::Chin(x) => {
                if x.wire_tree() is Some {
                    let t = x.wire_tree()->0;
                    MaskPointChin::lemma_wire_tag(x);
                    MaskPointChin::lemma_round_trip(x);
                    assert(Self::accepts(t));
                    assert forall|w: Self| Self::decodes_from(t, w) implies #[trigger] w.eqv(v) by {
                        assert(w matches MaskPoint::Chin(xi) && MaskPointChin::decodes_from(t, xi));
                    }
                }
            },
            MaskPoint::Eyes(x) => {
                if x.wire_tree() is Some {
                    let t = x.wire_tree()->0;
                    MaskPointEyes::lemma_wire_tag(x);
                    MaskPointEyes::lemma_round_trip(x);
                    assert(Self::accepts(t));
                    assert forall|w: Self| Self::decodes_from(t, w) implies #[trigger] w.eqv(v) by {
                        assert(w matches MaskPoint::Eyes(xi) && MaskPointEyes::decodes_from(t, xi));
                    }
                }
            },
            MaskPoint::Forehead(x) => {
                if x.wire_tree() is Some {
                    let t = x.wire_tree()->0;
                    MaskPointForehead::lemma_wire_tag(x);
                    MaskPointForehead::lemma_round_trip(x);
                    assert(Self::accepts(t));
                    assert forall|w: Self| Self::decodes_from(t, w) implies #[trigger] w.eqv(v) by {
                        assert(w matches MaskPoint::Forehead(xi) && MaskPointForehead::decodes_from(t, xi));
                    }
                }
            },
            MaskPoint::Mouth(x) => {
                if x.wire_tree() is Some {
                    let t = x.wire_tree()->0;
                    MaskPointMouth::lemma_wire_tag(x);
                    MaskPointMouth::lemma_round_trip(x);
                    assert(Self::accepts(t));
                    assert forall|w: Self| Self::decodes_from(t, w) implies #[trigger] w.eqv(v) by {
                        assert(w matches MaskPoint::Mouth(xi) && MaskPointMouth::decodes_from(t, xi));
                    }
                }
            },
        }
    }
}

impl RObject for MaskPoint {
    open spec fn tag_chars(&self) -> Seq<char> {
        match self {
            MaskPoint::_Default(_) => "-1"@,
            MaskPoint::Chin(x) => MaskPointChin::tag_spec(),
            MaskPoint::Eyes(x) => MaskPointEyes::tag_spec(),
            MaskPoint::Forehead(x) => MaskPointForehead::tag_spec(),
            MaskPoint::Mouth(x) => MaskPointMouth::tag_spec(),
        }
    }

    open spec fn extra_spec(&self) -> Option<Seq<char>> {
        match self {
            MaskPoint::_Default(_) => None,
            MaskPoint::Chin(x) => opt_str_view(x.extra),
            MaskPoint::Eyes(x) => opt_str_view(x.extra),
            MaskPoint::Forehead(x) => opt_str_view(x.extra),
            MaskPoint::Mouth(x) => opt_str_view(x.extra),
    }
    }

    fn td_name(&self) -> (r: &'static str) {
        match self {
            MaskPoint::_Default(_) => "-1",
            MaskPoint::Chin(x) => x.td_name(),
            MaskPoint::Eyes(x) => x.td_name(),
            MaskPoint::Forehead(x) => x.td_name(),
            MaskPoint::Mouth(x) => x.td_name(),
        }
    }

    fn extra(&self) -> (r: Option<String>) {
        match self {
            MaskPoint::_Default(_) => None,
            MaskPoint::Chin(x) => clone_opt_string(&x.extra),
            MaskPoint::Eyes(x) => clone_opt_string(&x.extra),
            MaskPoint::Forehead(x) => clone_opt_string(&x.extra),
            MaskPoint::Mouth(x) => clone_opt_string(&x.extra),
        }
    }

    fn to_json(&self) -> (r: Result<String, EncodeError>) {
        crate::object::encode(self)
    }
}

impl MaskPoint {
    pub fn from_json(json: &str) -> (r: Result<MaskPoint, DecodeError>)
        ensures
            match crate::parse::parse_doc(json@) {
                Some(t) => match r {
                    Ok(v) => Self::accepts(t) && Self::decodes_from(t, v),
                    Err(e) => !Self::accepts(t) && crate::errors::err_matches(e, Self::err_of(t)),
                },
                None => r matches Err(e) && e == DecodeError::Malformed,
            },
    {
        crate::object::from_json::<MaskPoint>(json)
    }

    pub fn _is_default(&self) -> (r: bool)
        ensures
            r == (self is _Default),
    {
        match self {
            MaskPoint::_Default(_) => true,
            _ => false,
        }
    }

    pub fn is_chin(&self) -> (r: bool)
        ensures
            r == (self is Chin),
    {
        match self {
            MaskPoint::Chin(_) => true,
            _ => false,
        }
    }

    pub fn is_eyes(&self) -> (r: bool)
        ensures
            r == (self is Eyes),
    {
        match self {
            MaskPoint::Eyes(_) => true,
            _ => false,
        }
    }

    pub fn is_forehead(&self) -> (r: bool)
        ensures
            r == (self is Forehead),
    {
        match self {
            MaskPoint::Forehead(_) => true,
            _ => false,
        }
    }

    pub fn is_mouth(&self) -> (r: bool)
        ensures
            r == (self is Mouth),
    {
        match self {
            MaskPoint::Mouth(_) => true,
            _ => false,
        }
    }

    pub fn as_chin(&self) -> (r: Option<&MaskPointChin>)
        ensures
            (self is Chin) == (r is Some),
            r matches Some(x) ==> *x == self->Chin_0,
    {
        match self {
            MaskPoint::Chin(x) => Some(x),
            _ => None,
        }
    }

    pub fn as_eyes(&self) -> (r: Option<&MaskPointEyes>)
        ensures
            (self is Eyes) == (r is Some),
            r matches Some(x) ==> *x == self->Eyes_0,
    {
        match self {
            MaskPoint::Eyes(x) => Some(x),
            _ => None,
        }
    }

    pub fn as_forehead(&self) -> (r: Option<&MaskPointForehead>)
        ensures
            (self is Forehead) == (r is Some),
            r matches Some(x) ==> *x == self->Forehead_0,
    {
        match self {
            MaskPoint::Forehead(x) => Some(x),
            _ => None,
        }
    }

    pub fn as_mouth(&self) -> (r: Option<&MaskPointMouth>)
        ensures
            (self is Mouth) == (r is Some),
            r matches Some(x) ==> *x == self->Mouth_0,
    {
        match self {
            MaskPoint::Mouth(x) => Some(x),
            _ => None,
        }
    }

    pub fn chin(t: &MaskPointChin) -> (r: Self)
        ensures
            r matches MaskPoint::Chin(x) && x.eqv(*t),
    {
        MaskPoint::Chin(t.clone())
    }

    pub fn eyes(t: &MaskPointEyes) -> (r: Self)
        ensures
            r matches MaskPoint::Eyes(x) && x.eqv(*t),
    {
        MaskPoint::Eyes(t.clone())
    }

    pub fn forehead(t: &MaskPointForehead) -> (r: Self)
        ensures
            r matches MaskPoint::Forehead(x) && x.eqv(*t),
    {
        MaskPoint::Forehead(t.clone())
    }

    pub fn mouth(t: &MaskPointMouth) -> (r: Self)
        ensures
            r matches MaskPoint::Mouth(x) && x.eqv(*t),
    {
        MaskPoint::Mouth(t.clone())
    }
}
/// The mask is placed relatively to the chin
#[derive(Debug, PartialEq)]
pub struct MaskPointChin {
    pub extra: Option<String>,
}

impl MaskPointChin {
    pub open spec fn tag_spec() -> Seq<char> {
        "maskPointChin"@
    }

    /// The members of the wire object, in the order they are written.
    pub open spec fn members_spec(self) -> Seq<(Seq<char>, SpecJson)> {
        seq![
            ("@type"@, SpecJson::Str(Self::tag_spec())),
            ("@extra"@, opt_str_tree(opt_str_view(self.extra))),
        ]
    }

    pub open spec fn fields_ok(t: SpecJson) -> bool {
        &&& ok_opt_str(t, "@extra"@)
    }

    pub open spec fn fail_field(t: SpecJson) -> Seq<char> {
        if !ok_opt_str(t, "@extra"@) {
            "@extra"@
        } else {
            Seq::empty()
        }
    }

    /// The encoding of a value carries exactly this type's tag.
    pub proof fn lemma_wire_tag(v: MaskPointChin)
        ensures
            v.wire_tree() matches Some(t) ==> tag_of(t) == Some(MaskPointChin::tag_spec()),
    {
        if v.wire_tree() is Some {
            let t = v.wire_tree()->0;
            let ms = t->Obj_0;
            lemma_get_spec_found(ms, "@type"@, 0);
        }
    }
}

impl Clone for MaskPointChin {
    fn clone(&self) -> (res: Self)
        ensures
            res.eqv(*self),
    {
        MaskPointChin {
            extra: clone_opt_string(&self.extra),
        }
    }
}

impl Wire for MaskPointChin {
    open spec fn wire_tree(self) -> Option<SpecJson> {
        Some(SpecJson::Obj(self.members_spec()))
    }

    open spec fn accepts(t: SpecJson) -> bool {
        tag_of(t) is Some && Self::fields_ok(t)
    }

    open spec fn err_of(t: SpecJson) -> SpecDecodeError {
        match tag_of(t) {
            None => SpecDecodeError::Malformed,
            Some(_) => SpecDecodeError::FieldShapeMismatch(Self::tag_spec(), Self::fail_field(t)),
        }
    }

    open spec fn decodes_from(t: SpecJson, v: Self) -> bool {
        &&& m_opt_str(t, "@extra"@, v.extra)
    }

    open spec fn eqv(self, other: Self) -> bool {
        &&& eqv_opt_string(self.extra, other.extra)
    }

    fn clone_val(&self) -> (r: Self) {
        self.clone()
    }

    fn decode_tree(t: &JsonValue) -> (r: Result<Self, DecodeError>) {
        if get_tag(t).is_none() {
            return Err(DecodeError::Malformed);
        }
        let extra = match field_opt_string(t, "@extra") {
            Some(x) => x,
            None => {
                return Err(DecodeError::FieldShapeMismatch(
                    String::from_str("maskPointChin"),
                    String::from_str("@extra"),
                ));
            },
        };
        Ok(MaskPointChin { extra })
    }

    fn encode_tree(&self) -> (r: Result<JsonValue, EncodeError>) {
        let mut members: Vec<JsonMember> = Vec::new();
        proof {
            assert(view_members(members@) =~= Seq::<(Seq<char>, SpecJson)>::empty());
        }
        push_member(&mut members, "@type", JsonValue::Str(String::from_str("maskPointChin")));
        push_member(&mut members, "@extra", opt_string_tree(&self.extra));
        let node = JsonValue::Obj(members);
        proof {
            assert(view_members(members@) =~= self.members_spec());
            assert(node@ == self.wire_tree()->0);
        }
        Ok(node)
    }

    proof fn lemma_wire_wf(v: Self) {
        if v.wire_tree() is Some {
            let t = v.wire_tree()->0;
            let ms = t->Obj_0;
            assert(ms == v.members_spec());
            assert forall|i: int| 0 <= i < ms.len() implies wf(#[trigger] ms[i].1) by {
            }
        }
    }

    proof fn lemma_round_trip(v: Self) {
        if v.wire_tree() is Some {
            let t = v.wire_tree()->0;
            let ms = t->Obj_0;
            assert(ms == v.members_spec());
            reveal_strlit("@type");
            reveal_strlit("@extra");
            assert("@type"@.len() == 5);
            assert("@extra"@.len() == 6);
            reveal_with_fuel(get_spec, 4);
            lemma_get_spec_found(ms, "@type"@, 0);
            lemma_get_spec_found(ms, "@extra"@, 1);
            assert(tag_of(t) == Some(Self::tag_spec()));
            assert(ok_opt_str(t, "@extra"@));
            assert(Self::accepts(t));
            assert forall|w: Self| Self::decodes_from(t, w) implies #[trigger] w.eqv(v) by {
            }
        }
    }
}

impl RObject for MaskPointChin {
    open spec fn tag_chars(&self) -> Seq<char> {
        Self::tag_spec()
    }

    open spec fn extra_spec(&self) -> Option<Seq<char>> {
        opt_str_view(self.extra)
    }

    fn td_name(&self) -> (r: &'static str) {
        "maskPointChin"
    }

    fn extra(&self) -> (r: Option<String>) {
        clone_opt_string(&self.extra)
    }

    fn to_json(&self) -> (r: Result<String, EncodeError>) {
        crate::object::encode(self)
    }
}

impl TDMaskPoint for MaskPointChin {

}

impl MaskPointChin {
    pub fn from_json(json: &str) -> (r: Result<MaskPointChin, DecodeError>)
        ensures
            match crate::parse::parse_doc(json@) {
                Some(t) => match r {
                    Ok(v) => Self::accepts(t) && Self::decodes_from(t, v),
                    Err(e) => !Self::accepts(t) && crate::errors::err_matches(e, Self::err_of(t)),
                },
                None => r matches Err(e) && e == DecodeError::Malformed,
            },
    {
        crate::object::from_json::<MaskPointChin>(json)
    }

    pub fn builder() -> (r: RTDMaskPointChinBuilder)
        ensures
            r.inner.extra is Some,
    {
        RTDMaskPointChinBuilder {
            inner: MaskPointChin {
                extra: Some(new_token()),
            },
        }
    }
}

pub struct RTDMaskPointChinBuilder {
    pub inner: MaskPointChin,
}

impl RTDMaskPointChinBuilder {
    pub fn build(&self) -> (r: MaskPointChin)
        ensures
            r.eqv(self.inner),
    {
        self.inner.clone()
    }
}
/// The mask is placed relatively to the eyes
#[derive(Debug, PartialEq)]
pub struct MaskPointEyes {
    pub extra: Option<String>,
}

impl MaskPointEyes {
    pub open spec fn tag_spec() -> Seq<char> {
        "maskPointEyes"@
    }

    /// The members of the wire object, in the order they are written.
    pub open spec fn members_spec(self) -> Seq<(Seq<char>, SpecJson)> {
        seq![
            ("@type"@, SpecJson::Str(Self::tag_spec())),
            ("@extra"@, opt_str_tree(opt_str_view(self.extra))),
        ]
    }

    pub open spec fn fields_ok(t: SpecJson) -> bool {
        &&& ok_opt_str(t, "@extra"@)
    }

    pub open spec fn fail_field(t: SpecJson) -> Seq<char> {
        if !ok_opt_str(t, "@extra"@) {
            "@extra"@
        } else {
            Seq::empty()
        }
    }

    /// The encoding of a value carries exactly this type's tag.
    pub proof fn lemma_wire_tag(v: MaskPointEyes)
        ensures
            v.wire_tree() matches Some(t) ==> tag_of(t) == Some(MaskPointEyes::tag_spec()),
    {
        if v.wire_tree() is Some {
            let t = v.wire_tree()->0;
            let ms = t->Obj_0;
            lemma_get_spec_found(ms, "@type"@, 0);
        }
    }
}

impl Clone for MaskPointEyes {
    fn clone(&self) -> (res: Self)
        ensures
            res.eqv(*self),
    {
        MaskPointEyes {
            extra: clone_opt_string(&self.extra),
        }
    }
}

impl Wire for MaskPointEyes {
    open spec fn wire_tree(self) -> Option<SpecJson> {
        Some(SpecJson::Obj(self.members_spec()))
    }

    open spec fn accepts(t: SpecJson) -> bool {
        tag_of(t) is Some && Self::fields_ok(t)
    }

    open spec fn err_of(t: SpecJson) -> SpecDecodeError {
        match tag_of(t) {
            None => SpecDecodeError::Malformed,
            Some(_) => SpecDecodeError::FieldShapeMismatch(Self::tag_spec(), Self::fail_field(t)),
        }
    }

    open spec fn decodes_from(t: SpecJson, v: Self) -> bool {
        &&& m_opt_str(t, "@extra"@, v.extra)
    }

    open spec fn eqv(self, other: Self) -> bool {
        &&& eqv_opt_string(self.extra, other.extra)
    }

    fn clone_val(&self) -> (r: Self) {
        self.clone()
    }

    fn decode_tree(t: &JsonValue) -> (r: Result<Self, DecodeError>) {
        if get_tag(t).is_none() {
            return Err(DecodeError::Malformed);
        }
        let extra = match field_opt_string(t, "@extra") {
            Some(x) => x,
            None => {
                return Err(DecodeError::FieldShapeMismatch(
                    String::from_str("maskPointEyes"),
                    String::from_str("@extra"),
                ));
            },
        };
        Ok(MaskPointEyes { extra })
    }

    fn encode_tree(&self) -> (r: Result<JsonValue, EncodeError>) {
        let mut members: Vec<JsonMember> = Vec::new();
        proof {
            assert(view_members(members@) =~= Seq::<(Seq<char>, SpecJson)>::empty());
        }
        push_member(&mut members, "@type", JsonValue::Str(String::from_str("maskPointEyes")));
        push_member(&mut members, "@extra", opt_string_tree(&self.extra));
        let node = JsonValue::Obj(members);
        proof {
            assert(view_members(members@) =~= self.members_spec());
            assert(node@ == self.wire_tree()->0);
        }
        Ok(node)
    }

    proof fn lemma_wire_wf(v: Self) {
        if v.wire_tree() is Some {
            let t = v.wire_tree()->0;
            let ms = t->Obj_0;
            assert(ms == v.members_spec());
            assert forall|i: int| 0 <= i < ms.len() implies wf(#[trigger] ms[i].1) by {
            }
        }
    }

    proof fn lemma_round_trip(v: Self) {
        if v.wire_tree() is Some {
            let t = v.wire_tree()->0;
            let ms = t->Obj_0;
            assert(ms == v.members_spec());
            reveal_strlit("@type");
            reveal_strlit("@extra");
            assert("@type"@.len() == 5);
            assert("@extra"@.len() == 6);
            reveal_with_fuel(get_spec, 4);
            lemma_get_spec_found(ms, "@type"@, 0);
            lemma_get_spec_found(ms, "@extra"@, 1);
            assert(tag_of(t) == Some(Self::tag_spec()));
            assert(ok_opt_str(t, "@extra"@));
            assert(Self::accepts(t));
            assert forall|w: Self| Self::decodes_from(t, w) implies #[trigger] w.eqv(v) by {
            }
        }
    }
}

impl RObject for MaskPointEyes {
    open spec fn tag_chars(&self) -> Seq<char> {
        Self::tag_spec()
    }

    open spec fn extra_spec(&self) -> Option<Seq<char>> {
        opt_str_view(self.extra)
    }

    fn td_name(&self) -> (r: &'static str) {
        "maskPointEyes"
    }

    fn extra(&self) -> (r: Option<String>) {
        clone_opt_string(&self.extra)
    }

    fn to_json(&self) -> (r: Result<String, EncodeError>) {
        crate::object::encode(self)
    }
}

impl TDMaskPoint for MaskPointEyes {

}

impl MaskPointEyes {
    pub fn from_json(json: &str) -> (r: Result<MaskPointEyes, DecodeError>)
        ensures
            match crate::parse::parse_doc(json@) {
                Some(t) => match r {
                    Ok(v) => Self::accepts(t) && Self::decodes_from(t, v),
                    Err(e) => !Self::accepts(t) && crate::errors::err_matches(e, Self::err_of(t)),
                },
                None => r matches Err(e) && e == DecodeError::Malformed,
            },
    {
        crate::object::from_json::<MaskPointEyes>(json)
    }

    pub fn builder() -> (r: RTDMaskPointEyesBuilder)
        ensures
            r.inner.extra is Some,
    {
        RTDMaskPointEyesBuilder {
            inner: MaskPointEyes {
                extra: Some(new_token()),
            },
        }
    }
}

pub struct RTDMaskPointEyesBuilder {
    pub inner: MaskPointEyes,
}

impl RTDMaskPointEyesBuilder {
    pub fn build(&self) -> (r: MaskPointEyes)
        ensures
            r.eqv(self.inner),
    {
        self.inner.clone()
    }
}
/// The mask is placed relatively to the forehead
#[derive(Debug, PartialEq)]
pub struct MaskPointForehead {
    pub extra: Option<String>,
}

impl MaskPointForehead {
    pub open spec fn tag_spec() -> Seq<char> {
        "maskPointForehead"@
    }

    /// The members of the wire object, in the order they are written.
    pub open spec fn members_spec(self) -> Seq<(Seq<char>, SpecJson)> {
        seq![
            ("@type"@, SpecJson::Str(Self::tag_spec())),
            ("@extra"@, opt_str_tree(opt_str_view(self.extra))),
        ]
    }

    pub open spec fn fields_ok(t: SpecJson) -> bool {
        &&& ok_opt_str(t, "@extra"@)
    }

    pub open spec fn fail_field(t: SpecJson) -> Seq<char> {
        if !ok_opt_str(t, "@extra"@) {
            "@extra"@
        } else {
            Seq::empty()
        }
    }

    /// The encoding of a value carries exactly this type's tag.
    pub proof fn lemma_wire_tag(v: MaskPointForehead)
        ensures
            v.wire_tree() matches Some(t) ==> tag_of(t) == Some(MaskPointForehead::tag_spec()),
    {
        if v.wire_tree() is Some {
            let t = v.wire_tree()->0;
            let ms = t->Obj_0;
            lemma_get_spec_found(ms, "@type"@, 0);
        }
    }
}

impl Clone for MaskPointForehead {
    fn clone(&self) -> (res: Self)
        ensures
            res.eqv(*self),
    {
        MaskPointForehead {
            extra: clone_opt_string(&self.extra),
        }
    }
}

impl Wire for MaskPointForehead {
    open spec fn wire_tree(self) -> Option<SpecJson> {
        Some(SpecJson::Obj(self.members_spec()))
    }

    open spec fn accepts(t: SpecJson) -> bool {
        tag_of(t) is Some && Self::fields_ok(t)
    }

    open spec fn err_of(t: SpecJson) -> SpecDecodeError {
        match tag_of(t) {
            None => SpecDecodeError::Malformed,
            Some(_) => SpecDecodeError::FieldShapeMismatch(Self::tag_spec(), Self::fail_field(t)),
        }
    }

    open spec fn decodes_from(t: SpecJson, v: Self) -> bool {
        &&& m_opt_str(t, "@extra"@, v.extra)
    }

    open spec fn eqv(self, other: Self) -> bool {
        &&& eqv_opt_string(self.extra, other.extra)
    }

    fn clone_val(&self) -> (r: Self) {
        self.clone()
    }

    fn decode_tree(t: &JsonValue) -> (r: Result<Self, DecodeError>) {
        if get_tag(t).is_none() {
            return Err(DecodeError::Malformed);
        }
        let extra = match field_opt_string(t, "@extra") {
            Some(x) => x,
            None => {
                return Err(DecodeError::FieldShapeMismatch(
                    String::from_str("maskPointForehead"),
                    String::from_str("@extra"),
                ));
            },
        };
        Ok(MaskPointForehead { extra })
    }

    fn encode_tree(&self) -> (r: Result<JsonValue, EncodeError>) {
        let mut members: Vec<JsonMember> = Vec::new();
        proof {
            assert(view_members(members@) =~= Seq::<(Seq<char>, SpecJson)>::empty());
        }
        push_member(&mut members, "@type", JsonValue::Str(String::from_str("maskPointForehead")));
        push_member(&mut members, "@extra", opt_string_tree(&self.extra));
        let node = JsonValue::Obj(members);
        proof {
            assert(view_members(members@) =~= self.members_spec());
            assert(node@ == self.wire_tree()->0);
        }
        Ok(node)
    }

    proof fn lemma_wire_wf(v: Self) {
        if v.wire_tree() is Some {
            let t = v.wire_tree()->0;
            let ms = t->Obj_0;
            assert(ms == v.members_spec());
            assert forall|i: int| 0 <= i < ms.len() implies wf(#[trigger] ms[i].1) by {
            }
        }
    }

    proof fn lemma_round_trip(v: Self) {
        if v.wire_tree() is Some {
            let t = v.wire_tree()->0;
            let ms = t->Obj_0;
            assert(ms == v.members_spec());
            reveal_strlit("@type");
            reveal_strlit("@extra");
            assert("@type"@.len() == 5);
            assert("@extra"@.len() == 6);
            reveal_with_fuel(get_spec, 4);
            lemma_get_spec_found(ms, "@type"@, 0);
            lemma_get_spec_found(ms, "@extra"@, 1);
            assert(tag_of(t) == Some(Self::tag_spec()));
            assert(ok_opt_str(t, "@extra"@));
            assert(Self::accepts(t));
            assert forall|w: Self| Self::decodes_from(t, w) implies #[trigger] w.eqv(v) by {
            }
        }
    }
}

impl RObject for MaskPointForehead {
    open spec fn tag_chars(&self) -> Seq<char> {
        Self::tag_spec()
    }

    open spec fn extra_spec(&self) -> Option<Seq<char>> {
        opt_str_view(self.extra)
    }

    fn td_name(&self) -> (r: &'static str) {
        "maskPointForehead"
    }

    fn extra(&self) -> (r: Option<String>) {
        clone_opt_string(&self.extra)
    }

    fn to_json(&self) -> (r: Result<String, EncodeError>) {
        crate::object::encode(self)
    }
}

impl TDMaskPoint for MaskPointForehead {

}

impl MaskPointForehead {
    pub fn from_json(json: &str) -> (r: Result<MaskPointForehead, DecodeError>)
        ensures
            match crate::parse::parse_doc(json@) {
                Some(t) => match r {
                    Ok(v) => Self::accepts(t) && Self::decodes_from(t, v),
                    Err(e) => !Self::accepts(t) && crate::errors::err_matches(e, Self::err_of(t)),
                },
                None => r matches Err(e) && e == DecodeError::Malformed,
            },
    {
        crate::object::from_json::<MaskPointForehead>(json)
    }

    pub fn builder() -> (r: RTDMaskPointForeheadBuilder)
        ensures
            r.inner.extra is Some,
    {
        RTDMaskPointForeheadBuilder {
            inner: MaskPointForehead {
                extra: Some(new_token()),
            },
        }
    }
}

pub struct RTDMaskPointForeheadBuilder {
    pub inner: MaskPointForehead,
}

impl RTDMaskPointForeheadBuilder {
    pub fn build(&self) -> (r: MaskPointForehead)
        ensures
            r.eqv(self.inner),
    {
        self.inner.clone()
    }
}
/// The mask is placed relatively to the mouth
#[derive(Debug, PartialEq)]
pub struct MaskPointMouth {
    pub extra: Option<String>,
}

impl MaskPointMouth {
    pub open spec fn tag_spec() -> Seq<char> {
        "maskPointMouth"@
    }

    /// The members of the wire object, in the order they are written.
    pub open spec fn members_spec(self) -> Seq<(Seq<char>, SpecJson)> {
        seq![
            ("@type"@, SpecJson::Str(Self::tag_spec())),
            ("@extra"@, opt_str_tree(opt_str_view(self.extra))),
        ]
    }

    pub open spec fn fields_ok(t: SpecJson) -> bool {
        &&& ok_opt_str(t, "@extra"@)
    }

    pub open spec fn fail_field(t: SpecJson) -> Seq<char> {
        if !ok_opt_str(t, "@extra"@) {
            "@extra"@
        } else {
            Seq::empty()
        }
    }

    /// The encoding of a value carries exactly this type's tag.
    pub proof fn lemma_wire_tag(v: MaskPointMouth)
        ensures
            v.wire_tree() matches Some(t) ==> tag_of(t) == Some(MaskPointMouth::tag_spec()),
    {
        if v.wire_tree() is Some {
            let t = v.wire_tree()->0;
            let ms = t->Obj_0;
            lemma_get_spec_found(ms, "@type"@, 0);
        }
    }
}

impl Clone for MaskPointMouth {
    fn clone(&self) -> (res: Self)
        ensures
            res.eqv(*self),
    {
        MaskPointMouth {
            extra: clone_opt_string(&self.extra),
        }
    }
}

impl Wire for MaskPointMouth {
    open spec fn wire_tree(self) -> Option<SpecJson> {
        Some(SpecJson::Obj(self.members_spec()))
    }

    open spec fn accepts(t: SpecJson) -> bool {
        tag_of(t) is Some && Self::fields_ok(t)
    }

    open spec fn err_of(t: SpecJson) -> SpecDecodeError {
        match tag_of(t) {
            None => SpecDecodeError::Malformed,
            Some(_) => SpecDecodeError::FieldShapeMismatch(Self::tag_spec(), Self::fail_field(t)),
        }
    }

    open spec fn decodes_from(t: SpecJson, v: Self) -> bool {
        &&& m_opt_str(t, "@extra"@, v.extra)
    }

    open spec fn eqv(self, other: Self) -> bool {
        &&& eqv_opt_string(self.extra, other.extra)
    }

    fn clone_val(&self) -> (r: Self) {
        self.clone()
    }

    fn decode_tree(t: &JsonValue) -> (r: Result<Self, DecodeError>) {
        if get_tag(t).is_none() {
            return Err(DecodeError::Malformed);
        }
        let extra = match field_opt_string(t, "@extra") {
            Some(x) => x,
            None => {
                return Err(DecodeError::FieldShapeMismatch(
                    String::from_str("maskPointMouth"),
                    String::from_str("@extra"),
                ));
            },
        };
        Ok(MaskPointMouth { extra })
    }

    fn encode_tree(&self) -> (r: Result<JsonValue, EncodeError>) {
        let mut members: Vec<JsonMember> = Vec::new();
        proof {
            assert(view_members(members@) =~= Seq::<(Seq<char>, SpecJson)>::empty());
        }
        push_member(&mut members, "@type", JsonValue::Str(String::from_str("maskPointMouth")));
        push_member(&mut members, "@extra", opt_string_tree(&self.extra));
        let node = JsonValue::Obj(members);
        proof {
            assert(view_members(members@) =~= self.members_spec());
            assert(node@ == self.wire_tree()->0);
        }
        Ok(node)
    }

    proof fn lemma_wire_wf(v: Self) {
        if v.wire_tree() is Some {
            let t = v.wire_tree()->0;
            let ms = t->Obj_0;
            assert(ms == v.members_spec());
            assert forall|i: int| 0 <= i < ms.len() implies wf(#[trigger] ms[i].1) by {
            }
        }
    }

    proof fn lemma_round_trip(v: Self) {
        if v.wire_tree() is Some {
            let t = v.wire_tree()->0;
            let ms = t->Obj_0;
            assert(ms == v.members_spec());
            reveal_strlit("@type");
            reveal_strlit("@extra");
            assert("@type"@.len() == 5);
            assert("@extra"@.len() == 6);
            reveal_with_fuel(get_spec, 4);
            lemma_get_spec_found(ms, "@type"@, 0);
            lemma_get_spec_found(ms, "@extra"@, 1);
            assert(tag_of(t) == Some(Self::tag_spec()));
            assert(ok_opt_str(t, "@extra"@));
            assert(Self::accepts(t));
            assert forall|w: Self| Self::decodes_from(t, w) implies #[trigger] w.eqv(v) by {
            }
        }
    }
}

impl RObject for MaskPointMouth {
    open spec fn tag_chars(&self) -> Seq<char> {
        Self::tag_spec()
    }

    open spec fn extra_spec(&self) -> Option<Seq<char>> {
        opt_str_view(self.extra)
    }

    fn td_name(&self) -> (r: &'static str) {
        "maskPointMouth"
    }

    fn extra(&self) -> (r: Option<String>) {
        clone_opt_string(&self.extra)
    }

    fn to_json(&self) -> (r: Result<String, EncodeError>) {
        crate::object::encode(self)
    }
}

impl TDMaskPoint for MaskPointMouth {

}

impl MaskPointMouth {
    pub fn from_json(json: &str) -> (r: Result<MaskPointMouth, DecodeError>)
        ensures
            match crate::parse::parse_doc(json@) {
                Some(t) => match r {
                    Ok(v) => Self::accepts(t) && Self::decodes_from(t, v),
                    Err(e) => !Self::accepts(t) && crate::errors::err_matches(e, Self::err_of(t)),
                },
                None => r matches Err(e) && e == DecodeError::Malformed,
            },
    {
        crate::object::from_json::<MaskPointMouth>(json)
    }

    pub fn builder() -> (r: RTDMaskPointMouthBuilder)
        ensures
            r.inner.extra is Some,
    {
        RTDMaskPointMouthBuilder {
            inner: MaskPointMouth {
                extra: Some(new_token()),
            },
        }
    }
}

pub struct RTDMaskPointMouthBuilder {
    pub inner: MaskPointMouth,
}

impl RTDMaskPointMouthBuilder {
    pub fn build(&self) -> (r: MaskPointMouth)
        ensures
            r.eqv(self.inner),
    {
        self.inner.clone()
    }
}
} // verus!
