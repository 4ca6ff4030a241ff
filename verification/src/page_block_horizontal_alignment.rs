use vstd::prelude::*;

use crate::errors::DecodeError;
use crate::errors::EncodeError;
use crate::errors::SpecDecodeError;
use crate::json::JsonMember;
use crate::json::JsonValue;
use crate::json::SpecJson;
use crate::json::view_members;
use crate::json::wf;
use crate::object::RObject;
use crate::object::Wire;
use crate::object::clone_opt_string;
use crate::object::eqv_opt_string;
use crate::object::field_opt_string;
use crate::object::get_spec;
use crate::object::get_tag;
use crate::object::lemma_get_spec_found;
use crate::object::m_opt_str;
use crate::object::new_token;
use crate::object::ok_opt_str;
use crate::object::opt_str_tree;
use crate::object::opt_str_view;
use crate::object::opt_string_tree;
use crate::object::push_member;
use crate::object::str_eq;
use crate::object::tag_of;

verus! {

/// Describes a horizontal alignment of a table cell content
pub trait TDPageBlockHorizontalAlignment: RObject {

}

/// Describes a horizontal alignment of a table cell content
#[derive(Debug, PartialEq)]
pub enum PageBlockHorizontalAlignment {
    _Default(()),
    /// The content must be center-aligned
    Center(PageBlockHorizontalAlignmentCenter),
    /// The content must be left-aligned
    Left(PageBlockHorizontalAlignmentLeft),
    /// The content must be right-aligned
    Right(PageBlockHorizontalAlignmentRight),
}

impl Clone for PageBlockHorizontalAlignment {
    fn clone(&self) -> (res: Self)
        ensures
            res.eqv(*self),
    {
        match self {
            PageBlockHorizontalAlignment::_Default(_) => PageBlockHorizontalAlignment::_Default(()),
            PageBlockHorizontalAlignment::Center(x) => PageBlockHorizontalAlignment::Center(x.clone()),
            PageBlockHorizontalAlignment::Left(x) => PageBlockHorizontalAlignment::Left(x.clone()),
            PageBlockHorizontalAlignment::Right(x) => PageBlockHorizontalAlignment::Right(x.clone()),
        }
    }
}

impl PageBlockHorizontalAlignment {
    /// The tags of this variant's alternatives are pairwise distinct.
    pub proof fn lemma_tags_distinct()
        ensures
            "pageBlockHorizontalAlignmentCenter"@ != "pageBlockHorizontalAlignmentLeft"@,
            "pageBlockHorizontalAlignmentCenter"@ != "pageBlockHorizontalAlignmentRight"@,
            "pageBlockHorizontalAlignmentLeft"@ != "pageBlockHorizontalAlignmentRight"@,
    {
        reveal_strlit("pageBlockHorizontalAlignmentCenter");
        reveal_strlit("pageBlockHorizontalAlignmentLeft");
        reveal_strlit("pageBlockHorizontalAlignmentRight");
        assert("pageBlockHorizontalAlignmentCenter"@.len() == 34);
        assert("pageBlockHorizontalAlignmentLeft"@.len() == 32);
        assert("pageBlockHorizontalAlignmentRight"@.len() == 33);
    }
}

impl Wire for PageBlockHorizontalAlignment {
    open spec fn wire_tree(self) -> Option<SpecJson> {
        match self {
            PageBlockHorizontalAlignment::_Default(_) => None,
            PageBlockHorizontalAlignment::Center(x) => x.wire_tree(),
            PageBlockHorizontalAlignment::Left(x) => x.wire_tree(),
            PageBlockHorizontalAlignment::Right(x) => x.wire_tree(),
        }
    }

    open spec fn accepts(t: SpecJson) -> bool {
        match tag_of(t) {
            None => false,
            Some(g) => {
                if g == PageBlockHorizontalAlignmentCenter::tag_spec() {
                    PageBlockHorizontalAlignmentCenter::accepts(t)
                } else if g == PageBlockHorizontalAlignmentLeft::tag_spec() {
                    PageBlockHorizontalAlignmentLeft::accepts(t)
                } else if g == PageBlockHorizontalAlignmentRight::tag_spec() {
                    PageBlockHorizontalAlignmentRight::accepts(t)
                } else {
                    false
                }
            },
        }
    }

    open spec fn err_of(t: SpecJson) -> SpecDecodeError {
        match tag_of(t) {
            None => SpecDecodeError::Malformed,
            Some(g) => {
                if g == PageBlockHorizontalAlignmentCenter::tag_spec() {
                    PageBlockHorizontalAlignmentCenter::err_of(t)
                } else if g == PageBlockHorizontalAlignmentLeft::tag_spec() {
                    PageBlockHorizontalAlignmentLeft::err_of(t)
                } else if g == PageBlockHorizontalAlignmentRight::tag_spec() {
                    PageBlockHorizontalAlignmentRight::err_of(t)
                } else {
                    SpecDecodeError::UnrecognizedVariant(g)
                }
            },
        }
    }

    open spec fn decodes_from(t: SpecJson, v: Self) -> bool {
        match tag_of(t) {
            None => false,
            Some(g) => {
                if g == PageBlockHorizontalAlignmentCenter::tag_spec() {
                    v matches PageBlockHorizontalAlignment::Center(x) && PageBlockHorizontalAlignmentCenter::decodes_from(t, x)
                } else if g == PageBlockHorizontalAlignmentLeft::tag_spec() {
                    v matches PageBlockHorizontalAlignment::Left(x) && PageBlockHorizontalAlignmentLeft::decodes_from(t, x)
                } else if g == PageBlockHorizontalAlignmentRight::tag_spec() {
                    v matches PageBlockHorizontalAlignment::Right(x) && PageBlockHorizontalAlignmentRight::decodes_from(t, x)
                } else {
                    false
                }
            },
        }
    }

    open spec fn eqv(self, other: Self) -> bool {
        match (self, other) {
            (PageBlockHorizontalAlignment::_Default(_), PageBlockHorizontalAlignment::_Default(_)) => true,
            (PageBlockHorizontalAlignment::Center(a), PageBlockHorizontalAlignment::Center(b)) => a.eqv(b),
            (PageBlockHorizontalAlignment::Left(a), PageBlockHorizontalAlignment::Left(b)) => a.eqv(b),
            (PageBlockHorizontalAlignment::Right(a), PageBlockHorizontalAlignment::Right(b)) => a.eqv(b),
            _ => false,
        }
    }

    fn clone_val(&self) -> (r: Self) {
        self.clone()
    }

    fn decode_tree(t: &JsonValue) -> (r: Result<Self, DecodeError>) {
        let g = match get_tag(t) {
            Some(g) => g,
            None => {
                return Err(DecodeError::Malformed);
            },
        };
        if str_eq(g.as_str(), "pageBlockHorizontalAlignmentCenter") {
            match PageBlockHorizontalAlignmentCenter::decode_tree(t) {
                Ok(x) => Ok(PageBlockHorizontalAlignment::Center(x)),
                Err(e) => Err(e),
            }
        } else if str_eq(g.as_str(), "pageBlockHorizontalAlignmentLeft") {
            match PageBlockHorizontalAlignmentLeft::decode_tree(t) {
                Ok(x) => Ok(PageBlockHorizontalAlignment::Left(x)),
                Err(e) => Err(e),
            }
        } else if str_eq(g.as_str(), "pageBlockHorizontalAlignmentRight") {
            match PageBlockHorizontalAlignmentRight::decode_tree(t) {
                Ok(x) => Ok(PageBlockHorizontalAlignment::Right(x)),
                Err(e) => Err(e),
            }
        } else {
            Err(DecodeError::UnrecognizedVariant(g))
        }
    }

    fn encode_tree(&self) -> (r: Result<JsonValue, EncodeError>) {
        match self {
            PageBlockHorizontalAlignment::_Default(_) => Err(EncodeError::Unrepresentable),
            PageBlockHorizontalAlignment::Center(x) => x.encode_tree(),
            PageBlockHorizontalAlignment::Left(x) => x.encode_tree(),
            PageBlockHorizontalAlignment::Right(x) => x.encode_tree(),
        }
    }

    proof fn lemma_wire_wf(v: Self) {
        match v {
            PageBlockHorizontalAlignment::_Default(_) => {},
            PageBlockHorizontalAlignment::Center(x) => {
                PageBlockHorizontalAlignmentCenter::lemma_wire_wf(x);
            },
            PageBlockHorizontalAlignment::Left(x) => {
                PageBlockHorizontalAlignmentLeft::lemma_wire_wf(x);
            },
            PageBlockHorizontalAlignment::Right(x) => {
                PageBlockHorizontalAlignmentRight::lemma_wire_wf(x);
            },
        }
    }

    proof fn lemma_round_trip(v: Self) {
        Self::lemma_tags_distinct();
        match v {
            PageBlockHorizontalAlignment::_Default(_) => {},
            PageBlockHorizontalAlignment::Center(x) => {
                if x.wire_tree() is Some {
                    let t = x.wire_tree()->0;
                    PageBlockHorizontalAlignmentCenter::lemma_wire_tag(x);
                    PageBlockHorizontalAlignmentCenter::lemma_round_trip(x);
                    assert(Self::accepts(t));
                    assert forall|w: Self| Self::decodes_from(t, w) implies #[trigger] w.eqv(v) by {
                        assert(w matches PageBlockHorizontalAlignment::Center(xi) && PageBlockHorizontalAlignmentCenter::decodes_from(t, xi));
                    }
                }
            },
            PageBlockHorizontalAlignment::Left(x) => {
                if x.wire_tree() is Some {
                    let t = x.wire_tree()->0;
                    PageBlockHorizontalAlignmentLeft::lemma_wire_tag(x);
                    PageBlockHorizontalAlignmentLeft::lemma_round_trip(x);
                    assert(Self::accepts(t));
                    assert forall|w: Self| Self::decodes_from(t, w) implies #[trigger] w.eqv(v) by {
                        assert(w matches PageBlockHorizontalAlignment::Left(xi) && PageBlockHorizontalAlignmentLeft::decodes_from(t, xi));
                    }
                }
            },
            PageBlockHorizontalAlignment::Right(x) => {
                if x.wire_tree() is Some {
                    let t = x.wire_tree()->0;
                    PageBlockHorizontalAlignmentRight::lemma_wire_tag(x);
                    PageBlockHorizontalAlignmentRight::lemma_round_trip(x);
                    assert(Self::accepts(t));
                    assert forall|w: Self| Self::decodes_from(t, w) implies #[trigger] w.eqv(v) by {
                        assert(w matches PageBlockHorizontalAlignment::Right(xi) && PageBlockHorizontalAlignmentRight::decodes_from(t, xi));
                    }
                }
            },
        }
    }
}

impl RObject for PageBlockHorizontalAlignment {
    open spec fn tag_chars(&self) -> Seq<char> {
        match self {
            PageBlockHorizontalAlignment::_Default(_) => "-1"@,
            PageBlockHorizontalAlignment::Center(x) => PageBlockHorizontalAlignmentCenter::tag_spec(),
            PageBlockHorizontalAlignment::Left(x) => PageBlockHorizontalAlignmentLeft::tag_spec(),
            PageBlockHorizontalAlignment::Right(x) => PageBlockHorizontalAlignmentRight::tag_spec(),
        }
    }

    open spec fn extra_spec(&self) -> Option<Seq<char>> {
        match self {
            PageBlockHorizontalAlignment::_Default(_) => None,
            PageBlockHorizontalAlignment::Center(x) => opt_str_view(x.extra),
            PageBlockHorizontalAlignment::Left(x) => opt_str_view(x.extra),
            PageBlockHorizontalAlignment::Right(x) => opt_str_view(x.extra),
    }
    }

    fn td_name(&self) -> (r: &'static str) {
        match self {
            PageBlockHorizontalAlignment::_Default(_) => "-1",
            PageBlockHorizontalAlignment::Center(x) => x.td_name(),
            PageBlockHorizontalAlignment::Left(x) => x.td_name(),
            PageBlockHorizontalAlignment::Right(x) => x.td_name(),
        }
    }

    fn extra(&self) -> (r: Option<String>) {
        match self {
            PageBlockHorizontalAlignment::_Default(_) => None,
            PageBlockHorizontalAlignment::Center(x) => clone_opt_string(&x.extra),
            PageBlockHorizontalAlignment::Left(x) => clone_opt_string(&x.extra),
            PageBlockHorizontalAlignment::Right(x) => clone_opt_string(&x.extra),
        }
    }

    fn to_json(&self) -> (r: Result<String, EncodeError>) {
        crate::object::encode(self)
    }
}

impl PageBlockHorizontalAlignment {
    pub fn from_json(json: &str) -> (r: Result<PageBlockHorizontalAlignment, DecodeError>)
        ensures
            match crate::parse::parse_doc(json@) {
                Some(t) => match r {
                    Ok(v) => Self::accepts(t) && Self::decodes_from(t, v),
                    Err(e) => !Self::accepts(t) && crate::errors::err_matches(e, Self::err_of(t)),
                },
                None => r matches Err(e) && e == DecodeError::Malformed,
            },
    {
        crate::object::from_json::<PageBlockHorizontalAlignment>(json)
    }

    pub fn _is_default(&self) -> (r: bool)
        ensures
            r == (self is _Default),
    {
        match self {
            PageBlockHorizontalAlignment::_Default(_) => true,
            _ => false,
        }
    }

    pub fn is_center(&self) -> (r: bool)
        ensures
            r == (self is Center),
    {
        match self {
            PageBlockHorizontalAlignment::Center(_) => true,
            _ => false,
        }
    }

    pub fn is_left(&self) -> (r: bool)
        ensures
            r == (self is Left),
    {
        match self {
            PageBlockHorizontalAlignment::Left(_) => true,
            _ => false,
        }
    }

    pub fn is_right(&self) -> (r: bool)
        ensures
            r == (self is Right),
    {
        match self {
            PageBlockHorizontalAlignment::Right(_) => true,
            _ => false,
        }
    }

    pub fn as_center(&self) -> (r: Option<&PageBlockHorizontalAlignmentCenter>)
        ensures
            (self is Center) == (r is Some),
            r matches Some(x) ==> *x == self->Center_0,
    {
        match self {
            PageBlockHorizontalAlignment::Center(x) => Some(x),
            _ => None,
        }
    }

    pub fn as_left(&self) -> (r: Option<&PageBlockHorizontalAlignmentLeft>)
        ensures
            (self is Left) == (r is Some),
            r matches Some(x) ==> *x == self->Left_0,
    {
        match self {
            PageBlockHorizontalAlignment::Left(x) => Some(x),
            _ => None,
        }
    }

    pub fn as_right(&self) -> (r: Option<&PageBlockHorizontalAlignmentRight>)
        ensures
            (self is Right) == (r is Some),
            r matches Some(x) ==> *x == self->Right_0,
    {
        match self {
            PageBlockHorizontalAlignment::Right(x) => Some(x),
            _ => None,
        }
    }

    pub fn center(t: &PageBlockHorizontalAlignmentCenter) -> (r: Self)
        ensures
            r matches PageBlockHorizontalAlignment::Center(x) && x.eqv(*t),
    {
        PageBlockHorizontalAlignment::Center(t.clone())
    }

    pub fn left(t: &PageBlockHorizontalAlignmentLeft) -> (r: Self)
        ensures
            r matches PageBlockHorizontalAlignment::Left(x) && x.eqv(*t),
    {
        PageBlockHorizontalAlignment::Left(t.clone())
    }

    pub fn right(t: &PageBlockHorizontalAlignmentRight) -> (r: Self)
        ensures
            r matches PageBlockHorizontalAlignment::Right(x) && x.eqv(*t),
    {
        PageBlockHorizontalAlignment::Right(t.clone())
    }
}
/// The content must be center-aligned
#[derive(Debug, PartialEq)]
pub struct PageBlockHorizontalAlignmentCenter {
    pub extra: Option<String>,
}

impl PageBlockHorizontalAlignmentCenter {
    pub open spec fn tag_spec() -> Seq<char> {
        "pageBlockHorizontalAlignmentCenter"@
    }

    /// The members of the wire object, in the order they are written.
    pub open spec fn members_spec(self) -> Seq<(Seq<char>, SpecJson)> {
        seq![
            ("@type"@, SpecJson::Str(Self::tag_spec())),
            ("@extra"@, opt_str_tree(opt_str_view(self.extra))),
        ]
    }

    pub open spec fn fields_ok(t: SpecJson) -> bool {
        &&& ok_opt_str(t, "@extra"@)
    }

    pub open spec fn fail_field(t: SpecJson) -> Seq<char> {
        if !ok_opt_str(t, "@extra"@) {
            "@extra"@
        } else {
            Seq::empty()
        }
    }

    /// The encoding of a value carries exactly this type's tag.
    pub proof fn lemma_wire_tag(v: PageBlockHorizontalAlignmentCenter)
        ensures
            v.wire_tree() matches Some(t) ==> tag_of(t) == Some(PageBlockHorizontalAlignmentCenter::tag_spec()),
    {
        if v.wire_tree() is Some {
            let t = v.wire_tree()->0;
            let ms = t->Obj_0;
            lemma_get_spec_found(ms, "@type"@, 0);
        }
    }
}

impl Clone for PageBlockHorizontalAlignmentCenter {
    fn clone(&self) -> (res: Self)
        ensures
            res.eqv(*self),
    {
        PageBlockHorizontalAlignmentCenter {
            extra: clone_opt_string(&self.extra),
        }
    }
}

impl Wire for PageBlockHorizontalAlignmentCenter {
    open spec fn wire_tree(self) -> Option<SpecJson> {
        Some(SpecJson::Obj(self.members_spec()))
    }

    open spec fn accepts(t: SpecJson) -> bool {
        tag_of(t) is Some && Self::fields_ok(t)
    }

    open spec fn err_of(t: SpecJson) -> SpecDecodeError {
        match tag_of(t) {
            None => SpecDecodeError::Malformed,
            Some(_) => SpecDecodeError::FieldShapeMismatch(Self::tag_spec(), Self::fail_field(t)),
        }
    }

    open spec fn decodes_from(t: SpecJson, v: Self) -> bool {
        &&& m_opt_str(t, "@extra"@, v.extra)
    }

    open spec fn eqv(self, other: Self) -> bool {
        &&& eqv_opt_string(self.extra, other.extra)
    }

    fn clone_val(&self) -> (r: Self) {
        self.clone()
    }

    fn decode_tree(t: &JsonValue) -> (r: Result<Self, DecodeError>) {
        if get_tag(t).is_none() {
            return Err(DecodeError::Malformed);
        }
        let extra = match field_opt_string(t, "@extra") {
            Some(x) => x,
            None => {
                return Err(DecodeError::FieldShapeMismatch(
                    String::from_str("pageBlockHorizontalAlignmentCenter"),
                    String::from_str("@extra"),
                ));
            },
        };
        Ok(PageBlockHorizontalAlignmentCenter { extra })
    }

    fn encode_tree(&self) -> (r: Result<JsonValue, EncodeError>) {
        let mut members: Vec<JsonMember> = Vec::new();
        proof {
            assert(view_members(members@) =~= Seq::<(Seq<char>, SpecJson)>::empty());
        }
        push_member(&mut members, "@type", JsonValue::Str(String::from_str("pageBlockHorizontalAlignmentCenter")));
        push_member(&mut members, "@extra", opt_string_tree(&self.extra));
        let node = JsonValue::Obj(members);
        proof {
            assert(view_members(members@) =~= self.members_spec());
            assert(node@ == self.wire_tree()->0);
        }
        Ok(node)
    }

    proof fn lemma_wire_wf(v: Self) {
        if v.wire_tree() is Some {
            let t = v.wire_tree()->0;
            let ms = t->Obj_0;
            assert(ms == v.members_spec());
            assert forall|i: int| 0 <= i < ms.len() implies wf(#[trigger] ms[i].1) by {
            }
        }
    }

    proof fn lemma_round_trip(v: Self) {
        if v.wire_tree() is Some {
            let t = v.wire_tree()->0;
            let ms = t->Obj_0;
            assert(ms == v.members_spec());
            reveal_strlit("@type");
            reveal_strlit("@extra");
            assert("@type"@.len() == 5);
            assert("@extra"@.len() == 6);
            reveal_with_fuel(get_spec, 4);
            lemma_get_spec_found(ms, "@type"@, 0);
            lemma_get_spec_found(ms, "@extra"@, 1);
            assert(tag_of(t) == Some(Self::tag_spec()));
            assert(ok_opt_str(t, "@extra"@));
            assert(Self::accepts(t));
            assert forall|w: Self| Self::decodes_from(t, w) implies #[trigger] w.eqv(v) by {
            }
        }
    }
}

impl RObject for PageBlockHorizontalAlignmentCenter {
    open spec fn tag_chars(&self) -> Seq<char> {
        Self::tag_spec()
    }

    open spec fn extra_spec(&self) -> Option<Seq<char>> {
        opt_str_view(self.extra)
    }

    fn td_name(&self) -> (r: &'static str) {
        "pageBlockHorizontalAlignmentCenter"
    }

    fn extra(&self) -> (r: Option<String>) {
        clone_opt_string(&self.extra)
    }

    fn to_json(&self) -> (r: Result<String, EncodeError>) {
        crate::object::encode(self)
    }
}

impl TDPageBlockHorizontalAlignment for PageBlockHorizontalAlignmentCenter {

}

impl PageBlockHorizontalAlignmentCenter {
    pub fn from_json(json: &str) -> (r: Result<PageBlockHorizontalAlignmentCenter, DecodeError>)
        ensures
            match crate::parse::parse_doc(json@) {
                Some(t) => match r {
                    Ok(v) => Self::accepts(t) && Self::decodes_from(t, v),
                    Err(e) => !Self::accepts(t) && crate::errors::err_matches(e, Self::err_of(t)),
                },
                None => r matches Err(e) && e == DecodeError::Malformed,
            },
    {
        crate::object::from_json::<PageBlockHorizontalAlignmentCenter>(json)
    }

    pub fn builder() -> (r: RTDPageBlockHorizontalAlignmentCenterBuilder)
        ensures
            r.inner.extra is Some,
    {
        RTDPageBlockHorizontalAlignmentCenterBuilder {
            inner: PageBlockHorizontalAlignmentCenter {
                extra: Some(new_token()),
            },
        }
    }
}

pub struct RTDPageBlockHorizontalAlignmentCenterBuilder {
    pub inner: PageBlockHorizontalAlignmentCenter,
}

impl RTDPageBlockHorizontalAlignmentCenterBuilder {
    pub fn build(&self) -> (r: PageBlockHorizontalAlignmentCenter)
        ensures
            r.eqv(self.inner),
    {
        self.inner.clone()
    }
}
/// The content must be left-aligned
#[derive(Debug, PartialEq)]
pub struct PageBlockHorizontalAlignmentLeft {
    pub extra: Option<String>,
}

impl PageBlockHorizontalAlignmentLeft {
    pub open spec fn tag_spec() -> Seq<char> {
        "pageBlockHorizontalAlignmentLeft"@
    }

    /// The members of the wire object, in the order they are written.
    pub open spec fn members_spec(self) -> Seq<(Seq<char>, SpecJson)> {
        seq![
            ("@type"@, SpecJson::Str(Self::tag_spec())),
            ("@extra"@, opt_str_tree(opt_str_view(self.extra))),
        ]
    }

    pub open spec fn fields_ok(t: SpecJson) -> bool {
        &&& ok_opt_str(t, "@extra"@)
    }

    pub open spec fn fail_field(t: SpecJson) -> Seq<char> {
        if !ok_opt_str(t, "@extra"@) {
            "@extra"@
        } else {
            Seq::empty()
        }
    }

    /// The encoding of a value carries exactly this type's tag.
    pub proof fn lemma_wire_tag(v: PageBlockHorizontalAlignmentLeft)
        ensures
            v.wire_tree() matches Some(t) ==> tag_of(t) == Some(PageBlockHorizontalAlignmentLeft::tag_spec()),
    {
        if v.wire_tree() is Some {
            let t = v.wire_tree()->0;
            let ms = t->Obj_0;
            lemma_get_spec_found(ms, "@type"@, 0);
        }
    }
}

impl Clone for PageBlockHorizontalAlignmentLeft {
    fn clone(&self) -> (res: Self)
        ensures
            res.eqv(*self),
    {
        PageBlockHorizontalAlignmentLeft {
            extra: clone_opt_string(&self.extra),
        }
    }
}

impl Wire for PageBlockHorizontalAlignmentLeft {
    open spec fn wire_tree(self) -> Option<SpecJson> {
        Some(SpecJson::Obj(self.members_spec()))
    }

    open spec fn accepts(t: SpecJson) -> bool {
        tag_of(t) is Some && Self::fields_ok(t)
    }

    open spec fn err_of(t: SpecJson) -> SpecDecodeError {
        match tag_of(t) {
            None => SpecDecodeError::Malformed,
            Some(_) => SpecDecodeError::FieldShapeMismatch(Self::tag_spec(), Self::fail_field(t)),
        }
    }

    open spec fn decodes_from(t: SpecJson, v: Self) -> bool {
        &&& m_opt_str(t, "@extra"@, v.extra)
    }

    open spec fn eqv(self, other: Self) -> bool {
        &&& eqv_opt_string(self.extra, other.extra)
    }

    fn clone_val(&self) -> (r: Self) {
        self.clone()
    }

    fn decode_tree(t: &JsonValue) -> (r: Result<Self, DecodeError>) {
        if get_tag(t).is_none() {
            return Err(DecodeError::Malformed);
        }
        let extra = match field_opt_string(t, "@extra") {
            Some(x) => x,
            None => {
                return Err(DecodeError::FieldShapeMismatch(
                    String::from_str("pageBlockHorizontalAlignmentLeft"),
                    String::from_str("@extra"),
                ));
            },
        };
        Ok(PageBlockHorizontalAlignmentLeft { extra })
    }

    fn encode_tree(&self) -> (r: Result<JsonValue, EncodeError>) {
        let mut members: Vec<JsonMember> = Vec::new();
        proof {
            assert(view_members(members@) =~= Seq::<(Seq<char>, SpecJson)>::empty());
        }
        push_member(&mut members, "@type", JsonValue::Str(String::from_str("pageBlockHorizontalAlignmentLeft")));
        push_member(&mut members, "@extra", opt_string_tree(&self.extra));
        let node = JsonValue::Obj(members);
        proof {
            assert(view_members(members@) =~= self.members_spec());
            assert(node@ == self.wire_tree()->0);
        }
        Ok(node)
    }

    proof fn lemma_wire_wf(v: Self) {
        if v.wire_tree() is Some {
            let t = v.wire_tree()->0;
            let ms = t->Obj_0;
            assert(ms == v.members_spec());
            assert forall|i: int| 0 <= i < ms.len() implies wf(#[trigger] ms[i].1) by {
            }
        }
    }

    proof fn lemma_round_trip(v: Self) {
        if v.wire_tree() is Some {
            let t = v.wire_tree()->0;
            let ms = t->Obj_0;
            assert(ms == v.members_spec());
            reveal_strlit("@type");
            reveal_strlit("@extra");
            assert("@type"@.len() == 5);
            assert("@extra"@.len() == 6);
            reveal_with_fuel(get_spec, 4);
            lemma_get_spec_found(ms, "@type"@, 0);
            lemma_get_spec_found(ms, "@extra"@, 1);
            assert(tag_of(t) == Some(Self::tag_spec()));
            assert(ok_opt_str(t, "@extra"@));
            assert(Self::accepts(t));
            assert forall|w: Self| Self::decodes_from(t, w) implies #[trigger] w.eqv(v) by {
            }
        }
    }
}

impl RObject for PageBlockHorizontalAlignmentLeft {
    open spec fn tag_chars(&self) -> Seq<char> {
        Self::tag_spec()
    }

    open spec fn extra_spec(&self) -> Option<Seq<char>> {
        opt_str_view(self.extra)
    }

    fn td_name(&self) -> (r: &'static str) {
        "pageBlockHorizontalAlignmentLeft"
    }

    fn extra(&self) -> (r: Option<String>) {
        clone_opt_string(&self.extra)
    }

    fn to_json(&self) -> (r: Result<String, EncodeError>) {
        crate::object::encode(self)
    }
}

impl TDPageBlockHorizontalAlignment for PageBlockHorizontalAlignmentLeft {

}

impl PageBlockHorizontalAlignmentLeft {
    pub fn from_json(json: &str) -> (r: Result<PageBlockHorizontalAlignmentLeft, DecodeError>)
        ensures
            match crate::parse::parse_doc(json@) {
                Some(t) => match r {
                    Ok(v) => Self::accepts(t) && Self::decodes_from(t, v),
                    Err(e) => !Self::accepts(t) && crate::errors::err_matches(e, Self::err_of(t)),
                },
                None => r matches Err(e) && e == DecodeError::Malformed,
            },
    {
        crate::object::from_json::<PageBlockHorizontalAlignmentLeft>(json)
    }

    pub fn builder() -> (r: RTDPageBlockHorizontalAlignmentLeftBuilder)
        ensures
            r.inner.extra is Some,
    {
        RTDPageBlockHorizontalAlignmentLeftBuilder {
            inner: PageBlockHorizontalAlignmentLeft {
                extra: Some(new_token()),
            },
        }
    }
}

pub struct RTDPageBlockHorizontalAlignmentLeftBuilder {
    pub inner: PageBlockHorizontalAlignmentLeft,
}

impl RTDPageBlockHorizontalAlignmentLeftBuilder {
    pub fn build(&self) -> (r: PageBlockHorizontalAlignmentLeft)
        ensures
            r.eqv(self.inner),
    {
        self.inner.clone()
    }
}
/// The content must be right-aligned
#[derive(Debug, PartialEq)]
pub struct PageBlockHorizontalAlignmentRight {
    pub extra: Option<String>,
}

impl PageBlockHorizontalAlignmentRight {
    pub open spec fn tag_spec() -> Seq<char> {
        "pageBlockHorizontalAlignmentRight"@
    }

    /// The members of the wire object, in the order they are written.
    pub open spec fn members_spec(self) -> Seq<(Seq<char>, SpecJson)> {
        seq![
            ("@type"@, SpecJson::Str(Self::tag_spec())),
            ("@extra"@, opt_str_tree(opt_str_view(self.extra))),
        ]
    }

    pub open spec fn fields_ok(t: SpecJson) -> bool {
        &&& ok_opt_str(t, "@extra"@)
    }

    pub open spec fn fail_field(t: SpecJson) -> Seq<char> {
        if !ok_opt_str(t, "@extra"@) {
            "@extra"@
        } else {
            Seq::empty()
        }
    }

    /// The encoding of a value carries exactly this type's tag.
    pub proof fn lemma_wire_tag(v: PageBlockHorizontalAlignmentRight)
        ensures
            v.wire_tree() matches Some(t) ==> tag_of(t) == Some(PageBlockHorizontalAlignmentRight::tag_spec()),
    {
        if v.wire_tree() is Some {
            let t = v.wire_tree()->0;
            let ms = t->Obj_0;
            lemma_get_spec_found(ms, "@type"@, 0);
        }
    }
}

impl Clone for PageBlockHorizontalAlignmentRight {
    fn clone(&self) -> (res: Self)
        ensures
            res.eqv(*self),
    {
        PageBlockHorizontalAlignmentRight {
            extra: clone_opt_string(&self.extra),
        }
    }
}

impl Wire for PageBlockHorizontalAlignmentRight {
    open spec fn wire_tree(self) -> Option<SpecJson> {
        Some(SpecJson::Obj(self.members_spec()))
    }

    open spec fn accepts(t: SpecJson) -> bool {
        tag_of(t) is Some && Self::fields_ok(t)
    }

    open spec fn err_of(t: SpecJson) -> SpecDecodeError {
        match tag_of(t) {
            None => SpecDecodeError::Malformed,
            Some(_) => SpecDecodeError::FieldShapeMismatch(Self::tag_spec(), Self::fail_field(t)),
        }
    }

    open spec fn decodes_from(t: SpecJson, v: Self) -> bool {
        &&& m_opt_str(t, "@extra"@, v.extra)
    }

    open spec fn eqv(self, other: Self) -> bool {
        &&& eqv_opt_string(self.extra, other.extra)
    }

    fn clone_val(&self) -> (r: Self) {
        self.clone()
    }

    fn decode_tree(t: &JsonValue) -> (r: Result<Self, DecodeError>) {
        if get_tag(t).is_none() {
            return Err(DecodeError::Malformed);
        }
        let extra = match field_opt_string(t, "@extra") {
            Some(x) => x,
            None => {
                return Err(DecodeError::FieldShapeMismatch(
                    String::from_str("pageBlockHorizontalAlignmentRight"),
                    String::from_str("@extra"),
                ));
            },
        };
        Ok(PageBlockHorizontalAlignmentRight { extra })
    }

    fn encode_tree(&self) -> (r: Result<JsonValue, EncodeError>) {
        let mut members: Vec<JsonMember> = Vec::new();
        proof {
            assert(view_members(members@) =~= Seq::<(Seq<char>, SpecJson)>::empty());
        }
        push_member(&mut members, "@type", JsonValue::Str(String::from_str("pageBlockHorizontalAlignmentRight")));
        push_member(&mut members, "@extra", opt_string_tree(&self.extra));
        let node = JsonValue::Obj(members);
        proof {
            assert(view_members(members@) =~= self.members_spec());
            assert(node@ == self.wire_tree()->0);
        }
        Ok(node)
    }

    proof fn lemma_wire_wf(v: Self) {
        if v.wire_tree() is Some {
            let t = v.wire_tree()->0;
            let ms = t->Obj_0;
            assert(ms == v.members_spec());
            assert forall|i: int| 0 <= i < ms.len() implies wf(#[trigger] ms[i].1) by {
            }
        }
    }

    proof fn lemma_round_trip(v: Self) {
        if v.wire_tree() is Some {
            let t = v.wire_tree()->0;
            let ms = t->Obj_0;
            assert(ms == v.members_spec());
            reveal_strlit("@type");
            reveal_strlit("@extra");
            assert("@type"@.len() == 5);
            assert("@extra"@.len() == 6);
            reveal_with_fuel(get_spec, 4);
            lemma_get_spec_found(ms, "@type"@, 0);
            lemma_get_spec_found(ms, "@extra"@, 1);
            assert(tag_of(t) == Some(Self::tag_spec()));
            assert(ok_opt_str(t, "@extra"@));
            assert(Self::accepts(t));
            assert forall|w: Self| Self::decodes_from(t, w) implies #[trigger] w.eqv(v) by {
            }
        }
    }
}

impl RObject for PageBlockHorizontalAlignmentRight {
    open spec fn tag_chars(&self) -> Seq<char> {
        Self::tag_spec()
    }

    open spec fn extra_spec(&self) -> Option<Seq<char>> {
        opt_str_view(self.extra)
    }

    fn td_name(&self) -> (r: &'static str) {
        "pageBlockHorizontalAlignmentRight"
    }

    fn extra(&self) -> (r: Option<String>) {
        clone_opt_string(&self.extra)
    }

    fn to_json(&self) -> (r: Result<String, EncodeError>) {
        crate::object::encode(self)
    }
}

impl TDPageBlockHorizontalAlignment for PageBlockHorizontalAlignmentRight {

}

impl PageBlockHorizontalAlignmentRight {
    pub fn from_json(json: &str) -> (r: Result<PageBlockHorizontalAlignmentRight, DecodeError>)
        ensures
            match crate::parse::parse_doc(json@) {
                Some(t) => match r {
                    Ok(v) => Self::accepts(t) && Self::decodes_from(t, v),
                    Err(e) => !Self::accepts(t) && crate::errors::err_matches(e, Self::err_of(t)),
                },
                None => r matches Err(e) && e == DecodeError::Malformed,
            },
    {
        crate::object::from_json::<PageBlockHorizontalAlignmentRight>(json)
    }

    pub fn builder() -> (r: RTDPageBlockHorizontalAlignmentRightBuilder)
        ensures
            r.inner.extra is Some,
    {
        RTDPageBlockHorizontalAlignmentRightBuilder {
            inner: PageBlockHorizontalAlignmentRight {
                extra: Some(new_token()),
            },
        }
    }
}

pub struct RTDPageBlockHorizontalAlignmentRightBuilder {
    pub inner: PageBlockHorizontalAlignmentRight,
}

impl RTDPageBlockHorizontalAlignmentRightBuilder {
    pub fn build(&self) -> (r: PageBlockHorizontalAlignmentRight)
        ensures
            r.eqv(self.inner),
    {
        self.inner.clone()
    }
}
} // verus!
