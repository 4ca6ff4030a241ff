use vstd::prelude::*;

use crate::errors::DecodeError;
use crate::errors::EncodeError;
use crate::errors::SpecDecodeError;
use crate::json::JsonMember;
use crate::json::JsonValue;
use crate::json::SpecJson;
use crate::json::view_members;
use crate::json::wf;
use crate::object::RObject;
use crate::object::Wire;
use crate::object::clone_opt_string;
use crate::object::eqv_opt_string;
use crate::object::field_opt_string;
use crate::object::get_spec;
use crate::object::get_tag;
use crate::object::lemma_get_spec_found;
use crate::object::m_opt_str;
use crate::object::new_token;
use crate::object::ok_opt_str;
use crate::object::opt_str_tree;
use crate::object::opt_str_view;
use crate::object::opt_string_tree;
use crate::object::push_member;
use crate::object::str_eq;
use crate::object::tag_of;

verus! {

/// Describes a Vertical alignment of a table cell content
pub trait TDPageBlockVerticalAlignment: RObject {

}

/// Describes a Vertical alignment of a table cell content
#[derive(Debug, PartialEq)]
pub enum PageBlockVerticalAlignment {
    _Default(()),
    /// The content must be bottom-aligned
    Bottom(PageBlockVerticalAlignmentBottom),
    /// The content must be middle-aligned
    Middle(PageBlockVerticalAlignmentMiddle),
    /// The content must be top-aligned
    Top(PageBlockVerticalAlignmentTop),
}

impl Clone for PageBlockVerticalAlignment {
    fn clone(&self) -> (res: Self)
        ensures
            res.eqv(*self),
    {
        match self {
            PageBlockVerticalAlignment::_Default(_) => PageBlockVerticalAlignment::_Default(()),
            PageBlockVerticalAlignment::Bottom(x) => PageBlockVerticalAlignment::Bottom(x.clone()),
            PageBlockVerticalAlignment::Middle(x) => PageBlockVerticalAlignment::Middle(x.clone()),
            PageBlockVerticalAlignment::Top(x) => PageBlockVerticalAlignment::Top(x.clone()),
        }
    }
}

impl PageBlockVerticalAlignment {
    /// The tags of this variant's alternatives are pairwise distinct.
    pub proof fn lemma_tags_distinct()
        ensures
            "pageBlockVerticalAlignmentBottom"@ != "pageBlockVerticalAlignmentMiddle"@,
            "pageBlockVerticalAlignmentBottom"@ != "pageBlockVerticalAlignmentTop"@,
            "pageBlockVerticalAlignmentMiddle"@ != "pageBlockVerticalAlignmentTop"@,
    {
        reveal_strlit("pageBlockVerticalAlignmentBottom");
        reveal_strlit("pageBlockVerticalAlignmentMiddle");
        reveal_strlit("pageBlockVerticalAlignmentTop");
        assert("pageBlockVerticalAlignmentBottom"@.len() == 32);
        assert("pageBlockVerticalAlignmentMiddle"@.len() == 32);
        assert("pageBlockVerticalAlignmentTop"@.len() == 29);
        assert("pageBlockVerticalAlignmentBottom"@[26] == 'B' && "pageBlockVerticalAlignmentMiddle"@[26] == 'M');
    }
}

impl Wire for PageBlockVerticalAlignment {
    open spec fn wire_tree(self) -> Option<SpecJson> {
        match self {
            PageBlockVerticalAlignment::_Default(_) => None,
            PageBlockVerticalAlignment::Bottom(x) => x.wire_tree(),
            PageBlockVerticalAlignment::Middle(x) => x.wire_tree(),
            PageBlockVerticalAlignment::Top(x) => x.wire_tree(),
        }
    }

    open spec fn accepts(t: SpecJson) -> bool {
        match tag_of(t) {
            None => false,
            Some(g) => {
                if g == PageBlockVerticalAlignmentBottom::tag_spec() {
                    PageBlockVerticalAlignmentBottom::accepts(t)
                } else if g == PageBlockVerticalAlignmentMiddle::tag_spec() {
                    PageBlockVerticalAlignmentMiddle::accepts(t)
                } else if g == PageBlockVerticalAlignmentTop::tag_spec() {
                    PageBlockVerticalAlignmentTop::accepts(t)
                } else {
                    false
                }
            },
        }
    }

    open spec fn err_of(t: SpecJson) -> SpecDecodeError {
        match tag_of(t) {
            None => SpecDecodeError::Malformed,
            Some(g) => {
                if g == PageBlockVerticalAlignmentBottom::tag_spec() {
                    PageBlockVerticalAlignmentBottom::err_of(t)
                } else if g == PageBlockVerticalAlignmentMiddle::tag_spec() {
                    PageBlockVerticalAlignmentMiddle::err_of(t)
                } else if g == PageBlockVerticalAlignmentTop::tag_spec() {
                    PageBlockVerticalAlignmentTop::err_of(t)
                } else {
                    SpecDecodeError::UnrecognizedVariant(g)
                }
            },
        }
    }

    open spec fn decodes_from(t: SpecJson, v: Self) -> bool {
        match tag_of(t) {
            None => false,
            Some(g) => {
                if g == PageBlockVerticalAlignmentBottom::tag_spec() {
                    v matches PageBlockVerticalAlignment::Bottom(x) && PageBlockVerticalAlignmentBottom::decodes_from(t, x)
                } else if g == PageBlockVerticalAlignmentMiddle::tag_spec() {
                    v matches PageBlockVerticalAlignment::Middle(x) && PageBlockVerticalAlignmentMiddle::decodes_from(t, x)
                } else if g == PageBlockVerticalAlignmentTop::tag_spec() {
                    v matches PageBlockVerticalAlignment::Top(x) && PageBlockVerticalAlignmentTop::decodes_from(t, x)
                } else {
                    false
                }
            },
        }
    }

    open spec fn eqv(self, other: Self) -> bool {
        match (self, other) {
            (PageBlockVerticalAlignment::_Default(_), PageBlockVerticalAlignment::_Default(_)) => true,
            (PageBlockVerticalAlignment::Bottom(a), PageBlockVerticalAlignment::Bottom(b)) => a.eqv(b),
            (PageBlockVerticalAlignment::Middle(a), PageBlockVerticalAlignment::Middle(b)) => a.eqv(b),
            (PageBlockVerticalAlignment::Top(a), PageBlockVerticalAlignment::Top(b)) => a.eqv(b),
            _ => false,
        }
    }

    fn clone_val(&self) -> (r: Self) {
        self.clone()
    }

    fn decode_tree(t: &JsonValue) -> (r: Result<Self, DecodeError>) {
        let g = match get_tag(t) {
            Some(g) => g,
            None => {
                return Err(DecodeError::Malformed);
            },
        };
        if str_eq(g.as_str(), "pageBlockVerticalAlignmentBottom") {
            match PageBlockVerticalAlignmentBottom::decode_tree(t) {
                Ok(x) => Ok(PageBlockVerticalAlignment::Bottom(x)),
                Err(e) => Err(e),
            }
        } else if str_eq(g.as_str(), "pageBlockVerticalAlignmentMiddle") {
            match PageBlockVerticalAlignmentMiddle::decode_tree(t) {
                Ok(x) => Ok(PageBlockVerticalAlignment::Middle(x)),
                Err(e) => Err(e),
            }
        } else if str_eq(g.as_str(), "pageBlockVerticalAlignmentTop") {
            match PageBlockVerticalAlignmentTop::decode_tree(t) {
                Ok(x) => Ok(PageBlockVerticalAlignment::Top(x)),
                Err(e) => Err(e),
            }
        } else {
            Err(DecodeError::UnrecognizedVariant(g))
        }
    }

    fn encode_tree(&self) -> (r: Result<JsonValue, EncodeError>) {
        match self {
            PageBlockVerticalAlignment::_Default(_) => Err(EncodeError::Unrepresentable),
            PageBlockVerticalAlignment::Bottom(x) => x.encode_tree(),
            PageBlockVerticalAlignment::Middle(x) => x.encode_tree(),
            PageBlockVerticalAlignment::Top(x) => x.encode_tree(),
        }
    }

    proof fn lemma_wire_wf(v: Self) {
        match v {
            PageBlockVerticalAlignment::_Default(_) => {},
            PageBlockVerticalAlignment::Bottom(x) => {
                PageBlockVerticalAlignmentBottom::lemma_wire_wf(x);
            },
            PageBlockVerticalAlignment::Middle(x) => {
                PageBlockVerticalAlignmentMiddle::lemma_wire_wf(x);
            },
            PageBlockVerticalAlignment::Top(x) => {
                PageBlockVerticalAlignmentTop::lemma_wire_wf(x);
            },
        }
    }

    proof fn lemma_round_trip(v: Self) {
        Self::lemma_tags_distinct();
        match v {
            PageBlockVerticalAlignment::_Default(_) => {},
            PageBlockVerticalAlignment::Bottom(x) => {
                if x.wire_tree() is Some {
                    let t = x.wire_tree()->0;
                    PageBlockVerticalAlignmentBottom::lemma_wire_tag(x);
                    PageBlockVerticalAlignmentBottom::lemma_round_trip(x);
                    assert(Self::accepts(t));
                    assert forall|w: Self| Self::decodes_from(t, w) implies #[trigger] w.eqv(v) by {
                        assert(w matches PageBlockVerticalAlignment::Bottom(xi) && PageBlockVerticalAlignmentBottom::decodes_from(t, xi));
                    }
                }
            },
            PageBlockVerticalAlignment::Middle(x) => {
                if x.wire_tree() is Some {
                    let t = x.wire_tree()->0;
                    PageBlockVerticalAlignmentMiddle::lemma_wire_tag(x);
                    PageBlockVerticalAlignmentMiddle::lemma_round_trip(x);
                    assert(Self::accepts(t));
                    assert forall|w: Self| Self::decodes_from(t, w) implies #[trigger] w.eqv(v) by {
                        assert(w matches PageBlockVerticalAlignment::Middle(xi) && PageBlockVerticalAlignmentMiddle::decodes_from(t, xi));
                    }
                }
            },
            PageBlockVerticalAlignment::Top(x) => {
                if x.wire_tree() is Some {
                    let t = x.wire_tree()->0;
                    PageBlockVerticalAlignmentTop::lemma_wire_tag(x);
                    PageBlockVerticalAlignmentTop::lemma_round_trip(x);
                    assert(Self::accepts(t));
                    assert forall|w: Self| Self::decodes_from(t, w) implies #[trigger] w.eqv(v) by {
                        assert(w matches PageBlockVerticalAlignment::Top(xi) && PageBlockVerticalAlignmentTop::decodes_from(t, xi));
                    }
                }
            },
        }
    }
}

impl RObject for PageBlockVerticalAlignment {
    open spec fn tag_chars(&self) -> Seq<char> {
        match self {
            PageBlockVerticalAlignment::_Default(_) => "-1"@,
            PageBlockVerticalAlignment::Bottom(x) => PageBlockVerticalAlignmentBottom::tag_spec(),
            PageBlockVerticalAlignment::Middle(x) => PageBlockVerticalAlignmentMiddle::tag_spec(),
            PageBlockVerticalAlignment::Top(x) => PageBlockVerticalAlignmentTop::tag_spec(),
        }
    }

    open spec fn extra_spec(&self) -> Option<Seq<char>> {
        match self {
            PageBlockVerticalAlignment::_Default(_) => None,
            PageBlockVerticalAlignment::Bottom(x) => opt_str_view(x.extra),
            PageBlockVerticalAlignment::Middle(x) => opt_str_view(x.extra),
            PageBlockVerticalAlignment::Top(x) => opt_str_view(x.extra),
    }
    }

    fn td_name(&self) -> (r: &'static str) {
        match self {
            PageBlockVerticalAlignment::_Default(_) => "-1",
            PageBlockVerticalAlignment::Bottom(x) => x.td_name(),
            PageBlockVerticalAlignment::Middle(x) => x.td_name(),
            PageBlockVerticalAlignment::Top(x) => x.td_name(),
        }
    }

    fn extra(&self) -> (r: Option<String>) {
        match self {
            PageBlockVerticalAlignment::_Default(_) => None,
            PageBlockVerticalAlignment::Bottom(x) => clone_opt_string(&x.extra),
            PageBlockVerticalAlignment::Middle(x) => clone_opt_string(&x.extra),
            PageBlockVerticalAlignment::Top(x) => clone_opt_string(&x.extra),
        }
    }

    fn to_json(&self) -> (r: Result<String, EncodeError>) {
        crate::object::encode(self)
    }
}

impl PageBlockVerticalAlignment {
    pub fn from_json(json: &str) -> (r: Result<PageBlockVerticalAlignment, DecodeError>)
        ensures
            match crate::parse::parse_doc(json@) {
                Some(t) => match r {
                    Ok(v) => Self::accepts(t) && Self::decodes_from(t, v),
                    Err(e) => !Self::accepts(t) && crate::errors::err_matches(e, Self::err_of(t)),
                },
                None => r matches Err(e) && e == DecodeError::Malformed,
            },
    {
        crate::object::from_json::<PageBlockVerticalAlignment>(json)
    }

    pub fn _is_default(&self) -> (r: bool)
        ensures
            r == (self is _Default),
    {
        match self {
            PageBlockVerticalAlignment::_Default(_) => true,
            _ => false,
        }
    }

    pub fn is_bottom(&self) -> (r: bool)
        ensures
            r == (self is Bottom),
    {
        match self {
            PageBlockVerticalAlignment::Bottom(_) => true,
            _ => false,
        }
    }

    pub fn is_middle(&self) -> (r: bool)
        ensures
            r == (self is Middle),
    {
        match self {
            PageBlockVerticalAlignment::Middle(_) => true,
            _ => false,
        }
    }

    pub fn is_top(&self) -> (r: bool)
        ensures
            r == (self is Top),
    {
        match self {
            PageBlockVerticalAlignment::Top(_) => true,
            _ => false,
        }
    }

    pub fn as_bottom(&self) -> (r: Option<&PageBlockVerticalAlignmentBottom>)
        ensures
            (self is Bottom) == (r is Some),
            r matches Some(x) ==> *x == self->Bottom_0,
    {
        match self {
            PageBlockVerticalAlignment::Bottom(x) => Some(x),
            _ => None,
        }
    }

    pub fn as_middle(&self) -> (r: Option<&PageBlockVerticalAlignmentMiddle>)
        ensures
            (self is Middle) == (r is Some),
            r matches Some(x) ==> *x == self->Middle_0,
    {
        match self {
            PageBlockVerticalAlignment::Middle(x) => Some(x),
            _ => None,
        }
    }

    pub fn as_top(&self) -> (r: Option<&PageBlockVerticalAlignmentTop>)
        ensures
            (self is Top) == (r is Some),
            r matches Some(x) ==> *x == self->Top_0,
    {
        match self {
            PageBlockVerticalAlignment::Top(x) => Some(x),
            _ => None,
        }
    }

    pub fn bottom(t: &PageBlockVerticalAlignmentBottom) -> (r: Self)
        ensures
            r matches PageBlockVerticalAlignment::Bottom(x) && x.eqv(*t),
    {
        PageBlockVerticalAlignment::Bottom(t.clone())
    }

    pub fn middle(t: &PageBlockVerticalAlignmentMiddle) -> (r: Self)
        ensures
            r matches PageBlockVerticalAlignment::Middle(x) && x.eqv(*t),
    {
        PageBlockVerticalAlignment::Middle(t.clone())
    }

    pub fn top(t: &PageBlockVerticalAlignmentTop) -> (r: Self)
        ensures
            r matches PageBlockVerticalAlignment::Top(x) && x.eqv(*t),
    {
        PageBlockVerticalAlignment::Top(t.clone())
    }
}
/// The content must be bottom-aligned
#[derive(Debug, PartialEq)]
pub struct PageBlockVerticalAlignmentBottom {
    pub extra: Option<String>,
}

impl PageBlockVerticalAlignmentBottom {
    pub open spec fn tag_spec() -> Seq<char> {
        "pageBlockVerticalAlignmentBottom"@
    }

    /// The members of the wire object, in the order they are written.
    pub open spec fn members_spec(self) -> Seq<(Seq<char>, SpecJson)> {
        seq![
            ("@type"@, SpecJson::Str(Self::tag_spec())),
            ("@extra"@, opt_str_tree(opt_str_view(self.extra))),
        ]
    }

    pub open spec fn fields_ok(t: SpecJson) -> bool {
        &&& ok_opt_str(t, "@extra"@)
    }

    pub open spec fn fail_field(t: SpecJson) -> Seq<char> {
        if !ok_opt_str(t, "@extra"@) {
            "@extra"@
        } else {
            Seq::empty()
        }
    }

    /// The encoding of a value carries exactly this type's tag.
    pub proof fn lemma_wire_tag(v: PageBlockVerticalAlignmentBottom)
        ensures
            v.wire_tree() matches Some(t) ==> tag_of(t) == Some(PageBlockVerticalAlignmentBottom::tag_spec()),
    {
        if v.wire_tree() is Some {
            let t = v.wire_tree()->0;
            let ms = t->Obj_0;
            lemma_get_spec_found(ms, "@type"@, 0);
        }
    }
}

impl Clone for PageBlockVerticalAlignmentBottom {
    fn clone(&self) -> (res: Self)
        ensures
            res.eqv(*self),
    {
        PageBlockVerticalAlignmentBottom {
            extra: clone_opt_string(&self.extra),
        }
    }
}

impl Wire for PageBlockVerticalAlignmentBottom {
    open spec fn wire_tree(self) -> Option<SpecJson> {
        Some(SpecJson::Obj(self.members_spec()))
    }

    open spec fn accepts(t: SpecJson) -> bool {
        tag_of(t) is Some && Self::fields_ok(t)
    }

    open spec fn err_of(t: SpecJson) -> SpecDecodeError {
        match tag_of(t) {
            None => SpecDecodeError::Malformed,
            Some(_) => SpecDecodeError::FieldShapeMismatch(Self::tag_spec(), Self::fail_field(t)),
        }
    }

    open spec fn decodes_from(t: SpecJson, v: Self) -> bool {
        &&& m_opt_str(t, "@extra"@, v.extra)
    }

    open spec fn eqv(self, other: Self) -> bool {
        &&& eqv_opt_string(self.extra, other.extra)
    }

    fn clone_val(&self) -> (r: Self) {
        self.clone()
    }

    fn decode_tree(t: &JsonValue) -> (r: Result<Self, DecodeError>) {
        if get_tag(t).is_none() {
            return Err(DecodeError::Malformed);
        }
        let extra = match field_opt_string(t, "@extra") {
            Some(x) => x,
            None => {
                return Err(DecodeError::FieldShapeMismatch(
                    String::from_str("pageBlockVerticalAlignmentBottom"),
                    String::from_str("@extra"),
                ));
            },
        };
        Ok(PageBlockVerticalAlignmentBottom { extra })
    }

    fn encode_tree(&self) -> (r: Result<JsonValue, EncodeError>) {
        let mut members: Vec<JsonMember> = Vec::new();
        proof {
            assert(view_members(members@) =~= Seq::<(Seq<char>, SpecJson)>::empty());
        }
        push_member(&mut members, "@type", JsonValue::Str(String::from_str("pageBlockVerticalAlignmentBottom")));
        push_member(&mut members, "@extra", opt_string_tree(&self.extra));
        let node = JsonValue::Obj(members);
        proof {
            assert(view_members(members@) =~= self.members_spec());
            assert(node@ == self.wire_tree()->0);
        }
        Ok(node)
    }

    proof fn lemma_wire_wf(v: Self) {
        if v.wire_tree() is Some {
            let t = v.wire_tree()->0;
            let ms = t->Obj_0;
            assert(ms == v.members_spec());
            assert forall|i: int| 0 <= i < ms.len() implies wf(#[trigger] ms[i].1) by {
            }
        }
    }

    proof fn lemma_round_trip(v: Self) {
        if v.wire_tree() is Some {
            let t = v.wire_tree()->0;
            let ms = t->Obj_0;
            assert(ms == v.members_spec());
            reveal_strlit("@type");
            reveal_strlit("@extra");
            assert("@type"@.len() == 5);
            assert("@extra"@.len() == 6);
            reveal_with_fuel(get_spec, 4);
            lemma_get_spec_found(ms, "@type"@, 0);
            lemma_get_spec_found(ms, "@extra"@, 1);
            assert(tag_of(t) == Some(Self::tag_spec()));
            assert(ok_opt_str(t, "@extra"@));
            assert(Self::accepts(t));
            assert forall|w: Self| Self::decodes_from(t, w) implies #[trigger] w.eqv(v) by {
            }
        }
    }
}

impl RObject for PageBlockVerticalAlignmentBottom {
    open spec fn tag_chars(&self) -> Seq<char> {
        Self::tag_spec()
    }

    open spec fn extra_spec(&self) -> Option<Seq<char>> {
        opt_str_view(self.extra)
    }

    fn td_name(&self) -> (r: &'static str) {
        "pageBlockVerticalAlignmentBottom"
    }

    fn extra(&self) -> (r: Option<String>) {
        clone_opt_string(&self.extra)
    }

    fn to_json(&self) -> (r: Result<String, EncodeError>) {
        crate::object::encode(self)
    }
}

impl TDPageBlockVerticalAlignment for PageBlockVerticalAlignmentBottom {

}

impl PageBlockVerticalAlignmentBottom {
    pub fn from_json(json: &str) -> (r: Result<PageBlockVerticalAlignmentBottom, DecodeError>)
        ensures
            match crate::parse::parse_doc(json@) {
                Some(t) => match r {
                    Ok(v) => Self::accepts(t) && Self::decodes_from(t, v),
                    Err(e) => !Self::accepts(t) && crate::errors::err_matches(e, Self::err_of(t)),
                },
                None => r matches Err(e) && e == DecodeError::Malformed,
            },
    {
        crate::object::from_json::<PageBlockVerticalAlignmentBottom>(json)
    }

    pub fn builder() -> (r: RTDPageBlockVerticalAlignmentBottomBuilder)
        ensures
            r.inner.extra is Some,
    {
        RTDPageBlockVerticalAlignmentBottomBuilder {
            inner: PageBlockVerticalAlignmentBottom {
                extra: Some(new_token()),
            },
        }
    }
}

pub struct RTDPageBlockVerticalAlignmentBottomBuilder {
    pub inner: PageBlockVerticalAlignmentBottom,
}

impl RTDPageBlockVerticalAlignmentBottomBuilder {
    pub fn build(&self) -> (r: PageBlockVerticalAlignmentBottom)
        ensures
            r.eqv(self.inner),
    {
        self.inner.clone()
    }
}
/// The content must be middle-aligned
#[derive(Debug, PartialEq)]
pub struct PageBlockVerticalAlignmentMiddle {
    pub extra: Option<String>,
}

impl PageBlockVerticalAlignmentMiddle {
    pub open spec fn tag_spec() -> Seq<char> {
        "pageBlockVerticalAlignmentMiddle"@
    }

    /// The members of the wire object, in the order they are written.
    pub open spec fn members_spec(self) -> Seq<(Seq<char>, SpecJson)> {
        seq![
            ("@type"@, SpecJson::Str(Self::tag_spec())),
            ("@extra"@, opt_str_tree(opt_str_view(self.extra))),
        ]
    }

    pub open spec fn fields_ok(t: SpecJson) -> bool {
        &&& ok_opt_str(t, "@extra"@)
    }

    pub open spec fn fail_field(t: SpecJson) -> Seq<char> {
        if !ok_opt_str(t, "@extra"@) {
            "@extra"@
        } else {
            Seq::empty()
        }
    }

    /// The encoding of a value carries exactly this type's tag.
    pub proof fn lemma_wire_tag(v: PageBlockVerticalAlignmentMiddle)
        ensures
            v.wire_tree() matches Some(t) ==> tag_of(t) == Some(PageBlockVerticalAlignmentMiddle::tag_spec()),
    {
        if v.wire_tree() is Some {
            let t = v.wire_tree()->0;
            let ms = t->Obj_0;
            lemma_get_spec_found(ms, "@type"@, 0);
        }
    }
}

impl Clone for PageBlockVerticalAlignmentMiddle {
    fn clone(&self) -> (res: Self)
        ensures
            res.eqv(*self),
    {
        PageBlockVerticalAlignmentMiddle {
            extra: clone_opt_string(&self.extra),
        }
    }
}

impl Wire for PageBlockVerticalAlignmentMiddle {
    open spec fn wire_tree(self) -> Option<SpecJson> {
        Some(SpecJson::Obj(self.members_spec()))
    }

    open spec fn accepts(t: SpecJson) -> bool {
        tag_of(t) is Some && Self::fields_ok(t)
    }

    open spec fn err_of(t: SpecJson) -> SpecDecodeError {
        match tag_of(t) {
            None => SpecDecodeError::Malformed,
            Some(_) => SpecDecodeError::FieldShapeMismatch(Self::tag_spec(), Self::fail_field(t)),
        }
    }

    open spec fn decodes_from(t: SpecJson, v: Self) -> bool {
        &&& m_opt_str(t, "@extra"@, v.extra)
    }

    open spec fn eqv(self, other: Self) -> bool {
        &&& eqv_opt_string(self.extra, other.extra)
    }

    fn clone_val(&self) -> (r: Self) {
        self.clone()
    }

    fn decode_tree(t: &JsonValue) -> (r: Result<Self, DecodeError>) {
        if get_tag(t).is_none() {
            return Err(DecodeError::Malformed);
        }
        let extra = match field_opt_string(t, "@extra") {
            Some(x) => x,
            None => {
                return Err(DecodeError::FieldShapeMismatch(
                    String::from_str("pageBlockVerticalAlignmentMiddle"),
                    String::from_str("@extra"),
                ));
            },
        };
        Ok(PageBlockVerticalAlignmentMiddle { extra })
    }

    fn encode_tree(&self) -> (r: Result<JsonValue, EncodeError>) {
        let mut members: Vec<JsonMember> = Vec::new();
        proof {
            assert(view_members(members@) =~= Seq::<(Seq<char>, SpecJson)>::empty());
        }
        push_member(&mut members, "@type", JsonValue::Str(String::from_str("pageBlockVerticalAlignmentMiddle")));
        push_member(&mut members, "@extra", opt_string_tree(&self.extra));
        let node = JsonValue::Obj(members);
        proof {
            assert(view_members(members@) =~= self.members_spec());
            assert(node@ == self.wire_tree()->0);
        }
        Ok(node)
    }

    proof fn lemma_wire_wf(v: Self) {
        if v.wire_tree() is Some {
            let t = v.wire_tree()->0;
            let ms = t->Obj_0;
            assert(ms == v.members_spec());
            assert forall|i: int| 0 <= i < ms.len() implies wf(#[trigger] ms[i].1) by {
            }
        }
    }

    proof fn lemma_round_trip(v: Self) {
        if v.wire_tree() is Some {
            let t = v.wire_tree()->0;
            let ms = t->Obj_0;
            assert(ms == v.members_spec());
            reveal_strlit("@type");
            reveal_strlit("@extra");
            assert("@type"@.len() == 5);
            assert("@extra"@.len() == 6);
            reveal_with_fuel(get_spec, 4);
            lemma_get_spec_found(ms, "@type"@, 0);
            lemma_get_spec_found(ms, "@extra"@, 1);
            assert(tag_of(t) == Some(Self::tag_spec()));
            assert(ok_opt_str(t, "@extra"@));
            assert(Self::accepts(t));
            assert forall|w: Self| Self::decodes_from(t, w) implies #[trigger] w.eqv(v) by {
            }
        }
    }
}

impl RObject for PageBlockVerticalAlignmentMiddle {
    open spec fn tag_chars(&self) -> Seq<char> {
        Self::tag_spec()
    }

    open spec fn extra_spec(&self) -> Option<Seq<char>> {
        opt_str_view(self.extra)
    }

    fn td_name(&self) -> (r: &'static str) {
        "pageBlockVerticalAlignmentMiddle"
    }

    fn extra(&self) -> (r: Option<String>) {
        clone_opt_string(&self.extra)
    }

    fn to_json(&self) -> (r: Result<String, EncodeError>) {
        crate::object::encode(self)
    }
}

impl TDPageBlockVerticalAlignment for PageBlockVerticalAlignmentMiddle {

}

impl PageBlockVerticalAlignmentMiddle {
    pub fn from_json(json: &str) -> (r: Result<PageBlockVerticalAlignmentMiddle, DecodeError>)
        ensures
            match crate::parse::parse_doc(json@) {
                Some(t) => match r {
                    Ok(v) => Self::accepts(t) && Self::decodes_from(t, v),
                    Err(e) => !Self::accepts(t) && crate::errors::err_matches(e, Self::err_of(t)),
                },
                None => r matches Err(e) && e == DecodeError::Malformed,
            },
    {
        crate::object::from_json::<PageBlockVerticalAlignmentMiddle>(json)
    }

    pub fn builder() -> (r: RTDPageBlockVerticalAlignmentMiddleBuilder)
        ensures
            r.inner.extra is Some,
    {
        RTDPageBlockVerticalAlignmentMiddleBuilder {
            inner: PageBlockVerticalAlignmentMiddle {
                extra: Some(new_token()),
            },
        }
    }
}

pub struct RTDPageBlockVerticalAlignmentMiddleBuilder {
    pub inner: PageBlockVerticalAlignmentMiddle,
}

impl RTDPageBlockVerticalAlignmentMiddleBuilder {
    pub fn build(&self) -> (r: PageBlockVerticalAlignmentMiddle)
        ensures
            r.eqv(self.inner),
    {
        self.inner.clone()
    }
}
/// The content must be top-aligned
#[derive(Debug, PartialEq)]
pub struct PageBlockVerticalAlignmentTop {
    pub extra: Option<String>,
}

impl PageBlockVerticalAlignmentTop {
    pub open spec fn tag_spec() -> Seq<char> {
        "pageBlockVerticalAlignmentTop"@
    }

    /// The members of the wire object, in the order they are written.
    pub open spec fn members_spec(self) -> Seq<(Seq<char>, SpecJson)> {
        seq![
            ("@type"@, SpecJson::Str(Self::tag_spec())),
            ("@extra"@, opt_str_tree(opt_str_view(self.extra))),
        ]
    }

    pub open spec fn fields_ok(t: SpecJson) -> bool {
        &&& ok_opt_str(t, "@extra"@)
    }

    pub open spec fn fail_field(t: SpecJson) -> Seq<char> {
        if !ok_opt_str(t, "@extra"@) {
            "@extra"@
        } else {
            Seq::empty()
        }
    }

    /// The encoding of a value carries exactly this type's tag.
    pub proof fn lemma_wire_tag(v: PageBlockVerticalAlignmentTop)
        ensures
            v.wire_tree() matches Some(t) ==> tag_of(t) == Some(PageBlockVerticalAlignmentTop::tag_spec()),
    {
        if v.wire_tree() is Some {
            let t = v.wire_tree()->0;
            let ms = t->Obj_0;
            lemma_get_spec_found(ms, "@type"@, 0);
        }
    }
}

impl Clone for PageBlockVerticalAlignmentTop {
    fn clone(&self) -> (res: Self)
        ensures
            res.eqv(*self),
    {
        PageBlockVerticalAlignmentTop {
            extra: clone_opt_string(&self.extra),
        }
    }
}

impl Wire for PageBlockVerticalAlignmentTop {
    open spec fn wire_tree(self) -> Option<SpecJson> {
        Some(SpecJson::Obj(self.members_spec()))
    }

    open spec fn accepts(t: SpecJson) -> bool {
        tag_of(t) is Some && Self::fields_ok(t)
    }

    open spec fn err_of(t: SpecJson) -> SpecDecodeError {
        match tag_of(t) {
            None => SpecDecodeError::Malformed,
            Some(_) => SpecDecodeError::FieldShapeMismatch(Self::tag_spec(), Self::fail_field(t)),
        }
    }

    open spec fn decodes_from(t: SpecJson, v: Self) -> bool {
        &&& m_opt_str(t, "@extra"@, v.extra)
    }

    open spec fn eqv(self, other: Self) -> bool {
        &&& eqv_opt_string(self.extra, other.extra)
    }

    fn clone_val(&self) -> (r: Self) {
        self.clone()
    }

    fn decode_tree(t: &JsonValue) -> (r: Result<Self, DecodeError>) {
        if get_tag(t).is_none() {
            return Err(DecodeError::Malformed);
        }
        let extra = match field_opt_string(t, "@extra") {
            Some(x) => x,
            None => {
                return Err(DecodeError::FieldShapeMismatch(
                    String::from_str("pageBlockVerticalAlignmentTop"),
                    String::from_str("@extra"),
                ));
            },
        };
        Ok(PageBlockVerticalAlignmentTop { extra })
    }

    fn encode_tree(&self) -> (r: Result<JsonValue, EncodeError>) {
        let mut members: Vec<JsonMember> = Vec::new();
        proof {
            assert(view_members(members@) =~= Seq::<(Seq<char>, SpecJson)>::empty());
        }
        push_member(&mut members, "@type", JsonValue::Str(String::from_str("pageBlockVerticalAlignmentTop")));
        push_member(&mut members, "@extra", opt_string_tree(&self.extra));
        let node = JsonValue::Obj(members);
        proof {
            assert(view_members(members@) =~= self.members_spec());
            assert(node@ == self.wire_tree()->0);
        }
        Ok(node)
    }

    proof fn lemma_wire_wf(v: Self) {
        if v.wire_tree() is Some {
            let t = v.wire_tree()->0;
            let ms = t->Obj_0;
            assert(ms == v.members_spec());
            assert forall|i: int| 0 <= i < ms.len() implies wf(#[trigger] ms[i].1) by {
            }
        }
    }

    proof fn lemma_round_trip(v: Self) {
        if v.wire_tree() is Some {
            let t = v.wire_tree()->0;
            let ms = t->Obj_0;
            assert(ms == v.members_spec());
            reveal_strlit("@type");
            reveal_strlit("@extra");
            assert("@type"@.len() == 5);
            assert("@extra"@.len() == 6);
            reveal_with_fuel(get_spec, 4);
            lemma_get_spec_found(ms, "@type"@, 0);
            lemma_get_spec_found(ms, "@extra"@, 1);
            assert(tag_of(t) == Some(Self::tag_spec()));
            assert(ok_opt_str(t, "@extra"@));
            assert(Self::accepts(t));
            assert forall|w: Self| Self::decodes_from(t, w) implies #[trigger] w.eqv(v) by {
            }
        }
    }
}

impl RObject for PageBlockVerticalAlignmentTop {
    open spec fn tag_chars(&self) -> Seq<char> {
        Self::tag_spec()
    }

    open spec fn extra_spec(&self) -> Option<Seq<char>> {
        opt_str_view(self.extra)
    }

    fn td_name(&self) -> (r: &'static str) {
        "pageBlockVerticalAlignmentTop"
    }

    fn extra(&self) -> (r: Option<String>) {
        clone_opt_string(&self.extra)
    }

    fn to_json(&self) -> (r: Result<String, EncodeError>) {
        crate::object::encode(self)
    }
}

impl TDPageBlockVerticalAlignment for PageBlockVerticalAlignmentTop {

}

impl PageBlockVerticalAlignmentTop {
    pub fn from_json(json: &str) -> (r: Result<PageBlockVerticalAlignmentTop, DecodeError>)
        ensures
            match crate::parse::parse_doc(json@) {
                Some(t) => match r {
                    Ok(v) => Self::accepts(t) && Self::decodes_from(t, v),
                    Err(e) => !Self::accepts(t) && crate::errors::err_matches(e, Self::err_of(t)),
                },
                None => r matches Err(e) && e == DecodeError::Malformed,
            },
    {
        crate::object::from_json::<PageBlockVerticalAlignmentTop>(json)
    }

    pub fn builder() -> (r: RTDPageBlockVerticalAlignmentTopBuilder)
        ensures
            r.inner.extra is Some,
    {
        RTDPageBlockVerticalAlignmentTopBuilder {
            inner: PageBlockVerticalAlignmentTop {
                extra: Some(new_token()),
            },
        }
    }
}

pub struct RTDPageBlockVerticalAlignmentTopBuilder {
    pub inner: PageBlockVerticalAlignmentTop,
}

impl RTDPageBlockVerticalAlignmentTopBuilder {
    pub fn build(&self) -> (r: PageBlockVerticalAlignmentTop)
        ensures
            r.eqv(self.inner),
    {
        self.inner.clone()
    }
}
} // verus!
