use vstd::prelude::*;

use crate::errors::DecodeError;
use crate::errors::EncodeError;
use crate::errors::SpecDecodeError;
use crate::json::JsonMember;
use crate::json::JsonValue;
use crate::json::SpecJson;
use crate::json::i64_lex;
use crate::json::view_members;
use crate::json::wf;
use crate::object::RObject;
use crate::object::Wire;
use crate::object::clone_opt_string;
use crate::object::eqv_opt_string;
use crate::object::field_bool;
use crate::object::field_i64;
use crate::object::field_opt_string;
use crate::object::get_spec;
use crate::object::get_tag;
use crate::object::i64_lexeme;
use crate::object::lemma_get_spec_found;
use crate::object::m_bool;
use crate::object::m_i64;
use crate::object::m_opt_str;
use crate::object::new_token;
use crate::object::ok_bool;
use crate::object::ok_i64;
use crate::object::ok_opt_str;
use crate::object::opt_str_tree;
use crate::object::opt_str_view;
use crate::object::opt_string_tree;
use crate::object::push_member;
use crate::object::tag_of;

verus! {

/// Describes an instant view page for a web page
#[derive(Debug, PartialEq)]
pub struct WebPageInstantView {
    pub extra: Option<String>,
    /// Number of the instant view views; 0 if unknown
    pub view_count: i64,
    /// Version of the instant view, currently can be 1 or 2
    pub version: i64,
    /// True, if the instant view must be shown from right to left
    pub is_rtl: bool,
    /// True, if the instant view contains the full page. A network request might be needed to get the full web page instant view
    pub is_full: bool,
}

impl WebPageInstantView {
    pub open spec fn tag_spec() -> Seq<char> {
        "webPageInstantView"@
    }

    /// The members of the wire object, in the order they are written.
    pub open spec fn members_spec(self) -> Seq<(Seq<char>, SpecJson)> {
        seq![
            ("@type"@, SpecJson::Str(Self::tag_spec())),
            ("@extra"@, opt_str_tree(opt_str_view(self.extra))),
            ("view_count"@, SpecJson::Num(i64_lex(self.view_count as int))),
            ("version"@, SpecJson::Num(i64_lex(self.version as int))),
            ("is_rtl"@, SpecJson::Bool(self.is_rtl)),
            ("is_full"@, SpecJson::Bool(self.is_full)),
        ]
    }

    pub open spec fn fields_ok(t: SpecJson) -> bool {
        &&& ok_opt_str(t, "@extra"@)
        &&& ok_i64(t, "view_count"@)
        &&& ok_i64(t, "version"@)
        &&& ok_bool(t, "is_rtl"@)
        &&& ok_bool(t, "is_full"@)
    }

    pub open spec fn fail_field(t: SpecJson) -> Seq<char> {
        if !ok_opt_str(t, "@extra"@) {
            "@extra"@
        } else if !(ok_i64(t, "view_count"@)) {
            "view_count"@
        } else if !(ok_i64(t, "version"@)) {
            "version"@
        } else if !(ok_bool(t, "is_rtl"@)) {
            "is_rtl"@
        } else if !(ok_bool(t, "is_full"@)) {
            "is_full"@
        } else {
            Seq::empty()
        }
    }

    /// The encoding of a value carries exactly this type's tag.
    pub proof fn lemma_wire_tag(v: WebPageInstantView)
        ensures
            v.wire_tree() matches Some(t) ==> tag_of(t) == Some(WebPageInstantView::tag_spec()),
    {
        if v.wire_tree() is Some {
            let t = v.wire_tree()->0;
            let ms = t->Obj_0;
            lemma_get_spec_found(ms, "@type"@, 0);
        }
    }
}

impl Clone for WebPageInstantView {
    fn clone(&self) -> (res: Self)
        ensures
            res.eqv(*self),
    {
        WebPageInstantView {
            extra: clone_opt_string(&self.extra),
            view_count: self.view_count,
            version: self.version,
            is_rtl: self.is_rtl,
            is_full: self.is_full,
        }
    }
}

impl Wire for WebPageInstantView {
    open spec fn wire_tree(self) -> Option<SpecJson> {
        Some(SpecJson::Obj(self.members_spec()))
    }

    open spec fn accepts(t: SpecJson) -> bool {
        tag_of(t) is Some && Self::fields_ok(t)
    }

    open spec fn err_of(t: SpecJson) -> SpecDecodeError {
        match tag_of(t) {
            None => SpecDecodeError::Malformed,
            Some(_) => SpecDecodeError::FieldShapeMismatch(Self::tag_spec(), Self::fail_field(t)),
        }
    }

    open spec fn decodes_from(t: SpecJson, v: Self) -> bool {
        &&& m_opt_str(t, "@extra"@, v.extra)
        &&& m_i64(t, "view_count"@, v.view_count)
        &&& m_i64(t, "version"@, v.version)
        &&& m_bool(t, "is_rtl"@, v.is_rtl)
        &&& m_bool(t, "is_full"@, v.is_full)
    }

    open spec fn eqv(self, other: Self) -> bool {
        &&& eqv_opt_string(self.extra, other.extra)
        &&& self.view_count == other.view_count
        &&& self.version == other.version
        &&& self.is_rtl == other.is_rtl
        &&& self.is_full == other.is_full
    }

    fn clone_val(&self) -> (r: Self) {
        self.clone()
    }

    fn decode_tree(t: &JsonValue) -> (r: Result<Self, DecodeError>) {
        if get_tag(t).is_none() {
            return Err(DecodeError::Malformed);
        }
        let extra = match field_opt_string(t, "@extra") {
            Some(x) => x,
            None => {
                return Err(DecodeError::FieldShapeMismatch(
                    String::from_str("webPageInstantView"),
                    String::from_str("@extra"),
                ));
            },
        };
        let view_count = match field_i64(t, "view_count") {
            Some(x) => x,
            None => {
                return Err(DecodeError::FieldShapeMismatch(
                    String::from_str("webPageInstantView"),
                    String::from_str("view_count"),
                ));
            },
        };
        let version = match field_i64(t, "version") {
            Some(x) => x,
            None => {
                return Err(DecodeError::FieldShapeMismatch(
                    String::from_str("webPageInstantView"),
                    String::from_str("version"),
                ));
            },
        };
        let is_rtl = match field_bool(t, "is_rtl") {
            Some(x) => x,
            None => {
                return Err(DecodeError::FieldShapeMismatch(
                    String::from_str("webPageInstantView"),
                    String::from_str("is_rtl"),
                ));
            },
        };
        let is_full = match field_bool(t, "is_full") {
            Some(x) => x,
            None => {
                return Err(DecodeError::FieldShapeMismatch(
                    String::from_str("webPageInstantView"),
                    String::from_str("is_full"),
                ));
            },
        };
        Ok(WebPageInstantView { extra, view_count, version, is_rtl, is_full })
    }

    fn encode_tree(&self) -> (r: Result<JsonValue, EncodeError>) {
        let mut members: Vec<JsonMember> = Vec::new();
        proof {
            assert(view_members(members@) =~= Seq::<(Seq<char>, SpecJson)>::empty());
        }
        push_member(&mut members, "@type", JsonValue::Str(String::from_str("webPageInstantView")));
        push_member(&mut members, "@extra", opt_string_tree(&self.extra));
        push_member(&mut members, "view_count", JsonValue::Num(i64_lexeme(self.view_count)));
        push_member(&mut members, "version", JsonValue::Num(i64_lexeme(self.version)));
        push_member(&mut members, "is_rtl", JsonValue::Bool(self.is_rtl));
        push_member(&mut members, "is_full", JsonValue::Bool(self.is_full));
        let node = JsonValue::Obj(members);
        proof {
            assert(view_members(members@) =~= self.members_spec());
            assert(node@ == self.wire_tree()->0);
        }
        Ok(node)
    }

    proof fn lemma_wire_wf(v: Self) {
        if v.wire_tree() is Some {
            let t = v.wire_tree()->0;
            let ms = t->Obj_0;
            assert(ms == v.members_spec());
            crate::json::lemma_i64_lex(v.view_count);
            crate::json::lemma_i64_lex(v.version);
            assert forall|i: int| 0 <= i < ms.len() implies wf(#[trigger] ms[i].1) by {
            }
        }
    }

    proof fn lemma_round_trip(v: Self) {
        if v.wire_tree() is Some {
            let t = v.wire_tree()->0;
            let ms = t->Obj_0;
            assert(ms == v.members_spec());
            reveal_strlit("@type");
            reveal_strlit("@extra");
            reveal_strlit("view_count");
            reveal_strlit("version");
            reveal_strlit("is_rtl");
            reveal_strlit("is_full");
            assert("@type"@.len() == 5);
            assert("@extra"@.len() == 6);
            assert("view_count"@.len() == 10);
            assert("version"@.len() == 7);
            assert("is_rtl"@.len() == 6);
            assert("is_full"@.len() == 7);
            assert("@extra"@[0] == '@' && "is_rtl"@[0] == 'i');
            assert("version"@[0] == 'v' && "is_full"@[0] == 'i');
            reveal_with_fuel(get_spec, 8);
            lemma_get_spec_found(ms, "@type"@, 0);
            lemma_get_spec_found(ms, "@extra"@, 1);
            lemma_get_spec_found(ms, "view_count"@, 2);
            lemma_get_spec_found(ms, "version"@, 3);
            lemma_get_spec_found(ms, "is_rtl"@, 4);
            lemma_get_spec_found(ms, "is_full"@, 5);
            assert(tag_of(t) == Some(Self::tag_spec()));
            assert(ok_opt_str(t, "@extra"@));
            crate::json::lemma_i64_lex(v.view_count);
            assert(ok_i64(t, "view_count"@));
            crate::json::lemma_i64_lex(v.version);
            assert(ok_i64(t, "version"@));
            assert(ok_bool(t, "is_rtl"@));
            assert(ok_bool(t, "is_full"@));
            assert(Self::accepts(t));
            assert forall|w: Self| Self::decodes_from(t, w) implies #[trigger] w.eqv(v) by {
            }
        }
    }
}

impl RObject for WebPageInstantView {
    open spec fn tag_chars(&self) -> Seq<char> {
        Self::tag_spec()
    }

    open spec fn extra_spec(&self) -> Option<Seq<char>> {
        opt_str_view(self.extra)
    }

    fn td_name(&self) -> (r: &'static str) {
        "webPageInstantView"
    }

    fn extra(&self) -> (r: Option<String>) {
        clone_opt_string(&self.extra)
    }

    fn to_json(&self) -> (r: Result<String, EncodeError>) {
        crate::object::encode(self)
    }
}

impl WebPageInstantView {
    pub fn from_json(json: &str) -> (r: Result<WebPageInstantView, DecodeError>)
        ensures
            match crate::parse::parse_doc(json@) {
                Some(t) => match r {
                    Ok(v) => Self::accepts(t) && Self::decodes_from(t, v),
                    Err(e) => !Self::accepts(t) && crate::errors::err_matches(e, Self::err_of(t)),
                },
                None => r matches Err(e) && e == DecodeError::Malformed,
            },
    {
        crate::object::from_json::<WebPageInstantView>(json)
    }

    pub fn builder() -> (r: RTDWebPageInstantViewBuilder)
        ensures
            r.inner.extra is Some,
            r.inner.view_count == 0,
            r.inner.version == 0,
            r.inner.is_rtl == false,
            r.inner.is_full == false,
    {
        RTDWebPageInstantViewBuilder {
            inner: WebPageInstantView {
                extra: Some(new_token()),
                view_count: 0,
                version: 0,
                is_rtl: false,
                is_full: false,
            },
        }
    }

    pub fn view_count(&self) -> (r: i64)
        ensures
            r == self.view_count,
    {
        self.view_count
    }

    pub fn version(&self) -> (r: i64)
        ensures
            r == self.version,
    {
        self.version
    }

    pub fn is_rtl(&self) -> (r: bool)
        ensures
            r == self.is_rtl,
    {
        self.is_rtl
    }

    pub fn is_full(&self) -> (r: bool)
        ensures
            r == self.is_full,
    {
        self.is_full
    }
}

pub struct RTDWebPageInstantViewBuilder {
    pub inner: WebPageInstantView,
}

impl RTDWebPageInstantViewBuilder {
    pub fn build(&self) -> (r: WebPageInstantView)
        ensures
            r.eqv(self.inner),
    {
        self.inner.clone()
    }

    pub fn view_count(&mut self, view_count: i64) -> (r: &mut Self)
        ensures
            *r == (RTDWebPageInstantViewBuilder { inner: WebPageInstantView { view_count: view_count, ..old(self).inner } }),
            *final(self) == *final(r),
    {
        self.inner.view_count = view_count;
        self
    }

    pub fn version(&mut self, version: i64) -> (r: &mut Self)
        ensures
            *r == (RTDWebPageInstantViewBuilder { inner: WebPageInstantView { version: version, ..old(self).inner } }),
            *final(self) == *final(r),
    {
        self.inner.version = version;
        self
    }

    pub fn is_rtl(&mut self, is_rtl: bool) -> (r: &mut Self)
        ensures
            *r == (RTDWebPageInstantViewBuilder { inner: WebPageInstantView { is_rtl: is_rtl, ..old(self).inner } }),
            *final(self) == *final(r),
    {
        self.inner.is_rtl = is_rtl;
        self
    }

    pub fn is_full(&mut self, is_full: bool) -> (r: &mut Self)
        ensures
            *r == (RTDWebPageInstantViewBuilder { inner: WebPageInstantView { is_full: is_full, ..old(self).inner } }),
            *final(self) == *final(r),
    {
        self.inner.is_full = is_full;
        self
    }
}
} // verus!
