use vstd::prelude::*;

use crate::errors::DecodeError;
use crate::errors::EncodeError;
use crate::errors::SpecDecodeError;
use crate::json::JsonMember;
use crate::json::JsonValue;
use crate::json::SpecJson;
use crate::json::i64_lex;
use crate::json::view_members;
use crate::json::wf;
use crate::object::RObject;
use crate::object::Wire;
use crate::object::clone_opt_string;
use crate::object::eqv_opt_string;
use crate::object::field_i64;
use crate::object::field_opt_string;
use crate::object::get_spec;
use crate::object::get_tag;
use crate::object::i64_lexeme;
use crate::object::lemma_get_spec_found;
use crate::object::m_i64;
use crate::object::m_opt_str;
use crate::object::new_token;
use crate::object::ok_i64;
use crate::object::ok_opt_str;
use crate::object::opt_str_tree;
use crate::object::opt_str_view;
use crate::object::opt_string_tree;
use crate::object::push_member;
use crate::object::tag_of;

verus! {

/// Contains information about interactions with a message
#[derive(Debug, PartialEq)]
pub struct MessageInteractionInfo {
    pub extra: Option<String>,
    /// Number of times the message was viewed
    pub view_count: i64,
    /// Number of times the message was forwarded
    pub forward_count: i64,
}

impl MessageInteractionInfo {
    pub open spec fn tag_spec() -> Seq<char> {
        "messageInteractionInfo"@
    }

    /// The members of the wire object, in the order they are written.
    pub open spec fn members_spec(self) -> Seq<(Seq<char>, SpecJson)> {
        seq![
            ("@type"@, SpecJson::Str(Self::tag_spec())),
            ("@extra"@, opt_str_tree(opt_str_view(self.extra))),
            ("view_count"@, SpecJson::Num(i64_lex(self.view_count as int))),
            ("forward_count"@, SpecJson::Num(i64_lex(self.forward_count as int))),
        ]
    }

    pub open spec fn fields_ok(t: SpecJson) -> bool {
        &&& ok_opt_str(t, "@extra"@)
        &&& ok_i64(t, "view_count"@)
        &&& ok_i64(t, "forward_count"@)
    }

    pub open spec fn fail_field(t: SpecJson) -> Seq<char> {
        if !ok_opt_str(t, "@extra"@) {
            "@extra"@
        } else if !(ok_i64(t, "view_count"@)) {
            "view_count"@
        } else if !(ok_i64(t, "forward_count"@)) {
            "forward_count"@
        } else {
            Seq::empty()
        }
    }

    /// The encoding of a value carries exactly this type's tag.
    pub proof fn lemma_wire_tag(v: MessageInteractionInfo)
        ensures
            v.wire_tree() matches Some(t) ==> tag_of(t) == Some(MessageInteractionInfo::tag_spec()),
    {
        if v.wire_tree() is Some {
            let t = v.wire_tree()->0;
            let ms = t->Obj_0;
            lemma_get_spec_found(ms, "@type"@, 0);
        }
    }
}

impl Clone for MessageInteractionInfo {
    fn clone(&self) -> (res: Self)
        ensures
            res.eqv(*self),
    {
        MessageInteractionInfo {
            extra: clone_opt_string(&self.extra),
            view_count: self.view_count,
            forward_count: self.forward_count,
        }
    }
}

impl Wire for MessageInteractionInfo {
    open spec fn wire_tree(self) -> Option<SpecJson> {
        Some(SpecJson::Obj(self.members_spec()))
    }

    open spec fn accepts(t: SpecJson) -> bool {
        tag_of(t) is Some && Self::fields_ok(t)
    }

    open spec fn err_of(t: SpecJson) -> SpecDecodeError {
        match tag_of(t) {
            None => SpecDecodeError::Malformed,
            Some(_) => SpecDecodeError::FieldShapeMismatch(Self::tag_spec(), Self::fail_field(t)),
        }
    }

    open spec fn decodes_from(t: SpecJson, v: Self) -> bool {
        &&& m_opt_str(t, "@extra"@, v.extra)
        &&& m_i64(t, "view_count"@, v.view_count)
        &&& m_i64(t, "forward_count"@, v.forward_count)
    }

    open spec fn eqv(self, other: Self) -> bool {
        &&& eqv_opt_string(self.extra, other.extra)
        &&& self.view_count == other.view_count
        &&& self.forward_count == other.forward_count
    }

    fn clone_val(&self) -> (r: Self) {
        self.clone()
    }

    fn decode_tree(t: &JsonValue) -> (r: Result<Self, DecodeError>) {
        if get_tag(t).is_none() {
            return Err(DecodeError::Malformed);
        }
        let extra = match field_opt_string(t, "@extra") {
            Some(x) => x,
            None => {
                return Err(DecodeError::FieldShapeMismatch(
                    String::from_str("messageInteractionInfo"),
                    String::from_str("@extra"),
                ));
            },
        };
        let view_count = match field_i64(t, "view_count") {
            Some(x) => x,
            None => {
                return Err(DecodeError::FieldShapeMismatch(
                    String::from_str("messageInteractionInfo"),
                    String::from_str("view_count"),
                ));
            },
        };
        let forward_count = match field_i64(t, "forward_count") {
            Some(x) => x,
            None => {
                return Err(DecodeError::FieldShapeMismatch(
                    String::from_str("messageInteractionInfo"),
                    String::from_str("forward_count"),
                ));
            },
        };
        Ok(MessageInteractionInfo { extra, view_count, forward_count })
    }

    fn encode_tree(&self) -> (r: Result<JsonValue, EncodeError>) {
        let mut members: Vec<JsonMember> = Vec::new();
        proof {
            assert(view_members(members@) =~= Seq::<(Seq<char>, SpecJson)>::empty());
        }
        push_member(&mut members, "@type", JsonValue::Str(String::from_str("messageInteractionInfo")));
        push_member(&mut members, "@extra", opt_string_tree(&self.extra));
        push_member(&mut members, "view_count", JsonValue::Num(i64_lexeme(self.view_count)));
        push_member(&mut members, "forward_count", JsonValue::Num(i64_lexeme(self.forward_count)));
        let node = JsonValue::Obj(members);
        proof {
            assert(view_members(members@) =~= self.members_spec());
            assert(node@ == self.wire_tree()->0);
        }
        Ok(node)
    }

    proof fn lemma_wire_wf(v: Self) {
        if v.wire_tree() is Some {
            let t = v.wire_tree()->0;
            let ms = t->Obj_0;
            assert(ms == v.members_spec());
            crate::json::lemma_i64_lex(v.view_count);
            crate::json::lemma_i64_lex(v.forward_count);
            assert forall|i: int| 0 <= i < ms.len() implies wf(#[trigger] ms[i].1) by {
            }
        }
    }

    proof fn lemma_round_trip(v: Self) {
        if v.wire_tree() is Some {
            let t = v.wire_tree()->0;
            let ms = t->Obj_0;
            assert(ms == v.members_spec());
            reveal_strlit("@type");
            reveal_strlit("@extra");
            reveal_strlit("view_count");
            reveal_strlit("forward_count");
            assert("@type"@.len() == 5);
            assert("@extra"@.len() == 6);
            assert("view_count"@.len() == 10);
            assert("forward_count"@.len() == 13);
            reveal_with_fuel(get_spec, 6);
            lemma_get_spec_found(ms, "@type"@, 0);
            lemma_get_spec_found(ms, "@extra"@, 1);
            lemma_get_spec_found(ms, "view_count"@, 2);
            lemma_get_spec_found(ms, "forward_count"@, 3);
            assert(tag_of(t) == Some(Self::tag_spec()));
            assert(ok_opt_str(t, "@extra"@));
            crate::json::lemma_i64_lex(v.view_count);
            assert(ok_i64(t, "view_count"@));
            crate::json::lemma_i64_lex(v.forward_count);
            assert(ok_i64(t, "forward_count"@));
            assert(Self::accepts(t));
            assert forall|w: Self| Self::decodes_from(t, w) implies #[trigger] w.eqv(v) by {
            }
        }
    }
}

impl RObject for MessageInteractionInfo {
    open spec fn tag_chars(&self) -> Seq<char> {
        Self::tag_spec()
    }

    open spec fn extra_spec(&self) -> Option<Seq<char>> {
        opt_str_view(self.extra)
    }

    fn td_name(&self) -> (r: &'static str) {
        "messageInteractionInfo"
    }

    fn extra(&self) -> (r: Option<String>) {
        clone_opt_string(&self.extra)
    }

    fn to_json(&self) -> (r: Result<String, EncodeError>) {
        crate::object::encode(self)
    }
}

impl MessageInteractionInfo {
    pub fn from_json(json: &str) -> (r: Result<MessageInteractionInfo, DecodeError>)
        ensures
            match crate::parse::parse_doc(json@) {
                Some(t) => match r {
                    Ok(v) => Self::accepts(t) && Self::decodes_from(t, v),
                    Err(e) => !Self::accepts(t) && crate::errors::err_matches(e, Self::err_of(t)),
                },
                None => r matches Err(e) && e == DecodeError::Malformed,
            },
    {
        crate::object::from_json::<MessageInteractionInfo>(json)
    }

    pub fn builder() -> (r: RTDMessageInteractionInfoBuilder)
        ensures
            r.inner.extra is Some,
            r.inner.view_count == 0,
            r.inner.forward_count == 0,
    {
        RTDMessageInteractionInfoBuilder {
            inner: MessageInteractionInfo {
                extra: Some(new_token()),
                view_count: 0,
                forward_count: 0,
            },
        }
    }

    pub fn view_count(&self) -> (r: i64)
        ensures
            r == self.view_count,
    {
        self.view_count
    }

    pub fn forward_count(&self) -> (r: i64)
        ensures
            r == self.forward_count,
    {
        self.forward_count
    }
}

pub struct RTDMessageInteractionInfoBuilder {
    pub inner: MessageInteractionInfo,
}

impl RTDMessageInteractionInfoBuilder {
    pub fn build(&self) -> (r: MessageInteractionInfo)
        ensures
            r.eqv(self.inner),
    {
        self.inner.clone()
    }

    pub fn view_count(&mut self, view_count: i64) -> (r: &mut Self)
        ensures
            *r == (RTDMessageInteractionInfoBuilder { inner: MessageInteractionInfo { view_count: view_count, ..old(self).inner } }),
            *final(self) == *final(r),
    {
        self.inner.view_count = view_count;
        self
    }

    pub fn forward_count(&mut self, forward_count: i64) -> (r: &mut Self)
        ensures
            *r == (RTDMessageInteractionInfoBuilder { inner: MessageInteractionInfo { forward_count: forward_count, ..old(self).inner } }),
            *final(self) == *final(r),
    {
        self.inner.forward_count = forward_count;
        self
    }
}
} // verus!
