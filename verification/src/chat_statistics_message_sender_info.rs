use vstd::prelude::*;

use crate::errors::DecodeError;
use crate::errors::EncodeError;
use crate::errors::SpecDecodeError;
use crate::json::JsonMember;
use crate::json::JsonValue;
use crate::json::SpecJson;
use crate::json::i64_lex;
use crate::json::view_members;
use crate::json::wf;
use crate::object::RObject;
use crate::object::Wire;
use crate::object::clone_opt_string;
use crate::object::eqv_opt_string;
use crate::object::field_i64;
use crate::object::field_opt_string;
use crate::object::get_spec;
use crate::object::get_tag;
use crate::object::i64_lexeme;
use crate::object::lemma_get_spec_found;
use crate::object::m_i64;
use crate::object::m_opt_str;
use crate::object::new_token;
use crate::object::ok_i64;
use crate::object::ok_opt_str;
use crate::object::opt_str_tree;
use crate::object::opt_str_view;
use crate::object::opt_string_tree;
use crate::object::push_member;
use crate::object::tag_of;

verus! {

/// Contains statistics about messages sent by a user
#[derive(Debug, PartialEq)]
pub struct ChatStatisticsMessageSenderInfo {
    pub extra: Option<String>,
    /// User identifier
    pub user_id: i64,
    /// Number of sent messages
    pub sent_message_count: i64,
    /// Average number of characters in sent messages; 0 if unknown
    pub average_character_count: i64,
}

impl ChatStatisticsMessageSenderInfo {
    pub open spec fn tag_spec() -> Seq<char> {
        "chatStatisticsMessageSenderInfo"@
    }

    /// The members of the wire object, in the order they are written.
    pub open spec fn members_spec(self) -> Seq<(Seq<char>, SpecJson)> {
        seq![
            ("@type"@, SpecJson::Str(Self::tag_spec())),
            ("@extra"@, opt_str_tree(opt_str_view(self.extra))),
            ("user_id"@, SpecJson::Num(i64_lex(self.user_id as int))),
            ("sent_message_count"@, SpecJson::Num(i64_lex(self.sent_message_count as int))),
            ("average_character_count"@, SpecJson::Num(i64_lex(self.average_character_count as int))),
        ]
    }

    pub open spec fn fields_ok(t: SpecJson) -> bool {
        &&& ok_opt_str(t, "@extra"@)
        &&& ok_i64(t, "user_id"@)
        &&& ok_i64(t, "sent_message_count"@)
        &&& ok_i64(t, "average_character_count"@)
    }

    pub open spec fn fail_field(t: SpecJson) -> Seq<char> {
        if !ok_opt_str(t, "@extra"@) {
            "@extra"@
        } else if !(ok_i64(t, "user_id"@)) {
            "user_id"@
        } else if !(ok_i64(t, "sent_message_count"@)) {
            "sent_message_count"@
        } else if !(ok_i64(t, "average_character_count"@)) {
            "average_character_count"@
        } else {
            Seq::empty()
        }
    }

    /// The encoding of a value carries exactly this type's tag.
    pub proof fn lemma_wire_tag(v: ChatStatisticsMessageSenderInfo)
        ensures
            v.wire_tree() matches Some(t) ==> tag_of(t) == Some(ChatStatisticsMessageSenderInfo::tag_spec()),
    {
        if v.wire_tree() is Some {
            let t = v.wire_tree()->0;
            let ms = t->Obj_0;
            lemma_get_spec_found(ms, "@type"@, 0);
        }
    }
}

impl Clone for ChatStatisticsMessageSenderInfo {
    fn clone(&self) -> (res: Self)
        ensures
            res.eqv(*self),
    {
        ChatStatisticsMessageSenderInfo {
            extra: clone_opt_string(&self.extra),
            user_id: self.user_id,
            sent_message_count: self.sent_message_count,
            average_character_count: self.average_character_count,
        }
    }
}

impl Wire for ChatStatisticsMessageSenderInfo {
    open spec fn wire_tree(self) -> Option<SpecJson> {
        Some(SpecJson::Obj(self.members_spec()))
    }

    open spec fn accepts(t: SpecJson) -> bool {
        tag_of(t) is Some && Self::fields_ok(t)
    }

    open spec fn err_of(t: SpecJson) -> SpecDecodeError {
        match tag_of(t) {
            None => SpecDecodeError::Malformed,
            Some(_) => SpecDecodeError::FieldShapeMismatch(Self::tag_spec(), Self::fail_field(t)),
        }
    }

    open spec fn decodes_from(t: SpecJson, v: Self) -> bool {
        &&& m_opt_str(t, "@extra"@, v.extra)
        &&& m_i64(t, "user_id"@, v.user_id)
        &&& m_i64(t, "sent_message_count"@, v.sent_message_count)
        &&& m_i64(t, "average_character_count"@, v.average_character_count)
    }

    open spec fn eqv(self, other: Self) -> bool {
        &&& eqv_opt_string(self.extra, other.extra)
        &&& self.user_id == other.user_id
        &&& self.sent_message_count == other.sent_message_count
        &&& self.average_character_count == other.average_character_count
    }

    fn clone_val(&self) -> (r: Self) {
        self.clone()
    }

    fn decode_tree(t: &JsonValue) -> (r: Result<Self, DecodeError>) {
        if get_tag(t).is_none() {
            return Err(DecodeError::Malformed);
        }
        let extra = match field_opt_string(t, "@extra") {
            Some(x) => x,
            None => {
                return Err(DecodeError::FieldShapeMismatch(
                    String::from_str("chatStatisticsMessageSenderInfo"),
                    String::from_str("@extra"),
                ));
            },
        };
        let user_id = match field_i64(t, "user_id") {
            Some(x) => x,
            None => {
                return Err(DecodeError::FieldShapeMismatch(
                    String::from_str("chatStatisticsMessageSenderInfo"),
                    String::from_str("user_id"),
                ));
            },
        };
        let sent_message_count = match field_i64(t, "sent_message_count") {
            Some(x) => x,
            None => {
                return Err(DecodeError::FieldShapeMismatch(
                    String::from_str("chatStatisticsMessageSenderInfo"),
                    String::from_str("sent_message_count"),
                ));
            },
        };
        let average_character_count = match field_i64(t, "average_character_count") {
            Some(x) => x,
            None => {
                return Err(DecodeError::FieldShapeMismatch(
                    String::from_str("chatStatisticsMessageSenderInfo"),
                    String::from_str("average_character_count"),
                ));
            },
        };
        Ok(ChatStatisticsMessageSenderInfo { extra, user_id, sent_message_count, average_character_count })
    }

    fn encode_tree(&self) -> (r: Result<JsonValue, EncodeError>) {
        let mut members: Vec<JsonMember> = Vec::new();
        proof {
            assert(view_members(members@) =~= Seq::<(Seq<char>, SpecJson)>::empty());
        }
        push_member(&mut members, "@type", JsonValue::Str(String::from_str("chatStatisticsMessageSenderInfo")));
        push_member(&mut members, "@extra", opt_string_tree(&self.extra));
        push_member(&mut members, "user_id", JsonValue::Num(i64_lexeme(self.user_id)));
        push_member(&mut members, "sent_message_count", JsonValue::Num(i64_lexeme(self.sent_message_count)));
        push_member(&mut members, "average_character_count", JsonValue::Num(i64_lexeme(self.average_character_count)));
        let node = JsonValue::Obj(members);
        proof {
            assert(view_members(members@) =~= self.members_spec());
            assert(node@ == self.wire_tree()->0);
        }
        Ok(node)
    }

    proof fn lemma_wire_wf(v: Self) {
        if v.wire_tree() is Some {
            let t = v.wire_tree()->0;
            let ms = t->Obj_0;
            assert(ms == v.members_spec());
            crate::json::lemma_i64_lex(v.user_id);
            crate::json::lemma_i64_lex(v.sent_message_count);
            crate::json::lemma_i64_lex(v.average_character_count);
            assert forall|i: int| 0 <= i < ms.len() implies wf(#[trigger] ms[i].1) by {
            }
        }
    }

    proof fn lemma_round_trip(v: Self) {
        if v.wire_tree() is Some {
            let t = v.wire_tree()->0;
            let ms = t->Obj_0;
            assert(ms == v.members_spec());
            reveal_strlit("@type");
            reveal_strlit("@extra");
            reveal_strlit("user_id");
            reveal_strlit("sent_message_count");
            reveal_strlit("average_character_count");
            assert("@type"@.len() == 5);
            assert("@extra"@.len() == 6);
            assert("user_id"@.len() == 7);
            assert("sent_message_count"@.len() == 18);
            assert("average_character_count"@.len() == 23);
            reveal_with_fuel(get_spec, 7);
            lemma_get_spec_found(ms, "@type"@, 0);
            lemma_get_spec_found(ms, "@extra"@, 1);
            lemma_get_spec_found(ms, "user_id"@, 2);
            lemma_get_spec_found(ms, "sent_message_count"@, 3);
            lemma_get_spec_found(ms, "average_character_count"@, 4);
            assert(tag_of(t) == Some(Self::tag_spec()));
            assert(ok_opt_str(t, "@extra"@));
            crate::json::lemma_i64_lex(v.user_id);
            assert(ok_i64(t, "user_id"@));
            crate::json::lemma_i64_lex(v.sent_message_count);
            assert(ok_i64(t, "sent_message_count"@));
            crate::json::lemma_i64_lex(v.average_character_count);
            assert(ok_i64(t, "average_character_count"@));
            assert(Self::accepts(t));
            assert forall|w: Self| Self::decodes_from(t, w) implies #[trigger] w.eqv(v) by {
            }
        }
    }
}

impl RObject for ChatStatisticsMessageSenderInfo {
    open spec fn tag_chars(&self) -> Seq<char> {
        Self::tag_spec()
    }

    open spec fn extra_spec(&self) -> Option<Seq<char>> {
        opt_str_view(self.extra)
    }

    fn td_name(&self) -> (r: &'static str) {
        "chatStatisticsMessageSenderInfo"
    }

    fn extra(&self) -> (r: Option<String>) {
        clone_opt_string(&self.extra)
    }

    fn to_json(&self) -> (r: Result<String, EncodeError>) {
        crate::object::encode(self)
    }
}

impl ChatStatisticsMessageSenderInfo {
    pub fn from_json(json: &str) -> (r: Result<ChatStatisticsMessageSenderInfo, DecodeError>)
        ensures
            match crate::parse::parse_doc(json@) {
                Some(t) => match r {
                    Ok(v) => Self::accepts(t) && Self::decodes_from(t, v),
                    Err(e) => !Self::accepts(t) && crate::errors::err_matches(e, Self::err_of(t)),
                },
                None => r matches Err(e) && e == DecodeError::Malformed,
            },
    {
        crate::object::from_json::<ChatStatisticsMessageSenderInfo>(json)
    }

    pub fn builder() -> (r: RTDChatStatisticsMessageSenderInfoBuilder)
        ensures
            r.inner.extra is Some,
            r.inner.user_id == 0,
            r.inner.sent_message_count == 0,
            r.inner.average_character_count == 0,
    {
        RTDChatStatisticsMessageSenderInfoBuilder {
            inner: ChatStatisticsMessageSenderInfo {
                extra: Some(new_token()),
                user_id: 0,
                sent_message_count: 0,
                average_character_count: 0,
            },
        }
    }

    pub fn user_id(&self) -> (r: i64)
        ensures
            r == self.user_id,
    {
        self.user_id
    }

    pub fn sent_message_count(&self) -> (r: i64)
        ensures
            r == self.sent_message_count,
    {
        self.sent_message_count
    }

    pub fn average_character_count(&self) -> (r: i64)
        ensures
            r == self.average_character_count,
    {
        self.average_character_count
    }
}

pub struct RTDChatStatisticsMessageSenderInfoBuilder {
    pub inner: ChatStatisticsMessageSenderInfo,
}

impl RTDChatStatisticsMessageSenderInfoBuilder {
    pub fn build(&self) -> (r: ChatStatisticsMessageSenderInfo)
        ensures
            r.eqv(self.inner),
    {
        self.inner.clone()
    }

    pub fn user_id(&mut self, user_id: i64) -> (r: &mut Self)
        ensures
            *r == (RTDChatStatisticsMessageSenderInfoBuilder { inner: ChatStatisticsMessageSenderInfo { user_id: user_id, ..old(self).inner } }),
            *final(self) == *final(r),
    {
        self.inner.user_id = user_id;
        self
    }

    pub fn sent_message_count(&mut self, sent_message_count: i64) -> (r: &mut Self)
        ensures
            *r == (RTDChatStatisticsMessageSenderInfoBuilder { inner: ChatStatisticsMessageSenderInfo { sent_message_count: sent_message_count, ..old(self).inner } }),
            *final(self) == *final(r),
    {
        self.inner.sent_message_count = sent_message_count;
        self
    }

    pub fn average_character_count(&mut self, average_character_count: i64) -> (r: &mut Self)
        ensures
            *r == (RTDChatStatisticsMessageSenderInfoBuilder { inner: ChatStatisticsMessageSenderInfo { average_character_count: average_character_count, ..old(self).inner } }),
            *final(self) == *final(r),
    {
        self.inner.average_character_count = average_character_count;
        self
    }
}
} // verus!
