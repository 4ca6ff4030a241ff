use vstd::prelude::*;

use crate::errors::DecodeError;
use crate::errors::EncodeError;
use crate::errors::SpecDecodeError;
use crate::json::JsonMember;
use crate::json::JsonValue;
use crate::json::SpecJson;
use crate::json::i64_lex;
use crate::json::view_members;
use crate::json::wf;
use crate::object::RObject;
use crate::object::Wire;
use crate::object::clone_opt_string;
use crate::object::clone_vec;
use crate::object::decode_vec;
use crate::object::encode_vec;
use crate::object::eqv_opt_string;
use crate::object::eqv_vec;
use crate::object::field_i64;
use crate::object::field_opt_string;
use crate::object::get_field;
use crate::object::get_spec;
use crate::object::get_tag;
use crate::object::i64_lexeme;
use crate::object::lemma_get_spec_found;
use crate::object::lemma_vec_wire_elts;
use crate::object::m_i64;
use crate::object::m_opt_str;
use crate::object::m_vec_custom;
use crate::object::new_token;
use crate::object::ok_i64;
use crate::object::ok_opt_str;
use crate::object::ok_vec_custom;
use crate::object::opt_str_tree;
use crate::object::opt_str_view;
use crate::object::opt_string_tree;
use crate::object::push_member;
use crate::object::tag_of;
use crate::object::vec_wire;
use crate::message::Message;

verus! {

/// Contains information about a message thread
#[derive(Debug, PartialEq)]
pub struct MessageThreadInfo {
    pub extra: Option<String>,
    /// Identifier of the chat to which the message thread belongs
    pub chat_id: i64,
    /// Message thread identifier, unique within the chat
    pub message_thread_id: i64,
    /// Approximate number of unread messages in the message thread
    pub unread_message_count: i64,
    /// The messages from which the thread starts. The messages are returned in a reverse chronological order (i.e., in order of decreasing message_id)
    pub messages: Vec<Message>,
}

impl MessageThreadInfo {
    pub open spec fn tag_spec() -> Seq<char> {
        "messageThreadInfo"@
    }

    /// The members of the wire object, in the order they are written.
    pub open spec fn members_spec(self) -> Seq<(Seq<char>, SpecJson)> {
        seq![
            ("@type"@, SpecJson::Str(Self::tag_spec())),
            ("@extra"@, opt_str_tree(opt_str_view(self.extra))),
            ("chat_id"@, SpecJson::Num(i64_lex(self.chat_id as int))),
            ("message_thread_id"@, SpecJson::Num(i64_lex(self.message_thread_id as int))),
            ("unread_message_count"@, SpecJson::Num(i64_lex(self.unread_message_count as int))),
            ("messages"@, SpecJson::Arr(vec_wire::<Message>(self.messages@)->0)),
        ]
    }

    pub open spec fn fields_ok(t: SpecJson) -> bool {
        &&& ok_opt_str(t, "@extra"@)
        &&& ok_i64(t, "chat_id"@)
        &&& ok_i64(t, "message_thread_id"@)
        &&& ok_i64(t, "unread_message_count"@)
        &&& ok_vec_custom::<Message>(t, "messages"@)
    }

    pub open spec fn fail_field(t: SpecJson) -> Seq<char> {
        if !ok_opt_str(t, "@extra"@) {
            "@extra"@
        } else if !(ok_i64(t, "chat_id"@)) {
            "chat_id"@
        } else if !(ok_i64(t, "message_thread_id"@)) {
            "message_thread_id"@
        } else if !(ok_i64(t, "unread_message_count"@)) {
            "unread_message_count"@
        } else if !(ok_vec_custom::<Message>(t, "messages"@)) {
            "messages"@
        } else {
            Seq::empty()
        }
    }

    /// The encoding of a value carries exactly this type's tag.
    pub proof fn lemma_wire_tag(v: MessageThreadInfo)
        ensures
            v.wire_tree() matches Some(t) ==> tag_of(t) == Some(MessageThreadInfo::tag_spec()),
    {
        if v.wire_tree() is Some {
            let t = v.wire_tree()->0;
            let ms = t->Obj_0;
            lemma_get_spec_found(ms, "@type"@, 0);
        }
    }
}

impl Clone for MessageThreadInfo {
    fn clone(&self) -> (res: Self)
        ensures
            res.eqv(*self),
    {
        MessageThreadInfo {
            extra: clone_opt_string(&self.extra),
            chat_id: self.chat_id,
            message_thread_id: self.message_thread_id,
            unread_message_count: self.unread_message_count,
            messages: clone_vec(&self.messages),
        }
    }
}

impl Wire for MessageThreadInfo {
    open spec fn wire_tree(self) -> Option<SpecJson> {
        if vec_wire::<Message>(self.messages@) is None {
            None
        } else {
            Some(SpecJson::Obj(self.members_spec()))
        }
    }

    open spec fn accepts(t: SpecJson) -> bool {
        tag_of(t) is Some && Self::fields_ok(t)
    }

    open spec fn err_of(t: SpecJson) -> SpecDecodeError {
        match tag_of(t) {
            None => SpecDecodeError::Malformed,
            Some(_) => SpecDecodeError::FieldShapeMismatch(Self::tag_spec(), Self::fail_field(t)),
        }
    }

    open spec fn decodes_from(t: SpecJson, v: Self) -> bool {
        &&& m_opt_str(t, "@extra"@, v.extra)
        &&& m_i64(t, "chat_id"@, v.chat_id)
        &&& m_i64(t, "message_thread_id"@, v.message_thread_id)
        &&& m_i64(t, "unread_message_count"@, v.unread_message_count)
        &&& m_vec_custom::<Message>(t, "messages"@, v.messages)
    }

    open spec fn eqv(self, other: Self) -> bool {
        &&& eqv_opt_string(self.extra, other.extra)
        &&& self.chat_id == other.chat_id
        &&& self.message_thread_id == other.message_thread_id
        &&& self.unread_message_count == other.unread_message_count
        &&& eqv_vec(self.messages, other.messages)
    }

    fn clone_val(&self) -> (r: Self) {
        self.clone()
    }

    fn decode_tree(t: &JsonValue) -> (r: Result<Self, DecodeError>) {
        if get_tag(t).is_none() {
            return Err(DecodeError::Malformed);
        }
        let extra = match field_opt_string(t, "@extra") {
            Some(x) => x,
            None => {
                return Err(DecodeError::FieldShapeMismatch(
                    String::from_str("messageThreadInfo"),
                    String::from_str("@extra"),
                ));
            },
        };
        let chat_id = match field_i64(t, "chat_id") {
            Some(x) => x,
            None => {
                return Err(DecodeError::FieldShapeMismatch(
                    String::from_str("messageThreadInfo"),
                    String::from_str("chat_id"),
                ));
            },
        };
        let message_thread_id = match field_i64(t, "message_thread_id") {
            Some(x) => x,
            None => {
                return Err(DecodeError::FieldShapeMismatch(
                    String::from_str("messageThreadInfo"),
                    String::from_str("message_thread_id"),
                ));
            },
        };
        let unread_message_count = match field_i64(t, "unread_message_count") {
            Some(x) => x,
            None => {
                return Err(DecodeError::FieldShapeMismatch(
                    String::from_str("messageThreadInfo"),
                    String::from_str("unread_message_count"),
                ));
            },
        };
        let messages = match get_field(t, "messages") {
            Some(JsonValue::Arr(arr)) => match decode_vec::<Message>(arr) {
                Some(x) => x,
                None => {
                    return Err(DecodeError::FieldShapeMismatch(
                    String::from_str("messageThreadInfo"),
                    String::from_str("messages"),
                ));
                },
            },
            _ => {
                return Err(DecodeError::FieldShapeMismatch(
                    String::from_str("messageThreadInfo"),
                    String::from_str("messages"),
                ));
            },
        };
        Ok(MessageThreadInfo { extra, chat_id, message_thread_id, unread_message_count, messages })
    }

    fn encode_tree(&self) -> (r: Result<JsonValue, EncodeError>) {
        let a_messages = match encode_vec::<Message>(&self.messages) {
            Ok(x) => x,
            Err(e) => {
                return Err(e);
            },
        };
        let mut members: Vec<JsonMember> = Vec::new();
        proof {
            assert(view_members(members@) =~= Seq::<(Seq<char>, SpecJson)>::empty());
        }
        push_member(&mut members, "@type", JsonValue::Str(String::from_str("messageThreadInfo")));
        push_member(&mut members, "@extra", opt_string_tree(&self.extra));
        push_member(&mut members, "chat_id", JsonValue::Num(i64_lexeme(self.chat_id)));
        push_member(&mut members, "message_thread_id", JsonValue::Num(i64_lexeme(self.message_thread_id)));
        push_member(&mut members, "unread_message_count", JsonValue::Num(i64_lexeme(self.unread_message_count)));
        push_member(&mut members, "messages", JsonValue::Arr(a_messages));
        let node = JsonValue::Obj(members);
        proof {
            assert(view_members(members@) =~= self.members_spec());
            assert(node@ == self.wire_tree()->0);
        }
        Ok(node)
    }

    proof fn lemma_wire_wf(v: Self) {
        if v.wire_tree() is Some {
            let t = v.wire_tree()->0;
            let ms = t->Obj_0;
            assert(ms == v.members_spec());
            crate::json::lemma_i64_lex(v.chat_id);
            crate::json::lemma_i64_lex(v.message_thread_id);
            crate::json::lemma_i64_lex(v.unread_message_count);
            lemma_vec_wire_elts::<Message>(v.messages@);
            assert forall|k: int| 0 <= k < v.messages@.len() implies wf(
                #[trigger] (vec_wire::<Message>(v.messages@)->0)[k],
            ) by {
                Message::lemma_wire_wf(v.messages@[k]);
            }
            assert forall|i: int| 0 <= i < ms.len() implies wf(#[trigger] ms[i].1) by {
            }
        }
    }

    proof fn lemma_round_trip(v: Self) {
        if v.wire_tree() is Some {
            let t = v.wire_tree()->0;
            let ms = t->Obj_0;
            assert(ms == v.members_spec());
            reveal_strlit("@type");
            reveal_strlit("@extra");
            reveal_strlit("chat_id");
            reveal_strlit("message_thread_id");
            reveal_strlit("unread_message_count");
            reveal_strlit("messages");
            assert("@type"@.len() == 5);
            assert("@extra"@.len() == 6);
            assert("chat_id"@.len() == 7);
            assert("message_thread_id"@.len() == 17);
            assert("unread_message_count"@.len() == 20);
            assert("messages"@.len() == 8);
            reveal_with_fuel(get_spec, 8);
            lemma_get_spec_found(ms, "@type"@, 0);
            lemma_get_spec_found(ms, "@extra"@, 1);
            lemma_get_spec_found(ms, "chat_id"@, 2);
            lemma_get_spec_found(ms, "message_thread_id"@, 3);
            lemma_get_spec_found(ms, "unread_message_count"@, 4);
            lemma_get_spec_found(ms, "messages"@, 5);
            assert(tag_of(t) == Some(Self::tag_spec()));
            assert(ok_opt_str(t, "@extra"@));
            crate::json::lemma_i64_lex(v.chat_id);
            assert(ok_i64(t, "chat_id"@));
            crate::json::lemma_i64_lex(v.message_thread_id);
            assert(ok_i64(t, "message_thread_id"@));
            crate::json::lemma_i64_lex(v.unread_message_count);
            assert(ok_i64(t, "unread_message_count"@));
            lemma_vec_wire_elts::<Message>(v.messages@);
            assert(ok_vec_custom::<Message>(t, "messages"@)) by {
                assert forall|k: int| 0 <= k < (vec_wire::<Message>(v.messages@)->0).len() implies
                    Message::accepts(#[trigger] (vec_wire::<Message>(v.messages@)->0)[k]) by {
                    Message::lemma_round_trip(v.messages@[k]);
                }
            }
            assert(Self::accepts(t));
            assert forall|w: Self| Self::decodes_from(t, w) implies #[trigger] w.eqv(v) by {
                lemma_vec_wire_elts::<Message>(v.messages@);
                assert forall|k: int| 0 <= k < w.messages@.len() implies w.messages@[k].eqv(
                    #[trigger] v.messages@[k],
                ) by {
                    assert(Message::decodes_from((vec_wire::<Message>(v.messages@)->0)[k], w.messages@[k]));
                    Message::lemma_round_trip(v.messages@[k]);
                }
                assert(eqv_vec(w.messages, v.messages));
            }
        }
    }
}

impl RObject for MessageThreadInfo {
    open spec fn tag_chars(&self) -> Seq<char> {
        Self::tag_spec()
    }

    open spec fn extra_spec(&self) -> Option<Seq<char>> {
        opt_str_view(self.extra)
    }

    fn td_name(&self) -> (r: &'static str) {
        "messageThreadInfo"
    }

    fn extra(&self) -> (r: Option<String>) {
        clone_opt_string(&self.extra)
    }

    fn to_json(&self) -> (r: Result<String, EncodeError>) {
        crate::object::encode(self)
    }
}

impl MessageThreadInfo {
    pub fn from_json(json: &str) -> (r: Result<MessageThreadInfo, DecodeError>)
        ensures
            match crate::parse::parse_doc(json@) {
                Some(t) => match r {
                    Ok(v) => Self::accepts(t) && Self::decodes_from(t, v),
                    Err(e) => !Self::accepts(t) && crate::errors::err_matches(e, Self::err_of(t)),
                },
                None => r matches Err(e) && e == DecodeError::Malformed,
            },
    {
        crate::object::from_json::<MessageThreadInfo>(json)
    }

    pub fn builder() -> (r: RTDMessageThreadInfoBuilder)
        ensures
            r.inner.extra is Some,
            r.inner.chat_id == 0,
            r.inner.message_thread_id == 0,
            r.inner.unread_message_count == 0,
            r.inner.messages@.len() == 0,
    {
        RTDMessageThreadInfoBuilder {
            inner: MessageThreadInfo {
                extra: Some(new_token()),
                chat_id: 0,
                message_thread_id: 0,
                unread_message_count: 0,
                messages: Vec::new(),
            },
        }
    }

    pub fn chat_id(&self) -> (r: i64)
        ensures
            r == self.chat_id,
    {
        self.chat_id
    }

    pub fn message_thread_id(&self) -> (r: i64)
        ensures
            r == self.message_thread_id,
    {
        self.message_thread_id
    }

    pub fn unread_message_count(&self) -> (r: i64)
        ensures
            r == self.unread_message_count,
    {
        self.unread_message_count
    }

    pub fn messages(&self) -> (r: &Vec<Message>)
        ensures
            *r == self.messages,
    {
        &self.messages
    }
}

pub struct RTDMessageThreadInfoBuilder {
    pub inner: MessageThreadInfo,
}

impl RTDMessageThreadInfoBuilder {
    pub fn build(&self) -> (r: MessageThreadInfo)
        ensures
            r.eqv(self.inner),
    {
        self.inner.clone()
    }

    pub fn chat_id(&mut self, chat_id: i64) -> (r: &mut Self)
        ensures
            *r == (RTDMessageThreadInfoBuilder { inner: MessageThreadInfo { chat_id: chat_id, ..old(self).inner } }),
            *final(self) == *final(r),
    {
        self.inner.chat_id = chat_id;
        self
    }

    pub fn message_thread_id(&mut self, message_thread_id: i64) -> (r: &mut Self)
        ensures
            *r == (RTDMessageThreadInfoBuilder { inner: MessageThreadInfo { message_thread_id: message_thread_id, ..old(self).inner } }),
            *final(self) == *final(r),
    {
        self.inner.message_thread_id = message_thread_id;
        self
    }

    pub fn unread_message_count(&mut self, unread_message_count: i64) -> (r: &mut Self)
        ensures
            *r == (RTDMessageThreadInfoBuilder { inner: MessageThreadInfo { unread_message_count: unread_message_count, ..old(self).inner } }),
            *final(self) == *final(r),
    {
        self.inner.unread_message_count = unread_message_count;
        self
    }

    pub fn messages(&mut self, messages: Vec<Message>) -> (r: &mut Self)
        ensures
            *r == (RTDMessageThreadInfoBuilder { inner: MessageThreadInfo { messages: messages, ..old(self).inner } }),
            *final(self) == *final(r),
    {
        self.inner.messages = messages;
        self
    }
}
} // verus!
