use vstd::prelude::*;

use crate::errors::DecodeError;
use crate::errors::EncodeError;
use crate::errors::SpecDecodeError;
use crate::json::JsonMember;
use crate::json::JsonValue;
use crate::json::SpecJson;
use crate::json::i64_lex;
use crate::json::view_members;
use crate::json::wf;
use crate::object::RObject;
use crate::object::Wire;
use crate::object::clone_opt;
use crate::object::clone_opt_string;
use crate::object::eqv_opt;
use crate::object::eqv_opt_string;
use crate::object::field_bool;
use crate::object::field_i64;
use crate::object::field_opt_string;
use crate::object::get_field;
use crate::object::get_spec;
use crate::object::get_tag;
use crate::object::i64_lexeme;
use crate::object::lemma_get_spec_found;
use crate::object::m_bool;
use crate::object::m_i64;
use crate::object::m_opt_custom;
use crate::object::m_opt_str;
use crate::object::new_token;
use crate::object::ok_bool;
use crate::object::ok_i64;
use crate::object::ok_opt_custom;
use crate::object::ok_opt_str;
use crate::object::opt_str_tree;
use crate::object::opt_str_view;
use crate::object::opt_string_tree;
use crate::object::opt_wire_val;
use crate::object::push_member;
use crate::object::tag_of;
use crate::message::Message;

verus! {

/// Contains information about a link to a message in a chat
#[derive(Debug, PartialEq)]
pub struct MessageLinkInfo {
    pub extra: Option<String>,
    /// True, if the link is a public link for a message in a chat
    pub is_public: bool,
    /// If found, identifier of the chat to which the message belongs, 0 otherwise
    pub chat_id: i64,
    /// If found, the linked message; may be null
    pub message: Option<Message>,
    /// Timestamp from which the video/audio/video note/voice note playing must start, in seconds; 0 if not specified. The media can be in the message content or in its web page preview
    pub media_timestamp: i64,
    /// True, if the whole media album to which the message belongs is linked
    pub for_album: bool,
    /// True, if the message is linked as a channel post comment or from a message thread
    pub for_comment: bool,
}

impl MessageLinkInfo {
    pub open spec fn tag_spec() -> Seq<char> {
        "messageLinkInfo"@
    }

    /// The members of the wire object, in the order they are written.
    pub open spec fn members_spec(self) -> Seq<(Seq<char>, SpecJson)> {
        seq![
            ("@type"@, SpecJson::Str(Self::tag_spec())),
            ("@extra"@, opt_str_tree(opt_str_view(self.extra))),
            ("is_public"@, SpecJson::Bool(self.is_public)),
            ("chat_id"@, SpecJson::Num(i64_lex(self.chat_id as int))),
            ("message"@, opt_wire_val(self.message)),
            ("media_timestamp"@, SpecJson::Num(i64_lex(self.media_timestamp as int))),
            ("for_album"@, SpecJson::Bool(self.for_album)),
            ("for_comment"@, SpecJson::Bool(self.for_comment)),
        ]
    }

    pub open spec fn fields_ok(t: SpecJson) -> bool {
        &&& ok_opt_str(t, "@extra"@)
        &&& ok_bool(t, "is_public"@)
        &&& ok_i64(t, "chat_id"@)
        &&& ok_opt_custom::<Message>(t, "message"@)
        &&& ok_i64(t, "media_timestamp"@)
        &&& ok_bool(t, "for_album"@)
        &&& ok_bool(t, "for_comment"@)
    }

    pub open spec fn fail_field(t: SpecJson) -> Seq<char> {
        if !ok_opt_str(t, "@extra"@) {
            "@extra"@
        } else if !(ok_bool(t, "is_public"@)) {
            "is_public"@
        } else if !(ok_i64(t, "chat_id"@)) {
            "chat_id"@
        } else if !(ok_opt_custom::<Message>(t, "message"@)) {
            "message"@
        } else if !(ok_i64(t, "media_timestamp"@)) {
            "media_timestamp"@
        } else if !(ok_bool(t, "for_album"@)) {
            "for_album"@
        } else if !(ok_bool(t, "for_comment"@)) {
            "for_comment"@
        } else {
            Seq::empty()
        }
    }

    /// The encoding of a value carries exactly this type's tag.
    pub proof fn lemma_wire_tag(v: MessageLinkInfo)
        ensures
            v.wire_tree() matches Some(t) ==> tag_of(t) == Some(MessageLinkInfo::tag_spec()),
    {
        if v.wire_tree() is Some {
            let t = v.wire_tree()->0;
            let ms = t->Obj_0;
            lemma_get_spec_found(ms, "@type"@, 0);
        }
    }
}

impl Clone for MessageLinkInfo {
    fn clone(&self) -> (res: Self)
        ensures
            res.eqv(*self),
    {
        MessageLinkInfo {
            extra: clone_opt_string(&self.extra),
            is_public: self.is_public,
            chat_id: self.chat_id,
            message: clone_opt(&self.message),
            media_timestamp: self.media_timestamp,
            for_album: self.for_album,
            for_comment: self.for_comment,
        }
    }
}

impl Wire for MessageLinkInfo {
    open spec fn wire_tree(self) -> Option<SpecJson> {
        if (match self.message { Some(x) => x.wire_tree() is None, None => false }) {
            None
        } else {
            Some(SpecJson::Obj(self.members_spec()))
        }
    }

    open spec fn accepts(t: SpecJson) -> bool {
        tag_of(t) is Some && Self::fields_ok(t)
    }

    open spec fn err_of(t: SpecJson) -> SpecDecodeError {
        match tag_of(t) {
            None => SpecDecodeError::Malformed,
            Some(_) => SpecDecodeError::FieldShapeMismatch(Self::tag_spec(), Self::fail_field(t)),
        }
    }

    open spec fn decodes_from(t: SpecJson, v: Self) -> bool {
        &&& m_opt_str(t, "@extra"@, v.extra)
        &&& m_bool(t, "is_public"@, v.is_public)
        &&& m_i64(t, "chat_id"@, v.chat_id)
        &&& m_opt_custom::<Message>(t, "message"@, v.message)
        &&& m_i64(t, "media_timestamp"@, v.media_timestamp)
        &&& m_bool(t, "for_album"@, v.for_album)
        &&& m_bool(t, "for_comment"@, v.for_comment)
    }

    open spec fn eqv(self, other: Self) -> bool {
        &&& eqv_opt_string(self.extra, other.extra)
        &&& self.is_public == other.is_public
        &&& self.chat_id == other.chat_id
        &&& eqv_opt(self.message, other.message)
        &&& self.media_timestamp == other.media_timestamp
        &&& self.for_album == other.for_album
        &&& self.for_comment == other.for_comment
    }

    fn clone_val(&self) -> (r: Self) {
        self.clone()
    }

    #[verifier::rlimit(30)]
    #[verifier::spinoff_prover]
    fn decode_tree(t: &JsonValue) -> (r: Result<Self, DecodeError>) {
        if get_tag(t).is_none() {
            return Err(DecodeError::Malformed);
        }
        let extra = match field_opt_string(t, "@extra") {
            Some(x) => x,
            None => {
                return Err(DecodeError::FieldShapeMismatch(
                    String::from_str("messageLinkInfo"),
                    String::from_str("@extra"),
                ));
            },
        };
        let is_public = match field_bool(t, "is_public") {
            Some(x) => x,
            None => {
                return Err(DecodeError::FieldShapeMismatch(
                    String::from_str("messageLinkInfo"),
                    String::from_str("is_public"),
                ));
            },
        };
        let chat_id = match field_i64(t, "chat_id") {
            Some(x) => x,
            None => {
                return Err(DecodeError::FieldShapeMismatch(
                    String::from_str("messageLinkInfo"),
                    String::from_str("chat_id"),
                ));
            },
        };
        let message = match get_field(t, "message") {
            None => None,
            Some(JsonValue::Null) => None,
            Some(f) => match Message::decode_tree(f) {
                Ok(x) => Some(x),
                Err(_) => {
                    return Err(DecodeError::FieldShapeMismatch(
                    String::from_str("messageLinkInfo"),
                    String::from_str("message"),
                ));
                },
            },
        };
        let media_timestamp = match field_i64(t, "media_timestamp") {
            Some(x) => x,
            None => {
                return Err(DecodeError::FieldShapeMismatch(
                    String::from_str("messageLinkInfo"),
                    String::from_str("media_timestamp"),
                ));
            },
        };
        let for_album = match field_bool(t, "for_album") {
            Some(x) => x,
            None => {
                return Err(DecodeError::FieldShapeMismatch(
                    String::from_str("messageLinkInfo"),
                    String::from_str("for_album"),
                ));
            },
        };
        let for_comment = match field_bool(t, "for_comment") {
            Some(x) => x,
            None => {
                return Err(DecodeError::FieldShapeMismatch(
                    String::from_str("messageLinkInfo"),
                    String::from_str("for_comment"),
                ));
            },
        };
        Ok(MessageLinkInfo { extra, is_public, chat_id, message, media_timestamp, for_album, for_comment })
    }

    #[verifier::rlimit(30)]
    #[verifier::spinoff_prover]
    fn encode_tree(&self) -> (r: Result<JsonValue, EncodeError>) {
        let t_message = match &self.message {
            None => JsonValue::Null,
            Some(x) => match x.encode_tree() {
                Ok(y) => y,
                Err(e) => {
                    return Err(e);
                },
            },
        };
        let mut members: Vec<JsonMember> = Vec::new();
        proof {
            assert(view_members(members@) =~= Seq::<(Seq<char>, SpecJson)>::empty());
        }
        push_member(&mut members, "@type", JsonValue::Str(String::from_str("messageLinkInfo")));
        push_member(&mut members, "@extra", opt_string_tree(&self.extra));
        push_member(&mut members, "is_public", JsonValue::Bool(self.is_public));
        push_member(&mut members, "chat_id", JsonValue::Num(i64_lexeme(self.chat_id)));
        push_member(&mut members, "message", t_message);
        push_member(&mut members, "media_timestamp", JsonValue::Num(i64_lexeme(self.media_timestamp)));
        push_member(&mut members, "for_album", JsonValue::Bool(self.for_album));
        push_member(&mut members, "for_comment", JsonValue::Bool(self.for_comment));
        let node = JsonValue::Obj(members);
        proof {
            assert(view_members(members@) =~= self.members_spec());
            assert(node@ == self.wire_tree()->0);
        }
        Ok(node)
    }

    proof fn lemma_wire_wf(v: Self) {
        if v.wire_tree() is Some {
            let t = v.wire_tree()->0;
            let ms = t->Obj_0;
            assert(ms == v.members_spec());
            crate::json::lemma_i64_lex(v.chat_id);
            match v.message {
                Some(x) => {
                    Message::lemma_wire_wf(x);
                },
                None => {},
            }
            crate::json::lemma_i64_lex(v.media_timestamp);
            assert forall|i: int| 0 <= i < ms.len() implies wf(#[trigger] ms[i].1) by {
            }
        }
    }

    #[verifier::rlimit(30)]
    #[verifier::spinoff_prover]
    proof fn lemma_round_trip(v: Self) {
        if v.wire_tree() is Some {
            let t = v.wire_tree()->0;
            let ms = t->Obj_0;
            assert(ms == v.members_spec());
            reveal_strlit("@type");
            reveal_strlit("@extra");
            reveal_strlit("is_public");
            reveal_strlit("chat_id");
            reveal_strlit("message");
            reveal_strlit("media_timestamp");
            reveal_strlit("for_album");
            reveal_strlit("for_comment");
            assert("@type"@.len() == 5);
            assert("@extra"@.len() == 6);
            assert("is_public"@.len() == 9);
            assert("chat_id"@.len() == 7);
            assert("message"@.len() == 7);
            assert("media_timestamp"@.len() == 15);
            assert("for_album"@.len() == 9);
            assert("for_comment"@.len() == 11);
            assert("is_public"@[0] == 'i' && "for_album"@[0] == 'f');
            assert("chat_id"@[0] == 'c' && "message"@[0] == 'm');
            reveal_with_fuel(get_spec, 10);
            lemma_get_spec_found(ms, "@type"@, 0);
            lemma_get_spec_found(ms, "@extra"@, 1);
            lemma_get_spec_found(ms, "is_public"@, 2);
            lemma_get_spec_found(ms, "chat_id"@, 3);
            lemma_get_spec_found(ms, "message"@, 4);
            lemma_get_spec_found(ms, "media_timestamp"@, 5);
            lemma_get_spec_found(ms, "for_album"@, 6);
            lemma_get_spec_found(ms, "for_comment"@, 7);
            assert(tag_of(t) == Some(Self::tag_spec()));
            assert(ok_opt_str(t, "@extra"@));
            assert(ok_bool(t, "is_public"@));
            crate::json::lemma_i64_lex(v.chat_id);
            assert(ok_i64(t, "chat_id"@));
            match v.message {
                Some(x) => {
                    Message::lemma_round_trip(x);
                },
                None => {},
            }
            assert(ok_opt_custom::<Message>(t, "message"@));
            crate::json::lemma_i64_lex(v.media_timestamp);
            assert(ok_i64(t, "media_timestamp"@));
            assert(ok_bool(t, "for_album"@));
            assert(ok_bool(t, "for_comment"@));
            assert(Self::accepts(t));
            assert forall|w: Self| Self::decodes_from(t, w) implies #[trigger] w.eqv(v) by {
            }
        }
    }
}

impl RObject for MessageLinkInfo {
    open spec fn tag_chars(&self) -> Seq<char> {
        Self::tag_spec()
    }

    open spec fn extra_spec(&self) -> Option<Seq<char>> {
        opt_str_view(self.extra)
    }

    fn td_name(&self) -> (r: &'static str) {
        "messageLinkInfo"
    }

    fn extra(&self) -> (r: Option<String>) {
        clone_opt_string(&self.extra)
    }

    fn to_json(&self) -> (r: Result<String, EncodeError>) {
        crate::object::encode(self)
    }
}

impl MessageLinkInfo {
    pub fn from_json(json: &str) -> (r: Result<MessageLinkInfo, DecodeError>)
        ensures
            match crate::parse::parse_doc(json@) {
                Some(t) => match r {
                    Ok(v) => Self::accepts(t) && Self::decodes_from(t, v),
                    Err(e) => !Self::accepts(t) && crate::errors::err_matches(e, Self::err_of(t)),
                },
                None => r matches Err(e) && e == DecodeError::Malformed,
            },
    {
        crate::object::from_json::<MessageLinkInfo>(json)
    }

    pub fn builder() -> (r: RTDMessageLinkInfoBuilder)
        ensures
            r.inner.extra is Some,
            r.inner.is_public == false,
            r.inner.chat_id == 0,
            r.inner.message is None,
            r.inner.media_timestamp == 0,
            r.inner.for_album == false,
            r.inner.for_comment == false,
    {
        RTDMessageLinkInfoBuilder {
            inner: MessageLinkInfo {
                extra: Some(new_token()),
                is_public: false,
                chat_id: 0,
                message: None,
                media_timestamp: 0,
                for_album: false,
                for_comment: false,
            },
        }
    }

    pub fn is_public(&self) -> (r: bool)
        ensures
            r == self.is_public,
    {
        self.is_public
    }

    pub fn chat_id(&self) -> (r: i64)
        ensures
            r == self.chat_id,
    {
        self.chat_id
    }

    pub fn message(&self) -> (r: &Option<Message>)
        ensures
            *r == self.message,
    {
        &self.message
    }

    pub fn media_timestamp(&self) -> (r: i64)
        ensures
            r == self.media_timestamp,
    {
        self.media_timestamp
    }

    pub fn for_album(&self) -> (r: bool)
        ensures
            r == self.for_album,
    {
        self.for_album
    }

    pub fn for_comment(&self) -> (r: bool)
        ensures
            r == self.for_comment,
    {
        self.for_comment
    }
}

pub struct RTDMessageLinkInfoBuilder {
    pub inner: MessageLinkInfo,
}

impl RTDMessageLinkInfoBuilder {
    pub fn build(&self) -> (r: MessageLinkInfo)
        ensures
            r.eqv(self.inner),
    {
        self.inner.clone()
    }

    pub fn is_public(&mut self, is_public: bool) -> (r: &mut Self)
        ensures
            *r == (RTDMessageLinkInfoBuilder { inner: MessageLinkInfo { is_public: is_public, ..old(self).inner } }),
            *final(self) == *final(r),
    {
        self.inner.is_public = is_public;
        self
    }

    pub fn chat_id(&mut self, chat_id: i64) -> (r: &mut Self)
        ensures
            *r == (RTDMessageLinkInfoBuilder { inner: MessageLinkInfo { chat_id: chat_id, ..old(self).inner } }),
            *final(self) == *final(r),
    {
        self.inner.chat_id = chat_id;
        self
    }

    pub fn message(&mut self, message: Message) -> (r: &mut Self)
        ensures
            *r == (RTDMessageLinkInfoBuilder { inner: MessageLinkInfo { message: Some(message), ..old(self).inner } }),
            *final(self) == *final(r),
    {
        self.inner.message = Some(message);
        self
    }

    pub fn media_timestamp(&mut self, media_timestamp: i64) -> (r: &mut Self)
        ensures
            *r == (RTDMessageLinkInfoBuilder { inner: MessageLinkInfo { media_timestamp: media_timestamp, ..old(self).inner } }),
            *final(self) == *final(r),
    {
        self.inner.media_timestamp = media_timestamp;
        self
    }

    pub fn for_album(&mut self, for_album: bool) -> (r: &mut Self)
        ensures
            *r == (RTDMessageLinkInfoBuilder { inner: MessageLinkInfo { for_album: for_album, ..old(self).inner } }),
            *final(self) == *final(r),
    {
        self.inner.for_album = for_album;
        self
    }

    pub fn for_comment(&mut self, for_comment: bool) -> (r: &mut Self)
        ensures
            *r == (RTDMessageLinkInfoBuilder { inner: MessageLinkInfo { for_comment: for_comment, ..old(self).inner } }),
            *final(self) == *final(r),
    {
        self.inner.for_comment = for_comment;
        self
    }
}
} // verus!
