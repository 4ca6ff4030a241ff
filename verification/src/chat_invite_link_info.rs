use vstd::prelude::*;

use crate::errors::DecodeError;
use crate::errors::EncodeError;
use crate::errors::SpecDecodeError;
use crate::json::JsonMember;
use crate::json::JsonValue;
use crate::json::SpecJson;
use crate::json::i64_lex;
use crate::json::view_members;
use crate::json::wf;
use crate::object::RObject;
use crate::object::Wire;
use crate::object::as_i64_spec;
use crate::object::clone_opt_string;
use crate::object::clone_vec_i64;
use crate::object::decode_vec_i64;
use crate::object::encode_vec_i64;
use crate::object::eqv_opt_string;
use crate::object::field_bool;
use crate::object::field_i64;
use crate::object::field_opt_string;
use crate::object::field_string;
use crate::object::get_field;
use crate::object::get_spec;
use crate::object::get_tag;
use crate::object::i64_lexeme;
use crate::object::lemma_get_spec_found;
use crate::object::m_bool;
use crate::object::m_custom;
use crate::object::m_i64;
use crate::object::m_opt_str;
use crate::object::m_str;
use crate::object::m_vec_i64;
use crate::object::new_token;
use crate::object::ok_bool;
use crate::object::ok_custom;
use crate::object::ok_i64;
use crate::object::ok_opt_str;
use crate::object::ok_str;
use crate::object::ok_vec_i64;
use crate::object::opt_str_tree;
use crate::object::opt_str_view;
use crate::object::opt_string_tree;
use crate::object::push_member;
use crate::object::tag_of;
use crate::object::vec_i64_trees;
use crate::chat_type::ChatType;

verus! {

/// Contains information about a chat invite link
#[derive(Debug, PartialEq)]
pub struct ChatInviteLinkInfo {
    pub extra: Option<String>,
    /// Chat identifier of the invite link; 0 if the user has no access to the chat before joining
    pub chat_id: i64,
    /// If non-zero, the amount of time for which read access to the chat will remain available, in seconds
    pub accessible_for: i64,
    /// Type of the chat
    pub type_: ChatType,
    /// Title of the chat
    pub title: String,
    /// Contains information about a chat invite link
    pub description: String,
    /// Number of members in the chat
    pub member_count: i64,
    /// User identifiers of some chat members that may be known to the current user
    pub member_user_ids: Vec<i64>,
    /// True, if the link only creates join request
    pub creates_join_request: bool,
    /// True, if the chat is a public supergroup or channel, i.e. it has a username or it is a location-based supergroup
    pub is_public: bool,
}

impl ChatInviteLinkInfo {
    pub open spec fn tag_spec() -> Seq<char> {
        "chatInviteLinkInfo"@
    }

    /// The members of the wire object, in the order they are written.
    pub open spec fn members_spec(self) -> Seq<(Seq<char>, SpecJson)> {
        seq![
            ("@type"@, SpecJson::Str(Self::tag_spec())),
            ("@extra"@, opt_str_tree(opt_str_view(self.extra))),
            ("chat_id"@, SpecJson::Num(i64_lex(self.chat_id as int))),
            ("accessible_for"@, SpecJson::Num(i64_lex(self.accessible_for as int))),
            ("type"@, self.type_.wire_tree()->0),
            ("title"@, SpecJson::Str(self.title@)),
            ("description"@, SpecJson::Str(self.description@)),
            ("member_count"@, SpecJson::Num(i64_lex(self.member_count as int))),
            ("member_user_ids"@, SpecJson::Arr(vec_i64_trees(self.member_user_ids@))),
            ("creates_join_request"@, SpecJson::Bool(self.creates_join_request)),
            ("is_public"@, SpecJson::Bool(self.is_public)),
        ]
    }

    pub open spec fn fields_ok(t: SpecJson) -> bool {
        &&& ok_opt_str(t, "@extra"@)
        &&& ok_i64(t, "chat_id"@)
        &&& ok_i64(t, "accessible_for"@)
        &&& ok_custom::<ChatType>(t, "type"@)
        &&& ok_str(t, "title"@)
        &&& ok_str(t, "description"@)
        &&& ok_i64(t, "member_count"@)
        &&& ok_vec_i64(t, "member_user_ids"@)
        &&& ok_bool(t, "creates_join_request"@)
        &&& ok_bool(t, "is_public"@)
    }

    pub open spec fn fail_field(t: SpecJson) -> Seq<char> {
        if !ok_opt_str(t, "@extra"@) {
            "@extra"@
        } else if !(ok_i64(t, "chat_id"@)) {
            "chat_id"@
        } else if !(ok_i64(t, "accessible_for"@)) {
            "accessible_for"@
        } else if !(ok_custom::<ChatType>(t, "type"@)) {
            "type"@
        } else if !(ok_str(t, "title"@)) {
            "title"@
        } else if !(ok_str(t, "description"@)) {
            "description"@
        } else if !(ok_i64(t, "member_count"@)) {
            "member_count"@
        } else if !(ok_vec_i64(t, "member_user_ids"@)) {
            "member_user_ids"@
        } else if !(ok_bool(t, "creates_join_request"@)) {
            "creates_join_request"@
        } else if !(ok_bool(t, "is_public"@)) {
            "is_public"@
        } else {
            Seq::empty()
        }
    }

    /// The encoding of a value carries exactly this type's tag.
    pub proof fn lemma_wire_tag(v: ChatInviteLinkInfo)
        ensures
            v.wire_tree() matches Some(t) ==> tag_of(t) == Some(ChatInviteLinkInfo::tag_spec()),
    {
        if v.wire_tree() is Some {
            let t = v.wire_tree()->0;
            let ms = t->Obj_0;
            lemma_get_spec_found(ms, "@type"@, 0);
        }
    }
}

impl Clone for ChatInviteLinkInfo {
    fn clone(&self) -> (res: Self)
        ensures
            res.eqv(*self),
    {
        ChatInviteLinkInfo {
            extra: clone_opt_string(&self.extra),
            chat_id: self.chat_id,
            accessible_for: self.accessible_for,
            type_: self.type_.clone(),
            title: self.title.clone(),
            description: self.description.clone(),
            member_count: self.member_count,
            member_user_ids: clone_vec_i64(&self.member_user_ids),
            creates_join_request: self.creates_join_request,
            is_public: self.is_public,
        }
    }
}

impl Wire for ChatInviteLinkInfo {
    open spec fn wire_tree(self) -> Option<SpecJson> {
        if self.type_.wire_tree() is None {
            None
        } else {
            Some(SpecJson::Obj(self.members_spec()))
        }
    }

    open spec fn accepts(t: SpecJson) -> bool {
        tag_of(t) is Some && Self::fields_ok(t)
    }

    open spec fn err_of(t: SpecJson) -> SpecDecodeError {
        match tag_of(t) {
            None => SpecDecodeError::Malformed,
            Some(_) => SpecDecodeError::FieldShapeMismatch(Self::tag_spec(), Self::fail_field(t)),
        }
    }

    open spec fn decodes_from(t: SpecJson, v: Self) -> bool {
        &&& m_opt_str(t, "@extra"@, v.extra)
        &&& m_i64(t, "chat_id"@, v.chat_id)
        &&& m_i64(t, "accessible_for"@, v.accessible_for)
        &&& m_custom::<ChatType>(t, "type"@, v.type_)
        &&& m_str(t, "title"@, v.title@)
        &&& m_str(t, "description"@, v.description@)
        &&& m_i64(t, "member_count"@, v.member_count)
        &&& m_vec_i64(t, "member_user_ids"@, v.member_user_ids)
        &&& m_bool(t, "creates_join_request"@, v.creates_join_request)
        &&& m_bool(t, "is_public"@, v.is_public)
    }

    open spec fn eqv(self, other: Self) -> bool {
        &&& eqv_opt_string(self.extra, other.extra)
        &&& self.chat_id == other.chat_id
        &&& self.accessible_for == other.accessible_for
        &&& self.type_.eqv(other.type_)
        &&& self.title@ == other.title@
        &&& self.description@ == other.description@
        &&& self.member_count == other.member_count
        &&& self.member_user_ids@ == other.member_user_ids@
        &&& self.creates_join_request == other.creates_join_request
        &&& self.is_public == other.is_public
    }

    fn clone_val(&self) -> (r: Self) {
        self.clone()
    }

    #[verifier::rlimit(30)]
    #[verifier::spinoff_prover]
    fn decode_tree(t: &JsonValue) -> (r: Result<Self, DecodeError>) {
        if get_tag(t).is_none() {
            return Err(DecodeError::Malformed);
        }
        let extra = match field_opt_string(t, "@extra") {
            Some(x) => x,
            None => {
                return Err(DecodeError::FieldShapeMismatch(
                    String::from_str("chatInviteLinkInfo"),
                    String::from_str("@extra"),
                ));
            },
        };
        let chat_id = match field_i64(t, "chat_id") {
            Some(x) => x,
            None => {
                return Err(DecodeError::FieldShapeMismatch(
                    String::from_str("chatInviteLinkInfo"),
                    String::from_str("chat_id"),
                ));
            },
        };
        let accessible_for = match field_i64(t, "accessible_for") {
            Some(x) => x,
            None => {
                return Err(DecodeError::FieldShapeMismatch(
                    String::from_str("chatInviteLinkInfo"),
                    String::from_str("accessible_for"),
                ));
            },
        };
        let type_ = match get_field(t, "type") {
            Some(f) => match ChatType::decode_tree(f) {
                Ok(x) => x,
                Err(_) => {
                    return Err(DecodeError::FieldShapeMismatch(
                    String::from_str("chatInviteLinkInfo"),
                    String::from_str("type"),
                ));
                },
            },
            None => {
                return Err(DecodeError::FieldShapeMismatch(
                    String::from_str("chatInviteLinkInfo"),
                    String::from_str("type"),
                ));
            },
        };
        let title = match field_string(t, "title") {
            Some(x) => x,
            None => {
                return Err(DecodeError::FieldShapeMismatch(
                    String::from_str("chatInviteLinkInfo"),
                    String::from_str("title"),
                ));
            },
        };
        let description = match field_string(t, "description") {
            Some(x) => x,
            None => {
                return Err(DecodeError::FieldShapeMismatch(
                    String::from_str("chatInviteLinkInfo"),
                    String::from_str("description"),
                ));
            },
        };
        let member_count = match field_i64(t, "member_count") {
            Some(x) => x,
            None => {
                return Err(DecodeError::FieldShapeMismatch(
                    String::from_str("chatInviteLinkInfo"),
                    String::from_str("member_count"),
                ));
            },
        };
        let member_user_ids = match get_field(t, "member_user_ids") {
            Some(JsonValue::Arr(arr)) => match decode_vec_i64(arr) {
                Some(x) => x,
                None => {
                    return Err(DecodeError::FieldShapeMismatch(
                    String::from_str("chatInviteLinkInfo"),
                    String::from_str("member_user_ids"),
                ));
                },
            },
            _ => {
                return Err(DecodeError::FieldShapeMismatch(
                    String::from_str("chatInviteLinkInfo"),
                    String::from_str("member_user_ids"),
                ));
            },
        };
        let creates_join_request = match field_bool(t, "creates_join_request") {
            Some(x) => x,
            None => {
                return Err(DecodeError::FieldShapeMismatch(
                    String::from_str("chatInviteLinkInfo"),
                    String::from_str("creates_join_request"),
                ));
            },
        };
        let is_public = match field_bool(t, "is_public") {
            Some(x) => x,
            None => {
                return Err(DecodeError::FieldShapeMismatch(
                    String::from_str("chatInviteLinkInfo"),
                    String::from_str("is_public"),
                ));
            },
        };
        Ok(ChatInviteLinkInfo { extra, chat_id, accessible_for, type_, title, description, member_count, member_user_ids, creates_join_request, is_public })
    }

    #[verifier::rlimit(30)]
    #[verifier::spinoff_prover]
    fn encode_tree(&self) -> (r: Result<JsonValue, EncodeError>) {
        let t_type_ = match self.type_.encode_tree() {
            Ok(x) => x,
            Err(e) => {
                return Err(e);
            },
        };
        let mut members: Vec<JsonMember> = Vec::new();
        proof {
            assert(view_members(members@) =~= Seq::<(Seq<char>, SpecJson)>::empty());
        }
        push_member(&mut members, "@type", JsonValue::Str(String::from_str("chatInviteLinkInfo")));
        push_member(&mut members, "@extra", opt_string_tree(&self.extra));
        push_member(&mut members, "chat_id", JsonValue::Num(i64_lexeme(self.chat_id)));
        push_member(&mut members, "accessible_for", JsonValue::Num(i64_lexeme(self.accessible_for)));
        proof {
            assert(view_members(members@) =~= self.members_spec().take(4));
        }
        push_member(&mut members, "type", t_type_);
        push_member(&mut members, "title", JsonValue::Str(self.title.clone()));
        push_member(&mut members, "description", JsonValue::Str(self.description.clone()));
        push_member(&mut members, "member_count", JsonValue::Num(i64_lexeme(self.member_count)));
        proof {
            assert(view_members(members@) =~= self.members_spec().take(8));
        }
        push_member(&mut members, "member_user_ids", JsonValue::Arr(encode_vec_i64(&self.member_user_ids)));
        push_member(&mut members, "creates_join_request", JsonValue::Bool(self.creates_join_request));
        push_member(&mut members, "is_public", JsonValue::Bool(self.is_public));
        let node = JsonValue::Obj(members);
        proof {
            assert(view_members(members@) =~= self.members_spec());
            assert(node@ == self.wire_tree()->0);
        }
        Ok(node)
    }

    proof fn lemma_wire_wf(v: Self) {
        if v.wire_tree() is Some {
            let t = v.wire_tree()->0;
            let ms = t->Obj_0;
            assert(ms == v.members_spec());
            crate::json::lemma_i64_lex(v.chat_id);
            crate::json::lemma_i64_lex(v.accessible_for);
            ChatType::lemma_wire_wf(v.type_);
            crate::json::lemma_i64_lex(v.member_count);
            assert forall|k: int| 0 <= k < vec_i64_trees(v.member_user_ids@).len() implies wf(
                #[trigger] vec_i64_trees(v.member_user_ids@)[k],
            ) by {
                crate::json::lemma_i64_lex(v.member_user_ids@[k]);
            }
            assert forall|i: int| 0 <= i < ms.len() implies wf(#[trigger] ms[i].1) by {
            }
        }
    }

    #[verifier::rlimit(30)]
    #[verifier::spinoff_prover]
    proof fn lemma_round_trip(v: Self) {
        if v.wire_tree() is Some {
            let t = v.wire_tree()->0;
            let ms = t->Obj_0;
            assert(ms == v.members_spec());
            reveal_strlit("@type");
            reveal_strlit("@extra");
            reveal_strlit("chat_id");
            reveal_strlit("accessible_for");
            reveal_strlit("type");
            reveal_strlit("title");
            reveal_strlit("description");
            reveal_strlit("member_count");
            reveal_strlit("member_user_ids");
            reveal_strlit("creates_join_request");
            reveal_strlit("is_public");
            assert("@type"@.len() == 5);
            assert("@extra"@.len() == 6);
            assert("chat_id"@.len() == 7);
            assert("accessible_for"@.len() == 14);
            assert("type"@.len() == 4);
            assert("title"@.len() == 5);
            assert("description"@.len() == 11);
            assert("member_count"@.len() == 12);
            assert("member_user_ids"@.len() == 15);
            assert("creates_join_request"@.len() == 20);
            assert("is_public"@.len() == 9);
            assert("@type"@[0] == '@' && "title"@[0] == 't');
            reveal_with_fuel(get_spec, 13);
            lemma_get_spec_found(ms, "@type"@, 0);
            lemma_get_spec_found(ms, "@extra"@, 1);
            lemma_get_spec_found(ms, "chat_id"@, 2);
            lemma_get_spec_found(ms, "accessible_for"@, 3);
            lemma_get_spec_found(ms, "type"@, 4);
            lemma_get_spec_found(ms, "title"@, 5);
            lemma_get_spec_found(ms, "description"@, 6);
            lemma_get_spec_found(ms, "member_count"@, 7);
            lemma_get_spec_found(ms, "member_user_ids"@, 8);
            lemma_get_spec_found(ms, "creates_join_request"@, 9);
            lemma_get_spec_found(ms, "is_public"@, 10);
            assert(tag_of(t) == Some(Self::tag_spec()));
            assert(ok_opt_str(t, "@extra"@));
            crate::json::lemma_i64_lex(v.chat_id);
            assert(ok_i64(t, "chat_id"@));
            crate::json::lemma_i64_lex(v.accessible_for);
            assert(ok_i64(t, "accessible_for"@));
            ChatType::lemma_round_trip(v.type_);
            assert(ok_custom::<ChatType>(t, "type"@));
            assert(ok_str(t, "title"@));
            assert(ok_str(t, "description"@));
            crate::json::lemma_i64_lex(v.member_count);
            assert(ok_i64(t, "member_count"@));
            assert(ok_vec_i64(t, "member_user_ids"@)) by {
                assert forall|k: int| 0 <= k < vec_i64_trees(v.member_user_ids@).len() implies
                    as_i64_spec(#[trigger] vec_i64_trees(v.member_user_ids@)[k]) == Some(v.member_user_ids@[k]) by {
                    crate::json::lemma_i64_lex(v.member_user_ids@[k]);
                }
            }
            assert(ok_bool(t, "creates_join_request"@));
            assert(ok_bool(t, "is_public"@));
            assert(Self::accepts(t));
            assert forall|w: Self| Self::decodes_from(t, w) implies #[trigger] w.eqv(v) by {
                assert forall|k: int| 0 <= k < w.member_user_ids@.len() implies w.member_user_ids@[k]
                    == v.member_user_ids@[k] by {
                    crate::json::lemma_i64_lex(v.member_user_ids@[k]);
                    assert(vec_i64_trees(v.member_user_ids@)[k] == SpecJson::Num(i64_lex(v.member_user_ids@[k] as int)));
                }
                assert(w.member_user_ids@ =~= v.member_user_ids@);
            }
        }
    }
}

impl RObject for ChatInviteLinkInfo {
    open spec fn tag_chars(&self) -> Seq<char> {
        Self::tag_spec()
    }

    open spec fn extra_spec(&self) -> Option<Seq<char>> {
        opt_str_view(self.extra)
    }

    fn td_name(&self) -> (r: &'static str) {
        "chatInviteLinkInfo"
    }

    fn extra(&self) -> (r: Option<String>) {
        clone_opt_string(&self.extra)
    }

    fn to_json(&self) -> (r: Result<String, EncodeError>) {
        crate::object::encode(self)
    }
}

impl ChatInviteLinkInfo {
    pub fn from_json(json: &str) -> (r: Result<ChatInviteLinkInfo, DecodeError>)
        ensures
            match crate::parse::parse_doc(json@) {
                Some(t) => match r {
                    Ok(v) => Self::accepts(t) && Self::decodes_from(t, v),
                    Err(e) => !Self::accepts(t) && crate::errors::err_matches(e, Self::err_of(t)),
                },
                None => r matches Err(e) && e == DecodeError::Malformed,
            },
    {
        crate::object::from_json::<ChatInviteLinkInfo>(json)
    }

    pub fn builder() -> (r: RTDChatInviteLinkInfoBuilder)
        ensures
            r.inner.extra is Some,
            r.inner.chat_id == 0,
            r.inner.accessible_for == 0,
            r.inner.type_ is _Default,
            r.inner.title@ == Seq::<char>::empty(),
            r.inner.description@ == Seq::<char>::empty(),
            r.inner.member_count == 0,
            r.inner.member_user_ids@.len() == 0,
            r.inner.creates_join_request == false,
            r.inner.is_public == false,
    {
        RTDChatInviteLinkInfoBuilder {
            inner: ChatInviteLinkInfo {
                extra: Some(new_token()),
                chat_id: 0,
                accessible_for: 0,
                type_: ChatType::_Default(()),
                title: String::new(),
                description: String::new(),
                member_count: 0,
                member_user_ids: Vec::new(),
                creates_join_request: false,
                is_public: false,
            },
        }
    }

    pub fn chat_id(&self) -> (r: i64)
        ensures
            r == self.chat_id,
    {
        self.chat_id
    }

    pub fn accessible_for(&self) -> (r: i64)
        ensures
            r == self.accessible_for,
    {
        self.accessible_for
    }

    pub fn type_(&self) -> (r: &ChatType)
        ensures
            *r == self.type_,
    {
        &self.type_
    }

    pub fn title(&self) -> (r: &String)
        ensures
            *r == self.title,
    {
        &self.title
    }

    pub fn description(&self) -> (r: &String)
        ensures
            *r == self.description,
    {
        &self.description
    }

    pub fn member_count(&self) -> (r: i64)
        ensures
            r == self.member_count,
    {
        self.member_count
    }

    pub fn member_user_ids(&self) -> (r: &Vec<i64>)
        ensures
            *r == self.member_user_ids,
    {
        &self.member_user_ids
    }

    pub fn creates_join_request(&self) -> (r: bool)
        ensures
            r == self.creates_join_request,
    {
        self.creates_join_request
    }

    pub fn is_public(&self) -> (r: bool)
        ensures
            r == self.is_public,
    {
        self.is_public
    }
}

pub struct RTDChatInviteLinkInfoBuilder {
    pub inner: ChatInviteLinkInfo,
}

impl RTDChatInviteLinkInfoBuilder {
    pub fn build(&self) -> (r: ChatInviteLinkInfo)
        ensures
            r.eqv(self.inner),
    {
        self.inner.clone()
    }

    pub fn chat_id(&mut self, chat_id: i64) -> (r: &mut Self)
        ensures
            *r == (RTDChatInviteLinkInfoBuilder { inner: ChatInviteLinkInfo { chat_id: chat_id, ..old(self).inner } }),
            *final(self) == *final(r),
    {
        self.inner.chat_id = chat_id;
        self
    }

    pub fn accessible_for(&mut self, accessible_for: i64) -> (r: &mut Self)
        ensures
            *r == (RTDChatInviteLinkInfoBuilder { inner: ChatInviteLinkInfo { accessible_for: accessible_for, ..old(self).inner } }),
            *final(self) == *final(r),
    {
        self.inner.accessible_for = accessible_for;
        self
    }

    pub fn type_(&mut self, type_: ChatType) -> (r: &mut Self)
        ensures
            *r == (RTDChatInviteLinkInfoBuilder { inner: ChatInviteLinkInfo { type_: type_, ..old(self).inner } }),
            *final(self) == *final(r),
    {
        self.inner.type_ = type_;
        self
    }

    pub fn title(&mut self, title: String) -> (r: &mut Self)
        ensures
            *r == (RTDChatInviteLinkInfoBuilder { inner: ChatInviteLinkInfo { title: title, ..old(self).inner } }),
            *final(self) == *final(r),
    {
        self.inner.title = title;
        self
    }

    pub fn description(&mut self, description: String) -> (r: &mut Self)
        ensures
            *r == (RTDChatInviteLinkInfoBuilder { inner: ChatInviteLinkInfo { description: description, ..old(self).inner } }),
            *final(self) == *final(r),
    {
        self.inner.description = description;
        self
    }

    pub fn member_count(&mut self, member_count: i64) -> (r: &mut Self)
        ensures
            *r == (RTDChatInviteLinkInfoBuilder { inner: ChatInviteLinkInfo { member_count: member_count, ..old(self).inner } }),
            *final(self) == *final(r),
    {
        self.inner.member_count = member_count;
        self
    }

    pub fn member_user_ids(&mut self, member_user_ids: Vec<i64>) -> (r: &mut Self)
        ensures
            *r == (RTDChatInviteLinkInfoBuilder { inner: ChatInviteLinkInfo { member_user_ids: member_user_ids, ..old(self).inner } }),
            *final(self) == *final(r),
    {
        self.inner.member_user_ids = member_user_ids;
        self
    }

    pub fn creates_join_request(&mut self, creates_join_request: bool) -> (r: &mut Self)
        ensures
            *r == (RTDChatInviteLinkInfoBuilder { inner: ChatInviteLinkInfo { creates_join_request: creates_join_request, ..old(self).inner } }),
            *final(self) == *final(r),
    {
        self.inner.creates_join_request = creates_join_request;
        self
    }

    pub fn is_public(&mut self, is_public: bool) -> (r: &mut Self)
        ensures
            *r == (RTDChatInviteLinkInfoBuilder { inner: ChatInviteLinkInfo { is_public: is_public, ..old(self).inner } }),
            *final(self) == *final(r),
    {
        self.inner.is_public = is_public;
        self
    }
}
} // verus!
