use vstd::prelude::*;

use crate::errors::DecodeError;
use crate::errors::EncodeError;
use crate::errors::SpecDecodeError;
use crate::json::JsonMember;
use crate::json::JsonValue;
use crate::json::SpecJson;
use crate::json::i64_lex;
use crate::json::view_members;
use crate::json::wf;
use crate::object::RObject;
use crate::object::Wire;
use crate::object::clone_opt_string;
use crate::object::eqv_opt_string;
use crate::object::field_bool;
use crate::object::field_i64;
use crate::object::field_opt_string;
use crate::object::get_spec;
use crate::object::get_tag;
use crate::object::i64_lexeme;
use crate::object::lemma_get_spec_found;
use crate::object::m_bool;
use crate::object::m_i64;
use crate::object::m_opt_str;
use crate::object::new_token;
use crate::object::ok_bool;
use crate::object::ok_i64;
use crate::object::ok_opt_str;
use crate::object::opt_str_tree;
use crate::object::opt_str_view;
use crate::object::opt_string_tree;
use crate::object::push_member;
use crate::object::str_eq;
use crate::object::tag_of;

verus! {

/// Describes the type of a chat
pub trait TDChatType: RObject {

}

/// Describes the type of a chat
#[derive(Debug, PartialEq)]
pub enum ChatType {
    _Default(()),
    /// A basic group (a chat with 0-200 other users)
    BasicGroup(ChatTypeBasicGroup),
    /// An ordinary chat with a user
    Private(ChatTypePrivate),
    /// A secret chat with a user
    Secret(ChatTypeSecret),
    /// A supergroup or channel (with unlimited members)
    Supergroup(ChatTypeSupergroup),
}

impl Clone for ChatType {
    fn clone(&self) -> (res: Self)
        ensures
            res.eqv(*self),
    {
        match self {
            ChatType::_Default(_) => ChatType::_Default(()),
            ChatType::BasicGroup(x) => ChatType::BasicGroup(x.clone()),
            ChatType::Private(x) => ChatType::Private(x.clone()),
            ChatType::Secret(x) => ChatType::Secret(x.clone()),
            ChatType::Supergroup(x) => ChatType::Supergroup(x.clone()),
        }
    }
}

impl ChatType {
    /// The tags of this variant's alternatives are pairwise distinct.
    pub proof fn lemma_tags_distinct()
        ensures
            "chatTypeBasicGroup"@ != "chatTypePrivate"@,
            "chatTypeBasicGroup"@ != "chatTypeSecret"@,
            "chatTypeBasicGroup"@ != "chatTypeSupergroup"@,
            "chatTypePrivate"@ != "chatTypeSecret"@,
            "chatTypePrivate"@ != "chatTypeSupergroup"@,
            "chatTypeSecret"@ != "chatTypeSupergroup"@,
    {
        reveal_strlit("chatTypeBasicGroup");
        reveal_strlit("chatTypePrivate");
        reveal_strlit("chatTypeSecret");
        reveal_strlit("chatTypeSupergroup");
        assert("chatTypeBasicGroup"@.len() == 18);
        assert("chatTypePrivate"@.len() == 15);
        assert("chatTypeSecret"@.len() == 14);
        assert("chatTypeSupergroup"@.len() == 18);
        assert("chatTypeBasicGroup"@[8] == 'B' && "chatTypeSupergroup"@[8] == 'S');
    }
}

impl Wire for ChatType {
    open spec fn wire_tree(self) -> Option<SpecJson> {
        match self {
            ChatType::_Default(_) => None,
            ChatType::BasicGroup(x) => x.wire_tree(),
            ChatType::Private(x) => x.wire_tree(),
            ChatType::Secret(x) => x.wire_tree(),
            ChatType::Supergroup(x) => x.wire_tree(),
        }
    }

    open spec fn accepts(t: SpecJson) -> bool {
        match tag_of(t) {
            None => false,
            Some(g) => {
                if g == ChatTypeBasicGroup::tag_spec() {
                    ChatTypeBasicGroup::accepts(t)
                } else if g == ChatTypePrivate::tag_spec() {
                    ChatTypePrivate::accepts(t)
                } else if g == ChatTypeSecret::tag_spec() {
                    ChatTypeSecret::accepts(t)
                } else if g == ChatTypeSupergroup::tag_spec() {
                    ChatTypeSupergroup::accepts(t)
                } else {
                    false
                }
            },
        }
    }

    open spec fn err_of(t: SpecJson) -> SpecDecodeError {
        match tag_of(t) {
            None => SpecDecodeError::Malformed,
            Some(g) => {
                if g == ChatTypeBasicGroup::tag_spec() {
                    ChatTypeBasicGroup::err_of(t)
                } else if g == ChatTypePrivate::tag_spec() {
                    ChatTypePrivate::err_of(t)
                } else if g == ChatTypeSecret::tag_spec() {
                    ChatTypeSecret::err_of(t)
                } else if g == ChatTypeSupergroup::tag_spec() {
                    ChatTypeSupergroup::err_of(t)
                } else {
                    SpecDecodeError::UnrecognizedVariant(g)
                }
            },
        }
    }

    open spec fn decodes_from(t: SpecJson, v: Self) -> bool {
        match tag_of(t) {
            None => false,
            Some(g) => {
                if g == ChatTypeBasicGroup::tag_spec() {
                    v matches ChatType::BasicGroup(x) && ChatTypeBasicGroup::decodes_from(t, x)
                } else if g == ChatTypePrivate::tag_spec() {
                    v matches ChatType::Private(x) && ChatTypePrivate::decodes_from(t, x)
                } else if g == ChatTypeSecret::tag_spec() {
                    v matches ChatType::Secret(x) && ChatTypeSecret::decodes_from(t, x)
                } else if g == ChatTypeSupergroup::tag_spec() {
                    v matches ChatType::Supergroup(x) && ChatTypeSupergroup::decodes_from(t, x)
                } else {
                    false
                }
            },
        }
    }

    open spec fn eqv(self, other: Self) -> bool {
        match (self, other) {
            (ChatType::_Default(_), ChatType::_Default(_)) => true,
            (ChatType::BasicGroup(a), ChatType::BasicGroup(b)) => a.eqv(b),
            (ChatType::Private(a), ChatType::Private(b)) => a.eqv(b),
            (ChatType::Secret(a), ChatType::Secret(b)) => a.eqv(b),
            (ChatType::Supergroup(a), ChatType::Supergroup(b)) => a.eqv(b),
            _ => false,
        }
    }

    fn clone_val(&self) -> (r: Self) {
        self.clone()
    }

    fn decode_tree(t: &JsonValue) -> (r: Result<Self, DecodeError>) {
        let g = match get_tag(t) {
            Some(g) => g,
            None => {
                return Err(DecodeError::Malformed);
            },
        };
        if str_eq(g.as_str(), "chatTypeBasicGroup") {
            match ChatTypeBasicGroup::decode_tree(t) {
                Ok(x) => Ok(ChatType::BasicGroup(x)),
                Err(e) => Err(e),
            }
        } else if str_eq(g.as_str(), "chatTypePrivate") {
            match ChatTypePrivate::decode_tree(t) {
                Ok(x) => Ok(ChatType::Private(x)),
                Err(e) => Err(e),
            }
        } else if str_eq(g.as_str(), "chatTypeSecret") {
            match ChatTypeSecret::decode_tree(t) {
                Ok(x) => Ok(ChatType::Secret(x)),
                Err(e) => Err(e),
            }
        } else if str_eq(g.as_str(), "chatTypeSupergroup") {
            match ChatTypeSupergroup::decode_tree(t) {
                Ok(x) => Ok(ChatType::Supergroup(x)),
                Err(e) => Err(e),
            }
        } else {
            Err(DecodeError::UnrecognizedVariant(g))
        }
    }

    fn encode_tree(&self) -> (r: Result<JsonValue, EncodeError>) {
        match self {
            ChatType::_Default(_) => Err(EncodeError::Unrepresentable),
            ChatType::BasicGroup(x) => x.encode_tree(),
            ChatType::Private(x) => x.encode_tree(),
            ChatType::Secret(x) => x.encode_tree(),
            ChatType::Supergroup(x) => x.encode_tree(),
        }
    }

    proof fn lemma_wire_wf(v: Self) {
        match v {
            ChatType::_Default(_) => {},
            ChatType::BasicGroup(x) => {
                ChatTypeBasicGroup::lemma_wire_wf(x);
            },
            ChatType::Private(x) => {
                ChatTypePrivate::lemma_wire_wf(x);
            },
            ChatType::Secret(x) => {
                ChatTypeSecret::lemma_wire_wf(x);
            },
            ChatType::Supergroup(x) => {
                ChatTypeSupergroup::lemma_wire_wf(x);
            },
        }
    }

    proof fn lemma_round_trip(v: Self) {
        Self::lemma_tags_distinct();
        match v {
            ChatType::_Default(_) => {},
            ChatType::BasicGroup(x) => {
                if x.wire_tree() is Some {
                    let t = x.wire_tree()->0;
                    ChatTypeBasicGroup::lemma_wire_tag(x);
                    ChatTypeBasicGroup::lemma_round_trip(x);
                    assert(Self::accepts(t));
                    assert forall|w: Self| Self::decodes_from(t, w) implies #[trigger] w.eqv(v) by {
                        assert(w matches ChatType::BasicGroup(xi) && ChatTypeBasicGroup::decodes_from(t, xi));
                    }
                }
            },
            ChatType::Private(x) => {
                if x.wire_tree() is Some {
                    let t = x.wire_tree()->0;
                    ChatTypePrivate::lemma_wire_tag(x);
                    ChatTypePrivate::lemma_round_trip(x);
                    assert(Self::accepts(t));
                    assert forall|w: Self| Self::decodes_from(t, w) implies #[trigger] w.eqv(v) by {
                        assert(w matches ChatType::Private(xi) && ChatTypePrivate::decodes_from(t, xi));
                    }
                }
            },
            ChatType::Secret(x) => {
                if x.wire_tree() is Some {
                    let t = x.wire_tree()->0;
                    ChatTypeSecret::lemma_wire_tag(x);
                    ChatTypeSecret::lemma_round_trip(x);
                    assert(Self::accepts(t));
                    assert forall|w: Self| Self::decodes_from(t, w) implies #[trigger] w.eqv(v) by {
                        assert(w matches ChatType::Secret(xi) && ChatTypeSecret::decodes_from(t, xi));
                    }
                }
            },
            ChatType::Supergroup(x) => {
                if x.wire_tree() is Some {
                    let t = x.wire_tree()->0;
                    ChatTypeSupergroup::lemma_wire_tag(x);
                    ChatTypeSupergroup::lemma_round_trip(x);
                    assert(Self::accepts(t));
                    assert forall|w: Self| Self::decodes_from(t, w) implies #[trigger] w.eqv(v) by {
                        assert(w matches ChatType::Supergroup(xi) && ChatTypeSupergroup::decodes_from(t, xi));
                    }
                }
            },
        }
    }
}

impl RObject for ChatType {
    open spec fn tag_chars(&self) -> Seq<char> {
        match self {
            ChatType::_Default(_) => "-1"@,
            ChatType::BasicGroup(x) => ChatTypeBasicGroup::tag_spec(),
            ChatType::Private(x) => ChatTypePrivate::tag_spec(),
            ChatType::Secret(x) => ChatTypeSecret::tag_spec(),
            ChatType::Supergroup(x) => ChatTypeSupergroup::tag_spec(),
        }
    }

    open spec fn extra_spec(&self) -> Option<Seq<char>> {
        match self {
            ChatType::_Default(_) => None,
            ChatType::BasicGroup(x) => opt_str_view(x.extra),
            ChatType::Private(x) => opt_str_view(x.extra),
            ChatType::Secret(x) => opt_str_view(x.extra),
            ChatType::Supergroup(x) => opt_str_view(x.extra),
    }
    }

    fn td_name(&self) -> (r: &'static str) {
        match self {
            ChatType::_Default(_) => "-1",
            ChatType::BasicGroup(x) => x.td_name(),
            ChatType::Private(x) => x.td_name(),
            ChatType::Secret(x) => x.td_name(),
            ChatType::Supergroup(x) => x.td_name(),
        }
    }

    fn extra(&self) -> (r: Option<String>) {
        match self {
            ChatType::_Default(_) => None,
            ChatType::BasicGroup(x) => clone_opt_string(&x.extra),
            ChatType::Private(x) => clone_opt_string(&x.extra),
            ChatType::Secret(x) => clone_opt_string(&x.extra),
            ChatType::Supergroup(x) => clone_opt_string(&x.extra),
        }
    }

    fn to_json(&self) -> (r: Result<String, EncodeError>) {
        crate::object::encode(self)
    }
}

impl ChatType {
    pub fn from_json(json: &str) -> (r: Result<ChatType, DecodeError>)
        ensures
            match crate::parse::parse_doc(json@) {
                Some(t) => match r {
                    Ok(v) => Self::accepts(t) && Self::decodes_from(t, v),
                    Err(e) => !Self::accepts(t) && crate::errors::err_matches(e, Self::err_of(t)),
                },
                None => r matches Err(e) && e == DecodeError::Malformed,
            },
    {
        crate::object::from_json::<ChatType>(json)
    }

    pub fn _is_default(&self) -> (r: bool)
        ensures
            r == (self is _Default),
    {
        match self {
            ChatType::_Default(_) => true,
            _ => false,
        }
    }

    pub fn is_basic_group(&self) -> (r: bool)
        ensures
            r == (self is BasicGroup),
    {
        match self {
            ChatType::BasicGroup(_) => true,
            _ => false,
        }
    }

    pub fn is_private(&self) -> (r: bool)
        ensures
            r == (self is Private),
    {
        match self {
            ChatType::Private(_) => true,
            _ => false,
        }
    }

    pub fn is_secret(&self) -> (r: bool)
        ensures
            r == (self is Secret),
    {
        match self {
            ChatType::Secret(_) => true,
            _ => false,
        }
    }

    pub fn is_supergroup(&self) -> (r: bool)
        ensures
            r == (self is Supergroup),
    {
        match self {
            ChatType::Supergroup(_) => true,
            _ => false,
        }
    }

    pub fn as_basic_group(&self) -> (r: Option<&ChatTypeBasicGroup>)
        ensures
            (self is BasicGroup) == (r is Some),
            r matches Some(x) ==> *x == self->BasicGroup_0,
    {
        match self {
            ChatType::BasicGroup(x) => Some(x),
            _ => None,
        }
    }

    pub fn as_private(&self) -> (r: Option<&ChatTypePrivate>)
        ensures
            (self is Private) == (r is Some),
            r matches Some(x) ==> *x == self->Private_0,
    {
        match self {
            ChatType::Private(x) => Some(x),
            _ => None,
        }
    }

    pub fn as_secret(&self) -> (r: Option<&ChatTypeSecret>)
        ensures
            (self is Secret) == (r is Some),
            r matches Some(x) ==> *x == self->Secret_0,
    {
        match self {
            ChatType::Secret(x) => Some(x),
            _ => None,
        }
    }

    pub fn as_supergroup(&self) -> (r: Option<&ChatTypeSupergroup>)
        ensures
            (self is Supergroup) == (r is Some),
            r matches Some(x) ==> *x == self->Supergroup_0,
    {
        match self {
            ChatType::Supergroup(x) => Some(x),
            _ => None,
        }
    }

    pub fn basic_group(t: &ChatTypeBasicGroup) -> (r: Self)
        ensures
            r matches ChatType::BasicGroup(x) && x.eqv(*t),
    {
        ChatType::BasicGroup(t.clone())
    }

    pub fn private(t: &ChatTypePrivate) -> (r: Self)
        ensures
            r matches ChatType::Private(x) && x.eqv(*t),
    {
        ChatType::Private(t.clone())
    }

    pub fn secret(t: &ChatTypeSecret) -> (r: Self)
        ensures
            r matches ChatType::Secret(x) && x.eqv(*t),
    {
        ChatType::Secret(t.clone())
    }

    pub fn supergroup(t: &ChatTypeSupergroup) -> (r: Self)
        ensures
            r matches ChatType::Supergroup(x) && x.eqv(*t),
    {
        ChatType::Supergroup(t.clone())
    }
}
/// A basic group (a chat with 0-200 other users)
#[derive(Debug, PartialEq)]
pub struct ChatTypeBasicGroup {
    pub extra: Option<String>,
    /// Basic group identifier
    pub basic_group_id: i64,
}

impl ChatTypeBasicGroup {
    pub open spec fn tag_spec() -> Seq<char> {
        "chatTypeBasicGroup"@
    }

    /// The members of the wire object, in the order they are written.
    pub open spec fn members_spec(self) -> Seq<(Seq<char>, SpecJson)> {
        seq![
            ("@type"@, SpecJson::Str(Self::tag_spec())),
            ("@extra"@, opt_str_tree(opt_str_view(self.extra))),
            ("basic_group_id"@, SpecJson::Num(i64_lex(self.basic_group_id as int))),
        ]
    }

    pub open spec fn fields_ok(t: SpecJson) -> bool {
        &&& ok_opt_str(t, "@extra"@)
        &&& ok_i64(t, "basic_group_id"@)
    }

    pub open spec fn fail_field(t: SpecJson) -> Seq<char> {
        if !ok_opt_str(t, "@extra"@) {
            "@extra"@
        } else if !(ok_i64(t, "basic_group_id"@)) {
            "basic_group_id"@
        } else {
            Seq::empty()
        }
    }

    /// The encoding of a value carries exactly this type's tag.
    pub proof fn lemma_wire_tag(v: ChatTypeBasicGroup)
        ensures
            v.wire_tree() matches Some(t) ==> tag_of(t) == Some(ChatTypeBasicGroup::tag_spec()),
    {
        if v.wire_tree() is Some {
            let t = v.wire_tree()->0;
            let ms = t->Obj_0;
            lemma_get_spec_found(ms, "@type"@, 0);
        }
    }
}

impl Clone for ChatTypeBasicGroup {
    fn clone(&self) -> (res: Self)
        ensures
            res.eqv(*self),
    {
        ChatTypeBasicGroup {
            extra: clone_opt_string(&self.extra),
            basic_group_id: self.basic_group_id,
        }
    }
}

impl Wire for ChatTypeBasicGroup {
    open spec fn wire_tree(self) -> Option<SpecJson> {
        Some(SpecJson::Obj(self.members_spec()))
    }

    open spec fn accepts(t: SpecJson) -> bool {
        tag_of(t) is Some && Self::fields_ok(t)
    }

    open spec fn err_of(t: SpecJson) -> SpecDecodeError {
        match tag_of(t) {
            None => SpecDecodeError::Malformed,
            Some(_) => SpecDecodeError::FieldShapeMismatch(Self::tag_spec(), Self::fail_field(t)),
        }
    }

    open spec fn decodes_from(t: SpecJson, v: Self) -> bool {
        &&& m_opt_str(t, "@extra"@, v.extra)
        &&& m_i64(t, "basic_group_id"@, v.basic_group_id)
    }

    open spec fn eqv(self, other: Self) -> bool {
        &&& eqv_opt_string(self.extra, other.extra)
        &&& self.basic_group_id == other.basic_group_id
    }

    fn clone_val(&self) -> (r: Self) {
        self.clone()
    }

    fn decode_tree(t: &JsonValue) -> (r: Result<Self, DecodeError>) {
        if get_tag(t).is_none() {
            return Err(DecodeError::Malformed);
        }
        let extra = match field_opt_string(t, "@extra") {
            Some(x) => x,
            None => {
                return Err(DecodeError::FieldShapeMismatch(
                    String::from_str("chatTypeBasicGroup"),
                    String::from_str("@extra"),
                ));
            },
        };
        let basic_group_id = match field_i64(t, "basic_group_id") {
            Some(x) => x,
            None => {
                return Err(DecodeError::FieldShapeMismatch(
                    String::from_str("chatTypeBasicGroup"),
                    String::from_str("basic_group_id"),
                ));
            },
        };
        Ok(ChatTypeBasicGroup { extra, basic_group_id })
    }

    fn encode_tree(&self) -> (r: Result<JsonValue, EncodeError>) {
        let mut members: Vec<JsonMember> = Vec::new();
        proof {
            assert(view_members(members@) =~= Seq::<(Seq<char>, SpecJson)>::empty());
        }
        push_member(&mut members, "@type", JsonValue::Str(String::from_str("chatTypeBasicGroup")));
        push_member(&mut members, "@extra", opt_string_tree(&self.extra));
        push_member(&mut members, "basic_group_id", JsonValue::Num(i64_lexeme(self.basic_group_id)));
        let node = JsonValue::Obj(members);
        proof {
            assert(view_members(members@) =~= self.members_spec());
            assert(node@ == self.wire_tree()->0);
        }
        Ok(node)
    }

    proof fn lemma_wire_wf(v: Self) {
        if v.wire_tree() is Some {
            let t = v.wire_tree()->0;
            let ms = t->Obj_0;
            assert(ms == v.members_spec());
            crate::json::lemma_i64_lex(v.basic_group_id);
            assert forall|i: int| 0 <= i < ms.len() implies wf(#[trigger] ms[i].1) by {
            }
        }
    }

    proof fn lemma_round_trip(v: Self) {
        if v.wire_tree() is Some {
            let t = v.wire_tree()->0;
            let ms = t->Obj_0;
            assert(ms == v.members_spec());
            reveal_strlit("@type");
            reveal_strlit("@extra");
            reveal_strlit("basic_group_id");
            assert("@type"@.len() == 5);
            assert("@extra"@.len() == 6);
            assert("basic_group_id"@.len() == 14);
            reveal_with_fuel(get_spec, 5);
            lemma_get_spec_found(ms, "@type"@, 0);
            lemma_get_spec_found(ms, "@extra"@, 1);
            lemma_get_spec_found(ms, "basic_group_id"@, 2);
            assert(tag_of(t) == Some(Self::tag_spec()));
            assert(ok_opt_str(t, "@extra"@));
            crate::json::lemma_i64_lex(v.basic_group_id);
            assert(ok_i64(t, "basic_group_id"@));
            assert(Self::accepts(t));
            assert forall|w: Self| Self::decodes_from(t, w) implies #[trigger] w.eqv(v) by {
            }
        }
    }
}

impl RObject for ChatTypeBasicGroup {
    open spec fn tag_chars(&self) -> Seq<char> {
        Self::tag_spec()
    }

    open spec fn extra_spec(&self) -> Option<Seq<char>> {
        opt_str_view(self.extra)
    }

    fn td_name(&self) -> (r: &'static str) {
        "chatTypeBasicGroup"
    }

    fn extra(&self) -> (r: Option<String>) {
        clone_opt_string(&self.extra)
    }

    fn to_json(&self) -> (r: Result<String, EncodeError>) {
        crate::object::encode(self)
    }
}

impl TDChatType for ChatTypeBasicGroup {

}

impl ChatTypeBasicGroup {
    pub fn from_json(json: &str) -> (r: Result<ChatTypeBasicGroup, DecodeError>)
        ensures
            match crate::parse::parse_doc(json@) {
                Some(t) => match r {
                    Ok(v) => Self::accepts(t) && Self::decodes_from(t, v),
                    Err(e) => !Self::accepts(t) && crate::errors::err_matches(e, Self::err_of(t)),
                },
                None => r matches Err(e) && e == DecodeError::Malformed,
            },
    {
        crate::object::from_json::<ChatTypeBasicGroup>(json)
    }

    pub fn builder() -> (r: RTDChatTypeBasicGroupBuilder)
        ensures
            r.inner.extra is Some,
            r.inner.basic_group_id == 0,
    {
        RTDChatTypeBasicGroupBuilder {
            inner: ChatTypeBasicGroup {
                extra: Some(new_token()),
                basic_group_id: 0,
            },
        }
    }

    pub fn basic_group_id(&self) -> (r: i64)
        ensures
            r == self.basic_group_id,
    {
        self.basic_group_id
    }
}

pub struct RTDChatTypeBasicGroupBuilder {
    pub inner: ChatTypeBasicGroup,
}

impl RTDChatTypeBasicGroupBuilder {
    pub fn build(&self) -> (r: ChatTypeBasicGroup)
        ensures
            r.eqv(self.inner),
    {
        self.inner.clone()
    }

    pub fn basic_group_id(&mut self, basic_group_id: i64) -> (r: &mut Self)
        ensures
            *r == (RTDChatTypeBasicGroupBuilder { inner: ChatTypeBasicGroup { basic_group_id: basic_group_id, ..old(self).inner } }),
            *final(self) == *final(r),
    {
        self.inner.basic_group_id = basic_group_id;
        self
    }
}
/// An ordinary chat with a user
#[derive(Debug, PartialEq)]
pub struct ChatTypePrivate {
    pub extra: Option<String>,
    /// User identifier
    pub user_id: i64,
}

impl ChatTypePrivate {
    pub open spec fn tag_spec() -> Seq<char> {
        "chatTypePrivate"@
    }

    /// The members of the wire object, in the order they are written.
    pub open spec fn members_spec(self) -> Seq<(Seq<char>, SpecJson)> {
        seq![
            ("@type"@, SpecJson::Str(Self::tag_spec())),
            ("@extra"@, opt_str_tree(opt_str_view(self.extra))),
            ("user_id"@, SpecJson::Num(i64_lex(self.user_id as int))),
        ]
    }

    pub open spec fn fields_ok(t: SpecJson) -> bool {
        &&& ok_opt_str(t, "@extra"@)
        &&& ok_i64(t, "user_id"@)
    }

    pub open spec fn fail_field(t: SpecJson) -> Seq<char> {
        if !ok_opt_str(t, "@extra"@) {
            "@extra"@
        } else if !(ok_i64(t, "user_id"@)) {
            "user_id"@
        } else {
            Seq::empty()
        }
    }

    /// The encoding of a value carries exactly this type's tag.
    pub proof fn lemma_wire_tag(v: ChatTypePrivate)
        ensures
            v.wire_tree() matches Some(t) ==> tag_of(t) == Some(ChatTypePrivate::tag_spec()),
    {
        if v.wire_tree() is Some {
            let t = v.wire_tree()->0;
            let ms = t->Obj_0;
            lemma_get_spec_found(ms, "@type"@, 0);
        }
    }
}

impl Clone for ChatTypePrivate {
    fn clone(&self) -> (res: Self)
        ensures
            res.eqv(*self),
    {
        ChatTypePrivate {
            extra: clone_opt_string(&self.extra),
            user_id: self.user_id,
        }
    }
}

impl Wire for ChatTypePrivate {
    open spec fn wire_tree(self) -> Option<SpecJson> {
        Some(SpecJson::Obj(self.members_spec()))
    }

    open spec fn accepts(t: SpecJson) -> bool {
        tag_of(t) is Some && Self::fields_ok(t)
    }

    open spec fn err_of(t: SpecJson) -> SpecDecodeError {
        match tag_of(t) {
            None => SpecDecodeError::Malformed,
            Some(_) => SpecDecodeError::FieldShapeMismatch(Self::tag_spec(), Self::fail_field(t)),
        }
    }

    open spec fn decodes_from(t: SpecJson, v: Self) -> bool {
        &&& m_opt_str(t, "@extra"@, v.extra)
        &&& m_i64(t, "user_id"@, v.user_id)
    }

    open spec fn eqv(self, other: Self) -> bool {
        &&& eqv_opt_string(self.extra, other.extra)
        &&& self.user_id == other.user_id
    }

    fn clone_val(&self) -> (r: Self) {
        self.clone()
    }

    fn decode_tree(t: &JsonValue) -> (r: Result<Self, DecodeError>) {
        if get_tag(t).is_none() {
            return Err(DecodeError::Malformed);
        }
        let extra = match field_opt_string(t, "@extra") {
            Some(x) => x,
            None => {
                return Err(DecodeError::FieldShapeMismatch(
                    String::from_str("chatTypePrivate"),
                    String::from_str("@extra"),
                ));
            },
        };
        let user_id = match field_i64(t, "user_id") {
            Some(x) => x,
            None => {
                return Err(DecodeError::FieldShapeMismatch(
                    String::from_str("chatTypePrivate"),
                    String::from_str("user_id"),
                ));
            },
        };
        Ok(ChatTypePrivate { extra, user_id })
    }

    fn encode_tree(&self) -> (r: Result<JsonValue, EncodeError>) {
        let mut members: Vec<JsonMember> = Vec::new();
        proof {
            assert(view_members(members@) =~= Seq::<(Seq<char>, SpecJson)>::empty());
        }
        push_member(&mut members, "@type", JsonValue::Str(String::from_str("chatTypePrivate")));
        push_member(&mut members, "@extra", opt_string_tree(&self.extra));
        push_member(&mut members, "user_id", JsonValue::Num(i64_lexeme(self.user_id)));
        let node = JsonValue::Obj(members);
        proof {
            assert(view_members(members@) =~= self.members_spec());
            assert(node@ == self.wire_tree()->0);
        }
        Ok(node)
    }

    proof fn lemma_wire_wf(v: Self) {
        if v.wire_tree() is Some {
            let t = v.wire_tree()->0;
            let ms = t->Obj_0;
            assert(ms == v.members_spec());
            crate::json::lemma_i64_lex(v.user_id);
            assert forall|i: int| 0 <= i < ms.len() implies wf(#[trigger] ms[i].1) by {
            }
        }
    }

    proof fn lemma_round_trip(v: Self) {
        if v.wire_tree() is Some {
            let t = v.wire_tree()->0;
            let ms = t->Obj_0;
            assert(ms == v.members_spec());
            reveal_strlit("@type");
            reveal_strlit("@extra");
            reveal_strlit("user_id");
            assert("@type"@.len() == 5);
            assert("@extra"@.len() == 6);
            assert("user_id"@.len() == 7);
            reveal_with_fuel(get_spec, 5);
            lemma_get_spec_found(ms, "@type"@, 0);
            lemma_get_spec_found(ms, "@extra"@, 1);
            lemma_get_spec_found(ms, "user_id"@, 2);
            assert(tag_of(t) == Some(Self::tag_spec()));
            assert(ok_opt_str(t, "@extra"@));
            crate::json::lemma_i64_lex(v.user_id);
            assert(ok_i64(t, "user_id"@));
            assert(Self::accepts(t));
            assert forall|w: Self| Self::decodes_from(t, w) implies #[trigger] w.eqv(v) by {
            }
        }
    }
}

impl RObject for ChatTypePrivate {
    open spec fn tag_chars(&self) -> Seq<char> {
        Self::tag_spec()
    }

    open spec fn extra_spec(&self) -> Option<Seq<char>> {
        opt_str_view(self.extra)
    }

    fn td_name(&self) -> (r: &'static str) {
        "chatTypePrivate"
    }

    fn extra(&self) -> (r: Option<String>) {
        clone_opt_string(&self.extra)
    }

    fn to_json(&self) -> (r: Result<String, EncodeError>) {
        crate::object::encode(self)
    }
}

impl TDChatType for ChatTypePrivate {

}

impl ChatTypePrivate {
    pub fn from_json(json: &str) -> (r: Result<ChatTypePrivate, DecodeError>)
        ensures
            match crate::parse::parse_doc(json@) {
                Some(t) => match r {
                    Ok(v) => Self::accepts(t) && Self::decodes_from(t, v),
                    Err(e) => !Self::accepts(t) && crate::errors::err_matches(e, Self::err_of(t)),
                },
                None => r matches Err(e) && e == DecodeError::Malformed,
            },
    {
        crate::object::from_json::<ChatTypePrivate>(json)
    }

    pub fn builder() -> (r: RTDChatTypePrivateBuilder)
        ensures
            r.inner.extra is Some,
            r.inner.user_id == 0,
    {
        RTDChatTypePrivateBuilder {
            inner: ChatTypePrivate {
                extra: Some(new_token()),
                user_id: 0,
            },
        }
    }

    pub fn user_id(&self) -> (r: i64)
        ensures
            r == self.user_id,
    {
        self.user_id
    }
}

pub struct RTDChatTypePrivateBuilder {
    pub inner: ChatTypePrivate,
}

impl RTDChatTypePrivateBuilder {
    pub fn build(&self) -> (r: ChatTypePrivate)
        ensures
            r.eqv(self.inner),
    {
        self.inner.clone()
    }

    pub fn user_id(&mut self, user_id: i64) -> (r: &mut Self)
        ensures
            *r == (RTDChatTypePrivateBuilder { inner: ChatTypePrivate { user_id: user_id, ..old(self).inner } }),
            *final(self) == *final(r),
    {
        self.inner.user_id = user_id;
        self
    }
}
/// A secret chat with a user
#[derive(Debug, PartialEq)]
pub struct ChatTypeSecret {
    pub extra: Option<String>,
    /// Secret chat identifier
    pub secret_chat_id: i64,
    /// User identifier of the secret chat peer
    pub user_id: i64,
}

impl ChatTypeSecret {
    pub open spec fn tag_spec() -> Seq<char> {
        "chatTypeSecret"@
    }

    /// The members of the wire object, in the order they are written.
    pub open spec fn members_spec(self) -> Seq<(Seq<char>, SpecJson)> {
        seq![
            ("@type"@, SpecJson::Str(Self::tag_spec())),
            ("@extra"@, opt_str_tree(opt_str_view(self.extra))),
            ("secret_chat_id"@, SpecJson::Num(i64_lex(self.secret_chat_id as int))),
            ("user_id"@, SpecJson::Num(i64_lex(self.user_id as int))),
        ]
    }

    pub open spec fn fields_ok(t: SpecJson) -> bool {
        &&& ok_opt_str(t, "@extra"@)
        &&& ok_i64(t, "secret_chat_id"@)
        &&& ok_i64(t, "user_id"@)
    }

    pub open spec fn fail_field(t: SpecJson) -> Seq<char> {
        if !ok_opt_str(t, "@extra"@) {
            "@extra"@
        } else if !(ok_i64(t, "secret_chat_id"@)) {
            "secret_chat_id"@
        } else if !(ok_i64(t, "user_id"@)) {
            "user_id"@
        } else {
            Seq::empty()
        }
    }

    /// The encoding of a value carries exactly this type's tag.
    pub proof fn lemma_wire_tag(v: ChatTypeSecret)
        ensures
            v.wire_tree() matches Some(t) ==> tag_of(t) == Some(ChatTypeSecret::tag_spec()),
    {
        if v.wire_tree() is Some {
            let t = v.wire_tree()->0;
            let ms = t->Obj_0;
            lemma_get_spec_found(ms, "@type"@, 0);
        }
    }
}

impl Clone for ChatTypeSecret {
    fn clone(&self) -> (res: Self)
        ensures
            res.eqv(*self),
    {
        ChatTypeSecret {
            extra: clone_opt_string(&self.extra),
            secret_chat_id: self.secret_chat_id,
            user_id: self.user_id,
        }
    }
}

impl Wire for ChatTypeSecret {
    open spec fn wire_tree(self) -> Option<SpecJson> {
        Some(SpecJson::Obj(self.members_spec()))
    }

    open spec fn accepts(t: SpecJson) -> bool {
        tag_of(t) is Some && Self::fields_ok(t)
    }

    open spec fn err_of(t: SpecJson) -> SpecDecodeError {
        match tag_of(t) {
            None => SpecDecodeError::Malformed,
            Some(_) => SpecDecodeError::FieldShapeMismatch(Self::tag_spec(), Self::fail_field(t)),
        }
    }

    open spec fn decodes_from(t: SpecJson, v: Self) -> bool {
        &&& m_opt_str(t, "@extra"@, v.extra)
        &&& m_i64(t, "secret_chat_id"@, v.secret_chat_id)
        &&& m_i64(t, "user_id"@, v.user_id)
    }

    open spec fn eqv(self, other: Self) -> bool {
        &&& eqv_opt_string(self.extra, other.extra)
        &&& self.secret_chat_id == other.secret_chat_id
        &&& self.user_id == other.user_id
    }

    fn clone_val(&self) -> (r: Self) {
        self.clone()
    }

    fn decode_tree(t: &JsonValue) -> (r: Result<Self, DecodeError>) {
        if get_tag(t).is_none() {
            return Err(DecodeError::Malformed);
        }
        let extra = match field_opt_string(t, "@extra") {
            Some(x) => x,
            None => {
                return Err(DecodeError::FieldShapeMismatch(
                    String::from_str("chatTypeSecret"),
                    String::from_str("@extra"),
                ));
            },
        };
        let secret_chat_id = match field_i64(t, "secret_chat_id") {
            Some(x) => x,
            None => {
                return Err(DecodeError::FieldShapeMismatch(
                    String::from_str("chatTypeSecret"),
                    String::from_str("secret_chat_id"),
                ));
            },
        };
        let user_id = match field_i64(t, "user_id") {
            Some(x) => x,
            None => {
                return Err(DecodeError::FieldShapeMismatch(
                    String::from_str("chatTypeSecret"),
                    String::from_str("user_id"),
                ));
            },
        };
        Ok(ChatTypeSecret { extra, secret_chat_id, user_id })
    }

    fn encode_tree(&self) -> (r: Result<JsonValue, EncodeError>) {
        let mut members: Vec<JsonMember> = Vec::new();
        proof {
            assert(view_members(members@) =~= Seq::<(Seq<char>, SpecJson)>::empty());
        }
        push_member(&mut members, "@type", JsonValue::Str(String::from_str("chatTypeSecret")));
        push_member(&mut members, "@extra", opt_string_tree(&self.extra));
        push_member(&mut members, "secret_chat_id", JsonValue::Num(i64_lexeme(self.secret_chat_id)));
        push_member(&mut members, "user_id", JsonValue::Num(i64_lexeme(self.user_id)));
        let node = JsonValue::Obj(members);
        proof {
            assert(view_members(members@) =~= self.members_spec());
            assert(node@ == self.wire_tree()->0);
        }
        Ok(node)
    }

    proof fn lemma_wire_wf(v: Self) {
        if v.wire_tree() is Some {
            let t = v.wire_tree()->0;
            let ms = t->Obj_0;
            assert(ms == v.members_spec());
            crate::json::lemma_i64_lex(v.secret_chat_id);
            crate::json::lemma_i64_lex(v.user_id);
            assert forall|i: int| 0 <= i < ms.len() implies wf(#[trigger] ms[i].1) by {
            }
        }
    }

    proof fn lemma_round_trip(v: Self) {
        if v.wire_tree() is Some {
            let t = v.wire_tree()->0;
            let ms = t->Obj_0;
            assert(ms == v.members_spec());
            reveal_strlit("@type");
            reveal_strlit("@extra");
            reveal_strlit("secret_chat_id");
            reveal_strlit("user_id");
            assert("@type"@.len() == 5);
            assert("@extra"@.len() == 6);
            assert("secret_chat_id"@.len() == 14);
            assert("user_id"@.len() == 7);
            reveal_with_fuel(get_spec, 6);
            lemma_get_spec_found(ms, "@type"@, 0);
            lemma_get_spec_found(ms, "@extra"@, 1);
            lemma_get_spec_found(ms, "secret_chat_id"@, 2);
            lemma_get_spec_found(ms, "user_id"@, 3);
            assert(tag_of(t) == Some(Self::tag_spec()));
            assert(ok_opt_str(t, "@extra"@));
            crate::json::lemma_i64_lex(v.secret_chat_id);
            assert(ok_i64(t, "secret_chat_id"@));
            crate::json::lemma_i64_lex(v.user_id);
            assert(ok_i64(t, "user_id"@));
            assert(Self::accepts(t));
            assert forall|w: Self| Self::decodes_from(t, w) implies #[trigger] w.eqv(v) by {
            }
        }
    }
}

impl RObject for ChatTypeSecret {
    open spec fn tag_chars(&self) -> Seq<char> {
        Self::tag_spec()
    }

    open spec fn extra_spec(&self) -> Option<Seq<char>> {
        opt_str_view(self.extra)
    }

    fn td_name(&self) -> (r: &'static str) {
        "chatTypeSecret"
    }

    fn extra(&self) -> (r: Option<String>) {
        clone_opt_string(&self.extra)
    }

    fn to_json(&self) -> (r: Result<String, EncodeError>) {
        crate::object::encode(self)
    }
}

impl TDChatType for ChatTypeSecret {

}

impl ChatTypeSecret {
    pub fn from_json(json: &str) -> (r: Result<ChatTypeSecret, DecodeError>)
        ensures
            match crate::parse::parse_doc(json@) {
                Some(t) => match r {
                    Ok(v) => Self::accepts(t) && Self::decodes_from(t, v),
                    Err(e) => !Self::accepts(t) && crate::errors::err_matches(e, Self::err_of(t)),
                },
                None => r matches Err(e) && e == DecodeError::Malformed,
            },
    {
        crate::object::from_json::<ChatTypeSecret>(json)
    }

    pub fn builder() -> (r: RTDChatTypeSecretBuilder)
        ensures
            r.inner.extra is Some,
            r.inner.secret_chat_id == 0,
            r.inner.user_id == 0,
    {
        RTDChatTypeSecretBuilder {
            inner: ChatTypeSecret {
                extra: Some(new_token()),
                secret_chat_id: 0,
                user_id: 0,
            },
        }
    }

    pub fn secret_chat_id(&self) -> (r: i64)
        ensures
            r == self.secret_chat_id,
    {
        self.secret_chat_id
    }

    pub fn user_id(&self) -> (r: i64)
        ensures
            r == self.user_id,
    {
        self.user_id
    }
}

pub struct RTDChatTypeSecretBuilder {
    pub inner: ChatTypeSecret,
}

impl RTDChatTypeSecretBuilder {
    pub fn build(&self) -> (r: ChatTypeSecret)
        ensures
            r.eqv(self.inner),
    {
        self.inner.clone()
    }

    pub fn secret_chat_id(&mut self, secret_chat_id: i64) -> (r: &mut Self)
        ensures
            *r == (RTDChatTypeSecretBuilder { inner: ChatTypeSecret { secret_chat_id: secret_chat_id, ..old(self).inner } }),
            *final(self) == *final(r),
    {
        self.inner.secret_chat_id = secret_chat_id;
        self
    }

    pub fn user_id(&mut self, user_id: i64) -> (r: &mut Self)
        ensures
            *r == (RTDChatTypeSecretBuilder { inner: ChatTypeSecret { user_id: user_id, ..old(self).inner } }),
            *final(self) == *final(r),
    {
        self.inner.user_id = user_id;
        self
    }
}
/// A supergroup or channel (with unlimited members)
#[derive(Debug, PartialEq)]
pub struct ChatTypeSupergroup {
    pub extra: Option<String>,
    /// Supergroup or channel identifier
    pub supergroup_id: i64,
    /// True, if the supergroup is a channel
    pub is_channel: bool,
}

impl ChatTypeSupergroup {
    pub open spec fn tag_spec() -> Seq<char> {
        "chatTypeSupergroup"@
    }

    /// The members of the wire object, in the order they are written.
    pub open spec fn members_spec(self) -> Seq<(Seq<char>, SpecJson)> {
        seq![
            ("@type"@, SpecJson::Str(Self::tag_spec())),
            ("@extra"@, opt_str_tree(opt_str_view(self.extra))),
            ("supergroup_id"@, SpecJson::Num(i64_lex(self.supergroup_id as int))),
            ("is_channel"@, SpecJson::Bool(self.is_channel)),
        ]
    }

    pub open spec fn fields_ok(t: SpecJson) -> bool {
        &&& ok_opt_str(t, "@extra"@)
        &&& ok_i64(t, "supergroup_id"@)
        &&& ok_bool(t, "is_channel"@)
    }

    pub open spec fn fail_field(t: SpecJson) -> Seq<char> {
        if !ok_opt_str(t, "@extra"@) {
            "@extra"@
        } else if !(ok_i64(t, "supergroup_id"@)) {
            "supergroup_id"@
        } else if !(ok_bool(t, "is_channel"@)) {
            "is_channel"@
        } else {
            Seq::empty()
        }
    }

    /// The encoding of a value carries exactly this type's tag.
    pub proof fn lemma_wire_tag(v: ChatTypeSupergroup)
        ensures
            v.wire_tree() matches Some(t) ==> tag_of(t) == Some(ChatTypeSupergroup::tag_spec()),
    {
        if v.wire_tree() is Some {
            let t = v.wire_tree()->0;
            let ms = t->Obj_0;
            lemma_get_spec_found(ms, "@type"@, 0);
        }
    }
}

impl Clone for ChatTypeSupergroup {
    fn clone(&self) -> (res: Self)
        ensures
            res.eqv(*self),
    {
        ChatTypeSupergroup {
            extra: clone_opt_string(&self.extra),
            supergroup_id: self.supergroup_id,
            is_channel: self.is_channel,
        }
    }
}

impl Wire for ChatTypeSupergroup {
    open spec fn wire_tree(self) -> Option<SpecJson> {
        Some(SpecJson::Obj(self.members_spec()))
    }

    open spec fn accepts(t: SpecJson) -> bool {
        tag_of(t) is Some && Self::fields_ok(t)
    }

    open spec fn err_of(t: SpecJson) -> SpecDecodeError {
        match tag_of(t) {
            None => SpecDecodeError::Malformed,
            Some(_) => SpecDecodeError::FieldShapeMismatch(Self::tag_spec(), Self::fail_field(t)),
        }
    }

    open spec fn decodes_from(t: SpecJson, v: Self) -> bool {
        &&& m_opt_str(t, "@extra"@, v.extra)
        &&& m_i64(t, "supergroup_id"@, v.supergroup_id)
        &&& m_bool(t, "is_channel"@, v.is_channel)
    }

    open spec fn eqv(self, other: Self) -> bool {
        &&& eqv_opt_string(self.extra, other.extra)
        &&& self.supergroup_id == other.supergroup_id
        &&& self.is_channel == other.is_channel
    }

    fn clone_val(&self) -> (r: Self) {
        self.clone()
    }

    fn decode_tree(t: &JsonValue) -> (r: Result<Self, DecodeError>) {
        if get_tag(t).is_none() {
            return Err(DecodeError::Malformed);
        }
        let extra = match field_opt_string(t, "@extra") {
            Some(x) => x,
            None => {
                return Err(DecodeError::FieldShapeMismatch(
                    String::from_str("chatTypeSupergroup"),
                    String::from_str("@extra"),
                ));
            },
        };
        let supergroup_id = match field_i64(t, "supergroup_id") {
            Some(x) => x,
            None => {
                return Err(DecodeError::FieldShapeMismatch(
                    String::from_str("chatTypeSupergroup"),
                    String::from_str("supergroup_id"),
                ));
            },
        };
        let is_channel = match field_bool(t, "is_channel") {
            Some(x) => x,
            None => {
                return Err(DecodeError::FieldShapeMismatch(
                    String::from_str("chatTypeSupergroup"),
                    String::from_str("is_channel"),
                ));
            },
        };
        Ok(ChatTypeSupergroup { extra, supergroup_id, is_channel })
    }

    fn encode_tree(&self) -> (r: Result<JsonValue, EncodeError>) {
        let mut members: Vec<JsonMember> = Vec::new();
        proof {
            assert(view_members(members@) =~= Seq::<(Seq<char>, SpecJson)>::empty());
        }
        push_member(&mut members, "@type", JsonValue::Str(String::from_str("chatTypeSupergroup")));
        push_member(&mut members, "@extra", opt_string_tree(&self.extra));
        push_member(&mut members, "supergroup_id", JsonValue::Num(i64_lexeme(self.supergroup_id)));
        push_member(&mut members, "is_channel", JsonValue::Bool(self.is_channel));
        let node = JsonValue::Obj(members);
        proof {
            assert(view_members(members@) =~= self.members_spec());
            assert(node@ == self.wire_tree()->0);
        }
        Ok(node)
    }

    proof fn lemma_wire_wf(v: Self) {
        if v.wire_tree() is Some {
            let t = v.wire_tree()->0;
            let ms = t->Obj_0;
            assert(ms == v.members_spec());
            crate::json::lemma_i64_lex(v.supergroup_id);
            assert forall|i: int| 0 <= i < ms.len() implies wf(#[trigger] ms[i].1) by {
            }
        }
    }

    proof fn lemma_round_trip(v: Self) {
        if v.wire_tree() is Some {
            let t = v.wire_tree()->0;
            let ms = t->Obj_0;
            assert(ms == v.members_spec());
            reveal_strlit("@type");
            reveal_strlit("@extra");
            reveal_strlit("supergroup_id");
            reveal_strlit("is_channel");
            assert("@type"@.len() == 5);
            assert("@extra"@.len() == 6);
            assert("supergroup_id"@.len() == 13);
            assert("is_channel"@.len() == 10);
            reveal_with_fuel(get_spec, 6);
            lemma_get_spec_found(ms, "@type"@, 0);
            lemma_get_spec_found(ms, "@extra"@, 1);
            lemma_get_spec_found(ms, "supergroup_id"@, 2);
            lemma_get_spec_found(ms, "is_channel"@, 3);
            assert(tag_of(t) == Some(Self::tag_spec()));
            assert(ok_opt_str(t, "@extra"@));
            crate::json::lemma_i64_lex(v.supergroup_id);
            assert(ok_i64(t, "supergroup_id"@));
            assert(ok_bool(t, "is_channel"@));
            assert(Self::accepts(t));
            assert forall|w: Self| Self::decodes_from(t, w) implies #[trigger] w.eqv(v) by {
            }
        }
    }
}

impl RObject for ChatTypeSupergroup {
    open spec fn tag_chars(&self) -> Seq<char> {
        Self::tag_spec()
    }

    open spec fn extra_spec(&self) -> Option<Seq<char>> {
        opt_str_view(self.extra)
    }

    fn td_name(&self) -> (r: &'static str) {
        "chatTypeSupergroup"
    }

    fn extra(&self) -> (r: Option<String>) {
        clone_opt_string(&self.extra)
    }

    fn to_json(&self) -> (r: Result<String, EncodeError>) {
        crate::object::encode(self)
    }
}

impl TDChatType for ChatTypeSupergroup {

}

impl ChatTypeSupergroup {
    pub fn from_json(json: &str) -> (r: Result<ChatTypeSupergroup, DecodeError>)
        ensures
            match crate::parse::parse_doc(json@) {
                Some(t) => match r {
                    Ok(v) => Self::accepts(t) && Self::decodes_from(t, v),
                    Err(e) => !Self::accepts(t) && crate::errors::err_matches(e, Self::err_of(t)),
                },
                None => r matches Err(e) && e == DecodeError::Malformed,
            },
    {
        crate::object::from_json::<ChatTypeSupergroup>(json)
    }

    pub fn builder() -> (r: RTDChatTypeSupergroupBuilder)
        ensures
            r.inner.extra is Some,
            r.inner.supergroup_id == 0,
            r.inner.is_channel == false,
    {
        RTDChatTypeSupergroupBuilder {
            inner: ChatTypeSupergroup {
                extra: Some(new_token()),
                supergroup_id: 0,
                is_channel: false,
            },
        }
    }

    pub fn supergroup_id(&self) -> (r: i64)
        ensures
            r == self.supergroup_id,
    {
        self.supergroup_id
    }

    pub fn is_channel(&self) -> (r: bool)
        ensures
            r == self.is_channel,
    {
        self.is_channel
    }
}

pub struct RTDChatTypeSupergroupBuilder {
    pub inner: ChatTypeSupergroup,
}

impl RTDChatTypeSupergroupBuilder {
    pub fn build(&self) -> (r: ChatTypeSupergroup)
        ensures
            r.eqv(self.inner),
    {
        self.inner.clone()
    }

    pub fn supergroup_id(&mut self, supergroup_id: i64) -> (r: &mut Self)
        ensures
            *r == (RTDChatTypeSupergroupBuilder { inner: ChatTypeSupergroup { supergroup_id: supergroup_id, ..old(self).inner } }),
            *final(self) == *final(r),
    {
        self.inner.supergroup_id = supergroup_id;
        self
    }

    pub fn is_channel(&mut self, is_channel: bool) -> (r: &mut Self)
        ensures
            *r == (RTDChatTypeSupergroupBuilder { inner: ChatTypeSupergroup { is_channel: is_channel, ..old(self).inner } }),
            *final(self) == *final(r),
    {
        self.inner.is_channel = is_channel;
        self
    }
}
} // verus!
