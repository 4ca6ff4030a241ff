use vstd::prelude::*;

use crate::errors::DecodeError;
use crate::errors::EncodeError;
use crate::errors::SpecDecodeError;
use crate::json::JsonMember;
use crate::json::JsonValue;
use crate::json::SpecJson;
use crate::json::view_members;
use crate::json::wf;
use crate::object::RObject;
use crate::object::Wire;
use crate::object::clone_opt_string;
use crate::object::eqv_opt_string;
use crate::object::field_bool;
use crate::object::field_opt_string;
use crate::object::field_string;
use crate::object::get_spec;
use crate::object::get_tag;
use crate::object::lemma_get_spec_found;
use crate::object::m_bool;
use crate::object::m_opt_str;
use crate::object::m_str;
use crate::object::new_token;
use crate::object::ok_bool;
use crate::object::ok_opt_str;
use crate::object::ok_str;
use crate::object::opt_str_tree;
use crate::object::opt_str_view;
use crate::object::opt_string_tree;
use crate::object::push_member;
use crate::object::str_eq;
use crate::object::tag_of;

verus! {

/// Represents the type of a user. The following types are possible: regular users, deleted users and bots
pub trait TDUserType: RObject {

}

/// Represents the type of a user. The following types are possible: regular users, deleted users and bots
#[derive(Debug, PartialEq)]
pub enum UserType {
    _Default(()),
    /// A bot (see https://core.telegram.org/bots)
    Bot(UserTypeBot),
    /// A deleted user or deleted bot. No information on the user besides the user identifier is available. It is not possible to perform any active actions on this type of user
    Deleted(UserTypeDeleted),
    /// A regular user
    Regular(UserTypeRegular),
    /// No information on the user besides the user identifier is available, yet this user has not been deleted. This object is extremely rare and must be handled like a deleted user. It is not possible to perform any actions on users of this type
    Unknown(UserTypeUnknown),
}

impl Clone for UserType {
    fn clone(&self) -> (res: Self)
        ensures
            res.eqv(*self),
    {
        match self {
            UserType::_Default(_) => UserType::_Default(()),
            UserType::Bot(x) => UserType::Bot(x.clone()),
            UserType::Deleted(x) => UserType::Deleted(x.clone()),
            UserType::Regular(x) => UserType::Regular(x.clone()),
            UserType::Unknown(x) => UserType::Unknown(x.clone()),
        }
    }
}

impl UserType {
    /// The tags of this variant's alternatives are pairwise distinct.
    pub proof fn lemma_tags_distinct()
        ensures
            "userTypeBot"@ != "userTypeDeleted"@,
            "userTypeBot"@ != "userTypeRegular"@,
            "userTypeBot"@ != "userTypeUnknown"@,
            "userTypeDeleted"@ != "userTypeRegular"@,
            "userTypeDeleted"@ != "userTypeUnknown"@,
            "userTypeRegular"@ != "userTypeUnknown"@,
    {
        reveal_strlit("userTypeBot");
        reveal_strlit("userTypeDeleted");
        reveal_strlit("userTypeRegular");
        reveal_strlit("userTypeUnknown");
        assert("userTypeBot"@.len() == 11);
        assert("userTypeDeleted"@.len() == 15);
        assert("userTypeRegular"@.len() == 15);
        assert("userTypeUnknown"@.len() == 15);
        assert("userTypeDeleted"@[8] == 'D' && "userTypeRegular"@[8] == 'R');
        assert("userTypeDeleted"@[8] == 'D' && "userTypeUnknown"@[8] == 'U');
        assert("userTypeRegular"@[8] == 'R' && "userTypeUnknown"@[8] == 'U');
    }
}

impl Wire for UserType {
    open spec fn wire_tree(self) -> Option<SpecJson> {
        match self {
            UserType::_Default(_) => None,
            UserType::Bot(x) => x.wire_tree(),
            UserType::Deleted(x) => x.wire_tree(),
            UserType::Regular(x) => x.wire_tree(),
            UserType::Unknown(x) => x.wire_tree(),
        }
    }

    open spec fn accepts(t: SpecJson) -> bool {
        match tag_of(t) {
            None => false,
            Some(g) => {
                if g == UserTypeBot::tag_spec() {
                    UserTypeBot::accepts(t)
                } else if g == UserTypeDeleted::tag_spec() {
                    UserTypeDeleted::accepts(t)
                } else if g == UserTypeRegular::tag_spec() {
                    UserTypeRegular::accepts(t)
                } else if g == UserTypeUnknown::tag_spec() {
                    UserTypeUnknown::accepts(t)
                } else {
                    false
                }
            },
        }
    }

    open spec fn err_of(t: SpecJson) -> SpecDecodeError {
        match tag_of(t) {
            None => SpecDecodeError::Malformed,
            Some(g) => {
                if g == UserTypeBot::tag_spec() {
                    UserTypeBot::err_of(t)
                } else if g == UserTypeDeleted::tag_spec() {
                    UserTypeDeleted::err_of(t)
                } else if g == UserTypeRegular::tag_spec() {
                    UserTypeRegular::err_of(t)
                } else if g == UserTypeUnknown::tag_spec() {
                    UserTypeUnknown::err_of(t)
                } else {
                    SpecDecodeError::UnrecognizedVariant(g)
                }
            },
        }
    }

    open spec fn decodes_from(t: SpecJson, v: Self) -> bool {
        match tag_of(t) {
            None => false,
            Some(g) => {
                if g == UserTypeBot::tag_spec() {
                    v matches UserType::Bot(x) && UserTypeBot::decodes_from(t, x)
                } else if g == UserTypeDeleted::tag_spec() {
                    v matches UserType::Deleted(x) && UserTypeDeleted::decodes_from(t, x)
                } else if g == UserTypeRegular::tag_spec() {
                    v matches UserType::Regular(x) && UserTypeRegular::decodes_from(t, x)
                } else if g == UserTypeUnknown::tag_spec() {
                    v matches UserType::Unknown(x) && UserTypeUnknown::decodes_from(t, x)
                } else {
                    false
                }
            },
        }
    }

    open spec fn eqv(self, other: Self) -> bool {
        match (self, other) {
            (UserType::_Default(_), UserType::_Default(_)) => true,
            (UserType::Bot(a), UserType::Bot(b)) => a.eqv(b),
            (UserType::Deleted(a), UserType::Deleted(b)) => a.eqv(b),
            (UserType::Regular(a), UserType::Regular(b)) => a.eqv(b),
            (UserType::Unknown(a), UserType::Unknown(b)) => a.eqv(b),
            _ => false,
        }
    }

    fn clone_val(&self) -> (r: Self) {
        self.clone()
    }

    fn decode_tree(t: &JsonValue) -> (r: Result<Self, DecodeError>) {
        let g = match get_tag(t) {
            Some(g) => g,
            None => {
                return Err(DecodeError::Malformed);
            },
        };
        if str_eq(g.as_str(), "userTypeBot") {
            match UserTypeBot::decode_tree(t) {
                Ok(x) => Ok(UserType::Bot(x)),
                Err(e) => Err(e),
            }
        } else if str_eq(g.as_str(), "userTypeDeleted") {
            match UserTypeDeleted::decode_tree(t) {
                Ok(x) => Ok(UserType::Deleted(x)),
                Err(e) => Err(e),
            }
        } else if str_eq(g.as_str(), "userTypeRegular") {
            match UserTypeRegular::decode_tree(t) {
                Ok(x) => Ok(UserType::Regular(x)),
                Err(e) => Err(e),
            }
        } else if str_eq(g.as_str(), "userTypeUnknown") {
            match UserTypeUnknown::decode_tree(t) {
                Ok(x) => Ok(UserType::Unknown(x)),
                Err(e) => Err(e),
            }
        } else {
            Err(DecodeError::UnrecognizedVariant(g))
        }
    }

    fn encode_tree(&self) -> (r: Result<JsonValue, EncodeError>) {
        match self {
            UserType::_Default(_) => Err(EncodeError::Unrepresentable),
            UserType::Bot(x) => x.encode_tree(),
            UserType::Deleted(x) => x.encode_tree(),
            UserType::Regular(x) => x.encode_tree(),
            UserType::Unknown(x) => x.encode_tree(),
        }
    }

    proof fn lemma_wire_wf(v: Self) {
        match v {
            UserType::_Default(_) => {},
            UserType::Bot(x) => {
                UserTypeBot::lemma_wire_wf(x);
            },
            UserType::Deleted(x) => {
                UserTypeDeleted::lemma_wire_wf(x);
            },
            UserType::Regular(x) => {
                UserTypeRegular::lemma_wire_wf(x);
            },
            UserType::Unknown(x) => {
                UserTypeUnknown::lemma_wire_wf(x);
            },
        }
    }

    proof fn lemma_round_trip(v: Self) {
        Self::lemma_tags_distinct();
        match v {
            UserType::_Default(_) => {},
            UserType::Bot(x) => {
                if x.wire_tree() is Some {
                    let t = x.wire_tree()->0;
                    UserTypeBot::lemma_wire_tag(x);
                    UserTypeBot::lemma_round_trip(x);
                    assert(Self::accepts(t));
                    assert forall|w: Self| Self::decodes_from(t, w) implies #[trigger] w.eqv(v) by {
                        assert(w matches UserType::Bot(xi) && UserTypeBot::decodes_from(t, xi));
                    }
                }
            },
            UserType::Deleted(x) => {
                if x.wire_tree() is Some {
                    let t = x.wire_tree()->0;
                    UserTypeDeleted::lemma_wire_tag(x);
                    UserTypeDeleted::lemma_round_trip(x);
                    assert(Self::accepts(t));
                    assert forall|w: Self| Self::decodes_from(t, w) implies #[trigger] w.eqv(v) by {
                        assert(w matches UserType::Deleted(xi) && UserTypeDeleted::decodes_from(t, xi));
                    }
                }
            },
            UserType::Regular(x) => {
                if x.wire_tree() is Some {
                    let t = x.wire_tree()->0;
                    UserTypeRegular::lemma_wire_tag(x);
                    UserTypeRegular::lemma_round_trip(x);
                    assert(Self::accepts(t));
                    assert forall|w: Self| Self::decodes_from(t, w) implies #[trigger] w.eqv(v) by {
                        assert(w matches UserType::Regular(xi) && UserTypeRegular::decodes_from(t, xi));
                    }
                }
            },
            UserType::Unknown(x) => {
                if x.wire_tree() is Some {
                    let t = x.wire_tree()->0;
                    UserTypeUnknown::lemma_wire_tag(x);
                    UserTypeUnknown::lemma_round_trip(x);
                    assert(Self::accepts(t));
                    assert forall|w: Self| Self::decodes_from(t, w) implies #[trigger] w.eqv(v) by {
                        assert(w matches UserType::Unknown(xi) && UserTypeUnknown::decodes_from(t, xi));
                    }
                }
            },
        }
    }
}

impl RObject for UserType {
    open spec fn tag_chars(&self) -> Seq<char> {
        match self {
            UserType::_Default(_) => "-1"@,
            UserType::Bot(x) => UserTypeBot::tag_spec(),
            UserType::Deleted(x) => UserTypeDeleted::tag_spec(),
            UserType::Regular(x) => UserTypeRegular::tag_spec(),
            UserType::Unknown(x) => UserTypeUnknown::tag_spec(),
        }
    }

    open spec fn extra_spec(&self) -> Option<Seq<char>> {
        match self {
            UserType::_Default(_) => None,
            UserType::Bot(x) => opt_str_view(x.extra),
            UserType::Deleted(x) => opt_str_view(x.extra),
            UserType::Regular(x) => opt_str_view(x.extra),
            UserType::Unknown(x) => opt_str_view(x.extra),
    }
    }

    fn td_name(&self) -> (r: &'static str) {
        match self {
            UserType::_Default(_) => "-1",
            UserType::Bot(x) => x.td_name(),
            UserType::Deleted(x) => x.td_name(),
            UserType::Regular(x) => x.td_name(),
            UserType::Unknown(x) => x.td_name(),
        }
    }

    fn extra(&self) -> (r: Option<String>) {
        match self {
            UserType::_Default(_) => None,
            UserType::Bot(x) => clone_opt_string(&x.extra),
            UserType::Deleted(x) => clone_opt_string(&x.extra),
            UserType::Regular(x) => clone_opt_string(&x.extra),
            UserType::Unknown(x) => clone_opt_string(&x.extra),
        }
    }

    fn to_json(&self) -> (r: Result<String, EncodeError>) {
        crate::object::encode(self)
    }
}

impl UserType {
    pub fn from_json(json: &str) -> (r: Result<UserType, DecodeError>)
        ensures
            match crate::parse::parse_doc(json@) {
                Some(t) => match r {
                    Ok(v) => Self::accepts(t) && Self::decodes_from(t, v),
                    Err(e) => !Self::accepts(t) && crate::errors::err_matches(e, Self::err_of(t)),
                },
                None => r matches Err(e) && e == DecodeError::Malformed,
            },
    {
        crate::object::from_json::<UserType>(json)
    }

    pub fn _is_default(&self) -> (r: bool)
        ensures
            r == (self is _Default),
    {
        match self {
            UserType::_Default(_) => true,
            _ => false,
        }
    }

    pub fn is_bot(&self) -> (r: bool)
        ensures
            r == (self is Bot),
    {
        match self {
            UserType::Bot(_) => true,
            _ => false,
        }
    }

    pub fn is_deleted(&self) -> (r: bool)
        ensures
            r == (self is Deleted),
    {
        match self {
            UserType::Deleted(_) => true,
            _ => false,
        }
    }

    pub fn is_regular(&self) -> (r: bool)
        ensures
            r == (self is Regular),
    {
        match self {
            UserType::Regular(_) => true,
            _ => false,
        }
    }

    pub fn is_unknown(&self) -> (r: bool)
        ensures
            r == (self is Unknown),
    {
        match self {
            UserType::Unknown(_) => true,
            _ => false,
        }
    }

    pub fn as_bot(&self) -> (r: Option<&UserTypeBot>)
        ensures
            (self is Bot) == (r is Some),
            r matches Some(x) ==> *x == self->Bot_0,
    {
        match self {
            UserType::Bot(x) => Some(x),
            _ => None,
        }
    }

    pub fn as_deleted(&self) -> (r: Option<&UserTypeDeleted>)
        ensures
            (self is Deleted) == (r is Some),
            r matches Some(x) ==> *x == self->Deleted_0,
    {
        match self {
            UserType::Deleted(x) => Some(x),
            _ => None,
        }
    }

    pub fn as_regular(&self) -> (r: Option<&UserTypeRegular>)
        ensures
            (self is Regular) == (r is Some),
            r matches Some(x) ==> *x == self->Regular_0,
    {
        match self {
            UserType::Regular(x) => Some(x),
            _ => None,
        }
    }

    pub fn as_unknown(&self) -> (r: Option<&UserTypeUnknown>)
        ensures
            (self is Unknown) == (r is Some),
            r matches Some(x) ==> *x == self->Unknown_0,
    {
        match self {
            UserType::Unknown(x) => Some(x),
            _ => None,
        }
    }

    pub fn bot(t: &UserTypeBot) -> (r: Self)
        ensures
            r matches UserType::Bot(x) && x.eqv(*t),
    {
        UserType::Bot(t.clone())
    }

    pub fn deleted(t: &UserTypeDeleted) -> (r: Self)
        ensures
            r matches UserType::Deleted(x) && x.eqv(*t),
    {
        UserType::Deleted(t.clone())
    }

    pub fn regular(t: &UserTypeRegular) -> (r: Self)
        ensures
            r matches UserType::Regular(x) && x.eqv(*t),
    {
        UserType::Regular(t.clone())
    }

    pub fn unknown(t: &UserTypeUnknown) -> (r: Self)
        ensures
            r matches UserType::Unknown(x) && x.eqv(*t),
    {
        UserType::Unknown(t.clone())
    }
}
/// A bot (see https://core.telegram.org/bots)
#[derive(Debug, PartialEq)]
pub struct UserTypeBot {
    pub extra: Option<String>,
    /// True, if the bot can be invited to basic group and supergroup chats
    pub can_join_groups: bool,
    /// True, if the bot can read all messages in basic group or supergroup chats and not just those addressed to the bot. In private and channel chats a bot can always read all messages
    pub can_read_all_group_messages: bool,
    /// True, if the bot supports inline queries
    pub is_inline: bool,
    /// Placeholder for inline queries (displayed on the application input field)
    pub inline_query_placeholder: String,
    /// True, if the location of the user is expected to be sent with every inline query to this bot
    pub need_location: bool,
}

impl UserTypeBot {
    pub open spec fn tag_spec() -> Seq<char> {
        "userTypeBot"@
    }

    /// The members of the wire object, in the order they are written.
    pub open spec fn members_spec(self) -> Seq<(Seq<char>, SpecJson)> {
        seq![
            ("@type"@, SpecJson::Str(Self::tag_spec())),
            ("@extra"@, opt_str_tree(opt_str_view(self.extra))),
            ("can_join_groups"@, SpecJson::Bool(self.can_join_groups)),
            ("can_read_all_group_messages"@, SpecJson::Bool(self.can_read_all_group_messages)),
            ("is_inline"@, SpecJson::Bool(self.is_inline)),
            ("inline_query_placeholder"@, SpecJson::Str(self.inline_query_placeholder@)),
            ("need_location"@, SpecJson::Bool(self.need_location)),
        ]
    }

    pub open spec fn fields_ok(t: SpecJson) -> bool {
        &&& ok_opt_str(t, "@extra"@)
        &&& ok_bool(t, "can_join_groups"@)
        &&& ok_bool(t, "can_read_all_group_messages"@)
        &&& ok_bool(t, "is_inline"@)
        &&& ok_str(t, "inline_query_placeholder"@)
        &&& ok_bool(t, "need_location"@)
    }

    pub open spec fn fail_field(t: SpecJson) -> Seq<char> {
        if !ok_opt_str(t, "@extra"@) {
            "@extra"@
        } else if !(ok_bool(t, "can_join_groups"@)) {
            "can_join_groups"@
        } else if !(ok_bool(t, "can_read_all_group_messages"@)) {
            "can_read_all_group_messages"@
        } else if !(ok_bool(t, "is_inline"@)) {
            "is_inline"@
        } else if !(ok_str(t, "inline_query_placeholder"@)) {
            "inline_query_placeholder"@
        } else if !(ok_bool(t, "need_location"@)) {
            "need_location"@
        } else {
            Seq::empty()
        }
    }

    /// The encoding of a value carries exactly this type's tag.
    pub proof fn lemma_wire_tag(v: UserTypeBot)
        ensures
            v.wire_tree() matches Some(t) ==> tag_of(t) == Some(UserTypeBot::tag_spec()),
    {
        if v.wire_tree() is Some {
            let t = v.wire_tree()->0;
            let ms = t->Obj_0;
            lemma_get_spec_found(ms, "@type"@, 0);
        }
    }
}

impl Clone for UserTypeBot {
    fn clone(&self) -> (res: Self)
        ensures
            res.eqv(*self),
    {
        UserTypeBot {
            extra: clone_opt_string(&self.extra),
            can_join_groups: self.can_join_groups,
            can_read_all_group_messages: self.can_read_all_group_messages,
            is_inline: self.is_inline,
            inline_query_placeholder: self.inline_query_placeholder.clone(),
            need_location: self.need_location,
        }
    }
}

impl Wire for UserTypeBot {
    open spec fn wire_tree(self) -> Option<SpecJson> {
        Some(SpecJson::Obj(self.members_spec()))
    }

    open spec fn accepts(t: SpecJson) -> bool {
        tag_of(t) is Some && Self::fields_ok(t)
    }

    open spec fn err_of(t: SpecJson) -> SpecDecodeError {
        match tag_of(t) {
            None => SpecDecodeError::Malformed,
            Some(_) => SpecDecodeError::FieldShapeMismatch(Self::tag_spec(), Self::fail_field(t)),
        }
    }

    open spec fn decodes_from(t: SpecJson, v: Self) -> bool {
        &&& m_opt_str(t, "@extra"@, v.extra)
        &&& m_bool(t, "can_join_groups"@, v.can_join_groups)
        &&& m_bool(t, "can_read_all_group_messages"@, v.can_read_all_group_messages)
        &&& m_bool(t, "is_inline"@, v.is_inline)
        &&& m_str(t, "inline_query_placeholder"@, v.inline_query_placeholder@)
        &&& m_bool(t, "need_location"@, v.need_location)
    }

    open spec fn eqv(self, other: Self) -> bool {
        &&& eqv_opt_string(self.extra, other.extra)
        &&& self.can_join_groups == other.can_join_groups
        &&& self.can_read_all_group_messages == other.can_read_all_group_messages
        &&& self.is_inline == other.is_inline
        &&& self.inline_query_placeholder@ == other.inline_query_placeholder@
        &&& self.need_location == other.need_location
    }

    fn clone_val(&self) -> (r: Self) {
        self.clone()
    }

    fn decode_tree(t: &JsonValue) -> (r: Result<Self, DecodeError>) {
        if get_tag(t).is_none() {
            return Err(DecodeError::Malformed);
        }
        let extra = match field_opt_string(t, "@extra") {
            Some(x) => x,
            None => {
                return Err(DecodeError::FieldShapeMismatch(
                    String::from_str("userTypeBot"),
                    String::from_str("@extra"),
                ));
            },
        };
        let can_join_groups = match field_bool(t, "can_join_groups") {
            Some(x) => x,
            None => {
                return Err(DecodeError::FieldShapeMismatch(
                    String::from_str("userTypeBot"),
                    String::from_str("can_join_groups"),
                ));
            },
        };
        let can_read_all_group_messages = match field_bool(t, "can_read_all_group_messages") {
            Some(x) => x,
            None => {
                return Err(DecodeError::FieldShapeMismatch(
                    String::from_str("userTypeBot"),
                    String::from_str("can_read_all_group_messages"),
                ));
            },
        };
        let is_inline = match field_bool(t, "is_inline") {
            Some(x) => x,
            None => {
                return Err(DecodeError::FieldShapeMismatch(
                    String::from_str("userTypeBot"),
                    String::from_str("is_inline"),
                ));
            },
        };
        let inline_query_placeholder = match field_string(t, "inline_query_placeholder") {
            Some(x) => x,
            None => {
                return Err(DecodeError::FieldShapeMismatch(
                    String::from_str("userTypeBot"),
                    String::from_str("inline_query_placeholder"),
                ));
            },
        };
        let need_location = match field_bool(t, "need_location") {
            Some(x) => x,
            None => {
                return Err(DecodeError::FieldShapeMismatch(
                    String::from_str("userTypeBot"),
                    String::from_str("need_location"),
                ));
            },
        };
        Ok(UserTypeBot { extra, can_join_groups, can_read_all_group_messages, is_inline, inline_query_placeholder, need_location })
    }

    fn encode_tree(&self) -> (r: Result<JsonValue, EncodeError>) {
        let mut members: Vec<JsonMember> = Vec::new();
        proof {
            assert(view_members(members@) =~= Seq::<(Seq<char>, SpecJson)>::empty());
        }
        push_member(&mut members, "@type", JsonValue::Str(String::from_str("userTypeBot")));
        push_member(&mut members, "@extra", opt_string_tree(&self.extra));
        push_member(&mut members, "can_join_groups", JsonValue::Bool(self.can_join_groups));
        push_member(&mut members, "can_read_all_group_messages", JsonValue::Bool(self.can_read_all_group_messages));
        push_member(&mut members, "is_inline", JsonValue::Bool(self.is_inline));
        push_member(&mut members, "inline_query_placeholder", JsonValue::Str(self.inline_query_placeholder.clone()));
        push_member(&mut members, "need_location", JsonValue::Bool(self.need_location));
        let node = JsonValue::Obj(members);
        proof {
            assert(view_members(members@) =~= self.members_spec());
            assert(node@ == self.wire_tree()->0);
        }
        Ok(node)
    }

    proof fn lemma_wire_wf(v: Self) {
        if v.wire_tree() is Some {
            let t = v.wire_tree()->0;
            let ms = t->Obj_0;
            assert(ms == v.members_spec());
            assert forall|i: int| 0 <= i < ms.len() implies wf(#[trigger] ms[i].1) by {
            }
        }
    }

    proof fn lemma_round_trip(v: Self) {
        if v.wire_tree() is Some {
            let t = v.wire_tree()->0;
            let ms = t->Obj_0;
            assert(ms == v.members_spec());
            reveal_strlit("@type");
            reveal_strlit("@extra");
            reveal_strlit("can_join_groups");
            reveal_strlit("can_read_all_group_messages");
            reveal_strlit("is_inline");
            reveal_strlit("inline_query_placeholder");
            reveal_strlit("need_location");
            assert("@type"@.len() == 5);
            assert("@extra"@.len() == 6);
            assert("can_join_groups"@.len() == 15);
            assert("can_read_all_group_messages"@.len() == 27);
            assert("is_inline"@.len() == 9);
            assert("inline_query_placeholder"@.len() == 24);
            assert("need_location"@.len() == 13);
            reveal_with_fuel(get_spec, 9);
            lemma_get_spec_found(ms, "@type"@, 0);
            lemma_get_spec_found(ms, "@extra"@, 1);
            lemma_get_spec_found(ms, "can_join_groups"@, 2);
            lemma_get_spec_found(ms, "can_read_all_group_messages"@, 3);
            lemma_get_spec_found(ms, "is_inline"@, 4);
            lemma_get_spec_found(ms, "inline_query_placeholder"@, 5);
            lemma_get_spec_found(ms, "need_location"@, 6);
            assert(tag_of(t) == Some(Self::tag_spec()));
            assert(ok_opt_str(t, "@extra"@));
            assert(ok_bool(t, "can_join_groups"@));
            assert(ok_bool(t, "can_read_all_group_messages"@));
            assert(ok_bool(t, "is_inline"@));
            assert(ok_str(t, "inline_query_placeholder"@));
            assert(ok_bool(t, "need_location"@));
            assert(Self::accepts(t));
            assert forall|w: Self| Self::decodes_from(t, w) implies #[trigger] w.eqv(v) by {
            }
        }
    }
}

impl RObject for UserTypeBot {
    open spec fn tag_chars(&self) -> Seq<char> {
        Self::tag_spec()
    }

    open spec fn extra_spec(&self) -> Option<Seq<char>> {
        opt_str_view(self.extra)
    }

    fn td_name(&self) -> (r: &'static str) {
        "userTypeBot"
    }

    fn extra(&self) -> (r: Option<String>) {
        clone_opt_string(&self.extra)
    }

    fn to_json(&self) -> (r: Result<String, EncodeError>) {
        crate::object::encode(self)
    }
}

impl TDUserType for UserTypeBot {

}

impl UserTypeBot {
    pub fn from_json(json: &str) -> (r: Result<UserTypeBot, DecodeError>)
        ensures
            match crate::parse::parse_doc(json@) {
                Some(t) => match r {
                    Ok(v) => Self::accepts(t) && Self::decodes_from(t, v),
                    Err(e) => !Self::accepts(t) && crate::errors::err_matches(e, Self::err_of(t)),
                },
                None => r matches Err(e) && e == DecodeError::Malformed,
            },
    {
        crate::object::from_json::<UserTypeBot>(json)
    }

    pub fn builder() -> (r: RTDUserTypeBotBuilder)
        ensures
            r.inner.extra is Some,
            r.inner.can_join_groups == false,
            r.inner.can_read_all_group_messages == false,
            r.inner.is_inline == false,
            r.inner.inline_query_placeholder@ == Seq::<char>::empty(),
            r.inner.need_location == false,
    {
        RTDUserTypeBotBuilder {
            inner: UserTypeBot {
                extra: Some(new_token()),
                can_join_groups: false,
                can_read_all_group_messages: false,
                is_inline: false,
                inline_query_placeholder: String::new(),
                need_location: false,
            },
        }
    }

    pub fn can_join_groups(&self) -> (r: bool)
        ensures
            r == self.can_join_groups,
    {
        self.can_join_groups
    }

    pub fn can_read_all_group_messages(&self) -> (r: bool)
        ensures
            r == self.can_read_all_group_messages,
    {
        self.can_read_all_group_messages
    }

    pub fn is_inline(&self) -> (r: bool)
        ensures
            r == self.is_inline,
    {
        self.is_inline
    }

    pub fn inline_query_placeholder(&self) -> (r: &String)
        ensures
            *r == self.inline_query_placeholder,
    {
        &self.inline_query_placeholder
    }

    pub fn need_location(&self) -> (r: bool)
        ensures
            r == self.need_location,
    {
        self.need_location
    }
}

pub struct RTDUserTypeBotBuilder {
    pub inner: UserTypeBot,
}

impl RTDUserTypeBotBuilder {
    pub fn build(&self) -> (r: UserTypeBot)
        ensures
            r.eqv(self.inner),
    {
        self.inner.clone()
    }

    pub fn can_join_groups(&mut self, can_join_groups: bool) -> (r: &mut Self)
        ensures
            *r == (RTDUserTypeBotBuilder { inner: UserTypeBot { can_join_groups: can_join_groups, ..old(self).inner } }),
            *final(self) == *final(r),
    {
        self.inner.can_join_groups = can_join_groups;
        self
    }

    pub fn can_read_all_group_messages(&mut self, can_read_all_group_messages: bool) -> (r: &mut Self)
        ensures
            *r == (RTDUserTypeBotBuilder { inner: UserTypeBot { can_read_all_group_messages: can_read_all_group_messages, ..old(self).inner } }),
            *final(self) == *final(r),
    {
        self.inner.can_read_all_group_messages = can_read_all_group_messages;
        self
    }

    pub fn is_inline(&mut self, is_inline: bool) -> (r: &mut Self)
        ensures
            *r == (RTDUserTypeBotBuilder { inner: UserTypeBot { is_inline: is_inline, ..old(self).inner } }),
            *final(self) == *final(r),
    {
        self.inner.is_inline = is_inline;
        self
    }

    pub fn inline_query_placeholder(&mut self, inline_query_placeholder: String) -> (r: &mut Self)
        ensures
            *r == (RTDUserTypeBotBuilder { inner: UserTypeBot { inline_query_placeholder: inline_query_placeholder, ..old(self).inner } }),
            *final(self) == *final(r),
    {
        self.inner.inline_query_placeholder = inline_query_placeholder;
        self
    }

    pub fn need_location(&mut self, need_location: bool) -> (r: &mut Self)
        ensures
            *r == (RTDUserTypeBotBuilder { inner: UserTypeBot { need_location: need_location, ..old(self).inner } }),
            *final(self) == *final(r),
    {
        self.inner.need_location = need_location;
        self
    }
}
/// A deleted user or deleted bot. No information on the user besides the user identifier is available. It is not possible to perform any active actions on this type of user
#[derive(Debug, PartialEq)]
pub struct UserTypeDeleted {
    pub extra: Option<String>,
}

impl UserTypeDeleted {
    pub open spec fn tag_spec() -> Seq<char> {
        "userTypeDeleted"@
    }

    /// The members of the wire object, in the order they are written.
    pub open spec fn members_spec(self) -> Seq<(Seq<char>, SpecJson)> {
        seq![
            ("@type"@, SpecJson::Str(Self::tag_spec())),
            ("@extra"@, opt_str_tree(opt_str_view(self.extra))),
        ]
    }

    pub open spec fn fields_ok(t: SpecJson) -> bool {
        &&& ok_opt_str(t, "@extra"@)
    }

    pub open spec fn fail_field(t: SpecJson) -> Seq<char> {
        if !ok_opt_str(t, "@extra"@) {
            "@extra"@
        } else {
            Seq::empty()
        }
    }

    /// The encoding of a value carries exactly this type's tag.
    pub proof fn lemma_wire_tag(v: UserTypeDeleted)
        ensures
            v.wire_tree() matches Some(t) ==> tag_of(t) == Some(UserTypeDeleted::tag_spec()),
    {
        if v.wire_tree() is Some {
            let t = v.wire_tree()->0;
            let ms = t->Obj_0;
            lemma_get_spec_found(ms, "@type"@, 0);
        }
    }
}

impl Clone for UserTypeDeleted {
    fn clone(&self) -> (res: Self)
        ensures
            res.eqv(*self),
    {
        UserTypeDeleted {
            extra: clone_opt_string(&self.extra),
        }
    }
}

impl Wire for UserTypeDeleted {
    open spec fn wire_tree(self) -> Option<SpecJson> {
        Some(SpecJson::Obj(self.members_spec()))
    }

    open spec fn accepts(t: SpecJson) -> bool {
        tag_of(t) is Some && Self::fields_ok(t)
    }

    open spec fn err_of(t: SpecJson) -> SpecDecodeError {
        match tag_of(t) {
            None => SpecDecodeError::Malformed,
            Some(_) => SpecDecodeError::FieldShapeMismatch(Self::tag_spec(), Self::fail_field(t)),
        }
    }

    open spec fn decodes_from(t: SpecJson, v: Self) -> bool {
        &&& m_opt_str(t, "@extra"@, v.extra)
    }

    open spec fn eqv(self, other: Self) -> bool {
        &&& eqv_opt_string(self.extra, other.extra)
    }

    fn clone_val(&self) -> (r: Self) {
        self.clone()
    }

    fn decode_tree(t: &JsonValue) -> (r: Result<Self, DecodeError>) {
        if get_tag(t).is_none() {
            return Err(DecodeError::Malformed);
        }
        let extra = match field_opt_string(t, "@extra") {
            Some(x) => x,
            None => {
                return Err(DecodeError::FieldShapeMismatch(
                    String::from_str("userTypeDeleted"),
                    String::from_str("@extra"),
                ));
            },
        };
        Ok(UserTypeDeleted { extra })
    }

    fn encode_tree(&self) -> (r: Result<JsonValue, EncodeError>) {
        let mut members: Vec<JsonMember> = Vec::new();
        proof {
            assert(view_members(members@) =~= Seq::<(Seq<char>, SpecJson)>::empty());
        }
        push_member(&mut members, "@type", JsonValue::Str(String::from_str("userTypeDeleted")));
        push_member(&mut members, "@extra", opt_string_tree(&self.extra));
        let node = JsonValue::Obj(members);
        proof {
            assert(view_members(members@) =~= self.members_spec());
            assert(node@ == self.wire_tree()->0);
        }
        Ok(node)
    }

    proof fn lemma_wire_wf(v: Self) {
        if v.wire_tree() is Some {
            let t = v.wire_tree()->0;
            let ms = t->Obj_0;
            assert(ms == v.members_spec());
            assert forall|i: int| 0 <= i < ms.len() implies wf(#[trigger] ms[i].1) by {
            }
        }
    }

    proof fn lemma_round_trip(v: Self) {
        if v.wire_tree() is Some {
            let t = v.wire_tree()->0;
            let ms = t->Obj_0;
            assert(ms == v.members_spec());
            reveal_strlit("@type");
            reveal_strlit("@extra");
            assert("@type"@.len() == 5);
            assert("@extra"@.len() == 6);
            reveal_with_fuel(get_spec, 4);
            lemma_get_spec_found(ms, "@type"@, 0);
            lemma_get_spec_found(ms, "@extra"@, 1);
            assert(tag_of(t) == Some(Self::tag_spec()));
            assert(ok_opt_str(t, "@extra"@));
            assert(Self::accepts(t));
            assert forall|w: Self| Self::decodes_from(t, w) implies #[trigger] w.eqv(v) by {
            }
        }
    }
}

impl RObject for UserTypeDeleted {
    open spec fn tag_chars(&self) -> Seq<char> {
        Self::tag_spec()
    }

    open spec fn extra_spec(&self) -> Option<Seq<char>> {
        opt_str_view(self.extra)
    }

    fn td_name(&self) -> (r: &'static str) {
        "userTypeDeleted"
    }

    fn extra(&self) -> (r: Option<String>) {
        clone_opt_string(&self.extra)
    }

    fn to_json(&self) -> (r: Result<String, EncodeError>) {
        crate::object::encode(self)
    }
}

impl TDUserType for UserTypeDeleted {

}

impl UserTypeDeleted {
    pub fn from_json(json: &str) -> (r: Result<UserTypeDeleted, DecodeError>)
        ensures
            match crate::parse::parse_doc(json@) {
                Some(t) => match r {
                    Ok(v) => Self::accepts(t) && Self::decodes_from(t, v),
                    Err(e) => !Self::accepts(t) && crate::errors::err_matches(e, Self::err_of(t)),
                },
                None => r matches Err(e) && e == DecodeError::Malformed,
            },
    {
        crate::object::from_json::<UserTypeDeleted>(json)
    }

    pub fn builder() -> (r: RTDUserTypeDeletedBuilder)
        ensures
            r.inner.extra is Some,
    {
        RTDUserTypeDeletedBuilder {
            inner: UserTypeDeleted {
                extra: Some(new_token()),
            },
        }
    }
}

pub struct RTDUserTypeDeletedBuilder {
    pub inner: UserTypeDeleted,
}

impl RTDUserTypeDeletedBuilder {
    pub fn build(&self) -> (r: UserTypeDeleted)
        ensures
            r.eqv(self.inner),
    {
        self.inner.clone()
    }
}
/// A regular user
#[derive(Debug, PartialEq)]
pub struct UserTypeRegular {
    pub extra: Option<String>,
}

impl UserTypeRegular {
    pub open spec fn tag_spec() -> Seq<char> {
        "userTypeRegular"@
    }

    /// The members of the wire object, in the order they are written.
    pub open spec fn members_spec(self) -> Seq<(Seq<char>, SpecJson)> {
        seq![
            ("@type"@, SpecJson::Str(Self::tag_spec())),
            ("@extra"@, opt_str_tree(opt_str_view(self.extra))),
        ]
    }

    pub open spec fn fields_ok(t: SpecJson) -> bool {
        &&& ok_opt_str(t, "@extra"@)
    }

    pub open spec fn fail_field(t: SpecJson) -> Seq<char> {
        if !ok_opt_str(t, "@extra"@) {
            "@extra"@
        } else {
            Seq::empty()
        }
    }

    /// The encoding of a value carries exactly this type's tag.
    pub proof fn lemma_wire_tag(v: UserTypeRegular)
        ensures
            v.wire_tree() matches Some(t) ==> tag_of(t) == Some(UserTypeRegular::tag_spec()),
    {
        if v.wire_tree() is Some {
            let t = v.wire_tree()->0;
            let ms = t->Obj_0;
            lemma_get_spec_found(ms, "@type"@, 0);
        }
    }
}

impl Clone for UserTypeRegular {
    fn clone(&self) -> (res: Self)
        ensures
            res.eqv(*self),
    {
        UserTypeRegular {
            extra: clone_opt_string(&self.extra),
        }
    }
}

impl Wire for UserTypeRegular {
    open spec fn wire_tree(self) -> Option<SpecJson> {
        Some(SpecJson::Obj(self.members_spec()))
    }

    open spec fn accepts(t: SpecJson) -> bool {
        tag_of(t) is Some && Self::fields_ok(t)
    }

    open spec fn err_of(t: SpecJson) -> SpecDecodeError {
        match tag_of(t) {
            None => SpecDecodeError::Malformed,
            Some(_) => SpecDecodeError::FieldShapeMismatch(Self::tag_spec(), Self::fail_field(t)),
        }
    }

    open spec fn decodes_from(t: SpecJson, v: Self) -> bool {
        &&& m_opt_str(t, "@extra"@, v.extra)
    }

    open spec fn eqv(self, other: Self) -> bool {
        &&& eqv_opt_string(self.extra, other.extra)
    }

    fn clone_val(&self) -> (r: Self) {
        self.clone()
    }

    fn decode_tree(t: &JsonValue) -> (r: Result<Self, DecodeError>) {
        if get_tag(t).is_none() {
            return Err(DecodeError::Malformed);
        }
        let extra = match field_opt_string(t, "@extra") {
            Some(x) => x,
            None => {
                return Err(DecodeError::FieldShapeMismatch(
                    String::from_str("userTypeRegular"),
                    String::from_str("@extra"),
                ));
            },
        };
        Ok(UserTypeRegular { extra })
    }

    fn encode_tree(&self) -> (r: Result<JsonValue, EncodeError>) {
        let mut members: Vec<JsonMember> = Vec::new();
        proof {
            assert(view_members(members@) =~= Seq::<(Seq<char>, SpecJson)>::empty());
        }
        push_member(&mut members, "@type", JsonValue::Str(String::from_str("userTypeRegular")));
        push_member(&mut members, "@extra", opt_string_tree(&self.extra));
        let node = JsonValue::Obj(members);
        proof {
            assert(view_members(members@) =~= self.members_spec());
            assert(node@ == self.wire_tree()->0);
        }
        Ok(node)
    }

    proof fn lemma_wire_wf(v: Self) {
        if v.wire_tree() is Some {
            let t = v.wire_tree()->0;
            let ms = t->Obj_0;
            assert(ms == v.members_spec());
            assert forall|i: int| 0 <= i < ms.len() implies wf(#[trigger] ms[i].1) by {
            }
        }
    }

    proof fn lemma_round_trip(v: Self) {
        if v.wire_tree() is Some {
            let t = v.wire_tree()->0;
            let ms = t->Obj_0;
            assert(ms == v.members_spec());
            reveal_strlit("@type");
            reveal_strlit("@extra");
            assert("@type"@.len() == 5);
            assert("@extra"@.len() == 6);
            reveal_with_fuel(get_spec, 4);
            lemma_get_spec_found(ms, "@type"@, 0);
            lemma_get_spec_found(ms, "@extra"@, 1);
            assert(tag_of(t) == Some(Self::tag_spec()));
            assert(ok_opt_str(t, "@extra"@));
            assert(Self::accepts(t));
            assert forall|w: Self| Self::decodes_from(t, w) implies #[trigger] w.eqv(v) by {
            }
        }
    }
}

impl RObject for UserTypeRegular {
    open spec fn tag_chars(&self) -> Seq<char> {
        Self::tag_spec()
    }

    open spec fn extra_spec(&self) -> Option<Seq<char>> {
        opt_str_view(self.extra)
    }

    fn td_name(&self) -> (r: &'static str) {
        "userTypeRegular"
    }

    fn extra(&self) -> (r: Option<String>) {
        clone_opt_string(&self.extra)
    }

    fn to_json(&self) -> (r: Result<String, EncodeError>) {
        crate::object::encode(self)
    }
}

impl TDUserType for UserTypeRegular {

}

impl UserTypeRegular {
    pub fn from_json(json: &str) -> (r: Result<UserTypeRegular, DecodeError>)
        ensures
            match crate::parse::parse_doc(json@) {
                Some(t) => match r {
                    Ok(v) => Self::accepts(t) && Self::decodes_from(t, v),
                    Err(e) => !Self::accepts(t) && crate::errors::err_matches(e, Self::err_of(t)),
                },
                None => r matches Err(e) && e == DecodeError::Malformed,
            },
    {
        crate::object::from_json::<UserTypeRegular>(json)
    }

    pub fn builder() -> (r: RTDUserTypeRegularBuilder)
        ensures
            r.inner.extra is Some,
    {
        RTDUserTypeRegularBuilder {
            inner: UserTypeRegular {
                extra: Some(new_token()),
            },
        }
    }
}

pub struct RTDUserTypeRegularBuilder {
    pub inner: UserTypeRegular,
}

impl RTDUserTypeRegularBuilder {
    pub fn build(&self) -> (r: UserTypeRegular)
        ensures
            r.eqv(self.inner),
    {
        self.inner.clone()
    }
}
/// No information on the user besides the user identifier is available, yet this user has not been deleted. This object is extremely rare and must be handled like a deleted user. It is not possible to perform any actions on users of this type
#[derive(Debug, PartialEq)]
pub struct UserTypeUnknown {
    pub extra: Option<String>,
}

impl UserTypeUnknown {
    pub open spec fn tag_spec() -> Seq<char> {
        "userTypeUnknown"@
    }

    /// The members of the wire object, in the order they are written.
    pub open spec fn members_spec(self) -> Seq<(Seq<char>, SpecJson)> {
        seq![
            ("@type"@, SpecJson::Str(Self::tag_spec())),
            ("@extra"@, opt_str_tree(opt_str_view(self.extra))),
        ]
    }

    pub open spec fn fields_ok(t: SpecJson) -> bool {
        &&& ok_opt_str(t, "@extra"@)
    }

    pub open spec fn fail_field(t: SpecJson) -> Seq<char> {
        if !ok_opt_str(t, "@extra"@) {
            "@extra"@
        } else {
            Seq::empty()
        }
    }

    /// The encoding of a value carries exactly this type's tag.
    pub proof fn lemma_wire_tag(v: UserTypeUnknown)
        ensures
            v.wire_tree() matches Some(t) ==> tag_of(t) == Some(UserTypeUnknown::tag_spec()),
    {
        if v.wire_tree() is Some {
            let t = v.wire_tree()->0;
            let ms = t->Obj_0;
            lemma_get_spec_found(ms, "@type"@, 0);
        }
    }
}

impl Clone for UserTypeUnknown {
    fn clone(&self) -> (res: Self)
        ensures
            res.eqv(*self),
    {
        UserTypeUnknown {
            extra: clone_opt_string(&self.extra),
        }
    }
}

impl Wire for UserTypeUnknown {
    open spec fn wire_tree(self) -> Option<SpecJson> {
        Some(SpecJson::Obj(self.members_spec()))
    }

    open spec fn accepts(t: SpecJson) -> bool {
        tag_of(t) is Some && Self::fields_ok(t)
    }

    open spec fn err_of(t: SpecJson) -> SpecDecodeError {
        match tag_of(t) {
            None => SpecDecodeError::Malformed,
            Some(_) => SpecDecodeError::FieldShapeMismatch(Self::tag_spec(), Self::fail_field(t)),
        }
    }

    open spec fn decodes_from(t: SpecJson, v: Self) -> bool {
        &&& m_opt_str(t, "@extra"@, v.extra)
    }

    open spec fn eqv(self, other: Self) -> bool {
        &&& eqv_opt_string(self.extra, other.extra)
    }

    fn clone_val(&self) -> (r: Self) {
        self.clone()
    }

    fn decode_tree(t: &JsonValue) -> (r: Result<Self, DecodeError>) {
        if get_tag(t).is_none() {
            return Err(DecodeError::Malformed);
        }
        let extra = match field_opt_string(t, "@extra") {
            Some(x) => x,
            None => {
                return Err(DecodeError::FieldShapeMismatch(
                    String::from_str("userTypeUnknown"),
                    String::from_str("@extra"),
                ));
            },
        };
        Ok(UserTypeUnknown { extra })
    }

    fn encode_tree(&self) -> (r: Result<JsonValue, EncodeError>) {
        let mut members: Vec<JsonMember> = Vec::new();
        proof {
            assert(view_members(members@) =~= Seq::<(Seq<char>, SpecJson)>::empty());
        }
        push_member(&mut members, "@type", JsonValue::Str(String::from_str("userTypeUnknown")));
        push_member(&mut members, "@extra", opt_string_tree(&self.extra));
        let node = JsonValue::Obj(members);
        proof {
            assert(view_members(members@) =~= self.members_spec());
            assert(node@ == self.wire_tree()->0);
        }
        Ok(node)
    }

    proof fn lemma_wire_wf(v: Self) {
        if v.wire_tree() is Some {
            let t = v.wire_tree()->0;
            let ms = t->Obj_0;
            assert(ms == v.members_spec());
            assert forall|i: int| 0 <= i < ms.len() implies wf(#[trigger] ms[i].1) by {
            }
        }
    }

    proof fn lemma_round_trip(v: Self) {
        if v.wire_tree() is Some {
            let t = v.wire_tree()->0;
            let ms = t->Obj_0;
            assert(ms == v.members_spec());
            reveal_strlit("@type");
            reveal_strlit("@extra");
            assert("@type"@.len() == 5);
            assert("@extra"@.len() == 6);
            reveal_with_fuel(get_spec, 4);
            lemma_get_spec_found(ms, "@type"@, 0);
            lemma_get_spec_found(ms, "@extra"@, 1);
            assert(tag_of(t) == Some(Self::tag_spec()));
            assert(ok_opt_str(t, "@extra"@));
            assert(Self::accepts(t));
            assert forall|w: Self| Self::decodes_from(t, w) implies #[trigger] w.eqv(v) by {
            }
        }
    }
}

impl RObject for UserTypeUnknown {
    open spec fn tag_chars(&self) -> Seq<char> {
        Self::tag_spec()
    }

    open spec fn extra_spec(&self) -> Option<Seq<char>> {
        opt_str_view(self.extra)
    }

    fn td_name(&self) -> (r: &'static str) {
        "userTypeUnknown"
    }

    fn extra(&self) -> (r: Option<String>) {
        clone_opt_string(&self.extra)
    }

    fn to_json(&self) -> (r: Result<String, EncodeError>) {
        crate::object::encode(self)
    }
}

impl TDUserType for UserTypeUnknown {

}

impl UserTypeUnknown {
    pub fn from_json(json: &str) -> (r: Result<UserTypeUnknown, DecodeError>)
        ensures
            match crate::parse::parse_doc(json@) {
                Some(t) => match r {
                    Ok(v) => Self::accepts(t) && Self::decodes_from(t, v),
                    Err(e) => !Self::accepts(t) && crate::errors::err_matches(e, Self::err_of(t)),
                },
                None => r matches Err(e) && e == DecodeError::Malformed,
            },
    {
        crate::object::from_json::<UserTypeUnknown>(json)
    }

    pub fn builder() -> (r: RTDUserTypeUnknownBuilder)
        ensures
            r.inner.extra is Some,
    {
        RTDUserTypeUnknownBuilder {
            inner: UserTypeUnknown {
                extra: Some(new_token()),
            },
        }
    }
}

pub struct RTDUserTypeUnknownBuilder {
    pub inner: UserTypeUnknown,
}

impl RTDUserTypeUnknownBuilder {
    pub fn build(&self) -> (r: UserTypeUnknown)
        ensures
            r.eqv(self.inner),
    {
        self.inner.clone()
    }
}
} // verus!
