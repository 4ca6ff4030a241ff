use vstd::prelude::*;

use crate::errors::DecodeError;
use crate::errors::EncodeError;
use crate::errors::SpecDecodeError;
use crate::json::JsonMember;
use crate::json::JsonValue;
use crate::json::SpecJson;
use crate::json::i64_lex;
use crate::json::view_members;
use crate::json::wf;
use crate::object::RObject;
use crate::object::Wire;
use crate::object::clone_opt_bool;
use crate::object::clone_opt_string;
use crate::object::eqv_opt_string;
use crate::object::field_bool;
use crate::object::field_i64;
use crate::object::field_opt_bool;
use crate::object::field_opt_string;
use crate::object::field_string;
use crate::object::get_spec;
use crate::object::get_tag;
use crate::object::i64_lexeme;
use crate::object::lemma_get_spec_found;
use crate::object::m_bool;
use crate::object::m_i64;
use crate::object::m_opt_bool;
use crate::object::m_opt_str;
use crate::object::m_str;
use crate::object::new_token;
use crate::object::ok_bool;
use crate::object::ok_i64;
use crate::object::ok_opt_bool;
use crate::object::ok_opt_str;
use crate::object::ok_str;
use crate::object::opt_bool_node;
use crate::object::opt_bool_tree;
use crate::object::opt_str_tree;
use crate::object::opt_str_view;
use crate::object::opt_string_tree;
use crate::object::push_member;
use crate::object::str_eq;
use crate::object::tag_of;

verus! {

/// Provides information about the status of a member in a chat
pub trait TDChatMemberStatus: RObject {

}

/// Provides information about the status of a member in a chat
#[derive(Debug, PartialEq)]
pub enum ChatMemberStatus {
    _Default(()),
    /// The user is a member of the chat and has some additional privileges. In basic groups, administrators can edit and delete messages sent by others, add new members, ban unprivileged members, and manage voice chats. In supergroups and channels, there are more detailed options for administrator privileges
    Administrator(ChatMemberStatusAdministrator),
    /// The user or the chat was banned (and hence is not a member of the chat). Implies the user can't return to the chat, view messages, or be used as a participant identifier to join a voice chat of the chat
    Banned(ChatMemberStatusBanned),
    /// The user is the owner of the chat and has all the administrator privileges
    Creator(ChatMemberStatusCreator),
    /// The user or the chat is not a chat member
    Left(ChatMemberStatusLeft),
    /// The user is a member of the chat, without any additional privileges or restrictions
    Member(ChatMemberStatusMember),
    /// The user is under certain restrictions in the chat. Not supported in basic groups and channels
    Restricted(ChatMemberStatusRestricted),
}

impl Clone for ChatMemberStatus {
    fn clone(&self) -> (res: Self)
        ensures
            res.eqv(*self),
    {
        match self {
            ChatMemberStatus::_Default(_) => ChatMemberStatus::_Default(()),
            ChatMemberStatus::Administrator(x) => ChatMemberStatus::Administrator(x.clone()),
            ChatMemberStatus::Banned(x) => ChatMemberStatus::Banned(x.clone()),
            ChatMemberStatus::Creator(x) => ChatMemberStatus::Creator(x.clone()),
            ChatMemberStatus::Left(x) => ChatMemberStatus::Left(x.clone()),
            ChatMemberStatus::Member(x) => ChatMemberStatus::Member(x.clone()),
            ChatMemberStatus::Restricted(x) => ChatMemberStatus::Restricted(x.clone()),
        }
    }
}

impl ChatMemberStatus {
    /// The tags of this variant's alternatives are pairwise distinct.
    pub proof fn lemma_tags_distinct()
        ensures
            "chatMemberStatusAdministrator"@ != "chatMemberStatusBanned"@,
            "chatMemberStatusAdministrator"@ != "chatMemberStatusCreator"@,
            "chatMemberStatusAdministrator"@ != "chatMemberStatusLeft"@,
            "chatMemberStatusAdministrator"@ != "chatMemberStatusMember"@,
            "chatMemberStatusAdministrator"@ != "chatMemberStatusRestricted"@,
            "chatMemberStatusBanned"@ != "chatMemberStatusCreator"@,
            "chatMemberStatusBanned"@ != "chatMemberStatusLeft"@,
            "chatMemberStatusBanned"@ != "chatMemberStatusMember"@,
            "chatMemberStatusBanned"@ != "chatMemberStatusRestricted"@,
            "chatMemberStatusCreator"@ != "chatMemberStatusLeft"@,
            "chatMemberStatusCreator"@ != "chatMemberStatusMember"@,
            "chatMemberStatusCreator"@ != "chatMemberStatusRestricted"@,
            "chatMemberStatusLeft"@ != "chatMemberStatusMember"@,
            "chatMemberStatusLeft"@ != "chatMemberStatusRestricted"@,
            "chatMemberStatusMember"@ != "chatMemberStatusRestricted"@,
    {
        reveal_strlit("chatMemberStatusAdministrator");
        reveal_strlit("chatMemberStatusBanned");
        reveal_strlit("chatMemberStatusCreator");
        reveal_strlit("chatMemberStatusLeft");
        reveal_strlit("chatMemberStatusMember");
        reveal_strlit("chatMemberStatusRestricted");
        assert("chatMemberStatusAdministrator"@.len() == 29);
        assert("chatMemberStatusBanned"@.len() == 22);
        assert("chatMemberStatusCreator"@.len() == 23);
        assert("chatMemberStatusLeft"@.len() == 20);
        assert("chatMemberStatusMember"@.len() == 22);
        assert("chatMemberStatusRestricted"@.len() == 26);
        assert("chatMemberStatusBanned"@[16] == 'B' && "chatMemberStatusMember"@[16] == 'M');
    }
}

impl Wire for ChatMemberStatus {
    open spec fn wire_tree(self) -> Option<SpecJson> {
        match self {
            ChatMemberStatus::_Default(_) => None,
            ChatMemberStatus::Administrator(x) => x.wire_tree(),
            ChatMemberStatus::Banned(x) => x.wire_tree(),
            ChatMemberStatus::Creator(x) => x.wire_tree(),
            ChatMemberStatus::Left(x) => x.wire_tree(),
            ChatMemberStatus::Member(x) => x.wire_tree(),
            ChatMemberStatus::Restricted(x) => x.wire_tree(),
        }
    }

    open spec fn accepts(t: SpecJson) -> bool {
        match tag_of(t) {
            None => false,
            Some(g) => {
                if g == ChatMemberStatusAdministrator::tag_spec() {
                    ChatMemberStatusAdministrator::accepts(t)
                } else if g == ChatMemberStatusBanned::tag_spec() {
                    ChatMemberStatusBanned::accepts(t)
                } else if g == ChatMemberStatusCreator::tag_spec() {
                    ChatMemberStatusCreator::accepts(t)
                } else if g == ChatMemberStatusLeft::tag_spec() {
                    ChatMemberStatusLeft::accepts(t)
                } else if g == ChatMemberStatusMember::tag_spec() {
                    ChatMemberStatusMember::accepts(t)
                } else if g == ChatMemberStatusRestricted::tag_spec() {
                    ChatMemberStatusRestricted::accepts(t)
                } else {
                    false
                }
            },
        }
    }

    open spec fn err_of(t: SpecJson) -> SpecDecodeError {
        match tag_of(t) {
            None => SpecDecodeError::Malformed,
            Some(g) => {
                if g == ChatMemberStatusAdministrator::tag_spec() {
                    ChatMemberStatusAdministrator::err_of(t)
                } else if g == ChatMemberStatusBanned::tag_spec() {
                    ChatMemberStatusBanned::err_of(t)
                } else if g == ChatMemberStatusCreator::tag_spec() {
                    ChatMemberStatusCreator::err_of(t)
                } else if g == ChatMemberStatusLeft::tag_spec() {
                    ChatMemberStatusLeft::err_of(t)
                } else if g == ChatMemberStatusMember::tag_spec() {
                    ChatMemberStatusMember::err_of(t)
                } else if g == ChatMemberStatusRestricted::tag_spec() {
                    ChatMemberStatusRestricted::err_of(t)
                } else {
                    SpecDecodeError::UnrecognizedVariant(g)
                }
            },
        }
    }

    open spec fn decodes_from(t: SpecJson, v: Self) -> bool {
        match tag_of(t) {
            None => false,
            Some(g) => {
                if g == ChatMemberStatusAdministrator::tag_spec() {
                    v matches ChatMemberStatus::Administrator(x) && ChatMemberStatusAdministrator::decodes_from(t, x)
                } else if g == ChatMemberStatusBanned::tag_spec() {
                    v matches ChatMemberStatus::Banned(x) && ChatMemberStatusBanned::decodes_from(t, x)
                } else if g == ChatMemberStatusCreator::tag_spec() {
                    v matches ChatMemberStatus::Creator(x) && ChatMemberStatusCreator::decodes_from(t, x)
                } else if g == ChatMemberStatusLeft::tag_spec() {
                    v matches ChatMemberStatus::Left(x) && ChatMemberStatusLeft::decodes_from(t, x)
                } else if g == ChatMemberStatusMember::tag_spec() {
                    v matches ChatMemberStatus::Member(x) && ChatMemberStatusMember::decodes_from(t, x)
                } else if g == ChatMemberStatusRestricted::tag_spec() {
                    v matches ChatMemberStatus::Restricted(x) && ChatMemberStatusRestricted::decodes_from(t, x)
                } else {
                    false
                }
            },
        }
    }

    open spec fn eqv(self, other: Self) -> bool {
        match (self, other) {
            (ChatMemberStatus::_Default(_), ChatMemberStatus::_Default(_)) => true,
            (ChatMemberStatus::Administrator(a), ChatMemberStatus::Administrator(b)) => a.eqv(b),
            (ChatMemberStatus::Banned(a), ChatMemberStatus::Banned(b)) => a.eqv(b),
            (ChatMemberStatus::Creator(a), ChatMemberStatus::Creator(b)) => a.eqv(b),
            (ChatMemberStatus::Left(a), ChatMemberStatus::Left(b)) => a.eqv(b),
            (ChatMemberStatus::Member(a), ChatMemberStatus::Member(b)) => a.eqv(b),
            (ChatMemberStatus::Restricted(a), ChatMemberStatus::Restricted(b)) => a.eqv(b),
            _ => false,
        }
    }

    fn clone_val(&self) -> (r: Self) {
        self.clone()
    }

    fn decode_tree(t: &JsonValue) -> (r: Result<Self, DecodeError>) {
        let g = match get_tag(t) {
            Some(g) => g,
            None => {
                return Err(DecodeError::Malformed);
            },
        };
        if str_eq(g.as_str(), "chatMemberStatusAdministrator") {
            match ChatMemberStatusAdministrator::decode_tree(t) {
                Ok(x) => Ok(ChatMemberStatus::Administrator(x)),
                Err(e) => Err(e),
            }
        } else if str_eq(g.as_str(), "chatMemberStatusBanned") {
            match ChatMemberStatusBanned::decode_tree(t) {
                Ok(x) => Ok(ChatMemberStatus::Banned(x)),
                Err(e) => Err(e),
            }
        } else if str_eq(g.as_str(), "chatMemberStatusCreator") {
            match ChatMemberStatusCreator::decode_tree(t) {
                Ok(x) => Ok(ChatMemberStatus::Creator(x)),
                Err(e) => Err(e),
            }
        } else if str_eq(g.as_str(), "chatMemberStatusLeft") {
            match ChatMemberStatusLeft::decode_tree(t) {
                Ok(x) => Ok(ChatMemberStatus::Left(x)),
                Err(e) => Err(e),
            }
        } else if str_eq(g.as_str(), "chatMemberStatusMember") {
            match ChatMemberStatusMember::decode_tree(t) {
                Ok(x) => Ok(ChatMemberStatus::Member(x)),
                Err(e) => Err(e),
            }
        } else if str_eq(g.as_str(), "chatMemberStatusRestricted") {
            match ChatMemberStatusRestricted::decode_tree(t) {
                Ok(x) => Ok(ChatMemberStatus::Restricted(x)),
                Err(e) => Err(e),
            }
        } else {
            Err(DecodeError::UnrecognizedVariant(g))
        }
    }

    fn encode_tree(&self) -> (r: Result<JsonValue, EncodeError>) {
        match self {
            ChatMemberStatus::_Default(_) => Err(EncodeError::Unrepresentable),
            ChatMemberStatus::Administrator(x) => x.encode_tree(),
            ChatMemberStatus::Banned(x) => x.encode_tree(),
            ChatMemberStatus::Creator(x) => x.encode_tree(),
            ChatMemberStatus::Left(x) => x.encode_tree(),
            ChatMemberStatus::Member(x) => x.encode_tree(),
            ChatMemberStatus::Restricted(x) => x.encode_tree(),
        }
    }

    proof fn lemma_wire_wf(v: Self) {
        match v {
            ChatMemberStatus::_Default(_) => {},
            ChatMemberStatus::Administrator(x) => {
                ChatMemberStatusAdministrator::lemma_wire_wf(x);
            },
            ChatMemberStatus::Banned(x) => {
                ChatMemberStatusBanned::lemma_wire_wf(x);
            },
            ChatMemberStatus::Creator(x) => {
                ChatMemberStatusCreator::lemma_wire_wf(x);
            },
            ChatMemberStatus::Left(x) => {
                ChatMemberStatusLeft::lemma_wire_wf(x);
            },
            ChatMemberStatus::Member(x) => {
                ChatMemberStatusMember::lemma_wire_wf(x);
            },
            ChatMemberStatus::Restricted(x) => {
                ChatMemberStatusRestricted::lemma_wire_wf(x);
            },
        }
    }

    proof fn lemma_round_trip(v: Self) {
        Self::lemma_tags_distinct();
        match v {
            ChatMemberStatus::_Default(_) => {},
            ChatMemberStatus::Administrator(x) => {
                if x.wire_tree() is Some {
                    let t = x.wire_tree()->0;
                    ChatMemberStatusAdministrator::lemma_wire_tag(x);
                    ChatMemberStatusAdministrator::lemma_round_trip(x);
                    assert(Self::accepts(t));
                    assert forall|w: Self| Self::decodes_from(t, w) implies #[trigger] w.eqv(v) by {
                        assert(w matches ChatMemberStatus::Administrator(xi) && ChatMemberStatusAdministrator::decodes_from(t, xi));
                    }
                }
            },
            ChatMemberStatus::Banned(x) => {
                if x.wire_tree() is Some {
                    let t = x.wire_tree()->0;
                    ChatMemberStatusBanned::lemma_wire_tag(x);
                    ChatMemberStatusBanned::lemma_round_trip(x);
                    assert(Self::accepts(t));
                    assert forall|w: Self| Self::decodes_from(t, w) implies #[trigger] w.eqv(v) by {
                        assert(w matches ChatMemberStatus::Banned(xi) && ChatMemberStatusBanned::decodes_from(t, xi));
                    }
                }
            },
            ChatMemberStatus::Creator(x) => {
                if x.wire_tree() is Some {
                    let t = x.wire_tree()->0;
                    ChatMemberStatusCreator::lemma_wire_tag(x);
                    ChatMemberStatusCreator::lemma_round_trip(x);
                    assert(Self::accepts(t));
                    assert forall|w: Self| Self::decodes_from(t, w) implies #[trigger] w.eqv(v) by {
                        assert(w matches ChatMemberStatus::Creator(xi) && ChatMemberStatusCreator::decodes_from(t, xi));
                    }
                }
            },
            ChatMemberStatus::Left(x) => {
                if x.wire_tree() is Some {
                    let t = x.wire_tree()->0;
                    ChatMemberStatusLeft::lemma_wire_tag(x);
                    ChatMemberStatusLeft::lemma_round_trip(x);
                    assert(Self::accepts(t));
                    assert forall|w: Self| Self::decodes_from(t, w) implies #[trigger] w.eqv(v) by {
                        assert(w matches ChatMemberStatus::Left(xi) && ChatMemberStatusLeft::decodes_from(t, xi));
                    }
                }
            },
            ChatMemberStatus::Member(x) => {
                if x.wire_tree() is Some {
                    let t = x.wire_tree()->0;
                    ChatMemberStatusMember::lemma_wire_tag(x);
                    ChatMemberStatusMember::lemma_round_trip(x);
                    assert(Self::accepts(t));
                    assert forall|w: Self| Self::decodes_from(t, w) implies #[trigger] w.eqv(v) by {
                        assert(w matches ChatMemberStatus::Member(xi) && ChatMemberStatusMember::decodes_from(t, xi));
                    }
                }
            },
            ChatMemberStatus::Restricted(x) => {
                if x.wire_tree() is Some {
                    let t = x.wire_tree()->0;
                    ChatMemberStatusRestricted::lemma_wire_tag(x);
                    ChatMemberStatusRestricted::lemma_round_trip(x);
                    assert(Self::accepts(t));
                    assert forall|w: Self| Self::decodes_from(t, w) implies #[trigger] w.eqv(v) by {
                        assert(w matches ChatMemberStatus::Restricted(xi) && ChatMemberStatusRestricted::decodes_from(t, xi));
                    }
                }
            },
        }
    }
}

impl RObject for ChatMemberStatus {
    open spec fn tag_chars(&self) -> Seq<char> {
        match self {
            ChatMemberStatus::_Default(_) => "-1"@,
            ChatMemberStatus::Administrator(x) => ChatMemberStatusAdministrator::tag_spec(),
            ChatMemberStatus::Banned(x) => ChatMemberStatusBanned::tag_spec(),
            ChatMemberStatus::Creator(x) => ChatMemberStatusCreator::tag_spec(),
            ChatMemberStatus::Left(x) => ChatMemberStatusLeft::tag_spec(),
            ChatMemberStatus::Member(x) => ChatMemberStatusMember::tag_spec(),
            ChatMemberStatus::Restricted(x) => ChatMemberStatusRestricted::tag_spec(),
        }
    }

    open spec fn extra_spec(&self) -> Option<Seq<char>> {
        match self {
            ChatMemberStatus::_Default(_) => None,
            ChatMemberStatus::Administrator(x) => opt_str_view(x.extra),
            ChatMemberStatus::Banned(x) => opt_str_view(x.extra),
            ChatMemberStatus::Creator(x) => opt_str_view(x.extra),
            ChatMemberStatus::Left(x) => opt_str_view(x.extra),
            ChatMemberStatus::Member(x) => opt_str_view(x.extra),
            ChatMemberStatus::Restricted(x) => opt_str_view(x.extra),
    }
    }

    fn td_name(&self) -> (r: &'static str) {
        match self {
            ChatMemberStatus::_Default(_) => "-1",
            ChatMemberStatus::Administrator(x) => x.td_name(),
            ChatMemberStatus::Banned(x) => x.td_name(),
            ChatMemberStatus::Creator(x) => x.td_name(),
            ChatMemberStatus::Left(x) => x.td_name(),
            ChatMemberStatus::Member(x) => x.td_name(),
            ChatMemberStatus::Restricted(x) => x.td_name(),
        }
    }

    fn extra(&self) -> (r: Option<String>) {
        match self {
            ChatMemberStatus::_Default(_) => None,
            ChatMemberStatus::Administrator(x) => clone_opt_string(&x.extra),
            ChatMemberStatus::Banned(x) => clone_opt_string(&x.extra),
            ChatMemberStatus::Creator(x) => clone_opt_string(&x.extra),
            ChatMemberStatus::Left(x) => clone_opt_string(&x.extra),
            ChatMemberStatus::Member(x) => clone_opt_string(&x.extra),
            ChatMemberStatus::Restricted(x) => clone_opt_string(&x.extra),
        }
    }

    fn to_json(&self) -> (r: Result<String, EncodeError>) {
        crate::object::encode(self)
    }
}

impl ChatMemberStatus {
    pub fn from_json(json: &str) -> (r: Result<ChatMemberStatus, DecodeError>)
        ensures
            match crate::parse::parse_doc(json@) {
                Some(t) => match r {
                    Ok(v) => Self::accepts(t) && Self::decodes_from(t, v),
                    Err(e) => !Self::accepts(t) && crate::errors::err_matches(e, Self::err_of(t)),
                },
                None => r matches Err(e) && e == DecodeError::Malformed,
            },
    {
        crate::object::from_json::<ChatMemberStatus>(json)
    }

    pub fn _is_default(&self) -> (r: bool)
        ensures
            r == (self is _Default),
    {
        match self {
            ChatMemberStatus::_Default(_) => true,
            _ => false,
        }
    }

    pub fn is_administrator(&self) -> (r: bool)
        ensures
            r == (self is Administrator),
    {
        match self {
            ChatMemberStatus::Administrator(_) => true,
            _ => false,
        }
    }

    pub fn is_banned(&self) -> (r: bool)
        ensures
            r == (self is Banned),
    {
        match self {
            ChatMemberStatus::Banned(_) => true,
            _ => false,
        }
    }

    pub fn is_creator(&self) -> (r: bool)
        ensures
            r == (self is Creator),
    {
        match self {
            ChatMemberStatus::Creator(_) => true,
            _ => false,
        }
    }

    pub fn is_left(&self) -> (r: bool)
        ensures
            r == (self is Left),
    {
        match self {
            ChatMemberStatus::Left(_) => true,
            _ => false,
        }
    }

    pub fn is_member(&self) -> (r: bool)
        ensures
            r == (self is Member),
    {
        match self {
            ChatMemberStatus::Member(_) => true,
            _ => false,
        }
    }

    pub fn is_restricted(&self) -> (r: bool)
        ensures
            r == (self is Restricted),
    {
        match self {
            ChatMemberStatus::Restricted(_) => true,
            _ => false,
        }
    }

    pub fn as_administrator(&self) -> (r: Option<&ChatMemberStatusAdministrator>)
        ensures
            (self is Administrator) == (r is Some),
            r matches Some(x) ==> *x == self->Administrator_0,
    {
        match self {
            ChatMemberStatus::Administrator(x) => Some(x),
            _ => None,
        }
    }

    pub fn as_banned(&self) -> (r: Option<&ChatMemberStatusBanned>)
        ensures
            (self is Banned) == (r is Some),
            r matches Some(x) ==> *x == self->Banned_0,
    {
        match self {
            ChatMemberStatus::Banned(x) => Some(x),
            _ => None,
        }
    }

    pub fn as_creator(&self) -> (r: Option<&ChatMemberStatusCreator>)
        ensures
            (self is Creator) == (r is Some),
            r matches Some(x) ==> *x == self->Creator_0,
    {
        match self {
            ChatMemberStatus::Creator(x) => Some(x),
            _ => None,
        }
    }

    pub fn as_left(&self) -> (r: Option<&ChatMemberStatusLeft>)
        ensures
            (self is Left) == (r is Some),
            r matches Some(x) ==> *x == self->Left_0,
    {
        match self {
            ChatMemberStatus::Left(x) => Some(x),
            _ => None,
        }
    }

    pub fn as_member(&self) -> (r: Option<&ChatMemberStatusMember>)
        ensures
            (self is Member) == (r is Some),
            r matches Some(x) ==> *x == self->Member_0,
    {
        match self {
            ChatMemberStatus::Member(x) => Some(x),
            _ => None,
        }
    }

    pub fn as_restricted(&self) -> (r: Option<&ChatMemberStatusRestricted>)
        ensures
            (self is Restricted) == (r is Some),
            r matches Some(x) ==> *x == self->Restricted_0,
    {
        match self {
            ChatMemberStatus::Restricted(x) => Some(x),
            _ => None,
        }
    }

    pub fn administrator(t: &ChatMemberStatusAdministrator) -> (r: Self)
        ensures
            r matches ChatMemberStatus::Administrator(x) && x.eqv(*t),
    {
        ChatMemberStatus::Administrator(t.clone())
    }

    pub fn banned(t: &ChatMemberStatusBanned) -> (r: Self)
        ensures
            r matches ChatMemberStatus::Banned(x) && x.eqv(*t),
    {
        ChatMemberStatus::Banned(t.clone())
    }

    pub fn creator(t: &ChatMemberStatusCreator) -> (r: Self)
        ensures
            r matches ChatMemberStatus::Creator(x) && x.eqv(*t),
    {
        ChatMemberStatus::Creator(t.clone())
    }

    pub fn left(t: &ChatMemberStatusLeft) -> (r: Self)
        ensures
            r matches ChatMemberStatus::Left(x) && x.eqv(*t),
    {
        ChatMemberStatus::Left(t.clone())
    }

    pub fn member(t: &ChatMemberStatusMember) -> (r: Self)
        ensures
            r matches ChatMemberStatus::Member(x) && x.eqv(*t),
    {
        ChatMemberStatus::Member(t.clone())
    }

    pub fn restricted(t: &ChatMemberStatusRestricted) -> (r: Self)
        ensures
            r matches ChatMemberStatus::Restricted(x) && x.eqv(*t),
    {
        ChatMemberStatus::Restricted(t.clone())
    }
}
/// The user is a member of the chat and has some additional privileges. In basic groups, administrators can edit and delete messages sent by others, add new members, ban unprivileged members, and manage voice chats. In supergroups and channels, there are more detailed options for administrator privileges
#[derive(Debug, PartialEq)]
pub struct ChatMemberStatusAdministrator {
    pub extra: Option<String>,
    /// A custom title of the administrator; 0-16 characters without emojis; applicable to supergroups only
    pub custom_title: String,
    /// True, if the current user can edit the administrator privileges for the called user
    pub can_be_edited: bool,
    /// True, if the administrator can get chat event log, get chat statistics, get message statistics in channels, get channel members, see anonymous administrators in supergroups and ignore slow mode. Implied by any other privilege; applicable to supergroups and channels only
    pub can_manage_chat: Option<bool>,
    /// True, if the administrator can change the chat title, photo, and other settings
    pub can_change_info: bool,
    /// True, if the administrator can create channel posts; applicable to channels only
    pub can_post_messages: bool,
    /// True, if the administrator can edit messages of other users and pin messages; applicable to channels only
    pub can_edit_messages: bool,
    /// True, if the administrator can delete messages of other users
    pub can_delete_messages: bool,
    /// True, if the administrator can invite new users to the chat
    pub can_invite_users: bool,
    /// True, if the administrator can restrict, ban, or unban chat members; always true for channels
    pub can_restrict_members: bool,
    /// True, if the administrator can pin messages; applicable to basic groups and supergroups only
    pub can_pin_messages: bool,
    /// True, if the administrator can add new administrators with a subset of their own privileges or demote administrators that were directly or indirectly promoted by them
    pub can_promote_members: bool,
    /// True, if the administrator can manage voice chats
    pub can_manage_voice_chats: Option<bool>,
    /// True, if the administrator isn't shown in the chat member list and sends messages anonymously; applicable to supergroups only
    pub is_anonymous: bool,
}

impl ChatMemberStatusAdministrator {
    pub open spec fn tag_spec() -> Seq<char> {
        "chatMemberStatusAdministrator"@
    }

    /// The members of the wire object, in the order they are written.
    pub open spec fn members_spec(self) -> Seq<(Seq<char>, SpecJson)> {
        seq![
            ("@type"@, SpecJson::Str(Self::tag_spec())),
            ("@extra"@, opt_str_tree(opt_str_view(self.extra))),
            ("custom_title"@, SpecJson::Str(self.custom_title@)),
            ("can_be_edited"@, SpecJson::Bool(self.can_be_edited)),
            ("can_manage_chat"@, opt_bool_tree(self.can_manage_chat)),
            ("can_change_info"@, SpecJson::Bool(self.can_change_info)),
            ("can_post_messages"@, SpecJson::Bool(self.can_post_messages)),
            ("can_edit_messages"@, SpecJson::Bool(self.can_edit_messages)),
            ("can_delete_messages"@, SpecJson::Bool(self.can_delete_messages)),
            ("can_invite_users"@, SpecJson::Bool(self.can_invite_users)),
            ("can_restrict_members"@, SpecJson::Bool(self.can_restrict_members)),
            ("can_pin_messages"@, SpecJson::Bool(self.can_pin_messages)),
            ("can_promote_members"@, SpecJson::Bool(self.can_promote_members)),
            ("can_manage_voice_chats"@, opt_bool_tree(self.can_manage_voice_chats)),
            ("is_anonymous"@, SpecJson::Bool(self.is_anonymous)),
        ]
    }

    pub open spec fn fields_ok(t: SpecJson) -> bool {
        &&& ok_opt_str(t, "@extra"@)
        &&& ok_str(t, "custom_title"@)
        &&& ok_bool(t, "can_be_edited"@)
        &&& ok_opt_bool(t, "can_manage_chat"@)
        &&& ok_bool(t, "can_change_info"@)
        &&& ok_bool(t, "can_post_messages"@)
        &&& ok_bool(t, "can_edit_messages"@)
        &&& ok_bool(t, "can_delete_messages"@)
        &&& ok_bool(t, "can_invite_users"@)
        &&& ok_bool(t, "can_restrict_members"@)
        &&& ok_bool(t, "can_pin_messages"@)
        &&& ok_bool(t, "can_promote_members"@)
        &&& ok_opt_bool(t, "can_manage_voice_chats"@)
        &&& ok_bool(t, "is_anonymous"@)
    }

    pub open spec fn fail_field(t: SpecJson) -> Seq<char> {
        if !ok_opt_str(t, "@extra"@) {
            "@extra"@
        } else if !(ok_str(t, "custom_title"@)) {
            "custom_title"@
        } else if !(ok_bool(t, "can_be_edited"@)) {
            "can_be_edited"@
        } else if !(ok_opt_bool(t, "can_manage_chat"@)) {
            "can_manage_chat"@
        } else if !(ok_bool(t, "can_change_info"@)) {
            "can_change_info"@
        } else if !(ok_bool(t, "can_post_messages"@)) {
            "can_post_messages"@
        } else if !(ok_bool(t, "can_edit_messages"@)) {
            "can_edit_messages"@
        } else if !(ok_bool(t, "can_delete_messages"@)) {
            "can_delete_messages"@
        } else if !(ok_bool(t, "can_invite_users"@)) {
            "can_invite_users"@
        } else if !(ok_bool(t, "can_restrict_members"@)) {
            "can_restrict_members"@
        } else if !(ok_bool(t, "can_pin_messages"@)) {
            "can_pin_messages"@
        } else if !(ok_bool(t, "can_promote_members"@)) {
            "can_promote_members"@
        } else if !(ok_opt_bool(t, "can_manage_voice_chats"@)) {
            "can_manage_voice_chats"@
        } else if !(ok_bool(t, "is_anonymous"@)) {
            "is_anonymous"@
        } else {
            Seq::empty()
        }
    }

    /// The encoding of a value carries exactly this type's tag.
    pub proof fn lemma_wire_tag(v: ChatMemberStatusAdministrator)
        ensures
            v.wire_tree() matches Some(t) ==> tag_of(t) == Some(ChatMemberStatusAdministrator::tag_spec()),
    {
        if v.wire_tree() is Some {
            let t = v.wire_tree()->0;
            let ms = t->Obj_0;
            lemma_get_spec_found(ms, "@type"@, 0);
        }
    }
}

impl Clone for ChatMemberStatusAdministrator {
    fn clone(&self) -> (res: Self)
        ensures
            res.eqv(*self),
    {
        ChatMemberStatusAdministrator {
            extra: clone_opt_string(&self.extra),
            custom_title: self.custom_title.clone(),
            can_be_edited: self.can_be_edited,
            can_manage_chat: clone_opt_bool(&self.can_manage_chat),
            can_change_info: self.can_change_info,
            can_post_messages: self.can_post_messages,
            can_edit_messages: self.can_edit_messages,
            can_delete_messages: self.can_delete_messages,
            can_invite_users: self.can_invite_users,
            can_restrict_members: self.can_restrict_members,
            can_pin_messages: self.can_pin_messages,
            can_promote_members: self.can_promote_members,
            can_manage_voice_chats: clone_opt_bool(&self.can_manage_voice_chats),
            is_anonymous: self.is_anonymous,
        }
    }
}

impl Wire for ChatMemberStatusAdministrator {
    open spec fn wire_tree(self) -> Option<SpecJson> {
        Some(SpecJson::Obj(self.members_spec()))
    }

    open spec fn accepts(t: SpecJson) -> bool {
        tag_of(t) is Some && Self::fields_ok(t)
    }

    open spec fn err_of(t: SpecJson) -> SpecDecodeError {
        match tag_of(t) {
            None => SpecDecodeError::Malformed,
            Some(_) => SpecDecodeError::FieldShapeMismatch(Self::tag_spec(), Self::fail_field(t)),
        }
    }

    open spec fn decodes_from(t: SpecJson, v: Self) -> bool {
        &&& m_opt_str(t, "@extra"@, v.extra)
        &&& m_str(t, "custom_title"@, v.custom_title@)
        &&& m_bool(t, "can_be_edited"@, v.can_be_edited)
        &&& m_opt_bool(t, "can_manage_chat"@, v.can_manage_chat)
        &&& m_bool(t, "can_change_info"@, v.can_change_info)
        &&& m_bool(t, "can_post_messages"@, v.can_post_messages)
        &&& m_bool(t, "can_edit_messages"@, v.can_edit_messages)
        &&& m_bool(t, "can_delete_messages"@, v.can_delete_messages)
        &&& m_bool(t, "can_invite_users"@, v.can_invite_users)
        &&& m_bool(t, "can_restrict_members"@, v.can_restrict_members)
        &&& m_bool(t, "can_pin_messages"@, v.can_pin_messages)
        &&& m_bool(t, "can_promote_members"@, v.can_promote_members)
        &&& m_opt_bool(t, "can_manage_voice_chats"@, v.can_manage_voice_chats)
        &&& m_bool(t, "is_anonymous"@, v.is_anonymous)
    }

    open spec fn eqv(self, other: Self) -> bool {
        &&& eqv_opt_string(self.extra, other.extra)
        &&& self.custom_title@ == other.custom_title@
        &&& self.can_be_edited == other.can_be_edited
        &&& self.can_manage_chat == other.can_manage_chat
        &&& self.can_change_info == other.can_change_info
        &&& self.can_post_messages == other.can_post_messages
        &&& self.can_edit_messages == other.can_edit_messages
        &&& self.can_delete_messages == other.can_delete_messages
        &&& self.can_invite_users == other.can_invite_users
        &&& self.can_restrict_members == other.can_restrict_members
        &&& self.can_pin_messages == other.can_pin_messages
        &&& self.can_promote_members == other.can_promote_members
        &&& self.can_manage_voice_chats == other.can_manage_voice_chats
        &&& self.is_anonymous == other.is_anonymous
    }

    fn clone_val(&self) -> (r: Self) {
        self.clone()
    }

    #[verifier::rlimit(60)]
    #[verifier::spinoff_prover]
    fn decode_tree(t: &JsonValue) -> (r: Result<Self, DecodeError>) {
        if get_tag(t).is_none() {
            return Err(DecodeError::Malformed);
        }
        let extra = match field_opt_string(t, "@extra") {
            Some(x) => x,
            None => {
                return Err(DecodeError::FieldShapeMismatch(
                    String::from_str("chatMemberStatusAdministrator"),
                    String::from_str("@extra"),
                ));
            },
        };
        let custom_title = match field_string(t, "custom_title") {
            Some(x) => x,
            None => {
                return Err(DecodeError::FieldShapeMismatch(
                    String::from_str("chatMemberStatusAdministrator"),
                    String::from_str("custom_title"),
                ));
            },
        };
        let can_be_edited = match field_bool(t, "can_be_edited") {
            Some(x) => x,
            None => {
                return Err(DecodeError::FieldShapeMismatch(
                    String::from_str("chatMemberStatusAdministrator"),
                    String::from_str("can_be_edited"),
                ));
            },
        };
        let can_manage_chat = match field_opt_bool(t, "can_manage_chat") {
            Some(x) => x,
            None => {
                return Err(DecodeError::FieldShapeMismatch(
                    String::from_str("chatMemberStatusAdministrator"),
                    String::from_str("can_manage_chat"),
                ));
            },
        };
        let can_change_info = match field_bool(t, "can_change_info") {
            Some(x) => x,
            None => {
                return Err(DecodeError::FieldShapeMismatch(
                    String::from_str("chatMemberStatusAdministrator"),
                    String::from_str("can_change_info"),
                ));
            },
        };
        let can_post_messages = match field_bool(t, "can_post_messages") {
            Some(x) => x,
            None => {
                return Err(DecodeError::FieldShapeMismatch(
                    String::from_str("chatMemberStatusAdministrator"),
                    String::from_str("can_post_messages"),
                ));
            },
        };
        let can_edit_messages = match field_bool(t, "can_edit_messages") {
            Some(x) => x,
            None => {
                return Err(DecodeError::FieldShapeMismatch(
                    String::from_str("chatMemberStatusAdministrator"),
                    String::from_str("can_edit_messages"),
                ));
            },
        };
        let can_delete_messages = match field_bool(t, "can_delete_messages") {
            Some(x) => x,
            None => {
                return Err(DecodeError::FieldShapeMismatch(
                    String::from_str("chatMemberStatusAdministrator"),
                    String::from_str("can_delete_messages"),
                ));
            },
        };
        let can_invite_users = match field_bool(t, "can_invite_users") {
            Some(x) => x,
            None => {
                return Err(DecodeError::FieldShapeMismatch(
                    String::from_str("chatMemberStatusAdministrator"),
                    String::from_str("can_invite_users"),
                ));
            },
        };
        let can_restrict_members = match field_bool(t, "can_restrict_members") {
            Some(x) => x,
            None => {
                return Err(DecodeError::FieldShapeMismatch(
                    String::from_str("chatMemberStatusAdministrator"),
                    String::from_str("can_restrict_members"),
                ));
            },
        };
        let can_pin_messages = match field_bool(t, "can_pin_messages") {
            Some(x) => x,
            None => {
                return Err(DecodeError::FieldShapeMismatch(
                    String::from_str("chatMemberStatusAdministrator"),
                    String::from_str("can_pin_messages"),
                ));
            },
        };
        let can_promote_members = match field_bool(t, "can_promote_members") {
            Some(x) => x,
            None => {
                return Err(DecodeError::FieldShapeMismatch(
                    String::from_str("chatMemberStatusAdministrator"),
                    String::from_str("can_promote_members"),
                ));
            },
        };
        let can_manage_voice_chats = match field_opt_bool(t, "can_manage_voice_chats") {
            Some(x) => x,
            None => {
                return Err(DecodeError::FieldShapeMismatch(
                    String::from_str("chatMemberStatusAdministrator"),
                    String::from_str("can_manage_voice_chats"),
                ));
            },
        };
        let is_anonymous = match field_bool(t, "is_anonymous") {
            Some(x) => x,
            None => {
                return Err(DecodeError::FieldShapeMismatch(
                    String::from_str("chatMemberStatusAdministrator"),
                    String::from_str("is_anonymous"),
                ));
            },
        };
        Ok(ChatMemberStatusAdministrator { extra, custom_title, can_be_edited, can_manage_chat, can_change_info, can_post_messages, can_edit_messages, can_delete_messages, can_invite_users, can_restrict_members, can_pin_messages, can_promote_members, can_manage_voice_chats, is_anonymous })
    }

    #[verifier::rlimit(60)]
    #[verifier::spinoff_prover]
    fn encode_tree(&self) -> (r: Result<JsonValue, EncodeError>) {
        let mut members: Vec<JsonMember> = Vec::new();
        proof {
            assert(view_members(members@) =~= Seq::<(Seq<char>, SpecJson)>::empty());
        }
        push_member(&mut members, "@type", JsonValue::Str(String::from_str("chatMemberStatusAdministrator")));
        push_member(&mut members, "@extra", opt_string_tree(&self.extra));
        push_member(&mut members, "custom_title", JsonValue::Str(self.custom_title.clone()));
        push_member(&mut members, "can_be_edited", JsonValue::Bool(self.can_be_edited));
        proof {
            assert(view_members(members@) =~= self.members_spec().take(4));
        }
        push_member(&mut members, "can_manage_chat", opt_bool_node(&self.can_manage_chat));
        push_member(&mut members, "can_change_info", JsonValue::Bool(self.can_change_info));
        push_member(&mut members, "can_post_messages", JsonValue::Bool(self.can_post_messages));
        push_member(&mut members, "can_edit_messages", JsonValue::Bool(self.can_edit_messages));
        proof {
            assert(view_members(members@) =~= self.members_spec().take(8));
        }
        push_member(&mut members, "can_delete_messages", JsonValue::Bool(self.can_delete_messages));
        push_member(&mut members, "can_invite_users", JsonValue::Bool(self.can_invite_users));
        push_member(&mut members, "can_restrict_members", JsonValue::Bool(self.can_restrict_members));
        push_member(&mut members, "can_pin_messages", JsonValue::Bool(self.can_pin_messages));
        proof {
            assert(view_members(members@) =~= self.members_spec().take(12));
        }
        push_member(&mut members, "can_promote_members", JsonValue::Bool(self.can_promote_members));
        push_member(&mut members, "can_manage_voice_chats", opt_bool_node(&self.can_manage_voice_chats));
        push_member(&mut members, "is_anonymous", JsonValue::Bool(self.is_anonymous));
        let node = JsonValue::Obj(members);
        proof {
            assert(view_members(members@) =~= self.members_spec());
            assert(node@ == self.wire_tree()->0);
        }
        Ok(node)
    }

    proof fn lemma_wire_wf(v: Self) {
        if v.wire_tree() is Some {
            let t = v.wire_tree()->0;
            let ms = t->Obj_0;
            assert(ms == v.members_spec());
            assert forall|i: int| 0 <= i < ms.len() implies wf(#[trigger] ms[i].1) by {
            }
        }
    }

    #[verifier::rlimit(60)]
    #[verifier::spinoff_prover]
    proof fn lemma_round_trip(v: Self) {
        if v.wire_tree() is Some {
            let t = v.wire_tree()->0;
            let ms = t->Obj_0;
            assert(ms == v.members_spec());
            reveal_strlit("@type");
            reveal_strlit("@extra");
            reveal_strlit("custom_title");
            reveal_strlit("can_be_edited");
            reveal_strlit("can_manage_chat");
            reveal_strlit("can_change_info");
            reveal_strlit("can_post_messages");
            reveal_strlit("can_edit_messages");
            reveal_strlit("can_delete_messages");
            reveal_strlit("can_invite_users");
            reveal_strlit("can_restrict_members");
            reveal_strlit("can_pin_messages");
            reveal_strlit("can_promote_members");
            reveal_strlit("can_manage_voice_chats");
            reveal_strlit("is_anonymous");
            assert("@type"@.len() == 5);
            assert("@extra"@.len() == 6);
            assert("custom_title"@.len() == 12);
            assert("can_be_edited"@.len() == 13);
            assert("can_manage_chat"@.len() == 15);
            assert("can_change_info"@.len() == 15);
            assert("can_post_messages"@.len() == 17);
            assert("can_edit_messages"@.len() == 17);
            assert("can_delete_messages"@.len() == 19);
            assert("can_invite_users"@.len() == 16);
            assert("can_restrict_members"@.len() == 20);
            assert("can_pin_messages"@.len() == 16);
            assert("can_promote_members"@.len() == 19);
            assert("can_manage_voice_chats"@.len() == 22);
            assert("is_anonymous"@.len() == 12);
            assert("custom_title"@[0] == 'c' && "is_anonymous"@[0] == 'i');
            assert("can_manage_chat"@[4] == 'm' && "can_change_info"@[4] == 'c');
            assert("can_post_messages"@[4] == 'p' && "can_edit_messages"@[4] == 'e');
            assert("can_delete_messages"@[4] == 'd' && "can_promote_members"@[4] == 'p');
            assert("can_invite_users"@[4] == 'i' && "can_pin_messages"@[4] == 'p');
            reveal_with_fuel(get_spec, 17);
            lemma_get_spec_found(ms, "@type"@, 0);
            lemma_get_spec_found(ms, "@extra"@, 1);
            lemma_get_spec_found(ms, "custom_title"@, 2);
            lemma_get_spec_found(ms, "can_be_edited"@, 3);
            lemma_get_spec_found(ms, "can_manage_chat"@, 4);
            lemma_get_spec_found(ms, "can_change_info"@, 5);
            lemma_get_spec_found(ms, "can_post_messages"@, 6);
            lemma_get_spec_found(ms, "can_edit_messages"@, 7);
            lemma_get_spec_found(ms, "can_delete_messages"@, 8);
            lemma_get_spec_found(ms, "can_invite_users"@, 9);
            lemma_get_spec_found(ms, "can_restrict_members"@, 10);
            lemma_get_spec_found(ms, "can_pin_messages"@, 11);
            lemma_get_spec_found(ms, "can_promote_members"@, 12);
            lemma_get_spec_found(ms, "can_manage_voice_chats"@, 13);
            lemma_get_spec_found(ms, "is_anonymous"@, 14);
            assert(tag_of(t) == Some(Self::tag_spec()));
            assert(ok_opt_str(t, "@extra"@));
            assert(ok_str(t, "custom_title"@));
            assert(ok_bool(t, "can_be_edited"@));
            assert(ok_opt_bool(t, "can_manage_chat"@));
            assert(ok_bool(t, "can_change_info"@));
            assert(ok_bool(t, "can_post_messages"@));
            assert(ok_bool(t, "can_edit_messages"@));
            assert(ok_bool(t, "can_delete_messages"@));
            assert(ok_bool(t, "can_invite_users"@));
            assert(ok_bool(t, "can_restrict_members"@));
            assert(ok_bool(t, "can_pin_messages"@));
            assert(ok_bool(t, "can_promote_members"@));
            assert(ok_opt_bool(t, "can_manage_voice_chats"@));
            assert(ok_bool(t, "is_anonymous"@));
            assert(Self::accepts(t));
            assert forall|w: Self| Self::decodes_from(t, w) implies #[trigger] w.eqv(v) by {
            }
        }
    }
}

impl RObject for ChatMemberStatusAdministrator {
    open spec fn tag_chars(&self) -> Seq<char> {
        Self::tag_spec()
    }

    open spec fn extra_spec(&self) -> Option<Seq<char>> {
        opt_str_view(self.extra)
    }

    fn td_name(&self) -> (r: &'static str) {
        "chatMemberStatusAdministrator"
    }

    fn extra(&self) -> (r: Option<String>) {
        clone_opt_string(&self.extra)
    }

    fn to_json(&self) -> (r: Result<String, EncodeError>) {
        crate::object::encode(self)
    }
}

impl TDChatMemberStatus for ChatMemberStatusAdministrator {

}

impl ChatMemberStatusAdministrator {
    pub fn from_json(json: &str) -> (r: Result<ChatMemberStatusAdministrator, DecodeError>)
        ensures
            match crate::parse::parse_doc(json@) {
                Some(t) => match r {
                    Ok(v) => Self::accepts(t) && Self::decodes_from(t, v),
                    Err(e) => !Self::accepts(t) && crate::errors::err_matches(e, Self::err_of(t)),
                },
                None => r matches Err(e) && e == DecodeError::Malformed,
            },
    {
        crate::object::from_json::<ChatMemberStatusAdministrator>(json)
    }

    pub fn builder() -> (r: RTDChatMemberStatusAdministratorBuilder)
        ensures
            r.inner.extra is Some,
            r.inner.custom_title@ == Seq::<char>::empty(),
            r.inner.can_be_edited == false,
            r.inner.can_manage_chat is None,
            r.inner.can_change_info == false,
            r.inner.can_post_messages == false,
            r.inner.can_edit_messages == false,
            r.inner.can_delete_messages == false,
            r.inner.can_invite_users == false,
            r.inner.can_restrict_members == false,
            r.inner.can_pin_messages == false,
            r.inner.can_promote_members == false,
            r.inner.can_manage_voice_chats is None,
            r.inner.is_anonymous == false,
    {
        RTDChatMemberStatusAdministratorBuilder {
            inner: ChatMemberStatusAdministrator {
                extra: Some(new_token()),
                custom_title: String::new(),
                can_be_edited: false,
                can_manage_chat: None,
                can_change_info: false,
                can_post_messages: false,
                can_edit_messages: false,
                can_delete_messages: false,
                can_invite_users: false,
                can_restrict_members: false,
                can_pin_messages: false,
                can_promote_members: false,
                can_manage_voice_chats: None,
                is_anonymous: false,
            },
        }
    }

    pub fn custom_title(&self) -> (r: &String)
        ensures
            *r == self.custom_title,
    {
        &self.custom_title
    }

    pub fn can_be_edited(&self) -> (r: bool)
        ensures
            r == self.can_be_edited,
    {
        self.can_be_edited
    }

    pub fn can_manage_chat(&self) -> (r: Option<bool>)
        ensures
            r == self.can_manage_chat,
    {
        self.can_manage_chat
    }

    pub fn can_change_info(&self) -> (r: bool)
        ensures
            r == self.can_change_info,
    {
        self.can_change_info
    }

    pub fn can_post_messages(&self) -> (r: bool)
        ensures
            r == self.can_post_messages,
    {
        self.can_post_messages
    }

    pub fn can_edit_messages(&self) -> (r: bool)
        ensures
            r == self.can_edit_messages,
    {
        self.can_edit_messages
    }

    pub fn can_delete_messages(&self) -> (r: bool)
        ensures
            r == self.can_delete_messages,
    {
        self.can_delete_messages
    }

    pub fn can_invite_users(&self) -> (r: bool)
        ensures
            r == self.can_invite_users,
    {
        self.can_invite_users
    }

    pub fn can_restrict_members(&self) -> (r: bool)
        ensures
            r == self.can_restrict_members,
    {
        self.can_restrict_members
    }

    pub fn can_pin_messages(&self) -> (r: bool)
        ensures
            r == self.can_pin_messages,
    {
        self.can_pin_messages
    }

    pub fn can_promote_members(&self) -> (r: bool)
        ensures
            r == self.can_promote_members,
    {
        self.can_promote_members
    }

    pub fn can_manage_voice_chats(&self) -> (r: Option<bool>)
        ensures
            r == self.can_manage_voice_chats,
    {
        self.can_manage_voice_chats
    }

    pub fn is_anonymous(&self) -> (r: bool)
        ensures
            r == self.is_anonymous,
    {
        self.is_anonymous
    }
}

pub struct RTDChatMemberStatusAdministratorBuilder {
    pub inner: ChatMemberStatusAdministrator,
}

impl RTDChatMemberStatusAdministratorBuilder {
    pub fn build(&self) -> (r: ChatMemberStatusAdministrator)
        ensures
            r.eqv(self.inner),
    {
        self.inner.clone()
    }

    pub fn custom_title(&mut self, custom_title: String) -> (r: &mut Self)
        ensures
            *r == (RTDChatMemberStatusAdministratorBuilder { inner: ChatMemberStatusAdministrator { custom_title: custom_title, ..old(self).inner } }),
            *final(self) == *final(r),
    {
        self.inner.custom_title = custom_title;
        self
    }

    pub fn can_be_edited(&mut self, can_be_edited: bool) -> (r: &mut Self)
        ensures
            *r == (RTDChatMemberStatusAdministratorBuilder { inner: ChatMemberStatusAdministrator { can_be_edited: can_be_edited, ..old(self).inner } }),
            *final(self) == *final(r),
    {
        self.inner.can_be_edited = can_be_edited;
        self
    }

    pub fn can_manage_chat(&mut self, can_manage_chat: Option<bool>) -> (r: &mut Self)
        ensures
            *r == (RTDChatMemberStatusAdministratorBuilder { inner: ChatMemberStatusAdministrator { can_manage_chat: can_manage_chat, ..old(self).inner } }),
            *final(self) == *final(r),
    {
        self.inner.can_manage_chat = can_manage_chat;
        self
    }

    pub fn can_change_info(&mut self, can_change_info: bool) -> (r: &mut Self)
        ensures
            *r == (RTDChatMemberStatusAdministratorBuilder { inner: ChatMemberStatusAdministrator { can_change_info: can_change_info, ..old(self).inner } }),
            *final(self) == *final(r),
    {
        self.inner.can_change_info = can_change_info;
        self
    }

    pub fn can_post_messages(&mut self, can_post_messages: bool) -> (r: &mut Self)
        ensures
            *r == (RTDChatMemberStatusAdministratorBuilder { inner: ChatMemberStatusAdministrator { can_post_messages: can_post_messages, ..old(self).inner } }),
            *final(self) == *final(r),
    {
        self.inner.can_post_messages = can_post_messages;
        self
    }

    pub fn can_edit_messages(&mut self, can_edit_messages: bool) -> (r: &mut Self)
        ensures
            *r == (RTDChatMemberStatusAdministratorBuilder { inner: ChatMemberStatusAdministrator { can_edit_messages: can_edit_messages, ..old(self).inner } }),
            *final(self) == *final(r),
    {
        self.inner.can_edit_messages = can_edit_messages;
        self
    }

    pub fn can_delete_messages(&mut self, can_delete_messages: bool) -> (r: &mut Self)
        ensures
            *r == (RTDChatMemberStatusAdministratorBuilder { inner: ChatMemberStatusAdministrator { can_delete_messages: can_delete_messages, ..old(self).inner } }),
            *final(self) == *final(r),
    {
        self.inner.can_delete_messages = can_delete_messages;
        self
    }

    pub fn can_invite_users(&mut self, can_invite_users: bool) -> (r: &mut Self)
        ensures
            *r == (RTDChatMemberStatusAdministratorBuilder { inner: ChatMemberStatusAdministrator { can_invite_users: can_invite_users, ..old(self).inner } }),
            *final(self) == *final(r),
    {
        self.inner.can_invite_users = can_invite_users;
        self
    }

    pub fn can_restrict_members(&mut self, can_restrict_members: bool) -> (r: &mut Self)
        ensures
            *r == (RTDChatMemberStatusAdministratorBuilder { inner: ChatMemberStatusAdministrator { can_restrict_members: can_restrict_members, ..old(self).inner } }),
            *final(self) == *final(r),
    {
        self.inner.can_restrict_members = can_restrict_members;
        self
    }

    pub fn can_pin_messages(&mut self, can_pin_messages: bool) -> (r: &mut Self)
        ensures
            *r == (RTDChatMemberStatusAdministratorBuilder { inner: ChatMemberStatusAdministrator { can_pin_messages: can_pin_messages, ..old(self).inner } }),
            *final(self) == *final(r),
    {
        self.inner.can_pin_messages = can_pin_messages;
        self
    }

    pub fn can_promote_members(&mut self, can_promote_members: bool) -> (r: &mut Self)
        ensures
            *r == (RTDChatMemberStatusAdministratorBuilder { inner: ChatMemberStatusAdministrator { can_promote_members: can_promote_members, ..old(self).inner } }),
            *final(self) == *final(r),
    {
        self.inner.can_promote_members = can_promote_members;
        self
    }

    pub fn can_manage_voice_chats(&mut self, can_manage_voice_chats: Option<bool>) -> (r: &mut Self)
        ensures
            *r == (RTDChatMemberStatusAdministratorBuilder { inner: ChatMemberStatusAdministrator { can_manage_voice_chats: can_manage_voice_chats, ..old(self).inner } }),
            *final(self) == *final(r),
    {
        self.inner.can_manage_voice_chats = can_manage_voice_chats;
        self
    }

    pub fn is_anonymous(&mut self, is_anonymous: bool) -> (r: &mut Self)
        ensures
            *r == (RTDChatMemberStatusAdministratorBuilder { inner: ChatMemberStatusAdministrator { is_anonymous: is_anonymous, ..old(self).inner } }),
            *final(self) == *final(r),
    {
        self.inner.is_anonymous = is_anonymous;
        self
    }
}
/// The user or the chat was banned (and hence is not a member of the chat). Implies the user can't return to the chat, view messages, or be used as a participant identifier to join a voice chat of the chat
#[derive(Debug, PartialEq)]
pub struct ChatMemberStatusBanned {
    pub extra: Option<String>,
    /// Point in time (Unix timestamp) when the user will be unbanned; 0 if never. If the user is banned for more than 366 days or for less than 30 seconds from the current time, the user is considered to be banned forever. Always 0 in basic groups
    pub banned_until_date: i64,
}

impl ChatMemberStatusBanned {
    pub open spec fn tag_spec() -> Seq<char> {
        "chatMemberStatusBanned"@
    }

    /// The members of the wire object, in the order they are written.
    pub open spec fn members_spec(self) -> Seq<(Seq<char>, SpecJson)> {
        seq![
            ("@type"@, SpecJson::Str(Self::tag_spec())),
            ("@extra"@, opt_str_tree(opt_str_view(self.extra))),
            ("banned_until_date"@, SpecJson::Num(i64_lex(self.banned_until_date as int))),
        ]
    }

    pub open spec fn fields_ok(t: SpecJson) -> bool {
        &&& ok_opt_str(t, "@extra"@)
        &&& ok_i64(t, "banned_until_date"@)
    }

    pub open spec fn fail_field(t: SpecJson) -> Seq<char> {
        if !ok_opt_str(t, "@extra"@) {
            "@extra"@
        } else if !(ok_i64(t, "banned_until_date"@)) {
            "banned_until_date"@
        } else {
            Seq::empty()
        }
    }

    /// The encoding of a value carries exactly this type's tag.
    pub proof fn lemma_wire_tag(v: ChatMemberStatusBanned)
        ensures
            v.wire_tree() matches Some(t) ==> tag_of(t) == Some(ChatMemberStatusBanned::tag_spec()),
    {
        if v.wire_tree() is Some {
            let t = v.wire_tree()->0;
            let ms = t->Obj_0;
            lemma_get_spec_found(ms, "@type"@, 0);
        }
    }
}

impl Clone for ChatMemberStatusBanned {
    fn clone(&self) -> (res: Self)
        ensures
            res.eqv(*self),
    {
        ChatMemberStatusBanned {
            extra: clone_opt_string(&self.extra),
            banned_until_date: self.banned_until_date,
        }
    }
}

impl Wire for ChatMemberStatusBanned {
    open spec fn wire_tree(self) -> Option<SpecJson> {
        Some(SpecJson::Obj(self.members_spec()))
    }

    open spec fn accepts(t: SpecJson) -> bool {
        tag_of(t) is Some && Self::fields_ok(t)
    }

    open spec fn err_of(t: SpecJson) -> SpecDecodeError {
        match tag_of(t) {
            None => SpecDecodeError::Malformed,
            Some(_) => SpecDecodeError::FieldShapeMismatch(Self::tag_spec(), Self::fail_field(t)),
        }
    }

    open spec fn decodes_from(t: SpecJson, v: Self) -> bool {
        &&& m_opt_str(t, "@extra"@, v.extra)
        &&& m_i64(t, "banned_until_date"@, v.banned_until_date)
    }

    open spec fn eqv(self, other: Self) -> bool {
        &&& eqv_opt_string(self.extra, other.extra)
        &&& self.banned_until_date == other.banned_until_date
    }

    fn clone_val(&self) -> (r: Self) {
        self.clone()
    }

    fn decode_tree(t: &JsonValue) -> (r: Result<Self, DecodeError>) {
        if get_tag(t).is_none() {
            return Err(DecodeError::Malformed);
        }
        let extra = match field_opt_string(t, "@extra") {
            Some(x) => x,
            None => {
                return Err(DecodeError::FieldShapeMismatch(
                    String::from_str("chatMemberStatusBanned"),
                    String::from_str("@extra"),
                ));
            },
        };
        let banned_until_date = match field_i64(t, "banned_until_date") {
            Some(x) => x,
            None => {
                return Err(DecodeError::FieldShapeMismatch(
                    String::from_str("chatMemberStatusBanned"),
                    String::from_str("banned_until_date"),
                ));
            },
        };
        Ok(ChatMemberStatusBanned { extra, banned_until_date })
    }

    fn encode_tree(&self) -> (r: Result<JsonValue, EncodeError>) {
        let mut members: Vec<JsonMember> = Vec::new();
        proof {
            assert(view_members(members@) =~= Seq::<(Seq<char>, SpecJson)>::empty());
        }
        push_member(&mut members, "@type", JsonValue::Str(String::from_str("chatMemberStatusBanned")));
        push_member(&mut members, "@extra", opt_string_tree(&self.extra));
        push_member(&mut members, "banned_until_date", JsonValue::Num(i64_lexeme(self.banned_until_date)));
        let node = JsonValue::Obj(members);
        proof {
            assert(view_members(members@) =~= self.members_spec());
            assert(node@ == self.wire_tree()->0);
        }
        Ok(node)
    }

    proof fn lemma_wire_wf(v: Self) {
        if v.wire_tree() is Some {
            let t = v.wire_tree()->0;
            let ms = t->Obj_0;
            assert(ms == v.members_spec());
            crate::json::lemma_i64_lex(v.banned_until_date);
            assert forall|i: int| 0 <= i < ms.len() implies wf(#[trigger] ms[i].1) by {
            }
        }
    }

    proof fn lemma_round_trip(v: Self) {
        if v.wire_tree() is Some {
            let t = v.wire_tree()->0;
            let ms = t->Obj_0;
            assert(ms == v.members_spec());
            reveal_strlit("@type");
            reveal_strlit("@extra");
            reveal_strlit("banned_until_date");
            assert("@type"@.len() == 5);
            assert("@extra"@.len() == 6);
            assert("banned_until_date"@.len() == 17);
            reveal_with_fuel(get_spec, 5);
            lemma_get_spec_found(ms, "@type"@, 0);
            lemma_get_spec_found(ms, "@extra"@, 1);
            lemma_get_spec_found(ms, "banned_until_date"@, 2);
            assert(tag_of(t) == Some(Self::tag_spec()));
            assert(ok_opt_str(t, "@extra"@));
            crate::json::lemma_i64_lex(v.banned_until_date);
            assert(ok_i64(t, "banned_until_date"@));
            assert(Self::accepts(t));
            assert forall|w: Self| Self::decodes_from(t, w) implies #[trigger] w.eqv(v) by {
            }
        }
    }
}

impl RObject for ChatMemberStatusBanned {
    open spec fn tag_chars(&self) -> Seq<char> {
        Self::tag_spec()
    }

    open spec fn extra_spec(&self) -> Option<Seq<char>> {
        opt_str_view(self.extra)
    }

    fn td_name(&self) -> (r: &'static str) {
        "chatMemberStatusBanned"
    }

    fn extra(&self) -> (r: Option<String>) {
        clone_opt_string(&self.extra)
    }

    fn to_json(&self) -> (r: Result<String, EncodeError>) {
        crate::object::encode(self)
    }
}

impl TDChatMemberStatus for ChatMemberStatusBanned {

}

impl ChatMemberStatusBanned {
    pub fn from_json(json: &str) -> (r: Result<ChatMemberStatusBanned, DecodeError>)
        ensures
            match crate::parse::parse_doc(json@) {
                Some(t) => match r {
                    Ok(v) => Self::accepts(t) && Self::decodes_from(t, v),
                    Err(e) => !Self::accepts(t) && crate::errors::err_matches(e, Self::err_of(t)),
                },
                None => r matches Err(e) && e == DecodeError::Malformed,
            },
    {
        crate::object::from_json::<ChatMemberStatusBanned>(json)
    }

    pub fn builder() -> (r: RTDChatMemberStatusBannedBuilder)
        ensures
            r.inner.extra is Some,
            r.inner.banned_until_date == 0,
    {
        RTDChatMemberStatusBannedBuilder {
            inner: ChatMemberStatusBanned {
                extra: Some(new_token()),
                banned_until_date: 0,
            },
        }
    }

    pub fn banned_until_date(&self) -> (r: i64)
        ensures
            r == self.banned_until_date,
    {
        self.banned_until_date
    }
}

pub struct RTDChatMemberStatusBannedBuilder {
    pub inner: ChatMemberStatusBanned,
}

impl RTDChatMemberStatusBannedBuilder {
    pub fn build(&self) -> (r: ChatMemberStatusBanned)
        ensures
            r.eqv(self.inner),
    {
        self.inner.clone()
    }

    pub fn banned_until_date(&mut self, banned_until_date: i64) -> (r: &mut Self)
        ensures
            *r == (RTDChatMemberStatusBannedBuilder { inner: ChatMemberStatusBanned { banned_until_date: banned_until_date, ..old(self).inner } }),
            *final(self) == *final(r),
    {
        self.inner.banned_until_date = banned_until_date;
        self
    }
}
/// The user is the owner of the chat and has all the administrator privileges
#[derive(Debug, PartialEq)]
pub struct ChatMemberStatusCreator {
    pub extra: Option<String>,
    /// A custom title of the owner; 0-16 characters without emojis; applicable to supergroups only
    pub custom_title: String,
    /// True, if the creator isn't shown in the chat member list and sends messages anonymously; applicable to supergroups only
    pub is_anonymous: bool,
    /// True, if the user is a member of the chat
    pub is_member: bool,
}

impl ChatMemberStatusCreator {
    pub open spec fn tag_spec() -> Seq<char> {
        "chatMemberStatusCreator"@
    }

    /// The members of the wire object, in the order they are written.
    pub open spec fn members_spec(self) -> Seq<(Seq<char>, SpecJson)> {
        seq![
            ("@type"@, SpecJson::Str(Self::tag_spec())),
            ("@extra"@, opt_str_tree(opt_str_view(self.extra))),
            ("custom_title"@, SpecJson::Str(self.custom_title@)),
            ("is_anonymous"@, SpecJson::Bool(self.is_anonymous)),
            ("is_member"@, SpecJson::Bool(self.is_member)),
        ]
    }

    pub open spec fn fields_ok(t: SpecJson) -> bool {
        &&& ok_opt_str(t, "@extra"@)
        &&& ok_str(t, "custom_title"@)
        &&& ok_bool(t, "is_anonymous"@)
        &&& ok_bool(t, "is_member"@)
    }

    pub open spec fn fail_field(t: SpecJson) -> Seq<char> {
        if !ok_opt_str(t, "@extra"@) {
            "@extra"@
        } else if !(ok_str(t, "custom_title"@)) {
            "custom_title"@
        } else if !(ok_bool(t, "is_anonymous"@)) {
            "is_anonymous"@
        } else if !(ok_bool(t, "is_member"@)) {
            "is_member"@
        } else {
            Seq::empty()
        }
    }

    /// The encoding of a value carries exactly this type's tag.
    pub proof fn lemma_wire_tag(v: ChatMemberStatusCreator)
        ensures
            v.wire_tree() matches Some(t) ==> tag_of(t) == Some(ChatMemberStatusCreator::tag_spec()),
    {
        if v.wire_tree() is Some {
            let t = v.wire_tree()->0;
            let ms = t->Obj_0;
            lemma_get_spec_found(ms, "@type"@, 0);
        }
    }
}

impl Clone for ChatMemberStatusCreator {
    fn clone(&self) -> (res: Self)
        ensures
            res.eqv(*self),
    {
        ChatMemberStatusCreator {
            extra: clone_opt_string(&self.extra),
            custom_title: self.custom_title.clone(),
            is_anonymous: self.is_anonymous,
            is_member: self.is_member,
        }
    }
}

impl Wire for ChatMemberStatusCreator {
    open spec fn wire_tree(self) -> Option<SpecJson> {
        Some(SpecJson::Obj(self.members_spec()))
    }

    open spec fn accepts(t: SpecJson) -> bool {
        tag_of(t) is Some && Self::fields_ok(t)
    }

    open spec fn err_of(t: SpecJson) -> SpecDecodeError {
        match tag_of(t) {
            None => SpecDecodeError::Malformed,
            Some(_) => SpecDecodeError::FieldShapeMismatch(Self::tag_spec(), Self::fail_field(t)),
        }
    }

    open spec fn decodes_from(t: SpecJson, v: Self) -> bool {
        &&& m_opt_str(t, "@extra"@, v.extra)
        &&& m_str(t, "custom_title"@, v.custom_title@)
        &&& m_bool(t, "is_anonymous"@, v.is_anonymous)
        &&& m_bool(t, "is_member"@, v.is_member)
    }

    open spec fn eqv(self, other: Self) -> bool {
        &&& eqv_opt_string(self.extra, other.extra)
        &&& self.custom_title@ == other.custom_title@
        &&& self.is_anonymous == other.is_anonymous
        &&& self.is_member == other.is_member
    }

    fn clone_val(&self) -> (r: Self) {
        self.clone()
    }

    fn decode_tree(t: &JsonValue) -> (r: Result<Self, DecodeError>) {
        if get_tag(t).is_none() {
            return Err(DecodeError::Malformed);
        }
        let extra = match field_opt_string(t, "@extra") {
            Some(x) => x,
            None => {
                return Err(DecodeError::FieldShapeMismatch(
                    String::from_str("chatMemberStatusCreator"),
                    String::from_str("@extra"),
                ));
            },
        };
        let custom_title = match field_string(t, "custom_title") {
            Some(x) => x,
            None => {
                return Err(DecodeError::FieldShapeMismatch(
                    String::from_str("chatMemberStatusCreator"),
                    String::from_str("custom_title"),
                ));
            },
        };
        let is_anonymous = match field_bool(t, "is_anonymous") {
            Some(x) => x,
            None => {
                return Err(DecodeError::FieldShapeMismatch(
                    String::from_str("chatMemberStatusCreator"),
                    String::from_str("is_anonymous"),
                ));
            },
        };
        let is_member = match field_bool(t, "is_member") {
            Some(x) => x,
            None => {
                return Err(DecodeError::FieldShapeMismatch(
                    String::from_str("chatMemberStatusCreator"),
                    String::from_str("is_member"),
                ));
            },
        };
        Ok(ChatMemberStatusCreator { extra, custom_title, is_anonymous, is_member })
    }

    fn encode_tree(&self) -> (r: Result<JsonValue, EncodeError>) {
        let mut members: Vec<JsonMember> = Vec::new();
        proof {
            assert(view_members(members@) =~= Seq::<(Seq<char>, SpecJson)>::empty());
        }
        push_member(&mut members, "@type", JsonValue::Str(String::from_str("chatMemberStatusCreator")));
        push_member(&mut members, "@extra", opt_string_tree(&self.extra));
        push_member(&mut members, "custom_title", JsonValue::Str(self.custom_title.clone()));
        push_member(&mut members, "is_anonymous", JsonValue::Bool(self.is_anonymous));
        push_member(&mut members, "is_member", JsonValue::Bool(self.is_member));
        let node = JsonValue::Obj(members);
        proof {
            assert(view_members(members@) =~= self.members_spec());
            assert(node@ == self.wire_tree()->0);
        }
        Ok(node)
    }

    proof fn lemma_wire_wf(v: Self) {
        if v.wire_tree() is Some {
            let t = v.wire_tree()->0;
            let ms = t->Obj_0;
            assert(ms == v.members_spec());
            assert forall|i: int| 0 <= i < ms.len() implies wf(#[trigger] ms[i].1) by {
            }
        }
    }

    proof fn lemma_round_trip(v: Self) {
        if v.wire_tree() is Some {
            let t = v.wire_tree()->0;
            let ms = t->Obj_0;
            assert(ms == v.members_spec());
            reveal_strlit("@type");
            reveal_strlit("@extra");
            reveal_strlit("custom_title");
            reveal_strlit("is_anonymous");
            reveal_strlit("is_member");
            assert("@type"@.len() == 5);
            assert("@extra"@.len() == 6);
            assert("custom_title"@.len() == 12);
            assert("is_anonymous"@.len() == 12);
            assert("is_member"@.len() == 9);
            assert("custom_title"@[0] == 'c' && "is_anonymous"@[0] == 'i');
            reveal_with_fuel(get_spec, 7);
            lemma_get_spec_found(ms, "@type"@, 0);
            lemma_get_spec_found(ms, "@extra"@, 1);
            lemma_get_spec_found(ms, "custom_title"@, 2);
            lemma_get_spec_found(ms, "is_anonymous"@, 3);
            lemma_get_spec_found(ms, "is_member"@, 4);
            assert(tag_of(t) == Some(Self::tag_spec()));
            assert(ok_opt_str(t, "@extra"@));
            assert(ok_str(t, "custom_title"@));
            assert(ok_bool(t, "is_anonymous"@));
            assert(ok_bool(t, "is_member"@));
            assert(Self::accepts(t));
            assert forall|w: Self| Self::decodes_from(t, w) implies #[trigger] w.eqv(v) by {
            }
        }
    }
}

impl RObject for ChatMemberStatusCreator {
    open spec fn tag_chars(&self) -> Seq<char> {
        Self::tag_spec()
    }

    open spec fn extra_spec(&self) -> Option<Seq<char>> {
        opt_str_view(self.extra)
    }

    fn td_name(&self) -> (r: &'static str) {
        "chatMemberStatusCreator"
    }

    fn extra(&self) -> (r: Option<String>) {
        clone_opt_string(&self.extra)
    }

    fn to_json(&self) -> (r: Result<String, EncodeError>) {
        crate::object::encode(self)
    }
}

impl TDChatMemberStatus for ChatMemberStatusCreator {

}

impl ChatMemberStatusCreator {
    pub fn from_json(json: &str) -> (r: Result<ChatMemberStatusCreator, DecodeError>)
        ensures
            match crate::parse::parse_doc(json@) {
                Some(t) => match r {
                    Ok(v) => Self::accepts(t) && Self::decodes_from(t, v),
                    Err(e) => !Self::accepts(t) && crate::errors::err_matches(e, Self::err_of(t)),
                },
                None => r matches Err(e) && e == DecodeError::Malformed,
            },
    {
        crate::object::from_json::<ChatMemberStatusCreator>(json)
    }

    pub fn builder() -> (r: RTDChatMemberStatusCreatorBuilder)
        ensures
            r.inner.extra is Some,
            r.inner.custom_title@ == Seq::<char>::empty(),
            r.inner.is_anonymous == false,
            r.inner.is_member == false,
    {
        RTDChatMemberStatusCreatorBuilder {
            inner: ChatMemberStatusCreator {
                extra: Some(new_token()),
                custom_title: String::new(),
                is_anonymous: false,
                is_member: false,
            },
        }
    }

    pub fn custom_title(&self) -> (r: &String)
        ensures
            *r == self.custom_title,
    {
        &self.custom_title
    }

    pub fn is_anonymous(&self) -> (r: bool)
        ensures
            r == self.is_anonymous,
    {
        self.is_anonymous
    }

    pub fn is_member(&self) -> (r: bool)
        ensures
            r == self.is_member,
    {
        self.is_member
    }
}

pub struct RTDChatMemberStatusCreatorBuilder {
    pub inner: ChatMemberStatusCreator,
}

impl RTDChatMemberStatusCreatorBuilder {
    pub fn build(&self) -> (r: ChatMemberStatusCreator)
        ensures
            r.eqv(self.inner),
    {
        self.inner.clone()
    }

    pub fn custom_title(&mut self, custom_title: String) -> (r: &mut Self)
        ensures
            *r == (RTDChatMemberStatusCreatorBuilder { inner: ChatMemberStatusCreator { custom_title: custom_title, ..old(self).inner } }),
            *final(self) == *final(r),
    {
        self.inner.custom_title = custom_title;
        self
    }

    pub fn is_anonymous(&mut self, is_anonymous: bool) -> (r: &mut Self)
        ensures
            *r == (RTDChatMemberStatusCreatorBuilder { inner: ChatMemberStatusCreator { is_anonymous: is_anonymous, ..old(self).inner } }),
            *final(self) == *final(r),
    {
        self.inner.is_anonymous = is_anonymous;
        self
    }

    pub fn is_member(&mut self, is_member: bool) -> (r: &mut Self)
        ensures
            *r == (RTDChatMemberStatusCreatorBuilder { inner: ChatMemberStatusCreator { is_member: is_member, ..old(self).inner } }),
            *final(self) == *final(r),
    {
        self.inner.is_member = is_member;
        self
    }
}
/// The user or the chat is not a chat member
#[derive(Debug, PartialEq)]
pub struct ChatMemberStatusLeft {
    pub extra: Option<String>,
}

impl ChatMemberStatusLeft {
    pub open spec fn tag_spec() -> Seq<char> {
        "chatMemberStatusLeft"@
    }

    /// The members of the wire object, in the order they are written.
    pub open spec fn members_spec(self) -> Seq<(Seq<char>, SpecJson)> {
        seq![
            ("@type"@, SpecJson::Str(Self::tag_spec())),
            ("@extra"@, opt_str_tree(opt_str_view(self.extra))),
        ]
    }

    pub open spec fn fields_ok(t: SpecJson) -> bool {
        &&& ok_opt_str(t, "@extra"@)
    }

    pub open spec fn fail_field(t: SpecJson) -> Seq<char> {
        if !ok_opt_str(t, "@extra"@) {
            "@extra"@
        } else {
            Seq::empty()
        }
    }

    /// The encoding of a value carries exactly this type's tag.
    pub proof fn lemma_wire_tag(v: ChatMemberStatusLeft)
        ensures
            v.wire_tree() matches Some(t) ==> tag_of(t) == Some(ChatMemberStatusLeft::tag_spec()),
    {
        if v.wire_tree() is Some {
            let t = v.wire_tree()->0;
            let ms = t->Obj_0;
            lemma_get_spec_found(ms, "@type"@, 0);
        }
    }
}

impl Clone for ChatMemberStatusLeft {
    fn clone(&self) -> (res: Self)
        ensures
            res.eqv(*self),
    {
        ChatMemberStatusLeft {
            extra: clone_opt_string(&self.extra),
        }
    }
}

impl Wire for ChatMemberStatusLeft {
    open spec fn wire_tree(self) -> Option<SpecJson> {
        Some(SpecJson::Obj(self.members_spec()))
    }

    open spec fn accepts(t: SpecJson) -> bool {
        tag_of(t) is Some && Self::fields_ok(t)
    }

    open spec fn err_of(t: SpecJson) -> SpecDecodeError {
        match tag_of(t) {
            None => SpecDecodeError::Malformed,
            Some(_) => SpecDecodeError::FieldShapeMismatch(Self::tag_spec(), Self::fail_field(t)),
        }
    }

    open spec fn decodes_from(t: SpecJson, v: Self) -> bool {
        &&& m_opt_str(t, "@extra"@, v.extra)
    }

    open spec fn eqv(self, other: Self) -> bool {
        &&& eqv_opt_string(self.extra, other.extra)
    }

    fn clone_val(&self) -> (r: Self) {
        self.clone()
    }

    fn decode_tree(t: &JsonValue) -> (r: Result<Self, DecodeError>) {
        if get_tag(t).is_none() {
            return Err(DecodeError::Malformed);
        }
        let extra = match field_opt_string(t, "@extra") {
            Some(x) => x,
            None => {
                return Err(DecodeError::FieldShapeMismatch(
                    String::from_str("chatMemberStatusLeft"),
                    String::from_str("@extra"),
                ));
            },
        };
        Ok(ChatMemberStatusLeft { extra })
    }

    fn encode_tree(&self) -> (r: Result<JsonValue, EncodeError>) {
        let mut members: Vec<JsonMember> = Vec::new();
        proof {
            assert(view_members(members@) =~= Seq::<(Seq<char>, SpecJson)>::empty());
        }
        push_member(&mut members, "@type", JsonValue::Str(String::from_str("chatMemberStatusLeft")));
        push_member(&mut members, "@extra", opt_string_tree(&self.extra));
        let node = JsonValue::Obj(members);
        proof {
            assert(view_members(members@) =~= self.members_spec());
            assert(node@ == self.wire_tree()->0);
        }
        Ok(node)
    }

    proof fn lemma_wire_wf(v: Self) {
        if v.wire_tree() is Some {
            let t = v.wire_tree()->0;
            let ms = t->Obj_0;
            assert(ms == v.members_spec());
            assert forall|i: int| 0 <= i < ms.len() implies wf(#[trigger] ms[i].1) by {
            }
        }
    }

    proof fn lemma_round_trip(v: Self) {
        if v.wire_tree() is Some {
            let t = v.wire_tree()->0;
            let ms = t->Obj_0;
            assert(ms == v.members_spec());
            reveal_strlit("@type");
            reveal_strlit("@extra");
            assert("@type"@.len() == 5);
            assert("@extra"@.len() == 6);
            reveal_with_fuel(get_spec, 4);
            lemma_get_spec_found(ms, "@type"@, 0);
            lemma_get_spec_found(ms, "@extra"@, 1);
            assert(tag_of(t) == Some(Self::tag_spec()));
            assert(ok_opt_str(t, "@extra"@));
            assert(Self::accepts(t));
            assert forall|w: Self| Self::decodes_from(t, w) implies #[trigger] w.eqv(v) by {
            }
        }
    }
}

impl RObject for ChatMemberStatusLeft {
    open spec fn tag_chars(&self) -> Seq<char> {
        Self::tag_spec()
    }

    open spec fn extra_spec(&self) -> Option<Seq<char>> {
        opt_str_view(self.extra)
    }

    fn td_name(&self) -> (r: &'static str) {
        "chatMemberStatusLeft"
    }

    fn extra(&self) -> (r: Option<String>) {
        clone_opt_string(&self.extra)
    }

    fn to_json(&self) -> (r: Result<String, EncodeError>) {
        crate::object::encode(self)
    }
}

impl TDChatMemberStatus for ChatMemberStatusLeft {

}

impl ChatMemberStatusLeft {
    pub fn from_json(json: &str) -> (r: Result<ChatMemberStatusLeft, DecodeError>)
        ensures
            match crate::parse::parse_doc(json@) {
                Some(t) => match r {
                    Ok(v) => Self::accepts(t) && Self::decodes_from(t, v),
                    Err(e) => !Self::accepts(t) && crate::errors::err_matches(e, Self::err_of(t)),
                },
                None => r matches Err(e) && e == DecodeError::Malformed,
            },
    {
        crate::object::from_json::<ChatMemberStatusLeft>(json)
    }

    pub fn builder() -> (r: RTDChatMemberStatusLeftBuilder)
        ensures
            r.inner.extra is Some,
    {
        RTDChatMemberStatusLeftBuilder {
            inner: ChatMemberStatusLeft {
                extra: Some(new_token()),
            },
        }
    }
}

pub struct RTDChatMemberStatusLeftBuilder {
    pub inner: ChatMemberStatusLeft,
}

impl RTDChatMemberStatusLeftBuilder {
    pub fn build(&self) -> (r: ChatMemberStatusLeft)
        ensures
            r.eqv(self.inner),
    {
        self.inner.clone()
    }
}
/// The user is a member of the chat, without any additional privileges or restrictions
#[derive(Debug, PartialEq)]
pub struct ChatMemberStatusMember {
    pub extra: Option<String>,
}

impl ChatMemberStatusMember {
    pub open spec fn tag_spec() -> Seq<char> {
        "chatMemberStatusMember"@
    }

    /// The members of the wire object, in the order they are written.
    pub open spec fn members_spec(self) -> Seq<(Seq<char>, SpecJson)> {
        seq![
            ("@type"@, SpecJson::Str(Self::tag_spec())),
            ("@extra"@, opt_str_tree(opt_str_view(self.extra))),
        ]
    }

    pub open spec fn fields_ok(t: SpecJson) -> bool {
        &&& ok_opt_str(t, "@extra"@)
    }

    pub open spec fn fail_field(t: SpecJson) -> Seq<char> {
        if !ok_opt_str(t, "@extra"@) {
            "@extra"@
        } else {
            Seq::empty()
        }
    }

    /// The encoding of a value carries exactly this type's tag.
    pub proof fn lemma_wire_tag(v: ChatMemberStatusMember)
        ensures
            v.wire_tree() matches Some(t) ==> tag_of(t) == Some(ChatMemberStatusMember::tag_spec()),
    {
        if v.wire_tree() is Some {
            let t = v.wire_tree()->0;
            let ms = t->Obj_0;
            lemma_get_spec_found(ms, "@type"@, 0);
        }
    }
}

impl Clone for ChatMemberStatusMember {
    fn clone(&self) -> (res: Self)
        ensures
            res.eqv(*self),
    {
        ChatMemberStatusMember {
            extra: clone_opt_string(&self.extra),
        }
    }
}

impl Wire for ChatMemberStatusMember {
    open spec fn wire_tree(self) -> Option<SpecJson> {
        Some(SpecJson::Obj(self.members_spec()))
    }

    open spec fn accepts(t: SpecJson) -> bool {
        tag_of(t) is Some && Self::fields_ok(t)
    }

    open spec fn err_of(t: SpecJson) -> SpecDecodeError {
        match tag_of(t) {
            None => SpecDecodeError::Malformed,
            Some(_) => SpecDecodeError::FieldShapeMismatch(Self::tag_spec(), Self::fail_field(t)),
        }
    }

    open spec fn decodes_from(t: SpecJson, v: Self) -> bool {
        &&& m_opt_str(t, "@extra"@, v.extra)
    }

    open spec fn eqv(self, other: Self) -> bool {
        &&& eqv_opt_string(self.extra, other.extra)
    }

    fn clone_val(&self) -> (r: Self) {
        self.clone()
    }

    fn decode_tree(t: &JsonValue) -> (r: Result<Self, DecodeError>) {
        if get_tag(t).is_none() {
            return Err(DecodeError::Malformed);
        }
        let extra = match field_opt_string(t, "@extra") {
            Some(x) => x,
            None => {
                return Err(DecodeError::FieldShapeMismatch(
                    String::from_str("chatMemberStatusMember"),
                    String::from_str("@extra"),
                ));
            },
        };
        Ok(ChatMemberStatusMember { extra })
    }

    fn encode_tree(&self) -> (r: Result<JsonValue, EncodeError>) {
        let mut members: Vec<JsonMember> = Vec::new();
        proof {
            assert(view_members(members@) =~= Seq::<(Seq<char>, SpecJson)>::empty());
        }
        push_member(&mut members, "@type", JsonValue::Str(String::from_str("chatMemberStatusMember")));
        push_member(&mut members, "@extra", opt_string_tree(&self.extra));
        let node = JsonValue::Obj(members);
        proof {
            assert(view_members(members@) =~= self.members_spec());
            assert(node@ == self.wire_tree()->0);
        }
        Ok(node)
    }

    proof fn lemma_wire_wf(v: Self) {
        if v.wire_tree() is Some {
            let t = v.wire_tree()->0;
            let ms = t->Obj_0;
            assert(ms == v.members_spec());
            assert forall|i: int| 0 <= i < ms.len() implies wf(#[trigger] ms[i].1) by {
            }
        }
    }

    proof fn lemma_round_trip(v: Self) {
        if v.wire_tree() is Some {
            let t = v.wire_tree()->0;
            let ms = t->Obj_0;
            assert(ms == v.members_spec());
            reveal_strlit("@type");
            reveal_strlit("@extra");
            assert("@type"@.len() == 5);
            assert("@extra"@.len() == 6);
            reveal_with_fuel(get_spec, 4);
            lemma_get_spec_found(ms, "@type"@, 0);
            lemma_get_spec_found(ms, "@extra"@, 1);
            assert(tag_of(t) == Some(Self::tag_spec()));
            assert(ok_opt_str(t, "@extra"@));
            assert(Self::accepts(t));
            assert forall|w: Self| Self::decodes_from(t, w) implies #[trigger] w.eqv(v) by {
            }
        }
    }
}

impl RObject for ChatMemberStatusMember {
    open spec fn tag_chars(&self) -> Seq<char> {
        Self::tag_spec()
    }

    open spec fn extra_spec(&self) -> Option<Seq<char>> {
        opt_str_view(self.extra)
    }

    fn td_name(&self) -> (r: &'static str) {
        "chatMemberStatusMember"
    }

    fn extra(&self) -> (r: Option<String>) {
        clone_opt_string(&self.extra)
    }

    fn to_json(&self) -> (r: Result<String, EncodeError>) {
        crate::object::encode(self)
    }
}

impl TDChatMemberStatus for ChatMemberStatusMember {

}

impl ChatMemberStatusMember {
    pub fn from_json(json: &str) -> (r: Result<ChatMemberStatusMember, DecodeError>)
        ensures
            match crate::parse::parse_doc(json@) {
                Some(t) => match r {
                    Ok(v) => Self::accepts(t) && Self::decodes_from(t, v),
                    Err(e) => !Self::accepts(t) && crate::errors::err_matches(e, Self::err_of(t)),
                },
                None => r matches Err(e) && e == DecodeError::Malformed,
            },
    {
        crate::object::from_json::<ChatMemberStatusMember>(json)
    }

    pub fn builder() -> (r: RTDChatMemberStatusMemberBuilder)
        ensures
            r.inner.extra is Some,
    {
        RTDChatMemberStatusMemberBuilder {
            inner: ChatMemberStatusMember {
                extra: Some(new_token()),
            },
        }
    }
}

pub struct RTDChatMemberStatusMemberBuilder {
    pub inner: ChatMemberStatusMember,
}

impl RTDChatMemberStatusMemberBuilder {
    pub fn build(&self) -> (r: ChatMemberStatusMember)
        ensures
            r.eqv(self.inner),
    {
        self.inner.clone()
    }
}
/// The user is under certain restrictions in the chat. Not supported in basic groups and channels
#[derive(Debug, PartialEq)]
pub struct ChatMemberStatusRestricted {
    pub extra: Option<String>,
    /// True, if the user is a member of the chat
    pub is_member: bool,
    /// Point in time (Unix timestamp) when restrictions will be lifted from the user; 0 if never. If the user is restricted for more than 366 days or for less than 30 seconds from the current time, the user is considered to be restricted forever
    pub restricted_until_date: i64,
}

impl ChatMemberStatusRestricted {
    pub open spec fn tag_spec() -> Seq<char> {
        "chatMemberStatusRestricted"@
    }

    /// The members of the wire object, in the order they are written.
    pub open spec fn members_spec(self) -> Seq<(Seq<char>, SpecJson)> {
        seq![
            ("@type"@, SpecJson::Str(Self::tag_spec())),
            ("@extra"@, opt_str_tree(opt_str_view(self.extra))),
            ("is_member"@, SpecJson::Bool(self.is_member)),
            ("restricted_until_date"@, SpecJson::Num(i64_lex(self.restricted_until_date as int))),
        ]
    }

    pub open spec fn fields_ok(t: SpecJson) -> bool {
        &&& ok_opt_str(t, "@extra"@)
        &&& ok_bool(t, "is_member"@)
        &&& ok_i64(t, "restricted_until_date"@)
    }

    pub open spec fn fail_field(t: SpecJson) -> Seq<char> {
        if !ok_opt_str(t, "@extra"@) {
            "@extra"@
        } else if !(ok_bool(t, "is_member"@)) {
            "is_member"@
        } else if !(ok_i64(t, "restricted_until_date"@)) {
            "restricted_until_date"@
        } else {
            Seq::empty()
        }
    }

    /// The encoding of a value carries exactly this type's tag.
    pub proof fn lemma_wire_tag(v: ChatMemberStatusRestricted)
        ensures
            v.wire_tree() matches Some(t) ==> tag_of(t) == Some(ChatMemberStatusRestricted::tag_spec()),
    {
        if v.wire_tree() is Some {
            let t = v.wire_tree()->0;
            let ms = t->Obj_0;
            lemma_get_spec_found(ms, "@type"@, 0);
        }
    }
}

impl Clone for ChatMemberStatusRestricted {
    fn clone(&self) -> (res: Self)
        ensures
            res.eqv(*self),
    {
        ChatMemberStatusRestricted {
            extra: clone_opt_string(&self.extra),
            is_member: self.is_member,
            restricted_until_date: self.restricted_until_date,
        }
    }
}

impl Wire for ChatMemberStatusRestricted {
    open spec fn wire_tree(self) -> Option<SpecJson> {
        Some(SpecJson::Obj(self.members_spec()))
    }

    open spec fn accepts(t: SpecJson) -> bool {
        tag_of(t) is Some && Self::fields_ok(t)
    }

    open spec fn err_of(t: SpecJson) -> SpecDecodeError {
        match tag_of(t) {
            None => SpecDecodeError::Malformed,
            Some(_) => SpecDecodeError::FieldShapeMismatch(Self::tag_spec(), Self::fail_field(t)),
        }
    }

    open spec fn decodes_from(t: SpecJson, v: Self) -> bool {
        &&& m_opt_str(t, "@extra"@, v.extra)
        &&& m_bool(t, "is_member"@, v.is_member)
        &&& m_i64(t, "restricted_until_date"@, v.restricted_until_date)
    }

    open spec fn eqv(self, other: Self) -> bool {
        &&& eqv_opt_string(self.extra, other.extra)
        &&& self.is_member == other.is_member
        &&& self.restricted_until_date == other.restricted_until_date
    }

    fn clone_val(&self) -> (r: Self) {
        self.clone()
    }

    fn decode_tree(t: &JsonValue) -> (r: Result<Self, DecodeError>) {
        if get_tag(t).is_none() {
            return Err(DecodeError::Malformed);
        }
        let extra = match field_opt_string(t, "@extra") {
            Some(x) => x,
            None => {
                return Err(DecodeError::FieldShapeMismatch(
                    String::from_str("chatMemberStatusRestricted"),
                    String::from_str("@extra"),
                ));
            },
        };
        let is_member = match field_bool(t, "is_member") {
            Some(x) => x,
            None => {
                return Err(DecodeError::FieldShapeMismatch(
                    String::from_str("chatMemberStatusRestricted"),
                    String::from_str("is_member"),
                ));
            },
        };
        let restricted_until_date = match field_i64(t, "restricted_until_date") {
            Some(x) => x,
            None => {
                return Err(DecodeError::FieldShapeMismatch(
                    String::from_str("chatMemberStatusRestricted"),
                    String::from_str("restricted_until_date"),
                ));
            },
        };
        Ok(ChatMemberStatusRestricted { extra, is_member, restricted_until_date })
    }

    fn encode_tree(&self) -> (r: Result<JsonValue, EncodeError>) {
        let mut members: Vec<JsonMember> = Vec::new();
        proof {
            assert(view_members(members@) =~= Seq::<(Seq<char>, SpecJson)>::empty());
        }
        push_member(&mut members, "@type", JsonValue::Str(String::from_str("chatMemberStatusRestricted")));
        push_member(&mut members, "@extra", opt_string_tree(&self.extra));
        push_member(&mut members, "is_member", JsonValue::Bool(self.is_member));
        push_member(&mut members, "restricted_until_date", JsonValue::Num(i64_lexeme(self.restricted_until_date)));
        let node = JsonValue::Obj(members);
        proof {
            assert(view_members(members@) =~= self.members_spec());
            assert(node@ == self.wire_tree()->0);
        }
        Ok(node)
    }

    proof fn lemma_wire_wf(v: Self) {
        if v.wire_tree() is Some {
            let t = v.wire_tree()->0;
            let ms = t->Obj_0;
            assert(ms == v.members_spec());
            crate::json::lemma_i64_lex(v.restricted_until_date);
            assert forall|i: int| 0 <= i < ms.len() implies wf(#[trigger] ms[i].1) by {
            }
        }
    }

    proof fn lemma_round_trip(v: Self) {
        if v.wire_tree() is Some {
            let t = v.wire_tree()->0;
            let ms = t->Obj_0;
            assert(ms == v.members_spec());
            reveal_strlit("@type");
            reveal_strlit("@extra");
            reveal_strlit("is_member");
            reveal_strlit("restricted_until_date");
            assert("@type"@.len() == 5);
            assert("@extra"@.len() == 6);
            assert("is_member"@.len() == 9);
            assert("restricted_until_date"@.len() == 21);
            reveal_with_fuel(get_spec, 6);
            lemma_get_spec_found(ms, "@type"@, 0);
            lemma_get_spec_found(ms, "@extra"@, 1);
            lemma_get_spec_found(ms, "is_member"@, 2);
            lemma_get_spec_found(ms, "restricted_until_date"@, 3);
            assert(tag_of(t) == Some(Self::tag_spec()));
            assert(ok_opt_str(t, "@extra"@));
            assert(ok_bool(t, "is_member"@));
            crate::json::lemma_i64_lex(v.restricted_until_date);
            assert(ok_i64(t, "restricted_until_date"@));
            assert(Self::accepts(t));
            assert forall|w: Self| Self::decodes_from(t, w) implies #[trigger] w.eqv(v) by {
            }
        }
    }
}

impl RObject for ChatMemberStatusRestricted {
    open spec fn tag_chars(&self) -> Seq<char> {
        Self::tag_spec()
    }

    open spec fn extra_spec(&self) -> Option<Seq<char>> {
        opt_str_view(self.extra)
    }

    fn td_name(&self) -> (r: &'static str) {
        "chatMemberStatusRestricted"
    }

    fn extra(&self) -> (r: Option<String>) {
        clone_opt_string(&self.extra)
    }

    fn to_json(&self) -> (r: Result<String, EncodeError>) {
        crate::object::encode(self)
    }
}

impl TDChatMemberStatus for ChatMemberStatusRestricted {

}

impl ChatMemberStatusRestricted {
    pub fn from_json(json: &str) -> (r: Result<ChatMemberStatusRestricted, DecodeError>)
        ensures
            match crate::parse::parse_doc(json@) {
                Some(t) => match r {
                    Ok(v) => Self::accepts(t) && Self::decodes_from(t, v),
                    Err(e) => !Self::accepts(t) && crate::errors::err_matches(e, Self::err_of(t)),
                },
                None => r matches Err(e) && e == DecodeError::Malformed,
            },
    {
        crate::object::from_json::<ChatMemberStatusRestricted>(json)
    }

    pub fn builder() -> (r: RTDChatMemberStatusRestrictedBuilder)
        ensures
            r.inner.extra is Some,
            r.inner.is_member == false,
            r.inner.restricted_until_date == 0,
    {
        RTDChatMemberStatusRestrictedBuilder {
            inner: ChatMemberStatusRestricted {
                extra: Some(new_token()),
                is_member: false,
                restricted_until_date: 0,
            },
        }
    }

    pub fn is_member(&self) -> (r: bool)
        ensures
            r == self.is_member,
    {
        self.is_member
    }

    pub fn restricted_until_date(&self) -> (r: i64)
        ensures
            r == self.restricted_until_date,
    {
        self.restricted_until_date
    }
}

pub struct RTDChatMemberStatusRestrictedBuilder {
    pub inner: ChatMemberStatusRestricted,
}

impl RTDChatMemberStatusRestrictedBuilder {
    pub fn build(&self) -> (r: ChatMemberStatusRestricted)
        ensures
            r.eqv(self.inner),
    {
        self.inner.clone()
    }

    pub fn is_member(&mut self, is_member: bool) -> (r: &mut Self)
        ensures
            *r == (RTDChatMemberStatusRestrictedBuilder { inner: ChatMemberStatusRestricted { is_member: is_member, ..old(self).inner } }),
            *final(self) == *final(r),
    {
        self.inner.is_member = is_member;
        self
    }

    pub fn restricted_until_date(&mut self, restricted_until_date: i64) -> (r: &mut Self)
        ensures
            *r == (RTDChatMemberStatusRestrictedBuilder { inner: ChatMemberStatusRestricted { restricted_until_date: restricted_until_date, ..old(self).inner } }),
            *final(self) == *final(r),
    {
        self.inner.restricted_until_date = restricted_until_date;
        self
    }
}
} // verus!
