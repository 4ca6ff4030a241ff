use vstd::prelude::*;

use crate::errors::DecodeError;
use crate::errors::EncodeError;
use crate::errors::SpecDecodeError;
use crate::json::JsonMember;
use crate::json::JsonValue;
use crate::json::SpecJson;
use crate::json::view_members;
use crate::json::wf;
use crate::object::RObject;
use crate::object::Wire;
use crate::object::clone_opt_string;
use crate::object::eqv_opt_string;
use crate::object::field_opt_string;
use crate::object::get_spec;
use crate::object::get_tag;
use crate::object::lemma_get_spec_found;
use crate::object::m_opt_str;
use crate::object::new_token;
use crate::object::ok_opt_str;
use crate::object::opt_str_tree;
use crate::object::opt_str_view;
use crate::object::opt_string_tree;
use crate::object::push_member;
use crate::object::str_eq;
use crate::object::tag_of;

verus! {

/// Specifies the kind of chat members to return in searchChatMembers
pub trait TDChatMembersFilter: RObject {

}

/// Specifies the kind of chat members to return in searchChatMembers
#[derive(Debug, PartialEq)]
pub enum ChatMembersFilter {
    _Default(()),
    /// Returns the creator and administrators
    Administrators(ChatMembersFilterAdministrators),
    /// Returns users banned from the chat; can be used only by administrators in a supergroup or in a channel
    Banned(ChatMembersFilterBanned),
    /// Returns bot members of the chat
    Bots(ChatMembersFilterBots),
    /// Returns all chat members, including restricted chat members
    Members(ChatMembersFilterMembers),
    /// Returns users under certain restrictions in the chat; can be used only by administrators in a supergroup
    Restricted(ChatMembersFilterRestricted),
}

impl Clone for ChatMembersFilter {
    fn clone(&self) -> (res: Self)
        ensures
            res.eqv(*self),
    {
        match self {
            ChatMembersFilter::_Default(_) => ChatMembersFilter::_Default(()),
            ChatMembersFilter::Administrators(x) => ChatMembersFilter::Administrators(x.clone()),
            ChatMembersFilter::Banned(x) => ChatMembersFilter::Banned(x.clone()),
            ChatMembersFilter::Bots(x) => ChatMembersFilter::Bots(x.clone()),
            ChatMembersFilter::Members(x) => ChatMembersFilter::Members(x.clone()),
            ChatMembersFilter::Restricted(x) => ChatMembersFilter::Restricted(x.clone()),
        }
    }
}

impl ChatMembersFilter {
    /// The tags of this variant's alternatives are pairwise distinct.
    pub proof fn lemma_tags_distinct()
        ensures
            "chatMembersFilterAdministrators"@ != "chatMembersFilterBanned"@,
            "chatMembersFilterAdministrators"@ != "chatMembersFilterBots"@,
            "chatMembersFilterAdministrators"@ != "chatMembersFilterMembers"@,
            "chatMembersFilterAdministrators"@ != "chatMembersFilterRestricted"@,
            "chatMembersFilterBanned"@ != "chatMembersFilterBots"@,
            "chatMembersFilterBanned"@ != "chatMembersFilterMembers"@,
            "chatMembersFilterBanned"@ != "chatMembersFilterRestricted"@,
            "chatMembersFilterBots"@ != "chatMembersFilterMembers"@,
            "chatMembersFilterBots"@ != "chatMembersFilterRestricted"@,
            "chatMembersFilterMembers"@ != "chatMembersFilterRestricted"@,
    {
        reveal_strlit("chatMembersFilterAdministrators");
        reveal_strlit("chatMembersFilterBanned");
        reveal_strlit("chatMembersFilterBots");
        reveal_strlit("chatMembersFilterMembers");
        reveal_strlit("chatMembersFilterRestricted");
        assert("chatMembersFilterAdministrators"@.len() == 31);
        assert("chatMembersFilterBanned"@.len() == 23);
        assert("chatMembersFilterBots"@.len() == 21);
        assert("chatMembersFilterMembers"@.len() == 24);
        assert("chatMembersFilterRestricted"@.len() == 27);
    }
}

impl Wire for ChatMembersFilter {
    open spec fn wire_tree(self) -> Option<SpecJson> {
        match self {
            ChatMembersFilter::_Default(_) => None,
            ChatMembersFilter::Administrators(x) => x.wire_tree(),
            ChatMembersFilter::Banned(x) => x.wire_tree(),
            ChatMembersFilter::Bots(x) => x.wire_tree(),
            ChatMembersFilter::Members(x) => x.wire_tree(),
            ChatMembersFilter::Restricted(x) => x.wire_tree(),
        }
    }

    open spec fn accepts(t: SpecJson) -> bool {
        match tag_of(t) {
            None => false,
            Some(g) => {
                if g == ChatMembersFilterAdministrators::tag_spec() {
                    ChatMembersFilterAdministrators::accepts(t)
                } else if g == ChatMembersFilterBanned::tag_spec() {
                    ChatMembersFilterBanned::accepts(t)
                } else if g == ChatMembersFilterBots::tag_spec() {
                    ChatMembersFilterBots::accepts(t)
                } else if g == ChatMembersFilterMembers::tag_spec() {
                    ChatMembersFilterMembers::accepts(t)
                } else if g == ChatMembersFilterRestricted::tag_spec() {
                    ChatMembersFilterRestricted::accepts(t)
                } else {
                    false
                }
            },
        }
    }

    open spec fn err_of(t: SpecJson) -> SpecDecodeError {
        match tag_of(t) {
            None => SpecDecodeError::Malformed,
            Some(g) => {
                if g == ChatMembersFilterAdministrators::tag_spec() {
                    ChatMembersFilterAdministrators::err_of(t)
                } else if g == ChatMembersFilterBanned::tag_spec() {
                    ChatMembersFilterBanned::err_of(t)
                } else if g == ChatMembersFilterBots::tag_spec() {
                    ChatMembersFilterBots::err_of(t)
                } else if g == ChatMembersFilterMembers::tag_spec() {
                    ChatMembersFilterMembers::err_of(t)
                } else if g == ChatMembersFilterRestricted::tag_spec() {
                    ChatMembersFilterRestricted::err_of(t)
                } else {
                    SpecDecodeError::UnrecognizedVariant(g)
                }
            },
        }
    }

    open spec fn decodes_from(t: SpecJson, v: Self) -> bool {
        match tag_of(t) {
            None => false,
            Some(g) => {
                if g == ChatMembersFilterAdministrators::tag_spec() {
                    v matches ChatMembersFilter::Administrators(x) && ChatMembersFilterAdministrators::decodes_from(t, x)
                } else if g == ChatMembersFilterBanned::tag_spec() {
                    v matches ChatMembersFilter::Banned(x) && ChatMembersFilterBanned::decodes_from(t, x)
                } else if g == ChatMembersFilterBots::tag_spec() {
                    v matches ChatMembersFilter::Bots(x) && ChatMembersFilterBots::decodes_from(t, x)
                } else if g == ChatMembersFilterMembers::tag_spec() {
                    v matches ChatMembersFilter::Members(x) && ChatMembersFilterMembers::decodes_from(t, x)
                } else if g == ChatMembersFilterRestricted::tag_spec() {
                    v matches ChatMembersFilter::Restricted(x) && ChatMembersFilterRestricted::decodes_from(t, x)
                } else {
                    false
                }
            },
        }
    }

    open spec fn eqv(self, other: Self) -> bool {
        match (self, other) {
            (ChatMembersFilter::_Default(_), ChatMembersFilter::_Default(_)) => true,
            (ChatMembersFilter::Administrators(a), ChatMembersFilter::Administrators(b)) => a.eqv(b),
            (ChatMembersFilter::Banned(a), ChatMembersFilter::Banned(b)) => a.eqv(b),
            (ChatMembersFilter::Bots(a), ChatMembersFilter::Bots(b)) => a.eqv(b),
            (ChatMembersFilter::Members(a), ChatMembersFilter::Members(b)) => a.eqv(b),
            (ChatMembersFilter::Restricted(a), ChatMembersFilter::Restricted(b)) => a.eqv(b),
            _ => false,
        }
    }

    fn clone_val(&self) -> (r: Self) {
        self.clone()
    }

    fn decode_tree(t: &JsonValue) -> (r: Result<Self, DecodeError>) {
        let g = match get_tag(t) {
            Some(g) => g,
            None => {
                return Err(DecodeError::Malformed);
            },
        };
        if str_eq(g.as_str(), "chatMembersFilterAdministrators") {
            match ChatMembersFilterAdministrators::decode_tree(t) {
                Ok(x) => Ok(ChatMembersFilter::Administrators(x)),
                Err(e) => Err(e),
            }
        } else if str_eq(g.as_str(), "chatMembersFilterBanned") {
            match ChatMembersFilterBanned::decode_tree(t) {
                Ok(x) => Ok(ChatMembersFilter::Banned(x)),
                Err(e) => Err(e),
            }
        } else if str_eq(g.as_str(), "chatMembersFilterBots") {
            match ChatMembersFilterBots::decode_tree(t) {
                Ok(x) => Ok(ChatMembersFilter::Bots(x)),
                Err(e) => Err(e),
            }
        } else if str_eq(g.as_str(), "chatMembersFilterMembers") {
            match ChatMembersFilterMembers::decode_tree(t) {
                Ok(x) => Ok(ChatMembersFilter::Members(x)),
                Err(e) => Err(e),
            }
        } else if str_eq(g.as_str(), "chatMembersFilterRestricted") {
            match ChatMembersFilterRestricted::decode_tree(t) {
                Ok(x) => Ok(ChatMembersFilter::Restricted(x)),
                Err(e) => Err(e),
            }
        } else {
            Err(DecodeError::UnrecognizedVariant(g))
        }
    }

    fn encode_tree(&self) -> (r: Result<JsonValue, EncodeError>) {
        match self {
            ChatMembersFilter::_Default(_) => Err(EncodeError::Unrepresentable),
            ChatMembersFilter::Administrators(x) => x.encode_tree(),
            ChatMembersFilter::Banned(x) => x.encode_tree(),
            ChatMembersFilter::Bots(x) => x.encode_tree(),
            ChatMembersFilter::Members(x) => x.encode_tree(),
            ChatMembersFilter::Restricted(x) => x.encode_tree(),
        }
    }

    proof fn lemma_wire_wf(v: Self) {
        match v {
            ChatMembersFilter::_Default(_) => {},
            ChatMembersFilter::Administrators(x) => {
                ChatMembersFilterAdministrators::lemma_wire_wf(x);
            },
            ChatMembersFilter::Banned(x) => {
                ChatMembersFilterBanned::lemma_wire_wf(x);
            },
            ChatMembersFilter::Bots(x) => {
                ChatMembersFilterBots::lemma_wire_wf(x);
            },
            ChatMembersFilter::Members(x) => {
                ChatMembersFilterMembers::lemma_wire_wf(x);
            },
            ChatMembersFilter::Restricted(x) => {
                ChatMembersFilterRestricted::lemma_wire_wf(x);
            },
        }
    }

    proof fn lemma_round_trip(v: Self) {
        Self::lemma_tags_distinct();
        match v {
            ChatMembersFilter::_Default(_) => {},
            ChatMembersFilter::Administrators(x) => {
                if x.wire_tree() is Some {
                    let t = x.wire_tree()->0;
                    ChatMembersFilterAdministrators::lemma_wire_tag(x);
                    ChatMembersFilterAdministrators::lemma_round_trip(x);
                    assert(Self::accepts(t));
                    assert forall|w: Self| Self::decodes_from(t, w) implies #[trigger] w.eqv(v) by {
                        assert(w matches ChatMembersFilter::Administrators(xi) && ChatMembersFilterAdministrators::decodes_from(t, xi));
                    }
                }
            },
            ChatMembersFilter::Banned(x) => {
                if x.wire_tree() is Some {
                    let t = x.wire_tree()->0;
                    ChatMembersFilterBanned::lemma_wire_tag(x);
                    ChatMembersFilterBanned::lemma_round_trip(x);
                    assert(Self::accepts(t));
                    assert forall|w: Self| Self::decodes_from(t, w) implies #[trigger] w.eqv(v) by {
                        assert(w matches ChatMembersFilter::Banned(xi) && ChatMembersFilterBanned::decodes_from(t, xi));
                    }
                }
            },
            ChatMembersFilter::Bots(x) => {
                if x.wire_tree() is Some {
                    let t = x.wire_tree()->0;
                    ChatMembersFilterBots::lemma_wire_tag(x);
                    ChatMembersFilterBots::lemma_round_trip(x);
                    assert(Self::accepts(t));
                    assert forall|w: Self| Self::decodes_from(t, w) implies #[trigger] w.eqv(v) by {
                        assert(w matches ChatMembersFilter::Bots(xi) && ChatMembersFilterBots::decodes_from(t, xi));
                    }
                }
            },
            ChatMembersFilter::Members(x) => {
                if x.wire_tree() is Some {
                    let t = x.wire_tree()->0;
                    ChatMembersFilterMembers::lemma_wire_tag(x);
                    ChatMembersFilterMembers::lemma_round_trip(x);
                    assert(Self::accepts(t));
                    assert forall|w: Self| Self::decodes_from(t, w) implies #[trigger] w.eqv(v) by {
                        assert(w matches ChatMembersFilter::Members(xi) && ChatMembersFilterMembers::decodes_from(t, xi));
                    }
                }
            },
            ChatMembersFilter::Restricted(x) => {
                if x.wire_tree() is Some {
                    let t = x.wire_tree()->0;
                    ChatMembersFilterRestricted::lemma_wire_tag(x);
                    ChatMembersFilterRestricted::lemma_round_trip(x);
                    assert(Self::accepts(t));
                    assert forall|w: Self| Self::decodes_from(t, w) implies #[trigger] w.eqv(v) by {
                        assert(w matches ChatMembersFilter::Restricted(xi) && ChatMembersFilterRestricted::decodes_from(t, xi));
                    }
                }
            },
        }
    }
}

impl RObject for ChatMembersFilter {
    open spec fn tag_chars(&self) -> Seq<char> {
        match self {
            ChatMembersFilter::_Default(_) => "-1"@,
            ChatMembersFilter::Administrators(x) => ChatMembersFilterAdministrators::tag_spec(),
            ChatMembersFilter::Banned(x) => ChatMembersFilterBanned::tag_spec(),
            ChatMembersFilter::Bots(x) => ChatMembersFilterBots::tag_spec(),
            ChatMembersFilter::Members(x) => ChatMembersFilterMembers::tag_spec(),
            ChatMembersFilter::Restricted(x) => ChatMembersFilterRestricted::tag_spec(),
        }
    }

    open spec fn extra_spec(&self) -> Option<Seq<char>> {
        match self {
            ChatMembersFilter::_Default(_) => None,
            ChatMembersFilter::Administrators(x) => opt_str_view(x.extra),
            ChatMembersFilter::Banned(x) => opt_str_view(x.extra),
            ChatMembersFilter::Bots(x) => opt_str_view(x.extra),
            ChatMembersFilter::Members(x) => opt_str_view(x.extra),
            ChatMembersFilter::Restricted(x) => opt_str_view(x.extra),
    }
    }

    fn td_name(&self) -> (r: &'static str) {
        match self {
            ChatMembersFilter::_Default(_) => "-1",
            ChatMembersFilter::Administrators(x) => x.td_name(),
            ChatMembersFilter::Banned(x) => x.td_name(),
            ChatMembersFilter::Bots(x) => x.td_name(),
            ChatMembersFilter::Members(x) => x.td_name(),
            ChatMembersFilter::Restricted(x) => x.td_name(),
        }
    }

    fn extra(&self) -> (r: Option<String>) {
        match self {
            ChatMembersFilter::_Default(_) => None,
            ChatMembersFilter::Administrators(x) => clone_opt_string(&x.extra),
            ChatMembersFilter::Banned(x) => clone_opt_string(&x.extra),
            ChatMembersFilter::Bots(x) => clone_opt_string(&x.extra),
            ChatMembersFilter::Members(x) => clone_opt_string(&x.extra),
            ChatMembersFilter::Restricted(x) => clone_opt_string(&x.extra),
        }
    }

    fn to_json(&self) -> (r: Result<String, EncodeError>) {
        crate::object::encode(self)
    }
}

impl ChatMembersFilter {
    pub fn from_json(json: &str) -> (r: Result<ChatMembersFilter, DecodeError>)
        ensures
            match crate::parse::parse_doc(json@) {
                Some(t) => match r {
                    Ok(v) => Self::accepts(t) && Self::decodes_from(t, v),
                    Err(e) => !Self::accepts(t) && crate::errors::err_matches(e, Self::err_of(t)),
                },
                None => r matches Err(e) && e == DecodeError::Malformed,
            },
    {
        crate::object::from_json::<ChatMembersFilter>(json)
    }

    pub fn _is_default(&self) -> (r: bool)
        ensures
            r == (self is _Default),
    {
        match self {
            ChatMembersFilter::_Default(_) => true,
            _ => false,
        }
    }

    pub fn is_administrators(&self) -> (r: bool)
        ensures
            r == (self is Administrators),
    {
        match self {
            ChatMembersFilter::Administrators(_) => true,
            _ => false,
        }
    }

    pub fn is_banned(&self) -> (r: bool)
        ensures
            r == (self is Banned),
    {
        match self {
            ChatMembersFilter::Banned(_) => true,
            _ => false,
        }
    }

    pub fn is_bots(&self) -> (r: bool)
        ensures
            r == (self is Bots),
    {
        match self {
            ChatMembersFilter::Bots(_) => true,
            _ => false,
        }
    }

    pub fn is_members(&self) -> (r: bool)
        ensures
            r == (self is Members),
    {
        match self {
            ChatMembersFilter::Members(_) => true,
            _ => false,
        }
    }

    pub fn is_restricted(&self) -> (r: bool)
        ensures
            r == (self is Restricted),
    {
        match self {
            ChatMembersFilter::Restricted(_) => true,
            _ => false,
        }
    }

    pub fn as_administrators(&self) -> (r: Option<&ChatMembersFilterAdministrators>)
        ensures
            (self is Administrators) == (r is Some),
            r matches Some(x) ==> *x == self->Administrators_0,
    {
        match self {
            ChatMembersFilter::Administrators(x) => Some(x),
            _ => None,
        }
    }

    pub fn as_banned(&self) -> (r: Option<&ChatMembersFilterBanned>)
        ensures
            (self is Banned) == (r is Some),
            r matches Some(x) ==> *x == self->Banned_0,
    {
        match self {
            ChatMembersFilter::Banned(x) => Some(x),
            _ => None,
        }
    }

    pub fn as_bots(&self) -> (r: Option<&ChatMembersFilterBots>)
        ensures
            (self is Bots) == (r is Some),
            r matches Some(x) ==> *x == self->Bots_0,
    {
        match self {
            ChatMembersFilter::Bots(x) => Some(x),
            _ => None,
        }
    }

    pub fn as_members(&self) -> (r: Option<&ChatMembersFilterMembers>)
        ensures
            (self is Members) == (r is Some),
            r matches Some(x) ==> *x == self->Members_0,
    {
        match self {
            ChatMembersFilter::Members(x) => Some(x),
            _ => None,
        }
    }

    pub fn as_restricted(&self) -> (r: Option<&ChatMembersFilterRestricted>)
        ensures
            (self is Restricted) == (r is Some),
            r matches Some(x) ==> *x == self->Restricted_0,
    {
        match self {
            ChatMembersFilter::Restricted(x) => Some(x),
            _ => None,
        }
    }

    pub fn administrators(t: &ChatMembersFilterAdministrators) -> (r: Self)
        ensures
            r matches ChatMembersFilter::Administrators(x) && x.eqv(*t),
    {
        ChatMembersFilter::Administrators(t.clone())
    }

    pub fn banned(t: &ChatMembersFilterBanned) -> (r: Self)
        ensures
            r matches ChatMembersFilter::Banned(x) && x.eqv(*t),
    {
        ChatMembersFilter::Banned(t.clone())
    }

    pub fn bots(t: &ChatMembersFilterBots) -> (r: Self)
        ensures
            r matches ChatMembersFilter::Bots(x) && x.eqv(*t),
    {
        ChatMembersFilter::Bots(t.clone())
    }

    pub fn members(t: &ChatMembersFilterMembers) -> (r: Self)
        ensures
            r matches ChatMembersFilter::Members(x) && x.eqv(*t),
    {
        ChatMembersFilter::Members(t.clone())
    }

    pub fn restricted(t: &ChatMembersFilterRestricted) -> (r: Self)
        ensures
            r matches ChatMembersFilter::Restricted(x) && x.eqv(*t),
    {
        ChatMembersFilter::Restricted(t.clone())
    }
}
/// Returns the creator and administrators
#[derive(Debug, PartialEq)]
pub struct ChatMembersFilterAdministrators {
    pub extra: Option<String>,
}

impl ChatMembersFilterAdministrators {
    pub open spec fn tag_spec() -> Seq<char> {
        "chatMembersFilterAdministrators"@
    }

    /// The members of the wire object, in the order they are written.
    pub open spec fn members_spec(self) -> Seq<(Seq<char>, SpecJson)> {
        seq![
            ("@type"@, SpecJson::Str(Self::tag_spec())),
            ("@extra"@, opt_str_tree(opt_str_view(self.extra))),
        ]
    }

    pub open spec fn fields_ok(t: SpecJson) -> bool {
        &&& ok_opt_str(t, "@extra"@)
    }

    pub open spec fn fail_field(t: SpecJson) -> Seq<char> {
        if !ok_opt_str(t, "@extra"@) {
            "@extra"@
        } else {
            Seq::empty()
        }
    }

    /// The encoding of a value carries exactly this type's tag.
    pub proof fn lemma_wire_tag(v: ChatMembersFilterAdministrators)
        ensures
            v.wire_tree() matches Some(t) ==> tag_of(t) == Some(ChatMembersFilterAdministrators::tag_spec()),
    {
        if v.wire_tree() is Some {
            let t = v.wire_tree()->0;
            let ms = t->Obj_0;
            lemma_get_spec_found(ms, "@type"@, 0);
        }
    }
}

impl Clone for ChatMembersFilterAdministrators {
    fn clone(&self) -> (res: Self)
        ensures
            res.eqv(*self),
    {
        ChatMembersFilterAdministrators {
            extra: clone_opt_string(&self.extra),
        }
    }
}

impl Wire for ChatMembersFilterAdministrators {
    open spec fn wire_tree(self) -> Option<SpecJson> {
        Some(SpecJson::Obj(self.members_spec()))
    }

    open spec fn accepts(t: SpecJson) -> bool {
        tag_of(t) is Some && Self::fields_ok(t)
    }

    open spec fn err_of(t: SpecJson) -> SpecDecodeError {
        match tag_of(t) {
            None => SpecDecodeError::Malformed,
            Some(_) => SpecDecodeError::FieldShapeMismatch(Self::tag_spec(), Self::fail_field(t)),
        }
    }

    open spec fn decodes_from(t: SpecJson, v: Self) -> bool {
        &&& m_opt_str(t, "@extra"@, v.extra)
    }

    open spec fn eqv(self, other: Self) -> bool {
        &&& eqv_opt_string(self.extra, other.extra)
    }

    fn clone_val(&self) -> (r: Self) {
        self.clone()
    }

    fn decode_tree(t: &JsonValue) -> (r: Result<Self, DecodeError>) {
        if get_tag(t).is_none() {
            return Err(DecodeError::Malformed);
        }
        let extra = match field_opt_string(t, "@extra") {
            Some(x) => x,
            None => {
                return Err(DecodeError::FieldShapeMismatch(
                    String::from_str("chatMembersFilterAdministrators"),
                    String::from_str("@extra"),
                ));
            },
        };
        Ok(ChatMembersFilterAdministrators { extra })
    }

    fn encode_tree(&self) -> (r: Result<JsonValue, EncodeError>) {
        let mut members: Vec<JsonMember> = Vec::new();
        proof {
            assert(view_members(members@) =~= Seq::<(Seq<char>, SpecJson)>::empty());
        }
        push_member(&mut members, "@type", JsonValue::Str(String::from_str("chatMembersFilterAdministrators")));
        push_member(&mut members, "@extra", opt_string_tree(&self.extra));
        let node = JsonValue::Obj(members);
        proof {
            assert(view_members(members@) =~= self.members_spec());
            assert(node@ == self.wire_tree()->0);
        }
        Ok(node)
    }

    proof fn lemma_wire_wf(v: Self) {
        if v.wire_tree() is Some {
            let t = v.wire_tree()->0;
            let ms = t->Obj_0;
            assert(ms == v.members_spec());
            assert forall|i: int| 0 <= i < ms.len() implies wf(#[trigger] ms[i].1) by {
            }
        }
    }

    proof fn lemma_round_trip(v: Self) {
        if v.wire_tree() is Some {
            let t = v.wire_tree()->0;
            let ms = t->Obj_0;
            assert(ms == v.members_spec());
            reveal_strlit("@type");
            reveal_strlit("@extra");
            assert("@type"@.len() == 5);
            assert("@extra"@.len() == 6);
            reveal_with_fuel(get_spec, 4);
            lemma_get_spec_found(ms, "@type"@, 0);
            lemma_get_spec_found(ms, "@extra"@, 1);
            assert(tag_of(t) == Some(Self::tag_spec()));
            assert(ok_opt_str(t, "@extra"@));
            assert(Self::accepts(t));
            assert forall|w: Self| Self::decodes_from(t, w) implies #[trigger] w.eqv(v) by {
            }
        }
    }
}

impl RObject for ChatMembersFilterAdministrators {
    open spec fn tag_chars(&self) -> Seq<char> {
        Self::tag_spec()
    }

    open spec fn extra_spec(&self) -> Option<Seq<char>> {
        opt_str_view(self.extra)
    }

    fn td_name(&self) -> (r: &'static str) {
        "chatMembersFilterAdministrators"
    }

    fn extra(&self) -> (r: Option<String>) {
        clone_opt_string(&self.extra)
    }

    fn to_json(&self) -> (r: Result<String, EncodeError>) {
        crate::object::encode(self)
    }
}

impl TDChatMembersFilter for ChatMembersFilterAdministrators {

}

impl ChatMembersFilterAdministrators {
    pub fn from_json(json: &str) -> (r: Result<ChatMembersFilterAdministrators, DecodeError>)
        ensures
            match crate::parse::parse_doc(json@) {
                Some(t) => match r {
                    Ok(v) => Self::accepts(t) && Self::decodes_from(t, v),
                    Err(e) => !Self::accepts(t) && crate::errors::err_matches(e, Self::err_of(t)),
                },
                None => r matches Err(e) && e == DecodeError::Malformed,
            },
    {
        crate::object::from_json::<ChatMembersFilterAdministrators>(json)
    }

    pub fn builder() -> (r: RTDChatMembersFilterAdministratorsBuilder)
        ensures
            r.inner.extra is Some,
    {
        RTDChatMembersFilterAdministratorsBuilder {
            inner: ChatMembersFilterAdministrators {
                extra: Some(new_token()),
            },
        }
    }
}

pub struct RTDChatMembersFilterAdministratorsBuilder {
    pub inner: ChatMembersFilterAdministrators,
}

impl RTDChatMembersFilterAdministratorsBuilder {
    pub fn build(&self) -> (r: ChatMembersFilterAdministrators)
        ensures
            r.eqv(self.inner),
    {
        self.inner.clone()
    }
}
/// Returns users banned from the chat; can be used only by administrators in a supergroup or in a channel
#[derive(Debug, PartialEq)]
pub struct ChatMembersFilterBanned {
    pub extra: Option<String>,
}

impl ChatMembersFilterBanned {
    pub open spec fn tag_spec() -> Seq<char> {
        "chatMembersFilterBanned"@
    }

    /// The members of the wire object, in the order they are written.
    pub open spec fn members_spec(self) -> Seq<(Seq<char>, SpecJson)> {
        seq![
            ("@type"@, SpecJson::Str(Self::tag_spec())),
            ("@extra"@, opt_str_tree(opt_str_view(self.extra))),
        ]
    }

    pub open spec fn fields_ok(t: SpecJson) -> bool {
        &&& ok_opt_str(t, "@extra"@)
    }

    pub open spec fn fail_field(t: SpecJson) -> Seq<char> {
        if !ok_opt_str(t, "@extra"@) {
            "@extra"@
        } else {
            Seq::empty()
        }
    }

    /// The encoding of a value carries exactly this type's tag.
    pub proof fn lemma_wire_tag(v: ChatMembersFilterBanned)
        ensures
            v.wire_tree() matches Some(t) ==> tag_of(t) == Some(ChatMembersFilterBanned::tag_spec()),
    {
        if v.wire_tree() is Some {
            let t = v.wire_tree()->0;
            let ms = t->Obj_0;
            lemma_get_spec_found(ms, "@type"@, 0);
        }
    }
}

impl Clone for ChatMembersFilterBanned {
    fn clone(&self) -> (res: Self)
        ensures
            res.eqv(*self),
    {
        ChatMembersFilterBanned {
            extra: clone_opt_string(&self.extra),
        }
    }
}

impl Wire for ChatMembersFilterBanned {
    open spec fn wire_tree(self) -> Option<SpecJson> {
        Some(SpecJson::Obj(self.members_spec()))
    }

    open spec fn accepts(t: SpecJson) -> bool {
        tag_of(t) is Some && Self::fields_ok(t)
    }

    open spec fn err_of(t: SpecJson) -> SpecDecodeError {
        match tag_of(t) {
            None => SpecDecodeError::Malformed,
            Some(_) => SpecDecodeError::FieldShapeMismatch(Self::tag_spec(), Self::fail_field(t)),
        }
    }

    open spec fn decodes_from(t: SpecJson, v: Self) -> bool {
        &&& m_opt_str(t, "@extra"@, v.extra)
    }

    open spec fn eqv(self, other: Self) -> bool {
        &&& eqv_opt_string(self.extra, other.extra)
    }

    fn clone_val(&self) -> (r: Self) {
        self.clone()
    }

    fn decode_tree(t: &JsonValue) -> (r: Result<Self, DecodeError>) {
        if get_tag(t).is_none() {
            return Err(DecodeError::Malformed);
        }
        let extra = match field_opt_string(t, "@extra") {
            Some(x) => x,
            None => {
                return Err(DecodeError::FieldShapeMismatch(
                    String::from_str("chatMembersFilterBanned"),
                    String::from_str("@extra"),
                ));
            },
        };
        Ok(ChatMembersFilterBanned { extra })
    }

    fn encode_tree(&self) -> (r: Result<JsonValue, EncodeError>) {
        let mut members: Vec<JsonMember> = Vec::new();
        proof {
            assert(view_members(members@) =~= Seq::<(Seq<char>, SpecJson)>::empty());
        }
        push_member(&mut members, "@type", JsonValue::Str(String::from_str("chatMembersFilterBanned")));
        push_member(&mut members, "@extra", opt_string_tree(&self.extra));
        let node = JsonValue::Obj(members);
        proof {
            assert(view_members(members@) =~= self.members_spec());
            assert(node@ == self.wire_tree()->0);
        }
        Ok(node)
    }

    proof fn lemma_wire_wf(v: Self) {
        if v.wire_tree() is Some {
            let t = v.wire_tree()->0;
            let ms = t->Obj_0;
            assert(ms == v.members_spec());
            assert forall|i: int| 0 <= i < ms.len() implies wf(#[trigger] ms[i].1) by {
            }
        }
    }

    proof fn lemma_round_trip(v: Self) {
        if v.wire_tree() is Some {
            let t = v.wire_tree()->0;
            let ms = t->Obj_0;
            assert(ms == v.members_spec());
            reveal_strlit("@type");
            reveal_strlit("@extra");
            assert("@type"@.len() == 5);
            assert("@extra"@.len() == 6);
            reveal_with_fuel(get_spec, 4);
            lemma_get_spec_found(ms, "@type"@, 0);
            lemma_get_spec_found(ms, "@extra"@, 1);
            assert(tag_of(t) == Some(Self::tag_spec()));
            assert(ok_opt_str(t, "@extra"@));
            assert(Self::accepts(t));
            assert forall|w: Self| Self::decodes_from(t, w) implies #[trigger] w.eqv(v) by {
            }
        }
    }
}

impl RObject for ChatMembersFilterBanned {
    open spec fn tag_chars(&self) -> Seq<char> {
        Self::tag_spec()
    }

    open spec fn extra_spec(&self) -> Option<Seq<char>> {
        opt_str_view(self.extra)
    }

    fn td_name(&self) -> (r: &'static str) {
        "chatMembersFilterBanned"
    }

    fn extra(&self) -> (r: Option<String>) {
        clone_opt_string(&self.extra)
    }

    fn to_json(&self) -> (r: Result<String, EncodeError>) {
        crate::object::encode(self)
    }
}

impl TDChatMembersFilter for ChatMembersFilterBanned {

}

impl ChatMembersFilterBanned {
    pub fn from_json(json: &str) -> (r: Result<ChatMembersFilterBanned, DecodeError>)
        ensures
            match crate::parse::parse_doc(json@) {
                Some(t) => match r {
                    Ok(v) => Self::accepts(t) && Self::decodes_from(t, v),
                    Err(e) => !Self::accepts(t) && crate::errors::err_matches(e, Self::err_of(t)),
                },
                None => r matches Err(e) && e == DecodeError::Malformed,
            },
    {
        crate::object::from_json::<ChatMembersFilterBanned>(json)
    }

    pub fn builder() -> (r: RTDChatMembersFilterBannedBuilder)
        ensures
            r.inner.extra is Some,
    {
        RTDChatMembersFilterBannedBuilder {
            inner: ChatMembersFilterBanned {
                extra: Some(new_token()),
            },
        }
    }
}

pub struct RTDChatMembersFilterBannedBuilder {
    pub inner: ChatMembersFilterBanned,
}

impl RTDChatMembersFilterBannedBuilder {
    pub fn build(&self) -> (r: ChatMembersFilterBanned)
        ensures
            r.eqv(self.inner),
    {
        self.inner.clone()
    }
}
/// Returns bot members of the chat
#[derive(Debug, PartialEq)]
pub struct ChatMembersFilterBots {
    pub extra: Option<String>,
}

impl ChatMembersFilterBots {
    pub open spec fn tag_spec() -> Seq<char> {
        "chatMembersFilterBots"@
    }

    /// The members of the wire object, in the order they are written.
    pub open spec fn members_spec(self) -> Seq<(Seq<char>, SpecJson)> {
        seq![
            ("@type"@, SpecJson::Str(Self::tag_spec())),
            ("@extra"@, opt_str_tree(opt_str_view(self.extra))),
        ]
    }

    pub open spec fn fields_ok(t: SpecJson) -> bool {
        &&& ok_opt_str(t, "@extra"@)
    }

    pub open spec fn fail_field(t: SpecJson) -> Seq<char> {
        if !ok_opt_str(t, "@extra"@) {
            "@extra"@
        } else {
            Seq::empty()
        }
    }

    /// The encoding of a value carries exactly this type's tag.
    pub proof fn lemma_wire_tag(v: ChatMembersFilterBots)
        ensures
            v.wire_tree() matches Some(t) ==> tag_of(t) == Some(ChatMembersFilterBots::tag_spec()),
    {
        if v.wire_tree() is Some {
            let t = v.wire_tree()->0;
            let ms = t->Obj_0;
            lemma_get_spec_found(ms, "@type"@, 0);
        }
    }
}

impl Clone for ChatMembersFilterBots {
    fn clone(&self) -> (res: Self)
        ensures
            res.eqv(*self),
    {
        ChatMembersFilterBots {
            extra: clone_opt_string(&self.extra),
        }
    }
}

impl Wire for ChatMembersFilterBots {
    open spec fn wire_tree(self) -> Option<SpecJson> {
        Some(SpecJson::Obj(self.members_spec()))
    }

    open spec fn accepts(t: SpecJson) -> bool {
        tag_of(t) is Some && Self::fields_ok(t)
    }

    open spec fn err_of(t: SpecJson) -> SpecDecodeError {
        match tag_of(t) {
            None => SpecDecodeError::Malformed,
            Some(_) => SpecDecodeError::FieldShapeMismatch(Self::tag_spec(), Self::fail_field(t)),
        }
    }

    open spec fn decodes_from(t: SpecJson, v: Self) -> bool {
        &&& m_opt_str(t, "@extra"@, v.extra)
    }

    open spec fn eqv(self, other: Self) -> bool {
        &&& eqv_opt_string(self.extra, other.extra)
    }

    fn clone_val(&self) -> (r: Self) {
        self.clone()
    }

    fn decode_tree(t: &JsonValue) -> (r: Result<Self, DecodeError>) {
        if get_tag(t).is_none() {
            return Err(DecodeError::Malformed);
        }
        let extra = match field_opt_string(t, "@extra") {
            Some(x) => x,
            None => {
                return Err(DecodeError::FieldShapeMismatch(
                    String::from_str("chatMembersFilterBots"),
                    String::from_str("@extra"),
                ));
            },
        };
        Ok(ChatMembersFilterBots { extra })
    }

    fn encode_tree(&self) -> (r: Result<JsonValue, EncodeError>) {
        let mut members: Vec<JsonMember> = Vec::new();
        proof {
            assert(view_members(members@) =~= Seq::<(Seq<char>, SpecJson)>::empty());
        }
        push_member(&mut members, "@type", JsonValue::Str(String::from_str("chatMembersFilterBots")));
        push_member(&mut members, "@extra", opt_string_tree(&self.extra));
        let node = JsonValue::Obj(members);
        proof {
            assert(view_members(members@) =~= self.members_spec());
            assert(node@ == self.wire_tree()->0);
        }
        Ok(node)
    }

    proof fn lemma_wire_wf(v: Self) {
        if v.wire_tree() is Some {
            let t = v.wire_tree()->0;
            let ms = t->Obj_0;
            assert(ms == v.members_spec());
            assert forall|i: int| 0 <= i < ms.len() implies wf(#[trigger] ms[i].1) by {
            }
        }
    }

    proof fn lemma_round_trip(v: Self) {
        if v.wire_tree() is Some {
            let t = v.wire_tree()->0;
            let ms = t->Obj_0;
            assert(ms == v.members_spec());
            reveal_strlit("@type");
            reveal_strlit("@extra");
            assert("@type"@.len() == 5);
            assert("@extra"@.len() == 6);
            reveal_with_fuel(get_spec, 4);
            lemma_get_spec_found(ms, "@type"@, 0);
            lemma_get_spec_found(ms, "@extra"@, 1);
            assert(tag_of(t) == Some(Self::tag_spec()));
            assert(ok_opt_str(t, "@extra"@));
            assert(Self::accepts(t));
            assert forall|w: Self| Self::decodes_from(t, w) implies #[trigger] w.eqv(v) by {
            }
        }
    }
}

impl RObject for ChatMembersFilterBots {
    open spec fn tag_chars(&self) -> Seq<char> {
        Self::tag_spec()
    }

    open spec fn extra_spec(&self) -> Option<Seq<char>> {
        opt_str_view(self.extra)
    }

    fn td_name(&self) -> (r: &'static str) {
        "chatMembersFilterBots"
    }

    fn extra(&self) -> (r: Option<String>) {
        clone_opt_string(&self.extra)
    }

    fn to_json(&self) -> (r: Result<String, EncodeError>) {
        crate::object::encode(self)
    }
}

impl TDChatMembersFilter for ChatMembersFilterBots {

}

impl ChatMembersFilterBots {
    pub fn from_json(json: &str) -> (r: Result<ChatMembersFilterBots, DecodeError>)
        ensures
            match crate::parse::parse_doc(json@) {
                Some(t) => match r {
                    Ok(v) => Self::accepts(t) && Self::decodes_from(t, v),
                    Err(e) => !Self::accepts(t) && crate::errors::err_matches(e, Self::err_of(t)),
                },
                None => r matches Err(e) && e == DecodeError::Malformed,
            },
    {
        crate::object::from_json::<ChatMembersFilterBots>(json)
    }

    pub fn builder() -> (r: RTDChatMembersFilterBotsBuilder)
        ensures
            r.inner.extra is Some,
    {
        RTDChatMembersFilterBotsBuilder {
            inner: ChatMembersFilterBots {
                extra: Some(new_token()),
            },
        }
    }
}

pub struct RTDChatMembersFilterBotsBuilder {
    pub inner: ChatMembersFilterBots,
}

impl RTDChatMembersFilterBotsBuilder {
    pub fn build(&self) -> (r: ChatMembersFilterBots)
        ensures
            r.eqv(self.inner),
    {
        self.inner.clone()
    }
}
/// Returns all chat members, including restricted chat members
#[derive(Debug, PartialEq)]
pub struct ChatMembersFilterMembers {
    pub extra: Option<String>,
}

impl ChatMembersFilterMembers {
    pub open spec fn tag_spec() -> Seq<char> {
        "chatMembersFilterMembers"@
    }

    /// The members of the wire object, in the order they are written.
    pub open spec fn members_spec(self) -> Seq<(Seq<char>, SpecJson)> {
        seq![
            ("@type"@, SpecJson::Str(Self::tag_spec())),
            ("@extra"@, opt_str_tree(opt_str_view(self.extra))),
        ]
    }

    pub open spec fn fields_ok(t: SpecJson) -> bool {
        &&& ok_opt_str(t, "@extra"@)
    }

    pub open spec fn fail_field(t: SpecJson) -> Seq<char> {
        if !ok_opt_str(t, "@extra"@) {
            "@extra"@
        } else {
            Seq::empty()
        }
    }

    /// The encoding of a value carries exactly this type's tag.
    pub proof fn lemma_wire_tag(v: ChatMembersFilterMembers)
        ensures
            v.wire_tree() matches Some(t) ==> tag_of(t) == Some(ChatMembersFilterMembers::tag_spec()),
    {
        if v.wire_tree() is Some {
            let t = v.wire_tree()->0;
            let ms = t->Obj_0;
            lemma_get_spec_found(ms, "@type"@, 0);
        }
    }
}

impl Clone for ChatMembersFilterMembers {
    fn clone(&self) -> (res: Self)
        ensures
            res.eqv(*self),
    {
        ChatMembersFilterMembers {
            extra: clone_opt_string(&self.extra),
        }
    }
}

impl Wire for ChatMembersFilterMembers {
    open spec fn wire_tree(self) -> Option<SpecJson> {
        Some(SpecJson::Obj(self.members_spec()))
    }

    open spec fn accepts(t: SpecJson) -> bool {
        tag_of(t) is Some && Self::fields_ok(t)
    }

    open spec fn err_of(t: SpecJson) -> SpecDecodeError {
        match tag_of(t) {
            None => SpecDecodeError::Malformed,
            Some(_) => SpecDecodeError::FieldShapeMismatch(Self::tag_spec(), Self::fail_field(t)),
        }
    }

    open spec fn decodes_from(t: SpecJson, v: Self) -> bool {
        &&& m_opt_str(t, "@extra"@, v.extra)
    }

    open spec fn eqv(self, other: Self) -> bool {
        &&& eqv_opt_string(self.extra, other.extra)
    }

    fn clone_val(&self) -> (r: Self) {
        self.clone()
    }

    fn decode_tree(t: &JsonValue) -> (r: Result<Self, DecodeError>) {
        if get_tag(t).is_none() {
            return Err(DecodeError::Malformed);
        }
        let extra = match field_opt_string(t, "@extra") {
            Some(x) => x,
            None => {
                return Err(DecodeError::FieldShapeMismatch(
                    String::from_str("chatMembersFilterMembers"),
                    String::from_str("@extra"),
                ));
            },
        };
        Ok(ChatMembersFilterMembers { extra })
    }

    fn encode_tree(&self) -> (r: Result<JsonValue, EncodeError>) {
        let mut members: Vec<JsonMember> = Vec::new();
        proof {
            assert(view_members(members@) =~= Seq::<(Seq<char>, SpecJson)>::empty());
        }
        push_member(&mut members, "@type", JsonValue::Str(String::from_str("chatMembersFilterMembers")));
        push_member(&mut members, "@extra", opt_string_tree(&self.extra));
        let node = JsonValue::Obj(members);
        proof {
            assert(view_members(members@) =~= self.members_spec());
            assert(node@ == self.wire_tree()->0);
        }
        Ok(node)
    }

    proof fn lemma_wire_wf(v: Self) {
        if v.wire_tree() is Some {
            let t = v.wire_tree()->0;
            let ms = t->Obj_0;
            assert(ms == v.members_spec());
            assert forall|i: int| 0 <= i < ms.len() implies wf(#[trigger] ms[i].1) by {
            }
        }
    }

    proof fn lemma_round_trip(v: Self) {
        if v.wire_tree() is Some {
            let t = v.wire_tree()->0;
            let ms = t->Obj_0;
            assert(ms == v.members_spec());
            reveal_strlit("@type");
            reveal_strlit("@extra");
            assert("@type"@.len() == 5);
            assert("@extra"@.len() == 6);
            reveal_with_fuel(get_spec, 4);
            lemma_get_spec_found(ms, "@type"@, 0);
            lemma_get_spec_found(ms, "@extra"@, 1);
            assert(tag_of(t) == Some(Self::tag_spec()));
            assert(ok_opt_str(t, "@extra"@));
            assert(Self::accepts(t));
            assert forall|w: Self| Self::decodes_from(t, w) implies #[trigger] w.eqv(v) by {
            }
        }
    }
}

impl RObject for ChatMembersFilterMembers {
    open spec fn tag_chars(&self) -> Seq<char> {
        Self::tag_spec()
    }

    open spec fn extra_spec(&self) -> Option<Seq<char>> {
        opt_str_view(self.extra)
    }

    fn td_name(&self) -> (r: &'static str) {
        "chatMembersFilterMembers"
    }

    fn extra(&self) -> (r: Option<String>) {
        clone_opt_string(&self.extra)
    }

    fn to_json(&self) -> (r: Result<String, EncodeError>) {
        crate::object::encode(self)
    }
}

impl TDChatMembersFilter for ChatMembersFilterMembers {

}

impl ChatMembersFilterMembers {
    pub fn from_json(json: &str) -> (r: Result<ChatMembersFilterMembers, DecodeError>)
        ensures
            match crate::parse::parse_doc(json@) {
                Some(t) => match r {
                    Ok(v) => Self::accepts(t) && Self::decodes_from(t, v),
                    Err(e) => !Self::accepts(t) && crate::errors::err_matches(e, Self::err_of(t)),
                },
                None => r matches Err(e) && e == DecodeError::Malformed,
            },
    {
        crate::object::from_json::<ChatMembersFilterMembers>(json)
    }

    pub fn builder() -> (r: RTDChatMembersFilterMembersBuilder)
        ensures
            r.inner.extra is Some,
    {
        RTDChatMembersFilterMembersBuilder {
            inner: ChatMembersFilterMembers {
                extra: Some(new_token()),
            },
        }
    }
}

pub struct RTDChatMembersFilterMembersBuilder {
    pub inner: ChatMembersFilterMembers,
}

impl RTDChatMembersFilterMembersBuilder {
    pub fn build(&self) -> (r: ChatMembersFilterMembers)
        ensures
            r.eqv(self.inner),
    {
        self.inner.clone()
    }
}
/// Returns users under certain restrictions in the chat; can be used only by administrators in a supergroup
#[derive(Debug, PartialEq)]
pub struct ChatMembersFilterRestricted {
    pub extra: Option<String>,
}

impl ChatMembersFilterRestricted {
    pub open spec fn tag_spec() -> Seq<char> {
        "chatMembersFilterRestricted"@
    }

    /// The members of the wire object, in the order they are written.
    pub open spec fn members_spec(self) -> Seq<(Seq<char>, SpecJson)> {
        seq![
            ("@type"@, SpecJson::Str(Self::tag_spec())),
            ("@extra"@, opt_str_tree(opt_str_view(self.extra))),
        ]
    }

    pub open spec fn fields_ok(t: SpecJson) -> bool {
        &&& ok_opt_str(t, "@extra"@)
    }

    pub open spec fn fail_field(t: SpecJson) -> Seq<char> {
        if !ok_opt_str(t, "@extra"@) {
            "@extra"@
        } else {
            Seq::empty()
        }
    }

    /// The encoding of a value carries exactly this type's tag.
    pub proof fn lemma_wire_tag(v: ChatMembersFilterRestricted)
        ensures
            v.wire_tree() matches Some(t) ==> tag_of(t) == Some(ChatMembersFilterRestricted::tag_spec()),
    {
        if v.wire_tree() is Some {
            let t = v.wire_tree()->0;
            let ms = t->Obj_0;
            lemma_get_spec_found(ms, "@type"@, 0);
        }
    }
}

impl Clone for ChatMembersFilterRestricted {
    fn clone(&self) -> (res: Self)
        ensures
            res.eqv(*self),
    {
        ChatMembersFilterRestricted {
            extra: clone_opt_string(&self.extra),
        }
    }
}

impl Wire for ChatMembersFilterRestricted {
    open spec fn wire_tree(self) -> Option<SpecJson> {
        Some(SpecJson::Obj(self.members_spec()))
    }

    open spec fn accepts(t: SpecJson) -> bool {
        tag_of(t) is Some && Self::fields_ok(t)
    }

    open spec fn err_of(t: SpecJson) -> SpecDecodeError {
        match tag_of(t) {
            None => SpecDecodeError::Malformed,
            Some(_) => SpecDecodeError::FieldShapeMismatch(Self::tag_spec(), Self::fail_field(t)),
        }
    }

    open spec fn decodes_from(t: SpecJson, v: Self) -> bool {
        &&& m_opt_str(t, "@extra"@, v.extra)
    }

    open spec fn eqv(self, other: Self) -> bool {
        &&& eqv_opt_string(self.extra, other.extra)
    }

    fn clone_val(&self) -> (r: Self) {
        self.clone()
    }

    fn decode_tree(t: &JsonValue) -> (r: Result<Self, DecodeError>) {
        if get_tag(t).is_none() {
            return Err(DecodeError::Malformed);
        }
        let extra = match field_opt_string(t, "@extra") {
            Some(x) => x,
            None => {
                return Err(DecodeError::FieldShapeMismatch(
                    String::from_str("chatMembersFilterRestricted"),
                    String::from_str("@extra"),
                ));
            },
        };
        Ok(ChatMembersFilterRestricted { extra })
    }

    fn encode_tree(&self) -> (r: Result<JsonValue, EncodeError>) {
        let mut members: Vec<JsonMember> = Vec::new();
        proof {
            assert(view_members(members@) =~= Seq::<(Seq<char>, SpecJson)>::empty());
        }
        push_member(&mut members, "@type", JsonValue::Str(String::from_str("chatMembersFilterRestricted")));
        push_member(&mut members, "@extra", opt_string_tree(&self.extra));
        let node = JsonValue::Obj(members);
        proof {
            assert(view_members(members@) =~= self.members_spec());
            assert(node@ == self.wire_tree()->0);
        }
        Ok(node)
    }

    proof fn lemma_wire_wf(v: Self) {
        if v.wire_tree() is Some {
            let t = v.wire_tree()->0;
            let ms = t->Obj_0;
            assert(ms == v.members_spec());
            assert forall|i: int| 0 <= i < ms.len() implies wf(#[trigger] ms[i].1) by {
            }
        }
    }

    proof fn lemma_round_trip(v: Self) {
        if v.wire_tree() is Some {
            let t = v.wire_tree()->0;
            let ms = t->Obj_0;
            assert(ms == v.members_spec());
            reveal_strlit("@type");
            reveal_strlit("@extra");
            assert("@type"@.len() == 5);
            assert("@extra"@.len() == 6);
            reveal_with_fuel(get_spec, 4);
            lemma_get_spec_found(ms, "@type"@, 0);
            lemma_get_spec_found(ms, "@extra"@, 1);
            assert(tag_of(t) == Some(Self::tag_spec()));
            assert(ok_opt_str(t, "@extra"@));
            assert(Self::accepts(t));
            assert forall|w: Self| Self::decodes_from(t, w) implies #[trigger] w.eqv(v) by {
            }
        }
    }
}

impl RObject for ChatMembersFilterRestricted {
    open spec fn tag_chars(&self) -> Seq<char> {
        Self::tag_spec()
    }

    open spec fn extra_spec(&self) -> Option<Seq<char>> {
        opt_str_view(self.extra)
    }

    fn td_name(&self) -> (r: &'static str) {
        "chatMembersFilterRestricted"
    }

    fn extra(&self) -> (r: Option<String>) {
        clone_opt_string(&self.extra)
    }

    fn to_json(&self) -> (r: Result<String, EncodeError>) {
        crate::object::encode(self)
    }
}

impl TDChatMembersFilter for ChatMembersFilterRestricted {

}

impl ChatMembersFilterRestricted {
    pub fn from_json(json: &str) -> (r: Result<ChatMembersFilterRestricted, DecodeError>)
        ensures
            match crate::parse::parse_doc(json@) {
                Some(t) => match r {
                    Ok(v) => Self::accepts(t) && Self::decodes_from(t, v),
                    Err(e) => !Self::accepts(t) && crate::errors::err_matches(e, Self::err_of(t)),
                },
                None => r matches Err(e) && e == DecodeError::Malformed,
            },
    {
        crate::object::from_json::<ChatMembersFilterRestricted>(json)
    }

    pub fn builder() -> (r: RTDChatMembersFilterRestrictedBuilder)
        ensures
            r.inner.extra is Some,
    {
        RTDChatMembersFilterRestrictedBuilder {
            inner: ChatMembersFilterRestricted {
                extra: Some(new_token()),
            },
        }
    }
}

pub struct RTDChatMembersFilterRestrictedBuilder {
    pub inner: ChatMembersFilterRestricted,
}

impl RTDChatMembersFilterRestrictedBuilder {
    pub fn build(&self) -> (r: ChatMembersFilterRestricted)
        ensures
            r.eqv(self.inner),
    {
        self.inner.clone()
    }
}
} // verus!
