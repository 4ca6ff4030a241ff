use vstd::prelude::*;

use crate::errors::DecodeError;
use crate::errors::EncodeError;
use crate::errors::SpecDecodeError;
use crate::json::JsonMember;
use crate::json::JsonValue;
use crate::json::SpecJson;
use crate::json::i64_lex;
use crate::json::view_members;
use crate::json::wf;
use crate::object::RObject;
use crate::object::Wire;
use crate::object::clone_opt_string;
use crate::object::eqv_opt_string;
use crate::object::field_i64;
use crate::object::field_opt_string;
use crate::object::get_spec;
use crate::object::get_tag;
use crate::object::i64_lexeme;
use crate::object::lemma_get_spec_found;
use crate::object::m_i64;
use crate::object::m_opt_str;
use crate::object::new_token;
use crate::object::ok_i64;
use crate::object::ok_opt_str;
use crate::object::opt_str_tree;
use crate::object::opt_str_view;
use crate::object::opt_string_tree;
use crate::object::push_member;
use crate::object::str_eq;
use crate::object::tag_of;

verus! {

/// Describes an action suggested to the current user
pub trait TDSuggestedAction: RObject {

}

/// Describes an action suggested to the current user
#[derive(Debug, PartialEq)]
pub enum SuggestedAction {
    _Default(()),
    /// Suggests the user to check whether 2-step verification password is still remembered
    CheckPassword(SuggestedActionCheckPassword),
    /// Suggests the user to check whether authorization phone number is correct and change the phone number if it is inaccessible
    CheckPhoneNumber(SuggestedActionCheckPhoneNumber),
    /// Suggests the user to convert specified supergroup to a broadcast group
    ConvertToBroadcastGroup(SuggestedActionConvertToBroadcastGroup),
    /// Suggests the user to enable "archive_and_mute_new_chats_from_unknown_users" option
    EnableArchiveAndMuteNewChats(SuggestedActionEnableArchiveAndMuteNewChats),
    /// Suggests the user to see a hint about meaning of one and two ticks on sent message
    SeeTicksHint(SuggestedActionSeeTicksHint),
}

impl Clone for SuggestedAction {
    fn clone(&self) -> (res: Self)
        ensures
            res.eqv(*self),
    {
        match self {
            SuggestedAction::_Default(_) => SuggestedAction::_Default(()),
            SuggestedAction::CheckPassword(x) => SuggestedAction::CheckPassword(x.clone()),
            SuggestedAction::CheckPhoneNumber(x) => SuggestedAction::CheckPhoneNumber(x.clone()),
            SuggestedAction::ConvertToBroadcastGroup(x) => SuggestedAction::ConvertToBroadcastGroup(x.clone()),
            SuggestedAction::EnableArchiveAndMuteNewChats(x) => SuggestedAction::EnableArchiveAndMuteNewChats(x.clone()),
            SuggestedAction::SeeTicksHint(x) => SuggestedAction::SeeTicksHint(x.clone()),
        }
    }
}

impl SuggestedAction {
    /// The tags of this variant's alternatives are pairwise distinct.
    pub proof fn lemma_tags_distinct()
        ensures
            "suggestedActionCheckPassword"@ != "suggestedActionCheckPhoneNumber"@,
            "suggestedActionCheckPassword"@ != "suggestedActionConvertToBroadcastGroup"@,
            "suggestedActionCheckPassword"@ != "suggestedActionEnableArchiveAndMuteNewChats"@,
            "suggestedActionCheckPassword"@ != "suggestedActionSeeTicksHint"@,
            "suggestedActionCheckPhoneNumber"@ != "suggestedActionConvertToBroadcastGroup"@,
            "suggestedActionCheckPhoneNumber"@ != "suggestedActionEnableArchiveAndMuteNewChats"@,
            "suggestedActionCheckPhoneNumber"@ != "suggestedActionSeeTicksHint"@,
            "suggestedActionConvertToBroadcastGroup"@ != "suggestedActionEnableArchiveAndMuteNewChats"@,
            "suggestedActionConvertToBroadcastGroup"@ != "suggestedActionSeeTicksHint"@,
            "suggestedActionEnableArchiveAndMuteNewChats"@ != "suggestedActionSeeTicksHint"@,
    {
        reveal_strlit("suggestedActionCheckPassword");
        reveal_strlit("suggestedActionCheckPhoneNumber");
        reveal_strlit("suggestedActionConvertToBroadcastGroup");
        reveal_strlit("suggestedActionEnableArchiveAndMuteNewChats");
        reveal_strlit("suggestedActionSeeTicksHint");
        assert("suggestedActionCheckPassword"@.len() == 28);
        assert("suggestedActionCheckPhoneNumber"@.len() == 31);
        assert("suggestedActionConvertToBroadcastGroup"@.len() == 38);
        assert("suggestedActionEnableArchiveAndMuteNewChats"@.len() == 43);
        assert("suggestedActionSeeTicksHint"@.len() == 27);
    }
}

impl Wire for SuggestedAction {
    open spec fn wire_tree(self) -> Option<SpecJson> {
        match self {
            SuggestedAction::_Default(_) => None,
            SuggestedAction::CheckPassword(x) => x.wire_tree(),
            SuggestedAction::CheckPhoneNumber(x) => x.wire_tree(),
            SuggestedAction::ConvertToBroadcastGroup(x) => x.wire_tree(),
            SuggestedAction::EnableArchiveAndMuteNewChats(x) => x.wire_tree(),
            SuggestedAction::SeeTicksHint(x) => x.wire_tree(),
        }
    }

    open spec fn accepts(t: SpecJson) -> bool {
        match tag_of(t) {
            None => false,
            Some(g) => {
                if g == SuggestedActionCheckPassword::tag_spec() {
                    SuggestedActionCheckPassword::accepts(t)
                } else if g == SuggestedActionCheckPhoneNumber::tag_spec() {
                    SuggestedActionCheckPhoneNumber::accepts(t)
                } else if g == SuggestedActionConvertToBroadcastGroup::tag_spec() {
                    SuggestedActionConvertToBroadcastGroup::accepts(t)
                } else if g == SuggestedActionEnableArchiveAndMuteNewChats::tag_spec() {
                    SuggestedActionEnableArchiveAndMuteNewChats::accepts(t)
                } else if g == SuggestedActionSeeTicksHint::tag_spec() {
                    SuggestedActionSeeTicksHint::accepts(t)
                } else {
                    false
                }
            },
        }
    }

    open spec fn err_of(t: SpecJson) -> SpecDecodeError {
        match tag_of(t) {
            None => SpecDecodeError::Malformed,
            Some(g) => {
                if g == SuggestedActionCheckPassword::tag_spec() {
                    SuggestedActionCheckPassword::err_of(t)
                } else if g == SuggestedActionCheckPhoneNumber::tag_spec() {
                    SuggestedActionCheckPhoneNumber::err_of(t)
                } else if g == SuggestedActionConvertToBroadcastGroup::tag_spec() {
                    SuggestedActionConvertToBroadcastGroup::err_of(t)
                } else if g == SuggestedActionEnableArchiveAndMuteNewChats::tag_spec() {
                    SuggestedActionEnableArchiveAndMuteNewChats::err_of(t)
                } else if g == SuggestedActionSeeTicksHint::tag_spec() {
                    SuggestedActionSeeTicksHint::err_of(t)
                } else {
                    SpecDecodeError::UnrecognizedVariant(g)
                }
            },
        }
    }

    open spec fn decodes_from(t: SpecJson, v: Self) -> bool {
        match tag_of(t) {
            None => false,
            Some(g) => {
                if g == SuggestedActionCheckPassword::tag_spec() {
                    v matches SuggestedAction::CheckPassword(x) && SuggestedActionCheckPassword::decodes_from(t, x)
                } else if g == SuggestedActionCheckPhoneNumber::tag_spec() {
                    v matches SuggestedAction::CheckPhoneNumber(x) && SuggestedActionCheckPhoneNumber::decodes_from(t, x)
                } else if g == SuggestedActionConvertToBroadcastGroup::tag_spec() {
                    v matches SuggestedAction::ConvertToBroadcastGroup(x) && SuggestedActionConvertToBroadcastGroup::decodes_from(t, x)
                } else if g == SuggestedActionEnableArchiveAndMuteNewChats::tag_spec() {
                    v matches SuggestedAction::EnableArchiveAndMuteNewChats(x) && SuggestedActionEnableArchiveAndMuteNewChats::decodes_from(t, x)
                } else if g == SuggestedActionSeeTicksHint::tag_spec() {
                    v matches SuggestedAction::SeeTicksHint(x) && SuggestedActionSeeTicksHint::decodes_from(t, x)
                } else {
                    false
                }
            },
        }
    }

    open spec fn eqv(self, other: Self) -> bool {
        match (self, other) {
            (SuggestedAction::_Default(_), SuggestedAction::_Default(_)) => true,
            (SuggestedAction::CheckPassword(a), SuggestedAction::CheckPassword(b)) => a.eqv(b),
            (SuggestedAction::CheckPhoneNumber(a), SuggestedAction::CheckPhoneNumber(b)) => a.eqv(b),
            (SuggestedAction::ConvertToBroadcastGroup(a), SuggestedAction::ConvertToBroadcastGroup(b)) => a.eqv(b),
            (SuggestedAction::EnableArchiveAndMuteNewChats(a), SuggestedAction::EnableArchiveAndMuteNewChats(b)) => a.eqv(b),
            (SuggestedAction::SeeTicksHint(a), SuggestedAction::SeeTicksHint(b)) => a.eqv(b),
            _ => false,
        }
    }

    fn clone_val(&self) -> (r: Self) {
        self.clone()
    }

    fn decode_tree(t: &JsonValue) -> (r: Result<Self, DecodeError>) {
        let g = match get_tag(t) {
            Some(g) => g,
            None => {
                return Err(DecodeError::Malformed);
            },
        };
        if str_eq(g.as_str(), "suggestedActionCheckPassword") {
            match SuggestedActionCheckPassword::decode_tree(t) {
                Ok(x) => Ok(SuggestedAction::CheckPassword(x)),
                Err(e) => Err(e),
            }
        } else if str_eq(g.as_str(), "suggestedActionCheckPhoneNumber") {
            match SuggestedActionCheckPhoneNumber::decode_tree(t) {
                Ok(x) => Ok(SuggestedAction::CheckPhoneNumber(x)),
                Err(e) => Err(e),
            }
        } else if str_eq(g.as_str(), "suggestedActionConvertToBroadcastGroup") {
            match SuggestedActionConvertToBroadcastGroup::decode_tree(t) {
                Ok(x) => Ok(SuggestedAction::ConvertToBroadcastGroup(x)),
                Err(e) => Err(e),
            }
        } else if str_eq(g.as_str(), "suggestedActionEnableArchiveAndMuteNewChats") {
            match SuggestedActionEnableArchiveAndMuteNewChats::decode_tree(t) {
                Ok(x) => Ok(SuggestedAction::EnableArchiveAndMuteNewChats(x)),
                Err(e) => Err(e),
            }
        } else if str_eq(g.as_str(), "suggestedActionSeeTicksHint") {
            match SuggestedActionSeeTicksHint::decode_tree(t) {
                Ok(x) => Ok(SuggestedAction::SeeTicksHint(x)),
                Err(e) => Err(e),
            }
        } else {
            Err(DecodeError::UnrecognizedVariant(g))
        }
    }

    fn encode_tree(&self) -> (r: Result<JsonValue, EncodeError>) {
        match self {
            SuggestedAction::_Default(_) => Err(EncodeError::Unrepresentable),
            SuggestedAction::CheckPassword(x) => x.encode_tree(),
            SuggestedAction::CheckPhoneNumber(x) => x.encode_tree(),
            SuggestedAction::ConvertToBroadcastGroup(x) => x.encode_tree(),
            SuggestedAction::EnableArchiveAndMuteNewChats(x) => x.encode_tree(),
            SuggestedAction::SeeTicksHint(x) => x.encode_tree(),
        }
    }

    proof fn lemma_wire_wf(v: Self) {
        match v {
            SuggestedAction::_Default(_) => {},
            SuggestedAction::CheckPassword(x) => {
                SuggestedActionCheckPassword::lemma_wire_wf(x);
            },
            SuggestedAction::CheckPhoneNumber(x) => {
                SuggestedActionCheckPhoneNumber::lemma_wire_wf(x);
            },
            SuggestedAction::ConvertToBroadcastGroup(x) => {
                SuggestedActionConvertToBroadcastGroup::lemma_wire_wf(x);
            },
            SuggestedAction::EnableArchiveAndMuteNewChats(x) => {
                SuggestedActionEnableArchiveAndMuteNewChats::lemma_wire_wf(x);
            },
            SuggestedAction::SeeTicksHint(x) => {
                SuggestedActionSeeTicksHint::lemma_wire_wf(x);
            },
        }
    }

    proof fn lemma_round_trip(v: Self) {
        Self::lemma_tags_distinct();
        match v {
            SuggestedAction::_Default(_) => {},
            SuggestedAction::CheckPassword(x) => {
                if x.wire_tree() is Some {
                    let t = x.wire_tree()->0;
                    SuggestedActionCheckPassword::lemma_wire_tag(x);
                    SuggestedActionCheckPassword::lemma_round_trip(x);
                    assert(Self::accepts(t));
                    assert forall|w: Self| Self::decodes_from(t, w) implies #[trigger] w.eqv(v) by {
                        assert(w matches SuggestedAction::CheckPassword(xi) && SuggestedActionCheckPassword::decodes_from(t, xi));
                    }
                }
            },
            SuggestedAction::CheckPhoneNumber(x) => {
                if x.wire_tree() is Some {
                    let t = x.wire_tree()->0;
                    SuggestedActionCheckPhoneNumber::lemma_wire_tag(x);
                    SuggestedActionCheckPhoneNumber::lemma_round_trip(x);
                    assert(Self::accepts(t));
                    assert forall|w: Self| Self::decodes_from(t, w) implies #[trigger] w.eqv(v) by {
                        assert(w matches SuggestedAction::CheckPhoneNumber(xi) && SuggestedActionCheckPhoneNumber::decodes_from(t, xi));
                    }
                }
            },
            SuggestedAction::ConvertToBroadcastGroup(x) => {
                if x.wire_tree() is Some {
                    let t = x.wire_tree()->0;
                    SuggestedActionConvertToBroadcastGroup::lemma_wire_tag(x);
                    SuggestedActionConvertToBroadcastGroup::lemma_round_trip(x);
                    assert(Self::accepts(t));
                    assert forall|w: Self| Self::decodes_from(t, w) implies #[trigger] w.eqv(v) by {
                        assert(w matches SuggestedAction::ConvertToBroadcastGroup(xi) && SuggestedActionConvertToBroadcastGroup::decodes_from(t, xi));
                    }
                }
            },
            SuggestedAction::EnableArchiveAndMuteNewChats(x) => {
                if x.wire_tree() is Some {
                    let t = x.wire_tree()->0;
                    SuggestedActionEnableArchiveAndMuteNewChats::lemma_wire_tag(x);
                    SuggestedActionEnableArchiveAndMuteNewChats::lemma_round_trip(x);
                    assert(Self::accepts(t));
                    assert forall|w: Self| Self::decodes_from(t, w) implies #[trigger] w.eqv(v) by {
                        assert(w matches SuggestedAction::EnableArchiveAndMuteNewChats(xi) && SuggestedActionEnableArchiveAndMuteNewChats::decodes_from(t, xi));
                    }
                }
            },
            SuggestedAction::SeeTicksHint(x) => {
                if x.wire_tree() is Some {
                    let t = x.wire_tree()->0;
                    SuggestedActionSeeTicksHint::lemma_wire_tag(x);
                    SuggestedActionSeeTicksHint::lemma_round_trip(x);
                    assert(Self::accepts(t));
                    assert forall|w: Self| Self::decodes_from(t, w) implies #[trigger] w.eqv(v) by {
                        assert(w matches SuggestedAction::SeeTicksHint(xi) && SuggestedActionSeeTicksHint::decodes_from(t, xi));
                    }
                }
            },
        }
    }
}

impl RObject for SuggestedAction {
    open spec fn tag_chars(&self) -> Seq<char> {
        match self {
            SuggestedAction::_Default(_) => "-1"@,
            SuggestedAction::CheckPassword(x) => SuggestedActionCheckPassword::tag_spec(),
            SuggestedAction::CheckPhoneNumber(x) => SuggestedActionCheckPhoneNumber::tag_spec(),
            SuggestedAction::ConvertToBroadcastGroup(x) => SuggestedActionConvertToBroadcastGroup::tag_spec(),
            SuggestedAction::EnableArchiveAndMuteNewChats(x) => SuggestedActionEnableArchiveAndMuteNewChats::tag_spec(),
            SuggestedAction::SeeTicksHint(x) => SuggestedActionSeeTicksHint::tag_spec(),
        }
    }

    open spec fn extra_spec(&self) -> Option<Seq<char>> {
        match self {
            SuggestedAction::_Default(_) => None,
            SuggestedAction::CheckPassword(x) => opt_str_view(x.extra),
            SuggestedAction::CheckPhoneNumber(x) => opt_str_view(x.extra),
            SuggestedAction::ConvertToBroadcastGroup(x) => opt_str_view(x.extra),
            SuggestedAction::EnableArchiveAndMuteNewChats(x) => opt_str_view(x.extra),
            SuggestedAction::SeeTicksHint(x) => opt_str_view(x.extra),
    }
    }

    fn td_name(&self) -> (r: &'static str) {
        match self {
            SuggestedAction::_Default(_) => "-1",
            SuggestedAction::CheckPassword(x) => x.td_name(),
            SuggestedAction::CheckPhoneNumber(x) => x.td_name(),
            SuggestedAction::ConvertToBroadcastGroup(x) => x.td_name(),
            SuggestedAction::EnableArchiveAndMuteNewChats(x) => x.td_name(),
            SuggestedAction::SeeTicksHint(x) => x.td_name(),
        }
    }

    fn extra(&self) -> (r: Option<String>) {
        match self {
            SuggestedAction::_Default(_) => None,
            SuggestedAction::CheckPassword(x) => clone_opt_string(&x.extra),
            SuggestedAction::CheckPhoneNumber(x) => clone_opt_string(&x.extra),
            SuggestedAction::ConvertToBroadcastGroup(x) => clone_opt_string(&x.extra),
            SuggestedAction::EnableArchiveAndMuteNewChats(x) => clone_opt_string(&x.extra),
            SuggestedAction::SeeTicksHint(x) => clone_opt_string(&x.extra),
        }
    }

    fn to_json(&self) -> (r: Result<String, EncodeError>) {
        crate::object::encode(self)
    }
}

impl SuggestedAction {
    pub fn from_json(json: &str) -> (r: Result<SuggestedAction, DecodeError>)
        ensures
            match crate::parse::parse_doc(json@) {
                Some(t) => match r {
                    Ok(v) => Self::accepts(t) && Self::decodes_from(t, v),
                    Err(e) => !Self::accepts(t) && crate::errors::err_matches(e, Self::err_of(t)),
                },
                None => r matches Err(e) && e == DecodeError::Malformed,
            },
    {
        crate::object::from_json::<SuggestedAction>(json)
    }

    pub fn _is_default(&self) -> (r: bool)
        ensures
            r == (self is _Default),
    {
        match self {
            SuggestedAction::_Default(_) => true,
            _ => false,
        }
    }

    pub fn is_check_password(&self) -> (r: bool)
        ensures
            r == (self is CheckPassword),
    {
        match self {
            SuggestedAction::CheckPassword(_) => true,
            _ => false,
        }
    }

    pub fn is_check_phone_number(&self) -> (r: bool)
        ensures
            r == (self is CheckPhoneNumber),
    {
        match self {
            SuggestedAction::CheckPhoneNumber(_) => true,
            _ => false,
        }
    }

    pub fn is_convert_to_broadcast_group(&self) -> (r: bool)
        ensures
            r == (self is ConvertToBroadcastGroup),
    {
        match self {
            SuggestedAction::ConvertToBroadcastGroup(_) => true,
            _ => false,
        }
    }

    pub fn is_enable_archive_and_mute_new_chats(&self) -> (r: bool)
        ensures
            r == (self is EnableArchiveAndMuteNewChats),
    {
        match self {
            SuggestedAction::EnableArchiveAndMuteNewChats(_) => true,
            _ => false,
        }
    }

    pub fn is_see_ticks_hint(&self) -> (r: bool)
        ensures
            r == (self is SeeTicksHint),
    {
        match self {
            SuggestedAction::SeeTicksHint(_) => true,
            _ => false,
        }
    }

    pub fn as_check_password(&self) -> (r: Option<&SuggestedActionCheckPassword>)
        ensures
            (self is CheckPassword) == (r is Some),
            r matches Some(x) ==> *x == self->CheckPassword_0,
    {
        match self {
            SuggestedAction::CheckPassword(x) => Some(x),
            _ => None,
        }
    }

    pub fn as_check_phone_number(&self) -> (r: Option<&SuggestedActionCheckPhoneNumber>)
        ensures
            (self is CheckPhoneNumber) == (r is Some),
            r matches Some(x) ==> *x == self->CheckPhoneNumber_0,
    {
        match self {
            SuggestedAction::CheckPhoneNumber(x) => Some(x),
            _ => None,
        }
    }

    pub fn as_convert_to_broadcast_group(&self) -> (r: Option<&SuggestedActionConvertToBroadcastGroup>)
        ensures
            (self is ConvertToBroadcastGroup) == (r is Some),
            r matches Some(x) ==> *x == self->ConvertToBroadcastGroup_0,
    {
        match self {
            SuggestedAction::ConvertToBroadcastGroup(x) => Some(x),
            _ => None,
        }
    }

    pub fn as_enable_archive_and_mute_new_chats(&self) -> (r: Option<&SuggestedActionEnableArchiveAndMuteNewChats>)
        ensures
            (self is EnableArchiveAndMuteNewChats) == (r is Some),
            r matches Some(x) ==> *x == self->EnableArchiveAndMuteNewChats_0,
    {
        match self {
            SuggestedAction::EnableArchiveAndMuteNewChats(x) => Some(x),
            _ => None,
        }
    }

    pub fn as_see_ticks_hint(&self) -> (r: Option<&SuggestedActionSeeTicksHint>)
        ensures
            (self is SeeTicksHint) == (r is Some),
            r matches Some(x) ==> *x == self->SeeTicksHint_0,
    {
        match self {
            SuggestedAction::SeeTicksHint(x) => Some(x),
            _ => None,
        }
    }

    pub fn check_password(t: &SuggestedActionCheckPassword) -> (r: Self)
        ensures
            r matches SuggestedAction::CheckPassword(x) && x.eqv(*t),
    {
        SuggestedAction::CheckPassword(t.clone())
    }

    pub fn check_phone_number(t: &SuggestedActionCheckPhoneNumber) -> (r: Self)
        ensures
            r matches SuggestedAction::CheckPhoneNumber(x) && x.eqv(*t),
    {
        SuggestedAction::CheckPhoneNumber(t.clone())
    }

    pub fn convert_to_broadcast_group(t: &SuggestedActionConvertToBroadcastGroup) -> (r: Self)
        ensures
            r matches SuggestedAction::ConvertToBroadcastGroup(x) && x.eqv(*t),
    {
        SuggestedAction::ConvertToBroadcastGroup(t.clone())
    }

    pub fn enable_archive_and_mute_new_chats(t: &SuggestedActionEnableArchiveAndMuteNewChats) -> (r: Self)
        ensures
            r matches SuggestedAction::EnableArchiveAndMuteNewChats(x) && x.eqv(*t),
    {
        SuggestedAction::EnableArchiveAndMuteNewChats(t.clone())
    }

    pub fn see_ticks_hint(t: &SuggestedActionSeeTicksHint) -> (r: Self)
        ensures
            r matches SuggestedAction::SeeTicksHint(x) && x.eqv(*t),
    {
        SuggestedAction::SeeTicksHint(t.clone())
    }
}
/// Suggests the user to check whether 2-step verification password is still remembered
#[derive(Debug, PartialEq)]
pub struct SuggestedActionCheckPassword {
    pub extra: Option<String>,
}

impl SuggestedActionCheckPassword {
    pub open spec fn tag_spec() -> Seq<char> {
        "suggestedActionCheckPassword"@
    }

    /// The members of the wire object, in the order they are written.
    pub open spec fn members_spec(self) -> Seq<(Seq<char>, SpecJson)> {
        seq![
            ("@type"@, SpecJson::Str(Self::tag_spec())),
            ("@extra"@, opt_str_tree(opt_str_view(self.extra))),
        ]
    }

    pub open spec fn fields_ok(t: SpecJson) -> bool {
        &&& ok_opt_str(t, "@extra"@)
    }

    pub open spec fn fail_field(t: SpecJson) -> Seq<char> {
        if !ok_opt_str(t, "@extra"@) {
            "@extra"@
        } else {
            Seq::empty()
        }
    }

    /// The encoding of a value carries exactly this type's tag.
    pub proof fn lemma_wire_tag(v: SuggestedActionCheckPassword)
        ensures
            v.wire_tree() matches Some(t) ==> tag_of(t) == Some(SuggestedActionCheckPassword::tag_spec()),
    {
        if v.wire_tree() is Some {
            let t = v.wire_tree()->0;
            let ms = t->Obj_0;
            lemma_get_spec_found(ms, "@type"@, 0);
        }
    }
}

impl Clone for SuggestedActionCheckPassword {
    fn clone(&self) -> (res: Self)
        ensures
            res.eqv(*self),
    {
        SuggestedActionCheckPassword {
            extra: clone_opt_string(&self.extra),
        }
    }
}

impl Wire for SuggestedActionCheckPassword {
    open spec fn wire_tree(self) -> Option<SpecJson> {
        Some(SpecJson::Obj(self.members_spec()))
    }

    open spec fn accepts(t: SpecJson) -> bool {
        tag_of(t) is Some && Self::fields_ok(t)
    }

    open spec fn err_of(t: SpecJson) -> SpecDecodeError {
        match tag_of(t) {
            None => SpecDecodeError::Malformed,
            Some(_) => SpecDecodeError::FieldShapeMismatch(Self::tag_spec(), Self::fail_field(t)),
        }
    }

    open spec fn decodes_from(t: SpecJson, v: Self) -> bool {
        &&& m_opt_str(t, "@extra"@, v.extra)
    }

    open spec fn eqv(self, other: Self) -> bool {
        &&& eqv_opt_string(self.extra, other.extra)
    }

    fn clone_val(&self) -> (r: Self) {
        self.clone()
    }

    fn decode_tree(t: &JsonValue) -> (r: Result<Self, DecodeError>) {
        if get_tag(t).is_none() {
            return Err(DecodeError::Malformed);
        }
        let extra = match field_opt_string(t, "@extra") {
            Some(x) => x,
            None => {
                return Err(DecodeError::FieldShapeMismatch(
                    String::from_str("suggestedActionCheckPassword"),
                    String::from_str("@extra"),
                ));
            },
        };
        Ok(SuggestedActionCheckPassword { extra })
    }

    fn encode_tree(&self) -> (r: Result<JsonValue, EncodeError>) {
        let mut members: Vec<JsonMember> = Vec::new();
        proof {
            assert(view_members(members@) =~= Seq::<(Seq<char>, SpecJson)>::empty());
        }
        push_member(&mut members, "@type", JsonValue::Str(String::from_str("suggestedActionCheckPassword")));
        push_member(&mut members, "@extra", opt_string_tree(&self.extra));
        let node = JsonValue::Obj(members);
        proof {
            assert(view_members(members@) =~= self.members_spec());
            assert(node@ == self.wire_tree()->0);
        }
        Ok(node)
    }

    proof fn lemma_wire_wf(v: Self) {
        if v.wire_tree() is Some {
            let t = v.wire_tree()->0;
            let ms = t->Obj_0;
            assert(ms == v.members_spec());
            assert forall|i: int| 0 <= i < ms.len() implies wf(#[trigger] ms[i].1) by {
            }
        }
    }

    proof fn lemma_round_trip(v: Self) {
        if v.wire_tree() is Some {
            let t = v.wire_tree()->0;
            let ms = t->Obj_0;
            assert(ms == v.members_spec());
            reveal_strlit("@type");
            reveal_strlit("@extra");
            assert("@type"@.len() == 5);
            assert("@extra"@.len() == 6);
            reveal_with_fuel(get_spec, 4);
            lemma_get_spec_found(ms, "@type"@, 0);
            lemma_get_spec_found(ms, "@extra"@, 1);
            assert(tag_of(t) == Some(Self::tag_spec()));
            assert(ok_opt_str(t, "@extra"@));
            assert(Self::accepts(t));
            assert forall|w: Self| Self::decodes_from(t, w) implies #[trigger] w.eqv(v) by {
            }
        }
    }
}

impl RObject for SuggestedActionCheckPassword {
    open spec fn tag_chars(&self) -> Seq<char> {
        Self::tag_spec()
    }

    open spec fn extra_spec(&self) -> Option<Seq<char>> {
        opt_str_view(self.extra)
    }

    fn td_name(&self) -> (r: &'static str) {
        "suggestedActionCheckPassword"
    }

    fn extra(&self) -> (r: Option<String>) {
        clone_opt_string(&self.extra)
    }

    fn to_json(&self) -> (r: Result<String, EncodeError>) {
        crate::object::encode(self)
    }
}

impl TDSuggestedAction for SuggestedActionCheckPassword {

}

impl SuggestedActionCheckPassword {
    pub fn from_json(json: &str) -> (r: Result<SuggestedActionCheckPassword, DecodeError>)
        ensures
            match crate::parse::parse_doc(json@) {
                Some(t) => match r {
                    Ok(v) => Self::accepts(t) && Self::decodes_from(t, v),
                    Err(e) => !Self::accepts(t) && crate::errors::err_matches(e, Self::err_of(t)),
                },
                None => r matches Err(e) && e == DecodeError::Malformed,
            },
    {
        crate::object::from_json::<SuggestedActionCheckPassword>(json)
    }

    pub fn builder() -> (r: RTDSuggestedActionCheckPasswordBuilder)
        ensures
            r.inner.extra is Some,
    {
        RTDSuggestedActionCheckPasswordBuilder {
            inner: SuggestedActionCheckPassword {
                extra: Some(new_token()),
            },
        }
    }
}

pub struct RTDSuggestedActionCheckPasswordBuilder {
    pub inner: SuggestedActionCheckPassword,
}

impl RTDSuggestedActionCheckPasswordBuilder {
    pub fn build(&self) -> (r: SuggestedActionCheckPassword)
        ensures
            r.eqv(self.inner),
    {
        self.inner.clone()
    }
}
/// Suggests the user to check whether authorization phone number is correct and change the phone number if it is inaccessible
#[derive(Debug, PartialEq)]
pub struct SuggestedActionCheckPhoneNumber {
    pub extra: Option<String>,
}

impl SuggestedActionCheckPhoneNumber {
    pub open spec fn tag_spec() -> Seq<char> {
        "suggestedActionCheckPhoneNumber"@
    }

    /// The members of the wire object, in the order they are written.
    pub open spec fn members_spec(self) -> Seq<(Seq<char>, SpecJson)> {
        seq![
            ("@type"@, SpecJson::Str(Self::tag_spec())),
            ("@extra"@, opt_str_tree(opt_str_view(self.extra))),
        ]
    }

    pub open spec fn fields_ok(t: SpecJson) -> bool {
        &&& ok_opt_str(t, "@extra"@)
    }

    pub open spec fn fail_field(t: SpecJson) -> Seq<char> {
        if !ok_opt_str(t, "@extra"@) {
            "@extra"@
        } else {
            Seq::empty()
        }
    }

    /// The encoding of a value carries exactly this type's tag.
    pub proof fn lemma_wire_tag(v: SuggestedActionCheckPhoneNumber)
        ensures
            v.wire_tree() matches Some(t) ==> tag_of(t) == Some(SuggestedActionCheckPhoneNumber::tag_spec()),
    {
        if v.wire_tree() is Some {
            let t = v.wire_tree()->0;
            let ms = t->Obj_0;
            lemma_get_spec_found(ms, "@type"@, 0);
        }
    }
}

impl Clone for SuggestedActionCheckPhoneNumber {
    fn clone(&self) -> (res: Self)
        ensures
            res.eqv(*self),
    {
        SuggestedActionCheckPhoneNumber {
            extra: clone_opt_string(&self.extra),
        }
    }
}

impl Wire for SuggestedActionCheckPhoneNumber {
    open spec fn wire_tree(self) -> Option<SpecJson> {
        Some(SpecJson::Obj(self.members_spec()))
    }

    open spec fn accepts(t: SpecJson) -> bool {
        tag_of(t) is Some && Self::fields_ok(t)
    }

    open spec fn err_of(t: SpecJson) -> SpecDecodeError {
        match tag_of(t) {
            None => SpecDecodeError::Malformed,
            Some(_) => SpecDecodeError::FieldShapeMismatch(Self::tag_spec(), Self::fail_field(t)),
        }
    }

    open spec fn decodes_from(t: SpecJson, v: Self) -> bool {
        &&& m_opt_str(t, "@extra"@, v.extra)
    }

    open spec fn eqv(self, other: Self) -> bool {
        &&& eqv_opt_string(self.extra, other.extra)
    }

    fn clone_val(&self) -> (r: Self) {
        self.clone()
    }

    fn decode_tree(t: &JsonValue) -> (r: Result<Self, DecodeError>) {
        if get_tag(t).is_none() {
            return Err(DecodeError::Malformed);
        }
        let extra = match field_opt_string(t, "@extra") {
            Some(x) => x,
            None => {
                return Err(DecodeError::FieldShapeMismatch(
                    String::from_str("suggestedActionCheckPhoneNumber"),
                    String::from_str("@extra"),
                ));
            },
        };
        Ok(SuggestedActionCheckPhoneNumber { extra })
    }

    fn encode_tree(&self) -> (r: Result<JsonValue, EncodeError>) {
        let mut members: Vec<JsonMember> = Vec::new();
        proof {
            assert(view_members(members@) =~= Seq::<(Seq<char>, SpecJson)>::empty());
        }
        push_member(&mut members, "@type", JsonValue::Str(String::from_str("suggestedActionCheckPhoneNumber")));
        push_member(&mut members, "@extra", opt_string_tree(&self.extra));
        let node = JsonValue::Obj(members);
        proof {
            assert(view_members(members@) =~= self.members_spec());
            assert(node@ == self.wire_tree()->0);
        }
        Ok(node)
    }

    proof fn lemma_wire_wf(v: Self) {
        if v.wire_tree() is Some {
            let t = v.wire_tree()->0;
            let ms = t->Obj_0;
            assert(ms == v.members_spec());
            assert forall|i: int| 0 <= i < ms.len() implies wf(#[trigger] ms[i].1) by {
            }
        }
    }

    proof fn lemma_round_trip(v: Self) {
        if v.wire_tree() is Some {
            let t = v.wire_tree()->0;
            let ms = t->Obj_0;
            assert(ms == v.members_spec());
            reveal_strlit("@type");
            reveal_strlit("@extra");
            assert("@type"@.len() == 5);
            assert("@extra"@.len() == 6);
            reveal_with_fuel(get_spec, 4);
            lemma_get_spec_found(ms, "@type"@, 0);
            lemma_get_spec_found(ms, "@extra"@, 1);
            assert(tag_of(t) == Some(Self::tag_spec()));
            assert(ok_opt_str(t, "@extra"@));
            assert(Self::accepts(t));
            assert forall|w: Self| Self::decodes_from(t, w) implies #[trigger] w.eqv(v) by {
            }
        }
    }
}

impl RObject for SuggestedActionCheckPhoneNumber {
    open spec fn tag_chars(&self) -> Seq<char> {
        Self::tag_spec()
    }

    open spec fn extra_spec(&self) -> Option<Seq<char>> {
        opt_str_view(self.extra)
    }

    fn td_name(&self) -> (r: &'static str) {
        "suggestedActionCheckPhoneNumber"
    }

    fn extra(&self) -> (r: Option<String>) {
        clone_opt_string(&self.extra)
    }

    fn to_json(&self) -> (r: Result<String, EncodeError>) {
        crate::object::encode(self)
    }
}

impl TDSuggestedAction for SuggestedActionCheckPhoneNumber {

}

impl SuggestedActionCheckPhoneNumber {
    pub fn from_json(json: &str) -> (r: Result<SuggestedActionCheckPhoneNumber, DecodeError>)
        ensures
            match crate::parse::parse_doc(json@) {
                Some(t) => match r {
                    Ok(v) => Self::accepts(t) && Self::decodes_from(t, v),
                    Err(e) => !Self::accepts(t) && crate::errors::err_matches(e, Self::err_of(t)),
                },
                None => r matches Err(e) && e == DecodeError::Malformed,
            },
    {
        crate::object::from_json::<SuggestedActionCheckPhoneNumber>(json)
    }

    pub fn builder() -> (r: RTDSuggestedActionCheckPhoneNumberBuilder)
        ensures
            r.inner.extra is Some,
    {
        RTDSuggestedActionCheckPhoneNumberBuilder {
            inner: SuggestedActionCheckPhoneNumber {
                extra: Some(new_token()),
            },
        }
    }
}

pub struct RTDSuggestedActionCheckPhoneNumberBuilder {
    pub inner: SuggestedActionCheckPhoneNumber,
}

impl RTDSuggestedActionCheckPhoneNumberBuilder {
    pub fn build(&self) -> (r: SuggestedActionCheckPhoneNumber)
        ensures
            r.eqv(self.inner),
    {
        self.inner.clone()
    }
}
/// Suggests the user to convert specified supergroup to a broadcast group
#[derive(Debug, PartialEq)]
pub struct SuggestedActionConvertToBroadcastGroup {
    pub extra: Option<String>,
    /// Supergroup identifier
    pub supergroup_id: i64,
}

impl SuggestedActionConvertToBroadcastGroup {
    pub open spec fn tag_spec() -> Seq<char> {
        "suggestedActionConvertToBroadcastGroup"@
    }

    /// The members of the wire object, in the order they are written.
    pub open spec fn members_spec(self) -> Seq<(Seq<char>, SpecJson)> {
        seq![
            ("@type"@, SpecJson::Str(Self::tag_spec())),
            ("@extra"@, opt_str_tree(opt_str_view(self.extra))),
            ("supergroup_id"@, SpecJson::Num(i64_lex(self.supergroup_id as int))),
        ]
    }

    pub open spec fn fields_ok(t: SpecJson) -> bool {
        &&& ok_opt_str(t, "@extra"@)
        &&& ok_i64(t, "supergroup_id"@)
    }

    pub open spec fn fail_field(t: SpecJson) -> Seq<char> {
        if !ok_opt_str(t, "@extra"@) {
            "@extra"@
        } else if !(ok_i64(t, "supergroup_id"@)) {
            "supergroup_id"@
        } else {
            Seq::empty()
        }
    }

    /// The encoding of a value carries exactly this type's tag.
    pub proof fn lemma_wire_tag(v: SuggestedActionConvertToBroadcastGroup)
        ensures
            v.wire_tree() matches Some(t) ==> tag_of(t) == Some(SuggestedActionConvertToBroadcastGroup::tag_spec()),
    {
        if v.wire_tree() is Some {
            let t = v.wire_tree()->0;
            let ms = t->Obj_0;
            lemma_get_spec_found(ms, "@type"@, 0);
        }
    }
}

impl Clone for SuggestedActionConvertToBroadcastGroup {
    fn clone(&self) -> (res: Self)
        ensures
            res.eqv(*self),
    {
        SuggestedActionConvertToBroadcastGroup {
            extra: clone_opt_string(&self.extra),
            supergroup_id: self.supergroup_id,
        }
    }
}

impl Wire for SuggestedActionConvertToBroadcastGroup {
    open spec fn wire_tree(self) -> Option<SpecJson> {
        Some(SpecJson::Obj(self.members_spec()))
    }

    open spec fn accepts(t: SpecJson) -> bool {
        tag_of(t) is Some && Self::fields_ok(t)
    }

    open spec fn err_of(t: SpecJson) -> SpecDecodeError {
        match tag_of(t) {
            None => SpecDecodeError::Malformed,
            Some(_) => SpecDecodeError::FieldShapeMismatch(Self::tag_spec(), Self::fail_field(t)),
        }
    }

    open spec fn decodes_from(t: SpecJson, v: Self) -> bool {
        &&& m_opt_str(t, "@extra"@, v.extra)
        &&& m_i64(t, "supergroup_id"@, v.supergroup_id)
    }

    open spec fn eqv(self, other: Self) -> bool {
        &&& eqv_opt_string(self.extra, other.extra)
        &&& self.supergroup_id == other.supergroup_id
    }

    fn clone_val(&self) -> (r: Self) {
        self.clone()
    }

    fn decode_tree(t: &JsonValue) -> (r: Result<Self, DecodeError>) {
        if get_tag(t).is_none() {
            return Err(DecodeError::Malformed);
        }
        let extra = match field_opt_string(t, "@extra") {
            Some(x) => x,
            None => {
                return Err(DecodeError::FieldShapeMismatch(
                    String::from_str("suggestedActionConvertToBroadcastGroup"),
                    String::from_str("@extra"),
                ));
            },
        };
        let supergroup_id = match field_i64(t, "supergroup_id") {
            Some(x) => x,
            None => {
                return Err(DecodeError::FieldShapeMismatch(
                    String::from_str("suggestedActionConvertToBroadcastGroup"),
                    String::from_str("supergroup_id"),
                ));
            },
        };
        Ok(SuggestedActionConvertToBroadcastGroup { extra, supergroup_id })
    }

    fn encode_tree(&self) -> (r: Result<JsonValue, EncodeError>) {
        let mut members: Vec<JsonMember> = Vec::new();
        proof {
            assert(view_members(members@) =~= Seq::<(Seq<char>, SpecJson)>::empty());
        }
        push_member(&mut members, "@type", JsonValue::Str(String::from_str("suggestedActionConvertToBroadcastGroup")));
        push_member(&mut members, "@extra", opt_string_tree(&self.extra));
        push_member(&mut members, "supergroup_id", JsonValue::Num(i64_lexeme(self.supergroup_id)));
        let node = JsonValue::Obj(members);
        proof {
            assert(view_members(members@) =~= self.members_spec());
            assert(node@ == self.wire_tree()->0);
        }
        Ok(node)
    }

    proof fn lemma_wire_wf(v: Self) {
        if v.wire_tree() is Some {
            let t = v.wire_tree()->0;
            let ms = t->Obj_0;
            assert(ms == v.members_spec());
            crate::json::lemma_i64_lex(v.supergroup_id);
            assert forall|i: int| 0 <= i < ms.len() implies wf(#[trigger] ms[i].1) by {
            }
        }
    }

    proof fn lemma_round_trip(v: Self) {
        if v.wire_tree() is Some {
            let t = v.wire_tree()->0;
            let ms = t->Obj_0;
            assert(ms == v.members_spec());
            reveal_strlit("@type");
            reveal_strlit("@extra");
            reveal_strlit("supergroup_id");
            assert("@type"@.len() == 5);
            assert("@extra"@.len() == 6);
            assert("supergroup_id"@.len() == 13);
            reveal_with_fuel(get_spec, 5);
            lemma_get_spec_found(ms, "@type"@, 0);
            lemma_get_spec_found(ms, "@extra"@, 1);
            lemma_get_spec_found(ms, "supergroup_id"@, 2);
            assert(tag_of(t) == Some(Self::tag_spec()));
            assert(ok_opt_str(t, "@extra"@));
            crate::json::lemma_i64_lex(v.supergroup_id);
            assert(ok_i64(t, "supergroup_id"@));
            assert(Self::accepts(t));
            assert forall|w: Self| Self::decodes_from(t, w) implies #[trigger] w.eqv(v) by {
            }
        }
    }
}

impl RObject for SuggestedActionConvertToBroadcastGroup {
    open spec fn tag_chars(&self) -> Seq<char> {
        Self::tag_spec()
    }

    open spec fn extra_spec(&self) -> Option<Seq<char>> {
        opt_str_view(self.extra)
    }

    fn td_name(&self) -> (r: &'static str) {
        "suggestedActionConvertToBroadcastGroup"
    }

    fn extra(&self) -> (r: Option<String>) {
        clone_opt_string(&self.extra)
    }

    fn to_json(&self) -> (r: Result<String, EncodeError>) {
        crate::object::encode(self)
    }
}

impl TDSuggestedAction for SuggestedActionConvertToBroadcastGroup {

}

impl SuggestedActionConvertToBroadcastGroup {
    pub fn from_json(json: &str) -> (r: Result<SuggestedActionConvertToBroadcastGroup, DecodeError>)
        ensures
            match crate::parse::parse_doc(json@) {
                Some(t) => match r {
                    Ok(v) => Self::accepts(t) && Self::decodes_from(t, v),
                    Err(e) => !Self::accepts(t) && crate::errors::err_matches(e, Self::err_of(t)),
                },
                None => r matches Err(e) && e == DecodeError::Malformed,
            },
    {
        crate::object::from_json::<SuggestedActionConvertToBroadcastGroup>(json)
    }

    pub fn builder() -> (r: RTDSuggestedActionConvertToBroadcastGroupBuilder)
        ensures
            r.inner.extra is Some,
            r.inner.supergroup_id == 0,
    {
        RTDSuggestedActionConvertToBroadcastGroupBuilder {
            inner: SuggestedActionConvertToBroadcastGroup {
                extra: Some(new_token()),
                supergroup_id: 0,
            },
        }
    }

    pub fn supergroup_id(&self) -> (r: i64)
        ensures
            r == self.supergroup_id,
    {
        self.supergroup_id
    }
}

pub struct RTDSuggestedActionConvertToBroadcastGroupBuilder {
    pub inner: SuggestedActionConvertToBroadcastGroup,
}

impl RTDSuggestedActionConvertToBroadcastGroupBuilder {
    pub fn build(&self) -> (r: SuggestedActionConvertToBroadcastGroup)
        ensures
            r.eqv(self.inner),
    {
        self.inner.clone()
    }

    pub fn supergroup_id(&mut self, supergroup_id: i64) -> (r: &mut Self)
        ensures
            *r == (RTDSuggestedActionConvertToBroadcastGroupBuilder { inner: SuggestedActionConvertToBroadcastGroup { supergroup_id: supergroup_id, ..old(self).inner } }),
            *final(self) == *final(r),
    {
        self.inner.supergroup_id = supergroup_id;
        self
    }
}
/// Suggests the user to enable "archive_and_mute_new_chats_from_unknown_users" option
#[derive(Debug, PartialEq)]
pub struct SuggestedActionEnableArchiveAndMuteNewChats {
    pub extra: Option<String>,
}

impl SuggestedActionEnableArchiveAndMuteNewChats {
    pub open spec fn tag_spec() -> Seq<char> {
        "suggestedActionEnableArchiveAndMuteNewChats"@
    }

    /// The members of the wire object, in the order they are written.
    pub open spec fn members_spec(self) -> Seq<(Seq<char>, SpecJson)> {
        seq![
            ("@type"@, SpecJson::Str(Self::tag_spec())),
            ("@extra"@, opt_str_tree(opt_str_view(self.extra))),
        ]
    }

    pub open spec fn fields_ok(t: SpecJson) -> bool {
        &&& ok_opt_str(t, "@extra"@)
    }

    pub open spec fn fail_field(t: SpecJson) -> Seq<char> {
        if !ok_opt_str(t, "@extra"@) {
            "@extra"@
        } else {
            Seq::empty()
        }
    }

    /// The encoding of a value carries exactly this type's tag.
    pub proof fn lemma_wire_tag(v: SuggestedActionEnableArchiveAndMuteNewChats)
        ensures
            v.wire_tree() matches Some(t) ==> tag_of(t) == Some(SuggestedActionEnableArchiveAndMuteNewChats::tag_spec()),
    {
        if v.wire_tree() is Some {
            let t = v.wire_tree()->0;
            let ms = t->Obj_0;
            lemma_get_spec_found(ms, "@type"@, 0);
        }
    }
}

impl Clone for SuggestedActionEnableArchiveAndMuteNewChats {
    fn clone(&self) -> (res: Self)
        ensures
            res.eqv(*self),
    {
        SuggestedActionEnableArchiveAndMuteNewChats {
            extra: clone_opt_string(&self.extra),
        }
    }
}

impl Wire for SuggestedActionEnableArchiveAndMuteNewChats {
    open spec fn wire_tree(self) -> Option<SpecJson> {
        Some(SpecJson::Obj(self.members_spec()))
    }

    open spec fn accepts(t: SpecJson) -> bool {
        tag_of(t) is Some && Self::fields_ok(t)
    }

    open spec fn err_of(t: SpecJson) -> SpecDecodeError {
        match tag_of(t) {
            None => SpecDecodeError::Malformed,
            Some(_) => SpecDecodeError::FieldShapeMismatch(Self::tag_spec(), Self::fail_field(t)),
        }
    }

    open spec fn decodes_from(t: SpecJson, v: Self) -> bool {
        &&& m_opt_str(t, "@extra"@, v.extra)
    }

    open spec fn eqv(self, other: Self) -> bool {
        &&& eqv_opt_string(self.extra, other.extra)
    }

    fn clone_val(&self) -> (r: Self) {
        self.clone()
    }

    fn decode_tree(t: &JsonValue) -> (r: Result<Self, DecodeError>) {
        if get_tag(t).is_none() {
            return Err(DecodeError::Malformed);
        }
        let extra = match field_opt_string(t, "@extra") {
            Some(x) => x,
            None => {
                return Err(DecodeError::FieldShapeMismatch(
                    String::from_str("suggestedActionEnableArchiveAndMuteNewChats"),
                    String::from_str("@extra"),
                ));
            },
        };
        Ok(SuggestedActionEnableArchiveAndMuteNewChats { extra })
    }

    fn encode_tree(&self) -> (r: Result<JsonValue, EncodeError>) {
        let mut members: Vec<JsonMember> = Vec::new();
        proof {
            assert(view_members(members@) =~= Seq::<(Seq<char>, SpecJson)>::empty());
        }
        push_member(&mut members, "@type", JsonValue::Str(String::from_str("suggestedActionEnableArchiveAndMuteNewChats")));
        push_member(&mut members, "@extra", opt_string_tree(&self.extra));
        let node = JsonValue::Obj(members);
        proof {
            assert(view_members(members@) =~= self.members_spec());
            assert(node@ == self.wire_tree()->0);
        }
        Ok(node)
    }

    proof fn lemma_wire_wf(v: Self) {
        if v.wire_tree() is Some {
            let t = v.wire_tree()->0;
            let ms = t->Obj_0;
            assert(ms == v.members_spec());
            assert forall|i: int| 0 <= i < ms.len() implies wf(#[trigger] ms[i].1) by {
            }
        }
    }

    proof fn lemma_round_trip(v: Self) {
        if v.wire_tree() is Some {
            let t = v.wire_tree()->0;
            let ms = t->Obj_0;
            assert(ms == v.members_spec());
            reveal_strlit("@type");
            reveal_strlit("@extra");
            assert("@type"@.len() == 5);
            assert("@extra"@.len() == 6);
            reveal_with_fuel(get_spec, 4);
            lemma_get_spec_found(ms, "@type"@, 0);
            lemma_get_spec_found(ms, "@extra"@, 1);
            assert(tag_of(t) == Some(Self::tag_spec()));
            assert(ok_opt_str(t, "@extra"@));
            assert(Self::accepts(t));
            assert forall|w: Self| Self::decodes_from(t, w) implies #[trigger] w.eqv(v) by {
            }
        }
    }
}

impl RObject for SuggestedActionEnableArchiveAndMuteNewChats {
    open spec fn tag_chars(&self) -> Seq<char> {
        Self::tag_spec()
    }

    open spec fn extra_spec(&self) -> Option<Seq<char>> {
        opt_str_view(self.extra)
    }

    fn td_name(&self) -> (r: &'static str) {
        "suggestedActionEnableArchiveAndMuteNewChats"
    }

    fn extra(&self) -> (r: Option<String>) {
        clone_opt_string(&self.extra)
    }

    fn to_json(&self) -> (r: Result<String, EncodeError>) {
        crate::object::encode(self)
    }
}

impl TDSuggestedAction for SuggestedActionEnableArchiveAndMuteNewChats {

}

impl SuggestedActionEnableArchiveAndMuteNewChats {
    pub fn from_json(json: &str) -> (r: Result<SuggestedActionEnableArchiveAndMuteNewChats, DecodeError>)
        ensures
            match crate::parse::parse_doc(json@) {
                Some(t) => match r {
                    Ok(v) => Self::accepts(t) && Self::decodes_from(t, v),
                    Err(e) => !Self::accepts(t) && crate::errors::err_matches(e, Self::err_of(t)),
                },
                None => r matches Err(e) && e == DecodeError::Malformed,
            },
    {
        crate::object::from_json::<SuggestedActionEnableArchiveAndMuteNewChats>(json)
    }

    pub fn builder() -> (r: RTDSuggestedActionEnableArchiveAndMuteNewChatsBuilder)
        ensures
            r.inner.extra is Some,
    {
        RTDSuggestedActionEnableArchiveAndMuteNewChatsBuilder {
            inner: SuggestedActionEnableArchiveAndMuteNewChats {
                extra: Some(new_token()),
            },
        }
    }
}

pub struct RTDSuggestedActionEnableArchiveAndMuteNewChatsBuilder {
    pub inner: SuggestedActionEnableArchiveAndMuteNewChats,
}

impl RTDSuggestedActionEnableArchiveAndMuteNewChatsBuilder {
    pub fn build(&self) -> (r: SuggestedActionEnableArchiveAndMuteNewChats)
        ensures
            r.eqv(self.inner),
    {
        self.inner.clone()
    }
}
/// Suggests the user to see a hint about meaning of one and two ticks on sent message
#[derive(Debug, PartialEq)]
pub struct SuggestedActionSeeTicksHint {
    pub extra: Option<String>,
}

impl SuggestedActionSeeTicksHint {
    pub open spec fn tag_spec() -> Seq<char> {
        "suggestedActionSeeTicksHint"@
    }

    /// The members of the wire object, in the order they are written.
    pub open spec fn members_spec(self) -> Seq<(Seq<char>, SpecJson)> {
        seq![
            ("@type"@, SpecJson::Str(Self::tag_spec())),
            ("@extra"@, opt_str_tree(opt_str_view(self.extra))),
        ]
    }

    pub open spec fn fields_ok(t: SpecJson) -> bool {
        &&& ok_opt_str(t, "@extra"@)
    }

    pub open spec fn fail_field(t: SpecJson) -> Seq<char> {
        if !ok_opt_str(t, "@extra"@) {
            "@extra"@
        } else {
            Seq::empty()
        }
    }

    /// The encoding of a value carries exactly this type's tag.
    pub proof fn lemma_wire_tag(v: SuggestedActionSeeTicksHint)
        ensures
            v.wire_tree() matches Some(t) ==> tag_of(t) == Some(SuggestedActionSeeTicksHint::tag_spec()),
    {
        if v.wire_tree() is Some {
            let t = v.wire_tree()->0;
            let ms = t->Obj_0;
            lemma_get_spec_found(ms, "@type"@, 0);
        }
    }
}

impl Clone for SuggestedActionSeeTicksHint {
    fn clone(&self) -> (res: Self)
        ensures
            res.eqv(*self),
    {
        SuggestedActionSeeTicksHint {
            extra: clone_opt_string(&self.extra),
        }
    }
}

impl Wire for SuggestedActionSeeTicksHint {
    open spec fn wire_tree(self) -> Option<SpecJson> {
        Some(SpecJson::Obj(self.members_spec()))
    }

    open spec fn accepts(t: SpecJson) -> bool {
        tag_of(t) is Some && Self::fields_ok(t)
    }

    open spec fn err_of(t: SpecJson) -> SpecDecodeError {
        match tag_of(t) {
            None => SpecDecodeError::Malformed,
            Some(_) => SpecDecodeError::FieldShapeMismatch(Self::tag_spec(), Self::fail_field(t)),
        }
    }

    open spec fn decodes_from(t: SpecJson, v: Self) -> bool {
        &&& m_opt_str(t, "@extra"@, v.extra)
    }

    open spec fn eqv(self, other: Self) -> bool {
        &&& eqv_opt_string(self.extra, other.extra)
    }

    fn clone_val(&self) -> (r: Self) {
        self.clone()
    }

    fn decode_tree(t: &JsonValue) -> (r: Result<Self, DecodeError>) {
        if get_tag(t).is_none() {
            return Err(DecodeError::Malformed);
        }
        let extra = match field_opt_string(t, "@extra") {
            Some(x) => x,
            None => {
                return Err(DecodeError::FieldShapeMismatch(
                    String::from_str("suggestedActionSeeTicksHint"),
                    String::from_str("@extra"),
                ));
            },
        };
        Ok(SuggestedActionSeeTicksHint { extra })
    }

    fn encode_tree(&self) -> (r: Result<JsonValue, EncodeError>) {
        let mut members: Vec<JsonMember> = Vec::new();
        proof {
            assert(view_members(members@) =~= Seq::<(Seq<char>, SpecJson)>::empty());
        }
        push_member(&mut members, "@type", JsonValue::Str(String::from_str("suggestedActionSeeTicksHint")));
        push_member(&mut members, "@extra", opt_string_tree(&self.extra));
        let node = JsonValue::Obj(members);
        proof {
            assert(view_members(members@) =~= self.members_spec());
            assert(node@ == self.wire_tree()->0);
        }
        Ok(node)
    }

    proof fn lemma_wire_wf(v: Self) {
        if v.wire_tree() is Some {
            let t = v.wire_tree()->0;
            let ms = t->Obj_0;
            assert(ms == v.members_spec());
            assert forall|i: int| 0 <= i < ms.len() implies wf(#[trigger] ms[i].1) by {
            }
        }
    }

    proof fn lemma_round_trip(v: Self) {
        if v.wire_tree() is Some {
            let t = v.wire_tree()->0;
            let ms = t->Obj_0;
            assert(ms == v.members_spec());
            reveal_strlit("@type");
            reveal_strlit("@extra");
            assert("@type"@.len() == 5);
            assert("@extra"@.len() == 6);
            reveal_with_fuel(get_spec, 4);
            lemma_get_spec_found(ms, "@type"@, 0);
            lemma_get_spec_found(ms, "@extra"@, 1);
            assert(tag_of(t) == Some(Self::tag_spec()));
            assert(ok_opt_str(t, "@extra"@));
            assert(Self::accepts(t));
            assert forall|w: Self| Self::decodes_from(t, w) implies #[trigger] w.eqv(v) by {
            }
        }
    }
}

impl RObject for SuggestedActionSeeTicksHint {
    open spec fn tag_chars(&self) -> Seq<char> {
        Self::tag_spec()
    }

    open spec fn extra_spec(&self) -> Option<Seq<char>> {
        opt_str_view(self.extra)
    }

    fn td_name(&self) -> (r: &'static str) {
        "suggestedActionSeeTicksHint"
    }

    fn extra(&self) -> (r: Option<String>) {
        clone_opt_string(&self.extra)
    }

    fn to_json(&self) -> (r: Result<String, EncodeError>) {
        crate::object::encode(self)
    }
}

impl TDSuggestedAction for SuggestedActionSeeTicksHint {

}

impl SuggestedActionSeeTicksHint {
    pub fn from_json(json: &str) -> (r: Result<SuggestedActionSeeTicksHint, DecodeError>)
        ensures
            match crate::parse::parse_doc(json@) {
                Some(t) => match r {
                    Ok(v) => Self::accepts(t) && Self::decodes_from(t, v),
                    Err(e) => !Self::accepts(t) && crate::errors::err_matches(e, Self::err_of(t)),
                },
                None => r matches Err(e) && e == DecodeError::Malformed,
            },
    {
        crate::object::from_json::<SuggestedActionSeeTicksHint>(json)
    }

    pub fn builder() -> (r: RTDSuggestedActionSeeTicksHintBuilder)
        ensures
            r.inner.extra is Some,
    {
        RTDSuggestedActionSeeTicksHintBuilder {
            inner: SuggestedActionSeeTicksHint {
                extra: Some(new_token()),
            },
        }
    }
}

pub struct RTDSuggestedActionSeeTicksHintBuilder {
    pub inner: SuggestedActionSeeTicksHint,
}

impl RTDSuggestedActionSeeTicksHintBuilder {
    pub fn build(&self) -> (r: SuggestedActionSeeTicksHint)
        ensures
            r.eqv(self.inner),
    {
        self.inner.clone()
    }
}
} // verus!
