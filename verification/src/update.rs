use vstd::prelude::*;

use crate::errors::DecodeError;
use crate::errors::EncodeError;
use crate::errors::SpecDecodeError;
use crate::json::JsonMember;
use crate::json::JsonValue;
use crate::json::SpecJson;
use crate::json::view_members;
use crate::json::wf;
use crate::object::RObject;
use crate::object::Wire;
use crate::object::clone_opt_string;
use crate::object::eqv_opt_string;
use crate::object::field_opt_string;
use crate::object::get_field;
use crate::object::get_spec;
use crate::object::get_tag;
use crate::object::lemma_get_spec_found;
use crate::object::m_custom;
use crate::object::m_opt_str;
use crate::object::new_token;
use crate::object::ok_custom;
use crate::object::ok_opt_str;
use crate::object::opt_str_tree;
use crate::object::opt_str_view;
use crate::object::opt_string_tree;
use crate::object::push_member;
use crate::object::str_eq;
use crate::object::tag_of;
use crate::authorization_state::AuthorizationState;

verus! {

/// Contains notifications about data changes
pub trait TDUpdate: RObject {

}

/// Contains notifications about data changes
#[derive(Debug, PartialEq)]
pub enum Update {
    _Default(()),
    /// The user authorization state has changed
    AuthorizationState(UpdateAuthorizationState),
}

impl Clone for Update {
    fn clone(&self) -> (res: Self)
        ensures
            res.eqv(*self),
    {
        match self {
            Update::_Default(_) => Update::_Default(()),
            Update::AuthorizationState(x) => Update::AuthorizationState(x.clone()),
        }
    }
}

impl Wire for Update {
    open spec fn wire_tree(self) -> Option<SpecJson> {
        match self {
            Update::_Default(_) => None,
            Update::AuthorizationState(x) => x.wire_tree(),
        }
    }

    open spec fn accepts(t: SpecJson) -> bool {
        match tag_of(t) {
            None => false,
            Some(g) => {
                if g == UpdateAuthorizationState::tag_spec() {
                    UpdateAuthorizationState::accepts(t)
                } else {
                    false
                }
            },
        }
    }

    open spec fn err_of(t: SpecJson) -> SpecDecodeError {
        match tag_of(t) {
            None => SpecDecodeError::Malformed,
            Some(g) => {
                if g == UpdateAuthorizationState::tag_spec() {
                    UpdateAuthorizationState::err_of(t)
                } else {
                    SpecDecodeError::UnrecognizedVariant(g)
                }
            },
        }
    }

    open spec fn decodes_from(t: SpecJson, v: Self) -> bool {
        match tag_of(t) {
            None => false,
            Some(g) => {
                if g == UpdateAuthorizationState::tag_spec() {
                    v matches Update::AuthorizationState(x) && UpdateAuthorizationState::decodes_from(t, x)
                } else {
                    false
                }
            },
        }
    }

    open spec fn eqv(self, other: Self) -> bool {
        match (self, other) {
            (Update::_Default(_), Update::_Default(_)) => true,
            (Update::AuthorizationState(a), Update::AuthorizationState(b)) => a.eqv(b),
            _ => false,
        }
    }

    fn clone_val(&self) -> (r: Self) {
        self.clone()
    }

    fn decode_tree(t: &JsonValue) -> (r: Result<Self, DecodeError>) {
        let g = match get_tag(t) {
            Some(g) => g,
            None => {
                return Err(DecodeError::Malformed);
            },
        };
        if str_eq(g.as_str(), "updateAuthorizationState") {
            match UpdateAuthorizationState::decode_tree(t) {
                Ok(x) => Ok(Update::AuthorizationState(x)),
                Err(e) => Err(e),
            }
        } else {
            Err(DecodeError::UnrecognizedVariant(g))
        }
    }

    fn encode_tree(&self) -> (r: Result<JsonValue, EncodeError>) {
        match self {
            Update::_Default(_) => Err(EncodeError::Unrepresentable),
            Update::AuthorizationState(x) => x.encode_tree(),
        }
    }

    proof fn lemma_wire_wf(v: Self) {
        match v {
            Update::_Default(_) => {},
            Update::AuthorizationState(x) => {
                UpdateAuthorizationState::lemma_wire_wf(x);
            },
        }
    }

    proof fn lemma_round_trip(v: Self) {
        match v {
            Update::_Default(_) => {},
            Update::AuthorizationState(x) => {
                if x.wire_tree() is Some {
                    let t = x.wire_tree()->0;
                    UpdateAuthorizationState::lemma_wire_tag(x);
                    UpdateAuthorizationState::lemma_round_trip(x);
                    assert(Self::accepts(t));
                    assert forall|w: Self| Self::decodes_from(t, w) implies #[trigger] w.eqv(v) by {
                        assert(w matches Update::AuthorizationState(xi) && UpdateAuthorizationState::decodes_from(t, xi));
                    }
                }
            },
        }
    }
}

impl RObject for Update {
    open spec fn tag_chars(&self) -> Seq<char> {
        match self {
            Update::_Default(_) => "-1"@,
            Update::AuthorizationState(x) => UpdateAuthorizationState::tag_spec(),
        }
    }

    open spec fn extra_spec(&self) -> Option<Seq<char>> {
        match self {
            Update::_Default(_) => None,
            Update::AuthorizationState(x) => opt_str_view(x.extra),
    }
    }

    fn td_name(&self) -> (r: &'static str) {
        match self {
            Update::_Default(_) => "-1",
            Update::AuthorizationState(x) => x.td_name(),
        }
    }

    fn extra(&self) -> (r: Option<String>) {
        match self {
            Update::_Default(_) => None,
            Update::AuthorizationState(x) => clone_opt_string(&x.extra),
        }
    }

    fn to_json(&self) -> (r: Result<String, EncodeError>) {
        crate::object::encode(self)
    }
}

impl Update {
    pub fn from_json(json: &str) -> (r: Result<Update, DecodeError>)
        ensures
            match crate::parse::parse_doc(json@) {
                Some(t) => match r {
                    Ok(v) => Self::accepts(t) && Self::decodes_from(t, v),
                    Err(e) => !Self::accepts(t) && crate::errors::err_matches(e, Self::err_of(t)),
                },
                None => r matches Err(e) && e == DecodeError::Malformed,
            },
    {
        crate::object::from_json::<Update>(json)
    }

    pub fn _is_default(&self) -> (r: bool)
        ensures
            r == (self is _Default),
    {
        match self {
            Update::_Default(_) => true,
            _ => false,
        }
    }

    pub fn is_authorization_state(&self) -> (r: bool)
        ensures
            r == (self is AuthorizationState),
    {
        match self {
            Update::AuthorizationState(_) => true,
            _ => false,
        }
    }

    pub fn as_authorization_state(&self) -> (r: Option<&UpdateAuthorizationState>)
        ensures
            (self is AuthorizationState) == (r is Some),
            r matches Some(x) ==> *x == self->AuthorizationState_0,
    {
        match self {
            Update::AuthorizationState(x) => Some(x),
            _ => None,
        }
    }

    pub fn authorization_state(t: &UpdateAuthorizationState) -> (r: Self)
        ensures
            r matches Update::AuthorizationState(x) && x.eqv(*t),
    {
        Update::AuthorizationState(t.clone())
    }
}
/// The user authorization state has changed
#[derive(Debug, PartialEq)]
pub struct UpdateAuthorizationState {
    pub extra: Option<String>,
    /// New authorization state
    pub authorization_state: AuthorizationState,
}

impl UpdateAuthorizationState {
    pub open spec fn tag_spec() -> Seq<char> {
        "updateAuthorizationState"@
    }

    /// The members of the wire object, in the order they are written.
    pub open spec fn members_spec(self) -> Seq<(Seq<char>, SpecJson)> {
        seq![
            ("@type"@, SpecJson::Str(Self::tag_spec())),
            ("@extra"@, opt_str_tree(opt_str_view(self.extra))),
            ("authorization_state"@, self.authorization_state.wire_tree()->0),
        ]
    }

    pub open spec fn fields_ok(t: SpecJson) -> bool {
        &&& ok_opt_str(t, "@extra"@)
        &&& ok_custom::<AuthorizationState>(t, "authorization_state"@)
    }

    pub open spec fn fail_field(t: SpecJson) -> Seq<char> {
        if !ok_opt_str(t, "@extra"@) {
            "@extra"@
        } else if !(ok_custom::<AuthorizationState>(t, "authorization_state"@)) {
            "authorization_state"@
        } else {
            Seq::empty()
        }
    }

    /// The encoding of a value carries exactly this type's tag.
    pub proof fn lemma_wire_tag(v: UpdateAuthorizationState)
        ensures
            v.wire_tree() matches Some(t) ==> tag_of(t) == Some(UpdateAuthorizationState::tag_spec()),
    {
        if v.wire_tree() is Some {
            let t = v.wire_tree()->0;
            let ms = t->Obj_0;
            lemma_get_spec_found(ms, "@type"@, 0);
        }
    }
}

impl Clone for UpdateAuthorizationState {
    fn clone(&self) -> (res: Self)
        ensures
            res.eqv(*self),
    {
        UpdateAuthorizationState {
            extra: clone_opt_string(&self.extra),
            authorization_state: self.authorization_state.clone(),
        }
    }
}

impl Wire for UpdateAuthorizationState {
    open spec fn wire_tree(self) -> Option<SpecJson> {
        if self.authorization_state.wire_tree() is None {
            None
        } else {
            Some(SpecJson::Obj(self.members_spec()))
        }
    }

    open spec fn accepts(t: SpecJson) -> bool {
        tag_of(t) is Some && Self::fields_ok(t)
    }

    open spec fn err_of(t: SpecJson) -> SpecDecodeError {
        match tag_of(t) {
            None => SpecDecodeError::Malformed,
            Some(_) => SpecDecodeError::FieldShapeMismatch(Self::tag_spec(), Self::fail_field(t)),
        }
    }

    open spec fn decodes_from(t: SpecJson, v: Self) -> bool {
        &&& m_opt_str(t, "@extra"@, v.extra)
        &&& m_custom::<AuthorizationState>(t, "authorization_state"@, v.authorization_state)
    }

    open spec fn eqv(self, other: Self) -> bool {
        &&& eqv_opt_string(self.extra, other.extra)
        &&& self.authorization_state.eqv(other.authorization_state)
    }

    fn clone_val(&self) -> (r: Self) {
        self.clone()
    }

    fn decode_tree(t: &JsonValue) -> (r: Result<Self, DecodeError>) {
        if get_tag(t).is_none() {
            return Err(DecodeError::Malformed);
        }
        let extra = match field_opt_string(t, "@extra") {
            Some(x) => x,
            None => {
                return Err(DecodeError::FieldShapeMismatch(
                    String::from_str("updateAuthorizationState"),
                    String::from_str("@extra"),
                ));
            },
        };
        let authorization_state = match get_field(t, "authorization_state") {
            Some(f) => match AuthorizationState::decode_tree(f) {
                Ok(x) => x,
                Err(_) => {
                    return Err(DecodeError::FieldShapeMismatch(
                    String::from_str("updateAuthorizationState"),
                    String::from_str("authorization_state"),
                ));
                },
            },
            None => {
                return Err(DecodeError::FieldShapeMismatch(
                    String::from_str("updateAuthorizationState"),
                    String::from_str("authorization_state"),
                ));
            },
        };
        Ok(UpdateAuthorizationState { extra, authorization_state })
    }

    fn encode_tree(&self) -> (r: Result<JsonValue, EncodeError>) {
        let t_authorization_state = match self.authorization_state.encode_tree() {
            Ok(x) => x,
            Err(e) => {
                return Err(e);
            },
        };
        let mut members: Vec<JsonMember> = Vec::new();
        proof {
            assert(view_members(members@) =~= Seq::<(Seq<char>, SpecJson)>::empty());
        }
        push_member(&mut members, "@type", JsonValue::Str(String::from_str("updateAuthorizationState")));
        push_member(&mut members, "@extra", opt_string_tree(&self.extra));
        push_member(&mut members, "authorization_state", t_authorization_state);
        let node = JsonValue::Obj(members);
        proof {
            assert(view_members(members@) =~= self.members_spec());
            assert(node@ == self.wire_tree()->0);
        }
        Ok(node)
    }

    proof fn lemma_wire_wf(v: Self) {
        if v.wire_tree() is Some {
            let t = v.wire_tree()->0;
            let ms = t->Obj_0;
            assert(ms == v.members_spec());
            AuthorizationState::lemma_wire_wf(v.authorization_state);
            assert forall|i: int| 0 <= i < ms.len() implies wf(#[trigger] ms[i].1) by {
            }
        }
    }

    proof fn lemma_round_trip(v: Self) {
        if v.wire_tree() is Some {
            let t = v.wire_tree()->0;
            let ms = t->Obj_0;
            assert(ms == v.members_spec());
            reveal_strlit("@type");
            reveal_strlit("@extra");
            reveal_strlit("authorization_state");
            assert("@type"@.len() == 5);
            assert("@extra"@.len() == 6);
            assert("authorization_state"@.len() == 19);
            reveal_with_fuel(get_spec, 5);
            lemma_get_spec_found(ms, "@type"@, 0);
            lemma_get_spec_found(ms, "@extra"@, 1);
            lemma_get_spec_found(ms, "authorization_state"@, 2);
            assert(tag_of(t) == Some(Self::tag_spec()));
            assert(ok_opt_str(t, "@extra"@));
            AuthorizationState::lemma_round_trip(v.authorization_state);
            assert(ok_custom::<AuthorizationState>(t, "authorization_state"@));
            assert(Self::accepts(t));
            assert forall|w: Self| Self::decodes_from(t, w) implies #[trigger] w.eqv(v) by {
            }
        }
    }
}

impl RObject for UpdateAuthorizationState {
    open spec fn tag_chars(&self) -> Seq<char> {
        Self::tag_spec()
    }

    open spec fn extra_spec(&self) -> Option<Seq<char>> {
        opt_str_view(self.extra)
    }

    fn td_name(&self) -> (r: &'static str) {
        "updateAuthorizationState"
    }

    fn extra(&self) -> (r: Option<String>) {
        clone_opt_string(&self.extra)
    }

    fn to_json(&self) -> (r: Result<String, EncodeError>) {
        crate::object::encode(self)
    }
}

impl TDUpdate for UpdateAuthorizationState {

}

impl UpdateAuthorizationState {
    pub fn from_json(json: &str) -> (r: Result<UpdateAuthorizationState, DecodeError>)
        ensures
            match crate::parse::parse_doc(json@) {
                Some(t) => match r {
                    Ok(v) => Self::accepts(t) && Self::decodes_from(t, v),
                    Err(e) => !Self::accepts(t) && crate::errors::err_matches(e, Self::err_of(t)),
                },
                None => r matches Err(e) && e == DecodeError::Malformed,
            },
    {
        crate::object::from_json::<UpdateAuthorizationState>(json)
    }

    pub fn builder() -> (r: RTDUpdateAuthorizationStateBuilder)
        ensures
            r.inner.extra is Some,
            r.inner.authorization_state is _Default,
    {
        RTDUpdateAuthorizationStateBuilder {
            inner: UpdateAuthorizationState {
                extra: Some(new_token()),
                authorization_state: AuthorizationState::_Default(()),
            },
        }
    }

    pub fn authorization_state(&self) -> (r: &AuthorizationState)
        ensures
            *r == self.authorization_state,
    {
        &self.authorization_state
    }
}

pub struct RTDUpdateAuthorizationStateBuilder {
    pub inner: UpdateAuthorizationState,
}

impl RTDUpdateAuthorizationStateBuilder {
    pub fn build(&self) -> (r: UpdateAuthorizationState)
        ensures
            r.eqv(self.inner),
    {
        self.inner.clone()
    }

    pub fn authorization_state(&mut self, authorization_state: AuthorizationState) -> (r: &mut Self)
        ensures
            *r == (RTDUpdateAuthorizationStateBuilder { inner: UpdateAuthorizationState { authorization_state: authorization_state, ..old(self).inner } }),
            *final(self) == *final(r),
    {
        self.inner.authorization_state = authorization_state;
        self
    }
}
} // verus!
