use vstd::prelude::*;

use crate::errors::DecodeError;
use crate::errors::EncodeError;
use crate::errors::SpecDecodeError;
use crate::json::JsonMember;
use crate::json::JsonValue;
use crate::json::SpecJson;
use crate::json::view_members;
use crate::json::wf;
use crate::object::RObject;
use crate::object::Wire;
use crate::object::clone_opt_string;
use crate::object::eqv_opt_string;
use crate::object::field_bool;
use crate::object::field_opt_string;
use crate::object::get_spec;
use crate::object::get_tag;
use crate::object::lemma_get_spec_found;
use crate::object::m_bool;
use crate::object::m_opt_str;
use crate::object::new_token;
use crate::object::ok_bool;
use crate::object::ok_opt_str;
use crate::object::opt_str_tree;
use crate::object::opt_str_view;
use crate::object::opt_string_tree;
use crate::object::push_member;
use crate::object::str_eq;
use crate::object::tag_of;

verus! {

/// Describes a keyboard button type
pub trait TDKeyboardButtonType: RObject {

}

/// Describes a keyboard button type
#[derive(Debug, PartialEq)]
pub enum KeyboardButtonType {
    _Default(()),
    /// A button that sends the user's location when pressed; available only in private chats
    RequestLocation(KeyboardButtonTypeRequestLocation),
    /// A button that sends the user's phone number when pressed; available only in private chats
    RequestPhoneNumber(KeyboardButtonTypeRequestPhoneNumber),
    /// A button that allows the user to create and send a poll when pressed; available only in private chats
    RequestPoll(KeyboardButtonTypeRequestPoll),
    /// A simple button, with text that must be sent when the button is pressed
    Text(KeyboardButtonTypeText),
}

impl Clone for KeyboardButtonType {
    fn clone(&self) -> (res: Self)
        ensures
            res.eqv(*self),
    {
        match self {
            KeyboardButtonType::_Default(_) => KeyboardButtonType::_Default(()),
            KeyboardButtonType::RequestLocation(x) => KeyboardButtonType::RequestLocation(x.clone()),
            KeyboardButtonType::RequestPhoneNumber(x) => KeyboardButtonType::RequestPhoneNumber(x.clone()),
            KeyboardButtonType::RequestPoll(x) => KeyboardButtonType::RequestPoll(x.clone()),
            KeyboardButtonType::Text(x) => KeyboardButtonType::Text(x.clone()),
        }
    }
}

impl KeyboardButtonType {
    /// The tags of this variant's alternatives are pairwise distinct.
    pub proof fn lemma_tags_distinct()
        ensures
            "keyboardButtonTypeRequestLocation"@ != "keyboardButtonTypeRequestPhoneNumber"@,
            "keyboardButtonTypeRequestLocation"@ != "keyboardButtonTypeRequestPoll"@,
            "keyboardButtonTypeRequestLocation"@ != "keyboardButtonTypeText"@,
            "keyboardButtonTypeRequestPhoneNumber"@ != "keyboardButtonTypeRequestPoll"@,
            "keyboardButtonTypeRequestPhoneNumber"@ != "keyboardButtonTypeText"@,
            "keyboardButtonTypeRequestPoll"@ != "keyboardButtonTypeText"@,
    {
        reveal_strlit("keyboardButtonTypeRequestLocation");
        reveal_strlit("keyboardButtonTypeRequestPhoneNumber");
        reveal_strlit("keyboardButtonTypeRequestPoll");
        reveal_strlit("keyboardButtonTypeText");
        assert("keyboardButtonTypeRequestLocation"@.len() == 33);
        assert("keyboardButtonTypeRequestPhoneNumber"@.len() == 36);
        assert("keyboardButtonTypeRequestPoll"@.len() == 29);
        assert("keyboardButtonTypeText"@.len() == 22);
    }
}

impl Wire for KeyboardButtonType {
    open spec fn wire_tree(self) -> Option<SpecJson> {
        match self {
            KeyboardButtonType::_Default(_) => None,
            KeyboardButtonType::RequestLocation(x) => x.wire_tree(),
            KeyboardButtonType::RequestPhoneNumber(x) => x.wire_tree(),
            KeyboardButtonType::RequestPoll(x) => x.wire_tree(),
            KeyboardButtonType::Text(x) => x.wire_tree(),
        }
    }

    open spec fn accepts(t: SpecJson) -> bool {
        match tag_of(t) {
            None => false,
            Some(g) => {
                if g == KeyboardButtonTypeRequestLocation::tag_spec() {
                    KeyboardButtonTypeRequestLocation::accepts(t)
                } else if g == KeyboardButtonTypeRequestPhoneNumber::tag_spec() {
                    KeyboardButtonTypeRequestPhoneNumber::accepts(t)
                } else if g == KeyboardButtonTypeRequestPoll::tag_spec() {
                    KeyboardButtonTypeRequestPoll::accepts(t)
                } else if g == KeyboardButtonTypeText::tag_spec() {
                    KeyboardButtonTypeText::accepts(t)
                } else {
                    false
                }
            },
        }
    }

    open spec fn err_of(t: SpecJson) -> SpecDecodeError {
        match tag_of(t) {
            None => SpecDecodeError::Malformed,
            Some(g) => {
                if g == KeyboardButtonTypeRequestLocation::tag_spec() {
                    KeyboardButtonTypeRequestLocation::err_of(t)
                } else if g == KeyboardButtonTypeRequestPhoneNumber::tag_spec() {
                    KeyboardButtonTypeRequestPhoneNumber::err_of(t)
                } else if g == KeyboardButtonTypeRequestPoll::tag_spec() {
                    KeyboardButtonTypeRequestPoll::err_of(t)
                } else if g == KeyboardButtonTypeText::tag_spec() {
                    KeyboardButtonTypeText::err_of(t)
                } else {
                    SpecDecodeError::UnrecognizedVariant(g)
                }
            },
        }
    }

    open spec fn decodes_from(t: SpecJson, v: Self) -> bool {
        match tag_of(t) {
            None => false,
            Some(g) => {
                if g == KeyboardButtonTypeRequestLocation::tag_spec() {
                    v matches KeyboardButtonType::RequestLocation(x) && KeyboardButtonTypeRequestLocation::decodes_from(t, x)
                } else if g == KeyboardButtonTypeRequestPhoneNumber::tag_spec() {
                    v matches KeyboardButtonType::RequestPhoneNumber(x) && KeyboardButtonTypeRequestPhoneNumber::decodes_from(t, x)
                } else if g == KeyboardButtonTypeRequestPoll::tag_spec() {
                    v matches KeyboardButtonType::RequestPoll(x) && KeyboardButtonTypeRequestPoll::decodes_from(t, x)
                } else if g == KeyboardButtonTypeText::tag_spec() {
                    v matches KeyboardButtonType::Text(x) && KeyboardButtonTypeText::decodes_from(t, x)
                } else {
                    false
                }
            },
        }
    }

    open spec fn eqv(self, other: Self) -> bool {
        match (self, other) {
            (KeyboardButtonType::_Default(_), KeyboardButtonType::_Default(_)) => true,
            (KeyboardButtonType::RequestLocation(a), KeyboardButtonType::RequestLocation(b)) => a.eqv(b),
            (KeyboardButtonType::RequestPhoneNumber(a), KeyboardButtonType::RequestPhoneNumber(b)) => a.eqv(b),
            (KeyboardButtonType::RequestPoll(a), KeyboardButtonType::RequestPoll(b)) => a.eqv(b),
            (KeyboardButtonType::Text(a), KeyboardButtonType::Text(b)) => a.eqv(b),
            _ => false,
        }
    }

    fn clone_val(&self) -> (r: Self) {
        self.clone()
    }

    fn decode_tree(t: &JsonValue) -> (r: Result<Self, DecodeError>) {
        let g = match get_tag(t) {
            Some(g) => g,
            None => {
                return Err(DecodeError::Malformed);
            },
        };
        if str_eq(g.as_str(), "keyboardButtonTypeRequestLocation") {
            match KeyboardButtonTypeRequestLocation::decode_tree(t) {
                Ok(x) => Ok(KeyboardButtonType::RequestLocation(x)),
                Err(e) => Err(e),
            }
        } else if str_eq(g.as_str(), "keyboardButtonTypeRequestPhoneNumber") {
            match KeyboardButtonTypeRequestPhoneNumber::decode_tree(t) {
                Ok(x) => Ok(KeyboardButtonType::RequestPhoneNumber(x)),
                Err(e) => Err(e),
            }
        } else if str_eq(g.as_str(), "keyboardButtonTypeRequestPoll") {
            match KeyboardButtonTypeRequestPoll::decode_tree(t) {
                Ok(x) => Ok(KeyboardButtonType::RequestPoll(x)),
                Err(e) => Err(e),
            }
        } else if str_eq(g.as_str(), "keyboardButtonTypeText") {
            match KeyboardButtonTypeText::decode_tree(t) {
                Ok(x) => Ok(KeyboardButtonType::Text(x)),
                Err(e) => Err(e),
            }
        } else {
            Err(DecodeError::UnrecognizedVariant(g))
        }
    }

    fn encode_tree(&self) -> (r: Result<JsonValue, EncodeError>) {
        match self {
            KeyboardButtonType::_Default(_) => Err(EncodeError::Unrepresentable),
            KeyboardButtonType::RequestLocation(x) => x.encode_tree(),
            KeyboardButtonType::RequestPhoneNumber(x) => x.encode_tree(),
            KeyboardButtonType::RequestPoll(x) => x.encode_tree(),
            KeyboardButtonType::Text(x) => x.encode_tree(),
        }
    }

    proof fn lemma_wire_wf(v: Self) {
        match v {
            KeyboardButtonType::_Default(_) => {},
            KeyboardButtonType::RequestLocation(x) => {
                KeyboardButtonTypeRequestLocation::lemma_wire_wf(x);
            },
            KeyboardButtonType::RequestPhoneNumber(x) => {
                KeyboardButtonTypeRequestPhoneNumber::lemma_wire_wf(x);
            },
            KeyboardButtonType::RequestPoll(x) => {
                KeyboardButtonTypeRequestPoll::lemma_wire_wf(x);
            },
            KeyboardButtonType::Text(x) => {
                KeyboardButtonTypeText::lemma_wire_wf(x);
            },
        }
    }

    proof fn lemma_round_trip(v: Self) {
        Self::lemma_tags_distinct();
        match v {
            KeyboardButtonType::_Default(_) => {},
            KeyboardButtonType::RequestLocation(x) => {
                if x.wire_tree() is Some {
                    let t = x.wire_tree()->0;
                    KeyboardButtonTypeRequestLocation::lemma_wire_tag(x);
                    KeyboardButtonTypeRequestLocation::lemma_round_trip(x);
                    assert(Self::accepts(t));
                    assert forall|w: Self| Self::decodes_from(t, w) implies #[trigger] w.eqv(v) by {
                        assert(w matches KeyboardButtonType::RequestLocation(xi) && KeyboardButtonTypeRequestLocation::decodes_from(t, xi));
                    }
                }
            },
            KeyboardButtonType::RequestPhoneNumber(x) => {
                if x.wire_tree() is Some {
                    let t = x.wire_tree()->0;
                    KeyboardButtonTypeRequestPhoneNumber::lemma_wire_tag(x);
                    KeyboardButtonTypeRequestPhoneNumber::lemma_round_trip(x);
                    assert(Self::accepts(t));
                    assert forall|w: Self| Self::decodes_from(t, w) implies #[trigger] w.eqv(v) by {
                        assert(w matches KeyboardButtonType::RequestPhoneNumber(xi) && KeyboardButtonTypeRequestPhoneNumber::decodes_from(t, xi));
                    }
                }
            },
            KeyboardButtonType::RequestPoll(x) => {
                if x.wire_tree() is Some {
                    let t = x.wire_tree()->0;
                    KeyboardButtonTypeRequestPoll::lemma_wire_tag(x);
                    KeyboardButtonTypeRequestPoll::lemma_round_trip(x);
                    assert(Self::accepts(t));
                    assert forall|w: Self| Self::decodes_from(t, w) implies #[trigger] w.eqv(v) by {
                        assert(w matches KeyboardButtonType::RequestPoll(xi) && KeyboardButtonTypeRequestPoll::decodes_from(t, xi));
                    }
                }
            },
            KeyboardButtonType::Text(x) => {
                if x.wire_tree() is Some {
                    let t = x.wire_tree()->0;
                    KeyboardButtonTypeText::lemma_wire_tag(x);
                    KeyboardButtonTypeText::lemma_round_trip(x);
                    assert(Self::accepts(t));
                    assert forall|w: Self| Self::decodes_from(t, w) implies #[trigger] w.eqv(v) by {
                        assert(w matches KeyboardButtonType::Text(xi) && KeyboardButtonTypeText::decodes_from(t, xi));
                    }
                }
            },
        }
    }
}

impl RObject for KeyboardButtonType {
    open spec fn tag_chars(&self) -> Seq<char> {
        match self {
            KeyboardButtonType::_Default(_) => "-1"@,
            KeyboardButtonType::RequestLocation(x) => KeyboardButtonTypeRequestLocation::tag_spec(),
            KeyboardButtonType::RequestPhoneNumber(x) => KeyboardButtonTypeRequestPhoneNumber::tag_spec(),
            KeyboardButtonType::RequestPoll(x) => KeyboardButtonTypeRequestPoll::tag_spec(),
            KeyboardButtonType::Text(x) => KeyboardButtonTypeText::tag_spec(),
        }
    }

    open spec fn extra_spec(&self) -> Option<Seq<char>> {
        match self {
            KeyboardButtonType::_Default(_) => None,
            KeyboardButtonType::RequestLocation(x) => opt_str_view(x.extra),
            KeyboardButtonType::RequestPhoneNumber(x) => opt_str_view(x.extra),
            KeyboardButtonType::RequestPoll(x) => opt_str_view(x.extra),
            KeyboardButtonType::Text(x) => opt_str_view(x.extra),
    }
    }

    fn td_name(&self) -> (r: &'static str) {
        match self {
            KeyboardButtonType::_Default(_) => "-1",
            KeyboardButtonType::RequestLocation(x) => x.td_name(),
            KeyboardButtonType::RequestPhoneNumber(x) => x.td_name(),
            KeyboardButtonType::RequestPoll(x) => x.td_name(),
            KeyboardButtonType::Text(x) => x.td_name(),
        }
    }

    fn extra(&self) -> (r: Option<String>) {
        match self {
            KeyboardButtonType::_Default(_) => None,
            KeyboardButtonType::RequestLocation(x) => clone_opt_string(&x.extra),
            KeyboardButtonType::RequestPhoneNumber(x) => clone_opt_string(&x.extra),
            KeyboardButtonType::RequestPoll(x) => clone_opt_string(&x.extra),
            KeyboardButtonType::Text(x) => clone_opt_string(&x.extra),
        }
    }

    fn to_json(&self) -> (r: Result<String, EncodeError>) {
        crate::object::encode(self)
    }
}

impl KeyboardButtonType {
    pub fn from_json(json: &str) -> (r: Result<KeyboardButtonType, DecodeError>)
        ensures
            match crate::parse::parse_doc(json@) {
                Some(t) => match r {
                    Ok(v) => Self::accepts(t) && Self::decodes_from(t, v),
                    Err(e) => !Self::accepts(t) && crate::errors::err_matches(e, Self::err_of(t)),
                },
                None => r matches Err(e) && e == DecodeError::Malformed,
            },
    {
        crate::object::from_json::<KeyboardButtonType>(json)
    }

    pub fn _is_default(&self) -> (r: bool)
        ensures
            r == (self is _Default),
    {
        match self {
            KeyboardButtonType::_Default(_) => true,
            _ => false,
        }
    }

    pub fn is_request_location(&self) -> (r: bool)
        ensures
            r == (self is RequestLocation),
    {
        match self {
            KeyboardButtonType::RequestLocation(_) => true,
            _ => false,
        }
    }

    pub fn is_request_phone_number(&self) -> (r: bool)
        ensures
            r == (self is RequestPhoneNumber),
    {
        match self {
            KeyboardButtonType::RequestPhoneNumber(_) => true,
            _ => false,
        }
    }

    pub fn is_request_poll(&self) -> (r: bool)
        ensures
            r == (self is RequestPoll),
    {
        match self {
            KeyboardButtonType::RequestPoll(_) => true,
            _ => false,
        }
    }

    pub fn is_text(&self) -> (r: bool)
        ensures
            r == (self is Text),
    {
        match self {
            KeyboardButtonType::Text(_) => true,
            _ => false,
        }
    }

    pub fn as_request_location(&self) -> (r: Option<&KeyboardButtonTypeRequestLocation>)
        ensures
            (self is RequestLocation) == (r is Some),
            r matches Some(x) ==> *x == self->RequestLocation_0,
    {
        match self {
            KeyboardButtonType::RequestLocation(x) => Some(x),
            _ => None,
        }
    }

    pub fn as_request_phone_number(&self) -> (r: Option<&KeyboardButtonTypeRequestPhoneNumber>)
        ensures
            (self is RequestPhoneNumber) == (r is Some),
            r matches Some(x) ==> *x == self->RequestPhoneNumber_0,
    {
        match self {
            KeyboardButtonType::RequestPhoneNumber(x) => Some(x),
            _ => None,
        }
    }

    pub fn as_request_poll(&self) -> (r: Option<&KeyboardButtonTypeRequestPoll>)
        ensures
            (self is RequestPoll) == (r is Some),
            r matches Some(x) ==> *x == self->RequestPoll_0,
    {
        match self {
            KeyboardButtonType::RequestPoll(x) => Some(x),
            _ => None,
        }
    }

    pub fn as_text(&self) -> (r: Option<&KeyboardButtonTypeText>)
        ensures
            (self is Text) == (r is Some),
            r matches Some(x) ==> *x == self->Text_0,
    {
        match self {
            KeyboardButtonType::Text(x) => Some(x),
            _ => None,
        }
    }

    pub fn request_location(t: &KeyboardButtonTypeRequestLocation) -> (r: Self)
        ensures
            r matches KeyboardButtonType::RequestLocation(x) && x.eqv(*t),
    {
        KeyboardButtonType::RequestLocation(t.clone())
    }

    pub fn request_phone_number(t: &KeyboardButtonTypeRequestPhoneNumber) -> (r: Self)
        ensures
            r matches KeyboardButtonType::RequestPhoneNumber(x) && x.eqv(*t),
    {
        KeyboardButtonType::RequestPhoneNumber(t.clone())
    }

    pub fn request_poll(t: &KeyboardButtonTypeRequestPoll) -> (r: Self)
        ensures
            r matches KeyboardButtonType::RequestPoll(x) && x.eqv(*t),
    {
        KeyboardButtonType::RequestPoll(t.clone())
    }

    pub fn text(t: &KeyboardButtonTypeText) -> (r: Self)
        ensures
            r matches KeyboardButtonType::Text(x) && x.eqv(*t),
    {
        KeyboardButtonType::Text(t.clone())
    }
}
/// A button that sends the user's location when pressed; available only in private chats
#[derive(Debug, PartialEq)]
pub struct KeyboardButtonTypeRequestLocation {
    pub extra: Option<String>,
}

impl KeyboardButtonTypeRequestLocation {
    pub open spec fn tag_spec() -> Seq<char> {
        "keyboardButtonTypeRequestLocation"@
    }

    /// The members of the wire object, in the order they are written.
    pub open spec fn members_spec(self) -> Seq<(Seq<char>, SpecJson)> {
        seq![
            ("@type"@, SpecJson::Str(Self::tag_spec())),
            ("@extra"@, opt_str_tree(opt_str_view(self.extra))),
        ]
    }

    pub open spec fn fields_ok(t: SpecJson) -> bool {
        &&& ok_opt_str(t, "@extra"@)
    }

    pub open spec fn fail_field(t: SpecJson) -> Seq<char> {
        if !ok_opt_str(t, "@extra"@) {
            "@extra"@
        } else {
            Seq::empty()
        }
    }

    /// The encoding of a value carries exactly this type's tag.
    pub proof fn lemma_wire_tag(v: KeyboardButtonTypeRequestLocation)
        ensures
            v.wire_tree() matches Some(t) ==> tag_of(t) == Some(KeyboardButtonTypeRequestLocation::tag_spec()),
    {
        if v.wire_tree() is Some {
            let t = v.wire_tree()->0;
            let ms = t->Obj_0;
            lemma_get_spec_found(ms, "@type"@, 0);
        }
    }
}

impl Clone for KeyboardButtonTypeRequestLocation {
    fn clone(&self) -> (res: Self)
        ensures
            res.eqv(*self),
    {
        KeyboardButtonTypeRequestLocation {
            extra: clone_opt_string(&self.extra),
        }
    }
}

impl Wire for KeyboardButtonTypeRequestLocation {
    open spec fn wire_tree(self) -> Option<SpecJson> {
        Some(SpecJson::Obj(self.members_spec()))
    }

    open spec fn accepts(t: SpecJson) -> bool {
        tag_of(t) is Some && Self::fields_ok(t)
    }

    open spec fn err_of(t: SpecJson) -> SpecDecodeError {
        match tag_of(t) {
            None => SpecDecodeError::Malformed,
            Some(_) => SpecDecodeError::FieldShapeMismatch(Self::tag_spec(), Self::fail_field(t)),
        }
    }

    open spec fn decodes_from(t: SpecJson, v: Self) -> bool {
        &&& m_opt_str(t, "@extra"@, v.extra)
    }

    open spec fn eqv(self, other: Self) -> bool {
        &&& eqv_opt_string(self.extra, other.extra)
    }

    fn clone_val(&self) -> (r: Self) {
        self.clone()
    }

    fn decode_tree(t: &JsonValue) -> (r: Result<Self, DecodeError>) {
        if get_tag(t).is_none() {
            return Err(DecodeError::Malformed);
        }
        let extra = match field_opt_string(t, "@extra") {
            Some(x) => x,
            None => {
                return Err(DecodeError::FieldShapeMismatch(
                    String::from_str("keyboardButtonTypeRequestLocation"),
                    String::from_str("@extra"),
                ));
            },
        };
        Ok(KeyboardButtonTypeRequestLocation { extra })
    }

    fn encode_tree(&self) -> (r: Result<JsonValue, EncodeError>) {
        let mut members: Vec<JsonMember> = Vec::new();
        proof {
            assert(view_members(members@) =~= Seq::<(Seq<char>, SpecJson)>::empty());
        }
        push_member(&mut members, "@type", JsonValue::Str(String::from_str("keyboardButtonTypeRequestLocation")));
        push_member(&mut members, "@extra", opt_string_tree(&self.extra));
        let node = JsonValue::Obj(members);
        proof {
            assert(view_members(members@) =~= self.members_spec());
            assert(node@ == self.wire_tree()->0);
        }
        Ok(node)
    }

    proof fn lemma_wire_wf(v: Self) {
        if v.wire_tree() is Some {
            let t = v.wire_tree()->0;
            let ms = t->Obj_0;
            assert(ms == v.members_spec());
            assert forall|i: int| 0 <= i < ms.len() implies wf(#[trigger] ms[i].1) by {
            }
        }
    }

    proof fn lemma_round_trip(v: Self) {
        if v.wire_tree() is Some {
            let t = v.wire_tree()->0;
            let ms = t->Obj_0;
            assert(ms == v.members_spec());
            reveal_strlit("@type");
            reveal_strlit("@extra");
            assert("@type"@.len() == 5);
            assert("@extra"@.len() == 6);
            reveal_with_fuel(get_spec, 4);
            lemma_get_spec_found(ms, "@type"@, 0);
            lemma_get_spec_found(ms, "@extra"@, 1);
            assert(tag_of(t) == Some(Self::tag_spec()));
            assert(ok_opt_str(t, "@extra"@));
            assert(Self::accepts(t));
            assert forall|w: Self| Self::decodes_from(t, w) implies #[trigger] w.eqv(v) by {
            }
        }
    }
}

impl RObject for KeyboardButtonTypeRequestLocation {
    open spec fn tag_chars(&self) -> Seq<char> {
        Self::tag_spec()
    }

    open spec fn extra_spec(&self) -> Option<Seq<char>> {
        opt_str_view(self.extra)
    }

    fn td_name(&self) -> (r: &'static str) {
        "keyboardButtonTypeRequestLocation"
    }

    fn extra(&self) -> (r: Option<String>) {
        clone_opt_string(&self.extra)
    }

    fn to_json(&self) -> (r: Result<String, EncodeError>) {
        crate::object::encode(self)
    }
}

impl TDKeyboardButtonType for KeyboardButtonTypeRequestLocation {

}

impl KeyboardButtonTypeRequestLocation {
    pub fn from_json(json: &str) -> (r: Result<KeyboardButtonTypeRequestLocation, DecodeError>)
        ensures
            match crate::parse::parse_doc(json@) {
                Some(t) => match r {
                    Ok(v) => Self::accepts(t) && Self::decodes_from(t, v),
                    Err(e) => !Self::accepts(t) && crate::errors::err_matches(e, Self::err_of(t)),
                },
                None => r matches Err(e) && e == DecodeError::Malformed,
            },
    {
        crate::object::from_json::<KeyboardButtonTypeRequestLocation>(json)
    }

    pub fn builder() -> (r: RTDKeyboardButtonTypeRequestLocationBuilder)
        ensures
            r.inner.extra is Some,
    {
        RTDKeyboardButtonTypeRequestLocationBuilder {
            inner: KeyboardButtonTypeRequestLocation {
                extra: Some(new_token()),
            },
        }
    }
}

pub struct RTDKeyboardButtonTypeRequestLocationBuilder {
    pub inner: KeyboardButtonTypeRequestLocation,
}

impl RTDKeyboardButtonTypeRequestLocationBuilder {
    pub fn build(&self) -> (r: KeyboardButtonTypeRequestLocation)
        ensures
            r.eqv(self.inner),
    {
        self.inner.clone()
    }
}
/// A button that sends the user's phone number when pressed; available only in private chats
#[derive(Debug, PartialEq)]
pub struct KeyboardButtonTypeRequestPhoneNumber {
    pub extra: Option<String>,
}

impl KeyboardButtonTypeRequestPhoneNumber {
    pub open spec fn tag_spec() -> Seq<char> {
        "keyboardButtonTypeRequestPhoneNumber"@
    }

    /// The members of the wire object, in the order they are written.
    pub open spec fn members_spec(self) -> Seq<(Seq<char>, SpecJson)> {
        seq![
            ("@type"@, SpecJson::Str(Self::tag_spec())),
            ("@extra"@, opt_str_tree(opt_str_view(self.extra))),
        ]
    }

    pub open spec fn fields_ok(t: SpecJson) -> bool {
        &&& ok_opt_str(t, "@extra"@)
    }

    pub open spec fn fail_field(t: SpecJson) -> Seq<char> {
        if !ok_opt_str(t, "@extra"@) {
            "@extra"@
        } else {
            Seq::empty()
        }
    }

    /// The encoding of a value carries exactly this type's tag.
    pub proof fn lemma_wire_tag(v: KeyboardButtonTypeRequestPhoneNumber)
        ensures
            v.wire_tree() matches Some(t) ==> tag_of(t) == Some(KeyboardButtonTypeRequestPhoneNumber::tag_spec()),
    {
        if v.wire_tree() is Some {
            let t = v.wire_tree()->0;
            let ms = t->Obj_0;
            lemma_get_spec_found(ms, "@type"@, 0);
        }
    }
}

impl Clone for KeyboardButtonTypeRequestPhoneNumber {
    fn clone(&self) -> (res: Self)
        ensures
            res.eqv(*self),
    {
        KeyboardButtonTypeRequestPhoneNumber {
            extra: clone_opt_string(&self.extra),
        }
    }
}

impl Wire for KeyboardButtonTypeRequestPhoneNumber {
    open spec fn wire_tree(self) -> Option<SpecJson> {
        Some(SpecJson::Obj(self.members_spec()))
    }

    open spec fn accepts(t: SpecJson) -> bool {
        tag_of(t) is Some && Self::fields_ok(t)
    }

    open spec fn err_of(t: SpecJson) -> SpecDecodeError {
        match tag_of(t) {
            None => SpecDecodeError::Malformed,
            Some(_) => SpecDecodeError::FieldShapeMismatch(Self::tag_spec(), Self::fail_field(t)),
        }
    }

    open spec fn decodes_from(t: SpecJson, v: Self) -> bool {
        &&& m_opt_str(t, "@extra"@, v.extra)
    }

    open spec fn eqv(self, other: Self) -> bool {
        &&& eqv_opt_string(self.extra, other.extra)
    }

    fn clone_val(&self) -> (r: Self) {
        self.clone()
    }

    fn decode_tree(t: &JsonValue) -> (r: Result<Self, DecodeError>) {
        if get_tag(t).is_none() {
            return Err(DecodeError::Malformed);
        }
        let extra = match field_opt_string(t, "@extra") {
            Some(x) => x,
            None => {
                return Err(DecodeError::FieldShapeMismatch(
                    String::from_str("keyboardButtonTypeRequestPhoneNumber"),
                    String::from_str("@extra"),
                ));
            },
        };
        Ok(KeyboardButtonTypeRequestPhoneNumber { extra })
    }

    fn encode_tree(&self) -> (r: Result<JsonValue, EncodeError>) {
        let mut members: Vec<JsonMember> = Vec::new();
        proof {
            assert(view_members(members@) =~= Seq::<(Seq<char>, SpecJson)>::empty());
        }
        push_member(&mut members, "@type", JsonValue::Str(String::from_str("keyboardButtonTypeRequestPhoneNumber")));
        push_member(&mut members, "@extra", opt_string_tree(&self.extra));
        let node = JsonValue::Obj(members);
        proof {
            assert(view_members(members@) =~= self.members_spec());
            assert(node@ == self.wire_tree()->0);
        }
        Ok(node)
    }

    proof fn lemma_wire_wf(v: Self) {
        if v.wire_tree() is Some {
            let t = v.wire_tree()->0;
            let ms = t->Obj_0;
            assert(ms == v.members_spec());
            assert forall|i: int| 0 <= i < ms.len() implies wf(#[trigger] ms[i].1) by {
            }
        }
    }

    proof fn lemma_round_trip(v: Self) {
        if v.wire_tree() is Some {
            let t = v.wire_tree()->0;
            let ms = t->Obj_0;
            assert(ms == v.members_spec());
            reveal_strlit("@type");
            reveal_strlit("@extra");
            assert("@type"@.len() == 5);
            assert("@extra"@.len() == 6);
            reveal_with_fuel(get_spec, 4);
            lemma_get_spec_found(ms, "@type"@, 0);
            lemma_get_spec_found(ms, "@extra"@, 1);
            assert(tag_of(t) == Some(Self::tag_spec()));
            assert(ok_opt_str(t, "@extra"@));
            assert(Self::accepts(t));
            assert forall|w: Self| Self::decodes_from(t, w) implies #[trigger] w.eqv(v) by {
            }
        }
    }
}

impl RObject for KeyboardButtonTypeRequestPhoneNumber {
    open spec fn tag_chars(&self) -> Seq<char> {
        Self::tag_spec()
    }

    open spec fn extra_spec(&self) -> Option<Seq<char>> {
        opt_str_view(self.extra)
    }

    fn td_name(&self) -> (r: &'static str) {
        "keyboardButtonTypeRequestPhoneNumber"
    }

    fn extra(&self) -> (r: Option<String>) {
        clone_opt_string(&self.extra)
    }

    fn to_json(&self) -> (r: Result<String, EncodeError>) {
        crate::object::encode(self)
    }
}

impl TDKeyboardButtonType for KeyboardButtonTypeRequestPhoneNumber {

}

impl KeyboardButtonTypeRequestPhoneNumber {
    pub fn from_json(json: &str) -> (r: Result<KeyboardButtonTypeRequestPhoneNumber, DecodeError>)
        ensures
            match crate::parse::parse_doc(json@) {
                Some(t) => match r {
                    Ok(v) => Self::accepts(t) && Self::decodes_from(t, v),
                    Err(e) => !Self::accepts(t) && crate::errors::err_matches(e, Self::err_of(t)),
                },
                None => r matches Err(e) && e == DecodeError::Malformed,
            },
    {
        crate::object::from_json::<KeyboardButtonTypeRequestPhoneNumber>(json)
    }

    pub fn builder() -> (r: RTDKeyboardButtonTypeRequestPhoneNumberBuilder)
        ensures
            r.inner.extra is Some,
    {
        RTDKeyboardButtonTypeRequestPhoneNumberBuilder {
            inner: KeyboardButtonTypeRequestPhoneNumber {
                extra: Some(new_token()),
            },
        }
    }
}

pub struct RTDKeyboardButtonTypeRequestPhoneNumberBuilder {
    pub inner: KeyboardButtonTypeRequestPhoneNumber,
}

impl RTDKeyboardButtonTypeRequestPhoneNumberBuilder {
    pub fn build(&self) -> (r: KeyboardButtonTypeRequestPhoneNumber)
        ensures
            r.eqv(self.inner),
    {
        self.inner.clone()
    }
}
/// A button that allows the user to create and send a poll when pressed; available only in private chats
#[derive(Debug, PartialEq)]
pub struct KeyboardButtonTypeRequestPoll {
    pub extra: Option<String>,
    /// If true, only regular polls must be allowed to create
    pub force_regular: bool,
    /// If true, only polls in quiz mode must be allowed to create
    pub force_quiz: bool,
}

impl KeyboardButtonTypeRequestPoll {
    pub open spec fn tag_spec() -> Seq<char> {
        "keyboardButtonTypeRequestPoll"@
    }

    /// The members of the wire object, in the order they are written.
    pub open spec fn members_spec(self) -> Seq<(Seq<char>, SpecJson)> {
        seq![
            ("@type"@, SpecJson::Str(Self::tag_spec())),
            ("@extra"@, opt_str_tree(opt_str_view(self.extra))),
            ("force_regular"@, SpecJson::Bool(self.force_regular)),
            ("force_quiz"@, SpecJson::Bool(self.force_quiz)),
        ]
    }

    pub open spec fn fields_ok(t: SpecJson) -> bool {
        &&& ok_opt_str(t, "@extra"@)
        &&& ok_bool(t, "force_regular"@)
        &&& ok_bool(t, "force_quiz"@)
    }

    pub open spec fn fail_field(t: SpecJson) -> Seq<char> {
        if !ok_opt_str(t, "@extra"@) {
            "@extra"@
        } else if !(ok_bool(t, "force_regular"@)) {
            "force_regular"@
        } else if !(ok_bool(t, "force_quiz"@)) {
            "force_quiz"@
        } else {
            Seq::empty()
        }
    }

    /// The encoding of a value carries exactly this type's tag.
    pub proof fn lemma_wire_tag(v: KeyboardButtonTypeRequestPoll)
        ensures
            v.wire_tree() matches Some(t) ==> tag_of(t) == Some(KeyboardButtonTypeRequestPoll::tag_spec()),
    {
        if v.wire_tree() is Some {
            let t = v.wire_tree()->0;
            let ms = t->Obj_0;
            lemma_get_spec_found(ms, "@type"@, 0);
        }
    }
}

impl Clone for KeyboardButtonTypeRequestPoll {
    fn clone(&self) -> (res: Self)
        ensures
            res.eqv(*self),
    {
        KeyboardButtonTypeRequestPoll {
            extra: clone_opt_string(&self.extra),
            force_regular: self.force_regular,
            force_quiz: self.force_quiz,
        }
    }
}

impl Wire for KeyboardButtonTypeRequestPoll {
    open spec fn wire_tree(self) -> Option<SpecJson> {
        Some(SpecJson::Obj(self.members_spec()))
    }

    open spec fn accepts(t: SpecJson) -> bool {
        tag_of(t) is Some && Self::fields_ok(t)
    }

    open spec fn err_of(t: SpecJson) -> SpecDecodeError {
        match tag_of(t) {
            None => SpecDecodeError::Malformed,
            Some(_) => SpecDecodeError::FieldShapeMismatch(Self::tag_spec(), Self::fail_field(t)),
        }
    }

    open spec fn decodes_from(t: SpecJson, v: Self) -> bool {
        &&& m_opt_str(t, "@extra"@, v.extra)
        &&& m_bool(t, "force_regular"@, v.force_regular)
        &&& m_bool(t, "force_quiz"@, v.force_quiz)
    }

    open spec fn eqv(self, other: Self) -> bool {
        &&& eqv_opt_string(self.extra, other.extra)
        &&& self.force_regular == other.force_regular
        &&& self.force_quiz == other.force_quiz
    }

    fn clone_val(&self) -> (r: Self) {
        self.clone()
    }

    fn decode_tree(t: &JsonValue) -> (r: Result<Self, DecodeError>) {
        if get_tag(t).is_none() {
            return Err(DecodeError::Malformed);
        }
        let extra = match field_opt_string(t, "@extra") {
            Some(x) => x,
            None => {
                return Err(DecodeError::FieldShapeMismatch(
                    String::from_str("keyboardButtonTypeRequestPoll"),
                    String::from_str("@extra"),
                ));
            },
        };
        let force_regular = match field_bool(t, "force_regular") {
            Some(x) => x,
            None => {
                return Err(DecodeError::FieldShapeMismatch(
                    String::from_str("keyboardButtonTypeRequestPoll"),
                    String::from_str("force_regular"),
                ));
            },
        };
        let force_quiz = match field_bool(t, "force_quiz") {
            Some(x) => x,
            None => {
                return Err(DecodeError::FieldShapeMismatch(
                    String::from_str("keyboardButtonTypeRequestPoll"),
                    String::from_str("force_quiz"),
                ));
            },
        };
        Ok(KeyboardButtonTypeRequestPoll { extra, force_regular, force_quiz })
    }

    fn encode_tree(&self) -> (r: Result<JsonValue, EncodeError>) {
        let mut members: Vec<JsonMember> = Vec::new();
        proof {
            assert(view_members(members@) =~= Seq::<(Seq<char>, SpecJson)>::empty());
        }
        push_member(&mut members, "@type", JsonValue::Str(String::from_str("keyboardButtonTypeRequestPoll")));
        push_member(&mut members, "@extra", opt_string_tree(&self.extra));
        push_member(&mut members, "force_regular", JsonValue::Bool(self.force_regular));
        push_member(&mut members, "force_quiz", JsonValue::Bool(self.force_quiz));
        let node = JsonValue::Obj(members);
        proof {
            assert(view_members(members@) =~= self.members_spec());
            assert(node@ == self.wire_tree()->0);
        }
        Ok(node)
    }

    proof fn lemma_wire_wf(v: Self) {
        if v.wire_tree() is Some {
            let t = v.wire_tree()->0;
            let ms = t->Obj_0;
            assert(ms == v.members_spec());
            assert forall|i: int| 0 <= i < ms.len() implies wf(#[trigger] ms[i].1) by {
            }
        }
    }

    proof fn lemma_round_trip(v: Self) {
        if v.wire_tree() is Some {
            let t = v.wire_tree()->0;
            let ms = t->Obj_0;
            assert(ms == v.members_spec());
            reveal_strlit("@type");
            reveal_strlit("@extra");
            reveal_strlit("force_regular");
            reveal_strlit("force_quiz");
            assert("@type"@.len() == 5);
            assert("@extra"@.len() == 6);
            assert("force_regular"@.len() == 13);
            assert("force_quiz"@.len() == 10);
            reveal_with_fuel(get_spec, 6);
            lemma_get_spec_found(ms, "@type"@, 0);
            lemma_get_spec_found(ms, "@extra"@, 1);
            lemma_get_spec_found(ms, "force_regular"@, 2);
            lemma_get_spec_found(ms, "force_quiz"@, 3);
            assert(tag_of(t) == Some(Self::tag_spec()));
            assert(ok_opt_str(t, "@extra"@));
            assert(ok_bool(t, "force_regular"@));
            assert(ok_bool(t, "force_quiz"@));
            assert(Self::accepts(t));
            assert forall|w: Self| Self::decodes_from(t, w) implies #[trigger] w.eqv(v) by {
            }
        }
    }
}

impl RObject for KeyboardButtonTypeRequestPoll {
    open spec fn tag_chars(&self) -> Seq<char> {
        Self::tag_spec()
    }

    open spec fn extra_spec(&self) -> Option<Seq<char>> {
        opt_str_view(self.extra)
    }

    fn td_name(&self) -> (r: &'static str) {
        "keyboardButtonTypeRequestPoll"
    }

    fn extra(&self) -> (r: Option<String>) {
        clone_opt_string(&self.extra)
    }

    fn to_json(&self) -> (r: Result<String, EncodeError>) {
        crate::object::encode(self)
    }
}

impl TDKeyboardButtonType for KeyboardButtonTypeRequestPoll {

}

impl KeyboardButtonTypeRequestPoll {
    pub fn from_json(json: &str) -> (r: Result<KeyboardButtonTypeRequestPoll, DecodeError>)
        ensures
            match crate::parse::parse_doc(json@) {
                Some(t) => match r {
                    Ok(v) => Self::accepts(t) && Self::decodes_from(t, v),
                    Err(e) => !Self::accepts(t) && crate::errors::err_matches(e, Self::err_of(t)),
                },
                None => r matches Err(e) && e == DecodeError::Malformed,
            },
    {
        crate::object::from_json::<KeyboardButtonTypeRequestPoll>(json)
    }

    pub fn builder() -> (r: RTDKeyboardButtonTypeRequestPollBuilder)
        ensures
            r.inner.extra is Some,
            r.inner.force_regular == false,
            r.inner.force_quiz == false,
    {
        RTDKeyboardButtonTypeRequestPollBuilder {
            inner: KeyboardButtonTypeRequestPoll {
                extra: Some(new_token()),
                force_regular: false,
                force_quiz: false,
            },
        }
    }

    pub fn force_regular(&self) -> (r: bool)
        ensures
            r == self.force_regular,
    {
        self.force_regular
    }

    pub fn force_quiz(&self) -> (r: bool)
        ensures
            r == self.force_quiz,
    {
        self.force_quiz
    }
}

pub struct RTDKeyboardButtonTypeRequestPollBuilder {
    pub inner: KeyboardButtonTypeRequestPoll,
}

impl RTDKeyboardButtonTypeRequestPollBuilder {
    pub fn build(&self) -> (r: KeyboardButtonTypeRequestPoll)
        ensures
            r.eqv(self.inner),
    {
        self.inner.clone()
    }

    pub fn force_regular(&mut self, force_regular: bool) -> (r: &mut Self)
        ensures
            *r == (RTDKeyboardButtonTypeRequestPollBuilder { inner: KeyboardButtonTypeRequestPoll { force_regular: force_regular, ..old(self).inner } }),
            *final(self) == *final(r),
    {
        self.inner.force_regular = force_regular;
        self
    }

    pub fn force_quiz(&mut self, force_quiz: bool) -> (r: &mut Self)
        ensures
            *r == (RTDKeyboardButtonTypeRequestPollBuilder { inner: KeyboardButtonTypeRequestPoll { force_quiz: force_quiz, ..old(self).inner } }),
            *final(self) == *final(r),
    {
        self.inner.force_quiz = force_quiz;
        self
    }
}
/// A simple button, with text that must be sent when the button is pressed
#[derive(Debug, PartialEq)]
pub struct KeyboardButtonTypeText {
    pub extra: Option<String>,
}

impl KeyboardButtonTypeText {
    pub open spec fn tag_spec() -> Seq<char> {
        "keyboardButtonTypeText"@
    }

    /// The members of the wire object, in the order they are written.
    pub open spec fn members_spec(self) -> Seq<(Seq<char>, SpecJson)> {
        seq![
            ("@type"@, SpecJson::Str(Self::tag_spec())),
            ("@extra"@, opt_str_tree(opt_str_view(self.extra))),
        ]
    }

    pub open spec fn fields_ok(t: SpecJson) -> bool {
        &&& ok_opt_str(t, "@extra"@)
    }

    pub open spec fn fail_field(t: SpecJson) -> Seq<char> {
        if !ok_opt_str(t, "@extra"@) {
            "@extra"@
        } else {
            Seq::empty()
        }
    }

    /// The encoding of a value carries exactly this type's tag.
    pub proof fn lemma_wire_tag(v: KeyboardButtonTypeText)
        ensures
            v.wire_tree() matches Some(t) ==> tag_of(t) == Some(KeyboardButtonTypeText::tag_spec()),
    {
        if v.wire_tree() is Some {
            let t = v.wire_tree()->0;
            let ms = t->Obj_0;
            lemma_get_spec_found(ms, "@type"@, 0);
        }
    }
}

impl Clone for KeyboardButtonTypeText {
    fn clone(&self) -> (res: Self)
        ensures
            res.eqv(*self),
    {
        KeyboardButtonTypeText {
            extra: clone_opt_string(&self.extra),
        }
    }
}

impl Wire for KeyboardButtonTypeText {
    open spec fn wire_tree(self) -> Option<SpecJson> {
        Some(SpecJson::Obj(self.members_spec()))
    }

    open spec fn accepts(t: SpecJson) -> bool {
        tag_of(t) is Some && Self::fields_ok(t)
    }

    open spec fn err_of(t: SpecJson) -> SpecDecodeError {
        match tag_of(t) {
            None => SpecDecodeError::Malformed,
            Some(_) => SpecDecodeError::FieldShapeMismatch(Self::tag_spec(), Self::fail_field(t)),
        }
    }

    open spec fn decodes_from(t: SpecJson, v: Self) -> bool {
        &&& m_opt_str(t, "@extra"@, v.extra)
    }

    open spec fn eqv(self, other: Self) -> bool {
        &&& eqv_opt_string(self.extra, other.extra)
    }

    fn clone_val(&self) -> (r: Self) {
        self.clone()
    }

    fn decode_tree(t: &JsonValue) -> (r: Result<Self, DecodeError>) {
        if get_tag(t).is_none() {
            return Err(DecodeError::Malformed);
        }
        let extra = match field_opt_string(t, "@extra") {
            Some(x) => x,
            None => {
                return Err(DecodeError::FieldShapeMismatch(
                    String::from_str("keyboardButtonTypeText"),
                    String::from_str("@extra"),
                ));
            },
        };
        Ok(KeyboardButtonTypeText { extra })
    }

    fn encode_tree(&self) -> (r: Result<JsonValue, EncodeError>) {
        let mut members: Vec<JsonMember> = Vec::new();
        proof {
            assert(view_members(members@) =~= Seq::<(Seq<char>, SpecJson)>::empty());
        }
        push_member(&mut members, "@type", JsonValue::Str(String::from_str("keyboardButtonTypeText")));
        push_member(&mut members, "@extra", opt_string_tree(&self.extra));
        let node = JsonValue::Obj(members);
        proof {
            assert(view_members(members@) =~= self.members_spec());
            assert(node@ == self.wire_tree()->0);
        }
        Ok(node)
    }

    proof fn lemma_wire_wf(v: Self) {
        if v.wire_tree() is Some {
            let t = v.wire_tree()->0;
            let ms = t->Obj_0;
            assert(ms == v.members_spec());
            assert forall|i: int| 0 <= i < ms.len() implies wf(#[trigger] ms[i].1) by {
            }
        }
    }

    proof fn lemma_round_trip(v: Self) {
        if v.wire_tree() is Some {
            let t = v.wire_tree()->0;
            let ms = t->Obj_0;
            assert(ms == v.members_spec());
            reveal_strlit("@type");
            reveal_strlit("@extra");
            assert("@type"@.len() == 5);
            assert("@extra"@.len() == 6);
            reveal_with_fuel(get_spec, 4);
            lemma_get_spec_found(ms, "@type"@, 0);
            lemma_get_spec_found(ms, "@extra"@, 1);
            assert(tag_of(t) == Some(Self::tag_spec()));
            assert(ok_opt_str(t, "@extra"@));
            assert(Self::accepts(t));
            assert forall|w: Self| Self::decodes_from(t, w) implies #[trigger] w.eqv(v) by {
            }
        }
    }
}

impl RObject for KeyboardButtonTypeText {
    open spec fn tag_chars(&self) -> Seq<char> {
        Self::tag_spec()
    }

    open spec fn extra_spec(&self) -> Option<Seq<char>> {
        opt_str_view(self.extra)
    }

    fn td_name(&self) -> (r: &'static str) {
        "keyboardButtonTypeText"
    }

    fn extra(&self) -> (r: Option<String>) {
        clone_opt_string(&self.extra)
    }

    fn to_json(&self) -> (r: Result<String, EncodeError>) {
        crate::object::encode(self)
    }
}

impl TDKeyboardButtonType for KeyboardButtonTypeText {

}

impl KeyboardButtonTypeText {
    pub fn from_json(json: &str) -> (r: Result<KeyboardButtonTypeText, DecodeError>)
        ensures
            match crate::parse::parse_doc(json@) {
                Some(t) => match r {
                    Ok(v) => Self::accepts(t) && Self::decodes_from(t, v),
                    Err(e) => !Self::accepts(t) && crate::errors::err_matches(e, Self::err_of(t)),
                },
                None => r matches Err(e) && e == DecodeError::Malformed,
            },
    {
        crate::object::from_json::<KeyboardButtonTypeText>(json)
    }

    pub fn builder() -> (r: RTDKeyboardButtonTypeTextBuilder)
        ensures
            r.inner.extra is Some,
    {
        RTDKeyboardButtonTypeTextBuilder {
            inner: KeyboardButtonTypeText {
                extra: Some(new_token()),
            },
        }
    }
}

pub struct RTDKeyboardButtonTypeTextBuilder {
    pub inner: KeyboardButtonTypeText,
}

impl RTDKeyboardButtonTypeTextBuilder {
    pub fn build(&self) -> (r: KeyboardButtonTypeText)
        ensures
            r.eqv(self.inner),
    {
        self.inner.clone()
    }
}
} // verus!
