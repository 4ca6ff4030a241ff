use vstd::prelude::*;

use crate::errors::DecodeError;
use crate::errors::EncodeError;
use crate::errors::SpecDecodeError;
use crate::json::JsonMember;
use crate::json::JsonValue;
use crate::json::SpecJson;
use crate::json::i64_lex;
use crate::json::view_members;
use crate::json::wf;
use crate::object::RObject;
use crate::object::Wire;
use crate::object::clone_opt_string;
use crate::object::eqv_opt_string;
use crate::object::field_bool;
use crate::object::field_i64;
use crate::object::field_opt_string;
use crate::object::field_string;
use crate::object::get_spec;
use crate::object::get_tag;
use crate::object::i64_lexeme;
use crate::object::lemma_get_spec_found;
use crate::object::m_bool;
use crate::object::m_i64;
use crate::object::m_opt_str;
use crate::object::m_str;
use crate::object::new_token;
use crate::object::ok_bool;
use crate::object::ok_i64;
use crate::object::ok_opt_str;
use crate::object::ok_str;
use crate::object::opt_str_tree;
use crate::object::opt_str_view;
use crate::object::opt_string_tree;
use crate::object::push_member;
use crate::object::str_eq;
use crate::object::tag_of;

verus! {

/// Describes the type of an inline keyboard button
pub trait TDInlineKeyboardButtonType: RObject {

}

/// Describes the type of an inline keyboard button
#[derive(Debug, PartialEq)]
pub enum InlineKeyboardButtonType {
    _Default(()),
    /// A button to buy something. This button must be in the first column and row of the keyboard and can be attached only to a message with content of the type messageInvoice
    Buy(InlineKeyboardButtonTypeBuy),
    /// A button that sends a callback query to a bot
    Callback(InlineKeyboardButtonTypeCallback),
    /// A button with a game that sends a callback query to a bot. This button must be in the first column and row of the keyboard and can be attached only to a message with content of the type messageGame
    CallbackGame(InlineKeyboardButtonTypeCallbackGame),
    /// A button that asks for password of the current user and then sends a callback query to a bot
    CallbackWithPassword(InlineKeyboardButtonTypeCallbackWithPassword),
    /// A button that opens a specified URL and automatically authorize the current user if allowed to do so
    LoginUrl(InlineKeyboardButtonTypeLoginUrl),
    /// A button that forces an inline query to the bot to be inserted in the input field
    SwitchInline(InlineKeyboardButtonTypeSwitchInline),
    /// A button that opens a specified URL
    Url(InlineKeyboardButtonTypeUrl),
}

impl Clone for InlineKeyboardButtonType {
    fn clone(&self) -> (res: Self)
        ensures
            res.eqv(*self),
    {
        match self {
            InlineKeyboardButtonType::_Default(_) => InlineKeyboardButtonType::_Default(()),
            InlineKeyboardButtonType::Buy(x) => InlineKeyboardButtonType::Buy(x.clone()),
            InlineKeyboardButtonType::Callback(x) => InlineKeyboardButtonType::Callback(x.clone()),
            InlineKeyboardButtonType::CallbackGame(x) => InlineKeyboardButtonType::CallbackGame(x.clone()),
            InlineKeyboardButtonType::CallbackWithPassword(x) => InlineKeyboardButtonType::CallbackWithPassword(x.clone()),
            InlineKeyboardButtonType::LoginUrl(x) => InlineKeyboardButtonType::LoginUrl(x.clone()),
            InlineKeyboardButtonType::SwitchInline(x) => InlineKeyboardButtonType::SwitchInline(x.clone()),
            InlineKeyboardButtonType::Url(x) => InlineKeyboardButtonType::Url(x.clone()),
        }
    }
}

impl InlineKeyboardButtonType {
    /// The tags of this variant's alternatives are pairwise distinct.
    pub proof fn lemma_tags_distinct()
        ensures
            "inlineKeyboardButtonTypeBuy"@ != "inlineKeyboardButtonTypeCallback"@,
            "inlineKeyboardButtonTypeBuy"@ != "inlineKeyboardButtonTypeCallbackGame"@,
            "inlineKeyboardButtonTypeBuy"@ != "inlineKeyboardButtonTypeCallbackWithPassword"@,
            "inlineKeyboardButtonTypeBuy"@ != "inlineKeyboardButtonTypeLoginUrl"@,
            "inlineKeyboardButtonTypeBuy"@ != "inlineKeyboardButtonTypeSwitchInline"@,
            "inlineKeyboardButtonTypeBuy"@ != "inlineKeyboardButtonTypeUrl"@,
            "inlineKeyboardButtonTypeCallback"@ != "inlineKeyboardButtonTypeCallbackGame"@,
            "inlineKeyboardButtonTypeCallback"@ != "inlineKeyboardButtonTypeCallbackWithPassword"@,
            "inlineKeyboardButtonTypeCallback"@ != "inlineKeyboardButtonTypeLoginUrl"@,
            "inlineKeyboardButtonTypeCallback"@ != "inlineKeyboardButtonTypeSwitchInline"@,
            "inlineKeyboardButtonTypeCallback"@ != "inlineKeyboardButtonTypeUrl"@,
            "inlineKeyboardButtonTypeCallbackGame"@ != "inlineKeyboardButtonTypeCallbackWithPassword"@,
            "inlineKeyboardButtonTypeCallbackGame"@ != "inlineKeyboardButtonTypeLoginUrl"@,
            "inlineKeyboardButtonTypeCallbackGame"@ != "inlineKeyboardButtonTypeSwitchInline"@,
            "inlineKeyboardButtonTypeCallbackGame"@ != "inlineKeyboardButtonTypeUrl"@,
            "inlineKeyboardButtonTypeCallbackWithPassword"@ != "inlineKeyboardButtonTypeLoginUrl"@,
            "inlineKeyboardButtonTypeCallbackWithPassword"@ != "inlineKeyboardButtonTypeSwitchInline"@,
            "inlineKeyboardButtonTypeCallbackWithPassword"@ != "inlineKeyboardButtonTypeUrl"@,
            "inlineKeyboardButtonTypeLoginUrl"@ != "inlineKeyboardButtonTypeSwitchInline"@,
            "inlineKeyboardButtonTypeLoginUrl"@ != "inlineKeyboardButtonTypeUrl"@,
            "inlineKeyboardButtonTypeSwitchInline"@ != "inlineKeyboardButtonTypeUrl"@,
    {
        reveal_strlit("inlineKeyboardButtonTypeBuy");
        reveal_strlit("inlineKeyboardButtonTypeCallback");
        reveal_strlit("inlineKeyboardButtonTypeCallbackGame");
        reveal_strlit("inlineKeyboardButtonTypeCallbackWithPassword");
        reveal_strlit("inlineKeyboardButtonTypeLoginUrl");
        reveal_strlit("inlineKeyboardButtonTypeSwitchInline");
        reveal_strlit("inlineKeyboardButtonTypeUrl");
        assert("inlineKeyboardButtonTypeBuy"@.len() == 27);
        assert("inlineKeyboardButtonTypeCallback"@.len() == 32);
        assert("inlineKeyboardButtonTypeCallbackGame"@.len() == 36);
        assert("inlineKeyboardButtonTypeCallbackWithPassword"@.len() == 44);
        assert("inlineKeyboardButtonTypeLoginUrl"@.len() == 32);
        assert("inlineKeyboardButtonTypeSwitchInline"@.len() == 36);
        assert("inlineKeyboardButtonTypeUrl"@.len() == 27);
        assert("inlineKeyboardButtonTypeBuy"@[24] == 'B' && "inlineKeyboardButtonTypeUrl"@[24] == 'U');
        assert("inlineKeyboardButtonTypeCallback"@[24] == 'C' && "inlineKeyboardButtonTypeLoginUrl"@[24] == 'L');
        assert("inlineKeyboardButtonTypeCallbackGame"@[24] == 'C' && "inlineKeyboardButtonTypeSwitchInline"@[24] == 'S');
    }
}

impl Wire for InlineKeyboardButtonType {
    open spec fn wire_tree(self) -> Option<SpecJson> {
        match self {
            InlineKeyboardButtonType::_Default(_) => None,
            InlineKeyboardButtonType::Buy(x) => x.wire_tree(),
            InlineKeyboardButtonType::Callback(x) => x.wire_tree(),
            InlineKeyboardButtonType::CallbackGame(x) => x.wire_tree(),
            InlineKeyboardButtonType::CallbackWithPassword(x) => x.wire_tree(),
            InlineKeyboardButtonType::LoginUrl(x) => x.wire_tree(),
            InlineKeyboardButtonType::SwitchInline(x) => x.wire_tree(),
            InlineKeyboardButtonType::Url(x) => x.wire_tree(),
        }
    }

    open spec fn accepts(t: SpecJson) -> bool {
        match tag_of(t) {
            None => false,
            Some(g) => {
                if g == InlineKeyboardButtonTypeBuy::tag_spec() {
                    InlineKeyboardButtonTypeBuy::accepts(t)
                } else if g == InlineKeyboardButtonTypeCallback::tag_spec() {
                    InlineKeyboardButtonTypeCallback::accepts(t)
                } else if g == InlineKeyboardButtonTypeCallbackGame::tag_spec() {
                    InlineKeyboardButtonTypeCallbackGame::accepts(t)
                } else if g == InlineKeyboardButtonTypeCallbackWithPassword::tag_spec() {
                    InlineKeyboardButtonTypeCallbackWithPassword::accepts(t)
                } else if g == InlineKeyboardButtonTypeLoginUrl::tag_spec() {
                    InlineKeyboardButtonTypeLoginUrl::accepts(t)
                } else if g == InlineKeyboardButtonTypeSwitchInline::tag_spec() {
                    InlineKeyboardButtonTypeSwitchInline::accepts(t)
                } else if g == InlineKeyboardButtonTypeUrl::tag_spec() {
                    InlineKeyboardButtonTypeUrl::accepts(t)
                } else {
                    false
                }
            },
        }
    }

    open spec fn err_of(t: SpecJson) -> SpecDecodeError {
        match tag_of(t) {
            None => SpecDecodeError::Malformed,
            Some(g) => {
                if g == InlineKeyboardButtonTypeBuy::tag_spec() {
                    InlineKeyboardButtonTypeBuy::err_of(t)
                } else if g == InlineKeyboardButtonTypeCallback::tag_spec() {
                    InlineKeyboardButtonTypeCallback::err_of(t)
                } else if g == InlineKeyboardButtonTypeCallbackGame::tag_spec() {
                    InlineKeyboardButtonTypeCallbackGame::err_of(t)
                } else if g == InlineKeyboardButtonTypeCallbackWithPassword::tag_spec() {
                    InlineKeyboardButtonTypeCallbackWithPassword::err_of(t)
                } else if g == InlineKeyboardButtonTypeLoginUrl::tag_spec() {
                    InlineKeyboardButtonTypeLoginUrl::err_of(t)
                } else if g == InlineKeyboardButtonTypeSwitchInline::tag_spec() {
                    InlineKeyboardButtonTypeSwitchInline::err_of(t)
                } else if g == InlineKeyboardButtonTypeUrl::tag_spec() {
                    InlineKeyboardButtonTypeUrl::err_of(t)
                } else {
                    SpecDecodeError::UnrecognizedVariant(g)
                }
            },
        }
    }

    open spec fn decodes_from(t: SpecJson, v: Self) -> bool {
        match tag_of(t) {
            None => false,
            Some(g) => {
                if g == InlineKeyboardButtonTypeBuy::tag_spec() {
                    v matches InlineKeyboardButtonType::Buy(x) && InlineKeyboardButtonTypeBuy::decodes_from(t, x)
                } else if g == InlineKeyboardButtonTypeCallback::tag_spec() {
                    v matches InlineKeyboardButtonType::Callback(x) && InlineKeyboardButtonTypeCallback::decodes_from(t, x)
                } else if g == InlineKeyboardButtonTypeCallbackGame::tag_spec() {
                    v matches InlineKeyboardButtonType::CallbackGame(x) && InlineKeyboardButtonTypeCallbackGame::decodes_from(t, x)
                } else if g == InlineKeyboardButtonTypeCallbackWithPassword::tag_spec() {
                    v matches InlineKeyboardButtonType::CallbackWithPassword(x) && InlineKeyboardButtonTypeCallbackWithPassword::decodes_from(t, x)
                } else if g == InlineKeyboardButtonTypeLoginUrl::tag_spec() {
                    v matches InlineKeyboardButtonType::LoginUrl(x) && InlineKeyboardButtonTypeLoginUrl::decodes_from(t, x)
                } else if g == InlineKeyboardButtonTypeSwitchInline::tag_spec() {
                    v matches InlineKeyboardButtonType::SwitchInline(x) && InlineKeyboardButtonTypeSwitchInline::decodes_from(t, x)
                } else if g == InlineKeyboardButtonTypeUrl::tag_spec() {
                    v matches InlineKeyboardButtonType::Url(x) && InlineKeyboardButtonTypeUrl::decodes_from(t, x)
                } else {
                    false
                }
            },
        }
    }

    open spec fn eqv(self, other: Self) -> bool {
        match (self, other) {
            (InlineKeyboardButtonType::_Default(_), InlineKeyboardButtonType::_Default(_)) => true,
            (InlineKeyboardButtonType::Buy(a), InlineKeyboardButtonType::Buy(b)) => a.eqv(b),
            (InlineKeyboardButtonType::Callback(a), InlineKeyboardButtonType::Callback(b)) => a.eqv(b),
            (InlineKeyboardButtonType::CallbackGame(a), InlineKeyboardButtonType::CallbackGame(b)) => a.eqv(b),
            (InlineKeyboardButtonType::CallbackWithPassword(a), InlineKeyboardButtonType::CallbackWithPassword(b)) => a.eqv(b),
            (InlineKeyboardButtonType::LoginUrl(a), InlineKeyboardButtonType::LoginUrl(b)) => a.eqv(b),
            (InlineKeyboardButtonType::SwitchInline(a), InlineKeyboardButtonType::SwitchInline(b)) => a.eqv(b),
            (InlineKeyboardButtonType::Url(a), InlineKeyboardButtonType::Url(b)) => a.eqv(b),
            _ => false,
        }
    }

    fn clone_val(&self) -> (r: Self) {
        self.clone()
    }

    fn decode_tree(t: &JsonValue) -> (r: Result<Self, DecodeError>) {
        let g = match get_tag(t) {
            Some(g) => g,
            None => {
                return Err(DecodeError::Malformed);
            },
        };
        if str_eq(g.as_str(), "inlineKeyboardButtonTypeBuy") {
            match InlineKeyboardButtonTypeBuy::decode_tree(t) {
                Ok(x) => Ok(InlineKeyboardButtonType::Buy(x)),
                Err(e) => Err(e),
            }
        } else if str_eq(g.as_str(), "inlineKeyboardButtonTypeCallback") {
            match InlineKeyboardButtonTypeCallback::decode_tree(t) {
                Ok(x) => Ok(InlineKeyboardButtonType::Callback(x)),
                Err(e) => Err(e),
            }
        } else if str_eq(g.as_str(), "inlineKeyboardButtonTypeCallbackGame") {
            match InlineKeyboardButtonTypeCallbackGame::decode_tree(t) {
                Ok(x) => Ok(InlineKeyboardButtonType::CallbackGame(x)),
                Err(e) => Err(e),
            }
        } else if str_eq(g.as_str(), "inlineKeyboardButtonTypeCallbackWithPassword") {
            match InlineKeyboardButtonTypeCallbackWithPassword::decode_tree(t) {
                Ok(x) => Ok(InlineKeyboardButtonType::CallbackWithPassword(x)),
                Err(e) => Err(e),
            }
        } else if str_eq(g.as_str(), "inlineKeyboardButtonTypeLoginUrl") {
            match InlineKeyboardButtonTypeLoginUrl::decode_tree(t) {
                Ok(x) => Ok(InlineKeyboardButtonType::LoginUrl(x)),
                Err(e) => Err(e),
            }
        } else if str_eq(g.as_str(), "inlineKeyboardButtonTypeSwitchInline") {
            match InlineKeyboardButtonTypeSwitchInline::decode_tree(t) {
                Ok(x) => Ok(InlineKeyboardButtonType::SwitchInline(x)),
                Err(e) => Err(e),
            }
        } else if str_eq(g.as_str(), "inlineKeyboardButtonTypeUrl") {
            match InlineKeyboardButtonTypeUrl::decode_tree(t) {
                Ok(x) => Ok(InlineKeyboardButtonType::Url(x)),
                Err(e) => Err(e),
            }
        } else {
            Err(DecodeError::UnrecognizedVariant(g))
        }
    }

    fn encode_tree(&self) -> (r: Result<JsonValue, EncodeError>) {
        match self {
            InlineKeyboardButtonType::_Default(_) => Err(EncodeError::Unrepresentable),
            InlineKeyboardButtonType::Buy(x) => x.encode_tree(),
            InlineKeyboardButtonType::Callback(x) => x.encode_tree(),
            InlineKeyboardButtonType::CallbackGame(x) => x.encode_tree(),
            InlineKeyboardButtonType::CallbackWithPassword(x) => x.encode_tree(),
            InlineKeyboardButtonType::LoginUrl(x) => x.encode_tree(),
            InlineKeyboardButtonType::SwitchInline(x) => x.encode_tree(),
            InlineKeyboardButtonType::Url(x) => x.encode_tree(),
        }
    }

    proof fn lemma_wire_wf(v: Self) {
        match v {
            InlineKeyboardButtonType::_Default(_) => {},
            InlineKeyboardButtonType::Buy(x) => {
                InlineKeyboardButtonTypeBuy::lemma_wire_wf(x);
            },
            InlineKeyboardButtonType::Callback(x) => {
                InlineKeyboardButtonTypeCallback::lemma_wire_wf(x);
            },
            InlineKeyboardButtonType::CallbackGame(x) => {
                InlineKeyboardButtonTypeCallbackGame::lemma_wire_wf(x);
            },
            InlineKeyboardButtonType::CallbackWithPassword(x) => {
                InlineKeyboardButtonTypeCallbackWithPassword::lemma_wire_wf(x);
            },
            InlineKeyboardButtonType::LoginUrl(x) => {
                InlineKeyboardButtonTypeLoginUrl::lemma_wire_wf(x);
            },
            InlineKeyboardButtonType::SwitchInline(x) => {
                InlineKeyboardButtonTypeSwitchInline::lemma_wire_wf(x);
            },
            InlineKeyboardButtonType::Url(x) => {
                InlineKeyboardButtonTypeUrl::lemma_wire_wf(x);
            },
        }
    }

    proof fn lemma_round_trip(v: Self) {
        Self::lemma_tags_distinct();
        match v {
            InlineKeyboardButtonType::_Default(_) => {},
            InlineKeyboardButtonType::Buy(x) => {
                if x.wire_tree() is Some {
                    let t = x.wire_tree()->0;
                    InlineKeyboardButtonTypeBuy::lemma_wire_tag(x);
                    InlineKeyboardButtonTypeBuy::lemma_round_trip(x);
                    assert(Self::accepts(t));
                    assert forall|w: Self| Self::decodes_from(t, w) implies #[trigger] w.eqv(v) by {
                        assert(w matches InlineKeyboardButtonType::Buy(xi) && InlineKeyboardButtonTypeBuy::decodes_from(t, xi));
                    }
                }
            },
            InlineKeyboardButtonType::Callback(x) => {
                if x.wire_tree() is Some {
                    let t = x.wire_tree()->0;
                    InlineKeyboardButtonTypeCallback::lemma_wire_tag(x);
                    InlineKeyboardButtonTypeCallback::lemma_round_trip(x);
                    assert(Self::accepts(t));
                    assert forall|w: Self| Self::decodes_from(t, w) implies #[trigger] w.eqv(v) by {
                        assert(w matches InlineKeyboardButtonType::Callback(xi) && InlineKeyboardButtonTypeCallback::decodes_from(t, xi));
                    }
                }
            },
            InlineKeyboardButtonType::CallbackGame(x) => {
                if x.wire_tree() is Some {
                    let t = x.wire_tree()->0;
                    InlineKeyboardButtonTypeCallbackGame::lemma_wire_tag(x);
                    InlineKeyboardButtonTypeCallbackGame::lemma_round_trip(x);
                    assert(Self::accepts(t));
                    assert forall|w: Self| Self::decodes_from(t, w) implies #[trigger] w.eqv(v) by {
                        assert(w matches InlineKeyboardButtonType::CallbackGame(xi) && InlineKeyboardButtonTypeCallbackGame::decodes_from(t, xi));
                    }
                }
            },
            InlineKeyboardButtonType::CallbackWithPassword(x) => {
                if x.wire_tree() is Some {
                    let t = x.wire_tree()->0;
                    InlineKeyboardButtonTypeCallbackWithPassword::lemma_wire_tag(x);
                    InlineKeyboardButtonTypeCallbackWithPassword::lemma_round_trip(x);
                    assert(Self::accepts(t));
                    assert forall|w: Self| Self::decodes_from(t, w) implies #[trigger] w.eqv(v) by {
                        assert(w matches InlineKeyboardButtonType::CallbackWithPassword(xi) && InlineKeyboardButtonTypeCallbackWithPassword::decodes_from(t, xi));
                    }
                }
            },
            InlineKeyboardButtonType::LoginUrl(x) => {
                if x.wire_tree() is Some {
                    let t = x.wire_tree()->0;
                    InlineKeyboardButtonTypeLoginUrl::lemma_wire_tag(x);
                    InlineKeyboardButtonTypeLoginUrl::lemma_round_trip(x);
                    assert(Self::accepts(t));
                    assert forall|w: Self| Self::decodes_from(t, w) implies #[trigger] w.eqv(v) by {
                        assert(w matches InlineKeyboardButtonType::LoginUrl(xi) && InlineKeyboardButtonTypeLoginUrl::decodes_from(t, xi));
                    }
                }
            },
            InlineKeyboardButtonType::SwitchInline(x) => {
                if x.wire_tree() is Some {
                    let t = x.wire_tree()->0;
                    InlineKeyboardButtonTypeSwitchInline::lemma_wire_tag(x);
                    InlineKeyboardButtonTypeSwitchInline::lemma_round_trip(x);
                    assert(Self::accepts(t));
                    assert forall|w: Self| Self::decodes_from(t, w) implies #[trigger] w.eqv(v) by {
                        assert(w matches InlineKeyboardButtonType::SwitchInline(xi) && InlineKeyboardButtonTypeSwitchInline::decodes_from(t, xi));
                    }
                }
            },
            InlineKeyboardButtonType::Url(x) => {
                if x.wire_tree() is Some {
                    let t = x.wire_tree()->0;
                    InlineKeyboardButtonTypeUrl::lemma_wire_tag(x);
                    InlineKeyboardButtonTypeUrl::lemma_round_trip(x);
                    assert(Self::accepts(t));
                    assert forall|w: Self| Self::decodes_from(t, w) implies #[trigger] w.eqv(v) by {
                        assert(w matches InlineKeyboardButtonType::Url(xi) && InlineKeyboardButtonTypeUrl::decodes_from(t, xi));
                    }
                }
            },
        }
    }
}

impl RObject for InlineKeyboardButtonType {
    open spec fn tag_chars(&self) -> Seq<char> {
        match self {
            InlineKeyboardButtonType::_Default(_) => "-1"@,
            InlineKeyboardButtonType::Buy(x) => InlineKeyboardButtonTypeBuy::tag_spec(),
            InlineKeyboardButtonType::Callback(x) => InlineKeyboardButtonTypeCallback::tag_spec(),
            InlineKeyboardButtonType::CallbackGame(x) => InlineKeyboardButtonTypeCallbackGame::tag_spec(),
            InlineKeyboardButtonType::CallbackWithPassword(x) => InlineKeyboardButtonTypeCallbackWithPassword::tag_spec(),
            InlineKeyboardButtonType::LoginUrl(x) => InlineKeyboardButtonTypeLoginUrl::tag_spec(),
            InlineKeyboardButtonType::SwitchInline(x) => InlineKeyboardButtonTypeSwitchInline::tag_spec(),
            InlineKeyboardButtonType::Url(x) => InlineKeyboardButtonTypeUrl::tag_spec(),
        }
    }

    open spec fn extra_spec(&self) -> Option<Seq<char>> {
        match self {
            InlineKeyboardButtonType::_Default(_) => None,
            InlineKeyboardButtonType::Buy(x) => opt_str_view(x.extra),
            InlineKeyboardButtonType::Callback(x) => opt_str_view(x.extra),
            InlineKeyboardButtonType::CallbackGame(x) => opt_str_view(x.extra),
            InlineKeyboardButtonType::CallbackWithPassword(x) => opt_str_view(x.extra),
            InlineKeyboardButtonType::LoginUrl(x) => opt_str_view(x.extra),
            InlineKeyboardButtonType::SwitchInline(x) => opt_str_view(x.extra),
            InlineKeyboardButtonType::Url(x) => opt_str_view(x.extra),
    }
    }

    fn td_name(&self) -> (r: &'static str) {
        match self {
            InlineKeyboardButtonType::_Default(_) => "-1",
            InlineKeyboardButtonType::Buy(x) => x.td_name(),
            InlineKeyboardButtonType::Callback(x) => x.td_name(),
            InlineKeyboardButtonType::CallbackGame(x) => x.td_name(),
            InlineKeyboardButtonType::CallbackWithPassword(x) => x.td_name(),
            InlineKeyboardButtonType::LoginUrl(x) => x.td_name(),
            InlineKeyboardButtonType::SwitchInline(x) => x.td_name(),
            InlineKeyboardButtonType::Url(x) => x.td_name(),
        }
    }

    fn extra(&self) -> (r: Option<String>) {
        match self {
            InlineKeyboardButtonType::_Default(_) => None,
            InlineKeyboardButtonType::Buy(x) => clone_opt_string(&x.extra),
            InlineKeyboardButtonType::Callback(x) => clone_opt_string(&x.extra),
            InlineKeyboardButtonType::CallbackGame(x) => clone_opt_string(&x.extra),
            InlineKeyboardButtonType::CallbackWithPassword(x) => clone_opt_string(&x.extra),
            InlineKeyboardButtonType::LoginUrl(x) => clone_opt_string(&x.extra),
            InlineKeyboardButtonType::SwitchInline(x) => clone_opt_string(&x.extra),
            InlineKeyboardButtonType::Url(x) => clone_opt_string(&x.extra),
        }
    }

    fn to_json(&self) -> (r: Result<String, EncodeError>) {
        crate::object::encode(self)
    }
}

impl InlineKeyboardButtonType {
    pub fn from_json(json: &str) -> (r: Result<InlineKeyboardButtonType, DecodeError>)
        ensures
            match crate::parse::parse_doc(json@) {
                Some(t) => match r {
                    Ok(v) => Self::accepts(t) && Self::decodes_from(t, v),
                    Err(e) => !Self::accepts(t) && crate::errors::err_matches(e, Self::err_of(t)),
                },
                None => r matches Err(e) && e == DecodeError::Malformed,
            },
    {
        crate::object::from_json::<InlineKeyboardButtonType>(json)
    }

    pub fn _is_default(&self) -> (r: bool)
        ensures
            r == (self is _Default),
    {
        match self {
            InlineKeyboardButtonType::_Default(_) => true,
            _ => false,
        }
    }

    pub fn is_buy(&self) -> (r: bool)
        ensures
            r == (self is Buy),
    {
        match self {
            InlineKeyboardButtonType::Buy(_) => true,
            _ => false,
        }
    }

    pub fn is_callback(&self) -> (r: bool)
        ensures
            r == (self is Callback),
    {
        match self {
            InlineKeyboardButtonType::Callback(_) => true,
            _ => false,
        }
    }

    pub fn is_callback_game(&self) -> (r: bool)
        ensures
            r == (self is CallbackGame),
    {
        match self {
            InlineKeyboardButtonType::CallbackGame(_) => true,
            _ => false,
        }
    }

    pub fn is_callback_with_password(&self) -> (r: bool)
        ensures
            r == (self is CallbackWithPassword),
    {
        match self {
            InlineKeyboardButtonType::CallbackWithPassword(_) => true,
            _ => false,
        }
    }

    pub fn is_login_url(&self) -> (r: bool)
        ensures
            r == (self is LoginUrl),
    {
        match self {
            InlineKeyboardButtonType::LoginUrl(_) => true,
            _ => false,
        }
    }

    pub fn is_switch_inline(&self) -> (r: bool)
        ensures
            r == (self is SwitchInline),
    {
        match self {
            InlineKeyboardButtonType::SwitchInline(_) => true,
            _ => false,
        }
    }

    pub fn is_url(&self) -> (r: bool)
        ensures
            r == (self is Url),
    {
        match self {
            InlineKeyboardButtonType::Url(_) => true,
            _ => false,
        }
    }

    pub fn as_buy(&self) -> (r: Option<&InlineKeyboardButtonTypeBuy>)
        ensures
            (self is Buy) == (r is Some),
            r matches Some(x) ==> *x == self->Buy_0,
    {
        match self {
            InlineKeyboardButtonType::Buy(x) => Some(x),
            _ => None,
        }
    }

    pub fn as_callback(&self) -> (r: Option<&InlineKeyboardButtonTypeCallback>)
        ensures
            (self is Callback) == (r is Some),
            r matches Some(x) ==> *x == self->Callback_0,
    {
        match self {
            InlineKeyboardButtonType::Callback(x) => Some(x),
            _ => None,
        }
    }

    pub fn as_callback_game(&self) -> (r: Option<&InlineKeyboardButtonTypeCallbackGame>)
        ensures
            (self is CallbackGame) == (r is Some),
            r matches Some(x) ==> *x == self->CallbackGame_0,
    {
        match self {
            InlineKeyboardButtonType::CallbackGame(x) => Some(x),
            _ => None,
        }
    }

    pub fn as_callback_with_password(&self) -> (r: Option<&InlineKeyboardButtonTypeCallbackWithPassword>)
        ensures
            (self is CallbackWithPassword) == (r is Some),
            r matches Some(x) ==> *x == self->CallbackWithPassword_0,
    {
        match self {
            InlineKeyboardButtonType::CallbackWithPassword(x) => Some(x),
            _ => None,
        }
    }

    pub fn as_login_url(&self) -> (r: Option<&InlineKeyboardButtonTypeLoginUrl>)
        ensures
            (self is LoginUrl) == (r is Some),
            r matches Some(x) ==> *x == self->LoginUrl_0,
    {
        match self {
            InlineKeyboardButtonType::LoginUrl(x) => Some(x),
            _ => None,
        }
    }

    pub fn as_switch_inline(&self) -> (r: Option<&InlineKeyboardButtonTypeSwitchInline>)
        ensures
            (self is SwitchInline) == (r is Some),
            r matches Some(x) ==> *x == self->SwitchInline_0,
    {
        match self {
            InlineKeyboardButtonType::SwitchInline(x) => Some(x),
            _ => None,
        }
    }

    pub fn as_url(&self) -> (r: Option<&InlineKeyboardButtonTypeUrl>)
        ensures
            (self is Url) == (r is Some),
            r matches Some(x) ==> *x == self->Url_0,
    {
        match self {
            InlineKeyboardButtonType::Url(x) => Some(x),
            _ => None,
        }
    }

    pub fn buy(t: &InlineKeyboardButtonTypeBuy) -> (r: Self)
        ensures
            r matches InlineKeyboardButtonType::Buy(x) && x.eqv(*t),
    {
        InlineKeyboardButtonType::Buy(t.clone())
    }

    pub fn callback(t: &InlineKeyboardButtonTypeCallback) -> (r: Self)
        ensures
            r matches InlineKeyboardButtonType::Callback(x) && x.eqv(*t),
    {
        InlineKeyboardButtonType::Callback(t.clone())
    }

    pub fn callback_game(t: &InlineKeyboardButtonTypeCallbackGame) -> (r: Self)
        ensures
            r matches InlineKeyboardButtonType::CallbackGame(x) && x.eqv(*t),
    {
        InlineKeyboardButtonType::CallbackGame(t.clone())
    }

    pub fn callback_with_password(t: &InlineKeyboardButtonTypeCallbackWithPassword) -> (r: Self)
        ensures
            r matches InlineKeyboardButtonType::CallbackWithPassword(x) && x.eqv(*t),
    {
        InlineKeyboardButtonType::CallbackWithPassword(t.clone())
    }

    pub fn login_url(t: &InlineKeyboardButtonTypeLoginUrl) -> (r: Self)
        ensures
            r matches InlineKeyboardButtonType::LoginUrl(x) && x.eqv(*t),
    {
        InlineKeyboardButtonType::LoginUrl(t.clone())
    }

    pub fn switch_inline(t: &InlineKeyboardButtonTypeSwitchInline) -> (r: Self)
        ensures
            r matches InlineKeyboardButtonType::SwitchInline(x) && x.eqv(*t),
    {
        InlineKeyboardButtonType::SwitchInline(t.clone())
    }

    pub fn url(t: &InlineKeyboardButtonTypeUrl) -> (r: Self)
        ensures
            r matches InlineKeyboardButtonType::Url(x) && x.eqv(*t),
    {
        InlineKeyboardButtonType::Url(t.clone())
    }
}
/// A button to buy something. This button must be in the first column and row of the keyboard and can be attached only to a message with content of the type messageInvoice
#[derive(Debug, PartialEq)]
pub struct InlineKeyboardButtonTypeBuy {
    pub extra: Option<String>,
}

impl InlineKeyboardButtonTypeBuy {
    pub open spec fn tag_spec() -> Seq<char> {
        "inlineKeyboardButtonTypeBuy"@
    }

    /// The members of the wire object, in the order they are written.
    pub open spec fn members_spec(self) -> Seq<(Seq<char>, SpecJson)> {
        seq![
            ("@type"@, SpecJson::Str(Self::tag_spec())),
            ("@extra"@, opt_str_tree(opt_str_view(self.extra))),
        ]
    }

    pub open spec fn fields_ok(t: SpecJson) -> bool {
        &&& ok_opt_str(t, "@extra"@)
    }

    pub open spec fn fail_field(t: SpecJson) -> Seq<char> {
        if !ok_opt_str(t, "@extra"@) {
            "@extra"@
        } else {
            Seq::empty()
        }
    }

    /// The encoding of a value carries exactly this type's tag.
    pub proof fn lemma_wire_tag(v: InlineKeyboardButtonTypeBuy)
        ensures
            v.wire_tree() matches Some(t) ==> tag_of(t) == Some(InlineKeyboardButtonTypeBuy::tag_spec()),
    {
        if v.wire_tree() is Some {
            let t = v.wire_tree()->0;
            let ms = t->Obj_0;
            lemma_get_spec_found(ms, "@type"@, 0);
        }
    }
}

impl Clone for InlineKeyboardButtonTypeBuy {
    fn clone(&self) -> (res: Self)
        ensures
            res.eqv(*self),
    {
        InlineKeyboardButtonTypeBuy {
            extra: clone_opt_string(&self.extra),
        }
    }
}

impl Wire for InlineKeyboardButtonTypeBuy {
    open spec fn wire_tree(self) -> Option<SpecJson> {
        Some(SpecJson::Obj(self.members_spec()))
    }

    open spec fn accepts(t: SpecJson) -> bool {
        tag_of(t) is Some && Self::fields_ok(t)
    }

    open spec fn err_of(t: SpecJson) -> SpecDecodeError {
        match tag_of(t) {
            None => SpecDecodeError::Malformed,
            Some(_) => SpecDecodeError::FieldShapeMismatch(Self::tag_spec(), Self::fail_field(t)),
        }
    }

    open spec fn decodes_from(t: SpecJson, v: Self) -> bool {
        &&& m_opt_str(t, "@extra"@, v.extra)
    }

    open spec fn eqv(self, other: Self) -> bool {
        &&& eqv_opt_string(self.extra, other.extra)
    }

    fn clone_val(&self) -> (r: Self) {
        self.clone()
    }

    fn decode_tree(t: &JsonValue) -> (r: Result<Self, DecodeError>) {
        if get_tag(t).is_none() {
            return Err(DecodeError::Malformed);
        }
        let extra = match field_opt_string(t, "@extra") {
            Some(x) => x,
            None => {
                return Err(DecodeError::FieldShapeMismatch(
                    String::from_str("inlineKeyboardButtonTypeBuy"),
                    String::from_str("@extra"),
                ));
            },
        };
        Ok(InlineKeyboardButtonTypeBuy { extra })
    }

    fn encode_tree(&self) -> (r: Result<JsonValue, EncodeError>) {
        let mut members: Vec<JsonMember> = Vec::new();
        proof {
            assert(view_members(members@) =~= Seq::<(Seq<char>, SpecJson)>::empty());
        }
        push_member(&mut members, "@type", JsonValue::Str(String::from_str("inlineKeyboardButtonTypeBuy")));
        push_member(&mut members, "@extra", opt_string_tree(&self.extra));
        let node = JsonValue::Obj(members);
        proof {
            assert(view_members(members@) =~= self.members_spec());
            assert(node@ == self.wire_tree()->0);
        }
        Ok(node)
    }

    proof fn lemma_wire_wf(v: Self) {
        if v.wire_tree() is Some {
            let t = v.wire_tree()->0;
            let ms = t->Obj_0;
            assert(ms == v.members_spec());
            assert forall|i: int| 0 <= i < ms.len() implies wf(#[trigger] ms[i].1) by {
            }
        }
    }

    proof fn lemma_round_trip(v: Self) {
        if v.wire_tree() is Some {
            let t = v.wire_tree()->0;
            let ms = t->Obj_0;
            assert(ms == v.members_spec());
            reveal_strlit("@type");
            reveal_strlit("@extra");
            assert("@type"@.len() == 5);
            assert("@extra"@.len() == 6);
            reveal_with_fuel(get_spec, 4);
            lemma_get_spec_found(ms, "@type"@, 0);
            lemma_get_spec_found(ms, "@extra"@, 1);
            assert(tag_of(t) == Some(Self::tag_spec()));
            assert(ok_opt_str(t, "@extra"@));
            assert(Self::accepts(t));
            assert forall|w: Self| Self::decodes_from(t, w) implies #[trigger] w.eqv(v) by {
            }
        }
    }
}

impl RObject for InlineKeyboardButtonTypeBuy {
    open spec fn tag_chars(&self) -> Seq<char> {
        Self::tag_spec()
    }

    open spec fn extra_spec(&self) -> Option<Seq<char>> {
        opt_str_view(self.extra)
    }

    fn td_name(&self) -> (r: &'static str) {
        "inlineKeyboardButtonTypeBuy"
    }

    fn extra(&self) -> (r: Option<String>) {
        clone_opt_string(&self.extra)
    }

    fn to_json(&self) -> (r: Result<String, EncodeError>) {
        crate::object::encode(self)
    }
}

impl TDInlineKeyboardButtonType for InlineKeyboardButtonTypeBuy {

}

impl InlineKeyboardButtonTypeBuy {
    pub fn from_json(json: &str) -> (r: Result<InlineKeyboardButtonTypeBuy, DecodeError>)
        ensures
            match crate::parse::parse_doc(json@) {
                Some(t) => match r {
                    Ok(v) => Self::accepts(t) && Self::decodes_from(t, v),
                    Err(e) => !Self::accepts(t) && crate::errors::err_matches(e, Self::err_of(t)),
                },
                None => r matches Err(e) && e == DecodeError::Malformed,
            },
    {
        crate::object::from_json::<InlineKeyboardButtonTypeBuy>(json)
    }

    pub fn builder() -> (r: RTDInlineKeyboardButtonTypeBuyBuilder)
        ensures
            r.inner.extra is Some,
    {
        RTDInlineKeyboardButtonTypeBuyBuilder {
            inner: InlineKeyboardButtonTypeBuy {
                extra: Some(new_token()),
            },
        }
    }
}

pub struct RTDInlineKeyboardButtonTypeBuyBuilder {
    pub inner: InlineKeyboardButtonTypeBuy,
}

impl RTDInlineKeyboardButtonTypeBuyBuilder {
    pub fn build(&self) -> (r: InlineKeyboardButtonTypeBuy)
        ensures
            r.eqv(self.inner),
    {
        self.inner.clone()
    }
}
/// A button that sends a callback query to a bot
#[derive(Debug, PartialEq)]
pub struct InlineKeyboardButtonTypeCallback {
    pub extra: Option<String>,
    /// Data to be sent to the bot via a callback query
    pub data: String,
}

impl InlineKeyboardButtonTypeCallback {
    pub open spec fn tag_spec() -> Seq<char> {
        "inlineKeyboardButtonTypeCallback"@
    }

    /// The members of the wire object, in the order they are written.
    pub open spec fn members_spec(self) -> Seq<(Seq<char>, SpecJson)> {
        seq![
            ("@type"@, SpecJson::Str(Self::tag_spec())),
            ("@extra"@, opt_str_tree(opt_str_view(self.extra))),
            ("data"@, SpecJson::Str(self.data@)),
        ]
    }

    pub open spec fn fields_ok(t: SpecJson) -> bool {
        &&& ok_opt_str(t, "@extra"@)
        &&& ok_str(t, "data"@)
    }

    pub open spec fn fail_field(t: SpecJson) -> Seq<char> {
        if !ok_opt_str(t, "@extra"@) {
            "@extra"@
        } else if !(ok_str(t, "data"@)) {
            "data"@
        } else {
            Seq::empty()
        }
    }

    /// The encoding of a value carries exactly this type's tag.
    pub proof fn lemma_wire_tag(v: InlineKeyboardButtonTypeCallback)
        ensures
            v.wire_tree() matches Some(t) ==> tag_of(t) == Some(InlineKeyboardButtonTypeCallback::tag_spec()),
    {
        if v.wire_tree() is Some {
            let t = v.wire_tree()->0;
            let ms = t->Obj_0;
            lemma_get_spec_found(ms, "@type"@, 0);
        }
    }
}

impl Clone for InlineKeyboardButtonTypeCallback {
    fn clone(&self) -> (res: Self)
        ensures
            res.eqv(*self),
    {
        InlineKeyboardButtonTypeCallback {
            extra: clone_opt_string(&self.extra),
            data: self.data.clone(),
        }
    }
}

impl Wire for InlineKeyboardButtonTypeCallback {
    open spec fn wire_tree(self) -> Option<SpecJson> {
        Some(SpecJson::Obj(self.members_spec()))
    }

    open spec fn accepts(t: SpecJson) -> bool {
        tag_of(t) is Some && Self::fields_ok(t)
    }

    open spec fn err_of(t: SpecJson) -> SpecDecodeError {
        match tag_of(t) {
            None => SpecDecodeError::Malformed,
            Some(_) => SpecDecodeError::FieldShapeMismatch(Self::tag_spec(), Self::fail_field(t)),
        }
    }

    open spec fn decodes_from(t: SpecJson, v: Self) -> bool {
        &&& m_opt_str(t, "@extra"@, v.extra)
        &&& m_str(t, "data"@, v.data@)
    }

    open spec fn eqv(self, other: Self) -> bool {
        &&& eqv_opt_string(self.extra, other.extra)
        &&& self.data@ == other.data@
    }

    fn clone_val(&self) -> (r: Self) {
        self.clone()
    }

    fn decode_tree(t: &JsonValue) -> (r: Result<Self, DecodeError>) {
        if get_tag(t).is_none() {
            return Err(DecodeError::Malformed);
        }
        let extra = match field_opt_string(t, "@extra") {
            Some(x) => x,
            None => {
                return Err(DecodeError::FieldShapeMismatch(
                    String::from_str("inlineKeyboardButtonTypeCallback"),
                    String::from_str("@extra"),
                ));
            },
        };
        let data = match field_string(t, "data") {
            Some(x) => x,
            None => {
                return Err(DecodeError::FieldShapeMismatch(
                    String::from_str("inlineKeyboardButtonTypeCallback"),
                    String::from_str("data"),
                ));
            },
        };
        Ok(InlineKeyboardButtonTypeCallback { extra, data })
    }

    fn encode_tree(&self) -> (r: Result<JsonValue, EncodeError>) {
        let mut members: Vec<JsonMember> = Vec::new();
        proof {
            assert(view_members(members@) =~= Seq::<(Seq<char>, SpecJson)>::empty());
        }
        push_member(&mut members, "@type", JsonValue::Str(String::from_str("inlineKeyboardButtonTypeCallback")));
        push_member(&mut members, "@extra", opt_string_tree(&self.extra));
        push_member(&mut members, "data", JsonValue::Str(self.data.clone()));
        let node = JsonValue::Obj(members);
        proof {
            assert(view_members(members@) =~= self.members_spec());
            assert(node@ == self.wire_tree()->0);
        }
        Ok(node)
    }

    proof fn lemma_wire_wf(v: Self) {
        if v.wire_tree() is Some {
            let t = v.wire_tree()->0;
            let ms = t->Obj_0;
            assert(ms == v.members_spec());
            assert forall|i: int| 0 <= i < ms.len() implies wf(#[trigger] ms[i].1) by {
            }
        }
    }

    proof fn lemma_round_trip(v: Self) {
        if v.wire_tree() is Some {
            let t = v.wire_tree()->0;
            let ms = t->Obj_0;
            assert(ms == v.members_spec());
            reveal_strlit("@type");
            reveal_strlit("@extra");
            reveal_strlit("data");
            assert("@type"@.len() == 5);
            assert("@extra"@.len() == 6);
            assert("data"@.len() == 4);
            reveal_with_fuel(get_spec, 5);
            lemma_get_spec_found(ms, "@type"@, 0);
            lemma_get_spec_found(ms, "@extra"@, 1);
            lemma_get_spec_found(ms, "data"@, 2);
            assert(tag_of(t) == Some(Self::tag_spec()));
            assert(ok_opt_str(t, "@extra"@));
            assert(ok_str(t, "data"@));
            assert(Self::accepts(t));
            assert forall|w: Self| Self::decodes_from(t, w) implies #[trigger] w.eqv(v) by {
            }
        }
    }
}

impl RObject for InlineKeyboardButtonTypeCallback {
    open spec fn tag_chars(&self) -> Seq<char> {
        Self::tag_spec()
    }

    open spec fn extra_spec(&self) -> Option<Seq<char>> {
        opt_str_view(self.extra)
    }

    fn td_name(&self) -> (r: &'static str) {
        "inlineKeyboardButtonTypeCallback"
    }

    fn extra(&self) -> (r: Option<String>) {
        clone_opt_string(&self.extra)
    }

    fn to_json(&self) -> (r: Result<String, EncodeError>) {
        crate::object::encode(self)
    }
}

impl TDInlineKeyboardButtonType for InlineKeyboardButtonTypeCallback {

}

impl InlineKeyboardButtonTypeCallback {
    pub fn from_json(json: &str) -> (r: Result<InlineKeyboardButtonTypeCallback, DecodeError>)
        ensures
            match crate::parse::parse_doc(json@) {
                Some(t) => match r {
                    Ok(v) => Self::accepts(t) && Self::decodes_from(t, v),
                    Err(e) => !Self::accepts(t) && crate::errors::err_matches(e, Self::err_of(t)),
                },
                None => r matches Err(e) && e == DecodeError::Malformed,
            },
    {
        crate::object::from_json::<InlineKeyboardButtonTypeCallback>(json)
    }

    pub fn builder() -> (r: RTDInlineKeyboardButtonTypeCallbackBuilder)
        ensures
            r.inner.extra is Some,
            r.inner.data@ == Seq::<char>::empty(),
    {
        RTDInlineKeyboardButtonTypeCallbackBuilder {
            inner: InlineKeyboardButtonTypeCallback {
                extra: Some(new_token()),
                data: String::new(),
            },
        }
    }

    pub fn data(&self) -> (r: &String)
        ensures
            *r == self.data,
    {
        &self.data
    }
}

pub struct RTDInlineKeyboardButtonTypeCallbackBuilder {
    pub inner: InlineKeyboardButtonTypeCallback,
}

impl RTDInlineKeyboardButtonTypeCallbackBuilder {
    pub fn build(&self) -> (r: InlineKeyboardButtonTypeCallback)
        ensures
            r.eqv(self.inner),
    {
        self.inner.clone()
    }

    pub fn data(&mut self, data: String) -> (r: &mut Self)
        ensures
            *r == (RTDInlineKeyboardButtonTypeCallbackBuilder { inner: InlineKeyboardButtonTypeCallback { data: data, ..old(self).inner } }),
            *final(self) == *final(r),
    {
        self.inner.data = data;
        self
    }
}
/// A button with a game that sends a callback query to a bot. This button must be in the first column and row of the keyboard and can be attached only to a message with content of the type messageGame
#[derive(Debug, PartialEq)]
pub struct InlineKeyboardButtonTypeCallbackGame {
    pub extra: Option<String>,
}

impl InlineKeyboardButtonTypeCallbackGame {
    pub open spec fn tag_spec() -> Seq<char> {
        "inlineKeyboardButtonTypeCallbackGame"@
    }

    /// The members of the wire object, in the order they are written.
    pub open spec fn members_spec(self) -> Seq<(Seq<char>, SpecJson)> {
        seq![
            ("@type"@, SpecJson::Str(Self::tag_spec())),
            ("@extra"@, opt_str_tree(opt_str_view(self.extra))),
        ]
    }

    pub open spec fn fields_ok(t: SpecJson) -> bool {
        &&& ok_opt_str(t, "@extra"@)
    }

    pub open spec fn fail_field(t: SpecJson) -> Seq<char> {
        if !ok_opt_str(t, "@extra"@) {
            "@extra"@
        } else {
            Seq::empty()
        }
    }

    /// The encoding of a value carries exactly this type's tag.
    pub proof fn lemma_wire_tag(v: InlineKeyboardButtonTypeCallbackGame)
        ensures
            v.wire_tree() matches Some(t) ==> tag_of(t) == Some(InlineKeyboardButtonTypeCallbackGame::tag_spec()),
    {
        if v.wire_tree() is Some {
            let t = v.wire_tree()->0;
            let ms = t->Obj_0;
            lemma_get_spec_found(ms, "@type"@, 0);
        }
    }
}

impl Clone for InlineKeyboardButtonTypeCallbackGame {
    fn clone(&self) -> (res: Self)
        ensures
            res.eqv(*self),
    {
        InlineKeyboardButtonTypeCallbackGame {
            extra: clone_opt_string(&self.extra),
        }
    }
}

impl Wire for InlineKeyboardButtonTypeCallbackGame {
    open spec fn wire_tree(self) -> Option<SpecJson> {
        Some(SpecJson::Obj(self.members_spec()))
    }

    open spec fn accepts(t: SpecJson) -> bool {
        tag_of(t) is Some && Self::fields_ok(t)
    }

    open spec fn err_of(t: SpecJson) -> SpecDecodeError {
        match tag_of(t) {
            None => SpecDecodeError::Malformed,
            Some(_) => SpecDecodeError::FieldShapeMismatch(Self::tag_spec(), Self::fail_field(t)),
        }
    }

    open spec fn decodes_from(t: SpecJson, v: Self) -> bool {
        &&& m_opt_str(t, "@extra"@, v.extra)
    }

    open spec fn eqv(self, other: Self) -> bool {
        &&& eqv_opt_string(self.extra, other.extra)
    }

    fn clone_val(&self) -> (r: Self) {
        self.clone()
    }

    fn decode_tree(t: &JsonValue) -> (r: Result<Self, DecodeError>) {
        if get_tag(t).is_none() {
            return Err(DecodeError::Malformed);
        }
        let extra = match field_opt_string(t, "@extra") {
            Some(x) => x,
            None => {
                return Err(DecodeError::FieldShapeMismatch(
                    String::from_str("inlineKeyboardButtonTypeCallbackGame"),
                    String::from_str("@extra"),
                ));
            },
        };
        Ok(InlineKeyboardButtonTypeCallbackGame { extra })
    }

    fn encode_tree(&self) -> (r: Result<JsonValue, EncodeError>) {
        let mut members: Vec<JsonMember> = Vec::new();
        proof {
            assert(view_members(members@) =~= Seq::<(Seq<char>, SpecJson)>::empty());
        }
        push_member(&mut members, "@type", JsonValue::Str(String::from_str("inlineKeyboardButtonTypeCallbackGame")));
        push_member(&mut members, "@extra", opt_string_tree(&self.extra));
        let node = JsonValue::Obj(members);
        proof {
            assert(view_members(members@) =~= self.members_spec());
            assert(node@ == self.wire_tree()->0);
        }
        Ok(node)
    }

    proof fn lemma_wire_wf(v: Self) {
        if v.wire_tree() is Some {
            let t = v.wire_tree()->0;
            let ms = t->Obj_0;
            assert(ms == v.members_spec());
            assert forall|i: int| 0 <= i < ms.len() implies wf(#[trigger] ms[i].1) by {
            }
        }
    }

    proof fn lemma_round_trip(v: Self) {
        if v.wire_tree() is Some {
            let t = v.wire_tree()->0;
            let ms = t->Obj_0;
            assert(ms == v.members_spec());
            reveal_strlit("@type");
            reveal_strlit("@extra");
            assert("@type"@.len() == 5);
            assert("@extra"@.len() == 6);
            reveal_with_fuel(get_spec, 4);
            lemma_get_spec_found(ms, "@type"@, 0);
            lemma_get_spec_found(ms, "@extra"@, 1);
            assert(tag_of(t) == Some(Self::tag_spec()));
            assert(ok_opt_str(t, "@extra"@));
            assert(Self::accepts(t));
            assert forall|w: Self| Self::decodes_from(t, w) implies #[trigger] w.eqv(v) by {
            }
        }
    }
}

impl RObject for InlineKeyboardButtonTypeCallbackGame {
    open spec fn tag_chars(&self) -> Seq<char> {
        Self::tag_spec()
    }

    open spec fn extra_spec(&self) -> Option<Seq<char>> {
        opt_str_view(self.extra)
    }

    fn td_name(&self) -> (r: &'static str) {
        "inlineKeyboardButtonTypeCallbackGame"
    }

    fn extra(&self) -> (r: Option<String>) {
        clone_opt_string(&self.extra)
    }

    fn to_json(&self) -> (r: Result<String, EncodeError>) {
        crate::object::encode(self)
    }
}

impl TDInlineKeyboardButtonType for InlineKeyboardButtonTypeCallbackGame {

}

impl InlineKeyboardButtonTypeCallbackGame {
    pub fn from_json(json: &str) -> (r: Result<InlineKeyboardButtonTypeCallbackGame, DecodeError>)
        ensures
            match crate::parse::parse_doc(json@) {
                Some(t) => match r {
                    Ok(v) => Self::accepts(t) && Self::decodes_from(t, v),
                    Err(e) => !Self::accepts(t) && crate::errors::err_matches(e, Self::err_of(t)),
                },
                None => r matches Err(e) && e == DecodeError::Malformed,
            },
    {
        crate::object::from_json::<InlineKeyboardButtonTypeCallbackGame>(json)
    }

    pub fn builder() -> (r: RTDInlineKeyboardButtonTypeCallbackGameBuilder)
        ensures
            r.inner.extra is Some,
    {
        RTDInlineKeyboardButtonTypeCallbackGameBuilder {
            inner: InlineKeyboardButtonTypeCallbackGame {
                extra: Some(new_token()),
            },
        }
    }
}

pub struct RTDInlineKeyboardButtonTypeCallbackGameBuilder {
    pub inner: InlineKeyboardButtonTypeCallbackGame,
}

impl RTDInlineKeyboardButtonTypeCallbackGameBuilder {
    pub fn build(&self) -> (r: InlineKeyboardButtonTypeCallbackGame)
        ensures
            r.eqv(self.inner),
    {
        self.inner.clone()
    }
}
/// A button that asks for password of the current user and then sends a callback query to a bot
#[derive(Debug, PartialEq)]
pub struct InlineKeyboardButtonTypeCallbackWithPassword {
    pub extra: Option<String>,
    /// Data to be sent to the bot via a callback query
    pub data: String,
}

impl InlineKeyboardButtonTypeCallbackWithPassword {
    pub open spec fn tag_spec() -> Seq<char> {
        "inlineKeyboardButtonTypeCallbackWithPassword"@
    }

    /// The members of the wire object, in the order they are written.
    pub open spec fn members_spec(self) -> Seq<(Seq<char>, SpecJson)> {
        seq![
            ("@type"@, SpecJson::Str(Self::tag_spec())),
            ("@extra"@, opt_str_tree(opt_str_view(self.extra))),
            ("data"@, SpecJson::Str(self.data@)),
        ]
    }

    pub open spec fn fields_ok(t: SpecJson) -> bool {
        &&& ok_opt_str(t, "@extra"@)
        &&& ok_str(t, "data"@)
    }

    pub open spec fn fail_field(t: SpecJson) -> Seq<char> {
        if !ok_opt_str(t, "@extra"@) {
            "@extra"@
        } else if !(ok_str(t, "data"@)) {
            "data"@
        } else {
            Seq::empty()
        }
    }

    /// The encoding of a value carries exactly this type's tag.
    pub proof fn lemma_wire_tag(v: InlineKeyboardButtonTypeCallbackWithPassword)
        ensures
            v.wire_tree() matches Some(t) ==> tag_of(t) == Some(InlineKeyboardButtonTypeCallbackWithPassword::tag_spec()),
    {
        if v.wire_tree() is Some {
            let t = v.wire_tree()->0;
            let ms = t->Obj_0;
            lemma_get_spec_found(ms, "@type"@, 0);
        }
    }
}

impl Clone for InlineKeyboardButtonTypeCallbackWithPassword {
    fn clone(&self) -> (res: Self)
        ensures
            res.eqv(*self),
    {
        InlineKeyboardButtonTypeCallbackWithPassword {
            extra: clone_opt_string(&self.extra),
            data: self.data.clone(),
        }
    }
}

impl Wire for InlineKeyboardButtonTypeCallbackWithPassword {
    open spec fn wire_tree(self) -> Option<SpecJson> {
        Some(SpecJson::Obj(self.members_spec()))
    }

    open spec fn accepts(t: SpecJson) -> bool {
        tag_of(t) is Some && Self::fields_ok(t)
    }

    open spec fn err_of(t: SpecJson) -> SpecDecodeError {
        match tag_of(t) {
            None => SpecDecodeError::Malformed,
            Some(_) => SpecDecodeError::FieldShapeMismatch(Self::tag_spec(), Self::fail_field(t)),
        }
    }

    open spec fn decodes_from(t: SpecJson, v: Self) -> bool {
        &&& m_opt_str(t, "@extra"@, v.extra)
        &&& m_str(t, "data"@, v.data@)
    }

    open spec fn eqv(self, other: Self) -> bool {
        &&& eqv_opt_string(self.extra, other.extra)
        &&& self.data@ == other.data@
    }

    fn clone_val(&self) -> (r: Self) {
        self.clone()
    }

    fn decode_tree(t: &JsonValue) -> (r: Result<Self, DecodeError>) {
        if get_tag(t).is_none() {
            return Err(DecodeError::Malformed);
        }
        let extra = match field_opt_string(t, "@extra") {
            Some(x) => x,
            None => {
                return Err(DecodeError::FieldShapeMismatch(
                    String::from_str("inlineKeyboardButtonTypeCallbackWithPassword"),
                    String::from_str("@extra"),
                ));
            },
        };
        let data = match field_string(t, "data") {
            Some(x) => x,
            None => {
                return Err(DecodeError::FieldShapeMismatch(
                    String::from_str("inlineKeyboardButtonTypeCallbackWithPassword"),
                    String::from_str("data"),
                ));
            },
        };
        Ok(InlineKeyboardButtonTypeCallbackWithPassword { extra, data })
    }

    fn encode_tree(&self) -> (r: Result<JsonValue, EncodeError>) {
        let mut members: Vec<JsonMember> = Vec::new();
        proof {
            assert(view_members(members@) =~= Seq::<(Seq<char>, SpecJson)>::empty());
        }
        push_member(&mut members, "@type", JsonValue::Str(String::from_str("inlineKeyboardButtonTypeCallbackWithPassword")));
        push_member(&mut members, "@extra", opt_string_tree(&self.extra));
        push_member(&mut members, "data", JsonValue::Str(self.data.clone()));
        let node = JsonValue::Obj(members);
        proof {
            assert(view_members(members@) =~= self.members_spec());
            assert(node@ == self.wire_tree()->0);
        }
        Ok(node)
    }

    proof fn lemma_wire_wf(v: Self) {
        if v.wire_tree() is Some {
            let t = v.wire_tree()->0;
            let ms = t->Obj_0;
            assert(ms == v.members_spec());
            assert forall|i: int| 0 <= i < ms.len() implies wf(#[trigger] ms[i].1) by {
            }
        }
    }

    proof fn lemma_round_trip(v: Self) {
        if v.wire_tree() is Some {
            let t = v.wire_tree()->0;
            let ms = t->Obj_0;
            assert(ms == v.members_spec());
            reveal_strlit("@type");
            reveal_strlit("@extra");
            reveal_strlit("data");
            assert("@type"@.len() == 5);
            assert("@extra"@.len() == 6);
            assert("data"@.len() == 4);
            reveal_with_fuel(get_spec, 5);
            lemma_get_spec_found(ms, "@type"@, 0);
            lemma_get_spec_found(ms, "@extra"@, 1);
            lemma_get_spec_found(ms, "data"@, 2);
            assert(tag_of(t) == Some(Self::tag_spec()));
            assert(ok_opt_str(t, "@extra"@));
            assert(ok_str(t, "data"@));
            assert(Self::accepts(t));
            assert forall|w: Self| Self::decodes_from(t, w) implies #[trigger] w.eqv(v) by {
            }
        }
    }
}

impl RObject for InlineKeyboardButtonTypeCallbackWithPassword {
    open spec fn tag_chars(&self) -> Seq<char> {
        Self::tag_spec()
    }

    open spec fn extra_spec(&self) -> Option<Seq<char>> {
        opt_str_view(self.extra)
    }

    fn td_name(&self) -> (r: &'static str) {
        "inlineKeyboardButtonTypeCallbackWithPassword"
    }

    fn extra(&self) -> (r: Option<String>) {
        clone_opt_string(&self.extra)
    }

    fn to_json(&self) -> (r: Result<String, EncodeError>) {
        crate::object::encode(self)
    }
}

impl TDInlineKeyboardButtonType for InlineKeyboardButtonTypeCallbackWithPassword {

}

impl InlineKeyboardButtonTypeCallbackWithPassword {
    pub fn from_json(json: &str) -> (r: Result<InlineKeyboardButtonTypeCallbackWithPassword, DecodeError>)
        ensures
            match crate::parse::parse_doc(json@) {
                Some(t) => match r {
                    Ok(v) => Self::accepts(t) && Self::decodes_from(t, v),
                    Err(e) => !Self::accepts(t) && crate::errors::err_matches(e, Self::err_of(t)),
                },
                None => r matches Err(e) && e == DecodeError::Malformed,
            },
    {
        crate::object::from_json::<InlineKeyboardButtonTypeCallbackWithPassword>(json)
    }

    pub fn builder() -> (r: RTDInlineKeyboardButtonTypeCallbackWithPasswordBuilder)
        ensures
            r.inner.extra is Some,
            r.inner.data@ == Seq::<char>::empty(),
    {
        RTDInlineKeyboardButtonTypeCallbackWithPasswordBuilder {
            inner: InlineKeyboardButtonTypeCallbackWithPassword {
                extra: Some(new_token()),
                data: String::new(),
            },
        }
    }

    pub fn data(&self) -> (r: &String)
        ensures
            *r == self.data,
    {
        &self.data
    }
}

pub struct RTDInlineKeyboardButtonTypeCallbackWithPasswordBuilder {
    pub inner: InlineKeyboardButtonTypeCallbackWithPassword,
}

impl RTDInlineKeyboardButtonTypeCallbackWithPasswordBuilder {
    pub fn build(&self) -> (r: InlineKeyboardButtonTypeCallbackWithPassword)
        ensures
            r.eqv(self.inner),
    {
        self.inner.clone()
    }

    pub fn data(&mut self, data: String) -> (r: &mut Self)
        ensures
            *r == (RTDInlineKeyboardButtonTypeCallbackWithPasswordBuilder { inner: InlineKeyboardButtonTypeCallbackWithPassword { data: data, ..old(self).inner } }),
            *final(self) == *final(r),
    {
        self.inner.data = data;
        self
    }
}
/// A button that opens a specified URL and automatically authorize the current user if allowed to do so
#[derive(Debug, PartialEq)]
pub struct InlineKeyboardButtonTypeLoginUrl {
    pub extra: Option<String>,
    /// An HTTP URL to open
    pub url: String,
    /// Unique button identifier
    pub id: i64,
    /// If non-empty, new text of the button in forwarded messages
    pub forward_text: String,
}

impl InlineKeyboardButtonTypeLoginUrl {
    pub open spec fn tag_spec() -> Seq<char> {
        "inlineKeyboardButtonTypeLoginUrl"@
    }

    /// The members of the wire object, in the order they are written.
    pub open spec fn members_spec(self) -> Seq<(Seq<char>, SpecJson)> {
        seq![
            ("@type"@, SpecJson::Str(Self::tag_spec())),
            ("@extra"@, opt_str_tree(opt_str_view(self.extra))),
            ("url"@, SpecJson::Str(self.url@)),
            ("id"@, SpecJson::Num(i64_lex(self.id as int))),
            ("forward_text"@, SpecJson::Str(self.forward_text@)),
        ]
    }

    pub open spec fn fields_ok(t: SpecJson) -> bool {
        &&& ok_opt_str(t, "@extra"@)
        &&& ok_str(t, "url"@)
        &&& ok_i64(t, "id"@)
        &&& ok_str(t, "forward_text"@)
    }

    pub open spec fn fail_field(t: SpecJson) -> Seq<char> {
        if !ok_opt_str(t, "@extra"@) {
            "@extra"@
        } else if !(ok_str(t, "url"@)) {
            "url"@
        } else if !(ok_i64(t, "id"@)) {
            "id"@
        } else if !(ok_str(t, "forward_text"@)) {
            "forward_text"@
        } else {
            Seq::empty()
        }
    }

    /// The encoding of a value carries exactly this type's tag.
    pub proof fn lemma_wire_tag(v: InlineKeyboardButtonTypeLoginUrl)
        ensures
            v.wire_tree() matches Some(t) ==> tag_of(t) == Some(InlineKeyboardButtonTypeLoginUrl::tag_spec()),
    {
        if v.wire_tree() is Some {
            let t = v.wire_tree()->0;
            let ms = t->Obj_0;
            lemma_get_spec_found(ms, "@type"@, 0);
        }
    }
}

impl Clone for InlineKeyboardButtonTypeLoginUrl {
    fn clone(&self) -> (res: Self)
        ensures
            res.eqv(*self),
    {
        InlineKeyboardButtonTypeLoginUrl {
            extra: clone_opt_string(&self.extra),
            url: self.url.clone(),
            id: self.id,
            forward_text: self.forward_text.clone(),
        }
    }
}

impl Wire for InlineKeyboardButtonTypeLoginUrl {
    open spec fn wire_tree(self) -> Option<SpecJson> {
        Some(SpecJson::Obj(self.members_spec()))
    }

    open spec fn accepts(t: SpecJson) -> bool {
        tag_of(t) is Some && Self::fields_ok(t)
    }

    open spec fn err_of(t: SpecJson) -> SpecDecodeError {
        match tag_of(t) {
            None => SpecDecodeError::Malformed,
            Some(_) => SpecDecodeError::FieldShapeMismatch(Self::tag_spec(), Self::fail_field(t)),
        }
    }

    open spec fn decodes_from(t: SpecJson, v: Self) -> bool {
        &&& m_opt_str(t, "@extra"@, v.extra)
        &&& m_str(t, "url"@, v.url@)
        &&& m_i64(t, "id"@, v.id)
        &&& m_str(t, "forward_text"@, v.forward_text@)
    }

    open spec fn eqv(self, other: Self) -> bool {
        &&& eqv_opt_string(self.extra, other.extra)
        &&& self.url@ == other.url@
        &&& self.id == other.id
        &&& self.forward_text@ == other.forward_text@
    }

    fn clone_val(&self) -> (r: Self) {
        self.clone()
    }

    fn decode_tree(t: &JsonValue) -> (r: Result<Self, DecodeError>) {
        if get_tag(t).is_none() {
            return Err(DecodeError::Malformed);
        }
        let extra = match field_opt_string(t, "@extra") {
            Some(x) => x,
            None => {
                return Err(DecodeError::FieldShapeMismatch(
                    String::from_str("inlineKeyboardButtonTypeLoginUrl"),
                    String::from_str("@extra"),
                ));
            },
        };
        let url = match field_string(t, "url") {
            Some(x) => x,
            None => {
                return Err(DecodeError::FieldShapeMismatch(
                    String::from_str("inlineKeyboardButtonTypeLoginUrl"),
                    String::from_str("url"),
                ));
            },
        };
        let id = match field_i64(t, "id") {
            Some(x) => x,
            None => {
                return Err(DecodeError::FieldShapeMismatch(
                    String::from_str("inlineKeyboardButtonTypeLoginUrl"),
                    String::from_str("id"),
                ));
            },
        };
        let forward_text = match field_string(t, "forward_text") {
            Some(x) => x,
            None => {
                return Err(DecodeError::FieldShapeMismatch(
                    String::from_str("inlineKeyboardButtonTypeLoginUrl"),
                    String::from_str("forward_text"),
                ));
            },
        };
        Ok(InlineKeyboardButtonTypeLoginUrl { extra, url, id, forward_text })
    }

    fn encode_tree(&self) -> (r: Result<JsonValue, EncodeError>) {
        let mut members: Vec<JsonMember> = Vec::new();
        proof {
            assert(view_members(members@) =~= Seq::<(Seq<char>, SpecJson)>::empty());
        }
        push_member(&mut members, "@type", JsonValue::Str(String::from_str("inlineKeyboardButtonTypeLoginUrl")));
        push_member(&mut members, "@extra", opt_string_tree(&self.extra));
        push_member(&mut members, "url", JsonValue::Str(self.url.clone()));
        push_member(&mut members, "id", JsonValue::Num(i64_lexeme(self.id)));
        push_member(&mut members, "forward_text", JsonValue::Str(self.forward_text.clone()));
        let node = JsonValue::Obj(members);
        proof {
            assert(view_members(members@) =~= self.members_spec());
            assert(node@ == self.wire_tree()->0);
        }
        Ok(node)
    }

    proof fn lemma_wire_wf(v: Self) {
        if v.wire_tree() is Some {
            let t = v.wire_tree()->0;
            let ms = t->Obj_0;
            assert(ms == v.members_spec());
            crate::json::lemma_i64_lex(v.id);
            assert forall|i: int| 0 <= i < ms.len() implies wf(#[trigger] ms[i].1) by {
            }
        }
    }

    proof fn lemma_round_trip(v: Self) {
        if v.wire_tree() is Some {
            let t = v.wire_tree()->0;
            let ms = t->Obj_0;
            assert(ms == v.members_spec());
            reveal_strlit("@type");
            reveal_strlit("@extra");
            reveal_strlit("url");
            reveal_strlit("id");
            reveal_strlit("forward_text");
            assert("@type"@.len() == 5);
            assert("@extra"@.len() == 6);
            assert("url"@.len() == 3);
            assert("id"@.len() == 2);
            assert("forward_text"@.len() == 12);
            reveal_with_fuel(get_spec, 7);
            lemma_get_spec_found(ms, "@type"@, 0);
            lemma_get_spec_found(ms, "@extra"@, 1);
            lemma_get_spec_found(ms, "url"@, 2);
            lemma_get_spec_found(ms, "id"@, 3);
            lemma_get_spec_found(ms, "forward_text"@, 4);
            assert(tag_of(t) == Some(Self::tag_spec()));
            assert(ok_opt_str(t, "@extra"@));
            assert(ok_str(t, "url"@));
            crate::json::lemma_i64_lex(v.id);
            assert(ok_i64(t, "id"@));
            assert(ok_str(t, "forward_text"@));
            assert(Self::accepts(t));
            assert forall|w: Self| Self::decodes_from(t, w) implies #[trigger] w.eqv(v) by {
            }
        }
    }
}

impl RObject for InlineKeyboardButtonTypeLoginUrl {
    open spec fn tag_chars(&self) -> Seq<char> {
        Self::tag_spec()
    }

    open spec fn extra_spec(&self) -> Option<Seq<char>> {
        opt_str_view(self.extra)
    }

    fn td_name(&self) -> (r: &'static str) {
        "inlineKeyboardButtonTypeLoginUrl"
    }

    fn extra(&self) -> (r: Option<String>) {
        clone_opt_string(&self.extra)
    }

    fn to_json(&self) -> (r: Result<String, EncodeError>) {
        crate::object::encode(self)
    }
}

impl TDInlineKeyboardButtonType for InlineKeyboardButtonTypeLoginUrl {

}

impl InlineKeyboardButtonTypeLoginUrl {
    pub fn from_json(json: &str) -> (r: Result<InlineKeyboardButtonTypeLoginUrl, DecodeError>)
        ensures
            match crate::parse::parse_doc(json@) {
                Some(t) => match r {
                    Ok(v) => Self::accepts(t) && Self::decodes_from(t, v),
                    Err(e) => !Self::accepts(t) && crate::errors::err_matches(e, Self::err_of(t)),
                },
                None => r matches Err(e) && e == DecodeError::Malformed,
            },
    {
        crate::object::from_json::<InlineKeyboardButtonTypeLoginUrl>(json)
    }

    pub fn builder() -> (r: RTDInlineKeyboardButtonTypeLoginUrlBuilder)
        ensures
            r.inner.extra is Some,
            r.inner.url@ == Seq::<char>::empty(),
            r.inner.id == 0,
            r.inner.forward_text@ == Seq::<char>::empty(),
    {
        RTDInlineKeyboardButtonTypeLoginUrlBuilder {
            inner: InlineKeyboardButtonTypeLoginUrl {
                extra: Some(new_token()),
                url: String::new(),
                id: 0,
                forward_text: String::new(),
            },
        }
    }

    pub fn url(&self) -> (r: &String)
        ensures
            *r == self.url,
    {
        &self.url
    }

    pub fn id(&self) -> (r: i64)
        ensures
            r == self.id,
    {
        self.id
    }

    pub fn forward_text(&self) -> (r: &String)
        ensures
            *r == self.forward_text,
    {
        &self.forward_text
    }
}

pub struct RTDInlineKeyboardButtonTypeLoginUrlBuilder {
    pub inner: InlineKeyboardButtonTypeLoginUrl,
}

impl RTDInlineKeyboardButtonTypeLoginUrlBuilder {
    pub fn build(&self) -> (r: InlineKeyboardButtonTypeLoginUrl)
        ensures
            r.eqv(self.inner),
    {
        self.inner.clone()
    }

    pub fn url(&mut self, url: String) -> (r: &mut Self)
        ensures
            *r == (RTDInlineKeyboardButtonTypeLoginUrlBuilder { inner: InlineKeyboardButtonTypeLoginUrl { url: url, ..old(self).inner } }),
            *final(self) == *final(r),
    {
        self.inner.url = url;
        self
    }

    pub fn id(&mut self, id: i64) -> (r: &mut Self)
        ensures
            *r == (RTDInlineKeyboardButtonTypeLoginUrlBuilder { inner: InlineKeyboardButtonTypeLoginUrl { id: id, ..old(self).inner } }),
            *final(self) == *final(r),
    {
        self.inner.id = id;
        self
    }

    pub fn forward_text(&mut self, forward_text: String) -> (r: &mut Self)
        ensures
            *r == (RTDInlineKeyboardButtonTypeLoginUrlBuilder { inner: InlineKeyboardButtonTypeLoginUrl { forward_text: forward_text, ..old(self).inner } }),
            *final(self) == *final(r),
    {
        self.inner.forward_text = forward_text;
        self
    }
}
/// A button that forces an inline query to the bot to be inserted in the input field
#[derive(Debug, PartialEq)]
pub struct InlineKeyboardButtonTypeSwitchInline {
    pub extra: Option<String>,
    /// Inline query to be sent to the bot
    pub query: String,
    /// True, if the inline query must be sent from the current chat
    pub in_current_chat: bool,
}

impl InlineKeyboardButtonTypeSwitchInline {
    pub open spec fn tag_spec() -> Seq<char> {
        "inlineKeyboardButtonTypeSwitchInline"@
    }

    /// The members of the wire object, in the order they are written.
    pub open spec fn members_spec(self) -> Seq<(Seq<char>, SpecJson)> {
        seq![
            ("@type"@, SpecJson::Str(Self::tag_spec())),
            ("@extra"@, opt_str_tree(opt_str_view(self.extra))),
            ("query"@, SpecJson::Str(self.query@)),
            ("in_current_chat"@, SpecJson::Bool(self.in_current_chat)),
        ]
    }

    pub open spec fn fields_ok(t: SpecJson) -> bool {
        &&& ok_opt_str(t, "@extra"@)
        &&& ok_str(t, "query"@)
        &&& ok_bool(t, "in_current_chat"@)
    }

    pub open spec fn fail_field(t: SpecJson) -> Seq<char> {
        if !ok_opt_str(t, "@extra"@) {
            "@extra"@
        } else if !(ok_str(t, "query"@)) {
            "query"@
        } else if !(ok_bool(t, "in_current_chat"@)) {
            "in_current_chat"@
        } else {
            Seq::empty()
        }
    }

    /// The encoding of a value carries exactly this type's tag.
    pub proof fn lemma_wire_tag(v: InlineKeyboardButtonTypeSwitchInline)
        ensures
            v.wire_tree() matches Some(t) ==> tag_of(t) == Some(InlineKeyboardButtonTypeSwitchInline::tag_spec()),
    {
        if v.wire_tree() is Some {
            let t = v.wire_tree()->0;
            let ms = t->Obj_0;
            lemma_get_spec_found(ms, "@type"@, 0);
        }
    }
}

impl Clone for InlineKeyboardButtonTypeSwitchInline {
    fn clone(&self) -> (res: Self)
        ensures
            res.eqv(*self),
    {
        InlineKeyboardButtonTypeSwitchInline {
            extra: clone_opt_string(&self.extra),
            query: self.query.clone(),
            in_current_chat: self.in_current_chat,
        }
    }
}

impl Wire for InlineKeyboardButtonTypeSwitchInline {
    open spec fn wire_tree(self) -> Option<SpecJson> {
        Some(SpecJson::Obj(self.members_spec()))
    }

    open spec fn accepts(t: SpecJson) -> bool {
        tag_of(t) is Some && Self::fields_ok(t)
    }

    open spec fn err_of(t: SpecJson) -> SpecDecodeError {
        match tag_of(t) {
            None => SpecDecodeError::Malformed,
            Some(_) => SpecDecodeError::FieldShapeMismatch(Self::tag_spec(), Self::fail_field(t)),
        }
    }

    open spec fn decodes_from(t: SpecJson, v: Self) -> bool {
        &&& m_opt_str(t, "@extra"@, v.extra)
        &&& m_str(t, "query"@, v.query@)
        &&& m_bool(t, "in_current_chat"@, v.in_current_chat)
    }

    open spec fn eqv(self, other: Self) -> bool {
        &&& eqv_opt_string(self.extra, other.extra)
        &&& self.query@ == other.query@
        &&& self.in_current_chat == other.in_current_chat
    }

    fn clone_val(&self) -> (r: Self) {
        self.clone()
    }

    fn decode_tree(t: &JsonValue) -> (r: Result<Self, DecodeError>) {
        if get_tag(t).is_none() {
            return Err(DecodeError::Malformed);
        }
        let extra = match field_opt_string(t, "@extra") {
            Some(x) => x,
            None => {
                return Err(DecodeError::FieldShapeMismatch(
                    String::from_str("inlineKeyboardButtonTypeSwitchInline"),
                    String::from_str("@extra"),
                ));
            },
        };
        let query = match field_string(t, "query") {
            Some(x) => x,
            None => {
                return Err(DecodeError::FieldShapeMismatch(
                    String::from_str("inlineKeyboardButtonTypeSwitchInline"),
                    String::from_str("query"),
                ));
            },
        };
        let in_current_chat = match field_bool(t, "in_current_chat") {
            Some(x) => x,
            None => {
                return Err(DecodeError::FieldShapeMismatch(
                    String::from_str("inlineKeyboardButtonTypeSwitchInline"),
                    String::from_str("in_current_chat"),
                ));
            },
        };
        Ok(InlineKeyboardButtonTypeSwitchInline { extra, query, in_current_chat })
    }

    fn encode_tree(&self) -> (r: Result<JsonValue, EncodeError>) {
        let mut members: Vec<JsonMember> = Vec::new();
        proof {
            assert(view_members(members@) =~= Seq::<(Seq<char>, SpecJson)>::empty());
        }
        push_member(&mut members, "@type", JsonValue::Str(String::from_str("inlineKeyboardButtonTypeSwitchInline")));
        push_member(&mut members, "@extra", opt_string_tree(&self.extra));
        push_member(&mut members, "query", JsonValue::Str(self.query.clone()));
        push_member(&mut members, "in_current_chat", JsonValue::Bool(self.in_current_chat));
        let node = JsonValue::Obj(members);
        proof {
            assert(view_members(members@) =~= self.members_spec());
            assert(node@ == self.wire_tree()->0);
        }
        Ok(node)
    }

    proof fn lemma_wire_wf(v: Self) {
        if v.wire_tree() is Some {
            let t = v.wire_tree()->0;
            let ms = t->Obj_0;
            assert(ms == v.members_spec());
            assert forall|i: int| 0 <= i < ms.len() implies wf(#[trigger] ms[i].1) by {
            }
        }
    }

    proof fn lemma_round_trip(v: Self) {
        if v.wire_tree() is Some {
            let t = v.wire_tree()->0;
            let ms = t->Obj_0;
            assert(ms == v.members_spec());
            reveal_strlit("@type");
            reveal_strlit("@extra");
            reveal_strlit("query");
            reveal_strlit("in_current_chat");
            assert("@type"@.len() == 5);
            assert("@extra"@.len() == 6);
            assert("query"@.len() == 5);
            assert("in_current_chat"@.len() == 15);
            assert("@type"@[0] == '@' && "query"@[0] == 'q');
            reveal_with_fuel(get_spec, 6);
            lemma_get_spec_found(ms, "@type"@, 0);
            lemma_get_spec_found(ms, "@extra"@, 1);
            lemma_get_spec_found(ms, "query"@, 2);
            lemma_get_spec_found(ms, "in_current_chat"@, 3);
            assert(tag_of(t) == Some(Self::tag_spec()));
            assert(ok_opt_str(t, "@extra"@));
            assert(ok_str(t, "query"@));
            assert(ok_bool(t, "in_current_chat"@));
            assert(Self::accepts(t));
            assert forall|w: Self| Self::decodes_from(t, w) implies #[trigger] w.eqv(v) by {
            }
        }
    }
}

impl RObject for InlineKeyboardButtonTypeSwitchInline {
    open spec fn tag_chars(&self) -> Seq<char> {
        Self::tag_spec()
    }

    open spec fn extra_spec(&self) -> Option<Seq<char>> {
        opt_str_view(self.extra)
    }

    fn td_name(&self) -> (r: &'static str) {
        "inlineKeyboardButtonTypeSwitchInline"
    }

    fn extra(&self) -> (r: Option<String>) {
        clone_opt_string(&self.extra)
    }

    fn to_json(&self) -> (r: Result<String, EncodeError>) {
        crate::object::encode(self)
    }
}

impl TDInlineKeyboardButtonType for InlineKeyboardButtonTypeSwitchInline {

}

impl InlineKeyboardButtonTypeSwitchInline {
    pub fn from_json(json: &str) -> (r: Result<InlineKeyboardButtonTypeSwitchInline, DecodeError>)
        ensures
            match crate::parse::parse_doc(json@) {
                Some(t) => match r {
                    Ok(v) => Self::accepts(t) && Self::decodes_from(t, v),
                    Err(e) => !Self::accepts(t) && crate::errors::err_matches(e, Self::err_of(t)),
                },
                None => r matches Err(e) && e == DecodeError::Malformed,
            },
    {
        crate::object::from_json::<InlineKeyboardButtonTypeSwitchInline>(json)
    }

    pub fn builder() -> (r: RTDInlineKeyboardButtonTypeSwitchInlineBuilder)
        ensures
            r.inner.extra is Some,
            r.inner.query@ == Seq::<char>::empty(),
            r.inner.in_current_chat == false,
    {
        RTDInlineKeyboardButtonTypeSwitchInlineBuilder {
            inner: InlineKeyboardButtonTypeSwitchInline {
                extra: Some(new_token()),
                query: String::new(),
                in_current_chat: false,
            },
        }
    }

    pub fn query(&self) -> (r: &String)
        ensures
            *r == self.query,
    {
        &self.query
    }

    pub fn in_current_chat(&self) -> (r: bool)
        ensures
            r == self.in_current_chat,
    {
        self.in_current_chat
    }
}

pub struct RTDInlineKeyboardButtonTypeSwitchInlineBuilder {
    pub inner: InlineKeyboardButtonTypeSwitchInline,
}

impl RTDInlineKeyboardButtonTypeSwitchInlineBuilder {
    pub fn build(&self) -> (r: InlineKeyboardButtonTypeSwitchInline)
        ensures
            r.eqv(self.inner),
    {
        self.inner.clone()
    }

    pub fn query(&mut self, query: String) -> (r: &mut Self)
        ensures
            *r == (RTDInlineKeyboardButtonTypeSwitchInlineBuilder { inner: InlineKeyboardButtonTypeSwitchInline { query: query, ..old(self).inner } }),
            *final(self) == *final(r),
    {
        self.inner.query = query;
        self
    }

    pub fn in_current_chat(&mut self, in_current_chat: bool) -> (r: &mut Self)
        ensures
            *r == (RTDInlineKeyboardButtonTypeSwitchInlineBuilder { inner: InlineKeyboardButtonTypeSwitchInline { in_current_chat: in_current_chat, ..old(self).inner } }),
            *final(self) == *final(r),
    {
        self.inner.in_current_chat = in_current_chat;
        self
    }
}
/// A button that opens a specified URL
#[derive(Debug, PartialEq)]
pub struct InlineKeyboardButtonTypeUrl {
    pub extra: Option<String>,
    /// HTTP or tg:// URL to open
    pub url: String,
}

impl InlineKeyboardButtonTypeUrl {
    pub open spec fn tag_spec() -> Seq<char> {
        "inlineKeyboardButtonTypeUrl"@
    }

    /// The members of the wire object, in the order they are written.
    pub open spec fn members_spec(self) -> Seq<(Seq<char>, SpecJson)> {
        seq![
            ("@type"@, SpecJson::Str(Self::tag_spec())),
            ("@extra"@, opt_str_tree(opt_str_view(self.extra))),
            ("url"@, SpecJson::Str(self.url@)),
        ]
    }

    pub open spec fn fields_ok(t: SpecJson) -> bool {
        &&& ok_opt_str(t, "@extra"@)
        &&& ok_str(t, "url"@)
    }

    pub open spec fn fail_field(t: SpecJson) -> Seq<char> {
        if !ok_opt_str(t, "@extra"@) {
            "@extra"@
        } else if !(ok_str(t, "url"@)) {
            "url"@
        } else {
            Seq::empty()
        }
    }

    /// The encoding of a value carries exactly this type's tag.
    pub proof fn lemma_wire_tag(v: InlineKeyboardButtonTypeUrl)
        ensures
            v.wire_tree() matches Some(t) ==> tag_of(t) == Some(InlineKeyboardButtonTypeUrl::tag_spec()),
    {
        if v.wire_tree() is Some {
            let t = v.wire_tree()->0;
            let ms = t->Obj_0;
            lemma_get_spec_found(ms, "@type"@, 0);
        }
    }
}

impl Clone for InlineKeyboardButtonTypeUrl {
    fn clone(&self) -> (res: Self)
        ensures
            res.eqv(*self),
    {
        InlineKeyboardButtonTypeUrl {
            extra: clone_opt_string(&self.extra),
            url: self.url.clone(),
        }
    }
}

impl Wire for InlineKeyboardButtonTypeUrl {
    open spec fn wire_tree(self) -> Option<SpecJson> {
        Some(SpecJson::Obj(self.members_spec()))
    }

    open spec fn accepts(t: SpecJson) -> bool {
        tag_of(t) is Some && Self::fields_ok(t)
    }

    open spec fn err_of(t: SpecJson) -> SpecDecodeError {
        match tag_of(t) {
            None => SpecDecodeError::Malformed,
            Some(_) => SpecDecodeError::FieldShapeMismatch(Self::tag_spec(), Self::fail_field(t)),
        }
    }

    open spec fn decodes_from(t: SpecJson, v: Self) -> bool {
        &&& m_opt_str(t, "@extra"@, v.extra)
        &&& m_str(t, "url"@, v.url@)
    }

    open spec fn eqv(self, other: Self) -> bool {
        &&& eqv_opt_string(self.extra, other.extra)
        &&& self.url@ == other.url@
    }

    fn clone_val(&self) -> (r: Self) {
        self.clone()
    }

    fn decode_tree(t: &JsonValue) -> (r: Result<Self, DecodeError>) {
        if get_tag(t).is_none() {
            return Err(DecodeError::Malformed);
        }
        let extra = match field_opt_string(t, "@extra") {
            Some(x) => x,
            None => {
                return Err(DecodeError::FieldShapeMismatch(
                    String::from_str("inlineKeyboardButtonTypeUrl"),
                    String::from_str("@extra"),
                ));
            },
        };
        let url = match field_string(t, "url") {
            Some(x) => x,
            None => {
                return Err(DecodeError::FieldShapeMismatch(
                    String::from_str("inlineKeyboardButtonTypeUrl"),
                    String::from_str("url"),
                ));
            },
        };
        Ok(InlineKeyboardButtonTypeUrl { extra, url })
    }

    fn encode_tree(&self) -> (r: Result<JsonValue, EncodeError>) {
        let mut members: Vec<JsonMember> = Vec::new();
        proof {
            assert(view_members(members@) =~= Seq::<(Seq<char>, SpecJson)>::empty());
        }
        push_member(&mut members, "@type", JsonValue::Str(String::from_str("inlineKeyboardButtonTypeUrl")));
        push_member(&mut members, "@extra", opt_string_tree(&self.extra));
        push_member(&mut members, "url", JsonValue::Str(self.url.clone()));
        let node = JsonValue::Obj(members);
        proof {
            assert(view_members(members@) =~= self.members_spec());
            assert(node@ == self.wire_tree()->0);
        }
        Ok(node)
    }

    proof fn lemma_wire_wf(v: Self) {
        if v.wire_tree() is Some {
            let t = v.wire_tree()->0;
            let ms = t->Obj_0;
            assert(ms == v.members_spec());
            assert forall|i: int| 0 <= i < ms.len() implies wf(#[trigger] ms[i].1) by {
            }
        }
    }

    proof fn lemma_round_trip(v: Self) {
        if v.wire_tree() is Some {
            let t = v.wire_tree()->0;
            let ms = t->Obj_0;
            assert(ms == v.members_spec());
            reveal_strlit("@type");
            reveal_strlit("@extra");
            reveal_strlit("url");
            assert("@type"@.len() == 5);
            assert("@extra"@.len() == 6);
            assert("url"@.len() == 3);
            reveal_with_fuel(get_spec, 5);
            lemma_get_spec_found(ms, "@type"@, 0);
            lemma_get_spec_found(ms, "@extra"@, 1);
            lemma_get_spec_found(ms, "url"@, 2);
            assert(tag_of(t) == Some(Self::tag_spec()));
            assert(ok_opt_str(t, "@extra"@));
            assert(ok_str(t, "url"@));
            assert(Self::accepts(t));
            assert forall|w: Self| Self::decodes_from(t, w) implies #[trigger] w.eqv(v) by {
            }
        }
    }
}

impl RObject for InlineKeyboardButtonTypeUrl {
    open spec fn tag_chars(&self) -> Seq<char> {
        Self::tag_spec()
    }

    open spec fn extra_spec(&self) -> Option<Seq<char>> {
        opt_str_view(self.extra)
    }

    fn td_name(&self) -> (r: &'static str) {
        "inlineKeyboardButtonTypeUrl"
    }

    fn extra(&self) -> (r: Option<String>) {
        clone_opt_string(&self.extra)
    }

    fn to_json(&self) -> (r: Result<String, EncodeError>) {
        crate::object::encode(self)
    }
}

impl TDInlineKeyboardButtonType for InlineKeyboardButtonTypeUrl {

}

impl InlineKeyboardButtonTypeUrl {
    pub fn from_json(json: &str) -> (r: Result<InlineKeyboardButtonTypeUrl, DecodeError>)
        ensures
            match crate::parse::parse_doc(json@) {
                Some(t) => match r {
                    Ok(v) => Self::accepts(t) && Self::decodes_from(t, v),
                    Err(e) => !Self::accepts(t) && crate::errors::err_matches(e, Self::err_of(t)),
                },
                None => r matches Err(e) && e == DecodeError::Malformed,
            },
    {
        crate::object::from_json::<InlineKeyboardButtonTypeUrl>(json)
    }

    pub fn builder() -> (r: RTDInlineKeyboardButtonTypeUrlBuilder)
        ensures
            r.inner.extra is Some,
            r.inner.url@ == Seq::<char>::empty(),
    {
        RTDInlineKeyboardButtonTypeUrlBuilder {
            inner: InlineKeyboardButtonTypeUrl {
                extra: Some(new_token()),
                url: String::new(),
            },
        }
    }

    pub fn url(&self) -> (r: &String)
        ensures
            *r == self.url,
    {
        &self.url
    }
}

pub struct RTDInlineKeyboardButtonTypeUrlBuilder {
    pub inner: InlineKeyboardButtonTypeUrl,
}

impl RTDInlineKeyboardButtonTypeUrlBuilder {
    pub fn build(&self) -> (r: InlineKeyboardButtonTypeUrl)
        ensures
            r.eqv(self.inner),
    {
        self.inner.clone()
    }

    pub fn url(&mut self, url: String) -> (r: &mut Self)
        ensures
            *r == (RTDInlineKeyboardButtonTypeUrlBuilder { inner: InlineKeyboardButtonTypeUrl { url: url, ..old(self).inner } }),
            *final(self) == *final(r),
    {
        self.inner.url = url;
        self
    }
}
} // verus!
