use vstd::prelude::*;

use crate::errors::DecodeError;
use crate::errors::EncodeError;
use crate::errors::SpecDecodeError;
use crate::json::JsonMember;
use crate::json::JsonValue;
use crate::json::SpecJson;
use crate::json::view_members;
use crate::json::wf;
use crate::object::RObject;
use crate::object::Wire;
use crate::object::clone_opt_string;
use crate::object::eqv_opt_string;
use crate::object::field_bool;
use crate::object::field_opt_string;
use crate::object::field_string;
use crate::object::get_spec;
use crate::object::get_tag;
use crate::object::lemma_get_spec_found;
use crate::object::m_bool;
use crate::object::m_opt_str;
use crate::object::m_str;
use crate::object::new_token;
use crate::object::ok_bool;
use crate::object::ok_opt_str;
use crate::object::ok_str;
use crate::object::opt_str_tree;
use crate::object::opt_str_view;
use crate::object::opt_string_tree;
use crate::object::push_member;
use crate::object::str_eq;
use crate::object::tag_of;

verus! {

/// Represents the current authorization state of the TDLib client
pub trait TDAuthorizationState: RObject {

}

/// Represents the current authorization state of the TDLib client
#[derive(Debug, PartialEq)]
pub enum AuthorizationState {
    _Default(()),
    /// TDLib client is in its final state. All databases are closed and all resources are released. No other updates will be received after this. All queries will be responded to with error code 500. To continue working, one must create a new instance of the TDLib client
    Closed(AuthorizationStateClosed),
    /// TDLib is closing, all subsequent queries will be answered with the error 500. Note that closing TDLib can take a while. All resources will be freed only after authorizationStateClosed has been received
    Closing(AuthorizationStateClosing),
    /// The user is currently logging out
    LoggingOut(AuthorizationStateLoggingOut),
    /// The user has been successfully authorized. TDLib is now ready to answer queries
    Ready(AuthorizationStateReady),
    /// TDLib needs the user's authentication code to authorize
    WaitCode(AuthorizationStateWaitCode),
    /// TDLib needs an encryption key to decrypt the local database
    WaitEncryptionKey(AuthorizationStateWaitEncryptionKey),
    /// The user needs to confirm authorization on another logged in device by scanning a QR code with the provided link
    WaitOtherDeviceConfirmation(AuthorizationStateWaitOtherDeviceConfirmation),
    /// The user has been authorized, but needs to enter a password to start using the application
    WaitPassword(AuthorizationStateWaitPassword),
    /// TDLib needs the user's phone number to authorize. Call `setAuthenticationPhoneNumber` to provide the phone number, or use `requestQrCodeAuthentication`, or `checkAuthenticationBotToken` for other authentication options
    WaitPhoneNumber(AuthorizationStateWaitPhoneNumber),
    /// The user is unregistered and need to accept terms of service and enter their first name and last name to finish registration
    WaitRegistration(AuthorizationStateWaitRegistration),
    /// TDLib needs TdlibParameters for initialization
    WaitTdlibParameters(AuthorizationStateWaitTdlibParameters),
}

impl Clone for AuthorizationState {
    fn clone(&self) -> (res: Self)
        ensures
            res.eqv(*self),
    {
        match self {
            AuthorizationState::_Default(_) => AuthorizationState::_Default(()),
            AuthorizationState::Closed(x) => AuthorizationState::Closed(x.clone()),
            AuthorizationState::Closing(x) => AuthorizationState::Closing(x.clone()),
            AuthorizationState::LoggingOut(x) => AuthorizationState::LoggingOut(x.clone()),
            AuthorizationState::Ready(x) => AuthorizationState::Ready(x.clone()),
            AuthorizationState::WaitCode(x) => AuthorizationState::WaitCode(x.clone()),
            AuthorizationState::WaitEncryptionKey(x) => AuthorizationState::WaitEncryptionKey(x.clone()),
            AuthorizationState::WaitOtherDeviceConfirmation(x) => AuthorizationState::WaitOtherDeviceConfirmation(x.clone()),
            AuthorizationState::WaitPassword(x) => AuthorizationState::WaitPassword(x.clone()),
            AuthorizationState::WaitPhoneNumber(x) => AuthorizationState::WaitPhoneNumber(x.clone()),
            AuthorizationState::WaitRegistration(x) => AuthorizationState::WaitRegistration(x.clone()),
            AuthorizationState::WaitTdlibParameters(x) => AuthorizationState::WaitTdlibParameters(x.clone()),
        }
    }
}

impl AuthorizationState {
    /// The tags of this variant's alternatives are pairwise distinct.
    pub proof fn lemma_tags_distinct()
        ensures
            "authorizationStateClosed"@ != "authorizationStateClosing"@,
            "authorizationStateClosed"@ != "authorizationStateLoggingOut"@,
            "authorizationStateClosed"@ != "authorizationStateReady"@,
            "authorizationStateClosed"@ != "authorizationStateWaitCode"@,
            "authorizationStateClosed"@ != "authorizationStateWaitEncryptionKey"@,
            "authorizationStateClosed"@ != "authorizationStateWaitOtherDeviceConfirmation"@,
            "authorizationStateClosed"@ != "authorizationStateWaitPassword"@,
            "authorizationStateClosed"@ != "authorizationStateWaitPhoneNumber"@,
            "authorizationStateClosed"@ != "authorizationStateWaitRegistration"@,
            "authorizationStateClosed"@ != "authorizationStateWaitTdlibParameters"@,
            "authorizationStateClosing"@ != "authorizationStateLoggingOut"@,
            "authorizationStateClosing"@ != "authorizationStateReady"@,
            "authorizationStateClosing"@ != "authorizationStateWaitCode"@,
            "authorizationStateClosing"@ != "authorizationStateWaitEncryptionKey"@,
            "authorizationStateClosing"@ != "authorizationStateWaitOtherDeviceConfirmation"@,
            "authorizationStateClosing"@ != "authorizationStateWaitPassword"@,
            "authorizationStateClosing"@ != "authorizationStateWaitPhoneNumber"@,
            "authorizationStateClosing"@ != "authorizationStateWaitRegistration"@,
            "authorizationStateClosing"@ != "authorizationStateWaitTdlibParameters"@,
            "authorizationStateLoggingOut"@ != "authorizationStateReady"@,
            "authorizationStateLoggingOut"@ != "authorizationStateWaitCode"@,
            "authorizationStateLoggingOut"@ != "authorizationStateWaitEncryptionKey"@,
            "authorizationStateLoggingOut"@ != "authorizationStateWaitOtherDeviceConfirmation"@,
            "authorizationStateLoggingOut"@ != "authorizationStateWaitPassword"@,
            "authorizationStateLoggingOut"@ != "authorizationStateWaitPhoneNumber"@,
            "authorizationStateLoggingOut"@ != "authorizationStateWaitRegistration"@,
            "authorizationStateLoggingOut"@ != "authorizationStateWaitTdlibParameters"@,
            "authorizationStateReady"@ != "authorizationStateWaitCode"@,
            "authorizationStateReady"@ != "authorizationStateWaitEncryptionKey"@,
            "authorizationStateReady"@ != "authorizationStateWaitOtherDeviceConfirmation"@,
            "authorizationStateReady"@ != "authorizationStateWaitPassword"@,
            "authorizationStateReady"@ != "authorizationStateWaitPhoneNumber"@,
            "authorizationStateReady"@ != "authorizationStateWaitRegistration"@,
            "authorizationStateReady"@ != "authorizationStateWaitTdlibParameters"@,
            "authorizationStateWaitCode"@ != "authorizationStateWaitEncryptionKey"@,
            "authorizationStateWaitCode"@ != "authorizationStateWaitOtherDeviceConfirmation"@,
            "authorizationStateWaitCode"@ != "authorizationStateWaitPassword"@,
            "authorizationStateWaitCode"@ != "authorizationStateWaitPhoneNumber"@,
            "authorizationStateWaitCode"@ != "authorizationStateWaitRegistration"@,
            "authorizationStateWaitCode"@ != "authorizationStateWaitTdlibParameters"@,
            "authorizationStateWaitEncryptionKey"@ != "authorizationStateWaitOtherDeviceConfirmation"@,
            "authorizationStateWaitEncryptionKey"@ != "authorizationStateWaitPassword"@,
            "authorizationStateWaitEncryptionKey"@ != "authorizationStateWaitPhoneNumber"@,
            "authorizationStateWaitEncryptionKey"@ != "authorizationStateWaitRegistration"@,
            "authorizationStateWaitEncryptionKey"@ != "authorizationStateWaitTdlibParameters"@,
            "authorizationStateWaitOtherDeviceConfirmation"@ != "authorizationStateWaitPassword"@,
            "authorizationStateWaitOtherDeviceConfirmation"@ != "authorizationStateWaitPhoneNumber"@,
            "authorizationStateWaitOtherDeviceConfirmation"@ != "authorizationStateWaitRegistration"@,
            "authorizationStateWaitOtherDeviceConfirmation"@ != "authorizationStateWaitTdlibParameters"@,
            "authorizationStateWaitPassword"@ != "authorizationStateWaitPhoneNumber"@,
            "authorizationStateWaitPassword"@ != "authorizationStateWaitRegistration"@,
            "authorizationStateWaitPassword"@ != "authorizationStateWaitTdlibParameters"@,
            "authorizationStateWaitPhoneNumber"@ != "authorizationStateWaitRegistration"@,
            "authorizationStateWaitPhoneNumber"@ != "authorizationStateWaitTdlibParameters"@,
            "authorizationStateWaitRegistration"@ != "authorizationStateWaitTdlibParameters"@,
    {
        reveal_strlit("authorizationStateClosed");
        reveal_strlit("authorizationStateClosing");
        reveal_strlit("authorizationStateLoggingOut");
        reveal_strlit("authorizationStateReady");
        reveal_strlit("authorizationStateWaitCode");
        reveal_strlit("authorizationStateWaitEncryptionKey");
        reveal_strlit("authorizationStateWaitOtherDeviceConfirmation");
        reveal_strlit("authorizationStateWaitPassword");
        reveal_strlit("authorizationStateWaitPhoneNumber");
        reveal_strlit("authorizationStateWaitRegistration");
        reveal_strlit("authorizationStateWaitTdlibParameters");
        assert("authorizationStateClosed"@.len() == 24);
        assert("authorizationStateClosing"@.len() == 25);
        assert("authorizationStateLoggingOut"@.len() == 28);
        assert("authorizationStateReady"@.len() == 23);
        assert("authorizationStateWaitCode"@.len() == 26);
        assert("authorizationStateWaitEncryptionKey"@.len() == 35);
        assert("authorizationStateWaitOtherDeviceConfirmation"@.len() == 45);
        assert("authorizationStateWaitPassword"@.len() == 30);
        assert("authorizationStateWaitPhoneNumber"@.len() == 33);
        assert("authorizationStateWaitRegistration"@.len() == 34);
        assert("authorizationStateWaitTdlibParameters"@.len() == 37);
    }
}

impl Wire for AuthorizationState {
    open spec fn wire_tree(self) -> Option<SpecJson> {
        match self {
            AuthorizationState::_Default(_) => None,
            AuthorizationState::Closed(x) => x.wire_tree(),
            AuthorizationState::Closing(x) => x.wire_tree(),
            AuthorizationState::LoggingOut(x) => x.wire_tree(),
            AuthorizationState::Ready(x) => x.wire_tree(),
            AuthorizationState::WaitCode(x) => x.wire_tree(),
            AuthorizationState::WaitEncryptionKey(x) => x.wire_tree(),
            AuthorizationState::WaitOtherDeviceConfirmation(x) => x.wire_tree(),
            AuthorizationState::WaitPassword(x) => x.wire_tree(),
            AuthorizationState::WaitPhoneNumber(x) => x.wire_tree(),
            AuthorizationState::WaitRegistration(x) => x.wire_tree(),
            AuthorizationState::WaitTdlibParameters(x) => x.wire_tree(),
        }
    }

    open spec fn accepts(t: SpecJson) -> bool {
        match tag_of(t) {
            None => false,
            Some(g) => {
                if g == AuthorizationStateClosed::tag_spec() {
                    AuthorizationStateClosed::accepts(t)
                } else if g == AuthorizationStateClosing::tag_spec() {
                    AuthorizationStateClosing::accepts(t)
                } else if g == AuthorizationStateLoggingOut::tag_spec() {
                    AuthorizationStateLoggingOut::accepts(t)
                } else if g == AuthorizationStateReady::tag_spec() {
                    AuthorizationStateReady::accepts(t)
                } else if g == AuthorizationStateWaitCode::tag_spec() {
                    AuthorizationStateWaitCode::accepts(t)
                } else if g == AuthorizationStateWaitEncryptionKey::tag_spec() {
                    AuthorizationStateWaitEncryptionKey::accepts(t)
                } else if g == AuthorizationStateWaitOtherDeviceConfirmation::tag_spec() {
                    AuthorizationStateWaitOtherDeviceConfirmation::accepts(t)
                } else if g == AuthorizationStateWaitPassword::tag_spec() {
                    AuthorizationStateWaitPassword::accepts(t)
                } else if g == AuthorizationStateWaitPhoneNumber::tag_spec() {
                    AuthorizationStateWaitPhoneNumber::accepts(t)
                } else if g == AuthorizationStateWaitRegistration::tag_spec() {
                    AuthorizationStateWaitRegistration::accepts(t)
                } else if g == AuthorizationStateWaitTdlibParameters::tag_spec() {
                    AuthorizationStateWaitTdlibParameters::accepts(t)
                } else {
                    false
                }
            },
        }
    }

    open spec fn err_of(t: SpecJson) -> SpecDecodeError {
        match tag_of(t) {
            None => SpecDecodeError::Malformed,
            Some(g) => {
                if g == AuthorizationStateClosed::tag_spec() {
                    AuthorizationStateClosed::err_of(t)
                } else if g == AuthorizationStateClosing::tag_spec() {
                    AuthorizationStateClosing::err_of(t)
                } else if g == AuthorizationStateLoggingOut::tag_spec() {
                    AuthorizationStateLoggingOut::err_of(t)
                } else if g == AuthorizationStateReady::tag_spec() {
                    AuthorizationStateReady::err_of(t)
                } else if g == AuthorizationStateWaitCode::tag_spec() {
                    AuthorizationStateWaitCode::err_of(t)
                } else if g == AuthorizationStateWaitEncryptionKey::tag_spec() {
                    AuthorizationStateWaitEncryptionKey::err_of(t)
                } else if g == AuthorizationStateWaitOtherDeviceConfirmation::tag_spec() {
                    AuthorizationStateWaitOtherDeviceConfirmation::err_of(t)
                } else if g == AuthorizationStateWaitPassword::tag_spec() {
                    AuthorizationStateWaitPassword::err_of(t)
                } else if g == AuthorizationStateWaitPhoneNumber::tag_spec() {
                    AuthorizationStateWaitPhoneNumber::err_of(t)
                } else if g == AuthorizationStateWaitRegistration::tag_spec() {
                    AuthorizationStateWaitRegistration::err_of(t)
                } else if g == AuthorizationStateWaitTdlibParameters::tag_spec() {
                    AuthorizationStateWaitTdlibParameters::err_of(t)
                } else {
                    SpecDecodeError::UnrecognizedVariant(g)
                }
            },
        }
    }

    open spec fn decodes_from(t: SpecJson, v: Self) -> bool {
        match tag_of(t) {
            None => false,
            Some(g) => {
                if g == AuthorizationStateClosed::tag_spec() {
                    v matches AuthorizationState::Closed(x) && AuthorizationStateClosed::decodes_from(t, x)
                } else if g == AuthorizationStateClosing::tag_spec() {
                    v matches AuthorizationState::Closing(x) && AuthorizationStateClosing::decodes_from(t, x)
                } else if g == AuthorizationStateLoggingOut::tag_spec() {
                    v matches AuthorizationState::LoggingOut(x) && AuthorizationStateLoggingOut::decodes_from(t, x)
                } else if g == AuthorizationStateReady::tag_spec() {
                    v matches AuthorizationState::Ready(x) && AuthorizationStateReady::decodes_from(t, x)
                } else if g == AuthorizationStateWaitCode::tag_spec() {
                    v matches AuthorizationState::WaitCode(x) && AuthorizationStateWaitCode::decodes_from(t, x)
                } else if g == AuthorizationStateWaitEncryptionKey::tag_spec() {
                    v matches AuthorizationState::WaitEncryptionKey(x) && AuthorizationStateWaitEncryptionKey::decodes_from(t, x)
                } else if g == AuthorizationStateWaitOtherDeviceConfirmation::tag_spec() {
                    v matches AuthorizationState::WaitOtherDeviceConfirmation(x) && AuthorizationStateWaitOtherDeviceConfirmation::decodes_from(t, x)
                } else if g == AuthorizationStateWaitPassword::tag_spec() {
                    v matches AuthorizationState::WaitPassword(x) && AuthorizationStateWaitPassword::decodes_from(t, x)
                } else if g == AuthorizationStateWaitPhoneNumber::tag_spec() {
                    v matches AuthorizationState::WaitPhoneNumber(x) && AuthorizationStateWaitPhoneNumber::decodes_from(t, x)
                } else if g == AuthorizationStateWaitRegistration::tag_spec() {
                    v matches AuthorizationState::WaitRegistration(x) && AuthorizationStateWaitRegistration::decodes_from(t, x)
                } else if g == AuthorizationStateWaitTdlibParameters::tag_spec() {
                    v matches AuthorizationState::WaitTdlibParameters(x) && AuthorizationStateWaitTdlibParameters::decodes_from(t, x)
                } else {
                    false
                }
            },
        }
    }

    open spec fn eqv(self, other: Self) -> bool {
        match (self, other) {
            (AuthorizationState::_Default(_), AuthorizationState::_Default(_)) => true,
            (AuthorizationState::Closed(a), AuthorizationState::Closed(b)) => a.eqv(b),
            (AuthorizationState::Closing(a), AuthorizationState::Closing(b)) => a.eqv(b),
            (AuthorizationState::LoggingOut(a), AuthorizationState::LoggingOut(b)) => a.eqv(b),
            (AuthorizationState::Ready(a), AuthorizationState::Ready(b)) => a.eqv(b),
            (AuthorizationState::WaitCode(a), AuthorizationState::WaitCode(b)) => a.eqv(b),
            (AuthorizationState::WaitEncryptionKey(a), AuthorizationState::WaitEncryptionKey(b)) => a.eqv(b),
            (AuthorizationState::WaitOtherDeviceConfirmation(a), AuthorizationState::WaitOtherDeviceConfirmation(b)) => a.eqv(b),
            (AuthorizationState::WaitPassword(a), AuthorizationState::WaitPassword(b)) => a.eqv(b),
            (AuthorizationState::WaitPhoneNumber(a), AuthorizationState::WaitPhoneNumber(b)) => a.eqv(b),
            (AuthorizationState::WaitRegistration(a), AuthorizationState::WaitRegistration(b)) => a.eqv(b),
            (AuthorizationState::WaitTdlibParameters(a), AuthorizationState::WaitTdlibParameters(b)) => a.eqv(b),
            _ => false,
        }
    }

    fn clone_val(&self) -> (r: Self) {
        self.clone()
    }

    fn decode_tree(t: &JsonValue) -> (r: Result<Self, DecodeError>) {
        let g = match get_tag(t) {
            Some(g) => g,
            None => {
                return Err(DecodeError::Malformed);
            },
        };
        if str_eq(g.as_str(), "authorizationStateClosed") {
            match AuthorizationStateClosed::decode_tree(t) {
                Ok(x) => Ok(AuthorizationState::Closed(x)),
                Err(e) => Err(e),
            }
        } else if str_eq(g.as_str(), "authorizationStateClosing") {
            match AuthorizationStateClosing::decode_tree(t) {
                Ok(x) => Ok(AuthorizationState::Closing(x)),
                Err(e) => Err(e),
            }
        } else if str_eq(g.as_str(), "authorizationStateLoggingOut") {
            match AuthorizationStateLoggingOut::decode_tree(t) {
                Ok(x) => Ok(AuthorizationState::LoggingOut(x)),
                Err(e) => Err(e),
            }
        } else if str_eq(g.as_str(), "authorizationStateReady") {
            match AuthorizationStateReady::decode_tree(t) {
                Ok(x) => Ok(AuthorizationState::Ready(x)),
                Err(e) => Err(e),
            }
        } else if str_eq(g.as_str(), "authorizationStateWaitCode") {
            match AuthorizationStateWaitCode::decode_tree(t) {
                Ok(x) => Ok(AuthorizationState::WaitCode(x)),
                Err(e) => Err(e),
            }
        } else if str_eq(g.as_str(), "authorizationStateWaitEncryptionKey") {
            match AuthorizationStateWaitEncryptionKey::decode_tree(t) {
                Ok(x) => Ok(AuthorizationState::WaitEncryptionKey(x)),
                Err(e) => Err(e),
            }
        } else if str_eq(g.as_str(), "authorizationStateWaitOtherDeviceConfirmation") {
            match AuthorizationStateWaitOtherDeviceConfirmation::decode_tree(t) {
                Ok(x) => Ok(AuthorizationState::WaitOtherDeviceConfirmation(x)),
                Err(e) => Err(e),
            }
        } else if str_eq(g.as_str(), "authorizationStateWaitPassword") {
            match AuthorizationStateWaitPassword::decode_tree(t) {
                Ok(x) => Ok(AuthorizationState::WaitPassword(x)),
                Err(e) => Err(e),
            }
        } else if str_eq(g.as_str(), "authorizationStateWaitPhoneNumber") {
            match AuthorizationStateWaitPhoneNumber::decode_tree(t) {
                Ok(x) => Ok(AuthorizationState::WaitPhoneNumber(x)),
                Err(e) => Err(e),
            }
        } else if str_eq(g.as_str(), "authorizationStateWaitRegistration") {
            match AuthorizationStateWaitRegistration::decode_tree(t) {
                Ok(x) => Ok(AuthorizationState::WaitRegistration(x)),
                Err(e) => Err(e),
            }
        } else if str_eq(g.as_str(), "authorizationStateWaitTdlibParameters") {
            match AuthorizationStateWaitTdlibParameters::decode_tree(t) {
                Ok(x) => Ok(AuthorizationState::WaitTdlibParameters(x)),
                Err(e) => Err(e),
            }
        } else {
            Err(DecodeError::UnrecognizedVariant(g))
        }
    }

    fn encode_tree(&self) -> (r: Result<JsonValue, EncodeError>) {
        match self {
            AuthorizationState::_Default(_) => Err(EncodeError::Unrepresentable),
            AuthorizationState::Closed(x) => x.encode_tree(),
            AuthorizationState::Closing(x) => x.encode_tree(),
            AuthorizationState::LoggingOut(x) => x.encode_tree(),
            AuthorizationState::Ready(x) => x.encode_tree(),
            AuthorizationState::WaitCode(x) => x.encode_tree(),
            AuthorizationState::WaitEncryptionKey(x) => x.encode_tree(),
            AuthorizationState::WaitOtherDeviceConfirmation(x) => x.encode_tree(),
            AuthorizationState::WaitPassword(x) => x.encode_tree(),
            AuthorizationState::WaitPhoneNumber(x) => x.encode_tree(),
            AuthorizationState::WaitRegistration(x) => x.encode_tree(),
            AuthorizationState::WaitTdlibParameters(x) => x.encode_tree(),
        }
    }

    proof fn lemma_wire_wf(v: Self) {
        match v {
            AuthorizationState::_Default(_) => {},
            AuthorizationState::Closed(x) => {
                AuthorizationStateClosed::lemma_wire_wf(x);
            },
            AuthorizationState::Closing(x) => {
                AuthorizationStateClosing::lemma_wire_wf(x);
            },
            AuthorizationState::LoggingOut(x) => {
                AuthorizationStateLoggingOut::lemma_wire_wf(x);
            },
            AuthorizationState::Ready(x) => {
                AuthorizationStateReady::lemma_wire_wf(x);
            },
            AuthorizationState::WaitCode(x) => {
                AuthorizationStateWaitCode::lemma_wire_wf(x);
            },
            AuthorizationState::WaitEncryptionKey(x) => {
                AuthorizationStateWaitEncryptionKey::lemma_wire_wf(x);
            },
            AuthorizationState::WaitOtherDeviceConfirmation(x) => {
                AuthorizationStateWaitOtherDeviceConfirmation::lemma_wire_wf(x);
            },
            AuthorizationState::WaitPassword(x) => {
                AuthorizationStateWaitPassword::lemma_wire_wf(x);
            },
            AuthorizationState::WaitPhoneNumber(x) => {
                AuthorizationStateWaitPhoneNumber::lemma_wire_wf(x);
            },
            AuthorizationState::WaitRegistration(x) => {
                AuthorizationStateWaitRegistration::lemma_wire_wf(x);
            },
            AuthorizationState::WaitTdlibParameters(x) => {
                AuthorizationStateWaitTdlibParameters::lemma_wire_wf(x);
            },
        }
    }

    proof fn lemma_round_trip(v: Self) {
        Self::lemma_tags_distinct();
        match v {
            AuthorizationState::_Default(_) => {},
            AuthorizationState::Closed(x) => {
                if x.wire_tree() is Some {
                    let t = x.wire_tree()->0;
                    AuthorizationStateClosed::lemma_wire_tag(x);
                    AuthorizationStateClosed::lemma_round_trip(x);
                    assert(Self::accepts(t));
                    assert forall|w: Self| Self::decodes_from(t, w) implies #[trigger] w.eqv(v) by {
                        assert(w matches AuthorizationState::Closed(xi) && AuthorizationStateClosed::decodes_from(t, xi));
                    }
                }
            },
            AuthorizationState::Closing(x) => {
                if x.wire_tree() is Some {
                    let t = x.wire_tree()->0;
                    AuthorizationStateClosing::lemma_wire_tag(x);
                    AuthorizationStateClosing::lemma_round_trip(x);
                    assert(Self::accepts(t));
                    assert forall|w: Self| Self::decodes_from(t, w) implies #[trigger] w.eqv(v) by {
                        assert(w matches AuthorizationState::Closing(xi) && AuthorizationStateClosing::decodes_from(t, xi));
                    }
                }
            },
            AuthorizationState::LoggingOut(x) => {
                if x.wire_tree() is Some {
                    let t = x.wire_tree()->0;
                    AuthorizationStateLoggingOut::lemma_wire_tag(x);
                    AuthorizationStateLoggingOut::lemma_round_trip(x);
                    assert(Self::accepts(t));
                    assert forall|w: Self| Self::decodes_from(t, w) implies #[trigger] w.eqv(v) by {
                        assert(w matches AuthorizationState::LoggingOut(xi) && AuthorizationStateLoggingOut::decodes_from(t, xi));
                    }
                }
            },
            AuthorizationState::Ready(x) => {
                if x.wire_tree() is Some {
                    let t = x.wire_tree()->0;
                    AuthorizationStateReady::lemma_wire_tag(x);
                    AuthorizationStateReady::lemma_round_trip(x);
                    assert(Self::accepts(t));
                    assert forall|w: Self| Self::decodes_from(t, w) implies #[trigger] w.eqv(v) by {
                        assert(w matches AuthorizationState::Ready(xi) && AuthorizationStateReady::decodes_from(t, xi));
                    }
                }
            },
            AuthorizationState::WaitCode(x) => {
                if x.wire_tree() is Some {
                    let t = x.wire_tree()->0;
                    AuthorizationStateWaitCode::lemma_wire_tag(x);
                    AuthorizationStateWaitCode::lemma_round_trip(x);
                    assert(Self::accepts(t));
                    assert forall|w: Self| Self::decodes_from(t, w) implies #[trigger] w.eqv(v) by {
                        assert(w matches AuthorizationState::WaitCode(xi) && AuthorizationStateWaitCode::decodes_from(t, xi));
                    }
                }
            },
            AuthorizationState::WaitEncryptionKey(x) => {
                if x.wire_tree() is Some {
                    let t = x.wire_tree()->0;
                    AuthorizationStateWaitEncryptionKey::lemma_wire_tag(x);
                    AuthorizationStateWaitEncryptionKey::lemma_round_trip(x);
                    assert(Self::accepts(t));
                    assert forall|w: Self| Self::decodes_from(t, w) implies #[trigger] w.eqv(v) by {
                        assert(w matches AuthorizationState::WaitEncryptionKey(xi) && AuthorizationStateWaitEncryptionKey::decodes_from(t, xi));
                    }
                }
            },
            AuthorizationState::WaitOtherDeviceConfirmation(x) => {
                if x.wire_tree() is Some {
                    let t = x.wire_tree()->0;
                    AuthorizationStateWaitOtherDeviceConfirmation::lemma_wire_tag(x);
                    AuthorizationStateWaitOtherDeviceConfirmation::lemma_round_trip(x);
                    assert(Self::accepts(t));
                    assert forall|w: Self| Self::decodes_from(t, w) implies #[trigger] w.eqv(v) by {
                        assert(w matches AuthorizationState::WaitOtherDeviceConfirmation(xi) && AuthorizationStateWaitOtherDeviceConfirmation::decodes_from(t, xi));
                    }
                }
            },
            AuthorizationState::WaitPassword(x) => {
                if x.wire_tree() is Some {
                    let t = x.wire_tree()->0;
                    AuthorizationStateWaitPassword::lemma_wire_tag(x);
                    AuthorizationStateWaitPassword::lemma_round_trip(x);
                    assert(Self::accepts(t));
                    assert forall|w: Self| Self::decodes_from(t, w) implies #[trigger] w.eqv(v) by {
                        assert(w matches AuthorizationState::WaitPassword(xi) && AuthorizationStateWaitPassword::decodes_from(t, xi));
                    }
                }
            },
            AuthorizationState::WaitPhoneNumber(x) => {
                if x.wire_tree() is Some {
                    let t = x.wire_tree()->0;
                    AuthorizationStateWaitPhoneNumber::lemma_wire_tag(x);
                    AuthorizationStateWaitPhoneNumber::lemma_round_trip(x);
                    assert(Self::accepts(t));
                    assert forall|w: Self| Self::decodes_from(t, w) implies #[trigger] w.eqv(v) by {
                        assert(w matches AuthorizationState::WaitPhoneNumber(xi) && AuthorizationStateWaitPhoneNumber::decodes_from(t, xi));
                    }
                }
            },
            AuthorizationState::WaitRegistration(x) => {
                if x.wire_tree() is Some {
                    let t = x.wire_tree()->0;
                    AuthorizationStateWaitRegistration::lemma_wire_tag(x);
                    AuthorizationStateWaitRegistration::lemma_round_trip(x);
                    assert(Self::accepts(t));
                    assert forall|w: Self| Self::decodes_from(t, w) implies #[trigger] w.eqv(v) by {
                        assert(w matches AuthorizationState::WaitRegistration(xi) && AuthorizationStateWaitRegistration::decodes_from(t, xi));
                    }
                }
            },
            AuthorizationState::WaitTdlibParameters(x) => {
                if x.wire_tree() is Some {
                    let t = x.wire_tree()->0;
                    AuthorizationStateWaitTdlibParameters::lemma_wire_tag(x);
                    AuthorizationStateWaitTdlibParameters::lemma_round_trip(x);
                    assert(Self::accepts(t));
                    assert forall|w: Self| Self::decodes_from(t, w) implies #[trigger] w.eqv(v) by {
                        assert(w matches AuthorizationState::WaitTdlibParameters(xi) && AuthorizationStateWaitTdlibParameters::decodes_from(t, xi));
                    }
                }
            },
        }
    }
}

impl RObject for AuthorizationState {
    open spec fn tag_chars(&self) -> Seq<char> {
        match self {
            AuthorizationState::_Default(_) => "-1"@,
            AuthorizationState::Closed(x) => AuthorizationStateClosed::tag_spec(),
            AuthorizationState::Closing(x) => AuthorizationStateClosing::tag_spec(),
            AuthorizationState::LoggingOut(x) => AuthorizationStateLoggingOut::tag_spec(),
            AuthorizationState::Ready(x) => AuthorizationStateReady::tag_spec(),
            AuthorizationState::WaitCode(x) => AuthorizationStateWaitCode::tag_spec(),
            AuthorizationState::WaitEncryptionKey(x) => AuthorizationStateWaitEncryptionKey::tag_spec(),
            AuthorizationState::WaitOtherDeviceConfirmation(x) => AuthorizationStateWaitOtherDeviceConfirmation::tag_spec(),
            AuthorizationState::WaitPassword(x) => AuthorizationStateWaitPassword::tag_spec(),
            AuthorizationState::WaitPhoneNumber(x) => AuthorizationStateWaitPhoneNumber::tag_spec(),
            AuthorizationState::WaitRegistration(x) => AuthorizationStateWaitRegistration::tag_spec(),
            AuthorizationState::WaitTdlibParameters(x) => AuthorizationStateWaitTdlibParameters::tag_spec(),
        }
    }

    open spec fn extra_spec(&self) -> Option<Seq<char>> {
        match self {
            AuthorizationState::_Default(_) => None,
            AuthorizationState::Closed(x) => opt_str_view(x.extra),
            AuthorizationState::Closing(x) => opt_str_view(x.extra),
            AuthorizationState::LoggingOut(x) => opt_str_view(x.extra),
            AuthorizationState::Ready(x) => opt_str_view(x.extra),
            AuthorizationState::WaitCode(x) => opt_str_view(x.extra),
            AuthorizationState::WaitEncryptionKey(x) => opt_str_view(x.extra),
            AuthorizationState::WaitOtherDeviceConfirmation(x) => opt_str_view(x.extra),
            AuthorizationState::WaitPassword(x) => opt_str_view(x.extra),
            AuthorizationState::WaitPhoneNumber(x) => opt_str_view(x.extra),
            AuthorizationState::WaitRegistration(x) => opt_str_view(x.extra),
            AuthorizationState::WaitTdlibParameters(x) => opt_str_view(x.extra),
    }
    }

    fn td_name(&self) -> (r: &'static str) {
        match self {
            AuthorizationState::_Default(_) => "-1",
            AuthorizationState::Closed(x) => x.td_name(),
            AuthorizationState::Closing(x) => x.td_name(),
            AuthorizationState::LoggingOut(x) => x.td_name(),
            AuthorizationState::Ready(x) => x.td_name(),
            AuthorizationState::WaitCode(x) => x.td_name(),
            AuthorizationState::WaitEncryptionKey(x) => x.td_name(),
            AuthorizationState::WaitOtherDeviceConfirmation(x) => x.td_name(),
            AuthorizationState::WaitPassword(x) => x.td_name(),
            AuthorizationState::WaitPhoneNumber(x) => x.td_name(),
            AuthorizationState::WaitRegistration(x) => x.td_name(),
            AuthorizationState::WaitTdlibParameters(x) => x.td_name(),
        }
    }

    fn extra(&self) -> (r: Option<String>) {
        match self {
            AuthorizationState::_Default(_) => None,
            AuthorizationState::Closed(x) => clone_opt_string(&x.extra),
            AuthorizationState::Closing(x) => clone_opt_string(&x.extra),
            AuthorizationState::LoggingOut(x) => clone_opt_string(&x.extra),
            AuthorizationState::Ready(x) => clone_opt_string(&x.extra),
            AuthorizationState::WaitCode(x) => clone_opt_string(&x.extra),
            AuthorizationState::WaitEncryptionKey(x) => clone_opt_string(&x.extra),
            AuthorizationState::WaitOtherDeviceConfirmation(x) => clone_opt_string(&x.extra),
            AuthorizationState::WaitPassword(x) => clone_opt_string(&x.extra),
            AuthorizationState::WaitPhoneNumber(x) => clone_opt_string(&x.extra),
            AuthorizationState::WaitRegistration(x) => clone_opt_string(&x.extra),
            AuthorizationState::WaitTdlibParameters(x) => clone_opt_string(&x.extra),
        }
    }

    fn to_json(&self) -> (r: Result<String, EncodeError>) {
        crate::object::encode(self)
    }
}

impl AuthorizationState {
    pub fn from_json(json: &str) -> (r: Result<AuthorizationState, DecodeError>)
        ensures
            match crate::parse::parse_doc(json@) {
                Some(t) => match r {
                    Ok(v) => Self::accepts(t) && Self::decodes_from(t, v),
                    Err(e) => !Self::accepts(t) && crate::errors::err_matches(e, Self::err_of(t)),
                },
                None => r matches Err(e) && e == DecodeError::Malformed,
            },
    {
        crate::object::from_json::<AuthorizationState>(json)
    }

    pub fn _is_default(&self) -> (r: bool)
        ensures
            r == (self is _Default),
    {
        match self {
            AuthorizationState::_Default(_) => true,
            _ => false,
        }
    }

    pub fn is_closed(&self) -> (r: bool)
        ensures
            r == (self is Closed),
    {
        match self {
            AuthorizationState::Closed(_) => true,
            _ => false,
        }
    }

    pub fn is_closing(&self) -> (r: bool)
        ensures
            r == (self is Closing),
    {
        match self {
            AuthorizationState::Closing(_) => true,
            _ => false,
        }
    }

    pub fn is_logging_out(&self) -> (r: bool)
        ensures
            r == (self is LoggingOut),
    {
        match self {
            AuthorizationState::LoggingOut(_) => true,
            _ => false,
        }
    }

    pub fn is_ready(&self) -> (r: bool)
        ensures
            r == (self is Ready),
    {
        match self {
            AuthorizationState::Ready(_) => true,
            _ => false,
        }
    }

    pub fn is_wait_code(&self) -> (r: bool)
        ensures
            r == (self is WaitCode),
    {
        match self {
            AuthorizationState::WaitCode(_) => true,
            _ => false,
        }
    }

    pub fn is_wait_encryption_key(&self) -> (r: bool)
        ensures
            r == (self is WaitEncryptionKey),
    {
        match self {
            AuthorizationState::WaitEncryptionKey(_) => true,
            _ => false,
        }
    }

    pub fn is_wait_other_device_confirmation(&self) -> (r: bool)
        ensures
            r == (self is WaitOtherDeviceConfirmation),
    {
        match self {
            AuthorizationState::WaitOtherDeviceConfirmation(_) => true,
            _ => false,
        }
    }

    pub fn is_wait_password(&self) -> (r: bool)
        ensures
            r == (self is WaitPassword),
    {
        match self {
            AuthorizationState::WaitPassword(_) => true,
            _ => false,
        }
    }

    pub fn is_wait_phone_number(&self) -> (r: bool)
        ensures
            r == (self is WaitPhoneNumber),
    {
        match self {
            AuthorizationState::WaitPhoneNumber(_) => true,
            _ => false,
        }
    }

    pub fn is_wait_registration(&self) -> (r: bool)
        ensures
            r == (self is WaitRegistration),
    {
        match self {
            AuthorizationState::WaitRegistration(_) => true,
            _ => false,
        }
    }

    pub fn is_wait_tdlib_parameters(&self) -> (r: bool)
        ensures
            r == (self is WaitTdlibParameters),
    {
        match self {
            AuthorizationState::WaitTdlibParameters(_) => true,
            _ => false,
        }
    }

    pub fn as_closed(&self) -> (r: Option<&AuthorizationStateClosed>)
        ensures
            (self is Closed) == (r is Some),
            r matches Some(x) ==> *x == self->Closed_0,
    {
        match self {
            AuthorizationState::Closed(x) => Some(x),
            _ => None,
        }
    }

    pub fn as_closing(&self) -> (r: Option<&AuthorizationStateClosing>)
        ensures
            (self is Closing) == (r is Some),
            r matches Some(x) ==> *x == self->Closing_0,
    {
        match self {
            AuthorizationState::Closing(x) => Some(x),
            _ => None,
        }
    }

    pub fn as_logging_out(&self) -> (r: Option<&AuthorizationStateLoggingOut>)
        ensures
            (self is LoggingOut) == (r is Some),
            r matches Some(x) ==> *x == self->LoggingOut_0,
    {
        match self {
            AuthorizationState::LoggingOut(x) => Some(x),
            _ => None,
        }
    }

    pub fn as_ready(&self) -> (r: Option<&AuthorizationStateReady>)
        ensures
            (self is Ready) == (r is Some),
            r matches Some(x) ==> *x == self->Ready_0,
    {
        match self {
            AuthorizationState::Ready(x) => Some(x),
            _ => None,
        }
    }

    pub fn as_wait_code(&self) -> (r: Option<&AuthorizationStateWaitCode>)
        ensures
            (self is WaitCode) == (r is Some),
            r matches Some(x) ==> *x == self->WaitCode_0,
    {
        match self {
            AuthorizationState::WaitCode(x) => Some(x),
            _ => None,
        }
    }

    pub fn as_wait_encryption_key(&self) -> (r: Option<&AuthorizationStateWaitEncryptionKey>)
        ensures
            (self is WaitEncryptionKey) == (r is Some),
            r matches Some(x) ==> *x == self->WaitEncryptionKey_0,
    {
        match self {
            AuthorizationState::WaitEncryptionKey(x) => Some(x),
            _ => None,
        }
    }

    pub fn as_wait_other_device_confirmation(&self) -> (r: Option<&AuthorizationStateWaitOtherDeviceConfirmation>)
        ensures
            (self is WaitOtherDeviceConfirmation) == (r is Some),
            r matches Some(x) ==> *x == self->WaitOtherDeviceConfirmation_0,
    {
        match self {
            AuthorizationState::WaitOtherDeviceConfirmation(x) => Some(x),
            _ => None,
        }
    }

    pub fn as_wait_password(&self) -> (r: Option<&AuthorizationStateWaitPassword>)
        ensures
            (self is WaitPassword) == (r is Some),
            r matches Some(x) ==> *x == self->WaitPassword_0,
    {
        match self {
            AuthorizationState::WaitPassword(x) => Some(x),
            _ => None,
        }
    }

    pub fn as_wait_phone_number(&self) -> (r: Option<&AuthorizationStateWaitPhoneNumber>)
        ensures
            (self is WaitPhoneNumber) == (r is Some),
            r matches Some(x) ==> *x == self->WaitPhoneNumber_0,
    {
        match self {
            AuthorizationState::WaitPhoneNumber(x) => Some(x),
            _ => None,
        }
    }

    pub fn as_wait_registration(&self) -> (r: Option<&AuthorizationStateWaitRegistration>)
        ensures
            (self is WaitRegistration) == (r is Some),
            r matches Some(x) ==> *x == self->WaitRegistration_0,
    {
        match self {
            AuthorizationState::WaitRegistration(x) => Some(x),
            _ => None,
        }
    }

    pub fn as_wait_tdlib_parameters(&self) -> (r: Option<&AuthorizationStateWaitTdlibParameters>)
        ensures
            (self is WaitTdlibParameters) == (r is Some),
            r matches Some(x) ==> *x == self->WaitTdlibParameters_0,
    {
        match self {
            AuthorizationState::WaitTdlibParameters(x) => Some(x),
            _ => None,
        }
    }

    pub fn closed(t: &AuthorizationStateClosed) -> (r: Self)
        ensures
            r matches AuthorizationState::Closed(x) && x.eqv(*t),
    {
        AuthorizationState::Closed(t.clone())
    }

    pub fn closing(t: &AuthorizationStateClosing) -> (r: Self)
        ensures
            r matches AuthorizationState::Closing(x) && x.eqv(*t),
    {
        AuthorizationState::Closing(t.clone())
    }

    pub fn logging_out(t: &AuthorizationStateLoggingOut) -> (r: Self)
        ensures
            r matches AuthorizationState::LoggingOut(x) && x.eqv(*t),
    {
        AuthorizationState::LoggingOut(t.clone())
    }

    pub fn ready(t: &AuthorizationStateReady) -> (r: Self)
        ensures
            r matches AuthorizationState::Ready(x) && x.eqv(*t),
    {
        AuthorizationState::Ready(t.clone())
    }

    pub fn wait_code(t: &AuthorizationStateWaitCode) -> (r: Self)
        ensures
            r matches AuthorizationState::WaitCode(x) && x.eqv(*t),
    {
        AuthorizationState::WaitCode(t.clone())
    }

    pub fn wait_encryption_key(t: &AuthorizationStateWaitEncryptionKey) -> (r: Self)
        ensures
            r matches AuthorizationState::WaitEncryptionKey(x) && x.eqv(*t),
    {
        AuthorizationState::WaitEncryptionKey(t.clone())
    }

    pub fn wait_other_device_confirmation(t: &AuthorizationStateWaitOtherDeviceConfirmation) -> (r: Self)
        ensures
            r matches AuthorizationState::WaitOtherDeviceConfirmation(x) && x.eqv(*t),
    {
        AuthorizationState::WaitOtherDeviceConfirmation(t.clone())
    }

    pub fn wait_password(t: &AuthorizationStateWaitPassword) -> (r: Self)
        ensures
            r matches AuthorizationState::WaitPassword(x) && x.eqv(*t),
    {
        AuthorizationState::WaitPassword(t.clone())
    }

    pub fn wait_phone_number(t: &AuthorizationStateWaitPhoneNumber) -> (r: Self)
        ensures
            r matches AuthorizationState::WaitPhoneNumber(x) && x.eqv(*t),
    {
        AuthorizationState::WaitPhoneNumber(t.clone())
    }

    pub fn wait_registration(t: &AuthorizationStateWaitRegistration) -> (r: Self)
        ensures
            r matches AuthorizationState::WaitRegistration(x) && x.eqv(*t),
    {
        AuthorizationState::WaitRegistration(t.clone())
    }

    pub fn wait_tdlib_parameters(t: &AuthorizationStateWaitTdlibParameters) -> (r: Self)
        ensures
            r matches AuthorizationState::WaitTdlibParameters(x) && x.eqv(*t),
    {
        AuthorizationState::WaitTdlibParameters(t.clone())
    }
}
/// TDLib client is in its final state. All databases are closed and all resources are released. No other updates will be received after this. All queries will be responded to with error code 500. To continue working, one must create a new instance of the TDLib client
#[derive(Debug, PartialEq)]
pub struct AuthorizationStateClosed {
    pub extra: Option<String>,
}

impl AuthorizationStateClosed {
    pub open spec fn tag_spec() -> Seq<char> {
        "authorizationStateClosed"@
    }

    /// The members of the wire object, in the order they are written.
    pub open spec fn members_spec(self) -> Seq<(Seq<char>, SpecJson)> {
        seq![
            ("@type"@, SpecJson::Str(Self::tag_spec())),
            ("@extra"@, opt_str_tree(opt_str_view(self.extra))),
        ]
    }

    pub open spec fn fields_ok(t: SpecJson) -> bool {
        &&& ok_opt_str(t, "@extra"@)
    }

    pub open spec fn fail_field(t: SpecJson) -> Seq<char> {
        if !ok_opt_str(t, "@extra"@) {
            "@extra"@
        } else {
            Seq::empty()
        }
    }

    /// The encoding of a value carries exactly this type's tag.
    pub proof fn lemma_wire_tag(v: AuthorizationStateClosed)
        ensures
            v.wire_tree() matches Some(t) ==> tag_of(t) == Some(AuthorizationStateClosed::tag_spec()),
    {
        if v.wire_tree() is Some {
            let t = v.wire_tree()->0;
            let ms = t->Obj_0;
            lemma_get_spec_found(ms, "@type"@, 0);
        }
    }
}

impl Clone for AuthorizationStateClosed {
    fn clone(&self) -> (res: Self)
        ensures
            res.eqv(*self),
    {
        AuthorizationStateClosed {
            extra: clone_opt_string(&self.extra),
        }
    }
}

impl Wire for AuthorizationStateClosed {
    open spec fn wire_tree(self) -> Option<SpecJson> {
        Some(SpecJson::Obj(self.members_spec()))
    }

    open spec fn accepts(t: SpecJson) -> bool {
        tag_of(t) is Some && Self::fields_ok(t)
    }

    open spec fn err_of(t: SpecJson) -> SpecDecodeError {
        match tag_of(t) {
            None => SpecDecodeError::Malformed,
            Some(_) => SpecDecodeError::FieldShapeMismatch(Self::tag_spec(), Self::fail_field(t)),
        }
    }

    open spec fn decodes_from(t: SpecJson, v: Self) -> bool {
        &&& m_opt_str(t, "@extra"@, v.extra)
    }

    open spec fn eqv(self, other: Self) -> bool {
        &&& eqv_opt_string(self.extra, other.extra)
    }

    fn clone_val(&self) -> (r: Self) {
        self.clone()
    }

    fn decode_tree(t: &JsonValue) -> (r: Result<Self, DecodeError>) {
        if get_tag(t).is_none() {
            return Err(DecodeError::Malformed);
        }
        let extra = match field_opt_string(t, "@extra") {
            Some(x) => x,
            None => {
                return Err(DecodeError::FieldShapeMismatch(
                    String::from_str("authorizationStateClosed"),
                    String::from_str("@extra"),
                ));
            },
        };
        Ok(AuthorizationStateClosed { extra })
    }

    fn encode_tree(&self) -> (r: Result<JsonValue, EncodeError>) {
        let mut members: Vec<JsonMember> = Vec::new();
        proof {
            assert(view_members(members@) =~= Seq::<(Seq<char>, SpecJson)>::empty());
        }
        push_member(&mut members, "@type", JsonValue::Str(String::from_str("authorizationStateClosed")));
        push_member(&mut members, "@extra", opt_string_tree(&self.extra));
        let node = JsonValue::Obj(members);
        proof {
            assert(view_members(members@) =~= self.members_spec());
            assert(node@ == self.wire_tree()->0);
        }
        Ok(node)
    }

    proof fn lemma_wire_wf(v: Self) {
        if v.wire_tree() is Some {
            let t = v.wire_tree()->0;
            let ms = t->Obj_0;
            assert(ms == v.members_spec());
            assert forall|i: int| 0 <= i < ms.len() implies wf(#[trigger] ms[i].1) by {
            }
        }
    }

    proof fn lemma_round_trip(v: Self) {
        if v.wire_tree() is Some {
            let t = v.wire_tree()->0;
            let ms = t->Obj_0;
            assert(ms == v.members_spec());
            reveal_strlit("@type");
            reveal_strlit("@extra");
            assert("@type"@.len() == 5);
            assert("@extra"@.len() == 6);
            reveal_with_fuel(get_spec, 4);
            lemma_get_spec_found(ms, "@type"@, 0);
            lemma_get_spec_found(ms, "@extra"@, 1);
            assert(tag_of(t) == Some(Self::tag_spec()));
            assert(ok_opt_str(t, "@extra"@));
            assert(Self::accepts(t));
            assert forall|w: Self| Self::decodes_from(t, w) implies #[trigger] w.eqv(v) by {
            }
        }
    }
}

impl RObject for AuthorizationStateClosed {
    open spec fn tag_chars(&self) -> Seq<char> {
        Self::tag_spec()
    }

    open spec fn extra_spec(&self) -> Option<Seq<char>> {
        opt_str_view(self.extra)
    }

    fn td_name(&self) -> (r: &'static str) {
        "authorizationStateClosed"
    }

    fn extra(&self) -> (r: Option<String>) {
        clone_opt_string(&self.extra)
    }

    fn to_json(&self) -> (r: Result<String, EncodeError>) {
        crate::object::encode(self)
    }
}

impl TDAuthorizationState for AuthorizationStateClosed {

}

impl AuthorizationStateClosed {
    pub fn from_json(json: &str) -> (r: Result<AuthorizationStateClosed, DecodeError>)
        ensures
            match crate::parse::parse_doc(json@) {
                Some(t) => match r {
                    Ok(v) => Self::accepts(t) && Self::decodes_from(t, v),
                    Err(e) => !Self::accepts(t) && crate::errors::err_matches(e, Self::err_of(t)),
                },
                None => r matches Err(e) && e == DecodeError::Malformed,
            },
    {
        crate::object::from_json::<AuthorizationStateClosed>(json)
    }

    pub fn builder() -> (r: RTDAuthorizationStateClosedBuilder)
        ensures
            r.inner.extra is Some,
    {
        RTDAuthorizationStateClosedBuilder {
            inner: AuthorizationStateClosed {
                extra: Some(new_token()),
            },
        }
    }
}

pub struct RTDAuthorizationStateClosedBuilder {
    pub inner: AuthorizationStateClosed,
}

impl RTDAuthorizationStateClosedBuilder {
    pub fn build(&self) -> (r: AuthorizationStateClosed)
        ensures
            r.eqv(self.inner),
    {
        self.inner.clone()
    }
}
/// TDLib is closing, all subsequent queries will be answered with the error 500. Note that closing TDLib can take a while. All resources will be freed only after authorizationStateClosed has been received
#[derive(Debug, PartialEq)]
pub struct AuthorizationStateClosing {
    pub extra: Option<String>,
}

impl AuthorizationStateClosing {
    pub open spec fn tag_spec() -> Seq<char> {
        "authorizationStateClosing"@
    }

    /// The members of the wire object, in the order they are written.
    pub open spec fn members_spec(self) -> Seq<(Seq<char>, SpecJson)> {
        seq![
            ("@type"@, SpecJson::Str(Self::tag_spec())),
            ("@extra"@, opt_str_tree(opt_str_view(self.extra))),
        ]
    }

    pub open spec fn fields_ok(t: SpecJson) -> bool {
        &&& ok_opt_str(t, "@extra"@)
    }

    pub open spec fn fail_field(t: SpecJson) -> Seq<char> {
        if !ok_opt_str(t, "@extra"@) {
            "@extra"@
        } else {
            Seq::empty()
        }
    }

    /// The encoding of a value carries exactly this type's tag.
    pub proof fn lemma_wire_tag(v: AuthorizationStateClosing)
        ensures
            v.wire_tree() matches Some(t) ==> tag_of(t) == Some(AuthorizationStateClosing::tag_spec()),
    {
        if v.wire_tree() is Some {
            let t = v.wire_tree()->0;
            let ms = t->Obj_0;
            lemma_get_spec_found(ms, "@type"@, 0);
        }
    }
}

impl Clone for AuthorizationStateClosing {
    fn clone(&self) -> (res: Self)
        ensures
            res.eqv(*self),
    {
        AuthorizationStateClosing {
            extra: clone_opt_string(&self.extra),
        }
    }
}

impl Wire for AuthorizationStateClosing {
    open spec fn wire_tree(self) -> Option<SpecJson> {
        Some(SpecJson::Obj(self.members_spec()))
    }

    open spec fn accepts(t: SpecJson) -> bool {
        tag_of(t) is Some && Self::fields_ok(t)
    }

    open spec fn err_of(t: SpecJson) -> SpecDecodeError {
        match tag_of(t) {
            None => SpecDecodeError::Malformed,
            Some(_) => SpecDecodeError::FieldShapeMismatch(Self::tag_spec(), Self::fail_field(t)),
        }
    }

    open spec fn decodes_from(t: SpecJson, v: Self) -> bool {
        &&& m_opt_str(t, "@extra"@, v.extra)
    }

    open spec fn eqv(self, other: Self) -> bool {
        &&& eqv_opt_string(self.extra, other.extra)
    }

    fn clone_val(&self) -> (r: Self) {
        self.clone()
    }

    fn decode_tree(t: &JsonValue) -> (r: Result<Self, DecodeError>) {
        if get_tag(t).is_none() {
            return Err(DecodeError::Malformed);
        }
        let extra = match field_opt_string(t, "@extra") {
            Some(x) => x,
            None => {
                return Err(DecodeError::FieldShapeMismatch(
                    String::from_str("authorizationStateClosing"),
                    String::from_str("@extra"),
                ));
            },
        };
        Ok(AuthorizationStateClosing { extra })
    }

    fn encode_tree(&self) -> (r: Result<JsonValue, EncodeError>) {
        let mut members: Vec<JsonMember> = Vec::new();
        proof {
            assert(view_members(members@) =~= Seq::<(Seq<char>, SpecJson)>::empty());
        }
        push_member(&mut members, "@type", JsonValue::Str(String::from_str("authorizationStateClosing")));
        push_member(&mut members, "@extra", opt_string_tree(&self.extra));
        let node = JsonValue::Obj(members);
        proof {
            assert(view_members(members@) =~= self.members_spec());
            assert(node@ == self.wire_tree()->0);
        }
        Ok(node)
    }

    proof fn lemma_wire_wf(v: Self) {
        if v.wire_tree() is Some {
            let t = v.wire_tree()->0;
            let ms = t->Obj_0;
            assert(ms == v.members_spec());
            assert forall|i: int| 0 <= i < ms.len() implies wf(#[trigger] ms[i].1) by {
            }
        }
    }

    proof fn lemma_round_trip(v: Self) {
        if v.wire_tree() is Some {
            let t = v.wire_tree()->0;
            let ms = t->Obj_0;
            assert(ms == v.members_spec());
            reveal_strlit("@type");
            reveal_strlit("@extra");
            assert("@type"@.len() == 5);
            assert("@extra"@.len() == 6);
            reveal_with_fuel(get_spec, 4);
            lemma_get_spec_found(ms, "@type"@, 0);
            lemma_get_spec_found(ms, "@extra"@, 1);
            assert(tag_of(t) == Some(Self::tag_spec()));
            assert(ok_opt_str(t, "@extra"@));
            assert(Self::accepts(t));
            assert forall|w: Self| Self::decodes_from(t, w) implies #[trigger] w.eqv(v) by {
            }
        }
    }
}

impl RObject for AuthorizationStateClosing {
    open spec fn tag_chars(&self) -> Seq<char> {
        Self::tag_spec()
    }

    open spec fn extra_spec(&self) -> Option<Seq<char>> {
        opt_str_view(self.extra)
    }

    fn td_name(&self) -> (r: &'static str) {
        "authorizationStateClosing"
    }

    fn extra(&self) -> (r: Option<String>) {
        clone_opt_string(&self.extra)
    }

    fn to_json(&self) -> (r: Result<String, EncodeError>) {
        crate::object::encode(self)
    }
}

impl TDAuthorizationState for AuthorizationStateClosing {

}

impl AuthorizationStateClosing {
    pub fn from_json(json: &str) -> (r: Result<AuthorizationStateClosing, DecodeError>)
        ensures
            match crate::parse::parse_doc(json@) {
                Some(t) => match r {
                    Ok(v) => Self::accepts(t) && Self::decodes_from(t, v),
                    Err(e) => !Self::accepts(t) && crate::errors::err_matches(e, Self::err_of(t)),
                },
                None => r matches Err(e) && e == DecodeError::Malformed,
            },
    {
        crate::object::from_json::<AuthorizationStateClosing>(json)
    }

    pub fn builder() -> (r: RTDAuthorizationStateClosingBuilder)
        ensures
            r.inner.extra is Some,
    {
        RTDAuthorizationStateClosingBuilder {
            inner: AuthorizationStateClosing {
                extra: Some(new_token()),
            },
        }
    }
}

pub struct RTDAuthorizationStateClosingBuilder {
    pub inner: AuthorizationStateClosing,
}

impl RTDAuthorizationStateClosingBuilder {
    pub fn build(&self) -> (r: AuthorizationStateClosing)
        ensures
            r.eqv(self.inner),
    {
        self.inner.clone()
    }
}
/// The user is currently logging out
#[derive(Debug, PartialEq)]
pub struct AuthorizationStateLoggingOut {
    pub extra: Option<String>,
}

impl AuthorizationStateLoggingOut {
    pub open spec fn tag_spec() -> Seq<char> {
        "authorizationStateLoggingOut"@
    }

    /// The members of the wire object, in the order they are written.
    pub open spec fn members_spec(self) -> Seq<(Seq<char>, SpecJson)> {
        seq![
            ("@type"@, SpecJson::Str(Self::tag_spec())),
            ("@extra"@, opt_str_tree(opt_str_view(self.extra))),
        ]
    }

    pub open spec fn fields_ok(t: SpecJson) -> bool {
        &&& ok_opt_str(t, "@extra"@)
    }

    pub open spec fn fail_field(t: SpecJson) -> Seq<char> {
        if !ok_opt_str(t, "@extra"@) {
            "@extra"@
        } else {
            Seq::empty()
        }
    }

    /// The encoding of a value carries exactly this type's tag.
    pub proof fn lemma_wire_tag(v: AuthorizationStateLoggingOut)
        ensures
            v.wire_tree() matches Some(t) ==> tag_of(t) == Some(AuthorizationStateLoggingOut::tag_spec()),
    {
        if v.wire_tree() is Some {
            let t = v.wire_tree()->0;
            let ms = t->Obj_0;
            lemma_get_spec_found(ms, "@type"@, 0);
        }
    }
}

impl Clone for AuthorizationStateLoggingOut {
    fn clone(&self) -> (res: Self)
        ensures
            res.eqv(*self),
    {
        AuthorizationStateLoggingOut {
            extra: clone_opt_string(&self.extra),
        }
    }
}

impl Wire for AuthorizationStateLoggingOut {
    open spec fn wire_tree(self) -> Option<SpecJson> {
        Some(SpecJson::Obj(self.members_spec()))
    }

    open spec fn accepts(t: SpecJson) -> bool {
        tag_of(t) is Some && Self::fields_ok(t)
    }

    open spec fn err_of(t: SpecJson) -> SpecDecodeError {
        match tag_of(t) {
            None => SpecDecodeError::Malformed,
            Some(_) => SpecDecodeError::FieldShapeMismatch(Self::tag_spec(), Self::fail_field(t)),
        }
    }

    open spec fn decodes_from(t: SpecJson, v: Self) -> bool {
        &&& m_opt_str(t, "@extra"@, v.extra)
    }

    open spec fn eqv(self, other: Self) -> bool {
        &&& eqv_opt_string(self.extra, other.extra)
    }

    fn clone_val(&self) -> (r: Self) {
        self.clone()
    }

    fn decode_tree(t: &JsonValue) -> (r: Result<Self, DecodeError>) {
        if get_tag(t).is_none() {
            return Err(DecodeError::Malformed);
        }
        let extra = match field_opt_string(t, "@extra") {
            Some(x) => x,
            None => {
                return Err(DecodeError::FieldShapeMismatch(
                    String::from_str("authorizationStateLoggingOut"),
                    String::from_str("@extra"),
                ));
            },
        };
        Ok(AuthorizationStateLoggingOut { extra })
    }

    fn encode_tree(&self) -> (r: Result<JsonValue, EncodeError>) {
        let mut members: Vec<JsonMember> = Vec::new();
        proof {
            assert(view_members(members@) =~= Seq::<(Seq<char>, SpecJson)>::empty());
        }
        push_member(&mut members, "@type", JsonValue::Str(String::from_str("authorizationStateLoggingOut")));
        push_member(&mut members, "@extra", opt_string_tree(&self.extra));
        let node = JsonValue::Obj(members);
        proof {
            assert(view_members(members@) =~= self.members_spec());
            assert(node@ == self.wire_tree()->0);
        }
        Ok(node)
    }

    proof fn lemma_wire_wf(v: Self) {
        if v.wire_tree() is Some {
            let t = v.wire_tree()->0;
            let ms = t->Obj_0;
            assert(ms == v.members_spec());
            assert forall|i: int| 0 <= i < ms.len() implies wf(#[trigger] ms[i].1) by {
            }
        }
    }

    proof fn lemma_round_trip(v: Self) {
        if v.wire_tree() is Some {
            let t = v.wire_tree()->0;
            let ms = t->Obj_0;
            assert(ms == v.members_spec());
            reveal_strlit("@type");
            reveal_strlit("@extra");
            assert("@type"@.len() == 5);
            assert("@extra"@.len() == 6);
            reveal_with_fuel(get_spec, 4);
            lemma_get_spec_found(ms, "@type"@, 0);
            lemma_get_spec_found(ms, "@extra"@, 1);
            assert(tag_of(t) == Some(Self::tag_spec()));
            assert(ok_opt_str(t, "@extra"@));
            assert(Self::accepts(t));
            assert forall|w: Self| Self::decodes_from(t, w) implies #[trigger] w.eqv(v) by {
            }
        }
    }
}

impl RObject for AuthorizationStateLoggingOut {
    open spec fn tag_chars(&self) -> Seq<char> {
        Self::tag_spec()
    }

    open spec fn extra_spec(&self) -> Option<Seq<char>> {
        opt_str_view(self.extra)
    }

    fn td_name(&self) -> (r: &'static str) {
        "authorizationStateLoggingOut"
    }

    fn extra(&self) -> (r: Option<String>) {
        clone_opt_string(&self.extra)
    }

    fn to_json(&self) -> (r: Result<String, EncodeError>) {
        crate::object::encode(self)
    }
}

impl TDAuthorizationState for AuthorizationStateLoggingOut {

}

impl AuthorizationStateLoggingOut {
    pub fn from_json(json: &str) -> (r: Result<AuthorizationStateLoggingOut, DecodeError>)
        ensures
            match crate::parse::parse_doc(json@) {
                Some(t) => match r {
                    Ok(v) => Self::accepts(t) && Self::decodes_from(t, v),
                    Err(e) => !Self::accepts(t) && crate::errors::err_matches(e, Self::err_of(t)),
                },
                None => r matches Err(e) && e == DecodeError::Malformed,
            },
    {
        crate::object::from_json::<AuthorizationStateLoggingOut>(json)
    }

    pub fn builder() -> (r: RTDAuthorizationStateLoggingOutBuilder)
        ensures
            r.inner.extra is Some,
    {
        RTDAuthorizationStateLoggingOutBuilder {
            inner: AuthorizationStateLoggingOut {
                extra: Some(new_token()),
            },
        }
    }
}

pub struct RTDAuthorizationStateLoggingOutBuilder {
    pub inner: AuthorizationStateLoggingOut,
}

impl RTDAuthorizationStateLoggingOutBuilder {
    pub fn build(&self) -> (r: AuthorizationStateLoggingOut)
        ensures
            r.eqv(self.inner),
    {
        self.inner.clone()
    }
}
/// The user has been successfully authorized. TDLib is now ready to answer queries
#[derive(Debug, PartialEq)]
pub struct AuthorizationStateReady {
    pub extra: Option<String>,
}

impl AuthorizationStateReady {
    pub open spec fn tag_spec() -> Seq<char> {
        "authorizationStateReady"@
    }

    /// The members of the wire object, in the order they are written.
    pub open spec fn members_spec(self) -> Seq<(Seq<char>, SpecJson)> {
        seq![
            ("@type"@, SpecJson::Str(Self::tag_spec())),
            ("@extra"@, opt_str_tree(opt_str_view(self.extra))),
        ]
    }

    pub open spec fn fields_ok(t: SpecJson) -> bool {
        &&& ok_opt_str(t, "@extra"@)
    }

    pub open spec fn fail_field(t: SpecJson) -> Seq<char> {
        if !ok_opt_str(t, "@extra"@) {
            "@extra"@
        } else {
            Seq::empty()
        }
    }

    /// The encoding of a value carries exactly this type's tag.
    pub proof fn lemma_wire_tag(v: AuthorizationStateReady)
        ensures
            v.wire_tree() matches Some(t) ==> tag_of(t) == Some(AuthorizationStateReady::tag_spec()),
    {
        if v.wire_tree() is Some {
            let t = v.wire_tree()->0;
            let ms = t->Obj_0;
            lemma_get_spec_found(ms, "@type"@, 0);
        }
    }
}

impl Clone for AuthorizationStateReady {
    fn clone(&self) -> (res: Self)
        ensures
            res.eqv(*self),
    {
        AuthorizationStateReady {
            extra: clone_opt_string(&self.extra),
        }
    }
}

impl Wire for AuthorizationStateReady {
    open spec fn wire_tree(self) -> Option<SpecJson> {
        Some(SpecJson::Obj(self.members_spec()))
    }

    open spec fn accepts(t: SpecJson) -> bool {
        tag_of(t) is Some && Self::fields_ok(t)
    }

    open spec fn err_of(t: SpecJson) -> SpecDecodeError {
        match tag_of(t) {
            None => SpecDecodeError::Malformed,
            Some(_) => SpecDecodeError::FieldShapeMismatch(Self::tag_spec(), Self::fail_field(t)),
        }
    }

    open spec fn decodes_from(t: SpecJson, v: Self) -> bool {
        &&& m_opt_str(t, "@extra"@, v.extra)
    }

    open spec fn eqv(self, other: Self) -> bool {
        &&& eqv_opt_string(self.extra, other.extra)
    }

    fn clone_val(&self) -> (r: Self) {
        self.clone()
    }

    fn decode_tree(t: &JsonValue) -> (r: Result<Self, DecodeError>) {
        if get_tag(t).is_none() {
            return Err(DecodeError::Malformed);
        }
        let extra = match field_opt_string(t, "@extra") {
            Some(x) => x,
            None => {
                return Err(DecodeError::FieldShapeMismatch(
                    String::from_str("authorizationStateReady"),
                    String::from_str("@extra"),
                ));
            },
        };
        Ok(AuthorizationStateReady { extra })
    }

    fn encode_tree(&self) -> (r: Result<JsonValue, EncodeError>) {
        let mut members: Vec<JsonMember> = Vec::new();
        proof {
            assert(view_members(members@) =~= Seq::<(Seq<char>, SpecJson)>::empty());
        }
        push_member(&mut members, "@type", JsonValue::Str(String::from_str("authorizationStateReady")));
        push_member(&mut members, "@extra", opt_string_tree(&self.extra));
        let node = JsonValue::Obj(members);
        proof {
            assert(view_members(members@) =~= self.members_spec());
            assert(node@ == self.wire_tree()->0);
        }
        Ok(node)
    }

    proof fn lemma_wire_wf(v: Self) {
        if v.wire_tree() is Some {
            let t = v.wire_tree()->0;
            let ms = t->Obj_0;
            assert(ms == v.members_spec());
            assert forall|i: int| 0 <= i < ms.len() implies wf(#[trigger] ms[i].1) by {
            }
        }
    }

    proof fn lemma_round_trip(v: Self) {
        if v.wire_tree() is Some {
            let t = v.wire_tree()->0;
            let ms = t->Obj_0;
            assert(ms == v.members_spec());
            reveal_strlit("@type");
            reveal_strlit("@extra");
            assert("@type"@.len() == 5);
            assert("@extra"@.len() == 6);
            reveal_with_fuel(get_spec, 4);
            lemma_get_spec_found(ms, "@type"@, 0);
            lemma_get_spec_found(ms, "@extra"@, 1);
            assert(tag_of(t) == Some(Self::tag_spec()));
            assert(ok_opt_str(t, "@extra"@));
            assert(Self::accepts(t));
            assert forall|w: Self| Self::decodes_from(t, w) implies #[trigger] w.eqv(v) by {
            }
        }
    }
}

impl RObject for AuthorizationStateReady {
    open spec fn tag_chars(&self) -> Seq<char> {
        Self::tag_spec()
    }

    open spec fn extra_spec(&self) -> Option<Seq<char>> {
        opt_str_view(self.extra)
    }

    fn td_name(&self) -> (r: &'static str) {
        "authorizationStateReady"
    }

    fn extra(&self) -> (r: Option<String>) {
        clone_opt_string(&self.extra)
    }

    fn to_json(&self) -> (r: Result<String, EncodeError>) {
        crate::object::encode(self)
    }
}

impl TDAuthorizationState for AuthorizationStateReady {

}

impl AuthorizationStateReady {
    pub fn from_json(json: &str) -> (r: Result<AuthorizationStateReady, DecodeError>)
        ensures
            match crate::parse::parse_doc(json@) {
                Some(t) => match r {
                    Ok(v) => Self::accepts(t) && Self::decodes_from(t, v),
                    Err(e) => !Self::accepts(t) && crate::errors::err_matches(e, Self::err_of(t)),
                },
                None => r matches Err(e) && e == DecodeError::Malformed,
            },
    {
        crate::object::from_json::<AuthorizationStateReady>(json)
    }

    pub fn builder() -> (r: RTDAuthorizationStateReadyBuilder)
        ensures
            r.inner.extra is Some,
    {
        RTDAuthorizationStateReadyBuilder {
            inner: AuthorizationStateReady {
                extra: Some(new_token()),
            },
        }
    }
}

pub struct RTDAuthorizationStateReadyBuilder {
    pub inner: AuthorizationStateReady,
}

impl RTDAuthorizationStateReadyBuilder {
    pub fn build(&self) -> (r: AuthorizationStateReady)
        ensures
            r.eqv(self.inner),
    {
        self.inner.clone()
    }
}
/// TDLib needs the user's authentication code to authorize
#[derive(Debug, PartialEq)]
pub struct AuthorizationStateWaitCode {
    pub extra: Option<String>,
}

impl AuthorizationStateWaitCode {
    pub open spec fn tag_spec() -> Seq<char> {
        "authorizationStateWaitCode"@
    }

    /// The members of the wire object, in the order they are written.
    pub open spec fn members_spec(self) -> Seq<(Seq<char>, SpecJson)> {
        seq![
            ("@type"@, SpecJson::Str(Self::tag_spec())),
            ("@extra"@, opt_str_tree(opt_str_view(self.extra))),
        ]
    }

    pub open spec fn fields_ok(t: SpecJson) -> bool {
        &&& ok_opt_str(t, "@extra"@)
    }

    pub open spec fn fail_field(t: SpecJson) -> Seq<char> {
        if !ok_opt_str(t, "@extra"@) {
            "@extra"@
        } else {
            Seq::empty()
        }
    }

    /// The encoding of a value carries exactly this type's tag.
    pub proof fn lemma_wire_tag(v: AuthorizationStateWaitCode)
        ensures
            v.wire_tree() matches Some(t) ==> tag_of(t) == Some(AuthorizationStateWaitCode::tag_spec()),
    {
        if v.wire_tree() is Some {
            let t = v.wire_tree()->0;
            let ms = t->Obj_0;
            lemma_get_spec_found(ms, "@type"@, 0);
        }
    }
}

impl Clone for AuthorizationStateWaitCode {
    fn clone(&self) -> (res: Self)
        ensures
            res.eqv(*self),
    {
        AuthorizationStateWaitCode {
            extra: clone_opt_string(&self.extra),
        }
    }
}

impl Wire for AuthorizationStateWaitCode {
    open spec fn wire_tree(self) -> Option<SpecJson> {
        Some(SpecJson::Obj(self.members_spec()))
    }

    open spec fn accepts(t: SpecJson) -> bool {
        tag_of(t) is Some && Self::fields_ok(t)
    }

    open spec fn err_of(t: SpecJson) -> SpecDecodeError {
        match tag_of(t) {
            None => SpecDecodeError::Malformed,
            Some(_) => SpecDecodeError::FieldShapeMismatch(Self::tag_spec(), Self::fail_field(t)),
        }
    }

    open spec fn decodes_from(t: SpecJson, v: Self) -> bool {
        &&& m_opt_str(t, "@extra"@, v.extra)
    }

    open spec fn eqv(self, other: Self) -> bool {
        &&& eqv_opt_string(self.extra, other.extra)
    }

    fn clone_val(&self) -> (r: Self) {
        self.clone()
    }

    fn decode_tree(t: &JsonValue) -> (r: Result<Self, DecodeError>) {
        if get_tag(t).is_none() {
            return Err(DecodeError::Malformed);
        }
        let extra = match field_opt_string(t, "@extra") {
            Some(x) => x,
            None => {
                return Err(DecodeError::FieldShapeMismatch(
                    String::from_str("authorizationStateWaitCode"),
                    String::from_str("@extra"),
                ));
            },
        };
        Ok(AuthorizationStateWaitCode { extra })
    }

    fn encode_tree(&self) -> (r: Result<JsonValue, EncodeError>) {
        let mut members: Vec<JsonMember> = Vec::new();
        proof {
            assert(view_members(members@) =~= Seq::<(Seq<char>, SpecJson)>::empty());
        }
        push_member(&mut members, "@type", JsonValue::Str(String::from_str("authorizationStateWaitCode")));
        push_member(&mut members, "@extra", opt_string_tree(&self.extra));
        let node = JsonValue::Obj(members);
        proof {
            assert(view_members(members@) =~= self.members_spec());
            assert(node@ == self.wire_tree()->0);
        }
        Ok(node)
    }

    proof fn lemma_wire_wf(v: Self) {
        if v.wire_tree() is Some {
            let t = v.wire_tree()->0;
            let ms = t->Obj_0;
            assert(ms == v.members_spec());
            assert forall|i: int| 0 <= i < ms.len() implies wf(#[trigger] ms[i].1) by {
            }
        }
    }

    proof fn lemma_round_trip(v: Self) {
        if v.wire_tree() is Some {
            let t = v.wire_tree()->0;
            let ms = t->Obj_0;
            assert(ms == v.members_spec());
            reveal_strlit("@type");
            reveal_strlit("@extra");
            assert("@type"@.len() == 5);
            assert("@extra"@.len() == 6);
            reveal_with_fuel(get_spec, 4);
            lemma_get_spec_found(ms, "@type"@, 0);
            lemma_get_spec_found(ms, "@extra"@, 1);
            assert(tag_of(t) == Some(Self::tag_spec()));
            assert(ok_opt_str(t, "@extra"@));
            assert(Self::accepts(t));
            assert forall|w: Self| Self::decodes_from(t, w) implies #[trigger] w.eqv(v) by {
            }
        }
    }
}

impl RObject for AuthorizationStateWaitCode {
    open spec fn tag_chars(&self) -> Seq<char> {
        Self::tag_spec()
    }

    open spec fn extra_spec(&self) -> Option<Seq<char>> {
        opt_str_view(self.extra)
    }

    fn td_name(&self) -> (r: &'static str) {
        "authorizationStateWaitCode"
    }

    fn extra(&self) -> (r: Option<String>) {
        clone_opt_string(&self.extra)
    }

    fn to_json(&self) -> (r: Result<String, EncodeError>) {
        crate::object::encode(self)
    }
}

impl TDAuthorizationState for AuthorizationStateWaitCode {

}

impl AuthorizationStateWaitCode {
    pub fn from_json(json: &str) -> (r: Result<AuthorizationStateWaitCode, DecodeError>)
        ensures
            match crate::parse::parse_doc(json@) {
                Some(t) => match r {
                    Ok(v) => Self::accepts(t) && Self::decodes_from(t, v),
                    Err(e) => !Self::accepts(t) && crate::errors::err_matches(e, Self::err_of(t)),
                },
                None => r matches Err(e) && e == DecodeError::Malformed,
            },
    {
        crate::object::from_json::<AuthorizationStateWaitCode>(json)
    }

    pub fn builder() -> (r: RTDAuthorizationStateWaitCodeBuilder)
        ensures
            r.inner.extra is Some,
    {
        RTDAuthorizationStateWaitCodeBuilder {
            inner: AuthorizationStateWaitCode {
                extra: Some(new_token()),
            },
        }
    }
}

pub struct RTDAuthorizationStateWaitCodeBuilder {
    pub inner: AuthorizationStateWaitCode,
}

impl RTDAuthorizationStateWaitCodeBuilder {
    pub fn build(&self) -> (r: AuthorizationStateWaitCode)
        ensures
            r.eqv(self.inner),
    {
        self.inner.clone()
    }
}
/// TDLib needs an encryption key to decrypt the local database
#[derive(Debug, PartialEq)]
pub struct AuthorizationStateWaitEncryptionKey {
    pub extra: Option<String>,
    /// True, if the database is currently encrypted
    pub is_encrypted: bool,
}

impl AuthorizationStateWaitEncryptionKey {
    pub open spec fn tag_spec() -> Seq<char> {
        "authorizationStateWaitEncryptionKey"@
    }

    /// The members of the wire object, in the order they are written.
    pub open spec fn members_spec(self) -> Seq<(Seq<char>, SpecJson)> {
        seq![
            ("@type"@, SpecJson::Str(Self::tag_spec())),
            ("@extra"@, opt_str_tree(opt_str_view(self.extra))),
            ("is_encrypted"@, SpecJson::Bool(self.is_encrypted)),
        ]
    }

    pub open spec fn fields_ok(t: SpecJson) -> bool {
        &&& ok_opt_str(t, "@extra"@)
        &&& ok_bool(t, "is_encrypted"@)
    }

    pub open spec fn fail_field(t: SpecJson) -> Seq<char> {
        if !ok_opt_str(t, "@extra"@) {
            "@extra"@
        } else if !(ok_bool(t, "is_encrypted"@)) {
            "is_encrypted"@
        } else {
            Seq::empty()
        }
    }

    /// The encoding of a value carries exactly this type's tag.
    pub proof fn lemma_wire_tag(v: AuthorizationStateWaitEncryptionKey)
        ensures
            v.wire_tree() matches Some(t) ==> tag_of(t) == Some(AuthorizationStateWaitEncryptionKey::tag_spec()),
    {
        if v.wire_tree() is Some {
            let t = v.wire_tree()->0;
            let ms = t->Obj_0;
            lemma_get_spec_found(ms, "@type"@, 0);
        }
    }
}

impl Clone for AuthorizationStateWaitEncryptionKey {
    fn clone(&self) -> (res: Self)
        ensures
            res.eqv(*self),
    {
        AuthorizationStateWaitEncryptionKey {
            extra: clone_opt_string(&self.extra),
            is_encrypted: self.is_encrypted,
        }
    }
}

impl Wire for AuthorizationStateWaitEncryptionKey {
    open spec fn wire_tree(self) -> Option<SpecJson> {
        Some(SpecJson::Obj(self.members_spec()))
    }

    open spec fn accepts(t: SpecJson) -> bool {
        tag_of(t) is Some && Self::fields_ok(t)
    }

    open spec fn err_of(t: SpecJson) -> SpecDecodeError {
        match tag_of(t) {
            None => SpecDecodeError::Malformed,
            Some(_) => SpecDecodeError::FieldShapeMismatch(Self::tag_spec(), Self::fail_field(t)),
        }
    }

    open spec fn decodes_from(t: SpecJson, v: Self) -> bool {
        &&& m_opt_str(t, "@extra"@, v.extra)
        &&& m_bool(t, "is_encrypted"@, v.is_encrypted)
    }

    open spec fn eqv(self, other: Self) -> bool {
        &&& eqv_opt_string(self.extra, other.extra)
        &&& self.is_encrypted == other.is_encrypted
    }

    fn clone_val(&self) -> (r: Self) {
        self.clone()
    }

    fn decode_tree(t: &JsonValue) -> (r: Result<Self, DecodeError>) {
        if get_tag(t).is_none() {
            return Err(DecodeError::Malformed);
        }
        let extra = match field_opt_string(t, "@extra") {
            Some(x) => x,
            None => {
                return Err(DecodeError::FieldShapeMismatch(
                    String::from_str("authorizationStateWaitEncryptionKey"),
                    String::from_str("@extra"),
                ));
            },
        };
        let is_encrypted = match field_bool(t, "is_encrypted") {
            Some(x) => x,
            None => {
                return Err(DecodeError::FieldShapeMismatch(
                    String::from_str("authorizationStateWaitEncryptionKey"),
                    String::from_str("is_encrypted"),
                ));
            },
        };
        Ok(AuthorizationStateWaitEncryptionKey { extra, is_encrypted })
    }

    fn encode_tree(&self) -> (r: Result<JsonValue, EncodeError>) {
        let mut members: Vec<JsonMember> = Vec::new();
        proof {
            assert(view_members(members@) =~= Seq::<(Seq<char>, SpecJson)>::empty());
        }
        push_member(&mut members, "@type", JsonValue::Str(String::from_str("authorizationStateWaitEncryptionKey")));
        push_member(&mut members, "@extra", opt_string_tree(&self.extra));
        push_member(&mut members, "is_encrypted", JsonValue::Bool(self.is_encrypted));
        let node = JsonValue::Obj(members);
        proof {
            assert(view_members(members@) =~= self.members_spec());
            assert(node@ == self.wire_tree()->0);
        }
        Ok(node)
    }

    proof fn lemma_wire_wf(v: Self) {
        if v.wire_tree() is Some {
            let t = v.wire_tree()->0;
            let ms = t->Obj_0;
            assert(ms == v.members_spec());
            assert forall|i: int| 0 <= i < ms.len() implies wf(#[trigger] ms[i].1) by {
            }
        }
    }

    proof fn lemma_round_trip(v: Self) {
        if v.wire_tree() is Some {
            let t = v.wire_tree()->0;
            let ms = t->Obj_0;
            assert(ms == v.members_spec());
            reveal_strlit("@type");
            reveal_strlit("@extra");
            reveal_strlit("is_encrypted");
            assert("@type"@.len() == 5);
            assert("@extra"@.len() == 6);
            assert("is_encrypted"@.len() == 12);
            reveal_with_fuel(get_spec, 5);
            lemma_get_spec_found(ms, "@type"@, 0);
            lemma_get_spec_found(ms, "@extra"@, 1);
            lemma_get_spec_found(ms, "is_encrypted"@, 2);
            assert(tag_of(t) == Some(Self::tag_spec()));
            assert(ok_opt_str(t, "@extra"@));
            assert(ok_bool(t, "is_encrypted"@));
            assert(Self::accepts(t));
            assert forall|w: Self| Self::decodes_from(t, w) implies #[trigger] w.eqv(v) by {
            }
        }
    }
}

impl RObject for AuthorizationStateWaitEncryptionKey {
    open spec fn tag_chars(&self) -> Seq<char> {
        Self::tag_spec()
    }

    open spec fn extra_spec(&self) -> Option<Seq<char>> {
        opt_str_view(self.extra)
    }

    fn td_name(&self) -> (r: &'static str) {
        "authorizationStateWaitEncryptionKey"
    }

    fn extra(&self) -> (r: Option<String>) {
        clone_opt_string(&self.extra)
    }

    fn to_json(&self) -> (r: Result<String, EncodeError>) {
        crate::object::encode(self)
    }
}

impl TDAuthorizationState for AuthorizationStateWaitEncryptionKey {

}

impl AuthorizationStateWaitEncryptionKey {
    pub fn from_json(json: &str) -> (r: Result<AuthorizationStateWaitEncryptionKey, DecodeError>)
        ensures
            match crate::parse::parse_doc(json@) {
                Some(t) => match r {
                    Ok(v) => Self::accepts(t) && Self::decodes_from(t, v),
                    Err(e) => !Self::accepts(t) && crate::errors::err_matches(e, Self::err_of(t)),
                },
                None => r matches Err(e) && e == DecodeError::Malformed,
            },
    {
        crate::object::from_json::<AuthorizationStateWaitEncryptionKey>(json)
    }

    pub fn builder() -> (r: RTDAuthorizationStateWaitEncryptionKeyBuilder)
        ensures
            r.inner.extra is Some,
            r.inner.is_encrypted == false,
    {
        RTDAuthorizationStateWaitEncryptionKeyBuilder {
            inner: AuthorizationStateWaitEncryptionKey {
                extra: Some(new_token()),
                is_encrypted: false,
            },
        }
    }

    pub fn is_encrypted(&self) -> (r: bool)
        ensures
            r == self.is_encrypted,
    {
        self.is_encrypted
    }
}

pub struct RTDAuthorizationStateWaitEncryptionKeyBuilder {
    pub inner: AuthorizationStateWaitEncryptionKey,
}

impl RTDAuthorizationStateWaitEncryptionKeyBuilder {
    pub fn build(&self) -> (r: AuthorizationStateWaitEncryptionKey)
        ensures
            r.eqv(self.inner),
    {
        self.inner.clone()
    }

    pub fn is_encrypted(&mut self, is_encrypted: bool) -> (r: &mut Self)
        ensures
            *r == (RTDAuthorizationStateWaitEncryptionKeyBuilder { inner: AuthorizationStateWaitEncryptionKey { is_encrypted: is_encrypted, ..old(self).inner } }),
            *final(self) == *final(r),
    {
        self.inner.is_encrypted = is_encrypted;
        self
    }
}
/// The user needs to confirm authorization on another logged in device by scanning a QR code with the provided link
#[derive(Debug, PartialEq)]
pub struct AuthorizationStateWaitOtherDeviceConfirmation {
    pub extra: Option<String>,
    /// A tg:// URL for the QR code. The link will be updated frequently
    pub link: String,
}

impl AuthorizationStateWaitOtherDeviceConfirmation {
    pub open spec fn tag_spec() -> Seq<char> {
        "authorizationStateWaitOtherDeviceConfirmation"@
    }

    /// The members of the wire object, in the order they are written.
    pub open spec fn members_spec(self) -> Seq<(Seq<char>, SpecJson)> {
        seq![
            ("@type"@, SpecJson::Str(Self::tag_spec())),
            ("@extra"@, opt_str_tree(opt_str_view(self.extra))),
            ("link"@, SpecJson::Str(self.link@)),
        ]
    }

    pub open spec fn fields_ok(t: SpecJson) -> bool {
        &&& ok_opt_str(t, "@extra"@)
        &&& ok_str(t, "link"@)
    }

    pub open spec fn fail_field(t: SpecJson) -> Seq<char> {
        if !ok_opt_str(t, "@extra"@) {
            "@extra"@
        } else if !(ok_str(t, "link"@)) {
            "link"@
        } else {
            Seq::empty()
        }
    }

    /// The encoding of a value carries exactly this type's tag.
    pub proof fn lemma_wire_tag(v: AuthorizationStateWaitOtherDeviceConfirmation)
        ensures
            v.wire_tree() matches Some(t) ==> tag_of(t) == Some(AuthorizationStateWaitOtherDeviceConfirmation::tag_spec()),
    {
        if v.wire_tree() is Some {
            let t = v.wire_tree()->0;
            let ms = t->Obj_0;
            lemma_get_spec_found(ms, "@type"@, 0);
        }
    }
}

impl Clone for AuthorizationStateWaitOtherDeviceConfirmation {
    fn clone(&self) -> (res: Self)
        ensures
            res.eqv(*self),
    {
        AuthorizationStateWaitOtherDeviceConfirmation {
            extra: clone_opt_string(&self.extra),
            link: self.link.clone(),
        }
    }
}

impl Wire for AuthorizationStateWaitOtherDeviceConfirmation {
    open spec fn wire_tree(self) -> Option<SpecJson> {
        Some(SpecJson::Obj(self.members_spec()))
    }

    open spec fn accepts(t: SpecJson) -> bool {
        tag_of(t) is Some && Self::fields_ok(t)
    }

    open spec fn err_of(t: SpecJson) -> SpecDecodeError {
        match tag_of(t) {
            None => SpecDecodeError::Malformed,
            Some(_) => SpecDecodeError::FieldShapeMismatch(Self::tag_spec(), Self::fail_field(t)),
        }
    }

    open spec fn decodes_from(t: SpecJson, v: Self) -> bool {
        &&& m_opt_str(t, "@extra"@, v.extra)
        &&& m_str(t, "link"@, v.link@)
    }

    open spec fn eqv(self, other: Self) -> bool {
        &&& eqv_opt_string(self.extra, other.extra)
        &&& self.link@ == other.link@
    }

    fn clone_val(&self) -> (r: Self) {
        self.clone()
    }

    fn decode_tree(t: &JsonValue) -> (r: Result<Self, DecodeError>) {
        if get_tag(t).is_none() {
            return Err(DecodeError::Malformed);
        }
        let extra = match field_opt_string(t, "@extra") {
            Some(x) => x,
            None => {
                return Err(DecodeError::FieldShapeMismatch(
                    String::from_str("authorizationStateWaitOtherDeviceConfirmation"),
                    String::from_str("@extra"),
                ));
            },
        };
        let link = match field_string(t, "link") {
            Some(x) => x,
            None => {
                return Err(DecodeError::FieldShapeMismatch(
                    String::from_str("authorizationStateWaitOtherDeviceConfirmation"),
                    String::from_str("link"),
                ));
            },
        };
        Ok(AuthorizationStateWaitOtherDeviceConfirmation { extra, link })
    }

    fn encode_tree(&self) -> (r: Result<JsonValue, EncodeError>) {
        let mut members: Vec<JsonMember> = Vec::new();
        proof {
            assert(view_members(members@) =~= Seq::<(Seq<char>, SpecJson)>::empty());
        }
        push_member(&mut members, "@type", JsonValue::Str(String::from_str("authorizationStateWaitOtherDeviceConfirmation")));
        push_member(&mut members, "@extra", opt_string_tree(&self.extra));
        push_member(&mut members, "link", JsonValue::Str(self.link.clone()));
        let node = JsonValue::Obj(members);
        proof {
            assert(view_members(members@) =~= self.members_spec());
            assert(node@ == self.wire_tree()->0);
        }
        Ok(node)
    }

    proof fn lemma_wire_wf(v: Self) {
        if v.wire_tree() is Some {
            let t = v.wire_tree()->0;
            let ms = t->Obj_0;
            assert(ms == v.members_spec());
            assert forall|i: int| 0 <= i < ms.len() implies wf(#[trigger] ms[i].1) by {
            }
        }
    }

    proof fn lemma_round_trip(v: Self) {
        if v.wire_tree() is Some {
            let t = v.wire_tree()->0;
            let ms = t->Obj_0;
            assert(ms == v.members_spec());
            reveal_strlit("@type");
            reveal_strlit("@extra");
            reveal_strlit("link");
            assert("@type"@.len() == 5);
            assert("@extra"@.len() == 6);
            assert("link"@.len() == 4);
            reveal_with_fuel(get_spec, 5);
            lemma_get_spec_found(ms, "@type"@, 0);
            lemma_get_spec_found(ms, "@extra"@, 1);
            lemma_get_spec_found(ms, "link"@, 2);
            assert(tag_of(t) == Some(Self::tag_spec()));
            assert(ok_opt_str(t, "@extra"@));
            assert(ok_str(t, "link"@));
            assert(Self::accepts(t));
            assert forall|w: Self| Self::decodes_from(t, w) implies #[trigger] w.eqv(v) by {
            }
        }
    }
}

impl RObject for AuthorizationStateWaitOtherDeviceConfirmation {
    open spec fn tag_chars(&self) -> Seq<char> {
        Self::tag_spec()
    }

    open spec fn extra_spec(&self) -> Option<Seq<char>> {
        opt_str_view(self.extra)
    }

    fn td_name(&self) -> (r: &'static str) {
        "authorizationStateWaitOtherDeviceConfirmation"
    }

    fn extra(&self) -> (r: Option<String>) {
        clone_opt_string(&self.extra)
    }

    fn to_json(&self) -> (r: Result<String, EncodeError>) {
        crate::object::encode(self)
    }
}

impl TDAuthorizationState for AuthorizationStateWaitOtherDeviceConfirmation {

}

impl AuthorizationStateWaitOtherDeviceConfirmation {
    pub fn from_json(json: &str) -> (r: Result<AuthorizationStateWaitOtherDeviceConfirmation, DecodeError>)
        ensures
            match crate::parse::parse_doc(json@) {
                Some(t) => match r {
                    Ok(v) => Self::accepts(t) && Self::decodes_from(t, v),
                    Err(e) => !Self::accepts(t) && crate::errors::err_matches(e, Self::err_of(t)),
                },
                None => r matches Err(e) && e == DecodeError::Malformed,
            },
    {
        crate::object::from_json::<AuthorizationStateWaitOtherDeviceConfirmation>(json)
    }

    pub fn builder() -> (r: RTDAuthorizationStateWaitOtherDeviceConfirmationBuilder)
        ensures
            r.inner.extra is Some,
            r.inner.link@ == Seq::<char>::empty(),
    {
        RTDAuthorizationStateWaitOtherDeviceConfirmationBuilder {
            inner: AuthorizationStateWaitOtherDeviceConfirmation {
                extra: Some(new_token()),
                link: String::new(),
            },
        }
    }

    pub fn link(&self) -> (r: &String)
        ensures
            *r == self.link,
    {
        &self.link
    }
}

pub struct RTDAuthorizationStateWaitOtherDeviceConfirmationBuilder {
    pub inner: AuthorizationStateWaitOtherDeviceConfirmation,
}

impl RTDAuthorizationStateWaitOtherDeviceConfirmationBuilder {
    pub fn build(&self) -> (r: AuthorizationStateWaitOtherDeviceConfirmation)
        ensures
            r.eqv(self.inner),
    {
        self.inner.clone()
    }

    pub fn link(&mut self, link: String) -> (r: &mut Self)
        ensures
            *r == (RTDAuthorizationStateWaitOtherDeviceConfirmationBuilder { inner: AuthorizationStateWaitOtherDeviceConfirmation { link: link, ..old(self).inner } }),
            *final(self) == *final(r),
    {
        self.inner.link = link;
        self
    }
}
/// The user has been authorized, but needs to enter a password to start using the application
#[derive(Debug, PartialEq)]
pub struct AuthorizationStateWaitPassword {
    pub extra: Option<String>,
    /// Hint for the password; may be empty
    pub password_hint: String,
    /// True, if a recovery email address has been set up
    pub has_recovery_email_address: bool,
    /// Pattern of the email address to which the recovery email was sent; empty until a recovery email has been sent
    pub recovery_email_address_pattern: String,
}

impl AuthorizationStateWaitPassword {
    pub open spec fn tag_spec() -> Seq<char> {
        "authorizationStateWaitPassword"@
    }

    /// The members of the wire object, in the order they are written.
    pub open spec fn members_spec(self) -> Seq<(Seq<char>, SpecJson)> {
        seq![
            ("@type"@, SpecJson::Str(Self::tag_spec())),
            ("@extra"@, opt_str_tree(opt_str_view(self.extra))),
            ("password_hint"@, SpecJson::Str(self.password_hint@)),
            ("has_recovery_email_address"@, SpecJson::Bool(self.has_recovery_email_address)),
            ("recovery_email_address_pattern"@, SpecJson::Str(self.recovery_email_address_pattern@)),
        ]
    }

    pub open spec fn fields_ok(t: SpecJson) -> bool {
        &&& ok_opt_str(t, "@extra"@)
        &&& ok_str(t, "password_hint"@)
        &&& ok_bool(t, "has_recovery_email_address"@)
        &&& ok_str(t, "recovery_email_address_pattern"@)
    }

    pub open spec fn fail_field(t: SpecJson) -> Seq<char> {
        if !ok_opt_str(t, "@extra"@) {
            "@extra"@
        } else if !(ok_str(t, "password_hint"@)) {
            "password_hint"@
        } else if !(ok_bool(t, "has_recovery_email_address"@)) {
            "has_recovery_email_address"@
        } else if !(ok_str(t, "recovery_email_address_pattern"@)) {
            "recovery_email_address_pattern"@
        } else {
            Seq::empty()
        }
    }

    /// The encoding of a value carries exactly this type's tag.
    pub proof fn lemma_wire_tag(v: AuthorizationStateWaitPassword)
        ensures
            v.wire_tree() matches Some(t) ==> tag_of(t) == Some(AuthorizationStateWaitPassword::tag_spec()),
    {
        if v.wire_tree() is Some {
            let t = v.wire_tree()->0;
            let ms = t->Obj_0;
            lemma_get_spec_found(ms, "@type"@, 0);
        }
    }
}

impl Clone for AuthorizationStateWaitPassword {
    fn clone(&self) -> (res: Self)
        ensures
            res.eqv(*self),
    {
        AuthorizationStateWaitPassword {
            extra: clone_opt_string(&self.extra),
            password_hint: self.password_hint.clone(),
            has_recovery_email_address: self.has_recovery_email_address,
            recovery_email_address_pattern: self.recovery_email_address_pattern.clone(),
        }
    }
}

impl Wire for AuthorizationStateWaitPassword {
    open spec fn wire_tree(self) -> Option<SpecJson> {
        Some(SpecJson::Obj(self.members_spec()))
    }

    open spec fn accepts(t: SpecJson) -> bool {
        tag_of(t) is Some && Self::fields_ok(t)
    }

    open spec fn err_of(t: SpecJson) -> SpecDecodeError {
        match tag_of(t) {
            None => SpecDecodeError::Malformed,
            Some(_) => SpecDecodeError::FieldShapeMismatch(Self::tag_spec(), Self::fail_field(t)),
        }
    }

    open spec fn decodes_from(t: SpecJson, v: Self) -> bool {
        &&& m_opt_str(t, "@extra"@, v.extra)
        &&& m_str(t, "password_hint"@, v.password_hint@)
        &&& m_bool(t, "has_recovery_email_address"@, v.has_recovery_email_address)
        &&& m_str(t, "recovery_email_address_pattern"@, v.recovery_email_address_pattern@)
    }

    open spec fn eqv(self, other: Self) -> bool {
        &&& eqv_opt_string(self.extra, other.extra)
        &&& self.password_hint@ == other.password_hint@
        &&& self.has_recovery_email_address == other.has_recovery_email_address
        &&& self.recovery_email_address_pattern@ == other.recovery_email_address_pattern@
    }

    fn clone_val(&self) -> (r: Self) {
        self.clone()
    }

    fn decode_tree(t: &JsonValue) -> (r: Result<Self, DecodeError>) {
        if get_tag(t).is_none() {
            return Err(DecodeError::Malformed);
        }
        let extra = match field_opt_string(t, "@extra") {
            Some(x) => x,
            None => {
                return Err(DecodeError::FieldShapeMismatch(
                    String::from_str("authorizationStateWaitPassword"),
                    String::from_str("@extra"),
                ));
            },
        };
        let password_hint = match field_string(t, "password_hint") {
            Some(x) => x,
            None => {
                return Err(DecodeError::FieldShapeMismatch(
                    String::from_str("authorizationStateWaitPassword"),
                    String::from_str("password_hint"),
                ));
            },
        };
        let has_recovery_email_address = match field_bool(t, "has_recovery_email_address") {
            Some(x) => x,
            None => {
                return Err(DecodeError::FieldShapeMismatch(
                    String::from_str("authorizationStateWaitPassword"),
                    String::from_str("has_recovery_email_address"),
                ));
            },
        };
        let recovery_email_address_pattern = match field_string(t, "recovery_email_address_pattern") {
            Some(x) => x,
            None => {
                return Err(DecodeError::FieldShapeMismatch(
                    String::from_str("authorizationStateWaitPassword"),
                    String::from_str("recovery_email_address_pattern"),
                ));
            },
        };
        Ok(AuthorizationStateWaitPassword { extra, password_hint, has_recovery_email_address, recovery_email_address_pattern })
    }

    fn encode_tree(&self) -> (r: Result<JsonValue, EncodeError>) {
        let mut members: Vec<JsonMember> = Vec::new();
        proof {
            assert(view_members(members@) =~= Seq::<(Seq<char>, SpecJson)>::empty());
        }
        push_member(&mut members, "@type", JsonValue::Str(String::from_str("authorizationStateWaitPassword")));
        push_member(&mut members, "@extra", opt_string_tree(&self.extra));
        push_member(&mut members, "password_hint", JsonValue::Str(self.password_hint.clone()));
        push_member(&mut members, "has_recovery_email_address", JsonValue::Bool(self.has_recovery_email_address));
        push_member(&mut members, "recovery_email_address_pattern", JsonValue::Str(self.recovery_email_address_pattern.clone()));
        let node = JsonValue::Obj(members);
        proof {
            assert(view_members(members@) =~= self.members_spec());
            assert(node@ == self.wire_tree()->0);
        }
        Ok(node)
    }

    proof fn lemma_wire_wf(v: Self) {
        if v.wire_tree() is Some {
            let t = v.wire_tree()->0;
            let ms = t->Obj_0;
            assert(ms == v.members_spec());
            assert forall|i: int| 0 <= i < ms.len() implies wf(#[trigger] ms[i].1) by {
            }
        }
    }

    proof fn lemma_round_trip(v: Self) {
        if v.wire_tree() is Some {
            let t = v.wire_tree()->0;
            let ms = t->Obj_0;
            assert(ms == v.members_spec());
            reveal_strlit("@type");
            reveal_strlit("@extra");
            reveal_strlit("password_hint");
            reveal_strlit("has_recovery_email_address");
            reveal_strlit("recovery_email_address_pattern");
            assert("@type"@.len() == 5);
            assert("@extra"@.len() == 6);
            assert("password_hint"@.len() == 13);
            assert("has_recovery_email_address"@.len() == 26);
            assert("recovery_email_address_pattern"@.len() == 30);
            reveal_with_fuel(get_spec, 7);
            lemma_get_spec_found(ms, "@type"@, 0);
            lemma_get_spec_found(ms, "@extra"@, 1);
            lemma_get_spec_found(ms, "password_hint"@, 2);
            lemma_get_spec_found(ms, "has_recovery_email_address"@, 3);
            lemma_get_spec_found(ms, "recovery_email_address_pattern"@, 4);
            assert(tag_of(t) == Some(Self::tag_spec()));
            assert(ok_opt_str(t, "@extra"@));
            assert(ok_str(t, "password_hint"@));
            assert(ok_bool(t, "has_recovery_email_address"@));
            assert(ok_str(t, "recovery_email_address_pattern"@));
            assert(Self::accepts(t));
            assert forall|w: Self| Self::decodes_from(t, w) implies #[trigger] w.eqv(v) by {
            }
        }
    }
}

impl RObject for AuthorizationStateWaitPassword {
    open spec fn tag_chars(&self) -> Seq<char> {
        Self::tag_spec()
    }

    open spec fn extra_spec(&self) -> Option<Seq<char>> {
        opt_str_view(self.extra)
    }

    fn td_name(&self) -> (r: &'static str) {
        "authorizationStateWaitPassword"
    }

    fn extra(&self) -> (r: Option<String>) {
        clone_opt_string(&self.extra)
    }

    fn to_json(&self) -> (r: Result<String, EncodeError>) {
        crate::object::encode(self)
    }
}

impl TDAuthorizationState for AuthorizationStateWaitPassword {

}

impl AuthorizationStateWaitPassword {
    pub fn from_json(json: &str) -> (r: Result<AuthorizationStateWaitPassword, DecodeError>)
        ensures
            match crate::parse::parse_doc(json@) {
                Some(t) => match r {
                    Ok(v) => Self::accepts(t) && Self::decodes_from(t, v),
                    Err(e) => !Self::accepts(t) && crate::errors::err_matches(e, Self::err_of(t)),
                },
                None => r matches Err(e) && e == DecodeError::Malformed,
            },
    {
        crate::object::from_json::<AuthorizationStateWaitPassword>(json)
    }

    pub fn builder() -> (r: RTDAuthorizationStateWaitPasswordBuilder)
        ensures
            r.inner.extra is Some,
            r.inner.password_hint@ == Seq::<char>::empty(),
            r.inner.has_recovery_email_address == false,
            r.inner.recovery_email_address_pattern@ == Seq::<char>::empty(),
    {
        RTDAuthorizationStateWaitPasswordBuilder {
            inner: AuthorizationStateWaitPassword {
                extra: Some(new_token()),
                password_hint: String::new(),
                has_recovery_email_address: false,
                recovery_email_address_pattern: String::new(),
            },
        }
    }

    pub fn password_hint(&self) -> (r: &String)
        ensures
            *r == self.password_hint,
    {
        &self.password_hint
    }

    pub fn has_recovery_email_address(&self) -> (r: bool)
        ensures
            r == self.has_recovery_email_address,
    {
        self.has_recovery_email_address
    }

    pub fn recovery_email_address_pattern(&self) -> (r: &String)
        ensures
            *r == self.recovery_email_address_pattern,
    {
        &self.recovery_email_address_pattern
    }
}

pub struct RTDAuthorizationStateWaitPasswordBuilder {
    pub inner: AuthorizationStateWaitPassword,
}

impl RTDAuthorizationStateWaitPasswordBuilder {
    pub fn build(&self) -> (r: AuthorizationStateWaitPassword)
        ensures
            r.eqv(self.inner),
    {
        self.inner.clone()
    }

    pub fn password_hint(&mut self, password_hint: String) -> (r: &mut Self)
        ensures
            *r == (RTDAuthorizationStateWaitPasswordBuilder { inner: AuthorizationStateWaitPassword { password_hint: password_hint, ..old(self).inner } }),
            *final(self) == *final(r),
    {
        self.inner.password_hint = password_hint;
        self
    }

    pub fn has_recovery_email_address(&mut self, has_recovery_email_address: bool) -> (r: &mut Self)
        ensures
            *r == (RTDAuthorizationStateWaitPasswordBuilder { inner: AuthorizationStateWaitPassword { has_recovery_email_address: has_recovery_email_address, ..old(self).inner } }),
            *final(self) == *final(r),
    {
        self.inner.has_recovery_email_address = has_recovery_email_address;
        self
    }

    pub fn recovery_email_address_pattern(&mut self, recovery_email_address_pattern: String) -> (r: &mut Self)
        ensures
            *r == (RTDAuthorizationStateWaitPasswordBuilder { inner: AuthorizationStateWaitPassword { recovery_email_address_pattern: recovery_email_address_pattern, ..old(self).inner } }),
            *final(self) == *final(r),
    {
        self.inner.recovery_email_address_pattern = recovery_email_address_pattern;
        self
    }
}
/// TDLib needs the user's phone number to authorize. Call `setAuthenticationPhoneNumber` to provide the phone number, or use `requestQrCodeAuthentication`, or `checkAuthenticationBotToken` for other authentication options
#[derive(Debug, PartialEq)]
pub struct AuthorizationStateWaitPhoneNumber {
    pub extra: Option<String>,
}

impl AuthorizationStateWaitPhoneNumber {
    pub open spec fn tag_spec() -> Seq<char> {
        "authorizationStateWaitPhoneNumber"@
    }

    /// The members of the wire object, in the order they are written.
    pub open spec fn members_spec(self) -> Seq<(Seq<char>, SpecJson)> {
        seq![
            ("@type"@, SpecJson::Str(Self::tag_spec())),
            ("@extra"@, opt_str_tree(opt_str_view(self.extra))),
        ]
    }

    pub open spec fn fields_ok(t: SpecJson) -> bool {
        &&& ok_opt_str(t, "@extra"@)
    }

    pub open spec fn fail_field(t: SpecJson) -> Seq<char> {
        if !ok_opt_str(t, "@extra"@) {
            "@extra"@
        } else {
            Seq::empty()
        }
    }

    /// The encoding of a value carries exactly this type's tag.
    pub proof fn lemma_wire_tag(v: AuthorizationStateWaitPhoneNumber)
        ensures
            v.wire_tree() matches Some(t) ==> tag_of(t) == Some(AuthorizationStateWaitPhoneNumber::tag_spec()),
    {
        if v.wire_tree() is Some {
            let t = v.wire_tree()->0;
            let ms = t->Obj_0;
            lemma_get_spec_found(ms, "@type"@, 0);
        }
    }
}

impl Clone for AuthorizationStateWaitPhoneNumber {
    fn clone(&self) -> (res: Self)
        ensures
            res.eqv(*self),
    {
        AuthorizationStateWaitPhoneNumber {
            extra: clone_opt_string(&self.extra),
        }
    }
}

impl Wire for AuthorizationStateWaitPhoneNumber {
    open spec fn wire_tree(self) -> Option<SpecJson> {
        Some(SpecJson::Obj(self.members_spec()))
    }

    open spec fn accepts(t: SpecJson) -> bool {
        tag_of(t) is Some && Self::fields_ok(t)
    }

    open spec fn err_of(t: SpecJson) -> SpecDecodeError {
        match tag_of(t) {
            None => SpecDecodeError::Malformed,
            Some(_) => SpecDecodeError::FieldShapeMismatch(Self::tag_spec(), Self::fail_field(t)),
        }
    }

    open spec fn decodes_from(t: SpecJson, v: Self) -> bool {
        &&& m_opt_str(t, "@extra"@, v.extra)
    }

    open spec fn eqv(self, other: Self) -> bool {
        &&& eqv_opt_string(self.extra, other.extra)
    }

    fn clone_val(&self) -> (r: Self) {
        self.clone()
    }

    fn decode_tree(t: &JsonValue) -> (r: Result<Self, DecodeError>) {
        if get_tag(t).is_none() {
            return Err(DecodeError::Malformed);
        }
        let extra = match field_opt_string(t, "@extra") {
            Some(x) => x,
            None => {
                return Err(DecodeError::FieldShapeMismatch(
                    String::from_str("authorizationStateWaitPhoneNumber"),
                    String::from_str("@extra"),
                ));
            },
        };
        Ok(AuthorizationStateWaitPhoneNumber { extra })
    }

    fn encode_tree(&self) -> (r: Result<JsonValue, EncodeError>) {
        let mut members: Vec<JsonMember> = Vec::new();
        proof {
            assert(view_members(members@) =~= Seq::<(Seq<char>, SpecJson)>::empty());
        }
        push_member(&mut members, "@type", JsonValue::Str(String::from_str("authorizationStateWaitPhoneNumber")));
        push_member(&mut members, "@extra", opt_string_tree(&self.extra));
        let node = JsonValue::Obj(members);
        proof {
            assert(view_members(members@) =~= self.members_spec());
            assert(node@ == self.wire_tree()->0);
        }
        Ok(node)
    }

    proof fn lemma_wire_wf(v: Self) {
        if v.wire_tree() is Some {
            let t = v.wire_tree()->0;
            let ms = t->Obj_0;
            assert(ms == v.members_spec());
            assert forall|i: int| 0 <= i < ms.len() implies wf(#[trigger] ms[i].1) by {
            }
        }
    }

    proof fn lemma_round_trip(v: Self) {
        if v.wire_tree() is Some {
            let t = v.wire_tree()->0;
            let ms = t->Obj_0;
            assert(ms == v.members_spec());
            reveal_strlit("@type");
            reveal_strlit("@extra");
            assert("@type"@.len() == 5);
            assert("@extra"@.len() == 6);
            reveal_with_fuel(get_spec, 4);
            lemma_get_spec_found(ms, "@type"@, 0);
            lemma_get_spec_found(ms, "@extra"@, 1);
            assert(tag_of(t) == Some(Self::tag_spec()));
            assert(ok_opt_str(t, "@extra"@));
            assert(Self::accepts(t));
            assert forall|w: Self| Self::decodes_from(t, w) implies #[trigger] w.eqv(v) by {
            }
        }
    }
}

impl RObject for AuthorizationStateWaitPhoneNumber {
    open spec fn tag_chars(&self) -> Seq<char> {
        Self::tag_spec()
    }

    open spec fn extra_spec(&self) -> Option<Seq<char>> {
        opt_str_view(self.extra)
    }

    fn td_name(&self) -> (r: &'static str) {
        "authorizationStateWaitPhoneNumber"
    }

    fn extra(&self) -> (r: Option<String>) {
        clone_opt_string(&self.extra)
    }

    fn to_json(&self) -> (r: Result<String, EncodeError>) {
        crate::object::encode(self)
    }
}

impl TDAuthorizationState for AuthorizationStateWaitPhoneNumber {

}

impl AuthorizationStateWaitPhoneNumber {
    pub fn from_json(json: &str) -> (r: Result<AuthorizationStateWaitPhoneNumber, DecodeError>)
        ensures
            match crate::parse::parse_doc(json@) {
                Some(t) => match r {
                    Ok(v) => Self::accepts(t) && Self::decodes_from(t, v),
                    Err(e) => !Self::accepts(t) && crate::errors::err_matches(e, Self::err_of(t)),
                },
                None => r matches Err(e) && e == DecodeError::Malformed,
            },
    {
        crate::object::from_json::<AuthorizationStateWaitPhoneNumber>(json)
    }

    pub fn builder() -> (r: RTDAuthorizationStateWaitPhoneNumberBuilder)
        ensures
            r.inner.extra is Some,
    {
        RTDAuthorizationStateWaitPhoneNumberBuilder {
            inner: AuthorizationStateWaitPhoneNumber {
                extra: Some(new_token()),
            },
        }
    }
}

pub struct RTDAuthorizationStateWaitPhoneNumberBuilder {
    pub inner: AuthorizationStateWaitPhoneNumber,
}

impl RTDAuthorizationStateWaitPhoneNumberBuilder {
    pub fn build(&self) -> (r: AuthorizationStateWaitPhoneNumber)
        ensures
            r.eqv(self.inner),
    {
        self.inner.clone()
    }
}
/// The user is unregistered and need to accept terms of service and enter their first name and last name to finish registration
#[derive(Debug, PartialEq)]
pub struct AuthorizationStateWaitRegistration {
    pub extra: Option<String>,
}

impl AuthorizationStateWaitRegistration {
    pub open spec fn tag_spec() -> Seq<char> {
        "authorizationStateWaitRegistration"@
    }

    /// The members of the wire object, in the order they are written.
    pub open spec fn members_spec(self) -> Seq<(Seq<char>, SpecJson)> {
        seq![
            ("@type"@, SpecJson::Str(Self::tag_spec())),
            ("@extra"@, opt_str_tree(opt_str_view(self.extra))),
        ]
    }

    pub open spec fn fields_ok(t: SpecJson) -> bool {
        &&& ok_opt_str(t, "@extra"@)
    }

    pub open spec fn fail_field(t: SpecJson) -> Seq<char> {
        if !ok_opt_str(t, "@extra"@) {
            "@extra"@
        } else {
            Seq::empty()
        }
    }

    /// The encoding of a value carries exactly this type's tag.
    pub proof fn lemma_wire_tag(v: AuthorizationStateWaitRegistration)
        ensures
            v.wire_tree() matches Some(t) ==> tag_of(t) == Some(AuthorizationStateWaitRegistration::tag_spec()),
    {
        if v.wire_tree() is Some {
            let t = v.wire_tree()->0;
            let ms = t->Obj_0;
            lemma_get_spec_found(ms, "@type"@, 0);
        }
    }
}

impl Clone for AuthorizationStateWaitRegistration {
    fn clone(&self) -> (res: Self)
        ensures
            res.eqv(*self),
    {
        AuthorizationStateWaitRegistration {
            extra: clone_opt_string(&self.extra),
        }
    }
}

impl Wire for AuthorizationStateWaitRegistration {
    open spec fn wire_tree(self) -> Option<SpecJson> {
        Some(SpecJson::Obj(self.members_spec()))
    }

    open spec fn accepts(t: SpecJson) -> bool {
        tag_of(t) is Some && Self::fields_ok(t)
    }

    open spec fn err_of(t: SpecJson) -> SpecDecodeError {
        match tag_of(t) {
            None => SpecDecodeError::Malformed,
            Some(_) => SpecDecodeError::FieldShapeMismatch(Self::tag_spec(), Self::fail_field(t)),
        }
    }

    open spec fn decodes_from(t: SpecJson, v: Self) -> bool {
        &&& m_opt_str(t, "@extra"@, v.extra)
    }

    open spec fn eqv(self, other: Self) -> bool {
        &&& eqv_opt_string(self.extra, other.extra)
    }

    fn clone_val(&self) -> (r: Self) {
        self.clone()
    }

    fn decode_tree(t: &JsonValue) -> (r: Result<Self, DecodeError>) {
        if get_tag(t).is_none() {
            return Err(DecodeError::Malformed);
        }
        let extra = match field_opt_string(t, "@extra") {
            Some(x) => x,
            None => {
                return Err(DecodeError::FieldShapeMismatch(
                    String::from_str("authorizationStateWaitRegistration"),
                    String::from_str("@extra"),
                ));
            },
        };
        Ok(AuthorizationStateWaitRegistration { extra })
    }

    fn encode_tree(&self) -> (r: Result<JsonValue, EncodeError>) {
        let mut members: Vec<JsonMember> = Vec::new();
        proof {
            assert(view_members(members@) =~= Seq::<(Seq<char>, SpecJson)>::empty());
        }
        push_member(&mut members, "@type", JsonValue::Str(String::from_str("authorizationStateWaitRegistration")));
        push_member(&mut members, "@extra", opt_string_tree(&self.extra));
        let node = JsonValue::Obj(members);
        proof {
            assert(view_members(members@) =~= self.members_spec());
            assert(node@ == self.wire_tree()->0);
        }
        Ok(node)
    }

    proof fn lemma_wire_wf(v: Self) {
        if v.wire_tree() is Some {
            let t = v.wire_tree()->0;
            let ms = t->Obj_0;
            assert(ms == v.members_spec());
            assert forall|i: int| 0 <= i < ms.len() implies wf(#[trigger] ms[i].1) by {
            }
        }
    }

    proof fn lemma_round_trip(v: Self) {
        if v.wire_tree() is Some {
            let t = v.wire_tree()->0;
            let ms = t->Obj_0;
            assert(ms == v.members_spec());
            reveal_strlit("@type");
            reveal_strlit("@extra");
            assert("@type"@.len() == 5);
            assert("@extra"@.len() == 6);
            reveal_with_fuel(get_spec, 4);
            lemma_get_spec_found(ms, "@type"@, 0);
            lemma_get_spec_found(ms, "@extra"@, 1);
            assert(tag_of(t) == Some(Self::tag_spec()));
            assert(ok_opt_str(t, "@extra"@));
            assert(Self::accepts(t));
            assert forall|w: Self| Self::decodes_from(t, w) implies #[trigger] w.eqv(v) by {
            }
        }
    }
}

impl RObject for AuthorizationStateWaitRegistration {
    open spec fn tag_chars(&self) -> Seq<char> {
        Self::tag_spec()
    }

    open spec fn extra_spec(&self) -> Option<Seq<char>> {
        opt_str_view(self.extra)
    }

    fn td_name(&self) -> (r: &'static str) {
        "authorizationStateWaitRegistration"
    }

    fn extra(&self) -> (r: Option<String>) {
        clone_opt_string(&self.extra)
    }

    fn to_json(&self) -> (r: Result<String, EncodeError>) {
        crate::object::encode(self)
    }
}

impl TDAuthorizationState for AuthorizationStateWaitRegistration {

}

impl AuthorizationStateWaitRegistration {
    pub fn from_json(json: &str) -> (r: Result<AuthorizationStateWaitRegistration, DecodeError>)
        ensures
            match crate::parse::parse_doc(json@) {
                Some(t) => match r {
                    Ok(v) => Self::accepts(t) && Self::decodes_from(t, v),
                    Err(e) => !Self::accepts(t) && crate::errors::err_matches(e, Self::err_of(t)),
                },
                None => r matches Err(e) && e == DecodeError::Malformed,
            },
    {
        crate::object::from_json::<AuthorizationStateWaitRegistration>(json)
    }

    pub fn builder() -> (r: RTDAuthorizationStateWaitRegistrationBuilder)
        ensures
            r.inner.extra is Some,
    {
        RTDAuthorizationStateWaitRegistrationBuilder {
            inner: AuthorizationStateWaitRegistration {
                extra: Some(new_token()),
            },
        }
    }
}

pub struct RTDAuthorizationStateWaitRegistrationBuilder {
    pub inner: AuthorizationStateWaitRegistration,
}

impl RTDAuthorizationStateWaitRegistrationBuilder {
    pub fn build(&self) -> (r: AuthorizationStateWaitRegistration)
        ensures
            r.eqv(self.inner),
    {
        self.inner.clone()
    }
}
/// TDLib needs TdlibParameters for initialization
#[derive(Debug, PartialEq)]
pub struct AuthorizationStateWaitTdlibParameters {
    pub extra: Option<String>,
}

impl AuthorizationStateWaitTdlibParameters {
    pub open spec fn tag_spec() -> Seq<char> {
        "authorizationStateWaitTdlibParameters"@
    }

    /// The members of the wire object, in the order they are written.
    pub open spec fn members_spec(self) -> Seq<(Seq<char>, SpecJson)> {
        seq![
            ("@type"@, SpecJson::Str(Self::tag_spec())),
            ("@extra"@, opt_str_tree(opt_str_view(self.extra))),
        ]
    }

    pub open spec fn fields_ok(t: SpecJson) -> bool {
        &&& ok_opt_str(t, "@extra"@)
    }

    pub open spec fn fail_field(t: SpecJson) -> Seq<char> {
        if !ok_opt_str(t, "@extra"@) {
            "@extra"@
        } else {
            Seq::empty()
        }
    }

    /// The encoding of a value carries exactly this type's tag.
    pub proof fn lemma_wire_tag(v: AuthorizationStateWaitTdlibParameters)
        ensures
            v.wire_tree() matches Some(t) ==> tag_of(t) == Some(AuthorizationStateWaitTdlibParameters::tag_spec()),
    {
        if v.wire_tree() is Some {
            let t = v.wire_tree()->0;
            let ms = t->Obj_0;
            lemma_get_spec_found(ms, "@type"@, 0);
        }
    }
}

impl Clone for AuthorizationStateWaitTdlibParameters {
    fn clone(&self) -> (res: Self)
        ensures
            res.eqv(*self),
    {
        AuthorizationStateWaitTdlibParameters {
            extra: clone_opt_string(&self.extra),
        }
    }
}

impl Wire for AuthorizationStateWaitTdlibParameters {
    open spec fn wire_tree(self) -> Option<SpecJson> {
        Some(SpecJson::Obj(self.members_spec()))
    }

    open spec fn accepts(t: SpecJson) -> bool {
        tag_of(t) is Some && Self::fields_ok(t)
    }

    open spec fn err_of(t: SpecJson) -> SpecDecodeError {
        match tag_of(t) {
            None => SpecDecodeError::Malformed,
            Some(_) => SpecDecodeError::FieldShapeMismatch(Self::tag_spec(), Self::fail_field(t)),
        }
    }

    open spec fn decodes_from(t: SpecJson, v: Self) -> bool {
        &&& m_opt_str(t, "@extra"@, v.extra)
    }

    open spec fn eqv(self, other: Self) -> bool {
        &&& eqv_opt_string(self.extra, other.extra)
    }

    fn clone_val(&self) -> (r: Self) {
        self.clone()
    }

    fn decode_tree(t: &JsonValue) -> (r: Result<Self, DecodeError>) {
        if get_tag(t).is_none() {
            return Err(DecodeError::Malformed);
        }
        let extra = match field_opt_string(t, "@extra") {
            Some(x) => x,
            None => {
                return Err(DecodeError::FieldShapeMismatch(
                    String::from_str("authorizationStateWaitTdlibParameters"),
                    String::from_str("@extra"),
                ));
            },
        };
        Ok(AuthorizationStateWaitTdlibParameters { extra })
    }

    fn encode_tree(&self) -> (r: Result<JsonValue, EncodeError>) {
        let mut members: Vec<JsonMember> = Vec::new();
        proof {
            assert(view_members(members@) =~= Seq::<(Seq<char>, SpecJson)>::empty());
        }
        push_member(&mut members, "@type", JsonValue::Str(String::from_str("authorizationStateWaitTdlibParameters")));
        push_member(&mut members, "@extra", opt_string_tree(&self.extra));
        let node = JsonValue::Obj(members);
        proof {
            assert(view_members(members@) =~= self.members_spec());
            assert(node@ == self.wire_tree()->0);
        }
        Ok(node)
    }

    proof fn lemma_wire_wf(v: Self) {
        if v.wire_tree() is Some {
            let t = v.wire_tree()->0;
            let ms = t->Obj_0;
            assert(ms == v.members_spec());
            assert forall|i: int| 0 <= i < ms.len() implies wf(#[trigger] ms[i].1) by {
            }
        }
    }

    proof fn lemma_round_trip(v: Self) {
        if v.wire_tree() is Some {
            let t = v.wire_tree()->0;
            let ms = t->Obj_0;
            assert(ms == v.members_spec());
            reveal_strlit("@type");
            reveal_strlit("@extra");
            assert("@type"@.len() == 5);
            assert("@extra"@.len() == 6);
            reveal_with_fuel(get_spec, 4);
            lemma_get_spec_found(ms, "@type"@, 0);
            lemma_get_spec_found(ms, "@extra"@, 1);
            assert(tag_of(t) == Some(Self::tag_spec()));
            assert(ok_opt_str(t, "@extra"@));
            assert(Self::accepts(t));
            assert forall|w: Self| Self::decodes_from(t, w) implies #[trigger] w.eqv(v) by {
            }
        }
    }
}

impl RObject for AuthorizationStateWaitTdlibParameters {
    open spec fn tag_chars(&self) -> Seq<char> {
        Self::tag_spec()
    }

    open spec fn extra_spec(&self) -> Option<Seq<char>> {
        opt_str_view(self.extra)
    }

    fn td_name(&self) -> (r: &'static str) {
        "authorizationStateWaitTdlibParameters"
    }

    fn extra(&self) -> (r: Option<String>) {
        clone_opt_string(&self.extra)
    }

    fn to_json(&self) -> (r: Result<String, EncodeError>) {
        crate::object::encode(self)
    }
}

impl TDAuthorizationState for AuthorizationStateWaitTdlibParameters {

}

impl AuthorizationStateWaitTdlibParameters {
    pub fn from_json(json: &str) -> (r: Result<AuthorizationStateWaitTdlibParameters, DecodeError>)
        ensures
            match crate::parse::parse_doc(json@) {
                Some(t) => match r {
                    Ok(v) => Self::accepts(t) && Self::decodes_from(t, v),
                    Err(e) => !Self::accepts(t) && crate::errors::err_matches(e, Self::err_of(t)),
                },
                None => r matches Err(e) && e == DecodeError::Malformed,
            },
    {
        crate::object::from_json::<AuthorizationStateWaitTdlibParameters>(json)
    }

    pub fn builder() -> (r: RTDAuthorizationStateWaitTdlibParametersBuilder)
        ensures
            r.inner.extra is Some,
    {
        RTDAuthorizationStateWaitTdlibParametersBuilder {
            inner: AuthorizationStateWaitTdlibParameters {
                extra: Some(new_token()),
            },
        }
    }
}

pub struct RTDAuthorizationStateWaitTdlibParametersBuilder {
    pub inner: AuthorizationStateWaitTdlibParameters,
}

impl RTDAuthorizationStateWaitTdlibParametersBuilder {
    pub fn build(&self) -> (r: AuthorizationStateWaitTdlibParameters)
        ensures
            r.eqv(self.inner),
    {
        self.inner.clone()
    }
}
} // verus!
