use vstd::prelude::*;

use crate::errors::DecodeError;
use crate::errors::EncodeError;
use crate::errors::SpecDecodeError;
use crate::json::JsonMember;
use crate::json::JsonValue;
use crate::json::SpecJson;
use crate::json::view_members;
use crate::json::wf;
use crate::object::RObject;
use crate::object::Wire;
use crate::object::clone_opt_string;
use crate::object::eqv_opt_string;
use crate::object::field_bool;
use crate::object::field_opt_string;
use crate::object::field_string;
use crate::object::get_spec;
use crate::object::get_tag;
use crate::object::lemma_get_spec_found;
use crate::object::m_bool;
use crate::object::m_opt_str;
use crate::object::m_str;
use crate::object::new_token;
use crate::object::ok_bool;
use crate::object::ok_opt_str;
use crate::object::ok_str;
use crate::object::opt_str_tree;
use crate::object::opt_str_view;
use crate::object::opt_string_tree;
use crate::object::push_member;
use crate::object::str_eq;
use crate::object::tag_of;

verus! {

/// Represents a data needed to subscribe for push notifications through registerDevice method. To use specific push notification service, the correct application platform must be specified and a valid server authentication data must be uploaded at https://my.telegram.org
pub trait TDDeviceToken: RObject {

}

/// Represents a data needed to subscribe for push notifications through registerDevice method. To use specific push notification service, the correct application platform must be specified and a valid server authentication data must be uploaded at https://my.telegram.org
#[derive(Debug, PartialEq)]
pub enum DeviceToken {
    _Default(()),
    /// A token for Apple Push Notification service
    ApplePush(DeviceTokenApplePush),
    /// A token for Apple Push Notification service VoIP notifications
    ApplePushVoIP(DeviceTokenApplePushVoIP),
    /// A token for BlackBerry Push Service
    BlackBerryPush(DeviceTokenBlackBerryPush),
    /// A token for Firebase Cloud Messaging
    FirebaseCloudMessaging(DeviceTokenFirebaseCloudMessaging),
    /// A token for Microsoft Push Notification Service
    MicrosoftPush(DeviceTokenMicrosoftPush),
    /// A token for Microsoft Push Notification Service VoIP channel
    MicrosoftPushVoIP(DeviceTokenMicrosoftPushVoIP),
    /// A token for Simple Push API for Firefox OS
    SimplePush(DeviceTokenSimplePush),
    /// A token for Tizen Push Service
    TizenPush(DeviceTokenTizenPush),
    /// A token for Ubuntu Push Client service
    UbuntuPush(DeviceTokenUbuntuPush),
    /// A token for web Push API
    WebPush(DeviceTokenWebPush),
    /// A token for Windows Push Notification Services
    WindowsPush(DeviceTokenWindowsPush),
}

impl Clone for DeviceToken {
    fn clone(&self) -> (res: Self)
        ensures
            res.eqv(*self),
    {
        match self {
            DeviceToken::_Default(_) => DeviceToken::_Default(()),
            DeviceToken::ApplePush(x) => DeviceToken::ApplePush(x.clone()),
            DeviceToken::ApplePushVoIP(x) => DeviceToken::ApplePushVoIP(x.clone()),
            DeviceToken::BlackBerryPush(x) => DeviceToken::BlackBerryPush(x.clone()),
            DeviceToken::FirebaseCloudMessaging(x) => DeviceToken::FirebaseCloudMessaging(x.clone()),
            DeviceToken::MicrosoftPush(x) => DeviceToken::MicrosoftPush(x.clone()),
            DeviceToken::MicrosoftPushVoIP(x) => DeviceToken::MicrosoftPushVoIP(x.clone()),
            DeviceToken::SimplePush(x) => DeviceToken::SimplePush(x.clone()),
            DeviceToken::TizenPush(x) => DeviceToken::TizenPush(x.clone()),
            DeviceToken::UbuntuPush(x) => DeviceToken::UbuntuPush(x.clone()),
            DeviceToken::WebPush(x) => DeviceToken::WebPush(x.clone()),
            DeviceToken::WindowsPush(x) => DeviceToken::WindowsPush(x.clone()),
        }
    }
}

impl DeviceToken {
    /// The tags of this variant's alternatives are pairwise distinct.
    pub proof fn lemma_tags_distinct()
        ensures
            "deviceTokenApplePush"@ != "deviceTokenApplePushVoIP"@,
            "deviceTokenApplePush"@ != "deviceTokenBlackBerryPush"@,
            "deviceTokenApplePush"@ != "deviceTokenFirebaseCloudMessaging"@,
            "deviceTokenApplePush"@ != "deviceTokenMicrosoftPush"@,
            "deviceTokenApplePush"@ != "deviceTokenMicrosoftPushVoIP"@,
            "deviceTokenApplePush"@ != "deviceTokenSimplePush"@,
            "deviceTokenApplePush"@ != "deviceTokenTizenPush"@,
            "deviceTokenApplePush"@ != "deviceTokenUbuntuPush"@,
            "deviceTokenApplePush"@ != "deviceTokenWebPush"@,
            "deviceTokenApplePush"@ != "deviceTokenWindowsPush"@,
            "deviceTokenApplePushVoIP"@ != "deviceTokenBlackBerryPush"@,
            "deviceTokenApplePushVoIP"@ != "deviceTokenFirebaseCloudMessaging"@,
            "deviceTokenApplePushVoIP"@ != "deviceTokenMicrosoftPush"@,
            "deviceTokenApplePushVoIP"@ != "deviceTokenMicrosoftPushVoIP"@,
            "deviceTokenApplePushVoIP"@ != "deviceTokenSimplePush"@,
            "deviceTokenApplePushVoIP"@ != "deviceTokenTizenPush"@,
            "deviceTokenApplePushVoIP"@ != "deviceTokenUbuntuPush"@,
            "deviceTokenApplePushVoIP"@ != "deviceTokenWebPush"@,
            "deviceTokenApplePushVoIP"@ != "deviceTokenWindowsPush"@,
            "deviceTokenBlackBerryPush"@ != "deviceTokenFirebaseCloudMessaging"@,
            "deviceTokenBlackBerryPush"@ != "deviceTokenMicrosoftPush"@,
            "deviceTokenBlackBerryPush"@ != "deviceTokenMicrosoftPushVoIP"@,
            "deviceTokenBlackBerryPush"@ != "deviceTokenSimplePush"@,
            "deviceTokenBlackBerryPush"@ != "deviceTokenTizenPush"@,
            "deviceTokenBlackBerryPush"@ != "deviceTokenUbuntuPush"@,
            "deviceTokenBlackBerryPush"@ != "deviceTokenWebPush"@,
            "deviceTokenBlackBerryPush"@ != "deviceTokenWindowsPush"@,
            "deviceTokenFirebaseCloudMessaging"@ != "deviceTokenMicrosoftPush"@,
            "deviceTokenFirebaseCloudMessaging"@ != "deviceTokenMicrosoftPushVoIP"@,
            "deviceTokenFirebaseCloudMessaging"@ != "deviceTokenSimplePush"@,
            "deviceTokenFirebaseCloudMessaging"@ != "deviceTokenTizenPush"@,
            "deviceTokenFirebaseCloudMessaging"@ != "deviceTokenUbuntuPush"@,
            "deviceTokenFirebaseCloudMessaging"@ != "deviceTokenWebPush"@,
            "deviceTokenFirebaseCloudMessaging"@ != "deviceTokenWindowsPush"@,
            "deviceTokenMicrosoftPush"@ != "deviceTokenMicrosoftPushVoIP"@,
            "deviceTokenMicrosoftPush"@ != "deviceTokenSimplePush"@,
            "deviceTokenMicrosoftPush"@ != "deviceTokenTizenPush"@,
            "deviceTokenMicrosoftPush"@ != "deviceTokenUbuntuPush"@,
            "deviceTokenMicrosoftPush"@ != "deviceTokenWebPush"@,
            "deviceTokenMicrosoftPush"@ != "deviceTokenWindowsPush"@,
            "deviceTokenMicrosoftPushVoIP"@ != "deviceTokenSimplePush"@,
            "deviceTokenMicrosoftPushVoIP"@ != "deviceTokenTizenPush"@,
            "deviceTokenMicrosoftPushVoIP"@ != "deviceTokenUbuntuPush"@,
            "deviceTokenMicrosoftPushVoIP"@ != "deviceTokenWebPush"@,
            "deviceTokenMicrosoftPushVoIP"@ != "deviceTokenWindowsPush"@,
            "deviceTokenSimplePush"@ != "deviceTokenTizenPush"@,
            "deviceTokenSimplePush"@ != "deviceTokenUbuntuPush"@,
            "deviceTokenSimplePush"@ != "deviceTokenWebPush"@,
            "deviceTokenSimplePush"@ != "deviceTokenWindowsPush"@,
            "deviceTokenTizenPush"@ != "deviceTokenUbuntuPush"@,
            "deviceTokenTizenPush"@ != "deviceTokenWebPush"@,
            "deviceTokenTizenPush"@ != "deviceTokenWindowsPush"@,
            "deviceTokenUbuntuPush"@ != "deviceTokenWebPush"@,
            "deviceTokenUbuntuPush"@ != "deviceTokenWindowsPush"@,
            "deviceTokenWebPush"@ != "deviceTokenWindowsPush"@,
    {
        reveal_strlit("deviceTokenApplePush");
        reveal_strlit("deviceTokenApplePushVoIP");
        reveal_strlit("deviceTokenBlackBerryPush");
        reveal_strlit("deviceTokenFirebaseCloudMessaging");
        reveal_strlit("deviceTokenMicrosoftPush");
        reveal_strlit("deviceTokenMicrosoftPushVoIP");
        reveal_strlit("deviceTokenSimplePush");
        reveal_strlit("deviceTokenTizenPush");
        reveal_strlit("deviceTokenUbuntuPush");
        reveal_strlit("deviceTokenWebPush");
        reveal_strlit("deviceTokenWindowsPush");
        assert("deviceTokenApplePush"@.len() == 20);
        assert("deviceTokenApplePushVoIP"@.len() == 24);
        assert("deviceTokenBlackBerryPush"@.len() == 25);
        assert("deviceTokenFirebaseCloudMessaging"@.len() == 33);
        assert("deviceTokenMicrosoftPush"@.len() == 24);
        assert("deviceTokenMicrosoftPushVoIP"@.len() == 28);
        assert("deviceTokenSimplePush"@.len() == 21);
        assert("deviceTokenTizenPush"@.len() == 20);
        assert("deviceTokenUbuntuPush"@.len() == 21);
        assert("deviceTokenWebPush"@.len() == 18);
        assert("deviceTokenWindowsPush"@.len() == 22);
        assert("deviceTokenApplePush"@[11] == 'A' && "deviceTokenTizenPush"@[11] == 'T');
        assert("deviceTokenApplePushVoIP"@[11] == 'A' && "deviceTokenMicrosoftPush"@[11] == 'M');
        assert("deviceTokenSimplePush"@[11] == 'S' && "deviceTokenUbuntuPush"@[11] == 'U');
    }
}

impl Wire for DeviceToken {
    open spec fn wire_tree(self) -> Option<SpecJson> {
        match self {
            DeviceToken::_Default(_) => None,
            DeviceToken::ApplePush(x) => x.wire_tree(),
            DeviceToken::ApplePushVoIP(x) => x.wire_tree(),
            DeviceToken::BlackBerryPush(x) => x.wire_tree(),
            DeviceToken::FirebaseCloudMessaging(x) => x.wire_tree(),
            DeviceToken::MicrosoftPush(x) => x.wire_tree(),
            DeviceToken::MicrosoftPushVoIP(x) => x.wire_tree(),
            DeviceToken::SimplePush(x) => x.wire_tree(),
            DeviceToken::TizenPush(x) => x.wire_tree(),
            DeviceToken::UbuntuPush(x) => x.wire_tree(),
            DeviceToken::WebPush(x) => x.wire_tree(),
            DeviceToken::WindowsPush(x) => x.wire_tree(),
        }
    }

    open spec fn accepts(t: SpecJson) -> bool {
        match tag_of(t) {
            None => false,
            Some(g) => {
                if g == DeviceTokenApplePush::tag_spec() {
                    DeviceTokenApplePush::accepts(t)
                } else if g == DeviceTokenApplePushVoIP::tag_spec() {
                    DeviceTokenApplePushVoIP::accepts(t)
                } else if g == DeviceTokenBlackBerryPush::tag_spec() {
                    DeviceTokenBlackBerryPush::accepts(t)
                } else if g == DeviceTokenFirebaseCloudMessaging::tag_spec() {
                    DeviceTokenFirebaseCloudMessaging::accepts(t)
                } else if g == DeviceTokenMicrosoftPush::tag_spec() {
                    DeviceTokenMicrosoftPush::accepts(t)
                } else if g == DeviceTokenMicrosoftPushVoIP::tag_spec() {
                    DeviceTokenMicrosoftPushVoIP::accepts(t)
                } else if g == DeviceTokenSimplePush::tag_spec() {
                    DeviceTokenSimplePush::accepts(t)
                } else if g == DeviceTokenTizenPush::tag_spec() {
                    DeviceTokenTizenPush::accepts(t)
                } else if g == DeviceTokenUbuntuPush::tag_spec() {
                    DeviceTokenUbuntuPush::accepts(t)
                } else if g == DeviceTokenWebPush::tag_spec() {
                    DeviceTokenWebPush::accepts(t)
                } else if g == DeviceTokenWindowsPush::tag_spec() {
                    DeviceTokenWindowsPush::accepts(t)
                } else {
                    false
                }
            },
        }
    }

    open spec fn err_of(t: SpecJson) -> SpecDecodeError {
        match tag_of(t) {
            None => SpecDecodeError::Malformed,
            Some(g) => {
                if g == DeviceTokenApplePush::tag_spec() {
                    DeviceTokenApplePush::err_of(t)
                } else if g == DeviceTokenApplePushVoIP::tag_spec() {
                    DeviceTokenApplePushVoIP::err_of(t)
                } else if g == DeviceTokenBlackBerryPush::tag_spec() {
                    DeviceTokenBlackBerryPush::err_of(t)
                } else if g == DeviceTokenFirebaseCloudMessaging::tag_spec() {
                    DeviceTokenFirebaseCloudMessaging::err_of(t)
                } else if g == DeviceTokenMicrosoftPush::tag_spec() {
                    DeviceTokenMicrosoftPush::err_of(t)
                } else if g == DeviceTokenMicrosoftPushVoIP::tag_spec() {
                    DeviceTokenMicrosoftPushVoIP::err_of(t)
                } else if g == DeviceTokenSimplePush::tag_spec() {
                    DeviceTokenSimplePush::err_of(t)
                } else if g == DeviceTokenTizenPush::tag_spec() {
                    DeviceTokenTizenPush::err_of(t)
                } else if g == DeviceTokenUbuntuPush::tag_spec() {
                    DeviceTokenUbuntuPush::err_of(t)
                } else if g == DeviceTokenWebPush::tag_spec() {
                    DeviceTokenWebPush::err_of(t)
                } else if g == DeviceTokenWindowsPush::tag_spec() {
                    DeviceTokenWindowsPush::err_of(t)
                } else {
                    SpecDecodeError::UnrecognizedVariant(g)
                }
            },
        }
    }

    open spec fn decodes_from(t: SpecJson, v: Self) -> bool {
        match tag_of(t) {
            None => false,
            Some(g) => {
                if g == DeviceTokenApplePush::tag_spec() {
                    v matches DeviceToken::ApplePush(x) && DeviceTokenApplePush::decodes_from(t, x)
                } else if g == DeviceTokenApplePushVoIP::tag_spec() {
                    v matches DeviceToken::ApplePushVoIP(x) && DeviceTokenApplePushVoIP::decodes_from(t, x)
                } else if g == DeviceTokenBlackBerryPush::tag_spec() {
                    v matches DeviceToken::BlackBerryPush(x) && DeviceTokenBlackBerryPush::decodes_from(t, x)
                } else if g == DeviceTokenFirebaseCloudMessaging::tag_spec() {
                    v matches DeviceToken::FirebaseCloudMessaging(x) && DeviceTokenFirebaseCloudMessaging::decodes_from(t, x)
                } else if g == DeviceTokenMicrosoftPush::tag_spec() {
                    v matches DeviceToken::MicrosoftPush(x) && DeviceTokenMicrosoftPush::decodes_from(t, x)
                } else if g == DeviceTokenMicrosoftPushVoIP::tag_spec() {
                    v matches DeviceToken::MicrosoftPushVoIP(x) && DeviceTokenMicrosoftPushVoIP::decodes_from(t, x)
                } else if g == DeviceTokenSimplePush::tag_spec() {
                    v matches DeviceToken::SimplePush(x) && DeviceTokenSimplePush::decodes_from(t, x)
                } else if g == DeviceTokenTizenPush::tag_spec() {
                    v matches DeviceToken::TizenPush(x) && DeviceTokenTizenPush::decodes_from(t, x)
                } else if g == DeviceTokenUbuntuPush::tag_spec() {
                    v matches DeviceToken::UbuntuPush(x) && DeviceTokenUbuntuPush::decodes_from(t, x)
                } else if g == DeviceTokenWebPush::tag_spec() {
                    v matches DeviceToken::WebPush(x) && DeviceTokenWebPush::decodes_from(t, x)
                } else if g == DeviceTokenWindowsPush::tag_spec() {
                    v matches DeviceToken::WindowsPush(x) && DeviceTokenWindowsPush::decodes_from(t, x)
                } else {
                    false
                }
            },
        }
    }

    open spec fn eqv(self, other: Self) -> bool {
        match (self, other) {
            (DeviceToken::_Default(_), DeviceToken::_Default(_)) => true,
            (DeviceToken::ApplePush(a), DeviceToken::ApplePush(b)) => a.eqv(b),
            (DeviceToken::ApplePushVoIP(a), DeviceToken::ApplePushVoIP(b)) => a.eqv(b),
            (DeviceToken::BlackBerryPush(a), DeviceToken::BlackBerryPush(b)) => a.eqv(b),
            (DeviceToken::FirebaseCloudMessaging(a), DeviceToken::FirebaseCloudMessaging(b)) => a.eqv(b),
            (DeviceToken::MicrosoftPush(a), DeviceToken::MicrosoftPush(b)) => a.eqv(b),
            (DeviceToken::MicrosoftPushVoIP(a), DeviceToken::MicrosoftPushVoIP(b)) => a.eqv(b),
            (DeviceToken::SimplePush(a), DeviceToken::SimplePush(b)) => a.eqv(b),
            (DeviceToken::TizenPush(a), DeviceToken::TizenPush(b)) => a.eqv(b),
            (DeviceToken::UbuntuPush(a), DeviceToken::UbuntuPush(b)) => a.eqv(b),
            (DeviceToken::WebPush(a), DeviceToken::WebPush(b)) => a.eqv(b),
            (DeviceToken::WindowsPush(a), DeviceToken::WindowsPush(b)) => a.eqv(b),
            _ => false,
        }
    }

    fn clone_val(&self) -> (r: Self) {
        self.clone()
    }

    fn decode_tree(t: &JsonValue) -> (r: Result<Self, DecodeError>) {
        let g = match get_tag(t) {
            Some(g) => g,
            None => {
                return Err(DecodeError::Malformed);
            },
        };
        if str_eq(g.as_str(), "deviceTokenApplePush") {
            match DeviceTokenApplePush::decode_tree(t) {
                Ok(x) => Ok(DeviceToken::ApplePush(x)),
                Err(e) => Err(e),
            }
        } else if str_eq(g.as_str(), "deviceTokenApplePushVoIP") {
            match DeviceTokenApplePushVoIP::decode_tree(t) {
                Ok(x) => Ok(DeviceToken::ApplePushVoIP(x)),
                Err(e) => Err(e),
            }
        } else if str_eq(g.as_str(), "deviceTokenBlackBerryPush") {
            match DeviceTokenBlackBerryPush::decode_tree(t) {
                Ok(x) => Ok(DeviceToken::BlackBerryPush(x)),
                Err(e) => Err(e),
            }
        } else if str_eq(g.as_str(), "deviceTokenFirebaseCloudMessaging") {
            match DeviceTokenFirebaseCloudMessaging::decode_tree(t) {
                Ok(x) => Ok(DeviceToken::FirebaseCloudMessaging(x)),
                Err(e) => Err(e),
            }
        } else if str_eq(g.as_str(), "deviceTokenMicrosoftPush") {
            match DeviceTokenMicrosoftPush::decode_tree(t) {
                Ok(x) => Ok(DeviceToken::MicrosoftPush(x)),
                Err(e) => Err(e),
            }
        } else if str_eq(g.as_str(), "deviceTokenMicrosoftPushVoIP") {
            match DeviceTokenMicrosoftPushVoIP::decode_tree(t) {
                Ok(x) => Ok(DeviceToken::MicrosoftPushVoIP(x)),
                Err(e) => Err(e),
            }
        } else if str_eq(g.as_str(), "deviceTokenSimplePush") {
            match DeviceTokenSimplePush::decode_tree(t) {
                Ok(x) => Ok(DeviceToken::SimplePush(x)),
                Err(e) => Err(e),
            }
        } else if str_eq(g.as_str(), "deviceTokenTizenPush") {
            match DeviceTokenTizenPush::decode_tree(t) {
                Ok(x) => Ok(DeviceToken::TizenPush(x)),
                Err(e) => Err(e),
            }
        } else if str_eq(g.as_str(), "deviceTokenUbuntuPush") {
            match DeviceTokenUbuntuPush::decode_tree(t) {
                Ok(x) => Ok(DeviceToken::UbuntuPush(x)),
                Err(e) => Err(e),
            }
        } else if str_eq(g.as_str(), "deviceTokenWebPush") {
            match DeviceTokenWebPush::decode_tree(t) {
                Ok(x) => Ok(DeviceToken::WebPush(x)),
                Err(e) => Err(e),
            }
        } else if str_eq(g.as_str(), "deviceTokenWindowsPush") {
            match DeviceTokenWindowsPush::decode_tree(t) {
                Ok(x) => Ok(DeviceToken::WindowsPush(x)),
                Err(e) => Err(e),
            }
        } else {
            Err(DecodeError::UnrecognizedVariant(g))
        }
    }

    fn encode_tree(&self) -> (r: Result<JsonValue, EncodeError>) {
        match self {
            DeviceToken::_Default(_) => Err(EncodeError::Unrepresentable),
            DeviceToken::ApplePush(x) => x.encode_tree(),
            DeviceToken::ApplePushVoIP(x) => x.encode_tree(),
            DeviceToken::BlackBerryPush(x) => x.encode_tree(),
            DeviceToken::FirebaseCloudMessaging(x) => x.encode_tree(),
            DeviceToken::MicrosoftPush(x) => x.encode_tree(),
            DeviceToken::MicrosoftPushVoIP(x) => x.encode_tree(),
            DeviceToken::SimplePush(x) => x.encode_tree(),
            DeviceToken::TizenPush(x) => x.encode_tree(),
            DeviceToken::UbuntuPush(x) => x.encode_tree(),
            DeviceToken::WebPush(x) => x.encode_tree(),
            DeviceToken::WindowsPush(x) => x.encode_tree(),
        }
    }

    proof fn lemma_wire_wf(v: Self) {
        match v {
            DeviceToken::_Default(_) => {},
            DeviceToken::ApplePush(x) => {
                DeviceTokenApplePush::lemma_wire_wf(x);
            },
            DeviceToken::ApplePushVoIP(x) => {
                DeviceTokenApplePushVoIP::lemma_wire_wf(x);
            },
            DeviceToken::BlackBerryPush(x) => {
                DeviceTokenBlackBerryPush::lemma_wire_wf(x);
            },
            DeviceToken::FirebaseCloudMessaging(x) => {
                DeviceTokenFirebaseCloudMessaging::lemma_wire_wf(x);
            },
            DeviceToken::MicrosoftPush(x) => {
                DeviceTokenMicrosoftPush::lemma_wire_wf(x);
            },
            DeviceToken::MicrosoftPushVoIP(x) => {
                DeviceTokenMicrosoftPushVoIP::lemma_wire_wf(x);
            },
            DeviceToken::SimplePush(x) => {
                DeviceTokenSimplePush::lemma_wire_wf(x);
            },
            DeviceToken::TizenPush(x) => {
                DeviceTokenTizenPush::lemma_wire_wf(x);
            },
            DeviceToken::UbuntuPush(x) => {
                DeviceTokenUbuntuPush::lemma_wire_wf(x);
            },
            DeviceToken::WebPush(x) => {
                DeviceTokenWebPush::lemma_wire_wf(x);
            },
            DeviceToken::WindowsPush(x) => {
                DeviceTokenWindowsPush::lemma_wire_wf(x);
            },
        }
    }

    proof fn lemma_round_trip(v: Self) {
        Self::lemma_tags_distinct();
        match v {
            DeviceToken::_Default(_) => {},
            DeviceToken::ApplePush(x) => {
                if x.wire_tree() is Some {
                    let t = x.wire_tree()->0;
                    DeviceTokenApplePush::lemma_wire_tag(x);
                    DeviceTokenApplePush::lemma_round_trip(x);
                    assert(Self::accepts(t));
                    assert forall|w: Self| Self::decodes_from(t, w) implies #[trigger] w.eqv(v) by {
                        assert(w matches DeviceToken::ApplePush(xi) && DeviceTokenApplePush::decodes_from(t, xi));
                    }
                }
            },
            DeviceToken::ApplePushVoIP(x) => {
                if x.wire_tree() is Some {
                    let t = x.wire_tree()->0;
                    DeviceTokenApplePushVoIP::lemma_wire_tag(x);
                    DeviceTokenApplePushVoIP::lemma_round_trip(x);
                    assert(Self::accepts(t));
                    assert forall|w: Self| Self::decodes_from(t, w) implies #[trigger] w.eqv(v) by {
                        assert(w matches DeviceToken::ApplePushVoIP(xi) && DeviceTokenApplePushVoIP::decodes_from(t, xi));
                    }
                }
            },
            DeviceToken::BlackBerryPush(x) => {
                if x.wire_tree() is Some {
                    let t = x.wire_tree()->0;
                    DeviceTokenBlackBerryPush::lemma_wire_tag(x);
                    DeviceTokenBlackBerryPush::lemma_round_trip(x);
                    assert(Self::accepts(t));
                    assert forall|w: Self| Self::decodes_from(t, w) implies #[trigger] w.eqv(v) by {
                        assert(w matches DeviceToken::BlackBerryPush(xi) && DeviceTokenBlackBerryPush::decodes_from(t, xi));
                    }
                }
            },
            DeviceToken::FirebaseCloudMessaging(x) => {
                if x.wire_tree() is Some {
                    let t = x.wire_tree()->0;
                    DeviceTokenFirebaseCloudMessaging::lemma_wire_tag(x);
                    DeviceTokenFirebaseCloudMessaging::lemma_round_trip(x);
                    assert(Self::accepts(t));
                    assert forall|w: Self| Self::decodes_from(t, w) implies #[trigger] w.eqv(v) by {
                        assert(w matches DeviceToken::FirebaseCloudMessaging(xi) && DeviceTokenFirebaseCloudMessaging::decodes_from(t, xi));
                    }
                }
            },
            DeviceToken::MicrosoftPush(x) => {
                if x.wire_tree() is Some {
                    let t = x.wire_tree()->0;
                    DeviceTokenMicrosoftPush::lemma_wire_tag(x);
                    DeviceTokenMicrosoftPush::lemma_round_trip(x);
                    assert(Self::accepts(t));
                    assert forall|w: Self| Self::decodes_from(t, w) implies #[trigger] w.eqv(v) by {
                        assert(w matches DeviceToken::MicrosoftPush(xi) && DeviceTokenMicrosoftPush::decodes_from(t, xi));
                    }
                }
            },
            DeviceToken::MicrosoftPushVoIP(x) => {
                if x.wire_tree() is Some {
                    let t = x.wire_tree()->0;
                    DeviceTokenMicrosoftPushVoIP::lemma_wire_tag(x);
                    DeviceTokenMicrosoftPushVoIP::lemma_round_trip(x);
                    assert(Self::accepts(t));
                    assert forall|w: Self| Self::decodes_from(t, w) implies #[trigger] w.eqv(v) by {
                        assert(w matches DeviceToken::MicrosoftPushVoIP(xi) && DeviceTokenMicrosoftPushVoIP::decodes_from(t, xi));
                    }
                }
            },
            DeviceToken::SimplePush(x) => {
                if x.wire_tree() is Some {
                    let t = x.wire_tree()->0;
                    DeviceTokenSimplePush::lemma_wire_tag(x);
                    DeviceTokenSimplePush::lemma_round_trip(x);
                    assert(Self::accepts(t));
                    assert forall|w: Self| Self::decodes_from(t, w) implies #[trigger] w.eqv(v) by {
                        assert(w matches DeviceToken::SimplePush(xi) && DeviceTokenSimplePush::decodes_from(t, xi));
                    }
                }
            },
            DeviceToken::TizenPush(x) => {
                if x.wire_tree() is Some {
                    let t = x.wire_tree()->0;
                    DeviceTokenTizenPush::lemma_wire_tag(x);
                    DeviceTokenTizenPush::lemma_round_trip(x);
                    assert(Self::accepts(t));
                    assert forall|w: Self| Self::decodes_from(t, w) implies #[trigger] w.eqv(v) by {
                        assert(w matches DeviceToken::TizenPush(xi) && DeviceTokenTizenPush::decodes_from(t, xi));
                    }
                }
            },
            DeviceToken::UbuntuPush(x) => {
                if x.wire_tree() is Some {
                    let t = x.wire_tree()->0;
                    DeviceTokenUbuntuPush::lemma_wire_tag(x);
                    DeviceTokenUbuntuPush::lemma_round_trip(x);
                    assert(Self::accepts(t));
                    assert forall|w: Self| Self::decodes_from(t, w) implies #[trigger] w.eqv(v) by {
                        assert(w matches DeviceToken::UbuntuPush(xi) && DeviceTokenUbuntuPush::decodes_from(t, xi));
                    }
                }
            },
            DeviceToken::WebPush(x) => {
                if x.wire_tree() is Some {
                    let t = x.wire_tree()->0;
                    DeviceTokenWebPush::lemma_wire_tag(x);
                    DeviceTokenWebPush::lemma_round_trip(x);
                    assert(Self::accepts(t));
                    assert forall|w: Self| Self::decodes_from(t, w) implies #[trigger] w.eqv(v) by {
                        assert(w matches DeviceToken::WebPush(xi) && DeviceTokenWebPush::decodes_from(t, xi));
                    }
                }
            },
            DeviceToken::WindowsPush(x) => {
                if x.wire_tree() is Some {
                    let t = x.wire_tree()->0;
                    DeviceTokenWindowsPush::lemma_wire_tag(x);
                    DeviceTokenWindowsPush::lemma_round_trip(x);
                    assert(Self::accepts(t));
                    assert forall|w: Self| Self::decodes_from(t, w) implies #[trigger] w.eqv(v) by {
                        assert(w matches DeviceToken::WindowsPush(xi) && DeviceTokenWindowsPush::decodes_from(t, xi));
                    }
                }
            },
        }
    }
}

impl RObject for DeviceToken {
    open spec fn tag_chars(&self) -> Seq<char> {
        match self {
            DeviceToken::_Default(_) => "-1"@,
            DeviceToken::ApplePush(x) => DeviceTokenApplePush::tag_spec(),
            DeviceToken::ApplePushVoIP(x) => DeviceTokenApplePushVoIP::tag_spec(),
            DeviceToken::BlackBerryPush(x) => DeviceTokenBlackBerryPush::tag_spec(),
            DeviceToken::FirebaseCloudMessaging(x) => DeviceTokenFirebaseCloudMessaging::tag_spec(),
            DeviceToken::MicrosoftPush(x) => DeviceTokenMicrosoftPush::tag_spec(),
            DeviceToken::MicrosoftPushVoIP(x) => DeviceTokenMicrosoftPushVoIP::tag_spec(),
            DeviceToken::SimplePush(x) => DeviceTokenSimplePush::tag_spec(),
            DeviceToken::TizenPush(x) => DeviceTokenTizenPush::tag_spec(),
            DeviceToken::UbuntuPush(x) => DeviceTokenUbuntuPush::tag_spec(),
            DeviceToken::WebPush(x) => DeviceTokenWebPush::tag_spec(),
            DeviceToken::WindowsPush(x) => DeviceTokenWindowsPush::tag_spec(),
        }
    }

    open spec fn extra_spec(&self) -> Option<Seq<char>> {
        match self {
            DeviceToken::_Default(_) => None,
            DeviceToken::ApplePush(x) => opt_str_view(x.extra),
            DeviceToken::ApplePushVoIP(x) => opt_str_view(x.extra),
            DeviceToken::BlackBerryPush(x) => opt_str_view(x.extra),
            DeviceToken::FirebaseCloudMessaging(x) => opt_str_view(x.extra),
            DeviceToken::MicrosoftPush(x) => opt_str_view(x.extra),
            DeviceToken::MicrosoftPushVoIP(x) => opt_str_view(x.extra),
            DeviceToken::SimplePush(x) => opt_str_view(x.extra),
            DeviceToken::TizenPush(x) => opt_str_view(x.extra),
            DeviceToken::UbuntuPush(x) => opt_str_view(x.extra),
            DeviceToken::WebPush(x) => opt_str_view(x.extra),
            DeviceToken::WindowsPush(x) => opt_str_view(x.extra),
    }
    }

    fn td_name(&self) -> (r: &'static str) {
        match self {
            DeviceToken::_Default(_) => "-1",
            DeviceToken::ApplePush(x) => x.td_name(),
            DeviceToken::ApplePushVoIP(x) => x.td_name(),
            DeviceToken::BlackBerryPush(x) => x.td_name(),
            DeviceToken::FirebaseCloudMessaging(x) => x.td_name(),
            DeviceToken::MicrosoftPush(x) => x.td_name(),
            DeviceToken::MicrosoftPushVoIP(x) => x.td_name(),
            DeviceToken::SimplePush(x) => x.td_name(),
            DeviceToken::TizenPush(x) => x.td_name(),
            DeviceToken::UbuntuPush(x) => x.td_name(),
            DeviceToken::WebPush(x) => x.td_name(),
            DeviceToken::WindowsPush(x) => x.td_name(),
        }
    }

    fn extra(&self) -> (r: Option<String>) {
        match self {
            DeviceToken::_Default(_) => None,
            DeviceToken::ApplePush(x) => clone_opt_string(&x.extra),
            DeviceToken::ApplePushVoIP(x) => clone_opt_string(&x.extra),
            DeviceToken::BlackBerryPush(x) => clone_opt_string(&x.extra),
            DeviceToken::FirebaseCloudMessaging(x) => clone_opt_string(&x.extra),
            DeviceToken::MicrosoftPush(x) => clone_opt_string(&x.extra),
            DeviceToken::MicrosoftPushVoIP(x) => clone_opt_string(&x.extra),
            DeviceToken::SimplePush(x) => clone_opt_string(&x.extra),
            DeviceToken::TizenPush(x) => clone_opt_string(&x.extra),
            DeviceToken::UbuntuPush(x) => clone_opt_string(&x.extra),
            DeviceToken::WebPush(x) => clone_opt_string(&x.extra),
            DeviceToken::WindowsPush(x) => clone_opt_string(&x.extra),
        }
    }

    fn to_json(&self) -> (r: Result<String, EncodeError>) {
        crate::object::encode(self)
    }
}

impl DeviceToken {
    pub fn from_json(json: &str) -> (r: Result<DeviceToken, DecodeError>)
        ensures
            match crate::parse::parse_doc(json@) {
                Some(t) => match r {
                    Ok(v) => Self::accepts(t) && Self::decodes_from(t, v),
                    Err(e) => !Self::accepts(t) && crate::errors::err_matches(e, Self::err_of(t)),
                },
                None => r matches Err(e) && e == DecodeError::Malformed,
            },
    {
        crate::object::from_json::<DeviceToken>(json)
    }

    pub fn _is_default(&self) -> (r: bool)
        ensures
            r == (self is _Default),
    {
        match self {
            DeviceToken::_Default(_) => true,
            _ => false,
        }
    }

    pub fn is_apple_push(&self) -> (r: bool)
        ensures
            r == (self is ApplePush),
    {
        match self {
            DeviceToken::ApplePush(_) => true,
            _ => false,
        }
    }

    pub fn is_apple_push_vo_ip(&self) -> (r: bool)
        ensures
            r == (self is ApplePushVoIP),
    {
        match self {
            DeviceToken::ApplePushVoIP(_) => true,
            _ => false,
        }
    }

    pub fn is_black_berry_push(&self) -> (r: bool)
        ensures
            r == (self is BlackBerryPush),
    {
        match self {
            DeviceToken::BlackBerryPush(_) => true,
            _ => false,
        }
    }

    pub fn is_firebase_cloud_messaging(&self) -> (r: bool)
        ensures
            r == (self is FirebaseCloudMessaging),
    {
        match self {
            DeviceToken::FirebaseCloudMessaging(_) => true,
            _ => false,
        }
    }

    pub fn is_microsoft_push(&self) -> (r: bool)
        ensures
            r == (self is MicrosoftPush),
    {
        match self {
            DeviceToken::MicrosoftPush(_) => true,
            _ => false,
        }
    }

    pub fn is_microsoft_push_vo_ip(&self) -> (r: bool)
        ensures
            r == (self is MicrosoftPushVoIP),
    {
        match self {
            DeviceToken::MicrosoftPushVoIP(_) => true,
            _ => false,
        }
    }

    pub fn is_simple_push(&self) -> (r: bool)
        ensures
            r == (self is SimplePush),
    {
        match self {
            DeviceToken::SimplePush(_) => true,
            _ => false,
        }
    }

    pub fn is_tizen_push(&self) -> (r: bool)
        ensures
            r == (self is TizenPush),
    {
        match self {
            DeviceToken::TizenPush(_) => true,
            _ => false,
        }
    }

    pub fn is_ubuntu_push(&self) -> (r: bool)
        ensures
            r == (self is UbuntuPush),
    {
        match self {
            DeviceToken::UbuntuPush(_) => true,
            _ => false,
        }
    }

    pub fn is_web_push(&self) -> (r: bool)
        ensures
            r == (self is WebPush),
    {
        match self {
            DeviceToken::WebPush(_) => true,
            _ => false,
        }
    }

    pub fn is_windows_push(&self) -> (r: bool)
        ensures
            r == (self is WindowsPush),
    {
        match self {
            DeviceToken::WindowsPush(_) => true,
            _ => false,
        }
    }

    pub fn as_apple_push(&self) -> (r: Option<&DeviceTokenApplePush>)
        ensures
            (self is ApplePush) == (r is Some),
            r matches Some(x) ==> *x == self->ApplePush_0,
    {
        match self {
            DeviceToken::ApplePush(x) => Some(x),
            _ => None,
        }
    }

    pub fn as_apple_push_vo_ip(&self) -> (r: Option<&DeviceTokenApplePushVoIP>)
        ensures
            (self is ApplePushVoIP) == (r is Some),
            r matches Some(x) ==> *x == self->ApplePushVoIP_0,
    {
        match self {
            DeviceToken::ApplePushVoIP(x) => Some(x),
            _ => None,
        }
    }

    pub fn as_black_berry_push(&self) -> (r: Option<&DeviceTokenBlackBerryPush>)
        ensures
            (self is BlackBerryPush) == (r is Some),
            r matches Some(x) ==> *x == self->BlackBerryPush_0,
    {
        match self {
            DeviceToken::BlackBerryPush(x) => Some(x),
            _ => None,
        }
    }

    pub fn as_firebase_cloud_messaging(&self) -> (r: Option<&DeviceTokenFirebaseCloudMessaging>)
        ensures
            (self is FirebaseCloudMessaging) == (r is Some),
            r matches Some(x) ==> *x == self->FirebaseCloudMessaging_0,
    {
        match self {
            DeviceToken::FirebaseCloudMessaging(x) => Some(x),
            _ => None,
        }
    }

    pub fn as_microsoft_push(&self) -> (r: Option<&DeviceTokenMicrosoftPush>)
        ensures
            (self is MicrosoftPush) == (r is Some),
            r matches Some(x) ==> *x == self->MicrosoftPush_0,
    {
        match self {
            DeviceToken::MicrosoftPush(x) => Some(x),
            _ => None,
        }
    }

    pub fn as_microsoft_push_vo_ip(&self) -> (r: Option<&DeviceTokenMicrosoftPushVoIP>)
        ensures
            (self is MicrosoftPushVoIP) == (r is Some),
            r matches Some(x) ==> *x == self->MicrosoftPushVoIP_0,
    {
        match self {
            DeviceToken::MicrosoftPushVoIP(x) => Some(x),
            _ => None,
        }
    }

    pub fn as_simple_push(&self) -> (r: Option<&DeviceTokenSimplePush>)
        ensures
            (self is SimplePush) == (r is Some),
            r matches Some(x) ==> *x == self->SimplePush_0,
    {
        match self {
            DeviceToken::SimplePush(x) => Some(x),
            _ => None,
        }
    }

    pub fn as_tizen_push(&self) -> (r: Option<&DeviceTokenTizenPush>)
        ensures
            (self is TizenPush) == (r is Some),
            r matches Some(x) ==> *x == self->TizenPush_0,
    {
        match self {
            DeviceToken::TizenPush(x) => Some(x),
            _ => None,
        }
    }

    pub fn as_ubuntu_push(&self) -> (r: Option<&DeviceTokenUbuntuPush>)
        ensures
            (self is UbuntuPush) == (r is Some),
            r matches Some(x) ==> *x == self->UbuntuPush_0,
    {
        match self {
            DeviceToken::UbuntuPush(x) => Some(x),
            _ => None,
        }
    }

    pub fn as_web_push(&self) -> (r: Option<&DeviceTokenWebPush>)
        ensures
            (self is WebPush) == (r is Some),
            r matches Some(x) ==> *x == self->WebPush_0,
    {
        match self {
            DeviceToken::WebPush(x) => Some(x),
            _ => None,
        }
    }

    pub fn as_windows_push(&self) -> (r: Option<&DeviceTokenWindowsPush>)
        ensures
            (self is WindowsPush) == (r is Some),
            r matches Some(x) ==> *x == self->WindowsPush_0,
    {
        match self {
            DeviceToken::WindowsPush(x) => Some(x),
            _ => None,
        }
    }

    pub fn apple_push(t: &DeviceTokenApplePush) -> (r: Self)
        ensures
            r matches DeviceToken::ApplePush(x) && x.eqv(*t),
    {
        DeviceToken::ApplePush(t.clone())
    }

    pub fn apple_push_vo_ip(t: &DeviceTokenApplePushVoIP) -> (r: Self)
        ensures
            r matches DeviceToken::ApplePushVoIP(x) && x.eqv(*t),
    {
        DeviceToken::ApplePushVoIP(t.clone())
    }

    pub fn black_berry_push(t: &DeviceTokenBlackBerryPush) -> (r: Self)
        ensures
            r matches DeviceToken::BlackBerryPush(x) && x.eqv(*t),
    {
        DeviceToken::BlackBerryPush(t.clone())
    }

    pub fn firebase_cloud_messaging(t: &DeviceTokenFirebaseCloudMessaging) -> (r: Self)
        ensures
            r matches DeviceToken::FirebaseCloudMessaging(x) && x.eqv(*t),
    {
        DeviceToken::FirebaseCloudMessaging(t.clone())
    }

    pub fn microsoft_push(t: &DeviceTokenMicrosoftPush) -> (r: Self)
        ensures
            r matches DeviceToken::MicrosoftPush(x) && x.eqv(*t),
    {
        DeviceToken::MicrosoftPush(t.clone())
    }

    pub fn microsoft_push_vo_ip(t: &DeviceTokenMicrosoftPushVoIP) -> (r: Self)
        ensures
            r matches DeviceToken::MicrosoftPushVoIP(x) && x.eqv(*t),
    {
        DeviceToken::MicrosoftPushVoIP(t.clone())
    }

    pub fn simple_push(t: &DeviceTokenSimplePush) -> (r: Self)
        ensures
            r matches DeviceToken::SimplePush(x) && x.eqv(*t),
    {
        DeviceToken::SimplePush(t.clone())
    }

    pub fn tizen_push(t: &DeviceTokenTizenPush) -> (r: Self)
        ensures
            r matches DeviceToken::TizenPush(x) && x.eqv(*t),
    {
        DeviceToken::TizenPush(t.clone())
    }

    pub fn ubuntu_push(t: &DeviceTokenUbuntuPush) -> (r: Self)
        ensures
            r matches DeviceToken::UbuntuPush(x) && x.eqv(*t),
    {
        DeviceToken::UbuntuPush(t.clone())
    }

    pub fn web_push(t: &DeviceTokenWebPush) -> (r: Self)
        ensures
            r matches DeviceToken::WebPush(x) && x.eqv(*t),
    {
        DeviceToken::WebPush(t.clone())
    }

    pub fn windows_push(t: &DeviceTokenWindowsPush) -> (r: Self)
        ensures
            r matches DeviceToken::WindowsPush(x) && x.eqv(*t),
    {
        DeviceToken::WindowsPush(t.clone())
    }
}
/// A token for Apple Push Notification service
#[derive(Debug, PartialEq)]
pub struct DeviceTokenApplePush {
    pub extra: Option<String>,
    /// Device token; may be empty to de-register a device
    pub device_token: String,
    /// True, if App Sandbox is enabled
    pub is_app_sandbox: bool,
}

impl DeviceTokenApplePush {
    pub open spec fn tag_spec() -> Seq<char> {
        "deviceTokenApplePush"@
    }

    /// The members of the wire object, in the order they are written.
    pub open spec fn members_spec(self) -> Seq<(Seq<char>, SpecJson)> {
        seq![
            ("@type"@, SpecJson::Str(Self::tag_spec())),
            ("@extra"@, opt_str_tree(opt_str_view(self.extra))),
            ("device_token"@, SpecJson::Str(self.device_token@)),
            ("is_app_sandbox"@, SpecJson::Bool(self.is_app_sandbox)),
        ]
    }

    pub open spec fn fields_ok(t: SpecJson) -> bool {
        &&& ok_opt_str(t, "@extra"@)
        &&& ok_str(t, "device_token"@)
        &&& ok_bool(t, "is_app_sandbox"@)
    }

    pub open spec fn fail_field(t: SpecJson) -> Seq<char> {
        if !ok_opt_str(t, "@extra"@) {
            "@extra"@
        } else if !(ok_str(t, "device_token"@)) {
            "device_token"@
        } else if !(ok_bool(t, "is_app_sandbox"@)) {
            "is_app_sandbox"@
        } else {
            Seq::empty()
        }
    }

    /// The encoding of a value carries exactly this type's tag.
    pub proof fn lemma_wire_tag(v: DeviceTokenApplePush)
        ensures
            v.wire_tree() matches Some(t) ==> tag_of(t) == Some(DeviceTokenApplePush::tag_spec()),
    {
        if v.wire_tree() is Some {
            let t = v.wire_tree()->0;
            let ms = t->Obj_0;
            lemma_get_spec_found(ms, "@type"@, 0);
        }
    }
}

impl Clone for DeviceTokenApplePush {
    fn clone(&self) -> (res: Self)
        ensures
            res.eqv(*self),
    {
        DeviceTokenApplePush {
            extra: clone_opt_string(&self.extra),
            device_token: self.device_token.clone(),
            is_app_sandbox: self.is_app_sandbox,
        }
    }
}

impl Wire for DeviceTokenApplePush {
    open spec fn wire_tree(self) -> Option<SpecJson> {
        Some(SpecJson::Obj(self.members_spec()))
    }

    open spec fn accepts(t: SpecJson) -> bool {
        tag_of(t) is Some && Self::fields_ok(t)
    }

    open spec fn err_of(t: SpecJson) -> SpecDecodeError {
        match tag_of(t) {
            None => SpecDecodeError::Malformed,
            Some(_) => SpecDecodeError::FieldShapeMismatch(Self::tag_spec(), Self::fail_field(t)),
        }
    }

    open spec fn decodes_from(t: SpecJson, v: Self) -> bool {
        &&& m_opt_str(t, "@extra"@, v.extra)
        &&& m_str(t, "device_token"@, v.device_token@)
        &&& m_bool(t, "is_app_sandbox"@, v.is_app_sandbox)
    }

    open spec fn eqv(self, other: Self) -> bool {
        &&& eqv_opt_string(self.extra, other.extra)
        &&& self.device_token@ == other.device_token@
        &&& self.is_app_sandbox == other.is_app_sandbox
    }

    fn clone_val(&self) -> (r: Self) {
        self.clone()
    }

    fn decode_tree(t: &JsonValue) -> (r: Result<Self, DecodeError>) {
        if get_tag(t).is_none() {
            return Err(DecodeError::Malformed);
        }
        let extra = match field_opt_string(t, "@extra") {
            Some(x) => x,
            None => {
                return Err(DecodeError::FieldShapeMismatch(
                    String::from_str("deviceTokenApplePush"),
                    String::from_str("@extra"),
                ));
            },
        };
        let device_token = match field_string(t, "device_token") {
            Some(x) => x,
            None => {
                return Err(DecodeError::FieldShapeMismatch(
                    String::from_str("deviceTokenApplePush"),
                    String::from_str("device_token"),
                ));
            },
        };
        let is_app_sandbox = match field_bool(t, "is_app_sandbox") {
            Some(x) => x,
            None => {
                return Err(DecodeError::FieldShapeMismatch(
                    String::from_str("deviceTokenApplePush"),
                    String::from_str("is_app_sandbox"),
                ));
            },
        };
        Ok(DeviceTokenApplePush { extra, device_token, is_app_sandbox })
    }

    fn encode_tree(&self) -> (r: Result<JsonValue, EncodeError>) {
        let mut members: Vec<JsonMember> = Vec::new();
        proof {
            assert(view_members(members@) =~= Seq::<(Seq<char>, SpecJson)>::empty());
        }
        push_member(&mut members, "@type", JsonValue::Str(String::from_str("deviceTokenApplePush")));
        push_member(&mut members, "@extra", opt_string_tree(&self.extra));
        push_member(&mut members, "device_token", JsonValue::Str(self.device_token.clone()));
        push_member(&mut members, "is_app_sandbox", JsonValue::Bool(self.is_app_sandbox));
        let node = JsonValue::Obj(members);
        proof {
            assert(view_members(members@) =~= self.members_spec());
            assert(node@ == self.wire_tree()->0);
        }
        Ok(node)
    }

    proof fn lemma_wire_wf(v: Self) {
        if v.wire_tree() is Some {
            let t = v.wire_tree()->0;
            let ms = t->Obj_0;
            assert(ms == v.members_spec());
            assert forall|i: int| 0 <= i < ms.len() implies wf(#[trigger] ms[i].1) by {
            }
        }
    }

    proof fn lemma_round_trip(v: Self) {
        if v.wire_tree() is Some {
            let t = v.wire_tree()->0;
            let ms = t->Obj_0;
            assert(ms == v.members_spec());
            reveal_strlit("@type");
            reveal_strlit("@extra");
            reveal_strlit("device_token");
            reveal_strlit("is_app_sandbox");
            assert("@type"@.len() == 5);
            assert("@extra"@.len() == 6);
            assert("device_token"@.len() == 12);
            assert("is_app_sandbox"@.len() == 14);
            reveal_with_fuel(get_spec, 6);
            lemma_get_spec_found(ms, "@type"@, 0);
            lemma_get_spec_found(ms, "@extra"@, 1);
            lemma_get_spec_found(ms, "device_token"@, 2);
            lemma_get_spec_found(ms, "is_app_sandbox"@, 3);
            assert(tag_of(t) == Some(Self::tag_spec()));
            assert(ok_opt_str(t, "@extra"@));
            assert(ok_str(t, "device_token"@));
            assert(ok_bool(t, "is_app_sandbox"@));
            assert(Self::accepts(t));
            assert forall|w: Self| Self::decodes_from(t, w) implies #[trigger] w.eqv(v) by {
            }
        }
    }
}

impl RObject for DeviceTokenApplePush {
    open spec fn tag_chars(&self) -> Seq<char> {
        Self::tag_spec()
    }

    open spec fn extra_spec(&self) -> Option<Seq<char>> {
        opt_str_view(self.extra)
    }

    fn td_name(&self) -> (r: &'static str) {
        "deviceTokenApplePush"
    }

    fn extra(&self) -> (r: Option<String>) {
        clone_opt_string(&self.extra)
    }

    fn to_json(&self) -> (r: Result<String, EncodeError>) {
        crate::object::encode(self)
    }
}

impl TDDeviceToken for DeviceTokenApplePush {

}

impl DeviceTokenApplePush {
    pub fn from_json(json: &str) -> (r: Result<DeviceTokenApplePush, DecodeError>)
        ensures
            match crate::parse::parse_doc(json@) {
                Some(t) => match r {
                    Ok(v) => Self::accepts(t) && Self::decodes_from(t, v),
                    Err(e) => !Self::accepts(t) && crate::errors::err_matches(e, Self::err_of(t)),
                },
                None => r matches Err(e) && e == DecodeError::Malformed,
            },
    {
        crate::object::from_json::<DeviceTokenApplePush>(json)
    }

    pub fn builder() -> (r: RTDDeviceTokenApplePushBuilder)
        ensures
            r.inner.extra is Some,
            r.inner.device_token@ == Seq::<char>::empty(),
            r.inner.is_app_sandbox == false,
    {
        RTDDeviceTokenApplePushBuilder {
            inner: DeviceTokenApplePush {
                extra: Some(new_token()),
                device_token: String::new(),
                is_app_sandbox: false,
            },
        }
    }

    pub fn device_token(&self) -> (r: &String)
        ensures
            *r == self.device_token,
    {
        &self.device_token
    }

    pub fn is_app_sandbox(&self) -> (r: bool)
        ensures
            r == self.is_app_sandbox,
    {
        self.is_app_sandbox
    }
}

pub struct RTDDeviceTokenApplePushBuilder {
    pub inner: DeviceTokenApplePush,
}

impl RTDDeviceTokenApplePushBuilder {
    pub fn build(&self) -> (r: DeviceTokenApplePush)
        ensures
            r.eqv(self.inner),
    {
        self.inner.clone()
    }

    pub fn device_token(&mut self, device_token: String) -> (r: &mut Self)
        ensures
            *r == (RTDDeviceTokenApplePushBuilder { inner: DeviceTokenApplePush { device_token: device_token, ..old(self).inner } }),
            *final(self) == *final(r),
    {
        self.inner.device_token = device_token;
        self
    }

    pub fn is_app_sandbox(&mut self, is_app_sandbox: bool) -> (r: &mut Self)
        ensures
            *r == (RTDDeviceTokenApplePushBuilder { inner: DeviceTokenApplePush { is_app_sandbox: is_app_sandbox, ..old(self).inner } }),
            *final(self) == *final(r),
    {
        self.inner.is_app_sandbox = is_app_sandbox;
        self
    }
}
/// A token for Apple Push Notification service VoIP notifications
#[derive(Debug, PartialEq)]
pub struct DeviceTokenApplePushVoIP {
    pub extra: Option<String>,
    /// Device token; may be empty to de-register a device
    pub device_token: String,
    /// True, if App Sandbox is enabled
    pub is_app_sandbox: bool,
    /// True, if push notifications must be additionally encrypted
    pub encrypt: bool,
}

impl DeviceTokenApplePushVoIP {
    pub open spec fn tag_spec() -> Seq<char> {
        "deviceTokenApplePushVoIP"@
    }

    /// The members of the wire object, in the order they are written.
    pub open spec fn members_spec(self) -> Seq<(Seq<char>, SpecJson)> {
        seq![
            ("@type"@, SpecJson::Str(Self::tag_spec())),
            ("@extra"@, opt_str_tree(opt_str_view(self.extra))),
            ("device_token"@, SpecJson::Str(self.device_token@)),
            ("is_app_sandbox"@, SpecJson::Bool(self.is_app_sandbox)),
            ("encrypt"@, SpecJson::Bool(self.encrypt)),
        ]
    }

    pub open spec fn fields_ok(t: SpecJson) -> bool {
        &&& ok_opt_str(t, "@extra"@)
        &&& ok_str(t, "device_token"@)
        &&& ok_bool(t, "is_app_sandbox"@)
        &&& ok_bool(t, "encrypt"@)
    }

    pub open spec fn fail_field(t: SpecJson) -> Seq<char> {
        if !ok_opt_str(t, "@extra"@) {
            "@extra"@
        } else if !(ok_str(t, "device_token"@)) {
            "device_token"@
        } else if !(ok_bool(t, "is_app_sandbox"@)) {
            "is_app_sandbox"@
        } else if !(ok_bool(t, "encrypt"@)) {
            "encrypt"@
        } else {
            Seq::empty()
        }
    }

    /// The encoding of a value carries exactly this type's tag.
    pub proof fn lemma_wire_tag(v: DeviceTokenApplePushVoIP)
        ensures
            v.wire_tree() matches Some(t) ==> tag_of(t) == Some(DeviceTokenApplePushVoIP::tag_spec()),
    {
        if v.wire_tree() is Some {
            let t = v.wire_tree()->0;
            let ms = t->Obj_0;
            lemma_get_spec_found(ms, "@type"@, 0);
        }
    }
}

impl Clone for DeviceTokenApplePushVoIP {
    fn clone(&self) -> (res: Self)
        ensures
            res.eqv(*self),
    {
        DeviceTokenApplePushVoIP {
            extra: clone_opt_string(&self.extra),
            device_token: self.device_token.clone(),
            is_app_sandbox: self.is_app_sandbox,
            encrypt: self.encrypt,
        }
    }
}

impl Wire for DeviceTokenApplePushVoIP {
    open spec fn wire_tree(self) -> Option<SpecJson> {
        Some(SpecJson::Obj(self.members_spec()))
    }

    open spec fn accepts(t: SpecJson) -> bool {
        tag_of(t) is Some && Self::fields_ok(t)
    }

    open spec fn err_of(t: SpecJson) -> SpecDecodeError {
        match tag_of(t) {
            None => SpecDecodeError::Malformed,
            Some(_) => SpecDecodeError::FieldShapeMismatch(Self::tag_spec(), Self::fail_field(t)),
        }
    }

    open spec fn decodes_from(t: SpecJson, v: Self) -> bool {
        &&& m_opt_str(t, "@extra"@, v.extra)
        &&& m_str(t, "device_token"@, v.device_token@)
        &&& m_bool(t, "is_app_sandbox"@, v.is_app_sandbox)
        &&& m_bool(t, "encrypt"@, v.encrypt)
    }

    open spec fn eqv(self, other: Self) -> bool {
        &&& eqv_opt_string(self.extra, other.extra)
        &&& self.device_token@ == other.device_token@
        &&& self.is_app_sandbox == other.is_app_sandbox
        &&& self.encrypt == other.encrypt
    }

    fn clone_val(&self) -> (r: Self) {
        self.clone()
    }

    fn decode_tree(t: &JsonValue) -> (r: Result<Self, DecodeError>) {
        if get_tag(t).is_none() {
            return Err(DecodeError::Malformed);
        }
        let extra = match field_opt_string(t, "@extra") {
            Some(x) => x,
            None => {
                return Err(DecodeError::FieldShapeMismatch(
                    String::from_str("deviceTokenApplePushVoIP"),
                    String::from_str("@extra"),
                ));
            },
        };
        let device_token = match field_string(t, "device_token") {
            Some(x) => x,
            None => {
                return Err(DecodeError::FieldShapeMismatch(
                    String::from_str("deviceTokenApplePushVoIP"),
                    String::from_str("device_token"),
                ));
            },
        };
        let is_app_sandbox = match field_bool(t, "is_app_sandbox") {
            Some(x) => x,
            None => {
                return Err(DecodeError::FieldShapeMismatch(
                    String::from_str("deviceTokenApplePushVoIP"),
                    String::from_str("is_app_sandbox"),
                ));
            },
        };
        let encrypt = match field_bool(t, "encrypt") {
            Some(x) => x,
            None => {
                return Err(DecodeError::FieldShapeMismatch(
                    String::from_str("deviceTokenApplePushVoIP"),
                    String::from_str("encrypt"),
                ));
            },
        };
        Ok(DeviceTokenApplePushVoIP { extra, device_token, is_app_sandbox, encrypt })
    }

    fn encode_tree(&self) -> (r: Result<JsonValue, EncodeError>) {
        let mut members: Vec<JsonMember> = Vec::new();
        proof {
            assert(view_members(members@) =~= Seq::<(Seq<char>, SpecJson)>::empty());
        }
        push_member(&mut members, "@type", JsonValue::Str(String::from_str("deviceTokenApplePushVoIP")));
        push_member(&mut members, "@extra", opt_string_tree(&self.extra));
        push_member(&mut members, "device_token", JsonValue::Str(self.device_token.clone()));
        push_member(&mut members, "is_app_sandbox", JsonValue::Bool(self.is_app_sandbox));
        push_member(&mut members, "encrypt", JsonValue::Bool(self.encrypt));
        let node = JsonValue::Obj(members);
        proof {
            assert(view_members(members@) =~= self.members_spec());
            assert(node@ == self.wire_tree()->0);
        }
        Ok(node)
    }

    proof fn lemma_wire_wf(v: Self) {
        if v.wire_tree() is Some {
            let t = v.wire_tree()->0;
            let ms = t->Obj_0;
            assert(ms == v.members_spec());
            assert forall|i: int| 0 <= i < ms.len() implies wf(#[trigger] ms[i].1) by {
            }
        }
    }

    proof fn lemma_round_trip(v: Self) {
        if v.wire_tree() is Some {
            let t = v.wire_tree()->0;
            let ms = t->Obj_0;
            assert(ms == v.members_spec());
            reveal_strlit("@type");
            reveal_strlit("@extra");
            reveal_strlit("device_token");
            reveal_strlit("is_app_sandbox");
            reveal_strlit("encrypt");
            assert("@type"@.len() == 5);
            assert("@extra"@.len() == 6);
            assert("device_token"@.len() == 12);
            assert("is_app_sandbox"@.len() == 14);
            assert("encrypt"@.len() == 7);
            reveal_with_fuel(get_spec, 7);
            lemma_get_spec_found(ms, "@type"@, 0);
            lemma_get_spec_found(ms, "@extra"@, 1);
            lemma_get_spec_found(ms, "device_token"@, 2);
            lemma_get_spec_found(ms, "is_app_sandbox"@, 3);
            lemma_get_spec_found(ms, "encrypt"@, 4);
            assert(tag_of(t) == Some(Self::tag_spec()));
            assert(ok_opt_str(t, "@extra"@));
            assert(ok_str(t, "device_token"@));
            assert(ok_bool(t, "is_app_sandbox"@));
            assert(ok_bool(t, "encrypt"@));
            assert(Self::accepts(t));
            assert forall|w: Self| Self::decodes_from(t, w) implies #[trigger] w.eqv(v) by {
            }
        }
    }
}

impl RObject for DeviceTokenApplePushVoIP {
    open spec fn tag_chars(&self) -> Seq<char> {
        Self::tag_spec()
    }

    open spec fn extra_spec(&self) -> Option<Seq<char>> {
        opt_str_view(self.extra)
    }

    fn td_name(&self) -> (r: &'static str) {
        "deviceTokenApplePushVoIP"
    }

    fn extra(&self) -> (r: Option<String>) {
        clone_opt_string(&self.extra)
    }

    fn to_json(&self) -> (r: Result<String, EncodeError>) {
        crate::object::encode(self)
    }
}

impl TDDeviceToken for DeviceTokenApplePushVoIP {

}

impl DeviceTokenApplePushVoIP {
    pub fn from_json(json: &str) -> (r: Result<DeviceTokenApplePushVoIP, DecodeError>)
        ensures
            match crate::parse::parse_doc(json@) {
                Some(t) => match r {
                    Ok(v) => Self::accepts(t) && Self::decodes_from(t, v),
                    Err(e) => !Self::accepts(t) && crate::errors::err_matches(e, Self::err_of(t)),
                },
                None => r matches Err(e) && e == DecodeError::Malformed,
            },
    {
        crate::object::from_json::<DeviceTokenApplePushVoIP>(json)
    }

    pub fn builder() -> (r: RTDDeviceTokenApplePushVoIPBuilder)
        ensures
            r.inner.extra is Some,
            r.inner.device_token@ == Seq::<char>::empty(),
            r.inner.is_app_sandbox == false,
            r.inner.encrypt == false,
    {
        RTDDeviceTokenApplePushVoIPBuilder {
            inner: DeviceTokenApplePushVoIP {
                extra: Some(new_token()),
                device_token: String::new(),
                is_app_sandbox: false,
                encrypt: false,
            },
        }
    }

    pub fn device_token(&self) -> (r: &String)
        ensures
            *r == self.device_token,
    {
        &self.device_token
    }

    pub fn is_app_sandbox(&self) -> (r: bool)
        ensures
            r == self.is_app_sandbox,
    {
        self.is_app_sandbox
    }

    pub fn encrypt(&self) -> (r: bool)
        ensures
            r == self.encrypt,
    {
        self.encrypt
    }
}

pub struct RTDDeviceTokenApplePushVoIPBuilder {
    pub inner: DeviceTokenApplePushVoIP,
}

impl RTDDeviceTokenApplePushVoIPBuilder {
    pub fn build(&self) -> (r: DeviceTokenApplePushVoIP)
        ensures
            r.eqv(self.inner),
    {
        self.inner.clone()
    }

    pub fn device_token(&mut self, device_token: String) -> (r: &mut Self)
        ensures
            *r == (RTDDeviceTokenApplePushVoIPBuilder { inner: DeviceTokenApplePushVoIP { device_token: device_token, ..old(self).inner } }),
            *final(self) == *final(r),
    {
        self.inner.device_token = device_token;
        self
    }

    pub fn is_app_sandbox(&mut self, is_app_sandbox: bool) -> (r: &mut Self)
        ensures
            *r == (RTDDeviceTokenApplePushVoIPBuilder { inner: DeviceTokenApplePushVoIP { is_app_sandbox: is_app_sandbox, ..old(self).inner } }),
            *final(self) == *final(r),
    {
        self.inner.is_app_sandbox = is_app_sandbox;
        self
    }

    pub fn encrypt(&mut self, encrypt: bool) -> (r: &mut Self)
        ensures
            *r == (RTDDeviceTokenApplePushVoIPBuilder { inner: DeviceTokenApplePushVoIP { encrypt: encrypt, ..old(self).inner } }),
            *final(self) == *final(r),
    {
        self.inner.encrypt = encrypt;
        self
    }
}
/// A token for BlackBerry Push Service
#[derive(Debug, PartialEq)]
pub struct DeviceTokenBlackBerryPush {
    pub extra: Option<String>,
    /// Token; may be empty to de-register a device
    pub token: String,
}

impl DeviceTokenBlackBerryPush {
    pub open spec fn tag_spec() -> Seq<char> {
        "deviceTokenBlackBerryPush"@
    }

    /// The members of the wire object, in the order they are written.
    pub open spec fn members_spec(self) -> Seq<(Seq<char>, SpecJson)> {
        seq![
            ("@type"@, SpecJson::Str(Self::tag_spec())),
            ("@extra"@, opt_str_tree(opt_str_view(self.extra))),
            ("token"@, SpecJson::Str(self.token@)),
        ]
    }

    pub open spec fn fields_ok(t: SpecJson) -> bool {
        &&& ok_opt_str(t, "@extra"@)
        &&& ok_str(t, "token"@)
    }

    pub open spec fn fail_field(t: SpecJson) -> Seq<char> {
        if !ok_opt_str(t, "@extra"@) {
            "@extra"@
        } else if !(ok_str(t, "token"@)) {
            "token"@
        } else {
            Seq::empty()
        }
    }

    /// The encoding of a value carries exactly this type's tag.
    pub proof fn lemma_wire_tag(v: DeviceTokenBlackBerryPush)
        ensures
            v.wire_tree() matches Some(t) ==> tag_of(t) == Some(DeviceTokenBlackBerryPush::tag_spec()),
    {
        if v.wire_tree() is Some {
            let t = v.wire_tree()->0;
            let ms = t->Obj_0;
            lemma_get_spec_found(ms, "@type"@, 0);
        }
    }
}

impl Clone for DeviceTokenBlackBerryPush {
    fn clone(&self) -> (res: Self)
        ensures
            res.eqv(*self),
    {
        DeviceTokenBlackBerryPush {
            extra: clone_opt_string(&self.extra),
            token: self.token.clone(),
        }
    }
}

impl Wire for DeviceTokenBlackBerryPush {
    open spec fn wire_tree(self) -> Option<SpecJson> {
        Some(SpecJson::Obj(self.members_spec()))
    }

    open spec fn accepts(t: SpecJson) -> bool {
        tag_of(t) is Some && Self::fields_ok(t)
    }

    open spec fn err_of(t: SpecJson) -> SpecDecodeError {
        match tag_of(t) {
            None => SpecDecodeError::Malformed,
            Some(_) => SpecDecodeError::FieldShapeMismatch(Self::tag_spec(), Self::fail_field(t)),
        }
    }

    open spec fn decodes_from(t: SpecJson, v: Self) -> bool {
        &&& m_opt_str(t, "@extra"@, v.extra)
        &&& m_str(t, "token"@, v.token@)
    }

    open spec fn eqv(self, other: Self) -> bool {
        &&& eqv_opt_string(self.extra, other.extra)
        &&& self.token@ == other.token@
    }

    fn clone_val(&self) -> (r: Self) {
        self.clone()
    }

    fn decode_tree(t: &JsonValue) -> (r: Result<Self, DecodeError>) {
        if get_tag(t).is_none() {
            return Err(DecodeError::Malformed);
        }
        let extra = match field_opt_string(t, "@extra") {
            Some(x) => x,
            None => {
                return Err(DecodeError::FieldShapeMismatch(
                    String::from_str("deviceTokenBlackBerryPush"),
                    String::from_str("@extra"),
                ));
            },
        };
        let token = match field_string(t, "token") {
            Some(x) => x,
            None => {
                return Err(DecodeError::FieldShapeMismatch(
                    String::from_str("deviceTokenBlackBerryPush"),
                    String::from_str("token"),
                ));
            },
        };
        Ok(DeviceTokenBlackBerryPush { extra, token })
    }

    fn encode_tree(&self) -> (r: Result<JsonValue, EncodeError>) {
        let mut members: Vec<JsonMember> = Vec::new();
        proof {
            assert(view_members(members@) =~= Seq::<(Seq<char>, SpecJson)>::empty());
        }
        push_member(&mut members, "@type", JsonValue::Str(String::from_str("deviceTokenBlackBerryPush")));
        push_member(&mut members, "@extra", opt_string_tree(&self.extra));
        push_member(&mut members, "token", JsonValue::Str(self.token.clone()));
        let node = JsonValue::Obj(members);
        proof {
            assert(view_members(members@) =~= self.members_spec());
            assert(node@ == self.wire_tree()->0);
        }
        Ok(node)
    }

    proof fn lemma_wire_wf(v: Self) {
        if v.wire_tree() is Some {
            let t = v.wire_tree()->0;
            let ms = t->Obj_0;
            assert(ms == v.members_spec());
            assert forall|i: int| 0 <= i < ms.len() implies wf(#[trigger] ms[i].1) by {
            }
        }
    }

    proof fn lemma_round_trip(v: Self) {
        if v.wire_tree() is Some {
            let t = v.wire_tree()->0;
            let ms = t->Obj_0;
            assert(ms == v.members_spec());
            reveal_strlit("@type");
            reveal_strlit("@extra");
            reveal_strlit("token");
            assert("@type"@.len() == 5);
            assert("@extra"@.len() == 6);
            assert("token"@.len() == 5);
            assert("@type"@[0] == '@' && "token"@[0] == 't');
            reveal_with_fuel(get_spec, 5);
            lemma_get_spec_found(ms, "@type"@, 0);
            lemma_get_spec_found(ms, "@extra"@, 1);
            lemma_get_spec_found(ms, "token"@, 2);
            assert(tag_of(t) == Some(Self::tag_spec()));
            assert(ok_opt_str(t, "@extra"@));
            assert(ok_str(t, "token"@));
            assert(Self::accepts(t));
            assert forall|w: Self| Self::decodes_from(t, w) implies #[trigger] w.eqv(v) by {
            }
        }
    }
}

impl RObject for DeviceTokenBlackBerryPush {
    open spec fn tag_chars(&self) -> Seq<char> {
        Self::tag_spec()
    }

    open spec fn extra_spec(&self) -> Option<Seq<char>> {
        opt_str_view(self.extra)
    }

    fn td_name(&self) -> (r: &'static str) {
        "deviceTokenBlackBerryPush"
    }

    fn extra(&self) -> (r: Option<String>) {
        clone_opt_string(&self.extra)
    }

    fn to_json(&self) -> (r: Result<String, EncodeError>) {
        crate::object::encode(self)
    }
}

impl TDDeviceToken for DeviceTokenBlackBerryPush {

}

impl DeviceTokenBlackBerryPush {
    pub fn from_json(json: &str) -> (r: Result<DeviceTokenBlackBerryPush, DecodeError>)
        ensures
            match crate::parse::parse_doc(json@) {
                Some(t) => match r {
                    Ok(v) => Self::accepts(t) && Self::decodes_from(t, v),
                    Err(e) => !Self::accepts(t) && crate::errors::err_matches(e, Self::err_of(t)),
                },
                None => r matches Err(e) && e == DecodeError::Malformed,
            },
    {
        crate::object::from_json::<DeviceTokenBlackBerryPush>(json)
    }

    pub fn builder() -> (r: RTDDeviceTokenBlackBerryPushBuilder)
        ensures
            r.inner.extra is Some,
            r.inner.token@ == Seq::<char>::empty(),
    {
        RTDDeviceTokenBlackBerryPushBuilder {
            inner: DeviceTokenBlackBerryPush {
                extra: Some(new_token()),
                token: String::new(),
            },
        }
    }

    pub fn token(&self) -> (r: &String)
        ensures
            *r == self.token,
    {
        &self.token
    }
}

pub struct RTDDeviceTokenBlackBerryPushBuilder {
    pub inner: DeviceTokenBlackBerryPush,
}

impl RTDDeviceTokenBlackBerryPushBuilder {
    pub fn build(&self) -> (r: DeviceTokenBlackBerryPush)
        ensures
            r.eqv(self.inner),
    {
        self.inner.clone()
    }

    pub fn token(&mut self, token: String) -> (r: &mut Self)
        ensures
            *r == (RTDDeviceTokenBlackBerryPushBuilder { inner: DeviceTokenBlackBerryPush { token: token, ..old(self).inner } }),
            *final(self) == *final(r),
    {
        self.inner.token = token;
        self
    }
}
/// A token for Firebase Cloud Messaging
#[derive(Debug, PartialEq)]
pub struct DeviceTokenFirebaseCloudMessaging {
    pub extra: Option<String>,
    /// Device registration token; may be empty to de-register a device
    pub token: String,
    /// True, if push notifications must be additionally encrypted
    pub encrypt: bool,
}

impl DeviceTokenFirebaseCloudMessaging {
    pub open spec fn tag_spec() -> Seq<char> {
        "deviceTokenFirebaseCloudMessaging"@
    }

    /// The members of the wire object, in the order they are written.
    pub open spec fn members_spec(self) -> Seq<(Seq<char>, SpecJson)> {
        seq![
            ("@type"@, SpecJson::Str(Self::tag_spec())),
            ("@extra"@, opt_str_tree(opt_str_view(self.extra))),
            ("token"@, SpecJson::Str(self.token@)),
            ("encrypt"@, SpecJson::Bool(self.encrypt)),
        ]
    }

    pub open spec fn fields_ok(t: SpecJson) -> bool {
        &&& ok_opt_str(t, "@extra"@)
        &&& ok_str(t, "token"@)
        &&& ok_bool(t, "encrypt"@)
    }

    pub open spec fn fail_field(t: SpecJson) -> Seq<char> {
        if !ok_opt_str(t, "@extra"@) {
            "@extra"@
        } else if !(ok_str(t, "token"@)) {
            "token"@
        } else if !(ok_bool(t, "encrypt"@)) {
            "encrypt"@
        } else {
            Seq::empty()
        }
    }

    /// The encoding of a value carries exactly this type's tag.
    pub proof fn lemma_wire_tag(v: DeviceTokenFirebaseCloudMessaging)
        ensures
            v.wire_tree() matches Some(t) ==> tag_of(t) == Some(DeviceTokenFirebaseCloudMessaging::tag_spec()),
    {
        if v.wire_tree() is Some {
            let t = v.wire_tree()->0;
            let ms = t->Obj_0;
            lemma_get_spec_found(ms, "@type"@, 0);
        }
    }
}

impl Clone for DeviceTokenFirebaseCloudMessaging {
    fn clone(&self) -> (res: Self)
        ensures
            res.eqv(*self),
    {
        DeviceTokenFirebaseCloudMessaging {
            extra: clone_opt_string(&self.extra),
            token: self.token.clone(),
            encrypt: self.encrypt,
        }
    }
}

impl Wire for DeviceTokenFirebaseCloudMessaging {
    open spec fn wire_tree(self) -> Option<SpecJson> {
        Some(SpecJson::Obj(self.members_spec()))
    }

    open spec fn accepts(t: SpecJson) -> bool {
        tag_of(t) is Some && Self::fields_ok(t)
    }

    open spec fn err_of(t: SpecJson) -> SpecDecodeError {
        match tag_of(t) {
            None => SpecDecodeError::Malformed,
            Some(_) => SpecDecodeError::FieldShapeMismatch(Self::tag_spec(), Self::fail_field(t)),
        }
    }

    open spec fn decodes_from(t: SpecJson, v: Self) -> bool {
        &&& m_opt_str(t, "@extra"@, v.extra)
        &&& m_str(t, "token"@, v.token@)
        &&& m_bool(t, "encrypt"@, v.encrypt)
    }

    open spec fn eqv(self, other: Self) -> bool {
        &&& eqv_opt_string(self.extra, other.extra)
        &&& self.token@ == other.token@
        &&& self.encrypt == other.encrypt
    }

    fn clone_val(&self) -> (r: Self) {
        self.clone()
    }

    fn decode_tree(t: &JsonValue) -> (r: Result<Self, DecodeError>) {
        if get_tag(t).is_none() {
            return Err(DecodeError::Malformed);
        }
        let extra = match field_opt_string(t, "@extra") {
            Some(x) => x,
            None => {
                return Err(DecodeError::FieldShapeMismatch(
                    String::from_str("deviceTokenFirebaseCloudMessaging"),
                    String::from_str("@extra"),
                ));
            },
        };
        let token = match field_string(t, "token") {
            Some(x) => x,
            None => {
                return Err(DecodeError::FieldShapeMismatch(
                    String::from_str("deviceTokenFirebaseCloudMessaging"),
                    String::from_str("token"),
                ));
            },
        };
        let encrypt = match field_bool(t, "encrypt") {
            Some(x) => x,
            None => {
                return Err(DecodeError::FieldShapeMismatch(
                    String::from_str("deviceTokenFirebaseCloudMessaging"),
                    String::from_str("encrypt"),
                ));
            },
        };
        Ok(DeviceTokenFirebaseCloudMessaging { extra, token, encrypt })
    }

    fn encode_tree(&self) -> (r: Result<JsonValue, EncodeError>) {
        let mut members: Vec<JsonMember> = Vec::new();
        proof {
            assert(view_members(members@) =~= Seq::<(Seq<char>, SpecJson)>::empty());
        }
        push_member(&mut members, "@type", JsonValue::Str(String::from_str("deviceTokenFirebaseCloudMessaging")));
        push_member(&mut members, "@extra", opt_string_tree(&self.extra));
        push_member(&mut members, "token", JsonValue::Str(self.token.clone()));
        push_member(&mut members, "encrypt", JsonValue::Bool(self.encrypt));
        let node = JsonValue::Obj(members);
        proof {
            assert(view_members(members@) =~= self.members_spec());
            assert(node@ == self.wire_tree()->0);
        }
        Ok(node)
    }

    proof fn lemma_wire_wf(v: Self) {
        if v.wire_tree() is Some {
            let t = v.wire_tree()->0;
            let ms = t->Obj_0;
            assert(ms == v.members_spec());
            assert forall|i: int| 0 <= i < ms.len() implies wf(#[trigger] ms[i].1) by {
            }
        }
    }

    proof fn lemma_round_trip(v: Self) {
        if v.wire_tree() is Some {
            let t = v.wire_tree()->0;
            let ms = t->Obj_0;
            assert(ms == v.members_spec());
            reveal_strlit("@type");
            reveal_strlit("@extra");
            reveal_strlit("token");
            reveal_strlit("encrypt");
            assert("@type"@.len() == 5);
            assert("@extra"@.len() == 6);
            assert("token"@.len() == 5);
            assert("encrypt"@.len() == 7);
            assert("@type"@[0] == '@' && "token"@[0] == 't');
            reveal_with_fuel(get_spec, 6);
            lemma_get_spec_found(ms, "@type"@, 0);
            lemma_get_spec_found(ms, "@extra"@, 1);
            lemma_get_spec_found(ms, "token"@, 2);
            lemma_get_spec_found(ms, "encrypt"@, 3);
            assert(tag_of(t) == Some(Self::tag_spec()));
            assert(ok_opt_str(t, "@extra"@));
            assert(ok_str(t, "token"@));
            assert(ok_bool(t, "encrypt"@));
            assert(Self::accepts(t));
            assert forall|w: Self| Self::decodes_from(t, w) implies #[trigger] w.eqv(v) by {
            }
        }
    }
}

impl RObject for DeviceTokenFirebaseCloudMessaging {
    open spec fn tag_chars(&self) -> Seq<char> {
        Self::tag_spec()
    }

    open spec fn extra_spec(&self) -> Option<Seq<char>> {
        opt_str_view(self.extra)
    }

    fn td_name(&self) -> (r: &'static str) {
        "deviceTokenFirebaseCloudMessaging"
    }

    fn extra(&self) -> (r: Option<String>) {
        clone_opt_string(&self.extra)
    }

    fn to_json(&self) -> (r: Result<String, EncodeError>) {
        crate::object::encode(self)
    }
}

impl TDDeviceToken for DeviceTokenFirebaseCloudMessaging {

}

impl DeviceTokenFirebaseCloudMessaging {
    pub fn from_json(json: &str) -> (r: Result<DeviceTokenFirebaseCloudMessaging, DecodeError>)
        ensures
            match crate::parse::parse_doc(json@) {
                Some(t) => match r {
                    Ok(v) => Self::accepts(t) && Self::decodes_from(t, v),
                    Err(e) => !Self::accepts(t) && crate::errors::err_matches(e, Self::err_of(t)),
                },
                None => r matches Err(e) && e == DecodeError::Malformed,
            },
    {
        crate::object::from_json::<DeviceTokenFirebaseCloudMessaging>(json)
    }

    pub fn builder() -> (r: RTDDeviceTokenFirebaseCloudMessagingBuilder)
        ensures
            r.inner.extra is Some,
            r.inner.token@ == Seq::<char>::empty(),
            r.inner.encrypt == false,
    {
        RTDDeviceTokenFirebaseCloudMessagingBuilder {
            inner: DeviceTokenFirebaseCloudMessaging {
                extra: Some(new_token()),
                token: String::new(),
                encrypt: false,
            },
        }
    }

    pub fn token(&self) -> (r: &String)
        ensures
            *r == self.token,
    {
        &self.token
    }

    pub fn encrypt(&self) -> (r: bool)
        ensures
            r == self.encrypt,
    {
        self.encrypt
    }
}

pub struct RTDDeviceTokenFirebaseCloudMessagingBuilder {
    pub inner: DeviceTokenFirebaseCloudMessaging,
}

impl RTDDeviceTokenFirebaseCloudMessagingBuilder {
    pub fn build(&self) -> (r: DeviceTokenFirebaseCloudMessaging)
        ensures
            r.eqv(self.inner),
    {
        self.inner.clone()
    }

    pub fn token(&mut self, token: String) -> (r: &mut Self)
        ensures
            *r == (RTDDeviceTokenFirebaseCloudMessagingBuilder { inner: DeviceTokenFirebaseCloudMessaging { token: token, ..old(self).inner } }),
            *final(self) == *final(r),
    {
        self.inner.token = token;
        self
    }

    pub fn encrypt(&mut self, encrypt: bool) -> (r: &mut Self)
        ensures
            *r == (RTDDeviceTokenFirebaseCloudMessagingBuilder { inner: DeviceTokenFirebaseCloudMessaging { encrypt: encrypt, ..old(self).inner } }),
            *final(self) == *final(r),
    {
        self.inner.encrypt = encrypt;
        self
    }
}
/// A token for Microsoft Push Notification Service
#[derive(Debug, PartialEq)]
pub struct DeviceTokenMicrosoftPush {
    pub extra: Option<String>,
    /// Push notification channel URI; may be empty to de-register a device
    pub channel_uri: String,
}

impl DeviceTokenMicrosoftPush {
    pub open spec fn tag_spec() -> Seq<char> {
        "deviceTokenMicrosoftPush"@
    }

    /// The members of the wire object, in the order they are written.
    pub open spec fn members_spec(self) -> Seq<(Seq<char>, SpecJson)> {
        seq![
            ("@type"@, SpecJson::Str(Self::tag_spec())),
            ("@extra"@, opt_str_tree(opt_str_view(self.extra))),
            ("channel_uri"@, SpecJson::Str(self.channel_uri@)),
        ]
    }

    pub open spec fn fields_ok(t: SpecJson) -> bool {
        &&& ok_opt_str(t, "@extra"@)
        &&& ok_str(t, "channel_uri"@)
    }

    pub open spec fn fail_field(t: SpecJson) -> Seq<char> {
        if !ok_opt_str(t, "@extra"@) {
            "@extra"@
        } else if !(ok_str(t, "channel_uri"@)) {
            "channel_uri"@
        } else {
            Seq::empty()
        }
    }

    /// The encoding of a value carries exactly this type's tag.
    pub proof fn lemma_wire_tag(v: DeviceTokenMicrosoftPush)
        ensures
            v.wire_tree() matches Some(t) ==> tag_of(t) == Some(DeviceTokenMicrosoftPush::tag_spec()),
    {
        if v.wire_tree() is Some {
            let t = v.wire_tree()->0;
            let ms = t->Obj_0;
            lemma_get_spec_found(ms, "@type"@, 0);
        }
    }
}

impl Clone for DeviceTokenMicrosoftPush {
    fn clone(&self) -> (res: Self)
        ensures
            res.eqv(*self),
    {
        DeviceTokenMicrosoftPush {
            extra: clone_opt_string(&self.extra),
            channel_uri: self.channel_uri.clone(),
        }
    }
}

impl Wire for DeviceTokenMicrosoftPush {
    open spec fn wire_tree(self) -> Option<SpecJson> {
        Some(SpecJson::Obj(self.members_spec()))
    }

    open spec fn accepts(t: SpecJson) -> bool {
        tag_of(t) is Some && Self::fields_ok(t)
    }

    open spec fn err_of(t: SpecJson) -> SpecDecodeError {
        match tag_of(t) {
            None => SpecDecodeError::Malformed,
            Some(_) => SpecDecodeError::FieldShapeMismatch(Self::tag_spec(), Self::fail_field(t)),
        }
    }

    open spec fn decodes_from(t: SpecJson, v: Self) -> bool {
        &&& m_opt_str(t, "@extra"@, v.extra)
        &&& m_str(t, "channel_uri"@, v.channel_uri@)
    }

    open spec fn eqv(self, other: Self) -> bool {
        &&& eqv_opt_string(self.extra, other.extra)
        &&& self.channel_uri@ == other.channel_uri@
    }

    fn clone_val(&self) -> (r: Self) {
        self.clone()
    }

    fn decode_tree(t: &JsonValue) -> (r: Result<Self, DecodeError>) {
        if get_tag(t).is_none() {
            return Err(DecodeError::Malformed);
        }
        let extra = match field_opt_string(t, "@extra") {
            Some(x) => x,
            None => {
                return Err(DecodeError::FieldShapeMismatch(
                    String::from_str("deviceTokenMicrosoftPush"),
                    String::from_str("@extra"),
                ));
            },
        };
        let channel_uri = match field_string(t, "channel_uri") {
            Some(x) => x,
            None => {
                return Err(DecodeError::FieldShapeMismatch(
                    String::from_str("deviceTokenMicrosoftPush"),
                    String::from_str("channel_uri"),
                ));
            },
        };
        Ok(DeviceTokenMicrosoftPush { extra, channel_uri })
    }

    fn encode_tree(&self) -> (r: Result<JsonValue, EncodeError>) {
        let mut members: Vec<JsonMember> = Vec::new();
        proof {
            assert(view_members(members@) =~= Seq::<(Seq<char>, SpecJson)>::empty());
        }
        push_member(&mut members, "@type", JsonValue::Str(String::from_str("deviceTokenMicrosoftPush")));
        push_member(&mut members, "@extra", opt_string_tree(&self.extra));
        push_member(&mut members, "channel_uri", JsonValue::Str(self.channel_uri.clone()));
        let node = JsonValue::Obj(members);
        proof {
            assert(view_members(members@) =~= self.members_spec());
            assert(node@ == self.wire_tree()->0);
        }
        Ok(node)
    }

    proof fn lemma_wire_wf(v: Self) {
        if v.wire_tree() is Some {
            let t = v.wire_tree()->0;
            let ms = t->Obj_0;
            assert(ms == v.members_spec());
            assert forall|i: int| 0 <= i < ms.len() implies wf(#[trigger] ms[i].1) by {
            }
        }
    }

    proof fn lemma_round_trip(v: Self) {
        if v.wire_tree() is Some {
            let t = v.wire_tree()->0;
            let ms = t->Obj_0;
            assert(ms == v.members_spec());
            reveal_strlit("@type");
            reveal_strlit("@extra");
            reveal_strlit("channel_uri");
            assert("@type"@.len() == 5);
            assert("@extra"@.len() == 6);
            assert("channel_uri"@.len() == 11);
            reveal_with_fuel(get_spec, 5);
            lemma_get_spec_found(ms, "@type"@, 0);
            lemma_get_spec_found(ms, "@extra"@, 1);
            lemma_get_spec_found(ms, "channel_uri"@, 2);
            assert(tag_of(t) == Some(Self::tag_spec()));
            assert(ok_opt_str(t, "@extra"@));
            assert(ok_str(t, "channel_uri"@));
            assert(Self::accepts(t));
            assert forall|w: Self| Self::decodes_from(t, w) implies #[trigger] w.eqv(v) by {
            }
        }
    }
}

impl RObject for DeviceTokenMicrosoftPush {
    open spec fn tag_chars(&self) -> Seq<char> {
        Self::tag_spec()
    }

    open spec fn extra_spec(&self) -> Option<Seq<char>> {
        opt_str_view(self.extra)
    }

    fn td_name(&self) -> (r: &'static str) {
        "deviceTokenMicrosoftPush"
    }

    fn extra(&self) -> (r: Option<String>) {
        clone_opt_string(&self.extra)
    }

    fn to_json(&self) -> (r: Result<String, EncodeError>) {
        crate::object::encode(self)
    }
}

impl TDDeviceToken for DeviceTokenMicrosoftPush {

}

impl DeviceTokenMicrosoftPush {
    pub fn from_json(json: &str) -> (r: Result<DeviceTokenMicrosoftPush, DecodeError>)
        ensures
            match crate::parse::parse_doc(json@) {
                Some(t) => match r {
                    Ok(v) => Self::accepts(t) && Self::decodes_from(t, v),
                    Err(e) => !Self::accepts(t) && crate::errors::err_matches(e, Self::err_of(t)),
                },
                None => r matches Err(e) && e == DecodeError::Malformed,
            },
    {
        crate::object::from_json::<DeviceTokenMicrosoftPush>(json)
    }

    pub fn builder() -> (r: RTDDeviceTokenMicrosoftPushBuilder)
        ensures
            r.inner.extra is Some,
            r.inner.channel_uri@ == Seq::<char>::empty(),
    {
        RTDDeviceTokenMicrosoftPushBuilder {
            inner: DeviceTokenMicrosoftPush {
                extra: Some(new_token()),
                channel_uri: String::new(),
            },
        }
    }

    pub fn channel_uri(&self) -> (r: &String)
        ensures
            *r == self.channel_uri,
    {
        &self.channel_uri
    }
}

pub struct RTDDeviceTokenMicrosoftPushBuilder {
    pub inner: DeviceTokenMicrosoftPush,
}

impl RTDDeviceTokenMicrosoftPushBuilder {
    pub fn build(&self) -> (r: DeviceTokenMicrosoftPush)
        ensures
            r.eqv(self.inner),
    {
        self.inner.clone()
    }

    pub fn channel_uri(&mut self, channel_uri: String) -> (r: &mut Self)
        ensures
            *r == (RTDDeviceTokenMicrosoftPushBuilder { inner: DeviceTokenMicrosoftPush { channel_uri: channel_uri, ..old(self).inner } }),
            *final(self) == *final(r),
    {
        self.inner.channel_uri = channel_uri;
        self
    }
}
/// A token for Microsoft Push Notification Service VoIP channel
#[derive(Debug, PartialEq)]
pub struct DeviceTokenMicrosoftPushVoIP {
    pub extra: Option<String>,
    /// Push notification channel URI; may be empty to de-register a device
    pub channel_uri: String,
}

impl DeviceTokenMicrosoftPushVoIP {
    pub open spec fn tag_spec() -> Seq<char> {
        "deviceTokenMicrosoftPushVoIP"@
    }

    /// The members of the wire object, in the order they are written.
    pub open spec fn members_spec(self) -> Seq<(Seq<char>, SpecJson)> {
        seq![
            ("@type"@, SpecJson::Str(Self::tag_spec())),
            ("@extra"@, opt_str_tree(opt_str_view(self.extra))),
            ("channel_uri"@, SpecJson::Str(self.channel_uri@)),
        ]
    }

    pub open spec fn fields_ok(t: SpecJson) -> bool {
        &&& ok_opt_str(t, "@extra"@)
        &&& ok_str(t, "channel_uri"@)
    }

    pub open spec fn fail_field(t: SpecJson) -> Seq<char> {
        if !ok_opt_str(t, "@extra"@) {
            "@extra"@
        } else if !(ok_str(t, "channel_uri"@)) {
            "channel_uri"@
        } else {
            Seq::empty()
        }
    }

    /// The encoding of a value carries exactly this type's tag.
    pub proof fn lemma_wire_tag(v: DeviceTokenMicrosoftPushVoIP)
        ensures
            v.wire_tree() matches Some(t) ==> tag_of(t) == Some(DeviceTokenMicrosoftPushVoIP::tag_spec()),
    {
        if v.wire_tree() is Some {
            let t = v.wire_tree()->0;
            let ms = t->Obj_0;
            lemma_get_spec_found(ms, "@type"@, 0);
        }
    }
}

impl Clone for DeviceTokenMicrosoftPushVoIP {
    fn clone(&self) -> (res: Self)
        ensures
            res.eqv(*self),
    {
        DeviceTokenMicrosoftPushVoIP {
            extra: clone_opt_string(&self.extra),
            channel_uri: self.channel_uri.clone(),
        }
    }
}

impl Wire for DeviceTokenMicrosoftPushVoIP {
    open spec fn wire_tree(self) -> Option<SpecJson> {
        Some(SpecJson::Obj(self.members_spec()))
    }

    open spec fn accepts(t: SpecJson) -> bool {
        tag_of(t) is Some && Self::fields_ok(t)
    }

    open spec fn err_of(t: SpecJson) -> SpecDecodeError {
        match tag_of(t) {
            None => SpecDecodeError::Malformed,
            Some(_) => SpecDecodeError::FieldShapeMismatch(Self::tag_spec(), Self::fail_field(t)),
        }
    }

    open spec fn decodes_from(t: SpecJson, v: Self) -> bool {
        &&& m_opt_str(t, "@extra"@, v.extra)
        &&& m_str(t, "channel_uri"@, v.channel_uri@)
    }

    open spec fn eqv(self, other: Self) -> bool {
        &&& eqv_opt_string(self.extra, other.extra)
        &&& self.channel_uri@ == other.channel_uri@
    }

    fn clone_val(&self) -> (r: Self) {
        self.clone()
    }

    fn decode_tree(t: &JsonValue) -> (r: Result<Self, DecodeError>) {
        if get_tag(t).is_none() {
            return Err(DecodeError::Malformed);
        }
        let extra = match field_opt_string(t, "@extra") {
            Some(x) => x,
            None => {
                return Err(DecodeError::FieldShapeMismatch(
                    String::from_str("deviceTokenMicrosoftPushVoIP"),
                    String::from_str("@extra"),
                ));
            },
        };
        let channel_uri = match field_string(t, "channel_uri") {
            Some(x) => x,
            None => {
                return Err(DecodeError::FieldShapeMismatch(
                    String::from_str("deviceTokenMicrosoftPushVoIP"),
                    String::from_str("channel_uri"),
                ));
            },
        };
        Ok(DeviceTokenMicrosoftPushVoIP { extra, channel_uri })
    }

    fn encode_tree(&self) -> (r: Result<JsonValue, EncodeError>) {
        let mut members: Vec<JsonMember> = Vec::new();
        proof {
            assert(view_members(members@) =~= Seq::<(Seq<char>, SpecJson)>::empty());
        }
        push_member(&mut members, "@type", JsonValue::Str(String::from_str("deviceTokenMicrosoftPushVoIP")));
        push_member(&mut members, "@extra", opt_string_tree(&self.extra));
        push_member(&mut members, "channel_uri", JsonValue::Str(self.channel_uri.clone()));
        let node = JsonValue::Obj(members);
        proof {
            assert(view_members(members@) =~= self.members_spec());
            assert(node@ == self.wire_tree()->0);
        }
        Ok(node)
    }

    proof fn lemma_wire_wf(v: Self) {
        if v.wire_tree() is Some {
            let t = v.wire_tree()->0;
            let ms = t->Obj_0;
            assert(ms == v.members_spec());
            assert forall|i: int| 0 <= i < ms.len() implies wf(#[trigger] ms[i].1) by {
            }
        }
    }

    proof fn lemma_round_trip(v: Self) {
        if v.wire_tree() is Some {
            let t = v.wire_tree()->0;
            let ms = t->Obj_0;
            assert(ms == v.members_spec());
            reveal_strlit("@type");
            reveal_strlit("@extra");
            reveal_strlit("channel_uri");
            assert("@type"@.len() == 5);
            assert("@extra"@.len() == 6);
            assert("channel_uri"@.len() == 11);
            reveal_with_fuel(get_spec, 5);
            lemma_get_spec_found(ms, "@type"@, 0);
            lemma_get_spec_found(ms, "@extra"@, 1);
            lemma_get_spec_found(ms, "channel_uri"@, 2);
            assert(tag_of(t) == Some(Self::tag_spec()));
            assert(ok_opt_str(t, "@extra"@));
            assert(ok_str(t, "channel_uri"@));
            assert(Self::accepts(t));
            assert forall|w: Self| Self::decodes_from(t, w) implies #[trigger] w.eqv(v) by {
            }
        }
    }
}

impl RObject for DeviceTokenMicrosoftPushVoIP {
    open spec fn tag_chars(&self) -> Seq<char> {
        Self::tag_spec()
    }

    open spec fn extra_spec(&self) -> Option<Seq<char>> {
        opt_str_view(self.extra)
    }

    fn td_name(&self) -> (r: &'static str) {
        "deviceTokenMicrosoftPushVoIP"
    }

    fn extra(&self) -> (r: Option<String>) {
        clone_opt_string(&self.extra)
    }

    fn to_json(&self) -> (r: Result<String, EncodeError>) {
        crate::object::encode(self)
    }
}

impl TDDeviceToken for DeviceTokenMicrosoftPushVoIP {

}

impl DeviceTokenMicrosoftPushVoIP {
    pub fn from_json(json: &str) -> (r: Result<DeviceTokenMicrosoftPushVoIP, DecodeError>)
        ensures
            match crate::parse::parse_doc(json@) {
                Some(t) => match r {
                    Ok(v) => Self::accepts(t) && Self::decodes_from(t, v),
                    Err(e) => !Self::accepts(t) && crate::errors::err_matches(e, Self::err_of(t)),
                },
                None => r matches Err(e) && e == DecodeError::Malformed,
            },
    {
        crate::object::from_json::<DeviceTokenMicrosoftPushVoIP>(json)
    }

    pub fn builder() -> (r: RTDDeviceTokenMicrosoftPushVoIPBuilder)
        ensures
            r.inner.extra is Some,
            r.inner.channel_uri@ == Seq::<char>::empty(),
    {
        RTDDeviceTokenMicrosoftPushVoIPBuilder {
            inner: DeviceTokenMicrosoftPushVoIP {
                extra: Some(new_token()),
                channel_uri: String::new(),
            },
        }
    }

    pub fn channel_uri(&self) -> (r: &String)
        ensures
            *r == self.channel_uri,
    {
        &self.channel_uri
    }
}

pub struct RTDDeviceTokenMicrosoftPushVoIPBuilder {
    pub inner: DeviceTokenMicrosoftPushVoIP,
}

impl RTDDeviceTokenMicrosoftPushVoIPBuilder {
    pub fn build(&self) -> (r: DeviceTokenMicrosoftPushVoIP)
        ensures
            r.eqv(self.inner),
    {
        self.inner.clone()
    }

    pub fn channel_uri(&mut self, channel_uri: String) -> (r: &mut Self)
        ensures
            *r == (RTDDeviceTokenMicrosoftPushVoIPBuilder { inner: DeviceTokenMicrosoftPushVoIP { channel_uri: channel_uri, ..old(self).inner } }),
            *final(self) == *final(r),
    {
        self.inner.channel_uri = channel_uri;
        self
    }
}
/// A token for Simple Push API for Firefox OS
#[derive(Debug, PartialEq)]
pub struct DeviceTokenSimplePush {
    pub extra: Option<String>,
    /// Absolute URL exposed by the push service where the application server can send push messages; may be empty to de-register a device
    pub endpoint: String,
}

impl DeviceTokenSimplePush {
    pub open spec fn tag_spec() -> Seq<char> {
        "deviceTokenSimplePush"@
    }

    /// The members of the wire object, in the order they are written.
    pub open spec fn members_spec(self) -> Seq<(Seq<char>, SpecJson)> {
        seq![
            ("@type"@, SpecJson::Str(Self::tag_spec())),
            ("@extra"@, opt_str_tree(opt_str_view(self.extra))),
            ("endpoint"@, SpecJson::Str(self.endpoint@)),
        ]
    }

    pub open spec fn fields_ok(t: SpecJson) -> bool {
        &&& ok_opt_str(t, "@extra"@)
        &&& ok_str(t, "endpoint"@)
    }

    pub open spec fn fail_field(t: SpecJson) -> Seq<char> {
        if !ok_opt_str(t, "@extra"@) {
            "@extra"@
        } else if !(ok_str(t, "endpoint"@)) {
            "endpoint"@
        } else {
            Seq::empty()
        }
    }

    /// The encoding of a value carries exactly this type's tag.
    pub proof fn lemma_wire_tag(v: DeviceTokenSimplePush)
        ensures
            v.wire_tree() matches Some(t) ==> tag_of(t) == Some(DeviceTokenSimplePush::tag_spec()),
    {
        if v.wire_tree() is Some {
            let t = v.wire_tree()->0;
            let ms = t->Obj_0;
            lemma_get_spec_found(ms, "@type"@, 0);
        }
    }
}

impl Clone for DeviceTokenSimplePush {
    fn clone(&self) -> (res: Self)
        ensures
            res.eqv(*self),
    {
        DeviceTokenSimplePush {
            extra: clone_opt_string(&self.extra),
            endpoint: self.endpoint.clone(),
        }
    }
}

impl Wire for DeviceTokenSimplePush {
    open spec fn wire_tree(self) -> Option<SpecJson> {
        Some(SpecJson::Obj(self.members_spec()))
    }

    open spec fn accepts(t: SpecJson) -> bool {
        tag_of(t) is Some && Self::fields_ok(t)
    }

    open spec fn err_of(t: SpecJson) -> SpecDecodeError {
        match tag_of(t) {
            None => SpecDecodeError::Malformed,
            Some(_) => SpecDecodeError::FieldShapeMismatch(Self::tag_spec(), Self::fail_field(t)),
        }
    }

    open spec fn decodes_from(t: SpecJson, v: Self) -> bool {
        &&& m_opt_str(t, "@extra"@, v.extra)
        &&& m_str(t, "endpoint"@, v.endpoint@)
    }

    open spec fn eqv(self, other: Self) -> bool {
        &&& eqv_opt_string(self.extra, other.extra)
        &&& self.endpoint@ == other.endpoint@
    }

    fn clone_val(&self) -> (r: Self) {
        self.clone()
    }

    fn decode_tree(t: &JsonValue) -> (r: Result<Self, DecodeError>) {
        if get_tag(t).is_none() {
            return Err(DecodeError::Malformed);
        }
        let extra = match field_opt_string(t, "@extra") {
            Some(x) => x,
            None => {
                return Err(DecodeError::FieldShapeMismatch(
                    String::from_str("deviceTokenSimplePush"),
                    String::from_str("@extra"),
                ));
            },
        };
        let endpoint = match field_string(t, "endpoint") {
            Some(x) => x,
            None => {
                return Err(DecodeError::FieldShapeMismatch(
                    String::from_str("deviceTokenSimplePush"),
                    String::from_str("endpoint"),
                ));
            },
        };
        Ok(DeviceTokenSimplePush { extra, endpoint })
    }

    fn encode_tree(&self) -> (r: Result<JsonValue, EncodeError>) {
        let mut members: Vec<JsonMember> = Vec::new();
        proof {
            assert(view_members(members@) =~= Seq::<(Seq<char>, SpecJson)>::empty());
        }
        push_member(&mut members, "@type", JsonValue::Str(String::from_str("deviceTokenSimplePush")));
        push_member(&mut members, "@extra", opt_string_tree(&self.extra));
        push_member(&mut members, "endpoint", JsonValue::Str(self.endpoint.clone()));
        let node = JsonValue::Obj(members);
        proof {
            assert(view_members(members@) =~= self.members_spec());
            assert(node@ == self.wire_tree()->0);
        }
        Ok(node)
    }

    proof fn lemma_wire_wf(v: Self) {
        if v.wire_tree() is Some {
            let t = v.wire_tree()->0;
            let ms = t->Obj_0;
            assert(ms == v.members_spec());
            assert forall|i: int| 0 <= i < ms.len() implies wf(#[trigger] ms[i].1) by {
            }
        }
    }

    proof fn lemma_round_trip(v: Self) {
        if v.wire_tree() is Some {
            let t = v.wire_tree()->0;
            let ms = t->Obj_0;
            assert(ms == v.members_spec());
            reveal_strlit("@type");
            reveal_strlit("@extra");
            reveal_strlit("endpoint");
            assert("@type"@.len() == 5);
            assert("@extra"@.len() == 6);
            assert("endpoint"@.len() == 8);
            reveal_with_fuel(get_spec, 5);
            lemma_get_spec_found(ms, "@type"@, 0);
            lemma_get_spec_found(ms, "@extra"@, 1);
            lemma_get_spec_found(ms, "endpoint"@, 2);
            assert(tag_of(t) == Some(Self::tag_spec()));
            assert(ok_opt_str(t, "@extra"@));
            assert(ok_str(t, "endpoint"@));
            assert(Self::accepts(t));
            assert forall|w: Self| Self::decodes_from(t, w) implies #[trigger] w.eqv(v) by {
            }
        }
    }
}

impl RObject for DeviceTokenSimplePush {
    open spec fn tag_chars(&self) -> Seq<char> {
        Self::tag_spec()
    }

    open spec fn extra_spec(&self) -> Option<Seq<char>> {
        opt_str_view(self.extra)
    }

    fn td_name(&self) -> (r: &'static str) {
        "deviceTokenSimplePush"
    }

    fn extra(&self) -> (r: Option<String>) {
        clone_opt_string(&self.extra)
    }

    fn to_json(&self) -> (r: Result<String, EncodeError>) {
        crate::object::encode(self)
    }
}

impl TDDeviceToken for DeviceTokenSimplePush {

}

impl DeviceTokenSimplePush {
    pub fn from_json(json: &str) -> (r: Result<DeviceTokenSimplePush, DecodeError>)
        ensures
            match crate::parse::parse_doc(json@) {
                Some(t) => match r {
                    Ok(v) => Self::accepts(t) && Self::decodes_from(t, v),
                    Err(e) => !Self::accepts(t) && crate::errors::err_matches(e, Self::err_of(t)),
                },
                None => r matches Err(e) && e == DecodeError::Malformed,
            },
    {
        crate::object::from_json::<DeviceTokenSimplePush>(json)
    }

    pub fn builder() -> (r: RTDDeviceTokenSimplePushBuilder)
        ensures
            r.inner.extra is Some,
            r.inner.endpoint@ == Seq::<char>::empty(),
    {
        RTDDeviceTokenSimplePushBuilder {
            inner: DeviceTokenSimplePush {
                extra: Some(new_token()),
                endpoint: String::new(),
            },
        }
    }

    pub fn endpoint(&self) -> (r: &String)
        ensures
            *r == self.endpoint,
    {
        &self.endpoint
    }
}

pub struct RTDDeviceTokenSimplePushBuilder {
    pub inner: DeviceTokenSimplePush,
}

impl RTDDeviceTokenSimplePushBuilder {
    pub fn build(&self) -> (r: DeviceTokenSimplePush)
        ensures
            r.eqv(self.inner),
    {
        self.inner.clone()
    }

    pub fn endpoint(&mut self, endpoint: String) -> (r: &mut Self)
        ensures
            *r == (RTDDeviceTokenSimplePushBuilder { inner: DeviceTokenSimplePush { endpoint: endpoint, ..old(self).inner } }),
            *final(self) == *final(r),
    {
        self.inner.endpoint = endpoint;
        self
    }
}
/// A token for Tizen Push Service
#[derive(Debug, PartialEq)]
pub struct DeviceTokenTizenPush {
    pub extra: Option<String>,
    /// Push service registration identifier; may be empty to de-register a device
    pub reg_id: String,
}

impl DeviceTokenTizenPush {
    pub open spec fn tag_spec() -> Seq<char> {
        "deviceTokenTizenPush"@
    }

    /// The members of the wire object, in the order they are written.
    pub open spec fn members_spec(self) -> Seq<(Seq<char>, SpecJson)> {
        seq![
            ("@type"@, SpecJson::Str(Self::tag_spec())),
            ("@extra"@, opt_str_tree(opt_str_view(self.extra))),
            ("reg_id"@, SpecJson::Str(self.reg_id@)),
        ]
    }

    pub open spec fn fields_ok(t: SpecJson) -> bool {
        &&& ok_opt_str(t, "@extra"@)
        &&& ok_str(t, "reg_id"@)
    }

    pub open spec fn fail_field(t: SpecJson) -> Seq<char> {
        if !ok_opt_str(t, "@extra"@) {
            "@extra"@
        } else if !(ok_str(t, "reg_id"@)) {
            "reg_id"@
        } else {
            Seq::empty()
        }
    }

    /// The encoding of a value carries exactly this type's tag.
    pub proof fn lemma_wire_tag(v: DeviceTokenTizenPush)
        ensures
            v.wire_tree() matches Some(t) ==> tag_of(t) == Some(DeviceTokenTizenPush::tag_spec()),
    {
        if v.wire_tree() is Some {
            let t = v.wire_tree()->0;
            let ms = t->Obj_0;
            lemma_get_spec_found(ms, "@type"@, 0);
        }
    }
}

impl Clone for DeviceTokenTizenPush {
    fn clone(&self) -> (res: Self)
        ensures
            res.eqv(*self),
    {
        DeviceTokenTizenPush {
            extra: clone_opt_string(&self.extra),
            reg_id: self.reg_id.clone(),
        }
    }
}

impl Wire for DeviceTokenTizenPush {
    open spec fn wire_tree(self) -> Option<SpecJson> {
        Some(SpecJson::Obj(self.members_spec()))
    }

    open spec fn accepts(t: SpecJson) -> bool {
        tag_of(t) is Some && Self::fields_ok(t)
    }

    open spec fn err_of(t: SpecJson) -> SpecDecodeError {
        match tag_of(t) {
            None => SpecDecodeError::Malformed,
            Some(_) => SpecDecodeError::FieldShapeMismatch(Self::tag_spec(), Self::fail_field(t)),
        }
    }

    open spec fn decodes_from(t: SpecJson, v: Self) -> bool {
        &&& m_opt_str(t, "@extra"@, v.extra)
        &&& m_str(t, "reg_id"@, v.reg_id@)
    }

    open spec fn eqv(self, other: Self) -> bool {
        &&& eqv_opt_string(self.extra, other.extra)
        &&& self.reg_id@ == other.reg_id@
    }

    fn clone_val(&self) -> (r: Self) {
        self.clone()
    }

    fn decode_tree(t: &JsonValue) -> (r: Result<Self, DecodeError>) {
        if get_tag(t).is_none() {
            return Err(DecodeError::Malformed);
        }
        let extra = match field_opt_string(t, "@extra") {
            Some(x) => x,
            None => {
                return Err(DecodeError::FieldShapeMismatch(
                    String::from_str("deviceTokenTizenPush"),
                    String::from_str("@extra"),
                ));
            },
        };
        let reg_id = match field_string(t, "reg_id") {
            Some(x) => x,
            None => {
                return Err(DecodeError::FieldShapeMismatch(
                    String::from_str("deviceTokenTizenPush"),
                    String::from_str("reg_id"),
                ));
            },
        };
        Ok(DeviceTokenTizenPush { extra, reg_id })
    }

    fn encode_tree(&self) -> (r: Result<JsonValue, EncodeError>) {
        let mut members: Vec<JsonMember> = Vec::new();
        proof {
            assert(view_members(members@) =~= Seq::<(Seq<char>, SpecJson)>::empty());
        }
        push_member(&mut members, "@type", JsonValue::Str(String::from_str("deviceTokenTizenPush")));
        push_member(&mut members, "@extra", opt_string_tree(&self.extra));
        push_member(&mut members, "reg_id", JsonValue::Str(self.reg_id.clone()));
        let node = JsonValue::Obj(members);
        proof {
            assert(view_members(members@) =~= self.members_spec());
            assert(node@ == self.wire_tree()->0);
        }
        Ok(node)
    }

    proof fn lemma_wire_wf(v: Self) {
        if v.wire_tree() is Some {
            let t = v.wire_tree()->0;
            let ms = t->Obj_0;
            assert(ms == v.members_spec());
            assert forall|i: int| 0 <= i < ms.len() implies wf(#[trigger] ms[i].1) by {
            }
        }
    }

    proof fn lemma_round_trip(v: Self) {
        if v.wire_tree() is Some {
            let t = v.wire_tree()->0;
            let ms = t->Obj_0;
            assert(ms == v.members_spec());
            reveal_strlit("@type");
            reveal_strlit("@extra");
            reveal_strlit("reg_id");
            assert("@type"@.len() == 5);
            assert("@extra"@.len() == 6);
            assert("reg_id"@.len() == 6);
            assert("@extra"@[0] == '@' && "reg_id"@[0] == 'r');
            reveal_with_fuel(get_spec, 5);
            lemma_get_spec_found(ms, "@type"@, 0);
            lemma_get_spec_found(ms, "@extra"@, 1);
            lemma_get_spec_found(ms, "reg_id"@, 2);
            assert(tag_of(t) == Some(Self::tag_spec()));
            assert(ok_opt_str(t, "@extra"@));
            assert(ok_str(t, "reg_id"@));
            assert(Self::accepts(t));
            assert forall|w: Self| Self::decodes_from(t, w) implies #[trigger] w.eqv(v) by {
            }
        }
    }
}

impl RObject for DeviceTokenTizenPush {
    open spec fn tag_chars(&self) -> Seq<char> {
        Self::tag_spec()
    }

    open spec fn extra_spec(&self) -> Option<Seq<char>> {
        opt_str_view(self.extra)
    }

    fn td_name(&self) -> (r: &'static str) {
        "deviceTokenTizenPush"
    }

    fn extra(&self) -> (r: Option<String>) {
        clone_opt_string(&self.extra)
    }

    fn to_json(&self) -> (r: Result<String, EncodeError>) {
        crate::object::encode(self)
    }
}

impl TDDeviceToken for DeviceTokenTizenPush {

}

impl DeviceTokenTizenPush {
    pub fn from_json(json: &str) -> (r: Result<DeviceTokenTizenPush, DecodeError>)
        ensures
            match crate::parse::parse_doc(json@) {
                Some(t) => match r {
                    Ok(v) => Self::accepts(t) && Self::decodes_from(t, v),
                    Err(e) => !Self::accepts(t) && crate::errors::err_matches(e, Self::err_of(t)),
                },
                None => r matches Err(e) && e == DecodeError::Malformed,
            },
    {
        crate::object::from_json::<DeviceTokenTizenPush>(json)
    }

    pub fn builder() -> (r: RTDDeviceTokenTizenPushBuilder)
        ensures
            r.inner.extra is Some,
            r.inner.reg_id@ == Seq::<char>::empty(),
    {
        RTDDeviceTokenTizenPushBuilder {
            inner: DeviceTokenTizenPush {
                extra: Some(new_token()),
                reg_id: String::new(),
            },
        }
    }

    pub fn reg_id(&self) -> (r: &String)
        ensures
            *r == self.reg_id,
    {
        &self.reg_id
    }
}

pub struct RTDDeviceTokenTizenPushBuilder {
    pub inner: DeviceTokenTizenPush,
}

impl RTDDeviceTokenTizenPushBuilder {
    pub fn build(&self) -> (r: DeviceTokenTizenPush)
        ensures
            r.eqv(self.inner),
    {
        self.inner.clone()
    }

    pub fn reg_id(&mut self, reg_id: String) -> (r: &mut Self)
        ensures
            *r == (RTDDeviceTokenTizenPushBuilder { inner: DeviceTokenTizenPush { reg_id: reg_id, ..old(self).inner } }),
            *final(self) == *final(r),
    {
        self.inner.reg_id = reg_id;
        self
    }
}
/// A token for Ubuntu Push Client service
#[derive(Debug, PartialEq)]
pub struct DeviceTokenUbuntuPush {
    pub extra: Option<String>,
    /// Token; may be empty to de-register a device
    pub token: String,
}

impl DeviceTokenUbuntuPush {
    pub open spec fn tag_spec() -> Seq<char> {
        "deviceTokenUbuntuPush"@
    }

    /// The members of the wire object, in the order they are written.
    pub open spec fn members_spec(self) -> Seq<(Seq<char>, SpecJson)> {
        seq![
            ("@type"@, SpecJson::Str(Self::tag_spec())),
            ("@extra"@, opt_str_tree(opt_str_view(self.extra))),
            ("token"@, SpecJson::Str(self.token@)),
        ]
    }

    pub open spec fn fields_ok(t: SpecJson) -> bool {
        &&& ok_opt_str(t, "@extra"@)
        &&& ok_str(t, "token"@)
    }

    pub open spec fn fail_field(t: SpecJson) -> Seq<char> {
        if !ok_opt_str(t, "@extra"@) {
            "@extra"@
        } else if !(ok_str(t, "token"@)) {
            "token"@
        } else {
            Seq::empty()
        }
    }

    /// The encoding of a value carries exactly this type's tag.
    pub proof fn lemma_wire_tag(v: DeviceTokenUbuntuPush)
        ensures
            v.wire_tree() matches Some(t) ==> tag_of(t) == Some(DeviceTokenUbuntuPush::tag_spec()),
    {
        if v.wire_tree() is Some {
            let t = v.wire_tree()->0;
            let ms = t->Obj_0;
            lemma_get_spec_found(ms, "@type"@, 0);
        }
    }
}

impl Clone for DeviceTokenUbuntuPush {
    fn clone(&self) -> (res: Self)
        ensures
            res.eqv(*self),
    {
        DeviceTokenUbuntuPush {
            extra: clone_opt_string(&self.extra),
            token: self.token.clone(),
        }
    }
}

impl Wire for DeviceTokenUbuntuPush {
    open spec fn wire_tree(self) -> Option<SpecJson> {
        Some(SpecJson::Obj(self.members_spec()))
    }

    open spec fn accepts(t: SpecJson) -> bool {
        tag_of(t) is Some && Self::fields_ok(t)
    }

    open spec fn err_of(t: SpecJson) -> SpecDecodeError {
        match tag_of(t) {
            None => SpecDecodeError::Malformed,
            Some(_) => SpecDecodeError::FieldShapeMismatch(Self::tag_spec(), Self::fail_field(t)),
        }
    }

    open spec fn decodes_from(t: SpecJson, v: Self) -> bool {
        &&& m_opt_str(t, "@extra"@, v.extra)
        &&& m_str(t, "token"@, v.token@)
    }

    open spec fn eqv(self, other: Self) -> bool {
        &&& eqv_opt_string(self.extra, other.extra)
        &&& self.token@ == other.token@
    }

    fn clone_val(&self) -> (r: Self) {
        self.clone()
    }

    fn decode_tree(t: &JsonValue) -> (r: Result<Self, DecodeError>) {
        if get_tag(t).is_none() {
            return Err(DecodeError::Malformed);
        }
        let extra = match field_opt_string(t, "@extra") {
            Some(x) => x,
            None => {
                return Err(DecodeError::FieldShapeMismatch(
                    String::from_str("deviceTokenUbuntuPush"),
                    String::from_str("@extra"),
                ));
            },
        };
        let token = match field_string(t, "token") {
            Some(x) => x,
            None => {
                return Err(DecodeError::FieldShapeMismatch(
                    String::from_str("deviceTokenUbuntuPush"),
                    String::from_str("token"),
                ));
            },
        };
        Ok(DeviceTokenUbuntuPush { extra, token })
    }

    fn encode_tree(&self) -> (r: Result<JsonValue, EncodeError>) {
        let mut members: Vec<JsonMember> = Vec::new();
        proof {
            assert(view_members(members@) =~= Seq::<(Seq<char>, SpecJson)>::empty());
        }
        push_member(&mut members, "@type", JsonValue::Str(String::from_str("deviceTokenUbuntuPush")));
        push_member(&mut members, "@extra", opt_string_tree(&self.extra));
        push_member(&mut members, "token", JsonValue::Str(self.token.clone()));
        let node = JsonValue::Obj(members);
        proof {
            assert(view_members(members@) =~= self.members_spec());
            assert(node@ == self.wire_tree()->0);
        }
        Ok(node)
    }

    proof fn lemma_wire_wf(v: Self) {
        if v.wire_tree() is Some {
            let t = v.wire_tree()->0;
            let ms = t->Obj_0;
            assert(ms == v.members_spec());
            assert forall|i: int| 0 <= i < ms.len() implies wf(#[trigger] ms[i].1) by {
            }
        }
    }

    proof fn lemma_round_trip(v: Self) {
        if v.wire_tree() is Some {
            let t = v.wire_tree()->0;
            let ms = t->Obj_0;
            assert(ms == v.members_spec());
            reveal_strlit("@type");
            reveal_strlit("@extra");
            reveal_strlit("token");
            assert("@type"@.len() == 5);
            assert("@extra"@.len() == 6);
            assert("token"@.len() == 5);
            assert("@type"@[0] == '@' && "token"@[0] == 't');
            reveal_with_fuel(get_spec, 5);
            lemma_get_spec_found(ms, "@type"@, 0);
            lemma_get_spec_found(ms, "@extra"@, 1);
            lemma_get_spec_found(ms, "token"@, 2);
            assert(tag_of(t) == Some(Self::tag_spec()));
            assert(ok_opt_str(t, "@extra"@));
            assert(ok_str(t, "token"@));
            assert(Self::accepts(t));
            assert forall|w: Self| Self::decodes_from(t, w) implies #[trigger] w.eqv(v) by {
            }
        }
    }
}

impl RObject for DeviceTokenUbuntuPush {
    open spec fn tag_chars(&self) -> Seq<char> {
        Self::tag_spec()
    }

    open spec fn extra_spec(&self) -> Option<Seq<char>> {
        opt_str_view(self.extra)
    }

    fn td_name(&self) -> (r: &'static str) {
        "deviceTokenUbuntuPush"
    }

    fn extra(&self) -> (r: Option<String>) {
        clone_opt_string(&self.extra)
    }

    fn to_json(&self) -> (r: Result<String, EncodeError>) {
        crate::object::encode(self)
    }
}

impl TDDeviceToken for DeviceTokenUbuntuPush {

}

impl DeviceTokenUbuntuPush {
    pub fn from_json(json: &str) -> (r: Result<DeviceTokenUbuntuPush, DecodeError>)
        ensures
            match crate::parse::parse_doc(json@) {
                Some(t) => match r {
                    Ok(v) => Self::accepts(t) && Self::decodes_from(t, v),
                    Err(e) => !Self::accepts(t) && crate::errors::err_matches(e, Self::err_of(t)),
                },
                None => r matches Err(e) && e == DecodeError::Malformed,
            },
    {
        crate::object::from_json::<DeviceTokenUbuntuPush>(json)
    }

    pub fn builder() -> (r: RTDDeviceTokenUbuntuPushBuilder)
        ensures
            r.inner.extra is Some,
            r.inner.token@ == Seq::<char>::empty(),
    {
        RTDDeviceTokenUbuntuPushBuilder {
            inner: DeviceTokenUbuntuPush {
                extra: Some(new_token()),
                token: String::new(),
            },
        }
    }

    pub fn token(&self) -> (r: &String)
        ensures
            *r == self.token,
    {
        &self.token
    }
}

pub struct RTDDeviceTokenUbuntuPushBuilder {
    pub inner: DeviceTokenUbuntuPush,
}

impl RTDDeviceTokenUbuntuPushBuilder {
    pub fn build(&self) -> (r: DeviceTokenUbuntuPush)
        ensures
            r.eqv(self.inner),
    {
        self.inner.clone()
    }

    pub fn token(&mut self, token: String) -> (r: &mut Self)
        ensures
            *r == (RTDDeviceTokenUbuntuPushBuilder { inner: DeviceTokenUbuntuPush { token: token, ..old(self).inner } }),
            *final(self) == *final(r),
    {
        self.inner.token = token;
        self
    }
}
/// A token for web Push API
#[derive(Debug, PartialEq)]
pub struct DeviceTokenWebPush {
    pub extra: Option<String>,
    /// Absolute URL exposed by the push service where the application server can send push messages; may be empty to de-register a device
    pub endpoint: String,
    /// Base64url-encoded P-256 elliptic curve Diffie-Hellman public key
    pub p256dh_base64url: String,
    /// Base64url-encoded authentication secret
    pub auth_base64url: String,
}

impl DeviceTokenWebPush {
    pub open spec fn tag_spec() -> Seq<char> {
        "deviceTokenWebPush"@
    }

    /// The members of the wire object, in the order they are written.
    pub open spec fn members_spec(self) -> Seq<(Seq<char>, SpecJson)> {
        seq![
            ("@type"@, SpecJson::Str(Self::tag_spec())),
            ("@extra"@, opt_str_tree(opt_str_view(self.extra))),
            ("endpoint"@, SpecJson::Str(self.endpoint@)),
            ("p256dh_base64url"@, SpecJson::Str(self.p256dh_base64url@)),
            ("auth_base64url"@, SpecJson::Str(self.auth_base64url@)),
        ]
    }

    pub open spec fn fields_ok(t: SpecJson) -> bool {
        &&& ok_opt_str(t, "@extra"@)
        &&& ok_str(t, "endpoint"@)
        &&& ok_str(t, "p256dh_base64url"@)
        &&& ok_str(t, "auth_base64url"@)
    }

    pub open spec fn fail_field(t: SpecJson) -> Seq<char> {
        if !ok_opt_str(t, "@extra"@) {
            "@extra"@
        } else if !(ok_str(t, "endpoint"@)) {
            "endpoint"@
        } else if !(ok_str(t, "p256dh_base64url"@)) {
            "p256dh_base64url"@
        } else if !(ok_str(t, "auth_base64url"@)) {
            "auth_base64url"@
        } else {
            Seq::empty()
        }
    }

    /// The encoding of a value carries exactly this type's tag.
    pub proof fn lemma_wire_tag(v: DeviceTokenWebPush)
        ensures
            v.wire_tree() matches Some(t) ==> tag_of(t) == Some(DeviceTokenWebPush::tag_spec()),
    {
        if v.wire_tree() is Some {
            let t = v.wire_tree()->0;
            let ms = t->Obj_0;
            lemma_get_spec_found(ms, "@type"@, 0);
        }
    }
}

impl Clone for DeviceTokenWebPush {
    fn clone(&self) -> (res: Self)
        ensures
            res.eqv(*self),
    {
        DeviceTokenWebPush {
            extra: clone_opt_string(&self.extra),
            endpoint: self.endpoint.clone(),
            p256dh_base64url: self.p256dh_base64url.clone(),
            auth_base64url: self.auth_base64url.clone(),
        }
    }
}

impl Wire for DeviceTokenWebPush {
    open spec fn wire_tree(self) -> Option<SpecJson> {
        Some(SpecJson::Obj(self.members_spec()))
    }

    open spec fn accepts(t: SpecJson) -> bool {
        tag_of(t) is Some && Self::fields_ok(t)
    }

    open spec fn err_of(t: SpecJson) -> SpecDecodeError {
        match tag_of(t) {
            None => SpecDecodeError::Malformed,
            Some(_) => SpecDecodeError::FieldShapeMismatch(Self::tag_spec(), Self::fail_field(t)),
        }
    }

    open spec fn decodes_from(t: SpecJson, v: Self) -> bool {
        &&& m_opt_str(t, "@extra"@, v.extra)
        &&& m_str(t, "endpoint"@, v.endpoint@)
        &&& m_str(t, "p256dh_base64url"@, v.p256dh_base64url@)
        &&& m_str(t, "auth_base64url"@, v.auth_base64url@)
    }

    open spec fn eqv(self, other: Self) -> bool {
        &&& eqv_opt_string(self.extra, other.extra)
        &&& self.endpoint@ == other.endpoint@
        &&& self.p256dh_base64url@ == other.p256dh_base64url@
        &&& self.auth_base64url@ == other.auth_base64url@
    }

    fn clone_val(&self) -> (r: Self) {
        self.clone()
    }

    fn decode_tree(t: &JsonValue) -> (r: Result<Self, DecodeError>) {
        if get_tag(t).is_none() {
            return Err(DecodeError::Malformed);
        }
        let extra = match field_opt_string(t, "@extra") {
            Some(x) => x,
            None => {
                return Err(DecodeError::FieldShapeMismatch(
                    String::from_str("deviceTokenWebPush"),
                    String::from_str("@extra"),
                ));
            },
        };
        let endpoint = match field_string(t, "endpoint") {
            Some(x) => x,
            None => {
                return Err(DecodeError::FieldShapeMismatch(
                    String::from_str("deviceTokenWebPush"),
                    String::from_str("endpoint"),
                ));
            },
        };
        let p256dh_base64url = match field_string(t, "p256dh_base64url") {
            Some(x) => x,
            None => {
                return Err(DecodeError::FieldShapeMismatch(
                    String::from_str("deviceTokenWebPush"),
                    String::from_str("p256dh_base64url"),
                ));
            },
        };
        let auth_base64url = match field_string(t, "auth_base64url") {
            Some(x) => x,
            None => {
                return Err(DecodeError::FieldShapeMismatch(
                    String::from_str("deviceTokenWebPush"),
                    String::from_str("auth_base64url"),
                ));
            },
        };
        Ok(DeviceTokenWebPush { extra, endpoint, p256dh_base64url, auth_base64url })
    }

    fn encode_tree(&self) -> (r: Result<JsonValue, EncodeError>) {
        let mut members: Vec<JsonMember> = Vec::new();
        proof {
            assert(view_members(members@) =~= Seq::<(Seq<char>, SpecJson)>::empty());
        }
        push_member(&mut members, "@type", JsonValue::Str(String::from_str("deviceTokenWebPush")));
        push_member(&mut members, "@extra", opt_string_tree(&self.extra));
        push_member(&mut members, "endpoint", JsonValue::Str(self.endpoint.clone()));
        push_member(&mut members, "p256dh_base64url", JsonValue::Str(self.p256dh_base64url.clone()));
        push_member(&mut members, "auth_base64url", JsonValue::Str(self.auth_base64url.clone()));
        let node = JsonValue::Obj(members);
        proof {
            assert(view_members(members@) =~= self.members_spec());
            assert(node@ == self.wire_tree()->0);
        }
        Ok(node)
    }

    proof fn lemma_wire_wf(v: Self) {
        if v.wire_tree() is Some {
            let t = v.wire_tree()->0;
            let ms = t->Obj_0;
            assert(ms == v.members_spec());
            assert forall|i: int| 0 <= i < ms.len() implies wf(#[trigger] ms[i].1) by {
            }
        }
    }

    proof fn lemma_round_trip(v: Self) {
        if v.wire_tree() is Some {
            let t = v.wire_tree()->0;
            let ms = t->Obj_0;
            assert(ms == v.members_spec());
            reveal_strlit("@type");
            reveal_strlit("@extra");
            reveal_strlit("endpoint");
            reveal_strlit("p256dh_base64url");
            reveal_strlit("auth_base64url");
            assert("@type"@.len() == 5);
            assert("@extra"@.len() == 6);
            assert("endpoint"@.len() == 8);
            assert("p256dh_base64url"@.len() == 16);
            assert("auth_base64url"@.len() == 14);
            reveal_with_fuel(get_spec, 7);
            lemma_get_spec_found(ms, "@type"@, 0);
            lemma_get_spec_found(ms, "@extra"@, 1);
            lemma_get_spec_found(ms, "endpoint"@, 2);
            lemma_get_spec_found(ms, "p256dh_base64url"@, 3);
            lemma_get_spec_found(ms, "auth_base64url"@, 4);
            assert(tag_of(t) == Some(Self::tag_spec()));
            assert(ok_opt_str(t, "@extra"@));
            assert(ok_str(t, "endpoint"@));
            assert(ok_str(t, "p256dh_base64url"@));
            assert(ok_str(t, "auth_base64url"@));
            assert(Self::accepts(t));
            assert forall|w: Self| Self::decodes_from(t, w) implies #[trigger] w.eqv(v) by {
            }
        }
    }
}

impl RObject for DeviceTokenWebPush {
    open spec fn tag_chars(&self) -> Seq<char> {
        Self::tag_spec()
    }

    open spec fn extra_spec(&self) -> Option<Seq<char>> {
        opt_str_view(self.extra)
    }

    fn td_name(&self) -> (r: &'static str) {
        "deviceTokenWebPush"
    }

    fn extra(&self) -> (r: Option<String>) {
        clone_opt_string(&self.extra)
    }

    fn to_json(&self) -> (r: Result<String, EncodeError>) {
        crate::object::encode(self)
    }
}

impl TDDeviceToken for DeviceTokenWebPush {

}

impl DeviceTokenWebPush {
    pub fn from_json(json: &str) -> (r: Result<DeviceTokenWebPush, DecodeError>)
        ensures
            match crate::parse::parse_doc(json@) {
                Some(t) => match r {
                    Ok(v) => Self::accepts(t) && Self::decodes_from(t, v),
                    Err(e) => !Self::accepts(t) && crate::errors::err_matches(e, Self::err_of(t)),
                },
                None => r matches Err(e) && e == DecodeError::Malformed,
            },
    {
        crate::object::from_json::<DeviceTokenWebPush>(json)
    }

    pub fn builder() -> (r: RTDDeviceTokenWebPushBuilder)
        ensures
            r.inner.extra is Some,
            r.inner.endpoint@ == Seq::<char>::empty(),
            r.inner.p256dh_base64url@ == Seq::<char>::empty(),
            r.inner.auth_base64url@ == Seq::<char>::empty(),
    {
        RTDDeviceTokenWebPushBuilder {
            inner: DeviceTokenWebPush {
                extra: Some(new_token()),
                endpoint: String::new(),
                p256dh_base64url: String::new(),
                auth_base64url: String::new(),
            },
        }
    }

    pub fn endpoint(&self) -> (r: &String)
        ensures
            *r == self.endpoint,
    {
        &self.endpoint
    }

    pub fn p256dh_base64url(&self) -> (r: &String)
        ensures
            *r == self.p256dh_base64url,
    {
        &self.p256dh_base64url
    }

    pub fn auth_base64url(&self) -> (r: &String)
        ensures
            *r == self.auth_base64url,
    {
        &self.auth_base64url
    }
}

pub struct RTDDeviceTokenWebPushBuilder {
    pub inner: DeviceTokenWebPush,
}

impl RTDDeviceTokenWebPushBuilder {
    pub fn build(&self) -> (r: DeviceTokenWebPush)
        ensures
            r.eqv(self.inner),
    {
        self.inner.clone()
    }

    pub fn endpoint(&mut self, endpoint: String) -> (r: &mut Self)
        ensures
            *r == (RTDDeviceTokenWebPushBuilder { inner: DeviceTokenWebPush { endpoint: endpoint, ..old(self).inner } }),
            *final(self) == *final(r),
    {
        self.inner.endpoint = endpoint;
        self
    }

    pub fn p256dh_base64url(&mut self, p256dh_base64url: String) -> (r: &mut Self)
        ensures
            *r == (RTDDeviceTokenWebPushBuilder { inner: DeviceTokenWebPush { p256dh_base64url: p256dh_base64url, ..old(self).inner } }),
            *final(self) == *final(r),
    {
        self.inner.p256dh_base64url = p256dh_base64url;
        self
    }

    pub fn auth_base64url(&mut self, auth_base64url: String) -> (r: &mut Self)
        ensures
            *r == (RTDDeviceTokenWebPushBuilder { inner: DeviceTokenWebPush { auth_base64url: auth_base64url, ..old(self).inner } }),
            *final(self) == *final(r),
    {
        self.inner.auth_base64url = auth_base64url;
        self
    }
}
/// A token for Windows Push Notification Services
#[derive(Debug, PartialEq)]
pub struct DeviceTokenWindowsPush {
    pub extra: Option<String>,
    /// The access token that will be used to send notifications; may be empty to de-register a device
    pub access_token: String,
}

impl DeviceTokenWindowsPush {
    pub open spec fn tag_spec() -> Seq<char> {
        "deviceTokenWindowsPush"@
    }

    /// The members of the wire object, in the order they are written.
    pub open spec fn members_spec(self) -> Seq<(Seq<char>, SpecJson)> {
        seq![
            ("@type"@, SpecJson::Str(Self::tag_spec())),
            ("@extra"@, opt_str_tree(opt_str_view(self.extra))),
            ("access_token"@, SpecJson::Str(self.access_token@)),
        ]
    }

    pub open spec fn fields_ok(t: SpecJson) -> bool {
        &&& ok_opt_str(t, "@extra"@)
        &&& ok_str(t, "access_token"@)
    }

    pub open spec fn fail_field(t: SpecJson) -> Seq<char> {
        if !ok_opt_str(t, "@extra"@) {
            "@extra"@
        } else if !(ok_str(t, "access_token"@)) {
            "access_token"@
        } else {
            Seq::empty()
        }
    }

    /// The encoding of a value carries exactly this type's tag.
    pub proof fn lemma_wire_tag(v: DeviceTokenWindowsPush)
        ensures
            v.wire_tree() matches Some(t) ==> tag_of(t) == Some(DeviceTokenWindowsPush::tag_spec()),
    {
        if v.wire_tree() is Some {
            let t = v.wire_tree()->0;
            let ms = t->Obj_0;
            lemma_get_spec_found(ms, "@type"@, 0);
        }
    }
}

impl Clone for DeviceTokenWindowsPush {
    fn clone(&self) -> (res: Self)
        ensures
            res.eqv(*self),
    {
        DeviceTokenWindowsPush {
            extra: clone_opt_string(&self.extra),
            access_token: self.access_token.clone(),
        }
    }
}

impl Wire for DeviceTokenWindowsPush {
    open spec fn wire_tree(self) -> Option<SpecJson> {
        Some(SpecJson::Obj(self.members_spec()))
    }

    open spec fn accepts(t: SpecJson) -> bool {
        tag_of(t) is Some && Self::fields_ok(t)
    }

    open spec fn err_of(t: SpecJson) -> SpecDecodeError {
        match tag_of(t) {
            None => SpecDecodeError::Malformed,
            Some(_) => SpecDecodeError::FieldShapeMismatch(Self::tag_spec(), Self::fail_field(t)),
        }
    }

    open spec fn decodes_from(t: SpecJson, v: Self) -> bool {
        &&& m_opt_str(t, "@extra"@, v.extra)
        &&& m_str(t, "access_token"@, v.access_token@)
    }

    open spec fn eqv(self, other: Self) -> bool {
        &&& eqv_opt_string(self.extra, other.extra)
        &&& self.access_token@ == other.access_token@
    }

    fn clone_val(&self) -> (r: Self) {
        self.clone()
    }

    fn decode_tree(t: &JsonValue) -> (r: Result<Self, DecodeError>) {
        if get_tag(t).is_none() {
            return Err(DecodeError::Malformed);
        }
        let extra = match field_opt_string(t, "@extra") {
            Some(x) => x,
            None => {
                return Err(DecodeError::FieldShapeMismatch(
                    String::from_str("deviceTokenWindowsPush"),
                    String::from_str("@extra"),
                ));
            },
        };
        let access_token = match field_string(t, "access_token") {
            Some(x) => x,
            None => {
                return Err(DecodeError::FieldShapeMismatch(
                    String::from_str("deviceTokenWindowsPush"),
                    String::from_str("access_token"),
                ));
            },
        };
        Ok(DeviceTokenWindowsPush { extra, access_token })
    }

    fn encode_tree(&self) -> (r: Result<JsonValue, EncodeError>) {
        let mut members: Vec<JsonMember> = Vec::new();
        proof {
            assert(view_members(members@) =~= Seq::<(Seq<char>, SpecJson)>::empty());
        }
        push_member(&mut members, "@type", JsonValue::Str(String::from_str("deviceTokenWindowsPush")));
        push_member(&mut members, "@extra", opt_string_tree(&self.extra));
        push_member(&mut members, "access_token", JsonValue::Str(self.access_token.clone()));
        let node = JsonValue::Obj(members);
        proof {
            assert(view_members(members@) =~= self.members_spec());
            assert(node@ == self.wire_tree()->0);
        }
        Ok(node)
    }

    proof fn lemma_wire_wf(v: Self) {
        if v.wire_tree() is Some {
            let t = v.wire_tree()->0;
            let ms = t->Obj_0;
            assert(ms == v.members_spec());
            assert forall|i: int| 0 <= i < ms.len() implies wf(#[trigger] ms[i].1) by {
            }
        }
    }

    proof fn lemma_round_trip(v: Self) {
        if v.wire_tree() is Some {
            let t = v.wire_tree()->0;
            let ms = t->Obj_0;
            assert(ms == v.members_spec());
            reveal_strlit("@type");
            reveal_strlit("@extra");
            reveal_strlit("access_token");
            assert("@type"@.len() == 5);
            assert("@extra"@.len() == 6);
            assert("access_token"@.len() == 12);
            reveal_with_fuel(get_spec, 5);
            lemma_get_spec_found(ms, "@type"@, 0);
            lemma_get_spec_found(ms, "@extra"@, 1);
            lemma_get_spec_found(ms, "access_token"@, 2);
            assert(tag_of(t) == Some(Self::tag_spec()));
            assert(ok_opt_str(t, "@extra"@));
            assert(ok_str(t, "access_token"@));
            assert(Self::accepts(t));
            assert forall|w: Self| Self::decodes_from(t, w) implies #[trigger] w.eqv(v) by {
            }
        }
    }
}

impl RObject for DeviceTokenWindowsPush {
    open spec fn tag_chars(&self) -> Seq<char> {
        Self::tag_spec()
    }

    open spec fn extra_spec(&self) -> Option<Seq<char>> {
        opt_str_view(self.extra)
    }

    fn td_name(&self) -> (r: &'static str) {
        "deviceTokenWindowsPush"
    }

    fn extra(&self) -> (r: Option<String>) {
        clone_opt_string(&self.extra)
    }

    fn to_json(&self) -> (r: Result<String, EncodeError>) {
        crate::object::encode(self)
    }
}

impl TDDeviceToken for DeviceTokenWindowsPush {

}

impl DeviceTokenWindowsPush {
    pub fn from_json(json: &str) -> (r: Result<DeviceTokenWindowsPush, DecodeError>)
        ensures
            match crate::parse::parse_doc(json@) {
                Some(t) => match r {
                    Ok(v) => Self::accepts(t) && Self::decodes_from(t, v),
                    Err(e) => !Self::accepts(t) && crate::errors::err_matches(e, Self::err_of(t)),
                },
                None => r matches Err(e) && e == DecodeError::Malformed,
            },
    {
        crate::object::from_json::<DeviceTokenWindowsPush>(json)
    }

    pub fn builder() -> (r: RTDDeviceTokenWindowsPushBuilder)
        ensures
            r.inner.extra is Some,
            r.inner.access_token@ == Seq::<char>::empty(),
    {
        RTDDeviceTokenWindowsPushBuilder {
            inner: DeviceTokenWindowsPush {
                extra: Some(new_token()),
                access_token: String::new(),
            },
        }
    }

    pub fn access_token(&self) -> (r: &String)
        ensures
            *r == self.access_token,
    {
        &self.access_token
    }
}

pub struct RTDDeviceTokenWindowsPushBuilder {
    pub inner: DeviceTokenWindowsPush,
}

impl RTDDeviceTokenWindowsPushBuilder {
    pub fn build(&self) -> (r: DeviceTokenWindowsPush)
        ensures
            r.eqv(self.inner),
    {
        self.inner.clone()
    }

    pub fn access_token(&mut self, access_token: String) -> (r: &mut Self)
        ensures
            *r == (RTDDeviceTokenWindowsPushBuilder { inner: DeviceTokenWindowsPush { access_token: access_token, ..old(self).inner } }),
            *final(self) == *final(r),
    {
        self.inner.access_token = access_token;
        self
    }
}
} // verus!
