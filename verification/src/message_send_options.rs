use vstd::prelude::*;

use crate::errors::DecodeError;
use crate::errors::EncodeError;
use crate::errors::SpecDecodeError;
use crate::json::JsonMember;
use crate::json::JsonValue;
use crate::json::SpecJson;
use crate::json::view_members;
use crate::json::wf;
use crate::object::RObject;
use crate::object::Wire;
use crate::object::clone_opt_string;
use crate::object::eqv_opt_string;
use crate::object::field_bool;
use crate::object::field_opt_string;
use crate::object::get_spec;
use crate::object::get_tag;
use crate::object::lemma_get_spec_found;
use crate::object::m_bool;
use crate::object::m_opt_str;
use crate::object::new_token;
use crate::object::ok_bool;
use crate::object::ok_opt_str;
use crate::object::opt_str_tree;
use crate::object::opt_str_view;
use crate::object::opt_string_tree;
use crate::object::push_member;
use crate::object::tag_of;

verus! {

/// Options to be used when a message is sent
#[derive(Debug, PartialEq)]
pub struct MessageSendOptions {
    pub extra: Option<String>,
    /// Pass true to disable notification for the message
    pub disable_notification: bool,
    /// Pass true if the message is sent from the background
    pub from_background: bool,
}

impl MessageSendOptions {
    pub open spec fn tag_spec() -> Seq<char> {
        "messageSendOptions"@
    }

    /// The members of the wire object, in the order they are written.
    pub open spec fn members_spec(self) -> Seq<(Seq<char>, SpecJson)> {
        seq![
            ("@type"@, SpecJson::Str(Self::tag_spec())),
            ("@extra"@, opt_str_tree(opt_str_view(self.extra))),
            ("disable_notification"@, SpecJson::Bool(self.disable_notification)),
            ("from_background"@, SpecJson::Bool(self.from_background)),
        ]
    }

    pub open spec fn fields_ok(t: SpecJson) -> bool {
        &&& ok_opt_str(t, "@extra"@)
        &&& ok_bool(t, "disable_notification"@)
        &&& ok_bool(t, "from_background"@)
    }

    pub open spec fn fail_field(t: SpecJson) -> Seq<char> {
        if !ok_opt_str(t, "@extra"@) {
            "@extra"@
        } else if !(ok_bool(t, "disable_notification"@)) {
            "disable_notification"@
        } else if !(ok_bool(t, "from_background"@)) {
            "from_background"@
        } else {
            Seq::empty()
        }
    }

    /// The encoding of a value carries exactly this type's tag.
    pub proof fn lemma_wire_tag(v: MessageSendOptions)
        ensures
            v.wire_tree() matches Some(t) ==> tag_of(t) == Some(MessageSendOptions::tag_spec()),
    {
        if v.wire_tree() is Some {
            let t = v.wire_tree()->0;
            let ms = t->Obj_0;
            lemma_get_spec_found(ms, "@type"@, 0);
        }
    }
}

impl Clone for MessageSendOptions {
    fn clone(&self) -> (res: Self)
        ensures
            res.eqv(*self),
    {
        MessageSendOptions {
            extra: clone_opt_string(&self.extra),
            disable_notification: self.disable_notification,
            from_background: self.from_background,
        }
    }
}

impl Wire for MessageSendOptions {
    open spec fn wire_tree(self) -> Option<SpecJson> {
        Some(SpecJson::Obj(self.members_spec()))
    }

    open spec fn accepts(t: SpecJson) -> bool {
        tag_of(t) is Some && Self::fields_ok(t)
    }

    open spec fn err_of(t: SpecJson) -> SpecDecodeError {
        match tag_of(t) {
            None => SpecDecodeError::Malformed,
            Some(_) => SpecDecodeError::FieldShapeMismatch(Self::tag_spec(), Self::fail_field(t)),
        }
    }

    open spec fn decodes_from(t: SpecJson, v: Self) -> bool {
        &&& m_opt_str(t, "@extra"@, v.extra)
        &&& m_bool(t, "disable_notification"@, v.disable_notification)
        &&& m_bool(t, "from_background"@, v.from_background)
    }

    open spec fn eqv(self, other: Self) -> bool {
        &&& eqv_opt_string(self.extra, other.extra)
        &&& self.disable_notification == other.disable_notification
        &&& self.from_background == other.from_background
    }

    fn clone_val(&self) -> (r: Self) {
        self.clone()
    }

    fn decode_tree(t: &JsonValue) -> (r: Result<Self, DecodeError>) {
        if get_tag(t).is_none() {
            return Err(DecodeError::Malformed);
        }
        let extra = match field_opt_string(t, "@extra") {
            Some(x) => x,
            None => {
                return Err(DecodeError::FieldShapeMismatch(
                    String::from_str("messageSendOptions"),
                    String::from_str("@extra"),
                ));
            },
        };
        let disable_notification = match field_bool(t, "disable_notification") {
            Some(x) => x,
            None => {
                return Err(DecodeError::FieldShapeMismatch(
                    String::from_str("messageSendOptions"),
                    String::from_str("disable_notification"),
                ));
            },
        };
        let from_background = match field_bool(t, "from_background") {
            Some(x) => x,
            None => {
                return Err(DecodeError::FieldShapeMismatch(
                    String::from_str("messageSendOptions"),
                    String::from_str("from_background"),
                ));
            },
        };
        Ok(MessageSendOptions { extra, disable_notification, from_background })
    }

    fn encode_tree(&self) -> (r: Result<JsonValue, EncodeError>) {
        let mut members: Vec<JsonMember> = Vec::new();
        proof {
            assert(view_members(members@) =~= Seq::<(Seq<char>, SpecJson)>::empty());
        }
        push_member(&mut members, "@type", JsonValue::Str(String::from_str("messageSendOptions")));
        push_member(&mut members, "@extra", opt_string_tree(&self.extra));
        push_member(&mut members, "disable_notification", JsonValue::Bool(self.disable_notification));
        push_member(&mut members, "from_background", JsonValue::Bool(self.from_background));
        let node = JsonValue::Obj(members);
        proof {
            assert(view_members(members@) =~= self.members_spec());
            assert(node@ == self.wire_tree()->0);
        }
        Ok(node)
    }

    proof fn lemma_wire_wf(v: Self) {
        if v.wire_tree() is Some {
            let t = v.wire_tree()->0;
            let ms = t->Obj_0;
            assert(ms == v.members_spec());
            assert forall|i: int| 0 <= i < ms.len() implies wf(#[trigger] ms[i].1) by {
            }
        }
    }

    proof fn lemma_round_trip(v: Self) {
        if v.wire_tree() is Some {
            let t = v.wire_tree()->0;
            let ms = t->Obj_0;
            assert(ms == v.members_spec());
            reveal_strlit("@type");
            reveal_strlit("@extra");
            reveal_strlit("disable_notification");
            reveal_strlit("from_background");
            assert("@type"@.len() == 5);
            assert("@extra"@.len() == 6);
            assert("disable_notification"@.len() == 20);
            assert("from_background"@.len() == 15);
            reveal_with_fuel(get_spec, 6);
            lemma_get_spec_found(ms, "@type"@, 0);
            lemma_get_spec_found(ms, "@extra"@, 1);
            lemma_get_spec_found(ms, "disable_notification"@, 2);
            lemma_get_spec_found(ms, "from_background"@, 3);
            assert(tag_of(t) == Some(Self::tag_spec()));
            assert(ok_opt_str(t, "@extra"@));
            assert(ok_bool(t, "disable_notification"@));
            assert(ok_bool(t, "from_background"@));
            assert(Self::accepts(t));
            assert forall|w: Self| Self::decodes_from(t, w) implies #[trigger] w.eqv(v) by {
            }
        }
    }
}

impl RObject for MessageSendOptions {
    open spec fn tag_chars(&self) -> Seq<char> {
        Self::tag_spec()
    }

    open spec fn extra_spec(&self) -> Option<Seq<char>> {
        opt_str_view(self.extra)
    }

    fn td_name(&self) -> (r: &'static str) {
        "messageSendOptions"
    }

    fn extra(&self) -> (r: Option<String>) {
        clone_opt_string(&self.extra)
    }

    fn to_json(&self) -> (r: Result<String, EncodeError>) {
        crate::object::encode(self)
    }
}

impl MessageSendOptions {
    pub fn from_json(json: &str) -> (r: Result<MessageSendOptions, DecodeError>)
        ensures
            match crate::parse::parse_doc(json@) {
                Some(t) => match r {
                    Ok(v) => Self::accepts(t) && Self::decodes_from(t, v),
                    Err(e) => !Self::accepts(t) && crate::errors::err_matches(e, Self::err_of(t)),
                },
                None => r matches Err(e) && e == DecodeError::Malformed,
            },
    {
        crate::object::from_json::<MessageSendOptions>(json)
    }

    pub fn builder() -> (r: RTDMessageSendOptionsBuilder)
        ensures
            r.inner.extra is Some,
            r.inner.disable_notification == false,
            r.inner.from_background == false,
    {
        RTDMessageSendOptionsBuilder {
            inner: MessageSendOptions {
                extra: Some(new_token()),
                disable_notification: false,
                from_background: false,
            },
        }
    }

    pub fn disable_notification(&self) -> (r: bool)
        ensures
            r == self.disable_notification,
    {
        self.disable_notification
    }

    pub fn from_background(&self) -> (r: bool)
        ensures
            r == self.from_background,
    {
        self.from_background
    }
}

pub struct RTDMessageSendOptionsBuilder {
    pub inner: MessageSendOptions,
}

impl RTDMessageSendOptionsBuilder {
    pub fn build(&self) -> (r: MessageSendOptions)
        ensures
            r.eqv(self.inner),
    {
        self.inner.clone()
    }

    pub fn disable_notification(&mut self, disable_notification: bool) -> (r: &mut Self)
        ensures
            *r == (RTDMessageSendOptionsBuilder { inner: MessageSendOptions { disable_notification: disable_notification, ..old(self).inner } }),
            *final(self) == *final(r),
    {
        self.inner.disable_notification = disable_notification;
        self
    }

    pub fn from_background(&mut self, from_background: bool) -> (r: &mut Self)
        ensures
            *r == (RTDMessageSendOptionsBuilder { inner: MessageSendOptions { from_background: from_background, ..old(self).inner } }),
            *final(self) == *final(r),
    {
        self.inner.from_background = from_background;
        self
    }
}
} // verus!
