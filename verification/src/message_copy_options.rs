use vstd::prelude::*;

use crate::errors::DecodeError;
use crate::errors::EncodeError;
use crate::errors::SpecDecodeError;
use crate::json::JsonMember;
use crate::json::JsonValue;
use crate::json::SpecJson;
use crate::json::view_members;
use crate::json::wf;
use crate::object::RObject;
use crate::object::Wire;
use crate::object::clone_opt_string;
use crate::object::eqv_opt_string;
use crate::object::field_bool;
use crate::object::field_opt_string;
use crate::object::get_spec;
use crate::object::get_tag;
use crate::object::lemma_get_spec_found;
use crate::object::m_bool;
use crate::object::m_opt_str;
use crate::object::new_token;
use crate::object::ok_bool;
use crate::object::ok_opt_str;
use crate::object::opt_str_tree;
use crate::object::opt_str_view;
use crate::object::opt_string_tree;
use crate::object::push_member;
use crate::object::tag_of;

verus! {

/// Options to be used when a message content is copied without reference to the original sender. Service messages and messageInvoice can't be copied
#[derive(Debug, PartialEq)]
pub struct MessageCopyOptions {
    pub extra: Option<String>,
    /// True, if content of the message needs to be copied without reference to the original sender. Always true if the message is forwarded to a secret chat or is local
    pub send_copy: bool,
    /// True, if media caption of the message copy needs to be replaced. Ignored if send_copy is false
    pub replace_caption: bool,
}

impl MessageCopyOptions {
    pub open spec fn tag_spec() -> Seq<char> {
        "messageCopyOptions"@
    }

    /// The members of the wire object, in the order they are written.
    pub open spec fn members_spec(self) -> Seq<(Seq<char>, SpecJson)> {
        seq![
            ("@type"@, SpecJson::Str(Self::tag_spec())),
            ("@extra"@, opt_str_tree(opt_str_view(self.extra))),
            ("send_copy"@, SpecJson::Bool(self.send_copy)),
            ("replace_caption"@, SpecJson::Bool(self.replace_caption)),
        ]
    }

    pub open spec fn fields_ok(t: SpecJson) -> bool {
        &&& ok_opt_str(t, "@extra"@)
        &&& ok_bool(t, "send_copy"@)
        &&& ok_bool(t, "replace_caption"@)
    }

    pub open spec fn fail_field(t: SpecJson) -> Seq<char> {
        if !ok_opt_str(t, "@extra"@) {
            "@extra"@
        } else if !(ok_bool(t, "send_copy"@)) {
            "send_copy"@
        } else if !(ok_bool(t, "replace_caption"@)) {
            "replace_caption"@
        } else {
            Seq::empty()
        }
    }

    /// The encoding of a value carries exactly this type's tag.
    pub proof fn lemma_wire_tag(v: MessageCopyOptions)
        ensures
            v.wire_tree() matches Some(t) ==> tag_of(t) == Some(MessageCopyOptions::tag_spec()),
    {
        if v.wire_tree() is Some {
            let t = v.wire_tree()->0;
            let ms = t->Obj_0;
            lemma_get_spec_found(ms, "@type"@, 0);
        }
    }
}

impl Clone for MessageCopyOptions {
    fn clone(&self) -> (res: Self)
        ensures
            res.eqv(*self),
    {
        MessageCopyOptions {
            extra: clone_opt_string(&self.extra),
            send_copy: self.send_copy,
            replace_caption: self.replace_caption,
        }
    }
}

impl Wire for MessageCopyOptions {
    open spec fn wire_tree(self) -> Option<SpecJson> {
        Some(SpecJson::Obj(self.members_spec()))
    }

    open spec fn accepts(t: SpecJson) -> bool {
        tag_of(t) is Some && Self::fields_ok(t)
    }

    open spec fn err_of(t: SpecJson) -> SpecDecodeError {
        match tag_of(t) {
            None => SpecDecodeError::Malformed,
            Some(_) => SpecDecodeError::FieldShapeMismatch(Self::tag_spec(), Self::fail_field(t)),
        }
    }

    open spec fn decodes_from(t: SpecJson, v: Self) -> bool {
        &&& m_opt_str(t, "@extra"@, v.extra)
        &&& m_bool(t, "send_copy"@, v.send_copy)
        &&& m_bool(t, "replace_caption"@, v.replace_caption)
    }

    open spec fn eqv(self, other: Self) -> bool {
        &&& eqv_opt_string(self.extra, other.extra)
        &&& self.send_copy == other.send_copy
        &&& self.replace_caption == other.replace_caption
    }

    fn clone_val(&self) -> (r: Self) {
        self.clone()
    }

    fn decode_tree(t: &JsonValue) -> (r: Result<Self, DecodeError>) {
        if get_tag(t).is_none() {
            return Err(DecodeError::Malformed);
        }
        let extra = match field_opt_string(t, "@extra") {
            Some(x) => x,
            None => {
                return Err(DecodeError::FieldShapeMismatch(
                    String::from_str("messageCopyOptions"),
                    String::from_str("@extra"),
                ));
            },
        };
        let send_copy = match field_bool(t, "send_copy") {
            Some(x) => x,
            None => {
                return Err(DecodeError::FieldShapeMismatch(
                    String::from_str("messageCopyOptions"),
                    String::from_str("send_copy"),
                ));
            },
        };
        let replace_caption = match field_bool(t, "replace_caption") {
            Some(x) => x,
            None => {
                return Err(DecodeError::FieldShapeMismatch(
                    String::from_str("messageCopyOptions"),
                    String::from_str("replace_caption"),
                ));
            },
        };
        Ok(MessageCopyOptions { extra, send_copy, replace_caption })
    }

    fn encode_tree(&self) -> (r: Result<JsonValue, EncodeError>) {
        let mut members: Vec<JsonMember> = Vec::new();
        proof {
            assert(view_members(members@) =~= Seq::<(Seq<char>, SpecJson)>::empty());
        }
        push_member(&mut members, "@type", JsonValue::Str(String::from_str("messageCopyOptions")));
        push_member(&mut members, "@extra", opt_string_tree(&self.extra));
        push_member(&mut members, "send_copy", JsonValue::Bool(self.send_copy));
        push_member(&mut members, "replace_caption", JsonValue::Bool(self.replace_caption));
        let node = JsonValue::Obj(members);
        proof {
            assert(view_members(members@) =~= self.members_spec());
            assert(node@ == self.wire_tree()->0);
        }
        Ok(node)
    }

    proof fn lemma_wire_wf(v: Self) {
        if v.wire_tree() is Some {
            let t = v.wire_tree()->0;
            let ms = t->Obj_0;
            assert(ms == v.members_spec());
            assert forall|i: int| 0 <= i < ms.len() implies wf(#[trigger] ms[i].1) by {
            }
        }
    }

    proof fn lemma_round_trip(v: Self) {
        if v.wire_tree() is Some {
            let t = v.wire_tree()->0;
            let ms = t->Obj_0;
            assert(ms == v.members_spec());
            reveal_strlit("@type");
            reveal_strlit("@extra");
            reveal_strlit("send_copy");
            reveal_strlit("replace_caption");
            assert("@type"@.len() == 5);
            assert("@extra"@.len() == 6);
            assert("send_copy"@.len() == 9);
            assert("replace_caption"@.len() == 15);
            reveal_with_fuel(get_spec, 6);
            lemma_get_spec_found(ms, "@type"@, 0);
            lemma_get_spec_found(ms, "@extra"@, 1);
            lemma_get_spec_found(ms, "send_copy"@, 2);
            lemma_get_spec_found(ms, "replace_caption"@, 3);
            assert(tag_of(t) == Some(Self::tag_spec()));
            assert(ok_opt_str(t, "@extra"@));
            assert(ok_bool(t, "send_copy"@));
            assert(ok_bool(t, "replace_caption"@));
            assert(Self::accepts(t));
            assert forall|w: Self| Self::decodes_from(t, w) implies #[trigger] w.eqv(v) by {
            }
        }
    }
}

impl RObject for MessageCopyOptions {
    open spec fn tag_chars(&self) -> Seq<char> {
        Self::tag_spec()
    }

    open spec fn extra_spec(&self) -> Option<Seq<char>> {
        opt_str_view(self.extra)
    }

    fn td_name(&self) -> (r: &'static str) {
        "messageCopyOptions"
    }

    fn extra(&self) -> (r: Option<String>) {
        clone_opt_string(&self.extra)
    }

    fn to_json(&self) -> (r: Result<String, EncodeError>) {
        crate::object::encode(self)
    }
}

impl MessageCopyOptions {
    pub fn from_json(json: &str) -> (r: Result<MessageCopyOptions, DecodeError>)
        ensures
            match crate::parse::parse_doc(json@) {
                Some(t) => match r {
                    Ok(v) => Self::accepts(t) && Self::decodes_from(t, v),
                    Err(e) => !Self::accepts(t) && crate::errors::err_matches(e, Self::err_of(t)),
                },
                None => r matches Err(e) && e == DecodeError::Malformed,
            },
    {
        crate::object::from_json::<MessageCopyOptions>(json)
    }

    pub fn builder() -> (r: RTDMessageCopyOptionsBuilder)
        ensures
            r.inner.extra is Some,
            r.inner.send_copy == false,
            r.inner.replace_caption == false,
    {
        RTDMessageCopyOptionsBuilder {
            inner: MessageCopyOptions {
                extra: Some(new_token()),
                send_copy: false,
                replace_caption: false,
            },
        }
    }

    pub fn send_copy(&self) -> (r: bool)
        ensures
            r == self.send_copy,
    {
        self.send_copy
    }

    pub fn replace_caption(&self) -> (r: bool)
        ensures
            r == self.replace_caption,
    {
        self.replace_caption
    }
}

pub struct RTDMessageCopyOptionsBuilder {
    pub inner: MessageCopyOptions,
}

impl RTDMessageCopyOptionsBuilder {
    pub fn build(&self) -> (r: MessageCopyOptions)
        ensures
            r.eqv(self.inner),
    {
        self.inner.clone()
    }

    pub fn send_copy(&mut self, send_copy: bool) -> (r: &mut Self)
        ensures
            *r == (RTDMessageCopyOptionsBuilder { inner: MessageCopyOptions { send_copy: send_copy, ..old(self).inner } }),
            *final(self) == *final(r),
    {
        self.inner.send_copy = send_copy;
        self
    }

    pub fn replace_caption(&mut self, replace_caption: bool) -> (r: &mut Self)
        ensures
            *r == (RTDMessageCopyOptionsBuilder { inner: MessageCopyOptions { replace_caption: replace_caption, ..old(self).inner } }),
            *final(self) == *final(r),
    {
        self.inner.replace_caption = replace_caption;
        self
    }
}
} // verus!
