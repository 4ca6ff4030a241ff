use vstd::prelude::*;

use crate::errors::DecodeError;
use crate::errors::EncodeError;
use crate::errors::SpecDecodeError;
use crate::json::JsonMember;
use crate::json::JsonValue;
use crate::json::SpecJson;
use crate::json::i64_lex;
use crate::json::view_members;
use crate::json::wf;
use crate::object::RObject;
use crate::object::Wire;
use crate::object::clone_opt_string;
use crate::object::eqv_opt_string;
use crate::object::field_i64;
use crate::object::field_opt_string;
use crate::object::field_string;
use crate::object::get_spec;
use crate::object::get_tag;
use crate::object::i64_lexeme;
use crate::object::lemma_get_spec_found;
use crate::object::m_i64;
use crate::object::m_opt_str;
use crate::object::m_str;
use crate::object::new_token;
use crate::object::ok_i64;
use crate::object::ok_opt_str;
use crate::object::ok_str;
use crate::object::opt_str_tree;
use crate::object::opt_str_view;
use crate::object::opt_string_tree;
use crate::object::push_member;
use crate::object::tag_of;

verus! {

/// An object of this type can be returned on every function call, in case of an error
#[derive(Debug, PartialEq)]
pub struct Error {
    pub extra: Option<String>,
    /// Error code; subject to future changes. If the error code is 406, the error message must not be processed in any way and must not be displayed to the user
    pub code: i64,
    /// Error message; subject to future changes
    pub message: String,
}

impl Error {
    pub open spec fn tag_spec() -> Seq<char> {
        "error"@
    }

    /// The members of the wire object, in the order they are written.
    pub open spec fn members_spec(self) -> Seq<(Seq<char>, SpecJson)> {
        seq![
            ("@type"@, SpecJson::Str(Self::tag_spec())),
            ("@extra"@, opt_str_tree(opt_str_view(self.extra))),
            ("code"@, SpecJson::Num(i64_lex(self.code as int))),
            ("message"@, SpecJson::Str(self.message@)),
        ]
    }

    pub open spec fn fields_ok(t: SpecJson) -> bool {
        &&& ok_opt_str(t, "@extra"@)
        &&& ok_i64(t, "code"@)
        &&& ok_str(t, "message"@)
    }

    pub open spec fn fail_field(t: SpecJson) -> Seq<char> {
        if !ok_opt_str(t, "@extra"@) {
            "@extra"@
        } else if !(ok_i64(t, "code"@)) {
            "code"@
        } else if !(ok_str(t, "message"@)) {
            "message"@
        } else {
            Seq::empty()
        }
    }

    /// The encoding of a value carries exactly this type's tag.
    pub proof fn lemma_wire_tag(v: Error)
        ensures
            v.wire_tree() matches Some(t) ==> tag_of(t) == Some(Error::tag_spec()),
    {
        if v.wire_tree() is Some {
            let t = v.wire_tree()->0;
            let ms = t->Obj_0;
            lemma_get_spec_found(ms, "@type"@, 0);
        }
    }
}

impl Clone for Error {
    fn clone(&self) -> (res: Self)
        ensures
            res.eqv(*self),
    {
        Error {
            extra: clone_opt_string(&self.extra),
            code: self.code,
            message: self.message.clone(),
        }
    }
}

impl Wire for Error {
    open spec fn wire_tree(self) -> Option<SpecJson> {
        Some(SpecJson::Obj(self.members_spec()))
    }

    open spec fn accepts(t: SpecJson) -> bool {
        tag_of(t) is Some && Self::fields_ok(t)
    }

    open spec fn err_of(t: SpecJson) -> SpecDecodeError {
        match tag_of(t) {
            None => SpecDecodeError::Malformed,
            Some(_) => SpecDecodeError::FieldShapeMismatch(Self::tag_spec(), Self::fail_field(t)),
        }
    }

    open spec fn decodes_from(t: SpecJson, v: Self) -> bool {
        &&& m_opt_str(t, "@extra"@, v.extra)
        &&& m_i64(t, "code"@, v.code)
        &&& m_str(t, "message"@, v.message@)
    }

    open spec fn eqv(self, other: Self) -> bool {
        &&& eqv_opt_string(self.extra, other.extra)
        &&& self.code == other.code
        &&& self.message@ == other.message@
    }

    fn clone_val(&self) -> (r: Self) {
        self.clone()
    }

    fn decode_tree(t: &JsonValue) -> (r: Result<Self, DecodeError>) {
        if get_tag(t).is_none() {
            return Err(DecodeError::Malformed);
        }
        let extra = match field_opt_string(t, "@extra") {
            Some(x) => x,
            None => {
                return Err(DecodeError::FieldShapeMismatch(
                    String::from_str("error"),
                    String::from_str("@extra"),
                ));
            },
        };
        let code = match field_i64(t, "code") {
            Some(x) => x,
            None => {
                return Err(DecodeError::FieldShapeMismatch(
                    String::from_str("error"),
                    String::from_str("code"),
                ));
            },
        };
        let message = match field_string(t, "message") {
            Some(x) => x,
            None => {
                return Err(DecodeError::FieldShapeMismatch(
                    String::from_str("error"),
                    String::from_str("message"),
                ));
            },
        };
        Ok(Error { extra, code, message })
    }

    fn encode_tree(&self) -> (r: Result<JsonValue, EncodeError>) {
        let mut members: Vec<JsonMember> = Vec::new();
        proof {
            assert(view_members(members@) =~= Seq::<(Seq<char>, SpecJson)>::empty());
        }
        push_member(&mut members, "@type", JsonValue::Str(String::from_str("error")));
        push_member(&mut members, "@extra", opt_string_tree(&self.extra));
        push_member(&mut members, "code", JsonValue::Num(i64_lexeme(self.code)));
        push_member(&mut members, "message", JsonValue::Str(self.message.clone()));
        let node = JsonValue::Obj(members);
        proof {
            assert(view_members(members@) =~= self.members_spec());
            assert(node@ == self.wire_tree()->0);
        }
        Ok(node)
    }

    proof fn lemma_wire_wf(v: Self) {
        if v.wire_tree() is Some {
            let t = v.wire_tree()->0;
            let ms = t->Obj_0;
            assert(ms == v.members_spec());
            crate::json::lemma_i64_lex(v.code);
            assert forall|i: int| 0 <= i < ms.len() implies wf(#[trigger] ms[i].1) by {
            }
        }
    }

    proof fn lemma_round_trip(v: Self) {
        if v.wire_tree() is Some {
            let t = v.wire_tree()->0;
            let ms = t->Obj_0;
            assert(ms == v.members_spec());
            reveal_strlit("@type");
            reveal_strlit("@extra");
            reveal_strlit("code");
            reveal_strlit("message");
            assert("@type"@.len() == 5);
            assert("@extra"@.len() == 6);
            assert("code"@.len() == 4);
            assert("message"@.len() == 7);
            reveal_with_fuel(get_spec, 6);
            lemma_get_spec_found(ms, "@type"@, 0);
            lemma_get_spec_found(ms, "@extra"@, 1);
            lemma_get_spec_found(ms, "code"@, 2);
            lemma_get_spec_found(ms, "message"@, 3);
            assert(tag_of(t) == Some(Self::tag_spec()));
            assert(ok_opt_str(t, "@extra"@));
            crate::json::lemma_i64_lex(v.code);
            assert(ok_i64(t, "code"@));
            assert(ok_str(t, "message"@));
            assert(Self::accepts(t));
            assert forall|w: Self| Self::decodes_from(t, w) implies #[trigger] w.eqv(v) by {
            }
        }
    }
}

impl RObject for Error {
    open spec fn tag_chars(&self) -> Seq<char> {
        Self::tag_spec()
    }

    open spec fn extra_spec(&self) -> Option<Seq<char>> {
        opt_str_view(self.extra)
    }

    fn td_name(&self) -> (r: &'static str) {
        "error"
    }

    fn extra(&self) -> (r: Option<String>) {
        clone_opt_string(&self.extra)
    }

    fn to_json(&self) -> (r: Result<String, EncodeError>) {
        crate::object::encode(self)
    }
}

impl Error {
    pub fn from_json(json: &str) -> (r: Result<Error, DecodeError>)
        ensures
            match crate::parse::parse_doc(json@) {
                Some(t) => match r {
                    Ok(v) => Self::accepts(t) && Self::decodes_from(t, v),
                    Err(e) => !Self::accepts(t) && crate::errors::err_matches(e, Self::err_of(t)),
                },
                None => r matches Err(e) && e == DecodeError::Malformed,
            },
    {
        crate::object::from_json::<Error>(json)
    }

    pub fn builder() -> (r: RTDErrorBuilder)
        ensures
            r.inner.extra is Some,
            r.inner.code == 0,
            r.inner.message@ == Seq::<char>::empty(),
    {
        RTDErrorBuilder {
            inner: Error {
                extra: Some(new_token()),
                code: 0,
                message: String::new(),
            },
        }
    }

    pub fn code(&self) -> (r: i64)
        ensures
            r == self.code,
    {
        self.code
    }

    pub fn message(&self) -> (r: &String)
        ensures
            *r == self.message,
    {
        &self.message
    }
}

pub struct RTDErrorBuilder {
    pub inner: Error,
}

impl RTDErrorBuilder {
    pub fn build(&self) -> (r: Error)
        ensures
            r.eqv(self.inner),
    {
        self.inner.clone()
    }

    pub fn code(&mut self, code: i64) -> (r: &mut Self)
        ensures
            *r == (RTDErrorBuilder { inner: Error { code: code, ..old(self).inner } }),
            *final(self) == *final(r),
    {
        self.inner.code = code;
        self
    }

    pub fn message(&mut self, message: String) -> (r: &mut Self)
        ensures
            *r == (RTDErrorBuilder { inner: Error { message: message, ..old(self).inner } }),
            *final(self) == *final(r),
    {
        self.inner.message = message;
        self
    }
}
} // verus!
