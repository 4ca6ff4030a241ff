use vstd::prelude::*;

use crate::errors::DecodeError;
use crate::errors::EncodeError;
use crate::errors::SpecDecodeError;
use crate::json::JsonMember;
use crate::json::JsonValue;
use crate::json::SpecJson;
use crate::json::i64_lex;
use crate::json::view_members;
use crate::json::wf;
use crate::object::RObject;
use crate::object::Wire;
use crate::object::clone_opt_string;
use crate::object::eqv_opt_string;
use crate::object::field_bool;
use crate::object::field_i64;
use crate::object::field_isize;
use crate::object::field_opt_string;
use crate::object::field_string;
use crate::object::get_spec;
use crate::object::get_tag;
use crate::object::i64_lexeme;
use crate::object::lemma_get_spec_found;
use crate::object::m_bool;
use crate::object::m_i64;
use crate::object::m_isize;
use crate::object::m_opt_str;
use crate::object::m_str;
use crate::object::new_token;
use crate::object::ok_bool;
use crate::object::ok_i64;
use crate::object::ok_isize;
use crate::object::ok_opt_str;
use crate::object::ok_str;
use crate::object::opt_str_tree;
use crate::object::opt_str_view;
use crate::object::opt_string_tree;
use crate::object::push_member;
use crate::object::tag_of;

verus! {

/// Describes a sticker
#[derive(Debug, PartialEq)]
pub struct Sticker {
    pub extra: Option<String>,
    /// The identifier of the sticker set to which the sticker belongs; 0 if none
    pub set_id: isize,
    /// Sticker width; as defined by the sender
    pub width: i64,
    /// Sticker height; as defined by the sender
    pub height: i64,
    /// Emoji corresponding to the sticker
    pub emoji: String,
    /// True, if the sticker is an animated sticker in TGS format
    pub is_animated: bool,
    /// True, if the sticker is a mask
    pub is_mask: bool,
}

impl Sticker {
    pub open spec fn tag_spec() -> Seq<char> {
        "sticker"@
    }

    /// The members of the wire object, in the order they are written.
    pub open spec fn members_spec(self) -> Seq<(Seq<char>, SpecJson)> {
        seq![
            ("@type"@, SpecJson::Str(Self::tag_spec())),
            ("@extra"@, opt_str_tree(opt_str_view(self.extra))),
            ("set_id"@, SpecJson::Num(i64_lex(self.set_id as int))),
            ("width"@, SpecJson::Num(i64_lex(self.width as int))),
            ("height"@, SpecJson::Num(i64_lex(self.height as int))),
            ("emoji"@, SpecJson::Str(self.emoji@)),
            ("is_animated"@, SpecJson::Bool(self.is_animated)),
            ("is_mask"@, SpecJson::Bool(self.is_mask)),
        ]
    }

    pub open spec fn fields_ok(t: SpecJson) -> bool {
        &&& ok_opt_str(t, "@extra"@)
        &&& ok_isize(t, "set_id"@)
        &&& ok_i64(t, "width"@)
        &&& ok_i64(t, "height"@)
        &&& ok_str(t, "emoji"@)
        &&& ok_bool(t, "is_animated"@)
        &&& ok_bool(t, "is_mask"@)
    }

    pub open spec fn fail_field(t: SpecJson) -> Seq<char> {
        if !ok_opt_str(t, "@extra"@) {
            "@extra"@
        } else if !(ok_isize(t, "set_id"@)) {
            "set_id"@
        } else if !(ok_i64(t, "width"@)) {
            "width"@
        } else if !(ok_i64(t, "height"@)) {
            "height"@
        } else if !(ok_str(t, "emoji"@)) {
            "emoji"@
        } else if !(ok_bool(t, "is_animated"@)) {
            "is_animated"@
        } else if !(ok_bool(t, "is_mask"@)) {
            "is_mask"@
        } else {
            Seq::empty()
        }
    }

    /// The encoding of a value carries exactly this type's tag.
    pub proof fn lemma_wire_tag(v: Sticker)
        ensures
            v.wire_tree() matches Some(t) ==> tag_of(t) == Some(Sticker::tag_spec()),
    {
        if v.wire_tree() is Some {
            let t = v.wire_tree()->0;
            let ms = t->Obj_0;
            lemma_get_spec_found(ms, "@type"@, 0);
        }
    }
}

impl Clone for Sticker {
    fn clone(&self) -> (res: Self)
        ensures
            res.eqv(*self),
    {
        Sticker {
            extra: clone_opt_string(&self.extra),
            set_id: self.set_id,
            width: self.width,
            height: self.height,
            emoji: self.emoji.clone(),
            is_animated: self.is_animated,
            is_mask: self.is_mask,
        }
    }
}

impl Wire for Sticker {
    open spec fn wire_tree(self) -> Option<SpecJson> {
        Some(SpecJson::Obj(self.members_spec()))
    }

    open spec fn accepts(t: SpecJson) -> bool {
        tag_of(t) is Some && Self::fields_ok(t)
    }

    open spec fn err_of(t: SpecJson) -> SpecDecodeError {
        match tag_of(t) {
            None => SpecDecodeError::Malformed,
            Some(_) => SpecDecodeError::FieldShapeMismatch(Self::tag_spec(), Self::fail_field(t)),
        }
    }

    open spec fn decodes_from(t: SpecJson, v: Self) -> bool {
        &&& m_opt_str(t, "@extra"@, v.extra)
        &&& m_isize(t, "set_id"@, v.set_id)
        &&& m_i64(t, "width"@, v.width)
        &&& m_i64(t, "height"@, v.height)
        &&& m_str(t, "emoji"@, v.emoji@)
        &&& m_bool(t, "is_animated"@, v.is_animated)
        &&& m_bool(t, "is_mask"@, v.is_mask)
    }

    open spec fn eqv(self, other: Self) -> bool {
        &&& eqv_opt_string(self.extra, other.extra)
        &&& self.set_id == other.set_id
        &&& self.width == other.width
        &&& self.height == other.height
        &&& self.emoji@ == other.emoji@
        &&& self.is_animated == other.is_animated
        &&& self.is_mask == other.is_mask
    }

    fn clone_val(&self) -> (r: Self) {
        self.clone()
    }

    #[verifier::rlimit(30)]
    #[verifier::spinoff_prover]
    fn decode_tree(t: &JsonValue) -> (r: Result<Self, DecodeError>) {
        if get_tag(t).is_none() {
            return Err(DecodeError::Malformed);
        }
        let extra = match field_opt_string(t, "@extra") {
            Some(x) => x,
            None => {
                return Err(DecodeError::FieldShapeMismatch(
                    String::from_str("sticker"),
                    String::from_str("@extra"),
                ));
            },
        };
        let set_id = match field_isize(t, "set_id") {
            Some(x) => x,
            None => {
                return Err(DecodeError::FieldShapeMismatch(
                    String::from_str("sticker"),
                    String::from_str("set_id"),
                ));
            },
        };
        let width = match field_i64(t, "width") {
            Some(x) => x,
            None => {
                return Err(DecodeError::FieldShapeMismatch(
                    String::from_str("sticker"),
                    String::from_str("width"),
                ));
            },
        };
        let height = match field_i64(t, "height") {
            Some(x) => x,
            None => {
                return Err(DecodeError::FieldShapeMismatch(
                    String::from_str("sticker"),
                    String::from_str("height"),
                ));
            },
        };
        let emoji = match field_string(t, "emoji") {
            Some(x) => x,
            None => {
                return Err(DecodeError::FieldShapeMismatch(
                    String::from_str("sticker"),
                    String::from_str("emoji"),
                ));
            },
        };
        let is_animated = match field_bool(t, "is_animated") {
            Some(x) => x,
            None => {
                return Err(DecodeError::FieldShapeMismatch(
                    String::from_str("sticker"),
                    String::from_str("is_animated"),
                ));
            },
        };
        let is_mask = match field_bool(t, "is_mask") {
            Some(x) => x,
            None => {
                return Err(DecodeError::FieldShapeMismatch(
                    String::from_str("sticker"),
                    String::from_str("is_mask"),
                ));
            },
        };
        Ok(Sticker { extra, set_id, width, height, emoji, is_animated, is_mask })
    }

    #[verifier::rlimit(30)]
    #[verifier::spinoff_prover]
    fn encode_tree(&self) -> (r: Result<JsonValue, EncodeError>) {
        let mut members: Vec<JsonMember> = Vec::new();
        proof {
            assert(view_members(members@) =~= Seq::<(Seq<char>, SpecJson)>::empty());
        }
        push_member(&mut members, "@type", JsonValue::Str(String::from_str("sticker")));
        push_member(&mut members, "@extra", opt_string_tree(&self.extra));
        push_member(&mut members, "set_id", JsonValue::Num(i64_lexeme(self.set_id as i64)));
        push_member(&mut members, "width", JsonValue::Num(i64_lexeme(self.width)));
        push_member(&mut members, "height", JsonValue::Num(i64_lexeme(self.height)));
        push_member(&mut members, "emoji", JsonValue::Str(self.emoji.clone()));
        push_member(&mut members, "is_animated", JsonValue::Bool(self.is_animated));
        push_member(&mut members, "is_mask", JsonValue::Bool(self.is_mask));
        let node = JsonValue::Obj(members);
        proof {
            assert(view_members(members@) =~= self.members_spec());
            assert(node@ == self.wire_tree()->0);
        }
        Ok(node)
    }

    proof fn lemma_wire_wf(v: Self) {
        if v.wire_tree() is Some {
            let t = v.wire_tree()->0;
            let ms = t->Obj_0;
            assert(ms == v.members_spec());
            crate::json::lemma_i64_lex(v.set_id as i64);
            crate::json::lemma_i64_lex(v.width);
            crate::json::lemma_i64_lex(v.height);
            assert forall|i: int| 0 <= i < ms.len() implies wf(#[trigger] ms[i].1) by {
            }
        }
    }

    #[verifier::rlimit(30)]
    #[verifier::spinoff_prover]
    proof fn lemma_round_trip(v: Self) {
        if v.wire_tree() is Some {
            let t = v.wire_tree()->0;
            let ms = t->Obj_0;
            assert(ms == v.members_spec());
            reveal_strlit("@type");
            reveal_strlit("@extra");
            reveal_strlit("set_id");
            reveal_strlit("width");
            reveal_strlit("height");
            reveal_strlit("emoji");
            reveal_strlit("is_animated");
            reveal_strlit("is_mask");
            assert("@type"@.len() == 5);
            assert("@extra"@.len() == 6);
            assert("set_id"@.len() == 6);
            assert("width"@.len() == 5);
            assert("height"@.len() == 6);
            assert("emoji"@.len() == 5);
            assert("is_animated"@.len() == 11);
            assert("is_mask"@.len() == 7);
            assert("@type"@[0] == '@' && "width"@[0] == 'w');
            assert("@type"@[0] == '@' && "emoji"@[0] == 'e');
            assert("@extra"@[0] == '@' && "set_id"@[0] == 's');
            assert("@extra"@[0] == '@' && "height"@[0] == 'h');
            assert("set_id"@[0] == 's' && "height"@[0] == 'h');
            assert("width"@[0] == 'w' && "emoji"@[0] == 'e');
            reveal_with_fuel(get_spec, 10);
            lemma_get_spec_found(ms, "@type"@, 0);
            lemma_get_spec_found(ms, "@extra"@, 1);
            lemma_get_spec_found(ms, "set_id"@, 2);
            lemma_get_spec_found(ms, "width"@, 3);
            lemma_get_spec_found(ms, "height"@, 4);
            lemma_get_spec_found(ms, "emoji"@, 5);
            lemma_get_spec_found(ms, "is_animated"@, 6);
            lemma_get_spec_found(ms, "is_mask"@, 7);
            assert(tag_of(t) == Some(Self::tag_spec()));
            assert(ok_opt_str(t, "@extra"@));
            crate::json::lemma_i64_lex(v.set_id as i64);
            assert(ok_isize(t, "set_id"@));
            crate::json::lemma_i64_lex(v.width);
            assert(ok_i64(t, "width"@));
            crate::json::lemma_i64_lex(v.height);
            assert(ok_i64(t, "height"@));
            assert(ok_str(t, "emoji"@));
            assert(ok_bool(t, "is_animated"@));
            assert(ok_bool(t, "is_mask"@));
            assert(Self::accepts(t));
            assert forall|w: Self| Self::decodes_from(t, w) implies #[trigger] w.eqv(v) by {
            }
        }
    }
}

impl RObject for Sticker {
    open spec fn tag_chars(&self) -> Seq<char> {
        Self::tag_spec()
    }

    open spec fn extra_spec(&self) -> Option<Seq<char>> {
        opt_str_view(self.extra)
    }

    fn td_name(&self) -> (r: &'static str) {
        "sticker"
    }

    fn extra(&self) -> (r: Option<String>) {
        clone_opt_string(&self.extra)
    }

    fn to_json(&self) -> (r: Result<String, EncodeError>) {
        crate::object::encode(self)
    }
}

impl Sticker {
    pub fn from_json(json: &str) -> (r: Result<Sticker, DecodeError>)
        ensures
            match crate::parse::parse_doc(json@) {
                Some(t) => match r {
                    Ok(v) => Self::accepts(t) && Self::decodes_from(t, v),
                    Err(e) => !Self::accepts(t) && crate::errors::err_matches(e, Self::err_of(t)),
                },
                None => r matches Err(e) && e == DecodeError::Malformed,
            },
    {
        crate::object::from_json::<Sticker>(json)
    }

    pub fn builder() -> (r: RTDStickerBuilder)
        ensures
            r.inner.extra is Some,
            r.inner.set_id == 0,
            r.inner.width == 0,
            r.inner.height == 0,
            r.inner.emoji@ == Seq::<char>::empty(),
            r.inner.is_animated == false,
            r.inner.is_mask == false,
    {
        RTDStickerBuilder {
            inner: Sticker {
                extra: Some(new_token()),
                set_id: 0,
                width: 0,
                height: 0,
                emoji: String::new(),
                is_animated: false,
                is_mask: false,
            },
        }
    }

    pub fn set_id(&self) -> (r: isize)
        ensures
            r == self.set_id,
    {
        self.set_id
    }

    pub fn width(&self) -> (r: i64)
        ensures
            r == self.width,
    {
        self.width
    }

    pub fn height(&self) -> (r: i64)
        ensures
            r == self.height,
    {
        self.height
    }

    pub fn emoji(&self) -> (r: &String)
        ensures
            *r == self.emoji,
    {
        &self.emoji
    }

    pub fn is_animated(&self) -> (r: bool)
        ensures
            r == self.is_animated,
    {
        self.is_animated
    }

    pub fn is_mask(&self) -> (r: bool)
        ensures
            r == self.is_mask,
    {
        self.is_mask
    }
}

pub struct RTDStickerBuilder {
    pub inner: Sticker,
}

impl RTDStickerBuilder {
    pub fn build(&self) -> (r: Sticker)
        ensures
            r.eqv(self.inner),
    {
        self.inner.clone()
    }

    pub fn set_id(&mut self, set_id: isize) -> (r: &mut Self)
        ensures
            *r == (RTDStickerBuilder { inner: Sticker { set_id: set_id, ..old(self).inner } }),
            *final(self) == *final(r),
    {
        self.inner.set_id = set_id;
        self
    }

    pub fn width(&mut self, width: i64) -> (r: &mut Self)
        ensures
            *r == (RTDStickerBuilder { inner: Sticker { width: width, ..old(self).inner } }),
            *final(self) == *final(r),
    {
        self.inner.width = width;
        self
    }

    pub fn height(&mut self, height: i64) -> (r: &mut Self)
        ensures
            *r == (RTDStickerBuilder { inner: Sticker { height: height, ..old(self).inner } }),
            *final(self) == *final(r),
    {
        self.inner.height = height;
        self
    }

    pub fn emoji(&mut self, emoji: String) -> (r: &mut Self)
        ensures
            *r == (RTDStickerBuilder { inner: Sticker { emoji: emoji, ..old(self).inner } }),
            *final(self) == *final(r),
    {
        self.inner.emoji = emoji;
        self
    }

    pub fn is_animated(&mut self, is_animated: bool) -> (r: &mut Self)
        ensures
            *r == (RTDStickerBuilder { inner: Sticker { is_animated: is_animated, ..old(self).inner } }),
            *final(self) == *final(r),
    {
        self.inner.is_animated = is_animated;
        self
    }

    pub fn is_mask(&mut self, is_mask: bool) -> (r: &mut Self)
        ensures
            *r == (RTDStickerBuilder { inner: Sticker { is_mask: is_mask, ..old(self).inner } }),
            *final(self) == *final(r),
    {
        self.inner.is_mask = is_mask;
        self
    }
}
} // verus!
