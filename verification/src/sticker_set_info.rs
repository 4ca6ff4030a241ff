use vstd::prelude::*;

use crate::errors::DecodeError;
use crate::errors::EncodeError;
use crate::errors::SpecDecodeError;
use crate::json::JsonMember;
use crate::json::JsonValue;
use crate::json::SpecJson;
use crate::json::i64_lex;
use crate::json::view_members;
use crate::json::wf;
use crate::object::RObject;
use crate::object::Wire;
use crate::object::clone_opt_string;
use crate::object::clone_vec;
use crate::object::decode_vec;
use crate::object::encode_vec;
use crate::object::eqv_opt_string;
use crate::object::eqv_vec;
use crate::object::field_bool;
use crate::object::field_i64;
use crate::object::field_isize;
use crate::object::field_opt_string;
use crate::object::field_string;
use crate::object::get_field;
use crate::object::get_spec;
use crate::object::get_tag;
use crate::object::i64_lexeme;
use crate::object::lemma_get_spec_found;
use crate::object::lemma_vec_wire_elts;
use crate::object::m_bool;
use crate::object::m_i64;
use crate::object::m_isize;
use crate::object::m_opt_str;
use crate::object::m_str;
use crate::object::m_vec_custom;
use crate::object::new_token;
use crate::object::ok_bool;
use crate::object::ok_i64;
use crate::object::ok_isize;
use crate::object::ok_opt_str;
use crate::object::ok_str;
use crate::object::ok_vec_custom;
use crate::object::opt_str_tree;
use crate::object::opt_str_view;
use crate::object::opt_string_tree;
use crate::object::push_member;
use crate::object::tag_of;
use crate::object::vec_wire;
use crate::sticker::Sticker;

verus! {

/// Represents short information about a sticker set
#[derive(Debug, PartialEq)]
pub struct StickerSetInfo {
    pub extra: Option<String>,
    /// Identifier of the sticker set
    pub id: isize,
    /// Title of the sticker set
    pub title: String,
    /// Name of the sticker set
    pub name: String,
    /// True, if the sticker set has been installed by the current user
    pub is_installed: bool,
    /// True, if the sticker set has been archived. A sticker set can't be installed and archived simultaneously
    pub is_archived: bool,
    /// True, if the sticker set is official
    pub is_official: bool,
    /// True, is the stickers in the set are animated
    pub is_animated: bool,
    /// True, if the stickers in the set are masks
    pub is_masks: bool,
    /// True for already viewed trending sticker sets
    pub is_viewed: bool,
    /// Total number of stickers in the set
    pub size: i64,
    /// Up to the first 5 stickers from the set, depending on the context. If the application needs more stickers the full sticker set needs to be requested
    pub covers: Vec<Sticker>,
}

impl StickerSetInfo {
    pub open spec fn tag_spec() -> Seq<char> {
        "stickerSetInfo"@
    }

    /// The members of the wire object, in the order they are written.
    pub open spec fn members_spec(self) -> Seq<(Seq<char>, SpecJson)> {
        seq![
            ("@type"@, SpecJson::Str(Self::tag_spec())),
            ("@extra"@, opt_str_tree(opt_str_view(self.extra))),
            ("id"@, SpecJson::Num(i64_lex(self.id as int))),
            ("title"@, SpecJson::Str(self.title@)),
            ("name"@, SpecJson::Str(self.name@)),
            ("is_installed"@, SpecJson::Bool(self.is_installed)),
            ("is_archived"@, SpecJson::Bool(self.is_archived)),
            ("is_official"@, SpecJson::Bool(self.is_official)),
            ("is_animated"@, SpecJson::Bool(self.is_animated)),
            ("is_masks"@, SpecJson::Bool(self.is_masks)),
            ("is_viewed"@, SpecJson::Bool(self.is_viewed)),
            ("size"@, SpecJson::Num(i64_lex(self.size as int))),
            ("covers"@, SpecJson::Arr(vec_wire::<Sticker>(self.covers@)->0)),
        ]
    }

    pub open spec fn fields_ok(t: SpecJson) -> bool {
        &&& ok_opt_str(t, "@extra"@)
        &&& ok_isize(t, "id"@)
        &&& ok_str(t, "title"@)
        &&& ok_str(t, "name"@)
        &&& ok_bool(t, "is_installed"@)
        &&& ok_bool(t, "is_archived"@)
        &&& ok_bool(t, "is_official"@)
        &&& ok_bool(t, "is_animated"@)
        &&& ok_bool(t, "is_masks"@)
        &&& ok_bool(t, "is_viewed"@)
        &&& ok_i64(t, "size"@)
        &&& ok_vec_custom::<Sticker>(t, "covers"@)
    }

    pub open spec fn fail_field(t: SpecJson) -> Seq<char> {
        if !ok_opt_str(t, "@extra"@) {
            "@extra"@
        } else if !(ok_isize(t, "id"@)) {
            "id"@
        } else if !(ok_str(t, "title"@)) {
            "title"@
        } else if !(ok_str(t, "name"@)) {
            "name"@
        } else if !(ok_bool(t, "is_installed"@)) {
            "is_installed"@
        } else if !(ok_bool(t, "is_archived"@)) {
            "is_archived"@
        } else if !(ok_bool(t, "is_official"@)) {
            "is_official"@
        } else if !(ok_bool(t, "is_animated"@)) {
            "is_animated"@
        } else if !(ok_bool(t, "is_masks"@)) {
            "is_masks"@
        } else if !(ok_bool(t, "is_viewed"@)) {
            "is_viewed"@
        } else if !(ok_i64(t, "size"@)) {
            "size"@
        } else if !(ok_vec_custom::<Sticker>(t, "covers"@)) {
            "covers"@
        } else {
            Seq::empty()
        }
    }

    /// The encoding of a value carries exactly this type's tag.
    pub proof fn lemma_wire_tag(v: StickerSetInfo)
        ensures
            v.wire_tree() matches Some(t) ==> tag_of(t) == Some(StickerSetInfo::tag_spec()),
    {
        if v.wire_tree() is Some {
            let t = v.wire_tree()->0;
            let ms = t->Obj_0;
            lemma_get_spec_found(ms, "@type"@, 0);
        }
    }
}

impl Clone for StickerSetInfo {
    fn clone(&self) -> (res: Self)
        ensures
            res.eqv(*self),
    {
        StickerSetInfo {
            extra: clone_opt_string(&self.extra),
            id: self.id,
            title: self.title.clone(),
            name: self.name.clone(),
            is_installed: self.is_installed,
            is_archived: self.is_archived,
            is_official: self.is_official,
            is_animated: self.is_animated,
            is_masks: self.is_masks,
            is_viewed: self.is_viewed,
            size: self.size,
            covers: clone_vec(&self.covers),
        }
    }
}

impl Wire for StickerSetInfo {
    open spec fn wire_tree(self) -> Option<SpecJson> {
        if vec_wire::<Sticker>(self.covers@) is None {
            None
        } else {
            Some(SpecJson::Obj(self.members_spec()))
        }
    }

    open spec fn accepts(t: SpecJson) -> bool {
        tag_of(t) is Some && Self::fields_ok(t)
    }

    open spec fn err_of(t: SpecJson) -> SpecDecodeError {
        match tag_of(t) {
            None => SpecDecodeError::Malformed,
            Some(_) => SpecDecodeError::FieldShapeMismatch(Self::tag_spec(), Self::fail_field(t)),
        }
    }

    open spec fn decodes_from(t: SpecJson, v: Self) -> bool {
        &&& m_opt_str(t, "@extra"@, v.extra)
        &&& m_isize(t, "id"@, v.id)
        &&& m_str(t, "title"@, v.title@)
        &&& m_str(t, "name"@, v.name@)
        &&& m_bool(t, "is_installed"@, v.is_installed)
        &&& m_bool(t, "is_archived"@, v.is_archived)
        &&& m_bool(t, "is_official"@, v.is_official)
        &&& m_bool(t, "is_animated"@, v.is_animated)
        &&& m_bool(t, "is_masks"@, v.is_masks)
        &&& m_bool(t, "is_viewed"@, v.is_viewed)
        &&& m_i64(t, "size"@, v.size)
        &&& m_vec_custom::<Sticker>(t, "covers"@, v.covers)
    }

    open spec fn eqv(self, other: Self) -> bool {
        &&& eqv_opt_string(self.extra, other.extra)
        &&& self.id == other.id
        &&& self.title@ == other.title@
        &&& self.name@ == other.name@
        &&& self.is_installed == other.is_installed
        &&& self.is_archived == other.is_archived
        &&& self.is_official == other.is_official
        &&& self.is_animated == other.is_animated
        &&& self.is_masks == other.is_masks
        &&& self.is_viewed == other.is_viewed
        &&& self.size == other.size
        &&& eqv_vec(self.covers, other.covers)
    }

    fn clone_val(&self) -> (r: Self) {
        self.clone()
    }

    #[verifier::rlimit(30)]
    #[verifier::spinoff_prover]
    fn decode_tree(t: &JsonValue) -> (r: Result<Self, DecodeError>) {
        if get_tag(t).is_none() {
            return Err(DecodeError::Malformed);
        }
        let extra = match field_opt_string(t, "@extra") {
            Some(x) => x,
            None => {
                return Err(DecodeError::FieldShapeMismatch(
                    String::from_str("stickerSetInfo"),
                    String::from_str("@extra"),
                ));
            },
        };
        let id = match field_isize(t, "id") {
            Some(x) => x,
            None => {
                return Err(DecodeError::FieldShapeMismatch(
                    String::from_str("stickerSetInfo"),
                    String::from_str("id"),
                ));
            },
        };
        let title = match field_string(t, "title") {
            Some(x) => x,
            None => {
                return Err(DecodeError::FieldShapeMismatch(
                    String::from_str("stickerSetInfo"),
                    String::from_str("title"),
                ));
            },
        };
        let name = match field_string(t, "name") {
            Some(x) => x,
            None => {
                return Err(DecodeError::FieldShapeMismatch(
                    String::from_str("stickerSetInfo"),
                    String::from_str("name"),
                ));
            },
        };
        let is_installed = match field_bool(t, "is_installed") {
            Some(x) => x,
            None => {
                return Err(DecodeError::FieldShapeMismatch(
                    String::from_str("stickerSetInfo"),
                    String::from_str("is_installed"),
                ));
            },
        };
        let is_archived = match field_bool(t, "is_archived") {
            Some(x) => x,
            None => {
                return Err(DecodeError::FieldShapeMismatch(
                    String::from_str("stickerSetInfo"),
                    String::from_str("is_archived"),
                ));
            },
        };
        let is_official = match field_bool(t, "is_official") {
            Some(x) => x,
            None => {
                return Err(DecodeError::FieldShapeMismatch(
                    String::from_str("stickerSetInfo"),
                    String::from_str("is_official"),
                ));
            },
        };
        let is_animated = match field_bool(t, "is_animated") {
            Some(x) => x,
            None => {
                return Err(DecodeError::FieldShapeMismatch(
                    String::from_str("stickerSetInfo"),
                    String::from_str("is_animated"),
                ));
            },
        };
        let is_masks = match field_bool(t, "is_masks") {
            Some(x) => x,
            None => {
                return Err(DecodeError::FieldShapeMismatch(
                    String::from_str("stickerSetInfo"),
                    String::from_str("is_masks"),
                ));
            },
        };
        let is_viewed = match field_bool(t, "is_viewed") {
            Some(x) => x,
            None => {
                return Err(DecodeError::FieldShapeMismatch(
                    String::from_str("stickerSetInfo"),
                    String::from_str("is_viewed"),
                ));
            },
        };
        let size = match field_i64(t, "size") {
            Some(x) => x,
            None => {
                return Err(DecodeError::FieldShapeMismatch(
                    String::from_str("stickerSetInfo"),
                    String::from_str("size"),
                ));
            },
        };
        let covers = match get_field(t, "covers") {
            Some(JsonValue::Arr(arr)) => match decode_vec::<Sticker>(arr) {
                Some(x) => x,
                None => {
                    return Err(DecodeError::FieldShapeMismatch(
                    String::from_str("stickerSetInfo"),
                    String::from_str("covers"),
                ));
                },
            },
            _ => {
                return Err(DecodeError::FieldShapeMismatch(
                    String::from_str("stickerSetInfo"),
                    String::from_str("covers"),
                ));
            },
        };
        Ok(StickerSetInfo { extra, id, title, name, is_installed, is_archived, is_official, is_animated, is_masks, is_viewed, size, covers })
    }

    #[verifier::rlimit(30)]
    #[verifier::spinoff_prover]
    fn encode_tree(&self) -> (r: Result<JsonValue, EncodeError>) {
        let a_covers = match encode_vec::<Sticker>(&self.covers) {
            Ok(x) => x,
            Err(e) => {
                return Err(e);
            },
        };
        let mut members: Vec<JsonMember> = Vec::new();
        proof {
            assert(view_members(members@) =~= Seq::<(Seq<char>, SpecJson)>::empty());
        }
        push_member(&mut members, "@type", JsonValue::Str(String::from_str("stickerSetInfo")));
        push_member(&mut members, "@extra", opt_string_tree(&self.extra));
        push_member(&mut members, "id", JsonValue::Num(i64_lexeme(self.id as i64)));
        push_member(&mut members, "title", JsonValue::Str(self.title.clone()));
        proof {
            assert(view_members(members@) =~= self.members_spec().take(4));
        }
        push_member(&mut members, "name", JsonValue::Str(self.name.clone()));
        push_member(&mut members, "is_installed", JsonValue::Bool(self.is_installed));
        push_member(&mut members, "is_archived", JsonValue::Bool(self.is_archived));
        push_member(&mut members, "is_official", JsonValue::Bool(self.is_official));
        proof {
            assert(view_members(members@) =~= self.members_spec().take(8));
        }
        push_member(&mut members, "is_animated", JsonValue::Bool(self.is_animated));
        push_member(&mut members, "is_masks", JsonValue::Bool(self.is_masks));
        push_member(&mut members, "is_viewed", JsonValue::Bool(self.is_viewed));
        push_member(&mut members, "size", JsonValue::Num(i64_lexeme(self.size)));
        proof {
            assert(view_members(members@) =~= self.members_spec().take(12));
        }
        push_member(&mut members, "covers", JsonValue::Arr(a_covers));
        let node = JsonValue::Obj(members);
        proof {
            assert(view_members(members@) =~= self.members_spec());
            assert(node@ == self.wire_tree()->0);
        }
        Ok(node)
    }

    proof fn lemma_wire_wf(v: Self) {
        if v.wire_tree() is Some {
            let t = v.wire_tree()->0;
            let ms = t->Obj_0;
            assert(ms == v.members_spec());
            crate::json::lemma_i64_lex(v.id as i64);
            crate::json::lemma_i64_lex(v.size);
            lemma_vec_wire_elts::<Sticker>(v.covers@);
            assert forall|k: int| 0 <= k < v.covers@.len() implies wf(
                #[trigger] (vec_wire::<Sticker>(v.covers@)->0)[k],
            ) by {
                Sticker::lemma_wire_wf(v.covers@[k]);
            }
            assert forall|i: int| 0 <= i < ms.len() implies wf(#[trigger] ms[i].1) by {
            }
        }
    }

    #[verifier::rlimit(30)]
    #[verifier::spinoff_prover]
    proof fn lemma_round_trip(v: Self) {
        if v.wire_tree() is Some {
            let t = v.wire_tree()->0;
            let ms = t->Obj_0;
            assert(ms == v.members_spec());
            reveal_strlit("@type");
            reveal_strlit("@extra");
            reveal_strlit("id");
            reveal_strlit("title");
            reveal_strlit("name");
            reveal_strlit("is_installed");
            reveal_strlit("is_archived");
            reveal_strlit("is_official");
            reveal_strlit("is_animated");
            reveal_strlit("is_masks");
            reveal_strlit("is_viewed");
            reveal_strlit("size");
            reveal_strlit("covers");
            assert("@type"@.len() == 5);
            assert("@extra"@.len() == 6);
            assert("id"@.len() == 2);
            assert("title"@.len() == 5);
            assert("name"@.len() == 4);
            assert("is_installed"@.len() == 12);
            assert("is_archived"@.len() == 11);
            assert("is_official"@.len() == 11);
            assert("is_animated"@.len() == 11);
            assert("is_masks"@.len() == 8);
            assert("is_viewed"@.len() == 9);
            assert("size"@.len() == 4);
            assert("covers"@.len() == 6);
            assert("@type"@[0] == '@' && "title"@[0] == 't');
            assert("@extra"@[0] == '@' && "covers"@[0] == 'c');
            assert("name"@[0] == 'n' && "size"@[0] == 's');
            assert("is_archived"@[3] == 'a' && "is_official"@[3] == 'o');
            assert("is_archived"@[4] == 'r' && "is_animated"@[4] == 'n');
            assert("is_official"@[3] == 'o' && "is_animated"@[3] == 'a');
            reveal_with_fuel(get_spec, 15);
            lemma_get_spec_found(ms, "@type"@, 0);
            lemma_get_spec_found(ms, "@extra"@, 1);
            lemma_get_spec_found(ms, "id"@, 2);
            lemma_get_spec_found(ms, "title"@, 3);
            lemma_get_spec_found(ms, "name"@, 4);
            lemma_get_spec_found(ms, "is_installed"@, 5);
            lemma_get_spec_found(ms, "is_archived"@, 6);
            lemma_get_spec_found(ms, "is_official"@, 7);
            lemma_get_spec_found(ms, "is_animated"@, 8);
            lemma_get_spec_found(ms, "is_masks"@, 9);
            lemma_get_spec_found(ms, "is_viewed"@, 10);
            lemma_get_spec_found(ms, "size"@, 11);
            lemma_get_spec_found(ms, "covers"@, 12);
            assert(tag_of(t) == Some(Self::tag_spec()));
            assert(ok_opt_str(t, "@extra"@));
            crate::json::lemma_i64_lex(v.id as i64);
            assert(ok_isize(t, "id"@));
            assert(ok_str(t, "title"@));
            assert(ok_str(t, "name"@));
            assert(ok_bool(t, "is_installed"@));
            assert(ok_bool(t, "is_archived"@));
            assert(ok_bool(t, "is_official"@));
            assert(ok_bool(t, "is_animated"@));
            assert(ok_bool(t, "is_masks"@));
            assert(ok_bool(t, "is_viewed"@));
            crate::json::lemma_i64_lex(v.size);
            assert(ok_i64(t, "size"@));
            lemma_vec_wire_elts::<Sticker>(v.covers@);
            assert(ok_vec_custom::<Sticker>(t, "covers"@)) by {
                assert forall|k: int| 0 <= k < (vec_wire::<Sticker>(v.covers@)->0).len() implies
                    Sticker::accepts(#[trigger] (vec_wire::<Sticker>(v.covers@)->0)[k]) by {
                    Sticker::lemma_round_trip(v.covers@[k]);
                }
            }
            assert(Self::accepts(t));
            assert forall|w: Self| Self::decodes_from(t, w) implies #[trigger] w.eqv(v) by {
                lemma_vec_wire_elts::<Sticker>(v.covers@);
                assert forall|k: int| 0 <= k < w.covers@.len() implies w.covers@[k].eqv(
                    #[trigger] v.covers@[k],
                ) by {
                    assert(Sticker::decodes_from((vec_wire::<Sticker>(v.covers@)->0)[k], w.covers@[k]));
                    Sticker::lemma_round_trip(v.covers@[k]);
                }
                assert(eqv_vec(w.covers, v.covers));
            }
        }
    }
}

impl RObject for StickerSetInfo {
    open spec fn tag_chars(&self) -> Seq<char> {
        Self::tag_spec()
    }

    open spec fn extra_spec(&self) -> Option<Seq<char>> {
        opt_str_view(self.extra)
    }

    fn td_name(&self) -> (r: &'static str) {
        "stickerSetInfo"
    }

    fn extra(&self) -> (r: Option<String>) {
        clone_opt_string(&self.extra)
    }

    fn to_json(&self) -> (r: Result<String, EncodeError>) {
        crate::object::encode(self)
    }
}

impl StickerSetInfo {
    pub fn from_json(json: &str) -> (r: Result<StickerSetInfo, DecodeError>)
        ensures
            match crate::parse::parse_doc(json@) {
                Some(t) => match r {
                    Ok(v) => Self::accepts(t) && Self::decodes_from(t, v),
                    Err(e) => !Self::accepts(t) && crate::errors::err_matches(e, Self::err_of(t)),
                },
                None => r matches Err(e) && e == DecodeError::Malformed,
            },
    {
        crate::object::from_json::<StickerSetInfo>(json)
    }

    pub fn builder() -> (r: RTDStickerSetInfoBuilder)
        ensures
            r.inner.extra is Some,
            r.inner.id == 0,
            r.inner.title@ == Seq::<char>::empty(),
            r.inner.name@ == Seq::<char>::empty(),
            r.inner.is_installed == false,
            r.inner.is_archived == false,
            r.inner.is_official == false,
            r.inner.is_animated == false,
            r.inner.is_masks == false,
            r.inner.is_viewed == false,
            r.inner.size == 0,
            r.inner.covers@.len() == 0,
    {
        RTDStickerSetInfoBuilder {
            inner: StickerSetInfo {
                extra: Some(new_token()),
                id: 0,
                title: String::new(),
                name: String::new(),
                is_installed: false,
                is_archived: false,
                is_official: false,
                is_animated: false,
                is_masks: false,
                is_viewed: false,
                size: 0,
                covers: Vec::new(),
            },
        }
    }

    pub fn id(&self) -> (r: isize)
        ensures
            r == self.id,
    {
        self.id
    }

    pub fn title(&self) -> (r: &String)
        ensures
            *r == self.title,
    {
        &self.title
    }

    pub fn name(&self) -> (r: &String)
        ensures
            *r == self.name,
    {
        &self.name
    }

    pub fn is_installed(&self) -> (r: bool)
        ensures
            r == self.is_installed,
    {
        self.is_installed
    }

    pub fn is_archived(&self) -> (r: bool)
        ensures
            r == self.is_archived,
    {
        self.is_archived
    }

    pub fn is_official(&self) -> (r: bool)
        ensures
            r == self.is_official,
    {
        self.is_official
    }

    pub fn is_animated(&self) -> (r: bool)
        ensures
            r == self.is_animated,
    {
        self.is_animated
    }

    pub fn is_masks(&self) -> (r: bool)
        ensures
            r == self.is_masks,
    {
        self.is_masks
    }

    pub fn is_viewed(&self) -> (r: bool)
        ensures
            r == self.is_viewed,
    {
        self.is_viewed
    }

    pub fn size(&self) -> (r: i64)
        ensures
            r == self.size,
    {
        self.size
    }

    pub fn covers(&self) -> (r: &Vec<Sticker>)
        ensures
            *r == self.covers,
    {
        &self.covers
    }
}

pub struct RTDStickerSetInfoBuilder {
    pub inner: StickerSetInfo,
}

impl RTDStickerSetInfoBuilder {
    pub fn build(&self) -> (r: StickerSetInfo)
        ensures
            r.eqv(self.inner),
    {
        self.inner.clone()
    }

    pub fn id(&mut self, id: isize) -> (r: &mut Self)
        ensures
            *r == (RTDStickerSetInfoBuilder { inner: StickerSetInfo { id: id, ..old(self).inner } }),
            *final(self) == *final(r),
    {
        self.inner.id = id;
        self
    }

    pub fn title(&mut self, title: String) -> (r: &mut Self)
        ensures
            *r == (RTDStickerSetInfoBuilder { inner: StickerSetInfo { title: title, ..old(self).inner } }),
            *final(self) == *final(r),
    {
        self.inner.title = title;
        self
    }

    pub fn name(&mut self, name: String) -> (r: &mut Self)
        ensures
            *r == (RTDStickerSetInfoBuilder { inner: StickerSetInfo { name: name, ..old(self).inner } }),
            *final(self) == *final(r),
    {
        self.inner.name = name;
        self
    }

    pub fn is_installed(&mut self, is_installed: bool) -> (r: &mut Self)
        ensures
            *r == (RTDStickerSetInfoBuilder { inner: StickerSetInfo { is_installed: is_installed, ..old(self).inner } }),
            *final(self) == *final(r),
    {
        self.inner.is_installed = is_installed;
        self
    }

    pub fn is_archived(&mut self, is_archived: bool) -> (r: &mut Self)
        ensures
            *r == (RTDStickerSetInfoBuilder { inner: StickerSetInfo { is_archived: is_archived, ..old(self).inner } }),
            *final(self) == *final(r),
    {
        self.inner.is_archived = is_archived;
        self
    }

    pub fn is_official(&mut self, is_official: bool) -> (r: &mut Self)
        ensures
            *r == (RTDStickerSetInfoBuilder { inner: StickerSetInfo { is_official: is_official, ..old(self).inner } }),
            *final(self) == *final(r),
    {
        self.inner.is_official = is_official;
        self
    }

    pub fn is_animated(&mut self, is_animated: bool) -> (r: &mut Self)
        ensures
            *r == (RTDStickerSetInfoBuilder { inner: StickerSetInfo { is_animated: is_animated, ..old(self).inner } }),
            *final(self) == *final(r),
    {
        self.inner.is_animated = is_animated;
        self
    }

    pub fn is_masks(&mut self, is_masks: bool) -> (r: &mut Self)
        ensures
            *r == (RTDStickerSetInfoBuilder { inner: StickerSetInfo { is_masks: is_masks, ..old(self).inner } }),
            *final(self) == *final(r),
    {
        self.inner.is_masks = is_masks;
        self
    }

    pub fn is_viewed(&mut self, is_viewed: bool) -> (r: &mut Self)
        ensures
            *r == (RTDStickerSetInfoBuilder { inner: StickerSetInfo { is_viewed: is_viewed, ..old(self).inner } }),
            *final(self) == *final(r),
    {
        self.inner.is_viewed = is_viewed;
        self
    }

    pub fn size(&mut self, size: i64) -> (r: &mut Self)
        ensures
            *r == (RTDStickerSetInfoBuilder { inner: StickerSetInfo { size: size, ..old(self).inner } }),
            *final(self) == *final(r),
    {
        self.inner.size = size;
        self
    }

    pub fn covers(&mut self, covers: Vec<Sticker>) -> (r: &mut Self)
        ensures
            *r == (RTDStickerSetInfoBuilder { inner: StickerSetInfo { covers: covers, ..old(self).inner } }),
            *final(self) == *final(r),
    {
        self.inner.covers = covers;
        self
    }
}
} // verus!
