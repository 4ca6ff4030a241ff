use vstd::prelude::*;

use crate::errors::DecodeError;
use crate::errors::EncodeError;
use crate::errors::SpecDecodeError;
use crate::json::JsonMember;
use crate::json::JsonValue;
use crate::json::SpecJson;
use crate::json::view_members;
use crate::json::wf;
use crate::object::RObject;
use crate::object::Wire;
use crate::object::clone_opt_string;
use crate::object::clone_vec_string;
use crate::object::decode_vec_string;
use crate::object::encode_vec_string;
use crate::object::eqv_opt_string;
use crate::object::eqv_vec_string;
use crate::object::field_bool;
use crate::object::field_opt_string;
use crate::object::field_string;
use crate::object::get_field;
use crate::object::get_spec;
use crate::object::get_tag;
use crate::object::lemma_get_spec_found;
use crate::object::m_bool;
use crate::object::m_opt_str;
use crate::object::m_str;
use crate::object::m_vec_str;
use crate::object::new_token;
use crate::object::ok_bool;
use crate::object::ok_opt_str;
use crate::object::ok_str;
use crate::object::ok_vec_str;
use crate::object::opt_str_tree;
use crate::object::opt_str_view;
use crate::object::opt_string_tree;
use crate::object::push_member;
use crate::object::tag_of;
use crate::object::vec_str_trees;

verus! {

/// Contains information about a country
#[derive(Debug, PartialEq)]
pub struct CountryInfo {
    pub extra: Option<String>,
    /// A two-letter ISO 3166-1 alpha-2 country code
    pub country_code: String,
    /// Native name of the country
    pub name: String,
    /// English name of the country
    pub english_name: String,
    /// True, if the country must be hidden from the list of all countries
    pub is_hidden: bool,
    /// List of country calling codes
    pub calling_codes: Vec<String>,
}

impl CountryInfo {
    pub open spec fn tag_spec() -> Seq<char> {
        "countryInfo"@
    }

    /// The members of the wire object, in the order they are written.
    pub open spec fn members_spec(self) -> Seq<(Seq<char>, SpecJson)> {
        seq![
            ("@type"@, SpecJson::Str(Self::tag_spec())),
            ("@extra"@, opt_str_tree(opt_str_view(self.extra))),
            ("country_code"@, SpecJson::Str(self.country_code@)),
            ("name"@, SpecJson::Str(self.name@)),
            ("english_name"@, SpecJson::Str(self.english_name@)),
            ("is_hidden"@, SpecJson::Bool(self.is_hidden)),
            ("calling_codes"@, SpecJson::Arr(vec_str_trees(self.calling_codes@))),
        ]
    }

    pub open spec fn fields_ok(t: SpecJson) -> bool {
        &&& ok_opt_str(t, "@extra"@)
        &&& ok_str(t, "country_code"@)
        &&& ok_str(t, "name"@)
        &&& ok_str(t, "english_name"@)
        &&& ok_bool(t, "is_hidden"@)
        &&& ok_vec_str(t, "calling_codes"@)
    }

    pub open spec fn fail_field(t: SpecJson) -> Seq<char> {
        if !ok_opt_str(t, "@extra"@) {
            "@extra"@
        } else if !(ok_str(t, "country_code"@)) {
            "country_code"@
        } else if !(ok_str(t, "name"@)) {
            "name"@
        } else if !(ok_str(t, "english_name"@)) {
            "english_name"@
        } else if !(ok_bool(t, "is_hidden"@)) {
            "is_hidden"@
        } else if !(ok_vec_str(t, "calling_codes"@)) {
            "calling_codes"@
        } else {
            Seq::empty()
        }
    }

    /// The encoding of a value carries exactly this type's tag.
    pub proof fn lemma_wire_tag(v: CountryInfo)
        ensures
            v.wire_tree() matches Some(t) ==> tag_of(t) == Some(CountryInfo::tag_spec()),
    {
        if v.wire_tree() is Some {
            let t = v.wire_tree()->0;
            let ms = t->Obj_0;
            lemma_get_spec_found(ms, "@type"@, 0);
        }
    }
}

impl Clone for CountryInfo {
    fn clone(&self) -> (res: Self)
        ensures
            res.eqv(*self),
    {
        CountryInfo {
            extra: clone_opt_string(&self.extra),
            country_code: self.country_code.clone(),
            name: self.name.clone(),
            english_name: self.english_name.clone(),
            is_hidden: self.is_hidden,
            calling_codes: clone_vec_string(&self.calling_codes),
        }
    }
}

impl Wire for CountryInfo {
    open spec fn wire_tree(self) -> Option<SpecJson> {
        Some(SpecJson::Obj(self.members_spec()))
    }

    open spec fn accepts(t: SpecJson) -> bool {
        tag_of(t) is Some && Self::fields_ok(t)
    }

    open spec fn err_of(t: SpecJson) -> SpecDecodeError {
        match tag_of(t) {
            None => SpecDecodeError::Malformed,
            Some(_) => SpecDecodeError::FieldShapeMismatch(Self::tag_spec(), Self::fail_field(t)),
        }
    }

    open spec fn decodes_from(t: SpecJson, v: Self) -> bool {
        &&& m_opt_str(t, "@extra"@, v.extra)
        &&& m_str(t, "country_code"@, v.country_code@)
        &&& m_str(t, "name"@, v.name@)
        &&& m_str(t, "english_name"@, v.english_name@)
        &&& m_bool(t, "is_hidden"@, v.is_hidden)
        &&& m_vec_str(t, "calling_codes"@, v.calling_codes)
    }

    open spec fn eqv(self, other: Self) -> bool {
        &&& eqv_opt_string(self.extra, other.extra)
        &&& self.country_code@ == other.country_code@
        &&& self.name@ == other.name@
        &&& self.english_name@ == other.english_name@
        &&& self.is_hidden == other.is_hidden
        &&& eqv_vec_string(self.calling_codes, other.calling_codes)
    }

    fn clone_val(&self) -> (r: Self) {
        self.clone()
    }

    fn decode_tree(t: &JsonValue) -> (r: Result<Self, DecodeError>) {
        if get_tag(t).is_none() {
            return Err(DecodeError::Malformed);
        }
        let extra = match field_opt_string(t, "@extra") {
            Some(x) => x,
            None => {
                return Err(DecodeError::FieldShapeMismatch(
                    String::from_str("countryInfo"),
                    String::from_str("@extra"),
                ));
            },
        };
        let country_code = match field_string(t, "country_code") {
            Some(x) => x,
            None => {
                return Err(DecodeError::FieldShapeMismatch(
                    String::from_str("countryInfo"),
                    String::from_str("country_code"),
                ));
            },
        };
        let name = match field_string(t, "name") {
            Some(x) => x,
            None => {
                return Err(DecodeError::FieldShapeMismatch(
                    String::from_str("countryInfo"),
                    String::from_str("name"),
                ));
            },
        };
        let english_name = match field_string(t, "english_name") {
            Some(x) => x,
            None => {
                return Err(DecodeError::FieldShapeMismatch(
                    String::from_str("countryInfo"),
                    String::from_str("english_name"),
                ));
            },
        };
        let is_hidden = match field_bool(t, "is_hidden") {
            Some(x) => x,
            None => {
                return Err(DecodeError::FieldShapeMismatch(
                    String::from_str("countryInfo"),
                    String::from_str("is_hidden"),
                ));
            },
        };
        let calling_codes = match get_field(t, "calling_codes") {
            Some(JsonValue::Arr(arr)) => match decode_vec_string(arr) {
                Some(x) => x,
                None => {
                    return Err(DecodeError::FieldShapeMismatch(
                    String::from_str("countryInfo"),
                    String::from_str("calling_codes"),
                ));
                },
            },
            _ => {
                return Err(DecodeError::FieldShapeMismatch(
                    String::from_str("countryInfo"),
                    String::from_str("calling_codes"),
                ));
            },
        };
        Ok(CountryInfo { extra, country_code, name, english_name, is_hidden, calling_codes })
    }

    fn encode_tree(&self) -> (r: Result<JsonValue, EncodeError>) {
        let mut members: Vec<JsonMember> = Vec::new();
        proof {
            assert(view_members(members@) =~= Seq::<(Seq<char>, SpecJson)>::empty());
        }
        push_member(&mut members, "@type", JsonValue::Str(String::from_str("countryInfo")));
        push_member(&mut members, "@extra", opt_string_tree(&self.extra));
        push_member(&mut members, "country_code", JsonValue::Str(self.country_code.clone()));
        push_member(&mut members, "name", JsonValue::Str(self.name.clone()));
        push_member(&mut members, "english_name", JsonValue::Str(self.english_name.clone()));
        push_member(&mut members, "is_hidden", JsonValue::Bool(self.is_hidden));
        push_member(&mut members, "calling_codes", JsonValue::Arr(encode_vec_string(&self.calling_codes)));
        let node = JsonValue::Obj(members);
        proof {
            assert(view_members(members@) =~= self.members_spec());
            assert(node@ == self.wire_tree()->0);
        }
        Ok(node)
    }

    proof fn lemma_wire_wf(v: Self) {
        if v.wire_tree() is Some {
            let t = v.wire_tree()->0;
            let ms = t->Obj_0;
            assert(ms == v.members_spec());
            assert forall|i: int| 0 <= i < ms.len() implies wf(#[trigger] ms[i].1) by {
                assert(forall|k: int| 0 <= k < vec_str_trees(v.calling_codes@).len() ==> wf(
                #[trigger] vec_str_trees(v.calling_codes@)[k]));
            }
        }
    }

    proof fn lemma_round_trip(v: Self) {
        if v.wire_tree() is Some {
            let t = v.wire_tree()->0;
            let ms = t->Obj_0;
            assert(ms == v.members_spec());
            reveal_strlit("@type");
            reveal_strlit("@extra");
            reveal_strlit("country_code");
            reveal_strlit("name");
            reveal_strlit("english_name");
            reveal_strlit("is_hidden");
            reveal_strlit("calling_codes");
            assert("@type"@.len() == 5);
            assert("@extra"@.len() == 6);
            assert("country_code"@.len() == 12);
            assert("name"@.len() == 4);
            assert("english_name"@.len() == 12);
            assert("is_hidden"@.len() == 9);
            assert("calling_codes"@.len() == 13);
            assert("country_code"@[0] == 'c' && "english_name"@[0] == 'e');
            reveal_with_fuel(get_spec, 9);
            lemma_get_spec_found(ms, "@type"@, 0);
            lemma_get_spec_found(ms, "@extra"@, 1);
            lemma_get_spec_found(ms, "country_code"@, 2);
            lemma_get_spec_found(ms, "name"@, 3);
            lemma_get_spec_found(ms, "english_name"@, 4);
            lemma_get_spec_found(ms, "is_hidden"@, 5);
            lemma_get_spec_found(ms, "calling_codes"@, 6);
            assert(tag_of(t) == Some(Self::tag_spec()));
            assert(ok_opt_str(t, "@extra"@));
            assert(ok_str(t, "country_code"@));
            assert(ok_str(t, "name"@));
            assert(ok_str(t, "english_name"@));
            assert(ok_bool(t, "is_hidden"@));
            assert(ok_vec_str(t, "calling_codes"@)) by {
                assert(forall|k: int| 0 <= k < vec_str_trees(v.calling_codes@).len() ==> (
                #[trigger] vec_str_trees(v.calling_codes@)[k]) is Str);
            }
            assert(Self::accepts(t));
            assert forall|w: Self| Self::decodes_from(t, w) implies #[trigger] w.eqv(v) by {
                assert(w.calling_codes@.len() == vec_str_trees(v.calling_codes@).len());
                assert forall|k: int| 0 <= k < w.calling_codes@.len() implies w.calling_codes@[k]@
                    == v.calling_codes@[k]@ by {
                    assert(vec_str_trees(v.calling_codes@)[k] == SpecJson::Str(v.calling_codes@[k]@));
                    assert(vec_str_trees(v.calling_codes@)[k] matches SpecJson::Str(s) && w.calling_codes@[k]@ == s);
                }
                assert(eqv_vec_string(w.calling_codes, v.calling_codes));
            }
        }
    }
}

impl RObject for CountryInfo {
    open spec fn tag_chars(&self) -> Seq<char> {
        Self::tag_spec()
    }

    open spec fn extra_spec(&self) -> Option<Seq<char>> {
        opt_str_view(self.extra)
    }

    fn td_name(&self) -> (r: &'static str) {
        "countryInfo"
    }

    fn extra(&self) -> (r: Option<String>) {
        clone_opt_string(&self.extra)
    }

    fn to_json(&self) -> (r: Result<String, EncodeError>) {
        crate::object::encode(self)
    }
}

impl CountryInfo {
    pub fn from_json(json: &str) -> (r: Result<CountryInfo, DecodeError>)
        ensures
            match crate::parse::parse_doc(json@) {
                Some(t) => match r {
                    Ok(v) => Self::accepts(t) && Self::decodes_from(t, v),
                    Err(e) => !Self::accepts(t) && crate::errors::err_matches(e, Self::err_of(t)),
                },
                None => r matches Err(e) && e == DecodeError::Malformed,
            },
    {
        crate::object::from_json::<CountryInfo>(json)
    }

    pub fn builder() -> (r: RTDCountryInfoBuilder)
        ensures
            r.inner.extra is Some,
            r.inner.country_code@ == Seq::<char>::empty(),
            r.inner.name@ == Seq::<char>::empty(),
            r.inner.english_name@ == Seq::<char>::empty(),
            r.inner.is_hidden == false,
            r.inner.calling_codes@.len() == 0,
    {
        RTDCountryInfoBuilder {
            inner: CountryInfo {
                extra: Some(new_token()),
                country_code: String::new(),
                name: String::new(),
                english_name: String::new(),
                is_hidden: false,
                calling_codes: Vec::new(),
            },
        }
    }

    pub fn country_code(&self) -> (r: &String)
        ensures
            *r == self.country_code,
    {
        &self.country_code
    }

    pub fn name(&self) -> (r: &String)
        ensures
            *r == self.name,
    {
        &self.name
    }

    pub fn english_name(&self) -> (r: &String)
        ensures
            *r == self.english_name,
    {
        &self.english_name
    }

    pub fn is_hidden(&self) -> (r: bool)
        ensures
            r == self.is_hidden,
    {
        self.is_hidden
    }

    pub fn calling_codes(&self) -> (r: &Vec<String>)
        ensures
            *r == self.calling_codes,
    {
        &self.calling_codes
    }
}

pub struct RTDCountryInfoBuilder {
    pub inner: CountryInfo,
}

impl RTDCountryInfoBuilder {
    pub fn build(&self) -> (r: CountryInfo)
        ensures
            r.eqv(self.inner),
    {
        self.inner.clone()
    }

    pub fn country_code(&mut self, country_code: String) -> (r: &mut Self)
        ensures
            *r == (RTDCountryInfoBuilder { inner: CountryInfo { country_code: country_code, ..old(self).inner } }),
            *final(self) == *final(r),
    {
        self.inner.country_code = country_code;
        self
    }

    pub fn name(&mut self, name: String) -> (r: &mut Self)
        ensures
            *r == (RTDCountryInfoBuilder { inner: CountryInfo { name: name, ..old(self).inner } }),
            *final(self) == *final(r),
    {
        self.inner.name = name;
        self
    }

    pub fn english_name(&mut self, english_name: String) -> (r: &mut Self)
        ensures
            *r == (RTDCountryInfoBuilder { inner: CountryInfo { english_name: english_name, ..old(self).inner } }),
            *final(self) == *final(r),
    {
        self.inner.english_name = english_name;
        self
    }

    pub fn is_hidden(&mut self, is_hidden: bool) -> (r: &mut Self)
        ensures
            *r == (RTDCountryInfoBuilder { inner: CountryInfo { is_hidden: is_hidden, ..old(self).inner } }),
            *final(self) == *final(r),
    {
        self.inner.is_hidden = is_hidden;
        self
    }

    pub fn calling_codes(&mut self, calling_codes: Vec<String>) -> (r: &mut Self)
        ensures
            *r == (RTDCountryInfoBuilder { inner: CountryInfo { calling_codes: calling_codes, ..old(self).inner } }),
            *final(self) == *final(r),
    {
        self.inner.calling_codes = calling_codes;
        self
    }
}
} // verus!
