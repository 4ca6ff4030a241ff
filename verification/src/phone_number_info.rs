use vstd::prelude::*;

use crate::errors::DecodeError;
use crate::errors::EncodeError;
use crate::errors::SpecDecodeError;
use crate::json::JsonMember;
use crate::json::JsonValue;
use crate::json::SpecJson;
use crate::json::view_members;
use crate::json::wf;
use crate::object::RObject;
use crate::object::Wire;
use crate::object::clone_opt;
use crate::object::clone_opt_string;
use crate::object::eqv_opt;
use crate::object::eqv_opt_string;
use crate::object::field_opt_string;
use crate::object::field_string;
use crate::object::get_field;
use crate::object::get_spec;
use crate::object::get_tag;
use crate::object::lemma_get_spec_found;
use crate::object::m_opt_custom;
use crate::object::m_opt_str;
use crate::object::m_str;
use crate::object::new_token;
use crate::object::ok_opt_custom;
use crate::object::ok_opt_str;
use crate::object::ok_str;
use crate::object::opt_str_tree;
use crate::object::opt_str_view;
use crate::object::opt_string_tree;
use crate::object::opt_wire_val;
use crate::object::push_member;
use crate::object::tag_of;
use crate::country_info::CountryInfo;

verus! {

/// Contains information about a phone number
#[derive(Debug, PartialEq)]
pub struct PhoneNumberInfo {
    pub extra: Option<String>,
    /// Information about the country to which the phone number belongs; may be null
    pub country: Option<CountryInfo>,
    /// The part of the phone number denoting country calling code or its part
    pub country_calling_code: String,
    /// The phone number without country calling code formatted accordingly to local rules. Expected digits are returned as '-', but even more digits might be entered by the user
    pub formatted_phone_number: String,
}

impl PhoneNumberInfo {
    pub open spec fn tag_spec() -> Seq<char> {
        "phoneNumberInfo"@
    }

    /// The members of the wire object, in the order they are written.
    pub open spec fn members_spec(self) -> Seq<(Seq<char>, SpecJson)> {
        seq![
            ("@type"@, SpecJson::Str(Self::tag_spec())),
            ("@extra"@, opt_str_tree(opt_str_view(self.extra))),
            ("country"@, opt_wire_val(self.country)),
            ("country_calling_code"@, SpecJson::Str(self.country_calling_code@)),
            ("formatted_phone_number"@, SpecJson::Str(self.formatted_phone_number@)),
        ]
    }

    pub open spec fn fields_ok(t: SpecJson) -> bool {
        &&& ok_opt_str(t, "@extra"@)
        &&& ok_opt_custom::<CountryInfo>(t, "country"@)
        &&& ok_str(t, "country_calling_code"@)
        &&& ok_str(t, "formatted_phone_number"@)
    }

    pub open spec fn fail_field(t: SpecJson) -> Seq<char> {
        if !ok_opt_str(t, "@extra"@) {
            "@extra"@
        } else if !(ok_opt_custom::<CountryInfo>(t, "country"@)) {
            "country"@
        } else if !(ok_str(t, "country_calling_code"@)) {
            "country_calling_code"@
        } else if !(ok_str(t, "formatted_phone_number"@)) {
            "formatted_phone_number"@
        } else {
            Seq::empty()
        }
    }

    /// The encoding of a value carries exactly this type's tag.
    pub proof fn lemma_wire_tag(v: PhoneNumberInfo)
        ensures
            v.wire_tree() matches Some(t) ==> tag_of(t) == Some(PhoneNumberInfo::tag_spec()),
    {
        if v.wire_tree() is Some {
            let t = v.wire_tree()->0;
            let ms = t->Obj_0;
            lemma_get_spec_found(ms, "@type"@, 0);
        }
    }
}

impl Clone for PhoneNumberInfo {
    fn clone(&self) -> (res: Self)
        ensures
            res.eqv(*self),
    {
        PhoneNumberInfo {
            extra: clone_opt_string(&self.extra),
            country: clone_opt(&self.country),
            country_calling_code: self.country_calling_code.clone(),
            formatted_phone_number: self.formatted_phone_number.clone(),
        }
    }
}

impl Wire for PhoneNumberInfo {
    open spec fn wire_tree(self) -> Option<SpecJson> {
        if (match self.country { Some(x) => x.wire_tree() is None, None => false }) {
            None
        } else {
            Some(SpecJson::Obj(self.members_spec()))
        }
    }

    open spec fn accepts(t: SpecJson) -> bool {
        tag_of(t) is Some && Self::fields_ok(t)
    }

    open spec fn err_of(t: SpecJson) -> SpecDecodeError {
        match tag_of(t) {
            None => SpecDecodeError::Malformed,
            Some(_) => SpecDecodeError::FieldShapeMismatch(Self::tag_spec(), Self::fail_field(t)),
        }
    }

    open spec fn decodes_from(t: SpecJson, v: Self) -> bool {
        &&& m_opt_str(t, "@extra"@, v.extra)
        &&& m_opt_custom::<CountryInfo>(t, "country"@, v.country)
        &&& m_str(t, "country_calling_code"@, v.country_calling_code@)
        &&& m_str(t, "formatted_phone_number"@, v.formatted_phone_number@)
    }

    open spec fn eqv(self, other: Self) -> bool {
        &&& eqv_opt_string(self.extra, other.extra)
        &&& eqv_opt(self.country, other.country)
        &&& self.country_calling_code@ == other.country_calling_code@
        &&& self.formatted_phone_number@ == other.formatted_phone_number@
    }

    fn clone_val(&self) -> (r: Self) {
        self.clone()
    }

    fn decode_tree(t: &JsonValue) -> (r: Result<Self, DecodeError>) {
        if get_tag(t).is_none() {
            return Err(DecodeError::Malformed);
        }
        let extra = match field_opt_string(t, "@extra") {
            Some(x) => x,
            None => {
                return Err(DecodeError::FieldShapeMismatch(
                    String::from_str("phoneNumberInfo"),
                    String::from_str("@extra"),
                ));
            },
        };
        let country = match get_field(t, "country") {
            None => None,
            Some(JsonValue::Null) => None,
            Some(f) => match CountryInfo::decode_tree(f) {
                Ok(x) => Some(x),
                Err(_) => {
                    return Err(DecodeError::FieldShapeMismatch(
                    String::from_str("phoneNumberInfo"),
                    String::from_str("country"),
                ));
                },
            },
        };
        let country_calling_code = match field_string(t, "country_calling_code") {
            Some(x) => x,
            None => {
                return Err(DecodeError::FieldShapeMismatch(
                    String::from_str("phoneNumberInfo"),
                    String::from_str("country_calling_code"),
                ));
            },
        };
        let formatted_phone_number = match field_string(t, "formatted_phone_number") {
            Some(x) => x,
            None => {
                return Err(DecodeError::FieldShapeMismatch(
                    String::from_str("phoneNumberInfo"),
                    String::from_str("formatted_phone_number"),
                ));
            },
        };
        Ok(PhoneNumberInfo { extra, country, country_calling_code, formatted_phone_number })
    }

    fn encode_tree(&self) -> (r: Result<JsonValue, EncodeError>) {
        let t_country = match &self.country {
            None => JsonValue::Null,
            Some(x) => match x.encode_tree() {
                Ok(y) => y,
                Err(e) => {
                    return Err(e);
                },
            },
        };
        let mut members: Vec<JsonMember> = Vec::new();
        proof {
            assert(view_members(members@) =~= Seq::<(Seq<char>, SpecJson)>::empty());
        }
        push_member(&mut members, "@type", JsonValue::Str(String::from_str("phoneNumberInfo")));
        push_member(&mut members, "@extra", opt_string_tree(&self.extra));
        push_member(&mut members, "country", t_country);
        push_member(&mut members, "country_calling_code", JsonValue::Str(self.country_calling_code.clone()));
        push_member(&mut members, "formatted_phone_number", JsonValue::Str(self.formatted_phone_number.clone()));
        let node = JsonValue::Obj(members);
        proof {
            assert(view_members(members@) =~= self.members_spec());
            assert(node@ == self.wire_tree()->0);
        }
        Ok(node)
    }

    proof fn lemma_wire_wf(v: Self) {
        if v.wire_tree() is Some {
            let t = v.wire_tree()->0;
            let ms = t->Obj_0;
            assert(ms == v.members_spec());
            match v.country {
                Some(x) => {
                    CountryInfo::lemma_wire_wf(x);
                },
                None => {},
            }
            assert forall|i: int| 0 <= i < ms.len() implies wf(#[trigger] ms[i].1) by {
            }
        }
    }

    proof fn lemma_round_trip(v: Self) {
        if v.wire_tree() is Some {
            let t = v.wire_tree()->0;
            let ms = t->Obj_0;
            assert(ms == v.members_spec());
            reveal_strlit("@type");
            reveal_strlit("@extra");
            reveal_strlit("country");
            reveal_strlit("country_calling_code");
            reveal_strlit("formatted_phone_number");
            assert("@type"@.len() == 5);
            assert("@extra"@.len() == 6);
            assert("country"@.len() == 7);
            assert("country_calling_code"@.len() == 20);
            assert("formatted_phone_number"@.len() == 22);
            reveal_with_fuel(get_spec, 7);
            lemma_get_spec_found(ms, "@type"@, 0);
            lemma_get_spec_found(ms, "@extra"@, 1);
            lemma_get_spec_found(ms, "country"@, 2);
            lemma_get_spec_found(ms, "country_calling_code"@, 3);
            lemma_get_spec_found(ms, "formatted_phone_number"@, 4);
            assert(tag_of(t) == Some(Self::tag_spec()));
            assert(ok_opt_str(t, "@extra"@));
            match v.country {
                Some(x) => {
                    CountryInfo::lemma_round_trip(x);
                },
                None => {},
            }
            assert(ok_opt_custom::<CountryInfo>(t, "country"@));
            assert(ok_str(t, "country_calling_code"@));
            assert(ok_str(t, "formatted_phone_number"@));
            assert(Self::accepts(t));
            assert forall|w: Self| Self::decodes_from(t, w) implies #[trigger] w.eqv(v) by {
            }
        }
    }
}

impl RObject for PhoneNumberInfo {
    open spec fn tag_chars(&self) -> Seq<char> {
        Self::tag_spec()
    }

    open spec fn extra_spec(&self) -> Option<Seq<char>> {
        opt_str_view(self.extra)
    }

    fn td_name(&self) -> (r: &'static str) {
        "phoneNumberInfo"
    }

    fn extra(&self) -> (r: Option<String>) {
        clone_opt_string(&self.extra)
    }

    fn to_json(&self) -> (r: Result<String, EncodeError>) {
        crate::object::encode(self)
    }
}

impl PhoneNumberInfo {
    pub fn from_json(json: &str) -> (r: Result<PhoneNumberInfo, DecodeError>)
        ensures
            match crate::parse::parse_doc(json@) {
                Some(t) => match r {
                    Ok(v) => Self::accepts(t) && Self::decodes_from(t, v),
                    Err(e) => !Self::accepts(t) && crate::errors::err_matches(e, Self::err_of(t)),
                },
                None => r matches Err(e) && e == DecodeError::Malformed,
            },
    {
        crate::object::from_json::<PhoneNumberInfo>(json)
    }

    pub fn builder() -> (r: RTDPhoneNumberInfoBuilder)
        ensures
            r.inner.extra is Some,
            r.inner.country is None,
            r.inner.country_calling_code@ == Seq::<char>::empty(),
            r.inner.formatted_phone_number@ == Seq::<char>::empty(),
    {
        RTDPhoneNumberInfoBuilder {
            inner: PhoneNumberInfo {
                extra: Some(new_token()),
                country: None,
                country_calling_code: String::new(),
                formatted_phone_number: String::new(),
            },
        }
    }

    pub fn country(&self) -> (r: &Option<CountryInfo>)
        ensures
            *r == self.country,
    {
        &self.country
    }

    pub fn country_calling_code(&self) -> (r: &String)
        ensures
            *r == self.country_calling_code,
    {
        &self.country_calling_code
    }

    pub fn formatted_phone_number(&self) -> (r: &String)
        ensures
            *r == self.formatted_phone_number,
    {
        &self.formatted_phone_number
    }
}

pub struct RTDPhoneNumberInfoBuilder {
    pub inner: PhoneNumberInfo,
}

impl RTDPhoneNumberInfoBuilder {
    pub fn build(&self) -> (r: PhoneNumberInfo)
        ensures
            r.eqv(self.inner),
    {
        self.inner.clone()
    }

    pub fn country(&mut self, country: CountryInfo) -> (r: &mut Self)
        ensures
            *r == (RTDPhoneNumberInfoBuilder { inner: PhoneNumberInfo { country: Some(country), ..old(self).inner } }),
            *final(self) == *final(r),
    {
        self.inner.country = Some(country);
        self
    }

    pub fn country_calling_code(&mut self, country_calling_code: String) -> (r: &mut Self)
        ensures
            *r == (RTDPhoneNumberInfoBuilder { inner: PhoneNumberInfo { country_calling_code: country_calling_code, ..old(self).inner } }),
            *final(self) == *final(r),
    {
        self.inner.country_calling_code = country_calling_code;
        self
    }

    pub fn formatted_phone_number(&mut self, formatted_phone_number: String) -> (r: &mut Self)
        ensures
            *r == (RTDPhoneNumberInfoBuilder { inner: PhoneNumberInfo { formatted_phone_number: formatted_phone_number, ..old(self).inner } }),
            *final(self) == *final(r),
    {
        self.inner.formatted_phone_number = formatted_phone_number;
        self
    }
}
} // verus!
