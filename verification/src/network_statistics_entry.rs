use vstd::prelude::*;

use crate::errors::DecodeError;
use crate::errors::EncodeError;
use crate::errors::SpecDecodeError;
use crate::json::JsonMember;
use crate::json::JsonValue;
use crate::json::SpecJson;
use crate::json::i64_lex;
use crate::json::view_members;
use crate::json::wf;
use crate::object::RObject;
use crate::object::Wire;
use crate::object::clone_opt_string;
use crate::object::eqv_opt_string;
use crate::object::field_i64;
use crate::object::field_opt_string;
use crate::object::get_spec;
use crate::object::get_tag;
use crate::object::i64_lexeme;
use crate::object::lemma_get_spec_found;
use crate::object::m_i64;
use crate::object::m_opt_str;
use crate::object::new_token;
use crate::object::ok_i64;
use crate::object::ok_opt_str;
use crate::object::opt_str_tree;
use crate::object::opt_str_view;
use crate::object::opt_string_tree;
use crate::object::push_member;
use crate::object::str_eq;
use crate::object::tag_of;

verus! {

/// Contains statistics about network usage
pub trait TDNetworkStatisticsEntry: RObject {

}

/// Contains statistics about network usage
#[derive(Debug, PartialEq)]
pub enum NetworkStatisticsEntry {
    _Default(()),
    /// Contains information about the total amount of data that was used for calls
    Call(NetworkStatisticsEntryCall),
    /// Contains information about the total amount of data that was used to send and receive files
    File(NetworkStatisticsEntryFile),
}

impl Clone for NetworkStatisticsEntry {
    fn clone(&self) -> (res: Self)
        ensures
            res.eqv(*self),
    {
        match self {
            NetworkStatisticsEntry::_Default(_) => NetworkStatisticsEntry::_Default(()),
            NetworkStatisticsEntry::Call(x) => NetworkStatisticsEntry::Call(x.clone()),
            NetworkStatisticsEntry::File(x) => NetworkStatisticsEntry::File(x.clone()),
        }
    }
}

impl NetworkStatisticsEntry {
    /// The tags of this variant's alternatives are pairwise distinct.
    pub proof fn lemma_tags_distinct()
        ensures
            "networkStatisticsEntryCall"@ != "networkStatisticsEntryFile"@,
    {
        reveal_strlit("networkStatisticsEntryCall");
        reveal_strlit("networkStatisticsEntryFile");
        assert("networkStatisticsEntryCall"@.len() == 26);
        assert("networkStatisticsEntryFile"@.len() == 26);
        assert("networkStatisticsEntryCall"@[22] == 'C' && "networkStatisticsEntryFile"@[22] == 'F');
    }
}

impl Wire for NetworkStatisticsEntry {
    open spec fn wire_tree(self) -> Option<SpecJson> {
        match self {
            NetworkStatisticsEntry::_Default(_) => None,
            NetworkStatisticsEntry::Call(x) => x.wire_tree(),
            NetworkStatisticsEntry::File(x) => x.wire_tree(),
        }
    }

    open spec fn accepts(t: SpecJson) -> bool {
        match tag_of(t) {
            None => false,
            Some(g) => {
                if g == NetworkStatisticsEntryCall::tag_spec() {
                    NetworkStatisticsEntryCall::accepts(t)
                } else if g == NetworkStatisticsEntryFile::tag_spec() {
                    NetworkStatisticsEntryFile::accepts(t)
                } else {
                    false
                }
            },
        }
    }

    open spec fn err_of(t: SpecJson) -> SpecDecodeError {
        match tag_of(t) {
            None => SpecDecodeError::Malformed,
            Some(g) => {
                if g == NetworkStatisticsEntryCall::tag_spec() {
                    NetworkStatisticsEntryCall::err_of(t)
                } else if g == NetworkStatisticsEntryFile::tag_spec() {
                    NetworkStatisticsEntryFile::err_of(t)
                } else {
                    SpecDecodeError::UnrecognizedVariant(g)
                }
            },
        }
    }

    open spec fn decodes_from(t: SpecJson, v: Self) -> bool {
        match tag_of(t) {
            None => false,
            Some(g) => {
                if g == NetworkStatisticsEntryCall::tag_spec() {
                    v matches NetworkStatisticsEntry::Call(x) && NetworkStatisticsEntryCall::decodes_from(t, x)
                } else if g == NetworkStatisticsEntryFile::tag_spec() {
                    v matches NetworkStatisticsEntry::File(x) && NetworkStatisticsEntryFile::decodes_from(t, x)
                } else {
                    false
                }
            },
        }
    }

    open spec fn eqv(self, other: Self) -> bool {
        match (self, other) {
            (NetworkStatisticsEntry::_Default(_), NetworkStatisticsEntry::_Default(_)) => true,
            (NetworkStatisticsEntry::Call(a), NetworkStatisticsEntry::Call(b)) => a.eqv(b),
            (NetworkStatisticsEntry::File(a), NetworkStatisticsEntry::File(b)) => a.eqv(b),
            _ => false,
        }
    }

    fn clone_val(&self) -> (r: Self) {
        self.clone()
    }

    fn decode_tree(t: &JsonValue) -> (r: Result<Self, DecodeError>) {
        let g = match get_tag(t) {
            Some(g) => g,
            None => {
                return Err(DecodeError::Malformed);
            },
        };
        if str_eq(g.as_str(), "networkStatisticsEntryCall") {
            match NetworkStatisticsEntryCall::decode_tree(t) {
                Ok(x) => Ok(NetworkStatisticsEntry::Call(x)),
                Err(e) => Err(e),
            }
        } else if str_eq(g.as_str(), "networkStatisticsEntryFile") {
            match NetworkStatisticsEntryFile::decode_tree(t) {
                Ok(x) => Ok(NetworkStatisticsEntry::File(x)),
                Err(e) => Err(e),
            }
        } else {
            Err(DecodeError::UnrecognizedVariant(g))
        }
    }

    fn encode_tree(&self) -> (r: Result<JsonValue, EncodeError>) {
        match self {
            NetworkStatisticsEntry::_Default(_) => Err(EncodeError::Unrepresentable),
            NetworkStatisticsEntry::Call(x) => x.encode_tree(),
            NetworkStatisticsEntry::File(x) => x.encode_tree(),
        }
    }

    proof fn lemma_wire_wf(v: Self) {
        match v {
            NetworkStatisticsEntry::_Default(_) => {},
            NetworkStatisticsEntry::Call(x) => {
                NetworkStatisticsEntryCall::lemma_wire_wf(x);
            },
            NetworkStatisticsEntry::File(x) => {
                NetworkStatisticsEntryFile::lemma_wire_wf(x);
            },
        }
    }

    proof fn lemma_round_trip(v: Self) {
        Self::lemma_tags_distinct();
        match v {
            NetworkStatisticsEntry::_Default(_) => {},
            NetworkStatisticsEntry::Call(x) => {
                if x.wire_tree() is Some {
                    let t = x.wire_tree()->0;
                    NetworkStatisticsEntryCall::lemma_wire_tag(x);
                    NetworkStatisticsEntryCall::lemma_round_trip(x);
                    assert(Self::accepts(t));
                    assert forall|w: Self| Self::decodes_from(t, w) implies #[trigger] w.eqv(v) by {
                        assert(w matches NetworkStatisticsEntry::Call(xi) && NetworkStatisticsEntryCall::decodes_from(t, xi));
                    }
                }
            },
            NetworkStatisticsEntry::File(x) => {
                if x.wire_tree() is Some {
                    let t = x.wire_tree()->0;
                    NetworkStatisticsEntryFile::lemma_wire_tag(x);
                    NetworkStatisticsEntryFile::lemma_round_trip(x);
                    assert(Self::accepts(t));
                    assert forall|w: Self| Self::decodes_from(t, w) implies #[trigger] w.eqv(v) by {
                        assert(w matches NetworkStatisticsEntry::File(xi) && NetworkStatisticsEntryFile::decodes_from(t, xi));
                    }
                }
            },
        }
    }
}

impl RObject for NetworkStatisticsEntry {
    open spec fn tag_chars(&self) -> Seq<char> {
        match self {
            NetworkStatisticsEntry::_Default(_) => "-1"@,
            NetworkStatisticsEntry::Call(x) => NetworkStatisticsEntryCall::tag_spec(),
            NetworkStatisticsEntry::File(x) => NetworkStatisticsEntryFile::tag_spec(),
        }
    }

    open spec fn extra_spec(&self) -> Option<Seq<char>> {
        match self {
            NetworkStatisticsEntry::_Default(_) => None,
            NetworkStatisticsEntry::Call(x) => opt_str_view(x.extra),
            NetworkStatisticsEntry::File(x) => opt_str_view(x.extra),
    }
    }

    fn td_name(&self) -> (r: &'static str) {
        match self {
            NetworkStatisticsEntry::_Default(_) => "-1",
            NetworkStatisticsEntry::Call(x) => x.td_name(),
            NetworkStatisticsEntry::File(x) => x.td_name(),
        }
    }

    fn extra(&self) -> (r: Option<String>) {
        match self {
            NetworkStatisticsEntry::_Default(_) => None,
            NetworkStatisticsEntry::Call(x) => clone_opt_string(&x.extra),
            NetworkStatisticsEntry::File(x) => clone_opt_string(&x.extra),
        }
    }

    fn to_json(&self) -> (r: Result<String, EncodeError>) {
        crate::object::encode(self)
    }
}

impl NetworkStatisticsEntry {
    pub fn from_json(json: &str) -> (r: Result<NetworkStatisticsEntry, DecodeError>)
        ensures
            match crate::parse::parse_doc(json@) {
                Some(t) => match r {
                    Ok(v) => Self::accepts(t) && Self::decodes_from(t, v),
                    Err(e) => !Self::accepts(t) && crate::errors::err_matches(e, Self::err_of(t)),
                },
                None => r matches Err(e) && e == DecodeError::Malformed,
            },
    {
        crate::object::from_json::<NetworkStatisticsEntry>(json)
    }

    pub fn _is_default(&self) -> (r: bool)
        ensures
            r == (self is _Default),
    {
        match self {
            NetworkStatisticsEntry::_Default(_) => true,
            _ => false,
        }
    }

    pub fn is_call(&self) -> (r: bool)
        ensures
            r == (self is Call),
    {
        match self {
            NetworkStatisticsEntry::Call(_) => true,
            _ => false,
        }
    }

    pub fn is_file(&self) -> (r: bool)
        ensures
            r == (self is File),
    {
        match self {
            NetworkStatisticsEntry::File(_) => true,
            _ => false,
        }
    }

    pub fn as_call(&self) -> (r: Option<&NetworkStatisticsEntryCall>)
        ensures
            (self is Call) == (r is Some),
            r matches Some(x) ==> *x == self->Call_0,
    {
        match self {
            NetworkStatisticsEntry::Call(x) => Some(x),
            _ => None,
        }
    }

    pub fn as_file(&self) -> (r: Option<&NetworkStatisticsEntryFile>)
        ensures
            (self is File) == (r is Some),
            r matches Some(x) ==> *x == self->File_0,
    {
        match self {
            NetworkStatisticsEntry::File(x) => Some(x),
            _ => None,
        }
    }

    pub fn call(t: &NetworkStatisticsEntryCall) -> (r: Self)
        ensures
            r matches NetworkStatisticsEntry::Call(x) && x.eqv(*t),
    {
        NetworkStatisticsEntry::Call(t.clone())
    }

    pub fn file(t: &NetworkStatisticsEntryFile) -> (r: Self)
        ensures
            r matches NetworkStatisticsEntry::File(x) && x.eqv(*t),
    {
        NetworkStatisticsEntry::File(t.clone())
    }
}
/// Contains information about the total amount of data that was used for calls
#[derive(Debug, PartialEq)]
pub struct NetworkStatisticsEntryCall {
    pub extra: Option<String>,
    /// Total number of bytes sent
    pub sent_bytes: i64,
    /// Total number of bytes received
    pub received_bytes: i64,
}

impl NetworkStatisticsEntryCall {
    pub open spec fn tag_spec() -> Seq<char> {
        "networkStatisticsEntryCall"@
    }

    /// The members of the wire object, in the order they are written.
    pub open spec fn members_spec(self) -> Seq<(Seq<char>, SpecJson)> {
        seq![
            ("@type"@, SpecJson::Str(Self::tag_spec())),
            ("@extra"@, opt_str_tree(opt_str_view(self.extra))),
            ("sent_bytes"@, SpecJson::Num(i64_lex(self.sent_bytes as int))),
            ("received_bytes"@, SpecJson::Num(i64_lex(self.received_bytes as int))),
        ]
    }

    pub open spec fn fields_ok(t: SpecJson) -> bool {
        &&& ok_opt_str(t, "@extra"@)
        &&& ok_i64(t, "sent_bytes"@)
        &&& ok_i64(t, "received_bytes"@)
    }

    pub open spec fn fail_field(t: SpecJson) -> Seq<char> {
        if !ok_opt_str(t, "@extra"@) {
            "@extra"@
        } else if !(ok_i64(t, "sent_bytes"@)) {
            "sent_bytes"@
        } else if !(ok_i64(t, "received_bytes"@)) {
            "received_bytes"@
        } else {
            Seq::empty()
        }
    }

    /// The encoding of a value carries exactly this type's tag.
    pub proof fn lemma_wire_tag(v: NetworkStatisticsEntryCall)
        ensures
            v.wire_tree() matches Some(t) ==> tag_of(t) == Some(NetworkStatisticsEntryCall::tag_spec()),
    {
        if v.wire_tree() is Some {
            let t = v.wire_tree()->0;
            let ms = t->Obj_0;
            lemma_get_spec_found(ms, "@type"@, 0);
        }
    }
}

impl Clone for NetworkStatisticsEntryCall {
    fn clone(&self) -> (res: Self)
        ensures
            res.eqv(*self),
    {
        NetworkStatisticsEntryCall {
            extra: clone_opt_string(&self.extra),
            sent_bytes: self.sent_bytes,
            received_bytes: self.received_bytes,
        }
    }
}

impl Wire for NetworkStatisticsEntryCall {
    open spec fn wire_tree(self) -> Option<SpecJson> {
        Some(SpecJson::Obj(self.members_spec()))
    }

    open spec fn accepts(t: SpecJson) -> bool {
        tag_of(t) is Some && Self::fields_ok(t)
    }

    open spec fn err_of(t: SpecJson) -> SpecDecodeError {
        match tag_of(t) {
            None => SpecDecodeError::Malformed,
            Some(_) => SpecDecodeError::FieldShapeMismatch(Self::tag_spec(), Self::fail_field(t)),
        }
    }

    open spec fn decodes_from(t: SpecJson, v: Self) -> bool {
        &&& m_opt_str(t, "@extra"@, v.extra)
        &&& m_i64(t, "sent_bytes"@, v.sent_bytes)
        &&& m_i64(t, "received_bytes"@, v.received_bytes)
    }

    open spec fn eqv(self, other: Self) -> bool {
        &&& eqv_opt_string(self.extra, other.extra)
        &&& self.sent_bytes == other.sent_bytes
        &&& self.received_bytes == other.received_bytes
    }

    fn clone_val(&self) -> (r: Self) {
        self.clone()
    }

    fn decode_tree(t: &JsonValue) -> (r: Result<Self, DecodeError>) {
        if get_tag(t).is_none() {
            return Err(DecodeError::Malformed);
        }
        let extra = match field_opt_string(t, "@extra") {
            Some(x) => x,
            None => {
                return Err(DecodeError::FieldShapeMismatch(
                    String::from_str("networkStatisticsEntryCall"),
                    String::from_str("@extra"),
                ));
            },
        };
        let sent_bytes = match field_i64(t, "sent_bytes") {
            Some(x) => x,
            None => {
                return Err(DecodeError::FieldShapeMismatch(
                    String::from_str("networkStatisticsEntryCall"),
                    String::from_str("sent_bytes"),
                ));
            },
        };
        let received_bytes = match field_i64(t, "received_bytes") {
            Some(x) => x,
            None => {
                return Err(DecodeError::FieldShapeMismatch(
                    String::from_str("networkStatisticsEntryCall"),
                    String::from_str("received_bytes"),
                ));
            },
        };
        Ok(NetworkStatisticsEntryCall { extra, sent_bytes, received_bytes })
    }

    fn encode_tree(&self) -> (r: Result<JsonValue, EncodeError>) {
        let mut members: Vec<JsonMember> = Vec::new();
        proof {
            assert(view_members(members@) =~= Seq::<(Seq<char>, SpecJson)>::empty());
        }
        push_member(&mut members, "@type", JsonValue::Str(String::from_str("networkStatisticsEntryCall")));
        push_member(&mut members, "@extra", opt_string_tree(&self.extra));
        push_member(&mut members, "sent_bytes", JsonValue::Num(i64_lexeme(self.sent_bytes)));
        push_member(&mut members, "received_bytes", JsonValue::Num(i64_lexeme(self.received_bytes)));
        let node = JsonValue::Obj(members);
        proof {
            assert(view_members(members@) =~= self.members_spec());
            assert(node@ == self.wire_tree()->0);
        }
        Ok(node)
    }

    proof fn lemma_wire_wf(v: Self) {
        if v.wire_tree() is Some {
            let t = v.wire_tree()->0;
            let ms = t->Obj_0;
            assert(ms == v.members_spec());
            crate::json::lemma_i64_lex(v.sent_bytes);
            crate::json::lemma_i64_lex(v.received_bytes);
            assert forall|i: int| 0 <= i < ms.len() implies wf(#[trigger] ms[i].1) by {
            }
        }
    }

    proof fn lemma_round_trip(v: Self) {
        if v.wire_tree() is Some {
            let t = v.wire_tree()->0;
            let ms = t->Obj_0;
            assert(ms == v.members_spec());
            reveal_strlit("@type");
            reveal_strlit("@extra");
            reveal_strlit("sent_bytes");
            reveal_strlit("received_bytes");
            assert("@type"@.len() == 5);
            assert("@extra"@.len() == 6);
            assert("sent_bytes"@.len() == 10);
            assert("received_bytes"@.len() == 14);
            reveal_with_fuel(get_spec, 6);
            lemma_get_spec_found(ms, "@type"@, 0);
            lemma_get_spec_found(ms, "@extra"@, 1);
            lemma_get_spec_found(ms, "sent_bytes"@, 2);
            lemma_get_spec_found(ms, "received_bytes"@, 3);
            assert(tag_of(t) == Some(Self::tag_spec()));
            assert(ok_opt_str(t, "@extra"@));
            crate::json::lemma_i64_lex(v.sent_bytes);
            assert(ok_i64(t, "sent_bytes"@));
            crate::json::lemma_i64_lex(v.received_bytes);
            assert(ok_i64(t, "received_bytes"@));
            assert(Self::accepts(t));
            assert forall|w: Self| Self::decodes_from(t, w) implies #[trigger] w.eqv(v) by {
            }
        }
    }
}

impl RObject for NetworkStatisticsEntryCall {
    open spec fn tag_chars(&self) -> Seq<char> {
        Self::tag_spec()
    }

    open spec fn extra_spec(&self) -> Option<Seq<char>> {
        opt_str_view(self.extra)
    }

    fn td_name(&self) -> (r: &'static str) {
        "networkStatisticsEntryCall"
    }

    fn extra(&self) -> (r: Option<String>) {
        clone_opt_string(&self.extra)
    }

    fn to_json(&self) -> (r: Result<String, EncodeError>) {
        crate::object::encode(self)
    }
}

impl TDNetworkStatisticsEntry for NetworkStatisticsEntryCall {

}

impl NetworkStatisticsEntryCall {
    pub fn from_json(json: &str) -> (r: Result<NetworkStatisticsEntryCall, DecodeError>)
        ensures
            match crate::parse::parse_doc(json@) {
                Some(t) => match r {
                    Ok(v) => Self::accepts(t) && Self::decodes_from(t, v),
                    Err(e) => !Self::accepts(t) && crate::errors::err_matches(e, Self::err_of(t)),
                },
                None => r matches Err(e) && e == DecodeError::Malformed,
            },
    {
        crate::object::from_json::<NetworkStatisticsEntryCall>(json)
    }

    pub fn builder() -> (r: RTDNetworkStatisticsEntryCallBuilder)
        ensures
            r.inner.extra is Some,
            r.inner.sent_bytes == 0,
            r.inner.received_bytes == 0,
    {
        RTDNetworkStatisticsEntryCallBuilder {
            inner: NetworkStatisticsEntryCall {
                extra: Some(new_token()),
                sent_bytes: 0,
                received_bytes: 0,
            },
        }
    }

    pub fn sent_bytes(&self) -> (r: i64)
        ensures
            r == self.sent_bytes,
    {
        self.sent_bytes
    }

    pub fn received_bytes(&self) -> (r: i64)
        ensures
            r == self.received_bytes,
    {
        self.received_bytes
    }
}

pub struct RTDNetworkStatisticsEntryCallBuilder {
    pub inner: NetworkStatisticsEntryCall,
}

impl RTDNetworkStatisticsEntryCallBuilder {
    pub fn build(&self) -> (r: NetworkStatisticsEntryCall)
        ensures
            r.eqv(self.inner),
    {
        self.inner.clone()
    }

    pub fn sent_bytes(&mut self, sent_bytes: i64) -> (r: &mut Self)
        ensures
            *r == (RTDNetworkStatisticsEntryCallBuilder { inner: NetworkStatisticsEntryCall { sent_bytes: sent_bytes, ..old(self).inner } }),
            *final(self) == *final(r),
    {
        self.inner.sent_bytes = sent_bytes;
        self
    }

    pub fn received_bytes(&mut self, received_bytes: i64) -> (r: &mut Self)
        ensures
            *r == (RTDNetworkStatisticsEntryCallBuilder { inner: NetworkStatisticsEntryCall { received_bytes: received_bytes, ..old(self).inner } }),
            *final(self) == *final(r),
    {
        self.inner.received_bytes = received_bytes;
        self
    }
}
/// Contains information about the total amount of data that was used to send and receive files
#[derive(Debug, PartialEq)]
pub struct NetworkStatisticsEntryFile {
    pub extra: Option<String>,
    /// Total number of bytes sent
    pub sent_bytes: i64,
    /// Total number of bytes received
    pub received_bytes: i64,
}

impl NetworkStatisticsEntryFile {
    pub open spec fn tag_spec() -> Seq<char> {
        "networkStatisticsEntryFile"@
    }

    /// The members of the wire object, in the order they are written.
    pub open spec fn members_spec(self) -> Seq<(Seq<char>, SpecJson)> {
        seq![
            ("@type"@, SpecJson::Str(Self::tag_spec())),
            ("@extra"@, opt_str_tree(opt_str_view(self.extra))),
            ("sent_bytes"@, SpecJson::Num(i64_lex(self.sent_bytes as int))),
            ("received_bytes"@, SpecJson::Num(i64_lex(self.received_bytes as int))),
        ]
    }

    pub open spec fn fields_ok(t: SpecJson) -> bool {
        &&& ok_opt_str(t, "@extra"@)
        &&& ok_i64(t, "sent_bytes"@)
        &&& ok_i64(t, "received_bytes"@)
    }

    pub open spec fn fail_field(t: SpecJson) -> Seq<char> {
        if !ok_opt_str(t, "@extra"@) {
            "@extra"@
        } else if !(ok_i64(t, "sent_bytes"@)) {
            "sent_bytes"@
        } else if !(ok_i64(t, "received_bytes"@)) {
            "received_bytes"@
        } else {
            Seq::empty()
        }
    }

    /// The encoding of a value carries exactly this type's tag.
    pub proof fn lemma_wire_tag(v: NetworkStatisticsEntryFile)
        ensures
            v.wire_tree() matches Some(t) ==> tag_of(t) == Some(NetworkStatisticsEntryFile::tag_spec()),
    {
        if v.wire_tree() is Some {
            let t = v.wire_tree()->0;
            let ms = t->Obj_0;
            lemma_get_spec_found(ms, "@type"@, 0);
        }
    }
}

impl Clone for NetworkStatisticsEntryFile {
    fn clone(&self) -> (res: Self)
        ensures
            res.eqv(*self),
    {
        NetworkStatisticsEntryFile {
            extra: clone_opt_string(&self.extra),
            sent_bytes: self.sent_bytes,
            received_bytes: self.received_bytes,
        }
    }
}

impl Wire for NetworkStatisticsEntryFile {
    open spec fn wire_tree(self) -> Option<SpecJson> {
        Some(SpecJson::Obj(self.members_spec()))
    }

    open spec fn accepts(t: SpecJson) -> bool {
        tag_of(t) is Some && Self::fields_ok(t)
    }

    open spec fn err_of(t: SpecJson) -> SpecDecodeError {
        match tag_of(t) {
            None => SpecDecodeError::Malformed,
            Some(_) => SpecDecodeError::FieldShapeMismatch(Self::tag_spec(), Self::fail_field(t)),
        }
    }

    open spec fn decodes_from(t: SpecJson, v: Self) -> bool {
        &&& m_opt_str(t, "@extra"@, v.extra)
        &&& m_i64(t, "sent_bytes"@, v.sent_bytes)
        &&& m_i64(t, "received_bytes"@, v.received_bytes)
    }

    open spec fn eqv(self, other: Self) -> bool {
        &&& eqv_opt_string(self.extra, other.extra)
        &&& self.sent_bytes == other.sent_bytes
        &&& self.received_bytes == other.received_bytes
    }

    fn clone_val(&self) -> (r: Self) {
        self.clone()
    }

    fn decode_tree(t: &JsonValue) -> (r: Result<Self, DecodeError>) {
        if get_tag(t).is_none() {
            return Err(DecodeError::Malformed);
        }
        let extra = match field_opt_string(t, "@extra") {
            Some(x) => x,
            None => {
                return Err(DecodeError::FieldShapeMismatch(
                    String::from_str("networkStatisticsEntryFile"),
                    String::from_str("@extra"),
                ));
            },
        };
        let sent_bytes = match field_i64(t, "sent_bytes") {
            Some(x) => x,
            None => {
                return Err(DecodeError::FieldShapeMismatch(
                    String::from_str("networkStatisticsEntryFile"),
                    String::from_str("sent_bytes"),
                ));
            },
        };
        let received_bytes = match field_i64(t, "received_bytes") {
            Some(x) => x,
            None => {
                return Err(DecodeError::FieldShapeMismatch(
                    String::from_str("networkStatisticsEntryFile"),
                    String::from_str("received_bytes"),
                ));
            },
        };
        Ok(NetworkStatisticsEntryFile { extra, sent_bytes, received_bytes })
    }

    fn encode_tree(&self) -> (r: Result<JsonValue, EncodeError>) {
        let mut members: Vec<JsonMember> = Vec::new();
        proof {
            assert(view_members(members@) =~= Seq::<(Seq<char>, SpecJson)>::empty());
        }
        push_member(&mut members, "@type", JsonValue::Str(String::from_str("networkStatisticsEntryFile")));
        push_member(&mut members, "@extra", opt_string_tree(&self.extra));
        push_member(&mut members, "sent_bytes", JsonValue::Num(i64_lexeme(self.sent_bytes)));
        push_member(&mut members, "received_bytes", JsonValue::Num(i64_lexeme(self.received_bytes)));
        let node = JsonValue::Obj(members);
        proof {
            assert(view_members(members@) =~= self.members_spec());
            assert(node@ == self.wire_tree()->0);
        }
        Ok(node)
    }

    proof fn lemma_wire_wf(v: Self) {
        if v.wire_tree() is Some {
            let t = v.wire_tree()->0;
            let ms = t->Obj_0;
            assert(ms == v.members_spec());
            crate::json::lemma_i64_lex(v.sent_bytes);
            crate::json::lemma_i64_lex(v.received_bytes);
            assert forall|i: int| 0 <= i < ms.len() implies wf(#[trigger] ms[i].1) by {
            }
        }
    }

    proof fn lemma_round_trip(v: Self) {
        if v.wire_tree() is Some {
            let t = v.wire_tree()->0;
            let ms = t->Obj_0;
            assert(ms == v.members_spec());
            reveal_strlit("@type");
            reveal_strlit("@extra");
            reveal_strlit("sent_bytes");
            reveal_strlit("received_bytes");
            assert("@type"@.len() == 5);
            assert("@extra"@.len() == 6);
            assert("sent_bytes"@.len() == 10);
            assert("received_bytes"@.len() == 14);
            reveal_with_fuel(get_spec, 6);
            lemma_get_spec_found(ms, "@type"@, 0);
            lemma_get_spec_found(ms, "@extra"@, 1);
            lemma_get_spec_found(ms, "sent_bytes"@, 2);
            lemma_get_spec_found(ms, "received_bytes"@, 3);
            assert(tag_of(t) == Some(Self::tag_spec()));
            assert(ok_opt_str(t, "@extra"@));
            crate::json::lemma_i64_lex(v.sent_bytes);
            assert(ok_i64(t, "sent_bytes"@));
            crate::json::lemma_i64_lex(v.received_bytes);
            assert(ok_i64(t, "received_bytes"@));
            assert(Self::accepts(t));
            assert forall|w: Self| Self::decodes_from(t, w) implies #[trigger] w.eqv(v) by {
            }
        }
    }
}

impl RObject for NetworkStatisticsEntryFile {
    open spec fn tag_chars(&self) -> Seq<char> {
        Self::tag_spec()
    }

    open spec fn extra_spec(&self) -> Option<Seq<char>> {
        opt_str_view(self.extra)
    }

    fn td_name(&self) -> (r: &'static str) {
        "networkStatisticsEntryFile"
    }

    fn extra(&self) -> (r: Option<String>) {
        clone_opt_string(&self.extra)
    }

    fn to_json(&self) -> (r: Result<String, EncodeError>) {
        crate::object::encode(self)
    }
}

impl TDNetworkStatisticsEntry for NetworkStatisticsEntryFile {

}

impl NetworkStatisticsEntryFile {
    pub fn from_json(json: &str) -> (r: Result<NetworkStatisticsEntryFile, DecodeError>)
        ensures
            match crate::parse::parse_doc(json@) {
                Some(t) => match r {
                    Ok(v) => Self::accepts(t) && Self::decodes_from(t, v),
                    Err(e) => !Self::accepts(t) && crate::errors::err_matches(e, Self::err_of(t)),
                },
                None => r matches Err(e) && e == DecodeError::Malformed,
            },
    {
        crate::object::from_json::<NetworkStatisticsEntryFile>(json)
    }

    pub fn builder() -> (r: RTDNetworkStatisticsEntryFileBuilder)
        ensures
            r.inner.extra is Some,
            r.inner.sent_bytes == 0,
            r.inner.received_bytes == 0,
    {
        RTDNetworkStatisticsEntryFileBuilder {
            inner: NetworkStatisticsEntryFile {
                extra: Some(new_token()),
                sent_bytes: 0,
                received_bytes: 0,
            },
        }
    }

    pub fn sent_bytes(&self) -> (r: i64)
        ensures
            r == self.sent_bytes,
    {
        self.sent_bytes
    }

    pub fn received_bytes(&self) -> (r: i64)
        ensures
            r == self.received_bytes,
    {
        self.received_bytes
    }
}

pub struct RTDNetworkStatisticsEntryFileBuilder {
    pub inner: NetworkStatisticsEntryFile,
}

impl RTDNetworkStatisticsEntryFileBuilder {
    pub fn build(&self) -> (r: NetworkStatisticsEntryFile)
        ensures
            r.eqv(self.inner),
    {
        self.inner.clone()
    }

    pub fn sent_bytes(&mut self, sent_bytes: i64) -> (r: &mut Self)
        ensures
            *r == (RTDNetworkStatisticsEntryFileBuilder { inner: NetworkStatisticsEntryFile { sent_bytes: sent_bytes, ..old(self).inner } }),
            *final(self) == *final(r),
    {
        self.inner.sent_bytes = sent_bytes;
        self
    }

    pub fn received_bytes(&mut self, received_bytes: i64) -> (r: &mut Self)
        ensures
            *r == (RTDNetworkStatisticsEntryFileBuilder { inner: NetworkStatisticsEntryFile { received_bytes: received_bytes, ..old(self).inner } }),
            *final(self) == *final(r),
    {
        self.inner.received_bytes = received_bytes;
        self
    }
}
} // verus!
