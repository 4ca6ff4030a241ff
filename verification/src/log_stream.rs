use vstd::prelude::*;

use crate::errors::DecodeError;
use crate::errors::EncodeError;
use crate::errors::SpecDecodeError;
use crate::json::JsonMember;
use crate::json::JsonValue;
use crate::json::SpecJson;
use crate::json::i64_lex;
use crate::json::view_members;
use crate::json::wf;
use crate::object::RObject;
use crate::object::Wire;
use crate::object::clone_opt_string;
use crate::object::eqv_opt_string;
use crate::object::field_bool;
use crate::object::field_i64;
use crate::object::field_opt_string;
use crate::object::field_string;
use crate::object::get_spec;
use crate::object::get_tag;
use crate::object::i64_lexeme;
use crate::object::lemma_get_spec_found;
use crate::object::m_bool;
use crate::object::m_i64;
use crate::object::m_opt_str;
use crate::object::m_str;
use crate::object::new_token;
use crate::object::ok_bool;
use crate::object::ok_i64;
use crate::object::ok_opt_str;
use crate::object::ok_str;
use crate::object::opt_str_tree;
use crate::object::opt_str_view;
use crate::object::opt_string_tree;
use crate::object::push_member;
use crate::object::str_eq;
use crate::object::tag_of;

verus! {

/// Describes a stream to which TDLib internal log is written
pub trait TDLogStream: RObject {

}

/// Describes a stream to which TDLib internal log is written
#[derive(Debug, PartialEq)]
pub enum LogStream {
    _Default(()),
    /// The log is written to stderr or an OS specific log
    Default(LogStreamDefault),
    /// The log is written nowhere
    Empty(LogStreamEmpty),
    /// The log is written to a file
    File(LogStreamFile),
}

impl Clone for LogStream {
    fn clone(&self) -> (res: Self)
        ensures
            res.eqv(*self),
    {
        match self {
            LogStream::_Default(_) => LogStream::_Default(()),
            LogStream::Default(x) => LogStream::Default(x.clone()),
            LogStream::Empty(x) => LogStream::Empty(x.clone()),
            LogStream::File(x) => LogStream::File(x.clone()),
        }
    }
}

impl LogStream {
    /// The tags of this variant's alternatives are pairwise distinct.
    pub proof fn lemma_tags_distinct()
        ensures
            "logStreamDefault"@ != "logStreamEmpty"@,
            "logStreamDefault"@ != "logStreamFile"@,
            "logStreamEmpty"@ != "logStreamFile"@,
    {
        reveal_strlit("logStreamDefault");
        reveal_strlit("logStreamEmpty");
        reveal_strlit("logStreamFile");
        assert("logStreamDefault"@.len() == 16);
        assert("logStreamEmpty"@.len() == 14);
        assert("logStreamFile"@.len() == 13);
    }
}

impl Wire for LogStream {
    open spec fn wire_tree(self) -> Option<SpecJson> {
        match self {
            LogStream::_Default(_) => None,
            LogStream::Default(x) => x.wire_tree(),
            LogStream::Empty(x) => x.wire_tree(),
            LogStream::File(x) => x.wire_tree(),
        }
    }

    open spec fn accepts(t: SpecJson) -> bool {
        match tag_of(t) {
            None => false,
            Some(g) => {
                if g == LogStreamDefault::tag_spec() {
                    LogStreamDefault::accepts(t)
                } else if g == LogStreamEmpty::tag_spec() {
                    LogStreamEmpty::accepts(t)
                } else if g == LogStreamFile::tag_spec() {
                    LogStreamFile::accepts(t)
                } else {
                    false
                }
            },
        }
    }

    open spec fn err_of(t: SpecJson) -> SpecDecodeError {
        match tag_of(t) {
            None => SpecDecodeError::Malformed,
            Some(g) => {
                if g == LogStreamDefault::tag_spec() {
                    LogStreamDefault::err_of(t)
                } else if g == LogStreamEmpty::tag_spec() {
                    LogStreamEmpty::err_of(t)
                } else if g == LogStreamFile::tag_spec() {
                    LogStreamFile::err_of(t)
                } else {
                    SpecDecodeError::UnrecognizedVariant(g)
                }
            },
        }
    }

    open spec fn decodes_from(t: SpecJson, v: Self) -> bool {
        match tag_of(t) {
            None => false,
            Some(g) => {
                if g == LogStreamDefault::tag_spec() {
                    v matches LogStream::Default(x) && LogStreamDefault::decodes_from(t, x)
                } else if g == LogStreamEmpty::tag_spec() {
                    v matches LogStream::Empty(x) && LogStreamEmpty::decodes_from(t, x)
                } else if g == LogStreamFile::tag_spec() {
                    v matches LogStream::File(x) && LogStreamFile::decodes_from(t, x)
                } else {
                    false
                }
            },
        }
    }

    open spec fn eqv(self, other: Self) -> bool {
        match (self, other) {
            (LogStream::_Default(_), LogStream::_Default(_)) => true,
            (LogStream::Default(a), LogStream::Default(b)) => a.eqv(b),
            (LogStream::Empty(a), LogStream::Empty(b)) => a.eqv(b),
            (LogStream::File(a), LogStream::File(b)) => a.eqv(b),
            _ => false,
        }
    }

    fn clone_val(&self) -> (r: Self) {
        self.clone()
    }

    fn decode_tree(t: &JsonValue) -> (r: Result<Self, DecodeError>) {
        let g = match get_tag(t) {
            Some(g) => g,
            None => {
                return Err(DecodeError::Malformed);
            },
        };
        if str_eq(g.as_str(), "logStreamDefault") {
            match LogStreamDefault::decode_tree(t) {
                Ok(x) => Ok(LogStream::Default(x)),
                Err(e) => Err(e),
            }
        } else if str_eq(g.as_str(), "logStreamEmpty") {
            match LogStreamEmpty::decode_tree(t) {
                Ok(x) => Ok(LogStream::Empty(x)),
                Err(e) => Err(e),
            }
        } else if str_eq(g.as_str(), "logStreamFile") {
            match LogStreamFile::decode_tree(t) {
                Ok(x) => Ok(LogStream::File(x)),
                Err(e) => Err(e),
            }
        } else {
            Err(DecodeError::UnrecognizedVariant(g))
        }
    }

    fn encode_tree(&self) -> (r: Result<JsonValue, EncodeError>) {
        match self {
            LogStream::_Default(_) => Err(EncodeError::Unrepresentable),
            LogStream::Default(x) => x.encode_tree(),
            LogStream::Empty(x) => x.encode_tree(),
            LogStream::File(x) => x.encode_tree(),
        }
    }

    proof fn lemma_wire_wf(v: Self) {
        match v {
            LogStream::_Default(_) => {},
            LogStream::Default(x) => {
                LogStreamDefault::lemma_wire_wf(x);
            },
            LogStream::Empty(x) => {
                LogStreamEmpty::lemma_wire_wf(x);
            },
            LogStream::File(x) => {
                LogStreamFile::lemma_wire_wf(x);
            },
        }
    }

    proof fn lemma_round_trip(v: Self) {
        Self::lemma_tags_distinct();
        match v {
            LogStream::_Default(_) => {},
            LogStream::Default(x) => {
                if x.wire_tree() is Some {
                    let t = x.wire_tree()->0;
                    LogStreamDefault::lemma_wire_tag(x);
                    LogStreamDefault::lemma_round_trip(x);
                    assert(Self::accepts(t));
                    assert forall|w: Self| Self::decodes_from(t, w) implies #[trigger] w.eqv(v) by {
                        assert(w matches LogStream::Default(xi) && LogStreamDefault::decodes_from(t, xi));
                    }
                }
            },
            LogStream::Empty(x) => {
                if x.wire_tree() is Some {
                    let t = x.wire_tree()->0;
                    LogStreamEmpty::lemma_wire_tag(x);
                    LogStreamEmpty::lemma_round_trip(x);
                    assert(Self::accepts(t));
                    assert forall|w: Self| Self::decodes_from(t, w) implies #[trigger] w.eqv(v) by {
                        assert(w matches LogStream::Empty(xi) && LogStreamEmpty::decodes_from(t, xi));
                    }
                }
            },
            LogStream::File(x) => {
                if x.wire_tree() is Some {
                    let t = x.wire_tree()->0;
                    LogStreamFile::lemma_wire_tag(x);
                    LogStreamFile::lemma_round_trip(x);
                    assert(Self::accepts(t));
                    assert forall|w: Self| Self::decodes_from(t, w) implies #[trigger] w.eqv(v) by {
                        assert(w matches LogStream::File(xi) && LogStreamFile::decodes_from(t, xi));
                    }
                }
            },
        }
    }
}

impl RObject for LogStream {
    open spec fn tag_chars(&self) -> Seq<char> {
        match self {
            LogStream::_Default(_) => "-1"@,
            LogStream::Default(x) => LogStreamDefault::tag_spec(),
            LogStream::Empty(x) => LogStreamEmpty::tag_spec(),
            LogStream::File(x) => LogStreamFile::tag_spec(),
        }
    }

    open spec fn extra_spec(&self) -> Option<Seq<char>> {
        match self {
            LogStream::_Default(_) => None,
            LogStream::Default(x) => opt_str_view(x.extra),
            LogStream::Empty(x) => opt_str_view(x.extra),
            LogStream::File(x) => opt_str_view(x.extra),
    }
    }

    fn td_name(&self) -> (r: &'static str) {
        match self {
            LogStream::_Default(_) => "-1",
            LogStream::Default(x) => x.td_name(),
            LogStream::Empty(x) => x.td_name(),
            LogStream::File(x) => x.td_name(),
        }
    }

    fn extra(&self) -> (r: Option<String>) {
        match self {
            LogStream::_Default(_) => None,
            LogStream::Default(x) => clone_opt_string(&x.extra),
            LogStream::Empty(x) => clone_opt_string(&x.extra),
            LogStream::File(x) => clone_opt_string(&x.extra),
        }
    }

    fn to_json(&self) -> (r: Result<String, EncodeError>) {
        crate::object::encode(self)
    }
}

impl LogStream {
    pub fn from_json(json: &str) -> (r: Result<LogStream, DecodeError>)
        ensures
            match crate::parse::parse_doc(json@) {
                Some(t) => match r {
                    Ok(v) => Self::accepts(t) && Self::decodes_from(t, v),
                    Err(e) => !Self::accepts(t) && crate::errors::err_matches(e, Self::err_of(t)),
                },
                None => r matches Err(e) && e == DecodeError::Malformed,
            },
    {
        crate::object::from_json::<LogStream>(json)
    }

    pub fn _is_default(&self) -> (r: bool)
        ensures
            r == (self is _Default),
    {
        match self {
            LogStream::_Default(_) => true,
            _ => false,
        }
    }

    pub fn is_default(&self) -> (r: bool)
        ensures
            r == (self is Default),
    {
        match self {
            LogStream::Default(_) => true,
            _ => false,
        }
    }

    pub fn is_empty(&self) -> (r: bool)
        ensures
            r == (self is Empty),
    {
        match self {
            LogStream::Empty(_) => true,
            _ => false,
        }
    }

    pub fn is_file(&self) -> (r: bool)
        ensures
            r == (self is File),
    {
        match self {
            LogStream::File(_) => true,
            _ => false,
        }
    }

    pub fn as_default(&self) -> (r: Option<&LogStreamDefault>)
        ensures
            (self is Default) == (r is Some),
            r matches Some(x) ==> *x == self->Default_0,
    {
        match self {
            LogStream::Default(x) => Some(x),
            _ => None,
        }
    }

    pub fn as_empty(&self) -> (r: Option<&LogStreamEmpty>)
        ensures
            (self is Empty) == (r is Some),
            r matches Some(x) ==> *x == self->Empty_0,
    {
        match self {
            LogStream::Empty(x) => Some(x),
            _ => None,
        }
    }

    pub fn as_file(&self) -> (r: Option<&LogStreamFile>)
        ensures
            (self is File) == (r is Some),
            r matches Some(x) ==> *x == self->File_0,
    {
        match self {
            LogStream::File(x) => Some(x),
            _ => None,
        }
    }

    pub fn default(t: &LogStreamDefault) -> (r: Self)
        ensures
            r matches LogStream::Default(x) && x.eqv(*t),
    {
        LogStream::Default(t.clone())
    }

    pub fn empty(t: &LogStreamEmpty) -> (r: Self)
        ensures
            r matches LogStream::Empty(x) && x.eqv(*t),
    {
        LogStream::Empty(t.clone())
    }

    pub fn file(t: &LogStreamFile) -> (r: Self)
        ensures
            r matches LogStream::File(x) && x.eqv(*t),
    {
        LogStream::File(t.clone())
    }
}
/// The log is written to stderr or an OS specific log
#[derive(Debug, PartialEq)]
pub struct LogStreamDefault {
    pub extra: Option<String>,
}

impl LogStreamDefault {
    pub open spec fn tag_spec() -> Seq<char> {
        "logStreamDefault"@
    }

    /// The members of the wire object, in the order they are written.
    pub open spec fn members_spec(self) -> Seq<(Seq<char>, SpecJson)> {
        seq![
            ("@type"@, SpecJson::Str(Self::tag_spec())),
            ("@extra"@, opt_str_tree(opt_str_view(self.extra))),
        ]
    }

    pub open spec fn fields_ok(t: SpecJson) -> bool {
        &&& ok_opt_str(t, "@extra"@)
    }

    pub open spec fn fail_field(t: SpecJson) -> Seq<char> {
        if !ok_opt_str(t, "@extra"@) {
            "@extra"@
        } else {
            Seq::empty()
        }
    }

    /// The encoding of a value carries exactly this type's tag.
    pub proof fn lemma_wire_tag(v: LogStreamDefault)
        ensures
            v.wire_tree() matches Some(t) ==> tag_of(t) == Some(LogStreamDefault::tag_spec()),
    {
        if v.wire_tree() is Some {
            let t = v.wire_tree()->0;
            let ms = t->Obj_0;
            lemma_get_spec_found(ms, "@type"@, 0);
        }
    }
}

impl Clone for LogStreamDefault {
    fn clone(&self) -> (res: Self)
        ensures
            res.eqv(*self),
    {
        LogStreamDefault {
            extra: clone_opt_string(&self.extra),
        }
    }
}

impl Wire for LogStreamDefault {
    open spec fn wire_tree(self) -> Option<SpecJson> {
        Some(SpecJson::Obj(self.members_spec()))
    }

    open spec fn accepts(t: SpecJson) -> bool {
        tag_of(t) is Some && Self::fields_ok(t)
    }

    open spec fn err_of(t: SpecJson) -> SpecDecodeError {
        match tag_of(t) {
            None => SpecDecodeError::Malformed,
            Some(_) => SpecDecodeError::FieldShapeMismatch(Self::tag_spec(), Self::fail_field(t)),
        }
    }

    open spec fn decodes_from(t: SpecJson, v: Self) -> bool {
        &&& m_opt_str(t, "@extra"@, v.extra)
    }

    open spec fn eqv(self, other: Self) -> bool {
        &&& eqv_opt_string(self.extra, other.extra)
    }

    fn clone_val(&self) -> (r: Self) {
        self.clone()
    }

    fn decode_tree(t: &JsonValue) -> (r: Result<Self, DecodeError>) {
        if get_tag(t).is_none() {
            return Err(DecodeError::Malformed);
        }
        let extra = match field_opt_string(t, "@extra") {
            Some(x) => x,
            None => {
                return Err(DecodeError::FieldShapeMismatch(
                    String::from_str("logStreamDefault"),
                    String::from_str("@extra"),
                ));
            },
        };
        Ok(LogStreamDefault { extra })
    }

    fn encode_tree(&self) -> (r: Result<JsonValue, EncodeError>) {
        let mut members: Vec<JsonMember> = Vec::new();
        proof {
            assert(view_members(members@) =~= Seq::<(Seq<char>, SpecJson)>::empty());
        }
        push_member(&mut members, "@type", JsonValue::Str(String::from_str("logStreamDefault")));
        push_member(&mut members, "@extra", opt_string_tree(&self.extra));
        let node = JsonValue::Obj(members);
        proof {
            assert(view_members(members@) =~= self.members_spec());
            assert(node@ == self.wire_tree()->0);
        }
        Ok(node)
    }

    proof fn lemma_wire_wf(v: Self) {
        if v.wire_tree() is Some {
            let t = v.wire_tree()->0;
            let ms = t->Obj_0;
            assert(ms == v.members_spec());
            assert forall|i: int| 0 <= i < ms.len() implies wf(#[trigger] ms[i].1) by {
            }
        }
    }

    proof fn lemma_round_trip(v: Self) {
        if v.wire_tree() is Some {
            let t = v.wire_tree()->0;
            let ms = t->Obj_0;
            assert(ms == v.members_spec());
            reveal_strlit("@type");
            reveal_strlit("@extra");
            assert("@type"@.len() == 5);
            assert("@extra"@.len() == 6);
            reveal_with_fuel(get_spec, 4);
            lemma_get_spec_found(ms, "@type"@, 0);
            lemma_get_spec_found(ms, "@extra"@, 1);
            assert(tag_of(t) == Some(Self::tag_spec()));
            assert(ok_opt_str(t, "@extra"@));
            assert(Self::accepts(t));
            assert forall|w: Self| Self::decodes_from(t, w) implies #[trigger] w.eqv(v) by {
            }
        }
    }
}

impl RObject for LogStreamDefault {
    open spec fn tag_chars(&self) -> Seq<char> {
        Self::tag_spec()
    }

    open spec fn extra_spec(&self) -> Option<Seq<char>> {
        opt_str_view(self.extra)
    }

    fn td_name(&self) -> (r: &'static str) {
        "logStreamDefault"
    }

    fn extra(&self) -> (r: Option<String>) {
        clone_opt_string(&self.extra)
    }

    fn to_json(&self) -> (r: Result<String, EncodeError>) {
        crate::object::encode(self)
    }
}

impl TDLogStream for LogStreamDefault {

}

impl LogStreamDefault {
    pub fn from_json(json: &str) -> (r: Result<LogStreamDefault, DecodeError>)
        ensures
            match crate::parse::parse_doc(json@) {
                Some(t) => match r {
                    Ok(v) => Self::accepts(t) && Self::decodes_from(t, v),
                    Err(e) => !Self::accepts(t) && crate::errors::err_matches(e, Self::err_of(t)),
                },
                None => r matches Err(e) && e == DecodeError::Malformed,
            },
    {
        crate::object::from_json::<LogStreamDefault>(json)
    }

    pub fn builder() -> (r: RTDLogStreamDefaultBuilder)
        ensures
            r.inner.extra is Some,
    {
        RTDLogStreamDefaultBuilder {
            inner: LogStreamDefault {
                extra: Some(new_token()),
            },
        }
    }
}

pub struct RTDLogStreamDefaultBuilder {
    pub inner: LogStreamDefault,
}

impl RTDLogStreamDefaultBuilder {
    pub fn build(&self) -> (r: LogStreamDefault)
        ensures
            r.eqv(self.inner),
    {
        self.inner.clone()
    }
}
/// The log is written nowhere
#[derive(Debug, PartialEq)]
pub struct LogStreamEmpty {
    pub extra: Option<String>,
}

impl LogStreamEmpty {
    pub open spec fn tag_spec() -> Seq<char> {
        "logStreamEmpty"@
    }

    /// The members of the wire object, in the order they are written.
    pub open spec fn members_spec(self) -> Seq<(Seq<char>, SpecJson)> {
        seq![
            ("@type"@, SpecJson::Str(Self::tag_spec())),
            ("@extra"@, opt_str_tree(opt_str_view(self.extra))),
        ]
    }

    pub open spec fn fields_ok(t: SpecJson) -> bool {
        &&& ok_opt_str(t, "@extra"@)
    }

    pub open spec fn fail_field(t: SpecJson) -> Seq<char> {
        if !ok_opt_str(t, "@extra"@) {
            "@extra"@
        } else {
            Seq::empty()
        }
    }

    /// The encoding of a value carries exactly this type's tag.
    pub proof fn lemma_wire_tag(v: LogStreamEmpty)
        ensures
            v.wire_tree() matches Some(t) ==> tag_of(t) == Some(LogStreamEmpty::tag_spec()),
    {
        if v.wire_tree() is Some {
            let t = v.wire_tree()->0;
            let ms = t->Obj_0;
            lemma_get_spec_found(ms, "@type"@, 0);
        }
    }
}

impl Clone for LogStreamEmpty {
    fn clone(&self) -> (res: Self)
        ensures
            res.eqv(*self),
    {
        LogStreamEmpty {
            extra: clone_opt_string(&self.extra),
        }
    }
}

impl Wire for LogStreamEmpty {
    open spec fn wire_tree(self) -> Option<SpecJson> {
        Some(SpecJson::Obj(self.members_spec()))
    }

    open spec fn accepts(t: SpecJson) -> bool {
        tag_of(t) is Some && Self::fields_ok(t)
    }

    open spec fn err_of(t: SpecJson) -> SpecDecodeError {
        match tag_of(t) {
            None => SpecDecodeError::Malformed,
            Some(_) => SpecDecodeError::FieldShapeMismatch(Self::tag_spec(), Self::fail_field(t)),
        }
    }

    open spec fn decodes_from(t: SpecJson, v: Self) -> bool {
        &&& m_opt_str(t, "@extra"@, v.extra)
    }

    open spec fn eqv(self, other: Self) -> bool {
        &&& eqv_opt_string(self.extra, other.extra)
    }

    fn clone_val(&self) -> (r: Self) {
        self.clone()
    }

    fn decode_tree(t: &JsonValue) -> (r: Result<Self, DecodeError>) {
        if get_tag(t).is_none() {
            return Err(DecodeError::Malformed);
        }
        let extra = match field_opt_string(t, "@extra") {
            Some(x) => x,
            None => {
                return Err(DecodeError::FieldShapeMismatch(
                    String::from_str("logStreamEmpty"),
                    String::from_str("@extra"),
                ));
            },
        };
        Ok(LogStreamEmpty { extra })
    }

    fn encode_tree(&self) -> (r: Result<JsonValue, EncodeError>) {
        let mut members: Vec<JsonMember> = Vec::new();
        proof {
            assert(view_members(members@) =~= Seq::<(Seq<char>, SpecJson)>::empty());
        }
        push_member(&mut members, "@type", JsonValue::Str(String::from_str("logStreamEmpty")));
        push_member(&mut members, "@extra", opt_string_tree(&self.extra));
        let node = JsonValue::Obj(members);
        proof {
            assert(view_members(members@) =~= self.members_spec());
            assert(node@ == self.wire_tree()->0);
        }
        Ok(node)
    }

    proof fn lemma_wire_wf(v: Self) {
        if v.wire_tree() is Some {
            let t = v.wire_tree()->0;
            let ms = t->Obj_0;
            assert(ms == v.members_spec());
            assert forall|i: int| 0 <= i < ms.len() implies wf(#[trigger] ms[i].1) by {
            }
        }
    }

    proof fn lemma_round_trip(v: Self) {
        if v.wire_tree() is Some {
            let t = v.wire_tree()->0;
            let ms = t->Obj_0;
            assert(ms == v.members_spec());
            reveal_strlit("@type");
            reveal_strlit("@extra");
            assert("@type"@.len() == 5);
            assert("@extra"@.len() == 6);
            reveal_with_fuel(get_spec, 4);
            lemma_get_spec_found(ms, "@type"@, 0);
            lemma_get_spec_found(ms, "@extra"@, 1);
            assert(tag_of(t) == Some(Self::tag_spec()));
            assert(ok_opt_str(t, "@extra"@));
            assert(Self::accepts(t));
            assert forall|w: Self| Self::decodes_from(t, w) implies #[trigger] w.eqv(v) by {
            }
        }
    }
}

impl RObject for LogStreamEmpty {
    open spec fn tag_chars(&self) -> Seq<char> {
        Self::tag_spec()
    }

    open spec fn extra_spec(&self) -> Option<Seq<char>> {
        opt_str_view(self.extra)
    }

    fn td_name(&self) -> (r: &'static str) {
        "logStreamEmpty"
    }

    fn extra(&self) -> (r: Option<String>) {
        clone_opt_string(&self.extra)
    }

    fn to_json(&self) -> (r: Result<String, EncodeError>) {
        crate::object::encode(self)
    }
}

impl TDLogStream for LogStreamEmpty {

}

impl LogStreamEmpty {
    pub fn from_json(json: &str) -> (r: Result<LogStreamEmpty, DecodeError>)
        ensures
            match crate::parse::parse_doc(json@) {
                Some(t) => match r {
                    Ok(v) => Self::accepts(t) && Self::decodes_from(t, v),
                    Err(e) => !Self::accepts(t) && crate::errors::err_matches(e, Self::err_of(t)),
                },
                None => r matches Err(e) && e == DecodeError::Malformed,
            },
    {
        crate::object::from_json::<LogStreamEmpty>(json)
    }

    pub fn builder() -> (r: RTDLogStreamEmptyBuilder)
        ensures
            r.inner.extra is Some,
    {
        RTDLogStreamEmptyBuilder {
            inner: LogStreamEmpty {
                extra: Some(new_token()),
            },
        }
    }
}

pub struct RTDLogStreamEmptyBuilder {
    pub inner: LogStreamEmpty,
}

impl RTDLogStreamEmptyBuilder {
    pub fn build(&self) -> (r: LogStreamEmpty)
        ensures
            r.eqv(self.inner),
    {
        self.inner.clone()
    }
}
/// The log is written to a file
#[derive(Debug, PartialEq)]
pub struct LogStreamFile {
    pub extra: Option<String>,
    /// Path to the file to where the internal TDLib log will be written
    pub path: String,
    /// The maximum size of the file to where the internal TDLib log is written before the file will be auto-rotated, in bytes
    pub max_file_size: i64,
    /// Pass true to additionally redirect stderr to the log file. Ignored on Windows
    pub redirect_stderr: bool,
}

impl LogStreamFile {
    pub open spec fn tag_spec() -> Seq<char> {
        "logStreamFile"@
    }

    /// The members of the wire object, in the order they are written.
    pub open spec fn members_spec(self) -> Seq<(Seq<char>, SpecJson)> {
        seq![
            ("@type"@, SpecJson::Str(Self::tag_spec())),
            ("@extra"@, opt_str_tree(opt_str_view(self.extra))),
            ("path"@, SpecJson::Str(self.path@)),
            ("max_file_size"@, SpecJson::Num(i64_lex(self.max_file_size as int))),
            ("redirect_stderr"@, SpecJson::Bool(self.redirect_stderr)),
        ]
    }

    pub open spec fn fields_ok(t: SpecJson) -> bool {
        &&& ok_opt_str(t, "@extra"@)
        &&& ok_str(t, "path"@)
        &&& ok_i64(t, "max_file_size"@)
        &&& ok_bool(t, "redirect_stderr"@)
    }

    pub open spec fn fail_field(t: SpecJson) -> Seq<char> {
        if !ok_opt_str(t, "@extra"@) {
            "@extra"@
        } else if !(ok_str(t, "path"@)) {
            "path"@
        } else if !(ok_i64(t, "max_file_size"@)) {
            "max_file_size"@
        } else if !(ok_bool(t, "redirect_stderr"@)) {
            "redirect_stderr"@
        } else {
            Seq::empty()
        }
    }

    /// The encoding of a value carries exactly this type's tag.
    pub proof fn lemma_wire_tag(v: LogStreamFile)
        ensures
            v.wire_tree() matches Some(t) ==> tag_of(t) == Some(LogStreamFile::tag_spec()),
    {
        if v.wire_tree() is Some {
            let t = v.wire_tree()->0;
            let ms = t->Obj_0;
            lemma_get_spec_found(ms, "@type"@, 0);
        }
    }
}

impl Clone for LogStreamFile {
    fn clone(&self) -> (res: Self)
        ensures
            res.eqv(*self),
    {
        LogStreamFile {
            extra: clone_opt_string(&self.extra),
            path: self.path.clone(),
            max_file_size: self.max_file_size,
            redirect_stderr: self.redirect_stderr,
        }
    }
}

impl Wire for LogStreamFile {
    open spec fn wire_tree(self) -> Option<SpecJson> {
        Some(SpecJson::Obj(self.members_spec()))
    }

    open spec fn accepts(t: SpecJson) -> bool {
        tag_of(t) is Some && Self::fields_ok(t)
    }

    open spec fn err_of(t: SpecJson) -> SpecDecodeError {
        match tag_of(t) {
            None => SpecDecodeError::Malformed,
            Some(_) => SpecDecodeError::FieldShapeMismatch(Self::tag_spec(), Self::fail_field(t)),
        }
    }

    open spec fn decodes_from(t: SpecJson, v: Self) -> bool {
        &&& m_opt_str(t, "@extra"@, v.extra)
        &&& m_str(t, "path"@, v.path@)
        &&& m_i64(t, "max_file_size"@, v.max_file_size)
        &&& m_bool(t, "redirect_stderr"@, v.redirect_stderr)
    }

    open spec fn eqv(self, other: Self) -> bool {
        &&& eqv_opt_string(self.extra, other.extra)
        &&& self.path@ == other.path@
        &&& self.max_file_size == other.max_file_size
        &&& self.redirect_stderr == other.redirect_stderr
    }

    fn clone_val(&self) -> (r: Self) {
        self.clone()
    }

    fn decode_tree(t: &JsonValue) -> (r: Result<Self, DecodeError>) {
        if get_tag(t).is_none() {
            return Err(DecodeError::Malformed);
        }
        let extra = match field_opt_string(t, "@extra") {
            Some(x) => x,
            None => {
                return Err(DecodeError::FieldShapeMismatch(
                    String::from_str("logStreamFile"),
                    String::from_str("@extra"),
                ));
            },
        };
        let path = match field_string(t, "path") {
            Some(x) => x,
            None => {
                return Err(DecodeError::FieldShapeMismatch(
                    String::from_str("logStreamFile"),
                    String::from_str("path"),
                ));
            },
        };
        let max_file_size = match field_i64(t, "max_file_size") {
            Some(x) => x,
            None => {
                return Err(DecodeError::FieldShapeMismatch(
                    String::from_str("logStreamFile"),
                    String::from_str("max_file_size"),
                ));
            },
        };
        let redirect_stderr = match field_bool(t, "redirect_stderr") {
            Some(x) => x,
            None => {
                return Err(DecodeError::FieldShapeMismatch(
                    String::from_str("logStreamFile"),
                    String::from_str("redirect_stderr"),
                ));
            },
        };
        Ok(LogStreamFile { extra, path, max_file_size, redirect_stderr })
    }

    fn encode_tree(&self) -> (r: Result<JsonValue, EncodeError>) {
        let mut members: Vec<JsonMember> = Vec::new();
        proof {
            assert(view_members(members@) =~= Seq::<(Seq<char>, SpecJson)>::empty());
        }
        push_member(&mut members, "@type", JsonValue::Str(String::from_str("logStreamFile")));
        push_member(&mut members, "@extra", opt_string_tree(&self.extra));
        push_member(&mut members, "path", JsonValue::Str(self.path.clone()));
        push_member(&mut members, "max_file_size", JsonValue::Num(i64_lexeme(self.max_file_size)));
        push_member(&mut members, "redirect_stderr", JsonValue::Bool(self.redirect_stderr));
        let node = JsonValue::Obj(members);
        proof {
            assert(view_members(members@) =~= self.members_spec());
            assert(node@ == self.wire_tree()->0);
        }
        Ok(node)
    }

    proof fn lemma_wire_wf(v: Self) {
        if v.wire_tree() is Some {
            let t = v.wire_tree()->0;
            let ms = t->Obj_0;
            assert(ms == v.members_spec());
            crate::json::lemma_i64_lex(v.max_file_size);
            assert forall|i: int| 0 <= i < ms.len() implies wf(#[trigger] ms[i].1) by {
            }
        }
    }

    proof fn lemma_round_trip(v: Self) {
        if v.wire_tree() is Some {
            let t = v.wire_tree()->0;
            let ms = t->Obj_0;
            assert(ms == v.members_spec());
            reveal_strlit("@type");
            reveal_strlit("@extra");
            reveal_strlit("path");
            reveal_strlit("max_file_size");
            reveal_strlit("redirect_stderr");
            assert("@type"@.len() == 5);
            assert("@extra"@.len() == 6);
            assert("path"@.len() == 4);
            assert("max_file_size"@.len() == 13);
            assert("redirect_stderr"@.len() == 15);
            reveal_with_fuel(get_spec, 7);
            lemma_get_spec_found(ms, "@type"@, 0);
            lemma_get_spec_found(ms, "@extra"@, 1);
            lemma_get_spec_found(ms, "path"@, 2);
            lemma_get_spec_found(ms, "max_file_size"@, 3);
            lemma_get_spec_found(ms, "redirect_stderr"@, 4);
            assert(tag_of(t) == Some(Self::tag_spec()));
            assert(ok_opt_str(t, "@extra"@));
            assert(ok_str(t, "path"@));
            crate::json::lemma_i64_lex(v.max_file_size);
            assert(ok_i64(t, "max_file_size"@));
            assert(ok_bool(t, "redirect_stderr"@));
            assert(Self::accepts(t));
            assert forall|w: Self| Self::decodes_from(t, w) implies #[trigger] w.eqv(v) by {
            }
        }
    }
}

impl RObject for LogStreamFile {
    open spec fn tag_chars(&self) -> Seq<char> {
        Self::tag_spec()
    }

    open spec fn extra_spec(&self) -> Option<Seq<char>> {
        opt_str_view(self.extra)
    }

    fn td_name(&self) -> (r: &'static str) {
        "logStreamFile"
    }

    fn extra(&self) -> (r: Option<String>) {
        clone_opt_string(&self.extra)
    }

    fn to_json(&self) -> (r: Result<String, EncodeError>) {
        crate::object::encode(self)
    }
}

impl TDLogStream for LogStreamFile {

}

impl LogStreamFile {
    pub fn from_json(json: &str) -> (r: Result<LogStreamFile, DecodeError>)
        ensures
            match crate::parse::parse_doc(json@) {
                Some(t) => match r {
                    Ok(v) => Self::accepts(t) && Self::decodes_from(t, v),
                    Err(e) => !Self::accepts(t) && crate::errors::err_matches(e, Self::err_of(t)),
                },
                None => r matches Err(e) && e == DecodeError::Malformed,
            },
    {
        crate::object::from_json::<LogStreamFile>(json)
    }

    pub fn builder() -> (r: RTDLogStreamFileBuilder)
        ensures
            r.inner.extra is Some,
            r.inner.path@ == Seq::<char>::empty(),
            r.inner.max_file_size == 0,
            r.inner.redirect_stderr == false,
    {
        RTDLogStreamFileBuilder {
            inner: LogStreamFile {
                extra: Some(new_token()),
                path: String::new(),
                max_file_size: 0,
                redirect_stderr: false,
            },
        }
    }

    pub fn path(&self) -> (r: &String)
        ensures
            *r == self.path,
    {
        &self.path
    }

    pub fn max_file_size(&self) -> (r: i64)
        ensures
            r == self.max_file_size,
    {
        self.max_file_size
    }

    pub fn redirect_stderr(&self) -> (r: bool)
        ensures
            r == self.redirect_stderr,
    {
        self.redirect_stderr
    }
}

pub struct RTDLogStreamFileBuilder {
    pub inner: LogStreamFile,
}

impl RTDLogStreamFileBuilder {
    pub fn build(&self) -> (r: LogStreamFile)
        ensures
            r.eqv(self.inner),
    {
        self.inner.clone()
    }

    pub fn path(&mut self, path: String) -> (r: &mut Self)
        ensures
            *r == (RTDLogStreamFileBuilder { inner: LogStreamFile { path: path, ..old(self).inner } }),
            *final(self) == *final(r),
    {
        self.inner.path = path;
        self
    }

    pub fn max_file_size(&mut self, max_file_size: i64) -> (r: &mut Self)
        ensures
            *r == (RTDLogStreamFileBuilder { inner: LogStreamFile { max_file_size: max_file_size, ..old(self).inner } }),
            *final(self) == *final(r),
    {
        self.inner.max_file_size = max_file_size;
        self
    }

    pub fn redirect_stderr(&mut self, redirect_stderr: bool) -> (r: &mut Self)
        ensures
            *r == (RTDLogStreamFileBuilder { inner: LogStreamFile { redirect_stderr: redirect_stderr, ..old(self).inner } }),
            *final(self) == *final(r),
    {
        self.inner.redirect_stderr = redirect_stderr;
        self
    }
}
} // verus!
