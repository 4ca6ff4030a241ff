use vstd::prelude::*;

use crate::errors::DecodeError;
use crate::errors::EncodeError;
use crate::errors::SpecDecodeError;
use crate::json::JsonMember;
use crate::json::JsonValue;
use crate::json::SpecJson;
use crate::json::i64_lex;
use crate::json::view_members;
use crate::json::wf;
use crate::object::RObject;
use crate::object::Wire;
use crate::object::clone_opt_string;
use crate::object::eqv_opt_string;
use crate::object::field_i64;
use crate::object::field_opt_string;
use crate::object::get_spec;
use crate::object::get_tag;
use crate::object::i64_lexeme;
use crate::object::lemma_get_spec_found;
use crate::object::m_i64;
use crate::object::m_opt_str;
use crate::object::new_token;
use crate::object::ok_i64;
use crate::object::ok_opt_str;
use crate::object::opt_str_tree;
use crate::object::opt_str_view;
use crate::object::opt_string_tree;
use crate::object::push_member;
use crate::object::str_eq;
use crate::object::tag_of;

verus! {

/// Describes the way the text needs to be parsed for TextEntities
pub trait TDTextParseMode: RObject {

}

/// Describes the way the text needs to be parsed for TextEntities
#[derive(Debug, PartialEq)]
pub enum TextParseMode {
    _Default(()),
    /// The text uses HTML-style formatting. The same as Telegram Bot API "HTML" parse mode
    HTML(TextParseModeHTML),
    /// The text uses Markdown-style formatting
    Markdown(TextParseModeMarkdown),
}

impl Clone for TextParseMode {
    fn clone(&self) -> (res: Self)
        ensures
            res.eqv(*self),
    {
        match self {
            TextParseMode::_Default(_) => TextParseMode::_Default(()),
            TextParseMode::HTML(x) => TextParseMode::HTML(x.clone()),
            TextParseMode::Markdown(x) => TextParseMode::Markdown(x.clone()),
        }
    }
}

impl TextParseMode {
    /// The tags of this variant's alternatives are pairwise distinct.
    pub proof fn lemma_tags_distinct()
        ensures
            "textParseModeHTML"@ != "textParseModeMarkdown"@,
    {
        reveal_strlit("textParseModeHTML");
        reveal_strlit("textParseModeMarkdown");
        assert("textParseModeHTML"@.len() == 17);
        assert("textParseModeMarkdown"@.len() == 21);
    }
}

impl Wire for TextParseMode {
    open spec fn wire_tree(self) -> Option<SpecJson> {
        match self {
            TextParseMode::_Default(_) => None,
            TextParseMode::HTML(x) => x.wire_tree(),
            TextParseMode::Markdown(x) => x.wire_tree(),
        }
    }

    open spec fn accepts(t: SpecJson) -> bool {
        match tag_of(t) {
            None => false,
            Some(g) => {
                if g == TextParseModeHTML::tag_spec() {
                    TextParseModeHTML::accepts(t)
                } else if g == TextParseModeMarkdown::tag_spec() {
                    TextParseModeMarkdown::accepts(t)
                } else {
                    false
                }
            },
        }
    }

    open spec fn err_of(t: SpecJson) -> SpecDecodeError {
        match tag_of(t) {
            None => SpecDecodeError::Malformed,
            Some(g) => {
                if g == TextParseModeHTML::tag_spec() {
                    TextParseModeHTML::err_of(t)
                } else if g == TextParseModeMarkdown::tag_spec() {
                    TextParseModeMarkdown::err_of(t)
                } else {
                    SpecDecodeError::UnrecognizedVariant(g)
                }
            },
        }
    }

    open spec fn decodes_from(t: SpecJson, v: Self) -> bool {
        match tag_of(t) {
            None => false,
            Some(g) => {
                if g == TextParseModeHTML::tag_spec() {
                    v matches TextParseMode::HTML(x) && TextParseModeHTML::decodes_from(t, x)
                } else if g == TextParseModeMarkdown::tag_spec() {
                    v matches TextParseMode::Markdown(x) && TextParseModeMarkdown::decodes_from(t, x)
                } else {
                    false
                }
            },
        }
    }

    open spec fn eqv(self, other: Self) -> bool {
        match (self, other) {
            (TextParseMode::_Default(_), TextParseMode::_Default(_)) => true,
            (TextParseMode::HTML(a), TextParseMode::HTML(b)) => a.eqv(b),
            (TextParseMode::Markdown(a), TextParseMode::Markdown(b)) => a.eqv(b),
            _ => false,
        }
    }

    fn clone_val(&self) -> (r: Self) {
        self.clone()
    }

    fn decode_tree(t: &JsonValue) -> (r: Result<Self, DecodeError>) {
        let g = match get_tag(t) {
            Some(g) => g,
            None => {
                return Err(DecodeError::Malformed);
            },
        };
        if str_eq(g.as_str(), "textParseModeHTML") {
            match TextParseModeHTML::decode_tree(t) {
                Ok(x) => Ok(TextParseMode::HTML(x)),
                Err(e) => Err(e),
            }
        } else if str_eq(g.as_str(), "textParseModeMarkdown") {
            match TextParseModeMarkdown::decode_tree(t) {
                Ok(x) => Ok(TextParseMode::Markdown(x)),
                Err(e) => Err(e),
            }
        } else {
            Err(DecodeError::UnrecognizedVariant(g))
        }
    }

    fn encode_tree(&self) -> (r: Result<JsonValue, EncodeError>) {
        match self {
            TextParseMode::_Default(_) => Err(EncodeError::Unrepresentable),
            TextParseMode::HTML(x) => x.encode_tree(),
            TextParseMode::Markdown(x) => x.encode_tree(),
        }
    }

    proof fn lemma_wire_wf(v: Self) {
        match v {
            TextParseMode::_Default(_) => {},
            TextParseMode::HTML(x) => {
                TextParseModeHTML::lemma_wire_wf(x);
            },
            TextParseMode::Markdown(x) => {
                TextParseModeMarkdown::lemma_wire_wf(x);
            },
        }
    }

    proof fn lemma_round_trip(v: Self) {
        Self::lemma_tags_distinct();
        match v {
            TextParseMode::_Default(_) => {},
            TextParseMode::HTML(x) => {
                if x.wire_tree() is Some {
                    let t = x.wire_tree()->0;
                    TextParseModeHTML::lemma_wire_tag(x);
                    TextParseModeHTML::lemma_round_trip(x);
                    assert(Self::accepts(t));
                    assert forall|w: Self| Self::decodes_from(t, w) implies #[trigger] w.eqv(v) by {
                        assert(w matches TextParseMode::HTML(xi) && TextParseModeHTML::decodes_from(t, xi));
                    }
                }
            },
            TextParseMode::Markdown(x) => {
                if x.wire_tree() is Some {
                    let t = x.wire_tree()->0;
                    TextParseModeMarkdown::lemma_wire_tag(x);
                    TextParseModeMarkdown::lemma_round_trip(x);
                    assert(Self::accepts(t));
                    assert forall|w: Self| Self::decodes_from(t, w) implies #[trigger] w.eqv(v) by {
                        assert(w matches TextParseMode::Markdown(xi) && TextParseModeMarkdown::decodes_from(t, xi));
                    }
                }
            },
        }
    }
}

impl RObject for TextParseMode {
    open spec fn tag_chars(&self) -> Seq<char> {
        match self {
            TextParseMode::_Default(_) => "-1"@,
            TextParseMode::HTML(x) => TextParseModeHTML::tag_spec(),
            TextParseMode::Markdown(x) => TextParseModeMarkdown::tag_spec(),
        }
    }

    open spec fn extra_spec(&self) -> Option<Seq<char>> {
        match self {
            TextParseMode::_Default(_) => None,
            TextParseMode::HTML(x) => opt_str_view(x.extra),
            TextParseMode::Markdown(x) => opt_str_view(x.extra),
    }
    }

    fn td_name(&self) -> (r: &'static str) {
        match self {
            TextParseMode::_Default(_) => "-1",
            TextParseMode::HTML(x) => x.td_name(),
            TextParseMode::Markdown(x) => x.td_name(),
        }
    }

    fn extra(&self) -> (r: Option<String>) {
        match self {
            TextParseMode::_Default(_) => None,
            TextParseMode::HTML(x) => clone_opt_string(&x.extra),
            TextParseMode::Markdown(x) => clone_opt_string(&x.extra),
        }
    }

    fn to_json(&self) -> (r: Result<String, EncodeError>) {
        crate::object::encode(self)
    }
}

impl TextParseMode {
    pub fn from_json(json: &str) -> (r: Result<TextParseMode, DecodeError>)
        ensures
            match crate::parse::parse_doc(json@) {
                Some(t) => match r {
                    Ok(v) => Self::accepts(t) && Self::decodes_from(t, v),
                    Err(e) => !Self::accepts(t) && crate::errors::err_matches(e, Self::err_of(t)),
                },
                None => r matches Err(e) && e == DecodeError::Malformed,
            },
    {
        crate::object::from_json::<TextParseMode>(json)
    }

    pub fn _is_default(&self) -> (r: bool)
        ensures
            r == (self is _Default),
    {
        match self {
            TextParseMode::_Default(_) => true,
            _ => false,
        }
    }

    pub fn is_html(&self) -> (r: bool)
        ensures
            r == (self is HTML),
    {
        match self {
            TextParseMode::HTML(_) => true,
            _ => false,
        }
    }

    pub fn is_markdown(&self) -> (r: bool)
        ensures
            r == (self is Markdown),
    {
        match self {
            TextParseMode::Markdown(_) => true,
            _ => false,
        }
    }

    pub fn as_html(&self) -> (r: Option<&TextParseModeHTML>)
        ensures
            (self is HTML) == (r is Some),
            r matches Some(x) ==> *x == self->HTML_0,
    {
        match self {
            TextParseMode::HTML(x) => Some(x),
            _ => None,
        }
    }

    pub fn as_markdown(&self) -> (r: Option<&TextParseModeMarkdown>)
        ensures
            (self is Markdown) == (r is Some),
            r matches Some(x) ==> *x == self->Markdown_0,
    {
        match self {
            TextParseMode::Markdown(x) => Some(x),
            _ => None,
        }
    }

    pub fn html(t: &TextParseModeHTML) -> (r: Self)
        ensures
            r matches TextParseMode::HTML(x) && x.eqv(*t),
    {
        TextParseMode::HTML(t.clone())
    }

    pub fn markdown(t: &TextParseModeMarkdown) -> (r: Self)
        ensures
            r matches TextParseMode::Markdown(x) && x.eqv(*t),
    {
        TextParseMode::Markdown(t.clone())
    }
}
/// The text uses HTML-style formatting. The same as Telegram Bot API "HTML" parse mode
#[derive(Debug, PartialEq)]
pub struct TextParseModeHTML {
    pub extra: Option<String>,
}

impl TextParseModeHTML {
    pub open spec fn tag_spec() -> Seq<char> {
        "textParseModeHTML"@
    }

    /// The members of the wire object, in the order they are written.
    pub open spec fn members_spec(self) -> Seq<(Seq<char>, SpecJson)> {
        seq![
            ("@type"@, SpecJson::Str(Self::tag_spec())),
            ("@extra"@, opt_str_tree(opt_str_view(self.extra))),
        ]
    }

    pub open spec fn fields_ok(t: SpecJson) -> bool {
        &&& ok_opt_str(t, "@extra"@)
    }

    pub open spec fn fail_field(t: SpecJson) -> Seq<char> {
        if !ok_opt_str(t, "@extra"@) {
            "@extra"@
        } else {
            Seq::empty()
        }
    }

    /// The encoding of a value carries exactly this type's tag.
    pub proof fn lemma_wire_tag(v: TextParseModeHTML)
        ensures
            v.wire_tree() matches Some(t) ==> tag_of(t) == Some(TextParseModeHTML::tag_spec()),
    {
        if v.wire_tree() is Some {
            let t = v.wire_tree()->0;
            let ms = t->Obj_0;
            lemma_get_spec_found(ms, "@type"@, 0);
        }
    }
}

impl Clone for TextParseModeHTML {
    fn clone(&self) -> (res: Self)
        ensures
            res.eqv(*self),
    {
        TextParseModeHTML {
            extra: clone_opt_string(&self.extra),
        }
    }
}

impl Wire for TextParseModeHTML {
    open spec fn wire_tree(self) -> Option<SpecJson> {
        Some(SpecJson::Obj(self.members_spec()))
    }

    open spec fn accepts(t: SpecJson) -> bool {
        tag_of(t) is Some && Self::fields_ok(t)
    }

    open spec fn err_of(t: SpecJson) -> SpecDecodeError {
        match tag_of(t) {
            None => SpecDecodeError::Malformed,
            Some(_) => SpecDecodeError::FieldShapeMismatch(Self::tag_spec(), Self::fail_field(t)),
        }
    }

    open spec fn decodes_from(t: SpecJson, v: Self) -> bool {
        &&& m_opt_str(t, "@extra"@, v.extra)
    }

    open spec fn eqv(self, other: Self) -> bool {
        &&& eqv_opt_string(self.extra, other.extra)
    }

    fn clone_val(&self) -> (r: Self) {
        self.clone()
    }

    fn decode_tree(t: &JsonValue) -> (r: Result<Self, DecodeError>) {
        if get_tag(t).is_none() {
            return Err(DecodeError::Malformed);
        }
        let extra = match field_opt_string(t, "@extra") {
            Some(x) => x,
            None => {
                return Err(DecodeError::FieldShapeMismatch(
                    String::from_str("textParseModeHTML"),
                    String::from_str("@extra"),
                ));
            },
        };
        Ok(TextParseModeHTML { extra })
    }

    fn encode_tree(&self) -> (r: Result<JsonValue, EncodeError>) {
        let mut members: Vec<JsonMember> = Vec::new();
        proof {
            assert(view_members(members@) =~= Seq::<(Seq<char>, SpecJson)>::empty());
        }
        push_member(&mut members, "@type", JsonValue::Str(String::from_str("textParseModeHTML")));
        push_member(&mut members, "@extra", opt_string_tree(&self.extra));
        let node = JsonValue::Obj(members);
        proof {
            assert(view_members(members@) =~= self.members_spec());
            assert(node@ == self.wire_tree()->0);
        }
        Ok(node)
    }

    proof fn lemma_wire_wf(v: Self) {
        if v.wire_tree() is Some {
            let t = v.wire_tree()->0;
            let ms = t->Obj_0;
            assert(ms == v.members_spec());
            assert forall|i: int| 0 <= i < ms.len() implies wf(#[trigger] ms[i].1) by {
            }
        }
    }

    proof fn lemma_round_trip(v: Self) {
        if v.wire_tree() is Some {
            let t = v.wire_tree()->0;
            let ms = t->Obj_0;
            assert(ms == v.members_spec());
            reveal_strlit("@type");
            reveal_strlit("@extra");
            assert("@type"@.len() == 5);
            assert("@extra"@.len() == 6);
            reveal_with_fuel(get_spec, 4);
            lemma_get_spec_found(ms, "@type"@, 0);
            lemma_get_spec_found(ms, "@extra"@, 1);
            assert(tag_of(t) == Some(Self::tag_spec()));
            assert(ok_opt_str(t, "@extra"@));
            assert(Self::accepts(t));
            assert forall|w: Self| Self::decodes_from(t, w) implies #[trigger] w.eqv(v) by {
            }
        }
    }
}

impl RObject for TextParseModeHTML {
    open spec fn tag_chars(&self) -> Seq<char> {
        Self::tag_spec()
    }

    open spec fn extra_spec(&self) -> Option<Seq<char>> {
        opt_str_view(self.extra)
    }

    fn td_name(&self) -> (r: &'static str) {
        "textParseModeHTML"
    }

    fn extra(&self) -> (r: Option<String>) {
        clone_opt_string(&self.extra)
    }

    fn to_json(&self) -> (r: Result<String, EncodeError>) {
        crate::object::encode(self)
    }
}

impl TDTextParseMode for TextParseModeHTML {

}

impl TextParseModeHTML {
    pub fn from_json(json: &str) -> (r: Result<TextParseModeHTML, DecodeError>)
        ensures
            match crate::parse::parse_doc(json@) {
                Some(t) => match r {
                    Ok(v) => Self::accepts(t) && Self::decodes_from(t, v),
                    Err(e) => !Self::accepts(t) && crate::errors::err_matches(e, Self::err_of(t)),
                },
                None => r matches Err(e) && e == DecodeError::Malformed,
            },
    {
        crate::object::from_json::<TextParseModeHTML>(json)
    }

    pub fn builder() -> (r: RTDTextParseModeHTMLBuilder)
        ensures
            r.inner.extra is Some,
    {
        RTDTextParseModeHTMLBuilder {
            inner: TextParseModeHTML {
                extra: Some(new_token()),
            },
        }
    }
}

pub struct RTDTextParseModeHTMLBuilder {
    pub inner: TextParseModeHTML,
}

impl RTDTextParseModeHTMLBuilder {
    pub fn build(&self) -> (r: TextParseModeHTML)
        ensures
            r.eqv(self.inner),
    {
        self.inner.clone()
    }
}
/// The text uses Markdown-style formatting
#[derive(Debug, PartialEq)]
pub struct TextParseModeMarkdown {
    pub extra: Option<String>,
    /// Version of the parser: 0 or 1  Telegram Bot API "Markdown" parse mode, 2  Telegram Bot API "MarkdownV2" parse mode
    pub version: i64,
}

impl TextParseModeMarkdown {
    pub open spec fn tag_spec() -> Seq<char> {
        "textParseModeMarkdown"@
    }

    /// The members of the wire object, in the order they are written.
    pub open spec fn members_spec(self) -> Seq<(Seq<char>, SpecJson)> {
        seq![
            ("@type"@, SpecJson::Str(Self::tag_spec())),
            ("@extra"@, opt_str_tree(opt_str_view(self.extra))),
            ("version"@, SpecJson::Num(i64_lex(self.version as int))),
        ]
    }

    pub open spec fn fields_ok(t: SpecJson) -> bool {
        &&& ok_opt_str(t, "@extra"@)
        &&& ok_i64(t, "version"@)
    }

    pub open spec fn fail_field(t: SpecJson) -> Seq<char> {
        if !ok_opt_str(t, "@extra"@) {
            "@extra"@
        } else if !(ok_i64(t, "version"@)) {
            "version"@
        } else {
            Seq::empty()
        }
    }

    /// The encoding of a value carries exactly this type's tag.
    pub proof fn lemma_wire_tag(v: TextParseModeMarkdown)
        ensures
            v.wire_tree() matches Some(t) ==> tag_of(t) == Some(TextParseModeMarkdown::tag_spec()),
    {
        if v.wire_tree() is Some {
            let t = v.wire_tree()->0;
            let ms = t->Obj_0;
            lemma_get_spec_found(ms, "@type"@, 0);
        }
    }
}

impl Clone for TextParseModeMarkdown {
    fn clone(&self) -> (res: Self)
        ensures
            res.eqv(*self),
    {
        TextParseModeMarkdown {
            extra: clone_opt_string(&self.extra),
            version: self.version,
        }
    }
}

impl Wire for TextParseModeMarkdown {
    open spec fn wire_tree(self) -> Option<SpecJson> {
        Some(SpecJson::Obj(self.members_spec()))
    }

    open spec fn accepts(t: SpecJson) -> bool {
        tag_of(t) is Some && Self::fields_ok(t)
    }

    open spec fn err_of(t: SpecJson) -> SpecDecodeError {
        match tag_of(t) {
            None => SpecDecodeError::Malformed,
            Some(_) => SpecDecodeError::FieldShapeMismatch(Self::tag_spec(), Self::fail_field(t)),
        }
    }

    open spec fn decodes_from(t: SpecJson, v: Self) -> bool {
        &&& m_opt_str(t, "@extra"@, v.extra)
        &&& m_i64(t, "version"@, v.version)
    }

    open spec fn eqv(self, other: Self) -> bool {
        &&& eqv_opt_string(self.extra, other.extra)
        &&& self.version == other.version
    }

    fn clone_val(&self) -> (r: Self) {
        self.clone()
    }

    fn decode_tree(t: &JsonValue) -> (r: Result<Self, DecodeError>) {
        if get_tag(t).is_none() {
            return Err(DecodeError::Malformed);
        }
        let extra = match field_opt_string(t, "@extra") {
            Some(x) => x,
            None => {
                return Err(DecodeError::FieldShapeMismatch(
                    String::from_str("textParseModeMarkdown"),
                    String::from_str("@extra"),
                ));
            },
        };
        let version = match field_i64(t, "version") {
            Some(x) => x,
            None => {
                return Err(DecodeError::FieldShapeMismatch(
                    String::from_str("textParseModeMarkdown"),
                    String::from_str("version"),
                ));
            },
        };
        Ok(TextParseModeMarkdown { extra, version })
    }

    fn encode_tree(&self) -> (r: Result<JsonValue, EncodeError>) {
        let mut members: Vec<JsonMember> = Vec::new();
        proof {
            assert(view_members(members@) =~= Seq::<(Seq<char>, SpecJson)>::empty());
        }
        push_member(&mut members, "@type", JsonValue::Str(String::from_str("textParseModeMarkdown")));
        push_member(&mut members, "@extra", opt_string_tree(&self.extra));
        push_member(&mut members, "version", JsonValue::Num(i64_lexeme(self.version)));
        let node = JsonValue::Obj(members);
        proof {
            assert(view_members(members@) =~= self.members_spec());
            assert(node@ == self.wire_tree()->0);
        }
        Ok(node)
    }

    proof fn lemma_wire_wf(v: Self) {
        if v.wire_tree() is Some {
            let t = v.wire_tree()->0;
            let ms = t->Obj_0;
            assert(ms == v.members_spec());
            crate::json::lemma_i64_lex(v.version);
            assert forall|i: int| 0 <= i < ms.len() implies wf(#[trigger] ms[i].1) by {
            }
        }
    }

    proof fn lemma_round_trip(v: Self) {
        if v.wire_tree() is Some {
            let t = v.wire_tree()->0;
            let ms = t->Obj_0;
            assert(ms == v.members_spec());
            reveal_strlit("@type");
            reveal_strlit("@extra");
            reveal_strlit("version");
            assert("@type"@.len() == 5);
            assert("@extra"@.len() == 6);
            assert("version"@.len() == 7);
            reveal_with_fuel(get_spec, 5);
            lemma_get_spec_found(ms, "@type"@, 0);
            lemma_get_spec_found(ms, "@extra"@, 1);
            lemma_get_spec_found(ms, "version"@, 2);
            assert(tag_of(t) == Some(Self::tag_spec()));
            assert(ok_opt_str(t, "@extra"@));
            crate::json::lemma_i64_lex(v.version);
            assert(ok_i64(t, "version"@));
            assert(Self::accepts(t));
            assert forall|w: Self| Self::decodes_from(t, w) implies #[trigger] w.eqv(v) by {
            }
        }
    }
}

impl RObject for TextParseModeMarkdown {
    open spec fn tag_chars(&self) -> Seq<char> {
        Self::tag_spec()
    }

    open spec fn extra_spec(&self) -> Option<Seq<char>> {
        opt_str_view(self.extra)
    }

    fn td_name(&self) -> (r: &'static str) {
        "textParseModeMarkdown"
    }

    fn extra(&self) -> (r: Option<String>) {
        clone_opt_string(&self.extra)
    }

    fn to_json(&self) -> (r: Result<String, EncodeError>) {
        crate::object::encode(self)
    }
}

impl TDTextParseMode for TextParseModeMarkdown {

}

impl TextParseModeMarkdown {
    pub fn from_json(json: &str) -> (r: Result<TextParseModeMarkdown, DecodeError>)
        ensures
            match crate::parse::parse_doc(json@) {
                Some(t) => match r {
                    Ok(v) => Self::accepts(t) && Self::decodes_from(t, v),
                    Err(e) => !Self::accepts(t) && crate::errors::err_matches(e, Self::err_of(t)),
                },
                None => r matches Err(e) && e == DecodeError::Malformed,
            },
    {
        crate::object::from_json::<TextParseModeMarkdown>(json)
    }

    pub fn builder() -> (r: RTDTextParseModeMarkdownBuilder)
        ensures
            r.inner.extra is Some,
            r.inner.version == 0,
    {
        RTDTextParseModeMarkdownBuilder {
            inner: TextParseModeMarkdown {
                extra: Some(new_token()),
                version: 0,
            },
        }
    }

    pub fn version(&self) -> (r: i64)
        ensures
            r == self.version,
    {
        self.version
    }
}

pub struct RTDTextParseModeMarkdownBuilder {
    pub inner: TextParseModeMarkdown,
}

impl RTDTextParseModeMarkdownBuilder {
    pub fn build(&self) -> (r: TextParseModeMarkdown)
        ensures
            r.eqv(self.inner),
    {
        self.inner.clone()
    }

    pub fn version(&mut self, version: i64) -> (r: &mut Self)
        ensures
            *r == (RTDTextParseModeMarkdownBuilder { inner: TextParseModeMarkdown { version: version, ..old(self).inner } }),
            *final(self) == *final(r),
    {
        self.inner.version = version;
        self
    }
}
} // verus!
