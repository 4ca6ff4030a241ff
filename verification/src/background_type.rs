use vstd::prelude::*;

use crate::errors::DecodeError;
use crate::errors::EncodeError;
use crate::errors::SpecDecodeError;
use crate::json::JsonMember;
use crate::json::JsonValue;
use crate::json::SpecJson;
use crate::json::i64_lex;
use crate::json::view_members;
use crate::json::wf;
use crate::object::RObject;
use crate::object::Wire;
use crate::object::clone_opt_string;
use crate::object::eqv_opt_string;
use crate::object::field_bool;
use crate::object::field_i64;
use crate::object::field_opt_string;
use crate::object::get_spec;
use crate::object::get_tag;
use crate::object::i64_lexeme;
use crate::object::lemma_get_spec_found;
use crate::object::m_bool;
use crate::object::m_i64;
use crate::object::m_opt_str;
use crate::object::new_token;
use crate::object::ok_bool;
use crate::object::ok_i64;
use crate::object::ok_opt_str;
use crate::object::opt_str_tree;
use crate::object::opt_str_view;
use crate::object::opt_string_tree;
use crate::object::push_member;
use crate::object::str_eq;
use crate::object::tag_of;

verus! {

/// Describes the type of a background
pub trait TDBackgroundType: RObject {

}

/// Describes the type of a background
#[derive(Debug, PartialEq)]
pub enum BackgroundType {
    _Default(()),
    /// A filled background
    Fill(BackgroundTypeFill),
    /// A PNG or TGV (gzipped subset of SVG with MIME type "application/x-tgwallpattern") pattern to be combined with the background fill chosen by the user
    Pattern(BackgroundTypePattern),
    /// A wallpaper in JPEG format
    Wallpaper(BackgroundTypeWallpaper),
}

impl Clone for BackgroundType {
    fn clone(&self) -> (res: Self)
        ensures
            res.eqv(*self),
    {
        match self {
            BackgroundType::_Default(_) => BackgroundType::_Default(()),
            BackgroundType::Fill(x) => BackgroundType::Fill(x.clone()),
            BackgroundType::Pattern(x) => BackgroundType::Pattern(x.clone()),
            BackgroundType::Wallpaper(x) => BackgroundType::Wallpaper(x.clone()),
        }
    }
}

impl BackgroundType {
    /// The tags of this variant's alternatives are pairwise distinct.
    pub proof fn lemma_tags_distinct()
        ensures
            "backgroundTypeFill"@ != "backgroundTypePattern"@,
            "backgroundTypeFill"@ != "backgroundTypeWallpaper"@,
            "backgroundTypePattern"@ != "backgroundTypeWallpaper"@,
    {
        reveal_strlit("backgroundTypeFill");
        reveal_strlit("backgroundTypePattern");
        reveal_strlit("backgroundTypeWallpaper");
        assert("backgroundTypeFill"@.len() == 18);
        assert("backgroundTypePattern"@.len() == 21);
        assert("backgroundTypeWallpaper"@.len() == 23);
    }
}

impl Wire for BackgroundType {
    open spec fn wire_tree(self) -> Option<SpecJson> {
        match self {
            BackgroundType::_Default(_) => None,
            BackgroundType::Fill(x) => x.wire_tree(),
            BackgroundType::Pattern(x) => x.wire_tree(),
            BackgroundType::Wallpaper(x) => x.wire_tree(),
        }
    }

    open spec fn accepts(t: SpecJson) -> bool {
        match tag_of(t) {
            None => false,
            Some(g) => {
                if g == BackgroundTypeFill::tag_spec() {
                    BackgroundTypeFill::accepts(t)
                } else if g == BackgroundTypePattern::tag_spec() {
                    BackgroundTypePattern::accepts(t)
                } else if g == BackgroundTypeWallpaper::tag_spec() {
                    BackgroundTypeWallpaper::accepts(t)
                } else {
                    false
                }
            },
        }
    }

    open spec fn err_of(t: SpecJson) -> SpecDecodeError {
        match tag_of(t) {
            None => SpecDecodeError::Malformed,
            Some(g) => {
                if g == BackgroundTypeFill::tag_spec() {
                    BackgroundTypeFill::err_of(t)
                } else if g == BackgroundTypePattern::tag_spec() {
                    BackgroundTypePattern::err_of(t)
                } else if g == BackgroundTypeWallpaper::tag_spec() {
                    BackgroundTypeWallpaper::err_of(t)
                } else {
                    SpecDecodeError::UnrecognizedVariant(g)
                }
            },
        }
    }

    open spec fn decodes_from(t: SpecJson, v: Self) -> bool {
        match tag_of(t) {
            None => false,
            Some(g) => {
                if g == BackgroundTypeFill::tag_spec() {
                    v matches BackgroundType::Fill(x) && BackgroundTypeFill::decodes_from(t, x)
                } else if g == BackgroundTypePattern::tag_spec() {
                    v matches BackgroundType::Pattern(x) && BackgroundTypePattern::decodes_from(t, x)
                } else if g == BackgroundTypeWallpaper::tag_spec() {
                    v matches BackgroundType::Wallpaper(x) && BackgroundTypeWallpaper::decodes_from(t, x)
                } else {
                    false
                }
            },
        }
    }

    open spec fn eqv(self, other: Self) -> bool {
        match (self, other) {
            (BackgroundType::_Default(_), BackgroundType::_Default(_)) => true,
            (BackgroundType::Fill(a), BackgroundType::Fill(b)) => a.eqv(b),
            (BackgroundType::Pattern(a), BackgroundType::Pattern(b)) => a.eqv(b),
            (BackgroundType::Wallpaper(a), BackgroundType::Wallpaper(b)) => a.eqv(b),
            _ => false,
        }
    }

    fn clone_val(&self) -> (r: Self) {
        self.clone()
    }

    fn decode_tree(t: &JsonValue) -> (r: Result<Self, DecodeError>) {
        let g = match get_tag(t) {
            Some(g) => g,
            None => {
                return Err(DecodeError::Malformed);
            },
        };
        if str_eq(g.as_str(), "backgroundTypeFill") {
            match BackgroundTypeFill::decode_tree(t) {
                Ok(x) => Ok(BackgroundType::Fill(x)),
                Err(e) => Err(e),
            }
        } else if str_eq(g.as_str(), "backgroundTypePattern") {
            match BackgroundTypePattern::decode_tree(t) {
                Ok(x) => Ok(BackgroundType::Pattern(x)),
                Err(e) => Err(e),
            }
        } else if str_eq(g.as_str(), "backgroundTypeWallpaper") {
            match BackgroundTypeWallpaper::decode_tree(t) {
                Ok(x) => Ok(BackgroundType::Wallpaper(x)),
                Err(e) => Err(e),
            }
        } else {
            Err(DecodeError::UnrecognizedVariant(g))
        }
    }

    fn encode_tree(&self) -> (r: Result<JsonValue, EncodeError>) {
        match self {
            BackgroundType::_Default(_) => Err(EncodeError::Unrepresentable),
            BackgroundType::Fill(x) => x.encode_tree(),
            BackgroundType::Pattern(x) => x.encode_tree(),
            BackgroundType::Wallpaper(x) => x.encode_tree(),
        }
    }

    proof fn lemma_wire_wf(v: Self) {
        match v {
            BackgroundType::_Default(_) => {},
            BackgroundType::Fill(x) => {
                BackgroundTypeFill::lemma_wire_wf(x);
            },
            BackgroundType::Pattern(x) => {
                BackgroundTypePattern::lemma_wire_wf(x);
            },
            BackgroundType::Wallpaper(x) => {
                BackgroundTypeWallpaper::lemma_wire_wf(x);
            },
        }
    }

    proof fn lemma_round_trip(v: Self) {
        Self::lemma_tags_distinct();
        match v {
            BackgroundType::_Default(_) => {},
            BackgroundType::Fill(x) => {
                if x.wire_tree() is Some {
                    let t = x.wire_tree()->0;
                    BackgroundTypeFill::lemma_wire_tag(x);
                    BackgroundTypeFill::lemma_round_trip(x);
                    assert(Self::accepts(t));
                    assert forall|w: Self| Self::decodes_from(t, w) implies #[trigger] w.eqv(v) by {
                        assert(w matches BackgroundType::Fill(xi) && BackgroundTypeFill::decodes_from(t, xi));
                    }
                }
            },
            BackgroundType::Pattern(x) => {
                if x.wire_tree() is Some {
                    let t = x.wire_tree()->0;
                    BackgroundTypePattern::lemma_wire_tag(x);
                    BackgroundTypePattern::lemma_round_trip(x);
                    assert(Self::accepts(t));
                    assert forall|w: Self| Self::decodes_from(t, w) implies #[trigger] w.eqv(v) by {
                        assert(w matches BackgroundType::Pattern(xi) && BackgroundTypePattern::decodes_from(t, xi));
                    }
                }
            },
            BackgroundType::Wallpaper(x) => {
                if x.wire_tree() is Some {
                    let t = x.wire_tree()->0;
                    BackgroundTypeWallpaper::lemma_wire_tag(x);
                    BackgroundTypeWallpaper::lemma_round_trip(x);
                    assert(Self::accepts(t));
                    assert forall|w: Self| Self::decodes_from(t, w) implies #[trigger] w.eqv(v) by {
                        assert(w matches BackgroundType::Wallpaper(xi) && BackgroundTypeWallpaper::decodes_from(t, xi));
                    }
                }
            },
        }
    }
}

impl RObject for BackgroundType {
    open spec fn tag_chars(&self) -> Seq<char> {
        match self {
            BackgroundType::_Default(_) => "-1"@,
            BackgroundType::Fill(x) => BackgroundTypeFill::tag_spec(),
            BackgroundType::Pattern(x) => BackgroundTypePattern::tag_spec(),
            BackgroundType::Wallpaper(x) => BackgroundTypeWallpaper::tag_spec(),
        }
    }

    open spec fn extra_spec(&self) -> Option<Seq<char>> {
        match self {
            BackgroundType::_Default(_) => None,
            BackgroundType::Fill(x) => opt_str_view(x.extra),
            BackgroundType::Pattern(x) => opt_str_view(x.extra),
            BackgroundType::Wallpaper(x) => opt_str_view(x.extra),
    }
    }

    fn td_name(&self) -> (r: &'static str) {
        match self {
            BackgroundType::_Default(_) => "-1",
            BackgroundType::Fill(x) => x.td_name(),
            BackgroundType::Pattern(x) => x.td_name(),
            BackgroundType::Wallpaper(x) => x.td_name(),
        }
    }

    fn extra(&self) -> (r: Option<String>) {
        match self {
            BackgroundType::_Default(_) => None,
            BackgroundType::Fill(x) => clone_opt_string(&x.extra),
            BackgroundType::Pattern(x) => clone_opt_string(&x.extra),
            BackgroundType::Wallpaper(x) => clone_opt_string(&x.extra),
        }
    }

    fn to_json(&self) -> (r: Result<String, EncodeError>) {
        crate::object::encode(self)
    }
}

impl BackgroundType {
    pub fn from_json(json: &str) -> (r: Result<BackgroundType, DecodeError>)
        ensures
            match crate::parse::parse_doc(json@) {
                Some(t) => match r {
                    Ok(v) => Self::accepts(t) && Self::decodes_from(t, v),
                    Err(e) => !Self::accepts(t) && crate::errors::err_matches(e, Self::err_of(t)),
                },
                None => r matches Err(e) && e == DecodeError::Malformed,
            },
    {
        crate::object::from_json::<BackgroundType>(json)
    }

    pub fn _is_default(&self) -> (r: bool)
        ensures
            r == (self is _Default),
    {
        match self {
            BackgroundType::_Default(_) => true,
            _ => false,
        }
    }

    pub fn is_fill(&self) -> (r: bool)
        ensures
            r == (self is Fill),
    {
        match self {
            BackgroundType::Fill(_) => true,
            _ => false,
        }
    }

    pub fn is_pattern(&self) -> (r: bool)
        ensures
            r == (self is Pattern),
    {
        match self {
            BackgroundType::Pattern(_) => true,
            _ => false,
        }
    }

    pub fn is_wallpaper(&self) -> (r: bool)
        ensures
            r == (self is Wallpaper),
    {
        match self {
            BackgroundType::Wallpaper(_) => true,
            _ => false,
        }
    }

    pub fn as_fill(&self) -> (r: Option<&BackgroundTypeFill>)
        ensures
            (self is Fill) == (r is Some),
            r matches Some(x) ==> *x == self->Fill_0,
    {
        match self {
            BackgroundType::Fill(x) => Some(x),
            _ => None,
        }
    }

    pub fn as_pattern(&self) -> (r: Option<&BackgroundTypePattern>)
        ensures
            (self is Pattern) == (r is Some),
            r matches Some(x) ==> *x == self->Pattern_0,
    {
        match self {
            BackgroundType::Pattern(x) => Some(x),
            _ => None,
        }
    }

    pub fn as_wallpaper(&self) -> (r: Option<&BackgroundTypeWallpaper>)
        ensures
            (self is Wallpaper) == (r is Some),
            r matches Some(x) ==> *x == self->Wallpaper_0,
    {
        match self {
            BackgroundType::Wallpaper(x) => Some(x),
            _ => None,
        }
    }

    pub fn fill(t: &BackgroundTypeFill) -> (r: Self)
        ensures
            r matches BackgroundType::Fill(x) && x.eqv(*t),
    {
        BackgroundType::Fill(t.clone())
    }

    pub fn pattern(t: &BackgroundTypePattern) -> (r: Self)
        ensures
            r matches BackgroundType::Pattern(x) && x.eqv(*t),
    {
        BackgroundType::Pattern(t.clone())
    }

    pub fn wallpaper(t: &BackgroundTypeWallpaper) -> (r: Self)
        ensures
            r matches BackgroundType::Wallpaper(x) && x.eqv(*t),
    {
        BackgroundType::Wallpaper(t.clone())
    }
}
/// A filled background
#[derive(Debug, PartialEq)]
pub struct BackgroundTypeFill {
    pub extra: Option<String>,
}

impl BackgroundTypeFill {
    pub open spec fn tag_spec() -> Seq<char> {
        "backgroundTypeFill"@
    }

    /// The members of the wire object, in the order they are written.
    pub open spec fn members_spec(self) -> Seq<(Seq<char>, SpecJson)> {
        seq![
            ("@type"@, SpecJson::Str(Self::tag_spec())),
            ("@extra"@, opt_str_tree(opt_str_view(self.extra))),
        ]
    }

    pub open spec fn fields_ok(t: SpecJson) -> bool {
        &&& ok_opt_str(t, "@extra"@)
    }

    pub open spec fn fail_field(t: SpecJson) -> Seq<char> {
        if !ok_opt_str(t, "@extra"@) {
            "@extra"@
        } else {
            Seq::empty()
        }
    }

    /// The encoding of a value carries exactly this type's tag.
    pub proof fn lemma_wire_tag(v: BackgroundTypeFill)
        ensures
            v.wire_tree() matches Some(t) ==> tag_of(t) == Some(BackgroundTypeFill::tag_spec()),
    {
        if v.wire_tree() is Some {
            let t = v.wire_tree()->0;
            let ms = t->Obj_0;
            lemma_get_spec_found(ms, "@type"@, 0);
        }
    }
}

impl Clone for BackgroundTypeFill {
    fn clone(&self) -> (res: Self)
        ensures
            res.eqv(*self),
    {
        BackgroundTypeFill {
            extra: clone_opt_string(&self.extra),
        }
    }
}

impl Wire for BackgroundTypeFill {
    open spec fn wire_tree(self) -> Option<SpecJson> {
        Some(SpecJson::Obj(self.members_spec()))
    }

    open spec fn accepts(t: SpecJson) -> bool {
        tag_of(t) is Some && Self::fields_ok(t)
    }

    open spec fn err_of(t: SpecJson) -> SpecDecodeError {
        match tag_of(t) {
            None => SpecDecodeError::Malformed,
            Some(_) => SpecDecodeError::FieldShapeMismatch(Self::tag_spec(), Self::fail_field(t)),
        }
    }

    open spec fn decodes_from(t: SpecJson, v: Self) -> bool {
        &&& m_opt_str(t, "@extra"@, v.extra)
    }

    open spec fn eqv(self, other: Self) -> bool {
        &&& eqv_opt_string(self.extra, other.extra)
    }

    fn clone_val(&self) -> (r: Self) {
        self.clone()
    }

    fn decode_tree(t: &JsonValue) -> (r: Result<Self, DecodeError>) {
        if get_tag(t).is_none() {
            return Err(DecodeError::Malformed);
        }
        let extra = match field_opt_string(t, "@extra") {
            Some(x) => x,
            None => {
                return Err(DecodeError::FieldShapeMismatch(
                    String::from_str("backgroundTypeFill"),
                    String::from_str("@extra"),
                ));
            },
        };
        Ok(BackgroundTypeFill { extra })
    }

    fn encode_tree(&self) -> (r: Result<JsonValue, EncodeError>) {
        let mut members: Vec<JsonMember> = Vec::new();
        proof {
            assert(view_members(members@) =~= Seq::<(Seq<char>, SpecJson)>::empty());
        }
        push_member(&mut members, "@type", JsonValue::Str(String::from_str("backgroundTypeFill")));
        push_member(&mut members, "@extra", opt_string_tree(&self.extra));
        let node = JsonValue::Obj(members);
        proof {
            assert(view_members(members@) =~= self.members_spec());
            assert(node@ == self.wire_tree()->0);
        }
        Ok(node)
    }

    proof fn lemma_wire_wf(v: Self) {
        if v.wire_tree() is Some {
            let t = v.wire_tree()->0;
            let ms = t->Obj_0;
            assert(ms == v.members_spec());
            assert forall|i: int| 0 <= i < ms.len() implies wf(#[trigger] ms[i].1) by {
            }
        }
    }

    proof fn lemma_round_trip(v: Self) {
        if v.wire_tree() is Some {
            let t = v.wire_tree()->0;
            let ms = t->Obj_0;
            assert(ms == v.members_spec());
            reveal_strlit("@type");
            reveal_strlit("@extra");
            assert("@type"@.len() == 5);
            assert("@extra"@.len() == 6);
            reveal_with_fuel(get_spec, 4);
            lemma_get_spec_found(ms, "@type"@, 0);
            lemma_get_spec_found(ms, "@extra"@, 1);
            assert(tag_of(t) == Some(Self::tag_spec()));
            assert(ok_opt_str(t, "@extra"@));
            assert(Self::accepts(t));
            assert forall|w: Self| Self::decodes_from(t, w) implies #[trigger] w.eqv(v) by {
            }
        }
    }
}

impl RObject for BackgroundTypeFill {
    open spec fn tag_chars(&self) -> Seq<char> {
        Self::tag_spec()
    }

    open spec fn extra_spec(&self) -> Option<Seq<char>> {
        opt_str_view(self.extra)
    }

    fn td_name(&self) -> (r: &'static str) {
        "backgroundTypeFill"
    }

    fn extra(&self) -> (r: Option<String>) {
        clone_opt_string(&self.extra)
    }

    fn to_json(&self) -> (r: Result<String, EncodeError>) {
        crate::object::encode(self)
    }
}

impl TDBackgroundType for BackgroundTypeFill {

}

impl BackgroundTypeFill {
    pub fn from_json(json: &str) -> (r: Result<BackgroundTypeFill, DecodeError>)
        ensures
            match crate::parse::parse_doc(json@) {
                Some(t) => match r {
                    Ok(v) => Self::accepts(t) && Self::decodes_from(t, v),
                    Err(e) => !Self::accepts(t) && crate::errors::err_matches(e, Self::err_of(t)),
                },
                None => r matches Err(e) && e == DecodeError::Malformed,
            },
    {
        crate::object::from_json::<BackgroundTypeFill>(json)
    }

    pub fn builder() -> (r: RTDBackgroundTypeFillBuilder)
        ensures
            r.inner.extra is Some,
    {
        RTDBackgroundTypeFillBuilder {
            inner: BackgroundTypeFill {
                extra: Some(new_token()),
            },
        }
    }
}

pub struct RTDBackgroundTypeFillBuilder {
    pub inner: BackgroundTypeFill,
}

impl RTDBackgroundTypeFillBuilder {
    pub fn build(&self) -> (r: BackgroundTypeFill)
        ensures
            r.eqv(self.inner),
    {
        self.inner.clone()
    }
}
/// A PNG or TGV (gzipped subset of SVG with MIME type "application/x-tgwallpattern") pattern to be combined with the background fill chosen by the user
#[derive(Debug, PartialEq)]
pub struct BackgroundTypePattern {
    pub extra: Option<String>,
    /// Intensity of the pattern when it is shown above the filled background; 0-100.
    pub intensity: i64,
    /// True, if the background fill must be applied only to the pattern itself. All other pixels are black in this case. For dark themes only
    pub is_inverted: bool,
    /// True, if the background needs to be slightly moved when device is tilted
    pub is_moving: bool,
}

impl BackgroundTypePattern {
    pub open spec fn tag_spec() -> Seq<char> {
        "backgroundTypePattern"@
    }

    /// The members of the wire object, in the order they are written.
    pub open spec fn members_spec(self) -> Seq<(Seq<char>, SpecJson)> {
        seq![
            ("@type"@, SpecJson::Str(Self::tag_spec())),
            ("@extra"@, opt_str_tree(opt_str_view(self.extra))),
            ("intensity"@, SpecJson::Num(i64_lex(self.intensity as int))),
            ("is_inverted"@, SpecJson::Bool(self.is_inverted)),
            ("is_moving"@, SpecJson::Bool(self.is_moving)),
        ]
    }

    pub open spec fn fields_ok(t: SpecJson) -> bool {
        &&& ok_opt_str(t, "@extra"@)
        &&& ok_i64(t, "intensity"@)
        &&& ok_bool(t, "is_inverted"@)
        &&& ok_bool(t, "is_moving"@)
    }

    pub open spec fn fail_field(t: SpecJson) -> Seq<char> {
        if !ok_opt_str(t, "@extra"@) {
            "@extra"@
        } else if !(ok_i64(t, "intensity"@)) {
            "intensity"@
        } else if !(ok_bool(t, "is_inverted"@)) {
            "is_inverted"@
        } else if !(ok_bool(t, "is_moving"@)) {
            "is_moving"@
        } else {
            Seq::empty()
        }
    }

    /// The encoding of a value carries exactly this type's tag.
    pub proof fn lemma_wire_tag(v: BackgroundTypePattern)
        ensures
            v.wire_tree() matches Some(t) ==> tag_of(t) == Some(BackgroundTypePattern::tag_spec()),
    {
        if v.wire_tree() is Some {
            let t = v.wire_tree()->0;
            let ms = t->Obj_0;
            lemma_get_spec_found(ms, "@type"@, 0);
        }
    }
}

impl Clone for BackgroundTypePattern {
    fn clone(&self) -> (res: Self)
        ensures
            res.eqv(*self),
    {
        BackgroundTypePattern {
            extra: clone_opt_string(&self.extra),
            intensity: self.intensity,
            is_inverted: self.is_inverted,
            is_moving: self.is_moving,
        }
    }
}

impl Wire for BackgroundTypePattern {
    open spec fn wire_tree(self) -> Option<SpecJson> {
        Some(SpecJson::Obj(self.members_spec()))
    }

    open spec fn accepts(t: SpecJson) -> bool {
        tag_of(t) is Some && Self::fields_ok(t)
    }

    open spec fn err_of(t: SpecJson) -> SpecDecodeError {
        match tag_of(t) {
            None => SpecDecodeError::Malformed,
            Some(_) => SpecDecodeError::FieldShapeMismatch(Self::tag_spec(), Self::fail_field(t)),
        }
    }

    open spec fn decodes_from(t: SpecJson, v: Self) -> bool {
        &&& m_opt_str(t, "@extra"@, v.extra)
        &&& m_i64(t, "intensity"@, v.intensity)
        &&& m_bool(t, "is_inverted"@, v.is_inverted)
        &&& m_bool(t, "is_moving"@, v.is_moving)
    }

    open spec fn eqv(self, other: Self) -> bool {
        &&& eqv_opt_string(self.extra, other.extra)
        &&& self.intensity == other.intensity
        &&& self.is_inverted == other.is_inverted
        &&& self.is_moving == other.is_moving
    }

    fn clone_val(&self) -> (r: Self) {
        self.clone()
    }

    fn decode_tree(t: &JsonValue) -> (r: Result<Self, DecodeError>) {
        if get_tag(t).is_none() {
            return Err(DecodeError::Malformed);
        }
        let extra = match field_opt_string(t, "@extra") {
            Some(x) => x,
            None => {
                return Err(DecodeError::FieldShapeMismatch(
                    String::from_str("backgroundTypePattern"),
                    String::from_str("@extra"),
                ));
            },
        };
        let intensity = match field_i64(t, "intensity") {
            Some(x) => x,
            None => {
                return Err(DecodeError::FieldShapeMismatch(
                    String::from_str("backgroundTypePattern"),
                    String::from_str("intensity"),
                ));
            },
        };
        let is_inverted = match field_bool(t, "is_inverted") {
            Some(x) => x,
            None => {
                return Err(DecodeError::FieldShapeMismatch(
                    String::from_str("backgroundTypePattern"),
                    String::from_str("is_inverted"),
                ));
            },
        };
        let is_moving = match field_bool(t, "is_moving") {
            Some(x) => x,
            None => {
                return Err(DecodeError::FieldShapeMismatch(
                    String::from_str("backgroundTypePattern"),
                    String::from_str("is_moving"),
                ));
            },
        };
        Ok(BackgroundTypePattern { extra, intensity, is_inverted, is_moving })
    }

    fn encode_tree(&self) -> (r: Result<JsonValue, EncodeError>) {
        let mut members: Vec<JsonMember> = Vec::new();
        proof {
            assert(view_members(members@) =~= Seq::<(Seq<char>, SpecJson)>::empty());
        }
        push_member(&mut members, "@type", JsonValue::Str(String::from_str("backgroundTypePattern")));
        push_member(&mut members, "@extra", opt_string_tree(&self.extra));
        push_member(&mut members, "intensity", JsonValue::Num(i64_lexeme(self.intensity)));
        push_member(&mut members, "is_inverted", JsonValue::Bool(self.is_inverted));
        push_member(&mut members, "is_moving", JsonValue::Bool(self.is_moving));
        let node = JsonValue::Obj(members);
        proof {
            assert(view_members(members@) =~= self.members_spec());
            assert(node@ == self.wire_tree()->0);
        }
        Ok(node)
    }

    proof fn lemma_wire_wf(v: Self) {
        if v.wire_tree() is Some {
            let t = v.wire_tree()->0;
            let ms = t->Obj_0;
            assert(ms == v.members_spec());
            crate::json::lemma_i64_lex(v.intensity);
            assert forall|i: int| 0 <= i < ms.len() implies wf(#[trigger] ms[i].1) by {
            }
        }
    }

    proof fn lemma_round_trip(v: Self) {
        if v.wire_tree() is Some {
            let t = v.wire_tree()->0;
            let ms = t->Obj_0;
            assert(ms == v.members_spec());
            reveal_strlit("@type");
            reveal_strlit("@extra");
            reveal_strlit("intensity");
            reveal_strlit("is_inverted");
            reveal_strlit("is_moving");
            assert("@type"@.len() == 5);
            assert("@extra"@.len() == 6);
            assert("intensity"@.len() == 9);
            assert("is_inverted"@.len() == 11);
            assert("is_moving"@.len() == 9);
            assert("intensity"@[1] == 'n' && "is_moving"@[1] == 's');
            reveal_with_fuel(get_spec, 7);
            lemma_get_spec_found(ms, "@type"@, 0);
            lemma_get_spec_found(ms, "@extra"@, 1);
            lemma_get_spec_found(ms, "intensity"@, 2);
            lemma_get_spec_found(ms, "is_inverted"@, 3);
            lemma_get_spec_found(ms, "is_moving"@, 4);
            assert(tag_of(t) == Some(Self::tag_spec()));
            assert(ok_opt_str(t, "@extra"@));
            crate::json::lemma_i64_lex(v.intensity);
            assert(ok_i64(t, "intensity"@));
            assert(ok_bool(t, "is_inverted"@));
            assert(ok_bool(t, "is_moving"@));
            assert(Self::accepts(t));
            assert forall|w: Self| Self::decodes_from(t, w) implies #[trigger] w.eqv(v) by {
            }
        }
    }
}

impl RObject for BackgroundTypePattern {
    open spec fn tag_chars(&self) -> Seq<char> {
        Self::tag_spec()
    }

    open spec fn extra_spec(&self) -> Option<Seq<char>> {
        opt_str_view(self.extra)
    }

    fn td_name(&self) -> (r: &'static str) {
        "backgroundTypePattern"
    }

    fn extra(&self) -> (r: Option<String>) {
        clone_opt_string(&self.extra)
    }

    fn to_json(&self) -> (r: Result<String, EncodeError>) {
        crate::object::encode(self)
    }
}

impl TDBackgroundType for BackgroundTypePattern {

}

impl BackgroundTypePattern {
    pub fn from_json(json: &str) -> (r: Result<BackgroundTypePattern, DecodeError>)
        ensures
            match crate::parse::parse_doc(json@) {
                Some(t) => match r {
                    Ok(v) => Self::accepts(t) && Self::decodes_from(t, v),
                    Err(e) => !Self::accepts(t) && crate::errors::err_matches(e, Self::err_of(t)),
                },
                None => r matches Err(e) && e == DecodeError::Malformed,
            },
    {
        crate::object::from_json::<BackgroundTypePattern>(json)
    }

    pub fn builder() -> (r: RTDBackgroundTypePatternBuilder)
        ensures
            r.inner.extra is Some,
            r.inner.intensity == 0,
            r.inner.is_inverted == false,
            r.inner.is_moving == false,
    {
        RTDBackgroundTypePatternBuilder {
            inner: BackgroundTypePattern {
                extra: Some(new_token()),
                intensity: 0,
                is_inverted: false,
                is_moving: false,
            },
        }
    }

    pub fn intensity(&self) -> (r: i64)
        ensures
            r == self.intensity,
    {
        self.intensity
    }

    pub fn is_inverted(&self) -> (r: bool)
        ensures
            r == self.is_inverted,
    {
        self.is_inverted
    }

    pub fn is_moving(&self) -> (r: bool)
        ensures
            r == self.is_moving,
    {
        self.is_moving
    }
}

pub struct RTDBackgroundTypePatternBuilder {
    pub inner: BackgroundTypePattern,
}

impl RTDBackgroundTypePatternBuilder {
    pub fn build(&self) -> (r: BackgroundTypePattern)
        ensures
            r.eqv(self.inner),
    {
        self.inner.clone()
    }

    pub fn intensity(&mut self, intensity: i64) -> (r: &mut Self)
        ensures
            *r == (RTDBackgroundTypePatternBuilder { inner: BackgroundTypePattern { intensity: intensity, ..old(self).inner } }),
            *final(self) == *final(r),
    {
        self.inner.intensity = intensity;
        self
    }

    pub fn is_inverted(&mut self, is_inverted: bool) -> (r: &mut Self)
        ensures
            *r == (RTDBackgroundTypePatternBuilder { inner: BackgroundTypePattern { is_inverted: is_inverted, ..old(self).inner } }),
            *final(self) == *final(r),
    {
        self.inner.is_inverted = is_inverted;
        self
    }

    pub fn is_moving(&mut self, is_moving: bool) -> (r: &mut Self)
        ensures
            *r == (RTDBackgroundTypePatternBuilder { inner: BackgroundTypePattern { is_moving: is_moving, ..old(self).inner } }),
            *final(self) == *final(r),
    {
        self.inner.is_moving = is_moving;
        self
    }
}
/// A wallpaper in JPEG format
#[derive(Debug, PartialEq)]
pub struct BackgroundTypeWallpaper {
    pub extra: Option<String>,
    /// True, if the wallpaper must be downscaled to fit in 450x450 square and then box-blurred with radius 12
    pub is_blurred: bool,
    /// True, if the background needs to be slightly moved when device is tilted
    pub is_moving: bool,
}

impl BackgroundTypeWallpaper {
    pub open spec fn tag_spec() -> Seq<char> {
        "backgroundTypeWallpaper"@
    }

    /// The members of the wire object, in the order they are written.
    pub open spec fn members_spec(self) -> Seq<(Seq<char>, SpecJson)> {
        seq![
            ("@type"@, SpecJson::Str(Self::tag_spec())),
            ("@extra"@, opt_str_tree(opt_str_view(self.extra))),
            ("is_blurred"@, SpecJson::Bool(self.is_blurred)),
            ("is_moving"@, SpecJson::Bool(self.is_moving)),
        ]
    }

    pub open spec fn fields_ok(t: SpecJson) -> bool {
        &&& ok_opt_str(t, "@extra"@)
        &&& ok_bool(t, "is_blurred"@)
        &&& ok_bool(t, "is_moving"@)
    }

    pub open spec fn fail_field(t: SpecJson) -> Seq<char> {
        if !ok_opt_str(t, "@extra"@) {
            "@extra"@
        } else if !(ok_bool(t, "is_blurred"@)) {
            "is_blurred"@
        } else if !(ok_bool(t, "is_moving"@)) {
            "is_moving"@
        } else {
            Seq::empty()
        }
    }

    /// The encoding of a value carries exactly this type's tag.
    pub proof fn lemma_wire_tag(v: BackgroundTypeWallpaper)
        ensures
            v.wire_tree() matches Some(t) ==> tag_of(t) == Some(BackgroundTypeWallpaper::tag_spec()),
    {
        if v.wire_tree() is Some {
            let t = v.wire_tree()->0;
            let ms = t->Obj_0;
            lemma_get_spec_found(ms, "@type"@, 0);
        }
    }
}

impl Clone for BackgroundTypeWallpaper {
    fn clone(&self) -> (res: Self)
        ensures
            res.eqv(*self),
    {
        BackgroundTypeWallpaper {
            extra: clone_opt_string(&self.extra),
            is_blurred: self.is_blurred,
            is_moving: self.is_moving,
        }
    }
}

impl Wire for BackgroundTypeWallpaper {
    open spec fn wire_tree(self) -> Option<SpecJson> {
        Some(SpecJson::Obj(self.members_spec()))
    }

    open spec fn accepts(t: SpecJson) -> bool {
        tag_of(t) is Some && Self::fields_ok(t)
    }

    open spec fn err_of(t: SpecJson) -> SpecDecodeError {
        match tag_of(t) {
            None => SpecDecodeError::Malformed,
            Some(_) => SpecDecodeError::FieldShapeMismatch(Self::tag_spec(), Self::fail_field(t)),
        }
    }

    open spec fn decodes_from(t: SpecJson, v: Self) -> bool {
        &&& m_opt_str(t, "@extra"@, v.extra)
        &&& m_bool(t, "is_blurred"@, v.is_blurred)
        &&& m_bool(t, "is_moving"@, v.is_moving)
    }

    open spec fn eqv(self, other: Self) -> bool {
        &&& eqv_opt_string(self.extra, other.extra)
        &&& self.is_blurred == other.is_blurred
        &&& self.is_moving == other.is_moving
    }

    fn clone_val(&self) -> (r: Self) {
        self.clone()
    }

    fn decode_tree(t: &JsonValue) -> (r: Result<Self, DecodeError>) {
        if get_tag(t).is_none() {
            return Err(DecodeError::Malformed);
        }
        let extra = match field_opt_string(t, "@extra") {
            Some(x) => x,
            None => {
                return Err(DecodeError::FieldShapeMismatch(
                    String::from_str("backgroundTypeWallpaper"),
                    String::from_str("@extra"),
                ));
            },
        };
        let is_blurred = match field_bool(t, "is_blurred") {
            Some(x) => x,
            None => {
                return Err(DecodeError::FieldShapeMismatch(
                    String::from_str("backgroundTypeWallpaper"),
                    String::from_str("is_blurred"),
                ));
            },
        };
        let is_moving = match field_bool(t, "is_moving") {
            Some(x) => x,
            None => {
                return Err(DecodeError::FieldShapeMismatch(
                    String::from_str("backgroundTypeWallpaper"),
                    String::from_str("is_moving"),
                ));
            },
        };
        Ok(BackgroundTypeWallpaper { extra, is_blurred, is_moving })
    }

    fn encode_tree(&self) -> (r: Result<JsonValue, EncodeError>) {
        let mut members: Vec<JsonMember> = Vec::new();
        proof {
            assert(view_members(members@) =~= Seq::<(Seq<char>, SpecJson)>::empty());
        }
        push_member(&mut members, "@type", JsonValue::Str(String::from_str("backgroundTypeWallpaper")));
        push_member(&mut members, "@extra", opt_string_tree(&self.extra));
        push_member(&mut members, "is_blurred", JsonValue::Bool(self.is_blurred));
        push_member(&mut members, "is_moving", JsonValue::Bool(self.is_moving));
        let node = JsonValue::Obj(members);
        proof {
            assert(view_members(members@) =~= self.members_spec());
            assert(node@ == self.wire_tree()->0);
        }
        Ok(node)
    }

    proof fn lemma_wire_wf(v: Self) {
        if v.wire_tree() is Some {
            let t = v.wire_tree()->0;
            let ms = t->Obj_0;
            assert(ms == v.members_spec());
            assert forall|i: int| 0 <= i < ms.len() implies wf(#[trigger] ms[i].1) by {
            }
        }
    }

    proof fn lemma_round_trip(v: Self) {
        if v.wire_tree() is Some {
            let t = v.wire_tree()->0;
            let ms = t->Obj_0;
            assert(ms == v.members_spec());
            reveal_strlit("@type");
            reveal_strlit("@extra");
            reveal_strlit("is_blurred");
            reveal_strlit("is_moving");
            assert("@type"@.len() == 5);
            assert("@extra"@.len() == 6);
            assert("is_blurred"@.len() == 10);
            assert("is_moving"@.len() == 9);
            reveal_with_fuel(get_spec, 6);
            lemma_get_spec_found(ms, "@type"@, 0);
            lemma_get_spec_found(ms, "@extra"@, 1);
            lemma_get_spec_found(ms, "is_blurred"@, 2);
            lemma_get_spec_found(ms, "is_moving"@, 3);
            assert(tag_of(t) == Some(Self::tag_spec()));
            assert(ok_opt_str(t, "@extra"@));
            assert(ok_bool(t, "is_blurred"@));
            assert(ok_bool(t, "is_moving"@));
            assert(Self::accepts(t));
            assert forall|w: Self| Self::decodes_from(t, w) implies #[trigger] w.eqv(v) by {
            }
        }
    }
}

impl RObject for BackgroundTypeWallpaper {
    open spec fn tag_chars(&self) -> Seq<char> {
        Self::tag_spec()
    }

    open spec fn extra_spec(&self) -> Option<Seq<char>> {
        opt_str_view(self.extra)
    }

    fn td_name(&self) -> (r: &'static str) {
        "backgroundTypeWallpaper"
    }

    fn extra(&self) -> (r: Option<String>) {
        clone_opt_string(&self.extra)
    }

    fn to_json(&self) -> (r: Result<String, EncodeError>) {
        crate::object::encode(self)
    }
}

impl TDBackgroundType for BackgroundTypeWallpaper {

}

impl BackgroundTypeWallpaper {
    pub fn from_json(json: &str) -> (r: Result<BackgroundTypeWallpaper, DecodeError>)
        ensures
            match crate::parse::parse_doc(json@) {
                Some(t) => match r {
                    Ok(v) => Self::accepts(t) && Self::decodes_from(t, v),
                    Err(e) => !Self::accepts(t) && crate::errors::err_matches(e, Self::err_of(t)),
                },
                None => r matches Err(e) && e == DecodeError::Malformed,
            },
    {
        crate::object::from_json::<BackgroundTypeWallpaper>(json)
    }

    pub fn builder() -> (r: RTDBackgroundTypeWallpaperBuilder)
        ensures
            r.inner.extra is Some,
            r.inner.is_blurred == false,
            r.inner.is_moving == false,
    {
        RTDBackgroundTypeWallpaperBuilder {
            inner: BackgroundTypeWallpaper {
                extra: Some(new_token()),
                is_blurred: false,
                is_moving: false,
            },
        }
    }

    pub fn is_blurred(&self) -> (r: bool)
        ensures
            r == self.is_blurred,
    {
        self.is_blurred
    }

    pub fn is_moving(&self) -> (r: bool)
        ensures
            r == self.is_moving,
    {
        self.is_moving
    }
}

pub struct RTDBackgroundTypeWallpaperBuilder {
    pub inner: BackgroundTypeWallpaper,
}

impl RTDBackgroundTypeWallpaperBuilder {
    pub fn build(&self) -> (r: BackgroundTypeWallpaper)
        ensures
            r.eqv(self.inner),
    {
        self.inner.clone()
    }

    pub fn is_blurred(&mut self, is_blurred: bool) -> (r: &mut Self)
        ensures
            *r == (RTDBackgroundTypeWallpaperBuilder { inner: BackgroundTypeWallpaper { is_blurred: is_blurred, ..old(self).inner } }),
            *final(self) == *final(r),
    {
        self.inner.is_blurred = is_blurred;
        self
    }

    pub fn is_moving(&mut self, is_moving: bool) -> (r: &mut Self)
        ensures
            *r == (RTDBackgroundTypeWallpaperBuilder { inner: BackgroundTypeWallpaper { is_moving: is_moving, ..old(self).inner } }),
            *final(self) == *final(r),
    {
        self.inner.is_moving = is_moving;
        self
    }
}
} // verus!
