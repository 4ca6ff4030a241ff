use vstd::prelude::*;

use crate::errors::DecodeError;
use crate::errors::EncodeError;
use crate::errors::SpecDecodeError;
use crate::json::JsonMember;
use crate::json::JsonValue;
use crate::json::SpecJson;
use crate::json::i64_lex;
use crate::json::view_members;
use crate::json::wf;
use crate::object::RObject;
use crate::object::Wire;
use crate::object::clone_opt_string;
use crate::object::eqv_opt_string;
use crate::object::field_i64;
use crate::object::field_opt_string;
use crate::object::field_string;
use crate::object::get_spec;
use crate::object::get_tag;
use crate::object::i64_lexeme;
use crate::object::lemma_get_spec_found;
use crate::object::m_i64;
use crate::object::m_opt_str;
use crate::object::m_str;
use crate::object::new_token;
use crate::object::ok_i64;
use crate::object::ok_opt_str;
use crate::object::ok_str;
use crate::object::opt_str_tree;
use crate::object::opt_str_view;
use crate::object::opt_string_tree;
use crate::object::push_member;
use crate::object::str_eq;
use crate::object::tag_of;

verus! {

/// Represents a part of the text which must be formatted differently
pub trait TDTextEntityType: RObject {

}

/// Represents a part of the text which must be formatted differently
#[derive(Debug, PartialEq)]
pub enum TextEntityType {
    _Default(()),
    /// A bank card number. The getBankCardInfo method can be used to get information about the bank card
    BankCardNumber(TextEntityTypeBankCardNumber),
    /// A bold text
    Bold(TextEntityTypeBold),
    /// A bot command, beginning with "/"
    BotCommand(TextEntityTypeBotCommand),
    /// A cashtag text, beginning with "$" and consisting of capital English letters (e.g., "$USD")
    Cashtag(TextEntityTypeCashtag),
    /// Text that must be formatted as if inside a code HTML tag
    Code(TextEntityTypeCode),
    /// An email address
    EmailAddress(TextEntityTypeEmailAddress),
    /// A hashtag text, beginning with "#"
    Hashtag(TextEntityTypeHashtag),
    /// An italic text
    Italic(TextEntityTypeItalic),
    /// A media timestamp
    MediaTimestamp(TextEntityTypeMediaTimestamp),
    /// A mention of a user by their username
    Mention(TextEntityTypeMention),
    /// A text shows instead of a raw mention of the user (e.g., when the user has no username)
    MentionName(TextEntityTypeMentionName),
    /// A phone number
    PhoneNumber(TextEntityTypePhoneNumber),
    /// Text that must be formatted as if inside a pre HTML tag
    Pre(TextEntityTypePre),
    /// Text that must be formatted as if inside pre, and code HTML tags
    PreCode(TextEntityTypePreCode),
    /// A strikethrough text
    Strikethrough(TextEntityTypeStrikethrough),
    /// A text description shown instead of a raw URL
    TextUrl(TextEntityTypeTextUrl),
    /// An underlined text
    Underline(TextEntityTypeUnderline),
    /// An HTTP URL
    Url(TextEntityTypeUrl),
}

impl Clone for TextEntityType {
    fn clone(&self) -> (res: Self)
        ensures
            res.eqv(*self),
    {
        match self {
            TextEntityType::_Default(_) => TextEntityType::_Default(()),
            TextEntityType::BankCardNumber(x) => TextEntityType::BankCardNumber(x.clone()),
            TextEntityType::Bold(x) => TextEntityType::Bold(x.clone()),
            TextEntityType::BotCommand(x) => TextEntityType::BotCommand(x.clone()),
            TextEntityType::Cashtag(x) => TextEntityType::Cashtag(x.clone()),
            TextEntityType::Code(x) => TextEntityType::Code(x.clone()),
            TextEntityType::EmailAddress(x) => TextEntityType::EmailAddress(x.clone()),
            TextEntityType::Hashtag(x) => TextEntityType::Hashtag(x.clone()),
            TextEntityType::Italic(x) => TextEntityType::Italic(x.clone()),
            TextEntityType::MediaTimestamp(x) => TextEntityType::MediaTimestamp(x.clone()),
            TextEntityType::Mention(x) => TextEntityType::Mention(x.clone()),
            TextEntityType::MentionName(x) => TextEntityType::MentionName(x.clone()),
            TextEntityType::PhoneNumber(x) => TextEntityType::PhoneNumber(x.clone()),
            TextEntityType::Pre(x) => TextEntityType::Pre(x.clone()),
            TextEntityType::PreCode(x) => TextEntityType::PreCode(x.clone()),
            TextEntityType::Strikethrough(x) => TextEntityType::Strikethrough(x.clone()),
            TextEntityType::TextUrl(x) => TextEntityType::TextUrl(x.clone()),
            TextEntityType::Underline(x) => TextEntityType::Underline(x.clone()),
            TextEntityType::Url(x) => TextEntityType::Url(x.clone()),
        }
    }
}

impl TextEntityType {
    /// The tags of this variant's alternatives are pairwise distinct.
    pub proof fn lemma_tags_distinct()
        ensures
            "textEntityTypeBankCardNumber"@ != "textEntityTypeBold"@,
            "textEntityTypeBankCardNumber"@ != "textEntityTypeBotCommand"@,
            "textEntityTypeBankCardNumber"@ != "textEntityTypeCashtag"@,
            "textEntityTypeBankCardNumber"@ != "textEntityTypeCode"@,
            "textEntityTypeBankCardNumber"@ != "textEntityTypeEmailAddress"@,
            "textEntityTypeBankCardNumber"@ != "textEntityTypeHashtag"@,
            "textEntityTypeBankCardNumber"@ != "textEntityTypeItalic"@,
            "textEntityTypeBankCardNumber"@ != "textEntityTypeMediaTimestamp"@,
            "textEntityTypeBankCardNumber"@ != "textEntityTypeMention"@,
            "textEntityTypeBankCardNumber"@ != "textEntityTypeMentionName"@,
            "textEntityTypeBankCardNumber"@ != "textEntityTypePhoneNumber"@,
            "textEntityTypeBankCardNumber"@ != "textEntityTypePre"@,
            "textEntityTypeBankCardNumber"@ != "textEntityTypePreCode"@,
            "textEntityTypeBankCardNumber"@ != "textEntityTypeStrikethrough"@,
            "textEntityTypeBankCardNumber"@ != "textEntityTypeTextUrl"@,
            "textEntityTypeBankCardNumber"@ != "textEntityTypeUnderline"@,
            "textEntityTypeBankCardNumber"@ != "textEntityTypeUrl"@,
            "textEntityTypeBold"@ != "textEntityTypeBotCommand"@,
            "textEntityTypeBold"@ != "textEntityTypeCashtag"@,
            "textEntityTypeBold"@ != "textEntityTypeCode"@,
            "textEntityTypeBold"@ != "textEntityTypeEmailAddress"@,
            "textEntityTypeBold"@ != "textEntityTypeHashtag"@,
            "textEntityTypeBold"@ != "textEntityTypeItalic"@,
            "textEntityTypeBold"@ != "textEntityTypeMediaTimestamp"@,
            "textEntityTypeBold"@ != "textEntityTypeMention"@,
            "textEntityTypeBold"@ != "textEntityTypeMentionName"@,
            "textEntityTypeBold"@ != "textEntityTypePhoneNumber"@,
            "textEntityTypeBold"@ != "textEntityTypePre"@,
            "textEntityTypeBold"@ != "textEntityTypePreCode"@,
            "textEntityTypeBold"@ != "textEntityTypeStrikethrough"@,
            "textEntityTypeBold"@ != "textEntityTypeTextUrl"@,
            "textEntityTypeBold"@ != "textEntityTypeUnderline"@,
            "textEntityTypeBold"@ != "textEntityTypeUrl"@,
            "textEntityTypeBotCommand"@ != "textEntityTypeCashtag"@,
            "textEntityTypeBotCommand"@ != "textEntityTypeCode"@,
            "textEntityTypeBotCommand"@ != "textEntityTypeEmailAddress"@,
            "textEntityTypeBotCommand"@ != "textEntityTypeHashtag"@,
            "textEntityTypeBotCommand"@ != "textEntityTypeItalic"@,
            "textEntityTypeBotCommand"@ != "textEntityTypeMediaTimestamp"@,
            "textEntityTypeBotCommand"@ != "textEntityTypeMention"@,
            "textEntityTypeBotCommand"@ != "textEntityTypeMentionName"@,
            "textEntityTypeBotCommand"@ != "textEntityTypePhoneNumber"@,
            "textEntityTypeBotCommand"@ != "textEntityTypePre"@,
            "textEntityTypeBotCommand"@ != "textEntityTypePreCode"@,
            "textEntityTypeBotCommand"@ != "textEntityTypeStrikethrough"@,
            "textEntityTypeBotCommand"@ != "textEntityTypeTextUrl"@,
            "textEntityTypeBotCommand"@ != "textEntityTypeUnderline"@,
            "textEntityTypeBotCommand"@ != "textEntityTypeUrl"@,
            "textEntityTypeCashtag"@ != "textEntityTypeCode"@,
            "textEntityTypeCashtag"@ != "textEntityTypeEmailAddress"@,
            "textEntityTypeCashtag"@ != "textEntityTypeHashtag"@,
            "textEntityTypeCashtag"@ != "textEntityTypeItalic"@,
            "textEntityTypeCashtag"@ != "textEntityTypeMediaTimestamp"@,
            "textEntityTypeCashtag"@ != "textEntityTypeMention"@,
            "textEntityTypeCashtag"@ != "textEntityTypeMentionName"@,
            "textEntityTypeCashtag"@ != "textEntityTypePhoneNumber"@,
            "textEntityTypeCashtag"@ != "textEntityTypePre"@,
            "textEntityTypeCashtag"@ != "textEntityTypePreCode"@,
            "textEntityTypeCashtag"@ != "textEntityTypeStrikethrough"@,
            "textEntityTypeCashtag"@ != "textEntityTypeTextUrl"@,
            "textEntityTypeCashtag"@ != "textEntityTypeUnderline"@,
            "textEntityTypeCashtag"@ != "textEntityTypeUrl"@,
            "textEntityTypeCode"@ != "textEntityTypeEmailAddress"@,
            "textEntityTypeCode"@ != "textEntityTypeHashtag"@,
            "textEntityTypeCode"@ != "textEntityTypeItalic"@,
            "textEntityTypeCode"@ != "textEntityTypeMediaTimestamp"@,
            "textEntityTypeCode"@ != "textEntityTypeMention"@,
            "textEntityTypeCode"@ != "textEntityTypeMentionName"@,
            "textEntityTypeCode"@ != "textEntityTypePhoneNumber"@,
            "textEntityTypeCode"@ != "textEntityTypePre"@,
            "textEntityTypeCode"@ != "textEntityTypePreCode"@,
            "textEntityTypeCode"@ != "textEntityTypeStrikethrough"@,
            "textEntityTypeCode"@ != "textEntityTypeTextUrl"@,
            "textEntityTypeCode"@ != "textEntityTypeUnderline"@,
            "textEntityTypeCode"@ != "textEntityTypeUrl"@,
            "textEntityTypeEmailAddress"@ != "textEntityTypeHashtag"@,
            "textEntityTypeEmailAddress"@ != "textEntityTypeItalic"@,
            "textEntityTypeEmailAddress"@ != "textEntityTypeMediaTimestamp"@,
            "textEntityTypeEmailAddress"@ != "textEntityTypeMention"@,
            "textEntityTypeEmailAddress"@ != "textEntityTypeMentionName"@,
            "textEntityTypeEmailAddress"@ != "textEntityTypePhoneNumber"@,
            "textEntityTypeEmailAddress"@ != "textEntityTypePre"@,
            "textEntityTypeEmailAddress"@ != "textEntityTypePreCode"@,
            "textEntityTypeEmailAddress"@ != "textEntityTypeStrikethrough"@,
            "textEntityTypeEmailAddress"@ != "textEntityTypeTextUrl"@,
            "textEntityTypeEmailAddress"@ != "textEntityTypeUnderline"@,
            "textEntityTypeEmailAddress"@ != "textEntityTypeUrl"@,
            "textEntityTypeHashtag"@ != "textEntityTypeItalic"@,
            "textEntityTypeHashtag"@ != "textEntityTypeMediaTimestamp"@,
            "textEntityTypeHashtag"@ != "textEntityTypeMention"@,
            "textEntityTypeHashtag"@ != "textEntityTypeMentionName"@,
            "textEntityTypeHashtag"@ != "textEntityTypePhoneNumber"@,
            "textEntityTypeHashtag"@ != "textEntityTypePre"@,
            "textEntityTypeHashtag"@ != "textEntityTypePreCode"@,
            "textEntityTypeHashtag"@ != "textEntityTypeStrikethrough"@,
            "textEntityTypeHashtag"@ != "textEntityTypeTextUrl"@,
            "textEntityTypeHashtag"@ != "textEntityTypeUnderline"@,
            "textEntityTypeHashtag"@ != "textEntityTypeUrl"@,
            "textEntityTypeItalic"@ != "textEntityTypeMediaTimestamp"@,
            "textEntityTypeItalic"@ != "textEntityTypeMention"@,
            "textEntityTypeItalic"@ != "textEntityTypeMentionName"@,
            "textEntityTypeItalic"@ != "textEntityTypePhoneNumber"@,
            "textEntityTypeItalic"@ != "textEntityTypePre"@,
            "textEntityTypeItalic"@ != "textEntityTypePreCode"@,
            "textEntityTypeItalic"@ != "textEntityTypeStrikethrough"@,
            "textEntityTypeItalic"@ != "textEntityTypeTextUrl"@,
            "textEntityTypeItalic"@ != "textEntityTypeUnderline"@,
            "textEntityTypeItalic"@ != "textEntityTypeUrl"@,
            "textEntityTypeMediaTimestamp"@ != "textEntityTypeMention"@,
            "textEntityTypeMediaTimestamp"@ != "textEntityTypeMentionName"@,
            "textEntityTypeMediaTimestamp"@ != "textEntityTypePhoneNumber"@,
            "textEntityTypeMediaTimestamp"@ != "textEntityTypePre"@,
            "textEntityTypeMediaTimestamp"@ != "textEntityTypePreCode"@,
            "textEntityTypeMediaTimestamp"@ != "textEntityTypeStrikethrough"@,
            "textEntityTypeMediaTimestamp"@ != "textEntityTypeTextUrl"@,
            "textEntityTypeMediaTimestamp"@ != "textEntityTypeUnderline"@,
            "textEntityTypeMediaTimestamp"@ != "textEntityTypeUrl"@,
            "textEntityTypeMention"@ != "textEntityTypeMentionName"@,
            "textEntityTypeMention"@ != "textEntityTypePhoneNumber"@,
            "textEntityTypeMention"@ != "textEntityTypePre"@,
            "textEntityTypeMention"@ != "textEntityTypePreCode"@,
            "textEntityTypeMention"@ != "textEntityTypeStrikethrough"@,
            "textEntityTypeMention"@ != "textEntityTypeTextUrl"@,
            "textEntityTypeMention"@ != "textEntityTypeUnderline"@,
            "textEntityTypeMention"@ != "textEntityTypeUrl"@,
            "textEntityTypeMentionName"@ != "textEntityTypePhoneNumber"@,
            "textEntityTypeMentionName"@ != "textEntityTypePre"@,
            "textEntityTypeMentionName"@ != "textEntityTypePreCode"@,
            "textEntityTypeMentionName"@ != "textEntityTypeStrikethrough"@,
            "textEntityTypeMentionName"@ != "textEntityTypeTextUrl"@,
            "textEntityTypeMentionName"@ != "textEntityTypeUnderline"@,
            "textEntityTypeMentionName"@ != "textEntityTypeUrl"@,
            "textEntityTypePhoneNumber"@ != "textEntityTypePre"@,
            "textEntityTypePhoneNumber"@ != "textEntityTypePreCode"@,
            "textEntityTypePhoneNumber"@ != "textEntityTypeStrikethrough"@,
            "textEntityTypePhoneNumber"@ != "textEntityTypeTextUrl"@,
            "textEntityTypePhoneNumber"@ != "textEntityTypeUnderline"@,
            "textEntityTypePhoneNumber"@ != "textEntityTypeUrl"@,
            "textEntityTypePre"@ != "textEntityTypePreCode"@,
            "textEntityTypePre"@ != "textEntityTypeStrikethrough"@,
            "textEntityTypePre"@ != "textEntityTypeTextUrl"@,
            "textEntityTypePre"@ != "textEntityTypeUnderline"@,
            "textEntityTypePre"@ != "textEntityTypeUrl"@,
            "textEntityTypePreCode"@ != "textEntityTypeStrikethrough"@,
            "textEntityTypePreCode"@ != "textEntityTypeTextUrl"@,
            "textEntityTypePreCode"@ != "textEntityTypeUnderline"@,
            "textEntityTypePreCode"@ != "textEntityTypeUrl"@,
            "textEntityTypeStrikethrough"@ != "textEntityTypeTextUrl"@,
            "textEntityTypeStrikethrough"@ != "textEntityTypeUnderline"@,
            "textEntityTypeStrikethrough"@ != "textEntityTypeUrl"@,
            "textEntityTypeTextUrl"@ != "textEntityTypeUnderline"@,
            "textEntityTypeTextUrl"@ != "textEntityTypeUrl"@,
            "textEntityTypeUnderline"@ != "textEntityTypeUrl"@,
    {
        reveal_strlit("textEntityTypeBankCardNumber");
        reveal_strlit("textEntityTypeBold");
        reveal_strlit("textEntityTypeBotCommand");
        reveal_strlit("textEntityTypeCashtag");
        reveal_strlit("textEntityTypeCode");
        reveal_strlit("textEntityTypeEmailAddress");
        reveal_strlit("textEntityTypeHashtag");
        reveal_strlit("textEntityTypeItalic");
        reveal_strlit("textEntityTypeMediaTimestamp");
        reveal_strlit("textEntityTypeMention");
        reveal_strlit("textEntityTypeMentionName");
        reveal_strlit("textEntityTypePhoneNumber");
        reveal_strlit("textEntityTypePre");
        reveal_strlit("textEntityTypePreCode");
        reveal_strlit("textEntityTypeStrikethrough");
        reveal_strlit("textEntityTypeTextUrl");
        reveal_strlit("textEntityTypeUnderline");
        reveal_strlit("textEntityTypeUrl");
        assert("textEntityTypeBankCardNumber"@.len() == 28);
        assert("textEntityTypeBold"@.len() == 18);
        assert("textEntityTypeBotCommand"@.len() == 24);
        assert("textEntityTypeCashtag"@.len() == 21);
        assert("textEntityTypeCode"@.len() == 18);
        assert("textEntityTypeEmailAddress"@.len() == 26);
        assert("textEntityTypeHashtag"@.len() == 21);
        assert("textEntityTypeItalic"@.len() == 20);
        assert("textEntityTypeMediaTimestamp"@.len() == 28);
        assert("textEntityTypeMention"@.len() == 21);
        assert("textEntityTypeMentionName"@.len() == 25);
        assert("textEntityTypePhoneNumber"@.len() == 25);
        assert("textEntityTypePre"@.len() == 17);
        assert("textEntityTypePreCode"@.len() == 21);
        assert("textEntityTypeStrikethrough"@.len() == 27);
        assert("textEntityTypeTextUrl"@.len() == 21);
        assert("textEntityTypeUnderline"@.len() == 23);
        assert("textEntityTypeUrl"@.len() == 17);
        assert("textEntityTypeBankCardNumber"@[14] == 'B' && "textEntityTypeMediaTimestamp"@[14] == 'M');
        assert("textEntityTypeBold"@[14] == 'B' && "textEntityTypeCode"@[14] == 'C');
        assert("textEntityTypeCashtag"@[14] == 'C' && "textEntityTypeHashtag"@[14] == 'H');
        assert("textEntityTypeCashtag"@[14] == 'C' && "textEntityTypeMention"@[14] == 'M');
        assert("textEntityTypeCashtag"@[14] == 'C' && "textEntityTypePreCode"@[14] == 'P');
        assert("textEntityTypeCashtag"@[14] == 'C' && "textEntityTypeTextUrl"@[14] == 'T');
        assert("textEntityTypeHashtag"@[14] == 'H' && "textEntityTypeMention"@[14] == 'M');
        assert("textEntityTypeHashtag"@[14] == 'H' && "textEntityTypePreCode"@[14] == 'P');
        assert("textEntityTypeHashtag"@[14] == 'H' && "textEntityTypeTextUrl"@[14] == 'T');
        assert("textEntityTypeMention"@[14] == 'M' && "textEntityTypePreCode"@[14] == 'P');
        assert("textEntityTypeMention"@[14] == 'M' && "textEntityTypeTextUrl"@[14] == 'T');
        assert("textEntityTypeMentionName"@[14] == 'M' && "textEntityTypePhoneNumber"@[14] == 'P');
        assert("textEntityTypePre"@[14] == 'P' && "textEntityTypeUrl"@[14] == 'U');
        assert("textEntityTypePreCode"@[14] == 'P' && "textEntityTypeTextUrl"@[14] == 'T');
    }
}

impl Wire for TextEntityType {
    open spec fn wire_tree(self) -> Option<SpecJson> {
        match self {
            TextEntityType::_Default(_) => None,
            TextEntityType::BankCardNumber(x) => x.wire_tree(),
            TextEntityType::Bold(x) => x.wire_tree(),
            TextEntityType::BotCommand(x) => x.wire_tree(),
            TextEntityType::Cashtag(x) => x.wire_tree(),
            TextEntityType::Code(x) => x.wire_tree(),
            TextEntityType::EmailAddress(x) => x.wire_tree(),
            TextEntityType::Hashtag(x) => x.wire_tree(),
            TextEntityType::Italic(x) => x.wire_tree(),
            TextEntityType::MediaTimestamp(x) => x.wire_tree(),
            TextEntityType::Mention(x) => x.wire_tree(),
            TextEntityType::MentionName(x) => x.wire_tree(),
            TextEntityType::PhoneNumber(x) => x.wire_tree(),
            TextEntityType::Pre(x) => x.wire_tree(),
            TextEntityType::PreCode(x) => x.wire_tree(),
            TextEntityType::Strikethrough(x) => x.wire_tree(),
            TextEntityType::TextUrl(x) => x.wire_tree(),
            TextEntityType::Underline(x) => x.wire_tree(),
            TextEntityType::Url(x) => x.wire_tree(),
        }
    }

    open spec fn accepts(t: SpecJson) -> bool {
        match tag_of(t) {
            None => false,
            Some(g) => {
                if g == TextEntityTypeBankCardNumber::tag_spec() {
                    TextEntityTypeBankCardNumber::accepts(t)
                } else if g == TextEntityTypeBold::tag_spec() {
                    TextEntityTypeBold::accepts(t)
                } else if g == TextEntityTypeBotCommand::tag_spec() {
                    TextEntityTypeBotCommand::accepts(t)
                } else if g == TextEntityTypeCashtag::tag_spec() {
                    TextEntityTypeCashtag::accepts(t)
                } else if g == TextEntityTypeCode::tag_spec() {
                    TextEntityTypeCode::accepts(t)
                } else if g == TextEntityTypeEmailAddress::tag_spec() {
                    TextEntityTypeEmailAddress::accepts(t)
                } else if g == TextEntityTypeHashtag::tag_spec() {
                    TextEntityTypeHashtag::accepts(t)
                } else if g == TextEntityTypeItalic::tag_spec() {
                    TextEntityTypeItalic::accepts(t)
                } else if g == TextEntityTypeMediaTimestamp::tag_spec() {
                    TextEntityTypeMediaTimestamp::accepts(t)
                } else if g == TextEntityTypeMention::tag_spec() {
                    TextEntityTypeMention::accepts(t)
                } else if g == TextEntityTypeMentionName::tag_spec() {
                    TextEntityTypeMentionName::accepts(t)
                } else if g == TextEntityTypePhoneNumber::tag_spec() {
                    TextEntityTypePhoneNumber::accepts(t)
                } else if g == TextEntityTypePre::tag_spec() {
                    TextEntityTypePre::accepts(t)
                } else if g == TextEntityTypePreCode::tag_spec() {
                    TextEntityTypePreCode::accepts(t)
                } else if g == TextEntityTypeStrikethrough::tag_spec() {
                    TextEntityTypeStrikethrough::accepts(t)
                } else if g == TextEntityTypeTextUrl::tag_spec() {
                    TextEntityTypeTextUrl::accepts(t)
                } else if g == TextEntityTypeUnderline::tag_spec() {
                    TextEntityTypeUnderline::accepts(t)
                } else if g == TextEntityTypeUrl::tag_spec() {
                    TextEntityTypeUrl::accepts(t)
                } else {
                    false
                }
            },
        }
    }

    open spec fn err_of(t: SpecJson) -> SpecDecodeError {
        match tag_of(t) {
            None => SpecDecodeError::Malformed,
            Some(g) => {
                if g == TextEntityTypeBankCardNumber::tag_spec() {
                    TextEntityTypeBankCardNumber::err_of(t)
                } else if g == TextEntityTypeBold::tag_spec() {
                    TextEntityTypeBold::err_of(t)
                } else if g == TextEntityTypeBotCommand::tag_spec() {
                    TextEntityTypeBotCommand::err_of(t)
                } else if g == TextEntityTypeCashtag::tag_spec() {
                    TextEntityTypeCashtag::err_of(t)
                } else if g == TextEntityTypeCode::tag_spec() {
                    TextEntityTypeCode::err_of(t)
                } else if g == TextEntityTypeEmailAddress::tag_spec() {
                    TextEntityTypeEmailAddress::err_of(t)
                } else if g == TextEntityTypeHashtag::tag_spec() {
                    TextEntityTypeHashtag::err_of(t)
                } else if g == TextEntityTypeItalic::tag_spec() {
                    TextEntityTypeItalic::err_of(t)
                } else if g == TextEntityTypeMediaTimestamp::tag_spec() {
                    TextEntityTypeMediaTimestamp::err_of(t)
                } else if g == TextEntityTypeMention::tag_spec() {
                    TextEntityTypeMention::err_of(t)
                } else if g == TextEntityTypeMentionName::tag_spec() {
                    TextEntityTypeMentionName::err_of(t)
                } else if g == TextEntityTypePhoneNumber::tag_spec() {
                    TextEntityTypePhoneNumber::err_of(t)
                } else if g == TextEntityTypePre::tag_spec() {
                    TextEntityTypePre::err_of(t)
                } else if g == TextEntityTypePreCode::tag_spec() {
                    TextEntityTypePreCode::err_of(t)
                } else if g == TextEntityTypeStrikethrough::tag_spec() {
                    TextEntityTypeStrikethrough::err_of(t)
                } else if g == TextEntityTypeTextUrl::tag_spec() {
                    TextEntityTypeTextUrl::err_of(t)
                } else if g == TextEntityTypeUnderline::tag_spec() {
                    TextEntityTypeUnderline::err_of(t)
                } else if g == TextEntityTypeUrl::tag_spec() {
                    TextEntityTypeUrl::err_of(t)
                } else {
                    SpecDecodeError::UnrecognizedVariant(g)
                }
            },
        }
    }

    open spec fn decodes_from(t: SpecJson, v: Self) -> bool {
        match tag_of(t) {
            None => false,
            Some(g) => {
                if g == TextEntityTypeBankCardNumber::tag_spec() {
                    v matches TextEntityType::BankCardNumber(x) && TextEntityTypeBankCardNumber::decodes_from(t, x)
                } else if g == TextEntityTypeBold::tag_spec() {
                    v matches TextEntityType::Bold(x) && TextEntityTypeBold::decodes_from(t, x)
                } else if g == TextEntityTypeBotCommand::tag_spec() {
                    v matches TextEntityType::BotCommand(x) && TextEntityTypeBotCommand::decodes_from(t, x)
                } else if g == TextEntityTypeCashtag::tag_spec() {
                    v matches TextEntityType::Cashtag(x) && TextEntityTypeCashtag::decodes_from(t, x)
                } else if g == TextEntityTypeCode::tag_spec() {
                    v matches TextEntityType::Code(x) && TextEntityTypeCode::decodes_from(t, x)
                } else if g == TextEntityTypeEmailAddress::tag_spec() {
                    v matches TextEntityType::EmailAddress(x) && TextEntityTypeEmailAddress::decodes_from(t, x)
                } else if g == TextEntityTypeHashtag::tag_spec() {
                    v matches TextEntityType::Hashtag(x) && TextEntityTypeHashtag::decodes_from(t, x)
                } else if g == TextEntityTypeItalic::tag_spec() {
                    v matches TextEntityType::Italic(x) && TextEntityTypeItalic::decodes_from(t, x)
                } else if g == TextEntityTypeMediaTimestamp::tag_spec() {
                    v matches TextEntityType::MediaTimestamp(x) && TextEntityTypeMediaTimestamp::decodes_from(t, x)
                } else if g == TextEntityTypeMention::tag_spec() {
                    v matches TextEntityType::Mention(x) && TextEntityTypeMention::decodes_from(t, x)
                } else if g == TextEntityTypeMentionName::tag_spec() {
                    v matches TextEntityType::MentionName(x) && TextEntityTypeMentionName::decodes_from(t, x)
                } else if g == TextEntityTypePhoneNumber::tag_spec() {
                    v matches TextEntityType::PhoneNumber(x) && TextEntityTypePhoneNumber::decodes_from(t, x)
                } else if g == TextEntityTypePre::tag_spec() {
                    v matches TextEntityType::Pre(x) && TextEntityTypePre::decodes_from(t, x)
                } else if g == TextEntityTypePreCode::tag_spec() {
                    v matches TextEntityType::PreCode(x) && TextEntityTypePreCode::decodes_from(t, x)
                } else if g == TextEntityTypeStrikethrough::tag_spec() {
                    v matches TextEntityType::Strikethrough(x) && TextEntityTypeStrikethrough::decodes_from(t, x)
                } else if g == TextEntityTypeTextUrl::tag_spec() {
                    v matches TextEntityType::TextUrl(x) && TextEntityTypeTextUrl::decodes_from(t, x)
                } else if g == TextEntityTypeUnderline::tag_spec() {
                    v matches TextEntityType::Underline(x) && TextEntityTypeUnderline::decodes_from(t, x)
                } else if g == TextEntityTypeUrl::tag_spec() {
                    v matches TextEntityType::Url(x) && TextEntityTypeUrl::decodes_from(t, x)
                } else {
                    false
                }
            },
        }
    }

    open spec fn eqv(self, other: Self) -> bool {
        match (self, other) {
            (TextEntityType::_Default(_), TextEntityType::_Default(_)) => true,
            (TextEntityType::BankCardNumber(a), TextEntityType::BankCardNumber(b)) => a.eqv(b),
            (TextEntityType::Bold(a), TextEntityType::Bold(b)) => a.eqv(b),
            (TextEntityType::BotCommand(a), TextEntityType::BotCommand(b)) => a.eqv(b),
            (TextEntityType::Cashtag(a), TextEntityType::Cashtag(b)) => a.eqv(b),
            (TextEntityType::Code(a), TextEntityType::Code(b)) => a.eqv(b),
            (TextEntityType::EmailAddress(a), TextEntityType::EmailAddress(b)) => a.eqv(b),
            (TextEntityType::Hashtag(a), TextEntityType::Hashtag(b)) => a.eqv(b),
            (TextEntityType::Italic(a), TextEntityType::Italic(b)) => a.eqv(b),
            (TextEntityType::MediaTimestamp(a), TextEntityType::MediaTimestamp(b)) => a.eqv(b),
            (TextEntityType::Mention(a), TextEntityType::Mention(b)) => a.eqv(b),
            (TextEntityType::MentionName(a), TextEntityType::MentionName(b)) => a.eqv(b),
            (TextEntityType::PhoneNumber(a), TextEntityType::PhoneNumber(b)) => a.eqv(b),
            (TextEntityType::Pre(a), TextEntityType::Pre(b)) => a.eqv(b),
            (TextEntityType::PreCode(a), TextEntityType::PreCode(b)) => a.eqv(b),
            (TextEntityType::Strikethrough(a), TextEntityType::Strikethrough(b)) => a.eqv(b),
            (TextEntityType::TextUrl(a), TextEntityType::TextUrl(b)) => a.eqv(b),
            (TextEntityType::Underline(a), TextEntityType::Underline(b)) => a.eqv(b),
            (TextEntityType::Url(a), TextEntityType::Url(b)) => a.eqv(b),
            _ => false,
        }
    }

    fn clone_val(&self) -> (r: Self) {
        self.clone()
    }

    fn decode_tree(t: &JsonValue) -> (r: Result<Self, DecodeError>) {
        let g = match get_tag(t) {
            Some(g) => g,
            None => {
                return Err(DecodeError::Malformed);
            },
        };
        if str_eq(g.as_str(), "textEntityTypeBankCardNumber") {
            match TextEntityTypeBankCardNumber::decode_tree(t) {
                Ok(x) => Ok(TextEntityType::BankCardNumber(x)),
                Err(e) => Err(e),
            }
        } else if str_eq(g.as_str(), "textEntityTypeBold") {
            match TextEntityTypeBold::decode_tree(t) {
                Ok(x) => Ok(TextEntityType::Bold(x)),
                Err(e) => Err(e),
            }
        } else if str_eq(g.as_str(), "textEntityTypeBotCommand") {
            match TextEntityTypeBotCommand::decode_tree(t) {
                Ok(x) => Ok(TextEntityType::BotCommand(x)),
                Err(e) => Err(e),
            }
        } else if str_eq(g.as_str(), "textEntityTypeCashtag") {
            match TextEntityTypeCashtag::decode_tree(t) {
                Ok(x) => Ok(TextEntityType::Cashtag(x)),
                Err(e) => Err(e),
            }
        } else if str_eq(g.as_str(), "textEntityTypeCode") {
            match TextEntityTypeCode::decode_tree(t) {
                Ok(x) => Ok(TextEntityType::Code(x)),
                Err(e) => Err(e),
            }
        } else if str_eq(g.as_str(), "textEntityTypeEmailAddress") {
            match TextEntityTypeEmailAddress::decode_tree(t) {
                Ok(x) => Ok(TextEntityType::EmailAddress(x)),
                Err(e) => Err(e),
            }
        } else if str_eq(g.as_str(), "textEntityTypeHashtag") {
            match TextEntityTypeHashtag::decode_tree(t) {
                Ok(x) => Ok(TextEntityType::Hashtag(x)),
                Err(e) => Err(e),
            }
        } else if str_eq(g.as_str(), "textEntityTypeItalic") {
            match TextEntityTypeItalic::decode_tree(t) {
                Ok(x) => Ok(TextEntityType::Italic(x)),
                Err(e) => Err(e),
            }
        } else if str_eq(g.as_str(), "textEntityTypeMediaTimestamp") {
            match TextEntityTypeMediaTimestamp::decode_tree(t) {
                Ok(x) => Ok(TextEntityType::MediaTimestamp(x)),
                Err(e) => Err(e),
            }
        } else if str_eq(g.as_str(), "textEntityTypeMention") {
            match TextEntityTypeMention::decode_tree(t) {
                Ok(x) => Ok(TextEntityType::Mention(x)),
                Err(e) => Err(e),
            }
        } else if str_eq(g.as_str(), "textEntityTypeMentionName") {
            match TextEntityTypeMentionName::decode_tree(t) {
                Ok(x) => Ok(TextEntityType::MentionName(x)),
                Err(e) => Err(e),
            }
        } else if str_eq(g.as_str(), "textEntityTypePhoneNumber") {
            match TextEntityTypePhoneNumber::decode_tree(t) {
                Ok(x) => Ok(TextEntityType::PhoneNumber(x)),
                Err(e) => Err(e),
            }
        } else if str_eq(g.as_str(), "textEntityTypePre") {
            match TextEntityTypePre::decode_tree(t) {
                Ok(x) => Ok(TextEntityType::Pre(x)),
                Err(e) => Err(e),
            }
        } else if str_eq(g.as_str(), "textEntityTypePreCode") {
            match TextEntityTypePreCode::decode_tree(t) {
                Ok(x) => Ok(TextEntityType::PreCode(x)),
                Err(e) => Err(e),
            }
        } else if str_eq(g.as_str(), "textEntityTypeStrikethrough") {
            match TextEntityTypeStrikethrough::decode_tree(t) {
                Ok(x) => Ok(TextEntityType::Strikethrough(x)),
                Err(e) => Err(e),
            }
        } else if str_eq(g.as_str(), "textEntityTypeTextUrl") {
            match TextEntityTypeTextUrl::decode_tree(t) {
                Ok(x) => Ok(TextEntityType::TextUrl(x)),
                Err(e) => Err(e),
            }
        } else if str_eq(g.as_str(), "textEntityTypeUnderline") {
            match TextEntityTypeUnderline::decode_tree(t) {
                Ok(x) => Ok(TextEntityType::Underline(x)),
                Err(e) => Err(e),
            }
        } else if str_eq(g.as_str(), "textEntityTypeUrl") {
            match TextEntityTypeUrl::decode_tree(t) {
                Ok(x) => Ok(TextEntityType::Url(x)),
                Err(e) => Err(e),
            }
        } else {
            Err(DecodeError::UnrecognizedVariant(g))
        }
    }

    fn encode_tree(&self) -> (r: Result<JsonValue, EncodeError>) {
        match self {
            TextEntityType::_Default(_) => Err(EncodeError::Unrepresentable),
            TextEntityType::BankCardNumber(x) => x.encode_tree(),
            TextEntityType::Bold(x) => x.encode_tree(),
            TextEntityType::BotCommand(x) => x.encode_tree(),
            TextEntityType::Cashtag(x) => x.encode_tree(),
            TextEntityType::Code(x) => x.encode_tree(),
            TextEntityType::EmailAddress(x) => x.encode_tree(),
            TextEntityType::Hashtag(x) => x.encode_tree(),
            TextEntityType::Italic(x) => x.encode_tree(),
            TextEntityType::MediaTimestamp(x) => x.encode_tree(),
            TextEntityType::Mention(x) => x.encode_tree(),
            TextEntityType::MentionName(x) => x.encode_tree(),
            TextEntityType::PhoneNumber(x) => x.encode_tree(),
            TextEntityType::Pre(x) => x.encode_tree(),
            TextEntityType::PreCode(x) => x.encode_tree(),
            TextEntityType::Strikethrough(x) => x.encode_tree(),
            TextEntityType::TextUrl(x) => x.encode_tree(),
            TextEntityType::Underline(x) => x.encode_tree(),
            TextEntityType::Url(x) => x.encode_tree(),
        }
    }

    proof fn lemma_wire_wf(v: Self) {
        match v {
            TextEntityType::_Default(_) => {},
            TextEntityType::BankCardNumber(x) => {
                TextEntityTypeBankCardNumber::lemma_wire_wf(x);
            },
            TextEntityType::Bold(x) => {
                TextEntityTypeBold::lemma_wire_wf(x);
            },
            TextEntityType::BotCommand(x) => {
                TextEntityTypeBotCommand::lemma_wire_wf(x);
            },
            TextEntityType::Cashtag(x) => {
                TextEntityTypeCashtag::lemma_wire_wf(x);
            },
            TextEntityType::Code(x) => {
                TextEntityTypeCode::lemma_wire_wf(x);
            },
            TextEntityType::EmailAddress(x) => {
                TextEntityTypeEmailAddress::lemma_wire_wf(x);
            },
            TextEntityType::Hashtag(x) => {
                TextEntityTypeHashtag::lemma_wire_wf(x);
            },
            TextEntityType::Italic(x) => {
                TextEntityTypeItalic::lemma_wire_wf(x);
            },
            TextEntityType::MediaTimestamp(x) => {
                TextEntityTypeMediaTimestamp::lemma_wire_wf(x);
            },
            TextEntityType::Mention(x) => {
                TextEntityTypeMention::lemma_wire_wf(x);
            },
            TextEntityType::MentionName(x) => {
                TextEntityTypeMentionName::lemma_wire_wf(x);
            },
            TextEntityType::PhoneNumber(x) => {
                TextEntityTypePhoneNumber::lemma_wire_wf(x);
            },
            TextEntityType::Pre(x) => {
                TextEntityTypePre::lemma_wire_wf(x);
            },
            TextEntityType::PreCode(x) => {
                TextEntityTypePreCode::lemma_wire_wf(x);
            },
            TextEntityType::Strikethrough(x) => {
                TextEntityTypeStrikethrough::lemma_wire_wf(x);
            },
            TextEntityType::TextUrl(x) => {
                TextEntityTypeTextUrl::lemma_wire_wf(x);
            },
            TextEntityType::Underline(x) => {
                TextEntityTypeUnderline::lemma_wire_wf(x);
            },
            TextEntityType::Url(x) => {
                TextEntityTypeUrl::lemma_wire_wf(x);
            },
        }
    }

    proof fn lemma_round_trip(v: Self) {
        Self::lemma_tags_distinct();
        match v {
            TextEntityType::_Default(_) => {},
            TextEntityType::BankCardNumber(x) => {
                if x.wire_tree() is Some {
                    let t = x.wire_tree()->0;
                    TextEntityTypeBankCardNumber::lemma_wire_tag(x);
                    TextEntityTypeBankCardNumber::lemma_round_trip(x);
                    assert(Self::accepts(t));
                    assert forall|w: Self| Self::decodes_from(t, w) implies #[trigger] w.eqv(v) by {
                        assert(w matches TextEntityType::BankCardNumber(xi) && TextEntityTypeBankCardNumber::decodes_from(t, xi));
                    }
                }
            },
            TextEntityType::Bold(x) => {
                if x.wire_tree() is Some {
                    let t = x.wire_tree()->0;
                    TextEntityTypeBold::lemma_wire_tag(x);
                    TextEntityTypeBold::lemma_round_trip(x);
                    assert(Self::accepts(t));
                    assert forall|w: Self| Self::decodes_from(t, w) implies #[trigger] w.eqv(v) by {
                        assert(w matches TextEntityType::Bold(xi) && TextEntityTypeBold::decodes_from(t, xi));
                    }
                }
            },
            TextEntityType::BotCommand(x) => {
                if x.wire_tree() is Some {
                    let t = x.wire_tree()->0;
                    TextEntityTypeBotCommand::lemma_wire_tag(x);
                    TextEntityTypeBotCommand::lemma_round_trip(x);
                    assert(Self::accepts(t));
                    assert forall|w: Self| Self::decodes_from(t, w) implies #[trigger] w.eqv(v) by {
                        assert(w matches TextEntityType::BotCommand(xi) && TextEntityTypeBotCommand::decodes_from(t, xi));
                    }
                }
            },
            TextEntityType::Cashtag(x) => {
                if x.wire_tree() is Some {
                    let t = x.wire_tree()->0;
                    TextEntityTypeCashtag::lemma_wire_tag(x);
                    TextEntityTypeCashtag::lemma_round_trip(x);
                    assert(Self::accepts(t));
                    assert forall|w: Self| Self::decodes_from(t, w) implies #[trigger] w.eqv(v) by {
                        assert(w matches TextEntityType::Cashtag(xi) && TextEntityTypeCashtag::decodes_from(t, xi));
                    }
                }
            },
            TextEntityType::Code(x) => {
                if x.wire_tree() is Some {
                    let t = x.wire_tree()->0;
                    TextEntityTypeCode::lemma_wire_tag(x);
                    TextEntityTypeCode::lemma_round_trip(x);
                    assert(Self::accepts(t));
                    assert forall|w: Self| Self::decodes_from(t, w) implies #[trigger] w.eqv(v) by {
                        assert(w matches TextEntityType::Code(xi) && TextEntityTypeCode::decodes_from(t, xi));
                    }
                }
            },
            TextEntityType::EmailAddress(x) => {
                if x.wire_tree() is Some {
                    let t = x.wire_tree()->0;
                    TextEntityTypeEmailAddress::lemma_wire_tag(x);
                    TextEntityTypeEmailAddress::lemma_round_trip(x);
                    assert(Self::accepts(t));
                    assert forall|w: Self| Self::decodes_from(t, w) implies #[trigger] w.eqv(v) by {
                        assert(w matches TextEntityType::EmailAddress(xi) && TextEntityTypeEmailAddress::decodes_from(t, xi));
                    }
                }
            },
            TextEntityType::Hashtag(x) => {
                if x.wire_tree() is Some {
                    let t = x.wire_tree()->0;
                    TextEntityTypeHashtag::lemma_wire_tag(x);
                    TextEntityTypeHashtag::lemma_round_trip(x);
                    assert(Self::accepts(t));
                    assert forall|w: Self| Self::decodes_from(t, w) implies #[trigger] w.eqv(v) by {
                        assert(w matches TextEntityType::Hashtag(xi) && TextEntityTypeHashtag::decodes_from(t, xi));
                    }
                }
            },
            TextEntityType::Italic(x) => {
                if x.wire_tree() is Some {
                    let t = x.wire_tree()->0;
                    TextEntityTypeItalic::lemma_wire_tag(x);
                    TextEntityTypeItalic::lemma_round_trip(x);
                    assert(Self::accepts(t));
                    assert forall|w: Self| Self::decodes_from(t, w) implies #[trigger] w.eqv(v) by {
                        assert(w matches TextEntityType::Italic(xi) && TextEntityTypeItalic::decodes_from(t, xi));
                    }
                }
            },
            TextEntityType::MediaTimestamp(x) => {
                if x.wire_tree() is Some {
                    let t = x.wire_tree()->0;
                    TextEntityTypeMediaTimestamp::lemma_wire_tag(x);
                    TextEntityTypeMediaTimestamp::lemma_round_trip(x);
                    assert(Self::accepts(t));
                    assert forall|w: Self| Self::decodes_from(t, w) implies #[trigger] w.eqv(v) by {
                        assert(w matches TextEntityType::MediaTimestamp(xi) && TextEntityTypeMediaTimestamp::decodes_from(t, xi));
                    }
                }
            },
            TextEntityType::Mention(x) => {
                if x.wire_tree() is Some {
                    let t = x.wire_tree()->0;
                    TextEntityTypeMention::lemma_wire_tag(x);
                    TextEntityTypeMention::lemma_round_trip(x);
                    assert(Self::accepts(t));
                    assert forall|w: Self| Self::decodes_from(t, w) implies #[trigger] w.eqv(v) by {
                        assert(w matches TextEntityType::Mention(xi) && TextEntityTypeMention::decodes_from(t, xi));
                    }
                }
            },
            TextEntityType::MentionName(x) => {
                if x.wire_tree() is Some {
                    let t = x.wire_tree()->0;
                    TextEntityTypeMentionName::lemma_wire_tag(x);
                    TextEntityTypeMentionName::lemma_round_trip(x);
                    assert(Self::accepts(t));
                    assert forall|w: Self| Self::decodes_from(t, w) implies #[trigger] w.eqv(v) by {
                        assert(w matches TextEntityType::MentionName(xi) && TextEntityTypeMentionName::decodes_from(t, xi));
                    }
                }
            },
            TextEntityType::PhoneNumber(x) => {
                if x.wire_tree() is Some {
                    let t = x.wire_tree()->0;
                    TextEntityTypePhoneNumber::lemma_wire_tag(x);
                    TextEntityTypePhoneNumber::lemma_round_trip(x);
                    assert(Self::accepts(t));
                    assert forall|w: Self| Self::decodes_from(t, w) implies #[trigger] w.eqv(v) by {
                        assert(w matches TextEntityType::PhoneNumber(xi) && TextEntityTypePhoneNumber::decodes_from(t, xi));
                    }
                }
            },
            TextEntityType::Pre(x) => {
                if x.wire_tree() is Some {
                    let t = x.wire_tree()->0;
                    TextEntityTypePre::lemma_wire_tag(x);
                    TextEntityTypePre::lemma_round_trip(x);
                    assert(Self::accepts(t));
                    assert forall|w: Self| Self::decodes_from(t, w) implies #[trigger] w.eqv(v) by {
                        assert(w matches TextEntityType::Pre(xi) && TextEntityTypePre::decodes_from(t, xi));
                    }
                }
            },
            TextEntityType::PreCode(x) => {
                if x.wire_tree() is Some {
                    let t = x.wire_tree()->0;
                    TextEntityTypePreCode::lemma_wire_tag(x);
                    TextEntityTypePreCode::lemma_round_trip(x);
                    assert(Self::accepts(t));
                    assert forall|w: Self| Self::decodes_from(t, w) implies #[trigger] w.eqv(v) by {
                        assert(w matches TextEntityType::PreCode(xi) && TextEntityTypePreCode::decodes_from(t, xi));
                    }
                }
            },
            TextEntityType::Strikethrough(x) => {
                if x.wire_tree() is Some {
                    let t = x.wire_tree()->0;
                    TextEntityTypeStrikethrough::lemma_wire_tag(x);
                    TextEntityTypeStrikethrough::lemma_round_trip(x);
                    assert(Self::accepts(t));
                    assert forall|w: Self| Self::decodes_from(t, w) implies #[trigger] w.eqv(v) by {
                        assert(w matches TextEntityType::Strikethrough(xi) && TextEntityTypeStrikethrough::decodes_from(t, xi));
                    }
                }
            },
            TextEntityType::TextUrl(x) => {
                if x.wire_tree() is Some {
                    let t = x.wire_tree()->0;
                    TextEntityTypeTextUrl::lemma_wire_tag(x);
                    TextEntityTypeTextUrl::lemma_round_trip(x);
                    assert(Self::accepts(t));
                    assert forall|w: Self| Self::decodes_from(t, w) implies #[trigger] w.eqv(v) by {
                        assert(w matches TextEntityType::TextUrl(xi) && TextEntityTypeTextUrl::decodes_from(t, xi));
                    }
                }
            },
            TextEntityType::Underline(x) => {
                if x.wire_tree() is Some {
                    let t = x.wire_tree()->0;
                    TextEntityTypeUnderline::lemma_wire_tag(x);
                    TextEntityTypeUnderline::lemma_round_trip(x);
                    assert(Self::accepts(t));
                    assert forall|w: Self| Self::decodes_from(t, w) implies #[trigger] w.eqv(v) by {
                        assert(w matches TextEntityType::Underline(xi) && TextEntityTypeUnderline::decodes_from(t, xi));
                    }
                }
            },
            TextEntityType::Url(x) => {
                if x.wire_tree() is Some {
                    let t = x.wire_tree()->0;
                    TextEntityTypeUrl::lemma_wire_tag(x);
                    TextEntityTypeUrl::lemma_round_trip(x);
                    assert(Self::accepts(t));
                    assert forall|w: Self| Self::decodes_from(t, w) implies #[trigger] w.eqv(v) by {
                        assert(w matches TextEntityType::Url(xi) && TextEntityTypeUrl::decodes_from(t, xi));
                    }
                }
            },
        }
    }
}

impl RObject for TextEntityType {
    open spec fn tag_chars(&self) -> Seq<char> {
        match self {
            TextEntityType::_Default(_) => "-1"@,
            TextEntityType::BankCardNumber(x) => TextEntityTypeBankCardNumber::tag_spec(),
            TextEntityType::Bold(x) => TextEntityTypeBold::tag_spec(),
            TextEntityType::BotCommand(x) => TextEntityTypeBotCommand::tag_spec(),
            TextEntityType::Cashtag(x) => TextEntityTypeCashtag::tag_spec(),
            TextEntityType::Code(x) => TextEntityTypeCode::tag_spec(),
            TextEntityType::EmailAddress(x) => TextEntityTypeEmailAddress::tag_spec(),
            TextEntityType::Hashtag(x) => TextEntityTypeHashtag::tag_spec(),
            TextEntityType::Italic(x) => TextEntityTypeItalic::tag_spec(),
            TextEntityType::MediaTimestamp(x) => TextEntityTypeMediaTimestamp::tag_spec(),
            TextEntityType::Mention(x) => TextEntityTypeMention::tag_spec(),
            TextEntityType::MentionName(x) => TextEntityTypeMentionName::tag_spec(),
            TextEntityType::PhoneNumber(x) => TextEntityTypePhoneNumber::tag_spec(),
            TextEntityType::Pre(x) => TextEntityTypePre::tag_spec(),
            TextEntityType::PreCode(x) => TextEntityTypePreCode::tag_spec(),
            TextEntityType::Strikethrough(x) => TextEntityTypeStrikethrough::tag_spec(),
            TextEntityType::TextUrl(x) => TextEntityTypeTextUrl::tag_spec(),
            TextEntityType::Underline(x) => TextEntityTypeUnderline::tag_spec(),
            TextEntityType::Url(x) => TextEntityTypeUrl::tag_spec(),
        }
    }

    open spec fn extra_spec(&self) -> Option<Seq<char>> {
        match self {
            TextEntityType::_Default(_) => None,
            TextEntityType::BankCardNumber(x) => opt_str_view(x.extra),
            TextEntityType::Bold(x) => opt_str_view(x.extra),
            TextEntityType::BotCommand(x) => opt_str_view(x.extra),
            TextEntityType::Cashtag(x) => opt_str_view(x.extra),
            TextEntityType::Code(x) => opt_str_view(x.extra),
            TextEntityType::EmailAddress(x) => opt_str_view(x.extra),
            TextEntityType::Hashtag(x) => opt_str_view(x.extra),
            TextEntityType::Italic(x) => opt_str_view(x.extra),
            TextEntityType::MediaTimestamp(x) => opt_str_view(x.extra),
            TextEntityType::Mention(x) => opt_str_view(x.extra),
            TextEntityType::MentionName(x) => opt_str_view(x.extra),
            TextEntityType::PhoneNumber(x) => opt_str_view(x.extra),
            TextEntityType::Pre(x) => opt_str_view(x.extra),
            TextEntityType::PreCode(x) => opt_str_view(x.extra),
            TextEntityType::Strikethrough(x) => opt_str_view(x.extra),
            TextEntityType::TextUrl(x) => opt_str_view(x.extra),
            TextEntityType::Underline(x) => opt_str_view(x.extra),
            TextEntityType::Url(x) => opt_str_view(x.extra),
    }
    }

    fn td_name(&self) -> (r: &'static str) {
        match self {
            TextEntityType::_Default(_) => "-1",
            TextEntityType::BankCardNumber(x) => x.td_name(),
            TextEntityType::Bold(x) => x.td_name(),
            TextEntityType::BotCommand(x) => x.td_name(),
            TextEntityType::Cashtag(x) => x.td_name(),
            TextEntityType::Code(x) => x.td_name(),
            TextEntityType::EmailAddress(x) => x.td_name(),
            TextEntityType::Hashtag(x) => x.td_name(),
            TextEntityType::Italic(x) => x.td_name(),
            TextEntityType::MediaTimestamp(x) => x.td_name(),
            TextEntityType::Mention(x) => x.td_name(),
            TextEntityType::MentionName(x) => x.td_name(),
            TextEntityType::PhoneNumber(x) => x.td_name(),
            TextEntityType::Pre(x) => x.td_name(),
            TextEntityType::PreCode(x) => x.td_name(),
            TextEntityType::Strikethrough(x) => x.td_name(),
            TextEntityType::TextUrl(x) => x.td_name(),
            TextEntityType::Underline(x) => x.td_name(),
            TextEntityType::Url(x) => x.td_name(),
        }
    }

    fn extra(&self) -> (r: Option<String>) {
        match self {
            TextEntityType::_Default(_) => None,
            TextEntityType::BankCardNumber(x) => clone_opt_string(&x.extra),
            TextEntityType::Bold(x) => clone_opt_string(&x.extra),
            TextEntityType::BotCommand(x) => clone_opt_string(&x.extra),
            TextEntityType::Cashtag(x) => clone_opt_string(&x.extra),
            TextEntityType::Code(x) => clone_opt_string(&x.extra),
            TextEntityType::EmailAddress(x) => clone_opt_string(&x.extra),
            TextEntityType::Hashtag(x) => clone_opt_string(&x.extra),
            TextEntityType::Italic(x) => clone_opt_string(&x.extra),
            TextEntityType::MediaTimestamp(x) => clone_opt_string(&x.extra),
            TextEntityType::Mention(x) => clone_opt_string(&x.extra),
            TextEntityType::MentionName(x) => clone_opt_string(&x.extra),
            TextEntityType::PhoneNumber(x) => clone_opt_string(&x.extra),
            TextEntityType::Pre(x) => clone_opt_string(&x.extra),
            TextEntityType::PreCode(x) => clone_opt_string(&x.extra),
            TextEntityType::Strikethrough(x) => clone_opt_string(&x.extra),
            TextEntityType::TextUrl(x) => clone_opt_string(&x.extra),
            TextEntityType::Underline(x) => clone_opt_string(&x.extra),
            TextEntityType::Url(x) => clone_opt_string(&x.extra),
        }
    }

    fn to_json(&self) -> (r: Result<String, EncodeError>) {
        crate::object::encode(self)
    }
}

impl TextEntityType {
    pub fn from_json(json: &str) -> (r: Result<TextEntityType, DecodeError>)
        ensures
            match crate::parse::parse_doc(json@) {
                Some(t) => match r {
                    Ok(v) => Self::accepts(t) && Self::decodes_from(t, v),
                    Err(e) => !Self::accepts(t) && crate::errors::err_matches(e, Self::err_of(t)),
                },
                None => r matches Err(e) && e == DecodeError::Malformed,
            },
    {
        crate::object::from_json::<TextEntityType>(json)
    }

    pub fn _is_default(&self) -> (r: bool)
        ensures
            r == (self is _Default),
    {
        match self {
            TextEntityType::_Default(_) => true,
            _ => false,
        }
    }

    pub fn is_bank_card_number(&self) -> (r: bool)
        ensures
            r == (self is BankCardNumber),
    {
        match self {
            TextEntityType::BankCardNumber(_) => true,
            _ => false,
        }
    }

    pub fn is_bold(&self) -> (r: bool)
        ensures
            r == (self is Bold),
    {
        match self {
            TextEntityType::Bold(_) => true,
            _ => false,
        }
    }

    pub fn is_bot_command(&self) -> (r: bool)
        ensures
            r == (self is BotCommand),
    {
        match self {
            TextEntityType::BotCommand(_) => true,
            _ => false,
        }
    }

    pub fn is_cashtag(&self) -> (r: bool)
        ensures
            r == (self is Cashtag),
    {
        match self {
            TextEntityType::Cashtag(_) => true,
            _ => false,
        }
    }

    pub fn is_code(&self) -> (r: bool)
        ensures
            r == (self is Code),
    {
        match self {
            TextEntityType::Code(_) => true,
            _ => false,
        }
    }

    pub fn is_email_address(&self) -> (r: bool)
        ensures
            r == (self is EmailAddress),
    {
        match self {
            TextEntityType::EmailAddress(_) => true,
            _ => false,
        }
    }

    pub fn is_hashtag(&self) -> (r: bool)
        ensures
            r == (self is Hashtag),
    {
        match self {
            TextEntityType::Hashtag(_) => true,
            _ => false,
        }
    }

    pub fn is_italic(&self) -> (r: bool)
        ensures
            r == (self is Italic),
    {
        match self {
            TextEntityType::Italic(_) => true,
            _ => false,
        }
    }

    pub fn is_media_timestamp(&self) -> (r: bool)
        ensures
            r == (self is MediaTimestamp),
    {
        match self {
            TextEntityType::MediaTimestamp(_) => true,
            _ => false,
        }
    }

    pub fn is_mention(&self) -> (r: bool)
        ensures
            r == (self is Mention),
    {
        match self {
            TextEntityType::Mention(_) => true,
            _ => false,
        }
    }

    pub fn is_mention_name(&self) -> (r: bool)
        ensures
            r == (self is MentionName),
    {
        match self {
            TextEntityType::MentionName(_) => true,
            _ => false,
        }
    }

    pub fn is_phone_number(&self) -> (r: bool)
        ensures
            r == (self is PhoneNumber),
    {
        match self {
            TextEntityType::PhoneNumber(_) => true,
            _ => false,
        }
    }

    pub fn is_pre(&self) -> (r: bool)
        ensures
            r == (self is Pre),
    {
        match self {
            TextEntityType::Pre(_) => true,
            _ => false,
        }
    }

    pub fn is_pre_code(&self) -> (r: bool)
        ensures
            r == (self is PreCode),
    {
        match self {
            TextEntityType::PreCode(_) => true,
            _ => false,
        }
    }

    pub fn is_strikethrough(&self) -> (r: bool)
        ensures
            r == (self is Strikethrough),
    {
        match self {
            TextEntityType::Strikethrough(_) => true,
            _ => false,
        }
    }

    pub fn is_text_url(&self) -> (r: bool)
        ensures
            r == (self is TextUrl),
    {
        match self {
            TextEntityType::TextUrl(_) => true,
            _ => false,
        }
    }

    pub fn is_underline(&self) -> (r: bool)
        ensures
            r == (self is Underline),
    {
        match self {
            TextEntityType::Underline(_) => true,
            _ => false,
        }
    }

    pub fn is_url(&self) -> (r: bool)
        ensures
            r == (self is Url),
    {
        match self {
            TextEntityType::Url(_) => true,
            _ => false,
        }
    }

    pub fn as_bank_card_number(&self) -> (r: Option<&TextEntityTypeBankCardNumber>)
        ensures
            (self is BankCardNumber) == (r is Some),
            r matches Some(x) ==> *x == self->BankCardNumber_0,
    {
        match self {
            TextEntityType::BankCardNumber(x) => Some(x),
            _ => None,
        }
    }

    pub fn as_bold(&self) -> (r: Option<&TextEntityTypeBold>)
        ensures
            (self is Bold) == (r is Some),
            r matches Some(x) ==> *x == self->Bold_0,
    {
        match self {
            TextEntityType::Bold(x) => Some(x),
            _ => None,
        }
    }

    pub fn as_bot_command(&self) -> (r: Option<&TextEntityTypeBotCommand>)
        ensures
            (self is BotCommand) == (r is Some),
            r matches Some(x) ==> *x == self->BotCommand_0,
    {
        match self {
            TextEntityType::BotCommand(x) => Some(x),
            _ => None,
        }
    }

    pub fn as_cashtag(&self) -> (r: Option<&TextEntityTypeCashtag>)
        ensures
            (self is Cashtag) == (r is Some),
            r matches Some(x) ==> *x == self->Cashtag_0,
    {
        match self {
            TextEntityType::Cashtag(x) => Some(x),
            _ => None,
        }
    }

    pub fn as_code(&self) -> (r: Option<&TextEntityTypeCode>)
        ensures
            (self is Code) == (r is Some),
            r matches Some(x) ==> *x == self->Code_0,
    {
        match self {
            TextEntityType::Code(x) => Some(x),
            _ => None,
        }
    }

    pub fn as_email_address(&self) -> (r: Option<&TextEntityTypeEmailAddress>)
        ensures
            (self is EmailAddress) == (r is Some),
            r matches Some(x) ==> *x == self->EmailAddress_0,
    {
        match self {
            TextEntityType::EmailAddress(x) => Some(x),
            _ => None,
        }
    }

    pub fn as_hashtag(&self) -> (r: Option<&TextEntityTypeHashtag>)
        ensures
            (self is Hashtag) == (r is Some),
            r matches Some(x) ==> *x == self->Hashtag_0,
    {
        match self {
            TextEntityType::Hashtag(x) => Some(x),
            _ => None,
        }
    }

    pub fn as_italic(&self) -> (r: Option<&TextEntityTypeItalic>)
        ensures
            (self is Italic) == (r is Some),
            r matches Some(x) ==> *x == self->Italic_0,
    {
        match self {
            TextEntityType::Italic(x) => Some(x),
            _ => None,
        }
    }

    pub fn as_media_timestamp(&self) -> (r: Option<&TextEntityTypeMediaTimestamp>)
        ensures
            (self is MediaTimestamp) == (r is Some),
            r matches Some(x) ==> *x == self->MediaTimestamp_0,
    {
        match self {
            TextEntityType::MediaTimestamp(x) => Some(x),
            _ => None,
        }
    }

    pub fn as_mention(&self) -> (r: Option<&TextEntityTypeMention>)
        ensures
            (self is Mention) == (r is Some),
            r matches Some(x) ==> *x == self->Mention_0,
    {
        match self {
            TextEntityType::Mention(x) => Some(x),
            _ => None,
        }
    }

    pub fn as_mention_name(&self) -> (r: Option<&TextEntityTypeMentionName>)
        ensures
            (self is MentionName) == (r is Some),
            r matches Some(x) ==> *x == self->MentionName_0,
    {
        match self {
            TextEntityType::MentionName(x) => Some(x),
            _ => None,
        }
    }

    pub fn as_phone_number(&self) -> (r: Option<&TextEntityTypePhoneNumber>)
        ensures
            (self is PhoneNumber) == (r is Some),
            r matches Some(x) ==> *x == self->PhoneNumber_0,
    {
        match self {
            TextEntityType::PhoneNumber(x) => Some(x),
            _ => None,
        }
    }

    pub fn as_pre(&self) -> (r: Option<&TextEntityTypePre>)
        ensures
            (self is Pre) == (r is Some),
            r matches Some(x) ==> *x == self->Pre_0,
    {
        match self {
            TextEntityType::Pre(x) => Some(x),
            _ => None,
        }
    }

    pub fn as_pre_code(&self) -> (r: Option<&TextEntityTypePreCode>)
        ensures
            (self is PreCode) == (r is Some),
            r matches Some(x) ==> *x == self->PreCode_0,
    {
        match self {
            TextEntityType::PreCode(x) => Some(x),
            _ => None,
        }
    }

    pub fn as_strikethrough(&self) -> (r: Option<&TextEntityTypeStrikethrough>)
        ensures
            (self is Strikethrough) == (r is Some),
            r matches Some(x) ==> *x == self->Strikethrough_0,
    {
        match self {
            TextEntityType::Strikethrough(x) => Some(x),
            _ => None,
        }
    }

    pub fn as_text_url(&self) -> (r: Option<&TextEntityTypeTextUrl>)
        ensures
            (self is TextUrl) == (r is Some),
            r matches Some(x) ==> *x == self->TextUrl_0,
    {
        match self {
            TextEntityType::TextUrl(x) => Some(x),
            _ => None,
        }
    }

    pub fn as_underline(&self) -> (r: Option<&TextEntityTypeUnderline>)
        ensures
            (self is Underline) == (r is Some),
            r matches Some(x) ==> *x == self->Underline_0,
    {
        match self {
            TextEntityType::Underline(x) => Some(x),
            _ => None,
        }
    }

    pub fn as_url(&self) -> (r: Option<&TextEntityTypeUrl>)
        ensures
            (self is Url) == (r is Some),
            r matches Some(x) ==> *x == self->Url_0,
    {
        match self {
            TextEntityType::Url(x) => Some(x),
            _ => None,
        }
    }

    pub fn bank_card_number(t: &TextEntityTypeBankCardNumber) -> (r: Self)
        ensures
            r matches TextEntityType::BankCardNumber(x) && x.eqv(*t),
    {
        TextEntityType::BankCardNumber(t.clone())
    }

    pub fn bold(t: &TextEntityTypeBold) -> (r: Self)
        ensures
            r matches TextEntityType::Bold(x) && x.eqv(*t),
    {
        TextEntityType::Bold(t.clone())
    }

    pub fn bot_command(t: &TextEntityTypeBotCommand) -> (r: Self)
        ensures
            r matches TextEntityType::BotCommand(x) && x.eqv(*t),
    {
        TextEntityType::BotCommand(t.clone())
    }

    pub fn cashtag(t: &TextEntityTypeCashtag) -> (r: Self)
        ensures
            r matches TextEntityType::Cashtag(x) && x.eqv(*t),
    {
        TextEntityType::Cashtag(t.clone())
    }

    pub fn code(t: &TextEntityTypeCode) -> (r: Self)
        ensures
            r matches TextEntityType::Code(x) && x.eqv(*t),
    {
        TextEntityType::Code(t.clone())
    }

    pub fn email_address(t: &TextEntityTypeEmailAddress) -> (r: Self)
        ensures
            r matches TextEntityType::EmailAddress(x) && x.eqv(*t),
    {
        TextEntityType::EmailAddress(t.clone())
    }

    pub fn hashtag(t: &TextEntityTypeHashtag) -> (r: Self)
        ensures
            r matches TextEntityType::Hashtag(x) && x.eqv(*t),
    {
        TextEntityType::Hashtag(t.clone())
    }

    pub fn italic(t: &TextEntityTypeItalic) -> (r: Self)
        ensures
            r matches TextEntityType::Italic(x) && x.eqv(*t),
    {
        TextEntityType::Italic(t.clone())
    }

    pub fn media_timestamp(t: &TextEntityTypeMediaTimestamp) -> (r: Self)
        ensures
            r matches TextEntityType::MediaTimestamp(x) && x.eqv(*t),
    {
        TextEntityType::MediaTimestamp(t.clone())
    }

    pub fn mention(t: &TextEntityTypeMention) -> (r: Self)
        ensures
            r matches TextEntityType::Mention(x) && x.eqv(*t),
    {
        TextEntityType::Mention(t.clone())
    }

    pub fn mention_name(t: &TextEntityTypeMentionName) -> (r: Self)
        ensures
            r matches TextEntityType::MentionName(x) && x.eqv(*t),
    {
        TextEntityType::MentionName(t.clone())
    }

    pub fn phone_number(t: &TextEntityTypePhoneNumber) -> (r: Self)
        ensures
            r matches TextEntityType::PhoneNumber(x) && x.eqv(*t),
    {
        TextEntityType::PhoneNumber(t.clone())
    }

    pub fn pre(t: &TextEntityTypePre) -> (r: Self)
        ensures
            r matches TextEntityType::Pre(x) && x.eqv(*t),
    {
        TextEntityType::Pre(t.clone())
    }

    pub fn pre_code(t: &TextEntityTypePreCode) -> (r: Self)
        ensures
            r matches TextEntityType::PreCode(x) && x.eqv(*t),
    {
        TextEntityType::PreCode(t.clone())
    }

    pub fn strikethrough(t: &TextEntityTypeStrikethrough) -> (r: Self)
        ensures
            r matches TextEntityType::Strikethrough(x) && x.eqv(*t),
    {
        TextEntityType::Strikethrough(t.clone())
    }

    pub fn text_url(t: &TextEntityTypeTextUrl) -> (r: Self)
        ensures
            r matches TextEntityType::TextUrl(x) && x.eqv(*t),
    {
        TextEntityType::TextUrl(t.clone())
    }

    pub fn underline(t: &TextEntityTypeUnderline) -> (r: Self)
        ensures
            r matches TextEntityType::Underline(x) && x.eqv(*t),
    {
        TextEntityType::Underline(t.clone())
    }

    pub fn url(t: &TextEntityTypeUrl) -> (r: Self)
        ensures
            r matches TextEntityType::Url(x) && x.eqv(*t),
    {
        TextEntityType::Url(t.clone())
    }
}
/// A bank card number. The getBankCardInfo method can be used to get information about the bank card
#[derive(Debug, PartialEq)]
pub struct TextEntityTypeBankCardNumber {
    pub extra: Option<String>,
}

impl TextEntityTypeBankCardNumber {
    pub open spec fn tag_spec() -> Seq<char> {
        "textEntityTypeBankCardNumber"@
    }

    /// The members of the wire object, in the order they are written.
    pub open spec fn members_spec(self) -> Seq<(Seq<char>, SpecJson)> {
        seq![
            ("@type"@, SpecJson::Str(Self::tag_spec())),
            ("@extra"@, opt_str_tree(opt_str_view(self.extra))),
        ]
    }

    pub open spec fn fields_ok(t: SpecJson) -> bool {
        &&& ok_opt_str(t, "@extra"@)
    }

    pub open spec fn fail_field(t: SpecJson) -> Seq<char> {
        if !ok_opt_str(t, "@extra"@) {
            "@extra"@
        } else {
            Seq::empty()
        }
    }

    /// The encoding of a value carries exactly this type's tag.
    pub proof fn lemma_wire_tag(v: TextEntityTypeBankCardNumber)
        ensures
            v.wire_tree() matches Some(t) ==> tag_of(t) == Some(TextEntityTypeBankCardNumber::tag_spec()),
    {
        if v.wire_tree() is Some {
            let t = v.wire_tree()->0;
            let ms = t->Obj_0;
            lemma_get_spec_found(ms, "@type"@, 0);
        }
    }
}

impl Clone for TextEntityTypeBankCardNumber {
    fn clone(&self) -> (res: Self)
        ensures
            res.eqv(*self),
    {
        TextEntityTypeBankCardNumber {
            extra: clone_opt_string(&self.extra),
        }
    }
}

impl Wire for TextEntityTypeBankCardNumber {
    open spec fn wire_tree(self) -> Option<SpecJson> {
        Some(SpecJson::Obj(self.members_spec()))
    }

    open spec fn accepts(t: SpecJson) -> bool {
        tag_of(t) is Some && Self::fields_ok(t)
    }

    open spec fn err_of(t: SpecJson) -> SpecDecodeError {
        match tag_of(t) {
            None => SpecDecodeError::Malformed,
            Some(_) => SpecDecodeError::FieldShapeMismatch(Self::tag_spec(), Self::fail_field(t)),
        }
    }

    open spec fn decodes_from(t: SpecJson, v: Self) -> bool {
        &&& m_opt_str(t, "@extra"@, v.extra)
    }

    open spec fn eqv(self, other: Self) -> bool {
        &&& eqv_opt_string(self.extra, other.extra)
    }

    fn clone_val(&self) -> (r: Self) {
        self.clone()
    }

    fn decode_tree(t: &JsonValue) -> (r: Result<Self, DecodeError>) {
        if get_tag(t).is_none() {
            return Err(DecodeError::Malformed);
        }
        let extra = match field_opt_string(t, "@extra") {
            Some(x) => x,
            None => {
                return Err(DecodeError::FieldShapeMismatch(
                    String::from_str("textEntityTypeBankCardNumber"),
                    String::from_str("@extra"),
                ));
            },
        };
        Ok(TextEntityTypeBankCardNumber { extra })
    }

    fn encode_tree(&self) -> (r: Result<JsonValue, EncodeError>) {
        let mut members: Vec<JsonMember> = Vec::new();
        proof {
            assert(view_members(members@) =~= Seq::<(Seq<char>, SpecJson)>::empty());
        }
        push_member(&mut members, "@type", JsonValue::Str(String::from_str("textEntityTypeBankCardNumber")));
        push_member(&mut members, "@extra", opt_string_tree(&self.extra));
        let node = JsonValue::Obj(members);
        proof {
            assert(view_members(members@) =~= self.members_spec());
            assert(node@ == self.wire_tree()->0);
        }
        Ok(node)
    }

    proof fn lemma_wire_wf(v: Self) {
        if v.wire_tree() is Some {
            let t = v.wire_tree()->0;
            let ms = t->Obj_0;
            assert(ms == v.members_spec());
            assert forall|i: int| 0 <= i < ms.len() implies wf(#[trigger] ms[i].1) by {
            }
        }
    }

    proof fn lemma_round_trip(v: Self) {
        if v.wire_tree() is Some {
            let t = v.wire_tree()->0;
            let ms = t->Obj_0;
            assert(ms == v.members_spec());
            reveal_strlit("@type");
            reveal_strlit("@extra");
            assert("@type"@.len() == 5);
            assert("@extra"@.len() == 6);
            reveal_with_fuel(get_spec, 4);
            lemma_get_spec_found(ms, "@type"@, 0);
            lemma_get_spec_found(ms, "@extra"@, 1);
            assert(tag_of(t) == Some(Self::tag_spec()));
            assert(ok_opt_str(t, "@extra"@));
            assert(Self::accepts(t));
            assert forall|w: Self| Self::decodes_from(t, w) implies #[trigger] w.eqv(v) by {
            }
        }
    }
}

impl RObject for TextEntityTypeBankCardNumber {
    open spec fn tag_chars(&self) -> Seq<char> {
        Self::tag_spec()
    }

    open spec fn extra_spec(&self) -> Option<Seq<char>> {
        opt_str_view(self.extra)
    }

    fn td_name(&self) -> (r: &'static str) {
        "textEntityTypeBankCardNumber"
    }

    fn extra(&self) -> (r: Option<String>) {
        clone_opt_string(&self.extra)
    }

    fn to_json(&self) -> (r: Result<String, EncodeError>) {
        crate::object::encode(self)
    }
}

impl TDTextEntityType for TextEntityTypeBankCardNumber {

}

impl TextEntityTypeBankCardNumber {
    pub fn from_json(json: &str) -> (r: Result<TextEntityTypeBankCardNumber, DecodeError>)
        ensures
            match crate::parse::parse_doc(json@) {
                Some(t) => match r {
                    Ok(v) => Self::accepts(t) && Self::decodes_from(t, v),
                    Err(e) => !Self::accepts(t) && crate::errors::err_matches(e, Self::err_of(t)),
                },
                None => r matches Err(e) && e == DecodeError::Malformed,
            },
    {
        crate::object::from_json::<TextEntityTypeBankCardNumber>(json)
    }

    pub fn builder() -> (r: RTDTextEntityTypeBankCardNumberBuilder)
        ensures
            r.inner.extra is Some,
    {
        RTDTextEntityTypeBankCardNumberBuilder {
            inner: TextEntityTypeBankCardNumber {
                extra: Some(new_token()),
            },
        }
    }
}

pub struct RTDTextEntityTypeBankCardNumberBuilder {
    pub inner: TextEntityTypeBankCardNumber,
}

impl RTDTextEntityTypeBankCardNumberBuilder {
    pub fn build(&self) -> (r: TextEntityTypeBankCardNumber)
        ensures
            r.eqv(self.inner),
    {
        self.inner.clone()
    }
}
/// A bold text
#[derive(Debug, PartialEq)]
pub struct TextEntityTypeBold {
    pub extra: Option<String>,
}

impl TextEntityTypeBold {
    pub open spec fn tag_spec() -> Seq<char> {
        "textEntityTypeBold"@
    }

    /// The members of the wire object, in the order they are written.
    pub open spec fn members_spec(self) -> Seq<(Seq<char>, SpecJson)> {
        seq![
            ("@type"@, SpecJson::Str(Self::tag_spec())),
            ("@extra"@, opt_str_tree(opt_str_view(self.extra))),
        ]
    }

    pub open spec fn fields_ok(t: SpecJson) -> bool {
        &&& ok_opt_str(t, "@extra"@)
    }

    pub open spec fn fail_field(t: SpecJson) -> Seq<char> {
        if !ok_opt_str(t, "@extra"@) {
            "@extra"@
        } else {
            Seq::empty()
        }
    }

    /// The encoding of a value carries exactly this type's tag.
    pub proof fn lemma_wire_tag(v: TextEntityTypeBold)
        ensures
            v.wire_tree() matches Some(t) ==> tag_of(t) == Some(TextEntityTypeBold::tag_spec()),
    {
        if v.wire_tree() is Some {
            let t = v.wire_tree()->0;
            let ms = t->Obj_0;
            lemma_get_spec_found(ms, "@type"@, 0);
        }
    }
}

impl Clone for TextEntityTypeBold {
    fn clone(&self) -> (res: Self)
        ensures
            res.eqv(*self),
    {
        TextEntityTypeBold {
            extra: clone_opt_string(&self.extra),
        }
    }
}

impl Wire for TextEntityTypeBold {
    open spec fn wire_tree(self) -> Option<SpecJson> {
        Some(SpecJson::Obj(self.members_spec()))
    }

    open spec fn accepts(t: SpecJson) -> bool {
        tag_of(t) is Some && Self::fields_ok(t)
    }

    open spec fn err_of(t: SpecJson) -> SpecDecodeError {
        match tag_of(t) {
            None => SpecDecodeError::Malformed,
            Some(_) => SpecDecodeError::FieldShapeMismatch(Self::tag_spec(), Self::fail_field(t)),
        }
    }

    open spec fn decodes_from(t: SpecJson, v: Self) -> bool {
        &&& m_opt_str(t, "@extra"@, v.extra)
    }

    open spec fn eqv(self, other: Self) -> bool {
        &&& eqv_opt_string(self.extra, other.extra)
    }

    fn clone_val(&self) -> (r: Self) {
        self.clone()
    }

    fn decode_tree(t: &JsonValue) -> (r: Result<Self, DecodeError>) {
        if get_tag(t).is_none() {
            return Err(DecodeError::Malformed);
        }
        let extra = match field_opt_string(t, "@extra") {
            Some(x) => x,
            None => {
                return Err(DecodeError::FieldShapeMismatch(
                    String::from_str("textEntityTypeBold"),
                    String::from_str("@extra"),
                ));
            },
        };
        Ok(TextEntityTypeBold { extra })
    }

    fn encode_tree(&self) -> (r: Result<JsonValue, EncodeError>) {
        let mut members: Vec<JsonMember> = Vec::new();
        proof {
            assert(view_members(members@) =~= Seq::<(Seq<char>, SpecJson)>::empty());
        }
        push_member(&mut members, "@type", JsonValue::Str(String::from_str("textEntityTypeBold")));
        push_member(&mut members, "@extra", opt_string_tree(&self.extra));
        let node = JsonValue::Obj(members);
        proof {
            assert(view_members(members@) =~= self.members_spec());
            assert(node@ == self.wire_tree()->0);
        }
        Ok(node)
    }

    proof fn lemma_wire_wf(v: Self) {
        if v.wire_tree() is Some {
            let t = v.wire_tree()->0;
            let ms = t->Obj_0;
            assert(ms == v.members_spec());
            assert forall|i: int| 0 <= i < ms.len() implies wf(#[trigger] ms[i].1) by {
            }
        }
    }

    proof fn lemma_round_trip(v: Self) {
        if v.wire_tree() is Some {
            let t = v.wire_tree()->0;
            let ms = t->Obj_0;
            assert(ms == v.members_spec());
            reveal_strlit("@type");
            reveal_strlit("@extra");
            assert("@type"@.len() == 5);
            assert("@extra"@.len() == 6);
            reveal_with_fuel(get_spec, 4);
            lemma_get_spec_found(ms, "@type"@, 0);
            lemma_get_spec_found(ms, "@extra"@, 1);
            assert(tag_of(t) == Some(Self::tag_spec()));
            assert(ok_opt_str(t, "@extra"@));
            assert(Self::accepts(t));
            assert forall|w: Self| Self::decodes_from(t, w) implies #[trigger] w.eqv(v) by {
            }
        }
    }
}

impl RObject for TextEntityTypeBold {
    open spec fn tag_chars(&self) -> Seq<char> {
        Self::tag_spec()
    }

    open spec fn extra_spec(&self) -> Option<Seq<char>> {
        opt_str_view(self.extra)
    }

    fn td_name(&self) -> (r: &'static str) {
        "textEntityTypeBold"
    }

    fn extra(&self) -> (r: Option<String>) {
        clone_opt_string(&self.extra)
    }

    fn to_json(&self) -> (r: Result<String, EncodeError>) {
        crate::object::encode(self)
    }
}

impl TDTextEntityType for TextEntityTypeBold {

}

impl TextEntityTypeBold {
    pub fn from_json(json: &str) -> (r: Result<TextEntityTypeBold, DecodeError>)
        ensures
            match crate::parse::parse_doc(json@) {
                Some(t) => match r {
                    Ok(v) => Self::accepts(t) && Self::decodes_from(t, v),
                    Err(e) => !Self::accepts(t) && crate::errors::err_matches(e, Self::err_of(t)),
                },
                None => r matches Err(e) && e == DecodeError::Malformed,
            },
    {
        crate::object::from_json::<TextEntityTypeBold>(json)
    }

    pub fn builder() -> (r: RTDTextEntityTypeBoldBuilder)
        ensures
            r.inner.extra is Some,
    {
        RTDTextEntityTypeBoldBuilder {
            inner: TextEntityTypeBold {
                extra: Some(new_token()),
            },
        }
    }
}

pub struct RTDTextEntityTypeBoldBuilder {
    pub inner: TextEntityTypeBold,
}

impl RTDTextEntityTypeBoldBuilder {
    pub fn build(&self) -> (r: TextEntityTypeBold)
        ensures
            r.eqv(self.inner),
    {
        self.inner.clone()
    }
}
/// A bot command, beginning with "/"
#[derive(Debug, PartialEq)]
pub struct TextEntityTypeBotCommand {
    pub extra: Option<String>,
}

impl TextEntityTypeBotCommand {
    pub open spec fn tag_spec() -> Seq<char> {
        "textEntityTypeBotCommand"@
    }

    /// The members of the wire object, in the order they are written.
    pub open spec fn members_spec(self) -> Seq<(Seq<char>, SpecJson)> {
        seq![
            ("@type"@, SpecJson::Str(Self::tag_spec())),
            ("@extra"@, opt_str_tree(opt_str_view(self.extra))),
        ]
    }

    pub open spec fn fields_ok(t: SpecJson) -> bool {
        &&& ok_opt_str(t, "@extra"@)
    }

    pub open spec fn fail_field(t: SpecJson) -> Seq<char> {
        if !ok_opt_str(t, "@extra"@) {
            "@extra"@
        } else {
            Seq::empty()
        }
    }

    /// The encoding of a value carries exactly this type's tag.
    pub proof fn lemma_wire_tag(v: TextEntityTypeBotCommand)
        ensures
            v.wire_tree() matches Some(t) ==> tag_of(t) == Some(TextEntityTypeBotCommand::tag_spec()),
    {
        if v.wire_tree() is Some {
            let t = v.wire_tree()->0;
            let ms = t->Obj_0;
            lemma_get_spec_found(ms, "@type"@, 0);
        }
    }
}

impl Clone for TextEntityTypeBotCommand {
    fn clone(&self) -> (res: Self)
        ensures
            res.eqv(*self),
    {
        TextEntityTypeBotCommand {
            extra: clone_opt_string(&self.extra),
        }
    }
}

impl Wire for TextEntityTypeBotCommand {
    open spec fn wire_tree(self) -> Option<SpecJson> {
        Some(SpecJson::Obj(self.members_spec()))
    }

    open spec fn accepts(t: SpecJson) -> bool {
        tag_of(t) is Some && Self::fields_ok(t)
    }

    open spec fn err_of(t: SpecJson) -> SpecDecodeError {
        match tag_of(t) {
            None => SpecDecodeError::Malformed,
            Some(_) => SpecDecodeError::FieldShapeMismatch(Self::tag_spec(), Self::fail_field(t)),
        }
    }

    open spec fn decodes_from(t: SpecJson, v: Self) -> bool {
        &&& m_opt_str(t, "@extra"@, v.extra)
    }

    open spec fn eqv(self, other: Self) -> bool {
        &&& eqv_opt_string(self.extra, other.extra)
    }

    fn clone_val(&self) -> (r: Self) {
        self.clone()
    }

    fn decode_tree(t: &JsonValue) -> (r: Result<Self, DecodeError>) {
        if get_tag(t).is_none() {
            return Err(DecodeError::Malformed);
        }
        let extra = match field_opt_string(t, "@extra") {
            Some(x) => x,
            None => {
                return Err(DecodeError::FieldShapeMismatch(
                    String::from_str("textEntityTypeBotCommand"),
                    String::from_str("@extra"),
                ));
            },
        };
        Ok(TextEntityTypeBotCommand { extra })
    }

    fn encode_tree(&self) -> (r: Result<JsonValue, EncodeError>) {
        let mut members: Vec<JsonMember> = Vec::new();
        proof {
            assert(view_members(members@) =~= Seq::<(Seq<char>, SpecJson)>::empty());
        }
        push_member(&mut members, "@type", JsonValue::Str(String::from_str("textEntityTypeBotCommand")));
        push_member(&mut members, "@extra", opt_string_tree(&self.extra));
        let node = JsonValue::Obj(members);
        proof {
            assert(view_members(members@) =~= self.members_spec());
            assert(node@ == self.wire_tree()->0);
        }
        Ok(node)
    }

    proof fn lemma_wire_wf(v: Self) {
        if v.wire_tree() is Some {
            let t = v.wire_tree()->0;
            let ms = t->Obj_0;
            assert(ms == v.members_spec());
            assert forall|i: int| 0 <= i < ms.len() implies wf(#[trigger] ms[i].1) by {
            }
        }
    }

    proof fn lemma_round_trip(v: Self) {
        if v.wire_tree() is Some {
            let t = v.wire_tree()->0;
            let ms = t->Obj_0;
            assert(ms == v.members_spec());
            reveal_strlit("@type");
            reveal_strlit("@extra");
            assert("@type"@.len() == 5);
            assert("@extra"@.len() == 6);
            reveal_with_fuel(get_spec, 4);
            lemma_get_spec_found(ms, "@type"@, 0);
            lemma_get_spec_found(ms, "@extra"@, 1);
            assert(tag_of(t) == Some(Self::tag_spec()));
            assert(ok_opt_str(t, "@extra"@));
            assert(Self::accepts(t));
            assert forall|w: Self| Self::decodes_from(t, w) implies #[trigger] w.eqv(v) by {
            }
        }
    }
}

impl RObject for TextEntityTypeBotCommand {
    open spec fn tag_chars(&self) -> Seq<char> {
        Self::tag_spec()
    }

    open spec fn extra_spec(&self) -> Option<Seq<char>> {
        opt_str_view(self.extra)
    }

    fn td_name(&self) -> (r: &'static str) {
        "textEntityTypeBotCommand"
    }

    fn extra(&self) -> (r: Option<String>) {
        clone_opt_string(&self.extra)
    }

    fn to_json(&self) -> (r: Result<String, EncodeError>) {
        crate::object::encode(self)
    }
}

impl TDTextEntityType for TextEntityTypeBotCommand {

}

impl TextEntityTypeBotCommand {
    pub fn from_json(json: &str) -> (r: Result<TextEntityTypeBotCommand, DecodeError>)
        ensures
            match crate::parse::parse_doc(json@) {
                Some(t) => match r {
                    Ok(v) => Self::accepts(t) && Self::decodes_from(t, v),
                    Err(e) => !Self::accepts(t) && crate::errors::err_matches(e, Self::err_of(t)),
                },
                None => r matches Err(e) && e == DecodeError::Malformed,
            },
    {
        crate::object::from_json::<TextEntityTypeBotCommand>(json)
    }

    pub fn builder() -> (r: RTDTextEntityTypeBotCommandBuilder)
        ensures
            r.inner.extra is Some,
    {
        RTDTextEntityTypeBotCommandBuilder {
            inner: TextEntityTypeBotCommand {
                extra: Some(new_token()),
            },
        }
    }
}

pub struct RTDTextEntityTypeBotCommandBuilder {
    pub inner: TextEntityTypeBotCommand,
}

impl RTDTextEntityTypeBotCommandBuilder {
    pub fn build(&self) -> (r: TextEntityTypeBotCommand)
        ensures
            r.eqv(self.inner),
    {
        self.inner.clone()
    }
}
/// A cashtag text, beginning with "$" and consisting of capital English letters (e.g., "$USD")
#[derive(Debug, PartialEq)]
pub struct TextEntityTypeCashtag {
    pub extra: Option<String>,
}

impl TextEntityTypeCashtag {
    pub open spec fn tag_spec() -> Seq<char> {
        "textEntityTypeCashtag"@
    }

    /// The members of the wire object, in the order they are written.
    pub open spec fn members_spec(self) -> Seq<(Seq<char>, SpecJson)> {
        seq![
            ("@type"@, SpecJson::Str(Self::tag_spec())),
            ("@extra"@, opt_str_tree(opt_str_view(self.extra))),
        ]
    }

    pub open spec fn fields_ok(t: SpecJson) -> bool {
        &&& ok_opt_str(t, "@extra"@)
    }

    pub open spec fn fail_field(t: SpecJson) -> Seq<char> {
        if !ok_opt_str(t, "@extra"@) {
            "@extra"@
        } else {
            Seq::empty()
        }
    }

    /// The encoding of a value carries exactly this type's tag.
    pub proof fn lemma_wire_tag(v: TextEntityTypeCashtag)
        ensures
            v.wire_tree() matches Some(t) ==> tag_of(t) == Some(TextEntityTypeCashtag::tag_spec()),
    {
        if v.wire_tree() is Some {
            let t = v.wire_tree()->0;
            let ms = t->Obj_0;
            lemma_get_spec_found(ms, "@type"@, 0);
        }
    }
}

impl Clone for TextEntityTypeCashtag {
    fn clone(&self) -> (res: Self)
        ensures
            res.eqv(*self),
    {
        TextEntityTypeCashtag {
            extra: clone_opt_string(&self.extra),
        }
    }
}

impl Wire for TextEntityTypeCashtag {
    open spec fn wire_tree(self) -> Option<SpecJson> {
        Some(SpecJson::Obj(self.members_spec()))
    }

    open spec fn accepts(t: SpecJson) -> bool {
        tag_of(t) is Some && Self::fields_ok(t)
    }

    open spec fn err_of(t: SpecJson) -> SpecDecodeError {
        match tag_of(t) {
            None => SpecDecodeError::Malformed,
            Some(_) => SpecDecodeError::FieldShapeMismatch(Self::tag_spec(), Self::fail_field(t)),
        }
    }

    open spec fn decodes_from(t: SpecJson, v: Self) -> bool {
        &&& m_opt_str(t, "@extra"@, v.extra)
    }

    open spec fn eqv(self, other: Self) -> bool {
        &&& eqv_opt_string(self.extra, other.extra)
    }

    fn clone_val(&self) -> (r: Self) {
        self.clone()
    }

    fn decode_tree(t: &JsonValue) -> (r: Result<Self, DecodeError>) {
        if get_tag(t).is_none() {
            return Err(DecodeError::Malformed);
        }
        let extra = match field_opt_string(t, "@extra") {
            Some(x) => x,
            None => {
                return Err(DecodeError::FieldShapeMismatch(
                    String::from_str("textEntityTypeCashtag"),
                    String::from_str("@extra"),
                ));
            },
        };
        Ok(TextEntityTypeCashtag { extra })
    }

    fn encode_tree(&self) -> (r: Result<JsonValue, EncodeError>) {
        let mut members: Vec<JsonMember> = Vec::new();
        proof {
            assert(view_members(members@) =~= Seq::<(Seq<char>, SpecJson)>::empty());
        }
        push_member(&mut members, "@type", JsonValue::Str(String::from_str("textEntityTypeCashtag")));
        push_member(&mut members, "@extra", opt_string_tree(&self.extra));
        let node = JsonValue::Obj(members);
        proof {
            assert(view_members(members@) =~= self.members_spec());
            assert(node@ == self.wire_tree()->0);
        }
        Ok(node)
    }

    proof fn lemma_wire_wf(v: Self) {
        if v.wire_tree() is Some {
            let t = v.wire_tree()->0;
            let ms = t->Obj_0;
            assert(ms == v.members_spec());
            assert forall|i: int| 0 <= i < ms.len() implies wf(#[trigger] ms[i].1) by {
            }
        }
    }

    proof fn lemma_round_trip(v: Self) {
        if v.wire_tree() is Some {
            let t = v.wire_tree()->0;
            let ms = t->Obj_0;
            assert(ms == v.members_spec());
            reveal_strlit("@type");
            reveal_strlit("@extra");
            assert("@type"@.len() == 5);
            assert("@extra"@.len() == 6);
            reveal_with_fuel(get_spec, 4);
            lemma_get_spec_found(ms, "@type"@, 0);
            lemma_get_spec_found(ms, "@extra"@, 1);
            assert(tag_of(t) == Some(Self::tag_spec()));
            assert(ok_opt_str(t, "@extra"@));
            assert(Self::accepts(t));
            assert forall|w: Self| Self::decodes_from(t, w) implies #[trigger] w.eqv(v) by {
            }
        }
    }
}

impl RObject for TextEntityTypeCashtag {
    open spec fn tag_chars(&self) -> Seq<char> {
        Self::tag_spec()
    }

    open spec fn extra_spec(&self) -> Option<Seq<char>> {
        opt_str_view(self.extra)
    }

    fn td_name(&self) -> (r: &'static str) {
        "textEntityTypeCashtag"
    }

    fn extra(&self) -> (r: Option<String>) {
        clone_opt_string(&self.extra)
    }

    fn to_json(&self) -> (r: Result<String, EncodeError>) {
        crate::object::encode(self)
    }
}

impl TDTextEntityType for TextEntityTypeCashtag {

}

impl TextEntityTypeCashtag {
    pub fn from_json(json: &str) -> (r: Result<TextEntityTypeCashtag, DecodeError>)
        ensures
            match crate::parse::parse_doc(json@) {
                Some(t) => match r {
                    Ok(v) => Self::accepts(t) && Self::decodes_from(t, v),
                    Err(e) => !Self::accepts(t) && crate::errors::err_matches(e, Self::err_of(t)),
                },
                None => r matches Err(e) && e == DecodeError::Malformed,
            },
    {
        crate::object::from_json::<TextEntityTypeCashtag>(json)
    }

    pub fn builder() -> (r: RTDTextEntityTypeCashtagBuilder)
        ensures
            r.inner.extra is Some,
    {
        RTDTextEntityTypeCashtagBuilder {
            inner: TextEntityTypeCashtag {
                extra: Some(new_token()),
            },
        }
    }
}

pub struct RTDTextEntityTypeCashtagBuilder {
    pub inner: TextEntityTypeCashtag,
}

impl RTDTextEntityTypeCashtagBuilder {
    pub fn build(&self) -> (r: TextEntityTypeCashtag)
        ensures
            r.eqv(self.inner),
    {
        self.inner.clone()
    }
}
/// Text that must be formatted as if inside a code HTML tag
#[derive(Debug, PartialEq)]
pub struct TextEntityTypeCode {
    pub extra: Option<String>,
}

impl TextEntityTypeCode {
    pub open spec fn tag_spec() -> Seq<char> {
        "textEntityTypeCode"@
    }

    /// The members of the wire object, in the order they are written.
    pub open spec fn members_spec(self) -> Seq<(Seq<char>, SpecJson)> {
        seq![
            ("@type"@, SpecJson::Str(Self::tag_spec())),
            ("@extra"@, opt_str_tree(opt_str_view(self.extra))),
        ]
    }

    pub open spec fn fields_ok(t: SpecJson) -> bool {
        &&& ok_opt_str(t, "@extra"@)
    }

    pub open spec fn fail_field(t: SpecJson) -> Seq<char> {
        if !ok_opt_str(t, "@extra"@) {
            "@extra"@
        } else {
            Seq::empty()
        }
    }

    /// The encoding of a value carries exactly this type's tag.
    pub proof fn lemma_wire_tag(v: TextEntityTypeCode)
        ensures
            v.wire_tree() matches Some(t) ==> tag_of(t) == Some(TextEntityTypeCode::tag_spec()),
    {
        if v.wire_tree() is Some {
            let t = v.wire_tree()->0;
            let ms = t->Obj_0;
            lemma_get_spec_found(ms, "@type"@, 0);
        }
    }
}

impl Clone for TextEntityTypeCode {
    fn clone(&self) -> (res: Self)
        ensures
            res.eqv(*self),
    {
        TextEntityTypeCode {
            extra: clone_opt_string(&self.extra),
        }
    }
}

impl Wire for TextEntityTypeCode {
    open spec fn wire_tree(self) -> Option<SpecJson> {
        Some(SpecJson::Obj(self.members_spec()))
    }

    open spec fn accepts(t: SpecJson) -> bool {
        tag_of(t) is Some && Self::fields_ok(t)
    }

    open spec fn err_of(t: SpecJson) -> SpecDecodeError {
        match tag_of(t) {
            None => SpecDecodeError::Malformed,
            Some(_) => SpecDecodeError::FieldShapeMismatch(Self::tag_spec(), Self::fail_field(t)),
        }
    }

    open spec fn decodes_from(t: SpecJson, v: Self) -> bool {
        &&& m_opt_str(t, "@extra"@, v.extra)
    }

    open spec fn eqv(self, other: Self) -> bool {
        &&& eqv_opt_string(self.extra, other.extra)
    }

    fn clone_val(&self) -> (r: Self) {
        self.clone()
    }

    fn decode_tree(t: &JsonValue) -> (r: Result<Self, DecodeError>) {
        if get_tag(t).is_none() {
            return Err(DecodeError::Malformed);
        }
        let extra = match field_opt_string(t, "@extra") {
            Some(x) => x,
            None => {
                return Err(DecodeError::FieldShapeMismatch(
                    String::from_str("textEntityTypeCode"),
                    String::from_str("@extra"),
                ));
            },
        };
        Ok(TextEntityTypeCode { extra })
    }

    fn encode_tree(&self) -> (r: Result<JsonValue, EncodeError>) {
        let mut members: Vec<JsonMember> = Vec::new();
        proof {
            assert(view_members(members@) =~= Seq::<(Seq<char>, SpecJson)>::empty());
        }
        push_member(&mut members, "@type", JsonValue::Str(String::from_str("textEntityTypeCode")));
        push_member(&mut members, "@extra", opt_string_tree(&self.extra));
        let node = JsonValue::Obj(members);
        proof {
            assert(view_members(members@) =~= self.members_spec());
            assert(node@ == self.wire_tree()->0);
        }
        Ok(node)
    }

    proof fn lemma_wire_wf(v: Self) {
        if v.wire_tree() is Some {
            let t = v.wire_tree()->0;
            let ms = t->Obj_0;
            assert(ms == v.members_spec());
            assert forall|i: int| 0 <= i < ms.len() implies wf(#[trigger] ms[i].1) by {
            }
        }
    }

    proof fn lemma_round_trip(v: Self) {
        if v.wire_tree() is Some {
            let t = v.wire_tree()->0;
            let ms = t->Obj_0;
            assert(ms == v.members_spec());
            reveal_strlit("@type");
            reveal_strlit("@extra");
            assert("@type"@.len() == 5);
            assert("@extra"@.len() == 6);
            reveal_with_fuel(get_spec, 4);
            lemma_get_spec_found(ms, "@type"@, 0);
            lemma_get_spec_found(ms, "@extra"@, 1);
            assert(tag_of(t) == Some(Self::tag_spec()));
            assert(ok_opt_str(t, "@extra"@));
            assert(Self::accepts(t));
            assert forall|w: Self| Self::decodes_from(t, w) implies #[trigger] w.eqv(v) by {
            }
        }
    }
}

impl RObject for TextEntityTypeCode {
    open spec fn tag_chars(&self) -> Seq<char> {
        Self::tag_spec()
    }

    open spec fn extra_spec(&self) -> Option<Seq<char>> {
        opt_str_view(self.extra)
    }

    fn td_name(&self) -> (r: &'static str) {
        "textEntityTypeCode"
    }

    fn extra(&self) -> (r: Option<String>) {
        clone_opt_string(&self.extra)
    }

    fn to_json(&self) -> (r: Result<String, EncodeError>) {
        crate::object::encode(self)
    }
}

impl TDTextEntityType for TextEntityTypeCode {

}

impl TextEntityTypeCode {
    pub fn from_json(json: &str) -> (r: Result<TextEntityTypeCode, DecodeError>)
        ensures
            match crate::parse::parse_doc(json@) {
                Some(t) => match r {
                    Ok(v) => Self::accepts(t) && Self::decodes_from(t, v),
                    Err(e) => !Self::accepts(t) && crate::errors::err_matches(e, Self::err_of(t)),
                },
                None => r matches Err(e) && e == DecodeError::Malformed,
            },
    {
        crate::object::from_json::<TextEntityTypeCode>(json)
    }

    pub fn builder() -> (r: RTDTextEntityTypeCodeBuilder)
        ensures
            r.inner.extra is Some,
    {
        RTDTextEntityTypeCodeBuilder {
            inner: TextEntityTypeCode {
                extra: Some(new_token()),
            },
        }
    }
}

pub struct RTDTextEntityTypeCodeBuilder {
    pub inner: TextEntityTypeCode,
}

impl RTDTextEntityTypeCodeBuilder {
    pub fn build(&self) -> (r: TextEntityTypeCode)
        ensures
            r.eqv(self.inner),
    {
        self.inner.clone()
    }
}
/// An email address
#[derive(Debug, PartialEq)]
pub struct TextEntityTypeEmailAddress {
    pub extra: Option<String>,
}

impl TextEntityTypeEmailAddress {
    pub open spec fn tag_spec() -> Seq<char> {
        "textEntityTypeEmailAddress"@
    }

    /// The members of the wire object, in the order they are written.
    pub open spec fn members_spec(self) -> Seq<(Seq<char>, SpecJson)> {
        seq![
            ("@type"@, SpecJson::Str(Self::tag_spec())),
            ("@extra"@, opt_str_tree(opt_str_view(self.extra))),
        ]
    }

    pub open spec fn fields_ok(t: SpecJson) -> bool {
        &&& ok_opt_str(t, "@extra"@)
    }

    pub open spec fn fail_field(t: SpecJson) -> Seq<char> {
        if !ok_opt_str(t, "@extra"@) {
            "@extra"@
        } else {
            Seq::empty()
        }
    }

    /// The encoding of a value carries exactly this type's tag.
    pub proof fn lemma_wire_tag(v: TextEntityTypeEmailAddress)
        ensures
            v.wire_tree() matches Some(t) ==> tag_of(t) == Some(TextEntityTypeEmailAddress::tag_spec()),
    {
        if v.wire_tree() is Some {
            let t = v.wire_tree()->0;
            let ms = t->Obj_0;
            lemma_get_spec_found(ms, "@type"@, 0);
        }
    }
}

impl Clone for TextEntityTypeEmailAddress {
    fn clone(&self) -> (res: Self)
        ensures
            res.eqv(*self),
    {
        TextEntityTypeEmailAddress {
            extra: clone_opt_string(&self.extra),
        }
    }
}

impl Wire for TextEntityTypeEmailAddress {
    open spec fn wire_tree(self) -> Option<SpecJson> {
        Some(SpecJson::Obj(self.members_spec()))
    }

    open spec fn accepts(t: SpecJson) -> bool {
        tag_of(t) is Some && Self::fields_ok(t)
    }

    open spec fn err_of(t: SpecJson) -> SpecDecodeError {
        match tag_of(t) {
            None => SpecDecodeError::Malformed,
            Some(_) => SpecDecodeError::FieldShapeMismatch(Self::tag_spec(), Self::fail_field(t)),
        }
    }

    open spec fn decodes_from(t: SpecJson, v: Self) -> bool {
        &&& m_opt_str(t, "@extra"@, v.extra)
    }

    open spec fn eqv(self, other: Self) -> bool {
        &&& eqv_opt_string(self.extra, other.extra)
    }

    fn clone_val(&self) -> (r: Self) {
        self.clone()
    }

    fn decode_tree(t: &JsonValue) -> (r: Result<Self, DecodeError>) {
        if get_tag(t).is_none() {
            return Err(DecodeError::Malformed);
        }
        let extra = match field_opt_string(t, "@extra") {
            Some(x) => x,
            None => {
                return Err(DecodeError::FieldShapeMismatch(
                    String::from_str("textEntityTypeEmailAddress"),
                    String::from_str("@extra"),
                ));
            },
        };
        Ok(TextEntityTypeEmailAddress { extra })
    }

    fn encode_tree(&self) -> (r: Result<JsonValue, EncodeError>) {
        let mut members: Vec<JsonMember> = Vec::new();
        proof {
            assert(view_members(members@) =~= Seq::<(Seq<char>, SpecJson)>::empty());
        }
        push_member(&mut members, "@type", JsonValue::Str(String::from_str("textEntityTypeEmailAddress")));
        push_member(&mut members, "@extra", opt_string_tree(&self.extra));
        let node = JsonValue::Obj(members);
        proof {
            assert(view_members(members@) =~= self.members_spec());
            assert(node@ == self.wire_tree()->0);
        }
        Ok(node)
    }

    proof fn lemma_wire_wf(v: Self) {
        if v.wire_tree() is Some {
            let t = v.wire_tree()->0;
            let ms = t->Obj_0;
            assert(ms == v.members_spec());
            assert forall|i: int| 0 <= i < ms.len() implies wf(#[trigger] ms[i].1) by {
            }
        }
    }

    proof fn lemma_round_trip(v: Self) {
        if v.wire_tree() is Some {
            let t = v.wire_tree()->0;
            let ms = t->Obj_0;
            assert(ms == v.members_spec());
            reveal_strlit("@type");
            reveal_strlit("@extra");
            assert("@type"@.len() == 5);
            assert("@extra"@.len() == 6);
            reveal_with_fuel(get_spec, 4);
            lemma_get_spec_found(ms, "@type"@, 0);
            lemma_get_spec_found(ms, "@extra"@, 1);
            assert(tag_of(t) == Some(Self::tag_spec()));
            assert(ok_opt_str(t, "@extra"@));
            assert(Self::accepts(t));
            assert forall|w: Self| Self::decodes_from(t, w) implies #[trigger] w.eqv(v) by {
            }
        }
    }
}

impl RObject for TextEntityTypeEmailAddress {
    open spec fn tag_chars(&self) -> Seq<char> {
        Self::tag_spec()
    }

    open spec fn extra_spec(&self) -> Option<Seq<char>> {
        opt_str_view(self.extra)
    }

    fn td_name(&self) -> (r: &'static str) {
        "textEntityTypeEmailAddress"
    }

    fn extra(&self) -> (r: Option<String>) {
        clone_opt_string(&self.extra)
    }

    fn to_json(&self) -> (r: Result<String, EncodeError>) {
        crate::object::encode(self)
    }
}

impl TDTextEntityType for TextEntityTypeEmailAddress {

}

impl TextEntityTypeEmailAddress {
    pub fn from_json(json: &str) -> (r: Result<TextEntityTypeEmailAddress, DecodeError>)
        ensures
            match crate::parse::parse_doc(json@) {
                Some(t) => match r {
                    Ok(v) => Self::accepts(t) && Self::decodes_from(t, v),
                    Err(e) => !Self::accepts(t) && crate::errors::err_matches(e, Self::err_of(t)),
                },
                None => r matches Err(e) && e == DecodeError::Malformed,
            },
    {
        crate::object::from_json::<TextEntityTypeEmailAddress>(json)
    }

    pub fn builder() -> (r: RTDTextEntityTypeEmailAddressBuilder)
        ensures
            r.inner.extra is Some,
    {
        RTDTextEntityTypeEmailAddressBuilder {
            inner: TextEntityTypeEmailAddress {
                extra: Some(new_token()),
            },
        }
    }
}

pub struct RTDTextEntityTypeEmailAddressBuilder {
    pub inner: TextEntityTypeEmailAddress,
}

impl RTDTextEntityTypeEmailAddressBuilder {
    pub fn build(&self) -> (r: TextEntityTypeEmailAddress)
        ensures
            r.eqv(self.inner),
    {
        self.inner.clone()
    }
}
/// A hashtag text, beginning with "#"
#[derive(Debug, PartialEq)]
pub struct TextEntityTypeHashtag {
    pub extra: Option<String>,
}

impl TextEntityTypeHashtag {
    pub open spec fn tag_spec() -> Seq<char> {
        "textEntityTypeHashtag"@
    }

    /// The members of the wire object, in the order they are written.
    pub open spec fn members_spec(self) -> Seq<(Seq<char>, SpecJson)> {
        seq![
            ("@type"@, SpecJson::Str(Self::tag_spec())),
            ("@extra"@, opt_str_tree(opt_str_view(self.extra))),
        ]
    }

    pub open spec fn fields_ok(t: SpecJson) -> bool {
        &&& ok_opt_str(t, "@extra"@)
    }

    pub open spec fn fail_field(t: SpecJson) -> Seq<char> {
        if !ok_opt_str(t, "@extra"@) {
            "@extra"@
        } else {
            Seq::empty()
        }
    }

    /// The encoding of a value carries exactly this type's tag.
    pub proof fn lemma_wire_tag(v: TextEntityTypeHashtag)
        ensures
            v.wire_tree() matches Some(t) ==> tag_of(t) == Some(TextEntityTypeHashtag::tag_spec()),
    {
        if v.wire_tree() is Some {
            let t = v.wire_tree()->0;
            let ms = t->Obj_0;
            lemma_get_spec_found(ms, "@type"@, 0);
        }
    }
}

impl Clone for TextEntityTypeHashtag {
    fn clone(&self) -> (res: Self)
        ensures
            res.eqv(*self),
    {
        TextEntityTypeHashtag {
            extra: clone_opt_string(&self.extra),
        }
    }
}

impl Wire for TextEntityTypeHashtag {
    open spec fn wire_tree(self) -> Option<SpecJson> {
        Some(SpecJson::Obj(self.members_spec()))
    }

    open spec fn accepts(t: SpecJson) -> bool {
        tag_of(t) is Some && Self::fields_ok(t)
    }

    open spec fn err_of(t: SpecJson) -> SpecDecodeError {
        match tag_of(t) {
            None => SpecDecodeError::Malformed,
            Some(_) => SpecDecodeError::FieldShapeMismatch(Self::tag_spec(), Self::fail_field(t)),
        }
    }

    open spec fn decodes_from(t: SpecJson, v: Self) -> bool {
        &&& m_opt_str(t, "@extra"@, v.extra)
    }

    open spec fn eqv(self, other: Self) -> bool {
        &&& eqv_opt_string(self.extra, other.extra)
    }

    fn clone_val(&self) -> (r: Self) {
        self.clone()
    }

    fn decode_tree(t: &JsonValue) -> (r: Result<Self, DecodeError>) {
        if get_tag(t).is_none() {
            return Err(DecodeError::Malformed);
        }
        let extra = match field_opt_string(t, "@extra") {
            Some(x) => x,
            None => {
                return Err(DecodeError::FieldShapeMismatch(
                    String::from_str("textEntityTypeHashtag"),
                    String::from_str("@extra"),
                ));
            },
        };
        Ok(TextEntityTypeHashtag { extra })
    }

    fn encode_tree(&self) -> (r: Result<JsonValue, EncodeError>) {
        let mut members: Vec<JsonMember> = Vec::new();
        proof {
            assert(view_members(members@) =~= Seq::<(Seq<char>, SpecJson)>::empty());
        }
        push_member(&mut members, "@type", JsonValue::Str(String::from_str("textEntityTypeHashtag")));
        push_member(&mut members, "@extra", opt_string_tree(&self.extra));
        let node = JsonValue::Obj(members);
        proof {
            assert(view_members(members@) =~= self.members_spec());
            assert(node@ == self.wire_tree()->0);
        }
        Ok(node)
    }

    proof fn lemma_wire_wf(v: Self) {
        if v.wire_tree() is Some {
            let t = v.wire_tree()->0;
            let ms = t->Obj_0;
            assert(ms == v.members_spec());
            assert forall|i: int| 0 <= i < ms.len() implies wf(#[trigger] ms[i].1) by {
            }
        }
    }

    proof fn lemma_round_trip(v: Self) {
        if v.wire_tree() is Some {
            let t = v.wire_tree()->0;
            let ms = t->Obj_0;
            assert(ms == v.members_spec());
            reveal_strlit("@type");
            reveal_strlit("@extra");
            assert("@type"@.len() == 5);
            assert("@extra"@.len() == 6);
            reveal_with_fuel(get_spec, 4);
            lemma_get_spec_found(ms, "@type"@, 0);
            lemma_get_spec_found(ms, "@extra"@, 1);
            assert(tag_of(t) == Some(Self::tag_spec()));
            assert(ok_opt_str(t, "@extra"@));
            assert(Self::accepts(t));
            assert forall|w: Self| Self::decodes_from(t, w) implies #[trigger] w.eqv(v) by {
            }
        }
    }
}

impl RObject for TextEntityTypeHashtag {
    open spec fn tag_chars(&self) -> Seq<char> {
        Self::tag_spec()
    }

    open spec fn extra_spec(&self) -> Option<Seq<char>> {
        opt_str_view(self.extra)
    }

    fn td_name(&self) -> (r: &'static str) {
        "textEntityTypeHashtag"
    }

    fn extra(&self) -> (r: Option<String>) {
        clone_opt_string(&self.extra)
    }

    fn to_json(&self) -> (r: Result<String, EncodeError>) {
        crate::object::encode(self)
    }
}

impl TDTextEntityType for TextEntityTypeHashtag {

}

impl TextEntityTypeHashtag {
    pub fn from_json(json: &str) -> (r: Result<TextEntityTypeHashtag, DecodeError>)
        ensures
            match crate::parse::parse_doc(json@) {
                Some(t) => match r {
                    Ok(v) => Self::accepts(t) && Self::decodes_from(t, v),
                    Err(e) => !Self::accepts(t) && crate::errors::err_matches(e, Self::err_of(t)),
                },
                None => r matches Err(e) && e == DecodeError::Malformed,
            },
    {
        crate::object::from_json::<TextEntityTypeHashtag>(json)
    }

    pub fn builder() -> (r: RTDTextEntityTypeHashtagBuilder)
        ensures
            r.inner.extra is Some,
    {
        RTDTextEntityTypeHashtagBuilder {
            inner: TextEntityTypeHashtag {
                extra: Some(new_token()),
            },
        }
    }
}

pub struct RTDTextEntityTypeHashtagBuilder {
    pub inner: TextEntityTypeHashtag,
}

impl RTDTextEntityTypeHashtagBuilder {
    pub fn build(&self) -> (r: TextEntityTypeHashtag)
        ensures
            r.eqv(self.inner),
    {
        self.inner.clone()
    }
}
/// An italic text
#[derive(Debug, PartialEq)]
pub struct TextEntityTypeItalic {
    pub extra: Option<String>,
}

impl TextEntityTypeItalic {
    pub open spec fn tag_spec() -> Seq<char> {
        "textEntityTypeItalic"@
    }

    /// The members of the wire object, in the order they are written.
    pub open spec fn members_spec(self) -> Seq<(Seq<char>, SpecJson)> {
        seq![
            ("@type"@, SpecJson::Str(Self::tag_spec())),
            ("@extra"@, opt_str_tree(opt_str_view(self.extra))),
        ]
    }

    pub open spec fn fields_ok(t: SpecJson) -> bool {
        &&& ok_opt_str(t, "@extra"@)
    }

    pub open spec fn fail_field(t: SpecJson) -> Seq<char> {
        if !ok_opt_str(t, "@extra"@) {
            "@extra"@
        } else {
            Seq::empty()
        }
    }

    /// The encoding of a value carries exactly this type's tag.
    pub proof fn lemma_wire_tag(v: TextEntityTypeItalic)
        ensures
            v.wire_tree() matches Some(t) ==> tag_of(t) == Some(TextEntityTypeItalic::tag_spec()),
    {
        if v.wire_tree() is Some {
            let t = v.wire_tree()->0;
            let ms = t->Obj_0;
            lemma_get_spec_found(ms, "@type"@, 0);
        }
    }
}

impl Clone for TextEntityTypeItalic {
    fn clone(&self) -> (res: Self)
        ensures
            res.eqv(*self),
    {
        TextEntityTypeItalic {
            extra: clone_opt_string(&self.extra),
        }
    }
}

impl Wire for TextEntityTypeItalic {
    open spec fn wire_tree(self) -> Option<SpecJson> {
        Some(SpecJson::Obj(self.members_spec()))
    }

    open spec fn accepts(t: SpecJson) -> bool {
        tag_of(t) is Some && Self::fields_ok(t)
    }

    open spec fn err_of(t: SpecJson) -> SpecDecodeError {
        match tag_of(t) {
            None => SpecDecodeError::Malformed,
            Some(_) => SpecDecodeError::FieldShapeMismatch(Self::tag_spec(), Self::fail_field(t)),
        }
    }

    open spec fn decodes_from(t: SpecJson, v: Self) -> bool {
        &&& m_opt_str(t, "@extra"@, v.extra)
    }

    open spec fn eqv(self, other: Self) -> bool {
        &&& eqv_opt_string(self.extra, other.extra)
    }

    fn clone_val(&self) -> (r: Self) {
        self.clone()
    }

    fn decode_tree(t: &JsonValue) -> (r: Result<Self, DecodeError>) {
        if get_tag(t).is_none() {
            return Err(DecodeError::Malformed);
        }
        let extra = match field_opt_string(t, "@extra") {
            Some(x) => x,
            None => {
                return Err(DecodeError::FieldShapeMismatch(
                    String::from_str("textEntityTypeItalic"),
                    String::from_str("@extra"),
                ));
            },
        };
        Ok(TextEntityTypeItalic { extra })
    }

    fn encode_tree(&self) -> (r: Result<JsonValue, EncodeError>) {
        let mut members: Vec<JsonMember> = Vec::new();
        proof {
            assert(view_members(members@) =~= Seq::<(Seq<char>, SpecJson)>::empty());
        }
        push_member(&mut members, "@type", JsonValue::Str(String::from_str("textEntityTypeItalic")));
        push_member(&mut members, "@extra", opt_string_tree(&self.extra));
        let node = JsonValue::Obj(members);
        proof {
            assert(view_members(members@) =~= self.members_spec());
            assert(node@ == self.wire_tree()->0);
        }
        Ok(node)
    }

    proof fn lemma_wire_wf(v: Self) {
        if v.wire_tree() is Some {
            let t = v.wire_tree()->0;
            let ms = t->Obj_0;
            assert(ms == v.members_spec());
            assert forall|i: int| 0 <= i < ms.len() implies wf(#[trigger] ms[i].1) by {
            }
        }
    }

    proof fn lemma_round_trip(v: Self) {
        if v.wire_tree() is Some {
            let t = v.wire_tree()->0;
            let ms = t->Obj_0;
            assert(ms == v.members_spec());
            reveal_strlit("@type");
            reveal_strlit("@extra");
            assert("@type"@.len() == 5);
            assert("@extra"@.len() == 6);
            reveal_with_fuel(get_spec, 4);
            lemma_get_spec_found(ms, "@type"@, 0);
            lemma_get_spec_found(ms, "@extra"@, 1);
            assert(tag_of(t) == Some(Self::tag_spec()));
            assert(ok_opt_str(t, "@extra"@));
            assert(Self::accepts(t));
            assert forall|w: Self| Self::decodes_from(t, w) implies #[trigger] w.eqv(v) by {
            }
        }
    }
}

impl RObject for TextEntityTypeItalic {
    open spec fn tag_chars(&self) -> Seq<char> {
        Self::tag_spec()
    }

    open spec fn extra_spec(&self) -> Option<Seq<char>> {
        opt_str_view(self.extra)
    }

    fn td_name(&self) -> (r: &'static str) {
        "textEntityTypeItalic"
    }

    fn extra(&self) -> (r: Option<String>) {
        clone_opt_string(&self.extra)
    }

    fn to_json(&self) -> (r: Result<String, EncodeError>) {
        crate::object::encode(self)
    }
}

impl TDTextEntityType for TextEntityTypeItalic {

}

impl TextEntityTypeItalic {
    pub fn from_json(json: &str) -> (r: Result<TextEntityTypeItalic, DecodeError>)
        ensures
            match crate::parse::parse_doc(json@) {
                Some(t) => match r {
                    Ok(v) => Self::accepts(t) && Self::decodes_from(t, v),
                    Err(e) => !Self::accepts(t) && crate::errors::err_matches(e, Self::err_of(t)),
                },
                None => r matches Err(e) && e == DecodeError::Malformed,
            },
    {
        crate::object::from_json::<TextEntityTypeItalic>(json)
    }

    pub fn builder() -> (r: RTDTextEntityTypeItalicBuilder)
        ensures
            r.inner.extra is Some,
    {
        RTDTextEntityTypeItalicBuilder {
            inner: TextEntityTypeItalic {
                extra: Some(new_token()),
            },
        }
    }
}

pub struct RTDTextEntityTypeItalicBuilder {
    pub inner: TextEntityTypeItalic,
}

impl RTDTextEntityTypeItalicBuilder {
    pub fn build(&self) -> (r: TextEntityTypeItalic)
        ensures
            r.eqv(self.inner),
    {
        self.inner.clone()
    }
}
/// A media timestamp
#[derive(Debug, PartialEq)]
pub struct TextEntityTypeMediaTimestamp {
    pub extra: Option<String>,
    /// Timestamp from which a video/audio/video note/voice note playing must start, in seconds. The media can be in the content or the web page preview of the current message, or in the same places in the replied message
    pub media_timestamp: i64,
}

impl TextEntityTypeMediaTimestamp {
    pub open spec fn tag_spec() -> Seq<char> {
        "textEntityTypeMediaTimestamp"@
    }

    /// The members of the wire object, in the order they are written.
    pub open spec fn members_spec(self) -> Seq<(Seq<char>, SpecJson)> {
        seq![
            ("@type"@, SpecJson::Str(Self::tag_spec())),
            ("@extra"@, opt_str_tree(opt_str_view(self.extra))),
            ("media_timestamp"@, SpecJson::Num(i64_lex(self.media_timestamp as int))),
        ]
    }

    pub open spec fn fields_ok(t: SpecJson) -> bool {
        &&& ok_opt_str(t, "@extra"@)
        &&& ok_i64(t, "media_timestamp"@)
    }

    pub open spec fn fail_field(t: SpecJson) -> Seq<char> {
        if !ok_opt_str(t, "@extra"@) {
            "@extra"@
        } else if !(ok_i64(t, "media_timestamp"@)) {
            "media_timestamp"@
        } else {
            Seq::empty()
        }
    }

    /// The encoding of a value carries exactly this type's tag.
    pub proof fn lemma_wire_tag(v: TextEntityTypeMediaTimestamp)
        ensures
            v.wire_tree() matches Some(t) ==> tag_of(t) == Some(TextEntityTypeMediaTimestamp::tag_spec()),
    {
        if v.wire_tree() is Some {
            let t = v.wire_tree()->0;
            let ms = t->Obj_0;
            lemma_get_spec_found(ms, "@type"@, 0);
        }
    }
}

impl Clone for TextEntityTypeMediaTimestamp {
    fn clone(&self) -> (res: Self)
        ensures
            res.eqv(*self),
    {
        TextEntityTypeMediaTimestamp {
            extra: clone_opt_string(&self.extra),
            media_timestamp: self.media_timestamp,
        }
    }
}

impl Wire for TextEntityTypeMediaTimestamp {
    open spec fn wire_tree(self) -> Option<SpecJson> {
        Some(SpecJson::Obj(self.members_spec()))
    }

    open spec fn accepts(t: SpecJson) -> bool {
        tag_of(t) is Some && Self::fields_ok(t)
    }

    open spec fn err_of(t: SpecJson) -> SpecDecodeError {
        match tag_of(t) {
            None => SpecDecodeError::Malformed,
            Some(_) => SpecDecodeError::FieldShapeMismatch(Self::tag_spec(), Self::fail_field(t)),
        }
    }

    open spec fn decodes_from(t: SpecJson, v: Self) -> bool {
        &&& m_opt_str(t, "@extra"@, v.extra)
        &&& m_i64(t, "media_timestamp"@, v.media_timestamp)
    }

    open spec fn eqv(self, other: Self) -> bool {
        &&& eqv_opt_string(self.extra, other.extra)
        &&& self.media_timestamp == other.media_timestamp
    }

    fn clone_val(&self) -> (r: Self) {
        self.clone()
    }

    fn decode_tree(t: &JsonValue) -> (r: Result<Self, DecodeError>) {
        if get_tag(t).is_none() {
            return Err(DecodeError::Malformed);
        }
        let extra = match field_opt_string(t, "@extra") {
            Some(x) => x,
            None => {
                return Err(DecodeError::FieldShapeMismatch(
                    String::from_str("textEntityTypeMediaTimestamp"),
                    String::from_str("@extra"),
                ));
            },
        };
        let media_timestamp = match field_i64(t, "media_timestamp") {
            Some(x) => x,
            None => {
                return Err(DecodeError::FieldShapeMismatch(
                    String::from_str("textEntityTypeMediaTimestamp"),
                    String::from_str("media_timestamp"),
                ));
            },
        };
        Ok(TextEntityTypeMediaTimestamp { extra, media_timestamp })
    }

    fn encode_tree(&self) -> (r: Result<JsonValue, EncodeError>) {
        let mut members: Vec<JsonMember> = Vec::new();
        proof {
            assert(view_members(members@) =~= Seq::<(Seq<char>, SpecJson)>::empty());
        }
        push_member(&mut members, "@type", JsonValue::Str(String::from_str("textEntityTypeMediaTimestamp")));
        push_member(&mut members, "@extra", opt_string_tree(&self.extra));
        push_member(&mut members, "media_timestamp", JsonValue::Num(i64_lexeme(self.media_timestamp)));
        let node = JsonValue::Obj(members);
        proof {
            assert(view_members(members@) =~= self.members_spec());
            assert(node@ == self.wire_tree()->0);
        }
        Ok(node)
    }

    proof fn lemma_wire_wf(v: Self) {
        if v.wire_tree() is Some {
            let t = v.wire_tree()->0;
            let ms = t->Obj_0;
            assert(ms == v.members_spec());
            crate::json::lemma_i64_lex(v.media_timestamp);
            assert forall|i: int| 0 <= i < ms.len() implies wf(#[trigger] ms[i].1) by {
            }
        }
    }

    proof fn lemma_round_trip(v: Self) {
        if v.wire_tree() is Some {
            let t = v.wire_tree()->0;
            let ms = t->Obj_0;
            assert(ms == v.members_spec());
            reveal_strlit("@type");
            reveal_strlit("@extra");
            reveal_strlit("media_timestamp");
            assert("@type"@.len() == 5);
            assert("@extra"@.len() == 6);
            assert("media_timestamp"@.len() == 15);
            reveal_with_fuel(get_spec, 5);
            lemma_get_spec_found(ms, "@type"@, 0);
            lemma_get_spec_found(ms, "@extra"@, 1);
            lemma_get_spec_found(ms, "media_timestamp"@, 2);
            assert(tag_of(t) == Some(Self::tag_spec()));
            assert(ok_opt_str(t, "@extra"@));
            crate::json::lemma_i64_lex(v.media_timestamp);
            assert(ok_i64(t, "media_timestamp"@));
            assert(Self::accepts(t));
            assert forall|w: Self| Self::decodes_from(t, w) implies #[trigger] w.eqv(v) by {
            }
        }
    }
}

impl RObject for TextEntityTypeMediaTimestamp {
    open spec fn tag_chars(&self) -> Seq<char> {
        Self::tag_spec()
    }

    open spec fn extra_spec(&self) -> Option<Seq<char>> {
        opt_str_view(self.extra)
    }

    fn td_name(&self) -> (r: &'static str) {
        "textEntityTypeMediaTimestamp"
    }

    fn extra(&self) -> (r: Option<String>) {
        clone_opt_string(&self.extra)
    }

    fn to_json(&self) -> (r: Result<String, EncodeError>) {
        crate::object::encode(self)
    }
}

impl TDTextEntityType for TextEntityTypeMediaTimestamp {

}

impl TextEntityTypeMediaTimestamp {
    pub fn from_json(json: &str) -> (r: Result<TextEntityTypeMediaTimestamp, DecodeError>)
        ensures
            match crate::parse::parse_doc(json@) {
                Some(t) => match r {
                    Ok(v) => Self::accepts(t) && Self::decodes_from(t, v),
                    Err(e) => !Self::accepts(t) && crate::errors::err_matches(e, Self::err_of(t)),
                },
                None => r matches Err(e) && e == DecodeError::Malformed,
            },
    {
        crate::object::from_json::<TextEntityTypeMediaTimestamp>(json)
    }

    pub fn builder() -> (r: RTDTextEntityTypeMediaTimestampBuilder)
        ensures
            r.inner.extra is Some,
            r.inner.media_timestamp == 0,
    {
        RTDTextEntityTypeMediaTimestampBuilder {
            inner: TextEntityTypeMediaTimestamp {
                extra: Some(new_token()),
                media_timestamp: 0,
            },
        }
    }

    pub fn media_timestamp(&self) -> (r: i64)
        ensures
            r == self.media_timestamp,
    {
        self.media_timestamp
    }
}

pub struct RTDTextEntityTypeMediaTimestampBuilder {
    pub inner: TextEntityTypeMediaTimestamp,
}

impl RTDTextEntityTypeMediaTimestampBuilder {
    pub fn build(&self) -> (r: TextEntityTypeMediaTimestamp)
        ensures
            r.eqv(self.inner),
    {
        self.inner.clone()
    }

    pub fn media_timestamp(&mut self, media_timestamp: i64) -> (r: &mut Self)
        ensures
            *r == (RTDTextEntityTypeMediaTimestampBuilder { inner: TextEntityTypeMediaTimestamp { media_timestamp: media_timestamp, ..old(self).inner } }),
            *final(self) == *final(r),
    {
        self.inner.media_timestamp = media_timestamp;
        self
    }
}
/// A mention of a user by their username
#[derive(Debug, PartialEq)]
pub struct TextEntityTypeMention {
    pub extra: Option<String>,
}

impl TextEntityTypeMention {
    pub open spec fn tag_spec() -> Seq<char> {
        "textEntityTypeMention"@
    }

    /// The members of the wire object, in the order they are written.
    pub open spec fn members_spec(self) -> Seq<(Seq<char>, SpecJson)> {
        seq![
            ("@type"@, SpecJson::Str(Self::tag_spec())),
            ("@extra"@, opt_str_tree(opt_str_view(self.extra))),
        ]
    }

    pub open spec fn fields_ok(t: SpecJson) -> bool {
        &&& ok_opt_str(t, "@extra"@)
    }

    pub open spec fn fail_field(t: SpecJson) -> Seq<char> {
        if !ok_opt_str(t, "@extra"@) {
            "@extra"@
        } else {
            Seq::empty()
        }
    }

    /// The encoding of a value carries exactly this type's tag.
    pub proof fn lemma_wire_tag(v: TextEntityTypeMention)
        ensures
            v.wire_tree() matches Some(t) ==> tag_of(t) == Some(TextEntityTypeMention::tag_spec()),
    {
        if v.wire_tree() is Some {
            let t = v.wire_tree()->0;
            let ms = t->Obj_0;
            lemma_get_spec_found(ms, "@type"@, 0);
        }
    }
}

impl Clone for TextEntityTypeMention {
    fn clone(&self) -> (res: Self)
        ensures
            res.eqv(*self),
    {
        TextEntityTypeMention {
            extra: clone_opt_string(&self.extra),
        }
    }
}

impl Wire for TextEntityTypeMention {
    open spec fn wire_tree(self) -> Option<SpecJson> {
        Some(SpecJson::Obj(self.members_spec()))
    }

    open spec fn accepts(t: SpecJson) -> bool {
        tag_of(t) is Some && Self::fields_ok(t)
    }

    open spec fn err_of(t: SpecJson) -> SpecDecodeError {
        match tag_of(t) {
            None => SpecDecodeError::Malformed,
            Some(_) => SpecDecodeError::FieldShapeMismatch(Self::tag_spec(), Self::fail_field(t)),
        }
    }

    open spec fn decodes_from(t: SpecJson, v: Self) -> bool {
        &&& m_opt_str(t, "@extra"@, v.extra)
    }

    open spec fn eqv(self, other: Self) -> bool {
        &&& eqv_opt_string(self.extra, other.extra)
    }

    fn clone_val(&self) -> (r: Self) {
        self.clone()
    }

    fn decode_tree(t: &JsonValue) -> (r: Result<Self, DecodeError>) {
        if get_tag(t).is_none() {
            return Err(DecodeError::Malformed);
        }
        let extra = match field_opt_string(t, "@extra") {
            Some(x) => x,
            None => {
                return Err(DecodeError::FieldShapeMismatch(
                    String::from_str("textEntityTypeMention"),
                    String::from_str("@extra"),
                ));
            },
        };
        Ok(TextEntityTypeMention { extra })
    }

    fn encode_tree(&self) -> (r: Result<JsonValue, EncodeError>) {
        let mut members: Vec<JsonMember> = Vec::new();
        proof {
            assert(view_members(members@) =~= Seq::<(Seq<char>, SpecJson)>::empty());
        }
        push_member(&mut members, "@type", JsonValue::Str(String::from_str("textEntityTypeMention")));
        push_member(&mut members, "@extra", opt_string_tree(&self.extra));
        let node = JsonValue::Obj(members);
        proof {
            assert(view_members(members@) =~= self.members_spec());
            assert(node@ == self.wire_tree()->0);
        }
        Ok(node)
    }

    proof fn lemma_wire_wf(v: Self) {
        if v.wire_tree() is Some {
            let t = v.wire_tree()->0;
            let ms = t->Obj_0;
            assert(ms == v.members_spec());
            assert forall|i: int| 0 <= i < ms.len() implies wf(#[trigger] ms[i].1) by {
            }
        }
    }

    proof fn lemma_round_trip(v: Self) {
        if v.wire_tree() is Some {
            let t = v.wire_tree()->0;
            let ms = t->Obj_0;
            assert(ms == v.members_spec());
            reveal_strlit("@type");
            reveal_strlit("@extra");
            assert("@type"@.len() == 5);
            assert("@extra"@.len() == 6);
            reveal_with_fuel(get_spec, 4);
            lemma_get_spec_found(ms, "@type"@, 0);
            lemma_get_spec_found(ms, "@extra"@, 1);
            assert(tag_of(t) == Some(Self::tag_spec()));
            assert(ok_opt_str(t, "@extra"@));
            assert(Self::accepts(t));
            assert forall|w: Self| Self::decodes_from(t, w) implies #[trigger] w.eqv(v) by {
            }
        }
    }
}

impl RObject for TextEntityTypeMention {
    open spec fn tag_chars(&self) -> Seq<char> {
        Self::tag_spec()
    }

    open spec fn extra_spec(&self) -> Option<Seq<char>> {
        opt_str_view(self.extra)
    }

    fn td_name(&self) -> (r: &'static str) {
        "textEntityTypeMention"
    }

    fn extra(&self) -> (r: Option<String>) {
        clone_opt_string(&self.extra)
    }

    fn to_json(&self) -> (r: Result<String, EncodeError>) {
        crate::object::encode(self)
    }
}

impl TDTextEntityType for TextEntityTypeMention {

}

impl TextEntityTypeMention {
    pub fn from_json(json: &str) -> (r: Result<TextEntityTypeMention, DecodeError>)
        ensures
            match crate::parse::parse_doc(json@) {
                Some(t) => match r {
                    Ok(v) => Self::accepts(t) && Self::decodes_from(t, v),
                    Err(e) => !Self::accepts(t) && crate::errors::err_matches(e, Self::err_of(t)),
                },
                None => r matches Err(e) && e == DecodeError::Malformed,
            },
    {
        crate::object::from_json::<TextEntityTypeMention>(json)
    }

    pub fn builder() -> (r: RTDTextEntityTypeMentionBuilder)
        ensures
            r.inner.extra is Some,
    {
        RTDTextEntityTypeMentionBuilder {
            inner: TextEntityTypeMention {
                extra: Some(new_token()),
            },
        }
    }
}

pub struct RTDTextEntityTypeMentionBuilder {
    pub inner: TextEntityTypeMention,
}

impl RTDTextEntityTypeMentionBuilder {
    pub fn build(&self) -> (r: TextEntityTypeMention)
        ensures
            r.eqv(self.inner),
    {
        self.inner.clone()
    }
}
/// A text shows instead of a raw mention of the user (e.g., when the user has no username)
#[derive(Debug, PartialEq)]
pub struct TextEntityTypeMentionName {
    pub extra: Option<String>,
    /// Identifier of the mentioned user
    pub user_id: i64,
}

impl TextEntityTypeMentionName {
    pub open spec fn tag_spec() -> Seq<char> {
        "textEntityTypeMentionName"@
    }

    /// The members of the wire object, in the order they are written.
    pub open spec fn members_spec(self) -> Seq<(Seq<char>, SpecJson)> {
        seq![
            ("@type"@, SpecJson::Str(Self::tag_spec())),
            ("@extra"@, opt_str_tree(opt_str_view(self.extra))),
            ("user_id"@, SpecJson::Num(i64_lex(self.user_id as int))),
        ]
    }

    pub open spec fn fields_ok(t: SpecJson) -> bool {
        &&& ok_opt_str(t, "@extra"@)
        &&& ok_i64(t, "user_id"@)
    }

    pub open spec fn fail_field(t: SpecJson) -> Seq<char> {
        if !ok_opt_str(t, "@extra"@) {
            "@extra"@
        } else if !(ok_i64(t, "user_id"@)) {
            "user_id"@
        } else {
            Seq::empty()
        }
    }

    /// The encoding of a value carries exactly this type's tag.
    pub proof fn lemma_wire_tag(v: TextEntityTypeMentionName)
        ensures
            v.wire_tree() matches Some(t) ==> tag_of(t) == Some(TextEntityTypeMentionName::tag_spec()),
    {
        if v.wire_tree() is Some {
            let t = v.wire_tree()->0;
            let ms = t->Obj_0;
            lemma_get_spec_found(ms, "@type"@, 0);
        }
    }
}

impl Clone for TextEntityTypeMentionName {
    fn clone(&self) -> (res: Self)
        ensures
            res.eqv(*self),
    {
        TextEntityTypeMentionName {
            extra: clone_opt_string(&self.extra),
            user_id: self.user_id,
        }
    }
}

impl Wire for TextEntityTypeMentionName {
    open spec fn wire_tree(self) -> Option<SpecJson> {
        Some(SpecJson::Obj(self.members_spec()))
    }

    open spec fn accepts(t: SpecJson) -> bool {
        tag_of(t) is Some && Self::fields_ok(t)
    }

    open spec fn err_of(t: SpecJson) -> SpecDecodeError {
        match tag_of(t) {
            None => SpecDecodeError::Malformed,
            Some(_) => SpecDecodeError::FieldShapeMismatch(Self::tag_spec(), Self::fail_field(t)),
        }
    }

    open spec fn decodes_from(t: SpecJson, v: Self) -> bool {
        &&& m_opt_str(t, "@extra"@, v.extra)
        &&& m_i64(t, "user_id"@, v.user_id)
    }

    open spec fn eqv(self, other: Self) -> bool {
        &&& eqv_opt_string(self.extra, other.extra)
        &&& self.user_id == other.user_id
    }

    fn clone_val(&self) -> (r: Self) {
        self.clone()
    }

    fn decode_tree(t: &JsonValue) -> (r: Result<Self, DecodeError>) {
        if get_tag(t).is_none() {
            return Err(DecodeError::Malformed);
        }
        let extra = match field_opt_string(t, "@extra") {
            Some(x) => x,
            None => {
                return Err(DecodeError::FieldShapeMismatch(
                    String::from_str("textEntityTypeMentionName"),
                    String::from_str("@extra"),
                ));
            },
        };
        let user_id = match field_i64(t, "user_id") {
            Some(x) => x,
            None => {
                return Err(DecodeError::FieldShapeMismatch(
                    String::from_str("textEntityTypeMentionName"),
                    String::from_str("user_id"),
                ));
            },
        };
        Ok(TextEntityTypeMentionName { extra, user_id })
    }

    fn encode_tree(&self) -> (r: Result<JsonValue, EncodeError>) {
        let mut members: Vec<JsonMember> = Vec::new();
        proof {
            assert(view_members(members@) =~= Seq::<(Seq<char>, SpecJson)>::empty());
        }
        push_member(&mut members, "@type", JsonValue::Str(String::from_str("textEntityTypeMentionName")));
        push_member(&mut members, "@extra", opt_string_tree(&self.extra));
        push_member(&mut members, "user_id", JsonValue::Num(i64_lexeme(self.user_id)));
        let node = JsonValue::Obj(members);
        proof {
            assert(view_members(members@) =~= self.members_spec());
            assert(node@ == self.wire_tree()->0);
        }
        Ok(node)
    }

    proof fn lemma_wire_wf(v: Self) {
        if v.wire_tree() is Some {
            let t = v.wire_tree()->0;
            let ms = t->Obj_0;
            assert(ms == v.members_spec());
            crate::json::lemma_i64_lex(v.user_id);
            assert forall|i: int| 0 <= i < ms.len() implies wf(#[trigger] ms[i].1) by {
            }
        }
    }

    proof fn lemma_round_trip(v: Self) {
        if v.wire_tree() is Some {
            let t = v.wire_tree()->0;
            let ms = t->Obj_0;
            assert(ms == v.members_spec());
            reveal_strlit("@type");
            reveal_strlit("@extra");
            reveal_strlit("user_id");
            assert("@type"@.len() == 5);
            assert("@extra"@.len() == 6);
            assert("user_id"@.len() == 7);
            reveal_with_fuel(get_spec, 5);
            lemma_get_spec_found(ms, "@type"@, 0);
            lemma_get_spec_found(ms, "@extra"@, 1);
            lemma_get_spec_found(ms, "user_id"@, 2);
            assert(tag_of(t) == Some(Self::tag_spec()));
            assert(ok_opt_str(t, "@extra"@));
            crate::json::lemma_i64_lex(v.user_id);
            assert(ok_i64(t, "user_id"@));
            assert(Self::accepts(t));
            assert forall|w: Self| Self::decodes_from(t, w) implies #[trigger] w.eqv(v) by {
            }
        }
    }
}

impl RObject for TextEntityTypeMentionName {
    open spec fn tag_chars(&self) -> Seq<char> {
        Self::tag_spec()
    }

    open spec fn extra_spec(&self) -> Option<Seq<char>> {
        opt_str_view(self.extra)
    }

    fn td_name(&self) -> (r: &'static str) {
        "textEntityTypeMentionName"
    }

    fn extra(&self) -> (r: Option<String>) {
        clone_opt_string(&self.extra)
    }

    fn to_json(&self) -> (r: Result<String, EncodeError>) {
        crate::object::encode(self)
    }
}

impl TDTextEntityType for TextEntityTypeMentionName {

}

impl TextEntityTypeMentionName {
    pub fn from_json(json: &str) -> (r: Result<TextEntityTypeMentionName, DecodeError>)
        ensures
            match crate::parse::parse_doc(json@) {
                Some(t) => match r {
                    Ok(v) => Self::accepts(t) && Self::decodes_from(t, v),
                    Err(e) => !Self::accepts(t) && crate::errors::err_matches(e, Self::err_of(t)),
                },
                None => r matches Err(e) && e == DecodeError::Malformed,
            },
    {
        crate::object::from_json::<TextEntityTypeMentionName>(json)
    }

    pub fn builder() -> (r: RTDTextEntityTypeMentionNameBuilder)
        ensures
            r.inner.extra is Some,
            r.inner.user_id == 0,
    {
        RTDTextEntityTypeMentionNameBuilder {
            inner: TextEntityTypeMentionName {
                extra: Some(new_token()),
                user_id: 0,
            },
        }
    }

    pub fn user_id(&self) -> (r: i64)
        ensures
            r == self.user_id,
    {
        self.user_id
    }
}

pub struct RTDTextEntityTypeMentionNameBuilder {
    pub inner: TextEntityTypeMentionName,
}

impl RTDTextEntityTypeMentionNameBuilder {
    pub fn build(&self) -> (r: TextEntityTypeMentionName)
        ensures
            r.eqv(self.inner),
    {
        self.inner.clone()
    }

    pub fn user_id(&mut self, user_id: i64) -> (r: &mut Self)
        ensures
            *r == (RTDTextEntityTypeMentionNameBuilder { inner: TextEntityTypeMentionName { user_id: user_id, ..old(self).inner } }),
            *final(self) == *final(r),
    {
        self.inner.user_id = user_id;
        self
    }
}
/// A phone number
#[derive(Debug, PartialEq)]
pub struct TextEntityTypePhoneNumber {
    pub extra: Option<String>,
}

impl TextEntityTypePhoneNumber {
    pub open spec fn tag_spec() -> Seq<char> {
        "textEntityTypePhoneNumber"@
    }

    /// The members of the wire object, in the order they are written.
    pub open spec fn members_spec(self) -> Seq<(Seq<char>, SpecJson)> {
        seq![
            ("@type"@, SpecJson::Str(Self::tag_spec())),
            ("@extra"@, opt_str_tree(opt_str_view(self.extra))),
        ]
    }

    pub open spec fn fields_ok(t: SpecJson) -> bool {
        &&& ok_opt_str(t, "@extra"@)
    }

    pub open spec fn fail_field(t: SpecJson) -> Seq<char> {
        if !ok_opt_str(t, "@extra"@) {
            "@extra"@
        } else {
            Seq::empty()
        }
    }

    /// The encoding of a value carries exactly this type's tag.
    pub proof fn lemma_wire_tag(v: TextEntityTypePhoneNumber)
        ensures
            v.wire_tree() matches Some(t) ==> tag_of(t) == Some(TextEntityTypePhoneNumber::tag_spec()),
    {
        if v.wire_tree() is Some {
            let t = v.wire_tree()->0;
            let ms = t->Obj_0;
            lemma_get_spec_found(ms, "@type"@, 0);
        }
    }
}

impl Clone for TextEntityTypePhoneNumber {
    fn clone(&self) -> (res: Self)
        ensures
            res.eqv(*self),
    {
        TextEntityTypePhoneNumber {
            extra: clone_opt_string(&self.extra),
        }
    }
}

impl Wire for TextEntityTypePhoneNumber {
    open spec fn wire_tree(self) -> Option<SpecJson> {
        Some(SpecJson::Obj(self.members_spec()))
    }

    open spec fn accepts(t: SpecJson) -> bool {
        tag_of(t) is Some && Self::fields_ok(t)
    }

    open spec fn err_of(t: SpecJson) -> SpecDecodeError {
        match tag_of(t) {
            None => SpecDecodeError::Malformed,
            Some(_) => SpecDecodeError::FieldShapeMismatch(Self::tag_spec(), Self::fail_field(t)),
        }
    }

    open spec fn decodes_from(t: SpecJson, v: Self) -> bool {
        &&& m_opt_str(t, "@extra"@, v.extra)
    }

    open spec fn eqv(self, other: Self) -> bool {
        &&& eqv_opt_string(self.extra, other.extra)
    }

    fn clone_val(&self) -> (r: Self) {
        self.clone()
    }

    fn decode_tree(t: &JsonValue) -> (r: Result<Self, DecodeError>) {
        if get_tag(t).is_none() {
            return Err(DecodeError::Malformed);
        }
        let extra = match field_opt_string(t, "@extra") {
            Some(x) => x,
            None => {
                return Err(DecodeError::FieldShapeMismatch(
                    String::from_str("textEntityTypePhoneNumber"),
                    String::from_str("@extra"),
                ));
            },
        };
        Ok(TextEntityTypePhoneNumber { extra })
    }

    fn encode_tree(&self) -> (r: Result<JsonValue, EncodeError>) {
        let mut members: Vec<JsonMember> = Vec::new();
        proof {
            assert(view_members(members@) =~= Seq::<(Seq<char>, SpecJson)>::empty());
        }
        push_member(&mut members, "@type", JsonValue::Str(String::from_str("textEntityTypePhoneNumber")));
        push_member(&mut members, "@extra", opt_string_tree(&self.extra));
        let node = JsonValue::Obj(members);
        proof {
            assert(view_members(members@) =~= self.members_spec());
            assert(node@ == self.wire_tree()->0);
        }
        Ok(node)
    }

    proof fn lemma_wire_wf(v: Self) {
        if v.wire_tree() is Some {
            let t = v.wire_tree()->0;
            let ms = t->Obj_0;
            assert(ms == v.members_spec());
            assert forall|i: int| 0 <= i < ms.len() implies wf(#[trigger] ms[i].1) by {
            }
        }
    }

    proof fn lemma_round_trip(v: Self) {
        if v.wire_tree() is Some {
            let t = v.wire_tree()->0;
            let ms = t->Obj_0;
            assert(ms == v.members_spec());
            reveal_strlit("@type");
            reveal_strlit("@extra");
            assert("@type"@.len() == 5);
            assert("@extra"@.len() == 6);
            reveal_with_fuel(get_spec, 4);
            lemma_get_spec_found(ms, "@type"@, 0);
            lemma_get_spec_found(ms, "@extra"@, 1);
            assert(tag_of(t) == Some(Self::tag_spec()));
            assert(ok_opt_str(t, "@extra"@));
            assert(Self::accepts(t));
            assert forall|w: Self| Self::decodes_from(t, w) implies #[trigger] w.eqv(v) by {
            }
        }
    }
}

impl RObject for TextEntityTypePhoneNumber {
    open spec fn tag_chars(&self) -> Seq<char> {
        Self::tag_spec()
    }

    open spec fn extra_spec(&self) -> Option<Seq<char>> {
        opt_str_view(self.extra)
    }

    fn td_name(&self) -> (r: &'static str) {
        "textEntityTypePhoneNumber"
    }

    fn extra(&self) -> (r: Option<String>) {
        clone_opt_string(&self.extra)
    }

    fn to_json(&self) -> (r: Result<String, EncodeError>) {
        crate::object::encode(self)
    }
}

impl TDTextEntityType for TextEntityTypePhoneNumber {

}

impl TextEntityTypePhoneNumber {
    pub fn from_json(json: &str) -> (r: Result<TextEntityTypePhoneNumber, DecodeError>)
        ensures
            match crate::parse::parse_doc(json@) {
                Some(t) => match r {
                    Ok(v) => Self::accepts(t) && Self::decodes_from(t, v),
                    Err(e) => !Self::accepts(t) && crate::errors::err_matches(e, Self::err_of(t)),
                },
                None => r matches Err(e) && e == DecodeError::Malformed,
            },
    {
        crate::object::from_json::<TextEntityTypePhoneNumber>(json)
    }

    pub fn builder() -> (r: RTDTextEntityTypePhoneNumberBuilder)
        ensures
            r.inner.extra is Some,
    {
        RTDTextEntityTypePhoneNumberBuilder {
            inner: TextEntityTypePhoneNumber {
                extra: Some(new_token()),
            },
        }
    }
}

pub struct RTDTextEntityTypePhoneNumberBuilder {
    pub inner: TextEntityTypePhoneNumber,
}

impl RTDTextEntityTypePhoneNumberBuilder {
    pub fn build(&self) -> (r: TextEntityTypePhoneNumber)
        ensures
            r.eqv(self.inner),
    {
        self.inner.clone()
    }
}
/// Text that must be formatted as if inside a pre HTML tag
#[derive(Debug, PartialEq)]
pub struct TextEntityTypePre {
    pub extra: Option<String>,
}

impl TextEntityTypePre {
    pub open spec fn tag_spec() -> Seq<char> {
        "textEntityTypePre"@
    }

    /// The members of the wire object, in the order they are written.
    pub open spec fn members_spec(self) -> Seq<(Seq<char>, SpecJson)> {
        seq![
            ("@type"@, SpecJson::Str(Self::tag_spec())),
            ("@extra"@, opt_str_tree(opt_str_view(self.extra))),
        ]
    }

    pub open spec fn fields_ok(t: SpecJson) -> bool {
        &&& ok_opt_str(t, "@extra"@)
    }

    pub open spec fn fail_field(t: SpecJson) -> Seq<char> {
        if !ok_opt_str(t, "@extra"@) {
            "@extra"@
        } else {
            Seq::empty()
        }
    }

    /// The encoding of a value carries exactly this type's tag.
    pub proof fn lemma_wire_tag(v: TextEntityTypePre)
        ensures
            v.wire_tree() matches Some(t) ==> tag_of(t) == Some(TextEntityTypePre::tag_spec()),
    {
        if v.wire_tree() is Some {
            let t = v.wire_tree()->0;
            let ms = t->Obj_0;
            lemma_get_spec_found(ms, "@type"@, 0);
        }
    }
}

impl Clone for TextEntityTypePre {
    fn clone(&self) -> (res: Self)
        ensures
            res.eqv(*self),
    {
        TextEntityTypePre {
            extra: clone_opt_string(&self.extra),
        }
    }
}

impl Wire for TextEntityTypePre {
    open spec fn wire_tree(self) -> Option<SpecJson> {
        Some(SpecJson::Obj(self.members_spec()))
    }

    open spec fn accepts(t: SpecJson) -> bool {
        tag_of(t) is Some && Self::fields_ok(t)
    }

    open spec fn err_of(t: SpecJson) -> SpecDecodeError {
        match tag_of(t) {
            None => SpecDecodeError::Malformed,
            Some(_) => SpecDecodeError::FieldShapeMismatch(Self::tag_spec(), Self::fail_field(t)),
        }
    }

    open spec fn decodes_from(t: SpecJson, v: Self) -> bool {
        &&& m_opt_str(t, "@extra"@, v.extra)
    }

    open spec fn eqv(self, other: Self) -> bool {
        &&& eqv_opt_string(self.extra, other.extra)
    }

    fn clone_val(&self) -> (r: Self) {
        self.clone()
    }

    fn decode_tree(t: &JsonValue) -> (r: Result<Self, DecodeError>) {
        if get_tag(t).is_none() {
            return Err(DecodeError::Malformed);
        }
        let extra = match field_opt_string(t, "@extra") {
            Some(x) => x,
            None => {
                return Err(DecodeError::FieldShapeMismatch(
                    String::from_str("textEntityTypePre"),
                    String::from_str("@extra"),
                ));
            },
        };
        Ok(TextEntityTypePre { extra })
    }

    fn encode_tree(&self) -> (r: Result<JsonValue, EncodeError>) {
        let mut members: Vec<JsonMember> = Vec::new();
        proof {
            assert(view_members(members@) =~= Seq::<(Seq<char>, SpecJson)>::empty());
        }
        push_member(&mut members, "@type", JsonValue::Str(String::from_str("textEntityTypePre")));
        push_member(&mut members, "@extra", opt_string_tree(&self.extra));
        let node = JsonValue::Obj(members);
        proof {
            assert(view_members(members@) =~= self.members_spec());
            assert(node@ == self.wire_tree()->0);
        }
        Ok(node)
    }

    proof fn lemma_wire_wf(v: Self) {
        if v.wire_tree() is Some {
            let t = v.wire_tree()->0;
            let ms = t->Obj_0;
            assert(ms == v.members_spec());
            assert forall|i: int| 0 <= i < ms.len() implies wf(#[trigger] ms[i].1) by {
            }
        }
    }

    proof fn lemma_round_trip(v: Self) {
        if v.wire_tree() is Some {
            let t = v.wire_tree()->0;
            let ms = t->Obj_0;
            assert(ms == v.members_spec());
            reveal_strlit("@type");
            reveal_strlit("@extra");
            assert("@type"@.len() == 5);
            assert("@extra"@.len() == 6);
            reveal_with_fuel(get_spec, 4);
            lemma_get_spec_found(ms, "@type"@, 0);
            lemma_get_spec_found(ms, "@extra"@, 1);
            assert(tag_of(t) == Some(Self::tag_spec()));
            assert(ok_opt_str(t, "@extra"@));
            assert(Self::accepts(t));
            assert forall|w: Self| Self::decodes_from(t, w) implies #[trigger] w.eqv(v) by {
            }
        }
    }
}

impl RObject for TextEntityTypePre {
    open spec fn tag_chars(&self) -> Seq<char> {
        Self::tag_spec()
    }

    open spec fn extra_spec(&self) -> Option<Seq<char>> {
        opt_str_view(self.extra)
    }

    fn td_name(&self) -> (r: &'static str) {
        "textEntityTypePre"
    }

    fn extra(&self) -> (r: Option<String>) {
        clone_opt_string(&self.extra)
    }

    fn to_json(&self) -> (r: Result<String, EncodeError>) {
        crate::object::encode(self)
    }
}

impl TDTextEntityType for TextEntityTypePre {

}

impl TextEntityTypePre {
    pub fn from_json(json: &str) -> (r: Result<TextEntityTypePre, DecodeError>)
        ensures
            match crate::parse::parse_doc(json@) {
                Some(t) => match r {
                    Ok(v) => Self::accepts(t) && Self::decodes_from(t, v),
                    Err(e) => !Self::accepts(t) && crate::errors::err_matches(e, Self::err_of(t)),
                },
                None => r matches Err(e) && e == DecodeError::Malformed,
            },
    {
        crate::object::from_json::<TextEntityTypePre>(json)
    }

    pub fn builder() -> (r: RTDTextEntityTypePreBuilder)
        ensures
            r.inner.extra is Some,
    {
        RTDTextEntityTypePreBuilder {
            inner: TextEntityTypePre {
                extra: Some(new_token()),
            },
        }
    }
}

pub struct RTDTextEntityTypePreBuilder {
    pub inner: TextEntityTypePre,
}

impl RTDTextEntityTypePreBuilder {
    pub fn build(&self) -> (r: TextEntityTypePre)
        ensures
            r.eqv(self.inner),
    {
        self.inner.clone()
    }
}
/// Text that must be formatted as if inside pre, and code HTML tags
#[derive(Debug, PartialEq)]
pub struct TextEntityTypePreCode {
    pub extra: Option<String>,
    /// Programming language of the code; as defined by the sender
    pub language: String,
}

impl TextEntityTypePreCode {
    pub open spec fn tag_spec() -> Seq<char> {
        "textEntityTypePreCode"@
    }

    /// The members of the wire object, in the order they are written.
    pub open spec fn members_spec(self) -> Seq<(Seq<char>, SpecJson)> {
        seq![
            ("@type"@, SpecJson::Str(Self::tag_spec())),
            ("@extra"@, opt_str_tree(opt_str_view(self.extra))),
            ("language"@, SpecJson::Str(self.language@)),
        ]
    }

    pub open spec fn fields_ok(t: SpecJson) -> bool {
        &&& ok_opt_str(t, "@extra"@)
        &&& ok_str(t, "language"@)
    }

    pub open spec fn fail_field(t: SpecJson) -> Seq<char> {
        if !ok_opt_str(t, "@extra"@) {
            "@extra"@
        } else if !(ok_str(t, "language"@)) {
            "language"@
        } else {
            Seq::empty()
        }
    }

    /// The encoding of a value carries exactly this type's tag.
    pub proof fn lemma_wire_tag(v: TextEntityTypePreCode)
        ensures
            v.wire_tree() matches Some(t) ==> tag_of(t) == Some(TextEntityTypePreCode::tag_spec()),
    {
        if v.wire_tree() is Some {
            let t = v.wire_tree()->0;
            let ms = t->Obj_0;
            lemma_get_spec_found(ms, "@type"@, 0);
        }
    }
}

impl Clone for TextEntityTypePreCode {
    fn clone(&self) -> (res: Self)
        ensures
            res.eqv(*self),
    {
        TextEntityTypePreCode {
            extra: clone_opt_string(&self.extra),
            language: self.language.clone(),
        }
    }
}

impl Wire for TextEntityTypePreCode {
    open spec fn wire_tree(self) -> Option<SpecJson> {
        Some(SpecJson::Obj(self.members_spec()))
    }

    open spec fn accepts(t: SpecJson) -> bool {
        tag_of(t) is Some && Self::fields_ok(t)
    }

    open spec fn err_of(t: SpecJson) -> SpecDecodeError {
        match tag_of(t) {
            None => SpecDecodeError::Malformed,
            Some(_) => SpecDecodeError::FieldShapeMismatch(Self::tag_spec(), Self::fail_field(t)),
        }
    }

    open spec fn decodes_from(t: SpecJson, v: Self) -> bool {
        &&& m_opt_str(t, "@extra"@, v.extra)
        &&& m_str(t, "language"@, v.language@)
    }

    open spec fn eqv(self, other: Self) -> bool {
        &&& eqv_opt_string(self.extra, other.extra)
        &&& self.language@ == other.language@
    }

    fn clone_val(&self) -> (r: Self) {
        self.clone()
    }

    fn decode_tree(t: &JsonValue) -> (r: Result<Self, DecodeError>) {
        if get_tag(t).is_none() {
            return Err(DecodeError::Malformed);
        }
        let extra = match field_opt_string(t, "@extra") {
            Some(x) => x,
            None => {
                return Err(DecodeError::FieldShapeMismatch(
                    String::from_str("textEntityTypePreCode"),
                    String::from_str("@extra"),
                ));
            },
        };
        let language = match field_string(t, "language") {
            Some(x) => x,
            None => {
                return Err(DecodeError::FieldShapeMismatch(
                    String::from_str("textEntityTypePreCode"),
                    String::from_str("language"),
                ));
            },
        };
        Ok(TextEntityTypePreCode { extra, language })
    }

    fn encode_tree(&self) -> (r: Result<JsonValue, EncodeError>) {
        let mut members: Vec<JsonMember> = Vec::new();
        proof {
            assert(view_members(members@) =~= Seq::<(Seq<char>, SpecJson)>::empty());
        }
        push_member(&mut members, "@type", JsonValue::Str(String::from_str("textEntityTypePreCode")));
        push_member(&mut members, "@extra", opt_string_tree(&self.extra));
        push_member(&mut members, "language", JsonValue::Str(self.language.clone()));
        let node = JsonValue::Obj(members);
        proof {
            assert(view_members(members@) =~= self.members_spec());
            assert(node@ == self.wire_tree()->0);
        }
        Ok(node)
    }

    proof fn lemma_wire_wf(v: Self) {
        if v.wire_tree() is Some {
            let t = v.wire_tree()->0;
            let ms = t->Obj_0;
            assert(ms == v.members_spec());
            assert forall|i: int| 0 <= i < ms.len() implies wf(#[trigger] ms[i].1) by {
            }
        }
    }

    proof fn lemma_round_trip(v: Self) {
        if v.wire_tree() is Some {
            let t = v.wire_tree()->0;
            let ms = t->Obj_0;
            assert(ms == v.members_spec());
            reveal_strlit("@type");
            reveal_strlit("@extra");
            reveal_strlit("language");
            assert("@type"@.len() == 5);
            assert("@extra"@.len() == 6);
            assert("language"@.len() == 8);
            reveal_with_fuel(get_spec, 5);
            lemma_get_spec_found(ms, "@type"@, 0);
            lemma_get_spec_found(ms, "@extra"@, 1);
            lemma_get_spec_found(ms, "language"@, 2);
            assert(tag_of(t) == Some(Self::tag_spec()));
            assert(ok_opt_str(t, "@extra"@));
            assert(ok_str(t, "language"@));
            assert(Self::accepts(t));
            assert forall|w: Self| Self::decodes_from(t, w) implies #[trigger] w.eqv(v) by {
            }
        }
    }
}

impl RObject for TextEntityTypePreCode {
    open spec fn tag_chars(&self) -> Seq<char> {
        Self::tag_spec()
    }

    open spec fn extra_spec(&self) -> Option<Seq<char>> {
        opt_str_view(self.extra)
    }

    fn td_name(&self) -> (r: &'static str) {
        "textEntityTypePreCode"
    }

    fn extra(&self) -> (r: Option<String>) {
        clone_opt_string(&self.extra)
    }

    fn to_json(&self) -> (r: Result<String, EncodeError>) {
        crate::object::encode(self)
    }
}

impl TDTextEntityType for TextEntityTypePreCode {

}

impl TextEntityTypePreCode {
    pub fn from_json(json: &str) -> (r: Result<TextEntityTypePreCode, DecodeError>)
        ensures
            match crate::parse::parse_doc(json@) {
                Some(t) => match r {
                    Ok(v) => Self::accepts(t) && Self::decodes_from(t, v),
                    Err(e) => !Self::accepts(t) && crate::errors::err_matches(e, Self::err_of(t)),
                },
                None => r matches Err(e) && e == DecodeError::Malformed,
            },
    {
        crate::object::from_json::<TextEntityTypePreCode>(json)
    }

    pub fn builder() -> (r: RTDTextEntityTypePreCodeBuilder)
        ensures
            r.inner.extra is Some,
            r.inner.language@ == Seq::<char>::empty(),
    {
        RTDTextEntityTypePreCodeBuilder {
            inner: TextEntityTypePreCode {
                extra: Some(new_token()),
                language: String::new(),
            },
        }
    }

    pub fn language(&self) -> (r: &String)
        ensures
            *r == self.language,
    {
        &self.language
    }
}

pub struct RTDTextEntityTypePreCodeBuilder {
    pub inner: TextEntityTypePreCode,
}

impl RTDTextEntityTypePreCodeBuilder {
    pub fn build(&self) -> (r: TextEntityTypePreCode)
        ensures
            r.eqv(self.inner),
    {
        self.inner.clone()
    }

    pub fn language(&mut self, language: String) -> (r: &mut Self)
        ensures
            *r == (RTDTextEntityTypePreCodeBuilder { inner: TextEntityTypePreCode { language: language, ..old(self).inner } }),
            *final(self) == *final(r),
    {
        self.inner.language = language;
        self
    }
}
/// A strikethrough text
#[derive(Debug, PartialEq)]
pub struct TextEntityTypeStrikethrough {
    pub extra: Option<String>,
}

impl TextEntityTypeStrikethrough {
    pub open spec fn tag_spec() -> Seq<char> {
        "textEntityTypeStrikethrough"@
    }

    /// The members of the wire object, in the order they are written.
    pub open spec fn members_spec(self) -> Seq<(Seq<char>, SpecJson)> {
        seq![
            ("@type"@, SpecJson::Str(Self::tag_spec())),
            ("@extra"@, opt_str_tree(opt_str_view(self.extra))),
        ]
    }

    pub open spec fn fields_ok(t: SpecJson) -> bool {
        &&& ok_opt_str(t, "@extra"@)
    }

    pub open spec fn fail_field(t: SpecJson) -> Seq<char> {
        if !ok_opt_str(t, "@extra"@) {
            "@extra"@
        } else {
            Seq::empty()
        }
    }

    /// The encoding of a value carries exactly this type's tag.
    pub proof fn lemma_wire_tag(v: TextEntityTypeStrikethrough)
        ensures
            v.wire_tree() matches Some(t) ==> tag_of(t) == Some(TextEntityTypeStrikethrough::tag_spec()),
    {
        if v.wire_tree() is Some {
            let t = v.wire_tree()->0;
            let ms = t->Obj_0;
            lemma_get_spec_found(ms, "@type"@, 0);
        }
    }
}

impl Clone for TextEntityTypeStrikethrough {
    fn clone(&self) -> (res: Self)
        ensures
            res.eqv(*self),
    {
        TextEntityTypeStrikethrough {
            extra: clone_opt_string(&self.extra),
        }
    }
}

impl Wire for TextEntityTypeStrikethrough {
    open spec fn wire_tree(self) -> Option<SpecJson> {
        Some(SpecJson::Obj(self.members_spec()))
    }

    open spec fn accepts(t: SpecJson) -> bool {
        tag_of(t) is Some && Self::fields_ok(t)
    }

    open spec fn err_of(t: SpecJson) -> SpecDecodeError {
        match tag_of(t) {
            None => SpecDecodeError::Malformed,
            Some(_) => SpecDecodeError::FieldShapeMismatch(Self::tag_spec(), Self::fail_field(t)),
        }
    }

    open spec fn decodes_from(t: SpecJson, v: Self) -> bool {
        &&& m_opt_str(t, "@extra"@, v.extra)
    }

    open spec fn eqv(self, other: Self) -> bool {
        &&& eqv_opt_string(self.extra, other.extra)
    }

    fn clone_val(&self) -> (r: Self) {
        self.clone()
    }

    fn decode_tree(t: &JsonValue) -> (r: Result<Self, DecodeError>) {
        if get_tag(t).is_none() {
            return Err(DecodeError::Malformed);
        }
        let extra = match field_opt_string(t, "@extra") {
            Some(x) => x,
            None => {
                return Err(DecodeError::FieldShapeMismatch(
                    String::from_str("textEntityTypeStrikethrough"),
                    String::from_str("@extra"),
                ));
            },
        };
        Ok(TextEntityTypeStrikethrough { extra })
    }

    fn encode_tree(&self) -> (r: Result<JsonValue, EncodeError>) {
        let mut members: Vec<JsonMember> = Vec::new();
        proof {
            assert(view_members(members@) =~= Seq::<(Seq<char>, SpecJson)>::empty());
        }
        push_member(&mut members, "@type", JsonValue::Str(String::from_str("textEntityTypeStrikethrough")));
        push_member(&mut members, "@extra", opt_string_tree(&self.extra));
        let node = JsonValue::Obj(members);
        proof {
            assert(view_members(members@) =~= self.members_spec());
            assert(node@ == self.wire_tree()->0);
        }
        Ok(node)
    }

    proof fn lemma_wire_wf(v: Self) {
        if v.wire_tree() is Some {
            let t = v.wire_tree()->0;
            let ms = t->Obj_0;
            assert(ms == v.members_spec());
            assert forall|i: int| 0 <= i < ms.len() implies wf(#[trigger] ms[i].1) by {
            }
        }
    }

    proof fn lemma_round_trip(v: Self) {
        if v.wire_tree() is Some {
            let t = v.wire_tree()->0;
            let ms = t->Obj_0;
            assert(ms == v.members_spec());
            reveal_strlit("@type");
            reveal_strlit("@extra");
            assert("@type"@.len() == 5);
            assert("@extra"@.len() == 6);
            reveal_with_fuel(get_spec, 4);
            lemma_get_spec_found(ms, "@type"@, 0);
            lemma_get_spec_found(ms, "@extra"@, 1);
            assert(tag_of(t) == Some(Self::tag_spec()));
            assert(ok_opt_str(t, "@extra"@));
            assert(Self::accepts(t));
            assert forall|w: Self| Self::decodes_from(t, w) implies #[trigger] w.eqv(v) by {
            }
        }
    }
}

impl RObject for TextEntityTypeStrikethrough {
    open spec fn tag_chars(&self) -> Seq<char> {
        Self::tag_spec()
    }

    open spec fn extra_spec(&self) -> Option<Seq<char>> {
        opt_str_view(self.extra)
    }

    fn td_name(&self) -> (r: &'static str) {
        "textEntityTypeStrikethrough"
    }

    fn extra(&self) -> (r: Option<String>) {
        clone_opt_string(&self.extra)
    }

    fn to_json(&self) -> (r: Result<String, EncodeError>) {
        crate::object::encode(self)
    }
}

impl TDTextEntityType for TextEntityTypeStrikethrough {

}

impl TextEntityTypeStrikethrough {
    pub fn from_json(json: &str) -> (r: Result<TextEntityTypeStrikethrough, DecodeError>)
        ensures
            match crate::parse::parse_doc(json@) {
                Some(t) => match r {
                    Ok(v) => Self::accepts(t) && Self::decodes_from(t, v),
                    Err(e) => !Self::accepts(t) && crate::errors::err_matches(e, Self::err_of(t)),
                },
                None => r matches Err(e) && e == DecodeError::Malformed,
            },
    {
        crate::object::from_json::<TextEntityTypeStrikethrough>(json)
    }

    pub fn builder() -> (r: RTDTextEntityTypeStrikethroughBuilder)
        ensures
            r.inner.extra is Some,
    {
        RTDTextEntityTypeStrikethroughBuilder {
            inner: TextEntityTypeStrikethrough {
                extra: Some(new_token()),
            },
        }
    }
}

pub struct RTDTextEntityTypeStrikethroughBuilder {
    pub inner: TextEntityTypeStrikethrough,
}

impl RTDTextEntityTypeStrikethroughBuilder {
    pub fn build(&self) -> (r: TextEntityTypeStrikethrough)
        ensures
            r.eqv(self.inner),
    {
        self.inner.clone()
    }
}
/// A text description shown instead of a raw URL
#[derive(Debug, PartialEq)]
pub struct TextEntityTypeTextUrl {
    pub extra: Option<String>,
    /// HTTP or tg:// URL to be opened when the link is clicked
    pub url: String,
}

impl TextEntityTypeTextUrl {
    pub open spec fn tag_spec() -> Seq<char> {
        "textEntityTypeTextUrl"@
    }

    /// The members of the wire object, in the order they are written.
    pub open spec fn members_spec(self) -> Seq<(Seq<char>, SpecJson)> {
        seq![
            ("@type"@, SpecJson::Str(Self::tag_spec())),
            ("@extra"@, opt_str_tree(opt_str_view(self.extra))),
            ("url"@, SpecJson::Str(self.url@)),
        ]
    }

    pub open spec fn fields_ok(t: SpecJson) -> bool {
        &&& ok_opt_str(t, "@extra"@)
        &&& ok_str(t, "url"@)
    }

    pub open spec fn fail_field(t: SpecJson) -> Seq<char> {
        if !ok_opt_str(t, "@extra"@) {
            "@extra"@
        } else if !(ok_str(t, "url"@)) {
            "url"@
        } else {
            Seq::empty()
        }
    }

    /// The encoding of a value carries exactly this type's tag.
    pub proof fn lemma_wire_tag(v: TextEntityTypeTextUrl)
        ensures
            v.wire_tree() matches Some(t) ==> tag_of(t) == Some(TextEntityTypeTextUrl::tag_spec()),
    {
        if v.wire_tree() is Some {
            let t = v.wire_tree()->0;
            let ms = t->Obj_0;
            lemma_get_spec_found(ms, "@type"@, 0);
        }
    }
}

impl Clone for TextEntityTypeTextUrl {
    fn clone(&self) -> (res: Self)
        ensures
            res.eqv(*self),
    {
        TextEntityTypeTextUrl {
            extra: clone_opt_string(&self.extra),
            url: self.url.clone(),
        }
    }
}

impl Wire for TextEntityTypeTextUrl {
    open spec fn wire_tree(self) -> Option<SpecJson> {
        Some(SpecJson::Obj(self.members_spec()))
    }

    open spec fn accepts(t: SpecJson) -> bool {
        tag_of(t) is Some && Self::fields_ok(t)
    }

    open spec fn err_of(t: SpecJson) -> SpecDecodeError {
        match tag_of(t) {
            None => SpecDecodeError::Malformed,
            Some(_) => SpecDecodeError::FieldShapeMismatch(Self::tag_spec(), Self::fail_field(t)),
        }
    }

    open spec fn decodes_from(t: SpecJson, v: Self) -> bool {
        &&& m_opt_str(t, "@extra"@, v.extra)
        &&& m_str(t, "url"@, v.url@)
    }

    open spec fn eqv(self, other: Self) -> bool {
        &&& eqv_opt_string(self.extra, other.extra)
        &&& self.url@ == other.url@
    }

    fn clone_val(&self) -> (r: Self) {
        self.clone()
    }

    fn decode_tree(t: &JsonValue) -> (r: Result<Self, DecodeError>) {
        if get_tag(t).is_none() {
            return Err(DecodeError::Malformed);
        }
        let extra = match field_opt_string(t, "@extra") {
            Some(x) => x,
            None => {
                return Err(DecodeError::FieldShapeMismatch(
                    String::from_str("textEntityTypeTextUrl"),
                    String::from_str("@extra"),
                ));
            },
        };
        let url = match field_string(t, "url") {
            Some(x) => x,
            None => {
                return Err(DecodeError::FieldShapeMismatch(
                    String::from_str("textEntityTypeTextUrl"),
                    String::from_str("url"),
                ));
            },
        };
        Ok(TextEntityTypeTextUrl { extra, url })
    }

    fn encode_tree(&self) -> (r: Result<JsonValue, EncodeError>) {
        let mut members: Vec<JsonMember> = Vec::new();
        proof {
            assert(view_members(members@) =~= Seq::<(Seq<char>, SpecJson)>::empty());
        }
        push_member(&mut members, "@type", JsonValue::Str(String::from_str("textEntityTypeTextUrl")));
        push_member(&mut members, "@extra", opt_string_tree(&self.extra));
        push_member(&mut members, "url", JsonValue::Str(self.url.clone()));
        let node = JsonValue::Obj(members);
        proof {
            assert(view_members(members@) =~= self.members_spec());
            assert(node@ == self.wire_tree()->0);
        }
        Ok(node)
    }

    proof fn lemma_wire_wf(v: Self) {
        if v.wire_tree() is Some {
            let t = v.wire_tree()->0;
            let ms = t->Obj_0;
            assert(ms == v.members_spec());
            assert forall|i: int| 0 <= i < ms.len() implies wf(#[trigger] ms[i].1) by {
            }
        }
    }

    proof fn lemma_round_trip(v: Self) {
        if v.wire_tree() is Some {
            let t = v.wire_tree()->0;
            let ms = t->Obj_0;
            assert(ms == v.members_spec());
            reveal_strlit("@type");
            reveal_strlit("@extra");
            reveal_strlit("url");
            assert("@type"@.len() == 5);
            assert("@extra"@.len() == 6);
            assert("url"@.len() == 3);
            reveal_with_fuel(get_spec, 5);
            lemma_get_spec_found(ms, "@type"@, 0);
            lemma_get_spec_found(ms, "@extra"@, 1);
            lemma_get_spec_found(ms, "url"@, 2);
            assert(tag_of(t) == Some(Self::tag_spec()));
            assert(ok_opt_str(t, "@extra"@));
            assert(ok_str(t, "url"@));
            assert(Self::accepts(t));
            assert forall|w: Self| Self::decodes_from(t, w) implies #[trigger] w.eqv(v) by {
            }
        }
    }
}

impl RObject for TextEntityTypeTextUrl {
    open spec fn tag_chars(&self) -> Seq<char> {
        Self::tag_spec()
    }

    open spec fn extra_spec(&self) -> Option<Seq<char>> {
        opt_str_view(self.extra)
    }

    fn td_name(&self) -> (r: &'static str) {
        "textEntityTypeTextUrl"
    }

    fn extra(&self) -> (r: Option<String>) {
        clone_opt_string(&self.extra)
    }

    fn to_json(&self) -> (r: Result<String, EncodeError>) {
        crate::object::encode(self)
    }
}

impl TDTextEntityType for TextEntityTypeTextUrl {

}

impl TextEntityTypeTextUrl {
    pub fn from_json(json: &str) -> (r: Result<TextEntityTypeTextUrl, DecodeError>)
        ensures
            match crate::parse::parse_doc(json@) {
                Some(t) => match r {
                    Ok(v) => Self::accepts(t) && Self::decodes_from(t, v),
                    Err(e) => !Self::accepts(t) && crate::errors::err_matches(e, Self::err_of(t)),
                },
                None => r matches Err(e) && e == DecodeError::Malformed,
            },
    {
        crate::object::from_json::<TextEntityTypeTextUrl>(json)
    }

    pub fn builder() -> (r: RTDTextEntityTypeTextUrlBuilder)
        ensures
            r.inner.extra is Some,
            r.inner.url@ == Seq::<char>::empty(),
    {
        RTDTextEntityTypeTextUrlBuilder {
            inner: TextEntityTypeTextUrl {
                extra: Some(new_token()),
                url: String::new(),
            },
        }
    }

    pub fn url(&self) -> (r: &String)
        ensures
            *r == self.url,
    {
        &self.url
    }
}

pub struct RTDTextEntityTypeTextUrlBuilder {
    pub inner: TextEntityTypeTextUrl,
}

impl RTDTextEntityTypeTextUrlBuilder {
    pub fn build(&self) -> (r: TextEntityTypeTextUrl)
        ensures
            r.eqv(self.inner),
    {
        self.inner.clone()
    }

    pub fn url(&mut self, url: String) -> (r: &mut Self)
        ensures
            *r == (RTDTextEntityTypeTextUrlBuilder { inner: TextEntityTypeTextUrl { url: url, ..old(self).inner } }),
            *final(self) == *final(r),
    {
        self.inner.url = url;
        self
    }
}
/// An underlined text
#[derive(Debug, PartialEq)]
pub struct TextEntityTypeUnderline {
    pub extra: Option<String>,
}

impl TextEntityTypeUnderline {
    pub open spec fn tag_spec() -> Seq<char> {
        "textEntityTypeUnderline"@
    }

    /// The members of the wire object, in the order they are written.
    pub open spec fn members_spec(self) -> Seq<(Seq<char>, SpecJson)> {
        seq![
            ("@type"@, SpecJson::Str(Self::tag_spec())),
            ("@extra"@, opt_str_tree(opt_str_view(self.extra))),
        ]
    }

    pub open spec fn fields_ok(t: SpecJson) -> bool {
        &&& ok_opt_str(t, "@extra"@)
    }

    pub open spec fn fail_field(t: SpecJson) -> Seq<char> {
        if !ok_opt_str(t, "@extra"@) {
            "@extra"@
        } else {
            Seq::empty()
        }
    }

    /// The encoding of a value carries exactly this type's tag.
    pub proof fn lemma_wire_tag(v: TextEntityTypeUnderline)
        ensures
            v.wire_tree() matches Some(t) ==> tag_of(t) == Some(TextEntityTypeUnderline::tag_spec()),
    {
        if v.wire_tree() is Some {
            let t = v.wire_tree()->0;
            let ms = t->Obj_0;
            lemma_get_spec_found(ms, "@type"@, 0);
        }
    }
}

impl Clone for TextEntityTypeUnderline {
    fn clone(&self) -> (res: Self)
        ensures
            res.eqv(*self),
    {
        TextEntityTypeUnderline {
            extra: clone_opt_string(&self.extra),
        }
    }
}

impl Wire for TextEntityTypeUnderline {
    open spec fn wire_tree(self) -> Option<SpecJson> {
        Some(SpecJson::Obj(self.members_spec()))
    }

    open spec fn accepts(t: SpecJson) -> bool {
        tag_of(t) is Some && Self::fields_ok(t)
    }

    open spec fn err_of(t: SpecJson) -> SpecDecodeError {
        match tag_of(t) {
            None => SpecDecodeError::Malformed,
            Some(_) => SpecDecodeError::FieldShapeMismatch(Self::tag_spec(), Self::fail_field(t)),
        }
    }

    open spec fn decodes_from(t: SpecJson, v: Self) -> bool {
        &&& m_opt_str(t, "@extra"@, v.extra)
    }

    open spec fn eqv(self, other: Self) -> bool {
        &&& eqv_opt_string(self.extra, other.extra)
    }

    fn clone_val(&self) -> (r: Self) {
        self.clone()
    }

    fn decode_tree(t: &JsonValue) -> (r: Result<Self, DecodeError>) {
        if get_tag(t).is_none() {
            return Err(DecodeError::Malformed);
        }
        let extra = match field_opt_string(t, "@extra") {
            Some(x) => x,
            None => {
                return Err(DecodeError::FieldShapeMismatch(
                    String::from_str("textEntityTypeUnderline"),
                    String::from_str("@extra"),
                ));
            },
        };
        Ok(TextEntityTypeUnderline { extra })
    }

    fn encode_tree(&self) -> (r: Result<JsonValue, EncodeError>) {
        let mut members: Vec<JsonMember> = Vec::new();
        proof {
            assert(view_members(members@) =~= Seq::<(Seq<char>, SpecJson)>::empty());
        }
        push_member(&mut members, "@type", JsonValue::Str(String::from_str("textEntityTypeUnderline")));
        push_member(&mut members, "@extra", opt_string_tree(&self.extra));
        let node = JsonValue::Obj(members);
        proof {
            assert(view_members(members@) =~= self.members_spec());
            assert(node@ == self.wire_tree()->0);
        }
        Ok(node)
    }

    proof fn lemma_wire_wf(v: Self) {
        if v.wire_tree() is Some {
            let t = v.wire_tree()->0;
            let ms = t->Obj_0;
            assert(ms == v.members_spec());
            assert forall|i: int| 0 <= i < ms.len() implies wf(#[trigger] ms[i].1) by {
            }
        }
    }

    proof fn lemma_round_trip(v: Self) {
        if v.wire_tree() is Some {
            let t = v.wire_tree()->0;
            let ms = t->Obj_0;
            assert(ms == v.members_spec());
            reveal_strlit("@type");
            reveal_strlit("@extra");
            assert("@type"@.len() == 5);
            assert("@extra"@.len() == 6);
            reveal_with_fuel(get_spec, 4);
            lemma_get_spec_found(ms, "@type"@, 0);
            lemma_get_spec_found(ms, "@extra"@, 1);
            assert(tag_of(t) == Some(Self::tag_spec()));
            assert(ok_opt_str(t, "@extra"@));
            assert(Self::accepts(t));
            assert forall|w: Self| Self::decodes_from(t, w) implies #[trigger] w.eqv(v) by {
            }
        }
    }
}

impl RObject for TextEntityTypeUnderline {
    open spec fn tag_chars(&self) -> Seq<char> {
        Self::tag_spec()
    }

    open spec fn extra_spec(&self) -> Option<Seq<char>> {
        opt_str_view(self.extra)
    }

    fn td_name(&self) -> (r: &'static str) {
        "textEntityTypeUnderline"
    }

    fn extra(&self) -> (r: Option<String>) {
        clone_opt_string(&self.extra)
    }

    fn to_json(&self) -> (r: Result<String, EncodeError>) {
        crate::object::encode(self)
    }
}

impl TDTextEntityType for TextEntityTypeUnderline {

}

impl TextEntityTypeUnderline {
    pub fn from_json(json: &str) -> (r: Result<TextEntityTypeUnderline, DecodeError>)
        ensures
            match crate::parse::parse_doc(json@) {
                Some(t) => match r {
                    Ok(v) => Self::accepts(t) && Self::decodes_from(t, v),
                    Err(e) => !Self::accepts(t) && crate::errors::err_matches(e, Self::err_of(t)),
                },
                None => r matches Err(e) && e == DecodeError::Malformed,
            },
    {
        crate::object::from_json::<TextEntityTypeUnderline>(json)
    }

    pub fn builder() -> (r: RTDTextEntityTypeUnderlineBuilder)
        ensures
            r.inner.extra is Some,
    {
        RTDTextEntityTypeUnderlineBuilder {
            inner: TextEntityTypeUnderline {
                extra: Some(new_token()),
            },
        }
    }
}

pub struct RTDTextEntityTypeUnderlineBuilder {
    pub inner: TextEntityTypeUnderline,
}

impl RTDTextEntityTypeUnderlineBuilder {
    pub fn build(&self) -> (r: TextEntityTypeUnderline)
        ensures
            r.eqv(self.inner),
    {
        self.inner.clone()
    }
}
/// An HTTP URL
#[derive(Debug, PartialEq)]
pub struct TextEntityTypeUrl {
    pub extra: Option<String>,
}

impl TextEntityTypeUrl {
    pub open spec fn tag_spec() -> Seq<char> {
        "textEntityTypeUrl"@
    }

    /// The members of the wire object, in the order they are written.
    pub open spec fn members_spec(self) -> Seq<(Seq<char>, SpecJson)> {
        seq![
            ("@type"@, SpecJson::Str(Self::tag_spec())),
            ("@extra"@, opt_str_tree(opt_str_view(self.extra))),
        ]
    }

    pub open spec fn fields_ok(t: SpecJson) -> bool {
        &&& ok_opt_str(t, "@extra"@)
    }

    pub open spec fn fail_field(t: SpecJson) -> Seq<char> {
        if !ok_opt_str(t, "@extra"@) {
            "@extra"@
        } else {
            Seq::empty()
        }
    }

    /// The encoding of a value carries exactly this type's tag.
    pub proof fn lemma_wire_tag(v: TextEntityTypeUrl)
        ensures
            v.wire_tree() matches Some(t) ==> tag_of(t) == Some(TextEntityTypeUrl::tag_spec()),
    {
        if v.wire_tree() is Some {
            let t = v.wire_tree()->0;
            let ms = t->Obj_0;
            lemma_get_spec_found(ms, "@type"@, 0);
        }
    }
}

impl Clone for TextEntityTypeUrl {
    fn clone(&self) -> (res: Self)
        ensures
            res.eqv(*self),
    {
        TextEntityTypeUrl {
            extra: clone_opt_string(&self.extra),
        }
    }
}

impl Wire for TextEntityTypeUrl {
    open spec fn wire_tree(self) -> Option<SpecJson> {
        Some(SpecJson::Obj(self.members_spec()))
    }

    open spec fn accepts(t: SpecJson) -> bool {
        tag_of(t) is Some && Self::fields_ok(t)
    }

    open spec fn err_of(t: SpecJson) -> SpecDecodeError {
        match tag_of(t) {
            None => SpecDecodeError::Malformed,
            Some(_) => SpecDecodeError::FieldShapeMismatch(Self::tag_spec(), Self::fail_field(t)),
        }
    }

    open spec fn decodes_from(t: SpecJson, v: Self) -> bool {
        &&& m_opt_str(t, "@extra"@, v.extra)
    }

    open spec fn eqv(self, other: Self) -> bool {
        &&& eqv_opt_string(self.extra, other.extra)
    }

    fn clone_val(&self) -> (r: Self) {
        self.clone()
    }

    fn decode_tree(t: &JsonValue) -> (r: Result<Self, DecodeError>) {
        if get_tag(t).is_none() {
            return Err(DecodeError::Malformed);
        }
        let extra = match field_opt_string(t, "@extra") {
            Some(x) => x,
            None => {
                return Err(DecodeError::FieldShapeMismatch(
                    String::from_str("textEntityTypeUrl"),
                    String::from_str("@extra"),
                ));
            },
        };
        Ok(TextEntityTypeUrl { extra })
    }

    fn encode_tree(&self) -> (r: Result<JsonValue, EncodeError>) {
        let mut members: Vec<JsonMember> = Vec::new();
        proof {
            assert(view_members(members@) =~= Seq::<(Seq<char>, SpecJson)>::empty());
        }
        push_member(&mut members, "@type", JsonValue::Str(String::from_str("textEntityTypeUrl")));
        push_member(&mut members, "@extra", opt_string_tree(&self.extra));
        let node = JsonValue::Obj(members);
        proof {
            assert(view_members(members@) =~= self.members_spec());
            assert(node@ == self.wire_tree()->0);
        }
        Ok(node)
    }

    proof fn lemma_wire_wf(v: Self) {
        if v.wire_tree() is Some {
            let t = v.wire_tree()->0;
            let ms = t->Obj_0;
            assert(ms == v.members_spec());
            assert forall|i: int| 0 <= i < ms.len() implies wf(#[trigger] ms[i].1) by {
            }
        }
    }

    proof fn lemma_round_trip(v: Self) {
        if v.wire_tree() is Some {
            let t = v.wire_tree()->0;
            let ms = t->Obj_0;
            assert(ms == v.members_spec());
            reveal_strlit("@type");
            reveal_strlit("@extra");
            assert("@type"@.len() == 5);
            assert("@extra"@.len() == 6);
            reveal_with_fuel(get_spec, 4);
            lemma_get_spec_found(ms, "@type"@, 0);
            lemma_get_spec_found(ms, "@extra"@, 1);
            assert(tag_of(t) == Some(Self::tag_spec()));
            assert(ok_opt_str(t, "@extra"@));
            assert(Self::accepts(t));
            assert forall|w: Self| Self::decodes_from(t, w) implies #[trigger] w.eqv(v) by {
            }
        }
    }
}

impl RObject for TextEntityTypeUrl {
    open spec fn tag_chars(&self) -> Seq<char> {
        Self::tag_spec()
    }

    open spec fn extra_spec(&self) -> Option<Seq<char>> {
        opt_str_view(self.extra)
    }

    fn td_name(&self) -> (r: &'static str) {
        "textEntityTypeUrl"
    }

    fn extra(&self) -> (r: Option<String>) {
        clone_opt_string(&self.extra)
    }

    fn to_json(&self) -> (r: Result<String, EncodeError>) {
        crate::object::encode(self)
    }
}

impl TDTextEntityType for TextEntityTypeUrl {

}

impl TextEntityTypeUrl {
    pub fn from_json(json: &str) -> (r: Result<TextEntityTypeUrl, DecodeError>)
        ensures
            match crate::parse::parse_doc(json@) {
                Some(t) => match r {
                    Ok(v) => Self::accepts(t) && Self::decodes_from(t, v),
                    Err(e) => !Self::accepts(t) && crate::errors::err_matches(e, Self::err_of(t)),
                },
                None => r matches Err(e) && e == DecodeError::Malformed,
            },
    {
        crate::object::from_json::<TextEntityTypeUrl>(json)
    }

    pub fn builder() -> (r: RTDTextEntityTypeUrlBuilder)
        ensures
            r.inner.extra is Some,
    {
        RTDTextEntityTypeUrlBuilder {
            inner: TextEntityTypeUrl {
                extra: Some(new_token()),
            },
        }
    }
}

pub struct RTDTextEntityTypeUrlBuilder {
    pub inner: TextEntityTypeUrl,
}

impl RTDTextEntityTypeUrlBuilder {
    pub fn build(&self) -> (r: TextEntityTypeUrl)
        ensures
            r.eqv(self.inner),
    {
        self.inner.clone()
    }
}
} // verus!
