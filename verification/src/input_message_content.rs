use vstd::prelude::*;

use crate::errors::DecodeError;
use crate::errors::EncodeError;
use crate::errors::SpecDecodeError;
use crate::json::JsonMember;
use crate::json::JsonValue;
use crate::json::SpecJson;
use crate::json::i64_lex;
use crate::json::view_members;
use crate::json::wf;
use crate::object::RObject;
use crate::object::Wire;
use crate::object::as_i64_spec;
use crate::object::clone_opt_string;
use crate::object::clone_vec_i64;
use crate::object::clone_vec_string;
use crate::object::decode_vec_i64;
use crate::object::decode_vec_string;
use crate::object::encode_vec_i64;
use crate::object::encode_vec_string;
use crate::object::eqv_opt_string;
use crate::object::eqv_vec_string;
use crate::object::field_bool;
use crate::object::field_i64;
use crate::object::field_opt_string;
use crate::object::field_string;
use crate::object::get_field;
use crate::object::get_spec;
use crate::object::get_tag;
use crate::object::i64_lexeme;
use crate::object::lemma_get_spec_found;
use crate::object::m_bool;
use crate::object::m_custom;
use crate::object::m_i64;
use crate::object::m_opt_str;
use crate::object::m_str;
use crate::object::m_vec_i64;
use crate::object::m_vec_str;
use crate::object::new_token;
use crate::object::ok_bool;
use crate::object::ok_custom;
use crate::object::ok_i64;
use crate::object::ok_opt_str;
use crate::object::ok_str;
use crate::object::ok_vec_i64;
use crate::object::ok_vec_str;
use crate::object::opt_str_tree;
use crate::object::opt_str_view;
use crate::object::opt_string_tree;
use crate::object::push_member;
use crate::object::str_eq;
use crate::object::tag_of;
use crate::object::vec_i64_trees;
use crate::object::vec_str_trees;
use crate::message_copy_options::MessageCopyOptions;

verus! {

/// The content of a message to send
pub trait TDInputMessageContent: RObject {

}

/// The content of a message to send
#[derive(Debug, PartialEq)]
pub enum InputMessageContent {
    _Default(()),
    /// An animation message (GIF-style).
    InputMessageAnimation(InputMessageAnimation),
    /// An audio message
    InputMessageAudio(InputMessageAudio),
    /// A message containing a user contact
    InputMessageContact(InputMessageContact),
    /// A dice message
    InputMessageDice(InputMessageDice),
    /// A document message (general file)
    InputMessageDocument(InputMessageDocument),
    /// A forwarded message
    InputMessageForwarded(InputMessageForwarded),
    /// A message with a game; not supported for channels or secret chats
    InputMessageGame(InputMessageGame),
    /// A message with an invoice; can be used only by bots
    InputMessageInvoice(InputMessageInvoice),
    /// A message with a location
    InputMessageLocation(InputMessageLocation),
    /// A photo message
    InputMessagePhoto(InputMessagePhoto),
    /// A message with a poll. Polls can't be sent to secret chats. Polls can be sent only to a private chat with a bot
    InputMessagePoll(InputMessagePoll),
    /// A sticker message
    InputMessageSticker(InputMessageSticker),
    /// A text message
    InputMessageText(InputMessageText),
    /// A message with information about a venue
    InputMessageVenue(InputMessageVenue),
    /// A video message
    InputMessageVideo(InputMessageVideo),
    /// A video note message
    InputMessageVideoNote(InputMessageVideoNote),
    /// A voice note message
    InputMessageVoiceNote(InputMessageVoiceNote),
}

impl Clone for InputMessageContent {
    fn clone(&self) -> (res: Self)
        ensures
            res.eqv(*self),
    {
        match self {
            InputMessageContent::_Default(_) => InputMessageContent::_Default(()),
            InputMessageContent::InputMessageAnimation(x) => InputMessageContent::InputMessageAnimation(x.clone()),
            InputMessageContent::InputMessageAudio(x) => InputMessageContent::InputMessageAudio(x.clone()),
            InputMessageContent::InputMessageContact(x) => InputMessageContent::InputMessageContact(x.clone()),
            InputMessageContent::InputMessageDice(x) => InputMessageContent::InputMessageDice(x.clone()),
            InputMessageContent::InputMessageDocument(x) => InputMessageContent::InputMessageDocument(x.clone()),
            InputMessageContent::InputMessageForwarded(x) => InputMessageContent::InputMessageForwarded(x.clone()),
            InputMessageContent::InputMessageGame(x) => InputMessageContent::InputMessageGame(x.clone()),
            InputMessageContent::InputMessageInvoice(x) => InputMessageContent::InputMessageInvoice(x.clone()),
            InputMessageContent::InputMessageLocation(x) => InputMessageContent::InputMessageLocation(x.clone()),
            InputMessageContent::InputMessagePhoto(x) => InputMessageContent::InputMessagePhoto(x.clone()),
            InputMessageContent::InputMessagePoll(x) => InputMessageContent::InputMessagePoll(x.clone()),
            InputMessageContent::InputMessageSticker(x) => InputMessageContent::InputMessageSticker(x.clone()),
            InputMessageContent::InputMessageText(x) => InputMessageContent::InputMessageText(x.clone()),
            InputMessageContent::InputMessageVenue(x) => InputMessageContent::InputMessageVenue(x.clone()),
            InputMessageContent::InputMessageVideo(x) => InputMessageContent::InputMessageVideo(x.clone()),
            InputMessageContent::InputMessageVideoNote(x) => InputMessageContent::InputMessageVideoNote(x.clone()),
            InputMessageContent::InputMessageVoiceNote(x) => InputMessageContent::InputMessageVoiceNote(x.clone()),
        }
    }
}

impl InputMessageContent {
    /// The tags of this variant's alternatives are pairwise distinct.
    pub proof fn lemma_tags_distinct()
        ensures
            "inputMessageAnimation"@ != "inputMessageAudio"@,
            "inputMessageAnimation"@ != "inputMessageContact"@,
            "inputMessageAnimation"@ != "inputMessageDice"@,
            "inputMessageAnimation"@ != "inputMessageDocument"@,
            "inputMessageAnimation"@ != "inputMessageForwarded"@,
            "inputMessageAnimation"@ != "inputMessageGame"@,
            "inputMessageAnimation"@ != "inputMessageInvoice"@,
            "inputMessageAnimation"@ != "inputMessageLocation"@,
            "inputMessageAnimation"@ != "inputMessagePhoto"@,
            "inputMessageAnimation"@ != "inputMessagePoll"@,
            "inputMessageAnimation"@ != "inputMessageSticker"@,
            "inputMessageAnimation"@ != "inputMessageText"@,
            "inputMessageAnimation"@ != "inputMessageVenue"@,
            "inputMessageAnimation"@ != "inputMessageVideo"@,
            "inputMessageAnimation"@ != "inputMessageVideoNote"@,
            "inputMessageAnimation"@ != "inputMessageVoiceNote"@,
            "inputMessageAudio"@ != "inputMessageContact"@,
            "inputMessageAudio"@ != "inputMessageDice"@,
            "inputMessageAudio"@ != "inputMessageDocument"@,
            "inputMessageAudio"@ != "inputMessageForwarded"@,
            "inputMessageAudio"@ != "inputMessageGame"@,
            "inputMessageAudio"@ != "inputMessageInvoice"@,
            "inputMessageAudio"@ != "inputMessageLocation"@,
            "inputMessageAudio"@ != "inputMessagePhoto"@,
            "inputMessageAudio"@ != "inputMessagePoll"@,
            "inputMessageAudio"@ != "inputMessageSticker"@,
            "inputMessageAudio"@ != "inputMessageText"@,
            "inputMessageAudio"@ != "inputMessageVenue"@,
            "inputMessageAudio"@ != "inputMessageVideo"@,
            "inputMessageAudio"@ != "inputMessageVideoNote"@,
            "inputMessageAudio"@ != "inputMessageVoiceNote"@,
            "inputMessageContact"@ != "inputMessageDice"@,
            "inputMessageContact"@ != "inputMessageDocument"@,
            "inputMessageContact"@ != "inputMessageForwarded"@,
            "inputMessageContact"@ != "inputMessageGame"@,
            "inputMessageContact"@ != "inputMessageInvoice"@,
            "inputMessageContact"@ != "inputMessageLocation"@,
            "inputMessageContact"@ != "inputMessagePhoto"@,
            "inputMessageContact"@ != "inputMessagePoll"@,
            "inputMessageContact"@ != "inputMessageSticker"@,
            "inputMessageContact"@ != "inputMessageText"@,
            "inputMessageContact"@ != "inputMessageVenue"@,
            "inputMessageContact"@ != "inputMessageVideo"@,
            "inputMessageContact"@ != "inputMessageVideoNote"@,
            "inputMessageContact"@ != "inputMessageVoiceNote"@,
            "inputMessageDice"@ != "inputMessageDocument"@,
            "inputMessageDice"@ != "inputMessageForwarded"@,
            "inputMessageDice"@ != "inputMessageGame"@,
            "inputMessageDice"@ != "inputMessageInvoice"@,
            "inputMessageDice"@ != "inputMessageLocation"@,
            "inputMessageDice"@ != "inputMessagePhoto"@,
            "inputMessageDice"@ != "inputMessagePoll"@,
            "inputMessageDice"@ != "inputMessageSticker"@,
            "inputMessageDice"@ != "inputMessageText"@,
            "inputMessageDice"@ != "inputMessageVenue"@,
            "inputMessageDice"@ != "inputMessageVideo"@,
            "inputMessageDice"@ != "inputMessageVideoNote"@,
            "inputMessageDice"@ != "inputMessageVoiceNote"@,
            "inputMessageDocument"@ != "inputMessageForwarded"@,
            "inputMessageDocument"@ != "inputMessageGame"@,
            "inputMessageDocument"@ != "inputMessageInvoice"@,
            "inputMessageDocument"@ != "inputMessageLocation"@,
            "inputMessageDocument"@ != "inputMessagePhoto"@,
            "inputMessageDocument"@ != "inputMessagePoll"@,
            "inputMessageDocument"@ != "inputMessageSticker"@,
            "inputMessageDocument"@ != "inputMessageText"@,
            "inputMessageDocument"@ != "inputMessageVenue"@,
            "inputMessageDocument"@ != "inputMessageVideo"@,
            "inputMessageDocument"@ != "inputMessageVideoNote"@,
            "inputMessageDocument"@ != "inputMessageVoiceNote"@,
            "inputMessageForwarded"@ != "inputMessageGame"@,
            "inputMessageForwarded"@ != "inputMessageInvoice"@,
            "inputMessageForwarded"@ != "inputMessageLocation"@,
            "inputMessageForwarded"@ != "inputMessagePhoto"@,
            "inputMessageForwarded"@ != "inputMessagePoll"@,
            "inputMessageForwarded"@ != "inputMessageSticker"@,
            "inputMessageForwarded"@ != "inputMessageText"@,
            "inputMessageForwarded"@ != "inputMessageVenue"@,
            "inputMessageForwarded"@ != "inputMessageVideo"@,
            "inputMessageForwarded"@ != "inputMessageVideoNote"@,
            "inputMessageForwarded"@ != "inputMessageVoiceNote"@,
            "inputMessageGame"@ != "inputMessageInvoice"@,
            "inputMessageGame"@ != "inputMessageLocation"@,
            "inputMessageGame"@ != "inputMessagePhoto"@,
            "inputMessageGame"@ != "inputMessagePoll"@,
            "inputMessageGame"@ != "inputMessageSticker"@,
            "inputMessageGame"@ != "inputMessageText"@,
            "inputMessageGame"@ != "inputMessageVenue"@,
            "inputMessageGame"@ != "inputMessageVideo"@,
            "inputMessageGame"@ != "inputMessageVideoNote"@,
            "inputMessageGame"@ != "inputMessageVoiceNote"@,
            "inputMessageInvoice"@ != "inputMessageLocation"@,
            "inputMessageInvoice"@ != "inputMessagePhoto"@,
            "inputMessageInvoice"@ != "inputMessagePoll"@,
            "inputMessageInvoice"@ != "inputMessageSticker"@,
            "inputMessageInvoice"@ != "inputMessageText"@,
            "inputMessageInvoice"@ != "inputMessageVenue"@,
            "inputMessageInvoice"@ != "inputMessageVideo"@,
            "inputMessageInvoice"@ != "inputMessageVideoNote"@,
            "inputMessageInvoice"@ != "inputMessageVoiceNote"@,
            "inputMessageLocation"@ != "inputMessagePhoto"@,
            "inputMessageLocation"@ != "inputMessagePoll"@,
            "inputMessageLocation"@ != "inputMessageSticker"@,
            "inputMessageLocation"@ != "inputMessageText"@,
            "inputMessageLocation"@ != "inputMessageVenue"@,
            "inputMessageLocation"@ != "inputMessageVideo"@,
            "inputMessageLocation"@ != "inputMessageVideoNote"@,
            "inputMessageLocation"@ != "inputMessageVoiceNote"@,
            "inputMessagePhoto"@ != "inputMessagePoll"@,
            "inputMessagePhoto"@ != "inputMessageSticker"@,
            "inputMessagePhoto"@ != "inputMessageText"@,
            "inputMessagePhoto"@ != "inputMessageVenue"@,
            "inputMessagePhoto"@ != "inputMessageVideo"@,
            "inputMessagePhoto"@ != "inputMessageVideoNote"@,
            "inputMessagePhoto"@ != "inputMessageVoiceNote"@,
            "inputMessagePoll"@ != "inputMessageSticker"@,
            "inputMessagePoll"@ != "inputMessageText"@,
            "inputMessagePoll"@ != "inputMessageVenue"@,
            "inputMessagePoll"@ != "inputMessageVideo"@,
            "inputMessagePoll"@ != "inputMessageVideoNote"@,
            "inputMessagePoll"@ != "inputMessageVoiceNote"@,
            "inputMessageSticker"@ != "inputMessageText"@,
            "inputMessageSticker"@ != "inputMessageVenue"@,
            "inputMessageSticker"@ != "inputMessageVideo"@,
            "inputMessageSticker"@ != "inputMessageVideoNote"@,
            "inputMessageSticker"@ != "inputMessageVoiceNote"@,
            "inputMessageText"@ != "inputMessageVenue"@,
            "inputMessageText"@ != "inputMessageVideo"@,
            "inputMessageText"@ != "inputMessageVideoNote"@,
            "inputMessageText"@ != "inputMessageVoiceNote"@,
            "inputMessageVenue"@ != "inputMessageVideo"@,
            "inputMessageVenue"@ != "inputMessageVideoNote"@,
            "inputMessageVenue"@ != "inputMessageVoiceNote"@,
            "inputMessageVideo"@ != "inputMessageVideoNote"@,
            "inputMessageVideo"@ != "inputMessageVoiceNote"@,
            "inputMessageVideoNote"@ != "inputMessageVoiceNote"@,
    {
        reveal_strlit("inputMessageAnimation");
        reveal_strlit("inputMessageAudio");
        reveal_strlit("inputMessageContact");
        reveal_strlit("inputMessageDice");
        reveal_strlit("inputMessageDocument");
        reveal_strlit("inputMessageForwarded");
        reveal_strlit("inputMessageGame");
        reveal_strlit("inputMessageInvoice");
        reveal_strlit("inputMessageLocation");
        reveal_strlit("inputMessagePhoto");
        reveal_strlit("inputMessagePoll");
        reveal_strlit("inputMessageSticker");
        reveal_strlit("inputMessageText");
        reveal_strlit("inputMessageVenue");
        reveal_strlit("inputMessageVideo");
        reveal_strlit("inputMessageVideoNote");
        reveal_strlit("inputMessageVoiceNote");
        assert("inputMessageAnimation"@.len() == 21);
        assert("inputMessageAudio"@.len() == 17);
        assert("inputMessageContact"@.len() == 19);
        assert("inputMessageDice"@.len() == 16);
        assert("inputMessageDocument"@.len() == 20);
        assert("inputMessageForwarded"@.len() == 21);
        assert("inputMessageGame"@.len() == 16);
        assert("inputMessageInvoice"@.len() == 19);
        assert("inputMessageLocation"@.len() == 20);
        assert("inputMessagePhoto"@.len() == 17);
        assert("inputMessagePoll"@.len() == 16);
        assert("inputMessageSticker"@.len() == 19);
        assert("inputMessageText"@.len() == 16);
        assert("inputMessageVenue"@.len() == 17);
        assert("inputMessageVideo"@.len() == 17);
        assert("inputMessageVideoNote"@.len() == 21);
        assert("inputMessageVoiceNote"@.len() == 21);
        assert("inputMessageAnimation"@[12] == 'A' && "inputMessageForwarded"@[12] == 'F');
        assert("inputMessageAnimation"@[12] == 'A' && "inputMessageVideoNote"@[12] == 'V');
        assert("inputMessageAnimation"@[12] == 'A' && "inputMessageVoiceNote"@[12] == 'V');
        assert("inputMessageAudio"@[12] == 'A' && "inputMessagePhoto"@[12] == 'P');
        assert("inputMessageAudio"@[12] == 'A' && "inputMessageVenue"@[12] == 'V');
        assert("inputMessageAudio"@[12] == 'A' && "inputMessageVideo"@[12] == 'V');
        assert("inputMessageContact"@[12] == 'C' && "inputMessageInvoice"@[12] == 'I');
        assert("inputMessageContact"@[12] == 'C' && "inputMessageSticker"@[12] == 'S');
        assert("inputMessageDice"@[12] == 'D' && "inputMessageGame"@[12] == 'G');
        assert("inputMessageDice"@[12] == 'D' && "inputMessagePoll"@[12] == 'P');
        assert("inputMessageDice"@[12] == 'D' && "inputMessageText"@[12] == 'T');
        assert("inputMessageDocument"@[12] == 'D' && "inputMessageLocation"@[12] == 'L');
        assert("inputMessageForwarded"@[12] == 'F' && "inputMessageVideoNote"@[12] == 'V');
        assert("inputMessageForwarded"@[12] == 'F' && "inputMessageVoiceNote"@[12] == 'V');
        assert("inputMessageGame"@[12] == 'G' && "inputMessagePoll"@[12] == 'P');
        assert("inputMessageGame"@[12] == 'G' && "inputMessageText"@[12] == 'T');
        assert("inputMessageInvoice"@[12] == 'I' && "inputMessageSticker"@[12] == 'S');
        assert("inputMessagePhoto"@[12] == 'P' && "inputMessageVenue"@[12] == 'V');
        assert("inputMessagePhoto"@[12] == 'P' && "inputMessageVideo"@[12] == 'V');
        assert("inputMessagePoll"@[12] == 'P' && "inputMessageText"@[12] == 'T');
        assert("inputMessageVenue"@[13] == 'e' && "inputMessageVideo"@[13] == 'i');
        assert("inputMessageVideoNote"@[13] == 'i' && "inputMessageVoiceNote"@[13] == 'o');
    }
}

impl Wire for InputMessageContent {
    open spec fn wire_tree(self) -> Option<SpecJson> {
        match self {
            InputMessageContent::_Default(_) => None,
            InputMessageContent::InputMessageAnimation(x) => x.wire_tree(),
            InputMessageContent::InputMessageAudio(x) => x.wire_tree(),
            InputMessageContent::InputMessageContact(x) => x.wire_tree(),
            InputMessageContent::InputMessageDice(x) => x.wire_tree(),
            InputMessageContent::InputMessageDocument(x) => x.wire_tree(),
            InputMessageContent::InputMessageForwarded(x) => x.wire_tree(),
            InputMessageContent::InputMessageGame(x) => x.wire_tree(),
            InputMessageContent::InputMessageInvoice(x) => x.wire_tree(),
            InputMessageContent::InputMessageLocation(x) => x.wire_tree(),
            InputMessageContent::InputMessagePhoto(x) => x.wire_tree(),
            InputMessageContent::InputMessagePoll(x) => x.wire_tree(),
            InputMessageContent::InputMessageSticker(x) => x.wire_tree(),
            InputMessageContent::InputMessageText(x) => x.wire_tree(),
            InputMessageContent::InputMessageVenue(x) => x.wire_tree(),
            InputMessageContent::InputMessageVideo(x) => x.wire_tree(),
            InputMessageContent::InputMessageVideoNote(x) => x.wire_tree(),
            InputMessageContent::InputMessageVoiceNote(x) => x.wire_tree(),
        }
    }

    open spec fn accepts(t: SpecJson) -> bool {
        match tag_of(t) {
            None => false,
            Some(g) => {
                if g == InputMessageAnimation::tag_spec() {
                    InputMessageAnimation::accepts(t)
                } else if g == InputMessageAudio::tag_spec() {
                    InputMessageAudio::accepts(t)
                } else if g == InputMessageContact::tag_spec() {
                    InputMessageContact::accepts(t)
                } else if g == InputMessageDice::tag_spec() {
                    InputMessageDice::accepts(t)
                } else if g == InputMessageDocument::tag_spec() {
                    InputMessageDocument::accepts(t)
                } else if g == InputMessageForwarded::tag_spec() {
                    InputMessageForwarded::accepts(t)
                } else if g == InputMessageGame::tag_spec() {
                    InputMessageGame::accepts(t)
                } else if g == InputMessageInvoice::tag_spec() {
                    InputMessageInvoice::accepts(t)
                } else if g == InputMessageLocation::tag_spec() {
                    InputMessageLocation::accepts(t)
                } else if g == InputMessagePhoto::tag_spec() {
                    InputMessagePhoto::accepts(t)
                } else if g == InputMessagePoll::tag_spec() {
                    InputMessagePoll::accepts(t)
                } else if g == InputMessageSticker::tag_spec() {
                    InputMessageSticker::accepts(t)
                } else if g == InputMessageText::tag_spec() {
                    InputMessageText::accepts(t)
                } else if g == InputMessageVenue::tag_spec() {
                    InputMessageVenue::accepts(t)
                } else if g == InputMessageVideo::tag_spec() {
                    InputMessageVideo::accepts(t)
                } else if g == InputMessageVideoNote::tag_spec() {
                    InputMessageVideoNote::accepts(t)
                } else if g == InputMessageVoiceNote::tag_spec() {
                    InputMessageVoiceNote::accepts(t)
                } else {
                    false
                }
            },
        }
    }

    open spec fn err_of(t: SpecJson) -> SpecDecodeError {
        match tag_of(t) {
            None => SpecDecodeError::Malformed,
            Some(g) => {
                if g == InputMessageAnimation::tag_spec() {
                    InputMessageAnimation::err_of(t)
                } else if g == InputMessageAudio::tag_spec() {
                    InputMessageAudio::err_of(t)
                } else if g == InputMessageContact::tag_spec() {
                    InputMessageContact::err_of(t)
                } else if g == InputMessageDice::tag_spec() {
                    InputMessageDice::err_of(t)
                } else if g == InputMessageDocument::tag_spec() {
                    InputMessageDocument::err_of(t)
                } else if g == InputMessageForwarded::tag_spec() {
                    InputMessageForwarded::err_of(t)
                } else if g == InputMessageGame::tag_spec() {
                    InputMessageGame::err_of(t)
                } else if g == InputMessageInvoice::tag_spec() {
                    InputMessageInvoice::err_of(t)
                } else if g == InputMessageLocation::tag_spec() {
                    InputMessageLocation::err_of(t)
                } else if g == InputMessagePhoto::tag_spec() {
                    InputMessagePhoto::err_of(t)
                } else if g == InputMessagePoll::tag_spec() {
                    InputMessagePoll::err_of(t)
                } else if g == InputMessageSticker::tag_spec() {
                    InputMessageSticker::err_of(t)
                } else if g == InputMessageText::tag_spec() {
                    InputMessageText::err_of(t)
                } else if g == InputMessageVenue::tag_spec() {
                    InputMessageVenue::err_of(t)
                } else if g == InputMessageVideo::tag_spec() {
                    InputMessageVideo::err_of(t)
                } else if g == InputMessageVideoNote::tag_spec() {
                    InputMessageVideoNote::err_of(t)
                } else if g == InputMessageVoiceNote::tag_spec() {
                    InputMessageVoiceNote::err_of(t)
                } else {
                    SpecDecodeError::UnrecognizedVariant(g)
                }
            },
        }
    }

    open spec fn decodes_from(t: SpecJson, v: Self) -> bool {
        match tag_of(t) {
            None => false,
            Some(g) => {
                if g == InputMessageAnimation::tag_spec() {
                    v matches InputMessageContent::InputMessageAnimation(x) && InputMessageAnimation::decodes_from(t, x)
                } else if g == InputMessageAudio::tag_spec() {
                    v matches InputMessageContent::InputMessageAudio(x) && InputMessageAudio::decodes_from(t, x)
                } else if g == InputMessageContact::tag_spec() {
                    v matches InputMessageContent::InputMessageContact(x) && InputMessageContact::decodes_from(t, x)
                } else if g == InputMessageDice::tag_spec() {
                    v matches InputMessageContent::InputMessageDice(x) && InputMessageDice::decodes_from(t, x)
                } else if g == InputMessageDocument::tag_spec() {
                    v matches InputMessageContent::InputMessageDocument(x) && InputMessageDocument::decodes_from(t, x)
                } else if g == InputMessageForwarded::tag_spec() {
                    v matches InputMessageContent::InputMessageForwarded(x) && InputMessageForwarded::decodes_from(t, x)
                } else if g == InputMessageGame::tag_spec() {
                    v matches InputMessageContent::InputMessageGame(x) && InputMessageGame::decodes_from(t, x)
                } else if g == InputMessageInvoice::tag_spec() {
                    v matches InputMessageContent::InputMessageInvoice(x) && InputMessageInvoice::decodes_from(t, x)
                } else if g == InputMessageLocation::tag_spec() {
                    v matches InputMessageContent::InputMessageLocation(x) && InputMessageLocation::decodes_from(t, x)
                } else if g == InputMessagePhoto::tag_spec() {
                    v matches InputMessageContent::InputMessagePhoto(x) && InputMessagePhoto::decodes_from(t, x)
                } else if g == InputMessagePoll::tag_spec() {
                    v matches InputMessageContent::InputMessagePoll(x) && InputMessagePoll::decodes_from(t, x)
                } else if g == InputMessageSticker::tag_spec() {
                    v matches InputMessageContent::InputMessageSticker(x) && InputMessageSticker::decodes_from(t, x)
                } else if g == InputMessageText::tag_spec() {
                    v matches InputMessageContent::InputMessageText(x) && InputMessageText::decodes_from(t, x)
                } else if g == InputMessageVenue::tag_spec() {
                    v matches InputMessageContent::InputMessageVenue(x) && InputMessageVenue::decodes_from(t, x)
                } else if g == InputMessageVideo::tag_spec() {
                    v matches InputMessageContent::InputMessageVideo(x) && InputMessageVideo::decodes_from(t, x)
                } else if g == InputMessageVideoNote::tag_spec() {
                    v matches InputMessageContent::InputMessageVideoNote(x) && InputMessageVideoNote::decodes_from(t, x)
                } else if g == InputMessageVoiceNote::tag_spec() {
                    v matches InputMessageContent::InputMessageVoiceNote(x) && InputMessageVoiceNote::decodes_from(t, x)
                } else {
                    false
                }
            },
        }
    }

    open spec fn eqv(self, other: Self) -> bool {
        match (self, other) {
            (InputMessageContent::_Default(_), InputMessageContent::_Default(_)) => true,
            (InputMessageContent::InputMessageAnimation(a), InputMessageContent::InputMessageAnimation(b)) => a.eqv(b),
            (InputMessageContent::InputMessageAudio(a), InputMessageContent::InputMessageAudio(b)) => a.eqv(b),
            (InputMessageContent::InputMessageContact(a), InputMessageContent::InputMessageContact(b)) => a.eqv(b),
            (InputMessageContent::InputMessageDice(a), InputMessageContent::InputMessageDice(b)) => a.eqv(b),
            (InputMessageContent::InputMessageDocument(a), InputMessageContent::InputMessageDocument(b)) => a.eqv(b),
            (InputMessageContent::InputMessageForwarded(a), InputMessageContent::InputMessageForwarded(b)) => a.eqv(b),
            (InputMessageContent::InputMessageGame(a), InputMessageContent::InputMessageGame(b)) => a.eqv(b),
            (InputMessageContent::InputMessageInvoice(a), InputMessageContent::InputMessageInvoice(b)) => a.eqv(b),
            (InputMessageContent::InputMessageLocation(a), InputMessageContent::InputMessageLocation(b)) => a.eqv(b),
            (InputMessageContent::InputMessagePhoto(a), InputMessageContent::InputMessagePhoto(b)) => a.eqv(b),
            (InputMessageContent::InputMessagePoll(a), InputMessageContent::InputMessagePoll(b)) => a.eqv(b),
            (InputMessageContent::InputMessageSticker(a), InputMessageContent::InputMessageSticker(b)) => a.eqv(b),
            (InputMessageContent::InputMessageText(a), InputMessageContent::InputMessageText(b)) => a.eqv(b),
            (InputMessageContent::InputMessageVenue(a), InputMessageContent::InputMessageVenue(b)) => a.eqv(b),
            (InputMessageContent::InputMessageVideo(a), InputMessageContent::InputMessageVideo(b)) => a.eqv(b),
            (InputMessageContent::InputMessageVideoNote(a), InputMessageContent::InputMessageVideoNote(b)) => a.eqv(b),
            (InputMessageContent::InputMessageVoiceNote(a), InputMessageContent::InputMessageVoiceNote(b)) => a.eqv(b),
            _ => false,
        }
    }

    fn clone_val(&self) -> (r: Self) {
        self.clone()
    }

    fn decode_tree(t: &JsonValue) -> (r: Result<Self, DecodeError>) {
        let g = match get_tag(t) {
            Some(g) => g,
            None => {
                return Err(DecodeError::Malformed);
            },
        };
        if str_eq(g.as_str(), "inputMessageAnimation") {
            match InputMessageAnimation::decode_tree(t) {
                Ok(x) => Ok(InputMessageContent::InputMessageAnimation(x)),
                Err(e) => Err(e),
            }
        } else if str_eq(g.as_str(), "inputMessageAudio") {
            match InputMessageAudio::decode_tree(t) {
                Ok(x) => Ok(InputMessageContent::InputMessageAudio(x)),
                Err(e) => Err(e),
            }
        } else if str_eq(g.as_str(), "inputMessageContact") {
            match InputMessageContact::decode_tree(t) {
                Ok(x) => Ok(InputMessageContent::InputMessageContact(x)),
                Err(e) => Err(e),
            }
        } else if str_eq(g.as_str(), "inputMessageDice") {
            match InputMessageDice::decode_tree(t) {
                Ok(x) => Ok(InputMessageContent::InputMessageDice(x)),
                Err(e) => Err(e),
            }
        } else if str_eq(g.as_str(), "inputMessageDocument") {
            match InputMessageDocument::decode_tree(t) {
                Ok(x) => Ok(InputMessageContent::InputMessageDocument(x)),
                Err(e) => Err(e),
            }
        } else if str_eq(g.as_str(), "inputMessageForwarded") {
            match InputMessageForwarded::decode_tree(t) {
                Ok(x) => Ok(InputMessageContent::InputMessageForwarded(x)),
                Err(e) => Err(e),
            }
        } else if str_eq(g.as_str(), "inputMessageGame") {
            match InputMessageGame::decode_tree(t) {
                Ok(x) => Ok(InputMessageContent::InputMessageGame(x)),
                Err(e) => Err(e),
            }
        } else if str_eq(g.as_str(), "inputMessageInvoice") {
            match InputMessageInvoice::decode_tree(t) {
                Ok(x) => Ok(InputMessageContent::InputMessageInvoice(x)),
                Err(e) => Err(e),
            }
        } else if str_eq(g.as_str(), "inputMessageLocation") {
            match InputMessageLocation::decode_tree(t) {
                Ok(x) => Ok(InputMessageContent::InputMessageLocation(x)),
                Err(e) => Err(e),
            }
        } else if str_eq(g.as_str(), "inputMessagePhoto") {
            match InputMessagePhoto::decode_tree(t) {
                Ok(x) => Ok(InputMessageContent::InputMessagePhoto(x)),
                Err(e) => Err(e),
            }
        } else if str_eq(g.as_str(), "inputMessagePoll") {
            match InputMessagePoll::decode_tree(t) {
                Ok(x) => Ok(InputMessageContent::InputMessagePoll(x)),
                Err(e) => Err(e),
            }
        } else if str_eq(g.as_str(), "inputMessageSticker") {
            match InputMessageSticker::decode_tree(t) {
                Ok(x) => Ok(InputMessageContent::InputMessageSticker(x)),
                Err(e) => Err(e),
            }
        } else if str_eq(g.as_str(), "inputMessageText") {
            match InputMessageText::decode_tree(t) {
                Ok(x) => Ok(InputMessageContent::InputMessageText(x)),
                Err(e) => Err(e),
            }
        } else if str_eq(g.as_str(), "inputMessageVenue") {
            match InputMessageVenue::decode_tree(t) {
                Ok(x) => Ok(InputMessageContent::InputMessageVenue(x)),
                Err(e) => Err(e),
            }
        } else if str_eq(g.as_str(), "inputMessageVideo") {
            match InputMessageVideo::decode_tree(t) {
                Ok(x) => Ok(InputMessageContent::InputMessageVideo(x)),
                Err(e) => Err(e),
            }
        } else if str_eq(g.as_str(), "inputMessageVideoNote") {
            match InputMessageVideoNote::decode_tree(t) {
                Ok(x) => Ok(InputMessageContent::InputMessageVideoNote(x)),
                Err(e) => Err(e),
            }
        } else if str_eq(g.as_str(), "inputMessageVoiceNote") {
            match InputMessageVoiceNote::decode_tree(t) {
                Ok(x) => Ok(InputMessageContent::InputMessageVoiceNote(x)),
                Err(e) => Err(e),
            }
        } else {
            Err(DecodeError::UnrecognizedVariant(g))
        }
    }

    fn encode_tree(&self) -> (r: Result<JsonValue, EncodeError>) {
        match self {
            InputMessageContent::_Default(_) => Err(EncodeError::Unrepresentable),
            InputMessageContent::InputMessageAnimation(x) => x.encode_tree(),
            InputMessageContent::InputMessageAudio(x) => x.encode_tree(),
            InputMessageContent::InputMessageContact(x) => x.encode_tree(),
            InputMessageContent::InputMessageDice(x) => x.encode_tree(),
            InputMessageContent::InputMessageDocument(x) => x.encode_tree(),
            InputMessageContent::InputMessageForwarded(x) => x.encode_tree(),
            InputMessageContent::InputMessageGame(x) => x.encode_tree(),
            InputMessageContent::InputMessageInvoice(x) => x.encode_tree(),
            InputMessageContent::InputMessageLocation(x) => x.encode_tree(),
            InputMessageContent::InputMessagePhoto(x) => x.encode_tree(),
            InputMessageContent::InputMessagePoll(x) => x.encode_tree(),
            InputMessageContent::InputMessageSticker(x) => x.encode_tree(),
            InputMessageContent::InputMessageText(x) => x.encode_tree(),
            InputMessageContent::InputMessageVenue(x) => x.encode_tree(),
            InputMessageContent::InputMessageVideo(x) => x.encode_tree(),
            InputMessageContent::InputMessageVideoNote(x) => x.encode_tree(),
            InputMessageContent::InputMessageVoiceNote(x) => x.encode_tree(),
        }
    }

    proof fn lemma_wire_wf(v: Self) {
        match v {
            InputMessageContent::_Default(_) => {},
            InputMessageContent::InputMessageAnimation(x) => {
                InputMessageAnimation::lemma_wire_wf(x);
            },
            InputMessageContent::InputMessageAudio(x) => {
                InputMessageAudio::lemma_wire_wf(x);
            },
            InputMessageContent::InputMessageContact(x) => {
                InputMessageContact::lemma_wire_wf(x);
            },
            InputMessageContent::InputMessageDice(x) => {
                InputMessageDice::lemma_wire_wf(x);
            },
            InputMessageContent::InputMessageDocument(x) => {
                InputMessageDocument::lemma_wire_wf(x);
            },
            InputMessageContent::InputMessageForwarded(x) => {
                InputMessageForwarded::lemma_wire_wf(x);
            },
            InputMessageContent::InputMessageGame(x) => {
                InputMessageGame::lemma_wire_wf(x);
            },
            InputMessageContent::InputMessageInvoice(x) => {
                InputMessageInvoice::lemma_wire_wf(x);
            },
            InputMessageContent::InputMessageLocation(x) => {
                InputMessageLocation::lemma_wire_wf(x);
            },
            InputMessageContent::InputMessagePhoto(x) => {
                InputMessagePhoto::lemma_wire_wf(x);
            },
            InputMessageContent::InputMessagePoll(x) => {
                InputMessagePoll::lemma_wire_wf(x);
            },
            InputMessageContent::InputMessageSticker(x) => {
                InputMessageSticker::lemma_wire_wf(x);
            },
            InputMessageContent::InputMessageText(x) => {
                InputMessageText::lemma_wire_wf(x);
            },
            InputMessageContent::InputMessageVenue(x) => {
                InputMessageVenue::lemma_wire_wf(x);
            },
            InputMessageContent::InputMessageVideo(x) => {
                InputMessageVideo::lemma_wire_wf(x);
            },
            InputMessageContent::InputMessageVideoNote(x) => {
                InputMessageVideoNote::lemma_wire_wf(x);
            },
            InputMessageContent::InputMessageVoiceNote(x) => {
                InputMessageVoiceNote::lemma_wire_wf(x);
            },
        }
    }

    proof fn lemma_round_trip(v: Self) {
        Self::lemma_tags_distinct();
        match v {
            InputMessageContent::_Default(_) => {},
            InputMessageContent::InputMessageAnimation(x) => {
                if x.wire_tree() is Some {
                    let t = x.wire_tree()->0;
                    InputMessageAnimation::lemma_wire_tag(x);
                    InputMessageAnimation::lemma_round_trip(x);
                    assert(Self::accepts(t));
                    assert forall|w: Self| Self::decodes_from(t, w) implies #[trigger] w.eqv(v) by {
                        assert(w matches InputMessageContent::InputMessageAnimation(xi) && InputMessageAnimation::decodes_from(t, xi));
                    }
                }
            },
            InputMessageContent::InputMessageAudio(x) => {
                if x.wire_tree() is Some {
                    let t = x.wire_tree()->0;
                    InputMessageAudio::lemma_wire_tag(x);
                    InputMessageAudio::lemma_round_trip(x);
                    assert(Self::accepts(t));
                    assert forall|w: Self| Self::decodes_from(t, w) implies #[trigger] w.eqv(v) by {
                        assert(w matches InputMessageContent::InputMessageAudio(xi) && InputMessageAudio::decodes_from(t, xi));
                    }
                }
            },
            InputMessageContent::InputMessageContact(x) => {
                if x.wire_tree() is Some {
                    let t = x.wire_tree()->0;
                    InputMessageContact::lemma_wire_tag(x);
                    InputMessageContact::lemma_round_trip(x);
                    assert(Self::accepts(t));
                    assert forall|w: Self| Self::decodes_from(t, w) implies #[trigger] w.eqv(v) by {
                        assert(w matches InputMessageContent::InputMessageContact(xi) && InputMessageContact::decodes_from(t, xi));
                    }
                }
            },
            InputMessageContent::InputMessageDice(x) => {
                if x.wire_tree() is Some {
                    let t = x.wire_tree()->0;
                    InputMessageDice::lemma_wire_tag(x);
                    InputMessageDice::lemma_round_trip(x);
                    assert(Self::accepts(t));
                    assert forall|w: Self| Self::decodes_from(t, w) implies #[trigger] w.eqv(v) by {
                        assert(w matches InputMessageContent::InputMessageDice(xi) && InputMessageDice::decodes_from(t, xi));
                    }
                }
            },
            InputMessageContent::InputMessageDocument(x) => {
                if x.wire_tree() is Some {
                    let t = x.wire_tree()->0;
                    InputMessageDocument::lemma_wire_tag(x);
                    InputMessageDocument::lemma_round_trip(x);
                    assert(Self::accepts(t));
                    assert forall|w: Self| Self::decodes_from(t, w) implies #[trigger] w.eqv(v) by {
                        assert(w matches InputMessageContent::InputMessageDocument(xi) && InputMessageDocument::decodes_from(t, xi));
                    }
                }
            },
            InputMessageContent::InputMessageForwarded(x) => {
                if x.wire_tree() is Some {
                    let t = x.wire_tree()->0;
                    InputMessageForwarded::lemma_wire_tag(x);
                    InputMessageForwarded::lemma_round_trip(x);
                    assert(Self::accepts(t));
                    assert forall|w: Self| Self::decodes_from(t, w) implies #[trigger] w.eqv(v) by {
                        assert(w matches InputMessageContent::InputMessageForwarded(xi) && InputMessageForwarded::decodes_from(t, xi));
                    }
                }
            },
            InputMessageContent::InputMessageGame(x) => {
                if x.wire_tree() is Some {
                    let t = x.wire_tree()->0;
                    InputMessageGame::lemma_wire_tag(x);
                    InputMessageGame::lemma_round_trip(x);
                    assert(Self::accepts(t));
                    assert forall|w: Self| Self::decodes_from(t, w) implies #[trigger] w.eqv(v) by {
                        assert(w matches InputMessageContent::InputMessageGame(xi) && InputMessageGame::decodes_from(t, xi));
                    }
                }
            },
            InputMessageContent::InputMessageInvoice(x) => {
                if x.wire_tree() is Some {
                    let t = x.wire_tree()->0;
                    InputMessageInvoice::lemma_wire_tag(x);
                    InputMessageInvoice::lemma_round_trip(x);
                    assert(Self::accepts(t));
                    assert forall|w: Self| Self::decodes_from(t, w) implies #[trigger] w.eqv(v) by {
                        assert(w matches InputMessageContent::InputMessageInvoice(xi) && InputMessageInvoice::decodes_from(t, xi));
                    }
                }
            },
            InputMessageContent::InputMessageLocation(x) => {
                if x.wire_tree() is Some {
                    let t = x.wire_tree()->0;
                    InputMessageLocation::lemma_wire_tag(x);
                    InputMessageLocation::lemma_round_trip(x);
                    assert(Self::accepts(t));
                    assert forall|w: Self| Self::decodes_from(t, w) implies #[trigger] w.eqv(v) by {
                        assert(w matches InputMessageContent::InputMessageLocation(xi) && InputMessageLocation::decodes_from(t, xi));
                    }
                }
            },
            InputMessageContent::InputMessagePhoto(x) => {
                if x.wire_tree() is Some {
                    let t = x.wire_tree()->0;
                    InputMessagePhoto::lemma_wire_tag(x);
                    InputMessagePhoto::lemma_round_trip(x);
                    assert(Self::accepts(t));
                    assert forall|w: Self| Self::decodes_from(t, w) implies #[trigger] w.eqv(v) by {
                        assert(w matches InputMessageContent::InputMessagePhoto(xi) && InputMessagePhoto::decodes_from(t, xi));
                    }
                }
            },
            InputMessageContent::InputMessagePoll(x) => {
                if x.wire_tree() is Some {
                    let t = x.wire_tree()->0;
                    InputMessagePoll::lemma_wire_tag(x);
                    InputMessagePoll::lemma_round_trip(x);
                    assert(Self::accepts(t));
                    assert forall|w: Self| Self::decodes_from(t, w) implies #[trigger] w.eqv(v) by {
                        assert(w matches InputMessageContent::InputMessagePoll(xi) && InputMessagePoll::decodes_from(t, xi));
                    }
                }
            },
            InputMessageContent::InputMessageSticker(x) => {
                if x.wire_tree() is Some {
                    let t = x.wire_tree()->0;
                    InputMessageSticker::lemma_wire_tag(x);
                    InputMessageSticker::lemma_round_trip(x);
                    assert(Self::accepts(t));
                    assert forall|w: Self| Self::decodes_from(t, w) implies #[trigger] w.eqv(v) by {
                        assert(w matches InputMessageContent::InputMessageSticker(xi) && InputMessageSticker::decodes_from(t, xi));
                    }
                }
            },
            InputMessageContent::InputMessageText(x) => {
                if x.wire_tree() is Some {
                    let t = x.wire_tree()->0;
                    InputMessageText::lemma_wire_tag(x);
                    InputMessageText::lemma_round_trip(x);
                    assert(Self::accepts(t));
                    assert forall|w: Self| Self::decodes_from(t, w) implies #[trigger] w.eqv(v) by {
                        assert(w matches InputMessageContent::InputMessageText(xi) && InputMessageText::decodes_from(t, xi));
                    }
                }
            },
            InputMessageContent::InputMessageVenue(x) => {
                if x.wire_tree() is Some {
                    let t = x.wire_tree()->0;
                    InputMessageVenue::lemma_wire_tag(x);
                    InputMessageVenue::lemma_round_trip(x);
                    assert(Self::accepts(t));
                    assert forall|w: Self| Self::decodes_from(t, w) implies #[trigger] w.eqv(v) by {
                        assert(w matches InputMessageContent::InputMessageVenue(xi) && InputMessageVenue::decodes_from(t, xi));
                    }
                }
            },
            InputMessageContent::InputMessageVideo(x) => {
                if x.wire_tree() is Some {
                    let t = x.wire_tree()->0;
                    InputMessageVideo::lemma_wire_tag(x);
                    InputMessageVideo::lemma_round_trip(x);
                    assert(Self::accepts(t));
                    assert forall|w: Self| Self::decodes_from(t, w) implies #[trigger] w.eqv(v) by {
                        assert(w matches InputMessageContent::InputMessageVideo(xi) && InputMessageVideo::decodes_from(t, xi));
                    }
                }
            },
            InputMessageContent::InputMessageVideoNote(x) => {
                if x.wire_tree() is Some {
                    let t = x.wire_tree()->0;
                    InputMessageVideoNote::lemma_wire_tag(x);
                    InputMessageVideoNote::lemma_round_trip(x);
                    assert(Self::accepts(t));
                    assert forall|w: Self| Self::decodes_from(t, w) implies #[trigger] w.eqv(v) by {
                        assert(w matches InputMessageContent::InputMessageVideoNote(xi) && InputMessageVideoNote::decodes_from(t, xi));
                    }
                }
            },
            InputMessageContent::InputMessageVoiceNote(x) => {
                if x.wire_tree() is Some {
                    let t = x.wire_tree()->0;
                    InputMessageVoiceNote::lemma_wire_tag(x);
                    InputMessageVoiceNote::lemma_round_trip(x);
                    assert(Self::accepts(t));
                    assert forall|w: Self| Self::decodes_from(t, w) implies #[trigger] w.eqv(v) by {
                        assert(w matches InputMessageContent::InputMessageVoiceNote(xi) && InputMessageVoiceNote::decodes_from(t, xi));
                    }
                }
            },
        }
    }
}

impl RObject for InputMessageContent {
    open spec fn tag_chars(&self) -> Seq<char> {
        match self {
            InputMessageContent::_Default(_) => "-1"@,
            InputMessageContent::InputMessageAnimation(x) => InputMessageAnimation::tag_spec(),
            InputMessageContent::InputMessageAudio(x) => InputMessageAudio::tag_spec(),
            InputMessageContent::InputMessageContact(x) => InputMessageContact::tag_spec(),
            InputMessageContent::InputMessageDice(x) => InputMessageDice::tag_spec(),
            InputMessageContent::InputMessageDocument(x) => InputMessageDocument::tag_spec(),
            InputMessageContent::InputMessageForwarded(x) => InputMessageForwarded::tag_spec(),
            InputMessageContent::InputMessageGame(x) => InputMessageGame::tag_spec(),
            InputMessageContent::InputMessageInvoice(x) => InputMessageInvoice::tag_spec(),
            InputMessageContent::InputMessageLocation(x) => InputMessageLocation::tag_spec(),
            InputMessageContent::InputMessagePhoto(x) => InputMessagePhoto::tag_spec(),
            InputMessageContent::InputMessagePoll(x) => InputMessagePoll::tag_spec(),
            InputMessageContent::InputMessageSticker(x) => InputMessageSticker::tag_spec(),
            InputMessageContent::InputMessageText(x) => InputMessageText::tag_spec(),
            InputMessageContent::InputMessageVenue(x) => InputMessageVenue::tag_spec(),
            InputMessageContent::InputMessageVideo(x) => InputMessageVideo::tag_spec(),
            InputMessageContent::InputMessageVideoNote(x) => InputMessageVideoNote::tag_spec(),
            InputMessageContent::InputMessageVoiceNote(x) => InputMessageVoiceNote::tag_spec(),
        }
    }

    open spec fn extra_spec(&self) -> Option<Seq<char>> {
        match self {
            InputMessageContent::_Default(_) => None,
            InputMessageContent::InputMessageAnimation(x) => opt_str_view(x.extra),
            InputMessageContent::InputMessageAudio(x) => opt_str_view(x.extra),
            InputMessageContent::InputMessageContact(x) => opt_str_view(x.extra),
            InputMessageContent::InputMessageDice(x) => opt_str_view(x.extra),
            InputMessageContent::InputMessageDocument(x) => opt_str_view(x.extra),
            InputMessageContent::InputMessageForwarded(x) => opt_str_view(x.extra),
            InputMessageContent::InputMessageGame(x) => opt_str_view(x.extra),
            InputMessageContent::InputMessageInvoice(x) => opt_str_view(x.extra),
            InputMessageContent::InputMessageLocation(x) => opt_str_view(x.extra),
            InputMessageContent::InputMessagePhoto(x) => opt_str_view(x.extra),
            InputMessageContent::InputMessagePoll(x) => opt_str_view(x.extra),
            InputMessageContent::InputMessageSticker(x) => opt_str_view(x.extra),
            InputMessageContent::InputMessageText(x) => opt_str_view(x.extra),
            InputMessageContent::InputMessageVenue(x) => opt_str_view(x.extra),
            InputMessageContent::InputMessageVideo(x) => opt_str_view(x.extra),
            InputMessageContent::InputMessageVideoNote(x) => opt_str_view(x.extra),
            InputMessageContent::InputMessageVoiceNote(x) => opt_str_view(x.extra),
    }
    }

    fn td_name(&self) -> (r: &'static str) {
        match self {
            InputMessageContent::_Default(_) => "-1",
            InputMessageContent::InputMessageAnimation(x) => x.td_name(),
            InputMessageContent::InputMessageAudio(x) => x.td_name(),
            InputMessageContent::InputMessageContact(x) => x.td_name(),
            InputMessageContent::InputMessageDice(x) => x.td_name(),
            InputMessageContent::InputMessageDocument(x) => x.td_name(),
            InputMessageContent::InputMessageForwarded(x) => x.td_name(),
            InputMessageContent::InputMessageGame(x) => x.td_name(),
            InputMessageContent::InputMessageInvoice(x) => x.td_name(),
            InputMessageContent::InputMessageLocation(x) => x.td_name(),
            InputMessageContent::InputMessagePhoto(x) => x.td_name(),
            InputMessageContent::InputMessagePoll(x) => x.td_name(),
            InputMessageContent::InputMessageSticker(x) => x.td_name(),
            InputMessageContent::InputMessageText(x) => x.td_name(),
            InputMessageContent::InputMessageVenue(x) => x.td_name(),
            InputMessageContent::InputMessageVideo(x) => x.td_name(),
            InputMessageContent::InputMessageVideoNote(x) => x.td_name(),
            InputMessageContent::InputMessageVoiceNote(x) => x.td_name(),
        }
    }

    fn extra(&self) -> (r: Option<String>) {
        match self {
            InputMessageContent::_Default(_) => None,
            InputMessageContent::InputMessageAnimation(x) => clone_opt_string(&x.extra),
            InputMessageContent::InputMessageAudio(x) => clone_opt_string(&x.extra),
            InputMessageContent::InputMessageContact(x) => clone_opt_string(&x.extra),
            InputMessageContent::InputMessageDice(x) => clone_opt_string(&x.extra),
            InputMessageContent::InputMessageDocument(x) => clone_opt_string(&x.extra),
            InputMessageContent::InputMessageForwarded(x) => clone_opt_string(&x.extra),
            InputMessageContent::InputMessageGame(x) => clone_opt_string(&x.extra),
            InputMessageContent::InputMessageInvoice(x) => clone_opt_string(&x.extra),
            InputMessageContent::InputMessageLocation(x) => clone_opt_string(&x.extra),
            InputMessageContent::InputMessagePhoto(x) => clone_opt_string(&x.extra),
            InputMessageContent::InputMessagePoll(x) => clone_opt_string(&x.extra),
            InputMessageContent::InputMessageSticker(x) => clone_opt_string(&x.extra),
            InputMessageContent::InputMessageText(x) => clone_opt_string(&x.extra),
            InputMessageContent::InputMessageVenue(x) => clone_opt_string(&x.extra),
            InputMessageContent::InputMessageVideo(x) => clone_opt_string(&x.extra),
            InputMessageContent::InputMessageVideoNote(x) => clone_opt_string(&x.extra),
            InputMessageContent::InputMessageVoiceNote(x) => clone_opt_string(&x.extra),
        }
    }

    fn to_json(&self) -> (r: Result<String, EncodeError>) {
        crate::object::encode(self)
    }
}

impl InputMessageContent {
    pub fn from_json(json: &str) -> (r: Result<InputMessageContent, DecodeError>)
        ensures
            match crate::parse::parse_doc(json@) {
                Some(t) => match r {
                    Ok(v) => Self::accepts(t) && Self::decodes_from(t, v),
                    Err(e) => !Self::accepts(t) && crate::errors::err_matches(e, Self::err_of(t)),
                },
                None => r matches Err(e) && e == DecodeError::Malformed,
            },
    {
        crate::object::from_json::<InputMessageContent>(json)
    }

    pub fn _is_default(&self) -> (r: bool)
        ensures
            r == (self is _Default),
    {
        match self {
            InputMessageContent::_Default(_) => true,
            _ => false,
        }
    }

    pub fn is_input_message_animation(&self) -> (r: bool)
        ensures
            r == (self is InputMessageAnimation),
    {
        match self {
            InputMessageContent::InputMessageAnimation(_) => true,
            _ => false,
        }
    }

    pub fn is_input_message_audio(&self) -> (r: bool)
        ensures
            r == (self is InputMessageAudio),
    {
        match self {
            InputMessageContent::InputMessageAudio(_) => true,
            _ => false,
        }
    }

    pub fn is_input_message_contact(&self) -> (r: bool)
        ensures
            r == (self is InputMessageContact),
    {
        match self {
            InputMessageContent::InputMessageContact(_) => true,
            _ => false,
        }
    }

    pub fn is_input_message_dice(&self) -> (r: bool)
        ensures
            r == (self is InputMessageDice),
    {
        match self {
            InputMessageContent::InputMessageDice(_) => true,
            _ => false,
        }
    }

    pub fn is_input_message_document(&self) -> (r: bool)
        ensures
            r == (self is InputMessageDocument),
    {
        match self {
            InputMessageContent::InputMessageDocument(_) => true,
            _ => false,
        }
    }

    pub fn is_input_message_forwarded(&self) -> (r: bool)
        ensures
            r == (self is InputMessageForwarded),
    {
        match self {
            InputMessageContent::InputMessageForwarded(_) => true,
            _ => false,
        }
    }

    pub fn is_input_message_game(&self) -> (r: bool)
        ensures
            r == (self is InputMessageGame),
    {
        match self {
            InputMessageContent::InputMessageGame(_) => true,
            _ => false,
        }
    }

    pub fn is_input_message_invoice(&self) -> (r: bool)
        ensures
            r == (self is InputMessageInvoice),
    {
        match self {
            InputMessageContent::InputMessageInvoice(_) => true,
            _ => false,
        }
    }

    pub fn is_input_message_location(&self) -> (r: bool)
        ensures
            r == (self is InputMessageLocation),
    {
        match self {
            InputMessageContent::InputMessageLocation(_) => true,
            _ => false,
        }
    }

    pub fn is_input_message_photo(&self) -> (r: bool)
        ensures
            r == (self is InputMessagePhoto),
    {
        match self {
            InputMessageContent::InputMessagePhoto(_) => true,
            _ => false,
        }
    }

    pub fn is_input_message_poll(&self) -> (r: bool)
        ensures
            r == (self is InputMessagePoll),
    {
        match self {
            InputMessageContent::InputMessagePoll(_) => true,
            _ => false,
        }
    }

    pub fn is_input_message_sticker(&self) -> (r: bool)
        ensures
            r == (self is InputMessageSticker),
    {
        match self {
            InputMessageContent::InputMessageSticker(_) => true,
            _ => false,
        }
    }

    pub fn is_input_message_text(&self) -> (r: bool)
        ensures
            r == (self is InputMessageText),
    {
        match self {
            InputMessageContent::InputMessageText(_) => true,
            _ => false,
        }
    }

    pub fn is_input_message_venue(&self) -> (r: bool)
        ensures
            r == (self is InputMessageVenue),
    {
        match self {
            InputMessageContent::InputMessageVenue(_) => true,
            _ => false,
        }
    }

    pub fn is_input_message_video(&self) -> (r: bool)
        ensures
            r == (self is InputMessageVideo),
    {
        match self {
            InputMessageContent::InputMessageVideo(_) => true,
            _ => false,
        }
    }

    pub fn is_input_message_video_note(&self) -> (r: bool)
        ensures
            r == (self is InputMessageVideoNote),
    {
        match self {
            InputMessageContent::InputMessageVideoNote(_) => true,
            _ => false,
        }
    }

    pub fn is_input_message_voice_note(&self) -> (r: bool)
        ensures
            r == (self is InputMessageVoiceNote),
    {
        match self {
            InputMessageContent::InputMessageVoiceNote(_) => true,
            _ => false,
        }
    }

    pub fn as_input_message_animation(&self) -> (r: Option<&InputMessageAnimation>)
        ensures
            (self is InputMessageAnimation) == (r is Some),
            r matches Some(x) ==> *x == self->InputMessageAnimation_0,
    {
        match self {
            InputMessageContent::InputMessageAnimation(x) => Some(x),
            _ => None,
        }
    }

    pub fn as_input_message_audio(&self) -> (r: Option<&InputMessageAudio>)
        ensures
            (self is InputMessageAudio) == (r is Some),
            r matches Some(x) ==> *x == self->InputMessageAudio_0,
    {
        match self {
            InputMessageContent::InputMessageAudio(x) => Some(x),
            _ => None,
        }
    }

    pub fn as_input_message_contact(&self) -> (r: Option<&InputMessageContact>)
        ensures
            (self is InputMessageContact) == (r is Some),
            r matches Some(x) ==> *x == self->InputMessageContact_0,
    {
        match self {
            InputMessageContent::InputMessageContact(x) => Some(x),
            _ => None,
        }
    }

    pub fn as_input_message_dice(&self) -> (r: Option<&InputMessageDice>)
        ensures
            (self is InputMessageDice) == (r is Some),
            r matches Some(x) ==> *x == self->InputMessageDice_0,
    {
        match self {
            InputMessageContent::InputMessageDice(x) => Some(x),
            _ => None,
        }
    }

    pub fn as_input_message_document(&self) -> (r: Option<&InputMessageDocument>)
        ensures
            (self is InputMessageDocument) == (r is Some),
            r matches Some(x) ==> *x == self->InputMessageDocument_0,
    {
        match self {
            InputMessageContent::InputMessageDocument(x) => Some(x),
            _ => None,
        }
    }

    pub fn as_input_message_forwarded(&self) -> (r: Option<&InputMessageForwarded>)
        ensures
            (self is InputMessageForwarded) == (r is Some),
            r matches Some(x) ==> *x == self->InputMessageForwarded_0,
    {
        match self {
            InputMessageContent::InputMessageForwarded(x) => Some(x),
            _ => None,
        }
    }

    pub fn as_input_message_game(&self) -> (r: Option<&InputMessageGame>)
        ensures
            (self is InputMessageGame) == (r is Some),
            r matches Some(x) ==> *x == self->InputMessageGame_0,
    {
        match self {
            InputMessageContent::InputMessageGame(x) => Some(x),
            _ => None,
        }
    }

    pub fn as_input_message_invoice(&self) -> (r: Option<&InputMessageInvoice>)
        ensures
            (self is InputMessageInvoice) == (r is Some),
            r matches Some(x) ==> *x == self->InputMessageInvoice_0,
    {
        match self {
            InputMessageContent::InputMessageInvoice(x) => Some(x),
            _ => None,
        }
    }

    pub fn as_input_message_location(&self) -> (r: Option<&InputMessageLocation>)
        ensures
            (self is InputMessageLocation) == (r is Some),
            r matches Some(x) ==> *x == self->InputMessageLocation_0,
    {
        match self {
            InputMessageContent::InputMessageLocation(x) => Some(x),
            _ => None,
        }
    }

    pub fn as_input_message_photo(&self) -> (r: Option<&InputMessagePhoto>)
        ensures
            (self is InputMessagePhoto) == (r is Some),
            r matches Some(x) ==> *x == self->InputMessagePhoto_0,
    {
        match self {
            InputMessageContent::InputMessagePhoto(x) => Some(x),
            _ => None,
        }
    }

    pub fn as_input_message_poll(&self) -> (r: Option<&InputMessagePoll>)
        ensures
            (self is InputMessagePoll) == (r is Some),
            r matches Some(x) ==> *x == self->InputMessagePoll_0,
    {
        match self {
            InputMessageContent::InputMessagePoll(x) => Some(x),
            _ => None,
        }
    }

    pub fn as_input_message_sticker(&self) -> (r: Option<&InputMessageSticker>)
        ensures
            (self is InputMessageSticker) == (r is Some),
            r matches Some(x) ==> *x == self->InputMessageSticker_0,
    {
        match self {
            InputMessageContent::InputMessageSticker(x) => Some(x),
            _ => None,
        }
    }

    pub fn as_input_message_text(&self) -> (r: Option<&InputMessageText>)
        ensures
            (self is InputMessageText) == (r is Some),
            r matches Some(x) ==> *x == self->InputMessageText_0,
    {
        match self {
            InputMessageContent::InputMessageText(x) => Some(x),
            _ => None,
        }
    }

    pub fn as_input_message_venue(&self) -> (r: Option<&InputMessageVenue>)
        ensures
            (self is InputMessageVenue) == (r is Some),
            r matches Some(x) ==> *x == self->InputMessageVenue_0,
    {
        match self {
            InputMessageContent::InputMessageVenue(x) => Some(x),
            _ => None,
        }
    }

    pub fn as_input_message_video(&self) -> (r: Option<&InputMessageVideo>)
        ensures
            (self is InputMessageVideo) == (r is Some),
            r matches Some(x) ==> *x == self->InputMessageVideo_0,
    {
        match self {
            InputMessageContent::InputMessageVideo(x) => Some(x),
            _ => None,
        }
    }

    pub fn as_input_message_video_note(&self) -> (r: Option<&InputMessageVideoNote>)
        ensures
            (self is InputMessageVideoNote) == (r is Some),
            r matches Some(x) ==> *x == self->InputMessageVideoNote_0,
    {
        match self {
            InputMessageContent::InputMessageVideoNote(x) => Some(x),
            _ => None,
        }
    }

    pub fn as_input_message_voice_note(&self) -> (r: Option<&InputMessageVoiceNote>)
        ensures
            (self is InputMessageVoiceNote) == (r is Some),
            r matches Some(x) ==> *x == self->InputMessageVoiceNote_0,
    {
        match self {
            InputMessageContent::InputMessageVoiceNote(x) => Some(x),
            _ => None,
        }
    }

    pub fn input_message_animation(t: &InputMessageAnimation) -> (r: Self)
        ensures
            r matches InputMessageContent::InputMessageAnimation(x) && x.eqv(*t),
    {
        InputMessageContent::InputMessageAnimation(t.clone())
    }

    pub fn input_message_audio(t: &InputMessageAudio) -> (r: Self)
        ensures
            r matches InputMessageContent::InputMessageAudio(x) && x.eqv(*t),
    {
        InputMessageContent::InputMessageAudio(t.clone())
    }

    pub fn input_message_contact(t: &InputMessageContact) -> (r: Self)
        ensures
            r matches InputMessageContent::InputMessageContact(x) && x.eqv(*t),
    {
        InputMessageContent::InputMessageContact(t.clone())
    }

    pub fn input_message_dice(t: &InputMessageDice) -> (r: Self)
        ensures
            r matches InputMessageContent::InputMessageDice(x) && x.eqv(*t),
    {
        InputMessageContent::InputMessageDice(t.clone())
    }

    pub fn input_message_document(t: &InputMessageDocument) -> (r: Self)
        ensures
            r matches InputMessageContent::InputMessageDocument(x) && x.eqv(*t),
    {
        InputMessageContent::InputMessageDocument(t.clone())
    }

    pub fn input_message_forwarded(t: &InputMessageForwarded) -> (r: Self)
        ensures
            r matches InputMessageContent::InputMessageForwarded(x) && x.eqv(*t),
    {
        InputMessageContent::InputMessageForwarded(t.clone())
    }

    pub fn input_message_game(t: &InputMessageGame) -> (r: Self)
        ensures
            r matches InputMessageContent::InputMessageGame(x) && x.eqv(*t),
    {
        InputMessageContent::InputMessageGame(t.clone())
    }

    pub fn input_message_invoice(t: &InputMessageInvoice) -> (r: Self)
        ensures
            r matches InputMessageContent::InputMessageInvoice(x) && x.eqv(*t),
    {
        InputMessageContent::InputMessageInvoice(t.clone())
    }

    pub fn input_message_location(t: &InputMessageLocation) -> (r: Self)
        ensures
            r matches InputMessageContent::InputMessageLocation(x) && x.eqv(*t),
    {
        InputMessageContent::InputMessageLocation(t.clone())
    }

    pub fn input_message_photo(t: &InputMessagePhoto) -> (r: Self)
        ensures
            r matches InputMessageContent::InputMessagePhoto(x) && x.eqv(*t),
    {
        InputMessageContent::InputMessagePhoto(t.clone())
    }

    pub fn input_message_poll(t: &InputMessagePoll) -> (r: Self)
        ensures
            r matches InputMessageContent::InputMessagePoll(x) && x.eqv(*t),
    {
        InputMessageContent::InputMessagePoll(t.clone())
    }

    pub fn input_message_sticker(t: &InputMessageSticker) -> (r: Self)
        ensures
            r matches InputMessageContent::InputMessageSticker(x) && x.eqv(*t),
    {
        InputMessageContent::InputMessageSticker(t.clone())
    }

    pub fn input_message_text(t: &InputMessageText) -> (r: Self)
        ensures
            r matches InputMessageContent::InputMessageText(x) && x.eqv(*t),
    {
        InputMessageContent::InputMessageText(t.clone())
    }

    pub fn input_message_venue(t: &InputMessageVenue) -> (r: Self)
        ensures
            r matches InputMessageContent::InputMessageVenue(x) && x.eqv(*t),
    {
        InputMessageContent::InputMessageVenue(t.clone())
    }

    pub fn input_message_video(t: &InputMessageVideo) -> (r: Self)
        ensures
            r matches InputMessageContent::InputMessageVideo(x) && x.eqv(*t),
    {
        InputMessageContent::InputMessageVideo(t.clone())
    }

    pub fn input_message_video_note(t: &InputMessageVideoNote) -> (r: Self)
        ensures
            r matches InputMessageContent::InputMessageVideoNote(x) && x.eqv(*t),
    {
        InputMessageContent::InputMessageVideoNote(t.clone())
    }

    pub fn input_message_voice_note(t: &InputMessageVoiceNote) -> (r: Self)
        ensures
            r matches InputMessageContent::InputMessageVoiceNote(x) && x.eqv(*t),
    {
        InputMessageContent::InputMessageVoiceNote(t.clone())
    }
}
/// An animation message (GIF-style).
#[derive(Debug, PartialEq)]
pub struct InputMessageAnimation {
    pub extra: Option<String>,
    /// File identifiers of the stickers added to the animation, if applicable
    pub added_sticker_file_ids: Vec<i64>,
    /// Duration of the animation, in seconds
    pub duration: i64,
    /// Width of the animation; may be replaced by the server
    pub width: i64,
    /// Height of the animation; may be replaced by the server
    pub height: i64,
}

impl InputMessageAnimation {
    pub open spec fn tag_spec() -> Seq<char> {
        "inputMessageAnimation"@
    }

    /// The members of the wire object, in the order they are written.
    pub open spec fn members_spec(self) -> Seq<(Seq<char>, SpecJson)> {
        seq![
            ("@type"@, SpecJson::Str(Self::tag_spec())),
            ("@extra"@, opt_str_tree(opt_str_view(self.extra))),
            ("added_sticker_file_ids"@, SpecJson::Arr(vec_i64_trees(self.added_sticker_file_ids@))),
            ("duration"@, SpecJson::Num(i64_lex(self.duration as int))),
            ("width"@, SpecJson::Num(i64_lex(self.width as int))),
            ("height"@, SpecJson::Num(i64_lex(self.height as int))),
        ]
    }

    pub open spec fn fields_ok(t: SpecJson) -> bool {
        &&& ok_opt_str(t, "@extra"@)
        &&& ok_vec_i64(t, "added_sticker_file_ids"@)
        &&& ok_i64(t, "duration"@)
        &&& ok_i64(t, "width"@)
        &&& ok_i64(t, "height"@)
    }

    pub open spec fn fail_field(t: SpecJson) -> Seq<char> {
        if !ok_opt_str(t, "@extra"@) {
            "@extra"@
        } else if !(ok_vec_i64(t, "added_sticker_file_ids"@)) {
            "added_sticker_file_ids"@
        } else if !(ok_i64(t, "duration"@)) {
            "duration"@
        } else if !(ok_i64(t, "width"@)) {
            "width"@
        } else if !(ok_i64(t, "height"@)) {
            "height"@
        } else {
            Seq::empty()
        }
    }

    /// The encoding of a value carries exactly this type's tag.
    pub proof fn lemma_wire_tag(v: InputMessageAnimation)
        ensures
            v.wire_tree() matches Some(t) ==> tag_of(t) == Some(InputMessageAnimation::tag_spec()),
    {
        if v.wire_tree() is Some {
            let t = v.wire_tree()->0;
            let ms = t->Obj_0;
            lemma_get_spec_found(ms, "@type"@, 0);
        }
    }
}

impl Clone for InputMessageAnimation {
    fn clone(&self) -> (res: Self)
        ensures
            res.eqv(*self),
    {
        InputMessageAnimation {
            extra: clone_opt_string(&self.extra),
            added_sticker_file_ids: clone_vec_i64(&self.added_sticker_file_ids),
            duration: self.duration,
            width: self.width,
            height: self.height,
        }
    }
}

impl Wire for InputMessageAnimation {
    open spec fn wire_tree(self) -> Option<SpecJson> {
        Some(SpecJson::Obj(self.members_spec()))
    }

    open spec fn accepts(t: SpecJson) -> bool {
        tag_of(t) is Some && Self::fields_ok(t)
    }

    open spec fn err_of(t: SpecJson) -> SpecDecodeError {
        match tag_of(t) {
            None => SpecDecodeError::Malformed,
            Some(_) => SpecDecodeError::FieldShapeMismatch(Self::tag_spec(), Self::fail_field(t)),
        }
    }

    open spec fn decodes_from(t: SpecJson, v: Self) -> bool {
        &&& m_opt_str(t, "@extra"@, v.extra)
        &&& m_vec_i64(t, "added_sticker_file_ids"@, v.added_sticker_file_ids)
        &&& m_i64(t, "duration"@, v.duration)
        &&& m_i64(t, "width"@, v.width)
        &&& m_i64(t, "height"@, v.height)
    }

    open spec fn eqv(self, other: Self) -> bool {
        &&& eqv_opt_string(self.extra, other.extra)
        &&& self.added_sticker_file_ids@ == other.added_sticker_file_ids@
        &&& self.duration == other.duration
        &&& self.width == other.width
        &&& self.height == other.height
    }

    fn clone_val(&self) -> (r: Self) {
        self.clone()
    }

    fn decode_tree(t: &JsonValue) -> (r: Result<Self, DecodeError>) {
        if get_tag(t).is_none() {
            return Err(DecodeError::Malformed);
        }
        let extra = match field_opt_string(t, "@extra") {
            Some(x) => x,
            None => {
                return Err(DecodeError::FieldShapeMismatch(
                    String::from_str("inputMessageAnimation"),
                    String::from_str("@extra"),
                ));
            },
        };
        let added_sticker_file_ids = match get_field(t, "added_sticker_file_ids") {
            Some(JsonValue::Arr(arr)) => match decode_vec_i64(arr) {
                Some(x) => x,
                None => {
                    return Err(DecodeError::FieldShapeMismatch(
                    String::from_str("inputMessageAnimation"),
                    String::from_str("added_sticker_file_ids"),
                ));
                },
            },
            _ => {
                return Err(DecodeError::FieldShapeMismatch(
                    String::from_str("inputMessageAnimation"),
                    String::from_str("added_sticker_file_ids"),
                ));
            },
        };
        let duration = match field_i64(t, "duration") {
            Some(x) => x,
            None => {
                return Err(DecodeError::FieldShapeMismatch(
                    String::from_str("inputMessageAnimation"),
                    String::from_str("duration"),
                ));
            },
        };
        let width = match field_i64(t, "width") {
            Some(x) => x,
            None => {
                return Err(DecodeError::FieldShapeMismatch(
                    String::from_str("inputMessageAnimation"),
                    String::from_str("width"),
                ));
            },
        };
        let height = match field_i64(t, "height") {
            Some(x) => x,
            None => {
                return Err(DecodeError::FieldShapeMismatch(
                    String::from_str("inputMessageAnimation"),
                    String::from_str("height"),
                ));
            },
        };
        Ok(InputMessageAnimation { extra, added_sticker_file_ids, duration, width, height })
    }

    fn encode_tree(&self) -> (r: Result<JsonValue, EncodeError>) {
        let mut members: Vec<JsonMember> = Vec::new();
        proof {
            assert(view_members(members@) =~= Seq::<(Seq<char>, SpecJson)>::empty());
        }
        push_member(&mut members, "@type", JsonValue::Str(String::from_str("inputMessageAnimation")));
        push_member(&mut members, "@extra", opt_string_tree(&self.extra));
        push_member(&mut members, "added_sticker_file_ids", JsonValue::Arr(encode_vec_i64(&self.added_sticker_file_ids)));
        push_member(&mut members, "duration", JsonValue::Num(i64_lexeme(self.duration)));
        push_member(&mut members, "width", JsonValue::Num(i64_lexeme(self.width)));
        push_member(&mut members, "height", JsonValue::Num(i64_lexeme(self.height)));
        let node = JsonValue::Obj(members);
        proof {
            assert(view_members(members@) =~= self.members_spec());
            assert(node@ == self.wire_tree()->0);
        }
        Ok(node)
    }

    proof fn lemma_wire_wf(v: Self) {
        if v.wire_tree() is Some {
            let t = v.wire_tree()->0;
            let ms = t->Obj_0;
            assert(ms == v.members_spec());
            assert forall|k: int| 0 <= k < vec_i64_trees(v.added_sticker_file_ids@).len() implies wf(
                #[trigger] vec_i64_trees(v.added_sticker_file_ids@)[k],
            ) by {
                crate::json::lemma_i64_lex(v.added_sticker_file_ids@[k]);
            }
            crate::json::lemma_i64_lex(v.duration);
            crate::json::lemma_i64_lex(v.width);
            crate::json::lemma_i64_lex(v.height);
            assert forall|i: int| 0 <= i < ms.len() implies wf(#[trigger] ms[i].1) by {
            }
        }
    }

    proof fn lemma_round_trip(v: Self) {
        if v.wire_tree() is Some {
            let t = v.wire_tree()->0;
            let ms = t->Obj_0;
            assert(ms == v.members_spec());
            reveal_strlit("@type");
            reveal_strlit("@extra");
            reveal_strlit("added_sticker_file_ids");
            reveal_strlit("duration");
            reveal_strlit("width");
            reveal_strlit("height");
            assert("@type"@.len() == 5);
            assert("@extra"@.len() == 6);
            assert("added_sticker_file_ids"@.len() == 22);
            assert("duration"@.len() == 8);
            assert("width"@.len() == 5);
            assert("height"@.len() == 6);
            assert("@type"@[0] == '@' && "width"@[0] == 'w');
            assert("@extra"@[0] == '@' && "height"@[0] == 'h');
            reveal_with_fuel(get_spec, 8);
            lemma_get_spec_found(ms, "@type"@, 0);
            lemma_get_spec_found(ms, "@extra"@, 1);
            lemma_get_spec_found(ms, "added_sticker_file_ids"@, 2);
            lemma_get_spec_found(ms, "duration"@, 3);
            lemma_get_spec_found(ms, "width"@, 4);
            lemma_get_spec_found(ms, "height"@, 5);
            assert(tag_of(t) == Some(Self::tag_spec()));
            assert(ok_opt_str(t, "@extra"@));
            assert(ok_vec_i64(t, "added_sticker_file_ids"@)) by {
                assert forall|k: int| 0 <= k < vec_i64_trees(v.added_sticker_file_ids@).len() implies
                    as_i64_spec(#[trigger] vec_i64_trees(v.added_sticker_file_ids@)[k]) == Some(v.added_sticker_file_ids@[k]) by {
                    crate::json::lemma_i64_lex(v.added_sticker_file_ids@[k]);
                }
            }
            crate::json::lemma_i64_lex(v.duration);
            assert(ok_i64(t, "duration"@));
            crate::json::lemma_i64_lex(v.width);
            assert(ok_i64(t, "width"@));
            crate::json::lemma_i64_lex(v.height);
            assert(ok_i64(t, "height"@));
            assert(Self::accepts(t));
            assert forall|w: Self| Self::decodes_from(t, w) implies #[trigger] w.eqv(v) by {
                assert forall|k: int| 0 <= k < w.added_sticker_file_ids@.len() implies w.added_sticker_file_ids@[k]
                    == v.added_sticker_file_ids@[k] by {
                    crate::json::lemma_i64_lex(v.added_sticker_file_ids@[k]);
                    assert(vec_i64_trees(v.added_sticker_file_ids@)[k] == SpecJson::Num(i64_lex(v.added_sticker_file_ids@[k] as int)));
                }
                assert(w.added_sticker_file_ids@ =~= v.added_sticker_file_ids@);
            }
        }
    }
}

impl RObject for InputMessageAnimation {
    open spec fn tag_chars(&self) -> Seq<char> {
        Self::tag_spec()
    }

    open spec fn extra_spec(&self) -> Option<Seq<char>> {
        opt_str_view(self.extra)
    }

    fn td_name(&self) -> (r: &'static str) {
        "inputMessageAnimation"
    }

    fn extra(&self) -> (r: Option<String>) {
        clone_opt_string(&self.extra)
    }

    fn to_json(&self) -> (r: Result<String, EncodeError>) {
        crate::object::encode(self)
    }
}

impl TDInputMessageContent for InputMessageAnimation {

}

impl InputMessageAnimation {
    pub fn from_json(json: &str) -> (r: Result<InputMessageAnimation, DecodeError>)
        ensures
            match crate::parse::parse_doc(json@) {
                Some(t) => match r {
                    Ok(v) => Self::accepts(t) && Self::decodes_from(t, v),
                    Err(e) => !Self::accepts(t) && crate::errors::err_matches(e, Self::err_of(t)),
                },
                None => r matches Err(e) && e == DecodeError::Malformed,
            },
    {
        crate::object::from_json::<InputMessageAnimation>(json)
    }

    pub fn builder() -> (r: RTDInputMessageAnimationBuilder)
        ensures
            r.inner.extra is Some,
            r.inner.added_sticker_file_ids@.len() == 0,
            r.inner.duration == 0,
            r.inner.width == 0,
            r.inner.height == 0,
    {
        RTDInputMessageAnimationBuilder {
            inner: InputMessageAnimation {
                extra: Some(new_token()),
                added_sticker_file_ids: Vec::new(),
                duration: 0,
                width: 0,
                height: 0,
            },
        }
    }

    pub fn added_sticker_file_ids(&self) -> (r: &Vec<i64>)
        ensures
            *r == self.added_sticker_file_ids,
    {
        &self.added_sticker_file_ids
    }

    pub fn duration(&self) -> (r: i64)
        ensures
            r == self.duration,
    {
        self.duration
    }

    pub fn width(&self) -> (r: i64)
        ensures
            r == self.width,
    {
        self.width
    }

    pub fn height(&self) -> (r: i64)
        ensures
            r == self.height,
    {
        self.height
    }
}

pub struct RTDInputMessageAnimationBuilder {
    pub inner: InputMessageAnimation,
}

impl RTDInputMessageAnimationBuilder {
    pub fn build(&self) -> (r: InputMessageAnimation)
        ensures
            r.eqv(self.inner),
    {
        self.inner.clone()
    }

    pub fn added_sticker_file_ids(&mut self, added_sticker_file_ids: Vec<i64>) -> (r: &mut Self)
        ensures
            *r == (RTDInputMessageAnimationBuilder { inner: InputMessageAnimation { added_sticker_file_ids: added_sticker_file_ids, ..old(self).inner } }),
            *final(self) == *final(r),
    {
        self.inner.added_sticker_file_ids = added_sticker_file_ids;
        self
    }

    pub fn duration(&mut self, duration: i64) -> (r: &mut Self)
        ensures
            *r == (RTDInputMessageAnimationBuilder { inner: InputMessageAnimation { duration: duration, ..old(self).inner } }),
            *final(self) == *final(r),
    {
        self.inner.duration = duration;
        self
    }

    pub fn width(&mut self, width: i64) -> (r: &mut Self)
        ensures
            *r == (RTDInputMessageAnimationBuilder { inner: InputMessageAnimation { width: width, ..old(self).inner } }),
            *final(self) == *final(r),
    {
        self.inner.width = width;
        self
    }

    pub fn height(&mut self, height: i64) -> (r: &mut Self)
        ensures
            *r == (RTDInputMessageAnimationBuilder { inner: InputMessageAnimation { height: height, ..old(self).inner } }),
            *final(self) == *final(r),
    {
        self.inner.height = height;
        self
    }
}
/// An audio message
#[derive(Debug, PartialEq)]
pub struct InputMessageAudio {
    pub extra: Option<String>,
    /// Duration of the audio, in seconds; may be replaced by the server
    pub duration: i64,
    /// Title of the audio; 0-64 characters; may be replaced by the server
    pub title: String,
    /// Performer of the audio; 0-64 characters, may be replaced by the server
    pub performer: String,
}

impl InputMessageAudio {
    pub open spec fn tag_spec() -> Seq<char> {
        "inputMessageAudio"@
    }

    /// The members of the wire object, in the order they are written.
    pub open spec fn members_spec(self) -> Seq<(Seq<char>, SpecJson)> {
        seq![
            ("@type"@, SpecJson::Str(Self::tag_spec())),
            ("@extra"@, opt_str_tree(opt_str_view(self.extra))),
            ("duration"@, SpecJson::Num(i64_lex(self.duration as int))),
            ("title"@, SpecJson::Str(self.title@)),
            ("performer"@, SpecJson::Str(self.performer@)),
        ]
    }

    pub open spec fn fields_ok(t: SpecJson) -> bool {
        &&& ok_opt_str(t, "@extra"@)
        &&& ok_i64(t, "duration"@)
        &&& ok_str(t, "title"@)
        &&& ok_str(t, "performer"@)
    }

    pub open spec fn fail_field(t: SpecJson) -> Seq<char> {
        if !ok_opt_str(t, "@extra"@) {
            "@extra"@
        } else if !(ok_i64(t, "duration"@)) {
            "duration"@
        } else if !(ok_str(t, "title"@)) {
            "title"@
        } else if !(ok_str(t, "performer"@)) {
            "performer"@
        } else {
            Seq::empty()
        }
    }

    /// The encoding of a value carries exactly this type's tag.
    pub proof fn lemma_wire_tag(v: InputMessageAudio)
        ensures
            v.wire_tree() matches Some(t) ==> tag_of(t) == Some(InputMessageAudio::tag_spec()),
    {
        if v.wire_tree() is Some {
            let t = v.wire_tree()->0;
            let ms = t->Obj_0;
            lemma_get_spec_found(ms, "@type"@, 0);
        }
    }
}

impl Clone for InputMessageAudio {
    fn clone(&self) -> (res: Self)
        ensures
            res.eqv(*self),
    {
        InputMessageAudio {
            extra: clone_opt_string(&self.extra),
            duration: self.duration,
            title: self.title.clone(),
            performer: self.performer.clone(),
        }
    }
}

impl Wire for InputMessageAudio {
    open spec fn wire_tree(self) -> Option<SpecJson> {
        Some(SpecJson::Obj(self.members_spec()))
    }

    open spec fn accepts(t: SpecJson) -> bool {
        tag_of(t) is Some && Self::fields_ok(t)
    }

    open spec fn err_of(t: SpecJson) -> SpecDecodeError {
        match tag_of(t) {
            None => SpecDecodeError::Malformed,
            Some(_) => SpecDecodeError::FieldShapeMismatch(Self::tag_spec(), Self::fail_field(t)),
        }
    }

    open spec fn decodes_from(t: SpecJson, v: Self) -> bool {
        &&& m_opt_str(t, "@extra"@, v.extra)
        &&& m_i64(t, "duration"@, v.duration)
        &&& m_str(t, "title"@, v.title@)
        &&& m_str(t, "performer"@, v.performer@)
    }

    open spec fn eqv(self, other: Self) -> bool {
        &&& eqv_opt_string(self.extra, other.extra)
        &&& self.duration == other.duration
        &&& self.title@ == other.title@
        &&& self.performer@ == other.performer@
    }

    fn clone_val(&self) -> (r: Self) {
        self.clone()
    }

    fn decode_tree(t: &JsonValue) -> (r: Result<Self, DecodeError>) {
        if get_tag(t).is_none() {
            return Err(DecodeError::Malformed);
        }
        let extra = match field_opt_string(t, "@extra") {
            Some(x) => x,
            None => {
                return Err(DecodeError::FieldShapeMismatch(
                    String::from_str("inputMessageAudio"),
                    String::from_str("@extra"),
                ));
            },
        };
        let duration = match field_i64(t, "duration") {
            Some(x) => x,
            None => {
                return Err(DecodeError::FieldShapeMismatch(
                    String::from_str("inputMessageAudio"),
                    String::from_str("duration"),
                ));
            },
        };
        let title = match field_string(t, "title") {
            Some(x) => x,
            None => {
                return Err(DecodeError::FieldShapeMismatch(
                    String::from_str("inputMessageAudio"),
                    String::from_str("title"),
                ));
            },
        };
        let performer = match field_string(t, "performer") {
            Some(x) => x,
            None => {
                return Err(DecodeError::FieldShapeMismatch(
                    String::from_str("inputMessageAudio"),
                    String::from_str("performer"),
                ));
            },
        };
        Ok(InputMessageAudio { extra, duration, title, performer })
    }

    fn encode_tree(&self) -> (r: Result<JsonValue, EncodeError>) {
        let mut members: Vec<JsonMember> = Vec::new();
        proof {
            assert(view_members(members@) =~= Seq::<(Seq<char>, SpecJson)>::empty());
        }
        push_member(&mut members, "@type", JsonValue::Str(String::from_str("inputMessageAudio")));
        push_member(&mut members, "@extra", opt_string_tree(&self.extra));
        push_member(&mut members, "duration", JsonValue::Num(i64_lexeme(self.duration)));
        push_member(&mut members, "title", JsonValue::Str(self.title.clone()));
        push_member(&mut members, "performer", JsonValue::Str(self.performer.clone()));
        let node = JsonValue::Obj(members);
        proof {
            assert(view_members(members@) =~= self.members_spec());
            assert(node@ == self.wire_tree()->0);
        }
        Ok(node)
    }

    proof fn lemma_wire_wf(v: Self) {
        if v.wire_tree() is Some {
            let t = v.wire_tree()->0;
            let ms = t->Obj_0;
            assert(ms == v.members_spec());
            crate::json::lemma_i64_lex(v.duration);
            assert forall|i: int| 0 <= i < ms.len() implies wf(#[trigger] ms[i].1) by {
            }
        }
    }

    proof fn lemma_round_trip(v: Self) {
        if v.wire_tree() is Some {
            let t = v.wire_tree()->0;
            let ms = t->Obj_0;
            assert(ms == v.members_spec());
            reveal_strlit("@type");
            reveal_strlit("@extra");
            reveal_strlit("duration");
            reveal_strlit("title");
            reveal_strlit("performer");
            assert("@type"@.len() == 5);
            assert("@extra"@.len() == 6);
            assert("duration"@.len() == 8);
            assert("title"@.len() == 5);
            assert("performer"@.len() == 9);
            assert("@type"@[0] == '@' && "title"@[0] == 't');
            reveal_with_fuel(get_spec, 7);
            lemma_get_spec_found(ms, "@type"@, 0);
            lemma_get_spec_found(ms, "@extra"@, 1);
            lemma_get_spec_found(ms, "duration"@, 2);
            lemma_get_spec_found(ms, "title"@, 3);
            lemma_get_spec_found(ms, "performer"@, 4);
            assert(tag_of(t) == Some(Self::tag_spec()));
            assert(ok_opt_str(t, "@extra"@));
            crate::json::lemma_i64_lex(v.duration);
            assert(ok_i64(t, "duration"@));
            assert(ok_str(t, "title"@));
            assert(ok_str(t, "performer"@));
            assert(Self::accepts(t));
            assert forall|w: Self| Self::decodes_from(t, w) implies #[trigger] w.eqv(v) by {
            }
        }
    }
}

impl RObject for InputMessageAudio {
    open spec fn tag_chars(&self) -> Seq<char> {
        Self::tag_spec()
    }

    open spec fn extra_spec(&self) -> Option<Seq<char>> {
        opt_str_view(self.extra)
    }

    fn td_name(&self) -> (r: &'static str) {
        "inputMessageAudio"
    }

    fn extra(&self) -> (r: Option<String>) {
        clone_opt_string(&self.extra)
    }

    fn to_json(&self) -> (r: Result<String, EncodeError>) {
        crate::object::encode(self)
    }
}

impl TDInputMessageContent for InputMessageAudio {

}

impl InputMessageAudio {
    pub fn from_json(json: &str) -> (r: Result<InputMessageAudio, DecodeError>)
        ensures
            match crate::parse::parse_doc(json@) {
                Some(t) => match r {
                    Ok(v) => Self::accepts(t) && Self::decodes_from(t, v),
                    Err(e) => !Self::accepts(t) && crate::errors::err_matches(e, Self::err_of(t)),
                },
                None => r matches Err(e) && e == DecodeError::Malformed,
            },
    {
        crate::object::from_json::<InputMessageAudio>(json)
    }

    pub fn builder() -> (r: RTDInputMessageAudioBuilder)
        ensures
            r.inner.extra is Some,
            r.inner.duration == 0,
            r.inner.title@ == Seq::<char>::empty(),
            r.inner.performer@ == Seq::<char>::empty(),
    {
        RTDInputMessageAudioBuilder {
            inner: InputMessageAudio {
                extra: Some(new_token()),
                duration: 0,
                title: String::new(),
                performer: String::new(),
            },
        }
    }

    pub fn duration(&self) -> (r: i64)
        ensures
            r == self.duration,
    {
        self.duration
    }

    pub fn title(&self) -> (r: &String)
        ensures
            *r == self.title,
    {
        &self.title
    }

    pub fn performer(&self) -> (r: &String)
        ensures
            *r == self.performer,
    {
        &self.performer
    }
}

pub struct RTDInputMessageAudioBuilder {
    pub inner: InputMessageAudio,
}

impl RTDInputMessageAudioBuilder {
    pub fn build(&self) -> (r: InputMessageAudio)
        ensures
            r.eqv(self.inner),
    {
        self.inner.clone()
    }

    pub fn duration(&mut self, duration: i64) -> (r: &mut Self)
        ensures
            *r == (RTDInputMessageAudioBuilder { inner: InputMessageAudio { duration: duration, ..old(self).inner } }),
            *final(self) == *final(r),
    {
        self.inner.duration = duration;
        self
    }

    pub fn title(&mut self, title: String) -> (r: &mut Self)
        ensures
            *r == (RTDInputMessageAudioBuilder { inner: InputMessageAudio { title: title, ..old(self).inner } }),
            *final(self) == *final(r),
    {
        self.inner.title = title;
        self
    }

    pub fn performer(&mut self, performer: String) -> (r: &mut Self)
        ensures
            *r == (RTDInputMessageAudioBuilder { inner: InputMessageAudio { performer: performer, ..old(self).inner } }),
            *final(self) == *final(r),
    {
        self.inner.performer = performer;
        self
    }
}
/// A message containing a user contact
#[derive(Debug, PartialEq)]
pub struct InputMessageContact {
    pub extra: Option<String>,
}

impl InputMessageContact {
    pub open spec fn tag_spec() -> Seq<char> {
        "inputMessageContact"@
    }

    /// The members of the wire object, in the order they are written.
    pub open spec fn members_spec(self) -> Seq<(Seq<char>, SpecJson)> {
        seq![
            ("@type"@, SpecJson::Str(Self::tag_spec())),
            ("@extra"@, opt_str_tree(opt_str_view(self.extra))),
        ]
    }

    pub open spec fn fields_ok(t: SpecJson) -> bool {
        &&& ok_opt_str(t, "@extra"@)
    }

    pub open spec fn fail_field(t: SpecJson) -> Seq<char> {
        if !ok_opt_str(t, "@extra"@) {
            "@extra"@
        } else {
            Seq::empty()
        }
    }

    /// The encoding of a value carries exactly this type's tag.
    pub proof fn lemma_wire_tag(v: InputMessageContact)
        ensures
            v.wire_tree() matches Some(t) ==> tag_of(t) == Some(InputMessageContact::tag_spec()),
    {
        if v.wire_tree() is Some {
            let t = v.wire_tree()->0;
            let ms = t->Obj_0;
            lemma_get_spec_found(ms, "@type"@, 0);
        }
    }
}

impl Clone for InputMessageContact {
    fn clone(&self) -> (res: Self)
        ensures
            res.eqv(*self),
    {
        InputMessageContact {
            extra: clone_opt_string(&self.extra),
        }
    }
}

impl Wire for InputMessageContact {
    open spec fn wire_tree(self) -> Option<SpecJson> {
        Some(SpecJson::Obj(self.members_spec()))
    }

    open spec fn accepts(t: SpecJson) -> bool {
        tag_of(t) is Some && Self::fields_ok(t)
    }

    open spec fn err_of(t: SpecJson) -> SpecDecodeError {
        match tag_of(t) {
            None => SpecDecodeError::Malformed,
            Some(_) => SpecDecodeError::FieldShapeMismatch(Self::tag_spec(), Self::fail_field(t)),
        }
    }

    open spec fn decodes_from(t: SpecJson, v: Self) -> bool {
        &&& m_opt_str(t, "@extra"@, v.extra)
    }

    open spec fn eqv(self, other: Self) -> bool {
        &&& eqv_opt_string(self.extra, other.extra)
    }

    fn clone_val(&self) -> (r: Self) {
        self.clone()
    }

    fn decode_tree(t: &JsonValue) -> (r: Result<Self, DecodeError>) {
        if get_tag(t).is_none() {
            return Err(DecodeError::Malformed);
        }
        let extra = match field_opt_string(t, "@extra") {
            Some(x) => x,
            None => {
                return Err(DecodeError::FieldShapeMismatch(
                    String::from_str("inputMessageContact"),
                    String::from_str("@extra"),
                ));
            },
        };
        Ok(InputMessageContact { extra })
    }

    fn encode_tree(&self) -> (r: Result<JsonValue, EncodeError>) {
        let mut members: Vec<JsonMember> = Vec::new();
        proof {
            assert(view_members(members@) =~= Seq::<(Seq<char>, SpecJson)>::empty());
        }
        push_member(&mut members, "@type", JsonValue::Str(String::from_str("inputMessageContact")));
        push_member(&mut members, "@extra", opt_string_tree(&self.extra));
        let node = JsonValue::Obj(members);
        proof {
            assert(view_members(members@) =~= self.members_spec());
            assert(node@ == self.wire_tree()->0);
        }
        Ok(node)
    }

    proof fn lemma_wire_wf(v: Self) {
        if v.wire_tree() is Some {
            let t = v.wire_tree()->0;
            let ms = t->Obj_0;
            assert(ms == v.members_spec());
            assert forall|i: int| 0 <= i < ms.len() implies wf(#[trigger] ms[i].1) by {
            }
        }
    }

    proof fn lemma_round_trip(v: Self) {
        if v.wire_tree() is Some {
            let t = v.wire_tree()->0;
            let ms = t->Obj_0;
            assert(ms == v.members_spec());
            reveal_strlit("@type");
            reveal_strlit("@extra");
            assert("@type"@.len() == 5);
            assert("@extra"@.len() == 6);
            reveal_with_fuel(get_spec, 4);
            lemma_get_spec_found(ms, "@type"@, 0);
            lemma_get_spec_found(ms, "@extra"@, 1);
            assert(tag_of(t) == Some(Self::tag_spec()));
            assert(ok_opt_str(t, "@extra"@));
            assert(Self::accepts(t));
            assert forall|w: Self| Self::decodes_from(t, w) implies #[trigger] w.eqv(v) by {
            }
        }
    }
}

impl RObject for InputMessageContact {
    open spec fn tag_chars(&self) -> Seq<char> {
        Self::tag_spec()
    }

    open spec fn extra_spec(&self) -> Option<Seq<char>> {
        opt_str_view(self.extra)
    }

    fn td_name(&self) -> (r: &'static str) {
        "inputMessageContact"
    }

    fn extra(&self) -> (r: Option<String>) {
        clone_opt_string(&self.extra)
    }

    fn to_json(&self) -> (r: Result<String, EncodeError>) {
        crate::object::encode(self)
    }
}

impl TDInputMessageContent for InputMessageContact {

}

impl InputMessageContact {
    pub fn from_json(json: &str) -> (r: Result<InputMessageContact, DecodeError>)
        ensures
            match crate::parse::parse_doc(json@) {
                Some(t) => match r {
                    Ok(v) => Self::accepts(t) && Self::decodes_from(t, v),
                    Err(e) => !Self::accepts(t) && crate::errors::err_matches(e, Self::err_of(t)),
                },
                None => r matches Err(e) && e == DecodeError::Malformed,
            },
    {
        crate::object::from_json::<InputMessageContact>(json)
    }

    pub fn builder() -> (r: RTDInputMessageContactBuilder)
        ensures
            r.inner.extra is Some,
    {
        RTDInputMessageContactBuilder {
            inner: InputMessageContact {
                extra: Some(new_token()),
            },
        }
    }
}

pub struct RTDInputMessageContactBuilder {
    pub inner: InputMessageContact,
}

impl RTDInputMessageContactBuilder {
    pub fn build(&self) -> (r: InputMessageContact)
        ensures
            r.eqv(self.inner),
    {
        self.inner.clone()
    }
}
/// A dice message
#[derive(Debug, PartialEq)]
pub struct InputMessageDice {
    pub extra: Option<String>,
    /// Emoji on which the dice throw animation is based
    pub emoji: String,
    /// True, if the chat message draft must be deleted
    pub clear_draft: bool,
}

impl InputMessageDice {
    pub open spec fn tag_spec() -> Seq<char> {
        "inputMessageDice"@
    }

    /// The members of the wire object, in the order they are written.
    pub open spec fn members_spec(self) -> Seq<(Seq<char>, SpecJson)> {
        seq![
            ("@type"@, SpecJson::Str(Self::tag_spec())),
            ("@extra"@, opt_str_tree(opt_str_view(self.extra))),
            ("emoji"@, SpecJson::Str(self.emoji@)),
            ("clear_draft"@, SpecJson::Bool(self.clear_draft)),
        ]
    }

    pub open spec fn fields_ok(t: SpecJson) -> bool {
        &&& ok_opt_str(t, "@extra"@)
        &&& ok_str(t, "emoji"@)
        &&& ok_bool(t, "clear_draft"@)
    }

    pub open spec fn fail_field(t: SpecJson) -> Seq<char> {
        if !ok_opt_str(t, "@extra"@) {
            "@extra"@
        } else if !(ok_str(t, "emoji"@)) {
            "emoji"@
        } else if !(ok_bool(t, "clear_draft"@)) {
            "clear_draft"@
        } else {
            Seq::empty()
        }
    }

    /// The encoding of a value carries exactly this type's tag.
    pub proof fn lemma_wire_tag(v: InputMessageDice)
        ensures
            v.wire_tree() matches Some(t) ==> tag_of(t) == Some(InputMessageDice::tag_spec()),
    {
        if v.wire_tree() is Some {
            let t = v.wire_tree()->0;
            let ms = t->Obj_0;
            lemma_get_spec_found(ms, "@type"@, 0);
        }
    }
}

impl Clone for InputMessageDice {
    fn clone(&self) -> (res: Self)
        ensures
            res.eqv(*self),
    {
        InputMessageDice {
            extra: clone_opt_string(&self.extra),
            emoji: self.emoji.clone(),
            clear_draft: self.clear_draft,
        }
    }
}

impl Wire for InputMessageDice {
    open spec fn wire_tree(self) -> Option<SpecJson> {
        Some(SpecJson::Obj(self.members_spec()))
    }

    open spec fn accepts(t: SpecJson) -> bool {
        tag_of(t) is Some && Self::fields_ok(t)
    }

    open spec fn err_of(t: SpecJson) -> SpecDecodeError {
        match tag_of(t) {
            None => SpecDecodeError::Malformed,
            Some(_) => SpecDecodeError::FieldShapeMismatch(Self::tag_spec(), Self::fail_field(t)),
        }
    }

    open spec fn decodes_from(t: SpecJson, v: Self) -> bool {
        &&& m_opt_str(t, "@extra"@, v.extra)
        &&& m_str(t, "emoji"@, v.emoji@)
        &&& m_bool(t, "clear_draft"@, v.clear_draft)
    }

    open spec fn eqv(self, other: Self) -> bool {
        &&& eqv_opt_string(self.extra, other.extra)
        &&& self.emoji@ == other.emoji@
        &&& self.clear_draft == other.clear_draft
    }

    fn clone_val(&self) -> (r: Self) {
        self.clone()
    }

    fn decode_tree(t: &JsonValue) -> (r: Result<Self, DecodeError>) {
        if get_tag(t).is_none() {
            return Err(DecodeError::Malformed);
        }
        let extra = match field_opt_string(t, "@extra") {
            Some(x) => x,
            None => {
                return Err(DecodeError::FieldShapeMismatch(
                    String::from_str("inputMessageDice"),
                    String::from_str("@extra"),
                ));
            },
        };
        let emoji = match field_string(t, "emoji") {
            Some(x) => x,
            None => {
                return Err(DecodeError::FieldShapeMismatch(
                    String::from_str("inputMessageDice"),
                    String::from_str("emoji"),
                ));
            },
        };
        let clear_draft = match field_bool(t, "clear_draft") {
            Some(x) => x,
            None => {
                return Err(DecodeError::FieldShapeMismatch(
                    String::from_str("inputMessageDice"),
                    String::from_str("clear_draft"),
                ));
            },
        };
        Ok(InputMessageDice { extra, emoji, clear_draft })
    }

    fn encode_tree(&self) -> (r: Result<JsonValue, EncodeError>) {
        let mut members: Vec<JsonMember> = Vec::new();
        proof {
            assert(view_members(members@) =~= Seq::<(Seq<char>, SpecJson)>::empty());
        }
        push_member(&mut members, "@type", JsonValue::Str(String::from_str("inputMessageDice")));
        push_member(&mut members, "@extra", opt_string_tree(&self.extra));
        push_member(&mut members, "emoji", JsonValue::Str(self.emoji.clone()));
        push_member(&mut members, "clear_draft", JsonValue::Bool(self.clear_draft));
        let node = JsonValue::Obj(members);
        proof {
            assert(view_members(members@) =~= self.members_spec());
            assert(node@ == self.wire_tree()->0);
        }
        Ok(node)
    }

    proof fn lemma_wire_wf(v: Self) {
        if v.wire_tree() is Some {
            let t = v.wire_tree()->0;
            let ms = t->Obj_0;
            assert(ms == v.members_spec());
            assert forall|i: int| 0 <= i < ms.len() implies wf(#[trigger] ms[i].1) by {
            }
        }
    }

    proof fn lemma_round_trip(v: Self) {
        if v.wire_tree() is Some {
            let t = v.wire_tree()->0;
            let ms = t->Obj_0;
            assert(ms == v.members_spec());
            reveal_strlit("@type");
            reveal_strlit("@extra");
            reveal_strlit("emoji");
            reveal_strlit("clear_draft");
            assert("@type"@.len() == 5);
            assert("@extra"@.len() == 6);
            assert("emoji"@.len() == 5);
            assert("clear_draft"@.len() == 11);
            assert("@type"@[0] == '@' && "emoji"@[0] == 'e');
            reveal_with_fuel(get_spec, 6);
            lemma_get_spec_found(ms, "@type"@, 0);
            lemma_get_spec_found(ms, "@extra"@, 1);
            lemma_get_spec_found(ms, "emoji"@, 2);
            lemma_get_spec_found(ms, "clear_draft"@, 3);
            assert(tag_of(t) == Some(Self::tag_spec()));
            assert(ok_opt_str(t, "@extra"@));
            assert(ok_str(t, "emoji"@));
            assert(ok_bool(t, "clear_draft"@));
            assert(Self::accepts(t));
            assert forall|w: Self| Self::decodes_from(t, w) implies #[trigger] w.eqv(v) by {
            }
        }
    }
}

impl RObject for InputMessageDice {
    open spec fn tag_chars(&self) -> Seq<char> {
        Self::tag_spec()
    }

    open spec fn extra_spec(&self) -> Option<Seq<char>> {
        opt_str_view(self.extra)
    }

    fn td_name(&self) -> (r: &'static str) {
        "inputMessageDice"
    }

    fn extra(&self) -> (r: Option<String>) {
        clone_opt_string(&self.extra)
    }

    fn to_json(&self) -> (r: Result<String, EncodeError>) {
        crate::object::encode(self)
    }
}

impl TDInputMessageContent for InputMessageDice {

}

impl InputMessageDice {
    pub fn from_json(json: &str) -> (r: Result<InputMessageDice, DecodeError>)
        ensures
            match crate::parse::parse_doc(json@) {
                Some(t) => match r {
                    Ok(v) => Self::accepts(t) && Self::decodes_from(t, v),
                    Err(e) => !Self::accepts(t) && crate::errors::err_matches(e, Self::err_of(t)),
                },
                None => r matches Err(e) && e == DecodeError::Malformed,
            },
    {
        crate::object::from_json::<InputMessageDice>(json)
    }

    pub fn builder() -> (r: RTDInputMessageDiceBuilder)
        ensures
            r.inner.extra is Some,
            r.inner.emoji@ == Seq::<char>::empty(),
            r.inner.clear_draft == false,
    {
        RTDInputMessageDiceBuilder {
            inner: InputMessageDice {
                extra: Some(new_token()),
                emoji: String::new(),
                clear_draft: false,
            },
        }
    }

    pub fn emoji(&self) -> (r: &String)
        ensures
            *r == self.emoji,
    {
        &self.emoji
    }

    pub fn clear_draft(&self) -> (r: bool)
        ensures
            r == self.clear_draft,
    {
        self.clear_draft
    }
}

pub struct RTDInputMessageDiceBuilder {
    pub inner: InputMessageDice,
}

impl RTDInputMessageDiceBuilder {
    pub fn build(&self) -> (r: InputMessageDice)
        ensures
            r.eqv(self.inner),
    {
        self.inner.clone()
    }

    pub fn emoji(&mut self, emoji: String) -> (r: &mut Self)
        ensures
            *r == (RTDInputMessageDiceBuilder { inner: InputMessageDice { emoji: emoji, ..old(self).inner } }),
            *final(self) == *final(r),
    {
        self.inner.emoji = emoji;
        self
    }

    pub fn clear_draft(&mut self, clear_draft: bool) -> (r: &mut Self)
        ensures
            *r == (RTDInputMessageDiceBuilder { inner: InputMessageDice { clear_draft: clear_draft, ..old(self).inner } }),
            *final(self) == *final(r),
    {
        self.inner.clear_draft = clear_draft;
        self
    }
}
/// A document message (general file)
#[derive(Debug, PartialEq)]
pub struct InputMessageDocument {
    pub extra: Option<String>,
    /// If true, automatic file type detection will be disabled and the document will be always sent as file. Always true for files sent to secret chats
    pub disable_content_type_detection: bool,
}

impl InputMessageDocument {
    pub open spec fn tag_spec() -> Seq<char> {
        "inputMessageDocument"@
    }

    /// The members of the wire object, in the order they are written.
    pub open spec fn members_spec(self) -> Seq<(Seq<char>, SpecJson)> {
        seq![
            ("@type"@, SpecJson::Str(Self::tag_spec())),
            ("@extra"@, opt_str_tree(opt_str_view(self.extra))),
            ("disable_content_type_detection"@, SpecJson::Bool(self.disable_content_type_detection)),
        ]
    }

    pub open spec fn fields_ok(t: SpecJson) -> bool {
        &&& ok_opt_str(t, "@extra"@)
        &&& ok_bool(t, "disable_content_type_detection"@)
    }

    pub open spec fn fail_field(t: SpecJson) -> Seq<char> {
        if !ok_opt_str(t, "@extra"@) {
            "@extra"@
        } else if !(ok_bool(t, "disable_content_type_detection"@)) {
            "disable_content_type_detection"@
        } else {
            Seq::empty()
        }
    }

    /// The encoding of a value carries exactly this type's tag.
    pub proof fn lemma_wire_tag(v: InputMessageDocument)
        ensures
            v.wire_tree() matches Some(t) ==> tag_of(t) == Some(InputMessageDocument::tag_spec()),
    {
        if v.wire_tree() is Some {
            let t = v.wire_tree()->0;
            let ms = t->Obj_0;
            lemma_get_spec_found(ms, "@type"@, 0);
        }
    }
}

impl Clone for InputMessageDocument {
    fn clone(&self) -> (res: Self)
        ensures
            res.eqv(*self),
    {
        InputMessageDocument {
            extra: clone_opt_string(&self.extra),
            disable_content_type_detection: self.disable_content_type_detection,
        }
    }
}

impl Wire for InputMessageDocument {
    open spec fn wire_tree(self) -> Option<SpecJson> {
        Some(SpecJson::Obj(self.members_spec()))
    }

    open spec fn accepts(t: SpecJson) -> bool {
        tag_of(t) is Some && Self::fields_ok(t)
    }

    open spec fn err_of(t: SpecJson) -> SpecDecodeError {
        match tag_of(t) {
            None => SpecDecodeError::Malformed,
            Some(_) => SpecDecodeError::FieldShapeMismatch(Self::tag_spec(), Self::fail_field(t)),
        }
    }

    open spec fn decodes_from(t: SpecJson, v: Self) -> bool {
        &&& m_opt_str(t, "@extra"@, v.extra)
        &&& m_bool(t, "disable_content_type_detection"@, v.disable_content_type_detection)
    }

    open spec fn eqv(self, other: Self) -> bool {
        &&& eqv_opt_string(self.extra, other.extra)
        &&& self.disable_content_type_detection == other.disable_content_type_detection
    }

    fn clone_val(&self) -> (r: Self) {
        self.clone()
    }

    fn decode_tree(t: &JsonValue) -> (r: Result<Self, DecodeError>) {
        if get_tag(t).is_none() {
            return Err(DecodeError::Malformed);
        }
        let extra = match field_opt_string(t, "@extra") {
            Some(x) => x,
            None => {
                return Err(DecodeError::FieldShapeMismatch(
                    String::from_str("inputMessageDocument"),
                    String::from_str("@extra"),
                ));
            },
        };
        let disable_content_type_detection = match field_bool(t, "disable_content_type_detection") {
            Some(x) => x,
            None => {
                return Err(DecodeError::FieldShapeMismatch(
                    String::from_str("inputMessageDocument"),
                    String::from_str("disable_content_type_detection"),
                ));
            },
        };
        Ok(InputMessageDocument { extra, disable_content_type_detection })
    }

    fn encode_tree(&self) -> (r: Result<JsonValue, EncodeError>) {
        let mut members: Vec<JsonMember> = Vec::new();
        proof {
            assert(view_members(members@) =~= Seq::<(Seq<char>, SpecJson)>::empty());
        }
        push_member(&mut members, "@type", JsonValue::Str(String::from_str("inputMessageDocument")));
        push_member(&mut members, "@extra", opt_string_tree(&self.extra));
        push_member(&mut members, "disable_content_type_detection", JsonValue::Bool(self.disable_content_type_detection));
        let node = JsonValue::Obj(members);
        proof {
            assert(view_members(members@) =~= self.members_spec());
            assert(node@ == self.wire_tree()->0);
        }
        Ok(node)
    }

    proof fn lemma_wire_wf(v: Self) {
        if v.wire_tree() is Some {
            let t = v.wire_tree()->0;
            let ms = t->Obj_0;
            assert(ms == v.members_spec());
            assert forall|i: int| 0 <= i < ms.len() implies wf(#[trigger] ms[i].1) by {
            }
        }
    }

    proof fn lemma_round_trip(v: Self) {
        if v.wire_tree() is Some {
            let t = v.wire_tree()->0;
            let ms = t->Obj_0;
            assert(ms == v.members_spec());
            reveal_strlit("@type");
            reveal_strlit("@extra");
            reveal_strlit("disable_content_type_detection");
            assert("@type"@.len() == 5);
            assert("@extra"@.len() == 6);
            assert("disable_content_type_detection"@.len() == 30);
            reveal_with_fuel(get_spec, 5);
            lemma_get_spec_found(ms, "@type"@, 0);
            lemma_get_spec_found(ms, "@extra"@, 1);
            lemma_get_spec_found(ms, "disable_content_type_detection"@, 2);
            assert(tag_of(t) == Some(Self::tag_spec()));
            assert(ok_opt_str(t, "@extra"@));
            assert(ok_bool(t, "disable_content_type_detection"@));
            assert(Self::accepts(t));
            assert forall|w: Self| Self::decodes_from(t, w) implies #[trigger] w.eqv(v) by {
            }
        }
    }
}

impl RObject for InputMessageDocument {
    open spec fn tag_chars(&self) -> Seq<char> {
        Self::tag_spec()
    }

    open spec fn extra_spec(&self) -> Option<Seq<char>> {
        opt_str_view(self.extra)
    }

    fn td_name(&self) -> (r: &'static str) {
        "inputMessageDocument"
    }

    fn extra(&self) -> (r: Option<String>) {
        clone_opt_string(&self.extra)
    }

    fn to_json(&self) -> (r: Result<String, EncodeError>) {
        crate::object::encode(self)
    }
}

impl TDInputMessageContent for InputMessageDocument {

}

impl InputMessageDocument {
    pub fn from_json(json: &str) -> (r: Result<InputMessageDocument, DecodeError>)
        ensures
            match crate::parse::parse_doc(json@) {
                Some(t) => match r {
                    Ok(v) => Self::accepts(t) && Self::decodes_from(t, v),
                    Err(e) => !Self::accepts(t) && crate::errors::err_matches(e, Self::err_of(t)),
                },
                None => r matches Err(e) && e == DecodeError::Malformed,
            },
    {
        crate::object::from_json::<InputMessageDocument>(json)
    }

    pub fn builder() -> (r: RTDInputMessageDocumentBuilder)
        ensures
            r.inner.extra is Some,
            r.inner.disable_content_type_detection == false,
    {
        RTDInputMessageDocumentBuilder {
            inner: InputMessageDocument {
                extra: Some(new_token()),
                disable_content_type_detection: false,
            },
        }
    }

    pub fn disable_content_type_detection(&self) -> (r: bool)
        ensures
            r == self.disable_content_type_detection,
    {
        self.disable_content_type_detection
    }
}

pub struct RTDInputMessageDocumentBuilder {
    pub inner: InputMessageDocument,
}

impl RTDInputMessageDocumentBuilder {
    pub fn build(&self) -> (r: InputMessageDocument)
        ensures
            r.eqv(self.inner),
    {
        self.inner.clone()
    }

    pub fn disable_content_type_detection(&mut self, disable_content_type_detection: bool) -> (r: &mut Self)
        ensures
            *r == (RTDInputMessageDocumentBuilder { inner: InputMessageDocument { disable_content_type_detection: disable_content_type_detection, ..old(self).inner } }),
            *final(self) == *final(r),
    {
        self.inner.disable_content_type_detection = disable_content_type_detection;
        self
    }
}
/// A forwarded message
#[derive(Debug, PartialEq)]
pub struct InputMessageForwarded {
    pub extra: Option<String>,
    /// Identifier for the chat this forwarded message came from
    pub from_chat_id: i64,
    /// Identifier of the message to forward
    pub message_id: i64,
    /// True, if a game message is being shared from a launched game; applies only to game messages
    pub in_game_share: bool,
    /// Options to be used to copy content of the message without reference to the original sender; pass null to try to forward the message as usual
    pub copy_options: MessageCopyOptions,
}

impl InputMessageForwarded {
    pub open spec fn tag_spec() -> Seq<char> {
        "inputMessageForwarded"@
    }

    /// The members of the wire object, in the order they are written.
    pub open spec fn members_spec(self) -> Seq<(Seq<char>, SpecJson)> {
        seq![
            ("@type"@, SpecJson::Str(Self::tag_spec())),
            ("@extra"@, opt_str_tree(opt_str_view(self.extra))),
            ("from_chat_id"@, SpecJson::Num(i64_lex(self.from_chat_id as int))),
            ("message_id"@, SpecJson::Num(i64_lex(self.message_id as int))),
            ("in_game_share"@, SpecJson::Bool(self.in_game_share)),
            ("copy_options"@, self.copy_options.wire_tree()->0),
        ]
    }

    pub open spec fn fields_ok(t: SpecJson) -> bool {
        &&& ok_opt_str(t, "@extra"@)
        &&& ok_i64(t, "from_chat_id"@)
        &&& ok_i64(t, "message_id"@)
        &&& ok_bool(t, "in_game_share"@)
        &&& ok_custom::<MessageCopyOptions>(t, "copy_options"@)
    }

    pub open spec fn fail_field(t: SpecJson) -> Seq<char> {
        if !ok_opt_str(t, "@extra"@) {
            "@extra"@
        } else if !(ok_i64(t, "from_chat_id"@)) {
            "from_chat_id"@
        } else if !(ok_i64(t, "message_id"@)) {
            "message_id"@
        } else if !(ok_bool(t, "in_game_share"@)) {
            "in_game_share"@
        } else if !(ok_custom::<MessageCopyOptions>(t, "copy_options"@)) {
            "copy_options"@
        } else {
            Seq::empty()
        }
    }

    /// The encoding of a value carries exactly this type's tag.
    pub proof fn lemma_wire_tag(v: InputMessageForwarded)
        ensures
            v.wire_tree() matches Some(t) ==> tag_of(t) == Some(InputMessageForwarded::tag_spec()),
    {
        if v.wire_tree() is Some {
            let t = v.wire_tree()->0;
            let ms = t->Obj_0;
            lemma_get_spec_found(ms, "@type"@, 0);
        }
    }
}

impl Clone for InputMessageForwarded {
    fn clone(&self) -> (res: Self)
        ensures
            res.eqv(*self),
    {
        InputMessageForwarded {
            extra: clone_opt_string(&self.extra),
            from_chat_id: self.from_chat_id,
            message_id: self.message_id,
            in_game_share: self.in_game_share,
            copy_options: self.copy_options.clone(),
        }
    }
}

impl Wire for InputMessageForwarded {
    open spec fn wire_tree(self) -> Option<SpecJson> {
        if self.copy_options.wire_tree() is None {
            None
        } else {
            Some(SpecJson::Obj(self.members_spec()))
        }
    }

    open spec fn accepts(t: SpecJson) -> bool {
        tag_of(t) is Some && Self::fields_ok(t)
    }

    open spec fn err_of(t: SpecJson) -> SpecDecodeError {
        match tag_of(t) {
            None => SpecDecodeError::Malformed,
            Some(_) => SpecDecodeError::FieldShapeMismatch(Self::tag_spec(), Self::fail_field(t)),
        }
    }

    open spec fn decodes_from(t: SpecJson, v: Self) -> bool {
        &&& m_opt_str(t, "@extra"@, v.extra)
        &&& m_i64(t, "from_chat_id"@, v.from_chat_id)
        &&& m_i64(t, "message_id"@, v.message_id)
        &&& m_bool(t, "in_game_share"@, v.in_game_share)
        &&& m_custom::<MessageCopyOptions>(t, "copy_options"@, v.copy_options)
    }

    open spec fn eqv(self, other: Self) -> bool {
        &&& eqv_opt_string(self.extra, other.extra)
        &&& self.from_chat_id == other.from_chat_id
        &&& self.message_id == other.message_id
        &&& self.in_game_share == other.in_game_share
        &&& self.copy_options.eqv(other.copy_options)
    }

    fn clone_val(&self) -> (r: Self) {
        self.clone()
    }

    fn decode_tree(t: &JsonValue) -> (r: Result<Self, DecodeError>) {
        if get_tag(t).is_none() {
            return Err(DecodeError::Malformed);
        }
        let extra = match field_opt_string(t, "@extra") {
            Some(x) => x,
            None => {
                return Err(DecodeError::FieldShapeMismatch(
                    String::from_str("inputMessageForwarded"),
                    String::from_str("@extra"),
                ));
            },
        };
        let from_chat_id = match field_i64(t, "from_chat_id") {
            Some(x) => x,
            None => {
                return Err(DecodeError::FieldShapeMismatch(
                    String::from_str("inputMessageForwarded"),
                    String::from_str("from_chat_id"),
                ));
            },
        };
        let message_id = match field_i64(t, "message_id") {
            Some(x) => x,
            None => {
                return Err(DecodeError::FieldShapeMismatch(
                    String::from_str("inputMessageForwarded"),
                    String::from_str("message_id"),
                ));
            },
        };
        let in_game_share = match field_bool(t, "in_game_share") {
            Some(x) => x,
            None => {
                return Err(DecodeError::FieldShapeMismatch(
                    String::from_str("inputMessageForwarded"),
                    String::from_str("in_game_share"),
                ));
            },
        };
        let copy_options = match get_field(t, "copy_options") {
            Some(f) => match MessageCopyOptions::decode_tree(f) {
                Ok(x) => x,
                Err(_) => {
                    return Err(DecodeError::FieldShapeMismatch(
                    String::from_str("inputMessageForwarded"),
                    String::from_str("copy_options"),
                ));
                },
            },
            None => {
                return Err(DecodeError::FieldShapeMismatch(
                    String::from_str("inputMessageForwarded"),
                    String::from_str("copy_options"),
                ));
            },
        };
        Ok(InputMessageForwarded { extra, from_chat_id, message_id, in_game_share, copy_options })
    }

    fn encode_tree(&self) -> (r: Result<JsonValue, EncodeError>) {
        let t_copy_options = match self.copy_options.encode_tree() {
            Ok(x) => x,
            Err(e) => {
                return Err(e);
            },
        };
        let mut members: Vec<JsonMember> = Vec::new();
        proof {
            assert(view_members(members@) =~= Seq::<(Seq<char>, SpecJson)>::empty());
        }
        push_member(&mut members, "@type", JsonValue::Str(String::from_str("inputMessageForwarded")));
        push_member(&mut members, "@extra", opt_string_tree(&self.extra));
        push_member(&mut members, "from_chat_id", JsonValue::Num(i64_lexeme(self.from_chat_id)));
        push_member(&mut members, "message_id", JsonValue::Num(i64_lexeme(self.message_id)));
        push_member(&mut members, "in_game_share", JsonValue::Bool(self.in_game_share));
        push_member(&mut members, "copy_options", t_copy_options);
        let node = JsonValue::Obj(members);
        proof {
            assert(view_members(members@) =~= self.members_spec());
            assert(node@ == self.wire_tree()->0);
        }
        Ok(node)
    }

    proof fn lemma_wire_wf(v: Self) {
        if v.wire_tree() is Some {
            let t = v.wire_tree()->0;
            let ms = t->Obj_0;
            assert(ms == v.members_spec());
            crate::json::lemma_i64_lex(v.from_chat_id);
            crate::json::lemma_i64_lex(v.message_id);
            MessageCopyOptions::lemma_wire_wf(v.copy_options);
            assert forall|i: int| 0 <= i < ms.len() implies wf(#[trigger] ms[i].1) by {
            }
        }
    }

    proof fn lemma_round_trip(v: Self) {
        if v.wire_tree() is Some {
            let t = v.wire_tree()->0;
            let ms = t->Obj_0;
            assert(ms == v.members_spec());
            reveal_strlit("@type");
            reveal_strlit("@extra");
            reveal_strlit("from_chat_id");
            reveal_strlit("message_id");
            reveal_strlit("in_game_share");
            reveal_strlit("copy_options");
            assert("@type"@.len() == 5);
            assert("@extra"@.len() == 6);
            assert("from_chat_id"@.len() == 12);
            assert("message_id"@.len() == 10);
            assert("in_game_share"@.len() == 13);
            assert("copy_options"@.len() == 12);
            assert("from_chat_id"@[0] == 'f' && "copy_options"@[0] == 'c');
            reveal_with_fuel(get_spec, 8);
            lemma_get_spec_found(ms, "@type"@, 0);
            lemma_get_spec_found(ms, "@extra"@, 1);
            lemma_get_spec_found(ms, "from_chat_id"@, 2);
            lemma_get_spec_found(ms, "message_id"@, 3);
            lemma_get_spec_found(ms, "in_game_share"@, 4);
            lemma_get_spec_found(ms, "copy_options"@, 5);
            assert(tag_of(t) == Some(Self::tag_spec()));
            assert(ok_opt_str(t, "@extra"@));
            crate::json::lemma_i64_lex(v.from_chat_id);
            assert(ok_i64(t, "from_chat_id"@));
            crate::json::lemma_i64_lex(v.message_id);
            assert(ok_i64(t, "message_id"@));
            assert(ok_bool(t, "in_game_share"@));
            MessageCopyOptions::lemma_round_trip(v.copy_options);
            assert(ok_custom::<MessageCopyOptions>(t, "copy_options"@));
            assert(Self::accepts(t));
            assert forall|w: Self| Self::decodes_from(t, w) implies #[trigger] w.eqv(v) by {
            }
        }
    }
}

impl RObject for InputMessageForwarded {
    open spec fn tag_chars(&self) -> Seq<char> {
        Self::tag_spec()
    }

    open spec fn extra_spec(&self) -> Option<Seq<char>> {
        opt_str_view(self.extra)
    }

    fn td_name(&self) -> (r: &'static str) {
        "inputMessageForwarded"
    }

    fn extra(&self) -> (r: Option<String>) {
        clone_opt_string(&self.extra)
    }

    fn to_json(&self) -> (r: Result<String, EncodeError>) {
        crate::object::encode(self)
    }
}

impl TDInputMessageContent for InputMessageForwarded {

}

impl InputMessageForwarded {
    pub fn from_json(json: &str) -> (r: Result<InputMessageForwarded, DecodeError>)
        ensures
            match crate::parse::parse_doc(json@) {
                Some(t) => match r {
                    Ok(v) => Self::accepts(t) && Self::decodes_from(t, v),
                    Err(e) => !Self::accepts(t) && crate::errors::err_matches(e, Self::err_of(t)),
                },
                None => r matches Err(e) && e == DecodeError::Malformed,
            },
    {
        crate::object::from_json::<InputMessageForwarded>(json)
    }

    pub fn builder() -> (r: RTDInputMessageForwardedBuilder)
        ensures
            r.inner.extra is Some,
            r.inner.from_chat_id == 0,
            r.inner.message_id == 0,
            r.inner.in_game_share == false,
    {
        RTDInputMessageForwardedBuilder {
            inner: InputMessageForwarded {
                extra: Some(new_token()),
                from_chat_id: 0,
                message_id: 0,
                in_game_share: false,
                copy_options: MessageCopyOptions { extra: None, send_copy: false, replace_caption: false },
            },
        }
    }

    pub fn from_chat_id(&self) -> (r: i64)
        ensures
            r == self.from_chat_id,
    {
        self.from_chat_id
    }

    pub fn message_id(&self) -> (r: i64)
        ensures
            r == self.message_id,
    {
        self.message_id
    }

    pub fn in_game_share(&self) -> (r: bool)
        ensures
            r == self.in_game_share,
    {
        self.in_game_share
    }

    pub fn copy_options(&self) -> (r: &MessageCopyOptions)
        ensures
            *r == self.copy_options,
    {
        &self.copy_options
    }
}

pub struct RTDInputMessageForwardedBuilder {
    pub inner: InputMessageForwarded,
}

impl RTDInputMessageForwardedBuilder {
    pub fn build(&self) -> (r: InputMessageForwarded)
        ensures
            r.eqv(self.inner),
    {
        self.inner.clone()
    }

    pub fn from_chat_id(&mut self, from_chat_id: i64) -> (r: &mut Self)
        ensures
            *r == (RTDInputMessageForwardedBuilder { inner: InputMessageForwarded { from_chat_id: from_chat_id, ..old(self).inner } }),
            *final(self) == *final(r),
    {
        self.inner.from_chat_id = from_chat_id;
        self
    }

    pub fn message_id(&mut self, message_id: i64) -> (r: &mut Self)
        ensures
            *r == (RTDInputMessageForwardedBuilder { inner: InputMessageForwarded { message_id: message_id, ..old(self).inner } }),
            *final(self) == *final(r),
    {
        self.inner.message_id = message_id;
        self
    }

    pub fn in_game_share(&mut self, in_game_share: bool) -> (r: &mut Self)
        ensures
            *r == (RTDInputMessageForwardedBuilder { inner: InputMessageForwarded { in_game_share: in_game_share, ..old(self).inner } }),
            *final(self) == *final(r),
    {
        self.inner.in_game_share = in_game_share;
        self
    }

    pub fn copy_options(&mut self, copy_options: MessageCopyOptions) -> (r: &mut Self)
        ensures
            *r == (RTDInputMessageForwardedBuilder { inner: InputMessageForwarded { copy_options: copy_options, ..old(self).inner } }),
            *final(self) == *final(r),
    {
        self.inner.copy_options = copy_options;
        self
    }
}
/// A message with a game; not supported for channels or secret chats
#[derive(Debug, PartialEq)]
pub struct InputMessageGame {
    pub extra: Option<String>,
    /// User identifier of the bot that owns the game
    pub bot_user_id: i64,
    /// Short name of the game
    pub game_short_name: String,
}

impl InputMessageGame {
    pub open spec fn tag_spec() -> Seq<char> {
        "inputMessageGame"@
    }

    /// The members of the wire object, in the order they are written.
    pub open spec fn members_spec(self) -> Seq<(Seq<char>, SpecJson)> {
        seq![
            ("@type"@, SpecJson::Str(Self::tag_spec())),
            ("@extra"@, opt_str_tree(opt_str_view(self.extra))),
            ("bot_user_id"@, SpecJson::Num(i64_lex(self.bot_user_id as int))),
            ("game_short_name"@, SpecJson::Str(self.game_short_name@)),
        ]
    }

    pub open spec fn fields_ok(t: SpecJson) -> bool {
        &&& ok_opt_str(t, "@extra"@)
        &&& ok_i64(t, "bot_user_id"@)
        &&& ok_str(t, "game_short_name"@)
    }

    pub open spec fn fail_field(t: SpecJson) -> Seq<char> {
        if !ok_opt_str(t, "@extra"@) {
            "@extra"@
        } else if !(ok_i64(t, "bot_user_id"@)) {
            "bot_user_id"@
        } else if !(ok_str(t, "game_short_name"@)) {
            "game_short_name"@
        } else {
            Seq::empty()
        }
    }

    /// The encoding of a value carries exactly this type's tag.
    pub proof fn lemma_wire_tag(v: InputMessageGame)
        ensures
            v.wire_tree() matches Some(t) ==> tag_of(t) == Some(InputMessageGame::tag_spec()),
    {
        if v.wire_tree() is Some {
            let t = v.wire_tree()->0;
            let ms = t->Obj_0;
            lemma_get_spec_found(ms, "@type"@, 0);
        }
    }
}

impl Clone for InputMessageGame {
    fn clone(&self) -> (res: Self)
        ensures
            res.eqv(*self),
    {
        InputMessageGame {
            extra: clone_opt_string(&self.extra),
            bot_user_id: self.bot_user_id,
            game_short_name: self.game_short_name.clone(),
        }
    }
}

impl Wire for InputMessageGame {
    open spec fn wire_tree(self) -> Option<SpecJson> {
        Some(SpecJson::Obj(self.members_spec()))
    }

    open spec fn accepts(t: SpecJson) -> bool {
        tag_of(t) is Some && Self::fields_ok(t)
    }

    open spec fn err_of(t: SpecJson) -> SpecDecodeError {
        match tag_of(t) {
            None => SpecDecodeError::Malformed,
            Some(_) => SpecDecodeError::FieldShapeMismatch(Self::tag_spec(), Self::fail_field(t)),
        }
    }

    open spec fn decodes_from(t: SpecJson, v: Self) -> bool {
        &&& m_opt_str(t, "@extra"@, v.extra)
        &&& m_i64(t, "bot_user_id"@, v.bot_user_id)
        &&& m_str(t, "game_short_name"@, v.game_short_name@)
    }

    open spec fn eqv(self, other: Self) -> bool {
        &&& eqv_opt_string(self.extra, other.extra)
        &&& self.bot_user_id == other.bot_user_id
        &&& self.game_short_name@ == other.game_short_name@
    }

    fn clone_val(&self) -> (r: Self) {
        self.clone()
    }

    fn decode_tree(t: &JsonValue) -> (r: Result<Self, DecodeError>) {
        if get_tag(t).is_none() {
            return Err(DecodeError::Malformed);
        }
        let extra = match field_opt_string(t, "@extra") {
            Some(x) => x,
            None => {
                return Err(DecodeError::FieldShapeMismatch(
                    String::from_str("inputMessageGame"),
                    String::from_str("@extra"),
                ));
            },
        };
        let bot_user_id = match field_i64(t, "bot_user_id") {
            Some(x) => x,
            None => {
                return Err(DecodeError::FieldShapeMismatch(
                    String::from_str("inputMessageGame"),
                    String::from_str("bot_user_id"),
                ));
            },
        };
        let game_short_name = match field_string(t, "game_short_name") {
            Some(x) => x,
            None => {
                return Err(DecodeError::FieldShapeMismatch(
                    String::from_str("inputMessageGame"),
                    String::from_str("game_short_name"),
                ));
            },
        };
        Ok(InputMessageGame { extra, bot_user_id, game_short_name })
    }

    fn encode_tree(&self) -> (r: Result<JsonValue, EncodeError>) {
        let mut members: Vec<JsonMember> = Vec::new();
        proof {
            assert(view_members(members@) =~= Seq::<(Seq<char>, SpecJson)>::empty());
        }
        push_member(&mut members, "@type", JsonValue::Str(String::from_str("inputMessageGame")));
        push_member(&mut members, "@extra", opt_string_tree(&self.extra));
        push_member(&mut members, "bot_user_id", JsonValue::Num(i64_lexeme(self.bot_user_id)));
        push_member(&mut members, "game_short_name", JsonValue::Str(self.game_short_name.clone()));
        let node = JsonValue::Obj(members);
        proof {
            assert(view_members(members@) =~= self.members_spec());
            assert(node@ == self.wire_tree()->0);
        }
        Ok(node)
    }

    proof fn lemma_wire_wf(v: Self) {
        if v.wire_tree() is Some {
            let t = v.wire_tree()->0;
            let ms = t->Obj_0;
            assert(ms == v.members_spec());
            crate::json::lemma_i64_lex(v.bot_user_id);
            assert forall|i: int| 0 <= i < ms.len() implies wf(#[trigger] ms[i].1) by {
            }
        }
    }

    proof fn lemma_round_trip(v: Self) {
        if v.wire_tree() is Some {
            let t = v.wire_tree()->0;
            let ms = t->Obj_0;
            assert(ms == v.members_spec());
            reveal_strlit("@type");
            reveal_strlit("@extra");
            reveal_strlit("bot_user_id");
            reveal_strlit("game_short_name");
            assert("@type"@.len() == 5);
            assert("@extra"@.len() == 6);
            assert("bot_user_id"@.len() == 11);
            assert("game_short_name"@.len() == 15);
            reveal_with_fuel(get_spec, 6);
            lemma_get_spec_found(ms, "@type"@, 0);
            lemma_get_spec_found(ms, "@extra"@, 1);
            lemma_get_spec_found(ms, "bot_user_id"@, 2);
            lemma_get_spec_found(ms, "game_short_name"@, 3);
            assert(tag_of(t) == Some(Self::tag_spec()));
            assert(ok_opt_str(t, "@extra"@));
            crate::json::lemma_i64_lex(v.bot_user_id);
            assert(ok_i64(t, "bot_user_id"@));
            assert(ok_str(t, "game_short_name"@));
            assert(Self::accepts(t));
            assert forall|w: Self| Self::decodes_from(t, w) implies #[trigger] w.eqv(v) by {
            }
        }
    }
}

impl RObject for InputMessageGame {
    open spec fn tag_chars(&self) -> Seq<char> {
        Self::tag_spec()
    }

    open spec fn extra_spec(&self) -> Option<Seq<char>> {
        opt_str_view(self.extra)
    }

    fn td_name(&self) -> (r: &'static str) {
        "inputMessageGame"
    }

    fn extra(&self) -> (r: Option<String>) {
        clone_opt_string(&self.extra)
    }

    fn to_json(&self) -> (r: Result<String, EncodeError>) {
        crate::object::encode(self)
    }
}

impl TDInputMessageContent for InputMessageGame {

}

impl InputMessageGame {
    pub fn from_json(json: &str) -> (r: Result<InputMessageGame, DecodeError>)
        ensures
            match crate::parse::parse_doc(json@) {
                Some(t) => match r {
                    Ok(v) => Self::accepts(t) && Self::decodes_from(t, v),
                    Err(e) => !Self::accepts(t) && crate::errors::err_matches(e, Self::err_of(t)),
                },
                None => r matches Err(e) && e == DecodeError::Malformed,
            },
    {
        crate::object::from_json::<InputMessageGame>(json)
    }

    pub fn builder() -> (r: RTDInputMessageGameBuilder)
        ensures
            r.inner.extra is Some,
            r.inner.bot_user_id == 0,
            r.inner.game_short_name@ == Seq::<char>::empty(),
    {
        RTDInputMessageGameBuilder {
            inner: InputMessageGame {
                extra: Some(new_token()),
                bot_user_id: 0,
                game_short_name: String::new(),
            },
        }
    }

    pub fn bot_user_id(&self) -> (r: i64)
        ensures
            r == self.bot_user_id,
    {
        self.bot_user_id
    }

    pub fn game_short_name(&self) -> (r: &String)
        ensures
            *r == self.game_short_name,
    {
        &self.game_short_name
    }
}

pub struct RTDInputMessageGameBuilder {
    pub inner: InputMessageGame,
}

impl RTDInputMessageGameBuilder {
    pub fn build(&self) -> (r: InputMessageGame)
        ensures
            r.eqv(self.inner),
    {
        self.inner.clone()
    }

    pub fn bot_user_id(&mut self, bot_user_id: i64) -> (r: &mut Self)
        ensures
            *r == (RTDInputMessageGameBuilder { inner: InputMessageGame { bot_user_id: bot_user_id, ..old(self).inner } }),
            *final(self) == *final(r),
    {
        self.inner.bot_user_id = bot_user_id;
        self
    }

    pub fn game_short_name(&mut self, game_short_name: String) -> (r: &mut Self)
        ensures
            *r == (RTDInputMessageGameBuilder { inner: InputMessageGame { game_short_name: game_short_name, ..old(self).inner } }),
            *final(self) == *final(r),
    {
        self.inner.game_short_name = game_short_name;
        self
    }
}
/// A message with an invoice; can be used only by bots
#[derive(Debug, PartialEq)]
pub struct InputMessageInvoice {
    pub extra: Option<String>,
    /// Product title; 1-32 characters
    pub title: String,
    /// A message with an invoice; can be used only by bots
    pub description: String,
    /// Product photo URL; optional
    pub photo_url: String,
    /// Product photo size
    pub photo_size: i64,
    /// Product photo width
    pub photo_width: i64,
    /// Product photo height
    pub photo_height: i64,
    /// The invoice payload
    pub payload: String,
    /// Payment provider token
    pub provider_token: String,
    /// JSON-encoded data about the invoice, which will be shared with the payment provider
    pub provider_data: String,
    /// Unique invoice bot deep link parameter for the generation of this invoice. If empty, it would be possible to pay directly from forwards of the invoice message
    pub start_parameter: String,
}

impl InputMessageInvoice {
    pub open spec fn tag_spec() -> Seq<char> {
        "inputMessageInvoice"@
    }

    /// The members of the wire object, in the order they are written.
    pub open spec fn members_spec(self) -> Seq<(Seq<char>, SpecJson)> {
        seq![
            ("@type"@, SpecJson::Str(Self::tag_spec())),
            ("@extra"@, opt_str_tree(opt_str_view(self.extra))),
            ("title"@, SpecJson::Str(self.title@)),
            ("description"@, SpecJson::Str(self.description@)),
            ("photo_url"@, SpecJson::Str(self.photo_url@)),
            ("photo_size"@, SpecJson::Num(i64_lex(self.photo_size as int))),
            ("photo_width"@, SpecJson::Num(i64_lex(self.photo_width as int))),
            ("photo_height"@, SpecJson::Num(i64_lex(self.photo_height as int))),
            ("payload"@, SpecJson::Str(self.payload@)),
            ("provider_token"@, SpecJson::Str(self.provider_token@)),
            ("provider_data"@, SpecJson::Str(self.provider_data@)),
            ("start_parameter"@, SpecJson::Str(self.start_parameter@)),
        ]
    }

    pub open spec fn fields_ok(t: SpecJson) -> bool {
        &&& ok_opt_str(t, "@extra"@)
        &&& ok_str(t, "title"@)
        &&& ok_str(t, "description"@)
        &&& ok_str(t, "photo_url"@)
        &&& ok_i64(t, "photo_size"@)
        &&& ok_i64(t, "photo_width"@)
        &&& ok_i64(t, "photo_height"@)
        &&& ok_str(t, "payload"@)
        &&& ok_str(t, "provider_token"@)
        &&& ok_str(t, "provider_data"@)
        &&& ok_str(t, "start_parameter"@)
    }

    pub open spec fn fail_field(t: SpecJson) -> Seq<char> {
        if !ok_opt_str(t, "@extra"@) {
            "@extra"@
        } else if !(ok_str(t, "title"@)) {
            "title"@
        } else if !(ok_str(t, "description"@)) {
            "description"@
        } else if !(ok_str(t, "photo_url"@)) {
            "photo_url"@
        } else if !(ok_i64(t, "photo_size"@)) {
            "photo_size"@
        } else if !(ok_i64(t, "photo_width"@)) {
            "photo_width"@
        } else if !(ok_i64(t, "photo_height"@)) {
            "photo_height"@
        } else if !(ok_str(t, "payload"@)) {
            "payload"@
        } else if !(ok_str(t, "provider_token"@)) {
            "provider_token"@
        } else if !(ok_str(t, "provider_data"@)) {
            "provider_data"@
        } else if !(ok_str(t, "start_parameter"@)) {
            "start_parameter"@
        } else {
            Seq::empty()
        }
    }

    /// The encoding of a value carries exactly this type's tag.
    pub proof fn lemma_wire_tag(v: InputMessageInvoice)
        ensures
            v.wire_tree() matches Some(t) ==> tag_of(t) == Some(InputMessageInvoice::tag_spec()),
    {
        if v.wire_tree() is Some {
            let t = v.wire_tree()->0;
            let ms = t->Obj_0;
            lemma_get_spec_found(ms, "@type"@, 0);
        }
    }
}

impl Clone for InputMessageInvoice {
    fn clone(&self) -> (res: Self)
        ensures
            res.eqv(*self),
    {
        InputMessageInvoice {
            extra: clone_opt_string(&self.extra),
            title: self.title.clone(),
            description: self.description.clone(),
            photo_url: self.photo_url.clone(),
            photo_size: self.photo_size,
            photo_width: self.photo_width,
            photo_height: self.photo_height,
            payload: self.payload.clone(),
            provider_token: self.provider_token.clone(),
            provider_data: self.provider_data.clone(),
            start_parameter: self.start_parameter.clone(),
        }
    }
}

impl Wire for InputMessageInvoice {
    open spec fn wire_tree(self) -> Option<SpecJson> {
        Some(SpecJson::Obj(self.members_spec()))
    }

    open spec fn accepts(t: SpecJson) -> bool {
        tag_of(t) is Some && Self::fields_ok(t)
    }

    open spec fn err_of(t: SpecJson) -> SpecDecodeError {
        match tag_of(t) {
            None => SpecDecodeError::Malformed,
            Some(_) => SpecDecodeError::FieldShapeMismatch(Self::tag_spec(), Self::fail_field(t)),
        }
    }

    open spec fn decodes_from(t: SpecJson, v: Self) -> bool {
        &&& m_opt_str(t, "@extra"@, v.extra)
        &&& m_str(t, "title"@, v.title@)
        &&& m_str(t, "description"@, v.description@)
        &&& m_str(t, "photo_url"@, v.photo_url@)
        &&& m_i64(t, "photo_size"@, v.photo_size)
        &&& m_i64(t, "photo_width"@, v.photo_width)
        &&& m_i64(t, "photo_height"@, v.photo_height)
        &&& m_str(t, "payload"@, v.payload@)
        &&& m_str(t, "provider_token"@, v.provider_token@)
        &&& m_str(t, "provider_data"@, v.provider_data@)
        &&& m_str(t, "start_parameter"@, v.start_parameter@)
    }

    open spec fn eqv(self, other: Self) -> bool {
        &&& eqv_opt_string(self.extra, other.extra)
        &&& self.title@ == other.title@
        &&& self.description@ == other.description@
        &&& self.photo_url@ == other.photo_url@
        &&& self.photo_size == other.photo_size
        &&& self.photo_width == other.photo_width
        &&& self.photo_height == other.photo_height
        &&& self.payload@ == other.payload@
        &&& self.provider_token@ == other.provider_token@
        &&& self.provider_data@ == other.provider_data@
        &&& self.start_parameter@ == other.start_parameter@
    }

    fn clone_val(&self) -> (r: Self) {
        self.clone()
    }

    #[verifier::rlimit(30)]
    #[verifier::spinoff_prover]
    fn decode_tree(t: &JsonValue) -> (r: Result<Self, DecodeError>) {
        if get_tag(t).is_none() {
            return Err(DecodeError::Malformed);
        }
        let extra = match field_opt_string(t, "@extra") {
            Some(x) => x,
            None => {
                return Err(DecodeError::FieldShapeMismatch(
                    String::from_str("inputMessageInvoice"),
                    String::from_str("@extra"),
                ));
            },
        };
        let title = match field_string(t, "title") {
            Some(x) => x,
            None => {
                return Err(DecodeError::FieldShapeMismatch(
                    String::from_str("inputMessageInvoice"),
                    String::from_str("title"),
                ));
            },
        };
        let description = match field_string(t, "description") {
            Some(x) => x,
            None => {
                return Err(DecodeError::FieldShapeMismatch(
                    String::from_str("inputMessageInvoice"),
                    String::from_str("description"),
                ));
            },
        };
        let photo_url = match field_string(t, "photo_url") {
            Some(x) => x,
            None => {
                return Err(DecodeError::FieldShapeMismatch(
                    String::from_str("inputMessageInvoice"),
                    String::from_str("photo_url"),
                ));
            },
        };
        let photo_size = match field_i64(t, "photo_size") {
            Some(x) => x,
            None => {
                return Err(DecodeError::FieldShapeMismatch(
                    String::from_str("inputMessageInvoice"),
                    String::from_str("photo_size"),
                ));
            },
        };
        let photo_width = match field_i64(t, "photo_width") {
            Some(x) => x,
            None => {
                return Err(DecodeError::FieldShapeMismatch(
                    String::from_str("inputMessageInvoice"),
                    String::from_str("photo_width"),
                ));
            },
        };
        let photo_height = match field_i64(t, "photo_height") {
            Some(x) => x,
            None => {
                return Err(DecodeError::FieldShapeMismatch(
                    String::from_str("inputMessageInvoice"),
                    String::from_str("photo_height"),
                ));
            },
        };
        let payload = match field_string(t, "payload") {
            Some(x) => x,
            None => {
                return Err(DecodeError::FieldShapeMismatch(
                    String::from_str("inputMessageInvoice"),
                    String::from_str("payload"),
                ));
            },
        };
        let provider_token = match field_string(t, "provider_token") {
            Some(x) => x,
            None => {
                return Err(DecodeError::FieldShapeMismatch(
                    String::from_str("inputMessageInvoice"),
                    String::from_str("provider_token"),
                ));
            },
        };
        let provider_data = match field_string(t, "provider_data") {
            Some(x) => x,
            None => {
                return Err(DecodeError::FieldShapeMismatch(
                    String::from_str("inputMessageInvoice"),
                    String::from_str("provider_data"),
                ));
            },
        };
        let start_parameter = match field_string(t, "start_parameter") {
            Some(x) => x,
            None => {
                return Err(DecodeError::FieldShapeMismatch(
                    String::from_str("inputMessageInvoice"),
                    String::from_str("start_parameter"),
                ));
            },
        };
        Ok(InputMessageInvoice { extra, title, description, photo_url, photo_size, photo_width, photo_height, payload, provider_token, provider_data, start_parameter })
    }

    #[verifier::rlimit(30)]
    #[verifier::spinoff_prover]
    fn encode_tree(&self) -> (r: Result<JsonValue, EncodeError>) {
        let mut members: Vec<JsonMember> = Vec::new();
        proof {
            assert(view_members(members@) =~= Seq::<(Seq<char>, SpecJson)>::empty());
        }
        push_member(&mut members, "@type", JsonValue::Str(String::from_str("inputMessageInvoice")));
        push_member(&mut members, "@extra", opt_string_tree(&self.extra));
        push_member(&mut members, "title", JsonValue::Str(self.title.clone()));
        push_member(&mut members, "description", JsonValue::Str(self.description.clone()));
        proof {
            assert(view_members(members@) =~= self.members_spec().take(4));
        }
        push_member(&mut members, "photo_url", JsonValue::Str(self.photo_url.clone()));
        push_member(&mut members, "photo_size", JsonValue::Num(i64_lexeme(self.photo_size)));
        push_member(&mut members, "photo_width", JsonValue::Num(i64_lexeme(self.photo_width)));
        push_member(&mut members, "photo_height", JsonValue::Num(i64_lexeme(self.photo_height)));
        proof {
            assert(view_members(members@) =~= self.members_spec().take(8));
        }
        push_member(&mut members, "payload", JsonValue::Str(self.payload.clone()));
        push_member(&mut members, "provider_token", JsonValue::Str(self.provider_token.clone()));
        push_member(&mut members, "provider_data", JsonValue::Str(self.provider_data.clone()));
        push_member(&mut members, "start_parameter", JsonValue::Str(self.start_parameter.clone()));
        let node = JsonValue::Obj(members);
        proof {
            assert(view_members(members@) =~= self.members_spec());
            assert(node@ == self.wire_tree()->0);
        }
        Ok(node)
    }

    proof fn lemma_wire_wf(v: Self) {
        if v.wire_tree() is Some {
            let t = v.wire_tree()->0;
            let ms = t->Obj_0;
            assert(ms == v.members_spec());
            crate::json::lemma_i64_lex(v.photo_size);
            crate::json::lemma_i64_lex(v.photo_width);
            crate::json::lemma_i64_lex(v.photo_height);
            assert forall|i: int| 0 <= i < ms.len() implies wf(#[trigger] ms[i].1) by {
            }
        }
    }

    #[verifier::rlimit(30)]
    #[verifier::spinoff_prover]
    proof fn lemma_round_trip(v: Self) {
        if v.wire_tree() is Some {
            let t = v.wire_tree()->0;
            let ms = t->Obj_0;
            assert(ms == v.members_spec());
            reveal_strlit("@type");
            reveal_strlit("@extra");
            reveal_strlit("title");
            reveal_strlit("description");
            reveal_strlit("photo_url");
            reveal_strlit("photo_size");
            reveal_strlit("photo_width");
            reveal_strlit("photo_height");
            reveal_strlit("payload");
            reveal_strlit("provider_token");
            reveal_strlit("provider_data");
            reveal_strlit("start_parameter");
            assert("@type"@.len() == 5);
            assert("@extra"@.len() == 6);
            assert("title"@.len() == 5);
            assert("description"@.len() == 11);
            assert("photo_url"@.len() == 9);
            assert("photo_size"@.len() == 10);
            assert("photo_width"@.len() == 11);
            assert("photo_height"@.len() == 12);
            assert("payload"@.len() == 7);
            assert("provider_token"@.len() == 14);
            assert("provider_data"@.len() == 13);
            assert("start_parameter"@.len() == 15);
            assert("@type"@[0] == '@' && "title"@[0] == 't');
            assert("description"@[0] == 'd' && "photo_width"@[0] == 'p');
            reveal_with_fuel(get_spec, 14);
            lemma_get_spec_found(ms, "@type"@, 0);
            lemma_get_spec_found(ms, "@extra"@, 1);
            lemma_get_spec_found(ms, "title"@, 2);
            lemma_get_spec_found(ms, "description"@, 3);
            lemma_get_spec_found(ms, "photo_url"@, 4);
            lemma_get_spec_found(ms, "photo_size"@, 5);
            lemma_get_spec_found(ms, "photo_width"@, 6);
            lemma_get_spec_found(ms, "photo_height"@, 7);
            lemma_get_spec_found(ms, "payload"@, 8);
            lemma_get_spec_found(ms, "provider_token"@, 9);
            lemma_get_spec_found(ms, "provider_data"@, 10);
            lemma_get_spec_found(ms, "start_parameter"@, 11);
            assert(tag_of(t) == Some(Self::tag_spec()));
            assert(ok_opt_str(t, "@extra"@));
            assert(ok_str(t, "title"@));
            assert(ok_str(t, "description"@));
            assert(ok_str(t, "photo_url"@));
            crate::json::lemma_i64_lex(v.photo_size);
            assert(ok_i64(t, "photo_size"@));
            crate::json::lemma_i64_lex(v.photo_width);
            assert(ok_i64(t, "photo_width"@));
            crate::json::lemma_i64_lex(v.photo_height);
            assert(ok_i64(t, "photo_height"@));
            assert(ok_str(t, "payload"@));
            assert(ok_str(t, "provider_token"@));
            assert(ok_str(t, "provider_data"@));
            assert(ok_str(t, "start_parameter"@));
            assert(Self::accepts(t));
            assert forall|w: Self| Self::decodes_from(t, w) implies #[trigger] w.eqv(v) by {
            }
        }
    }
}

impl RObject for InputMessageInvoice {
    open spec fn tag_chars(&self) -> Seq<char> {
        Self::tag_spec()
    }

    open spec fn extra_spec(&self) -> Option<Seq<char>> {
        opt_str_view(self.extra)
    }

    fn td_name(&self) -> (r: &'static str) {
        "inputMessageInvoice"
    }

    fn extra(&self) -> (r: Option<String>) {
        clone_opt_string(&self.extra)
    }

    fn to_json(&self) -> (r: Result<String, EncodeError>) {
        crate::object::encode(self)
    }
}

impl TDInputMessageContent for InputMessageInvoice {

}

impl InputMessageInvoice {
    pub fn from_json(json: &str) -> (r: Result<InputMessageInvoice, DecodeError>)
        ensures
            match crate::parse::parse_doc(json@) {
                Some(t) => match r {
                    Ok(v) => Self::accepts(t) && Self::decodes_from(t, v),
                    Err(e) => !Self::accepts(t) && crate::errors::err_matches(e, Self::err_of(t)),
                },
                None => r matches Err(e) && e == DecodeError::Malformed,
            },
    {
        crate::object::from_json::<InputMessageInvoice>(json)
    }

    pub fn builder() -> (r: RTDInputMessageInvoiceBuilder)
        ensures
            r.inner.extra is Some,
            r.inner.title@ == Seq::<char>::empty(),
            r.inner.description@ == Seq::<char>::empty(),
            r.inner.photo_url@ == Seq::<char>::empty(),
            r.inner.photo_size == 0,
            r.inner.photo_width == 0,
            r.inner.photo_height == 0,
            r.inner.payload@ == Seq::<char>::empty(),
            r.inner.provider_token@ == Seq::<char>::empty(),
            r.inner.provider_data@ == Seq::<char>::empty(),
            r.inner.start_parameter@ == Seq::<char>::empty(),
    {
        RTDInputMessageInvoiceBuilder {
            inner: InputMessageInvoice {
                extra: Some(new_token()),
                title: String::new(),
                description: String::new(),
                photo_url: String::new(),
                photo_size: 0,
                photo_width: 0,
                photo_height: 0,
                payload: String::new(),
                provider_token: String::new(),
                provider_data: String::new(),
                start_parameter: String::new(),
            },
        }
    }

    pub fn title(&self) -> (r: &String)
        ensures
            *r == self.title,
    {
        &self.title
    }

    pub fn description(&self) -> (r: &String)
        ensures
            *r == self.description,
    {
        &self.description
    }

    pub fn photo_url(&self) -> (r: &String)
        ensures
            *r == self.photo_url,
    {
        &self.photo_url
    }

    pub fn photo_size(&self) -> (r: i64)
        ensures
            r == self.photo_size,
    {
        self.photo_size
    }

    pub fn photo_width(&self) -> (r: i64)
        ensures
            r == self.photo_width,
    {
        self.photo_width
    }

    pub fn photo_height(&self) -> (r: i64)
        ensures
            r == self.photo_height,
    {
        self.photo_height
    }

    pub fn payload(&self) -> (r: &String)
        ensures
            *r == self.payload,
    {
        &self.payload
    }

    pub fn provider_token(&self) -> (r: &String)
        ensures
            *r == self.provider_token,
    {
        &self.provider_token
    }

    pub fn provider_data(&self) -> (r: &String)
        ensures
            *r == self.provider_data,
    {
        &self.provider_data
    }

    pub fn start_parameter(&self) -> (r: &String)
        ensures
            *r == self.start_parameter,
    {
        &self.start_parameter
    }
}

pub struct RTDInputMessageInvoiceBuilder {
    pub inner: InputMessageInvoice,
}

impl RTDInputMessageInvoiceBuilder {
    pub fn build(&self) -> (r: InputMessageInvoice)
        ensures
            r.eqv(self.inner),
    {
        self.inner.clone()
    }

    pub fn title(&mut self, title: String) -> (r: &mut Self)
        ensures
            *r == (RTDInputMessageInvoiceBuilder { inner: InputMessageInvoice { title: title, ..old(self).inner } }),
            *final(self) == *final(r),
    {
        self.inner.title = title;
        self
    }

    pub fn description(&mut self, description: String) -> (r: &mut Self)
        ensures
            *r == (RTDInputMessageInvoiceBuilder { inner: InputMessageInvoice { description: description, ..old(self).inner } }),
            *final(self) == *final(r),
    {
        self.inner.description = description;
        self
    }

    pub fn photo_url(&mut self, photo_url: String) -> (r: &mut Self)
        ensures
            *r == (RTDInputMessageInvoiceBuilder { inner: InputMessageInvoice { photo_url: photo_url, ..old(self).inner } }),
            *final(self) == *final(r),
    {
        self.inner.photo_url = photo_url;
        self
    }

    pub fn photo_size(&mut self, photo_size: i64) -> (r: &mut Self)
        ensures
            *r == (RTDInputMessageInvoiceBuilder { inner: InputMessageInvoice { photo_size: photo_size, ..old(self).inner } }),
            *final(self) == *final(r),
    {
        self.inner.photo_size = photo_size;
        self
    }

    pub fn photo_width(&mut self, photo_width: i64) -> (r: &mut Self)
        ensures
            *r == (RTDInputMessageInvoiceBuilder { inner: InputMessageInvoice { photo_width: photo_width, ..old(self).inner } }),
            *final(self) == *final(r),
    {
        self.inner.photo_width = photo_width;
        self
    }

    pub fn photo_height(&mut self, photo_height: i64) -> (r: &mut Self)
        ensures
            *r == (RTDInputMessageInvoiceBuilder { inner: InputMessageInvoice { photo_height: photo_height, ..old(self).inner } }),
            *final(self) == *final(r),
    {
        self.inner.photo_height = photo_height;
        self
    }

    pub fn payload(&mut self, payload: String) -> (r: &mut Self)
        ensures
            *r == (RTDInputMessageInvoiceBuilder { inner: InputMessageInvoice { payload: payload, ..old(self).inner } }),
            *final(self) == *final(r),
    {
        self.inner.payload = payload;
        self
    }

    pub fn provider_token(&mut self, provider_token: String) -> (r: &mut Self)
        ensures
            *r == (RTDInputMessageInvoiceBuilder { inner: InputMessageInvoice { provider_token: provider_token, ..old(self).inner } }),
            *final(self) == *final(r),
    {
        self.inner.provider_token = provider_token;
        self
    }

    pub fn provider_data(&mut self, provider_data: String) -> (r: &mut Self)
        ensures
            *r == (RTDInputMessageInvoiceBuilder { inner: InputMessageInvoice { provider_data: provider_data, ..old(self).inner } }),
            *final(self) == *final(r),
    {
        self.inner.provider_data = provider_data;
        self
    }

    pub fn start_parameter(&mut self, start_parameter: String) -> (r: &mut Self)
        ensures
            *r == (RTDInputMessageInvoiceBuilder { inner: InputMessageInvoice { start_parameter: start_parameter, ..old(self).inner } }),
            *final(self) == *final(r),
    {
        self.inner.start_parameter = start_parameter;
        self
    }
}
/// A message with a location
#[derive(Debug, PartialEq)]
pub struct InputMessageLocation {
    pub extra: Option<String>,
    /// Period for which the location can be updated, in seconds; must be between 60 and 86400 for a live location and 0 otherwise
    pub live_period: i64,
    /// For live locations, a direction in which the location moves, in degrees; 1-360. Pass 0 if unknown
    pub heading: i64,
    /// For live locations, a maximum distance to another chat member for proximity alerts, in meters (0-100000). Pass 0 if the notification is disabled. Can't be enabled in channels and Saved Messages
    pub proximity_alert_radius: i64,
}

impl InputMessageLocation {
    pub open spec fn tag_spec() -> Seq<char> {
        "inputMessageLocation"@
    }

    /// The members of the wire object, in the order they are written.
    pub open spec fn members_spec(self) -> Seq<(Seq<char>, SpecJson)> {
        seq![
            ("@type"@, SpecJson::Str(Self::tag_spec())),
            ("@extra"@, opt_str_tree(opt_str_view(self.extra))),
            ("live_period"@, SpecJson::Num(i64_lex(self.live_period as int))),
            ("heading"@, SpecJson::Num(i64_lex(self.heading as int))),
            ("proximity_alert_radius"@, SpecJson::Num(i64_lex(self.proximity_alert_radius as int))),
        ]
    }

    pub open spec fn fields_ok(t: SpecJson) -> bool {
        &&& ok_opt_str(t, "@extra"@)
        &&& ok_i64(t, "live_period"@)
        &&& ok_i64(t, "heading"@)
        &&& ok_i64(t, "proximity_alert_radius"@)
    }

    pub open spec fn fail_field(t: SpecJson) -> Seq<char> {
        if !ok_opt_str(t, "@extra"@) {
            "@extra"@
        } else if !(ok_i64(t, "live_period"@)) {
            "live_period"@
        } else if !(ok_i64(t, "heading"@)) {
            "heading"@
        } else if !(ok_i64(t, "proximity_alert_radius"@)) {
            "proximity_alert_radius"@
        } else {
            Seq::empty()
        }
    }

    /// The encoding of a value carries exactly this type's tag.
    pub proof fn lemma_wire_tag(v: InputMessageLocation)
        ensures
            v.wire_tree() matches Some(t) ==> tag_of(t) == Some(InputMessageLocation::tag_spec()),
    {
        if v.wire_tree() is Some {
            let t = v.wire_tree()->0;
            let ms = t->Obj_0;
            lemma_get_spec_found(ms, "@type"@, 0);
        }
    }
}

impl Clone for InputMessageLocation {
    fn clone(&self) -> (res: Self)
        ensures
            res.eqv(*self),
    {
        InputMessageLocation {
            extra: clone_opt_string(&self.extra),
            live_period: self.live_period,
            heading: self.heading,
            proximity_alert_radius: self.proximity_alert_radius,
        }
    }
}

impl Wire for InputMessageLocation {
    open spec fn wire_tree(self) -> Option<SpecJson> {
        Some(SpecJson::Obj(self.members_spec()))
    }

    open spec fn accepts(t: SpecJson) -> bool {
        tag_of(t) is Some && Self::fields_ok(t)
    }

    open spec fn err_of(t: SpecJson) -> SpecDecodeError {
        match tag_of(t) {
            None => SpecDecodeError::Malformed,
            Some(_) => SpecDecodeError::FieldShapeMismatch(Self::tag_spec(), Self::fail_field(t)),
        }
    }

    open spec fn decodes_from(t: SpecJson, v: Self) -> bool {
        &&& m_opt_str(t, "@extra"@, v.extra)
        &&& m_i64(t, "live_period"@, v.live_period)
        &&& m_i64(t, "heading"@, v.heading)
        &&& m_i64(t, "proximity_alert_radius"@, v.proximity_alert_radius)
    }

    open spec fn eqv(self, other: Self) -> bool {
        &&& eqv_opt_string(self.extra, other.extra)
        &&& self.live_period == other.live_period
        &&& self.heading == other.heading
        &&& self.proximity_alert_radius == other.proximity_alert_radius
    }

    fn clone_val(&self) -> (r: Self) {
        self.clone()
    }

    fn decode_tree(t: &JsonValue) -> (r: Result<Self, DecodeError>) {
        if get_tag(t).is_none() {
            return Err(DecodeError::Malformed);
        }
        let extra = match field_opt_string(t, "@extra") {
            Some(x) => x,
            None => {
                return Err(DecodeError::FieldShapeMismatch(
                    String::from_str("inputMessageLocation"),
                    String::from_str("@extra"),
                ));
            },
        };
        let live_period = match field_i64(t, "live_period") {
            Some(x) => x,
            None => {
                return Err(DecodeError::FieldShapeMismatch(
                    String::from_str("inputMessageLocation"),
                    String::from_str("live_period"),
                ));
            },
        };
        let heading = match field_i64(t, "heading") {
            Some(x) => x,
            None => {
                return Err(DecodeError::FieldShapeMismatch(
                    String::from_str("inputMessageLocation"),
                    String::from_str("heading"),
                ));
            },
        };
        let proximity_alert_radius = match field_i64(t, "proximity_alert_radius") {
            Some(x) => x,
            None => {
                return Err(DecodeError::FieldShapeMismatch(
                    String::from_str("inputMessageLocation"),
                    String::from_str("proximity_alert_radius"),
                ));
            },
        };
        Ok(InputMessageLocation { extra, live_period, heading, proximity_alert_radius })
    }

    fn encode_tree(&self) -> (r: Result<JsonValue, EncodeError>) {
        let mut members: Vec<JsonMember> = Vec::new();
        proof {
            assert(view_members(members@) =~= Seq::<(Seq<char>, SpecJson)>::empty());
        }
        push_member(&mut members, "@type", JsonValue::Str(String::from_str("inputMessageLocation")));
        push_member(&mut members, "@extra", opt_string_tree(&self.extra));
        push_member(&mut members, "live_period", JsonValue::Num(i64_lexeme(self.live_period)));
        push_member(&mut members, "heading", JsonValue::Num(i64_lexeme(self.heading)));
        push_member(&mut members, "proximity_alert_radius", JsonValue::Num(i64_lexeme(self.proximity_alert_radius)));
        let node = JsonValue::Obj(members);
        proof {
            assert(view_members(members@) =~= self.members_spec());
            assert(node@ == self.wire_tree()->0);
        }
        Ok(node)
    }

    proof fn lemma_wire_wf(v: Self) {
        if v.wire_tree() is Some {
            let t = v.wire_tree()->0;
            let ms = t->Obj_0;
            assert(ms == v.members_spec());
            crate::json::lemma_i64_lex(v.live_period);
            crate::json::lemma_i64_lex(v.heading);
            crate::json::lemma_i64_lex(v.proximity_alert_radius);
            assert forall|i: int| 0 <= i < ms.len() implies wf(#[trigger] ms[i].1) by {
            }
        }
    }

    proof fn lemma_round_trip(v: Self) {
        if v.wire_tree() is Some {
            let t = v.wire_tree()->0;
            let ms = t->Obj_0;
            assert(ms == v.members_spec());
            reveal_strlit("@type");
            reveal_strlit("@extra");
            reveal_strlit("live_period");
            reveal_strlit("heading");
            reveal_strlit("proximity_alert_radius");
            assert("@type"@.len() == 5);
            assert("@extra"@.len() == 6);
            assert("live_period"@.len() == 11);
            assert("heading"@.len() == 7);
            assert("proximity_alert_radius"@.len() == 22);
            reveal_with_fuel(get_spec, 7);
            lemma_get_spec_found(ms, "@type"@, 0);
            lemma_get_spec_found(ms, "@extra"@, 1);
            lemma_get_spec_found(ms, "live_period"@, 2);
            lemma_get_spec_found(ms, "heading"@, 3);
            lemma_get_spec_found(ms, "proximity_alert_radius"@, 4);
            assert(tag_of(t) == Some(Self::tag_spec()));
            assert(ok_opt_str(t, "@extra"@));
            crate::json::lemma_i64_lex(v.live_period);
            assert(ok_i64(t, "live_period"@));
            crate::json::lemma_i64_lex(v.heading);
            assert(ok_i64(t, "heading"@));
            crate::json::lemma_i64_lex(v.proximity_alert_radius);
            assert(ok_i64(t, "proximity_alert_radius"@));
            assert(Self::accepts(t));
            assert forall|w: Self| Self::decodes_from(t, w) implies #[trigger] w.eqv(v) by {
            }
        }
    }
}

impl RObject for InputMessageLocation {
    open spec fn tag_chars(&self) -> Seq<char> {
        Self::tag_spec()
    }

    open spec fn extra_spec(&self) -> Option<Seq<char>> {
        opt_str_view(self.extra)
    }

    fn td_name(&self) -> (r: &'static str) {
        "inputMessageLocation"
    }

    fn extra(&self) -> (r: Option<String>) {
        clone_opt_string(&self.extra)
    }

    fn to_json(&self) -> (r: Result<String, EncodeError>) {
        crate::object::encode(self)
    }
}

impl TDInputMessageContent for InputMessageLocation {

}

impl InputMessageLocation {
    pub fn from_json(json: &str) -> (r: Result<InputMessageLocation, DecodeError>)
        ensures
            match crate::parse::parse_doc(json@) {
                Some(t) => match r {
                    Ok(v) => Self::accepts(t) && Self::decodes_from(t, v),
                    Err(e) => !Self::accepts(t) && crate::errors::err_matches(e, Self::err_of(t)),
                },
                None => r matches Err(e) && e == DecodeError::Malformed,
            },
    {
        crate::object::from_json::<InputMessageLocation>(json)
    }

    pub fn builder() -> (r: RTDInputMessageLocationBuilder)
        ensures
            r.inner.extra is Some,
            r.inner.live_period == 0,
            r.inner.heading == 0,
            r.inner.proximity_alert_radius == 0,
    {
        RTDInputMessageLocationBuilder {
            inner: InputMessageLocation {
                extra: Some(new_token()),
                live_period: 0,
                heading: 0,
                proximity_alert_radius: 0,
            },
        }
    }

    pub fn live_period(&self) -> (r: i64)
        ensures
            r == self.live_period,
    {
        self.live_period
    }

    pub fn heading(&self) -> (r: i64)
        ensures
            r == self.heading,
    {
        self.heading
    }

    pub fn proximity_alert_radius(&self) -> (r: i64)
        ensures
            r == self.proximity_alert_radius,
    {
        self.proximity_alert_radius
    }
}

pub struct RTDInputMessageLocationBuilder {
    pub inner: InputMessageLocation,
}

impl RTDInputMessageLocationBuilder {
    pub fn build(&self) -> (r: InputMessageLocation)
        ensures
            r.eqv(self.inner),
    {
        self.inner.clone()
    }

    pub fn live_period(&mut self, live_period: i64) -> (r: &mut Self)
        ensures
            *r == (RTDInputMessageLocationBuilder { inner: InputMessageLocation { live_period: live_period, ..old(self).inner } }),
            *final(self) == *final(r),
    {
        self.inner.live_period = live_period;
        self
    }

    pub fn heading(&mut self, heading: i64) -> (r: &mut Self)
        ensures
            *r == (RTDInputMessageLocationBuilder { inner: InputMessageLocation { heading: heading, ..old(self).inner } }),
            *final(self) == *final(r),
    {
        self.inner.heading = heading;
        self
    }

    pub fn proximity_alert_radius(&mut self, proximity_alert_radius: i64) -> (r: &mut Self)
        ensures
            *r == (RTDInputMessageLocationBuilder { inner: InputMessageLocation { proximity_alert_radius: proximity_alert_radius, ..old(self).inner } }),
            *final(self) == *final(r),
    {
        self.inner.proximity_alert_radius = proximity_alert_radius;
        self
    }
}
/// A photo message
#[derive(Debug, PartialEq)]
pub struct InputMessagePhoto {
    pub extra: Option<String>,
    /// File identifiers of the stickers added to the photo, if applicable
    pub added_sticker_file_ids: Vec<i64>,
    /// Photo width
    pub width: i64,
    /// Photo height
    pub height: i64,
    /// Photo TTL (Time To Live), in seconds (0-60). A non-zero TTL can be specified only in private chats
    pub ttl: i64,
}

impl InputMessagePhoto {
    pub open spec fn tag_spec() -> Seq<char> {
        "inputMessagePhoto"@
    }

    /// The members of the wire object, in the order they are written.
    pub open spec fn members_spec(self) -> Seq<(Seq<char>, SpecJson)> {
        seq![
            ("@type"@, SpecJson::Str(Self::tag_spec())),
            ("@extra"@, opt_str_tree(opt_str_view(self.extra))),
            ("added_sticker_file_ids"@, SpecJson::Arr(vec_i64_trees(self.added_sticker_file_ids@))),
            ("width"@, SpecJson::Num(i64_lex(self.width as int))),
            ("height"@, SpecJson::Num(i64_lex(self.height as int))),
            ("ttl"@, SpecJson::Num(i64_lex(self.ttl as int))),
        ]
    }

    pub open spec fn fields_ok(t: SpecJson) -> bool {
        &&& ok_opt_str(t, "@extra"@)
        &&& ok_vec_i64(t, "added_sticker_file_ids"@)
        &&& ok_i64(t, "width"@)
        &&& ok_i64(t, "height"@)
        &&& ok_i64(t, "ttl"@)
    }

    pub open spec fn fail_field(t: SpecJson) -> Seq<char> {
        if !ok_opt_str(t, "@extra"@) {
            "@extra"@
        } else if !(ok_vec_i64(t, "added_sticker_file_ids"@)) {
            "added_sticker_file_ids"@
        } else if !(ok_i64(t, "width"@)) {
            "width"@
        } else if !(ok_i64(t, "height"@)) {
            "height"@
        } else if !(ok_i64(t, "ttl"@)) {
            "ttl"@
        } else {
            Seq::empty()
        }
    }

    /// The encoding of a value carries exactly this type's tag.
    pub proof fn lemma_wire_tag(v: InputMessagePhoto)
        ensures
            v.wire_tree() matches Some(t) ==> tag_of(t) == Some(InputMessagePhoto::tag_spec()),
    {
        if v.wire_tree() is Some {
            let t = v.wire_tree()->0;
            let ms = t->Obj_0;
            lemma_get_spec_found(ms, "@type"@, 0);
        }
    }
}

impl Clone for InputMessagePhoto {
    fn clone(&self) -> (res: Self)
        ensures
            res.eqv(*self),
    {
        InputMessagePhoto {
            extra: clone_opt_string(&self.extra),
            added_sticker_file_ids: clone_vec_i64(&self.added_sticker_file_ids),
            width: self.width,
            height: self.height,
            ttl: self.ttl,
        }
    }
}

impl Wire for InputMessagePhoto {
    open spec fn wire_tree(self) -> Option<SpecJson> {
        Some(SpecJson::Obj(self.members_spec()))
    }

    open spec fn accepts(t: SpecJson) -> bool {
        tag_of(t) is Some && Self::fields_ok(t)
    }

    open spec fn err_of(t: SpecJson) -> SpecDecodeError {
        match tag_of(t) {
            None => SpecDecodeError::Malformed,
            Some(_) => SpecDecodeError::FieldShapeMismatch(Self::tag_spec(), Self::fail_field(t)),
        }
    }

    open spec fn decodes_from(t: SpecJson, v: Self) -> bool {
        &&& m_opt_str(t, "@extra"@, v.extra)
        &&& m_vec_i64(t, "added_sticker_file_ids"@, v.added_sticker_file_ids)
        &&& m_i64(t, "width"@, v.width)
        &&& m_i64(t, "height"@, v.height)
        &&& m_i64(t, "ttl"@, v.ttl)
    }

    open spec fn eqv(self, other: Self) -> bool {
        &&& eqv_opt_string(self.extra, other.extra)
        &&& self.added_sticker_file_ids@ == other.added_sticker_file_ids@
        &&& self.width == other.width
        &&& self.height == other.height
        &&& self.ttl == other.ttl
    }

    fn clone_val(&self) -> (r: Self) {
        self.clone()
    }

    fn decode_tree(t: &JsonValue) -> (r: Result<Self, DecodeError>) {
        if get_tag(t).is_none() {
            return Err(DecodeError::Malformed);
        }
        let extra = match field_opt_string(t, "@extra") {
            Some(x) => x,
            None => {
                return Err(DecodeError::FieldShapeMismatch(
                    String::from_str("inputMessagePhoto"),
                    String::from_str("@extra"),
                ));
            },
        };
        let added_sticker_file_ids = match get_field(t, "added_sticker_file_ids") {
            Some(JsonValue::Arr(arr)) => match decode_vec_i64(arr) {
                Some(x) => x,
                None => {
                    return Err(DecodeError::FieldShapeMismatch(
                    String::from_str("inputMessagePhoto"),
                    String::from_str("added_sticker_file_ids"),
                ));
                },
            },
            _ => {
                return Err(DecodeError::FieldShapeMismatch(
                    String::from_str("inputMessagePhoto"),
                    String::from_str("added_sticker_file_ids"),
                ));
            },
        };
        let width = match field_i64(t, "width") {
            Some(x) => x,
            None => {
                return Err(DecodeError::FieldShapeMismatch(
                    String::from_str("inputMessagePhoto"),
                    String::from_str("width"),
                ));
            },
        };
        let height = match field_i64(t, "height") {
            Some(x) => x,
            None => {
                return Err(DecodeError::FieldShapeMismatch(
                    String::from_str("inputMessagePhoto"),
                    String::from_str("height"),
                ));
            },
        };
        let ttl = match field_i64(t, "ttl") {
            Some(x) => x,
            None => {
                return Err(DecodeError::FieldShapeMismatch(
                    String::from_str("inputMessagePhoto"),
                    String::from_str("ttl"),
                ));
            },
        };
        Ok(InputMessagePhoto { extra, added_sticker_file_ids, width, height, ttl })
    }

    fn encode_tree(&self) -> (r: Result<JsonValue, EncodeError>) {
        let mut members: Vec<JsonMember> = Vec::new();
        proof {
            assert(view_members(members@) =~= Seq::<(Seq<char>, SpecJson)>::empty());
        }
        push_member(&mut members, "@type", JsonValue::Str(String::from_str("inputMessagePhoto")));
        push_member(&mut members, "@extra", opt_string_tree(&self.extra));
        push_member(&mut members, "added_sticker_file_ids", JsonValue::Arr(encode_vec_i64(&self.added_sticker_file_ids)));
        push_member(&mut members, "width", JsonValue::Num(i64_lexeme(self.width)));
        push_member(&mut members, "height", JsonValue::Num(i64_lexeme(self.height)));
        push_member(&mut members, "ttl", JsonValue::Num(i64_lexeme(self.ttl)));
        let node = JsonValue::Obj(members);
        proof {
            assert(view_members(members@) =~= self.members_spec());
            assert(node@ == self.wire_tree()->0);
        }
        Ok(node)
    }

    proof fn lemma_wire_wf(v: Self) {
        if v.wire_tree() is Some {
            let t = v.wire_tree()->0;
            let ms = t->Obj_0;
            assert(ms == v.members_spec());
            assert forall|k: int| 0 <= k < vec_i64_trees(v.added_sticker_file_ids@).len() implies wf(
                #[trigger] vec_i64_trees(v.added_sticker_file_ids@)[k],
            ) by {
                crate::json::lemma_i64_lex(v.added_sticker_file_ids@[k]);
            }
            crate::json::lemma_i64_lex(v.width);
            crate::json::lemma_i64_lex(v.height);
            crate::json::lemma_i64_lex(v.ttl);
            assert forall|i: int| 0 <= i < ms.len() implies wf(#[trigger] ms[i].1) by {
            }
        }
    }

    proof fn lemma_round_trip(v: Self) {
        if v.wire_tree() is Some {
            let t = v.wire_tree()->0;
            let ms = t->Obj_0;
            assert(ms == v.members_spec());
            reveal_strlit("@type");
            reveal_strlit("@extra");
            reveal_strlit("added_sticker_file_ids");
            reveal_strlit("width");
            reveal_strlit("height");
            reveal_strlit("ttl");
            assert("@type"@.len() == 5);
            assert("@extra"@.len() == 6);
            assert("added_sticker_file_ids"@.len() == 22);
            assert("width"@.len() == 5);
            assert("height"@.len() == 6);
            assert("ttl"@.len() == 3);
            assert("@type"@[0] == '@' && "width"@[0] == 'w');
            assert("@extra"@[0] == '@' && "height"@[0] == 'h');
            reveal_with_fuel(get_spec, 8);
            lemma_get_spec_found(ms, "@type"@, 0);
            lemma_get_spec_found(ms, "@extra"@, 1);
            lemma_get_spec_found(ms, "added_sticker_file_ids"@, 2);
            lemma_get_spec_found(ms, "width"@, 3);
            lemma_get_spec_found(ms, "height"@, 4);
            lemma_get_spec_found(ms, "ttl"@, 5);
            assert(tag_of(t) == Some(Self::tag_spec()));
            assert(ok_opt_str(t, "@extra"@));
            assert(ok_vec_i64(t, "added_sticker_file_ids"@)) by {
                assert forall|k: int| 0 <= k < vec_i64_trees(v.added_sticker_file_ids@).len() implies
                    as_i64_spec(#[trigger] vec_i64_trees(v.added_sticker_file_ids@)[k]) == Some(v.added_sticker_file_ids@[k]) by {
                    crate::json::lemma_i64_lex(v.added_sticker_file_ids@[k]);
                }
            }
            crate::json::lemma_i64_lex(v.width);
            assert(ok_i64(t, "width"@));
            crate::json::lemma_i64_lex(v.height);
            assert(ok_i64(t, "height"@));
            crate::json::lemma_i64_lex(v.ttl);
            assert(ok_i64(t, "ttl"@));
            assert(Self::accepts(t));
            assert forall|w: Self| Self::decodes_from(t, w) implies #[trigger] w.eqv(v) by {
                assert forall|k: int| 0 <= k < w.added_sticker_file_ids@.len() implies w.added_sticker_file_ids@[k]
                    == v.added_sticker_file_ids@[k] by {
                    crate::json::lemma_i64_lex(v.added_sticker_file_ids@[k]);
                    assert(vec_i64_trees(v.added_sticker_file_ids@)[k] == SpecJson::Num(i64_lex(v.added_sticker_file_ids@[k] as int)));
                }
                assert(w.added_sticker_file_ids@ =~= v.added_sticker_file_ids@);
            }
        }
    }
}

impl RObject for InputMessagePhoto {
    open spec fn tag_chars(&self) -> Seq<char> {
        Self::tag_spec()
    }

    open spec fn extra_spec(&self) -> Option<Seq<char>> {
        opt_str_view(self.extra)
    }

    fn td_name(&self) -> (r: &'static str) {
        "inputMessagePhoto"
    }

    fn extra(&self) -> (r: Option<String>) {
        clone_opt_string(&self.extra)
    }

    fn to_json(&self) -> (r: Result<String, EncodeError>) {
        crate::object::encode(self)
    }
}

impl TDInputMessageContent for InputMessagePhoto {

}

impl InputMessagePhoto {
    pub fn from_json(json: &str) -> (r: Result<InputMessagePhoto, DecodeError>)
        ensures
            match crate::parse::parse_doc(json@) {
                Some(t) => match r {
                    Ok(v) => Self::accepts(t) && Self::decodes_from(t, v),
                    Err(e) => !Self::accepts(t) && crate::errors::err_matches(e, Self::err_of(t)),
                },
                None => r matches Err(e) && e == DecodeError::Malformed,
            },
    {
        crate::object::from_json::<InputMessagePhoto>(json)
    }

    pub fn builder() -> (r: RTDInputMessagePhotoBuilder)
        ensures
            r.inner.extra is Some,
            r.inner.added_sticker_file_ids@.len() == 0,
            r.inner.width == 0,
            r.inner.height == 0,
            r.inner.ttl == 0,
    {
        RTDInputMessagePhotoBuilder {
            inner: InputMessagePhoto {
                extra: Some(new_token()),
                added_sticker_file_ids: Vec::new(),
                width: 0,
                height: 0,
                ttl: 0,
            },
        }
    }

    pub fn added_sticker_file_ids(&self) -> (r: &Vec<i64>)
        ensures
            *r == self.added_sticker_file_ids,
    {
        &self.added_sticker_file_ids
    }

    pub fn width(&self) -> (r: i64)
        ensures
            r == self.width,
    {
        self.width
    }

    pub fn height(&self) -> (r: i64)
        ensures
            r == self.height,
    {
        self.height
    }

    pub fn ttl(&self) -> (r: i64)
        ensures
            r == self.ttl,
    {
        self.ttl
    }
}

pub struct RTDInputMessagePhotoBuilder {
    pub inner: InputMessagePhoto,
}

impl RTDInputMessagePhotoBuilder {
    pub fn build(&self) -> (r: InputMessagePhoto)
        ensures
            r.eqv(self.inner),
    {
        self.inner.clone()
    }

    pub fn added_sticker_file_ids(&mut self, added_sticker_file_ids: Vec<i64>) -> (r: &mut Self)
        ensures
            *r == (RTDInputMessagePhotoBuilder { inner: InputMessagePhoto { added_sticker_file_ids: added_sticker_file_ids, ..old(self).inner } }),
            *final(self) == *final(r),
    {
        self.inner.added_sticker_file_ids = added_sticker_file_ids;
        self
    }

    pub fn width(&mut self, width: i64) -> (r: &mut Self)
        ensures
            *r == (RTDInputMessagePhotoBuilder { inner: InputMessagePhoto { width: width, ..old(self).inner } }),
            *final(self) == *final(r),
    {
        self.inner.width = width;
        self
    }

    pub fn height(&mut self, height: i64) -> (r: &mut Self)
        ensures
            *r == (RTDInputMessagePhotoBuilder { inner: InputMessagePhoto { height: height, ..old(self).inner } }),
            *final(self) == *final(r),
    {
        self.inner.height = height;
        self
    }

    pub fn ttl(&mut self, ttl: i64) -> (r: &mut Self)
        ensures
            *r == (RTDInputMessagePhotoBuilder { inner: InputMessagePhoto { ttl: ttl, ..old(self).inner } }),
            *final(self) == *final(r),
    {
        self.inner.ttl = ttl;
        self
    }
}
/// A message with a poll. Polls can't be sent to secret chats. Polls can be sent only to a private chat with a bot
#[derive(Debug, PartialEq)]
pub struct InputMessagePoll {
    pub extra: Option<String>,
    /// Poll question; 1-255 characters (up to 300 characters for bots)
    pub question: String,
    /// List of poll answer options, 2-10 strings 1-100 characters each
    pub options: Vec<String>,
    /// True, if the poll voters are anonymous. Non-anonymous polls can't be sent or forwarded to channels
    pub is_anonymous: bool,
    /// Amount of time the poll will be active after creation, in seconds; for bots only
    pub open_period: i64,
    /// Point in time (Unix timestamp) when the poll will be automatically closed; for bots only
    pub close_date: i64,
    /// True, if the poll needs to be sent already closed; for bots only
    pub is_closed: bool,
}

impl InputMessagePoll {
    pub open spec fn tag_spec() -> Seq<char> {
        "inputMessagePoll"@
    }

    /// The members of the wire object, in the order they are written.
    pub open spec fn members_spec(self) -> Seq<(Seq<char>, SpecJson)> {
        seq![
            ("@type"@, SpecJson::Str(Self::tag_spec())),
            ("@extra"@, opt_str_tree(opt_str_view(self.extra))),
            ("question"@, SpecJson::Str(self.question@)),
            ("options"@, SpecJson::Arr(vec_str_trees(self.options@))),
            ("is_anonymous"@, SpecJson::Bool(self.is_anonymous)),
            ("open_period"@, SpecJson::Num(i64_lex(self.open_period as int))),
            ("close_date"@, SpecJson::Num(i64_lex(self.close_date as int))),
            ("is_closed"@, SpecJson::Bool(self.is_closed)),
        ]
    }

    pub open spec fn fields_ok(t: SpecJson) -> bool {
        &&& ok_opt_str(t, "@extra"@)
        &&& ok_str(t, "question"@)
        &&& ok_vec_str(t, "options"@)
        &&& ok_bool(t, "is_anonymous"@)
        &&& ok_i64(t, "open_period"@)
        &&& ok_i64(t, "close_date"@)
        &&& ok_bool(t, "is_closed"@)
    }

    pub open spec fn fail_field(t: SpecJson) -> Seq<char> {
        if !ok_opt_str(t, "@extra"@) {
            "@extra"@
        } else if !(ok_str(t, "question"@)) {
            "question"@
        } else if !(ok_vec_str(t, "options"@)) {
            "options"@
        } else if !(ok_bool(t, "is_anonymous"@)) {
            "is_anonymous"@
        } else if !(ok_i64(t, "open_period"@)) {
            "open_period"@
        } else if !(ok_i64(t, "close_date"@)) {
            "close_date"@
        } else if !(ok_bool(t, "is_closed"@)) {
            "is_closed"@
        } else {
            Seq::empty()
        }
    }

    /// The encoding of a value carries exactly this type's tag.
    pub proof fn lemma_wire_tag(v: InputMessagePoll)
        ensures
            v.wire_tree() matches Some(t) ==> tag_of(t) == Some(InputMessagePoll::tag_spec()),
    {
        if v.wire_tree() is Some {
            let t = v.wire_tree()->0;
            let ms = t->Obj_0;
            lemma_get_spec_found(ms, "@type"@, 0);
        }
    }
}

impl Clone for InputMessagePoll {
    fn clone(&self) -> (res: Self)
        ensures
            res.eqv(*self),
    {
        InputMessagePoll {
            extra: clone_opt_string(&self.extra),
            question: self.question.clone(),
            options: clone_vec_string(&self.options),
            is_anonymous: self.is_anonymous,
            open_period: self.open_period,
            close_date: self.close_date,
            is_closed: self.is_closed,
        }
    }
}

impl Wire for InputMessagePoll {
    open spec fn wire_tree(self) -> Option<SpecJson> {
        Some(SpecJson::Obj(self.members_spec()))
    }

    open spec fn accepts(t: SpecJson) -> bool {
        tag_of(t) is Some && Self::fields_ok(t)
    }

    open spec fn err_of(t: SpecJson) -> SpecDecodeError {
        match tag_of(t) {
            None => SpecDecodeError::Malformed,
            Some(_) => SpecDecodeError::FieldShapeMismatch(Self::tag_spec(), Self::fail_field(t)),
        }
    }

    open spec fn decodes_from(t: SpecJson, v: Self) -> bool {
        &&& m_opt_str(t, "@extra"@, v.extra)
        &&& m_str(t, "question"@, v.question@)
        &&& m_vec_str(t, "options"@, v.options)
        &&& m_bool(t, "is_anonymous"@, v.is_anonymous)
        &&& m_i64(t, "open_period"@, v.open_period)
        &&& m_i64(t, "close_date"@, v.close_date)
        &&& m_bool(t, "is_closed"@, v.is_closed)
    }

    open spec fn eqv(self, other: Self) -> bool {
        &&& eqv_opt_string(self.extra, other.extra)
        &&& self.question@ == other.question@
        &&& eqv_vec_string(self.options, other.options)
        &&& self.is_anonymous == other.is_anonymous
        &&& self.open_period == other.open_period
        &&& self.close_date == other.close_date
        &&& self.is_closed == other.is_closed
    }

    fn clone_val(&self) -> (r: Self) {
        self.clone()
    }

    #[verifier::rlimit(30)]
    #[verifier::spinoff_prover]
    fn decode_tree(t: &JsonValue) -> (r: Result<Self, DecodeError>) {
        if get_tag(t).is_none() {
            return Err(DecodeError::Malformed);
        }
        let extra = match field_opt_string(t, "@extra") {
            Some(x) => x,
            None => {
                return Err(DecodeError::FieldShapeMismatch(
                    String::from_str("inputMessagePoll"),
                    String::from_str("@extra"),
                ));
            },
        };
        let question = match field_string(t, "question") {
            Some(x) => x,
            None => {
                return Err(DecodeError::FieldShapeMismatch(
                    String::from_str("inputMessagePoll"),
                    String::from_str("question"),
                ));
            },
        };
        let options = match get_field(t, "options") {
            Some(JsonValue::Arr(arr)) => match decode_vec_string(arr) {
                Some(x) => x,
                None => {
                    return Err(DecodeError::FieldShapeMismatch(
                    String::from_str("inputMessagePoll"),
                    String::from_str("options"),
                ));
                },
            },
            _ => {
                return Err(DecodeError::FieldShapeMismatch(
                    String::from_str("inputMessagePoll"),
                    String::from_str("options"),
                ));
            },
        };
        let is_anonymous = match field_bool(t, "is_anonymous") {
            Some(x) => x,
            None => {
                return Err(DecodeError::FieldShapeMismatch(
                    String::from_str("inputMessagePoll"),
                    String::from_str("is_anonymous"),
                ));
            },
        };
        let open_period = match field_i64(t, "open_period") {
            Some(x) => x,
            None => {
                return Err(DecodeError::FieldShapeMismatch(
                    String::from_str("inputMessagePoll"),
                    String::from_str("open_period"),
                ));
            },
        };
        let close_date = match field_i64(t, "close_date") {
            Some(x) => x,
            None => {
                return Err(DecodeError::FieldShapeMismatch(
                    String::from_str("inputMessagePoll"),
                    String::from_str("close_date"),
                ));
            },
        };
        let is_closed = match field_bool(t, "is_closed") {
            Some(x) => x,
            None => {
                return Err(DecodeError::FieldShapeMismatch(
                    String::from_str("inputMessagePoll"),
                    String::from_str("is_closed"),
                ));
            },
        };
        Ok(InputMessagePoll { extra, question, options, is_anonymous, open_period, close_date, is_closed })
    }

    #[verifier::rlimit(30)]
    #[verifier::spinoff_prover]
    fn encode_tree(&self) -> (r: Result<JsonValue, EncodeError>) {
        let mut members: Vec<JsonMember> = Vec::new();
        proof {
            assert(view_members(members@) =~= Seq::<(Seq<char>, SpecJson)>::empty());
        }
        push_member(&mut members, "@type", JsonValue::Str(String::from_str("inputMessagePoll")));
        push_member(&mut members, "@extra", opt_string_tree(&self.extra));
        push_member(&mut members, "question", JsonValue::Str(self.question.clone()));
        push_member(&mut members, "options", JsonValue::Arr(encode_vec_string(&self.options)));
        push_member(&mut members, "is_anonymous", JsonValue::Bool(self.is_anonymous));
        push_member(&mut members, "open_period", JsonValue::Num(i64_lexeme(self.open_period)));
        push_member(&mut members, "close_date", JsonValue::Num(i64_lexeme(self.close_date)));
        push_member(&mut members, "is_closed", JsonValue::Bool(self.is_closed));
        let node = JsonValue::Obj(members);
        proof {
            assert(view_members(members@) =~= self.members_spec());
            assert(node@ == self.wire_tree()->0);
        }
        Ok(node)
    }

    proof fn lemma_wire_wf(v: Self) {
        if v.wire_tree() is Some {
            let t = v.wire_tree()->0;
            let ms = t->Obj_0;
            assert(ms == v.members_spec());
            crate::json::lemma_i64_lex(v.open_period);
            crate::json::lemma_i64_lex(v.close_date);
            assert forall|i: int| 0 <= i < ms.len() implies wf(#[trigger] ms[i].1) by {
                assert(forall|k: int| 0 <= k < vec_str_trees(v.options@).len() ==> wf(
                #[trigger] vec_str_trees(v.options@)[k]));
            }
        }
    }

    #[verifier::rlimit(30)]
    #[verifier::spinoff_prover]
    proof fn lemma_round_trip(v: Self) {
        if v.wire_tree() is Some {
            let t = v.wire_tree()->0;
            let ms = t->Obj_0;
            assert(ms == v.members_spec());
            reveal_strlit("@type");
            reveal_strlit("@extra");
            reveal_strlit("question");
            reveal_strlit("options");
            reveal_strlit("is_anonymous");
            reveal_strlit("open_period");
            reveal_strlit("close_date");
            reveal_strlit("is_closed");
            assert("@type"@.len() == 5);
            assert("@extra"@.len() == 6);
            assert("question"@.len() == 8);
            assert("options"@.len() == 7);
            assert("is_anonymous"@.len() == 12);
            assert("open_period"@.len() == 11);
            assert("close_date"@.len() == 10);
            assert("is_closed"@.len() == 9);
            reveal_with_fuel(get_spec, 10);
            lemma_get_spec_found(ms, "@type"@, 0);
            lemma_get_spec_found(ms, "@extra"@, 1);
            lemma_get_spec_found(ms, "question"@, 2);
            lemma_get_spec_found(ms, "options"@, 3);
            lemma_get_spec_found(ms, "is_anonymous"@, 4);
            lemma_get_spec_found(ms, "open_period"@, 5);
            lemma_get_spec_found(ms, "close_date"@, 6);
            lemma_get_spec_found(ms, "is_closed"@, 7);
            assert(tag_of(t) == Some(Self::tag_spec()));
            assert(ok_opt_str(t, "@extra"@));
            assert(ok_str(t, "question"@));
            assert(ok_vec_str(t, "options"@)) by {
                assert(forall|k: int| 0 <= k < vec_str_trees(v.options@).len() ==> (
                #[trigger] vec_str_trees(v.options@)[k]) is Str);
            }
            assert(ok_bool(t, "is_anonymous"@));
            crate::json::lemma_i64_lex(v.open_period);
            assert(ok_i64(t, "open_period"@));
            crate::json::lemma_i64_lex(v.close_date);
            assert(ok_i64(t, "close_date"@));
            assert(ok_bool(t, "is_closed"@));
            assert(Self::accepts(t));
            assert forall|w: Self| Self::decodes_from(t, w) implies #[trigger] w.eqv(v) by {
                assert(w.options@.len() == vec_str_trees(v.options@).len());
                assert forall|k: int| 0 <= k < w.options@.len() implies w.options@[k]@
                    == v.options@[k]@ by {
                    assert(vec_str_trees(v.options@)[k] == SpecJson::Str(v.options@[k]@));
                    assert(vec_str_trees(v.options@)[k] matches SpecJson::Str(s) && w.options@[k]@ == s);
                }
                assert(eqv_vec_string(w.options, v.options));
            }
        }
    }
}

impl RObject for InputMessagePoll {
    open spec fn tag_chars(&self) -> Seq<char> {
        Self::tag_spec()
    }

    open spec fn extra_spec(&self) -> Option<Seq<char>> {
        opt_str_view(self.extra)
    }

    fn td_name(&self) -> (r: &'static str) {
        "inputMessagePoll"
    }

    fn extra(&self) -> (r: Option<String>) {
        clone_opt_string(&self.extra)
    }

    fn to_json(&self) -> (r: Result<String, EncodeError>) {
        crate::object::encode(self)
    }
}

impl TDInputMessageContent for InputMessagePoll {

}

impl InputMessagePoll {
    pub fn from_json(json: &str) -> (r: Result<InputMessagePoll, DecodeError>)
        ensures
            match crate::parse::parse_doc(json@) {
                Some(t) => match r {
                    Ok(v) => Self::accepts(t) && Self::decodes_from(t, v),
                    Err(e) => !Self::accepts(t) && crate::errors::err_matches(e, Self::err_of(t)),
                },
                None => r matches Err(e) && e == DecodeError::Malformed,
            },
    {
        crate::object::from_json::<InputMessagePoll>(json)
    }

    pub fn builder() -> (r: RTDInputMessagePollBuilder)
        ensures
            r.inner.extra is Some,
            r.inner.question@ == Seq::<char>::empty(),
            r.inner.options@.len() == 0,
            r.inner.is_anonymous == false,
            r.inner.open_period == 0,
            r.inner.close_date == 0,
            r.inner.is_closed == false,
    {
        RTDInputMessagePollBuilder {
            inner: InputMessagePoll {
                extra: Some(new_token()),
                question: String::new(),
                options: Vec::new(),
                is_anonymous: false,
                open_period: 0,
                close_date: 0,
                is_closed: false,
            },
        }
    }

    pub fn question(&self) -> (r: &String)
        ensures
            *r == self.question,
    {
        &self.question
    }

    pub fn options(&self) -> (r: &Vec<String>)
        ensures
            *r == self.options,
    {
        &self.options
    }

    pub fn is_anonymous(&self) -> (r: bool)
        ensures
            r == self.is_anonymous,
    {
        self.is_anonymous
    }

    pub fn open_period(&self) -> (r: i64)
        ensures
            r == self.open_period,
    {
        self.open_period
    }

    pub fn close_date(&self) -> (r: i64)
        ensures
            r == self.close_date,
    {
        self.close_date
    }

    pub fn is_closed(&self) -> (r: bool)
        ensures
            r == self.is_closed,
    {
        self.is_closed
    }
}

pub struct RTDInputMessagePollBuilder {
    pub inner: InputMessagePoll,
}

impl RTDInputMessagePollBuilder {
    pub fn build(&self) -> (r: InputMessagePoll)
        ensures
            r.eqv(self.inner),
    {
        self.inner.clone()
    }

    pub fn question(&mut self, question: String) -> (r: &mut Self)
        ensures
            *r == (RTDInputMessagePollBuilder { inner: InputMessagePoll { question: question, ..old(self).inner } }),
            *final(self) == *final(r),
    {
        self.inner.question = question;
        self
    }

    pub fn options(&mut self, options: Vec<String>) -> (r: &mut Self)
        ensures
            *r == (RTDInputMessagePollBuilder { inner: InputMessagePoll { options: options, ..old(self).inner } }),
            *final(self) == *final(r),
    {
        self.inner.options = options;
        self
    }

    pub fn is_anonymous(&mut self, is_anonymous: bool) -> (r: &mut Self)
        ensures
            *r == (RTDInputMessagePollBuilder { inner: InputMessagePoll { is_anonymous: is_anonymous, ..old(self).inner } }),
            *final(self) == *final(r),
    {
        self.inner.is_anonymous = is_anonymous;
        self
    }

    pub fn open_period(&mut self, open_period: i64) -> (r: &mut Self)
        ensures
            *r == (RTDInputMessagePollBuilder { inner: InputMessagePoll { open_period: open_period, ..old(self).inner } }),
            *final(self) == *final(r),
    {
        self.inner.open_period = open_period;
        self
    }

    pub fn close_date(&mut self, close_date: i64) -> (r: &mut Self)
        ensures
            *r == (RTDInputMessagePollBuilder { inner: InputMessagePoll { close_date: close_date, ..old(self).inner } }),
            *final(self) == *final(r),
    {
        self.inner.close_date = close_date;
        self
    }

    pub fn is_closed(&mut self, is_closed: bool) -> (r: &mut Self)
        ensures
            *r == (RTDInputMessagePollBuilder { inner: InputMessagePoll { is_closed: is_closed, ..old(self).inner } }),
            *final(self) == *final(r),
    {
        self.inner.is_closed = is_closed;
        self
    }
}
/// A sticker message
#[derive(Debug, PartialEq)]
pub struct InputMessageSticker {
    pub extra: Option<String>,
    /// Sticker width
    pub width: i64,
    /// Sticker height
    pub height: i64,
    /// Emoji used to choose the sticker
    pub emoji: String,
}

impl InputMessageSticker {
    pub open spec fn tag_spec() -> Seq<char> {
        "inputMessageSticker"@
    }

    /// The members of the wire object, in the order they are written.
    pub open spec fn members_spec(self) -> Seq<(Seq<char>, SpecJson)> {
        seq![
            ("@type"@, SpecJson::Str(Self::tag_spec())),
            ("@extra"@, opt_str_tree(opt_str_view(self.extra))),
            ("width"@, SpecJson::Num(i64_lex(self.width as int))),
            ("height"@, SpecJson::Num(i64_lex(self.height as int))),
            ("emoji"@, SpecJson::Str(self.emoji@)),
        ]
    }

    pub open spec fn fields_ok(t: SpecJson) -> bool {
        &&& ok_opt_str(t, "@extra"@)
        &&& ok_i64(t, "width"@)
        &&& ok_i64(t, "height"@)
        &&& ok_str(t, "emoji"@)
    }

    pub open spec fn fail_field(t: SpecJson) -> Seq<char> {
        if !ok_opt_str(t, "@extra"@) {
            "@extra"@
        } else if !(ok_i64(t, "width"@)) {
            "width"@
        } else if !(ok_i64(t, "height"@)) {
            "height"@
        } else if !(ok_str(t, "emoji"@)) {
            "emoji"@
        } else {
            Seq::empty()
        }
    }

    /// The encoding of a value carries exactly this type's tag.
    pub proof fn lemma_wire_tag(v: InputMessageSticker)
        ensures
            v.wire_tree() matches Some(t) ==> tag_of(t) == Some(InputMessageSticker::tag_spec()),
    {
        if v.wire_tree() is Some {
            let t = v.wire_tree()->0;
            let ms = t->Obj_0;
            lemma_get_spec_found(ms, "@type"@, 0);
        }
    }
}

impl Clone for InputMessageSticker {
    fn clone(&self) -> (res: Self)
        ensures
            res.eqv(*self),
    {
        InputMessageSticker {
            extra: clone_opt_string(&self.extra),
            width: self.width,
            height: self.height,
            emoji: self.emoji.clone(),
        }
    }
}

impl Wire for InputMessageSticker {
    open spec fn wire_tree(self) -> Option<SpecJson> {
        Some(SpecJson::Obj(self.members_spec()))
    }

    open spec fn accepts(t: SpecJson) -> bool {
        tag_of(t) is Some && Self::fields_ok(t)
    }

    open spec fn err_of(t: SpecJson) -> SpecDecodeError {
        match tag_of(t) {
            None => SpecDecodeError::Malformed,
            Some(_) => SpecDecodeError::FieldShapeMismatch(Self::tag_spec(), Self::fail_field(t)),
        }
    }

    open spec fn decodes_from(t: SpecJson, v: Self) -> bool {
        &&& m_opt_str(t, "@extra"@, v.extra)
        &&& m_i64(t, "width"@, v.width)
        &&& m_i64(t, "height"@, v.height)
        &&& m_str(t, "emoji"@, v.emoji@)
    }

    open spec fn eqv(self, other: Self) -> bool {
        &&& eqv_opt_string(self.extra, other.extra)
        &&& self.width == other.width
        &&& self.height == other.height
        &&& self.emoji@ == other.emoji@
    }

    fn clone_val(&self) -> (r: Self) {
        self.clone()
    }

    fn decode_tree(t: &JsonValue) -> (r: Result<Self, DecodeError>) {
        if get_tag(t).is_none() {
            return Err(DecodeError::Malformed);
        }
        let extra = match field_opt_string(t, "@extra") {
            Some(x) => x,
            None => {
                return Err(DecodeError::FieldShapeMismatch(
                    String::from_str("inputMessageSticker"),
                    String::from_str("@extra"),
                ));
            },
        };
        let width = match field_i64(t, "width") {
            Some(x) => x,
            None => {
                return Err(DecodeError::FieldShapeMismatch(
                    String::from_str("inputMessageSticker"),
                    String::from_str("width"),
                ));
            },
        };
        let height = match field_i64(t, "height") {
            Some(x) => x,
            None => {
                return Err(DecodeError::FieldShapeMismatch(
                    String::from_str("inputMessageSticker"),
                    String::from_str("height"),
                ));
            },
        };
        let emoji = match field_string(t, "emoji") {
            Some(x) => x,
            None => {
                return Err(DecodeError::FieldShapeMismatch(
                    String::from_str("inputMessageSticker"),
                    String::from_str("emoji"),
                ));
            },
        };
        Ok(InputMessageSticker { extra, width, height, emoji })
    }

    fn encode_tree(&self) -> (r: Result<JsonValue, EncodeError>) {
        let mut members: Vec<JsonMember> = Vec::new();
        proof {
            assert(view_members(members@) =~= Seq::<(Seq<char>, SpecJson)>::empty());
        }
        push_member(&mut members, "@type", JsonValue::Str(String::from_str("inputMessageSticker")));
        push_member(&mut members, "@extra", opt_string_tree(&self.extra));
        push_member(&mut members, "width", JsonValue::Num(i64_lexeme(self.width)));
        push_member(&mut members, "height", JsonValue::Num(i64_lexeme(self.height)));
        push_member(&mut members, "emoji", JsonValue::Str(self.emoji.clone()));
        let node = JsonValue::Obj(members);
        proof {
            assert(view_members(members@) =~= self.members_spec());
            assert(node@ == self.wire_tree()->0);
        }
        Ok(node)
    }

    proof fn lemma_wire_wf(v: Self) {
        if v.wire_tree() is Some {
            let t = v.wire_tree()->0;
            let ms = t->Obj_0;
            assert(ms == v.members_spec());
            crate::json::lemma_i64_lex(v.width);
            crate::json::lemma_i64_lex(v.height);
            assert forall|i: int| 0 <= i < ms.len() implies wf(#[trigger] ms[i].1) by {
            }
        }
    }

    proof fn lemma_round_trip(v: Self) {
        if v.wire_tree() is Some {
            let t = v.wire_tree()->0;
            let ms = t->Obj_0;
            assert(ms == v.members_spec());
            reveal_strlit("@type");
            reveal_strlit("@extra");
            reveal_strlit("width");
            reveal_strlit("height");
            reveal_strlit("emoji");
            assert("@type"@.len() == 5);
            assert("@extra"@.len() == 6);
            assert("width"@.len() == 5);
            assert("height"@.len() == 6);
            assert("emoji"@.len() == 5);
            assert("@type"@[0] == '@' && "width"@[0] == 'w');
            assert("@type"@[0] == '@' && "emoji"@[0] == 'e');
            assert("@extra"@[0] == '@' && "height"@[0] == 'h');
            assert("width"@[0] == 'w' && "emoji"@[0] == 'e');
            reveal_with_fuel(get_spec, 7);
            lemma_get_spec_found(ms, "@type"@, 0);
            lemma_get_spec_found(ms, "@extra"@, 1);
            lemma_get_spec_found(ms, "width"@, 2);
            lemma_get_spec_found(ms, "height"@, 3);
            lemma_get_spec_found(ms, "emoji"@, 4);
            assert(tag_of(t) == Some(Self::tag_spec()));
            assert(ok_opt_str(t, "@extra"@));
            crate::json::lemma_i64_lex(v.width);
            assert(ok_i64(t, "width"@));
            crate::json::lemma_i64_lex(v.height);
            assert(ok_i64(t, "height"@));
            assert(ok_str(t, "emoji"@));
            assert(Self::accepts(t));
            assert forall|w: Self| Self::decodes_from(t, w) implies #[trigger] w.eqv(v) by {
            }
        }
    }
}

impl RObject for InputMessageSticker {
    open spec fn tag_chars(&self) -> Seq<char> {
        Self::tag_spec()
    }

    open spec fn extra_spec(&self) -> Option<Seq<char>> {
        opt_str_view(self.extra)
    }

    fn td_name(&self) -> (r: &'static str) {
        "inputMessageSticker"
    }

    fn extra(&self) -> (r: Option<String>) {
        clone_opt_string(&self.extra)
    }

    fn to_json(&self) -> (r: Result<String, EncodeError>) {
        crate::object::encode(self)
    }
}

impl TDInputMessageContent for InputMessageSticker {

}

impl InputMessageSticker {
    pub fn from_json(json: &str) -> (r: Result<InputMessageSticker, DecodeError>)
        ensures
            match crate::parse::parse_doc(json@) {
                Some(t) => match r {
                    Ok(v) => Self::accepts(t) && Self::decodes_from(t, v),
                    Err(e) => !Self::accepts(t) && crate::errors::err_matches(e, Self::err_of(t)),
                },
                None => r matches Err(e) && e == DecodeError::Malformed,
            },
    {
        crate::object::from_json::<InputMessageSticker>(json)
    }

    pub fn builder() -> (r: RTDInputMessageStickerBuilder)
        ensures
            r.inner.extra is Some,
            r.inner.width == 0,
            r.inner.height == 0,
            r.inner.emoji@ == Seq::<char>::empty(),
    {
        RTDInputMessageStickerBuilder {
            inner: InputMessageSticker {
                extra: Some(new_token()),
                width: 0,
                height: 0,
                emoji: String::new(),
            },
        }
    }

    pub fn width(&self) -> (r: i64)
        ensures
            r == self.width,
    {
        self.width
    }

    pub fn height(&self) -> (r: i64)
        ensures
            r == self.height,
    {
        self.height
    }

    pub fn emoji(&self) -> (r: &String)
        ensures
            *r == self.emoji,
    {
        &self.emoji
    }
}

pub struct RTDInputMessageStickerBuilder {
    pub inner: InputMessageSticker,
}

impl RTDInputMessageStickerBuilder {
    pub fn build(&self) -> (r: InputMessageSticker)
        ensures
            r.eqv(self.inner),
    {
        self.inner.clone()
    }

    pub fn width(&mut self, width: i64) -> (r: &mut Self)
        ensures
            *r == (RTDInputMessageStickerBuilder { inner: InputMessageSticker { width: width, ..old(self).inner } }),
            *final(self) == *final(r),
    {
        self.inner.width = width;
        self
    }

    pub fn height(&mut self, height: i64) -> (r: &mut Self)
        ensures
            *r == (RTDInputMessageStickerBuilder { inner: InputMessageSticker { height: height, ..old(self).inner } }),
            *final(self) == *final(r),
    {
        self.inner.height = height;
        self
    }

    pub fn emoji(&mut self, emoji: String) -> (r: &mut Self)
        ensures
            *r == (RTDInputMessageStickerBuilder { inner: InputMessageSticker { emoji: emoji, ..old(self).inner } }),
            *final(self) == *final(r),
    {
        self.inner.emoji = emoji;
        self
    }
}
/// A text message
#[derive(Debug, PartialEq)]
pub struct InputMessageText {
    pub extra: Option<String>,
    /// True, if rich web page previews for URLs in the message text must be disabled
    pub disable_web_page_preview: bool,
    /// True, if a chat message draft must be deleted
    pub clear_draft: bool,
}

impl InputMessageText {
    pub open spec fn tag_spec() -> Seq<char> {
        "inputMessageText"@
    }

    /// The members of the wire object, in the order they are written.
    pub open spec fn members_spec(self) -> Seq<(Seq<char>, SpecJson)> {
        seq![
            ("@type"@, SpecJson::Str(Self::tag_spec())),
            ("@extra"@, opt_str_tree(opt_str_view(self.extra))),
            ("disable_web_page_preview"@, SpecJson::Bool(self.disable_web_page_preview)),
            ("clear_draft"@, SpecJson::Bool(self.clear_draft)),
        ]
    }

    pub open spec fn fields_ok(t: SpecJson) -> bool {
        &&& ok_opt_str(t, "@extra"@)
        &&& ok_bool(t, "disable_web_page_preview"@)
        &&& ok_bool(t, "clear_draft"@)
    }

    pub open spec fn fail_field(t: SpecJson) -> Seq<char> {
        if !ok_opt_str(t, "@extra"@) {
            "@extra"@
        } else if !(ok_bool(t, "disable_web_page_preview"@)) {
            "disable_web_page_preview"@
        } else if !(ok_bool(t, "clear_draft"@)) {
            "clear_draft"@
        } else {
            Seq::empty()
        }
    }

    /// The encoding of a value carries exactly this type's tag.
    pub proof fn lemma_wire_tag(v: InputMessageText)
        ensures
            v.wire_tree() matches Some(t) ==> tag_of(t) == Some(InputMessageText::tag_spec()),
    {
        if v.wire_tree() is Some {
            let t = v.wire_tree()->0;
            let ms = t->Obj_0;
            lemma_get_spec_found(ms, "@type"@, 0);
        }
    }
}

impl Clone for InputMessageText {
    fn clone(&self) -> (res: Self)
        ensures
            res.eqv(*self),
    {
        InputMessageText {
            extra: clone_opt_string(&self.extra),
            disable_web_page_preview: self.disable_web_page_preview,
            clear_draft: self.clear_draft,
        }
    }
}

impl Wire for InputMessageText {
    open spec fn wire_tree(self) -> Option<SpecJson> {
        Some(SpecJson::Obj(self.members_spec()))
    }

    open spec fn accepts(t: SpecJson) -> bool {
        tag_of(t) is Some && Self::fields_ok(t)
    }

    open spec fn err_of(t: SpecJson) -> SpecDecodeError {
        match tag_of(t) {
            None => SpecDecodeError::Malformed,
            Some(_) => SpecDecodeError::FieldShapeMismatch(Self::tag_spec(), Self::fail_field(t)),
        }
    }

    open spec fn decodes_from(t: SpecJson, v: Self) -> bool {
        &&& m_opt_str(t, "@extra"@, v.extra)
        &&& m_bool(t, "disable_web_page_preview"@, v.disable_web_page_preview)
        &&& m_bool(t, "clear_draft"@, v.clear_draft)
    }

    open spec fn eqv(self, other: Self) -> bool {
        &&& eqv_opt_string(self.extra, other.extra)
        &&& self.disable_web_page_preview == other.disable_web_page_preview
        &&& self.clear_draft == other.clear_draft
    }

    fn clone_val(&self) -> (r: Self) {
        self.clone()
    }

    fn decode_tree(t: &JsonValue) -> (r: Result<Self, DecodeError>) {
        if get_tag(t).is_none() {
            return Err(DecodeError::Malformed);
        }
        let extra = match field_opt_string(t, "@extra") {
            Some(x) => x,
            None => {
                return Err(DecodeError::FieldShapeMismatch(
                    String::from_str("inputMessageText"),
                    String::from_str("@extra"),
                ));
            },
        };
        let disable_web_page_preview = match field_bool(t, "disable_web_page_preview") {
            Some(x) => x,
            None => {
                return Err(DecodeError::FieldShapeMismatch(
                    String::from_str("inputMessageText"),
                    String::from_str("disable_web_page_preview"),
                ));
            },
        };
        let clear_draft = match field_bool(t, "clear_draft") {
            Some(x) => x,
            None => {
                return Err(DecodeError::FieldShapeMismatch(
                    String::from_str("inputMessageText"),
                    String::from_str("clear_draft"),
                ));
            },
        };
        Ok(InputMessageText { extra, disable_web_page_preview, clear_draft })
    }

    fn encode_tree(&self) -> (r: Result<JsonValue, EncodeError>) {
        let mut members: Vec<JsonMember> = Vec::new();
        proof {
            assert(view_members(members@) =~= Seq::<(Seq<char>, SpecJson)>::empty());
        }
        push_member(&mut members, "@type", JsonValue::Str(String::from_str("inputMessageText")));
        push_member(&mut members, "@extra", opt_string_tree(&self.extra));
        push_member(&mut members, "disable_web_page_preview", JsonValue::Bool(self.disable_web_page_preview));
        push_member(&mut members, "clear_draft", JsonValue::Bool(self.clear_draft));
        let node = JsonValue::Obj(members);
        proof {
            assert(view_members(members@) =~= self.members_spec());
            assert(node@ == self.wire_tree()->0);
        }
        Ok(node)
    }

    proof fn lemma_wire_wf(v: Self) {
        if v.wire_tree() is Some {
            let t = v.wire_tree()->0;
            let ms = t->Obj_0;
            assert(ms == v.members_spec());
            assert forall|i: int| 0 <= i < ms.len() implies wf(#[trigger] ms[i].1) by {
            }
        }
    }

    proof fn lemma_round_trip(v: Self) {
        if v.wire_tree() is Some {
            let t = v.wire_tree()->0;
            let ms = t->Obj_0;
            assert(ms == v.members_spec());
            reveal_strlit("@type");
            reveal_strlit("@extra");
            reveal_strlit("disable_web_page_preview");
            reveal_strlit("clear_draft");
            assert("@type"@.len() == 5);
            assert("@extra"@.len() == 6);
            assert("disable_web_page_preview"@.len() == 24);
            assert("clear_draft"@.len() == 11);
            reveal_with_fuel(get_spec, 6);
            lemma_get_spec_found(ms, "@type"@, 0);
            lemma_get_spec_found(ms, "@extra"@, 1);
            lemma_get_spec_found(ms, "disable_web_page_preview"@, 2);
            lemma_get_spec_found(ms, "clear_draft"@, 3);
            assert(tag_of(t) == Some(Self::tag_spec()));
            assert(ok_opt_str(t, "@extra"@));
            assert(ok_bool(t, "disable_web_page_preview"@));
            assert(ok_bool(t, "clear_draft"@));
            assert(Self::accepts(t));
            assert forall|w: Self| Self::decodes_from(t, w) implies #[trigger] w.eqv(v) by {
            }
        }
    }
}

impl RObject for InputMessageText {
    open spec fn tag_chars(&self) -> Seq<char> {
        Self::tag_spec()
    }

    open spec fn extra_spec(&self) -> Option<Seq<char>> {
        opt_str_view(self.extra)
    }

    fn td_name(&self) -> (r: &'static str) {
        "inputMessageText"
    }

    fn extra(&self) -> (r: Option<String>) {
        clone_opt_string(&self.extra)
    }

    fn to_json(&self) -> (r: Result<String, EncodeError>) {
        crate::object::encode(self)
    }
}

impl TDInputMessageContent for InputMessageText {

}

impl InputMessageText {
    pub fn from_json(json: &str) -> (r: Result<InputMessageText, DecodeError>)
        ensures
            match crate::parse::parse_doc(json@) {
                Some(t) => match r {
                    Ok(v) => Self::accepts(t) && Self::decodes_from(t, v),
                    Err(e) => !Self::accepts(t) && crate::errors::err_matches(e, Self::err_of(t)),
                },
                None => r matches Err(e) && e == DecodeError::Malformed,
            },
    {
        crate::object::from_json::<InputMessageText>(json)
    }

    pub fn builder() -> (r: RTDInputMessageTextBuilder)
        ensures
            r.inner.extra is Some,
            r.inner.disable_web_page_preview == false,
            r.inner.clear_draft == false,
    {
        RTDInputMessageTextBuilder {
            inner: InputMessageText {
                extra: Some(new_token()),
                disable_web_page_preview: false,
                clear_draft: false,
            },
        }
    }

    pub fn disable_web_page_preview(&self) -> (r: bool)
        ensures
            r == self.disable_web_page_preview,
    {
        self.disable_web_page_preview
    }

    pub fn clear_draft(&self) -> (r: bool)
        ensures
            r == self.clear_draft,
    {
        self.clear_draft
    }
}

pub struct RTDInputMessageTextBuilder {
    pub inner: InputMessageText,
}

impl RTDInputMessageTextBuilder {
    pub fn build(&self) -> (r: InputMessageText)
        ensures
            r.eqv(self.inner),
    {
        self.inner.clone()
    }

    pub fn disable_web_page_preview(&mut self, disable_web_page_preview: bool) -> (r: &mut Self)
        ensures
            *r == (RTDInputMessageTextBuilder { inner: InputMessageText { disable_web_page_preview: disable_web_page_preview, ..old(self).inner } }),
            *final(self) == *final(r),
    {
        self.inner.disable_web_page_preview = disable_web_page_preview;
        self
    }

    pub fn clear_draft(&mut self, clear_draft: bool) -> (r: &mut Self)
        ensures
            *r == (RTDInputMessageTextBuilder { inner: InputMessageText { clear_draft: clear_draft, ..old(self).inner } }),
            *final(self) == *final(r),
    {
        self.inner.clear_draft = clear_draft;
        self
    }
}
/// A message with information about a venue
#[derive(Debug, PartialEq)]
pub struct InputMessageVenue {
    pub extra: Option<String>,
}

impl InputMessageVenue {
    pub open spec fn tag_spec() -> Seq<char> {
        "inputMessageVenue"@
    }

    /// The members of the wire object, in the order they are written.
    pub open spec fn members_spec(self) -> Seq<(Seq<char>, SpecJson)> {
        seq![
            ("@type"@, SpecJson::Str(Self::tag_spec())),
            ("@extra"@, opt_str_tree(opt_str_view(self.extra))),
        ]
    }

    pub open spec fn fields_ok(t: SpecJson) -> bool {
        &&& ok_opt_str(t, "@extra"@)
    }

    pub open spec fn fail_field(t: SpecJson) -> Seq<char> {
        if !ok_opt_str(t, "@extra"@) {
            "@extra"@
        } else {
            Seq::empty()
        }
    }

    /// The encoding of a value carries exactly this type's tag.
    pub proof fn lemma_wire_tag(v: InputMessageVenue)
        ensures
            v.wire_tree() matches Some(t) ==> tag_of(t) == Some(InputMessageVenue::tag_spec()),
    {
        if v.wire_tree() is Some {
            let t = v.wire_tree()->0;
            let ms = t->Obj_0;
            lemma_get_spec_found(ms, "@type"@, 0);
        }
    }
}

impl Clone for InputMessageVenue {
    fn clone(&self) -> (res: Self)
        ensures
            res.eqv(*self),
    {
        InputMessageVenue {
            extra: clone_opt_string(&self.extra),
        }
    }
}

impl Wire for InputMessageVenue {
    open spec fn wire_tree(self) -> Option<SpecJson> {
        Some(SpecJson::Obj(self.members_spec()))
    }

    open spec fn accepts(t: SpecJson) -> bool {
        tag_of(t) is Some && Self::fields_ok(t)
    }

    open spec fn err_of(t: SpecJson) -> SpecDecodeError {
        match tag_of(t) {
            None => SpecDecodeError::Malformed,
            Some(_) => SpecDecodeError::FieldShapeMismatch(Self::tag_spec(), Self::fail_field(t)),
        }
    }

    open spec fn decodes_from(t: SpecJson, v: Self) -> bool {
        &&& m_opt_str(t, "@extra"@, v.extra)
    }

    open spec fn eqv(self, other: Self) -> bool {
        &&& eqv_opt_string(self.extra, other.extra)
    }

    fn clone_val(&self) -> (r: Self) {
        self.clone()
    }

    fn decode_tree(t: &JsonValue) -> (r: Result<Self, DecodeError>) {
        if get_tag(t).is_none() {
            return Err(DecodeError::Malformed);
        }
        let extra = match field_opt_string(t, "@extra") {
            Some(x) => x,
            None => {
                return Err(DecodeError::FieldShapeMismatch(
                    String::from_str("inputMessageVenue"),
                    String::from_str("@extra"),
                ));
            },
        };
        Ok(InputMessageVenue { extra })
    }

    fn encode_tree(&self) -> (r: Result<JsonValue, EncodeError>) {
        let mut members: Vec<JsonMember> = Vec::new();
        proof {
            assert(view_members(members@) =~= Seq::<(Seq<char>, SpecJson)>::empty());
        }
        push_member(&mut members, "@type", JsonValue::Str(String::from_str("inputMessageVenue")));
        push_member(&mut members, "@extra", opt_string_tree(&self.extra));
        let node = JsonValue::Obj(members);
        proof {
            assert(view_members(members@) =~= self.members_spec());
            assert(node@ == self.wire_tree()->0);
        }
        Ok(node)
    }

    proof fn lemma_wire_wf(v: Self) {
        if v.wire_tree() is Some {
            let t = v.wire_tree()->0;
            let ms = t->Obj_0;
            assert(ms == v.members_spec());
            assert forall|i: int| 0 <= i < ms.len() implies wf(#[trigger] ms[i].1) by {
            }
        }
    }

    proof fn lemma_round_trip(v: Self) {
        if v.wire_tree() is Some {
            let t = v.wire_tree()->0;
            let ms = t->Obj_0;
            assert(ms == v.members_spec());
            reveal_strlit("@type");
            reveal_strlit("@extra");
            assert("@type"@.len() == 5);
            assert("@extra"@.len() == 6);
            reveal_with_fuel(get_spec, 4);
            lemma_get_spec_found(ms, "@type"@, 0);
            lemma_get_spec_found(ms, "@extra"@, 1);
            assert(tag_of(t) == Some(Self::tag_spec()));
            assert(ok_opt_str(t, "@extra"@));
            assert(Self::accepts(t));
            assert forall|w: Self| Self::decodes_from(t, w) implies #[trigger] w.eqv(v) by {
            }
        }
    }
}

impl RObject for InputMessageVenue {
    open spec fn tag_chars(&self) -> Seq<char> {
        Self::tag_spec()
    }

    open spec fn extra_spec(&self) -> Option<Seq<char>> {
        opt_str_view(self.extra)
    }

    fn td_name(&self) -> (r: &'static str) {
        "inputMessageVenue"
    }

    fn extra(&self) -> (r: Option<String>) {
        clone_opt_string(&self.extra)
    }

    fn to_json(&self) -> (r: Result<String, EncodeError>) {
        crate::object::encode(self)
    }
}

impl TDInputMessageContent for InputMessageVenue {

}

impl InputMessageVenue {
    pub fn from_json(json: &str) -> (r: Result<InputMessageVenue, DecodeError>)
        ensures
            match crate::parse::parse_doc(json@) {
                Some(t) => match r {
                    Ok(v) => Self::accepts(t) && Self::decodes_from(t, v),
                    Err(e) => !Self::accepts(t) && crate::errors::err_matches(e, Self::err_of(t)),
                },
                None => r matches Err(e) && e == DecodeError::Malformed,
            },
    {
        crate::object::from_json::<InputMessageVenue>(json)
    }

    pub fn builder() -> (r: RTDInputMessageVenueBuilder)
        ensures
            r.inner.extra is Some,
    {
        RTDInputMessageVenueBuilder {
            inner: InputMessageVenue {
                extra: Some(new_token()),
            },
        }
    }
}

pub struct RTDInputMessageVenueBuilder {
    pub inner: InputMessageVenue,
}

impl RTDInputMessageVenueBuilder {
    pub fn build(&self) -> (r: InputMessageVenue)
        ensures
            r.eqv(self.inner),
    {
        self.inner.clone()
    }
}
/// A video message
#[derive(Debug, PartialEq)]
pub struct InputMessageVideo {
    pub extra: Option<String>,
    /// File identifiers of the stickers added to the video, if applicable
    pub added_sticker_file_ids: Vec<i64>,
    /// Duration of the video, in seconds
    pub duration: i64,
    /// Video width
    pub width: i64,
    /// Video height
    pub height: i64,
    /// True, if the video is supposed to be streamed
    pub supports_streaming: bool,
    /// Video TTL (Time To Live), in seconds (0-60). A non-zero TTL can be specified only in private chats
    pub ttl: i64,
}

impl InputMessageVideo {
    pub open spec fn tag_spec() -> Seq<char> {
        "inputMessageVideo"@
    }

    /// The members of the wire object, in the order they are written.
    pub open spec fn members_spec(self) -> Seq<(Seq<char>, SpecJson)> {
        seq![
            ("@type"@, SpecJson::Str(Self::tag_spec())),
            ("@extra"@, opt_str_tree(opt_str_view(self.extra))),
            ("added_sticker_file_ids"@, SpecJson::Arr(vec_i64_trees(self.added_sticker_file_ids@))),
            ("duration"@, SpecJson::Num(i64_lex(self.duration as int))),
            ("width"@, SpecJson::Num(i64_lex(self.width as int))),
            ("height"@, SpecJson::Num(i64_lex(self.height as int))),
            ("supports_streaming"@, SpecJson::Bool(self.supports_streaming)),
            ("ttl"@, SpecJson::Num(i64_lex(self.ttl as int))),
        ]
    }

    pub open spec fn fields_ok(t: SpecJson) -> bool {
        &&& ok_opt_str(t, "@extra"@)
        &&& ok_vec_i64(t, "added_sticker_file_ids"@)
        &&& ok_i64(t, "duration"@)
        &&& ok_i64(t, "width"@)
        &&& ok_i64(t, "height"@)
        &&& ok_bool(t, "supports_streaming"@)
        &&& ok_i64(t, "ttl"@)
    }

    pub open spec fn fail_field(t: SpecJson) -> Seq<char> {
        if !ok_opt_str(t, "@extra"@) {
            "@extra"@
        } else if !(ok_vec_i64(t, "added_sticker_file_ids"@)) {
            "added_sticker_file_ids"@
        } else if !(ok_i64(t, "duration"@)) {
            "duration"@
        } else if !(ok_i64(t, "width"@)) {
            "width"@
        } else if !(ok_i64(t, "height"@)) {
            "height"@
        } else if !(ok_bool(t, "supports_streaming"@)) {
            "supports_streaming"@
        } else if !(ok_i64(t, "ttl"@)) {
            "ttl"@
        } else {
            Seq::empty()
        }
    }

    /// The encoding of a value carries exactly this type's tag.
    pub proof fn lemma_wire_tag(v: InputMessageVideo)
        ensures
            v.wire_tree() matches Some(t) ==> tag_of(t) == Some(InputMessageVideo::tag_spec()),
    {
        if v.wire_tree() is Some {
            let t = v.wire_tree()->0;
            let ms = t->Obj_0;
            lemma_get_spec_found(ms, "@type"@, 0);
        }
    }
}

impl Clone for InputMessageVideo {
    fn clone(&self) -> (res: Self)
        ensures
            res.eqv(*self),
    {
        InputMessageVideo {
            extra: clone_opt_string(&self.extra),
            added_sticker_file_ids: clone_vec_i64(&self.added_sticker_file_ids),
            duration: self.duration,
            width: self.width,
            height: self.height,
            supports_streaming: self.supports_streaming,
            ttl: self.ttl,
        }
    }
}

impl Wire for InputMessageVideo {
    open spec fn wire_tree(self) -> Option<SpecJson> {
        Some(SpecJson::Obj(self.members_spec()))
    }

    open spec fn accepts(t: SpecJson) -> bool {
        tag_of(t) is Some && Self::fields_ok(t)
    }

    open spec fn err_of(t: SpecJson) -> SpecDecodeError {
        match tag_of(t) {
            None => SpecDecodeError::Malformed,
            Some(_) => SpecDecodeError::FieldShapeMismatch(Self::tag_spec(), Self::fail_field(t)),
        }
    }

    open spec fn decodes_from(t: SpecJson, v: Self) -> bool {
        &&& m_opt_str(t, "@extra"@, v.extra)
        &&& m_vec_i64(t, "added_sticker_file_ids"@, v.added_sticker_file_ids)
        &&& m_i64(t, "duration"@, v.duration)
        &&& m_i64(t, "width"@, v.width)
        &&& m_i64(t, "height"@, v.height)
        &&& m_bool(t, "supports_streaming"@, v.supports_streaming)
        &&& m_i64(t, "ttl"@, v.ttl)
    }

    open spec fn eqv(self, other: Self) -> bool {
        &&& eqv_opt_string(self.extra, other.extra)
        &&& self.added_sticker_file_ids@ == other.added_sticker_file_ids@
        &&& self.duration == other.duration
        &&& self.width == other.width
        &&& self.height == other.height
        &&& self.supports_streaming == other.supports_streaming
        &&& self.ttl == other.ttl
    }

    fn clone_val(&self) -> (r: Self) {
        self.clone()
    }

    #[verifier::rlimit(30)]
    #[verifier::spinoff_prover]
    fn decode_tree(t: &JsonValue) -> (r: Result<Self, DecodeError>) {
        if get_tag(t).is_none() {
            return Err(DecodeError::Malformed);
        }
        let extra = match field_opt_string(t, "@extra") {
            Some(x) => x,
            None => {
                return Err(DecodeError::FieldShapeMismatch(
                    String::from_str("inputMessageVideo"),
                    String::from_str("@extra"),
                ));
            },
        };
        let added_sticker_file_ids = match get_field(t, "added_sticker_file_ids") {
            Some(JsonValue::Arr(arr)) => match decode_vec_i64(arr) {
                Some(x) => x,
                None => {
                    return Err(DecodeError::FieldShapeMismatch(
                    String::from_str("inputMessageVideo"),
                    String::from_str("added_sticker_file_ids"),
                ));
                },
            },
            _ => {
                return Err(DecodeError::FieldShapeMismatch(
                    String::from_str("inputMessageVideo"),
                    String::from_str("added_sticker_file_ids"),
                ));
            },
        };
        let duration = match field_i64(t, "duration") {
            Some(x) => x,
            None => {
                return Err(DecodeError::FieldShapeMismatch(
                    String::from_str("inputMessageVideo"),
                    String::from_str("duration"),
                ));
            },
        };
        let width = match field_i64(t, "width") {
            Some(x) => x,
            None => {
                return Err(DecodeError::FieldShapeMismatch(
                    String::from_str("inputMessageVideo"),
                    String::from_str("width"),
                ));
            },
        };
        let height = match field_i64(t, "height") {
            Some(x) => x,
            None => {
                return Err(DecodeError::FieldShapeMismatch(
                    String::from_str("inputMessageVideo"),
                    String::from_str("height"),
                ));
            },
        };
        let supports_streaming = match field_bool(t, "supports_streaming") {
            Some(x) => x,
            None => {
                return Err(DecodeError::FieldShapeMismatch(
                    String::from_str("inputMessageVideo"),
                    String::from_str("supports_streaming"),
                ));
            },
        };
        let ttl = match field_i64(t, "ttl") {
            Some(x) => x,
            None => {
                return Err(DecodeError::FieldShapeMismatch(
                    String::from_str("inputMessageVideo"),
                    String::from_str("ttl"),
                ));
            },
        };
        Ok(InputMessageVideo { extra, added_sticker_file_ids, duration, width, height, supports_streaming, ttl })
    }

    #[verifier::rlimit(30)]
    #[verifier::spinoff_prover]
    fn encode_tree(&self) -> (r: Result<JsonValue, EncodeError>) {
        let mut members: Vec<JsonMember> = Vec::new();
        proof {
            assert(view_members(members@) =~= Seq::<(Seq<char>, SpecJson)>::empty());
        }
        push_member(&mut members, "@type", JsonValue::Str(String::from_str("inputMessageVideo")));
        push_member(&mut members, "@extra", opt_string_tree(&self.extra));
        push_member(&mut members, "added_sticker_file_ids", JsonValue::Arr(encode_vec_i64(&self.added_sticker_file_ids)));
        push_member(&mut members, "duration", JsonValue::Num(i64_lexeme(self.duration)));
        push_member(&mut members, "width", JsonValue::Num(i64_lexeme(self.width)));
        push_member(&mut members, "height", JsonValue::Num(i64_lexeme(self.height)));
        push_member(&mut members, "supports_streaming", JsonValue::Bool(self.supports_streaming));
        push_member(&mut members, "ttl", JsonValue::Num(i64_lexeme(self.ttl)));
        let node = JsonValue::Obj(members);
        proof {
            assert(view_members(members@) =~= self.members_spec());
            assert(node@ == self.wire_tree()->0);
        }
        Ok(node)
    }

    proof fn lemma_wire_wf(v: Self) {
        if v.wire_tree() is Some {
            let t = v.wire_tree()->0;
            let ms = t->Obj_0;
            assert(ms == v.members_spec());
            assert forall|k: int| 0 <= k < vec_i64_trees(v.added_sticker_file_ids@).len() implies wf(
                #[trigger] vec_i64_trees(v.added_sticker_file_ids@)[k],
            ) by {
                crate::json::lemma_i64_lex(v.added_sticker_file_ids@[k]);
            }
            crate::json::lemma_i64_lex(v.duration);
            crate::json::lemma_i64_lex(v.width);
            crate::json::lemma_i64_lex(v.height);
            crate::json::lemma_i64_lex(v.ttl);
            assert forall|i: int| 0 <= i < ms.len() implies wf(#[trigger] ms[i].1) by {
            }
        }
    }

    #[verifier::rlimit(30)]
    #[verifier::spinoff_prover]
    proof fn lemma_round_trip(v: Self) {
        if v.wire_tree() is Some {
            let t = v.wire_tree()->0;
            let ms = t->Obj_0;
            assert(ms == v.members_spec());
            reveal_strlit("@type");
            reveal_strlit("@extra");
            reveal_strlit("added_sticker_file_ids");
            reveal_strlit("duration");
            reveal_strlit("width");
            reveal_strlit("height");
            reveal_strlit("supports_streaming");
            reveal_strlit("ttl");
            assert("@type"@.len() == 5);
            assert("@extra"@.len() == 6);
            assert("added_sticker_file_ids"@.len() == 22);
            assert("duration"@.len() == 8);
            assert("width"@.len() == 5);
            assert("height"@.len() == 6);
            assert("supports_streaming"@.len() == 18);
            assert("ttl"@.len() == 3);
            assert("@type"@[0] == '@' && "width"@[0] == 'w');
            assert("@extra"@[0] == '@' && "height"@[0] == 'h');
            reveal_with_fuel(get_spec, 10);
            lemma_get_spec_found(ms, "@type"@, 0);
            lemma_get_spec_found(ms, "@extra"@, 1);
            lemma_get_spec_found(ms, "added_sticker_file_ids"@, 2);
            lemma_get_spec_found(ms, "duration"@, 3);
            lemma_get_spec_found(ms, "width"@, 4);
            lemma_get_spec_found(ms, "height"@, 5);
            lemma_get_spec_found(ms, "supports_streaming"@, 6);
            lemma_get_spec_found(ms, "ttl"@, 7);
            assert(tag_of(t) == Some(Self::tag_spec()));
            assert(ok_opt_str(t, "@extra"@));
            assert(ok_vec_i64(t, "added_sticker_file_ids"@)) by {
                assert forall|k: int| 0 <= k < vec_i64_trees(v.added_sticker_file_ids@).len() implies
                    as_i64_spec(#[trigger] vec_i64_trees(v.added_sticker_file_ids@)[k]) == Some(v.added_sticker_file_ids@[k]) by {
                    crate::json::lemma_i64_lex(v.added_sticker_file_ids@[k]);
                }
            }
            crate::json::lemma_i64_lex(v.duration);
            assert(ok_i64(t, "duration"@));
            crate::json::lemma_i64_lex(v.width);
            assert(ok_i64(t, "width"@));
            crate::json::lemma_i64_lex(v.height);
            assert(ok_i64(t, "height"@));
            assert(ok_bool(t, "supports_streaming"@));
            crate::json::lemma_i64_lex(v.ttl);
            assert(ok_i64(t, "ttl"@));
            assert(Self::accepts(t));
            assert forall|w: Self| Self::decodes_from(t, w) implies #[trigger] w.eqv(v) by {
                assert forall|k: int| 0 <= k < w.added_sticker_file_ids@.len() implies w.added_sticker_file_ids@[k]
                    == v.added_sticker_file_ids@[k] by {
                    crate::json::lemma_i64_lex(v.added_sticker_file_ids@[k]);
                    assert(vec_i64_trees(v.added_sticker_file_ids@)[k] == SpecJson::Num(i64_lex(v.added_sticker_file_ids@[k] as int)));
                }
                assert(w.added_sticker_file_ids@ =~= v.added_sticker_file_ids@);
            }
        }
    }
}

impl RObject for InputMessageVideo {
    open spec fn tag_chars(&self) -> Seq<char> {
        Self::tag_spec()
    }

    open spec fn extra_spec(&self) -> Option<Seq<char>> {
        opt_str_view(self.extra)
    }

    fn td_name(&self) -> (r: &'static str) {
        "inputMessageVideo"
    }

    fn extra(&self) -> (r: Option<String>) {
        clone_opt_string(&self.extra)
    }

    fn to_json(&self) -> (r: Result<String, EncodeError>) {
        crate::object::encode(self)
    }
}

impl TDInputMessageContent for InputMessageVideo {

}

impl InputMessageVideo {
    pub fn from_json(json: &str) -> (r: Result<InputMessageVideo, DecodeError>)
        ensures
            match crate::parse::parse_doc(json@) {
                Some(t) => match r {
                    Ok(v) => Self::accepts(t) && Self::decodes_from(t, v),
                    Err(e) => !Self::accepts(t) && crate::errors::err_matches(e, Self::err_of(t)),
                },
                None => r matches Err(e) && e == DecodeError::Malformed,
            },
    {
        crate::object::from_json::<InputMessageVideo>(json)
    }

    pub fn builder() -> (r: RTDInputMessageVideoBuilder)
        ensures
            r.inner.extra is Some,
            r.inner.added_sticker_file_ids@.len() == 0,
            r.inner.duration == 0,
            r.inner.width == 0,
            r.inner.height == 0,
            r.inner.supports_streaming == false,
            r.inner.ttl == 0,
    {
        RTDInputMessageVideoBuilder {
            inner: InputMessageVideo {
                extra: Some(new_token()),
                added_sticker_file_ids: Vec::new(),
                duration: 0,
                width: 0,
                height: 0,
                supports_streaming: false,
                ttl: 0,
            },
        }
    }

    pub fn added_sticker_file_ids(&self) -> (r: &Vec<i64>)
        ensures
            *r == self.added_sticker_file_ids,
    {
        &self.added_sticker_file_ids
    }

    pub fn duration(&self) -> (r: i64)
        ensures
            r == self.duration,
    {
        self.duration
    }

    pub fn width(&self) -> (r: i64)
        ensures
            r == self.width,
    {
        self.width
    }

    pub fn height(&self) -> (r: i64)
        ensures
            r == self.height,
    {
        self.height
    }

    pub fn supports_streaming(&self) -> (r: bool)
        ensures
            r == self.supports_streaming,
    {
        self.supports_streaming
    }

    pub fn ttl(&self) -> (r: i64)
        ensures
            r == self.ttl,
    {
        self.ttl
    }
}

pub struct RTDInputMessageVideoBuilder {
    pub inner: InputMessageVideo,
}

impl RTDInputMessageVideoBuilder {
    pub fn build(&self) -> (r: InputMessageVideo)
        ensures
            r.eqv(self.inner),
    {
        self.inner.clone()
    }

    pub fn added_sticker_file_ids(&mut self, added_sticker_file_ids: Vec<i64>) -> (r: &mut Self)
        ensures
            *r == (RTDInputMessageVideoBuilder { inner: InputMessageVideo { added_sticker_file_ids: added_sticker_file_ids, ..old(self).inner } }),
            *final(self) == *final(r),
    {
        self.inner.added_sticker_file_ids = added_sticker_file_ids;
        self
    }

    pub fn duration(&mut self, duration: i64) -> (r: &mut Self)
        ensures
            *r == (RTDInputMessageVideoBuilder { inner: InputMessageVideo { duration: duration, ..old(self).inner } }),
            *final(self) == *final(r),
    {
        self.inner.duration = duration;
        self
    }

    pub fn width(&mut self, width: i64) -> (r: &mut Self)
        ensures
            *r == (RTDInputMessageVideoBuilder { inner: InputMessageVideo { width: width, ..old(self).inner } }),
            *final(self) == *final(r),
    {
        self.inner.width = width;
        self
    }

    pub fn height(&mut self, height: i64) -> (r: &mut Self)
        ensures
            *r == (RTDInputMessageVideoBuilder { inner: InputMessageVideo { height: height, ..old(self).inner } }),
            *final(self) == *final(r),
    {
        self.inner.height = height;
        self
    }

    pub fn supports_streaming(&mut self, supports_streaming: bool) -> (r: &mut Self)
        ensures
            *r == (RTDInputMessageVideoBuilder { inner: InputMessageVideo { supports_streaming: supports_streaming, ..old(self).inner } }),
            *final(self) == *final(r),
    {
        self.inner.supports_streaming = supports_streaming;
        self
    }

    pub fn ttl(&mut self, ttl: i64) -> (r: &mut Self)
        ensures
            *r == (RTDInputMessageVideoBuilder { inner: InputMessageVideo { ttl: ttl, ..old(self).inner } }),
            *final(self) == *final(r),
    {
        self.inner.ttl = ttl;
        self
    }
}
/// A video note message
#[derive(Debug, PartialEq)]
pub struct InputMessageVideoNote {
    pub extra: Option<String>,
    /// Duration of the video, in seconds
    pub duration: i64,
    /// Video width and height; must be positive and not greater than 640
    pub length: i64,
}

impl InputMessageVideoNote {
    pub open spec fn tag_spec() -> Seq<char> {
        "inputMessageVideoNote"@
    }

    /// The members of the wire object, in the order they are written.
    pub open spec fn members_spec(self) -> Seq<(Seq<char>, SpecJson)> {
        seq![
            ("@type"@, SpecJson::Str(Self::tag_spec())),
            ("@extra"@, opt_str_tree(opt_str_view(self.extra))),
            ("duration"@, SpecJson::Num(i64_lex(self.duration as int))),
            ("length"@, SpecJson::Num(i64_lex(self.length as int))),
        ]
    }

    pub open spec fn fields_ok(t: SpecJson) -> bool {
        &&& ok_opt_str(t, "@extra"@)
        &&& ok_i64(t, "duration"@)
        &&& ok_i64(t, "length"@)
    }

    pub open spec fn fail_field(t: SpecJson) -> Seq<char> {
        if !ok_opt_str(t, "@extra"@) {
            "@extra"@
        } else if !(ok_i64(t, "duration"@)) {
            "duration"@
        } else if !(ok_i64(t, "length"@)) {
            "length"@
        } else {
            Seq::empty()
        }
    }

    /// The encoding of a value carries exactly this type's tag.
    pub proof fn lemma_wire_tag(v: InputMessageVideoNote)
        ensures
            v.wire_tree() matches Some(t) ==> tag_of(t) == Some(InputMessageVideoNote::tag_spec()),
    {
        if v.wire_tree() is Some {
            let t = v.wire_tree()->0;
            let ms = t->Obj_0;
            lemma_get_spec_found(ms, "@type"@, 0);
        }
    }
}

impl Clone for InputMessageVideoNote {
    fn clone(&self) -> (res: Self)
        ensures
            res.eqv(*self),
    {
        InputMessageVideoNote {
            extra: clone_opt_string(&self.extra),
            duration: self.duration,
            length: self.length,
        }
    }
}

impl Wire for InputMessageVideoNote {
    open spec fn wire_tree(self) -> Option<SpecJson> {
        Some(SpecJson::Obj(self.members_spec()))
    }

    open spec fn accepts(t: SpecJson) -> bool {
        tag_of(t) is Some && Self::fields_ok(t)
    }

    open spec fn err_of(t: SpecJson) -> SpecDecodeError {
        match tag_of(t) {
            None => SpecDecodeError::Malformed,
            Some(_) => SpecDecodeError::FieldShapeMismatch(Self::tag_spec(), Self::fail_field(t)),
        }
    }

    open spec fn decodes_from(t: SpecJson, v: Self) -> bool {
        &&& m_opt_str(t, "@extra"@, v.extra)
        &&& m_i64(t, "duration"@, v.duration)
        &&& m_i64(t, "length"@, v.length)
    }

    open spec fn eqv(self, other: Self) -> bool {
        &&& eqv_opt_string(self.extra, other.extra)
        &&& self.duration == other.duration
        &&& self.length == other.length
    }

    fn clone_val(&self) -> (r: Self) {
        self.clone()
    }

    fn decode_tree(t: &JsonValue) -> (r: Result<Self, DecodeError>) {
        if get_tag(t).is_none() {
            return Err(DecodeError::Malformed);
        }
        let extra = match field_opt_string(t, "@extra") {
            Some(x) => x,
            None => {
                return Err(DecodeError::FieldShapeMismatch(
                    String::from_str("inputMessageVideoNote"),
                    String::from_str("@extra"),
                ));
            },
        };
        let duration = match field_i64(t, "duration") {
            Some(x) => x,
            None => {
                return Err(DecodeError::FieldShapeMismatch(
                    String::from_str("inputMessageVideoNote"),
                    String::from_str("duration"),
                ));
            },
        };
        let length = match field_i64(t, "length") {
            Some(x) => x,
            None => {
                return Err(DecodeError::FieldShapeMismatch(
                    String::from_str("inputMessageVideoNote"),
                    String::from_str("length"),
                ));
            },
        };
        Ok(InputMessageVideoNote { extra, duration, length })
    }

    fn encode_tree(&self) -> (r: Result<JsonValue, EncodeError>) {
        let mut members: Vec<JsonMember> = Vec::new();
        proof {
            assert(view_members(members@) =~= Seq::<(Seq<char>, SpecJson)>::empty());
        }
        push_member(&mut members, "@type", JsonValue::Str(String::from_str("inputMessageVideoNote")));
        push_member(&mut members, "@extra", opt_string_tree(&self.extra));
        push_member(&mut members, "duration", JsonValue::Num(i64_lexeme(self.duration)));
        push_member(&mut members, "length", JsonValue::Num(i64_lexeme(self.length)));
        let node = JsonValue::Obj(members);
        proof {
            assert(view_members(members@) =~= self.members_spec());
            assert(node@ == self.wire_tree()->0);
        }
        Ok(node)
    }

    proof fn lemma_wire_wf(v: Self) {
        if v.wire_tree() is Some {
            let t = v.wire_tree()->0;
            let ms = t->Obj_0;
            assert(ms == v.members_spec());
            crate::json::lemma_i64_lex(v.duration);
            crate::json::lemma_i64_lex(v.length);
            assert forall|i: int| 0 <= i < ms.len() implies wf(#[trigger] ms[i].1) by {
            }
        }
    }

    proof fn lemma_round_trip(v: Self) {
        if v.wire_tree() is Some {
            let t = v.wire_tree()->0;
            let ms = t->Obj_0;
            assert(ms == v.members_spec());
            reveal_strlit("@type");
            reveal_strlit("@extra");
            reveal_strlit("duration");
            reveal_strlit("length");
            assert("@type"@.len() == 5);
            assert("@extra"@.len() == 6);
            assert("duration"@.len() == 8);
            assert("length"@.len() == 6);
            assert("@extra"@[0] == '@' && "length"@[0] == 'l');
            reveal_with_fuel(get_spec, 6);
            lemma_get_spec_found(ms, "@type"@, 0);
            lemma_get_spec_found(ms, "@extra"@, 1);
            lemma_get_spec_found(ms, "duration"@, 2);
            lemma_get_spec_found(ms, "length"@, 3);
            assert(tag_of(t) == Some(Self::tag_spec()));
            assert(ok_opt_str(t, "@extra"@));
            crate::json::lemma_i64_lex(v.duration);
            assert(ok_i64(t, "duration"@));
            crate::json::lemma_i64_lex(v.length);
            assert(ok_i64(t, "length"@));
            assert(Self::accepts(t));
            assert forall|w: Self| Self::decodes_from(t, w) implies #[trigger] w.eqv(v) by {
            }
        }
    }
}

impl RObject for InputMessageVideoNote {
    open spec fn tag_chars(&self) -> Seq<char> {
        Self::tag_spec()
    }

    open spec fn extra_spec(&self) -> Option<Seq<char>> {
        opt_str_view(self.extra)
    }

    fn td_name(&self) -> (r: &'static str) {
        "inputMessageVideoNote"
    }

    fn extra(&self) -> (r: Option<String>) {
        clone_opt_string(&self.extra)
    }

    fn to_json(&self) -> (r: Result<String, EncodeError>) {
        crate::object::encode(self)
    }
}

impl TDInputMessageContent for InputMessageVideoNote {

}

impl InputMessageVideoNote {
    pub fn from_json(json: &str) -> (r: Result<InputMessageVideoNote, DecodeError>)
        ensures
            match crate::parse::parse_doc(json@) {
                Some(t) => match r {
                    Ok(v) => Self::accepts(t) && Self::decodes_from(t, v),
                    Err(e) => !Self::accepts(t) && crate::errors::err_matches(e, Self::err_of(t)),
                },
                None => r matches Err(e) && e == DecodeError::Malformed,
            },
    {
        crate::object::from_json::<InputMessageVideoNote>(json)
    }

    pub fn builder() -> (r: RTDInputMessageVideoNoteBuilder)
        ensures
            r.inner.extra is Some,
            r.inner.duration == 0,
            r.inner.length == 0,
    {
        RTDInputMessageVideoNoteBuilder {
            inner: InputMessageVideoNote {
                extra: Some(new_token()),
                duration: 0,
                length: 0,
            },
        }
    }

    pub fn duration(&self) -> (r: i64)
        ensures
            r == self.duration,
    {
        self.duration
    }

    pub fn length(&self) -> (r: i64)
        ensures
            r == self.length,
    {
        self.length
    }
}

pub struct RTDInputMessageVideoNoteBuilder {
    pub inner: InputMessageVideoNote,
}

impl RTDInputMessageVideoNoteBuilder {
    pub fn build(&self) -> (r: InputMessageVideoNote)
        ensures
            r.eqv(self.inner),
    {
        self.inner.clone()
    }

    pub fn duration(&mut self, duration: i64) -> (r: &mut Self)
        ensures
            *r == (RTDInputMessageVideoNoteBuilder { inner: InputMessageVideoNote { duration: duration, ..old(self).inner } }),
            *final(self) == *final(r),
    {
        self.inner.duration = duration;
        self
    }

    pub fn length(&mut self, length: i64) -> (r: &mut Self)
        ensures
            *r == (RTDInputMessageVideoNoteBuilder { inner: InputMessageVideoNote { length: length, ..old(self).inner } }),
            *final(self) == *final(r),
    {
        self.inner.length = length;
        self
    }
}
/// A voice note message
#[derive(Debug, PartialEq)]
pub struct InputMessageVoiceNote {
    pub extra: Option<String>,
    /// Duration of the voice note, in seconds
    pub duration: i64,
    /// Waveform representation of the voice note, in 5-bit format
    pub waveform: String,
}

impl InputMessageVoiceNote {
    pub open spec fn tag_spec() -> Seq<char> {
        "inputMessageVoiceNote"@
    }

    /// The members of the wire object, in the order they are written.
    pub open spec fn members_spec(self) -> Seq<(Seq<char>, SpecJson)> {
        seq![
            ("@type"@, SpecJson::Str(Self::tag_spec())),
            ("@extra"@, opt_str_tree(opt_str_view(self.extra))),
            ("duration"@, SpecJson::Num(i64_lex(self.duration as int))),
            ("waveform"@, SpecJson::Str(self.waveform@)),
        ]
    }

    pub open spec fn fields_ok(t: SpecJson) -> bool {
        &&& ok_opt_str(t, "@extra"@)
        &&& ok_i64(t, "duration"@)
        &&& ok_str(t, "waveform"@)
    }

    pub open spec fn fail_field(t: SpecJson) -> Seq<char> {
        if !ok_opt_str(t, "@extra"@) {
            "@extra"@
        } else if !(ok_i64(t, "duration"@)) {
            "duration"@
        } else if !(ok_str(t, "waveform"@)) {
            "waveform"@
        } else {
            Seq::empty()
        }
    }

    /// The encoding of a value carries exactly this type's tag.
    pub proof fn lemma_wire_tag(v: InputMessageVoiceNote)
        ensures
            v.wire_tree() matches Some(t) ==> tag_of(t) == Some(InputMessageVoiceNote::tag_spec()),
    {
        if v.wire_tree() is Some {
            let t = v.wire_tree()->0;
            let ms = t->Obj_0;
            lemma_get_spec_found(ms, "@type"@, 0);
        }
    }
}

impl Clone for InputMessageVoiceNote {
    fn clone(&self) -> (res: Self)
        ensures
            res.eqv(*self),
    {
        InputMessageVoiceNote {
            extra: clone_opt_string(&self.extra),
            duration: self.duration,
            waveform: self.waveform.clone(),
        }
    }
}

impl Wire for InputMessageVoiceNote {
    open spec fn wire_tree(self) -> Option<SpecJson> {
        Some(SpecJson::Obj(self.members_spec()))
    }

    open spec fn accepts(t: SpecJson) -> bool {
        tag_of(t) is Some && Self::fields_ok(t)
    }

    open spec fn err_of(t: SpecJson) -> SpecDecodeError {
        match tag_of(t) {
            None => SpecDecodeError::Malformed,
            Some(_) => SpecDecodeError::FieldShapeMismatch(Self::tag_spec(), Self::fail_field(t)),
        }
    }

    open spec fn decodes_from(t: SpecJson, v: Self) -> bool {
        &&& m_opt_str(t, "@extra"@, v.extra)
        &&& m_i64(t, "duration"@, v.duration)
        &&& m_str(t, "waveform"@, v.waveform@)
    }

    open spec fn eqv(self, other: Self) -> bool {
        &&& eqv_opt_string(self.extra, other.extra)
        &&& self.duration == other.duration
        &&& self.waveform@ == other.waveform@
    }

    fn clone_val(&self) -> (r: Self) {
        self.clone()
    }

    fn decode_tree(t: &JsonValue) -> (r: Result<Self, DecodeError>) {
        if get_tag(t).is_none() {
            return Err(DecodeError::Malformed);
        }
        let extra = match field_opt_string(t, "@extra") {
            Some(x) => x,
            None => {
                return Err(DecodeError::FieldShapeMismatch(
                    String::from_str("inputMessageVoiceNote"),
                    String::from_str("@extra"),
                ));
            },
        };
        let duration = match field_i64(t, "duration") {
            Some(x) => x,
            None => {
                return Err(DecodeError::FieldShapeMismatch(
                    String::from_str("inputMessageVoiceNote"),
                    String::from_str("duration"),
                ));
            },
        };
        let waveform = match field_string(t, "waveform") {
            Some(x) => x,
            None => {
                return Err(DecodeError::FieldShapeMismatch(
                    String::from_str("inputMessageVoiceNote"),
                    String::from_str("waveform"),
                ));
            },
        };
        Ok(InputMessageVoiceNote { extra, duration, waveform })
    }

    fn encode_tree(&self) -> (r: Result<JsonValue, EncodeError>) {
        let mut members: Vec<JsonMember> = Vec::new();
        proof {
            assert(view_members(members@) =~= Seq::<(Seq<char>, SpecJson)>::empty());
        }
        push_member(&mut members, "@type", JsonValue::Str(String::from_str("inputMessageVoiceNote")));
        push_member(&mut members, "@extra", opt_string_tree(&self.extra));
        push_member(&mut members, "duration", JsonValue::Num(i64_lexeme(self.duration)));
        push_member(&mut members, "waveform", JsonValue::Str(self.waveform.clone()));
        let node = JsonValue::Obj(members);
        proof {
            assert(view_members(members@) =~= self.members_spec());
            assert(node@ == self.wire_tree()->0);
        }
        Ok(node)
    }

    proof fn lemma_wire_wf(v: Self) {
        if v.wire_tree() is Some {
            let t = v.wire_tree()->0;
            let ms = t->Obj_0;
            assert(ms == v.members_spec());
            crate::json::lemma_i64_lex(v.duration);
            assert forall|i: int| 0 <= i < ms.len() implies wf(#[trigger] ms[i].1) by {
            }
        }
    }

    proof fn lemma_round_trip(v: Self) {
        if v.wire_tree() is Some {
            let t = v.wire_tree()->0;
            let ms = t->Obj_0;
            assert(ms == v.members_spec());
            reveal_strlit("@type");
            reveal_strlit("@extra");
            reveal_strlit("duration");
            reveal_strlit("waveform");
            assert("@type"@.len() == 5);
            assert("@extra"@.len() == 6);
            assert("duration"@.len() == 8);
            assert("waveform"@.len() == 8);
            assert("duration"@[0] == 'd' && "waveform"@[0] == 'w');
            reveal_with_fuel(get_spec, 6);
            lemma_get_spec_found(ms, "@type"@, 0);
            lemma_get_spec_found(ms, "@extra"@, 1);
            lemma_get_spec_found(ms, "duration"@, 2);
            lemma_get_spec_found(ms, "waveform"@, 3);
            assert(tag_of(t) == Some(Self::tag_spec()));
            assert(ok_opt_str(t, "@extra"@));
            crate::json::lemma_i64_lex(v.duration);
            assert(ok_i64(t, "duration"@));
            assert(ok_str(t, "waveform"@));
            assert(Self::accepts(t));
            assert forall|w: Self| Self::decodes_from(t, w) implies #[trigger] w.eqv(v) by {
            }
        }
    }
}

impl RObject for InputMessageVoiceNote {
    open spec fn tag_chars(&self) -> Seq<char> {
        Self::tag_spec()
    }

    open spec fn extra_spec(&self) -> Option<Seq<char>> {
        opt_str_view(self.extra)
    }

    fn td_name(&self) -> (r: &'static str) {
        "inputMessageVoiceNote"
    }

    fn extra(&self) -> (r: Option<String>) {
        clone_opt_string(&self.extra)
    }

    fn to_json(&self) -> (r: Result<String, EncodeError>) {
        crate::object::encode(self)
    }
}

impl TDInputMessageContent for InputMessageVoiceNote {

}

impl InputMessageVoiceNote {
    pub fn from_json(json: &str) -> (r: Result<InputMessageVoiceNote, DecodeError>)
        ensures
            match crate::parse::parse_doc(json@) {
                Some(t) => match r {
                    Ok(v) => Self::accepts(t) && Self::decodes_from(t, v),
                    Err(e) => !Self::accepts(t) && crate::errors::err_matches(e, Self::err_of(t)),
                },
                None => r matches Err(e) && e == DecodeError::Malformed,
            },
    {
        crate::object::from_json::<InputMessageVoiceNote>(json)
    }

    pub fn builder() -> (r: RTDInputMessageVoiceNoteBuilder)
        ensures
            r.inner.extra is Some,
            r.inner.duration == 0,
            r.inner.waveform@ == Seq::<char>::empty(),
    {
        RTDInputMessageVoiceNoteBuilder {
            inner: InputMessageVoiceNote {
                extra: Some(new_token()),
                duration: 0,
                waveform: String::new(),
            },
        }
    }

    pub fn duration(&self) -> (r: i64)
        ensures
            r == self.duration,
    {
        self.duration
    }

    pub fn waveform(&self) -> (r: &String)
        ensures
            *r == self.waveform,
    {
        &self.waveform
    }
}

pub struct RTDInputMessageVoiceNoteBuilder {
    pub inner: InputMessageVoiceNote,
}

impl RTDInputMessageVoiceNoteBuilder {
    pub fn build(&self) -> (r: InputMessageVoiceNote)
        ensures
            r.eqv(self.inner),
    {
        self.inner.clone()
    }

    pub fn duration(&mut self, duration: i64) -> (r: &mut Self)
        ensures
            *r == (RTDInputMessageVoiceNoteBuilder { inner: InputMessageVoiceNote { duration: duration, ..old(self).inner } }),
            *final(self) == *final(r),
    {
        self.inner.duration = duration;
        self
    }

    pub fn waveform(&mut self, waveform: String) -> (r: &mut Self)
        ensures
            *r == (RTDInputMessageVoiceNoteBuilder { inner: InputMessageVoiceNote { waveform: waveform, ..old(self).inner } }),
            *final(self) == *final(r),
    {
        self.inner.waveform = waveform;
        self
    }
}
} // verus!
