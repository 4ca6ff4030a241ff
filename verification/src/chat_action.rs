use vstd::prelude::*;

use crate::errors::DecodeError;
use crate::errors::EncodeError;
use crate::errors::SpecDecodeError;
use crate::json::JsonMember;
use crate::json::JsonValue;
use crate::json::SpecJson;
use crate::json::i64_lex;
use crate::json::view_members;
use crate::json::wf;
use crate::object::RObject;
use crate::object::Wire;
use crate::object::clone_opt_string;
use crate::object::eqv_opt_string;
use crate::object::field_i64;
use crate::object::field_opt_string;
use crate::object::field_string;
use crate::object::get_spec;
use crate::object::get_tag;
use crate::object::i64_lexeme;
use crate::object::lemma_get_spec_found;
use crate::object::m_i64;
use crate::object::m_opt_str;
use crate::object::m_str;
use crate::object::new_token;
use crate::object::ok_i64;
use crate::object::ok_opt_str;
use crate::object::ok_str;
use crate::object::opt_str_tree;
use crate::object::opt_str_view;
use crate::object::opt_string_tree;
use crate::object::push_member;
use crate::object::str_eq;
use crate::object::tag_of;

verus! {

/// Describes the different types of activity in a chat
pub trait TDChatAction: RObject {

}

/// Describes the different types of activity in a chat
#[derive(Debug, PartialEq)]
pub enum ChatAction {
    _Default(()),
    /// The user has canceled the previous action
    Cancel(ChatActionCancel),
    /// The user is picking a contact to send
    ChoosingContact(ChatActionChoosingContact),
    /// The user is picking a location or venue to send
    ChoosingLocation(ChatActionChoosingLocation),
    /// The user is picking a sticker to send
    ChoosingSticker(ChatActionChoosingSticker),
    /// The user is recording a video
    RecordingVideo(ChatActionRecordingVideo),
    /// The user is recording a video note
    RecordingVideoNote(ChatActionRecordingVideoNote),
    /// The user is recording a voice note
    RecordingVoiceNote(ChatActionRecordingVoiceNote),
    /// The user has started to play a game
    StartPlayingGame(ChatActionStartPlayingGame),
    /// The user is typing a message
    Typing(ChatActionTyping),
    /// The user is uploading a document
    UploadingDocument(ChatActionUploadingDocument),
    /// The user is uploading a photo
    UploadingPhoto(ChatActionUploadingPhoto),
    /// The user is uploading a video
    UploadingVideo(ChatActionUploadingVideo),
    /// The user is uploading a video note
    UploadingVideoNote(ChatActionUploadingVideoNote),
    /// The user is uploading a voice note
    UploadingVoiceNote(ChatActionUploadingVoiceNote),
    /// The user is watching animations sent by the other party by clicking on an animated emoji
    WatchingAnimations(ChatActionWatchingAnimations),
}

impl Clone for ChatAction {
    fn clone(&self) -> (res: Self)
        ensures
            res.eqv(*self),
    {
        match self {
            ChatAction::_Default(_) => ChatAction::_Default(()),
            ChatAction::Cancel(x) => ChatAction::Cancel(x.clone()),
            ChatAction::ChoosingContact(x) => ChatAction::ChoosingContact(x.clone()),
            ChatAction::ChoosingLocation(x) => ChatAction::ChoosingLocation(x.clone()),
            ChatAction::ChoosingSticker(x) => ChatAction::ChoosingSticker(x.clone()),
            ChatAction::RecordingVideo(x) => ChatAction::RecordingVideo(x.clone()),
            ChatAction::RecordingVideoNote(x) => ChatAction::RecordingVideoNote(x.clone()),
            ChatAction::RecordingVoiceNote(x) => ChatAction::RecordingVoiceNote(x.clone()),
            ChatAction::StartPlayingGame(x) => ChatAction::StartPlayingGame(x.clone()),
            ChatAction::Typing(x) => ChatAction::Typing(x.clone()),
            ChatAction::UploadingDocument(x) => ChatAction::UploadingDocument(x.clone()),
            ChatAction::UploadingPhoto(x) => ChatAction::UploadingPhoto(x.clone()),
            ChatAction::UploadingVideo(x) => ChatAction::UploadingVideo(x.clone()),
            ChatAction::UploadingVideoNote(x) => ChatAction::UploadingVideoNote(x.clone()),
            ChatAction::UploadingVoiceNote(x) => ChatAction::UploadingVoiceNote(x.clone()),
            ChatAction::WatchingAnimations(x) => ChatAction::WatchingAnimations(x.clone()),
        }
    }
}

impl ChatAction {
    /// The tags of this variant's alternatives are pairwise distinct.
    pub proof fn lemma_tags_distinct()
        ensures
            "chatActionCancel"@ != "chatActionChoosingContact"@,
            "chatActionCancel"@ != "chatActionChoosingLocation"@,
            "chatActionCancel"@ != "chatActionChoosingSticker"@,
            "chatActionCancel"@ != "chatActionRecordingVideo"@,
            "chatActionCancel"@ != "chatActionRecordingVideoNote"@,
            "chatActionCancel"@ != "chatActionRecordingVoiceNote"@,
            "chatActionCancel"@ != "chatActionStartPlayingGame"@,
            "chatActionCancel"@ != "chatActionTyping"@,
            "chatActionCancel"@ != "chatActionUploadingDocument"@,
            "chatActionCancel"@ != "chatActionUploadingPhoto"@,
            "chatActionCancel"@ != "chatActionUploadingVideo"@,
            "chatActionCancel"@ != "chatActionUploadingVideoNote"@,
            "chatActionCancel"@ != "chatActionUploadingVoiceNote"@,
            "chatActionCancel"@ != "chatActionWatchingAnimations"@,
            "chatActionChoosingContact"@ != "chatActionChoosingLocation"@,
            "chatActionChoosingContact"@ != "chatActionChoosingSticker"@,
            "chatActionChoosingContact"@ != "chatActionRecordingVideo"@,
            "chatActionChoosingContact"@ != "chatActionRecordingVideoNote"@,
            "chatActionChoosingContact"@ != "chatActionRecordingVoiceNote"@,
            "chatActionChoosingContact"@ != "chatActionStartPlayingGame"@,
            "chatActionChoosingContact"@ != "chatActionTyping"@,
            "chatActionChoosingContact"@ != "chatActionUploadingDocument"@,
            "chatActionChoosingContact"@ != "chatActionUploadingPhoto"@,
            "chatActionChoosingContact"@ != "chatActionUploadingVideo"@,
            "chatActionChoosingContact"@ != "chatActionUploadingVideoNote"@,
            "chatActionChoosingContact"@ != "chatActionUploadingVoiceNote"@,
            "chatActionChoosingContact"@ != "chatActionWatchingAnimations"@,
            "chatActionChoosingLocation"@ != "chatActionChoosingSticker"@,
            "chatActionChoosingLocation"@ != "chatActionRecordingVideo"@,
            "chatActionChoosingLocation"@ != "chatActionRecordingVideoNote"@,
            "chatActionChoosingLocation"@ != "chatActionRecordingVoiceNote"@,
            "chatActionChoosingLocation"@ != "chatActionStartPlayingGame"@,
            "chatActionChoosingLocation"@ != "chatActionTyping"@,
            "chatActionChoosingLocation"@ != "chatActionUploadingDocument"@,
            "chatActionChoosingLocation"@ != "chatActionUploadingPhoto"@,
            "chatActionChoosingLocation"@ != "chatActionUploadingVideo"@,
            "chatActionChoosingLocation"@ != "chatActionUploadingVideoNote"@,
            "chatActionChoosingLocation"@ != "chatActionUploadingVoiceNote"@,
            "chatActionChoosingLocation"@ != "chatActionWatchingAnimations"@,
            "chatActionChoosingSticker"@ != "chatActionRecordingVideo"@,
            "chatActionChoosingSticker"@ != "chatActionRecordingVideoNote"@,
            "chatActionChoosingSticker"@ != "chatActionRecordingVoiceNote"@,
            "chatActionChoosingSticker"@ != "chatActionStartPlayingGame"@,
            "chatActionChoosingSticker"@ != "chatActionTyping"@,
            "chatActionChoosingSticker"@ != "chatActionUploadingDocument"@,
            "chatActionChoosingSticker"@ != "chatActionUploadingPhoto"@,
            "chatActionChoosingSticker"@ != "chatActionUploadingVideo"@,
            "chatActionChoosingSticker"@ != "chatActionUploadingVideoNote"@,
            "chatActionChoosingSticker"@ != "chatActionUploadingVoiceNote"@,
            "chatActionChoosingSticker"@ != "chatActionWatchingAnimations"@,
            "chatActionRecordingVideo"@ != "chatActionRecordingVideoNote"@,
            "chatActionRecordingVideo"@ != "chatActionRecordingVoiceNote"@,
            "chatActionRecordingVideo"@ != "chatActionStartPlayingGame"@,
            "chatActionRecordingVideo"@ != "chatActionTyping"@,
            "chatActionRecordingVideo"@ != "chatActionUploadingDocument"@,
            "chatActionRecordingVideo"@ != "chatActionUploadingPhoto"@,
            "chatActionRecordingVideo"@ != "chatActionUploadingVideo"@,
            "chatActionRecordingVideo"@ != "chatActionUploadingVideoNote"@,
            "chatActionRecordingVideo"@ != "chatActionUploadingVoiceNote"@,
            "chatActionRecordingVideo"@ != "chatActionWatchingAnimations"@,
            "chatActionRecordingVideoNote"@ != "chatActionRecordingVoiceNote"@,
            "chatActionRecordingVideoNote"@ != "chatActionStartPlayingGame"@,
            "chatActionRecordingVideoNote"@ != "chatActionTyping"@,
            "chatActionRecordingVideoNote"@ != "chatActionUploadingDocument"@,
            "chatActionRecordingVideoNote"@ != "chatActionUploadingPhoto"@,
            "chatActionRecordingVideoNote"@ != "chatActionUploadingVideo"@,
            "chatActionRecordingVideoNote"@ != "chatActionUploadingVideoNote"@,
            "chatActionRecordingVideoNote"@ != "chatActionUploadingVoiceNote"@,
            "chatActionRecordingVideoNote"@ != "chatActionWatchingAnimations"@,
            "chatActionRecordingVoiceNote"@ != "chatActionStartPlayingGame"@,
            "chatActionRecordingVoiceNote"@ != "chatActionTyping"@,
            "chatActionRecordingVoiceNote"@ != "chatActionUploadingDocument"@,
            "chatActionRecordingVoiceNote"@ != "chatActionUploadingPhoto"@,
            "chatActionRecordingVoiceNote"@ != "chatActionUploadingVideo"@,
            "chatActionRecordingVoiceNote"@ != "chatActionUploadingVideoNote"@,
            "chatActionRecordingVoiceNote"@ != "chatActionUploadingVoiceNote"@,
            "chatActionRecordingVoiceNote"@ != "chatActionWatchingAnimations"@,
            "chatActionStartPlayingGame"@ != "chatActionTyping"@,
            "chatActionStartPlayingGame"@ != "chatActionUploadingDocument"@,
            "chatActionStartPlayingGame"@ != "chatActionUploadingPhoto"@,
            "chatActionStartPlayingGame"@ != "chatActionUploadingVideo"@,
            "chatActionStartPlayingGame"@ != "chatActionUploadingVideoNote"@,
            "chatActionStartPlayingGame"@ != "chatActionUploadingVoiceNote"@,
            "chatActionStartPlayingGame"@ != "chatActionWatchingAnimations"@,
            "chatActionTyping"@ != "chatActionUploadingDocument"@,
            "chatActionTyping"@ != "chatActionUploadingPhoto"@,
            "chatActionTyping"@ != "chatActionUploadingVideo"@,
            "chatActionTyping"@ != "chatActionUploadingVideoNote"@,
            "chatActionTyping"@ != "chatActionUploadingVoiceNote"@,
            "chatActionTyping"@ != "chatActionWatchingAnimations"@,
            "chatActionUploadingDocument"@ != "chatActionUploadingPhoto"@,
            "chatActionUploadingDocument"@ != "chatActionUploadingVideo"@,
            "chatActionUploadingDocument"@ != "chatActionUploadingVideoNote"@,
            "chatActionUploadingDocument"@ != "chatActionUploadingVoiceNote"@,
            "chatActionUploadingDocument"@ != "chatActionWatchingAnimations"@,
            "chatActionUploadingPhoto"@ != "chatActionUploadingVideo"@,
            "chatActionUploadingPhoto"@ != "chatActionUploadingVideoNote"@,
            "chatActionUploadingPhoto"@ != "chatActionUploadingVoiceNote"@,
            "chatActionUploadingPhoto"@ != "chatActionWatchingAnimations"@,
            "chatActionUploadingVideo"@ != "chatActionUploadingVideoNote"@,
            "chatActionUploadingVideo"@ != "chatActionUploadingVoiceNote"@,
            "chatActionUploadingVideo"@ != "chatActionWatchingAnimations"@,
            "chatActionUploadingVideoNote"@ != "chatActionUploadingVoiceNote"@,
            "chatActionUploadingVideoNote"@ != "chatActionWatchingAnimations"@,
            "chatActionUploadingVoiceNote"@ != "chatActionWatchingAnimations"@,
    {
        reveal_strlit("chatActionCancel");
        reveal_strlit("chatActionChoosingContact");
        reveal_strlit("chatActionChoosingLocation");
        reveal_strlit("chatActionChoosingSticker");
        reveal_strlit("chatActionRecordingVideo");
        reveal_strlit("chatActionRecordingVideoNote");
        reveal_strlit("chatActionRecordingVoiceNote");
        reveal_strlit("chatActionStartPlayingGame");
        reveal_strlit("chatActionTyping");
        reveal_strlit("chatActionUploadingDocument");
        reveal_strlit("chatActionUploadingPhoto");
        reveal_strlit("chatActionUploadingVideo");
        reveal_strlit("chatActionUploadingVideoNote");
        reveal_strlit("chatActionUploadingVoiceNote");
        reveal_strlit("chatActionWatchingAnimations");
        assert("chatActionCancel"@.len() == 16);
        assert("chatActionChoosingContact"@.len() == 25);
        assert("chatActionChoosingLocation"@.len() == 26);
        assert("chatActionChoosingSticker"@.len() == 25);
        assert("chatActionRecordingVideo"@.len() == 24);
        assert("chatActionRecordingVideoNote"@.len() == 28);
        assert("chatActionRecordingVoiceNote"@.len() == 28);
        assert("chatActionStartPlayingGame"@.len() == 26);
        assert("chatActionTyping"@.len() == 16);
        assert("chatActionUploadingDocument"@.len() == 27);
        assert("chatActionUploadingPhoto"@.len() == 24);
        assert("chatActionUploadingVideo"@.len() == 24);
        assert("chatActionUploadingVideoNote"@.len() == 28);
        assert("chatActionUploadingVoiceNote"@.len() == 28);
        assert("chatActionWatchingAnimations"@.len() == 28);
        assert("chatActionCancel"@[10] == 'C' && "chatActionTyping"@[10] == 'T');
        assert("chatActionChoosingContact"@[18] == 'C' && "chatActionChoosingSticker"@[18] == 'S');
        assert("chatActionChoosingLocation"@[10] == 'C' && "chatActionStartPlayingGame"@[10] == 'S');
        assert("chatActionRecordingVideo"@[10] == 'R' && "chatActionUploadingPhoto"@[10] == 'U');
        assert("chatActionRecordingVideo"@[10] == 'R' && "chatActionUploadingVideo"@[10] == 'U');
        assert("chatActionRecordingVideoNote"@[20] == 'i' && "chatActionRecordingVoiceNote"@[20] == 'o');
        assert("chatActionRecordingVideoNote"@[10] == 'R' && "chatActionUploadingVideoNote"@[10] == 'U');
        assert("chatActionRecordingVideoNote"@[10] == 'R' && "chatActionUploadingVoiceNote"@[10] == 'U');
        assert("chatActionRecordingVideoNote"@[10] == 'R' && "chatActionWatchingAnimations"@[10] == 'W');
        assert("chatActionRecordingVoiceNote"@[10] == 'R' && "chatActionUploadingVideoNote"@[10] == 'U');
        assert("chatActionRecordingVoiceNote"@[10] == 'R' && "chatActionUploadingVoiceNote"@[10] == 'U');
        assert("chatActionRecordingVoiceNote"@[10] == 'R' && "chatActionWatchingAnimations"@[10] == 'W');
        assert("chatActionUploadingPhoto"@[19] == 'P' && "chatActionUploadingVideo"@[19] == 'V');
        assert("chatActionUploadingVideoNote"@[20] == 'i' && "chatActionUploadingVoiceNote"@[20] == 'o');
        assert("chatActionUploadingVideoNote"@[10] == 'U' && "chatActionWatchingAnimations"@[10] == 'W');
        assert("chatActionUploadingVoiceNote"@[10] == 'U' && "chatActionWatchingAnimations"@[10] == 'W');
    }
}

impl Wire for ChatAction {
    open spec fn wire_tree(self) -> Option<SpecJson> {
        match self {
            ChatAction::_Default(_) => None,
            ChatAction::Cancel(x) => x.wire_tree(),
            ChatAction::ChoosingContact(x) => x.wire_tree(),
            ChatAction::ChoosingLocation(x) => x.wire_tree(),
            ChatAction::ChoosingSticker(x) => x.wire_tree(),
            ChatAction::RecordingVideo(x) => x.wire_tree(),
            ChatAction::RecordingVideoNote(x) => x.wire_tree(),
            ChatAction::RecordingVoiceNote(x) => x.wire_tree(),
            ChatAction::StartPlayingGame(x) => x.wire_tree(),
            ChatAction::Typing(x) => x.wire_tree(),
            ChatAction::UploadingDocument(x) => x.wire_tree(),
            ChatAction::UploadingPhoto(x) => x.wire_tree(),
            ChatAction::UploadingVideo(x) => x.wire_tree(),
            ChatAction::UploadingVideoNote(x) => x.wire_tree(),
            ChatAction::UploadingVoiceNote(x) => x.wire_tree(),
            ChatAction::WatchingAnimations(x) => x.wire_tree(),
        }
    }

    open spec fn accepts(t: SpecJson) -> bool {
        match tag_of(t) {
            None => false,
            Some(g) => {
                if g == ChatActionCancel::tag_spec() {
                    ChatActionCancel::accepts(t)
                } else if g == ChatActionChoosingContact::tag_spec() {
                    ChatActionChoosingContact::accepts(t)
                } else if g == ChatActionChoosingLocation::tag_spec() {
                    ChatActionChoosingLocation::accepts(t)
                } else if g == ChatActionChoosingSticker::tag_spec() {
                    ChatActionChoosingSticker::accepts(t)
                } else if g == ChatActionRecordingVideo::tag_spec() {
                    ChatActionRecordingVideo::accepts(t)
                } else if g == ChatActionRecordingVideoNote::tag_spec() {
                    ChatActionRecordingVideoNote::accepts(t)
                } else if g == ChatActionRecordingVoiceNote::tag_spec() {
                    ChatActionRecordingVoiceNote::accepts(t)
                } else if g == ChatActionStartPlayingGame::tag_spec() {
                    ChatActionStartPlayingGame::accepts(t)
                } else if g == ChatActionTyping::tag_spec() {
                    ChatActionTyping::accepts(t)
                } else if g == ChatActionUploadingDocument::tag_spec() {
                    ChatActionUploadingDocument::accepts(t)
                } else if g == ChatActionUploadingPhoto::tag_spec() {
                    ChatActionUploadingPhoto::accepts(t)
                } else if g == ChatActionUploadingVideo::tag_spec() {
                    ChatActionUploadingVideo::accepts(t)
                } else if g == ChatActionUploadingVideoNote::tag_spec() {
                    ChatActionUploadingVideoNote::accepts(t)
                } else if g == ChatActionUploadingVoiceNote::tag_spec() {
                    ChatActionUploadingVoiceNote::accepts(t)
                } else if g == ChatActionWatchingAnimations::tag_spec() {
                    ChatActionWatchingAnimations::accepts(t)
                } else {
                    false
                }
            },
        }
    }

    open spec fn err_of(t: SpecJson) -> SpecDecodeError {
        match tag_of(t) {
            None => SpecDecodeError::Malformed,
            Some(g) => {
                if g == ChatActionCancel::tag_spec() {
                    ChatActionCancel::err_of(t)
                } else if g == ChatActionChoosingContact::tag_spec() {
                    ChatActionChoosingContact::err_of(t)
                } else if g == ChatActionChoosingLocation::tag_spec() {
                    ChatActionChoosingLocation::err_of(t)
                } else if g == ChatActionChoosingSticker::tag_spec() {
                    ChatActionChoosingSticker::err_of(t)
                } else if g == ChatActionRecordingVideo::tag_spec() {
                    ChatActionRecordingVideo::err_of(t)
                } else if g == ChatActionRecordingVideoNote::tag_spec() {
                    ChatActionRecordingVideoNote::err_of(t)
                } else if g == ChatActionRecordingVoiceNote::tag_spec() {
                    ChatActionRecordingVoiceNote::err_of(t)
                } else if g == ChatActionStartPlayingGame::tag_spec() {
                    ChatActionStartPlayingGame::err_of(t)
                } else if g == ChatActionTyping::tag_spec() {
                    ChatActionTyping::err_of(t)
                } else if g == ChatActionUploadingDocument::tag_spec() {
                    ChatActionUploadingDocument::err_of(t)
                } else if g == ChatActionUploadingPhoto::tag_spec() {
                    ChatActionUploadingPhoto::err_of(t)
                } else if g == ChatActionUploadingVideo::tag_spec() {
                    ChatActionUploadingVideo::err_of(t)
                } else if g == ChatActionUploadingVideoNote::tag_spec() {
                    ChatActionUploadingVideoNote::err_of(t)
                } else if g == ChatActionUploadingVoiceNote::tag_spec() {
                    ChatActionUploadingVoiceNote::err_of(t)
                } else if g == ChatActionWatchingAnimations::tag_spec() {
                    ChatActionWatchingAnimations::err_of(t)
                } else {
                    SpecDecodeError::UnrecognizedVariant(g)
                }
            },
        }
    }

    open spec fn decodes_from(t: SpecJson, v: Self) -> bool {
        match tag_of(t) {
            None => false,
            Some(g) => {
                if g == ChatActionCancel::tag_spec() {
                    v matches ChatAction::Cancel(x) && ChatActionCancel::decodes_from(t, x)
                } else if g == ChatActionChoosingContact::tag_spec() {
                    v matches ChatAction::ChoosingContact(x) && ChatActionChoosingContact::decodes_from(t, x)
                } else if g == ChatActionChoosingLocation::tag_spec() {
                    v matches ChatAction::ChoosingLocation(x) && ChatActionChoosingLocation::decodes_from(t, x)
                } else if g == ChatActionChoosingSticker::tag_spec() {
                    v matches ChatAction::ChoosingSticker(x) && ChatActionChoosingSticker::decodes_from(t, x)
                } else if g == ChatActionRecordingVideo::tag_spec() {
                    v matches ChatAction::RecordingVideo(x) && ChatActionRecordingVideo::decodes_from(t, x)
                } else if g == ChatActionRecordingVideoNote::tag_spec() {
                    v matches ChatAction::RecordingVideoNote(x) && ChatActionRecordingVideoNote::decodes_from(t, x)
                } else if g == ChatActionRecordingVoiceNote::tag_spec() {
                    v matches ChatAction::RecordingVoiceNote(x) && ChatActionRecordingVoiceNote::decodes_from(t, x)
                } else if g == ChatActionStartPlayingGame::tag_spec() {
                    v matches ChatAction::StartPlayingGame(x) && ChatActionStartPlayingGame::decodes_from(t, x)
                } else if g == ChatActionTyping::tag_spec() {
                    v matches ChatAction::Typing(x) && ChatActionTyping::decodes_from(t, x)
                } else if g == ChatActionUploadingDocument::tag_spec() {
                    v matches ChatAction::UploadingDocument(x) && ChatActionUploadingDocument::decodes_from(t, x)
                } else if g == ChatActionUploadingPhoto::tag_spec() {
                    v matches ChatAction::UploadingPhoto(x) && ChatActionUploadingPhoto::decodes_from(t, x)
                } else if g == ChatActionUploadingVideo::tag_spec() {
                    v matches ChatAction::UploadingVideo(x) && ChatActionUploadingVideo::decodes_from(t, x)
                } else if g == ChatActionUploadingVideoNote::tag_spec() {
                    v matches ChatAction::UploadingVideoNote(x) && ChatActionUploadingVideoNote::decodes_from(t, x)
                } else if g == ChatActionUploadingVoiceNote::tag_spec() {
                    v matches ChatAction::UploadingVoiceNote(x) && ChatActionUploadingVoiceNote::decodes_from(t, x)
                } else if g == ChatActionWatchingAnimations::tag_spec() {
                    v matches ChatAction::WatchingAnimations(x) && ChatActionWatchingAnimations::decodes_from(t, x)
                } else {
                    false
                }
            },
        }
    }

    open spec fn eqv(self, other: Self) -> bool {
        match (self, other) {
            (ChatAction::_Default(_), ChatAction::_Default(_)) => true,
            (ChatAction::Cancel(a), ChatAction::Cancel(b)) => a.eqv(b),
            (ChatAction::ChoosingContact(a), ChatAction::ChoosingContact(b)) => a.eqv(b),
            (ChatAction::ChoosingLocation(a), ChatAction::ChoosingLocation(b)) => a.eqv(b),
            (ChatAction::ChoosingSticker(a), ChatAction::ChoosingSticker(b)) => a.eqv(b),
            (ChatAction::RecordingVideo(a), ChatAction::RecordingVideo(b)) => a.eqv(b),
            (ChatAction::RecordingVideoNote(a), ChatAction::RecordingVideoNote(b)) => a.eqv(b),
            (ChatAction::RecordingVoiceNote(a), ChatAction::RecordingVoiceNote(b)) => a.eqv(b),
            (ChatAction::StartPlayingGame(a), ChatAction::StartPlayingGame(b)) => a.eqv(b),
            (ChatAction::Typing(a), ChatAction::Typing(b)) => a.eqv(b),
            (ChatAction::UploadingDocument(a), ChatAction::UploadingDocument(b)) => a.eqv(b),
            (ChatAction::UploadingPhoto(a), ChatAction::UploadingPhoto(b)) => a.eqv(b),
            (ChatAction::UploadingVideo(a), ChatAction::UploadingVideo(b)) => a.eqv(b),
            (ChatAction::UploadingVideoNote(a), ChatAction::UploadingVideoNote(b)) => a.eqv(b),
            (ChatAction::UploadingVoiceNote(a), ChatAction::UploadingVoiceNote(b)) => a.eqv(b),
            (ChatAction::WatchingAnimations(a), ChatAction::WatchingAnimations(b)) => a.eqv(b),
            _ => false,
        }
    }

    fn clone_val(&self) -> (r: Self) {
        self.clone()
    }

    fn decode_tree(t: &JsonValue) -> (r: Result<Self, DecodeError>) {
        let g = match get_tag(t) {
            Some(g) => g,
            None => {
                return Err(DecodeError::Malformed);
            },
        };
        if str_eq(g.as_str(), "chatActionCancel") {
            match ChatActionCancel::decode_tree(t) {
                Ok(x) => Ok(ChatAction::Cancel(x)),
                Err(e) => Err(e),
            }
        } else if str_eq(g.as_str(), "chatActionChoosingContact") {
            match ChatActionChoosingContact::decode_tree(t) {
                Ok(x) => Ok(ChatAction::ChoosingContact(x)),
                Err(e) => Err(e),
            }
        } else if str_eq(g.as_str(), "chatActionChoosingLocation") {
            match ChatActionChoosingLocation::decode_tree(t) {
                Ok(x) => Ok(ChatAction::ChoosingLocation(x)),
                Err(e) => Err(e),
            }
        } else if str_eq(g.as_str(), "chatActionChoosingSticker") {
            match ChatActionChoosingSticker::decode_tree(t) {
                Ok(x) => Ok(ChatAction::ChoosingSticker(x)),
                Err(e) => Err(e),
            }
        } else if str_eq(g.as_str(), "chatActionRecordingVideo") {
            match ChatActionRecordingVideo::decode_tree(t) {
                Ok(x) => Ok(ChatAction::RecordingVideo(x)),
                Err(e) => Err(e),
            }
        } else if str_eq(g.as_str(), "chatActionRecordingVideoNote") {
            match ChatActionRecordingVideoNote::decode_tree(t) {
                Ok(x) => Ok(ChatAction::RecordingVideoNote(x)),
                Err(e) => Err(e),
            }
        } else if str_eq(g.as_str(), "chatActionRecordingVoiceNote") {
            match ChatActionRecordingVoiceNote::decode_tree(t) {
                Ok(x) => Ok(ChatAction::RecordingVoiceNote(x)),
                Err(e) => Err(e),
            }
        } else if str_eq(g.as_str(), "chatActionStartPlayingGame") {
            match ChatActionStartPlayingGame::decode_tree(t) {
                Ok(x) => Ok(ChatAction::StartPlayingGame(x)),
                Err(e) => Err(e),
            }
        } else if str_eq(g.as_str(), "chatActionTyping") {
            match ChatActionTyping::decode_tree(t) {
                Ok(x) => Ok(ChatAction::Typing(x)),
                Err(e) => Err(e),
            }
        } else if str_eq(g.as_str(), "chatActionUploadingDocument") {
            match ChatActionUploadingDocument::decode_tree(t) {
                Ok(x) => Ok(ChatAction::UploadingDocument(x)),
                Err(e) => Err(e),
            }
        } else if str_eq(g.as_str(), "chatActionUploadingPhoto") {
            match ChatActionUploadingPhoto::decode_tree(t) {
                Ok(x) => Ok(ChatAction::UploadingPhoto(x)),
                Err(e) => Err(e),
            }
        } else if str_eq(g.as_str(), "chatActionUploadingVideo") {
            match ChatActionUploadingVideo::decode_tree(t) {
                Ok(x) => Ok(ChatAction::UploadingVideo(x)),
                Err(e) => Err(e),
            }
        } else if str_eq(g.as_str(), "chatActionUploadingVideoNote") {
            match ChatActionUploadingVideoNote::decode_tree(t) {
                Ok(x) => Ok(ChatAction::UploadingVideoNote(x)),
                Err(e) => Err(e),
            }
        } else if str_eq(g.as_str(), "chatActionUploadingVoiceNote") {
            match ChatActionUploadingVoiceNote::decode_tree(t) {
                Ok(x) => Ok(ChatAction::UploadingVoiceNote(x)),
                Err(e) => Err(e),
            }
        } else if str_eq(g.as_str(), "chatActionWatchingAnimations") {
            match ChatActionWatchingAnimations::decode_tree(t) {
                Ok(x) => Ok(ChatAction::WatchingAnimations(x)),
                Err(e) => Err(e),
            }
        } else {
            Err(DecodeError::UnrecognizedVariant(g))
        }
    }

    fn encode_tree(&self) -> (r: Result<JsonValue, EncodeError>) {
        match self {
            ChatAction::_Default(_) => Err(EncodeError::Unrepresentable),
            ChatAction::Cancel(x) => x.encode_tree(),
            ChatAction::ChoosingContact(x) => x.encode_tree(),
            ChatAction::ChoosingLocation(x) => x.encode_tree(),
            ChatAction::ChoosingSticker(x) => x.encode_tree(),
            ChatAction::RecordingVideo(x) => x.encode_tree(),
            ChatAction::RecordingVideoNote(x) => x.encode_tree(),
            ChatAction::RecordingVoiceNote(x) => x.encode_tree(),
            ChatAction::StartPlayingGame(x) => x.encode_tree(),
            ChatAction::Typing(x) => x.encode_tree(),
            ChatAction::UploadingDocument(x) => x.encode_tree(),
            ChatAction::UploadingPhoto(x) => x.encode_tree(),
            ChatAction::UploadingVideo(x) => x.encode_tree(),
            ChatAction::UploadingVideoNote(x) => x.encode_tree(),
            ChatAction::UploadingVoiceNote(x) => x.encode_tree(),
            ChatAction::WatchingAnimations(x) => x.encode_tree(),
        }
    }

    proof fn lemma_wire_wf(v: Self) {
        match v {
            ChatAction::_Default(_) => {},
            ChatAction::Cancel(x) => {
                ChatActionCancel::lemma_wire_wf(x);
            },
            ChatAction::ChoosingContact(x) => {
                ChatActionChoosingContact::lemma_wire_wf(x);
            },
            ChatAction::ChoosingLocation(x) => {
                ChatActionChoosingLocation::lemma_wire_wf(x);
            },
            ChatAction::ChoosingSticker(x) => {
                ChatActionChoosingSticker::lemma_wire_wf(x);
            },
            ChatAction::RecordingVideo(x) => {
                ChatActionRecordingVideo::lemma_wire_wf(x);
            },
            ChatAction::RecordingVideoNote(x) => {
                ChatActionRecordingVideoNote::lemma_wire_wf(x);
            },
            ChatAction::RecordingVoiceNote(x) => {
                ChatActionRecordingVoiceNote::lemma_wire_wf(x);
            },
            ChatAction::StartPlayingGame(x) => {
                ChatActionStartPlayingGame::lemma_wire_wf(x);
            },
            ChatAction::Typing(x) => {
                ChatActionTyping::lemma_wire_wf(x);
            },
            ChatAction::UploadingDocument(x) => {
                ChatActionUploadingDocument::lemma_wire_wf(x);
            },
            ChatAction::UploadingPhoto(x) => {
                ChatActionUploadingPhoto::lemma_wire_wf(x);
            },
            ChatAction::UploadingVideo(x) => {
                ChatActionUploadingVideo::lemma_wire_wf(x);
            },
            ChatAction::UploadingVideoNote(x) => {
                ChatActionUploadingVideoNote::lemma_wire_wf(x);
            },
            ChatAction::UploadingVoiceNote(x) => {
                ChatActionUploadingVoiceNote::lemma_wire_wf(x);
            },
            ChatAction::WatchingAnimations(x) => {
                ChatActionWatchingAnimations::lemma_wire_wf(x);
            },
        }
    }

    proof fn lemma_round_trip(v: Self) {
        Self::lemma_tags_distinct();
        match v {
            ChatAction::_Default(_) => {},
            ChatAction::Cancel(x) => {
                if x.wire_tree() is Some {
                    let t = x.wire_tree()->0;
                    ChatActionCancel::lemma_wire_tag(x);
                    ChatActionCancel::lemma_round_trip(x);
                    assert(Self::accepts(t));
                    assert forall|w: Self| Self::decodes_from(t, w) implies #[trigger] w.eqv(v) by {
                        assert(w matches ChatAction::Cancel(xi) && ChatActionCancel::decodes_from(t, xi));
                    }
                }
            },
            ChatAction::ChoosingContact(x) => {
                if x.wire_tree() is Some {
                    let t = x.wire_tree()->0;
                    ChatActionChoosingContact::lemma_wire_tag(x);
                    ChatActionChoosingContact::lemma_round_trip(x);
                    assert(Self::accepts(t));
                    assert forall|w: Self| Self::decodes_from(t, w) implies #[trigger] w.eqv(v) by {
                        assert(w matches ChatAction::ChoosingContact(xi) && ChatActionChoosingContact::decodes_from(t, xi));
                    }
                }
            },
            ChatAction::ChoosingLocation(x) => {
                if x.wire_tree() is Some {
                    let t = x.wire_tree()->0;
                    ChatActionChoosingLocation::lemma_wire_tag(x);
                    ChatActionChoosingLocation::lemma_round_trip(x);
                    assert(Self::accepts(t));
                    assert forall|w: Self| Self::decodes_from(t, w) implies #[trigger] w.eqv(v) by {
                        assert(w matches ChatAction::ChoosingLocation(xi) && ChatActionChoosingLocation::decodes_from(t, xi));
                    }
                }
            },
            ChatAction::ChoosingSticker(x) => {
                if x.wire_tree() is Some {
                    let t = x.wire_tree()->0;
                    ChatActionChoosingSticker::lemma_wire_tag(x);
                    ChatActionChoosingSticker::lemma_round_trip(x);
                    assert(Self::accepts(t));
                    assert forall|w: Self| Self::decodes_from(t, w) implies #[trigger] w.eqv(v) by {
                        assert(w matches ChatAction::ChoosingSticker(xi) && ChatActionChoosingSticker::decodes_from(t, xi));
                    }
                }
            },
            ChatAction::RecordingVideo(x) => {
                if x.wire_tree() is Some {
                    let t = x.wire_tree()->0;
                    ChatActionRecordingVideo::lemma_wire_tag(x);
                    ChatActionRecordingVideo::lemma_round_trip(x);
                    assert(Self::accepts(t));
                    assert forall|w: Self| Self::decodes_from(t, w) implies #[trigger] w.eqv(v) by {
                        assert(w matches ChatAction::RecordingVideo(xi) && ChatActionRecordingVideo::decodes_from(t, xi));
                    }
                }
            },
            ChatAction::RecordingVideoNote(x) => {
                if x.wire_tree() is Some {
                    let t = x.wire_tree()->0;
                    ChatActionRecordingVideoNote::lemma_wire_tag(x);
                    ChatActionRecordingVideoNote::lemma_round_trip(x);
                    assert(Self::accepts(t));
                    assert forall|w: Self| Self::decodes_from(t, w) implies #[trigger] w.eqv(v) by {
                        assert(w matches ChatAction::RecordingVideoNote(xi) && ChatActionRecordingVideoNote::decodes_from(t, xi));
                    }
                }
            },
            ChatAction::RecordingVoiceNote(x) => {
                if x.wire_tree() is Some {
                    let t = x.wire_tree()->0;
                    ChatActionRecordingVoiceNote::lemma_wire_tag(x);
                    ChatActionRecordingVoiceNote::lemma_round_trip(x);
                    assert(Self::accepts(t));
                    assert forall|w: Self| Self::decodes_from(t, w) implies #[trigger] w.eqv(v) by {
                        assert(w matches ChatAction::RecordingVoiceNote(xi) && ChatActionRecordingVoiceNote::decodes_from(t, xi));
                    }
                }
            },
            ChatAction::StartPlayingGame(x) => {
                if x.wire_tree() is Some {
                    let t = x.wire_tree()->0;
                    ChatActionStartPlayingGame::lemma_wire_tag(x);
                    ChatActionStartPlayingGame::lemma_round_trip(x);
                    assert(Self::accepts(t));
                    assert forall|w: Self| Self::decodes_from(t, w) implies #[trigger] w.eqv(v) by {
                        assert(w matches ChatAction::StartPlayingGame(xi) && ChatActionStartPlayingGame::decodes_from(t, xi));
                    }
                }
            },
            ChatAction::Typing(x) => {
                if x.wire_tree() is Some {
                    let t = x.wire_tree()->0;
                    ChatActionTyping::lemma_wire_tag(x);
                    ChatActionTyping::lemma_round_trip(x);
                    assert(Self::accepts(t));
                    assert forall|w: Self| Self::decodes_from(t, w) implies #[trigger] w.eqv(v) by {
                        assert(w matches ChatAction::Typing(xi) && ChatActionTyping::decodes_from(t, xi));
                    }
                }
            },
            ChatAction::UploadingDocument(x) => {
                if x.wire_tree() is Some {
                    let t = x.wire_tree()->0;
                    ChatActionUploadingDocument::lemma_wire_tag(x);
                    ChatActionUploadingDocument::lemma_round_trip(x);
                    assert(Self::accepts(t));
                    assert forall|w: Self| Self::decodes_from(t, w) implies #[trigger] w.eqv(v) by {
                        assert(w matches ChatAction::UploadingDocument(xi) && ChatActionUploadingDocument::decodes_from(t, xi));
                    }
                }
            },
            ChatAction::UploadingPhoto(x) => {
                if x.wire_tree() is Some {
                    let t = x.wire_tree()->0;
                    ChatActionUploadingPhoto::lemma_wire_tag(x);
                    ChatActionUploadingPhoto::lemma_round_trip(x);
                    assert(Self::accepts(t));
                    assert forall|w: Self| Self::decodes_from(t, w) implies #[trigger] w.eqv(v) by {
                        assert(w matches ChatAction::UploadingPhoto(xi) && ChatActionUploadingPhoto::decodes_from(t, xi));
                    }
                }
            },
            ChatAction::UploadingVideo(x) => {
                if x.wire_tree() is Some {
                    let t = x.wire_tree()->0;
                    ChatActionUploadingVideo::lemma_wire_tag(x);
                    ChatActionUploadingVideo::lemma_round_trip(x);
                    assert(Self::accepts(t));
                    assert forall|w: Self| Self::decodes_from(t, w) implies #[trigger] w.eqv(v) by {
                        assert(w matches ChatAction::UploadingVideo(xi) && ChatActionUploadingVideo::decodes_from(t, xi));
                    }
                }
            },
            ChatAction::UploadingVideoNote(x) => {
                if x.wire_tree() is Some {
                    let t = x.wire_tree()->0;
                    ChatActionUploadingVideoNote::lemma_wire_tag(x);
                    ChatActionUploadingVideoNote::lemma_round_trip(x);
                    assert(Self::accepts(t));
                    assert forall|w: Self| Self::decodes_from(t, w) implies #[trigger] w.eqv(v) by {
                        assert(w matches ChatAction::UploadingVideoNote(xi) && ChatActionUploadingVideoNote::decodes_from(t, xi));
                    }
                }
            },
            ChatAction::UploadingVoiceNote(x) => {
                if x.wire_tree() is Some {
                    let t = x.wire_tree()->0;
                    ChatActionUploadingVoiceNote::lemma_wire_tag(x);
                    ChatActionUploadingVoiceNote::lemma_round_trip(x);
                    assert(Self::accepts(t));
                    assert forall|w: Self| Self::decodes_from(t, w) implies #[trigger] w.eqv(v) by {
                        assert(w matches ChatAction::UploadingVoiceNote(xi) && ChatActionUploadingVoiceNote::decodes_from(t, xi));
                    }
                }
            },
            ChatAction::WatchingAnimations(x) => {
                if x.wire_tree() is Some {
                    let t = x.wire_tree()->0;
                    ChatActionWatchingAnimations::lemma_wire_tag(x);
                    ChatActionWatchingAnimations::lemma_round_trip(x);
                    assert(Self::accepts(t));
                    assert forall|w: Self| Self::decodes_from(t, w) implies #[trigger] w.eqv(v) by {
                        assert(w matches ChatAction::WatchingAnimations(xi) && ChatActionWatchingAnimations::decodes_from(t, xi));
                    }
                }
            },
        }
    }
}

impl RObject for ChatAction {
    open spec fn tag_chars(&self) -> Seq<char> {
        match self {
            ChatAction::_Default(_) => "-1"@,
            ChatAction::Cancel(x) => ChatActionCancel::tag_spec(),
            ChatAction::ChoosingContact(x) => ChatActionChoosingContact::tag_spec(),
            ChatAction::ChoosingLocation(x) => ChatActionChoosingLocation::tag_spec(),
            ChatAction::ChoosingSticker(x) => ChatActionChoosingSticker::tag_spec(),
            ChatAction::RecordingVideo(x) => ChatActionRecordingVideo::tag_spec(),
            ChatAction::RecordingVideoNote(x) => ChatActionRecordingVideoNote::tag_spec(),
            ChatAction::RecordingVoiceNote(x) => ChatActionRecordingVoiceNote::tag_spec(),
            ChatAction::StartPlayingGame(x) => ChatActionStartPlayingGame::tag_spec(),
            ChatAction::Typing(x) => ChatActionTyping::tag_spec(),
            ChatAction::UploadingDocument(x) => ChatActionUploadingDocument::tag_spec(),
            ChatAction::UploadingPhoto(x) => ChatActionUploadingPhoto::tag_spec(),
            ChatAction::UploadingVideo(x) => ChatActionUploadingVideo::tag_spec(),
            ChatAction::UploadingVideoNote(x) => ChatActionUploadingVideoNote::tag_spec(),
            ChatAction::UploadingVoiceNote(x) => ChatActionUploadingVoiceNote::tag_spec(),
            ChatAction::WatchingAnimations(x) => ChatActionWatchingAnimations::tag_spec(),
        }
    }

    open spec fn extra_spec(&self) -> Option<Seq<char>> {
        match self {
            ChatAction::_Default(_) => None,
            ChatAction::Cancel(x) => opt_str_view(x.extra),
            ChatAction::ChoosingContact(x) => opt_str_view(x.extra),
            ChatAction::ChoosingLocation(x) => opt_str_view(x.extra),
            ChatAction::ChoosingSticker(x) => opt_str_view(x.extra),
            ChatAction::RecordingVideo(x) => opt_str_view(x.extra),
            ChatAction::RecordingVideoNote(x) => opt_str_view(x.extra),
            ChatAction::RecordingVoiceNote(x) => opt_str_view(x.extra),
            ChatAction::StartPlayingGame(x) => opt_str_view(x.extra),
            ChatAction::Typing(x) => opt_str_view(x.extra),
            ChatAction::UploadingDocument(x) => opt_str_view(x.extra),
            ChatAction::UploadingPhoto(x) => opt_str_view(x.extra),
            ChatAction::UploadingVideo(x) => opt_str_view(x.extra),
            ChatAction::UploadingVideoNote(x) => opt_str_view(x.extra),
            ChatAction::UploadingVoiceNote(x) => opt_str_view(x.extra),
            ChatAction::WatchingAnimations(x) => opt_str_view(x.extra),
    }
    }

    fn td_name(&self) -> (r: &'static str) {
        match self {
            ChatAction::_Default(_) => "-1",
            ChatAction::Cancel(x) => x.td_name(),
            ChatAction::ChoosingContact(x) => x.td_name(),
            ChatAction::ChoosingLocation(x) => x.td_name(),
            ChatAction::ChoosingSticker(x) => x.td_name(),
            ChatAction::RecordingVideo(x) => x.td_name(),
            ChatAction::RecordingVideoNote(x) => x.td_name(),
            ChatAction::RecordingVoiceNote(x) => x.td_name(),
            ChatAction::StartPlayingGame(x) => x.td_name(),
            ChatAction::Typing(x) => x.td_name(),
            ChatAction::UploadingDocument(x) => x.td_name(),
            ChatAction::UploadingPhoto(x) => x.td_name(),
            ChatAction::UploadingVideo(x) => x.td_name(),
            ChatAction::UploadingVideoNote(x) => x.td_name(),
            ChatAction::UploadingVoiceNote(x) => x.td_name(),
            ChatAction::WatchingAnimations(x) => x.td_name(),
        }
    }

    fn extra(&self) -> (r: Option<String>) {
        match self {
            ChatAction::_Default(_) => None,
            ChatAction::Cancel(x) => clone_opt_string(&x.extra),
            ChatAction::ChoosingContact(x) => clone_opt_string(&x.extra),
            ChatAction::ChoosingLocation(x) => clone_opt_string(&x.extra),
            ChatAction::ChoosingSticker(x) => clone_opt_string(&x.extra),
            ChatAction::RecordingVideo(x) => clone_opt_string(&x.extra),
            ChatAction::RecordingVideoNote(x) => clone_opt_string(&x.extra),
            ChatAction::RecordingVoiceNote(x) => clone_opt_string(&x.extra),
            ChatAction::StartPlayingGame(x) => clone_opt_string(&x.extra),
            ChatAction::Typing(x) => clone_opt_string(&x.extra),
            ChatAction::UploadingDocument(x) => clone_opt_string(&x.extra),
            ChatAction::UploadingPhoto(x) => clone_opt_string(&x.extra),
            ChatAction::UploadingVideo(x) => clone_opt_string(&x.extra),
            ChatAction::UploadingVideoNote(x) => clone_opt_string(&x.extra),
            ChatAction::UploadingVoiceNote(x) => clone_opt_string(&x.extra),
            ChatAction::WatchingAnimations(x) => clone_opt_string(&x.extra),
        }
    }

    fn to_json(&self) -> (r: Result<String, EncodeError>) {
        crate::object::encode(self)
    }
}

impl ChatAction {
    pub fn from_json(json: &str) -> (r: Result<ChatAction, DecodeError>)
        ensures
            match crate::parse::parse_doc(json@) {
                Some(t) => match r {
                    Ok(v) => Self::accepts(t) && Self::decodes_from(t, v),
                    Err(e) => !Self::accepts(t) && crate::errors::err_matches(e, Self::err_of(t)),
                },
                None => r matches Err(e) && e == DecodeError::Malformed,
            },
    {
        crate::object::from_json::<ChatAction>(json)
    }

    pub fn _is_default(&self) -> (r: bool)
        ensures
            r == (self is _Default),
    {
        match self {
            ChatAction::_Default(_) => true,
            _ => false,
        }
    }

    pub fn is_cancel(&self) -> (r: bool)
        ensures
            r == (self is Cancel),
    {
        match self {
            ChatAction::Cancel(_) => true,
            _ => false,
        }
    }

    pub fn is_choosing_contact(&self) -> (r: bool)
        ensures
            r == (self is ChoosingContact),
    {
        match self {
            ChatAction::ChoosingContact(_) => true,
            _ => false,
        }
    }

    pub fn is_choosing_location(&self) -> (r: bool)
        ensures
            r == (self is ChoosingLocation),
    {
        match self {
            ChatAction::ChoosingLocation(_) => true,
            _ => false,
        }
    }

    pub fn is_choosing_sticker(&self) -> (r: bool)
        ensures
            r == (self is ChoosingSticker),
    {
        match self {
            ChatAction::ChoosingSticker(_) => true,
            _ => false,
        }
    }

    pub fn is_recording_video(&self) -> (r: bool)
        ensures
            r == (self is RecordingVideo),
    {
        match self {
            ChatAction::RecordingVideo(_) => true,
            _ => false,
        }
    }

    pub fn is_recording_video_note(&self) -> (r: bool)
        ensures
            r == (self is RecordingVideoNote),
    {
        match self {
            ChatAction::RecordingVideoNote(_) => true,
            _ => false,
        }
    }

    pub fn is_recording_voice_note(&self) -> (r: bool)
        ensures
            r == (self is RecordingVoiceNote),
    {
        match self {
            ChatAction::RecordingVoiceNote(_) => true,
            _ => false,
        }
    }

    pub fn is_start_playing_game(&self) -> (r: bool)
        ensures
            r == (self is StartPlayingGame),
    {
        match self {
            ChatAction::StartPlayingGame(_) => true,
            _ => false,
        }
    }

    pub fn is_typing(&self) -> (r: bool)
        ensures
            r == (self is Typing),
    {
        match self {
            ChatAction::Typing(_) => true,
            _ => false,
        }
    }

    pub fn is_uploading_document(&self) -> (r: bool)
        ensures
            r == (self is UploadingDocument),
    {
        match self {
            ChatAction::UploadingDocument(_) => true,
            _ => false,
        }
    }

    pub fn is_uploading_photo(&self) -> (r: bool)
        ensures
            r == (self is UploadingPhoto),
    {
        match self {
            ChatAction::UploadingPhoto(_) => true,
            _ => false,
        }
    }

    pub fn is_uploading_video(&self) -> (r: bool)
        ensures
            r == (self is UploadingVideo),
    {
        match self {
            ChatAction::UploadingVideo(_) => true,
            _ => false,
        }
    }

    pub fn is_uploading_video_note(&self) -> (r: bool)
        ensures
            r == (self is UploadingVideoNote),
    {
        match self {
            ChatAction::UploadingVideoNote(_) => true,
            _ => false,
        }
    }

    pub fn is_uploading_voice_note(&self) -> (r: bool)
        ensures
            r == (self is UploadingVoiceNote),
    {
        match self {
            ChatAction::UploadingVoiceNote(_) => true,
            _ => false,
        }
    }

    pub fn is_watching_animations(&self) -> (r: bool)
        ensures
            r == (self is WatchingAnimations),
    {
        match self {
            ChatAction::WatchingAnimations(_) => true,
            _ => false,
        }
    }

    pub fn as_cancel(&self) -> (r: Option<&ChatActionCancel>)
        ensures
            (self is Cancel) == (r is Some),
            r matches Some(x) ==> *x == self->Cancel_0,
    {
        match self {
            ChatAction::Cancel(x) => Some(x),
            _ => None,
        }
    }

    pub fn as_choosing_contact(&self) -> (r: Option<&ChatActionChoosingContact>)
        ensures
            (self is ChoosingContact) == (r is Some),
            r matches Some(x) ==> *x == self->ChoosingContact_0,
    {
        match self {
            ChatAction::ChoosingContact(x) => Some(x),
            _ => None,
        }
    }

    pub fn as_choosing_location(&self) -> (r: Option<&ChatActionChoosingLocation>)
        ensures
            (self is ChoosingLocation) == (r is Some),
            r matches Some(x) ==> *x == self->ChoosingLocation_0,
    {
        match self {
            ChatAction::ChoosingLocation(x) => Some(x),
            _ => None,
        }
    }

    pub fn as_choosing_sticker(&self) -> (r: Option<&ChatActionChoosingSticker>)
        ensures
            (self is ChoosingSticker) == (r is Some),
            r matches Some(x) ==> *x == self->ChoosingSticker_0,
    {
        match self {
            ChatAction::ChoosingSticker(x) => Some(x),
            _ => None,
        }
    }

    pub fn as_recording_video(&self) -> (r: Option<&ChatActionRecordingVideo>)
        ensures
            (self is RecordingVideo) == (r is Some),
            r matches Some(x) ==> *x == self->RecordingVideo_0,
    {
        match self {
            ChatAction::RecordingVideo(x) => Some(x),
            _ => None,
        }
    }

    pub fn as_recording_video_note(&self) -> (r: Option<&ChatActionRecordingVideoNote>)
        ensures
            (self is RecordingVideoNote) == (r is Some),
            r matches Some(x) ==> *x == self->RecordingVideoNote_0,
    {
        match self {
            ChatAction::RecordingVideoNote(x) => Some(x),
            _ => None,
        }
    }

    pub fn as_recording_voice_note(&self) -> (r: Option<&ChatActionRecordingVoiceNote>)
        ensures
            (self is RecordingVoiceNote) == (r is Some),
            r matches Some(x) ==> *x == self->RecordingVoiceNote_0,
    {
        match self {
            ChatAction::RecordingVoiceNote(x) => Some(x),
            _ => None,
        }
    }

    pub fn as_start_playing_game(&self) -> (r: Option<&ChatActionStartPlayingGame>)
        ensures
            (self is StartPlayingGame) == (r is Some),
            r matches Some(x) ==> *x == self->StartPlayingGame_0,
    {
        match self {
            ChatAction::StartPlayingGame(x) => Some(x),
            _ => None,
        }
    }

    pub fn as_typing(&self) -> (r: Option<&ChatActionTyping>)
        ensures
            (self is Typing) == (r is Some),
            r matches Some(x) ==> *x == self->Typing_0,
    {
        match self {
            ChatAction::Typing(x) => Some(x),
            _ => None,
        }
    }

    pub fn as_uploading_document(&self) -> (r: Option<&ChatActionUploadingDocument>)
        ensures
            (self is UploadingDocument) == (r is Some),
            r matches Some(x) ==> *x == self->UploadingDocument_0,
    {
        match self {
            ChatAction::UploadingDocument(x) => Some(x),
            _ => None,
        }
    }

    pub fn as_uploading_photo(&self) -> (r: Option<&ChatActionUploadingPhoto>)
        ensures
            (self is UploadingPhoto) == (r is Some),
            r matches Some(x) ==> *x == self->UploadingPhoto_0,
    {
        match self {
            ChatAction::UploadingPhoto(x) => Some(x),
            _ => None,
        }
    }

    pub fn as_uploading_video(&self) -> (r: Option<&ChatActionUploadingVideo>)
        ensures
            (self is UploadingVideo) == (r is Some),
            r matches Some(x) ==> *x == self->UploadingVideo_0,
    {
        match self {
            ChatAction::UploadingVideo(x) => Some(x),
            _ => None,
        }
    }

    pub fn as_uploading_video_note(&self) -> (r: Option<&ChatActionUploadingVideoNote>)
        ensures
            (self is UploadingVideoNote) == (r is Some),
            r matches Some(x) ==> *x == self->UploadingVideoNote_0,
    {
        match self {
            ChatAction::UploadingVideoNote(x) => Some(x),
            _ => None,
        }
    }

    pub fn as_uploading_voice_note(&self) -> (r: Option<&ChatActionUploadingVoiceNote>)
        ensures
            (self is UploadingVoiceNote) == (r is Some),
            r matches Some(x) ==> *x == self->UploadingVoiceNote_0,
    {
        match self {
            ChatAction::UploadingVoiceNote(x) => Some(x),
            _ => None,
        }
    }

    pub fn as_watching_animations(&self) -> (r: Option<&ChatActionWatchingAnimations>)
        ensures
            (self is WatchingAnimations) == (r is Some),
            r matches Some(x) ==> *x == self->WatchingAnimations_0,
    {
        match self {
            ChatAction::WatchingAnimations(x) => Some(x),
            _ => None,
        }
    }

    pub fn cancel(t: &ChatActionCancel) -> (r: Self)
        ensures
            r matches ChatAction::Cancel(x) && x.eqv(*t),
    {
        ChatAction::Cancel(t.clone())
    }

    pub fn choosing_contact(t: &ChatActionChoosingContact) -> (r: Self)
        ensures
            r matches ChatAction::ChoosingContact(x) && x.eqv(*t),
    {
        ChatAction::ChoosingContact(t.clone())
    }

    pub fn choosing_location(t: &ChatActionChoosingLocation) -> (r: Self)
        ensures
            r matches ChatAction::ChoosingLocation(x) && x.eqv(*t),
    {
        ChatAction::ChoosingLocation(t.clone())
    }

    pub fn choosing_sticker(t: &ChatActionChoosingSticker) -> (r: Self)
        ensures
            r matches ChatAction::ChoosingSticker(x) && x.eqv(*t),
    {
        ChatAction::ChoosingSticker(t.clone())
    }

    pub fn recording_video(t: &ChatActionRecordingVideo) -> (r: Self)
        ensures
            r matches ChatAction::RecordingVideo(x) && x.eqv(*t),
    {
        ChatAction::RecordingVideo(t.clone())
    }

    pub fn recording_video_note(t: &ChatActionRecordingVideoNote) -> (r: Self)
        ensures
            r matches ChatAction::RecordingVideoNote(x) && x.eqv(*t),
    {
        ChatAction::RecordingVideoNote(t.clone())
    }

    pub fn recording_voice_note(t: &ChatActionRecordingVoiceNote) -> (r: Self)
        ensures
            r matches ChatAction::RecordingVoiceNote(x) && x.eqv(*t),
    {
        ChatAction::RecordingVoiceNote(t.clone())
    }

    pub fn start_playing_game(t: &ChatActionStartPlayingGame) -> (r: Self)
        ensures
            r matches ChatAction::StartPlayingGame(x) && x.eqv(*t),
    {
        ChatAction::StartPlayingGame(t.clone())
    }

    pub fn typing(t: &ChatActionTyping) -> (r: Self)
        ensures
            r matches ChatAction::Typing(x) && x.eqv(*t),
    {
        ChatAction::Typing(t.clone())
    }

    pub fn uploading_document(t: &ChatActionUploadingDocument) -> (r: Self)
        ensures
            r matches ChatAction::UploadingDocument(x) && x.eqv(*t),
    {
        ChatAction::UploadingDocument(t.clone())
    }

    pub fn uploading_photo(t: &ChatActionUploadingPhoto) -> (r: Self)
        ensures
            r matches ChatAction::UploadingPhoto(x) && x.eqv(*t),
    {
        ChatAction::UploadingPhoto(t.clone())
    }

    pub fn uploading_video(t: &ChatActionUploadingVideo) -> (r: Self)
        ensures
            r matches ChatAction::UploadingVideo(x) && x.eqv(*t),
    {
        ChatAction::UploadingVideo(t.clone())
    }

    pub fn uploading_video_note(t: &ChatActionUploadingVideoNote) -> (r: Self)
        ensures
            r matches ChatAction::UploadingVideoNote(x) && x.eqv(*t),
    {
        ChatAction::UploadingVideoNote(t.clone())
    }

    pub fn uploading_voice_note(t: &ChatActionUploadingVoiceNote) -> (r: Self)
        ensures
            r matches ChatAction::UploadingVoiceNote(x) && x.eqv(*t),
    {
        ChatAction::UploadingVoiceNote(t.clone())
    }

    pub fn watching_animations(t: &ChatActionWatchingAnimations) -> (r: Self)
        ensures
            r matches ChatAction::WatchingAnimations(x) && x.eqv(*t),
    {
        ChatAction::WatchingAnimations(t.clone())
    }
}
/// The user has canceled the previous action
#[derive(Debug, PartialEq)]
pub struct ChatActionCancel {
    pub extra: Option<String>,
}

impl ChatActionCancel {
    pub open spec fn tag_spec() -> Seq<char> {
        "chatActionCancel"@
    }

    /// The members of the wire object, in the order they are written.
    pub open spec fn members_spec(self) -> Seq<(Seq<char>, SpecJson)> {
        seq![
            ("@type"@, SpecJson::Str(Self::tag_spec())),
            ("@extra"@, opt_str_tree(opt_str_view(self.extra))),
        ]
    }

    pub open spec fn fields_ok(t: SpecJson) -> bool {
        &&& ok_opt_str(t, "@extra"@)
    }

    pub open spec fn fail_field(t: SpecJson) -> Seq<char> {
        if !ok_opt_str(t, "@extra"@) {
            "@extra"@
        } else {
            Seq::empty()
        }
    }

    /// The encoding of a value carries exactly this type's tag.
    pub proof fn lemma_wire_tag(v: ChatActionCancel)
        ensures
            v.wire_tree() matches Some(t) ==> tag_of(t) == Some(ChatActionCancel::tag_spec()),
    {
        if v.wire_tree() is Some {
            let t = v.wire_tree()->0;
            let ms = t->Obj_0;
            lemma_get_spec_found(ms, "@type"@, 0);
        }
    }
}

impl Clone for ChatActionCancel {
    fn clone(&self) -> (res: Self)
        ensures
            res.eqv(*self),
    {
        ChatActionCancel {
            extra: clone_opt_string(&self.extra),
        }
    }
}

impl Wire for ChatActionCancel {
    open spec fn wire_tree(self) -> Option<SpecJson> {
        Some(SpecJson::Obj(self.members_spec()))
    }

    open spec fn accepts(t: SpecJson) -> bool {
        tag_of(t) is Some && Self::fields_ok(t)
    }

    open spec fn err_of(t: SpecJson) -> SpecDecodeError {
        match tag_of(t) {
            None => SpecDecodeError::Malformed,
            Some(_) => SpecDecodeError::FieldShapeMismatch(Self::tag_spec(), Self::fail_field(t)),
        }
    }

    open spec fn decodes_from(t: SpecJson, v: Self) -> bool {
        &&& m_opt_str(t, "@extra"@, v.extra)
    }

    open spec fn eqv(self, other: Self) -> bool {
        &&& eqv_opt_string(self.extra, other.extra)
    }

    fn clone_val(&self) -> (r: Self) {
        self.clone()
    }

    fn decode_tree(t: &JsonValue) -> (r: Result<Self, DecodeError>) {
        if get_tag(t).is_none() {
            return Err(DecodeError::Malformed);
        }
        let extra = match field_opt_string(t, "@extra") {
            Some(x) => x,
            None => {
                return Err(DecodeError::FieldShapeMismatch(
                    String::from_str("chatActionCancel"),
                    String::from_str("@extra"),
                ));
            },
        };
        Ok(ChatActionCancel { extra })
    }

    fn encode_tree(&self) -> (r: Result<JsonValue, EncodeError>) {
        let mut members: Vec<JsonMember> = Vec::new();
        proof {
            assert(view_members(members@) =~= Seq::<(Seq<char>, SpecJson)>::empty());
        }
        push_member(&mut members, "@type", JsonValue::Str(String::from_str("chatActionCancel")));
        push_member(&mut members, "@extra", opt_string_tree(&self.extra));
        let node = JsonValue::Obj(members);
        proof {
            assert(view_members(members@) =~= self.members_spec());
            assert(node@ == self.wire_tree()->0);
        }
        Ok(node)
    }

    proof fn lemma_wire_wf(v: Self) {
        if v.wire_tree() is Some {
            let t = v.wire_tree()->0;
            let ms = t->Obj_0;
            assert(ms == v.members_spec());
            assert forall|i: int| 0 <= i < ms.len() implies wf(#[trigger] ms[i].1) by {
            }
        }
    }

    proof fn lemma_round_trip(v: Self) {
        if v.wire_tree() is Some {
            let t = v.wire_tree()->0;
            let ms = t->Obj_0;
            assert(ms == v.members_spec());
            reveal_strlit("@type");
            reveal_strlit("@extra");
            assert("@type"@.len() == 5);
            assert("@extra"@.len() == 6);
            reveal_with_fuel(get_spec, 4);
            lemma_get_spec_found(ms, "@type"@, 0);
            lemma_get_spec_found(ms, "@extra"@, 1);
            assert(tag_of(t) == Some(Self::tag_spec()));
            assert(ok_opt_str(t, "@extra"@));
            assert(Self::accepts(t));
            assert forall|w: Self| Self::decodes_from(t, w) implies #[trigger] w.eqv(v) by {
            }
        }
    }
}

impl RObject for ChatActionCancel {
    open spec fn tag_chars(&self) -> Seq<char> {
        Self::tag_spec()
    }

    open spec fn extra_spec(&self) -> Option<Seq<char>> {
        opt_str_view(self.extra)
    }

    fn td_name(&self) -> (r: &'static str) {
        "chatActionCancel"
    }

    fn extra(&self) -> (r: Option<String>) {
        clone_opt_string(&self.extra)
    }

    fn to_json(&self) -> (r: Result<String, EncodeError>) {
        crate::object::encode(self)
    }
}

impl TDChatAction for ChatActionCancel {

}

impl ChatActionCancel {
    pub fn from_json(json: &str) -> (r: Result<ChatActionCancel, DecodeError>)
        ensures
            match crate::parse::parse_doc(json@) {
                Some(t) => match r {
                    Ok(v) => Self::accepts(t) && Self::decodes_from(t, v),
                    Err(e) => !Self::accepts(t) && crate::errors::err_matches(e, Self::err_of(t)),
                },
                None => r matches Err(e) && e == DecodeError::Malformed,
            },
    {
        crate::object::from_json::<ChatActionCancel>(json)
    }

    pub fn builder() -> (r: RTDChatActionCancelBuilder)
        ensures
            r.inner.extra is Some,
    {
        RTDChatActionCancelBuilder {
            inner: ChatActionCancel {
                extra: Some(new_token()),
            },
        }
    }
}

pub struct RTDChatActionCancelBuilder {
    pub inner: ChatActionCancel,
}

impl RTDChatActionCancelBuilder {
    pub fn build(&self) -> (r: ChatActionCancel)
        ensures
            r.eqv(self.inner),
    {
        self.inner.clone()
    }
}
/// The user is picking a contact to send
#[derive(Debug, PartialEq)]
pub struct ChatActionChoosingContact {
    pub extra: Option<String>,
}

impl ChatActionChoosingContact {
    pub open spec fn tag_spec() -> Seq<char> {
        "chatActionChoosingContact"@
    }

    /// The members of the wire object, in the order they are written.
    pub open spec fn members_spec(self) -> Seq<(Seq<char>, SpecJson)> {
        seq![
            ("@type"@, SpecJson::Str(Self::tag_spec())),
            ("@extra"@, opt_str_tree(opt_str_view(self.extra))),
        ]
    }

    pub open spec fn fields_ok(t: SpecJson) -> bool {
        &&& ok_opt_str(t, "@extra"@)
    }

    pub open spec fn fail_field(t: SpecJson) -> Seq<char> {
        if !ok_opt_str(t, "@extra"@) {
            "@extra"@
        } else {
            Seq::empty()
        }
    }

    /// The encoding of a value carries exactly this type's tag.
    pub proof fn lemma_wire_tag(v: ChatActionChoosingContact)
        ensures
            v.wire_tree() matches Some(t) ==> tag_of(t) == Some(ChatActionChoosingContact::tag_spec()),
    {
        if v.wire_tree() is Some {
            let t = v.wire_tree()->0;
            let ms = t->Obj_0;
            lemma_get_spec_found(ms, "@type"@, 0);
        }
    }
}

impl Clone for ChatActionChoosingContact {
    fn clone(&self) -> (res: Self)
        ensures
            res.eqv(*self),
    {
        ChatActionChoosingContact {
            extra: clone_opt_string(&self.extra),
        }
    }
}

impl Wire for ChatActionChoosingContact {
    open spec fn wire_tree(self) -> Option<SpecJson> {
        Some(SpecJson::Obj(self.members_spec()))
    }

    open spec fn accepts(t: SpecJson) -> bool {
        tag_of(t) is Some && Self::fields_ok(t)
    }

    open spec fn err_of(t: SpecJson) -> SpecDecodeError {
        match tag_of(t) {
            None => SpecDecodeError::Malformed,
            Some(_) => SpecDecodeError::FieldShapeMismatch(Self::tag_spec(), Self::fail_field(t)),
        }
    }

    open spec fn decodes_from(t: SpecJson, v: Self) -> bool {
        &&& m_opt_str(t, "@extra"@, v.extra)
    }

    open spec fn eqv(self, other: Self) -> bool {
        &&& eqv_opt_string(self.extra, other.extra)
    }

    fn clone_val(&self) -> (r: Self) {
        self.clone()
    }

    fn decode_tree(t: &JsonValue) -> (r: Result<Self, DecodeError>) {
        if get_tag(t).is_none() {
            return Err(DecodeError::Malformed);
        }
        let extra = match field_opt_string(t, "@extra") {
            Some(x) => x,
            None => {
                return Err(DecodeError::FieldShapeMismatch(
                    String::from_str("chatActionChoosingContact"),
                    String::from_str("@extra"),
                ));
            },
        };
        Ok(ChatActionChoosingContact { extra })
    }

    fn encode_tree(&self) -> (r: Result<JsonValue, EncodeError>) {
        let mut members: Vec<JsonMember> = Vec::new();
        proof {
            assert(view_members(members@) =~= Seq::<(Seq<char>, SpecJson)>::empty());
        }
        push_member(&mut members, "@type", JsonValue::Str(String::from_str("chatActionChoosingContact")));
        push_member(&mut members, "@extra", opt_string_tree(&self.extra));
        let node = JsonValue::Obj(members);
        proof {
            assert(view_members(members@) =~= self.members_spec());
            assert(node@ == self.wire_tree()->0);
        }
        Ok(node)
    }

    proof fn lemma_wire_wf(v: Self) {
        if v.wire_tree() is Some {
            let t = v.wire_tree()->0;
            let ms = t->Obj_0;
            assert(ms == v.members_spec());
            assert forall|i: int| 0 <= i < ms.len() implies wf(#[trigger] ms[i].1) by {
            }
        }
    }

    proof fn lemma_round_trip(v: Self) {
        if v.wire_tree() is Some {
            let t = v.wire_tree()->0;
            let ms = t->Obj_0;
            assert(ms == v.members_spec());
            reveal_strlit("@type");
            reveal_strlit("@extra");
            assert("@type"@.len() == 5);
            assert("@extra"@.len() == 6);
            reveal_with_fuel(get_spec, 4);
            lemma_get_spec_found(ms, "@type"@, 0);
            lemma_get_spec_found(ms, "@extra"@, 1);
            assert(tag_of(t) == Some(Self::tag_spec()));
            assert(ok_opt_str(t, "@extra"@));
            assert(Self::accepts(t));
            assert forall|w: Self| Self::decodes_from(t, w) implies #[trigger] w.eqv(v) by {
            }
        }
    }
}

impl RObject for ChatActionChoosingContact {
    open spec fn tag_chars(&self) -> Seq<char> {
        Self::tag_spec()
    }

    open spec fn extra_spec(&self) -> Option<Seq<char>> {
        opt_str_view(self.extra)
    }

    fn td_name(&self) -> (r: &'static str) {
        "chatActionChoosingContact"
    }

    fn extra(&self) -> (r: Option<String>) {
        clone_opt_string(&self.extra)
    }

    fn to_json(&self) -> (r: Result<String, EncodeError>) {
        crate::object::encode(self)
    }
}

impl TDChatAction for ChatActionChoosingContact {

}

impl ChatActionChoosingContact {
    pub fn from_json(json: &str) -> (r: Result<ChatActionChoosingContact, DecodeError>)
        ensures
            match crate::parse::parse_doc(json@) {
                Some(t) => match r {
                    Ok(v) => Self::accepts(t) && Self::decodes_from(t, v),
                    Err(e) => !Self::accepts(t) && crate::errors::err_matches(e, Self::err_of(t)),
                },
                None => r matches Err(e) && e == DecodeError::Malformed,
            },
    {
        crate::object::from_json::<ChatActionChoosingContact>(json)
    }

    pub fn builder() -> (r: RTDChatActionChoosingContactBuilder)
        ensures
            r.inner.extra is Some,
    {
        RTDChatActionChoosingContactBuilder {
            inner: ChatActionChoosingContact {
                extra: Some(new_token()),
            },
        }
    }
}

pub struct RTDChatActionChoosingContactBuilder {
    pub inner: ChatActionChoosingContact,
}

impl RTDChatActionChoosingContactBuilder {
    pub fn build(&self) -> (r: ChatActionChoosingContact)
        ensures
            r.eqv(self.inner),
    {
        self.inner.clone()
    }
}
/// The user is picking a location or venue to send
#[derive(Debug, PartialEq)]
pub struct ChatActionChoosingLocation {
    pub extra: Option<String>,
}

impl ChatActionChoosingLocation {
    pub open spec fn tag_spec() -> Seq<char> {
        "chatActionChoosingLocation"@
    }

    /// The members of the wire object, in the order they are written.
    pub open spec fn members_spec(self) -> Seq<(Seq<char>, SpecJson)> {
        seq![
            ("@type"@, SpecJson::Str(Self::tag_spec())),
            ("@extra"@, opt_str_tree(opt_str_view(self.extra))),
        ]
    }

    pub open spec fn fields_ok(t: SpecJson) -> bool {
        &&& ok_opt_str(t, "@extra"@)
    }

    pub open spec fn fail_field(t: SpecJson) -> Seq<char> {
        if !ok_opt_str(t, "@extra"@) {
            "@extra"@
        } else {
            Seq::empty()
        }
    }

    /// The encoding of a value carries exactly this type's tag.
    pub proof fn lemma_wire_tag(v: ChatActionChoosingLocation)
        ensures
            v.wire_tree() matches Some(t) ==> tag_of(t) == Some(ChatActionChoosingLocation::tag_spec()),
    {
        if v.wire_tree() is Some {
            let t = v.wire_tree()->0;
            let ms = t->Obj_0;
            lemma_get_spec_found(ms, "@type"@, 0);
        }
    }
}

impl Clone for ChatActionChoosingLocation {
    fn clone(&self) -> (res: Self)
        ensures
            res.eqv(*self),
    {
        ChatActionChoosingLocation {
            extra: clone_opt_string(&self.extra),
        }
    }
}

impl Wire for ChatActionChoosingLocation {
    open spec fn wire_tree(self) -> Option<SpecJson> {
        Some(SpecJson::Obj(self.members_spec()))
    }

    open spec fn accepts(t: SpecJson) -> bool {
        tag_of(t) is Some && Self::fields_ok(t)
    }

    open spec fn err_of(t: SpecJson) -> SpecDecodeError {
        match tag_of(t) {
            None => SpecDecodeError::Malformed,
            Some(_) => SpecDecodeError::FieldShapeMismatch(Self::tag_spec(), Self::fail_field(t)),
        }
    }

    open spec fn decodes_from(t: SpecJson, v: Self) -> bool {
        &&& m_opt_str(t, "@extra"@, v.extra)
    }

    open spec fn eqv(self, other: Self) -> bool {
        &&& eqv_opt_string(self.extra, other.extra)
    }

    fn clone_val(&self) -> (r: Self) {
        self.clone()
    }

    fn decode_tree(t: &JsonValue) -> (r: Result<Self, DecodeError>) {
        if get_tag(t).is_none() {
            return Err(DecodeError::Malformed);
        }
        let extra = match field_opt_string(t, "@extra") {
            Some(x) => x,
            None => {
                return Err(DecodeError::FieldShapeMismatch(
                    String::from_str("chatActionChoosingLocation"),
                    String::from_str("@extra"),
                ));
            },
        };
        Ok(ChatActionChoosingLocation { extra })
    }

    fn encode_tree(&self) -> (r: Result<JsonValue, EncodeError>) {
        let mut members: Vec<JsonMember> = Vec::new();
        proof {
            assert(view_members(members@) =~= Seq::<(Seq<char>, SpecJson)>::empty());
        }
        push_member(&mut members, "@type", JsonValue::Str(String::from_str("chatActionChoosingLocation")));
        push_member(&mut members, "@extra", opt_string_tree(&self.extra));
        let node = JsonValue::Obj(members);
        proof {
            assert(view_members(members@) =~= self.members_spec());
            assert(node@ == self.wire_tree()->0);
        }
        Ok(node)
    }

    proof fn lemma_wire_wf(v: Self) {
        if v.wire_tree() is Some {
            let t = v.wire_tree()->0;
            let ms = t->Obj_0;
            assert(ms == v.members_spec());
            assert forall|i: int| 0 <= i < ms.len() implies wf(#[trigger] ms[i].1) by {
            }
        }
    }

    proof fn lemma_round_trip(v: Self) {
        if v.wire_tree() is Some {
            let t = v.wire_tree()->0;
            let ms = t->Obj_0;
            assert(ms == v.members_spec());
            reveal_strlit("@type");
            reveal_strlit("@extra");
            assert("@type"@.len() == 5);
            assert("@extra"@.len() == 6);
            reveal_with_fuel(get_spec, 4);
            lemma_get_spec_found(ms, "@type"@, 0);
            lemma_get_spec_found(ms, "@extra"@, 1);
            assert(tag_of(t) == Some(Self::tag_spec()));
            assert(ok_opt_str(t, "@extra"@));
            assert(Self::accepts(t));
            assert forall|w: Self| Self::decodes_from(t, w) implies #[trigger] w.eqv(v) by {
            }
        }
    }
}

impl RObject for ChatActionChoosingLocation {
    open spec fn tag_chars(&self) -> Seq<char> {
        Self::tag_spec()
    }

    open spec fn extra_spec(&self) -> Option<Seq<char>> {
        opt_str_view(self.extra)
    }

    fn td_name(&self) -> (r: &'static str) {
        "chatActionChoosingLocation"
    }

    fn extra(&self) -> (r: Option<String>) {
        clone_opt_string(&self.extra)
    }

    fn to_json(&self) -> (r: Result<String, EncodeError>) {
        crate::object::encode(self)
    }
}

impl TDChatAction for ChatActionChoosingLocation {

}

impl ChatActionChoosingLocation {
    pub fn from_json(json: &str) -> (r: Result<ChatActionChoosingLocation, DecodeError>)
        ensures
            match crate::parse::parse_doc(json@) {
                Some(t) => match r {
                    Ok(v) => Self::accepts(t) && Self::decodes_from(t, v),
                    Err(e) => !Self::accepts(t) && crate::errors::err_matches(e, Self::err_of(t)),
                },
                None => r matches Err(e) && e == DecodeError::Malformed,
            },
    {
        crate::object::from_json::<ChatActionChoosingLocation>(json)
    }

    pub fn builder() -> (r: RTDChatActionChoosingLocationBuilder)
        ensures
            r.inner.extra is Some,
    {
        RTDChatActionChoosingLocationBuilder {
            inner: ChatActionChoosingLocation {
                extra: Some(new_token()),
            },
        }
    }
}

pub struct RTDChatActionChoosingLocationBuilder {
    pub inner: ChatActionChoosingLocation,
}

impl RTDChatActionChoosingLocationBuilder {
    pub fn build(&self) -> (r: ChatActionChoosingLocation)
        ensures
            r.eqv(self.inner),
    {
        self.inner.clone()
    }
}
/// The user is picking a sticker to send
#[derive(Debug, PartialEq)]
pub struct ChatActionChoosingSticker {
    pub extra: Option<String>,
}

impl ChatActionChoosingSticker {
    pub open spec fn tag_spec() -> Seq<char> {
        "chatActionChoosingSticker"@
    }

    /// The members of the wire object, in the order they are written.
    pub open spec fn members_spec(self) -> Seq<(Seq<char>, SpecJson)> {
        seq![
            ("@type"@, SpecJson::Str(Self::tag_spec())),
            ("@extra"@, opt_str_tree(opt_str_view(self.extra))),
        ]
    }

    pub open spec fn fields_ok(t: SpecJson) -> bool {
        &&& ok_opt_str(t, "@extra"@)
    }

    pub open spec fn fail_field(t: SpecJson) -> Seq<char> {
        if !ok_opt_str(t, "@extra"@) {
            "@extra"@
        } else {
            Seq::empty()
        }
    }

    /// The encoding of a value carries exactly this type's tag.
    pub proof fn lemma_wire_tag(v: ChatActionChoosingSticker)
        ensures
            v.wire_tree() matches Some(t) ==> tag_of(t) == Some(ChatActionChoosingSticker::tag_spec()),
    {
        if v.wire_tree() is Some {
            let t = v.wire_tree()->0;
            let ms = t->Obj_0;
            lemma_get_spec_found(ms, "@type"@, 0);
        }
    }
}

impl Clone for ChatActionChoosingSticker {
    fn clone(&self) -> (res: Self)
        ensures
            res.eqv(*self),
    {
        ChatActionChoosingSticker {
            extra: clone_opt_string(&self.extra),
        }
    }
}

impl Wire for ChatActionChoosingSticker {
    open spec fn wire_tree(self) -> Option<SpecJson> {
        Some(SpecJson::Obj(self.members_spec()))
    }

    open spec fn accepts(t: SpecJson) -> bool {
        tag_of(t) is Some && Self::fields_ok(t)
    }

    open spec fn err_of(t: SpecJson) -> SpecDecodeError {
        match tag_of(t) {
            None => SpecDecodeError::Malformed,
            Some(_) => SpecDecodeError::FieldShapeMismatch(Self::tag_spec(), Self::fail_field(t)),
        }
    }

    open spec fn decodes_from(t: SpecJson, v: Self) -> bool {
        &&& m_opt_str(t, "@extra"@, v.extra)
    }

    open spec fn eqv(self, other: Self) -> bool {
        &&& eqv_opt_string(self.extra, other.extra)
    }

    fn clone_val(&self) -> (r: Self) {
        self.clone()
    }

    fn decode_tree(t: &JsonValue) -> (r: Result<Self, DecodeError>) {
        if get_tag(t).is_none() {
            return Err(DecodeError::Malformed);
        }
        let extra = match field_opt_string(t, "@extra") {
            Some(x) => x,
            None => {
                return Err(DecodeError::FieldShapeMismatch(
                    String::from_str("chatActionChoosingSticker"),
                    String::from_str("@extra"),
                ));
            },
        };
        Ok(ChatActionChoosingSticker { extra })
    }

    fn encode_tree(&self) -> (r: Result<JsonValue, EncodeError>) {
        let mut members: Vec<JsonMember> = Vec::new();
        proof {
            assert(view_members(members@) =~= Seq::<(Seq<char>, SpecJson)>::empty());
        }
        push_member(&mut members, "@type", JsonValue::Str(String::from_str("chatActionChoosingSticker")));
        push_member(&mut members, "@extra", opt_string_tree(&self.extra));
        let node = JsonValue::Obj(members);
        proof {
            assert(view_members(members@) =~= self.members_spec());
            assert(node@ == self.wire_tree()->0);
        }
        Ok(node)
    }

    proof fn lemma_wire_wf(v: Self) {
        if v.wire_tree() is Some {
            let t = v.wire_tree()->0;
            let ms = t->Obj_0;
            assert(ms == v.members_spec());
            assert forall|i: int| 0 <= i < ms.len() implies wf(#[trigger] ms[i].1) by {
            }
        }
    }

    proof fn lemma_round_trip(v: Self) {
        if v.wire_tree() is Some {
            let t = v.wire_tree()->0;
            let ms = t->Obj_0;
            assert(ms == v.members_spec());
            reveal_strlit("@type");
            reveal_strlit("@extra");
            assert("@type"@.len() == 5);
            assert("@extra"@.len() == 6);
            reveal_with_fuel(get_spec, 4);
            lemma_get_spec_found(ms, "@type"@, 0);
            lemma_get_spec_found(ms, "@extra"@, 1);
            assert(tag_of(t) == Some(Self::tag_spec()));
            assert(ok_opt_str(t, "@extra"@));
            assert(Self::accepts(t));
            assert forall|w: Self| Self::decodes_from(t, w) implies #[trigger] w.eqv(v) by {
            }
        }
    }
}

impl RObject for ChatActionChoosingSticker {
    open spec fn tag_chars(&self) -> Seq<char> {
        Self::tag_spec()
    }

    open spec fn extra_spec(&self) -> Option<Seq<char>> {
        opt_str_view(self.extra)
    }

    fn td_name(&self) -> (r: &'static str) {
        "chatActionChoosingSticker"
    }

    fn extra(&self) -> (r: Option<String>) {
        clone_opt_string(&self.extra)
    }

    fn to_json(&self) -> (r: Result<String, EncodeError>) {
        crate::object::encode(self)
    }
}

impl TDChatAction for ChatActionChoosingSticker {

}

impl ChatActionChoosingSticker {
    pub fn from_json(json: &str) -> (r: Result<ChatActionChoosingSticker, DecodeError>)
        ensures
            match crate::parse::parse_doc(json@) {
                Some(t) => match r {
                    Ok(v) => Self::accepts(t) && Self::decodes_from(t, v),
                    Err(e) => !Self::accepts(t) && crate::errors::err_matches(e, Self::err_of(t)),
                },
                None => r matches Err(e) && e == DecodeError::Malformed,
            },
    {
        crate::object::from_json::<ChatActionChoosingSticker>(json)
    }

    pub fn builder() -> (r: RTDChatActionChoosingStickerBuilder)
        ensures
            r.inner.extra is Some,
    {
        RTDChatActionChoosingStickerBuilder {
            inner: ChatActionChoosingSticker {
                extra: Some(new_token()),
            },
        }
    }
}

pub struct RTDChatActionChoosingStickerBuilder {
    pub inner: ChatActionChoosingSticker,
}

impl RTDChatActionChoosingStickerBuilder {
    pub fn build(&self) -> (r: ChatActionChoosingSticker)
        ensures
            r.eqv(self.inner),
    {
        self.inner.clone()
    }
}
/// The user is recording a video
#[derive(Debug, PartialEq)]
pub struct ChatActionRecordingVideo {
    pub extra: Option<String>,
}

impl ChatActionRecordingVideo {
    pub open spec fn tag_spec() -> Seq<char> {
        "chatActionRecordingVideo"@
    }

    /// The members of the wire object, in the order they are written.
    pub open spec fn members_spec(self) -> Seq<(Seq<char>, SpecJson)> {
        seq![
            ("@type"@, SpecJson::Str(Self::tag_spec())),
            ("@extra"@, opt_str_tree(opt_str_view(self.extra))),
        ]
    }

    pub open spec fn fields_ok(t: SpecJson) -> bool {
        &&& ok_opt_str(t, "@extra"@)
    }

    pub open spec fn fail_field(t: SpecJson) -> Seq<char> {
        if !ok_opt_str(t, "@extra"@) {
            "@extra"@
        } else {
            Seq::empty()
        }
    }

    /// The encoding of a value carries exactly this type's tag.
    pub proof fn lemma_wire_tag(v: ChatActionRecordingVideo)
        ensures
            v.wire_tree() matches Some(t) ==> tag_of(t) == Some(ChatActionRecordingVideo::tag_spec()),
    {
        if v.wire_tree() is Some {
            let t = v.wire_tree()->0;
            let ms = t->Obj_0;
            lemma_get_spec_found(ms, "@type"@, 0);
        }
    }
}

impl Clone for ChatActionRecordingVideo {
    fn clone(&self) -> (res: Self)
        ensures
            res.eqv(*self),
    {
        ChatActionRecordingVideo {
            extra: clone_opt_string(&self.extra),
        }
    }
}

impl Wire for ChatActionRecordingVideo {
    open spec fn wire_tree(self) -> Option<SpecJson> {
        Some(SpecJson::Obj(self.members_spec()))
    }

    open spec fn accepts(t: SpecJson) -> bool {
        tag_of(t) is Some && Self::fields_ok(t)
    }

    open spec fn err_of(t: SpecJson) -> SpecDecodeError {
        match tag_of(t) {
            None => SpecDecodeError::Malformed,
            Some(_) => SpecDecodeError::FieldShapeMismatch(Self::tag_spec(), Self::fail_field(t)),
        }
    }

    open spec fn decodes_from(t: SpecJson, v: Self) -> bool {
        &&& m_opt_str(t, "@extra"@, v.extra)
    }

    open spec fn eqv(self, other: Self) -> bool {
        &&& eqv_opt_string(self.extra, other.extra)
    }

    fn clone_val(&self) -> (r: Self) {
        self.clone()
    }

    fn decode_tree(t: &JsonValue) -> (r: Result<Self, DecodeError>) {
        if get_tag(t).is_none() {
            return Err(DecodeError::Malformed);
        }
        let extra = match field_opt_string(t, "@extra") {
            Some(x) => x,
            None => {
                return Err(DecodeError::FieldShapeMismatch(
                    String::from_str("chatActionRecordingVideo"),
                    String::from_str("@extra"),
                ));
            },
        };
        Ok(ChatActionRecordingVideo { extra })
    }

    fn encode_tree(&self) -> (r: Result<JsonValue, EncodeError>) {
        let mut members: Vec<JsonMember> = Vec::new();
        proof {
            assert(view_members(members@) =~= Seq::<(Seq<char>, SpecJson)>::empty());
        }
        push_member(&mut members, "@type", JsonValue::Str(String::from_str("chatActionRecordingVideo")));
        push_member(&mut members, "@extra", opt_string_tree(&self.extra));
        let node = JsonValue::Obj(members);
        proof {
            assert(view_members(members@) =~= self.members_spec());
            assert(node@ == self.wire_tree()->0);
        }
        Ok(node)
    }

    proof fn lemma_wire_wf(v: Self) {
        if v.wire_tree() is Some {
            let t = v.wire_tree()->0;
            let ms = t->Obj_0;
            assert(ms == v.members_spec());
            assert forall|i: int| 0 <= i < ms.len() implies wf(#[trigger] ms[i].1) by {
            }
        }
    }

    proof fn lemma_round_trip(v: Self) {
        if v.wire_tree() is Some {
            let t = v.wire_tree()->0;
            let ms = t->Obj_0;
            assert(ms == v.members_spec());
            reveal_strlit("@type");
            reveal_strlit("@extra");
            assert("@type"@.len() == 5);
            assert("@extra"@.len() == 6);
            reveal_with_fuel(get_spec, 4);
            lemma_get_spec_found(ms, "@type"@, 0);
            lemma_get_spec_found(ms, "@extra"@, 1);
            assert(tag_of(t) == Some(Self::tag_spec()));
            assert(ok_opt_str(t, "@extra"@));
            assert(Self::accepts(t));
            assert forall|w: Self| Self::decodes_from(t, w) implies #[trigger] w.eqv(v) by {
            }
        }
    }
}

impl RObject for ChatActionRecordingVideo {
    open spec fn tag_chars(&self) -> Seq<char> {
        Self::tag_spec()
    }

    open spec fn extra_spec(&self) -> Option<Seq<char>> {
        opt_str_view(self.extra)
    }

    fn td_name(&self) -> (r: &'static str) {
        "chatActionRecordingVideo"
    }

    fn extra(&self) -> (r: Option<String>) {
        clone_opt_string(&self.extra)
    }

    fn to_json(&self) -> (r: Result<String, EncodeError>) {
        crate::object::encode(self)
    }
}

impl TDChatAction for ChatActionRecordingVideo {

}

impl ChatActionRecordingVideo {
    pub fn from_json(json: &str) -> (r: Result<ChatActionRecordingVideo, DecodeError>)
        ensures
            match crate::parse::parse_doc(json@) {
                Some(t) => match r {
                    Ok(v) => Self::accepts(t) && Self::decodes_from(t, v),
                    Err(e) => !Self::accepts(t) && crate::errors::err_matches(e, Self::err_of(t)),
                },
                None => r matches Err(e) && e == DecodeError::Malformed,
            },
    {
        crate::object::from_json::<ChatActionRecordingVideo>(json)
    }

    pub fn builder() -> (r: RTDChatActionRecordingVideoBuilder)
        ensures
            r.inner.extra is Some,
    {
        RTDChatActionRecordingVideoBuilder {
            inner: ChatActionRecordingVideo {
                extra: Some(new_token()),
            },
        }
    }
}

pub struct RTDChatActionRecordingVideoBuilder {
    pub inner: ChatActionRecordingVideo,
}

impl RTDChatActionRecordingVideoBuilder {
    pub fn build(&self) -> (r: ChatActionRecordingVideo)
        ensures
            r.eqv(self.inner),
    {
        self.inner.clone()
    }
}
/// The user is recording a video note
#[derive(Debug, PartialEq)]
pub struct ChatActionRecordingVideoNote {
    pub extra: Option<String>,
}

impl ChatActionRecordingVideoNote {
    pub open spec fn tag_spec() -> Seq<char> {
        "chatActionRecordingVideoNote"@
    }

    /// The members of the wire object, in the order they are written.
    pub open spec fn members_spec(self) -> Seq<(Seq<char>, SpecJson)> {
        seq![
            ("@type"@, SpecJson::Str(Self::tag_spec())),
            ("@extra"@, opt_str_tree(opt_str_view(self.extra))),
        ]
    }

    pub open spec fn fields_ok(t: SpecJson) -> bool {
        &&& ok_opt_str(t, "@extra"@)
    }

    pub open spec fn fail_field(t: SpecJson) -> Seq<char> {
        if !ok_opt_str(t, "@extra"@) {
            "@extra"@
        } else {
            Seq::empty()
        }
    }

    /// The encoding of a value carries exactly this type's tag.
    pub proof fn lemma_wire_tag(v: ChatActionRecordingVideoNote)
        ensures
            v.wire_tree() matches Some(t) ==> tag_of(t) == Some(ChatActionRecordingVideoNote::tag_spec()),
    {
        if v.wire_tree() is Some {
            let t = v.wire_tree()->0;
            let ms = t->Obj_0;
            lemma_get_spec_found(ms, "@type"@, 0);
        }
    }
}

impl Clone for ChatActionRecordingVideoNote {
    fn clone(&self) -> (res: Self)
        ensures
            res.eqv(*self),
    {
        ChatActionRecordingVideoNote {
            extra: clone_opt_string(&self.extra),
        }
    }
}

impl Wire for ChatActionRecordingVideoNote {
    open spec fn wire_tree(self) -> Option<SpecJson> {
        Some(SpecJson::Obj(self.members_spec()))
    }

    open spec fn accepts(t: SpecJson) -> bool {
        tag_of(t) is Some && Self::fields_ok(t)
    }

    open spec fn err_of(t: SpecJson) -> SpecDecodeError {
        match tag_of(t) {
            None => SpecDecodeError::Malformed,
            Some(_) => SpecDecodeError::FieldShapeMismatch(Self::tag_spec(), Self::fail_field(t)),
        }
    }

    open spec fn decodes_from(t: SpecJson, v: Self) -> bool {
        &&& m_opt_str(t, "@extra"@, v.extra)
    }

    open spec fn eqv(self, other: Self) -> bool {
        &&& eqv_opt_string(self.extra, other.extra)
    }

    fn clone_val(&self) -> (r: Self) {
        self.clone()
    }

    fn decode_tree(t: &JsonValue) -> (r: Result<Self, DecodeError>) {
        if get_tag(t).is_none() {
            return Err(DecodeError::Malformed);
        }
        let extra = match field_opt_string(t, "@extra") {
            Some(x) => x,
            None => {
                return Err(DecodeError::FieldShapeMismatch(
                    String::from_str("chatActionRecordingVideoNote"),
                    String::from_str("@extra"),
                ));
            },
        };
        Ok(ChatActionRecordingVideoNote { extra })
    }

    fn encode_tree(&self) -> (r: Result<JsonValue, EncodeError>) {
        let mut members: Vec<JsonMember> = Vec::new();
        proof {
            assert(view_members(members@) =~= Seq::<(Seq<char>, SpecJson)>::empty());
        }
        push_member(&mut members, "@type", JsonValue::Str(String::from_str("chatActionRecordingVideoNote")));
        push_member(&mut members, "@extra", opt_string_tree(&self.extra));
        let node = JsonValue::Obj(members);
        proof {
            assert(view_members(members@) =~= self.members_spec());
            assert(node@ == self.wire_tree()->0);
        }
        Ok(node)
    }

    proof fn lemma_wire_wf(v: Self) {
        if v.wire_tree() is Some {
            let t = v.wire_tree()->0;
            let ms = t->Obj_0;
            assert(ms == v.members_spec());
            assert forall|i: int| 0 <= i < ms.len() implies wf(#[trigger] ms[i].1) by {
            }
        }
    }

    proof fn lemma_round_trip(v: Self) {
        if v.wire_tree() is Some {
            let t = v.wire_tree()->0;
            let ms = t->Obj_0;
            assert(ms == v.members_spec());
            reveal_strlit("@type");
            reveal_strlit("@extra");
            assert("@type"@.len() == 5);
            assert("@extra"@.len() == 6);
            reveal_with_fuel(get_spec, 4);
            lemma_get_spec_found(ms, "@type"@, 0);
            lemma_get_spec_found(ms, "@extra"@, 1);
            assert(tag_of(t) == Some(Self::tag_spec()));
            assert(ok_opt_str(t, "@extra"@));
            assert(Self::accepts(t));
            assert forall|w: Self| Self::decodes_from(t, w) implies #[trigger] w.eqv(v) by {
            }
        }
    }
}

impl RObject for ChatActionRecordingVideoNote {
    open spec fn tag_chars(&self) -> Seq<char> {
        Self::tag_spec()
    }

    open spec fn extra_spec(&self) -> Option<Seq<char>> {
        opt_str_view(self.extra)
    }

    fn td_name(&self) -> (r: &'static str) {
        "chatActionRecordingVideoNote"
    }

    fn extra(&self) -> (r: Option<String>) {
        clone_opt_string(&self.extra)
    }

    fn to_json(&self) -> (r: Result<String, EncodeError>) {
        crate::object::encode(self)
    }
}

impl TDChatAction for ChatActionRecordingVideoNote {

}

impl ChatActionRecordingVideoNote {
    pub fn from_json(json: &str) -> (r: Result<ChatActionRecordingVideoNote, DecodeError>)
        ensures
            match crate::parse::parse_doc(json@) {
                Some(t) => match r {
                    Ok(v) => Self::accepts(t) && Self::decodes_from(t, v),
                    Err(e) => !Self::accepts(t) && crate::errors::err_matches(e, Self::err_of(t)),
                },
                None => r matches Err(e) && e == DecodeError::Malformed,
            },
    {
        crate::object::from_json::<ChatActionRecordingVideoNote>(json)
    }

    pub fn builder() -> (r: RTDChatActionRecordingVideoNoteBuilder)
        ensures
            r.inner.extra is Some,
    {
        RTDChatActionRecordingVideoNoteBuilder {
            inner: ChatActionRecordingVideoNote {
                extra: Some(new_token()),
            },
        }
    }
}

pub struct RTDChatActionRecordingVideoNoteBuilder {
    pub inner: ChatActionRecordingVideoNote,
}

impl RTDChatActionRecordingVideoNoteBuilder {
    pub fn build(&self) -> (r: ChatActionRecordingVideoNote)
        ensures
            r.eqv(self.inner),
    {
        self.inner.clone()
    }
}
/// The user is recording a voice note
#[derive(Debug, PartialEq)]
pub struct ChatActionRecordingVoiceNote {
    pub extra: Option<String>,
}

impl ChatActionRecordingVoiceNote {
    pub open spec fn tag_spec() -> Seq<char> {
        "chatActionRecordingVoiceNote"@
    }

    /// The members of the wire object, in the order they are written.
    pub open spec fn members_spec(self) -> Seq<(Seq<char>, SpecJson)> {
        seq![
            ("@type"@, SpecJson::Str(Self::tag_spec())),
            ("@extra"@, opt_str_tree(opt_str_view(self.extra))),
        ]
    }

    pub open spec fn fields_ok(t: SpecJson) -> bool {
        &&& ok_opt_str(t, "@extra"@)
    }

    pub open spec fn fail_field(t: SpecJson) -> Seq<char> {
        if !ok_opt_str(t, "@extra"@) {
            "@extra"@
        } else {
            Seq::empty()
        }
    }

    /// The encoding of a value carries exactly this type's tag.
    pub proof fn lemma_wire_tag(v: ChatActionRecordingVoiceNote)
        ensures
            v.wire_tree() matches Some(t) ==> tag_of(t) == Some(ChatActionRecordingVoiceNote::tag_spec()),
    {
        if v.wire_tree() is Some {
            let t = v.wire_tree()->0;
            let ms = t->Obj_0;
            lemma_get_spec_found(ms, "@type"@, 0);
        }
    }
}

impl Clone for ChatActionRecordingVoiceNote {
    fn clone(&self) -> (res: Self)
        ensures
            res.eqv(*self),
    {
        ChatActionRecordingVoiceNote {
            extra: clone_opt_string(&self.extra),
        }
    }
}

impl Wire for ChatActionRecordingVoiceNote {
    open spec fn wire_tree(self) -> Option<SpecJson> {
        Some(SpecJson::Obj(self.members_spec()))
    }

    open spec fn accepts(t: SpecJson) -> bool {
        tag_of(t) is Some && Self::fields_ok(t)
    }

    open spec fn err_of(t: SpecJson) -> SpecDecodeError {
        match tag_of(t) {
            None => SpecDecodeError::Malformed,
            Some(_) => SpecDecodeError::FieldShapeMismatch(Self::tag_spec(), Self::fail_field(t)),
        }
    }

    open spec fn decodes_from(t: SpecJson, v: Self) -> bool {
        &&& m_opt_str(t, "@extra"@, v.extra)
    }

    open spec fn eqv(self, other: Self) -> bool {
        &&& eqv_opt_string(self.extra, other.extra)
    }

    fn clone_val(&self) -> (r: Self) {
        self.clone()
    }

    fn decode_tree(t: &JsonValue) -> (r: Result<Self, DecodeError>) {
        if get_tag(t).is_none() {
            return Err(DecodeError::Malformed);
        }
        let extra = match field_opt_string(t, "@extra") {
            Some(x) => x,
            None => {
                return Err(DecodeError::FieldShapeMismatch(
                    String::from_str("chatActionRecordingVoiceNote"),
                    String::from_str("@extra"),
                ));
            },
        };
        Ok(ChatActionRecordingVoiceNote { extra })
    }

    fn encode_tree(&self) -> (r: Result<JsonValue, EncodeError>) {
        let mut members: Vec<JsonMember> = Vec::new();
        proof {
            assert(view_members(members@) =~= Seq::<(Seq<char>, SpecJson)>::empty());
        }
        push_member(&mut members, "@type", JsonValue::Str(String::from_str("chatActionRecordingVoiceNote")));
        push_member(&mut members, "@extra", opt_string_tree(&self.extra));
        let node = JsonValue::Obj(members);
        proof {
            assert(view_members(members@) =~= self.members_spec());
            assert(node@ == self.wire_tree()->0);
        }
        Ok(node)
    }

    proof fn lemma_wire_wf(v: Self) {
        if v.wire_tree() is Some {
            let t = v.wire_tree()->0;
            let ms = t->Obj_0;
            assert(ms == v.members_spec());
            assert forall|i: int| 0 <= i < ms.len() implies wf(#[trigger] ms[i].1) by {
            }
        }
    }

    proof fn lemma_round_trip(v: Self) {
        if v.wire_tree() is Some {
            let t = v.wire_tree()->0;
            let ms = t->Obj_0;
            assert(ms == v.members_spec());
            reveal_strlit("@type");
            reveal_strlit("@extra");
            assert("@type"@.len() == 5);
            assert("@extra"@.len() == 6);
            reveal_with_fuel(get_spec, 4);
            lemma_get_spec_found(ms, "@type"@, 0);
            lemma_get_spec_found(ms, "@extra"@, 1);
            assert(tag_of(t) == Some(Self::tag_spec()));
            assert(ok_opt_str(t, "@extra"@));
            assert(Self::accepts(t));
            assert forall|w: Self| Self::decodes_from(t, w) implies #[trigger] w.eqv(v) by {
            }
        }
    }
}

impl RObject for ChatActionRecordingVoiceNote {
    open spec fn tag_chars(&self) -> Seq<char> {
        Self::tag_spec()
    }

    open spec fn extra_spec(&self) -> Option<Seq<char>> {
        opt_str_view(self.extra)
    }

    fn td_name(&self) -> (r: &'static str) {
        "chatActionRecordingVoiceNote"
    }

    fn extra(&self) -> (r: Option<String>) {
        clone_opt_string(&self.extra)
    }

    fn to_json(&self) -> (r: Result<String, EncodeError>) {
        crate::object::encode(self)
    }
}

impl TDChatAction for ChatActionRecordingVoiceNote {

}

impl ChatActionRecordingVoiceNote {
    pub fn from_json(json: &str) -> (r: Result<ChatActionRecordingVoiceNote, DecodeError>)
        ensures
            match crate::parse::parse_doc(json@) {
                Some(t) => match r {
                    Ok(v) => Self::accepts(t) && Self::decodes_from(t, v),
                    Err(e) => !Self::accepts(t) && crate::errors::err_matches(e, Self::err_of(t)),
                },
                None => r matches Err(e) && e == DecodeError::Malformed,
            },
    {
        crate::object::from_json::<ChatActionRecordingVoiceNote>(json)
    }

    pub fn builder() -> (r: RTDChatActionRecordingVoiceNoteBuilder)
        ensures
            r.inner.extra is Some,
    {
        RTDChatActionRecordingVoiceNoteBuilder {
            inner: ChatActionRecordingVoiceNote {
                extra: Some(new_token()),
            },
        }
    }
}

pub struct RTDChatActionRecordingVoiceNoteBuilder {
    pub inner: ChatActionRecordingVoiceNote,
}

impl RTDChatActionRecordingVoiceNoteBuilder {
    pub fn build(&self) -> (r: ChatActionRecordingVoiceNote)
        ensures
            r.eqv(self.inner),
    {
        self.inner.clone()
    }
}
/// The user has started to play a game
#[derive(Debug, PartialEq)]
pub struct ChatActionStartPlayingGame {
    pub extra: Option<String>,
}

impl ChatActionStartPlayingGame {
    pub open spec fn tag_spec() -> Seq<char> {
        "chatActionStartPlayingGame"@
    }

    /// The members of the wire object, in the order they are written.
    pub open spec fn members_spec(self) -> Seq<(Seq<char>, SpecJson)> {
        seq![
            ("@type"@, SpecJson::Str(Self::tag_spec())),
            ("@extra"@, opt_str_tree(opt_str_view(self.extra))),
        ]
    }

    pub open spec fn fields_ok(t: SpecJson) -> bool {
        &&& ok_opt_str(t, "@extra"@)
    }

    pub open spec fn fail_field(t: SpecJson) -> Seq<char> {
        if !ok_opt_str(t, "@extra"@) {
            "@extra"@
        } else {
            Seq::empty()
        }
    }

    /// The encoding of a value carries exactly this type's tag.
    pub proof fn lemma_wire_tag(v: ChatActionStartPlayingGame)
        ensures
            v.wire_tree() matches Some(t) ==> tag_of(t) == Some(ChatActionStartPlayingGame::tag_spec()),
    {
        if v.wire_tree() is Some {
            let t = v.wire_tree()->0;
            let ms = t->Obj_0;
            lemma_get_spec_found(ms, "@type"@, 0);
        }
    }
}

impl Clone for ChatActionStartPlayingGame {
    fn clone(&self) -> (res: Self)
        ensures
            res.eqv(*self),
    {
        ChatActionStartPlayingGame {
            extra: clone_opt_string(&self.extra),
        }
    }
}

impl Wire for ChatActionStartPlayingGame {
    open spec fn wire_tree(self) -> Option<SpecJson> {
        Some(SpecJson::Obj(self.members_spec()))
    }

    open spec fn accepts(t: SpecJson) -> bool {
        tag_of(t) is Some && Self::fields_ok(t)
    }

    open spec fn err_of(t: SpecJson) -> SpecDecodeError {
        match tag_of(t) {
            None => SpecDecodeError::Malformed,
            Some(_) => SpecDecodeError::FieldShapeMismatch(Self::tag_spec(), Self::fail_field(t)),
        }
    }

    open spec fn decodes_from(t: SpecJson, v: Self) -> bool {
        &&& m_opt_str(t, "@extra"@, v.extra)
    }

    open spec fn eqv(self, other: Self) -> bool {
        &&& eqv_opt_string(self.extra, other.extra)
    }

    fn clone_val(&self) -> (r: Self) {
        self.clone()
    }

    fn decode_tree(t: &JsonValue) -> (r: Result<Self, DecodeError>) {
        if get_tag(t).is_none() {
            return Err(DecodeError::Malformed);
        }
        let extra = match field_opt_string(t, "@extra") {
            Some(x) => x,
            None => {
                return Err(DecodeError::FieldShapeMismatch(
                    String::from_str("chatActionStartPlayingGame"),
                    String::from_str("@extra"),
                ));
            },
        };
        Ok(ChatActionStartPlayingGame { extra })
    }

    fn encode_tree(&self) -> (r: Result<JsonValue, EncodeError>) {
        let mut members: Vec<JsonMember> = Vec::new();
        proof {
            assert(view_members(members@) =~= Seq::<(Seq<char>, SpecJson)>::empty());
        }
        push_member(&mut members, "@type", JsonValue::Str(String::from_str("chatActionStartPlayingGame")));
        push_member(&mut members, "@extra", opt_string_tree(&self.extra));
        let node = JsonValue::Obj(members);
        proof {
            assert(view_members(members@) =~= self.members_spec());
            assert(node@ == self.wire_tree()->0);
        }
        Ok(node)
    }

    proof fn lemma_wire_wf(v: Self) {
        if v.wire_tree() is Some {
            let t = v.wire_tree()->0;
            let ms = t->Obj_0;
            assert(ms == v.members_spec());
            assert forall|i: int| 0 <= i < ms.len() implies wf(#[trigger] ms[i].1) by {
            }
        }
    }

    proof fn lemma_round_trip(v: Self) {
        if v.wire_tree() is Some {
            let t = v.wire_tree()->0;
            let ms = t->Obj_0;
            assert(ms == v.members_spec());
            reveal_strlit("@type");
            reveal_strlit("@extra");
            assert("@type"@.len() == 5);
            assert("@extra"@.len() == 6);
            reveal_with_fuel(get_spec, 4);
            lemma_get_spec_found(ms, "@type"@, 0);
            lemma_get_spec_found(ms, "@extra"@, 1);
            assert(tag_of(t) == Some(Self::tag_spec()));
            assert(ok_opt_str(t, "@extra"@));
            assert(Self::accepts(t));
            assert forall|w: Self| Self::decodes_from(t, w) implies #[trigger] w.eqv(v) by {
            }
        }
    }
}

impl RObject for ChatActionStartPlayingGame {
    open spec fn tag_chars(&self) -> Seq<char> {
        Self::tag_spec()
    }

    open spec fn extra_spec(&self) -> Option<Seq<char>> {
        opt_str_view(self.extra)
    }

    fn td_name(&self) -> (r: &'static str) {
        "chatActionStartPlayingGame"
    }

    fn extra(&self) -> (r: Option<String>) {
        clone_opt_string(&self.extra)
    }

    fn to_json(&self) -> (r: Result<String, EncodeError>) {
        crate::object::encode(self)
    }
}

impl TDChatAction for ChatActionStartPlayingGame {

}

impl ChatActionStartPlayingGame {
    pub fn from_json(json: &str) -> (r: Result<ChatActionStartPlayingGame, DecodeError>)
        ensures
            match crate::parse::parse_doc(json@) {
                Some(t) => match r {
                    Ok(v) => Self::accepts(t) && Self::decodes_from(t, v),
                    Err(e) => !Self::accepts(t) && crate::errors::err_matches(e, Self::err_of(t)),
                },
                None => r matches Err(e) && e == DecodeError::Malformed,
            },
    {
        crate::object::from_json::<ChatActionStartPlayingGame>(json)
    }

    pub fn builder() -> (r: RTDChatActionStartPlayingGameBuilder)
        ensures
            r.inner.extra is Some,
    {
        RTDChatActionStartPlayingGameBuilder {
            inner: ChatActionStartPlayingGame {
                extra: Some(new_token()),
            },
        }
    }
}

pub struct RTDChatActionStartPlayingGameBuilder {
    pub inner: ChatActionStartPlayingGame,
}

impl RTDChatActionStartPlayingGameBuilder {
    pub fn build(&self) -> (r: ChatActionStartPlayingGame)
        ensures
            r.eqv(self.inner),
    {
        self.inner.clone()
    }
}
/// The user is typing a message
#[derive(Debug, PartialEq)]
pub struct ChatActionTyping {
    pub extra: Option<String>,
}

impl ChatActionTyping {
    pub open spec fn tag_spec() -> Seq<char> {
        "chatActionTyping"@
    }

    /// The members of the wire object, in the order they are written.
    pub open spec fn members_spec(self) -> Seq<(Seq<char>, SpecJson)> {
        seq![
            ("@type"@, SpecJson::Str(Self::tag_spec())),
            ("@extra"@, opt_str_tree(opt_str_view(self.extra))),
        ]
    }

    pub open spec fn fields_ok(t: SpecJson) -> bool {
        &&& ok_opt_str(t, "@extra"@)
    }

    pub open spec fn fail_field(t: SpecJson) -> Seq<char> {
        if !ok_opt_str(t, "@extra"@) {
            "@extra"@
        } else {
            Seq::empty()
        }
    }

    /// The encoding of a value carries exactly this type's tag.
    pub proof fn lemma_wire_tag(v: ChatActionTyping)
        ensures
            v.wire_tree() matches Some(t) ==> tag_of(t) == Some(ChatActionTyping::tag_spec()),
    {
        if v.wire_tree() is Some {
            let t = v.wire_tree()->0;
            let ms = t->Obj_0;
            lemma_get_spec_found(ms, "@type"@, 0);
        }
    }
}

impl Clone for ChatActionTyping {
    fn clone(&self) -> (res: Self)
        ensures
            res.eqv(*self),
    {
        ChatActionTyping {
            extra: clone_opt_string(&self.extra),
        }
    }
}

impl Wire for ChatActionTyping {
    open spec fn wire_tree(self) -> Option<SpecJson> {
        Some(SpecJson::Obj(self.members_spec()))
    }

    open spec fn accepts(t: SpecJson) -> bool {
        tag_of(t) is Some && Self::fields_ok(t)
    }

    open spec fn err_of(t: SpecJson) -> SpecDecodeError {
        match tag_of(t) {
            None => SpecDecodeError::Malformed,
            Some(_) => SpecDecodeError::FieldShapeMismatch(Self::tag_spec(), Self::fail_field(t)),
        }
    }

    open spec fn decodes_from(t: SpecJson, v: Self) -> bool {
        &&& m_opt_str(t, "@extra"@, v.extra)
    }

    open spec fn eqv(self, other: Self) -> bool {
        &&& eqv_opt_string(self.extra, other.extra)
    }

    fn clone_val(&self) -> (r: Self) {
        self.clone()
    }

    fn decode_tree(t: &JsonValue) -> (r: Result<Self, DecodeError>) {
        if get_tag(t).is_none() {
            return Err(DecodeError::Malformed);
        }
        let extra = match field_opt_string(t, "@extra") {
            Some(x) => x,
            None => {
                return Err(DecodeError::FieldShapeMismatch(
                    String::from_str("chatActionTyping"),
                    String::from_str("@extra"),
                ));
            },
        };
        Ok(ChatActionTyping { extra })
    }

    fn encode_tree(&self) -> (r: Result<JsonValue, EncodeError>) {
        let mut members: Vec<JsonMember> = Vec::new();
        proof {
            assert(view_members(members@) =~= Seq::<(Seq<char>, SpecJson)>::empty());
        }
        push_member(&mut members, "@type", JsonValue::Str(String::from_str("chatActionTyping")));
        push_member(&mut members, "@extra", opt_string_tree(&self.extra));
        let node = JsonValue::Obj(members);
        proof {
            assert(view_members(members@) =~= self.members_spec());
            assert(node@ == self.wire_tree()->0);
        }
        Ok(node)
    }

    proof fn lemma_wire_wf(v: Self) {
        if v.wire_tree() is Some {
            let t = v.wire_tree()->0;
            let ms = t->Obj_0;
            assert(ms == v.members_spec());
            assert forall|i: int| 0 <= i < ms.len() implies wf(#[trigger] ms[i].1) by {
            }
        }
    }

    proof fn lemma_round_trip(v: Self) {
        if v.wire_tree() is Some {
            let t = v.wire_tree()->0;
            let ms = t->Obj_0;
            assert(ms == v.members_spec());
            reveal_strlit("@type");
            reveal_strlit("@extra");
            assert("@type"@.len() == 5);
            assert("@extra"@.len() == 6);
            reveal_with_fuel(get_spec, 4);
            lemma_get_spec_found(ms, "@type"@, 0);
            lemma_get_spec_found(ms, "@extra"@, 1);
            assert(tag_of(t) == Some(Self::tag_spec()));
            assert(ok_opt_str(t, "@extra"@));
            assert(Self::accepts(t));
            assert forall|w: Self| Self::decodes_from(t, w) implies #[trigger] w.eqv(v) by {
            }
        }
    }
}

impl RObject for ChatActionTyping {
    open spec fn tag_chars(&self) -> Seq<char> {
        Self::tag_spec()
    }

    open spec fn extra_spec(&self) -> Option<Seq<char>> {
        opt_str_view(self.extra)
    }

    fn td_name(&self) -> (r: &'static str) {
        "chatActionTyping"
    }

    fn extra(&self) -> (r: Option<String>) {
        clone_opt_string(&self.extra)
    }

    fn to_json(&self) -> (r: Result<String, EncodeError>) {
        crate::object::encode(self)
    }
}

impl TDChatAction for ChatActionTyping {

}

impl ChatActionTyping {
    pub fn from_json(json: &str) -> (r: Result<ChatActionTyping, DecodeError>)
        ensures
            match crate::parse::parse_doc(json@) {
                Some(t) => match r {
                    Ok(v) => Self::accepts(t) && Self::decodes_from(t, v),
                    Err(e) => !Self::accepts(t) && crate::errors::err_matches(e, Self::err_of(t)),
                },
                None => r matches Err(e) && e == DecodeError::Malformed,
            },
    {
        crate::object::from_json::<ChatActionTyping>(json)
    }

    pub fn builder() -> (r: RTDChatActionTypingBuilder)
        ensures
            r.inner.extra is Some,
    {
        RTDChatActionTypingBuilder {
            inner: ChatActionTyping {
                extra: Some(new_token()),
            },
        }
    }
}

pub struct RTDChatActionTypingBuilder {
    pub inner: ChatActionTyping,
}

impl RTDChatActionTypingBuilder {
    pub fn build(&self) -> (r: ChatActionTyping)
        ensures
            r.eqv(self.inner),
    {
        self.inner.clone()
    }
}
/// The user is uploading a document
#[derive(Debug, PartialEq)]
pub struct ChatActionUploadingDocument {
    pub extra: Option<String>,
    /// Upload progress, as a percentage
    pub progress: i64,
}

impl ChatActionUploadingDocument {
    pub open spec fn tag_spec() -> Seq<char> {
        "chatActionUploadingDocument"@
    }

    /// The members of the wire object, in the order they are written.
    pub open spec fn members_spec(self) -> Seq<(Seq<char>, SpecJson)> {
        seq![
            ("@type"@, SpecJson::Str(Self::tag_spec())),
            ("@extra"@, opt_str_tree(opt_str_view(self.extra))),
            ("progress"@, SpecJson::Num(i64_lex(self.progress as int))),
        ]
    }

    pub open spec fn fields_ok(t: SpecJson) -> bool {
        &&& ok_opt_str(t, "@extra"@)
        &&& ok_i64(t, "progress"@)
    }

    pub open spec fn fail_field(t: SpecJson) -> Seq<char> {
        if !ok_opt_str(t, "@extra"@) {
            "@extra"@
        } else if !(ok_i64(t, "progress"@)) {
            "progress"@
        } else {
            Seq::empty()
        }
    }

    /// The encoding of a value carries exactly this type's tag.
    pub proof fn lemma_wire_tag(v: ChatActionUploadingDocument)
        ensures
            v.wire_tree() matches Some(t) ==> tag_of(t) == Some(ChatActionUploadingDocument::tag_spec()),
    {
        if v.wire_tree() is Some {
            let t = v.wire_tree()->0;
            let ms = t->Obj_0;
            lemma_get_spec_found(ms, "@type"@, 0);
        }
    }
}

impl Clone for ChatActionUploadingDocument {
    fn clone(&self) -> (res: Self)
        ensures
            res.eqv(*self),
    {
        ChatActionUploadingDocument {
            extra: clone_opt_string(&self.extra),
            progress: self.progress,
        }
    }
}

impl Wire for ChatActionUploadingDocument {
    open spec fn wire_tree(self) -> Option<SpecJson> {
        Some(SpecJson::Obj(self.members_spec()))
    }

    open spec fn accepts(t: SpecJson) -> bool {
        tag_of(t) is Some && Self::fields_ok(t)
    }

    open spec fn err_of(t: SpecJson) -> SpecDecodeError {
        match tag_of(t) {
            None => SpecDecodeError::Malformed,
            Some(_) => SpecDecodeError::FieldShapeMismatch(Self::tag_spec(), Self::fail_field(t)),
        }
    }

    open spec fn decodes_from(t: SpecJson, v: Self) -> bool {
        &&& m_opt_str(t, "@extra"@, v.extra)
        &&& m_i64(t, "progress"@, v.progress)
    }

    open spec fn eqv(self, other: Self) -> bool {
        &&& eqv_opt_string(self.extra, other.extra)
        &&& self.progress == other.progress
    }

    fn clone_val(&self) -> (r: Self) {
        self.clone()
    }

    fn decode_tree(t: &JsonValue) -> (r: Result<Self, DecodeError>) {
        if get_tag(t).is_none() {
            return Err(DecodeError::Malformed);
        }
        let extra = match field_opt_string(t, "@extra") {
            Some(x) => x,
            None => {
                return Err(DecodeError::FieldShapeMismatch(
                    String::from_str("chatActionUploadingDocument"),
                    String::from_str("@extra"),
                ));
            },
        };
        let progress = match field_i64(t, "progress") {
            Some(x) => x,
            None => {
                return Err(DecodeError::FieldShapeMismatch(
                    String::from_str("chatActionUploadingDocument"),
                    String::from_str("progress"),
                ));
            },
        };
        Ok(ChatActionUploadingDocument { extra, progress })
    }

    fn encode_tree(&self) -> (r: Result<JsonValue, EncodeError>) {
        let mut members: Vec<JsonMember> = Vec::new();
        proof {
            assert(view_members(members@) =~= Seq::<(Seq<char>, SpecJson)>::empty());
        }
        push_member(&mut members, "@type", JsonValue::Str(String::from_str("chatActionUploadingDocument")));
        push_member(&mut members, "@extra", opt_string_tree(&self.extra));
        push_member(&mut members, "progress", JsonValue::Num(i64_lexeme(self.progress)));
        let node = JsonValue::Obj(members);
        proof {
            assert(view_members(members@) =~= self.members_spec());
            assert(node@ == self.wire_tree()->0);
        }
        Ok(node)
    }

    proof fn lemma_wire_wf(v: Self) {
        if v.wire_tree() is Some {
            let t = v.wire_tree()->0;
            let ms = t->Obj_0;
            assert(ms == v.members_spec());
            crate::json::lemma_i64_lex(v.progress);
            assert forall|i: int| 0 <= i < ms.len() implies wf(#[trigger] ms[i].1) by {
            }
        }
    }

    proof fn lemma_round_trip(v: Self) {
        if v.wire_tree() is Some {
            let t = v.wire_tree()->0;
            let ms = t->Obj_0;
            assert(ms == v.members_spec());
            reveal_strlit("@type");
            reveal_strlit("@extra");
            reveal_strlit("progress");
            assert("@type"@.len() == 5);
            assert("@extra"@.len() == 6);
            assert("progress"@.len() == 8);
            reveal_with_fuel(get_spec, 5);
            lemma_get_spec_found(ms, "@type"@, 0);
            lemma_get_spec_found(ms, "@extra"@, 1);
            lemma_get_spec_found(ms, "progress"@, 2);
            assert(tag_of(t) == Some(Self::tag_spec()));
            assert(ok_opt_str(t, "@extra"@));
            crate::json::lemma_i64_lex(v.progress);
            assert(ok_i64(t, "progress"@));
            assert(Self::accepts(t));
            assert forall|w: Self| Self::decodes_from(t, w) implies #[trigger] w.eqv(v) by {
            }
        }
    }
}

impl RObject for ChatActionUploadingDocument {
    open spec fn tag_chars(&self) -> Seq<char> {
        Self::tag_spec()
    }

    open spec fn extra_spec(&self) -> Option<Seq<char>> {
        opt_str_view(self.extra)
    }

    fn td_name(&self) -> (r: &'static str) {
        "chatActionUploadingDocument"
    }

    fn extra(&self) -> (r: Option<String>) {
        clone_opt_string(&self.extra)
    }

    fn to_json(&self) -> (r: Result<String, EncodeError>) {
        crate::object::encode(self)
    }
}

impl TDChatAction for ChatActionUploadingDocument {

}

impl ChatActionUploadingDocument {
    pub fn from_json(json: &str) -> (r: Result<ChatActionUploadingDocument, DecodeError>)
        ensures
            match crate::parse::parse_doc(json@) {
                Some(t) => match r {
                    Ok(v) => Self::accepts(t) && Self::decodes_from(t, v),
                    Err(e) => !Self::accepts(t) && crate::errors::err_matches(e, Self::err_of(t)),
                },
                None => r matches Err(e) && e == DecodeError::Malformed,
            },
    {
        crate::object::from_json::<ChatActionUploadingDocument>(json)
    }

    pub fn builder() -> (r: RTDChatActionUploadingDocumentBuilder)
        ensures
            r.inner.extra is Some,
            r.inner.progress == 0,
    {
        RTDChatActionUploadingDocumentBuilder {
            inner: ChatActionUploadingDocument {
                extra: Some(new_token()),
                progress: 0,
            },
        }
    }

    pub fn progress(&self) -> (r: i64)
        ensures
            r == self.progress,
    {
        self.progress
    }
}

pub struct RTDChatActionUploadingDocumentBuilder {
    pub inner: ChatActionUploadingDocument,
}

impl RTDChatActionUploadingDocumentBuilder {
    pub fn build(&self) -> (r: ChatActionUploadingDocument)
        ensures
            r.eqv(self.inner),
    {
        self.inner.clone()
    }

    pub fn progress(&mut self, progress: i64) -> (r: &mut Self)
        ensures
            *r == (RTDChatActionUploadingDocumentBuilder { inner: ChatActionUploadingDocument { progress: progress, ..old(self).inner } }),
            *final(self) == *final(r),
    {
        self.inner.progress = progress;
        self
    }
}
/// The user is uploading a photo
#[derive(Debug, PartialEq)]
pub struct ChatActionUploadingPhoto {
    pub extra: Option<String>,
    /// Upload progress, as a percentage
    pub progress: i64,
}

impl ChatActionUploadingPhoto {
    pub open spec fn tag_spec() -> Seq<char> {
        "chatActionUploadingPhoto"@
    }

    /// The members of the wire object, in the order they are written.
    pub open spec fn members_spec(self) -> Seq<(Seq<char>, SpecJson)> {
        seq![
            ("@type"@, SpecJson::Str(Self::tag_spec())),
            ("@extra"@, opt_str_tree(opt_str_view(self.extra))),
            ("progress"@, SpecJson::Num(i64_lex(self.progress as int))),
        ]
    }

    pub open spec fn fields_ok(t: SpecJson) -> bool {
        &&& ok_opt_str(t, "@extra"@)
        &&& ok_i64(t, "progress"@)
    }

    pub open spec fn fail_field(t: SpecJson) -> Seq<char> {
        if !ok_opt_str(t, "@extra"@) {
            "@extra"@
        } else if !(ok_i64(t, "progress"@)) {
            "progress"@
        } else {
            Seq::empty()
        }
    }

    /// The encoding of a value carries exactly this type's tag.
    pub proof fn lemma_wire_tag(v: ChatActionUploadingPhoto)
        ensures
            v.wire_tree() matches Some(t) ==> tag_of(t) == Some(ChatActionUploadingPhoto::tag_spec()),
    {
        if v.wire_tree() is Some {
            let t = v.wire_tree()->0;
            let ms = t->Obj_0;
            lemma_get_spec_found(ms, "@type"@, 0);
        }
    }
}

impl Clone for ChatActionUploadingPhoto {
    fn clone(&self) -> (res: Self)
        ensures
            res.eqv(*self),
    {
        ChatActionUploadingPhoto {
            extra: clone_opt_string(&self.extra),
            progress: self.progress,
        }
    }
}

impl Wire for ChatActionUploadingPhoto {
    open spec fn wire_tree(self) -> Option<SpecJson> {
        Some(SpecJson::Obj(self.members_spec()))
    }

    open spec fn accepts(t: SpecJson) -> bool {
        tag_of(t) is Some && Self::fields_ok(t)
    }

    open spec fn err_of(t: SpecJson) -> SpecDecodeError {
        match tag_of(t) {
            None => SpecDecodeError::Malformed,
            Some(_) => SpecDecodeError::FieldShapeMismatch(Self::tag_spec(), Self::fail_field(t)),
        }
    }

    open spec fn decodes_from(t: SpecJson, v: Self) -> bool {
        &&& m_opt_str(t, "@extra"@, v.extra)
        &&& m_i64(t, "progress"@, v.progress)
    }

    open spec fn eqv(self, other: Self) -> bool {
        &&& eqv_opt_string(self.extra, other.extra)
        &&& self.progress == other.progress
    }

    fn clone_val(&self) -> (r: Self) {
        self.clone()
    }

    fn decode_tree(t: &JsonValue) -> (r: Result<Self, DecodeError>) {
        if get_tag(t).is_none() {
            return Err(DecodeError::Malformed);
        }
        let extra = match field_opt_string(t, "@extra") {
            Some(x) => x,
            None => {
                return Err(DecodeError::FieldShapeMismatch(
                    String::from_str("chatActionUploadingPhoto"),
                    String::from_str("@extra"),
                ));
            },
        };
        let progress = match field_i64(t, "progress") {
            Some(x) => x,
            None => {
                return Err(DecodeError::FieldShapeMismatch(
                    String::from_str("chatActionUploadingPhoto"),
                    String::from_str("progress"),
                ));
            },
        };
        Ok(ChatActionUploadingPhoto { extra, progress })
    }

    fn encode_tree(&self) -> (r: Result<JsonValue, EncodeError>) {
        let mut members: Vec<JsonMember> = Vec::new();
        proof {
            assert(view_members(members@) =~= Seq::<(Seq<char>, SpecJson)>::empty());
        }
        push_member(&mut members, "@type", JsonValue::Str(String::from_str("chatActionUploadingPhoto")));
        push_member(&mut members, "@extra", opt_string_tree(&self.extra));
        push_member(&mut members, "progress", JsonValue::Num(i64_lexeme(self.progress)));
        let node = JsonValue::Obj(members);
        proof {
            assert(view_members(members@) =~= self.members_spec());
            assert(node@ == self.wire_tree()->0);
        }
        Ok(node)
    }

    proof fn lemma_wire_wf(v: Self) {
        if v.wire_tree() is Some {
            let t = v.wire_tree()->0;
            let ms = t->Obj_0;
            assert(ms == v.members_spec());
            crate::json::lemma_i64_lex(v.progress);
            assert forall|i: int| 0 <= i < ms.len() implies wf(#[trigger] ms[i].1) by {
            }
        }
    }

    proof fn lemma_round_trip(v: Self) {
        if v.wire_tree() is Some {
            let t = v.wire_tree()->0;
            let ms = t->Obj_0;
            assert(ms == v.members_spec());
            reveal_strlit("@type");
            reveal_strlit("@extra");
            reveal_strlit("progress");
            assert("@type"@.len() == 5);
            assert("@extra"@.len() == 6);
            assert("progress"@.len() == 8);
            reveal_with_fuel(get_spec, 5);
            lemma_get_spec_found(ms, "@type"@, 0);
            lemma_get_spec_found(ms, "@extra"@, 1);
            lemma_get_spec_found(ms, "progress"@, 2);
            assert(tag_of(t) == Some(Self::tag_spec()));
            assert(ok_opt_str(t, "@extra"@));
            crate::json::lemma_i64_lex(v.progress);
            assert(ok_i64(t, "progress"@));
            assert(Self::accepts(t));
            assert forall|w: Self| Self::decodes_from(t, w) implies #[trigger] w.eqv(v) by {
            }
        }
    }
}

impl RObject for ChatActionUploadingPhoto {
    open spec fn tag_chars(&self) -> Seq<char> {
        Self::tag_spec()
    }

    open spec fn extra_spec(&self) -> Option<Seq<char>> {
        opt_str_view(self.extra)
    }

    fn td_name(&self) -> (r: &'static str) {
        "chatActionUploadingPhoto"
    }

    fn extra(&self) -> (r: Option<String>) {
        clone_opt_string(&self.extra)
    }

    fn to_json(&self) -> (r: Result<String, EncodeError>) {
        crate::object::encode(self)
    }
}

impl TDChatAction for ChatActionUploadingPhoto {

}

impl ChatActionUploadingPhoto {
    pub fn from_json(json: &str) -> (r: Result<ChatActionUploadingPhoto, DecodeError>)
        ensures
            match crate::parse::parse_doc(json@) {
                Some(t) => match r {
                    Ok(v) => Self::accepts(t) && Self::decodes_from(t, v),
                    Err(e) => !Self::accepts(t) && crate::errors::err_matches(e, Self::err_of(t)),
                },
                None => r matches Err(e) && e == DecodeError::Malformed,
            },
    {
        crate::object::from_json::<ChatActionUploadingPhoto>(json)
    }

    pub fn builder() -> (r: RTDChatActionUploadingPhotoBuilder)
        ensures
            r.inner.extra is Some,
            r.inner.progress == 0,
    {
        RTDChatActionUploadingPhotoBuilder {
            inner: ChatActionUploadingPhoto {
                extra: Some(new_token()),
                progress: 0,
            },
        }
    }

    pub fn progress(&self) -> (r: i64)
        ensures
            r == self.progress,
    {
        self.progress
    }
}

pub struct RTDChatActionUploadingPhotoBuilder {
    pub inner: ChatActionUploadingPhoto,
}

impl RTDChatActionUploadingPhotoBuilder {
    pub fn build(&self) -> (r: ChatActionUploadingPhoto)
        ensures
            r.eqv(self.inner),
    {
        self.inner.clone()
    }

    pub fn progress(&mut self, progress: i64) -> (r: &mut Self)
        ensures
            *r == (RTDChatActionUploadingPhotoBuilder { inner: ChatActionUploadingPhoto { progress: progress, ..old(self).inner } }),
            *final(self) == *final(r),
    {
        self.inner.progress = progress;
        self
    }
}
/// The user is uploading a video
#[derive(Debug, PartialEq)]
pub struct ChatActionUploadingVideo {
    pub extra: Option<String>,
    /// Upload progress, as a percentage
    pub progress: i64,
}

impl ChatActionUploadingVideo {
    pub open spec fn tag_spec() -> Seq<char> {
        "chatActionUploadingVideo"@
    }

    /// The members of the wire object, in the order they are written.
    pub open spec fn members_spec(self) -> Seq<(Seq<char>, SpecJson)> {
        seq![
            ("@type"@, SpecJson::Str(Self::tag_spec())),
            ("@extra"@, opt_str_tree(opt_str_view(self.extra))),
            ("progress"@, SpecJson::Num(i64_lex(self.progress as int))),
        ]
    }

    pub open spec fn fields_ok(t: SpecJson) -> bool {
        &&& ok_opt_str(t, "@extra"@)
        &&& ok_i64(t, "progress"@)
    }

    pub open spec fn fail_field(t: SpecJson) -> Seq<char> {
        if !ok_opt_str(t, "@extra"@) {
            "@extra"@
        } else if !(ok_i64(t, "progress"@)) {
            "progress"@
        } else {
            Seq::empty()
        }
    }

    /// The encoding of a value carries exactly this type's tag.
    pub proof fn lemma_wire_tag(v: ChatActionUploadingVideo)
        ensures
            v.wire_tree() matches Some(t) ==> tag_of(t) == Some(ChatActionUploadingVideo::tag_spec()),
    {
        if v.wire_tree() is Some {
            let t = v.wire_tree()->0;
            let ms = t->Obj_0;
            lemma_get_spec_found(ms, "@type"@, 0);
        }
    }
}

impl Clone for ChatActionUploadingVideo {
    fn clone(&self) -> (res: Self)
        ensures
            res.eqv(*self),
    {
        ChatActionUploadingVideo {
            extra: clone_opt_string(&self.extra),
            progress: self.progress,
        }
    }
}

impl Wire for ChatActionUploadingVideo {
    open spec fn wire_tree(self) -> Option<SpecJson> {
        Some(SpecJson::Obj(self.members_spec()))
    }

    open spec fn accepts(t: SpecJson) -> bool {
        tag_of(t) is Some && Self::fields_ok(t)
    }

    open spec fn err_of(t: SpecJson) -> SpecDecodeError {
        match tag_of(t) {
            None => SpecDecodeError::Malformed,
            Some(_) => SpecDecodeError::FieldShapeMismatch(Self::tag_spec(), Self::fail_field(t)),
        }
    }

    open spec fn decodes_from(t: SpecJson, v: Self) -> bool {
        &&& m_opt_str(t, "@extra"@, v.extra)
        &&& m_i64(t, "progress"@, v.progress)
    }

    open spec fn eqv(self, other: Self) -> bool {
        &&& eqv_opt_string(self.extra, other.extra)
        &&& self.progress == other.progress
    }

    fn clone_val(&self) -> (r: Self) {
        self.clone()
    }

    fn decode_tree(t: &JsonValue) -> (r: Result<Self, DecodeError>) {
        if get_tag(t).is_none() {
            return Err(DecodeError::Malformed);
        }
        let extra = match field_opt_string(t, "@extra") {
            Some(x) => x,
            None => {
                return Err(DecodeError::FieldShapeMismatch(
                    String::from_str("chatActionUploadingVideo"),
                    String::from_str("@extra"),
                ));
            },
        };
        let progress = match field_i64(t, "progress") {
            Some(x) => x,
            None => {
                return Err(DecodeError::FieldShapeMismatch(
                    String::from_str("chatActionUploadingVideo"),
                    String::from_str("progress"),
                ));
            },
        };
        Ok(ChatActionUploadingVideo { extra, progress })
    }

    fn encode_tree(&self) -> (r: Result<JsonValue, EncodeError>) {
        let mut members: Vec<JsonMember> = Vec::new();
        proof {
            assert(view_members(members@) =~= Seq::<(Seq<char>, SpecJson)>::empty());
        }
        push_member(&mut members, "@type", JsonValue::Str(String::from_str("chatActionUploadingVideo")));
        push_member(&mut members, "@extra", opt_string_tree(&self.extra));
        push_member(&mut members, "progress", JsonValue::Num(i64_lexeme(self.progress)));
        let node = JsonValue::Obj(members);
        proof {
            assert(view_members(members@) =~= self.members_spec());
            assert(node@ == self.wire_tree()->0);
        }
        Ok(node)
    }

    proof fn lemma_wire_wf(v: Self) {
        if v.wire_tree() is Some {
            let t = v.wire_tree()->0;
            let ms = t->Obj_0;
            assert(ms == v.members_spec());
            crate::json::lemma_i64_lex(v.progress);
            assert forall|i: int| 0 <= i < ms.len() implies wf(#[trigger] ms[i].1) by {
            }
        }
    }

    proof fn lemma_round_trip(v: Self) {
        if v.wire_tree() is Some {
            let t = v.wire_tree()->0;
            let ms = t->Obj_0;
            assert(ms == v.members_spec());
            reveal_strlit("@type");
            reveal_strlit("@extra");
            reveal_strlit("progress");
            assert("@type"@.len() == 5);
            assert("@extra"@.len() == 6);
            assert("progress"@.len() == 8);
            reveal_with_fuel(get_spec, 5);
            lemma_get_spec_found(ms, "@type"@, 0);
            lemma_get_spec_found(ms, "@extra"@, 1);
            lemma_get_spec_found(ms, "progress"@, 2);
            assert(tag_of(t) == Some(Self::tag_spec()));
            assert(ok_opt_str(t, "@extra"@));
            crate::json::lemma_i64_lex(v.progress);
            assert(ok_i64(t, "progress"@));
            assert(Self::accepts(t));
            assert forall|w: Self| Self::decodes_from(t, w) implies #[trigger] w.eqv(v) by {
            }
        }
    }
}

impl RObject for ChatActionUploadingVideo {
    open spec fn tag_chars(&self) -> Seq<char> {
        Self::tag_spec()
    }

    open spec fn extra_spec(&self) -> Option<Seq<char>> {
        opt_str_view(self.extra)
    }

    fn td_name(&self) -> (r: &'static str) {
        "chatActionUploadingVideo"
    }

    fn extra(&self) -> (r: Option<String>) {
        clone_opt_string(&self.extra)
    }

    fn to_json(&self) -> (r: Result<String, EncodeError>) {
        crate::object::encode(self)
    }
}

impl TDChatAction for ChatActionUploadingVideo {

}

impl ChatActionUploadingVideo {
    pub fn from_json(json: &str) -> (r: Result<ChatActionUploadingVideo, DecodeError>)
        ensures
            match crate::parse::parse_doc(json@) {
                Some(t) => match r {
                    Ok(v) => Self::accepts(t) && Self::decodes_from(t, v),
                    Err(e) => !Self::accepts(t) && crate::errors::err_matches(e, Self::err_of(t)),
                },
                None => r matches Err(e) && e == DecodeError::Malformed,
            },
    {
        crate::object::from_json::<ChatActionUploadingVideo>(json)
    }

    pub fn builder() -> (r: RTDChatActionUploadingVideoBuilder)
        ensures
            r.inner.extra is Some,
            r.inner.progress == 0,
    {
        RTDChatActionUploadingVideoBuilder {
            inner: ChatActionUploadingVideo {
                extra: Some(new_token()),
                progress: 0,
            },
        }
    }

    pub fn progress(&self) -> (r: i64)
        ensures
            r == self.progress,
    {
        self.progress
    }
}

pub struct RTDChatActionUploadingVideoBuilder {
    pub inner: ChatActionUploadingVideo,
}

impl RTDChatActionUploadingVideoBuilder {
    pub fn build(&self) -> (r: ChatActionUploadingVideo)
        ensures
            r.eqv(self.inner),
    {
        self.inner.clone()
    }

    pub fn progress(&mut self, progress: i64) -> (r: &mut Self)
        ensures
            *r == (RTDChatActionUploadingVideoBuilder { inner: ChatActionUploadingVideo { progress: progress, ..old(self).inner } }),
            *final(self) == *final(r),
    {
        self.inner.progress = progress;
        self
    }
}
/// The user is uploading a video note
#[derive(Debug, PartialEq)]
pub struct ChatActionUploadingVideoNote {
    pub extra: Option<String>,
    /// Upload progress, as a percentage
    pub progress: i64,
}

impl ChatActionUploadingVideoNote {
    pub open spec fn tag_spec() -> Seq<char> {
        "chatActionUploadingVideoNote"@
    }

    /// The members of the wire object, in the order they are written.
    pub open spec fn members_spec(self) -> Seq<(Seq<char>, SpecJson)> {
        seq![
            ("@type"@, SpecJson::Str(Self::tag_spec())),
            ("@extra"@, opt_str_tree(opt_str_view(self.extra))),
            ("progress"@, SpecJson::Num(i64_lex(self.progress as int))),
        ]
    }

    pub open spec fn fields_ok(t: SpecJson) -> bool {
        &&& ok_opt_str(t, "@extra"@)
        &&& ok_i64(t, "progress"@)
    }

    pub open spec fn fail_field(t: SpecJson) -> Seq<char> {
        if !ok_opt_str(t, "@extra"@) {
            "@extra"@
        } else if !(ok_i64(t, "progress"@)) {
            "progress"@
        } else {
            Seq::empty()
        }
    }

    /// The encoding of a value carries exactly this type's tag.
    pub proof fn lemma_wire_tag(v: ChatActionUploadingVideoNote)
        ensures
            v.wire_tree() matches Some(t) ==> tag_of(t) == Some(ChatActionUploadingVideoNote::tag_spec()),
    {
        if v.wire_tree() is Some {
            let t = v.wire_tree()->0;
            let ms = t->Obj_0;
            lemma_get_spec_found(ms, "@type"@, 0);
        }
    }
}

impl Clone for ChatActionUploadingVideoNote {
    fn clone(&self) -> (res: Self)
        ensures
            res.eqv(*self),
    {
        ChatActionUploadingVideoNote {
            extra: clone_opt_string(&self.extra),
            progress: self.progress,
        }
    }
}

impl Wire for ChatActionUploadingVideoNote {
    open spec fn wire_tree(self) -> Option<SpecJson> {
        Some(SpecJson::Obj(self.members_spec()))
    }

    open spec fn accepts(t: SpecJson) -> bool {
        tag_of(t) is Some && Self::fields_ok(t)
    }

    open spec fn err_of(t: SpecJson) -> SpecDecodeError {
        match tag_of(t) {
            None => SpecDecodeError::Malformed,
            Some(_) => SpecDecodeError::FieldShapeMismatch(Self::tag_spec(), Self::fail_field(t)),
        }
    }

    open spec fn decodes_from(t: SpecJson, v: Self) -> bool {
        &&& m_opt_str(t, "@extra"@, v.extra)
        &&& m_i64(t, "progress"@, v.progress)
    }

    open spec fn eqv(self, other: Self) -> bool {
        &&& eqv_opt_string(self.extra, other.extra)
        &&& self.progress == other.progress
    }

    fn clone_val(&self) -> (r: Self) {
        self.clone()
    }

    fn decode_tree(t: &JsonValue) -> (r: Result<Self, DecodeError>) {
        if get_tag(t).is_none() {
            return Err(DecodeError::Malformed);
        }
        let extra = match field_opt_string(t, "@extra") {
            Some(x) => x,
            None => {
                return Err(DecodeError::FieldShapeMismatch(
                    String::from_str("chatActionUploadingVideoNote"),
                    String::from_str("@extra"),
                ));
            },
        };
        let progress = match field_i64(t, "progress") {
            Some(x) => x,
            None => {
                return Err(DecodeError::FieldShapeMismatch(
                    String::from_str("chatActionUploadingVideoNote"),
                    String::from_str("progress"),
                ));
            },
        };
        Ok(ChatActionUploadingVideoNote { extra, progress })
    }

    fn encode_tree(&self) -> (r: Result<JsonValue, EncodeError>) {
        let mut members: Vec<JsonMember> = Vec::new();
        proof {
            assert(view_members(members@) =~= Seq::<(Seq<char>, SpecJson)>::empty());
        }
        push_member(&mut members, "@type", JsonValue::Str(String::from_str("chatActionUploadingVideoNote")));
        push_member(&mut members, "@extra", opt_string_tree(&self.extra));
        push_member(&mut members, "progress", JsonValue::Num(i64_lexeme(self.progress)));
        let node = JsonValue::Obj(members);
        proof {
            assert(view_members(members@) =~= self.members_spec());
            assert(node@ == self.wire_tree()->0);
        }
        Ok(node)
    }

    proof fn lemma_wire_wf(v: Self) {
        if v.wire_tree() is Some {
            let t = v.wire_tree()->0;
            let ms = t->Obj_0;
            assert(ms == v.members_spec());
            crate::json::lemma_i64_lex(v.progress);
            assert forall|i: int| 0 <= i < ms.len() implies wf(#[trigger] ms[i].1) by {
            }
        }
    }

    proof fn lemma_round_trip(v: Self) {
        if v.wire_tree() is Some {
            let t = v.wire_tree()->0;
            let ms = t->Obj_0;
            assert(ms == v.members_spec());
            reveal_strlit("@type");
            reveal_strlit("@extra");
            reveal_strlit("progress");
            assert("@type"@.len() == 5);
            assert("@extra"@.len() == 6);
            assert("progress"@.len() == 8);
            reveal_with_fuel(get_spec, 5);
            lemma_get_spec_found(ms, "@type"@, 0);
            lemma_get_spec_found(ms, "@extra"@, 1);
            lemma_get_spec_found(ms, "progress"@, 2);
            assert(tag_of(t) == Some(Self::tag_spec()));
            assert(ok_opt_str(t, "@extra"@));
            crate::json::lemma_i64_lex(v.progress);
            assert(ok_i64(t, "progress"@));
            assert(Self::accepts(t));
            assert forall|w: Self| Self::decodes_from(t, w) implies #[trigger] w.eqv(v) by {
            }
        }
    }
}

impl RObject for ChatActionUploadingVideoNote {
    open spec fn tag_chars(&self) -> Seq<char> {
        Self::tag_spec()
    }

    open spec fn extra_spec(&self) -> Option<Seq<char>> {
        opt_str_view(self.extra)
    }

    fn td_name(&self) -> (r: &'static str) {
        "chatActionUploadingVideoNote"
    }

    fn extra(&self) -> (r: Option<String>) {
        clone_opt_string(&self.extra)
    }

    fn to_json(&self) -> (r: Result<String, EncodeError>) {
        crate::object::encode(self)
    }
}

impl TDChatAction for ChatActionUploadingVideoNote {

}

impl ChatActionUploadingVideoNote {
    pub fn from_json(json: &str) -> (r: Result<ChatActionUploadingVideoNote, DecodeError>)
        ensures
            match crate::parse::parse_doc(json@) {
                Some(t) => match r {
                    Ok(v) => Self::accepts(t) && Self::decodes_from(t, v),
                    Err(e) => !Self::accepts(t) && crate::errors::err_matches(e, Self::err_of(t)),
                },
                None => r matches Err(e) && e == DecodeError::Malformed,
            },
    {
        crate::object::from_json::<ChatActionUploadingVideoNote>(json)
    }

    pub fn builder() -> (r: RTDChatActionUploadingVideoNoteBuilder)
        ensures
            r.inner.extra is Some,
            r.inner.progress == 0,
    {
        RTDChatActionUploadingVideoNoteBuilder {
            inner: ChatActionUploadingVideoNote {
                extra: Some(new_token()),
                progress: 0,
            },
        }
    }

    pub fn progress(&self) -> (r: i64)
        ensures
            r == self.progress,
    {
        self.progress
    }
}

pub struct RTDChatActionUploadingVideoNoteBuilder {
    pub inner: ChatActionUploadingVideoNote,
}

impl RTDChatActionUploadingVideoNoteBuilder {
    pub fn build(&self) -> (r: ChatActionUploadingVideoNote)
        ensures
            r.eqv(self.inner),
    {
        self.inner.clone()
    }

    pub fn progress(&mut self, progress: i64) -> (r: &mut Self)
        ensures
            *r == (RTDChatActionUploadingVideoNoteBuilder { inner: ChatActionUploadingVideoNote { progress: progress, ..old(self).inner } }),
            *final(self) == *final(r),
    {
        self.inner.progress = progress;
        self
    }
}
/// The user is uploading a voice note
#[derive(Debug, PartialEq)]
pub struct ChatActionUploadingVoiceNote {
    pub extra: Option<String>,
    /// Upload progress, as a percentage
    pub progress: i64,
}

impl ChatActionUploadingVoiceNote {
    pub open spec fn tag_spec() -> Seq<char> {
        "chatActionUploadingVoiceNote"@
    }

    /// The members of the wire object, in the order they are written.
    pub open spec fn members_spec(self) -> Seq<(Seq<char>, SpecJson)> {
        seq![
            ("@type"@, SpecJson::Str(Self::tag_spec())),
            ("@extra"@, opt_str_tree(opt_str_view(self.extra))),
            ("progress"@, SpecJson::Num(i64_lex(self.progress as int))),
        ]
    }

    pub open spec fn fields_ok(t: SpecJson) -> bool {
        &&& ok_opt_str(t, "@extra"@)
        &&& ok_i64(t, "progress"@)
    }

    pub open spec fn fail_field(t: SpecJson) -> Seq<char> {
        if !ok_opt_str(t, "@extra"@) {
            "@extra"@
        } else if !(ok_i64(t, "progress"@)) {
            "progress"@
        } else {
            Seq::empty()
        }
    }

    /// The encoding of a value carries exactly this type's tag.
    pub proof fn lemma_wire_tag(v: ChatActionUploadingVoiceNote)
        ensures
            v.wire_tree() matches Some(t) ==> tag_of(t) == Some(ChatActionUploadingVoiceNote::tag_spec()),
    {
        if v.wire_tree() is Some {
            let t = v.wire_tree()->0;
            let ms = t->Obj_0;
            lemma_get_spec_found(ms, "@type"@, 0);
        }
    }
}

impl Clone for ChatActionUploadingVoiceNote {
    fn clone(&self) -> (res: Self)
        ensures
            res.eqv(*self),
    {
        ChatActionUploadingVoiceNote {
            extra: clone_opt_string(&self.extra),
            progress: self.progress,
        }
    }
}

impl Wire for ChatActionUploadingVoiceNote {
    open spec fn wire_tree(self) -> Option<SpecJson> {
        Some(SpecJson::Obj(self.members_spec()))
    }

    open spec fn accepts(t: SpecJson) -> bool {
        tag_of(t) is Some && Self::fields_ok(t)
    }

    open spec fn err_of(t: SpecJson) -> SpecDecodeError {
        match tag_of(t) {
            None => SpecDecodeError::Malformed,
            Some(_) => SpecDecodeError::FieldShapeMismatch(Self::tag_spec(), Self::fail_field(t)),
        }
    }

    open spec fn decodes_from(t: SpecJson, v: Self) -> bool {
        &&& m_opt_str(t, "@extra"@, v.extra)
        &&& m_i64(t, "progress"@, v.progress)
    }

    open spec fn eqv(self, other: Self) -> bool {
        &&& eqv_opt_string(self.extra, other.extra)
        &&& self.progress == other.progress
    }

    fn clone_val(&self) -> (r: Self) {
        self.clone()
    }

    fn decode_tree(t: &JsonValue) -> (r: Result<Self, DecodeError>) {
        if get_tag(t).is_none() {
            return Err(DecodeError::Malformed);
        }
        let extra = match field_opt_string(t, "@extra") {
            Some(x) => x,
            None => {
                return Err(DecodeError::FieldShapeMismatch(
                    String::from_str("chatActionUploadingVoiceNote"),
                    String::from_str("@extra"),
                ));
            },
        };
        let progress = match field_i64(t, "progress") {
            Some(x) => x,
            None => {
                return Err(DecodeError::FieldShapeMismatch(
                    String::from_str("chatActionUploadingVoiceNote"),
                    String::from_str("progress"),
                ));
            },
        };
        Ok(ChatActionUploadingVoiceNote { extra, progress })
    }

    fn encode_tree(&self) -> (r: Result<JsonValue, EncodeError>) {
        let mut members: Vec<JsonMember> = Vec::new();
        proof {
            assert(view_members(members@) =~= Seq::<(Seq<char>, SpecJson)>::empty());
        }
        push_member(&mut members, "@type", JsonValue::Str(String::from_str("chatActionUploadingVoiceNote")));
        push_member(&mut members, "@extra", opt_string_tree(&self.extra));
        push_member(&mut members, "progress", JsonValue::Num(i64_lexeme(self.progress)));
        let node = JsonValue::Obj(members);
        proof {
            assert(view_members(members@) =~= self.members_spec());
            assert(node@ == self.wire_tree()->0);
        }
        Ok(node)
    }

    proof fn lemma_wire_wf(v: Self) {
        if v.wire_tree() is Some {
            let t = v.wire_tree()->0;
            let ms = t->Obj_0;
            assert(ms == v.members_spec());
            crate::json::lemma_i64_lex(v.progress);
            assert forall|i: int| 0 <= i < ms.len() implies wf(#[trigger] ms[i].1) by {
            }
        }
    }

    proof fn lemma_round_trip(v: Self) {
        if v.wire_tree() is Some {
            let t = v.wire_tree()->0;
            let ms = t->Obj_0;
            assert(ms == v.members_spec());
            reveal_strlit("@type");
            reveal_strlit("@extra");
            reveal_strlit("progress");
            assert("@type"@.len() == 5);
            assert("@extra"@.len() == 6);
            assert("progress"@.len() == 8);
            reveal_with_fuel(get_spec, 5);
            lemma_get_spec_found(ms, "@type"@, 0);
            lemma_get_spec_found(ms, "@extra"@, 1);
            lemma_get_spec_found(ms, "progress"@, 2);
            assert(tag_of(t) == Some(Self::tag_spec()));
            assert(ok_opt_str(t, "@extra"@));
            crate::json::lemma_i64_lex(v.progress);
            assert(ok_i64(t, "progress"@));
            assert(Self::accepts(t));
            assert forall|w: Self| Self::decodes_from(t, w) implies #[trigger] w.eqv(v) by {
            }
        }
    }
}

impl RObject for ChatActionUploadingVoiceNote {
    open spec fn tag_chars(&self) -> Seq<char> {
        Self::tag_spec()
    }

    open spec fn extra_spec(&self) -> Option<Seq<char>> {
        opt_str_view(self.extra)
    }

    fn td_name(&self) -> (r: &'static str) {
        "chatActionUploadingVoiceNote"
    }

    fn extra(&self) -> (r: Option<String>) {
        clone_opt_string(&self.extra)
    }

    fn to_json(&self) -> (r: Result<String, EncodeError>) {
        crate::object::encode(self)
    }
}

impl TDChatAction for ChatActionUploadingVoiceNote {

}

impl ChatActionUploadingVoiceNote {
    pub fn from_json(json: &str) -> (r: Result<ChatActionUploadingVoiceNote, DecodeError>)
        ensures
            match crate::parse::parse_doc(json@) {
                Some(t) => match r {
                    Ok(v) => Self::accepts(t) && Self::decodes_from(t, v),
                    Err(e) => !Self::accepts(t) && crate::errors::err_matches(e, Self::err_of(t)),
                },
                None => r matches Err(e) && e == DecodeError::Malformed,
            },
    {
        crate::object::from_json::<ChatActionUploadingVoiceNote>(json)
    }

    pub fn builder() -> (r: RTDChatActionUploadingVoiceNoteBuilder)
        ensures
            r.inner.extra is Some,
            r.inner.progress == 0,
    {
        RTDChatActionUploadingVoiceNoteBuilder {
            inner: ChatActionUploadingVoiceNote {
                extra: Some(new_token()),
                progress: 0,
            },
        }
    }

    pub fn progress(&self) -> (r: i64)
        ensures
            r == self.progress,
    {
        self.progress
    }
}

pub struct RTDChatActionUploadingVoiceNoteBuilder {
    pub inner: ChatActionUploadingVoiceNote,
}

impl RTDChatActionUploadingVoiceNoteBuilder {
    pub fn build(&self) -> (r: ChatActionUploadingVoiceNote)
        ensures
            r.eqv(self.inner),
    {
        self.inner.clone()
    }

    pub fn progress(&mut self, progress: i64) -> (r: &mut Self)
        ensures
            *r == (RTDChatActionUploadingVoiceNoteBuilder { inner: ChatActionUploadingVoiceNote { progress: progress, ..old(self).inner } }),
            *final(self) == *final(r),
    {
        self.inner.progress = progress;
        self
    }
}
/// The user is watching animations sent by the other party by clicking on an animated emoji
#[derive(Debug, PartialEq)]
pub struct ChatActionWatchingAnimations {
    pub extra: Option<String>,
    /// The animated emoji
    pub emoji: String,
}

impl ChatActionWatchingAnimations {
    pub open spec fn tag_spec() -> Seq<char> {
        "chatActionWatchingAnimations"@
    }

    /// The members of the wire object, in the order they are written.
    pub open spec fn members_spec(self) -> Seq<(Seq<char>, SpecJson)> {
        seq![
            ("@type"@, SpecJson::Str(Self::tag_spec())),
            ("@extra"@, opt_str_tree(opt_str_view(self.extra))),
            ("emoji"@, SpecJson::Str(self.emoji@)),
        ]
    }

    pub open spec fn fields_ok(t: SpecJson) -> bool {
        &&& ok_opt_str(t, "@extra"@)
        &&& ok_str(t, "emoji"@)
    }

    pub open spec fn fail_field(t: SpecJson) -> Seq<char> {
        if !ok_opt_str(t, "@extra"@) {
            "@extra"@
        } else if !(ok_str(t, "emoji"@)) {
            "emoji"@
        } else {
            Seq::empty()
        }
    }

    /// The encoding of a value carries exactly this type's tag.
    pub proof fn lemma_wire_tag(v: ChatActionWatchingAnimations)
        ensures
            v.wire_tree() matches Some(t) ==> tag_of(t) == Some(ChatActionWatchingAnimations::tag_spec()),
    {
        if v.wire_tree() is Some {
            let t = v.wire_tree()->0;
            let ms = t->Obj_0;
            lemma_get_spec_found(ms, "@type"@, 0);
        }
    }
}

impl Clone for ChatActionWatchingAnimations {
    fn clone(&self) -> (res: Self)
        ensures
            res.eqv(*self),
    {
        ChatActionWatchingAnimations {
            extra: clone_opt_string(&self.extra),
            emoji: self.emoji.clone(),
        }
    }
}

impl Wire for ChatActionWatchingAnimations {
    open spec fn wire_tree(self) -> Option<SpecJson> {
        Some(SpecJson::Obj(self.members_spec()))
    }

    open spec fn accepts(t: SpecJson) -> bool {
        tag_of(t) is Some && Self::fields_ok(t)
    }

    open spec fn err_of(t: SpecJson) -> SpecDecodeError {
        match tag_of(t) {
            None => SpecDecodeError::Malformed,
            Some(_) => SpecDecodeError::FieldShapeMismatch(Self::tag_spec(), Self::fail_field(t)),
        }
    }

    open spec fn decodes_from(t: SpecJson, v: Self) -> bool {
        &&& m_opt_str(t, "@extra"@, v.extra)
        &&& m_str(t, "emoji"@, v.emoji@)
    }

    open spec fn eqv(self, other: Self) -> bool {
        &&& eqv_opt_string(self.extra, other.extra)
        &&& self.emoji@ == other.emoji@
    }

    fn clone_val(&self) -> (r: Self) {
        self.clone()
    }

    fn decode_tree(t: &JsonValue) -> (r: Result<Self, DecodeError>) {
        if get_tag(t).is_none() {
            return Err(DecodeError::Malformed);
        }
        let extra = match field_opt_string(t, "@extra") {
            Some(x) => x,
            None => {
                return Err(DecodeError::FieldShapeMismatch(
                    String::from_str("chatActionWatchingAnimations"),
                    String::from_str("@extra"),
                ));
            },
        };
        let emoji = match field_string(t, "emoji") {
            Some(x) => x,
            None => {
                return Err(DecodeError::FieldShapeMismatch(
                    String::from_str("chatActionWatchingAnimations"),
                    String::from_str("emoji"),
                ));
            },
        };
        Ok(ChatActionWatchingAnimations { extra, emoji })
    }

    fn encode_tree(&self) -> (r: Result<JsonValue, EncodeError>) {
        let mut members: Vec<JsonMember> = Vec::new();
        proof {
            assert(view_members(members@) =~= Seq::<(Seq<char>, SpecJson)>::empty());
        }
        push_member(&mut members, "@type", JsonValue::Str(String::from_str("chatActionWatchingAnimations")));
        push_member(&mut members, "@extra", opt_string_tree(&self.extra));
        push_member(&mut members, "emoji", JsonValue::Str(self.emoji.clone()));
        let node = JsonValue::Obj(members);
        proof {
            assert(view_members(members@) =~= self.members_spec());
            assert(node@ == self.wire_tree()->0);
        }
        Ok(node)
    }

    proof fn lemma_wire_wf(v: Self) {
        if v.wire_tree() is Some {
            let t = v.wire_tree()->0;
            let ms = t->Obj_0;
            assert(ms == v.members_spec());
            assert forall|i: int| 0 <= i < ms.len() implies wf(#[trigger] ms[i].1) by {
            }
        }
    }

    proof fn lemma_round_trip(v: Self) {
        if v.wire_tree() is Some {
            let t = v.wire_tree()->0;
            let ms = t->Obj_0;
            assert(ms == v.members_spec());
            reveal_strlit("@type");
            reveal_strlit("@extra");
            reveal_strlit("emoji");
            assert("@type"@.len() == 5);
            assert("@extra"@.len() == 6);
            assert("emoji"@.len() == 5);
            assert("@type"@[0] == '@' && "emoji"@[0] == 'e');
            reveal_with_fuel(get_spec, 5);
            lemma_get_spec_found(ms, "@type"@, 0);
            lemma_get_spec_found(ms, "@extra"@, 1);
            lemma_get_spec_found(ms, "emoji"@, 2);
            assert(tag_of(t) == Some(Self::tag_spec()));
            assert(ok_opt_str(t, "@extra"@));
            assert(ok_str(t, "emoji"@));
            assert(Self::accepts(t));
            assert forall|w: Self| Self::decodes_from(t, w) implies #[trigger] w.eqv(v) by {
            }
        }
    }
}

impl RObject for ChatActionWatchingAnimations {
    open spec fn tag_chars(&self) -> Seq<char> {
        Self::tag_spec()
    }

    open spec fn extra_spec(&self) -> Option<Seq<char>> {
        opt_str_view(self.extra)
    }

    fn td_name(&self) -> (r: &'static str) {
        "chatActionWatchingAnimations"
    }

    fn extra(&self) -> (r: Option<String>) {
        clone_opt_string(&self.extra)
    }

    fn to_json(&self) -> (r: Result<String, EncodeError>) {
        crate::object::encode(self)
    }
}

impl TDChatAction for ChatActionWatchingAnimations {

}

impl ChatActionWatchingAnimations {
    pub fn from_json(json: &str) -> (r: Result<ChatActionWatchingAnimations, DecodeError>)
        ensures
            match crate::parse::parse_doc(json@) {
                Some(t) => match r {
                    Ok(v) => Self::accepts(t) && Self::decodes_from(t, v),
                    Err(e) => !Self::accepts(t) && crate::errors::err_matches(e, Self::err_of(t)),
                },
                None => r matches Err(e) && e == DecodeError::Malformed,
            },
    {
        crate::object::from_json::<ChatActionWatchingAnimations>(json)
    }

    pub fn builder() -> (r: RTDChatActionWatchingAnimationsBuilder)
        ensures
            r.inner.extra is Some,
            r.inner.emoji@ == Seq::<char>::empty(),
    {
        RTDChatActionWatchingAnimationsBuilder {
            inner: ChatActionWatchingAnimations {
                extra: Some(new_token()),
                emoji: String::new(),
            },
        }
    }

    pub fn emoji(&self) -> (r: &String)
        ensures
            *r == self.emoji,
    {
        &self.emoji
    }
}

pub struct RTDChatActionWatchingAnimationsBuilder {
    pub inner: ChatActionWatchingAnimations,
}

impl RTDChatActionWatchingAnimationsBuilder {
    pub fn build(&self) -> (r: ChatActionWatchingAnimations)
        ensures
            r.eqv(self.inner),
    {
        self.inner.clone()
    }

    pub fn emoji(&mut self, emoji: String) -> (r: &mut Self)
        ensures
            *r == (RTDChatActionWatchingAnimationsBuilder { inner: ChatActionWatchingAnimations { emoji: emoji, ..old(self).inner } }),
            *final(self) == *final(r),
    {
        self.inner.emoji = emoji;
        self
    }
}
} // verus!
