use vstd::prelude::*;

use crate::errors::DecodeError;
use crate::errors::EncodeError;
use crate::errors::SpecDecodeError;
use crate::json::JsonMember;
use crate::json::JsonValue;
use crate::json::SpecJson;
use crate::json::i64_lex;
use crate::json::view_members;
use crate::json::wf;
use crate::object::RObject;
use crate::object::Wire;
use crate::object::clone_opt;
use crate::object::clone_opt_bool;
use crate::object::clone_opt_string;
use crate::object::eqv_opt;
use crate::object::eqv_opt_string;
use crate::object::field_bool;
use crate::object::field_i64;
use crate::object::field_isize;
use crate::object::field_opt_bool;
use crate::object::field_opt_string;
use crate::object::field_string;
use crate::object::get_field;
use crate::object::get_spec;
use crate::object::get_tag;
use crate::object::i64_lexeme;
use crate::object::lemma_get_spec_found;
use crate::object::m_bool;
use crate::object::m_i64;
use crate::object::m_isize;
use crate::object::m_opt_bool;
use crate::object::m_opt_custom;
use crate::object::m_opt_str;
use crate::object::m_str;
use crate::object::new_token;
use crate::object::ok_bool;
use crate::object::ok_i64;
use crate::object::ok_isize;
use crate::object::ok_opt_bool;
use crate::object::ok_opt_custom;
use crate::object::ok_opt_str;
use crate::object::ok_str;
use crate::object::opt_bool_node;
use crate::object::opt_bool_tree;
use crate::object::opt_str_tree;
use crate::object::opt_str_view;
use crate::object::opt_string_tree;
use crate::object::opt_wire_val;
use crate::object::push_member;
use crate::object::tag_of;
use crate::message_interaction_info::MessageInteractionInfo;

verus! {

/// Describes a message
#[derive(Debug, PartialEq)]
pub struct Message {
    pub extra: Option<String>,
    /// Message identifier; unique for the chat to which the message belongs
    pub id: i64,
    /// Chat identifier
    pub chat_id: i64,
    /// True, if the message is outgoing
    pub is_outgoing: bool,
    /// True, if the message is pinned
    pub is_pinned: bool,
    /// True, if the message can be edited. For live location and poll messages this fields shows whether editMessageLiveLocation or stopPoll can be used with this message by the application
    pub can_be_edited: bool,
    /// True, if the message can be forwarded
    pub can_be_forwarded: bool,
    /// True, if the message can be deleted only for the current user while other users will continue to see it
    pub can_be_deleted_only_for_self: bool,
    /// True, if the message can be deleted for all users
    pub can_be_deleted_for_all_users: bool,
    /// True, if the message statistics are available
    pub can_get_statistics: bool,
    /// True, if the message thread info is available
    pub can_get_message_thread: bool,
    /// True, if chat members already viewed the message can be received through getMessageViewers
    pub can_get_viewers: bool,
    /// True, if media timestamp links can be generated for media timestamp entities in the message text, caption or web page description
    pub can_get_media_timestamp_links: bool,
    /// True, if media timestamp entities refers to a media in this message as opposed to a media in the replied message
    pub has_timestamped_media: Option<bool>,
    /// True, if the message is a channel post. All messages to channels are channel posts, all other messages are not channel posts
    pub is_channel_post: bool,
    /// True, if the message contains an unread mention for the current user
    pub contains_unread_mention: bool,
    /// Point in time (Unix timestamp) when the message was sent
    pub date: i64,
    /// Point in time (Unix timestamp) when the message was last edited
    pub edit_date: i64,
    /// Information about interactions with the message; may be null
    pub interaction_info: Option<MessageInteractionInfo>,
    /// If non-zero, the identifier of the chat to which the replied message belongs; Currently, only messages in the Replies chat can have different reply_in_chat_id and chat_id
    pub reply_in_chat_id: i64,
    /// If non-zero, the identifier of the message this message is replying to; can be the identifier of a deleted message
    pub reply_to_message_id: i64,
    /// If non-zero, the identifier of the message thread the message belongs to; unique within the chat to which the message belongs
    pub message_thread_id: i64,
    /// For self-destructing messages, the message's TTL (Time To Live), in seconds; 0 if none. TDLib will send updateDeleteMessages or updateMessageContent once the TTL expires
    pub ttl: i64,
    /// If non-zero, the user identifier of the bot through which this message was sent
    pub via_bot_user_id: i64,
    /// For channel posts and anonymous group messages, optional author signature
    pub author_signature: String,
    /// Unique identifier of an album this message belongs to. Only audios, documents, photos and videos can be grouped together in albums
    pub media_album_id: isize,
    /// If non-empty, contains a human-readable description of the reason why access to this message must be restricted
    pub restriction_reason: String,
}

impl Message {
    pub open spec fn tag_spec() -> Seq<char> {
        "message"@
    }

    /// The members of the wire object, in the order they are written.
    pub open spec fn members_spec(self) -> Seq<(Seq<char>, SpecJson)> {
        seq![
            ("@type"@, SpecJson::Str(Self::tag_spec())),
            ("@extra"@, opt_str_tree(opt_str_view(self.extra))),
            ("id"@, SpecJson::Num(i64_lex(self.id as int))),
            ("chat_id"@, SpecJson::Num(i64_lex(self.chat_id as int))),
            ("is_outgoing"@, SpecJson::Bool(self.is_outgoing)),
            ("is_pinned"@, SpecJson::Bool(self.is_pinned)),
            ("can_be_edited"@, SpecJson::Bool(self.can_be_edited)),
            ("can_be_forwarded"@, SpecJson::Bool(self.can_be_forwarded)),
            ("can_be_deleted_only_for_self"@, SpecJson::Bool(self.can_be_deleted_only_for_self)),
            ("can_be_deleted_for_all_users"@, SpecJson::Bool(self.can_be_deleted_for_all_users)),
            ("can_get_statistics"@, SpecJson::Bool(self.can_get_statistics)),
            ("can_get_message_thread"@, SpecJson::Bool(self.can_get_message_thread)),
            ("can_get_viewers"@, SpecJson::Bool(self.can_get_viewers)),
            ("can_get_media_timestamp_links"@, SpecJson::Bool(self.can_get_media_timestamp_links)),
            ("has_timestamped_media"@, opt_bool_tree(self.has_timestamped_media)),
            ("is_channel_post"@, SpecJson::Bool(self.is_channel_post)),
            ("contains_unread_mention"@, SpecJson::Bool(self.contains_unread_mention)),
            ("date"@, SpecJson::Num(i64_lex(self.date as int))),
            ("edit_date"@, SpecJson::Num(i64_lex(self.edit_date as int))),
            ("interaction_info"@, opt_wire_val(self.interaction_info)),
            ("reply_in_chat_id"@, SpecJson::Num(i64_lex(self.reply_in_chat_id as int))),
            ("reply_to_message_id"@, SpecJson::Num(i64_lex(self.reply_to_message_id as int))),
            ("message_thread_id"@, SpecJson::Num(i64_lex(self.message_thread_id as int))),
            ("ttl"@, SpecJson::Num(i64_lex(self.ttl as int))),
            ("via_bot_user_id"@, SpecJson::Num(i64_lex(self.via_bot_user_id as int))),
            ("author_signature"@, SpecJson::Str(self.author_signature@)),
            ("media_album_id"@, SpecJson::Num(i64_lex(self.media_album_id as int))),
            ("restriction_reason"@, SpecJson::Str(self.restriction_reason@)),
        ]
    }

    pub open spec fn fields_ok(t: SpecJson) -> bool {
        &&& ok_opt_str(t, "@extra"@)
        &&& ok_i64(t, "id"@)
        &&& ok_i64(t, "chat_id"@)
        &&& ok_bool(t, "is_outgoing"@)
        &&& ok_bool(t, "is_pinned"@)
        &&& ok_bool(t, "can_be_edited"@)
        &&& ok_bool(t, "can_be_forwarded"@)
        &&& ok_bool(t, "can_be_deleted_only_for_self"@)
        &&& ok_bool(t, "can_be_deleted_for_all_users"@)
        &&& ok_bool(t, "can_get_statistics"@)
        &&& ok_bool(t, "can_get_message_thread"@)
        &&& ok_bool(t, "can_get_viewers"@)
        &&& ok_bool(t, "can_get_media_timestamp_links"@)
        &&& ok_opt_bool(t, "has_timestamped_media"@)
        &&& ok_bool(t, "is_channel_post"@)
        &&& ok_bool(t, "contains_unread_mention"@)
        &&& ok_i64(t, "date"@)
        &&& ok_i64(t, "edit_date"@)
        &&& ok_opt_custom::<MessageInteractionInfo>(t, "interaction_info"@)
        &&& ok_i64(t, "reply_in_chat_id"@)
        &&& ok_i64(t, "reply_to_message_id"@)
        &&& ok_i64(t, "message_thread_id"@)
        &&& ok_i64(t, "ttl"@)
        &&& ok_i64(t, "via_bot_user_id"@)
        &&& ok_str(t, "author_signature"@)
        &&& ok_isize(t, "media_album_id"@)
        &&& ok_str(t, "restriction_reason"@)
    }

    pub open spec fn fail_field(t: SpecJson) -> Seq<char> {
        if !ok_opt_str(t, "@extra"@) {
            "@extra"@
        } else if !(ok_i64(t, "id"@)) {
            "id"@
        } else if !(ok_i64(t, "chat_id"@)) {
            "chat_id"@
        } else if !(ok_bool(t, "is_outgoing"@)) {
            "is_outgoing"@
        } else if !(ok_bool(t, "is_pinned"@)) {
            "is_pinned"@
        } else if !(ok_bool(t, "can_be_edited"@)) {
            "can_be_edited"@
        } else if !(ok_bool(t, "can_be_forwarded"@)) {
            "can_be_forwarded"@
        } else if !(ok_bool(t, "can_be_deleted_only_for_self"@)) {
            "can_be_deleted_only_for_self"@
        } else if !(ok_bool(t, "can_be_deleted_for_all_users"@)) {
            "can_be_deleted_for_all_users"@
        } else if !(ok_bool(t, "can_get_statistics"@)) {
            "can_get_statistics"@
        } else if !(ok_bool(t, "can_get_message_thread"@)) {
            "can_get_message_thread"@
        } else if !(ok_bool(t, "can_get_viewers"@)) {
            "can_get_viewers"@
        } else if !(ok_bool(t, "can_get_media_timestamp_links"@)) {
            "can_get_media_timestamp_links"@
        } else if !(ok_opt_bool(t, "has_timestamped_media"@)) {
            "has_timestamped_media"@
        } else if !(ok_bool(t, "is_channel_post"@)) {
            "is_channel_post"@
        } else if !(ok_bool(t, "contains_unread_mention"@)) {
            "contains_unread_mention"@
        } else if !(ok_i64(t, "date"@)) {
            "date"@
        } else if !(ok_i64(t, "edit_date"@)) {
            "edit_date"@
        } else if !(ok_opt_custom::<MessageInteractionInfo>(t, "interaction_info"@)) {
            "interaction_info"@
        } else if !(ok_i64(t, "reply_in_chat_id"@)) {
            "reply_in_chat_id"@
        } else if !(ok_i64(t, "reply_to_message_id"@)) {
            "reply_to_message_id"@
        } else if !(ok_i64(t, "message_thread_id"@)) {
            "message_thread_id"@
        } else if !(ok_i64(t, "ttl"@)) {
            "ttl"@
        } else if !(ok_i64(t, "via_bot_user_id"@)) {
            "via_bot_user_id"@
        } else if !(ok_str(t, "author_signature"@)) {
            "author_signature"@
        } else if !(ok_isize(t, "media_album_id"@)) {
            "media_album_id"@
        } else if !(ok_str(t, "restriction_reason"@)) {
            "restriction_reason"@
        } else {
            Seq::empty()
        }
    }

    /// The encoding of a value carries exactly this type's tag.
    pub proof fn lemma_wire_tag(v: Message)
        ensures
            v.wire_tree() matches Some(t) ==> tag_of(t) == Some(Message::tag_spec()),
    {
        if v.wire_tree() is Some {
            let t = v.wire_tree()->0;
            let ms = t->Obj_0;
            lemma_get_spec_found(ms, "@type"@, 0);
        }
    }
}

impl Clone for Message {
    fn clone(&self) -> (res: Self)
        ensures
            res.eqv(*self),
    {
        Message {
            extra: clone_opt_string(&self.extra),
            id: self.id,
            chat_id: self.chat_id,
            is_outgoing: self.is_outgoing,
            is_pinned: self.is_pinned,
            can_be_edited: self.can_be_edited,
            can_be_forwarded: self.can_be_forwarded,
            can_be_deleted_only_for_self: self.can_be_deleted_only_for_self,
            can_be_deleted_for_all_users: self.can_be_deleted_for_all_users,
            can_get_statistics: self.can_get_statistics,
            can_get_message_thread: self.can_get_message_thread,
            can_get_viewers: self.can_get_viewers,
            can_get_media_timestamp_links: self.can_get_media_timestamp_links,
            has_timestamped_media: clone_opt_bool(&self.has_timestamped_media),
            is_channel_post: self.is_channel_post,
            contains_unread_mention: self.contains_unread_mention,
            date: self.date,
            edit_date: self.edit_date,
            interaction_info: clone_opt(&self.interaction_info),
            reply_in_chat_id: self.reply_in_chat_id,
            reply_to_message_id: self.reply_to_message_id,
            message_thread_id: self.message_thread_id,
            ttl: self.ttl,
            via_bot_user_id: self.via_bot_user_id,
            author_signature: self.author_signature.clone(),
            media_album_id: self.media_album_id,
            restriction_reason: self.restriction_reason.clone(),
        }
    }
}

impl Wire for Message {
    open spec fn wire_tree(self) -> Option<SpecJson> {
        if (match self.interaction_info { Some(x) => x.wire_tree() is None, None => false }) {
            None
        } else {
            Some(SpecJson::Obj(self.members_spec()))
        }
    }

    open spec fn accepts(t: SpecJson) -> bool {
        tag_of(t) is Some && Self::fields_ok(t)
    }

    open spec fn err_of(t: SpecJson) -> SpecDecodeError {
        match tag_of(t) {
            None => SpecDecodeError::Malformed,
            Some(_) => SpecDecodeError::FieldShapeMismatch(Self::tag_spec(), Self::fail_field(t)),
        }
    }

    open spec fn decodes_from(t: SpecJson, v: Self) -> bool {
        &&& m_opt_str(t, "@extra"@, v.extra)
        &&& m_i64(t, "id"@, v.id)
        &&& m_i64(t, "chat_id"@, v.chat_id)
        &&& m_bool(t, "is_outgoing"@, v.is_outgoing)
        &&& m_bool(t, "is_pinned"@, v.is_pinned)
        &&& m_bool(t, "can_be_edited"@, v.can_be_edited)
        &&& m_bool(t, "can_be_forwarded"@, v.can_be_forwarded)
        &&& m_bool(t, "can_be_deleted_only_for_self"@, v.can_be_deleted_only_for_self)
        &&& m_bool(t, "can_be_deleted_for_all_users"@, v.can_be_deleted_for_all_users)
        &&& m_bool(t, "can_get_statistics"@, v.can_get_statistics)
        &&& m_bool(t, "can_get_message_thread"@, v.can_get_message_thread)
        &&& m_bool(t, "can_get_viewers"@, v.can_get_viewers)
        &&& m_bool(t, "can_get_media_timestamp_links"@, v.can_get_media_timestamp_links)
        &&& m_opt_bool(t, "has_timestamped_media"@, v.has_timestamped_media)
        &&& m_bool(t, "is_channel_post"@, v.is_channel_post)
        &&& m_bool(t, "contains_unread_mention"@, v.contains_unread_mention)
        &&& m_i64(t, "date"@, v.date)
        &&& m_i64(t, "edit_date"@, v.edit_date)
        &&& m_opt_custom::<MessageInteractionInfo>(t, "interaction_info"@, v.interaction_info)
        &&& m_i64(t, "reply_in_chat_id"@, v.reply_in_chat_id)
        &&& m_i64(t, "reply_to_message_id"@, v.reply_to_message_id)
        &&& m_i64(t, "message_thread_id"@, v.message_thread_id)
        &&& m_i64(t, "ttl"@, v.ttl)
        &&& m_i64(t, "via_bot_user_id"@, v.via_bot_user_id)
        &&& m_str(t, "author_signature"@, v.author_signature@)
        &&& m_isize(t, "media_album_id"@, v.media_album_id)
        &&& m_str(t, "restriction_reason"@, v.restriction_reason@)
    }

    open spec fn eqv(self, other: Self) -> bool {
        &&& eqv_opt_string(self.extra, other.extra)
        &&& self.id == other.id
        &&& self.chat_id == other.chat_id
        &&& self.is_outgoing == other.is_outgoing
        &&& self.is_pinned == other.is_pinned
        &&& self.can_be_edited == other.can_be_edited
        &&& self.can_be_forwarded == other.can_be_forwarded
        &&& self.can_be_deleted_only_for_self == other.can_be_deleted_only_for_self
        &&& self.can_be_deleted_for_all_users == other.can_be_deleted_for_all_users
        &&& self.can_get_statistics == other.can_get_statistics
        &&& self.can_get_message_thread == other.can_get_message_thread
        &&& self.can_get_viewers == other.can_get_viewers
        &&& self.can_get_media_timestamp_links == other.can_get_media_timestamp_links
        &&& self.has_timestamped_media == other.has_timestamped_media
        &&& self.is_channel_post == other.is_channel_post
        &&& self.contains_unread_mention == other.contains_unread_mention
        &&& self.date == other.date
        &&& self.edit_date == other.edit_date
        &&& eqv_opt(self.interaction_info, other.interaction_info)
        &&& self.reply_in_chat_id == other.reply_in_chat_id
        &&& self.reply_to_message_id == other.reply_to_message_id
        &&& self.message_thread_id == other.message_thread_id
        &&& self.ttl == other.ttl
        &&& self.via_bot_user_id == other.via_bot_user_id
        &&& self.author_signature@ == other.author_signature@
        &&& self.media_album_id == other.media_album_id
        &&& self.restriction_reason@ == other.restriction_reason@
    }

    fn clone_val(&self) -> (r: Self) {
        self.clone()
    }

    #[verifier::rlimit(100)]
    #[verifier::spinoff_prover]
    fn decode_tree(t: &JsonValue) -> (r: Result<Self, DecodeError>) {
        if get_tag(t).is_none() {
            return Err(DecodeError::Malformed);
        }
        let extra = match field_opt_string(t, "@extra") {
            Some(x) => x,
            None => {
                return Err(DecodeError::FieldShapeMismatch(
                    String::from_str("message"),
                    String::from_str("@extra"),
                ));
            },
        };
        let id = match field_i64(t, "id") {
            Some(x) => x,
            None => {
                return Err(DecodeError::FieldShapeMismatch(
                    String::from_str("message"),
                    String::from_str("id"),
                ));
            },
        };
        let chat_id = match field_i64(t, "chat_id") {
            Some(x) => x,
            None => {
                return Err(DecodeError::FieldShapeMismatch(
                    String::from_str("message"),
                    String::from_str("chat_id"),
                ));
            },
        };
        let is_outgoing = match field_bool(t, "is_outgoing") {
            Some(x) => x,
            None => {
                return Err(DecodeError::FieldShapeMismatch(
                    String::from_str("message"),
                    String::from_str("is_outgoing"),
                ));
            },
        };
        let is_pinned = match field_bool(t, "is_pinned") {
            Some(x) => x,
            None => {
                return Err(DecodeError::FieldShapeMismatch(
                    String::from_str("message"),
                    String::from_str("is_pinned"),
                ));
            },
        };
        let can_be_edited = match field_bool(t, "can_be_edited") {
            Some(x) => x,
            None => {
                return Err(DecodeError::FieldShapeMismatch(
                    String::from_str("message"),
                    String::from_str("can_be_edited"),
                ));
            },
        };
        let can_be_forwarded = match field_bool(t, "can_be_forwarded") {
            Some(x) => x,
            None => {
                return Err(DecodeError::FieldShapeMismatch(
                    String::from_str("message"),
                    String::from_str("can_be_forwarded"),
                ));
            },
        };
        let can_be_deleted_only_for_self = match field_bool(t, "can_be_deleted_only_for_self") {
            Some(x) => x,
            None => {
                return Err(DecodeError::FieldShapeMismatch(
                    String::from_str("message"),
                    String::from_str("can_be_deleted_only_for_self"),
                ));
            },
        };
        let can_be_deleted_for_all_users = match field_bool(t, "can_be_deleted_for_all_users") {
            Some(x) => x,
            None => {
                return Err(DecodeError::FieldShapeMismatch(
                    String::from_str("message"),
                    String::from_str("can_be_deleted_for_all_users"),
                ));
            },
        };
        let can_get_statistics = match field_bool(t, "can_get_statistics") {
            Some(x) => x,
            None => {
                return Err(DecodeError::FieldShapeMismatch(
                    String::from_str("message"),
                    String::from_str("can_get_statistics"),
                ));
            },
        };
        let can_get_message_thread = match field_bool(t, "can_get_message_thread") {
            Some(x) => x,
            None => {
                return Err(DecodeError::FieldShapeMismatch(
                    String::from_str("message"),
                    String::from_str("can_get_message_thread"),
                ));
            },
        };
        let can_get_viewers = match field_bool(t, "can_get_viewers") {
            Some(x) => x,
            None => {
                return Err(DecodeError::FieldShapeMismatch(
                    String::from_str("message"),
                    String::from_str("can_get_viewers"),
                ));
            },
        };
        let can_get_media_timestamp_links = match field_bool(t, "can_get_media_timestamp_links") {
            Some(x) => x,
            None => {
                return Err(DecodeError::FieldShapeMismatch(
                    String::from_str("message"),
                    String::from_str("can_get_media_timestamp_links"),
                ));
            },
        };
        let has_timestamped_media = match field_opt_bool(t, "has_timestamped_media") {
            Some(x) => x,
            None => {
                return Err(DecodeError::FieldShapeMismatch(
                    String::from_str("message"),
                    String::from_str("has_timestamped_media"),
                ));
            },
        };
        let is_channel_post = match field_bool(t, "is_channel_post") {
            Some(x) => x,
            None => {
                return Err(DecodeError::FieldShapeMismatch(
                    String::from_str("message"),
                    String::from_str("is_channel_post"),
                ));
            },
        };
        let contains_unread_mention = match field_bool(t, "contains_unread_mention") {
            Some(x) => x,
            None => {
                return Err(DecodeError::FieldShapeMismatch(
                    String::from_str("message"),
                    String::from_str("contains_unread_mention"),
                ));
            },
        };
        let date = match field_i64(t, "date") {
            Some(x) => x,
            None => {
                return Err(DecodeError::FieldShapeMismatch(
                    String::from_str("message"),
                    String::from_str("date"),
                ));
            },
        };
        let edit_date = match field_i64(t, "edit_date") {
            Some(x) => x,
            None => {
                return Err(DecodeError::FieldShapeMismatch(
                    String::from_str("message"),
                    String::from_str("edit_date"),
                ));
            },
        };
        let interaction_info = match get_field(t, "interaction_info") {
            None => None,
            Some(JsonValue::Null) => None,
            Some(f) => match MessageInteractionInfo::decode_tree(f) {
                Ok(x) => Some(x),
                Err(_) => {
                    return Err(DecodeError::FieldShapeMismatch(
                    String::from_str("message"),
                    String::from_str("interaction_info"),
                ));
                },
            },
        };
        let reply_in_chat_id = match field_i64(t, "reply_in_chat_id") {
            Some(x) => x,
            None => {
                return Err(DecodeError::FieldShapeMismatch(
                    String::from_str("message"),
                    String::from_str("reply_in_chat_id"),
                ));
            },
        };
        let reply_to_message_id = match field_i64(t, "reply_to_message_id") {
            Some(x) => x,
            None => {
                return Err(DecodeError::FieldShapeMismatch(
                    String::from_str("message"),
                    String::from_str("reply_to_message_id"),
                ));
            },
        };
        let message_thread_id = match field_i64(t, "message_thread_id") {
            Some(x) => x,
            None => {
                return Err(DecodeError::FieldShapeMismatch(
                    String::from_str("message"),
                    String::from_str("message_thread_id"),
                ));
            },
        };
        let ttl = match field_i64(t, "ttl") {
            Some(x) => x,
            None => {
                return Err(DecodeError::FieldShapeMismatch(
                    String::from_str("message"),
                    String::from_str("ttl"),
                ));
            },
        };
        let via_bot_user_id = match field_i64(t, "via_bot_user_id") {
            Some(x) => x,
            None => {
                return Err(DecodeError::FieldShapeMismatch(
                    String::from_str("message"),
                    String::from_str("via_bot_user_id"),
                ));
            },
        };
        let author_signature = match field_string(t, "author_signature") {
            Some(x) => x,
            None => {
                return Err(DecodeError::FieldShapeMismatch(
                    String::from_str("message"),
                    String::from_str("author_signature"),
                ));
            },
        };
        let media_album_id = match field_isize(t, "media_album_id") {
            Some(x) => x,
            None => {
                return Err(DecodeError::FieldShapeMismatch(
                    String::from_str("message"),
                    String::from_str("media_album_id"),
                ));
            },
        };
        let restriction_reason = match field_string(t, "restriction_reason") {
            Some(x) => x,
            None => {
                return Err(DecodeError::FieldShapeMismatch(
                    String::from_str("message"),
                    String::from_str("restriction_reason"),
                ));
            },
        };
        Ok(Message { extra, id, chat_id, is_outgoing, is_pinned, can_be_edited, can_be_forwarded, can_be_deleted_only_for_self, can_be_deleted_for_all_users, can_get_statistics, can_get_message_thread, can_get_viewers, can_get_media_timestamp_links, has_timestamped_media, is_channel_post, contains_unread_mention, date, edit_date, interaction_info, reply_in_chat_id, reply_to_message_id, message_thread_id, ttl, via_bot_user_id, author_signature, media_album_id, restriction_reason })
    }

    #[verifier::rlimit(100)]
    #[verifier::spinoff_prover]
    fn encode_tree(&self) -> (r: Result<JsonValue, EncodeError>) {
        let t_interaction_info = match &self.interaction_info {
            None => JsonValue::Null,
            Some(x) => match x.encode_tree() {
                Ok(y) => y,
                Err(e) => {
                    return Err(e);
                },
            },
        };
        let mut members: Vec<JsonMember> = Vec::new();
        proof {
            assert(view_members(members@) =~= Seq::<(Seq<char>, SpecJson)>::empty());
        }
        push_member(&mut members, "@type", JsonValue::Str(String::from_str("message")));
        push_member(&mut members, "@extra", opt_string_tree(&self.extra));
        push_member(&mut members, "id", JsonValue::Num(i64_lexeme(self.id)));
        push_member(&mut members, "chat_id", JsonValue::Num(i64_lexeme(self.chat_id)));
        push_member(&mut members, "is_outgoing", JsonValue::Bool(self.is_outgoing));
        push_member(&mut members, "is_pinned", JsonValue::Bool(self.is_pinned));
        push_member(&mut members, "can_be_edited", JsonValue::Bool(self.can_be_edited));
        push_member(&mut members, "can_be_forwarded", JsonValue::Bool(self.can_be_forwarded));
        push_member(&mut members, "can_be_deleted_only_for_self", JsonValue::Bool(self.can_be_deleted_only_for_self));
        push_member(&mut members, "can_be_deleted_for_all_users", JsonValue::Bool(self.can_be_deleted_for_all_users));
        proof {
            assert(view_members(members@) =~= self.members_spec().take(10));
        }
        push_member(&mut members, "can_get_statistics", JsonValue::Bool(self.can_get_statistics));
        push_member(&mut members, "can_get_message_thread", JsonValue::Bool(self.can_get_message_thread));
        push_member(&mut members, "can_get_viewers", JsonValue::Bool(self.can_get_viewers));
        push_member(&mut members, "can_get_media_timestamp_links", JsonValue::Bool(self.can_get_media_timestamp_links));
        push_member(&mut members, "has_timestamped_media", opt_bool_node(&self.has_timestamped_media));
        push_member(&mut members, "is_channel_post", JsonValue::Bool(self.is_channel_post));
        push_member(&mut members, "contains_unread_mention", JsonValue::Bool(self.contains_unread_mention));
        push_member(&mut members, "date", JsonValue::Num(i64_lexeme(self.date)));
        push_member(&mut members, "edit_date", JsonValue::Num(i64_lexeme(self.edit_date)));
        push_member(&mut members, "interaction_info", t_interaction_info);
        proof {
            assert(view_members(members@) =~= self.members_spec().take(20));
        }
        push_member(&mut members, "reply_in_chat_id", JsonValue::Num(i64_lexeme(self.reply_in_chat_id)));
        push_member(&mut members, "reply_to_message_id", JsonValue::Num(i64_lexeme(self.reply_to_message_id)));
        push_member(&mut members, "message_thread_id", JsonValue::Num(i64_lexeme(self.message_thread_id)));
        push_member(&mut members, "ttl", JsonValue::Num(i64_lexeme(self.ttl)));
        push_member(&mut members, "via_bot_user_id", JsonValue::Num(i64_lexeme(self.via_bot_user_id)));
        push_member(&mut members, "author_signature", JsonValue::Str(self.author_signature.clone()));
        push_member(&mut members, "media_album_id", JsonValue::Num(i64_lexeme(self.media_album_id as i64)));
        push_member(&mut members, "restriction_reason", JsonValue::Str(self.restriction_reason.clone()));
        let node = JsonValue::Obj(members);
        proof {
            assert(view_members(members@) =~= self.members_spec());
            assert(node@ == self.wire_tree()->0);
        }
        Ok(node)
    }

    proof fn lemma_wire_wf(v: Self) {
        if v.wire_tree() is Some {
            let t = v.wire_tree()->0;
            let ms = t->Obj_0;
            assert(ms == v.members_spec());
            crate::json::lemma_i64_lex(v.id);
            crate::json::lemma_i64_lex(v.chat_id);
            crate::json::lemma_i64_lex(v.date);
            crate::json::lemma_i64_lex(v.edit_date);
            match v.interaction_info {
                Some(x) => {
                    MessageInteractionInfo::lemma_wire_wf(x);
                },
                None => {},
            }
            crate::json::lemma_i64_lex(v.reply_in_chat_id);
            crate::json::lemma_i64_lex(v.reply_to_message_id);
            crate::json::lemma_i64_lex(v.message_thread_id);
            crate::json::lemma_i64_lex(v.ttl);
            crate::json::lemma_i64_lex(v.via_bot_user_id);
            crate::json::lemma_i64_lex(v.media_album_id as i64);
            assert forall|i: int| 0 <= i < ms.len() implies wf(#[trigger] ms[i].1) by {
            }
        }
    }

    #[verifier::rlimit(100)]
    #[verifier::spinoff_prover]
    proof fn lemma_round_trip(v: Self) {
        if v.wire_tree() is Some {
            let t = v.wire_tree()->0;
            let ms = t->Obj_0;
            assert(ms == v.members_spec());
            reveal_strlit("@type");
            reveal_strlit("@extra");
            reveal_strlit("id");
            reveal_strlit("chat_id");
            reveal_strlit("is_outgoing");
            reveal_strlit("is_pinned");
            reveal_strlit("can_be_edited");
            reveal_strlit("can_be_forwarded");
            reveal_strlit("can_be_deleted_only_for_self");
            reveal_strlit("can_be_deleted_for_all_users");
            reveal_strlit("can_get_statistics");
            reveal_strlit("can_get_message_thread");
            reveal_strlit("can_get_viewers");
            reveal_strlit("can_get_media_timestamp_links");
            reveal_strlit("has_timestamped_media");
            reveal_strlit("is_channel_post");
            reveal_strlit("contains_unread_mention");
            reveal_strlit("date");
            reveal_strlit("edit_date");
            reveal_strlit("interaction_info");
            reveal_strlit("reply_in_chat_id");
            reveal_strlit("reply_to_message_id");
            reveal_strlit("message_thread_id");
            reveal_strlit("ttl");
            reveal_strlit("via_bot_user_id");
            reveal_strlit("author_signature");
            reveal_strlit("media_album_id");
            reveal_strlit("restriction_reason");
            assert("@type"@.len() == 5);
            assert("@extra"@.len() == 6);
            assert("id"@.len() == 2);
            assert("chat_id"@.len() == 7);
            assert("is_outgoing"@.len() == 11);
            assert("is_pinned"@.len() == 9);
            assert("can_be_edited"@.len() == 13);
            assert("can_be_forwarded"@.len() == 16);
            assert("can_be_deleted_only_for_self"@.len() == 28);
            assert("can_be_deleted_for_all_users"@.len() == 28);
            assert("can_get_statistics"@.len() == 18);
            assert("can_get_message_thread"@.len() == 22);
            assert("can_get_viewers"@.len() == 15);
            assert("can_get_media_timestamp_links"@.len() == 29);
            assert("has_timestamped_media"@.len() == 21);
            assert("is_channel_post"@.len() == 15);
            assert("contains_unread_mention"@.len() == 23);
            assert("date"@.len() == 4);
            assert("edit_date"@.len() == 9);
            assert("interaction_info"@.len() == 16);
            assert("reply_in_chat_id"@.len() == 16);
            assert("reply_to_message_id"@.len() == 19);
            assert("message_thread_id"@.len() == 17);
            assert("ttl"@.len() == 3);
            assert("via_bot_user_id"@.len() == 15);
            assert("author_signature"@.len() == 16);
            assert("media_album_id"@.len() == 14);
            assert("restriction_reason"@.len() == 18);
            assert("is_pinned"@[0] == 'i' && "edit_date"@[0] == 'e');
            assert("can_be_forwarded"@[0] == 'c' && "interaction_info"@[0] == 'i');
            assert("can_be_forwarded"@[0] == 'c' && "reply_in_chat_id"@[0] == 'r');
            assert("can_be_forwarded"@[0] == 'c' && "author_signature"@[0] == 'a');
            assert("can_be_deleted_only_for_self"@[15] == 'o' && "can_be_deleted_for_all_users"@[15] == 'f');
            assert("can_get_statistics"@[0] == 'c' && "restriction_reason"@[0] == 'r');
            assert("can_get_viewers"@[0] == 'c' && "is_channel_post"@[0] == 'i');
            assert("can_get_viewers"@[0] == 'c' && "via_bot_user_id"@[0] == 'v');
            assert("is_channel_post"@[0] == 'i' && "via_bot_user_id"@[0] == 'v');
            assert("interaction_info"@[0] == 'i' && "reply_in_chat_id"@[0] == 'r');
            assert("interaction_info"@[0] == 'i' && "author_signature"@[0] == 'a');
            assert("reply_in_chat_id"@[0] == 'r' && "author_signature"@[0] == 'a');
            reveal_with_fuel(get_spec, 30);
            lemma_get_spec_found(ms, "@type"@, 0);
            lemma_get_spec_found(ms, "@extra"@, 1);
            lemma_get_spec_found(ms, "id"@, 2);
            lemma_get_spec_found(ms, "chat_id"@, 3);
            lemma_get_spec_found(ms, "is_outgoing"@, 4);
            lemma_get_spec_found(ms, "is_pinned"@, 5);
            lemma_get_spec_found(ms, "can_be_edited"@, 6);
            lemma_get_spec_found(ms, "can_be_forwarded"@, 7);
            lemma_get_spec_found(ms, "can_be_deleted_only_for_self"@, 8);
            lemma_get_spec_found(ms, "can_be_deleted_for_all_users"@, 9);
            lemma_get_spec_found(ms, "can_get_statistics"@, 10);
            lemma_get_spec_found(ms, "can_get_message_thread"@, 11);
            lemma_get_spec_found(ms, "can_get_viewers"@, 12);
            lemma_get_spec_found(ms, "can_get_media_timestamp_links"@, 13);
            lemma_get_spec_found(ms, "has_timestamped_media"@, 14);
            lemma_get_spec_found(ms, "is_channel_post"@, 15);
            lemma_get_spec_found(ms, "contains_unread_mention"@, 16);
            lemma_get_spec_found(ms, "date"@, 17);
            lemma_get_spec_found(ms, "edit_date"@, 18);
            lemma_get_spec_found(ms, "interaction_info"@, 19);
            lemma_get_spec_found(ms, "reply_in_chat_id"@, 20);
            lemma_get_spec_found(ms, "reply_to_message_id"@, 21);
            lemma_get_spec_found(ms, "message_thread_id"@, 22);
            lemma_get_spec_found(ms, "ttl"@, 23);
            lemma_get_spec_found(ms, "via_bot_user_id"@, 24);
            lemma_get_spec_found(ms, "author_signature"@, 25);
            lemma_get_spec_found(ms, "media_album_id"@, 26);
            lemma_get_spec_found(ms, "restriction_reason"@, 27);
            assert(tag_of(t) == Some(Self::tag_spec()));
            assert(ok_opt_str(t, "@extra"@));
            crate::json::lemma_i64_lex(v.id);
            assert(ok_i64(t, "id"@));
            crate::json::lemma_i64_lex(v.chat_id);
            assert(ok_i64(t, "chat_id"@));
            assert(ok_bool(t, "is_outgoing"@));
            assert(ok_bool(t, "is_pinned"@));
            assert(ok_bool(t, "can_be_edited"@));
            assert(ok_bool(t, "can_be_forwarded"@));
            assert(ok_bool(t, "can_be_deleted_only_for_self"@));
            assert(ok_bool(t, "can_be_deleted_for_all_users"@));
            assert(ok_bool(t, "can_get_statistics"@));
            assert(ok_bool(t, "can_get_message_thread"@));
            assert(ok_bool(t, "can_get_viewers"@));
            assert(ok_bool(t, "can_get_media_timestamp_links"@));
            assert(ok_opt_bool(t, "has_timestamped_media"@));
            assert(ok_bool(t, "is_channel_post"@));
            assert(ok_bool(t, "contains_unread_mention"@));
            crate::json::lemma_i64_lex(v.date);
            assert(ok_i64(t, "date"@));
            crate::json::lemma_i64_lex(v.edit_date);
            assert(ok_i64(t, "edit_date"@));
            match v.interaction_info {
                Some(x) => {
                    MessageInteractionInfo::lemma_round_trip(x);
                },
                None => {},
            }
            assert(ok_opt_custom::<MessageInteractionInfo>(t, "interaction_info"@));
            crate::json::lemma_i64_lex(v.reply_in_chat_id);
            assert(ok_i64(t, "reply_in_chat_id"@));
            crate::json::lemma_i64_lex(v.reply_to_message_id);
            assert(ok_i64(t, "reply_to_message_id"@));
            crate::json::lemma_i64_lex(v.message_thread_id);
            assert(ok_i64(t, "message_thread_id"@));
            crate::json::lemma_i64_lex(v.ttl);
            assert(ok_i64(t, "ttl"@));
            crate::json::lemma_i64_lex(v.via_bot_user_id);
            assert(ok_i64(t, "via_bot_user_id"@));
            assert(ok_str(t, "author_signature"@));
            crate::json::lemma_i64_lex(v.media_album_id as i64);
            assert(ok_isize(t, "media_album_id"@));
            assert(ok_str(t, "restriction_reason"@));
            assert(Self::accepts(t));
            assert forall|w: Self| Self::decodes_from(t, w) implies #[trigger] w.eqv(v) by {
            }
        }
    }
}

impl RObject for Message {
    open spec fn tag_chars(&self) -> Seq<char> {
        Self::tag_spec()
    }

    open spec fn extra_spec(&self) -> Option<Seq<char>> {
        opt_str_view(self.extra)
    }

    fn td_name(&self) -> (r: &'static str) {
        "message"
    }

    fn extra(&self) -> (r: Option<String>) {
        clone_opt_string(&self.extra)
    }

    fn to_json(&self) -> (r: Result<String, EncodeError>) {
        crate::object::encode(self)
    }
}

impl Message {
    pub fn from_json(json: &str) -> (r: Result<Message, DecodeError>)
        ensures
            match crate::parse::parse_doc(json@) {
                Some(t) => match r {
                    Ok(v) => Self::accepts(t) && Self::decodes_from(t, v),
                    Err(e) => !Self::accepts(t) && crate::errors::err_matches(e, Self::err_of(t)),
                },
                None => r matches Err(e) && e == DecodeError::Malformed,
            },
    {
        crate::object::from_json::<Message>(json)
    }

    pub fn builder() -> (r: RTDMessageBuilder)
        ensures
            r.inner.extra is Some,
            r.inner.id == 0,
            r.inner.chat_id == 0,
            r.inner.is_outgoing == false,
            r.inner.is_pinned == false,
            r.inner.can_be_edited == false,
            r.inner.can_be_forwarded == false,
            r.inner.can_be_deleted_only_for_self == false,
            r.inner.can_be_deleted_for_all_users == false,
            r.inner.can_get_statistics == false,
            r.inner.can_get_message_thread == false,
            r.inner.can_get_viewers == false,
            r.inner.can_get_media_timestamp_links == false,
            r.inner.has_timestamped_media is None,
            r.inner.is_channel_post == false,
            r.inner.contains_unread_mention == false,
            r.inner.date == 0,
            r.inner.edit_date == 0,
            r.inner.interaction_info is None,
            r.inner.reply_in_chat_id == 0,
            r.inner.reply_to_message_id == 0,
            r.inner.message_thread_id == 0,
            r.inner.ttl == 0,
            r.inner.via_bot_user_id == 0,
            r.inner.author_signature@ == Seq::<char>::empty(),
            r.inner.media_album_id == 0,
            r.inner.restriction_reason@ == Seq::<char>::empty(),
    {
        RTDMessageBuilder {
            inner: Message {
                extra: Some(new_token()),
                id: 0,
                chat_id: 0,
                is_outgoing: false,
                is_pinned: false,
                can_be_edited: false,
                can_be_forwarded: false,
                can_be_deleted_only_for_self: false,
                can_be_deleted_for_all_users: false,
                can_get_statistics: false,
                can_get_message_thread: false,
                can_get_viewers: false,
                can_get_media_timestamp_links: false,
                has_timestamped_media: None,
                is_channel_post: false,
                contains_unread_mention: false,
                date: 0,
                edit_date: 0,
                interaction_info: None,
                reply_in_chat_id: 0,
                reply_to_message_id: 0,
                message_thread_id: 0,
                ttl: 0,
                via_bot_user_id: 0,
                author_signature: String::new(),
                media_album_id: 0,
                restriction_reason: String::new(),
            },
        }
    }

    pub fn id(&self) -> (r: i64)
        ensures
            r == self.id,
    {
        self.id
    }

    pub fn chat_id(&self) -> (r: i64)
        ensures
            r == self.chat_id,
    {
        self.chat_id
    }

    pub fn is_outgoing(&self) -> (r: bool)
        ensures
            r == self.is_outgoing,
    {
        self.is_outgoing
    }

    pub fn is_pinned(&self) -> (r: bool)
        ensures
            r == self.is_pinned,
    {
        self.is_pinned
    }

    pub fn can_be_edited(&self) -> (r: bool)
        ensures
            r == self.can_be_edited,
    {
        self.can_be_edited
    }

    pub fn can_be_forwarded(&self) -> (r: bool)
        ensures
            r == self.can_be_forwarded,
    {
        self.can_be_forwarded
    }

    pub fn can_be_deleted_only_for_self(&self) -> (r: bool)
        ensures
            r == self.can_be_deleted_only_for_self,
    {
        self.can_be_deleted_only_for_self
    }

    pub fn can_be_deleted_for_all_users(&self) -> (r: bool)
        ensures
            r == self.can_be_deleted_for_all_users,
    {
        self.can_be_deleted_for_all_users
    }

    pub fn can_get_statistics(&self) -> (r: bool)
        ensures
            r == self.can_get_statistics,
    {
        self.can_get_statistics
    }

    pub fn can_get_message_thread(&self) -> (r: bool)
        ensures
            r == self.can_get_message_thread,
    {
        self.can_get_message_thread
    }

    pub fn can_get_viewers(&self) -> (r: bool)
        ensures
            r == self.can_get_viewers,
    {
        self.can_get_viewers
    }

    pub fn can_get_media_timestamp_links(&self) -> (r: bool)
        ensures
            r == self.can_get_media_timestamp_links,
    {
        self.can_get_media_timestamp_links
    }

    pub fn has_timestamped_media(&self) -> (r: Option<bool>)
        ensures
            r == self.has_timestamped_media,
    {
        self.has_timestamped_media
    }

    pub fn is_channel_post(&self) -> (r: bool)
        ensures
            r == self.is_channel_post,
    {
        self.is_channel_post
    }

    pub fn contains_unread_mention(&self) -> (r: bool)
        ensures
            r == self.contains_unread_mention,
    {
        self.contains_unread_mention
    }

    pub fn date(&self) -> (r: i64)
        ensures
            r == self.date,
    {
        self.date
    }

    pub fn edit_date(&self) -> (r: i64)
        ensures
            r == self.edit_date,
    {
        self.edit_date
    }

    pub fn interaction_info(&self) -> (r: &Option<MessageInteractionInfo>)
        ensures
            *r == self.interaction_info,
    {
        &self.interaction_info
    }

    pub fn reply_in_chat_id(&self) -> (r: i64)
        ensures
            r == self.reply_in_chat_id,
    {
        self.reply_in_chat_id
    }

    pub fn reply_to_message_id(&self) -> (r: i64)
        ensures
            r == self.reply_to_message_id,
    {
        self.reply_to_message_id
    }

    pub fn message_thread_id(&self) -> (r: i64)
        ensures
            r == self.message_thread_id,
    {
        self.message_thread_id
    }

    pub fn ttl(&self) -> (r: i64)
        ensures
            r == self.ttl,
    {
        self.ttl
    }

    pub fn via_bot_user_id(&self) -> (r: i64)
        ensures
            r == self.via_bot_user_id,
    {
        self.via_bot_user_id
    }

    pub fn author_signature(&self) -> (r: &String)
        ensures
            *r == self.author_signature,
    {
        &self.author_signature
    }

    pub fn media_album_id(&self) -> (r: isize)
        ensures
            r == self.media_album_id,
    {
        self.media_album_id
    }

    pub fn restriction_reason(&self) -> (r: &String)
        ensures
            *r == self.restriction_reason,
    {
        &self.restriction_reason
    }
}

pub struct RTDMessageBuilder {
    pub inner: Message,
}

impl RTDMessageBuilder {
    pub fn build(&self) -> (r: Message)
        ensures
            r.eqv(self.inner),
    {
        self.inner.clone()
    }

    pub fn id(&mut self, id: i64) -> (r: &mut Self)
        ensures
            *r == (RTDMessageBuilder { inner: Message { id: id, ..old(self).inner } }),
            *final(self) == *final(r),
    {
        self.inner.id = id;
        self
    }

    pub fn chat_id(&mut self, chat_id: i64) -> (r: &mut Self)
        ensures
            *r == (RTDMessageBuilder { inner: Message { chat_id: chat_id, ..old(self).inner } }),
            *final(self) == *final(r),
    {
        self.inner.chat_id = chat_id;
        self
    }

    pub fn is_outgoing(&mut self, is_outgoing: bool) -> (r: &mut Self)
        ensures
            *r == (RTDMessageBuilder { inner: Message { is_outgoing: is_outgoing, ..old(self).inner } }),
            *final(self) == *final(r),
    {
        self.inner.is_outgoing = is_outgoing;
        self
    }

    pub fn is_pinned(&mut self, is_pinned: bool) -> (r: &mut Self)
        ensures
            *r == (RTDMessageBuilder { inner: Message { is_pinned: is_pinned, ..old(self).inner } }),
            *final(self) == *final(r),
    {
        self.inner.is_pinned = is_pinned;
        self
    }

    pub fn can_be_edited(&mut self, can_be_edited: bool) -> (r: &mut Self)
        ensures
            *r == (RTDMessageBuilder { inner: Message { can_be_edited: can_be_edited, ..old(self).inner } }),
            *final(self) == *final(r),
    {
        self.inner.can_be_edited = can_be_edited;
        self
    }

    pub fn can_be_forwarded(&mut self, can_be_forwarded: bool) -> (r: &mut Self)
        ensures
            *r == (RTDMessageBuilder { inner: Message { can_be_forwarded: can_be_forwarded, ..old(self).inner } }),
            *final(self) == *final(r),
    {
        self.inner.can_be_forwarded = can_be_forwarded;
        self
    }

    pub fn can_be_deleted_only_for_self(&mut self, can_be_deleted_only_for_self: bool) -> (r: &mut Self)
        ensures
            *r == (RTDMessageBuilder { inner: Message { can_be_deleted_only_for_self: can_be_deleted_only_for_self, ..old(self).inner } }),
            *final(self) == *final(r),
    {
        self.inner.can_be_deleted_only_for_self = can_be_deleted_only_for_self;
        self
    }

    pub fn can_be_deleted_for_all_users(&mut self, can_be_deleted_for_all_users: bool) -> (r: &mut Self)
        ensures
            *r == (RTDMessageBuilder { inner: Message { can_be_deleted_for_all_users: can_be_deleted_for_all_users, ..old(self).inner } }),
            *final(self) == *final(r),
    {
        self.inner.can_be_deleted_for_all_users = can_be_deleted_for_all_users;
        self
    }

    pub fn can_get_statistics(&mut self, can_get_statistics: bool) -> (r: &mut Self)
        ensures
            *r == (RTDMessageBuilder { inner: Message { can_get_statistics: can_get_statistics, ..old(self).inner } }),
            *final(self) == *final(r),
    {
        self.inner.can_get_statistics = can_get_statistics;
        self
    }

    pub fn can_get_message_thread(&mut self, can_get_message_thread: bool) -> (r: &mut Self)
        ensures
            *r == (RTDMessageBuilder { inner: Message { can_get_message_thread: can_get_message_thread, ..old(self).inner } }),
            *final(self) == *final(r),
    {
        self.inner.can_get_message_thread = can_get_message_thread;
        self
    }

    pub fn can_get_viewers(&mut self, can_get_viewers: bool) -> (r: &mut Self)
        ensures
            *r == (RTDMessageBuilder { inner: Message { can_get_viewers: can_get_viewers, ..old(self).inner } }),
            *final(self) == *final(r),
    {
        self.inner.can_get_viewers = can_get_viewers;
        self
    }

    pub fn can_get_media_timestamp_links(&mut self, can_get_media_timestamp_links: bool) -> (r: &mut Self)
        ensures
            *r == (RTDMessageBuilder { inner: Message { can_get_media_timestamp_links: can_get_media_timestamp_links, ..old(self).inner } }),
            *final(self) == *final(r),
    {
        self.inner.can_get_media_timestamp_links = can_get_media_timestamp_links;
        self
    }

    pub fn has_timestamped_media(&mut self, has_timestamped_media: Option<bool>) -> (r: &mut Self)
        ensures
            *r == (RTDMessageBuilder { inner: Message { has_timestamped_media: has_timestamped_media, ..old(self).inner } }),
            *final(self) == *final(r),
    {
        self.inner.has_timestamped_media = has_timestamped_media;
        self
    }

    pub fn is_channel_post(&mut self, is_channel_post: bool) -> (r: &mut Self)
        ensures
            *r == (RTDMessageBuilder { inner: Message { is_channel_post: is_channel_post, ..old(self).inner } }),
            *final(self) == *final(r),
    {
        self.inner.is_channel_post = is_channel_post;
        self
    }

    pub fn contains_unread_mention(&mut self, contains_unread_mention: bool) -> (r: &mut Self)
        ensures
            *r == (RTDMessageBuilder { inner: Message { contains_unread_mention: contains_unread_mention, ..old(self).inner } }),
            *final(self) == *final(r),
    {
        self.inner.contains_unread_mention = contains_unread_mention;
        self
    }

    pub fn date(&mut self, date: i64) -> (r: &mut Self)
        ensures
            *r == (RTDMessageBuilder { inner: Message { date: date, ..old(self).inner } }),
            *final(self) == *final(r),
    {
        self.inner.date = date;
        self
    }

    pub fn edit_date(&mut self, edit_date: i64) -> (r: &mut Self)
        ensures
            *r == (RTDMessageBuilder { inner: Message { edit_date: edit_date, ..old(self).inner } }),
            *final(self) == *final(r),
    {
        self.inner.edit_date = edit_date;
        self
    }

    pub fn interaction_info(&mut self, interaction_info: MessageInteractionInfo) -> (r: &mut Self)
        ensures
            *r == (RTDMessageBuilder { inner: Message { interaction_info: Some(interaction_info), ..old(self).inner } }),
            *final(self) == *final(r),
    {
        self.inner.interaction_info = Some(interaction_info);
        self
    }

    pub fn reply_in_chat_id(&mut self, reply_in_chat_id: i64) -> (r: &mut Self)
        ensures
            *r == (RTDMessageBuilder { inner: Message { reply_in_chat_id: reply_in_chat_id, ..old(self).inner } }),
            *final(self) == *final(r),
    {
        self.inner.reply_in_chat_id = reply_in_chat_id;
        self
    }

    pub fn reply_to_message_id(&mut self, reply_to_message_id: i64) -> (r: &mut Self)
        ensures
            *r == (RTDMessageBuilder { inner: Message { reply_to_message_id: reply_to_message_id, ..old(self).inner } }),
            *final(self) == *final(r),
    {
        self.inner.reply_to_message_id = reply_to_message_id;
        self
    }

    pub fn message_thread_id(&mut self, message_thread_id: i64) -> (r: &mut Self)
        ensures
            *r == (RTDMessageBuilder { inner: Message { message_thread_id: message_thread_id, ..old(self).inner } }),
            *final(self) == *final(r),
    {
        self.inner.message_thread_id = message_thread_id;
        self
    }

    pub fn ttl(&mut self, ttl: i64) -> (r: &mut Self)
        ensures
            *r == (RTDMessageBuilder { inner: Message { ttl: ttl, ..old(self).inner } }),
            *final(self) == *final(r),
    {
        self.inner.ttl = ttl;
        self
    }

    pub fn via_bot_user_id(&mut self, via_bot_user_id: i64) -> (r: &mut Self)
        ensures
            *r == (RTDMessageBuilder { inner: Message { via_bot_user_id: via_bot_user_id, ..old(self).inner } }),
            *final(self) == *final(r),
    {
        self.inner.via_bot_user_id = via_bot_user_id;
        self
    }

    pub fn author_signature(&mut self, author_signature: String) -> (r: &mut Self)
        ensures
            *r == (RTDMessageBuilder { inner: Message { author_signature: author_signature, ..old(self).inner } }),
            *final(self) == *final(r),
    {
        self.inner.author_signature = author_signature;
        self
    }

    pub fn media_album_id(&mut self, media_album_id: isize) -> (r: &mut Self)
        ensures
            *r == (RTDMessageBuilder { inner: Message { media_album_id: media_album_id, ..old(self).inner } }),
            *final(self) == *final(r),
    {
        self.inner.media_album_id = media_album_id;
        self
    }

    pub fn restriction_reason(&mut self, restriction_reason: String) -> (r: &mut Self)
        ensures
            *r == (RTDMessageBuilder { inner: Message { restriction_reason: restriction_reason, ..old(self).inner } }),
            *final(self) == *final(r),
    {
        self.inner.restriction_reason = restriction_reason;
        self
    }
}
} // verus!
