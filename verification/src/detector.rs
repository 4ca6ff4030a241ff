//! The top-level type detector: given wire text whose variant is not known
//! ahead of time, classifies it into one of the top-level categories and
//! decodes it accordingly.
use vstd::prelude::*;

use crate::errors::DecodeError;
use crate::errors::SpecDecodeError;
use crate::errors::err_matches;
use crate::json::JsonValue;
use crate::json::SpecJson;
use crate::object::Wire;
use crate::object::extra_of;
use crate::object::field_opt_string;
use crate::object::get_tag;
use crate::object::opt_str_eqv;
use crate::object::str_eq;
use crate::object::tag_of;
use crate::parse::parse_doc;
use crate::parse::parse_text;
use crate::authorization_state::AuthorizationState;
use crate::background_type::BackgroundType;
use crate::chat_action::ChatAction;
use crate::chat_member_status::ChatMemberStatus;
use crate::chat_members_filter::ChatMembersFilter;
use crate::chat_type::ChatType;
use crate::device_token::DeviceToken;
use crate::inline_keyboard_button_type::InlineKeyboardButtonType;
use crate::input_message_content::InputMessageContent;
use crate::input_sticker::InputSticker;
use crate::keyboard_button_type::KeyboardButtonType;
use crate::language_pack_string_value::LanguagePackStringValue;
use crate::log_stream::LogStream;
use crate::mask_point::MaskPoint;
use crate::network_statistics_entry::NetworkStatisticsEntry;
use crate::page_block_horizontal_alignment::PageBlockHorizontalAlignment;
use crate::page_block_vertical_alignment::PageBlockVerticalAlignment;
use crate::suggested_action::SuggestedAction;
use crate::text_entity_type::TextEntityType;
use crate::text_parse_mode::TextParseMode;
use crate::update::Update;
use crate::user_type::UserType;
use crate::chat_invite_link_info::ChatInviteLinkInfo;
use crate::chat_statistics_message_sender_info::ChatStatisticsMessageSenderInfo;
use crate::country_info::CountryInfo;
use crate::error::Error;
use crate::message::Message;
use crate::message_copy_options::MessageCopyOptions;
use crate::message_interaction_info::MessageInteractionInfo;
use crate::message_link_info::MessageLinkInfo;
use crate::message_send_options::MessageSendOptions;
use crate::message_thread_info::MessageThreadInfo;
use crate::phone_number_info::PhoneNumberInfo;
use crate::sticker::Sticker;
use crate::sticker_set_info::StickerSetInfo;
use crate::web_page_instant_view::WebPageInstantView;

verus! {

/// The top-level categories an incoming tagged value can fall under.
#[derive(Debug, Clone, Copy, PartialEq, Eq, Structural)]
pub enum TdCategory {
    AuthorizationState,
    BackgroundType,
    ChatAction,
    ChatMemberStatus,
    ChatMembersFilter,
    ChatType,
    DeviceToken,
    InlineKeyboardButtonType,
    InputMessageContent,
    InputSticker,
    KeyboardButtonType,
    LanguagePackStringValue,
    LogStream,
    MaskPoint,
    NetworkStatisticsEntry,
    PageBlockHorizontalAlignment,
    PageBlockVerticalAlignment,
    SuggestedAction,
    TextEntityType,
    TextParseMode,
    Update,
    UserType,
    ChatInviteLinkInfo,
    ChatStatisticsMessageSenderInfo,
    CountryInfo,
    Error,
    Message,
    MessageCopyOptions,
    MessageInteractionInfo,
    MessageLinkInfo,
    MessageSendOptions,
    MessageThreadInfo,
    PhoneNumberInfo,
    Sticker,
    StickerSetInfo,
    WebPageInstantView,
}

/// A fully decoded top-level value, in whichever category applies.
#[derive(Debug, Clone, PartialEq)]
pub enum TdType {
    AuthorizationState(AuthorizationState),
    BackgroundType(BackgroundType),
    ChatAction(ChatAction),
    ChatMemberStatus(ChatMemberStatus),
    ChatMembersFilter(ChatMembersFilter),
    ChatType(ChatType),
    DeviceToken(DeviceToken),
    InlineKeyboardButtonType(InlineKeyboardButtonType),
    InputMessageContent(InputMessageContent),
    InputSticker(InputSticker),
    KeyboardButtonType(KeyboardButtonType),
    LanguagePackStringValue(LanguagePackStringValue),
    LogStream(LogStream),
    MaskPoint(MaskPoint),
    NetworkStatisticsEntry(NetworkStatisticsEntry),
    PageBlockHorizontalAlignment(PageBlockHorizontalAlignment),
    PageBlockVerticalAlignment(PageBlockVerticalAlignment),
    SuggestedAction(SuggestedAction),
    TextEntityType(TextEntityType),
    TextParseMode(TextParseMode),
    Update(Update),
    UserType(UserType),
    ChatInviteLinkInfo(ChatInviteLinkInfo),
    ChatStatisticsMessageSenderInfo(ChatStatisticsMessageSenderInfo),
    CountryInfo(CountryInfo),
    Error(Error),
    Message(Message),
    MessageCopyOptions(MessageCopyOptions),
    MessageInteractionInfo(MessageInteractionInfo),
    MessageLinkInfo(MessageLinkInfo),
    MessageSendOptions(MessageSendOptions),
    MessageThreadInfo(MessageThreadInfo),
    PhoneNumberInfo(PhoneNumberInfo),
    Sticker(Sticker),
    StickerSetInfo(StickerSetInfo),
    WebPageInstantView(WebPageInstantView),
}

/// The owning top-level category of each known tag, across all variants.
pub open spec fn category_of(g: Seq<char>) -> Option<TdCategory> {
    if g == "authorizationStateClosed"@ {
        Some(TdCategory::AuthorizationState)
    } else if g == "authorizationStateClosing"@ {
        Some(TdCategory::AuthorizationState)
    } else if g == "authorizationStateLoggingOut"@ {
        Some(TdCategory::AuthorizationState)
    } else if g == "authorizationStateReady"@ {
        Some(TdCategory::AuthorizationState)
    } else if g == "authorizationStateWaitCode"@ {
        Some(TdCategory::AuthorizationState)
    } else if g == "authorizationStateWaitEncryptionKey"@ {
        Some(TdCategory::AuthorizationState)
    } else if g == "authorizationStateWaitOtherDeviceConfirmation"@ {
        Some(TdCategory::AuthorizationState)
    } else if g == "authorizationStateWaitPassword"@ {
        Some(TdCategory::AuthorizationState)
    } else if g == "authorizationStateWaitPhoneNumber"@ {
        Some(TdCategory::AuthorizationState)
    } else if g == "authorizationStateWaitRegistration"@ {
        Some(TdCategory::AuthorizationState)
    } else if g == "authorizationStateWaitTdlibParameters"@ {
        Some(TdCategory::AuthorizationState)
    } else if g == "getAuthorizationState"@ {
        Some(TdCategory::AuthorizationState)
    } else if g == "backgroundTypeFill"@ {
        Some(TdCategory::BackgroundType)
    } else if g == "backgroundTypePattern"@ {
        Some(TdCategory::BackgroundType)
    } else if g == "backgroundTypeWallpaper"@ {
        Some(TdCategory::BackgroundType)
    } else if g == "chatActionCancel"@ {
        Some(TdCategory::ChatAction)
    } else if g == "chatActionChoosingContact"@ {
        Some(TdCategory::ChatAction)
    } else if g == "chatActionChoosingLocation"@ {
        Some(TdCategory::ChatAction)
    } else if g == "chatActionChoosingSticker"@ {
        Some(TdCategory::ChatAction)
    } else if g == "chatActionRecordingVideo"@ {
        Some(TdCategory::ChatAction)
    } else if g == "chatActionRecordingVideoNote"@ {
        Some(TdCategory::ChatAction)
    } else if g == "chatActionRecordingVoiceNote"@ {
        Some(TdCategory::ChatAction)
    } else if g == "chatActionStartPlayingGame"@ {
        Some(TdCategory::ChatAction)
    } else if g == "chatActionTyping"@ {
        Some(TdCategory::ChatAction)
    } else if g == "chatActionUploadingDocument"@ {
        Some(TdCategory::ChatAction)
    } else if g == "chatActionUploadingPhoto"@ {
        Some(TdCategory::ChatAction)
    } else if g == "chatActionUploadingVideo"@ {
        Some(TdCategory::ChatAction)
    } else if g == "chatActionUploadingVideoNote"@ {
        Some(TdCategory::ChatAction)
    } else if g == "chatActionUploadingVoiceNote"@ {
        Some(TdCategory::ChatAction)
    } else if g == "chatActionWatchingAnimations"@ {
        Some(TdCategory::ChatAction)
    } else if g == "chatMemberStatusAdministrator"@ {
        Some(TdCategory::ChatMemberStatus)
    } else if g == "chatMemberStatusBanned"@ {
        Some(TdCategory::ChatMemberStatus)
    } else if g == "chatMemberStatusCreator"@ {
        Some(TdCategory::ChatMemberStatus)
    } else if g == "chatMemberStatusLeft"@ {
        Some(TdCategory::ChatMemberStatus)
    } else if g == "chatMemberStatusMember"@ {
        Some(TdCategory::ChatMemberStatus)
    } else if g == "chatMemberStatusRestricted"@ {
        Some(TdCategory::ChatMemberStatus)
    } else if g == "chatMembersFilterAdministrators"@ {
        Some(TdCategory::ChatMembersFilter)
    } else if g == "chatMembersFilterBanned"@ {
        Some(TdCategory::ChatMembersFilter)
    } else if g == "chatMembersFilterBots"@ {
        Some(TdCategory::ChatMembersFilter)
    } else if g == "chatMembersFilterMembers"@ {
        Some(TdCategory::ChatMembersFilter)
    } else if g == "chatMembersFilterRestricted"@ {
        Some(TdCategory::ChatMembersFilter)
    } else if g == "chatTypeBasicGroup"@ {
        Some(TdCategory::ChatType)
    } else if g == "chatTypePrivate"@ {
        Some(TdCategory::ChatType)
    } else if g == "chatTypeSecret"@ {
        Some(TdCategory::ChatType)
    } else if g == "chatTypeSupergroup"@ {
        Some(TdCategory::ChatType)
    } else if g == "deviceTokenApplePush"@ {
        Some(TdCategory::DeviceToken)
    } else if g == "deviceTokenApplePushVoIP"@ {
        Some(TdCategory::DeviceToken)
    } else if g == "deviceTokenBlackBerryPush"@ {
        Some(TdCategory::DeviceToken)
    } else if g == "deviceTokenFirebaseCloudMessaging"@ {
        Some(TdCategory::DeviceToken)
    } else if g == "deviceTokenMicrosoftPush"@ {
        Some(TdCategory::DeviceToken)
    } else if g == "deviceTokenMicrosoftPushVoIP"@ {
        Some(TdCategory::DeviceToken)
    } else if g == "deviceTokenSimplePush"@ {
        Some(TdCategory::DeviceToken)
    } else if g == "deviceTokenTizenPush"@ {
        Some(TdCategory::DeviceToken)
    } else if g == "deviceTokenUbuntuPush"@ {
        Some(TdCategory::DeviceToken)
    } else if g == "deviceTokenWebPush"@ {
        Some(TdCategory::DeviceToken)
    } else if g == "deviceTokenWindowsPush"@ {
        Some(TdCategory::DeviceToken)
    } else if g == "inlineKeyboardButtonTypeBuy"@ {
        Some(TdCategory::InlineKeyboardButtonType)
    } else if g == "inlineKeyboardButtonTypeCallback"@ {
        Some(TdCategory::InlineKeyboardButtonType)
    } else if g == "inlineKeyboardButtonTypeCallbackGame"@ {
        Some(TdCategory::InlineKeyboardButtonType)
    } else if g == "inlineKeyboardButtonTypeCallbackWithPassword"@ {
        Some(TdCategory::InlineKeyboardButtonType)
    } else if g == "inlineKeyboardButtonTypeLoginUrl"@ {
        Some(TdCategory::InlineKeyboardButtonType)
    } else if g == "inlineKeyboardButtonTypeSwitchInline"@ {
        Some(TdCategory::InlineKeyboardButtonType)
    } else if g == "inlineKeyboardButtonTypeUrl"@ {
        Some(TdCategory::InlineKeyboardButtonType)
    } else if g == "inputMessageAnimation"@ {
        Some(TdCategory::InputMessageContent)
    } else if g == "inputMessageAudio"@ {
        Some(TdCategory::InputMessageContent)
    } else if g == "inputMessageContact"@ {
        Some(TdCategory::InputMessageContent)
    } else if g == "inputMessageDice"@ {
        Some(TdCategory::InputMessageContent)
    } else if g == "inputMessageDocument"@ {
        Some(TdCategory::InputMessageContent)
    } else if g == "inputMessageForwarded"@ {
        Some(TdCategory::InputMessageContent)
    } else if g == "inputMessageGame"@ {
        Some(TdCategory::InputMessageContent)
    } else if g == "inputMessageInvoice"@ {
        Some(TdCategory::InputMessageContent)
    } else if g == "inputMessageLocation"@ {
        Some(TdCategory::InputMessageContent)
    } else if g == "inputMessagePhoto"@ {
        Some(TdCategory::InputMessageContent)
    } else if g == "inputMessagePoll"@ {
        Some(TdCategory::InputMessageContent)
    } else if g == "inputMessageSticker"@ {
        Some(TdCategory::InputMessageContent)
    } else if g == "inputMessageText"@ {
        Some(TdCategory::InputMessageContent)
    } else if g == "inputMessageVenue"@ {
        Some(TdCategory::InputMessageContent)
    } else if g == "inputMessageVideo"@ {
        Some(TdCategory::InputMessageContent)
    } else if g == "inputMessageVideoNote"@ {
        Some(TdCategory::InputMessageContent)
    } else if g == "inputMessageVoiceNote"@ {
        Some(TdCategory::InputMessageContent)
    } else if g == "inputStickerAnimated"@ {
        Some(TdCategory::InputSticker)
    } else if g == "inputStickerStatic"@ {
        Some(TdCategory::InputSticker)
    } else if g == "keyboardButtonTypeRequestLocation"@ {
        Some(TdCategory::KeyboardButtonType)
    } else if g == "keyboardButtonTypeRequestPhoneNumber"@ {
        Some(TdCategory::KeyboardButtonType)
    } else if g == "keyboardButtonTypeRequestPoll"@ {
        Some(TdCategory::KeyboardButtonType)
    } else if g == "keyboardButtonTypeText"@ {
        Some(TdCategory::KeyboardButtonType)
    } else if g == "getLanguagePackString"@ {
        Some(TdCategory::LanguagePackStringValue)
    } else if g == "languagePackStringValueDeleted"@ {
        Some(TdCategory::LanguagePackStringValue)
    } else if g == "languagePackStringValueOrdinary"@ {
        Some(TdCategory::LanguagePackStringValue)
    } else if g == "languagePackStringValuePluralized"@ {
        Some(TdCategory::LanguagePackStringValue)
    } else if g == "getLogStream"@ {
        Some(TdCategory::LogStream)
    } else if g == "logStreamDefault"@ {
        Some(TdCategory::LogStream)
    } else if g == "logStreamEmpty"@ {
        Some(TdCategory::LogStream)
    } else if g == "logStreamFile"@ {
        Some(TdCategory::LogStream)
    } else if g == "maskPointChin"@ {
        Some(TdCategory::MaskPoint)
    } else if g == "maskPointEyes"@ {
        Some(TdCategory::MaskPoint)
    } else if g == "maskPointForehead"@ {
        Some(TdCategory::MaskPoint)
    } else if g == "maskPointMouth"@ {
        Some(TdCategory::MaskPoint)
    } else if g == "networkStatisticsEntryCall"@ {
        Some(TdCategory::NetworkStatisticsEntry)
    } else if g == "networkStatisticsEntryFile"@ {
        Some(TdCategory::NetworkStatisticsEntry)
    } else if g == "pageBlockHorizontalAlignmentCenter"@ {
        Some(TdCategory::PageBlockHorizontalAlignment)
    } else if g == "pageBlockHorizontalAlignmentLeft"@ {
        Some(TdCategory::PageBlockHorizontalAlignment)
    } else if g == "pageBlockHorizontalAlignmentRight"@ {
        Some(TdCategory::PageBlockHorizontalAlignment)
    } else if g == "pageBlockVerticalAlignmentBottom"@ {
        Some(TdCategory::PageBlockVerticalAlignment)
    } else if g == "pageBlockVerticalAlignmentMiddle"@ {
        Some(TdCategory::PageBlockVerticalAlignment)
    } else if g == "pageBlockVerticalAlignmentTop"@ {
        Some(TdCategory::PageBlockVerticalAlignment)
    } else if g == "suggestedActionCheckPassword"@ {
        Some(TdCategory::SuggestedAction)
    } else if g == "suggestedActionCheckPhoneNumber"@ {
        Some(TdCategory::SuggestedAction)
    } else if g == "suggestedActionConvertToBroadcastGroup"@ {
        Some(TdCategory::SuggestedAction)
    } else if g == "suggestedActionEnableArchiveAndMuteNewChats"@ {
        Some(TdCategory::SuggestedAction)
    } else if g == "suggestedActionSeeTicksHint"@ {
        Some(TdCategory::SuggestedAction)
    } else if g == "textEntityTypeBankCardNumber"@ {
        Some(TdCategory::TextEntityType)
    } else if g == "textEntityTypeBold"@ {
        Some(TdCategory::TextEntityType)
    } else if g == "textEntityTypeBotCommand"@ {
        Some(TdCategory::TextEntityType)
    } else if g == "textEntityTypeCashtag"@ {
        Some(TdCategory::TextEntityType)
    } else if g == "textEntityTypeCode"@ {
        Some(TdCategory::TextEntityType)
    } else if g == "textEntityTypeEmailAddress"@ {
        Some(TdCategory::TextEntityType)
    } else if g == "textEntityTypeHashtag"@ {
        Some(TdCategory::TextEntityType)
    } else if g == "textEntityTypeItalic"@ {
        Some(TdCategory::TextEntityType)
    } else if g == "textEntityTypeMediaTimestamp"@ {
        Some(TdCategory::TextEntityType)
    } else if g == "textEntityTypeMention"@ {
        Some(TdCategory::TextEntityType)
    } else if g == "textEntityTypeMentionName"@ {
        Some(TdCategory::TextEntityType)
    } else if g == "textEntityTypePhoneNumber"@ {
        Some(TdCategory::TextEntityType)
    } else if g == "textEntityTypePre"@ {
        Some(TdCategory::TextEntityType)
    } else if g == "textEntityTypePreCode"@ {
        Some(TdCategory::TextEntityType)
    } else if g == "textEntityTypeStrikethrough"@ {
        Some(TdCategory::TextEntityType)
    } else if g == "textEntityTypeTextUrl"@ {
        Some(TdCategory::TextEntityType)
    } else if g == "textEntityTypeUnderline"@ {
        Some(TdCategory::TextEntityType)
    } else if g == "textEntityTypeUrl"@ {
        Some(TdCategory::TextEntityType)
    } else if g == "textParseModeHTML"@ {
        Some(TdCategory::TextParseMode)
    } else if g == "textParseModeMarkdown"@ {
        Some(TdCategory::TextParseMode)
    } else if g == "updateAuthorizationState"@ {
        Some(TdCategory::Update)
    } else if g == "userTypeBot"@ {
        Some(TdCategory::UserType)
    } else if g == "userTypeDeleted"@ {
        Some(TdCategory::UserType)
    } else if g == "userTypeRegular"@ {
        Some(TdCategory::UserType)
    } else if g == "userTypeUnknown"@ {
        Some(TdCategory::UserType)
    } else if g == "chatInviteLinkInfo"@ {
        Some(TdCategory::ChatInviteLinkInfo)
    } else if g == "chatStatisticsMessageSenderInfo"@ {
        Some(TdCategory::ChatStatisticsMessageSenderInfo)
    } else if g == "countryInfo"@ {
        Some(TdCategory::CountryInfo)
    } else if g == "error"@ {
        Some(TdCategory::Error)
    } else if g == "message"@ {
        Some(TdCategory::Message)
    } else if g == "messageCopyOptions"@ {
        Some(TdCategory::MessageCopyOptions)
    } else if g == "messageInteractionInfo"@ {
        Some(TdCategory::MessageInteractionInfo)
    } else if g == "messageLinkInfo"@ {
        Some(TdCategory::MessageLinkInfo)
    } else if g == "messageSendOptions"@ {
        Some(TdCategory::MessageSendOptions)
    } else if g == "messageThreadInfo"@ {
        Some(TdCategory::MessageThreadInfo)
    } else if g == "phoneNumberInfo"@ {
        Some(TdCategory::PhoneNumberInfo)
    } else if g == "sticker"@ {
        Some(TdCategory::Sticker)
    } else if g == "stickerSetInfo"@ {
        Some(TdCategory::StickerSetInfo)
    } else if g == "webPageInstantView"@ {
        Some(TdCategory::WebPageInstantView)
    } else {
        None
    }
}

/// Which category a decoded top-level value belongs to.
pub open spec fn category_of_value(v: TdType) -> TdCategory {
    match v {
        TdType::AuthorizationState(_) => TdCategory::AuthorizationState,
        TdType::BackgroundType(_) => TdCategory::BackgroundType,
        TdType::ChatAction(_) => TdCategory::ChatAction,
        TdType::ChatMemberStatus(_) => TdCategory::ChatMemberStatus,
        TdType::ChatMembersFilter(_) => TdCategory::ChatMembersFilter,
        TdType::ChatType(_) => TdCategory::ChatType,
        TdType::DeviceToken(_) => TdCategory::DeviceToken,
        TdType::InlineKeyboardButtonType(_) => TdCategory::InlineKeyboardButtonType,
        TdType::InputMessageContent(_) => TdCategory::InputMessageContent,
        TdType::InputSticker(_) => TdCategory::InputSticker,
        TdType::KeyboardButtonType(_) => TdCategory::KeyboardButtonType,
        TdType::LanguagePackStringValue(_) => TdCategory::LanguagePackStringValue,
        TdType::LogStream(_) => TdCategory::LogStream,
        TdType::MaskPoint(_) => TdCategory::MaskPoint,
        TdType::NetworkStatisticsEntry(_) => TdCategory::NetworkStatisticsEntry,
        TdType::PageBlockHorizontalAlignment(_) => TdCategory::PageBlockHorizontalAlignment,
        TdType::PageBlockVerticalAlignment(_) => TdCategory::PageBlockVerticalAlignment,
        TdType::SuggestedAction(_) => TdCategory::SuggestedAction,
        TdType::TextEntityType(_) => TdCategory::TextEntityType,
        TdType::TextParseMode(_) => TdCategory::TextParseMode,
        TdType::Update(_) => TdCategory::Update,
        TdType::UserType(_) => TdCategory::UserType,
        TdType::ChatInviteLinkInfo(_) => TdCategory::ChatInviteLinkInfo,
        TdType::ChatStatisticsMessageSenderInfo(_) => TdCategory::ChatStatisticsMessageSenderInfo,
        TdType::CountryInfo(_) => TdCategory::CountryInfo,
        TdType::Error(_) => TdCategory::Error,
        TdType::Message(_) => TdCategory::Message,
        TdType::MessageCopyOptions(_) => TdCategory::MessageCopyOptions,
        TdType::MessageInteractionInfo(_) => TdCategory::MessageInteractionInfo,
        TdType::MessageLinkInfo(_) => TdCategory::MessageLinkInfo,
        TdType::MessageSendOptions(_) => TdCategory::MessageSendOptions,
        TdType::MessageThreadInfo(_) => TdCategory::MessageThreadInfo,
        TdType::PhoneNumberInfo(_) => TdCategory::PhoneNumberInfo,
        TdType::Sticker(_) => TdCategory::Sticker,
        TdType::StickerSetInfo(_) => TdCategory::StickerSetInfo,
        TdType::WebPageInstantView(_) => TdCategory::WebPageInstantView,
    }
}

/// How a decoded top-level value relates to the tree it came from.
pub open spec fn cat_accepts(c: TdCategory, t: SpecJson) -> bool {
    match c {
        TdCategory::AuthorizationState => AuthorizationState::accepts(t),
        TdCategory::BackgroundType => BackgroundType::accepts(t),
        TdCategory::ChatAction => ChatAction::accepts(t),
        TdCategory::ChatMemberStatus => ChatMemberStatus::accepts(t),
        TdCategory::ChatMembersFilter => ChatMembersFilter::accepts(t),
        TdCategory::ChatType => ChatType::accepts(t),
        TdCategory::DeviceToken => DeviceToken::accepts(t),
        TdCategory::InlineKeyboardButtonType => InlineKeyboardButtonType::accepts(t),
        TdCategory::InputMessageContent => InputMessageContent::accepts(t),
        TdCategory::InputSticker => InputSticker::accepts(t),
        TdCategory::KeyboardButtonType => KeyboardButtonType::accepts(t),
        TdCategory::LanguagePackStringValue => LanguagePackStringValue::accepts(t),
        TdCategory::LogStream => LogStream::accepts(t),
        TdCategory::MaskPoint => MaskPoint::accepts(t),
        TdCategory::NetworkStatisticsEntry => NetworkStatisticsEntry::accepts(t),
        TdCategory::PageBlockHorizontalAlignment => PageBlockHorizontalAlignment::accepts(t),
        TdCategory::PageBlockVerticalAlignment => PageBlockVerticalAlignment::accepts(t),
        TdCategory::SuggestedAction => SuggestedAction::accepts(t),
        TdCategory::TextEntityType => TextEntityType::accepts(t),
        TdCategory::TextParseMode => TextParseMode::accepts(t),
        TdCategory::Update => Update::accepts(t),
        TdCategory::UserType => UserType::accepts(t),
        TdCategory::ChatInviteLinkInfo => ChatInviteLinkInfo::accepts(t),
        TdCategory::ChatStatisticsMessageSenderInfo => ChatStatisticsMessageSenderInfo::accepts(t),
        TdCategory::CountryInfo => CountryInfo::accepts(t),
        TdCategory::Error => Error::accepts(t),
        TdCategory::Message => Message::accepts(t),
        TdCategory::MessageCopyOptions => MessageCopyOptions::accepts(t),
        TdCategory::MessageInteractionInfo => MessageInteractionInfo::accepts(t),
        TdCategory::MessageLinkInfo => MessageLinkInfo::accepts(t),
        TdCategory::MessageSendOptions => MessageSendOptions::accepts(t),
        TdCategory::MessageThreadInfo => MessageThreadInfo::accepts(t),
        TdCategory::PhoneNumberInfo => PhoneNumberInfo::accepts(t),
        TdCategory::Sticker => Sticker::accepts(t),
        TdCategory::StickerSetInfo => StickerSetInfo::accepts(t),
        TdCategory::WebPageInstantView => WebPageInstantView::accepts(t),
    }
}

pub open spec fn cat_err(c: TdCategory, t: SpecJson) -> SpecDecodeError {
    match c {
        TdCategory::AuthorizationState => AuthorizationState::err_of(t),
        TdCategory::BackgroundType => BackgroundType::err_of(t),
        TdCategory::ChatAction => ChatAction::err_of(t),
        TdCategory::ChatMemberStatus => ChatMemberStatus::err_of(t),
        TdCategory::ChatMembersFilter => ChatMembersFilter::err_of(t),
        TdCategory::ChatType => ChatType::err_of(t),
        TdCategory::DeviceToken => DeviceToken::err_of(t),
        TdCategory::InlineKeyboardButtonType => InlineKeyboardButtonType::err_of(t),
        TdCategory::InputMessageContent => InputMessageContent::err_of(t),
        TdCategory::InputSticker => InputSticker::err_of(t),
        TdCategory::KeyboardButtonType => KeyboardButtonType::err_of(t),
        TdCategory::LanguagePackStringValue => LanguagePackStringValue::err_of(t),
        TdCategory::LogStream => LogStream::err_of(t),
        TdCategory::MaskPoint => MaskPoint::err_of(t),
        TdCategory::NetworkStatisticsEntry => NetworkStatisticsEntry::err_of(t),
        TdCategory::PageBlockHorizontalAlignment => PageBlockHorizontalAlignment::err_of(t),
        TdCategory::PageBlockVerticalAlignment => PageBlockVerticalAlignment::err_of(t),
        TdCategory::SuggestedAction => SuggestedAction::err_of(t),
        TdCategory::TextEntityType => TextEntityType::err_of(t),
        TdCategory::TextParseMode => TextParseMode::err_of(t),
        TdCategory::Update => Update::err_of(t),
        TdCategory::UserType => UserType::err_of(t),
        TdCategory::ChatInviteLinkInfo => ChatInviteLinkInfo::err_of(t),
        TdCategory::ChatStatisticsMessageSenderInfo => ChatStatisticsMessageSenderInfo::err_of(t),
        TdCategory::CountryInfo => CountryInfo::err_of(t),
        TdCategory::Error => Error::err_of(t),
        TdCategory::Message => Message::err_of(t),
        TdCategory::MessageCopyOptions => MessageCopyOptions::err_of(t),
        TdCategory::MessageInteractionInfo => MessageInteractionInfo::err_of(t),
        TdCategory::MessageLinkInfo => MessageLinkInfo::err_of(t),
        TdCategory::MessageSendOptions => MessageSendOptions::err_of(t),
        TdCategory::MessageThreadInfo => MessageThreadInfo::err_of(t),
        TdCategory::PhoneNumberInfo => PhoneNumberInfo::err_of(t),
        TdCategory::Sticker => Sticker::err_of(t),
        TdCategory::StickerSetInfo => StickerSetInfo::err_of(t),
        TdCategory::WebPageInstantView => WebPageInstantView::err_of(t),
    }
}

pub open spec fn cat_decodes(c: TdCategory, t: SpecJson, v: TdType) -> bool {
    match (c, v) {
        (TdCategory::AuthorizationState, TdType::AuthorizationState(x)) => AuthorizationState::decodes_from(t, x),
        (TdCategory::BackgroundType, TdType::BackgroundType(x)) => BackgroundType::decodes_from(t, x),
        (TdCategory::ChatAction, TdType::ChatAction(x)) => ChatAction::decodes_from(t, x),
        (TdCategory::ChatMemberStatus, TdType::ChatMemberStatus(x)) => ChatMemberStatus::decodes_from(t, x),
        (TdCategory::ChatMembersFilter, TdType::ChatMembersFilter(x)) => ChatMembersFilter::decodes_from(t, x),
        (TdCategory::ChatType, TdType::ChatType(x)) => ChatType::decodes_from(t, x),
        (TdCategory::DeviceToken, TdType::DeviceToken(x)) => DeviceToken::decodes_from(t, x),
        (TdCategory::InlineKeyboardButtonType, TdType::InlineKeyboardButtonType(x)) => InlineKeyboardButtonType::decodes_from(t, x),
        (TdCategory::InputMessageContent, TdType::InputMessageContent(x)) => InputMessageContent::decodes_from(t, x),
        (TdCategory::InputSticker, TdType::InputSticker(x)) => InputSticker::decodes_from(t, x),
        (TdCategory::KeyboardButtonType, TdType::KeyboardButtonType(x)) => KeyboardButtonType::decodes_from(t, x),
        (TdCategory::LanguagePackStringValue, TdType::LanguagePackStringValue(x)) => LanguagePackStringValue::decodes_from(t, x),
        (TdCategory::LogStream, TdType::LogStream(x)) => LogStream::decodes_from(t, x),
        (TdCategory::MaskPoint, TdType::MaskPoint(x)) => MaskPoint::decodes_from(t, x),
        (TdCategory::NetworkStatisticsEntry, TdType::NetworkStatisticsEntry(x)) => NetworkStatisticsEntry::decodes_from(t, x),
        (TdCategory::PageBlockHorizontalAlignment, TdType::PageBlockHorizontalAlignment(x)) => PageBlockHorizontalAlignment::decodes_from(t, x),
        (TdCategory::PageBlockVerticalAlignment, TdType::PageBlockVerticalAlignment(x)) => PageBlockVerticalAlignment::decodes_from(t, x),
        (TdCategory::SuggestedAction, TdType::SuggestedAction(x)) => SuggestedAction::decodes_from(t, x),
        (TdCategory::TextEntityType, TdType::TextEntityType(x)) => TextEntityType::decodes_from(t, x),
        (TdCategory::TextParseMode, TdType::TextParseMode(x)) => TextParseMode::decodes_from(t, x),
        (TdCategory::Update, TdType::Update(x)) => Update::decodes_from(t, x),
        (TdCategory::UserType, TdType::UserType(x)) => UserType::decodes_from(t, x),
        (TdCategory::ChatInviteLinkInfo, TdType::ChatInviteLinkInfo(x)) => ChatInviteLinkInfo::decodes_from(t, x),
        (TdCategory::ChatStatisticsMessageSenderInfo, TdType::ChatStatisticsMessageSenderInfo(x)) => ChatStatisticsMessageSenderInfo::decodes_from(t, x),
        (TdCategory::CountryInfo, TdType::CountryInfo(x)) => CountryInfo::decodes_from(t, x),
        (TdCategory::Error, TdType::Error(x)) => Error::decodes_from(t, x),
        (TdCategory::Message, TdType::Message(x)) => Message::decodes_from(t, x),
        (TdCategory::MessageCopyOptions, TdType::MessageCopyOptions(x)) => MessageCopyOptions::decodes_from(t, x),
        (TdCategory::MessageInteractionInfo, TdType::MessageInteractionInfo(x)) => MessageInteractionInfo::decodes_from(t, x),
        (TdCategory::MessageLinkInfo, TdType::MessageLinkInfo(x)) => MessageLinkInfo::decodes_from(t, x),
        (TdCategory::MessageSendOptions, TdType::MessageSendOptions(x)) => MessageSendOptions::decodes_from(t, x),
        (TdCategory::MessageThreadInfo, TdType::MessageThreadInfo(x)) => MessageThreadInfo::decodes_from(t, x),
        (TdCategory::PhoneNumberInfo, TdType::PhoneNumberInfo(x)) => PhoneNumberInfo::decodes_from(t, x),
        (TdCategory::Sticker, TdType::Sticker(x)) => Sticker::decodes_from(t, x),
        (TdCategory::StickerSetInfo, TdType::StickerSetInfo(x)) => StickerSetInfo::decodes_from(t, x),
        (TdCategory::WebPageInstantView, TdType::WebPageInstantView(x)) => WebPageInstantView::decodes_from(t, x),
        _ => false,
    }
}

/// Looks a tag up in the global table.
#[verifier::rlimit(100)]
#[verifier::spinoff_prover]
pub fn category_of_tag(g: &str) -> (r: Option<TdCategory>)
    ensures
        r == category_of(g@),
{
    if str_eq(g, "authorizationStateClosed") {
        Some(TdCategory::AuthorizationState)
    } else if str_eq(g, "authorizationStateClosing") {
        Some(TdCategory::AuthorizationState)
    } else if str_eq(g, "authorizationStateLoggingOut") {
        Some(TdCategory::AuthorizationState)
    } else if str_eq(g, "authorizationStateReady") {
        Some(TdCategory::AuthorizationState)
    } else if str_eq(g, "authorizationStateWaitCode") {
        Some(TdCategory::AuthorizationState)
    } else if str_eq(g, "authorizationStateWaitEncryptionKey") {
        Some(TdCategory::AuthorizationState)
    } else if str_eq(g, "authorizationStateWaitOtherDeviceConfirmation") {
        Some(TdCategory::AuthorizationState)
    } else if str_eq(g, "authorizationStateWaitPassword") {
        Some(TdCategory::AuthorizationState)
    } else if str_eq(g, "authorizationStateWaitPhoneNumber") {
        Some(TdCategory::AuthorizationState)
    } else if str_eq(g, "authorizationStateWaitRegistration") {
        Some(TdCategory::AuthorizationState)
    } else if str_eq(g, "authorizationStateWaitTdlibParameters") {
        Some(TdCategory::AuthorizationState)
    } else if str_eq(g, "getAuthorizationState") {
        Some(TdCategory::AuthorizationState)
    } else if str_eq(g, "backgroundTypeFill") {
        Some(TdCategory::BackgroundType)
    } else if str_eq(g, "backgroundTypePattern") {
        Some(TdCategory::BackgroundType)
    } else if str_eq(g, "backgroundTypeWallpaper") {
        Some(TdCategory::BackgroundType)
    } else if str_eq(g, "chatActionCancel") {
        Some(TdCategory::ChatAction)
    } else if str_eq(g, "chatActionChoosingContact") {
        Some(TdCategory::ChatAction)
    } else if str_eq(g, "chatActionChoosingLocation") {
        Some(TdCategory::ChatAction)
    } else if str_eq(g, "chatActionChoosingSticker") {
        Some(TdCategory::ChatAction)
    } else if str_eq(g, "chatActionRecordingVideo") {
        Some(TdCategory::ChatAction)
    } else if str_eq(g, "chatActionRecordingVideoNote") {
        Some(TdCategory::ChatAction)
    } else if str_eq(g, "chatActionRecordingVoiceNote") {
        Some(TdCategory::ChatAction)
    } else if str_eq(g, "chatActionStartPlayingGame") {
        Some(TdCategory::ChatAction)
    } else if str_eq(g, "chatActionTyping") {
        Some(TdCategory::ChatAction)
    } else if str_eq(g, "chatActionUploadingDocument") {
        Some(TdCategory::ChatAction)
    } else if str_eq(g, "chatActionUploadingPhoto") {
        Some(TdCategory::ChatAction)
    } else if str_eq(g, "chatActionUploadingVideo") {
        Some(TdCategory::ChatAction)
    } else if str_eq(g, "chatActionUploadingVideoNote") {
        Some(TdCategory::ChatAction)
    } else if str_eq(g, "chatActionUploadingVoiceNote") {
        Some(TdCategory::ChatAction)
    } else if str_eq(g, "chatActionWatchingAnimations") {
        Some(TdCategory::ChatAction)
    } else if str_eq(g, "chatMemberStatusAdministrator") {
        Some(TdCategory::ChatMemberStatus)
    } else if str_eq(g, "chatMemberStatusBanned") {
        Some(TdCategory::ChatMemberStatus)
    } else if str_eq(g, "chatMemberStatusCreator") {
        Some(TdCategory::ChatMemberStatus)
    } else if str_eq(g, "chatMemberStatusLeft") {
        Some(TdCategory::ChatMemberStatus)
    } else if str_eq(g, "chatMemberStatusMember") {
        Some(TdCategory::ChatMemberStatus)
    } else if str_eq(g, "chatMemberStatusRestricted") {
        Some(TdCategory::ChatMemberStatus)
    } else if str_eq(g, "chatMembersFilterAdministrators") {
        Some(TdCategory::ChatMembersFilter)
    } else if str_eq(g, "chatMembersFilterBanned") {
        Some(TdCategory::ChatMembersFilter)
    } else if str_eq(g, "chatMembersFilterBots") {
        Some(TdCategory::ChatMembersFilter)
    } else if str_eq(g, "chatMembersFilterMembers") {
        Some(TdCategory::ChatMembersFilter)
    } else if str_eq(g, "chatMembersFilterRestricted") {
        Some(TdCategory::ChatMembersFilter)
    } else if str_eq(g, "chatTypeBasicGroup") {
        Some(TdCategory::ChatType)
    } else if str_eq(g, "chatTypePrivate") {
        Some(TdCategory::ChatType)
    } else if str_eq(g, "chatTypeSecret") {
        Some(TdCategory::ChatType)
    } else if str_eq(g, "chatTypeSupergroup") {
        Some(TdCategory::ChatType)
    } else if str_eq(g, "deviceTokenApplePush") {
        Some(TdCategory::DeviceToken)
    } else if str_eq(g, "deviceTokenApplePushVoIP") {
        Some(TdCategory::DeviceToken)
    } else if str_eq(g, "deviceTokenBlackBerryPush") {
        Some(TdCategory::DeviceToken)
    } else if str_eq(g, "deviceTokenFirebaseCloudMessaging") {
        Some(TdCategory::DeviceToken)
    } else if str_eq(g, "deviceTokenMicrosoftPush") {
        Some(TdCategory::DeviceToken)
    } else if str_eq(g, "deviceTokenMicrosoftPushVoIP") {
        Some(TdCategory::DeviceToken)
    } else if str_eq(g, "deviceTokenSimplePush") {
        Some(TdCategory::DeviceToken)
    } else if str_eq(g, "deviceTokenTizenPush") {
        Some(TdCategory::DeviceToken)
    } else if str_eq(g, "deviceTokenUbuntuPush") {
        Some(TdCategory::DeviceToken)
    } else if str_eq(g, "deviceTokenWebPush") {
        Some(TdCategory::DeviceToken)
    } else if str_eq(g, "deviceTokenWindowsPush") {
        Some(TdCategory::DeviceToken)
    } else if str_eq(g, "inlineKeyboardButtonTypeBuy") {
        Some(TdCategory::InlineKeyboardButtonType)
    } else if str_eq(g, "inlineKeyboardButtonTypeCallback") {
        Some(TdCategory::InlineKeyboardButtonType)
    } else if str_eq(g, "inlineKeyboardButtonTypeCallbackGame") {
        Some(TdCategory::InlineKeyboardButtonType)
    } else if str_eq(g, "inlineKeyboardButtonTypeCallbackWithPassword") {
        Some(TdCategory::InlineKeyboardButtonType)
    } else if str_eq(g, "inlineKeyboardButtonTypeLoginUrl") {
        Some(TdCategory::InlineKeyboardButtonType)
    } else if str_eq(g, "inlineKeyboardButtonTypeSwitchInline") {
        Some(TdCategory::InlineKeyboardButtonType)
    } else if str_eq(g, "inlineKeyboardButtonTypeUrl") {
        Some(TdCategory::InlineKeyboardButtonType)
    } else if str_eq(g, "inputMessageAnimation") {
        Some(TdCategory::InputMessageContent)
    } else if str_eq(g, "inputMessageAudio") {
        Some(TdCategory::InputMessageContent)
    } else if str_eq(g, "inputMessageContact") {
        Some(TdCategory::InputMessageContent)
    } else if str_eq(g, "inputMessageDice") {
        Some(TdCategory::InputMessageContent)
    } else if str_eq(g, "inputMessageDocument") {
        Some(TdCategory::InputMessageContent)
    } else if str_eq(g, "inputMessageForwarded") {
        Some(TdCategory::InputMessageContent)
    } else if str_eq(g, "inputMessageGame") {
        Some(TdCategory::InputMessageContent)
    } else if str_eq(g, "inputMessageInvoice") {
        Some(TdCategory::InputMessageContent)
    } else if str_eq(g, "inputMessageLocation") {
        Some(TdCategory::InputMessageContent)
    } else if str_eq(g, "inputMessagePhoto") {
        Some(TdCategory::InputMessageContent)
    } else if str_eq(g, "inputMessagePoll") {
        Some(TdCategory::InputMessageContent)
    } else if str_eq(g, "inputMessageSticker") {
        Some(TdCategory::InputMessageContent)
    } else if str_eq(g, "inputMessageText") {
        Some(TdCategory::InputMessageContent)
    } else if str_eq(g, "inputMessageVenue") {
        Some(TdCategory::InputMessageContent)
    } else if str_eq(g, "inputMessageVideo") {
        Some(TdCategory::InputMessageContent)
    } else if str_eq(g, "inputMessageVideoNote") {
        Some(TdCategory::InputMessageContent)
    } else if str_eq(g, "inputMessageVoiceNote") {
        Some(TdCategory::InputMessageContent)
    } else if str_eq(g, "inputStickerAnimated") {
        Some(TdCategory::InputSticker)
    } else if str_eq(g, "inputStickerStatic") {
        Some(TdCategory::InputSticker)
    } else if str_eq(g, "keyboardButtonTypeRequestLocation") {
        Some(TdCategory::KeyboardButtonType)
    } else if str_eq(g, "keyboardButtonTypeRequestPhoneNumber") {
        Some(TdCategory::KeyboardButtonType)
    } else if str_eq(g, "keyboardButtonTypeRequestPoll") {
        Some(TdCategory::KeyboardButtonType)
    } else if str_eq(g, "keyboardButtonTypeText") {
        Some(TdCategory::KeyboardButtonType)
    } else if str_eq(g, "getLanguagePackString") {
        Some(TdCategory::LanguagePackStringValue)
    } else if str_eq(g, "languagePackStringValueDeleted") {
        Some(TdCategory::LanguagePackStringValue)
    } else if str_eq(g, "languagePackStringValueOrdinary") {
        Some(TdCategory::LanguagePackStringValue)
    } else if str_eq(g, "languagePackStringValuePluralized") {
        Some(TdCategory::LanguagePackStringValue)
    } else if str_eq(g, "getLogStream") {
        Some(TdCategory::LogStream)
    } else if str_eq(g, "logStreamDefault") {
        Some(TdCategory::LogStream)
    } else if str_eq(g, "logStreamEmpty") {
        Some(TdCategory::LogStream)
    } else if str_eq(g, "logStreamFile") {
        Some(TdCategory::LogStream)
    } else if str_eq(g, "maskPointChin") {
        Some(TdCategory::MaskPoint)
    } else if str_eq(g, "maskPointEyes") {
        Some(TdCategory::MaskPoint)
    } else if str_eq(g, "maskPointForehead") {
        Some(TdCategory::MaskPoint)
    } else if str_eq(g, "maskPointMouth") {
        Some(TdCategory::MaskPoint)
    } else if str_eq(g, "networkStatisticsEntryCall") {
        Some(TdCategory::NetworkStatisticsEntry)
    } else if str_eq(g, "networkStatisticsEntryFile") {
        Some(TdCategory::NetworkStatisticsEntry)
    } else if str_eq(g, "pageBlockHorizontalAlignmentCenter") {
        Some(TdCategory::PageBlockHorizontalAlignment)
    } else if str_eq(g, "pageBlockHorizontalAlignmentLeft") {
        Some(TdCategory::PageBlockHorizontalAlignment)
    } else if str_eq(g, "pageBlockHorizontalAlignmentRight") {
        Some(TdCategory::PageBlockHorizontalAlignment)
    } else if str_eq(g, "pageBlockVerticalAlignmentBottom") {
        Some(TdCategory::PageBlockVerticalAlignment)
    } else if str_eq(g, "pageBlockVerticalAlignmentMiddle") {
        Some(TdCategory::PageBlockVerticalAlignment)
    } else if str_eq(g, "pageBlockVerticalAlignmentTop") {
        Some(TdCategory::PageBlockVerticalAlignment)
    } else if str_eq(g, "suggestedActionCheckPassword") {
        Some(TdCategory::SuggestedAction)
    } else if str_eq(g, "suggestedActionCheckPhoneNumber") {
        Some(TdCategory::SuggestedAction)
    } else if str_eq(g, "suggestedActionConvertToBroadcastGroup") {
        Some(TdCategory::SuggestedAction)
    } else if str_eq(g, "suggestedActionEnableArchiveAndMuteNewChats") {
        Some(TdCategory::SuggestedAction)
    } else if str_eq(g, "suggestedActionSeeTicksHint") {
        Some(TdCategory::SuggestedAction)
    } else if str_eq(g, "textEntityTypeBankCardNumber") {
        Some(TdCategory::TextEntityType)
    } else if str_eq(g, "textEntityTypeBold") {
        Some(TdCategory::TextEntityType)
    } else if str_eq(g, "textEntityTypeBotCommand") {
        Some(TdCategory::TextEntityType)
    } else if str_eq(g, "textEntityTypeCashtag") {
        Some(TdCategory::TextEntityType)
    } else if str_eq(g, "textEntityTypeCode") {
        Some(TdCategory::TextEntityType)
    } else if str_eq(g, "textEntityTypeEmailAddress") {
        Some(TdCategory::TextEntityType)
    } else if str_eq(g, "textEntityTypeHashtag") {
        Some(TdCategory::TextEntityType)
    } else if str_eq(g, "textEntityTypeItalic") {
        Some(TdCategory::TextEntityType)
    } else if str_eq(g, "textEntityTypeMediaTimestamp") {
        Some(TdCategory::TextEntityType)
    } else if str_eq(g, "textEntityTypeMention") {
        Some(TdCategory::TextEntityType)
    } else if str_eq(g, "textEntityTypeMentionName") {
        Some(TdCategory::TextEntityType)
    } else if str_eq(g, "textEntityTypePhoneNumber") {
        Some(TdCategory::TextEntityType)
    } else if str_eq(g, "textEntityTypePre") {
        Some(TdCategory::TextEntityType)
    } else if str_eq(g, "textEntityTypePreCode") {
        Some(TdCategory::TextEntityType)
    } else if str_eq(g, "textEntityTypeStrikethrough") {
        Some(TdCategory::TextEntityType)
    } else if str_eq(g, "textEntityTypeTextUrl") {
        Some(TdCategory::TextEntityType)
    } else if str_eq(g, "textEntityTypeUnderline") {
        Some(TdCategory::TextEntityType)
    } else if str_eq(g, "textEntityTypeUrl") {
        Some(TdCategory::TextEntityType)
    } else if str_eq(g, "textParseModeHTML") {
        Some(TdCategory::TextParseMode)
    } else if str_eq(g, "textParseModeMarkdown") {
        Some(TdCategory::TextParseMode)
    } else if str_eq(g, "updateAuthorizationState") {
        Some(TdCategory::Update)
    } else if str_eq(g, "userTypeBot") {
        Some(TdCategory::UserType)
    } else if str_eq(g, "userTypeDeleted") {
        Some(TdCategory::UserType)
    } else if str_eq(g, "userTypeRegular") {
        Some(TdCategory::UserType)
    } else if str_eq(g, "userTypeUnknown") {
        Some(TdCategory::UserType)
    } else if str_eq(g, "chatInviteLinkInfo") {
        Some(TdCategory::ChatInviteLinkInfo)
    } else if str_eq(g, "chatStatisticsMessageSenderInfo") {
        Some(TdCategory::ChatStatisticsMessageSenderInfo)
    } else if str_eq(g, "countryInfo") {
        Some(TdCategory::CountryInfo)
    } else if str_eq(g, "error") {
        Some(TdCategory::Error)
    } else if str_eq(g, "message") {
        Some(TdCategory::Message)
    } else if str_eq(g, "messageCopyOptions") {
        Some(TdCategory::MessageCopyOptions)
    } else if str_eq(g, "messageInteractionInfo") {
        Some(TdCategory::MessageInteractionInfo)
    } else if str_eq(g, "messageLinkInfo") {
        Some(TdCategory::MessageLinkInfo)
    } else if str_eq(g, "messageSendOptions") {
        Some(TdCategory::MessageSendOptions)
    } else if str_eq(g, "messageThreadInfo") {
        Some(TdCategory::MessageThreadInfo)
    } else if str_eq(g, "phoneNumberInfo") {
        Some(TdCategory::PhoneNumberInfo)
    } else if str_eq(g, "sticker") {
        Some(TdCategory::Sticker)
    } else if str_eq(g, "stickerSetInfo") {
        Some(TdCategory::StickerSetInfo)
    } else if str_eq(g, "webPageInstantView") {
        Some(TdCategory::WebPageInstantView)
    } else {
        None
    }
}

/// Classifies wire text by its discriminator alone: reports which top-level
/// category it falls under without decoding the full payload. Unknown tags
/// are a hard error, never coerced to a default category.
pub fn detect_td_type(json: &str) -> (r: Result<TdCategory, DecodeError>)
    ensures
        match parse_doc(json@) {
            None => r matches Err(e) && e == DecodeError::Malformed,
            Some(t) => match tag_of(t) {
                None => r matches Err(e) && e == DecodeError::Malformed,
                Some(g) => match category_of(g) {
                    Some(c) => r == Ok::<TdCategory, DecodeError>(c),
                    None => r matches Err(e) && (e matches DecodeError::UnrecognizedVariant(u)
                        && u@ == g),
                },
            },
        },
{
    let tree = match parse_text(json) {
        Ok(tree) => tree,
        Err(e) => {
            return Err(e);
        },
    };
    let g = match get_tag(&tree) {
        Some(g) => g,
        None => {
            return Err(DecodeError::Malformed);
        },
    };
    match category_of_tag(g.as_str()) {
        Some(c) => Ok(c),
        None => Err(DecodeError::UnrecognizedVariant(g)),
    }
}

/// As `detect_td_type`, but also extracts the correlation token cheaply, so
/// a transport can route a response by token before paying for full decode.
pub fn detect_td_type_and_extra(json: &str) -> (r: Result<
    (TdCategory, Option<String>),
    DecodeError,
>)
    ensures
        match parse_doc(json@) {
            None => r matches Err(e) && e == DecodeError::Malformed,
            Some(t) => match tag_of(t) {
                None => r matches Err(e) && e == DecodeError::Malformed,
                Some(g) => match category_of(g) {
                    Some(c) => r matches Ok(p) && p.0 == c && opt_str_eqv(p.1, extra_of(t)),
                    None => r matches Err(e) && (e matches DecodeError::UnrecognizedVariant(u)
                        && u@ == g),
                },
            },
        },
{
    let tree = match parse_text(json) {
        Ok(tree) => tree,
        Err(e) => {
            return Err(e);
        },
    };
    let g = match get_tag(&tree) {
        Some(g) => g,
        None => {
            return Err(DecodeError::Malformed);
        },
    };
    let extra = match field_opt_string(&tree, "@extra") {
        Some(x) => x,
        None => None,
    };
    match category_of_tag(g.as_str()) {
        Some(c) => Ok((c, extra)),
        None => Err(DecodeError::UnrecognizedVariant(g)),
    }
}

/// Fully decodes wire text into whichever top-level category applies, using
/// the appropriate variant dispatcher internally.
#[verifier::rlimit(100)]
#[verifier::spinoff_prover]
pub fn decode_generic(json: &str) -> (r: Result<TdType, DecodeError>)
    ensures
        match parse_doc(json@) {
            None => r matches Err(e) && e == DecodeError::Malformed,
            Some(t) => match tag_of(t) {
                None => r matches Err(e) && e == DecodeError::Malformed,
                Some(g) => match category_of(g) {
                    Some(c) => match r {
                        Ok(v) => category_of_value(v) == c && cat_accepts(c, t) && cat_decodes(
                            c,
                            t,
                            v,
                        ),
                        Err(e) => !cat_accepts(c, t) && err_matches(e, cat_err(c, t)),
                    },
                    None => r matches Err(e) && (e matches DecodeError::UnrecognizedVariant(u)
                        && u@ == g),
                },
            },
        },
{
    let tree = match parse_text(json) {
        Ok(tree) => tree,
        Err(e) => {
            return Err(e);
        },
    };
    let g = match get_tag(&tree) {
        Some(g) => g,
        None => {
            return Err(DecodeError::Malformed);
        },
    };
    let c = match category_of_tag(g.as_str()) {
        Some(c) => c,
        None => {
            return Err(DecodeError::UnrecognizedVariant(g));
        },
    };
    match c {
        TdCategory::AuthorizationState => match AuthorizationState::decode_tree(&tree) {
            Ok(x) => Ok(TdType::AuthorizationState(x)),
            Err(e) => Err(e),
        },
        TdCategory::BackgroundType => match BackgroundType::decode_tree(&tree) {
            Ok(x) => Ok(TdType::BackgroundType(x)),
            Err(e) => Err(e),
        },
        TdCategory::ChatAction => match ChatAction::decode_tree(&tree) {
            Ok(x) => Ok(TdType::ChatAction(x)),
            Err(e) => Err(e),
        },
        TdCategory::ChatMemberStatus => match ChatMemberStatus::decode_tree(&tree) {
            Ok(x) => Ok(TdType::ChatMemberStatus(x)),
            Err(e) => Err(e),
        },
        TdCategory::ChatMembersFilter => match ChatMembersFilter::decode_tree(&tree) {
            Ok(x) => Ok(TdType::ChatMembersFilter(x)),
            Err(e) => Err(e),
        },
        TdCategory::ChatType => match ChatType::decode_tree(&tree) {
            Ok(x) => Ok(TdType::ChatType(x)),
            Err(e) => Err(e),
        },
        TdCategory::DeviceToken => match DeviceToken::decode_tree(&tree) {
            Ok(x) => Ok(TdType::DeviceToken(x)),
            Err(e) => Err(e),
        },
        TdCategory::InlineKeyboardButtonType => match InlineKeyboardButtonType::decode_tree(&tree) {
            Ok(x) => Ok(TdType::InlineKeyboardButtonType(x)),
            Err(e) => Err(e),
        },
        TdCategory::InputMessageContent => match InputMessageContent::decode_tree(&tree) {
            Ok(x) => Ok(TdType::InputMessageContent(x)),
            Err(e) => Err(e),
        },
        TdCategory::InputSticker => match InputSticker::decode_tree(&tree) {
            Ok(x) => Ok(TdType::InputSticker(x)),
            Err(e) => Err(e),
        },
        TdCategory::KeyboardButtonType => match KeyboardButtonType::decode_tree(&tree) {
            Ok(x) => Ok(TdType::KeyboardButtonType(x)),
            Err(e) => Err(e),
        },
        TdCategory::LanguagePackStringValue => match LanguagePackStringValue::decode_tree(&tree) {
            Ok(x) => Ok(TdType::LanguagePackStringValue(x)),
            Err(e) => Err(e),
        },
        TdCategory::LogStream => match LogStream::decode_tree(&tree) {
            Ok(x) => Ok(TdType::LogStream(x)),
            Err(e) => Err(e),
        },
        TdCategory::MaskPoint => match MaskPoint::decode_tree(&tree) {
            Ok(x) => Ok(TdType::MaskPoint(x)),
            Err(e) => Err(e),
        },
        TdCategory::NetworkStatisticsEntry => match NetworkStatisticsEntry::decode_tree(&tree) {
            Ok(x) => Ok(TdType::NetworkStatisticsEntry(x)),
            Err(e) => Err(e),
        },
        TdCategory::PageBlockHorizontalAlignment => match PageBlockHorizontalAlignment::decode_tree(&tree) {
            Ok(x) => Ok(TdType::PageBlockHorizontalAlignment(x)),
            Err(e) => Err(e),
        },
        TdCategory::PageBlockVerticalAlignment => match PageBlockVerticalAlignment::decode_tree(&tree) {
            Ok(x) => Ok(TdType::PageBlockVerticalAlignment(x)),
            Err(e) => Err(e),
        },
        TdCategory::SuggestedAction => match SuggestedAction::decode_tree(&tree) {
            Ok(x) => Ok(TdType::SuggestedAction(x)),
            Err(e) => Err(e),
        },
        TdCategory::TextEntityType => match TextEntityType::decode_tree(&tree) {
            Ok(x) => Ok(TdType::TextEntityType(x)),
            Err(e) => Err(e),
        },
        TdCategory::TextParseMode => match TextParseMode::decode_tree(&tree) {
            Ok(x) => Ok(TdType::TextParseMode(x)),
            Err(e) => Err(e),
        },
        TdCategory::Update => match Update::decode_tree(&tree) {
            Ok(x) => Ok(TdType::Update(x)),
            Err(e) => Err(e),
        },
        TdCategory::UserType => match UserType::decode_tree(&tree) {
            Ok(x) => Ok(TdType::UserType(x)),
            Err(e) => Err(e),
        },
        TdCategory::ChatInviteLinkInfo => match ChatInviteLinkInfo::decode_tree(&tree) {
            Ok(x) => Ok(TdType::ChatInviteLinkInfo(x)),
            Err(e) => Err(e),
        },
        TdCategory::ChatStatisticsMessageSenderInfo => match ChatStatisticsMessageSenderInfo::decode_tree(&tree) {
            Ok(x) => Ok(TdType::ChatStatisticsMessageSenderInfo(x)),
            Err(e) => Err(e),
        },
        TdCategory::CountryInfo => match CountryInfo::decode_tree(&tree) {
            Ok(x) => Ok(TdType::CountryInfo(x)),
            Err(e) => Err(e),
        },
        TdCategory::Error => match Error::decode_tree(&tree) {
            Ok(x) => Ok(TdType::Error(x)),
            Err(e) => Err(e),
        },
        TdCategory::Message => match Message::decode_tree(&tree) {
            Ok(x) => Ok(TdType::Message(x)),
            Err(e) => Err(e),
        },
        TdCategory::MessageCopyOptions => match MessageCopyOptions::decode_tree(&tree) {
            Ok(x) => Ok(TdType::MessageCopyOptions(x)),
            Err(e) => Err(e),
        },
        TdCategory::MessageInteractionInfo => match MessageInteractionInfo::decode_tree(&tree) {
            Ok(x) => Ok(TdType::MessageInteractionInfo(x)),
            Err(e) => Err(e),
        },
        TdCategory::MessageLinkInfo => match MessageLinkInfo::decode_tree(&tree) {
            Ok(x) => Ok(TdType::MessageLinkInfo(x)),
            Err(e) => Err(e),
        },
        TdCategory::MessageSendOptions => match MessageSendOptions::decode_tree(&tree) {
            Ok(x) => Ok(TdType::MessageSendOptions(x)),
            Err(e) => Err(e),
        },
        TdCategory::MessageThreadInfo => match MessageThreadInfo::decode_tree(&tree) {
            Ok(x) => Ok(TdType::MessageThreadInfo(x)),
            Err(e) => Err(e),
        },
        TdCategory::PhoneNumberInfo => match PhoneNumberInfo::decode_tree(&tree) {
            Ok(x) => Ok(TdType::PhoneNumberInfo(x)),
            Err(e) => Err(e),
        },
        TdCategory::Sticker => match Sticker::decode_tree(&tree) {
            Ok(x) => Ok(TdType::Sticker(x)),
            Err(e) => Err(e),
        },
        TdCategory::StickerSetInfo => match StickerSetInfo::decode_tree(&tree) {
            Ok(x) => Ok(TdType::StickerSetInfo(x)),
            Err(e) => Err(e),
        },
        TdCategory::WebPageInstantView => match WebPageInstantView::decode_tree(&tree) {
            Ok(x) => Ok(TdType::WebPageInstantView(x)),
            Err(e) => Err(e),
        },
    }
}

} // verus!
