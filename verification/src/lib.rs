pub mod authorization_state;
pub mod background_type;
pub mod chat_action;
pub mod chat_invite_link_info;
pub mod chat_member_status;
pub mod chat_members_filter;
pub mod chat_statistics_message_sender_info;
pub mod chat_type;
pub mod country_info;
pub mod detector;
pub mod device_token;
pub mod error;
pub mod errors;
pub mod inline_keyboard_button_type;
pub mod input_message_content;
pub mod input_sticker;
pub mod json;
pub mod laws;
pub mod keyboard_button_type;
pub mod language_pack_string_value;
pub mod log_stream;
pub mod mask_point;
pub mod message;
pub mod message_copy_options;
pub mod message_interaction_info;
pub mod message_link_info;
pub mod message_send_options;
pub mod message_thread_info;
pub mod network_statistics_entry;
pub mod object;
pub mod page_block_horizontal_alignment;
pub mod page_block_vertical_alignment;
pub mod parse;
pub mod phone_number_info;
pub mod roundtrip;
pub mod sticker;
pub mod sticker_set_info;
pub mod suggested_action;
pub mod text_entity_type;
pub mod text_parse_mode;
pub mod trusted;
pub mod update;
pub mod user_type;
pub mod web_page_instant_view;

pub use crate::authorization_state::TDAuthorizationState;
pub use crate::authorization_state::AuthorizationState;
pub use crate::authorization_state::AuthorizationStateClosed;
pub use crate::authorization_state::RTDAuthorizationStateClosedBuilder;
pub use crate::authorization_state::AuthorizationStateClosing;
pub use crate::authorization_state::RTDAuthorizationStateClosingBuilder;
pub use crate::authorization_state::AuthorizationStateLoggingOut;
pub use crate::authorization_state::RTDAuthorizationStateLoggingOutBuilder;
pub use crate::authorization_state::AuthorizationStateReady;
pub use crate::authorization_state::RTDAuthorizationStateReadyBuilder;
pub use crate::authorization_state::AuthorizationStateWaitCode;
pub use crate::authorization_state::RTDAuthorizationStateWaitCodeBuilder;
pub use crate::authorization_state::AuthorizationStateWaitEncryptionKey;
pub use crate::authorization_state::RTDAuthorizationStateWaitEncryptionKeyBuilder;
pub use crate::authorization_state::AuthorizationStateWaitOtherDeviceConfirmation;
pub use crate::authorization_state::RTDAuthorizationStateWaitOtherDeviceConfirmationBuilder;
pub use crate::authorization_state::AuthorizationStateWaitPassword;
pub use crate::authorization_state::RTDAuthorizationStateWaitPasswordBuilder;
pub use crate::authorization_state::AuthorizationStateWaitPhoneNumber;
pub use crate::authorization_state::RTDAuthorizationStateWaitPhoneNumberBuilder;
pub use crate::authorization_state::AuthorizationStateWaitRegistration;
pub use crate::authorization_state::RTDAuthorizationStateWaitRegistrationBuilder;
pub use crate::authorization_state::AuthorizationStateWaitTdlibParameters;
pub use crate::authorization_state::RTDAuthorizationStateWaitTdlibParametersBuilder;
pub use crate::background_type::TDBackgroundType;
pub use crate::background_type::BackgroundType;
pub use crate::background_type::BackgroundTypeFill;
pub use crate::background_type::RTDBackgroundTypeFillBuilder;
pub use crate::background_type::BackgroundTypePattern;
pub use crate::background_type::RTDBackgroundTypePatternBuilder;
pub use crate::background_type::BackgroundTypeWallpaper;
pub use crate::background_type::RTDBackgroundTypeWallpaperBuilder;
pub use crate::chat_action::TDChatAction;
pub use crate::chat_action::ChatAction;
pub use crate::chat_action::ChatActionCancel;
pub use crate::chat_action::RTDChatActionCancelBuilder;
pub use crate::chat_action::ChatActionChoosingContact;
pub use crate::chat_action::RTDChatActionChoosingContactBuilder;
pub use crate::chat_action::ChatActionChoosingLocation;
pub use crate::chat_action::RTDChatActionChoosingLocationBuilder;
pub use crate::chat_action::ChatActionChoosingSticker;
pub use crate::chat_action::RTDChatActionChoosingStickerBuilder;
pub use crate::chat_action::ChatActionRecordingVideo;
pub use crate::chat_action::RTDChatActionRecordingVideoBuilder;
pub use crate::chat_action::ChatActionRecordingVideoNote;
pub use crate::chat_action::RTDChatActionRecordingVideoNoteBuilder;
pub use crate::chat_action::ChatActionRecordingVoiceNote;
pub use crate::chat_action::RTDChatActionRecordingVoiceNoteBuilder;
pub use crate::chat_action::ChatActionStartPlayingGame;
pub use crate::chat_action::RTDChatActionStartPlayingGameBuilder;
pub use crate::chat_action::ChatActionTyping;
pub use crate::chat_action::RTDChatActionTypingBuilder;
pub use crate::chat_action::ChatActionUploadingDocument;
pub use crate::chat_action::RTDChatActionUploadingDocumentBuilder;
pub use crate::chat_action::ChatActionUploadingPhoto;
pub use crate::chat_action::RTDChatActionUploadingPhotoBuilder;
pub use crate::chat_action::ChatActionUploadingVideo;
pub use crate::chat_action::RTDChatActionUploadingVideoBuilder;
pub use crate::chat_action::ChatActionUploadingVideoNote;
pub use crate::chat_action::RTDChatActionUploadingVideoNoteBuilder;
pub use crate::chat_action::ChatActionUploadingVoiceNote;
pub use crate::chat_action::RTDChatActionUploadingVoiceNoteBuilder;
pub use crate::chat_action::ChatActionWatchingAnimations;
pub use crate::chat_action::RTDChatActionWatchingAnimationsBuilder;
pub use crate::chat_invite_link_info::ChatInviteLinkInfo;
pub use crate::chat_invite_link_info::RTDChatInviteLinkInfoBuilder;
pub use crate::chat_member_status::TDChatMemberStatus;
pub use crate::chat_member_status::ChatMemberStatus;
pub use crate::chat_member_status::ChatMemberStatusAdministrator;
pub use crate::chat_member_status::RTDChatMemberStatusAdministratorBuilder;
pub use crate::chat_member_status::ChatMemberStatusBanned;
pub use crate::chat_member_status::RTDChatMemberStatusBannedBuilder;
pub use crate::chat_member_status::ChatMemberStatusCreator;
pub use crate::chat_member_status::RTDChatMemberStatusCreatorBuilder;
pub use crate::chat_member_status::ChatMemberStatusLeft;
pub use crate::chat_member_status::RTDChatMemberStatusLeftBuilder;
pub use crate::chat_member_status::ChatMemberStatusMember;
pub use crate::chat_member_status::RTDChatMemberStatusMemberBuilder;
pub use crate::chat_member_status::ChatMemberStatusRestricted;
pub use crate::chat_member_status::RTDChatMemberStatusRestrictedBuilder;
pub use crate::chat_members_filter::TDChatMembersFilter;
pub use crate::chat_members_filter::ChatMembersFilter;
pub use crate::chat_members_filter::ChatMembersFilterAdministrators;
pub use crate::chat_members_filter::RTDChatMembersFilterAdministratorsBuilder;
pub use crate::chat_members_filter::ChatMembersFilterBanned;
pub use crate::chat_members_filter::RTDChatMembersFilterBannedBuilder;
pub use crate::chat_members_filter::ChatMembersFilterBots;
pub use crate::chat_members_filter::RTDChatMembersFilterBotsBuilder;
pub use crate::chat_members_filter::ChatMembersFilterMembers;
pub use crate::chat_members_filter::RTDChatMembersFilterMembersBuilder;
pub use crate::chat_members_filter::ChatMembersFilterRestricted;
pub use crate::chat_members_filter::RTDChatMembersFilterRestrictedBuilder;
pub use crate::chat_statistics_message_sender_info::ChatStatisticsMessageSenderInfo;
pub use crate::chat_statistics_message_sender_info::RTDChatStatisticsMessageSenderInfoBuilder;
pub use crate::chat_type::TDChatType;
pub use crate::chat_type::ChatType;
pub use crate::chat_type::ChatTypeBasicGroup;
pub use crate::chat_type::RTDChatTypeBasicGroupBuilder;
pub use crate::chat_type::ChatTypePrivate;
pub use crate::chat_type::RTDChatTypePrivateBuilder;
pub use crate::chat_type::ChatTypeSecret;
pub use crate::chat_type::RTDChatTypeSecretBuilder;
pub use crate::chat_type::ChatTypeSupergroup;
pub use crate::chat_type::RTDChatTypeSupergroupBuilder;
pub use crate::country_info::CountryInfo;
pub use crate::country_info::RTDCountryInfoBuilder;
pub use crate::device_token::TDDeviceToken;
pub use crate::device_token::DeviceToken;
pub use crate::device_token::DeviceTokenApplePush;
pub use crate::device_token::RTDDeviceTokenApplePushBuilder;
pub use crate::device_token::DeviceTokenApplePushVoIP;
pub use crate::device_token::RTDDeviceTokenApplePushVoIPBuilder;
pub use crate::device_token::DeviceTokenBlackBerryPush;
pub use crate::device_token::RTDDeviceTokenBlackBerryPushBuilder;
pub use crate::device_token::DeviceTokenFirebaseCloudMessaging;
pub use crate::device_token::RTDDeviceTokenFirebaseCloudMessagingBuilder;
pub use crate::device_token::DeviceTokenMicrosoftPush;
pub use crate::device_token::RTDDeviceTokenMicrosoftPushBuilder;
pub use crate::device_token::DeviceTokenMicrosoftPushVoIP;
pub use crate::device_token::RTDDeviceTokenMicrosoftPushVoIPBuilder;
pub use crate::device_token::DeviceTokenSimplePush;
pub use crate::device_token::RTDDeviceTokenSimplePushBuilder;
pub use crate::device_token::DeviceTokenTizenPush;
pub use crate::device_token::RTDDeviceTokenTizenPushBuilder;
pub use crate::device_token::DeviceTokenUbuntuPush;
pub use crate::device_token::RTDDeviceTokenUbuntuPushBuilder;
pub use crate::device_token::DeviceTokenWebPush;
pub use crate::device_token::RTDDeviceTokenWebPushBuilder;
pub use crate::device_token::DeviceTokenWindowsPush;
pub use crate::device_token::RTDDeviceTokenWindowsPushBuilder;
pub use crate::error::Error;
pub use crate::error::RTDErrorBuilder;
pub use crate::inline_keyboard_button_type::TDInlineKeyboardButtonType;
pub use crate::inline_keyboard_button_type::InlineKeyboardButtonType;
pub use crate::inline_keyboard_button_type::InlineKeyboardButtonTypeBuy;
pub use crate::inline_keyboard_button_type::RTDInlineKeyboardButtonTypeBuyBuilder;
pub use crate::inline_keyboard_button_type::InlineKeyboardButtonTypeCallback;
pub use crate::inline_keyboard_button_type::RTDInlineKeyboardButtonTypeCallbackBuilder;
pub use crate::inline_keyboard_button_type::InlineKeyboardButtonTypeCallbackGame;
pub use crate::inline_keyboard_button_type::RTDInlineKeyboardButtonTypeCallbackGameBuilder;
pub use crate::inline_keyboard_button_type::InlineKeyboardButtonTypeCallbackWithPassword;
pub use crate::inline_keyboard_button_type::RTDInlineKeyboardButtonTypeCallbackWithPasswordBuilder;
pub use crate::inline_keyboard_button_type::InlineKeyboardButtonTypeLoginUrl;
pub use crate::inline_keyboard_button_type::RTDInlineKeyboardButtonTypeLoginUrlBuilder;
pub use crate::inline_keyboard_button_type::InlineKeyboardButtonTypeSwitchInline;
pub use crate::inline_keyboard_button_type::RTDInlineKeyboardButtonTypeSwitchInlineBuilder;
pub use crate::inline_keyboard_button_type::InlineKeyboardButtonTypeUrl;
pub use crate::inline_keyboard_button_type::RTDInlineKeyboardButtonTypeUrlBuilder;
pub use crate::input_message_content::TDInputMessageContent;
pub use crate::input_message_content::InputMessageContent;
pub use crate::input_message_content::InputMessageAnimation;
pub use crate::input_message_content::RTDInputMessageAnimationBuilder;
pub use crate::input_message_content::InputMessageAudio;
pub use crate::input_message_content::RTDInputMessageAudioBuilder;
pub use crate::input_message_content::InputMessageContact;
pub use crate::input_message_content::RTDInputMessageContactBuilder;
pub use crate::input_message_content::InputMessageDice;
pub use crate::input_message_content::RTDInputMessageDiceBuilder;
pub use crate::input_message_content::InputMessageDocument;
pub use crate::input_message_content::RTDInputMessageDocumentBuilder;
pub use crate::input_message_content::InputMessageForwarded;
pub use crate::input_message_content::RTDInputMessageForwardedBuilder;
pub use crate::input_message_content::InputMessageGame;
pub use crate::input_message_content::RTDInputMessageGameBuilder;
pub use crate::input_message_content::InputMessageInvoice;
pub use crate::input_message_content::RTDInputMessageInvoiceBuilder;
pub use crate::input_message_content::InputMessageLocation;
pub use crate::input_message_content::RTDInputMessageLocationBuilder;
pub use crate::input_message_content::InputMessagePhoto;
pub use crate::input_message_content::RTDInputMessagePhotoBuilder;
pub use crate::input_message_content::InputMessagePoll;
pub use crate::input_message_content::RTDInputMessagePollBuilder;
pub use crate::input_message_content::InputMessageSticker;
pub use crate::input_message_content::RTDInputMessageStickerBuilder;
pub use crate::input_message_content::InputMessageText;
pub use crate::input_message_content::RTDInputMessageTextBuilder;
pub use crate::input_message_content::InputMessageVenue;
pub use crate::input_message_content::RTDInputMessageVenueBuilder;
pub use crate::input_message_content::InputMessageVideo;
pub use crate::input_message_content::RTDInputMessageVideoBuilder;
pub use crate::input_message_content::InputMessageVideoNote;
pub use crate::input_message_content::RTDInputMessageVideoNoteBuilder;
pub use crate::input_message_content::InputMessageVoiceNote;
pub use crate::input_message_content::RTDInputMessageVoiceNoteBuilder;
pub use crate::input_sticker::TDInputSticker;
pub use crate::input_sticker::InputSticker;
pub use crate::input_sticker::InputStickerAnimated;
pub use crate::input_sticker::RTDInputStickerAnimatedBuilder;
pub use crate::input_sticker::InputStickerStatic;
pub use crate::input_sticker::RTDInputStickerStaticBuilder;
pub use crate::keyboard_button_type::TDKeyboardButtonType;
pub use crate::keyboard_button_type::KeyboardButtonType;
pub use crate::keyboard_button_type::KeyboardButtonTypeRequestLocation;
pub use crate::keyboard_button_type::RTDKeyboardButtonTypeRequestLocationBuilder;
pub use crate::keyboard_button_type::KeyboardButtonTypeRequestPhoneNumber;
pub use crate::keyboard_button_type::RTDKeyboardButtonTypeRequestPhoneNumberBuilder;
pub use crate::keyboard_button_type::KeyboardButtonTypeRequestPoll;
pub use crate::keyboard_button_type::RTDKeyboardButtonTypeRequestPollBuilder;
pub use crate::keyboard_button_type::KeyboardButtonTypeText;
pub use crate::keyboard_button_type::RTDKeyboardButtonTypeTextBuilder;
pub use crate::language_pack_string_value::TDLanguagePackStringValue;
pub use crate::language_pack_string_value::LanguagePackStringValue;
pub use crate::language_pack_string_value::LanguagePackStringValueDeleted;
pub use crate::language_pack_string_value::RTDLanguagePackStringValueDeletedBuilder;
pub use crate::language_pack_string_value::LanguagePackStringValueOrdinary;
pub use crate::language_pack_string_value::RTDLanguagePackStringValueOrdinaryBuilder;
pub use crate::language_pack_string_value::LanguagePackStringValuePluralized;
pub use crate::language_pack_string_value::RTDLanguagePackStringValuePluralizedBuilder;
pub use crate::log_stream::TDLogStream;
pub use crate::log_stream::LogStream;
pub use crate::log_stream::LogStreamDefault;
pub use crate::log_stream::RTDLogStreamDefaultBuilder;
pub use crate::log_stream::LogStreamEmpty;
pub use crate::log_stream::RTDLogStreamEmptyBuilder;
pub use crate::log_stream::LogStreamFile;
pub use crate::log_stream::RTDLogStreamFileBuilder;
pub use crate::mask_point::TDMaskPoint;
pub use crate::mask_point::MaskPoint;
pub use crate::mask_point::MaskPointChin;
pub use crate::mask_point::RTDMaskPointChinBuilder;
pub use crate::mask_point::MaskPointEyes;
pub use crate::mask_point::RTDMaskPointEyesBuilder;
pub use crate::mask_point::MaskPointForehead;
pub use crate::mask_point::RTDMaskPointForeheadBuilder;
pub use crate::mask_point::MaskPointMouth;
pub use crate::mask_point::RTDMaskPointMouthBuilder;
pub use crate::message::Message;
pub use crate::message::RTDMessageBuilder;
pub use crate::message_copy_options::MessageCopyOptions;
pub use crate::message_copy_options::RTDMessageCopyOptionsBuilder;
pub use crate::message_interaction_info::MessageInteractionInfo;
pub use crate::message_interaction_info::RTDMessageInteractionInfoBuilder;
pub use crate::message_link_info::MessageLinkInfo;
pub use crate::message_link_info::RTDMessageLinkInfoBuilder;
pub use crate::message_send_options::MessageSendOptions;
pub use crate::message_send_options::RTDMessageSendOptionsBuilder;
pub use crate::message_thread_info::MessageThreadInfo;
pub use crate::message_thread_info::RTDMessageThreadInfoBuilder;
pub use crate::network_statistics_entry::TDNetworkStatisticsEntry;
pub use crate::network_statistics_entry::NetworkStatisticsEntry;
pub use crate::network_statistics_entry::NetworkStatisticsEntryCall;
pub use crate::network_statistics_entry::RTDNetworkStatisticsEntryCallBuilder;
pub use crate::network_statistics_entry::NetworkStatisticsEntryFile;
pub use crate::network_statistics_entry::RTDNetworkStatisticsEntryFileBuilder;
pub use crate::page_block_horizontal_alignment::TDPageBlockHorizontalAlignment;
pub use crate::page_block_horizontal_alignment::PageBlockHorizontalAlignment;
pub use crate::page_block_horizontal_alignment::PageBlockHorizontalAlignmentCenter;
pub use crate::page_block_horizontal_alignment::RTDPageBlockHorizontalAlignmentCenterBuilder;
pub use crate::page_block_horizontal_alignment::PageBlockHorizontalAlignmentLeft;
pub use crate::page_block_horizontal_alignment::RTDPageBlockHorizontalAlignmentLeftBuilder;
pub use crate::page_block_horizontal_alignment::PageBlockHorizontalAlignmentRight;
pub use crate::page_block_horizontal_alignment::RTDPageBlockHorizontalAlignmentRightBuilder;
pub use crate::page_block_vertical_alignment::TDPageBlockVerticalAlignment;
pub use crate::page_block_vertical_alignment::PageBlockVerticalAlignment;
pub use crate::page_block_vertical_alignment::PageBlockVerticalAlignmentBottom;
pub use crate::page_block_vertical_alignment::RTDPageBlockVerticalAlignmentBottomBuilder;
pub use crate::page_block_vertical_alignment::PageBlockVerticalAlignmentMiddle;
pub use crate::page_block_vertical_alignment::RTDPageBlockVerticalAlignmentMiddleBuilder;
pub use crate::page_block_vertical_alignment::PageBlockVerticalAlignmentTop;
pub use crate::page_block_vertical_alignment::RTDPageBlockVerticalAlignmentTopBuilder;
pub use crate::phone_number_info::PhoneNumberInfo;
pub use crate::phone_number_info::RTDPhoneNumberInfoBuilder;
pub use crate::sticker::Sticker;
pub use crate::sticker::RTDStickerBuilder;
pub use crate::sticker_set_info::StickerSetInfo;
pub use crate::sticker_set_info::RTDStickerSetInfoBuilder;
pub use crate::suggested_action::TDSuggestedAction;
pub use crate::suggested_action::SuggestedAction;
pub use crate::suggested_action::SuggestedActionCheckPassword;
pub use crate::suggested_action::RTDSuggestedActionCheckPasswordBuilder;
pub use crate::suggested_action::SuggestedActionCheckPhoneNumber;
pub use crate::suggested_action::RTDSuggestedActionCheckPhoneNumberBuilder;
pub use crate::suggested_action::SuggestedActionConvertToBroadcastGroup;
pub use crate::suggested_action::RTDSuggestedActionConvertToBroadcastGroupBuilder;
pub use crate::suggested_action::SuggestedActionEnableArchiveAndMuteNewChats;
pub use crate::suggested_action::RTDSuggestedActionEnableArchiveAndMuteNewChatsBuilder;
pub use crate::suggested_action::SuggestedActionSeeTicksHint;
pub use crate::suggested_action::RTDSuggestedActionSeeTicksHintBuilder;
pub use crate::text_entity_type::TDTextEntityType;
pub use crate::text_entity_type::TextEntityType;
pub use crate::text_entity_type::TextEntityTypeBankCardNumber;
pub use crate::text_entity_type::RTDTextEntityTypeBankCardNumberBuilder;
pub use crate::text_entity_type::TextEntityTypeBold;
pub use crate::text_entity_type::RTDTextEntityTypeBoldBuilder;
pub use crate::text_entity_type::TextEntityTypeBotCommand;
pub use crate::text_entity_type::RTDTextEntityTypeBotCommandBuilder;
pub use crate::text_entity_type::TextEntityTypeCashtag;
pub use crate::text_entity_type::RTDTextEntityTypeCashtagBuilder;
pub use crate::text_entity_type::TextEntityTypeCode;
pub use crate::text_entity_type::RTDTextEntityTypeCodeBuilder;
pub use crate::text_entity_type::TextEntityTypeEmailAddress;
pub use crate::text_entity_type::RTDTextEntityTypeEmailAddressBuilder;
pub use crate::text_entity_type::TextEntityTypeHashtag;
pub use crate::text_entity_type::RTDTextEntityTypeHashtagBuilder;
pub use crate::text_entity_type::TextEntityTypeItalic;
pub use crate::text_entity_type::RTDTextEntityTypeItalicBuilder;
pub use crate::text_entity_type::TextEntityTypeMediaTimestamp;
pub use crate::text_entity_type::RTDTextEntityTypeMediaTimestampBuilder;
pub use crate::text_entity_type::TextEntityTypeMention;
pub use crate::text_entity_type::RTDTextEntityTypeMentionBuilder;
pub use crate::text_entity_type::TextEntityTypeMentionName;
pub use crate::text_entity_type::RTDTextEntityTypeMentionNameBuilder;
pub use crate::text_entity_type::TextEntityTypePhoneNumber;
pub use crate::text_entity_type::RTDTextEntityTypePhoneNumberBuilder;
pub use crate::text_entity_type::TextEntityTypePre;
pub use crate::text_entity_type::RTDTextEntityTypePreBuilder;
pub use crate::text_entity_type::TextEntityTypePreCode;
pub use crate::text_entity_type::RTDTextEntityTypePreCodeBuilder;
pub use crate::text_entity_type::TextEntityTypeStrikethrough;
pub use crate::text_entity_type::RTDTextEntityTypeStrikethroughBuilder;
pub use crate::text_entity_type::TextEntityTypeTextUrl;
pub use crate::text_entity_type::RTDTextEntityTypeTextUrlBuilder;
pub use crate::text_entity_type::TextEntityTypeUnderline;
pub use crate::text_entity_type::RTDTextEntityTypeUnderlineBuilder;
pub use crate::text_entity_type::TextEntityTypeUrl;
pub use crate::text_entity_type::RTDTextEntityTypeUrlBuilder;
pub use crate::text_parse_mode::TDTextParseMode;
pub use crate::text_parse_mode::TextParseMode;
pub use crate::text_parse_mode::TextParseModeHTML;
pub use crate::text_parse_mode::RTDTextParseModeHTMLBuilder;
pub use crate::text_parse_mode::TextParseModeMarkdown;
pub use crate::text_parse_mode::RTDTextParseModeMarkdownBuilder;
pub use crate::update::TDUpdate;
pub use crate::update::Update;
pub use crate::update::UpdateAuthorizationState;
pub use crate::update::RTDUpdateAuthorizationStateBuilder;
pub use crate::user_type::TDUserType;
pub use crate::user_type::UserType;
pub use crate::user_type::UserTypeBot;
pub use crate::user_type::RTDUserTypeBotBuilder;
pub use crate::user_type::UserTypeDeleted;
pub use crate::user_type::RTDUserTypeDeletedBuilder;
pub use crate::user_type::UserTypeRegular;
pub use crate::user_type::RTDUserTypeRegularBuilder;
pub use crate::user_type::UserTypeUnknown;
pub use crate::user_type::RTDUserTypeUnknownBuilder;
pub use crate::web_page_instant_view::WebPageInstantView;
pub use crate::web_page_instant_view::RTDWebPageInstantViewBuilder;
pub use crate::errors::DecodeError;
pub use crate::errors::EncodeError;
pub use crate::object::RObject;
pub use crate::object::RFunction;
pub use crate::object::Wire;
pub use crate::object::from_json;
pub use crate::object::encode;
pub use crate::object::new_token;
pub use crate::object::lemma_wire_round_trip;
pub use crate::detector::TdCategory;
pub use crate::detector::TdType;
pub use crate::detector::detect_td_type;
pub use crate::detector::detect_td_type_and_extra;
pub use crate::detector::decode_generic;
