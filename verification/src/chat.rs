//! The chat-message notification event: the one event category this library
//! decodes in full, plus the opaque catch-all for every other category.

use vstd::prelude::*;

use crate::ids::{MessageId, MessageIdV};
use crate::json::{views_of, Json, JsonV};

verus! {

/// A chat badge reference.
#[derive(Debug)]
pub struct Badge {
    /// The badge set, such as a subscriber tier.
    pub set_id: String,
    /// The version of the badge within its set.
    pub id: String,
    /// Extra badge metadata, such as a subscription length.
    pub info: String,
}

/// Model of [`Badge`].
pub struct BadgeV {
    pub set_id: Seq<char>,
    pub id: Seq<char>,
    pub info: Seq<char>,
}

impl View for Badge {
    type V = BadgeV;

    open spec fn view(&self) -> BadgeV {
        BadgeV { set_id: self.set_id@, id: self.id@, info: self.info@ }
    }
}

/// Metadata of a cheering fragment.
#[derive(Debug)]
pub struct Cheermote {
    /// The cheermote prefix; prefix and bits together name the cheermote.
    pub prefix: String,
    /// The number of bits cheered.
    pub bits: u32,
    /// The tier level of the cheermote.
    pub tier: u32,
}

/// Model of [`Cheermote`].
pub struct CheermoteV {
    pub prefix: Seq<char>,
    pub bits: u32,
    pub tier: u32,
}

impl View for Cheermote {
    type V = CheermoteV;

    open spec fn view(&self) -> CheermoteV {
        CheermoteV { prefix: self.prefix@, bits: self.bits, tier: self.tier }
    }
}

/// Metadata of an emote fragment.
#[derive(Debug)]
pub struct Emote {
    /// The emote's own identifier.
    pub id: String,
    /// The emote set the emote belongs to.
    pub set_id: String,
    /// The broadcaster who owns the emote.
    pub owner_id: String,
    /// The formats the emote is available in, animated or static.
    pub format: Vec<String>,
}

/// Model of [`Emote`].
pub struct EmoteV {
    pub id: Seq<char>,
    pub set_id: Seq<char>,
    pub owner_id: Seq<char>,
    pub format: Seq<Seq<char>>,
}

impl View for Emote {
    type V = EmoteV;

    open spec fn view(&self) -> EmoteV {
        EmoteV {
            id: self.id@,
            set_id: self.set_id@,
            owner_id: self.owner_id@,
            format: views_of(self.format@),
        }
    }
}

/// Metadata of a mention fragment.
#[derive(Debug)]
pub struct Mention {
    /// The user ID of the mentioned user.
    pub id: String,
    /// The user name of the mentioned user.
    pub name: String,
    /// The user login of the mentioned user.
    pub login: String,
}

/// Model of [`Mention`].
pub struct MentionV {
    pub id: Seq<char>,
    pub name: Seq<char>,
    pub login: Seq<char>,
}

impl View for Mention {
    type V = MentionV;

    open spec fn view(&self) -> MentionV {
        MentionV { id: self.id@, name: self.name@, login: self.login@ }
    }
}

/// One fragment of a structured chat message.
#[derive(Debug)]
pub struct Fragment {
    /// The fragment kind: text, cheermote, emote or mention.
    pub ftype: String,
    /// The fragment's text.
    pub text: String,
    /// Cheermote metadata, on cheering fragments.
    pub cheermote: Option<Cheermote>,
    /// Emote metadata, on emote fragments.
    pub emote: Option<Emote>,
    /// Mention metadata, on mention fragments.
    pub mention: Option<Mention>,
}

/// Model of [`Fragment`].
pub struct FragmentV {
    pub ftype: Seq<char>,
    pub text: Seq<char>,
    pub cheermote: Option<CheermoteV>,
    pub emote: Option<EmoteV>,
    pub mention: Option<MentionV>,
}

impl View for Fragment {
    type V = FragmentV;

    open spec fn view(&self) -> FragmentV {
        FragmentV {
            ftype: self.ftype@,
            text: self.text@,
            cheermote: match self.cheermote {
                Some(c) => Some(c@),
                None => None,
            },
            emote: match self.emote {
                Some(e) => Some(e@),
                None => None,
            },
            mention: match self.mention {
                Some(m) => Some(m@),
                None => None,
            },
        }
    }
}

/// The structured chat message: its plain text and its ordered fragments.
#[derive(Debug)]
pub struct ChatMessage {
    pub text: String,
    pub fragments: Vec<Fragment>,
}

/// Model of [`ChatMessage`].
pub struct ChatMessageV {
    pub text: Seq<char>,
    pub fragments: Seq<FragmentV>,
}

impl View for ChatMessage {
    type V = ChatMessageV;

    open spec fn view(&self) -> ChatMessageV {
        ChatMessageV { text: self.text@, fragments: views_of(self.fragments@) }
    }
}

/// Metadata carried when a chat message replies to another.
#[derive(Debug)]
pub struct Reply {
    pub parent_message_id: String,
    pub parent_message_body: String,
    pub parent_user_id: String,
    pub parent_user_name: String,
    pub parent_user_login: String,
    pub thread_message_id: String,
    pub thread_user_id: String,
    pub thread_user_name: String,
    pub thread_user_login: String,
}

/// Model of [`Reply`].
pub struct ReplyV {
    pub parent_message_id: Seq<char>,
    pub parent_message_body: Seq<char>,
    pub parent_user_id: Seq<char>,
    pub parent_user_name: Seq<char>,
    pub parent_user_login: Seq<char>,
    pub thread_message_id: Seq<char>,
    pub thread_user_id: Seq<char>,
    pub thread_user_name: Seq<char>,
    pub thread_user_login: Seq<char>,
}

impl View for Reply {
    type V = ReplyV;

    open spec fn view(&self) -> ReplyV {
        ReplyV {
            parent_message_id: self.parent_message_id@,
            parent_message_body: self.parent_message_body@,
            parent_user_id: self.parent_user_id@,
            parent_user_name: self.parent_user_name@,
            parent_user_login: self.parent_user_login@,
            thread_message_id: self.thread_message_id@,
            thread_user_id: self.thread_user_id@,
            thread_user_name: self.thread_user_name@,
            thread_user_login: self.thread_user_login@,
        }
    }
}

/// The kind of a chat message.
#[derive(Clone, Copy, PartialEq, Eq, Structural, Debug, Hash)]
pub enum MessageType {
    Text,
    ChannelPointsHighlighted,
    ChannelPointsSubOnly,
    UserIntro,
    PowerUpsMessageEffect,
    PowerUpsGigantifiedEmote,
}

/// The wire (snake-case) text of a message kind.
pub open spec fn message_type_text(t: MessageType) -> Seq<char> {
    match t {
        MessageType::Text => "text"@,
        MessageType::ChannelPointsHighlighted => "channel_points_highlighted"@,
        MessageType::ChannelPointsSubOnly => "channel_points_sub_only"@,
        MessageType::UserIntro => "user_intro"@,
        MessageType::PowerUpsMessageEffect => "power_ups_message_effect"@,
        MessageType::PowerUpsGigantifiedEmote => "power_ups_gigantified_emote"@,
    }
}

/// The message kind a snake-case text names.
pub open spec fn message_type_from_snake(s: Seq<char>) -> Option<MessageType> {
    if s == "text"@ {
        Some(MessageType::Text)
    } else if s == "user_intro"@ {
        Some(MessageType::UserIntro)
    } else if s == "power_ups_message_effect"@ {
        Some(MessageType::PowerUpsMessageEffect)
    } else if s == "power_ups_gigantified_emote"@ {
        Some(MessageType::PowerUpsGigantifiedEmote)
    } else if s == "channel_points_sub_only"@ {
        Some(MessageType::ChannelPointsSubOnly)
    } else if s == "channel_points_highlighted"@ {
        Some(MessageType::ChannelPointsHighlighted)
    } else {
        None
    }
}

/// The message kind a camel-case text names.
pub open spec fn message_type_from_camel(s: Seq<char>) -> Option<MessageType> {
    if s == "text"@ {
        Some(MessageType::Text)
    } else if s == "userIntro"@ {
        Some(MessageType::UserIntro)
    } else if s == "powerUpsMessageEffect"@ {
        Some(MessageType::PowerUpsMessageEffect)
    } else if s == "powerUpsGigantifiedEmote"@ {
        Some(MessageType::PowerUpsGigantifiedEmote)
    } else if s == "channelPointsSubOnly"@ {
        Some(MessageType::ChannelPointsSubOnly)
    } else if s == "channelPointsHighlighted"@ {
        Some(MessageType::ChannelPointsHighlighted)
    } else {
        None
    }
}

/// The message kind a Pascal-case text names.
pub open spec fn message_type_from_pascal(s: Seq<char>) -> Option<MessageType> {
    if s == "Text"@ {
        Some(MessageType::Text)
    } else if s == "UserIntro"@ {
        Some(MessageType::UserIntro)
    } else if s == "PowerUpsMessageEffect"@ {
        Some(MessageType::PowerUpsMessageEffect)
    } else if s == "PowerUpsGigantifiedEmote"@ {
        Some(MessageType::PowerUpsGigantifiedEmote)
    } else if s == "ChannelPointsSubOnly"@ {
        Some(MessageType::ChannelPointsSubOnly)
    } else if s == "ChannelPointsHighlighted"@ {
        Some(MessageType::ChannelPointsHighlighted)
    } else {
        None
    }
}

impl MessageType {
    /// The wire text of this kind.
    pub fn as_str(&self) -> (r: &'static str)
        ensures
            r@ == message_type_text(*self),
    {
        match self {
            MessageType::Text => "text",
            MessageType::UserIntro => "user_intro",
            MessageType::PowerUpsMessageEffect => "power_ups_message_effect",
            MessageType::PowerUpsGigantifiedEmote => "power_ups_gigantified_emote",
            MessageType::ChannelPointsSubOnly => "channel_points_sub_only",
            MessageType::ChannelPointsHighlighted => "channel_points_highlighted",
        }
    }

    /// Reads a snake-case kind name.
    pub fn from_str_snake_case(s: &str) -> (r: Result<Self, String>)
        ensures
            r is Ok <==> message_type_from_snake(s@) is Some,
            r matches Ok(t) ==> message_type_from_snake(s@) == Some(t),
    {
        if crate::json::str_eq(s, "text") {
            Ok(MessageType::Text)
        } else if crate::json::str_eq(s, "user_intro") {
            Ok(MessageType::UserIntro)
        } else if crate::json::str_eq(s, "power_ups_message_effect") {
            Ok(MessageType::PowerUpsMessageEffect)
        } else if crate::json::str_eq(s, "power_ups_gigantified_emote") {
            Ok(MessageType::PowerUpsGigantifiedEmote)
        } else if crate::json::str_eq(s, "channel_points_sub_only") {
            Ok(MessageType::ChannelPointsSubOnly)
        } else if crate::json::str_eq(s, "channel_points_highlighted") {
            Ok(MessageType::ChannelPointsHighlighted)
        } else {
            Err("not a snake-case message kind".to_owned())
        }
    }

    /// Reads a camel-case kind name.
    pub fn from_str_camel_case(s: &str) -> (r: Result<Self, String>)
        ensures
            r is Ok <==> message_type_from_camel(s@) is Some,
            r matches Ok(t) ==> message_type_from_camel(s@) == Some(t),
    {
        if crate::json::str_eq(s, "text") {
            Ok(MessageType::Text)
        } else if crate::json::str_eq(s, "userIntro") {
            Ok(MessageType::UserIntro)
        } else if crate::json::str_eq(s, "powerUpsMessageEffect") {
            Ok(MessageType::PowerUpsMessageEffect)
        } else if crate::json::str_eq(s, "powerUpsGigantifiedEmote") {
            Ok(MessageType::PowerUpsGigantifiedEmote)
        } else if crate::json::str_eq(s, "channelPointsSubOnly") {
            Ok(MessageType::ChannelPointsSubOnly)
        } else if crate::json::str_eq(s, "channelPointsHighlighted") {
            Ok(MessageType::ChannelPointsHighlighted)
        } else {
            Err("not a camel-case message kind".to_owned())
        }
    }

    /// Reads a Pascal-case kind name.
    pub fn from_str_pascal_case(s: &str) -> (r: Result<Self, String>)
        ensures
            r is Ok <==> message_type_from_pascal(s@) is Some,
            r matches Ok(t) ==> message_type_from_pascal(s@) == Some(t),
    {
        if crate::json::str_eq(s, "Text") {
            Ok(MessageType::Text)
        } else if crate::json::str_eq(s, "UserIntro") {
            Ok(MessageType::UserIntro)
        } else if crate::json::str_eq(s, "PowerUpsMessageEffect") {
            Ok(MessageType::PowerUpsMessageEffect)
        } else if crate::json::str_eq(s, "PowerUpsGigantifiedEmote") {
            Ok(MessageType::PowerUpsGigantifiedEmote)
        } else if crate::json::str_eq(s, "ChannelPointsSubOnly") {
            Ok(MessageType::ChannelPointsSubOnly)
        } else if crate::json::str_eq(s, "ChannelPointsHighlighted") {
            Ok(MessageType::ChannelPointsHighlighted)
        } else {
            Err("not a Pascal-case message kind".to_owned())
        }
    }
}

/// A full chat-message event.
#[derive(Debug)]
pub struct ChannelChatMessage {
    /// The broadcaster user ID.
    pub broadcaster_user_id: String,
    /// The broadcaster display name.
    pub broadcaster_user_name: String,
    /// The broadcaster login.
    pub broadcaster_user_login: String,
    /// The user ID of the sender.
    pub chatter_user_id: String,
    /// The user name of the sender.
    pub chatter_user_name: String,
    /// The user login of the sender.
    pub chatter_user_login: String,
    /// The identifier of the message.
    pub message_id: MessageId,
    /// The structured chat message.
    pub message: ChatMessage,
    /// The kind of the message.
    pub message_type: MessageType,
    /// The sender's chat badges.
    pub badges: Vec<Badge>,
    /// Reply metadata, when the message replies to another.
    pub reply: Option<Reply>,
    /// The channel-points custom reward redeemed, if any.
    pub channel_points_custom_reward_id: Option<String>,
    /// The source channel's broadcaster ID, on shared-chat messages.
    pub source_broadcaster_user_id: Option<String>,
    /// The source channel's broadcaster name, on shared-chat messages.
    pub source_broadcaster_user_name: Option<String>,
    /// The source channel's broadcaster login, on shared-chat messages.
    pub source_broadcaster_user_login: Option<String>,
    /// The source channel's message identifier, on shared-chat messages.
    pub source_message_id: Option<String>,
    /// The sender's badges in the source channel, on shared-chat messages.
    pub source_badges: Option<Vec<Badge>>,
    /// Whether a shared-chat message goes to the source channel only.
    pub is_source_only: Option<bool>,
}

/// Model of [`ChannelChatMessage`].
pub struct ChannelChatMessageV {
    pub broadcaster_user_id: Seq<char>,
    pub broadcaster_user_name: Seq<char>,
    pub broadcaster_user_login: Seq<char>,
    pub chatter_user_id: Seq<char>,
    pub chatter_user_name: Seq<char>,
    pub chatter_user_login: Seq<char>,
    pub message_id: MessageIdV,
    pub message: ChatMessageV,
    pub message_type: MessageType,
    pub badges: Seq<BadgeV>,
    pub reply: Option<ReplyV>,
    pub channel_points_custom_reward_id: Option<Seq<char>>,
    pub source_broadcaster_user_id: Option<Seq<char>>,
    pub source_broadcaster_user_name: Option<Seq<char>>,
    pub source_broadcaster_user_login: Option<Seq<char>>,
    pub source_message_id: Option<Seq<char>>,
    pub source_badges: Option<Seq<BadgeV>>,
    pub is_source_only: Option<bool>,
}

impl View for ChannelChatMessage {
    type V = ChannelChatMessageV;

    open spec fn view(&self) -> ChannelChatMessageV {
        ChannelChatMessageV {
            broadcaster_user_id: self.broadcaster_user_id@,
            broadcaster_user_name: self.broadcaster_user_name@,
            broadcaster_user_login: self.broadcaster_user_login@,
            chatter_user_id: self.chatter_user_id@,
            chatter_user_name: self.chatter_user_name@,
            chatter_user_login: self.chatter_user_login@,
            message_id: self.message_id@,
            message: self.message@,
            message_type: self.message_type,
            badges: views_of(self.badges@),
            reply: match self.reply {
                Some(r) => Some(r@),
                None => None,
            },
            channel_points_custom_reward_id: crate::json::opt_text_view(
                self.channel_points_custom_reward_id,
            ),
            source_broadcaster_user_id: crate::json::opt_text_view(self.source_broadcaster_user_id),
            source_broadcaster_user_name: crate::json::opt_text_view(
                self.source_broadcaster_user_name,
            ),
            source_broadcaster_user_login: crate::json::opt_text_view(
                self.source_broadcaster_user_login,
            ),
            source_message_id: crate::json::opt_text_view(self.source_message_id),
            source_badges: match self.source_badges {
                Some(v) => Some(views_of(v@)),
                None => None,
            },
            is_source_only: self.is_source_only,
        }
    }
}

/// A decoded notification event: a chat message, or an event of a category
/// this library does not model, preserved as the raw structured value.
#[derive(Debug)]
pub enum NotificationEvent {
    ChannelChatMessage(Box<ChannelChatMessage>),
    Other(Json),
}

/// Model of [`NotificationEvent`].
pub enum NotificationEventV {
    ChannelChatMessage(ChannelChatMessageV),
    Other(JsonV),
}

impl View for NotificationEvent {
    type V = NotificationEventV;

    open spec fn view(&self) -> NotificationEventV {
        match self {
            NotificationEvent::ChannelChatMessage(b) => NotificationEventV::ChannelChatMessage(b@),
            NotificationEvent::Other(j) => NotificationEventV::Other(j@),
        }
    }
}

} // verus!
