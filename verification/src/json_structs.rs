//! The shapes of the JSON documents that Discord's REST API answers with,
//! and their conversion into the platform-independent types.

use vstd::prelude::*;
use crate::types::{User as GlobalUser, Guild as GlobalGuild, Conversation, UserView, GuildView, ConversationView, opt_view};

verus! {

/// The profile of the signed-in user (`GET /users/@me`).
pub struct Profile {
    pub accent_color: Option<String>,
    pub authenticator_types: Vec<String>,
    pub avatar: Option<String>,
    pub avatar_decoration_data: Option<String>,
    pub banner: Option<String>,
    pub banner_color: Option<String>,
    pub bio: String,
    pub clan: Option<String>,
    pub discriminator: String,
    pub email: String,
    pub flags: i32,
    pub global_name: String,
    pub id: String,
    pub linked_users: Vec<String>,
    pub locale: String,
    pub mfa_enabled: bool,
    pub nsfw_allowed: bool,
    pub phone: Option<String>,
    pub premium_type: i32,
    pub public_flags: i32,
    pub username: String,
    pub verified: bool,
}

impl From<Profile> for GlobalUser {
    /// The profile's id and username.
    fn from(profile: Profile) -> (user: GlobalUser)
        ensures
            user@ == (UserView { id: profile.id@, username: profile.username@ }),
    {
        GlobalUser { id: profile.id, username: profile.username }
    }
}

impl vstd::std_specs::convert::FromSpecImpl<Profile> for GlobalUser {
    open spec fn obeys_from_spec() -> bool {
        true
    }

    open spec fn from_spec(profile: Profile) -> GlobalUser {
        GlobalUser { id: profile.id, username: profile.username }
    }
}

/// A user as Discord describes it inside other documents.
#[derive(Clone, Debug)]
pub struct User {
    pub avatar: Option<String>,
    pub avatar_decoration_data: Option<String>,
    pub clan: Option<String>,
    pub discriminator: String,
    pub id: String,
    pub username: String,
}

/// A relationship of the signed-in user (`GET /users/@me/relationships`).
#[derive(Clone, Debug)]
pub struct Friend {
    pub id: String,
    pub is_spam_request: bool,
    pub nickname: Option<String>,
    pub since: String,
    pub user: User,
}

impl From<Friend> for GlobalUser {
    /// The relationship's id, and the name of the user it is with.
    fn from(friend: Friend) -> (user: GlobalUser)
        ensures
            user@ == (UserView { id: friend.id@, username: friend.user.username@ }),
    {
        GlobalUser { id: friend.id, username: friend.user.username }
    }
}

impl vstd::std_specs::convert::FromSpecImpl<Friend> for GlobalUser {
    open spec fn obeys_from_spec() -> bool {
        true
    }

    open spec fn from_spec(friend: Friend) -> GlobalUser {
        GlobalUser { id: friend.id, username: friend.user.username }
    }
}

/// A member of a private channel.
#[derive(Clone, Debug)]
pub struct Recipient {
    pub avatar: Option<String>,
    pub avatar_decoration_data: Option<String>,
    pub clan: Option<String>,
    pub discriminator: String,
    pub global_name: Option<String>,
    pub id: String,
    pub public_flags: i32,
    pub username: String,
}

// === Channels ===

/// The kinds of channel, in the order of Discord's numeric codes (0 to 12).
#[derive(Clone, Copy, Debug, PartialEq, Eq, Structural)]
pub enum ChannelTypes {
    GuildText,
    DM,
    GuildVoice,
    GroupDM,
    GuildCategory,
    GuildAnnouncement,
    AnnouncementThread,
    PublicThread,
    PrivateThread,
    GuildStageVoice,
    GuildDirectory,
    GuildForum,
    GuildMedia,
}

/// Discord's numeric code of a kind of channel.
pub open spec fn channel_type_code(t: ChannelTypes) -> u8 {
    match t {
        ChannelTypes::GuildText => 0,
        ChannelTypes::DM => 1,
        ChannelTypes::GuildVoice => 2,
        ChannelTypes::GroupDM => 3,
        ChannelTypes::GuildCategory => 4,
        ChannelTypes::GuildAnnouncement => 5,
        ChannelTypes::AnnouncementThread => 6,
        ChannelTypes::PublicThread => 7,
        ChannelTypes::PrivateThread => 8,
        ChannelTypes::GuildStageVoice => 9,
        ChannelTypes::GuildDirectory => 10,
        ChannelTypes::GuildForum => 11,
        ChannelTypes::GuildMedia => 12,
    }
}

impl ChannelTypes {
    /// The kind's numeric code.
    pub fn code(&self) -> (r: u8)
        ensures
            r == channel_type_code(*self),
    {
        match self {
            ChannelTypes::GuildText => 0,
            ChannelTypes::DM => 1,
            ChannelTypes::GuildVoice => 2,
            ChannelTypes::GroupDM => 3,
            ChannelTypes::GuildCategory => 4,
            ChannelTypes::GuildAnnouncement => 5,
            ChannelTypes::AnnouncementThread => 6,
            ChannelTypes::PublicThread => 7,
            ChannelTypes::PrivateThread => 8,
            ChannelTypes::GuildStageVoice => 9,
            ChannelTypes::GuildDirectory => 10,
            ChannelTypes::GuildForum => 11,
            ChannelTypes::GuildMedia => 12,
        }
    }

    /// The kind with the given numeric code; none above 12.
    pub fn from_code(code: u8) -> (r: Option<ChannelTypes>)
        ensures
            r is Some <==> code <= 12,
            r matches Some(t) ==> channel_type_code(t) == code,
    {
        match code {
            0 => Some(ChannelTypes::GuildText),
            1 => Some(ChannelTypes::DM),
            2 => Some(ChannelTypes::GuildVoice),
            3 => Some(ChannelTypes::GroupDM),
            4 => Some(ChannelTypes::GuildCategory),
            5 => Some(ChannelTypes::GuildAnnouncement),
            6 => Some(ChannelTypes::AnnouncementThread),
            7 => Some(ChannelTypes::PublicThread),
            8 => Some(ChannelTypes::PrivateThread),
            9 => Some(ChannelTypes::GuildStageVoice),
            10 => Some(ChannelTypes::GuildDirectory),
            11 => Some(ChannelTypes::GuildForum),
            12 => Some(ChannelTypes::GuildMedia),
            _ => None,
        }
    }
}

/// Distinct kinds have distinct codes, so reading a kind's code gives back
/// the kind.
pub proof fn lemma_channel_type_code_roundtrip(t: ChannelTypes, u: ChannelTypes)
    ensures
        channel_type_code(t) <= 12,
        channel_type_code(t) == channel_type_code(u) ==> t == u,
{
}

/// A channel of the signed-in user (`GET /users/@me/channels`).
#[derive(Clone, Debug)]
pub struct Channel {
    pub id: String,
    pub channel_type: ChannelTypes,
    pub flags: i32,
    pub icon: Option<String>,
    pub last_message_id: Option<String>,
    pub name: Option<String>,
    pub recipients: Vec<Recipient>,
}

/// The name a channel shows: its own, else that of its first recipient, else
/// the stand-in "Fix later".
pub open spec fn conversation_name(c: Channel) -> Seq<char> {
    match c.name {
        Some(n) => n@,
        None => if c.recipients.len() > 0 {
            c.recipients@[0].username@
        } else {
            "Fix later"@
        },
    }
}

/// The icon a channel shows: for a direct message, its first recipient's
/// avatar; for a group, its own icon; for any other kind, none.
pub open spec fn conversation_icon(c: Channel) -> Option<Seq<char>> {
    match c.channel_type {
        ChannelTypes::DM => if c.recipients.len() > 0 {
            opt_view(c.recipients@[0].avatar)
        } else {
            None
        },
        ChannelTypes::GroupDM => opt_view(c.icon),
        _ => None,
    }
}

/// The conversation that a channel shows.
pub open spec fn conversation_of(c: Channel) -> ConversationView {
    ConversationView { id: c.id@, name: conversation_name(c), icon: conversation_icon(c) }
}

impl From<Channel> for Conversation {
    /// The channel's id, the name it shows and the icon it shows.
    fn from(channel: Channel) -> (conversation: Conversation)
        ensures
            conversation@ == conversation_of(channel),
    {
        let icon = match channel.channel_type {
            ChannelTypes::DM => if channel.recipients.len() > 0 {
                match &channel.recipients[0].avatar {
                    Some(avatar) => Some(avatar.clone()),
                    None => None,
                }
            } else {
                None
            },
            ChannelTypes::GroupDM => match &channel.icon {
                Some(icon) => Some(icon.clone()),
                None => None,
            },
            _ => None,
        };
        let fallback = if channel.recipients.len() > 0 {
            channel.recipients[0].username.clone()
        } else {
            "Fix later".to_owned()
        };
        let name = match channel.name {
            Some(name) => name,
            None => fallback,
        };
        Conversation { id: channel.id, name, icon }
    }
}

impl vstd::std_specs::convert::FromSpecImpl<Channel> for Conversation {
    /// The conversation's name may be a fresh string, so only its view is
    /// stated, by the `ensures` of `from`.
    open spec fn obeys_from_spec() -> bool {
        false
    }

    open spec fn from_spec(channel: Channel) -> Conversation {
        vstd::pervasive::arbitrary()
    }
}

/// How many users reacted in each way.
#[derive(Debug)]
pub struct CountDetails {
    pub burst: u32,
    pub normal: u32,
}

/// An emoji used in a reaction.
#[derive(Debug)]
pub struct Emoji {
    pub id: Option<String>,
    pub name: String,
}

/// A reaction to a message.
#[derive(Debug)]
pub struct Reaction {
    pub burst_colors: Vec<String>,
    pub burst_count: u32,
    pub burst_me: bool,
    pub count: u32,
    pub count_details: CountDetails,
    pub emoji: Emoji,
    pub me: bool,
    pub me_burst: bool,
}

/// A message of a channel.
#[derive(Debug)]
pub struct Message {
    pub attachments: Vec<String>,
    pub author: User,
    pub channel_id: String,
    pub components: Vec<String>,
    pub content: String,
    pub edited_timestamp: Option<String>,
    pub embeds: Vec<u32>,
    pub flags: u32,
    pub id: String,
    pub mention_everyone: bool,
    pub pinned: bool,
    pub reactions: Option<Vec<Reaction>>,
    pub timestamp: String,
    pub tts: bool,
}

/// A guild of the signed-in user (`GET /users/@me/guilds`).
#[derive(Debug, Clone)]
pub struct Guild {
    pub id: String,
    pub name: String,
    pub icon: Option<String>,
}

/// The guild as the interface shows it: its id, name and icon.
pub open spec fn guild_view_of(g: Guild) -> GuildView {
    GuildView { id: g.id@, name: g.name@, icon: opt_view(g.icon) }
}

impl From<Guild> for GlobalGuild {
    /// The guild's id, name and icon.
    fn from(guild: Guild) -> (global: GlobalGuild)
        ensures
            global@ == guild_view_of(guild),
    {
        GlobalGuild { id: guild.id, name: guild.name, icon: guild.icon }
    }
}

impl vstd::std_specs::convert::FromSpecImpl<Guild> for GlobalGuild {
    open spec fn obeys_from_spec() -> bool {
        true
    }

    open spec fn from_spec(guild: Guild) -> GlobalGuild {
        GlobalGuild { id: guild.id, name: guild.name, icon: guild.icon }
    }
}

/// Each kind's code is its place in Discord's list of channel types:
/// a guild's text channel 0, a direct message 1, a voice channel 2, a group
/// 3, a category 4, an announcement channel 5, an announcement thread 6, a
/// public thread 7, a private thread 8, a stage 9, a directory 10, a forum
/// 11, a media channel 12.
pub proof fn lemma_channel_type_codes()
    ensures
        channel_type_code(ChannelTypes::GuildText) == 0,
        channel_type_code(ChannelTypes::DM) == 1,
        channel_type_code(ChannelTypes::GuildVoice) == 2,
        channel_type_code(ChannelTypes::GroupDM) == 3,
        channel_type_code(ChannelTypes::GuildCategory) == 4,
        channel_type_code(ChannelTypes::GuildAnnouncement) == 5,
        channel_type_code(ChannelTypes::AnnouncementThread) == 6,
        channel_type_code(ChannelTypes::PublicThread) == 7,
        channel_type_code(ChannelTypes::PrivateThread) == 8,
        channel_type_code(ChannelTypes::GuildStageVoice) == 9,
        channel_type_code(ChannelTypes::GuildDirectory) == 10,
        channel_type_code(ChannelTypes::GuildForum) == 11,
        channel_type_code(ChannelTypes::GuildMedia) == 12,
{
}

/// The name a conversation shows: the channel's own name where it has one;
/// else the username of its first recipient (not of any other); else, with
/// no recipient, "Fix later". Its id is the channel's id.
pub proof fn lemma_conversation_name(c: Channel)
    ensures
        conversation_of(c).id == c.id@,
        forall|n: String| c.name == Some(n) ==> #[trigger] conversation_of(c).name == n@,
        c.name is None && c.recipients@.len() > 0 ==> conversation_of(c).name
            == c.recipients@[0].username@,
        c.name is None && c.recipients@.len() == 0 ==> conversation_of(c).name == "Fix later"@,
{
}

/// The icon a conversation shows. A group shows its own icon and nothing
/// else: none where it has none, whatever its members' avatars. A direct
/// message shows its first recipient's avatar (none where that recipient has
/// none, or where there is no recipient), whatever icon the channel has.
/// Every other kind shows none.
pub proof fn lemma_conversation_icon(c: Channel)
    ensures
        c.channel_type == ChannelTypes::GroupDM && c.icon is None ==> conversation_of(c).icon
            is None,
        forall|h: String|
            c.channel_type == ChannelTypes::GroupDM && c.icon == Some(h) ==> #[trigger] conversation_of(
                c,
            ).icon == Some(h@),
        c.channel_type == ChannelTypes::DM && c.recipients@.len() == 0 ==> conversation_of(c).icon
            is None,
        c.channel_type == ChannelTypes::DM && c.recipients@.len() > 0 && c.recipients@[0].avatar
            is None ==> conversation_of(c).icon is None,
        forall|a: String|
            c.channel_type == ChannelTypes::DM && c.recipients@.len() > 0 && c.recipients@[0].avatar
                == Some(a) ==> #[trigger] conversation_of(c).icon == Some(a@),
        c.channel_type != ChannelTypes::DM && c.channel_type != ChannelTypes::GroupDM
            ==> conversation_of(c).icon is None,
{
}

/// A guild keeps its id, name and icon when the interface takes it over: a
/// guild without an icon shows none, and one with an icon shows that icon.
pub proof fn lemma_guild_kept(g: Guild)
    ensures
        guild_view_of(g).id == g.id@,
        guild_view_of(g).name == g.name@,
        g.icon is None ==> guild_view_of(g).icon is None,
        forall|h: String| g.icon == Some(h) ==> #[trigger] guild_view_of(g).icon == Some(h@),
        <GlobalGuild as vstd::std_specs::convert::FromSpec<Guild>>::from_spec(g).icon == g.icon,
        <GlobalGuild as vstd::std_specs::convert::FromSpec<Guild>>::from_spec(g).id == g.id,
        <GlobalGuild as vstd::std_specs::convert::FromSpec<Guild>>::from_spec(g).name == g.name,
{
}

} // verus!
