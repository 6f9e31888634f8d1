//! The Discord client's own logic: the request header that carries the
//! token, the icons it caches, and how the answers become the
//! platform-independent types.

use vstd::prelude::*;
use vstd::string::StringExecFns;
use secure_string::SecureString;
use crate::secure::{secure_text, unsecure_copy};
use crate::json_structs::{Channel, Friend, Guild, conversation_of, guild_view_of};
use crate::types::{User as GlobalUser, Guild as GlobalGuild, Conversation, UserView};

verus! {

/// A client of Discord's REST API, signed in with a token.
pub struct Discord {
    pub token: SecureString,
}

/// An icon to fetch and keep in the local cache: where it is fetched from,
/// the cache directory, and the name of the file in it.
pub struct IconDownload {
    pub url: String,
    pub dir: String,
    pub file_name: String,
}

/// The text of an icon download.
pub struct IconDownloadView {
    pub url: Seq<char>,
    pub dir: Seq<char>,
    pub file_name: Seq<char>,
}

impl View for IconDownload {
    type V = IconDownloadView;

    open spec fn view(&self) -> IconDownloadView {
        IconDownloadView { url: self.url@, dir: self.dir@, file_name: self.file_name@ }
    }
}

/// The cache directory of channel icons.
pub open spec fn channel_icons_dir() -> Seq<char> {
    "./cache/discord/channels/imgs/"@
}

/// The cache directory of guild icons.
pub open spec fn guild_icons_dir() -> Seq<char> {
    "./cache/discord/guilds/imgs/"@
}

/// The name of the cached icon of the channel or guild with the given id.
pub open spec fn icon_file_name(id: Seq<char>) -> Seq<char> {
    id + ".png"@
}

/// The address of a CDN image: `https://cdn.discordapp.com/<kind>/<id>/<hash>.png`.
pub open spec fn cdn_url(kind: Seq<char>, id: Seq<char>, hash: Seq<char>) -> Seq<char> {
    "https://cdn.discordapp.com/"@ + kind + "/"@ + id + "/"@ + hash + ".png"@
}

/// The icon that is cached for a channel: its own icon where it has one,
/// else its first recipient's avatar, where that one has one.
pub open spec fn channel_icon_download(c: Channel) -> Option<IconDownloadView> {
    match c.icon {
        Some(icon) => Some(IconDownloadView {
            url: cdn_url("channel-icons"@, c.id@, icon@),
            dir: channel_icons_dir(),
            file_name: icon_file_name(c.id@),
        }),
        None => match c.recipients@[0].avatar {
            Some(avatar) => Some(IconDownloadView {
                url: cdn_url("avatars"@, c.recipients@[0].id@, avatar@),
                dir: channel_icons_dir(),
                file_name: icon_file_name(c.id@),
            }),
            None => None,
        },
    }
}

/// The icon that is cached for a guild, where it has one.
pub open spec fn guild_icon_download(g: Guild) -> Option<IconDownloadView> {
    match g.icon {
        Some(icon) => Some(IconDownloadView {
            url: cdn_url("icons"@, g.id@, icon@),
            dir: guild_icons_dir(),
            file_name: icon_file_name(g.id@),
        }),
        None => None,
    }
}

/// `https://cdn.discordapp.com/<kind>/<id>/<hash>.png`.
fn make_cdn_url(kind: &str, id: &str, hash: &str) -> (r: String)
    ensures
        r@ == cdn_url(kind@, id@, hash@),
{
    let mut url = "https://cdn.discordapp.com/".to_owned();
    url.append(kind);
    url.append("/");
    url.append(id);
    url.append("/");
    url.append(hash);
    url.append(".png");
    url
}

/// `<id>.png`.
fn make_icon_file_name(id: &str) -> (r: String)
    ensures
        r@ == icon_file_name(id@),
{
    let mut name = id.to_owned();
    name.append(".png");
    name
}

impl Discord {
    /// The headers that authorize a request: `Authorization` with the token.
    pub fn get_auth_header(&self) -> (r: Vec<(&'static str, String)>)
        ensures
            r@.len() == 1,
            r@[0].0@ == "Authorization"@,
            r@[0].1@ == secure_text(self.token),
    {
        vec![("Authorization", unsecure_copy(&self.token))]
    }
}

/// The icon to cache for a channel, as the channel list fetches them.
pub fn channel_icon(channel: &Channel) -> (r: Option<IconDownload>)
    requires
        channel.icon is Some || channel.recipients@.len() > 0,
    ensures
        match r {
            Some(d) => channel_icon_download(*channel) == Some(d@),
            None => channel_icon_download(*channel) is None,
        },
{
    match &channel.icon {
        Some(icon) => Some(IconDownload {
            url: make_cdn_url("channel-icons", channel.id.as_str(), icon.as_str()),
            dir: "./cache/discord/channels/imgs/".to_owned(),
            file_name: make_icon_file_name(channel.id.as_str()),
        }),
        None => {
            let recipient = &channel.recipients[0];
            match &recipient.avatar {
                Some(avatar) => Some(IconDownload {
                    url: make_cdn_url("avatars", recipient.id.as_str(), avatar.as_str()),
                    dir: "./cache/discord/channels/imgs/".to_owned(),
                    file_name: make_icon_file_name(channel.id.as_str()),
                }),
                None => None,
            }
        },
    }
}

/// The icon to cache for a guild, as the guild list fetches them.
pub fn guild_icon(guild: &Guild) -> (r: Option<IconDownload>)
    ensures
        match r {
            Some(d) => guild_icon_download(*guild) == Some(d@),
            None => guild_icon_download(*guild) is None,
        },
{
    match &guild.icon {
        Some(icon) => Some(IconDownload {
            url: make_cdn_url("icons", guild.id.as_str(), icon.as_str()),
            dir: "./cache/discord/guilds/imgs/".to_owned(),
            file_name: make_icon_file_name(guild.id.as_str()),
        }),
        None => None,
    }
}

/// The contacts that the relationships describe, in order.
pub fn contacts_from_friends(friends: Vec<Friend>) -> (users: Vec<GlobalUser>)
    ensures
        users@.len() == friends@.len(),
        forall|i: int|
            0 <= i < friends@.len() ==> #[trigger] users@[i]@ == (UserView {
                id: friends@[i].id@,
                username: friends@[i].user.username@,
            }),
{
    let ghost all = friends@;
    let mut users: Vec<GlobalUser> = Vec::new();
    for friend in it: friends
        invariant
            it.seq() == all,
            users@.len() == it.index(),
            forall|j: int|
                0 <= j < it.index() ==> #[trigger] users@[j]@ == (UserView {
                    id: all[j].id@,
                    username: all[j].user.username@,
                }),
    {
        users.push(GlobalUser::from(friend));
    }
    users
}

/// The conversations that the channels show, in order.
pub fn conversations_from_channels(channels: Vec<Channel>) -> (conversations: Vec<Conversation>)
    ensures
        conversations@.len() == channels@.len(),
        forall|i: int|
            0 <= i < channels@.len() ==> #[trigger] conversations@[i]@ == conversation_of(
                channels@[i],
            ),
{
    let ghost all = channels@;
    let mut conversations: Vec<Conversation> = Vec::new();
    for channel in it: channels
        invariant
            it.seq() == all,
            conversations@.len() == it.index(),
            forall|j: int|
                0 <= j < it.index() ==> #[trigger] conversations@[j]@ == conversation_of(all[j]),
    {
        conversations.push(Conversation::from(channel));
    }
    conversations
}

/// The guilds as the interface shows them, in order.
pub fn guilds_from_json(guilds: Vec<Guild>) -> (global: Vec<GlobalGuild>)
    ensures
        global@.len() == guilds@.len(),
        forall|i: int|
            0 <= i < guilds@.len() ==> #[trigger] global@[i]@ == guild_view_of(guilds@[i]),
{
    let ghost all = guilds@;
    let mut global: Vec<GlobalGuild> = Vec::new();
    for guild in it: guilds
        invariant
            it.seq() == all,
            global@.len() == it.index(),
            forall|j: int|
                0 <= j < it.index() ==> #[trigger] global@[j]@ == guild_view_of(all[j]),
    {
        global.push(GlobalGuild::from(guild));
    }
    global
}

/// The icon cached for a channel with an icon of its own is that icon,
/// fetched from `https://cdn.discordapp.com/channel-icons/<channel id>/<hash>.png`,
/// whatever its recipients hold. Only a channel without an icon falls back
/// to its first recipient's avatar, from
/// `https://cdn.discordapp.com/avatars/<recipient id>/<hash>.png`, and where
/// that recipient has none, nothing is cached. Either way the file is
/// `./cache/discord/channels/imgs/<channel id>.png`.
pub proof fn lemma_channel_icon_choice(c: Channel)
    ensures
        forall|h: String|
            c.icon == Some(h) ==> #[trigger] channel_icon_download(c) == Some(
                IconDownloadView {
                    url: "https://cdn.discordapp.com/"@ + "channel-icons"@ + "/"@ + c.id@ + "/"@
                        + h@ + ".png"@,
                    dir: "./cache/discord/channels/imgs/"@,
                    file_name: c.id@ + ".png"@,
                },
            ),
        forall|a: String|
            c.icon is None && c.recipients@.len() > 0 && c.recipients@[0].avatar == Some(a)
                ==> #[trigger] channel_icon_download(c) == Some(
                IconDownloadView {
                    url: "https://cdn.discordapp.com/"@ + "avatars"@ + "/"@ + c.recipients@[0].id@
                        + "/"@ + a@ + ".png"@,
                    dir: "./cache/discord/channels/imgs/"@,
                    file_name: c.id@ + ".png"@,
                },
            ),
        c.icon is None && c.recipients@.len() > 0 && c.recipients@[0].avatar is None
            ==> channel_icon_download(c) is None,
{
}

/// The icon cached for a guild with an icon is that icon, fetched from
/// `https://cdn.discordapp.com/icons/<guild id>/<hash>.png` into
/// `./cache/discord/guilds/imgs/<guild id>.png`; a guild without one has
/// nothing cached.
pub proof fn lemma_guild_icon_choice(g: Guild)
    ensures
        forall|h: String|
            g.icon == Some(h) ==> #[trigger] guild_icon_download(g) == Some(
                IconDownloadView {
                    url: "https://cdn.discordapp.com/"@ + "icons"@ + "/"@ + g.id@ + "/"@ + h@
                        + ".png"@,
                    dir: "./cache/discord/guilds/imgs/"@,
                    file_name: g.id@ + ".png"@,
                },
            ),
        g.icon is None ==> guild_icon_download(g) is None,
{
}

} // verus!
