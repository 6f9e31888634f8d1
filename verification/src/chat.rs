//! The chat page's navigation state, and the images it shows.

use vstd::prelude::*;
use vstd::string::StringExecFns;
use crate::types::{Conversation, Guild as GlobalGuild, ConversationView, GuildView};
use crate::json_structs::{Channel, Guild, conversation_of, guild_view_of};
use crate::discord::{channel_icon_download, guild_icon_download, channel_icons_dir, guild_icons_dir, icon_file_name};

verus! {

/// What the user asked the chat page to do.
pub enum Message {
    OpenContacts,
    OpenConversation(String),
}

/// What the main area of the chat page shows.
pub enum Main {
    Contacts,
    Chat(String),
}

/// What the main area shows after a message: the contact list, or the
/// conversation that was opened.
pub open spec fn main_after(message: Message) -> Main {
    match message {
        Message::OpenConversation(id) => Main::Chat(id),
        Message::OpenContacts => Main::Contacts,
    }
}

/// What the main area shows after it showed `current` and got `message`:
/// the message alone decides it.
pub open spec fn main_updated(current: Main, message: Message) -> Main {
    main_after(message)
}

/// What the main area shows after it showed `start` and got `messages`, in
/// order, one `update` each.
pub open spec fn main_after_all(start: Main, messages: Seq<Message>) -> Main
    decreases messages.len(),
{
    if messages.len() == 0 {
        start
    } else {
        main_updated(main_after_all(start, messages.drop_last()), messages.last())
    }
}

/// After any sequence of messages, the main area shows what the last one
/// asked for: the conversation it opened, or the contacts; with no message,
/// what it showed before.
pub proof fn lemma_main_follows_last_message(start: Main, messages: Seq<Message>)
    ensures
        messages.len() == 0 ==> main_after_all(start, messages) == start,
        messages.len() > 0 ==> main_after_all(start, messages) == main_after(messages.last()),
        messages.len() > 0 ==> (main_after_all(start, messages) is Contacts <==> messages.last() is OpenContacts),
        forall|id: String|
            messages.len() > 0 && messages.last() == Message::OpenConversation(id) ==>
                #[trigger] main_after_all(start, messages) == Main::Chat(id),
{
}

impl Main {
    /// Follows a message of the chat page.
    pub fn update(&mut self, message: Message)
        ensures
            *final(self) == main_updated(*old(self), message),
    {
        match message {
            Message::OpenConversation(id) => {
                *self = Main::Chat(id);
            },
            Message::OpenContacts => {
                *self = Main::Contacts;
            },
        }
    }
}

/// The text the main area shows for an open conversation: what the chat
/// store holds for it (the lookup's result, `entry`), else "test".
pub fn chat_text<'a>(entry: Option<&'a String>) -> (r: &'a str)
    ensures
        r@ == (match entry {
            Some(text) => text@,
            None => "test"@,
        }),
{
    match entry {
        Some(text) => text.as_str(),
        None => "test",
    }
}

/// The image shown where nothing of the item's own is cached.
pub open spec fn placeholder_image() -> Seq<char> {
    "./public/imgs/default_placeholder.png"@
}

/// The image shown for a guild: its cached icon where it has an icon.
pub open spec fn guild_image(g: GuildView) -> Seq<char> {
    match g.icon {
        Some(_) => guild_icons_dir() + icon_file_name(g.id),
        None => placeholder_image(),
    }
}

/// The image shown for a conversation: its cached icon where it has an icon.
pub open spec fn conversation_image(c: ConversationView) -> Seq<char> {
    match c.icon {
        Some(_) => channel_icons_dir() + icon_file_name(c.id),
        None => placeholder_image(),
    }
}

/// The path of the image shown for a guild.
pub fn guild_image_path(guild: &GlobalGuild) -> (r: String)
    ensures
        r@ == guild_image(guild@),
{
    match &guild.icon {
        Some(_) => {
            let mut path = "./cache/discord/guilds/imgs/".to_owned();
            path.append(guild.id.as_str());
            path.append(".png");
            path
        },
        None => "./public/imgs/default_placeholder.png".to_owned(),
    }
}

/// The path of the image shown for a conversation.
pub fn conversation_image_path(conversation: &Conversation) -> (r: String)
    ensures
        r@ == conversation_image(conversation@),
{
    match &conversation.icon {
        Some(_) => {
            let mut path = "./cache/discord/channels/imgs/".to_owned();
            path.append(conversation.id.as_str());
            path.append(".png");
            path
        },
        None => "./public/imgs/default_placeholder.png".to_owned(),
    }
}

/// The image the chat page shows for a guild with an icon is the file that
/// fetching the guild list cached for it.
pub proof fn lemma_guild_image_is_cached(g: Guild)
    requires
        g.icon is Some,
    ensures
        guild_icon_download(g) matches Some(d) && guild_image(guild_view_of(g)) == d.dir
            + d.file_name,
{
}

/// Where the chat page shows a conversation's own icon, fetching the channel
/// list cached that file: a direct message's channel with a recipient's
/// avatar, or a group with an icon, has an icon to cache, under the
/// channel's id.
pub proof fn lemma_conversation_image_is_cached(c: Channel)
    requires
        conversation_icon_shown(c),
    ensures
        channel_icon_download(c) matches Some(d)
            && conversation_image(conversation_of(c)) == d.dir + d.file_name,
{
}

/// The conversation of a channel shows an icon of its own.
pub open spec fn conversation_icon_shown(c: Channel) -> bool {
    conversation_of(c).icon is Some
}

/// The images the chat page shows: a guild with an icon shows
/// `./cache/discord/guilds/imgs/<guild id>.png`, a conversation with an icon
/// `./cache/discord/channels/imgs/<conversation id>.png`, and anything
/// without an icon `./public/imgs/default_placeholder.png`.
pub proof fn lemma_image_paths(g: GuildView, c: ConversationView)
    ensures
        g.icon is Some ==> guild_image(g) == "./cache/discord/guilds/imgs/"@ + g.id + ".png"@,
        g.icon is None ==> guild_image(g) == "./public/imgs/default_placeholder.png"@,
        c.icon is Some ==> conversation_image(c) == "./cache/discord/channels/imgs/"@ + c.id
            + ".png"@,
        c.icon is None ==> conversation_image(c) == "./public/imgs/default_placeholder.png"@,
{
}

} // verus!
