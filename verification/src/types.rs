//! The platform-independent types that the user interface shows.

use vstd::prelude::*;

verus! {

/// A user of some messaging platform.
pub struct User {
    pub id: String,
    pub username: String,
}

/// A conversation (a direct message or a group) on some platform.
pub struct Conversation {
    pub id: String,
    pub name: String,
    pub icon: Option<String>,
}

/// A guild (a server with channels) on some platform.
pub struct Guild {
    pub id: String,
    pub name: String,
    pub icon: Option<String>,
}

/// The text of an optional string.
pub open spec fn opt_view(o: Option<String>) -> Option<Seq<char>> {
    match o {
        Some(s) => Some(s@),
        None => None,
    }
}

/// What a user shows: its id and name.
pub struct UserView {
    pub id: Seq<char>,
    pub username: Seq<char>,
}

/// What a conversation shows: its id, name and icon hash.
pub struct ConversationView {
    pub id: Seq<char>,
    pub name: Seq<char>,
    pub icon: Option<Seq<char>>,
}

/// What a guild shows: its id, name and icon hash.
pub struct GuildView {
    pub id: Seq<char>,
    pub name: Seq<char>,
    pub icon: Option<Seq<char>>,
}

impl View for User {
    type V = UserView;

    open spec fn view(&self) -> UserView {
        UserView { id: self.id@, username: self.username@ }
    }
}

impl View for Conversation {
    type V = ConversationView;

    open spec fn view(&self) -> ConversationView {
        ConversationView { id: self.id@, name: self.name@, icon: opt_view(self.icon) }
    }
}

impl View for Guild {
    type V = GuildView;

    open spec fn view(&self) -> GuildView {
        GuildView { id: self.id@, name: self.name@, icon: opt_view(self.icon) }
    }
}

} // verus!
