use record::json_structs::{Channel, ChannelTypes, Friend, Guild, Profile, Recipient, User};
use record::types::{Conversation, Guild as GlobalGuild, User as GlobalUser};

fn recipient(id: &str, username: &str, avatar: Option<&str>) -> Recipient {
    Recipient {
        avatar: avatar.map(|a| a.to_string()),
        avatar_decoration_data: None,
        clan: None,
        discriminator: "0".to_string(),
        global_name: None,
        id: id.to_string(),
        public_flags: 0,
        username: username.to_string(),
    }
}

fn channel(ty: ChannelTypes, name: Option<&str>, icon: Option<&str>, recipients: Vec<Recipient>) -> Channel {
    Channel {
        id: "100".to_string(),
        channel_type: ty,
        flags: 0,
        icon: icon.map(|i| i.to_string()),
        last_message_id: None,
        name: name.map(|n| n.to_string()),
        recipients,
    }
}

#[test]
fn profile_becomes_user() {
    let profile = Profile {
        accent_color: None,
        authenticator_types: vec![],
        avatar: None,
        avatar_decoration_data: None,
        banner: None,
        banner_color: None,
        bio: "bio".to_string(),
        clan: None,
        discriminator: "0".to_string(),
        email: "a@b.c".to_string(),
        flags: 0,
        global_name: "Global".to_string(),
        id: "42".to_string(),
        linked_users: vec![],
        locale: "en-US".to_string(),
        mfa_enabled: false,
        nsfw_allowed: false,
        phone: None,
        premium_type: 0,
        public_flags: 0,
        username: "alice".to_string(),
        verified: true,
    };
    let user: GlobalUser = profile.into();
    assert_eq!(user.id, "42");
    assert_eq!(user.username, "alice");
}

#[test]
fn friend_becomes_user_with_relationship_id() {
    let friend = Friend {
        id: "7".to_string(),
        is_spam_request: false,
        nickname: Some("bobby".to_string()),
        since: "2024".to_string(),
        user: User {
            avatar: None,
            avatar_decoration_data: None,
            clan: None,
            discriminator: "0".to_string(),
            id: "8".to_string(),
            username: "bob".to_string(),
        },
    };
    let user: GlobalUser = friend.into();
    assert_eq!(user.id, "7");
    assert_eq!(user.username, "bob");
}

#[test]
fn channel_name_falls_back() {
    let named: Conversation = channel(ChannelTypes::GroupDM, Some("group"), None, vec![recipient("1", "carol", None)]).into();
    assert_eq!(named.name, "group");
    assert_eq!(named.id, "100");
    let unnamed: Conversation = channel(ChannelTypes::DM, None, None, vec![recipient("1", "carol", None)]).into();
    assert_eq!(unnamed.name, "carol");
    let nobody: Conversation = channel(ChannelTypes::DM, None, None, vec![]).into();
    assert_eq!(nobody.name, "Fix later");
}

#[test]
fn channel_icon_depends_on_kind() {
    let dm: Conversation = channel(ChannelTypes::DM, None, Some("own"), vec![recipient("1", "carol", Some("av"))]).into();
    assert_eq!(dm.icon, Some("av".to_string()));
    let dm_no_avatar: Conversation = channel(ChannelTypes::DM, None, Some("own"), vec![recipient("1", "carol", None)]).into();
    assert_eq!(dm_no_avatar.icon, None);
    let group: Conversation = channel(ChannelTypes::GroupDM, None, Some("own"), vec![recipient("1", "carol", Some("av"))]).into();
    assert_eq!(group.icon, Some("own".to_string()));
    let text: Conversation = channel(ChannelTypes::GuildText, None, Some("own"), vec![recipient("1", "carol", Some("av"))]).into();
    assert_eq!(text.icon, None);
}

#[test]
fn guild_becomes_global_guild() {
    let g: GlobalGuild = Guild { id: "9".to_string(), name: "guild".to_string(), icon: Some("h".to_string()) }.into();
    assert_eq!(g.id, "9");
    assert_eq!(g.name, "guild");
    assert_eq!(g.icon, Some("h".to_string()));
}

#[test]
fn channel_type_codes() {
    assert_eq!(ChannelTypes::from_code(0), Some(ChannelTypes::GuildText));
    assert_eq!(ChannelTypes::from_code(1), Some(ChannelTypes::DM));
    assert_eq!(ChannelTypes::from_code(3), Some(ChannelTypes::GroupDM));
    assert_eq!(ChannelTypes::from_code(12), Some(ChannelTypes::GuildMedia));
    assert_eq!(ChannelTypes::from_code(13), None);
    assert_eq!(ChannelTypes::from_code(255), None);
    for code in 0u8..=12 {
        assert_eq!(ChannelTypes::from_code(code).unwrap().code(), code);
    }
}
