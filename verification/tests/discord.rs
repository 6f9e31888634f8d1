use record::chat::{chat_text, conversation_image_path, guild_image_path, Main, Message};
use record::discord::{channel_icon, contacts_from_friends, conversations_from_channels, guild_icon, guilds_from_json, Discord};
use record::json_structs::{Channel, ChannelTypes, Friend, Guild, Recipient, User};
use record::secure::secure_string_from;
use record::types::{Conversation, Guild as GlobalGuild};

fn recipient(id: &str, avatar: Option<&str>) -> Recipient {
    Recipient {
        avatar: avatar.map(|a| a.to_string()),
        avatar_decoration_data: None,
        clan: None,
        discriminator: "0".to_string(),
        global_name: None,
        id: id.to_string(),
        public_flags: 0,
        username: "dave".to_string(),
    }
}

fn channel(id: &str, ty: ChannelTypes, icon: Option<&str>, recipients: Vec<Recipient>) -> Channel {
    Channel {
        id: id.to_string(),
        channel_type: ty,
        flags: 0,
        icon: icon.map(|i| i.to_string()),
        last_message_id: None,
        name: None,
        recipients,
    }
}

#[test]
fn auth_header_holds_token() {
    let client = Discord { token: secure_string_from("abc.def".to_string()) };
    assert_eq!(client.get_auth_header(), vec![("Authorization", "abc.def".to_string())]);
}

#[test]
fn channel_icon_prefers_own_icon() {
    let d = channel_icon(&channel("55", ChannelTypes::GroupDM, Some("hash"), vec![])).unwrap();
    assert_eq!(d.url, "https://cdn.discordapp.com/channel-icons/55/hash.png");
    assert_eq!(d.dir, "./cache/discord/channels/imgs/");
    assert_eq!(d.file_name, "55.png");
}

#[test]
fn channel_icon_else_recipient_avatar() {
    let d = channel_icon(&channel("55", ChannelTypes::DM, None, vec![recipient("66", Some("av"))])).unwrap();
    assert_eq!(d.url, "https://cdn.discordapp.com/avatars/66/av.png");
    assert_eq!(d.file_name, "55.png");
    assert!(channel_icon(&channel("55", ChannelTypes::DM, None, vec![recipient("66", None)])).is_none());
}

#[test]
fn guild_icon_urls() {
    let d = guild_icon(&Guild { id: "9".to_string(), name: "g".to_string(), icon: Some("ic".to_string()) }).unwrap();
    assert_eq!(d.url, "https://cdn.discordapp.com/icons/9/ic.png");
    assert_eq!(d.dir, "./cache/discord/guilds/imgs/");
    assert_eq!(d.file_name, "9.png");
    assert!(guild_icon(&Guild { id: "9".to_string(), name: "g".to_string(), icon: None }).is_none());
}

#[test]
fn lists_keep_order() {
    let friends = vec![
        Friend {
            id: "1".to_string(),
            is_spam_request: false,
            nickname: None,
            since: "s".to_string(),
            user: User { avatar: None, avatar_decoration_data: None, clan: None, discriminator: "0".to_string(), id: "u1".to_string(), username: "a".to_string() },
        },
        Friend {
            id: "2".to_string(),
            is_spam_request: false,
            nickname: None,
            since: "s".to_string(),
            user: User { avatar: None, avatar_decoration_data: None, clan: None, discriminator: "0".to_string(), id: "u2".to_string(), username: "b".to_string() },
        },
    ];
    let users = contacts_from_friends(friends);
    assert_eq!(users.len(), 2);
    assert_eq!((users[0].id.as_str(), users[0].username.as_str()), ("1", "a"));
    assert_eq!((users[1].id.as_str(), users[1].username.as_str()), ("2", "b"));

    let convs = conversations_from_channels(vec![
        channel("c1", ChannelTypes::DM, None, vec![recipient("r", Some("av"))]),
        channel("c2", ChannelTypes::GuildText, None, vec![]),
    ]);
    assert_eq!(convs.len(), 2);
    assert_eq!(convs[0].id, "c1");
    assert_eq!(convs[0].icon, Some("av".to_string()));
    assert_eq!(convs[1].name, "Fix later");

    let guilds = guilds_from_json(vec![Guild { id: "g".to_string(), name: "n".to_string(), icon: None }]);
    assert_eq!(guilds.len(), 1);
    assert_eq!(guilds[0].name, "n");
    assert!(contacts_from_friends(vec![]).is_empty());
}

#[test]
fn chat_update_follows_message() {
    let mut main = Main::Contacts;
    main.update(Message::OpenConversation("c9".to_string()));
    assert!(matches!(&main, Main::Chat(id) if id == "c9"));
    main.update(Message::OpenContacts);
    assert!(matches!(main, Main::Contacts));
}

#[test]
fn image_paths() {
    let g = GlobalGuild { id: "9".to_string(), name: "n".to_string(), icon: Some("x".to_string()) };
    assert_eq!(guild_image_path(&g), "./cache/discord/guilds/imgs/9.png");
    let g2 = GlobalGuild { id: "9".to_string(), name: "n".to_string(), icon: None };
    assert_eq!(guild_image_path(&g2), "./public/imgs/default_placeholder.png");
    let c = Conversation { id: "5".to_string(), name: "n".to_string(), icon: Some("x".to_string()) };
    assert_eq!(conversation_image_path(&c), "./cache/discord/channels/imgs/5.png");
    let c2 = Conversation { id: "5".to_string(), name: "n".to_string(), icon: None };
    assert_eq!(conversation_image_path(&c2), "./public/imgs/default_placeholder.png");
}

#[test]
fn shown_image_is_downloaded_file() {
    let ch = channel("77", ChannelTypes::GroupDM, Some("h"), vec![]);
    let d = channel_icon(&ch).unwrap();
    let conv: Conversation = ch.into();
    assert_eq!(conversation_image_path(&conv), format!("{}{}", d.dir, d.file_name));
}

#[test]
fn chat_follows_last_message() {
    let mut main = Main::Contacts;
    let messages = vec![
        Message::OpenConversation("a".to_string()),
        Message::OpenContacts,
        Message::OpenConversation("b".to_string()),
    ];
    for m in messages {
        main.update(m);
    }
    assert!(matches!(&main, Main::Chat(id) if id == "b"));
    main.update(Message::OpenConversation("c".to_string()));
    main.update(Message::OpenContacts);
    assert!(matches!(main, Main::Contacts));
}

#[test]
fn chat_text_defaults() {
    let text = "hello".to_string();
    assert_eq!(chat_text(Some(&text)), "hello");
    assert_eq!(chat_text(None), "test");
}
