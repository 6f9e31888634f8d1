use record::auth::{file_after_removal, Auth, AuthStore, Platform};
use strum::ParseError;
use record::secure::{secure_string_from, unsecure_copy};

fn lines(ls: &[&str]) -> Vec<String> {
    ls.iter().map(|l| l.to_string()).collect()
}

fn token_of(auth: &Auth) -> String {
    unsecure_copy(&auth.token)
}

#[test]
fn platform_names_match_exactly() {
    assert_eq!(Platform::from_str("Discord"), Ok(Platform::Discord));
    assert_eq!(Platform::from_str("Unkown"), Ok(Platform::Unkown));
    assert_eq!(Platform::from_str("discord"), Err(ParseError::VariantNotFound));
    assert_eq!(Platform::from_str("Unknown"), Err(ParseError::VariantNotFound));
    assert_eq!(Platform::from_str(""), Err(ParseError::VariantNotFound));
    assert_eq!("Discord".parse::<Platform>(), Ok(Platform::Discord));
    assert_eq!("Slack".parse::<Platform>(), Err(ParseError::VariantNotFound));
    assert_eq!(Platform::Discord.name(), "Discord");
    assert_eq!(Platform::Unkown.name(), "Unkown");
}

#[test]
fn line_splits_at_first_colon() {
    let auth = Auth::from_line("Discord:abc:def").unwrap();
    assert_eq!(auth.platform, Platform::Discord);
    assert_eq!(token_of(&auth), "abc:def");
    let empty = Auth::from_line("Unkown:").unwrap();
    assert_eq!(empty.platform, Platform::Unkown);
    assert_eq!(token_of(&empty), "");
    assert!(Auth::from_line("no colon here").is_none());
    assert!(Auth::from_line("").is_none());
}

#[test]
fn auth_line_format() {
    let auth = Auth { platform: Platform::Discord, token: secure_string_from("t0k:en".to_string()) };
    assert_eq!(auth.to_string(), "Discord:t0k:en");
    let back = Auth::from_line(&auth.to_string()).unwrap();
    assert_eq!(back.platform, Platform::Discord);
    assert_eq!(token_of(&back), "t0k:en");
}

#[test]
fn store_skips_lines_without_colon() {
    let store = AuthStore::new(&lines(&["Discord:one", "garbage", "Unkown:two", ""]));
    assert_eq!(store.len(), 2);
    assert!(!store.is_empty());
    assert_eq!(store.get(0).platform, Platform::Discord);
    assert_eq!(token_of(store.get(0)), "one");
    assert_eq!(store.get(1).platform, Platform::Unkown);
    assert_eq!(token_of(store.get(1)), "two");
}

#[test]
fn empty_file_gives_empty_store() {
    let store = AuthStore::new(&Vec::new());
    assert!(store.is_empty());
    assert_eq!(store.len(), 0);
}

#[test]
fn add_appends_and_gives_line() {
    let mut store = AuthStore::new(&lines(&["Discord:one"]));
    let appended = store.add(Platform::Discord, "two".to_string());
    assert_eq!(appended, "Discord:two\n");
    assert_eq!(store.len(), 2);
    assert_eq!(token_of(store.get(1)), "two");
}

#[test]
fn reload_after_add_gives_same_store() {
    let mut file = lines(&["Discord:one", "x"]);
    let mut store = AuthStore::new(&file);
    let appended = store.add(Platform::Unkown, "a:b".to_string());
    file.push(appended.trim_end_matches('\n').to_string());
    let reloaded = AuthStore::new(&file);
    assert_eq!(reloaded.len(), store.len());
    for i in 0..store.len() {
        assert_eq!(reloaded.get(i).platform, store.get(i).platform);
        assert_eq!(token_of(reloaded.get(i)), token_of(store.get(i)));
    }
}

#[test]
fn remove_takes_out_one() {
    let mut store = AuthStore::new(&lines(&["Discord:one", "Discord:two", "Unkown:three"]));
    store.remove(1);
    assert_eq!(store.len(), 2);
    assert_eq!(token_of(store.get(0)), "one");
    assert_eq!(token_of(store.get(1)), "three");
}

#[test]
fn file_after_removal_keeps_other_lines() {
    let file = lines(&["Discord:one", "Discord:two", "Unkown:three"]);
    assert_eq!(file_after_removal(&file, 1), "Discord:one\nUnkown:three\n");
    assert_eq!(file_after_removal(&file, 0), "Discord:two\nUnkown:three\n");
    assert_eq!(file_after_removal(&lines(&["only"]), 0), "");
}

#[test]
fn reload_after_remove_matches_store() {
    let file = lines(&["Discord:one", "Discord:two", "Unkown:three"]);
    let mut store = AuthStore::new(&file);
    store.remove(0);
    let text = file_after_removal(&file, 0);
    let reloaded = AuthStore::new(&text.lines().map(|l| l.to_string()).collect());
    assert_eq!(reloaded.len(), store.len());
    for i in 0..store.len() {
        assert_eq!(token_of(reloaded.get(i)), token_of(store.get(i)));
    }
}

#[test]
fn iter_mut_changes_in_place() {
    let mut store = AuthStore::new(&lines(&["Discord:one", "Discord:two"]));
    for auth in store.iter_mut() {
        auth.platform = Platform::Unkown;
    }
    assert_eq!(store.get(0).platform, Platform::Unkown);
    assert_eq!(store.get(1).platform, Platform::Unkown);
}

#[test]
fn messanger_carries_token() {
    let auth = Auth::from_line("Discord:secret").unwrap();
    let client = auth.get_messanger();
    let header = client.get_auth_header();
    assert_eq!(header, vec![("Authorization", "secret".to_string())]);
}

#[test]
fn secure_string_keeps_text() {
    let s = secure_string_from("päss wörd ✓".to_string());
    assert_eq!(unsecure_copy(&s), "päss wörd ✓");
    assert_eq!(unsecure_copy(&s), "päss wörd ✓");
}
