use local_assistant::archivist::Archivist;
use local_assistant::conversation::Conversation;
use local_assistant::message::Message;
use local_assistant::traits::Named;

fn conversation(title: &str) -> Conversation {
    Conversation::new(title.to_string(), Message::new("system", "persona"))
}

#[test]
fn archivist_uses_the_given_directory_or_the_default() {
    assert_eq!(Archivist::new(None).storage_path(), "./message_history");
    assert_eq!(Archivist::new(Some("/tmp/history".to_string())).storage_path(), "/tmp/history");
    assert_eq!(Archivist::new(Some(String::new())).storage_path(), "");
}

#[test]
fn archivist_is_named() {
    assert_eq!(Archivist::new(None).name(), "archivist");
}

#[test]
fn file_name_replaces_spaces_and_adds_the_extension() {
    let a = Archivist::new(None);
    assert_eq!(a.file_name(&conversation("My first chat")), "My_first_chat.json");
    assert_eq!(a.file_name(&conversation("plain")), "plain.json");
    assert_eq!(a.file_name(&conversation("")), ".json");
    assert_eq!(a.file_name(&conversation("  two  ")), "__two__.json");
    assert_eq!(a.file_name(&conversation("tab\tstays")), "tab\tstays.json");
}

#[test]
fn list_keeps_the_json_entries_in_order() {
    let a = Archivist::new(None);
    let entries = vec![
        "b.json".to_string(),
        "notes.txt".to_string(),
        "a.json".to_string(),
        ".json".to_string(),
        "json".to_string(),
        "c.JSON".to_string(),
        "d.json.bak".to_string(),
    ];
    assert_eq!(a.list(&entries), vec!["b.json".to_string(), "a.json".to_string(), ".json".to_string()]);
    assert!(a.list(&[]).is_empty());
}

#[test]
fn names_with_characters_of_several_bytes() {
    let a = Archivist::new(None);
    assert_eq!(a.file_name(&conversation("café au lait")), "café_au_lait.json");
    assert_eq!(a.file_name(&conversation("日本 語")), "日本_語.json");
    // only the space itself is replaced, no other white space
    assert_eq!(a.file_name(&conversation("a\u{a0}b")), "a\u{a0}b.json");
    let entries = vec![
        "café.json".to_string(),
        "日本語".to_string(),
        "日本語.json".to_string(),
        "é".to_string(),
        "x.jsoñ".to_string(),
    ];
    assert_eq!(a.list(&entries), vec!["café.json".to_string(), "日本語.json".to_string()]);
}
