use stu::events::{KeyInput, UserEvent};
use stu::input::InputDialogState;
use stu::item::{DownloadObjectInfo, ObjectKey};
use stu::profile::{profile_input_step, ProfileStep};
use stu::text::{display_width_of_str, str_contains_sub, str_lex_lt, trim_str};

#[test]
fn test_str_contains_sub_cases() {
    assert!(str_contains_sub("file1", "file"));
    assert!(str_contains_sub("file1", ""));
    assert!(str_contains_sub("", ""));
    assert!(!str_contains_sub("file1", "file2"));
    assert!(!str_contains_sub("abc", "abcd"));
    assert!(str_contains_sub("a世界b", "世界"));
}

#[test]
fn test_str_lex_lt_orders_names() {
    assert!(str_lex_lt("abc", "abd"));
    assert!(str_lex_lt("ab", "abc"));
    assert!(!str_lex_lt("abc", "abc"));
    assert!(!str_lex_lt("b", "ab"));
    assert!(str_lex_lt("A", "a"));
}

#[test]
fn test_trim_str_matches_std() {
    assert_eq!(trim_str("  hello \t\n"), "hello");
    assert_eq!(trim_str("hello"), "hello");
    assert_eq!(trim_str("   "), "");
    assert_eq!(trim_str(" a b "), "a b");
    assert_eq!(trim_str("\u{3000}wide\u{3000}"), "wide");
}

#[test]
fn test_display_width_counts_columns() {
    assert_eq!(display_width_of_str("hello"), 5);
    assert_eq!(display_width_of_str("世界"), 4);
    assert_eq!(display_width_of_str(""), 0);
}

#[test]
fn test_input_dialog_editing() {
    let mut st = InputDialogState::new("ab".to_string());
    assert_eq!(st.input(), "ab");
    assert_eq!(st.cursor_index(), 2);
    st.handle_key_event(KeyInput::Backspace);
    assert_eq!(st.input(), "a");
    st.handle_key_event(KeyInput::Char('x'));
    st.handle_key_event(KeyInput::Home);
    st.handle_key_event(KeyInput::Char('y'));
    assert_eq!(st.input(), "yax");
    st.handle_key_event(KeyInput::Right);
    st.handle_key_event(KeyInput::Delete);
    assert_eq!(st.input(), "ya");
    st.handle_key_event(KeyInput::End);
    assert_eq!(st.cursor_index(), 2);
    st.clear_input();
    assert!(st.is_empty());
}

#[test]
fn test_object_key_with_prefix_drops_empty_segments() {
    let key = ObjectKey::with_prefix("bkt".to_string(), "a//b/c/".to_string());
    assert_eq!(key.bucket_name, "bkt");
    assert_eq!(key.object_path, vec!["a", "b", "c"]);
    let root = ObjectKey::with_prefix("bkt".to_string(), "".to_string());
    assert_eq!(root.object_path, Vec::<String>::new());
}

#[test]
fn test_joined_object_path() {
    let key = ObjectKey {
        bucket_name: "bkt".to_string(),
        object_path: vec!["a".to_string(), "b".to_string()],
    };
    assert_eq!(key.joined_object_path(false), "a/b");
    assert_eq!(key.joined_object_path(true), "bkt/a/b");
}

#[test]
fn test_total_object_size_sums() {
    let objs = vec![
        DownloadObjectInfo { key: "a".to_string(), size_byte: 1034 },
        DownloadObjectInfo { key: "b".to_string(), size_byte: 1022976 },
    ];
    assert_eq!(stu::item::total_object_size(&objs), 1024010);
    assert_eq!(stu::item::total_object_size(&Vec::new()), 0);
}

#[test]
fn test_profile_prompt_steps() {
    let mut st = InputDialogState::default();
    let cancel = profile_input_step(&mut st, &vec![UserEvent::Quit], KeyInput::Other);
    assert!(matches!(cancel, ProfileStep::Cancelled));

    let rejected = profile_input_step(&mut st, &vec![UserEvent::InputDialogApply], KeyInput::Other);
    assert!(matches!(rejected, ProfileStep::RejectedEmpty));

    let edited = profile_input_step(&mut st, &vec![], KeyInput::Char(' '));
    assert!(matches!(edited, ProfileStep::Edited));
    let edited = profile_input_step(&mut st, &vec![], KeyInput::Char('p'));
    assert!(matches!(edited, ProfileStep::Edited));

    let submitted = profile_input_step(&mut st, &vec![UserEvent::InputDialogApply], KeyInput::Other);
    match submitted {
        ProfileStep::Submitted(s) => assert_eq!(s, "p"),
        other => panic!("unexpected step: {:?}", other),
    }

    // cancel wins over apply in one batch
    let both = profile_input_step(
        &mut st,
        &vec![UserEvent::InputDialogApply, UserEvent::InputDialogClose],
        KeyInput::Other,
    );
    assert!(matches!(both, ProfileStep::Cancelled));
}
