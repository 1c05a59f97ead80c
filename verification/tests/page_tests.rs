use stu::dialog::ConfirmDialogState;
use stu::events::{AppEventType, KeyInput, UserEvent};
use stu::item::{DownloadObjectInfo, ObjectItem, ObjectKey};
use stu::page::{ObjectListPage, ViewState};

fn parse_datetime(s: &str) -> i64 {
    chrono::NaiveDateTime::parse_from_str(s, "%Y-%m-%d %H:%M:%S")
        .unwrap()
        .and_utc()
        .timestamp()
}

fn object_dir_item(name: &str) -> ObjectItem {
    ObjectItem::Dir {
        name: name.to_string(),
        key: "".to_string(),
        s3_uri: "".to_string(),
        object_url: "".to_string(),
    }
}

fn object_file_item(name: &str, size_byte: usize, last_modified: &str) -> ObjectItem {
    ObjectItem::File {
        name: name.to_string(),
        size_byte,
        last_modified: parse_datetime(last_modified),
        key: "".to_string(),
        s3_uri: "".to_string(),
        arn: "".to_string(),
        object_url: "".to_string(),
        e_tag: "".to_string(),
    }
}

fn test_object_key() -> ObjectKey {
    ObjectKey {
        bucket_name: "test-bucket".to_string(),
        object_path: vec!["path".to_string(), "to".to_string()],
    }
}

fn five_items() -> Vec<ObjectItem> {
    vec![
        object_dir_item("rid"),
        object_file_item("file", 1024, "2024-01-02 13:01:02"),
        object_dir_item("dir"),
        object_file_item("xyz", 1024 * 1024, "2023-12-31 23:59:59"),
        object_file_item("abc", 0, "-2000-01-01 00:00:00"),
    ]
}

#[test]
fn test_sort_items() {
    let mut page = ObjectListPage::new(five_items(), test_object_key());

    page.handle_key(vec![UserEvent::ObjectListSort], KeyInput::Other);
    // select NameAsc
    page.handle_key(vec![UserEvent::SelectDialogDown], KeyInput::Other);
    assert_eq!(page.view_indices, vec![4, 2, 1, 0, 3]);

    // select NameDesc
    page.handle_key(vec![UserEvent::SelectDialogDown], KeyInput::Other);
    assert_eq!(page.view_indices, vec![3, 0, 1, 2, 4]);

    // select LastModifiedAsc
    page.handle_key(vec![UserEvent::SelectDialogDown], KeyInput::Other);
    assert_eq!(page.view_indices, vec![0, 2, 4, 3, 1]);

    // select LastModifiedDesc
    page.handle_key(vec![UserEvent::SelectDialogDown], KeyInput::Other);
    assert_eq!(page.view_indices, vec![1, 3, 4, 0, 2]);

    // select SizeAsc
    page.handle_key(vec![UserEvent::SelectDialogDown], KeyInput::Other);
    assert_eq!(page.view_indices, vec![0, 2, 4, 1, 3]);

    // select SizeDesc
    page.handle_key(vec![UserEvent::SelectDialogDown], KeyInput::Other);
    assert_eq!(page.view_indices, vec![3, 1, 4, 0, 2]);
}

#[test]
fn test_sort_is_idempotent_for_every_key() {
    // applying the same sort twice yields the same ordering as once
    let mut page = ObjectListPage::new(five_items(), test_object_key());
    page.handle_key(vec![UserEvent::ObjectListSort], KeyInput::Other);
    for _ in 0..6 {
        page.handle_key(vec![UserEvent::SelectDialogDown], KeyInput::Other);
        let once = page.view_indices.clone();
        page.sort_view_indices();
        assert_eq!(page.view_indices, once);
    }
}

#[test]
fn test_sort_name_desc_reverses_name_asc_without_ties() {
    let mut page = ObjectListPage::new(five_items(), test_object_key());
    page.handle_key(vec![UserEvent::ObjectListSort], KeyInput::Other);
    page.handle_key(vec![UserEvent::SelectDialogDown], KeyInput::Other);
    let mut asc = page.view_indices.clone();
    page.handle_key(vec![UserEvent::SelectDialogDown], KeyInput::Other);
    let desc = page.view_indices.clone();
    asc.reverse();
    assert_eq!(desc, asc);
}

fn type_str(page: &mut ObjectListPage, s: &str) {
    for c in s.chars() {
        page.handle_key(vec![], KeyInput::Char(c));
    }
}

#[test]
fn test_filter_projection_scenario() {
    // item set = [dir "dir1", dir "dir2", file "file1" 1034B, file "file2" 1022976B]
    let items = vec![
        object_dir_item("dir1"),
        object_dir_item("dir2"),
        object_file_item("file1", 1034, "2024-01-02 13:01:02"),
        object_file_item("file2", 1022976, "2023-12-31 09:00:00"),
    ];
    let mut page = ObjectListPage::new(items, test_object_key());
    assert_eq!(page.view_indices, vec![0, 1, 2, 3]);

    page.handle_key(vec![UserEvent::ObjectListFilter], KeyInput::Other);
    type_str(&mut page, "file");
    // filtering by "file" yields a 2-item projection in original order
    assert_eq!(page.view_indices, vec![2, 3]);

    page.handle_key(vec![UserEvent::InputDialogApply], KeyInput::Other);
    // default sort on that projection leaves it unchanged
    assert_eq!(page.view_indices, vec![2, 3]);
    let listed = page.object_list();
    assert_eq!(listed.len(), 2);
    assert_eq!(listed[0].name(), "file1");
    assert_eq!(listed[1].name(), "file2");
}

#[test]
fn test_filter_keeps_only_matches() {
    let mut page = ObjectListPage::new(five_items(), test_object_key());
    page.handle_key(vec![UserEvent::ObjectListFilter], KeyInput::Other);
    type_str(&mut page, "id");
    // only "rid" contains "id"
    assert_eq!(page.view_indices, vec![0]);
    type_str(&mut page, "zzz");
    assert_eq!(page.view_indices, Vec::<usize>::new());
}

#[test]
fn test_filter_resets_cursor_sort_does_not() {
    let mut page = ObjectListPage::new(five_items(), test_object_key());
    page.handle_key(vec![UserEvent::ObjectListDown], KeyInput::Other);
    page.handle_key(vec![UserEvent::ObjectListDown], KeyInput::Other);
    assert_eq!(page.list_state().selected, 2);

    // changing only the sort key never resets the cursor
    page.handle_key(vec![UserEvent::ObjectListSort], KeyInput::Other);
    page.handle_key(vec![UserEvent::SelectDialogDown], KeyInput::Other);
    page.handle_key(vec![UserEvent::SelectDialogSelect], KeyInput::Other);
    assert_eq!(page.list_state().selected, 2);
    assert_eq!(page.list_state().offset, 0);

    // changing the filter always resets selected and offset to 0
    page.handle_key(vec![UserEvent::ObjectListFilter], KeyInput::Other);
    page.handle_key(vec![], KeyInput::Char('x'));
    assert_eq!(page.list_state().selected, 0);
    assert_eq!(page.list_state().offset, 0);
}

#[test]
fn test_close_filter_dialog_clears_filter() {
    let mut page = ObjectListPage::new(five_items(), test_object_key());
    page.handle_key(vec![UserEvent::ObjectListFilter], KeyInput::Other);
    type_str(&mut page, "abc");
    assert_eq!(page.view_indices, vec![4]);
    page.handle_key(vec![UserEvent::InputDialogClose], KeyInput::Other);
    // the narrowing is reverted, not just hidden
    assert_eq!(page.view_indices, vec![0, 1, 2, 3, 4]);
    assert!(matches!(page.view_state, ViewState::Default));
}

#[test]
fn test_download_confirm_cancel_emits_nothing() {
    let mut page = ObjectListPage::new(five_items(), test_object_key());
    let _ = page.take_events();
    let objs = vec![DownloadObjectInfo { key: "path/to/file".to_string(), size_byte: 10 }];
    page.open_download_confirm_dialog(objs, false);
    // toggle starts on "cancel"; confirming must close and emit no request
    page.handle_key(vec![UserEvent::SelectDialogSelect], KeyInput::Other);
    assert!(matches!(page.view_state, ViewState::Default));
    assert_eq!(page.take_events().len(), 0);
}

#[test]
fn test_download_confirm_ok_emits_bulk_request() {
    let mut page = ObjectListPage::new(five_items(), test_object_key());
    let _ = page.take_events();
    let objs = vec![
        DownloadObjectInfo { key: "a".to_string(), size_byte: 10 },
        DownloadObjectInfo { key: "b".to_string(), size_byte: 20 },
    ];
    page.open_download_confirm_dialog(objs, false);
    page.handle_key(vec![UserEvent::SelectDialogLeft], KeyInput::Other);
    page.handle_key(vec![UserEvent::SelectDialogSelect], KeyInput::Other);
    assert!(matches!(page.view_state, ViewState::Default));
    let events = page.take_events();
    assert_eq!(events.len(), 1);
    match &events[0] {
        AppEventType::DownloadObjects(bucket, key, dir, objs) => {
            assert_eq!(bucket, "test-bucket");
            assert_eq!(key.object_path, vec!["path", "to", "rid"]);
            assert_eq!(dir, "rid");
            assert_eq!(objs.len(), 2);
        }
        other => panic!("unexpected event: {:?}", other),
    }
}

#[test]
fn test_paste_confirm_cancel_discards_spec() {
    let mut page = ObjectListPage::new(five_items(), test_object_key());
    let _ = page.take_events();
    let spec = stu::item::PasteSpec {
        src_bucket: "b1".to_string(),
        src_key: "k1".to_string(),
        dst_bucket: "b2".to_string(),
        dst_key: "k2".to_string(),
    };
    page.open_paste_confirm_dialog(spec);
    page.handle_key(vec![UserEvent::SelectDialogSelect], KeyInput::Other);
    assert!(matches!(page.view_state, ViewState::Default));
    assert_eq!(page.take_events().len(), 0);
}

#[test]
fn test_paste_confirm_ok_emits_copy_request() {
    let mut page = ObjectListPage::new(five_items(), test_object_key());
    let _ = page.take_events();
    let spec = stu::item::PasteSpec {
        src_bucket: "b1".to_string(),
        src_key: "k1".to_string(),
        dst_bucket: "b2".to_string(),
        dst_key: "k2".to_string(),
    };
    page.open_paste_confirm_dialog(spec);
    page.handle_key(vec![UserEvent::SelectDialogRight], KeyInput::Other);
    page.handle_key(vec![UserEvent::SelectDialogSelect], KeyInput::Other);
    let events = page.take_events();
    assert_eq!(events.len(), 1);
    match &events[0] {
        AppEventType::PasteObject(p) => {
            assert_eq!(p.src_bucket, "b1");
            assert_eq!(p.dst_key, "k2");
        }
        other => panic!("unexpected event: {:?}", other),
    }
}

#[test]
fn test_download_file_starts_at_once() {
    let mut page = ObjectListPage::new(five_items(), test_object_key());
    let _ = page.take_events();
    page.handle_key(vec![UserEvent::ObjectListDown], KeyInput::Other);
    page.handle_key(vec![UserEvent::ObjectListDownloadObject], KeyInput::Other);
    let events = page.take_events();
    assert_eq!(events.len(), 1);
    match &events[0] {
        AppEventType::StartDownloadObject(key, name, size, version) => {
            assert_eq!(key.object_path, vec!["path", "to", "file"]);
            assert_eq!(name, "file");
            assert_eq!(*size, 1024);
            assert!(version.is_none());
        }
        other => panic!("unexpected event: {:?}", other),
    }
}

#[test]
fn test_download_directory_enumerates_first() {
    let mut page = ObjectListPage::new(five_items(), test_object_key());
    let _ = page.take_events();
    page.handle_key(vec![UserEvent::ObjectListDownloadObject], KeyInput::Other);
    let events = page.take_events();
    assert_eq!(events.len(), 1);
    match &events[0] {
        AppEventType::StartLoadAllDownloadObjectList(key, download_as) => {
            assert_eq!(key.object_path, vec!["path", "to", "rid"]);
            assert!(!download_as);
        }
        other => panic!("unexpected event: {:?}", other),
    }
}

#[test]
fn test_save_dialog_rejects_blank_name() {
    let mut page = ObjectListPage::new(five_items(), test_object_key());
    let _ = page.take_events();
    page.handle_key(vec![UserEvent::ObjectListDown], KeyInput::Other);
    page.handle_key(vec![UserEvent::ObjectListDownloadObjectAs], KeyInput::Other);
    assert!(matches!(page.view_state, ViewState::SaveDialog(_, _)));
    // blank the carried file name, then try to apply
    for _ in 0..4 {
        page.handle_key(vec![], KeyInput::Backspace);
    }
    page.handle_key(vec![], KeyInput::Char(' '));
    page.handle_key(vec![UserEvent::InputDialogApply], KeyInput::Other);
    // validation failure stays local: still in the dialog, nothing emitted
    assert!(matches!(page.view_state, ViewState::SaveDialog(_, _)));
    assert_eq!(page.take_events().len(), 0);
}

#[test]
fn test_save_dialog_renames_download() {
    let mut page = ObjectListPage::new(five_items(), test_object_key());
    let _ = page.take_events();
    page.handle_key(vec![UserEvent::ObjectListDown], KeyInput::Other);
    page.handle_key(vec![UserEvent::ObjectListDownloadObjectAs], KeyInput::Other);
    type_str(&mut page, "-copy");
    page.handle_key(vec![UserEvent::InputDialogApply], KeyInput::Other);
    assert!(matches!(page.view_state, ViewState::Default));
    let events = page.take_events();
    assert_eq!(events.len(), 1);
    match &events[0] {
        AppEventType::StartDownloadObjectAs(key, size, name, version) => {
            assert_eq!(key.object_path, vec!["path", "to", "file"]);
            assert_eq!(*size, 1024);
            assert_eq!(name, "file-copy");
            assert!(version.is_none());
        }
        other => panic!("unexpected event: {:?}", other),
    }
}

#[test]
fn test_go_to_path_apply_splits_segments() {
    let mut page = ObjectListPage::new(five_items(), test_object_key());
    let _ = page.take_events();
    page.handle_key(vec![UserEvent::ObjectListGoToPath], KeyInput::Other);
    // the dialog starts with the current path
    page.handle_key(vec![], KeyInput::Char('/'));
    type_str(&mut page, "deep//dir/ ");
    page.handle_key(vec![UserEvent::InputDialogApply], KeyInput::Other);
    let events = page.take_events();
    assert_eq!(events.len(), 1);
    match &events[0] {
        AppEventType::GoToPath(key) => {
            assert_eq!(key.bucket_name, "test-bucket");
            // empty segments are dropped and the input is trimmed
            assert_eq!(key.object_path, vec!["path", "to", "deep", "dir"]);
        }
        other => panic!("unexpected event: {:?}", other),
    }
}

#[test]
fn test_copy_detail_dialog_copies_selected_value() {
    let items = vec![ObjectItem::File {
        name: "file1".to_string(),
        size_byte: 1,
        last_modified: 0,
        key: "path/to/file1".to_string(),
        s3_uri: "s3://test-bucket/path/to/file1".to_string(),
        arn: "arn:aws:s3:::test-bucket/path/to/file1".to_string(),
        object_url: "https://test-bucket.example/path/to/file1".to_string(),
        e_tag: "abc123".to_string(),
    }];
    let mut page = ObjectListPage::new(items, test_object_key());
    let _ = page.take_events();
    page.handle_key(vec![UserEvent::ObjectListCopyDetails], KeyInput::Other);
    page.handle_key(vec![UserEvent::SelectDialogDown], KeyInput::Other);
    page.handle_key(vec![UserEvent::SelectDialogSelect], KeyInput::Other);
    let events = page.take_events();
    assert_eq!(events.len(), 1);
    match &events[0] {
        AppEventType::CopyToClipboard(name, value) => {
            assert_eq!(name, "S3 URI");
            assert_eq!(value, "s3://test-bucket/path/to/file1");
        }
        other => panic!("unexpected event: {:?}", other),
    }
}

#[test]
fn test_cursor_clamps_and_pages() {
    let items: Vec<ObjectItem> = (0..32)
        .map(|i| object_file_item(&format!("file{}", i + 1), 1024, "2024-01-02 13:01:02"))
        .collect();
    let mut page = ObjectListPage::new(items, test_object_key());
    page.update_list_height(8);
    page.handle_key(vec![UserEvent::ObjectListUp], KeyInput::Other);
    assert_eq!(page.list_state().selected, 0);
    page.handle_key(vec![UserEvent::ObjectListPageDown], KeyInput::Other);
    assert_eq!(page.list_state().selected, 8);
    assert_eq!(page.list_state().offset, 1);
    page.handle_key(vec![UserEvent::ObjectListGoToBottom], KeyInput::Other);
    assert_eq!(page.list_state().selected, 31);
    assert_eq!(page.list_state().offset, 24);
    page.handle_key(vec![UserEvent::ObjectListDown], KeyInput::Other);
    assert_eq!(page.list_state().selected, 31);
    page.handle_key(vec![UserEvent::ObjectListGoToTop], KeyInput::Other);
    assert_eq!(page.list_state().selected, 0);
    assert_eq!(page.list_state().offset, 0);
}

#[test]
fn test_empty_projection_moves_are_noops() {
    let mut page = ObjectListPage::new(Vec::new(), test_object_key());
    let _ = page.take_events();
    // guarded events are not recognized on an empty list
    page.handle_key(vec![UserEvent::ObjectListDown], KeyInput::Other);
    page.handle_key(vec![UserEvent::ObjectListDownloadObject], KeyInput::Other);
    assert_eq!(page.list_state().selected, 0);
    assert_eq!(page.take_events().len(), 0);
}

#[test]
fn test_confirm_dialog_toggle_defaults_to_cancel() {
    let mut st = ConfirmDialogState::default();
    assert!(!st.is_ok());
    st.toggle();
    assert!(st.is_ok());
    st.toggle();
    assert!(!st.is_ok());
}

#[test]
fn test_unrecognized_events_are_ignored_by_strict_dialogs() {
    let mut page = ObjectListPage::new(five_items(), test_object_key());
    let _ = page.take_events();
    page.handle_key(vec![UserEvent::ObjectListSort], KeyInput::Other);
    // a text-input event means nothing to the sort dialog
    page.handle_key(vec![UserEvent::InputDialogApply], KeyInput::Char('x'));
    assert!(matches!(page.view_state, ViewState::SortDialog));
    assert_eq!(page.view_indices, vec![0, 1, 2, 3, 4]);
    assert_eq!(page.take_events().len(), 0);
}

#[test]
fn test_navigation_events_are_forwarded() {
    let mut page = ObjectListPage::new(five_items(), test_object_key());
    let _ = page.take_events();
    page.handle_key(vec![UserEvent::ObjectListSelect], KeyInput::Other);
    page.handle_key(vec![UserEvent::ObjectListBack], KeyInput::Other);
    page.handle_key(vec![UserEvent::ObjectListBucketList], KeyInput::Other);
    let events = page.take_events();
    assert_eq!(events.len(), 3);
    assert!(matches!(events[0], AppEventType::ObjectListMoveDown));
    assert!(matches!(events[1], AppEventType::ObjectListMoveUp));
    assert!(matches!(events[2], AppEventType::BackToBucketList));
}

#[test]
fn test_helps_follow_active_dialog() {
    let mut page = ObjectListPage::new(five_items(), test_object_key());
    assert_eq!(page.helps().len(), 20);
    assert_eq!(page.short_helps().len(), 12);
    page.handle_key(vec![UserEvent::ObjectListFilter], KeyInput::Other);
    type_str(&mut page, "f");
    page.handle_key(vec![UserEvent::InputDialogApply], KeyInput::Other);
    // with a filter loaded the help gains the clear-filter row
    assert_eq!(page.helps().len(), 21);
    assert_eq!(page.helps()[1].description, "Clear filter");
}
