use stu::wrap::{split_by_display_width, wrap_path_with_prefix, wrap_s3_path_for_dialog,
    wrap_strict_by_char_width};
use unicode_width::UnicodeWidthStr;

#[test]
fn test_wrap_strict_by_char_width_ascii() {
    let lines = wrap_strict_by_char_width("abcdef", 3);
    assert_eq!(lines, vec!["abc", "def"]);
}

#[test]
fn test_wrap_strict_by_char_width_wide() {
    // '界' has width 2; 'A' width 1
    let s = "A世界A"; // widths: 1,2,2,1
    let lines = wrap_strict_by_char_width(s, 3);
    // Expect split like: "A世" (1+2=3), then "界A" (2+1=3)
    assert_eq!(lines, vec!["A世", "界A"]);
}

#[test]
fn test_wrap_path_with_prefix_basic() {
    let s = "s3://bucket/longsegment/short";
    let lines = wrap_path_with_prefix(s, "s3://", 12);
    // First line should start with prefix and include as much as possible
    assert!(lines[0].starts_with("s3://"));
    assert!(!lines.is_empty());
}

#[test]
fn test_wrap_path_with_prefix_long_single_segment() {
    let long_seg = "A".repeat(50);
    let s = format!("s3://bucket/{}", long_seg);
    let lines = wrap_path_with_prefix(&s, "s3://", 12);
    assert!(lines.len() >= 2);
    assert!(lines[0].starts_with("s3://"));
    // No line should exceed max display width
    for line in &lines {
        assert!(
            unicode_width::UnicodeWidthStr::width(line.as_str()) <= 12,
            "line too wide: {}",
            line
        );
    }
    // Concatenation should reconstruct the path for this case
    assert_eq!(lines.join(""), s);
}

#[test]
fn test_wrap_path_with_prefix_consecutive_slashes() {
    let s = "s3://bucket///dir//file";
    let lines = wrap_path_with_prefix(s, "s3://", 20);
    assert!(!lines.is_empty());
    // After the initial prefix, there should be no duplicate slashes
    for (i, line) in lines.iter().enumerate() {
        let check = if i == 0 {
            line.trim_start_matches("s3://")
        } else {
            line.as_str()
        };
        assert!(
            !check.contains("//"),
            "found duplicate slashes in line: {}",
            line
        );
    }
}

#[test]
fn test_wrap_path_with_prefix_long_first_segment_fill_first_line() {
    let s = "s3://this-is-a-very-long-bucket-name/file.txt";
    let max = 12usize;
    let lines = wrap_path_with_prefix(s, "s3://", max);
    assert!(!lines.is_empty());
    // Ensure first line is not just the prefix when there is remaining space
    assert!(lines[0].starts_with("s3://"));
    let prefix_w = UnicodeWidthStr::width("s3://");
    assert!(UnicodeWidthStr::width(lines[0].as_str()) > prefix_w);
    // Reconstruct
    assert_eq!(lines.join(""), s);
}

#[test]
fn test_wrap_s3_path_for_dialog_non_s3_fallback() {
    let s = "bucket/dir/世界"; // includes wide chars
    let max = 5;
    let lines = wrap_s3_path_for_dialog(s, max);
    assert!(lines.len() >= 2);
    // Ensure none exceeds max display width
    for line in &lines {
        assert!(UnicodeWidthStr::width(line.as_str()) <= max);
    }
    // Reconstruct original
    assert_eq!(lines.join(""), s);
}

#[test]
fn test_wrap_s3_path_for_dialog_fits_single_line() {
    let lines = wrap_s3_path_for_dialog("s3://bucket/key", 66);
    assert_eq!(lines, vec!["s3://bucket/key"]);
}

#[test]
fn test_wrap_path_round_trip_clean_path() {
    let s = "s3://bucket/some/deeply/nested/object-name.txt";
    let lines = wrap_s3_path_for_dialog(s, 12);
    assert_eq!(lines.join(""), s);
    for line in &lines {
        assert!(unicode_width::UnicodeWidthStr::width(line.as_str()) <= 12);
    }
}

#[test]
fn test_split_by_display_width_exact() {
    let (head, tail) = split_by_display_width("abcdef", 4);
    assert_eq!(head, "abcd");
    assert_eq!(tail, "ef");
    let (head, tail) = split_by_display_width("a世b", 2);
    assert_eq!(head, "a");
    assert_eq!(tail, "世b");
    let (head, tail) = split_by_display_width("abc", 0);
    assert_eq!(head, "");
    assert_eq!(tail, "abc");
}
