use codex_driver::changes::{FileChange, FileChangeEntry, FileChanges};
use codex_driver::path::FilePath;
use codex_driver::protocol::CallDuration;
use codex_driver::text::{
    decimal_text, is_white_space, number_option_text, quoted_list_text, quoted_option_text,
    same_text, signed_decimal_text, strip_prefix, text_or_none_text, trim, trim_start, truth_text,
};
use std::path::PathBuf;

#[test]
fn white_space_is_that_of_std() {
    for code in 0..=0x10ffff {
        if let Some(c) = char::from_u32(code) {
            assert_eq!(is_white_space(c), c.is_whitespace(), "{code:x}");
        }
    }
}

#[test]
fn trimming_is_that_of_std() {
    for text in [
        "",
        " ",
        "a",
        "  a b  ",
        "\t\u{3000}wide\u{a0}\n",
        "\r\n\r\n",
        "\u{feff}mark",
        "\u{85}next\u{2028}",
        "\u{200b}zero\u{200b}",
        "\u{e9}t\u{e9} \u{1f980} ",
    ] {
        assert_eq!(trim(text), text.trim());
        assert_eq!(trim_start(text), text.trim_start());
        assert_eq!(trim(trim(text)), trim(text));
    }
}

#[test]
fn prefixes_are_stripped_once() {
    assert_eq!(strip_prefix("resume x", "resume"), Some(" x"));
    assert_eq!(strip_prefix("resume", "resume"), Some(""));
    assert_eq!(strip_prefix("resum", "resume"), None);
    assert_eq!(strip_prefix("Resume", "resume"), None);
    assert_eq!(strip_prefix("::a", ":"), Some(":a"));
    assert_eq!(strip_prefix("a", ""), Some("a"));
    assert_eq!(strip_prefix("\u{e9}a", "\u{e9}"), Some("a"));
}

#[test]
fn texts_are_compared_by_character() {
    assert!(same_text("", ""));
    assert!(same_text("quit", "quit"));
    assert!(!same_text("quit", "quit "));
    assert!(!same_text("quit ", "quit"));
    assert!(!same_text("quiT", "quit"));
}

#[test]
fn numbers_are_written_in_decimal() {
    for n in [0, 1, 9, 10, 19, 100, 1234567890, u64::MAX] {
        assert_eq!(decimal_text(n), n.to_string());
    }
    assert_eq!(decimal_text(18446744073709551615), "18446744073709551615");
    for i in [0, 1, -1, 127, -128, i32::MAX, i32::MIN] {
        assert_eq!(signed_decimal_text(i), i.to_string());
    }
    assert_eq!(signed_decimal_text(-2147483648), "-2147483648");
}

#[test]
fn options_are_written_as_std_writes_them() {
    assert_eq!(number_option_text(Some(-3)), "Some(-3)");
    assert_eq!(number_option_text(None), "None");
    for text in [None, Some(String::new()), Some("a \"b\"\n\u{7f}".to_string())] {
        assert_eq!(quoted_option_text(&text), format!("{:?}", text));
    }
    assert_eq!(text_or_none_text(&None), "<none>");
    assert_eq!(text_or_none_text(&Some("why".to_string())), "why");
    assert_eq!(truth_text(true), "true");
    assert_eq!(truth_text(false), "false");
}

#[test]
fn lists_are_written_as_std_writes_them() {
    for items in [
        Vec::new(),
        vec!["ls".to_string()],
        vec!["sh".to_string(), "-c".to_string(), "echo \"\\\" 'x'\t\u{e9}".to_string()],
    ] {
        assert_eq!(quoted_list_text(&items), format!("{:?}", items));
    }
    assert_eq!(quoted_list_text(&vec!["a".to_string(), "b".to_string()]), "[\"a\", \"b\"]");
}

#[test]
fn paths_show_as_they_were_written() {
    let path = FilePath::from_text("/tmp/\u{e9}");
    assert_eq!(path.bytes, "/tmp/\u{e9}".as_bytes());
    assert_eq!(path.display(), "/tmp/\u{e9}");
}

#[test]
fn paths_that_are_no_text_show_with_a_mark() {
    let path = FilePath { bytes: b"/tmp/\xff".to_vec() };
    assert_eq!(path.display(), "/tmp/\u{fffd}");
    assert!(path.same(&path.clone()));
    assert!(!path.same(&FilePath::from_text("/tmp/\u{fffd}")));
}

#[test]
fn paths_are_compared_as_std_compares_them() {
    let spellings = [
        "", ".", "./", "..", "/", "//", "/.", "/..", "a", "a/", "a/.", "./a", ".//a", "/a", "//a",
        "/./a", "a/b", "a//b", "a/./b", "a/b/", "a/b/.", "./a/b", "a/../b", "a/..", "a.b", "a/.b",
        "a/b.", "...", "a/...", "././a", "./.", "A", "a b", "\u{e9}/b", "\u{e9}//b",
    ];
    for one in spellings {
        for other in spellings {
            assert_eq!(
                FilePath::from_text(one) == FilePath::from_text(other),
                PathBuf::from(one) == PathBuf::from(other),
                "{one:?} {other:?}"
            );
        }
    }
    assert_eq!(
        FilePath::from_text("/a//./b/").components(),
        vec![b"/".to_vec(), b"a".to_vec(), b"b".to_vec()]
    );
    assert_eq!(FilePath::from_text("./a").components(), vec![b".".to_vec(), b"a".to_vec()]);
}

#[test]
fn durations_keep_their_parts() {
    let d = CallDuration::from_millis(12_345);
    assert_eq!((d.secs(), d.nanos()), (12, 345_000_000));
    assert_eq!(CallDuration::new(12, 345_000_000), d);
    assert_eq!(CallDuration::from_millis(u64::MAX).secs(), 18446744073709551);
}

fn added(content: &str) -> FileChange {
    FileChange::Add { content: content.to_string() }
}

#[test]
fn a_path_has_one_change() {
    let mut changes = FileChanges::new();
    assert_eq!(changes.len(), 0);
    assert_eq!(changes.insert(FilePath::from_text("a"), added("1")), None);
    let edit = FileChange::Update {
        unified_diff: "@@".to_string(),
        move_path: Some(FilePath::from_text("c")),
    };
    assert_eq!(changes.insert(FilePath::from_text("b"), edit.clone()), None);
    assert_eq!(changes.insert(FilePath::from_text("a"), added("2")), Some(added("1")));
    assert_eq!(changes.len(), 2);
    assert_eq!(changes.get(&FilePath::from_text("a")), Some(&added("2")));
    assert_eq!(changes.get(&FilePath::from_text("b")), Some(&edit));
    assert_eq!(changes.get(&FilePath::from_text("c")), None);
    assert_eq!(
        changes.entries(),
        &vec![
            FileChangeEntry { path: FilePath::from_text("a"), change: added("2") },
            FileChangeEntry { path: FilePath::from_text("b"), change: edit },
        ]
    );
}

#[test]
fn changes_are_equal_in_any_order() {
    let mut one = FileChanges::new();
    one.insert(FilePath::from_text("a"), added("1"));
    one.insert(FilePath::from_text("b"), FileChange::Delete { content: "2".to_string() });
    let mut other = FileChanges::new();
    other.insert(FilePath::from_text("b"), FileChange::Delete { content: "2".to_string() });
    assert_ne!(one, other);
    other.insert(FilePath::from_text("a"), added("1"));
    assert_eq!(one, other);
    assert_eq!(one, one.clone());
    other.insert(FilePath::from_text("a"), FileChange::Delete { content: "1".to_string() });
    assert_ne!(one, other);
}

#[test]
fn a_path_has_one_change_however_it_is_spelt() {
    let mut changes = FileChanges::new();
    changes.insert(FilePath::from_text("a/b"), added("1"));
    assert_eq!(changes.insert(FilePath::from_text("a//b"), added("2")), Some(added("1")));
    assert_eq!(changes.len(), 1);
    assert_eq!(changes.get(&FilePath::from_text("a/./b")), Some(&added("2")));
    assert_eq!(changes.entries()[0].path.bytes, b"a/b");
    let moved = |to: &str| FileChange::Update {
        unified_diff: "@@".to_string(),
        move_path: Some(FilePath::from_text(to)),
    };
    let mut one = FileChanges::new();
    one.insert(FilePath::from_text("x"), moved("y/z"));
    let mut other = FileChanges::new();
    other.insert(FilePath::from_text("x/"), moved("y//z"));
    assert_eq!(one, other);
    assert!(moved("y/z").same(&moved("y//z")));
    assert!(!moved("y/z").same(&moved("/y/z")));
}
