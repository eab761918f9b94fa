use zsclip::file_preview::{
    display_name_or_path, file_display_name, is_markdown_extension, is_markdown_preview_candidate, join_file_preview,
    limit_file_preview, markdown_preview_from_text, push_decimal, PREVIEW_FILE_MAX_ITEMS,
};
use zsclip::strings::{chars_of, string_from_chars};
use zsclip::text_preview::{limit_preview_text, split_lines};

fn lines_of(text: &str) -> Vec<String> {
    split_lines(&text.chars().collect())
        .into_iter()
        .map(|line| line.into_iter().collect())
        .collect()
}

#[test]
fn split_lines_matches_str_lines() {
    let samples = [
        "",
        "a",
        "a\n",
        "a\nb",
        "\n",
        "\n\n",
        "a\r\nb\r\n",
        "foo\nbar\n\r\nbaz\r",
        "\r",
        "x\r\r\ny",
        "测试\n行",
    ];
    for text in samples {
        let expected: Vec<String> = text.lines().map(|l| l.to_string()).collect();
        assert_eq!(lines_of(text), expected, "text {:?}", text);
    }
}

#[test]
fn chars_and_string_round_trip() {
    let chars = chars_of("héllo\n世界");
    assert_eq!(chars, vec!['h', 'é', 'l', 'l', 'o', '\n', '世', '界']);
    assert_eq!(string_from_chars(&chars), "héllo\n世界");
}

#[test]
fn preview_keeps_fitting_text_whole() {
    assert_eq!(limit_preview_text("one\ntwo\nthree", 3, 11), "one\ntwo\nthree");
    assert_eq!(limit_preview_text("abc", 1, 3), "abc");
}

#[test]
fn preview_marks_text_over_the_line_limit() {
    assert_eq!(limit_preview_text("a\nb\nc", 2, 100), "a\nb ......");
}

#[test]
fn preview_cuts_a_long_line_at_the_char_limit() {
    assert_eq!(limit_preview_text("abcdef\nxyz", 5, 4), "abcd ......");
}

#[test]
fn preview_marks_when_budget_ends_before_an_empty_line() {
    assert_eq!(limit_preview_text("abc\n\n", 9, 3), "abc ......");
}

#[test]
fn preview_of_empty_or_blank_lines_is_empty() {
    assert_eq!(limit_preview_text("", 9, 420), "");
    assert_eq!(limit_preview_text("\n\n\n", 9, 420), "");
    assert_eq!(limit_preview_text("abc", 0, 420), "");
    assert_eq!(limit_preview_text("abc", 9, 0), "");
}

#[test]
fn preview_drops_leading_empty_lines_and_cr() {
    assert_eq!(limit_preview_text("\n\nabc\r\ndef", 9, 420), "abc\ndef");
    assert_eq!(limit_preview_text("a\n\nb", 9, 420), "a\n\nb");
}

#[test]
fn decimal_digits() {
    let mut out = Vec::new();
    push_decimal(&mut out, 0);
    out.push(',');
    push_decimal(&mut out, 1234567);
    assert_eq!(out.into_iter().collect::<String>(), "0,1234567");
}

#[test]
fn file_preview_lists_names() {
    let paths = vec!["/home/u/a.txt".to_string(), "/home/u/docs/b.md".to_string()];
    assert_eq!(limit_file_preview(&paths, PREVIEW_FILE_MAX_ITEMS, "Total"), "a.txt\nb.md");
}

#[test]
fn file_preview_counts_what_it_leaves_out() {
    let paths: Vec<String> = (0..10).map(|i| format!("/d/f{i}.png")).collect();
    assert_eq!(
        limit_file_preview(&paths, 8, "Total"),
        "f0.png\nf1.png\nf2.png\nf3.png\nf4.png\nf5.png\nf6.png\nf7.png\n......Total 10"
    );
    assert_eq!(limit_file_preview(&paths, 0, "共"), "\n......共 10");
}

#[test]
fn join_file_preview_exact() {
    let names = vec!["x".to_string(), "".to_string(), "y".to_string()];
    assert_eq!(join_file_preview(&names, 3, 3, "T"), "x\n\ny");
    assert_eq!(join_file_preview(&names, 12, 3, "T"), "x\n\ny\n......T 12");
    assert_eq!(join_file_preview(&[], 0, 8, "T"), "");
}

#[test]
fn display_name_falls_back_to_path() {
    assert_eq!(display_name_or_path(Some("n".to_string()), "/p/n"), "n");
    assert_eq!(display_name_or_path(None, "/p/.."), "/p/..");
}

#[test]
fn markdown_extension_any_case() {
    assert!(is_markdown_extension("md"));
    assert!(is_markdown_extension("MarkDown"));
    assert!(is_markdown_extension("MD"));
    assert!(!is_markdown_extension("mdx"));
    assert!(!is_markdown_extension("txt"));
    assert!(!is_markdown_extension(""));
}

#[test]
fn markdown_candidate_needs_one_markdown_path() {
    assert!(is_markdown_preview_candidate(&["/notes/README.MD".to_string()]));
    assert!(is_markdown_preview_candidate(&["/notes/a.markdown".to_string()]));
    assert!(!is_markdown_preview_candidate(&["/notes/a.txt".to_string()]));
    assert!(!is_markdown_preview_candidate(&["/notes/md".to_string()]));
    assert!(!is_markdown_preview_candidate(&[
        "/a.md".to_string(),
        "/b.md".to_string()
    ]));
    assert!(!is_markdown_preview_candidate(&[]));
}

#[test]
fn markdown_preview_of_text() {
    assert_eq!(markdown_preview_from_text("# Title\nbody"), Some("# Title\nbody".to_string()));
    assert_eq!(markdown_preview_from_text("\n\n"), None);
}

#[test]
fn display_names_of_plain_paths() {
    assert_eq!(file_display_name("docs/readme.txt"), "readme.txt");
    assert_eq!(file_display_name("/a//b/c.png"), "c.png");
    assert_eq!(file_display_name("name"), "name");
    assert_eq!(file_display_name("/x/.."), "/x/..");
    assert_eq!(file_display_name(".."), "..");
}

#[test]
fn markdown_candidate_for_plain_paths() {
    assert!(is_markdown_preview_candidate(&["notes.md".to_string()]));
    assert!(is_markdown_preview_candidate(&["d/..md".to_string()]));
    assert!(!is_markdown_preview_candidate(&["d/.md".to_string()]));
    assert!(!is_markdown_preview_candidate(&["d/md.".to_string()]));
    assert!(!is_markdown_preview_candidate(&["d.md/x".to_string()]));
}

#[test]
fn file_preview_names_are_final_components() {
    let paths = vec!["/docs/a.txt".to_string(), "/tmp/b.md".to_string(), "/x/..".to_string()];
    assert_eq!(limit_file_preview(&paths, 8, "Total"), "a.txt\nb.md\n/x/..");
}

#[test]
fn markdown_candidate_where_platforms_agree() {
    assert!(is_markdown_preview_candidate(&["notes\\a.md".to_string()]));
    assert!(is_markdown_preview_candidate(&["C:\\notes\\a.md".to_string()]));
    assert!(is_markdown_preview_candidate(&["dir\\README.Markdown".to_string()]));
    assert!(!is_markdown_preview_candidate(&["dir\\a.txt".to_string()]));
}
