//! Suffixes, equality, file names and the output for a name.

use zed_quarto::output::{output_for_name, output_for_path, success_message, CommandOutput, OutputSection};
use zed_quarto::path::{display_name, extract_filename, is_qmd_file, name_or_path};
use zed_quarto::text::{ends_with, same_text};

#[test]
fn ends_with_compares_whole_suffixes() {
    assert!(ends_with("document.qmd", ".qmd"));
    assert!(ends_with("document.qmd", "document.qmd"));
    assert!(ends_with("document.qmd", ""));
    assert!(ends_with("", ""));
    assert!(!ends_with("", "d"));
    assert!(!ends_with("qmd", ".qmd"));
    assert!(!ends_with("document.qmd", "a document.qmd"));
    assert!(!ends_with("document.qmd", ".qm"));
    assert!(!ends_with("document.qmd", ".QMD"));
}

#[test]
fn ends_with_handles_characters_of_several_bytes() {
    assert!(ends_with("日本語", "本語"));
    assert!(ends_with("naïve.qmd", "ïve.qmd"));
    assert!(!ends_with("日本語", "日本"));
    assert!(!ends_with("é", "è"));
    assert!(!ends_with("a\u{a9}", "\u{e9}"));
    assert!(ends_with("✓ done", "✓ done"));
}

#[test]
fn ends_with_agrees_with_std() {
    let samples = ["", ".", ".qmd", "a.qmd", "a.qmd ", "é.qmd", "x.qmé", "qmd.qmd.qmd", "✓"];
    for s in samples {
        for suffix in samples {
            assert_eq!(ends_with(s, suffix), s.ends_with(suffix), "{:?} {:?}", s, suffix);
        }
    }
}

#[test]
fn same_text_is_equality() {
    let samples = ["", "a", "b", "ab", "quarto-preview", "quarto-previeW", "é", "e\u{301}", "✓"];
    for a in samples {
        for b in samples {
            assert_eq!(same_text(a, b), a == b, "{:?} {:?}", a, b);
        }
    }
}

#[test]
fn qmd_extension_edge_cases() {
    assert!(is_qmd_file(".qmd"));
    assert!(is_qmd_file("trailing dots...qmd"));
    assert!(is_qmd_file("übersicht.qmd"));
    assert!(!is_qmd_file(""));
    assert!(!is_qmd_file("qmd"));
    assert!(!is_qmd_file("notes.QMD"));
    assert!(!is_qmd_file("notes.qmd/"));
    assert!(!is_qmd_file("notes.qmd "));
    assert!(!is_qmd_file("notes.qm\u{111}"));
}

#[test]
fn file_name_is_the_final_component() {
    assert_eq!(extract_filename("/usr/bin/"), Some("bin"));
    assert_eq!(extract_filename("tmp/foo.txt"), Some("foo.txt"));
    assert_eq!(extract_filename("foo.txt/."), Some("foo.txt"));
    assert_eq!(extract_filename("foo.txt/.."), None);
    assert_eq!(extract_filename("/"), None);
    assert_eq!(extract_filename(""), None);
    assert_eq!(extract_filename("dir/résumé.qmd"), Some("résumé.qmd"));
}

#[test]
fn display_name_falls_back_to_the_path() {
    assert_eq!(display_name("/path/to/document.qmd"), "document.qmd");
    assert_eq!(display_name("document.qmd"), "document.qmd");
    assert_eq!(display_name("/"), "/");
    assert_eq!(display_name(""), "");
    assert_eq!(display_name("a/.."), "a/..");
}

#[test]
fn display_name_is_cut_out_of_the_path() {
    for path in ["/a/b/c.qmd", "c.qmd", "a//b/", "./x", "..", "/", "", "a/é/ü.qmd"] {
        assert!(path.contains(display_name(path)), "{:?}", path);
    }
}

#[test]
fn success_message_ends_in_the_name() {
    assert_eq!(success_message("example.qmd"), "✓ Opening preview for example.qmd");
    assert_eq!(success_message(""), "✓ Opening preview for ");
    assert_eq!(success_message("é"), "✓ Opening preview for é");
}

#[test]
fn output_has_one_section_over_all_bytes_of_the_text() {
    let out = output_for_name("example.qmd");
    assert_eq!(
        out,
        CommandOutput {
            text: "✓ Opening preview for example.qmd".to_string(),
            sections: vec![OutputSection { start: 0, end: 35, label: "Quarto Preview".to_string() }],
        }
    );
    assert_eq!(out.sections[0].end as usize, out.text.len());

    let empty = output_for_name("");
    assert_eq!(empty.sections[0].start, 0);
    assert_eq!(empty.sections[0].end, 24);
}

#[test]
fn section_end_counts_bytes_not_characters() {
    let out = output_for_name("résumé.qmd");
    assert_eq!(out.text.chars().count(), 32);
    assert_eq!(out.sections[0].end, 36);
}

#[test]
fn output_for_a_path_shows_its_file_name() {
    let out = output_for_path("/home/user/docs/report.qmd");
    assert_eq!(out, output_for_name("report.qmd"));
    let bare = output_for_path("report.qmd");
    assert_eq!(bare.text, "✓ Opening preview for report.qmd");
    let rootless = output_for_path("/");
    assert_eq!(rootless.text, "✓ Opening preview for /");
    assert_eq!(rootless.sections[0].end, 25);
}

#[test]
fn found_name_is_never_empty_and_holds_no_slash() {
    let paths = [
        "", "/", "//", "a", "a/", "a//", "/a", "a/b", "a/b/", "a/./b/.", "./a", "../a", "a/..",
        ".", "..", "...", "a/.hidden", "/path/to/document.qmd", "dir/résumé.qmd", "a b/c d.qmd",
    ];
    for path in paths {
        if let Some(name) = extract_filename(path) {
            assert!(!name.is_empty(), "{:?}", path);
            assert!(!name.contains('/'), "{:?}", path);
            assert!(path.contains(name), "{:?}", path);
        }
    }
}

#[test]
fn last_segment_of_a_portable_path_is_its_file_name() {
    let cases = [
        ("document.qmd", "document.qmd"),
        ("/path/to/document.qmd", "document.qmd"),
        ("a/b", "b"),
        ("/a", "a"),
        ("./a", "a"),
        ("../a", "a"),
        ("a/...", "..."),
        ("a/.hidden", ".hidden"),
        ("a/b.", "b."),
        ("a b/c d.qmd", "c d.qmd"),
        ("dir/résumé.qmd", "résumé.qmd"),
    ];
    for (path, segment) in cases {
        assert_eq!(path.rsplit('/').next(), Some(segment));
        assert_eq!(extract_filename(path), Some(segment), "{:?}", path);
        assert_eq!(display_name(path), segment, "{:?}", path);
        assert_eq!(output_for_path(path), output_for_name(segment), "{:?}", path);
    }
}

#[test]
fn path_that_ends_in_the_parent_segment_has_no_file_name() {
    for path in ["..", "a/..", "/..", "a/b/..", "./.."] {
        assert_eq!(extract_filename(path), None, "{:?}", path);
        assert_eq!(display_name(path), path);
    }
}

#[test]
fn name_or_path_picks_the_found_name() {
    assert_eq!(name_or_path(Some("document.qmd"), "/path/to/document.qmd"), "document.qmd");
    assert_eq!(name_or_path(None, "/path/to/document.qmd"), "/path/to/document.qmd");
    assert_eq!(name_or_path(Some(""), "a"), "");
    assert_eq!(name_or_path(None, ""), "");
    assert_eq!(name_or_path(Some("other"), "a/b"), "other");
}
