//! Texts, paths and encodings.
use perry_ship_windows::encoding::{compute_sha256, decode_trimmed, wipe};
use perry_ship_windows::paths::{
    join_path, path_has_parent, path_is_absolute, path_lies_in, path_parent, PathStyle,
};
use perry_ship_windows::text::{
    decimal_text, join_texts, parse_unsigned, same_ignoring_case, signed_text, split_text,
    strip_prefix_text, text_before, trim_text,
};
use perry_ship_windows::version::{latest, version_is_older};

#[test]
fn numbers_in_decimal() {
    assert_eq!(decimal_text(0), "0");
    assert_eq!(decimal_text(u64::MAX), "18446744073709551615");
    assert_eq!(signed_text(-1), "-1");
    assert_eq!(signed_text(i32::MIN), "-2147483648");
    assert_eq!(signed_text(42), "42");
    assert_eq!(parse_unsigned("65535", 65535), Some(65535));
    assert_eq!(parse_unsigned("65536", 65535), None);
    assert_eq!(parse_unsigned("+5", 10), Some(5));
    assert_eq!(parse_unsigned("+", 10), None);
    assert_eq!(parse_unsigned(" 5", 10), None);
    assert_eq!(parse_unsigned("007", 10), Some(7));
}

#[test]
fn pieces_of_texts() {
    assert_eq!(split_text("1.2.3", '.'), vec!["1", "2", "3"]);
    assert_eq!(split_text("", '.'), vec![""]);
    assert_eq!(split_text(".", '.'), vec!["", ""]);
    assert_eq!(join_texts(&vec!["a".into(), "b".into()], ", "), "a, b");
    assert_eq!(join_texts(&vec![], ", "), "");
    assert_eq!(trim_text(" \t a b\r\n\u{3000}"), "a b");
    assert_eq!(trim_text("  "), "");
    assert_eq!(strip_prefix_text("perry 1", "perry ").as_deref(), Some("1"));
    assert_eq!(strip_prefix_text("per", "perry "), None);
    assert!(same_ignoring_case("TrUe", "true"));
    assert!(!same_ignoring_case("tru", "true"));
    assert!(!same_ignoring_case("É", "é"));
}

#[test]
fn dictionary_order() {
    assert!(text_before("a", "ab"));
    assert!(text_before("10.0.10240", "10.0.9"));
    assert!(!text_before("b", "a"));
    assert!(!text_before("a", "a"));
}

#[test]
fn versions_go_by_their_numbers() {
    let older = |a: &str, b: &str| {
        assert!(version_is_older(a, b), "{a} {b}");
        assert!(!version_is_older(b, a), "{b} {a}");
        assert!(!version_is_older(a, a) && !version_is_older(b, b));
        assert_eq!(latest(&vec![a.into(), b.into()]).as_deref(), Some(b));
        assert_eq!(latest(&vec![b.into(), a.into()]).as_deref(), Some(b));
    };
    older("10.0.9600.0", "10.0.22621.0");
    older("9", "10");
    older("1.2", "1.2.0");
    older("1.9", "1.10");
    older("1.99999999999999999999998", "1.99999999999999999999999");
    older("1.9999999999999999999999", "1.10000000000000000000000");
    // Zeros in front count for nothing, unless nothing else tells two apart.
    older("1.009", "1.10");
    older("1.01", "1.1");
    // What is no number goes by dictionary order, behind the numbers.
    older("1.a", "1.b");
    older("1.9", "1.10a");
    older("10.0", "wdf");
    older("", "a");
    assert_eq!(latest(&vec!["b".into(), "c".into(), "a".into()]).as_deref(), Some("c"));
    assert_eq!(latest(&vec![]), None);
}

#[test]
fn paths_of_both_styles() {
    let posix = PathStyle::Posix;
    let windows = PathStyle::Windows;
    assert!(path_is_absolute("/a", posix));
    assert!(!path_is_absolute("C:\\a", posix));
    assert!(path_is_absolute("C:\\a", windows));
    assert!(!path_is_absolute("C:a", windows));
    assert!(path_has_parent("a/..", posix));
    assert!(!path_has_parent("a/..b", posix));
    assert_eq!(join_path("/t", "a", posix), "/t/a");
    assert_eq!(join_path("/", "a", posix), "/a");
    assert_eq!(join_path("C:\\t", "a", windows), "C:\\t\\a");
    assert_eq!(join_path("C:", "a", windows), "C:a");
    assert_eq!(join_path("", "a", posix), "a");
    assert_eq!(join_path("/t", "", posix), "/t/");
    assert_eq!(join_path("/t", "/a", posix), "/a");
    assert_eq!(join_path("C:\\t", "\\a", windows), "C:\\a");
    assert_eq!(join_path("C:\\t", "D:\\a", windows), "D:\\a");
    assert_eq!(join_path("/t", "a/b", posix), "/t/a/b");
}

#[test]
fn network_shares() {
    let windows = PathStyle::Windows;
    let share = "\\\\server\\share";
    assert!(path_is_absolute(share, windows));
    assert!(path_is_absolute("//server/share/x", windows));
    assert_eq!(join_path(share, "a", windows), "\\\\server\\share\\a");
    assert_eq!(join_path("\\\\server\\share\\a", "\\b", windows), "\\\\server\\share\\b");
    assert_eq!(join_path("C:\\a", share, windows), share);
    assert_eq!(path_parent(share, windows), None);
    assert_eq!(path_parent("\\\\server\\share\\", windows), None);
    assert_eq!(
        path_parent("\\\\server\\share\\a", windows).as_deref(),
        Some("\\\\server\\share\\")
    );
    // The name of a share is no part of a path.
    assert!(!path_has_parent("\\\\server\\..\\a", windows));
    assert!(path_has_parent("\\\\server\\share\\..", windows));
    // Without the name of a share there is none.
    assert_eq!(path_parent("\\\\server", windows).as_deref(), Some("\\"));
    assert_eq!(path_parent("//a/b", PathStyle::Posix).as_deref(), Some("//a"));
}

#[test]
fn paths_inside_directories() {
    let posix = PathStyle::Posix;
    assert!(path_lies_in("/p", "/p", posix));
    assert!(path_lies_in("/p/a", "/p", posix));
    assert!(path_lies_in("/a", "/", posix));
    assert!(!path_lies_in("/pa", "/p", posix));
    assert!(!path_lies_in("/", "/p", posix));
    assert!(path_lies_in("C:\\p\\a", "C:\\p", PathStyle::Windows));
    assert!(!path_lies_in("C:\\p\\a", "C:\\p", posix));
    // What stays below the directory that it is read in lies in it.
    assert!(path_lies_in(&join_path("/p", "src/main.ts", posix), "/p", posix));
}

#[test]
fn digests() {
    assert_eq!(
        compute_sha256(b""),
        "e3b0c44298fc1c149afbf4c8996fb92427ae41e4649b934ca495991b7852b855"
    );
    assert_eq!(
        compute_sha256(b"abc"),
        "ba7816bf8f01cfea414140de5dae2223b00361a396177a9cb410ff61f20015ad"
    );
}

#[test]
fn base64_with_blanks_around_it() {
    assert_eq!(decode_trimmed("  dGVzdA==\n", "x: ").unwrap(), b"test");
    assert_eq!(decode_trimmed("", "x: ").unwrap(), b"");
    assert!(decode_trimmed("dGVz dA==", "x: ").unwrap_err().starts_with("x: "));
}

#[test]
fn secrets_are_wiped() {
    let mut secret = vec![1, 2, 3];
    wipe(&mut secret);
    assert!(secret.is_empty());
}
