use kodegen_bundler::paths::file_name_extension;
use kodegen_bundler::paths::join_path;
use kodegen_bundler::paths::path_extension;
use kodegen_bundler::paths::path_file_name;
use kodegen_bundler::paths::path_is_absolute;
use kodegen_bundler::paths::path_parent;
use kodegen_bundler::paths::path_strip_prefix;
use kodegen_bundler::paths::path_with_extension;
use kodegen_bundler::text::from_chars;
use kodegen_bundler::text::i64_to_string;
use kodegen_bundler::text::join_strings;
use kodegen_bundler::text::owned;
use kodegen_bundler::text::split_str;
use kodegen_bundler::text::str_contains;
use kodegen_bundler::text::str_ends_with;
use kodegen_bundler::text::str_eq;
use kodegen_bundler::text::str_is_blank;
use kodegen_bundler::text::str_lower;
use kodegen_bundler::text::str_starts_with;
use kodegen_bundler::text::str_trim;
use kodegen_bundler::text::strings_contain;
use kodegen_bundler::text::to_chars;
use kodegen_bundler::text::u64_to_string;

fn some(text: &str) -> Option<String> {
    Some(text.to_string())
}

#[test]
fn searching_text() {
    assert!(str_contains("hello world", "lo w"));
    assert!(str_contains("hello", ""));
    assert!(str_contains("", ""));
    assert!(str_contains("hello", "hello"));
    assert!(!str_contains("hello", "hello!"));
    assert!(!str_contains("", "a"));
    assert!(str_contains("aab", "ab"));
    assert!(str_starts_with("hello", "he"));
    assert!(str_starts_with("hello", ""));
    assert!(!str_starts_with("he", "hello"));
    assert!(str_ends_with("hello", "llo"));
    assert!(!str_ends_with("hello", "hell"));
    assert!(str_eq("a", "a"));
    assert!(!str_eq("a", "b"));
    assert!(!str_eq("a", "ab"));
    assert!(str_eq("", ""));
    assert!(strings_contain(&vec!["a".to_string(), "b".to_string()], "b"));
    assert!(!strings_contain(&vec!["a".to_string()], "A"));
}

#[test]
fn case_folding_is_ascii_only() {
    assert_eq!(str_lower("Hello WORLD 123"), "hello world 123");
    assert_eq!(str_lower("ÄÖ É"), "ÄÖ É");
    assert_eq!(str_lower("AZ@[`{az"), "az@[`{az");
    assert_eq!(str_lower(""), "");
}

#[test]
fn trimming_and_blankness() {
    assert_eq!(str_trim("  a b \n"), "a b");
    assert_eq!(str_trim("\t\r\n "), "");
    assert_eq!(str_trim(""), "");
    assert_eq!(str_trim("x"), "x");
    assert_eq!(str_trim("\u{b}\u{c}x\u{c}"), "x");
    assert!(str_is_blank(""));
    assert!(str_is_blank(" \t\n\r"));
    assert!(!str_is_blank(" a "));
}

#[test]
fn joining_and_splitting() {
    assert_eq!(join_strings(&vec![], ", "), "");
    assert_eq!(join_strings(&vec!["a".to_string()], ", "), "a");
    assert_eq!(join_strings(&vec!["a".to_string(), "".to_string(), "c".to_string()], ", "), "a, , c");
    assert_eq!(split_str("a.b.c", '.'), vec!["a", "b", "c"]);
    assert_eq!(split_str("", '.'), vec![""]);
    assert_eq!(split_str(".", '.'), vec!["", ""]);
    assert_eq!(split_str("a..b.", '.'), vec!["a", "", "b", ""]);
    assert_eq!(split_str("abc", '/'), vec!["abc"]);
    for text in ["", "a", "a/b", "/a//b/", "///"] {
        assert_eq!(join_strings(&split_str(text, '/'), "/"), text);
        let expected: Vec<String> = text.split('/').map(|s| s.to_string()).collect();
        assert_eq!(split_str(text, '/'), expected);
    }
}

#[test]
fn numerals() {
    assert_eq!(u64_to_string(0), "0");
    assert_eq!(u64_to_string(9), "9");
    assert_eq!(u64_to_string(10), "10");
    assert_eq!(u64_to_string(1234567890), "1234567890");
    assert_eq!(u64_to_string(u64::MAX), "18446744073709551615");
    assert_eq!(i64_to_string(0), "0");
    assert_eq!(i64_to_string(-1), "-1");
    assert_eq!(i64_to_string(137), "137");
    assert_eq!(i64_to_string(i64::MAX), "9223372036854775807");
    assert_eq!(i64_to_string(i64::MIN), "-9223372036854775808");
}

#[test]
fn characters_and_strings_convert_both_ways() {
    assert_eq!(to_chars("aé✓"), vec!['a', 'é', '✓']);
    assert_eq!(from_chars(&vec!['a', 'é', '✓']), "aé✓");
    assert_eq!(owned("x"), "x");
}

#[test]
fn joining_paths() {
    assert_eq!(join_path("/a", "b"), "/a/b");
    assert_eq!(join_path("/a/", "b"), "/a/b");
    assert_eq!(join_path("", "b"), "b");
    assert_eq!(join_path("/a", "/b"), "/b");
    assert_eq!(join_path("a", "b/c"), "a/b/c");
    assert_eq!(join_path("/", "b"), "/b");
    assert_eq!(join_path("a", ""), "a/");
}

#[test]
fn file_names() {
    assert_eq!(path_file_name("/a/b.txt"), some("b.txt"));
    assert_eq!(path_file_name("b.txt"), some("b.txt"));
    assert_eq!(path_file_name("/a/b/"), some("b"));
    assert_eq!(path_file_name("/a/b///"), some("b"));
    assert_eq!(path_file_name("/"), None);
    assert_eq!(path_file_name(""), None);
    assert_eq!(path_file_name("/a/.."), None);
    assert_eq!(path_file_name(".."), None);
    assert_eq!(path_file_name("."), None);
    assert_eq!(path_file_name("/a/..."), some("..."));
    assert_eq!(path_file_name("/a/.hidden"), some(".hidden"));
}

#[test]
fn extensions() {
    assert_eq!(path_extension("/a/b.txt"), some("txt"));
    assert_eq!(path_extension("/a/b.tar.gz"), some("gz"));
    assert_eq!(path_extension("/a/b"), None);
    assert_eq!(path_extension("/a.d/b"), None);
    assert_eq!(path_extension("/a/.bashrc"), None);
    assert_eq!(path_extension("/a/.bashrc.bak"), some("bak"));
    assert_eq!(path_extension("/a/b."), some(""));
    assert_eq!(path_extension("/a/b.deb/"), some("deb"));
    assert_eq!(path_extension(""), None);
    assert_eq!(file_name_extension("x.AppImage"), some("AppImage"));
    assert_eq!(file_name_extension("x"), None);
}

#[test]
fn parents() {
    assert_eq!(path_parent("/a/b"), some("/a"));
    assert_eq!(path_parent("/a/b/"), some("/a"));
    assert_eq!(path_parent("/a"), some("/"));
    assert_eq!(path_parent("a"), some(""));
    assert_eq!(path_parent("a/b"), some("a"));
    assert_eq!(path_parent("/"), None);
    assert_eq!(path_parent(""), None);
    assert_eq!(path_parent("/a//b"), some("/a"));
    assert_eq!(path_parent("/out/dir/app.rpm"), some("/out/dir"));
}

#[test]
fn replacing_extensions() {
    assert_eq!(path_with_extension("/a/b.txt", "exe"), "/a/b.exe");
    assert_eq!(path_with_extension("/a/b", "exe"), "/a/b.exe");
    assert_eq!(path_with_extension("/a/b.tar.gz", "zip"), "/a/b.tar.zip");
    assert_eq!(path_with_extension("/a/.hidden", "x"), "/a/.hidden.x");
    assert_eq!(path_with_extension("/a/b.dmg", "dmg.compressed"), "/a/b.dmg.compressed");
    assert_eq!(path_with_extension("/", "x"), "/");
    assert_eq!(path_with_extension("b.d/", "x"), "b.x");
}

#[test]
fn stripping_prefixes() {
    assert_eq!(path_strip_prefix("/a/b/c", "/a"), some("b/c"));
    assert_eq!(path_strip_prefix("/a/b/c", "/a/"), some("b/c"));
    assert_eq!(path_strip_prefix("/a", "/a"), some(""));
    assert_eq!(path_strip_prefix("/ab/c", "/a"), None);
    assert_eq!(path_strip_prefix("/a", "/a/b"), None);
    assert_eq!(path_strip_prefix("a/b", ""), None);
    assert_eq!(path_strip_prefix("/a/b", ""), some("a/b"));
}

#[test]
fn absolute_paths_begin_with_a_slash() {
    assert!(path_is_absolute("/"));
    assert!(path_is_absolute("/a"));
    assert!(!path_is_absolute("a/b"));
    assert!(!path_is_absolute(""));
    assert!(!path_is_absolute("./a"));
}
