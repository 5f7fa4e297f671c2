//! Text, JSON, paths and ordering.

use pi_coding::json::{
    json_type_name, member_index, push_item, push_member, text_json, whole_number, Json,
};
use pi_coding::lexical_path::{
    file_name, is_absolute, is_within, parent_path, path_components, paths_agree, render_path, respell,
};
use pi_coding::sort::text_is_before;
use pi_coding::text::{
    byte_count, chars_of, contains, contains_text, decimal, find_from, is_blank, join_texts,
    same_opt_text, signed_decimal, split, strip_prefix, successor, take_chars, text_between,
    to_ascii_lower, trim, trim_end,
};
use pi_coding::text_map::TextMap;
use pi_coding::tools::lsp::lang_key_for_ext;
use pi_coding::tools::lsp_format::severity_name;
use pi_coding::tools::lsp_symbols::symbol_kind_name;
use pi_coding::tools::notebook::{capability_name, ToolCapability};
use pi_coding::tools::paths::fold_unicode_spaces;
use pi_coding::workflow::store::{is_valid_id, join_path, temporary_file_name};
use pi_coding::workflow::WorkflowStatus;

#[test]
fn texts_are_cut_and_joined() {
    assert_eq!(byte_count("héllo"), 6);
    assert_eq!(take_chars("héllo", 2), "hé");
    let chars = chars_of("abcdef");
    assert_eq!(text_between(&chars, 2, 4), "cd");
    assert_eq!(find_from(&chars, &chars_of("cd"), 1), Some(2));
    assert_eq!(find_from(&chars, &chars_of("cd"), 3), None);
    assert!(contains("abc", "") && contains("abc", "bc") && !contains("abc", "ca"));
    assert_eq!(split("a,,b", ','), ["a", "", "b"]);
    assert_eq!(join_texts(&split("a,b", ','), "; "), "a; b");
    assert_eq!(strip_prefix("--flag", "--").as_deref(), Some("flag"));
    assert_eq!(strip_prefix("flag", "--"), None);
    assert_eq!(trim("\u{2003} x \n"), "x");
    assert_eq!(trim_end(" x \t"), " x");
    assert!(is_blank("\u{a0}\t") && !is_blank("."));
    assert_eq!(to_ascii_lower("ÀBc"), "Àbc");
    assert!(contains_text(&split("a b", ' '), "b"));
    assert!(same_opt_text(&None, &None) && !same_opt_text(&None, &Some(String::new())));
}

#[test]
fn numbers_are_written_in_decimal() {
    assert_eq!(decimal(0), "0");
    assert_eq!(decimal(u64::MAX), "18446744073709551615");
    assert_eq!(successor(9), "10");
    assert_eq!(successor(u64::MAX), "18446744073709551616");
    assert_eq!(signed_decimal(i64::MIN), "-9223372036854775808");
    assert_eq!(signed_decimal(42), "42");
}

#[test]
fn json_members_are_read_back() {
    let mut members = Vec::new();
    push_member(&mut members, "a", whole_number(3));
    push_member(&mut members, "b", text_json("x"));
    assert_eq!(member_index(&members, "b"), 1);
    assert_eq!(member_index(&members, "c"), 2);
    let mut object = Json::Object(members);
    assert_eq!(object.whole_at("a"), Some(3));
    assert_eq!(object.words_at("b"), Some("x"));
    assert_eq!(object.as_text(), None);
    object.set("a", text_json("y"));
    assert_eq!(object.words_at("a"), Some("y"));
    assert_eq!(object.words_at("b"), Some("x"));
    let mut items = Vec::new();
    push_item(&mut items, whole_number(1));
    object.set("l", Json::List(items));
    assert_eq!(object.list_at("l").map(Vec::len), Some(1));
    assert!(object.value_at("zz").is_none());
    assert_eq!(json_type_name(&object), "object");
    assert_eq!(whole_number(7).as_unsigned(), Some(7));
}

#[test]
fn paths_are_taken_apart_by_their_text() {
    assert!(is_absolute("/a") && !is_absolute("a"));
    assert_eq!(path_components("/a//b/./c/"), ["a", "b", "c"]);
    assert_eq!(render_path(true, &path_components("a/b")), "/a/b");
    assert_eq!(parent_path("/a/b").as_deref(), Some("/a"));
    assert_eq!(parent_path("/"), None);
    assert_eq!(parent_path("/a//b/c/").as_deref(), Some("/a//b"));
    assert_eq!(parent_path("/a/./b").as_deref(), Some("/a"));
    assert_eq!(parent_path("/a").as_deref(), Some("/"));
    assert_eq!(parent_path("a").as_deref(), Some(""));
    assert_eq!(parent_path("./a").as_deref(), Some("."));
    assert_eq!(file_name("/a/b/").as_deref(), Some("b"));
    assert_eq!(file_name("/a/.."), None);
    assert_eq!(file_name("/"), None);
    assert_eq!(respell("/a//b/./"), "/a/b");
    assert!(is_within("/a/b", "/a") && is_within("/a", "/a") && !is_within("/ab", "/a"));
    assert!(paths_agree("/a/b/", "/a//b"));
    assert_eq!(join_path("/a/", "b"), "/a/b");
    assert_eq!(join_path("/a", "b"), "/a/b");
}

#[test]
fn texts_are_ordered_by_their_code_points() {
    assert!(text_is_before("a", "b") && text_is_before("a", "aa") && !text_is_before("b", "a"));
    assert!(!text_is_before("a", "a"));
    let mut map: TextMap<u64> = TextMap::new();
    for (n, key) in ["m", "z", "a"].iter().enumerate() {
        map.insert((*key).to_owned(), n as u64);
    }
    let keys: Vec<&str> = (0..map.len()).map(|i| map.key(i)).collect();
    assert_eq!(keys, ["a", "m", "z"]);
    map.insert("m".to_owned(), 9);
    assert_eq!(map.get("m"), Some(&9));
    map.remove("a");
    assert!(!map.contains("a") && map.len() == 2);
}

#[test]
fn names_of_kinds() {
    assert_eq!(lang_key_for_ext("rs"), Some("rust"));
    assert_eq!(lang_key_for_ext("xyz"), None);
    assert_eq!(capability_name(ToolCapability::Write), "write");
    assert_eq!(fold_unicode_spaces("a\u{202f}b\u{a0}c"), "a b c");
    assert_eq!(temporary_file_name("t"), ".workflow-t.tmp");
    assert!(is_valid_id("wf-1") && !is_valid_id("a/b") && !is_valid_id(""));
    assert!(WorkflowStatus::Running.is_active() && !WorkflowStatus::Failed.is_active());
    assert_eq!(severity_name(1), "error");
    assert_eq!(symbol_kind_name(12), "Function");
}
