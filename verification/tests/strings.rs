use espresso::pathutil::get_parent_path_of_file;
use espresso::strutil::{
    contains_substr, ends_with_str, filter_by_suffix, find_first_char, find_last_char,
    find_substr, remove_newlines, replace_char, str_eq, str_eq_ignore_ascii_case,
    strip_suffix_str,
};

#[test]
fn string_equality_is_by_characters() {
    assert!(str_eq("hello", "hello"));
    assert!(!str_eq("hello", "hellO"));
    assert!(!str_eq("hello", "hell"));
    assert!(str_eq("", ""));
}

#[test]
fn case_insensitive_equality_folds_ascii_letters() {
    assert!(str_eq_ignore_ascii_case("DeadBeef", "dEADbEEF"));
    assert!(!str_eq_ignore_ascii_case("deadbeef", "deadbeee"));
    assert!(!str_eq_ignore_ascii_case("dead", "deadbeef"));
}

#[test]
fn substring_search_finds_first_occurrence() {
    assert_eq!(find_substr("Main-Class: a: b", ": "), Some(10));
    assert_eq!(find_substr("no separator", ": "), None);
    assert_eq!(find_substr("abc", ""), Some(0));
    assert!(contains_substr("${JAVA_HOME}/jdk", "${JAVA_HOME}"));
    assert!(!contains_substr("/usr/lib/jvm", "${JAVA_HOME}"));
}

#[test]
fn suffix_handling() {
    assert!(ends_with_str("Main.java", ".java"));
    assert!(!ends_with_str("Main.class", ".java"));
    assert_eq!(strip_suffix_str("abcdef.jar", ".jar"), Some("abcdef".to_string()));
    assert_eq!(strip_suffix_str("abcdef.zip", ".jar"), None);
}

#[test]
fn character_replacement_and_removal() {
    assert_eq!(replace_char("com.me.project", '.', '/'), "com/me/project");
    assert_eq!(replace_char("nodots", '.', '/'), "nodots");
    assert_eq!(remove_newlines("a\nb\nc\n"), "abc");
    assert_eq!(remove_newlines("plain"), "plain");
}

#[test]
fn character_position_search() {
    assert_eq!(find_first_char("a\nb\n", '\n'), Some(1));
    assert_eq!(find_first_char("ab", '\n'), None);
    assert_eq!(find_last_char("/a/b/c.txt", '/'), Some(4));
    assert_eq!(find_last_char("nofile", '/'), None);
}

#[test]
fn suffix_filter_keeps_order() {
    let files = vec![
        "/p/src/Main.java".to_string(),
        "/p/src/notes.txt".to_string(),
        "/p/src/Util.java".to_string(),
    ];
    let java = filter_by_suffix(&files, ".java");
    assert_eq!(java, vec!["/p/src/Main.java".to_string(), "/p/src/Util.java".to_string()]);
}

#[test]
fn parent_path_of_file_keeps_trailing_separator() {
    let p = get_parent_path_of_file(&"/home/x/EspressoProjects/project/espresso.toml".to_string());
    assert_eq!(p.unwrap(), "/home/x/EspressoProjects/project/");
    let bare = get_parent_path_of_file(&"espresso.toml".to_string());
    assert_eq!(bare.unwrap(), "");
}
