use darkclient::{
    decimal_string, is_module_file, is_module_mapped, module_file_name, staged_file_name,
    trim_quotes,
};

#[test]
fn staged_name_scheme() {
    assert_eq!(staged_file_name(1700000000, "libclient.so"), "temp_1700000000_libclient.so");
    assert_eq!(staged_file_name(0, "a.lib"), "temp_0_a.lib");
}

#[test]
fn staged_names_differ_across_seconds() {
    let a = staged_file_name(1700000000, "a.lib");
    let b = staged_file_name(1700000001, "a.lib");
    assert_ne!(a, b);
    let c = staged_file_name(1, "1_a.lib");
    let d = staged_file_name(11, "a.lib");
    assert_ne!(c, d);
}

#[test]
fn staged_names_repeat_within_one_second() {
    assert_eq!(staged_file_name(5, "a.lib"), staged_file_name(5, "a.lib"));
}

#[test]
fn decimal_notation() {
    assert_eq!(decimal_string(0), "0");
    assert_eq!(decimal_string(7), "7");
    assert_eq!(decimal_string(10), "10");
    assert_eq!(decimal_string(1234567890), "1234567890");
    assert_eq!(decimal_string(u64::MAX), "18446744073709551615");
}

#[test]
fn quotes_are_trimmed_at_both_ends() {
    assert_eq!(trim_quotes("\"'/a/b'\""), "/a/b");
    assert_eq!(trim_quotes("/a/\"b\"/c"), "/a/\"b\"/c");
    assert_eq!(trim_quotes("\"\"''"), "");
    assert_eq!(trim_quotes(""), "");
    assert_eq!(trim_quotes("plain"), "plain");
}

#[test]
fn module_file_names() {
    assert_eq!(module_file_name("libagent_loader"), "libagent_loader.so");
    assert!(is_module_file("libclient.so", "libclient"));
    assert!(!is_module_file("libclient.so.1", "libclient"));
    assert!(!is_module_file("libclient", "libclient"));
}

#[test]
fn mapped_module_is_found_by_file_name() {
    let maps = vec![
        "/usr/lib/x86_64-linux-gnu/libc.so.6".to_string(),
        "/home/user/game/libagent_loader.so".to_string(),
    ];
    assert!(is_module_mapped(&maps, "libagent_loader"));
    assert!(!is_module_mapped(&maps, "agent_loader"));
    assert!(!is_module_mapped(&maps, "libclient"));
}

#[test]
fn mapped_module_needs_a_whole_file_name() {
    let maps = vec![
        "/home/user/libagent_loader.so.bak".to_string(),
        "/home/user/libagent_loader.so/inner".to_string(),
        "/".to_string(),
    ];
    assert!(!is_module_mapped(&maps, "libagent_loader"));
    assert!(!is_module_mapped(&Vec::new(), "libagent_loader"));
}
