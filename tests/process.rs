use darkclient::{find_pid, ProcessEntry};

fn entry(line: &str) -> ProcessEntry {
    ProcessEntry::parse(line).expect("a process line")
}

#[test]
fn listing_line_is_parsed() {
    let e = entry("  1234 pts/0    Sl     0:01 java -jar minecraft.jar");
    assert_eq!(e.pid, 1234);
    assert_eq!(e.command_line, "  1234 pts/0    Sl     0:01 java -jar minecraft.jar");
    assert_eq!(entry("7").pid, 7);
    assert_eq!(entry("4294967295 x").pid, u32::MAX);
}

#[test]
fn header_and_bad_fields_are_skipped() {
    assert!(ProcessEntry::parse("    PID TTY      STAT   TIME COMMAND").is_none());
    assert!(ProcessEntry::parse("").is_none());
    assert!(ProcessEntry::parse("     ").is_none());
    assert!(ProcessEntry::parse("12a java").is_none());
    assert!(ProcessEntry::parse("4294967296 java").is_none());
    assert!(ProcessEntry::parse("99999999999999999999999 java").is_none());
}

#[test]
fn first_process_matching_every_filter() {
    let listing = vec![
        entry("  10 ?  Ss 0:00 /sbin/init"),
        entry("  20 ?  Sl 0:03 java -jar server.jar"),
        entry("  30 ?  Sl 0:09 java -cp minecraft.jar net.minecraft.client.main.Main"),
        entry("  40 ?  Sl 0:09 java -cp minecraft.jar other"),
    ];
    let filters = vec!["minecraft".to_string(), "java".to_string()];
    assert_eq!(find_pid(&listing, &filters), Some(30));
}

#[test]
fn no_process_matches() {
    let listing = vec![entry("  10 ? Ss 0:00 /sbin/init"), entry("  20 ? Sl 0:00 minecraft-launcher")];
    let filters = vec!["minecraft".to_string(), "java".to_string()];
    assert_eq!(find_pid(&listing, &filters), None);
    assert_eq!(find_pid(&Vec::new(), &filters), None);
}

#[test]
fn filters_are_case_sensitive() {
    let listing = vec![entry("  10 ? Sl 0:00 JAVA Minecraft")];
    let filters = vec!["minecraft".to_string(), "java".to_string()];
    assert_eq!(find_pid(&listing, &filters), None);
}

#[test]
fn no_filters_take_the_first_process() {
    let listing = vec![entry("  10 ? Ss 0:00 /sbin/init"), entry("  20 ? Ss 0:00 x")];
    assert_eq!(find_pid(&listing, &Vec::new()), Some(10));
}
