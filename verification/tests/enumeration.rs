use remote_memory::{collect_processes, parse_pid, resolve_module_name, resolve_name, EnumEntry};

#[test]
fn parse_pid_reads_decimal_entries() {
    assert_eq!(parse_pid("1"), Some(1));
    assert_eq!(parse_pid("42"), Some(42));
    assert_eq!(parse_pid("007"), Some(7));
    assert_eq!(parse_pid("4294967295"), Some(u32::MAX));
}

#[test]
fn parse_pid_rejects_non_numeric_entries() {
    assert_eq!(parse_pid(""), None);
    assert_eq!(parse_pid("self"), None);
    assert_eq!(parse_pid("12a"), None);
    assert_eq!(parse_pid("a12"), None);
    assert_eq!(parse_pid("1 2"), None);
    assert_eq!(parse_pid("-1"), None);
}

#[test]
fn parse_pid_rejects_out_of_range_numbers() {
    assert_eq!(parse_pid("4294967296"), None);
    assert_eq!(parse_pid("99999999999999999999"), None);
}

#[test]
fn resolve_name_sheds_surrounding_whitespace() {
    assert_eq!(resolve_name("helper\n"), "helper");
    assert_eq!(resolve_name("  a b\tc  \r\n"), "a b\tc");
    assert_eq!(resolve_name("plain"), "plain");
}

#[test]
fn resolve_name_sheds_all_unicode_whitespace() {
    assert_eq!(resolve_name("a\u{000C}\n"), "a");
    assert_eq!(resolve_name("\u{00A0}x\u{3000}"), "x");
    assert_eq!(resolve_name("\u{2028}helper\u{0085}\u{205F}"), "helper");
    assert_eq!(resolve_name("\u{200B}"), "\u{200B}");
}

#[test]
fn resolve_name_of_blank_text_is_empty() {
    assert_eq!(resolve_name(""), "");
    assert_eq!(resolve_name(" \t\r\n"), "");
    assert_eq!(resolve_name("\u{000B}\u{000C}\u{1680}\u{2000}\u{200A}\u{2029}\u{202F}"), "");
}

#[test]
fn resolve_module_name_decodes_wide_text() {
    let units: Vec<u16> = "helper.exe".encode_utf16().collect();
    assert_eq!(resolve_module_name(&units), Some("helper.exe".to_string()));
}

#[test]
fn resolve_module_name_decodes_surrogate_pairs() {
    let units: Vec<u16> = "tool\u{1F600}".encode_utf16().collect();
    assert_eq!(units.len(), 6);
    assert_eq!(resolve_module_name(&units), Some("tool\u{1F600}".to_string()));
}

#[test]
fn resolve_module_name_replaces_invalid_units() {
    // A lone high surrogate cannot decode; it reads as the replacement
    // character instead of failing.
    let units: Vec<u16> = vec![0x0061, 0xD83D];
    assert_eq!(resolve_module_name(&units), Some("a\u{FFFD}".to_string()));
}

#[test]
fn resolve_module_name_of_empty_answer_is_a_failed_lookup() {
    let units: Vec<u16> = Vec::new();
    assert_eq!(resolve_module_name(&units), None);
}

#[test]
fn collect_keeps_resolved_entries_in_order() {
    let entries = vec![
        EnumEntry { pid: 1, name: Some("init".to_string()) },
        EnumEntry { pid: 2, name: None },
        EnumEntry { pid: 3, name: Some("shell".to_string()) },
    ];
    let ps = collect_processes(&entries);
    assert_eq!(ps.len(), 2);
    assert_eq!((ps[0].pid, ps[0].name.as_str()), (1, "init"));
    assert_eq!((ps[1].pid, ps[1].name.as_str()), (3, "shell"));
    assert!(ps.iter().all(|p| !p.is_open));
}

#[test]
fn collect_of_failed_lookups_only_is_empty_not_an_error() {
    let entries = vec![
        EnumEntry { pid: 8, name: None },
        EnumEntry { pid: 9, name: None },
    ];
    assert_eq!(collect_processes(&entries).len(), 0);
}

#[test]
fn collect_of_empty_table_is_empty() {
    let entries: Vec<EnumEntry> = Vec::new();
    assert_eq!(collect_processes(&entries).len(), 0);
}

#[test]
fn every_resolved_entry_is_listed() {
    let mut entries = Vec::new();
    for pid in 0..100u32 {
        let name = if pid % 3 == 0 {
            None
        } else {
            Some(format!("proc{}", pid))
        };
        entries.push(EnumEntry { pid, name });
    }
    let ps = collect_processes(&entries);
    for e in &entries {
        if let Some(n) = &e.name {
            assert!(
                ps.iter().any(|p| p.pid == e.pid && &p.name == n),
                "entry {} missing from listing",
                e.pid
            );
        }
    }
}
