use rifthold::enumerate::build_entries;
use rifthold::model::RawWindowRecord;
use rifthold::provider::{
    MacWindowProvider, MockWindowProvider, WindowProvider, WindowService, compose_infos,
    infos_without_thumbnails,
};
use rifthold::text::{parse_window_id, str_contains, str_is_blank, u64_to_dec_string};

fn record(
    window_number: u64,
    owner_name: Option<&str>,
    title: Option<&str>,
    owner_pid: Option<i64>,
    layer: i64,
) -> RawWindowRecord {
    RawWindowRecord {
        window_number,
        owner_name: owner_name.map(|s| s.to_owned()),
        title: title.map(|s| s.to_owned()),
        owner_pid,
        layer,
    }
}

#[test]
fn decimal_rendering() {
    assert_eq!(u64_to_dec_string(0), "0");
    assert_eq!(u64_to_dec_string(7), "7");
    assert_eq!(u64_to_dec_string(10), "10");
    assert_eq!(u64_to_dec_string(1234567890), "1234567890");
    assert_eq!(u64_to_dec_string(u64::MAX), "18446744073709551615");
}

#[test]
fn id_parsing_round_trips() {
    for n in [0u64, 1, 9, 10, 42, 500, 1234567890, u64::MAX] {
        assert_eq!(parse_window_id(&u64_to_dec_string(n)), Some(n));
    }
    assert_eq!(parse_window_id("007"), Some(7));
    assert_eq!(parse_window_id(""), None);
    assert_eq!(parse_window_id("12a"), None);
    assert_eq!(parse_window_id("-3"), None);
    assert_eq!(parse_window_id("18446744073709551616"), None);
}

#[test]
fn blankness() {
    assert!(str_is_blank(""));
    assert!(str_is_blank("   "));
    assert!(str_is_blank("\t\r\n"));
    assert!(!str_is_blank(" x "));
    assert!(!str_is_blank("VS Code"));
}

#[test]
fn substring_search() {
    assert!(str_contains("main.rs — VS Code", "VS Code"));
    assert!(str_contains("anything", ""));
    assert!(!str_contains("", "x"));
    assert!(!str_contains("abc", "abd"));
    assert!(str_contains("aaab", "aab"));
}

#[test]
fn filtering_drops_self_layers_and_control_center() {
    let records = vec![
        record(1, Some("Safari"), Some("Apple"), Some(100), 0),
        record(2, Some("Overlay"), Some("overlay window"), Some(42), 0),
        record(3, Some("Dock"), None, Some(200), 20),
        record(4, Some("Control Center"), Some("Control Center"), Some(300), 0),
        record(5, Some("Terminal"), None, Some(400), 0),
    ];
    let entries = build_entries(&records, 42);
    let ids: Vec<&str> = entries.iter().map(|e| e.id.as_str()).collect();
    assert_eq!(ids, vec!["1", "5"]);
}

#[test]
fn missing_owner_name_becomes_placeholder() {
    let records = vec![record(9, None, None, Some(1), 0), record(10, Some("  "), None, Some(2), 0)];
    let entries = build_entries(&records, 0);
    assert_eq!(entries.len(), 2);
    assert_eq!(entries[0].app_name, "App");
    assert_eq!(entries[0].title, "App");
    assert!(entries[0].is_title_fallback);
    assert_eq!(entries[1].app_name, "App");
}

#[test]
fn empty_title_falls_back_to_app_name() {
    let records = vec![record(7, Some("VS Code"), Some(""), Some(11), 0)];
    let entries = build_entries(&records, 0);
    assert_eq!(entries.len(), 1);
    assert_eq!(entries[0].title, "VS Code");
    assert_eq!(entries[0].app_name, "VS Code");
    assert!(entries[0].is_title_fallback);
    let infos = infos_without_thumbnails(&entries);
    assert_eq!(infos[0].title, "VS Code");
    assert_eq!(infos[0].app_name, "VS Code");
    assert!(infos[0].is_title_fallback);
    assert!(infos[0].thumbnail.is_none());
}

#[test]
fn real_title_is_not_fallback() {
    let records = vec![record(8, Some("Safari"), Some("Apple — Start"), Some(11), 0)];
    let entries = build_entries(&records, 0);
    assert_eq!(entries[0].title, "Apple — Start");
    assert_eq!(entries[0].app_name, "Safari");
    assert!(!entries[0].is_title_fallback);
}

#[test]
fn fallback_flag_iff_title_equals_app_name() {
    let records = vec![
        record(1, Some("Notes"), None, Some(5), 0),
        record(2, Some("Notes"), Some("shopping list"), Some(5), 0),
        record(3, Some("Notes"), Some("   "), Some(5), 0),
    ];
    let entries = build_entries(&records, 0);
    for e in &entries {
        assert_eq!(e.is_title_fallback, e.title == e.app_name);
    }
}

#[test]
fn list_ids_are_unique() {
    let records = vec![
        record(10, Some("A"), None, Some(1), 0),
        record(11, Some("B"), None, Some(2), 0),
        record(12, Some("C"), None, Some(3), 0),
        record(101, Some("D"), None, Some(4), 0),
    ];
    let entries = build_entries(&records, 0);
    let infos = infos_without_thumbnails(&entries);
    for i in 0..infos.len() {
        for j in 0..infos.len() {
            if i != j {
                assert_ne!(infos[i].id, infos[j].id);
            }
        }
    }
}

#[test]
fn snapshot_resolves_after_ingest() {
    let mut provider = MacWindowProvider::new();
    assert!(provider.find_entry("1").is_none());
    let records = vec![record(1, Some("Safari"), Some("Apple"), Some(100), 0)];
    provider.ingest_records(&records, 0);
    let e = provider.find_entry("1").expect("id 1 should resolve");
    assert_eq!(e.title, "Apple");
    assert_eq!(e.app_name, "Safari");
    assert_eq!(e.owner_pid, Some(100));
}

#[test]
fn replacement_forgets_previous_snapshot() {
    let mut provider = MacWindowProvider::new();
    let first = vec![record(1, Some("Safari"), Some("Apple"), Some(100), 0)];
    provider.ingest_records(&first, 0);
    assert!(provider.find_entry("1").is_some());
    provider.clear_cache();
    let second = vec![record(2, Some("Terminal"), Some("zsh"), Some(200), 0)];
    provider.ingest_records(&second, 0);
    assert!(provider.find_entry("1").is_none());
    assert!(provider.find_entry("2").is_some());
}

#[test]
fn duplicate_window_numbers_resolve_to_last() {
    let mut provider = MacWindowProvider::new();
    let records = vec![
        record(1, Some("First"), Some("one"), Some(100), 0),
        record(1, Some("Second"), Some("two"), Some(200), 0),
    ];
    provider.ingest_records(&records, 0);
    let e = provider.find_entry("1").expect("id 1 should resolve");
    assert_eq!(e.app_name, "Second");
}

#[test]
fn compose_correlates_by_index() {
    let records = vec![
        record(1, Some("A"), Some("first"), Some(1), 0),
        record(2, Some("B"), Some("second"), Some(2), 0),
    ];
    let entries = build_entries(&records, 0);
    let thumbnails = vec![Some("data:one".to_owned()), None];
    let infos = compose_infos(&entries, &thumbnails);
    assert_eq!(infos.len(), 2);
    assert_eq!(infos[0].id, "1");
    assert_eq!(infos[0].thumbnail.as_deref(), Some("data:one"));
    assert_eq!(infos[1].id, "2");
    assert!(infos[1].thumbnail.is_none());
}

#[test]
fn mock_provider_lists_fixed_windows() {
    let mut provider = MockWindowProvider::default();
    let infos = provider.list(true);
    assert_eq!(infos.len(), 4);
    assert_eq!(infos[0].id, "1");
    assert_eq!(infos[0].title, "Mock Window — code editor");
    assert_eq!(infos[0].app_name, "VS Code");
    assert!(!infos[0].is_title_fallback);
    assert!(infos[0].thumbnail.is_none());
    assert_eq!(infos[3].id, "4");
    assert_eq!(infos[3].app_name, "Arc");
    for i in 0..infos.len() {
        for j in 0..infos.len() {
            if i != j {
                assert_ne!(infos[i].id, infos[j].id);
            }
        }
    }
}

#[test]
fn mock_provider_activates_anything() {
    let mut provider = MockWindowProvider::default();
    assert!(provider.activate("1").is_ok());
    provider.clear_cache();
    assert!(provider.activate("nope").is_ok());
}

#[test]
fn service_forwards_and_defaults() {
    let mut service = WindowService::new(MockWindowProvider::default());
    let infos = service.list_windows(None, None);
    assert_eq!(infos.len(), 4);
    let refreshed = service.list_windows(Some(true), Some(false));
    assert_eq!(refreshed.len(), 4);
    assert!(service.activate("2").is_ok());
    service.clear_cache();
    assert_eq!(service.list(false).len(), 4);
}
