use lotwire::{contains_sub, str_eq, Level, LogServer, Settings};

fn sink(level: Level, capacity: u32) -> LogServer {
    let settings = Settings::with_values("127.0.0.1", 8080, level, capacity);
    LogServer::with_settings(settings)
}

#[test]
fn with_values_sets_every_field() {
    let settings = Settings::with_values("0.0.0.0", 9000, Level::Info, 7);
    assert_eq!(settings.address, "0.0.0.0");
    assert_eq!(settings.port, 9000);
    assert_eq!(settings.level, Level::Info);
    assert_eq!(settings.num_records, 7);
}

#[test]
fn enabled_matches_total_order() {
    let levels = [Level::Error, Level::Warn, Level::Info, Level::Debug, Level::Trace];
    for min in levels {
        let server = sink(min, 4);
        for level in levels {
            assert_eq!(server.enabled(level), level.rank() >= min.rank());
        }
    }
    // Boundary cases: a level equal to the minimum passes, one step less
    // severe fails.
    let warn_server = sink(Level::Warn, 4);
    assert!(warn_server.enabled(Level::Error));
    assert!(warn_server.enabled(Level::Warn));
    assert!(!warn_server.enabled(Level::Info));
    assert!(!warn_server.enabled(Level::Debug));
    assert!(!warn_server.enabled(Level::Trace));
}

#[test]
fn fifo_eviction_keeps_last_capacity_items() {
    let mut server = sink(Level::Trace, 3);
    for i in 0..7 {
        let message = format!("message {}", i);
        server.record(Level::Info, "app", &message);
    }
    let items = server.snapshot();
    assert_eq!(items.len(), 3);
    assert_eq!(items[0].message, "message 4");
    assert_eq!(items[1].message, "message 5");
    assert_eq!(items[2].message, "message 6");
}

#[test]
fn buffer_never_exceeds_capacity() {
    let mut server = sink(Level::Trace, 1);
    server.record(Level::Error, "app", "one");
    server.record(Level::Error, "app", "two");
    let items = server.snapshot();
    assert_eq!(items.len(), 1);
    assert_eq!(items[0].message, "two");
}

#[test]
fn rejected_severity_is_not_recorded() {
    let mut server = sink(Level::Warn, 10);
    server.record(Level::Info, "app", "too quiet");
    server.record(Level::Debug, "app", "quieter still");
    server.record(Level::Trace, "app", "quietest");
    assert_eq!(server.snapshot().len(), 0);
    server.record(Level::Warn, "app", "loud enough");
    assert_eq!(server.snapshot().len(), 1);
}

#[test]
fn exposure_layer_modules_are_excluded() {
    let mut server = sink(Level::Trace, 10);
    server.record(Level::Error, "rocket::server", "serving");
    server.record(Level::Error, "reqwest::client", "fetching");
    server.record(Level::Error, "my_rocket_wrapper", "still the exposure layer");
    assert_eq!(server.snapshot().len(), 0);
    server.record(Level::Error, "app", "kept");
    let items = server.snapshot();
    assert_eq!(items.len(), 1);
    assert_eq!(items[0].module, "app");
}

#[test]
fn recorded_item_carries_label_module_message() {
    let mut server = sink(Level::Trace, 5);
    server.record(Level::Warn, "app::db", "slow query");
    let items = server.snapshot();
    assert_eq!(items.len(), 1);
    assert_eq!(items[0].level, "WARN");
    assert_eq!(items[0].module, "app::db");
    assert_eq!(items[0].message, "slow query");
}

#[test]
fn snapshot_copies_and_flush_is_noop() {
    let mut server = sink(Level::Trace, 5);
    server.record(Level::Info, "app", "kept");
    let before = server.snapshot();
    server.flush();
    let after = server.snapshot();
    assert_eq!(before.len(), 1);
    assert_eq!(after.len(), 1);
    assert_eq!(after[0].message, "kept");
}

#[test]
fn from_label_parses_each_label() {
    assert_eq!(Level::from_label("error"), Level::Error);
    assert_eq!(Level::from_label("warn"), Level::Warn);
    assert_eq!(Level::from_label("info"), Level::Info);
    assert_eq!(Level::from_label("debug"), Level::Debug);
    assert_eq!(Level::from_label("trace"), Level::Trace);
}

#[test]
fn from_label_falls_back_to_error() {
    assert_eq!(Level::from_label("verbose"), Level::Error);
    assert_eq!(Level::from_label("WARN"), Level::Error);
    assert_eq!(Level::from_label(""), Level::Error);
}

#[test]
fn contains_sub_finds_substrings() {
    assert!(contains_sub("rocket::response", "rocket"));
    assert!(contains_sub("my_reqwest_client", "reqwest"));
    assert!(contains_sub("abc", ""));
    assert!(contains_sub("abc", "abc"));
    assert!(!contains_sub("abc", "abcd"));
    assert!(!contains_sub("rock et", "rocket"));
    assert!(!contains_sub("", "rocket"));
}

#[test]
fn str_eq_compares_exactly() {
    assert!(str_eq("warn", "warn"));
    assert!(!str_eq("warn", "warne"));
    assert!(!str_eq("warn", "Warn"));
    assert!(str_eq("", ""));
}
