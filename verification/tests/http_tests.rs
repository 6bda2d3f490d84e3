use lotwire::{index, logs, render_logs, respond_index, respond_logs, HttpResponse, Level, LogServer, Settings};

fn sink(level: Level, capacity: u32) -> LogServer {
    let settings = Settings::with_values("127.0.0.1", 8080, level, capacity);
    LogServer::with_settings(settings)
}

fn has_header(resp: &HttpResponse, name: &str, value: &str) -> bool {
    resp.headers.iter().any(|h| h.0 == name && h.1 == value)
}

fn assert_cors(resp: &HttpResponse) {
    assert!(has_header(resp, "Access-Control-Allow-Origin", "*"));
    assert!(has_header(resp, "Access-Control-Allow-Methods", "POST, GET, PATCH, OPTIONS, DELETE"));
    assert!(has_header(resp, "Access-Control-Allow-Headers", "*"));
    assert!(has_header(resp, "Access-Control-Allow-Credentials", "true"));
}

#[test]
fn index_reports_liveness() {
    assert_eq!(index(), "Logserver online");
}

#[test]
fn fresh_server_returns_empty_array() {
    let server = sink(Level::Trace, 50);
    let resp = respond_logs(&server);
    assert_eq!(resp.status, 200);
    assert_eq!(resp.body, "[]");
}

#[test]
fn test_has_logs() {
    // With minimum severity Trace and capacity 50, a debug and an error
    // call must both be served, in submission order, with matching levels
    // and messages.
    let settings = Settings::with_values("127.0.0.1", 8080, Level::Trace, 50);
    let mut server = LogServer::with_settings(settings);
    server.record(Level::Debug, "has_logs", "Debug");
    server.record(Level::Error, "has_logs", "Error");
    let resp = respond_logs(&server);
    println!("body = {:?}", resp.body);
    assert!(resp.body.len() > 2);
    assert_eq!(
        resp.body,
        "[{\"level\":\"DEBUG\",\"module\":\"has_logs\",\"message\":\"Debug\"},\
         {\"level\":\"ERROR\",\"module\":\"has_logs\",\"message\":\"Error\"}]"
    );
}

#[test]
fn logs_route_returns_snapshot_with_status_200() {
    let mut server = sink(Level::Trace, 10);
    server.record(Level::Info, "app", "first");
    server.record(Level::Warn, "app", "second");
    let (status, items) = logs(&server);
    assert_eq!(status, 200);
    assert_eq!(items.len(), 2);
    assert_eq!(items[0].message, "first");
    assert_eq!(items[1].message, "second");
}

#[test]
fn excluded_module_never_served() {
    let mut server = sink(Level::Trace, 10);
    server.record(Level::Error, "rocket::handler", "internal");
    let resp = respond_logs(&server);
    assert_eq!(resp.body, "[]");
    assert!(!resp.body.contains("internal"));
}

#[test]
fn every_response_carries_cors_headers() {
    let server = sink(Level::Trace, 5);
    let live = respond_index();
    assert_eq!(live.status, 200);
    assert_eq!(live.body, "Logserver online");
    assert_cors(&live);
    let empty_logs = respond_logs(&server);
    assert_cors(&empty_logs);
    let mut busy = sink(Level::Trace, 5);
    busy.record(Level::Error, "app", "x");
    let full_logs = respond_logs(&busy);
    assert_cors(&full_logs);
}

#[test]
fn render_escapes_json_metacharacters() {
    let mut server = sink(Level::Trace, 5);
    server.record(Level::Info, "app", "quote \" backslash \\ newline \n tab \t done");
    let items = server.snapshot();
    let body = render_logs(&items);
    assert_eq!(
        body,
        "[{\"level\":\"INFO\",\"module\":\"app\",\"message\":\
         \"quote \\\" backslash \\\\ newline \\n tab \\t done\"}]"
    );
}

#[test]
fn render_escapes_control_characters() {
    let mut server = sink(Level::Trace, 5);
    server.record(Level::Info, "app", "bell \u{7} escape \u{1b} return \r end");
    let items = server.snapshot();
    let body = render_logs(&items);
    assert_eq!(
        body,
        "[{\"level\":\"INFO\",\"module\":\"app\",\"message\":\
         \"bell \\u0007 escape \\u001b return \\r end\"}]"
    );
}

#[test]
fn render_joins_items_with_commas() {
    let mut server = sink(Level::Trace, 5);
    server.record(Level::Error, "a", "1");
    server.record(Level::Warn, "b", "2");
    server.record(Level::Info, "c", "3");
    let body = render_logs(&server.snapshot());
    assert_eq!(
        body,
        "[{\"level\":\"ERROR\",\"module\":\"a\",\"message\":\"1\"},\
         {\"level\":\"WARN\",\"module\":\"b\",\"message\":\"2\"},\
         {\"level\":\"INFO\",\"module\":\"c\",\"message\":\"3\"}]"
    );
}
