use digger::command::{config_lines, dispatch, resolve_command, setup_message, Command, DiggerError, Step, UsageError};
use digger::config::{Config, CONFIG_DIR, CONFIG_FILE};
use digger::render::{render, render_record, DnsResult, RecordResult, ServerResult};
use digger::request::{default_dns_servers, dns_server_list, LookupArgs, LookupRequest};
use digger::text::{decimal_string, json_string, split_at_char};

fn record(name: &str, value: &str, rtype: &str, ttl: u32) -> RecordResult {
    RecordResult {
        query_name: name.to_string(),
        record: value.to_string(),
        record_type: rtype.to_string(),
        ttl,
        authoritative: false,
    }
}

fn fixture() -> DnsResult {
    DnsResult {
        dns_name: "example.com".to_string(),
        dns_type: "A".to_string(),
        results: vec![ServerResult {
            friendly_name: "Google".to_string(),
            server: "8.8.8.8".to_string(),
            results: vec![
                record("example.com.", "93.184.216.34", "A", 300),
                record("example.com.", "93.184.216.35", "A", 3600),
            ],
        }],
    }
}

fn args(servers: Option<&str>, advanced: bool) -> LookupArgs {
    LookupArgs {
        domain: "example.com".to_string(),
        record_type: "A".to_string(),
        advanced,
        dns_servers: servers.map(|s| s.to_string()),
    }
}

fn body_of(a: &LookupArgs) -> serde_json::Value {
    let body = LookupRequest::from_args(a).to_json();
    serde_json::from_str(&body).unwrap()
}

#[test]
fn config_text_round_trips_through_json() {
    for url in ["http://api.example/lookup", "https://x.test/q?a=\"b\"&c=\\d", "u\nv\tw"] {
        let text = Config::new(url.to_string()).to_json();
        let v: serde_json::Value = serde_json::from_str(&text).unwrap();
        assert_eq!(v["api_url"].as_str(), Some(url));
        assert_eq!(v.as_object().unwrap().len(), 1);
    }
}

#[test]
fn config_text_is_pretty_printed() {
    let text = Config::new("http://api.example/lookup".to_string()).to_json();
    assert_eq!(text, "{\n  \"api_url\": \"http://api.example/lookup\"\n}");
}

#[test]
fn config_location_names() {
    assert_eq!(CONFIG_DIR, ".digger");
    assert_eq!(CONFIG_FILE, "config.json");
}

#[test]
fn default_resolvers_when_no_override() {
    let v = body_of(&args(None, false));
    assert_eq!(v["dns_servers"], serde_json::Value::from(vec!["8.8.8.8", "1.1.1.1"]));
    assert_eq!(default_dns_servers(), vec!["8.8.8.8".to_string(), "1.1.1.1".to_string()]);
}

#[test]
fn override_resolvers_split_on_comma() {
    let v = body_of(&args(Some("9.9.9.9,4.4.4.4"), false));
    assert_eq!(v["dns_servers"], serde_json::Value::from(vec!["9.9.9.9", "4.4.4.4"]));
}

#[test]
fn override_resolvers_kept_as_written() {
    let list = dns_server_list(&Some("9.9.9.9, 9.9.9.9,,x".to_string()));
    assert_eq!(list, vec!["9.9.9.9", " 9.9.9.9", "", "x"]);
}

#[test]
fn split_edge_cases() {
    assert_eq!(split_at_char("", ','), vec![""]);
    assert_eq!(split_at_char(",", ','), vec!["", ""]);
    assert_eq!(split_at_char("abc", ','), vec!["abc"]);
    assert_eq!(split_at_char("é,ü", ','), vec!["é", "ü"]);
}

#[test]
fn request_body_fields() {
    let v = body_of(&args(None, true));
    assert_eq!(v["dns_name"], "example.com");
    assert_eq!(v["dns_type"], "A");
    assert_eq!(v["protocol"], "UDP");
    assert_eq!(v["advanced"], true);
    assert_eq!(v.as_object().unwrap().len(), 5);
    let v = body_of(&args(None, false));
    assert_eq!(v["advanced"], false);
}

#[test]
fn request_body_exact_text() {
    let body = LookupRequest::from_args(&args(Some("9.9.9.9"), false)).to_json();
    assert_eq!(
        body,
        "{\"dns_name\":\"example.com\",\"dns_type\":\"A\",\"dns_servers\":[\"9.9.9.9\"],\"protocol\":\"UDP\",\"advanced\":false}"
    );
}

#[test]
fn json_string_escapes() {
    assert_eq!(json_string("plain"), "\"plain\"");
    assert_eq!(json_string("a\"b\\c"), "\"a\\\"b\\\\c\"");
    assert_eq!(json_string("x\ny"), "\"x\\ny\"");
}

#[test]
fn decimal_numerals() {
    assert_eq!(decimal_string(0), "0");
    assert_eq!(decimal_string(7), "7");
    assert_eq!(decimal_string(300), "300");
    assert_eq!(decimal_string(4294967295), "4294967295");
}

#[test]
fn summary_rendering() {
    let lines = render(&fixture(), false);
    assert_eq!(
        lines,
        vec![
            "DNS Lookup Results:",
            "DNS Name: example.com",
            "DNS Type: A",
            "",
            "Results from DNS Server: Google (8.8.8.8)",
            "- 93.184.216.34",
            "- 93.184.216.35",
        ]
    );
}

#[test]
fn advanced_rendering() {
    let lines = render(&fixture(), true);
    let records: Vec<&String> = lines.iter().skip(5).collect();
    assert_eq!(records.len(), 2);
    assert_eq!(records[0], "example.com.\t300\tIN\tA\t93.184.216.34");
    assert_eq!(records[1], "example.com.\t3600\tIN\tA\t93.184.216.35");
    for line in records {
        let fields: Vec<&str> = line.split('\t').collect();
        assert_eq!(fields.len(), 5);
        assert_eq!(fields[2], "IN");
    }
}

#[test]
fn render_without_servers() {
    let d = DnsResult { dns_name: "n".to_string(), dns_type: "MX".to_string(), results: vec![] };
    assert_eq!(render(&d, true), vec!["DNS Lookup Results:", "DNS Name: n", "DNS Type: MX"]);
}

#[test]
fn render_record_modes() {
    let r = record("a.", "v", "TXT", 0);
    assert_eq!(render_record(&r, false), "- v");
    assert_eq!(render_record(&r, true), "a.\t0\tIN\tTXT\tv");
}

#[test]
fn resolve_setup_wins() {
    let c = resolve_command(Some("http://u".to_string()), true, None, None, false, None);
    assert!(matches!(c, Ok(Command::Setup(ref u)) if u == "http://u"));
}

#[test]
fn resolve_show_config() {
    let c = resolve_command(None, true, None, None, false, None);
    assert!(matches!(c, Ok(Command::ShowConfig)));
}

#[test]
fn resolve_lookup_needs_both_positionals() {
    let c = resolve_command(None, false, None, None, false, None);
    assert!(matches!(c, Err(UsageError::MissingDomain)));
    let c = resolve_command(None, false, Some("example.com".to_string()), None, false, None);
    assert!(matches!(c, Err(UsageError::MissingRecordType)));
    let c = resolve_command(
        None,
        false,
        Some("example.com".to_string()),
        Some("A".to_string()),
        true,
        Some("9.9.9.9".to_string()),
    );
    match c {
        Ok(Command::Lookup(a)) => {
            assert_eq!(a.domain, "example.com");
            assert_eq!(a.record_type, "A");
            assert!(a.advanced);
            assert_eq!(a.dns_servers.as_deref(), Some("9.9.9.9"));
        }
        _ => panic!("expected a lookup"),
    }
}

#[test]
fn usage_messages() {
    assert_eq!(UsageError::MissingDomain.message(), "The domain to look up is required");
    assert_eq!(UsageError::MissingRecordType.message(), "The DNS record type is required");
}

#[test]
fn lookup_without_config_is_fatal() {
    let r = dispatch(Command::Lookup(args(None, false)), None);
    match r {
        Err(e) => {
            assert!(matches!(e, DiggerError::ConfigMissing));
            assert!(e.message().contains("Configuration not found"));
        }
        Ok(_) => panic!("expected ConfigMissing"),
    }
}

#[test]
fn show_config_without_config_is_fatal() {
    assert!(matches!(dispatch(Command::ShowConfig, None), Err(DiggerError::ConfigMissing)));
}

#[test]
fn error_messages() {
    assert_eq!(
        DiggerError::ConfigMissing.message(),
        "Configuration not found. Run 'digger --setup <URL>' first."
    );
    assert_eq!(DiggerError::Transport.message(), "Failed to send request");
    assert_eq!(DiggerError::Schema.message(), "Failed to parse response JSON");
    assert_eq!(DiggerError::ConfigIo.message(), "Failed to write configuration");
}

#[test]
fn setup_then_lookup() {
    let setup = resolve_command(Some("http://api.example/lookup".to_string()), false, None, None, false, None);
    let step = dispatch(setup.ok().unwrap(), None);
    let saved = match step {
        Ok(Step::Save { config, message }) => {
            assert_eq!(message, "API URL set to http://api.example/lookup");
            config
        }
        _ => panic!("expected a save"),
    };
    assert_eq!(saved.api_url, "http://api.example/lookup");
    let lookup = resolve_command(None, false, Some("example.com".to_string()), Some("A".to_string()), false, None);
    match dispatch(lookup.ok().unwrap(), Some(saved)) {
        Ok(Step::Send { url, body, advanced }) => {
            assert_eq!(url, "http://api.example/lookup");
            assert!(!advanced);
            let v: serde_json::Value = serde_json::from_str(&body).unwrap();
            assert_eq!(v["dns_name"], "example.com");
        }
        _ => panic!("expected a send"),
    }
    let lines = render(&fixture(), false);
    assert_eq!(lines.iter().filter(|l| l.starts_with("- ")).count(), 2);
    assert!(lines.contains(&"DNS Name: example.com".to_string()));
    assert!(lines.contains(&"DNS Type: A".to_string()));
}

#[test]
fn show_config_lines() {
    let c = Config::new("http://api.example/lookup".to_string());
    assert_eq!(config_lines(&c), vec!["Current configuration:", "API URL: http://api.example/lookup"]);
    match dispatch(Command::ShowConfig, Some(Config::new("http://u".to_string()))) {
        Ok(Step::Show { lines }) => assert_eq!(lines, vec!["Current configuration:", "API URL: http://u"]),
        _ => panic!("expected show"),
    }
    assert_eq!(setup_message("x"), "API URL set to x");
}
