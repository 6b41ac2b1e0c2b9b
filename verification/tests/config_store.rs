use worker_panel::config::{
    default_config, encode_saved_config, parse_saved_config, load_local_config, LoadProbe,
    SavedConfig, ConfigUpdate, saved_from_update,
};
use worker_panel::dispatch::get_config;

fn cfg(url: &str, name: &str) -> SavedConfig {
    SavedConfig { orchestrator_url: url.to_string(), worker_name: name.to_string() }
}

#[test]
fn load_missing_returns_default() {
    let r = load_local_config(&LoadProbe::Missing);
    let c = r.expect("a missing file must yield the default");
    assert_eq!(c.orchestrator_url, "http://localhost:8000");
    assert_eq!(c.worker_name, "RPA-Worker-01");
}

#[test]
fn get_config_never_fails_without_a_directory() {
    // no resolvable or writable configuration directory probes as Missing
    let r = get_config(&LoadProbe::Missing);
    let c = r.expect("get-config must serve the default");
    assert_eq!(c, default_config());
}

#[test]
fn encode_is_exact_pretty_json() {
    let s = encode_saved_config(&default_config());
    assert_eq!(
        s,
        "{\n  \"orchestrator_url\": \"http://localhost:8000\",\n  \"worker_name\": \"RPA-Worker-01\"\n}"
    );
}

#[test]
fn round_trip_plain() {
    let c = cfg("https://orchestrator.example:8443", "floor-2-worker");
    let s = encode_saved_config(&c);
    assert_eq!(parse_saved_config(&s), Some(c));
}

#[test]
fn round_trip_escaped_characters() {
    let c = cfg("http://host/?q=\"a\\b\"", "tab\there\nand \u{1} ctrl é日本");
    let s = encode_saved_config(&c);
    assert_eq!(parse_saved_config(&s), Some(c));
}

#[test]
fn escape_uses_lowercase_hex_for_controls() {
    let c = cfg("u", "a\u{1}b");
    let s = encode_saved_config(&c);
    assert!(s.contains("a\\u0001b"));
}

#[test]
fn repeated_saves_do_not_change_loads() {
    let c = cfg("http://localhost:9000", "w");
    let first = encode_saved_config(&c);
    let second = encode_saved_config(&c);
    assert_eq!(first, second);
    assert_eq!(parse_saved_config(&first), parse_saved_config(&second));
}

#[test]
fn parse_rejects_malformed_text() {
    assert_eq!(parse_saved_config(""), None);
    assert_eq!(parse_saved_config("not json at all"), None);
    assert_eq!(parse_saved_config("{\"orchestrator_url\":\"x\"}"), None);
    // truncated canonical text
    assert_eq!(parse_saved_config("{\n  \"orchestrator_url\": \"x"), None);
    // trailing junk after the canonical text
    let mut s = encode_saved_config(&default_config());
    s.push('x');
    assert_eq!(parse_saved_config(&s), None);
}

#[test]
fn load_reports_decode_error() {
    let r = load_local_config(&LoadProbe::Content("garbage".to_string()));
    assert_eq!(r.unwrap_err(), "Erro ao processar configuração");
}

#[test]
fn load_reports_read_error() {
    let r = load_local_config(&LoadProbe::ReadError("permission denied".to_string()));
    assert_eq!(r.unwrap_err(), "Erro ao ler arquivo de configuração: permission denied");
}

#[test]
fn load_accepts_what_save_wrote() {
    let c = cfg("http://10.0.0.1:8000", "bench");
    let r = load_local_config(&LoadProbe::Content(encode_saved_config(&c)));
    assert_eq!(r.unwrap(), c);
}

#[test]
fn saved_subset_excludes_credentials() {
    let u = ConfigUpdate {
        orchestrator_url: "http://localhost:8000".to_string(),
        api_key: "SECRET-REDACTED".to_string(),
        tenant_id: "tenant-9".to_string(),
        worker_name: "w-1".to_string(),
    };
    let c = saved_from_update(&u);
    assert_eq!(c.orchestrator_url, "http://localhost:8000");
    assert_eq!(c.worker_name, "w-1");
    let s = encode_saved_config(&c);
    assert!(!s.contains("SECRET-REDACTED"));
    assert!(!s.contains("tenant-9"));
}

#[test]
fn load_accepts_a_compact_rendering() {
    let r = load_local_config(&LoadProbe::Content(
        "{\"orchestrator_url\":\"x\",\"worker_name\":\"y\"}".to_string(),
    ));
    assert_eq!(r.unwrap(), cfg("x", "y"));
}

#[test]
fn load_accepts_reordered_members() {
    let r = load_local_config(&LoadProbe::Content(
        "{\n  \"worker_name\": \"y\",\n  \"orchestrator_url\": \"x\"\n}".to_string(),
    ));
    assert_eq!(r.unwrap(), cfg("x", "y"));
}

#[test]
fn parse_accepts_standard_escapes() {
    let s = "{\"orchestrator_url\":\"a\\tb\\nc\",\"worker_name\":\"A\\u0042\\u00e9\\/\"}";
    assert_eq!(parse_saved_config(s), Some(cfg("a\tb\nc", "AB\u{e9}/")));
}

#[test]
fn parse_accepts_uppercase_hex_escapes() {
    let s = "{\"orchestrator_url\":\"\\u004F\",\"worker_name\":\"\\u20AC\"}";
    assert_eq!(parse_saved_config(s), Some(cfg("O", "\u{20ac}")));
}

#[test]
fn parse_rejects_surrogate_escapes() {
    let s = "{\"orchestrator_url\":\"\\uD83D\\uDE00\",\"worker_name\":\"y\"}";
    assert_eq!(parse_saved_config(s), None);
}

#[test]
fn parse_tolerates_extra_whitespace() {
    let s = " {\r\n\t\"orchestrator_url\" : \"x\" ,\n \"worker_name\"\t: \"y\" }\n";
    assert_eq!(parse_saved_config(s), Some(cfg("x", "y")));
}
