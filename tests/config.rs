use chat_translate::config::{is_true_word, DEFAULT_ENDPOINT, DEFAULT_MODEL, DEFAULT_TIMEOUT_SECS};
use chat_translate::decimal::{chars_of, parse_u64};
use chat_translate::{
    bearer_value, build_prompt, chat_messages, resolve_config, resolve_stream, resolve_timeout,
    Options, TranslateError,
};

fn bag(pairs: &[(&str, &str)]) -> Options {
    let mut o = Options::new();
    for (k, v) in pairs {
        o.insert(k, v);
    }
    o
}

#[test]
fn missing_apikey_is_missing_credential() {
    let o = bag(&[("model", "m"), ("endpoint", "http://x"), ("timeout", "5")]);
    assert!(matches!(resolve_config(&o, "fr"), Err(TranslateError::MissingCredential)));
    let empty = Options::new();
    assert!(matches!(resolve_config(&empty, "fr"), Err(TranslateError::MissingCredential)));
    assert_eq!(TranslateError::MissingCredential.message(), "apikey not found");
}

#[test]
fn apikey_key_is_case_sensitive() {
    let o = bag(&[("APIKEY", "k")]);
    assert!(matches!(resolve_config(&o, "fr"), Err(TranslateError::MissingCredential)));
}

#[test]
fn defaults_when_only_apikey() {
    let o = bag(&[("apikey", "sk-1")]);
    let spec = resolve_config(&o, "de").unwrap();
    assert_eq!(spec.api_key, "sk-1");
    assert_eq!(spec.timeout_secs, 30);
    assert_eq!(DEFAULT_TIMEOUT_SECS, 30);
    assert_eq!(spec.endpoint, "https://api.openai.com/v1/chat/completions");
    assert_eq!(spec.endpoint, DEFAULT_ENDPOINT);
    assert_eq!(spec.model, "gpt-4o");
    assert_eq!(spec.model, DEFAULT_MODEL);
    assert_eq!(spec.system_prompt, "Output Language:de");
    assert!(!spec.stream);
    assert_eq!(spec.temperature, None);
    assert_eq!(spec.top_p, None);
    assert_eq!(spec.presence_penalty, None);
    assert_eq!(spec.frequency_penalty, None);
}

#[test]
fn configured_values_carried() {
    let o = bag(&[
        ("apikey", "k"),
        ("endpoint", "http://localhost:8080/v1/chat"),
        ("model", "llama"),
        ("prompt", "Translate faithfully."),
        ("stream", "TRUE"),
        ("timeout", "45"),
        ("temperature", "0.2"),
        ("top_p", "0.9"),
        ("presence_penalty", "abc"),
        ("frequency_penalty", "1.5"),
    ]);
    let spec = resolve_config(&o, "zh_cn").unwrap();
    assert_eq!(spec.endpoint, "http://localhost:8080/v1/chat");
    assert_eq!(spec.model, "llama");
    assert_eq!(spec.system_prompt, "Translate faithfully.\nOutput Language:zh_cn");
    assert!(spec.stream);
    assert_eq!(spec.timeout_secs, 45);
    assert_eq!(spec.temperature.as_deref(), Some("0.2"));
    assert_eq!(spec.top_p.as_deref(), Some("0.9"));
    assert_eq!(spec.presence_penalty.as_deref(), Some("abc"));
    assert_eq!(spec.frequency_penalty.as_deref(), Some("1.5"));
}

#[test]
fn timeout_numerals() {
    assert_eq!(resolve_timeout(Some("45")), 45);
    assert_eq!(resolve_timeout(Some("0")), 0);
    assert_eq!(resolve_timeout(Some("+7")), 7);
    assert_eq!(resolve_timeout(Some("007")), 7);
    assert_eq!(resolve_timeout(Some("18446744073709551615")), u64::MAX);
    assert_eq!(resolve_timeout(None), 30);
}

#[test]
fn timeout_invalid_falls_back() {
    assert_eq!(resolve_timeout(Some("")), 30);
    assert_eq!(resolve_timeout(Some("+")), 30);
    assert_eq!(resolve_timeout(Some("-1")), 30);
    assert_eq!(resolve_timeout(Some("4x")), 30);
    assert_eq!(resolve_timeout(Some(" 5")), 30);
    assert_eq!(resolve_timeout(Some("2.5")), 30);
    assert_eq!(resolve_timeout(Some("18446744073709551616")), 30);
    assert_eq!(resolve_timeout(Some("99999999999999999999999")), 30);
}

#[test]
fn parse_u64_agrees_with_std() {
    for s in ["", "+", "-", "0", "+0", "-0", "12", "1_000", "٣", "18446744073709551615", "18446744073709551616", "00000000000000000000000001"] {
        assert_eq!(parse_u64(s), s.parse::<u64>().ok(), "{}", s);
    }
}

#[test]
fn chars_of_keeps_order() {
    assert_eq!(chars_of("aé€"), vec!['a', 'é', '€']);
    assert_eq!(chars_of(""), Vec::<char>::new());
}

#[test]
fn stream_flag() {
    assert!(resolve_stream(Some("true")));
    assert!(resolve_stream(Some("TRUE")));
    assert!(resolve_stream(Some("TrUe")));
    assert!(!resolve_stream(Some("yes")));
    assert!(!resolve_stream(Some("1")));
    assert!(!resolve_stream(Some(" true")));
    assert!(!resolve_stream(Some("")));
    assert!(!resolve_stream(None));
    assert!(is_true_word("true"));
    assert!(!is_true_word("True"));
}

#[test]
fn prompt_ends_with_language_line() {
    assert_eq!(build_prompt(None, "en"), "Output Language:en");
    assert_eq!(build_prompt(Some("Be brief."), "en"), "Be brief.\nOutput Language:en");
    assert_eq!(build_prompt(Some(""), "ja"), "\nOutput Language:ja");
    let p = build_prompt(Some("x"), "pt_BR");
    assert!(p.ends_with("\nOutput Language:pt_BR"));
}

#[test]
fn bearer_header() {
    assert_eq!(bearer_value("sk-abc"), "Bearer sk-abc");
}

#[test]
fn conversation_has_system_then_user() {
    let o = bag(&[("apikey", "k"), ("prompt", "P")]);
    let spec = resolve_config(&o, "fr").unwrap();
    let m = chat_messages(&spec, "Hello");
    assert_eq!(m.len(), 2);
    assert_eq!(m[0].role, "system");
    assert_eq!(m[0].content, "P\nOutput Language:fr");
    assert_eq!(m[1].role, "user");
    assert_eq!(m[1].content, "Hello");
}

#[test]
fn options_insert_replaces() {
    let mut o = Options::new();
    assert_eq!(o.get("a"), None);
    o.insert("a", "1");
    o.insert("b", "2");
    o.insert("a", "3");
    assert_eq!(o.get("a"), Some("3"));
    assert_eq!(o.get("b"), Some("2"));
    assert_eq!(o.get("c"), None);
}

#[test]
fn outbound_headers() {
    let o = bag(&[("apikey", "sk-xyz")]);
    let spec = resolve_config(&o, "fr").unwrap();
    let h = chat_translate::request_headers(&spec);
    assert_eq!(h.len(), 3);
    assert_eq!(h[0], ("Accept".to_string(), "application/json, text/event-stream".to_string()));
    assert_eq!(h[1], ("Content-Type".to_string(), "application/json".to_string()));
    assert_eq!(h[2], ("authorization".to_string(), "Bearer sk-xyz".to_string()));
}
