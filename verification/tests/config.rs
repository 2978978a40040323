use askollama::{
    Settings, SettingsStore, build_prompt, combine_with_user_prompt, desktop_entry, endpoint_url,
    request_body, resolve_watch_dir,
};

#[test]
fn default_settings_values() {
    let s = Settings::default();
    assert_eq!(s.screenshots_dir, None);
    assert!(s.auto_prompt);
}

#[test]
fn settings_round_trip() {
    let mut store = SettingsStore::new();
    let s = Settings { screenshots_dir: Some("/data/shots".to_string()), auto_prompt: false };
    store.set(s);
    let got = store.get();
    assert_eq!(got.screenshots_dir, Some("/data/shots".to_string()));
    assert!(!got.auto_prompt);
}

#[test]
fn get_returns_a_snapshot() {
    let mut store = SettingsStore::new();
    store.set(Settings { screenshots_dir: Some("/a".to_string()), auto_prompt: true });
    let first = store.get();
    store.set(Settings { screenshots_dir: Some("/b".to_string()), auto_prompt: false });
    assert_eq!(first.screenshots_dir, Some("/a".to_string()));
    assert_eq!(store.get().screenshots_dir, Some("/b".to_string()));
}

#[test]
fn override_directory_wins() {
    let s = Settings { screenshots_dir: Some("/custom".to_string()), auto_prompt: true };
    let dir = resolve_watch_dir(&Some("/home/u/Pictures".to_string()), &s);
    assert_eq!(dir, "/custom");
}

#[test]
fn default_directory_gets_subfolder() {
    let s = Settings::default();
    let dir = resolve_watch_dir(&Some("/home/u/Pictures".to_string()), &s);
    assert_eq!(dir, "/home/u/Pictures/Screenshots");
    let fallback = resolve_watch_dir(&None, &s);
    assert_eq!(fallback, "/tmp/Screenshots");
}

#[test]
fn desktop_entry_contents() {
    let entry = desktop_entry("/usr/bin/askollama");
    assert_eq!(
        entry,
        "[Desktop Entry]\nType=Application\nName=askollama\nExec=/usr/bin/askollama\nX-GNOME-Autostart-enabled=true\n"
    );
}

#[test]
fn endpoint_is_the_local_service() {
    assert_eq!(endpoint_url(), "http://127.0.0.1:11434/v1/complete");
}

#[test]
fn prompt_has_fixed_preamble() {
    let p = build_prompt("screen text");
    assert_eq!(
        p,
        "You are an assistant. Explain the following screenshot text in a concise, user-friendly way:\n\nscreen text"
    );
}

#[test]
fn user_prompt_is_appended_as_context() {
    let c = combine_with_user_prompt("screen text", "what is this?");
    assert_eq!(c, "screen text\n\nUser prompt: what is this?");
}

#[test]
fn request_body_is_exact() {
    assert_eq!(
        request_body("hi"),
        "{\"model\":\"llama2\",\"prompt\":\"hi\",\"max_tokens\":512}"
    );
}

#[test]
fn request_body_escapes_specials() {
    let body = request_body("a\"b\\c\nd\te\r\u{8}\u{c}\u{1}\u{1f}\u{fc}");
    assert_eq!(
        body,
        "{\"model\":\"llama2\",\"prompt\":\"a\\\"b\\\\c\\nd\\te\\r\\b\\f\\u0001\\u001f\u{fc}\",\"max_tokens\":512}"
    );
}

#[test]
fn request_body_parses_back() {
    let prompt = "line one\nline \"two\" with \\ and \u{3} control \u{fc}";
    let body = request_body(prompt);
    let v: serde_json::Value = serde_json::from_str(&body).unwrap();
    assert_eq!(v["model"].as_str().unwrap(), "llama2");
    assert_eq!(v["prompt"].as_str().unwrap(), prompt);
    assert_eq!(v["max_tokens"].as_u64().unwrap(), 512);
}
