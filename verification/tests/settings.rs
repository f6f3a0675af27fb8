use pgdesk::settings::{clone_profiles, ConnectionProfile, Settings};

fn profile(name: &str, host: &str) -> ConnectionProfile {
    ConnectionProfile {
        name: name.to_string(),
        host: host.to_string(),
        port: 5432,
        username: "postgres".to_string(),
        database: "app".to_string(),
    }
}

#[test]
fn default_settings() {
    let s = Settings::default();
    assert_eq!(s.theme, "Catppuccin Mocha");
    assert_eq!(s.ui_font, None);
    assert_eq!(s.editor_font, None);
    assert!(s.connections.is_empty());
}

#[test]
fn upsert_appends_a_new_name() {
    let mut s = Settings::default();
    s.upsert_connection(profile("a", "h1"));
    s.upsert_connection(profile("b", "h2"));
    assert_eq!(s.connections, vec![profile("a", "h1"), profile("b", "h2")]);
}

#[test]
fn upsert_replaces_by_name_in_place() {
    let mut s = Settings::default();
    s.upsert_connection(profile("a", "h1"));
    s.upsert_connection(profile("b", "h2"));
    s.upsert_connection(profile("a", "h3"));
    assert_eq!(s.connections, vec![profile("a", "h3"), profile("b", "h2")]);
}

#[test]
fn upsert_replaces_only_the_first_of_duplicates() {
    let mut s = Settings::default();
    s.connections = vec![profile("a", "1"), profile("a", "2")];
    s.upsert_connection(profile("a", "3"));
    assert_eq!(s.connections, vec![profile("a", "3"), profile("a", "2")]);
}

#[test]
fn upsert_twice_is_upsert_once() {
    let mut once = Settings::default();
    once.upsert_connection(profile("x", "h"));
    let mut twice = once.clone();
    twice.upsert_connection(profile("x", "h"));
    assert_eq!(once, twice);
}

#[test]
fn upsert_keeps_other_fields() {
    let mut s = Settings::default();
    s.theme = "Nord".to_string();
    s.ui_font = Some("Inter".to_string());
    s.upsert_connection(profile("a", "h"));
    assert_eq!(s.theme, "Nord");
    assert_eq!(s.ui_font.as_deref(), Some("Inter"));
}

#[test]
fn duplicate_and_clone_profiles() {
    let p = profile("a", "h");
    assert_eq!(p.duplicate(), p);
    let v = vec![profile("a", "1"), profile("b", "2")];
    assert_eq!(clone_profiles(&v), v);
}
