use pgdesk::gui::gui_state::{self, DatabaseConfig};
use pgdesk::gui::state::{build_postgres_url, connection_url, Databases, GuiState};
use pgdesk::settings::{ConnectionProfile, Settings};

#[test]
fn databases_insert_contains_get() {
    let mut d: Databases<u32> = Databases::new();
    assert!(!d.contains("a"));
    assert_eq!(d.get("a"), None);
    d.insert("a".to_string(), 1);
    d.insert("b".to_string(), 2);
    assert!(d.contains("a"));
    assert_eq!(d.get("a"), Some(&1));
    d.insert("a".to_string(), 3);
    assert_eq!(d.get("a"), Some(&3));
    assert_eq!(d.names(), vec!["a".to_string(), "b".to_string()]);
}

#[test]
fn postgres_url_format() {
    assert_eq!(
        build_postgres_url("me", "p@ss", "db.local", 5432, "app"),
        "postgres://me:p@ss@db.local:5432/app"
    );
    let p = ConnectionProfile {
        name: "n".to_string(),
        host: "h".to_string(),
        port: 0,
        username: "".to_string(),
        database: "d".to_string(),
    };
    assert_eq!(connection_url(&p, "pw"), "postgres://:pw@h:0/d");
}

#[test]
fn gui_state_selection_and_settings() {
    let mut s: GuiState<&'static str> = GuiState::new(Settings::default());
    assert_eq!(s.selected_connection(), None);
    s.add_connection("prod".to_string(), "conn");
    assert_eq!(s.selected_connection(), Some("prod"));
    assert_eq!(s.databases().get("prod"), Some(&"conn"));
    s.select_connection("other".to_string());
    assert_eq!(s.selected_connection(), Some("other"));
    s.set_theme("Nord".to_string());
    s.set_ui_font(Some("Inter".to_string()));
    s.set_editor_font(None);
    assert_eq!(s.settings().theme, "Nord");
    assert_eq!(s.settings().ui_font.as_deref(), Some("Inter"));
    assert_eq!(s.settings().editor_font, None);
    s.remember_connection(ConnectionProfile {
        name: "prod".to_string(),
        host: "h".to_string(),
        port: 1,
        username: "u".to_string(),
        database: "d".to_string(),
    });
    assert_eq!(s.settings().connections.len(), 1);
}

#[test]
fn old_databases_add_database() {
    let config = DatabaseConfig {
        name: "x".to_string(),
        host: "localhost".to_string(),
        port: 5432,
        username: "u".to_string(),
        password: "p".to_string(),
        database: "d".to_string(),
    };
    let mut d: gui_state::Databases<u8> = gui_state::Databases::new();
    assert_eq!(d.add_database_url("x", &config), Ok("postgres://u:p@localhost:5432/d".to_string()));
    assert_eq!(d.add_database("x".to_string(), Err::<u8, ()>(())), Err(gui_state::GuiStateError::DatabaseConnectionError));
    assert_eq!(d.add_database::<()>("x".to_string(), Ok(9)), Ok(()));
    assert_eq!(d.add_database_url("x", &config), Err(gui_state::GuiStateError::DatabaseAlreadyExists));
    let s: gui_state::GuiState<u8> = gui_state::GuiState::new();
    assert!(s.get_databases().add_database_url("x", &config).is_ok());
}
