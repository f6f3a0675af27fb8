use pgdesk::gui::connections_panel::{keep_password, reconnects, Message, NewConnectionForm, State};
use pgdesk::gui::state::{GuiState, GuiStateError};
use pgdesk::gui::Effect;
use pgdesk::settings::{ConnectionProfile, Settings};

type Msg = Message<u32>;

fn open_form() -> (State, GuiState<u32>) {
    let (mut st, _) = State::new(Vec::new());
    let mut shared = GuiState::new(Settings::default());
    assert_eq!(st.update(Msg::OpenNewConnectionForm, &mut shared), Effect::Nothing);
    (st, shared)
}

fn submit_error(st: &mut State, shared: &mut GuiState<u32>) -> Option<String> {
    assert_eq!(st.update(Msg::Submit, shared), Effect::Nothing);
    st.form().unwrap().error.clone()
}

#[test]
fn new_form_defaults() {
    let f = NewConnectionForm::new();
    assert_eq!(f.host, "localhost");
    assert_eq!(f.port, "5432");
    assert_eq!(f.name, "");
    assert!(!f.show_password);
    assert_eq!(f.error, None);
}

#[test]
fn state_new_returns_saved_profiles_to_reconnect() {
    let p = ConnectionProfile {
        name: "a".into(),
        host: "h".into(),
        port: 1,
        username: "u".into(),
        database: "d".into(),
    };
    let (st, reconnect) = State::new(vec![p.clone()]);
    assert!(st.form().is_none());
    assert_eq!(reconnect, vec![p]);
}

#[test]
fn edits_change_only_their_field() {
    let (mut st, mut shared) = open_form();
    st.update(Msg::NameChanged("n".into()), &mut shared);
    st.update(Msg::HostChanged("h".into()), &mut shared);
    st.update(Msg::PortChanged("1".into()), &mut shared);
    st.update(Msg::UsernameChanged("u".into()), &mut shared);
    st.update(Msg::PasswordChanged("p".into()), &mut shared);
    st.update(Msg::DatabaseChanged("d".into()), &mut shared);
    let f = st.form().unwrap();
    assert_eq!(
        (&f.name[..], &f.host[..], &f.port[..], &f.username[..], &f.password[..], &f.database[..]),
        ("n", "h", "1", "u", "p", "d")
    );
}

#[test]
fn edits_without_an_open_form_do_nothing() {
    let (mut st, _) = State::new(Vec::new());
    let mut shared: GuiState<u32> = GuiState::new(Settings::default());
    st.update(Msg::NameChanged("n".into()), &mut shared);
    st.update(Msg::TogglePasswordVisibility, &mut shared);
    assert!(st.form().is_none());
}

#[test]
fn toggle_twice_restores_visibility() {
    let (mut st, mut shared) = open_form();
    st.update(Msg::TogglePasswordVisibility, &mut shared);
    assert!(st.form().unwrap().show_password);
    st.update(Msg::TogglePasswordVisibility, &mut shared);
    assert!(!st.form().unwrap().show_password);
}

#[test]
fn cancel_closes_the_form() {
    let (mut st, mut shared) = open_form();
    st.update(Msg::CancelNewConnectionForm, &mut shared);
    assert!(st.form().is_none());
}

#[test]
fn validation_messages_in_order() {
    let (mut st, mut shared) = open_form();
    assert_eq!(submit_error(&mut st, &mut shared).as_deref(), Some("Connection name is required."));
    st.update(Msg::NameChanged("  prod  ".into()), &mut shared);
    st.update(Msg::HostChanged("  ".into()), &mut shared);
    assert_eq!(submit_error(&mut st, &mut shared).as_deref(), Some("Host is required."));
    st.update(Msg::HostChanged("db".into()), &mut shared);
    st.update(Msg::PortChanged("70000".into()), &mut shared);
    assert_eq!(
        submit_error(&mut st, &mut shared).as_deref(),
        Some("Port must be a number between 0 and 65535.")
    );
    st.update(Msg::PortChanged(" 6543 ".into()), &mut shared);
    assert_eq!(submit_error(&mut st, &mut shared).as_deref(), Some("Database name is required."));
}

#[test]
fn name_already_open_is_refused() {
    let (mut st, mut shared) = open_form();
    shared.add_connection("prod".into(), 7);
    st.update(Msg::NameChanged(" prod".into()), &mut shared);
    assert_eq!(
        submit_error(&mut st, &mut shared).as_deref(),
        Some("A connection with this name already exists.")
    );
}

#[test]
fn valid_form_asks_to_connect_with_trimmed_profile() {
    let (mut st, mut shared) = open_form();
    st.update(Msg::NameChanged("  prod  ".into()), &mut shared);
    st.update(Msg::UsernameChanged(" admin ".into()), &mut shared);
    st.update(Msg::PasswordChanged(" s3cret ".into()), &mut shared);
    st.update(Msg::DatabaseChanged("app ".into()), &mut shared);
    let e = st.update(Msg::Submit, &mut shared);
    let expected = ConnectionProfile {
        name: "prod".into(),
        host: "localhost".into(),
        port: 5432,
        username: "admin".into(),
        database: "app".into(),
    };
    assert_eq!(e, Effect::Connect { profile: expected, password: " s3cret ".into() });
    assert!(st.form().is_some());
    assert_eq!(st.form().unwrap().error, None);
}

#[test]
fn established_connection_is_selected_and_remembered() {
    let (mut st, mut shared) = open_form();
    let p = ConnectionProfile {
        name: "prod".into(),
        host: "h".into(),
        port: 5432,
        username: "u".into(),
        database: "d".into(),
    };
    let e = st.update(Msg::ConnectionEstablished(p.clone(), Ok(42)), &mut shared);
    assert_eq!(e, Effect::SaveSettings);
    assert!(st.form().is_none());
    assert_eq!(shared.selected_connection(), Some("prod"));
    assert_eq!(shared.databases().get("prod"), Some(&42));
    assert_eq!(shared.settings().connections, vec![p]);
}

#[test]
fn failed_connection_shows_an_error() {
    let (mut st, mut shared) = open_form();
    let p = ConnectionProfile {
        name: "prod".into(),
        host: "h".into(),
        port: 5432,
        username: "u".into(),
        database: "d".into(),
    };
    let e = st.update(Msg::ConnectionEstablished(p, Err(GuiStateError::DatabaseConnectionError)), &mut shared);
    assert_eq!(e, Effect::Nothing);
    assert_eq!(st.form().unwrap().error.as_deref(), Some("Failed to connect to the database."));
    assert!(!shared.databases().contains("prod"));
}

#[test]
fn select_sets_the_selection() {
    let (mut st, mut shared) = open_form();
    st.update(Msg::Select("x".into()), &mut shared);
    assert_eq!(shared.selected_connection(), Some("x"));
}

#[test]
fn reconnects_skip_profiles_without_password() {
    let p = |n: &str| ConnectionProfile {
        name: n.into(),
        host: "h".into(),
        port: 1,
        username: "u".into(),
        database: "d".into(),
    };
    let plan = reconnects(vec![(p("a"), Some("pa".into())), (p("b"), None), (p("c"), Some("pc".into()))]);
    assert_eq!(plan, vec![(p("a"), "pa".to_string()), (p("c"), "pc".to_string())]);
    assert!(reconnects(Vec::new()).is_empty());
}

#[test]
fn password_is_kept_only_after_success() {
    assert!(keep_password::<u8>(&Ok(1)));
    assert!(!keep_password::<u8>(&Err(GuiStateError::DatabaseConnectionError)));
}
