use pgdesk::gui::style::{highlighter_theme, HighlighterTheme, ThemeKind};
use pgdesk::gui::{connections_panel, pick_theme, query_panel, settings_modal, Effect, Gui, Message};
use pgdesk::settings::{ConnectionProfile, Settings};

fn themes() -> Vec<(u8, String)> {
    vec![(1, "Light".into()), (2, "Nord".into()), (3, "Nord".into())]
}

#[test]
fn pick_theme_by_name_or_fallback() {
    assert_eq!(pick_theme(themes(), "Nord", 0), 2);
    assert_eq!(pick_theme(themes(), "Missing", 0), 0);
}

#[test]
fn gui_starts_from_settings() {
    let mut settings = Settings::default();
    settings.theme = "Light".into();
    settings.editor_font = Some("Mono".into());
    let p = ConnectionProfile {
        name: "a".into(),
        host: "h".into(),
        port: 1,
        username: "u".into(),
        database: "d".into(),
    };
    settings.connections.push(p.clone());
    let (gui, reconnect): (Gui<u32, u8>, _) = Gui::new(settings, themes(), 0);
    assert_eq!(*gui.theme(), 1);
    assert_eq!(reconnect, vec![p]);
    assert_eq!(gui.settings_modal().editor_font_input(), "Mono");
    assert!(gui.connections().form().is_none());
    assert_eq!(gui.query().result(), &query_panel::QueryOutcome::Empty);
    assert_eq!(gui.state().selected_connection(), None);
}

#[test]
fn gui_dispatches_messages() {
    let (mut gui, _): (Gui<u32, u8>, _) = Gui::new(Settings::default(), themes(), 0);
    assert_eq!(*gui.theme(), 0);
    let p = ConnectionProfile {
        name: "db".into(),
        host: "h".into(),
        port: 1,
        username: "u".into(),
        database: "d".into(),
    };
    let e = gui.update(Message::Connections(connections_panel::Message::ConnectionEstablished(p, Ok(5))));
    assert_eq!(e, Effect::SaveSettings);
    let e = gui.update(Message::Query(query_panel::Message::Run("select 1".into())));
    assert_eq!(e, Effect::RunQuery { connection: "db".into(), sql: "select 1".into() });
    let e = gui.update(Message::Settings(settings_modal::Message::ThemeSelected(2, "Nord".into())));
    assert_eq!(e, Effect::SaveSettings);
    assert_eq!(*gui.theme(), 2);
    assert_eq!(gui.state().settings().theme, "Nord");
}

#[test]
fn highlighter_themes() {
    assert_eq!(highlighter_theme(ThemeKind::SolarizedDark, true), HighlighterTheme::SolarizedDark);
    assert_eq!(highlighter_theme(ThemeKind::CatppuccinFrappe, true), HighlighterTheme::Base16Mocha);
    assert_eq!(highlighter_theme(ThemeKind::KanagawaLotus, false), HighlighterTheme::Base16Ocean);
    assert_eq!(highlighter_theme(ThemeKind::Dracula, true), HighlighterTheme::Base16Eighties);
    assert_eq!(highlighter_theme(ThemeKind::Oxocarbon, true), HighlighterTheme::Base16Mocha);
    assert_eq!(highlighter_theme(ThemeKind::Light, false), HighlighterTheme::InspiredGitHub);
    assert_eq!(highlighter_theme(ThemeKind::Custom, false), HighlighterTheme::InspiredGitHub);
}

#[test]
fn blank_query_needs_no_open_selection() {
    let (mut gui, _): (Gui<u32, u8>, _) = Gui::new(Settings::default(), themes(), 0);
    gui.update(Message::Connections(connections_panel::Message::Select("gone".into())));
    assert_eq!(gui.state().selected_connection(), Some("gone"));
    let e = gui.update(Message::Query(query_panel::Message::Run(" \t".into())));
    assert_eq!(e, Effect::Nothing);
    assert_eq!(gui.query().result(), &query_panel::QueryOutcome::Message("Write a query first.".into()));
}
