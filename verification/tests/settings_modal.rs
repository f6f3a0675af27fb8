use pgdesk::gui::settings_modal::{non_empty, Category, Message, State};
use pgdesk::gui::state::GuiState;
use pgdesk::gui::Effect;
use pgdesk::settings::Settings;

#[test]
fn category_label() {
    assert_eq!(Category::Appearance.label(), "Appearance");
}

#[test]
fn non_empty_trims() {
    assert_eq!(non_empty("  Fira Code "), Some("Fira Code".to_string()));
    assert_eq!(non_empty("   "), None);
    assert_eq!(non_empty(""), None);
}

#[test]
fn modal_flow() {
    let mut m = State::new(1u8, Some("Inter".into()), None);
    let mut shared: GuiState<()> = GuiState::new(Settings::default());
    assert!(!m.is_open());
    assert_eq!(m.ui_font_input(), "Inter");
    assert_eq!(m.editor_font_input(), "");
    assert_eq!(m.update(Message::Open, &mut shared), Effect::Nothing);
    assert!(m.is_open());
    assert_eq!(m.update(Message::SelectCategory(Category::Appearance), &mut shared), Effect::Nothing);
    assert_eq!(m.category(), Category::Appearance);
    assert_eq!(m.update(Message::ThemeSelected(2, "Nord".into()), &mut shared), Effect::SaveSettings);
    assert_eq!(*m.theme(), 2);
    assert_eq!(shared.settings().theme, "Nord");
    m.update(Message::UiFontChanged("  ".into()), &mut shared);
    assert_eq!(m.update(Message::UiFontSubmitted, &mut shared), Effect::SaveSettings);
    assert_eq!(shared.settings().ui_font, None);
    m.update(Message::EditorFontChanged(" JetBrains Mono ".into()), &mut shared);
    assert_eq!(m.update(Message::EditorFontSubmitted, &mut shared), Effect::SaveSettings);
    assert_eq!(shared.settings().editor_font.as_deref(), Some("JetBrains Mono"));
    assert_eq!(m.update(Message::Close, &mut shared), Effect::Nothing);
    assert!(!m.is_open());
}
