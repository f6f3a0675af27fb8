use vstd::prelude::*;

use super::state::{GuiState, GuiStateView};
use super::Effect;
use crate::settings::{SettingsView, opt_view};
use crate::text::{law_trim_idempotent, trim, trim_str};

verus! {

/// A section of the settings dialog. Only one exists today, but the
/// sidebar/content split lets more be added without restructuring the
/// dialog.
#[derive(Debug, Clone, Copy, PartialEq, Eq, Structural)]
pub enum Category {
    Appearance,
}

impl Category {
    pub fn label(self) -> (r: &'static str)
        ensures
            r@ == "Appearance"@,
    {
        match self {
            Category::Appearance => "Appearance",
        }
    }
}

/// A font input's meaning: an empty field (after trimming) means "use the
/// default", not a font named "".
pub open spec fn non_empty_spec(value: Seq<char>) -> Option<Seq<char>> {
    if trim(value).len() == 0 {
        None
    } else {
        Some(trim(value))
    }
}

/// A font choice is never an empty name, nor one with surrounding white
/// space.
pub proof fn law_font_choice_clean(value: Seq<char>)
    ensures
        non_empty_spec(value) matches Some(name) ==> name.len() > 0 && trim(name) == name,
{
    law_trim_idempotent(value);
}

/// Trims `value` and turns it into `Some` unless it is empty.
pub fn non_empty(value: &str) -> (r: Option<String>)
    ensures
        opt_view(r) == non_empty_spec(value@),
{
    let trimmed = trim_str(value);
    if trimmed.as_str().is_empty() {
        None
    } else {
        Some(trimmed)
    }
}

/// The settings dialog: whether it is open, its section, the theme shown,
/// and the draft values of the font inputs. `T` is the theme value.
#[verifier::reject_recursive_types(T)]
pub struct State<T> {
    open: bool,
    category: Category,
    theme: T,
    ui_font_input: String,
    editor_font_input: String,
}

/// The mathematical value of a settings dialog [`State`].
pub struct ModalView<T> {
    pub open: bool,
    pub category: Category,
    pub theme: T,
    pub ui_font_input: Seq<char>,
    pub editor_font_input: Seq<char>,
}

impl<T> View for State<T> {
    type V = ModalView<T>;

    closed spec fn view(&self) -> ModalView<T> {
        ModalView {
            open: self.open,
            category: self.category,
            theme: self.theme,
            ui_font_input: self.ui_font_input@,
            editor_font_input: self.editor_font_input@,
        }
    }
}

pub open spec fn text_or_empty(o: Option<Seq<char>>) -> Seq<char> {
    match o {
        Some(s) => s,
        None => Seq::empty(),
    }
}

#[derive(Debug, Clone)]
pub enum Message<T> {
    Open,
    Close,
    SelectCategory(Category),
    /// A theme was picked; the string is the theme's name.
    ThemeSelected(T, String),
    UiFontChanged(String),
    UiFontSubmitted,
    EditorFontChanged(String),
    EditorFontSubmitted,
}

/// How the settings dialog handles `message`: from `before` and the shared state `shared_before` to `after` and `shared_after`, asking for `e`.
pub open spec fn update_post<T, C>(
    before: ModalView<T>,
    shared_before: GuiStateView<C>,
    message: Message<T>,
    after: ModalView<T>,
    shared_after: GuiStateView<C>,
    e: Effect,
) -> bool {
    match message {
        Message::Open => after == (ModalView { open: true, ..before })
            && shared_after == shared_before && e is Nothing,
        Message::Close => after == (ModalView { open: false, ..before })
            && shared_after == shared_before && e is Nothing,
        Message::SelectCategory(c) => after == (ModalView {
            category: c,
            ..before
        }) && shared_after == shared_before && e is Nothing,
        Message::ThemeSelected(t, name) => {
            &&& after == (ModalView { theme: t, ..before })
            &&& shared_after == (GuiStateView {
                settings: SettingsView { theme: name@, ..shared_before.settings },
                ..shared_before
            })
            &&& e is SaveSettings
        },
        Message::UiFontChanged(v) => after == (ModalView {
            ui_font_input: v@,
            ..before
        }) && shared_after == shared_before && e is Nothing,
        Message::UiFontSubmitted => {
            &&& after == before
            &&& shared_after == (GuiStateView {
                settings: SettingsView {
                    ui_font: non_empty_spec(before.ui_font_input),
                    ..shared_before.settings
                },
                ..shared_before
            })
            &&& e is SaveSettings
        },
        Message::EditorFontChanged(v) => after == (ModalView {
            editor_font_input: v@,
            ..before
        }) && shared_after == shared_before && e is Nothing,
        Message::EditorFontSubmitted => {
            &&& after == before
            &&& shared_after == (GuiStateView {
                settings: SettingsView {
                    editor_font: non_empty_spec(before.editor_font_input),
                    ..shared_before.settings
                },
                ..shared_before
            })
            &&& e is SaveSettings
        },
    }
}

impl<T> State<T> {
    pub fn new(theme: T, ui_font: Option<String>, editor_font: Option<String>) -> (r: Self)
        ensures
            r@ == (ModalView {
                open: false,
                category: Category::Appearance,
                theme,
                ui_font_input: text_or_empty(opt_view(ui_font)),
                editor_font_input: text_or_empty(opt_view(editor_font)),
            }),
    {
        let ui_font_input = match ui_font {
            Some(s) => s,
            None => String::new(),
        };
        let editor_font_input = match editor_font {
            Some(s) => s,
            None => String::new(),
        };
        State { open: false, category: Category::Appearance, theme, ui_font_input, editor_font_input }
    }

    pub fn theme(&self) -> (r: &T)
        ensures
            *r == self@.theme,
    {
        &self.theme
    }

    pub fn is_open(&self) -> (r: bool)
        ensures
            r == self@.open,
    {
        self.open
    }

    pub fn category(&self) -> (r: Category)
        ensures
            r == self@.category,
    {
        self.category
    }

    pub fn ui_font_input(&self) -> (r: &str)
        ensures
            r@ == self@.ui_font_input,
    {
        self.ui_font_input.as_str()
    }

    pub fn editor_font_input(&self) -> (r: &str)
        ensures
            r@ == self@.editor_font_input,
    {
        self.editor_font_input.as_str()
    }

    /// Handles `message`. `shared` is where font and theme choices are
    /// recorded; the dialog owns its open/closed state and its drafts. Every
    /// recorded choice asks for the settings to be saved.
    pub fn update<C>(&mut self, message: Message<T>, shared: &mut GuiState<C>) -> (e: Effect)
        ensures
            update_post(old(self)@, old(shared)@, message, final(self)@, final(shared)@, e),
    {
        match message {
            Message::Open => {
                self.open = true;
                Effect::Nothing
            },
            Message::Close => {
                self.open = false;
                Effect::Nothing
            },
            Message::SelectCategory(category) => {
                self.category = category;
                Effect::Nothing
            },
            Message::ThemeSelected(theme, name) => {
                self.theme = theme;
                shared.set_theme(name);
                Effect::SaveSettings
            },
            Message::UiFontChanged(value) => {
                self.ui_font_input = value;
                Effect::Nothing
            },
            Message::UiFontSubmitted => {
                shared.set_ui_font(non_empty(self.ui_font_input.as_str()));
                Effect::SaveSettings
            },
            Message::EditorFontChanged(value) => {
                self.editor_font_input = value;
                Effect::Nothing
            },
            Message::EditorFontSubmitted => {
                shared.set_editor_font(non_empty(self.editor_font_input.as_str()));
                Effect::SaveSettings
            },
        }
    }
}

} // verus!
