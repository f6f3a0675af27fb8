pub mod connections_panel;
pub mod gui_state;
pub mod query_panel;
pub mod settings_modal;
pub mod state;
pub mod style;

use vstd::prelude::*;

use self::state::{GuiState, GuiStateView};
use crate::settings::{ConnectionProfile, Settings, clone_opt, clone_profiles, profiles_view};
use crate::text::str_eq;

verus! {

/// What the application has to do once a panel has handled a message: the
/// work that reaches outside the program (the settings file, the database
/// server), which the library decides but does not perform.
#[derive(Debug, Clone, PartialEq, Eq)]
pub enum Effect {
    /// Nothing to do.
    Nothing,
    /// The settings changed: write them to disk.
    SaveSettings,
    /// Connect to `profile`'s database with `password`, then report back with
    /// `ConnectionEstablished`.
    Connect { profile: ConnectionProfile, password: String },
    /// Run `sql` against the open connection named `connection`, then report
    /// back with `Finished`.
    RunQuery { connection: String, sql: String },
}

/// Whether `i` is the first index of `themes` whose name is `name`.
pub open spec fn is_first_theme<T>(themes: Seq<(T, String)>, name: Seq<char>, i: int) -> bool {
    &&& 0 <= i < themes.len()
    &&& themes[i].1@ == name
    &&& forall|j: int| 0 <= j < i ==> #[trigger] themes[j].1@ != name
}

/// The theme named `name` (the first of that name) among `themes`, or
/// `fallback` where none is.
pub open spec fn theme_named<T>(themes: Seq<(T, String)>, name: Seq<char>, fallback: T) -> T {
    if exists|i: int| is_first_theme(themes, name, i) {
        themes[choose|i: int| is_first_theme(themes, name, i)].0
    } else {
        fallback
    }
}

/// Picks the theme named `name` from `themes` (each with its name), or
/// `fallback` where none has that name.
pub fn pick_theme<T>(themes: Vec<(T, String)>, name: &str, fallback: T) -> (r: T)
    ensures
        r == theme_named(themes@, name@, fallback),
{
    let mut list = themes;
    let ghost all = list@;
    assert(all == themes@);
    let n = list.len();
    let mut i: usize = 0;
    while i < n
        invariant
            n == list@.len(),
            list@ == all,
            all == themes@,
            i <= n,
            forall|j: int| 0 <= j < i ==> #[trigger] all[j].1@ != name@,
        decreases n - i,
    {
        if str_eq(list[i].1.as_str(), name) {
            proof {
                assert(is_first_theme(all, name@, i as int));
                let k = choose|k: int| is_first_theme(all, name@, k);
                if k < i {
                    assert(all[k].1@ != name@);
                } else if i < k {
                    assert(all[i as int].1@ != name@);
                }
                assert(k == i);
                assert(theme_named(all, name@, fallback) == all[i as int].0);
            }
            let entry = list.swap_remove(i);
            assert(entry == all[i as int]);
            let (theme, _) = entry;
            assert(theme == all[i as int].0);
            return theme;
        }
        i = i + 1;
    }
    proof {
        if exists|k: int| is_first_theme(all, name@, k) {
            let k = choose|k: int| is_first_theme(all, name@, k);
            assert(all[k].1@ == name@);
        }
    }
    fallback
}

/// The whole application's state: the shared state and each panel's own.
/// `C` is the database connection handle, `T` the theme value.
#[verifier::reject_recursive_types(C)]
#[verifier::reject_recursive_types(T)]
pub struct Gui<C, T> {
    state: GuiState<C>,
    connections: connections_panel::State,
    query: query_panel::State,
    settings_modal: settings_modal::State<T>,
}

/// The mathematical value of a [`Gui`].
#[verifier::reject_recursive_types(C)]
pub struct GuiView<C, T> {
    pub state: GuiStateView<C>,
    pub connections: Option<connections_panel::FormView>,
    pub query: query_panel::OutcomeView,
    pub settings_modal: settings_modal::ModalView<T>,
}

impl<C, T> View for Gui<C, T> {
    type V = GuiView<C, T>;

    closed spec fn view(&self) -> GuiView<C, T> {
        GuiView {
            state: self.state@,
            connections: self.connections@,
            query: self.query@,
            settings_modal: self.settings_modal@,
        }
    }
}

#[derive(Debug)]
pub enum Message<C, T> {
    Connections(connections_panel::Message<C>),
    Query(query_panel::Message),
    Settings(settings_modal::Message<T>),
}

/// Whether `message` can be handled in a state whose view is `g`: the form
/// is submitted only while it is open, and a query with text is run only
/// while the selected connection, if any, is one of the open ones.
pub open spec fn can_send<C, T>(g: GuiView<C, T>, message: Message<C, T>) -> bool {
    match message {
        Message::Connections(connections_panel::Message::Submit) => g.connections is Some,
        Message::Query(m) => query_panel::can_run(g.state, m),
        _ => true,
    }
}

/// Whether `message` selects a connection that is not open.
pub open spec fn selects_unknown<C, T>(g: GuiView<C, T>, message: Message<C, T>) -> bool {
    message matches Message::Connections(connections_panel::Message::Select(name))
        && !g.state.databases.dom().contains(name@)
}

impl<C, T> Gui<C, T> {
    /// The application as it starts from `settings`: the theme is the one of
    /// `themes` named in the settings (or `fallback`), the dialogs are
    /// closed, nothing is connected. Also returns the saved profiles, each of
    /// which is to be reconnected.
    pub fn new(settings: Settings, themes: Vec<(T, String)>, fallback: T) -> (r: (
        Self,
        Vec<ConnectionProfile>,
    ))
        ensures
            r.0@.state == (GuiStateView::<C> {
                databases: Map::empty(),
                selected: None,
                settings: settings@,
            }),
            r.0@.connections is None,
            r.0@.query == query_panel::OutcomeView::Empty,
            r.0@.settings_modal == (settings_modal::ModalView {
                open: false,
                category: settings_modal::Category::Appearance,
                theme: theme_named(themes@, settings@.theme, fallback),
                ui_font_input: settings_modal::text_or_empty(settings@.ui_font),
                editor_font_input: settings_modal::text_or_empty(settings@.editor_font),
            }),
            profiles_view(r.1@) == settings@.connections,
    {
        let theme = pick_theme(themes, settings.theme.as_str(), fallback);
        let settings_modal = settings_modal::State::new(
            theme,
            clone_opt(&settings.ui_font),
            clone_opt(&settings.editor_font),
        );
        let (connections, reconnect) = connections_panel::State::new(
            clone_profiles(&settings.connections),
        );
        let gui = Gui {
            state: GuiState::new(settings),
            connections,
            query: query_panel::State::new(),
            settings_modal,
        };
        (gui, reconnect)
    }

    pub fn theme(&self) -> (r: &T)
        ensures
            *r == self@.settings_modal.theme,
    {
        self.settings_modal.theme()
    }

    pub fn state(&self) -> (r: &GuiState<C>)
        ensures
            r@ == self@.state,
    {
        &self.state
    }

    pub fn connections(&self) -> (r: &connections_panel::State)
        ensures
            r@ == self@.connections,
    {
        &self.connections
    }

    pub fn query(&self) -> (r: &query_panel::State)
        ensures
            r@ == self@.query,
    {
        &self.query
    }

    pub fn settings_modal(&self) -> (r: &settings_modal::State<T>)
        ensures
            r@ == self@.settings_modal,
    {
        &self.settings_modal
    }

    /// Hands `message` to the panel it is for. The other panels stay as
    /// they are. Unless a connection that is not open is selected, a
    /// selected connection stays one of the open ones.
    pub fn update(&mut self, message: Message<C, T>) -> (e: Effect)
        requires
            can_send(old(self)@, message),
        ensures
            old(self)@.state.selection_known() && !selects_unknown(old(self)@, message)
                ==> final(self)@.state.selection_known(),
            match message {
                Message::Connections(m) => {
                    &&& connections_panel::update_post(
                        old(self)@.connections,
                        old(self)@.state,
                        m,
                        final(self)@.connections,
                        final(self)@.state,
                        e,
                    )
                    &&& final(self)@.query == old(self)@.query
                    &&& final(self)@.settings_modal == old(self)@.settings_modal
                },
                Message::Query(m) => {
                    &&& query_panel::update_post(old(self)@.state, m, final(self)@.query, e)
                    &&& final(self)@.state == old(self)@.state
                    &&& final(self)@.connections == old(self)@.connections
                    &&& final(self)@.settings_modal == old(self)@.settings_modal
                },
                Message::Settings(m) => {
                    &&& settings_modal::update_post(
                        old(self)@.settings_modal,
                        old(self)@.state,
                        m,
                        final(self)@.settings_modal,
                        final(self)@.state,
                        e,
                    )
                    &&& final(self)@.connections == old(self)@.connections
                    &&& final(self)@.query == old(self)@.query
                },
            },
    {
        match message {
            Message::Connections(m) => self.connections.update(m, &mut self.state),
            Message::Query(m) => self.query.update(m, &self.state),
            Message::Settings(m) => self.settings_modal.update(m, &mut self.state),
        }
    }
}

} // verus!
