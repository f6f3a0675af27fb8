use vstd::prelude::*;

use crate::settings::{ConnectionProfile, Settings, SettingsView, opt_view, upserted};
use crate::text::{decimal, law_port_round_trip, parse_u16, push_decimal, str_eq};

verus! {

#[derive(Debug, Clone, Copy, PartialEq, Eq, Structural)]
pub enum GuiStateError {
    DatabaseConnectionError,
}

/// The open database connections, keyed by connection name. `C` is the
/// connection handle, which this type only carries.
#[verifier::reject_recursive_types(C)]
pub struct Databases<C> {
    databases: Vec<(String, C)>,
}

/// Whether some entry of `v` is named `name`.
pub open spec fn has_entry<C>(v: Seq<(String, C)>, name: Seq<char>) -> bool {
    exists|i: int| 0 <= i < v.len() && #[trigger] v[i].0@ == name
}

/// The connection of the entry of `v` named `name`.
pub open spec fn entry_value<C>(v: Seq<(String, C)>, name: Seq<char>) -> C {
    v[choose|i: int| 0 <= i < v.len() && #[trigger] v[i].0@ == name].1
}

/// No two entries of `v` share a name.
pub open spec fn distinct_entries<C>(v: Seq<(String, C)>) -> bool {
    forall|i: int, j: int| 0 <= i < j < v.len() ==> #[trigger] v[i].0@ != #[trigger] v[j].0@
}

/// The map from names to connections that the entries `v` hold.
pub open spec fn entries_map<C>(v: Seq<(String, C)>) -> Map<Seq<char>, C> {
    Map::new(|k: Seq<char>| has_entry(v, k), |k: Seq<char>| entry_value(v, k))
}

impl<C> View for Databases<C> {
    type V = Map<Seq<char>, C>;

    closed spec fn view(&self) -> Map<Seq<char>, C> {
        entries_map(self.databases@)
    }
}

/// The entry at `i` is the one that `entry_value` picks for its name.
proof fn lemma_entry_value<C>(v: Seq<(String, C)>, i: int)
    requires
        distinct_entries(v),
        0 <= i < v.len(),
    ensures
        has_entry(v, v[i].0@),
        entry_value(v, v[i].0@) == v[i].1,
{
    let n = v[i].0@;
    assert(has_entry(v, n));
    let j = choose|j: int| 0 <= j < v.len() && #[trigger] v[j].0@ == n;
    if i != j {
        if i < j {
            assert(v[i].0@ != v[j].0@);
        } else {
            assert(v[j].0@ != v[i].0@);
        }
    }
}

impl<C> Databases<C> {
    #[verifier::type_invariant]
    spec fn names_distinct(self) -> bool {
        distinct_entries(self.databases@)
    }

    pub fn new() -> (r: Self)
        ensures
            r@ == Map::<Seq<char>, C>::empty(),
    {
        let r = Databases { databases: Vec::new() };
        assert(r@ =~= Map::<Seq<char>, C>::empty());
        r
    }

    /// The index of the entry named `name`, if there is one.
    fn position(&self, name: &str) -> (r: Option<usize>)
        ensures
            match r {
                Some(i) => i < self.databases@.len() && self.databases@[i as int].0@ == name@,
                None => !has_entry(self.databases@, name@),
            },
    {
        let n = self.databases.len();
        let mut i: usize = 0;
        while i < n
            invariant
                n == self.databases@.len(),
                i <= n,
                forall|j: int| 0 <= j < i ==> #[trigger] self.databases@[j].0@ != name@,
            decreases n - i,
        {
            if str_eq(self.databases[i].0.as_str(), name) {
                return Some(i);
            }
            i = i + 1;
        }
        None
    }

    pub fn contains(&self, name: &str) -> (b: bool)
        ensures
            b == self@.dom().contains(name@),
    {
        self.position(name).is_some()
    }

    /// Adds the connection under `name`, replacing any connection that
    /// already has that name.
    pub fn insert(&mut self, name: String, connection: C)
        ensures
            final(self)@ == old(self)@.insert(name@, connection),
    {
        proof {
            use_type_invariant(&*self);
        }
        let ghost old_v = self.databases@;
        let ghost nv = name@;
        let pos = self.position(name.as_str());
        let mut entries: Vec<(String, C)> = Vec::new();
        std::mem::swap(&mut entries, &mut self.databases);
        match pos {
            Some(i) => {
                entries.set(i, (name, connection));
                self.databases = entries;
                proof {
                    let v = self.databases@;
                    assert(v =~= old_v.update(i as int, v[i as int]));
                    assert(distinct_entries(v)) by {
                        assert forall|a: int, b: int| 0 <= a < b < v.len() implies #[trigger] v[a].0@
                            != #[trigger] v[b].0@ by {
                            if a == i {
                                assert(old_v[a].0@ != old_v[b].0@);
                            } else if b == i {
                                assert(old_v[a].0@ != old_v[b].0@);
                            } else {
                                assert(old_v[a].0@ != old_v[b].0@);
                            }
                        }
                    }
                    assert forall|k: Seq<char>| #[trigger] has_entry(v, k) == (k == nv || has_entry(old_v, k)) by {
                        if k == nv {
                            assert(v[i as int].0@ == k);
                        }
                        if has_entry(old_v, k) && k != nv {
                            let j = choose|j: int| 0 <= j < old_v.len() && #[trigger] old_v[j].0@ == k;
                            assert(v[j].0@ == k);
                        }
                        if has_entry(v, k) && k != nv {
                            let j = choose|j: int| 0 <= j < v.len() && #[trigger] v[j].0@ == k;
                            assert(old_v[j].0@ == k);
                        }
                    }
                    assert forall|k: Seq<char>| has_entry(v, k) implies #[trigger] entry_value(v, k)
                        == (if k == nv { connection } else { entry_value(old_v, k) }) by {
                        let j = choose|j: int| 0 <= j < v.len() && #[trigger] v[j].0@ == k;
                        lemma_entry_value(v, j);
                        if k != nv {
                            assert(j != i);
                            lemma_entry_value(old_v, j);
                        } else {
                            lemma_entry_value(v, i as int);
                        }
                    }
                    assert(self@ =~= old(self)@.insert(nv, connection));
                }
            },
            None => {
                entries.push((name, connection));
                self.databases = entries;
                proof {
                    let v = self.databases@;
                    assert(v =~= old_v.push(v[old_v.len() as int]));
                    assert(distinct_entries(v)) by {
                        assert forall|a: int, b: int| 0 <= a < b < v.len() implies #[trigger] v[a].0@
                            != #[trigger] v[b].0@ by {
                            if b == old_v.len() {
                                if v[a].0@ == nv {
                                    assert(old_v[a].0@ == nv);
                                }
                            } else {
                                assert(old_v[a].0@ != old_v[b].0@);
                            }
                        }
                    }
                    assert forall|k: Seq<char>| #[trigger] has_entry(v, k) == (k == nv || has_entry(old_v, k)) by {
                        if has_entry(old_v, k) {
                            let j = choose|j: int| 0 <= j < old_v.len() && #[trigger] old_v[j].0@ == k;
                            assert(v[j].0@ == k);
                        }
                        if k == nv {
                            assert(v[old_v.len() as int].0@ == k);
                        }
                        if has_entry(v, k) && k != nv {
                            let j = choose|j: int| 0 <= j < v.len() && #[trigger] v[j].0@ == k;
                            assert(old_v[j].0@ == k);
                        }
                    }
                    assert forall|k: Seq<char>| has_entry(v, k) implies #[trigger] entry_value(v, k)
                        == (if k == nv { connection } else { entry_value(old_v, k) }) by {
                        let j = choose|j: int| 0 <= j < v.len() && #[trigger] v[j].0@ == k;
                        lemma_entry_value(v, j);
                        if k != nv {
                            assert(j != old_v.len());
                            lemma_entry_value(old_v, j);
                        } else {
                            lemma_entry_value(v, old_v.len() as int);
                        }
                    }
                    assert(self@ =~= old(self)@.insert(nv, connection));
                }
            },
        }
    }

    pub fn get(&self, name: &str) -> (r: Option<&C>)
        ensures
            match r {
                Some(c) => self@.dom().contains(name@) && *c == self@[name@],
                None => !self@.dom().contains(name@),
            },
    {
        proof {
            use_type_invariant(self);
        }
        match self.position(name) {
            Some(i) => {
                proof {
                    lemma_entry_value(self.databases@, i as int);
                }
                Some(&self.databases[i].1)
            },
            None => None,
        }
    }

    /// The names of the open connections, each once.
    pub fn names(&self) -> (r: Vec<String>)
        ensures
            forall|i: int, j: int| 0 <= i < j < r@.len() ==> #[trigger] r@[i]@ != #[trigger] r@[j]@,
            forall|i: int| 0 <= i < r@.len() ==> self@.dom().contains(#[trigger] r@[i]@),
            forall|k: Seq<char>|
                #[trigger] self@.dom().contains(k) ==> exists|i: int| 0 <= i < r@.len() && r@[i]@ == k,
    {
        proof {
            use_type_invariant(self);
        }
        let n = self.databases.len();
        let mut r: Vec<String> = Vec::new();
        let mut i: usize = 0;
        while i < n
            invariant
                n == self.databases@.len(),
                i <= n,
                r@.len() == i,
                distinct_entries(self.databases@),
                forall|j: int| 0 <= j < i ==> #[trigger] r@[j]@ == self.databases@[j].0@,
            decreases n - i,
        {
            r.push(self.databases[i].0.clone());
            i = i + 1;
        }
        proof {
            assert forall|a: int, b: int| 0 <= a < b < r@.len() implies #[trigger] r@[a]@
                != #[trigger] r@[b]@ by {
                assert(self.databases@[a].0@ != self.databases@[b].0@);
            }
            assert forall|a: int| 0 <= a < r@.len() implies self@.dom().contains(#[trigger] r@[a]@) by {
                assert(self.databases@[a].0@ == r@[a]@);
            }
            assert forall|k: Seq<char>| #[trigger] self@.dom().contains(k) implies exists|a: int|
                0 <= a < r@.len() && r@[a]@ == k by {
                let j = choose|j: int| 0 <= j < self.databases@.len() && #[trigger] self.databases@[j].0@ == k;
                assert(r@[j]@ == k);
            }
        }
        r
    }
}

/// The address that a connection with these parameters is opened at:
/// `postgres://{username}:{password}@{host}:{port}/{database}`.
pub open spec fn postgres_url(
    username: Seq<char>,
    password: Seq<char>,
    host: Seq<char>,
    port: u16,
    database: Seq<char>,
) -> Seq<char> {
    "postgres://"@ + username + ":"@ + password + "@"@ + host + ":"@ + decimal(port as nat) + "/"@
        + database
}

/// The address names the server by its fields in order, and its port part
/// (between the `:` after the host and the `/` before the database) reads
/// back as exactly the given port.
pub proof fn law_url_port(
    username: Seq<char>,
    password: Seq<char>,
    host: Seq<char>,
    port: u16,
    database: Seq<char>,
)
    ensures
        ({
            let prefix = "postgres://"@ + username + ":"@ + password + "@"@ + host + ":"@;
            let suffix = "/"@ + database;
            let url = postgres_url(username, password, host, port, database);
            &&& prefix.len() + suffix.len() <= url.len()
            &&& url.take(prefix.len() as int) == prefix
            &&& url.skip(url.len() - suffix.len()) == suffix
            &&& parse_u16(url.subrange(prefix.len() as int, url.len() - suffix.len())) == Some(port)
        }),
{
    let prefix = "postgres://"@ + username + ":"@ + password + "@"@ + host + ":"@;
    let suffix = "/"@ + database;
    let d = decimal(port as nat);
    let url = postgres_url(username, password, host, port, database);
    assert(url =~= prefix + d + suffix);
    assert(url.take(prefix.len() as int) =~= prefix);
    assert(url.skip(url.len() - suffix.len()) =~= suffix);
    assert(url.subrange(prefix.len() as int, url.len() - suffix.len()) =~= d);
    law_port_round_trip(port);
}

/// Builds the address of a PostgreSQL server, as [`postgres_url`] states it.
pub fn build_postgres_url(
    username: &str,
    password: &str,
    host: &str,
    port: u16,
    database: &str,
) -> (r: String)
    ensures
        r@ == postgres_url(username@, password@, host@, port, database@),
{
    let mut url = String::from_str("postgres://");
    url.append(username);
    url.append(":");
    url.append(password);
    url.append("@");
    url.append(host);
    url.append(":");
    push_decimal(&mut url, port as u64);
    url.append("/");
    url.append(database);
    url
}

/// The address at which `profile`'s database is reached with `password`.
pub fn connection_url(profile: &ConnectionProfile, password: &str) -> (r: String)
    ensures
        r@ == postgres_url(profile@.username, password@, profile@.host, profile@.port, profile@.database),
{
    build_postgres_url(
        profile.username.as_str(),
        password,
        profile.host.as_str(),
        profile.port,
        profile.database.as_str(),
    )
}

/// State shared across every panel. Kept intentionally small: only data
/// more than one panel needs to read or mutate belongs here. `C` is the
/// database connection handle.
#[verifier::reject_recursive_types(C)]
pub struct GuiState<C> {
    databases: Databases<C>,
    selected_connection: Option<String>,
    settings: Settings,
}

/// The mathematical value of a [`GuiState`].
#[verifier::reject_recursive_types(C)]
pub struct GuiStateView<C> {
    pub databases: Map<Seq<char>, C>,
    pub selected: Option<Seq<char>>,
    pub settings: SettingsView,
}

impl<C> View for GuiState<C> {
    type V = GuiStateView<C>;

    closed spec fn view(&self) -> GuiStateView<C> {
        GuiStateView {
            databases: self.databases@,
            selected: opt_view(self.selected_connection),
            settings: self.settings@,
        }
    }
}

impl<C> GuiStateView<C> {
    /// The selected connection, if any, is one of the open connections.
    pub open spec fn selection_known(self) -> bool {
        self.selected matches Some(n) ==> self.databases.dom().contains(n)
    }
}

impl<C> GuiState<C> {
    pub fn new(settings: Settings) -> (r: Self)
        ensures
            r@.databases == Map::<Seq<char>, C>::empty(),
            r@.selected is None,
            r@.settings == settings@,
    {
        GuiState { databases: Databases::new(), selected_connection: None, settings }
    }

    /// The preferences, as they are to be saved.
    pub fn settings(&self) -> (r: &Settings)
        ensures
            r@ == self@.settings,
    {
        &self.settings
    }

    /// Records the UI font choice. It takes effect on next launch.
    pub fn set_ui_font(&mut self, name: Option<String>)
        ensures
            final(self)@ == (GuiStateView {
                settings: SettingsView { ui_font: opt_view(name), ..old(self)@.settings },
                ..old(self)@
            }),
    {
        self.settings.ui_font = name;
    }

    /// Records the editor font choice, which applies immediately.
    pub fn set_editor_font(&mut self, name: Option<String>)
        ensures
            final(self)@ == (GuiStateView {
                settings: SettingsView { editor_font: opt_view(name), ..old(self)@.settings },
                ..old(self)@
            }),
    {
        self.settings.editor_font = name;
    }

    pub fn databases(&self) -> (r: &Databases<C>)
        ensures
            r@ == self@.databases,
    {
        &self.databases
    }

    pub fn selected_connection(&self) -> (r: Option<&str>)
        ensures
            match r {
                Some(n) => self@.selected == Some(n@),
                None => self@.selected is None,
            },
    {
        match &self.selected_connection {
            Some(n) => Some(n.as_str()),
            None => None,
        }
    }

    pub fn select_connection(&mut self, name: String)
        ensures
            final(self)@ == (GuiStateView { selected: Some(name@), ..old(self)@ }),
    {
        self.selected_connection = Some(name);
    }

    /// Registers a newly established connection and makes it the selected one.
    pub fn add_connection(&mut self, name: String, connection: C)
        ensures
            final(self)@ == (GuiStateView {
                databases: old(self)@.databases.insert(name@, connection),
                selected: Some(name@),
                ..old(self)@
            }),
    {
        let key = name.clone();
        self.databases.insert(key, connection);
        self.selected_connection = Some(name);
    }

    /// Records a connection's metadata so that it reconnects next launch.
    pub fn remember_connection(&mut self, profile: ConnectionProfile)
        ensures
            final(self)@ == (GuiStateView {
                settings: SettingsView {
                    connections: upserted(old(self)@.settings.connections, profile@),
                    ..old(self)@.settings
                },
                ..old(self)@
            }),
    {
        self.settings.upsert_connection(profile);
    }

    /// Records the selected theme, by its name.
    pub fn set_theme(&mut self, name: String)
        ensures
            final(self)@ == (GuiStateView {
                settings: SettingsView { theme: name@, ..old(self)@.settings },
                ..old(self)@
            }),
    {
        self.settings.theme = name;
    }
}

} // verus!
