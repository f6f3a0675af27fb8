use vstd::prelude::*;

verus! {

/// A saved connection's non-secret metadata. The password never lives here;
/// it is kept in the OS keychain, looked up by `name`.
#[derive(Debug, Clone, PartialEq, Eq)]
pub struct ConnectionProfile {
    pub name: String,
    pub host: String,
    pub port: u16,
    pub username: String,
    pub database: String,
}

/// The mathematical value of a [`ConnectionProfile`].
pub struct ProfileView {
    pub name: Seq<char>,
    pub host: Seq<char>,
    pub port: u16,
    pub username: Seq<char>,
    pub database: Seq<char>,
}

impl View for ConnectionProfile {
    type V = ProfileView;

    open spec fn view(&self) -> ProfileView {
        ProfileView {
            name: self.name@,
            host: self.host@,
            port: self.port,
            username: self.username@,
            database: self.database@,
        }
    }
}

impl ConnectionProfile {
    /// A copy of this profile, field by field.
    pub fn duplicate(&self) -> (r: ConnectionProfile)
        ensures
            r@ == self@,
    {
        ConnectionProfile {
            name: self.name.clone(),
            host: self.host.clone(),
            port: self.port,
            username: self.username.clone(),
            database: self.database.clone(),
        }
    }
}

/// A copy of a list of profiles.
pub fn clone_profiles(v: &Vec<ConnectionProfile>) -> (r: Vec<ConnectionProfile>)
    ensures
        profiles_view(r@) == profiles_view(v@),
{
    let mut r: Vec<ConnectionProfile> = Vec::new();
    let mut i: usize = 0;
    while i < v.len()
        invariant
            i <= v@.len(),
            r@.len() == i,
            forall|j: int| 0 <= j < i ==> #[trigger] r@[j]@ == v@[j]@,
        decreases v@.len() - i,
    {
        r.push(v[i].duplicate());
        i = i + 1;
    }
    assert(profiles_view(r@) =~= profiles_view(v@));
    r
}

/// The view of an optional string.
pub open spec fn opt_view(o: Option<String>) -> Option<Seq<char>> {
    match o {
        Some(s) => Some(s@),
        None => None,
    }
}

/// A copy of an optional string.
pub fn clone_opt(o: &Option<String>) -> (r: Option<String>)
    ensures
        opt_view(r) == opt_view(*o),
{
    match o {
        Some(s) => Some(s.clone()),
        None => None,
    }
}

/// The app's local preferences: everything that isn't a live database
/// connection. Every field has a sensible default, so that an older settings
/// file still loads after a new field is introduced.
#[derive(Debug, Clone, PartialEq, Eq)]
pub struct Settings {
    pub theme: String,
    /// The UI font's family name; `None` means the system default.
    pub ui_font: Option<String>,
    /// The SQL editor font's family name; `None` means monospace.
    pub editor_font: Option<String>,
    pub connections: Vec<ConnectionProfile>,
}

/// The mathematical value of [`Settings`].
pub struct SettingsView {
    pub theme: Seq<char>,
    pub ui_font: Option<Seq<char>>,
    pub editor_font: Option<Seq<char>>,
    pub connections: Seq<ProfileView>,
}

pub open spec fn profiles_view(v: Seq<ConnectionProfile>) -> Seq<ProfileView> {
    v.map_values(|p: ConnectionProfile| p@)
}

impl View for Settings {
    type V = SettingsView;

    open spec fn view(&self) -> SettingsView {
        SettingsView {
            theme: self.theme@,
            ui_font: opt_view(self.ui_font),
            editor_font: opt_view(self.editor_font),
            connections: profiles_view(self.connections@),
        }
    }
}

/// The theme that a fresh install starts with.
pub open spec fn default_theme_name() -> Seq<char> {
    "Catppuccin Mocha"@
}

impl Default for Settings {
    fn default() -> (r: Settings)
        ensures
            r@.theme == default_theme_name(),
            r@.ui_font is None,
            r@.editor_font is None,
            r@.connections.len() == 0,
    {
        Settings {
            theme: String::from_str("Catppuccin Mocha"),
            ui_font: None,
            editor_font: None,
            connections: Vec::new(),
        }
    }
}

/// Whether some profile of `s` is named `name`.
pub open spec fn has_named(s: Seq<ProfileView>, name: Seq<char>) -> bool {
    exists|i: int| 0 <= i < s.len() && #[trigger] s[i].name == name
}

/// Whether `i` is the first index of `s` whose profile is named `name`.
pub open spec fn is_first_named(s: Seq<ProfileView>, name: Seq<char>, i: int) -> bool {
    &&& 0 <= i < s.len()
    &&& s[i].name == name
    &&& forall|j: int| 0 <= j < i ==> #[trigger] s[j].name != name
}

/// The first index of `s` whose profile is named `name` (meaningful only
/// where [`has_named`] holds).
pub open spec fn first_named(s: Seq<ProfileView>, name: Seq<char>) -> int {
    choose|i: int| is_first_named(s, name, i)
}

/// `s` with `p` in place of the first profile of the same name, or with `p`
/// appended where none has that name.
pub open spec fn upserted(s: Seq<ProfileView>, p: ProfileView) -> Seq<ProfileView> {
    if has_named(s, p.name) {
        s.update(first_named(s, p.name), p)
    } else {
        s.push(p)
    }
}

proof fn lemma_first_named_below(s: Seq<ProfileView>, name: Seq<char>, w: int)
    requires
        0 <= w < s.len(),
        s[w].name == name,
    ensures
        exists|i: int| is_first_named(s, name, i),
    decreases w,
{
    if exists|j: int| 0 <= j < w && #[trigger] s[j].name == name {
        let j = choose|j: int| 0 <= j < w && #[trigger] s[j].name == name;
        lemma_first_named_below(s, name, j);
    } else {
        assert(is_first_named(s, name, w));
    }
}

/// Where some profile is named `name`, [`first_named`] is the first such.
pub proof fn lemma_first_named(s: Seq<ProfileView>, name: Seq<char>)
    requires
        has_named(s, name),
    ensures
        is_first_named(s, name, first_named(s, name)),
{
    let w = choose|i: int| 0 <= i < s.len() && #[trigger] s[i].name == name;
    lemma_first_named_below(s, name, w);
}

/// Two indices that are both the first of a name are the same index.
pub proof fn lemma_first_named_unique(s: Seq<ProfileView>, name: Seq<char>, i: int, j: int)
    requires
        is_first_named(s, name, i),
        is_first_named(s, name, j),
    ensures
        i == j,
{
    if i < j {
        assert(s[i].name != name);
    } else if j < i {
        assert(s[j].name != name);
    }
}

/// No two profiles of `s` share a name.
pub open spec fn distinct_names(s: Seq<ProfileView>) -> bool {
    forall|i: int, j: int| 0 <= i < j < s.len() ==> #[trigger] s[i].name != #[trigger] s[j].name
}

/// After an upsert, looking the profile's name up finds that very profile.
pub proof fn law_upsert_then_lookup(s: Seq<ProfileView>, p: ProfileView)
    ensures
        has_named(upserted(s, p), p.name),
        upserted(s, p)[first_named(upserted(s, p), p.name)] == p,
{
    let t = upserted(s, p);
    if has_named(s, p.name) {
        lemma_first_named(s, p.name);
        let i = first_named(s, p.name);
        assert(is_first_named(t, p.name, i));
    } else {
        assert(is_first_named(t, p.name, s.len() as int));
    }
    lemma_first_named(t, p.name);
    if has_named(s, p.name) {
        lemma_first_named_unique(t, p.name, first_named(s, p.name), first_named(t, p.name));
    } else {
        lemma_first_named_unique(t, p.name, s.len() as int, first_named(t, p.name));
    }
}

/// An upsert touches no profile of another name, and grows the list by one
/// exactly when the name was new.
pub proof fn law_upsert_keeps_others(s: Seq<ProfileView>, p: ProfileView)
    ensures
        upserted(s, p).len() == if has_named(s, p.name) {
            s.len()
        } else {
            s.len() + 1
        },
        forall|i: int|
            0 <= i < s.len() && s[i].name != p.name ==> #[trigger] upserted(s, p)[i] == s[i],
{
    if has_named(s, p.name) {
        lemma_first_named(s, p.name);
    }
}

/// Upserting the same profile twice is the same as upserting it once.
pub proof fn law_upsert_idempotent(s: Seq<ProfileView>, p: ProfileView)
    ensures
        upserted(upserted(s, p), p) == upserted(s, p),
{
    let t = upserted(s, p);
    law_upsert_then_lookup(s, p);
    lemma_first_named(t, p.name);
    assert(t.update(first_named(t, p.name), p) =~= t);
}

/// Upserting keeps the profiles' names distinct.
pub proof fn law_upsert_keeps_names_distinct(s: Seq<ProfileView>, p: ProfileView)
    requires
        distinct_names(s),
    ensures
        distinct_names(upserted(s, p)),
{
    let t = upserted(s, p);
    if has_named(s, p.name) {
        lemma_first_named(s, p.name);
        let k = first_named(s, p.name);
        assert forall|i: int, j: int| 0 <= i < j < t.len() implies #[trigger] t[i].name
            != #[trigger] t[j].name by {
            if i == k {
                assert(s[j].name != s[k].name);
            } else if j == k {
                assert(s[i].name != s[k].name);
            } else {
                assert(s[i].name != s[j].name);
            }
        }
    } else {
        assert forall|i: int, j: int| 0 <= i < j < t.len() implies #[trigger] t[i].name
            != #[trigger] t[j].name by {
            if j == s.len() {
                assert(s[i].name != p.name);
            } else {
                assert(s[i].name != s[j].name);
            }
        }
    }
}

impl Settings {
    /// Inserts or replaces a connection profile by name: the first profile
    /// with `profile`'s name is replaced, or, where there is none, `profile`
    /// is appended. Saving the settings is left to the caller.
    pub fn upsert_connection(&mut self, profile: ConnectionProfile)
        ensures
            final(self)@.connections == upserted(old(self)@.connections, profile@),
            final(self)@.theme == old(self)@.theme,
            final(self)@.ui_font == old(self)@.ui_font,
            final(self)@.editor_font == old(self)@.editor_font,
    {
        let ghost old_v = profiles_view(self.connections@);
        let ghost pv = profile@;
        let n = self.connections.len();
        let mut i: usize = 0;
        while i < n
            invariant
                n == self.connections@.len(),
                i <= n,
                old_v == profiles_view(self.connections@),
                self@ == old(self)@,
                pv == profile@,
                forall|j: int| 0 <= j < i ==> #[trigger] old_v[j].name != pv.name,
            decreases n - i,
        {
            if self.connections[i].name == profile.name {
                proof {
                    assert(old_v[i as int].name == pv.name);
                    assert(is_first_named(old_v, pv.name, i as int));
                    lemma_first_named(old_v, pv.name);
                    lemma_first_named_unique(old_v, pv.name, i as int, first_named(old_v, pv.name));
                }
                self.connections.set(i, profile);
                assert(profiles_view(self.connections@) =~= old_v.update(i as int, pv));
                return;
            }
            i = i + 1;
        }
        assert(!has_named(old_v, pv.name));
        self.connections.push(profile);
        assert(profiles_view(self.connections@) =~= old_v.push(pv));
    }
}

} // verus!
