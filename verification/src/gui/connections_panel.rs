use vstd::prelude::*;

use super::state::{GuiState, GuiStateError, GuiStateView};
use super::Effect;
use crate::settings::{ConnectionProfile, ProfileView, SettingsView, first_named, has_named, law_upsert_then_lookup, upserted, opt_view};
use crate::text::{law_trim_idempotent, parse_port, parse_u16, trim, trim_str};

verus! {

/// The fields of the "new connection" dialog, as the user typed them.
#[derive(Debug, Clone, Default, PartialEq, Eq)]
pub struct NewConnectionForm {
    pub name: String,
    pub host: String,
    pub port: String,
    pub username: String,
    pub password: String,
    pub show_password: bool,
    pub database: String,
    pub error: Option<String>,
}

/// The mathematical value of a [`NewConnectionForm`].
pub struct FormView {
    pub name: Seq<char>,
    pub host: Seq<char>,
    pub port: Seq<char>,
    pub username: Seq<char>,
    pub password: Seq<char>,
    pub show_password: bool,
    pub database: Seq<char>,
    pub error: Option<Seq<char>>,
}

impl View for NewConnectionForm {
    type V = FormView;

    open spec fn view(&self) -> FormView {
        FormView {
            name: self.name@,
            host: self.host@,
            port: self.port@,
            username: self.username@,
            password: self.password@,
            show_password: self.show_password,
            database: self.database@,
            error: opt_view(self.error),
        }
    }
}

/// The form as it opens: `localhost:5432`, everything else blank.
pub open spec fn fresh_form() -> FormView {
    FormView {
        name: Seq::empty(),
        host: "localhost"@,
        port: "5432"@,
        username: Seq::empty(),
        password: Seq::empty(),
        show_password: false,
        database: Seq::empty(),
        error: None,
    }
}

impl NewConnectionForm {
    pub fn new() -> (r: Self)
        ensures
            r@ == fresh_form(),
    {
        NewConnectionForm {
            name: String::new(),
            host: String::from_str("localhost"),
            port: String::from_str("5432"),
            username: String::new(),
            password: String::new(),
            show_password: false,
            database: String::new(),
            error: None,
        }
    }
}

/// The connections panel: the list of open connections, and the "new
/// connection" dialog while it is open.
#[derive(Debug, Default)]
pub struct State {
    new_connection_form: Option<NewConnectionForm>,
}

impl View for State {
    type V = Option<FormView>;

    closed spec fn view(&self) -> Option<FormView> {
        match self.new_connection_form {
            Some(f) => Some(f@),
            None => None,
        }
    }
}

#[derive(Debug)]
pub enum Message<C> {
    Select(String),
    OpenNewConnectionForm,
    CancelNewConnectionForm,
    NameChanged(String),
    HostChanged(String),
    PortChanged(String),
    UsernameChanged(String),
    PasswordChanged(String),
    TogglePasswordVisibility,
    DatabaseChanged(String),
    Submit,
    ConnectionEstablished(ConnectionProfile, Result<C, GuiStateError>),
}

/// `s` with `f` applied to the open form; a closed form stays closed.
pub open spec fn edit_form(s: Option<FormView>, f: spec_fn(FormView) -> FormView) -> Option<FormView> {
    match s {
        Some(form) => Some(f(form)),
        None => None,
    }
}

/// `s` with `message` shown as the open form's error.
pub open spec fn with_error(s: Option<FormView>, message: Seq<char>) -> Option<FormView> {
    edit_form(s, |f: FormView| FormView { error: Some(message), ..f })
}

pub open spec fn msg_name_required() -> Seq<char> {
    "Connection name is required."@
}

pub open spec fn msg_name_taken() -> Seq<char> {
    "A connection with this name already exists."@
}

pub open spec fn msg_host_required() -> Seq<char> {
    "Host is required."@
}

pub open spec fn msg_bad_port() -> Seq<char> {
    "Port must be a number between 0 and 65535."@
}

pub open spec fn msg_database_required() -> Seq<char> {
    "Database name is required."@
}

pub open spec fn msg_connect_failed() -> Seq<char> {
    "Failed to connect to the database."@
}

/// What the open form yields: the profile to connect with and the password,
/// or the first problem found. Names, hosts, ports, user names and database
/// names are taken without surrounding white space; `taken` holds the names
/// of the connections already open.
pub open spec fn validate_form(form: FormView, taken: Set<Seq<char>>) -> Result<
    (ProfileView, Seq<char>),
    Seq<char>,
> {
    let name = trim(form.name);
    let host = trim(form.host);
    let database = trim(form.database);
    if name.len() == 0 {
        Err(msg_name_required())
    } else if taken.contains(name) {
        Err(msg_name_taken())
    } else if host.len() == 0 {
        Err(msg_host_required())
    } else {
        match parse_u16(trim(form.port)) {
            None => Err(msg_bad_port()),
            Some(port) => if database.len() == 0 {
                Err(msg_database_required())
            } else {
                Ok(
                    (
                        ProfileView {
                            name,
                            host,
                            port,
                            username: trim(form.username),
                            database,
                        },
                        form.password,
                    ),
                )
            },
        }
    }
}

/// How the connections panel handles `message`: from the form `before` and the shared state `shared_before` to `after` and `shared_after`, asking for `e`.
pub open spec fn update_post<C>(
    before: Option<FormView>,
    shared_before: GuiStateView<C>,
    message: Message<C>,
    after: Option<FormView>,
    shared_after: GuiStateView<C>,
    e: Effect,
) -> bool {
    match message {
        Message::Select(name) => {
            &&& shared_after == (GuiStateView { selected: Some(name@), ..shared_before })
            &&& after == before
            &&& e is Nothing
        },
        Message::OpenNewConnectionForm => {
            &&& after == Some(fresh_form())
            &&& shared_after == shared_before
            &&& e is Nothing
        },
        Message::CancelNewConnectionForm => {
            &&& after is None
            &&& shared_after == shared_before
            &&& e is Nothing
        },
        Message::NameChanged(v) => {
            &&& after == edit_form(before, |f: FormView| FormView { name: v@, ..f })
            &&& shared_after == shared_before
            &&& e is Nothing
        },
        Message::HostChanged(v) => {
            &&& after == edit_form(before, |f: FormView| FormView { host: v@, ..f })
            &&& shared_after == shared_before
            &&& e is Nothing
        },
        Message::PortChanged(v) => {
            &&& after == edit_form(before, |f: FormView| FormView { port: v@, ..f })
            &&& shared_after == shared_before
            &&& e is Nothing
        },
        Message::UsernameChanged(v) => {
            &&& after == edit_form(
                before,
                |f: FormView| FormView { username: v@, ..f },
            )
            &&& shared_after == shared_before
            &&& e is Nothing
        },
        Message::PasswordChanged(v) => {
            &&& after == edit_form(
                before,
                |f: FormView| FormView { password: v@, ..f },
            )
            &&& shared_after == shared_before
            &&& e is Nothing
        },
        Message::TogglePasswordVisibility => {
            &&& after == edit_form(
                before,
                |f: FormView| FormView { show_password: !f.show_password, ..f },
            )
            &&& shared_after == shared_before
            &&& e is Nothing
        },
        Message::DatabaseChanged(v) => {
            &&& after == edit_form(
                before,
                |f: FormView| FormView { database: v@, ..f },
            )
            &&& shared_after == shared_before
            &&& e is Nothing
        },
        Message::Submit => {
            &&& shared_after == shared_before
            &&& match validate_form(before->0, shared_before.databases.dom()) {
                Ok((p, pw)) => {
                    &&& after == before
                    &&& e matches Effect::Connect { profile, password } && profile@ == p
                        && password@ == pw
                },
                Err(m) => {
                    &&& after == with_error(before, m)
                    &&& e is Nothing
                },
            }
        },
        Message::ConnectionEstablished(profile, result) => match result {
            Ok(connection) => {
                &&& shared_after == (GuiStateView {
                    databases: shared_before.databases.insert(profile@.name, connection),
                    selected: Some(profile@.name),
                    settings: SettingsView {
                        connections: upserted(
                            shared_before.settings.connections,
                            profile@,
                        ),
                        ..shared_before.settings
                    },
                })
                &&& after is None
                &&& e is SaveSettings
            },
            Err(_) => {
                &&& after == with_error(before, msg_connect_failed())
                &&& shared_after == shared_before
                &&& e is Nothing
            },
        },
    }
}

/// The connections to reopen at start-up: each saved profile whose
/// password could be read from the keychain, with that password, in order.
/// A profile whose password could not be read is skipped.
pub open spec fn reconnect_plan(saved: Seq<(ConnectionProfile, Option<String>)>) -> Seq<
    (ProfileView, Seq<char>),
>
    decreases saved.len(),
{
    if saved.len() == 0 {
        Seq::empty()
    } else {
        let prev = reconnect_plan(saved.drop_last());
        match saved.last().1 {
            Some(password) => prev.push((saved.last().0@, password@)),
            None => prev,
        }
    }
}

pub open spec fn pairs_view(v: Seq<(ConnectionProfile, String)>) -> Seq<(ProfileView, Seq<char>)> {
    v.map_values(|p: (ConnectionProfile, String)| (p.0@, p.1@))
}

/// Picks the saved profiles to reconnect, each with the password that the
/// keychain gave for it (`None` where it gave none).
pub fn reconnects(saved: Vec<(ConnectionProfile, Option<String>)>) -> (r: Vec<(ConnectionProfile, String)>)
    ensures
        pairs_view(r@) == reconnect_plan(saved@),
{
    let mut r: Vec<(ConnectionProfile, String)> = Vec::new();
    let mut i: usize = 0;
    while i < saved.len()
        invariant
            i <= saved@.len(),
            pairs_view(r@) == reconnect_plan(saved@.take(i as int)),
        decreases saved@.len() - i,
    {
        assert(saved@.take(i + 1).drop_last() =~= saved@.take(i as int));
        match &saved[i].1 {
            Some(password) => {
                r.push((saved[i].0.duplicate(), password.clone()));
            },
            None => {},
        }
        i = i + 1;
        assert(pairs_view(r@) =~= reconnect_plan(saved@.take(i as int)));
    }
    assert(saved@.take(saved@.len() as int) =~= saved@);
    r
}

/// Whether the password a connection attempt used is to be saved to the
/// keychain: only once it has been shown to work, that is, when the
/// connection was established.
pub fn keep_password<C>(result: &Result<C, GuiStateError>) -> (b: bool)
    ensures
        b == (*result is Ok),
{
    result.is_ok()
}

impl State {
    /// The panel as it starts, together with the profiles saved by an
    /// earlier session, each of which is to be reconnected (once its
    /// password is read from the keychain).
    pub fn new(saved_connections: Vec<ConnectionProfile>) -> (r: (Self, Vec<ConnectionProfile>))
        ensures
            r.0@ is None,
            r.1@ == saved_connections@,
    {
        (State { new_connection_form: None }, saved_connections)
    }

    /// The "new connection" dialog's fields, while it is open.
    pub fn form(&self) -> (r: Option<&NewConnectionForm>)
        ensures
            match r {
                Some(f) => self@ == Some(f@),
                None => self@ is None,
            },
    {
        match &self.new_connection_form {
            Some(f) => Some(f),
            None => None,
        }
    }

    fn set_error(&mut self, error: String)
        ensures
            final(self)@ == with_error(old(self)@, error@),
    {
        match &mut self.new_connection_form {
            Some(form) => {
                form.error = Some(error);
            },
            None => {},
        }
    }

    /// Validates the open form and, if valid, returns the connection
    /// profile together with the password to connect with.
    pub fn validate<C>(&self, shared: &GuiState<C>) -> (r: Result<(ConnectionProfile, String), String>)
        requires
            self@ is Some,
        ensures
            match (r, validate_form(self@->0, shared@.databases.dom())) {
                (Ok((p, pw)), Ok((q, qw))) => p@ == q && pw@ == qw,
                (Err(m), Err(n)) => m@ == n,
                _ => false,
            },
    {
        let form = match &self.new_connection_form {
            Some(f) => f,
            None => {
                return Err(String::new());
            },
        };
        let name = trim_str(form.name.as_str());
        if name.as_str().is_empty() {
            return Err(String::from_str("Connection name is required."));
        }
        if shared.databases().contains(name.as_str()) {
            return Err(String::from_str("A connection with this name already exists."));
        }
        let host = trim_str(form.host.as_str());
        if host.as_str().is_empty() {
            return Err(String::from_str("Host is required."));
        }
        let port_text = trim_str(form.port.as_str());
        let port = match parse_port(port_text.as_str()) {
            Some(p) => p,
            None => {
                return Err(String::from_str("Port must be a number between 0 and 65535."));
            },
        };
        let database = trim_str(form.database.as_str());
        if database.as_str().is_empty() {
            return Err(String::from_str("Database name is required."));
        }
        let username = trim_str(form.username.as_str());
        Ok((ConnectionProfile { name, host, port, username, database }, form.password.clone()))
    }

    /// Handles `message`. `shared` is the state this panel reads and changes
    /// in common with the query panel: the open connections and which one is
    /// selected. A submitted form that validates asks for a connection; one
    /// that does not shows the problem. An established connection is
    /// registered, selected and remembered, and closes the form.
    pub fn update<C>(&mut self, message: Message<C>, shared: &mut GuiState<C>) -> (e: Effect)
        requires
            message is Submit ==> old(self)@ is Some,
        ensures
            update_post(old(self)@, old(shared)@, message, final(self)@, final(shared)@, e),
    {
        match message {
            Message::Select(name) => {
                shared.select_connection(name);
            },
            Message::OpenNewConnectionForm => {
                self.new_connection_form = Some(NewConnectionForm::new());
            },
            Message::CancelNewConnectionForm => {
                self.new_connection_form = None;
            },
            Message::NameChanged(value) => {
                if let Some(form) = &mut self.new_connection_form {
                    form.name = value;
                }
            },
            Message::HostChanged(value) => {
                if let Some(form) = &mut self.new_connection_form {
                    form.host = value;
                }
            },
            Message::PortChanged(value) => {
                if let Some(form) = &mut self.new_connection_form {
                    form.port = value;
                }
            },
            Message::UsernameChanged(value) => {
                if let Some(form) = &mut self.new_connection_form {
                    form.username = value;
                }
            },
            Message::PasswordChanged(value) => {
                if let Some(form) = &mut self.new_connection_form {
                    form.password = value;
                }
            },
            Message::TogglePasswordVisibility => {
                if let Some(form) = &mut self.new_connection_form {
                    form.show_password = !form.show_password;
                }
            },
            Message::DatabaseChanged(value) => {
                if let Some(form) = &mut self.new_connection_form {
                    form.database = value;
                }
            },
            Message::Submit => {
                return match self.validate(shared) {
                    Ok((profile, password)) => Effect::Connect { profile, password },
                    Err(error) => {
                        self.set_error(error);
                        Effect::Nothing
                    },
                };
            },
            Message::ConnectionEstablished(profile, result) => match result {
                Ok(connection) => {
                    shared.add_connection(profile.name.clone(), connection);
                    shared.remember_connection(profile);
                    self.new_connection_form = None;
                    return Effect::SaveSettings;
                },
                Err(_) => {
                    self.set_error(String::from_str("Failed to connect to the database."));
                },
            },
        }
        Effect::Nothing
    }
}

/// A profile that validation lets through has a non-empty name, host and
/// database name, none with surrounding white space, a name that no open
/// connection has, the port that the port field spells, and the typed
/// password, untouched.
pub proof fn law_validated_profile(form: FormView, taken: Set<Seq<char>>)
    ensures
        validate_form(form, taken) matches Ok((p, pw)) ==> {
            &&& p.name.len() > 0 && trim(p.name) == p.name
            &&& !taken.contains(p.name)
            &&& p.host.len() > 0 && trim(p.host) == p.host
            &&& p.database.len() > 0 && trim(p.database) == p.database
            &&& trim(p.username) == p.username
            &&& parse_u16(trim(form.port)) == Some(p.port)
            &&& pw == form.password
        },
{
    law_trim_idempotent(form.name);
    law_trim_idempotent(form.host);
    law_trim_idempotent(form.database);
    law_trim_idempotent(form.username);
}

/// When success is owed: a form whose trimmed name is non-empty and not an
/// open connection, whose trimmed host and database name are non-empty and
/// whose trimmed port reads as a `u16` validates, whatever the user name
/// and password hold, to the profile of exactly those trimmed fields (the
/// user name trimmed too, and allowed to be empty) and the typed password.
pub proof fn law_validation_succeeds(form: FormView, taken: Set<Seq<char>>, port: u16)
    requires
        trim(form.name).len() > 0,
        !taken.contains(trim(form.name)),
        trim(form.host).len() > 0,
        trim(form.database).len() > 0,
        parse_u16(trim(form.port)) == Some(port),
    ensures
        validate_form(form, taken) == Ok::<(ProfileView, Seq<char>), Seq<char>>(
            (
                ProfileView {
                    name: trim(form.name),
                    host: trim(form.host),
                    port,
                    username: trim(form.username),
                    database: trim(form.database),
                },
                form.password,
            ),
        ),
{
}

/// Which problem a form that does not validate shows: the first, in the
/// order name, duplicate name, host, port, database name.
pub proof fn law_validation_errors(form: FormView, taken: Set<Seq<char>>)
    ensures
        trim(form.name).len() == 0 ==> validate_form(form, taken) == Err::<
            (ProfileView, Seq<char>),
            Seq<char>,
        >("Connection name is required."@),
        trim(form.name).len() > 0 && taken.contains(trim(form.name)) ==> validate_form(form, taken)
            == Err::<(ProfileView, Seq<char>), Seq<char>>(
            "A connection with this name already exists."@,
        ),
        trim(form.name).len() > 0 && !taken.contains(trim(form.name)) && trim(form.host).len() == 0
            ==> validate_form(form, taken) == Err::<(ProfileView, Seq<char>), Seq<char>>(
            "Host is required."@,
        ),
        trim(form.name).len() > 0 && !taken.contains(trim(form.name)) && trim(form.host).len() > 0
            && parse_u16(trim(form.port)) is None ==> validate_form(form, taken) == Err::<
            (ProfileView, Seq<char>),
            Seq<char>,
        >("Port must be a number between 0 and 65535."@),
        trim(form.name).len() > 0 && !taken.contains(trim(form.name)) && trim(form.host).len() > 0
            && parse_u16(trim(form.port)) is Some && trim(form.database).len() == 0 ==> validate_form(
            form,
            taken,
        ) == Err::<(ProfileView, Seq<char>), Seq<char>>("Database name is required."@),
{
}

/// Showing and hiding the password twice leaves the form as it was.
pub proof fn law_toggle_twice(s: Option<FormView>)
    ensures
        ({
            let toggle = |f: FormView| FormView { show_password: !f.show_password, ..f };
            edit_form(edit_form(s, toggle), toggle) == s
        }),
{
}

/// Once a connection is established it is open under the profile's name,
/// selected, and remembered in the settings under that name; the form is
/// closed and the settings are to be saved.
pub proof fn law_established_connection<C>(
    before: Option<FormView>,
    shared_before: GuiStateView<C>,
    profile: ConnectionProfile,
    connection: C,
    after: Option<FormView>,
    shared_after: GuiStateView<C>,
    e: Effect,
)
    requires
        update_post(
            before,
            shared_before,
            Message::ConnectionEstablished(profile, Ok(connection)),
            after,
            shared_after,
            e,
        ),
    ensures
        shared_after.selection_known(),
        shared_after.selected == Some(profile@.name),
        shared_after.databases[profile@.name] == connection,
        has_named(shared_after.settings.connections, profile@.name),
        shared_after.settings.connections[first_named(
            shared_after.settings.connections,
            profile@.name,
        )] == profile@,
        after is None,
        e is SaveSettings,
{
    law_upsert_then_lookup(shared_before.settings.connections, profile@);
}

/// Once a connection is open, a form that names it again (up to
/// surrounding white space) is refused as a duplicate.
pub proof fn law_open_name_is_refused<C>(
    before: Option<FormView>,
    shared_before: GuiStateView<C>,
    profile: ConnectionProfile,
    connection: C,
    after: Option<FormView>,
    shared_after: GuiStateView<C>,
    e: Effect,
    form: FormView,
)
    requires
        update_post(
            before,
            shared_before,
            Message::ConnectionEstablished(profile, Ok(connection)),
            after,
            shared_after,
            e,
        ),
        profile@.name.len() > 0,
        trim(form.name) == profile@.name,
    ensures
        validate_form(form, shared_after.databases.dom()) == Err::<(ProfileView, Seq<char>), Seq<char>>(
            msg_name_taken(),
        ),
{
}

} // verus!
