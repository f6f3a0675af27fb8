use vstd::prelude::*;

use super::state::{build_postgres_url, postgres_url};

verus! {

#[derive(Debug, Clone, Copy, PartialEq, Eq, Structural)]
pub enum GuiStateError {
    DatabaseAlreadyExists,
    DatabaseConnectionError,
}

/// Everything needed to open a connection, the password included.
#[derive(Debug, Clone, PartialEq, Eq)]
pub struct DatabaseConfig {
    pub name: String,
    pub host: String,
    pub port: u16,
    pub username: String,
    pub password: String,
    pub database: String,
}

/// The open database connections, keyed by name. `C` is the connection
/// handle.
#[verifier::reject_recursive_types(C)]
pub struct Databases<C> {
    databases: super::state::Databases<C>,
}

impl<C> View for Databases<C> {
    type V = Map<Seq<char>, C>;

    closed spec fn view(&self) -> Map<Seq<char>, C> {
        self.databases@
    }
}

/// The address that `config` is reached at.
pub open spec fn config_url(config: DatabaseConfig) -> Seq<char> {
    postgres_url(
        config.username@,
        config.password@,
        config.host@,
        config.port,
        config.database@,
    )
}

impl<C> Databases<C> {
    pub fn new() -> (r: Self)
        ensures
            r@ == Map::<Seq<char>, C>::empty(),
    {
        Databases { databases: super::state::Databases::new() }
    }

    /// The first half of adding a database: refuses a name that is already
    /// open, and otherwise gives the address to connect to.
    pub fn add_database_url(&self, name: &str, database_config: &DatabaseConfig) -> (r: Result<
        String,
        GuiStateError,
    >)
        ensures
            self@.dom().contains(name@) ==> r == Err::<String, GuiStateError>(
                GuiStateError::DatabaseAlreadyExists,
            ),
            !self@.dom().contains(name@) ==> (r matches Ok(url) && url@ == config_url(
                *database_config,
            )),
    {
        if self.databases.contains(name) {
            return Err(GuiStateError::DatabaseAlreadyExists);
        }
        Ok(
            build_postgres_url(
                database_config.username.as_str(),
                database_config.password.as_str(),
                database_config.host.as_str(),
                database_config.port,
                database_config.database.as_str(),
            ),
        )
    }

    /// The second half of adding a database: registers the connection that
    /// was opened under `name`, or reports that connecting failed.
    pub fn add_database<E>(&mut self, name: String, connected: Result<C, E>) -> (r: Result<
        (),
        GuiStateError,
    >)
        ensures
            match connected {
                Ok(c) => r is Ok && final(self)@ == old(self)@.insert(name@, c),
                Err(_) => r == Err::<(), GuiStateError>(GuiStateError::DatabaseConnectionError)
                    && final(self)@ == old(self)@,
            },
    {
        match connected {
            Ok(db) => {
                self.databases.insert(name, db);
                Ok(())
            },
            Err(_) => Err(GuiStateError::DatabaseConnectionError),
        }
    }
}

/// The state shared across panels, in its first form: the open connections.
#[verifier::reject_recursive_types(C)]
pub struct GuiState<C> {
    databases: Databases<C>,
}

impl<C> View for GuiState<C> {
    type V = Map<Seq<char>, C>;

    closed spec fn view(&self) -> Map<Seq<char>, C> {
        self.databases@
    }
}

impl<C> GuiState<C> {
    pub fn new() -> (r: Self)
        ensures
            r@ == Map::<Seq<char>, C>::empty(),
    {
        GuiState { databases: Databases::new() }
    }

    pub fn get_databases(&self) -> (r: &Databases<C>)
        ensures
            r@ == self@,
    {
        &self.databases
    }
}

} // verus!
