//! The names that the configuration uses: the environment a process runs
//! in, and the roles under which it reaches the storage engine.

use vstd::prelude::*;
use vstd::string::*;
use crate::util::misc::{lowercase_of, same_text};

verus! {

/// The role under which a connection is made.
#[derive(Debug, Copy, Clone, Eq, PartialEq, Hash, Structural)]
pub enum DatabaseRole {
    Root,
    Application,
    Migration,
}

impl DatabaseRole {
    /// The name of the role.
    pub open spec fn name(&self) -> Seq<char> {
        match self {
            DatabaseRole::Root => "Root"@,
            DatabaseRole::Application => "Application"@,
            DatabaseRole::Migration => "Migration"@,
        }
    }

    /// The role that a lower-case name stands for.
    pub open spec fn named(lower: Seq<char>) -> Option<DatabaseRole> {
        if lower == "root"@ {
            Some(DatabaseRole::Root)
        } else if lower == "application"@ {
            Some(DatabaseRole::Application)
        } else if lower == "migration"@ {
            Some(DatabaseRole::Migration)
        } else {
            None
        }
    }

    /// The name of the role.
    pub fn to_string(&self) -> (name: String)
        ensures
            name@ == self.name(),
    {
        match self {
            DatabaseRole::Root => "Root".to_string(),
            DatabaseRole::Application => "Application".to_string(),
            DatabaseRole::Migration => "Migration".to_string(),
        }
    }

    /// The role that a lower-case name stands for.
    pub fn from_lowercase(lower: &str) -> (role: Option<DatabaseRole>)
        ensures
            role == DatabaseRole::named(lower@),
    {
        if same_text(lower, "root") {
            Some(DatabaseRole::Root)
        } else if same_text(lower, "application") {
            Some(DatabaseRole::Application)
        } else if same_text(lower, "migration") {
            Some(DatabaseRole::Migration)
        } else {
            None
        }
    }

    /// Reads a role from its name, in any case. Where the text names no
    /// role, the text comes back in lower case.
    pub fn parse(text: &str) -> (role: Result<DatabaseRole, String>)
        ensures
            match DatabaseRole::named(lowercase_of(text@)) {
                Some(named) => role == Ok::<DatabaseRole, String>(named),
                None => (role matches Err(unknown) && unknown@ == lowercase_of(text@)),
            },
    {
        let lower = text.to_lowercase();
        match DatabaseRole::from_lowercase(lower.as_str()) {
            Some(named) => Ok(named),
            None => Err(lower),
        }
    }
}

/// The environment that a process runs in.
#[derive(Debug, Copy, Clone, PartialEq, Eq, Structural)]
pub enum Environment {
    Local,
    Test,
    Prod,
}

impl Environment {
    /// The short name of the environment.
    pub open spec fn name(&self) -> Seq<char> {
        match self {
            Environment::Local => "local"@,
            Environment::Test => "test"@,
            Environment::Prod => "prod"@,
        }
    }

    /// The environment that a lower-case name stands for.
    pub open spec fn named(lower: Seq<char>) -> Option<Environment> {
        if lower == "local"@ {
            Some(Environment::Local)
        } else if lower == "test"@ {
            Some(Environment::Test)
        } else if lower == "production"@ {
            Some(Environment::Prod)
        } else {
            None
        }
    }

    /// The short name of the environment.
    pub fn as_str(&self) -> (name: &'static str)
        ensures
            name@ == self.name(),
    {
        match self {
            Environment::Local => "local",
            Environment::Test => "test",
            Environment::Prod => "prod",
        }
    }

    /// The environment that a lower-case name stands for.
    pub fn from_lowercase(lower: &str) -> (environment: Option<Environment>)
        ensures
            environment == Environment::named(lower@),
    {
        if same_text(lower, "local") {
            Some(Environment::Local)
        } else if same_text(lower, "test") {
            Some(Environment::Test)
        } else if same_text(lower, "production") {
            Some(Environment::Prod)
        } else {
            None
        }
    }

    /// Whether connections under `role` may be configured in this
    /// environment. The root role has no place in production.
    pub fn allows(&self, role: DatabaseRole) -> (allowed: bool)
        ensures
            allowed == !(*self is Prod && role is Root),
    {
        match (self, role) {
            (Environment::Prod, DatabaseRole::Root) => false,
            _ => true,
        }
    }
}

/// What is said of a text that names no environment.
pub open spec fn unsupported_environment(lower: Seq<char>) -> Seq<char> {
    lower + " is not a supported environment. Use either `local`, 'test' or `prod`."@
}

impl TryFrom<String> for Environment {
    type Error = String;

    /// Reads an environment from its name, in any case. The error says
    /// which text, in lower case, was not understood.
    fn try_from(s: String) -> (environment: Result<Environment, String>)
        ensures
            match Environment::named(lowercase_of(s@)) {
                Some(named) => environment == Ok::<Environment, String>(named),
                None => (environment matches Err(message) && message@ == unsupported_environment(
                    lowercase_of(s@),
                )),
            },
    {
        let lower = s.as_str().to_lowercase();
        match Environment::from_lowercase(lower.as_str()) {
            Some(named) => Ok(named),
            None => Err(
                lower.concat(
                    " is not a supported environment. Use either `local`, 'test' or `prod`.",
                ),
            ),
        }
    }
}

/// The error of `try_from` is a text that is made on the way, and no spec
/// function can name the `String` that holds it. So `try_from` is
/// described by its own `ensures`, and not by the function below.
impl vstd::std_specs::convert::TryFromSpecImpl<String> for Environment {
    open spec fn obeys_try_from_spec() -> bool {
        false
    }

    open spec fn try_from_spec(s: String) -> Result<Environment, String> {
        arbitrary()
    }
}

} // verus!
