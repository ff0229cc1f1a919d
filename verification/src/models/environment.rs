use crate::helpers::text::{ascii_lower, all_ascii, lowercase_of, to_lowercase};
use vstd::prelude::*;

verus! {

/// Environment a bot or the scanner runs in.
#[derive(Debug, Clone, Copy, PartialEq, Eq, Structural)]
pub enum Environment {
    Production,
    Development,
    Backtesting,
}

impl Default for Environment {
    fn default() -> (res: Self)
        ensures
            res is Development,
    {
        Environment::Development
    }
}

impl Environment {
    /// The name of the environment.
    pub open spec fn spec_value(self) -> Seq<char> {
        match self {
            Environment::Production => "Production"@,
            Environment::Development => "Development"@,
            Environment::Backtesting => "Backtesting"@,
        }
    }

    /// Whether this is production.
    pub fn is_prod(&self) -> (res: bool)
        ensures
            res == (*self is Production),
    {
        match *self {
            Environment::Production => true,
            _ => false,
        }
    }

    /// Whether this is development.
    pub fn is_dev(&self) -> (res: bool)
        ensures
            res == (*self is Development),
    {
        match *self {
            Environment::Development => true,
            _ => false,
        }
    }

    /// Whether this is a backtest.
    pub fn is_backtest(&self) -> (res: bool)
        ensures
            res == (*self is Backtesting),
    {
        match *self {
            Environment::Backtesting => true,
            _ => false,
        }
    }

    /// The name of the environment.
    pub fn value(&self) -> (res: String)
        ensures
            res@ == self.spec_value(),
    {
        match self {
            Environment::Production => "Production".to_owned(),
            Environment::Development => "Development".to_owned(),
            Environment::Backtesting => "Backtesting".to_owned(),
        }
    }
}

/// The environment named by an already lowercased name, if any.
pub open spec fn spec_environment_from_lower(name: Seq<char>) -> Option<Environment> {
    if name == "production"@ {
        Some(Environment::Production)
    } else if name == "development"@ {
        Some(Environment::Development)
    } else if name == "backtesting"@ {
        Some(Environment::Backtesting)
    } else {
        None
    }
}

fn environment_from_lower(name: &str) -> (res: Option<Environment>)
    ensures
        res == spec_environment_from_lower(name@),
{
    let t = name.to_owned();
    if t == "production".to_owned() {
        Some(Environment::Production)
    } else if t == "development".to_owned() {
        Some(Environment::Development)
    } else if t == "backtesting".to_owned() {
        Some(Environment::Backtesting)
    } else {
        None
    }
}

/// Reads an environment from its name in any letter case (`production`, `development` or
/// `backtesting`); other names are not accepted.
pub fn from_str(env: &str) -> (res: Environment)
    requires
        spec_environment_from_lower(lowercase_of(env@)) is Some,
    ensures
        Some(res) == spec_environment_from_lower(lowercase_of(env@)),
        all_ascii(env@) ==> Some(res) == spec_environment_from_lower(ascii_lower(env@)),
{
    let lower = to_lowercase(env);
    match environment_from_lower(lower.as_str()) {
        Some(e) => e,
        None => Environment::Development,
    }
}

/// Reads an environment from its name in any letter case, or `None` when the name is none
/// of `production`, `development` and `backtesting`.
pub fn try_from_str(env: &str) -> (res: Option<Environment>)
    ensures
        res == spec_environment_from_lower(lowercase_of(env@)),
{
    let lower = to_lowercase(env);
    if environment_from_lower(lower.as_str()).is_some() {
        Some(from_str(env))
    } else {
        None
    }
}

/// The name of an environment is ASCII and, in any letter case, reads back as the same
/// environment.
pub proof fn lemma_environment_name_round_trip(e: Environment)
    ensures
        all_ascii(e.spec_value()),
        spec_environment_from_lower(ascii_lower(e.spec_value())) == Some(e),
{
    reveal_strlit("Production");
    reveal_strlit("Development");
    reveal_strlit("Backtesting");
    reveal_strlit("production");
    reveal_strlit("development");
    reveal_strlit("backtesting");
    assert("development"@.len() != "production"@.len());
    assert("backtesting"@.len() != "production"@.len());
    assert("backtesting"@[0] != "development"@[0]);
    assert(ascii_lower("Production"@) =~= "production"@);
    assert(ascii_lower("Development"@) =~= "development"@);
    assert(ascii_lower("Backtesting"@) =~= "backtesting"@);
}

/// Exactly one of production, development and backtesting holds.
pub proof fn lemma_one_environment(e: Environment)
    ensures
        (e is Production) as int + (e is Development) as int + (e is Backtesting) as int == 1,
{
}

} // verus!
