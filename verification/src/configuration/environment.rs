//! The deployment environment, which selects the overriding settings document.

use vstd::prelude::*;

verus! {

/// The environments the service can be deployed to.
#[derive(Clone, Copy, Debug, PartialEq, Eq, Structural)]
pub enum Environment {
    Local,
    Production,
}

/// The lowercase form of a text: what `str::to_lowercase` returns for it,
/// which follows the Unicode tables and is not spelled out here.
pub uninterp spec fn lowercase_of(text: Seq<char>) -> Seq<char>;

/// `str::to_lowercase` returns the lowercase form of the text as a new
/// `String`; the contract gives that result its name and claims nothing of it.
pub assume_specification[ str::to_lowercase ](text: &str) -> (lowered: String)
    ensures
        lowered@ == lowercase_of(text@),
;

/// What an attempt to parse an environment gave: the environment, or the
/// characters of the message that rejects the name.
pub open spec fn parsed_view(parsed: Result<Environment, String>) -> Result<
    Environment,
    Seq<char>,
> {
    match parsed {
        Ok(environment) => Ok(environment),
        Err(message) => Err(message@),
    }
}

impl Environment {
    /// The name of the environment.
    pub open spec fn name(self) -> Seq<char> {
        match self {
            Environment::Local => "local"@,
            Environment::Production => "production"@,
        }
    }

    /// The message that rejects `name`.
    pub open spec fn rejection(name: Seq<char>) -> Seq<char> {
        name + " is not a supported environment. try `local` or `production`."@
    }

    /// The environment that `name` names exactly, or the message that
    /// rejects it.
    pub open spec fn named(name: Seq<char>) -> Result<Environment, Seq<char>> {
        if name == Environment::Local.name() {
            Ok(Environment::Local)
        } else if name == Environment::Production.name() {
            Ok(Environment::Production)
        } else {
            Err(Environment::rejection(name))
        }
    }

    /// The environment that `value` names in any mix of upper and lower
    /// case, or the message that rejects its lowercase form.
    pub open spec fn parse(value: Seq<char>) -> Result<Environment, Seq<char>> {
        Environment::named(lowercase_of(value))
    }

    /// The name of the environment, which is also the name of its settings
    /// document.
    pub fn as_str(&self) -> (name: &'static str)
        ensures
            name@ == self.name(),
    {
        match self {
            Environment::Local => "local",
            Environment::Production => "production",
        }
    }

    /// The environment with exactly the name `name`. Any other name is an
    /// error, never a default.
    pub fn from_name(name: String) -> (parsed: Result<Environment, String>)
        ensures
            parsed_view(parsed) == Environment::named(name@),
    {
        if name == String::from_str("local") {
            Ok(Environment::Local)
        } else if name == String::from_str("production") {
            Ok(Environment::Production)
        } else {
            let mut message = name;
            message.append(" is not a supported environment. try `local` or `production`.");
            Err(message)
        }
    }

    /// The environment that the process-wide variable selects: `Local` where
    /// the variable is not set, else the environment that its value names.
    pub fn from_variable(value: Option<String>) -> (selected: Result<Environment, String>)
        ensures
            parsed_view(selected) == match value {
                None => Ok(Environment::Local),
                Some(value) => Environment::parse(value@),
            },
    {
        match value {
            None => Ok(Environment::Local),
            Some(value) => Environment::from_name(value.to_lowercase()),
        }
    }
}

impl TryFrom<String> for Environment {
    type Error = String;

    /// The environment that `value` names, whatever the case of its letters.
    fn try_from(value: String) -> (parsed: Result<Environment, String>)
        ensures
            parsed_view(parsed) == Environment::parse(value@),
    {
        Environment::from_name(value.to_lowercase())
    }
}

/// The general contract of `TryFrom::try_from` speaks of the returned value
/// itself, and a `String` has no value in a contract but its characters: the
/// contract on `try_from` above, over the characters of the message, stands
/// in its place.
impl vstd::std_specs::convert::TryFromSpecImpl<String> for Environment {
    open spec fn obeys_try_from_spec() -> bool {
        false
    }

    open spec fn try_from_spec(value: String) -> Result<Environment, String> {
        Err(value)
    }
}

} // verus!
