//! The deployment environment, which selects the configuration file that
//! overrides the base settings.

use vstd::prelude::*;

verus! {

#[derive(Clone, Copy, Debug, PartialEq, Eq, Structural)]
pub enum Environment {
    Local,
    Production,
}

/// `s` in lower case, by Unicode's case mapping.
pub uninterp spec fn lowercase_of(s: Seq<char>) -> Seq<char>;

/// Relies on `str::to_lowercase`: the lower-case form of `s`, which depends on
/// the characters of `s` alone.
#[verifier::external_body]
fn to_lowercase(s: &str) -> (r: String)
    ensures
        r@ == lowercase_of(s@),
{
    s.to_lowercase()
}

/// The environment that a lower-case name denotes.
pub open spec fn environment_named(t: Seq<char>) -> Option<Environment> {
    if t == "local"@ {
        Some(Environment::Local)
    } else if t == "production"@ {
        Some(Environment::Production)
    } else {
        None
    }
}

pub open spec fn environment_name(e: Environment) -> Seq<char> {
    match e {
        Environment::Local => "local"@,
        Environment::Production => "production"@,
    }
}

proof fn lemma_names_distinct()
    ensures
        "local"@ != "production"@,
{
    reveal_strlit("local");
    reveal_strlit("production");
    assert("local"@.len() != "production"@.len());
}

pub open spec fn environment_error(t: Seq<char>) -> Seq<char> {
    t + " is not a supported environment, use either `local` or `production`"@
}

impl Environment {
    /// The name of the environment, which is also the name of its
    /// configuration file.
    pub fn as_str(&self) -> (r: &'static str)
        ensures
            r@ == environment_name(*self),
            environment_named(r@) == Some(*self),
    {
        proof {
            lemma_names_distinct();
        }
        match self {
            Environment::Local => "local",
            Environment::Production => "production",
        }
    }

    /// The environment named by `t`, which is already in lower case.
    pub fn from_lowercase(t: &str) -> (r: Result<Environment, String>)
        ensures
            r is Ok <==> environment_named(t@) is Some,
            r matches Ok(e) ==> environment_named(t@) == Some(e),
            r matches Err(msg) ==> msg@ == environment_error(t@),
    {
        let name = String::from_str(t);
        if name == String::from_str("local") {
            Ok(Environment::Local)
        } else if name == String::from_str("production") {
            Ok(Environment::Production)
        } else {
            let mut msg = name;
            msg.append(" is not a supported environment, use either `local` or `production`");
            Err(msg)
        }
    }

    /// The environment named by `s`, in any case.
    pub fn parse(s: String) -> (r: Result<Environment, String>)
        ensures
            r is Ok <==> environment_named(lowercase_of(s@)) is Some,
            r matches Ok(e) ==> environment_named(lowercase_of(s@)) == Some(e),
            r matches Err(msg) ==> msg@ == environment_error(lowercase_of(s@)),
    {
        let lower = to_lowercase(s.as_str());
        Environment::from_lowercase(lower.as_str())
    }
}

} // verus!
