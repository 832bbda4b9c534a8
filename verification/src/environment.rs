//! The deployment environment that selects which configuration file applies.

use vstd::prelude::*;
use crate::text::str_equal;

verus! {

/// The environment the application runs in.
#[derive(Clone, Copy, Debug, PartialEq, Eq, Structural)]
pub enum Environment {
    Local,
    Production,
}

/// The name of each environment, as it appears in configuration file names.
pub open spec fn environment_name(env: Environment) -> Seq<char> {
    match env {
        Environment::Local => seq!['l', 'o', 'c', 'a', 'l'],
        Environment::Production => seq!['p', 'r', 'o', 'd', 'u', 'c', 't', 'i', 'o', 'n'],
    }
}

/// Whether every character of a sequence is ASCII.
pub open spec fn all_ascii(s: Seq<char>) -> bool {
    forall|i: int| 0 <= i < s.len() ==> (s[i] as u32) < 128
}

/// The lower-case form of one ASCII character; other characters are kept.
pub open spec fn ascii_lower(c: char) -> char {
    if 'A' <= c <= 'Z' {
        ((c as u32) + 32) as char
    } else {
        c
    }
}

/// The ASCII lower-case form of a sequence of characters.
pub open spec fn ascii_lowercase(s: Seq<char>) -> Seq<char> {
    s.map_values(|c: char| ascii_lower(c))
}

/// What `str::to_lowercase` returns for a string, by its characters.
pub uninterp spec fn unicode_lowercase(s: Seq<char>) -> Seq<char>;

/// Calls `str::to_lowercase`. The contract names its result, and states the
/// one fact of it that the standard library's documentation plainly gives
/// through the Unicode lower-case mapping: on a string made of ASCII characters
/// only, every upper-case ASCII letter becomes its lower-case letter and every
/// other character is kept. Nothing is stated of non-ASCII input.
#[verifier::external_body]
fn to_lowercase(s: &str) -> (res: String)
    ensures
        res@ == unicode_lowercase(s@),
        all_ascii(s@) ==> res@ == ascii_lowercase(s@),
{
    s.to_lowercase()
}

/// The lower-case form of a name: for an ASCII name its ASCII lower-case
/// form, for any other name what `str::to_lowercase` returns.
pub open spec fn lowercase_name(s: Seq<char>) -> Seq<char> {
    if all_ascii(s) {
        ascii_lowercase(s)
    } else {
        unicode_lowercase(s)
    }
}

/// The environment that a name selects: `production`, in any letter case,
/// selects production; every other name selects local.
pub open spec fn environment_from_name(s: Seq<char>) -> Environment {
    if lowercase_name(s) == environment_name(Environment::Production) {
        Environment::Production
    } else {
        Environment::Local
    }
}

impl Environment {
    /// The environment's name.
    pub fn as_str(&self) -> (name: &'static str)
        ensures
            name@ == environment_name(*self),
    {
        proof {
            reveal_strlit("local");
            reveal_strlit("production");
        }
        match self {
            Environment::Local => "local",
            Environment::Production => "production",
        }
    }

    /// The environment for a name that has already been brought to lower case.
    pub fn from_lowercase_name(lower: &str) -> (env: Environment)
        ensures
            env == (if lower@ == environment_name(Environment::Production) {
                Environment::Production
            } else {
                Environment::Local
            }),
    {
        proof {
            reveal_strlit("production");
            assert("production"@ =~= environment_name(Environment::Production));
        }
        if str_equal(lower, "production") {
            Environment::Production
        } else {
            Environment::Local
        }
    }

    /// The environment that the value of the environment variable selects;
    /// without the variable, the environment is local.
    pub fn from_variable(value: Option<String>) -> (env: Environment)
        ensures
            env == (match value {
                Some(s) => environment_from_name(s@),
                None => Environment::Local,
            }),
    {
        match value {
            Some(s) => Environment::from(s),
            None => Environment::Local,
        }
    }

    /// The name of the configuration file of the environment: its name
    /// followed by `.yaml`.
    pub fn file_name(&self) -> (name: String)
        ensures
            name@ == environment_name(*self) + seq!['.', 'y', 'a', 'm', 'l'],
    {
        proof {
            reveal_strlit(".yaml");
        }
        let mut name = self.as_str().to_owned();
        name.append(".yaml");
        name
    }
}

impl From<String> for Environment {
    fn from(s: String) -> (env: Environment) {
        let lower = to_lowercase(s.as_str());
        Environment::from_lowercase_name(lower.as_str())
    }
}

impl vstd::std_specs::convert::FromSpecImpl<String> for Environment {
    open spec fn obeys_from_spec() -> bool {
        true
    }

    open spec fn from_spec(s: String) -> Environment {
        environment_from_name(s@)
    }
}

/// The name of an environment, read back, selects that same environment.
pub proof fn law_name_round_trip(env: Environment)
    ensures
        environment_from_name(environment_name(env)) == env,
{
    let s = environment_name(env);
    assert(all_ascii(s));
    assert(ascii_lowercase(s) =~= s);
    assert(lowercase_name(s) == s);
}

/// Reading an environment name ignores the letter case of ASCII names: two
/// ASCII names that differ only in letter case select the same environment.
pub proof fn law_name_case_insensitive(a: Seq<char>, b: Seq<char>)
    requires
        all_ascii(a),
        all_ascii(b),
        ascii_lowercase(a) == ascii_lowercase(b),
    ensures
        environment_from_name(a) == environment_from_name(b),
{
}

/// Only the name `production` selects production: an ASCII name selects
/// production exactly when, letter case aside, it is `production`, and
/// every other ASCII name selects local; a name with other characters
/// selects production exactly when `str::to_lowercase` makes it
/// `production`.
pub proof fn law_only_production_selects_production(s: Seq<char>)
    ensures
        all_ascii(s) ==> (environment_from_name(s) == Environment::Production <==> ascii_lowercase(
            s,
        ) == "production"@),
        all_ascii(s) ==> (environment_from_name(s) == Environment::Local <==> ascii_lowercase(s)
            != "production"@),
        !all_ascii(s) ==> (environment_from_name(s) == Environment::Production
            <==> unicode_lowercase(s) == "production"@),
{
    reveal_strlit("production");
    assert("production"@ =~= seq!['p', 'r', 'o', 'd', 'u', 'c', 't', 'i', 'o', 'n']);
}

/// A name is lower-cased letter by letter: an ASCII name keeps its length,
/// an upper-case ASCII letter becomes the letter 32 code points after it,
/// and every other character is kept.
pub proof fn law_ascii_lowercase_letterwise(s: Seq<char>, i: int)
    requires
        0 <= i < s.len(),
    ensures
        ascii_lowercase(s).len() == s.len(),
        'A' <= s[i] <= 'Z' ==> ascii_lowercase(s)[i] as u32 == s[i] as u32 + 32,
        !('A' <= s[i] <= 'Z') ==> ascii_lowercase(s)[i] == s[i],
{
}

/// Distinct environments have distinct names.
pub proof fn law_names_distinct(a: Environment, b: Environment)
    requires
        a != b,
    ensures
        environment_name(a) != environment_name(b),
{
    assert(environment_name(a).len() != environment_name(b).len());
}

} // verus!
