use vstd::prelude::*;

verus! {

/// The settings the bot reads from its environment at start-up.
#[derive(Debug)]
pub struct Config {
    /// Where the database is found (the `DB_URL` variable).
    pub db_url: String,
    /// Where errors are reported (the `SENTRY_URL` variable).
    pub sentry_url: String,
}

/// A setting that the environment does not provide.
#[derive(Debug)]
pub struct MissingVariable {
    /// The name of the environment variable that could not be read.
    pub name: String,
}

impl MissingVariable {
    /// The text the program stops with: "Can't read NAME from env".
    pub fn message(&self) -> (s: String)
        ensures
            s@ == "Can't read "@ + self.name@ + " from env"@,
    {
        let mut s = String::from_str("Can't read ");
        s.append(self.name.as_str());
        s.append(" from env");
        s
    }
}

/// Which of `DB_URL` and `SENTRY_URL` the environment does not provide
/// (`None` where a variable cannot be read), if any: `DB_URL` is read first,
/// so it is the one reported when both are missing. The program stops with
/// its `message` before the settings are built.
pub fn missing_variable(db_url: &Option<String>, sentry_url: &Option<String>) -> (r: Option<MissingVariable>)
    ensures
        r is None <==> (db_url is Some && sentry_url is Some),
        db_url is None ==> (r matches Some(m) && m.name@ == "DB_URL"@),
        db_url is Some && sentry_url is None ==> (r matches Some(m) && m.name@ == "SENTRY_URL"@),
{
    if db_url.is_none() {
        Some(MissingVariable { name: String::from_str("DB_URL") })
    } else if sentry_url.is_none() {
        Some(MissingVariable { name: String::from_str("SENTRY_URL") })
    } else {
        None
    }
}

/// The value of an environment variable that the environment provides.
pub fn read_from_env(value: Option<String>) -> (r: String)
    requires
        value is Some,
    ensures
        r@ == value->0@,
{
    value.unwrap()
}

impl Config {
    /// Builds the settings from the values of `DB_URL` and `SENTRY_URL`.
    /// Both must be present; where one is missing the program stops first
    /// (see `missing_variable`).
    pub fn init(db_url: Option<String>, sentry_url: Option<String>) -> (c: Config)
        requires
            db_url is Some,
            sentry_url is Some,
        ensures
            c.db_url@ == db_url->0@,
            c.sentry_url@ == sentry_url->0@,
    {
        let db_url = read_from_env(db_url);
        let sentry_url = read_from_env(sentry_url);
        Config { db_url, sentry_url }
    }
}

} // verus!
