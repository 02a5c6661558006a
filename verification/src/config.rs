use vstd::prelude::*;

verus! {

/// What the program needs to run: the bot's token and the database's address.
pub struct Settings {
    pub bot_token: String,
    pub database_url: String,
}

/// The database used when none is named.
pub open spec fn default_database_url() -> Seq<char> {
    "sqlite://rusty_key.db"@
}

/// The message when the token is missing.
pub open spec fn missing_token_text() -> Seq<char> {
    "BOT_TOKEN environment variable is required"@
}

impl Settings {
    /// Builds the settings from the values of `BOT_TOKEN` and `DATABASE_URL`,
    /// where they are set: the token is required, the database falls back to
    /// a file next to the program.
    pub fn from_values(bot_token: Option<String>, database_url: Option<String>) -> (r: Result<Settings, String>)
        ensures
            bot_token is None ==> (r matches Err(m) && m@ == missing_token_text()),
            bot_token matches Some(t) ==> (r matches Ok(s) && s.bot_token == t && s.database_url@ == match database_url {
                Some(u) => u@,
                None => default_database_url(),
            }),
    {
        let bot_token = match bot_token {
            Some(t) => t,
            None => return Err(String::from_str("BOT_TOKEN environment variable is required")),
        };
        let database_url = match database_url {
            Some(u) => u,
            None => String::from_str("sqlite://rusty_key.db"),
        };
        Ok(Settings { bot_token, database_url })
    }
}

} // verus!
