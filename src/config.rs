use vstd::prelude::*;

verus! {

/// The message whose reactions are watched.
pub const MONITORED_MESSAGE: u64 = 1183140575361368064;

/// The role granted to members who react with [`ANIME_ROLE_EMOJI`].
pub const ANIME_ROLE_ID: u64 = 942341466540355584;

/// The emoji that grants [`ANIME_ROLE_ID`].
pub const ANIME_ROLE_EMOJI: &'static str = "🎎";

/// Fixed settings of one reaction role rule: reacting to `message_id` with `emoji`
/// grants `role_id`. Built once at startup and only read afterwards.
#[derive(Debug)]
pub struct RoleRule {
    pub message_id: u64,
    pub role_id: u64,
    pub emoji: String,
}

impl RoleRule {
    pub fn new(message_id: u64, role_id: u64, emoji: String) -> (r: RoleRule)
        ensures
            r.message_id == message_id,
            r.role_id == role_id,
            r.emoji@ == emoji@,
    {
        RoleRule { message_id, role_id, emoji }
    }

    /// The rule this bot runs with.
    pub fn anime_role() -> (r: RoleRule)
        ensures
            r.message_id == MONITORED_MESSAGE,
            r.role_id == ANIME_ROLE_ID,
            r.emoji@ == ANIME_ROLE_EMOJI@,
    {
        RoleRule { message_id: MONITORED_MESSAGE, role_id: ANIME_ROLE_ID, emoji: ANIME_ROLE_EMOJI.to_owned() }
    }
}

/// Why the bot cannot start.
#[derive(Clone, Copy, Debug, PartialEq, Eq, Structural)]
pub enum ConfigError {
    /// No authentication token was configured.
    MissingToken,
}

/// Checks the startup credential: the bot connects only with a token, and
/// stops before connecting when none is configured.
pub fn require_token(token: Option<String>) -> (r: Result<String, ConfigError>)
    ensures
        token is None <==> r == Err::<String, ConfigError>(ConfigError::MissingToken),
        token matches Some(t) ==> r matches Ok(s) && s@ == t@,
{
    match token {
        Some(t) => Ok(t),
        None => Err(ConfigError::MissingToken),
    }
}

} // verus!
