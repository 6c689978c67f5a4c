use vstd::prelude::*;
use vstd::string::StrSliceExecFns;

verus! {

/// A memory-only credential record used once to gate the scene transition
/// after a successful login. No persistence, no hashing.
#[derive(Debug)]
pub struct Player {
    pub username: String,
    pub password: String,
    pub level: u8,
}

/// A sequence of characters spells the reserved login word exactly when it
/// reads "root" without regard to letter case.
pub open spec fn is_root_word(s: Seq<char>) -> bool {
    &&& s.len() == 4
    &&& (s[0] == 'r' || s[0] == 'R')
    &&& (s[1] == 'o' || s[1] == 'O')
    &&& (s[2] == 'o' || s[2] == 'O')
    &&& (s[3] == 't' || s[3] == 'T')
}

/// An optional credential field is accepted only when it is present and
/// spells the reserved word; a missing field is an invalid input that simply
/// fails the check instead of aborting.
pub open spec fn credential_accepted(field: Option<&String>) -> bool {
    match field {
        Some(text) => is_root_word(text@),
        None => false,
    }
}

impl Player {
    /// The public constructor.
    pub fn create_new_player(username: String, password: String, level: u8) -> (player: Player)
        ensures
            player.username@ == username@,
            player.password@ == password@,
            player.level == level,
    {
        let player: Player = Player { username, password, level };

        player
    }

    /// Checks each credential field against the reserved login word and
    /// returns the checked status of each one.
    pub fn check_credentials(username: Option<&String>, password: Option<&String>) -> (r: (
        bool,
        bool,
    ))
        ensures
            r.0 == credential_accepted(username),
            r.1 == credential_accepted(password),
    {
        let username_ok: bool = match username {
            Some(usnm) => matches_root(usnm),
            None => false,
        };
        let password_ok: bool = match password {
            Some(pswd) => matches_root(pswd),
            None => false,
        };
        (username_ok, password_ok)
    }
}

/// Compares a string with the reserved login word, ignoring letter case.
fn matches_root(s: &String) -> (r: bool)
    ensures
        r == is_root_word(s@),
{
    let text: &str = s.as_str();
    if text.unicode_len() != 4 {
        return false;
    }
    let c0 = text.get_char(0);
    let c1 = text.get_char(1);
    let c2 = text.get_char(2);
    let c3 = text.get_char(3);
    (c0 == 'r' || c0 == 'R') && (c1 == 'o' || c1 == 'O') && (c2 == 'o' || c2 == 'O') && (c3 == 't'
        || c3 == 'T')
}

} // verus!
