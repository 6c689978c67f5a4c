use vstd::prelude::*;

use crate::player::Player;
use crate::player::is_root_word;

verus! {

/// What pressing the login button led to: entry into the game, or one of
/// the two rejection messages the screen shows.
#[derive(Clone, Copy, Debug, PartialEq, Eq, Structural)]
pub enum LoginOutcome {
    LoggedIn,
    WrongPassword,
    WrongCredentials,
}

/// The screen that gates the game behind a credential check, holding the
/// player logged in for the session once the check has passed.
#[derive(Debug)]
pub struct LoginScreen {
    pub player: Option<Player>,
}

impl LoginScreen {
    /// The "constructor of the class".
    pub fn new() -> (s: Self)
        ensures
            s.player is None,
    {
        Self { player: None }
    }

    /// Setter for the logged player.
    pub fn set_player(&mut self, player: Option<Player>)
        ensures
            final(self).player == player,
    {
        self.player = player;
    }

    /// The decision taken when the login button is pressed, over the
    /// credentials read from the two input fields: only when both fields
    /// spell the reserved word is a player constructed, kept for the
    /// session, and the game entered; any other combination leaves the
    /// screen as it was, with the message to show.
    pub fn attempt_login(&mut self, username: String, password: String) -> (outcome: LoginOutcome)
        ensures
            outcome == LoginOutcome::LoggedIn <==> (is_root_word(username@) && is_root_word(
                password@,
            )),
            outcome == LoginOutcome::WrongPassword <==> (is_root_word(username@) && !is_root_word(
                password@,
            )),
            outcome == LoginOutcome::WrongCredentials <==> !is_root_word(username@),
            is_root_word(username@) && is_root_word(password@) ==> {
                &&& final(self).player matches Some(player)
                &&& player.username@ == username@
                &&& player.password@ == password@
                &&& player.level == 1
            },
            !(is_root_word(username@) && is_root_word(password@)) ==> final(self).player == old(
                self,
            ).player,
    {
        let credentials_status = Player::check_credentials(Some(&username), Some(&password));
        match credentials_status {
            (true, true) => {
                let new_player = Player::create_new_player(username, password, 1);
                self.set_player(Some(new_player));
                LoginOutcome::LoggedIn
            },
            (true, false) => LoginOutcome::WrongPassword,
            _ => LoginOutcome::WrongCredentials,
        }
    }
}

} // verus!
