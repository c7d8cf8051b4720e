//! Session-scoped credential context.
//!
//! Credentials live in an explicitly owned value passed by reference to
//! whatever launches the managed application, scoped to one
//! synchronization / launch lifecycle.

use vstd::prelude::*;

verus! {

/// Holds the credentials and settings of one session: account name,
/// character count, session ticket, game language and game path.
pub struct Credentials {
    pub account_name: String,
    pub characters_count: String,
    pub ticket: String,
    pub game_lang: String,
    pub game_path: String,
}

impl Credentials {
    /// A fresh context with every field empty.
    pub fn new() -> (r: Credentials)
        ensures
            r.account_name@ == Seq::<char>::empty(),
            r.characters_count@ == Seq::<char>::empty(),
            r.ticket@ == Seq::<char>::empty(),
            r.game_lang@ == Seq::<char>::empty(),
            r.game_path@ == Seq::<char>::empty(),
    {
        Credentials {
            account_name: String::new(),
            characters_count: String::new(),
            ticket: String::new(),
            game_lang: String::new(),
            game_path: String::new(),
        }
    }

    /// Sets the account name, leaving the other fields unchanged.
    pub fn set_account_name(&mut self, value: &str)
        ensures
            final(self).account_name@ == value@,
            final(self).characters_count == old(self).characters_count,
            final(self).ticket == old(self).ticket,
            final(self).game_lang == old(self).game_lang,
            final(self).game_path == old(self).game_path,
    {
        self.account_name = value.to_owned();
    }

    /// Sets the character count, leaving the other fields unchanged.
    pub fn set_characters_count(&mut self, value: &str)
        ensures
            final(self).characters_count@ == value@,
            final(self).account_name == old(self).account_name,
            final(self).ticket == old(self).ticket,
            final(self).game_lang == old(self).game_lang,
            final(self).game_path == old(self).game_path,
    {
        self.characters_count = value.to_owned();
    }

    /// Sets the session ticket, leaving the other fields unchanged.
    pub fn set_ticket(&mut self, value: &str)
        ensures
            final(self).ticket@ == value@,
            final(self).account_name == old(self).account_name,
            final(self).characters_count == old(self).characters_count,
            final(self).game_lang == old(self).game_lang,
            final(self).game_path == old(self).game_path,
    {
        self.ticket = value.to_owned();
    }

    /// Sets the game language, leaving the other fields unchanged.
    pub fn set_game_lang(&mut self, value: &str)
        ensures
            final(self).game_lang@ == value@,
            final(self).account_name == old(self).account_name,
            final(self).characters_count == old(self).characters_count,
            final(self).ticket == old(self).ticket,
            final(self).game_path == old(self).game_path,
    {
        self.game_lang = value.to_owned();
    }

    /// Sets the game path, leaving the other fields unchanged.
    pub fn set_game_path(&mut self, value: &str)
        ensures
            final(self).game_path@ == value@,
            final(self).account_name == old(self).account_name,
            final(self).characters_count == old(self).characters_count,
            final(self).ticket == old(self).ticket,
            final(self).game_lang == old(self).game_lang,
    {
        self.game_path = value.to_owned();
    }

    /// Returns a copy of the account name.
    pub fn get_account_name(&self) -> (r: String)
        ensures
            r@ == self.account_name@,
    {
        self.account_name.clone()
    }

    /// Returns a copy of the character count.
    pub fn get_characters_count(&self) -> (r: String)
        ensures
            r@ == self.characters_count@,
    {
        self.characters_count.clone()
    }

    /// Returns a copy of the session ticket.
    pub fn get_ticket(&self) -> (r: String)
        ensures
            r@ == self.ticket@,
    {
        self.ticket.clone()
    }

    /// Returns a copy of the game language.
    pub fn get_game_lang(&self) -> (r: String)
        ensures
            r@ == self.game_lang@,
    {
        self.game_lang.clone()
    }

    /// Returns a copy of the game path.
    pub fn get_game_path(&self) -> (r: String)
        ensures
            r@ == self.game_path@,
    {
        self.game_path.clone()
    }
}

/// Sets all five fields of a session context in one call.
pub fn set_credentials(
    creds: &mut Credentials,
    account_name: &str,
    characters_count: &str,
    ticket: &str,
    game_lang: &str,
    game_path: &str,
)
    ensures
        final(creds).account_name@ == account_name@,
        final(creds).characters_count@ == characters_count@,
        final(creds).ticket@ == ticket@,
        final(creds).game_lang@ == game_lang@,
        final(creds).game_path@ == game_path@,
{
    creds.set_account_name(account_name);
    creds.set_characters_count(characters_count);
    creds.set_ticket(ticket);
    creds.set_game_lang(game_lang);
    creds.set_game_path(game_path);
}

} // verus!
