//! Caller credentials for the subscription call.  Loading these from the
//! environment is the embedding program's business; the library only carries
//! them.

use vstd::prelude::*;

verus! {

/// The credentials a subscription request needs.
#[derive(Debug)]
pub struct UserConfig {
    pub client_id: String,
    pub user_token: String,
    pub broadcaster_id: String,
    pub user_id: String,
}

/// Model of [`UserConfig`].
pub struct UserConfigV {
    pub client_id: Seq<char>,
    pub user_token: Seq<char>,
    pub broadcaster_id: Seq<char>,
    pub user_id: Seq<char>,
}

impl View for UserConfig {
    type V = UserConfigV;

    open spec fn view(&self) -> UserConfigV {
        UserConfigV {
            client_id: self.client_id@,
            user_token: self.user_token@,
            broadcaster_id: self.broadcaster_id@,
            user_id: self.user_id@,
        }
    }
}

impl Default for UserConfig {
    /// A configuration with every credential empty.
    fn default() -> (r: Self)
        ensures
            r@.client_id == Seq::<char>::empty(),
            r@.user_token == Seq::<char>::empty(),
            r@.broadcaster_id == Seq::<char>::empty(),
            r@.user_id == Seq::<char>::empty(),
    {
        UserConfig {
            client_id: String::new(),
            user_token: String::new(),
            broadcaster_id: String::new(),
            user_id: String::new(),
        }
    }
}

impl UserConfig {
    /// This configuration with the broadcaster replaced.
    pub fn with_broadcaster_id(self, id: String) -> (r: Self)
        ensures
            r@.broadcaster_id == id@,
            r@.client_id == self@.client_id,
            r@.user_token == self@.user_token,
            r@.user_id == self@.user_id,
    {
        UserConfig {
            client_id: self.client_id,
            user_token: self.user_token,
            broadcaster_id: id,
            user_id: self.user_id,
        }
    }

    /// Replaces the broadcaster in place.
    pub fn change_broadcaster_id(&mut self, id: String)
        ensures
            final(self)@.broadcaster_id == id@,
            final(self)@.client_id == old(self)@.client_id,
            final(self)@.user_token == old(self)@.user_token,
            final(self)@.user_id == old(self)@.user_id,
    {
        self.broadcaster_id = id;
    }
}

} // verus!
