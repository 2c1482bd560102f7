//! The bearer credential that authorises calls to the authority.

use vstd::prelude::*;

verus! {

/// Holds the current credential. The empty string stands for "not yet
/// authenticated". The last write wins, and a reader sees a whole value.
#[derive(Debug)]
pub struct CredentialStore {
    token: String,
}

impl View for CredentialStore {
    type V = Seq<char>;

    closed spec fn view(&self) -> Seq<char> {
        self.token@
    }
}

impl CredentialStore {
    /// A store without a credential.
    pub fn new() -> (store: Self)
        ensures
            store@ == Seq::<char>::empty(),
    {
        CredentialStore { token: String::new() }
    }

    /// Overwrites the credential.
    pub fn set(&mut self, token: String)
        ensures
            final(self)@ == token@,
    {
        self.token = token;
    }

    /// The current credential, possibly empty.
    pub fn get(&self) -> (token: String)
        ensures
            token@ == self@,
    {
        self.token.clone()
    }

    /// Whether a credential has been set.
    pub fn is_authenticated(&self) -> (authenticated: bool)
        ensures
            authenticated == (self@.len() > 0),
    {
        !self.token.as_str().is_empty()
    }
}

/// Hands the credential of a finished login to the monitoring: overwrites the
/// stored one and acknowledges.
pub fn set_monitoring_token(store: &mut CredentialStore, token: String) -> (answer: Result<
    String,
    String,
>)
    ensures
        final(store)@ == token@,
        answer matches Ok(text) && text@ == "Token set successfully"@,
{
    store.set(token);
    Ok("Token set successfully".to_owned())
}

} // verus!
