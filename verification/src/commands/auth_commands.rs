use vstd::prelude::*;

verus! {

/// Commands for logging in with OAuth.
#[derive(Debug)]
pub enum AuthCommands {
    /// Log into the remote service using OAuth.
    Login(Login),
}

/// Arguments of the login command; the OAuth handshake needs none.
#[derive(Debug)]
pub struct Login {}

} // verus!
