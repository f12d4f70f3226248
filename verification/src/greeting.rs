//! The text a client is greeted with.

use vstd::prelude::*;

verus! {

/// The greeting for a client: a welcome line, then the link to visit, which
/// is the redirect URI with the session id appended, indented by four
/// spaces and followed by an empty line.
pub open spec fn greeting_text(redirect_uri: Seq<char>, session_id: Seq<char>) -> Seq<char> {
    "Welcome to Neon!\nAuthenticate by visiting:\n    "@ + redirect_uri + session_id + "\n\n"@
}

/// Builds the greeting that tells the user where to authenticate.
pub fn hello_message(redirect_uri: &str, session_id: &str) -> (greeting: String)
    ensures
        greeting@ == greeting_text(redirect_uri@, session_id@),
{
    let mut greeting = String::from_str("Welcome to Neon!\nAuthenticate by visiting:\n    ");
    greeting.append(redirect_uri);
    greeting.append(session_id);
    greeting.append("\n\n");
    greeting
}

} // verus!
