//! Connection set-up decisions: the first authentication request, the
//! TLS server name, and reading the server's answer.
use vstd::prelude::*;

use crate::protocol::handshake::{AuthMethod, AuthRequest};
use crate::text::{chars_of, find_from, first_index_from, str_eq, string_of};

verus! {

/// The authentication request a client opens a connection with: token
/// credentials for challenge `init`, no public key.
pub fn initial_auth_request(token: &str) -> (req: AuthRequest)
    ensures
        req.challenge_id@ == "init"@,
        req.method == AuthMethod::Token,
        req.credential@ == token@,
        req.client_pubkey is None,
{
    AuthRequest {
        challenge_id: String::from_str("init"),
        method: AuthMethod::Token,
        credential: token.to_owned(),
        client_pubkey: None,
    }
}

/// The host part of `host:port`: everything before the first `:`.
pub open spec fn host_part(server: Seq<char>) -> Seq<char> {
    match first_index_from(server, ':', 0) {
        None => server,
        Some(i) => server.subrange(0, i),
    }
}

/// The name presented to the server in the TLS handshake.
pub fn server_host(server: &str) -> (h: String)
    ensures
        h@ == host_part(server@),
{
    let cs = chars_of(server);
    match find_from(&cs, ':', 0) {
        None => string_of(&cs, 0, cs.len()),
        Some(i) => string_of(&cs, 0, i),
    }
}

/// The session identifier granted by the server's answer: present exactly
/// when its `status` is `ok`, empty when the answer names none.
pub fn session_from_auth_reply(status: Option<&str>, session_id: Option<&str>) -> (r: Option<String>)
    ensures
        r is Some <==> (status matches Some(s) && s@ == "ok"@),
        r matches Some(id) ==> match session_id {
            Some(x) => id@ == x@,
            None => id@.len() == 0,
        },
{
    match status {
        Some(s) => {
            if str_eq(s, "ok") {
                match session_id {
                    Some(x) => Some(x.to_owned()),
                    None => Some(String::new()),
                }
            } else {
                None
            }
        },
        None => None,
    }
}

} // verus!
