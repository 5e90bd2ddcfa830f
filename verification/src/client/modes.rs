//! Connection mode selection for the `connect` command.
use vstd::prelude::*;

use crate::error::VeilError;
use crate::text::push_str;

verus! {

/// The server and token a `connect` uses: the server defaults to
/// `127.0.0.1:443`, the token to the environment's, and a missing or empty
/// token is a configuration error.
pub fn connect_target(server: Option<String>, token: Option<String>, env_token: Option<String>) -> (r: Result<(String, String), VeilError>)
    ensures
        ({
            let s = match server {
                Some(x) => x@,
                None => "127.0.0.1:443"@,
            };
            let t = match token {
                Some(x) => x@,
                None => match env_token {
                    Some(y) => y@,
                    None => Seq::<char>::empty(),
                },
            };
            if t.len() == 0 {
                r matches Err(e) && (e is Config) && e.detail()
                    == "Token required. Use --token or set VEIL_TOKEN env var."@
            } else {
                r matches Ok((a, b)) && a@ == s && b@ == t
            }
        }),
{
    let server = match server {
        Some(x) => x,
        None => String::from_str("127.0.0.1:443"),
    };
    let token = match token {
        Some(x) => x,
        None => match env_token {
            Some(y) => y,
            None => String::new(),
        },
    };
    if token.as_str().is_empty() {
        return Err(
            VeilError::Config(String::from_str("Token required. Use --token or set VEIL_TOKEN env var.")),
        );
    }
    Ok((server, token))
}

/// `Connecting to <server> (proxy)` or `(VPN)`.
pub fn connect_banner(server: &str, proxy_mode: bool) -> (s: String)
    ensures
        s@ == "Connecting to "@ + server@ + (if proxy_mode {
            " (proxy)"@
        } else {
            " (VPN)"@
        }),
{
    let mut s = String::new();
    push_str(&mut s, "Connecting to ");
    push_str(&mut s, server);
    if proxy_mode {
        push_str(&mut s, " (proxy)");
    } else {
        push_str(&mut s, " (VPN)");
    }
    s
}

} // verus!
