//! Server deployment: the configuration and commands the installer sends
//! over SSH, and the admin API requests of the `server` command.
use vstd::prelude::*;
use vstd::string::StringSliceAdditionalSpecFns;

use sha2::Digest;

use crate::crypto::hex::{encode, hex_encode_spec};
use crate::crypto::{b64url_nopad, generate_token, random_bytes, sha256_spec};
use crate::text::{chars_of, dec_spec, find_from, first_index_from, push_decimal, push_str, string_of};

verus! {

/// SHA-256 digest by the `sha2` crate (`Sha256::digest`), the same
/// function (FIPS 180-4) as `crypto::sha256`.
#[verifier::external_body]
fn sha2_digest(data: &[u8]) -> (d: Vec<u8>)
    ensures
        d@ == sha256_spec(data@),
{
    sha2::Sha256::digest(data).to_vec()
}

/// Lowercase hexadecimal SHA-256 of the UTF-8 bytes of `input`.
pub fn hex_sha256(input: &str) -> (h: String)
    ensures
        h@ == hex_encode_spec(sha256_spec(input.spec_bytes())),
{
    encode(sha2_digest(input.as_bytes()))
}

/// `user@host` splits at the first `@`; without one the user is `root`.
pub open spec fn user_host_spec(s: Seq<char>) -> (Seq<char>, Seq<char>) {
    match first_index_from(s, '@', 0) {
        None => ("root"@, s),
        Some(i) => (s.subrange(0, i), s.subrange(i + 1, s.len() as int)),
    }
}

/// Splits an SSH target into user and host.
pub fn parse_user_host(host: &str) -> (r: (String, String))
    ensures
        (r.0@, r.1@) == user_host_spec(host@),
{
    let cs = chars_of(host);
    match find_from(&cs, '@', 0) {
        None => (String::from_str("root"), string_of(&cs, 0, cs.len())),
        Some(i) => (string_of(&cs, 0, i), string_of(&cs, i + 1, cs.len())),
    }
}

/// The TLS server-name line: the domain when given, else a commented
/// example.
pub open spec fn sni_line_spec(domain: Option<Seq<char>>) -> Seq<char> {
    match domain {
        Some(d) => "sni = \""@ + d + "\""@,
        None => "# sni = \"example.com\"  # set a domain for better camouflage"@,
    }
}

/// The TLS server-name line of the configuration.
pub fn sni_line(domain: Option<&str>) -> (s: String)
    ensures
        s@ == sni_line_spec(match domain {
            Some(d) => Some(d@),
            None => None,
        }),
{
    let mut s = String::new();
    match domain {
        Some(d) => {
            push_str(&mut s, "sni = \"");
            push_str(&mut s, d);
            push_str(&mut s, "\"");
        },
        None => {
            push_str(&mut s, "# sni = \"example.com\"  # set a domain for better camouflage");
        },
    }
    s
}

/// The server configuration the installer writes: `sni` is the TLS
/// line, the rest are the generated secrets and the port.
pub open spec fn server_config_text(veil_port: u16, sni: Seq<char>, signing_key: Seq<char>, user_token_hash: Seq<char>, admin_token: Seq<char>) -> Seq<char> {
    "[node]\nrole = \"all\"\nallowed_destinations = []\n\n[listen]\nbind = \"0.0.0.0\"\nquic_port = "@
        + dec_spec(veil_port as nat)
        + "\ntcp_port = "@
        + dec_spec(veil_port as nat)
        + "\n\n[tls]\ncert_path = \"/etc/veil/server.crt\"\nkey_path  = \"/etc/veil/server.key\"\n"@
        + sni
        + "\nalpn = [\"h3\", \"h2\", \"http/1.1\"]\n\n[auth]\nsigning_key = \""@
        + signing_key
        + "\"\ninvite_ttl_seconds = 3600\nrate_limit = true\ntarpit_ms = 500\n\n[[auth.tokens]]\nid = \"user1\"\ntoken_hash = \""@
        + user_token_hash
        + "\"\nlabel = \"default user\"\nis_admin = false\n\n[relay]\ntcp_enabled = true\nudp_enabled = true\ndns_enabled = true\nmax_streams_per_session = 256\n\n[limits]\nmax_sessions = 1000\nsession_timeout_secs = 3600\nconnect_rate_per_ip = 10\n\n[logging]\nlevel = \"warn\"\ndisabled = false\n\n[admin]\nenabled = true\nbind = \"127.0.0.1\"\nport = 9090\nadmin_token = \""@
        + admin_token
        + "\"\n\n[obfuscation]\npadding_enabled = true\nsize_normalization = true\nidle_noise = false\nburst_shaping = true\n"@
}

/// The server configuration file the installer uploads.
pub fn render_server_config(
    veil_port: u16,
    domain: Option<&str>,
    signing_key: &str,
    user_token_hash: &str,
    admin_token: &str,
) -> (s: String)
    ensures
        s@ == server_config_text(
            veil_port,
            sni_line_spec(match domain {
                Some(d) => Some(d@),
                None => None,
            }),
            signing_key@,
            user_token_hash@,
            admin_token@,
        ),
{
    let sni_line = sni_line(domain);
    let mut s = String::new();
    push_str(&mut s, "[node]\nrole = \"all\"\nallowed_destinations = []\n\n[listen]\nbind = \"0.0.0.0\"\nquic_port = ");
    push_decimal(&mut s, veil_port as u64);
    push_str(&mut s, "\ntcp_port = ");
    push_decimal(&mut s, veil_port as u64);
    push_str(&mut s, "\n\n[tls]\ncert_path = \"/etc/veil/server.crt\"\nkey_path  = \"/etc/veil/server.key\"\n");
    push_str(&mut s, sni_line.as_str());
    push_str(&mut s, "\nalpn = [\"h3\", \"h2\", \"http/1.1\"]\n\n[auth]\nsigning_key = \"");
    push_str(&mut s, signing_key);
    push_str(&mut s, "\"\ninvite_ttl_seconds = 3600\nrate_limit = true\ntarpit_ms = 500\n\n[[auth.tokens]]\nid = \"user1\"\ntoken_hash = \"");
    push_str(&mut s, user_token_hash);
    push_str(&mut s, "\"\nlabel = \"default user\"\nis_admin = false\n\n[relay]\ntcp_enabled = true\nudp_enabled = true\ndns_enabled = true\nmax_streams_per_session = 256\n\n[limits]\nmax_sessions = 1000\nsession_timeout_secs = 3600\nconnect_rate_per_ip = 10\n\n[logging]\nlevel = \"warn\"\ndisabled = false\n\n[admin]\nenabled = true\nbind = \"127.0.0.1\"\nport = 9090\nadmin_token = \"");
    push_str(&mut s, admin_token);
    push_str(&mut s, "\"\n\n[obfuscation]\npadding_enabled = true\nsize_normalization = true\nidle_noise = false\nburst_shaping = true\n");
    s
}

/// What the installer sets up: the server configuration and the two
/// tokens it prints or keeps.
#[derive(Debug, Clone)]
pub struct Installation {
    pub config: String,
    pub user_token: String,
    pub admin_token: String,
}

/// The configuration of an installation whose signing key is the bytes
/// `key` (written in hex, as the server reads it), whose one user holds
/// `user_token` (stored by its hash) and whose admin token is `admin_token`.
pub open spec fn installed_config(
    veil_port: u16,
    domain: Option<Seq<char>>,
    key: Seq<u8>,
    user_token: Seq<char>,
    admin_token: Seq<char>,
) -> Seq<char> {
    server_config_text(
        veil_port,
        sni_line_spec(domain),
        hex_encode_spec(key),
        hex_encode_spec(sha256_spec(vstd::utf8::encode_utf8(user_token))),
        admin_token,
    )
}

/// The text of an optional domain.
pub open spec fn domain_view(domain: Option<&str>) -> Option<Seq<char>> {
    match domain {
        Some(d) => Some(d@),
        None => None,
    }
}

/// The installation with signing key `key` and the given tokens.
pub fn installation_from(
    veil_port: u16,
    domain: Option<&str>,
    key: Vec<u8>,
    user_token: String,
    admin_token: String,
) -> (i: Installation)
    ensures
        i.user_token == user_token,
        i.admin_token == admin_token,
        i.config@ == installed_config(
            veil_port,
            match domain {
                Some(d) => Some(d@),
                None => None,
            },
            key@,
            user_token@,
            admin_token@,
        ),
{
    let key_hex = encode(key);
    let user_token_hash = hex_sha256(user_token.as_str());
    let config = render_server_config(
        veil_port,
        domain,
        key_hex.as_str(),
        user_token_hash.as_str(),
        admin_token.as_str(),
    );
    Installation { config, user_token, admin_token }
}

/// A new installation: a random 32-byte signing key and random 32-byte
/// user and admin tokens (URL-safe base64).
pub fn prepare_installation(veil_port: u16, domain: Option<&str>) -> (i: Installation)
    ensures
        exists|b: Seq<u8>| b.len() == 32 && i.user_token@ == b64url_nopad(b),
        exists|b: Seq<u8>| b.len() == 32 && i.admin_token@ == b64url_nopad(b),
        exists|k: Seq<u8>|
            k.len() == 32 && i.config@ == #[trigger] installed_config(
                veil_port,
                domain_view(domain),
                k,
                i.user_token@,
                i.admin_token@,
            ),
{
    let key = random_bytes(32);
    let admin_token = generate_token(32);
    let user_token = generate_token(32);
    installation_from(veil_port, domain, key, user_token, admin_token)
}

/// The command that makes a self-signed certificate whose common name is
/// the domain, or `veil-server`.
pub open spec fn cert_command_spec(cn: Seq<char>) -> Seq<char> {
    "openssl req -x509 -nodes -days 3650 -newkey rsa:2048 -keyout /etc/veil/server.key -out /etc/veil/server.crt -subj '/CN="@
        + cn + "'"@
}

/// The certificate command for an optional domain.
pub fn cert_command(domain: Option<&str>) -> (c: String)
    ensures
        c@ == cert_command_spec(match domain {
            Some(d) => d@,
            None => "veil-server"@,
        }),
{
    let mut c = String::new();
    push_str(
        &mut c,
        "openssl req -x509 -nodes -days 3650 -newkey rsa:2048 -keyout /etc/veil/server.key -out /etc/veil/server.crt -subj '/CN=",
    );
    match domain {
        Some(d) => push_str(&mut c, d),
        None => push_str(&mut c, "veil-server"),
    }
    push_str(&mut c, "'");
    c
}

/// The command that starts the server container, publishing the Veil port
/// over UDP and TCP and the admin port on loopback.
pub open spec fn docker_run_spec(port: u16) -> Seq<char> {
    "docker run -d --name veil-server --restart unless-stopped --cap-add NET_ADMIN -p "@
        + dec_spec(port as nat) + ":"@ + dec_spec(port as nat) + "/udp -p "@ + dec_spec(port as nat)
        + ":"@ + dec_spec(port as nat)
        + "/tcp -p 127.0.0.1:9090:9090 -v /etc/veil:/etc/veil:ro -v /var/lib/veil:/var/lib/veil ghcr.io/dariuni/veil-server:latest"@
}

/// The container start command for `veil_port`.
pub fn docker_run_command(veil_port: u16) -> (c: String)
    ensures
        c@ == docker_run_spec(veil_port),
{
    let mut c = String::new();
    push_str(&mut c, "docker run -d --name veil-server --restart unless-stopped --cap-add NET_ADMIN -p ");
    push_decimal(&mut c, veil_port as u64);
    push_str(&mut c, ":");
    push_decimal(&mut c, veil_port as u64);
    push_str(&mut c, "/udp -p ");
    push_decimal(&mut c, veil_port as u64);
    push_str(&mut c, ":");
    push_decimal(&mut c, veil_port as u64);
    push_str(
        &mut c,
        "/tcp -p 127.0.0.1:9090:9090 -v /etc/veil:/etc/veil:ro -v /var/lib/veil:/var/lib/veil ghcr.io/dariuni/veil-server:latest",
    );
    c
}

/// Administration commands for a managed server.
#[derive(Debug, Clone)]
pub enum ServerCommands {
    ListUsers,
    AddUser { label: String, admin: bool, expires: Option<String> },
    RemoveUser { id: String },
    Invite,
    Sessions,
    SetPort { port: u16 },
    Reload,
    Logs { lines: u32 },
}

/// HTTP methods of the admin API.
#[derive(Debug, Clone, Copy, PartialEq, Eq, Structural)]
pub enum HttpMethod {
    Get,
    Post,
    Delete,
}

/// A request to the admin API: method, URL, the admin-token header, and
/// the JSON body when there is one.
#[derive(Debug, Clone)]
pub struct AdminRequest {
    pub method: HttpMethod,
    pub url: String,
    pub header_name: String,
    pub header_value: String,
    pub body: Option<String>,
}

/// How `serde_json` writes one character inside a string literal: `"` and
/// `\` escaped with a backslash; backspace, tab, line feed, form feed and
/// carriage return as `\b`, `\t`, `\n`, `\f`, `\r`; the other control
/// characters below U+0020 as `\u00` and two lowercase hex digits; every
/// other character as itself.
pub open spec fn json_escape_char(c: char) -> Seq<char> {
    if c == '"' {
        seq!['\\', '"']
    } else if c == '\\' {
        seq!['\\', '\\']
    } else if c == '\u{8}' {
        seq!['\\', 'b']
    } else if c == '\t' {
        seq!['\\', 't']
    } else if c == '\n' {
        seq!['\\', 'n']
    } else if c == '\u{c}' {
        seq!['\\', 'f']
    } else if c == '\r' {
        seq!['\\', 'r']
    } else if (c as u32) < 0x20 {
        seq!['\\', 'u', '0', '0'] + crate::crypto::hex::hex_byte_spec(c as u8)
    } else {
        seq![c]
    }
}

/// The escaped characters of a string, in order.
pub open spec fn json_escaped(s: Seq<char>) -> Seq<char>
    decreases s.len(),
{
    if s.len() == 0 {
        Seq::empty()
    } else {
        json_escaped(s.drop_last()) + json_escape_char(s.last())
    }
}

/// What `serde_json` writes for a string: the JSON string literal, its
/// escaped characters between double quotes.
pub open spec fn json_string_text(s: Seq<char>) -> Seq<char> {
    seq!['"'] + json_escaped(s) + seq!['"']
}

/// The JSON string literal of `s` (`serde_json::to_string` on a `str`,
/// which cannot fail for a string; the escapes are those of
/// `format_escaped_str_contents` and its `ESCAPE` table).
#[verifier::external_body]
fn json_string(s: &str) -> (q: String)
    ensures
        q@ == json_string_text(s@),
{
    serde_json::to_string(s).unwrap_or_default()
}

/// The body of an add-user call: the JSON object with `expires_at`,
/// `is_admin` and `label`, keys in the order `serde_json` writes them.
pub open spec fn add_user_body(label: Seq<char>, admin: bool, expires: Option<Seq<char>>) -> Seq<char> {
    "{\"expires_at\":"@ + match expires {
        Some(e) => json_string_text(e),
        None => "null"@,
    } + ",\"is_admin\":"@ + (if admin {
        "true"@
    } else {
        "false"@
    }) + ",\"label\":"@ + json_string_text(label) + "}"@
}

/// The admin API call a command makes, relative to the base URL: none for
/// the commands that need SSH instead (logs, port change).
pub open spec fn admin_call_spec(action: ServerCommands) -> Option<(HttpMethod, Seq<char>)> {
    match action {
        ServerCommands::ListUsers => Some((HttpMethod::Get, "/tokens"@)),
        ServerCommands::AddUser { .. } => Some((HttpMethod::Post, "/tokens"@)),
        ServerCommands::RemoveUser { id } => Some((HttpMethod::Delete, "/tokens/"@ + id@)),
        ServerCommands::Invite => Some((HttpMethod::Post, "/invite"@)),
        ServerCommands::Sessions => Some((HttpMethod::Get, "/sessions"@)),
        ServerCommands::Reload => Some((HttpMethod::Post, "/reload"@)),
        ServerCommands::SetPort { .. } => None,
        ServerCommands::Logs { .. } => None,
    }
}

/// The body a command sends: the new user for an add-user call, none
/// otherwise.
pub open spec fn admin_body_spec(action: ServerCommands) -> Option<Seq<char>> {
    match action {
        ServerCommands::AddUser { label, admin, expires } => Some(
            add_user_body(
                label@,
                admin,
                match expires {
                    Some(e) => Some(e@),
                    None => None,
                },
            ),
        ),
        _ => None,
    }
}

/// The admin API request for `action` against `server_url`, authorized by
/// `admin_token` in the `X-Admin-Token` header.
pub fn admin_request(action: &ServerCommands, server_url: &str, admin_token: &str) -> (r: Option<AdminRequest>)
    ensures
        match admin_call_spec(*action) {
            None => r is None,
            Some((m, path)) => r matches Some(req) && req.method == m && req.url@ == server_url@ + path
                && req.header_name@ == "X-Admin-Token"@ && req.header_value@ == admin_token@
                && match admin_body_spec(*action) {
                None => req.body is None,
                Some(b) => req.body matches Some(x) && x@ == b,
            },
        },
{
    let mut url = String::new();
    push_str(&mut url, server_url);
    let mut body: Option<String> = None;
    let method = match action {
        ServerCommands::ListUsers => {
            push_str(&mut url, "/tokens");
            HttpMethod::Get
        },
        ServerCommands::AddUser { label, admin, expires } => {
            push_str(&mut url, "/tokens");
            let mut b = String::new();
            push_str(&mut b, "{\"expires_at\":");
            match expires {
                Some(e) => {
                    let q = json_string(e.as_str());
                    push_str(&mut b, q.as_str());
                },
                None => push_str(&mut b, "null"),
            }
            push_str(&mut b, ",\"is_admin\":");
            if *admin {
                push_str(&mut b, "true");
            } else {
                push_str(&mut b, "false");
            }
            push_str(&mut b, ",\"label\":");
            let q = json_string(label.as_str());
            push_str(&mut b, q.as_str());
            push_str(&mut b, "}");
            body = Some(b);
            HttpMethod::Post
        },
        ServerCommands::RemoveUser { id } => {
            push_str(&mut url, "/tokens/");
            push_str(&mut url, id.as_str());
            assert(url@ =~= server_url@ + ("/tokens/"@ + id@));
            HttpMethod::Delete
        },
        ServerCommands::Invite => {
            push_str(&mut url, "/invite");
            HttpMethod::Post
        },
        ServerCommands::Sessions => {
            push_str(&mut url, "/sessions");
            HttpMethod::Get
        },
        ServerCommands::Reload => {
            push_str(&mut url, "/reload");
            HttpMethod::Post
        },
        ServerCommands::SetPort { .. } => {
            return None;
        },
        ServerCommands::Logs { .. } => {
            return None;
        },
    };
    Some(
        AdminRequest {
            method,
            url,
            header_name: String::from_str("X-Admin-Token"),
            header_value: admin_token.to_owned(),
            body,
        },
    )
}

} // verus!

verus! {

/// An installed server starts and accepts the installer's token: the
/// signing key the installer writes (the hex of its key bytes) decodes back
/// to those bytes, so the server's authenticator accepts it; and with the
/// installer's single entry, whose hash is the installer's `hex_sha256` of
/// the token and which never expires, the server's verdict on that token is
/// acceptance at any time.
pub proof fn lemma_installed_token_accepted(
    key: Seq<u8>,
    token: Seq<char>,
    entry: crate::server::config::TokenEntry,
    now: crate::time::Timestamp,
)
    requires
        entry.token_hash@ == hex_encode_spec(sha256_spec(vstd::utf8::encode_utf8(token))),
        entry.expires_at is None,
    ensures
        crate::crypto::hex::hex_decode_outcome(hex_encode_spec(key)) == Some(Some(key)),
        crate::server::auth::token_verdict(seq![entry], token, now)
            == crate::server::auth::TokenVerdict::Accepted,
{
    crate::crypto::hex::lemma_hex_roundtrip(key);
    let tokens = seq![entry];
    let h = crate::server::auth::token_hash_spec(token);
    assert(tokens[0].token_hash@ == h);
    let w = choose|i: int|
        0 <= i < tokens.len() && tokens[i].token_hash@ == h && forall|j: int|
            i < j < tokens.len() ==> tokens[j].token_hash@ != h;
    assert(0 <= 0 < tokens.len() && tokens[0].token_hash@ == h && forall|j: int|
        0 < j < tokens.len() ==> tokens[j].token_hash@ != h);
    assert(w == 0);
}


/// Whether `t` occurs in `s`.
pub open spec fn contains_text(s: Seq<char>, t: Seq<char>) -> bool {
    exists|i: int| 0 <= i && i + t.len() <= s.len() && #[trigger] s.subrange(i, i + t.len()) == t
}

proof fn lemma_contains_middle(a: Seq<char>, t: Seq<char>, b: Seq<char>)
    ensures
        contains_text(a + t + b, t),
{
    let s = a + t + b;
    assert(s.subrange(a.len() as int, (a.len() + t.len()) as int) =~= t);
}

/// The container publishes the Veil port the installer configures: the
/// start command maps host port `p` to the same container port `p` over
/// both UDP and TCP, and the installed configuration has the server listen
/// on `p` for QUIC and for TCP, where `p` is written in decimal and reads
/// back as `veil_port`.
pub proof fn lemma_container_publishes_configured_port(
    veil_port: u16,
    domain: Option<Seq<char>>,
    key: Seq<u8>,
    user_token: Seq<char>,
    admin_token: Seq<char>,
)
    ensures
        ({
            let p = dec_spec(veil_port as nat);
            let cmd = docker_run_spec(veil_port);
            let cfg = installed_config(veil_port, domain, key, user_token, admin_token);
            &&& crate::text::parse_u64_spec(p) == Some(veil_port as u64)
            &&& contains_text(cmd, " -p "@ + p + ":"@ + p + "/udp "@)
            &&& contains_text(cmd, " -p "@ + p + ":"@ + p + "/tcp "@)
            &&& contains_text(cfg, "\nquic_port = "@ + p + "\n"@)
            &&& contains_text(cfg, "\ntcp_port = "@ + p + "\n"@)
        }),
{
    let p = dec_spec(veil_port as nat);
    crate::text::lemma_dec_parse(veil_port as u64);
    reveal_strlit(" -p ");
    reveal_strlit(":");
    reveal_strlit("/udp ");
    reveal_strlit("/tcp ");
    reveal_strlit("/udp -p ");
    reveal_strlit("-p ");
    reveal_strlit("/udp");
    reveal_strlit("docker run -d --name veil-server --restart unless-stopped --cap-add NET_ADMIN -p ");
    reveal_strlit("docker run -d --name veil-server --restart unless-stopped --cap-add NET_ADMIN");
    reveal_strlit("/tcp -p 127.0.0.1:9090:9090 -v /etc/veil:/etc/veil:ro -v /var/lib/veil:/var/lib/veil ghcr.io/dariuni/veil-server:latest");
    reveal_strlit("-p 127.0.0.1:9090:9090 -v /etc/veil:/etc/veil:ro -v /var/lib/veil:/var/lib/veil ghcr.io/dariuni/veil-server:latest");
    let head = "docker run -d --name veil-server --restart unless-stopped --cap-add NET_ADMIN"@;
    let tail = "-p 127.0.0.1:9090:9090 -v /etc/veil:/etc/veil:ro -v /var/lib/veil:/var/lib/veil ghcr.io/dariuni/veil-server:latest"@;
    let udp = " -p "@ + p + ":"@ + p + "/udp "@;
    let tcp = " -p "@ + p + ":"@ + p + "/tcp "@;
    let cmd = docker_run_spec(veil_port);
    assert(cmd =~= head + udp + ("-p "@ + p + ":"@ + p + "/tcp "@ + tail));
    lemma_contains_middle(head, udp, "-p "@ + p + ":"@ + p + "/tcp "@ + tail);
    assert(cmd =~= head + " -p "@ + p + ":"@ + p + "/udp"@ + tcp + tail);
    lemma_contains_middle(head + " -p "@ + p + ":"@ + p + "/udp"@, tcp, tail);
    let c1 = "[node]\nrole = \"all\"\nallowed_destinations = []\n\n[listen]\nbind = \"0.0.0.0\"\nquic_port = "@;
    let c1a = "[node]\nrole = \"all\"\nallowed_destinations = []\n\n[listen]\nbind = \"0.0.0.0\""@;
    let c3 = "\n\n[tls]\ncert_path = \"/etc/veil/server.crt\"\nkey_path  = \"/etc/veil/server.key\"\n"@;
    let c3a = "\n[tls]\ncert_path = \"/etc/veil/server.crt\"\nkey_path  = \"/etc/veil/server.key\"\n"@;
    reveal_strlit("[node]\nrole = \"all\"\nallowed_destinations = []\n\n[listen]\nbind = \"0.0.0.0\"\nquic_port = ");
    reveal_strlit("[node]\nrole = \"all\"\nallowed_destinations = []\n\n[listen]\nbind = \"0.0.0.0\"");
    reveal_strlit("\n\n[tls]\ncert_path = \"/etc/veil/server.crt\"\nkey_path  = \"/etc/veil/server.key\"\n");
    reveal_strlit("\n[tls]\ncert_path = \"/etc/veil/server.crt\"\nkey_path  = \"/etc/veil/server.key\"\n");
    reveal_strlit("\ntcp_port = ");
    reveal_strlit("tcp_port = ");
    reveal_strlit("\nquic_port = ");
    reveal_strlit("\n");
    let sni = sni_line_spec(domain);
    let sk = hex_encode_spec(key);
    let th = hex_encode_spec(sha256_spec(vstd::utf8::encode_utf8(user_token)));
    let l4 = "\nalpn = [\"h3\", \"h2\", \"http/1.1\"]\n\n[auth]\nsigning_key = \""@;
    let l5 = "\"\ninvite_ttl_seconds = 3600\nrate_limit = true\ntarpit_ms = 500\n\n[[auth.tokens]]\nid = \"user1\"\ntoken_hash = \""@;
    let l6 = "\"\nlabel = \"default user\"\nis_admin = false\n\n[relay]\ntcp_enabled = true\nudp_enabled = true\ndns_enabled = true\nmax_streams_per_session = 256\n\n[limits]\nmax_sessions = 1000\nsession_timeout_secs = 3600\nconnect_rate_per_ip = 10\n\n[logging]\nlevel = \"warn\"\ndisabled = false\n\n[admin]\nenabled = true\nbind = \"127.0.0.1\"\nport = 9090\nadmin_token = \""@;
    let l7 = "\"\n\n[obfuscation]\npadding_enabled = true\nsize_normalization = true\nidle_noise = false\nburst_shaping = true\n"@;
    let rest = sni + l4 + sk + l5 + th + l6 + admin_token + l7;
    let cfg = installed_config(veil_port, domain, key, user_token, admin_token);
    assert(cfg == c1 + p + "\ntcp_port = "@ + p + c3 + sni + l4 + sk + l5 + th + l6 + admin_token + l7);
    let quic = "\nquic_port = "@ + p + "\n"@;
    let tcpl = "\ntcp_port = "@ + p + "\n"@;
    assert(cfg =~= c1a + quic + ("tcp_port = "@ + p + c3 + rest));
    lemma_contains_middle(c1a, quic, "tcp_port = "@ + p + c3 + rest);
    assert(cfg =~= c1 + p + tcpl + (c3a + rest));
    lemma_contains_middle(c1 + p, tcpl, c3a + rest);
}

} // verus!
