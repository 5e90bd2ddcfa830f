//! The desktop application's commands, as transitions of its state.
use vstd::prelude::*;

use super::state::{AppState, ClientMode, ConnectionStatus, ManagedServer, ServerProfile};
use crate::text::{dec_spec, push_decimal, push_str};
use crate::time::Timestamp;

verus! {

/// What the status command reports.
#[derive(Debug, Clone)]
pub struct StatusResponse {
    pub status: ConnectionStatus,
    pub active_profile: Option<String>,
    pub bytes_up: u64,
    pub bytes_down: u64,
    pub elapsed_secs: u64,
}

/// A request to connect with a saved profile.
#[derive(Debug, Clone)]
pub struct ConnectRequest {
    pub profile_id: String,
    pub mode: ClientMode,
}

/// A new profile to save.
#[derive(Debug, Clone)]
pub struct AddProfileRequest {
    pub name: String,
    pub host: String,
    pub port: u16,
    pub token: String,
    pub domain: Option<String>,
    pub mode: ClientMode,
}

/// A server deployment request.
#[derive(Debug, Clone)]
pub struct DeployRequest {
    pub host: String,
    pub ssh_port: u16,
    pub user: String,
    pub password: Option<String>,
    pub veil_port: u16,
    pub domain: Option<String>,
}

/// The outcome of a deployment.
#[derive(Debug, Clone)]
pub struct DeployResult {
    pub success: bool,
    pub token: String,
    pub admin_token: String,
    pub message: String,
}

/// What the managed server reports.
#[derive(Debug, Clone)]
pub struct ServerInfo {
    pub status: String,
    pub version: String,
    pub sessions: u32,
    pub uptime_secs: u64,
}

/// A user to add to the managed server.
#[derive(Debug, Clone)]
pub struct AddUserRequest {
    pub label: String,
    pub is_admin: bool,
}

/// A user token of the managed server.
#[derive(Debug, Clone)]
pub struct UserToken {
    pub id: String,
    pub label: String,
    pub token: String,
    pub is_admin: bool,
}

/// A session of the managed server, as listed.
#[derive(Debug, Clone)]
pub struct Session {
    pub id: String,
    pub connected_at: String,
    pub bytes_up: u64,
    pub bytes_down: u64,
}

/// The status report at `now`.
pub fn get_status(s: &AppState, now: &Timestamp) -> (r: StatusResponse)
    requires
        -crate::time::CLOCK_SECS_BOUND <= now.secs <= crate::time::CLOCK_SECS_BOUND,
        s.connected_since matches Some(t) ==> -crate::time::CLOCK_SECS_BOUND <= t.secs
            <= crate::time::CLOCK_SECS_BOUND,
    ensures
        r.status == s.status,
        r.active_profile == s.active_profile,
        r.bytes_up == s.bytes_up,
        r.bytes_down == s.bytes_down,
        r.elapsed_secs == super::state::elapsed_spec(s.connected_since, *now),
{
    StatusResponse {
        status: s.status.clone(),
        active_profile: s.active_profile.clone(),
        bytes_up: s.bytes_up,
        bytes_down: s.bytes_down,
        elapsed_secs: s.elapsed_secs_at(now),
    }
}

/// Starting a connection: the status becomes connecting and the profile
/// active; nothing else changes.
pub fn connect(s: &mut AppState, req: &ConnectRequest)
    ensures
        final(s).status is Connecting,
        final(s).active_profile == Some(req.profile_id),
        final(s).profiles@ == old(s).profiles@,
        final(s).managed_server == old(s).managed_server,
        final(s).bytes_up == old(s).bytes_up,
        final(s).bytes_down == old(s).bytes_down,
        final(s).connected_since == old(s).connected_since,
{
    s.status = ConnectionStatus::Connecting;
    s.active_profile = Some(req.profile_id.clone());
}

/// Disconnecting clears the connection: no active profile, no start time,
/// counters back to zero; profiles and the managed server are kept.
pub fn disconnect(s: &mut AppState)
    ensures
        final(s).status is Disconnected,
        final(s).active_profile is None,
        final(s).connected_since is None,
        final(s).bytes_up == 0,
        final(s).bytes_down == 0,
        final(s).profiles@ == old(s).profiles@,
        final(s).managed_server == old(s).managed_server,
{
    s.status = ConnectionStatus::Disconnected;
    s.active_profile = None;
    s.connected_since = None;
    s.bytes_up = 0;
    s.bytes_down = 0;
}

/// The saved profiles.
pub fn get_profiles(s: &AppState) -> (r: Vec<ServerProfile>)
    ensures
        r@ == s.profiles@,
{
    s.profiles.clone()
}

/// The profile a request describes, under identifier `id`.
pub open spec fn requested_profile(req: AddProfileRequest, id: String) -> ServerProfile {
    ServerProfile {
        id,
        name: req.name,
        host: req.host,
        port: req.port,
        token: req.token,
        domain: req.domain,
        mode: req.mode,
    }
}

/// Saves a new profile under a fresh random identifier (a version 4 UUID),
/// appended after the others.
pub fn add_profile(s: &mut AppState, req: AddProfileRequest) -> (p: ServerProfile)
    ensures
        p == requested_profile(req, p.id),
        crate::protocol::uuid_v4_text(p.id@),
        final(s).profiles@ == old(s).profiles@.push(p),
        final(s).status == old(s).status,
        final(s).active_profile == old(s).active_profile,
        final(s).managed_server == old(s).managed_server,
{
    let id = crate::protocol::new_uuid_v4_text();
    add_profile_with_id(s, req, id)
}

/// Saves a new profile under identifier `id`, appended after the others.
pub fn add_profile_with_id(s: &mut AppState, req: AddProfileRequest, id: String) -> (p: ServerProfile)
    ensures
        p == requested_profile(req, id),
        final(s).profiles@ == old(s).profiles@.push(p),
        final(s).status == old(s).status,
        final(s).active_profile == old(s).active_profile,
        final(s).managed_server == old(s).managed_server,
{
    let profile = ServerProfile {
        id,
        name: req.name,
        host: req.host,
        port: req.port,
        token: req.token,
        domain: req.domain,
        mode: req.mode,
    };
    s.profiles.push(profile.clone());
    profile
}

/// The profiles other than those with identifier `id`, in order.
pub open spec fn without_id(ps: Seq<ServerProfile>, id: Seq<char>) -> Seq<ServerProfile>
    decreases ps.len(),
{
    if ps.len() == 0 {
        Seq::empty()
    } else if ps.last().id@ == id {
        without_id(ps.drop_last(), id)
    } else {
        without_id(ps.drop_last(), id).push(ps.last())
    }
}

/// Deletes every profile with identifier `id`, keeping the others in order.
pub fn delete_profile(s: &mut AppState, id: &str)
    ensures
        final(s).profiles@ == without_id(old(s).profiles@, id@),
        final(s).status == old(s).status,
        final(s).active_profile == old(s).active_profile,
{
    let mut kept: Vec<ServerProfile> = Vec::new();
    let mut i: usize = 0;
    let ghost ps = s.profiles@;
    while i < s.profiles.len()
        invariant
            i <= s.profiles.len(),
            s.profiles@ == ps,
            kept@ == without_id(ps.take(i as int), id@),
        decreases s.profiles.len() - i,
    {
        let p = &s.profiles[i];
        assert(ps.take(i + 1).drop_last() =~= ps.take(i as int));
        if !crate::text::str_eq(p.id.as_str(), id) {
            kept.push(p.clone());
        }
        i = i + 1;
    }
    assert(ps.take(ps.len() as int) =~= ps);
    s.profiles = kept;
}

/// After deleting `id`, no profile has it, and every other profile is kept.
pub proof fn lemma_delete_profile(ps: Seq<ServerProfile>, id: Seq<char>)
    ensures
        forall|i: int| 0 <= i < without_id(ps, id).len() ==> #[trigger] without_id(ps, id)[i].id@ != id,
        forall|i: int| 0 <= i < ps.len() && ps[i].id@ != id ==> without_id(ps, id).contains(#[trigger] ps[i]),
    decreases ps.len(),
{
    if ps.len() > 0 {
        lemma_delete_profile(ps.drop_last(), id);
        let rest = without_id(ps.drop_last(), id);
        assert forall|i: int| 0 <= i < ps.len() && ps[i].id@ != id implies without_id(ps, id).contains(
            #[trigger] ps[i],
        ) by {
            if i < ps.len() - 1 {
                assert(ps.drop_last()[i] == ps[i]);
                let k = choose|k: int| 0 <= k < rest.len() && rest[k] == ps[i];
                if ps.last().id@ != id {
                    assert(rest.push(ps.last())[k] == ps[i]);
                }
            } else {
                assert(without_id(ps, id) == rest.push(ps.last()));
                assert(rest.push(ps.last())[rest.len() as int] == ps[i]);
            }
        }
    }
}

/// `host:port`.
pub open spec fn address_spec(host: Seq<char>, port: u16) -> Seq<char> {
    host + ":"@ + dec_spec(port as nat)
}

/// The first profile with identifier `id`.
pub open spec fn first_profile(ps: Seq<ServerProfile>, id: Seq<char>) -> Option<int>
    decreases ps.len(),
{
    if ps.len() == 0 {
        None
    } else if ps[0].id@ == id {
        Some(0)
    } else {
        match first_profile(ps.drop_first(), id) {
            Some(i) => Some(i + 1),
            None => None,
        }
    }
}

/// Starting the VPN with a profile: its `host:port` and token, with the
/// status set to connecting and the profile active; an error when no
/// profile has that identifier, leaving the state unchanged.
pub fn start_vpn(s: &mut AppState, profile_id: &str) -> (r: Result<(String, String), String>)
    ensures
        match first_profile(old(s).profiles@, profile_id@) {
            None => r matches Err(e) && e@ == "Profile not found"@ && final(s).status == old(s).status
                && final(s).active_profile == old(s).active_profile,
            Some(i) => r matches Ok((addr, token)) && addr@ == address_spec(
                old(s).profiles@[i].host@,
                old(s).profiles@[i].port,
            ) && token@ == old(s).profiles@[i].token@ && final(s).status is Connecting
                && (final(s).active_profile matches Some(a) && a@ == profile_id@),
        },
        final(s).profiles@ == old(s).profiles@,
{
    let mut i: usize = 0;
    let ghost ps = s.profiles@;
    assert(ps.skip(0) =~= ps);
    while i < s.profiles.len()
        invariant
            i <= s.profiles.len(),
            s.profiles@ == ps,
            ps == old(s).profiles@,
            s.status == old(s).status,
            s.active_profile == old(s).active_profile,
            first_profile(ps, profile_id@) == match first_profile(ps.skip(i as int), profile_id@) {
                Some(k) => Some(k + i),
                None => None::<int>,
            },
        decreases s.profiles.len() - i,
    {
        assert(ps.skip(i as int)[0] == ps[i as int]);
        assert(ps.skip(i as int).drop_first() =~= ps.skip(i + 1));
        if crate::text::str_eq(s.profiles[i].id.as_str(), profile_id) {
            let p = &s.profiles[i];
            let mut addr = String::new();
            push_str(&mut addr, p.host.as_str());
            push_str(&mut addr, ":");
            push_decimal(&mut addr, p.port as u64);
            let token = p.token.clone();
            s.status = ConnectionStatus::Connecting;
            s.active_profile = Some(profile_id.to_owned());
            return Ok((addr, token));
        }
        i = i + 1;
    }
    assert(ps.skip(i as int) =~= Seq::<ServerProfile>::empty());
    Err(String::from_str("Profile not found"))
}

/// When the VPN ends: a clean end disconnects, a failure records its
/// message.
pub fn vpn_finished(s: &mut AppState, outcome: Result<(), String>)
    ensures
        match outcome {
            Ok(()) => final(s).status is Disconnected && final(s).active_profile is None
                && final(s).connected_since is None,
            Err(e) => final(s).status == ConnectionStatus::Error(e) && final(s).active_profile
                == old(s).active_profile,
        },
        final(s).profiles@ == old(s).profiles@,
{
    match outcome {
        Ok(()) => {
            s.status = ConnectionStatus::Disconnected;
            s.active_profile = None;
            s.connected_since = None;
        },
        Err(e) => {
            s.status = ConnectionStatus::Error(e);
        },
    }
}

/// Stopping the VPN: as `disconnect`.
pub fn stop_vpn(s: &mut AppState)
    ensures
        final(s).status is Disconnected,
        final(s).active_profile is None,
        final(s).connected_since is None,
        final(s).bytes_up == 0,
        final(s).bytes_down == 0,
        final(s).profiles@ == old(s).profiles@,
{
    disconnect(s);
}

/// `Server deployed on <host>:<port>`.
pub open spec fn deployed_message(host: Seq<char>, port: u16) -> Seq<char> {
    "Server deployed on "@ + address_spec(host, port)
}

/// Records a deployment under two fresh random tokens of 32 bytes each
/// (URL-safe base64): the server becomes the managed one, and the result
/// carries the tokens.
pub fn deploy_server(s: &mut AppState, req: DeployRequest) -> (r: DeployResult)
    ensures
        r.success,
        exists|b: Seq<u8>| b.len() == 32 && r.token@ == crate::crypto::b64url_nopad(b),
        exists|b: Seq<u8>| b.len() == 32 && r.admin_token@ == crate::crypto::b64url_nopad(b),
        r.message@ == deployed_message(req.host@, req.veil_port),
        final(s).managed_server matches Some(m) && m.host == req.host && m.port == req.veil_port
            && m.admin_token == r.admin_token && m.domain == req.domain,
        final(s).profiles@ == old(s).profiles@,
{
    let user_token = crate::crypto::generate_token(32);
    let admin_token = crate::crypto::generate_token(32);
    record_deployment(s, req, user_token, admin_token)
}

/// Records a deployment with the generated tokens: the server becomes the
/// managed one, and the result carries the tokens.
pub fn record_deployment(s: &mut AppState, req: DeployRequest, user_token: String, admin_token: String) -> (r: DeployResult)
    ensures
        r.success,
        r.token == user_token,
        r.admin_token == admin_token,
        r.message@ == deployed_message(req.host@, req.veil_port),
        final(s).managed_server matches Some(m) && m.host == req.host && m.port == req.veil_port
            && m.admin_token == admin_token && m.domain == req.domain,
        final(s).profiles@ == old(s).profiles@,
{
    let mut message = String::new();
    push_str(&mut message, "Server deployed on ");
    push_str(&mut message, req.host.as_str());
    push_str(&mut message, ":");
    push_decimal(&mut message, req.veil_port as u64);
    assert(message@ =~= deployed_message(req.host@, req.veil_port));
    let managed = ManagedServer {
        host: req.host,
        port: req.veil_port,
        admin_token: admin_token.clone(),
        domain: req.domain,
    };
    s.managed_server = Some(managed);
    DeployResult { success: true, token: user_token, admin_token, message }
}

/// What the managed server reports; an error when none is managed.
pub fn get_server_info(s: &AppState) -> (r: Result<ServerInfo, String>)
    ensures
        match s.managed_server {
            None => r matches Err(e) && e@ == "No managed server configured"@,
            Some(_) => r matches Ok(i) && i.status@ == "running"@ && i.version@ == "0.1.0"@
                && i.sessions == 0 && i.uptime_secs == 0,
        },
{
    match &s.managed_server {
        None => Err(String::from_str("No managed server configured")),
        Some(_) => Ok(
            ServerInfo {
                status: String::from_str("running"),
                version: String::from_str("0.1.0"),
                sessions: 0,
                uptime_secs: 0,
            },
        ),
    }
}

/// A new user of the managed server, with a fresh random identifier (a
/// version 4 UUID) and a fresh random secret of 32 bytes (URL-safe base64).
pub fn server_add_user(req: AddUserRequest) -> (u: UserToken)
    ensures
        crate::protocol::uuid_v4_text(u.id@),
        exists|b: Seq<u8>| b.len() == 32 && u.token@ == crate::crypto::b64url_nopad(b),
        u.label == req.label,
        u.is_admin == req.is_admin,
{
    let token = crate::crypto::generate_token(32);
    let id = crate::protocol::new_uuid_v4_text();
    new_user_token(req, id, token)
}

/// The user of the managed server with identifier `id` and secret `token`.
pub fn new_user_token(req: AddUserRequest, id: String, token: String) -> (u: UserToken)
    ensures
        u.id == id,
        u.label == req.label,
        u.token == token,
        u.is_admin == req.is_admin,
{
    UserToken { id, label: req.label, token, is_admin: req.is_admin }
}

/// The managed server's users (none are listed yet).
pub fn server_list_users() -> (v: Vec<UserToken>)
    ensures
        v@.len() == 0,
{
    Vec::new()
}

/// The managed server's sessions (none are listed yet).
pub fn server_get_sessions() -> (v: Vec<Session>)
    ensures
        v@.len() == 0,
{
    Vec::new()
}

} // verus!
