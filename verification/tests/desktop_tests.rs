use veil::desktop::commands::{
    add_profile, add_profile_with_id, connect, delete_profile, deploy_server, disconnect,
    get_profiles, get_server_info, get_status, new_user_token, record_deployment,
    server_add_user, server_get_sessions, server_list_users, start_vpn, stop_vpn, vpn_finished,
    AddProfileRequest, AddUserRequest, ConnectRequest, DeployRequest,
};
use veil::desktop::state::{AppState, ClientMode, ConnectionStatus};
use veil::desktop::vpn_bridge::{stop, VpnBridge};
use veil::time::Timestamp;

fn profile(name: &str) -> AddProfileRequest {
    AddProfileRequest {
        name: name.into(),
        host: "vpn.example".into(),
        port: 443,
        token: "tok".into(),
        domain: None,
        mode: ClientMode::Proxy,
    }
}

#[test]
fn profiles_add_and_delete() {
    let mut s = AppState::default();
    let p = add_profile_with_id(&mut s, profile("a"), "id-a".into());
    assert_eq!(p.id, "id-a");
    add_profile_with_id(&mut s, profile("b"), "id-b".into());
    add_profile_with_id(&mut s, profile("c"), "id-a".into());
    let all = get_profiles(&s);
    assert_eq!(all.len(), 3);
    assert_eq!((all[0].name.as_str(), all[1].name.as_str(), all[2].name.as_str()), ("a", "b", "c"));
    delete_profile(&mut s, "id-a");
    assert_eq!(s.profiles.len(), 1);
    assert_eq!(s.profiles[0].name, "b");
}

#[test]
fn connect_and_disconnect() {
    let mut s = AppState::default();
    connect(&mut s, &ConnectRequest { profile_id: "p".into(), mode: ClientMode::Vpn });
    assert_eq!(s.status, ConnectionStatus::Connecting);
    assert_eq!(s.active_profile.as_deref(), Some("p"));
    s.bytes_up = 5;
    s.connected_since = Some(Timestamp { secs: 100, nanos: 0 });
    let st = get_status(&s, &Timestamp { secs: 161, nanos: 500 });
    assert_eq!(st.elapsed_secs, 61);
    assert_eq!(st.bytes_up, 5);
    disconnect(&mut s);
    assert_eq!(s.status, ConnectionStatus::Disconnected);
    assert!(s.active_profile.is_none() && s.connected_since.is_none());
    assert_eq!(s.bytes_up, 0);
}

#[test]
fn vpn_start_needs_profile() {
    let mut s = AppState::default();
    assert_eq!(start_vpn(&mut s, "missing").unwrap_err(), "Profile not found");
    assert_eq!(s.status, ConnectionStatus::Disconnected);
    add_profile_with_id(&mut s, profile("a"), "id-a".into());
    let (addr, token) = start_vpn(&mut s, "id-a").unwrap();
    assert_eq!(addr, "vpn.example:443");
    assert_eq!(token, "tok");
    assert_eq!(s.status, ConnectionStatus::Connecting);
    vpn_finished(&mut s, Err("boom".into()));
    assert_eq!(s.status, ConnectionStatus::Error("boom".into()));
    vpn_finished(&mut s, Ok(()));
    assert_eq!(s.status, ConnectionStatus::Disconnected);
    stop_vpn(&mut s);
    assert!(s.active_profile.is_none());
}

#[test]
fn deployment_and_server_info() {
    let mut s = AppState::default();
    assert_eq!(get_server_info(&s).unwrap_err(), "No managed server configured");
    let r = record_deployment(
        &mut s,
        DeployRequest {
            host: "1.2.3.4".into(),
            ssh_port: 22,
            user: "root".into(),
            password: None,
            veil_port: 8443,
            domain: Some("d.com".into()),
        },
        "user".into(),
        "admin".into(),
    );
    assert!(r.success);
    assert_eq!(r.message, "Server deployed on 1.2.3.4:8443");
    assert_eq!(s.managed_server.as_ref().unwrap().admin_token, "admin");
    let info = get_server_info(&s).unwrap();
    assert_eq!((info.status.as_str(), info.version.as_str()), ("running", "0.1.0"));
    let u = new_user_token(AddUserRequest { label: "l".into(), is_admin: true }, "i".into(), "t".into());
    assert!(u.is_admin && u.label == "l" && u.id == "i" && u.token == "t");
    assert!(server_list_users().is_empty());
    assert!(server_get_sessions().is_empty());
}

#[test]
fn one_vpn_at_a_time() {
    let mut b = VpnBridge::idle();
    assert!(b.start().is_ok());
    assert_eq!(b.start().unwrap_err(), "VPN already running");
    assert_eq!(b.tun_ready(7), None);
    b.await_fd();
    assert_eq!(b.tun_ready(7), Some(7));
    stop(&mut b);
    assert!(!b.running && !b.awaiting_fd);
    assert!(b.start().is_ok());
    b.finished();
    assert!(!b.running);
    assert!(b.start().is_ok());
}

#[test]
fn fresh_identifiers_and_tokens() {
    let mut s = AppState::default();
    let p = add_profile(&mut s, profile("a"));
    assert_eq!(p.id.len(), 36);
    assert_eq!(s.profiles[0].id, p.id);
    let q = add_profile(&mut s, profile("b"));
    assert_ne!(p.id, q.id);
    let r = deploy_server(
        &mut s,
        DeployRequest {
            host: "h".into(),
            ssh_port: 22,
            user: "root".into(),
            password: None,
            veil_port: 443,
            domain: None,
        },
    );
    assert_eq!(r.token.len(), 43);
    assert_eq!(r.admin_token.len(), 43);
    assert_ne!(r.token, r.admin_token);
    assert_eq!(s.managed_server.as_ref().unwrap().admin_token, r.admin_token);
    let u = server_add_user(AddUserRequest { label: "x".into(), is_admin: false });
    assert_eq!((u.id.len(), u.token.len()), (36, 43));
}
