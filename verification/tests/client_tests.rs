use veil::client::config::{ClientConfig, ManagedServer};
use veil::client::deploy::{
    admin_request, cert_command, docker_run_command, hex_sha256, installation_from,
    parse_user_host, prepare_installation, render_server_config, HttpMethod, ServerCommands,
};
use veil::server::auth::AuthManager;
use veil::server::config::{AuthConfig, TokenEntry};
use veil::client::dns::DnsProtection;
use veil::client::killswitch::KillSwitch;
use veil::client::modes::{connect_banner, connect_target};
use veil::client::proxy::{
    http_connect_target, parse_socks5_dest, socks5_accepts_greeting, socks5_is_connect,
    socks5_no_auth_reply, socks5_success_reply,
};
use veil::client::transport::{initial_auth_request, server_host, session_from_auth_reply};
use veil::client::tui::{connect_hint, deploy_hint, port_from_entry, profile_choice_name};
use veil::client::tunnel::{classify_ipv4_packet, PacketRoute};
use veil::crypto::hex::encode;
use veil::crypto::sha256;
use veil::error::{Failure, VeilError};
use veil::protocol::handshake::AuthMethod;
use veil::text::trim;

#[test]
fn socks5_ipv4() {
    let req = [5, 1, 0, 1, 192, 168, 1, 10, 0x01, 0xBB];
    assert_eq!(parse_socks5_dest(&req).unwrap(), "192.168.1.10:443");
    assert!(socks5_is_connect(&req));
    assert!(socks5_accepts_greeting(&[5, 1, 0]));
    assert!(!socks5_accepts_greeting(&[4, 1, 0]));
    assert_eq!(socks5_no_auth_reply(), vec![5, 0]);
    assert_eq!(socks5_success_reply(), vec![5, 0, 0, 1, 0, 0, 0, 0, 0, 0]);
}

#[test]
fn socks5_domain_and_errors() {
    let mut req = vec![5, 1, 0, 3, 11];
    req.extend_from_slice(b"example.com");
    req.extend_from_slice(&[0x00, 0x50]);
    assert_eq!(parse_socks5_dest(&req).unwrap(), "example.com:80");
    let detail = |e: Failure| match e {
        Failure::Message(m) => m,
        _ => panic!(),
    };
    assert_eq!(detail(parse_socks5_dest(&[5, 1, 0, 1, 1, 2, 3]).unwrap_err()), "Short IPv4 request");
    assert_eq!(detail(parse_socks5_dest(&[5, 1, 0, 3, 9, b'a']).unwrap_err()), "Short domain request");
    assert_eq!(
        detail(parse_socks5_dest(&[5, 1, 0, 4, 0, 0, 0]).unwrap_err()),
        "Unsupported SOCKS5 address type"
    );
    assert_eq!(
        detail(parse_socks5_dest(&[5, 1, 0, 3, 1, 0xff, 0, 80]).unwrap_err()),
        "invalid utf-8 sequence of 1 bytes from index 0"
    );
}

#[test]
fn http_connect_lines() {
    assert_eq!(
        http_connect_target(b"CONNECT example.com:443 HTTP/1.1\r\nHost: x\r\n\r\n").unwrap(),
        Some("example.com:443".to_string())
    );
    assert_eq!(http_connect_target(b"GET / HTTP/1.1\r\n\r\n").unwrap(), None);
    assert_eq!(http_connect_target(b"CONNECT").unwrap(), None);
    assert_eq!(http_connect_target(b"CONNECT a:1").unwrap(), Some("a:1".to_string()));
    assert_eq!(
        http_connect_target(&[0xff, 0xfe]).unwrap_err().message(),
        "invalid utf-8 sequence of 1 bytes from index 0"
    );
}

#[test]
fn tunnel_packets() {
    let mut tcp = vec![0u8; 24];
    tcp[0] = 0x45;
    tcp[9] = 6;
    tcp[16..20].copy_from_slice(&[8, 8, 4, 4]);
    tcp[22] = 0x01;
    tcp[23] = 0xBB;
    match classify_ipv4_packet(&tcp) {
        PacketRoute::Tcp { dest } => assert_eq!(dest, "8.8.4.4:443"),
        _ => panic!(),
    }
    let mut udp = vec![0u8; 31];
    udp[0] = 0x45;
    udp[9] = 17;
    udp[16..20].copy_from_slice(&[1, 1, 1, 1]);
    udp[22] = 0;
    udp[23] = 53;
    udp[28..31].copy_from_slice(&[9, 9, 9]);
    match classify_ipv4_packet(&udp) {
        PacketRoute::Udp { dest, payload } => {
            assert_eq!(dest, "1.1.1.1:53");
            assert_eq!(payload, vec![9, 9, 9]);
        }
        _ => panic!(),
    }
    let mut v6 = tcp.clone();
    v6[0] = 0x60;
    assert!(matches!(classify_ipv4_packet(&v6), PacketRoute::Skip));
    assert!(matches!(classify_ipv4_packet(&tcp[..19]), PacketRoute::Skip));
    let mut icmp = tcp.clone();
    icmp[9] = 1;
    assert!(matches!(classify_ipv4_packet(&icmp), PacketRoute::Skip));
}

#[test]
fn user_host_split() {
    assert_eq!(parse_user_host("admin@1.2.3.4"), ("admin".to_string(), "1.2.3.4".to_string()));
    assert_eq!(parse_user_host("1.2.3.4"), ("root".to_string(), "1.2.3.4".to_string()));
}

#[test]
fn installer_hash_matches_server_hash() {
    let t = "user-token";
    assert_eq!(hex_sha256(t), encode(sha256(t.as_bytes())));
    assert_eq!(
        hex_sha256("abc"),
        "ba7816bf8f01cfea414140de5dae2223b00361a396177a9cb410ff61f20015ad"
    );
}

fn quoted_value(cfg: &str, key: &str) -> String {
    let start = cfg.find(&format!("{} = \"", key)).unwrap() + key.len() + 4;
    let end = start + cfg[start..].find('"').unwrap();
    cfg[start..end].to_string()
}

#[test]
fn installation_is_accepted_by_its_server() {
    let i = prepare_installation(443, Some("example.com"));
    assert_eq!((i.user_token.len(), i.admin_token.len()), (43, 43));
    let signing_key = quoted_value(&i.config, "signing_key");
    assert_eq!(signing_key.len(), 64);
    assert_eq!(quoted_value(&i.config, "admin_token"), i.admin_token);
    let hash = quoted_value(&i.config, "token_hash");
    assert_eq!(hash, hex_sha256(&i.user_token));
    let mut m = AuthManager::new(&AuthConfig {
        signing_key,
        tokens: vec![TokenEntry {
            id: "user1".into(),
            token_hash: hash,
            label: Some("default user".into()),
            is_admin: false,
            expires_at: None,
        }],
        invite_ttl_seconds: 3600,
        rate_limit: true,
        tarpit_ms: 500,
    })
    .unwrap();
    assert!(m.verify_token(&i.user_token).0.is_ok());
    let fixed = installation_from(8443, None, vec![0xab; 32], "u".into(), "a".into());
    assert_eq!(quoted_value(&fixed.config, "signing_key"), "ab".repeat(32));
    assert_eq!(fixed.config, render_server_config(8443, None, &"ab".repeat(32), &hex_sha256("u"), "a"));
}

#[test]
fn server_config_text() {
    let cfg = render_server_config(8443, Some("example.com"), "sk", "hash", "adm");
    assert!(cfg.starts_with("[node]\nrole = \"all\"\n"));
    assert!(cfg.contains("quic_port = 8443\ntcp_port = 8443\n"));
    assert!(cfg.contains("sni = \"example.com\"\nalpn"));
    assert!(cfg.contains("signing_key = \"sk\"\n"));
    assert!(cfg.contains("token_hash = \"hash\"\n"));
    assert!(cfg.contains("admin_token = \"adm\"\n"));
    assert!(cfg.ends_with("burst_shaping = true\n"));
    let no_domain = render_server_config(443, None, "sk", "hash", "adm");
    assert!(no_domain.contains("# sni = \"example.com\"  # set a domain for better camouflage\n"));
}

#[test]
fn deploy_commands() {
    assert_eq!(
        cert_command(None),
        "openssl req -x509 -nodes -days 3650 -newkey rsa:2048 -keyout /etc/veil/server.key -out /etc/veil/server.crt -subj '/CN=veil-server'"
    );
    assert!(cert_command(Some("a.b")).ends_with("-subj '/CN=a.b'"));
    let d = docker_run_command(443);
    assert!(d.contains("-p 443:443/udp -p 443:443/tcp -p 127.0.0.1:9090:9090"));
}

#[test]
fn admin_requests() {
    let url = "https://h:443/api/v1";
    let r = admin_request(&ServerCommands::RemoveUser { id: "u7".into() }, url, "adm").unwrap();
    assert_eq!(r.method, HttpMethod::Delete);
    assert_eq!(r.url, "https://h:443/api/v1/tokens/u7");
    assert_eq!((r.header_name.as_str(), r.header_value.as_str()), ("X-Admin-Token", "adm"));
    assert!(r.body.is_none());
    let r = admin_request(&ServerCommands::Invite, url, "adm").unwrap();
    assert_eq!((r.method, r.url.as_str()), (HttpMethod::Post, "https://h:443/api/v1/invite"));
    assert!(admin_request(&ServerCommands::Logs { lines: 50 }, url, "adm").is_none());
    assert!(admin_request(&ServerCommands::SetPort { port: 1 }, url, "adm").is_none());
}

#[test]
fn add_user_request_body_is_serde_json_text() {
    let url = "https://h:443/api/v1";
    let cmd = ServerCommands::AddUser { label: "a \"quoted\" name".into(), admin: true, expires: None };
    let r = admin_request(&cmd, url, "adm").unwrap();
    assert_eq!((r.method, r.url.as_str()), (HttpMethod::Post, "https://h:443/api/v1/tokens"));
    let mut m = serde_json::Map::new();
    m.insert("label".into(), serde_json::Value::String("a \"quoted\" name".into()));
    m.insert("is_admin".into(), serde_json::Value::Bool(true));
    m.insert("expires_at".into(), serde_json::Value::Null);
    assert_eq!(r.body.unwrap(), serde_json::to_string(&serde_json::Value::Object(m)).unwrap());
    let cmd = ServerCommands::AddUser { label: "b".into(), admin: false, expires: Some("2030-01-01".into()) };
    let r = admin_request(&cmd, url, "adm").unwrap();
    assert_eq!(
        r.body.unwrap(),
        "{\"expires_at\":\"2030-01-01\",\"is_admin\":false,\"label\":\"b\"}"
    );
}

#[test]
fn managed_server_settings() {
    let mut c = ClientConfig::default();
    assert!(c.management_url().is_none());
    assert!(matches!(c.admin_token(), Err(VeilError::Config(_))));
    c.managed_server = Some(ManagedServer {
        host: "vpn.example".into(),
        ssh_port: 22,
        veil_port: 8443,
        admin_token: "secret".into(),
        domain: None,
        installed_at: "now".into(),
    });
    assert_eq!(c.management_url().unwrap(), "https://vpn.example:8443/api/v1");
    assert_eq!(c.admin_token().unwrap(), "secret");
}

#[test]
fn dns_configuration_text() {
    assert_eq!(DnsProtection::managed_config("10.10.0.1"), "# Managed by Veil\nnameserver 10.10.0.1\n");
    let d = DnsProtection::new(vec!["1.1.1.1".into(), "9.9.9.9".into()]);
    assert_eq!(d.restored_config(), "nameserver 1.1.1.1\nnameserver 9.9.9.9\n");
    let conf = "# generated\nnameserver 1.1.1.1\n  nameserver\t9.9.9.9  \r\nsearch lan\nnameserverX 5.5.5.5\nnameserver";
    let read = DnsProtection::get_system_resolvers(conf);
    assert_eq!(read, vec!["1.1.1.1", "9.9.9.9"]);
    assert_eq!(
        DnsProtection::new(read).restored_config(),
        "nameserver 1.1.1.1\nnameserver 9.9.9.9\n"
    );
    assert!(DnsProtection::get_system_resolvers("").is_empty());
}

#[test]
fn kill_switch_starts_engaged() {
    assert!(KillSwitch::activated().is_active());
}

#[test]
fn connect_arguments() {
    let (s, t) = connect_target(None, Some("tok".into()), None).unwrap();
    assert_eq!((s.as_str(), t.as_str()), ("127.0.0.1:443", "tok"));
    let (_, t) = connect_target(Some("h:1".into()), None, Some("env".into())).unwrap();
    assert_eq!(t, "env");
    match connect_target(None, None, None) {
        Err(VeilError::Config(m)) => assert_eq!(m, "Token required. Use --token or set VEIL_TOKEN env var."),
        _ => panic!(),
    }
    assert_eq!(connect_banner("h:1", true), "Connecting to h:1 (proxy)");
    assert_eq!(connect_banner("h:1", false), "Connecting to h:1 (VPN)");
}

#[test]
fn client_handshake_pieces() {
    let r = initial_auth_request("tok");
    assert_eq!(r.challenge_id, "init");
    assert_eq!(r.method, AuthMethod::Token);
    assert_eq!(r.credential, "tok");
    assert!(r.client_pubkey.is_none());
    assert_eq!(server_host("example.com:443"), "example.com");
    assert_eq!(server_host("example.com"), "example.com");
    assert_eq!(session_from_auth_reply(Some("ok"), Some("abc")), Some("abc".to_string()));
    assert_eq!(session_from_auth_reply(Some("ok"), None), Some(String::new()));
    assert_eq!(session_from_auth_reply(Some("error"), Some("abc")), None);
    assert_eq!(session_from_auth_reply(None, None), None);
}

#[test]
fn wizard_text() {
    assert_eq!(profile_choice_name(2), "throughput");
    assert_eq!(port_from_entry("8443"), 8443);
    assert_eq!(port_from_entry("+80"), 80);
    assert_eq!(port_from_entry("70000"), 443);
    assert_eq!(port_from_entry("x"), 443);
    assert_eq!(connect_hint("h:443", "t", "stealth"), "  veil connect h:443 --token t --profile stealth");
    assert_eq!(deploy_hint("root@h", 443, "", None), "  veil deploy install root@h --veil-port 443");
    assert_eq!(
        deploy_hint("root@h", 443, "d.com", None),
        "  veil deploy install root@h --veil-port 443 --domain d.com"
    );
    assert_eq!(
        deploy_hint("root@h", 443, "d.com", Some("~/.ssh/id_rsa")),
        "  veil deploy install root@h --veil-port 443 --key --domain d.com ~/.ssh/id_rsa"
    );
}

#[test]
fn trimming() {
    assert_eq!(trim("  a b \n"), "a b");
    assert_eq!(trim("\u{3000}x\u{2009}"), "x");
    assert_eq!(trim("   "), "");
}
