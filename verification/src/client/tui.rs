//! The setup wizard's choices and the commands it suggests.
use vstd::prelude::*;

use crate::text::{chars_of, dec_spec, parse_u64, parse_u64_spec, push_decimal, push_str};

verus! {

/// Name of the traffic profile chosen at position `i` of the wizard's list.
pub open spec fn profile_choice_spec(i: nat) -> Seq<char> {
    if i == 0 {
        "balanced"@
    } else if i == 1 {
        "realtime"@
    } else if i == 2 {
        "throughput"@
    } else {
        "stealth"@
    }
}

/// The profile name for the wizard's choice `i` (one of four).
pub fn profile_choice_name(i: usize) -> (s: String)
    requires
        i < 4,
    ensures
        s@ == profile_choice_spec(i as nat),
{
    if i == 0 {
        String::from_str("balanced")
    } else if i == 1 {
        String::from_str("realtime")
    } else if i == 2 {
        String::from_str("throughput")
    } else {
        String::from_str("stealth")
    }
}

/// The port typed in the wizard: its value when it parses as a 16-bit
/// number (`str::parse::<u16>`), else 443.
pub open spec fn port_entry_spec(text: Seq<char>) -> u16 {
    match parse_u64_spec(text) {
        Some(v) => if v <= 65535 {
            v as u16
        } else {
            443
        },
        None => 443,
    }
}

/// The Veil port from the wizard's answer.
pub fn port_from_entry(text: &str) -> (p: u16)
    ensures
        p == port_entry_spec(text@),
{
    let cs = chars_of(text);
    assert(cs@.subrange(0, cs@.len() as int) =~= cs@);
    match parse_u64(&cs, 0, cs.len()) {
        Some(v) => if v <= 65535 {
            v as u16
        } else {
            443
        },
        None => 443,
    }
}

/// The connect command suggested after client setup.
pub open spec fn connect_hint_spec(server: Seq<char>, token: Seq<char>, profile: Seq<char>) -> Seq<char> {
    "  veil connect "@ + server + " --token "@ + token + " --profile "@ + profile
}

/// The connect command suggested after client setup.
pub fn connect_hint(server: &str, token: &str, profile: &str) -> (s: String)
    ensures
        s@ == connect_hint_spec(server@, token@, profile@),
{
    let mut s = String::new();
    push_str(&mut s, "  veil connect ");
    push_str(&mut s, server);
    push_str(&mut s, " --token ");
    push_str(&mut s, token);
    push_str(&mut s, " --profile ");
    push_str(&mut s, profile);
    s
}

/// The install command suggested after deployment setup. With a key file
/// the domain option is written just before the key path.
pub open spec fn deploy_hint_spec(host: Seq<char>, port: u16, domain: Seq<char>, key: Option<Seq<char>>) -> Seq<char> {
    match key {
        Some(k) => "  veil deploy install "@ + host + " --veil-port "@ + dec_spec(port as nat)
            + " --key "@ + (if domain.len() == 0 {
            Seq::empty()
        } else {
            "--domain "@ + domain + " "@
        }) + k,
        None => "  veil deploy install "@ + host + " --veil-port "@ + dec_spec(port as nat) + (if domain.len()
            == 0 {
            Seq::empty()
        } else {
            " --domain "@ + domain
        }),
    }
}

/// The install command suggested after deployment setup.
pub fn deploy_hint(host: &str, port: u16, domain: &str, key: Option<&str>) -> (s: String)
    ensures
        s@ == deploy_hint_spec(host@, port, domain@, match key {
            Some(k) => Some(k@),
            None => None,
        }),
{
    let mut s = String::new();
    push_str(&mut s, "  veil deploy install ");
    push_str(&mut s, host);
    push_str(&mut s, " --veil-port ");
    push_decimal(&mut s, port as u64);
    let empty = domain.is_empty();
    match key {
        Some(k) => {
            push_str(&mut s, " --key ");
            if !empty {
                push_str(&mut s, "--domain ");
                push_str(&mut s, domain);
                push_str(&mut s, " ");
            }
            push_str(&mut s, k);
            proof {
                if empty {
                    assert(s@ =~= "  veil deploy install "@ + host@ + " --veil-port "@ + dec_spec(port as nat)
                        + " --key "@ + Seq::<char>::empty() + k@);
                } else {
                    assert(s@ =~= "  veil deploy install "@ + host@ + " --veil-port "@ + dec_spec(port as nat)
                        + " --key "@ + ("--domain "@ + domain@ + " "@) + k@);
                }
            }
        },
        None => {
            if !empty {
                push_str(&mut s, " --domain ");
                push_str(&mut s, domain);
                assert(s@ =~= "  veil deploy install "@ + host@ + " --veil-port "@ + dec_spec(port as nat)
                    + (" --domain "@ + domain@));
            } else {
                assert(s@ =~= "  veil deploy install "@ + host@ + " --veil-port "@ + dec_spec(port as nat)
                    + Seq::<char>::empty());
            }
        },
    }
    s
}

} // verus!
