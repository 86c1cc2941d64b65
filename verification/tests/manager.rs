use openvpn3_gui::vpn::manager::{
    auth_command, check_session_status, fetch_public_ip, fetch_session_stats, find_tunnel_ip,
    list_command, list_sessions, public_ip_next, public_ip_service, session_path_or,
    start_command, start_vpn, start_vpn_with, stats_command, stop_by_config_command,
    stop_by_path_command, stop_vpn, submit_challenge, tunnel_ip_command, Captured, Invocation,
    IpLookup,
};

fn captured(success: bool, stdout: &str, stderr: &str) -> Captured {
    Captured { success, stdout: stdout.to_string(), stderr: stderr.to_string() }
}

fn call(program: &str, args: &[&str]) -> Invocation {
    Invocation {
        program: program.to_string(),
        args: args.iter().map(|a| a.to_string()).collect(),
    }
}

#[test]
fn command_lines_are_as_the_client_expects() {
    assert_eq!(
        start_command("/etc/vpn/office.ovpn"),
        call("openvpn3", &["session-start", "--config", "/etc/vpn/office.ovpn"])
    );
    assert_eq!(list_command(), call("openvpn3", &["sessions-list"]));
    assert_eq!(
        stop_by_path_command("/net/openvpn/v3/sessions/abc"),
        call(
            "openvpn3",
            &["session-manage", "--session-path", "/net/openvpn/v3/sessions/abc", "--disconnect"]
        )
    );
    assert_eq!(
        stop_by_config_command("office.ovpn"),
        call("openvpn3", &["session-manage", "--config", "office.ovpn", "--disconnect"])
    );
    assert_eq!(
        stats_command("/net/openvpn/v3/sessions/abc"),
        call("openvpn3", &["session-stats", "--session-path", "/net/openvpn/v3/sessions/abc"])
    );
    assert_eq!(
        auth_command("/net/openvpn/v3/sessions/abc"),
        call("openvpn3", &["session-auth", "--session-path", "/net/openvpn/v3/sessions/abc"])
    );
    assert_eq!(tunnel_ip_command(), call("ip", &["addr", "show", "tun0"]));
}

#[test]
fn start_takes_the_path_from_the_listing() {
    let listing = "Path: /net/openvpn/v3/sessions/abc123\nStatus: Connection, Client connecting";
    assert_eq!(
        start_vpn(Ok(()), Ok(captured(true, listing, ""))),
        Ok((listing.to_string(), "/net/openvpn/v3/sessions/abc123".to_string()))
    );
    assert_eq!(
        start_vpn_with(Ok(()), Ok(captured(false, listing, "")), "unused"),
        Ok((listing.to_string(), "/net/openvpn/v3/sessions/abc123".to_string()))
    );
}

#[test]
fn start_without_a_listed_session_gets_a_provisional_path() {
    assert_eq!(
        start_vpn_with(Ok(()), Ok(captured(true, "No sessions available", "")), "fresh-id"),
        Ok(("No sessions available".to_string(), "/net/openvpn/v3/sessions/fresh-id".to_string()))
    );
    assert_eq!(session_path_or("", "x"), "/net/openvpn/v3/sessions/x");
    let first = start_vpn(Ok(()), Ok(captured(true, "", ""))).unwrap();
    let second = start_vpn(Ok(()), Ok(captured(true, "", ""))).unwrap();
    assert_eq!(first.0, "");
    assert!(first.1.starts_with("/net/openvpn/v3/sessions/"));
    assert_eq!(first.1.len(), "/net/openvpn/v3/sessions/".len() + 36);
    assert_ne!(first.1, second.1);
}

#[test]
fn start_that_could_not_run_gives_the_reason() {
    assert_eq!(
        start_vpn(Err("No such file".to_string()), Ok(captured(true, "", ""))),
        Err("Failed to execute: No such file".to_string())
    );
    assert_eq!(
        start_vpn(Ok(()), Err("denied".to_string())),
        Err("Failed to list sessions: denied".to_string())
    );
}

#[test]
fn stop_confirms_or_gives_the_reason() {
    assert_eq!(stop_vpn(Ok(captured(true, "bye", ""))), Ok("VPN Disconnected.".to_string()));
    assert_eq!(
        stop_vpn(Ok(captured(false, "", "no such session"))),
        Err("no such session".to_string())
    );
    assert_eq!(stop_vpn(Err("gone".to_string())), Err("Failed to execute: gone".to_string()));
}

#[test]
fn status_is_the_listing_of_a_run_that_ended_well() {
    assert_eq!(
        check_session_status(Ok(captured(true, "No sessions available", ""))),
        Some("No sessions available".to_string())
    );
    assert_eq!(check_session_status(Ok(captured(true, "", ""))), Some(String::new()));
    assert_eq!(check_session_status(Ok(captured(false, "x", "y"))), None);
    assert_eq!(check_session_status(Err("missing".to_string())), None);
}

#[test]
fn stats_are_parsed_from_a_run_that_ended_well() {
    let report = "BYTES_IN....10\nBYTES_OUT....20\n";
    assert_eq!(fetch_session_stats(Ok(captured(true, report, ""))), Some((10, 20)));
    assert_eq!(fetch_session_stats(Ok(captured(false, report, ""))), None);
    assert_eq!(fetch_session_stats(Ok(captured(true, "BYTES_IN....10", ""))), None);
    assert_eq!(fetch_session_stats(Err("missing".to_string())), None);
}

#[test]
fn tunnel_address_is_parsed_from_a_run_that_ended_well() {
    let shown = "    inet 10.8.0.6/24 brd 10.8.0.255 scope global tun0";
    assert_eq!(find_tunnel_ip(Ok(captured(true, shown, ""))), Some("10.8.0.6".to_string()));
    assert_eq!(find_tunnel_ip(Ok(captured(false, shown, ""))), None);
    assert_eq!(find_tunnel_ip(Err("missing".to_string())), None);
}

#[test]
fn challenge_answer_gives_output_or_reason() {
    assert_eq!(submit_challenge(Ok(captured(true, "ok", "warn"))), Ok("ok".to_string()));
    assert_eq!(submit_challenge(Ok(captured(false, "ok", "bad code"))), Err("bad code".to_string()));
    assert_eq!(
        submit_challenge(Err("broken pipe".to_string())),
        Err("Failed to submit: broken pipe".to_string())
    );
}

#[test]
fn session_listing_shows_whichever_stream_applies() {
    assert_eq!(list_sessions(Ok(captured(true, "out", "err"))), "out");
    assert_eq!(list_sessions(Ok(captured(false, "out", "err"))), "err");
    assert_eq!(list_sessions(Err("missing".to_string())), "Failed to list sessions: missing");
}

#[test]
fn public_address_lookup_walks_the_services() {
    assert_eq!(fetch_public_ip(), IpLookup::Ask(0));
    assert_eq!(public_ip_service(0), "https://api.ipify.org");
    assert_eq!(public_ip_service(1), "https://ifconfig.me/ip");
    assert_eq!(public_ip_service(2), "https://icanhazip.com");
    assert_eq!(public_ip_next(0, None), IpLookup::Ask(1));
    assert_eq!(public_ip_next(0, Some("  \n".to_string())), IpLookup::Ask(1));
    assert_eq!(public_ip_next(1, Some(String::new())), IpLookup::Ask(2));
    assert_eq!(public_ip_next(2, None), IpLookup::GiveUp);
    assert_eq!(public_ip_next(usize::MAX, None), IpLookup::GiveUp);
    assert_eq!(
        public_ip_next(1, Some(" 203.0.113.7\n".to_string())),
        IpLookup::Found("203.0.113.7".to_string())
    );
    assert_eq!(
        public_ip_next(2, Some("203.0.113.7".to_string())),
        IpLookup::Found("203.0.113.7".to_string())
    );
}
