//! The session controller: the command lines that drive the client, and
//! what their captured output means.

use vstd::prelude::*;
use vstd::string::*;
use crate::text::{trim, trimmed};
use crate::vpn::parser::{
    captured_group,
    counters_in,
    extract_ip,
    extract_session_path,
    inet_pattern,
    parse_stats,
    regex_capture,
    session_path_in,
    session_prefix,
};

verus! {

/// The seconds that a session is given to settle after its start, before
/// the sessions are listed.
pub const SETTLE_SECONDS: u64 = 3;

/// The seconds that a service is given to tell the public address.
pub const PUBLIC_IP_TIMEOUT_SECONDS: u64 = 5;

/// A command line: the program and its arguments.
#[derive(Debug, PartialEq, Eq)]
pub struct Invocation {
    pub program: String,
    pub args: Vec<String>,
}

/// A command line as sequences of characters.
pub struct InvocationView {
    pub program: Seq<char>,
    pub args: Seq<Seq<char>>,
}

impl View for Invocation {
    type V = InvocationView;

    open spec fn view(&self) -> InvocationView {
        InvocationView { program: self.program@, args: self.args.deep_view() }
    }
}

/// What a command left behind: whether it ended well, and what it wrote.
#[derive(Debug, PartialEq, Eq)]
pub struct Captured {
    pub success: bool,
    pub stdout: String,
    pub stderr: String,
}

/// A call of the client with these arguments.
fn openvpn3(args: Vec<&str>) -> (call: Invocation)
    ensures
        call@.program == "openvpn3"@,
        call@.args == Seq::new(args@.len(), |i: int| args@[i]@),
{
    let mut owned: Vec<String> = Vec::new();
    let mut i: usize = 0;
    while i < args.len()
        invariant
            i <= args.len(),
            owned.deep_view() == Seq::new(i as nat, |k: int| args@[k]@),
        decreases args.len() - i,
    {
        let ghost before = owned.deep_view();
        owned.push(String::from_str(args[i]));
        proof {
            assert(owned.deep_view() =~= before.push(args@[i as int]@));
            assert(owned.deep_view() =~= Seq::new((i + 1) as nat, |k: int| args@[k]@));
        }
        i = i + 1;
    }
    Invocation { program: String::from_str("openvpn3"), args: owned }
}

/// The command that starts a session with a configuration.
pub fn start_command(config_path: &str) -> (call: Invocation)
    ensures
        call@.program == "openvpn3"@,
        call@.args == seq!["session-start"@, "--config"@, config_path@],
{
    let call = openvpn3(vec!["session-start", "--config", config_path]);
    proof {
        assert(call@.args =~= seq!["session-start"@, "--config"@, config_path@]);
    }
    call
}

/// The command that lists the sessions.
pub fn list_command() -> (call: Invocation)
    ensures
        call@.program == "openvpn3"@,
        call@.args == seq!["sessions-list"@],
{
    let call = openvpn3(vec!["sessions-list"]);
    proof {
        assert(call@.args =~= seq!["sessions-list"@]);
    }
    call
}

/// The command that disconnects the session of a path.
pub fn stop_by_path_command(session_path: &str) -> (call: Invocation)
    ensures
        call@.program == "openvpn3"@,
        call@.args == seq![
            "session-manage"@,
            "--session-path"@,
            session_path@,
            "--disconnect"@,
        ],
{
    let call = openvpn3(vec!["session-manage", "--session-path", session_path, "--disconnect"]);
    proof {
        assert(call@.args =~= seq![
            "session-manage"@,
            "--session-path"@,
            session_path@,
            "--disconnect"@,
        ]);
    }
    call
}

/// The command that disconnects the session of a configuration, for when no
/// session path is known.
pub fn stop_by_config_command(config_path: &str) -> (call: Invocation)
    ensures
        call@.program == "openvpn3"@,
        call@.args == seq!["session-manage"@, "--config"@, config_path@, "--disconnect"@],
{
    let call = openvpn3(vec!["session-manage", "--config", config_path, "--disconnect"]);
    proof {
        assert(call@.args =~= seq![
            "session-manage"@,
            "--config"@,
            config_path@,
            "--disconnect"@,
        ]);
    }
    call
}

/// The command that reports the counters of a session.
pub fn stats_command(session_path: &str) -> (call: Invocation)
    ensures
        call@.program == "openvpn3"@,
        call@.args == seq!["session-stats"@, "--session-path"@, session_path@],
{
    let call = openvpn3(vec!["session-stats", "--session-path", session_path]);
    proof {
        assert(call@.args =~= seq!["session-stats"@, "--session-path"@, session_path@]);
    }
    call
}

/// The command that hands a code to a session.
pub fn auth_command(session_path: &str) -> (call: Invocation)
    ensures
        call@.program == "openvpn3"@,
        call@.args == seq!["session-auth"@, "--session-path"@, session_path@],
{
    let call = openvpn3(vec!["session-auth", "--session-path", session_path]);
    proof {
        assert(call@.args =~= seq!["session-auth"@, "--session-path"@, session_path@]);
    }
    call
}

/// The command that shows the tunnel's interface.
pub fn tunnel_ip_command() -> (call: Invocation)
    ensures
        call@.program == "ip"@,
        call@.args == seq!["addr"@, "show"@, "tun0"@],
{
    let mut args: Vec<String> = Vec::new();
    args.push(String::from_str("addr"));
    args.push(String::from_str("show"));
    args.push(String::from_str("tun0"));
    let call = Invocation { program: String::from_str("ip"), args };
    proof {
        assert(call@.args =~= seq!["addr"@, "show"@, "tun0"@]);
    }
    call
}

/// Calls `uuid::Uuid::new_v4` and writes the identifier out with its
/// `Display` form. The identifier is random, so nothing is stated of it.
#[verifier::external_body]
pub(crate) fn random_identifier() -> (id: String) {
    uuid::Uuid::new_v4().to_string()
}

/// The session path to go by after a start: the one that the listing holds,
/// or, where it holds none, a provisional one made of the session prefix and
/// `fresh`.
pub open spec fn path_or_provisional(listing: Seq<char>, fresh: Seq<char>) -> Seq<char> {
    match session_path_in(listing) {
        Some(path) => path,
        None => session_prefix() + fresh,
    }
}

/// Settles the session path after a start, with `fresh` as the identifier
/// of a provisional path.
pub fn session_path_or(listing: &str, fresh: &str) -> (path: String)
    ensures
        path@ == path_or_provisional(listing@, fresh@),
{
    match extract_session_path(listing) {
        Some(path) => path,
        None => String::from_str("/net/openvpn/v3/sessions/").concat(fresh),
    }
}

/// What a start gives, with `fresh` as the identifier of a provisional
/// path: the reason where the client could not be run or the sessions not
/// listed, else the listing and the session path to go by.
pub open spec fn start_result(
    spawned: Result<(), String>,
    listed: Result<Captured, String>,
    fresh: Seq<char>,
    outcome: Result<(String, String), String>,
) -> bool {
    match spawned {
        Err(reason) => outcome is Err && outcome->Err_0@ == "Failed to execute: "@ + reason@,
        Ok(_) => match listed {
            Err(reason) => outcome is Err && outcome->Err_0@ == "Failed to list sessions: "@
                + reason@,
            Ok(captured) => outcome is Ok && outcome->Ok_0.0@ == captured.stdout@
                && outcome->Ok_0.1@ == path_or_provisional(captured.stdout@, fresh),
        },
    }
}

/// Reads the outcome of a start, with `fresh` as the identifier of a
/// provisional path.
pub fn start_vpn_with(
    spawned: Result<(), String>,
    listed: Result<Captured, String>,
    fresh: &str,
) -> (outcome: Result<(String, String), String>)
    ensures
        start_result(spawned, listed, fresh@, outcome),
{
    match spawned {
        Err(e) => Err(String::from_str("Failed to execute: ").concat(e.as_str())),
        Ok(_) => match listed {
            Err(e) => Err(String::from_str("Failed to list sessions: ").concat(e.as_str())),
            Ok(captured) => {
                let session_path = session_path_or(captured.stdout.as_str(), fresh);
                Ok((captured.stdout, session_path))
            },
        },
    }
}

/// Reads the outcome of a start: `spawned` says whether the client could be
/// run, `listed` what the listing of the sessions left behind. Where the
/// listing names no session, the path is a provisional one with a random
/// identifier.
pub fn start_vpn(spawned: Result<(), String>, listed: Result<Captured, String>) -> (outcome:
    Result<(String, String), String>)
    ensures
        exists|fresh: Seq<char>| #[trigger] start_result(spawned, listed, fresh, outcome),
{
    let fresh = random_identifier();
    let outcome = start_vpn_with(spawned, listed, fresh.as_str());
    proof {
        assert(start_result(spawned, listed, fresh@, outcome));
    }
    outcome
}

/// Reads the outcome of a disconnect, by path or by configuration: the
/// confirmation where the client ended well, else what it wrote to its error
/// stream, or why it could not be run.
pub fn stop_vpn(ran: Result<Captured, String>) -> (outcome: Result<String, String>)
    ensures
        match ran {
            Err(reason) => outcome is Err && outcome->Err_0@ == "Failed to execute: "@ + reason@,
            Ok(captured) => if captured.success {
                outcome is Ok && outcome->Ok_0@ == "VPN Disconnected."@
            } else {
                outcome is Err && outcome->Err_0@ == captured.stderr@
            },
        },
{
    match ran {
        Err(e) => Err(String::from_str("Failed to execute: ").concat(e.as_str())),
        Ok(captured) => if captured.success {
            Ok(String::from_str("VPN Disconnected."))
        } else {
            Err(captured.stderr)
        },
    }
}

/// Reads the outcome of a status poll: the listing where the client ran and
/// ended well, whether or not it lists a session; nothing otherwise.
pub fn check_session_status(ran: Result<Captured, String>) -> (status: Option<String>)
    ensures
        match ran {
            Ok(captured) => if captured.success {
                status is Some && status->0@ == captured.stdout@
            } else {
                status is None
            },
            Err(_) => status is None,
        },
{
    match ran {
        Ok(captured) => if captured.success {
            Some(captured.stdout)
        } else {
            None
        },
        Err(_) => None,
    }
}

/// Reads the counters out of the outcome of a statistics report.
pub fn fetch_session_stats(ran: Result<Captured, String>) -> (counters: Option<(u64, u64)>)
    ensures
        counters == (match ran {
            Ok(captured) => if captured.success {
                counters_in(captured.stdout@)
            } else {
                None
            },
            Err(_) => None,
        }),
{
    match ran {
        Ok(captured) => if captured.success {
            parse_stats(captured.stdout.as_str())
        } else {
            None
        },
        Err(_) => None,
    }
}

/// Reads the tunnel's address out of the outcome of the interface listing.
pub fn find_tunnel_ip(ran: Result<Captured, String>) -> (ip: Option<String>)
    ensures
        ip.deep_view() == (match ran {
            Ok(captured) => if captured.success {
                captured_group(regex_capture(inet_pattern(), captured.stdout@, 1))
            } else {
                None
            },
            Err(_) => None,
        }),
{
    match ran {
        Ok(captured) => if captured.success {
            extract_ip(captured.stdout.as_str())
        } else {
            None
        },
        Err(_) => None,
    }
}

/// Reads the outcome of handing a code to the session: what the client
/// wrote where it ended well, else what it wrote to its error stream, or why
/// it could not be run.
pub fn submit_challenge(ran: Result<Captured, String>) -> (outcome: Result<String, String>)
    ensures
        match ran {
            Err(reason) => outcome is Err && outcome->Err_0@ == "Failed to submit: "@ + reason@,
            Ok(captured) => if captured.success {
                outcome is Ok && outcome->Ok_0@ == captured.stdout@
            } else {
                outcome is Err && outcome->Err_0@ == captured.stderr@
            },
        },
{
    match ran {
        Err(e) => Err(String::from_str("Failed to submit: ").concat(e.as_str())),
        Ok(captured) => if captured.success {
            Ok(captured.stdout)
        } else {
            Err(captured.stderr)
        },
    }
}

/// The text to show for a listing of the sessions: the listing where the
/// client ended well, else what it wrote to its error stream, or why it
/// could not be run.
pub fn list_sessions(ran: Result<Captured, String>) -> (shown: String)
    ensures
        shown@ == (match ran {
            Ok(captured) => if captured.success {
                captured.stdout@
            } else {
                captured.stderr@
            },
            Err(reason) => "Failed to list sessions: "@ + reason@,
        }),
{
    match ran {
        Ok(captured) => if captured.success {
            captured.stdout
        } else {
            captured.stderr
        },
        Err(e) => String::from_str("Failed to list sessions: ").concat(e.as_str()),
    }
}

/// The number of services that tell the public address.
pub const PUBLIC_IP_SERVICES: usize = 3;

/// The address of a service that tells the public address; they are asked
/// in the order of their numbers.
pub open spec fn service_url(index: int) -> Seq<char> {
    if index == 0 {
        "https://api.ipify.org"@
    } else if index == 1 {
        "https://ifconfig.me/ip"@
    } else {
        "https://icanhazip.com"@
    }
}

/// The address of the service with a number.
pub fn public_ip_service(index: usize) -> (url: &'static str)
    requires
        index < PUBLIC_IP_SERVICES,
    ensures
        url@ == service_url(index as int),
{
    if index == 0 {
        "https://api.ipify.org"
    } else if index == 1 {
        "https://ifconfig.me/ip"
    } else {
        "https://icanhazip.com"
    }
}

/// Where the lookup of the public address stands.
#[derive(Debug, PartialEq, Eq)]
pub enum IpLookup {
    /// The service with this number is to be asked next.
    Ask(usize),
    /// A service told the address.
    Found(String),
    /// Every service was asked and none told an address.
    GiveUp,
}

/// The lookup of the public address starts with the first service.
pub fn fetch_public_ip() -> (step: IpLookup)
    ensures
        step == IpLookup::Ask(0),
{
    IpLookup::Ask(0)
}

/// The next step of the lookup after the service `asked` answered with
/// `body`, or did not answer: an answer that is not empty once trimmed is the
/// address; otherwise the next service is asked, or the lookup given up
/// after the last.
pub fn public_ip_next(asked: usize, body: Option<String>) -> (step: IpLookup)
    ensures
        match step {
            IpLookup::Found(ip) => body is Some && ip@ == trimmed(body->0@) && ip@.len() > 0,
            IpLookup::Ask(next) => next == asked + 1 && next < PUBLIC_IP_SERVICES,
            IpLookup::GiveUp => asked + 1 >= PUBLIC_IP_SERVICES,
        },
        body is Some && trimmed(body->0@).len() > 0 ==> step is Found,
{
    match body {
        Some(text) => {
            let ip = trim(text.as_str());
            if !ip.is_empty() {
                return IpLookup::Found(String::from_str(ip));
            }
        },
        None => {},
    }
    if asked < PUBLIC_IP_SERVICES - 1 {
        IpLookup::Ask(asked + 1)
    } else {
        IpLookup::GiveUp
    }
}

} // verus!
