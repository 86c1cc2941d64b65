//! The status poll: what the keywords of a session listing say, and how
//! they move a session that is connecting.

use vstd::prelude::*;
use vstd::string::*;
use std::time::Instant;
use crate::app::{GuiView, OpenVpnGui, nothing};
use crate::models::{Command, CommandView, ConnectionState, command_views};
use crate::text::{
    all_ascii,
    ascii_lower,
    chars_of,
    contains,
    fold_chars,
    is_substring,
    lemma_lower_keeps_occurrence,
    lemma_substring_transitive,
    lowercase_of,
    occurs_at,
    occurs_in,
    only_ascii,
    to_lowercase,
};

verus! {

/// Some line holds `needle`.
pub open spec fn any_line_holds(lines: Seq<Seq<char>>, needle: Seq<char>) -> bool {
    exists|i: int| 0 <= i < lines.len() && is_substring(needle, #[trigger] lines[i])
}

/// What the keywords of a status listing say.
#[derive(Debug, Clone, Copy, PartialEq, Eq, Structural)]
pub struct StatusSignals {
    /// The client reports the connection.
    pub connected: bool,
    /// The client asks for a code.
    pub challenge: bool,
    /// The client waits for an authentication in the browser.
    pub web_auth: bool,
    /// The client reports that the authentication failed.
    pub failed: bool,
}

/// The signals of a listing that was brought to lower case.
pub open spec fn signals_of(lower: Seq<char>) -> StatusSignals {
    StatusSignals {
        connected: is_substring("client connected"@, lower) || is_substring(
            "connection, client connected"@,
            lower,
        ),
        challenge: is_substring("challenge"@, lower) || (is_substring("enter"@, lower)
            && is_substring("token"@, lower)),
        web_auth: is_substring("auth_pending"@, lower) || is_substring(
            "web based authentication"@,
            lower,
        ) || is_substring("awaiting external authentication"@, lower),
        failed: is_substring("auth_failed"@, lower) || is_substring(
            "authentication failed"@,
            lower,
        ),
    }
}

/// The signals that either of two readings gives.
pub open spec fn either(first: StatusSignals, second: StatusSignals) -> StatusSignals {
    StatusSignals {
        connected: first.connected || second.connected,
        challenge: first.challenge || second.challenge,
        web_auth: first.web_auth || second.web_auth,
        failed: first.failed || second.failed,
    }
}

/// The signals of a listing. The keywords are ASCII and are looked for
/// without regard to case: under ASCII case folding, and, where the listing
/// holds other characters, in its full lower-case form too, in which a
/// character of another script may fold to an ASCII letter.
pub open spec fn listing_signals(status: Seq<char>) -> StatusSignals {
    if all_ascii(status) {
        signals_of(ascii_lower(status))
    } else {
        either(signals_of(ascii_lower(status)), signals_of(lowercase_of(status)))
    }
}

/// Whether the characters of a listing hold a keyword.
fn holds(listing: &Vec<char>, keyword: &str) -> (found: bool)
    ensures
        found == is_substring(keyword@, listing@),
{
    occurs_in(listing, &chars_of(keyword))
}

/// Reads the signals out of the characters of a listing that was brought to
/// lower case.
pub fn classify_chars(lower: &Vec<char>) -> (signals: StatusSignals)
    ensures
        signals == signals_of(lower@),
{
    StatusSignals {
        connected: holds(lower, "client connected") || holds(
            lower,
            "connection, client connected",
        ),
        challenge: holds(lower, "challenge") || (holds(lower, "enter") && holds(lower, "token")),
        web_auth: holds(lower, "auth_pending") || holds(lower, "web based authentication")
            || holds(lower, "awaiting external authentication"),
        failed: holds(lower, "auth_failed") || holds(lower, "authentication failed"),
    }
}

/// Reads the signals out of a listing that was brought to lower case.
pub fn classify_status(lower: &str) -> (signals: StatusSignals)
    ensures
        signals == signals_of(lower@),
{
    classify_chars(&chars_of(lower))
}

/// Reads the signals out of a listing.
pub fn read_signals(status: &str) -> (signals: StatusSignals)
    ensures
        signals == listing_signals(status@),
{
    let chars = chars_of(status);
    let folded = classify_chars(&fold_chars(&chars));
    if only_ascii(&chars) {
        folded
    } else {
        let full = classify_status(to_lowercase(status).as_str());
        StatusSignals {
            connected: folded.connected || full.connected,
            challenge: folded.challenge || full.challenge,
            web_auth: folded.web_auth || full.web_auth,
            failed: folded.failed || full.failed,
        }
    }
}

/// Whether any line holds `needle`.
pub fn any_line_contains(lines: &Vec<String>, needle: &str) -> (found: bool)
    ensures
        found == any_line_holds(lines.deep_view(), needle@),
{
    let mut i: usize = 0;
    while i < lines.len()
        invariant
            i <= lines.len(),
            forall|j: int| 0 <= j < i ==> !is_substring(needle@, #[trigger] lines.deep_view()[j]),
        decreases lines.len() - i,
    {
        if contains(lines[i].as_str(), needle) {
            proof {
                assert(lines.deep_view()[i as int] == lines[i as int]@);
            }
            return true;
        }
        proof {
            assert(lines.deep_view()[i as int] == lines[i as int]@);
        }
        i = i + 1;
    }
    false
}

impl GuiView {
    /// The state after the signals of a status listing were weighed while
    /// connecting. The report of the connection comes first and ends the
    /// weighing; then the request for a code, the wait for the browser and
    /// the failure are weighed in this order.
    pub open spec fn after_signals(
        self,
        signals: StatusSignals,
        now: Instant,
        stamp: Seq<char>,
    ) -> GuiView {
        if signals.connected {
            GuiView {
                state: ConnectionState::Connected,
                connection_start: Some(now),
                is_asking_2fa: false,
                ..self.logged(stamp, "VPN Connected Successfully!"@)
            }
        } else {
            let asked = if signals.challenge && !self.is_asking_2fa {
                (GuiView { is_asking_2fa: true, ..self }).logged(
                    stamp,
                    "2FA/Challenge required"@,
                )
            } else {
                self
            };
            let noted = if signals.web_auth && !any_line_holds(
                asked.logs,
                "SSO authentication"@,
            ) {
                asked.logged(stamp, "Complete SSO authentication in your browser..."@)
            } else {
                asked
            };
            if signals.failed {
                GuiView {
                    state: ConnectionState::Disconnected,
                    session_path: None,
                    is_asking_2fa: false,
                    ..noted.logged(stamp, "Authentication failed"@)
                }
            } else {
                noted
            }
        }
    }

    /// What the signals of a status listing ask for: on the report of the
    /// connection a notification and the lookups of both addresses.
    pub open spec fn signal_commands(signals: StatusSignals) -> Seq<CommandView> {
        if signals.connected {
            seq![
                CommandView::Notify("VPN Connected Successfully!"@),
                CommandView::FindTunnelIp,
                CommandView::FetchPublicIp,
            ]
        } else {
            Seq::empty()
        }
    }

    /// Whether a status listing is weighed: only while connecting, and only
    /// where the poll gave a listing.
    pub open spec fn weighs_status(self, status: Option<String>) -> bool {
        self.state == ConnectionState::Connecting && status is Some
    }

    /// The state after a status poll came back.
    pub open spec fn after_status(
        self,
        status: Option<String>,
        now: Instant,
        stamp: Seq<char>,
    ) -> GuiView {
        if self.weighs_status(status) {
            self.after_signals(listing_signals(status.unwrap()@), now, stamp)
        } else {
            self
        }
    }

    /// What a status poll that came back asks for.
    pub open spec fn status_commands(self, status: Option<String>) -> Seq<CommandView> {
        if self.weighs_status(status) {
            Self::signal_commands(listing_signals(status.unwrap()@))
        } else {
            Seq::empty()
        }
    }
}

impl OpenVpnGui {
    /// Weighs the signals of a status listing while connecting.
    pub fn apply_signals(&mut self, signals: StatusSignals, now: Instant, stamp: &str) -> (cmds:
        Vec<Command>)
        ensures
            final(self)@ == old(self)@.after_signals(signals, now, stamp@),
            command_views(cmds@) == GuiView::signal_commands(signals),
    {
        let mut cmds: Vec<Command> = Vec::new();
        if signals.connected {
            self.log_at(stamp, "VPN Connected Successfully!");
            self.state = ConnectionState::Connected;
            self.connection_start = Some(now);
            self.is_asking_2fa = false;
            cmds.push(Command::Notify(String::from_str("VPN Connected Successfully!")));
            cmds.push(Command::FindTunnelIp);
            cmds.push(Command::FetchPublicIp);
            proof {
                assert(command_views(cmds@) =~= GuiView::signal_commands(signals));
            }
            return cmds;
        }
        if signals.challenge && !self.is_asking_2fa {
            self.is_asking_2fa = true;
            self.log_at(stamp, "2FA/Challenge required");
        }
        if signals.web_auth {
            if !any_line_contains(&self.logs, "SSO authentication") {
                self.log_at(stamp, "Complete SSO authentication in your browser...");
            }
        }
        if signals.failed {
            self.log_at(stamp, "Authentication failed");
            self.state = ConnectionState::Disconnected;
            self.session_path = None;
            self.is_asking_2fa = false;
        }
        proof {
            assert(command_views(cmds@) =~= GuiView::signal_commands(signals));
        }
        cmds
    }

    /// A status poll came back.
    pub fn handle_session_status(&mut self, status_opt: Option<String>, now: Instant, stamp: &str) -> (cmds:
        Vec<Command>)
        ensures
            final(self)@ == old(self)@.after_status(status_opt, now, stamp@),
            command_views(cmds@) == old(self)@.status_commands(status_opt),
            old(self)@.weighs_status(status_opt) && is_substring(
                "Client connected, stats"@,
                status_opt.unwrap()@,
            ) ==> final(self)@.state == ConnectionState::Connected && !final(self)@.is_asking_2fa,
            old(self)@.weighs_status(status_opt) && is_substring(
                "AUTH_FAILED"@,
                status_opt.unwrap()@,
            ) && !listing_signals(status_opt.unwrap()@).connected ==> final(self)@.state
                == ConnectionState::Disconnected && final(self)@.session_path is None,
    {
        if self.state != ConnectionState::Connecting {
            return nothing();
        }
        match status_opt {
            Some(status) => {
                let signals = read_signals(status.as_str());
                proof {
                    if is_substring("Client connected, stats"@, status@) {
                        lemma_connected_keyword(status@);
                    }
                    if is_substring("AUTH_FAILED"@, status@) {
                        lemma_failed_keyword(status@);
                    }
                }
                self.apply_signals(signals, now, stamp)
            },
            None => nothing(),
        }
    }
}

/// While connecting, the report of the connection wins over every other
/// signal of the same listing: the state becomes `Connected` from the moment
/// `now` and the request for a code is cleared.
pub proof fn lemma_connected_signal_wins(
    state: GuiView,
    signals: StatusSignals,
    now: Instant,
    stamp: Seq<char>,
)
    requires
        signals.connected,
    ensures
        state.after_signals(signals, now, stamp).state == ConnectionState::Connected,
        state.after_signals(signals, now, stamp).connection_start == Some(now),
        !state.after_signals(signals, now, stamp).is_asking_2fa,
        state.after_signals(signals, now, stamp).session_path == state.session_path,
{
}

/// While connecting, the report of a failed authentication, where the
/// listing does not also report the connection, ends the session: the state
/// becomes `Disconnected`, the session path and the request for a code are
/// cleared.
pub proof fn lemma_failed_signal_disconnects(
    state: GuiView,
    signals: StatusSignals,
    now: Instant,
    stamp: Seq<char>,
)
    requires
        signals.failed,
        !signals.connected,
    ensures
        state.after_signals(signals, now, stamp).state == ConnectionState::Disconnected,
        state.after_signals(signals, now, stamp).session_path is None,
        !state.after_signals(signals, now, stamp).is_asking_2fa,
{
}

/// A listing that holds `Client connected, stats` gives the signal of the
/// connection.
pub proof fn lemma_connected_keyword(status: Seq<char>)
    requires
        is_substring("Client connected, stats"@, status),
    ensures
        listing_signals(status).connected,
{
    reveal_strlit("Client connected, stats");
    reveal_strlit("client connected");
    let keyword = "Client connected, stats"@;
    lemma_lower_keeps_occurrence(keyword, status);
    assert(ascii_lower(keyword).subrange(0, 16) =~= "client connected"@);
    assert(occurs_at("client connected"@, ascii_lower(keyword), 0));
    lemma_substring_transitive("client connected"@, ascii_lower(keyword), ascii_lower(status));
}

/// A listing that holds `AUTH_FAILED` gives the signal of the failed
/// authentication.
pub proof fn lemma_failed_keyword(status: Seq<char>)
    requires
        is_substring("AUTH_FAILED"@, status),
    ensures
        listing_signals(status).failed,
{
    reveal_strlit("AUTH_FAILED");
    reveal_strlit("auth_failed");
    lemma_lower_keeps_occurrence("AUTH_FAILED"@, status);
    assert(ascii_lower("AUTH_FAILED"@) =~= "auth_failed"@);
}

/// From `Connecting`, a listing that holds `Client connected, stats` gives
/// `Connected`, clears the request for a code and asks for the notification
/// and both addresses, whatever else the listing holds.
pub proof fn lemma_connected_listing(
    state: GuiView,
    status: String,
    now: Instant,
    stamp: Seq<char>,
)
    requires
        state.state == ConnectionState::Connecting,
        is_substring("Client connected, stats"@, status@),
    ensures
        state.after_status(Some(status), now, stamp).state == ConnectionState::Connected,
        state.after_status(Some(status), now, stamp).connection_start == Some(now),
        !state.after_status(Some(status), now, stamp).is_asking_2fa,
        state.status_commands(Some(status)) == seq![
            CommandView::Notify("VPN Connected Successfully!"@),
            CommandView::FindTunnelIp,
            CommandView::FetchPublicIp,
        ],
{
    lemma_connected_keyword(status@);
}

/// From `Connecting`, a listing that holds `AUTH_FAILED` and does not
/// report the connection gives `Disconnected` and clears the session path
/// and the request for a code.
pub proof fn lemma_failed_listing(state: GuiView, status: String, now: Instant, stamp: Seq<char>)
    requires
        state.state == ConnectionState::Connecting,
        is_substring("AUTH_FAILED"@, status@),
        !listing_signals(status@).connected,
    ensures
        state.after_status(Some(status), now, stamp).state == ConnectionState::Disconnected,
        state.after_status(Some(status), now, stamp).session_path is None,
        !state.after_status(Some(status), now, stamp).is_asking_2fa,
{
    lemma_failed_keyword(status@);
}

} // verus!
