//! The connection's state, the traffic figures and the messages that drive
//! the supervisor.

use vstd::prelude::*;
use std::time::Instant;

verus! {

/// A reading of the monotonic clock. Nothing is known of its value: it is
/// kept and handed back to the clock.
#[verifier::external_type_specification]
#[verifier::external_body]
pub struct ExInstant(std::time::Instant);

/// Where the supervised session stands.
#[derive(Debug, Clone, Copy, PartialEq, Eq, Structural)]
pub enum ConnectionState {
    Disconnected,
    Connecting,
    Connected,
}

/// The cumulative byte counters last read and the rates derived from the
/// last two readings, in bytes per interval.
#[derive(Debug, Clone, Copy, PartialEq, Eq, Structural)]
pub struct NetworkStats {
    pub bytes_in: u64,
    pub bytes_out: u64,
    pub rate_in: u64,
    pub rate_out: u64,
}

impl Default for NetworkStats {
    fn default() -> (stats: Self)
        ensures
            stats == NetworkStats::zero(),
    {
        Self { bytes_in: 0, bytes_out: 0, rate_in: 0, rate_out: 0 }
    }
}

impl NetworkStats {
    /// The figures of a session that has moved nothing.
    pub open spec fn zero() -> NetworkStats {
        NetworkStats { bytes_in: 0, bytes_out: 0, rate_in: 0, rate_out: 0 }
    }

    /// The rate of one direction over one interval: the growth of the
    /// counter, or zero where the counter fell back.
    pub open spec fn rate(previous: u64, total: u64) -> u64 {
        if total >= previous {
            (total - previous) as u64
        } else {
            0
        }
    }

    /// The figures after a new pair of cumulative counters was read.
    pub open spec fn advanced(self, total_in: u64, total_out: u64) -> NetworkStats {
        NetworkStats {
            bytes_in: total_in,
            bytes_out: total_out,
            rate_in: Self::rate(self.bytes_in, total_in),
            rate_out: Self::rate(self.bytes_out, total_out),
        }
    }

    /// Takes a new pair of cumulative counters: each rate becomes the growth
    /// since the last pair, zero where a counter fell back, and the new pair
    /// is the baseline of the next interval. Returns the two rates.
    pub fn update(&mut self, total_in: u64, total_out: u64) -> (rates: (u64, u64))
        ensures
            *final(self) == old(self).advanced(total_in, total_out),
            rates == (final(self).rate_in, final(self).rate_out),
    {
        let diff_in: u64 = if total_in >= self.bytes_in {
            total_in - self.bytes_in
        } else {
            0
        };
        let diff_out: u64 = if total_out >= self.bytes_out {
            total_out - self.bytes_out
        } else {
            0
        };
        self.bytes_in = total_in;
        self.bytes_out = total_out;
        self.rate_in = diff_in;
        self.rate_out = diff_out;
        (diff_in, diff_out)
    }
}

/// Of two pairs of counters taken one after the other, where a counter of
/// the second pair is below that of the first, the rate of that direction is
/// zero for the interval and the lower value is the new baseline; where it
/// is not below, the rate is the growth.
pub proof fn lemma_counter_regression(
    stats: NetworkStats,
    first: (u64, u64),
    second: (u64, u64),
)
    ensures
        ({
            let after = stats.advanced(first.0, first.1).advanced(second.0, second.1);
            &&& after.bytes_in == second.0
            &&& after.bytes_out == second.1
            &&& second.0 < first.0 ==> after.rate_in == 0
            &&& second.1 < first.1 ==> after.rate_out == 0
            &&& second.0 >= first.0 ==> after.rate_in == second.0 - first.0
            &&& second.1 >= first.1 ==> after.rate_out == second.1 - first.1
        }),
{
}

/// What the supervisor is told: a tick of the timer, an intent of the user,
/// or the outcome of a command that it asked for.
#[derive(Debug)]
pub enum Message {
    Tick(Instant),
    BrowseConfig,
    ConfigPathSelected(Option<String>),
    ToggleVpn,
    /// The listing read after the start, and the session path.
    VpnStarted(Result<(String, String), String>),
    VpnStopped(Result<String, String>),
    /// The cumulative bytes received and sent.
    StatsUpdated(Option<(u64, u64)>),
    SessionStatusChecked(Option<String>),
    TunnelIpFound(Option<String>),
    PublicIpFound(Option<String>),
    SaveLogs,
    SaveSessionReport,
    /// The name under which the log was written, or why it was not.
    LogsSaved(Result<String, String>),
    /// The path under which the report was written, or why it was not.
    SessionReportSaved(Result<String, String>),
    ToggleGraph(bool),
    ToggleAutoReconnect(bool),
    InputCodeChanged(String),
    SubmitCode,
    AuthCodeResult(Result<String, String>),
    ShowAbout,
    CloseAbout,
    SelectRecentConfig(String),
    ClearRecentConfigs,
    ShowSessions,
    SessionsListed(String),
    CloseSessions,
    LatencyChecked(Option<u32>),
    /// `None` follows the system, `Some(true)` is dark, `Some(false)` light.
    SetTheme(Option<bool>),
}

/// What the supervisor asks its host to do. The outcome of a command comes
/// back as a `Message`.
#[derive(Debug, PartialEq, Eq)]
pub enum Command {
    PickFile,
    StartVpn(String),
    StopVpnByPath(String),
    StopVpnByConfig(String),
    CheckSessionStatus(String),
    FetchSessionStats(String),
    FindTunnelIp,
    FetchPublicIp,
    PingLatency,
    /// The session path and the code.
    SubmitChallenge(String, String),
    ListSessions,
    /// A desktop notification with this body.
    Notify(String),
    /// The list of recent configurations, one per line.
    SaveRecentConfigs(String),
    /// The file's name and its contents.
    WriteLogs(String, String),
    /// The file's name and its contents.
    WriteReport(String, String),
}

/// A command with its texts as sequences of characters.
pub enum CommandView {
    PickFile,
    StartVpn(Seq<char>),
    StopVpnByPath(Seq<char>),
    StopVpnByConfig(Seq<char>),
    CheckSessionStatus(Seq<char>),
    FetchSessionStats(Seq<char>),
    FindTunnelIp,
    FetchPublicIp,
    PingLatency,
    SubmitChallenge(Seq<char>, Seq<char>),
    ListSessions,
    Notify(Seq<char>),
    SaveRecentConfigs(Seq<char>),
    WriteLogs(Seq<char>, Seq<char>),
    WriteReport(Seq<char>, Seq<char>),
}

impl View for Command {
    type V = CommandView;

    open spec fn view(&self) -> CommandView {
        match self {
            Command::PickFile => CommandView::PickFile,
            Command::StartVpn(config) => CommandView::StartVpn(config@),
            Command::StopVpnByPath(path) => CommandView::StopVpnByPath(path@),
            Command::StopVpnByConfig(config) => CommandView::StopVpnByConfig(config@),
            Command::CheckSessionStatus(path) => CommandView::CheckSessionStatus(path@),
            Command::FetchSessionStats(path) => CommandView::FetchSessionStats(path@),
            Command::FindTunnelIp => CommandView::FindTunnelIp,
            Command::FetchPublicIp => CommandView::FetchPublicIp,
            Command::PingLatency => CommandView::PingLatency,
            Command::SubmitChallenge(path, code) => CommandView::SubmitChallenge(path@, code@),
            Command::ListSessions => CommandView::ListSessions,
            Command::Notify(body) => CommandView::Notify(body@),
            Command::SaveRecentConfigs(lines) => CommandView::SaveRecentConfigs(lines@),
            Command::WriteLogs(name, contents) => CommandView::WriteLogs(name@, contents@),
            Command::WriteReport(name, contents) => CommandView::WriteReport(name@, contents@),
        }
    }
}

/// The views of a list of commands, in order.
pub open spec fn command_views(commands: Seq<Command>) -> Seq<CommandView> {
    Seq::new(commands.len(), |i: int| commands[i]@)
}

} // verus!
