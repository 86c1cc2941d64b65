//! The supervisor: the state of the one session, its log, and the rule by
//! which each message changes it.

use vstd::prelude::*;
use vstd::string::*;
use std::time::Instant;
use circular_queue::CircularQueue;
use crate::clock::{Clock, ClockView, read_clock};
use crate::models::{Command, CommandView, ConnectionState, Message, NetworkStats, command_views};
use crate::recent::recent_with;
use crate::tray::{SystemTray, TrayView};
use crate::ui::graph::{GRAPH_WINDOW, queue_capacity, queue_items, zero_history, zeroed_history};

verus! {

/// The seconds between two ticks of the timer.
pub const TICK_SECONDS: u64 = 1;

/// The number of log lines that are kept; the oldest leave first.
pub const LOG_CAPACITY: usize = 1000;

/// The state of the supervisor.
pub struct OpenVpnGui {
    pub state: ConnectionState,
    pub config_path: Option<String>,
    pub session_path: Option<String>,
    pub logs: Vec<String>,
    /// The configurations used last, the most recent first.
    pub recent_configs: Vec<String>,
    pub stats: NetworkStats,
    /// The rates of the last ticks, the newest first.
    pub graph_data_in: CircularQueue<u64>,
    pub graph_data_out: CircularQueue<u64>,
    pub show_graph: bool,
    pub connection_start: Option<Instant>,
    pub tunnel_ip: String,
    pub public_ip: String,
    /// Stored and toggled; nothing acts on it.
    pub auto_reconnect: bool,
    pub input_code: String,
    pub is_asking_2fa: bool,
    pub show_about: bool,
    pub tray: Option<SystemTray>,
    pub session_list: Option<String>,
    pub latency_ms: Option<u32>,
}

/// The supervisor's state as mathematical values.
pub struct GuiView {
    pub state: ConnectionState,
    pub config_path: Option<Seq<char>>,
    pub session_path: Option<Seq<char>>,
    pub logs: Seq<Seq<char>>,
    pub recent_configs: Seq<Seq<char>>,
    pub stats: NetworkStats,
    pub graph_in: Seq<u64>,
    pub graph_out: Seq<u64>,
    pub window_in: nat,
    pub window_out: nat,
    pub show_graph: bool,
    pub connection_start: Option<Instant>,
    pub tunnel_ip: Seq<char>,
    pub public_ip: Seq<char>,
    pub auto_reconnect: bool,
    pub input_code: Seq<char>,
    pub is_asking_2fa: bool,
    pub show_about: bool,
    pub tray: Option<TrayView>,
    pub session_list: Option<Seq<char>>,
    pub latency_ms: Option<u32>,
}

/// The view of an optional tray.
pub open spec fn tray_view(tray: Option<SystemTray>) -> Option<TrayView> {
    match tray {
        Some(t) => Some(t@),
        None => None,
    }
}

impl View for OpenVpnGui {
    type V = GuiView;

    open spec fn view(&self) -> GuiView {
        GuiView {
            state: self.state,
            config_path: self.config_path.deep_view(),
            session_path: self.session_path.deep_view(),
            logs: self.logs.deep_view(),
            recent_configs: self.recent_configs.deep_view(),
            stats: self.stats,
            graph_in: queue_items(self.graph_data_in),
            graph_out: queue_items(self.graph_data_out),
            window_in: queue_capacity(self.graph_data_in),
            window_out: queue_capacity(self.graph_data_out),
            show_graph: self.show_graph,
            connection_start: self.connection_start,
            tunnel_ip: self.tunnel_ip@,
            public_ip: self.public_ip@,
            auto_reconnect: self.auto_reconnect,
            input_code: self.input_code@,
            is_asking_2fa: self.is_asking_2fa,
            show_about: self.show_about,
            tray: tray_view(self.tray),
            session_list: self.session_list.deep_view(),
            latency_ms: self.latency_ms,
        }
    }
}

/// A log line: the time of day in square brackets, a blank, the message.
pub open spec fn log_line(stamp: Seq<char>, msg: Seq<char>) -> Seq<char> {
    "["@ + stamp + "] "@ + msg
}

/// A log with one more line at its end; past the capacity the oldest line
/// is dropped.
pub open spec fn appended(logs: Seq<Seq<char>>, line: Seq<char>) -> Seq<Seq<char>> {
    if logs.len() + 1 > LOG_CAPACITY {
        logs.push(line).remove(0)
    } else {
        logs.push(line)
    }
}

/// A copy of an optional text.
pub(crate) fn copy_text(text: &Option<String>) -> (copy: Option<String>)
    ensures
        copy == *text,
{
    match text {
        Some(t) => Some(t.clone()),
        None => None,
    }
}

/// No command.
pub(crate) fn nothing() -> (cmds: Vec<Command>)
    ensures
        command_views(cmds@) == Seq::<CommandView>::empty(),
{
    let cmds: Vec<Command> = Vec::new();
    proof {
        assert(command_views(cmds@) =~= Seq::<CommandView>::empty());
    }
    cmds
}

/// One command.
pub(crate) fn only(command: Command) -> (cmds: Vec<Command>)
    ensures
        command_views(cmds@) == seq![command@],
{
    let mut cmds: Vec<Command> = Vec::new();
    cmds.push(command);
    proof {
        assert(command_views(cmds@) =~= seq![command@]);
    }
    cmds
}

impl GuiView {
    /// The state after `msg` was logged at the time `stamp`.
    pub open spec fn logged(self, stamp: Seq<char>, msg: Seq<char>) -> GuiView {
        GuiView { logs: appended(self.logs, log_line(stamp, msg)), ..self }
    }

    /// The state after the connection was cleaned up.
    pub open spec fn cleaned(self) -> GuiView {
        GuiView {
            state: ConnectionState::Disconnected,
            session_path: None,
            connection_start: None,
            tunnel_ip: "-"@,
            stats: NetworkStats::zero(),
            is_asking_2fa: false,
            ..self
        }
    }

    /// A session path is held only while connecting or connected, and a code
    /// is asked for only while connecting.
    pub open spec fn coherent(self) -> bool {
        &&& self.session_path is Some ==> self.state != ConnectionState::Disconnected
        &&& self.is_asking_2fa ==> self.state == ConnectionState::Connecting
    }

    /// The log holds no more lines than its capacity.
    pub open spec fn log_bounded(self) -> bool {
        self.logs.len() <= LOG_CAPACITY
    }

    /// Both histories hold as many samples as the window has places.
    pub open spec fn histories_full(self) -> bool {
        &&& self.window_in == GRAPH_WINDOW
        &&& self.window_out == GRAPH_WINDOW
        &&& self.graph_in.len() == GRAPH_WINDOW
        &&& self.graph_out.len() == GRAPH_WINDOW
    }

    /// The state after a message was taken in, with what the clocks said
    /// when it arrived.
    pub open spec fn step(self, message: Message, clock: ClockView) -> GuiView {
        match message {
            Message::Tick(_) => self.with_tray(clock.elapsed),
            Message::BrowseConfig => self,
            Message::ConfigPathSelected(path) => self.after_config_selected(path, clock.stamp),
            Message::SelectRecentConfig(path) => self.after_select_recent(path@, clock.stamp),
            Message::ClearRecentConfigs => self.after_clear_recent(clock.stamp),
            Message::ToggleVpn => self.after_toggle(clock.stamp),
            Message::VpnStarted(result) => self.after_started(result, clock.stamp),
            Message::VpnStopped(result) => self.after_stopped(result, clock.stamp),
            Message::StatsUpdated(counters) => self.after_stats(counters),
            Message::ToggleGraph(shown) => GuiView { show_graph: shown, ..self },
            Message::ToggleAutoReconnect(wanted) => GuiView { auto_reconnect: wanted, ..self },
            Message::SessionStatusChecked(status) => self.after_status(
                status,
                clock.now,
                clock.stamp,
            ),
            Message::TunnelIpFound(ip) => self.after_tunnel_ip(ip),
            Message::PublicIpFound(ip) => self.after_public_ip(ip),
            Message::SaveLogs => self,
            Message::LogsSaved(result) => self.after_logs_saved(result, clock.stamp),
            Message::InputCodeChanged(code) => GuiView { input_code: code@, ..self },
            Message::SubmitCode => self.after_submit(clock.stamp),
            Message::AuthCodeResult(result) => self.after_auth_result(result, clock.stamp),
            Message::ShowAbout => GuiView { show_about: true, ..self },
            Message::CloseAbout => GuiView { show_about: false, ..self },
            Message::ShowSessions => self,
            Message::SessionsListed(listing) => GuiView { session_list: Some(listing@), ..self },
            Message::CloseSessions => GuiView { session_list: None, ..self },
            Message::SaveSessionReport => self,
            Message::SessionReportSaved(result) => self.after_report_saved(result, clock.stamp),
            Message::LatencyChecked(latency) => GuiView { latency_ms: latency, ..self },
            Message::SetTheme(_) => self,
        }
    }

    /// What a message asks the host to do.
    pub open spec fn step_commands(self, message: Message, clock: ClockView) -> Seq<CommandView> {
        match message {
            Message::Tick(_) => self.tick_commands(),
            Message::BrowseConfig => seq![CommandView::PickFile],
            Message::ConfigPathSelected(path) => match path {
                Some(p) => Self::save_recent(recent_with(self.recent_configs, p@)),
                None => Seq::empty(),
            },
            Message::SelectRecentConfig(path) => Self::save_recent(
                recent_with(self.recent_configs, path@),
            ),
            Message::ClearRecentConfigs => Self::save_recent(Seq::empty()),
            Message::ToggleVpn => self.toggle_commands(),
            Message::VpnStopped(_) => seq![CommandView::Notify("VPN Disconnected."@)],
            Message::SessionStatusChecked(status) => self.status_commands(status),
            Message::SaveLogs => self.save_logs_commands(clock.file_stamp),
            Message::SubmitCode => self.submit_commands(),
            Message::ShowSessions => seq![CommandView::ListSessions],
            Message::SaveSessionReport => self.save_report_commands(
                clock.elapsed,
                clock.file_stamp,
            ),
            _ => Seq::empty(),
        }
    }
}

impl OpenVpnGui {
    /// The supervisor at its start: disconnected, one line in the log, both
    /// histories filled with zeros, the public address not yet known.
    pub fn new(recent_configs: Vec<String>, tray: Option<SystemTray>) -> (app: Self)
        ensures
            app@ == (GuiView {
                state: ConnectionState::Disconnected,
                config_path: None,
                session_path: None,
                logs: seq!["Application started."@],
                recent_configs: recent_configs.deep_view(),
                stats: NetworkStats::zero(),
                graph_in: zero_history(GRAPH_WINDOW as nat),
                graph_out: zero_history(GRAPH_WINDOW as nat),
                window_in: GRAPH_WINDOW as nat,
                window_out: GRAPH_WINDOW as nat,
                show_graph: true,
                connection_start: None,
                tunnel_ip: "-"@,
                public_ip: "Checking..."@,
                auto_reconnect: false,
                input_code: Seq::empty(),
                is_asking_2fa: false,
                show_about: false,
                tray: tray_view(tray),
                session_list: None,
                latency_ms: None,
            }),
            app@.histories_full(),
            app@.coherent(),
            app@.log_bounded(),
    {
        let mut logs: Vec<String> = Vec::new();
        logs.push(String::from_str("Application started."));
        let app = OpenVpnGui {
            state: ConnectionState::Disconnected,
            config_path: None,
            session_path: None,
            logs,
            recent_configs,
            stats: NetworkStats::default(),
            graph_data_in: zeroed_history(GRAPH_WINDOW),
            graph_data_out: zeroed_history(GRAPH_WINDOW),
            show_graph: true,
            connection_start: None,
            tunnel_ip: String::from_str("-"),
            public_ip: String::from_str("Checking..."),
            auto_reconnect: false,
            input_code: String::new(),
            is_asking_2fa: false,
            show_about: false,
            tray,
            session_list: None,
            latency_ms: None,
        };
        proof {
            assert(app.logs.deep_view() =~= seq!["Application started."@]);
        }
        app
    }

    /// Appends a line to the log, stamped with the time of day `stamp`.
    pub fn log_at(&mut self, stamp: &str, msg: &str)
        ensures
            final(self)@ == old(self)@.logged(stamp@, msg@),
    {
        let line = String::from_str("[").concat(stamp).concat("] ").concat(msg);
        self.logs.push(line);
        if self.logs.len() > LOG_CAPACITY {
            let _ = self.logs.remove(0);
        }
        proof {
            assert(self.logs.deep_view() =~= appended(
                old(self).logs.deep_view(),
                log_line(stamp@, msg@),
            ));
        }
    }

    /// Returns every field of the connection to its cleared value: the one
    /// path by which a session ends.
    pub fn cleanup_connection(&mut self)
        ensures
            final(self)@ == old(self)@.cleaned(),
    {
        self.state = ConnectionState::Disconnected;
        self.session_path = None;
        self.connection_start = None;
        self.tunnel_ip = String::from_str("-");
        self.stats = NetworkStats::default();
        self.is_asking_2fa = false;
    }

    /// Logs a message made of a fixed part and a detail.
    pub(crate) fn log_detail(&mut self, stamp: &str, prefix: &str, detail: &str)
        ensures
            final(self)@ == old(self)@.logged(stamp@, prefix@ + detail@),
    {
        let msg = String::from_str(prefix).concat(detail);
        self.log_at(stamp, msg.as_str());
    }

    /// Takes in a message with what the clocks said when it arrived: the
    /// state moves by the rule of the message, and the commands that the
    /// rule asks for are returned.
    pub fn update_at(&mut self, message: Message, clock: &Clock) -> (cmds: Vec<Command>)
        ensures
            final(self)@ == old(self)@.step(message, clock@),
            command_views(cmds@) == old(self)@.step_commands(message, clock@),
    {
        let stamp = clock.stamp.as_str();
        match message {
            Message::Tick(_) => self.handle_tick(clock.elapsed),
            Message::BrowseConfig => only(Command::PickFile),
            Message::ConfigPathSelected(path_opt) => self.handle_config_selected(path_opt, stamp),
            Message::SelectRecentConfig(path) => self.handle_select_recent(path, stamp),
            Message::ClearRecentConfigs => self.handle_clear_recent(stamp),
            Message::ToggleVpn => self.handle_toggle_vpn(stamp),
            Message::VpnStarted(result) => {
                self.handle_vpn_started(result, stamp);
                nothing()
            },
            Message::VpnStopped(result) => self.handle_vpn_stopped(result, stamp),
            Message::StatsUpdated(stats_opt) => {
                self.handle_stats_updated(stats_opt);
                nothing()
            },
            Message::ToggleGraph(val) => {
                self.show_graph = val;
                nothing()
            },
            Message::ToggleAutoReconnect(val) => {
                self.auto_reconnect = val;
                nothing()
            },
            Message::SessionStatusChecked(status_opt) => self.handle_session_status(
                status_opt,
                clock.now,
                stamp,
            ),
            Message::TunnelIpFound(ip) => {
                self.handle_tunnel_ip(ip);
                nothing()
            },
            Message::PublicIpFound(ip) => {
                self.handle_public_ip(ip);
                nothing()
            },
            Message::SaveLogs => self.handle_save_logs(clock.file_stamp.as_str()),
            Message::LogsSaved(result) => {
                self.handle_logs_saved(result, stamp);
                nothing()
            },
            Message::InputCodeChanged(code) => {
                self.input_code = code;
                nothing()
            },
            Message::SubmitCode => self.handle_submit_code(stamp),
            Message::AuthCodeResult(res) => {
                self.handle_auth_result(res, stamp);
                nothing()
            },
            Message::ShowAbout => {
                self.show_about = true;
                nothing()
            },
            Message::CloseAbout => {
                self.show_about = false;
                nothing()
            },
            Message::ShowSessions => only(Command::ListSessions),
            Message::SessionsListed(output) => {
                self.session_list = Some(output);
                nothing()
            },
            Message::CloseSessions => {
                self.session_list = None;
                nothing()
            },
            Message::SaveSessionReport => self.handle_save_session_report(
                clock.elapsed,
                clock.file_stamp.as_str(),
            ),
            Message::SessionReportSaved(result) => {
                self.handle_report_saved(result, stamp);
                nothing()
            },
            Message::LatencyChecked(lat) => {
                self.latency_ms = lat;
                nothing()
            },
            Message::SetTheme(_) => nothing(),
        }
    }

    /// Takes in a message at the moment of the call: reads the clocks and
    /// moves by the rule of the message. Whatever the clocks said, the new
    /// state and the commands are those of the rule for some reading.
    pub fn update(&mut self, message: Message) -> (cmds: Vec<Command>)
        ensures
            exists|clock: ClockView|
                (clock.elapsed is Some <==> old(self)@.connection_start is Some) && final(self)@
                    == #[trigger] old(self)@.step(message, clock) && command_views(cmds@) == old(self)@.step_commands(message, clock),
    {
        let clock = read_clock(self.connection_start);
        let cmds = self.update_at(message, &clock);
        proof {
            assert(self@ == old(self)@.step(message, clock@));
        }
        cmds
    }

    /// Appends a line to the log, stamped with the local time of day.
    pub fn log(&mut self, msg: String)
        ensures
            exists|stamp: Seq<char>| final(self)@ == #[trigger] old(self)@.logged(stamp, msg@),
    {
        let clock = read_clock(None);
        self.log_at(clock.stamp.as_str(), msg.as_str());
        proof {
            assert(self@ == old(self)@.logged(clock.stamp@, msg@));
        }
    }

    /// Brings the tray up to date with the state at the moment of the call.
    pub fn update_tray(&mut self)
        ensures
            exists|elapsed: Option<u64>| final(self)@ == #[trigger] old(self)@.with_tray(elapsed),
    {
        let clock = read_clock(self.connection_start);
        self.update_tray_at(clock.elapsed);
        proof {
            assert(self@ == old(self)@.with_tray(clock.elapsed));
        }
    }
}

/// No message breaks the coherence of the state: after any message a
/// session path is held only while connecting or connected, and a code is
/// asked for only while connecting.
pub proof fn lemma_coherence_is_kept(state: GuiView, message: Message, clock: ClockView)
    requires
        state.coherent(),
    ensures
        state.step(message, clock).coherent(),
{
}

/// A line more leaves a log within its capacity.
pub proof fn lemma_logged_is_bounded(state: GuiView, stamp: Seq<char>, msg: Seq<char>)
    requires
        state.log_bounded(),
    ensures
        state.logged(stamp, msg).log_bounded(),
{
}

/// No message lets the log grow past its capacity.
pub proof fn lemma_log_stays_bounded(state: GuiView, message: Message, clock: ClockView)
    requires
        state.log_bounded(),
    ensures
        state.step(message, clock).log_bounded(),
{
    assert forall|s: GuiView, stamp: Seq<char>, msg: Seq<char>| s.log_bounded() implies (
    #[trigger] s.logged(stamp, msg)).log_bounded() by {
        lemma_logged_is_bounded(s, stamp, msg);
    }
}

/// A push into a full history leaves it full: no message changes the length
/// of a history that fills its window.
pub proof fn lemma_histories_stay_full(state: GuiView, message: Message, clock: ClockView)
    requires
        state.histories_full(),
    ensures
        state.step(message, clock).histories_full(),
{
}

/// Cleaning up returns the session path, the counters and rates, the
/// tunnel's address, the start of the connection and the request for a code
/// to their cleared values from any state, and doing it twice is doing it
/// once. A stop that came back cleans up whatever its outcome.
pub proof fn lemma_cleanup_clears(state: GuiView, result: Result<String, String>, stamp: Seq<char>)
    ensures
        state.cleaned().state == ConnectionState::Disconnected,
        state.cleaned().session_path is None,
        state.cleaned().stats == NetworkStats::zero(),
        state.cleaned().tunnel_ip == "-"@,
        state.cleaned().connection_start is None,
        !state.cleaned().is_asking_2fa,
        state.cleaned().cleaned() == state.cleaned(),
        state.after_stopped(result, stamp).cleaned() == state.after_stopped(result, stamp),
{
}

} // verus!
