//! What a tick asks for, and what the counters and addresses that come back
//! do to the state.

use vstd::prelude::*;
use vstd::string::*;
use crate::app::{GuiView, OpenVpnGui};
use crate::models::{Command, CommandView, ConnectionState, command_views};
use crate::tray::{TrayView, tooltip_text, tray_tooltip};
use crate::ui::graph::{pushed, queue_push};

verus! {

impl GuiView {
    /// The state after the tray was brought up to date, `elapsed` seconds
    /// after the connection.
    pub open spec fn with_tray(self, elapsed: Option<u64>) -> GuiView {
        match self.tray {
            Some(tray) => GuiView {
                tray: Some(
                    TrayView {
                        connected: self.state == ConnectionState::Connected,
                        tooltip: tooltip_text(
                            self.state,
                            if self.connection_start is Some {
                                elapsed
                            } else {
                                None
                            },
                        ),
                    },
                ),
                ..self
            },
            None => self,
        }
    }

    /// What a tick asks for: the status while connecting, the counters while
    /// connected, the tunnel's address while it is unknown, the public
    /// address while it is unknown, and the latency.
    pub open spec fn tick_commands(self) -> Seq<CommandView> {
        (if self.state == ConnectionState::Connecting && self.session_path is Some {
            seq![CommandView::CheckSessionStatus(self.session_path.unwrap())]
        } else {
            Seq::empty()
        }) + (if self.state == ConnectionState::Connected && self.session_path is Some {
            seq![CommandView::FetchSessionStats(self.session_path.unwrap())]
        } else {
            Seq::empty()
        }) + (if self.state == ConnectionState::Connected && self.tunnel_ip == "-"@ {
            seq![CommandView::FindTunnelIp]
        } else {
            Seq::empty()
        }) + (if self.public_ip == "Checking..."@ {
            seq![CommandView::FetchPublicIp]
        } else {
            Seq::empty()
        }) + seq![CommandView::PingLatency]
    }

    /// The state after a pair of cumulative counters came back. A pair that
    /// arrives when no session is held is stale and changes nothing.
    pub open spec fn after_stats(self, counters: Option<(u64, u64)>) -> GuiView {
        match counters {
            Some((total_in, total_out)) => if self.session_path is Some {
                let stats = self.stats.advanced(total_in, total_out);
                GuiView {
                    stats,
                    graph_in: pushed(self.graph_in, self.window_in, stats.rate_in),
                    graph_out: pushed(self.graph_out, self.window_out, stats.rate_out),
                    ..self
                }
            } else {
                self
            },
            None => self,
        }
    }

    /// The state after the lookup of the tunnel's address came back. An
    /// address that arrives when no session is held is stale and is dropped.
    pub open spec fn after_tunnel_ip(self, ip: Option<String>) -> GuiView {
        match ip {
            Some(address) => if self.session_path is Some {
                GuiView { tunnel_ip: address@, ..self }
            } else {
                self
            },
            None => self,
        }
    }

    /// The state after the lookup of the public address came back.
    pub open spec fn after_public_ip(self, ip: Option<String>) -> GuiView {
        match ip {
            Some(address) => GuiView { public_ip: address@, ..self },
            None => self,
        }
    }
}

impl OpenVpnGui {
    /// Brings the tray up to date with the state, `elapsed` seconds after
    /// the connection.
    pub fn update_tray_at(&mut self, elapsed: Option<u64>)
        ensures
            final(self)@ == old(self)@.with_tray(elapsed),
    {
        let connected = self.state == ConnectionState::Connected;
        let shown: Option<u64> = if self.connection_start.is_some() {
            elapsed
        } else {
            None
        };
        let tooltip = tray_tooltip(self.state, shown);
        match &mut self.tray {
            Some(tray) => {
                tray.update_icon(connected);
                tray.update_tooltip(tooltip.as_str());
            },
            None => {},
        }
    }

    /// A tick of the timer, `elapsed` seconds after the connection: brings
    /// the tray up to date and says what to poll.
    pub fn handle_tick(&mut self, elapsed: Option<u64>) -> (cmds: Vec<Command>)
        ensures
            final(self)@ == old(self)@.with_tray(elapsed),
            command_views(cmds@) == old(self)@.tick_commands(),
    {
        let mut cmds: Vec<Command> = Vec::new();
        self.update_tray_at(elapsed);
        if self.state == ConnectionState::Connecting {
            match &self.session_path {
                Some(path) => {
                    cmds.push(Command::CheckSessionStatus(path.clone()));
                },
                None => {},
            }
        }
        if self.state == ConnectionState::Connected {
            match &self.session_path {
                Some(path) => {
                    cmds.push(Command::FetchSessionStats(path.clone()));
                },
                None => {},
            }
        }
        if self.state == ConnectionState::Connected && self.tunnel_ip == String::from_str("-") {
            cmds.push(Command::FindTunnelIp);
        }
        if self.public_ip == String::from_str("Checking...") {
            cmds.push(Command::FetchPublicIp);
        }
        cmds.push(Command::PingLatency);
        proof {
            assert(command_views(cmds@) =~= old(self)@.tick_commands());
        }
        cmds
    }

    /// A pair of cumulative counters came back.
    pub fn handle_stats_updated(&mut self, stats_opt: Option<(u64, u64)>)
        ensures
            final(self)@ == old(self)@.after_stats(stats_opt),
    {
        match stats_opt {
            Some((total_in, total_out)) => {
                if self.session_path.is_some() {
                    let rates = self.stats.update(total_in, total_out);
                    let _ = queue_push(&mut self.graph_data_in, rates.0);
                    let _ = queue_push(&mut self.graph_data_out, rates.1);
                }
            },
            None => {},
        }
    }

    /// The lookup of the tunnel's address came back.
    pub fn handle_tunnel_ip(&mut self, ip: Option<String>)
        ensures
            final(self)@ == old(self)@.after_tunnel_ip(ip),
    {
        match ip {
            Some(address) => {
                if self.session_path.is_some() {
                    self.tunnel_ip = address;
                }
            },
            None => {},
        }
    }

    /// The lookup of the public address came back.
    pub fn handle_public_ip(&mut self, ip: Option<String>)
        ensures
            final(self)@ == old(self)@.after_public_ip(ip),
    {
        match ip {
            Some(address) => {
                self.public_ip = address;
            },
            None => {},
        }
    }
}

/// A pair of counters taken while a session is held moves the figures by
/// the rule of `NetworkStats::advanced`: a counter that fell back gives a
/// rate of zero and becomes the new baseline.
pub proof fn lemma_stats_follow_counters(state: GuiView, total_in: u64, total_out: u64)
    requires
        state.session_path is Some,
    ensures
        state.after_stats(Some((total_in, total_out))).stats == state.stats.advanced(
            total_in,
            total_out,
        ),
        total_in < state.stats.bytes_in ==> state.after_stats(
            Some((total_in, total_out)),
        ).stats.rate_in == 0,
        state.after_stats(Some((total_in, total_out))).stats.bytes_in == total_in,
{
}

} // verus!
