//! The log and the session report as files.

use vstd::prelude::*;
use vstd::string::*;
use crate::app::{GuiView, OpenVpnGui};
use crate::models::{Command, CommandView, command_views};
use crate::text::{decimal, decimal_repr, join, joined, two_digit_repr, two_digits};

verus! {

/// The time since the connection as hours, minutes and seconds.
pub open spec fn duration_text(elapsed: Option<u64>) -> Seq<char> {
    match elapsed {
        Some(secs) => two_digit_repr((secs / 3600) as nat) + ":"@ + two_digit_repr(
            ((secs % 3600) / 60) as nat,
        ) + ":"@ + two_digit_repr((secs % 60) as nat),
        None => "-"@,
    }
}

/// The last `count` lines of a log, or all of it where it is shorter.
pub open spec fn last_lines(logs: Seq<Seq<char>>, count: nat) -> Seq<Seq<char>> {
    if logs.len() > count {
        logs.subrange(logs.len() - count, logs.len() as int)
    } else {
        logs
    }
}

/// The name of a file that is written at the time `file_stamp`.
pub open spec fn stamped_name(prefix: Seq<char>, file_stamp: Seq<char>) -> Seq<char> {
    prefix + file_stamp + ".txt"@
}

impl GuiView {
    /// The text of the session report.
    pub open spec fn report(self, elapsed: Option<u64>) -> Seq<char> {
        "OpenVPN3 Session Report\nConfig: "@ + (match self.config_path {
            Some(config) => config,
            None => "-"@,
        }) + "\nDuration: "@ + duration_text(elapsed) + "\nTunnel IP: "@ + self.tunnel_ip
            + "\nPublic IP: "@ + self.public_ip + "\nBytes In: "@ + decimal_repr(
            self.stats.bytes_in as nat,
        ) + "\nBytes Out: "@ + decimal_repr(self.stats.bytes_out as nat) + "\nLog Excerpt:\n"@
            + joined(last_lines(self.logs, 20), "\n"@) + "\n"@
    }

    /// The seconds since the connection that a report or a tooltip shows:
    /// none while no connection is timed.
    pub open spec fn shown_elapsed(self, elapsed: Option<u64>) -> Option<u64> {
        if self.connection_start is Some {
            elapsed
        } else {
            None
        }
    }

    /// The command that writes the log to a file named after the time.
    pub open spec fn save_logs_commands(self, file_stamp: Seq<char>) -> Seq<CommandView> {
        seq![
            CommandView::WriteLogs(
                stamped_name("openvpn_logs_"@, file_stamp),
                joined(self.logs, "\n"@),
            ),
        ]
    }

    /// The command that writes the session report to a file named after the
    /// time.
    pub open spec fn save_report_commands(
        self,
        elapsed: Option<u64>,
        file_stamp: Seq<char>,
    ) -> Seq<CommandView> {
        seq![
            CommandView::WriteReport(
                stamped_name("openvpn_session_report_"@, file_stamp),
                self.report(self.shown_elapsed(elapsed)),
            ),
        ]
    }

    /// The state after the log was written, or was not.
    pub open spec fn after_logs_saved(self, result: Result<String, String>, stamp: Seq<char>) -> GuiView {
        match result {
            Ok(name) => self.logged(stamp, "Logs saved to: "@ + name@),
            Err(reason) => self.logged(stamp, "Failed to save logs: "@ + reason@),
        }
    }

    /// The state after the session report was written, or was not.
    pub open spec fn after_report_saved(
        self,
        result: Result<String, String>,
        stamp: Seq<char>,
    ) -> GuiView {
        match result {
            Ok(path) => self.logged(stamp, "Session report saved to: "@ + path@),
            Err(reason) => self.logged(stamp, "Failed to save session report: "@ + reason@),
        }
    }
}

impl OpenVpnGui {
    /// The log as one text, a line each.
    pub fn logs_text(&self) -> (text: String)
        ensures
            text@ == joined(self@.logs, "\n"@),
    {
        join(&self.logs, "\n")
    }

    /// The user asks for the log in a file.
    pub fn handle_save_logs(&self, file_stamp: &str) -> (cmds: Vec<Command>)
        ensures
            command_views(cmds@) == self@.save_logs_commands(file_stamp@),
    {
        let name = String::from_str("openvpn_logs_").concat(file_stamp).concat(".txt");
        let mut cmds: Vec<Command> = Vec::new();
        cmds.push(Command::WriteLogs(name, self.logs_text()));
        proof {
            assert(command_views(cmds@) =~= self@.save_logs_commands(file_stamp@));
        }
        cmds
    }

    /// The log was written, or was not.
    pub fn handle_logs_saved(&mut self, result: Result<String, String>, stamp: &str)
        ensures
            final(self)@ == old(self)@.after_logs_saved(result, stamp@),
    {
        match result {
            Ok(name) => self.log_detail(stamp, "Logs saved to: ", name.as_str()),
            Err(e) => self.log_detail(stamp, "Failed to save logs: ", e.as_str()),
        }
    }

    /// The session report: the configuration, the time since the connection,
    /// both addresses, both counters and the last twenty lines of the log.
    pub fn session_report(&self, elapsed: Option<u64>) -> (text: String)
        ensures
            text@ == self@.report(elapsed),
    {
        let config = match &self.config_path {
            Some(c) => c.clone(),
            None => String::from_str("-"),
        };
        let duration = match elapsed {
            Some(secs) => two_digits(secs / 3600).concat(":").concat(
                two_digits((secs % 3600) / 60).as_str(),
            ).concat(":").concat(two_digits(secs % 60).as_str()),
            None => String::from_str("-"),
        };
        let mut excerpt: Vec<String> = Vec::new();
        let start: usize = if self.logs.len() > 20 {
            self.logs.len() - 20
        } else {
            0
        };
        let mut i: usize = start;
        while i < self.logs.len()
            invariant
                start <= i <= self.logs.len(),
                excerpt.deep_view() == self.logs.deep_view().subrange(start as int, i as int),
            decreases self.logs.len() - i,
        {
            let ghost before = excerpt.deep_view();
            excerpt.push(self.logs[i].clone());
            proof {
                assert(excerpt.deep_view() =~= before.push(self.logs[i as int]@));
                assert(excerpt.deep_view() =~= self.logs.deep_view().subrange(
                    start as int,
                    i as int + 1,
                ));
            }
            i = i + 1;
        }
        proof {
            let logs = self.logs.deep_view();
            assert(logs.subrange(0, logs.len() as int) =~= logs);
            assert(excerpt.deep_view() == last_lines(logs, 20));
        }
        String::from_str("OpenVPN3 Session Report\nConfig: ").concat(config.as_str()).concat(
            "\nDuration: ",
        ).concat(duration.as_str()).concat("\nTunnel IP: ").concat(self.tunnel_ip.as_str()).concat(
            "\nPublic IP: ",
        ).concat(self.public_ip.as_str()).concat("\nBytes In: ").concat(
            decimal(self.stats.bytes_in).as_str(),
        ).concat("\nBytes Out: ").concat(decimal(self.stats.bytes_out).as_str()).concat(
            "\nLog Excerpt:\n",
        ).concat(join(&excerpt, "\n").as_str()).concat("\n")
    }

    /// The user asks for the session report in a file, `elapsed` seconds
    /// after the connection.
    pub fn handle_save_session_report(&self, elapsed: Option<u64>, file_stamp: &str) -> (cmds: Vec<
        Command,
    >)
        ensures
            command_views(cmds@) == self@.save_report_commands(elapsed, file_stamp@),
    {
        let shown: Option<u64> = if self.connection_start.is_some() {
            elapsed
        } else {
            None
        };
        let name = String::from_str("openvpn_session_report_").concat(file_stamp).concat(".txt");
        let mut cmds: Vec<Command> = Vec::new();
        cmds.push(Command::WriteReport(name, self.session_report(shown)));
        proof {
            assert(command_views(cmds@) =~= self@.save_report_commands(elapsed, file_stamp@));
        }
        cmds
    }

    /// The session report was written, or was not.
    pub fn handle_report_saved(&mut self, result: Result<String, String>, stamp: &str)
        ensures
            final(self)@ == old(self)@.after_report_saved(result, stamp@),
    {
        match result {
            Ok(path) => self.log_detail(stamp, "Session report saved to: ", path.as_str()),
            Err(e) => self.log_detail(stamp, "Failed to save session report: ", e.as_str()),
        }
    }
}

} // verus!
