//! The life cycle of a session: its start, its stop, and the code that its
//! authentication may ask for.

use vstd::prelude::*;
use vstd::string::*;
use crate::app::{GuiView, OpenVpnGui, copy_text};
use crate::models::{Command, CommandView, ConnectionState, command_views};
use crate::text::{contains, is_substring};

verus! {

/// Whether the output of a start asks for a code.
pub open spec fn start_asks_code(output: Seq<char>) -> bool {
    is_substring("CHALLENGE"@, output) || is_substring("password"@, output) || is_substring(
        "Authentication"@,
        output,
    )
}

/// Whether the output of a start waits for the browser.
pub open spec fn start_awaits_browser(output: Seq<char>) -> bool {
    is_substring("AUTH_PENDING"@, output) || is_substring("Web based authentication"@, output)
        || is_substring("awaiting external authentication"@, output)
}

impl GuiView {
    /// The state after the user asked to connect or to disconnect.
    pub open spec fn after_toggle(self, stamp: Seq<char>) -> GuiView {
        match self.state {
            ConnectionState::Disconnected => match self.config_path {
                Some(config) => (GuiView { state: ConnectionState::Connecting, ..self }).logged(
                    stamp,
                    "Starting VPN with "@ + config,
                ),
                None => self.logged(stamp, "No config selected."@),
            },
            _ => match self.session_path {
                Some(path) => self.logged(stamp, "Disconnecting..."@),
                None => self,
            },
        }
    }

    /// What the user's request to connect or to disconnect asks for: a start
    /// with the configuration; a stop by the session path, or by the
    /// configuration where no path is known.
    pub open spec fn toggle_commands(self) -> Seq<CommandView> {
        match self.state {
            ConnectionState::Disconnected => match self.config_path {
                Some(config) => seq![CommandView::StartVpn(config)],
                None => Seq::empty(),
            },
            _ => match self.session_path {
                Some(path) => seq![CommandView::StopVpnByPath(path)],
                None => match self.config_path {
                    Some(config) => seq![CommandView::StopVpnByConfig(config)],
                    None => Seq::empty(),
                },
            },
        }
    }

    /// The state after a start came back.
    pub open spec fn after_started(
        self,
        result: Result<(String, String), String>,
        stamp: Seq<char>,
    ) -> GuiView {
        match result {
            Ok((output, path)) => {
                let initiated = self.logged(
                    stamp,
                    "VPN session initiated. Waiting for authentication..."@,
                );
                let asked = if start_asks_code(output@) {
                    (GuiView { is_asking_2fa: true, ..initiated }).logged(
                        stamp,
                        "Authentication required - please enter your code"@,
                    )
                } else {
                    initiated
                };
                let noted = if start_awaits_browser(output@) {
                    asked.logged(stamp, "Waiting for SSO authentication in browser..."@)
                } else {
                    asked
                };
                GuiView {
                    session_path: Some(path@),
                    state: ConnectionState::Connecting,
                    ..noted
                }
            },
            Err(reason) => GuiView {
                state: ConnectionState::Disconnected,
                session_path: None,
                is_asking_2fa: false,
                ..self.logged(stamp, "Failed to start: "@ + reason@)
            },
        }
    }

    /// The state after a stop came back: the outcome is logged and the
    /// connection cleaned up, whatever the outcome.
    pub open spec fn after_stopped(self, result: Result<String, String>, stamp: Seq<char>) -> GuiView {
        match result {
            Ok(confirmation) => self.logged(stamp, confirmation@).cleaned(),
            Err(reason) => self.logged(stamp, "Error stopping: "@ + reason@).cleaned(),
        }
    }

    /// The state after the user sent the code.
    pub open spec fn after_submit(self, stamp: Seq<char>) -> GuiView {
        match self.session_path {
            Some(path) => self.logged(stamp, "Submitting challenge response: "@ + self.input_code),
            None => self,
        }
    }

    /// What sending the code asks for: the code goes to the session held.
    pub open spec fn submit_commands(self) -> Seq<CommandView> {
        match self.session_path {
            Some(path) => seq![CommandView::SubmitChallenge(path, self.input_code)],
            None => Seq::empty(),
        }
    }

    /// The state after the client answered the code.
    pub open spec fn after_auth_result(self, result: Result<String, String>, stamp: Seq<char>) -> GuiView {
        match result {
            Ok(output) => GuiView {
                input_code: Seq::empty(),
                is_asking_2fa: false,
                ..self.logged(stamp, "Auth Result: "@ + output@)
            },
            Err(reason) => self.logged(stamp, "Auth Error: "@ + reason@),
        }
    }
}

impl OpenVpnGui {
    /// The user asks to connect or to disconnect.
    pub fn handle_toggle_vpn(&mut self, stamp: &str) -> (cmds: Vec<Command>)
        ensures
            final(self)@ == old(self)@.after_toggle(stamp@),
            command_views(cmds@) == old(self)@.toggle_commands(),
    {
        let mut cmds: Vec<Command> = Vec::new();
        let config = copy_text(&self.config_path);
        let session = copy_text(&self.session_path);
        match self.state {
            ConnectionState::Disconnected => match config {
                Some(cfg) => {
                    self.state = ConnectionState::Connecting;
                    self.log_detail(stamp, "Starting VPN with ", cfg.as_str());
                    cmds.push(Command::StartVpn(cfg));
                },
                None => {
                    self.log_at(stamp, "No config selected.");
                },
            },
            _ => match session {
                Some(path) => {
                    self.log_at(stamp, "Disconnecting...");
                    cmds.push(Command::StopVpnByPath(path));
                },
                None => match config {
                    Some(cfg) => {
                        cmds.push(Command::StopVpnByConfig(cfg));
                    },
                    None => {},
                },
            },
        }
        proof {
            assert(command_views(cmds@) =~= old(self)@.toggle_commands());
        }
        cmds
    }

    /// A start came back.
    pub fn handle_vpn_started(&mut self, result: Result<(String, String), String>, stamp: &str)
        ensures
            final(self)@ == old(self)@.after_started(result, stamp@),
    {
        match result {
            Ok((output, session_path)) => {
                self.log_at(stamp, "VPN session initiated. Waiting for authentication...");
                if contains(output.as_str(), "CHALLENGE") || contains(output.as_str(), "password")
                    || contains(output.as_str(), "Authentication") {
                    self.is_asking_2fa = true;
                    self.log_at(stamp, "Authentication required - please enter your code");
                }
                if contains(output.as_str(), "AUTH_PENDING") || contains(
                    output.as_str(),
                    "Web based authentication",
                ) || contains(output.as_str(), "awaiting external authentication") {
                    self.log_at(stamp, "Waiting for SSO authentication in browser...");
                }
                self.session_path = Some(session_path);
                self.state = ConnectionState::Connecting;
            },
            Err(e) => {
                self.log_detail(stamp, "Failed to start: ", e.as_str());
                self.state = ConnectionState::Disconnected;
                self.session_path = None;
                self.is_asking_2fa = false;
            },
        }
    }

    /// A stop came back.
    pub fn handle_vpn_stopped(&mut self, result: Result<String, String>, stamp: &str) -> (cmds: Vec<
        Command,
    >)
        ensures
            final(self)@ == old(self)@.after_stopped(result, stamp@),
            command_views(cmds@) == seq![CommandView::Notify("VPN Disconnected."@)],
    {
        match result {
            Ok(msg) => {
                self.log_at(stamp, msg.as_str());
            },
            Err(e) => {
                self.log_detail(stamp, "Error stopping: ", e.as_str());
            },
        }
        self.cleanup_connection();
        let mut cmds: Vec<Command> = Vec::new();
        cmds.push(Command::Notify(String::from_str("VPN Disconnected.")));
        proof {
            assert(command_views(cmds@) =~= seq![CommandView::Notify("VPN Disconnected."@)]);
        }
        cmds
    }

    /// The user sends the code.
    pub fn handle_submit_code(&mut self, stamp: &str) -> (cmds: Vec<Command>)
        ensures
            final(self)@ == old(self)@.after_submit(stamp@),
            command_views(cmds@) == old(self)@.submit_commands(),
    {
        let mut cmds: Vec<Command> = Vec::new();
        let session = copy_text(&self.session_path);
        match session {
            Some(path) => {
                let code = self.input_code.clone();
                self.log_detail(stamp, "Submitting challenge response: ", code.as_str());
                cmds.push(Command::SubmitChallenge(path, code));
            },
            None => {},
        }
        proof {
            assert(command_views(cmds@) =~= old(self)@.submit_commands());
        }
        cmds
    }

    /// The client answered the code.
    pub fn handle_auth_result(&mut self, res: Result<String, String>, stamp: &str)
        ensures
            final(self)@ == old(self)@.after_auth_result(res, stamp@),
    {
        match res {
            Ok(out) => {
                self.log_detail(stamp, "Auth Result: ", out.as_str());
                self.input_code = String::new();
                self.is_asking_2fa = false;
            },
            Err(e) => {
                self.log_detail(stamp, "Auth Error: ", e.as_str());
            },
        }
    }
}

/// A request to connect without a configuration changes neither the state
/// nor the session and asks for nothing; with a configuration the state
/// becomes `Connecting` and the start is asked for; and the start that comes
/// back well assigns the session path it brings.
pub proof fn lemma_start_needs_config(
    state: GuiView,
    stamp: Seq<char>,
    output: String,
    path: String,
)
    requires
        state.state == ConnectionState::Disconnected,
    ensures
        state.config_path is None ==> state.after_toggle(stamp).state
            == ConnectionState::Disconnected && state.after_toggle(stamp).session_path
            == state.session_path && state.toggle_commands() == Seq::<CommandView>::empty(),
        state.config_path is Some ==> state.after_toggle(stamp).state
            == ConnectionState::Connecting && state.toggle_commands() == seq![
            CommandView::StartVpn(state.config_path.unwrap()),
        ],
        state.after_toggle(stamp).after_started(Ok((output, path)), stamp).state
            == ConnectionState::Connecting,
        state.after_toggle(stamp).after_started(Ok((output, path)), stamp).session_path == Some(
            path@,
        ),
{
}

} // verus!
