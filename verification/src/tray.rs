//! What the system tray shows of the session.

use vstd::prelude::*;
use vstd::string::*;
use crate::models::ConnectionState;
use crate::text::{decimal, decimal_repr, two_digit_repr, two_digits};

verus! {

/// What the tray shows: whether the session is up, and the tooltip.
#[derive(Debug, PartialEq, Eq)]
pub struct TrayState {
    pub connected: bool,
    pub tooltip: String,
}

/// A tray state with its tooltip as a sequence of characters.
pub struct TrayView {
    pub connected: bool,
    pub tooltip: Seq<char>,
}

impl View for TrayState {
    type V = TrayView;

    open spec fn view(&self) -> TrayView {
        TrayView { connected: self.connected, tooltip: self.tooltip@ }
    }
}

/// The supervisor's handle on the tray: it writes the state that the tray
/// service shows.
pub struct SystemTray {
    state: TrayState,
}

/// The tray service's side: it reads the state and answers what the desktop
/// asks of a tray item.
pub struct OpenvpnTray {
    state: TrayState,
}

/// The tooltip of a tray that was just made.
pub open spec fn initial_tooltip() -> Seq<char> {
    "OpenVPN3 GUI - Disconnected"@
}

/// The tooltip for a state; for a connected session the time since the
/// connection in minutes and seconds, where it is known.
pub open spec fn tooltip_text(state: ConnectionState, elapsed: Option<u64>) -> Seq<char> {
    match state {
        ConnectionState::Connected => match elapsed {
            Some(secs) => "OpenVPN3 GUI - Connected ("@ + decimal_repr((secs / 60) as nat) + ":"@
                + two_digit_repr((secs % 60) as nat) + ")"@,
            None => "OpenVPN3 GUI - Connected"@,
        },
        ConnectionState::Connecting => "OpenVPN3 GUI - Connecting..."@,
        ConnectionState::Disconnected => "OpenVPN3 GUI - Disconnected"@,
    }
}

/// Writes the tooltip for a state.
pub fn tray_tooltip(state: ConnectionState, elapsed: Option<u64>) -> (text: String)
    ensures
        text@ == tooltip_text(state, elapsed),
{
    match state {
        ConnectionState::Connected => match elapsed {
            Some(secs) => {
                let mins = decimal(secs / 60);
                let rest = two_digits(secs % 60);
                String::from_str("OpenVPN3 GUI - Connected (").concat(mins.as_str()).concat(
                    ":",
                ).concat(rest.as_str()).concat(")")
            },
            None => String::from_str("OpenVPN3 GUI - Connected"),
        },
        ConnectionState::Connecting => String::from_str("OpenVPN3 GUI - Connecting..."),
        ConnectionState::Disconnected => String::from_str("OpenVPN3 GUI - Disconnected"),
    }
}

impl View for SystemTray {
    type V = TrayView;

    closed spec fn view(&self) -> TrayView {
        self.state@
    }
}

impl SystemTray {
    /// A tray that shows a disconnected session.
    pub fn new() -> (tray: Self)
        ensures
            tray@ == (TrayView { connected: false, tooltip: initial_tooltip() }),
    {
        SystemTray {
            state: TrayState {
                connected: false,
                tooltip: String::from_str("OpenVPN3 GUI - Disconnected"),
            },
        }
    }

    /// Sets whether the tray shows the session as up.
    pub fn update_icon(&mut self, connected: bool)
        ensures
            final(self)@ == (TrayView { connected, tooltip: old(self)@.tooltip }),
    {
        self.state.connected = connected;
    }

    /// Sets the tooltip.
    pub fn update_tooltip(&mut self, text: &str)
        ensures
            final(self)@ == (TrayView { connected: old(self)@.connected, tooltip: text@ }),
    {
        self.state.tooltip = String::from_str(text);
    }

    /// A copy of what the tray shows.
    pub fn snapshot(&self) -> (state: TrayState)
        ensures
            state@ == self@,
    {
        TrayState { connected: self.state.connected, tooltip: self.state.tooltip.clone() }
    }
}

impl View for OpenvpnTray {
    type V = TrayView;

    closed spec fn view(&self) -> TrayView {
        self.state@
    }
}

impl OpenvpnTray {
    /// The service's side of a tray that shows `state`.
    pub fn new(state: TrayState) -> (tray: Self)
        ensures
            tray@ == state@,
    {
        OpenvpnTray { state }
    }

    /// The item's title.
    pub fn title(&self) -> (title: String)
        ensures
            title@ == "OpenVPN3 GUI"@,
    {
        String::from_str("OpenVPN3 GUI")
    }

    /// The item's identifier.
    pub fn id(&self) -> (id: String)
        ensures
            id@ == "openvpn3-gui"@,
    {
        String::from_str("openvpn3-gui")
    }

    /// Whether the item is shown as active: while the session is up.
    pub fn is_active(&self) -> (active: bool)
        ensures
            active == self@.connected,
    {
        self.state.connected
    }

    /// The title of the item's tooltip.
    pub fn tool_tip_title(&self) -> (title: String)
        ensures
            title@ == self@.tooltip,
    {
        self.state.tooltip.clone()
    }

    /// The icon's pixels in the order that the tray asks for.
    pub fn icon_pixmap(&self, rgba: &Vec<u8>) -> (argb: Vec<u8>)
        ensures
            argb@ == argb_of(rgba@),
    {
        argb_from_rgba(rgba)
    }
}

/// Pixels of four bytes each, red green blue alpha, reordered to alpha red
/// green blue. Bytes after the last whole pixel are left out.
pub open spec fn argb_of(rgba: Seq<u8>) -> Seq<u8> {
    Seq::new(
        ((rgba.len() / 4) * 4) as nat,
        |i: int|
            if i % 4 == 0 {
                rgba[i + 3]
            } else {
                rgba[i - 1]
            },
    )
}

/// Reorders pixels from red green blue alpha to alpha red green blue.
pub fn argb_from_rgba(rgba: &Vec<u8>) -> (argb: Vec<u8>)
    ensures
        argb@ == argb_of(rgba@),
{
    let mut argb: Vec<u8> = Vec::new();
    let pixels: usize = rgba.len() / 4;
    let mut p: usize = 0;
    while p < pixels
        invariant
            p <= pixels,
            pixels == rgba.len() / 4,
            argb@.len() == 4 * p,
            forall|i: int| 0 <= i < 4 * p ==> argb@[i] == argb_of(rgba@)[i],
        decreases pixels - p,
    {
        let base: usize = 4 * p;
        argb.push(rgba[base + 3]);
        argb.push(rgba[base]);
        argb.push(rgba[base + 1]);
        argb.push(rgba[base + 2]);
        p = p + 1;
    }
    proof {
        assert(argb@ =~= argb_of(rgba@));
    }
    argb
}

} // verus!
