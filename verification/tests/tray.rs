use openvpn3_gui::models::ConnectionState;
use openvpn3_gui::tray::{argb_from_rgba, tray_tooltip, OpenvpnTray, SystemTray, TrayState};

#[test]
fn tray_starts_disconnected() {
    let tray = SystemTray::new();
    assert_eq!(
        tray.snapshot(),
        TrayState { connected: false, tooltip: "OpenVPN3 GUI - Disconnected".to_string() }
    );
}

#[test]
fn tray_updates_keep_the_other_field() {
    let mut tray = SystemTray::new();
    tray.update_icon(true);
    assert_eq!(
        tray.snapshot(),
        TrayState { connected: true, tooltip: "OpenVPN3 GUI - Disconnected".to_string() }
    );
    tray.update_tooltip("OpenVPN3 GUI - Connected");
    assert_eq!(
        tray.snapshot(),
        TrayState { connected: true, tooltip: "OpenVPN3 GUI - Connected".to_string() }
    );
    tray.update_icon(false);
    assert_eq!(tray.snapshot().tooltip, "OpenVPN3 GUI - Connected");
    assert!(!tray.snapshot().connected);
}

#[test]
fn tooltip_tells_the_state_and_the_time() {
    assert_eq!(
        tray_tooltip(ConnectionState::Disconnected, Some(5)),
        "OpenVPN3 GUI - Disconnected"
    );
    assert_eq!(tray_tooltip(ConnectionState::Connecting, None), "OpenVPN3 GUI - Connecting...");
    assert_eq!(tray_tooltip(ConnectionState::Connected, None), "OpenVPN3 GUI - Connected");
    assert_eq!(
        tray_tooltip(ConnectionState::Connected, Some(0)),
        "OpenVPN3 GUI - Connected (0:00)"
    );
    assert_eq!(
        tray_tooltip(ConnectionState::Connected, Some(65)),
        "OpenVPN3 GUI - Connected (1:05)"
    );
    assert_eq!(
        tray_tooltip(ConnectionState::Connected, Some(7325)),
        "OpenVPN3 GUI - Connected (122:05)"
    );
}

#[test]
fn service_side_answers_from_the_state() {
    let tray = OpenvpnTray::new(TrayState { connected: true, tooltip: "up".to_string() });
    assert_eq!(tray.title(), "OpenVPN3 GUI");
    assert_eq!(tray.id(), "openvpn3-gui");
    assert!(tray.is_active());
    assert_eq!(tray.tool_tip_title(), "up");
    let idle = OpenvpnTray::new(TrayState { connected: false, tooltip: String::new() });
    assert!(!idle.is_active());
}

#[test]
fn pixels_are_reordered_alpha_first() {
    assert_eq!(argb_from_rgba(&vec![1, 2, 3, 4, 5, 6, 7, 8]), vec![4, 1, 2, 3, 8, 5, 6, 7]);
    assert_eq!(argb_from_rgba(&vec![1, 2, 3, 4, 5, 6]), vec![4, 1, 2, 3]);
    assert_eq!(argb_from_rgba(&vec![1, 2, 3]), Vec::<u8>::new());
    assert_eq!(argb_from_rgba(&Vec::new()), Vec::<u8>::new());
    let tray = OpenvpnTray::new(TrayState { connected: false, tooltip: String::new() });
    assert_eq!(tray.icon_pixmap(&vec![10, 20, 30, 40]), vec![40, 10, 20, 30]);
}
