use openvpn3_gui::vpn::parser::{
    choose_session_path, counter_from_capture, extract_ip, extract_session_path,
    group_from_capture, parse_stats, scan_counter,
};

fn text(s: &str) -> Option<String> {
    Some(s.to_string())
}

#[test]
fn dotted_counters_are_read() {
    let report = "Connection statistics:\n     BYTES_IN.................1772584\n     BYTES_OUT.................604123\n";
    assert_eq!(parse_stats(report), Some((1772584, 604123)));
}

#[test]
fn colon_counters_are_read() {
    assert_eq!(parse_stats("BYTES_IN : 10\nBYTES_OUT: 20\n"), Some((10, 20)));
}

#[test]
fn lower_case_and_interface_counters_are_read() {
    assert_eq!(parse_stats("bytes_in: 7\nbytes_out: 9"), Some((7, 9)));
    assert_eq!(parse_stats("RX bytes: 3\nTX bytes: 4"), Some((3, 4)));
}

#[test]
fn one_counter_alone_is_no_data() {
    assert_eq!(parse_stats("BYTES_IN.................1772584\n"), None);
    assert_eq!(parse_stats("BYTES_OUT: 5\n"), None);
    assert_eq!(parse_stats(""), None);
}

#[test]
fn counter_beyond_range_falls_through() {
    assert_eq!(parse_stats("BYTES_IN....99999999999999999999999\nBYTES_OUT....1"), None);
    assert_eq!(
        parse_stats("BYTES_IN....99999999999999999999999\nbytes_in: 5\nBYTES_OUT....1"),
        Some((5, 1))
    );
}

#[test]
fn direct_session_path_wins() {
    let listing = "        Path: /net/openvpn/v3/sessions/abc123s4567\n      Created: now";
    assert_eq!(
        extract_session_path(listing),
        Some("/net/openvpn/v3/sessions/abc123s4567".to_string())
    );
}

#[test]
fn bare_identifier_is_put_under_the_prefix() {
    let id = "0123abcds4567s89abscdefs0123456789ab";
    assert_eq!(
        extract_session_path(&format!("session {} up", id)),
        Some(format!("/net/openvpn/v3/sessions/{}", id))
    );
}

#[test]
fn listing_without_session_gives_nothing() {
    assert_eq!(extract_session_path("No sessions available"), None);
    assert_eq!(extract_session_path(""), None);
}

#[test]
fn first_inet_address_is_read() {
    let shown = "4: tun0: <POINTOPOINT>\n    inet 10.8.0.2/24 scope global tun0\n    inet 192.168.1.1/24\n";
    assert_eq!(extract_ip(shown), Some("10.8.0.2".to_string()));
    assert_eq!(extract_ip("inet6 fe80::1/64"), None);
    assert_eq!(extract_ip(""), None);
}

#[test]
fn session_path_is_chosen_in_the_order_of_the_searches() {
    assert_eq!(
        choose_session_path(Some(text("/direct")), Some(Some(text("/label"))), Some(text("id"))),
        text("/direct")
    );
    assert_eq!(
        choose_session_path(Some(None), Some(Some(text("/label"))), Some(text("id"))),
        text("/label")
    );
    assert_eq!(choose_session_path(Some(None), Some(Some(None)), Some(text("id"))), None);
    assert_eq!(
        choose_session_path(Some(None), Some(None), Some(text("id"))),
        text("/net/openvpn/v3/sessions/id")
    );
    assert_eq!(choose_session_path(Some(None), Some(None), Some(None)), None);
    assert_eq!(choose_session_path(Some(None), Some(None), None), None);
    assert_eq!(choose_session_path(Some(None), None, Some(text("id"))), None);
    assert_eq!(choose_session_path(None, Some(Some(text("/label"))), Some(text("id"))), None);
}

#[test]
fn counter_is_the_captured_decimal_number() {
    assert_eq!(counter_from_capture(Some(Some(text("1772584")))), Some(1772584));
    assert_eq!(counter_from_capture(Some(Some(text("007")))), Some(7));
    assert_eq!(counter_from_capture(Some(Some(text("+5")))), Some(5));
    assert_eq!(counter_from_capture(Some(Some(text("18446744073709551615")))), Some(u64::MAX));
    assert_eq!(counter_from_capture(Some(Some(text("18446744073709551616")))), None);
    assert_eq!(counter_from_capture(Some(Some(text("")))), None);
    assert_eq!(counter_from_capture(Some(Some(text("+")))), None);
    assert_eq!(counter_from_capture(Some(Some(text("-5")))), None);
    assert_eq!(counter_from_capture(Some(Some(text("12a")))), None);
    assert_eq!(counter_from_capture(Some(Some(text("\u{0663}")))), None);
    assert_eq!(counter_from_capture(Some(Some(None))), None);
    assert_eq!(counter_from_capture(Some(None)), None);
    assert_eq!(counter_from_capture(None), None);
}

#[test]
fn digits_of_another_script_fall_through_to_the_next_pattern() {
    assert_eq!(parse_stats("BYTES_IN....\u{0663}\nbytes_in: 4\nBYTES_OUT....2"), Some((4, 2)));
}

#[test]
fn patterns_are_tried_in_order() {
    let patterns = vec!["a=(\\d+)", "(", "b=(\\d+)", "c=()x"];
    assert_eq!(scan_counter(&patterns, "b=2 a=1"), Some(1));
    assert_eq!(scan_counter(&patterns, "b=2 c=x"), Some(2));
    assert_eq!(scan_counter(&patterns, "c=x"), None);
    assert_eq!(scan_counter(&Vec::new(), "a=1"), None);
}

#[test]
fn captured_group_is_handed_out() {
    assert_eq!(group_from_capture(Some(Some(text("10.8.0.2")))), text("10.8.0.2"));
    assert_eq!(group_from_capture(Some(Some(None))), None);
    assert_eq!(group_from_capture(Some(None)), None);
    assert_eq!(group_from_capture(None), None);
}
