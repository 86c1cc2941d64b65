use openvpn3_gui::models::NetworkStats;
use circular_queue::CircularQueue;
use openvpn3_gui::app::OpenVpnGui;
use openvpn3_gui::ui::graph::{history_peak, zeroed_history, GRAPH_WINDOW};

fn samples(history: &CircularQueue<u64>) -> Vec<u64> {
    history.iter().copied().collect()
}

fn session() -> OpenVpnGui {
    let mut app = OpenVpnGui::new(Vec::new(), None);
    app.session_path = Some("/net/openvpn/v3/sessions/abc".to_string());
    app
}

#[test]
fn rates_are_the_growth_of_the_counters() {
    let mut stats = NetworkStats::default();
    assert_eq!(stats.update(1000, 400), (1000, 400));
    assert_eq!(stats.update(1500, 450), (500, 50));
    assert_eq!(
        stats,
        NetworkStats { bytes_in: 1500, bytes_out: 450, rate_in: 500, rate_out: 50 }
    );
}

#[test]
fn counter_that_falls_back_gives_zero_and_a_new_baseline() {
    let mut stats = NetworkStats::default();
    stats.update(5000, 3000);
    assert_eq!(stats.update(1200, 3100), (0, 100));
    assert_eq!(stats.bytes_in, 1200);
    assert_eq!(stats.bytes_out, 3100);
    assert_eq!(stats.update(1300, 100), (100, 0));
    assert_eq!(stats.bytes_out, 100);
}

#[test]
fn equal_counters_give_zero_rates() {
    let mut stats = NetworkStats { bytes_in: 7, bytes_out: 9, rate_in: 3, rate_out: 4 };
    assert_eq!(stats.update(7, 9), (0, 0));
    assert_eq!(stats.update(u64::MAX, u64::MAX), (u64::MAX - 7, u64::MAX - 9));
}

#[test]
fn default_stats_are_zero() {
    assert_eq!(
        NetworkStats::default(),
        NetworkStats { bytes_in: 0, bytes_out: 0, rate_in: 0, rate_out: 0 }
    );
}

#[test]
fn history_starts_full_of_zeros() {
    assert_eq!(GRAPH_WINDOW, 60);
    let history = zeroed_history(GRAPH_WINDOW);
    assert_eq!(samples(&history), vec![0u64; 60]);
    assert_eq!(history.len(), 60);
    assert_eq!(history.capacity(), 60);
    assert_eq!(history_peak(&history), 0);
}

#[test]
fn history_keeps_its_length_and_evicts_the_oldest() {
    let mut app = session();
    let mut total: u64 = 0;
    for rate in 1..=200u64 {
        total += rate;
        app.handle_stats_updated(Some((total, 2 * total)));
        assert_eq!(samples(&app.graph_data_in).len(), GRAPH_WINDOW);
        assert_eq!(samples(&app.graph_data_out).len(), GRAPH_WINDOW);
    }
    let inbound = samples(&app.graph_data_in);
    assert_eq!(inbound[0], 200);
    assert_eq!(inbound[59], 141);
    assert_eq!(samples(&app.graph_data_out)[0], 400);
    assert_eq!(history_peak(&app.graph_data_in), 200);
    assert_eq!(history_peak(&app.graph_data_out), 400);
}

#[test]
fn history_is_read_newest_first() {
    let mut app = session();
    app.graph_data_in = zeroed_history(3);
    app.handle_stats_updated(Some((5, 0)));
    assert_eq!(samples(&app.graph_data_in), vec![5, 0, 0]);
    app.handle_stats_updated(Some((14, 0)));
    app.handle_stats_updated(Some((16, 0)));
    app.handle_stats_updated(Some((20, 0)));
    assert_eq!(samples(&app.graph_data_in), vec![4, 2, 9]);
    assert_eq!(history_peak(&app.graph_data_in), 9);
}

#[test]
fn history_without_places_stays_empty() {
    let mut app = session();
    app.graph_data_in = zeroed_history(0);
    app.handle_stats_updated(Some((5, 7)));
    assert_eq!(samples(&app.graph_data_in), Vec::<u64>::new());
    assert_eq!(history_peak(&app.graph_data_in), 0);
    assert_eq!(samples(&app.graph_data_out)[0], 7);
}
