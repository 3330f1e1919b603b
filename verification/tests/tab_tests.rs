use mesh_nodes::details::{basics, hop_name, neighbor_label, neighbor_table, route_line};
use mesh_nodes::node::{ComprehensiveNode, Neighbor, NodeInfo, Position, User};
use mesh_nodes::projector::project;
use mesh_nodes::registry::NodeRegistry;
use mesh_nodes::rows::{
    battery_cell, coordinate_cell, elapsed_cell, elapsed_secs, id_cell, is_located, project_row,
    span_cell, voltage_cell, RowContext,
};
use mesh_nodes::series::{DeviceMetrics, TimeSeriesData};
use mesh_nodes::tab::{
    next_page_index, next_row_index, prev_page_index, prev_row_index, reconcile_page_size,
    DisplayMode, LogLevel, Mode, NodesTab, Preferences, ProbeRequest, Screen, TabShift,
    TRACEROUTE_PORT,
};
use meshtastic::protobufs::PortNum;
use mesh_nodes::graph::DisplayedGraph;

fn user(id: &str, short: &str, long: &str) -> User {
    User {
        id: id.to_string(),
        long_name: long.to_string(),
        short_name: short.to_string(),
        hw_model: "TBEAM".to_string(),
        is_licensed: false,
        role: "CLIENT".to_string(),
    }
}

fn node(id: u32, last_seen: u64, via_mqtt: bool) -> ComprehensiveNode {
    let mut n = ComprehensiveNode::with_id(id);
    n.last_seen = last_seen;
    n.node_info.via_mqtt = via_mqtt;
    n
}

fn ctx(my_node_id: u32, now: u64) -> RowContext {
    RowContext { my_node_id, my_position: None, distance_m: None, now }
}

fn tab_with(nodes: Vec<ComprehensiveNode>, show_mqtt: bool) -> NodesTab {
    let mut tab = NodesTab::new(1);
    for n in nodes {
        let id = n.id;
        tab.node_list.put(id, n);
    }
    tab.run(&Preferences { show_mqtt }, 10);
    tab
}

fn fifty_rows() -> NodesTab {
    let nodes: Vec<ComprehensiveNode> = (0..50u32).map(|i| node(i + 100, 1000 + i as u64, false)).collect();
    let tab = tab_with(nodes, true);
    assert_eq!(tab.table_contents.len(), 50);
    tab
}

#[test]
fn with_id_is_mostly_empty() {
    let n = ComprehensiveNode::with_id(0x1a);
    assert_eq!(n.id, 0x1a);
    assert_eq!(n.last_seen, 0);
    assert!(n.node_info.user.is_none());
    assert!(n.node_info.position.is_none());
    assert!(n.node_info.device_metrics.is_none());
    assert!(!n.node_info.via_mqtt);
    assert!(n.neighbors.is_empty());
    assert_eq!(n.last_snr, 0);
    assert_eq!(n.last_rssi, 0);
    assert!(n.route_list.is_empty());
    assert_eq!(n.timeseries.len(), 0);
    assert_eq!(n.timeseries_start, 0);
}

#[test]
fn clone_of_a_node_keeps_everything() {
    let mut n = node(7, 55, true);
    n.node_info.user = Some(user("!00000007", "SEVN", "Seven"));
    n.neighbors.push(Neighbor { node_id: 9, snr: 1_000_000, last_rx_time: 40 });
    n.set_route(1, vec![2, 3]);
    n.record_sample(TimeSeriesData { timestamp: 33, ..TimeSeriesData::default() });
    let c = n.clone();
    assert_eq!(c.id, 7);
    assert_eq!(c.last_seen, 55);
    assert!(c.node_info.via_mqtt);
    assert_eq!(c.node_info.user.as_ref().map(|u| u.short_name.clone()), Some("SEVN".to_string()));
    assert_eq!(c.neighbors.len(), 1);
    assert_eq!(c.route_list.get(&1), Some(&vec![2, 3]));
    assert_eq!(c.timeseries.len(), 1);
    assert_eq!(c.timeseries_start, 33);
}

#[test]
fn record_sample_notes_the_oldest_retained() {
    let mut n = ComprehensiveNode::with_id(1);
    for t in 1..=130u64 {
        n.record_sample(TimeSeriesData { timestamp: t, ..TimeSeriesData::default() });
        if t <= 128 {
            assert_eq!(n.timeseries_start, 1);
        }
    }
    assert_eq!(n.timeseries.len(), 128);
    assert_eq!(n.timeseries_start, 3);
}

#[test]
fn set_route_replaces_wholesale() {
    let mut n = ComprehensiveNode::with_id(1);
    n.set_route(5, vec![2, 3, 4]);
    n.set_route(6, vec![]);
    n.set_route(5, vec![9]);
    assert_eq!(n.route_list.len(), 2);
    assert_eq!(n.route_list.get(&5), Some(&vec![9]));
    assert_eq!(n.route_list.get(&6), Some(&vec![]));
}

#[test]
fn upsert_creates_once_and_returns_the_record() {
    let mut reg = NodeRegistry::new();
    assert_eq!(reg.len(), 0);
    assert!(!reg.contains(5));
    assert!(reg.get(5).is_none());
    {
        let n = reg.upsert(5);
        assert_eq!(n.id, 5);
        assert_eq!(n.last_seen, 0);
        n.last_seen = 77;
    }
    assert_eq!(reg.len(), 1);
    assert!(reg.contains(5));
    {
        let n = reg.upsert(5);
        assert_eq!(n.last_seen, 77);
        n.last_rssi = -90;
    }
    assert_eq!(reg.len(), 1);
    assert_eq!(reg.get(5).map(|n| (n.last_seen, n.last_rssi)), Some((77, -90)));
    reg.upsert(6);
    assert_eq!(reg.len(), 2);
    let mut keys = reg.keys();
    keys.sort();
    assert_eq!(keys, vec![5, 6]);
}

#[test]
fn put_replaces_a_record() {
    let mut reg = NodeRegistry::new();
    reg.put(3, node(3, 10, false));
    reg.put(3, node(3, 20, true));
    assert_eq!(reg.len(), 1);
    assert_eq!(reg.get(3).map(|n| n.last_seen), Some(20));
}

#[test]
fn projector_filter_drops_exactly_the_bridged() {
    let mut reg = NodeRegistry::new();
    let total = 12u32;
    let mut bridged = 0usize;
    for i in 0..total {
        let via = i % 3 == 0;
        if via {
            bridged += 1;
        }
        reg.put(i, node(i, 100 + i as u64, via));
    }
    let hidden = project(&reg, false);
    assert_eq!(hidden.len(), total as usize - bridged);
    assert!(hidden.iter().all(|n| !n.node_info.via_mqtt));
    let shown = project(&reg, true);
    assert_eq!(shown.len(), total as usize);
}

#[test]
fn projector_sorts_strictly_descending_for_distinct_times() {
    let mut reg = NodeRegistry::new();
    let times = [50u64, 10, 90, 30, 70, 20, 80, 60, 40, 100];
    for (i, t) in times.iter().enumerate() {
        reg.put(i as u32 + 1, node(i as u32 + 1, *t, false));
    }
    let rows = project(&reg, true);
    let seen: Vec<u64> = rows.iter().map(|n| n.last_seen).collect();
    assert_eq!(seen, vec![100, 90, 80, 70, 60, 50, 40, 30, 20, 10]);
    let ids: Vec<u32> = rows.iter().map(|n| n.id).collect();
    assert_eq!(ids, vec![10, 3, 7, 5, 8, 1, 9, 4, 6, 2]);
}

#[test]
fn projector_keeps_every_record_among_ties() {
    let mut reg = NodeRegistry::new();
    for i in 0..6u32 {
        reg.put(i, node(i, if i < 3 { 5 } else { 9 }, false));
    }
    let rows = project(&reg, false);
    let seen: Vec<u64> = rows.iter().map(|n| n.last_seen).collect();
    assert_eq!(seen, vec![9, 9, 9, 5, 5, 5]);
    let mut ids: Vec<u32> = rows.iter().map(|n| n.id).collect();
    ids.sort();
    assert_eq!(ids, vec![0, 1, 2, 3, 4, 5]);
}

#[test]
fn projector_of_an_empty_registry() {
    let reg = NodeRegistry::new();
    assert!(project(&reg, false).is_empty());
}

#[test]
fn run_takes_preferences_and_page_size() {
    let mut tab = NodesTab::new(1);
    tab.node_list.put(2, node(2, 5, true));
    tab.node_list.put(3, node(3, 6, false));
    tab.run(&Preferences { show_mqtt: false }, 17);
    assert_eq!(tab.page_size, 17);
    assert_eq!(tab.prefs, Preferences { show_mqtt: false });
    assert_eq!(tab.table_contents.len(), 1);
    assert_eq!(tab.table_contents[0].id, 3);
    tab.run(&Preferences { show_mqtt: true }, 20);
    assert_eq!(tab.page_size, 20);
    assert_eq!(tab.table_contents.iter().map(|n| n.id).collect::<Vec<u32>>(), vec![3, 2]);
    assert_eq!(tab.display_mode, DisplayMode::List);
}

#[test]
fn pagination_clamps() {
    assert_eq!(prev_page_index(Some(0), 50, 10), 0);
    assert_eq!(next_page_index(Some(45), 50, 10), 49);
    assert_eq!(next_page_index(Some(0), 50, 10), 10);
    assert_eq!(next_page_index(Some(39), 50, 10), 49);
    assert_eq!(next_page_index(Some(38), 50, 10), 48);
    assert_eq!(next_page_index(Some(49), 50, 10), 49);
    assert_eq!(prev_page_index(Some(45), 50, 10), 35);
    assert_eq!(prev_page_index(Some(10), 50, 10), 0);
    assert_eq!(prev_page_index(Some(11), 50, 10), 1);
    assert_eq!(prev_page_index(Some(5), 50, 10), 0);
    assert_eq!(next_page_index(None, 50, 10), 0);
    assert_eq!(prev_page_index(None, 50, 10), 0);
    assert_eq!(next_page_index(Some(3), 0, 10), 0);
    assert_eq!(prev_page_index(Some(3), 0, 10), 0);
    assert_eq!(next_page_index(Some(usize::MAX), 50, u16::MAX), 49);
    assert_eq!(prev_page_index(Some(usize::MAX), 50, 10), 49);
    assert_eq!(next_page_index(Some(7), 50, 0), 7);
    assert_eq!(prev_page_index(Some(7), 50, 0), 7);
}

#[test]
fn tab_pagination_from_the_ends() {
    let mut tab = fifty_rows();
    tab.selected = Some(0);
    tab.prev_page();
    assert_eq!(tab.selected, Some(0));
    tab.selected = Some(45);
    tab.next_page();
    assert_eq!(tab.selected, Some(49));
    tab.selected = None;
    tab.next_page();
    assert_eq!(tab.selected, Some(0));
    tab.next_page();
    assert_eq!(tab.selected, Some(10));
    tab.prev_page();
    assert_eq!(tab.selected, Some(0));
}

#[test]
fn row_navigation_wraps() {
    assert_eq!(next_row_index(Some(49), 50), 0);
    assert_eq!(prev_row_index(Some(0), 50), 49);
    assert_eq!(next_row_index(Some(0), 50), 1);
    assert_eq!(prev_row_index(Some(49), 50), 48);
    assert_eq!(next_row_index(None, 50), 0);
    assert_eq!(prev_row_index(None, 50), 0);
    assert_eq!(next_row_index(Some(0), 1), 0);
    assert_eq!(prev_row_index(Some(0), 1), 0);
    assert_eq!(next_row_index(Some(4), 0), 0);
    assert_eq!(prev_row_index(Some(4), 0), 0);
    assert_eq!(next_row_index(Some(usize::MAX), 50), 0);
    assert_eq!(prev_row_index(Some(usize::MAX), 50), 49);
}

#[test]
fn tab_row_navigation_moves_cursor_and_scrollbar() {
    let mut tab = fifty_rows();
    tab.next_row();
    assert_eq!(tab.selected, Some(0));
    tab.prev_row();
    assert_eq!(tab.selected, Some(49));
    assert_eq!(tab.scrollbar_position, 49);
    tab.next_row();
    assert_eq!(tab.selected, Some(0));
    assert_eq!(tab.scrollbar_position, 0);
    tab.next_row();
    assert_eq!(tab.selected, Some(1));
    assert_eq!(tab.scrollbar_position, 1);
}

#[test]
fn navigation_is_for_list_mode_only() {
    let mut tab = fifty_rows();
    tab.selected = Some(5);
    tab.enter_key();
    assert_eq!(tab.display_mode, DisplayMode::Detail);
    tab.next_row();
    tab.prev_row();
    tab.next_page();
    tab.prev_page();
    assert_eq!(tab.selected, Some(5));
    tab.function_key(1);
    assert_eq!(tab.display_mode, DisplayMode::Help);
    tab.next_row();
    tab.next_page();
    assert_eq!(tab.selected, Some(5));
}

#[test]
fn enter_and_escape_drive_the_modes() {
    let mut tab = fifty_rows();
    assert_eq!(tab.display_mode, DisplayMode::List);
    tab.enter_key();
    assert_eq!(tab.display_mode, DisplayMode::List);
    tab.selected = Some(2);
    let expected = tab.table_contents[2].id;
    tab.enter_key();
    assert_eq!(tab.display_mode, DisplayMode::Detail);
    assert_eq!(tab.selected_node_id, expected);
    assert_eq!(tab.escape(), Mode::Running);
    assert_eq!(tab.display_mode, DisplayMode::List);
    assert_eq!(tab.escape(), Mode::Exiting);
    assert_eq!(tab.display_mode, DisplayMode::List);
    tab.enter_key();
    tab.enter_key();
    assert_eq!(tab.display_mode, DisplayMode::List);
    tab.function_key(1);
    assert_eq!(tab.display_mode, DisplayMode::Help);
    tab.enter_key();
    assert_eq!(tab.display_mode, DisplayMode::List);
    tab.function_key(1);
    assert_eq!(tab.escape(), Mode::Running);
    assert_eq!(tab.display_mode, DisplayMode::List);
}

#[test]
fn enter_on_a_stale_cursor_does_nothing() {
    let mut tab = fifty_rows();
    tab.selected = Some(50);
    tab.selected_node_id = 4242;
    tab.enter_key();
    assert_eq!(tab.display_mode, DisplayMode::List);
    assert_eq!(tab.selected_node_id, 4242);
    assert!(tab.send_traceroute().is_none());
    assert_eq!(tab.selected_node_id, 4242);
}

#[test]
fn pan_keys_cycle_the_graph_in_detail_mode_only() {
    let mut tab = fifty_rows();
    assert_eq!(tab.next_tab(), TabShift::Next);
    assert_eq!(tab.prev_tab(), TabShift::Previous);
    assert_eq!(tab.which_graph, DisplayedGraph::Battery);
    tab.selected = Some(0);
    tab.enter_key();
    assert_eq!(tab.next_tab(), TabShift::Stay);
    assert_eq!(tab.which_graph, DisplayedGraph::Voltage);
    assert_eq!(tab.prev_tab(), TabShift::Stay);
    assert_eq!(tab.prev_tab(), TabShift::Stay);
    assert_eq!(tab.which_graph, DisplayedGraph::GasResistance);
    assert_eq!(tab.display_mode, DisplayMode::Detail);
}

#[test]
fn other_function_keys_do_nothing() {
    let mut tab = fifty_rows();
    tab.selected = Some(3);
    for k in [0u8, 3, 4, 12, 255] {
        assert!(tab.function_key(k).is_none());
        assert_eq!(tab.display_mode, DisplayMode::List);
        assert_eq!(tab.selected, Some(3));
    }
}

#[test]
fn page_size_follows_the_rendered_height() {
    assert_eq!(reconcile_page_size(10, 10, true), 10);
    assert_eq!(reconcile_page_size(10, 24, true), 24);
    assert_eq!(reconcile_page_size(10, 24, false), 10);
    let mut tab = fifty_rows();
    tab.selected = Some(0);
    let capacity = reconcile_page_size(tab.page_size, 24, true);
    tab.next_page();
    assert_eq!(tab.selected, Some(10));
    tab.run(&Preferences { show_mqtt: true }, capacity);
    tab.next_page();
    assert_eq!(tab.selected, Some(34));
}

#[test]
fn unknown_node_row_end_to_end() {
    let mut tab = NodesTab::new(0x99);
    tab.node_list.upsert(0x1A).last_seen = 100;
    tab.run(&Preferences { show_mqtt: false }, 10);
    let rows = tab.rows(&vec![None], 150);
    assert_eq!(rows.len(), 1);
    let row = &rows[0];
    assert_eq!(row.id, "*1a");
    assert_eq!(row.last_update, "50 seconds");
    assert_eq!(row.last_heard, "Unknown");
    assert_eq!(row.rf, "");
    assert_eq!(row.battery, "");
    assert_eq!(row.latitude, "");
    assert_eq!(row.longitude, "");
    assert_eq!(row.altitude, "");
    assert_eq!(row.distance, "");
    assert_eq!(row.voltage, "");
    assert_eq!(row.short_name, "");
    assert_eq!(row.long_name, "");
    assert_eq!(row.hops, "0");
    assert_eq!(row.neighbors, "0");
}

fn state(tab: &NodesTab) -> (usize, Vec<(u32, u64)>, Option<usize>, usize, DisplayMode, u32, u16, DisplayedGraph) {
    (
        tab.node_list.len(),
        tab.table_contents.iter().map(|n| (n.id, n.last_seen)).collect(),
        tab.selected,
        tab.scrollbar_position,
        tab.display_mode,
        tab.selected_node_id,
        tab.page_size,
        tab.which_graph,
    )
}

#[test]
fn probe_request_end_to_end() {
    let mut tab = NodesTab::new(1);
    tab.node_list.put(0x42, node(0x42, 10, false));
    tab.run(&Preferences { show_mqtt: true }, 10);
    tab.next_row();
    tab.enter_key();
    assert_eq!(tab.selected_node_id, 0x42);
    let before = state(&tab);
    let request = tab.function_key(2).expect("a node is selected");
    assert_eq!(request.destination, 0x42);
    assert!(request.want_ack);
    assert!(request.want_response);
    assert!(request.payload.is_empty());
    assert_eq!(request.portnum, TRACEROUTE_PORT);
    assert_eq!(request.priority, 0);
    assert_eq!(request.channel, 0);
    assert_eq!(request.packet_id, 0);
    assert_eq!(request.source, 0);
    assert_eq!(request.hop_limit, 0);
    assert_eq!(request.body_dest, 0);
    assert_eq!(request.body_source, 0);
    assert_eq!(request.request_id, 0);
    assert_eq!(request.reply_id, 0);
    assert_eq!(request.emoji, 0);
    assert_eq!(state(&tab), before);

    let lines = vec![tab.traceroute_report(&request, Some("channel closed"))];
    assert_eq!(lines.len(), 1);
    assert_eq!(lines[0].level, LogLevel::Error);
    assert_eq!(lines[0].text, "Tried sending traceroute but failed: channel closed");
    assert_eq!(state(&tab), before);
    assert_eq!(tab.node_list.get(0x42).map(|n| n.last_seen), Some(10));

    let ok = tab.traceroute_report(&request, None);
    assert_eq!(ok.level, LogLevel::Info);
    assert_eq!(ok.text, "Emitted Traceroute Request to !42");
    assert_eq!(state(&tab), before);
}

#[test]
fn probe_port_is_the_traceroute_application_port() {
    assert_eq!(TRACEROUTE_PORT, 70);
    assert_eq!(TRACEROUTE_PORT, PortNum::TracerouteApp as i32);
    assert_eq!(ProbeRequest::to(1).portnum, PortNum::TracerouteApp as i32);
}

#[test]
fn probe_from_detail_goes_to_the_node_shown_after_a_resort() {
    let mut tab = NodesTab::new(1);
    tab.node_list.put(7, node(7, 20, false));
    tab.node_list.put(9, node(9, 10, false));
    tab.run(&Preferences { show_mqtt: true }, 10);
    tab.next_row();
    tab.enter_key();
    assert_eq!(tab.display_mode, DisplayMode::Detail);
    assert_eq!(tab.selected_node_id, 7);
    tab.node_list.upsert(9).last_seen = 30;
    tab.run(&Preferences { show_mqtt: true }, 10);
    assert_eq!(tab.selected, Some(0));
    assert_eq!(tab.table_contents[0].id, 9);
    let before = state(&tab);
    let request = tab.send_traceroute().expect("a node is shown");
    assert_eq!(request.destination, 7);
    assert_eq!(state(&tab), before);
    assert_eq!(tab.selected_node_id, 7);
    assert_eq!(tab.display_mode, DisplayMode::Detail);
    let failed = tab.traceroute_report(&request, Some("link down"));
    assert_eq!(failed.level, LogLevel::Error);
    assert_eq!(state(&tab), before);
    let sent = tab.traceroute_report(&request, None);
    assert_eq!(sent.text, "Emitted Traceroute Request to !7");
}

#[test]
fn probe_from_detail_needs_no_cursor() {
    let mut tab = NodesTab::new(1);
    tab.display_mode = DisplayMode::Detail;
    tab.selected_node_id = 0x33;
    let before = state(&tab);
    let request = tab.function_key(2).expect("a node is shown");
    assert_eq!(request.destination, 0x33);
    assert_eq!(state(&tab), before);
}

#[test]
fn probe_from_the_list_goes_to_the_cursor_row_and_changes_nothing() {
    let mut tab = fifty_rows();
    tab.selected = Some(4);
    tab.selected_node_id = 4242;
    let expected = tab.table_contents[4].id;
    let before = state(&tab);
    let request = tab.send_traceroute().expect("a row is selected");
    assert_eq!(request.destination, expected);
    assert_eq!(state(&tab), before);
    assert_eq!(tab.selected_node_id, 4242);
    tab.display_mode = DisplayMode::Help;
    let request = tab.function_key(2).expect("a row is selected");
    assert_eq!(request.destination, expected);
    assert_eq!(tab.display_mode, DisplayMode::Help);
}

#[test]
fn probe_without_selection_sends_nothing() {
    let mut tab = fifty_rows();
    let before = state(&tab);
    assert!(tab.send_traceroute().is_none());
    assert!(tab.function_key(2).is_none());
    assert_eq!(state(&tab), before);
    let probe = ProbeRequest::to(9);
    assert_eq!(probe.destination, 9);
    assert!(probe.via_mqtt);
}

#[test]
fn id_column_policies() {
    let mut n = node(0x1a2b, 1, false);
    assert_eq!(id_cell(&n, 5), "*1a2b");
    n.node_info.user = Some(user("", "AB", "Alpha Bravo"));
    assert_eq!(id_cell(&n, 5), "*1a2b");
    n.node_info.user = Some(user("!00001a2b", "AB", "Alpha Bravo"));
    assert_eq!(id_cell(&n, 5), "!00001a2b");
    assert_eq!(id_cell(&n, 0x1a2b), "^!00001a2b");
}

#[test]
fn full_row() {
    let mut n = node(0x10, 940, false);
    n.node_info.user = Some(user("!00000010", "SIXT", "Sixteen"));
    n.node_info.hops_away = 3;
    n.node_info.last_heard = 880;
    n.node_info.position = Some(Position { latitude_i: 451_234_567, longitude_i: -1_224_194_000, altitude: 250, time: 0 });
    n.node_info.device_metrics = Some(DeviceMetrics { battery_level: 87, voltage: 3_704_999, channel_utilization: 0, air_util_tx: 0, uptime_seconds: 0 });
    n.last_snr = -7_250_000;
    n.last_rssi = -95;
    n.neighbors.push(Neighbor { node_id: 1, snr: 0, last_rx_time: 0 });
    n.neighbors.push(Neighbor { node_id: 2, snr: 0, last_rx_time: 0 });
    let me = Some(Position { latitude_i: 1, longitude_i: 1, altitude: 0, time: 0 });
    let c = RowContext { my_node_id: 1, my_position: me, distance_m: Some(12_345), now: 1000 };
    let row = project_row(&n, &c);
    assert_eq!(row.id, "!00000010");
    assert_eq!(row.short_name, "SIXT");
    assert_eq!(row.long_name, "Sixteen");
    assert_eq!(row.rf, "SNR:-7.25dB / RSSI:-95dB");
    assert_eq!(row.hops, "3");
    assert_eq!(row.neighbors, "2");
    assert_eq!(row.distance, "12.345km");
    assert_eq!(row.latitude, "45.12346");
    assert_eq!(row.longitude, "-122.41940");
    assert_eq!(row.altitude, "250m");
    assert_eq!(row.voltage, "3.70V");
    assert_eq!(row.battery, "87%");
    assert_eq!(row.last_heard, "2 minutes");
    assert_eq!(row.last_update, "1 minute");
}

#[test]
fn cells_come_in_column_order() {
    let mut n = node(0x10, 940, false);
    n.node_info.user = Some(user("!00000010", "SIXT", "Sixteen"));
    n.last_snr = 1_000_000;
    n.last_rssi = -70;
    let cells = project_row(&n, &ctx(1, 1000)).cells();
    assert_eq!(
        cells,
        vec![
            "!00000010", "SIXT", "Sixteen", "SNR:1.00dB / RSSI:-70dB", "0", "0", "", "", "", "",
            "", "", "Unknown", "1 minute",
        ]
    );
}

#[test]
fn bridged_row_shows_the_marker() {
    let mut n = node(0x10, 0, true);
    n.last_snr = 5_000_000;
    n.node_info.hops_away = 2;
    let row = project_row(&n, &ctx(1, 1000));
    assert_eq!(row.rf, "MQTT");
    assert_eq!(row.hops, "MQTT");
    assert_eq!(row.last_update, "Unknown");
}

#[test]
fn distance_needs_both_positions() {
    let mut n = node(2, 1, false);
    let here = Some(Position { latitude_i: 10, longitude_i: 20, altitude: 0, time: 0 });
    let half = Some(Position { latitude_i: 10, longitude_i: 0, altitude: 0, time: 0 });
    let c = |mine: Option<Position>, d: Option<u32>| RowContext { my_node_id: 1, my_position: mine, distance_m: d, now: 5 };
    n.node_info.position = here;
    assert_eq!(project_row(&n, &c(here, Some(5))).distance, "0.005km");
    assert_eq!(project_row(&n, &c(here, Some(4_294_967_295))).distance, "4294967.295km");
    assert_eq!(project_row(&n, &c(here, None)).distance, "");
    assert_eq!(project_row(&n, &c(None, Some(5))).distance, "");
    assert_eq!(project_row(&n, &c(half, Some(5))).distance, "");
    n.node_info.position = half;
    assert_eq!(project_row(&n, &c(here, Some(5))).distance, "");
    assert_eq!(project_row(&n, &c(here, Some(5))).longitude, "");
    assert_eq!(project_row(&n, &c(here, Some(5))).latitude, "0.00000");
    n.node_info.position = None;
    assert_eq!(project_row(&n, &c(here, Some(5))).distance, "");
    assert!(is_located(&here));
    assert!(!is_located(&half));
    assert!(!is_located(&None));
}

#[test]
fn battery_voltage_and_coordinates() {
    let m = |battery_level: u32, voltage: i64| Some(DeviceMetrics { battery_level, voltage, channel_utilization: 0, air_util_tx: 0, uptime_seconds: 0 });
    assert_eq!(battery_cell(&m(0, 0), "Powered"), "");
    assert_eq!(battery_cell(&m(1, 0), "Powered"), "1%");
    assert_eq!(battery_cell(&m(100, 0), "Powered"), "100%");
    assert_eq!(battery_cell(&m(101, 0), "Powered"), "Powered");
    assert_eq!(battery_cell(&m(101, 0), "Plugged-in"), "Plugged-in");
    assert_eq!(battery_cell(&m(102, 0), "Powered"), "");
    assert_eq!(battery_cell(&None, "Powered"), "");
    assert_eq!(voltage_cell(&m(0, 0)), "");
    assert_eq!(voltage_cell(&m(0, 4_125_000)), "4.13V");
    assert_eq!(voltage_cell(&None), "");
    assert_eq!(coordinate_cell(0), "");
    assert_eq!(coordinate_cell(-5), "-0.00000");
    assert_eq!(coordinate_cell(900_000_000), "90.00000");
}

#[test]
fn elapsed_time_columns() {
    assert_eq!(elapsed_secs(150, 100), Some(50));
    assert_eq!(elapsed_secs(150, 0), None);
    assert_eq!(elapsed_secs(150, 150), None);
    assert_eq!(elapsed_secs(150, 151), None);
    assert_eq!(elapsed_secs(150, 149), Some(1));
    assert_eq!(elapsed_cell(150, 100), "50 seconds");
    assert_eq!(elapsed_cell(150, 149), "1 second");
    assert_eq!(elapsed_cell(150, 0), "Unknown");
    assert_eq!(elapsed_cell(150, 150), "Unknown");
    assert_eq!(elapsed_cell(150, 200), "Unknown");
    assert_eq!(span_cell(None), "Unknown");
    assert_eq!(span_cell(Some(3_661)), "1 hour 1 minute 1 second");
}

#[test]
fn rows_use_my_position_and_the_given_distances() {
    let mut tab = NodesTab::new(1);
    let mut me = node(1, 300, false);
    me.node_info.position = Some(Position { latitude_i: 10, longitude_i: 10, altitude: 0, time: 0 });
    me.node_info.user = Some(user("!00000001", "ME", "Myself"));
    let mut far = node(2, 200, false);
    far.node_info.position = Some(Position { latitude_i: 20, longitude_i: 20, altitude: 0, time: 0 });
    let lost = node(3, 100, false);
    tab.node_list.put(1, me);
    tab.node_list.put(2, far);
    tab.node_list.put(3, lost);
    tab.run(&Preferences { show_mqtt: true }, 10);
    let pairs = tab.distance_requests();
    assert_eq!(pairs.len(), 3);
    assert!(pairs[0].is_some());
    assert_eq!(pairs[1].map(|(a, b)| (a.latitude_i, b.latitude_i)), Some((10, 20)));
    assert!(pairs[2].is_none());
    let rows = tab.rows(&vec![Some(0), Some(1_500), Some(9)], 400);
    assert_eq!(rows.len(), 3);
    assert_eq!(rows[0].id, "^!00000001");
    assert_eq!(rows[0].distance, "0.000km");
    assert_eq!(rows[1].distance, "1.500km");
    assert_eq!(rows[2].distance, "");
    let short = tab.rows(&vec![Some(7)], 400);
    assert_eq!(short.len(), 3);
    assert_eq!(short[0].distance, "0.007km");
    assert_eq!(short[1].distance, "");
}

#[test]
fn hop_names_and_routes() {
    assert_eq!(hop_name(0x1a), "!1a");
    assert_eq!(route_line(0xa, &vec![], 0xb), "!a -> !b (Direct Hop)");
    assert_eq!(route_line(0xa, &vec![0x10], 0xb), "!a -> !10 -> !b");
    assert_eq!(route_line(0xa, &vec![0x10, 0x20, 0xff], 0xb), "!a -> !10 -> !20 -> !ff -> !b");
}

#[test]
fn basics_of_an_unknown_node() {
    let n = node(0x1a, 0, false);
    let lines = basics(&n);
    let shown: Vec<(String, String)> = lines.into_iter().map(|l| (l.label, l.value)).collect();
    assert_eq!(
        shown,
        vec![
            ("Node id (num)".to_string(), "26 (!1a)".to_string()),
            ("Id* (implied)".to_string(), "*1a".to_string()),
            ("Last RF SNR/RSSI".to_string(), "0.00dB/0db".to_string()),
        ]
    );
}

#[test]
fn basics_of_a_full_node() {
    let mut n = node(0x10, 940, true);
    let mut u = user("!00000010", "SIXT", "Sixteen");
    u.is_licensed = true;
    n.node_info.user = Some(u);
    n.node_info.position = Some(Position { latitude_i: 451_234_567, longitude_i: 0, altitude: -12, time: 0 });
    n.node_info.device_metrics = Some(DeviceMetrics { battery_level: 101, voltage: 4_200_000, channel_utilization: 12_345_000, air_util_tx: 0, uptime_seconds: 0 });
    n.last_snr = 6_500_000;
    n.last_rssi = -80;
    let shown: Vec<(String, String)> = basics(&n).into_iter().map(|l| (l.label, l.value)).collect();
    let expect = |a: &str, b: &str| (a.to_string(), b.to_string());
    assert_eq!(
        shown,
        vec![
            expect("====(VIA MQTT)====", ""),
            expect("Node id (num)", "16 (!10)"),
            expect("Id (According to User)", "!00000010"),
            expect("Name (Short)", "Sixteen (SIXT)"),
            expect("Hardware Model", "TBEAM"),
            expect("Licensed Operator", "true"),
            expect("Device Role", "CLIENT"),
            expect("Last RF SNR/RSSI", "6.50dB/-80db"),
            expect("Channel Utilization", "12.35%"),
            expect("Device Voltage", "4.20V"),
            expect("Battery Level", "Plugged-in"),
            expect("Latitude", "45.12"),
            expect("Altitude", "-12m"),
        ]
    );
}

#[test]
fn neighbor_lines() {
    let mut reg = NodeRegistry::new();
    let mut known = node(2, 0, false);
    known.node_info.user = Some(user("!00000002", "TWO", "Two"));
    reg.put(2, known);
    reg.put(3, node(3, 0, false));
    assert_eq!(neighbor_label(&reg, 2), "!00000002");
    assert_eq!(neighbor_label(&reg, 3), "*3");
    assert_eq!(neighbor_label(&reg, 0xabc), "*abc");
    let neighbors = vec![
        Neighbor { node_id: 2, snr: 5_500_000, last_rx_time: 940 },
        Neighbor { node_id: 0xabc, snr: -1_250_000, last_rx_time: 0 },
        Neighbor { node_id: 3, snr: 0, last_rx_time: 2000 },
    ];
    let lines: Vec<(String, String, String)> = neighbor_table(&reg, &neighbors, 1000).into_iter().map(|l| (l.id, l.snr, l.last_seen)).collect();
    let expect = |a: &str, b: &str, c: &str| (a.to_string(), b.to_string(), c.to_string());
    assert_eq!(
        lines,
        vec![
            expect("!00000002", "5.50dB", "1 minute"),
            expect("*abc", "-1.25dB", "Unknown"),
            expect("*3", "0.00dB", "0 millisecond"),
        ]
    );
}

#[test]
fn details_and_graph_of_the_selected_node() {
    let mut tab = NodesTab::new(1);
    tab.node_list.put(1, node(1, 50, false));
    let mut target = node(2, 60, false);
    target.set_route(1, vec![7, 8]);
    target.neighbors.push(Neighbor { node_id: 1, snr: 1_000_000, last_rx_time: 90 });
    let mut s = TimeSeriesData::default();
    s.timestamp = 70;
    s.device.battery_level = 55;
    target.record_sample(s);
    tab.node_list.put(2, target);
    tab.run(&Preferences { show_mqtt: true }, 10);
    tab.next_row();
    tab.enter_key();
    assert_eq!(tab.selected_node_id, 2);
    let details = tab.get_details_for_node(100).expect("the node is known");
    assert_eq!(details.route, Some("!1 -> !7 -> !8 -> !2".to_string()));
    assert_eq!(details.neighbors.len(), 1);
    assert_eq!(details.neighbors[0].id, "*1");
    assert_eq!(details.neighbors[0].last_seen, "10 seconds");
    assert_eq!(details.basics[0].label, "Node id (num)");
    assert_eq!(details.basics[0].value, "2 (!2)");
    let graph = tab.make_graph().expect("the node is known");
    assert_eq!(graph.name, "Battery");
    assert_eq!(graph.points, vec![(70, 55_000_000)]);
    assert_eq!(graph.y_labels.0, "55.00");
    match tab.render(&vec![], 100) {
        Screen::Detail(Some((d, g))) => {
            assert_eq!(d.basics.len(), 3);
            assert_eq!(g.x_bounds, (70, 70));
        }
        _ => panic!("detail mode shows the details"),
    }
}

#[test]
fn details_without_the_node_or_without_me() {
    let mut tab = NodesTab::new(1);
    let mut target = node(2, 60, false);
    target.set_route(1, vec![]);
    tab.node_list.put(2, target);
    tab.selected_node_id = 5;
    assert!(tab.get_details_for_node(100).is_none());
    assert!(tab.make_graph().is_none());
    tab.selected_node_id = 2;
    let details = tab.get_details_for_node(100).expect("the node is known");
    assert!(details.route.is_none());
    tab.node_list.put(1, node(1, 0, false));
    let details = tab.get_details_for_node(100).expect("the node is known");
    assert_eq!(details.route, Some("!1 -> !2 (Direct Hop)".to_string()));
    tab.display_mode = DisplayMode::Detail;
    tab.selected_node_id = 5;
    assert!(matches!(tab.render(&vec![], 1), Screen::Detail(None)));
    tab.display_mode = DisplayMode::Help;
    assert!(matches!(tab.render(&vec![], 1), Screen::Help));
    tab.display_mode = DisplayMode::List;
    assert!(matches!(tab.render(&vec![], 1), Screen::List(_)));
}

#[test]
fn node_info_empty_is_blank() {
    let info = NodeInfo::empty();
    assert_eq!(info.num, 0);
    assert!(info.user.is_none());
    assert_eq!(info.hops_away, 0);
    assert_eq!(DisplayMode::default(), DisplayMode::List);
}
