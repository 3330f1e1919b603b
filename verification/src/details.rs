//! What the detail view shows of one node: labelled facts, the neighbours it
//! reported, and the latest route traced to it.

use crate::node::{ComprehensiveNode, Neighbor, NodeView, Position};
use crate::registry::NodeRegistry;
use crate::rows::{battery_cell, battery_text, voltage_cell, voltage_text};
use crate::series::DeviceMetrics;
use crate::text::{
    dec_digits, duration_words, expanded_duration_text, fixed_text, hex_digits, join_texts,
    joined, push_decimal, push_fixed, push_hex, push_signed, signed_text, texts,
};
use vstd::prelude::*;
use vstd::string::*;

verus! {

broadcast use vstd::std_specs::hash::group_hash_axioms;

/// A label and the value shown beside it.
#[derive(Debug)]
pub struct DetailLine {
    pub label: String,
    pub value: String,
}

impl View for DetailLine {
    type V = (Seq<char>, Seq<char>);

    open spec fn view(&self) -> (Seq<char>, Seq<char>) {
        (self.label@, self.value@)
    }
}

/// One line of the neighbour table.
#[derive(Debug)]
pub struct NeighborLine {
    pub id: String,
    pub snr: String,
    pub last_seen: String,
}

impl View for NeighborLine {
    type V = (Seq<char>, Seq<char>, Seq<char>);

    open spec fn view(&self) -> (Seq<char>, Seq<char>, Seq<char>) {
        (self.id@, self.snr@, self.last_seen@)
    }
}

/// The contents of the detail view.
#[derive(Debug)]
pub struct NodeDetails {
    /// The labelled facts, top to bottom.
    pub basics: Vec<DetailLine>,
    /// One line for each reported neighbour, in the order reported.
    pub neighbors: Vec<NeighborLine>,
    /// The latest route traced from the dashboard's node, if any.
    pub route: Option<String>,
}

/// The view of a `NodeDetails`.
pub struct DetailsView {
    pub basics: Seq<(Seq<char>, Seq<char>)>,
    pub neighbors: Seq<(Seq<char>, Seq<char>, Seq<char>)>,
    pub route: Option<Seq<char>>,
}

/// The views of detail lines, in order.
pub open spec fn line_views(lines: Seq<DetailLine>) -> Seq<(Seq<char>, Seq<char>)> {
    lines.map_values(|l: DetailLine| l@)
}

/// The views of neighbour lines, in order.
pub open spec fn neighbor_views(lines: Seq<NeighborLine>) -> Seq<
    (Seq<char>, Seq<char>, Seq<char>),
> {
    lines.map_values(|l: NeighborLine| l@)
}

impl View for NodeDetails {
    type V = DetailsView;

    open spec fn view(&self) -> DetailsView {
        DetailsView {
            basics: line_views(self.basics@),
            neighbors: neighbor_views(self.neighbors@),
            route: match self.route {
                Some(r) => Some(r@),
                None => None,
            },
        }
    }
}

/// The line, if `shown`; no line otherwise.
pub open spec fn when(shown: bool, line: (Seq<char>, Seq<char>)) -> Seq<(Seq<char>, Seq<char>)> {
    if shown {
        seq![line]
    } else {
        Seq::empty()
    }
}

/// A node's number as the network writes it: `!` and the hexadecimal digits.
pub open spec fn hop_text(id: u32) -> Seq<char> {
    "!"@ + hex_digits(id as nat)
}

/// The function that writes a node's number as the network does.
pub open spec fn hop_texts() -> spec_fn(u32) -> Seq<char> {
    |id: u32| hop_text(id)
}

/// The lines that identify the node: a banner for a bridge-relayed node,
/// the node's number, then what the identity payload says, or the implied
/// identifier where there is no payload.
pub open spec fn identity_lines(node: NodeView) -> Seq<(Seq<char>, Seq<char>)> {
    when(node.info.via_mqtt, ("====(VIA MQTT)===="@, Seq::empty())) + seq![
        (
            "Node id (num)"@,
            dec_digits(node.id as nat) + " ("@ + hop_text(node.id) + ")"@,
        ),
    ] + match node.info.user {
        Some(u) => seq![
            ("Id (According to User)"@, u.id),
            ("Name (Short)"@, u.long_name + " ("@ + u.short_name + ")"@),
            ("Hardware Model"@, u.hw_model),
            (
                "Licensed Operator"@,
                if u.is_licensed {
                    "true"@
                } else {
                    "false"@
                },
            ),
            ("Device Role"@, u.role),
        ],
        None => seq![("Id* (implied)"@, "*"@ + hex_digits(node.id as nat))],
    }
}

/// The line of the latest signal readings.
pub open spec fn signal_line(node: NodeView) -> (Seq<char>, Seq<char>) {
    (
        "Last RF SNR/RSSI"@,
        fixed_text(node.last_snr as int, 6, 2) + "dB/"@ + signed_text(node.last_rssi as int)
            + "db"@,
    )
}

/// A percentage with two decimals.
pub open spec fn percent_text(value: i64) -> Seq<char> {
    fixed_text(value as int, 6, 2) + "%"@
}

/// The lines of the device readings; a reading of zero has no line.
pub open spec fn device_lines(metrics: Option<DeviceMetrics>) -> Seq<(Seq<char>, Seq<char>)> {
    match metrics {
        Some(m) => when(m.air_util_tx != 0, ("Air/TX Utilization"@, percent_text(m.air_util_tx)))
            + when(
            m.channel_utilization != 0,
            ("Channel Utilization"@, percent_text(m.channel_utilization)),
        ) + when(m.voltage != 0, ("Device Voltage"@, voltage_text(metrics))) + when(
            1 <= m.battery_level <= 101,
            ("Battery Level"@, battery_text(metrics, "Plugged-in"@)),
        ),
        None => Seq::empty(),
    }
}

/// The lines of the position; a coordinate of zero has no line.
pub open spec fn position_lines(position: Option<Position>) -> Seq<(Seq<char>, Seq<char>)> {
    match position {
        Some(p) => when(p.latitude_i != 0, ("Latitude"@, fixed_text(p.latitude_i as int, 7, 2)))
            + when(p.longitude_i != 0, ("Longitude"@, fixed_text(p.longitude_i as int, 7, 2)))
            + when(p.altitude != 0, ("Altitude"@, signed_text(p.altitude as int) + "m"@)),
        None => Seq::empty(),
    }
}

/// The labelled facts of a node, top to bottom.
pub open spec fn basics_of(node: NodeView) -> Seq<(Seq<char>, Seq<char>)> {
    identity_lines(node) + seq![signal_line(node)] + device_lines(node.info.device_metrics)
        + position_lines(node.info.position)
}

/// The name shown for a neighbour: the identifier that its record
/// announces, or its number in hexadecimal behind `*` where the registry
/// has no identity for it.
pub open spec fn neighbor_name(registry: Map<u32, NodeView>, id: u32) -> Seq<char> {
    if registry.contains_key(id) && registry[id].info.user is Some {
        registry[id].info.user->0.id
    } else {
        "*"@ + hex_digits(id as nat)
    }
}

/// The span since a neighbour was last received from: none if it never was,
/// and zero seconds where the reception is not in the past.
pub open spec fn neighbor_span(now: u64, last_rx_time: u32) -> Option<u64> {
    if last_rx_time == 0 {
        None
    } else if now > last_rx_time {
        Some((now - last_rx_time) as u64)
    } else {
        Some(0)
    }
}

/// The line of one neighbour.
pub open spec fn neighbor_line(registry: Map<u32, NodeView>, now: u64) -> spec_fn(Neighbor) -> (
    Seq<char>,
    Seq<char>,
    Seq<char>,
) {
    |n: Neighbor|
        (
            neighbor_name(registry, n.node_id),
            fixed_text(n.snr as int, 6, 2) + "dB"@,
            match neighbor_span(now, n.last_rx_time) {
                Some(secs) => expanded_duration_text(secs),
                None => "Unknown"@,
            },
        )
}

/// The text of a traced route: the two ends and the hops between them,
/// with an arrow between each two neighbours; a route without hops is
/// marked as direct.
pub open spec fn route_text(from: u32, hops: Seq<u32>, to: u32) -> Seq<char> {
    if hops.len() == 0 {
        hop_text(from) + " -> "@ + hop_text(to) + " (Direct Hop)"@
    } else {
        hop_text(from) + " -> "@ + joined(hops.map_values(hop_texts()), " -> "@)
            + " -> "@ + hop_text(to)
    }
}

/// The latest route traced to a node from the dashboard's node, where the
/// dashboard's node is known and such a route was recorded.
pub open spec fn route_of(node: NodeView, me: Option<NodeView>) -> Option<Seq<char>> {
    match me {
        Some(m) => if node.routes.contains_key(m.id) {
            Some(route_text(m.id, node.routes[m.id], node.id))
        } else {
            None
        },
        None => None,
    }
}

/// What the detail view shows of a node.
pub open spec fn details_of(
    node: NodeView,
    registry: Map<u32, NodeView>,
    my_node_id: u32,
    now: u64,
) -> DetailsView {
    DetailsView {
        basics: basics_of(node),
        neighbors: node.neighbors.map_values(neighbor_line(registry, now)),
        route: route_of(
            node,
            if registry.contains_key(my_node_id) {
                Some(registry[my_node_id])
            } else {
                None
            },
        ),
    }
}

/// Appends a line.
fn push_line(out: &mut Vec<DetailLine>, label: &str, value: String)
    ensures
        line_views(final(out)@) == line_views(old(out)@).push((label@, value@)),
{
    let line = DetailLine { label: String::from_str(label), value };
    out.push(line);
    assert(line_views(out@) =~= line_views(old(out)@).push((label@, value@)));
}

/// A node's number as the network writes it.
pub fn hop_name(id: u32) -> (s: String)
    ensures
        s@ == hop_text(id),
{
    let mut s = String::from_str("!");
    push_hex(&mut s, id as u64);
    s
}

/// Appends the lines that identify a node.
fn push_identity(out: &mut Vec<DetailLine>, node: &ComprehensiveNode)
    ensures
        line_views(final(out)@) == line_views(old(out)@) + identity_lines(node@),
{
    if node.node_info.via_mqtt {
        push_line(out, "====(VIA MQTT)====", String::new());
    }
    let mut number = String::new();
    push_decimal(&mut number, node.id as u64);
    number.append(" (");
    let hop = hop_name(node.id);
    number.append(hop.as_str());
    number.append(")");
    push_line(out, "Node id (num)", number);
    match &node.node_info.user {
        Some(u) => {
            push_line(out, "Id (According to User)", u.id.clone());
            let mut name = u.long_name.clone();
            name.append(" (");
            name.append(u.short_name.as_str());
            name.append(")");
            push_line(out, "Name (Short)", name);
            push_line(out, "Hardware Model", u.hw_model.clone());
            let licensed = if u.is_licensed {
                String::from_str("true")
            } else {
                String::from_str("false")
            };
            push_line(out, "Licensed Operator", licensed);
            push_line(out, "Device Role", u.role.clone());
        },
        None => {
            let mut implied = String::from_str("*");
            push_hex(&mut implied, node.id as u64);
            push_line(out, "Id* (implied)", implied);
        },
    }
    assert(line_views(out@) =~= line_views(old(out)@) + identity_lines(node@));
}

/// A percentage with two decimals.
fn percent_cell(value: i64) -> (s: String)
    ensures
        s@ == percent_text(value),
{
    let mut s = String::new();
    push_fixed(&mut s, value, 6, 2);
    s.append("%");
    s
}

/// Appends the lines of the device readings.
fn push_device(out: &mut Vec<DetailLine>, metrics: &Option<DeviceMetrics>)
    ensures
        line_views(final(out)@) == line_views(old(out)@) + device_lines(*metrics),
{
    match metrics {
        Some(m) => {
            if m.air_util_tx != 0 {
                push_line(out, "Air/TX Utilization", percent_cell(m.air_util_tx));
            }
            if m.channel_utilization != 0 {
                push_line(out, "Channel Utilization", percent_cell(m.channel_utilization));
            }
            if m.voltage != 0 {
                push_line(out, "Device Voltage", voltage_cell(metrics));
            }
            if 1 <= m.battery_level && m.battery_level <= 101 {
                push_line(out, "Battery Level", battery_cell(metrics, "Plugged-in"));
            }
        },
        None => {},
    }
    assert(line_views(out@) =~= line_views(old(out)@) + device_lines(*metrics));
}

/// A coordinate in degrees with two decimals.
fn degrees_cell(value: i32) -> (s: String)
    ensures
        s@ == fixed_text(value as int, 7, 2),
{
    let mut s = String::new();
    push_fixed(&mut s, value as i64, 7, 2);
    s
}

/// Appends the lines of the position.
fn push_position(out: &mut Vec<DetailLine>, position: &Option<Position>)
    ensures
        line_views(final(out)@) == line_views(old(out)@) + position_lines(*position),
{
    match position {
        Some(p) => {
            if p.latitude_i != 0 {
                push_line(out, "Latitude", degrees_cell(p.latitude_i));
            }
            if p.longitude_i != 0 {
                push_line(out, "Longitude", degrees_cell(p.longitude_i));
            }
            if p.altitude != 0 {
                let mut altitude = String::new();
                push_signed(&mut altitude, p.altitude as i64);
                altitude.append("m");
                push_line(out, "Altitude", altitude);
            }
        },
        None => {},
    }
    assert(line_views(out@) =~= line_views(old(out)@) + position_lines(*position));
}

/// The labelled facts of a node, top to bottom.
pub fn basics(node: &ComprehensiveNode) -> (lines: Vec<DetailLine>)
    ensures
        line_views(lines@) == basics_of(node@),
{
    let mut lines: Vec<DetailLine> = Vec::new();
    assert(line_views(lines@) =~= Seq::empty());
    push_identity(&mut lines, node);
    let mut signal = String::new();
    push_fixed(&mut signal, node.last_snr, 6, 2);
    signal.append("dB/");
    push_signed(&mut signal, node.last_rssi as i64);
    signal.append("db");
    push_line(&mut lines, "Last RF SNR/RSSI", signal);
    push_device(&mut lines, &node.node_info.device_metrics);
    push_position(&mut lines, &node.node_info.position);
    assert(line_views(lines@) =~= basics_of(node@));
    lines
}

/// The name shown for a neighbour.
pub fn neighbor_label(registry: &NodeRegistry, id: u32) -> (s: String)
    ensures
        s@ == neighbor_name(registry@, id),
{
    match registry.get(id) {
        Some(record) => match &record.node_info.user {
            Some(u) => {
                return u.id.clone();
            },
            None => {},
        },
        None => {},
    }
    let mut s = String::from_str("*");
    push_hex(&mut s, id as u64);
    s
}

/// The lines of the neighbour table.
pub fn neighbor_table(registry: &NodeRegistry, neighbors: &Vec<Neighbor>, now: u64) -> (lines: Vec<
    NeighborLine,
>)
    ensures
        neighbor_views(lines@) == neighbors@.map_values(neighbor_line(registry@, now)),
{
    let mut lines: Vec<NeighborLine> = Vec::new();
    let mut i: usize = 0;
    while i < neighbors.len()
        invariant
            i <= neighbors@.len(),
            neighbor_views(lines@) == neighbors@.subrange(0, i as int).map_values(
                neighbor_line(registry@, now),
            ),
        decreases neighbors@.len() - i,
    {
        let n: Neighbor = neighbors[i];
        let mut snr = String::new();
        push_fixed(&mut snr, n.snr, 6, 2);
        snr.append("dB");
        let last_seen = if n.last_rx_time == 0 {
            String::from_str("Unknown")
        } else if now > n.last_rx_time as u64 {
            duration_words(now - n.last_rx_time as u64)
        } else {
            duration_words(0)
        };
        let line = NeighborLine { id: neighbor_label(registry, n.node_id), snr, last_seen };
        proof {
            let f = neighbor_line(registry@, now);
            assert(line@ == f(n));
            let done = neighbors@.subrange(0, i as int);
            assert(neighbors@.subrange(0, i + 1) =~= done.push(n));
            assert(done.push(n).map_values(f) =~= done.map_values(f).push(f(n)));
            assert(neighbor_views(lines@.push(line)) =~= neighbor_views(lines@).push(line@));
        }
        lines.push(line);
        i += 1;
    }
    assert(neighbors@.subrange(0, i as int) =~= neighbors@);
    lines
}

/// The text of a traced route.
pub fn route_line(from: u32, hops: &Vec<u32>, to: u32) -> (s: String)
    ensures
        s@ == route_text(from, hops@, to),
{
    let mut s = hop_name(from);
    s.append(" -> ");
    if hops.len() == 0 {
        let end = hop_name(to);
        s.append(end.as_str());
        s.append(" (Direct Hop)");
    } else {
        let mut names: Vec<String> = Vec::new();
        let mut i: usize = 0;
        while i < hops.len()
            invariant
                i <= hops@.len(),
                texts(names@) == hops@.subrange(0, i as int).map_values(hop_texts()),
            decreases hops@.len() - i,
        {
            let name = hop_name(hops[i]);
            proof {
                let done = hops@.subrange(0, i as int);
                assert(hops@.subrange(0, i + 1) =~= done.push(hops@[i as int]));
                assert(done.push(hops@[i as int]).map_values(hop_texts()) =~= done.map_values(
                    hop_texts(),
                ).push(name@));
                assert(texts(names@.push(name)) =~= texts(names@).push(name@));
            }
            names.push(name);
            i += 1;
        }
        assert(hops@.subrange(0, i as int) =~= hops@);
        let middle = join_texts(&names, " -> ");
        s.append(middle.as_str());
        s.append(" -> ");
        let end = hop_name(to);
        s.append(end.as_str());
    }
    s
}

/// The latest route traced to `node` from the dashboard's node.
pub fn route_to(node: &ComprehensiveNode, me: Option<&ComprehensiveNode>) -> (r: Option<String>)
    ensures
        match r {
            Some(s) => Some(s@),
            None => None,
        } == route_of(
            node@,
            match me {
                Some(m) => Some(m@),
                None => None,
            },
        ),
{
    match me {
        Some(m) => match node.route_list.get(&m.id) {
            Some(hops) => Some(route_line(m.id, hops, node.id)),
            None => None,
        },
        None => None,
    }
}

/// What the detail view shows of a node.
pub fn node_details(
    node: &ComprehensiveNode,
    registry: &NodeRegistry,
    my_node_id: u32,
    now: u64,
) -> (details: NodeDetails)
    ensures
        details@ == details_of(node@, registry@, my_node_id, now),
{
    NodeDetails {
        basics: basics(node),
        neighbors: neighbor_table(registry, &node.neighbors, now),
        route: route_to(node, registry.get(my_node_id)),
    }
}

} // verus!
