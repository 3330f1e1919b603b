//! The table row shown for a node in the list view.
//!
//! A field that was never reported reads zero; such a field is shown blank,
//! never as a zero reading.

use crate::node::{ComprehensiveNode, NodeView, Position};
use crate::series::DeviceMetrics;
use crate::text::{
    dec_digits, duration_words, expanded_duration_text, fixed_text, hex_digits, push_decimal,
    push_fixed, push_hex, push_signed, signed_text, texts,
};
use vstd::prelude::*;
use vstd::string::*;

verus! {

/// What a row depends on besides the node's own record.
#[derive(Clone, Copy, Debug)]
pub struct RowContext {
    /// The identifier of the node that runs the dashboard.
    pub my_node_id: u32,
    /// The last known position of that node.
    pub my_position: Option<Position>,
    /// The great-circle distance between that node and the row's node, in
    /// metres, where it was computed.
    pub distance_m: Option<u32>,
    /// Seconds; the clock reading taken for this render pass.
    pub now: u64,
}

/// Whether a position is known: present, with latitude and longitude both
/// other than zero.
pub open spec fn located(p: Option<Position>) -> bool {
    p matches Some(q) && q.latitude_i != 0 && q.longitude_i != 0
}

/// The identifier column: the announced identifier where there is a
/// non-empty one, behind `^` for the dashboard's own node; otherwise the
/// node's number in hexadecimal behind `*`.
pub open spec fn id_text(node: NodeView, my_node_id: u32) -> Seq<char> {
    match node.info.user {
        Some(u) => if u.id.len() == 0 {
            "*"@ + hex_digits(node.id as nat)
        } else if node.id == my_node_id {
            "^"@ + u.id
        } else {
            u.id
        },
        None => "*"@ + hex_digits(node.id as nat),
    }
}

/// The short-name column; blank without an identity payload.
pub open spec fn short_name_text(node: NodeView) -> Seq<char> {
    match node.info.user {
        Some(u) => u.short_name,
        None => Seq::empty(),
    }
}

/// The long-name column; blank without an identity payload.
pub open spec fn long_name_text(node: NodeView) -> Seq<char> {
    match node.info.user {
        Some(u) => u.long_name,
        None => Seq::empty(),
    }
}

/// The radio column: the bridge marker for a bridge-relayed node, else the
/// signal readings where a signal-to-noise ratio was reported, else blank.
pub open spec fn rf_text(node: NodeView) -> Seq<char> {
    if node.info.via_mqtt {
        "MQTT"@
    } else if node.last_snr != 0 {
        "SNR:"@ + fixed_text(node.last_snr as int, 6, 2) + "dB / RSSI:"@ + signed_text(
            node.last_rssi as int,
        ) + "dB"@
    } else {
        Seq::empty()
    }
}

/// The hop column: the bridge marker for a bridge-relayed node, else the
/// reported hop count.
pub open spec fn hops_text(node: NodeView) -> Seq<char> {
    if node.info.via_mqtt {
        "MQTT"@
    } else {
        dec_digits(node.info.hops_away as nat)
    }
}

/// The neighbour column: how many neighbours the node reported.
pub open spec fn neighbors_text(node: NodeView) -> Seq<char> {
    dec_digits(node.neighbors.len())
}

/// The distance column: kilometres with three decimals where both ends are
/// located and a distance was computed, else blank.
pub open spec fn distance_text(node: NodeView, ctx: RowContext) -> Seq<char> {
    match ctx.distance_m {
        Some(d) => if located(ctx.my_position) && located(node.info.position) {
            fixed_text(d as int, 3, 3) + "km"@
        } else {
            Seq::empty()
        },
        None => Seq::empty(),
    }
}

/// A coordinate column: degrees with five decimals, blank for zero.
pub open spec fn coordinate_text(value: i32) -> Seq<char> {
    if value != 0 {
        fixed_text(value as int, 7, 5)
    } else {
        Seq::empty()
    }
}

/// The latitude column.
pub open spec fn latitude_text(node: NodeView) -> Seq<char> {
    match node.info.position {
        Some(p) => coordinate_text(p.latitude_i),
        None => Seq::empty(),
    }
}

/// The longitude column.
pub open spec fn longitude_text(node: NodeView) -> Seq<char> {
    match node.info.position {
        Some(p) => coordinate_text(p.longitude_i),
        None => Seq::empty(),
    }
}

/// The altitude column: metres, blank for zero.
pub open spec fn altitude_text(node: NodeView) -> Seq<char> {
    match node.info.position {
        Some(p) => if p.altitude != 0 {
            signed_text(p.altitude as int) + "m"@
        } else {
            Seq::empty()
        },
        None => Seq::empty(),
    }
}

/// The voltage column: volts with two decimals, blank for zero.
pub open spec fn voltage_text(metrics: Option<DeviceMetrics>) -> Seq<char> {
    match metrics {
        Some(m) => if m.voltage != 0 {
            fixed_text(m.voltage as int, 6, 2) + "V"@
        } else {
            Seq::empty()
        },
        None => Seq::empty(),
    }
}

/// The battery column: a percentage for levels 1 to 100, `powered` for the
/// level 101, blank for anything else.
pub open spec fn battery_text(metrics: Option<DeviceMetrics>, powered: Seq<char>) -> Seq<char> {
    match metrics {
        Some(m) => if 1 <= m.battery_level <= 100 {
            dec_digits(m.battery_level as nat) + "%"@
        } else if m.battery_level == 101 {
            powered
        } else {
            Seq::empty()
        },
        None => Seq::empty(),
    }
}

/// The seconds that have gone by at `now` since `then`; none where `then`
/// is zero, is `now`, or lies ahead of it.
pub open spec fn elapsed(now: u64, then: u64) -> Option<u64> {
    if 0 < then < now {
        Some((now - then) as u64)
    } else {
        None
    }
}

/// An elapsed-time column: the span since `then` in words, or `Unknown`
/// where there is no span to show.
pub open spec fn elapsed_text(now: u64, then: u64) -> Seq<char> {
    match elapsed(now, then) {
        Some(secs) => expanded_duration_text(secs),
        None => "Unknown"@,
    }
}

/// One row of the node table.
#[derive(Debug)]
pub struct DisplayRow {
    pub id: String,
    pub short_name: String,
    pub long_name: String,
    pub rf: String,
    pub hops: String,
    pub neighbors: String,
    pub distance: String,
    pub latitude: String,
    pub longitude: String,
    pub altitude: String,
    pub voltage: String,
    pub battery: String,
    pub last_heard: String,
    pub last_update: String,
}

/// The view of a `DisplayRow`.
pub struct RowView {
    pub id: Seq<char>,
    pub short_name: Seq<char>,
    pub long_name: Seq<char>,
    pub rf: Seq<char>,
    pub hops: Seq<char>,
    pub neighbors: Seq<char>,
    pub distance: Seq<char>,
    pub latitude: Seq<char>,
    pub longitude: Seq<char>,
    pub altitude: Seq<char>,
    pub voltage: Seq<char>,
    pub battery: Seq<char>,
    pub last_heard: Seq<char>,
    pub last_update: Seq<char>,
}

impl View for DisplayRow {
    type V = RowView;

    open spec fn view(&self) -> RowView {
        RowView {
            id: self.id@,
            short_name: self.short_name@,
            long_name: self.long_name@,
            rf: self.rf@,
            hops: self.hops@,
            neighbors: self.neighbors@,
            distance: self.distance@,
            latitude: self.latitude@,
            longitude: self.longitude@,
            altitude: self.altitude@,
            voltage: self.voltage@,
            battery: self.battery@,
            last_heard: self.last_heard@,
            last_update: self.last_update@,
        }
    }
}

impl RowView {
    /// The cells of the row, left to right.
    pub open spec fn cells(self) -> Seq<Seq<char>> {
        seq![
            self.id,
            self.short_name,
            self.long_name,
            self.rf,
            self.hops,
            self.neighbors,
            self.distance,
            self.latitude,
            self.longitude,
            self.altitude,
            self.voltage,
            self.battery,
            self.last_heard,
            self.last_update,
        ]
    }
}

impl DisplayRow {
    /// The cells of the row, left to right.
    pub fn cells(self) -> (cells: Vec<String>)
        ensures
            texts(cells@) == self@.cells(),
    {
        let mut cells: Vec<String> = Vec::new();
        cells.push(self.id);
        cells.push(self.short_name);
        cells.push(self.long_name);
        cells.push(self.rf);
        cells.push(self.hops);
        cells.push(self.neighbors);
        cells.push(self.distance);
        cells.push(self.latitude);
        cells.push(self.longitude);
        cells.push(self.altitude);
        cells.push(self.voltage);
        cells.push(self.battery);
        cells.push(self.last_heard);
        cells.push(self.last_update);
        assert(texts(cells@) =~= self@.cells());
        cells
    }
}

/// The row that the list view shows for a node.
pub open spec fn row_of(node: NodeView, ctx: RowContext) -> RowView {
    RowView {
        id: id_text(node, ctx.my_node_id),
        short_name: short_name_text(node),
        long_name: long_name_text(node),
        rf: rf_text(node),
        hops: hops_text(node),
        neighbors: neighbors_text(node),
        distance: distance_text(node, ctx),
        latitude: latitude_text(node),
        longitude: longitude_text(node),
        altitude: altitude_text(node),
        voltage: voltage_text(node.info.device_metrics),
        battery: battery_text(node.info.device_metrics, "Powered"@),
        last_heard: elapsed_text(ctx.now, node.info.last_heard as u64),
        last_update: elapsed_text(ctx.now, node.last_seen),
    }
}

/// Whether a position is known.
pub fn is_located(p: &Option<Position>) -> (b: bool)
    ensures
        b == located(*p),
{
    match p {
        Some(q) => q.latitude_i != 0 && q.longitude_i != 0,
        None => false,
    }
}

/// The placeholder identifier of a node without a usable identity.
fn placeholder_id(id: u32) -> (s: String)
    ensures
        s@ == "*"@ + hex_digits(id as nat),
{
    let mut s = String::from_str("*");
    push_hex(&mut s, id as u64);
    s
}

/// The identifier column of a node.
pub fn id_cell(node: &ComprehensiveNode, my_node_id: u32) -> (s: String)
    ensures
        s@ == id_text(node@, my_node_id),
{
    match &node.node_info.user {
        Some(u) => {
            if u.id.as_str().is_empty() {
                placeholder_id(node.id)
            } else if node.id == my_node_id {
                let mut s = String::from_str("^");
                s.append(u.id.as_str());
                s
            } else {
                u.id.clone()
            }
        },
        None => placeholder_id(node.id),
    }
}

/// The radio column of a node.
pub fn rf_cell(node: &ComprehensiveNode) -> (s: String)
    ensures
        s@ == rf_text(node@),
{
    if node.node_info.via_mqtt {
        String::from_str("MQTT")
    } else if node.last_snr != 0 {
        let mut s = String::from_str("SNR:");
        push_fixed(&mut s, node.last_snr, 6, 2);
        s.append("dB / RSSI:");
        push_signed(&mut s, node.last_rssi as i64);
        s.append("dB");
        s
    } else {
        String::new()
    }
}

/// The hop column of a node.
pub fn hops_cell(node: &ComprehensiveNode) -> (s: String)
    ensures
        s@ == hops_text(node@),
{
    if node.node_info.via_mqtt {
        String::from_str("MQTT")
    } else {
        let mut s = String::new();
        push_decimal(&mut s, node.node_info.hops_away as u64);
        s
    }
}

/// The distance column of a node.
pub fn distance_cell(node: &ComprehensiveNode, ctx: &RowContext) -> (s: String)
    ensures
        s@ == distance_text(node@, *ctx),
{
    match ctx.distance_m {
        Some(d) => {
            if is_located(&ctx.my_position) && is_located(&node.node_info.position) {
                let mut s = String::new();
                push_fixed(&mut s, d as i64, 3, 3);
                s.append("km");
                s
            } else {
                String::new()
            }
        },
        None => String::new(),
    }
}

/// A coordinate column.
pub fn coordinate_cell(value: i32) -> (s: String)
    ensures
        s@ == coordinate_text(value),
{
    let mut s = String::new();
    if value != 0 {
        push_fixed(&mut s, value as i64, 7, 5);
    }
    s
}

/// The altitude column of a node.
pub fn altitude_cell(node: &ComprehensiveNode) -> (s: String)
    ensures
        s@ == altitude_text(node@),
{
    let mut s = String::new();
    match node.node_info.position {
        Some(p) => {
            if p.altitude != 0 {
                push_signed(&mut s, p.altitude as i64);
                s.append("m");
            }
        },
        None => {},
    }
    s
}

/// The voltage column for a node's device readings.
pub fn voltage_cell(metrics: &Option<DeviceMetrics>) -> (s: String)
    ensures
        s@ == voltage_text(*metrics),
{
    let mut s = String::new();
    match metrics {
        Some(m) => {
            if m.voltage != 0 {
                push_fixed(&mut s, m.voltage, 6, 2);
                s.append("V");
            }
        },
        None => {},
    }
    s
}

/// The battery column for a node's device readings; `powered` is shown for
/// a node on external power.
pub fn battery_cell(metrics: &Option<DeviceMetrics>, powered: &str) -> (s: String)
    ensures
        s@ == battery_text(*metrics, powered@),
{
    let mut s = String::new();
    match metrics {
        Some(m) => {
            if 1 <= m.battery_level && m.battery_level <= 100 {
                push_decimal(&mut s, m.battery_level as u64);
                s.append("%");
            } else if m.battery_level == 101 {
                s.append(powered);
            }
        },
        None => {},
    }
    s
}

/// The seconds gone by at `now` since `then`, where there is such a span.
pub fn elapsed_secs(now: u64, then: u64) -> (r: Option<u64>)
    ensures
        r == elapsed(now, then),
{
    if 0 < then && then < now {
        Some(now - then)
    } else {
        None
    }
}

/// The words shown for a span of seconds, or `Unknown` for no span.
pub fn span_cell(span: Option<u64>) -> (s: String)
    ensures
        s@ == match span {
            Some(secs) => expanded_duration_text(secs),
            None => "Unknown"@,
        },
{
    match span {
        Some(secs) => duration_words(secs),
        None => String::from_str("Unknown"),
    }
}

/// An elapsed-time column.
pub fn elapsed_cell(now: u64, then: u64) -> (s: String)
    ensures
        s@ == elapsed_text(now, then),
{
    span_cell(elapsed_secs(now, then))
}

/// The row that the list view shows for a node.
pub fn project_row(node: &ComprehensiveNode, ctx: &RowContext) -> (row: DisplayRow)
    ensures
        row@ == row_of(node@, *ctx),
{
    let (short_name, long_name) = match &node.node_info.user {
        Some(u) => (u.short_name.clone(), u.long_name.clone()),
        None => (String::new(), String::new()),
    };
    let (latitude, longitude) = match node.node_info.position {
        Some(p) => (coordinate_cell(p.latitude_i), coordinate_cell(p.longitude_i)),
        None => (String::new(), String::new()),
    };
    let mut neighbors = String::new();
    push_decimal(&mut neighbors, node.neighbors.len() as u64);
    DisplayRow {
        id: id_cell(node, ctx.my_node_id),
        short_name,
        long_name,
        rf: rf_cell(node),
        hops: hops_cell(node),
        neighbors,
        distance: distance_cell(node, ctx),
        latitude,
        longitude,
        altitude: altitude_cell(node),
        voltage: voltage_cell(&node.node_info.device_metrics),
        battery: battery_cell(&node.node_info.device_metrics, "Powered"),
        last_heard: elapsed_cell(ctx.now, node.node_info.last_heard as u64),
        last_update: elapsed_cell(ctx.now, node.last_seen),
    }
}

} // verus!
