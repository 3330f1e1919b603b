//! The telemetry graph: which metric is shown, and the points and axis
//! bounds drawn for it.

use crate::series::TimeSeriesData;
use crate::text::{dec_digits, fixed_text, push_decimal, push_fixed};
use vstd::prelude::*;
use vstd::string::*;

verus! {

/// The number of metrics that can be graphed.
pub const GRAPH_COUNT: u8 = 10;

/// The metric that the detail view graphs. The variants stand in cycle
/// order.
#[derive(Clone, Copy, Debug, PartialEq, Eq, Structural)]
pub enum DisplayedGraph {
    Battery,
    Voltage,
    AirUtilization,
    ChannelUtilization,
    RSSI,
    SNR,
    Temperature,
    RelativeHumidity,
    BarometricPressure,
    GasResistance,
}

impl Default for DisplayedGraph {
    fn default() -> (g: Self)
        ensures
            g == DisplayedGraph::Battery,
    {
        DisplayedGraph::Battery
    }
}

impl DisplayedGraph {
    /// The place of a metric in the cycle, from zero.
    pub open spec fn ordinal(self) -> nat {
        match self {
            DisplayedGraph::Battery => 0,
            DisplayedGraph::Voltage => 1,
            DisplayedGraph::AirUtilization => 2,
            DisplayedGraph::ChannelUtilization => 3,
            DisplayedGraph::RSSI => 4,
            DisplayedGraph::SNR => 5,
            DisplayedGraph::Temperature => 6,
            DisplayedGraph::RelativeHumidity => 7,
            DisplayedGraph::BarometricPressure => 8,
            DisplayedGraph::GasResistance => 9,
        }
    }

    /// The metric at a place of the cycle; places wrap around.
    pub open spec fn at(place: nat) -> DisplayedGraph {
        let p = place % 10;
        if p == 0 {
            DisplayedGraph::Battery
        } else if p == 1 {
            DisplayedGraph::Voltage
        } else if p == 2 {
            DisplayedGraph::AirUtilization
        } else if p == 3 {
            DisplayedGraph::ChannelUtilization
        } else if p == 4 {
            DisplayedGraph::RSSI
        } else if p == 5 {
            DisplayedGraph::SNR
        } else if p == 6 {
            DisplayedGraph::Temperature
        } else if p == 7 {
            DisplayedGraph::RelativeHumidity
        } else if p == 8 {
            DisplayedGraph::BarometricPressure
        } else {
            DisplayedGraph::GasResistance
        }
    }

    /// The metric that follows this one; the last is followed by the first.
    pub open spec fn successor(self) -> DisplayedGraph {
        Self::at(self.ordinal() + 1)
    }

    /// The metric that precedes this one; the first is preceded by the last.
    pub open spec fn predecessor(self) -> DisplayedGraph {
        Self::at(self.ordinal() + 9)
    }

    /// This metric after `steps` steps forward.
    pub open spec fn advanced(self, steps: nat) -> DisplayedGraph
        decreases steps,
    {
        if steps == 0 {
            self
        } else {
            self.advanced((steps - 1) as nat).successor()
        }
    }

    /// This metric after `steps` steps backward.
    pub open spec fn retreated(self, steps: nat) -> DisplayedGraph
        decreases steps,
    {
        if steps == 0 {
            self
        } else {
            self.retreated((steps - 1) as nat).predecessor()
        }
    }

    /// The place of this metric in the cycle.
    pub fn index(&self) -> (i: u8)
        ensures
            i == self.ordinal(),
            i < GRAPH_COUNT,
    {
        match self {
            DisplayedGraph::Battery => 0,
            DisplayedGraph::Voltage => 1,
            DisplayedGraph::AirUtilization => 2,
            DisplayedGraph::ChannelUtilization => 3,
            DisplayedGraph::RSSI => 4,
            DisplayedGraph::SNR => 5,
            DisplayedGraph::Temperature => 6,
            DisplayedGraph::RelativeHumidity => 7,
            DisplayedGraph::BarometricPressure => 8,
            DisplayedGraph::GasResistance => 9,
        }
    }

    /// The metric at a place of the cycle; places wrap around.
    pub fn from_index(place: u8) -> (g: Self)
        ensures
            g == Self::at(place as nat),
    {
        match place % GRAPH_COUNT {
            0 => DisplayedGraph::Battery,
            1 => DisplayedGraph::Voltage,
            2 => DisplayedGraph::AirUtilization,
            3 => DisplayedGraph::ChannelUtilization,
            4 => DisplayedGraph::RSSI,
            5 => DisplayedGraph::SNR,
            6 => DisplayedGraph::Temperature,
            7 => DisplayedGraph::RelativeHumidity,
            8 => DisplayedGraph::BarometricPressure,
            _ => DisplayedGraph::GasResistance,
        }
    }

    /// The metric before this one in the cycle.
    pub fn prev(&self) -> (g: Self)
        ensures
            g == self.predecessor(),
    {
        Self::from_index(self.index() + (GRAPH_COUNT - 1))
    }

    /// The metric after this one in the cycle.
    pub fn next(&self) -> (g: Self)
        ensures
            g == self.successor(),
    {
        Self::from_index(self.index() + 1)
    }

    /// `steps` steps forward move the place forward by as many, wrapping
    /// round.
    pub proof fn lemma_advanced_place(self, steps: nat)
        ensures
            self.advanced(steps) == Self::at(self.ordinal() + steps),
        decreases steps,
    {
        if steps > 0 {
            self.lemma_advanced_place((steps - 1) as nat);
        }
    }

    /// `steps` steps backward move the place backward by as many, wrapping
    /// round.
    pub proof fn lemma_retreated_place(self, steps: nat)
        ensures
            self.retreated(steps) == Self::at(self.ordinal() + 9 * steps),
        decreases steps,
    {
        if steps > 0 {
            self.lemma_retreated_place((steps - 1) as nat);
        }
    }

    /// Ten steps forward lead back to the metric they started from.
    pub proof fn lemma_next_cycle(self)
        ensures
            self.advanced(10) == self,
    {
        self.lemma_advanced_place(10);
    }

    /// Ten steps backward lead back to the metric they started from.
    pub proof fn lemma_prev_cycle(self)
        ensures
            self.retreated(10) == self,
    {
        self.lemma_retreated_place(10);
    }

    /// A step forward and a step backward undo each other.
    pub proof fn lemma_next_prev_inverse(self)
        ensures
            self.successor().predecessor() == self,
            self.predecessor().successor() == self,
    {
    }
}

/// The reading of one metric in a sample, in millionths of the metric's
/// unit. The battery level, a whole percentage, is scaled to match.
pub open spec fn metric_value(sample: TimeSeriesData, which: DisplayedGraph) -> int {
    match which {
        DisplayedGraph::Battery => sample.device.battery_level * 1_000_000,
        DisplayedGraph::Voltage => sample.device.voltage as int,
        DisplayedGraph::AirUtilization => sample.device.air_util_tx as int,
        DisplayedGraph::ChannelUtilization => sample.device.channel_utilization as int,
        DisplayedGraph::RSSI => sample.rssi as int,
        DisplayedGraph::SNR => sample.snr as int,
        DisplayedGraph::Temperature => sample.environment.temperature as int,
        DisplayedGraph::RelativeHumidity => sample.environment.relative_humidity as int,
        DisplayedGraph::BarometricPressure => sample.environment.barometric_pressure as int,
        DisplayedGraph::GasResistance => sample.environment.gas_resistance as int,
    }
}

/// The point that a sample contributes to a metric's graph: its timestamp
/// and its reading.
pub open spec fn point_of(which: DisplayedGraph) -> spec_fn(TimeSeriesData) -> (u64, i64) {
    |sample: TimeSeriesData| (sample.timestamp, metric_value(sample, which) as i64)
}

/// Whether a point carries a reading: a reading of exactly zero stands for
/// "not reported".
pub open spec fn is_reported() -> spec_fn((u64, i64)) -> bool {
    |point: (u64, i64)| point.1 != 0
}

/// The points plotted for a metric: one per sample, in capture order,
/// without those whose reading is exactly zero.
pub open spec fn series_of(samples: Seq<TimeSeriesData>, which: DisplayedGraph) -> Seq<
    (u64, i64),
> {
    samples.map_values(point_of(which)).filter(is_reported())
}

/// The least of the values, and zero where there is none.
pub open spec fn lowest(values: Seq<int>) -> int
    decreases values.len(),
{
    if values.len() == 0 {
        0
    } else if values.len() == 1 {
        values[0]
    } else {
        let rest = lowest(values.drop_last());
        if values.last() < rest {
            values.last()
        } else {
            rest
        }
    }
}

/// The greatest of the values, and zero where there is none.
pub open spec fn highest(values: Seq<int>) -> int
    decreases values.len(),
{
    if values.len() == 0 {
        0
    } else if values.len() == 1 {
        values[0]
    } else {
        let rest = highest(values.drop_last());
        if values.last() > rest {
            values.last()
        } else {
            rest
        }
    }
}

/// The timestamps of the points.
pub open spec fn times_of(points: Seq<(u64, i64)>) -> Seq<int> {
    points.map_values(|p: (u64, i64)| p.0 as int)
}

/// The readings of the points.
pub open spec fn readings_of(points: Seq<(u64, i64)>) -> Seq<int> {
    points.map_values(|p: (u64, i64)| p.1 as int)
}

/// The title of a metric's graph.
pub open spec fn title_text(which: DisplayedGraph) -> Seq<char> {
    match which {
        DisplayedGraph::Battery => "Battery"@,
        DisplayedGraph::Voltage => "Device Voltage"@,
        DisplayedGraph::AirUtilization => "Air Utilization"@,
        DisplayedGraph::ChannelUtilization => "Channel Utilization"@,
        DisplayedGraph::RSSI => "RSSI"@,
        DisplayedGraph::SNR => "SNR"@,
        DisplayedGraph::Temperature => "Temperature"@,
        DisplayedGraph::RelativeHumidity => "Relative Humidity"@,
        DisplayedGraph::BarometricPressure => "Barometric Pressure"@,
        DisplayedGraph::GasResistance => "Gas Resistance"@,
    }
}

/// The unit written on a metric's value axis.
pub open spec fn unit_text(which: DisplayedGraph) -> Seq<char> {
    match which {
        DisplayedGraph::Battery => "Percent (%)"@,
        DisplayedGraph::Voltage => "Volts (V)"@,
        DisplayedGraph::AirUtilization => "Percent (%)"@,
        DisplayedGraph::ChannelUtilization => "Percent (%)"@,
        DisplayedGraph::RSSI => "decibels (dB)"@,
        DisplayedGraph::SNR => "decibels (dB)"@,
        DisplayedGraph::Temperature => "Celsius (C)"@,
        DisplayedGraph::RelativeHumidity => "Percent (%)"@,
        DisplayedGraph::BarometricPressure => "millibars (mb)"@,
        DisplayedGraph::GasResistance => "milliohms (mΩ)"@,
    }
}

impl DisplayedGraph {
    /// The name of the variant, as text.
    pub open spec fn label_text(self) -> Seq<char> {
        match self {
            DisplayedGraph::Battery => "Battery"@,
            DisplayedGraph::Voltage => "Voltage"@,
            DisplayedGraph::AirUtilization => "AirUtilization"@,
            DisplayedGraph::ChannelUtilization => "ChannelUtilization"@,
            DisplayedGraph::RSSI => "RSSI"@,
            DisplayedGraph::SNR => "SNR"@,
            DisplayedGraph::Temperature => "Temperature"@,
            DisplayedGraph::RelativeHumidity => "RelativeHumidity"@,
            DisplayedGraph::BarometricPressure => "BarometricPressure"@,
            DisplayedGraph::GasResistance => "GasResistance"@,
        }
    }

    /// The name of the variant, as text.
    pub fn label(&self) -> (s: String)
        ensures
            s@ == self.label_text(),
    {
        match self {
            DisplayedGraph::Battery => String::from_str("Battery"),
            DisplayedGraph::Voltage => String::from_str("Voltage"),
            DisplayedGraph::AirUtilization => String::from_str("AirUtilization"),
            DisplayedGraph::ChannelUtilization => String::from_str("ChannelUtilization"),
            DisplayedGraph::RSSI => String::from_str("RSSI"),
            DisplayedGraph::SNR => String::from_str("SNR"),
            DisplayedGraph::Temperature => String::from_str("Temperature"),
            DisplayedGraph::RelativeHumidity => String::from_str("RelativeHumidity"),
            DisplayedGraph::BarometricPressure => String::from_str("BarometricPressure"),
            DisplayedGraph::GasResistance => String::from_str("GasResistance"),
        }
    }

    /// The title of this metric's graph.
    pub fn title(&self) -> (s: String)
        ensures
            s@ == title_text(*self),
    {
        match self {
            DisplayedGraph::Battery => String::from_str("Battery"),
            DisplayedGraph::Voltage => String::from_str("Device Voltage"),
            DisplayedGraph::AirUtilization => String::from_str("Air Utilization"),
            DisplayedGraph::ChannelUtilization => String::from_str("Channel Utilization"),
            DisplayedGraph::RSSI => String::from_str("RSSI"),
            DisplayedGraph::SNR => String::from_str("SNR"),
            DisplayedGraph::Temperature => String::from_str("Temperature"),
            DisplayedGraph::RelativeHumidity => String::from_str("Relative Humidity"),
            DisplayedGraph::BarometricPressure => String::from_str("Barometric Pressure"),
            DisplayedGraph::GasResistance => String::from_str("Gas Resistance"),
        }
    }

    /// The unit written on this metric's value axis.
    pub fn unit(&self) -> (s: String)
        ensures
            s@ == unit_text(*self),
    {
        match self {
            DisplayedGraph::Battery => String::from_str("Percent (%)"),
            DisplayedGraph::Voltage => String::from_str("Volts (V)"),
            DisplayedGraph::AirUtilization => String::from_str("Percent (%)"),
            DisplayedGraph::ChannelUtilization => String::from_str("Percent (%)"),
            DisplayedGraph::RSSI => String::from_str("decibels (dB)"),
            DisplayedGraph::SNR => String::from_str("decibels (dB)"),
            DisplayedGraph::Temperature => String::from_str("Celsius (C)"),
            DisplayedGraph::RelativeHumidity => String::from_str("Percent (%)"),
            DisplayedGraph::BarometricPressure => String::from_str("millibars (mb)"),
            DisplayedGraph::GasResistance => String::from_str("milliohms (mΩ)"),
        }
    }

    /// The reading of this metric in a sample, in millionths of its unit.
    pub fn reading(&self, sample: &TimeSeriesData) -> (v: i64)
        ensures
            v == metric_value(*sample, *self),
    {
        match self {
            DisplayedGraph::Battery => (sample.device.battery_level as i64) * 1_000_000,
            DisplayedGraph::Voltage => sample.device.voltage,
            DisplayedGraph::AirUtilization => sample.device.air_util_tx,
            DisplayedGraph::ChannelUtilization => sample.device.channel_utilization,
            DisplayedGraph::RSSI => sample.rssi,
            DisplayedGraph::SNR => sample.snr,
            DisplayedGraph::Temperature => sample.environment.temperature,
            DisplayedGraph::RelativeHumidity => sample.environment.relative_humidity,
            DisplayedGraph::BarometricPressure => sample.environment.barometric_pressure,
            DisplayedGraph::GasResistance => sample.environment.gas_resistance,
        }
    }
}

/// What the detail view draws for one node and one metric.
#[derive(Debug)]
pub struct GraphData {
    /// The title of the graph.
    pub name: String,
    /// The unit of the value axis.
    pub unit: String,
    /// Timestamp and reading of each plotted point, in capture order.
    pub points: Vec<(u64, i64)>,
    /// The least and the greatest timestamp plotted; both zero without points.
    pub x_bounds: (u64, u64),
    /// The least and the greatest reading plotted; both zero without points.
    pub y_bounds: (i64, i64),
    /// The two labels of the time axis.
    pub x_labels: (String, String),
    /// The two labels of the value axis.
    pub y_labels: (String, String),
}

impl GraphData {
    /// Whether this is the graph of `which` over `samples`.
    pub open spec fn is_graph_of(self, samples: Seq<TimeSeriesData>, which: DisplayedGraph) -> bool {
        let points = series_of(samples, which);
        &&& self.name@ == title_text(which)
        &&& self.unit@ == unit_text(which)
        &&& self.points@ == points
        &&& self.x_bounds.0 == lowest(times_of(points))
        &&& self.x_bounds.1 == highest(times_of(points))
        &&& self.y_bounds.0 == lowest(readings_of(points))
        &&& self.y_bounds.1 == highest(readings_of(points))
        &&& self.x_labels.0@ == dec_digits(self.x_bounds.0 as nat)
        &&& self.x_labels.1@ == dec_digits(self.x_bounds.1 as nat)
        &&& self.y_labels.0@ == fixed_text(self.y_bounds.0 as int, 6, 2)
        &&& self.y_labels.1@ == fixed_text(self.y_bounds.1 as int, 6, 2)
    }

    /// The graph of one metric over a history.
    pub fn build(samples: &Vec<TimeSeriesData>, which: DisplayedGraph) -> (g: GraphData)
        ensures
            g.is_graph_of(samples@, which),
    {
        let points = plot_points(samples, which);
        let x_bounds = time_bounds(&points);
        let y_bounds = reading_bounds(&points);
        let mut x_low = String::new();
        push_decimal(&mut x_low, x_bounds.0);
        let mut x_high = String::new();
        push_decimal(&mut x_high, x_bounds.1);
        let mut y_low = String::new();
        push_fixed(&mut y_low, y_bounds.0, 6, 2);
        let mut y_high = String::new();
        push_fixed(&mut y_high, y_bounds.1, 6, 2);
        GraphData {
            name: which.title(),
            unit: which.unit(),
            points,
            x_bounds,
            y_bounds,
            x_labels: (x_low, x_high),
            y_labels: (y_low, y_high),
        }
    }
}

/// The points plotted for a metric over a history.
pub fn plot_points(samples: &Vec<TimeSeriesData>, which: DisplayedGraph) -> (points: Vec<
    (u64, i64),
>)
    ensures
        points@ == series_of(samples@, which),
{
    let mut points: Vec<(u64, i64)> = Vec::new();
    let mut i: usize = 0;
    proof {
        reveal(Seq::filter);
        assert(samples@.subrange(0, 0).map_values(point_of(which)) =~= Seq::empty());
    }
    while i < samples.len()
        invariant
            i <= samples.len(),
            points@ == series_of(samples@.subrange(0, i as int), which),
        decreases samples.len() - i,
    {
        let v: i64 = which.reading(&samples[i]);
        let point: (u64, i64) = (samples[i].timestamp, v);
        proof {
            let before = samples@.subrange(0, i as int);
            let mapped = before.map_values(point_of(which));
            assert(samples@.subrange(0, i + 1) =~= before.push(samples@[i as int]));
            assert(before.push(samples@[i as int]).map_values(point_of(which)) =~= mapped.push(
                point,
            ));
            mapped.lemma_filter_push(point, is_reported());
        }
        if v != 0 {
            points.push(point);
        }
        i += 1;
    }
    assert(samples@.subrange(0, i as int) =~= samples@);
    points
}

/// The least and the greatest timestamp among points; zeros without points.
pub fn time_bounds(points: &Vec<(u64, i64)>) -> (bounds: (u64, u64))
    ensures
        bounds.0 == lowest(times_of(points@)),
        bounds.1 == highest(times_of(points@)),
{
    if points.len() == 0 {
        return (0, 0);
    }
    let mut low: u64 = points[0].0;
    let mut high: u64 = points[0].0;
    let mut i: usize = 1;
    assert(times_of(points@.subrange(0, 1)) =~= seq![points@[0].0 as int]);
    while i < points.len()
        invariant
            1 <= i <= points.len(),
            low == lowest(times_of(points@.subrange(0, i as int))),
            high == highest(times_of(points@.subrange(0, i as int))),
        decreases points.len() - i,
    {
        proof {
            let next = times_of(points@.subrange(0, i + 1));
            assert(next.drop_last() =~= times_of(points@.subrange(0, i as int)));
            assert(next.last() == points@[i as int].0);
        }
        if points[i].0 < low {
            low = points[i].0;
        }
        if points[i].0 > high {
            high = points[i].0;
        }
        i += 1;
    }
    assert(points@.subrange(0, i as int) =~= points@);
    (low, high)
}

/// The least and the greatest reading among points; zeros without points.
pub fn reading_bounds(points: &Vec<(u64, i64)>) -> (bounds: (i64, i64))
    ensures
        bounds.0 == lowest(readings_of(points@)),
        bounds.1 == highest(readings_of(points@)),
{
    if points.len() == 0 {
        return (0, 0);
    }
    let mut low: i64 = points[0].1;
    let mut high: i64 = points[0].1;
    let mut i: usize = 1;
    assert(readings_of(points@.subrange(0, 1)) =~= seq![points@[0].1 as int]);
    while i < points.len()
        invariant
            1 <= i <= points.len(),
            low == lowest(readings_of(points@.subrange(0, i as int))),
            high == highest(readings_of(points@.subrange(0, i as int))),
        decreases points.len() - i,
    {
        proof {
            let next = readings_of(points@.subrange(0, i + 1));
            assert(next.drop_last() =~= readings_of(points@.subrange(0, i as int)));
            assert(next.last() == points@[i as int].1);
        }
        if points[i].1 < low {
            low = points[i].1;
        }
        if points[i].1 > high {
            high = points[i].1;
        }
        i += 1;
    }
    assert(points@.subrange(0, i as int) =~= points@);
    (low, high)
}

/// `lowest` is a lower bound of the values, and one of them.
pub proof fn lemma_lowest_is_minimum(values: Seq<int>)
    requires
        values.len() > 0,
    ensures
        forall|i: int| 0 <= i < values.len() ==> lowest(values) <= values[i],
        exists|i: int| 0 <= i < values.len() && values[i] == lowest(values),
    decreases values.len(),
{
    if values.len() > 1 {
        let rest = values.drop_last();
        lemma_lowest_is_minimum(rest);
        let w = choose|i: int| 0 <= i < rest.len() && rest[i] == lowest(rest);
        assert(values[w] == rest[w]);
        assert forall|i: int| 0 <= i < values.len() implies lowest(values) <= values[i] by {
            if i < rest.len() {
                assert(values[i] == rest[i]);
            }
        }
        if values.last() < lowest(rest) {
            assert(values[values.len() - 1] == lowest(values));
        } else {
            assert(values[w] == lowest(values));
        }
    } else {
        assert(values[0] == lowest(values));
    }
}

/// `highest` is an upper bound of the values, and one of them.
pub proof fn lemma_highest_is_maximum(values: Seq<int>)
    requires
        values.len() > 0,
    ensures
        forall|i: int| 0 <= i < values.len() ==> highest(values) >= values[i],
        exists|i: int| 0 <= i < values.len() && values[i] == highest(values),
    decreases values.len(),
{
    if values.len() > 1 {
        let rest = values.drop_last();
        lemma_highest_is_maximum(rest);
        let w = choose|i: int| 0 <= i < rest.len() && rest[i] == highest(rest);
        assert(values[w] == rest[w]);
        assert forall|i: int| 0 <= i < values.len() implies highest(values) >= values[i] by {
            if i < rest.len() {
                assert(values[i] == rest[i]);
            }
        }
        if values.last() > highest(rest) {
            assert(values[values.len() - 1] == highest(values));
        } else {
            assert(values[w] == highest(values));
        }
    } else {
        assert(values[0] == highest(values));
    }
}

/// Zero stands for "not reported": no plotted point has a zero reading, a
/// sample whose reading is zero contributes no point, and every other
/// sample's point is plotted.
pub proof fn lemma_series_drops_exactly_zero(samples: Seq<TimeSeriesData>, which: DisplayedGraph)
    ensures
        forall|j: int|
            0 <= j < series_of(samples, which).len() ==> (#[trigger] series_of(
                samples,
                which,
            )[j]).1 != 0,
        forall|i: int|
            0 <= i < samples.len() ==> (metric_value(#[trigger] samples[i], which) != 0
                <==> series_of(samples, which).contains(
                (samples[i].timestamp, metric_value(samples[i], which) as i64),
            )),
{
    let mapped = samples.map_values(point_of(which));
    let kept = series_of(samples, which);
    assert forall|j: int| 0 <= j < kept.len() implies (#[trigger] kept[j]).1 != 0 by {
        mapped.lemma_filter_pred(is_reported(), j);
    }
    assert forall|i: int| 0 <= i < samples.len() implies (metric_value(
        #[trigger] samples[i],
        which,
    ) != 0 <==> kept.contains((samples[i].timestamp, metric_value(samples[i], which) as i64))) by {
        let point = point_of(which)(samples[i]);
        assert(mapped[i] == point);
        if point.1 != 0 {
            mapped.lemma_filter_contains(is_reported(), i);
        }
        if kept.contains(point) {
            let j = choose|j: int| 0 <= j < kept.len() && kept[j] == point;
            mapped.lemma_filter_pred(is_reported(), j);
        }
    }
}

/// The plotted points are in capture order: each comes from a sample, and
/// of two points the earlier comes from the earlier sample.
pub proof fn lemma_series_keeps_order(samples: Seq<TimeSeriesData>, which: DisplayedGraph)
    ensures
        series_of(samples, which).len() <= samples.len(),
        samples.len() > 0 ==> series_of(samples, which) == if metric_value(
            samples.last(),
            which,
        ) != 0 {
            series_of(samples.drop_last(), which).push(
                (samples.last().timestamp, metric_value(samples.last(), which) as i64),
            )
        } else {
            series_of(samples.drop_last(), which)
        },
{
    let mapped = samples.map_values(point_of(which));
    mapped.lemma_filter_len(is_reported());
    if samples.len() > 0 {
        let front = samples.drop_last().map_values(point_of(which));
        assert(mapped =~= front.push(point_of(which)(samples.last())));
        front.lemma_filter_push(point_of(which)(samples.last()), is_reported());
    }
}

} // verus!
