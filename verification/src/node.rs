//! The record kept for each mesh participant.
//!
//! Each type that owns text or collections has a view: a value made of
//! sequences and maps that the contracts speak of.

use crate::series::{appended, DeviceMetrics, TimeSeriesData, TimeSeriesStore, MAX_RETENTION};
use std::collections::HashMap;
use vstd::prelude::*;

verus! {

broadcast use vstd::std_specs::hash::group_hash_axioms;

/// What a node says of its owner.
#[derive(Debug)]
pub struct User {
    /// The identifier that the node announces for itself.
    pub id: String,
    pub long_name: String,
    pub short_name: String,
    /// The name of the hardware model.
    pub hw_model: String,
    pub is_licensed: bool,
    /// The name of the device role.
    pub role: String,
}

/// The view of a `User`.
pub struct UserView {
    pub id: Seq<char>,
    pub long_name: Seq<char>,
    pub short_name: Seq<char>,
    pub hw_model: Seq<char>,
    pub is_licensed: bool,
    pub role: Seq<char>,
}

impl View for User {
    type V = UserView;

    open spec fn view(&self) -> UserView {
        UserView {
            id: self.id@,
            long_name: self.long_name@,
            short_name: self.short_name@,
            hw_model: self.hw_model@,
            is_licensed: self.is_licensed,
            role: self.role@,
        }
    }
}

impl Clone for User {
    /// A copy with the same view.
    fn clone(&self) -> (r: User)
        ensures
            r@ == self@,
    {
        User {
            id: self.id.clone(),
            long_name: self.long_name.clone(),
            short_name: self.short_name.clone(),
            hw_model: self.hw_model.clone(),
            is_licensed: self.is_licensed,
            role: self.role.clone(),
        }
    }
}

/// A reported position. Latitude and longitude count ten-millionths of a
/// degree; zero means unknown.
#[derive(Clone, Copy, Debug)]
pub struct Position {
    pub latitude_i: i32,
    pub longitude_i: i32,
    /// Metres above sea level.
    pub altitude: i32,
    pub time: u32,
}

/// One entry of a node's neighbour report.
#[derive(Clone, Copy, Debug)]
pub struct Neighbor {
    pub node_id: u32,
    /// Millionths of a decibel.
    pub snr: i64,
    /// Seconds; zero means never.
    pub last_rx_time: u32,
}

/// The identity and status payload that the network reports for a node.
#[derive(Debug)]
pub struct NodeInfo {
    pub num: u32,
    pub user: Option<User>,
    pub position: Option<Position>,
    /// Millionths of a decibel.
    pub snr: i64,
    /// Seconds; zero means never.
    pub last_heard: u32,
    pub device_metrics: Option<DeviceMetrics>,
    pub channel: u32,
    /// Whether the report came over the gateway bridge and not over radio.
    pub via_mqtt: bool,
    pub hops_away: u32,
}

/// The view of a `NodeInfo`.
pub struct NodeInfoView {
    pub num: u32,
    pub user: Option<UserView>,
    pub position: Option<Position>,
    pub snr: i64,
    pub last_heard: u32,
    pub device_metrics: Option<DeviceMetrics>,
    pub channel: u32,
    pub via_mqtt: bool,
    pub hops_away: u32,
}

impl View for NodeInfo {
    type V = NodeInfoView;

    open spec fn view(&self) -> NodeInfoView {
        NodeInfoView {
            num: self.num,
            user: match self.user {
                Some(u) => Some(u@),
                None => None,
            },
            position: self.position,
            snr: self.snr,
            last_heard: self.last_heard,
            device_metrics: self.device_metrics,
            channel: self.channel,
            via_mqtt: self.via_mqtt,
            hops_away: self.hops_away,
        }
    }
}

impl NodeInfo {
    /// The payload of a node of which nothing is known yet.
    pub open spec fn unknown() -> NodeInfoView {
        NodeInfoView {
            num: 0,
            user: None,
            position: None,
            snr: 0,
            last_heard: 0,
            device_metrics: None,
            channel: 0,
            via_mqtt: false,
            hops_away: 0,
        }
    }

    /// The payload of a node of which nothing is known yet.
    pub fn empty() -> (info: NodeInfo)
        ensures
            info@ == Self::unknown(),
    {
        NodeInfo {
            num: 0,
            user: None,
            position: None,
            snr: 0,
            last_heard: 0,
            device_metrics: None,
            channel: 0,
            via_mqtt: false,
            hops_away: 0,
        }
    }

}

impl Clone for NodeInfo {
    /// A copy with the same view.
    fn clone(&self) -> (r: NodeInfo)
        ensures
            r@ == self@,
    {
        let user = match &self.user {
            Some(u) => Some(u.clone()),
            None => None,
        };
        NodeInfo {
            num: self.num,
            user,
            position: self.position,
            snr: self.snr,
            last_heard: self.last_heard,
            device_metrics: self.device_metrics,
            channel: self.channel,
            via_mqtt: self.via_mqtt,
            hops_away: self.hops_away,
        }
    }
}

/// Everything known of one mesh participant.
#[derive(Debug)]
pub struct ComprehensiveNode {
    /// The node's stable identifier.
    pub id: u32,
    pub node_info: NodeInfo,
    /// Seconds; when this record was last updated.
    pub last_seen: u64,
    pub neighbors: Vec<Neighbor>,
    /// Millionths of a decibel, from the latest direct reception.
    pub last_snr: i64,
    /// Decibels, from the latest direct reception.
    pub last_rssi: i32,
    /// For each destination, the hops of the latest successful route trace
    /// to it; no hops means a direct link.
    pub route_list: HashMap<u32, Vec<u32>>,
    pub timeseries: TimeSeriesStore,
    /// The timestamp of the oldest retained sample.
    pub timeseries_start: u64,
}

/// The view of a `ComprehensiveNode`.
pub struct NodeView {
    pub id: u32,
    pub info: NodeInfoView,
    pub last_seen: u64,
    pub neighbors: Seq<Neighbor>,
    pub last_snr: i64,
    pub last_rssi: i32,
    pub routes: Map<u32, Seq<u32>>,
    pub samples: Seq<TimeSeriesData>,
    pub timeseries_start: u64,
}

impl View for ComprehensiveNode {
    type V = NodeView;

    open spec fn view(&self) -> NodeView {
        NodeView {
            id: self.id,
            info: self.node_info@,
            last_seen: self.last_seen,
            neighbors: self.neighbors@,
            last_snr: self.last_snr,
            last_rssi: self.last_rssi,
            routes: self.route_list@.map_values(|hops: Vec<u32>| hops@),
            samples: self.timeseries@,
            timeseries_start: self.timeseries_start,
        }
    }
}

impl ComprehensiveNode {
    /// The record of a node of which only the identifier is known.
    pub open spec fn fresh(id: u32) -> NodeView {
        NodeView {
            id,
            info: NodeInfo::unknown(),
            last_seen: 0,
            neighbors: Seq::empty(),
            last_snr: 0,
            last_rssi: 0,
            routes: Map::empty(),
            samples: Seq::empty(),
            timeseries_start: 0,
        }
    }

    /// The record of a node of which only the identifier is known.
    pub fn with_id(id: u32) -> (node: Self)
        ensures
            node@ == Self::fresh(id),
    {
        let node = ComprehensiveNode {
            id,
            node_info: NodeInfo::empty(),
            last_seen: 0,
            neighbors: Vec::new(),
            last_snr: 0,
            last_rssi: 0,
            route_list: HashMap::new(),
            timeseries: TimeSeriesStore::new(),
            timeseries_start: 0,
        };
        assert(node@.routes =~= Map::empty());
        node
    }

}

impl Clone for ComprehensiveNode {
    /// A copy with the same view.
    fn clone(&self) -> (r: Self)
        ensures
            r@ == self@,
    {
        let neighbors = self.neighbors.clone();
        assert(neighbors@ =~= self.neighbors@);
        let r = ComprehensiveNode {
            id: self.id,
            node_info: self.node_info.clone(),
            last_seen: self.last_seen,
            neighbors,
            last_snr: self.last_snr,
            last_rssi: self.last_rssi,
            route_list: self.route_list.clone(),
            timeseries: self.timeseries.clone(),
            timeseries_start: self.timeseries_start,
        };
        r
    }
}

impl ComprehensiveNode {
    /// Appends a telemetry sample to the history and notes when the oldest
    /// retained sample was taken.
    pub fn record_sample(&mut self, sample: TimeSeriesData)
        ensures
            final(self)@ == (NodeView {
                samples: appended(old(self)@.samples, sample, MAX_RETENTION as nat),
                timeseries_start: appended(old(self)@.samples, sample, MAX_RETENTION as nat)[0].timestamp,
                ..old(self)@
            }),
    {
        self.timeseries.push(sample);
        match self.timeseries.get(0) {
            Some(first) => {
                self.timeseries_start = first.timestamp;
            },
            None => {},
        }
    }

    /// Records the hops of a successful route trace to `destination`,
    /// replacing what was known of that destination.
    pub fn set_route(&mut self, destination: u32, hops: Vec<u32>)
        ensures
            final(self)@ == (NodeView {
                routes: old(self)@.routes.insert(destination, hops@),
                ..old(self)@
            }),
    {
        self.route_list.insert(destination, hops);
        assert(self@.routes =~= old(self)@.routes.insert(destination, hops@));
    }
}

} // verus!
