//! The node tab: the registry, the table derived from it, the cursor, and
//! the display mode that decides what the keys do.

use crate::details::{details_of, hop_name, hop_text, node_details, DetailsView, NodeDetails};
use crate::graph::{DisplayedGraph, GraphData};
use crate::node::{ComprehensiveNode, NodeView, Position};
use crate::projector::{is_projection, newest_first, project, shown_keys, views};
use crate::registry::NodeRegistry;
use crate::rows::{is_located, located, project_row, row_of, DisplayRow, RowContext, RowView};
use vstd::prelude::*;
use vstd::string::*;

verus! {

/// What the node tab shows.
#[derive(Clone, Copy, Debug, PartialEq, Eq, Structural)]
pub enum DisplayMode {
    /// The table of all nodes.
    List,
    /// Everything known of the selected node.
    Detail,
    /// The key bindings.
    Help,
}

impl Default for DisplayMode {
    fn default() -> (mode: Self)
        ensures
            mode == DisplayMode::List,
    {
        DisplayMode::List
    }
}

/// Whether the dashboard goes on after a key.
#[derive(Clone, Copy, Debug, PartialEq, Eq, Structural)]
pub enum Mode {
    Running,
    Exiting,
}

/// What becomes of the dashboard's tab bar after a pan key.
#[derive(Clone, Copy, Debug, PartialEq, Eq, Structural)]
pub enum TabShift {
    /// The key was used up inside the node tab.
    Stay,
    /// The tab to the left is to be shown.
    Previous,
    /// The tab to the right is to be shown.
    Next,
}

/// The user's preferences, as far as the node tab reads them.
#[derive(Clone, Copy, Debug, PartialEq, Eq, Structural)]
pub struct Preferences {
    /// Whether nodes that came over the gateway bridge are listed.
    pub show_mqtt: bool,
}

/// The row that follows the selected one: the first row after the last,
/// and the first row where none is selected.
pub open spec fn row_after(selected: Option<usize>, len: nat) -> nat {
    match selected {
        Some(i) => if i + 1 >= len {
            0
        } else {
            (i + 1) as nat
        },
        None => 0,
    }
}

/// The row that precedes the selected one: the last row before the first,
/// the last row for a cursor beyond the table, and the first row where
/// none is selected or the table is empty.
pub open spec fn row_before(selected: Option<usize>, len: nat) -> nat {
    match selected {
        Some(i) => if len == 0 {
            0
        } else if i == 0 || i >= len {
            (len - 1) as nat
        } else {
            (i - 1) as nat
        },
        None => 0,
    }
}

/// The row one page below the selected one, stopping at the last row; the
/// first row where none is selected or the table is empty.
pub open spec fn page_after(selected: Option<usize>, len: nat, page: nat) -> nat {
    match selected {
        Some(i) => if len == 0 {
            0
        } else if i + page >= len {
            (len - 1) as nat
        } else {
            (i + page) as nat
        },
        None => 0,
    }
}

/// The row one page above the selected one, stopping at the first row; the
/// last row where that is still beyond the table, and the first row where
/// none is selected or the table is empty.
pub open spec fn page_before(selected: Option<usize>, len: nat, page: nat) -> nat {
    match selected {
        Some(i) => if len == 0 || i <= page {
            0
        } else if i - page >= len {
            (len - 1) as nat
        } else {
            (i - page) as nat
        },
        None => 0,
    }
}

/// Stepping down from the last row leads to the first, and stepping up
/// from the first row leads to the last.
pub proof fn lemma_row_navigation_wraps(len: nat)
    requires
        0 < len <= usize::MAX,
    ensures
        row_after(Some((len - 1) as usize), len) == 0,
        row_before(Some(0), len) == len - 1,
{
}

/// Single steps stay on the table, and a step down and a step up undo
/// each other.
pub proof fn lemma_row_navigation_stays(i: usize, len: nat)
    requires
        i < len <= usize::MAX,
    ensures
        row_after(Some(i), len) < len,
        row_before(Some(i), len) < len,
        row_after(Some(row_before(Some(i), len) as usize), len) == i,
        row_before(Some(row_after(Some(i), len) as usize), len) == i,
{
}

/// Paging stops at the ends of the table and never wraps: a page down
/// lands on the last row at most and not above where it started, a page
/// up lands on the first row at least and not below where it started.
pub proof fn lemma_paging_clamps(i: usize, len: nat, page: nat)
    requires
        i < len,
    ensures
        i <= page_after(Some(i), len, page) <= len - 1,
        page_after(Some(i), len, page) == if i + page <= len - 1 {
            i + page
        } else {
            len - 1
        },
        0 <= page_before(Some(i), len, page) <= i,
        page_before(Some(i), len, page) == if i - page >= 0 {
            i - page
        } else {
            0
        },
{
}

/// The row that follows the selected one.
pub fn next_row_index(selected: Option<usize>, len: usize) -> (i: usize)
    ensures
        i == row_after(selected, len as nat),
        len > 0 ==> i < len,
{
    match selected {
        Some(i) => if len == 0 || i >= len - 1 {
            0
        } else {
            i + 1
        },
        None => 0,
    }
}

/// The row that precedes the selected one.
pub fn prev_row_index(selected: Option<usize>, len: usize) -> (i: usize)
    ensures
        i == row_before(selected, len as nat),
        len > 0 ==> i < len,
{
    match selected {
        Some(i) => if len == 0 {
            0
        } else if i == 0 || i >= len {
            len - 1
        } else {
            i - 1
        },
        None => 0,
    }
}

/// The row one page below the selected one.
pub fn next_page_index(selected: Option<usize>, len: usize, page: u16) -> (i: usize)
    ensures
        i == page_after(selected, len as nat, page as nat),
        len > 0 ==> i < len,
{
    match selected {
        Some(i) => if len == 0 {
            0
        } else if i >= len - 1 || page as usize >= len - 1 - i {
            len - 1
        } else {
            i + page as usize
        },
        None => 0,
    }
}

/// The row one page above the selected one.
pub fn prev_page_index(selected: Option<usize>, len: usize, page: u16) -> (i: usize)
    ensures
        i == page_before(selected, len as nat, page as nat),
        len > 0 ==> i < len,
{
    match selected {
        Some(i) => if len == 0 || i <= page as usize {
            0
        } else if i - page as usize >= len {
            len - 1
        } else {
            i - page as usize
        },
        None => 0,
    }
}

/// The viewport capacity to record after a render pass over an area of
/// `height` rows: the height, where it differs from what was recorded and
/// the record can be written; what was recorded otherwise.
pub fn reconcile_page_size(recorded: u16, height: u16, writable: bool) -> (capacity: u16)
    ensures
        capacity == if height != recorded && writable {
            height
        } else {
            recorded
        },
{
    if height != recorded && writable {
        height
    } else {
        recorded
    }
}

/// The application port that route traces travel on.
pub const TRACEROUTE_PORT: i32 = 70;

/// A request to trace the route to a node, ready to be sent: the fields of
/// the packet, then those of the body that it carries.
#[derive(Debug)]
pub struct ProbeRequest {
    /// The node whose route is to be traced.
    pub destination: u32,
    /// The sender; zero lets the radio fill in its own number.
    pub source: u32,
    pub channel: u32,
    pub packet_id: u32,
    pub hop_limit: u32,
    pub want_ack: bool,
    pub priority: i32,
    pub via_mqtt: bool,
    /// The application port of the body.
    pub portnum: i32,
    pub payload: Vec<u8>,
    pub want_response: bool,
    /// The destination written in the body.
    pub body_dest: u32,
    /// The sender written in the body.
    pub body_source: u32,
    pub request_id: u32,
    pub reply_id: u32,
    pub emoji: u32,
}

impl ProbeRequest {
    /// Whether this is the probe for `destination`: addressed to it, on the
    /// route-trace port, acknowledgement and response asked for, nothing
    /// carried, and every other number left at the zero that lets the radio
    /// choose.
    pub open spec fn is_probe_for(self, destination: u32) -> bool {
        &&& self.destination == destination
        &&& self.source == 0
        &&& self.channel == 0
        &&& self.packet_id == 0
        &&& self.hop_limit == 0
        &&& self.want_ack
        &&& self.priority == 0
        &&& self.via_mqtt
        &&& self.portnum == TRACEROUTE_PORT
        &&& self.payload@ == Seq::<u8>::empty()
        &&& self.want_response
        &&& self.body_dest == 0
        &&& self.body_source == 0
        &&& self.request_id == 0
        &&& self.reply_id == 0
        &&& self.emoji == 0
    }

    /// The probe for `destination`.
    pub fn to(destination: u32) -> (request: Self)
        ensures
            request.is_probe_for(destination),
    {
        ProbeRequest {
            destination,
            source: 0,
            channel: 0,
            packet_id: 0,
            hop_limit: 0,
            want_ack: true,
            priority: 0,
            via_mqtt: true,
            portnum: TRACEROUTE_PORT,
            payload: Vec::new(),
            want_response: true,
            body_dest: 0,
            body_source: 0,
            request_id: 0,
            reply_id: 0,
            emoji: 0,
        }
    }
}

/// How grave a log line is.
#[derive(Clone, Copy, Debug, PartialEq, Eq, Structural)]
pub enum LogLevel {
    Info,
    Error,
}

/// One line for the log.
#[derive(Debug)]
pub struct LogLine {
    pub level: LogLevel,
    pub text: String,
}

/// What is handed to the front end for one render pass.
#[derive(Debug)]
pub enum Screen {
    /// The node table, top to bottom.
    List(Vec<DisplayRow>),
    /// The selected node's details and graph; nothing for a node that the
    /// registry does not know.
    Detail(Option<(NodeDetails, GraphData)>),
    /// The key bindings.
    Help,
}

/// The node tab.
#[derive(Debug)]
pub struct NodesTab {
    /// Every node that was heard of.
    pub node_list: NodeRegistry,
    /// The table cursor: the index of the selected row, if any.
    pub selected: Option<usize>,
    /// The rows of the table, as of the latest `run`.
    pub table_contents: Vec<ComprehensiveNode>,
    /// Where the scrollbar stands.
    pub scrollbar_position: usize,
    /// The node that runs the dashboard.
    pub my_node_id: u32,
    pub prefs: Preferences,
    pub display_mode: DisplayMode,
    /// The node that the detail view shows.
    pub selected_node_id: u32,
    /// How many rows the viewport holds.
    pub page_size: u16,
    /// The metric that the detail view graphs.
    pub which_graph: DisplayedGraph,
}

/// The view of a `NodesTab`.
pub struct TabView {
    pub registry: Map<u32, NodeView>,
    pub selected: Option<usize>,
    pub rows: Seq<NodeView>,
    pub scrollbar_position: usize,
    pub my_node_id: u32,
    pub prefs: Preferences,
    pub display_mode: DisplayMode,
    pub selected_node_id: u32,
    pub page_size: u16,
    pub which_graph: DisplayedGraph,
}

impl View for NodesTab {
    type V = TabView;

    open spec fn view(&self) -> TabView {
        TabView {
            registry: self.node_list@,
            selected: self.selected,
            rows: views(self.table_contents@),
            scrollbar_position: self.scrollbar_position,
            my_node_id: self.my_node_id,
            prefs: self.prefs,
            display_mode: self.display_mode,
            selected_node_id: self.selected_node_id,
            page_size: self.page_size,
            which_graph: self.which_graph,
        }
    }
}

impl TabView {
    /// The tab with the cursor on row `i` and the scrollbar beside it.
    pub open spec fn with_cursor(self, i: nat) -> TabView {
        TabView { selected: Some(i as usize), scrollbar_position: i as usize, ..self }
    }

    /// The tab with the cursor on row `i`, the scrollbar left where it was.
    pub open spec fn with_page_cursor(self, i: nat) -> TabView {
        TabView { selected: Some(i as usize), ..self }
    }

    /// The row under the cursor, if the cursor is on a row of the table.
    pub open spec fn cursor_row(self) -> Option<NodeView> {
        match self.selected {
            Some(i) => if i < self.rows.len() {
                Some(self.rows[i as int])
            } else {
                None
            },
            None => None,
        }
    }

    /// The last known position of the dashboard's own node.
    pub open spec fn my_position(self) -> Option<Position> {
        if self.registry.contains_key(self.my_node_id) {
            self.registry[self.my_node_id].info.position
        } else {
            None
        }
    }

    /// What row `i` depends on besides its record.
    pub open spec fn row_context(self, i: int, distances: Seq<Option<u32>>, now: u64) -> RowContext {
        RowContext {
            my_node_id: self.my_node_id,
            my_position: self.my_position(),
            distance_m: if i < distances.len() {
                distances[i]
            } else {
                None
            },
            now,
        }
    }

    /// The tab after the enter key.
    pub open spec fn entered(self) -> TabView {
        match self.display_mode {
            DisplayMode::List => match self.cursor_row() {
                Some(row) => TabView {
                    selected_node_id: row.id,
                    display_mode: DisplayMode::Detail,
                    ..self
                },
                None => self,
            },
            _ => TabView { display_mode: DisplayMode::List, ..self },
        }
    }

    /// The tab after the escape key.
    pub open spec fn escaped(self) -> TabView {
        TabView { display_mode: DisplayMode::List, ..self }
    }

    /// The node that a probe goes to: in detail mode the node that is
    /// shown; elsewhere the node of the row under the cursor, if the cursor
    /// is on a row.
    pub open spec fn probe_target(self) -> Option<u32> {
        match self.display_mode {
            DisplayMode::Detail => Some(self.selected_node_id),
            _ => match self.cursor_row() {
                Some(row) => Some(row.id),
                None => None,
            },
        }
    }

    /// The details of the selected node, if the registry knows it.
    pub open spec fn details(self, now: u64) -> Option<DetailsView> {
        if self.registry.contains_key(self.selected_node_id) {
            Some(
                details_of(
                    self.registry[self.selected_node_id],
                    self.registry,
                    self.my_node_id,
                    now,
                ),
            )
        } else {
            None
        }
    }
}

impl NodesTab {
    /// A tab that knows no node, in list mode, with nothing selected.
    pub fn new(my_node_id: u32) -> (tab: Self)
        ensures
            tab@ == (TabView {
                registry: Map::empty(),
                selected: None,
                rows: Seq::empty(),
                scrollbar_position: 0,
                my_node_id,
                prefs: Preferences { show_mqtt: false },
                display_mode: DisplayMode::List,
                selected_node_id: 0,
                page_size: 0,
                which_graph: DisplayedGraph::Battery,
            }),
    {
        let tab = NodesTab {
            node_list: NodeRegistry::new(),
            selected: None,
            table_contents: Vec::new(),
            scrollbar_position: 0,
            my_node_id,
            prefs: Preferences { show_mqtt: false },
            display_mode: DisplayMode::List,
            selected_node_id: 0,
            page_size: 0,
            which_graph: DisplayedGraph::Battery,
        };
        assert(tab@.rows =~= Seq::empty());
        tab
    }

    /// The pan-left key: in detail mode it steps the graph back one metric
    /// and is used up; elsewhere it asks for the tab to the left.
    pub fn prev_tab(&mut self) -> (shift: TabShift)
        ensures
            old(self)@.display_mode == DisplayMode::Detail ==> shift == TabShift::Stay
                && final(self)@ == (TabView {
                which_graph: old(self)@.which_graph.predecessor(),
                ..old(self)@
            }),
            old(self)@.display_mode != DisplayMode::Detail ==> shift == TabShift::Previous
                && final(self)@ == old(self)@,
    {
        if self.display_mode == DisplayMode::Detail {
            self.which_graph = self.which_graph.prev();
            TabShift::Stay
        } else {
            TabShift::Previous
        }
    }

    /// The pan-right key: in detail mode it steps the graph on one metric
    /// and is used up; elsewhere it asks for the tab to the right.
    pub fn next_tab(&mut self) -> (shift: TabShift)
        ensures
            old(self)@.display_mode == DisplayMode::Detail ==> shift == TabShift::Stay
                && final(self)@ == (TabView {
                which_graph: old(self)@.which_graph.successor(),
                ..old(self)@
            }),
            old(self)@.display_mode != DisplayMode::Detail ==> shift == TabShift::Next
                && final(self)@ == old(self)@,
    {
        if self.display_mode == DisplayMode::Detail {
            self.which_graph = self.which_graph.next();
            TabShift::Stay
        } else {
            TabShift::Next
        }
    }

    /// Starts a render cycle: takes the preferences and the viewport
    /// capacity of this cycle, and derives the table from the registry
    /// afresh, filtered by the bridge preference and ordered newest first.
    pub fn run(&mut self, prefs: &Preferences, page_size: u16)
        ensures
            final(self)@ == (TabView {
                prefs: *prefs,
                page_size,
                rows: final(self)@.rows,
                ..old(self)@
            }),
            is_projection(final(self)@.rows, old(self)@.registry, prefs.show_mqtt),
            newest_first(final(self)@.rows),
            final(self)@.rows.len() == shown_keys(old(self)@.registry, prefs.show_mqtt).len(),
    {
        self.prefs = *prefs;
        self.page_size = page_size;
        self.table_contents = project(&self.node_list, self.prefs.show_mqtt);
    }

    /// The rows of the table as the list view shows them. `distances` holds
    /// for each row, in order, the distance in metres between the
    /// dashboard's node and the row's node, where it was computed.
    pub fn rows(&self, distances: &Vec<Option<u32>>, now: u64) -> (rows: Vec<DisplayRow>)
        ensures
            rows@.len() == self@.rows.len(),
            forall|i: int|
                0 <= i < rows@.len() ==> (#[trigger] rows@[i])@ == row_of(
                    self@.rows[i],
                    self@.row_context(i, distances@, now),
                ),
    {
        let my_position: Option<Position> = match self.node_list.get(self.my_node_id) {
            Some(me) => me.node_info.position,
            None => None,
        };
        let mut rows: Vec<DisplayRow> = Vec::new();
        let mut i: usize = 0;
        while i < self.table_contents.len()
            invariant
                i <= self.table_contents@.len(),
                my_position == self@.my_position(),
                rows@.len() == i,
                forall|j: int|
                    0 <= j < i ==> (#[trigger] rows@[j])@ == row_of(
                        self@.rows[j],
                        self@.row_context(j, distances@, now),
                    ),
            decreases self.table_contents@.len() - i,
        {
            let distance_m: Option<u32> = if i < distances.len() {
                distances[i]
            } else {
                None
            };
            let ctx = RowContext { my_node_id: self.my_node_id, my_position, distance_m, now };
            let row = project_row(&self.table_contents[i], &ctx);
            rows.push(row);
            i += 1;
        }
        rows
    }

    /// For each row of the table, in order, the two positions between which
    /// a distance is to be computed: that of the dashboard's node and that
    /// of the row's node, where both are known.
    pub fn distance_requests(&self) -> (pairs: Vec<Option<(Position, Position)>>)
        ensures
            pairs@.len() == self@.rows.len(),
            forall|i: int|
                0 <= i < pairs@.len() ==> #[trigger] pairs@[i] == if located(self@.my_position())
                    && located(self@.rows[i].info.position) {
                    Some((self@.my_position()->0, self@.rows[i].info.position->0))
                } else {
                    None
                },
    {
        let my_position: Option<Position> = match self.node_list.get(self.my_node_id) {
            Some(me) => me.node_info.position,
            None => None,
        };
        let mut pairs: Vec<Option<(Position, Position)>> = Vec::new();
        let mut i: usize = 0;
        while i < self.table_contents.len()
            invariant
                i <= self.table_contents@.len(),
                my_position == self@.my_position(),
                pairs@.len() == i,
                forall|j: int|
                    0 <= j < i ==> #[trigger] pairs@[j] == if located(self@.my_position())
                        && located(self@.rows[j].info.position) {
                        Some((self@.my_position()->0, self@.rows[j].info.position->0))
                    } else {
                        None
                    },
            decreases self.table_contents@.len() - i,
        {
            let theirs: Option<Position> = self.table_contents[i].node_info.position;
            let pair = match (my_position, theirs) {
                (Some(a), Some(b)) => if is_located(&my_position) && is_located(&theirs) {
                    Some((a, b))
                } else {
                    None
                },
                _ => None,
            };
            pairs.push(pair);
            i += 1;
        }
        pairs
    }

    /// What the detail view shows of the selected node; nothing where the
    /// registry does not know that node.
    pub fn get_details_for_node(&self, now: u64) -> (details: Option<NodeDetails>)
        ensures
            match details {
                Some(d) => Some(d@),
                None => None,
            } == self@.details(now),
    {
        match self.node_list.get(self.selected_node_id) {
            Some(node) => Some(node_details(node, &self.node_list, self.my_node_id, now)),
            None => None,
        }
    }

    /// The graph of the current metric over the selected node's history;
    /// nothing where the registry does not know that node.
    pub fn make_graph(&self) -> (graph: Option<GraphData>)
        ensures
            match graph {
                Some(g) => self@.registry.contains_key(self@.selected_node_id) && g.is_graph_of(
                    self@.registry[self@.selected_node_id].samples,
                    self@.which_graph,
                ),
                None => !self@.registry.contains_key(self@.selected_node_id),
            },
    {
        match self.node_list.get(self.selected_node_id) {
            Some(node) => {
                let samples = node.timeseries.samples();
                Some(GraphData::build(&samples, self.which_graph))
            },
            None => None,
        }
    }

    /// The probe key: builds the request to trace the route to the selected
    /// node. In detail mode that is the node shown; elsewhere it is the node
    /// of the row under the cursor, and without such a row nothing is to be
    /// sent. The tab is left as it is.
    pub fn send_traceroute(&mut self) -> (request: Option<ProbeRequest>)
        ensures
            final(self)@ == old(self)@,
            match request {
                Some(r) => old(self)@.probe_target() is Some && r.is_probe_for(
                    old(self)@.probe_target()->0,
                ),
                None => old(self)@.probe_target() is None,
            },
    {
        match self.display_mode {
            DisplayMode::Detail => Some(ProbeRequest::to(self.selected_node_id)),
            _ => match self.selected {
                Some(index) => {
                    if index < self.table_contents.len() {
                        Some(ProbeRequest::to(self.table_contents[index].id))
                    } else {
                        None
                    }
                },
                None => None,
            },
        }
    }

    /// The line to log once a probe was handed to the radio link: an error
    /// with the link's reason where that failed, a note of the probe's
    /// destination where it went through. The tab is left as it is.
    pub fn traceroute_report(&self, request: &ProbeRequest, failure: Option<&str>) -> (line:
        LogLine)
        ensures
            match failure {
                Some(reason) => line.level == LogLevel::Error && line.text@
                    == "Tried sending traceroute but failed: "@ + reason@,
                None => line.level == LogLevel::Info && line.text@
                    == "Emitted Traceroute Request to "@ + hop_text(request.destination),
            },
    {
        match failure {
            Some(reason) => {
                let mut text = String::from_str("Tried sending traceroute but failed: ");
                text.append(reason);
                LogLine { level: LogLevel::Error, text }
            },
            None => {
                let mut text = String::from_str("Emitted Traceroute Request to ");
                let name = hop_name(request.destination);
                text.append(name.as_str());
                LogLine { level: LogLevel::Info, text }
            },
        }
    }

    /// The escape key: from the list it ends the dashboard; from the detail
    /// and help views it leads back to the list.
    pub fn escape(&mut self) -> (mode: Mode)
        ensures
            old(self)@.display_mode == DisplayMode::List ==> mode == Mode::Exiting && final(self)@
                == old(self)@,
            old(self)@.display_mode != DisplayMode::List ==> mode == Mode::Running && final(self)@
                == old(self)@.escaped(),
    {
        match self.display_mode {
            DisplayMode::List => Mode::Exiting,
            DisplayMode::Detail => {
                self.display_mode = DisplayMode::List;
                Mode::Running
            },
            DisplayMode::Help => {
                self.display_mode = DisplayMode::List;
                Mode::Running
            },
        }
    }

    /// The enter key: from the list it opens the details of the row under
    /// the cursor, if there is one; from the detail and help views it leads
    /// back to the list.
    pub fn enter_key(&mut self)
        ensures
            final(self)@ == old(self)@.entered(),
    {
        match self.display_mode {
            DisplayMode::List => {
                match self.selected {
                    Some(index) => {
                        if index < self.table_contents.len() {
                            self.selected_node_id = self.table_contents[index].id;
                            self.display_mode = DisplayMode::Detail;
                        }
                    },
                    None => {},
                }
            },
            DisplayMode::Detail => {
                self.display_mode = DisplayMode::List;
            },
            DisplayMode::Help => {
                self.display_mode = DisplayMode::List;
            },
        }
    }

    /// The up key: in list mode the cursor moves up one row, from the first
    /// row round to the last.
    pub fn prev_row(&mut self)
        ensures
            final(self)@ == if old(self)@.display_mode == DisplayMode::List {
                old(self)@.with_cursor(row_before(old(self)@.selected, old(self)@.rows.len()))
            } else {
                old(self)@
            },
    {
        if self.display_mode == DisplayMode::List {
            let i = prev_row_index(self.selected, self.table_contents.len());
            self.selected = Some(i);
            self.scrollbar_position = i;
        }
    }

    /// The down key: in list mode the cursor moves down one row, from the
    /// last row round to the first.
    pub fn next_row(&mut self)
        ensures
            final(self)@ == if old(self)@.display_mode == DisplayMode::List {
                old(self)@.with_cursor(row_after(old(self)@.selected, old(self)@.rows.len()))
            } else {
                old(self)@
            },
    {
        if self.display_mode == DisplayMode::List {
            let i = next_row_index(self.selected, self.table_contents.len());
            self.selected = Some(i);
            self.scrollbar_position = i;
        }
    }

    /// The page-down key: in list mode the cursor moves down by the
    /// viewport's capacity and stops at the last row.
    pub fn next_page(&mut self)
        ensures
            final(self)@ == if old(self)@.display_mode == DisplayMode::List {
                old(self)@.with_page_cursor(
                    page_after(
                        old(self)@.selected,
                        old(self)@.rows.len(),
                        old(self)@.page_size as nat,
                    ),
                )
            } else {
                old(self)@
            },
    {
        if self.display_mode == DisplayMode::List {
            let i = next_page_index(self.selected, self.table_contents.len(), self.page_size);
            self.selected = Some(i);
        }
    }

    /// The page-up key: in list mode the cursor moves up by the viewport's
    /// capacity and stops at the first row.
    pub fn prev_page(&mut self)
        ensures
            final(self)@ == if old(self)@.display_mode == DisplayMode::List {
                old(self)@.with_page_cursor(
                    page_before(
                        old(self)@.selected,
                        old(self)@.rows.len(),
                        old(self)@.page_size as nat,
                    ),
                )
            } else {
                old(self)@
            },
    {
        if self.display_mode == DisplayMode::List {
            let i = prev_page_index(self.selected, self.table_contents.len(), self.page_size);
            self.selected = Some(i);
        }
    }

    /// A function key: the first opens the help view, the second is the
    /// probe key, the others do nothing. Returns the request to send, if
    /// there is one.
    pub fn function_key(&mut self, num: u8) -> (request: Option<ProbeRequest>)
        ensures
            num == 1 ==> request is None && final(self)@ == (TabView {
                display_mode: DisplayMode::Help,
                ..old(self)@
            }),
            num == 2 ==> final(self)@ == old(self)@ && match request {
                Some(r) => old(self)@.probe_target() is Some && r.is_probe_for(
                    old(self)@.probe_target()->0,
                ),
                None => old(self)@.probe_target() is None,
            },
            num != 1 && num != 2 ==> request is None && final(self)@ == old(self)@,
    {
        if num == 1 {
            self.display_mode = DisplayMode::Help;
            None
        } else if num == 2 {
            self.send_traceroute()
        } else {
            None
        }
    }

    /// What the front end is to draw: the table in list mode, the selected
    /// node's details and graph in detail mode, the key bindings in help
    /// mode.
    pub fn render(&self, distances: &Vec<Option<u32>>, now: u64) -> (screen: Screen)
        ensures
            match screen {
                Screen::List(rows) => self@.display_mode == DisplayMode::List && rows@.len()
                    == self@.rows.len() && forall|i: int|
                    0 <= i < rows@.len() ==> (#[trigger] rows@[i])@ == row_of(
                        self@.rows[i],
                        self@.row_context(i, distances@, now),
                    ),
                Screen::Detail(Some(shown)) => self@.display_mode == DisplayMode::Detail
                    && self@.details(now) == Some(shown.0@) && shown.1.is_graph_of(
                    self@.registry[self@.selected_node_id].samples,
                    self@.which_graph,
                ),
                Screen::Detail(None) => self@.display_mode == DisplayMode::Detail
                    && !self@.registry.contains_key(self@.selected_node_id),
                Screen::Help => self@.display_mode == DisplayMode::Help,
            },
    {
        match self.display_mode {
            DisplayMode::List => Screen::List(self.rows(distances, now)),
            DisplayMode::Detail => {
                match (self.get_details_for_node(now), self.make_graph()) {
                    (Some(details), Some(graph)) => Screen::Detail(Some((details, graph))),
                    _ => Screen::Detail(None),
                }
            },
            DisplayMode::Help => Screen::Help,
        }
    }
}

} // verus!
