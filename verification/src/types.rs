use vstd::prelude::*;

verus! {

/// How the local node relates to the most advanced node of the cluster.
#[derive(Debug, Clone, Copy, PartialEq, Eq, Structural)]
pub enum Status {
    /// The local node has reached the remote round.
    Synced,
    /// The local node stopped advancing while the cluster went on.
    Stopped,
    /// The local node advances but is behind the remote round.
    CatchingUp,
}

impl Default for Status {
    fn default() -> (s: Status)
        ensures
            s == Status::Synced,
    {
        Status::Synced
    }
}

/// The view of an optional string: the characters it holds, if any.
pub open spec fn opt_string_view(s: Option<String>) -> Option<Seq<char>> {
    match s {
        Some(t) => Some(t@),
        None => None,
    }
}

/// Settings of the monitor, as read from its settings file.
#[derive(Debug, Clone)]
pub struct MonitorSettings {
    /// Milliseconds between two polls of the nodes.
    pub polling_rate: u64,
    /// API token sent to the nodes; empty when none is needed.
    pub x_algo_token: String,
    /// How many rounds the local node may lag before it counts as stopped.
    pub valid_round_range: i64,
    /// Base address of the local node.
    pub local_node: String,
    /// Base addresses of the other nodes of the cluster.
    pub cluster_nodes: Vec<String>,
    /// Port of the health endpoint.
    pub port: u64,
    /// Port of the node.
    pub node_port: u64,
}

/// Mathematical model of [`MonitorSettings`].
pub struct MonitorSettingsView {
    pub polling_rate: u64,
    pub x_algo_token: Seq<char>,
    pub valid_round_range: i64,
    pub local_node: Seq<char>,
    pub cluster_nodes: Seq<Seq<char>>,
    pub port: u64,
    pub node_port: u64,
}

impl View for MonitorSettings {
    type V = MonitorSettingsView;

    open spec fn view(&self) -> MonitorSettingsView {
        MonitorSettingsView {
            polling_rate: self.polling_rate,
            x_algo_token: self.x_algo_token@,
            valid_round_range: self.valid_round_range,
            local_node: self.local_node@,
            cluster_nodes: self.cluster_nodes@.map_values(|s: String| s@),
            port: self.port,
            node_port: self.node_port,
        }
    }
}

impl Default for MonitorSettings {
    fn default() -> (s: MonitorSettings)
        ensures
            s.polling_rate == 0,
            s.x_algo_token@ == Seq::<char>::empty(),
            s.valid_round_range == 0,
            s.local_node@ == Seq::<char>::empty(),
            s.cluster_nodes@.len() == 0,
            s.port == 0,
            s.node_port == 0,
    {
        MonitorSettings {
            polling_rate: 0,
            x_algo_token: String::new(),
            valid_round_range: 0,
            local_node: String::new(),
            cluster_nodes: Vec::new(),
            port: 0,
            node_port: 0,
        }
    }
}

/// The status report of a node (its `/v2/status` answer).
#[derive(Debug, Clone)]
pub struct NodeResponse {
    pub last_round: i64,
    pub last_version: String,
    pub next_version: String,
    pub next_version_round: i64,
    pub next_version_supported: bool,
    pub stopped_at_unsupported_round: bool,
    pub time_since_last_round: i64,
}

/// Mathematical model of [`NodeResponse`].
pub struct NodeResponseView {
    pub last_round: i64,
    pub last_version: Seq<char>,
    pub next_version: Seq<char>,
    pub next_version_round: i64,
    pub next_version_supported: bool,
    pub stopped_at_unsupported_round: bool,
    pub time_since_last_round: i64,
}

impl View for NodeResponse {
    type V = NodeResponseView;

    open spec fn view(&self) -> NodeResponseView {
        NodeResponseView {
            last_round: self.last_round,
            last_version: self.last_version@,
            next_version: self.next_version@,
            next_version_round: self.next_version_round,
            next_version_supported: self.next_version_supported,
            stopped_at_unsupported_round: self.stopped_at_unsupported_round,
            time_since_last_round: self.time_since_last_round,
        }
    }
}

/// The report with every field zero, false or empty.
pub open spec fn empty_node_response() -> NodeResponseView {
    NodeResponseView {
        last_round: 0,
        last_version: Seq::empty(),
        next_version: Seq::empty(),
        next_version_round: 0,
        next_version_supported: false,
        stopped_at_unsupported_round: false,
        time_since_last_round: 0,
    }
}

impl Default for NodeResponse {
    fn default() -> (r: NodeResponse)
        ensures
            r@ == empty_node_response(),
    {
        NodeResponse {
            last_round: 0,
            last_version: String::new(),
            next_version: String::new(),
            next_version_round: 0,
            next_version_supported: false,
            stopped_at_unsupported_round: false,
            time_since_last_round: 0,
        }
    }
}

/// The stored health record of the local node.
#[derive(Debug, Clone)]
pub struct Payload {
    /// Synced, stopped or catching up.
    pub status: Status,
    /// When the node was found to have stopped.
    pub time_stamp: Option<String>,
    /// Last round seen on the local node.
    pub local_last_round: i64,
    /// Last round seen on the most advanced remote node.
    pub remote_last_round: i64,
    /// How many rounds the local node is behind.
    pub offset: i64,
    /// Time since the local node's last round.
    pub time_since_last: i64,
}

/// Mathematical model of [`Payload`].
pub struct PayloadView {
    pub status: Status,
    pub time_stamp: Option<Seq<char>>,
    pub local_last_round: i64,
    pub remote_last_round: i64,
    pub offset: i64,
    pub time_since_last: i64,
}

impl View for Payload {
    type V = PayloadView;

    open spec fn view(&self) -> PayloadView {
        PayloadView {
            status: self.status,
            time_stamp: opt_string_view(self.time_stamp),
            local_last_round: self.local_last_round,
            remote_last_round: self.remote_last_round,
            offset: self.offset,
            time_since_last: self.time_since_last,
        }
    }
}

/// The record that the monitor starts from: synced, with no rounds seen.
pub open spec fn initial_payload() -> PayloadView {
    PayloadView {
        status: Status::Synced,
        time_stamp: None,
        local_last_round: 0,
        remote_last_round: 0,
        offset: 0,
        time_since_last: 0,
    }
}

impl Default for Payload {
    fn default() -> (p: Payload)
        ensures
            p@ == initial_payload(),
    {
        Payload {
            status: Status::Synced,
            time_stamp: None,
            local_last_round: 0,
            remote_last_round: 0,
            offset: 0,
            time_since_last: 0,
        }
    }
}

impl Payload {
    /// A copy of the record.
    pub fn duplicate(&self) -> (p: Payload)
        ensures
            p@ == self@,
    {
        let time_stamp = match &self.time_stamp {
            Some(t) => Some(t.clone()),
            None => None,
        };
        Payload {
            status: self.status,
            time_stamp,
            local_last_round: self.local_last_round,
            remote_last_round: self.remote_last_round,
            offset: self.offset,
            time_since_last: self.time_since_last,
        }
    }
}

/// Two reports are equal when every field is.
impl PartialEq for NodeResponse {
    fn eq(&self, other: &Self) -> (r: bool) {
        self.last_round == other.last_round && self.last_version == other.last_version
            && self.next_version == other.next_version && self.next_version_round
            == other.next_version_round && self.next_version_supported
            == other.next_version_supported && self.stopped_at_unsupported_round
            == other.stopped_at_unsupported_round && self.time_since_last_round
            == other.time_since_last_round
    }
}

impl vstd::std_specs::cmp::PartialEqSpecImpl for NodeResponse {
    open spec fn obeys_eq_spec() -> bool {
        true
    }

    open spec fn eq_spec(&self, other: &NodeResponse) -> bool {
        self@ == other@
    }
}

/// Two records are equal when every field is.
impl PartialEq for Payload {
    fn eq(&self, other: &Self) -> (r: bool) {
        let stamps_equal = match (&self.time_stamp, &other.time_stamp) {
            (Some(a), Some(b)) => *a == *b,
            (None, None) => true,
            _ => false,
        };
        self.status == other.status && stamps_equal && self.local_last_round
            == other.local_last_round && self.remote_last_round == other.remote_last_round
            && self.offset == other.offset && self.time_since_last == other.time_since_last
    }
}

impl vstd::std_specs::cmp::PartialEqSpecImpl for Payload {
    open spec fn obeys_eq_spec() -> bool {
        true
    }

    open spec fn eq_spec(&self, other: &Payload) -> bool {
        self@ == other@
    }
}

} // verus!
