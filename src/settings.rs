use vstd::prelude::*;

verus! {

/// The part a node plays in the cluster.
#[derive(PartialEq, Eq, Structural, Clone, Copy, Debug)]
pub enum Role {
    /// Serves the routing API and may drive registration and placement.
    Coordinator,
    /// Serves the inter-node RPC transport only.
    DataNode,
}

/// Where a listener binds: a host name or address, and a port.
#[derive(Clone, Debug)]
pub struct Endpoint {
    pub host: String,
    pub port: u16,
}

/// The node's configuration, read once at startup and never changed.
#[derive(Clone, Debug)]
pub struct Settings {
    /// Whether this node is a coordinating ("master") node.
    pub master: bool,
    pub host: String,
    pub port: u16,
    /// The data-storage path.
    pub path: String,
    pub log_level: String,
    /// The address of the service-discovery registry.
    pub consul_addr: String,
    pub cluster_name: String,
    /// The address the placement engine binds to.
    pub place_addr: String,
    pub enable_clustering: bool,
    /// The auto-commit interval; zero disables the commit scheduler.
    pub auto_commit_duration: u64,
}

/// The role that a node with this master flag plays.
pub open spec fn spec_role(master: bool) -> Role {
    if master { Role::Coordinator } else { Role::DataNode }
}

impl Settings {
    /// The role this configuration selects.
    pub fn role(&self) -> (r: Role)
        ensures
            r == spec_role(self.master),
    {
        if self.master { Role::Coordinator } else { Role::DataNode }
    }

    /// The host and port that the primary listener (router or RPC) binds to.
    pub fn bind_endpoint(&self) -> (r: Endpoint)
        ensures
            r.host@ == self.host@,
            r.port == self.port,
    {
        Endpoint { host: self.host.clone(), port: self.port }
    }
}

} // verus!
