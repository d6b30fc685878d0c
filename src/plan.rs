use vstd::prelude::*;
use crate::settings::Settings;

verus! {

/// One step of starting a node's services, in the order they are taken.
#[derive(PartialEq, Eq, Structural, Clone, Copy, Debug)]
pub enum Launch {
    /// Run the registration handshake with the service registry to its end.
    Register,
    /// Start the commit scheduler as a background task.
    StartCommitScheduler,
    /// Start the placement engine on the placement address as a background task.
    SpawnPlacement,
    /// Serve the HTTP router on the node's host and port: the coordinator's primary task.
    ServeRouter,
    /// Serve the RPC listener on the node's host and port: the data node's primary task.
    ServeRpc,
}

/// Whether a step is the node's primary task, whose end starts shutdown.
pub open spec fn is_primary(l: Launch) -> bool {
    l == Launch::ServeRouter || l == Launch::ServeRpc
}

/// The steps a node takes, given its master flag, whether clustering is enabled and the
/// auto-commit interval.
pub open spec fn spec_launch_plan(master: bool, clustering: bool, interval: u64) -> Seq<Launch> {
    if !master {
        seq![Launch::ServeRpc]
    } else if clustering {
        if interval > 0 {
            seq![Launch::Register, Launch::StartCommitScheduler, Launch::SpawnPlacement, Launch::ServeRouter]
        } else {
            seq![Launch::Register, Launch::SpawnPlacement, Launch::ServeRouter]
        }
    } else if interval > 0 {
        seq![Launch::StartCommitScheduler, Launch::ServeRouter]
    } else {
        seq![Launch::ServeRouter]
    }
}

/// The plan that a configuration selects.
pub open spec fn plan_of(s: Settings) -> Seq<Launch> {
    spec_launch_plan(s.master, s.enable_clustering, s.auto_commit_duration)
}

/// `x` stands in `s` at index `i` and nowhere else.
pub open spec fn sole_at(s: Seq<Launch>, x: Launch, i: int) -> bool {
    &&& 0 <= i < s.len()
    &&& s[i] == x
    &&& forall|j: int| 0 <= j < s.len() && #[trigger] s[j] == x ==> j == i
}

/// `x` does not stand in `s`.
pub open spec fn absent(s: Seq<Launch>, x: Launch) -> bool {
    forall|j: int| 0 <= j < s.len() ==> #[trigger] s[j] != x
}

/// The steps, in order, that start the services this configuration asks for.
pub fn launch_plan(settings: &Settings) -> (r: Vec<Launch>)
    ensures
        r@ == plan_of(*settings),
{
    let mut r: Vec<Launch> = Vec::new();
    if !settings.master {
        r.push(Launch::ServeRpc);
    } else {
        if settings.enable_clustering {
            r.push(Launch::Register);
        }
        if settings.auto_commit_duration > 0 {
            r.push(Launch::StartCommitScheduler);
        }
        if settings.enable_clustering {
            r.push(Launch::SpawnPlacement);
        }
        r.push(Launch::ServeRouter);
    }
    assert(r@ =~= plan_of(*settings));
    r
}

/// Every combination of role and clustering flag yields exactly one primary task, the last
/// step: the router on a coordinator and the RPC listener on a data node; and the placement
/// engine is started exactly when the node is a coordinator with clustering enabled.
pub proof fn lemma_one_primary(master: bool, clustering: bool, interval: u64)
    ensures
        ({
            let s = spec_launch_plan(master, clustering, interval);
            &&& s.len() > 0
            &&& is_primary(s.last())
            &&& forall|j: int| 0 <= j < s.len() - 1 ==> !is_primary(#[trigger] s[j])
            &&& master ==> s.last() == Launch::ServeRouter && absent(s, Launch::ServeRpc)
            &&& !master ==> s.last() == Launch::ServeRpc && absent(s, Launch::ServeRouter)
            &&& (master && clustering) == !absent(s, Launch::SpawnPlacement)
        }),
{
    let s = spec_launch_plan(master, clustering, interval);
    if master && clustering {
        assert(s[s.len() - 2] == Launch::SpawnPlacement);
    }
}

/// A zero auto-commit interval starts no commit scheduler; on a coordinator a positive one
/// starts exactly one, before the primary task.
pub proof fn lemma_commit_scheduler(master: bool, clustering: bool, interval: u64)
    ensures
        interval == 0 ==> absent(spec_launch_plan(master, clustering, interval), Launch::StartCommitScheduler),
        master && interval > 0 ==> exists|k: int, m: int|
            sole_at(spec_launch_plan(master, clustering, interval), Launch::StartCommitScheduler, k)
                && sole_at(spec_launch_plan(master, clustering, interval), Launch::ServeRouter, m)
                && k < m,
{
    let s = spec_launch_plan(master, clustering, interval);
    if master && interval > 0 {
        if clustering {
            assert(sole_at(s, Launch::StartCommitScheduler, 1) && sole_at(s, Launch::ServeRouter, 3));
        } else {
            assert(sole_at(s, Launch::StartCommitScheduler, 0) && sole_at(s, Launch::ServeRouter, 1));
        }
    }
}

/// On a clustering coordinator the registration handshake runs once, first, before the
/// placement engine is started, and the placement engine is started before the router serves.
pub proof fn lemma_register_first(clustering: bool, interval: u64)
    requires
        clustering,
    ensures
        ({
            let s = spec_launch_plan(true, clustering, interval);
            exists|p: int, m: int|
                sole_at(s, Launch::Register, 0) && sole_at(s, Launch::SpawnPlacement, p)
                    && sole_at(s, Launch::ServeRouter, m) && 0 < p < m
        }),
{
    let s = spec_launch_plan(true, clustering, interval);
    if interval > 0 {
        assert(sole_at(s, Launch::Register, 0) && sole_at(s, Launch::SpawnPlacement, 2) && sole_at(s, Launch::ServeRouter, 3));
    } else {
        assert(sole_at(s, Launch::Register, 0) && sole_at(s, Launch::SpawnPlacement, 1) && sole_at(s, Launch::ServeRouter, 2));
    }
}

/// A data node starts neither the router nor registration nor placement nor the commit
/// scheduler.
pub proof fn lemma_data_node_serves_rpc_only(clustering: bool, interval: u64)
    ensures
        spec_launch_plan(false, clustering, interval) == seq![Launch::ServeRpc],
{
}

} // verus!
