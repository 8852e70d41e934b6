//! The listing of all customers.
//!
//! The engine lists nodes up to a limit and tells how many there are, but cannot resume a
//! list. So a sweep asks again with a higher limit until it has everything.

use vstd::prelude::*;

use crate::error::ClientError;
use crate::graph::{graph_proto, GraphClient, NodeSummary};
use crate::segment::SegmentClient;

verus! {

/// What a sweep needs next, or its result.
#[derive(Debug)]
pub enum SweepStep {
    /// List nodes.
    ListNodes(graph_proto::ListNodesRequest),
    /// The ids of the customers in the last list: of all customers, unless the engine listed
    /// fewer than it was asked for and fewer than it counts, or batches are empty.
    Done(Vec<u64>),
}

/// The ids of listed nodes, in order.
pub open spec fn listed_ids(nodes: Seq<graph_proto::ListedNode>) -> Seq<u64> {
    nodes.map_values(|n: graph_proto::ListedNode| n.node_id)
}

/// A list is short of nodes that a higher limit can bring: it holds as many as were asked for,
/// there are more, and the limit can still grow.
pub open spec fn is_short(listed: int, total: int, limit: u32, batch_size: u32) -> bool {
    listed < total && listed >= limit && batch_size > 0 && limit < u32::MAX
}

/// The limit of the next request.
pub open spec fn raised(limit: u32, batch_size: u32) -> u32 {
    if limit + batch_size > u32::MAX {
        u32::MAX
    } else {
        (limit + batch_size) as u32
    }
}

/// `req` asks for the nodes of a type, up to a limit.
pub open spec fn is_list_request(
    node_type: Seq<char>,
    limit: u32,
    req: graph_proto::ListNodesRequest,
) -> bool {
    &&& req.node_type_filter@ == node_type
    &&& req.external_id_filter@ == Seq::<char>::empty()
    &&& req.limit == limit
}

/// A listing of all customers in progress.
pub struct CustomerSweep {
    node_type: String,
    batch_size: u32,
    limit: u32,
}

impl SegmentClient {
    /// Start to list the ids of all nodes of a type, in batches.
    pub fn list_all_customers(customer_node_type: &str, batch_size: u32) -> (r: (
        CustomerSweep,
        graph_proto::ListNodesRequest,
    ))
        ensures
            r.0.spec_node_type() == customer_node_type@,
            r.0.spec_batch_size() == batch_size,
            r.0.spec_limit() == batch_size,
            is_list_request(customer_node_type@, batch_size, r.1),
    {
        let sweep = CustomerSweep {
            node_type: customer_node_type.to_string(),
            batch_size,
            limit: batch_size,
        };
        let req = sweep.request();
        (sweep, req)
    }
}

impl CustomerSweep {
    /// The node type of the customers.
    pub closed spec fn spec_node_type(self) -> Seq<char> {
        self.node_type@
    }

    /// The number of nodes by which each request goes beyond the one before.
    pub closed spec fn spec_batch_size(self) -> u32 {
        self.batch_size
    }

    /// The limit of the current request.
    pub closed spec fn spec_limit(self) -> u32 {
        self.limit
    }

    fn request(&self) -> (req: graph_proto::ListNodesRequest)
        ensures
            is_list_request(self.spec_node_type(), self.spec_limit(), req),
    {
        proof {
            reveal_strlit("");
            assert(""@ =~= Seq::<char>::empty());
        }
        GraphClient::list_nodes_request(self.node_type.as_str(), "", self.limit)
    }

    /// Take in a list of nodes: ask again with a higher limit where the list is short, and
    /// give the ids where it is not. A refused call ends the sweep.
    pub fn on_nodes(&mut self, reply: Result<graph_proto::ListNodesResponse, tonic::Status>) -> (r:
        Result<SweepStep, ClientError>)
        ensures
            final(self).spec_node_type() == old(self).spec_node_type(),
            final(self).spec_batch_size() == old(self).spec_batch_size(),
            match reply {
                Err(s) => {
                    &&& r == Err::<SweepStep, ClientError>(ClientError::Status(s))
                    &&& final(self).spec_limit() == old(self).spec_limit()
                },
                Ok(m) => if is_short(
                    m.nodes@.len() as int,
                    m.total_count as int,
                    old(self).spec_limit(),
                    old(self).spec_batch_size(),
                ) {
                    &&& final(self).spec_limit() == raised(
                        old(self).spec_limit(),
                        old(self).spec_batch_size(),
                    )
                    &&& r matches Ok(SweepStep::ListNodes(req))
                    &&& is_list_request(
                        old(self).spec_node_type(),
                        final(self).spec_limit(),
                        req,
                    )
                } else {
                    &&& final(self).spec_limit() == old(self).spec_limit()
                    &&& r matches Ok(SweepStep::Done(ids))
                    &&& ids@ == listed_ids(m.nodes@)
                },
            },
    {
        match GraphClient::list_nodes(reply) {
            Err(e) => Err(e),
            Ok((nodes, total)) => {
                let count: u64 = nodes.len() as u64;
                if count < total as u64 && count >= self.limit as u64 && self.batch_size > 0
                    && self.limit < u32::MAX {
                    self.limit = self.limit.saturating_add(self.batch_size);
                    Ok(SweepStep::ListNodes(self.request()))
                } else {
                    let ids = Self::ids_of(nodes);
                    assert(ids@ =~= listed_ids(reply->Ok_0.nodes@));
                    Ok(SweepStep::Done(ids))
                }
            },
        }
    }

    fn ids_of(nodes: Vec<NodeSummary>) -> (r: Vec<u64>)
        ensures
            r@.len() == nodes@.len(),
            forall|i: int| 0 <= i < nodes@.len() ==> #[trigger] r@[i] == nodes@[i].node_id,
    {
        let mut r: Vec<u64> = Vec::new();
        let mut i: usize = 0;
        while i < nodes.len()
            invariant
                i <= nodes@.len(),
                r@.len() == i,
                forall|j: int| 0 <= j < i ==> #[trigger] r@[j] == nodes@[j].node_id,
            decreases nodes@.len() - i,
        {
            r.push(nodes[i].node_id);
            i += 1;
        }
        r
    }
}

/// Each further request of a sweep goes beyond the one before, so a sweep comes to an end.
pub proof fn law_sweep_limit_grows(listed: int, total: int, limit: u32, batch_size: u32)
    requires
        is_short(listed, total, limit, batch_size),
    ensures
        limit < raised(limit, batch_size),
{
}

/// The list that an engine with the nodes `all` gives: the first of them, up to the limit.
pub open spec fn list_up_to(all: Seq<graph_proto::ListedNode>, limit: u32) -> Seq<
    graph_proto::ListedNode,
> {
    if limit < all.len() {
        all.take(limit as int)
    } else {
        all
    }
}

/// The ids that a sweep ends with, before an engine with the nodes `all`, from a request with
/// this limit on.
pub open spec fn swept(
    all: Seq<graph_proto::ListedNode>,
    limit: u32,
    batch_size: u32,
) -> Seq<u64>
    decreases u32::MAX - limit,
{
    let nodes = list_up_to(all, limit);
    if is_short(nodes.len() as int, all.len() as int, limit, batch_size) {
        swept(all, raised(limit, batch_size), batch_size)
    } else {
        listed_ids(nodes)
    }
}

/// A sweep ends with the ids of all nodes of the type, in the order of the engine, whatever the
/// size of a batch.
pub proof fn law_sweep_lists_all_nodes(
    all: Seq<graph_proto::ListedNode>,
    limit: u32,
    batch_size: u32,
)
    requires
        batch_size > 0,
        all.len() <= u32::MAX,
    ensures
        swept(all, limit, batch_size) == listed_ids(all),
    decreases u32::MAX - limit,
{
    let nodes = list_up_to(all, limit);
    if is_short(nodes.len() as int, all.len() as int, limit, batch_size) {
        law_sweep_lists_all_nodes(all, raised(limit, batch_size), batch_size);
    }
}

} // verus!
