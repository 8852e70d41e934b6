//! What the unified client promises.

use vstd::prelude::*;

use crate::client::{ingested_ids, Client, ConnectPlan};
use crate::error::ClientError;
use crate::graph::{graph_proto, GraphClient};
use crate::types::{EdgeState, IngestTransactionResult, NodeIngestOutcome, NodeRef};

verus! {

/// A connection is opened to the endpoint as given, kept alive every 30 seconds and without
/// delay, exactly where the endpoint was parsed; an error of the parsing is handed on.
pub proof fn law_connection_is_to_the_endpoint(
    endpoint: &str,
    parsed: Result<(), tonic::transport::Error>,
    r: Result<ConnectPlan, tonic::transport::Error>,
    connected: Result<ConnectPlan, tonic::transport::Error>,
)
    requires
        call_ensures(Client::connect_plan, (endpoint, parsed), r),
        call_ensures(Client::connect, (endpoint,), connected),
    ensures
        parsed matches Err(e) ==> r matches Err(f) && f == e,
        parsed is Ok ==> r is Ok,
        r matches Ok(plan) ==> plan.endpoint@ == endpoint@ && plan.tcp_keepalive_secs == 30
            && plan.tcp_nodelay,
        connected matches Ok(plan) ==> plan.endpoint@ == endpoint@ && plan.tcp_keepalive_secs
            == 30 && plan.tcp_nodelay,
        connected is Ok <==> crate::client::is_endpoint_uri(endpoint@),
{
}

/// Where in a list of outcomes those with an id stand, in order.
proof fn lemma_ingested_positions(outcomes: Seq<NodeIngestOutcome>) -> (at: Seq<int>)
    ensures
        at.len() == ingested_ids(outcomes).len(),
        forall|k: int|
            0 <= k < at.len() ==> 0 <= #[trigger] at[k] < outcomes.len()
                && outcomes[at[k]].node_id == Some(ingested_ids(outcomes)[k]),
        forall|j: int, k: int| 0 <= j < k < at.len() ==> #[trigger] at[j] < #[trigger] at[k],
        forall|i: int|
            0 <= i < outcomes.len() && (#[trigger] outcomes[i]).node_id is Some ==> at.contains(i),
    decreases outcomes.len(),
{
    if outcomes.len() == 0 {
        Seq::empty()
    } else {
        let front = outcomes.drop_last();
        let before = lemma_ingested_positions(front);
        let last = outcomes.len() - 1;
        let at = if outcomes[last].node_id is Some {
            before.push(last)
        } else {
            before
        };
        assert forall|k: int| 0 <= k < at.len() implies 0 <= #[trigger] at[k] < outcomes.len()
            && outcomes[at[k]].node_id == Some(ingested_ids(outcomes)[k]) by {
            if k < before.len() {
                assert(at[k] == before[k]);
                assert(front[before[k]] == outcomes[before[k]]);
            }
        }
        assert forall|i: int|
            0 <= i < outcomes.len() && (#[trigger] outcomes[i]).node_id is Some implies at.contains(
            i,
        ) by {
            if i < last {
                assert(front[i] == outcomes[i]);
                assert(before.contains(i));
                let k = choose|k: int| 0 <= k < before.len() && before[k] == i;
                assert(at[k] == i);
            } else {
                assert(at[at.len() - 1] == i);
            }
        }
        at
    }
}

/// The result of an ingest is handed on as it is; the ids are those of the outcomes that have
/// one, each in its place: `at` says which outcomes these are, in their order.
pub proof fn law_ids_are_those_of_ingested_nodes(
    result: IngestTransactionResult,
    r: (IngestTransactionResult, Vec<u64>),
)
    requires
        call_ensures(Client::ingest_and_get_node_ids, (result,), r),
    ensures
        r.0 == result,
        exists|at: Seq<int>|
            {
                &&& #[trigger] at.len() == r.1@.len()
                &&& forall|k: int|
                    0 <= k < at.len() ==> 0 <= #[trigger] at[k] < result.node_results@.len()
                        && result.node_results@[at[k]].node_id == Some(r.1@[k])
                &&& forall|j: int, k: int|
                    0 <= j < k < at.len() ==> #[trigger] at[j] < #[trigger] at[k]
                &&& forall|i: int|
                    0 <= i < result.node_results@.len() && (
                    #[trigger] result.node_results@[i]).node_id is Some ==> at.contains(i)
            },
{
    let at = lemma_ingested_positions(result.node_results@);
    assert(at.len() == r.1@.len());
}

/// The short form of an edge state call is the full one without a value filter: the same
/// request, and the same reading of the reply.
pub proof fn law_short_edge_state_is_the_full_one(
    edge_type: &str,
    src: NodeRef,
    dst: NodeRef,
    query_time_secs: Option<u32>,
    windows: Option<&[u64]>,
    short: graph_proto::GetEdgeStateRequest,
    full: graph_proto::GetEdgeStateRequest,
    reply: Result<graph_proto::GetEdgeStateResponse, tonic::Status>,
    a: Result<Option<EdgeState>, ClientError>,
    b: Result<Option<EdgeState>, ClientError>,
)
    requires
        call_ensures(
            Client::get_edge_state_request,
            (edge_type, src, dst, query_time_secs, windows),
            short,
        ),
        call_ensures(
            GraphClient::get_edge_state_request,
            (
                edge_type,
                src,
                dst,
                None::<crate::float::Float32>,
                None::<crate::float::Float32>,
                query_time_secs,
                windows,
            ),
            full,
        ),
        call_ensures(Client::get_edge_state, (reply,), a),
        call_ensures(GraphClient::get_edge_state, (reply,), b),
    ensures
        short.edge_type_name@ == full.edge_type_name@,
        short.src == full.src,
        short.dst == full.dst,
        short.min_value is None && full.min_value is None,
        short.max_value is None && full.max_value is None,
        short.query_time_secs == full.query_time_secs,
        short.activity_windows_secs@ == full.activity_windows_secs@,
        a is Ok <==> b is Ok,
        a is Err && a->Err_0 is Status ==> b == a,
        a is Err && a->Err_0 is Internal ==> b is Err && b->Err_0 is Internal,
        a is Ok ==> (a->Ok_0 is Some <==> b->Ok_0 is Some),
        a is Ok && a->Ok_0 is Some ==> {
            let (x, y) = (a->Ok_0->0, b->Ok_0->0);
            &&& x.found == y.found
            &&& x.tx_count == y.tx_count
            &&& x.approx_sum == y.approx_sum
            &&& x.last_seen == y.last_seen
            &&& x.activity_bitmap == y.activity_bitmap
            &&& x.bins@ == y.bins@
            &&& x.filtered_count == y.filtered_count
            &&& x.filtered_approx_sum == y.filtered_approx_sum
            &&& x.activity_counts@ == y.activity_counts@
            &&& x.bool_flag == y.bool_flag
        },
{
}

} // verus!
