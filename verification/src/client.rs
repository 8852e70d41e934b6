//! The unified client: connection settings, and what spans more than one service.

use vstd::prelude::*;

use crate::error::ClientError;
use crate::graph::{graph_proto, GraphClient};
use crate::types::{EdgeState, IngestTransactionResult, NodeIngestOutcome, NodeRef};

pub mod laws;

verus! {

/// Seconds between keep-alive probes on the connection.
pub const TCP_KEEPALIVE_SECS: u64 = 30;

/// How to open the connection to the engine.
#[derive(Debug, Clone)]
pub struct ConnectPlan {
    pub endpoint: String,
    pub tcp_keepalive_secs: u64,
    pub tcp_nodelay: bool,
}

/// `tonic::transport::Endpoint::from_shared` takes the text as the URI of an endpoint.
pub uninterp spec fn is_endpoint_uri(text: Seq<char>) -> bool;

/// Calls `tonic::transport::Endpoint::from_shared`, which parses its argument as a URI and
/// fails where it is none. The contract says that whether it fails depends on the text alone.
/// Which texts are URIs, and what the error says, is left to the outside crate.
#[verifier::external_body]
fn parse_endpoint(text: &str) -> (r: Result<(), tonic::transport::Error>)
    ensures
        r is Ok <==> is_endpoint_uri(text@),
{
    tonic::transport::Endpoint::from_shared(text.to_string()).map(|_| ())
}

/// The ids of the nodes that were ingested, in order: of each outcome that has one.
pub open spec fn ingested_ids(outcomes: Seq<NodeIngestOutcome>) -> Seq<u64>
    decreases outcomes.len(),
{
    if outcomes.len() == 0 {
        Seq::empty()
    } else {
        let ids = ingested_ids(outcomes.drop_last());
        match outcomes.last().node_id {
            Some(id) => ids.push(id),
            None => ids,
        }
    }
}

/// The plan opens the connection to an endpoint, kept alive and without delay.
pub open spec fn is_plan(endpoint: Seq<char>, plan: ConnectPlan) -> bool {
    &&& plan.endpoint@ == endpoint
    &&& plan.tcp_keepalive_secs == TCP_KEEPALIVE_SECS
    &&& plan.tcp_nodelay
}

/// Opens connections, and reads what spans more than one service.
pub struct Client;

impl Client {
    /// How to connect to the engine at an endpoint: an error where the endpoint is no URI.
    pub fn connect(endpoint: &str) -> (r: Result<ConnectPlan, tonic::transport::Error>)
        ensures
            r is Ok <==> is_endpoint_uri(endpoint@),
            r matches Ok(plan) ==> is_plan(endpoint@, plan),
    {
        Self::connect_plan(endpoint, parse_endpoint(endpoint))
    }

    /// How to connect to the engine at an endpoint, given what the parsing of the endpoint came
    /// to.
    pub fn connect_plan(endpoint: &str, parsed: Result<(), tonic::transport::Error>) -> (r: Result<
        ConnectPlan,
        tonic::transport::Error,
    >)
        ensures
            match parsed {
                Err(e) => r == Err::<ConnectPlan, tonic::transport::Error>(e),
                Ok(_) => r matches Ok(plan) && is_plan(endpoint@, plan),
            },
    {
        match parsed {
            Err(e) => Err(e),
            Ok(_) => Ok(
                ConnectPlan {
                    endpoint: endpoint.to_string(),
                    tcp_keepalive_secs: TCP_KEEPALIVE_SECS,
                    tcp_nodelay: true,
                },
            ),
        }
    }

    /// Request for the state of an edge over all values, with the counts of these activity
    /// windows.
    pub fn get_edge_state_request(
        edge_type: &str,
        src: NodeRef,
        dst: NodeRef,
        query_time_secs: Option<u32>,
        activity_windows_secs: Option<&[u64]>,
    ) -> (req: graph_proto::GetEdgeStateRequest)
        ensures
            req.edge_type_name@ == edge_type@,
            req.src == Some(crate::graph::node_ref_message(src)),
            req.dst == Some(crate::graph::node_ref_message(dst)),
            req.min_value is None,
            req.max_value is None,
            req.query_time_secs == query_time_secs,
            req.activity_windows_secs@ == (match activity_windows_secs {
                Some(windows) => windows@,
                None => Seq::empty(),
            }),
    {
        GraphClient::get_edge_state_request(
            edge_type,
            src,
            dst,
            None,
            None,
            query_time_secs,
            activity_windows_secs,
        )
    }

    /// Read the reply to a request for an edge state, as [`GraphClient::get_edge_state`] does.
    pub fn get_edge_state(
        reply: Result<graph_proto::GetEdgeStateResponse, tonic::Status>,
    ) -> (r: Result<Option<EdgeState>, ClientError>)
        ensures
            match reply {
                Err(s) => r == Err::<Option<EdgeState>, ClientError>(ClientError::Status(s)),
                Ok(m) => if !m.found {
                    r matches Ok(None)
                } else {
                    match m.payload {
                        None => r matches Err(e) && e.is_internal("missing payload"@),
                        Some(p) => r matches Ok(Some(st)) && crate::graph::is_edge_state(
                            m,
                            p,
                            st,
                        ),
                    }
                },
            },
    {
        GraphClient::get_edge_state(reply)
    }

    /// The result of an ingest together with the ids of the nodes that were ingested.
    pub fn ingest_and_get_node_ids(result: IngestTransactionResult) -> (r: (
        IngestTransactionResult,
        Vec<u64>,
    ))
        ensures
            r.0 == result,
            r.1@ == ingested_ids(result.node_results@),
    {
        let mut ids: Vec<u64> = Vec::new();
        let outcomes = &result.node_results;
        let mut i: usize = 0;
        while i < outcomes.len()
            invariant
                i <= outcomes@.len(),
                ids@ == ingested_ids(outcomes@.take(i as int)),
            decreases outcomes@.len() - i,
        {
            assert(outcomes@.take(i + 1).drop_last() =~= outcomes@.take(i as int));
            if let Some(id) = outcomes[i].node_id {
                ids.push(id);
            }
            i += 1;
        }
        assert(outcomes@.take(i as int) =~= outcomes@);
        (result, ids)
    }
}

/// Exactly the nodes that were ingested without an error have their ids among those returned.
pub proof fn law_ingested_ids_are_those_without_error(
    ms: Seq<graph_proto::NodeIngestResult>,
    id: u64,
)
    ensures
        ingested_ids(crate::graph::node_outcomes(ms)).contains(id) <==> exists|i: int|
            #![trigger ms[i]]
            0 <= i < ms.len() && ms[i].error is None && ms[i].node_id == id,
    decreases ms.len(),
{
    let outcomes = crate::graph::node_outcomes(ms);
    let ids = ingested_ids(outcomes);
    if ms.len() > 0 {
        let front = ms.drop_last();
        let last = ms.last();
        assert(outcomes.drop_last() =~= crate::graph::node_outcomes(front));
        assert(outcomes.last() == crate::graph::node_outcome(last));
        law_ingested_ids_are_those_without_error(front, id);
        let front_ids = ingested_ids(crate::graph::node_outcomes(front));
        if front_ids.contains(id) {
            let k = choose|k: int| 0 <= k < front_ids.len() && front_ids[k] == id;
            assert(ids[k] == id);
            let i = choose|i: int|
                #![trigger front[i]]
                0 <= i < front.len() && front[i].error is None && front[i].node_id == id;
            assert(ms[i] == front[i]);
        }
        if last.error is None && last.node_id == id {
            assert(ms[ms.len() - 1] == last);
            assert(ids[ids.len() - 1] == id);
        }
        if ids.contains(id) && !front_ids.contains(id) {
            let k = choose|k: int| 0 <= k < ids.len() && ids[k] == id;
            if k < front_ids.len() {
                assert(front_ids[k] == id);
            }
            assert(ms[ms.len() - 1] == last);
        }
        if exists|i: int|
            #![trigger ms[i]]
            0 <= i < ms.len() && ms[i].error is None && ms[i].node_id == id {
            let i = choose|i: int|
                #![trigger ms[i]]
                0 <= i < ms.len() && ms[i].error is None && ms[i].node_id == id;
            if i < front.len() {
                assert(front[i] == ms[i]);
            }
        }
    }
}

} // verus!
