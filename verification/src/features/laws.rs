//! What the feature service promises of its requests and replies, field by field.

use vstd::prelude::*;

use crate::error::ClientError;
use crate::features::{
    features_proto, node_ref_to_proto, BuildSimilarityGraphResult, FeatureClient,
    FindSimilarNodesResult, FraudContext, NodeFeatureVectorResponse, NodeHistogramResult,
};
use crate::float::Float32;
use crate::types::{BoolPropertyWeight, EdgeTypeWeight, NodeRef};

verus! {

/// A node is named by the id, or by the type and external id, that the caller gave.
pub proof fn law_node_is_named_as_given(r: NodeRef, m: features_proto::NodeRef)
    requires
        call_ensures(node_ref_to_proto, (&r,), m),
    ensures
        r matches NodeRef::NodeId(id) ==> m.identifier == Some(
            features_proto::Identifier::NodeId(id),
        ),
        r matches NodeRef::External { node_type, external_id } ==> {
            &&& m.identifier matches Some(features_proto::Identifier::External(e))
            &&& e.node_type_name == node_type
            &&& e.external_id == external_id
        },
{
}

/// A histogram is asked for of the node and the edge type, over the hours and days that the
/// caller gave, without its buckets.
pub proof fn law_histogram_asks_for_what_was_given(
    node: NodeRef,
    edge_type_name: &str,
    window_hours: u32,
    window_days: u32,
    req: features_proto::NodeHistogramQuery,
    named: features_proto::NodeRef,
)
    requires
        call_ensures(
            FeatureClient::query_node_histogram_request,
            (node, edge_type_name, window_hours, window_days),
            req,
        ),
        call_ensures(node_ref_to_proto, (&node,), named),
    ensures
        req.node == Some(named),
        req.edge_type_name@ == edge_type_name@,
        req.window_hours == window_hours,
        req.window_days == window_days,
        !req.include_buckets,
{
}

/// A histogram has the events and the window of the reply and each of its counts, in order;
/// without totals it has no counts. A refusal is handed on.
pub proof fn law_histogram_reports_each_count(
    reply: Result<features_proto::NodeHistogramResponse, tonic::Status>,
    r: Result<NodeHistogramResult, ClientError>,
    i: int,
)
    requires
        call_ensures(FeatureClient::query_node_histogram, (reply,), r),
    ensures
        reply matches Err(s) ==> r matches Err(ClientError::Status(t)) && t == s,
        reply matches Ok(m) ==> {
            &&& r matches Ok(h)
            &&& h.total_events == m.total_events
            &&& h.window_covered_secs == m.window_covered_secs
            &&& m.totals is None ==> h.total_counts@.len() == 0
            &&& m.totals matches Some(t) ==> {
                &&& h.total_counts@.len() == t.counts@.len()
                &&& 0 <= i < t.counts@.len() ==> h.total_counts@[i] == t.counts@[i]
            }
        },
{
}

/// A feature vector is asked for of the node, with each edge type and each node to check, in
/// order, over the hours and days that the caller gave.
pub proof fn law_feature_vector_asks_for_what_was_given(
    node: NodeRef,
    edge_types: &[&str],
    hours: u32,
    days: u32,
    nodes_to_check_fraud: &[NodeRef],
    req: features_proto::NodeFeatureVectorRequest,
    named: features_proto::NodeRef,
    i: int,
    k: int,
    checked: features_proto::NodeRef,
)
    requires
        call_ensures(
            FeatureClient::get_node_feature_vector_request,
            (node, edge_types, hours, days, nodes_to_check_fraud),
            req,
        ),
        call_ensures(node_ref_to_proto, (&node,), named),
        0 <= k < nodes_to_check_fraud@.len() ==> call_ensures(
            node_ref_to_proto,
            (&nodes_to_check_fraud@[k],),
            checked,
        ),
    ensures
        req.node == Some(named),
        req.edge_types@.len() == edge_types@.len(),
        0 <= i < edge_types@.len() ==> req.edge_types@[i]@ == edge_types@[i]@,
        req.histogram_window_hours == hours,
        req.histogram_window_days == days,
        req.nodes_to_check_fraud@.len() == nodes_to_check_fraud@.len(),
        0 <= k < nodes_to_check_fraud@.len() ==> req.nodes_to_check_fraud@[k] == checked,
{
    crate::text::lemma_same_names(req.edge_types@, edge_types@);
}

/// A feature vector has the node and the scores of the reply and the features of each of its edge
/// types, in order, with every field. A refusal is handed on.
pub proof fn law_feature_vector_reports_each_edge_type(
    reply: Result<features_proto::NodeFeatureVector, tonic::Status>,
    r: Result<NodeFeatureVectorResponse, ClientError>,
    i: int,
)
    requires
        call_ensures(FeatureClient::get_node_feature_vector, (reply,), r),
    ensures
        reply matches Err(s) ==> r matches Err(ClientError::Status(t)) && t == s,
        reply matches Ok(m) ==> {
            &&& r matches Ok(v)
            &&& v.node_id == m.node_id
            &&& v.direct_fraud_score == m.direct_fraud_score
            &&& v.fraudulent_neighbor_count == m.fraudulent_neighbor_count
            &&& v.max_neighbor_fraud_score == m.max_neighbor_fraud_score
            &&& v.edge_features@.len() == m.edge_features@.len()
            &&& 0 <= i < m.edge_features@.len() ==> {
                let (e, f) = (m.edge_features@[i], v.edge_features@[i]);
                &&& f.edge_type_name == e.edge_type_name
                &&& f.neighbor_count == e.neighbor_count
                &&& f.activity_bitmap_union == e.activity_bitmap_union
                &&& f.total_approx_sum == e.total_approx_sum
                &&& f.total_tx_count == e.total_tx_count
            }
        },
{
}

/// A fraud check asks for each of the nodes that the caller gave, in order.
pub proof fn law_fraud_context_asks_for_each_node(
    nodes: &[NodeRef],
    req: features_proto::FraudContextQuery,
    i: int,
    named: features_proto::NodeRef,
)
    requires
        call_ensures(FeatureClient::get_fraud_context_request, (nodes,), req),
        0 <= i < nodes@.len() ==> call_ensures(node_ref_to_proto, (&nodes@[i],), named),
    ensures
        req.nodes@.len() == nodes@.len(),
        0 <= i < nodes@.len() ==> req.nodes@[i] == named,
{
}

/// A fraud check reports as many flagged nodes as the reply, each with the id, the score and the
/// reason of the one in its place, under either of its names. A refusal is handed on.
pub proof fn law_fraud_context_reports_each_flagged_node(
    reply: Result<features_proto::FraudContextResponse, tonic::Status>,
    r: Result<FraudContext, ClientError>,
    i: int,
)
    requires
        call_ensures(FeatureClient::get_fraud_context, (reply,), r) || call_ensures(
            FeatureClient::nodes_with_fraud_edge,
            (reply,),
            r,
        ),
    ensures
        reply matches Err(s) ==> r matches Err(ClientError::Status(t)) && t == s,
        reply matches Ok(m) ==> {
            &&& r matches Ok(c)
            &&& c.flagged_nodes@.len() == m.flagged_nodes@.len()
            &&& 0 <= i < m.flagged_nodes@.len() ==> {
                let (n, o) = (m.flagged_nodes@[i], c.flagged_nodes@[i]);
                &&& o.node_id == n.node_id
                &&& o.fraud_score == n.fraud_score
                &&& o.reason == n.reason
            }
        },
{
}

/// A node is flagged with the score and the reason that the caller gave, and unflagged by its
/// name alone.
pub proof fn law_flagging_asks_for_what_was_given(
    node: NodeRef,
    fraud_score: Float32,
    reason: &str,
    flag: features_proto::FlagRequest,
    unflag: features_proto::UnflagRequest,
    named: features_proto::NodeRef,
)
    requires
        call_ensures(FeatureClient::flag_node_request, (node, fraud_score, reason), flag),
        call_ensures(FeatureClient::unflag_node_request, (node,), unflag),
        call_ensures(node_ref_to_proto, (&node,), named),
    ensures
        flag.node == Some(named),
        flag.fraud_score == fraud_score,
        flag.reason@ == reason@,
        unflag.node == Some(named),
{
}

/// Flagging and unflagging succeed exactly where the engine accepts; a refusal is handed on.
pub proof fn law_flagging_succeeds_where_accepted(
    reply: Result<(), tonic::Status>,
    flag: Result<(), ClientError>,
    unflag: Result<(), ClientError>,
)
    requires
        call_ensures(FeatureClient::flag_node, (reply,), flag),
        call_ensures(FeatureClient::unflag_node, (reply,), unflag),
    ensures
        reply is Ok <==> flag is Ok,
        reply is Ok <==> unflag is Ok,
        reply matches Err(s) ==> flag matches Err(ClientError::Status(t)) && t == s,
        reply matches Err(s) ==> unflag matches Err(ClientError::Status(t)) && t == s,
{
}

/// Similar nodes are asked for of the node, with each weight, each required edge type and each
/// required property in its own list, in order, and with the number, the threshold and the
/// target that the caller gave.
pub proof fn law_similar_nodes_asks_for_what_was_given(
    node: NodeRef,
    weights: &[EdgeTypeWeight],
    required_edges: &[&str],
    bool_weights: &[BoolPropertyWeight],
    required_bools: &[&str],
    k: u32,
    min_similarity: Float32,
    upsert_edges: bool,
    target: &str,
    req: features_proto::FindSimilarNodesRequest,
    named: features_proto::NodeRef,
    i: int,
)
    requires
        call_ensures(
            FeatureClient::find_similar_nodes_request,
            (
                node,
                weights,
                required_edges,
                bool_weights,
                required_bools,
                k,
                min_similarity,
                upsert_edges,
                target,
            ),
            req,
        ),
        call_ensures(node_ref_to_proto, (&node,), named),
    ensures
        req.node == Some(named),
        req.weighted_edge_types@.len() == weights@.len(),
        0 <= i < weights@.len() ==> req.weighted_edge_types@[i].name == weights@[i].edge_type
            && req.weighted_edge_types@[i].weight == weights@[i].weight,
        req.required_edge_types@.len() == required_edges@.len(),
        0 <= i < required_edges@.len() ==> req.required_edge_types@[i]@ == required_edges@[i]@,
        req.bool_property_weights@.len() == bool_weights@.len(),
        0 <= i < bool_weights@.len() ==> req.bool_property_weights@[i].name
            == bool_weights@[i].property_name && req.bool_property_weights@[i].weight
            == bool_weights@[i].weight,
        req.required_bool_properties@.len() == required_bools@.len(),
        0 <= i < required_bools@.len() ==> req.required_bool_properties@[i]@
            == required_bools@[i]@,
        req.k == k,
        req.min_similarity == min_similarity,
        req.upsert_edges == upsert_edges,
        req.similar_to_edge_type@ == target@,
{
    crate::text::lemma_same_names(req.required_edge_types@, required_edges@);
    crate::text::lemma_same_names(req.required_bool_properties@, required_bools@);
}

/// The similar nodes are those of the reply, in order, with every field, for the node of the
/// reply. A refusal is handed on.
pub proof fn law_similar_nodes_reports_each_node(
    reply: Result<features_proto::FindSimilarNodesResponse, tonic::Status>,
    r: Result<FindSimilarNodesResult, ClientError>,
    i: int,
)
    requires
        call_ensures(FeatureClient::find_similar_nodes, (reply,), r),
    ensures
        reply matches Err(s) ==> r matches Err(ClientError::Status(t)) && t == s,
        reply matches Ok(m) ==> {
            &&& r matches Ok(f)
            &&& f.query_node_id == m.query_node_id
            &&& f.similar_nodes@.len() == m.similar_nodes@.len()
            &&& 0 <= i < m.similar_nodes@.len() ==> {
                let (n, o) = (m.similar_nodes@[i], f.similar_nodes@[i]);
                &&& o.node_id == n.node_id
                &&& o.similarity == n.similarity
                &&& o.shared_neighbors == n.shared_neighbors
            }
        },
{
}

/// A similarity graph is asked for of the node type, with each weight, each required edge type
/// and each required property in its own list, in order, and with the number, the threshold and
/// the target that the caller gave.
pub proof fn law_similarity_graph_asks_for_what_was_given(
    node_type: &str,
    weights: &[EdgeTypeWeight],
    required_edges: &[&str],
    bool_weights: &[BoolPropertyWeight],
    required_bools: &[&str],
    k: u32,
    min_similarity: Float32,
    target: &str,
    req: features_proto::BuildSimilarityGraphRequest,
    i: int,
)
    requires
        call_ensures(
            FeatureClient::build_similarity_graph_request,
            (
                node_type,
                weights,
                required_edges,
                bool_weights,
                required_bools,
                k,
                min_similarity,
                target,
            ),
            req,
        ),
    ensures
        req.node_type@ == node_type@,
        req.weighted_edge_types@.len() == weights@.len(),
        0 <= i < weights@.len() ==> req.weighted_edge_types@[i].name == weights@[i].edge_type
            && req.weighted_edge_types@[i].weight == weights@[i].weight,
        req.required_edge_types@.len() == required_edges@.len(),
        0 <= i < required_edges@.len() ==> req.required_edge_types@[i]@ == required_edges@[i]@,
        req.bool_property_weights@.len() == bool_weights@.len(),
        0 <= i < bool_weights@.len() ==> req.bool_property_weights@[i].name
            == bool_weights@[i].property_name && req.bool_property_weights@[i].weight
            == bool_weights@[i].weight,
        req.required_bool_properties@.len() == required_bools@.len(),
        0 <= i < required_bools@.len() ==> req.required_bool_properties@[i]@
            == required_bools@[i]@,
        req.k == k,
        req.min_similarity == min_similarity,
        req.similar_to_edge_type@ == target@,
{
    crate::text::lemma_same_names(req.required_edge_types@, required_edges@);
    crate::text::lemma_same_names(req.required_bool_properties@, required_bools@);
}

/// The building of a similarity graph is reported with every number of the reply; a refusal is
/// handed on.
pub proof fn law_similarity_graph_reports_the_reply(
    reply: Result<features_proto::BuildSimilarityGraphResponse, tonic::Status>,
    r: Result<BuildSimilarityGraphResult, ClientError>,
)
    requires
        call_ensures(FeatureClient::build_similarity_graph, (reply,), r),
    ensures
        reply matches Err(s) ==> r matches Err(ClientError::Status(t)) && t == s,
        reply matches Ok(m) ==> {
            &&& r matches Ok(b)
            &&& b.nodes_processed == m.nodes_processed
            &&& b.edges_created == m.edges_created
            &&& b.edges_updated == m.edges_updated
            &&& b.elapsed_ms == m.elapsed_ms
        },
{
}

/// The edges of the named type are cleared, and as many pairs are reported as the reply says; a
/// refusal is handed on.
pub proof fn law_clearing(
    edge_type_name: &str,
    req: features_proto::ClearEdgeTypeDataRequest,
    reply: Result<features_proto::ClearEdgeTypeDataResponse, tonic::Status>,
    r: Result<u64, ClientError>,
)
    requires
        call_ensures(FeatureClient::clear_edge_type_data_request, (edge_type_name,), req),
        call_ensures(FeatureClient::clear_edge_type_data, (reply,), r),
    ensures
        req.edge_type_name@ == edge_type_name@,
        reply matches Err(s) ==> r matches Err(ClientError::Status(t)) && t == s,
        reply matches Ok(m) ==> r matches Ok(n) && n == m.pairs_removed,
{
}

} // verus!
