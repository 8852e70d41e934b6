//! Feature service: histograms, fraud context, flagging, similarity.

use vstd::prelude::*;

use crate::error::ClientError;
use crate::float::Float32;
use crate::text;
use crate::types::{BoolPropertyWeight, EdgeTypeWeight, NodeRef};

pub mod features_proto;
pub mod laws;

verus! {

/// The events of a node over a time window.
#[derive(Debug, Clone)]
pub struct NodeHistogramResult {
    pub total_events: u32,
    pub total_counts: Vec<u32>,
    pub window_covered_secs: u64,
}

/// Many signals on one node, from one call.
#[derive(Debug, Clone)]
pub struct NodeFeatureVectorResponse {
    pub node_id: u64,
    pub edge_features: Vec<EdgeTypeFeatures>,
    pub direct_fraud_score: Float32,
    pub fraudulent_neighbor_count: u32,
    pub max_neighbor_fraud_score: Float32,
}

/// The signals of one edge type at a node.
#[derive(Debug, Clone)]
pub struct EdgeTypeFeatures {
    pub edge_type_name: String,
    pub neighbor_count: u64,
    /// Union of the activity bitmaps across all neighbors of this type.
    pub activity_bitmap_union: u64,
    pub total_approx_sum: Float32,
    pub total_tx_count: u32,
}

/// A node that is flagged as fraudulent.
#[derive(Debug, Clone)]
pub struct NodeFraudInfo {
    pub node_id: u64,
    pub fraud_score: Float32,
    pub reason: String,
}

/// The flagged ones among some nodes.
#[derive(Debug, Clone)]
pub struct FraudContext {
    pub flagged_nodes: Vec<NodeFraudInfo>,
}

/// A node similar to another.
#[derive(Debug, Clone)]
pub struct SimilarNodeInfo {
    pub node_id: u64,
    pub similarity: Float32,
    pub shared_neighbors: u32,
}

/// The nodes most similar to a node.
#[derive(Debug, Clone)]
pub struct FindSimilarNodesResult {
    pub query_node_id: u64,
    pub similar_nodes: Vec<SimilarNodeInfo>,
}

/// What the building of a similarity graph did.
#[derive(Debug, Clone)]
pub struct BuildSimilarityGraphResult {
    pub nodes_processed: u64,
    pub edges_created: u64,
    pub edges_updated: u64,
    pub elapsed_ms: u64,
}

/// The message that names a node.
pub open spec fn node_ref_message(r: NodeRef) -> features_proto::NodeRef {
    features_proto::NodeRef {
        identifier: Some(
            match r {
                NodeRef::NodeId(id) => features_proto::Identifier::NodeId(id),
                NodeRef::External { node_type, external_id } =>
                    features_proto::Identifier::External(
                        features_proto::ExternalRef { node_type_name: node_type, external_id },
                    ),
            },
        ),
    }
}

/// The messages that name nodes, in order.
pub open spec fn node_ref_messages(rs: Seq<NodeRef>) -> Seq<features_proto::NodeRef> {
    rs.map_values(|r: NodeRef| node_ref_message(r))
}

/// The message of a weighted edge type.
pub open spec fn edge_type_weight_message(w: EdgeTypeWeight) -> features_proto::Weight {
    features_proto::Weight { name: w.edge_type, weight: w.weight }
}

/// The messages of weighted edge types, in order.
pub open spec fn edge_type_weight_messages(ws: Seq<EdgeTypeWeight>) -> Seq<
    features_proto::Weight,
> {
    ws.map_values(|w: EdgeTypeWeight| edge_type_weight_message(w))
}

/// The message of a weighted boolean property.
pub open spec fn bool_property_weight_message(w: BoolPropertyWeight) -> features_proto::Weight {
    features_proto::Weight { name: w.property_name, weight: w.weight }
}

/// The messages of weighted boolean properties, in order.
pub open spec fn bool_property_weight_messages(ws: Seq<BoolPropertyWeight>) -> Seq<
    features_proto::Weight,
> {
    ws.map_values(|w: BoolPropertyWeight| bool_property_weight_message(w))
}

/// The signals of one edge type, as the engine sent them.
pub open spec fn edge_type_features(m: features_proto::EdgeTypeFeatures) -> EdgeTypeFeatures {
    EdgeTypeFeatures {
        edge_type_name: m.edge_type_name,
        neighbor_count: m.neighbor_count,
        activity_bitmap_union: m.activity_bitmap_union,
        total_approx_sum: m.total_approx_sum,
        total_tx_count: m.total_tx_count,
    }
}

/// The signals of edge types, in order.
pub open spec fn all_edge_type_features(ms: Seq<features_proto::EdgeTypeFeatures>) -> Seq<
    EdgeTypeFeatures,
> {
    ms.map_values(|m: features_proto::EdgeTypeFeatures| edge_type_features(m))
}

/// `v` is the feature vector that the engine sent as `m`.
pub open spec fn is_feature_vector(
    m: features_proto::NodeFeatureVector,
    v: NodeFeatureVectorResponse,
) -> bool {
    &&& v.node_id == m.node_id
    &&& v.edge_features@ == all_edge_type_features(m.edge_features@)
    &&& v.direct_fraud_score == m.direct_fraud_score
    &&& v.fraudulent_neighbor_count == m.fraudulent_neighbor_count
    &&& v.max_neighbor_fraud_score == m.max_neighbor_fraud_score
}

/// A flagged node, as the engine sent it.
pub open spec fn fraud_info(m: features_proto::FlaggedNode) -> NodeFraudInfo {
    NodeFraudInfo { node_id: m.node_id, fraud_score: m.fraud_score, reason: m.reason }
}

/// Flagged nodes, in order.
pub open spec fn fraud_infos(ms: Seq<features_proto::FlaggedNode>) -> Seq<NodeFraudInfo> {
    ms.map_values(|m: features_proto::FlaggedNode| fraud_info(m))
}

/// A similar node, as the engine sent it.
pub open spec fn similar_node(m: features_proto::SimilarNode) -> SimilarNodeInfo {
    SimilarNodeInfo {
        node_id: m.node_id,
        similarity: m.similarity,
        shared_neighbors: m.shared_neighbors,
    }
}

/// Similar nodes, in order.
pub open spec fn similar_nodes(ms: Seq<features_proto::SimilarNode>) -> Seq<SimilarNodeInfo> {
    ms.map_values(|m: features_proto::SimilarNode| similar_node(m))
}

/// The counts of the bins of a histogram; none where the reply has no totals.
pub open spec fn bin_counts(m: features_proto::NodeHistogramResponse) -> Seq<u32> {
    match m.totals {
        Some(t) => t.counts@,
        None => Seq::empty(),
    }
}

/// The message that names a node.
pub fn node_ref_to_proto(r: &NodeRef) -> (m: features_proto::NodeRef)
    ensures
        m == node_ref_message(*r),
{
    match r {
        NodeRef::NodeId(id) => features_proto::NodeRef {
            identifier: Some(features_proto::Identifier::NodeId(*id)),
        },
        NodeRef::External { node_type, external_id } => features_proto::NodeRef {
            identifier: Some(
                features_proto::Identifier::External(
                    features_proto::ExternalRef {
                        node_type_name: node_type.clone(),
                        external_id: external_id.clone(),
                    },
                ),
            ),
        },
    }
}

fn node_refs_to_proto(rs: &[NodeRef]) -> (r: Vec<features_proto::NodeRef>)
    ensures
        r@ == node_ref_messages(rs@),
{
    let mut r: Vec<features_proto::NodeRef> = Vec::new();
    let mut i: usize = 0;
    while i < rs.len()
        invariant
            i <= rs.len(),
            r@ == node_ref_messages(rs@.take(i as int)),
        decreases rs.len() - i,
    {
        r.push(node_ref_to_proto(&rs[i]));
        assert(rs@.take(i + 1) =~= rs@.take(i as int).push(rs@[i as int]));
        assert(node_ref_messages(rs@.take(i + 1)) =~= r@);
        i += 1;
    }
    assert(rs@.take(i as int) =~= rs@);
    r
}

fn edge_type_weights_to_proto(ws: &[EdgeTypeWeight]) -> (r: Vec<features_proto::Weight>)
    ensures
        r@ == edge_type_weight_messages(ws@),
{
    let mut r: Vec<features_proto::Weight> = Vec::new();
    let mut i: usize = 0;
    while i < ws.len()
        invariant
            i <= ws.len(),
            r@ == edge_type_weight_messages(ws@.take(i as int)),
        decreases ws.len() - i,
    {
        r.push(features_proto::Weight { name: ws[i].edge_type.clone(), weight: ws[i].weight });
        assert(ws@.take(i + 1) =~= ws@.take(i as int).push(ws@[i as int]));
        assert(edge_type_weight_messages(ws@.take(i + 1)) =~= r@);
        i += 1;
    }
    assert(ws@.take(i as int) =~= ws@);
    r
}

fn bool_property_weights_to_proto(ws: &[BoolPropertyWeight]) -> (r: Vec<features_proto::Weight>)
    ensures
        r@ == bool_property_weight_messages(ws@),
{
    let mut r: Vec<features_proto::Weight> = Vec::new();
    let mut i: usize = 0;
    while i < ws.len()
        invariant
            i <= ws.len(),
            r@ == bool_property_weight_messages(ws@.take(i as int)),
        decreases ws.len() - i,
    {
        r.push(features_proto::Weight { name: ws[i].property_name.clone(), weight: ws[i].weight });
        assert(ws@.take(i + 1) =~= ws@.take(i as int).push(ws@[i as int]));
        assert(bool_property_weight_messages(ws@.take(i + 1)) =~= r@);
        i += 1;
    }
    assert(ws@.take(i as int) =~= ws@);
    r
}

/// Builds the requests of the feature service and reads its replies.
pub struct FeatureClient;

impl FeatureClient {
    /// Request for the histogram of a node, without its single buckets.
    pub fn query_node_histogram_request(
        node: NodeRef,
        edge_type_name: &str,
        window_hours: u32,
        window_days: u32,
    ) -> (req: features_proto::NodeHistogramQuery)
        ensures
            req.node == Some(node_ref_message(node)),
            req.edge_type_name@ == edge_type_name@,
            req.window_hours == window_hours,
            req.window_days == window_days,
            !req.include_buckets,
    {
        features_proto::NodeHistogramQuery {
            node: Some(node_ref_to_proto(&node)),
            edge_type_name: edge_type_name.to_string(),
            window_hours,
            window_days,
            include_buckets: false,
        }
    }

    /// Read the reply to a histogram query. A reply without totals has no bins.
    pub fn query_node_histogram(
        reply: Result<features_proto::NodeHistogramResponse, tonic::Status>,
    ) -> (r: Result<NodeHistogramResult, ClientError>)
        ensures
            match reply {
                Err(s) => r == Err::<NodeHistogramResult, ClientError>(ClientError::Status(s)),
                Ok(m) => {
                    &&& r matches Ok(h)
                    &&& h.total_events == m.total_events
                    &&& h.total_counts@ == bin_counts(m)
                    &&& h.window_covered_secs == m.window_covered_secs
                },
            },
    {
        match reply {
            Err(s) => Err(ClientError::from(s)),
            Ok(m) => Ok(
                NodeHistogramResult {
                    total_events: m.total_events,
                    total_counts: match m.totals {
                        Some(t) => t.counts,
                        None => Vec::new(),
                    },
                    window_covered_secs: m.window_covered_secs,
                },
            ),
        }
    }

    /// Request for the feature vector of a node. `nodes_to_check_fraud` are the other parties
    /// of a transaction, to be checked for fraud flags.
    pub fn get_node_feature_vector_request(
        node: NodeRef,
        edge_types: &[&str],
        histogram_window_hours: u32,
        histogram_window_days: u32,
        nodes_to_check_fraud: &[NodeRef],
    ) -> (req: features_proto::NodeFeatureVectorRequest)
        ensures
            req.node == Some(node_ref_message(node)),
            text::texts_of(req.edge_types@) == text::names_of(edge_types@),
            req.histogram_window_hours == histogram_window_hours,
            req.histogram_window_days == histogram_window_days,
            req.nodes_to_check_fraud@ == node_ref_messages(nodes_to_check_fraud@),
    {
        features_proto::NodeFeatureVectorRequest {
            node: Some(node_ref_to_proto(&node)),
            edge_types: text::owned_names(edge_types),
            histogram_window_hours,
            histogram_window_days,
            nodes_to_check_fraud: node_refs_to_proto(nodes_to_check_fraud),
        }
    }

    fn edge_features_from_proto(ms: Vec<features_proto::EdgeTypeFeatures>) -> (r: Vec<
        EdgeTypeFeatures,
    >)
        ensures
            r@ == all_edge_type_features(ms@),
    {
        let mut r: Vec<EdgeTypeFeatures> = Vec::new();
        for m in it: ms
            invariant
                r@ == all_edge_type_features(it.seq().take(it.index())),
        {
            assert(it.seq().take(it.index() + 1) =~= it.seq().take(it.index()).push(m));
            r.push(
                EdgeTypeFeatures {
                    edge_type_name: m.edge_type_name,
                    neighbor_count: m.neighbor_count,
                    activity_bitmap_union: m.activity_bitmap_union,
                    total_approx_sum: m.total_approx_sum,
                    total_tx_count: m.total_tx_count,
                },
            );
            assert(all_edge_type_features(it.seq().take(it.index() + 1)) =~= r@);
        }
        r
    }

    /// Read the reply to a request for a feature vector.
    pub fn get_node_feature_vector(
        reply: Result<features_proto::NodeFeatureVector, tonic::Status>,
    ) -> (r: Result<NodeFeatureVectorResponse, ClientError>)
        ensures
            match reply {
                Err(s) => r == Err::<NodeFeatureVectorResponse, ClientError>(
                    ClientError::Status(s),
                ),
                Ok(m) => r matches Ok(v) && is_feature_vector(m, v),
            },
    {
        match reply {
            Err(s) => Err(ClientError::from(s)),
            Ok(m) => Ok(
                NodeFeatureVectorResponse {
                    node_id: m.node_id,
                    edge_features: Self::edge_features_from_proto(m.edge_features),
                    direct_fraud_score: m.direct_fraud_score,
                    fraudulent_neighbor_count: m.fraudulent_neighbor_count,
                    max_neighbor_fraud_score: m.max_neighbor_fraud_score,
                },
            ),
        }
    }

    /// Request to check which of the given nodes are flagged.
    pub fn get_fraud_context_request(nodes: &[NodeRef]) -> (req: features_proto::FraudContextQuery)
        ensures
            req.nodes@ == node_ref_messages(nodes@),
    {
        features_proto::FraudContextQuery { nodes: node_refs_to_proto(nodes) }
    }

    fn flagged_nodes_from_proto(ms: Vec<features_proto::FlaggedNode>) -> (r: Vec<NodeFraudInfo>)
        ensures
            r@ == fraud_infos(ms@),
    {
        let mut r: Vec<NodeFraudInfo> = Vec::new();
        for m in it: ms
            invariant
                r@ == fraud_infos(it.seq().take(it.index())),
        {
            assert(it.seq().take(it.index() + 1) =~= it.seq().take(it.index()).push(m));
            r.push(
                NodeFraudInfo {
                    node_id: m.node_id,
                    fraud_score: m.fraud_score,
                    reason: m.reason,
                },
            );
            assert(fraud_infos(it.seq().take(it.index() + 1)) =~= r@);
        }
        r
    }

    /// Read the reply to a fraud check: id, score and reason of each flagged node.
    pub fn get_fraud_context(
        reply: Result<features_proto::FraudContextResponse, tonic::Status>,
    ) -> (r: Result<FraudContext, ClientError>)
        ensures
            match reply {
                Err(s) => r == Err::<FraudContext, ClientError>(ClientError::Status(s)),
                Ok(m) => r matches Ok(c) && c.flagged_nodes@ == fraud_infos(m.flagged_nodes@),
            },
    {
        match reply {
            Err(s) => Err(ClientError::from(s)),
            Ok(m) => Ok(
                FraudContext { flagged_nodes: Self::flagged_nodes_from_proto(m.flagged_nodes) },
            ),
        }
    }

    /// Alias for `get_fraud_context`.
    pub fn nodes_with_fraud_edge(
        reply: Result<features_proto::FraudContextResponse, tonic::Status>,
    ) -> (r: Result<FraudContext, ClientError>)
        ensures
            match reply {
                Err(s) => r == Err::<FraudContext, ClientError>(ClientError::Status(s)),
                Ok(m) => r matches Ok(c) && c.flagged_nodes@ == fraud_infos(m.flagged_nodes@),
            },
    {
        Self::get_fraud_context(reply)
    }

    /// Request to flag a node as fraudulent.
    pub fn flag_node_request(node: NodeRef, fraud_score: Float32, reason: &str) -> (req:
        features_proto::FlagRequest)
        ensures
            req.node == Some(node_ref_message(node)),
            req.fraud_score == fraud_score,
            req.reason@ == reason@,
    {
        features_proto::FlagRequest {
            node: Some(node_ref_to_proto(&node)),
            fraud_score,
            reason: reason.to_string(),
        }
    }

    /// Read the reply to a request to flag a node.
    pub fn flag_node(reply: Result<(), tonic::Status>) -> (r: Result<(), ClientError>)
        ensures
            match reply {
                Err(s) => r == Err::<(), ClientError>(ClientError::Status(s)),
                Ok(_) => r is Ok,
            },
    {
        match reply {
            Err(s) => Err(ClientError::from(s)),
            Ok(_) => Ok(()),
        }
    }

    /// Request to remove the fraud flag from a node.
    pub fn unflag_node_request(node: NodeRef) -> (req: features_proto::UnflagRequest)
        ensures
            req.node == Some(node_ref_message(node)),
    {
        features_proto::UnflagRequest { node: Some(node_ref_to_proto(&node)) }
    }

    /// Read the reply to a request to remove a fraud flag.
    pub fn unflag_node(reply: Result<(), tonic::Status>) -> (r: Result<(), ClientError>)
        ensures
            match reply {
                Err(s) => r == Err::<(), ClientError>(ClientError::Status(s)),
                Ok(_) => r is Ok,
            },
    {
        match reply {
            Err(s) => Err(ClientError::from(s)),
            Ok(_) => Ok(()),
        }
    }

    /// Request for the `k` nodes most similar to a node, by weighted overlap of neighbors.
    ///
    /// - Candidates that score zero on a required edge type or boolean property are left out.
    /// - With `upsert_edges` the engine writes what it finds as edges of `similar_to_edge_type`.
    pub fn find_similar_nodes_request(
        node: NodeRef,
        weighted_edge_types: &[EdgeTypeWeight],
        required_edge_types: &[&str],
        bool_property_weights: &[BoolPropertyWeight],
        required_bool_properties: &[&str],
        k: u32,
        min_similarity: Float32,
        upsert_edges: bool,
        similar_to_edge_type: &str,
    ) -> (req: features_proto::FindSimilarNodesRequest)
        ensures
            req.node == Some(node_ref_message(node)),
            req.weighted_edge_types@ == edge_type_weight_messages(weighted_edge_types@),
            text::texts_of(req.required_edge_types@) == text::names_of(required_edge_types@),
            req.bool_property_weights@ == bool_property_weight_messages(bool_property_weights@),
            text::texts_of(req.required_bool_properties@) == text::names_of(
                required_bool_properties@,
            ),
            req.k == k,
            req.min_similarity == min_similarity,
            req.upsert_edges == upsert_edges,
            req.similar_to_edge_type@ == similar_to_edge_type@,
    {
        features_proto::FindSimilarNodesRequest {
            node: Some(node_ref_to_proto(&node)),
            weighted_edge_types: edge_type_weights_to_proto(weighted_edge_types),
            required_edge_types: text::owned_names(required_edge_types),
            bool_property_weights: bool_property_weights_to_proto(bool_property_weights),
            required_bool_properties: text::owned_names(required_bool_properties),
            k,
            min_similarity,
            upsert_edges,
            similar_to_edge_type: similar_to_edge_type.to_string(),
        }
    }

    fn similar_nodes_from_proto(ms: Vec<features_proto::SimilarNode>) -> (r: Vec<SimilarNodeInfo>)
        ensures
            r@ == similar_nodes(ms@),
    {
        let mut r: Vec<SimilarNodeInfo> = Vec::new();
        for m in it: ms
            invariant
                r@ == similar_nodes(it.seq().take(it.index())),
        {
            assert(it.seq().take(it.index() + 1) =~= it.seq().take(it.index()).push(m));
            r.push(
                SimilarNodeInfo {
                    node_id: m.node_id,
                    similarity: m.similarity,
                    shared_neighbors: m.shared_neighbors,
                },
            );
            assert(similar_nodes(it.seq().take(it.index() + 1)) =~= r@);
        }
        r
    }

    /// Read the reply to a request for similar nodes.
    pub fn find_similar_nodes(
        reply: Result<features_proto::FindSimilarNodesResponse, tonic::Status>,
    ) -> (r: Result<FindSimilarNodesResult, ClientError>)
        ensures
            match reply {
                Err(s) => r == Err::<FindSimilarNodesResult, ClientError>(
                    ClientError::Status(s),
                ),
                Ok(m) => r matches Ok(f) && f.query_node_id == m.query_node_id
                    && f.similar_nodes@ == similar_nodes(m.similar_nodes@),
            },
    {
        match reply {
            Err(s) => Err(ClientError::from(s)),
            Ok(m) => Ok(
                FindSimilarNodesResult {
                    query_node_id: m.query_node_id,
                    similar_nodes: Self::similar_nodes_from_proto(m.similar_nodes),
                },
            ),
        }
    }

    /// Request to link every node of a type to the `k` nodes most similar to it.
    pub fn build_similarity_graph_request(
        node_type: &str,
        weighted_edge_types: &[EdgeTypeWeight],
        required_edge_types: &[&str],
        bool_property_weights: &[BoolPropertyWeight],
        required_bool_properties: &[&str],
        k: u32,
        min_similarity: Float32,
        similar_to_edge_type: &str,
    ) -> (req: features_proto::BuildSimilarityGraphRequest)
        ensures
            req.node_type@ == node_type@,
            req.weighted_edge_types@ == edge_type_weight_messages(weighted_edge_types@),
            text::texts_of(req.required_edge_types@) == text::names_of(required_edge_types@),
            req.bool_property_weights@ == bool_property_weight_messages(bool_property_weights@),
            text::texts_of(req.required_bool_properties@) == text::names_of(
                required_bool_properties@,
            ),
            req.k == k,
            req.min_similarity == min_similarity,
            req.similar_to_edge_type@ == similar_to_edge_type@,
    {
        features_proto::BuildSimilarityGraphRequest {
            node_type: node_type.to_string(),
            weighted_edge_types: edge_type_weights_to_proto(weighted_edge_types),
            required_edge_types: text::owned_names(required_edge_types),
            bool_property_weights: bool_property_weights_to_proto(bool_property_weights),
            required_bool_properties: text::owned_names(required_bool_properties),
            k,
            min_similarity,
            similar_to_edge_type: similar_to_edge_type.to_string(),
        }
    }

    /// Read the reply to a request to build a similarity graph.
    pub fn build_similarity_graph(
        reply: Result<features_proto::BuildSimilarityGraphResponse, tonic::Status>,
    ) -> (r: Result<BuildSimilarityGraphResult, ClientError>)
        ensures
            match reply {
                Err(s) => r == Err::<BuildSimilarityGraphResult, ClientError>(
                    ClientError::Status(s),
                ),
                Ok(m) => r == Ok::<BuildSimilarityGraphResult, ClientError>(
                    BuildSimilarityGraphResult {
                        nodes_processed: m.nodes_processed,
                        edges_created: m.edges_created,
                        edges_updated: m.edges_updated,
                        elapsed_ms: m.elapsed_ms,
                    },
                ),
            },
    {
        match reply {
            Err(s) => Err(ClientError::from(s)),
            Ok(m) => Ok(
                BuildSimilarityGraphResult {
                    nodes_processed: m.nodes_processed,
                    edges_created: m.edges_created,
                    edges_updated: m.edges_updated,
                    elapsed_ms: m.elapsed_ms,
                },
            ),
        }
    }

    /// Request to delete all edges of a type and keep the type.
    pub fn clear_edge_type_data_request(edge_type_name: &str) -> (req:
        features_proto::ClearEdgeTypeDataRequest)
        ensures
            req.edge_type_name@ == edge_type_name@,
    {
        features_proto::ClearEdgeTypeDataRequest { edge_type_name: edge_type_name.to_string() }
    }

    /// Read the reply to a request to delete all edges of a type: how many pairs were removed.
    pub fn clear_edge_type_data(
        reply: Result<features_proto::ClearEdgeTypeDataResponse, tonic::Status>,
    ) -> (r: Result<u64, ClientError>)
        ensures
            match reply {
                Err(s) => r == Err::<u64, ClientError>(ClientError::Status(s)),
                Ok(m) => r == Ok::<u64, ClientError>(m.pairs_removed),
            },
    {
        match reply {
            Err(s) => Err(ClientError::from(s)),
            Ok(m) => Ok(m.pairs_removed),
        }
    }
}

/// Different node references have different messages.
pub proof fn law_node_ref_message_injective(a: NodeRef, b: NodeRef)
    requires
        node_ref_message(a) == node_ref_message(b),
    ensures
        a == b,
{
}

} // verus!
