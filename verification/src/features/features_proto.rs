//! Messages of the feature service, as plain values.

use vstd::prelude::*;

use crate::float::Float32;

verus! {

/// A node's type name and external id.
#[derive(Debug, Clone, PartialEq)]
pub struct ExternalRef {
    pub node_type_name: String,
    pub external_id: String,
}

/// How a node is named.
#[derive(Debug, Clone, PartialEq)]
pub enum Identifier {
    NodeId(u64),
    External(ExternalRef),
}

/// A node, by id or by external reference.
#[derive(Debug, Clone, PartialEq)]
pub struct NodeRef {
    pub identifier: Option<Identifier>,
}

#[derive(Debug, Clone, PartialEq)]
pub struct NodeHistogramQuery {
    pub node: Option<NodeRef>,
    pub edge_type_name: String,
    pub window_hours: u32,
    pub window_days: u32,
    pub include_buckets: bool,
}

/// The counts of the bins of a histogram.
#[derive(Debug, Clone, PartialEq)]
pub struct HistogramTotals {
    pub counts: Vec<u32>,
}

#[derive(Debug, Clone, PartialEq)]
pub struct NodeHistogramResponse {
    pub total_events: u32,
    pub totals: Option<HistogramTotals>,
    pub window_covered_secs: u64,
}

#[derive(Debug, Clone, PartialEq)]
pub struct NodeFeatureVectorRequest {
    pub node: Option<NodeRef>,
    pub edge_types: Vec<String>,
    pub histogram_window_hours: u32,
    pub histogram_window_days: u32,
    pub nodes_to_check_fraud: Vec<NodeRef>,
}

#[derive(Debug, Clone, PartialEq)]
pub struct EdgeTypeFeatures {
    pub edge_type_name: String,
    pub neighbor_count: u64,
    pub activity_bitmap_union: u64,
    pub total_approx_sum: Float32,
    pub total_tx_count: u32,
}

#[derive(Debug, Clone, PartialEq)]
pub struct NodeFeatureVector {
    pub node_id: u64,
    pub edge_features: Vec<EdgeTypeFeatures>,
    pub direct_fraud_score: Float32,
    pub fraudulent_neighbor_count: u32,
    pub max_neighbor_fraud_score: Float32,
}

#[derive(Debug, Clone, PartialEq)]
pub struct FraudContextQuery {
    pub nodes: Vec<NodeRef>,
}

#[derive(Debug, Clone, PartialEq)]
pub struct FlaggedNode {
    pub node_id: u64,
    pub fraud_score: Float32,
    pub reason: String,
}

#[derive(Debug, Clone, PartialEq)]
pub struct FraudContextResponse {
    pub flagged_nodes: Vec<FlaggedNode>,
}

#[derive(Debug, Clone, PartialEq)]
pub struct FlagRequest {
    pub node: Option<NodeRef>,
    pub fraud_score: Float32,
    pub reason: String,
}

#[derive(Debug, Clone, PartialEq)]
pub struct UnflagRequest {
    pub node: Option<NodeRef>,
}

/// A named dimension of similarity and its weight.
#[derive(Debug, Clone, PartialEq)]
pub struct Weight {
    pub name: String,
    pub weight: Float32,
}

#[derive(Debug, Clone, PartialEq)]
pub struct FindSimilarNodesRequest {
    pub node: Option<NodeRef>,
    pub weighted_edge_types: Vec<Weight>,
    pub required_edge_types: Vec<String>,
    pub bool_property_weights: Vec<Weight>,
    pub required_bool_properties: Vec<String>,
    pub k: u32,
    pub min_similarity: Float32,
    pub upsert_edges: bool,
    pub similar_to_edge_type: String,
}

#[derive(Debug, Clone, PartialEq)]
pub struct SimilarNode {
    pub node_id: u64,
    pub similarity: Float32,
    pub shared_neighbors: u32,
}

#[derive(Debug, Clone, PartialEq)]
pub struct FindSimilarNodesResponse {
    pub query_node_id: u64,
    pub similar_nodes: Vec<SimilarNode>,
}

#[derive(Debug, Clone, PartialEq)]
pub struct BuildSimilarityGraphRequest {
    pub node_type: String,
    pub weighted_edge_types: Vec<Weight>,
    pub required_edge_types: Vec<String>,
    pub bool_property_weights: Vec<Weight>,
    pub required_bool_properties: Vec<String>,
    pub k: u32,
    pub min_similarity: Float32,
    pub similar_to_edge_type: String,
}

#[derive(Debug, Clone, PartialEq)]
pub struct BuildSimilarityGraphResponse {
    pub nodes_processed: u64,
    pub edges_created: u64,
    pub edges_updated: u64,
    pub elapsed_ms: u64,
}

#[derive(Debug, Clone, PartialEq)]
pub struct ClearEdgeTypeDataRequest {
    pub edge_type_name: String,
}

#[derive(Debug, Clone, PartialEq)]
pub struct ClearEdgeTypeDataResponse {
    pub pairs_removed: u64,
}

} // verus!
