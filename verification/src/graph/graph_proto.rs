//! Messages of the graph service, as plain values.

use vstd::prelude::*;

use crate::float::{Float32, Float64};

verus! {

/// A node's type name and external id.
#[derive(Debug, Clone, PartialEq)]
pub struct ExternalRef {
    pub node_type_name: String,
    pub external_id: String,
}

/// How a node is named.
#[derive(Debug, Clone, PartialEq)]
pub enum Identifier {
    NodeId(u64),
    External(ExternalRef),
}

/// A node, by id or by external reference.
#[derive(Debug, Clone, PartialEq)]
pub struct NodeRef {
    pub identifier: Option<Identifier>,
}

/// The kinds of property values.
#[derive(Debug, Clone, PartialEq)]
pub enum Value {
    IntVal(i64),
    FloatVal(Float64),
    StringVal(String),
    BoolVal(bool),
    TimestampVal(i64),
}

/// A property value.
#[derive(Debug, Clone, PartialEq)]
pub struct PropertyValue {
    pub value: Option<Value>,
}

/// A named property value.
#[derive(Debug, Clone, PartialEq)]
pub struct PropertyEntry {
    pub name: String,
    pub value: Option<PropertyValue>,
}

/// An endpoint of an ingest edge: a node, or the key of a node of the same request.
#[derive(Debug, Clone, PartialEq)]
pub enum Reference {
    Node(NodeRef),
    RequestNodeKey(String),
}

/// An endpoint of an ingest edge.
#[derive(Debug, Clone, PartialEq)]
pub struct TransactionNodeRef {
    pub reference: Option<Reference>,
}

#[derive(Debug, Clone, PartialEq)]
pub struct CreateNodeRequest {
    pub node_type_name: String,
    pub external_id: Option<String>,
    pub properties: Vec<PropertyEntry>,
}

#[derive(Debug, Clone, PartialEq)]
pub struct CreateNodeResponse {
    pub node_id: u64,
    pub created: bool,
}

/// The stored state of an edge.
#[derive(Debug, Clone, PartialEq)]
pub struct EdgePayload {
    pub tx_count: u32,
    pub approx_sum: Float32,
    pub last_seen: u32,
    pub flags: u64,
    /// Eight little-endian 16-bit counts, or nothing.
    pub bins: Vec<u8>,
    pub bool_flag: Option<bool>,
}

#[derive(Debug, Clone, PartialEq)]
pub struct UpsertEdgeRequest {
    pub edge_type_name: String,
    pub src: Option<NodeRef>,
    pub dst: Option<NodeRef>,
    pub numeric_value: Option<Float32>,
    pub event_ts_secs: Option<u32>,
    pub bool_property_value: Option<bool>,
}

#[derive(Debug, Clone, PartialEq)]
pub struct UpsertEdgeResponse {
    pub created_new: bool,
    pub payload: Option<EdgePayload>,
}

/// A node of an ingest request. An empty key stands for none.
#[derive(Debug, Clone, PartialEq)]
pub struct TransactionNode {
    pub request_node_key: String,
    pub node_type_name: String,
    pub external_id: String,
    pub properties: Vec<PropertyEntry>,
}

/// An edge of an ingest request. An empty key stands for none.
#[derive(Debug, Clone, PartialEq)]
pub struct TransactionEdge {
    pub request_edge_key: String,
    pub edge_type_name: String,
    pub src: Option<TransactionNodeRef>,
    pub dst: Option<TransactionNodeRef>,
    pub numeric_value: Option<Float32>,
    pub event_ts_secs: Option<u32>,
    pub bool_property_value: Option<bool>,
}

/// An ingest request. An empty transaction id stands for none.
#[derive(Debug, Clone, PartialEq)]
pub struct IngestTransactionRequest {
    pub transaction_id: String,
    pub nodes: Vec<TransactionNode>,
    pub edges: Vec<TransactionEdge>,
}

#[derive(Debug, Clone, PartialEq)]
pub struct NodeIngestResult {
    pub index: u32,
    pub request_node_key: String,
    pub node_id: u64,
    pub created: bool,
    pub error: Option<String>,
}

#[derive(Debug, Clone, PartialEq)]
pub struct EdgeIngestResult {
    pub index: u32,
    pub request_edge_key: String,
    pub created_new: bool,
    pub payload: Option<EdgePayload>,
    pub error: Option<String>,
}

#[derive(Debug, Clone, PartialEq)]
pub struct IngestTransactionResponse {
    pub transaction_id: String,
    pub nodes_created: u32,
    pub nodes_existing: u32,
    pub node_errors: u32,
    pub edges_created: u32,
    pub edges_updated: u32,
    pub edge_errors: u32,
    pub node_results: Vec<NodeIngestResult>,
    pub edge_results: Vec<EdgeIngestResult>,
}

#[derive(Debug, Clone, PartialEq)]
pub struct GetEdgeStateRequest {
    pub edge_type_name: String,
    pub src: Option<NodeRef>,
    pub dst: Option<NodeRef>,
    pub min_value: Option<Float32>,
    pub max_value: Option<Float32>,
    pub query_time_secs: Option<u32>,
    pub activity_windows_secs: Vec<u64>,
}

#[derive(Debug, Clone, PartialEq)]
pub struct GetEdgeStateResponse {
    pub found: bool,
    pub payload: Option<EdgePayload>,
    pub filtered_count: u32,
    pub filtered_approx_sum: Float32,
    pub activity_counts: Vec<u32>,
}

/// The condition of a property predicate.
#[derive(Debug, Clone, PartialEq)]
pub enum Predicate {
    IntGt(i64),
    IntLt(i64),
    IntEq(i64),
    FloatGt(Float64),
    FloatLt(Float64),
    TsAfter(i64),
    TsBefore(i64),
    StringEq(String),
    BoolEq(bool),
}

/// A predicate on a named property.
#[derive(Debug, Clone, PartialEq)]
pub struct PropertyPredicate {
    pub property_name: String,
    pub predicate: Option<Predicate>,
}

/// Conditions on the edges that a neighbor query returns.
#[derive(Debug, Clone, PartialEq)]
pub struct EdgeFilter {
    pub min_created_at_us: Option<i64>,
    pub max_created_at_us: Option<i64>,
    pub property_filters: Vec<PropertyPredicate>,
}

/// A neighbor query. A limit of zero is no limit; a cursor of zero is the start.
#[derive(Debug, Clone, PartialEq)]
pub struct NeighborQuery {
    pub node: Option<NodeRef>,
    pub edge_type: String,
    pub out_neighbors: bool,
    pub filter: Option<EdgeFilter>,
    pub limit: u32,
    pub cursor: u64,
    pub neighbor_filters: Vec<PropertyPredicate>,
    pub include_neighbor_props: bool,
}

#[derive(Debug, Clone, PartialEq)]
pub struct NeighborEdge {
    pub neighbor_node_id: u64,
    pub edge_id: u64,
    pub created_at_us: i64,
    pub neighbor_node_type: String,
    pub neighbor_external_id: Option<String>,
    pub neighbor_props: Vec<PropertyEntry>,
}

#[derive(Debug, Clone, PartialEq)]
pub struct NeighborList {
    pub edges: Vec<NeighborEdge>,
    pub has_more: bool,
}

#[derive(Debug, Clone, PartialEq)]
pub struct CountQuery {
    pub node: Option<NodeRef>,
    pub edge_type: String,
}

#[derive(Debug, Clone, PartialEq)]
pub struct CountResponse {
    pub count: u64,
    pub approximate: bool,
}

#[derive(Debug, Clone, PartialEq)]
pub struct LastNeighborQuery {
    pub node: Option<NodeRef>,
    pub edge_type: String,
    pub exclude_neighbor: Option<NodeRef>,
}

#[derive(Debug, Clone, PartialEq)]
pub struct LastNeighborResponse {
    pub found: bool,
    pub neighbor_node_id: u64,
    pub last_seen_secs: u32,
}

#[derive(Debug, Clone, PartialEq)]
pub struct GetNodeRequest {
    pub node: Option<NodeRef>,
}

#[derive(Debug, Clone, PartialEq)]
pub struct GetNodeResponse {
    pub node_id: u64,
    pub node_type: String,
    pub external_id: Option<String>,
    pub properties: Vec<PropertyEntry>,
}

#[derive(Debug, Clone, PartialEq)]
pub struct ListNodesRequest {
    pub node_type_filter: String,
    pub external_id_filter: String,
    pub limit: u32,
}

#[derive(Debug, Clone, PartialEq)]
pub struct ListedNode {
    pub node_id: u64,
    pub node_type: String,
    pub external_id: String,
}

#[derive(Debug, Clone, PartialEq)]
pub struct ListNodesResponse {
    pub nodes: Vec<ListedNode>,
    pub total_count: u32,
}

} // verus!
