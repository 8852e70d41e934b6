//! Messages of the schema service, as plain values.

use vstd::prelude::*;

use crate::float::Float32;

verus! {

/// How the external ids of a node type are stored. Codes other than the two known ones are kept.
#[derive(Debug, Clone, Copy, PartialEq, Eq, Structural)]
pub enum ExternalIdKind {
    Numeric,
    String,
    Other(i32),
}

/// The type of a registered property.
#[derive(Debug, Clone, Copy, PartialEq, Eq, Structural)]
pub enum ValueType {
    Int,
    Float,
    String,
    Bool,
    Timestamp,
}

#[derive(Debug, Clone, PartialEq)]
pub struct NodeTypeSpec {
    pub name: String,
    pub ext_id_kind: ExternalIdKind,
}

#[derive(Debug, Clone, PartialEq)]
pub struct NodeTypeResponse {
    pub node_type_id: u32,
}

/// The value bins of an edge type and the property they count.
#[derive(Debug, Clone, PartialEq)]
pub struct CompactFieldSchema {
    pub bin_boundaries: Vec<Float32>,
    pub tracked_property: String,
}

/// The histograms that an edge type keeps at its nodes.
#[derive(Debug, Clone, Copy, PartialEq, Eq, Structural)]
pub struct NodeHistogramConfig {
    pub enabled_for_src: bool,
    pub enabled_for_dst: bool,
    pub hourly_slots: u32,
    pub daily_slots: u32,
}

#[derive(Debug, Clone, Copy, PartialEq, Eq, Structural)]
pub struct ActivityBitmapConfig {
    pub tick_size_secs: u64,
}

/// An edge type. An empty boolean property stands for none.
#[derive(Debug, Clone, PartialEq)]
pub struct CompactEdgeTypeSpec {
    pub name: String,
    pub from_node_type: String,
    pub to_node_type: String,
    pub state_ttl_secs: u64,
    pub field_schema: Option<CompactFieldSchema>,
    pub node_histogram: Option<NodeHistogramConfig>,
    pub activity_bitmap: Option<ActivityBitmapConfig>,
    pub minimal_payload: bool,
    pub bool_property: String,
    pub symmetric: bool,
}

#[derive(Debug, Clone, PartialEq)]
pub struct EdgeTypeResponse {
    pub edge_type_id: u32,
}

#[derive(Debug, Clone, PartialEq)]
pub struct PropertySpec {
    pub name: String,
    pub owner_type_name: String,
    pub owner_is_node: bool,
    pub value_type: ValueType,
}

#[derive(Debug, Clone, PartialEq)]
pub struct PropertyResponse {
    pub property_id: u32,
}

#[derive(Debug, Clone, PartialEq)]
pub struct RemoveEdgeTypeRequest {
    pub name: String,
}

#[derive(Debug, Clone, PartialEq)]
pub struct RemoveEdgeTypeResponse {
    pub edge_type_id: u32,
    pub pairs_dropped: u64,
}

#[derive(Debug, Clone, PartialEq)]
pub struct MemoryEstimate {
    pub total_bytes: u64,
    pub nodes_bytes: u64,
    pub compact_store_bytes: u64,
    pub histogram_bytes: u64,
    pub runtime_bytes: u64,
    pub breakdown_text: String,
}

#[derive(Debug, Clone, PartialEq)]
pub struct MemoryUsageResponse {
    pub estimate: Option<MemoryEstimate>,
    pub node_count: u64,
    pub compact_pair_count: u64,
}

#[derive(Debug, Clone, PartialEq)]
pub struct FinalizeResponse {
    pub schema_version: u32,
}

#[derive(Debug, Clone, PartialEq)]
pub struct NodeTypeEntry {
    pub id: u32,
    pub name: String,
    pub ext_id_kind: ExternalIdKind,
}

/// A registered edge type. An empty boolean property stands for none.
#[derive(Debug, Clone, PartialEq)]
pub struct EdgeTypeEntry {
    pub id: u32,
    pub name: String,
    pub from_node_type: String,
    pub to_node_type: String,
    pub state_ttl_secs: u64,
    pub tick_size_secs: u64,
    pub bool_property: String,
    pub is_symmetric: bool,
}

#[derive(Debug, Clone, PartialEq)]
pub struct GetSchemaResponse {
    pub schema_version: u32,
    pub node_types: Vec<NodeTypeEntry>,
    pub edge_types: Vec<EdgeTypeEntry>,
}

} // verus!
