//! Convenience types for the client API.

use vstd::prelude::*;

use crate::float::{Float32, Float64};

pub mod laws;

verus! {

/// An edge type with a caller-supplied weight for weighted similarity scoring.
///
/// The engine normalises internally, so weights do not need to sum to one.
#[derive(Debug, Clone)]
pub struct EdgeTypeWeight {
    pub edge_type: String,
    pub weight: Float32,
}

impl EdgeTypeWeight {
    /// Convenience constructor.
    pub fn new<N: Into<String>>(edge_type: N, weight: Float32) -> (r: Self)
        ensures
            call_ensures(<N as Into<String>>::into, (edge_type,), r.edge_type),
            r.weight == weight,
    {
        EdgeTypeWeight { edge_type: edge_type.into(), weight }
    }
}

/// A boolean node property treated as a virtual edge for weighted similarity scoring.
///
/// Two nodes that both have the property set share a virtual neighbor.
#[derive(Debug, Clone)]
pub struct BoolPropertyWeight {
    pub property_name: String,
    pub weight: Float32,
}

impl BoolPropertyWeight {
    /// Convenience constructor.
    pub fn new<N: Into<String>>(property_name: N, weight: Float32) -> (r: Self)
        ensures
            call_ensures(<N as Into<String>>::into, (property_name,), r.property_name),
            r.weight == weight,
    {
        BoolPropertyWeight { property_name: property_name.into(), weight }
    }
}

/// Reference to a node: either by its id or by its external type and id.
#[derive(Debug)]
pub enum NodeRef {
    NodeId(u64),
    External { node_type: String, external_id: String },
}

impl Clone for NodeRef {
    fn clone(&self) -> (r: Self)
        ensures
            r == *self,
    {
        match self {
            NodeRef::NodeId(id) => NodeRef::NodeId(*id),
            NodeRef::External { node_type, external_id } => NodeRef::External {
                node_type: node_type.clone(),
                external_id: external_id.clone(),
            },
        }
    }
}

impl NodeRef {
    /// Create a reference by node id.
    pub fn node_id(id: u64) -> (r: Self)
        ensures
            r == NodeRef::NodeId(id),
    {
        NodeRef::NodeId(id)
    }

    /// Create a reference by external type and id.
    pub fn external(node_type: &str, external_id: &str) -> (r: Self)
        ensures
            r matches NodeRef::External { node_type: t, external_id: e } && t@ == node_type@ && e@
                == external_id@,
    {
        NodeRef::External {
            node_type: node_type.to_string(),
            external_id: external_id.to_string(),
        }
    }
}

/// Node declaration in a best-effort transaction ingest request.
#[derive(Debug, Clone)]
pub struct TransactionNode {
    pub request_node_key: Option<String>,
    pub node_type: String,
    pub external_id: String,
    pub properties: Vec<PropertyEntry>,
}

impl TransactionNode {
    /// A node without a request key and without properties.
    pub fn new<N: Into<String>, E: Into<String>>(node_type: N, external_id: E) -> (r: Self)
        ensures
            r.request_node_key is None,
            call_ensures(<N as Into<String>>::into, (node_type,), r.node_type),
            call_ensures(<E as Into<String>>::into, (external_id,), r.external_id),
            r.properties@ == Seq::<PropertyEntry>::empty(),
    {
        TransactionNode {
            request_node_key: None,
            node_type: node_type.into(),
            external_id: external_id.into(),
            properties: Vec::new(),
        }
    }

    /// The same node, under a key that the edges of the request can name.
    pub fn with_key<K: Into<String>>(self, request_node_key: K) -> (r: Self)
        ensures
            r.request_node_key matches Some(k) && call_ensures(
                <K as Into<String>>::into,
                (request_node_key,),
                k,
            ),
            r.node_type == self.node_type,
            r.external_id == self.external_id,
            r.properties == self.properties,
    {
        TransactionNode { request_node_key: Some(request_node_key.into()), ..self }
    }

    /// The same node, with these properties in place of its own.
    pub fn with_properties(self, properties: Vec<PropertyEntry>) -> (r: Self)
        ensures
            r == (TransactionNode { properties, ..self }),
    {
        TransactionNode { properties, ..self }
    }
}

/// Source or destination of a transaction ingest edge.
#[derive(Debug, Clone)]
pub enum TransactionNodeRef {
    Node(NodeRef),
    RequestNodeKey(String),
}

impl TransactionNodeRef {
    /// A node that the engine knows or that the request declares by its external id.
    pub fn node(node: NodeRef) -> (r: Self)
        ensures
            r == TransactionNodeRef::Node(node),
    {
        TransactionNodeRef::Node(node)
    }

    /// A node that the request declares under this key.
    pub fn request_node_key<K: Into<String>>(key: K) -> (r: Self)
        ensures
            r matches TransactionNodeRef::RequestNodeKey(k) && call_ensures(
                <K as Into<String>>::into,
                (key,),
                k,
            ),
    {
        TransactionNodeRef::RequestNodeKey(key.into())
    }
}

/// Edge declaration in a best-effort transaction ingest request.
#[derive(Debug, Clone)]
pub struct TransactionEdge {
    pub request_edge_key: Option<String>,
    pub edge_type: String,
    pub src: TransactionNodeRef,
    pub dst: TransactionNodeRef,
    pub numeric_value: Option<Float32>,
    pub event_ts_secs: Option<u32>,
    pub bool_property_value: Option<bool>,
}

impl TransactionEdge {
    /// An edge without a request key, a value, a time or a flag.
    pub fn new<N: Into<String>>(
        edge_type: N,
        src: TransactionNodeRef,
        dst: TransactionNodeRef,
    ) -> (r: Self)
        ensures
            r.request_edge_key is None,
            call_ensures(<N as Into<String>>::into, (edge_type,), r.edge_type),
            r.src == src,
            r.dst == dst,
            r.numeric_value is None,
            r.event_ts_secs is None,
            r.bool_property_value is None,
    {
        TransactionEdge {
            request_edge_key: None,
            edge_type: edge_type.into(),
            src,
            dst,
            numeric_value: None,
            event_ts_secs: None,
            bool_property_value: None,
        }
    }

    /// The same edge, under a key that its result will carry.
    pub fn with_key<K: Into<String>>(self, request_edge_key: K) -> (r: Self)
        ensures
            r.request_edge_key matches Some(k) && call_ensures(
                <K as Into<String>>::into,
                (request_edge_key,),
                k,
            ),
            r.edge_type == self.edge_type,
            r.src == self.src,
            r.dst == self.dst,
            r.numeric_value == self.numeric_value,
            r.event_ts_secs == self.event_ts_secs,
            r.bool_property_value == self.bool_property_value,
    {
        TransactionEdge { request_edge_key: Some(request_edge_key.into()), ..self }
    }
}

/// What became of one node of an ingest request.
#[derive(Debug, Clone)]
pub struct NodeIngestOutcome {
    pub index: u32,
    pub request_node_key: Option<String>,
    pub node_id: Option<u64>,
    pub created: bool,
    pub error: Option<String>,
}

/// What became of one edge of an ingest request.
#[derive(Debug, Clone)]
pub struct EdgeIngestOutcome {
    pub index: u32,
    pub request_edge_key: Option<String>,
    pub created_new: bool,
    pub payload: Option<UpsertEdgeResult>,
    pub error: Option<String>,
}

/// What became of an ingest request: counters, and one outcome for each node and edge.
#[derive(Debug, Clone)]
pub struct IngestTransactionResult {
    pub transaction_id: String,
    pub nodes_created: u32,
    pub nodes_existing: u32,
    pub node_errors: u32,
    pub edges_created: u32,
    pub edges_updated: u32,
    pub edge_errors: u32,
    pub node_results: Vec<NodeIngestOutcome>,
    pub edge_results: Vec<EdgeIngestOutcome>,
}

/// A property entry: a name and a value.
#[derive(Debug, Clone)]
pub struct PropertyEntry {
    pub name: String,
    pub value: PropertyValue,
}

impl PropertyEntry {
    /// An integer property.
    pub fn integer<N: Into<String>>(name: N, v: i64) -> (r: Self)
        ensures
            call_ensures(<N as Into<String>>::into, (name,), r.name),
            r.value == PropertyValue::Int(v),
    {
        PropertyEntry { name: name.into(), value: PropertyValue::Int(v) }
    }

    /// A floating-point property.
    pub fn float<N: Into<String>>(name: N, v: Float64) -> (r: Self)
        ensures
            call_ensures(<N as Into<String>>::into, (name,), r.name),
            r.value == PropertyValue::Float(v),
    {
        PropertyEntry { name: name.into(), value: PropertyValue::Float(v) }
    }

    /// A text property.
    pub fn string<N: Into<String>, V: Into<String>>(name: N, v: V) -> (r: Self)
        ensures
            call_ensures(<N as Into<String>>::into, (name,), r.name),
            r.value matches PropertyValue::String(t) && call_ensures(
                <V as Into<String>>::into,
                (v,),
                t,
            ),
    {
        PropertyEntry { name: name.into(), value: PropertyValue::String(v.into()) }
    }

    /// A boolean property.
    pub fn bool<N: Into<String>>(name: N, v: bool) -> (r: Self)
        ensures
            call_ensures(<N as Into<String>>::into, (name,), r.name),
            r.value == PropertyValue::Bool(v),
    {
        PropertyEntry { name: name.into(), value: PropertyValue::Bool(v) }
    }
}

/// The value of a property.
#[derive(Debug, Clone)]
pub enum PropertyValue {
    Int(i64),
    Float(Float64),
    String(String),
    Bool(bool),
    Timestamp(i64),
}

/// Result of a create node call. With an external id the call is idempotent:
/// `created` is false if the node existed.
#[derive(Debug, Clone)]
pub struct CreateNodeResult {
    pub node_id: u64,
    pub created: bool,
}

/// Result of an upsert edge call.
///
/// For static (minimal-payload) edges `approx_sum` carries the stored score, `tx_count` is
/// one, and `activity_bitmap` and `bins` are zero.
#[derive(Debug, Clone)]
pub struct UpsertEdgeResult {
    pub created_new: bool,
    pub tx_count: u32,
    /// Accumulated numeric value (or, for static edges, the stored score).
    pub approx_sum: Float32,
    /// Unix timestamp (seconds) of the last event on this edge.
    pub last_seen: u32,
    /// Sliding activity window bitmap, as the engine sent it.
    pub activity_bitmap: u64,
    /// Per-range transaction counts across the value histogram bins.
    pub bins: [u16; 8],
    /// Value of the edge type's boolean property, if one is registered.
    pub bool_flag: Option<bool>,
}

/// State of a single edge.
///
/// For static (minimal-payload) edges `approx_sum` holds the stored score, `tx_count` is
/// one, and `activity_bitmap` and `bins` are zero.
#[derive(Debug, Clone)]
pub struct EdgeState {
    pub found: bool,
    pub tx_count: u32,
    /// Accumulated numeric value (or, for static edges, the stored score).
    pub approx_sum: Float32,
    /// Unix timestamp (seconds) of the last event on this edge.
    pub last_seen: u32,
    /// Sliding activity window bitmap, as the engine sent it.
    pub activity_bitmap: u64,
    /// Per-range transaction counts across the value histogram bins.
    pub bins: [u16; 8],
    /// Event count matching the value filter of the request.
    pub filtered_count: u32,
    /// Accumulated value for events matching the value filter of the request.
    pub filtered_approx_sum: Float32,
    /// Event counts for each activity window of the request, in the same order.
    pub activity_counts: Vec<u32>,
    /// Value of the edge type's boolean property, if one is registered.
    pub bool_flag: Option<bool>,
}

/// A neighbor edge.
#[derive(Debug, Clone)]
pub struct NeighborEdge {
    pub neighbor_node_id: u64,
    pub edge_id: u64,
    pub created_at_us: i64,
    /// The type name of the neighbor node.
    pub neighbor_node_type: String,
    /// The external id of the neighbor, if it has one.
    pub neighbor_external_id: Option<String>,
    /// All registered properties of the neighbor node, where the query asked for them.
    pub neighbor_props: Vec<PropertyEntry>,
}

/// Which field to take from a node histogram.
#[derive(Debug, Clone, Copy, PartialEq, Eq, Structural)]
pub enum HistogramField {
    /// Total event count over the window.
    TotalEvents,
    /// Weighted approximate sum: of each bin, the count times the midpoint.
    TotalApproxSum,
    /// Index of the highest-count bin (from zero).
    PeakBin,
}

/// Which field to take from an edge state.
#[derive(Debug, Clone, Copy, PartialEq, Eq, Structural)]
pub enum EdgeStateField {
    /// Transaction count.
    TxCount,
    /// Approximate sum (for full edges, the accumulated numeric value).
    ApproxSum,
    /// Activity count over a window.
    ActivityCount,
    /// Seconds since the edge was last seen.
    LastSeenSecs,
}

/// A segment that a customer belongs to.
#[derive(Debug, Clone)]
pub struct SegmentMembership {
    pub segment_name: String,
    pub segment_node_id: u64,
    /// Confidence score stored as the edge's value.
    pub confidence: Float32,
    /// Unix timestamp (seconds) of the last evaluation that set this membership.
    pub last_seen_secs: u32,
}

/// A member of a segment.
#[derive(Debug, Clone)]
pub struct SegmentMember {
    pub customer_node_id: u64,
    /// External id of the member node, if it has one.
    pub external_id: Option<String>,
    /// Confidence score stored as the edge's value.
    pub confidence: Float32,
    /// Unix timestamp (seconds) of the last evaluation that set this membership.
    pub last_seen_secs: u32,
}

/// A predicate on a property of a node or an edge.
#[derive(Debug, Clone)]
pub struct NodePropertyFilter {
    pub property: String,
    pub predicate: NodePropPredicate,
}

/// The condition of a property filter.
#[derive(Debug, Clone)]
pub enum NodePropPredicate {
    IntGt(i64),
    IntLt(i64),
    IntEq(i64),
    FloatGt(Float64),
    FloatLt(Float64),
    TsAfter(i64),
    TsBefore(i64),
    StringEq(String),
    BoolEq(bool),
}

impl NodePropertyFilter {
    /// The property is an integer above `val`.
    pub fn int_gt(property: &str, val: i64) -> (r: Self)
        ensures
            r.property@ == property@,
            r.predicate == NodePropPredicate::IntGt(val),
    {
        NodePropertyFilter {
            property: property.to_string(),
            predicate: NodePropPredicate::IntGt(val),
        }
    }

    /// The property is an integer below `val`.
    pub fn int_lt(property: &str, val: i64) -> (r: Self)
        ensures
            r.property@ == property@,
            r.predicate == NodePropPredicate::IntLt(val),
    {
        NodePropertyFilter {
            property: property.to_string(),
            predicate: NodePropPredicate::IntLt(val),
        }
    }

    /// The property is the integer `val`.
    pub fn int_eq(property: &str, val: i64) -> (r: Self)
        ensures
            r.property@ == property@,
            r.predicate == NodePropPredicate::IntEq(val),
    {
        NodePropertyFilter {
            property: property.to_string(),
            predicate: NodePropPredicate::IntEq(val),
        }
    }

    /// The property is a number above `val`.
    pub fn float_gt(property: &str, val: Float64) -> (r: Self)
        ensures
            r.property@ == property@,
            r.predicate == NodePropPredicate::FloatGt(val),
    {
        NodePropertyFilter {
            property: property.to_string(),
            predicate: NodePropPredicate::FloatGt(val),
        }
    }

    /// The property is a number below `val`.
    pub fn float_lt(property: &str, val: Float64) -> (r: Self)
        ensures
            r.property@ == property@,
            r.predicate == NodePropPredicate::FloatLt(val),
    {
        NodePropertyFilter {
            property: property.to_string(),
            predicate: NodePropPredicate::FloatLt(val),
        }
    }

    /// The property is a time after `val`.
    pub fn ts_after(property: &str, val: i64) -> (r: Self)
        ensures
            r.property@ == property@,
            r.predicate == NodePropPredicate::TsAfter(val),
    {
        NodePropertyFilter {
            property: property.to_string(),
            predicate: NodePropPredicate::TsAfter(val),
        }
    }

    /// The property is a time before `val`.
    pub fn ts_before(property: &str, val: i64) -> (r: Self)
        ensures
            r.property@ == property@,
            r.predicate == NodePropPredicate::TsBefore(val),
    {
        NodePropertyFilter {
            property: property.to_string(),
            predicate: NodePropPredicate::TsBefore(val),
        }
    }

    /// The property is the text `val`.
    pub fn string_eq(property: &str, val: &str) -> (r: Self)
        ensures
            r.property@ == property@,
            r.predicate matches NodePropPredicate::StringEq(t) && t@ == val@,
    {
        NodePropertyFilter {
            property: property.to_string(),
            predicate: NodePropPredicate::StringEq(val.to_string()),
        }
    }

    /// The property is the flag `val`.
    pub fn bool_eq(property: &str, val: bool) -> (r: Self)
        ensures
            r.property@ == property@,
            r.predicate == NodePropPredicate::BoolEq(val),
    {
        NodePropertyFilter {
            property: property.to_string(),
            predicate: NodePropPredicate::BoolEq(val),
        }
    }
}

/// Filter on the edges that a filtered neighbor query returns.
///
/// All conditions are joined by "and"; a field left unset constrains nothing.
///
/// - `min_created_at_us` and `max_created_at_us` keep the edges whose `created_at_us` lies
///   between them, ends included (microseconds since the epoch).
/// - `property_filters` are predicates on the edge's own properties.
#[derive(Debug, Clone)]
pub struct EdgeFilter {
    pub min_created_at_us: Option<i64>,
    pub max_created_at_us: Option<i64>,
    pub property_filters: Vec<NodePropertyFilter>,
}

impl Default for EdgeFilter {
    fn default() -> (r: Self)
        ensures
            r.imposes_nothing(),
    {
        EdgeFilter {
            min_created_at_us: None,
            max_created_at_us: None,
            property_filters: Vec::new(),
        }
    }
}

impl EdgeFilter {
    /// No constraint is set.
    pub open spec fn imposes_nothing(self) -> bool {
        &&& self.min_created_at_us is None
        &&& self.max_created_at_us is None
        &&& self.property_filters@.len() == 0
    }

    /// An edge created at `us` passes the limits on the time of creation.
    pub open spec fn admits_created_at(self, us: i64) -> bool {
        &&& self.min_created_at_us matches Some(min) ==> min <= us
        &&& self.max_created_at_us matches Some(max) ==> us <= max
    }

    /// An edge passes the filter: it was created in time and meets every property predicate,
    /// where `holds` says which predicates its properties meet.
    pub open spec fn admits(self, us: i64, holds: spec_fn(NodePropertyFilter) -> bool) -> bool {
        &&& self.admits_created_at(us)
        &&& forall|i: int|
            0 <= i < self.property_filters@.len() ==> #[trigger] holds(self.property_filters@[i])
    }

    /// An empty filter, which every edge passes.
    pub fn new() -> (r: Self)
        ensures
            r.imposes_nothing(),
    {
        EdgeFilter::default()
    }

    /// Keep only edges created at or after `us` (microseconds since the epoch).
    pub fn min_created_at_us(self, us: i64) -> (r: Self)
        ensures
            r == (EdgeFilter { min_created_at_us: Some(us), ..self }),
    {
        EdgeFilter { min_created_at_us: Some(us), ..self }
    }

    /// Keep only edges created at or before `us` (microseconds since the epoch).
    pub fn max_created_at_us(self, us: i64) -> (r: Self)
        ensures
            r == (EdgeFilter { max_created_at_us: Some(us), ..self }),
    {
        EdgeFilter { max_created_at_us: Some(us), ..self }
    }

    /// Add a predicate on one of the edge's own properties.
    pub fn with_property_filter(self, filter: NodePropertyFilter) -> (r: Self)
        ensures
            r.min_created_at_us == self.min_created_at_us,
            r.max_created_at_us == self.max_created_at_us,
            r.property_filters@ == self.property_filters@.push(filter),
    {
        let mut r = self;
        r.property_filters.push(filter);
        r
    }

    /// True when this filter imposes no constraints at all.
    pub fn is_empty(&self) -> (r: bool)
        ensures
            r == self.imposes_nothing(),
    {
        self.min_created_at_us.is_none() && self.max_created_at_us.is_none()
            && self.property_filters.is_empty()
    }

    /// A filter that imposes nothing is passed by every edge.
    pub proof fn law_empty_filter_admits_every_edge(
        self,
        us: i64,
        holds: spec_fn(NodePropertyFilter) -> bool,
    )
        requires
            self.imposes_nothing(),
        ensures
            self.admits(us, holds),
    {
    }

    /// A lower limit adds exactly its own condition to those the filter had without one.
    pub proof fn law_min_created_at(
        self,
        limit: i64,
        us: i64,
        holds: spec_fn(NodePropertyFilter) -> bool,
    )
        requires
            self.min_created_at_us is None,
        ensures
            (EdgeFilter { min_created_at_us: Some(limit), ..self }).admits(us, holds) <==> limit
                <= us && self.admits(us, holds),
    {
        let limited = EdgeFilter { min_created_at_us: Some(limit), ..self };
        assert(limited.property_filters@ == self.property_filters@);
    }

    /// An upper limit adds exactly its own condition to those the filter had without one.
    pub proof fn law_max_created_at(
        self,
        limit: i64,
        us: i64,
        holds: spec_fn(NodePropertyFilter) -> bool,
    )
        requires
            self.max_created_at_us is None,
        ensures
            (EdgeFilter { max_created_at_us: Some(limit), ..self }).admits(us, holds) <==> us
                <= limit && self.admits(us, holds),
    {
        let limited = EdgeFilter { max_created_at_us: Some(limit), ..self };
        assert(limited.property_filters@ == self.property_filters@);
    }

    /// Each added predicate narrows the filter by exactly that predicate.
    pub proof fn law_property_filters_are_joined_by_and(
        self,
        extended: EdgeFilter,
        filter: NodePropertyFilter,
        us: i64,
        holds: spec_fn(NodePropertyFilter) -> bool,
    )
        requires
            extended.min_created_at_us == self.min_created_at_us,
            extended.max_created_at_us == self.max_created_at_us,
            extended.property_filters@ == self.property_filters@.push(filter),
        ensures
            extended.admits(us, holds) <==> self.admits(us, holds) && holds(filter),
    {
        let n = self.property_filters@.len() as int;
        if extended.admits(us, holds) {
            assert(holds(extended.property_filters@[n]));
            assert forall|i: int| 0 <= i < n implies #[trigger] holds(
                self.property_filters@[i],
            ) by {
                assert(holds(extended.property_filters@[i]));
            }
        }
    }
}

} // verus!
