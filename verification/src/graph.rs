//! Graph service: nodes, edges, neighbors.
//!
//! Each call of the service comes as a pair: a function that builds the request, and a
//! function that reads the engine's reply.

use vstd::prelude::*;

use crate::error::ClientError;
use crate::float::Float32;
use crate::text;
use crate::types::{
    CreateNodeResult, EdgeFilter, EdgeIngestOutcome, EdgeState, IngestTransactionResult,
    NeighborEdge, NodeIngestOutcome, NodePropPredicate, NodePropertyFilter, NodeRef,
    PropertyEntry, PropertyValue, TransactionEdge, TransactionNode, TransactionNodeRef,
    UpsertEdgeResult,
};

pub mod graph_proto;
pub mod laws;

verus! {

/// Largest message that the graph service client sends or accepts, in bytes.
pub const MAX_MESSAGE_BYTES: usize = 32 * 1024 * 1024;

/// Requests that can wait in a streaming ingest session before the sender has to.
pub const INGEST_STREAM_CAPACITY: usize = 1024;

/// A node as the engine describes it.
#[derive(Debug, Clone)]
pub struct NodeResponse {
    pub node_id: u64,
    pub node_type: String,
    pub external_id: Option<String>,
    pub properties: Vec<PropertyEntry>,
}

/// A node in a list of nodes.
#[derive(Debug, Clone)]
pub struct NodeSummary {
    pub node_id: u64,
    pub node_type: String,
    pub external_id: String,
}

/// Number of value bins of an edge.
pub const BIN_COUNT: usize = 8;

/// The value bins that bytes stand for: eight little-endian 16-bit counts. Fewer than
/// sixteen bytes are no bins, which reads as all zeros; bytes after the sixteenth are ignored.
pub open spec fn bins_of(bytes: Seq<u8>) -> Seq<u16> {
    Seq::new(
        8,
        |i: int|
            if bytes.len() < 16 {
                0u16
            } else {
                (bytes[2 * i] + 256 * bytes[2 * i + 1]) as u16
            },
    )
}

/// The sixteen bytes that carry eight counts.
pub open spec fn bin_bytes(bins: Seq<u16>) -> Seq<u8> {
    Seq::new(
        16,
        |i: int|
            if i % 2 == 0 {
                (bins[i / 2] % 256) as u8
            } else {
                (bins[i / 2] / 256) as u8
            },
    )
}

/// Decode the `bins` field of an edge payload.
pub fn decode_bins(bytes: &[u8]) -> (r: [u16; 8])
    ensures
        r@ == bins_of(bytes@),
{
    let mut out: [u16; 8] = [0u16; 8];
    if bytes.len() >= 16 {
        let mut i: usize = 0;
        while i < BIN_COUNT
            invariant
                i <= BIN_COUNT,
                bytes.len() >= 16,
                forall|j: int| 0 <= j < i ==> #[trigger] out@[j] == bins_of(bytes@)[j],
            decreases BIN_COUNT - i,
        {
            let lo: u16 = bytes[2 * i] as u16;
            let hi: u16 = bytes[2 * i + 1] as u16;
            out[i] = lo + 256 * hi;
            i += 1;
        }
    }
    assert(out@ =~= bins_of(bytes@));
    out
}

/// Eight counts survive the way through their sixteen bytes.
pub proof fn law_bins_round_trip(bins: Seq<u16>)
    requires
        bins.len() == 8,
    ensures
        bins_of(bin_bytes(bins)) == bins,
{
    assert forall|i: int| 0 <= i < 8 implies #[trigger] bins_of(bin_bytes(bins))[i] == bins[i] by {
        assert(bin_bytes(bins)[2 * i] == bins[i] % 256);
        assert(bin_bytes(bins)[2 * i + 1] == bins[i] / 256);
    }
    assert(bins_of(bin_bytes(bins)) =~= bins);
}

/// The message that names a node.
pub open spec fn node_ref_message(r: NodeRef) -> graph_proto::NodeRef {
    graph_proto::NodeRef {
        identifier: Some(
            match r {
                NodeRef::NodeId(id) => graph_proto::Identifier::NodeId(id),
                NodeRef::External { node_type, external_id } => graph_proto::Identifier::External(
                    graph_proto::ExternalRef { node_type_name: node_type, external_id },
                ),
            },
        ),
    }
}

/// The message of a property value.
pub open spec fn value_message(v: PropertyValue) -> graph_proto::Value {
    match v {
        PropertyValue::Int(x) => graph_proto::Value::IntVal(x),
        PropertyValue::Float(x) => graph_proto::Value::FloatVal(x),
        PropertyValue::String(x) => graph_proto::Value::StringVal(x),
        PropertyValue::Bool(x) => graph_proto::Value::BoolVal(x),
        PropertyValue::Timestamp(x) => graph_proto::Value::TimestampVal(x),
    }
}

/// The message of a property.
pub open spec fn property_message(p: PropertyEntry) -> graph_proto::PropertyEntry {
    graph_proto::PropertyEntry {
        name: p.name,
        value: Some(graph_proto::PropertyValue { value: Some(value_message(p.value)) }),
    }
}

/// The messages of properties, in order.
pub open spec fn property_messages(ps: Seq<PropertyEntry>) -> Seq<graph_proto::PropertyEntry> {
    ps.map_values(|p: PropertyEntry| property_message(p))
}

/// The value that a message holds; a value left out reads as the integer zero.
pub open spec fn value_of_message(v: Option<graph_proto::PropertyValue>) -> PropertyValue {
    match v {
        Some(graph_proto::PropertyValue { value: Some(x) }) => match x {
            graph_proto::Value::IntVal(x) => PropertyValue::Int(x),
            graph_proto::Value::FloatVal(x) => PropertyValue::Float(x),
            graph_proto::Value::StringVal(x) => PropertyValue::String(x),
            graph_proto::Value::BoolVal(x) => PropertyValue::Bool(x),
            graph_proto::Value::TimestampVal(x) => PropertyValue::Timestamp(x),
        },
        _ => PropertyValue::Int(0),
    }
}

/// The property that a message holds.
pub open spec fn property_of_message(m: graph_proto::PropertyEntry) -> PropertyEntry {
    PropertyEntry { name: m.name, value: value_of_message(m.value) }
}

/// The properties that messages hold, in order.
pub open spec fn properties_of_messages(ms: Seq<graph_proto::PropertyEntry>) -> Seq<
    PropertyEntry,
> {
    ms.map_values(|m: graph_proto::PropertyEntry| property_of_message(m))
}

/// The message of an endpoint of an ingest edge.
pub open spec fn transaction_node_ref_message(
    r: TransactionNodeRef,
) -> graph_proto::TransactionNodeRef {
    graph_proto::TransactionNodeRef {
        reference: Some(
            match r {
                TransactionNodeRef::Node(n) => graph_proto::Reference::Node(node_ref_message(n)),
                TransactionNodeRef::RequestNodeKey(k) => graph_proto::Reference::RequestNodeKey(k),
            },
        ),
    }
}

/// The message of a property filter.
pub open spec fn filter_message(f: NodePropertyFilter) -> graph_proto::PropertyPredicate {
    graph_proto::PropertyPredicate {
        property_name: f.property,
        predicate: Some(
            match f.predicate {
                NodePropPredicate::IntGt(v) => graph_proto::Predicate::IntGt(v),
                NodePropPredicate::IntLt(v) => graph_proto::Predicate::IntLt(v),
                NodePropPredicate::IntEq(v) => graph_proto::Predicate::IntEq(v),
                NodePropPredicate::FloatGt(v) => graph_proto::Predicate::FloatGt(v),
                NodePropPredicate::FloatLt(v) => graph_proto::Predicate::FloatLt(v),
                NodePropPredicate::TsAfter(v) => graph_proto::Predicate::TsAfter(v),
                NodePropPredicate::TsBefore(v) => graph_proto::Predicate::TsBefore(v),
                NodePropPredicate::StringEq(v) => graph_proto::Predicate::StringEq(v),
                NodePropPredicate::BoolEq(v) => graph_proto::Predicate::BoolEq(v),
            },
        ),
    }
}

/// The messages of property filters, in order.
pub open spec fn filter_messages(fs: Seq<NodePropertyFilter>) -> Seq<
    graph_proto::PropertyPredicate,
> {
    fs.map_values(|f: NodePropertyFilter| filter_message(f))
}

/// `m` is the message of the edge filter `f`.
pub open spec fn is_edge_filter_message(f: EdgeFilter, m: graph_proto::EdgeFilter) -> bool {
    &&& m.min_created_at_us == f.min_created_at_us
    &&& m.max_created_at_us == f.max_created_at_us
    &&& m.property_filters@ == filter_messages(f.property_filters@)
}

/// `m` is the message of the ingest node `n`.
pub open spec fn is_node_message(n: TransactionNode, m: graph_proto::TransactionNode) -> bool {
    &&& m.request_node_key@ == text::wire_text(text::chars_of(n.request_node_key))
    &&& m.node_type_name == n.node_type
    &&& m.external_id == n.external_id
    &&& m.properties@ == property_messages(n.properties@)
}

/// `m` is the message of the ingest edge `e`.
pub open spec fn is_edge_message(e: TransactionEdge, m: graph_proto::TransactionEdge) -> bool {
    &&& m.request_edge_key@ == text::wire_text(text::chars_of(e.request_edge_key))
    &&& m.edge_type_name == e.edge_type
    &&& m.src == Some(transaction_node_ref_message(e.src))
    &&& m.dst == Some(transaction_node_ref_message(e.dst))
    &&& m.numeric_value == e.numeric_value
    &&& m.event_ts_secs == e.event_ts_secs
    &&& m.bool_property_value == e.bool_property_value
}

/// `req` is the ingest request for these nodes and edges, in order.
pub open spec fn is_ingest_request(
    transaction_id: Option<Seq<char>>,
    nodes: Seq<TransactionNode>,
    edges: Seq<TransactionEdge>,
    req: graph_proto::IngestTransactionRequest,
) -> bool {
    &&& req.transaction_id@ == text::wire_text(transaction_id)
    &&& req.nodes@.len() == nodes.len()
    &&& forall|i: int|
        0 <= i < nodes.len() ==> is_node_message(nodes[i], #[trigger] req.nodes@[i])
    &&& req.edges@.len() == edges.len()
    &&& forall|i: int|
        0 <= i < edges.len() ==> is_edge_message(edges[i], #[trigger] req.edges@[i])
}

/// The result of an upsert, from the payload that the engine sent.
pub open spec fn is_upsert_result(
    created_new: bool,
    p: graph_proto::EdgePayload,
    r: UpsertEdgeResult,
) -> bool {
    &&& r.created_new == created_new
    &&& r.tx_count == p.tx_count
    &&& r.approx_sum == p.approx_sum
    &&& r.last_seen == p.last_seen
    &&& r.activity_bitmap == p.flags
    &&& r.bins@ == bins_of(p.bins@)
    &&& r.bool_flag == p.bool_flag
}

/// The outcome of an ingest node: it has an id exactly where it has no error.
pub open spec fn node_outcome(m: graph_proto::NodeIngestResult) -> NodeIngestOutcome {
    NodeIngestOutcome {
        index: m.index,
        request_node_key: text::present(m.request_node_key),
        node_id: if m.error is Some {
            None
        } else {
            Some(m.node_id)
        },
        created: m.created,
        error: m.error,
    }
}

/// The outcomes of ingest nodes, in order.
pub open spec fn node_outcomes(ms: Seq<graph_proto::NodeIngestResult>) -> Seq<NodeIngestOutcome> {
    ms.map_values(|m: graph_proto::NodeIngestResult| node_outcome(m))
}

/// `o` is the outcome of an ingest edge that `m` reports.
pub open spec fn is_edge_outcome(
    m: graph_proto::EdgeIngestResult,
    o: EdgeIngestOutcome,
) -> bool {
    &&& o.index == m.index
    &&& o.request_edge_key == text::present(m.request_edge_key)
    &&& o.created_new == m.created_new
    &&& match m.payload {
        Some(p) => o.payload matches Some(r) && is_upsert_result(m.created_new, p, r),
        None => o.payload is None,
    }
    &&& o.error == m.error
}

/// `os` are the outcomes of ingest edges that `ms` report, in order.
pub open spec fn are_edge_outcomes(
    ms: Seq<graph_proto::EdgeIngestResult>,
    os: Seq<EdgeIngestOutcome>,
) -> bool {
    &&& os.len() == ms.len()
    &&& forall|i: int| 0 <= i < ms.len() ==> is_edge_outcome(ms[i], #[trigger] os[i])
}

/// `r` is the result that the ingest reply `m` reports.
pub open spec fn is_ingest_result(
    m: graph_proto::IngestTransactionResponse,
    r: IngestTransactionResult,
) -> bool {
    &&& r.transaction_id == m.transaction_id
    &&& r.nodes_created == m.nodes_created
    &&& r.nodes_existing == m.nodes_existing
    &&& r.node_errors == m.node_errors
    &&& r.edges_created == m.edges_created
    &&& r.edges_updated == m.edges_updated
    &&& r.edge_errors == m.edge_errors
    &&& r.node_results@ == node_outcomes(m.node_results@)
    &&& are_edge_outcomes(m.edge_results@, r.edge_results@)
}

/// `s` is the edge state that the reply `m` reports with the payload `p`.
pub open spec fn is_edge_state(
    m: graph_proto::GetEdgeStateResponse,
    p: graph_proto::EdgePayload,
    s: EdgeState,
) -> bool {
    &&& s.found
    &&& s.tx_count == p.tx_count
    &&& s.approx_sum == p.approx_sum
    &&& s.last_seen == p.last_seen
    &&& s.activity_bitmap == p.flags
    &&& s.bins@ == bins_of(p.bins@)
    &&& s.filtered_count == m.filtered_count
    &&& s.filtered_approx_sum == m.filtered_approx_sum
    &&& s.activity_counts == m.activity_counts
    &&& s.bool_flag == p.bool_flag
}

/// `e` is the neighbor edge that `m` reports.
pub open spec fn is_neighbor_edge(m: graph_proto::NeighborEdge, e: NeighborEdge) -> bool {
    &&& e.neighbor_node_id == m.neighbor_node_id
    &&& e.edge_id == m.edge_id
    &&& e.created_at_us == m.created_at_us
    &&& e.neighbor_node_type == m.neighbor_node_type
    &&& e.neighbor_external_id == m.neighbor_external_id
    &&& e.neighbor_props@ == properties_of_messages(m.neighbor_props@)
}

/// `es` are the neighbor edges that `ms` report, in order.
pub open spec fn are_neighbor_edges(
    ms: Seq<graph_proto::NeighborEdge>,
    es: Seq<NeighborEdge>,
) -> bool {
    &&& es.len() == ms.len()
    &&& forall|i: int| 0 <= i < ms.len() ==> is_neighbor_edge(ms[i], #[trigger] es[i])
}

/// A node in a list, as the engine describes it.
pub open spec fn node_summary(m: graph_proto::ListedNode) -> NodeSummary {
    NodeSummary { node_id: m.node_id, node_type: m.node_type, external_id: m.external_id }
}

/// Nodes in a list, in order.
pub open spec fn node_summaries(ms: Seq<graph_proto::ListedNode>) -> Seq<NodeSummary> {
    ms.map_values(|m: graph_proto::ListedNode| node_summary(m))
}

/// Builds the requests of the graph service and reads its replies.
pub struct GraphClient;

impl GraphClient {
    /// The message that names a node.
    pub fn node_ref_to_proto(r: &NodeRef) -> (m: graph_proto::NodeRef)
        ensures
            m == node_ref_message(*r),
    {
        match r {
            NodeRef::NodeId(id) => graph_proto::NodeRef {
                identifier: Some(graph_proto::Identifier::NodeId(*id)),
            },
            NodeRef::External { node_type, external_id } => graph_proto::NodeRef {
                identifier: Some(
                    graph_proto::Identifier::External(
                        graph_proto::ExternalRef {
                            node_type_name: node_type.clone(),
                            external_id: external_id.clone(),
                        },
                    ),
                ),
            },
        }
    }

    /// The message of a property.
    pub fn property_to_proto(p: &PropertyEntry) -> (m: graph_proto::PropertyEntry)
        ensures
            m == property_message(*p),
    {
        let value = match &p.value {
            PropertyValue::Int(v) => graph_proto::Value::IntVal(*v),
            PropertyValue::Float(v) => graph_proto::Value::FloatVal(*v),
            PropertyValue::String(v) => graph_proto::Value::StringVal(v.clone()),
            PropertyValue::Bool(v) => graph_proto::Value::BoolVal(*v),
            PropertyValue::Timestamp(v) => graph_proto::Value::TimestampVal(*v),
        };
        graph_proto::PropertyEntry {
            name: p.name.clone(),
            value: Some(graph_proto::PropertyValue { value: Some(value) }),
        }
    }

    /// The messages of properties, in order.
    pub fn properties_to_proto(ps: &[PropertyEntry]) -> (r: Vec<graph_proto::PropertyEntry>)
        ensures
            r@ == property_messages(ps@),
    {
        let mut r: Vec<graph_proto::PropertyEntry> = Vec::new();
        let mut i: usize = 0;
        while i < ps.len()
            invariant
                i <= ps.len(),
                r@ == property_messages(ps@.take(i as int)),
            decreases ps.len() - i,
        {
            r.push(Self::property_to_proto(&ps[i]));
            assert(ps@.take(i + 1) =~= ps@.take(i as int).push(ps@[i as int]));
            assert(property_messages(ps@.take(i + 1)) =~= property_messages(
                ps@.take(i as int),
            ).push(property_message(ps@[i as int])));
            i += 1;
        }
        assert(ps@.take(i as int) =~= ps@);
        r
    }

    /// The property that a message holds.
    pub fn property_from_proto(m: graph_proto::PropertyEntry) -> (p: PropertyEntry)
        ensures
            p == property_of_message(m),
    {
        let value = match m.value {
            Some(graph_proto::PropertyValue { value: Some(x) }) => match x {
                graph_proto::Value::IntVal(x) => PropertyValue::Int(x),
                graph_proto::Value::FloatVal(x) => PropertyValue::Float(x),
                graph_proto::Value::StringVal(x) => PropertyValue::String(x),
                graph_proto::Value::BoolVal(x) => PropertyValue::Bool(x),
                graph_proto::Value::TimestampVal(x) => PropertyValue::Timestamp(x),
            },
            _ => PropertyValue::Int(0),
        };
        PropertyEntry { name: m.name, value }
    }

    /// The properties that messages hold, in order.
    pub fn properties_from_proto(ms: Vec<graph_proto::PropertyEntry>) -> (r: Vec<PropertyEntry>)
        ensures
            r@ == properties_of_messages(ms@),
    {
        let mut r: Vec<PropertyEntry> = Vec::new();
        for m in it: ms
            invariant
                r@ == properties_of_messages(it.seq().take(it.index())),
        {
            r.push(Self::property_from_proto(m));
            assert(it.seq().take(it.index() + 1) =~= it.seq().take(it.index()).push(m));
            assert(properties_of_messages(it.seq().take(it.index() + 1)) =~= r@);
        }
        r
    }

    /// The message of an endpoint of an ingest edge.
    pub fn transaction_node_ref_to_proto(r: &TransactionNodeRef) -> (m:
        graph_proto::TransactionNodeRef)
        ensures
            m == transaction_node_ref_message(*r),
    {
        let reference = match r {
            TransactionNodeRef::Node(node) => graph_proto::Reference::Node(
                Self::node_ref_to_proto(node),
            ),
            TransactionNodeRef::RequestNodeKey(key) => graph_proto::Reference::RequestNodeKey(
                key.clone(),
            ),
        };
        graph_proto::TransactionNodeRef { reference: Some(reference) }
    }

    /// The message of a property filter.
    pub fn filter_to_proto(f: &NodePropertyFilter) -> (m: graph_proto::PropertyPredicate)
        ensures
            m == filter_message(*f),
    {
        let predicate = match &f.predicate {
            NodePropPredicate::IntGt(v) => graph_proto::Predicate::IntGt(*v),
            NodePropPredicate::IntLt(v) => graph_proto::Predicate::IntLt(*v),
            NodePropPredicate::IntEq(v) => graph_proto::Predicate::IntEq(*v),
            NodePropPredicate::FloatGt(v) => graph_proto::Predicate::FloatGt(*v),
            NodePropPredicate::FloatLt(v) => graph_proto::Predicate::FloatLt(*v),
            NodePropPredicate::TsAfter(v) => graph_proto::Predicate::TsAfter(*v),
            NodePropPredicate::TsBefore(v) => graph_proto::Predicate::TsBefore(*v),
            NodePropPredicate::StringEq(v) => graph_proto::Predicate::StringEq(v.clone()),
            NodePropPredicate::BoolEq(v) => graph_proto::Predicate::BoolEq(*v),
        };
        graph_proto::PropertyPredicate {
            property_name: f.property.clone(),
            predicate: Some(predicate),
        }
    }

    /// The messages of property filters, in order.
    pub fn filters_to_proto(fs: &[NodePropertyFilter]) -> (r: Vec<graph_proto::PropertyPredicate>)
        ensures
            r@ == filter_messages(fs@),
    {
        let mut r: Vec<graph_proto::PropertyPredicate> = Vec::new();
        let mut i: usize = 0;
        while i < fs.len()
            invariant
                i <= fs.len(),
                r@ == filter_messages(fs@.take(i as int)),
            decreases fs.len() - i,
        {
            r.push(Self::filter_to_proto(&fs[i]));
            assert(fs@.take(i + 1) =~= fs@.take(i as int).push(fs@[i as int]));
            assert(filter_messages(fs@.take(i + 1)) =~= r@);
            i += 1;
        }
        assert(fs@.take(i as int) =~= fs@);
        r
    }

    /// The message of an edge filter; a filter that imposes nothing is left out.
    pub fn edge_filter_to_proto(f: &EdgeFilter) -> (r: Option<graph_proto::EdgeFilter>)
        ensures
            f.imposes_nothing() ==> r is None,
            !f.imposes_nothing() ==> (r matches Some(m) && is_edge_filter_message(*f, m)),
    {
        if f.is_empty() {
            None
        } else {
            Some(
                graph_proto::EdgeFilter {
                    min_created_at_us: f.min_created_at_us,
                    max_created_at_us: f.max_created_at_us,
                    property_filters: Self::filters_to_proto(f.property_filters.as_slice()),
                },
            )
        }
    }

    /// Request to create a node. With an external id the call is idempotent.
    pub fn create_node_request(
        node_type: &str,
        external_id: Option<&str>,
        properties: &[PropertyEntry],
    ) -> (req: graph_proto::CreateNodeRequest)
        ensures
            req.node_type_name@ == node_type@,
            text::chars_of(req.external_id) == text::str_chars_of(external_id),
            req.properties@ == property_messages(properties@),
    {
        graph_proto::CreateNodeRequest {
            node_type_name: node_type.to_string(),
            external_id: match external_id {
                Some(id) => Some(id.to_string()),
                None => None,
            },
            properties: Self::properties_to_proto(properties),
        }
    }

    /// Read the reply to a request to create a node.
    pub fn create_node(reply: Result<graph_proto::CreateNodeResponse, tonic::Status>) -> (r: Result<
        CreateNodeResult,
        ClientError,
    >)
        ensures
            match reply {
                Err(s) => r == Err::<CreateNodeResult, ClientError>(ClientError::Status(s)),
                Ok(m) => r == Ok::<CreateNodeResult, ClientError>(
                    CreateNodeResult { node_id: m.node_id, created: m.created },
                ),
            },
    {
        match reply {
            Err(s) => Err(ClientError::from(s)),
            Ok(m) => Ok(CreateNodeResult { node_id: m.node_id, created: m.created }),
        }
    }

    /// Request to upsert a compact edge.
    ///
    /// `bool_property_value` sets the boolean property of the edge; `None` leaves it unchanged.
    pub fn upsert_edge_request(
        edge_type: &str,
        src: NodeRef,
        dst: NodeRef,
        numeric_value: Option<Float32>,
        event_ts_secs: Option<u32>,
        bool_property_value: Option<bool>,
    ) -> (req: graph_proto::UpsertEdgeRequest)
        ensures
            req.edge_type_name@ == edge_type@,
            req.src == Some(node_ref_message(src)),
            req.dst == Some(node_ref_message(dst)),
            req.numeric_value == numeric_value,
            req.event_ts_secs == event_ts_secs,
            req.bool_property_value == bool_property_value,
    {
        graph_proto::UpsertEdgeRequest {
            edge_type_name: edge_type.to_string(),
            src: Some(Self::node_ref_to_proto(&src)),
            dst: Some(Self::node_ref_to_proto(&dst)),
            numeric_value,
            event_ts_secs,
            bool_property_value,
        }
    }

    fn upsert_result(created_new: bool, p: graph_proto::EdgePayload) -> (r: UpsertEdgeResult)
        ensures
            is_upsert_result(created_new, p, r),
    {
        UpsertEdgeResult {
            created_new,
            tx_count: p.tx_count,
            approx_sum: p.approx_sum,
            last_seen: p.last_seen,
            activity_bitmap: p.flags,
            bins: decode_bins(p.bins.as_slice()),
            bool_flag: p.bool_flag,
        }
    }

    /// Read the reply to a request to upsert an edge. A reply without a payload is an error.
    pub fn upsert_edge(reply: Result<graph_proto::UpsertEdgeResponse, tonic::Status>) -> (r: Result<
        UpsertEdgeResult,
        ClientError,
    >)
        ensures
            match reply {
                Err(s) => r == Err::<UpsertEdgeResult, ClientError>(ClientError::Status(s)),
                Ok(m) => match m.payload {
                    None => r matches Err(e) && e.is_internal("missing payload"@),
                    Some(p) => r matches Ok(u) && is_upsert_result(m.created_new, p, u),
                },
            },
    {
        match reply {
            Err(s) => Err(ClientError::from(s)),
            Ok(m) => match m.payload {
                None => Err(ClientError::missing_payload()),
                Some(p) => Ok(Self::upsert_result(m.created_new, p)),
            },
        }
    }

    fn node_to_proto(n: &TransactionNode) -> (m: graph_proto::TransactionNode)
        ensures
            is_node_message(*n, m),
    {
        graph_proto::TransactionNode {
            request_node_key: text::text_or_empty(&n.request_node_key),
            node_type_name: n.node_type.clone(),
            external_id: n.external_id.clone(),
            properties: Self::properties_to_proto(n.properties.as_slice()),
        }
    }

    fn edge_to_proto(e: &TransactionEdge) -> (m: graph_proto::TransactionEdge)
        ensures
            is_edge_message(*e, m),
    {
        graph_proto::TransactionEdge {
            request_edge_key: text::text_or_empty(&e.request_edge_key),
            edge_type_name: e.edge_type.clone(),
            src: Some(Self::transaction_node_ref_to_proto(&e.src)),
            dst: Some(Self::transaction_node_ref_to_proto(&e.dst)),
            numeric_value: e.numeric_value,
            event_ts_secs: e.event_ts_secs,
            bool_property_value: e.bool_property_value,
        }
    }

    /// Build an ingest request: ensure nodes and upsert edges in one call.
    ///
    /// The same request serves a single call and a streaming ingest session.
    pub fn build_ingest_request(
        transaction_id: Option<&str>,
        nodes: &[TransactionNode],
        edges: &[TransactionEdge],
    ) -> (req: graph_proto::IngestTransactionRequest)
        ensures
            is_ingest_request(text::str_chars_of(transaction_id), nodes@, edges@, req),
    {
        let mut node_messages: Vec<graph_proto::TransactionNode> = Vec::new();
        let mut i: usize = 0;
        while i < nodes.len()
            invariant
                i <= nodes.len(),
                node_messages@.len() == i,
                forall|j: int|
                    0 <= j < i ==> is_node_message(nodes@[j], #[trigger] node_messages@[j]),
            decreases nodes.len() - i,
        {
            node_messages.push(Self::node_to_proto(&nodes[i]));
            i += 1;
        }
        let mut edge_messages: Vec<graph_proto::TransactionEdge> = Vec::new();
        let mut k: usize = 0;
        while k < edges.len()
            invariant
                k <= edges.len(),
                edge_messages@.len() == k,
                forall|j: int|
                    0 <= j < k ==> is_edge_message(edges@[j], #[trigger] edge_messages@[j]),
            decreases edges.len() - k,
        {
            edge_messages.push(Self::edge_to_proto(&edges[k]));
            k += 1;
        }
        graph_proto::IngestTransactionRequest {
            transaction_id: text::str_or_empty(transaction_id),
            nodes: node_messages,
            edges: edge_messages,
        }
    }

    /// Ingest a transaction: make one call, with the request for these nodes and edges, and
    /// hand on what the call gives. `call` can be called only once, and no other request
    /// reaches it.
    pub fn call_ingest_transaction<C, F: FnOnce(graph_proto::IngestTransactionRequest) -> C>(
        transaction_id: Option<&str>,
        nodes: &[TransactionNode],
        edges: &[TransactionEdge],
        call: F,
    ) -> (reply: C)
        requires
            forall|req: graph_proto::IngestTransactionRequest|
                is_ingest_request(text::str_chars_of(transaction_id), nodes@, edges@, req)
                    ==> #[trigger] call_requires(call, (req,)),
        ensures
            exists|req: graph_proto::IngestTransactionRequest|
                is_ingest_request(text::str_chars_of(transaction_id), nodes@, edges@, req)
                    && #[trigger] call_ensures(call, (req,), reply),
    {
        call(Self::build_ingest_request(transaction_id, nodes, edges))
    }

    fn node_outcome_from_proto(m: graph_proto::NodeIngestResult) -> (r: NodeIngestOutcome)
        ensures
            r == node_outcome(m),
    {
        NodeIngestOutcome {
            index: m.index,
            request_node_key: text::non_empty(m.request_node_key),
            node_id: if m.error.is_some() {
                None
            } else {
                Some(m.node_id)
            },
            created: m.created,
            error: m.error,
        }
    }

    fn edge_outcome_from_proto(m: graph_proto::EdgeIngestResult) -> (r: EdgeIngestOutcome)
        ensures
            is_edge_outcome(m, r),
    {
        EdgeIngestOutcome {
            index: m.index,
            request_edge_key: text::non_empty(m.request_edge_key),
            created_new: m.created_new,
            payload: match m.payload {
                Some(p) => Some(Self::upsert_result(m.created_new, p)),
                None => None,
            },
            error: m.error,
        }
    }

    fn node_outcomes_from_proto(ms: Vec<graph_proto::NodeIngestResult>) -> (r: Vec<
        NodeIngestOutcome,
    >)
        ensures
            r@ == node_outcomes(ms@),
    {
        let mut r: Vec<NodeIngestOutcome> = Vec::new();
        for m in it: ms
            invariant
                r@ == node_outcomes(it.seq().take(it.index())),
        {
            r.push(Self::node_outcome_from_proto(m));
            assert(it.seq().take(it.index() + 1) =~= it.seq().take(it.index()).push(m));
            assert(node_outcomes(it.seq().take(it.index() + 1)) =~= r@);
        }
        r
    }

    fn edge_outcomes_from_proto(ms: Vec<graph_proto::EdgeIngestResult>) -> (r: Vec<
        EdgeIngestOutcome,
    >)
        ensures
            are_edge_outcomes(ms@, r@),
    {
        let mut r: Vec<EdgeIngestOutcome> = Vec::new();
        for m in it: ms
            invariant
                are_edge_outcomes(it.seq().take(it.index()), r@),
        {
            r.push(Self::edge_outcome_from_proto(m));
        }
        r
    }

    /// Read the reply to an ingest request: counters, and the outcome of each node and edge.
    pub fn ingest_transaction(
        reply: Result<graph_proto::IngestTransactionResponse, tonic::Status>,
    ) -> (r: Result<IngestTransactionResult, ClientError>)
        ensures
            match reply {
                Err(s) => r == Err::<IngestTransactionResult, ClientError>(
                    ClientError::Status(s),
                ),
                Ok(m) => r matches Ok(t) && is_ingest_result(m, t),
            },
    {
        match reply {
            Err(s) => Err(ClientError::from(s)),
            Ok(m) => {
                Ok(
                    IngestTransactionResult {
                        transaction_id: m.transaction_id,
                        nodes_created: m.nodes_created,
                        nodes_existing: m.nodes_existing,
                        node_errors: m.node_errors,
                        edges_created: m.edges_created,
                        edges_updated: m.edges_updated,
                        edge_errors: m.edge_errors,
                        node_results: Self::node_outcomes_from_proto(m.node_results),
                        edge_results: Self::edge_outcomes_from_proto(m.edge_results),
                    },
                )
            },
        }
    }

    /// Request for the state of an edge, with the counts of these activity windows.
    pub fn get_edge_state_request(
        edge_type: &str,
        src: NodeRef,
        dst: NodeRef,
        min_value: Option<Float32>,
        max_value: Option<Float32>,
        query_time_secs: Option<u32>,
        activity_windows_secs: Option<&[u64]>,
    ) -> (req: graph_proto::GetEdgeStateRequest)
        ensures
            req.edge_type_name@ == edge_type@,
            req.src == Some(node_ref_message(src)),
            req.dst == Some(node_ref_message(dst)),
            req.min_value == min_value,
            req.max_value == max_value,
            req.query_time_secs == query_time_secs,
            req.activity_windows_secs@ == (match activity_windows_secs {
                Some(windows) => windows@,
                None => Seq::empty(),
            }),
    {
        graph_proto::GetEdgeStateRequest {
            edge_type_name: edge_type.to_string(),
            src: Some(Self::node_ref_to_proto(&src)),
            dst: Some(Self::node_ref_to_proto(&dst)),
            min_value,
            max_value,
            query_time_secs,
            activity_windows_secs: match activity_windows_secs {
                Some(windows) => vstd::slice::slice_to_vec(windows),
                None => Vec::new(),
            },
        }
    }

    /// Read the reply to a request for an edge state: `None` if the edge was not found. A
    /// reply that found the edge without a payload is an error.
    pub fn get_edge_state(
        reply: Result<graph_proto::GetEdgeStateResponse, tonic::Status>,
    ) -> (r: Result<Option<EdgeState>, ClientError>)
        ensures
            match reply {
                Err(s) => r == Err::<Option<EdgeState>, ClientError>(ClientError::Status(s)),
                Ok(m) => if !m.found {
                    r matches Ok(None)
                } else {
                    match m.payload {
                        None => r matches Err(e) && e.is_internal("missing payload"@),
                        Some(p) => r matches Ok(Some(st)) && is_edge_state(m, p, st),
                    }
                },
            },
    {
        match reply {
            Err(s) => Err(ClientError::from(s)),
            Ok(m) => {
                if !m.found {
                    return Ok(None);
                }
                match m.payload {
                    None => Err(ClientError::missing_payload()),
                    Some(p) => Ok(
                        Some(
                            EdgeState {
                                found: true,
                                tx_count: p.tx_count,
                                approx_sum: p.approx_sum,
                                last_seen: p.last_seen,
                                activity_bitmap: p.flags,
                                bins: decode_bins(p.bins.as_slice()),
                                filtered_count: m.filtered_count,
                                filtered_approx_sum: m.filtered_approx_sum,
                                activity_counts: m.activity_counts,
                                bool_flag: p.bool_flag,
                            },
                        ),
                    ),
                }
            },
        }
    }

    /// Request for the neighbors of a node.
    ///
    /// - A `limit` of zero is no limit. `cursor` is the id of the neighbor after which to
    ///   resume; zero is the start.
    /// - `neighbor_filters` are predicates on the neighbors' properties.
    /// - `include_props` asks for the properties of the neighbors.
    pub fn get_neighbors_request(
        node: NodeRef,
        edge_type: &str,
        out_neighbors: bool,
        limit: u32,
        cursor: u64,
        neighbor_filters: &[NodePropertyFilter],
        include_props: bool,
    ) -> (req: graph_proto::NeighborQuery)
        ensures
            req.node == Some(node_ref_message(node)),
            req.edge_type@ == edge_type@,
            req.out_neighbors == out_neighbors,
            req.filter is None,
            req.limit == limit,
            req.cursor == cursor,
            req.neighbor_filters@ == filter_messages(neighbor_filters@),
            req.include_neighbor_props == include_props,
    {
        graph_proto::NeighborQuery {
            node: Some(Self::node_ref_to_proto(&node)),
            edge_type: edge_type.to_string(),
            out_neighbors,
            filter: None,
            limit,
            cursor,
            neighbor_filters: Self::filters_to_proto(neighbor_filters),
            include_neighbor_props: include_props,
        }
    }

    /// Request for the neighbors of a node along the edges that a filter keeps. With a filter
    /// that imposes nothing this is the unfiltered request.
    pub fn get_neighbors_filtered_request(
        node: NodeRef,
        edge_type: &str,
        out_neighbors: bool,
        edge_filter: &EdgeFilter,
        limit: u32,
        cursor: u64,
        neighbor_filters: &[NodePropertyFilter],
        include_props: bool,
    ) -> (req: graph_proto::NeighborQuery)
        ensures
            req.node == Some(node_ref_message(node)),
            req.edge_type@ == edge_type@,
            req.out_neighbors == out_neighbors,
            edge_filter.imposes_nothing() ==> req.filter is None,
            !edge_filter.imposes_nothing() ==> (req.filter matches Some(m)
                && is_edge_filter_message(*edge_filter, m)),
            req.limit == limit,
            req.cursor == cursor,
            req.neighbor_filters@ == filter_messages(neighbor_filters@),
            req.include_neighbor_props == include_props,
    {
        graph_proto::NeighborQuery {
            filter: Self::edge_filter_to_proto(edge_filter),
            ..Self::get_neighbors_request(
                node,
                edge_type,
                out_neighbors,
                limit,
                cursor,
                neighbor_filters,
                include_props,
            )
        }
    }

    fn neighbor_edge_from_proto(m: graph_proto::NeighborEdge) -> (r: NeighborEdge)
        ensures
            is_neighbor_edge(m, r),
    {
        NeighborEdge {
            neighbor_node_id: m.neighbor_node_id,
            edge_id: m.edge_id,
            created_at_us: m.created_at_us,
            neighbor_node_type: m.neighbor_node_type,
            neighbor_external_id: m.neighbor_external_id,
            neighbor_props: Self::properties_from_proto(m.neighbor_props),
        }
    }

    fn neighbor_edges_from_proto(ms: Vec<graph_proto::NeighborEdge>) -> (r: Vec<NeighborEdge>)
        ensures
            are_neighbor_edges(ms@, r@),
    {
        let mut r: Vec<NeighborEdge> = Vec::new();
        for m in it: ms
            invariant
                are_neighbor_edges(it.seq().take(it.index()), r@),
        {
            r.push(Self::neighbor_edge_from_proto(m));
        }
        r
    }

    /// Read the reply to a neighbor query: the edges, and whether more of them follow.
    pub fn get_neighbors(reply: Result<graph_proto::NeighborList, tonic::Status>) -> (r: Result<
        (Vec<NeighborEdge>, bool),
        ClientError,
    >)
        ensures
            match reply {
                Err(s) => r == Err::<(Vec<NeighborEdge>, bool), ClientError>(
                    ClientError::Status(s),
                ),
                Ok(m) => r matches Ok((edges, has_more)) && are_neighbor_edges(m.edges@, edges@)
                    && has_more == m.has_more,
            },
    {
        match reply {
            Err(s) => Err(ClientError::from(s)),
            Ok(m) => Ok((Self::neighbor_edges_from_proto(m.edges), m.has_more)),
        }
    }

    /// Request for the number of neighbors.
    pub fn get_neighbor_count_request(node: NodeRef, edge_type: &str) -> (req:
        graph_proto::CountQuery)
        ensures
            req.node == Some(node_ref_message(node)),
            req.edge_type@ == edge_type@,
    {
        graph_proto::CountQuery {
            node: Some(Self::node_ref_to_proto(&node)),
            edge_type: edge_type.to_string(),
        }
    }

    /// Read the reply to a request for a neighbor count: the count, and whether it is approximate.
    pub fn get_neighbor_count(reply: Result<graph_proto::CountResponse, tonic::Status>) -> (r:
        Result<(u64, bool), ClientError>)
        ensures
            match reply {
                Err(s) => r == Err::<(u64, bool), ClientError>(ClientError::Status(s)),
                Ok(m) => r == Ok::<(u64, bool), ClientError>((m.count, m.approximate)),
            },
    {
        match reply {
            Err(s) => Err(ClientError::from(s)),
            Ok(m) => Ok((m.count, m.approximate)),
        }
    }

    /// Request for the neighbor that was seen last, leaving one node out of account.
    pub fn get_last_neighbor_request(
        node: NodeRef,
        edge_type: &str,
        exclude_neighbor: Option<NodeRef>,
    ) -> (req: graph_proto::LastNeighborQuery)
        ensures
            req.node == Some(node_ref_message(node)),
            req.edge_type@ == edge_type@,
            req.exclude_neighbor == (match exclude_neighbor {
                Some(n) => Some(node_ref_message(n)),
                None => None,
            }),
    {
        graph_proto::LastNeighborQuery {
            node: Some(Self::node_ref_to_proto(&node)),
            edge_type: edge_type.to_string(),
            exclude_neighbor: match &exclude_neighbor {
                Some(n) => Some(Self::node_ref_to_proto(n)),
                None => None,
            },
        }
    }

    /// Read the reply to a request for the last neighbor: its id and the time it was last
    /// seen, or `None` if there is no neighbor.
    pub fn get_last_neighbor(
        reply: Result<graph_proto::LastNeighborResponse, tonic::Status>,
    ) -> (r: Result<Option<(u64, u32)>, ClientError>)
        ensures
            match reply {
                Err(s) => r == Err::<Option<(u64, u32)>, ClientError>(ClientError::Status(s)),
                Ok(m) => r == Ok::<Option<(u64, u32)>, ClientError>(
                    if m.found {
                        Some((m.neighbor_node_id, m.last_seen_secs))
                    } else {
                        None
                    },
                ),
            },
    {
        match reply {
            Err(s) => Err(ClientError::from(s)),
            Ok(m) => {
                if !m.found {
                    return Ok(None);
                }
                Ok(Some((m.neighbor_node_id, m.last_seen_secs)))
            },
        }
    }

    /// Request for a node.
    pub fn get_node_request(node: NodeRef) -> (req: graph_proto::GetNodeRequest)
        ensures
            req.node == Some(node_ref_message(node)),
    {
        graph_proto::GetNodeRequest { node: Some(Self::node_ref_to_proto(&node)) }
    }

    /// Read the reply to a request for a node.
    pub fn get_node(reply: Result<graph_proto::GetNodeResponse, tonic::Status>) -> (r: Result<
        NodeResponse,
        ClientError,
    >)
        ensures
            match reply {
                Err(s) => r == Err::<NodeResponse, ClientError>(ClientError::Status(s)),
                Ok(m) => {
                    &&& r matches Ok(n)
                    &&& n.node_id == m.node_id
                    &&& n.node_type == m.node_type
                    &&& n.external_id == m.external_id
                    &&& n.properties@ == properties_of_messages(m.properties@)
                },
            },
    {
        match reply {
            Err(s) => Err(ClientError::from(s)),
            Ok(m) => Ok(
                NodeResponse {
                    node_id: m.node_id,
                    node_type: m.node_type,
                    external_id: m.external_id,
                    properties: Self::properties_from_proto(m.properties),
                },
            ),
        }
    }

    /// Request for a list of nodes.
    pub fn list_nodes_request(
        node_type_filter: &str,
        external_id_filter: &str,
        limit: u32,
    ) -> (req: graph_proto::ListNodesRequest)
        ensures
            req.node_type_filter@ == node_type_filter@,
            req.external_id_filter@ == external_id_filter@,
            req.limit == limit,
    {
        graph_proto::ListNodesRequest {
            node_type_filter: node_type_filter.to_string(),
            external_id_filter: external_id_filter.to_string(),
            limit,
        }
    }

    fn node_summaries_from_proto(ms: Vec<graph_proto::ListedNode>) -> (r: Vec<NodeSummary>)
        ensures
            r@ == node_summaries(ms@),
    {
        let mut r: Vec<NodeSummary> = Vec::new();
        for m in it: ms
            invariant
                r@ == node_summaries(it.seq().take(it.index())),
        {
            assert(it.seq().take(it.index() + 1) =~= it.seq().take(it.index()).push(m));
            r.push(
                NodeSummary {
                    node_id: m.node_id,
                    node_type: m.node_type,
                    external_id: m.external_id,
                },
            );
            assert(node_summaries(it.seq().take(it.index() + 1)) =~= r@);
        }
        r
    }

    /// Read the reply to a request for a list of nodes: the nodes, and how many there are in all.
    pub fn list_nodes(reply: Result<graph_proto::ListNodesResponse, tonic::Status>) -> (r: Result<
        (Vec<NodeSummary>, u32),
        ClientError,
    >)
        ensures
            match reply {
                Err(s) => r == Err::<(Vec<NodeSummary>, u32), ClientError>(
                    ClientError::Status(s),
                ),
                Ok(m) => r matches Ok((nodes, total)) && nodes@ == node_summaries(m.nodes@)
                    && total == m.total_count,
            },
    {
        match reply {
            Err(s) => Err(ClientError::from(s)),
            Ok(m) => Ok((Self::node_summaries_from_proto(m.nodes), m.total_count)),
        }
    }
}

/// A property that was written is read back as it was.
pub proof fn law_property_round_trip(p: PropertyEntry)
    ensures
        property_of_message(property_message(p)) == p,
{
}

/// Properties that were written are read back as they were, in their order.
pub proof fn law_properties_round_trip(ps: Seq<PropertyEntry>)
    ensures
        properties_of_messages(property_messages(ps)) == ps,
{
    assert forall|i: int| 0 <= i < ps.len() implies #[trigger] properties_of_messages(
        property_messages(ps),
    )[i] == ps[i] by {
        law_property_round_trip(ps[i]);
    }
    assert(properties_of_messages(property_messages(ps)) =~= ps);
}

/// A property that came without a value reads as the integer zero.
pub proof fn law_missing_value_reads_as_zero(m: graph_proto::PropertyEntry)
    requires
        m.value matches Some(v) ==> v.value is None,
    ensures
        property_of_message(m) == (PropertyEntry { name: m.name, value: PropertyValue::Int(0) }),
{
}

/// Different node references have different messages.
pub proof fn law_node_ref_message_injective(a: NodeRef, b: NodeRef)
    requires
        node_ref_message(a) == node_ref_message(b),
    ensures
        a == b,
{
}

/// Different endpoints of ingest edges have different messages: no node is taken for a request
/// key, and no request key for a node.
pub proof fn law_transaction_node_ref_message_injective(
    a: TransactionNodeRef,
    b: TransactionNodeRef,
)
    requires
        transaction_node_ref_message(a) == transaction_node_ref_message(b),
    ensures
        a == b,
{
    match (a, b) {
        (TransactionNodeRef::Node(x), TransactionNodeRef::Node(y)) => {
            assert(graph_proto::Reference::Node(node_ref_message(x))
                == graph_proto::Reference::Node(node_ref_message(y)));
            law_node_ref_message_injective(x, y);
        },
        _ => {},
    }
}

/// Different property filters have different messages.
pub proof fn law_filter_message_injective(a: NodePropertyFilter, b: NodePropertyFilter)
    requires
        filter_message(a) == filter_message(b),
    ensures
        a == b,
{
}

/// An ingest request keeps all that it was built from: each node with its type, id, properties
/// and key, each edge with its type, ends, values and key, all in order. Only an empty key or
/// id cannot be told from none.
pub proof fn law_ingest_request_keeps_everything(
    req: graph_proto::IngestTransactionRequest,
    id_a: Option<Seq<char>>,
    nodes_a: Seq<TransactionNode>,
    edges_a: Seq<TransactionEdge>,
    id_b: Option<Seq<char>>,
    nodes_b: Seq<TransactionNode>,
    edges_b: Seq<TransactionEdge>,
)
    requires
        is_ingest_request(id_a, nodes_a, edges_a, req),
        is_ingest_request(id_b, nodes_b, edges_b, req),
    ensures
        text::wire_text(id_a) == text::wire_text(id_b),
        nodes_a.len() == nodes_b.len(),
        forall|i: int|
            #![trigger nodes_a[i]]
            #![trigger nodes_b[i]]
            0 <= i < nodes_a.len() ==> {
                let (a, b) = (nodes_a[i], nodes_b[i]);
                &&& text::wire_text(text::chars_of(a.request_node_key)) == text::wire_text(
                    text::chars_of(b.request_node_key),
                )
                &&& a.node_type == b.node_type
                &&& a.external_id == b.external_id
                &&& a.properties@ == b.properties@
            },
        edges_a.len() == edges_b.len(),
        forall|i: int|
            #![trigger edges_a[i]]
            #![trigger edges_b[i]]
            0 <= i < edges_a.len() ==> {
                let (a, b) = (edges_a[i], edges_b[i]);
                &&& text::wire_text(text::chars_of(a.request_edge_key)) == text::wire_text(
                    text::chars_of(b.request_edge_key),
                )
                &&& a.edge_type == b.edge_type
                &&& a.src == b.src
                &&& a.dst == b.dst
                &&& a.numeric_value == b.numeric_value
                &&& a.event_ts_secs == b.event_ts_secs
                &&& a.bool_property_value == b.bool_property_value
            },
{
    assert forall|i: int| 0 <= i < nodes_a.len() implies {
        let (a, b) = (#[trigger] nodes_a[i], nodes_b[i]);
        &&& text::wire_text(text::chars_of(a.request_node_key)) == text::wire_text(
            text::chars_of(b.request_node_key),
        )
        &&& a.node_type == b.node_type
        &&& a.external_id == b.external_id
        &&& a.properties@ == b.properties@
    } by {
        let m = req.nodes@[i];
        law_properties_round_trip(nodes_a[i].properties@);
        law_properties_round_trip(nodes_b[i].properties@);
    }
    assert forall|i: int| 0 <= i < edges_a.len() implies {
        let (a, b) = (#[trigger] edges_a[i], edges_b[i]);
        &&& text::wire_text(text::chars_of(a.request_edge_key)) == text::wire_text(
            text::chars_of(b.request_edge_key),
        )
        &&& a.edge_type == b.edge_type
        &&& a.src == b.src
        &&& a.dst == b.dst
        &&& a.numeric_value == b.numeric_value
        &&& a.event_ts_secs == b.event_ts_secs
        &&& a.bool_property_value == b.bool_property_value
    } by {
        let m = req.edges@[i];
        law_transaction_node_ref_message_injective(edges_a[i].src, edges_b[i].src);
        law_transaction_node_ref_message_injective(edges_a[i].dst, edges_b[i].dst);
    }
}

/// An ingest node has an id exactly where it has no error.
pub proof fn law_node_outcome_has_id_or_error(m: graph_proto::NodeIngestResult)
    ensures
        node_outcome(m).node_id is Some <==> node_outcome(m).error is None,
{
}

/// A node's outcome carries the key that the node was sent with, where the engine returns the
/// key it was given. An empty key comes back as none.
pub proof fn law_node_key_comes_back(
    n: TransactionNode,
    sent: graph_proto::TransactionNode,
    got: graph_proto::NodeIngestResult,
)
    requires
        is_node_message(n, sent),
        got.request_node_key@ == sent.request_node_key@,
        text::chars_of(n.request_node_key) != Some(Seq::<char>::empty()),
    ensures
        text::chars_of(node_outcome(got).request_node_key) == text::chars_of(n.request_node_key),
{
    text::law_optional_text_round_trip(text::chars_of(n.request_node_key));
}

/// An edge's outcome carries the key that the edge was sent with, where the engine returns the
/// key it was given. An empty key comes back as none.
pub proof fn law_edge_key_comes_back(
    e: TransactionEdge,
    sent: graph_proto::TransactionEdge,
    got: graph_proto::EdgeIngestResult,
    outcome: EdgeIngestOutcome,
)
    requires
        is_edge_message(e, sent),
        got.request_edge_key@ == sent.request_edge_key@,
        is_edge_outcome(got, outcome),
        text::chars_of(e.request_edge_key) != Some(Seq::<char>::empty()),
    ensures
        text::chars_of(outcome.request_edge_key) == text::chars_of(e.request_edge_key),
{
    text::law_optional_text_round_trip(text::chars_of(e.request_edge_key));
}

/// An edge that stores no value bins has zero in every bin.
pub proof fn law_no_bins_read_as_zeros(bytes: Seq<u8>, i: int)
    requires
        bytes.len() < 16,
        0 <= i < 8,
    ensures
        bins_of(bytes)[i] == 0,
{
}

/// The result of an ingest edge says the same in both places on whether the edge is new.
pub proof fn law_edge_outcome_agrees_on_created_new(
    m: graph_proto::EdgeIngestResult,
    outcome: EdgeIngestOutcome,
)
    requires
        is_edge_outcome(m, outcome),
    ensures
        outcome.payload matches Some(p) ==> p.created_new == outcome.created_new,
{
}

} // verus!
