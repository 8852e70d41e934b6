//! What the graph service promises of its requests and replies, field by field.
//!
//! Each law speaks of calls: it holds of every result that a function can give. Where a message
//! holds another message, the law says that it is the one that the function for that part gives.

use vstd::prelude::*;

use crate::error::ClientError;
use crate::float::{Float32, Float64};
use crate::graph::{decode_bins, graph_proto, GraphClient, NodeResponse, NodeSummary};
use crate::types::{
    CreateNodeResult, EdgeFilter, EdgeState, IngestTransactionResult, NeighborEdge,
    NodePropPredicate, NodePropertyFilter, NodeRef, PropertyEntry, PropertyValue,
    TransactionEdge, TransactionNode, TransactionNodeRef, UpsertEdgeResult,
};

verus! {

/// Bin `i` is the count in bytes `2i` (low) and `2i + 1` (high); of fewer than sixteen bytes
/// every bin is zero.
pub proof fn law_bin_is_its_two_bytes(bytes: &[u8], bins: [u16; 8], i: int)
    requires
        call_ensures(decode_bins, (bytes,), bins),
        0 <= i < 8,
    ensures
        bytes@.len() >= 16 ==> bins@[i] == bytes@[2 * i] + 256 * bytes@[2 * i + 1],
        bytes@.len() < 16 ==> bins@[i] == 0,
{
}

/// A node is named by the id, or by the type and external id, that the caller gave.
pub proof fn law_node_is_named_as_given(r: NodeRef, m: graph_proto::NodeRef)
    requires
        call_ensures(GraphClient::node_ref_to_proto, (&r,), m),
    ensures
        r matches NodeRef::NodeId(id) ==> m.identifier == Some(
            graph_proto::Identifier::NodeId(id),
        ),
        r matches NodeRef::External { node_type, external_id } ==> {
            &&& m.identifier matches Some(graph_proto::Identifier::External(e))
            &&& e.node_type_name == node_type
            &&& e.external_id == external_id
        },
{
}

/// A property is sent under its name, and its value under its own kind.
pub proof fn law_property_is_sent_under_its_kind(p: PropertyEntry, m: graph_proto::PropertyEntry)
    requires
        call_ensures(GraphClient::property_to_proto, (&p,), m),
    ensures
        m.name == p.name,
        m.value is Some,
        p.value matches PropertyValue::Int(v) ==> m.value->0.value == Some(
            graph_proto::Value::IntVal(v),
        ),
        p.value matches PropertyValue::Float(v) ==> m.value->0.value == Some(
            graph_proto::Value::FloatVal(v),
        ),
        p.value matches PropertyValue::String(v) ==> m.value->0.value == Some(
            graph_proto::Value::StringVal(v),
        ),
        p.value matches PropertyValue::Bool(v) ==> m.value->0.value == Some(
            graph_proto::Value::BoolVal(v),
        ),
        p.value matches PropertyValue::Timestamp(v) ==> m.value->0.value == Some(
            graph_proto::Value::TimestampVal(v),
        ),
{
}

/// A property is read under its name, and its value by its kind; without a value it is the
/// integer zero.
pub proof fn law_property_is_read_by_its_kind(m: graph_proto::PropertyEntry, p: PropertyEntry)
    requires
        call_ensures(GraphClient::property_from_proto, (m,), p),
    ensures
        p.name == m.name,
        m.value is None ==> p.value == PropertyValue::Int(0),
        m.value matches Some(v) ==> {
            &&& v.value is None ==> p.value == PropertyValue::Int(0)
            &&& v.value matches Some(graph_proto::Value::IntVal(x)) ==> p.value
                == PropertyValue::Int(x)
            &&& v.value matches Some(graph_proto::Value::FloatVal(x)) ==> p.value
                == PropertyValue::Float(x)
            &&& v.value matches Some(graph_proto::Value::StringVal(x)) ==> p.value
                == PropertyValue::String(x)
            &&& v.value matches Some(graph_proto::Value::BoolVal(x)) ==> p.value
                == PropertyValue::Bool(x)
            &&& v.value matches Some(graph_proto::Value::TimestampVal(x)) ==> p.value
                == PropertyValue::Timestamp(x)
        },
{
}

/// What is sent as a property is read back as the same property.
pub proof fn law_property_sent_is_property_read(
    p: PropertyEntry,
    m: graph_proto::PropertyEntry,
    q: PropertyEntry,
)
    requires
        call_ensures(GraphClient::property_to_proto, (&p,), m),
        call_ensures(GraphClient::property_from_proto, (m,), q),
    ensures
        q == p,
{
}

/// Of each property one message is sent, in order.
pub proof fn law_each_property_is_sent(
    ps: &[PropertyEntry],
    ms: Vec<graph_proto::PropertyEntry>,
    i: int,
    m: graph_proto::PropertyEntry,
)
    requires
        call_ensures(GraphClient::properties_to_proto, (ps,), ms),
        0 <= i < ps@.len(),
        call_ensures(GraphClient::property_to_proto, (&ps@[i],), m),
    ensures
        ms@.len() == ps@.len(),
        ms@[i] == m,
{
}

/// Of each message one property is read, in order.
pub proof fn law_each_property_is_read(
    ms: Vec<graph_proto::PropertyEntry>,
    ps: Vec<PropertyEntry>,
    i: int,
    p: PropertyEntry,
)
    requires
        call_ensures(GraphClient::properties_from_proto, (ms,), ps),
        0 <= i < ms@.len(),
        call_ensures(GraphClient::property_from_proto, (ms@[i],), p),
    ensures
        ps@.len() == ms@.len(),
        ps@[i] == p,
{
}

/// Properties that are sent and read back are as many as they were, and each is as it was.
pub proof fn law_lists_of_properties_keep_their_length(
    ps: &[PropertyEntry],
    ms: Vec<graph_proto::PropertyEntry>,
    qs: Vec<PropertyEntry>,
)
    requires
        call_ensures(GraphClient::properties_to_proto, (ps,), ms),
        call_ensures(GraphClient::properties_from_proto, (ms,), qs),
    ensures
        ms@.len() == ps@.len(),
        qs@.len() == ps@.len(),
        forall|i: int| 0 <= i < ps@.len() ==> #[trigger] qs@[i] == ps@[i],
{
}

/// An endpoint of an ingest edge is sent as the node or as the key that it is.
pub proof fn law_endpoint_is_sent_as_given(
    r: TransactionNodeRef,
    m: graph_proto::TransactionNodeRef,
)
    requires
        call_ensures(GraphClient::transaction_node_ref_to_proto, (&r,), m),
    ensures
        r matches TransactionNodeRef::RequestNodeKey(k) ==> m.reference == Some(
            graph_proto::Reference::RequestNodeKey(k),
        ),
        r matches TransactionNodeRef::Node(NodeRef::NodeId(id)) ==> {
            &&& m.reference matches Some(graph_proto::Reference::Node(n))
            &&& n.identifier == Some(graph_proto::Identifier::NodeId(id))
        },
        r matches TransactionNodeRef::Node(NodeRef::External { node_type, external_id }) ==> {
            &&& m.reference matches Some(graph_proto::Reference::Node(n))
            &&& n.identifier matches Some(graph_proto::Identifier::External(e))
            &&& e.node_type_name == node_type
            &&& e.external_id == external_id
        },
{
}

/// Each predicate is sent under its own kind, with its own value, on its own property.
pub proof fn law_filter_is_sent_under_its_kind(
    f: NodePropertyFilter,
    m: graph_proto::PropertyPredicate,
)
    requires
        call_ensures(GraphClient::filter_to_proto, (&f,), m),
    ensures
        m.property_name == f.property,
        f.predicate matches NodePropPredicate::IntGt(v) ==> m.predicate == Some(
            graph_proto::Predicate::IntGt(v),
        ),
        f.predicate matches NodePropPredicate::IntLt(v) ==> m.predicate == Some(
            graph_proto::Predicate::IntLt(v),
        ),
        f.predicate matches NodePropPredicate::IntEq(v) ==> m.predicate == Some(
            graph_proto::Predicate::IntEq(v),
        ),
        f.predicate matches NodePropPredicate::FloatGt(v) ==> m.predicate == Some(
            graph_proto::Predicate::FloatGt(v),
        ),
        f.predicate matches NodePropPredicate::FloatLt(v) ==> m.predicate == Some(
            graph_proto::Predicate::FloatLt(v),
        ),
        f.predicate matches NodePropPredicate::TsAfter(v) ==> m.predicate == Some(
            graph_proto::Predicate::TsAfter(v),
        ),
        f.predicate matches NodePropPredicate::TsBefore(v) ==> m.predicate == Some(
            graph_proto::Predicate::TsBefore(v),
        ),
        f.predicate matches NodePropPredicate::StringEq(v) ==> m.predicate == Some(
            graph_proto::Predicate::StringEq(v),
        ),
        f.predicate matches NodePropPredicate::BoolEq(v) ==> m.predicate == Some(
            graph_proto::Predicate::BoolEq(v),
        ),
{
}

/// A filter that was asked for by name reaches the engine as that comparison with that value.
pub proof fn law_filter_asked_for_is_filter_sent(
    property: &str,
    i: i64,
    x: Float64,
    t: &str,
    b: bool,
    f: NodePropertyFilter,
    m: graph_proto::PropertyPredicate,
)
    requires
        call_ensures(GraphClient::filter_to_proto, (&f,), m),
    ensures
        call_ensures(NodePropertyFilter::int_gt, (property, i), f) ==> m.property_name@
            == property@ && m.predicate == Some(graph_proto::Predicate::IntGt(i)),
        call_ensures(NodePropertyFilter::int_lt, (property, i), f) ==> m.property_name@
            == property@ && m.predicate == Some(graph_proto::Predicate::IntLt(i)),
        call_ensures(NodePropertyFilter::int_eq, (property, i), f) ==> m.property_name@
            == property@ && m.predicate == Some(graph_proto::Predicate::IntEq(i)),
        call_ensures(NodePropertyFilter::float_gt, (property, x), f) ==> m.property_name@
            == property@ && m.predicate == Some(graph_proto::Predicate::FloatGt(x)),
        call_ensures(NodePropertyFilter::float_lt, (property, x), f) ==> m.property_name@
            == property@ && m.predicate == Some(graph_proto::Predicate::FloatLt(x)),
        call_ensures(NodePropertyFilter::ts_after, (property, i), f) ==> m.property_name@
            == property@ && m.predicate == Some(graph_proto::Predicate::TsAfter(i)),
        call_ensures(NodePropertyFilter::ts_before, (property, i), f) ==> m.property_name@
            == property@ && m.predicate == Some(graph_proto::Predicate::TsBefore(i)),
        call_ensures(NodePropertyFilter::string_eq, (property, t), f) ==> {
            &&& m.property_name@ == property@
            &&& m.predicate matches Some(graph_proto::Predicate::StringEq(u))
            &&& u@ == t@
        },
        call_ensures(NodePropertyFilter::bool_eq, (property, b), f) ==> m.property_name@
            == property@ && m.predicate == Some(graph_proto::Predicate::BoolEq(b)),
{
}

/// Of each filter one message is sent, in order.
pub proof fn law_each_filter_is_sent(
    fs: &[NodePropertyFilter],
    ms: Vec<graph_proto::PropertyPredicate>,
    i: int,
    m: graph_proto::PropertyPredicate,
)
    requires
        call_ensures(GraphClient::filters_to_proto, (fs,), ms),
        0 <= i < fs@.len(),
        call_ensures(GraphClient::filter_to_proto, (&fs@[i],), m),
    ensures
        ms@[i] == m,
{
}

/// As many filters are sent as there are.
pub proof fn law_no_filter_is_made_up(
    fs: &[NodePropertyFilter],
    ms: Vec<graph_proto::PropertyPredicate>,
)
    requires
        call_ensures(GraphClient::filters_to_proto, (fs,), ms),
    ensures
        ms@.len() == fs@.len(),
{
}

/// An edge filter is sent with both of its limits and each of its predicates, unless it has
/// none of them; then nothing is sent.
pub proof fn law_edge_filter_is_sent_whole(
    f: EdgeFilter,
    sent: Option<graph_proto::EdgeFilter>,
    i: int,
    m: graph_proto::PropertyPredicate,
)
    requires
        call_ensures(GraphClient::edge_filter_to_proto, (&f,), sent),
        0 <= i < f.property_filters@.len() ==> call_ensures(
            GraphClient::filter_to_proto,
            (&f.property_filters@[i],),
            m,
        ),
    ensures
        sent is None <==> f.min_created_at_us is None && f.max_created_at_us is None
            && f.property_filters@.len() == 0,
        sent matches Some(s) ==> {
            &&& s.min_created_at_us == f.min_created_at_us
            &&& s.max_created_at_us == f.max_created_at_us
            &&& s.property_filters@.len() == f.property_filters@.len()
            &&& 0 <= i < f.property_filters@.len() ==> s.property_filters@[i] == m
        },
{
}

/// A node is created with the type, the external id and the properties that the caller gave.
pub proof fn law_create_node_asks_for_what_was_given(
    node_type: &str,
    external_id: Option<&str>,
    properties: &[PropertyEntry],
    req: graph_proto::CreateNodeRequest,
    i: int,
    p: graph_proto::PropertyEntry,
)
    requires
        call_ensures(
            GraphClient::create_node_request,
            (node_type, external_id, properties),
            req,
        ),
        0 <= i < properties@.len() ==> call_ensures(
            GraphClient::property_to_proto,
            (&properties@[i],),
            p,
        ),
    ensures
        req.node_type_name@ == node_type@,
        external_id is None ==> req.external_id is None,
        external_id matches Some(id) ==> req.external_id matches Some(sent) && sent@ == id@,
        req.properties@.len() == properties@.len(),
        0 <= i < properties@.len() ==> req.properties@[i] == p,
{
}

/// A created node is reported with the id and the flag of the reply; a refusal is handed on.
pub proof fn law_create_node_reports_the_reply(
    reply: Result<graph_proto::CreateNodeResponse, tonic::Status>,
    r: Result<CreateNodeResult, ClientError>,
)
    requires
        call_ensures(GraphClient::create_node, (reply,), r),
    ensures
        reply matches Err(s) ==> r matches Err(ClientError::Status(t)) && t == s,
        reply matches Ok(m) ==> {
            &&& r matches Ok(c)
            &&& c.node_id == m.node_id
            &&& c.created == m.created
        },
{
}

/// An edge is upserted from the source to the destination, with the value, the time and the flag
/// that the caller gave.
pub proof fn law_upsert_edge_asks_for_what_was_given(
    edge_type: &str,
    src: NodeRef,
    dst: NodeRef,
    numeric_value: Option<Float32>,
    event_ts_secs: Option<u32>,
    bool_property_value: Option<bool>,
    req: graph_proto::UpsertEdgeRequest,
    from: graph_proto::NodeRef,
    to: graph_proto::NodeRef,
)
    requires
        call_ensures(
            GraphClient::upsert_edge_request,
            (edge_type, src, dst, numeric_value, event_ts_secs, bool_property_value),
            req,
        ),
        call_ensures(GraphClient::node_ref_to_proto, (&src,), from),
        call_ensures(GraphClient::node_ref_to_proto, (&dst,), to),
    ensures
        req.edge_type_name@ == edge_type@,
        req.src == Some(from),
        req.dst == Some(to),
        req.numeric_value == numeric_value,
        req.event_ts_secs == event_ts_secs,
        req.bool_property_value == bool_property_value,
{
}

/// An upserted edge is reported with every field of its payload, whether it is new or not; a
/// reply without a payload is an error, and a refusal is handed on.
pub proof fn law_upsert_edge_reports_the_payload(
    reply: Result<graph_proto::UpsertEdgeResponse, tonic::Status>,
    r: Result<UpsertEdgeResult, ClientError>,
    i: int,
)
    requires
        call_ensures(GraphClient::upsert_edge, (reply,), r),
        0 <= i < 8,
    ensures
        reply matches Err(s) ==> r matches Err(ClientError::Status(t)) && t == s,
        reply matches Ok(m) ==> {
            &&& m.payload is None ==> {
                &&& r matches Err(ClientError::Internal(t))
                &&& t@ == "missing payload"@
            }
            &&& m.payload matches Some(p) ==> {
                &&& r matches Ok(u)
                &&& u.created_new == m.created_new
                &&& u.tx_count == p.tx_count
                &&& u.approx_sum == p.approx_sum
                &&& u.last_seen == p.last_seen
                &&& u.activity_bitmap == p.flags
                &&& u.bool_flag == p.bool_flag
                &&& p.bins@.len() >= 16 ==> u.bins@[i] == p.bins@[2 * i] + 256 * p.bins@[2 * i
                    + 1]
                &&& p.bins@.len() < 16 ==> u.bins@[i] == 0
            }
        },
{
}

/// An ingest request names the transaction and holds each node, in order, with its key, type,
/// external id and properties. No key and no transaction are sent as empty text.
pub proof fn law_ingest_request_holds_each_node(
    transaction_id: Option<&str>,
    nodes: &[TransactionNode],
    edges: &[TransactionEdge],
    req: graph_proto::IngestTransactionRequest,
    i: int,
    k: int,
    p: graph_proto::PropertyEntry,
)
    requires
        call_ensures(GraphClient::build_ingest_request, (transaction_id, nodes, edges), req),
        0 <= i < nodes@.len() && 0 <= k < nodes@[i].properties@.len() ==> call_ensures(
            GraphClient::property_to_proto,
            (&nodes@[i].properties@[k],),
            p,
        ),
    ensures
        transaction_id is None ==> req.transaction_id@.len() == 0,
        transaction_id matches Some(id) ==> req.transaction_id@ == id@,
        req.nodes@.len() == nodes@.len(),
        0 <= i < nodes@.len() ==> {
            let (n, m) = (nodes@[i], req.nodes@[i]);
            &&& n.request_node_key is None ==> m.request_node_key@.len() == 0
            &&& n.request_node_key matches Some(key) ==> m.request_node_key@ == key@
            &&& m.node_type_name == n.node_type
            &&& m.external_id == n.external_id
            &&& m.properties@.len() == n.properties@.len()
            &&& 0 <= k < n.properties@.len() ==> m.properties@[k] == p
        },
{
    if 0 <= i < nodes@.len() {
        let m = req.nodes@[i];
    }
}

/// An ingest request holds each edge, in order, with its key, type, ends, value, time and flag.
/// No key is sent as empty text.
pub proof fn law_ingest_request_holds_each_edge(
    transaction_id: Option<&str>,
    nodes: &[TransactionNode],
    edges: &[TransactionEdge],
    req: graph_proto::IngestTransactionRequest,
    i: int,
    from: graph_proto::TransactionNodeRef,
    to: graph_proto::TransactionNodeRef,
)
    requires
        call_ensures(GraphClient::build_ingest_request, (transaction_id, nodes, edges), req),
        0 <= i < edges@.len(),
        call_ensures(GraphClient::transaction_node_ref_to_proto, (&edges@[i].src,), from),
        call_ensures(GraphClient::transaction_node_ref_to_proto, (&edges@[i].dst,), to),
    ensures
        ({
            let (e, m) = (edges@[i], req.edges@[i]);
            &&& e.request_edge_key is None ==> m.request_edge_key@.len() == 0
            &&& e.request_edge_key matches Some(key) ==> m.request_edge_key@ == key@
            &&& m.edge_type_name == e.edge_type
            &&& m.src == Some(from)
            &&& m.dst == Some(to)
            &&& m.numeric_value == e.numeric_value
            &&& m.event_ts_secs == e.event_ts_secs
            &&& m.bool_property_value == e.bool_property_value
        }),
{
    let m = req.edges@[i];
}

/// An ingest request holds as many edges as were given.
pub proof fn law_no_ingest_edge_is_made_up(
    transaction_id: Option<&str>,
    nodes: &[TransactionNode],
    edges: &[TransactionEdge],
    req: graph_proto::IngestTransactionRequest,
)
    requires
        call_ensures(GraphClient::build_ingest_request, (transaction_id, nodes, edges), req),
    ensures
        req.edges@.len() == edges@.len(),
{
}

/// The one call of an ingest is made with a request that holds the transaction, the nodes and the
/// edges that were given, and its reply is handed on.
pub proof fn law_ingest_calls_with_what_was_given<
    C,
    F: FnOnce(graph_proto::IngestTransactionRequest) -> C,
>(
    transaction_id: Option<&str>,
    nodes: &[TransactionNode],
    edges: &[TransactionEdge],
    call: F,
    reply: C,
)
    requires
        call_ensures(
            GraphClient::call_ingest_transaction::<C, F>,
            (transaction_id, nodes, edges, call),
            reply,
        ),
    ensures
        exists|req: graph_proto::IngestTransactionRequest|
            {
                &&& #[trigger] call_ensures(call, (req,), reply)
                &&& transaction_id is None ==> req.transaction_id@.len() == 0
                &&& transaction_id matches Some(id) ==> req.transaction_id@ == id@
                &&& req.nodes@.len() == nodes@.len()
                &&& forall|i: int|
                    0 <= i < nodes@.len() ==> (#[trigger] req.nodes@[i]).node_type_name
                        == nodes@[i].node_type && req.nodes@[i].external_id
                        == nodes@[i].external_id && req.nodes@[i].properties@
                        == crate::graph::property_messages(nodes@[i].properties@) && (
                    nodes@[i].request_node_key is Some ==> req.nodes@[i].request_node_key@
                        == nodes@[i].request_node_key->0@) && (nodes@[i].request_node_key is None
                        ==> req.nodes@[i].request_node_key@.len() == 0)
                &&& req.edges@.len() == edges@.len()
                &&& forall|i: int|
                    0 <= i < edges@.len() ==> (#[trigger] req.edges@[i]).edge_type_name
                        == edges@[i].edge_type && req.edges@[i].numeric_value
                        == edges@[i].numeric_value && req.edges@[i].event_ts_secs
                        == edges@[i].event_ts_secs && req.edges@[i].bool_property_value
                        == edges@[i].bool_property_value && req.edges@[i].src == Some(
                        crate::graph::transaction_node_ref_message(edges@[i].src),
                    ) && req.edges@[i].dst == Some(
                        crate::graph::transaction_node_ref_message(edges@[i].dst),
                    ) && (edges@[i].request_edge_key is Some ==> req.edges@[i].request_edge_key@
                        == edges@[i].request_edge_key->0@) && (edges@[i].request_edge_key is None
                        ==> req.edges@[i].request_edge_key@.len() == 0)
            },
{
}

/// The outcome of an ingest has the transaction and the counters of the reply; a refusal is
/// handed on.
pub proof fn law_ingest_reports_the_counters(
    reply: Result<graph_proto::IngestTransactionResponse, tonic::Status>,
    r: Result<IngestTransactionResult, ClientError>,
)
    requires
        call_ensures(GraphClient::ingest_transaction, (reply,), r),
    ensures
        reply matches Err(s) ==> r matches Err(ClientError::Status(t)) && t == s,
        reply matches Ok(m) ==> {
            &&& r matches Ok(t)
            &&& t.transaction_id == m.transaction_id
            &&& t.nodes_created == m.nodes_created
            &&& t.nodes_existing == m.nodes_existing
            &&& t.node_errors == m.node_errors
            &&& t.edges_created == m.edges_created
            &&& t.edges_updated == m.edges_updated
            &&& t.edge_errors == m.edge_errors
            &&& t.node_results@.len() == m.node_results@.len()
            &&& t.edge_results@.len() == m.edge_results@.len()
        },
{
}

/// The outcome of each ingest node is that of the node's own result: its id where it has no
/// error and none where it has one, its key where that is not empty.
pub proof fn law_ingest_reports_each_node(
    m: graph_proto::IngestTransactionResponse,
    r: Result<IngestTransactionResult, ClientError>,
    i: int,
)
    requires
        call_ensures(
            GraphClient::ingest_transaction,
            (Ok::<graph_proto::IngestTransactionResponse, tonic::Status>(m),),
            r,
        ),
        0 <= i < m.node_results@.len(),
    ensures
        ({
            let (n, o) = (m.node_results@[i], r->Ok_0.node_results@[i]);
            &&& o.index == n.index
            &&& n.request_node_key@.len() == 0 ==> o.request_node_key is None
            &&& n.request_node_key@.len() > 0 ==> o.request_node_key == Some(n.request_node_key)
            &&& n.error is None ==> o.node_id == Some(n.node_id)
            &&& n.error is Some ==> o.node_id is None
            &&& o.created == n.created
            &&& o.error == n.error
        }),
{
}

/// The outcome of each ingest edge is that of the edge's own result: it has a payload exactly
/// where the result has one, whether the edge is new or updated, with every field of that
/// payload, and its key where that is not empty.
pub proof fn law_ingest_reports_each_edge(
    m: graph_proto::IngestTransactionResponse,
    r: Result<IngestTransactionResult, ClientError>,
    i: int,
    b: int,
)
    requires
        call_ensures(
            GraphClient::ingest_transaction,
            (Ok::<graph_proto::IngestTransactionResponse, tonic::Status>(m),),
            r,
        ),
        0 <= i < m.edge_results@.len(),
        0 <= b < 8,
    ensures
        ({
            let (e, o) = (m.edge_results@[i], r->Ok_0.edge_results@[i]);
            &&& o.index == e.index
            &&& e.request_edge_key@.len() == 0 ==> o.request_edge_key is None
            &&& e.request_edge_key@.len() > 0 ==> o.request_edge_key == Some(e.request_edge_key)
            &&& o.created_new == e.created_new
            &&& o.error == e.error
            &&& e.payload is None ==> o.payload is None
            &&& e.payload matches Some(p) ==> {
                &&& o.payload matches Some(u)
                &&& u.created_new == e.created_new
                &&& u.tx_count == p.tx_count
                &&& u.approx_sum == p.approx_sum
                &&& u.last_seen == p.last_seen
                &&& u.activity_bitmap == p.flags
                &&& u.bool_flag == p.bool_flag
                &&& p.bins@.len() >= 16 ==> u.bins@[b] == p.bins@[2 * b] + 256 * p.bins@[2 * b
                    + 1]
                &&& p.bins@.len() < 16 ==> u.bins@[b] == 0
            }
        }),
{
    let o = r->Ok_0.edge_results@[i];
}

/// The state is asked for of the edge from the source to the destination, with the limits, the
/// time and the windows that the caller gave, in order.
pub proof fn law_edge_state_asks_for_what_was_given(
    edge_type: &str,
    src: NodeRef,
    dst: NodeRef,
    min_value: Option<Float32>,
    max_value: Option<Float32>,
    query_time_secs: Option<u32>,
    windows: Option<&[u64]>,
    req: graph_proto::GetEdgeStateRequest,
    from: graph_proto::NodeRef,
    to: graph_proto::NodeRef,
    i: int,
)
    requires
        call_ensures(
            GraphClient::get_edge_state_request,
            (edge_type, src, dst, min_value, max_value, query_time_secs, windows),
            req,
        ),
        call_ensures(GraphClient::node_ref_to_proto, (&src,), from),
        call_ensures(GraphClient::node_ref_to_proto, (&dst,), to),
    ensures
        req.edge_type_name@ == edge_type@,
        req.src == Some(from),
        req.dst == Some(to),
        req.min_value == min_value,
        req.max_value == max_value,
        req.query_time_secs == query_time_secs,
        windows is None ==> req.activity_windows_secs@.len() == 0,
        windows matches Some(ws) ==> {
            &&& req.activity_windows_secs@.len() == ws@.len()
            &&& 0 <= i < ws@.len() ==> req.activity_windows_secs@[i] == ws@[i]
        },
{
}

/// The state of an edge is reported with every field of the reply and its payload exactly where
/// the edge was found; a found edge without a payload is an error, and a refusal is handed on.
pub proof fn law_edge_state_reports_the_reply(
    reply: Result<graph_proto::GetEdgeStateResponse, tonic::Status>,
    r: Result<Option<EdgeState>, ClientError>,
    i: int,
)
    requires
        call_ensures(GraphClient::get_edge_state, (reply,), r),
        0 <= i < 8,
    ensures
        reply matches Err(s) ==> r matches Err(ClientError::Status(t)) && t == s,
        reply matches Ok(m) ==> {
            &&& !m.found ==> r is Ok && r->Ok_0 is None
            &&& (m.found && m.payload is None) ==> {
                &&& r matches Err(ClientError::Internal(t))
                &&& t@ == "missing payload"@
            }
            &&& (m.found && m.payload is Some) ==> {
                let p = m.payload->0;
                &&& r matches Ok(Some(st))
                &&& st.found
                &&& st.tx_count == p.tx_count
                &&& st.approx_sum == p.approx_sum
                &&& st.last_seen == p.last_seen
                &&& st.activity_bitmap == p.flags
                &&& st.bool_flag == p.bool_flag
                &&& st.filtered_count == m.filtered_count
                &&& st.filtered_approx_sum == m.filtered_approx_sum
                &&& st.activity_counts@ == m.activity_counts@
                &&& p.bins@.len() >= 16 ==> st.bins@[i] == p.bins@[2 * i] + 256 * p.bins@[2 * i
                    + 1]
                &&& p.bins@.len() < 16 ==> st.bins@[i] == 0
            }
        },
{
}

/// Neighbors are asked for of the node, the edge type and the direction, with the limit, the
/// cursor and each of the filters that the caller gave, and without an edge filter.
pub proof fn law_neighbors_asks_for_what_was_given(
    node: NodeRef,
    edge_type: &str,
    out_neighbors: bool,
    limit: u32,
    cursor: u64,
    neighbor_filters: &[NodePropertyFilter],
    include_props: bool,
    req: graph_proto::NeighborQuery,
    named: graph_proto::NodeRef,
    i: int,
    f: graph_proto::PropertyPredicate,
)
    requires
        call_ensures(
            GraphClient::get_neighbors_request,
            (node, edge_type, out_neighbors, limit, cursor, neighbor_filters, include_props),
            req,
        ),
        call_ensures(GraphClient::node_ref_to_proto, (&node,), named),
        0 <= i < neighbor_filters@.len() ==> call_ensures(
            GraphClient::filter_to_proto,
            (&neighbor_filters@[i],),
            f,
        ),
    ensures
        req.node == Some(named),
        req.edge_type@ == edge_type@,
        req.out_neighbors == out_neighbors,
        req.filter is None,
        req.limit == limit,
        req.cursor == cursor,
        req.neighbor_filters@.len() == neighbor_filters@.len(),
        0 <= i < neighbor_filters@.len() ==> req.neighbor_filters@[i] == f,
        req.include_neighbor_props == include_props,
{
}

/// A filtered request differs from the plain one in the edge filter alone, which is the message
/// of the filter that the caller gave.
pub proof fn law_filtered_request_is_the_plain_one_with_the_filter(
    node: NodeRef,
    edge_type: &str,
    out_neighbors: bool,
    edge_filter: EdgeFilter,
    limit: u32,
    cursor: u64,
    neighbor_filters: &[NodePropertyFilter],
    include_props: bool,
    plain: graph_proto::NeighborQuery,
    filtered: graph_proto::NeighborQuery,
    sent: Option<graph_proto::EdgeFilter>,
)
    requires
        call_ensures(
            GraphClient::get_neighbors_request,
            (node, edge_type, out_neighbors, limit, cursor, neighbor_filters, include_props),
            plain,
        ),
        call_ensures(
            GraphClient::get_neighbors_filtered_request,
            (
                node,
                edge_type,
                out_neighbors,
                &edge_filter,
                limit,
                cursor,
                neighbor_filters,
                include_props,
            ),
            filtered,
        ),
        call_ensures(GraphClient::edge_filter_to_proto, (&edge_filter,), sent),
    ensures
        filtered.node == plain.node,
        filtered.edge_type@ == plain.edge_type@,
        filtered.out_neighbors == plain.out_neighbors,
        filtered.limit == plain.limit,
        filtered.cursor == plain.cursor,
        filtered.neighbor_filters@ == plain.neighbor_filters@,
        filtered.include_neighbor_props == plain.include_neighbor_props,
        filtered.filter is None <==> sent is None,
        filtered.filter matches Some(f) ==> {
            &&& f.min_created_at_us == sent->0.min_created_at_us
            &&& f.max_created_at_us == sent->0.max_created_at_us
            &&& f.property_filters@ == sent->0.property_filters@
        },
{
}

/// Each neighbor of the reply is reported, in order, with every field and each property, and
/// whether more follow; a refusal is handed on.
pub proof fn law_neighbors_reports_each_edge(
    reply: Result<graph_proto::NeighborList, tonic::Status>,
    r: Result<(Vec<NeighborEdge>, bool), ClientError>,
    i: int,
    k: int,
    p: PropertyEntry,
)
    requires
        call_ensures(GraphClient::get_neighbors, (reply,), r),
        reply matches Ok(m) ==> (0 <= i < m.edges@.len() && 0 <= k
            < m.edges@[i].neighbor_props@.len() ==> call_ensures(
            GraphClient::property_from_proto,
            (m.edges@[i].neighbor_props@[k],),
            p,
        )),
    ensures
        reply matches Err(s) ==> r matches Err(ClientError::Status(t)) && t == s,
        reply matches Ok(m) ==> {
            &&& r is Ok
            &&& r->Ok_0.1 == m.has_more
            &&& r->Ok_0.0@.len() == m.edges@.len()
            &&& 0 <= i < m.edges@.len() ==> {
                let (e, n) = (m.edges@[i], r->Ok_0.0@[i]);
                &&& n.neighbor_node_id == e.neighbor_node_id
                &&& n.edge_id == e.edge_id
                &&& n.created_at_us == e.created_at_us
                &&& n.neighbor_node_type == e.neighbor_node_type
                &&& n.neighbor_external_id == e.neighbor_external_id
                &&& n.neighbor_props@.len() == e.neighbor_props@.len()
                &&& 0 <= k < e.neighbor_props@.len() ==> n.neighbor_props@[k] == p
            }
        },
{
    if reply is Ok {
        let n = r->Ok_0.0@[i];
    }
}

/// The neighbor count is asked for of the node and the edge type that the caller gave, and
/// reported with the flag of the reply; a refusal is handed on.
pub proof fn law_neighbor_count(
    node: NodeRef,
    edge_type: &str,
    req: graph_proto::CountQuery,
    named: graph_proto::NodeRef,
    reply: Result<graph_proto::CountResponse, tonic::Status>,
    r: Result<(u64, bool), ClientError>,
)
    requires
        call_ensures(GraphClient::get_neighbor_count_request, (node, edge_type), req),
        call_ensures(GraphClient::node_ref_to_proto, (&node,), named),
        call_ensures(GraphClient::get_neighbor_count, (reply,), r),
    ensures
        req.node == Some(named),
        req.edge_type@ == edge_type@,
        reply matches Err(s) ==> r matches Err(ClientError::Status(t)) && t == s,
        reply matches Ok(m) ==> r is Ok && r->Ok_0.0 == m.count && r->Ok_0.1 == m.approximate,
{
}

/// The last neighbor is asked for of the node and the edge type, without the node that the caller
/// leaves out, and reported with its id and time exactly where there is one.
pub proof fn law_last_neighbor(
    node: NodeRef,
    edge_type: &str,
    exclude_neighbor: Option<NodeRef>,
    req: graph_proto::LastNeighborQuery,
    named: graph_proto::NodeRef,
    excluded: graph_proto::NodeRef,
    reply: Result<graph_proto::LastNeighborResponse, tonic::Status>,
    r: Result<Option<(u64, u32)>, ClientError>,
)
    requires
        call_ensures(
            GraphClient::get_last_neighbor_request,
            (node, edge_type, exclude_neighbor),
            req,
        ),
        call_ensures(GraphClient::node_ref_to_proto, (&node,), named),
        exclude_neighbor matches Some(n) ==> call_ensures(
            GraphClient::node_ref_to_proto,
            (&n,),
            excluded,
        ),
        call_ensures(GraphClient::get_last_neighbor, (reply,), r),
    ensures
        req.node == Some(named),
        req.edge_type@ == edge_type@,
        exclude_neighbor is None ==> req.exclude_neighbor is None,
        exclude_neighbor is Some ==> req.exclude_neighbor == Some(excluded),
        reply matches Err(s) ==> r matches Err(ClientError::Status(t)) && t == s,
        reply matches Ok(m) ==> {
            &&& r is Ok
            &&& !m.found ==> r->Ok_0 is None
            &&& m.found ==> {
                &&& r matches Ok(Some((id, secs)))
                &&& id == m.neighbor_node_id
                &&& secs == m.last_seen_secs
            }
        },
{
}

/// A node is asked for by the name that the caller gave, and reported with every field and each
/// property of the reply; a refusal is handed on.
pub proof fn law_node(
    node: NodeRef,
    req: graph_proto::GetNodeRequest,
    named: graph_proto::NodeRef,
    reply: Result<graph_proto::GetNodeResponse, tonic::Status>,
    r: Result<NodeResponse, ClientError>,
    i: int,
    p: PropertyEntry,
)
    requires
        call_ensures(GraphClient::get_node_request, (node,), req),
        call_ensures(GraphClient::node_ref_to_proto, (&node,), named),
        call_ensures(GraphClient::get_node, (reply,), r),
        reply matches Ok(m) ==> (0 <= i < m.properties@.len() ==> call_ensures(
            GraphClient::property_from_proto,
            (m.properties@[i],),
            p,
        )),
    ensures
        req.node == Some(named),
        reply matches Err(s) ==> r matches Err(ClientError::Status(t)) && t == s,
        reply matches Ok(m) ==> {
            &&& r matches Ok(n)
            &&& n.node_id == m.node_id
            &&& n.node_type == m.node_type
            &&& n.external_id == m.external_id
            &&& n.properties@.len() == m.properties@.len()
            &&& 0 <= i < m.properties@.len() ==> n.properties@[i] == p
        },
{
}

/// Nodes are listed by the filters and the limit that the caller gave; each node of the reply is
/// reported, in order, with every field, and the total with them.
pub proof fn law_list_nodes(
    node_type_filter: &str,
    external_id_filter: &str,
    limit: u32,
    req: graph_proto::ListNodesRequest,
    reply: Result<graph_proto::ListNodesResponse, tonic::Status>,
    r: Result<(Vec<NodeSummary>, u32), ClientError>,
    i: int,
)
    requires
        call_ensures(
            GraphClient::list_nodes_request,
            (node_type_filter, external_id_filter, limit),
            req,
        ),
        call_ensures(GraphClient::list_nodes, (reply,), r),
    ensures
        req.node_type_filter@ == node_type_filter@,
        req.external_id_filter@ == external_id_filter@,
        req.limit == limit,
        reply matches Err(s) ==> r matches Err(ClientError::Status(t)) && t == s,
        reply matches Ok(m) ==> {
            &&& r is Ok
            &&& r->Ok_0.1 == m.total_count
            &&& r->Ok_0.0@.len() == m.nodes@.len()
            &&& 0 <= i < m.nodes@.len() ==> {
                let (n, o) = (m.nodes@[i], r->Ok_0.0@[i]);
                &&& o.node_id == n.node_id
                &&& o.node_type == n.node_type
                &&& o.external_id == n.external_id
            }
        },
{
}

/// Messages go up to 32 MiB, and 1024 requests can wait in a streaming ingest session.
pub proof fn law_limits_of_the_service()
    ensures
        crate::graph::MAX_MESSAGE_BYTES == 33_554_432,
        crate::graph::INGEST_STREAM_CAPACITY == 1024,
{
}

} // verus!
