//! What the constructors and builders promise of what they make, field by field.

use vstd::prelude::*;

use crate::float::{Float32, Float64};
use crate::types::{
    BoolPropertyWeight, EdgeFilter, EdgeTypeWeight, NodePropPredicate, NodePropertyFilter,
    NodeRef, PropertyEntry, PropertyValue, TransactionEdge, TransactionNode, TransactionNodeRef,
};

verus! {

/// A weight is that of the name, edge type or property, that it was made with.
pub proof fn law_weights(
    name: &str,
    weight: Float32,
    e: EdgeTypeWeight,
    b: BoolPropertyWeight,
)
    requires
        call_ensures(EdgeTypeWeight::new::<&str>, (name, weight), e),
        call_ensures(BoolPropertyWeight::new::<&str>, (name, weight), b),
    ensures
        e.edge_type@ == name@,
        e.weight == weight,
        b.property_name@ == name@,
        b.weight == weight,
{
}

/// A weight made with an owned name holds that name.
pub proof fn law_weights_of_owned_names(
    name: String,
    weight: Float32,
    e: EdgeTypeWeight,
    b: BoolPropertyWeight,
)
    requires
        call_ensures(EdgeTypeWeight::new::<String>, (name, weight), e),
        call_ensures(BoolPropertyWeight::new::<String>, (name, weight), b),
    ensures
        e.edge_type@ == name@,
        e.weight == weight,
        b.property_name@ == name@,
        b.weight == weight,
{
}

/// A reference names the node by the id, or by the type and external id, that it was made with,
/// and a copy of a reference names the same node.
pub proof fn law_node_refs(
    id: u64,
    node_type: &str,
    external_id: &str,
    by_id: NodeRef,
    by_name: NodeRef,
    original: NodeRef,
    copy: NodeRef,
)
    requires
        call_ensures(NodeRef::node_id, (id,), by_id),
        call_ensures(NodeRef::external, (node_type, external_id), by_name),
        call_ensures(<NodeRef as Clone>::clone, (&original,), copy),
    ensures
        by_id == NodeRef::NodeId(id),
        by_name is External,
        by_name->node_type@ == node_type@,
        by_name->external_id@ == external_id@,
        copy == original,
{
}

/// An ingest node has the type and external id that it was made with, and neither a key nor
/// properties.
pub proof fn law_new_ingest_node(node_type: &str, external_id: &str, n: TransactionNode)
    requires
        call_ensures(TransactionNode::new::<&str, &str>, (node_type, external_id), n),
    ensures
        n.node_type@ == node_type@,
        n.external_id@ == external_id@,
        n.request_node_key is None,
        n.properties@.len() == 0,
{
}

/// A key given to an ingest node, and properties given to it, change nothing else; properties
/// take the place of those that it had.
pub proof fn law_ingest_node_builders(
    n: TransactionNode,
    key: &str,
    keyed: TransactionNode,
    properties: Vec<PropertyEntry>,
    filled: TransactionNode,
)
    requires
        call_ensures(TransactionNode::with_key::<&str>, (n, key), keyed),
        call_ensures(TransactionNode::with_properties, (n, properties), filled),
    ensures
        keyed.request_node_key is Some,
        keyed.request_node_key->0@ == key@,
        keyed.node_type == n.node_type,
        keyed.external_id == n.external_id,
        keyed.properties == n.properties,
        filled.properties == properties,
        filled.request_node_key == n.request_node_key,
        filled.node_type == n.node_type,
        filled.external_id == n.external_id,
{
}

/// An endpoint of an ingest edge is the node or the key that it was made with.
pub proof fn law_endpoints(
    node: NodeRef,
    key: &str,
    by_node: TransactionNodeRef,
    by_key: TransactionNodeRef,
)
    requires
        call_ensures(TransactionNodeRef::node, (node,), by_node),
        call_ensures(TransactionNodeRef::request_node_key::<&str>, (key,), by_key),
    ensures
        by_node == TransactionNodeRef::Node(node),
        by_key matches TransactionNodeRef::RequestNodeKey(k) && k@ == key@,
{
}

/// An ingest edge leads from the source to the destination that it was made with, has that type,
/// and nothing else; a key given to it changes nothing else.
pub proof fn law_ingest_edges(
    edge_type: &str,
    src: TransactionNodeRef,
    dst: TransactionNodeRef,
    e: TransactionEdge,
    key: &str,
    f: TransactionEdge,
    keyed: TransactionEdge,
)
    requires
        call_ensures(TransactionEdge::new::<&str>, (edge_type, src, dst), e),
        call_ensures(TransactionEdge::with_key::<&str>, (f, key), keyed),
    ensures
        e.edge_type@ == edge_type@,
        e.src == src,
        e.dst == dst,
        e.request_edge_key is None,
        e.numeric_value is None,
        e.event_ts_secs is None,
        e.bool_property_value is None,
        keyed.request_edge_key is Some,
        keyed.request_edge_key->0@ == key@,
        keyed.edge_type == f.edge_type,
        keyed.src == f.src,
        keyed.dst == f.dst,
        keyed.numeric_value == f.numeric_value,
        keyed.event_ts_secs == f.event_ts_secs,
        keyed.bool_property_value == f.bool_property_value,
{
}

/// A property has the name that it was made with, and its value is of the kind that was asked
/// for.
pub proof fn law_properties(
    name: &str,
    i: i64,
    x: Float64,
    t: &str,
    b: bool,
    p: PropertyEntry,
)
    ensures
        call_ensures(PropertyEntry::integer::<&str>, (name, i), p) ==> p.name@ == name@ && p.value
            == PropertyValue::Int(i),
        call_ensures(PropertyEntry::float::<&str>, (name, x), p) ==> p.name@ == name@ && p.value
            == PropertyValue::Float(x),
        call_ensures(PropertyEntry::bool::<&str>, (name, b), p) ==> p.name@ == name@ && p.value
            == PropertyValue::Bool(b),
        call_ensures(PropertyEntry::string::<&str, &str>, (name, t), p) ==> {
            &&& p.name@ == name@
            &&& p.value matches PropertyValue::String(u)
            &&& u@ == t@
        },
{
}

/// A filter is on the property that it was made with, and compares as it was asked to.
pub proof fn law_filters(
    property: &str,
    i: i64,
    x: Float64,
    t: &str,
    b: bool,
    f: NodePropertyFilter,
)
    ensures
        call_ensures(NodePropertyFilter::int_gt, (property, i), f) ==> f.property@ == property@
            && f.predicate == NodePropPredicate::IntGt(i),
        call_ensures(NodePropertyFilter::int_lt, (property, i), f) ==> f.property@ == property@
            && f.predicate == NodePropPredicate::IntLt(i),
        call_ensures(NodePropertyFilter::int_eq, (property, i), f) ==> f.property@ == property@
            && f.predicate == NodePropPredicate::IntEq(i),
        call_ensures(NodePropertyFilter::float_gt, (property, x), f) ==> f.property@ == property@
            && f.predicate == NodePropPredicate::FloatGt(x),
        call_ensures(NodePropertyFilter::float_lt, (property, x), f) ==> f.property@ == property@
            && f.predicate == NodePropPredicate::FloatLt(x),
        call_ensures(NodePropertyFilter::ts_after, (property, i), f) ==> f.property@ == property@
            && f.predicate == NodePropPredicate::TsAfter(i),
        call_ensures(NodePropertyFilter::ts_before, (property, i), f) ==> f.property@ == property@
            && f.predicate == NodePropPredicate::TsBefore(i),
        call_ensures(NodePropertyFilter::string_eq, (property, t), f) ==> {
            &&& f.property@ == property@
            &&& f.predicate matches NodePropPredicate::StringEq(u)
            &&& u@ == t@
        },
        call_ensures(NodePropertyFilter::bool_eq, (property, b), f) ==> f.property@ == property@
            && f.predicate == NodePropPredicate::BoolEq(b),
{
}

/// A new edge filter has no condition, and neither has the default one; a filter is empty
/// exactly where it has none.
pub proof fn law_empty_edge_filters(made: EdgeFilter, default: EdgeFilter, f: EdgeFilter, r: bool)
    requires
        call_ensures(EdgeFilter::new, (), made),
        call_ensures(<EdgeFilter as Default>::default, (), default),
        call_ensures(EdgeFilter::is_empty, (&f,), r),
    ensures
        made.min_created_at_us is None && made.max_created_at_us is None
            && made.property_filters@.len() == 0,
        default.min_created_at_us is None && default.max_created_at_us is None
            && default.property_filters@.len() == 0,
        r <==> f.min_created_at_us is None && f.max_created_at_us is None
            && f.property_filters@.len() == 0,
{
}

/// Each condition given to an edge filter is set as given, and changes no other; a predicate is
/// added after those that the filter has.
pub proof fn law_edge_filter_builders(
    f: EdgeFilter,
    us: i64,
    filter: NodePropertyFilter,
    from: EdgeFilter,
    to: EdgeFilter,
    narrowed: EdgeFilter,
    i: int,
)
    requires
        call_ensures(EdgeFilter::min_created_at_us, (f, us), from),
        call_ensures(EdgeFilter::max_created_at_us, (f, us), to),
        call_ensures(EdgeFilter::with_property_filter, (f, filter), narrowed),
    ensures
        from.min_created_at_us == Some(us),
        from.max_created_at_us == f.max_created_at_us,
        from.property_filters == f.property_filters,
        to.max_created_at_us == Some(us),
        to.min_created_at_us == f.min_created_at_us,
        to.property_filters == f.property_filters,
        narrowed.min_created_at_us == f.min_created_at_us,
        narrowed.max_created_at_us == f.max_created_at_us,
        narrowed.property_filters@.len() == f.property_filters@.len() + 1,
        narrowed.property_filters@.last() == filter,
        0 <= i < f.property_filters@.len() ==> narrowed.property_filters@[i]
            == f.property_filters@[i],
{
}

/// An edge passes a filter exactly where it was created no earlier than the lower limit and no
/// later than the upper, where there are such limits, and meets every predicate.
pub proof fn law_edge_filter_admits(
    f: EdgeFilter,
    us: i64,
    holds: spec_fn(NodePropertyFilter) -> bool,
)
    ensures
        f.admits(us, holds) <==> (f.min_created_at_us is None || f.min_created_at_us->0 <= us) && (
        f.max_created_at_us is None || us <= f.max_created_at_us->0) && forall|
            p: NodePropertyFilter,
        | #[trigger]
            f.property_filters@.contains(p) ==> holds(p),
{
    if f.admits(us, holds) {
        assert forall|p: NodePropertyFilter| #[trigger]
            f.property_filters@.contains(p) implies holds(p) by {
            let i = choose|i: int|
                0 <= i < f.property_filters@.len() && f.property_filters@[i] == p;
            assert(holds(f.property_filters@[i]));
        }
    }
    if forall|p: NodePropertyFilter| #[trigger] f.property_filters@.contains(p) ==> holds(p) {
        assert forall|i: int| 0 <= i < f.property_filters@.len() implies #[trigger] holds(
            f.property_filters@[i],
        ) by {
            assert(f.property_filters@.contains(f.property_filters@[i]));
        }
    }
}

} // verus!
