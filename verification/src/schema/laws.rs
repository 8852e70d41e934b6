//! What the schema service promises of its requests and replies, field by field.

use vstd::prelude::*;

use crate::error::ClientError;
use crate::float::Float32;
use crate::schema::{
    schema_proto, GetSchemaResult, MemoryUsage, RemoveEdgeTypeResult, SchemaClient,
};

verus! {

/// A node type is registered under its name, with numbers or text for external ids as the caller
/// chose; its id is that of the reply, and a refusal is handed on.
pub proof fn law_node_type_registration(
    name: &str,
    numeric_ids: bool,
    req: schema_proto::NodeTypeSpec,
    reply: Result<schema_proto::NodeTypeResponse, tonic::Status>,
    r: Result<u32, ClientError>,
)
    requires
        call_ensures(SchemaClient::register_node_type_request, (name, numeric_ids), req),
        call_ensures(SchemaClient::register_node_type, (reply,), r),
    ensures
        req.name@ == name@,
        numeric_ids ==> req.ext_id_kind == schema_proto::ExternalIdKind::Numeric,
        !numeric_ids ==> req.ext_id_kind == schema_proto::ExternalIdKind::String,
        reply matches Err(s) ==> r matches Err(ClientError::Status(t)) && t == s,
        reply matches Ok(m) ==> r matches Ok(id) && id == m.node_type_id,
{
}

/// A compact edge type is registered under its name, from one node type to the other, with the
/// lifetime, the tick and the direction that the caller gave, and with a full payload.
pub proof fn law_compact_edge_type_is_what_was_given(
    name: &str,
    from_node_type: &str,
    to_node_type: &str,
    state_ttl_secs: u64,
    bin_boundaries: Vec<Float32>,
    tracked_property: &str,
    activity_tick_size_secs: u64,
    bool_property_name: Option<&str>,
    symmetric: bool,
    req: schema_proto::CompactEdgeTypeSpec,
)
    requires
        call_ensures(
            SchemaClient::register_compact_edge_type_request,
            (
                name,
                from_node_type,
                to_node_type,
                state_ttl_secs,
                bin_boundaries,
                tracked_property,
                activity_tick_size_secs,
                bool_property_name,
                symmetric,
            ),
            req,
        ),
    ensures
        req.name@ == name@,
        req.from_node_type@ == from_node_type@,
        req.to_node_type@ == to_node_type@,
        req.state_ttl_secs == state_ttl_secs,
        req.activity_bitmap is Some,
        req.activity_bitmap->0.tick_size_secs == activity_tick_size_secs,
        !req.minimal_payload,
        bool_property_name is None ==> req.bool_property@.len() == 0,
        bool_property_name matches Some(p) ==> req.bool_property@ == p@,
        req.symmetric == symmetric,
{
}

/// A compact edge type has value bins exactly where boundaries were given: with each boundary,
/// in order, and the tracked property, and with histograms of 48 hours and 30 days at both ends.
pub proof fn law_compact_edge_type_bins(
    name: &str,
    from_node_type: &str,
    to_node_type: &str,
    state_ttl_secs: u64,
    bin_boundaries: Vec<Float32>,
    tracked_property: &str,
    activity_tick_size_secs: u64,
    bool_property_name: Option<&str>,
    symmetric: bool,
    req: schema_proto::CompactEdgeTypeSpec,
    i: int,
)
    requires
        call_ensures(
            SchemaClient::register_compact_edge_type_request,
            (
                name,
                from_node_type,
                to_node_type,
                state_ttl_secs,
                bin_boundaries,
                tracked_property,
                activity_tick_size_secs,
                bool_property_name,
                symmetric,
            ),
            req,
        ),
    ensures
        bin_boundaries@.len() == 0 ==> req.field_schema is None && req.node_histogram is None,
        bin_boundaries@.len() > 0 ==> {
            &&& req.field_schema matches Some(f)
            &&& f.bin_boundaries@.len() == bin_boundaries@.len()
            &&& 0 <= i < bin_boundaries@.len() ==> f.bin_boundaries@[i] == bin_boundaries@[i]
            &&& f.tracked_property@ == tracked_property@
            &&& req.node_histogram matches Some(h)
            &&& h.enabled_for_src
            &&& h.enabled_for_dst
            &&& h.hourly_slots == 48
            &&& h.daily_slots == 30
        },
{
}

/// A static edge type is registered under its name, from one node type to the other, with the
/// lifetime and the direction that the caller gave, with a minimal payload and a tick of one
/// hour, and with nothing else.
pub proof fn law_static_edge_type_is_what_was_given(
    name: &str,
    from_node_type: &str,
    to_node_type: &str,
    state_ttl_secs: u64,
    symmetric: bool,
    req: schema_proto::CompactEdgeTypeSpec,
)
    requires
        call_ensures(
            SchemaClient::register_static_edge_type_request,
            (name, from_node_type, to_node_type, state_ttl_secs, symmetric),
            req,
        ),
    ensures
        req.name@ == name@,
        req.from_node_type@ == from_node_type@,
        req.to_node_type@ == to_node_type@,
        req.state_ttl_secs == state_ttl_secs,
        req.symmetric == symmetric,
        req.minimal_payload,
        req.field_schema is None,
        req.node_histogram is None,
        req.activity_bitmap is Some,
        req.activity_bitmap->0.tick_size_secs == 3600,
        req.bool_property@.len() == 0,
{
}

/// A static edge type is a compact one without bins and without a boolean property, with a tick
/// of one hour, in all but the payload.
pub proof fn law_static_edge_type_is_a_bare_compact_one(
    name: &str,
    from_node_type: &str,
    to_node_type: &str,
    state_ttl_secs: u64,
    no_boundaries: Vec<Float32>,
    tracked_property: &str,
    symmetric: bool,
    compact: schema_proto::CompactEdgeTypeSpec,
    plain: schema_proto::CompactEdgeTypeSpec,
)
    requires
        no_boundaries@.len() == 0,
        call_ensures(
            SchemaClient::register_compact_edge_type_request,
            (
                name,
                from_node_type,
                to_node_type,
                state_ttl_secs,
                no_boundaries,
                tracked_property,
                3600u64,
                None::<&str>,
                symmetric,
            ),
            compact,
        ),
        call_ensures(
            SchemaClient::register_static_edge_type_request,
            (name, from_node_type, to_node_type, state_ttl_secs, symmetric),
            plain,
        ),
    ensures
        plain.name@ == compact.name@,
        plain.from_node_type@ == compact.from_node_type@,
        plain.to_node_type@ == compact.to_node_type@,
        plain.state_ttl_secs == compact.state_ttl_secs,
        plain.field_schema == compact.field_schema,
        plain.node_histogram == compact.node_histogram,
        plain.activity_bitmap == compact.activity_bitmap,
        plain.bool_property@ == compact.bool_property@,
        plain.symmetric == compact.symmetric,
        plain.minimal_payload && !compact.minimal_payload,
{
}

/// A registered edge type has the id of the reply, be it compact or static; a refusal is handed
/// on.
pub proof fn law_edge_type_registration_reports_the_id(
    reply: Result<schema_proto::EdgeTypeResponse, tonic::Status>,
    compact: Result<u32, ClientError>,
    plain: Result<u32, ClientError>,
)
    requires
        call_ensures(SchemaClient::register_compact_edge_type, (reply,), compact),
        call_ensures(SchemaClient::register_static_edge_type, (reply,), plain),
    ensures
        reply matches Err(s) ==> compact matches Err(ClientError::Status(t)) && t == s,
        reply matches Err(s) ==> plain matches Err(ClientError::Status(t)) && t == s,
        reply matches Ok(m) ==> compact matches Ok(id) && id == m.edge_type_id,
        reply matches Ok(m) ==> plain matches Ok(id) && id == m.edge_type_id,
{
}

/// A property is registered under its name, for the owner and with the type that the caller gave;
/// its id is that of the reply, and a refusal is handed on.
pub proof fn law_property_registration(
    name: &str,
    owner_type_name: &str,
    owner_is_node: bool,
    value_type: schema_proto::ValueType,
    req: schema_proto::PropertySpec,
    reply: Result<schema_proto::PropertyResponse, tonic::Status>,
    r: Result<u32, ClientError>,
)
    requires
        call_ensures(
            SchemaClient::register_property_request,
            (name, owner_type_name, owner_is_node, value_type),
            req,
        ),
        call_ensures(SchemaClient::register_property, (reply,), r),
    ensures
        req.name@ == name@,
        req.owner_type_name@ == owner_type_name@,
        req.owner_is_node == owner_is_node,
        req.value_type == value_type,
        reply matches Err(s) ==> r matches Err(ClientError::Status(t)) && t == s,
        reply matches Ok(m) ==> r matches Ok(id) && id == m.property_id,
{
}

/// The edge type of that name is removed, and the reply says which id and how many pairs went; a
/// refusal is handed on.
pub proof fn law_edge_type_removal(
    name: &str,
    req: schema_proto::RemoveEdgeTypeRequest,
    reply: Result<schema_proto::RemoveEdgeTypeResponse, tonic::Status>,
    r: Result<RemoveEdgeTypeResult, ClientError>,
)
    requires
        call_ensures(SchemaClient::remove_edge_type_request, (name,), req),
        call_ensures(SchemaClient::remove_edge_type, (reply,), r),
    ensures
        req.name@ == name@,
        reply matches Err(s) ==> r matches Err(ClientError::Status(t)) && t == s,
        reply matches Ok(m) ==> {
            &&& r matches Ok(d)
            &&& d.edge_type_id == m.edge_type_id
            &&& d.pairs_dropped == m.pairs_dropped
        },
{
}

/// The memory usage has every number of the reply; without an estimate its byte counts are zero
/// and its breakdown is empty. A refusal is handed on.
pub proof fn law_memory_usage_reports_the_reply(
    reply: Result<schema_proto::MemoryUsageResponse, tonic::Status>,
    r: Result<MemoryUsage, ClientError>,
)
    requires
        call_ensures(SchemaClient::get_memory_usage, (reply,), r),
    ensures
        reply matches Err(s) ==> r matches Err(ClientError::Status(t)) && t == s,
        reply matches Ok(m) ==> {
            &&& r matches Ok(u)
            &&& u.node_count == m.node_count
            &&& u.compact_pair_count == m.compact_pair_count
            &&& m.estimate is None ==> u.total_bytes == 0 && u.nodes_bytes == 0
                && u.compact_store_bytes == 0 && u.histogram_bytes == 0 && u.runtime_bytes == 0
                && u.breakdown_text@.len() == 0
            &&& m.estimate matches Some(e) ==> {
                &&& u.total_bytes == e.total_bytes
                &&& u.nodes_bytes == e.nodes_bytes
                &&& u.compact_store_bytes == e.compact_store_bytes
                &&& u.histogram_bytes == e.histogram_bytes
                &&& u.runtime_bytes == e.runtime_bytes
                &&& u.breakdown_text == e.breakdown_text
            }
        },
{
}

/// Nothing is counted in the default memory usage.
pub proof fn law_default_memory_usage_is_nothing(u: MemoryUsage)
    requires
        call_ensures(<MemoryUsage as Default>::default, (), u),
    ensures
        u.total_bytes == 0,
        u.nodes_bytes == 0,
        u.compact_store_bytes == 0,
        u.histogram_bytes == 0,
        u.runtime_bytes == 0,
        u.breakdown_text@.len() == 0,
        u.node_count == 0,
        u.compact_pair_count == 0,
{
}

/// A finalized schema has the version of the reply; a refusal is handed on.
pub proof fn law_finalize_reports_the_version(
    reply: Result<schema_proto::FinalizeResponse, tonic::Status>,
    r: Result<u32, ClientError>,
)
    requires
        call_ensures(SchemaClient::finalize, (reply,), r),
    ensures
        reply matches Err(s) ==> r matches Err(ClientError::Status(t)) && t == s,
        reply matches Ok(m) ==> r matches Ok(v) && v == m.schema_version,
{
}

/// Each node type of the reply is reported, in order, with its id and name; its ids are text
/// exactly where the reply says so. A refusal is handed on.
pub proof fn law_schema_reports_each_node_type(
    reply: Result<schema_proto::GetSchemaResponse, tonic::Status>,
    r: Result<GetSchemaResult, ClientError>,
    i: int,
)
    requires
        call_ensures(SchemaClient::get_schema, (reply,), r),
    ensures
        reply matches Err(s) ==> r matches Err(ClientError::Status(t)) && t == s,
        reply matches Ok(m) ==> {
            &&& r matches Ok(g)
            &&& g.schema_version == m.schema_version
            &&& g.node_types@.len() == m.node_types@.len()
            &&& g.edge_types@.len() == m.edge_types@.len()
            &&& 0 <= i < m.node_types@.len() ==> {
                let (n, o) = (m.node_types@[i], g.node_types@[i]);
                &&& o.id == n.id
                &&& o.name == n.name
                &&& !o.numeric_ids <==> n.ext_id_kind == schema_proto::ExternalIdKind::String
            }
        },
{
}

/// Each edge type of the reply is reported, in order, with every field; an empty boolean property
/// is none.
pub proof fn law_schema_reports_each_edge_type(
    m: schema_proto::GetSchemaResponse,
    r: Result<GetSchemaResult, ClientError>,
    i: int,
)
    requires
        call_ensures(
            SchemaClient::get_schema,
            (Ok::<schema_proto::GetSchemaResponse, tonic::Status>(m),),
            r,
        ),
        0 <= i < m.edge_types@.len(),
    ensures
        ({
            let (e, o) = (m.edge_types@[i], r->Ok_0.edge_types@[i]);
            &&& o.id == e.id
            &&& o.name == e.name
            &&& o.from_node_type == e.from_node_type
            &&& o.to_node_type == e.to_node_type
            &&& o.state_ttl_secs == e.state_ttl_secs
            &&& o.tick_size_secs == e.tick_size_secs
            &&& e.bool_property@.len() == 0 ==> o.bool_property is None
            &&& e.bool_property@.len() > 0 ==> o.bool_property == Some(e.bool_property)
            &&& o.is_symmetric == e.is_symmetric
        }),
{
}

} // verus!
