//! Schema service: register types, finalize.

use vstd::prelude::*;

use crate::error::ClientError;
use crate::float::Float32;
use crate::text;

pub mod laws;
pub mod schema_proto;

verus! {

/// Hours that a node histogram covers with hourly slots.
pub const HISTOGRAM_HOURLY_SLOTS: u32 = 48;

/// Days that a node histogram covers with daily slots.
pub const HISTOGRAM_DAILY_SLOTS: u32 = 30;

/// The tick setting that is sent for a static edge type, in seconds.
pub const STATIC_TICK_SIZE_SECS: u64 = 3600;

/// The schema of the engine.
#[derive(Debug, Clone)]
pub struct GetSchemaResult {
    pub schema_version: u32,
    pub node_types: Vec<NodeTypeInfo>,
    pub edge_types: Vec<EdgeTypeInfo>,
}

/// A registered node type.
#[derive(Debug, Clone)]
pub struct NodeTypeInfo {
    pub id: u32,
    pub name: String,
    /// True when external ids of this node type are stored as numbers, false when as text.
    pub numeric_ids: bool,
}

/// A registered edge type.
#[derive(Debug, Clone)]
pub struct EdgeTypeInfo {
    pub id: u32,
    pub name: String,
    pub from_node_type: String,
    pub to_node_type: String,
    pub state_ttl_secs: u64,
    /// Seconds per tick of the activity bitmap.
    pub tick_size_secs: u64,
    /// Name of the boolean property, if the edge type has one.
    pub bool_property: Option<String>,
    /// True when the edge type is undirected.
    pub is_symmetric: bool,
}

/// What the removal of an edge type dropped.
#[derive(Debug, Clone)]
pub struct RemoveEdgeTypeResult {
    /// Numeric id of the edge type that was removed.
    pub edge_type_id: u32,
    /// Number of edge pairs that were dropped.
    pub pairs_dropped: u64,
}

/// Memory usage breakdown.
#[derive(Debug, Clone)]
pub struct MemoryUsage {
    pub total_bytes: u64,
    pub nodes_bytes: u64,
    pub compact_store_bytes: u64,
    pub histogram_bytes: u64,
    pub runtime_bytes: u64,
    /// Human-readable per-type breakdown produced by the engine.
    pub breakdown_text: String,
    pub node_count: u64,
    pub compact_pair_count: u64,
}

impl Default for MemoryUsage {
    fn default() -> (r: Self)
        ensures
            r.estimates_nothing(),
            r.node_count == 0,
            r.compact_pair_count == 0,
    {
        MemoryUsage {
            total_bytes: 0,
            nodes_bytes: 0,
            compact_store_bytes: 0,
            histogram_bytes: 0,
            runtime_bytes: 0,
            breakdown_text: String::new(),
            node_count: 0,
            compact_pair_count: 0,
        }
    }
}

impl MemoryUsage {
    /// All byte counts are zero and there is no breakdown.
    pub open spec fn estimates_nothing(self) -> bool {
        &&& self.total_bytes == 0
        &&& self.nodes_bytes == 0
        &&& self.compact_store_bytes == 0
        &&& self.histogram_bytes == 0
        &&& self.runtime_bytes == 0
        &&& self.breakdown_text@ == Seq::<char>::empty()
    }

    /// The byte counts and the breakdown are those of an estimate.
    pub open spec fn has_estimate(self, e: schema_proto::MemoryEstimate) -> bool {
        &&& self.total_bytes == e.total_bytes
        &&& self.nodes_bytes == e.nodes_bytes
        &&& self.compact_store_bytes == e.compact_store_bytes
        &&& self.histogram_bytes == e.histogram_bytes
        &&& self.runtime_bytes == e.runtime_bytes
        &&& self.breakdown_text == e.breakdown_text
    }
}

/// The kind of external ids that a registration asks for.
pub open spec fn id_kind(numeric_ids: bool) -> schema_proto::ExternalIdKind {
    if numeric_ids {
        schema_proto::ExternalIdKind::Numeric
    } else {
        schema_proto::ExternalIdKind::String
    }
}

/// A node type, as the engine describes it: every kind of ids but text counts as numeric.
pub open spec fn node_type_info(m: schema_proto::NodeTypeEntry) -> NodeTypeInfo {
    NodeTypeInfo {
        id: m.id,
        name: m.name,
        numeric_ids: m.ext_id_kind != schema_proto::ExternalIdKind::String,
    }
}

/// Node types, in order.
pub open spec fn node_type_infos(ms: Seq<schema_proto::NodeTypeEntry>) -> Seq<NodeTypeInfo> {
    ms.map_values(|m: schema_proto::NodeTypeEntry| node_type_info(m))
}

/// An edge type, as the engine describes it.
pub open spec fn edge_type_info(m: schema_proto::EdgeTypeEntry) -> EdgeTypeInfo {
    EdgeTypeInfo {
        id: m.id,
        name: m.name,
        from_node_type: m.from_node_type,
        to_node_type: m.to_node_type,
        state_ttl_secs: m.state_ttl_secs,
        tick_size_secs: m.tick_size_secs,
        bool_property: text::present(m.bool_property),
        is_symmetric: m.is_symmetric,
    }
}

/// Edge types, in order.
pub open spec fn edge_type_infos(ms: Seq<schema_proto::EdgeTypeEntry>) -> Seq<EdgeTypeInfo> {
    ms.map_values(|m: schema_proto::EdgeTypeEntry| edge_type_info(m))
}

/// `req` registers a compact edge type with these settings. It has value bins and node
/// histograms where bin boundaries are given, and neither where they are not.
pub open spec fn is_compact_edge_type(
    name: Seq<char>,
    from_node_type: Seq<char>,
    to_node_type: Seq<char>,
    state_ttl_secs: u64,
    bin_boundaries: Seq<Float32>,
    tracked_property: Seq<char>,
    activity_tick_size_secs: u64,
    bool_property_name: Option<Seq<char>>,
    symmetric: bool,
    req: schema_proto::CompactEdgeTypeSpec,
) -> bool {
    &&& req.name@ == name
    &&& req.from_node_type@ == from_node_type
    &&& req.to_node_type@ == to_node_type
    &&& req.state_ttl_secs == state_ttl_secs
    &&& if bin_boundaries.len() == 0 {
        req.field_schema is None && req.node_histogram is None
    } else {
        &&& req.field_schema matches Some(f)
        &&& f.bin_boundaries@ == bin_boundaries
        &&& f.tracked_property@ == tracked_property
        &&& req.node_histogram == Some(
            schema_proto::NodeHistogramConfig {
                enabled_for_src: true,
                enabled_for_dst: true,
                hourly_slots: HISTOGRAM_HOURLY_SLOTS,
                daily_slots: HISTOGRAM_DAILY_SLOTS,
            },
        )
    }
    &&& req.activity_bitmap == Some(
        schema_proto::ActivityBitmapConfig { tick_size_secs: activity_tick_size_secs },
    )
    &&& !req.minimal_payload
    &&& req.bool_property@ == text::wire_text(bool_property_name)
    &&& req.symmetric == symmetric
}

/// `req` registers a static edge type: minimal payload, no value bins, no node histograms, no
/// boolean property.
pub open spec fn is_static_edge_type(
    name: Seq<char>,
    from_node_type: Seq<char>,
    to_node_type: Seq<char>,
    state_ttl_secs: u64,
    symmetric: bool,
    req: schema_proto::CompactEdgeTypeSpec,
) -> bool {
    &&& req.name@ == name
    &&& req.from_node_type@ == from_node_type
    &&& req.to_node_type@ == to_node_type
    &&& req.state_ttl_secs == state_ttl_secs
    &&& req.field_schema is None
    &&& req.node_histogram is None
    &&& req.activity_bitmap == Some(
        schema_proto::ActivityBitmapConfig { tick_size_secs: STATIC_TICK_SIZE_SECS },
    )
    &&& req.minimal_payload
    &&& req.bool_property@ == Seq::<char>::empty()
    &&& req.symmetric == symmetric
}

/// What holds of every edge type that the client registers: the tick setting of the activity
/// bitmap is sent, also where the payload is minimal and keeps no bitmap; the edge type has node
/// histograms exactly where it has value bins; and with a minimal payload it has neither value
/// bins nor a boolean property.
pub open spec fn is_consistent_edge_type(req: schema_proto::CompactEdgeTypeSpec) -> bool {
    &&& req.activity_bitmap is Some
    &&& req.node_histogram is Some <==> req.field_schema is Some
    &&& req.field_schema matches Some(f) ==> f.bin_boundaries@.len() > 0
    &&& req.minimal_payload ==> req.field_schema is None && req.bool_property@.len() == 0
}

/// Builds the requests of the schema service and reads its replies.
pub struct SchemaClient;

impl SchemaClient {
    /// Request to register a node type.
    ///
    /// With `numeric_ids` external ids are stored as numbers, which takes less room; without,
    /// as text. The kind is frozen at registration.
    pub fn register_node_type_request(name: &str, numeric_ids: bool) -> (req:
        schema_proto::NodeTypeSpec)
        ensures
            req.name@ == name@,
            req.ext_id_kind == id_kind(numeric_ids),
    {
        let ext_id_kind = if numeric_ids {
            schema_proto::ExternalIdKind::Numeric
        } else {
            schema_proto::ExternalIdKind::String
        };
        schema_proto::NodeTypeSpec { name: name.to_string(), ext_id_kind }
    }

    /// Read the reply to the registration of a node type: the id of the type.
    pub fn register_node_type(reply: Result<schema_proto::NodeTypeResponse, tonic::Status>) -> (r:
        Result<u32, ClientError>)
        ensures
            match reply {
                Err(s) => r == Err::<u32, ClientError>(ClientError::Status(s)),
                Ok(m) => r == Ok::<u32, ClientError>(m.node_type_id),
            },
    {
        match reply {
            Err(s) => Err(ClientError::from(s)),
            Ok(m) => Ok(m.node_type_id),
        }
    }

    /// Request to register a compact edge type.
    ///
    /// - `bin_boundaries`: limits of the value bins of `tracked_property`; empty for no bins.
    /// - `bool_property_name`: the single boolean property; `None` or empty for none.
    /// - `symmetric`: edges are undirected.
    pub fn register_compact_edge_type_request(
        name: &str,
        from_node_type: &str,
        to_node_type: &str,
        state_ttl_secs: u64,
        bin_boundaries: Vec<Float32>,
        tracked_property: &str,
        activity_tick_size_secs: u64,
        bool_property_name: Option<&str>,
        symmetric: bool,
    ) -> (req: schema_proto::CompactEdgeTypeSpec)
        ensures
            is_compact_edge_type(
                name@,
                from_node_type@,
                to_node_type@,
                state_ttl_secs,
                bin_boundaries@,
                tracked_property@,
                activity_tick_size_secs,
                text::str_chars_of(bool_property_name),
                symmetric,
                req,
            ),
    {
        let field_schema = if !bin_boundaries.is_empty() {
            Some(
                schema_proto::CompactFieldSchema {
                    bin_boundaries,
                    tracked_property: tracked_property.to_string(),
                },
            )
        } else {
            None
        };
        let node_histogram = if field_schema.is_some() {
            Some(
                schema_proto::NodeHistogramConfig {
                    enabled_for_src: true,
                    enabled_for_dst: true,
                    hourly_slots: HISTOGRAM_HOURLY_SLOTS,
                    daily_slots: HISTOGRAM_DAILY_SLOTS,
                },
            )
        } else {
            None
        };
        schema_proto::CompactEdgeTypeSpec {
            name: name.to_string(),
            from_node_type: from_node_type.to_string(),
            to_node_type: to_node_type.to_string(),
            state_ttl_secs,
            field_schema,
            node_histogram,
            activity_bitmap: Some(
                schema_proto::ActivityBitmapConfig { tick_size_secs: activity_tick_size_secs },
            ),
            minimal_payload: false,
            bool_property: text::str_or_empty(bool_property_name),
            symmetric,
        }
    }

    /// Request to register a static edge type, for computed edges such as similarity scores.
    ///
    /// `state_ttl_secs` above zero lets edges expire. `symmetric`: edges are undirected.
    pub fn register_static_edge_type_request(
        name: &str,
        from_node_type: &str,
        to_node_type: &str,
        state_ttl_secs: u64,
        symmetric: bool,
    ) -> (req: schema_proto::CompactEdgeTypeSpec)
        ensures
            is_static_edge_type(
                name@,
                from_node_type@,
                to_node_type@,
                state_ttl_secs,
                symmetric,
                req,
            ),
    {
        schema_proto::CompactEdgeTypeSpec {
            name: name.to_string(),
            from_node_type: from_node_type.to_string(),
            to_node_type: to_node_type.to_string(),
            state_ttl_secs,
            field_schema: None,
            node_histogram: None,
            activity_bitmap: Some(
                schema_proto::ActivityBitmapConfig { tick_size_secs: STATIC_TICK_SIZE_SECS },
            ),
            minimal_payload: true,
            bool_property: String::new(),
            symmetric,
        }
    }

    /// Read the reply to the registration of a compact edge type: the id of the type.
    pub fn register_compact_edge_type(
        reply: Result<schema_proto::EdgeTypeResponse, tonic::Status>,
    ) -> (r: Result<u32, ClientError>)
        ensures
            match reply {
                Err(s) => r == Err::<u32, ClientError>(ClientError::Status(s)),
                Ok(m) => r == Ok::<u32, ClientError>(m.edge_type_id),
            },
    {
        match reply {
            Err(s) => Err(ClientError::from(s)),
            Ok(m) => Ok(m.edge_type_id),
        }
    }

    /// Read the reply to the registration of a static edge type: the id of the type.
    pub fn register_static_edge_type(
        reply: Result<schema_proto::EdgeTypeResponse, tonic::Status>,
    ) -> (r: Result<u32, ClientError>)
        ensures
            match reply {
                Err(s) => r == Err::<u32, ClientError>(ClientError::Status(s)),
                Ok(m) => r == Ok::<u32, ClientError>(m.edge_type_id),
            },
    {
        Self::register_compact_edge_type(reply)
    }

    /// Request to register a property of a node type or an edge type.
    pub fn register_property_request(
        name: &str,
        owner_type_name: &str,
        owner_is_node: bool,
        value_type: schema_proto::ValueType,
    ) -> (req: schema_proto::PropertySpec)
        ensures
            req.name@ == name@,
            req.owner_type_name@ == owner_type_name@,
            req.owner_is_node == owner_is_node,
            req.value_type == value_type,
    {
        schema_proto::PropertySpec {
            name: name.to_string(),
            owner_type_name: owner_type_name.to_string(),
            owner_is_node,
            value_type,
        }
    }

    /// Read the reply to the registration of a property: the id of the property.
    pub fn register_property(reply: Result<schema_proto::PropertyResponse, tonic::Status>) -> (r:
        Result<u32, ClientError>)
        ensures
            match reply {
                Err(s) => r == Err::<u32, ClientError>(ClientError::Status(s)),
                Ok(m) => r == Ok::<u32, ClientError>(m.property_id),
            },
    {
        match reply {
            Err(s) => Err(ClientError::from(s)),
            Ok(m) => Ok(m.property_id),
        }
    }

    /// Request to remove an edge type with all its edges.
    pub fn remove_edge_type_request(name: &str) -> (req: schema_proto::RemoveEdgeTypeRequest)
        ensures
            req.name@ == name@,
    {
        schema_proto::RemoveEdgeTypeRequest { name: name.to_string() }
    }

    /// Read the reply to the removal of an edge type.
    pub fn remove_edge_type(
        reply: Result<schema_proto::RemoveEdgeTypeResponse, tonic::Status>,
    ) -> (r: Result<RemoveEdgeTypeResult, ClientError>)
        ensures
            match reply {
                Err(s) => r == Err::<RemoveEdgeTypeResult, ClientError>(ClientError::Status(s)),
                Ok(m) => r == Ok::<RemoveEdgeTypeResult, ClientError>(
                    RemoveEdgeTypeResult {
                        edge_type_id: m.edge_type_id,
                        pairs_dropped: m.pairs_dropped,
                    },
                ),
            },
    {
        match reply {
            Err(s) => Err(ClientError::from(s)),
            Ok(m) => Ok(
                RemoveEdgeTypeResult {
                    edge_type_id: m.edge_type_id,
                    pairs_dropped: m.pairs_dropped,
                },
            ),
        }
    }

    /// Read the reply to a request for the memory usage. A reply without an estimate has zero
    /// for every byte count.
    pub fn get_memory_usage(
        reply: Result<schema_proto::MemoryUsageResponse, tonic::Status>,
    ) -> (r: Result<MemoryUsage, ClientError>)
        ensures
            match reply {
                Err(s) => r == Err::<MemoryUsage, ClientError>(ClientError::Status(s)),
                Ok(m) => {
                    &&& r matches Ok(u)
                    &&& match m.estimate {
                        Some(e) => u.has_estimate(e),
                        None => u.estimates_nothing(),
                    }
                    &&& u.node_count == m.node_count
                    &&& u.compact_pair_count == m.compact_pair_count
                },
            },
    {
        match reply {
            Err(s) => Err(ClientError::from(s)),
            Ok(m) => match m.estimate {
                Some(e) => Ok(
                    MemoryUsage {
                        total_bytes: e.total_bytes,
                        nodes_bytes: e.nodes_bytes,
                        compact_store_bytes: e.compact_store_bytes,
                        histogram_bytes: e.histogram_bytes,
                        runtime_bytes: e.runtime_bytes,
                        breakdown_text: e.breakdown_text,
                        node_count: m.node_count,
                        compact_pair_count: m.compact_pair_count,
                    },
                ),
                None => Ok(
                    MemoryUsage {
                        node_count: m.node_count,
                        compact_pair_count: m.compact_pair_count,
                        ..MemoryUsage::default()
                    },
                ),
            },
        }
    }

    /// Read the reply to a request to finalize the schema: the version of the schema.
    pub fn finalize(reply: Result<schema_proto::FinalizeResponse, tonic::Status>) -> (r: Result<
        u32,
        ClientError,
    >)
        ensures
            match reply {
                Err(s) => r == Err::<u32, ClientError>(ClientError::Status(s)),
                Ok(m) => r == Ok::<u32, ClientError>(m.schema_version),
            },
    {
        match reply {
            Err(s) => Err(ClientError::from(s)),
            Ok(m) => Ok(m.schema_version),
        }
    }

    fn node_types_from_proto(ms: Vec<schema_proto::NodeTypeEntry>) -> (r: Vec<NodeTypeInfo>)
        ensures
            r@ == node_type_infos(ms@),
    {
        let mut r: Vec<NodeTypeInfo> = Vec::new();
        for m in it: ms
            invariant
                r@ == node_type_infos(it.seq().take(it.index())),
        {
            assert(it.seq().take(it.index() + 1) =~= it.seq().take(it.index()).push(m));
            r.push(
                NodeTypeInfo {
                    id: m.id,
                    name: m.name,
                    numeric_ids: m.ext_id_kind != schema_proto::ExternalIdKind::String,
                },
            );
            assert(node_type_infos(it.seq().take(it.index() + 1)) =~= r@);
        }
        r
    }

    fn edge_types_from_proto(ms: Vec<schema_proto::EdgeTypeEntry>) -> (r: Vec<EdgeTypeInfo>)
        ensures
            r@ == edge_type_infos(ms@),
    {
        let mut r: Vec<EdgeTypeInfo> = Vec::new();
        for m in it: ms
            invariant
                r@ == edge_type_infos(it.seq().take(it.index())),
        {
            assert(it.seq().take(it.index() + 1) =~= it.seq().take(it.index()).push(m));
            r.push(
                EdgeTypeInfo {
                    id: m.id,
                    name: m.name,
                    from_node_type: m.from_node_type,
                    to_node_type: m.to_node_type,
                    state_ttl_secs: m.state_ttl_secs,
                    tick_size_secs: m.tick_size_secs,
                    bool_property: text::non_empty(m.bool_property),
                    is_symmetric: m.is_symmetric,
                },
            );
            assert(edge_type_infos(it.seq().take(it.index() + 1)) =~= r@);
        }
        r
    }

    /// Read the reply to a request for the schema.
    pub fn get_schema(reply: Result<schema_proto::GetSchemaResponse, tonic::Status>) -> (r: Result<
        GetSchemaResult,
        ClientError,
    >)
        ensures
            match reply {
                Err(s) => r == Err::<GetSchemaResult, ClientError>(ClientError::Status(s)),
                Ok(m) => {
                    &&& r matches Ok(g)
                    &&& g.schema_version == m.schema_version
                    &&& g.node_types@ == node_type_infos(m.node_types@)
                    &&& g.edge_types@ == edge_type_infos(m.edge_types@)
                },
            },
    {
        match reply {
            Err(s) => Err(ClientError::from(s)),
            Ok(m) => Ok(
                GetSchemaResult {
                    schema_version: m.schema_version,
                    node_types: Self::node_types_from_proto(m.node_types),
                    edge_types: Self::edge_types_from_proto(m.edge_types),
                },
            ),
        }
    }
}

/// Every compact edge type is consistent.
pub proof fn law_compact_edge_type_is_consistent(
    name: Seq<char>,
    from_node_type: Seq<char>,
    to_node_type: Seq<char>,
    state_ttl_secs: u64,
    bin_boundaries: Seq<Float32>,
    tracked_property: Seq<char>,
    activity_tick_size_secs: u64,
    bool_property_name: Option<Seq<char>>,
    symmetric: bool,
    req: schema_proto::CompactEdgeTypeSpec,
)
    requires
        is_compact_edge_type(
            name,
            from_node_type,
            to_node_type,
            state_ttl_secs,
            bin_boundaries,
            tracked_property,
            activity_tick_size_secs,
            bool_property_name,
            symmetric,
            req,
        ),
    ensures
        is_consistent_edge_type(req),
{
}

/// Every static edge type is consistent.
pub proof fn law_static_edge_type_is_consistent(
    name: Seq<char>,
    from_node_type: Seq<char>,
    to_node_type: Seq<char>,
    state_ttl_secs: u64,
    symmetric: bool,
    req: schema_proto::CompactEdgeTypeSpec,
)
    requires
        is_static_edge_type(name, from_node_type, to_node_type, state_ttl_secs, symmetric, req),
    ensures
        is_consistent_edge_type(req),
{
}

/// A node type is listed with the kind of ids that it was registered with.
pub proof fn law_id_kind_round_trip(numeric_ids: bool, listed: schema_proto::NodeTypeEntry)
    requires
        listed.ext_id_kind == id_kind(numeric_ids),
    ensures
        node_type_info(listed).numeric_ids == numeric_ids,
{
}

/// An edge type is listed with the boolean property that it was registered with, and with none
/// where it was registered with none or with an empty name.
pub proof fn law_bool_property_round_trip(
    bool_property_name: Option<Seq<char>>,
    listed: schema_proto::EdgeTypeEntry,
)
    requires
        listed.bool_property@ == text::wire_text(bool_property_name),
    ensures
        text::chars_of(edge_type_info(listed).bool_property) == (
        if bool_property_name == Some(Seq::<char>::empty()) {
            None
        } else {
            bool_property_name
        }),
{
    if bool_property_name != Some(Seq::<char>::empty()) {
        text::law_optional_text_round_trip(bool_property_name);
    }
}

} // verus!
