use jetgraph_client::schema::schema_proto;
use jetgraph_client::{ClientError, Float32, MemoryUsage, SchemaClient, ValueType};
use tonic::Status;

fn bits(x: f32) -> Float32 {
    Float32 { bits: x.to_bits() }
}

fn refused() -> Status {
    Status::already_exists("taken")
}

fn is_refusal(e: ClientError) -> bool {
    matches!(e, ClientError::Status(s) if s.message() == "taken")
}

#[test]
fn node_type_registration() {
    let req = SchemaClient::register_node_type_request("card", true);
    assert_eq!(req.name, "card");
    assert_eq!(req.ext_id_kind, schema_proto::ExternalIdKind::Numeric);
    let req = SchemaClient::register_node_type_request("card", false);
    assert_eq!(req.ext_id_kind, schema_proto::ExternalIdKind::String);
    let reply = schema_proto::NodeTypeResponse { node_type_id: 4 };
    assert_eq!(SchemaClient::register_node_type(Ok(reply)).unwrap(), 4);
    assert!(is_refusal(SchemaClient::register_node_type(Err(refused())).unwrap_err()));
}

#[test]
fn compact_edge_type_with_bins() {
    let req = SchemaClient::register_compact_edge_type_request(
        "TRANSACTS_AT",
        "card",
        "merchant",
        7_776_000,
        vec![bits(5.0), bits(25.0)],
        "amount",
        3600,
        Some("is_international"),
        false,
    );
    assert_eq!(req.name, "TRANSACTS_AT");
    assert_eq!(req.from_node_type, "card");
    assert_eq!(req.to_node_type, "merchant");
    assert_eq!(req.state_ttl_secs, 7_776_000);
    let field = req.field_schema.unwrap();
    assert_eq!(field.bin_boundaries, vec![bits(5.0), bits(25.0)]);
    assert_eq!(field.tracked_property, "amount");
    assert_eq!(
        req.node_histogram,
        Some(schema_proto::NodeHistogramConfig {
            enabled_for_src: true,
            enabled_for_dst: true,
            hourly_slots: 48,
            daily_slots: 30,
        })
    );
    assert_eq!(
        req.activity_bitmap,
        Some(schema_proto::ActivityBitmapConfig { tick_size_secs: 3600 })
    );
    assert!(!req.minimal_payload);
    assert_eq!(req.bool_property, "is_international");
    assert!(!req.symmetric);
}

#[test]
fn compact_edge_type_without_bins() {
    let req = SchemaClient::register_compact_edge_type_request(
        "USES_DEVICE",
        "card",
        "device",
        1,
        Vec::new(),
        "ignored",
        300,
        None,
        true,
    );
    assert_eq!(req.field_schema, None);
    assert_eq!(req.node_histogram, None);
    assert_eq!(
        req.activity_bitmap,
        Some(schema_proto::ActivityBitmapConfig { tick_size_secs: 300 })
    );
    assert_eq!(req.bool_property, "");
    assert!(req.symmetric);
    let reply = schema_proto::EdgeTypeResponse { edge_type_id: 9 };
    assert_eq!(SchemaClient::register_compact_edge_type(Ok(reply)).unwrap(), 9);
    assert!(is_refusal(SchemaClient::register_compact_edge_type(Err(refused())).unwrap_err()));
}

#[test]
fn static_edge_type() {
    let req =
        SchemaClient::register_static_edge_type_request("SIMILAR_TO", "card", "card", 86400, true);
    assert_eq!(
        req,
        schema_proto::CompactEdgeTypeSpec {
            name: "SIMILAR_TO".to_string(),
            from_node_type: "card".to_string(),
            to_node_type: "card".to_string(),
            state_ttl_secs: 86400,
            field_schema: None,
            node_histogram: None,
            activity_bitmap: Some(schema_proto::ActivityBitmapConfig { tick_size_secs: 3600 }),
            minimal_payload: true,
            bool_property: String::new(),
            symmetric: true,
        }
    );
    let reply = schema_proto::EdgeTypeResponse { edge_type_id: 3 };
    assert_eq!(SchemaClient::register_static_edge_type(Ok(reply)).unwrap(), 3);
    assert!(is_refusal(SchemaClient::register_static_edge_type(Err(refused())).unwrap_err()));
}

#[test]
fn property_registration() {
    let req = SchemaClient::register_property_request("mcc", "merchant", true, ValueType::Int);
    assert_eq!(req.name, "mcc");
    assert_eq!(req.owner_type_name, "merchant");
    assert!(req.owner_is_node);
    assert_eq!(req.value_type, ValueType::Int);
    let reply = schema_proto::PropertyResponse { property_id: 5 };
    assert_eq!(SchemaClient::register_property(Ok(reply)).unwrap(), 5);
    assert!(is_refusal(SchemaClient::register_property(Err(refused())).unwrap_err()));
}

#[test]
fn edge_type_removal() {
    assert_eq!(SchemaClient::remove_edge_type_request("NEXT_EFT").name, "NEXT_EFT");
    let reply = schema_proto::RemoveEdgeTypeResponse { edge_type_id: 2, pairs_dropped: 1000 };
    let r = SchemaClient::remove_edge_type(Ok(reply)).unwrap();
    assert_eq!(r.edge_type_id, 2);
    assert_eq!(r.pairs_dropped, 1000);
    assert!(is_refusal(SchemaClient::remove_edge_type(Err(refused())).unwrap_err()));
}

#[test]
fn memory_usage_reply() {
    let reply = schema_proto::MemoryUsageResponse {
        estimate: Some(schema_proto::MemoryEstimate {
            total_bytes: 15,
            nodes_bytes: 1,
            compact_store_bytes: 2,
            histogram_bytes: 4,
            runtime_bytes: 8,
            breakdown_text: "nodes: 1".to_string(),
        }),
        node_count: 6,
        compact_pair_count: 7,
    };
    let m = SchemaClient::get_memory_usage(Ok(reply)).unwrap();
    assert_eq!(m.total_bytes, 15);
    assert_eq!(m.nodes_bytes, 1);
    assert_eq!(m.compact_store_bytes, 2);
    assert_eq!(m.histogram_bytes, 4);
    assert_eq!(m.runtime_bytes, 8);
    assert_eq!(m.breakdown_text, "nodes: 1");
    assert_eq!(m.node_count, 6);
    assert_eq!(m.compact_pair_count, 7);
}

#[test]
fn memory_usage_without_estimate() {
    let reply = schema_proto::MemoryUsageResponse {
        estimate: None,
        node_count: 6,
        compact_pair_count: 7,
    };
    let m = SchemaClient::get_memory_usage(Ok(reply)).unwrap();
    assert_eq!(m.total_bytes, 0);
    assert_eq!(m.breakdown_text, "");
    assert_eq!(m.node_count, 6);
    assert_eq!(m.compact_pair_count, 7);
    assert_eq!(MemoryUsage::default().node_count, 0);
    assert!(is_refusal(SchemaClient::get_memory_usage(Err(refused())).unwrap_err()));
}

#[test]
fn finalize_reply() {
    let reply = schema_proto::FinalizeResponse { schema_version: 12 };
    assert_eq!(SchemaClient::finalize(Ok(reply)).unwrap(), 12);
    assert!(is_refusal(SchemaClient::finalize(Err(refused())).unwrap_err()));
}

#[test]
fn schema_reply() {
    let node = |id: u32, kind: schema_proto::ExternalIdKind| schema_proto::NodeTypeEntry {
        id,
        name: "card".to_string(),
        ext_id_kind: kind,
    };
    let edge = |bool_property: &str| schema_proto::EdgeTypeEntry {
        id: 8,
        name: "TRANSACTS_AT".to_string(),
        from_node_type: "card".to_string(),
        to_node_type: "merchant".to_string(),
        state_ttl_secs: 5,
        tick_size_secs: 3600,
        bool_property: bool_property.to_string(),
        is_symmetric: true,
    };
    let reply = schema_proto::GetSchemaResponse {
        schema_version: 3,
        node_types: vec![
            node(1, schema_proto::ExternalIdKind::Numeric),
            node(2, schema_proto::ExternalIdKind::String),
            node(3, schema_proto::ExternalIdKind::Other(17)),
        ],
        edge_types: vec![edge("is_international"), edge("")],
    };
    let s = SchemaClient::get_schema(Ok(reply)).unwrap();
    assert_eq!(s.schema_version, 3);
    assert_eq!(s.node_types[0].id, 1);
    assert_eq!(s.node_types[0].name, "card");
    assert!(s.node_types[0].numeric_ids);
    assert!(!s.node_types[1].numeric_ids);
    assert!(s.node_types[2].numeric_ids);
    assert_eq!(s.edge_types[0].id, 8);
    assert_eq!(s.edge_types[0].name, "TRANSACTS_AT");
    assert_eq!(s.edge_types[0].from_node_type, "card");
    assert_eq!(s.edge_types[0].to_node_type, "merchant");
    assert_eq!(s.edge_types[0].state_ttl_secs, 5);
    assert_eq!(s.edge_types[0].tick_size_secs, 3600);
    assert_eq!(s.edge_types[0].bool_property.as_deref(), Some("is_international"));
    assert!(s.edge_types[0].is_symmetric);
    assert_eq!(s.edge_types[1].bool_property, None);
    assert!(is_refusal(SchemaClient::get_schema(Err(refused())).unwrap_err()));
}
