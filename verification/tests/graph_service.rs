use jetgraph_client::graph::graph_proto;
use jetgraph_client::graph::{decode_bins, GraphClient, MAX_MESSAGE_BYTES};
use jetgraph_client::{
    ClientError, EdgeFilter, Float32, Float64, NodePropertyFilter, NodeRef, PropertyEntry,
    PropertyValue, TransactionEdge, TransactionNode, TransactionNodeRef,
};
use tonic::{Code, Status};

fn f32_bits(x: f32) -> Float32 {
    Float32 { bits: x.to_bits() }
}

fn refused() -> Status {
    Status::not_found("no such type")
}

fn is_refusal(e: ClientError) -> bool {
    matches!(e, ClientError::Status(s) if s.code() == Code::NotFound && s.message() == "no such type")
}

fn is_missing_payload(e: ClientError) -> bool {
    matches!(e, ClientError::Internal(text) if text == "missing payload")
}

fn external(node_type: &str, id: &str) -> graph_proto::NodeRef {
    graph_proto::NodeRef {
        identifier: Some(graph_proto::Identifier::External(graph_proto::ExternalRef {
            node_type_name: node_type.to_string(),
            external_id: id.to_string(),
        })),
    }
}

fn payload(bins: Vec<u8>) -> graph_proto::EdgePayload {
    graph_proto::EdgePayload {
        tx_count: 3,
        approx_sum: f32_bits(125.75),
        last_seen: 1_700_000_000,
        flags: 0x8000_0000_0000_0005,
        bins,
        bool_flag: Some(true),
    }
}

#[test]
fn message_limit_is_32_mebibytes() {
    assert_eq!(MAX_MESSAGE_BYTES, 33_554_432);
}

#[test]
fn bins_are_little_endian() {
    let bytes: Vec<u8> = vec![1, 0, 0, 1, 255, 255, 4, 0, 5, 0, 6, 0, 7, 0, 8, 2];
    assert_eq!(decode_bins(&bytes), [1, 256, 65535, 4, 5, 6, 7, 520]);
}

#[test]
fn bins_round_trip() {
    let bins: [u16; 8] = [0, 1, 255, 256, 257, 4096, 65534, 65535];
    let mut bytes: Vec<u8> = Vec::new();
    for b in bins {
        bytes.extend_from_slice(&b.to_le_bytes());
    }
    assert_eq!(decode_bins(&bytes), bins);
    bytes.push(9);
    assert_eq!(decode_bins(&bytes), bins);
}

#[test]
fn too_few_bytes_are_no_bins() {
    assert_eq!(decode_bins(&[]), [0; 8]);
    assert_eq!(decode_bins(&[1]), [0; 8]);
    assert_eq!(decode_bins(&[1; 15]), [0; 8]);
}

#[test]
fn node_references_become_messages() {
    assert_eq!(
        GraphClient::node_ref_to_proto(&NodeRef::node_id(7)),
        graph_proto::NodeRef { identifier: Some(graph_proto::Identifier::NodeId(7)) }
    );
    assert_eq!(
        GraphClient::node_ref_to_proto(&NodeRef::external("card", "card-001")),
        external("card", "card-001")
    );
}

#[test]
fn properties_round_trip() {
    let properties = vec![
        PropertyEntry::integer("mcc", 5942),
        PropertyEntry::float("credit_limit", Float64 { bits: 2.5f64.to_bits() }),
        PropertyEntry::string("country", "US"),
        PropertyEntry::bool("is_virtual", true),
        PropertyEntry { name: "opened".to_string(), value: PropertyValue::Timestamp(99) },
    ];
    let messages = GraphClient::properties_to_proto(&properties);
    assert_eq!(
        messages[0].value,
        Some(graph_proto::PropertyValue { value: Some(graph_proto::Value::IntVal(5942)) })
    );
    assert_eq!(
        messages[4].value,
        Some(graph_proto::PropertyValue { value: Some(graph_proto::Value::TimestampVal(99)) })
    );
    let back = GraphClient::properties_from_proto(messages);
    assert_eq!(format!("{back:?}"), format!("{properties:?}"));
}

#[test]
fn missing_property_values_read_as_zero() {
    let bare = graph_proto::PropertyEntry { name: "a".to_string(), value: None };
    let hollow = graph_proto::PropertyEntry {
        name: "b".to_string(),
        value: Some(graph_proto::PropertyValue { value: None }),
    };
    let read = GraphClient::properties_from_proto(vec![bare, hollow]);
    assert_eq!(read[0].name, "a");
    assert!(matches!(read[0].value, PropertyValue::Int(0)));
    assert!(matches!(read[1].value, PropertyValue::Int(0)));
}

#[test]
fn create_node_call() {
    let req = GraphClient::create_node_request(
        "card",
        Some("card-01"),
        &[PropertyEntry::bool("is_virtual", false)],
    );
    assert_eq!(req.node_type_name, "card");
    assert_eq!(req.external_id.as_deref(), Some("card-01"));
    assert_eq!(req.properties[0].name, "is_virtual");
    assert_eq!(GraphClient::create_node_request("card", None, &[]).external_id, None);

    let reply = graph_proto::CreateNodeResponse { node_id: 11, created: true };
    let result = GraphClient::create_node(Ok(reply)).unwrap();
    assert_eq!(result.node_id, 11);
    assert!(result.created);
    assert!(is_refusal(GraphClient::create_node(Err(refused())).unwrap_err()));
}

#[test]
fn upsert_edge_call() {
    let req = GraphClient::upsert_edge_request(
        "TRANSACTS_AT",
        NodeRef::external("card", "card-01"),
        NodeRef::node_id(5),
        Some(f32_bits(99.99)),
        Some(1_700_000_000),
        Some(false),
    );
    assert_eq!(req.edge_type_name, "TRANSACTS_AT");
    assert_eq!(req.src, Some(external("card", "card-01")));
    assert_eq!(
        req.dst,
        Some(graph_proto::NodeRef { identifier: Some(graph_proto::Identifier::NodeId(5)) })
    );
    assert_eq!(req.numeric_value, Some(f32_bits(99.99)));
    assert_eq!(req.event_ts_secs, Some(1_700_000_000));
    assert_eq!(req.bool_property_value, Some(false));

    let reply = graph_proto::UpsertEdgeResponse {
        created_new: true,
        payload: Some(payload(vec![2, 0, 1, 0, 0, 0, 0, 0, 0, 0, 0, 0, 0, 0, 0, 0])),
    };
    let result = GraphClient::upsert_edge(Ok(reply)).unwrap();
    assert!(result.created_new);
    assert_eq!(result.tx_count, 3);
    assert_eq!(result.approx_sum, f32_bits(125.75));
    assert_eq!(result.last_seen, 1_700_000_000);
    assert_eq!(result.activity_bitmap, 0x8000_0000_0000_0005);
    assert_eq!(result.bins, [2, 1, 0, 0, 0, 0, 0, 0]);
    assert_eq!(result.bool_flag, Some(true));

    let hollow = graph_proto::UpsertEdgeResponse { created_new: true, payload: None };
    assert!(is_missing_payload(GraphClient::upsert_edge(Ok(hollow)).unwrap_err()));
    assert!(is_refusal(GraphClient::upsert_edge(Err(refused())).unwrap_err()));
}

#[test]
fn ingest_request_from_the_guide() {
    let nodes = vec![
        TransactionNode::new("card", "card-1001").with_key("cardA"),
        TransactionNode::new("merchant", "merchant-9001")
            .with_properties(vec![PropertyEntry::string("country", "US")]),
    ];
    let mut edge = TransactionEdge::new(
        "TRANSACTS_AT",
        TransactionNodeRef::request_node_key("cardA"),
        TransactionNodeRef::request_node_key("merchantA"),
    )
    .with_key("edge-primary");
    edge.numeric_value = Some(f32_bits(125.75));
    edge.event_ts_secs = Some(1_700_000_000);
    let plain = TransactionEdge::new(
        "TRANSACTS_AT",
        TransactionNodeRef::request_node_key("cardA"),
        TransactionNodeRef::node(NodeRef::external("merchant", "merchant-9001")),
    );
    let req = GraphClient::build_ingest_request(Some("txn-demo-001"), &nodes, &[edge, plain]);
    assert_eq!(req.transaction_id, "txn-demo-001");
    assert_eq!(req.nodes.len(), 2);
    assert_eq!(req.nodes[0].request_node_key, "cardA");
    assert_eq!(req.nodes[0].node_type_name, "card");
    assert_eq!(req.nodes[0].external_id, "card-1001");
    assert!(req.nodes[0].properties.is_empty());
    assert_eq!(req.nodes[1].request_node_key, "");
    assert_eq!(req.nodes[1].properties[0].name, "country");
    assert_eq!(req.edges.len(), 2);
    assert_eq!(req.edges[0].request_edge_key, "edge-primary");
    assert_eq!(
        req.edges[0].src,
        Some(graph_proto::TransactionNodeRef {
            reference: Some(graph_proto::Reference::RequestNodeKey("cardA".to_string())),
        })
    );
    assert_eq!(req.edges[0].numeric_value, Some(f32_bits(125.75)));
    assert_eq!(req.edges[0].event_ts_secs, Some(1_700_000_000));
    assert_eq!(req.edges[1].request_edge_key, "");
    assert_eq!(
        req.edges[1].dst,
        Some(graph_proto::TransactionNodeRef {
            reference: Some(graph_proto::Reference::Node(external("merchant", "merchant-9001"))),
        })
    );
    assert_eq!(req.edges[1].numeric_value, None);
    assert_eq!(GraphClient::build_ingest_request(None, &[], &[]).transaction_id, "");
}

#[test]
fn ingest_reply() {
    let reply = graph_proto::IngestTransactionResponse {
        transaction_id: "txn-1".to_string(),
        nodes_created: 1,
        nodes_existing: 2,
        node_errors: 3,
        edges_created: 4,
        edges_updated: 5,
        edge_errors: 6,
        node_results: vec![
            graph_proto::NodeIngestResult {
                index: 0,
                request_node_key: "cardA".to_string(),
                node_id: 77,
                created: true,
                error: None,
            },
            graph_proto::NodeIngestResult {
                index: 1,
                request_node_key: String::new(),
                node_id: 0,
                created: false,
                error: Some("bad type".to_string()),
            },
        ],
        edge_results: vec![
            graph_proto::EdgeIngestResult {
                index: 0,
                request_edge_key: "edge-primary".to_string(),
                created_new: true,
                payload: Some(payload(Vec::new())),
                error: None,
            },
            graph_proto::EdgeIngestResult {
                index: 1,
                request_edge_key: String::new(),
                created_new: false,
                payload: None,
                error: Some("no node".to_string()),
            },
        ],
    };
    let r = GraphClient::ingest_transaction(Ok(reply)).unwrap();
    assert_eq!(r.transaction_id, "txn-1");
    assert_eq!((r.nodes_created, r.nodes_existing, r.node_errors), (1, 2, 3));
    assert_eq!((r.edges_created, r.edges_updated, r.edge_errors), (4, 5, 6));
    assert_eq!(r.node_results[0].request_node_key.as_deref(), Some("cardA"));
    assert_eq!(r.node_results[0].node_id, Some(77));
    assert!(r.node_results[0].created);
    assert_eq!(r.node_results[0].error, None);
    assert_eq!(r.node_results[1].index, 1);
    assert_eq!(r.node_results[1].request_node_key, None);
    assert_eq!(r.node_results[1].node_id, None);
    assert_eq!(r.node_results[1].error.as_deref(), Some("bad type"));
    assert_eq!(r.edge_results[0].request_edge_key.as_deref(), Some("edge-primary"));
    let p = r.edge_results[0].payload.as_ref().unwrap();
    assert!(p.created_new);
    assert_eq!(p.bins, [0; 8]);
    assert_eq!(p.activity_bitmap, 0x8000_0000_0000_0005);
    assert!(r.edge_results[1].payload.is_none());
    assert_eq!(r.edge_results[1].request_edge_key, None);
    assert_eq!(r.edge_results[1].error.as_deref(), Some("no node"));
    assert!(is_refusal(GraphClient::ingest_transaction(Err(refused())).unwrap_err()));
}

#[test]
fn edge_state_call() {
    let req = GraphClient::get_edge_state_request(
        "USES_DEVICE",
        NodeRef::external("card", "card-01"),
        NodeRef::external("device", "dev-01"),
        Some(f32_bits(1.0)),
        None,
        Some(12),
        Some(&[300, 3600]),
    );
    assert_eq!(req.edge_type_name, "USES_DEVICE");
    assert_eq!(req.src, Some(external("card", "card-01")));
    assert_eq!(req.dst, Some(external("device", "dev-01")));
    assert_eq!(req.min_value, Some(f32_bits(1.0)));
    assert_eq!(req.max_value, None);
    assert_eq!(req.query_time_secs, Some(12));
    assert_eq!(req.activity_windows_secs, vec![300, 3600]);

    let reply = |found: bool, payload: Option<graph_proto::EdgePayload>| {
        Ok(graph_proto::GetEdgeStateResponse {
            found,
            payload,
            filtered_count: 2,
            filtered_approx_sum: f32_bits(7.5),
            activity_counts: vec![1, 4],
        })
    };
    let s = GraphClient::get_edge_state(reply(true, Some(payload(Vec::new())))).unwrap().unwrap();
    assert!(s.found);
    assert_eq!(s.tx_count, 3);
    assert_eq!(s.approx_sum, f32_bits(125.75));
    assert_eq!(s.filtered_count, 2);
    assert_eq!(s.filtered_approx_sum, f32_bits(7.5));
    assert_eq!(s.activity_counts, vec![1, 4]);
    assert_eq!(s.bins, [0; 8]);
    assert_eq!(s.bool_flag, Some(true));
    assert!(GraphClient::get_edge_state(reply(false, None)).unwrap().is_none());
    assert!(GraphClient::get_edge_state(reply(false, Some(payload(Vec::new())))).unwrap().is_none());
    assert!(is_missing_payload(GraphClient::get_edge_state(reply(true, None)).unwrap_err()));
    assert!(is_refusal(GraphClient::get_edge_state(Err(refused())).unwrap_err()));
}

#[test]
fn neighbors_call() {
    let filters = vec![NodePropertyFilter::int_eq("mcc", 5812)];
    let req = GraphClient::get_neighbors_request(
        NodeRef::external("card", "card-demo-001"),
        "TRANSACTS_AT",
        true,
        50,
        9,
        &filters,
        true,
    );
    assert_eq!(req.node, Some(external("card", "card-demo-001")));
    assert_eq!(req.edge_type, "TRANSACTS_AT");
    assert!(req.out_neighbors);
    assert_eq!(req.filter, None);
    assert_eq!(req.limit, 50);
    assert_eq!(req.cursor, 9);
    assert_eq!(
        req.neighbor_filters,
        vec![graph_proto::PropertyPredicate {
            property_name: "mcc".to_string(),
            predicate: Some(graph_proto::Predicate::IntEq(5812)),
        }]
    );
    assert!(req.include_neighbor_props);

    let reply = graph_proto::NeighborList {
        edges: vec![graph_proto::NeighborEdge {
            neighbor_node_id: 4,
            edge_id: 5,
            created_at_us: -6,
            neighbor_node_type: "merchant".to_string(),
            neighbor_external_id: Some("m-1".to_string()),
            neighbor_props: GraphClient::properties_to_proto(&[PropertyEntry::integer("mcc", 5812)]),
        }],
        has_more: true,
    };
    let (edges, has_more) = GraphClient::get_neighbors(Ok(reply)).unwrap();
    assert!(has_more);
    assert_eq!(edges.len(), 1);
    assert_eq!(edges[0].neighbor_node_id, 4);
    assert_eq!(edges[0].edge_id, 5);
    assert_eq!(edges[0].created_at_us, -6);
    assert_eq!(edges[0].neighbor_node_type, "merchant");
    assert_eq!(edges[0].neighbor_external_id.as_deref(), Some("m-1"));
    assert!(matches!(edges[0].neighbor_props[0].value, PropertyValue::Int(5812)));
    assert!(is_refusal(GraphClient::get_neighbors(Err(refused())).unwrap_err()));
}

#[test]
fn filtered_neighbors_call() {
    let node = NodeRef::node_id(1);
    let plain = GraphClient::get_neighbors_request(node.clone(), "VIEWS", false, 3, 0, &[], false);
    let empty = GraphClient::get_neighbors_filtered_request(
        node.clone(),
        "VIEWS",
        false,
        &EdgeFilter::new(),
        3,
        0,
        &[],
        false,
    );
    assert_eq!(empty, plain);
    let filter = EdgeFilter::new()
        .min_created_at_us(10)
        .with_property_filter(NodePropertyFilter::string_eq("country", "US"));
    let req = GraphClient::get_neighbors_filtered_request(
        node, "VIEWS", false, &filter, 3, 0, &[], false,
    );
    let sent = req.filter.unwrap();
    assert_eq!(sent.min_created_at_us, Some(10));
    assert_eq!(sent.max_created_at_us, None);
    assert_eq!(
        sent.property_filters,
        vec![graph_proto::PropertyPredicate {
            property_name: "country".to_string(),
            predicate: Some(graph_proto::Predicate::StringEq("US".to_string())),
        }]
    );
}

#[test]
fn filter_messages_are_told_apart() {
    let x = Float64 { bits: 1.5f64.to_bits() };
    let filters = vec![
        NodePropertyFilter::int_gt("p", 1),
        NodePropertyFilter::int_lt("p", 1),
        NodePropertyFilter::int_eq("p", 1),
        NodePropertyFilter::float_gt("p", x),
        NodePropertyFilter::float_lt("p", x),
        NodePropertyFilter::ts_after("p", 1),
        NodePropertyFilter::ts_before("p", 1),
        NodePropertyFilter::string_eq("p", "1"),
        NodePropertyFilter::bool_eq("p", true),
    ];
    let messages = GraphClient::filters_to_proto(&filters);
    assert_eq!(messages[3].predicate, Some(graph_proto::Predicate::FloatGt(x)));
    assert_eq!(messages[6].predicate, Some(graph_proto::Predicate::TsBefore(1)));
    assert_eq!(messages[8].predicate, Some(graph_proto::Predicate::BoolEq(true)));
    for i in 0..messages.len() {
        for j in 0..i {
            assert_ne!(messages[i], messages[j]);
        }
    }
}

#[test]
fn neighbor_count_call() {
    let req = GraphClient::get_neighbor_count_request(NodeRef::node_id(3), "VIEWS");
    assert_eq!(req.edge_type, "VIEWS");
    let reply = graph_proto::CountResponse { count: 12, approximate: true };
    assert_eq!(GraphClient::get_neighbor_count(Ok(reply)).unwrap(), (12, true));
    assert!(is_refusal(GraphClient::get_neighbor_count(Err(refused())).unwrap_err()));
}

#[test]
fn last_neighbor_call() {
    let req = GraphClient::get_last_neighbor_request(
        NodeRef::external("card", "card-demo-001"),
        "USES_DEVICE",
        Some(NodeRef::external("device", "device-demo-002")),
    );
    assert_eq!(req.node, Some(external("card", "card-demo-001")));
    assert_eq!(req.exclude_neighbor, Some(external("device", "device-demo-002")));
    let found = graph_proto::LastNeighborResponse {
        found: true,
        neighbor_node_id: 8,
        last_seen_secs: 99,
    };
    assert_eq!(GraphClient::get_last_neighbor(Ok(found)).unwrap(), Some((8, 99)));
    let none = graph_proto::LastNeighborResponse {
        found: false,
        neighbor_node_id: 8,
        last_seen_secs: 99,
    };
    assert_eq!(GraphClient::get_last_neighbor(Ok(none)).unwrap(), None);
    assert!(is_refusal(GraphClient::get_last_neighbor(Err(refused())).unwrap_err()));
}

#[test]
fn get_node_call() {
    assert_eq!(
        GraphClient::get_node_request(NodeRef::external("card", "c")).node,
        Some(external("card", "c"))
    );
    let reply = graph_proto::GetNodeResponse {
        node_id: 6,
        node_type: "card".to_string(),
        external_id: None,
        properties: GraphClient::properties_to_proto(&[PropertyEntry::string("a", "b")]),
    };
    let n = GraphClient::get_node(Ok(reply)).unwrap();
    assert_eq!(n.node_id, 6);
    assert_eq!(n.node_type, "card");
    assert_eq!(n.external_id, None);
    assert!(matches!(&n.properties[0].value, PropertyValue::String(s) if s == "b"));
    assert!(is_refusal(GraphClient::get_node(Err(refused())).unwrap_err()));
}

#[test]
fn list_nodes_call() {
    let req = GraphClient::list_nodes_request("card", "", 10);
    assert_eq!(req.node_type_filter, "card");
    assert_eq!(req.external_id_filter, "");
    assert_eq!(req.limit, 10);
    let reply = graph_proto::ListNodesResponse {
        nodes: vec![graph_proto::ListedNode {
            node_id: 1,
            node_type: "card".to_string(),
            external_id: "c-1".to_string(),
        }],
        total_count: 40,
    };
    let (nodes, total) = GraphClient::list_nodes(Ok(reply)).unwrap();
    assert_eq!(total, 40);
    assert_eq!(nodes[0].node_id, 1);
    assert_eq!(nodes[0].node_type, "card");
    assert_eq!(nodes[0].external_id, "c-1");
    assert!(is_refusal(GraphClient::list_nodes(Err(refused())).unwrap_err()));
}

#[test]
fn ingest_makes_one_call_with_the_built_request() {
    let nodes = vec![TransactionNode::new("card", "card-1001").with_key("cardA")];
    let mut sent: Vec<graph_proto::IngestTransactionRequest> = Vec::new();
    let reply = GraphClient::call_ingest_transaction(Some("txn-1"), &nodes, &[], |req| {
        sent.push(req);
        42
    });
    assert_eq!(reply, 42);
    assert_eq!(sent, vec![GraphClient::build_ingest_request(Some("txn-1"), &nodes, &[])]);
}
