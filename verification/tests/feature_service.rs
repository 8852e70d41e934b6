use jetgraph_client::features::features_proto;
use jetgraph_client::health::health_proto;
use jetgraph_client::{
    BoolPropertyWeight, ClientError, EdgeTypeWeight, FeatureClient, Float32, HealthClient, NodeRef,
};
use tonic::Status;

fn bits(x: f32) -> Float32 {
    Float32 { bits: x.to_bits() }
}

fn refused() -> Status {
    Status::unavailable("later")
}

fn is_refusal(e: ClientError) -> bool {
    matches!(e, ClientError::Status(s) if s.message() == "later")
}

fn external(node_type: &str, id: &str) -> features_proto::NodeRef {
    features_proto::NodeRef {
        identifier: Some(features_proto::Identifier::External(features_proto::ExternalRef {
            node_type_name: node_type.to_string(),
            external_id: id.to_string(),
        })),
    }
}

#[test]
fn histogram_call() {
    let req = FeatureClient::query_node_histogram_request(
        NodeRef::external("card", "c"),
        "TRANSACTS_AT",
        48,
        7,
    );
    assert_eq!(req.node, Some(external("card", "c")));
    assert_eq!(req.edge_type_name, "TRANSACTS_AT");
    assert_eq!((req.window_hours, req.window_days), (48, 7));
    assert!(!req.include_buckets);
    let reply = features_proto::NodeHistogramResponse {
        total_events: 5,
        totals: Some(features_proto::HistogramTotals { counts: vec![2, 3] }),
        window_covered_secs: 172_800,
    };
    let h = FeatureClient::query_node_histogram(Ok(reply)).unwrap();
    assert_eq!(h.total_events, 5);
    assert_eq!(h.total_counts, vec![2, 3]);
    assert_eq!(h.window_covered_secs, 172_800);
    let bare = features_proto::NodeHistogramResponse {
        total_events: 0,
        totals: None,
        window_covered_secs: 0,
    };
    assert!(FeatureClient::query_node_histogram(Ok(bare)).unwrap().total_counts.is_empty());
    assert!(is_refusal(FeatureClient::query_node_histogram(Err(refused())).unwrap_err()));
}

#[test]
fn feature_vector_call() {
    let req = FeatureClient::get_node_feature_vector_request(
        NodeRef::node_id(1),
        &["TRANSACTS_AT", "USES_DEVICE"],
        24,
        7,
        &[NodeRef::external("merchant", "m"), NodeRef::node_id(2)],
    );
    assert_eq!(req.edge_types, vec!["TRANSACTS_AT", "USES_DEVICE"]);
    assert_eq!((req.histogram_window_hours, req.histogram_window_days), (24, 7));
    assert_eq!(req.nodes_to_check_fraud[0], external("merchant", "m"));
    assert_eq!(
        req.nodes_to_check_fraud[1].identifier,
        Some(features_proto::Identifier::NodeId(2))
    );
    let reply = features_proto::NodeFeatureVector {
        node_id: 1,
        edge_features: vec![features_proto::EdgeTypeFeatures {
            edge_type_name: "TRANSACTS_AT".to_string(),
            neighbor_count: 3,
            activity_bitmap_union: 6,
            total_approx_sum: bits(9.5),
            total_tx_count: 12,
        }],
        direct_fraud_score: bits(0.25),
        fraudulent_neighbor_count: 4,
        max_neighbor_fraud_score: bits(0.75),
    };
    let v = FeatureClient::get_node_feature_vector(Ok(reply)).unwrap();
    assert_eq!(v.node_id, 1);
    assert_eq!(v.edge_features[0].edge_type_name, "TRANSACTS_AT");
    assert_eq!(v.edge_features[0].neighbor_count, 3);
    assert_eq!(v.edge_features[0].activity_bitmap_union, 6);
    assert_eq!(v.edge_features[0].total_approx_sum, bits(9.5));
    assert_eq!(v.edge_features[0].total_tx_count, 12);
    assert_eq!(v.direct_fraud_score, bits(0.25));
    assert_eq!(v.fraudulent_neighbor_count, 4);
    assert_eq!(v.max_neighbor_fraud_score, bits(0.75));
    assert!(is_refusal(FeatureClient::get_node_feature_vector(Err(refused())).unwrap_err()));
}

#[test]
fn fraud_context_call() {
    let req = FeatureClient::get_fraud_context_request(&[
        NodeRef::external("card", "card-demo-001"),
        NodeRef::external("device", "device-demo-002"),
    ]);
    assert_eq!(
        req.nodes,
        vec![external("card", "card-demo-001"), external("device", "device-demo-002")]
    );
    let reply = || {
        Ok(features_proto::FraudContextResponse {
            flagged_nodes: vec![features_proto::FlaggedNode {
                node_id: 2,
                fraud_score: bits(0.95),
                reason: "device farm".to_string(),
            }],
        })
    };
    let c = FeatureClient::get_fraud_context(reply()).unwrap();
    assert_eq!(c.flagged_nodes.len(), 1);
    assert_eq!(c.flagged_nodes[0].node_id, 2);
    assert_eq!(c.flagged_nodes[0].fraud_score, bits(0.95));
    assert_eq!(c.flagged_nodes[0].reason, "device farm");
    let alias = FeatureClient::nodes_with_fraud_edge(reply()).unwrap();
    assert_eq!(format!("{alias:?}"), format!("{c:?}"));
    assert!(is_refusal(FeatureClient::get_fraud_context(Err(refused())).unwrap_err()));
    assert!(is_refusal(FeatureClient::nodes_with_fraud_edge(Err(refused())).unwrap_err()));
}

#[test]
fn flagging_calls() {
    let req = FeatureClient::flag_node_request(NodeRef::external("device", "d"), bits(0.95), "farm");
    assert_eq!(req.node, Some(external("device", "d")));
    assert_eq!(req.fraud_score, bits(0.95));
    assert_eq!(req.reason, "farm");
    assert_eq!(
        FeatureClient::unflag_node_request(NodeRef::external("device", "d")).node,
        Some(external("device", "d"))
    );
    assert!(FeatureClient::flag_node(Ok(())).is_ok());
    assert!(FeatureClient::unflag_node(Ok(())).is_ok());
    assert!(is_refusal(FeatureClient::flag_node(Err(refused())).unwrap_err()));
    assert!(is_refusal(FeatureClient::unflag_node(Err(refused())).unwrap_err()));
}

#[test]
fn similar_nodes_call() {
    let req = FeatureClient::find_similar_nodes_request(
        NodeRef::external("card", "card-demo-001"),
        &[
            EdgeTypeWeight::new("TRANSACTS_AT", bits(0.5)),
            EdgeTypeWeight::new("USES_DEVICE", bits(0.3)),
        ],
        &["LOCATED_IN"],
        &[BoolPropertyWeight::new("is_virtual", bits(0.2))],
        &["is_active"],
        5,
        bits(0.1),
        false,
        "SIMILAR_TO",
    );
    assert_eq!(req.node, Some(external("card", "card-demo-001")));
    assert_eq!(
        req.weighted_edge_types,
        vec![
            features_proto::Weight { name: "TRANSACTS_AT".to_string(), weight: bits(0.5) },
            features_proto::Weight { name: "USES_DEVICE".to_string(), weight: bits(0.3) },
        ]
    );
    assert_eq!(req.required_edge_types, vec!["LOCATED_IN"]);
    assert_eq!(
        req.bool_property_weights,
        vec![features_proto::Weight { name: "is_virtual".to_string(), weight: bits(0.2) }]
    );
    assert_eq!(req.required_bool_properties, vec!["is_active"]);
    assert_eq!(req.k, 5);
    assert_eq!(req.min_similarity, bits(0.1));
    assert!(!req.upsert_edges);
    assert_eq!(req.similar_to_edge_type, "SIMILAR_TO");
    let reply = features_proto::FindSimilarNodesResponse {
        query_node_id: 1,
        similar_nodes: vec![features_proto::SimilarNode {
            node_id: 2,
            similarity: bits(0.4),
            shared_neighbors: 3,
        }],
    };
    let r = FeatureClient::find_similar_nodes(Ok(reply)).unwrap();
    assert_eq!(r.query_node_id, 1);
    assert_eq!(r.similar_nodes[0].node_id, 2);
    assert_eq!(r.similar_nodes[0].similarity, bits(0.4));
    assert_eq!(r.similar_nodes[0].shared_neighbors, 3);
    assert!(is_refusal(FeatureClient::find_similar_nodes(Err(refused())).unwrap_err()));
}

#[test]
fn similarity_graph_call() {
    let req = FeatureClient::build_similarity_graph_request(
        "card",
        &[EdgeTypeWeight::new("TRANSACTS_AT", bits(0.6))],
        &[],
        &[],
        &["is_active"],
        10,
        bits(0.05),
        "SIMILAR_TO",
    );
    assert_eq!(req.node_type, "card");
    assert_eq!(req.weighted_edge_types.len(), 1);
    assert!(req.required_edge_types.is_empty());
    assert!(req.bool_property_weights.is_empty());
    assert_eq!(req.required_bool_properties, vec!["is_active"]);
    assert_eq!(req.k, 10);
    assert_eq!(req.min_similarity, bits(0.05));
    assert_eq!(req.similar_to_edge_type, "SIMILAR_TO");
    let reply = features_proto::BuildSimilarityGraphResponse {
        nodes_processed: 1,
        edges_created: 2,
        edges_updated: 3,
        elapsed_ms: 4,
    };
    let r = FeatureClient::build_similarity_graph(Ok(reply)).unwrap();
    assert_eq!(
        (r.nodes_processed, r.edges_created, r.edges_updated, r.elapsed_ms),
        (1, 2, 3, 4)
    );
    assert!(is_refusal(FeatureClient::build_similarity_graph(Err(refused())).unwrap_err()));
}

#[test]
fn clearing_call() {
    assert_eq!(
        FeatureClient::clear_edge_type_data_request("SIMILAR_TO").edge_type_name,
        "SIMILAR_TO"
    );
    let reply = features_proto::ClearEdgeTypeDataResponse { pairs_removed: 88 };
    assert_eq!(FeatureClient::clear_edge_type_data(Ok(reply)).unwrap(), 88);
    assert!(is_refusal(FeatureClient::clear_edge_type_data(Err(refused())).unwrap_err()));
}

#[test]
fn health_reply() {
    let reply = |status: health_proto::EngineStatus| Ok(health_proto::HealthResponse { status });
    assert!(HealthClient::check(reply(health_proto::EngineStatus::Ready)).unwrap());
    assert!(!HealthClient::check(reply(health_proto::EngineStatus::Other(0))).unwrap());
    assert!(is_refusal(HealthClient::check(Err(refused())).unwrap_err()));
}
