use jetgraph_client::graph::graph_proto;
use jetgraph_client::graph::GraphClient;
use jetgraph_client::{Client, ClientError, NodeRef};
use tonic::{Code, Status};

#[test]
fn connect_to_a_uri() {
    let plan = Client::connect("http://localhost:50051").unwrap();
    assert_eq!(plan.endpoint, "http://localhost:50051");
    assert_eq!(plan.tcp_keepalive_secs, 30);
    assert!(plan.tcp_nodelay);
}

#[test]
fn connect_to_something_else() {
    for endpoint in ["", "http://local host", "http://[::1", "\u{7f}"] {
        let e: tonic::transport::Error = Client::connect(endpoint).unwrap_err();
        assert_eq!(e.to_string(), "invalid URI");
    }
}

#[test]
fn plan_follows_the_parse() {
    let plan = Client::connect_plan("anything", Ok(())).unwrap();
    assert_eq!(plan.endpoint, "anything");
    assert_eq!(plan.tcp_keepalive_secs, 30);
    let e = tonic::transport::Endpoint::from_shared("not a uri".to_string()).unwrap_err();
    assert_eq!(Client::connect_plan("anything", Err(e)).unwrap_err().to_string(), "invalid URI");
}

#[test]
fn errors_convert() {
    let e = ClientError::from(Status::aborted("x"));
    assert!(matches!(e, ClientError::Status(s) if s.code() == Code::Aborted));
    let t = tonic::transport::Endpoint::from_shared("not a uri".to_string()).unwrap_err();
    assert!(matches!(ClientError::from(t), ClientError::Transport(_)));
}

#[test]
fn ingested_node_ids() {
    let outcome = |node_id: u64, error: Option<&str>| graph_proto::NodeIngestResult {
        index: 0,
        request_node_key: String::new(),
        node_id,
        created: true,
        error: error.map(String::from),
    };
    let reply = graph_proto::IngestTransactionResponse {
        transaction_id: "t".to_string(),
        nodes_created: 2,
        nodes_existing: 0,
        node_errors: 1,
        edges_created: 0,
        edges_updated: 0,
        edge_errors: 0,
        node_results: vec![outcome(5, None), outcome(6, Some("bad")), outcome(4, None)],
        edge_results: Vec::new(),
    };
    let result = GraphClient::ingest_transaction(Ok(reply)).unwrap();
    let (result, ids) = Client::ingest_and_get_node_ids(result);
    assert_eq!(ids, vec![5, 4]);
    assert_eq!(result.transaction_id, "t");
    assert_eq!(result.node_results.len(), 3);
}

#[test]
fn edge_state_without_a_value_filter() {
    let req = Client::get_edge_state_request(
        "USES_DEVICE",
        NodeRef::node_id(1),
        NodeRef::node_id(2),
        Some(12),
        Some(&[300, 3600]),
    );
    let full = GraphClient::get_edge_state_request(
        "USES_DEVICE",
        NodeRef::node_id(1),
        NodeRef::node_id(2),
        None,
        None,
        Some(12),
        Some(&[300, 3600]),
    );
    assert_eq!(req, full);
    assert!(matches!(
        Client::get_edge_state(Err(Status::aborted("x"))),
        Err(ClientError::Status(_))
    ));
}
