use jetgraph_client::features::{features_proto, EdgeTypeFeatures, NodeFeatureVectorResponse};
use jetgraph_client::graph::{graph_proto, NodeResponse};
use jetgraph_client::segment::sweep::SweepStep;
use jetgraph_client::segment::walk::{MembershipWalk, WalkStep};
use jetgraph_client::segment::peak_bin;
use jetgraph_client::{
    segment_name_from_edge, ClientError, EdgeStateField, EvalContextData, Float32, Float64,
    HistogramField, NeighborEdge, NodeRef, PropertyEntry, PropertyValue, SegmentClient,
    SignalValue,
};
use tonic::Status;

fn bits(x: f32) -> Float32 {
    Float32 { bits: x.to_bits() }
}

fn refused() -> Status {
    Status::internal("broken")
}

fn is_refusal(e: ClientError) -> bool {
    matches!(e, ClientError::Status(s) if s.message() == "broken")
}

fn is_missing_payload(e: ClientError) -> bool {
    matches!(e, ClientError::Internal(text) if text == "missing payload")
}

fn node_id(id: u64) -> Option<graph_proto::NodeRef> {
    Some(graph_proto::NodeRef { identifier: Some(graph_proto::Identifier::NodeId(id)) })
}

fn features(name: &str, tx: u32) -> EdgeTypeFeatures {
    EdgeTypeFeatures {
        edge_type_name: name.to_string(),
        neighbor_count: tx as u64 + 100,
        activity_bitmap_union: 0,
        total_approx_sum: bits(tx as f32),
        total_tx_count: tx,
    }
}

fn context() -> EvalContextData {
    EvalContextData {
        node_id: 1,
        feature_vector: NodeFeatureVectorResponse {
            node_id: 1,
            edge_features: vec![
                features("TRANSACTS_AT", 12),
                features("USES_DEVICE", 3),
                features("TRANSACTS_AT", 99),
            ],
            direct_fraud_score: bits(0.25),
            fraudulent_neighbor_count: 4,
            max_neighbor_fraud_score: bits(0.75),
        },
    }
}

#[test]
fn context_reads_the_first_entry() {
    let c = context();
    assert_eq!(c.total_tx_count("TRANSACTS_AT"), 12);
    assert_eq!(c.neighbor_count("USES_DEVICE"), 103);
    assert_eq!(c.total_approx_sum("USES_DEVICE"), bits(3.0));
    assert_eq!(c.fraudulent_neighbor_count(), 4);
    assert_eq!(c.max_neighbor_fraud_score(), bits(0.75));
    assert_eq!(c.direct_fraud_score(), bits(0.25));
}

#[test]
fn context_reads_zero_for_other_edge_types() {
    let c = context();
    assert_eq!(c.total_tx_count("VIEWS"), 0);
    assert_eq!(c.neighbor_count("transacts_at"), 0);
    assert_eq!(c.total_approx_sum(""), bits(0.0));
}

#[test]
fn prefetch_keeps_the_feature_vector() {
    let req = SegmentClient::prefetch_eval_context_request(NodeRef::node_id(1), &["A", "B"], 24, 7);
    assert_eq!(req.edge_types, vec!["A", "B"]);
    assert_eq!((req.histogram_window_hours, req.histogram_window_days), (24, 7));
    assert!(req.nodes_to_check_fraud.is_empty());
    let reply = features_proto::NodeFeatureVector {
        node_id: 42,
        edge_features: Vec::new(),
        direct_fraud_score: bits(0.5),
        fraudulent_neighbor_count: 0,
        max_neighbor_fraud_score: bits(0.0),
    };
    let c = SegmentClient::prefetch_eval_context(Ok(reply)).unwrap();
    assert_eq!(c.node_id, 42);
    assert_eq!(c.feature_vector.node_id, 42);
    assert_eq!(c.direct_fraud_score(), bits(0.5));
    assert!(is_refusal(SegmentClient::prefetch_eval_context(Err(refused())).unwrap_err()));
}

fn last_neighbor(found: bool, secs: u32) -> Result<graph_proto::LastNeighborResponse, Status> {
    Ok(graph_proto::LastNeighborResponse { found, neighbor_node_id: 3, last_seen_secs: secs })
}

#[test]
fn time_since_last_interaction() {
    let since = SegmentClient::days_since_last_neighbor;
    assert_eq!(since(last_neighbor(true, 1_000), 87_400).unwrap(), Some(86_400));
    assert_eq!(since(last_neighbor(true, 1_000), 1_000).unwrap(), Some(0));
    assert_eq!(since(last_neighbor(true, 1_000), 999).unwrap(), Some(0));
    assert_eq!(since(last_neighbor(false, 1_000), 5_000).unwrap(), None);
    assert!(is_refusal(since(Err(refused()), 0).unwrap_err()));
    let req = SegmentClient::last_neighbor_request(NodeRef::node_id(7), "VIEWS");
    assert_eq!(req.node, node_id(7));
    assert_eq!(req.edge_type, "VIEWS");
    assert_eq!(req.exclude_neighbor, None);
}

#[test]
fn time_of_last_interaction() {
    assert_eq!(SegmentClient::last_seen_secs(last_neighbor(true, 77)).unwrap(), 77);
    assert_eq!(SegmentClient::last_seen_secs(last_neighbor(false, 77)).unwrap(), u32::MAX);
    assert!(is_refusal(SegmentClient::last_seen_secs(Err(refused())).unwrap_err()));
}

#[test]
fn neighbor_count_signal() {
    let reply = graph_proto::CountResponse { count: 9, approximate: true };
    assert_eq!(SegmentClient::neighbor_count(Ok(reply)).unwrap(), 9);
    assert!(is_refusal(SegmentClient::neighbor_count(Err(refused())).unwrap_err()));
}

fn histogram(
    totals: Option<Vec<u32>>,
) -> Result<features_proto::NodeHistogramResponse, Status> {
    Ok(features_proto::NodeHistogramResponse {
        total_events: 55,
        totals: totals.map(|counts| features_proto::HistogramTotals { counts }),
        window_covered_secs: 0,
    })
}

#[test]
fn histogram_signals() {
    let read = |field: HistogramField| {
        let reply = histogram(Some(vec![1, 7, 3, 7, 2]));
        SegmentClient::histogram_field(reply, &[10, 25, 40, -5, 100], field).unwrap()
    };
    assert_eq!(read(HistogramField::TotalEvents), 55);
    assert_eq!(read(HistogramField::TotalApproxSum), 10 + 175 + 120 - 35 + 200);
    assert_eq!(read(HistogramField::PeakBin), 3);
}

#[test]
fn weighted_sum_of_one_bin() {
    let reply = histogram(Some(vec![2]));
    let sum = SegmentClient::histogram_field(reply, &[10], HistogramField::TotalApproxSum);
    assert_eq!(sum.unwrap(), 20);
}

#[test]
fn weighted_sum_of_large_bins() {
    let reply = histogram(Some(vec![u32::MAX; 8]));
    let sum = SegmentClient::histogram_field(reply, &[i64::MIN; 8], HistogramField::TotalApproxSum);
    assert_eq!(sum.unwrap(), 8 * u32::MAX as i128 * i64::MIN as i128);
}

#[test]
fn histogram_without_bins() {
    let read = |field: HistogramField| {
        SegmentClient::histogram_field(histogram(None), &[10, 25], field).unwrap()
    };
    assert_eq!(read(HistogramField::TotalEvents), 55);
    assert_eq!(read(HistogramField::TotalApproxSum), 0);
    assert_eq!(read(HistogramField::PeakBin), 0);
}

#[test]
fn histogram_errors() {
    let sum = HistogramField::TotalApproxSum;
    let e = SegmentClient::histogram_field(histogram(Some(vec![1, 2])), &[10], sum).unwrap_err();
    assert!(matches!(e, ClientError::Internal(text) if text == "missing bin midpoint"));
    assert!(is_refusal(SegmentClient::histogram_field(Err(refused()), &[], sum).unwrap_err()));
    let peak =
        SegmentClient::histogram_field(histogram(Some(vec![1, 2])), &[], HistogramField::PeakBin);
    assert_eq!(peak.unwrap(), 1);
}

#[test]
fn peak_is_the_last_of_equals() {
    let samples: Vec<Vec<u32>> = vec![
        vec![0],
        vec![0, 0, 0],
        vec![5, 1, 1],
        vec![1, 5, 1],
        vec![1, 1, 5],
        vec![2, 2, 1],
        vec![u32::MAX, 0, u32::MAX],
    ];
    for counts in samples {
        let expected = counts.iter().enumerate().max_by_key(|(_, &v)| v).map(|(i, _)| i).unwrap();
        assert_eq!(peak_bin(&counts), expected);
    }
}

#[test]
fn property_signals() {
    let half = Float64 { bits: 0.5f64.to_bits() };
    let node = NodeResponse {
        node_id: 1,
        node_type: "card".to_string(),
        external_id: None,
        properties: vec![
            PropertyEntry::integer("tenure", -3),
            PropertyEntry::float("ratio", half),
            PropertyEntry { name: "opened".to_string(), value: PropertyValue::Timestamp(99) },
            PropertyEntry::bool("active", true),
            PropertyEntry::bool("closed", false),
            PropertyEntry::string("tier", "gold"),
            PropertyEntry::integer("tenure", 8),
        ],
    };
    let read = |name: &str| SegmentClient::node_property_f64(&node, name);
    assert_eq!(read("tenure"), SignalValue::Signed(-3));
    assert_eq!(read("ratio"), SignalValue::Double(half));
    assert_eq!(read("opened"), SignalValue::Signed(99));
    assert_eq!(read("active"), SignalValue::Unsigned(1));
    assert_eq!(read("closed"), SignalValue::Unsigned(0));
    assert_eq!(read("tier"), SignalValue::Unsigned(0));
    assert_eq!(read("missing"), SignalValue::Unsigned(0));
}

fn payload(confidence: f32, last_seen: u32) -> Option<graph_proto::EdgePayload> {
    Some(graph_proto::EdgePayload {
        tx_count: 6,
        approx_sum: bits(confidence),
        last_seen,
        flags: 0,
        bins: Vec::new(),
        bool_flag: None,
    })
}

fn state(
    found: bool,
    payload: Option<graph_proto::EdgePayload>,
    counts: Vec<u32>,
) -> Result<graph_proto::GetEdgeStateResponse, Status> {
    Ok(graph_proto::GetEdgeStateResponse {
        found,
        payload,
        filtered_count: 0,
        filtered_approx_sum: bits(0.0),
        activity_counts: counts,
    })
}

#[test]
fn edge_state_signals() {
    let read = |field: EdgeStateField| {
        SegmentClient::edge_state_field(state(true, payload(2.5, 900), vec![4, 5]), field, 1_000)
            .unwrap()
    };
    assert_eq!(read(EdgeStateField::TxCount), SignalValue::Unsigned(6));
    assert_eq!(read(EdgeStateField::ApproxSum), SignalValue::Single(bits(2.5)));
    assert_eq!(read(EdgeStateField::LastSeenSecs), SignalValue::Unsigned(100));
    assert_eq!(read(EdgeStateField::ActivityCount), SignalValue::Unsigned(4));
}

#[test]
fn edge_state_signal_edge_cases() {
    let read = SegmentClient::edge_state_field;
    let count = EdgeStateField::ActivityCount;
    assert_eq!(
        read(state(true, payload(1.0, 0), Vec::new()), count, 0).unwrap(),
        SignalValue::Unsigned(0)
    );
    assert_eq!(
        read(state(true, payload(1.0, 50), Vec::new()), EdgeStateField::LastSeenSecs, 10).unwrap(),
        SignalValue::Unsigned(0)
    );
    assert_eq!(
        read(state(false, None, vec![9]), count, 0).unwrap(),
        SignalValue::Unsigned(0)
    );
    assert!(is_missing_payload(read(state(true, None, Vec::new()), count, 0).unwrap_err()));
    assert!(is_refusal(read(Err(refused()), count, 0).unwrap_err()));
}

#[test]
fn edge_state_signal_request() {
    let req = SegmentClient::edge_state_field_request(
        "VIEWS",
        NodeRef::node_id(1),
        NodeRef::node_id(2),
        Some(3600),
    );
    assert_eq!(req.edge_type_name, "VIEWS");
    assert_eq!(req.src, node_id(1));
    assert_eq!(req.dst, node_id(2));
    assert_eq!(req.activity_windows_secs, vec![3600]);
    assert_eq!((req.min_value, req.max_value, req.query_time_secs), (None, None, None));
    let req = SegmentClient::edge_state_field_request(
        "VIEWS",
        NodeRef::node_id(1),
        NodeRef::node_id(2),
        None,
    );
    assert!(req.activity_windows_secs.is_empty());
}

#[test]
fn membership_is_recorded_with_its_confidence() {
    let req = SegmentClient::upsert_segment_membership_request(
        NodeRef::node_id(1),
        NodeRef::node_id(2),
        bits(0.87),
    );
    assert_eq!(req.edge_type_name, "MEMBER_OF");
    assert_eq!(req.src, node_id(1));
    assert_eq!(req.dst, node_id(2));
    assert_eq!(req.numeric_value, Some(bits(0.87)));
    assert_eq!(req.event_ts_secs, None);
    assert_eq!(req.bool_property_value, None);
    let reply = |payload: Option<graph_proto::EdgePayload>| {
        Ok(graph_proto::UpsertEdgeResponse { created_new: true, payload })
    };
    assert!(SegmentClient::upsert_segment_membership(reply(payload(0.87, 1))).is_ok());
    assert!(is_missing_payload(
        SegmentClient::upsert_segment_membership(reply(None)).unwrap_err()
    ));
    assert!(is_refusal(SegmentClient::upsert_segment_membership(Err(refused())).unwrap_err()));
}

fn neighbor(id: u64, external_id: Option<&str>) -> graph_proto::NeighborEdge {
    graph_proto::NeighborEdge {
        neighbor_node_id: id,
        edge_id: 0,
        created_at_us: 0,
        neighbor_node_type: "card".to_string(),
        neighbor_external_id: external_id.map(String::from),
        neighbor_props: Vec::new(),
    }
}

fn page(
    edges: Vec<graph_proto::NeighborEdge>,
    has_more: bool,
) -> Result<graph_proto::NeighborList, Status> {
    Ok(graph_proto::NeighborList { edges, has_more })
}

#[test]
fn segment_names() {
    let edge = |external_id: Option<&str>| NeighborEdge {
        neighbor_node_id: 120,
        edge_id: 0,
        created_at_us: 0,
        neighbor_node_type: String::new(),
        neighbor_external_id: external_id.map(String::from),
        neighbor_props: Vec::new(),
    };
    assert_eq!(segment_name_from_edge(&edge(Some("seg-high-velocity"))), "seg-high-velocity");
    assert_eq!(segment_name_from_edge(&edge(Some(""))), "");
    assert_eq!(segment_name_from_edge(&edge(None)), "120");
}

/// Runs a walk against an engine that holds these memberships, in pages of `page_size`.
fn run(
    mut walk: MembershipWalk,
    first: graph_proto::NeighborQuery,
    all: &[(u64, Option<&str>, f32)],
    page_size: usize,
) -> (MembershipWalk, usize) {
    let mut pages: usize = 0;
    let mut step = WalkStep::ReadNeighbors(first);
    loop {
        step = match step {
            WalkStep::ReadNeighbors(req) => {
                pages += 1;
                assert_eq!(req.edge_type, "MEMBER_OF");
                let start = if req.cursor == 0 {
                    0
                } else {
                    all.iter().position(|m| m.0 == req.cursor).unwrap() + 1
                };
                let end = std::cmp::min(start + page_size, all.len());
                let edges = all[start..end].iter().map(|m| neighbor(m.0, m.1)).collect();
                walk.on_neighbors(page(edges, end < all.len())).unwrap()
            }
            WalkStep::ReadEdgeState(req) => {
                let other = [req.src, req.dst].into_iter().flatten().find_map(|r| {
                    match r.identifier {
                        Some(graph_proto::Identifier::NodeId(id)) => Some(id),
                        _ => None,
                    }
                });
                let m = all.iter().find(|m| Some(m.0) == other).unwrap();
                walk.on_edge_state(state(true, payload(m.2, 7), Vec::new())).unwrap()
            }
            WalkStep::Done => return (walk, pages),
        };
    }
}

#[test]
fn all_segments_of_a_customer_are_listed() {
    let all: Vec<(u64, Option<&str>, f32)> = vec![
        (11, Some("gold"), 0.9),
        (12, None, 0.5),
        (13, Some("left"), 0.0),
        (14, Some("odd"), -1.0),
        (15, Some("nan"), f32::NAN),
        (16, Some("last"), 0.01),
    ];
    for page_size in 1..8 {
        let (walk, first) =
            SegmentClient::get_customer_segments(NodeRef::external("card", "card-demo-001"));
        assert!(first.out_neighbors);
        assert_eq!(first.limit, 1000);
        assert_eq!(first.cursor, 0);
        assert!(first.include_neighbor_props);
        let (walk, pages) = run(walk, first, &all, page_size);
        assert_eq!(pages, all.len().div_ceil(page_size));
        let segments = walk.into_segments();
        let names: Vec<&str> = segments.iter().map(|s| s.segment_name.as_str()).collect();
        assert_eq!(names, vec!["gold", "12", "last"]);
        assert_eq!(segments[0].segment_node_id, 11);
        assert_eq!(segments[0].confidence, bits(0.9));
        assert_eq!(segments[0].last_seen_secs, 7);
        assert_eq!(segments[2].segment_node_id, 16);
    }
}

#[test]
fn members_of_a_segment_come_by_the_page() {
    let all: Vec<(u64, Option<&str>, f32)> =
        vec![(21, Some("card-a"), 0.3), (22, None, 0.0), (23, None, 1.0)];
    let (walk, first) =
        SegmentClient::get_segment_members(NodeRef::external("card", "seg"), 2, 21);
    assert!(!first.out_neighbors);
    assert_eq!(first.limit, 2);
    assert_eq!(first.cursor, 21);
    assert!(!first.include_neighbor_props);
    let (walk, pages) = run(walk, first, &all, 2);
    assert_eq!(pages, 1);
    let (members, has_more) = walk.into_members();
    assert!(!has_more);
    assert_eq!(members.len(), 1);
    assert_eq!(members[0].customer_node_id, 23);
    assert_eq!(members[0].external_id, None);
    assert_eq!(members[0].confidence, bits(1.0));

    let (walk, first) = SegmentClient::get_segment_members(NodeRef::external("card", "seg"), 1, 0);
    let (walk, pages) = run(walk, first, &all, 1);
    assert_eq!(pages, 1);
    let (members, has_more) = walk.into_members();
    assert!(has_more);
    assert_eq!(members[0].external_id.as_deref(), Some("card-a"));
}

#[test]
fn walk_asks_in_the_direction_of_the_edges() {
    let (mut walk, _) = SegmentClient::get_customer_segments(NodeRef::node_id(1));
    match walk.on_neighbors(page(vec![neighbor(2, None)], false)).unwrap() {
        WalkStep::ReadEdgeState(req) => {
            assert_eq!(req.edge_type_name, "MEMBER_OF");
            assert_eq!(req.src, node_id(1));
            assert_eq!(req.dst, node_id(2));
            assert!(req.activity_windows_secs.is_empty());
        }
        step => panic!("{step:?}"),
    }
    let (mut walk, _) = SegmentClient::get_segment_members(NodeRef::node_id(1), 5, 0);
    match walk.on_neighbors(page(vec![neighbor(2, None)], false)).unwrap() {
        WalkStep::ReadEdgeState(req) => {
            assert_eq!(req.src, node_id(2));
            assert_eq!(req.dst, node_id(1));
        }
        step => panic!("{step:?}"),
    }
}

#[test]
fn walk_over_nothing() {
    let (mut walk, _) = SegmentClient::get_customer_segments(NodeRef::node_id(1));
    assert!(matches!(walk.on_neighbors(page(Vec::new(), false)).unwrap(), WalkStep::Done));
    let stray = walk.on_edge_state(state(true, payload(1.0, 1), Vec::new()));
    assert!(matches!(stray.unwrap(), WalkStep::Done));
    assert!(walk.into_segments().is_empty());
}

#[test]
fn edges_that_are_gone_are_not_listed() {
    let (mut walk, _) = SegmentClient::get_customer_segments(NodeRef::node_id(1));
    walk.on_neighbors(page(vec![neighbor(2, None)], false)).unwrap();
    assert!(matches!(
        walk.on_edge_state(state(false, payload(1.0, 1), Vec::new())).unwrap(),
        WalkStep::Done
    ));
    assert!(walk.into_segments().is_empty());
}

#[test]
fn walk_ends_with_an_error() {
    let (mut walk, _) = SegmentClient::get_customer_segments(NodeRef::node_id(1));
    assert!(is_refusal(walk.on_neighbors(Err(refused())).unwrap_err()));
    walk.on_neighbors(page(vec![neighbor(2, None)], false)).unwrap();
    assert!(is_refusal(walk.on_edge_state(Err(refused())).unwrap_err()));
    assert!(is_missing_payload(
        walk.on_edge_state(state(true, None, Vec::new())).unwrap_err()
    ));
}

fn listing(count: u64, total: u32) -> Result<graph_proto::ListNodesResponse, Status> {
    Ok(graph_proto::ListNodesResponse {
        nodes: (1..=count)
            .map(|id| graph_proto::ListedNode {
                node_id: id,
                node_type: "customer".to_string(),
                external_id: String::new(),
            })
            .collect(),
        total_count: total,
    })
}

#[test]
fn sweep_lists_all_customers() {
    for total in [0u32, 1, 9, 10, 11, 25, 30] {
        let (mut sweep, first) = SegmentClient::list_all_customers("customer", 10);
        assert_eq!(first.node_type_filter, "customer");
        assert_eq!(first.external_id_filter, "");
        assert_eq!(first.limit, 10);
        let mut step = SweepStep::ListNodes(first);
        let ids = loop {
            step = match step {
                SweepStep::ListNodes(req) => {
                    let count = std::cmp::min(req.limit, total);
                    sweep.on_nodes(listing(count as u64, total)).unwrap()
                }
                SweepStep::Done(ids) => break ids,
            };
        };
        let expected: Vec<u64> = (1..=total as u64).collect();
        assert_eq!(ids, expected);
    }
}

#[test]
fn sweep_stops_where_a_higher_limit_is_no_use() {
    let (mut sweep, _) = SegmentClient::list_all_customers("customer", 10);
    assert!(matches!(
        sweep.on_nodes(listing(4, 100)).unwrap(),
        SweepStep::Done(ids) if ids == vec![1, 2, 3, 4]
    ));
    let (mut sweep, _) = SegmentClient::list_all_customers("customer", 0);
    assert!(matches!(sweep.on_nodes(listing(2, 100)).unwrap(), SweepStep::Done(_)));
    let (mut sweep, _) = SegmentClient::list_all_customers("customer", 10);
    assert!(matches!(
        sweep.on_nodes(listing(10, 100)).unwrap(),
        SweepStep::ListNodes(req) if req.limit == 20
    ));
    assert!(is_refusal(sweep.on_nodes(Err(refused())).unwrap_err()));
}

#[test]
fn pages_of_members_add_up() {
    let all: Vec<(u64, Option<&str>, f32)> = vec![
        (21, None, 0.3),
        (22, None, 0.0),
        (23, None, 1.0),
        (24, None, 0.0),
        (25, None, 0.2),
        (26, None, 0.4),
    ];
    for limit in 2..8 {
        let mut ids: Vec<u64> = Vec::new();
        let mut cursor: u64 = 0;
        loop {
            let (walk, first) =
                SegmentClient::get_segment_members(NodeRef::external("card", "seg"), limit, cursor);
            let (walk, _) = run(walk, first, &all, limit as usize);
            let (members, has_more) = walk.into_members();
            ids.extend(members.iter().map(|m| m.customer_node_id));
            if !has_more {
                break;
            }
            cursor = *ids.last().unwrap();
        }
        assert_eq!(ids, vec![21, 23, 25, 26]);
    }
}

#[test]
fn walk_goes_on_after_a_page() {
    let (mut walk, _) = SegmentClient::get_customer_segments(NodeRef::node_id(1));
    walk.on_neighbors(page(vec![neighbor(9, None)], true)).unwrap();
    assert!(matches!(
        walk.on_edge_state(state(true, payload(1.0, 1), Vec::new())).unwrap(),
        WalkStep::ReadNeighbors(req) if req.cursor == 9 && req.limit == 1000
    ));
}

#[test]
fn walk_begins_again_where_it_cannot_go_on() {
    let stuck_pages = [
        vec![],
        vec![neighbor(7, None), neighbor(0, None)],
        vec![neighbor(9, None)],
    ];
    for stuck in stuck_pages {
        let (mut walk, _) = SegmentClient::get_customer_segments(NodeRef::node_id(1));
        walk.on_neighbors(page(vec![neighbor(9, None)], true)).unwrap();
        walk.on_edge_state(state(true, payload(1.0, 1), Vec::new())).unwrap();
        assert!(matches!(
            walk.on_neighbors(page(stuck, true)).unwrap(),
            WalkStep::ReadNeighbors(req) if req.cursor == 0 && req.limit == 0 && req.out_neighbors
        ));
        walk.on_neighbors(page(vec![neighbor(9, None), neighbor(0, None)], false)).unwrap();
        walk.on_edge_state(state(true, payload(0.5, 1), Vec::new())).unwrap();
        assert!(matches!(
            walk.on_edge_state(state(true, payload(0.6, 1), Vec::new())).unwrap(),
            WalkStep::Done
        ));
        let ids: Vec<u64> = walk.into_segments().iter().map(|s| s.segment_node_id).collect();
        assert_eq!(ids, vec![9, 0]);
    }
}

#[test]
fn page_without_a_limit_is_the_last() {
    let (mut walk, _) = SegmentClient::get_customer_segments(NodeRef::node_id(1));
    walk.on_neighbors(page(Vec::new(), true)).unwrap();
    walk.on_neighbors(page(vec![neighbor(9, None)], true)).unwrap();
    assert!(matches!(
        walk.on_edge_state(state(true, payload(0.5, 1), Vec::new())).unwrap(),
        WalkStep::Done
    ));
    assert_eq!(walk.into_segments().len(), 1);

    let (mut walk, _) = SegmentClient::get_customer_segments(NodeRef::node_id(1));
    walk.on_neighbors(page(Vec::new(), true)).unwrap();
    assert!(matches!(walk.on_neighbors(page(Vec::new(), true)).unwrap(), WalkStep::Done));
    assert!(walk.into_segments().is_empty());
}

#[test]
fn walk_ends_where_the_engine_ignores_the_cursor() {
    let all = [neighbor(8, None), neighbor(9, None)];
    let (mut walk, first) = SegmentClient::get_customer_segments(NodeRef::node_id(1));
    let mut step = WalkStep::ReadNeighbors(first);
    let mut pages = 0;
    loop {
        step = match step {
            WalkStep::ReadNeighbors(_) => {
                pages += 1;
                walk.on_neighbors(page(all.to_vec(), true)).unwrap()
            }
            WalkStep::ReadEdgeState(_) => {
                walk.on_edge_state(state(true, payload(0.5, 1), Vec::new())).unwrap()
            }
            WalkStep::Done => break,
        };
    }
    assert_eq!(pages, 3);
    let ids: Vec<u64> = walk.into_segments().iter().map(|s| s.segment_node_id).collect();
    assert_eq!(ids, vec![8, 9]);
}

#[test]
fn stray_pages_are_of_no_account() {
    let (mut walk, _) = SegmentClient::get_customer_segments(NodeRef::node_id(1));
    walk.on_neighbors(page(vec![neighbor(8, None)], false)).unwrap();
    assert!(matches!(
        walk.on_neighbors(page(vec![neighbor(9, None)], true)).unwrap(),
        WalkStep::ReadEdgeState(req) if req.dst == node_id(8)
    ));
    walk.on_edge_state(state(true, payload(0.5, 1), Vec::new())).unwrap();
    assert!(matches!(
        walk.on_neighbors(page(vec![neighbor(9, None)], true)).unwrap(),
        WalkStep::Done
    ));
    let ids: Vec<u64> = walk.into_segments().iter().map(|s| s.segment_node_id).collect();
    assert_eq!(ids, vec![8]);
}

#[test]
fn members_and_segments_agree() {
    let (mut walk, _) = SegmentClient::get_customer_segments(NodeRef::node_id(11));
    match walk.on_neighbors(page(vec![neighbor(22, None)], false)).unwrap() {
        WalkStep::ReadEdgeState(req) => {
            assert_eq!(req.src, node_id(11));
            assert_eq!(req.dst, node_id(22));
        }
        step => panic!("{step:?}"),
    }
    walk.on_edge_state(state(true, payload(0.75, 7), Vec::new())).unwrap();
    let segments = walk.into_segments();

    let (mut walk, _) = SegmentClient::get_segment_members(NodeRef::node_id(22), 5, 0);
    match walk.on_neighbors(page(vec![neighbor(11, None)], false)).unwrap() {
        WalkStep::ReadEdgeState(req) => {
            assert_eq!(req.src, node_id(11));
            assert_eq!(req.dst, node_id(22));
        }
        step => panic!("{step:?}"),
    }
    walk.on_edge_state(state(true, payload(0.75, 7), Vec::new())).unwrap();
    let (members, _) = walk.into_members();
    assert_eq!((segments[0].segment_node_id, members[0].customer_node_id), (22, 11));
    assert_eq!(segments[0].confidence, members[0].confidence);
    assert_eq!(segments[0].last_seen_secs, members[0].last_seen_secs);
}

#[test]
fn page_of_members_ends_as_the_engine_says() {
    let (mut walk, _) = SegmentClient::get_segment_members(NodeRef::node_id(1), 5, 0);
    assert!(matches!(walk.on_neighbors(page(Vec::new(), true)).unwrap(), WalkStep::Done));
    let (members, has_more) = walk.into_members();
    assert!(members.is_empty());
    assert!(has_more);
}
