use jetgraph_client::text;
use jetgraph_client::{
    BoolPropertyWeight, EdgeFilter, EdgeTypeWeight, Float32, Float64, NodePropPredicate,
    NodePropertyFilter, NodeRef, PropertyEntry, PropertyValue, TransactionEdge, TransactionNode,
    TransactionNodeRef,
};

fn f32_bits(x: f32) -> Float32 {
    Float32 { bits: x.to_bits() }
}

fn f64_bits(x: f64) -> Float64 {
    Float64 { bits: x.to_bits() }
}

#[test]
fn above_zero_agrees_with_floating_point() {
    let samples: Vec<f32> = vec![
        0.0,
        -0.0,
        1.0,
        -1.0,
        0.87,
        -0.87,
        f32::MIN_POSITIVE,
        -f32::MIN_POSITIVE,
        f32::from_bits(1),
        f32::from_bits(0x8000_0001),
        f32::MAX,
        f32::MIN,
        f32::INFINITY,
        f32::NEG_INFINITY,
        f32::NAN,
        -f32::NAN,
        f32::from_bits(0x7f80_0001),
        f32::from_bits(0xff80_0001),
    ];
    for x in samples {
        assert_eq!(f32_bits(x).is_above_zero(), x > 0.0, "{x}");
    }
    assert_eq!(Float32::zero(), f32_bits(0.0));
}

#[test]
fn above_zero_agrees_on_a_grid_of_patterns() {
    let mut bits: u32 = 0;
    loop {
        let x = f32::from_bits(bits);
        assert_eq!(Float32 { bits }.is_above_zero(), x > 0.0);
        match bits.checked_add(65_521) {
            Some(b) => bits = b,
            None => break,
        }
    }
}

#[test]
fn decimal_numerals() {
    for n in [0, 7, 9, 10, 42, 99, 100, 1_000_000_007, u32::MAX as u64, u64::MAX - 1, u64::MAX] {
        assert_eq!(text::decimal_text(n), n.to_string());
    }
}

#[test]
fn optional_text_survives_the_wire() {
    let key = Some("cardA".to_string());
    assert_eq!(text::text_or_empty(&key), "cardA");
    assert_eq!(text::non_empty(text::text_or_empty(&key)), key);
    assert_eq!(text::text_or_empty(&None), "");
    assert_eq!(text::non_empty(String::new()), None);
    assert_eq!(text::str_or_empty(Some("x")), "x");
    assert_eq!(text::str_or_empty(None), "");
}

#[test]
fn present_but_empty_text_reads_as_none() {
    assert_eq!(text::non_empty(text::text_or_empty(&Some(String::new()))), None);
}

#[test]
fn owned_names_keep_order() {
    assert_eq!(text::owned_names(&["B", "A", "B"]), vec!["B", "A", "B"]);
    assert!(text::owned_names(&[]).is_empty());
}

#[test]
fn node_references() {
    assert!(matches!(NodeRef::node_id(7), NodeRef::NodeId(7)));
    match NodeRef::external("card", "card-001").clone() {
        NodeRef::External { node_type, external_id } => {
            assert_eq!(node_type, "card");
            assert_eq!(external_id, "card-001");
        }
        NodeRef::NodeId(_) => panic!("an external reference"),
    }
}

#[test]
fn weights_keep_name_and_weight() {
    let w = EdgeTypeWeight::new("TRANSACTS_AT", f32_bits(0.5));
    assert_eq!(w.edge_type, "TRANSACTS_AT");
    assert_eq!(w.weight, f32_bits(0.5));
    let b = BoolPropertyWeight::new(String::from("is_virtual"), f32_bits(0.2));
    assert_eq!(b.property_name, "is_virtual");
    assert_eq!(b.weight, f32_bits(0.2));
}

#[test]
fn transaction_node_builder() {
    let n = TransactionNode::new("card", String::from("card-1001"));
    assert_eq!(n.request_node_key, None);
    assert_eq!(n.node_type, "card");
    assert_eq!(n.external_id, "card-1001");
    assert!(n.properties.is_empty());
    let n = n
        .with_properties(vec![PropertyEntry::integer("mcc", 5942)])
        .with_key("cardA");
    assert_eq!(n.request_node_key.as_deref(), Some("cardA"));
    assert_eq!(n.external_id, "card-1001");
    assert_eq!(n.properties.len(), 1);
    let n = n.with_properties(Vec::new());
    assert!(n.properties.is_empty());
    assert_eq!(n.request_node_key.as_deref(), Some("cardA"));
}

#[test]
fn transaction_edge_builder() {
    let e = TransactionEdge::new(
        "TRANSACTS_AT",
        TransactionNodeRef::request_node_key("cardA"),
        TransactionNodeRef::node(NodeRef::node_id(9)),
    );
    assert_eq!(e.request_edge_key, None);
    assert_eq!(e.edge_type, "TRANSACTS_AT");
    assert!(matches!(&e.src, TransactionNodeRef::RequestNodeKey(k) if k == "cardA"));
    assert!(matches!(&e.dst, TransactionNodeRef::Node(NodeRef::NodeId(9))));
    assert_eq!(e.numeric_value, None);
    assert_eq!(e.event_ts_secs, None);
    assert_eq!(e.bool_property_value, None);
    let e = e.with_key("edge-primary");
    assert_eq!(e.request_edge_key.as_deref(), Some("edge-primary"));
    assert_eq!(e.edge_type, "TRANSACTS_AT");
}

#[test]
fn property_constructors() {
    let p = PropertyEntry::integer("mcc", -5);
    assert_eq!(p.name, "mcc");
    assert!(matches!(p.value, PropertyValue::Int(-5)));
    let p = PropertyEntry::float("credit_limit", f64_bits(1500.5));
    assert!(matches!(p.value, PropertyValue::Float(v) if v == f64_bits(1500.5)));
    let p = PropertyEntry::string("name", "Demo Bookstore");
    assert!(matches!(&p.value, PropertyValue::String(s) if s == "Demo Bookstore"));
    let p = PropertyEntry::bool("is_virtual", true);
    assert!(matches!(p.value, PropertyValue::Bool(true)));
}

#[test]
fn filter_constructors() {
    let f = NodePropertyFilter::int_gt("mcc", 1);
    assert_eq!(f.property, "mcc");
    assert!(matches!(f.predicate, NodePropPredicate::IntGt(1)));
    assert!(matches!(NodePropertyFilter::int_lt("a", 2).predicate, NodePropPredicate::IntLt(2)));
    assert!(matches!(NodePropertyFilter::int_eq("a", 3).predicate, NodePropPredicate::IntEq(3)));
    assert!(matches!(
        NodePropertyFilter::float_gt("a", f64_bits(0.5)).predicate,
        NodePropPredicate::FloatGt(v) if v == f64_bits(0.5)
    ));
    assert!(matches!(
        NodePropertyFilter::float_lt("a", f64_bits(1.5)).predicate,
        NodePropPredicate::FloatLt(v) if v == f64_bits(1.5)
    ));
    assert!(matches!(NodePropertyFilter::ts_after("a", 4).predicate, NodePropPredicate::TsAfter(4)));
    assert!(matches!(
        NodePropertyFilter::ts_before("a", 5).predicate,
        NodePropPredicate::TsBefore(5)
    ));
    assert!(matches!(
        NodePropertyFilter::string_eq("a", "US").predicate,
        NodePropPredicate::StringEq(s) if s == "US"
    ));
    assert!(matches!(
        NodePropertyFilter::bool_eq("a", false).predicate,
        NodePropPredicate::BoolEq(false)
    ));
}

#[test]
fn edge_filter_builder() {
    assert!(EdgeFilter::new().is_empty());
    assert!(EdgeFilter::default().is_empty());
    let f = EdgeFilter::new().min_created_at_us(10);
    assert!(!f.is_empty());
    assert_eq!(f.min_created_at_us, Some(10));
    let f = f.max_created_at_us(20);
    assert_eq!(f.min_created_at_us, Some(10));
    assert_eq!(f.max_created_at_us, Some(20));
    assert!(!EdgeFilter::new().max_created_at_us(20).is_empty());
    let f = EdgeFilter::new()
        .with_property_filter(NodePropertyFilter::int_eq("a", 1))
        .with_property_filter(NodePropertyFilter::int_eq("b", 2));
    assert!(!f.is_empty());
    assert_eq!(f.property_filters[0].property, "a");
    assert_eq!(f.property_filters[1].property, "b");
}
