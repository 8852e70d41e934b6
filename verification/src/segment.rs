//! Segment evaluation: one prefetch of many signals, single signals on demand, and the
//! membership of customers in segments.
//!
//! 1. `prefetch_eval_context` keeps the reply of one feature vector call in an
//!    `EvalContextData`, from which most signals are read without another call.
//! 2. The other signals are read from the reply of a call of their own.
//!
//! Signals keep the type in which the engine counts or stores them.

use vstd::prelude::*;

use crate::error::ClientError;
use crate::features::{
    features_proto, EdgeTypeFeatures, FeatureClient, NodeFeatureVectorResponse,
};
use crate::float::{Float32, Float64};
use crate::graph::{graph_proto, GraphClient, NodeResponse};
use crate::text;
use crate::types::{
    EdgeStateField, HistogramField, NeighborEdge, NodeRef, PropertyEntry, PropertyValue,
};

pub mod laws;
pub mod sweep;
pub mod walk;

verus! {

/// A numeric signal, in the type of its source.
#[derive(Debug, Clone, Copy, PartialEq, Eq, Structural)]
pub enum SignalValue {
    /// A count, an index, a duration or a time.
    Unsigned(u64),
    /// A signed integer or a timestamp.
    Signed(i64),
    /// A single-precision number.
    Single(Float32),
    /// A double-precision number.
    Double(Float64),
}

/// The features of the first entry for an edge type, if there is one.
pub open spec fn features_named(fs: Seq<EdgeTypeFeatures>, name: Seq<char>) -> Option<
    EdgeTypeFeatures,
>
    decreases fs.len(),
{
    if fs.len() == 0 {
        None
    } else if fs[0].edge_type_name@ == name {
        Some(fs[0])
    } else {
        features_named(fs.drop_first(), name)
    }
}

/// Cached result of a single feature vector call.
///
/// The evaluator makes one for each customer and evaluation cycle and passes it to every
/// segment rule.
#[derive(Debug, Clone)]
pub struct EvalContextData {
    pub node_id: u64,
    pub feature_vector: NodeFeatureVectorResponse,
}

impl EvalContextData {
    /// The cached vector is that of the node.
    pub open spec fn well_formed(self) -> bool {
        self.node_id == self.feature_vector.node_id
    }

    /// The features of an edge type, if the vector holds them.
    pub open spec fn features_of(self, edge_type: Seq<char>) -> Option<EdgeTypeFeatures> {
        features_named(self.feature_vector.edge_features@, edge_type)
    }

    /// Total transaction count for the given edge type; zero if not present.
    pub fn total_tx_count(&self, edge_type: &str) -> (r: u32)
        ensures
            r == (match self.features_of(edge_type@) {
                Some(f) => f.total_tx_count,
                None => 0,
            }),
    {
        match self.edge_features(edge_type) {
            Some(f) => f.total_tx_count,
            None => 0,
        }
    }

    /// Approximate total sum for the given edge type; zero if not present.
    pub fn total_approx_sum(&self, edge_type: &str) -> (r: Float32)
        ensures
            r == (match self.features_of(edge_type@) {
                Some(f) => f.total_approx_sum,
                None => Float32 { bits: 0 },
            }),
    {
        match self.edge_features(edge_type) {
            Some(f) => f.total_approx_sum,
            None => Float32::zero(),
        }
    }

    /// Neighbor count for the given edge type; zero if not present.
    pub fn neighbor_count(&self, edge_type: &str) -> (r: u64)
        ensures
            r == (match self.features_of(edge_type@) {
                Some(f) => f.neighbor_count,
                None => 0,
            }),
    {
        match self.edge_features(edge_type) {
            Some(f) => f.neighbor_count,
            None => 0,
        }
    }

    /// Number of fraudulent neighbors, across all checked nodes.
    pub fn fraudulent_neighbor_count(&self) -> (r: u32)
        ensures
            r == self.feature_vector.fraudulent_neighbor_count,
    {
        self.feature_vector.fraudulent_neighbor_count
    }

    /// Maximum fraud score among neighbors.
    pub fn max_neighbor_fraud_score(&self) -> (r: Float32)
        ensures
            r == self.feature_vector.max_neighbor_fraud_score,
    {
        self.feature_vector.max_neighbor_fraud_score
    }

    /// Direct fraud score of this node.
    pub fn direct_fraud_score(&self) -> (r: Float32)
        ensures
            r == self.feature_vector.direct_fraud_score,
    {
        self.feature_vector.direct_fraud_score
    }

    fn edge_features(&self, edge_type: &str) -> (r: Option<&EdgeTypeFeatures>)
        ensures
            match r {
                Some(f) => self.features_of(edge_type@) == Some(*f),
                None => self.features_of(edge_type@) is None,
            },
    {
        let wanted: String = edge_type.to_string();
        let features = &self.feature_vector.edge_features;
        let mut i: usize = 0;
        assert(features@.skip(0) =~= features@);
        while i < features.len()
            invariant
                i <= features@.len(),
                features@ == self.feature_vector.edge_features@,
                wanted@ == edge_type@,
                self.features_of(edge_type@) == features_named(
                    features@.skip(i as int),
                    edge_type@,
                ),
            decreases features@.len() - i,
        {
            if features[i].edge_type_name == wanted {
                return Some(&features[i]);
            }
            assert(features@.skip(i as int).drop_first() =~= features@.skip(i + 1));
            i += 1;
        }
        None
    }
}

/// Edge features come from an entry of the vector that bears the name, and from no later entry
/// than the first; where no entry bears the name there are none.
pub proof fn law_features_come_from_first_entry(fs: Seq<EdgeTypeFeatures>, name: Seq<char>)
    ensures
        match features_named(fs, name) {
            Some(f) => exists|i: int|
                #![trigger fs[i]]
                0 <= i < fs.len() && fs[i] == f && f.edge_type_name@ == name && (forall|j: int|
                    0 <= j < i ==> (#[trigger] fs[j]).edge_type_name@ != name),
            None => forall|j: int|
                0 <= j < fs.len() ==> (#[trigger] fs[j]).edge_type_name@ != name,
        },
    decreases fs.len(),
{
    if fs.len() > 0 && fs[0].edge_type_name@ != name {
        let rest = fs.drop_first();
        law_features_come_from_first_entry(rest, name);
        match features_named(fs, name) {
            Some(f) => {
                let i = choose|i: int|
                    #![trigger rest[i]]
                    0 <= i < rest.len() && rest[i] == f && f.edge_type_name@ == name && (forall|
                        j: int,
                    |
                        0 <= j < i ==> (#[trigger] rest[j]).edge_type_name@ != name);
                assert(fs[i + 1] == f);
                assert forall|j: int| 0 <= j < i + 1 implies (#[trigger] fs[j]).edge_type_name@
                    != name by {
                    if j > 0 {
                        assert(rest[j - 1] == fs[j]);
                    }
                }
            },
            None => {
                assert forall|j: int| 0 <= j < fs.len() implies (#[trigger] fs[j]).edge_type_name@
                    != name by {
                    if j > 0 {
                        assert(rest[j - 1] == fs[j]);
                    }
                }
            },
        }
    }
}

/// The weighted sum of bins: of each, the count times the midpoint.
pub open spec fn weighted_total(counts: Seq<u32>, midpoints: Seq<i64>) -> int
    decreases counts.len(),
{
    if counts.len() == 0 {
        0
    } else {
        weighted_total(counts.drop_last(), midpoints) + counts.last() * midpoints[counts.len()
            - 1]
    }
}

/// The weighted sums of the first bins, of any number of them, fit in 128 bits.
pub open spec fn weighted_totals_fit(counts: Seq<u32>, midpoints: Seq<i64>) -> bool {
    forall|n: int|
        0 <= n <= counts.len() ==> i128::MIN <= #[trigger] weighted_total(
            counts.take(n),
            midpoints,
        ) <= i128::MAX
}

/// Bin `i` has the highest count, and every bin after it has a lower one.
pub open spec fn is_peak(counts: Seq<u32>, i: int) -> bool {
    &&& 0 <= i < counts.len()
    &&& forall|j: int| 0 <= j < counts.len() ==> #[trigger] counts[j] <= counts[i]
    &&& forall|j: int| i < j < counts.len() ==> #[trigger] counts[j] < counts[i]
}

proof fn lemma_weighted_bin_bound(count: u32, midpoint: i64)
    ensures
        -0x8000_0000_0000_0000_0000_0000 < count * midpoint < 0x8000_0000_0000_0000_0000_0000,
{
    assert(-0x8000_0000_0000_0000_0000_0000 < count * midpoint < 0x8000_0000_0000_0000_0000_0000)
        by (nonlinear_arith)
        requires
            0 <= count < 0x1_0000_0000,
            -0x8000_0000_0000_0000 <= midpoint < 0x8000_0000_0000_0000,
    ;
}

proof fn lemma_weighted_total_bound(counts: Seq<u32>, midpoints: Seq<i64>)
    ensures
        -0x8000_0000_0000_0000_0000_0000 * counts.len() <= weighted_total(counts, midpoints)
            <= 0x8000_0000_0000_0000_0000_0000 * counts.len(),
    decreases counts.len(),
{
    if counts.len() > 0 {
        lemma_weighted_total_bound(counts.drop_last(), midpoints);
        lemma_weighted_bin_bound(counts.last(), midpoints[counts.len() - 1]);
    }
}

/// The weighted sum of the bins of a histogram can always be had: in 128 bits it does not
/// overflow as long as 32 bits count the bins.
pub proof fn law_weighted_totals_fit(counts: Seq<u32>, midpoints: Seq<i64>)
    requires
        counts.len() <= u32::MAX,
    ensures
        weighted_totals_fit(counts, midpoints),
{
    assert forall|n: int| 0 <= n <= counts.len() implies i128::MIN <= #[trigger] weighted_total(
        counts.take(n),
        midpoints,
    ) <= i128::MAX by {
        lemma_weighted_total_bound(counts.take(n), midpoints);
    }
}

/// The weighted sum of bins, or `None` where it cannot be had in 128 bits.
fn weighted_bin_total(counts: &[u32], midpoints: &[i64]) -> (r: Option<i128>)
    requires
        counts@.len() <= midpoints@.len(),
    ensures
        r is Some <==> weighted_totals_fit(counts@, midpoints@),
        r matches Some(t) ==> t == weighted_total(counts@, midpoints@),
{
    let mut total: i128 = 0;
    let mut i: usize = 0;
    while i < counts.len()
        invariant
            i <= counts.len() <= midpoints.len(),
            total == weighted_total(counts@.take(i as int), midpoints@),
            forall|n: int|
                0 <= n <= i ==> i128::MIN <= #[trigger] weighted_total(
                    counts@.take(n),
                    midpoints@,
                ) <= i128::MAX,
        decreases counts.len() - i,
    {
        proof {
            assert(counts@.take(i + 1).drop_last() =~= counts@.take(i as int));
            lemma_weighted_bin_bound(counts@[i as int], midpoints@[i as int]);
        }
        let weighted: i128 = counts[i] as i128 * midpoints[i] as i128;
        assert(weighted_total(counts@.take(i + 1), midpoints@) == total + weighted);
        match total.checked_add(weighted) {
            Some(t) => {
                total = t;
            },
            None => {
                return None;
            },
        }
        i += 1;
    }
    assert(counts@.take(i as int) =~= counts@);
    Some(total)
}

/// Index of the highest-count bin: of several, the last; zero where there are no bins.
pub fn peak_bin(counts: &[u32]) -> (r: usize)
    ensures
        counts@.len() == 0 ==> r == 0,
        counts@.len() > 0 ==> is_peak(counts@, r as int),
{
    if counts.len() == 0 {
        return 0;
    }
    let mut peak: usize = 0;
    let mut i: usize = 1;
    while i < counts.len()
        invariant
            1 <= i <= counts.len(),
            is_peak(counts@.take(i as int), peak as int),
        decreases counts.len() - i,
    {
        let ghost before = counts@.take(i as int);
        let ghost after = counts@.take(i + 1);
        assert(after =~= before.push(counts@[i as int]));
        if counts[i] >= counts[peak] {
            peak = i;
        }
        i += 1;
    }
    assert(counts@.take(i as int) =~= counts@);
    peak
}

/// There is one peak at most.
pub proof fn law_peak_is_unique(counts: Seq<u32>, a: int, b: int)
    requires
        is_peak(counts, a),
        is_peak(counts, b),
    ensures
        a == b,
{
    if a < b {
        assert(counts[b] < counts[a]);
        assert(counts[a] <= counts[b]);
    }
    if b < a {
        assert(counts[a] < counts[b]);
        assert(counts[b] <= counts[a]);
    }
}

/// The value of the first property of that name, if there is one.
pub open spec fn property_named(ps: Seq<PropertyEntry>, name: Seq<char>) -> Option<PropertyValue>
    decreases ps.len(),
{
    if ps.len() == 0 {
        None
    } else if ps[0].name@ == name {
        Some(ps[0].value)
    } else {
        property_named(ps.drop_first(), name)
    }
}

/// A property as a signal: numbers and times as they are, a flag as one or zero, and text or
/// no property as zero.
pub open spec fn property_signal(value: Option<PropertyValue>) -> SignalValue {
    match value {
        Some(PropertyValue::Int(v)) => SignalValue::Signed(v),
        Some(PropertyValue::Float(v)) => SignalValue::Double(v),
        Some(PropertyValue::Timestamp(v)) => SignalValue::Signed(v),
        Some(PropertyValue::Bool(v)) => SignalValue::Unsigned(
            if v {
                1
            } else {
                0
            },
        ),
        Some(PropertyValue::String(_)) => SignalValue::Unsigned(0),
        None => SignalValue::Unsigned(0),
    }
}

/// Seconds from `then` to `now`, or zero where `then` lies ahead.
pub open spec fn elapsed_secs(now: u64, then: u32) -> u64 {
    if now >= then {
        (now - then) as u64
    } else {
        0
    }
}

/// A field of the state that a reply holds, as a signal; zero where the edge was not found.
pub open spec fn edge_state_signal(
    m: graph_proto::GetEdgeStateResponse,
    field: EdgeStateField,
    now_secs: u64,
) -> SignalValue {
    match m.payload {
        Some(p) if m.found => match field {
            EdgeStateField::TxCount => SignalValue::Unsigned(p.tx_count as u64),
            EdgeStateField::ApproxSum => SignalValue::Single(p.approx_sum),
            EdgeStateField::LastSeenSecs => SignalValue::Unsigned(
                elapsed_secs(now_secs, p.last_seen),
            ),
            EdgeStateField::ActivityCount => SignalValue::Unsigned(
                if m.activity_counts@.len() == 0 {
                    0
                } else {
                    m.activity_counts@[0] as u64
                },
            ),
        },
        _ => SignalValue::Unsigned(0),
    }
}

/// The name of a segment: its external id, or its node id in decimal where it has none.
pub open spec fn segment_name(external_id: Option<String>, node_id: u64) -> Seq<char> {
    match external_id {
        Some(id) => id@,
        None => text::decimal(node_id as nat),
    }
}

/// The name of a segment, from the neighbor edge of a membership.
pub fn segment_name_from_edge(edge: &NeighborEdge) -> (r: String)
    ensures
        r@ == segment_name(edge.neighbor_external_id, edge.neighbor_node_id),
{
    match &edge.neighbor_external_id {
        Some(id) => id.clone(),
        None => text::decimal_text(edge.neighbor_node_id),
    }
}

/// Different segments without an external id have different names.
pub proof fn law_unnamed_segments_have_different_names(a: u64, b: u64)
    requires
        segment_name(None, a) == segment_name(None, b),
    ensures
        a == b,
{
    text::law_decimal_injective(a as nat, b as nat);
}

/// Builds the requests of segment evaluation and reads their replies.
pub struct SegmentClient;

impl SegmentClient {
    /// Request for the signals of a customer, without other nodes to check for fraud.
    pub fn prefetch_eval_context_request(
        node: NodeRef,
        edge_types: &[&str],
        histogram_window_hours: u32,
        histogram_window_days: u32,
    ) -> (req: features_proto::NodeFeatureVectorRequest)
        ensures
            req.node == Some(crate::features::node_ref_message(node)),
            text::texts_of(req.edge_types@) == text::names_of(edge_types@),
            req.histogram_window_hours == histogram_window_hours,
            req.histogram_window_days == histogram_window_days,
            req.nodes_to_check_fraud@.len() == 0,
    {
        FeatureClient::get_node_feature_vector_request(
            node,
            edge_types,
            histogram_window_hours,
            histogram_window_days,
            &[],
        )
    }

    /// Keep the reply to a request for the signals of a customer.
    pub fn prefetch_eval_context(
        reply: Result<features_proto::NodeFeatureVector, tonic::Status>,
    ) -> (r: Result<EvalContextData, ClientError>)
        ensures
            match reply {
                Err(s) => r == Err::<EvalContextData, ClientError>(ClientError::Status(s)),
                Ok(m) => r matches Ok(c) && c.well_formed() && crate::features::is_feature_vector(
                    m,
                    c.feature_vector,
                ),
            },
    {
        match FeatureClient::get_node_feature_vector(reply) {
            Err(e) => Err(e),
            Ok(v) => Ok(EvalContextData { node_id: v.node_id, feature_vector: v }),
        }
    }

    /// Request for the latest interaction of a customer on an edge type.
    pub fn last_neighbor_request(node: NodeRef, edge_type: &str) -> (req:
        graph_proto::LastNeighborQuery)
        ensures
            req.node == Some(crate::graph::node_ref_message(node)),
            req.edge_type@ == edge_type@,
            req.exclude_neighbor is None,
    {
        GraphClient::get_last_neighbor_request(node, edge_type, None)
    }

    /// Seconds elapsed since the latest interaction, or `None` if there never was one.
    pub fn days_since_last_neighbor(
        reply: Result<graph_proto::LastNeighborResponse, tonic::Status>,
        now_secs: u64,
    ) -> (r: Result<Option<u64>, ClientError>)
        ensures
            match reply {
                Err(s) => r == Err::<Option<u64>, ClientError>(ClientError::Status(s)),
                Ok(m) => r == Ok::<Option<u64>, ClientError>(
                    if m.found {
                        Some(elapsed_secs(now_secs, m.last_seen_secs))
                    } else {
                        None
                    },
                ),
            },
    {
        match GraphClient::get_last_neighbor(reply) {
            Err(e) => Err(e),
            Ok(None) => Ok(None),
            Ok(Some((_, last_seen_secs))) => Ok(
                Some(now_secs.saturating_sub(last_seen_secs as u64)),
            ),
        }
    }

    /// Time of the latest interaction, or the largest 32-bit number if there never was one.
    pub fn last_seen_secs(reply: Result<graph_proto::LastNeighborResponse, tonic::Status>) -> (r:
        Result<u32, ClientError>)
        ensures
            match reply {
                Err(s) => r == Err::<u32, ClientError>(ClientError::Status(s)),
                Ok(m) => r == Ok::<u32, ClientError>(
                    if m.found {
                        m.last_seen_secs
                    } else {
                        u32::MAX
                    },
                ),
            },
    {
        match GraphClient::get_last_neighbor(reply) {
            Err(e) => Err(e),
            Ok(None) => Ok(u32::MAX),
            Ok(Some((_, secs))) => Ok(secs),
        }
    }

    /// Number of neighbors.
    pub fn neighbor_count(reply: Result<graph_proto::CountResponse, tonic::Status>) -> (r: Result<
        u64,
        ClientError,
    >)
        ensures
            match reply {
                Err(s) => r == Err::<u64, ClientError>(ClientError::Status(s)),
                Ok(m) => r == Ok::<u64, ClientError>(m.count),
            },
    {
        match GraphClient::get_neighbor_count(reply) {
            Err(e) => Err(e),
            Ok((count, _)) => Ok(count),
        }
    }

    /// A field of a node histogram.
    ///
    /// The reply counts bins and does not say where they lie, so for the weighted sum the caller
    /// gives the midpoint of each bin, in a unit of the caller's choice; the sum is in that unit.
    /// Midpoints after the last bin are of no account. The other fields need none.
    pub fn histogram_field(
        reply: Result<features_proto::NodeHistogramResponse, tonic::Status>,
        bin_midpoints: &[i64],
        field: HistogramField,
    ) -> (r: Result<i128, ClientError>)
        ensures
            match reply {
                Err(s) => r == Err::<i128, ClientError>(ClientError::Status(s)),
                Ok(m) => {
                    let counts = crate::features::bin_counts(m);
                    match field {
                        HistogramField::TotalEvents => r matches Ok(v) && v == m.total_events,
                        HistogramField::TotalApproxSum => if bin_midpoints@.len() < counts.len() {
                            r matches Err(e) && e.is_internal("missing bin midpoint"@)
                        } else if !weighted_totals_fit(counts, bin_midpoints@) {
                            r matches Err(e) && e.is_internal("weighted sum out of range"@)
                        } else {
                            r matches Ok(v) && v == weighted_total(counts, bin_midpoints@)
                        },
                        HistogramField::PeakBin => r matches Ok(v) && (if counts.len() == 0 {
                            v == 0
                        } else {
                            is_peak(counts, v as int)
                        }),
                    }
                },
            },
            (reply matches Ok(m) && field == HistogramField::TotalApproxSum && {
                let counts = crate::features::bin_counts(m);
                counts.len() <= bin_midpoints@.len() && counts.len() <= u32::MAX
            }) ==> (r matches Ok(v) && v == weighted_total(
                crate::features::bin_counts(reply->Ok_0),
                bin_midpoints@,
            )),
    {
        let h = match FeatureClient::query_node_histogram(reply) {
            Err(e) => {
                return Err(e);
            },
            Ok(h) => h,
        };
        match field {
            HistogramField::TotalEvents => Ok(h.total_events as i128),
            HistogramField::TotalApproxSum => {
                if bin_midpoints.len() < h.total_counts.len() {
                    return Err(ClientError::Internal("missing bin midpoint".into()));
                }
                proof {
                    if h.total_counts@.len() <= u32::MAX {
                        law_weighted_totals_fit(h.total_counts@, bin_midpoints@);
                    }
                }
                match weighted_bin_total(h.total_counts.as_slice(), bin_midpoints) {
                    Some(total) => Ok(total),
                    None => Err(ClientError::Internal("weighted sum out of range".into())),
                }
            },
            HistogramField::PeakBin => Ok(peak_bin(h.total_counts.as_slice()) as i128),
        }
    }

    /// A property of a node as a signal.
    pub fn node_property_f64(response: &NodeResponse, property_name: &str) -> (r: SignalValue)
        ensures
            r == property_signal(property_named(response.properties@, property_name@)),
    {
        let wanted: String = property_name.to_string();
        let properties = &response.properties;
        let mut i: usize = 0;
        assert(properties@.skip(0) =~= properties@);
        while i < properties.len()
            invariant
                i <= properties@.len(),
                properties@ == response.properties@,
                wanted@ == property_name@,
                property_named(response.properties@, property_name@) == property_named(
                    properties@.skip(i as int),
                    property_name@,
                ),
            decreases properties@.len() - i,
        {
            if properties[i].name == wanted {
                return match &properties[i].value {
                    PropertyValue::Int(v) => SignalValue::Signed(*v),
                    PropertyValue::Float(v) => SignalValue::Double(*v),
                    PropertyValue::Timestamp(v) => SignalValue::Signed(*v),
                    PropertyValue::Bool(v) => SignalValue::Unsigned(
                        if *v {
                            1
                        } else {
                            0
                        },
                    ),
                    PropertyValue::String(_) => SignalValue::Unsigned(0),
                };
            }
            assert(properties@.skip(i as int).drop_first() =~= properties@.skip(i + 1));
            i += 1;
        }
        SignalValue::Unsigned(0)
    }

    /// Request for an edge state, with the count of one activity window where one is given.
    pub fn edge_state_field_request(
        edge_type: &str,
        src: NodeRef,
        dst: NodeRef,
        activity_window_secs: Option<u64>,
    ) -> (req: graph_proto::GetEdgeStateRequest)
        ensures
            req.edge_type_name@ == edge_type@,
            req.src == Some(crate::graph::node_ref_message(src)),
            req.dst == Some(crate::graph::node_ref_message(dst)),
            req.min_value is None,
            req.max_value is None,
            req.query_time_secs is None,
            req.activity_windows_secs@ == (match activity_window_secs {
                Some(w) => seq![w],
                None => Seq::empty(),
            }),
    {
        match activity_window_secs {
            Some(w) => {
                let windows: [u64; 1] = [w];
                let req = GraphClient::get_edge_state_request(
                    edge_type,
                    src,
                    dst,
                    None,
                    None,
                    None,
                    Some(windows.as_slice()),
                );
                assert(req.activity_windows_secs@ =~= seq![w]);
                req
            },
            None => GraphClient::get_edge_state_request(
                edge_type,
                src,
                dst,
                None,
                None,
                None,
                None,
            ),
        }
    }

    /// A field of an edge state as a signal; zero where there is no such edge. Of the activity
    /// counts, the first.
    pub fn edge_state_field(
        reply: Result<graph_proto::GetEdgeStateResponse, tonic::Status>,
        field: EdgeStateField,
        now_secs: u64,
    ) -> (r: Result<SignalValue, ClientError>)
        ensures
            match reply {
                Err(s) => r == Err::<SignalValue, ClientError>(ClientError::Status(s)),
                Ok(m) => if m.found && m.payload is None {
                    r matches Err(e) && e.is_internal("missing payload"@)
                } else {
                    r == Ok::<SignalValue, ClientError>(edge_state_signal(m, field, now_secs))
                },
            },
    {
        match GraphClient::get_edge_state(reply) {
            Err(e) => Err(e),
            Ok(None) => Ok(SignalValue::Unsigned(0)),
            Ok(Some(s)) => Ok(
                match field {
                    EdgeStateField::TxCount => SignalValue::Unsigned(s.tx_count as u64),
                    EdgeStateField::ApproxSum => SignalValue::Single(s.approx_sum),
                    EdgeStateField::LastSeenSecs => SignalValue::Unsigned(
                        now_secs.saturating_sub(s.last_seen as u64),
                    ),
                    EdgeStateField::ActivityCount => SignalValue::Unsigned(
                        if s.activity_counts.len() == 0 {
                            0
                        } else {
                            s.activity_counts[0] as u64
                        },
                    ),
                },
            ),
        }
    }

    /// Request to record that a customer belongs to a segment, with this confidence. A
    /// confidence of zero records that the customer left the segment.
    pub fn upsert_segment_membership_request(
        customer: NodeRef,
        segment_node: NodeRef,
        confidence: Float32,
    ) -> (req: graph_proto::UpsertEdgeRequest)
        ensures
            req.edge_type_name@ == "MEMBER_OF"@,
            req.src == Some(crate::graph::node_ref_message(customer)),
            req.dst == Some(crate::graph::node_ref_message(segment_node)),
            req.numeric_value == Some(confidence),
            req.event_ts_secs is None,
            req.bool_property_value is None,
    {
        GraphClient::upsert_edge_request(
            "MEMBER_OF",
            customer,
            segment_node,
            Some(confidence),
            None,
            None,
        )
    }

    /// Read the reply to a request to record a membership.
    pub fn upsert_segment_membership(
        reply: Result<graph_proto::UpsertEdgeResponse, tonic::Status>,
    ) -> (r: Result<(), ClientError>)
        ensures
            match reply {
                Err(s) => r == Err::<(), ClientError>(ClientError::Status(s)),
                Ok(m) => match m.payload {
                    None => r matches Err(e) && e.is_internal("missing payload"@),
                    Some(_) => r is Ok,
                },
            },
    {
        match GraphClient::upsert_edge(reply) {
            Err(e) => Err(e),
            Ok(_) => Ok(()),
        }
    }
}

} // verus!
