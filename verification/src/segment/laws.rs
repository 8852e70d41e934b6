//! What segment evaluation promises of its signals and of its listings, field by field.

use vstd::prelude::*;

use crate::error::ClientError;
use crate::features::{features_proto, node_ref_to_proto, EdgeTypeFeatures};
use crate::float::Float32;
use crate::graph::{graph_proto, GraphClient, NodeResponse};
use crate::segment::sweep::{CustomerSweep, SweepStep};
use crate::segment::walk::{MemberEdge, MembershipWalk, WalkStep, WalkView};
use crate::segment::{
    peak_bin, segment_name_from_edge, EvalContextData, SegmentClient, SignalValue,
};
use crate::types::{
    EdgeStateField, HistogramField, NeighborEdge, NodeRef, PropertyEntry, PropertyValue,
    SegmentMember, SegmentMembership,
};

verus! {

proof fn lemma_first_features(fs: Seq<EdgeTypeFeatures>, name: Seq<char>, i: int)
    requires
        0 <= i <= fs.len(),
        forall|j: int| 0 <= j < i ==> (#[trigger] fs[j]).edge_type_name@ != name,
        i < fs.len() ==> fs[i].edge_type_name@ == name,
    ensures
        i < fs.len() ==> crate::segment::features_named(fs, name) == Some(fs[i]),
        i == fs.len() ==> crate::segment::features_named(fs, name) is None,
    decreases fs.len(),
{
    if fs.len() > 0 && i > 0 {
        assert(fs[0].edge_type_name@ != name);
        lemma_first_features(fs.drop_first(), name, i - 1);
    }
}

/// The signals of an edge type are those of the first entry that bears its name, entry `i`; where
/// no entry does, they are zero.
pub proof fn law_signals_come_from_the_first_entry(
    c: EvalContextData,
    edge_type: &str,
    i: int,
    tx_count: u32,
    approx_sum: Float32,
    neighbors: u64,
)
    requires
        call_ensures(EvalContextData::total_tx_count, (&c, edge_type), tx_count),
        call_ensures(EvalContextData::total_approx_sum, (&c, edge_type), approx_sum),
        call_ensures(EvalContextData::neighbor_count, (&c, edge_type), neighbors),
        0 <= i <= c.feature_vector.edge_features@.len(),
        forall|j: int|
            0 <= j < i ==> (#[trigger] c.feature_vector.edge_features@[j]).edge_type_name@
                != edge_type@,
        i < c.feature_vector.edge_features@.len() ==> c.feature_vector.edge_features@[i]
            .edge_type_name@ == edge_type@,
    ensures
        i < c.feature_vector.edge_features@.len() ==> {
            let f = c.feature_vector.edge_features@[i];
            &&& tx_count == f.total_tx_count
            &&& approx_sum == f.total_approx_sum
            &&& neighbors == f.neighbor_count
        },
        i == c.feature_vector.edge_features@.len() ==> tx_count == 0 && approx_sum.bits == 0
            && neighbors == 0,
{
    lemma_first_features(c.feature_vector.edge_features@, edge_type@, i);
}

/// The signals of the node itself are those of the cached vector.
pub proof fn law_node_signals_come_from_the_vector(
    c: EvalContextData,
    count: u32,
    max: Float32,
    direct: Float32,
)
    requires
        call_ensures(EvalContextData::fraudulent_neighbor_count, (&c,), count),
        call_ensures(EvalContextData::max_neighbor_fraud_score, (&c,), max),
        call_ensures(EvalContextData::direct_fraud_score, (&c,), direct),
    ensures
        count == c.feature_vector.fraudulent_neighbor_count,
        max == c.feature_vector.max_neighbor_fraud_score,
        direct == c.feature_vector.direct_fraud_score,
{
}

/// The signals of a customer are asked for like a feature vector without nodes to check, and
/// kept as the reply has them. A refusal is handed on.
pub proof fn law_prefetch_keeps_the_vector(
    node: NodeRef,
    edge_types: &[&str],
    hours: u32,
    days: u32,
    req: features_proto::NodeFeatureVectorRequest,
    named: features_proto::NodeRef,
    reply: Result<features_proto::NodeFeatureVector, tonic::Status>,
    r: Result<EvalContextData, ClientError>,
    i: int,
)
    requires
        call_ensures(
            SegmentClient::prefetch_eval_context_request,
            (node, edge_types, hours, days),
            req,
        ),
        call_ensures(node_ref_to_proto, (&node,), named),
        call_ensures(SegmentClient::prefetch_eval_context, (reply,), r),
    ensures
        req.node == Some(named),
        req.edge_types@.len() == edge_types@.len(),
        0 <= i < edge_types@.len() ==> req.edge_types@[i]@ == edge_types@[i]@,
        req.histogram_window_hours == hours,
        req.histogram_window_days == days,
        req.nodes_to_check_fraud@.len() == 0,
        reply matches Err(s) ==> r matches Err(ClientError::Status(t)) && t == s,
        reply matches Ok(m) ==> {
            &&& r matches Ok(c)
            &&& c.node_id == m.node_id
            &&& c.feature_vector.node_id == m.node_id
            &&& c.feature_vector.direct_fraud_score == m.direct_fraud_score
            &&& c.feature_vector.fraudulent_neighbor_count == m.fraudulent_neighbor_count
            &&& c.feature_vector.max_neighbor_fraud_score == m.max_neighbor_fraud_score
            &&& c.feature_vector.edge_features@.len() == m.edge_features@.len()
            &&& 0 <= i < m.edge_features@.len() ==> {
                let (e, f) = (m.edge_features@[i], c.feature_vector.edge_features@[i]);
                &&& f.edge_type_name == e.edge_type_name
                &&& f.neighbor_count == e.neighbor_count
                &&& f.activity_bitmap_union == e.activity_bitmap_union
                &&& f.total_approx_sum == e.total_approx_sum
                &&& f.total_tx_count == e.total_tx_count
            }
        },
{
    crate::text::lemma_same_names(req.edge_types@, edge_types@);
}

/// The latest interaction is asked for of the node and the edge type, leaving no one out. From
/// the same reply come its time, and the seconds from then to now: their sum is now, unless the
/// time lies ahead. Without an interaction there are no seconds, and the time is the largest
/// number. A refusal is handed on.
pub proof fn law_latest_interaction(
    node: NodeRef,
    edge_type: &str,
    req: graph_proto::LastNeighborQuery,
    named: graph_proto::NodeRef,
    reply: Result<graph_proto::LastNeighborResponse, tonic::Status>,
    now: u64,
    since: Result<Option<u64>, ClientError>,
    at: Result<u32, ClientError>,
)
    requires
        call_ensures(SegmentClient::last_neighbor_request, (node, edge_type), req),
        call_ensures(GraphClient::node_ref_to_proto, (&node,), named),
        call_ensures(SegmentClient::days_since_last_neighbor, (reply, now), since),
        call_ensures(SegmentClient::last_seen_secs, (reply,), at),
    ensures
        req.node == Some(named),
        req.edge_type@ == edge_type@,
        req.exclude_neighbor is None,
        reply matches Err(s) ==> since matches Err(ClientError::Status(t)) && t == s,
        reply matches Err(s) ==> at matches Err(ClientError::Status(t)) && t == s,
        reply matches Ok(m) ==> {
            &&& since is Ok
            &&& at is Ok
            &&& !m.found ==> since->Ok_0 is None && at->Ok_0 == u32::MAX
            &&& m.found ==> since->Ok_0 is Some && at->Ok_0 == m.last_seen_secs
            &&& m.found && now >= m.last_seen_secs ==> since->Ok_0->0 + at->Ok_0 == now
            &&& m.found && now < m.last_seen_secs ==> since->Ok_0->0 == 0
        },
{
}

/// The neighbor count is that of the reply; a refusal is handed on.
pub proof fn law_neighbor_count_is_that_of_the_reply(
    reply: Result<graph_proto::CountResponse, tonic::Status>,
    r: Result<u64, ClientError>,
)
    requires
        call_ensures(SegmentClient::neighbor_count, (reply,), r),
    ensures
        reply matches Err(s) ==> r matches Err(ClientError::Status(t)) && t == s,
        reply matches Ok(m) ==> r matches Ok(n) && n == m.count,
{
}

/// The peak is a bin that no bin exceeds, and the last such bin.
pub proof fn law_peak_is_the_last_highest_bin(counts: &[u32], r: usize, j: int)
    requires
        call_ensures(peak_bin, (counts,), r),
        0 <= j < counts@.len(),
    ensures
        r < counts@.len(),
        counts@[j] <= counts@[r as int],
        j > r ==> counts@[j] < counts@[r as int],
{
}

/// Of a histogram, the events are those of the reply, and the peak is a bin that no bin exceeds,
/// the last such, or zero without bins, whatever the midpoints. A refusal is handed on.
pub proof fn law_histogram_events_and_peak(
    reply: Result<features_proto::NodeHistogramResponse, tonic::Status>,
    midpoints: &[i64],
    events: Result<i128, ClientError>,
    peak: Result<i128, ClientError>,
    sum: Result<i128, ClientError>,
    j: int,
)
    requires
        call_ensures(
            SegmentClient::histogram_field,
            (reply, midpoints, HistogramField::TotalEvents),
            events,
        ),
        call_ensures(
            SegmentClient::histogram_field,
            (reply, midpoints, HistogramField::PeakBin),
            peak,
        ),
        call_ensures(
            SegmentClient::histogram_field,
            (reply, midpoints, HistogramField::TotalApproxSum),
            sum,
        ),
    ensures
        reply matches Err(s) ==> events matches Err(ClientError::Status(t)) && t == s,
        reply matches Err(s) ==> peak matches Err(ClientError::Status(t)) && t == s,
        reply matches Err(s) ==> sum matches Err(ClientError::Status(t)) && t == s,
        reply matches Ok(m) ==> {
            &&& events is Ok
            &&& events->Ok_0 == m.total_events
            &&& peak is Ok
            &&& m.totals is None ==> peak->Ok_0 == 0
            &&& m.totals matches Some(t) ==> {
                &&& t.counts@.len() == 0 ==> peak->Ok_0 == 0
                &&& t.counts@.len() > 0 ==> 0 <= peak->Ok_0 < t.counts@.len()
                &&& 0 <= j < t.counts@.len() ==> t.counts@[j] <= t.counts@[peak->Ok_0 as int]
                &&& peak->Ok_0 < j < t.counts@.len() ==> t.counts@[j]
                    < t.counts@[peak->Ok_0 as int]
            }
        },
{
}

/// One more bin adds its count times its midpoint to the weighted sum of a histogram.
pub proof fn law_each_bin_adds_its_weight(
    m: features_proto::NodeHistogramResponse,
    with_one_more: features_proto::NodeHistogramResponse,
    count: u32,
    midpoints: &[i64],
    sum: Result<i128, ClientError>,
    with_one_more_sum: Result<i128, ClientError>,
)
    requires
        m.totals is Some,
        with_one_more.totals is Some,
        with_one_more.totals->0.counts@ == m.totals->0.counts@.push(count),
        m.totals->0.counts@.len() < midpoints@.len(),
        m.totals->0.counts@.len() < u32::MAX,
        call_ensures(
            SegmentClient::histogram_field,
            (
                Ok::<features_proto::NodeHistogramResponse, tonic::Status>(m),
                midpoints,
                HistogramField::TotalApproxSum,
            ),
            sum,
        ),
        call_ensures(
            SegmentClient::histogram_field,
            (
                Ok::<features_proto::NodeHistogramResponse, tonic::Status>(with_one_more),
                midpoints,
                HistogramField::TotalApproxSum,
            ),
            with_one_more_sum,
        ),
    ensures
        sum is Ok,
        with_one_more_sum is Ok,
        with_one_more_sum->Ok_0 == sum->Ok_0 + count * midpoints@[m.totals->0.counts@.len() as int],
{
    assert(with_one_more.totals->0.counts@.drop_last() =~= m.totals->0.counts@);
}

/// The weighted sum of no bins is zero, whatever the midpoints; and there is none, but an error
/// that says so, where a bin has no midpoint.
pub proof fn law_weighted_sum_of_no_bins(
    m: features_proto::NodeHistogramResponse,
    midpoints: &[i64],
    sum: Result<i128, ClientError>,
)
    requires
        call_ensures(
            SegmentClient::histogram_field,
            (
                Ok::<features_proto::NodeHistogramResponse, tonic::Status>(m),
                midpoints,
                HistogramField::TotalApproxSum,
            ),
            sum,
        ),
    ensures
        m.totals is None ==> sum is Ok && sum->Ok_0 == 0,
        m.totals matches Some(t) ==> {
            &&& t.counts@.len() == 0 ==> sum is Ok && sum->Ok_0 == 0
            &&& midpoints@.len() < t.counts@.len() ==> {
                &&& sum matches Err(ClientError::Internal(e))
                &&& e@ == "missing bin midpoint"@
            }
        },
{
}

proof fn lemma_first_property(ps: Seq<PropertyEntry>, name: Seq<char>, i: int)
    requires
        0 <= i <= ps.len(),
        forall|j: int| 0 <= j < i ==> (#[trigger] ps[j]).name@ != name,
        i < ps.len() ==> ps[i].name@ == name,
    ensures
        i < ps.len() ==> crate::segment::property_named(ps, name) == Some(ps[i].value),
        i == ps.len() ==> crate::segment::property_named(ps, name) is None,
    decreases ps.len(),
{
    if ps.len() > 0 && i > 0 {
        assert(ps[0].name@ != name);
        lemma_first_property(ps.drop_first(), name, i - 1);
    }
}

/// The signal of a property is the value of the first property of that name, property `i`: a
/// number or a time as it is, a flag as one or zero, a text as zero; where no property has the
/// name, it is zero.
pub proof fn law_property_signal_is_the_first_of_that_name(
    n: NodeResponse,
    name: &str,
    i: int,
    r: SignalValue,
)
    requires
        call_ensures(SegmentClient::node_property_f64, (&n, name), r),
        0 <= i <= n.properties@.len(),
        forall|j: int| 0 <= j < i ==> (#[trigger] n.properties@[j]).name@ != name@,
        i < n.properties@.len() ==> n.properties@[i].name@ == name@,
    ensures
        i == n.properties@.len() ==> r == SignalValue::Unsigned(0),
        i < n.properties@.len() ==> {
            let value = n.properties@[i].value;
            &&& value matches PropertyValue::Int(v) ==> r == SignalValue::Signed(v)
            &&& value matches PropertyValue::Timestamp(v) ==> r == SignalValue::Signed(v)
            &&& value matches PropertyValue::Float(v) ==> r == SignalValue::Double(v)
            &&& value == PropertyValue::Bool(true) ==> r == SignalValue::Unsigned(1)
            &&& value == PropertyValue::Bool(false) ==> r == SignalValue::Unsigned(0)
            &&& value is String ==> r == SignalValue::Unsigned(0)
        },
{
    lemma_first_property(n.properties@, name@, i);
}

/// A signal of an edge is asked for of the edge from the source to the destination, without a
/// value filter, and with the one window that the caller gave or none.
pub proof fn law_edge_signal_asks_for_what_was_given(
    edge_type: &str,
    src: NodeRef,
    dst: NodeRef,
    window: Option<u64>,
    req: graph_proto::GetEdgeStateRequest,
    from: graph_proto::NodeRef,
    to: graph_proto::NodeRef,
)
    requires
        call_ensures(
            SegmentClient::edge_state_field_request,
            (edge_type, src, dst, window),
            req,
        ),
        call_ensures(GraphClient::node_ref_to_proto, (&src,), from),
        call_ensures(GraphClient::node_ref_to_proto, (&dst,), to),
    ensures
        req.edge_type_name@ == edge_type@,
        req.src == Some(from),
        req.dst == Some(to),
        req.min_value is None,
        req.max_value is None,
        req.query_time_secs is None,
        window is None ==> req.activity_windows_secs@.len() == 0,
        window matches Some(w) ==> req.activity_windows_secs@.len() == 1
            && req.activity_windows_secs@[0] == w,
{
}

/// The signals of an edge that was found are those of its payload, the seconds since it was last
/// seen, and the first of its activity counts, be it the only one or not; zero where there is no
/// count. Of an edge that was not found every signal is zero. A found edge without a payload is
/// an error, and a refusal is handed on.
pub proof fn law_edge_signals_are_those_of_the_reply(
    reply: Result<graph_proto::GetEdgeStateResponse, tonic::Status>,
    field: EdgeStateField,
    now: u64,
    r: Result<SignalValue, ClientError>,
)
    requires
        call_ensures(SegmentClient::edge_state_field, (reply, field, now), r),
    ensures
        reply matches Err(s) ==> r matches Err(ClientError::Status(t)) && t == s,
        reply matches Ok(m) ==> {
            &&& !m.found ==> r is Ok && r->Ok_0 == SignalValue::Unsigned(0)
            &&& (m.found && m.payload is None) ==> {
                &&& r matches Err(ClientError::Internal(t))
                &&& t@ == "missing payload"@
            }
            &&& (m.found && m.payload is Some) ==> {
                let p = m.payload->0;
                let counts = m.activity_counts@;
                &&& r is Ok
                &&& field is TxCount ==> r->Ok_0 == SignalValue::Unsigned(p.tx_count as u64)
                &&& field is ApproxSum ==> r->Ok_0 == SignalValue::Single(p.approx_sum)
                &&& field is LastSeenSecs && now >= p.last_seen ==> {
                    &&& r->Ok_0 is Unsigned
                    &&& r->Ok_0->Unsigned_0 + p.last_seen == now
                }
                &&& field is LastSeenSecs && now < p.last_seen ==> r->Ok_0
                    == SignalValue::Unsigned(0)
                &&& field is ActivityCount && counts.len() > 0 ==> r->Ok_0
                    == SignalValue::Unsigned(counts[0] as u64)
                &&& field is ActivityCount && counts.len() == 0 ==> r->Ok_0
                    == SignalValue::Unsigned(0)
            }
        },
{
}

/// A membership is recorded on the edge from the customer to the segment, with the confidence
/// that the caller gave; it succeeds exactly where the reply has a payload.
pub proof fn law_membership_is_recorded(
    customer: NodeRef,
    segment: NodeRef,
    confidence: Float32,
    req: graph_proto::UpsertEdgeRequest,
    from: graph_proto::NodeRef,
    to: graph_proto::NodeRef,
    reply: Result<graph_proto::UpsertEdgeResponse, tonic::Status>,
    r: Result<(), ClientError>,
)
    requires
        call_ensures(
            SegmentClient::upsert_segment_membership_request,
            (customer, segment, confidence),
            req,
        ),
        call_ensures(GraphClient::node_ref_to_proto, (&customer,), from),
        call_ensures(GraphClient::node_ref_to_proto, (&segment,), to),
        call_ensures(SegmentClient::upsert_segment_membership, (reply,), r),
    ensures
        req.edge_type_name@ == "MEMBER_OF"@,
        req.src == Some(from),
        req.dst == Some(to),
        req.numeric_value == Some(confidence),
        req.event_ts_secs is None,
        req.bool_property_value is None,
        reply matches Err(s) ==> r matches Err(ClientError::Status(t)) && t == s,
        reply matches Ok(m) ==> {
            &&& m.payload is Some ==> r is Ok
            &&& m.payload is None ==> {
                &&& r matches Err(ClientError::Internal(t))
                &&& t@ == "missing payload"@
            }
        },
{
}

/// A segment is named by the external id of its node, or where it has none by the numeral of its
/// node id.
pub proof fn law_segment_is_named_by_its_id(edge: NeighborEdge, r: String, numeral: String)
    requires
        call_ensures(segment_name_from_edge, (&edge,), r),
        call_ensures(crate::text::decimal_text, (edge.neighbor_node_id,), numeral),
    ensures
        edge.neighbor_external_id matches Some(id) ==> r@ == id@,
        edge.neighbor_external_id is None ==> r@ == numeral@,
{
}

/// The segments of a customer are listed from the start, along the edges that lead away from the
/// customer, a thousand to a page, with the names of the segments.
pub proof fn law_listing_of_segments_starts(
    customer: NodeRef,
    r: (MembershipWalk, graph_proto::NeighborQuery),
    named: graph_proto::NodeRef,
)
    requires
        call_ensures(SegmentClient::get_customer_segments, (customer,), r),
        call_ensures(GraphClient::node_ref_to_proto, (&customer,), named),
    ensures
        r.1.node == Some(named),
        r.1.edge_type@ == "MEMBER_OF"@,
        r.1.out_neighbors,
        r.1.filter is None,
        r.1.limit == 1000,
        r.1.cursor == 0,
        r.1.neighbor_filters@.len() == 0,
        r.1.include_neighbor_props,
        r.0@.node == customer,
        r.0@.outward,
        r.0@.all_pages,
        r.0@.limit == 1000,
        r.0@.pending.len() == 0,
        r.0@.next_page == Some(0u64),
        r.0@.found.len() == 0,
{
}

/// The members of a segment are listed from the cursor on, along the edges that lead to the
/// segment, one page of the size that the caller gave.
pub proof fn law_listing_of_members_starts(
    segment: NodeRef,
    limit: u32,
    cursor: u64,
    r: (MembershipWalk, graph_proto::NeighborQuery),
    named: graph_proto::NodeRef,
)
    requires
        call_ensures(SegmentClient::get_segment_members, (segment, limit, cursor), r),
        call_ensures(GraphClient::node_ref_to_proto, (&segment,), named),
    ensures
        r.1.node == Some(named),
        r.1.edge_type@ == "MEMBER_OF"@,
        !r.1.out_neighbors,
        r.1.filter is None,
        r.1.limit == limit,
        r.1.cursor == cursor,
        r.1.neighbor_filters@.len() == 0,
        !r.1.include_neighbor_props,
        r.0@.node == segment,
        !r.0@.outward,
        !r.0@.all_pages,
        r.0@.limit == limit,
        r.0@.pending.len() == 0,
        r.0@.next_page == Some(cursor),
        r.0@.found.len() == 0,
{
}

/// What a walk asks for next: while edges are pending, the state of the first of them, from the
/// customer to the segment; then the page at its cursor, if there is one; then nothing.
pub proof fn law_walk_asks_in_order(
    v: WalkView,
    step: WalkStep,
    here: graph_proto::NodeRef,
    there: graph_proto::NodeRef,
)
    requires
        v.is_next(step),
        call_ensures(GraphClient::node_ref_to_proto, (&v.node,), here),
        v.pending.len() > 0 ==> call_ensures(
            GraphClient::node_ref_to_proto,
            (&NodeRef::NodeId(v.pending[0].neighbor_node_id),),
            there,
        ),
    ensures
        v.pending.len() > 0 ==> {
            &&& step matches WalkStep::ReadEdgeState(req)
            &&& req.edge_type_name@ == "MEMBER_OF"@
            &&& v.outward ==> req.src == Some(here) && req.dst == Some(there)
            &&& !v.outward ==> req.src == Some(there) && req.dst == Some(here)
            &&& req.min_value is None
            &&& req.max_value is None
            &&& req.query_time_secs is None
            &&& req.activity_windows_secs@.len() == 0
        },
        v.pending.len() == 0 && v.next_page is None ==> step is Done,
        v.pending.len() == 0 && v.next_page is Some ==> {
            &&& step matches WalkStep::ReadNeighbors(req)
            &&& req.node == Some(here)
            &&& req.edge_type@ == "MEMBER_OF"@
            &&& req.out_neighbors == v.outward
            &&& req.filter is None
            &&& req.limit == v.limit
            &&& req.cursor == v.next_page->0
            &&& req.neighbor_filters@.len() == 0
            &&& req.include_neighbor_props == v.outward
        },
{
}

/// A page that a walk awaits makes its edges the pending ones, each with the id and the external
/// id of its neighbor, in order. The walk goes on after the last of them exactly where it takes
/// all pages, has a limit, and is told that more follow. Where it then cannot go on from that
/// edge, it begins again without a limit. A refusal is handed on and changes nothing.
pub proof fn law_walk_takes_in_a_page(
    w: &mut MembershipWalk,
    reply: Result<graph_proto::NeighborList, tonic::Status>,
    r: Result<WalkStep, ClientError>,
    i: int,
)
    requires
        call_ensures(MembershipWalk::on_neighbors, (w, reply), r),
        old(w)@.pending.len() == 0,
        old(w)@.next_page is Some,
    ensures
        reply matches Err(s) ==> {
            &&& r matches Err(ClientError::Status(t))
            &&& t == s
            &&& final(w)@ == old(w)@
        },
        reply matches Ok(m) ==> {
            let goes_on = old(w)@.all_pages && m.has_more && old(w)@.limit > 0;
            let stuck = m.edges@.len() == 0 || m.edges@.last().neighbor_node_id == 0
                || m.edges@.last().neighbor_node_id == old(w)@.next_page->0;
            let (v, u) = (old(w)@, final(w)@);
            &&& r is Ok && u.is_next(r->Ok_0)
            &&& u.node == v.node && u.outward == v.outward && u.all_pages == v.all_pages
            &&& goes_on && stuck ==> u.limit == 0 && u.pending.len() == 0 && u.next_page == Some(
                0u64,
            ) && u.found.len() == 0
            &&& !(goes_on && stuck) ==> {
                &&& u.limit == v.limit
                &&& u.has_more == m.has_more
                &&& u.found == v.found
                &&& u.pending.len() == m.edges@.len()
                &&& 0 <= i < m.edges@.len() ==> u.pending[i].neighbor_node_id
                    == m.edges@[i].neighbor_node_id && u.pending[i].external_id
                    == m.edges@[i].neighbor_external_id
                &&& goes_on ==> u.next_page == Some(m.edges@.last().neighbor_node_id)
                &&& !goes_on ==> u.next_page is None
            }
        },
{
}

/// The state of the first pending edge takes that edge off the pending ones, and adds to what was
/// found exactly where the edge is there with a confidence above zero: the node at its far end,
/// with the confidence and the time of that state.
pub proof fn law_walk_takes_in_a_state(
    w: &mut MembershipWalk,
    reply: Result<graph_proto::GetEdgeStateResponse, tonic::Status>,
    r: Result<WalkStep, ClientError>,
    i: int,
)
    requires
        call_ensures(MembershipWalk::on_edge_state, (w, reply), r),
        old(w)@.pending.len() > 0,
    ensures
        reply matches Err(s) ==> {
            &&& r matches Err(ClientError::Status(t))
            &&& t == s
            &&& final(w)@ == old(w)@
        },
        reply matches Ok(m) ==> {
            let (v, u) = (old(w)@, final(w)@);
            let edge = old(w)@.pending[0];
            let member = m.found && m.payload is Some && 0 < m.payload->0.approx_sum.bits
                <= 0x7f80_0000;
            &&& (m.found && m.payload is None) ==> {
                &&& r matches Err(ClientError::Internal(t))
                &&& t@ == "missing payload"@
                &&& u == v
            }
            &&& !(m.found && m.payload is None) ==> {
                &&& r is Ok && u.is_next(r->Ok_0)
                &&& u.node == v.node && u.outward == v.outward && u.all_pages == v.all_pages
                &&& u.limit == v.limit && u.next_page == v.next_page && u.has_more == v.has_more
                &&& u.pending.len() == v.pending.len() - 1
                &&& 0 <= i < u.pending.len() ==> u.pending[i] == v.pending[i + 1]
                &&& !member ==> u.found == v.found
                &&& member ==> {
                    &&& u.found.len() == v.found.len() + 1
                    &&& 0 <= i < v.found.len() ==> u.found[i] == v.found[i]
                    &&& u.found.last().customer_node_id == edge.neighbor_node_id
                    &&& u.found.last().external_id == edge.external_id
                    &&& u.found.last().confidence == m.payload->0.approx_sum
                    &&& u.found.last().last_seen_secs == m.payload->0.last_seen
                }
            }
        },
{
}

/// A page that a walk does not await changes nothing, and neither does the state of an edge where
/// none is pending.
pub proof fn law_walk_ignores_what_it_does_not_await(
    w: &mut MembershipWalk,
    page: graph_proto::NeighborList,
    state: graph_proto::GetEdgeStateResponse,
    r: Result<WalkStep, ClientError>,
)
    requires
        ({
            &&& call_ensures(
                MembershipWalk::on_neighbors,
                (w, Ok::<graph_proto::NeighborList, tonic::Status>(page)),
                r,
            )
            &&& old(w)@.pending.len() > 0 || old(w)@.next_page is None
        }) || ({
            &&& call_ensures(
                MembershipWalk::on_edge_state,
                (w, Ok::<graph_proto::GetEdgeStateResponse, tonic::Status>(state)),
                r,
            )
            &&& old(w)@.pending.len() == 0
            &&& state.found ==> state.payload is Some
        }),
    ensures
        final(w)@ == old(w)@,
        r is Ok,
        old(w)@.is_next(r->Ok_0),
{
}

/// Each segment that a walk found is given, in order, with its own id, confidence and time, under
/// its external id or, where it has none, the numeral of its id.
pub proof fn law_each_segment_found_is_given(
    w: MembershipWalk,
    r: Vec<SegmentMembership>,
    i: int,
    numeral: String,
)
    requires
        call_ensures(MembershipWalk::into_segments, (w,), r),
        0 <= i < w@.found.len() ==> call_ensures(
            crate::text::decimal_text,
            (w@.found[i].customer_node_id,),
            numeral,
        ),
    ensures
        r@.len() == w@.found.len(),
        0 <= i < w@.found.len() ==> {
            let (f, s) = (w@.found[i], r@[i]);
            &&& s.segment_node_id == f.customer_node_id
            &&& s.confidence == f.confidence
            &&& s.last_seen_secs == f.last_seen_secs
            &&& f.external_id matches Some(id) ==> s.segment_name@ == id@
            &&& f.external_id is None ==> s.segment_name@ == numeral@
        },
{
    if 0 <= i < w@.found.len() {
        let s = r@[i];
    }
}

/// Each member that a walk found is given, in order, and whether more follow.
pub proof fn law_each_member_found_is_given(
    w: MembershipWalk,
    r: (Vec<SegmentMember>, bool),
    i: int,
)
    requires
        call_ensures(MembershipWalk::into_members, (w,), r),
    ensures
        r.0@.len() == w@.found.len(),
        0 <= i < w@.found.len() ==> r.0@[i] == w@.found[i],
        r.1 == w@.has_more,
{
}

/// Where among some edges the listed ones stand, in order.
proof fn lemma_listed_positions(
    edges: Seq<MemberEdge>,
    states: Seq<graph_proto::GetEdgeStateResponse>,
) -> (at: Seq<int>)
    requires
        states.len() == edges.len(),
    ensures
        at.len() == crate::segment::walk::listed(edges, states).len(),
        forall|k: int|
            0 <= k < at.len() ==> {
                let f = crate::segment::walk::listed(edges, states)[k];
                &&& 0 <= #[trigger] at[k] < edges.len()
                &&& states[at[k]].found && states[at[k]].payload is Some
                &&& 0 < states[at[k]].payload->0.approx_sum.bits <= 0x7f80_0000
                &&& f.customer_node_id == edges[at[k]].neighbor_node_id
                &&& f.external_id == edges[at[k]].external_id
                &&& f.confidence == states[at[k]].payload->0.approx_sum
                &&& f.last_seen_secs == states[at[k]].payload->0.last_seen
            },
        forall|j: int, k: int| 0 <= j < k < at.len() ==> #[trigger] at[j] < #[trigger] at[k],
        forall|i: int|
            0 <= i < edges.len() && (#[trigger] states[i]).found && states[i].payload is Some && 0
                < states[i].payload->0.approx_sum.bits <= 0x7f80_0000 ==> at.contains(i),
    decreases edges.len(),
{
    if edges.len() == 0 {
        Seq::empty()
    } else {
        let (tail_edges, tail_states) = (edges.drop_first(), states.drop_first());
        let after = lemma_listed_positions(tail_edges, tail_states);
        let rest = crate::segment::walk::listed(tail_edges, tail_states);
        let all = crate::segment::walk::listed(edges, states);
        let first = states[0].found && states[0].payload is Some && 0
            < states[0].payload->0.approx_sum.bits <= 0x7f80_0000;
        let shift: int = if first {
            1
        } else {
            0
        };
        let at = Seq::new(
            (after.len() + shift) as nat,
            |k: int|
                if k < shift {
                    0
                } else {
                    after[k - shift] + 1
                },
        );
        assert(first == crate::segment::walk::holds(states[0]));
        assert(all.len() == rest.len() + shift);
        assert forall|k: int| 0 <= k < at.len() implies {
            let f = all[k];
            &&& 0 <= #[trigger] at[k] < edges.len()
            &&& states[at[k]].found && states[at[k]].payload is Some
            &&& 0 < states[at[k]].payload->0.approx_sum.bits <= 0x7f80_0000
            &&& f.customer_node_id == edges[at[k]].neighbor_node_id
            &&& f.external_id == edges[at[k]].external_id
            &&& f.confidence == states[at[k]].payload->0.approx_sum
            &&& f.last_seen_secs == states[at[k]].payload->0.last_seen
        } by {
            if k >= shift {
                let b = after[k - shift];
                assert(all[k] == rest[k - shift]);
                assert(tail_edges[b] == edges[b + 1]);
                assert(tail_states[b] == states[b + 1]);
            }
        }
        assert forall|j: int, k: int| 0 <= j < k < at.len() implies #[trigger] at[j]
            < #[trigger] at[k] by {
            if j >= shift {
                assert(after[j - shift] < after[k - shift]);
            } else {
                assert(0 <= after[k - shift]);
            }
        }
        assert forall|i: int|
            0 <= i < edges.len() && (#[trigger] states[i]).found && states[i].payload is Some && 0
                < states[i].payload->0.approx_sum.bits <= 0x7f80_0000 implies at.contains(i) by {
            if i == 0 {
                assert(at[0] == 0);
            } else {
                assert(tail_states[i - 1] == states[i]);
                assert(after.contains(i - 1));
                let k = choose|k: int| 0 <= k < after.len() && after[k] == i - 1;
                assert(at[k + shift] == i);
            }
        }
        at
    }
}

/// The segments of a customer, at the end of a walk before an engine with the edges `all`: `at`
/// says which edges are listed, in their order. They are exactly those whose state says that the
/// edge is there, with a confidence above zero; and segment `k` is the far end of edge `at[k]`,
/// with the confidence and the time of that very edge.
pub proof fn law_segments_are_those_of_the_edges(
    customer: NodeRef,
    start: (MembershipWalk, graph_proto::NeighborQuery),
    all: Seq<MemberEdge>,
    state_of: spec_fn(MemberEdge) -> graph_proto::GetEdgeStateResponse,
    w: MembershipWalk,
    r: Vec<SegmentMembership>,
)
    requires
        call_ensures(SegmentClient::get_customer_segments, (customer,), start),
        crate::segment::walk::can_be_paged(all),
        w@ == crate::segment::walk::walked(start.0@, all, state_of),
        call_ensures(MembershipWalk::into_segments, (w,), r),
    ensures
        exists|at: Seq<int>|
            {
                &&& #[trigger] at.len() == r@.len()
                &&& forall|k: int|
                    0 <= k < at.len() ==> {
                        let edge = all[at[k]];
                        &&& 0 <= #[trigger] at[k] < all.len()
                        &&& state_of(edge).found && state_of(edge).payload is Some
                        &&& 0 < state_of(edge).payload->0.approx_sum.bits <= 0x7f80_0000
                        &&& r@[k].segment_node_id == edge.neighbor_node_id
                        &&& r@[k].confidence == state_of(edge).payload->0.approx_sum
                        &&& r@[k].last_seen_secs == state_of(edge).payload->0.last_seen
                        &&& edge.external_id matches Some(id) ==> r@[k].segment_name@ == id@
                        &&& edge.external_id is None ==> crate::text::numeral_value(
                            r@[k].segment_name@,
                        ) == edge.neighbor_node_id
                    }
                &&& forall|j: int, k: int|
                    0 <= j < k < at.len() ==> #[trigger] at[j] < #[trigger] at[k]
                &&& forall|i: int|
                    0 <= i < all.len() && state_of(#[trigger] all[i]).found && state_of(
                        all[i],
                    ).payload is Some && 0 < state_of(all[i]).payload->0.approx_sum.bits
                        <= 0x7f80_0000 ==> at.contains(i)
            },
{
    let states = all.map_values(state_of);
    crate::segment::walk::law_walk_covers_all_pages(customer, true, 1000, all, state_of);
    let at = lemma_listed_positions(all, states);
    assert(w@.found == crate::segment::walk::listed(all, states));
    assert(at.len() == r@.len());
    assert forall|k: int| 0 <= k < at.len() implies {
        let edge = all[at[k]];
        &&& 0 <= #[trigger] at[k] < all.len()
        &&& state_of(edge).found && state_of(edge).payload is Some
        &&& 0 < state_of(edge).payload->0.approx_sum.bits <= 0x7f80_0000
        &&& r@[k].segment_node_id == edge.neighbor_node_id
        &&& r@[k].confidence == state_of(edge).payload->0.approx_sum
        &&& r@[k].last_seen_secs == state_of(edge).payload->0.last_seen
        &&& edge.external_id matches Some(id) ==> r@[k].segment_name@ == id@
        &&& edge.external_id is None ==> crate::text::numeral_value(r@[k].segment_name@)
            == edge.neighbor_node_id
    } by {
        assert(states[at[k]] == state_of(all[at[k]]));
        let s = r@[k];
        crate::text::lemma_numeral(all[at[k]].neighbor_node_id as nat);
    }
    assert forall|i: int|
        0 <= i < all.len() && state_of(#[trigger] all[i]).found && state_of(all[i]).payload is Some
            && 0 < state_of(all[i]).payload->0.approx_sum.bits <= 0x7f80_0000 implies at.contains(
        i,
    ) by {
        assert(states[i] == state_of(all[i]));
    }
}

/// The members on a page of a segment without a limit, before an engine with the edges `all`:
/// `at` says which edges are listed, in their order. They are exactly those whose state says
/// that the edge is there, with a confidence above zero; and member `k` is the far end of edge
/// `at[k]`, with the confidence and the time of that very edge.
pub proof fn law_members_are_those_of_the_edges(
    segment: NodeRef,
    start: (MembershipWalk, graph_proto::NeighborQuery),
    all: Seq<MemberEdge>,
    state_of: spec_fn(MemberEdge) -> graph_proto::GetEdgeStateResponse,
    w: MembershipWalk,
    r: (Vec<SegmentMember>, bool),
)
    requires
        call_ensures(SegmentClient::get_segment_members, (segment, 0u32, 0u64), start),
        crate::segment::walk::can_be_paged(all),
        w@ == crate::segment::walk::walked(start.0@, all, state_of),
        call_ensures(MembershipWalk::into_members, (w,), r),
    ensures
        !r.1,
        exists|at: Seq<int>|
            {
                &&& #[trigger] at.len() == r.0@.len()
                &&& forall|k: int|
                    0 <= k < at.len() ==> {
                        let edge = all[at[k]];
                        &&& 0 <= #[trigger] at[k] < all.len()
                        &&& state_of(edge).found && state_of(edge).payload is Some
                        &&& 0 < state_of(edge).payload->0.approx_sum.bits <= 0x7f80_0000
                        &&& r.0@[k].customer_node_id == edge.neighbor_node_id
                        &&& r.0@[k].external_id == edge.external_id
                        &&& r.0@[k].confidence == state_of(edge).payload->0.approx_sum
                        &&& r.0@[k].last_seen_secs == state_of(edge).payload->0.last_seen
                    }
                &&& forall|j: int, k: int|
                    0 <= j < k < at.len() ==> #[trigger] at[j] < #[trigger] at[k]
                &&& forall|i: int|
                    0 <= i < all.len() && state_of(#[trigger] all[i]).found && state_of(
                        all[i],
                    ).payload is Some && 0 < state_of(all[i]).payload->0.approx_sum.bits
                        <= 0x7f80_0000 ==> at.contains(i)
            },
{
    let states = all.map_values(state_of);
    crate::segment::walk::law_member_pages_add_up(segment, 0, 0, all, state_of);
    crate::segment::walk::lemma_page(start.0@, all, state_of);
    assert(all.skip(0) =~= all);
    let page = crate::segment::walk::after_whole_page(start.0@, all, state_of);
    assert(w@ == crate::segment::walk::walked(page, all, state_of));
    assert(w@ == page);
    let at = lemma_listed_positions(all, states);
    assert(w@.found == crate::segment::walk::listed(all, states));
    assert(at.len() == r.0@.len());
    assert forall|k: int| 0 <= k < at.len() implies {
        let edge = all[at[k]];
        &&& 0 <= #[trigger] at[k] < all.len()
        &&& state_of(edge).found && state_of(edge).payload is Some
        &&& 0 < state_of(edge).payload->0.approx_sum.bits <= 0x7f80_0000
        &&& r.0@[k].customer_node_id == edge.neighbor_node_id
        &&& r.0@[k].external_id == edge.external_id
        &&& r.0@[k].confidence == state_of(edge).payload->0.approx_sum
        &&& r.0@[k].last_seen_secs == state_of(edge).payload->0.last_seen
    } by {
        assert(states[at[k]] == state_of(all[at[k]]));
    }
    assert forall|i: int|
        0 <= i < all.len() && state_of(#[trigger] all[i]).found && state_of(all[i]).payload is Some
            && 0 < state_of(all[i]).payload->0.approx_sum.bits <= 0x7f80_0000 implies at.contains(
        i,
    ) by {
        assert(states[i] == state_of(all[i]));
    }
}

/// A sweep starts with the nodes of the type, whatever their external ids, up to the size of a
/// batch.
pub proof fn law_sweep_starts(
    node_type: &str,
    batch_size: u32,
    r: (CustomerSweep, graph_proto::ListNodesRequest),
)
    requires
        call_ensures(SegmentClient::list_all_customers, (node_type, batch_size), r),
    ensures
        r.1.node_type_filter@ == node_type@,
        r.1.external_id_filter@.len() == 0,
        r.1.limit == batch_size,
        r.0.spec_node_type() == node_type@,
        r.0.spec_batch_size() == batch_size,
        r.0.spec_limit() == batch_size,
{
}

/// A list that is full and holds fewer nodes than there are makes a sweep ask again, for one
/// batch more; any other list ends it, with the id of each listed node, in order. A refusal is
/// handed on.
pub proof fn law_sweep_takes_in_a_list(
    w: &mut CustomerSweep,
    reply: Result<graph_proto::ListNodesResponse, tonic::Status>,
    r: Result<SweepStep, ClientError>,
    i: int,
)
    requires
        call_ensures(CustomerSweep::on_nodes, (w, reply), r),
    ensures
        final(w).spec_node_type() == old(w).spec_node_type(),
        final(w).spec_batch_size() == old(w).spec_batch_size(),
        reply matches Err(s) ==> {
            &&& r matches Err(ClientError::Status(t))
            &&& t == s
            &&& final(w).spec_limit() == old(w).spec_limit()
        },
        reply matches Ok(m) ==> {
            let (limit, batch) = (old(w).spec_limit(), old(w).spec_batch_size());
            let again = limit <= m.nodes@.len() < m.total_count && batch > 0;
            &&& again ==> {
                &&& r matches Ok(SweepStep::ListNodes(req))
                &&& req.node_type_filter@ == old(w).spec_node_type()
                &&& req.external_id_filter@.len() == 0
                &&& limit + batch <= u32::MAX ==> req.limit == limit + batch
                &&& limit + batch > u32::MAX ==> req.limit == u32::MAX
                &&& final(w).spec_limit() == req.limit
            }
            &&& !again ==> {
                &&& r matches Ok(SweepStep::Done(ids))
                &&& ids@.len() == m.nodes@.len()
                &&& 0 <= i < m.nodes@.len() ==> ids@[i] == m.nodes@[i].node_id
            }
        },
{
}

/// A sweep ends with the id of every node of the type, each in its place.
pub proof fn law_sweep_gives_every_node(
    all: Seq<graph_proto::ListedNode>,
    batch_size: u32,
    i: int,
)
    requires
        batch_size > 0,
        all.len() <= u32::MAX,
    ensures
        crate::segment::sweep::swept(all, batch_size, batch_size).len() == all.len(),
        0 <= i < all.len() ==> crate::segment::sweep::swept(all, batch_size, batch_size)[i]
            == all[i].node_id,
{
    crate::segment::sweep::law_sweep_lists_all_nodes(all, batch_size, batch_size);
}

} // verus!
