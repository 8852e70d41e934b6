//! The walk over the membership edges of a customer or a segment.
//!
//! The engine lists the edges in pages and gives the confidence of an edge only with its
//! state, so a listing takes a call for each page and a call for each edge. A
//! `MembershipWalk` decides which call comes next and keeps what the replies tell.

use vstd::prelude::*;

use crate::error::ClientError;
use crate::graph::{graph_proto, GraphClient};
use crate::segment::SegmentClient;
use crate::text;
use crate::types::{NeighborEdge, NodeRef, SegmentMember, SegmentMembership};

verus! {

/// Edges in a page of a customer's memberships.
pub const SEGMENT_PAGE_SIZE: u32 = 1000;

/// The far end of a membership edge.
#[derive(Debug)]
pub struct MemberEdge {
    pub neighbor_node_id: u64,
    pub external_id: Option<String>,
}

/// The call that a walk needs next.
#[derive(Debug)]
pub enum WalkStep {
    /// Read a page of membership edges.
    ReadNeighbors(graph_proto::NeighborQuery),
    /// Read the state of a membership edge.
    ReadEdgeState(graph_proto::GetEdgeStateRequest),
    /// Nothing is left to read.
    Done,
}

/// What a walk is after, and what it knows.
pub struct WalkView {
    /// The node whose memberships are listed.
    pub node: NodeRef,
    /// The edges lead away from the node: it is a customer. Otherwise they lead to it: it is a
    /// segment.
    pub outward: bool,
    /// The walk goes on after the first page.
    pub all_pages: bool,
    /// The size of the pages that are asked for; zero is no limit.
    pub limit: u32,
    /// Edges of the current page whose state is not known yet.
    pub pending: Seq<MemberEdge>,
    /// The cursor of the page to read next, if one is to be read.
    pub next_page: Option<u64>,
    /// Edges follow after the current page.
    pub has_more: bool,
    /// The memberships found so far.
    pub found: Seq<SegmentMember>,
}

/// The far end of a membership edge that the engine listed.
pub open spec fn member_edge(m: graph_proto::NeighborEdge) -> MemberEdge {
    MemberEdge { neighbor_node_id: m.neighbor_node_id, external_id: m.neighbor_external_id }
}

/// The far ends of membership edges, in order.
pub open spec fn member_edges(ms: Seq<graph_proto::NeighborEdge>) -> Seq<MemberEdge> {
    ms.map_values(|m: graph_proto::NeighborEdge| member_edge(m))
}

/// A membership, from its edge and the state of that edge.
pub open spec fn member(edge: MemberEdge, p: graph_proto::EdgePayload) -> SegmentMember {
    SegmentMember {
        customer_node_id: edge.neighbor_node_id,
        external_id: edge.external_id,
        confidence: p.approx_sum,
        last_seen_secs: p.last_seen,
    }
}

/// The state says that the membership holds: the edge is there, with a confidence above zero.
pub open spec fn holds(m: graph_proto::GetEdgeStateResponse) -> bool {
    &&& m.found
    &&& m.payload matches Some(p)
    &&& p.approx_sum.above_zero()
}

/// The state is complete: where the edge was found there is a payload.
pub open spec fn is_complete(m: graph_proto::GetEdgeStateResponse) -> bool {
    m.found ==> m.payload is Some
}

/// A page names no place to go on from: it is empty, or its last edge leads to the node with id
/// zero, which as a cursor stands for the start, or to the very node after which the page was
/// to begin.
pub open spec fn cannot_resume(edges: Seq<MemberEdge>, cursor: u64) -> bool {
    edges.len() == 0 || edges.last().neighbor_node_id == 0 || edges.last().neighbor_node_id
        == cursor
}

impl WalkView {
    /// A walk that has read nothing yet.
    pub open spec fn start(
        node: NodeRef,
        outward: bool,
        all_pages: bool,
        limit: u32,
        cursor: u64,
    ) -> WalkView {
        WalkView {
            node,
            outward,
            all_pages,
            limit,
            pending: Seq::empty(),
            next_page: Some(cursor),
            has_more: false,
            found: Seq::empty(),
        }
    }

    /// The next call is for a page.
    pub open spec fn awaits_page(self) -> bool {
        self.pending.len() == 0 && self.next_page is Some
    }

    /// What is known after a page of edges. A walk over all pages goes on where edges follow;
    /// where it cannot go on from the page it begins again, and asks for all edges at once. A
    /// page without a limit is the last, whatever it says of edges that follow.
    pub open spec fn after_page(self, edges: Seq<MemberEdge>, has_more: bool) -> WalkView
        recommends
            self.awaits_page(),
    {
        let goes_on = self.all_pages && has_more && self.limit > 0;
        if goes_on && cannot_resume(edges, self.next_page->0) {
            WalkView::start(self.node, self.outward, self.all_pages, 0, 0)
        } else {
            WalkView {
                pending: edges,
                next_page: if goes_on {
                    Some(edges.last().neighbor_node_id)
                } else {
                    None
                },
                has_more,
                ..self
            }
        }
    }

    /// What is known after the state of the first pending edge.
    pub open spec fn after_state(self, m: graph_proto::GetEdgeStateResponse) -> WalkView
        recommends
            self.pending.len() > 0,
    {
        WalkView {
            pending: self.pending.drop_first(),
            found: if holds(m) {
                self.found.push(member(self.pending[0], m.payload->0))
            } else {
                self.found
            },
            ..self
        }
    }

    /// What is known after the states of as many pending edges, in order.
    pub open spec fn after_states(self, ms: Seq<graph_proto::GetEdgeStateResponse>) -> WalkView
        decreases ms.len(),
    {
        if ms.len() == 0 {
            self
        } else {
            self.after_state(ms[0]).after_states(ms.drop_first())
        }
    }

    /// The call that follows from what the walk knows: the state of the first pending edge; then
    /// the next page, where one is to be read; then nothing.
    pub open spec fn is_next(self, step: WalkStep) -> bool {
        if self.pending.len() > 0 {
            step matches WalkStep::ReadEdgeState(req) && is_state_request(
                self.node,
                self.outward,
                self.pending[0].neighbor_node_id,
                req,
            )
        } else {
            match self.next_page {
                Some(cursor) => step matches WalkStep::ReadNeighbors(req) && is_page_request(
                    self.node,
                    self.outward,
                    self.limit,
                    cursor,
                    self.outward,
                    req,
                ),
                None => step is Done,
            }
        }
    }
}

/// `req` asks for the state of the membership edge between the node of the walk and another.
pub open spec fn is_state_request(
    node: NodeRef,
    outward: bool,
    other: u64,
    req: graph_proto::GetEdgeStateRequest,
) -> bool {
    let here = Some(crate::graph::node_ref_message(node));
    let there = Some(crate::graph::node_ref_message(NodeRef::NodeId(other)));
    &&& req.edge_type_name@ == "MEMBER_OF"@
    &&& req.src == if outward {
        here
    } else {
        there
    }
    &&& req.dst == if outward {
        there
    } else {
        here
    }
    &&& req.min_value is None
    &&& req.max_value is None
    &&& req.query_time_secs is None
    &&& req.activity_windows_secs@.len() == 0
}

/// `req` asks for a page of the membership edges of a node.
pub open spec fn is_page_request(
    node: NodeRef,
    outward: bool,
    limit: u32,
    cursor: u64,
    include_props: bool,
    req: graph_proto::NeighborQuery,
) -> bool {
    &&& req.node == Some(crate::graph::node_ref_message(node))
    &&& req.edge_type@ == "MEMBER_OF"@
    &&& req.out_neighbors == outward
    &&& req.filter is None
    &&& req.limit == limit
    &&& req.cursor == cursor
    &&& req.neighbor_filters@.len() == 0
    &&& req.include_neighbor_props == include_props
}

/// A listing of memberships in progress.
pub struct MembershipWalk {
    node: NodeRef,
    outward: bool,
    limit: u32,
    all_pages: bool,
    /// The pending edges, the first of them at the end.
    rest: Vec<MemberEdge>,
    next_page: Option<u64>,
    has_more: bool,
    found: Vec<SegmentMember>,
}

impl View for MembershipWalk {
    type V = WalkView;

    closed spec fn view(&self) -> WalkView {
        WalkView {
            node: self.node,
            outward: self.outward,
            all_pages: self.all_pages,
            limit: self.limit,
            pending: self.rest@.reverse(),
            next_page: self.next_page,
            has_more: self.has_more,
            found: self.found@,
        }
    }
}

impl MembershipWalk {
    fn start(node: NodeRef, outward: bool, all_pages: bool, limit: u32, cursor: u64) -> (r: Self)
        ensures
            r@ == WalkView::start(node, outward, all_pages, limit, cursor),
    {
        let r = MembershipWalk {
            node,
            outward,
            limit,
            all_pages,
            rest: Vec::new(),
            next_page: Some(cursor),
            has_more: false,
            found: Vec::new(),
        };
        assert(r@.pending =~= Seq::empty());
        assert(r@.found =~= Seq::empty());
        r
    }

    fn page_request(&self, cursor: u64) -> (req: graph_proto::NeighborQuery)
        ensures
            is_page_request(
                self@.node,
                self@.outward,
                self@.limit,
                cursor,
                self@.outward,
                req,
            ),
    {
        GraphClient::get_neighbors_request(
            self.node.clone(),
            "MEMBER_OF",
            self.outward,
            self.limit,
            cursor,
            &[],
            self.outward,
        )
    }

    fn state_request(&self, other: u64) -> (req: graph_proto::GetEdgeStateRequest)
        ensures
            is_state_request(self@.node, self@.outward, other, req),
    {
        let here = self.node.clone();
        let there = NodeRef::node_id(other);
        let (src, dst) = if self.outward {
            (here, there)
        } else {
            (there, here)
        };
        GraphClient::get_edge_state_request("MEMBER_OF", src, dst, None, None, None, None)
    }

    fn next_step(&self) -> (step: WalkStep)
        ensures
            self@.is_next(step),
    {
        if self.rest.len() > 0 {
            let other: u64 = self.rest[self.rest.len() - 1].neighbor_node_id;
            return WalkStep::ReadEdgeState(self.state_request(other));
        }
        match self.next_page {
            Some(cursor) => WalkStep::ReadNeighbors(self.page_request(cursor)),
            None => WalkStep::Done,
        }
    }

    /// The far ends of neighbor edges, the last of them first.
    fn member_edges_reversed(edges: Vec<NeighborEdge>, Ghost(ms): Ghost<
        Seq<graph_proto::NeighborEdge>,
    >) -> (r: Vec<MemberEdge>)
        requires
            crate::graph::are_neighbor_edges(ms, edges@),
        ensures
            r@.reverse() == member_edges(ms),
    {
        let mut edges = edges;
        let mut r: Vec<MemberEdge> = Vec::new();
        let ghost all = edges@;
        loop
            invariant
                crate::graph::are_neighbor_edges(ms, all),
                edges@.len() <= all.len(),
                edges@ == all.take(edges@.len() as int),
                r@.len() == all.len() - edges@.len(),
                forall|i: int|
                    0 <= i < r@.len() ==> #[trigger] r@[i] == member_edge(ms[all.len() - 1 - i]),
            ensures
                edges@.len() == 0,
            decreases edges@.len(),
        {
            match edges.pop() {
                Some(e) => {
                    assert(e == all[edges@.len() as int]);
                    assert(crate::graph::is_neighbor_edge(ms[edges@.len() as int], e));
                    r.push(
                        MemberEdge {
                            neighbor_node_id: e.neighbor_node_id,
                            external_id: e.neighbor_external_id,
                        },
                    );
                },
                None => {
                    break;
                },
            }
        }
        assert(r@.reverse() =~= member_edges(ms));
        r
    }

    /// Take in a page of edges; where the next call is not for a page, the page is of no
    /// account. A refused call ends the walk and leaves it as it was.
    pub fn on_neighbors(&mut self, reply: Result<graph_proto::NeighborList, tonic::Status>) -> (r:
        Result<WalkStep, ClientError>)
        ensures
            match reply {
                Err(s) => {
                    &&& r == Err::<WalkStep, ClientError>(ClientError::Status(s))
                    &&& final(self)@ == old(self)@
                },
                Ok(m) => {
                    &&& final(self)@ == (if old(self)@.awaits_page() {
                        old(self)@.after_page(member_edges(m.edges@), m.has_more)
                    } else {
                        old(self)@
                    })
                    &&& r matches Ok(step) && final(self)@.is_next(step)
                },
            },
    {
        match GraphClient::get_neighbors(reply) {
            Err(e) => Err(e),
            Ok((edges, has_more)) => {
                if self.rest.len() == 0 {
                    if let Some(cursor) = self.next_page {
                        let rest = Self::member_edges_reversed(edges, Ghost(reply->Ok_0.edges@));
                        self.take_page(rest, has_more, cursor);
                    }
                }
                Ok(self.next_step())
            },
        }
    }

    fn take_page(&mut self, rest: Vec<MemberEdge>, has_more: bool, cursor: u64)
        requires
            old(self)@.next_page == Some(cursor),
        ensures
            final(self)@ == old(self)@.after_page(rest@.reverse(), has_more),
    {
        let goes_on: bool = self.all_pages && has_more && self.limit > 0;
        let last: u64 = if rest.len() == 0 {
            0
        } else {
            rest[0].neighbor_node_id
        };
        if goes_on && (last == 0 || last == cursor) {
            *self = Self::start(self.node.clone(), self.outward, true, 0, 0);
        } else {
            self.rest = rest;
            self.next_page = if goes_on {
                Some(last)
            } else {
                None
            };
            self.has_more = has_more;
        }
    }

    /// Take in the state of the first pending edge; where nothing is pending, the state is
    /// of no account. A refused call, or a state without its payload, ends the walk and leaves
    /// it as it was.
    pub fn on_edge_state(
        &mut self,
        reply: Result<graph_proto::GetEdgeStateResponse, tonic::Status>,
    ) -> (r: Result<WalkStep, ClientError>)
        ensures
            match reply {
                Err(s) => {
                    &&& r == Err::<WalkStep, ClientError>(ClientError::Status(s))
                    &&& final(self)@ == old(self)@
                },
                Ok(m) => if !is_complete(m) {
                    &&& r matches Err(e) && e.is_internal("missing payload"@)
                    &&& final(self)@ == old(self)@
                } else {
                    &&& final(self)@ == (if old(self)@.pending.len() > 0 {
                        old(self)@.after_state(m)
                    } else {
                        old(self)@
                    })
                    &&& r matches Ok(step) && final(self)@.is_next(step)
                },
            },
    {
        match GraphClient::get_edge_state(reply) {
            Err(e) => Err(e),
            Ok(state) => {
                if let Some(edge) = self.rest.pop() {
                    if let Some(s) = state {
                        if s.approx_sum.is_above_zero() {
                            self.found.push(
                                SegmentMember {
                                    customer_node_id: edge.neighbor_node_id,
                                    external_id: edge.external_id,
                                    confidence: s.approx_sum,
                                    last_seen_secs: s.last_seen,
                                },
                            );
                        }
                    }
                    assert(self@.pending =~= old(self)@.pending.drop_first());
                }
                Ok(self.next_step())
            },
        }
    }

    /// The segments found, each with its name.
    pub fn into_segments(self) -> (r: Vec<SegmentMembership>)
        ensures
            are_memberships(self@.found, r@),
    {
        let mut r: Vec<SegmentMembership> = Vec::new();
        let ghost all = self.found@;
        for m in it: self.found
            invariant
                it.seq() == all,
                are_memberships(all.take(it.index()), r@),
        {
            let segment_name = match m.external_id {
                Some(id) => id,
                None => text::decimal_text(m.customer_node_id),
            };
            r.push(
                SegmentMembership {
                    segment_name,
                    segment_node_id: m.customer_node_id,
                    confidence: m.confidence,
                    last_seen_secs: m.last_seen_secs,
                },
            );
        }
        assert(all.take(all.len() as int) =~= all);
        r
    }

    /// The members found, and whether more follow after the page.
    pub fn into_members(self) -> (r: (Vec<SegmentMember>, bool))
        ensures
            r.0@ == self@.found,
            r.1 == self@.has_more,
    {
        (self.found, self.has_more)
    }
}

impl SegmentClient {
    /// Start to list the segments that a customer belongs to: all of them, page by page, with
    /// the names of the segments.
    pub fn get_customer_segments(customer: NodeRef) -> (r: (
        MembershipWalk,
        graph_proto::NeighborQuery,
    ))
        ensures
            r.0@ == WalkView::start(customer, true, true, SEGMENT_PAGE_SIZE, 0),
            is_page_request(customer, true, SEGMENT_PAGE_SIZE, 0, true, r.1),
    {
        let walk = MembershipWalk::start(customer, true, true, SEGMENT_PAGE_SIZE, 0);
        let req = walk.page_request(0);
        (walk, req)
    }

    /// Start to list one page of the members of a segment.
    pub fn get_segment_members(segment_node: NodeRef, limit: u32, cursor: u64) -> (r: (
        MembershipWalk,
        graph_proto::NeighborQuery,
    ))
        ensures
            r.0@ == WalkView::start(segment_node, false, false, limit, cursor),
            is_page_request(segment_node, false, limit, cursor, false, r.1),
    {
        let walk = MembershipWalk::start(segment_node, false, false, limit, cursor);
        let req = walk.page_request(cursor);
        (walk, req)
    }
}

/// `s` is the membership of the segment at the far end of the edge of `m`.
pub open spec fn is_membership(m: SegmentMember, s: SegmentMembership) -> bool {
    &&& s.segment_name@ == crate::segment::segment_name(m.external_id, m.customer_node_id)
    &&& s.segment_node_id == m.customer_node_id
    &&& s.confidence == m.confidence
    &&& s.last_seen_secs == m.last_seen_secs
}

/// `ss` are the memberships of the segments at the far ends of the edges of `ms`, in order.
pub open spec fn are_memberships(ms: Seq<SegmentMember>, ss: Seq<SegmentMembership>) -> bool {
    &&& ss.len() == ms.len()
    &&& forall|i: int| 0 <= i < ms.len() ==> is_membership(ms[i], #[trigger] ss[i])
}

/// The memberships that hold, of edges with these states, in order.
pub open spec fn listed(
    edges: Seq<MemberEdge>,
    states: Seq<graph_proto::GetEdgeStateResponse>,
) -> Seq<SegmentMember>
    decreases edges.len(),
{
    if edges.len() == 0 || states.len() == 0 {
        Seq::empty()
    } else {
        let rest = listed(edges.drop_first(), states.drop_first());
        if holds(states[0]) {
            seq![member(edges[0], states[0].payload->0)] + rest
        } else {
            rest
        }
    }
}

/// Once the states of all pending edges are in, a walk has found what it had found before and
/// exactly the memberships of those edges that hold, in order; nothing is pending, and what it
/// knew of the page is as it was.
pub proof fn law_walk_lists_what_holds(
    v: WalkView,
    states: Seq<graph_proto::GetEdgeStateResponse>,
)
    requires
        states.len() == v.pending.len(),
    ensures
        v.after_states(states) == (WalkView {
            pending: Seq::empty(),
            found: v.found + listed(v.pending, states),
            ..v
        }),
    decreases states.len(),
{
    if states.len() == 0 {
        assert(v.pending =~= Seq::empty());
        assert(v.found + listed(v.pending, states) =~= v.found);
    } else {
        let w = v.after_state(states[0]);
        law_walk_lists_what_holds(w, states.drop_first());
        assert(v.found + listed(v.pending, states) =~= w.found + listed(
            w.pending,
            states.drop_first(),
        ));
    }
}

/// A walk over all pages never takes a page with a limit for the last where edges follow: it
/// has a page to read next.
pub proof fn law_walk_leaves_no_page_out(v: WalkView, edges: Seq<MemberEdge>)
    requires
        v.all_pages,
        v.limit > 0,
    ensures
        v.after_page(edges, true).next_page is Some,
{
}

/// A walk over all pages never asks twice in a row for the same page.
pub proof fn law_walk_moves_on(v: WalkView, edges: Seq<MemberEdge>, has_more: bool)
    requires
        v.all_pages,
        v.next_page is Some,
    ensures
        ({
            let after = v.after_page(edges, has_more);
            after.next_page is Some ==> after.next_page != v.next_page || after.limit < v.limit
        }),
{
}

/// Every listed membership is that of an edge whose state says that it holds, with a
/// confidence above zero; and every edge whose state says so is listed.
pub proof fn law_listed_are_those_that_hold(
    edges: Seq<MemberEdge>,
    states: Seq<graph_proto::GetEdgeStateResponse>,
)
    requires
        states.len() == edges.len(),
    ensures
        forall|k: int|
            #![trigger listed(edges, states)[k]]
            0 <= k < listed(edges, states).len() ==> {
                &&& listed(edges, states)[k].confidence.above_zero()
                &&& exists|i: int|
                    0 <= i < edges.len() && holds(#[trigger] states[i]) && listed(edges, states)[k]
                        == member(edges[i], states[i].payload->0)
            },
        forall|i: int|
            0 <= i < edges.len() && holds(#[trigger] states[i]) ==> listed(edges, states).contains(
                member(edges[i], states[i].payload->0),
            ),
    decreases edges.len(),
{
    if edges.len() > 0 {
        let all = listed(edges, states);
        let (tail_edges, tail_states) = (edges.drop_first(), states.drop_first());
        let rest = listed(tail_edges, tail_states);
        law_listed_are_those_that_hold(tail_edges, tail_states);
        let shift: int = if holds(states[0]) {
            1
        } else {
            0
        };
        assert(all.len() == rest.len() + shift);
        assert forall|k: int| 0 <= k < all.len() implies {
            &&& #[trigger] all[k].confidence.above_zero()
            &&& exists|i: int|
                0 <= i < edges.len() && holds(#[trigger] states[i]) && all[k] == member(
                    edges[i],
                    states[i].payload->0,
                )
        } by {
            if k < shift {
                assert(holds(states[0]));
                assert(all[k] == member(edges[0], states[0].payload->0));
            } else {
                assert(all[k] == rest[k - shift]);
                let i = choose|i: int|
                    0 <= i < tail_edges.len() && holds(#[trigger] tail_states[i]) && rest[k
                        - shift] == member(tail_edges[i], tail_states[i].payload->0);
                assert(holds(states[i + 1]));
                assert(edges[i + 1] == tail_edges[i]);
            }
        }
        assert forall|i: int| 0 <= i < edges.len() && holds(#[trigger] states[i]) implies
            all.contains(member(edges[i], states[i].payload->0)) by {
            if i == 0 {
                assert(all[0] == member(edges[0], states[0].payload->0));
            } else {
                assert(holds(tail_states[i - 1]));
                let x = member(tail_edges[i - 1], tail_states[i - 1].payload->0);
                assert(rest.contains(x));
                let k = choose|k: int| 0 <= k < rest.len() && rest[k] == x;
                assert(all[k + shift] == x);
            }
        }
    }
}

/// A membership is listed with the confidence that was recorded for it, and one recorded with
/// a confidence of zero is not listed: the customer has left the segment. The edge of a
/// membership keeps the value that was written last.
pub proof fn law_recorded_confidence_decides(
    recorded: graph_proto::UpsertEdgeRequest,
    confidence: crate::float::Float32,
    edge: MemberEdge,
    state: graph_proto::GetEdgeStateResponse,
)
    requires
        recorded.numeric_value == Some(confidence),
        state.found,
        state.payload matches Some(p) && Some(p.approx_sum) == recorded.numeric_value,
    ensures
        confidence.above_zero() ==> (listed(seq![edge], seq![state]).len() == 1 && listed(
            seq![edge],
            seq![state],
        )[0] == (SegmentMember {
            customer_node_id: edge.neighbor_node_id,
            external_id: edge.external_id,
            confidence,
            last_seen_secs: state.payload->0.last_seen,
        })),
        confidence.is_zero() ==> listed(seq![edge], seq![state]).len() == 0,
{
    assert(seq![edge].drop_first() =~= Seq::empty());
    assert(listed(seq![edge].drop_first(), seq![state].drop_first()).len() == 0);
}

proof fn lemma_listed_splits(
    edges: Seq<MemberEdge>,
    states: Seq<graph_proto::GetEdgeStateResponse>,
    n: int,
)
    requires
        states.len() == edges.len(),
        0 <= n <= edges.len(),
    ensures
        listed(edges, states) == listed(edges.take(n), states.take(n)) + listed(
            edges.skip(n),
            states.skip(n),
        ),
    decreases n,
{
    if n == 0 {
        assert(edges.skip(0) =~= edges);
        assert(states.skip(0) =~= states);
        assert(listed(edges.take(0), states.take(0)) =~= Seq::empty());
        assert(listed(edges, states) =~= Seq::<SegmentMember>::empty() + listed(edges, states));
    } else {
        lemma_listed_splits(edges.drop_first(), states.drop_first(), n - 1);
        assert(edges.take(n).drop_first() =~= edges.drop_first().take(n - 1));
        assert(states.take(n).drop_first() =~= states.drop_first().take(n - 1));
        assert(edges.drop_first().skip(n - 1) =~= edges.skip(n));
        assert(states.drop_first().skip(n - 1) =~= states.skip(n));
        assert(listed(edges, states) =~= listed(edges.take(n), states.take(n)) + listed(
            edges.skip(n),
            states.skip(n),
        ));
    }
}

/// The edges of a node can be paged by the ids of their far ends: no two edges lead to the same
/// node.
pub open spec fn can_be_paged(all: Seq<MemberEdge>) -> bool {
    forall|i: int, j: int|
        0 <= i < j < all.len() ==> (#[trigger] all[i]).neighbor_node_id != (
        #[trigger] all[j]).neighbor_node_id
}

/// The number of edges up to the one that leads to `cursor`; none where `cursor` is the start.
pub open spec fn edges_before(all: Seq<MemberEdge>, cursor: u64) -> nat
    decreases all.len(),
{
    if cursor == 0 || all.len() == 0 {
        0
    } else if all.last().neighbor_node_id == cursor {
        all.len()
    } else {
        edges_before(all.drop_last(), cursor)
    }
}

/// The edge that leads to a node is the last of those counted up to that node.
proof fn lemma_edges_before(all: Seq<MemberEdge>, i: int)
    requires
        can_be_paged(all),
        0 <= i < all.len(),
        all[i].neighbor_node_id != 0,
    ensures
        edges_before(all, all[i].neighbor_node_id) == i + 1,
    decreases all.len(),
{
    if i < all.len() - 1 {
        assert(all[i].neighbor_node_id != all[all.len() - 1].neighbor_node_id);
        assert(all.drop_last()[i] == all[i]);
        lemma_edges_before(all.drop_last(), i);
    }
}

proof fn lemma_edges_before_bound(all: Seq<MemberEdge>, cursor: u64)
    ensures
        edges_before(all, cursor) <= all.len(),
    decreases all.len(),
{
    if all.len() > 0 {
        lemma_edges_before_bound(all.drop_last(), cursor);
    }
}

/// Where a page of at most `limit` edges that starts at `start` ends. A limit of zero is none.
pub open spec fn end_of_page(all: Seq<MemberEdge>, limit: u32, start: int) -> int {
    if limit > 0 && start + limit < all.len() {
        start + limit
    } else {
        all.len() as int
    }
}

/// What a walk knows after the next page, where the engine holds the edges `all`, answers the
/// page request with the edges that follow after the cursor, and knows the state of each edge.
pub open spec fn after_whole_page(
    v: WalkView,
    all: Seq<MemberEdge>,
    state_of: spec_fn(MemberEdge) -> graph_proto::GetEdgeStateResponse,
) -> WalkView
    recommends
        v.next_page is Some,
{
    let start = edges_before(all, v.next_page->0) as int;
    let end = end_of_page(all, v.limit, start);
    let w = v.after_page(all.subrange(start, end), end < all.len());
    w.after_states(w.pending.map_values(state_of))
}

/// A bound on the number of pages that a walk has yet to read with its present limit.
pub open spec fn pages_left(v: WalkView, all: Seq<MemberEdge>) -> int {
    match v.next_page {
        Some(cursor) => all.len() - edges_before(all, cursor) + 1,
        None => 0,
    }
}

/// What a walk knows at its end, before the same engine. The walk reads the pages that
/// [`WalkView::is_next`] names.
pub open spec fn walked(
    v: WalkView,
    all: Seq<MemberEdge>,
    state_of: spec_fn(MemberEdge) -> graph_proto::GetEdgeStateResponse,
) -> WalkView
    decreases v.limit, pages_left(v, all),
    when can_be_paged(all)
{
    if v.next_page is Some {
        proof {
            lemma_page(v, all, state_of);
        }
        walked(after_whole_page(v, all, state_of), all, state_of)
    } else {
        v
    }
}

/// After a page the walk has found what holds on it; where edges follow and the walk takes them,
/// it goes on after the last edge of the page, or begins again without a limit where that edge
/// leads to the node with id zero.
pub proof fn lemma_page(
    v: WalkView,
    all: Seq<MemberEdge>,
    state_of: spec_fn(MemberEdge) -> graph_proto::GetEdgeStateResponse,
)
    requires
        can_be_paged(all),
        v.next_page is Some,
    ensures
        ({
            let start = edges_before(all, v.next_page->0) as int;
            let end = end_of_page(all, v.limit, start);
            let page = all.subrange(start, end);
            let after = after_whole_page(v, all, state_of);
            &&& 0 <= start <= end <= all.len()
            &&& end < all.len() ==> start < end && v.limit > 0
            &&& pages_left(after, all) >= 0
            &&& after.pending.len() == 0
            &&& if v.all_pages && end < all.len() && all[end - 1].neighbor_node_id == 0 {
                after == WalkView::start(v.node, v.outward, true, 0, 0)
            } else {
                &&& after.all_pages == v.all_pages
                &&& after.limit == v.limit
                &&& after.has_more == (end < all.len())
                &&& after.found == v.found + listed(page, page.map_values(state_of))
                &&& if v.all_pages && end < all.len() {
                    after.next_page matches Some(next) && edges_before(all, next) == end
                } else {
                    after.next_page is None
                }
            }
        }),
{
    let start = edges_before(all, v.next_page->0) as int;
    let end = end_of_page(all, v.limit, start);
    let page = all.subrange(start, end);
    let w = v.after_page(page, end < all.len());
    let after = after_whole_page(v, all, state_of);
    lemma_edges_before_bound(all, v.next_page->0);
    law_walk_lists_what_holds(w, w.pending.map_values(state_of));
    if end < all.len() {
        assert(page.last() == all[end - 1]);
        if all[end - 1].neighbor_node_id != 0 {
            lemma_edges_before(all, end - 1);
            assert(page.last().neighbor_node_id != v.next_page->0);
        } else if v.all_pages {
            assert(listed(w.pending, w.pending.map_values(state_of)) =~= Seq::empty());
            assert(after.found =~= Seq::empty());
        }
    }
    if let Some(next) = after.next_page {
        lemma_edges_before_bound(all, next);
    }
}

proof fn lemma_rest_splits(
    all: Seq<MemberEdge>,
    state_of: spec_fn(MemberEdge) -> graph_proto::GetEdgeStateResponse,
    start: int,
    end: int,
)
    requires
        0 <= start <= end <= all.len(),
    ensures
        ({
            let page = all.subrange(start, end);
            listed(all.skip(start), all.skip(start).map_values(state_of)) == listed(
                page,
                page.map_values(state_of),
            ) + listed(all.skip(end), all.skip(end).map_values(state_of))
        }),
{
    let page = all.subrange(start, end);
    let rest = all.skip(start);
    let rest_states = rest.map_values(state_of);
    lemma_listed_splits(rest, rest_states, end - start);
    assert(rest.take(end - start) =~= page);
    assert(rest_states.take(end - start) =~= page.map_values(state_of));
    assert(rest.skip(end - start) =~= all.skip(end));
    assert(rest_states.skip(end - start) =~= all.skip(end).map_values(state_of));
}

proof fn lemma_walk_from(
    v: WalkView,
    all: Seq<MemberEdge>,
    state_of: spec_fn(MemberEdge) -> graph_proto::GetEdgeStateResponse,
)
    requires
        can_be_paged(all),
        v.all_pages,
        v.pending.len() == 0,
        v.next_page matches Some(cursor) && v.found + listed(
            all.skip(edges_before(all, cursor) as int),
            all.skip(edges_before(all, cursor) as int).map_values(state_of),
        ) == listed(all, all.map_values(state_of)),
    ensures
        walked(v, all, state_of).pending.len() == 0,
        walked(v, all, state_of).next_page is None,
        !walked(v, all, state_of).has_more,
        walked(v, all, state_of).found == listed(all, all.map_values(state_of)),
    decreases v.limit, pages_left(v, all),
{
    let start = edges_before(all, v.next_page->0) as int;
    let end = end_of_page(all, v.limit, start);
    let after = after_whole_page(v, all, state_of);
    let whole = listed(all, all.map_values(state_of));
    let tail = listed(all.skip(end), all.skip(end).map_values(state_of));
    lemma_page(v, all, state_of);
    lemma_rest_splits(all, state_of, start, end);
    assert(walked(v, all, state_of) == walked(after, all, state_of));
    if end < all.len() {
        if all[end - 1].neighbor_node_id == 0 {
            assert(all.skip(0) =~= all);
            assert(after.found + whole =~= whole);
        } else {
            assert(after.found + tail =~= whole);
        }
        lemma_walk_from(after, all, state_of);
    } else {
        assert(tail =~= Seq::empty());
        assert(after.found =~= whole);
        assert(walked(after, all, state_of) == after);
    }
}

/// A walk over all pages finds every membership that holds, in the order of the engine, and
/// nothing else, whatever the size of a page.
pub proof fn law_walk_covers_all_pages(
    node: NodeRef,
    outward: bool,
    limit: u32,
    all: Seq<MemberEdge>,
    state_of: spec_fn(MemberEdge) -> graph_proto::GetEdgeStateResponse,
)
    requires
        can_be_paged(all),
    ensures
        ({
            let end = walked(WalkView::start(node, outward, true, limit, 0), all, state_of);
            &&& end.pending.len() == 0
            &&& end.next_page is None
            &&& !end.has_more
            &&& end.found == listed(all, all.map_values(state_of))
        }),
{
    let v = WalkView::start(node, outward, true, limit, 0);
    assert(all.skip(0) =~= all);
    assert(v.found + listed(all, all.map_values(state_of)) =~= listed(
        all,
        all.map_values(state_of),
    ));
    lemma_walk_from(v, all, state_of);
}

/// The position of the last edge that is listed.
proof fn lemma_last_listed(
    edges: Seq<MemberEdge>,
    states: Seq<graph_proto::GetEdgeStateResponse>,
) -> (i: int)
    requires
        states.len() == edges.len(),
        listed(edges, states).len() > 0,
    ensures
        0 <= i < edges.len(),
        listed(edges, states).last().customer_node_id == edges[i].neighbor_node_id,
        listed(edges.skip(i + 1), states.skip(i + 1)).len() == 0,
    decreases edges.len(),
{
    let rest = listed(edges.drop_first(), states.drop_first());
    if rest.len() > 0 {
        let i = lemma_last_listed(edges.drop_first(), states.drop_first());
        assert(listed(edges, states).last() == rest.last());
        assert(edges.drop_first().skip(i + 1) =~= edges.skip(i + 2));
        assert(states.drop_first().skip(i + 1) =~= states.skip(i + 2));
        i + 1
    } else {
        assert(edges.skip(1) =~= edges.drop_first());
        assert(states.skip(1) =~= states.drop_first());
        0
    }
}

/// Pages of members add up: what a page lists, followed by what is listed after the last
/// member of that page, is all that is listed from where the page started; and a page after
/// which nothing follows lists the rest. A page names no member to go on after where it lists
/// none, or where the last that it lists has the id zero, which stands for the start.
pub proof fn law_member_pages_add_up(
    node: NodeRef,
    limit: u32,
    cursor: u64,
    all: Seq<MemberEdge>,
    state_of: spec_fn(MemberEdge) -> graph_proto::GetEdgeStateResponse,
)
    requires
        can_be_paged(all),
    ensures
        ({
            let page = walked(WalkView::start(node, false, false, limit, cursor), all, state_of);
            let rest = all.skip(edges_before(all, cursor) as int);
            let from_here = listed(rest, rest.map_values(state_of));
            &&& !page.has_more ==> page.found == from_here
            &&& page.found.len() > 0 && page.found.last().customer_node_id != 0 ==> {
                let next = page.found.last().customer_node_id;
                let after = all.skip(edges_before(all, next) as int);
                &&& edges_before(all, cursor) < edges_before(all, next)
                &&& from_here == page.found + listed(after, after.map_values(state_of))
            }
        }),
{
    let v = WalkView::start(node, false, false, limit, cursor);
    let start = edges_before(all, cursor) as int;
    let end = end_of_page(all, limit, start);
    let edges = all.subrange(start, end);
    let states = edges.map_values(state_of);
    let page = after_whole_page(v, all, state_of);
    let rest = all.skip(start);
    let from_here = listed(rest, rest.map_values(state_of));
    lemma_page(v, all, state_of);
    assert(walked(v, all, state_of) == walked(page, all, state_of));
    assert(walked(page, all, state_of) == page);
    assert(page.found =~= listed(edges, states));
    lemma_rest_splits(all, state_of, start, end);
    if !page.has_more {
        assert(listed(all.skip(end), all.skip(end).map_values(state_of)) =~= Seq::empty());
        assert(page.found =~= from_here);
    }
    if page.found.len() > 0 && page.found.last().customer_node_id != 0 {
        let i = lemma_last_listed(edges, states);
        let mid = start + i + 1;
        assert(edges[i] == all[start + i]);
        lemma_edges_before(all, start + i);
        lemma_rest_splits(all, state_of, start, mid);
        lemma_listed_splits(edges, states, i + 1);
        assert(edges.take(i + 1) =~= all.subrange(start, mid));
        assert(states.take(i + 1) =~= all.subrange(start, mid).map_values(state_of));
        assert(listed(edges, states) =~= listed(edges.take(i + 1), states.take(i + 1)));
    }
}

/// Among these memberships is one with this node at its far end, this confidence and this time.
pub open spec fn lists(
    found: Seq<SegmentMember>,
    node_id: u64,
    confidence: crate::float::Float32,
    last_seen_secs: u32,
) -> bool {
    exists|k: int|
        #![trigger found[k]]
        0 <= k < found.len() && found[k].customer_node_id == node_id && found[k].confidence
            == confidence && found[k].last_seen_secs == last_seen_secs
}

/// One of these edges leads to the node.
pub open spec fn leads_to(edges: Seq<MemberEdge>, node_id: u64) -> bool {
    exists|i: int| 0 <= i < edges.len() && (#[trigger] edges[i]).neighbor_node_id == node_id
}

proof fn lemma_lists(
    edges: Seq<MemberEdge>,
    state_of: spec_fn(MemberEdge) -> graph_proto::GetEdgeStateResponse,
    node_id: u64,
    state: graph_proto::GetEdgeStateResponse,
    confidence: crate::float::Float32,
    last_seen_secs: u32,
)
    requires
        forall|e: MemberEdge| e.neighbor_node_id == node_id ==> #[trigger] state_of(e) == state,
    ensures
        lists(listed(edges, edges.map_values(state_of)), node_id, confidence, last_seen_secs)
            <==> leads_to(edges, node_id) && holds(state) && state.payload->0.approx_sum
            == confidence && state.payload->0.last_seen == last_seen_secs,
{
    let states = edges.map_values(state_of);
    let found = listed(edges, states);
    law_listed_are_those_that_hold(edges, states);
    if lists(found, node_id, confidence, last_seen_secs) {
        let k = choose|k: int|
            #![trigger found[k]]
            0 <= k < found.len() && found[k].customer_node_id == node_id && found[k].confidence
                == confidence && found[k].last_seen_secs == last_seen_secs;
        let i = choose|i: int|
            0 <= i < edges.len() && holds(#[trigger] states[i]) && found[k] == member(
                edges[i],
                states[i].payload->0,
            );
        assert(edges[i].neighbor_node_id == node_id);
        assert(states[i] == state_of(edges[i]));
    }
    if leads_to(edges, node_id) && holds(state) && state.payload->0.approx_sum == confidence
        && state.payload->0.last_seen == last_seen_secs {
        let i = choose|i: int|
            0 <= i < edges.len() && (#[trigger] edges[i]).neighbor_node_id == node_id;
        assert(states[i] == state_of(edges[i]));
        assert(holds(states[i]));
        let x = member(edges[i], states[i].payload->0);
        assert(found.contains(x));
        let k = choose|k: int| 0 <= k < found.len() && found[k] == x;
        assert(found[k].customer_node_id == node_id);
    }
}

/// A customer is among the members of a segment exactly where the segment is among the segments
/// of the customer, with the same confidence and time: where the engine lists an edge at both of
/// its ends or at neither, and `edge_state` is the state that it gives of the edge from one node
/// to another.
pub proof fn law_members_and_segments_agree(
    customer: u64,
    segment: u64,
    of_customer: Seq<MemberEdge>,
    of_segment: Seq<MemberEdge>,
    edge_state: spec_fn(u64, u64) -> graph_proto::GetEdgeStateResponse,
    confidence: crate::float::Float32,
    last_seen_secs: u32,
)
    requires
        leads_to(of_customer, segment) <==> leads_to(of_segment, customer),
    ensures
        ({
            let from = |e: MemberEdge| edge_state(customer, e.neighbor_node_id);
            let to = |e: MemberEdge| edge_state(e.neighbor_node_id, segment);
            lists(
                listed(of_customer, of_customer.map_values(from)),
                segment,
                confidence,
                last_seen_secs,
            ) <==> lists(
                listed(of_segment, of_segment.map_values(to)),
                customer,
                confidence,
                last_seen_secs,
            )
        }),
{
    let from = |e: MemberEdge| edge_state(customer, e.neighbor_node_id);
    let to = |e: MemberEdge| edge_state(e.neighbor_node_id, segment);
    let state = edge_state(customer, segment);
    lemma_lists(of_customer, from, segment, state, confidence, last_seen_secs);
    lemma_lists(of_segment, to, customer, state, confidence, last_seen_secs);
}

/// From the customer and from the segment a walk asks for the state of one and the same edge.
pub proof fn law_both_ends_ask_for_the_same_edge(
    customer: u64,
    segment: u64,
    from_customer: graph_proto::GetEdgeStateRequest,
    from_segment: graph_proto::GetEdgeStateRequest,
)
    requires
        is_state_request(NodeRef::NodeId(customer), true, segment, from_customer),
        is_state_request(NodeRef::NodeId(segment), false, customer, from_segment),
    ensures
        from_customer.edge_type_name@ == from_segment.edge_type_name@,
        from_customer.src == from_segment.src,
        from_customer.dst == from_segment.dst,
        from_customer.min_value == from_segment.min_value,
        from_customer.max_value == from_segment.max_value,
        from_customer.query_time_secs == from_segment.query_time_secs,
        from_customer.activity_windows_secs@ == from_segment.activity_windows_secs@,
{
}

} // verus!
