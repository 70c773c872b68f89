//! Per-instance evaluation state.  A `GraphContext` is owned by one playing
//! graph instance: it caches, per source pin, the time update of the current
//! frame and the previously emitted timestamp, and owns the lazily created
//! contexts of nested subgraphs, keyed by node identity.  Nested contexts are
//! created once and never evicted, so a subgraph's state (for example a
//! nested loop's phase) survives from frame to frame.

use vstd::prelude::*;
use crate::data::{ParamValue, PoseFrame, TimeUpdate, DurationData};
use crate::errors::GraphError;
use crate::ids::{NodeId, PinId, SourcePin, SourcePinView, TargetPin};
use crate::table::{KeyEq, entries_view, find_in, table_get, table_set, lemma_find_push, lemma_find_none};

verus! {

/// Per-instance cache: time data keyed by source pin, and nested subgraph
/// contexts keyed by node identity.
pub struct GraphContext {
    pub time_cache: Vec<(SourcePin, TimeUpdate)>,
    pub prev_time: Vec<(SourcePin, i64)>,
    pub children: Vec<(NodeId, GraphContext)>,
}

/// The nested context reached by following a path of node identities.
pub open spec fn ctx_at(gc: GraphContext, path: Seq<Seq<char>>) -> Option<GraphContext>
    decreases path.len(),
{
    if path.len() == 0 {
        Some(gc)
    } else {
        match find_in(entries_view(gc.children@), path[0]) {
            None => None,
            Some(c) => ctx_at(c, path.skip(1)),
        }
    }
}

/// Every nested context present in `a` is still present in `b`: contexts are
/// never evicted, which keeps nested state (loop phase) stable across frames.
pub open spec fn ctx_preserved(a: GraphContext, b: GraphContext) -> bool {
    forall|q: Seq<Seq<char>>| ctx_at(a, q) is Some ==> #[trigger] ctx_at(b, q) is Some
}

/// Every source pin with cached time data in `a` still has cached time
/// data in `b`: evaluation only ever adds cache entries within a frame.
pub open spec fn time_kept(a: GraphContext, b: GraphContext) -> bool {
    forall|q: SourcePinView| a.time_of(q) is Some ==> #[trigger] b.time_of(q) is Some
}

/// Two contexts with equal children reach the same nested contexts.
pub proof fn lemma_ctx_same_children(a: GraphContext, b: GraphContext)
    requires
        a.children == b.children,
    ensures
        forall|q: Seq<Seq<char>>| q.len() > 0 ==> #[trigger] ctx_at(a, q) == ctx_at(b, q),
        ctx_preserved(a, b),
{
    assert forall|q: Seq<Seq<char>>| q.len() > 0 implies #[trigger] ctx_at(a, q) == ctx_at(
        b,
        q,
    ) by {
        assert(ctx_at(a, q) == match find_in(entries_view(a.children@), q[0]) {
            None => None::<GraphContext>,
            Some(c) => ctx_at(c, q.skip(1)),
        });
        assert(ctx_at(b, q) == match find_in(entries_view(b.children@), q[0]) {
            None => None::<GraphContext>,
            Some(c) => ctx_at(c, q.skip(1)),
        });
    }
}

/// Replacing the nested context of one child, by a replacement that
/// preserves its nested contexts, preserves every nested context of the
/// parent.
pub proof fn lemma_ctx_child_update(a: GraphContext, b: GraphContext, idx: int, c2: GraphContext)
    requires
        0 <= idx < a.children@.len(),
        b.children@ == a.children@.update(idx, (a.children@[idx].0, c2)),
        forall|j: int| 0 <= j < idx ==> a.children@[j].0@ != a.children@[idx].0@,
        b.time_cache == a.time_cache,
        b.prev_time == a.prev_time,
        ctx_preserved(a.children@[idx].1, c2),
    ensures
        ctx_preserved(a, b),
        time_kept(a, b),
        b.child_of(a.children@[idx].0@) == Some(c2),
        forall|q: Seq<char>|
            q != a.children@[idx].0@ ==> #[trigger] b.child_of(q) == a.child_of(q),
{
    let kid = a.children@[idx].0@;
    let ea = entries_view(a.children@);
    let eb = entries_view(b.children@);
    assert(eb =~= ea.update(idx, (kid, c2)));
    assert forall|j: int| 0 <= j < idx implies ea[j].0 != kid by {
        assert(ea[j] == (a.children@[j].0@, a.children@[j].1));
    }
    assert(ea[idx] == (kid, a.children@[idx].1));
    crate::table::lemma_find_update(ea, idx, (kid, c2));
    crate::table::lemma_find_first(ea, kid, idx);
    assert(a.child_of(kid) == Some(a.children@[idx].1));
    assert(b.child_of(kid) == Some(c2));
    assert forall|q: Seq<Seq<char>>| ctx_at(a, q) is Some implies #[trigger] ctx_at(b, q)
        is Some by {
        if q.len() > 0 {
            if q[0] == kid {
                assert(ctx_at(a, q) == ctx_at(a.children@[idx].1, q.skip(1)));
                assert(ctx_at(c2, q.skip(1)) is Some);
                assert(ctx_at(b, q) == ctx_at(c2, q.skip(1)));
            } else {
                assert(find_in(eb, q[0]) == find_in(ea, q[0]));
            }
        }
    }
}

impl GraphContext {
    /// The cached time update for a source pin, if written this frame.
    pub open spec fn time_of(&self, pin: SourcePinView) -> Option<TimeUpdate> {
        find_in(entries_view(self.time_cache@), pin)
    }

    /// The timestamp last emitted at a source pin.
    pub open spec fn prev_of(&self, pin: SourcePinView) -> Option<i64> {
        find_in(entries_view(self.prev_time@), pin)
    }

    /// The nested context for a directly embedded subgraph node.
    pub open spec fn child_of(&self, id: Seq<char>) -> Option<GraphContext> {
        find_in(entries_view(self.children@), id)
    }

    /// A fresh, empty context.
    pub fn new() -> (r: GraphContext)
        ensures
            r.time_cache@.len() == 0,
            r.prev_time@.len() == 0,
            r.children@.len() == 0,
    {
        GraphContext { time_cache: Vec::new(), prev_time: Vec::new(), children: Vec::new() }
    }

    /// Records the time update pulled through a source pin this frame.
    pub fn write_time(&mut self, pin: SourcePin, upd: TimeUpdate)
        ensures
            final(self).time_of(pin@) == Some(upd),
            forall|q: SourcePinView|
                q != pin@ ==> #[trigger] final(self).time_of(q) == old(self).time_of(q),
            final(self).prev_time == old(self).prev_time,
            final(self).children == old(self).children,
            ctx_preserved(*old(self), *final(self)),
            time_kept(*old(self), *final(self)),
    {
        let ghost a = *self;
        table_set(&mut self.time_cache, pin, upd);
        proof {
            lemma_ctx_same_children(a, *self);
        }
    }

    /// Records the timestamp emitted at a source pin this frame.
    pub fn write_prev(&mut self, pin: SourcePin, ts: i64)
        ensures
            final(self).prev_of(pin@) == Some(ts),
            forall|q: SourcePinView|
                q != pin@ ==> #[trigger] final(self).prev_of(q) == old(self).prev_of(q),
            final(self).time_cache == old(self).time_cache,
            final(self).children == old(self).children,
            ctx_preserved(*old(self), *final(self)),
            time_kept(*old(self), *final(self)),
    {
        let ghost a = *self;
        table_set(&mut self.prev_time, pin, ts);
        proof {
            lemma_ctx_same_children(a, *self);
        }
    }

    /// The cached time update for a source pin, or a pass-ordering violation
    /// when nothing was written this frame.
    pub fn get_time_update(&self, pin: &SourcePin) -> (r: Result<TimeUpdate, GraphError>)
        ensures
            match r {
                Ok(u) => self.time_of(pin@) == Some(u),
                Err(e) => self.time_of(pin@) is None && e == GraphError::PassOrderingViolation,
            },
    {
        match table_get(&self.time_cache, pin) {
            Some(u) => Ok(*u),
            None => Err(GraphError::PassOrderingViolation),
        }
    }

    /// The timestamp emitted at a source pin in the previous frame; zero
    /// before the first frame.
    pub fn get_prev_time(&self, pin: &SourcePin) -> (r: i64)
        ensures
            match self.prev_of(pin@) {
                Some(t) => r == t,
                None => r == 0,
            },
    {
        match table_get(&self.prev_time, pin) {
            Some(t) => *t,
            None => 0,
        }
    }

    /// The index of the nested context for `id`, creating an empty one on
    /// first access.  Existing nested state is never discarded.
    pub fn ensure_child(&mut self, id: &NodeId) -> (idx: usize)
        ensures
            idx < final(self).children@.len(),
            final(self).children@[idx as int].0@ == id@,
            forall|j: int| 0 <= j < idx ==> final(self).children@[j].0@ != id@,
            final(self).time_cache == old(self).time_cache,
            final(self).prev_time == old(self).prev_time,
            match old(self).child_of(id@) {
                Some(c) => final(self).children == old(self).children
                    && final(self).children@[idx as int].1 == c,
                None => final(self).children@ == old(self).children@.push(
                    (final(self).children@[idx as int].0, final(self).children@[idx as int].1),
                ) && final(self).children@[idx as int].1.time_cache@.len() == 0
                    && final(self).children@[idx as int].1.prev_time@.len() == 0
                    && final(self).children@[idx as int].1.children@.len() == 0,
            },
            forall|q: Seq<char>|
                q != id@ ==> #[trigger] final(self).child_of(q) == old(self).child_of(q),
            ctx_preserved(*old(self), *final(self)),
            time_kept(*old(self), *final(self)),
    {
        let ghost a = *self;
        let ghost s0 = entries_view(self.children@);
        let mut i: usize = 0;
        while i < self.children.len()
            invariant
                i <= self.children.len(),
                *self == a,
                s0 == entries_view(self.children@),
                forall|j: int| 0 <= j < i ==> s0[j].0 != id@,
            decreases self.children.len() - i,
        {
            if self.children[i].0.key_eq(id) {
                proof {
                    crate::table::lemma_find_first(s0, id@, i as int);
                    lemma_ctx_same_children(a, *self);
                    assert forall|j: int| 0 <= j < i implies self.children@[j].0@ != id@ by {
                        assert(s0[j] == (self.children@[j].0@, self.children@[j].1));
                    }
                }
                return i;
            }
            i = i + 1;
        }
        proof {
            lemma_find_none(s0, id@);
        }
        let fresh = GraphContext::new();
        let idx = self.children.len();
        self.children.push((id.clone(), fresh));
        proof {
            let b = *self;
            let ghost p = (id@, b.children@[idx as int].1);
            assert(entries_view(b.children@) =~= s0.push(p));
            lemma_find_push(s0, p);
            assert(b.child_of(id@) == Some(b.children@[idx as int].1));
            assert forall|j: int| 0 <= j < idx implies b.children@[j].0@ != id@ by {
                assert(s0[j] == (a.children@[j].0@, a.children@[j].1));
            }
            assert forall|q: Seq<Seq<char>>| ctx_at(a, q) is Some implies #[trigger] ctx_at(
                b,
                q,
            ) is Some by {
                if q.len() > 0 {
                    assert(find_in(entries_view(a.children@), q[0]) is Some);
                    assert(find_in(entries_view(b.children@), q[0]) == find_in(
                        entries_view(a.children@),
                        q[0],
                    ));
                }
            }
        }
        idx
    }
}

/// The node identity a pass context is currently decorated with.
pub struct NodeContext {
    pub node_id: NodeId,
}

/// Externally supplied inputs consulted during resolution: an exact-match
/// parameter overlay keyed by target pin, and the values a subgraph's input
/// pins receive from its embedding node.
pub struct InputOverlay {
    /// Exact-match override, consulted before internal edges and defaults.
    pub parameters: Vec<(TargetPin, ParamValue)>,
    /// Values for a subgraph's graph-level parameter inputs.
    pub input_parameters: Vec<(PinId, ParamValue)>,
    /// Poses for a subgraph's graph-level pose inputs.
    pub input_poses: Vec<(PinId, PoseFrame)>,
    /// Durations for a subgraph's graph-level pose inputs.
    pub input_durations: Vec<(PinId, DurationData)>,
}

impl InputOverlay {
    /// An overlay that supplies nothing.
    pub fn empty() -> (r: InputOverlay)
        ensures
            r.parameters@.len() == 0,
            r.input_parameters@.len() == 0,
            r.input_poses@.len() == 0,
            r.input_durations@.len() == 0,
    {
        InputOverlay {
            parameters: Vec::new(),
            input_parameters: Vec::new(),
            input_poses: Vec::new(),
            input_durations: Vec::new(),
        }
    }

    /// Overrides the value seen by an exact target pin.
    pub fn set_parameter(&mut self, target: TargetPin, value: ParamValue)
        ensures
            find_in(entries_view(final(self).parameters@), target@) == Some(value),
            forall|q: crate::ids::TargetPinView|
                q != target@ ==> #[trigger] find_in(entries_view(final(self).parameters@), q)
                    == find_in(entries_view(old(self).parameters@), q),
            final(self).input_parameters == old(self).input_parameters,
            final(self).input_poses == old(self).input_poses,
            final(self).input_durations == old(self).input_durations,
    {
        table_set(&mut self.parameters, target, value);
    }
}

/// A transient handle threading identity and lineage through one recursive
/// pass invocation: the current node, the chain of subgraph nodes crossed to
/// get here, a debug flag, and the remaining pull-depth budget.
pub struct PassContext {
    pub node_context: Option<NodeContext>,
    /// Node identities of the subgraph boundary crossings above this context,
    /// outermost first.
    pub frames: Vec<NodeId>,
    pub should_debug: bool,
    /// Remaining pull depth; each pull and each subgraph crossing spends one.
    pub fuel: u64,
}

/// Copies a chain of node identities.
fn clone_frames(v: &Vec<NodeId>) -> (r: Vec<NodeId>)
    ensures
        r@ == v@,
{
    let mut out: Vec<NodeId> = Vec::new();
    let mut i: usize = 0;
    while i < v.len()
        invariant
            i <= v.len(),
            out@ == v@.take(i as int),
        decreases v.len() - i,
    {
        out.push(v[i].clone());
        i = i + 1;
    }
    proof {
        assert(out@ =~= v@);
    }
    out
}

impl PassContext {
    /// A root pass context with no node identity and no parent lineage,
    /// allowed to pull through at most `fuel` edges.
    pub fn new(fuel: u64) -> (r: PassContext)
        ensures
            r.node_context is None,
            r.frames@.len() == 0,
            r.should_debug == false,
            r.fuel == fuel,
    {
        PassContext { node_context: None, frames: Vec::new(), should_debug: false, fuel }
    }

    /// Decorates the context with a current node identity, as the graph does
    /// before dispatching a pass to that node.
    pub fn with_node(&self, node_id: &NodeId) -> (r: PassContext)
        ensures
            r.node_context matches Some(nc) && nc.node_id@ == node_id@,
            r.frames@ == self.frames@,
            r.should_debug == self.should_debug,
            r.fuel == self.fuel,
    {
        PassContext {
            node_context: Some(NodeContext { node_id: node_id.clone() }),
            frames: clone_frames(&self.frames),
            should_debug: self.should_debug,
            fuel: self.fuel,
        }
    }

    /// Clears the node identity, as done before resolving a node's
    /// back-requests against the pin names of the node being evaluated.
    pub fn without_node(&self) -> (r: PassContext)
        ensures
            r.node_context is None,
            r.frames@ == self.frames@,
            r.should_debug == self.should_debug,
            r.fuel == self.fuel,
    {
        PassContext {
            node_context: None,
            frames: clone_frames(&self.frames),
            should_debug: self.should_debug,
            fuel: self.fuel,
        }
    }

    /// The same context with its debug flag replaced.
    pub fn with_debugging(&self, should_debug: bool) -> (r: PassContext)
        ensures
            match (r.node_context, self.node_context) {
                (Some(a), Some(b)) => a.node_id@ == b.node_id@,
                (None, None) => true,
                _ => false,
            },
            r.frames@ == self.frames@,
            r.should_debug == should_debug,
            r.fuel == self.fuel,
    {
        let node_context = match &self.node_context {
            Some(nc) => Some(NodeContext { node_id: nc.node_id.clone() }),
            None => None,
        };
        PassContext {
            node_context,
            frames: clone_frames(&self.frames),
            should_debug,
            fuel: self.fuel,
        }
    }

    /// Enters the subgraph embedded in the current node: records the crossing
    /// in the lineage and spends one unit of depth budget.  Fails when no
    /// node identity is set or the budget is exhausted.
    pub fn child(&self) -> (r: Result<PassContext, GraphError>)
        ensures
            match r {
                Ok(c) => self.node_context matches Some(nc) && self.fuel > 0 && c.frames@
                    == self.frames@.push(nc.node_id) && (c.node_context matches Some(cnc)
                    && cnc.node_id@ == nc.node_id@) && c.fuel == self.fuel - 1 && c.should_debug
                    == self.should_debug,
                Err(e) => (self.node_context is None && e == GraphError::MissingNodeContext) || (
                self.node_context is Some && self.fuel == 0 && e == GraphError::RecursionLimit),
            },
    {
        match &self.node_context {
            None => Err(GraphError::MissingNodeContext),
            Some(nc) => {
                if self.fuel == 0 {
                    Err(GraphError::RecursionLimit)
                } else {
                    let mut frames = clone_frames(&self.frames);
                    frames.push(nc.node_id.clone());
                    proof {
                        assert(frames@ =~= self.frames@.push(nc.node_id));
                    }
                    Ok(
                        PassContext {
                            node_context: Some(NodeContext { node_id: nc.node_id.clone() }),
                            frames,
                            should_debug: self.should_debug,
                            fuel: self.fuel - 1,
                        },
                    )
                }
            },
        }
    }

    /// The context of the embedding graph: the lineage with its last crossing
    /// removed, decorated with the node that was crossed.  Fails when this
    /// context is not inside a subgraph.
    pub fn parent(&self) -> (r: Result<PassContext, GraphError>)
        ensures
            match r {
                Ok(p) => self.frames@.len() > 0 && p.frames@ == self.frames@.drop_last() && (
                p.node_context matches Some(nc) && nc.node_id@ == self.frames@.last()@)
                    && p.fuel == self.fuel && p.should_debug == self.should_debug,
                Err(e) => self.frames@.len() == 0 && e == GraphError::MissingNodeContext,
            },
    {
        if self.frames.len() == 0 {
            Err(GraphError::MissingNodeContext)
        } else {
            let mut frames = clone_frames(&self.frames);
            let last = frames.pop().unwrap();
            Ok(
                PassContext {
                    node_context: Some(NodeContext { node_id: last }),
                    frames,
                    should_debug: self.should_debug,
                    fuel: self.fuel,
                },
            )
        }
    }

    /// Whether this context is inside a subgraph.
    pub fn has_parent(&self) -> (r: bool)
        ensures
            r == (self.frames@.len() > 0),
    {
        self.frames.len() > 0
    }
}

} // verus!
