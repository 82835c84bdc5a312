//! The scene: a flat arena of spatial nodes with optional parent links,
//! and the per-tick propagation of world transforms.
//!
//! Parent links are stored as indices into the arena and always point at
//! an earlier slot, so the parent graph is a forest and a single forward
//! pass visits every parent before its children.  A node whose parent
//! has been removed is treated as a root for that tick — a recoverable
//! condition, not an error.  World transforms are derived data,
//! recomputed from scratch on every propagation, never patched.

use vstd::prelude::*;

use crate::rotation::{rot_wf, RotFactor};
use crate::transform::{append_factors, chain_of, push_chain, AffineFactor, LocalTransform, LocalView};

verus! {

/// A spatial node: its local transform, an optional parent handle, a
/// liveness flag, and the two role tags (designated camera, continuous
/// rotation).
#[derive(Debug)]
pub struct SceneNode {
    pub local: LocalTransform,
    pub parent: Option<usize>,
    pub alive: bool,
    pub is_camera: bool,
    pub rotates: bool,
}

/// The spec-level image of a node, over plain values.
pub ghost struct NodeView {
    pub local: LocalView,
    pub parent: Option<usize>,
    pub alive: bool,
    pub is_camera: bool,
    pub rotates: bool,
}

impl NodeView {
    /// The same node with its local rotation replaced.
    pub open spec fn with_rotation(self, r: Seq<RotFactor>) -> NodeView {
        NodeView {
            local: LocalView { translation: self.local.translation, rotation: r, scale: self.local.scale },
            parent: self.parent,
            alive: self.alive,
            is_camera: self.is_camera,
            rotates: self.rotates,
        }
    }
}

impl SceneNode {
    pub open spec fn view(&self) -> NodeView {
        NodeView {
            local: self.local@,
            parent: self.parent,
            alive: self.alive,
            is_camera: self.is_camera,
            rotates: self.rotates,
        }
    }
}

/// The parent a node resolves to this tick: its stored link, provided
/// the link points at an earlier, still-live slot.  Otherwise the node
/// counts as a root.
pub open spec fn parent_of(m: Seq<NodeView>, i: int) -> Option<int> {
    match m[i].parent {
        Some(p) => if p < i && m[p as int].alive {
            Some(p as int)
        } else {
            None
        },
        None => None,
    }
}

/// The world transform of node `i`: its local chain, prefixed by the
/// world transform of its resolvable parent, if any.  Well-defined
/// because parents strictly precede children in the arena.
pub open spec fn spec_world(m: Seq<NodeView>, i: int) -> Seq<AffineFactor>
    decreases i,
{
    if 0 <= i < m.len() {
        match parent_of(m, i) {
            Some(p) => spec_world(m, p) + chain_of(m[i].local),
            None => chain_of(m[i].local),
        }
    } else {
        Seq::empty()
    }
}

/// The node arena together with the per-tick derived world transforms.
pub struct Scene {
    pub nodes: Vec<SceneNode>,
    pub worlds: Vec<Vec<AffineFactor>>,
}

impl Scene {
    /// The abstract scene: the sequence of node views.
    pub open spec fn model(&self) -> Seq<NodeView> {
        self.nodes@.map_values(|n: SceneNode| n@)
    }

    /// Arena discipline: every parent link points strictly earlier (so
    /// the graph is a forest), and every stored rotation is normalized.
    pub open spec fn wf(&self) -> bool {
        forall|i: int|
            0 <= i < self.model().len() ==> {
                &&& (#[trigger] self.model()[i]).parent matches Some(p) ==> (p as int) < i
                &&& rot_wf(self.model()[i].local.rotation)
            }
    }

    /// The derived world transforms agree with the current node set.
    pub open spec fn propagated(&self) -> bool {
        &&& self.worlds@.len() == self.model().len()
        &&& forall|i: int|
            0 <= i < self.model().len() ==> (#[trigger] self.worlds@[i])@ == spec_world(
                self.model(),
                i,
            )
    }

    /// An empty scene.
    pub fn new() -> (s: Scene)
        ensures
            s.model() == Seq::<NodeView>::empty(),
            s.wf(),
            s.propagated(),
    {
        let s = Scene { nodes: Vec::new(), worlds: Vec::new() };
        proof {
            assert(s.model() =~= Seq::<NodeView>::empty());
        }
        s
    }

    /// Add a node under an existing parent (or as a root) and return its
    /// handle.  Handles are dense indices, assigned in creation order.
    pub fn add_node(
        &mut self,
        local: LocalTransform,
        parent: Option<usize>,
        is_camera: bool,
        rotates: bool,
    ) -> (h: usize)
        requires
            old(self).wf(),
            local.wf(),
            parent matches Some(p) ==> (p as int) < old(self).model().len(),
        ensures
            h as int == old(self).model().len(),
            final(self).model() == old(self).model().push(
                NodeView { local: local@, parent, alive: true, is_camera, rotates },
            ),
            final(self).wf(),
    {
        let h = self.nodes.len();
        self.nodes.push(SceneNode { local, parent, alive: true, is_camera, rotates });
        proof {
            assert(self.model() =~= old(self).model().push(
                NodeView { local: local@, parent, alive: true, is_camera, rotates },
            ));
        }
        h
    }

    /// Remove a node: it stops resolving as anyone's parent, and nodes
    /// that pointed at it degrade gracefully to roots.  Its slot stays,
    /// so handles remain stable.
    pub fn remove_node(&mut self, h: usize)
        requires
            old(self).wf(),
            (h as int) < old(self).model().len(),
        ensures
            final(self).model() == old(self).model().update(
                h as int,
                NodeView {
                    local: old(self).model()[h as int].local,
                    parent: old(self).model()[h as int].parent,
                    alive: false,
                    is_camera: old(self).model()[h as int].is_camera,
                    rotates: old(self).model()[h as int].rotates,
                },
            ),
            final(self).wf(),
    {
        self.nodes[h].alive = false;
        proof {
            assert(self.model() =~= old(self).model().update(
                h as int,
                NodeView {
                    local: old(self).model()[h as int].local,
                    parent: old(self).model()[h as int].parent,
                    alive: false,
                    is_camera: old(self).model()[h as int].is_camera,
                    rotates: old(self).model()[h as int].rotates,
                },
            ));
        }
    }

    /// Recompute every node's world transform from the current locals
    /// and parent links, parents first.  Exactly one world transform per
    /// node; roots (and nodes whose parent no longer resolves) get their
    /// local chain verbatim.  The result depends only on the node set,
    /// so running it twice without intervening writes changes nothing.
    pub fn propagate(&mut self)
        requires
            old(self).wf(),
        ensures
            final(self).nodes == old(self).nodes,
            final(self).model() == old(self).model(),
            final(self).wf(),
            final(self).propagated(),
    {
        let n = self.nodes.len();
        let mut worlds: Vec<Vec<AffineFactor>> = Vec::new();
        for i in 0..n
            invariant
                n == self.nodes@.len(),
                self.nodes == old(self).nodes,
                self.wf(),
                worlds@.len() == i,
                forall|j: int|
                    0 <= j < i ==> (#[trigger] worlds@[j])@ == spec_world(self.model(), j),
        {
            let mut w: Vec<AffineFactor> = Vec::new();
            let link = self.nodes[i].parent;
            match link {
                Some(p) => {
                    proof {
                        assert(self.model()[i as int].parent == Some(p));
                        assert((p as int) < i as int);
                    }
                    if self.nodes[p].alive {
                        append_factors(&mut w, &worlds[p]);
                    }
                },
                None => {},
            }
            push_chain(&mut w, &self.nodes[i].local);
            proof {
                assert(w@ =~= spec_world(self.model(), i as int));
            }
            worlds.push(w);
        }
        self.worlds = worlds;
    }

    /// The derived world transform of one node, as last propagated.
    pub fn world(&self, h: usize) -> (w: &Vec<AffineFactor>)
        requires
            (h as int) < self.worlds@.len(),
        ensures
            w@ == self.worlds@[h as int]@,
    {
        &self.worlds[h]
    }

    /// How many nodes the scene holds.
    pub fn len(&self) -> (n: usize)
        ensures
            n as int == self.model().len(),
    {
        self.nodes.len()
    }
}

/// Law: after propagation, a node with a resolvable parent has the
/// parent's world transform composed with its own local chain — at every
/// depth, since the same equation applies to the parent in turn.
pub proof fn lemma_world_of_child(m: Seq<NodeView>, i: int)
    requires
        0 <= i < m.len(),
        parent_of(m, i) matches Some(p),
    ensures
        spec_world(m, i) == spec_world(m, parent_of(m, i)->Some_0) + chain_of(m[i].local),
{
}

/// Law: after propagation, a root — a node with no resolvable parent —
/// carries exactly its local chain as its world transform.
pub proof fn lemma_world_of_root(m: Seq<NodeView>, i: int)
    requires
        0 <= i < m.len(),
        parent_of(m, i) is None,
    ensures
        spec_world(m, i) == chain_of(m[i].local),
{
}

/// The parent-child law over the stored transforms: in a propagated
/// scene, every node with a resolvable parent holds the parent's stored
/// world chain composed with its own local chain.  It applies to the
/// parent again in turn, so it pins whole chains of any depth.
pub proof fn lemma_stored_world_of_child(s: &Scene, i: int)
    requires
        s.propagated(),
        0 <= i < s.model().len(),
        parent_of(s.model(), i) matches Some(p),
    ensures
        s.worlds@[i]@ == s.worlds@[parent_of(s.model(), i)->Some_0]@ + chain_of(
            s.model()[i].local,
        ),
{
    lemma_world_of_child(s.model(), i);
}

/// The root law over the stored transforms: in a propagated scene, a
/// node with no resolvable parent holds exactly its local chain.
pub proof fn lemma_stored_world_of_root(s: &Scene, i: int)
    requires
        s.propagated(),
        0 <= i < s.model().len(),
        parent_of(s.model(), i) is None,
    ensures
        s.worlds@[i]@ == chain_of(s.model()[i].local),
{
    lemma_world_of_root(s.model(), i);
}

} // verus!
