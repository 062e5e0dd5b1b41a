//! The walk through the nodes of a glTF document.
//!
//! The nodes of a document form trees: a scene names its roots, a node its
//! children. The walk goes through them in the order of the document and
//! writes down where it enters a node, where a node shows a mesh, and where it
//! leaves. Whoever places the meshes follows the walk with a stack of
//! placements, and never needs to look at the tree.

use vstd::prelude::*;
use crate::gltf::parse::{GltfDoc, SceneDoc};

verus! {

/// One step of the walk through the nodes of a document.
#[derive(Clone, Copy, Debug, PartialEq, Eq, Structural)]
pub enum Visit {
    /// The walk enters the node of the given index; what it meets until it
    /// leaves again is placed within this node.
    Enter(u64),
    /// The node that was last entered shows the mesh of the given index.
    Mesh(u64),
    /// The walk leaves the node that was last entered and not yet left.
    Leave,
}

/// The root nodes of the first `n` of the given scenes, scene after scene.
pub open spec fn roots_upto(scenes: Seq<SceneDoc>, n: int) -> Seq<u64>
    decreases n,
{
    if n <= 0 {
        Seq::empty()
    } else {
        roots_upto(scenes, n - 1) + scenes[n - 1].nodes@
    }
}

impl GltfDoc {
    /// The walk through the node of the given index and everything below it:
    /// the node is entered, shows its mesh if it has one, its children are
    /// walked through in their order, and the node is left. There is no walk
    /// where an index names no node, nor where the walk goes deeper than
    /// `depth` nodes.
    pub open spec fn spec_visit(&self, node: u64, depth: nat) -> Option<Seq<Visit>>
        decreases depth, 0nat, 0nat,
    {
        if depth == 0 || node >= self.nodes@.len() {
            None
        } else {
            let doc = self.nodes@[node as int];
            let own = match doc.mesh {
                Some(mesh) => seq![Visit::Enter(node), Visit::Mesh(mesh)],
                None => seq![Visit::Enter(node)],
            };
            let below = match doc.children {
                Some(children) => self.spec_visit_all(
                    children@,
                    children@.len(),
                    (depth - 1) as nat,
                ),
                None => Some(Seq::empty()),
            };
            match below {
                Some(visits) => Some(own + visits + seq![Visit::Leave]),
                None => None,
            }
        }
    }

    /// The walks through the first `n` of the given nodes, one after another.
    pub open spec fn spec_visit_all(&self, nodes: Seq<u64>, n: nat, depth: nat) -> Option<
        Seq<Visit>,
    >
        decreases depth, 1nat, n,
    {
        if n == 0 {
            Some(Seq::empty())
        } else {
            match self.spec_visit_all(nodes, (n - 1) as nat, depth) {
                Some(before) => match self.spec_visit(nodes[n - 1], depth) {
                    Some(here) => Some(before + here),
                    None => None,
                },
                None => None,
            }
        }
    }

    /// The walk through the whole document: through the root nodes of its
    /// scenes, scene after scene. No walk goes deeper than the document has
    /// nodes, so a document whose nodes go in circles has none.
    pub open spec fn spec_traversal(&self) -> Option<Seq<Visit>> {
        let roots = roots_upto(self.scenes@, self.scenes@.len() as int);
        self.spec_visit_all(roots, roots.len(), self.nodes@.len())
    }

    /// Walks through the node of the given index and everything below it, and
    /// writes the steps at the end of `out`. Where there is no walk, says so;
    /// what `out` then holds beyond what it held is of no use.
    fn visit(&self, node: u64, depth: usize, out: &mut Vec<Visit>) -> (ok: bool)
        ensures
            ok == (self.spec_visit(node, depth as nat) is Some),
            ok ==> final(out)@ == old(out)@ + self.spec_visit(node, depth as nat)->Some_0,
        decreases depth, 0nat, 0nat,
    {
        if depth == 0 || node >= self.nodes.len() as u64 {
            return false;
        }
        let doc = &self.nodes[node as usize];
        out.push(Visit::Enter(node));
        match doc.mesh {
            Some(mesh) => {
                out.push(Visit::Mesh(mesh));
            },
            None => {},
        }
        let ghost own = match doc.mesh {
            Some(mesh) => seq![Visit::Enter(node), Visit::Mesh(mesh)],
            None => seq![Visit::Enter(node)],
        };
        assert(out@ =~= old(out)@ + own);
        let ok = match &doc.children {
            Some(children) => self.visit_all(children, depth - 1, out),
            None => true,
        };
        if !ok {
            return false;
        }
        out.push(Visit::Leave);
        assert(out@ =~= old(out)@ + self.spec_visit(node, depth as nat)->Some_0);
        true
    }

    /// Walks through the given nodes, one after another, and writes the steps
    /// at the end of `out`. Where one of them has no walk, says so.
    fn visit_all(&self, nodes: &Vec<u64>, depth: usize, out: &mut Vec<Visit>) -> (ok: bool)
        ensures
            ok == (self.spec_visit_all(nodes@, nodes@.len(), depth as nat) is Some),
            ok ==> final(out)@ == old(out)@ + self.spec_visit_all(
                nodes@,
                nodes@.len(),
                depth as nat,
            )->Some_0,
        decreases depth, 1nat, nodes@.len(),
    {
        let mut i: usize = 0;
        while i < nodes.len()
            invariant
                i <= nodes@.len(),
                self.spec_visit_all(nodes@, i as nat, depth as nat) is Some,
                out@ == old(out)@ + self.spec_visit_all(nodes@, i as nat, depth as nat)->Some_0,
            decreases nodes@.len() - i,
        {
            let ghost before = out@;
            let ok = self.visit(nodes[i], depth, out);
            if !ok {
                proof {
                    self.lemma_no_walk(nodes@, (i + 1) as nat, nodes@.len(), depth as nat);
                }
                return false;
            }
            assert(out@ =~= old(out)@ + self.spec_visit_all(
                nodes@,
                (i + 1) as nat,
                depth as nat,
            )->Some_0);
            i = i + 1;
        }
        true
    }

    /// Where the first nodes have no walk, more nodes have none either.
    pub proof fn lemma_no_walk(&self, nodes: Seq<u64>, k: nat, n: nat, depth: nat)
        requires
            k <= n,
            self.spec_visit_all(nodes, k, depth) is None,
        ensures
            self.spec_visit_all(nodes, n, depth) is None,
        decreases n,
    {
        if k < n {
            self.lemma_no_walk(nodes, k, (n - 1) as nat, depth);
        }
    }

    /// The root nodes of the scenes, scene after scene.
    pub fn roots(&self) -> (roots: Vec<u64>)
        ensures
            roots@ == roots_upto(self.scenes@, self.scenes@.len() as int),
    {
        let mut roots: Vec<u64> = Vec::new();
        let mut s: usize = 0;
        while s < self.scenes.len()
            invariant
                s <= self.scenes@.len(),
                roots@ == roots_upto(self.scenes@, s as int),
            decreases self.scenes@.len() - s,
        {
            let nodes = &self.scenes[s].nodes;
            let ghost before = roots@;
            let mut i: usize = 0;
            while i < nodes.len()
                invariant
                    i <= nodes@.len(),
                    roots@ == before + nodes@.take(i as int),
                decreases nodes@.len() - i,
            {
                roots.push(nodes[i]);
                assert(roots@ =~= before + nodes@.take(i + 1));
                i = i + 1;
            }
            assert(nodes@.take(i as int) =~= nodes@);
            s = s + 1;
        }
        roots
    }

    /// The walk through the whole document, if it has one: no index names a
    /// node that is not there, and the nodes do not go in circles.
    pub fn traversal(&self) -> (r: Option<Vec<Visit>>)
        ensures
            match r {
                Some(visits) => self.spec_traversal() == Some(visits@),
                None => self.spec_traversal() is None,
            },
    {
        let roots = self.roots();
        let mut visits: Vec<Visit> = Vec::new();
        if self.visit_all(&roots, self.nodes.len(), &mut visits) {
            assert(visits@ =~= self.spec_traversal()->Some_0);
            Some(visits)
        } else {
            None
        }
    }
}

/// How many nodes are entered and not yet left after the first `n` steps.
pub open spec fn level(visits: Seq<Visit>, n: int) -> int
    decreases n,
{
    if n <= 0 {
        0
    } else {
        level(visits, n - 1) + (match visits[n - 1] {
            Visit::Enter(_) => 1int,
            Visit::Mesh(_) => 0int,
            Visit::Leave => -1int,
        })
    }
}

/// Every node that is entered is left again, no node is left that was not
/// entered, a mesh is shown only within a node, and every node that is
/// entered is one of the first `count` nodes.
pub open spec fn well_nested(visits: Seq<Visit>, count: nat) -> bool {
    &&& level(visits, visits.len() as int) == 0
    &&& forall|n: int| 0 <= n <= visits.len() ==> #[trigger] level(visits, n) >= 0
    &&& forall|n: int|
        0 <= n < visits.len() && (#[trigger] visits[n]) is Mesh ==> level(visits, n) >= 1
    &&& forall|n: int|
        0 <= n < visits.len() ==> (#[trigger] visits[n] matches Visit::Enter(node) ==> node
            < count)
}

/// The level within two lists one after the other: that of the first list,
/// then that at its end plus that of the second.
pub proof fn lemma_level_concat(a: Seq<Visit>, b: Seq<Visit>, n: int)
    requires
        0 <= n <= a.len() + b.len(),
    ensures
        level(a + b, n) == (if n <= a.len() {
            level(a, n)
        } else {
            level(a, a.len() as int) + level(b, n - a.len())
        }),
    decreases n,
{
    if n > 0 {
        lemma_level_concat(a, b, n - 1);
        if n <= a.len() {
            assert((a + b)[n - 1] == a[n - 1]);
        } else {
            assert((a + b)[n - 1] == b[n - 1 - a.len()]);
            assert(level(b, 0) == 0);
        }
    } else {
        assert(level(a, 0) == 0);
    }
}

/// Two well nested lists one after the other are well nested.
pub proof fn lemma_well_nested_concat(a: Seq<Visit>, b: Seq<Visit>, count: nat)
    requires
        well_nested(a, count),
        well_nested(b, count),
    ensures
        well_nested(a + b, count),
{
    let both = a + b;
    lemma_level_concat(a, b, both.len() as int);
    assert forall|n: int| 0 <= n <= both.len() implies #[trigger] level(both, n) >= 0 by {
        lemma_level_concat(a, b, n);
        if n > a.len() {
            assert(level(b, n - a.len()) >= 0);
        }
    }
    assert forall|n: int| 0 <= n < both.len() && (#[trigger] both[n]) is Mesh implies level(
        both,
        n,
    ) >= 1 by {
        lemma_level_concat(a, b, n);
        if n < a.len() {
            assert(both[n] == a[n]);
        } else {
            assert(both[n] == b[n - a.len()]);
            assert(level(b, n - a.len()) >= 1);
        }
    }
    assert forall|n: int| 0 <= n < both.len() implies (#[trigger] both[n] matches Visit::Enter(
        node,
    ) ==> node < count) by {
        if n < a.len() {
            assert(both[n] == a[n]);
        } else {
            assert(both[n] == b[n - a.len()]);
        }
    }
}

/// A well nested list within a node, after the node's own steps and before
/// its leave, is well nested.
pub proof fn lemma_well_nested_within(own: Seq<Visit>, below: Seq<Visit>, node: u64, count: nat)
    requires
        node < count,
        own == seq![Visit::Enter(node)] || (exists|mesh: u64|
            own == seq![Visit::Enter(node), Visit::Mesh(mesh)]),
        well_nested(below, count),
    ensures
        well_nested(own + below + seq![Visit::Leave], count),
{
    let leave = seq![Visit::Leave];
    let inner = own + below;
    let all = inner + leave;
    reveal_with_fuel(level, 3);
    assert(level(own, own.len() as int) == 1);
    assert(level(leave, 1) == -1);
    assert forall|n: int| 0 <= n <= own.len() implies #[trigger] level(own, n) >= 0 by {}
    lemma_level_concat(own, below, inner.len() as int);
    lemma_level_concat(inner, leave, all.len() as int);
    assert forall|n: int| 0 <= n <= all.len() implies #[trigger] level(all, n) >= 0 by {
        lemma_level_concat(inner, leave, n);
        if n <= inner.len() {
            lemma_level_concat(own, below, n);
            if n > own.len() {
                assert(level(below, n - own.len()) >= 0);
            }
        }
    }
    assert forall|n: int| 0 <= n < all.len() && (#[trigger] all[n]) is Mesh implies level(all, n)
        >= 1 by {
        lemma_level_concat(inner, leave, n);
        if n < inner.len() {
            assert(all[n] == inner[n]);
            lemma_level_concat(own, below, n);
            if n < own.len() {
                assert(inner[n] == own[n]);
            } else {
                assert(inner[n] == below[n - own.len()]);
                assert(level(below, n - own.len()) >= 0);
            }
        } else {
            assert(all[n] == leave[n - inner.len()]);
        }
    }
    assert forall|n: int| 0 <= n < all.len() implies (#[trigger] all[n] matches Visit::Enter(
        entered,
    ) ==> entered < count) by {
        if n < inner.len() {
            assert(all[n] == inner[n]);
            if n < own.len() {
                assert(inner[n] == own[n]);
            } else {
                assert(inner[n] == below[n - own.len()]);
            }
        } else {
            assert(all[n] == leave[n - inner.len()]);
        }
    }
}

impl GltfDoc {
    /// The walk through a node is well nested.
    pub proof fn lemma_visit_well_nested(&self, node: u64, depth: nat)
        requires
            self.spec_visit(node, depth) is Some,
        ensures
            well_nested(self.spec_visit(node, depth)->Some_0, self.nodes@.len()),
        decreases depth, 0nat, 0nat,
    {
        let doc = self.nodes@[node as int];
        let own = match doc.mesh {
            Some(mesh) => seq![Visit::Enter(node), Visit::Mesh(mesh)],
            None => seq![Visit::Enter(node)],
        };
        let below = match doc.children {
            Some(children) => self.spec_visit_all(children@, children@.len(), (depth - 1) as nat),
            None => Some(Seq::empty()),
        };
        match doc.children {
            Some(children) => {
                self.lemma_visit_all_well_nested(children@, children@.len(), (depth - 1) as nat);
            },
            None => {},
        }
        lemma_well_nested_within(own, below->Some_0, node, self.nodes@.len());
    }

    /// The walks through some nodes, one after another, are well nested.
    pub proof fn lemma_visit_all_well_nested(&self, nodes: Seq<u64>, n: nat, depth: nat)
        requires
            self.spec_visit_all(nodes, n, depth) is Some,
        ensures
            well_nested(self.spec_visit_all(nodes, n, depth)->Some_0, self.nodes@.len()),
        decreases depth, 1nat, n,
    {
        if n > 0 {
            self.lemma_visit_all_well_nested(nodes, (n - 1) as nat, depth);
            self.lemma_visit_well_nested(nodes[n - 1], depth);
            lemma_well_nested_concat(
                self.spec_visit_all(nodes, (n - 1) as nat, depth)->Some_0,
                self.spec_visit(nodes[n - 1], depth)->Some_0,
                self.nodes@.len(),
            );
        }
    }

    /// The walk through a document is well nested: whoever follows it with a
    /// stack pushes on entering and pops on leaving, never pops an empty
    /// stack, ends with the stack as it began, and meets every mesh within a
    /// node and every node within the document.
    pub proof fn lemma_traversal_well_nested(&self)
        requires
            self.spec_traversal() is Some,
        ensures
            well_nested(self.spec_traversal()->Some_0, self.nodes@.len()),
    {
        let roots = roots_upto(self.scenes@, self.scenes@.len() as int);
        self.lemma_visit_all_well_nested(roots, roots.len(), self.nodes@.len());
    }
}

} // verus!
