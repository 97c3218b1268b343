use crate::document::{Document, NodeModel};
use crate::error::Error;
use vstd::prelude::*;

verus! {

/// The nodes below and including node `n`, each with its depth, parent
/// before child and children in their listed order.
///
/// `fuel` bounds the number of nodes on one path from `n` downwards. A path
/// of more nodes than the document holds runs through some node twice, so
/// with `fuel` at the number of nodes a walk fails with `FormatError` only
/// where the graph has a cycle. A child index that names no node gives
/// `OutOfBounds`.
pub open spec fn walk_node(nodes: Seq<NodeModel>, n: int, depth: int, fuel: nat) -> Result<
    Seq<(u32, usize)>,
    Error,
>
    decreases fuel, 0nat,
{
    if !(0 <= n < nodes.len()) {
        Err(Error::OutOfBounds)
    } else if fuel == 0 {
        Err(Error::FormatError)
    } else {
        match walk_children(nodes, nodes[n].children, depth + 1, (fuel - 1) as nat) {
            Err(e) => Err(e),
            Ok(below) => Ok(seq![(n as u32, depth as usize)] + below),
        }
    }
}

/// The walks of the nodes `children`, one after another. The first walk
/// that fails is the result.
pub open spec fn walk_children(nodes: Seq<NodeModel>, children: Seq<u32>, depth: int, fuel: nat) -> Result<
    Seq<(u32, usize)>,
    Error,
>
    decreases fuel, 1 + children.len(),
{
    if children.len() == 0 {
        Ok(Seq::empty())
    } else {
        match walk_children(nodes, children.drop_last(), depth, fuel) {
            Err(e) => Err(e),
            Ok(front) => match walk_node(nodes, children.last() as int, depth, fuel) {
                Err(e) => Err(e),
                Ok(last) => Ok(front + last),
            },
        }
    }
}

/// A failure among the first children is the failure of the whole list.
pub proof fn lemma_walk_children_fails(
    nodes: Seq<NodeModel>,
    children: Seq<u32>,
    depth: int,
    fuel: nat,
    k: int,
)
    requires
        0 <= k <= children.len(),
        walk_children(nodes, children.take(k), depth, fuel) is Err,
    ensures
        walk_children(nodes, children, depth, fuel) == walk_children(
            nodes,
            children.take(k),
            depth,
            fuel,
        ),
    decreases children.len() - k,
{
    if k < children.len() {
        assert(children.take(k + 1).drop_last() =~= children.take(k));
        lemma_walk_children_fails(nodes, children, depth, fuel, k + 1);
    } else {
        assert(children.take(k) =~= children);
    }
}

/// Walks the nodes below and including `n` and appends them to `out`.
fn walk_from(doc: &Document, n: u32, depth: usize, fuel: usize, out: &mut Vec<(u32, usize)>) -> (r:
    Result<(), Error>)
    requires
        depth + fuel <= usize::MAX,
    ensures
        match walk_node(doc@.nodes, n as int, depth as int, fuel as nat) {
            Ok(visited) => r is Ok && final(out)@ == old(out)@ + visited,
            Err(e) => r == Err::<(), Error>(e),
        },
    decreases fuel,
{
    if n as usize >= doc.nodes.len() {
        return Err(Error::OutOfBounds);
    }
    if fuel == 0 {
        return Err(Error::FormatError);
    }
    let node = &doc.nodes[n as usize];
    assert(doc@.nodes[n as int] == node@);
    let ghost children = node.children@;
    out.push((n, depth));
    let ghost head = out@;
    let mut i: usize = 0;
    while i < node.children.len()
        invariant
            i <= children.len(),
            children == node.children@,
            n < doc@.nodes.len(),
            doc@.nodes[n as int].children == children,
            depth + fuel <= usize::MAX,
            fuel > 0,
            walk_children(doc@.nodes, children.take(i as int), depth + 1, (fuel - 1) as nat) is Ok,
            out@ == head + walk_children(
                doc@.nodes,
                children.take(i as int),
                depth + 1,
                (fuel - 1) as nat,
            )->Ok_0,
        decreases children.len() - i,
    {
        let ghost before = out@;
        assert(children.take(i + 1).drop_last() =~= children.take(i as int));
        assert(children.take(i + 1).last() == children[i as int]);
        match walk_from(doc, node.children[i], depth + 1, fuel - 1, out) {
            Ok(()) => {
                assert(out@ =~= head + walk_children(
                    doc@.nodes,
                    children.take(i + 1),
                    depth + 1,
                    (fuel - 1) as nat,
                )->Ok_0);
            },
            Err(e) => {
                proof {
                    assert(walk_node(
                        doc@.nodes,
                        children[i as int] as int,
                        depth + 1,
                        (fuel - 1) as nat,
                    ) == Err::<Seq<(u32, usize)>, Error>(e));
                    assert(walk_children(
                        doc@.nodes,
                        children.take(i + 1),
                        depth + 1,
                        (fuel - 1) as nat,
                    ) == Err::<Seq<(u32, usize)>, Error>(e));
                    lemma_walk_children_fails(
                        doc@.nodes,
                        children,
                        depth + 1,
                        (fuel - 1) as nat,
                        i + 1,
                    );
                }
                return Err(e);
            },
        }
        i += 1;
    }
    assert(children.take(children.len() as int) =~= children);
    assert(out@ =~= old(out)@ + (seq![(n, depth)] + walk_children(
        doc@.nodes,
        children,
        depth + 1,
        (fuel - 1) as nat,
    )->Ok_0));
    Ok(())
}

/// Lists the nodes of the tree under `root`, each with its depth below the
/// root, parent before child and children in their listed order.
///
/// Fails with `OutOfBounds` where `root` or a child index names no node,
/// and with `FormatError` where a path from `root` downwards is longer than
/// the number of nodes, which happens only in a graph with a cycle.
pub fn walk(doc: &Document, root: u32) -> (r: Result<Vec<(u32, usize)>, Error>)
    ensures
        match walk_node(doc@.nodes, root as int, 0, doc@.nodes.len()) {
            Ok(visited) => r is Ok && r->Ok_0@ == visited,
            Err(e) => r == Err::<Vec<(u32, usize)>, Error>(e),
        },
{
    let mut out: Vec<(u32, usize)> = Vec::new();
    match walk_from(doc, root, 0, doc.nodes.len(), &mut out) {
        Ok(()) => {
            assert(out@ =~= walk_node(doc@.nodes, root as int, 0, doc@.nodes.len())->Ok_0);
            Ok(out)
        },
        Err(e) => Err(e),
    }
}

} // verus!
