use vstd::prelude::*;

verus! {

/// The components of a sequence of triples, one after another.
pub open spec fn flatten3(p: Seq<[u32; 3]>) -> Seq<u32> {
    Seq::new(3 * p.len(), |k: int| p[k / 3]@[k % 3])
}

/// The components of a sequence of pairs, one after another.
pub open spec fn flatten2(p: Seq<[u32; 2]>) -> Seq<u32> {
    Seq::new(2 * p.len(), |k: int| p[k / 2]@[k % 2])
}

/// The words of `ws` taken three at a time. Words left over at the end,
/// fewer than three, belong to no triple.
pub open spec fn group3(ws: Seq<u32>) -> Seq<[u32; 3]> {
    Seq::new(ws.len() / 3, |i: int| [ws[3 * i], ws[3 * i + 1], ws[3 * i + 2]])
}

/// The words of `ws` taken two at a time. A word left over at the end
/// belongs to no pair.
pub open spec fn group2(ws: Seq<u32>) -> Seq<[u32; 2]> {
    Seq::new(ws.len() / 2, |i: int| [ws[2 * i], ws[2 * i + 1]])
}

/// Grouping the flattened triples gives the triples back.
pub proof fn lemma_group3_flatten3(p: Seq<[u32; 3]>)
    ensures
        flatten3(p).len() == 3 * p.len(),
        group3(flatten3(p)) == p,
{
    let f = flatten3(p);
    let g = group3(f);
    assert(g.len() == p.len());
    assert forall|i: int| 0 <= i < p.len() implies g[i] == p[i] by {
        assert(f[3 * i] == p[i]@[0]);
        assert(f[3 * i + 1] == p[i]@[1]);
        assert(f[3 * i + 2] == p[i]@[2]);
        assert(g[i]@ =~= p[i]@);
    }
    assert(g =~= p);
}

/// Grouping the flattened pairs gives the pairs back.
pub proof fn lemma_group2_flatten2(p: Seq<[u32; 2]>)
    ensures
        flatten2(p).len() == 2 * p.len(),
        group2(flatten2(p)) == p,
{
    let f = flatten2(p);
    let g = group2(f);
    assert(g.len() == p.len());
    assert forall|i: int| 0 <= i < p.len() implies g[i] == p[i] by {
        assert(f[2 * i] == p[i]@[0]);
        assert(f[2 * i + 1] == p[i]@[1]);
        assert(g[i]@ =~= p[i]@);
    }
    assert(g =~= p);
}

/// The components of `points`, one after another.
pub fn flatten_triples(points: &[[u32; 3]]) -> (out: Vec<u32>)
    ensures
        out@ == flatten3(points@),
{
    let mut out: Vec<u32> = Vec::new();
    let mut i: usize = 0;
    while i < points.len()
        invariant
            i <= points@.len(),
            out@ == flatten3(points@.take(i as int)),
        decreases points@.len() - i,
    {
        let p: [u32; 3] = points[i];
        out.push(p[0]);
        out.push(p[1]);
        out.push(p[2]);
        proof {
            let a = points@.take(i as int);
            let b = points@.take(i + 1);
            assert forall|k: int| 0 <= k < 3 * b.len() implies out@[k] == flatten3(b)[k] by {
                if k < 3 * i {
                    assert(a[k / 3] == b[k / 3]);
                } else {
                    assert(k / 3 == i);
                    assert(b[i as int] == p);
                }
            }
            assert(out@ =~= flatten3(b));
        }
        i += 1;
    }
    assert(points@.take(points@.len() as int) =~= points@);
    out
}

/// The components of `points`, one after another.
pub fn flatten_pairs(points: &[[u32; 2]]) -> (out: Vec<u32>)
    ensures
        out@ == flatten2(points@),
{
    let mut out: Vec<u32> = Vec::new();
    let mut i: usize = 0;
    while i < points.len()
        invariant
            i <= points@.len(),
            out@ == flatten2(points@.take(i as int)),
        decreases points@.len() - i,
    {
        let p: [u32; 2] = points[i];
        out.push(p[0]);
        out.push(p[1]);
        proof {
            let a = points@.take(i as int);
            let b = points@.take(i + 1);
            assert forall|k: int| 0 <= k < 2 * b.len() implies out@[k] == flatten2(b)[k] by {
                if k < 2 * i {
                    assert(a[k / 2] == b[k / 2]);
                } else {
                    assert(k / 2 == i);
                    assert(b[i as int] == p);
                }
            }
            assert(out@ =~= flatten2(b));
        }
        i += 1;
    }
    assert(points@.take(points@.len() as int) =~= points@);
    out
}

/// The words of `ws` taken three at a time; a remainder of one or two words
/// is dropped.
pub fn group_triples(ws: &[u32]) -> (out: Vec<[u32; 3]>)
    ensures
        out@ == group3(ws@),
{
    let n: usize = ws.len() / 3;
    let mut out: Vec<[u32; 3]> = Vec::new();
    let mut i: usize = 0;
    while i < n
        invariant
            n == ws@.len() / 3,
            3 * n <= ws@.len() <= usize::MAX,
            i <= n,
            out@.len() == i,
            forall|j: int| 0 <= j < i ==> out@[j] == group3(ws@)[j],
        decreases n - i,
    {
        out.push([ws[3 * i], ws[3 * i + 1], ws[3 * i + 2]]);
        i += 1;
    }
    assert(out@ =~= group3(ws@));
    out
}

/// The words of `ws` taken two at a time; a remaining single word is
/// dropped.
pub fn group_pairs(ws: &[u32]) -> (out: Vec<[u32; 2]>)
    ensures
        out@ == group2(ws@),
{
    let n: usize = ws.len() / 2;
    let mut out: Vec<[u32; 2]> = Vec::new();
    let mut i: usize = 0;
    while i < n
        invariant
            n == ws@.len() / 2,
            2 * n <= ws@.len() <= usize::MAX,
            i <= n,
            out@.len() == i,
            forall|j: int| 0 <= j < i ==> out@[j] == group2(ws@)[j],
        decreases n - i,
    {
        out.push([ws[2 * i], ws[2 * i + 1]]);
        i += 1;
    }
    assert(out@ =~= group2(ws@));
    out
}

} // verus!
