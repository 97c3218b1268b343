use crate::binary32::{
    greater, lesser, order_key, spec_greater, spec_is_nan, spec_lesser, GREATEST_FINITE,
    LEAST_FINITE,
};
use crate::document::{below, views, Accessor, AccessorModel, BufferView};
use vstd::prelude::*;

verus! {

/// The append-only tables of buffer views and accessors of a document under
/// construction. An accessor can only name a buffer view that is already in
/// the table.
pub struct Registry {
    views: Vec<BufferView>,
    accessors: Vec<Accessor>,
}

impl Registry {
    #[verifier::type_invariant]
    spec fn closed(self) -> bool {
        forall|i: int|
            0 <= i < self.accessors@.len() ==> below(
                (#[trigger] self.accessors@[i]).buffer_view,
                self.views@.len() as int,
            )
    }

    /// The buffer views registered so far, in the order of their indices.
    pub closed spec fn buffer_views(&self) -> Seq<BufferView> {
        self.views@
    }

    /// The accessors registered so far, in the order of their indices.
    pub closed spec fn accessors(&self) -> Seq<AccessorModel> {
        views(self.accessors@)
    }

    /// Two empty tables.
    pub fn new() -> (r: Registry)
        ensures
            r.buffer_views() == Seq::<BufferView>::empty(),
            r.accessors() == Seq::<AccessorModel>::empty(),
    {
        let r = Registry { views: Vec::new(), accessors: Vec::new() };
        assert(r.accessors() =~= Seq::<AccessorModel>::empty());
        r
    }

    /// Adds a buffer view at the end of its table and returns its index,
    /// which is the number of views registered before.
    pub fn register_view(&mut self, view: BufferView) -> (index: u32)
        requires
            old(self).buffer_views().len() < u32::MAX,
        ensures
            index == old(self).buffer_views().len(),
            final(self).buffer_views() == old(self).buffer_views().push(view),
            final(self).accessors() == old(self).accessors(),
    {
        proof {
            use_type_invariant(&*self);
        }
        let mut taken = Registry { views: Vec::new(), accessors: Vec::new() };
        core::mem::swap(self, &mut taken);
        let Registry { mut views, accessors } = taken;
        let index: u32 = views.len() as u32;
        views.push(view);
        let mut grown = Registry { views, accessors };
        core::mem::swap(self, &mut grown);
        index
    }

    /// Adds an accessor at the end of its table and returns its index, which
    /// is the number of accessors registered before. The buffer view that
    /// the accessor names must have been registered.
    pub fn register_accessor(&mut self, accessor: Accessor) -> (index: u32)
        requires
            old(self).accessors().len() < u32::MAX,
            below(accessor.buffer_view, old(self).buffer_views().len() as int),
        ensures
            index == old(self).accessors().len(),
            final(self).accessors() == old(self).accessors().push(accessor@),
            final(self).buffer_views() == old(self).buffer_views(),
    {
        proof {
            use_type_invariant(&*self);
        }
        let mut taken = Registry { views: Vec::new(), accessors: Vec::new() };
        core::mem::swap(self, &mut taken);
        let Registry { views, mut accessors } = taken;
        let index: u32 = accessors.len() as u32;
        accessors.push(accessor);
        let mut grown = Registry { views, accessors };
        core::mem::swap(self, &mut grown);
        assert(self.accessors() =~= old(self).accessors().push(accessor@));
        index
    }

    /// Gives up the two tables. Every accessor names a buffer view of the
    /// first table, if it names one.
    pub fn into_tables(self) -> (tables: (Vec<BufferView>, Vec<Accessor>))
        ensures
            tables.0@ == self.buffer_views(),
            views(tables.1@) == self.accessors(),
            forall|i: int|
                0 <= i < self.accessors().len() ==> below(
                    (#[trigger] self.accessors()[i]).buffer_view,
                    self.buffer_views().len() as int,
                ),
    {
        proof {
            use_type_invariant(&self);
            assert forall|i: int| 0 <= i < self.accessors().len() implies below(
                (#[trigger] self.accessors()[i]).buffer_view,
                self.buffer_views().len() as int,
            ) by {
                assert(self.accessors()[i].buffer_view == self.accessors@[i].buffer_view);
            }
        }
        (self.views, self.accessors)
    }
}

/// The table after the entries of `items` were registered in `table`, one
/// after another.
pub open spec fn registered<T>(table: Seq<T>, items: Seq<T>) -> Seq<T>
    decreases items.len(),
{
    if items.len() == 0 {
        table
    } else {
        registered(table, items.drop_last()).push(items.last())
    }
}

/// Indices are dense: when `items` are registered one after another in an
/// empty table, the registration of `items[k]` finds `k` entries in the
/// table, so it returns the index `k`, and the entry then stands at that
/// index for good.
pub proof fn lemma_indices_dense<T>(items: Seq<T>, k: int)
    requires
        0 <= k < items.len(),
    ensures
        registered(Seq::<T>::empty(), items.take(k)).len() == k,
        registered(Seq::<T>::empty(), items.take(k + 1)) == registered(
            Seq::<T>::empty(),
            items.take(k),
        ).push(items[k]),
        registered(Seq::<T>::empty(), items) == items,
{
    lemma_registered(items);
    lemma_registered(items.take(k));
    assert(items.take(k + 1).drop_last() =~= items.take(k));
}

/// Registering in an empty table gives the registered entries in order.
pub proof fn lemma_registered<T>(items: Seq<T>)
    ensures
        registered(Seq::<T>::empty(), items) == items,
    decreases items.len(),
{
    if items.len() > 0 {
        lemma_registered(items.drop_last());
        assert(items.drop_last().push(items.last()) =~= items);
    }
}

/// The components on `axis` of a sequence of triples.
pub open spec fn column3(points: Seq<[u32; 3]>, axis: int) -> Seq<u32> {
    Seq::new(points.len(), |j: int| points[j]@[axis])
}

/// The components on `axis` of a sequence of pairs.
pub open spec fn column2(points: Seq<[u32; 2]>, axis: int) -> Seq<u32> {
    Seq::new(points.len(), |j: int| points[j]@[axis])
}

/// The least of the greatest finite number and the numbers of `values`,
/// scanning from the front.
pub open spec fn lowest(values: Seq<u32>) -> u32
    decreases values.len(),
{
    if values.len() == 0 {
        GREATEST_FINITE
    } else {
        spec_lesser(lowest(values.drop_last()), values.last())
    }
}

/// The greatest of the least finite number and the numbers of `values`,
/// scanning from the front.
pub open spec fn highest(values: Seq<u32>) -> u32
    decreases values.len(),
{
    if values.len() == 0 {
        LEAST_FINITE
    } else {
        spec_greater(highest(values.drop_last()), values.last())
    }
}

/// `lowest(values)` is a number, is not above the greatest finite number nor
/// above any number of `values`, and is the greatest finite number or an
/// item of `values`.
pub proof fn lemma_lowest_is_minimum(values: Seq<u32>)
    ensures
        !spec_is_nan(lowest(values)),
        order_key(lowest(values)) <= order_key(GREATEST_FINITE),
        forall|j: int|
            0 <= j < values.len() && !spec_is_nan(values[j]) ==> order_key(lowest(values))
                <= order_key(values[j]),
        lowest(values) == GREATEST_FINITE || exists|j: int|
            0 <= j < values.len() && values[j] == lowest(values),
    decreases values.len(),
{
    if values.len() > 0 {
        let front = values.drop_last();
        lemma_lowest_is_minimum(front);
        assert forall|j: int| 0 <= j < values.len() && !spec_is_nan(values[j]) implies order_key(
            lowest(values),
        ) <= order_key(values[j]) by {
            if j < front.len() {
                assert(front[j] == values[j]);
            }
        }
        if lowest(values) != GREATEST_FINITE {
            if lowest(values) == values.last() {
                assert(values[values.len() - 1] == lowest(values));
            } else {
                let j = choose|j: int| 0 <= j < front.len() && front[j] == lowest(front);
                assert(values[j] == lowest(values));
            }
        }
    }
}

/// `highest(values)` is a number, is not below the least finite number nor
/// below any number of `values`, and is the least finite number or an item
/// of `values`.
pub proof fn lemma_highest_is_maximum(values: Seq<u32>)
    ensures
        !spec_is_nan(highest(values)),
        order_key(highest(values)) >= order_key(LEAST_FINITE),
        forall|j: int|
            0 <= j < values.len() && !spec_is_nan(values[j]) ==> order_key(highest(values))
                >= order_key(values[j]),
        highest(values) == LEAST_FINITE || exists|j: int|
            0 <= j < values.len() && values[j] == highest(values),
    decreases values.len(),
{
    if values.len() > 0 {
        let front = values.drop_last();
        lemma_highest_is_maximum(front);
        assert forall|j: int| 0 <= j < values.len() && !spec_is_nan(values[j]) implies order_key(
            highest(values),
        ) >= order_key(values[j]) by {
            if j < front.len() {
                assert(front[j] == values[j]);
            }
        }
        if highest(values) != LEAST_FINITE {
            if highest(values) == values.last() {
                assert(values[values.len() - 1] == highest(values));
            } else {
                let j = choose|j: int| 0 <= j < front.len() && front[j] == highest(front);
                assert(values[j] == highest(values));
            }
        }
    }
}

/// The component-wise minimum and maximum of `points`, whose components are
/// binary32 bit patterns. NaN components are passed over; with no number on
/// an axis the minimum is the greatest finite number and the maximum the
/// least finite number.
pub fn bounding_coords3d(points: &[[u32; 3]]) -> (r: ([u32; 3], [u32; 3]))
    ensures
        r.0 == [
            lowest(column3(points@, 0)),
            lowest(column3(points@, 1)),
            lowest(column3(points@, 2)),
        ],
        r.1 == [
            highest(column3(points@, 0)),
            highest(column3(points@, 1)),
            highest(column3(points@, 2)),
        ],
{
    let mut min0: u32 = GREATEST_FINITE;
    let mut min1: u32 = GREATEST_FINITE;
    let mut min2: u32 = GREATEST_FINITE;
    let mut max0: u32 = LEAST_FINITE;
    let mut max1: u32 = LEAST_FINITE;
    let mut max2: u32 = LEAST_FINITE;
    let mut i: usize = 0;
    while i < points.len()
        invariant
            i <= points@.len(),
            min0 == lowest(column3(points@.take(i as int), 0)),
            min1 == lowest(column3(points@.take(i as int), 1)),
            min2 == lowest(column3(points@.take(i as int), 2)),
            max0 == highest(column3(points@.take(i as int), 0)),
            max1 == highest(column3(points@.take(i as int), 1)),
            max2 == highest(column3(points@.take(i as int), 2)),
        decreases points@.len() - i,
    {
        let p: [u32; 3] = points[i];
        proof {
            let a = points@.take(i as int);
            let b = points@.take(i + 1);
            assert(b[i as int] == p);
            assert(column3(b, 0).drop_last() =~= column3(a, 0));
            assert(column3(b, 1).drop_last() =~= column3(a, 1));
            assert(column3(b, 2).drop_last() =~= column3(a, 2));
        }
        min0 = lesser(min0, p[0]);
        min1 = lesser(min1, p[1]);
        min2 = lesser(min2, p[2]);
        max0 = greater(max0, p[0]);
        max1 = greater(max1, p[1]);
        max2 = greater(max2, p[2]);
        i += 1;
    }
    assert(points@.take(points@.len() as int) =~= points@);
    ([min0, min1, min2], [max0, max1, max2])
}

/// The component-wise minimum and maximum of `points`, whose components are
/// binary32 bit patterns. NaN components are passed over; with no number on
/// an axis the minimum is the greatest finite number and the maximum the
/// least finite number.
pub fn bounding_coords2d(points: &[[u32; 2]]) -> (r: ([u32; 2], [u32; 2]))
    ensures
        r.0 == [lowest(column2(points@, 0)), lowest(column2(points@, 1))],
        r.1 == [highest(column2(points@, 0)), highest(column2(points@, 1))],
{
    let mut min0: u32 = GREATEST_FINITE;
    let mut min1: u32 = GREATEST_FINITE;
    let mut max0: u32 = LEAST_FINITE;
    let mut max1: u32 = LEAST_FINITE;
    let mut i: usize = 0;
    while i < points.len()
        invariant
            i <= points@.len(),
            min0 == lowest(column2(points@.take(i as int), 0)),
            min1 == lowest(column2(points@.take(i as int), 1)),
            max0 == highest(column2(points@.take(i as int), 0)),
            max1 == highest(column2(points@.take(i as int), 1)),
        decreases points@.len() - i,
    {
        let p: [u32; 2] = points[i];
        proof {
            let a = points@.take(i as int);
            let b = points@.take(i + 1);
            assert(b[i as int] == p);
            assert(column2(b, 0).drop_last() =~= column2(a, 0));
            assert(column2(b, 1).drop_last() =~= column2(a, 1));
        }
        min0 = lesser(min0, p[0]);
        min1 = lesser(min1, p[1]);
        max0 = greater(max0, p[0]);
        max1 = greater(max1, p[1]);
        i += 1;
    }
    assert(points@.take(points@.len() as int) =~= points@);
    ([min0, min1], [max0, max1])
}

} // verus!
