//! Collections that requests and scraped data are written to and read from.
use vstd::prelude::*;

use crate::error::Error;

pub mod memory;

verus! {

/// Where a written item goes: to the front of the read order when `front`,
/// to its end otherwise.
pub open spec fn inserted<T>(items: Seq<T>, x: T, front: bool) -> Seq<T> {
    if front {
        seq![x] + items
    } else {
        items.push(x)
    }
}

/// The read order after writing all of `xs`, first to last.
pub open spec fn written<T>(items: Seq<T>, xs: Seq<T>, front: bool) -> Seq<T>
    decreases xs.len(),
{
    if xs.len() == 0 {
        items
    } else {
        inserted(written(items, xs.drop_last(), front), xs.last(), front)
    }
}

/// An expandable collection of items with a queryable size.
///
/// Its items form a sequence in the order in which [`Dataset::read`] hands
/// them out; a write puts the new item at the front of that order (a stack)
/// or at its end (a queue).
pub trait Dataset<T>: Sized {
    /// The items, in the order in which `read` returns them.
    spec fn items(&self) -> Seq<T>;

    /// Whether writes go to the front of the read order.
    spec fn writes_to_front(&self) -> bool;

    /// Whether reads and writes always succeed.
    spec fn never_fails(&self) -> bool;

    /// Adds an item to the collection.
    fn write(&mut self, data: T) -> (r: Result<(), Error>)
        ensures
            final(self).writes_to_front() == old(self).writes_to_front(),
            final(self).never_fails() == old(self).never_fails(),
            old(self).never_fails() ==> r is Ok,
            r is Ok ==> final(self).items() == inserted(
                old(self).items(),
                data,
                old(self).writes_to_front(),
            ),
    ;

    /// Removes and returns the next item, or `None` if the collection is empty.
    fn read(&mut self) -> (r: Result<Option<T>, Error>)
        ensures
            final(self).writes_to_front() == old(self).writes_to_front(),
            final(self).never_fails() == old(self).never_fails(),
            old(self).never_fails() ==> r is Ok,
            match r {
                Ok(None) => old(self).items().len() == 0 && final(self).items() == old(self).items(),
                Ok(Some(x)) => old(self).items().len() > 0 && x == old(self).items()[0]
                    && final(self).items() == old(self).items().drop_first(),
                Err(_) => true,
            },
    ;

    /// Returns the number of items in the collection.
    fn len(&self) -> (n: usize)
        ensures
            n == self.items().len(),
    ;

    /// Returns `true` if the collection holds no items.
    fn is_empty(&self) -> (r: bool)
        ensures
            r == (self.items().len() == 0),
    {
        self.len() == 0
    }
}

/// Bulk reads and writes, available on every [`Dataset`].
pub trait DatasetBulkExt<T>: Dataset<T> {
    /// Writes all of `items`, first to last; stops at the first failed write.
    fn write_bulk(&mut self, items: Vec<T>) -> (r: Result<(), Error>)
        ensures
            final(self).writes_to_front() == old(self).writes_to_front(),
            final(self).never_fails() == old(self).never_fails(),
            old(self).never_fails() ==> r is Ok,
            r is Ok ==> final(self).items() == written(
                old(self).items(),
                items@,
                old(self).writes_to_front(),
            ),
    {
        let mut rest = items;
        let ghost all = rest@;
        let ghost start = self.items();
        let ghost front = self.writes_to_front();
        let mut i: usize = 0;
        assert(all.len() == rest.len());
        while rest.len() > 0
            invariant
                all.len() <= usize::MAX,
                self.writes_to_front() == front,
                self.never_fails() == old(self).never_fails(),
                start == old(self).items(),
                front == old(self).writes_to_front(),
                i <= all.len(),
                rest@ == all.skip(i as int),
                self.items() == written(start, all.take(i as int), front),
            decreases rest.len(),
        {
            let item = rest.remove(0);
            match self.write(item) {
                Ok(()) => {},
                Err(e) => {
                    return Err(e);
                },
            }
            assert(all.take(i + 1).drop_last() == all.take(i as int));
            assert(all.take(i + 1).last() == all[i as int]);
            i = i + 1;
        }
        assert(all.take(i as int) == all);
        Ok(())
    }

    /// Reads up to `count` items; fewer if the collection runs out first.
    fn read_bulk(&mut self, count: usize) -> (r: Result<Vec<T>, Error>)
        ensures
            final(self).writes_to_front() == old(self).writes_to_front(),
            final(self).never_fails() == old(self).never_fails(),
            old(self).never_fails() ==> r is Ok,
            r matches Ok(v) ==> {
                &&& v@.len() == if count <= old(self).items().len() { count as nat } else { old(self).items().len() }
                &&& v@ == old(self).items().take(v@.len() as int)
                &&& final(self).items() == old(self).items().skip(v@.len() as int)
            },
    {
        let mut out: Vec<T> = Vec::new();
        let ghost start = self.items();
        let mut n: usize = 0;
        while n < count
            invariant_except_break
                n <= count,
                out@.len() == n,
                n <= start.len(),
                out@ == start.take(n as int),
                self.items() == start.skip(n as int),
                self.writes_to_front() == old(self).writes_to_front(),
                self.never_fails() == old(self).never_fails(),
                start == old(self).items(),
            ensures
                out@.len() == if count <= start.len() { count as nat } else { start.len() },
                out@ == start.take(out@.len() as int),
                self.items() == start.skip(out@.len() as int),
                self.writes_to_front() == old(self).writes_to_front(),
                self.never_fails() == old(self).never_fails(),
                start == old(self).items(),
            decreases count - n,
        {
            match self.read() {
                Ok(Some(item)) => {
                    out.push(item);
                    assert(start.take(n + 1) == start.take(n as int).push(start[n as int]));
                    assert(start.skip(n + 1) == start.skip(n as int).drop_first());
                    n = n + 1;
                },
                Ok(None) => {
                    assert(start.take(n as int) == start);
                    break;
                },
                Err(e) => {
                    return Err(e);
                },
            }
        }
        Ok(out)
    }

    /// Reads every item until the collection is empty.
    fn read_all(&mut self) -> (r: Result<Vec<T>, Error>)
        ensures
            final(self).writes_to_front() == old(self).writes_to_front(),
            final(self).never_fails() == old(self).never_fails(),
            old(self).never_fails() ==> r is Ok,
            r matches Ok(v) ==> v@ == old(self).items() && final(self).items().len() == 0,
    {
        let mut out: Vec<T> = Vec::new();
        let ghost start = self.items();
        loop
            invariant_except_break
                out@.len() <= start.len(),
                out@ == start.take(out@.len() as int),
                self.items() == start.skip(out@.len() as int),
                self.writes_to_front() == old(self).writes_to_front(),
                self.never_fails() == old(self).never_fails(),
                start == old(self).items(),
            ensures
                out@ == start,
                self.items().len() == 0,
                self.writes_to_front() == old(self).writes_to_front(),
                self.never_fails() == old(self).never_fails(),
            decreases self.items().len(),
        {
            match self.read() {
                Ok(Some(item)) => {
                    let ghost n = out@.len() as int;
                    out.push(item);
                    assert(start.take(n + 1) == start.take(n).push(start[n]));
                    assert(start.skip(n + 1) == start.skip(n).drop_first());
                },
                Ok(None) => {
                    assert(start.take(out@.len() as int) == start);
                    break;
                },
                Err(e) => {
                    return Err(e);
                },
            }
        }
        Ok(out)
    }
}

impl<T, D: Dataset<T>> DatasetBulkExt<T> for D {}

/// A queue hands items out in the order they were written.
pub proof fn lemma_queue_order<T>(xs: Seq<T>)
    ensures
        written(Seq::<T>::empty(), xs, false) == xs,
    decreases xs.len(),
{
    if xs.len() > 0 {
        lemma_queue_order(xs.drop_last());
        assert(xs.drop_last().push(xs.last()) =~= xs);
    }
}

/// A stack hands items out in the reverse of the order they were written.
pub proof fn lemma_stack_order<T>(xs: Seq<T>)
    ensures
        written(Seq::<T>::empty(), xs, true) == xs.reverse(),
    decreases xs.len(),
{
    if xs.len() > 0 {
        lemma_stack_order(xs.drop_last());
        assert(seq![xs.last()] + xs.drop_last().reverse() =~= xs.reverse());
    }
}

/// What a stack was last given is what it hands out next; a queue that
/// was empty hands out what it was given.
pub proof fn lemma_read_after_write<T>(items: Seq<T>, x: T)
    ensures
        inserted(items, x, true)[0] == x,
        inserted(Seq::<T>::empty(), x, false)[0] == x,
        items.len() > 0 ==> inserted(items, x, false)[0] == items[0],
        inserted(items, x, true).drop_first() == items,
{
    assert(inserted(items, x, true).drop_first() =~= items);
}

} // verus!
