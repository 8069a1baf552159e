//! An in-memory dataset: a first-in-first-out queue or a last-in-first-out stack.
use vstd::prelude::*;

use crate::dataset::{inserted, Dataset};
use crate::error::Error;

verus! {

/// An in-memory collection that hands items out in the order they were
/// written (a queue) or in the reverse order (a stack). Its reads and writes
/// never fail.
#[derive(Debug)]
pub struct InMemDataset<T> {
    data: Vec<T>,
    lifo: bool,
}

impl<T> InMemDataset<T> {
    /// Creates an empty first-in-first-out queue.
    pub fn new() -> (d: InMemDataset<T>)
        ensures
            d.items() == Seq::<T>::empty(),
            !d.writes_to_front(),
            d.never_fails(),
    {
        InMemDataset { data: Vec::new(), lifo: false }
    }

    /// Creates an empty first-in-first-out queue.
    pub fn queue() -> (d: InMemDataset<T>)
        ensures
            d.items() == Seq::<T>::empty(),
            !d.writes_to_front(),
            d.never_fails(),
    {
        InMemDataset { data: Vec::new(), lifo: false }
    }

    /// Creates an empty last-in-first-out stack.
    pub fn stack() -> (d: InMemDataset<T>)
        ensures
            d.items() == Seq::<T>::empty(),
            d.writes_to_front(),
            d.never_fails(),
    {
        InMemDataset { data: Vec::new(), lifo: true }
    }
}

impl<T> Dataset<T> for InMemDataset<T> {
    closed spec fn items(&self) -> Seq<T> {
        if self.lifo {
            self.data@.reverse()
        } else {
            self.data@
        }
    }

    closed spec fn writes_to_front(&self) -> bool {
        self.lifo
    }

    closed spec fn never_fails(&self) -> bool {
        true
    }

    fn write(&mut self, data: T) -> (r: Result<(), Error>)
        ensures
            r is Ok,
    {
        self.data.push(data);
        proof {
            if self.lifo {
                assert(self.data@.reverse() == seq![data] + old(self).data@.reverse());
            }
        }
        Ok(())
    }

    fn read(&mut self) -> (r: Result<Option<T>, Error>)
        ensures
            r is Ok,
    {
        if self.data.len() == 0 {
            return Ok(None);
        }
        if self.lifo {
            let x = self.data.pop();
            proof {
                assert(old(self).data@.reverse().drop_first() == self.data@.reverse());
            }
            Ok(x)
        } else {
            let x = self.data.remove(0);
            Ok(Some(x))
        }
    }

    fn len(&self) -> (n: usize) {
        self.data.len()
    }
}

} // verus!
