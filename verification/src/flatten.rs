//! The flattened traversal: one item at a time, one batch read at a time.

use crate::cursor::{batch_size_or_default, read_of, FilesBatchIterator, Step};
use crate::error::{DirectoryAccessError, FileReadError};
use crate::item::ItemShape;
use crate::listing::{listed, Listing};
use crate::model::{Flat, Reply};
use std::collections::VecDeque;
use vstd::prelude::*;

verus! {

/// Walks the files of a directory one item at a time.
///
/// Underneath, files are still read a batch at a time: a read is wanted only
/// when every item of the batch before has been handed out.
pub struct FlattenFilesIterator<T: ItemShape> {
    inner: FilesBatchIterator<T>,
    buffer: VecDeque<T>,
}

impl<T: ItemShape> View for FlattenFilesIterator<T> {
    type V = Flat<<T as DeepView>::V>;

    closed spec fn view(&self) -> Flat<<T as DeepView>::V> {
        Flat { cursor: self.inner@, buffer: self.buffer.deep_view() }
    }
}

impl<T: ItemShape> FlattenFilesIterator<T> {
    /// A flattened view of the batched traversal `inner`, from where it stands.
    pub fn wrap(inner: FilesBatchIterator<T>) -> (it: Self)
        ensures
            it@ == (Flat { cursor: inner@, buffer: Seq::empty() }),
            it@.cursor.wf(),
    {
        proof {
            use_type_invariant(&inner);
        }
        let it = FlattenFilesIterator { inner, buffer: VecDeque::new() };
        assert(it.buffer.deep_view() =~= Seq::empty());
        it
    }

    /// A flattened traversal of `files` in the order given, reading
    /// `batch_size` files at a time (one where none is given).
    pub fn from_paths(files: Vec<String>, batch_size: Option<usize>) -> (it: Self)
        ensures
            it@ == Flat::<<T as DeepView>::V>::start(
                files.deep_view(),
                batch_size_or_default(batch_size),
            ),
            it@.cursor.wf(),
    {
        Self::wrap(FilesBatchIterator::from_paths(files, batch_size))
    }

    /// A flattened traversal of `directory`, from what listing it gave: over the
    /// entries that could be had, in listing order. There is none for a
    /// directory that could not be opened.
    pub fn new(directory: &str, listing: Listing, batch_size: Option<usize>) -> (it: Result<
        Self,
        DirectoryAccessError,
    >)
        ensures
            match listing {
                Ok(entries) => it matches Ok(made) && made@.cursor.wf() && made@ == Flat::<
                    <T as DeepView>::V,
                >::start(listed(entries@), batch_size_or_default(batch_size)),
                Err(reason) => it matches Err(e) && e.path@ == directory@ && e.reason@
                    == reason@,
            },
    {
        match FilesBatchIterator::new(directory, listing, batch_size) {
            Ok(inner) => Ok(Self::wrap(inner)),
            Err(e) => Err(e),
        }
    }

    /// The number of paths listed; neither reading nor handing out changes it.
    pub fn len(&self) -> (n: usize)
        ensures
            self@.cursor.wf(),
            n == self@.cursor.paths.len(),
    {
        self.inner.len()
    }

    /// Whether the traversal is over: nothing is buffered and no read is wanted,
    /// now or later.
    pub fn is_exhausted(&self) -> (over: bool)
        ensures
            self@.cursor.wf(),
            over == self@.exhausted(),
    {
        let over = self.inner.is_exhausted();
        self.buffer.len() == 0 && over
    }

    /// The file that the traversal wants read next: none while items are
    /// buffered, none once it is over.
    pub fn next_path(&self) -> (path: Option<&String>)
        ensures
            self@.cursor.wf(),
            self@.wants_read() <==> path is Some,
            path matches Some(p) ==> p@ == self@.cursor.paths[self@.cursor.position as int],
    {
        let wanted = self.inner.next_path();
        if self.buffer.len() == 0 {
            wanted
        } else {
            None
        }
    }

    /// Hands out the oldest buffered item, if there is one.
    pub fn next_item(&mut self) -> (item: Option<T>)
        ensures
            final(self)@.cursor.wf(),
            final(self)@.cursor.paths == old(self)@.cursor.paths,
            final(self)@ == old(self)@.after_take(),
            match old(self)@.front() {
                Some(front) => item matches Some(x) && x.deep_view() == front,
                None => item is None,
            },
    {
        proof {
            use_type_invariant(&self.inner);
        }
        let ghost before = self.buffer.deep_view();
        let item = self.buffer.pop_front();
        assert(item is Some ==> self.buffer.deep_view() =~= before.drop_first());
        item
    }

    /// Delivers what came of reading the file named by
    /// [`next_path`](Self::next_path). Returns how many items became ready to be
    /// handed out: those of the batch that this file completed, or none.
    pub fn supply(&mut self, outcome: Result<Vec<u8>, String>) -> (ready: Result<
        usize,
        FileReadError,
    >)
        ensures
            final(self)@.cursor.wf(),
            final(self)@.cursor.paths == old(self)@.cursor.paths,
            final(self)@ == old(self)@.after_read(read_of::<T>(old(self)@.cursor, outcome)),
            match old(self)@.reply(read_of::<T>(old(self)@.cursor, outcome)) {
                Reply::Batch(items) => ready matches Ok(n) && n == items.len(),
                Reply::Failed { path, reason } => ready matches Err(e) && e.path@ == path
                    && e.reason@ == reason,
                Reply::More | Reply::Done => ready matches Ok(n) && n == 0,
            },
    {
        proof {
            use_type_invariant(&self.inner);
        }
        if self.buffer.len() > 0 {
            return Ok(0);
        }
        assert(self.buffer.deep_view() =~= Seq::empty());
        match self.inner.supply(outcome) {
            Step::Done => Ok(0),
            Step::More => Ok(0),
            Step::Failed(e) => Err(e),
            Step::Batch(batch) => {
                let ready: usize = batch.len();
                self.refill(batch);
                Ok(ready)
            },
        }
    }

    /// Moves a fetched batch into the empty buffer, keeping its order.
    fn refill(&mut self, batch: Vec<T>)
        requires
            old(self).buffer@.len() == 0,
        ensures
            final(self).inner == old(self).inner,
            final(self).buffer.deep_view() == batch.deep_view(),
    {
        let mut batch = batch;
        let ghost whole = batch.deep_view();
        assert(self.buffer.deep_view() =~= Seq::empty());
        while batch.len() > 0
            invariant
                self.inner == old(self).inner,
                batch.deep_view() + self.buffer.deep_view() == whole,
            decreases batch.len(),
        {
            let ghost front = batch.deep_view();
            let ghost back = self.buffer.deep_view();
            match batch.pop() {
                Some(item) => {
                    self.buffer.push_front(item);
                    assert(batch.deep_view() =~= front.drop_last());
                    assert(self.buffer.deep_view() =~= seq![front.last()] + back);
                    assert(batch.deep_view() + self.buffer.deep_view() =~= front + back);
                },
                None => {},
            }
        }
        assert(self.buffer.deep_view() =~= whole);
    }
}

} // verus!
