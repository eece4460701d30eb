//! The batched traversal.

use crate::error::{DirectoryAccessError, FileReadError};
use crate::item::ItemShape;
use crate::listing::{list_directory, listed, Listing};
use crate::model::{Cursor, Read, Reply};
use vstd::prelude::*;

verus! {

/// What the traversal answers to one delivered read.
#[derive(Debug)]
pub enum Step<T> {
    /// No read was wanted: the traversal is over, and the delivery changed nothing.
    Done,
    /// The file was taken into the batch under construction, which needs more.
    More,
    /// The file completed this batch.
    Batch(Vec<T>),
    /// The read failed; the batch under construction was dropped.
    Failed(FileReadError),
}

/// What `outcome` is to a traversal in state `c` over items of shape `T`: the
/// item made of the bytes for the file that `c` wants read, or the reason of
/// the failure.
pub open spec fn read_of<T: ItemShape>(
    c: Cursor<<T as DeepView>::V>,
    outcome: Result<Vec<u8>, String>,
) -> Read<<T as DeepView>::V> {
    match outcome {
        Ok(content) => Ok(T::shape(c.paths[c.position as int], content@)),
        Err(reason) => Err(reason@),
    }
}

/// The batch size that a traversal is made with: the one given, or one.
pub open spec fn batch_size_or_default(batch_size: Option<usize>) -> nat {
    match batch_size {
        Some(n) => n as nat,
        None => 1,
    }
}

/// Walks the files of a directory in batches of up to `batch_size` items.
///
/// The traversal does no reading itself. It names the next file to read
/// ([`next_path`](Self::next_path)); the caller reads that file and delivers
/// what came of it ([`supply`](Self::supply)).
pub struct FilesBatchIterator<T: ItemShape> {
    batch_size: usize,
    current_index: usize,
    files: Vec<String>,
    batch: Vec<T>,
}

impl<T: ItemShape> View for FilesBatchIterator<T> {
    type V = Cursor<<T as DeepView>::V>;

    closed spec fn view(&self) -> Cursor<<T as DeepView>::V> {
        Cursor {
            paths: self.files.deep_view(),
            batch_size: self.batch_size as nat,
            position: self.current_index as nat,
            pending: self.batch.deep_view(),
        }
    }
}

impl<T: ItemShape> FilesBatchIterator<T> {
    /// Every traversal is well formed, at every moment.
    #[verifier::type_invariant]
    pub open spec fn inv(&self) -> bool {
        self@.wf()
    }

    /// A traversal of `files` in the order given, `batch_size` files to a batch
    /// (one where none is given). With a batch size of zero no batch can ever
    /// be made: such a traversal is over from the start.
    pub fn from_paths(files: Vec<String>, batch_size: Option<usize>) -> (it: Self)
        ensures
            it@ == Cursor::<<T as DeepView>::V>::start(
                files.deep_view(),
                batch_size_or_default(batch_size),
            ),
            it@.wf(),
    {
        let batch_size: usize = match batch_size {
            Some(n) => n,
            None => 1,
        };
        let it = FilesBatchIterator { batch_size, current_index: 0, files, batch: Vec::new() };
        assert(it.batch.deep_view() =~= Seq::empty());
        it
    }

    /// A traversal of `directory`, from what listing it gave: over the entries
    /// that could be had, in listing order. There is none for a directory that
    /// could not be opened.
    pub fn new(directory: &str, listing: Listing, batch_size: Option<usize>) -> (it: Result<
        Self,
        DirectoryAccessError,
    >)
        ensures
            match listing {
                Ok(entries) => it matches Ok(made) && made@.wf() && made@ == Cursor::<
                    <T as DeepView>::V,
                >::start(listed(entries@), batch_size_or_default(batch_size)),
                Err(reason) => it matches Err(e) && e.path@ == directory@ && e.reason@
                    == reason@,
            },
    {
        match list_directory(directory, listing) {
            Ok(files) => Ok(Self::from_paths(files, batch_size)),
            Err(e) => Err(e),
        }
    }

    /// The number of paths listed; reading does not change it.
    pub fn len(&self) -> (n: usize)
        ensures
            self@.wf(),
            n == self@.paths.len(),
    {
        proof {
            use_type_invariant(self);
        }
        self.files.len()
    }

    /// The index of the next path to read: the number of files read so far.
    pub fn position(&self) -> (n: usize)
        ensures
            self@.wf(),
            n == self@.position,
    {
        proof {
            use_type_invariant(self);
        }
        self.current_index
    }

    /// How many items a full batch holds.
    pub fn batch_size(&self) -> (n: usize)
        ensures
            self@.wf(),
            n == self@.batch_size,
    {
        proof {
            use_type_invariant(self);
        }
        self.batch_size
    }

    /// Whether the traversal is over: no read is wanted, now or later.
    pub fn is_exhausted(&self) -> (over: bool)
        ensures
            self@.wf(),
            over == self@.exhausted(),
    {
        proof {
            use_type_invariant(self);
        }
        self.batch_size == 0 || self.current_index >= self.files.len()
    }

    /// The file that the traversal wants read next, or `None` once it is over.
    pub fn next_path(&self) -> (path: Option<&String>)
        ensures
            self@.wf(),
            self@.wants_read() <==> path is Some,
            path matches Some(p) ==> p@ == self@.paths[self@.position as int],
    {
        proof {
            use_type_invariant(self);
        }
        if self.batch_size > 0 && self.current_index < self.files.len() {
            Some(&self.files[self.current_index])
        } else {
            None
        }
    }

    /// Delivers what came of reading the file named by
    /// [`next_path`](Self::next_path): its bytes, or the reason it could not be
    /// read.
    pub fn supply(&mut self, outcome: Result<Vec<u8>, String>) -> (step: Step<T>)
        ensures
            final(self)@.wf(),
            final(self)@.paths == old(self)@.paths,
            final(self)@ == old(self)@.after(read_of::<T>(old(self)@, outcome)),
            match old(self)@.reply(read_of::<T>(old(self)@, outcome)) {
                Reply::Done => step is Done,
                Reply::More => step is More,
                Reply::Batch(items) => step matches Step::Batch(batch) && batch.deep_view()
                    == items,
                Reply::Failed { path, reason } => step matches Step::Failed(e) && e.path@ == path
                    && e.reason@ == reason,
            },
    {
        proof {
            use_type_invariant(&*self);
        }
        if self.batch_size == 0 || self.current_index >= self.files.len() {
            return Step::Done;
        }
        match outcome {
            Err(reason) => {
                self.batch = Vec::new();
                assert(self.batch.deep_view() =~= Seq::empty());
                Step::Failed(FileReadError { path: self.files[self.current_index].clone(), reason })
            },
            Ok(content) => {
                let item = T::build(&self.files[self.current_index], content);
                let ghost grown = self.batch.deep_view().push(item.deep_view());
                let complete = self.batch.len() + 1 >= self.batch_size || self.current_index + 1
                    >= self.files.len();
                let mut batch: Vec<T> = Vec::new();
                std::mem::swap(&mut batch, &mut self.batch);
                batch.push(item);
                assert(self.batch.deep_view() =~= Seq::empty());
                assert(batch.deep_view() =~= grown);
                self.current_index = self.current_index + 1;
                if complete {
                    Step::Batch(batch)
                } else {
                    self.batch = batch;
                    Step::More
                }
            },
        }
    }
}

} // verus!
