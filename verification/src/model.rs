//! The traversal as a mathematical state machine.
//!
//! A cursor walks a fixed sequence of paths. Each file that was read moves it
//! one path forward and joins the batch under construction; the batch is handed
//! out as soon as it holds `batch_size` items or the paths have run out.

use vstd::prelude::*;

verus! {

/// What one attempt to read a file gave: the item made from its bytes, or the
/// system's reason for the failure.
pub type Read<V> = Result<V, Seq<char>>;

/// The state of a batched traversal over items of type `V`.
pub struct Cursor<V> {
    /// The paths listed when the traversal was made, in listing order.
    pub paths: Seq<Seq<char>>,
    /// How many items a full batch holds.
    pub batch_size: nat,
    /// The index of the next path to read.
    pub position: nat,
    /// The items read so far for the batch under construction.
    pub pending: Seq<V>,
}

/// What a cursor answers to one delivered read.
pub enum Reply<V> {
    /// No read was wanted: the traversal is over.
    Done,
    /// The item was taken; the batch is not complete yet.
    More,
    /// The item completed this batch.
    Batch(Seq<V>),
    /// The read failed for the file at `path`.
    Failed { path: Seq<char>, reason: Seq<char> },
}

impl<V> Cursor<V> {
    /// The cursor before anything was read.
    pub open spec fn start(paths: Seq<Seq<char>>, batch_size: nat) -> Cursor<V> {
        Cursor { paths, batch_size, position: 0, pending: Seq::empty() }
    }

    /// The position never passes the end, and a batch under construction is
    /// short of full and has a file left to read.
    pub open spec fn wf(self) -> bool {
        &&& self.position <= self.paths.len()
        &&& self.pending.len() <= self.position
        &&& self.pending.len() > 0 ==> self.pending.len() < self.batch_size && self.position
            < self.paths.len()
    }

    /// Whether the cursor asks for a file to be read.
    pub open spec fn wants_read(self) -> bool {
        self.batch_size > 0 && self.position < self.paths.len()
    }

    /// Whether the traversal is over: nothing will be read or handed out again.
    pub open spec fn exhausted(self) -> bool {
        !self.wants_read()
    }

    /// The index at which the batch under construction began.
    pub open spec fn batch_start(self) -> int {
        self.position - self.pending.len()
    }

    /// Whether one more item completes the batch under construction.
    pub open spec fn completes(self) -> bool {
        self.pending.len() + 1 >= self.batch_size || self.position + 1 >= self.paths.len()
    }

    /// The state after a read was delivered.
    pub open spec fn after(self, read: Read<V>) -> Cursor<V> {
        if !self.wants_read() {
            self
        } else {
            match read {
                Err(_) => Cursor { pending: Seq::empty(), ..self },
                Ok(item) => Cursor {
                    position: self.position + 1,
                    pending: if self.completes() {
                        Seq::empty()
                    } else {
                        self.pending.push(item)
                    },
                    ..self
                },
            }
        }
    }

    /// The answer to a delivered read.
    pub open spec fn reply(self, read: Read<V>) -> Reply<V> {
        if !self.wants_read() {
            Reply::Done
        } else {
            match read {
                Err(reason) => Reply::Failed { path: self.paths[self.position as int], reason },
                Ok(item) => if self.completes() {
                    Reply::Batch(self.pending.push(item))
                } else {
                    Reply::More
                },
            }
        }
    }

    /// The state after each of `reads` was delivered, in order.
    pub open spec fn after_all(self, reads: Seq<Read<V>>) -> Cursor<V>
        decreases reads.len(),
    {
        if reads.len() == 0 {
            self
        } else {
            self.after_all(reads.drop_last()).after(reads.last())
        }
    }

    /// The batches handed out from this state on, in order, when every file can
    /// be read and the file at index `i` makes the item `items[i]`.
    pub open spec fn yields(self, items: Seq<V>) -> Seq<Seq<V>>
        decreases self.paths.len() - self.position,
    {
        if self.wants_read() {
            let read = Ok(items[self.position as int]);
            match self.reply(read) {
                Reply::Batch(batch) => seq![batch] + self.after(read).yields(items),
                _ => self.after(read).yields(items),
            }
        } else {
            Seq::empty()
        }
    }
}

/// One call on a flattened traversal.
pub enum Call<V> {
    /// A read is delivered.
    Supply(Read<V>),
    /// The next item is asked for.
    Take,
}

/// The state of a flattened traversal: a batched one, and the items of its
/// latest batch that were not handed out yet.
pub struct Flat<V> {
    /// The batched traversal underneath.
    pub cursor: Cursor<V>,
    /// Items fetched and not handed out yet, oldest first.
    pub buffer: Seq<V>,
}

impl<V> Flat<V> {
    /// The flattened traversal before anything was read.
    pub open spec fn start(paths: Seq<Seq<char>>, batch_size: nat) -> Flat<V> {
        Flat { cursor: Cursor::start(paths, batch_size), buffer: Seq::empty() }
    }

    /// Whether a file is to be read: only once the buffer has been drained.
    pub open spec fn wants_read(self) -> bool {
        self.buffer.len() == 0 && self.cursor.wants_read()
    }

    /// Whether the traversal is over: nothing is buffered, nothing will be read.
    pub open spec fn exhausted(self) -> bool {
        self.buffer.len() == 0 && self.cursor.exhausted()
    }

    /// The state after a read was delivered: a completed batch fills the buffer.
    pub open spec fn after_read(self, read: Read<V>) -> Flat<V> {
        if !self.wants_read() {
            self
        } else {
            Flat {
                cursor: self.cursor.after(read),
                buffer: match self.cursor.reply(read) {
                    Reply::Batch(batch) => batch,
                    _ => self.buffer,
                },
            }
        }
    }

    /// The answer to a delivered read.
    pub open spec fn reply(self, read: Read<V>) -> Reply<V> {
        if !self.wants_read() {
            Reply::Done
        } else {
            self.cursor.reply(read)
        }
    }

    /// The item handed out next, if one is buffered.
    pub open spec fn front(self) -> Option<V> {
        if self.buffer.len() > 0 {
            Some(self.buffer[0])
        } else {
            None
        }
    }

    /// The state after the front item was handed out.
    pub open spec fn after_take(self) -> Flat<V> {
        if self.buffer.len() > 0 {
            Flat { buffer: self.buffer.drop_first(), ..self }
        } else {
            self
        }
    }

    /// The state after one call.
    pub open spec fn after_call(self, call: Call<V>) -> Flat<V> {
        match call {
            Call::Supply(read) => self.after_read(read),
            Call::Take => self.after_take(),
        }
    }

    /// The state after each of `calls` was made, in order.
    pub open spec fn after_calls(self, calls: Seq<Call<V>>) -> Flat<V>
        decreases calls.len(),
    {
        if calls.len() == 0 {
            self
        } else {
            self.after_calls(calls.drop_last()).after_call(calls.last())
        }
    }

    /// The items handed out from this state on, in order, when every file can
    /// be read and the file at index `i` makes the item `items[i]`.
    pub open spec fn drained(self, items: Seq<V>) -> Seq<V>
        decreases self.cursor.paths.len() - self.cursor.position, self.buffer.len(),
    {
        if self.buffer.len() > 0 {
            seq![self.buffer[0]] + self.after_take().drained(items)
        } else if self.cursor.wants_read() {
            self.after_read(Ok(items[self.cursor.position as int])).drained(items)
        } else {
            Seq::empty()
        }
    }
}

/// The number of batches that `total` files make: `total / batch_size`, rounded
/// up.
pub open spec fn batch_count(total: nat, batch_size: nat) -> nat {
    if batch_size == 0 {
        0
    } else {
        ((total + batch_size - 1) / (batch_size as int)) as nat
    }
}

/// `items` cut into consecutive batches of `batch_size`, the last one holding
/// what is left.
pub open spec fn batches<V>(items: Seq<V>, batch_size: nat) -> Seq<Seq<V>> {
    Seq::new(
        batch_count(items.len(), batch_size),
        |k: int|
            items.subrange(
                k * batch_size,
                if k * batch_size + batch_size <= items.len() {
                    k * batch_size + batch_size
                } else {
                    items.len() as int
                },
            ),
    )
}

} // verus!
