//! Lazy, batched traversal of the files of one directory.
//!
//! A traversal is made from the listing of a directory and then walks the
//! listed files in order: in batches ([`cursor::FilesBatchIterator`]) or one
//! item at a time ([`flatten::FlattenFilesIterator`]), each item a file's bytes
//! with or without its path ([`item::ItemShape`]).
//!
//! Nothing here touches the file system. A traversal names the file it wants
//! read next, and the caller delivers what came of reading it:
//!
//! ```text
//! loop {
//!     let path = match traversal.next_path() {
//!         Some(path) => path.clone(),
//!         None => return Ok(None),              // no more items
//!     };
//!     match traversal.supply(read(&path)) {     // Ok(bytes) or Err(reason)
//!         Step::More => {}
//!         Step::Batch(batch) => return Ok(Some(batch)),
//!         Step::Failed(e) => return Err(e),
//!         Step::Done => return Ok(None),
//!     }
//! }
//! ```
//!
//! What the traversals do is stated over the state machine of [`model`], and
//! [`laws`] proves what holds of every run of it.

pub mod cursor;
pub mod error;
pub mod flatten;
pub mod item;
pub mod laws;
pub mod listing;
pub mod model;
