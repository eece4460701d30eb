//! The values that a traversal hands out.

use vstd::prelude::*;

verus! {

/// The mathematical content of a [`FileData`].
pub struct FileDataView {
    pub path: Seq<char>,
    pub content: Seq<u8>,
}

/// One file that was read: where it lies, and every byte of it.
#[derive(Debug, PartialEq, Eq)]
pub struct FileData {
    path: String,
    content: Vec<u8>,
}

impl View for FileData {
    type V = FileDataView;

    closed spec fn view(&self) -> FileDataView {
        FileDataView { path: self.path@, content: self.content@ }
    }
}

impl DeepView for FileData {
    type V = FileDataView;

    open spec fn deep_view(&self) -> FileDataView {
        self@
    }
}

impl FileData {
    /// Pairs a path with the bytes read from it.
    pub fn new(path: String, content: Vec<u8>) -> (item: FileData)
        ensures
            item@.path == path@,
            item@.content == content@,
    {
        FileData { path, content }
    }

    /// The path, as text.
    pub fn path(&self) -> (path: String)
        ensures
            path@ == self@.path,
    {
        self.path.clone()
    }

    /// The bytes of the file.
    pub fn content(&self) -> (content: &Vec<u8>)
        ensures
            content@ == self@.content,
    {
        &self.content
    }

    /// The number of bytes in the file.
    pub fn len(&self) -> (n: usize)
        ensures
            n == self@.content.len(),
    {
        self.content.len()
    }
}

/// The shape in which a traversal hands out each file: with its path, or as
/// bare bytes.
pub trait ItemShape: DeepView + Sized {
    /// The item that stands for the file at `path` holding `content`.
    spec fn shape(path: Seq<char>, content: Seq<u8>) -> <Self as DeepView>::V;

    /// Makes the item for the file at `path` from the bytes read from it.
    fn build(path: &String, content: Vec<u8>) -> (item: Self)
        ensures
            item.deep_view() == Self::shape(path@, content@),
    ;
}

impl ItemShape for FileData {
    open spec fn shape(path: Seq<char>, content: Seq<u8>) -> FileDataView {
        FileDataView { path, content }
    }

    fn build(path: &String, content: Vec<u8>) -> (item: FileData) {
        FileData::new(path.clone(), content)
    }
}

impl ItemShape for Vec<u8> {
    open spec fn shape(path: Seq<char>, content: Seq<u8>) -> Seq<u8> {
        content
    }

    fn build(path: &String, content: Vec<u8>) -> (item: Vec<u8>) {
        assert(content.deep_view() =~= content@);
        content
    }
}

} // verus!
