//! From what listing a directory gave to the paths that a traversal walks.

use crate::error::DirectoryAccessError;
use vstd::prelude::*;

verus! {

/// What listing a directory gave: one result for each entry met, in the
/// order in which the system gave them, or the reason why the directory could
/// not be opened. An entry is its path, or the reason it could not be had.
pub type Listing = Result<Vec<Result<String, String>>, String>;

/// The paths of the entries that could be had, in listing order. An entry
/// that failed leaves no trace.
pub open spec fn listed(entries: Seq<Result<String, String>>) -> Seq<Seq<char>>
    decreases entries.len(),
{
    if entries.len() == 0 {
        Seq::empty()
    } else {
        let before = listed(entries.drop_last());
        match entries.last() {
            Ok(path) => before.push(path@),
            Err(_) => before,
        }
    }
}

/// The paths to walk for `directory`: every entry that could be had, in listing
/// order. Entries that failed are skipped in silence; a directory that could
/// not be opened is an error that names it.
pub fn list_directory(directory: &str, listing: Listing) -> (paths: Result<
    Vec<String>,
    DirectoryAccessError,
>)
    ensures
        match listing {
            Ok(entries) => paths matches Ok(files) && files.deep_view() == listed(entries@),
            Err(reason) => paths matches Err(e) && e.path@ == directory@ && e.reason@
                == reason@,
        },
{
    match listing {
        Err(reason) => Err(DirectoryAccessError { path: directory.to_owned(), reason }),
        Ok(entries) => {
            let mut files: Vec<String> = Vec::new();
            let mut i: usize = 0;
            assert(files.deep_view() =~= listed(entries@.take(0)));
            while i < entries.len()
                invariant
                    i <= entries.len(),
                    files.deep_view() == listed(entries@.take(i as int)),
                decreases entries.len() - i,
            {
                let ghost before = files.deep_view();
                assert(entries@.take(i + 1).drop_last() =~= entries@.take(i as int));
                match &entries[i] {
                    Ok(path) => {
                        files.push(path.clone());
                        assert(files.deep_view() =~= before.push(path@));
                    },
                    Err(_) => {},
                }
                i = i + 1;
            }
            assert(entries@.take(i as int) =~= entries@);
            Ok(files)
        },
    }
}

} // verus!
