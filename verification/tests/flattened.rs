use file_batches::cursor::{FilesBatchIterator, Step};
use file_batches::error::FileReadError;
use file_batches::flatten::FlattenFilesIterator;
use file_batches::item::{FileData, ItemShape};

/// An in-memory stand-in for the files of a directory.
struct Store {
    files: Vec<(String, Vec<u8>)>,
    reads: usize,
}

impl Store {
    fn of(files: &[(&str, &[u8])]) -> Store {
        Store { files: files.iter().map(|(p, c)| (p.to_string(), c.to_vec())).collect(), reads: 0 }
    }

    fn numbered(n: usize) -> Store {
        Store { files: (0..n).map(|i| (format!("/d/{i}"), vec![i as u8; 1 + i % 3])).collect(), reads: 0 }
    }

    fn paths(&self) -> Vec<String> {
        self.files.iter().map(|(p, _)| p.clone()).collect()
    }

    fn read(&mut self, path: &str) -> Result<Vec<u8>, String> {
        self.reads += 1;
        match self.files.iter().find(|(p, _)| p == path) {
            Some((_, content)) => Ok(content.clone()),
            None => Err("No such file or directory (os error 2)".to_string()),
        }
    }
}

/// One whole step of a flattened traversal; `fetched` takes the size of each
/// batch that was read on the way.
fn advance_one<T: ItemShape>(
    it: &mut FlattenFilesIterator<T>,
    store: &mut Store,
    fetched: &mut Vec<usize>,
) -> Result<Option<T>, FileReadError> {
    loop {
        if let Some(item) = it.next_item() {
            return Ok(Some(item));
        }
        let path = match it.next_path() {
            Some(path) => path.clone(),
            None => return Ok(None),
        };
        let ready = it.supply(store.read(&path))?;
        if ready > 0 {
            fetched.push(ready);
        }
    }
}

fn advance_batch<T: ItemShape>(
    it: &mut FilesBatchIterator<T>,
    store: &mut Store,
) -> Result<Option<Vec<T>>, FileReadError> {
    loop {
        let path = match it.next_path() {
            Some(path) => path.clone(),
            None => return Ok(None),
        };
        match it.supply(store.read(&path)) {
            Step::Done => return Ok(None),
            Step::More => {}
            Step::Batch(batch) => return Ok(Some(batch)),
            Step::Failed(e) => return Err(e),
        }
    }
}

fn three() -> Store {
    Store::of(&[("/d/a", b"aaa"), ("/d/b", b"bbbbb"), ("/d/c", b"cc")])
}

#[test]
fn flatten_over_batches_of_two() {
    let mut store = three();
    let mut fetched = Vec::new();
    let mut it = FlattenFilesIterator::<Vec<u8>>::from_paths(store.paths(), Some(2));
    assert_eq!(it.len(), 3);
    assert_eq!(advance_one(&mut it, &mut store, &mut fetched).unwrap(), Some(b"aaa".to_vec()));
    assert_eq!(fetched, vec![2]);
    assert_eq!(advance_one(&mut it, &mut store, &mut fetched).unwrap(), Some(b"bbbbb".to_vec()));
    assert_eq!(fetched, vec![2]);
    assert_eq!(advance_one(&mut it, &mut store, &mut fetched).unwrap(), Some(b"cc".to_vec()));
    assert_eq!(fetched, vec![2, 1]);
    assert_eq!(advance_one(&mut it, &mut store, &mut fetched).unwrap(), None);
    assert_eq!(fetched, vec![2, 1]);
    assert_eq!(it.len(), 3);
}

#[test]
fn flatten_keeps_the_paths() {
    let mut store = three();
    let mut fetched = Vec::new();
    let mut it = FlattenFilesIterator::<FileData>::from_paths(store.paths(), Some(2));
    let first = advance_one(&mut it, &mut store, &mut fetched).unwrap().unwrap();
    assert_eq!(first.path(), "/d/a");
    assert_eq!(first.content(), &b"aaa".to_vec());
    let second = advance_one(&mut it, &mut store, &mut fetched).unwrap().unwrap();
    assert_eq!(second, FileData::new("/d/b".to_string(), b"bbbbb".to_vec()));
}

#[test]
fn unbatched_flatten_hands_out_every_file_once() {
    for n in 0..9usize {
        let mut store = Store::numbered(n);
        let mut fetched = Vec::new();
        let mut it = FlattenFilesIterator::<FileData>::from_paths(store.paths(), None);
        let mut seen = Vec::new();
        while let Some(item) = advance_one(&mut it, &mut store, &mut fetched).unwrap() {
            seen.push(item.path());
        }
        assert_eq!(seen.len(), n);
        assert_eq!(seen, store.paths());
        assert_eq!(fetched, vec![1; n]);
    }
}

#[test]
fn flatten_hands_out_what_the_batches_hold_in_order() {
    for n in 0..11usize {
        for b in 1..6usize {
            let mut store = Store::numbered(n);
            let mut batched = FilesBatchIterator::<FileData>::from_paths(store.paths(), Some(b));
            let mut joined = Vec::new();
            let mut sizes = Vec::new();
            while let Some(batch) = advance_batch(&mut batched, &mut store).unwrap() {
                sizes.push(batch.len());
                joined.extend(batch);
            }
            let mut fetched = Vec::new();
            let mut flat = FlattenFilesIterator::<FileData>::from_paths(store.paths(), Some(b));
            let mut single = Vec::new();
            while let Some(item) = advance_one(&mut flat, &mut store, &mut fetched).unwrap() {
                single.push(item);
            }
            assert_eq!(single, joined);
            assert_eq!(single.len(), n);
            assert_eq!(fetched, sizes);
            assert_eq!(fetched.len(), (n + b - 1) / b);
        }
    }
}

#[test]
fn flatten_of_an_empty_listing_is_over_at_once() {
    let mut store = Store::of(&[]);
    let mut fetched = Vec::new();
    let mut it = FlattenFilesIterator::<FileData>::from_paths(Vec::new(), Some(3));
    assert_eq!(it.len(), 0);
    assert!(it.is_exhausted());
    assert_eq!(advance_one(&mut it, &mut store, &mut fetched).unwrap(), None);
    assert_eq!(store.reads, 0);
}

#[test]
fn flatten_exhaustion_is_final_and_reads_nothing() {
    let mut store = three();
    let mut fetched = Vec::new();
    let mut it = FlattenFilesIterator::<Vec<u8>>::from_paths(store.paths(), Some(2));
    while advance_one(&mut it, &mut store, &mut fetched).unwrap().is_some() {}
    assert_eq!(store.reads, 3);
    for _ in 0..4 {
        assert!(it.is_exhausted());
        assert_eq!(it.next_path(), None);
        assert_eq!(it.next_item(), None);
        assert_eq!(it.supply(Ok(b"late".to_vec())), Ok(0));
        assert_eq!(advance_one(&mut it, &mut store, &mut fetched).unwrap(), None);
    }
    assert_eq!(store.reads, 3);
    assert_eq!(fetched, vec![2, 1]);
}

#[test]
fn no_read_is_wanted_while_items_are_buffered() {
    let mut store = three();
    let mut it = FlattenFilesIterator::<Vec<u8>>::from_paths(store.paths(), Some(2));
    assert_eq!(it.supply(store.read("/d/a")), Ok(0));
    assert_eq!(it.next_item(), None);
    assert_eq!(it.next_path().unwrap(), "/d/b");
    assert_eq!(it.supply(store.read("/d/b")), Ok(2));
    assert_eq!(it.next_path(), None);
    assert!(!it.is_exhausted());
    assert_eq!(it.supply(Ok(b"unasked".to_vec())), Ok(0));
    assert_eq!(it.supply(Err("unasked".to_string())), Ok(0));
    assert_eq!(it.next_item(), Some(b"aaa".to_vec()));
    assert_eq!(it.next_path(), None);
    assert_eq!(it.next_item(), Some(b"bbbbb".to_vec()));
    assert_eq!(it.next_path().unwrap(), "/d/c");
    assert_eq!(it.supply(store.read("/d/c")), Ok(1));
    assert_eq!(it.next_item(), Some(b"cc".to_vec()));
    assert_eq!(it.next_item(), None);
    assert!(it.is_exhausted());
}

#[test]
fn flatten_reports_the_file_that_could_not_be_read() {
    let mut store = three();
    let mut fetched = Vec::new();
    let mut it = FlattenFilesIterator::<FileData>::from_paths(store.paths(), None);
    store.files.remove(1);
    let first = advance_one(&mut it, &mut store, &mut fetched).unwrap().unwrap();
    let failure = advance_one(&mut it, &mut store, &mut fetched).unwrap_err();
    assert_eq!(failure, FileReadError {
        path: "/d/b".to_string(),
        reason: "No such file or directory (os error 2)".to_string(),
    });
    assert_eq!(first, FileData::new("/d/a".to_string(), b"aaa".to_vec()));
    assert_eq!(it.len(), 3);
}

#[test]
fn flatten_fails_whole_when_a_file_of_the_batch_fails() {
    let mut store = three();
    let mut fetched = Vec::new();
    let mut it = FlattenFilesIterator::<FileData>::from_paths(store.paths(), Some(2));
    store.files.remove(1);
    let failure = advance_one(&mut it, &mut store, &mut fetched).unwrap_err();
    assert_eq!(failure.path, "/d/b");
    assert_eq!(it.next_item(), None);
    assert!(fetched.is_empty());
}

#[test]
fn wrap_goes_on_from_where_the_batched_traversal_stands() {
    let mut store = Store::numbered(5);
    let mut fetched = Vec::new();
    let mut batched = FilesBatchIterator::<FileData>::from_paths(store.paths(), Some(2));
    assert_eq!(advance_batch(&mut batched, &mut store).unwrap().unwrap().len(), 2);
    let mut it = FlattenFilesIterator::wrap(batched);
    assert_eq!(it.len(), 5);
    let mut seen = Vec::new();
    while let Some(item) = advance_one(&mut it, &mut store, &mut fetched).unwrap() {
        seen.push(item.path());
    }
    assert_eq!(seen, vec!["/d/2", "/d/3", "/d/4"]);
    assert_eq!(fetched, vec![2, 1]);
}
