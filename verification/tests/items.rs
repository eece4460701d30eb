use file_batches::item::{FileData, ItemShape};

#[test]
fn file_data_exposes_path_content_and_length() {
    let item = FileData::new("/d/a".to_string(), b"aaa".to_vec());
    assert_eq!(item.path(), "/d/a");
    assert_eq!(item.content(), &vec![b'a', b'a', b'a']);
    assert_eq!(item.len(), 3);
}

#[test]
fn empty_file_has_length_zero() {
    let item = FileData::new("/d/empty".to_string(), Vec::new());
    assert_eq!(item.len(), 0);
    assert!(item.content().is_empty());
}

#[test]
fn record_shape_keeps_the_path() {
    let path = "/d/b".to_string();
    let item = <FileData as ItemShape>::build(&path, vec![1, 2, 3, 4, 5]);
    assert_eq!(item, FileData::new("/d/b".to_string(), vec![1, 2, 3, 4, 5]));
    assert_eq!(item.len(), 5);
}

#[test]
fn bytes_shape_is_the_content_alone() {
    let path = "/d/b".to_string();
    let item = <Vec<u8> as ItemShape>::build(&path, vec![1, 2, 3, 4, 5]);
    assert_eq!(item, vec![1, 2, 3, 4, 5]);
}
