use tee_signer::error::TeeError;
use tee_signer::store::KeyStore;

fn id_with_tag(body: &[u8]) -> Vec<u8> {
    let mut id = vec![0x04u8];
    id.extend_from_slice(body);
    id
}

#[test]
fn create_then_read_returns_exact_bytes() {
    let mut store = KeyStore::new();
    for len in [0usize, 1, 15, 16, 17, 32, 255, 1024] {
        let id = id_with_tag(&[len as u8, 0xAA]);
        let data: Vec<u8> = (0..len).map(|i| (i % 251) as u8).collect();
        store.create_raw_object(&id, &data).unwrap();
        let back = store.read_raw_object(&id).unwrap();
        assert_eq!(back, data);
    }
}

#[test]
fn recreate_returns_only_new_data() {
    let mut store = KeyStore::new();
    let id = id_with_tag(b"same-id");
    let old_data = vec![0x11u8; 40];
    let new_data = vec![0x22u8; 7];
    store.create_raw_object(&id, &old_data).unwrap();
    store.create_raw_object(&id, &new_data).unwrap();
    let back = store.read_raw_object(&id).unwrap();
    assert_eq!(back, new_data);
}

#[test]
fn read_missing_is_not_found() {
    let store = KeyStore::new();
    let id = id_with_tag(b"never-created");
    assert_eq!(store.read_raw_object(&id), Err(TeeError::NotFound));
}

#[test]
fn delete_then_read_and_second_delete_fail() {
    let mut store = KeyStore::new();
    let id = id_with_tag(b"doomed");
    store.create_raw_object(&id, &vec![1, 2, 3]).unwrap();
    store.delete_object(&id).unwrap();
    assert_eq!(store.read_raw_object(&id), Err(TeeError::NotFound));
    assert_eq!(store.delete_object(&id), Err(TeeError::NotFound));
}

#[test]
fn tag_byte_is_stripped_from_identifiers() {
    let mut store = KeyStore::new();
    let mut with_one_tag = vec![0x04u8];
    with_one_tag.extend_from_slice(b"key");
    let mut with_other_tag = vec![0x99u8];
    with_other_tag.extend_from_slice(b"key");
    store.create_raw_object(&with_one_tag, &vec![7u8]).unwrap();
    // The tag byte is not part of the logical key, so a different tag with
    // the same body names the same object.
    let back = store.read_raw_object(&with_other_tag).unwrap();
    assert_eq!(back, vec![7u8]);
}

#[test]
fn independent_ids_do_not_interfere() {
    let mut store = KeyStore::new();
    let a = id_with_tag(b"a");
    let b = id_with_tag(b"b");
    store.create_raw_object(&a, &vec![1u8]).unwrap();
    store.create_raw_object(&b, &vec![2u8]).unwrap();
    store.delete_object(&a).unwrap();
    assert_eq!(store.read_raw_object(&b).unwrap(), vec![2u8]);
    assert_eq!(store.read_raw_object(&a), Err(TeeError::NotFound));
}
