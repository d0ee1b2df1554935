use cita_database::{DataCategory, Database, DatabaseError, MemoryDB};

fn get_value<K: AsRef<[u8]>, D: Database>(
    db: &D,
    key: K,
    category: Option<DataCategory>,
) -> Result<Option<Vec<u8>>, DatabaseError> {
    let value = db.get(category, key.as_ref())?;

    Ok(value)
}

fn insert_get_contains_remove<D: Database>(db: &mut D, category: Option<DataCategory>) {
    let data = b"test".to_vec();
    let none_exist = b"none_exist".to_vec();

    // Get
    assert_eq!(get_value(db, "test", category), Ok(None));
    // Insert and get
    db.insert(category, data.clone(), data.clone()).unwrap();
    assert_eq!(get_value(db, "test", category), Ok(Some(data.clone())));

    // Contains
    assert_eq!(db.contains(category, &data), Ok(true));
    assert_eq!(db.contains(category, &none_exist), Ok(false));

    // Remove
    db.remove(category, &data).unwrap();
    assert_eq!(get_value(db, data, category), Ok(None));
}

fn batch_op<D: Database>(db: &mut D, category: Option<DataCategory>) {
    let data1 = b"test1".to_vec();
    let data2 = b"test2".to_vec();
    db.insert_batch(
        category,
        vec![data1.clone(), data2.clone()],
        vec![data1.clone(), data2.clone()],
    )
    .unwrap();

    // Insert batch
    assert_eq!(get_value(db, data1.clone(), category), Ok(Some(data1.clone())));
    assert_eq!(get_value(db, data2.clone(), category), Ok(Some(data2.clone())));

    db.remove_batch(category, &[data1.clone(), data2.clone()]).unwrap();

    // Remove batch
    assert_eq!(get_value(db, data1, category), Ok(None));
    assert_eq!(get_value(db, data2, category), Ok(None));
}

#[test]
fn test_insert_get_contains_remove_with_category() {
    let mut db = MemoryDB::open();

    insert_get_contains_remove(&mut db, Some(DataCategory::State));
}

#[test]
fn test_insert_get_contains_remove() {
    let mut db = MemoryDB::open();

    insert_get_contains_remove(&mut db, None);
}

#[test]
fn test_batch_op_with_category() {
    let mut db = MemoryDB::open();

    batch_op(&mut db, Some(DataCategory::State));
}

#[test]
fn test_batch_op() {
    let mut db = MemoryDB::open();

    batch_op(&mut db, None);
    batch_op(&mut db, Some(DataCategory::State));
}

#[test]
fn test_insert_batch_error() {
    let mut db = MemoryDB::open();

    let data = b"test".to_vec();

    match db.insert_batch(None, vec![data], vec![]) {
        Err(DatabaseError::InvalidData) => (),  // pass
        _ => panic!("should return error DatabaseError::InvalidData"),
    }
}

#[test]
fn test_insert_batch_error_leaves_store_unchanged() {
    let mut db = MemoryDB::open();

    let kept = b"kept".to_vec();
    db.insert(None, kept.clone(), kept.clone()).unwrap();

    let data = b"test".to_vec();
    match db.insert_batch(Some(DataCategory::State), vec![data.clone()], vec![]) {
        Err(DatabaseError::InvalidData) => (),
        _ => panic!("should return error DatabaseError::InvalidData"),
    }

    // nothing of the rejected batch was written, and earlier data is intact
    assert_eq!(db.contains(Some(DataCategory::State), &data), Ok(false));
    assert_eq!(db.get(None, &kept), Ok(Some(kept.clone())));
}

#[test]
fn test_category_isolation_identical_raw_keys() {
    let mut db = MemoryDB::open();

    let key = b"shared".to_vec();
    let v_state = b"value_state".to_vec();
    let v_headers = b"value_headers".to_vec();
    let v_plain = b"value_plain".to_vec();

    db.insert(Some(DataCategory::State), key.clone(), v_state.clone()).unwrap();
    db.insert(Some(DataCategory::Headers), key.clone(), v_headers.clone()).unwrap();
    db.insert(None, key.clone(), v_plain.clone()).unwrap();

    // each space observes only its own write
    assert_eq!(db.get(Some(DataCategory::State), &key), Ok(Some(v_state.clone())));
    assert_eq!(db.get(Some(DataCategory::Headers), &key), Ok(Some(v_headers.clone())));
    assert_eq!(db.get(None, &key), Ok(Some(v_plain.clone())));

    // removing under one category leaves the others untouched
    db.remove(Some(DataCategory::Headers), &key).unwrap();
    assert_eq!(db.contains(Some(DataCategory::Headers), &key), Ok(false));
    assert_eq!(db.get(Some(DataCategory::State), &key), Ok(Some(v_state)));
    assert_eq!(db.get(None, &key), Ok(Some(v_plain)));
}

#[test]
fn test_insert_idempotent() {
    let mut once = MemoryDB::open();
    let mut twice = MemoryDB::open();

    let key = b"key".to_vec();
    let value = b"value".to_vec();

    once.insert(Some(DataCategory::Extra), key.clone(), value.clone()).unwrap();
    twice.insert(Some(DataCategory::Extra), key.clone(), value.clone()).unwrap();
    twice.insert(Some(DataCategory::Extra), key.clone(), value.clone()).unwrap();

    assert_eq!(
        once.get(Some(DataCategory::Extra), &key),
        twice.get(Some(DataCategory::Extra), &key)
    );
    assert_eq!(twice.get(Some(DataCategory::Extra), &key), Ok(Some(value)));
}

#[test]
fn test_remove_absent_noop() {
    let mut db = MemoryDB::open();

    let key = b"key".to_vec();
    let value = b"value".to_vec();
    let absent = b"absent".to_vec();

    db.insert(None, key.clone(), value.clone()).unwrap();
    db.remove(None, &absent).unwrap();

    assert_eq!(db.get(None, &key), Ok(Some(value)));
    assert_eq!(db.contains(None, &absent), Ok(false));
}

#[test]
fn test_get_batch_order_and_length() {
    let mut db = MemoryDB::open();

    let k1 = b"a".to_vec();
    let k2 = b"b".to_vec();
    let v1 = b"1".to_vec();
    db.insert(Some(DataCategory::Bodies), k1.clone(), v1.clone()).unwrap();

    let values = db
        .get_batch(Some(DataCategory::Bodies), &[k2.clone(), k1.clone()])
        .unwrap();
    assert_eq!(values, vec![None, Some(v1)]);
}

#[test]
fn test_memorydb_unsupported_operations() {
    let mut db = MemoryDB::open();

    match db.restore("elsewhere") {
        Err(DatabaseError::Internal(detail)) => assert_eq!(detail, "unsupported operation"),
        _ => panic!("restore is unsupported on the in-memory store"),
    }
    assert!(db.iterator(None).is_none());
    assert!(db.iterator(Some(DataCategory::State)).is_none());
}
