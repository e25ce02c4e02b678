use needle_index::codec::encode_idx_entry;
use needle_index::walk_index_file;
use needle_index::IndexFileError;
use needle_index::MemoryNeedleValueMap;
use needle_index::NeedleMapType;
use needle_index::NeedleMapper;
use needle_index::NeedleValue;
use needle_index::NeedleValueMap;

fn index_bytes(records: &[(u64, u32, u32)]) -> Vec<u8> {
    let mut bytes = Vec::new();
    for &(key, offset, size) in records {
        bytes.extend_from_slice(&encode_idx_entry(key, offset, size));
    }
    bytes
}

#[test]
fn scenario_three_records() {
    let bytes = index_bytes(&[(1, 100, 50), (2, 200, 30), (1, 0, 0)]);
    let mut mapper = NeedleMapper::new(NeedleMapType::NeedleMapInMemory);
    let tail = mapper.load_idx_file(&bytes);
    assert_eq!(tail, Ok((200, 30)));
    assert_eq!(mapper.get(1), None);
    assert_eq!(mapper.get(2), Some(NeedleValue { offset: 200, size: 30 }));
    assert_eq!(mapper.file_count(), 3);
    assert_eq!(mapper.delete_count(), 1);
    assert_eq!(mapper.max_file_key(), 2);
    assert_eq!(mapper.content_size(), 80);
    assert_eq!(mapper.deleted_byte_count(), 50);
}

#[test]
fn scenario_overwrite() {
    let mut mapper = NeedleMapper::new(NeedleMapType::NeedleMapInMemory);
    let first = mapper.set(5, NeedleValue { offset: 10, size: 100 });
    assert_eq!(first, None);
    let second = mapper.set(5, NeedleValue { offset: 20, size: 200 });
    assert_eq!(second, Some(NeedleValue { offset: 10, size: 100 }));
    assert_eq!(mapper.file_count(), 2);
    assert_eq!(mapper.delete_count(), 1);
    assert_eq!(mapper.deleted_byte_count(), 100);
    assert_eq!(mapper.content_size(), 300);
    assert_eq!(mapper.get(5), Some(NeedleValue { offset: 20, size: 200 }));
}

#[test]
fn scenario_delete_on_empty() {
    let mut mapper = NeedleMapper::new(NeedleMapType::NeedleMapInMemory);
    assert_eq!(mapper.delete(99), None);
    assert_eq!(mapper.file_count(), 0);
    assert_eq!(mapper.delete_count(), 0);
    assert_eq!(mapper.deleted_byte_count(), 0);
    assert_eq!(mapper.content_size(), 0);
    assert_eq!(mapper.max_file_key(), 0);
}

#[test]
fn truncated_file_rejected() {
    let mut bytes = index_bytes(&[(1, 100, 50)]);
    bytes.extend_from_slice(&[0, 0, 0, 9]);
    let mut mapper = NeedleMapper::new(NeedleMapType::NeedleMapInMemory);
    let result = mapper.load_idx_file(&bytes);
    assert_eq!(result, Err(IndexFileError::TruncatedRecord));
    // The complete records before the truncation point remain applied.
    assert_eq!(mapper.get(1), Some(NeedleValue { offset: 100, size: 50 }));
    assert_eq!(mapper.file_count(), 1);
}

#[test]
fn truncated_file_rejected_even_when_short() {
    let bytes = vec![1, 2, 3];
    let mut mapper = NeedleMapper::new(NeedleMapType::NeedleMapInMemory);
    assert_eq!(mapper.load_idx_file(&bytes), Err(IndexFileError::TruncatedRecord));
    assert_eq!(mapper.file_count(), 0);
}

#[test]
fn tombstone_ignores_size_field() {
    let bytes = index_bytes(&[(9, 300, 40), (9, 0, 77)]);
    let mut mapper = NeedleMapper::new(NeedleMapType::NeedleMapInMemory);
    let tail = mapper.load_idx_file(&bytes);
    assert_eq!(tail, Ok((300, 40)));
    // The key is removed whatever the tombstone's size field holds, and
    // the delete accounting charges the removed entry's size.
    assert_eq!(mapper.get(9), None);
    assert_eq!(mapper.delete_count(), 1);
    assert_eq!(mapper.deleted_byte_count(), 40);
    // Both records count as applies of their recorded sizes.
    assert_eq!(mapper.file_count(), 2);
    assert_eq!(mapper.content_size(), 117);
}

#[test]
fn tombstone_on_absent_key_removes_nothing() {
    let bytes = index_bytes(&[(42, 0, 0)]);
    let mut mapper = NeedleMapper::new(NeedleMapType::NeedleMapInMemory);
    let tail = mapper.load_idx_file(&bytes);
    assert_eq!(tail, Ok((0, 0)));
    assert_eq!(mapper.get(42), None);
    // The tombstone record itself counts as one apply of zero bytes …
    assert_eq!(mapper.file_count(), 1);
    assert_eq!(mapper.content_size(), 0);
    assert_eq!(mapper.max_file_key(), 42);
    // … but removes nothing.
    assert_eq!(mapper.delete_count(), 0);
    assert_eq!(mapper.deleted_byte_count(), 0);
}

#[test]
fn later_record_overrides_earlier() {
    let bytes = index_bytes(&[(1, 10, 5), (1, 20, 7)]);
    let mut mapper = NeedleMapper::new(NeedleMapType::NeedleMapInMemory);
    mapper.load_idx_file(&bytes).unwrap();
    assert_eq!(mapper.get(1), Some(NeedleValue { offset: 20, size: 7 }));
    assert_eq!(mapper.file_count(), 2);
    assert_eq!(mapper.delete_count(), 1);
    assert_eq!(mapper.deleted_byte_count(), 5);
}

#[test]
fn replay_map_matches_live_calls() {
    let records = [(3, 30, 11), (4, 40, 13), (3, 50, 17), (4, 0, 0)];
    let bytes = index_bytes(&records);
    let mut replayed = NeedleMapper::new(NeedleMapType::NeedleMapInMemory);
    replayed.load_idx_file(&bytes).unwrap();

    let mut live = NeedleMapper::new(NeedleMapType::NeedleMapInMemory);
    for &(key, offset, size) in &records {
        if offset > 0 {
            live.set(key, NeedleValue { offset, size });
        } else {
            live.delete(key);
        }
    }

    // The post-replay map state equals applying set/delete in file order.
    for key in 0..6 {
        assert_eq!(replayed.get(key), live.get(key));
    }
}

#[test]
fn walk_index_file_lists_records() {
    let records = [(1, 100, 50), (2, 200, 30), (1, 0, 0)];
    let bytes = index_bytes(&records);
    let walked = walk_index_file(&bytes).unwrap();
    assert_eq!(walked, records.to_vec());
}

#[test]
fn walk_index_file_rejects_truncation() {
    let mut bytes = index_bytes(&[(1, 100, 50)]);
    bytes.push(0);
    assert_eq!(walk_index_file(&bytes), Err(IndexFileError::TruncatedRecord));
}

#[test]
fn empty_file_loads_empty() {
    let bytes: Vec<u8> = Vec::new();
    let mut mapper = NeedleMapper::new(NeedleMapType::NeedleMapInMemory);
    assert_eq!(mapper.load_idx_file(&bytes), Ok((0, 0)));
    assert_eq!(mapper.file_count(), 0);
    assert_eq!(mapper.max_file_key(), 0);
}

#[test]
fn default_mapper_is_empty() {
    let mapper = NeedleMapper::default();
    assert_eq!(mapper.get(0), None);
    assert_eq!(mapper.file_count(), 0);
    assert_eq!(mapper.delete_count(), 0);
    assert_eq!(mapper.deleted_byte_count(), 0);
    assert_eq!(mapper.content_size(), 0);
    assert_eq!(mapper.max_file_key(), 0);
    assert!(matches!(
        NeedleMapType::default(),
        NeedleMapType::NeedleMapInMemory
    ));
}

#[test]
fn memory_store_set_delete_get() {
    let mut store = MemoryNeedleValueMap::new();
    assert_eq!(store.get(7), None);
    assert_eq!(store.set(7, NeedleValue { offset: 3, size: 9 }), None);
    assert_eq!(store.get(7), Some(NeedleValue { offset: 3, size: 9 }));
    assert_eq!(
        store.set(7, NeedleValue { offset: 4, size: 8 }),
        Some(NeedleValue { offset: 3, size: 9 })
    );
    assert_eq!(store.delete(7), Some(NeedleValue { offset: 4, size: 8 }));
    assert_eq!(store.delete(7), None);
    assert_eq!(store.get(7), None);
}
