//! Per-volume needle mapper: store plus usage metrics plus startup replay.

use crate::codec::idx_entry;
use crate::codec::spec_decoded_entry;
use crate::needle_value_map::MemoryNeedleValueMap;
use crate::needle_value_map::NeedleValue;
use crate::needle_value_map::NeedleValueMap;
use vstd::arithmetic::div_mod::lemma_fundamental_div_mod;
use vstd::prelude::*;
use vstd::slice::slice_subrange;

verus! {

/// Ghost state of a mapper: the key-to-location map together with the five
/// usage counters, the counters as unbounded integers.
#[verifier::ext_equal]
pub struct IndexModel {
    pub map: Map<u64, NeedleValue>,
    pub max_key: u64,
    pub file_count: int,
    pub delete_count: int,
    pub deleted_bytes: int,
    pub applied_bytes: int,
}

/// The state of a freshly constructed mapper: empty map, all counters zero.
pub open spec fn initial_index_model() -> IndexModel {
    IndexModel {
        map: Map::empty(),
        max_key: 0,
        file_count: 0,
        delete_count: 0,
        deleted_bytes: 0,
        applied_bytes: 0,
    }
}

/// One set event: upsert the map, count one apply of `value.size` bytes,
/// raise the maximum key, and count an overwritten entry as one deleted
/// event of the previous value's size.
pub open spec fn model_set(st: IndexModel, key: u64, value: NeedleValue) -> IndexModel {
    IndexModel {
        map: st.map.insert(key, value),
        max_key: if key > st.max_key {
            key
        } else {
            st.max_key
        },
        file_count: st.file_count + 1,
        applied_bytes: st.applied_bytes + value.size,
        delete_count: st.delete_count + (if st.map.contains_key(key) {
            1int
        } else {
            0int
        }),
        deleted_bytes: st.deleted_bytes + (if st.map.contains_key(key) {
            st.map[key].size as int
        } else {
            0int
        }),
    }
}

/// One delete event: remove the mapping and count one deleted event of the
/// removed value's size; a delete of an absent key changes nothing.
pub open spec fn model_delete(st: IndexModel, key: u64) -> IndexModel {
    IndexModel {
        map: st.map.remove(key),
        max_key: st.max_key,
        file_count: st.file_count,
        applied_bytes: st.applied_bytes,
        delete_count: st.delete_count + (if st.map.contains_key(key) {
            1int
        } else {
            0int
        }),
        deleted_bytes: st.deleted_bytes + (if st.map.contains_key(key) {
            st.map[key].size as int
        } else {
            0int
        }),
    }
}

/// One replayed tombstone record: counts as one applied record of its
/// recorded size and raises the maximum key, like any other record of the
/// log, and deletes `key` with the usual delete accounting.
pub open spec fn model_tombstone(st: IndexModel, key: u64, size: u32) -> IndexModel {
    IndexModel {
        map: st.map.remove(key),
        max_key: if key > st.max_key {
            key
        } else {
            st.max_key
        },
        file_count: st.file_count + 1,
        applied_bytes: st.applied_bytes + size,
        delete_count: st.delete_count + (if st.map.contains_key(key) {
            1int
        } else {
            0int
        }),
        deleted_bytes: st.deleted_bytes + (if st.map.contains_key(key) {
            st.map[key].size as int
        } else {
            0int
        }),
    }
}

/// One replayed record: a positive offset is a set of that location, a zero
/// offset is a tombstone deleting `key` whatever the size field holds.
/// Either way the record counts as one apply of its recorded size.
pub open spec fn model_apply_record(st: IndexModel, key: u64, offset: u32, size: u32) -> IndexModel {
    if offset > 0 {
        model_set(st, key, NeedleValue { offset, size })
    } else {
        model_tombstone(st, key, size)
    }
}

/// The state after applying every record of `records` to `st`, first to
/// last: the left fold of `model_apply_record` over the sequence.
pub open spec fn model_replay(st: IndexModel, records: Seq<(u64, u32, u32)>) -> IndexModel
    decreases records.len(),
{
    if records.len() == 0 {
        st
    } else {
        let last = records.last();
        model_apply_record(model_replay(st, records.drop_last()), last.0, last.1, last.2)
    }
}

/// The records held by the complete 16-byte chunks of an index file's
/// bytes, in file order.
pub open spec fn records_of(bytes: Seq<u8>) -> Seq<(u64, u32, u32)> {
    Seq::new(bytes.len() / 16, |i: int| spec_decoded_entry(bytes.subrange(16 * i, 16 * i + 16)))
}

/// The (offset, size) of the record with the greatest offset seen while
/// scanning `records` in order, (0, 0) when there is none: the tail
/// position at which the volume's data log can resume appending.
pub open spec fn spec_tail_position(records: Seq<(u64, u32, u32)>) -> (u32, u32)
    decreases records.len(),
{
    if records.len() == 0 {
        (0u32, 0u32)
    } else {
        let prev = spec_tail_position(records.drop_last());
        let last = records.last();
        if last.1 > prev.0 {
            (last.1, last.2)
        } else {
            prev
        }
    }
}

/// The backing-store strategies a mapper can be built on.
#[derive(Copy, Clone, Debug)]
pub enum NeedleMapType {
    NeedleMapInMemory,
}

impl Default for NeedleMapType {
    /// The in-memory store is the default strategy.
    fn default() -> (kind: NeedleMapType)
        ensures
            kind is NeedleMapInMemory,
    {
        NeedleMapType::NeedleMapInMemory
    }
}

/// Failure of a replay over index-file bytes.
#[derive(Copy, Clone, Debug, PartialEq, Eq, Structural)]
pub enum IndexFileError {
    /// The byte length is not a multiple of 16: the trailing record is
    /// incomplete and the file is rejected rather than zero-padded.
    TruncatedRecord,
}

struct Metric {
    maximum_file_key: u64,
    file_count: u64,
    deleted_count: u64,
    deleted_byte_count: u64,
    file_byte_count: u64,
}

/// The per-volume facade: one exclusively owned store and the usage
/// metrics derived from the stream of apply events.
pub struct NeedleMapper {
    needle_value_map: MemoryNeedleValueMap,
    metric: Metric,
}

impl NeedleMapper {
    /// The ghost state of the mapper: map plus counters.
    pub closed spec fn model(&self) -> IndexModel {
        IndexModel {
            map: self.needle_value_map.contents(),
            max_key: self.metric.maximum_file_key,
            file_count: self.metric.file_count as int,
            delete_count: self.metric.deleted_count as int,
            deleted_bytes: self.metric.deleted_byte_count as int,
            applied_bytes: self.metric.file_byte_count as int,
        }
    }

    /// The mathematical key-to-location map held by the mapper.
    pub open spec fn contents(&self) -> Map<u64, NeedleValue> {
        self.model().map
    }

    /// The maximum key ever observed by an apply event.
    pub open spec fn spec_max_file_key(&self) -> u64 {
        self.model().max_key
    }

    /// The total count of apply events: every set, and every replayed record.
    pub open spec fn spec_file_count(&self) -> int {
        self.model().file_count
    }

    /// The total count of deleted events (deletes and overwrites).
    pub open spec fn spec_delete_count(&self) -> int {
        self.model().delete_count
    }

    /// The total bytes of values removed by deletes and overwrites.
    pub open spec fn spec_deleted_byte_count(&self) -> int {
        self.model().deleted_bytes
    }

    /// The total bytes applied: the sum of the sizes of all apply events.
    pub open spec fn spec_content_size(&self) -> int {
        self.model().applied_bytes
    }

    /// Constructs a mapper over the store variant `kind` selects, with an
    /// empty map and all metrics at zero.
    pub fn new(kind: NeedleMapType) -> (mapper: NeedleMapper)
        ensures
            mapper.model() == initial_index_model(),
            mapper.contents() == Map::<u64, NeedleValue>::empty(),
            mapper.spec_max_file_key() == 0,
            mapper.spec_file_count() == 0,
            mapper.spec_delete_count() == 0,
            mapper.spec_deleted_byte_count() == 0,
            mapper.spec_content_size() == 0,
    {
        match kind {
            NeedleMapType::NeedleMapInMemory => NeedleMapper {
                needle_value_map: MemoryNeedleValueMap::new(),
                metric: Metric {
                    maximum_file_key: 0,
                    file_count: 0,
                    deleted_count: 0,
                    deleted_byte_count: 0,
                    file_byte_count: 0,
                },
            },
        }
    }

    /// Unconditional upsert.  Every call counts as one apply of
    /// `value.size` bytes; overwriting a live entry additionally counts as
    /// one deleted event of the previous value's size.
    pub fn set(&mut self, key: u64, value: NeedleValue) -> (prev: Option<NeedleValue>)
        requires
            old(self).spec_file_count() < u64::MAX,
            old(self).spec_content_size() + value.size <= u64::MAX,
            old(self).contents().contains_key(key) ==> old(self).spec_delete_count() < u64::MAX
                && old(self).spec_deleted_byte_count() + old(self).contents()[key].size
                <= u64::MAX,
        ensures
            final(self).model() == model_set(old(self).model(), key, value),
            final(self).contents() == old(self).contents().insert(key, value),
            prev == (if old(self).contents().contains_key(key) {
                Some(old(self).contents()[key])
            } else {
                None::<NeedleValue>
            }),
            final(self).spec_file_count() == old(self).spec_file_count() + 1,
            final(self).spec_content_size() == old(self).spec_content_size() + value.size,
            final(self).spec_max_file_key() == (if key > old(self).spec_max_file_key() {
                key
            } else {
                old(self).spec_max_file_key()
            }),
            final(self).spec_delete_count() == old(self).spec_delete_count() + (if old(
                self,
            ).contents().contains_key(key) {
                1int
            } else {
                0int
            }),
            final(self).spec_deleted_byte_count() == old(self).spec_deleted_byte_count() + (if old(
                self,
            ).contents().contains_key(key) {
                old(self).contents()[key].size as int
            } else {
                0int
            }),
    {
        if key > self.metric.maximum_file_key {
            self.metric.maximum_file_key = key;
        }
        self.metric.file_count = self.metric.file_count + 1;
        self.metric.file_byte_count = self.metric.file_byte_count + value.size as u64;
        let prev = self.needle_value_map.set(key, value);

        if let Some(n) = prev {
            self.metric.deleted_count = self.metric.deleted_count + 1;
            self.metric.deleted_byte_count = self.metric.deleted_byte_count + n.size as u64;
        }

        prev
    }

    /// Removes the mapping under `key` if present, counting one deleted
    /// event of the removed value's size; a delete of an absent key is a
    /// no-op, not an error.
    pub fn delete(&mut self, key: u64) -> (removed: Option<NeedleValue>)
        requires
            old(self).contents().contains_key(key) ==> old(self).spec_delete_count() < u64::MAX
                && old(self).spec_deleted_byte_count() + old(self).contents()[key].size
                <= u64::MAX,
        ensures
            final(self).model() == model_delete(old(self).model(), key),
            final(self).contents() == old(self).contents().remove(key),
            removed == (if old(self).contents().contains_key(key) {
                Some(old(self).contents()[key])
            } else {
                None::<NeedleValue>
            }),
            final(self).spec_max_file_key() == old(self).spec_max_file_key(),
            final(self).spec_file_count() == old(self).spec_file_count(),
            final(self).spec_content_size() == old(self).spec_content_size(),
            final(self).spec_delete_count() == old(self).spec_delete_count() + (if old(
                self,
            ).contents().contains_key(key) {
                1int
            } else {
                0int
            }),
            final(self).spec_deleted_byte_count() == old(self).spec_deleted_byte_count() + (if old(
                self,
            ).contents().contains_key(key) {
                old(self).contents()[key].size as int
            } else {
                0int
            }),
    {
        let removed = self.needle_value_map.delete(key);

        if let Some(n) = removed {
            self.metric.deleted_count = self.metric.deleted_count + 1;
            self.metric.deleted_byte_count = self.metric.deleted_byte_count + n.size as u64;
        }

        removed
    }

    /// Pure lookup; no metric side effects.
    pub fn get(&self, key: u64) -> (value: Option<NeedleValue>)
        ensures
            value == (if self.contents().contains_key(key) {
                Some(self.contents()[key])
            } else {
                None::<NeedleValue>
            }),
    {
        self.needle_value_map.get(key)
    }

    /// The total count of apply events: every set, and every replayed record.
    pub fn file_count(&self) -> (c: u64)
        ensures
            c == self.spec_file_count(),
    {
        self.metric.file_count
    }

    /// The total count of deleted events (deletes and overwrites).
    pub fn delete_count(&self) -> (c: u64)
        ensures
            c == self.spec_delete_count(),
    {
        self.metric.deleted_count
    }

    /// The total bytes of values removed by deletes and overwrites.
    pub fn deleted_byte_count(&self) -> (c: u64)
        ensures
            c == self.spec_deleted_byte_count(),
    {
        self.metric.deleted_byte_count
    }

    /// The maximum key ever observed by an apply event.
    pub fn max_file_key(&self) -> (k: u64)
        ensures
            k == self.spec_max_file_key(),
    {
        self.metric.maximum_file_key
    }

    /// The total bytes applied: the sum of the sizes of all apply events.
    pub fn content_size(&self) -> (c: u64)
        ensures
            c == self.spec_content_size(),
    {
        self.metric.file_byte_count
    }

    /// Replays the bytes of an index file, applying each complete 16-byte
    /// record in file order: a positive offset is a `set`, a zero offset a
    /// tombstone that deletes the key.  Every record — tombstones included —
    /// counts as one applied record of its recorded size and raises the
    /// maximum-key metric.  Returns the (offset, size) of the
    /// highest-offset record seen, so the caller can resume appending the
    /// data log at its known tail.
    ///
    /// A byte length that is not a multiple of 16 means a truncated
    /// trailing record: the load fails rather than zero-pad, but the
    /// complete records before the truncation point remain applied —
    /// there is no rollback.
    pub fn load_idx_file(&mut self, bytes: &[u8]) -> (result: Result<(u32, u32), IndexFileError>)
        requires
            old(self).spec_file_count() + records_of(bytes@).len() <= u64::MAX,
            old(self).spec_delete_count() + records_of(bytes@).len() <= u64::MAX,
            old(self).spec_content_size() + records_of(bytes@).len() * (u32::MAX as int)
                <= u64::MAX,
            old(self).spec_deleted_byte_count() + records_of(bytes@).len() * (u32::MAX as int)
                <= u64::MAX,
        ensures
            final(self).model() == model_replay(old(self).model(), records_of(bytes@)),
            bytes@.len() % 16 == 0 ==> result == Ok::<(u32, u32), IndexFileError>(
                spec_tail_position(records_of(bytes@)),
            ),
            bytes@.len() % 16 != 0 ==> result == Err::<(u32, u32), IndexFileError>(
                IndexFileError::TruncatedRecord,
            ),
    {
        let ghost orig = old(self).model();
        let ghost records = records_of(bytes@);
        let n: usize = bytes.len() / 16;
        proof {
            lemma_fundamental_div_mod(bytes@.len() as int, 16);
            assert(records.len() == n);
        }
        let mut last_offset: u32 = 0;
        let mut last_size: u32 = 0;
        let mut i: usize = 0;
        while i < n
            invariant
                i <= n,
                n == bytes@.len() / 16,
                16 * n <= bytes@.len(),
                bytes@.len() <= usize::MAX,
                records == records_of(bytes@),
                records.len() == n,
                orig.file_count + n <= u64::MAX,
                orig.delete_count + n <= u64::MAX,
                orig.applied_bytes + n * (u32::MAX as int) <= u64::MAX,
                orig.deleted_bytes + n * (u32::MAX as int) <= u64::MAX,
                self.model() == model_replay(orig, records.take(i as int)),
                (last_offset, last_size) == spec_tail_position(records.take(i as int)),
                self.spec_file_count() <= orig.file_count + i,
                self.spec_delete_count() <= orig.delete_count + i,
                self.spec_content_size() <= orig.applied_bytes + i * (u32::MAX as int),
                self.spec_deleted_byte_count() <= orig.deleted_bytes + i * (u32::MAX as int),
            decreases n - i,
        {
            proof {
                assert(16 * (i + 1) <= 16 * n);
            }
            let chunk = slice_subrange(bytes, 16 * i, 16 * i + 16);
            let (key, offset, size) = idx_entry(chunk);
            let ghost j = i as int;
            proof {
                assert(records[j] == spec_decoded_entry(bytes@.subrange(16 * j, 16 * j + 16)));
                assert(records[j] == (key, offset, size));
            }
            if offset > last_offset {
                last_offset = offset;
                last_size = size;
            }
            if offset > 0 {
                self.set(key, NeedleValue { offset, size });
            } else {
                if key > self.metric.maximum_file_key {
                    self.metric.maximum_file_key = key;
                }
                self.metric.file_count = self.metric.file_count + 1;
                self.metric.file_byte_count = self.metric.file_byte_count + size as u64;
                self.delete(key);
            }
            proof {
                assert(records.take(j + 1).drop_last() =~= records.take(j));
                assert(records.take(j + 1).last() == records[j]);
                assert(self.model() == model_replay(orig, records.take(j + 1)));
                assert((last_offset, last_size) == spec_tail_position(records.take(j + 1)));
            }
            i = i + 1;
        }
        proof {
            assert(records.take(n as int) =~= records);
        }
        if bytes.len() % 16 == 0 {
            Ok((last_offset, last_size))
        } else {
            Err(IndexFileError::TruncatedRecord)
        }
    }
}

/// Splits the bytes of an index file into its decoded records, in file
/// order, failing when the byte length is not a multiple of 16: a
/// truncated trailing record rejects the whole file.
pub fn walk_index_file(bytes: &[u8]) -> (result: Result<Vec<(u64, u32, u32)>, IndexFileError>)
    ensures
        bytes@.len() % 16 == 0 ==> (result matches Ok(records) && records@ == records_of(bytes@)),
        bytes@.len() % 16 != 0 ==> result == Err::<Vec<(u64, u32, u32)>, IndexFileError>(
            IndexFileError::TruncatedRecord,
        ),
{
    if bytes.len() % 16 != 0 {
        return Err(IndexFileError::TruncatedRecord);
    }
    let n: usize = bytes.len() / 16;
    proof {
        lemma_fundamental_div_mod(bytes@.len() as int, 16);
    }
    let mut records: Vec<(u64, u32, u32)> = Vec::new();
    let mut i: usize = 0;
    while i < n
        invariant
            i <= n,
            n == bytes@.len() / 16,
            16 * n <= bytes@.len(),
            bytes@.len() <= usize::MAX,
            records@ == records_of(bytes@).take(i as int),
        decreases n - i,
    {
        proof {
            assert(16 * (i + 1) <= 16 * n);
        }
        let chunk = slice_subrange(bytes, 16 * i, 16 * i + 16);
        let entry = idx_entry(chunk);
        records.push(entry);
        proof {
            let j = i as int;
            assert(records_of(bytes@)[j] == spec_decoded_entry(
                bytes@.subrange(16 * j, 16 * j + 16),
            ));
            assert(records@ =~= records_of(bytes@).take(j + 1));
        }
        i = i + 1;
    }
    proof {
        assert(records_of(bytes@).take(n as int) =~= records_of(bytes@));
    }
    Ok(records)
}

/// Replay order sensitivity: the latest record for a key is authoritative.
/// If no later record of `records` carries the key of the record at `i`,
/// then after a full replay that key is mapped by the record at `i` when
/// its offset is positive, and absent when its offset is zero — whatever
/// the earlier records and the starting state said of the key.
pub proof fn lemma_latest_record_wins(st: IndexModel, records: Seq<(u64, u32, u32)>, i: int)
    requires
        0 <= i < records.len(),
        forall|j: int| i < j < records.len() ==> records[j].0 != records[i].0,
    ensures
        records[i].1 > 0 ==> model_replay(st, records).map.contains_key(records[i].0)
            && model_replay(st, records).map[records[i].0] == (NeedleValue {
            offset: records[i].1,
            size: records[i].2,
        }),
        records[i].1 == 0 ==> !model_replay(st, records).map.contains_key(records[i].0),
    decreases records.len(),
{
    if i == records.len() - 1 {
    } else {
        assert(forall|j: int|
            i < j < records.drop_last().len() ==> records.drop_last()[j].0
                != records.drop_last()[i].0);
        lemma_latest_record_wins(st, records.drop_last(), i);
        assert(records.last().0 != records[i].0);
    }
}

/// A replayed record changes the map exactly as the live path would: a
/// positive offset inserts that location under the key, a zero offset
/// removes the key.  Only the apply accounting of tombstones differs
/// between replay and a live delete.
pub proof fn lemma_replay_record_map_matches_live(st: IndexModel, key: u64, offset: u32, size: u32)
    ensures
        offset > 0 ==> model_apply_record(st, key, offset, size).map == model_set(
            st,
            key,
            NeedleValue { offset, size },
        ).map,
        offset == 0 ==> model_apply_record(st, key, offset, size).map == model_delete(st, key).map,
{
}

/// Tombstone rule, first half: a zero-offset record removes its key from
/// the map, and its delete accounting charges the removed entry, whatever
/// the tombstone's own size field holds.
pub proof fn lemma_tombstone_ignores_size(st: IndexModel, key: u64, size_a: u32, size_b: u32)
    ensures
        model_apply_record(st, key, 0, size_a).map == model_apply_record(st, key, 0, size_b).map,
        !model_apply_record(st, key, 0, size_a).map.contains_key(key),
        model_apply_record(st, key, 0, size_a).delete_count == model_apply_record(
            st,
            key,
            0,
            size_b,
        ).delete_count,
        model_apply_record(st, key, 0, size_a).deleted_bytes == model_apply_record(
            st,
            key,
            0,
            size_b,
        ).deleted_bytes,
{
}

/// Tombstone rule, second half: a tombstone for a key that is absent from
/// the map removes nothing — the map and the delete-side metrics stay as
/// they were; it is no error.
pub proof fn lemma_tombstone_absent_removes_nothing(st: IndexModel, key: u64, size: u32)
    requires
        !st.map.contains_key(key),
    ensures
        model_apply_record(st, key, 0, size).map == st.map,
        model_apply_record(st, key, 0, size).delete_count == st.delete_count,
        model_apply_record(st, key, 0, size).deleted_bytes == st.deleted_bytes,
{
    assert(st.map.remove(key) =~= st.map);
}

/// A live delete of an absent key is a complete no-op: the map and every
/// metric stay exactly as they were.
pub proof fn lemma_delete_absent_noop(st: IndexModel, key: u64)
    requires
        !st.map.contains_key(key),
    ensures
        model_delete(st, key) == st,
{
    assert(st.map.remove(key) =~= st.map);
    assert(model_delete(st, key) =~= st);
}

impl Default for NeedleMapper {
    /// A mapper over the in-memory store, empty, with all metrics at zero.
    fn default() -> (mapper: NeedleMapper)
        ensures
            mapper.model() == initial_index_model(),
    {
        NeedleMapper::new(NeedleMapType::NeedleMapInMemory)
    }
}

} // verus!
