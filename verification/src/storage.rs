use vstd::prelude::*;
use ic_stable_structures::memory_manager::{MemoryId, MemoryManager, VirtualMemory};
use ic_stable_structures::{DefaultMemoryImpl, StableBTreeMap};
use crate::memory::MemoryLocation;

verus! {

/// The durable memory of the process, divided into regions that are told
/// apart by a number. It is a `MemoryManager` of `ic_stable_structures` over
/// the default memory; nothing of what it holds is known here.
#[verifier::external_body]
pub struct MemoryHandle {
    manager: MemoryManager<DefaultMemoryImpl>,
}

/// The durable memory of the process, with the count of the regions whose
/// tables have been handed out: a region's table is handed out once, so that
/// no two tables ever share a region.
pub struct Memories {
    handle: MemoryHandle,
    opened: Vec<u8>,
}

/// A durable table from keys to values, both plain bytes, kept in one region
/// of memory and ordered by its keys. It is a `StableBTreeMap` of
/// `ic_stable_structures`; what it holds is known by the name
/// `table_entries` alone, and the functions below say what the map's
/// methods do to it.
#[verifier::external_body]
pub struct StableTable {
    map: StableBTreeMap<Vec<u8>, Vec<u8>, VirtualMemory<DefaultMemoryImpl>>,
}

/// What a table holds.
pub uninterp spec fn table_entries(table: StableTable) -> Map<Seq<u8>, Seq<u8>>;

/// The bytes that `bincode` writes for a list of numbers followed by a list
/// of texts.
pub uninterp spec fn record_bytes(numbers: Seq<u64>, texts: Seq<Seq<char>>) -> Seq<u8>;

/// The list of numbers and the list of texts that `bincode` reads from
/// bytes, where it can read them.
pub uninterp spec fn bytes_record(bytes: Seq<u8>) -> Option<(Seq<u64>, Seq<Seq<char>>)>;

/// The texts of a list, each by its view.
pub open spec fn texts_view(texts: Seq<String>) -> Seq<Seq<char>> {
    texts.map_values(|t: String| t@)
}

/// The order of byte strings in which the first differing byte decides, and
/// a string comes before every longer string that starts with it.
pub open spec fn bytes_le(a: Seq<u8>, b: Seq<u8>) -> bool
    decreases a.len(),
{
    if a.len() == 0 {
        true
    } else if b.len() == 0 {
        false
    } else if a[0] != b[0] {
        a[0] < b[0]
    } else {
        bytes_le(a.drop_first(), b.drop_first())
    }
}

/// The longest key or value a table takes.
pub open spec fn max_entry_len() -> int {
    0xffff_ffff
}

impl MemoryHandle {
    /// Calls `MemoryManager::init` on `DefaultMemoryImpl::default()`: the
    /// regions of the process's durable memory, with whatever they held
    /// before. A process makes one.
    #[verifier::external_body]
    pub(crate) fn init() -> (handle: MemoryHandle) {
        MemoryHandle { manager: MemoryManager::init(DefaultMemoryImpl::default()) }
    }

    /// Calls `StableBTreeMap::init` on the region that `MemoryManager::get`
    /// gives for `MemoryId::new(id)`: the table that was kept there, or an
    /// empty one where there was none. Nothing is promised of what it holds.
    /// The number 255 is not a region. What the other functions say of a
    /// table holds as long as it is the only table of its region.
    #[verifier::external_body]
    pub(crate) fn table(&self, id: u8) -> (table: StableTable)
        requires
            id < 255,
    {
        StableTable { map: StableBTreeMap::init(self.manager.get(MemoryId::new(id))) }
    }
}

impl Memories {
    /// The numbers of the regions whose tables have been handed out.
    pub closed spec fn opened(&self) -> Seq<u8> {
        self.opened@
    }

    /// The regions of the process's durable memory, none of them handed out.
    pub fn new() -> (memories: Memories)
        ensures
            memories.opened().len() == 0,
    {
        Memories { handle: MemoryHandle::init(), opened: Vec::new() }
    }

    /// Whether the table at a location has been handed out.
    pub fn is_open(&self, location: MemoryLocation) -> (open: bool)
        ensures
            open == self.opened().contains(location.region()),
    {
        let id = location.memory_id();
        let mut i: usize = 0;
        while i < self.opened.len()
            invariant
                i <= self.opened.len(),
                id == location.region(),
                forall|j: int| 0 <= j < i ==> self.opened@[j] != id,
            decreases self.opened.len() - i,
        {
            if self.opened[i] == id {
                assert(self.opened@[i as int] == id);
                return true;
            }
            i = i + 1;
        }
        false
    }

    /// Hands out the table that is kept at a location, unless it has been
    /// handed out before.
    pub fn table_at(&mut self, location: MemoryLocation) -> (table: Option<StableTable>)
        ensures
            table is Some <==> !old(self).opened().contains(location.region()),
            final(self).opened() == if table is Some {
                old(self).opened().push(location.region())
            } else {
                old(self).opened()
            },
    {
        if self.is_open(location) {
            None
        } else {
            self.opened.push(location.memory_id());
            Some(self.handle.table(location.memory_id()))
        }
    }
}

impl StableTable {
    /// Calls `StableBTreeMap::get`: the value under the key, if there is one.
    #[verifier::external_body]
    pub(crate) fn get(&self, key: &Vec<u8>) -> (value: Option<Vec<u8>>)
        ensures
            match value {
                Some(v) => table_entries(*self).contains_key(key@) && table_entries(*self)[key@]
                    == v@,
                None => !table_entries(*self).contains_key(key@),
            },
    {
        self.map.get(key)
    }

    /// Calls `StableBTreeMap::insert`: the value is put under the key, and
    /// the value that was there before is handed back. Lengths are written as
    /// four bytes, so neither key nor value may be longer than that can say.
    #[verifier::external_body]
    pub(crate) fn insert(&mut self, key: Vec<u8>, value: Vec<u8>) -> (previous: Option<Vec<u8>>)
        requires
            key@.len() <= max_entry_len(),
            value@.len() <= max_entry_len(),
        ensures
            table_entries(*final(self)) == table_entries(*old(self)).insert(key@, value@),
            match previous {
                Some(v) => table_entries(*old(self)).contains_key(key@) && table_entries(
                    *old(self),
                )[key@] == v@,
                None => !table_entries(*old(self)).contains_key(key@),
            },
    {
        self.map.insert(key, value)
    }

    /// Calls `StableBTreeMap::remove`: the key leaves the table, and the
    /// value that was under it is handed back.
    #[verifier::external_body]
    pub(crate) fn remove(&mut self, key: &Vec<u8>) -> (previous: Option<Vec<u8>>)
        ensures
            table_entries(*final(self)) == table_entries(*old(self)).remove(key@),
            match previous {
                Some(v) => table_entries(*old(self)).contains_key(key@) && table_entries(
                    *old(self),
                )[key@] == v@,
                None => !table_entries(*old(self)).contains_key(key@),
            },
    {
        self.map.remove(key)
    }

    /// Calls `StableBTreeMap::last_key_value` and keeps the key: the key that
    /// comes last in the order of byte strings, or nothing where the table is
    /// empty.
    #[verifier::external_body]
    pub(crate) fn last_key(&self) -> (key: Option<Vec<u8>>)
        ensures
            match key {
                Some(k) => {
                    &&& table_entries(*self).contains_key(k@)
                    &&& forall|other: Seq<u8>| #[trigger]
                        table_entries(*self).contains_key(other) ==> bytes_le(other, k@)
                },
                None => forall|other: Seq<u8>| !table_entries(*self).contains_key(other),
            },
    {
        self.map.last_key_value().map(|entry| entry.0)
    }
}

/// Calls `bincode::serialize` on the pair of the two lists. What it returns
/// is what `bincode::deserialize` reads the same two lists from.
#[verifier::external_body]
pub(crate) fn encode_record(numbers: &Vec<u64>, texts: &Vec<String>) -> (bytes: Vec<u8>)
    ensures
        bytes@ == record_bytes(numbers@, texts_view(texts@)),
        bytes_record(bytes@) == Some((numbers@, texts_view(texts@))),
{
    bincode::serialize(&(numbers, texts)).unwrap_or_default()
}

/// Calls `bincode::deserialize` for a list of numbers followed by a list of
/// texts, and gives nothing where the bytes do not hold such a pair.
#[verifier::external_body]
pub(crate) fn decode_record(bytes: &Vec<u8>) -> (record: Option<(Vec<u64>, Vec<String>)>)
    ensures
        match record {
            Some(r) => bytes_record(bytes@) == Some((r.0@, texts_view(r.1@))),
            None => bytes_record(bytes@) is None,
        },
{
    bincode::deserialize(bytes).ok()
}

/// A stored value before it is written as bytes: a list of numbers and a
/// list of texts.
#[derive(Debug)]
pub struct Record {
    pub numbers: Vec<u64>,
    pub texts: Vec<String>,
}

impl View for Record {
    type V = (Seq<u64>, Seq<Seq<char>>);

    open spec fn view(&self) -> (Seq<u64>, Seq<Seq<char>>) {
        (self.numbers@, texts_view(self.texts@))
    }
}

impl Record {
    /// A record without numbers or texts.
    pub fn new() -> (record: Record)
        ensures
            record@ == (Seq::<u64>::empty(), Seq::<Seq<char>>::empty()),
    {
        let record = Record { numbers: Vec::new(), texts: Vec::new() };
        assert(texts_view(record.texts@) =~= Seq::<Seq<char>>::empty());
        record
    }

    /// Appends a text to the record.
    pub fn push_text(&mut self, text: &str)
        ensures
            final(self)@ == (old(self)@.0, old(self)@.1.push(text@)),
    {
        self.texts.push(String::from_str(text));
        assert(texts_view(self.texts@) =~= texts_view(old(self).texts@).push(text@));
    }

    /// Appends a number to the record.
    pub fn push_number(&mut self, number: u64)
        ensures
            final(self)@ == (old(self)@.0.push(number), old(self)@.1),
    {
        self.numbers.push(number);
    }

    /// The bytes a record is stored as.
    pub open spec fn bytes(self) -> Seq<u8> {
        record_bytes(self@.0, self@.1)
    }

    /// Writes the record as bytes.
    pub fn to_bytes(&self) -> (bytes: Vec<u8>)
        ensures
            bytes@ == self.bytes(),
            bytes_record(bytes@) == Some(self@),
    {
        encode_record(&self.numbers, &self.texts)
    }

    /// Reads a record from bytes, where they hold one.
    pub fn from_bytes(bytes: &Vec<u8>) -> (record: Option<Record>)
        ensures
            match record {
                Some(r) => bytes_record(bytes@) == Some(r@),
                None => bytes_record(bytes@) is None,
            },
    {
        match decode_record(bytes) {
            Some((numbers, texts)) => Some(Record { numbers, texts }),
            None => None,
        }
    }
}

/// The four bytes of an identifier, the most significant first.
pub open spec fn id_bytes(id: u32) -> Seq<u8> {
    seq![
        (id / 0x100_0000) as u8,
        (id / 0x1_0000 % 0x100) as u8,
        (id / 0x100 % 0x100) as u8,
        (id % 0x100) as u8,
    ]
}

/// The identifier that the first four bytes of a key spell.
pub open spec fn leading_id(key: Seq<u8>) -> int
    recommends
        key.len() >= 4,
{
    key[0] * 0x100_0000 + key[1] * 0x1_0000 + key[2] * 0x100 + key[3]
}

/// Writes an identifier as four bytes, the most significant first, so that
/// the order of the keys is the order of the identifiers.
pub fn id_key(id: u32) -> (key: Vec<u8>)
    ensures
        key@ == id_bytes(id),
        key@.len() == 4,
        leading_id(key@) == id,
{
    let mut key: Vec<u8> = Vec::new();
    key.push((id / 0x100_0000) as u8);
    key.push((id / 0x1_0000 % 0x100) as u8);
    key.push((id / 0x100 % 0x100) as u8);
    key.push((id % 0x100) as u8);
    assert(key@ =~= id_bytes(id));
    key
}

/// Reads the identifier that the first four bytes of a key spell.
pub fn key_id(key: &Vec<u8>) -> (id: Option<u32>)
    ensures
        match id {
            Some(i) => key@.len() >= 4 && i == leading_id(key@),
            None => key@.len() < 4,
        },
{
    if key.len() < 4 {
        None
    } else {
        let b0: u32 = key[0] as u32;
        let b1: u32 = key[1] as u32;
        let b2: u32 = key[2] as u32;
        let b3: u32 = key[3] as u32;
        Some(b0 * 0x100_0000 + b1 * 0x1_0000 + b2 * 0x100 + b3)
    }
}

/// Different identifiers have different keys.
pub proof fn id_bytes_injective(a: u32, b: u32)
    requires
        id_bytes(a) == id_bytes(b),
    ensures
        a == b,
{
    assert(id_bytes(a)[0] == id_bytes(b)[0]);
    assert(id_bytes(a)[1] == id_bytes(b)[1]);
    assert(id_bytes(a)[2] == id_bytes(b)[2]);
    assert(id_bytes(a)[3] == id_bytes(b)[3]);
}

/// Of two keys in order, the one that comes first does not spell the greater
/// identifier.
pub proof fn order_of_leading_ids(a: Seq<u8>, b: Seq<u8>)
    requires
        a.len() >= 4,
        b.len() >= 4,
        bytes_le(a, b),
    ensures
        leading_id(a) <= leading_id(b),
{
    reveal_with_fuel(bytes_le, 5);
    let a1 = a.drop_first();
    let b1 = b.drop_first();
    let a2 = a1.drop_first();
    let b2 = b1.drop_first();
    let a3 = a2.drop_first();
    let b3 = b2.drop_first();
    assert(a1[0] == a[1] && a2[0] == a[2] && a3[0] == a[3]);
    assert(b1[0] == b[1] && b2[0] == b[2] && b3[0] == b[3]);
}

/// The identifiers that a record holds: its numbers, where each of them is
/// an identifier and no text stands beside them.
pub open spec fn ids_of_record(record: Option<(Seq<u64>, Seq<Seq<char>>)>) -> Option<Seq<u32>> {
    match record {
        Some((numbers, texts)) => if texts.len() == 0 && (forall|i: int|
            0 <= i < numbers.len() ==> #[trigger] numbers[i] <= u32::MAX) {
            Some(numbers.map_values(|n: u64| n as u32))
        } else {
            None
        },
        None => None,
    }
}

/// The list of identifiers that a table holds under a key.
pub open spec fn stored_ids(table: Map<Seq<u8>, Seq<u8>>, key: Seq<u8>) -> Option<Seq<u32>> {
    if table.contains_key(key) {
        ids_of_record(bytes_record(table[key]))
    } else {
        None
    }
}

/// The record of a list of identifiers.
pub fn ids_record(ids: &Vec<u32>) -> (record: Record)
    ensures
        record@ == ids_as_record(ids@),
        ids_of_record(Some(record@)) == Some(ids@),
{
    let mut record = Record::new();
    let mut i: usize = 0;
    while i < ids.len()
        invariant
            i <= ids.len(),
            record@.1.len() == 0,
            record@.0.len() == i,
            forall|j: int| 0 <= j < i ==> #[trigger] record@.0[j] == ids@[j] as u64,
        decreases ids.len() - i,
    {
        record.push_number(ids[i] as u64);
        i = i + 1;
    }
    assert(record@.0.map_values(|n: u64| n as u32) =~= ids@);
    assert(record@.0 =~= ids_as_record(ids@).0);
    assert(record@.1 =~= ids_as_record(ids@).1);
    record
}

/// The record of a list of identifiers: the identifiers as its numbers, and
/// no text.
pub open spec fn ids_as_record(ids: Seq<u32>) -> (Seq<u64>, Seq<Seq<char>>) {
    (ids.map_values(|id: u32| id as u64), Seq::empty())
}

/// Whether a list holds an identifier.
pub fn contains_id(ids: &Vec<u32>, id: u32) -> (found: bool)
    ensures
        found == ids@.contains(id),
{
    let mut i: usize = 0;
    while i < ids.len()
        invariant
            i <= ids.len(),
            forall|j: int| 0 <= j < i ==> ids@[j] != id,
        decreases ids.len() - i,
    {
        if ids[i] == id {
            return true;
        }
        i = i + 1;
    }
    false
}

/// A list without an identifier, wherever it stood in it.
pub open spec fn without_id(ids: Seq<u32>, id: u32) -> Seq<u32>
    decreases ids.len(),
{
    if ids.len() == 0 {
        ids
    } else if ids.last() == id {
        without_id(ids.drop_last(), id)
    } else {
        without_id(ids.drop_last(), id).push(ids.last())
    }
}

/// A list without an identifier does not hold it.
pub proof fn without_id_lacks(ids: Seq<u32>, id: u32)
    ensures
        !without_id(ids, id).contains(id),
    decreases ids.len(),
{
    if ids.len() > 0 {
        without_id_lacks(ids.drop_last(), id);
        let rest = without_id(ids.drop_last(), id);
        if ids.last() != id {
            assert forall|j: int| 0 <= j < rest.push(ids.last()).len() implies rest.push(
                ids.last(),
            )[j] != id by {
                if j < rest.len() {
                    assert(rest[j] == rest.push(ids.last())[j]);
                    assert(rest.contains(rest[j]));
                }
            }
        }
    }
}

/// Copies a list without an identifier.
pub fn remove_id(ids: &Vec<u32>, id: u32) -> (kept: Vec<u32>)
    ensures
        kept@ == without_id(ids@, id),
{
    let mut kept: Vec<u32> = Vec::new();
    let mut i: usize = 0;
    while i < ids.len()
        invariant
            i <= ids.len(),
            kept@ == without_id(ids@.take(i as int), id),
        decreases ids.len() - i,
    {
        proof {
            assert(ids@.take(i + 1).drop_last() =~= ids@.take(i as int));
        }
        if ids[i] != id {
            kept.push(ids[i]);
        }
        i = i + 1;
    }
    assert(ids@.take(ids.len() as int) =~= ids@);
    kept
}

/// Reads a list of identifiers from a record, where the record holds one.
pub fn record_ids(record: &Record) -> (ids: Option<Vec<u32>>)
    ensures
        match ids {
            Some(list) => ids_of_record(Some(record@)) == Some(list@),
            None => ids_of_record(Some(record@)) is None,
        },
{
    if record.texts.len() != 0 {
        return None;
    }
    let mut ids: Vec<u32> = Vec::new();
    let mut i: usize = 0;
    while i < record.numbers.len()
        invariant
            i <= record.numbers.len(),
            record@.1.len() == 0,
            ids@.len() == i,
            forall|j: int| 0 <= j < i ==> #[trigger] record@.0[j] <= u32::MAX,
            forall|j: int| 0 <= j < i ==> #[trigger] ids@[j] == record@.0[j] as u32,
        decreases record.numbers.len() - i,
    {
        let number = record.numbers[i];
        if number > 0xffff_ffff {
            return None;
        }
        ids.push(number as u32);
        i = i + 1;
    }
    assert(record@.0.map_values(|n: u64| n as u32) =~= ids@);
    Some(ids)
}

impl StableTable {
    /// Reads the list of identifiers under a key.
    pub fn read_ids(&self, key: &Vec<u8>) -> (ids: Option<Vec<u32>>)
        ensures
            match ids {
                Some(list) => stored_ids(table_entries(*self), key@) == Some(list@),
                None => stored_ids(table_entries(*self), key@) is None,
            },
    {
        match self.get(key) {
            Some(bytes) => match Record::from_bytes(&bytes) {
                Some(record) => record_ids(&record),
                None => None,
            },
            None => None,
        }
    }

    /// Reads the record under a key.
    pub fn read(&self, key: &Vec<u8>) -> (record: Option<Record>)
        ensures
            match record {
                Some(r) => {
                    &&& table_entries(*self).contains_key(key@)
                    &&& bytes_record(table_entries(*self)[key@]) == Some(r@)
                },
                None => !table_entries(*self).contains_key(key@) || bytes_record(
                    table_entries(*self)[key@],
                ) is None,
            },
    {
        match self.get(key) {
            Some(bytes) => Record::from_bytes(&bytes),
            None => None,
        }
    }

    /// Puts a record under a key, unless the key or the record is too long to
    /// be stored, in which case the table stays as it is.
    pub fn write(&mut self, key: Vec<u8>, record: &Record) -> (stored: bool)
        ensures
            stored <==> key@.len() <= max_entry_len() && storable(record@),
            stored ==> {
                &&& table_entries(*final(self)).contains_key(key@)
                &&& bytes_record(table_entries(*final(self))[key@]) == Some(record@)
                &&& table_entries(*final(self)).remove(key@) == table_entries(*old(self)).remove(
                    key@,
                )
            },
            !stored ==> table_entries(*final(self)) == table_entries(*old(self)),
    {
        let stored = self.put(key, record.to_bytes());
        assert(stored ==> table_entries(*self).remove(key@) =~= table_entries(*old(self)).remove(
            key@,
        ));
        stored
    }

    /// Puts a value under a key, unless one of the two is too long to be
    /// stored, in which case the table stays as it is.
    pub fn put(&mut self, key: Vec<u8>, value: Vec<u8>) -> (stored: bool)
        ensures
            stored <==> key@.len() <= max_entry_len() && value@.len() <= max_entry_len(),
            stored ==> table_entries(*final(self)) == table_entries(*old(self)).insert(
                key@,
                value@,
            ),
            !stored ==> table_entries(*final(self)) == table_entries(*old(self)),
    {
        if key.len() > 0xffff_ffff || value.len() > 0xffff_ffff {
            false
        } else {
            let _ = self.insert(key, value);
            true
        }
    }

    /// The identifier after those in use: `first` where the table is empty,
    /// and otherwise one more than the identifier at the head of the last
    /// key. There is none where that identifier is the greatest there is, or
    /// where the last key is too short to hold one.
    pub fn next_id(&self, first: u32) -> (next: Option<u32>)
        ensures
            next == next_id_of(table_entries(*self), first),
            next is Some ==> forall|key: Seq<u8>| #[trigger]
                table_entries(*self).contains_key(key) && key.len() >= 4 ==> leading_id(key)
                    < next->0,
    {
        match self.last_key() {
            None => {
                assert(is_empty_table(table_entries(*self)));
                Some(first)
            },
            Some(last) => {
                proof {
                    assert(is_last_key(table_entries(*self), last@));
                    assert(!is_empty_table(table_entries(*self)));
                    last_key_is_unique(table_entries(*self), last@, last_key_of(table_entries(*self)));
                }
                match key_id(&last) {
                    Some(id) => if id < 0xffff_ffff {
                        assert forall|key: Seq<u8>| #[trigger]
                            table_entries(*self).contains_key(key) && key.len()
                                >= 4 implies leading_id(key) < id + 1 by {
                            order_of_leading_ids(key, last@);
                        }
                        Some(id + 1)
                    } else {
                        None
                    },
                    None => None,
                }
            },
        }
    }
}

/// Whether a table holds nothing.
pub open spec fn is_empty_table(table: Map<Seq<u8>, Seq<u8>>) -> bool {
    forall|key: Seq<u8>| !table.contains_key(key)
}

/// Whether a key of a table comes last in the order of byte strings.
pub open spec fn is_last_key(table: Map<Seq<u8>, Seq<u8>>, key: Seq<u8>) -> bool {
    &&& table.contains_key(key)
    &&& forall|other: Seq<u8>| #[trigger] table.contains_key(other) ==> bytes_le(other, key)
}

/// The byte strings of a list, each by its view.
pub open spec fn values_view(values: Seq<Vec<u8>>) -> Seq<Seq<u8>> {
    values.map_values(|v: Vec<u8>| v@)
}

/// The key of the identifier that comes `offset` after `first`.
pub open spec fn key_after(first: u32, offset: int) -> Seq<u8> {
    id_bytes((first + offset) as u32)
}

/// A table after values have been put under consecutive identifiers, the
/// first of them under `first`.
pub open spec fn with_consecutive(
    table: Map<Seq<u8>, Seq<u8>>,
    first: u32,
    values: Seq<Seq<u8>>,
) -> Map<Seq<u8>, Seq<u8>>
    decreases values.len(),
{
    if values.len() == 0 {
        table
    } else {
        with_consecutive(table, first, values.drop_last()).insert(
            id_bytes((first + values.len() - 1) as u32),
            values.last(),
        )
    }
}

/// Whether a record can be stored: its bytes are not too many.
pub open spec fn storable(record: (Seq<u64>, Seq<Seq<char>>)) -> bool {
    record_bytes(record.0, record.1).len() <= max_entry_len()
}

/// What stands under the identifiers that values were put under, and that
/// nothing else has changed.
pub proof fn with_consecutive_holds(
    table: Map<Seq<u8>, Seq<u8>>,
    first: u32,
    values: Seq<Seq<u8>>,
)
    requires
        first + values.len() <= u32::MAX + 1,
    ensures
        forall|i: int|
            0 <= i < values.len() ==> {
                &&& with_consecutive(table, first, values).contains_key(
                    #[trigger] key_after(first, i),
                )
                &&& with_consecutive(table, first, values)[key_after(first, i)] == values[i]
            },
        forall|key: Seq<u8>|
            (forall|i: int| 0 <= i < values.len() ==> key != #[trigger] key_after(first, i)) ==> {
                &&& #[trigger] with_consecutive(table, first, values).contains_key(key)
                    == table.contains_key(key)
                &&& table.contains_key(key) ==> with_consecutive(table, first, values)[key]
                    == table[key]
            },
    decreases values.len(),
{
    if values.len() > 0 {
        let rest = values.drop_last();
        with_consecutive_holds(table, first, rest);
        let last = (first + values.len() - 1) as u32;
        assert(key_after(first, values.len() - 1) == id_bytes(last));
        assert forall|i: int| 0 <= i < values.len() implies {
            &&& with_consecutive(table, first, values).contains_key(#[trigger] key_after(first, i))
            &&& with_consecutive(table, first, values)[key_after(first, i)] == values[i]
        } by {
            if i < values.len() - 1 {
                assert(rest[i] == values[i]);
                if key_after(first, i) == id_bytes(last) {
                    id_bytes_injective((first + i) as u32, last);
                }
            }
        }
        assert forall|key: Seq<u8>|
            (forall|i: int|
                0 <= i < values.len() ==> key != #[trigger] key_after(first, i)) implies {
            &&& #[trigger] with_consecutive(table, first, values).contains_key(key)
                == table.contains_key(key)
            &&& table.contains_key(key) ==> with_consecutive(table, first, values)[key]
                == table[key]
        } by {
            assert(key != key_after(first, values.len() - 1));
            assert forall|i: int| 0 <= i < rest.len() implies key != #[trigger] key_after(
                first,
                i,
            ) by {}
            let inner = with_consecutive(table, first, rest);
            assert(inner.contains_key(key) == table.contains_key(key));
            assert(with_consecutive(table, first, values) == inner.insert(
                id_bytes(last),
                values.last(),
            ));
        }
    }
}

impl StableTable {
    /// Puts values under consecutive identifiers, the first of them under
    /// `first`.
    pub fn put_consecutive(&mut self, first: u32, values: &Vec<Vec<u8>>)
        requires
            first + values.len() <= u32::MAX + 1,
            forall|i: int| 0 <= i < values.len() ==> (#[trigger] values@[i])@.len() <= max_entry_len(),
        ensures
            table_entries(*final(self)) == with_consecutive(
                table_entries(*old(self)),
                first,
                values_view(values@),
            ),
    {
        let mut i: usize = 0;
        while i < values.len()
            invariant
                i <= values.len(),
                first + values.len() <= u32::MAX + 1,
                forall|j: int|
                    0 <= j < values.len() ==> (#[trigger] values@[j])@.len() <= max_entry_len(),
                table_entries(*self) == with_consecutive(
                    table_entries(*old(self)),
                    first,
                    values_view(values@).take(i as int),
                ),
            decreases values.len() - i,
        {
            let id: u32 = first + i as u32;
            proof {
                let taken = values_view(values@).take(i + 1);
                assert(taken.drop_last() =~= values_view(values@).take(i as int));
                assert(taken.last() == values@[i as int]@);
            }
            let _ = self.insert(id_key(id), values[i].clone());
            i = i + 1;
        }
        assert(values_view(values@).take(values.len() as int) =~= values_view(values@));
    }
}

/// The key of a table that comes last.
pub open spec fn last_key_of(table: Map<Seq<u8>, Seq<u8>>) -> Seq<u8> {
    choose|key: Seq<u8>| is_last_key(table, key)
}

/// The identifier after those in use in a table.
pub open spec fn next_id_of(table: Map<Seq<u8>, Seq<u8>>, first: u32) -> Option<u32> {
    if is_empty_table(table) {
        Some(first)
    } else {
        let last = last_key_of(table);
        if last.len() >= 4 && leading_id(last) < u32::MAX {
            Some((leading_id(last) + 1) as u32)
        } else {
            None
        }
    }
}

/// Two byte strings that each come before the other are one string.
pub proof fn bytes_le_antisymmetric(a: Seq<u8>, b: Seq<u8>)
    requires
        bytes_le(a, b),
        bytes_le(b, a),
    ensures
        a == b,
    decreases a.len(),
{
    if a.len() == 0 || b.len() == 0 {
        assert(a =~= b);
    } else {
        bytes_le_antisymmetric(a.drop_first(), b.drop_first());
        assert(a =~= seq![a[0]] + a.drop_first());
        assert(b =~= seq![b[0]] + b.drop_first());
    }
}

/// A table has one last key at most.
pub proof fn last_key_is_unique(table: Map<Seq<u8>, Seq<u8>>, a: Seq<u8>, b: Seq<u8>)
    requires
        is_last_key(table, a),
    ensures
        is_last_key(table, b) ==> a == b,
        is_last_key(table, last_key_of(table)),
{
    if is_last_key(table, b) {
        bytes_le_antisymmetric(a, b);
    }
}

} // verus!
