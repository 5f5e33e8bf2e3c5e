use vstd::prelude::*;
use vstd::string::StringSliceAdditionalSpecFns;
use crate::exchange::Exchange;
use crate::memory::MemoryLocation;
use crate::request_store::record::{flag, read_flag, stored_optional};
use crate::request_store::MyPrincipal;
use crate::storage::{
    bytes_record, id_bytes, id_key, key_id, leading_id, max_entry_len, next_id_of, storable,
    table_entries, texts_view, Memories, Record, StableTable,
};

verus! {

pub type ApiId = u32;

pub type ApiKey = String;

/// A credential: the api key of an account at an exchange, with the
/// passphrase that goes with it where the exchange asks for one.
#[derive(Debug, PartialEq, Eq)]
pub struct ApiData {
    pub exchange: Exchange,
    pub api_key: String,
    pub passphrase: Option<String>,
}

impl Clone for ApiData {
    fn clone(&self) -> (copy: Self)
        ensures
            copy == *self,
    {
        ApiData {
            exchange: self.exchange,
            api_key: self.api_key.clone(),
            passphrase: crate::text::clone_optional(&self.passphrase),
        }
    }
}

/// Whether a record is that of a credential.
pub open spec fn is_credential_record(record: (Seq<u64>, Seq<Seq<char>>)) -> bool {
    &&& record.0.len() == 2
    &&& record.0[0] <= 1
    &&& record.0[1] <= 1
    &&& record.1.len() == 1 + record.0[1]
}

impl ApiData {
    /// What a credential is stored as: the exchange and whether there is a
    /// passphrase; the api key and then the passphrase.
    pub open spec fn record(self) -> (Seq<u64>, Seq<Seq<char>>) {
        (
            seq![self.exchange.code() as u64, flag(self.passphrase is Some)],
            seq![self.api_key@] + stored_optional(self.passphrase),
        )
    }

    /// Writes a credential as a record.
    pub fn to_record(&self) -> (record: Record)
        ensures
            record@ == self.record(),
            is_credential_record(record@),
    {
        let mut record = Record::new();
        record.push_number(self.exchange.to_u8() as u64);
        record.push_text(self.api_key.as_str());
        match &self.passphrase {
            Some(passphrase) => {
                record.push_number(1);
                record.push_text(passphrase.as_str());
            },
            None => {
                record.push_number(0);
            },
        }
        assert(record@.0 =~= self.record().0);
        assert(record@.1 =~= self.record().1);
        record
    }

    /// Reads a credential from a record. A record that has the shape of a
    /// credential's gives the credential that is stored as that very record;
    /// any other record gives nothing.
    pub fn from_record(record: &Record) -> (read: Option<ApiData>)
        ensures
            read is Some <==> is_credential_record(record@),
            read is Some ==> read->0.record() == record@,
    {
        let n = &record.numbers;
        let t = &record.texts;
        if n.len() != 2 || n[0] > 1 {
            return None;
        }
        let exchange = match Exchange::from_u8(n[0] as u8) {
            Some(e) => e,
            None => {
                return None;
            },
        };
        let guarded = match read_flag(n[1]) {
            Some(f) => f,
            None => {
                return None;
            },
        };
        let read = if guarded {
            if t.len() != 2 {
                return None;
            }
            ApiData { exchange, api_key: t[0].clone(), passphrase: Some(t[1].clone()) }
        } else {
            if t.len() != 1 {
                return None;
            }
            ApiData { exchange, api_key: t[0].clone(), passphrase: None }
        };
        assert(read.record().0 =~= record@.0);
        assert(read.record().1 =~= record@.1);
        Some(read)
    }
}

/// Whether the record of a credential says that there is a passphrase.
pub open spec fn has_passphrase(record: (Seq<u64>, Seq<Seq<char>>)) -> bool {
    record.0[1] != 0
}

/// The passphrase in the record of a credential that has one.
pub open spec fn passphrase_of(record: (Seq<u64>, Seq<Seq<char>>)) -> Seq<char> {
    record.1[1]
}

/// The key under which a caller's credential with a given identifier
/// stands: the identifier first, then the caller's identity.
pub open spec fn credential_key(id: ApiId, identity: Seq<u8>) -> Seq<u8> {
    id_bytes(id) + identity
}

/// The credential that a table holds for a caller under an identifier, as
/// the record it is stored as.
pub open spec fn stored_credential(
    table: Map<Seq<u8>, Seq<u8>>,
    identity: Seq<u8>,
    id: ApiId,
) -> Option<(Seq<u64>, Seq<Seq<char>>)> {
    if table.contains_key(credential_key(id, identity)) {
        match bytes_record(table[credential_key(id, identity)]) {
            Some(record) => if is_credential_record(record) {
                Some(record)
            } else {
                None
            },
            None => None,
        }
    } else {
        None
    }
}

/// The identifier that an index holds for an api key.
pub open spec fn indexed_id(index: Map<Seq<u8>, Seq<u8>>, api_key: Seq<char>) -> Option<ApiId> {
    let key = vstd::utf8::encode_utf8(api_key);
    if index.contains_key(key) && index[key].len() >= 4 {
        Some(leading_id(index[key]) as u32)
    } else {
        None
    }
}

/// The durable store of credentials: the credentials of each caller by
/// identifier, and the identifier of each api key.
pub struct ApiStore {
    keys: StableTable,
    index: StableTable,
}

impl ApiStore {
    /// The table of credentials.
    pub closed spec fn key_table(&self) -> Map<Seq<u8>, Seq<u8>> {
        table_entries(self.keys)
    }

    /// The index from api keys to identifiers.
    pub closed spec fn index_table(&self) -> Map<Seq<u8>, Seq<u8>> {
        table_entries(self.index)
    }

    /// The identifier of an api key.
    pub open spec fn id_of(&self, api_key: Seq<char>) -> Option<ApiId> {
        indexed_id(self.index_table(), api_key)
    }

    /// The credential that a caller holds under an api key.
    pub open spec fn credential_of(&self, identity: Seq<u8>, api_key: Seq<char>) -> Option<
        (Seq<u64>, Seq<Seq<char>>),
    > {
        match self.id_of(api_key) {
            Some(id) => stored_credential(self.key_table(), identity, id),
            None => None,
        }
    }

    /// Whether a credential can be stored for a caller: there is an
    /// identifier for it, and neither the credential nor either of the keys
    /// it goes under is too long.
    pub open spec fn accepts(&self, identity: Seq<u8>, data: ApiData) -> bool {
        &&& next_id_of(self.key_table(), 1) is Some
        &&& storable(data.record())
        &&& 4 + identity.len() <= max_entry_len()
        &&& vstd::utf8::encode_utf8(data.api_key@).len() <= max_entry_len()
    }

    /// The store that is kept in the given memory, unless one of its two
    /// tables has been handed out before.
    pub fn new(memories: &mut Memories) -> (store: Option<ApiStore>)
        ensures
            store is Some <==> {
                &&& !old(memories).opened().contains(MemoryLocation::UserKeys.region())
                &&& !old(memories).opened().contains(MemoryLocation::ApiKeys.region())
            },
            store is None ==> final(memories).opened() == old(memories).opened(),
            store is Some ==> final(memories).opened() == old(memories).opened().push(
                MemoryLocation::UserKeys.region(),
            ).push(MemoryLocation::ApiKeys.region()),
    {
        if memories.is_open(MemoryLocation::UserKeys) || memories.is_open(MemoryLocation::ApiKeys) {
            return None;
        }
        let keys = memories.table_at(MemoryLocation::UserKeys);
        let index = memories.table_at(MemoryLocation::ApiKeys);
        match (keys, index) {
            (Some(keys), Some(index)) => Some(ApiStore { keys, index }),
            _ => None,
        }
    }

    /// Stores a credential for a caller under the next identifier, and the
    /// identifier under the credential's api key. The caller then finds the
    /// credential under that api key.
    pub fn register_key(&mut self, identity: &MyPrincipal, data: ApiData) -> (id: Option<ApiId>)
        ensures
            id is Some <==> old(self).accepts(identity.0@, data),
            match id {
                Some(id) => {
                    &&& Some(id) == next_id_of(old(self).key_table(), 1)
                    &&& !old(self).key_table().contains_key(credential_key(id, identity.0@))
                    &&& final(self).key_table().remove(credential_key(id, identity.0@))
                        == old(self).key_table()
                    &&& final(self).index_table().remove(vstd::utf8::encode_utf8(data.api_key@))
                        == old(self).index_table().remove(vstd::utf8::encode_utf8(data.api_key@))
                    &&& final(self).id_of(data.api_key@) == Some(id)
                    &&& final(self).credential_of(identity.0@, data.api_key@) == Some(
                        data.record(),
                    )
                },
                None => {
                    &&& final(self).key_table() == old(self).key_table()
                    &&& final(self).index_table() == old(self).index_table()
                },
            },
    {
        let bytes = data.to_record().to_bytes();
        let indexed = data.api_key.as_str().as_bytes_vec();
        if bytes.len() > 0xffff_ffff || indexed.len() > 0xffff_ffff || identity.0.len()
            > 0xffff_ffff - 4 {
            return None;
        }
        let id = match self.keys.next_id(1) {
            Some(id) => id,
            None => {
                return None;
            },
        };
        let key = make_credential_key(id, identity);
        assert(!self.key_table().contains_key(key@)) by {
            if self.key_table().contains_key(key@) {
                assert(leading_id(key@) < id);
            }
        }
        let _ = self.keys.insert(key, bytes);
        let _ = self.index.insert(indexed, id_key(id));
        proof {
            assert(final(self).key_table().remove(credential_key(id, identity.0@))
                =~= old(self).key_table());
            assert(final(self).index_table().remove(vstd::utf8::encode_utf8(data.api_key@))
                =~= old(self).index_table().remove(vstd::utf8::encode_utf8(data.api_key@)));
        }
        Some(id)
    }

    /// The identifier that was given to an api key.
    pub fn get_id(&self, api_key: &String) -> (id: Option<ApiId>)
        ensures
            id == self.id_of(api_key@),
    {
        match self.index.get(&api_key.as_str().as_bytes_vec()) {
            Some(value) => key_id(&value),
            None => None,
        }
    }

    /// Removes the credential that a caller holds under an api key and hands
    /// it back. The api key keeps its identifier.
    pub fn remove_key(&mut self, identity: &MyPrincipal, api_key: &String) -> (removed: Option<
        ApiData,
    >)
        ensures
            final(self).index_table() == old(self).index_table(),
            match old(self).id_of(api_key@) {
                Some(id) => final(self).key_table() == old(self).key_table().remove(
                    credential_key(id, identity.0@),
                ),
                None => final(self).key_table() == old(self).key_table(),
            },
            match removed {
                Some(data) => old(self).credential_of(identity.0@, api_key@) == Some(
                    data.record(),
                ),
                None => old(self).credential_of(identity.0@, api_key@) is None,
            },
            final(self).credential_of(identity.0@, api_key@) is None,
    {
        let id = match self.get_id(api_key) {
            Some(id) => id,
            None => {
                return None;
            },
        };
        let key = make_credential_key(id, identity);
        match self.keys.remove(&key) {
            Some(bytes) => match Record::from_bytes(&bytes) {
                Some(record) => ApiData::from_record(&record),
                None => None,
            },
            None => None,
        }
    }

    /// The credential that a caller holds under an api key.
    pub fn get_by_api(&self, identity: &MyPrincipal, api_key: &String) -> (found: Option<ApiData>)
        ensures
            match found {
                Some(data) => self.credential_of(identity.0@, api_key@) == Some(data.record()),
                None => self.credential_of(identity.0@, api_key@) is None,
            },
    {
        let id = match self.get_id(api_key) {
            Some(id) => id,
            None => {
                return None;
            },
        };
        let key = make_credential_key(id, identity);
        match self.keys.get(&key) {
            Some(bytes) => match Record::from_bytes(&bytes) {
                Some(record) => ApiData::from_record(&record),
                None => None,
            },
            None => None,
        }
    }
}

/// Writes the key under which a caller's credential with a given identifier
/// stands.
fn make_credential_key(id: ApiId, identity: &MyPrincipal) -> (key: Vec<u8>)
    ensures
        key@ == credential_key(id, identity.0@),
        key@.len() >= 4,
        leading_id(key@) == id,
{
    let mut key = id_key(id);
    let mut i: usize = 0;
    while i < identity.0.len()
        invariant
            i <= identity.0.len(),
            key@ == id_bytes(id) + identity.0@.take(i as int),
        decreases identity.0.len() - i,
    {
        key.push(identity.0[i]);
        assert(key@ =~= id_bytes(id) + identity.0@.take(i + 1));
        i = i + 1;
    }
    assert(identity.0@.take(identity.0.len() as int) =~= identity.0@);
    key
}

} // verus!
