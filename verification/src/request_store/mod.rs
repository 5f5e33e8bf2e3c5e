use vstd::prelude::*;
use crate::exchange::Exchange;
use crate::memory::MemoryLocation;
use crate::request_store::record::is_instruction_record;
use crate::request_store::request::Request;
use crate::storage::{
    bytes_record, contains_id, id_bytes, id_key, ids_as_record, ids_of_record, ids_record,
    key_after, leading_id, max_entry_len, next_id_of, remove_id, storable, stored_ids,
    table_entries, values_view, with_consecutive, with_consecutive_holds, without_id,
    without_id_lacks, Memories, Record, StableTable,
};

pub mod record;
pub mod request;

verus! {

pub type InstructionId = u32;

pub type TransactionId = u32;

/// One action at one exchange, on behalf of the account behind an api key.
#[derive(Debug)]
pub struct Instruction {
    pub exchange: Exchange,
    pub api_key: String,
    pub request: Request,
}

/// An instruction on its way through a transaction: with the text that an
/// outside signer signs for it, and with the mark that it has been carried
/// out.
#[derive(Debug)]
pub struct SignableInstruction {
    pub instruction: Instruction,
    pub signature: String,
    pub executed: bool,
}

/// The instructions that are carried out together, in order.
#[derive(Debug)]
pub struct Transaction(pub Vec<SignableInstruction>);

/// The identity of a caller: the bytes of its principal.
#[derive(Debug, PartialEq, Eq, PartialOrd, Ord, Hash)]
pub struct MyPrincipal(pub Vec<u8>);

impl MyPrincipal {
    /// The stored form of an identity: its bytes.
    pub fn to_bytes(&self) -> (bytes: Vec<u8>)
        ensures
            bytes@ == self.0@,
    {
        self.0.clone()
    }

    /// Reads an identity from its stored form.
    pub fn from_bytes(bytes: &Vec<u8>) -> (identity: MyPrincipal)
        ensures
            identity.0@ == bytes@,
    {
        MyPrincipal(bytes.clone())
    }
}

/// The instruction that a table holds under an identifier, as the record it
/// is stored as. Bytes that are no instruction's count as nothing.
pub open spec fn stored_instruction(table: Map<Seq<u8>, Seq<u8>>, id: InstructionId) -> Option<
    (Seq<u64>, Seq<Seq<char>>),
> {
    if table.contains_key(id_bytes(id)) {
        match bytes_record(table[id_bytes(id)]) {
            Some(record) => if is_instruction_record(record) {
                Some(record)
            } else {
                None
            },
            None => None,
        }
    } else {
        None
    }
}

/// The instructions that a table holds under the identifiers of a list, in
/// the order of the list. An identifier under which there is no instruction
/// is passed over.
pub open spec fn present_records(table: Map<Seq<u8>, Seq<u8>>, ids: Seq<InstructionId>) -> Seq<
    (Seq<u64>, Seq<Seq<char>>),
>
    decreases ids.len(),
{
    if ids.len() == 0 {
        Seq::empty()
    } else {
        match stored_instruction(table, ids.last()) {
            Some(record) => present_records(table, ids.drop_last()).push(record),
            None => present_records(table, ids.drop_last()),
        }
    }
}

/// The records of a list of instructions.
pub open spec fn records_of(instructions: Seq<SignableInstruction>) -> Seq<
    (Seq<u64>, Seq<Seq<char>>),
> {
    instructions.map_values(|i: SignableInstruction| i.record())
}

/// The identifiers from `first` on, `count` of them.
pub open spec fn consecutive_ids(first: u32, count: nat) -> Seq<u32> {
    Seq::new(count, |i: int| (first + i) as u32)
}

/// Whether a batch of instructions, given by their records, can be stored as
/// a new transaction in a table of transactions and a table of
/// instructions: there is an identifier for the transaction and one for each
/// instruction, and none of the records is too long.
pub open spec fn tables_accept(
    transactions: Map<Seq<u8>, Seq<u8>>,
    instructions: Map<Seq<u8>, Seq<u8>>,
    records: Seq<(Seq<u64>, Seq<Seq<char>>)>,
) -> bool {
    &&& next_id_of(transactions, 0) is Some
    &&& next_id_of(instructions, 0) is Some
    &&& next_id_of(instructions, 0)->0 + records.len() <= u32::MAX
    &&& forall|i: int| 0 <= i < records.len() ==> storable(#[trigger] records[i])
    &&& storable(ids_as_record(consecutive_ids(next_id_of(instructions, 0)->0, records.len())))
}

/// The durable store of transactions: the instructions by identifier, the
/// instructions of each transaction, and the transactions of each caller.
pub struct TransactionStore {
    instructions: StableTable,
    transactions: StableTable,
    user_transactions: StableTable,
}

impl TransactionStore {
    /// The table of instructions, by the key of their identifier.
    pub closed spec fn instruction_table(&self) -> Map<Seq<u8>, Seq<u8>> {
        table_entries(self.instructions)
    }

    /// The table of transactions, by the key of their identifier.
    pub closed spec fn transaction_table(&self) -> Map<Seq<u8>, Seq<u8>> {
        table_entries(self.transactions)
    }

    /// The table of callers, by their identity.
    pub closed spec fn user_table(&self) -> Map<Seq<u8>, Seq<u8>> {
        table_entries(self.user_transactions)
    }

    /// The instruction under an identifier.
    pub open spec fn instruction_at(&self, id: InstructionId) -> Option<
        (Seq<u64>, Seq<Seq<char>>),
    > {
        stored_instruction(self.instruction_table(), id)
    }

    /// The identifiers of a transaction's instructions.
    pub open spec fn ids_of(&self, transaction_id: TransactionId) -> Option<Seq<InstructionId>> {
        stored_ids(self.transaction_table(), id_bytes(transaction_id))
    }

    /// The identifiers of a caller's transactions.
    pub open spec fn owned_by(&self, identity: Seq<u8>) -> Option<Seq<TransactionId>> {
        stored_ids(self.user_table(), identity)
    }

    /// The instructions of a transaction as its owner sees them: nothing for
    /// a caller who does not own it.
    pub open spec fn transaction_records(
        &self,
        identity: Seq<u8>,
        transaction_id: TransactionId,
    ) -> Option<Seq<(Seq<u64>, Seq<Seq<char>>)>> {
        match self.owned_by(identity) {
            Some(owned) => if owned.contains(transaction_id) {
                match self.ids_of(transaction_id) {
                    Some(ids) => Some(present_records(self.instruction_table(), ids)),
                    None => None,
                }
            } else {
                None
            },
            None => None,
        }
    }

    /// Whether a batch of instructions, given by their records, can be stored
    /// as a new transaction.
    pub open spec fn accepts(&self, records: Seq<(Seq<u64>, Seq<Seq<char>>)>) -> bool {
        tables_accept(self.transaction_table(), self.instruction_table(), records)
    }

    /// The store that is kept in the given memory, unless one of its three
    /// tables has been handed out before.
    pub fn new(memories: &mut Memories) -> (store: Option<TransactionStore>)
        ensures
            store is Some <==> {
                &&& !old(memories).opened().contains(MemoryLocation::Instructions.region())
                &&& !old(memories).opened().contains(MemoryLocation::Transactions.region())
                &&& !old(memories).opened().contains(MemoryLocation::UserTransactions.region())
            },
            store is None ==> final(memories).opened() == old(memories).opened(),
            store is Some ==> final(memories).opened() == old(memories).opened().push(
                MemoryLocation::Instructions.region(),
            ).push(MemoryLocation::Transactions.region()).push(
                MemoryLocation::UserTransactions.region(),
            ),
    {
        if memories.is_open(MemoryLocation::Instructions) || memories.is_open(
            MemoryLocation::Transactions,
        ) || memories.is_open(MemoryLocation::UserTransactions) {
            return None;
        }
        let instructions = memories.table_at(MemoryLocation::Instructions);
        let transactions = memories.table_at(MemoryLocation::Transactions);
        let user_transactions = memories.table_at(MemoryLocation::UserTransactions);
        match (instructions, transactions, user_transactions) {
            (Some(instructions), Some(transactions), Some(user_transactions)) => Some(
                TransactionStore { instructions, transactions, user_transactions },
            ),
            _ => None,
        }
    }

    /// Stores one instruction under the next identifier and hands the
    /// identifier back. Nothing is stored where there is no next identifier
    /// or the instruction's record is too long.
    pub fn insert_instruction(&mut self, instruction: &SignableInstruction) -> (id: Option<
        InstructionId,
    >)
        ensures
            final(self).transaction_table() == old(self).transaction_table(),
            final(self).user_table() == old(self).user_table(),
            id == if storable(instruction.record()) {
                next_id_of(old(self).instruction_table(), 0)
            } else {
                None
            },
            match id {
                Some(id) => {
                    &&& !old(self).instruction_table().contains_key(id_bytes(id))
                    &&& final(self).instruction_table().remove(id_bytes(id))
                        == old(self).instruction_table()
                    &&& final(self).instruction_at(id) == Some(instruction.record())
                },
                None => final(self).instruction_table() == old(self).instruction_table(),
            },
    {
        let bytes = instruction.to_record().to_bytes();
        if bytes.len() > 0xffff_ffff {
            return None;
        }
        let id = match self.instructions.next_id(0) {
            Some(id) => id,
            None => {
                return None;
            },
        };
        let key = id_key(id);
        assert(!self.instruction_table().contains_key(key@)) by {
            if self.instruction_table().contains_key(key@) {
                assert(crate::storage::leading_id(key@) < id);
            }
        }
        let _ = self.instructions.insert(key, bytes);
        proof {
            crate::request_store::record::shape_of_instruction_record(*instruction);
            assert(final(self).instruction_table().remove(id_bytes(id))
                =~= old(self).instruction_table());
        }
        Some(id)
    }

    /// Stores a batch of instructions as a new transaction: each instruction
    /// under an identifier of its own, one after the other, and the list of
    /// those identifiers under the transaction's identifier, which is handed
    /// back. Either all of it is stored or nothing is.
    pub fn insert_transaction(&mut self, instructions: &Vec<SignableInstruction>) -> (id: Option<
        TransactionId,
    >)
        ensures
            final(self).user_table() == old(self).user_table(),
            id is Some <==> old(self).accepts(records_of(instructions@)),
            match id {
                Some(tx) => {
                    let first = next_id_of(old(self).instruction_table(), 0)->0;
                    &&& Some(tx) == next_id_of(old(self).transaction_table(), 0)
                    &&& !old(self).transaction_table().contains_key(id_bytes(tx))
                    &&& final(self).transaction_table().remove(id_bytes(tx))
                        == old(self).transaction_table()
                    &&& final(self).ids_of(tx) == Some(consecutive_ids(first, instructions@.len()))
                    &&& batch_stored(
                        old(self).instruction_table(),
                        final(self).instruction_table(),
                        first,
                        instructions@,
                    )
                },
                None => {
                    &&& final(self).instruction_table() == old(self).instruction_table()
                    &&& final(self).transaction_table() == old(self).transaction_table()
                },
            },
    {
        let tx = match self.transactions.next_id(0) {
            Some(id) => id,
            None => {
                return None;
            },
        };
        let first = match self.instructions.next_id(0) {
            Some(id) => id,
            None => {
                return None;
            },
        };
        if instructions.len() > (0xffff_ffff - first) as usize {
            return None;
        }
        let ghost records = records_of(instructions@);
        let (values, ids) = match encode_batch(first, instructions) {
            Some(encoded) => encoded,
            None => {
                proof {
                    if self.accepts(records) {
                        assert forall|i: int| 0 <= i < instructions@.len() implies storable(
                            (#[trigger] instructions@[i]).record(),
                        ) by {
                            assert(records[i] == instructions@[i].record());
                        }
                    }
                }
                return None;
            },
        };
        assert forall|i: int| 0 <= i < records.len() implies storable(#[trigger] records[i]) by {
            assert(records[i] == instructions@[i].record());
        }
        let listed = ids_record(&ids).to_bytes();
        if listed.len() > 0xffff_ffff {
            return None;
        }
        let key = id_key(tx);
        proof {
            assert(all_below(self.instruction_table(), first)) by {
                reveal(all_below);
            }
            batch_is_stored(self.instruction_table(), first, values_view(values@), instructions@);
            if self.transaction_table().contains_key(key@) {
                assert(leading_id(key@) < tx);
            }
        }
        self.instructions.put_consecutive(first, &values);
        let _ = self.transactions.insert(key, listed);
        assert(final(self).transaction_table().remove(id_bytes(tx))
            =~= old(self).transaction_table());
        Some(tx)
    }

    /// The transactions of a caller, or none where the store holds no list
    /// for the caller.
    pub open spec fn owned_or_none(&self, identity: Seq<u8>) -> Seq<TransactionId> {
        match self.owned_by(identity) {
            Some(owned) => owned,
            None => Seq::empty(),
        }
    }

    /// Whether a batch of instructions, given by their records, can be stored
    /// as a new transaction of a caller: the batch can be stored, and so can
    /// the caller's list of transactions with one more in it.
    pub open spec fn accepts_from(
        &self,
        identity: Seq<u8>,
        records: Seq<(Seq<u64>, Seq<Seq<char>>)>,
    ) -> bool {
        &&& self.accepts(records)
        &&& identity.len() <= max_entry_len()
        &&& storable(
            ids_as_record(
                self.owned_or_none(identity).push(next_id_of(self.transaction_table(), 0)->0),
            ),
        )
    }

    /// Stores a batch of instructions as a new transaction of a caller and
    /// hands its identifier back. The caller then finds the instructions
    /// under that identifier. Either all of it is stored or nothing is.
    pub fn add_transaction(
        &mut self,
        identity: &MyPrincipal,
        instructions: Vec<SignableInstruction>,
    ) -> (id: Option<TransactionId>)
        ensures
            id is Some <==> old(self).accepts_from(identity.0@, records_of(instructions@)),
            match id {
                Some(tx) => {
                    let first = next_id_of(old(self).instruction_table(), 0)->0;
                    &&& Some(tx) == next_id_of(old(self).transaction_table(), 0)
                    &&& !old(self).transaction_table().contains_key(id_bytes(tx))
                    &&& final(self).transaction_table().remove(id_bytes(tx))
                        == old(self).transaction_table()
                    &&& final(self).ids_of(tx) == Some(consecutive_ids(first, instructions@.len()))
                    &&& batch_stored(
                        old(self).instruction_table(),
                        final(self).instruction_table(),
                        first,
                        instructions@,
                    )
                    &&& final(self).owned_by(identity.0@) == Some(
                        old(self).owned_or_none(identity.0@).push(tx),
                    )
                    &&& final(self).user_table().remove(identity.0@)
                        == old(self).user_table().remove(identity.0@)
                    &&& final(self).transaction_records(identity.0@, tx) == Some(
                        records_of(instructions@),
                    )
                },
                None => {
                    &&& final(self).instruction_table() == old(self).instruction_table()
                    &&& final(self).transaction_table() == old(self).transaction_table()
                    &&& final(self).user_table() == old(self).user_table()
                },
            },
    {
        let tx = match self.transactions.next_id(0) {
            Some(id) => id,
            None => {
                return None;
            },
        };
        let mut owned = match self.user_transactions.read_ids(&identity.0) {
            Some(list) => list,
            None => Vec::new(),
        };
        owned.push(tx);
        let listed = ids_record(&owned).to_bytes();
        if identity.0.len() > 0xffff_ffff || listed.len() > 0xffff_ffff {
            return None;
        }
        match self.insert_transaction(&instructions) {
            None => None,
            Some(stored) => {
                let _ = self.user_transactions.insert(identity.0.clone(), listed);
                proof {
                    let first = next_id_of(old(self).instruction_table(), 0)->0;
                    assert(final(self).user_table().remove(identity.0@)
                        =~= old(self).user_table().remove(identity.0@));
                    assert forall|i: int| 0 <= i < instructions@.len() implies stored_instruction(
                        final(self).instruction_table(),
                        (first + i) as u32,
                    ) == Some((#[trigger] instructions@[i]).record()) by {
                        batch_stored_at(
                            old(self).instruction_table(),
                            final(self).instruction_table(),
                            first,
                            instructions@,
                            i,
                        );
                    }
                    batch_is_present(final(self).instruction_table(), first, instructions@);
                    assert(owned@.last() == tx);
                    assert(owned@.contains(tx));
                }
                Some(stored)
            },
        }
    }

    /// The instructions of a transaction, for the caller who owns it. A
    /// caller who does not own the transaction gets nothing.
    pub fn get_transaction(&self, identity: &MyPrincipal, transaction_id: TransactionId) -> (found:
        Option<Transaction>)
        ensures
            match found {
                Some(transaction) => self.transaction_records(identity.0@, transaction_id) == Some(
                    records_of(transaction.0@),
                ),
                None => self.transaction_records(identity.0@, transaction_id) is None,
            },
    {
        let owned = match self.user_transactions.read_ids(&identity.0) {
            Some(list) => list,
            None => {
                return None;
            },
        };
        if !contains_id(&owned, transaction_id) {
            return None;
        }
        let ids = match self.transactions.read_ids(&id_key(transaction_id)) {
            Some(list) => list,
            None => {
                return None;
            },
        };
        Some(Transaction(read_instructions(&self.instructions, &ids)))
    }

    /// The transactions of a caller, each with its identifier. A caller for
    /// whom the store holds no list gets nothing; a transaction of the list
    /// that is no longer stored is passed over.
    pub fn get_transactions(&self, identity: &MyPrincipal) -> (found: Option<
        Vec<(TransactionId, Transaction)>,
    >)
        ensures
            found is Some <==> self.owned_by(identity.0@) is Some,
            found is Some ==> listing_view(found->0@) == listed_records(
                self.transaction_table(),
                self.instruction_table(),
                self.owned_by(identity.0@)->0,
            ),
    {
        let owned = match self.user_transactions.read_ids(&identity.0) {
            Some(list) => list,
            None => {
                return None;
            },
        };
        let mut found: Vec<(TransactionId, Transaction)> = Vec::new();
        let mut i: usize = 0;
        assert(listing_view(found@) =~= listed_records(
            self.transaction_table(),
            self.instruction_table(),
            owned@.take(0),
        ));
        while i < owned.len()
            invariant
                i <= owned.len(),
                listing_view(found@) == listed_records(
                    self.transaction_table(),
                    self.instruction_table(),
                    owned@.take(i as int),
                ),
            decreases owned.len() - i,
        {
            proof {
                assert(owned@.take(i + 1).drop_last() =~= owned@.take(i as int));
                assert(owned@.take(i + 1).last() == owned@[i as int]);
            }
            let ghost before = listing_view(found@);
            match self.transactions.read_ids(&id_key(owned[i])) {
                Some(ids) => {
                    let transaction = Transaction(read_instructions(&self.instructions, &ids));
                    found.push((owned[i], transaction));
                    assert(listing_view(found@) =~= before.push(
                        (owned@[i as int], records_of(transaction.0@)),
                    ));
                },
                None => {},
            }
            i = i + 1;
        }
        assert(owned@.take(owned.len() as int) =~= owned@);
        Some(found)
    }

    /// Whether a transaction can be taken off a caller's list: the list
    /// without it can be stored.
    pub open spec fn can_release(&self, identity: Seq<u8>, transaction_id: TransactionId) -> bool {
        &&& identity.len() <= max_entry_len()
        &&& storable(ids_as_record(without_id(self.owned_or_none(identity), transaction_id)))
    }

    /// Whether a transaction of a caller can give way to a batch of
    /// instructions, given by their records: the batch can be stored as a new
    /// transaction of the caller once the old one has been deleted; or, where
    /// the old one cannot be taken off the caller's list, beside it.
    pub open spec fn can_replace(
        &self,
        identity: Seq<u8>,
        transaction_id: TransactionId,
        records: Seq<(Seq<u64>, Seq<Seq<char>>)>,
    ) -> bool {
        if self.can_release(identity, transaction_id) {
            let transactions = self.transaction_table().remove(id_bytes(transaction_id));
            let instructions = without_keys(
                self.instruction_table(),
                self.ids_or_none(transaction_id),
            );
            let owned = without_id(self.owned_or_none(identity), transaction_id);
            &&& tables_accept(transactions, instructions, records)
            &&& storable(ids_as_record(owned.push(next_id_of(transactions, 0)->0)))
        } else {
            self.accepts_from(identity, records)
        }
    }

    /// The identifiers of a transaction's instructions, or none where the
    /// transaction is not stored.
    pub open spec fn ids_or_none(&self, transaction_id: TransactionId) -> Seq<InstructionId> {
        match self.ids_of(transaction_id) {
            Some(ids) => ids,
            None => Seq::empty(),
        }
    }

    /// Deletes a transaction: it leaves the caller's list, its list of
    /// instructions leaves the table of transactions, and each of its
    /// instructions leaves the table of instructions. The instructions that
    /// were removed are handed back; there are none to hand back where the
    /// transaction was not stored. Afterwards the caller no longer finds the
    /// transaction.
    pub fn delete_transaction(&mut self, identity: &MyPrincipal, transaction_id: TransactionId) -> (removed:
        Option<Vec<SignableInstruction>>)
        ensures
            !old(self).can_release(identity.0@, transaction_id) ==> {
                &&& removed is None
                &&& final(self).instruction_table() == old(self).instruction_table()
                &&& final(self).transaction_table() == old(self).transaction_table()
                &&& final(self).user_table() == old(self).user_table()
            },
            old(self).can_release(identity.0@, transaction_id) ==> {
                let ids = old(self).ids_or_none(transaction_id);
                &&& final(self).owned_by(identity.0@) == Some(
                    without_id(old(self).owned_or_none(identity.0@), transaction_id),
                )
                &&& final(self).user_table().remove(identity.0@)
                    == old(self).user_table().remove(identity.0@)
                &&& final(self).transaction_table() == old(self).transaction_table().remove(
                    id_bytes(transaction_id),
                )
                &&& removed is Some <==> old(self).transaction_table().contains_key(
                    id_bytes(transaction_id),
                )
                &&& final(self).instruction_table() == without_keys(
                    old(self).instruction_table(),
                    ids,
                )
                &&& removed is Some ==> records_of(removed->0@) == removed_records(
                    old(self).instruction_table(),
                    ids,
                )
                &&& forall|i: int|
                    0 <= i < ids.len() ==> !final(self).instruction_table().contains_key(
                        id_bytes(#[trigger] ids[i]),
                    )
                &&& final(self).transaction_records(identity.0@, transaction_id) is None
            },
    {
        let owned = match self.user_transactions.read_ids(&identity.0) {
            Some(list) => list,
            None => Vec::new(),
        };
        let kept = remove_id(&owned, transaction_id);
        let listed = ids_record(&kept).to_bytes();
        if identity.0.len() > 0xffff_ffff || listed.len() > 0xffff_ffff {
            return None;
        }
        let _ = self.user_transactions.insert(identity.0.clone(), listed);
        let key = id_key(transaction_id);
        let ids = match self.transactions.read_ids(&key) {
            Some(list) => list,
            None => Vec::new(),
        };
        let stored = self.transactions.remove(&key);
        proof {
            without_id_lacks(owned@, transaction_id);
            assert(self.user_table().remove(identity.0@) =~= old(self).user_table().remove(
                identity.0@,
            ));
            without_keys_lack(self.instruction_table(), ids@);
        }
        match stored {
            Some(_) => Some(take_instructions(&mut self.instructions, &ids)),
            None => {
                assert(ids@.len() == 0);
                None
            },
        }
    }
}

/// Whether a table of instructions is another with a batch of instructions
/// stored in it: each instruction under an identifier that was free, the first
/// under `first` and the others under the identifiers that follow, and
/// everything else as it was.
#[verifier::opaque]
pub open spec fn batch_stored(
    before: Map<Seq<u8>, Seq<u8>>,
    after: Map<Seq<u8>, Seq<u8>>,
    first: InstructionId,
    instructions: Seq<SignableInstruction>,
) -> bool {
    &&& forall|i: int|
        0 <= i < instructions.len() ==> !before.contains_key(#[trigger] key_after(first, i))
    &&& forall|i: int|
        0 <= i < instructions.len() ==> stored_instruction(after, (first + i) as u32) == Some(
            (#[trigger] instructions[i]).record(),
        )
    &&& forall|key: Seq<u8>|
        (forall|i: int| 0 <= i < instructions.len() ==> key != #[trigger] key_after(first, i))
            ==> {
            &&& #[trigger] after.contains_key(key) == before.contains_key(key)
            &&& before.contains_key(key) ==> after[key] == before[key]
        }
}

/// Whether every identifier at the head of a key of a table lies below
/// `first`.
#[verifier::opaque]
pub open spec fn all_below(table: Map<Seq<u8>, Seq<u8>>, first: u32) -> bool {
    forall|key: Seq<u8>| #[trigger] table.contains_key(key) && key.len() >= 4 ==> leading_id(key)
        < first
}

/// An identifier that lies above all of a table's is free in it.
pub proof fn above_all_is_free(table: Map<Seq<u8>, Seq<u8>>, first: u32, id: u32)
    requires
        all_below(table, first),
        id >= first,
    ensures
        !table.contains_key(id_bytes(id)),
{
    reveal(all_below);
    if table.contains_key(id_bytes(id)) {
        assert(leading_id(id_bytes(id)) == id);
    }
}

/// Putting the bytes of a batch of instructions under consecutive
/// identifiers beyond those in use stores the batch.
#[verifier::rlimit(50)]
pub proof fn batch_is_stored(
    table: Map<Seq<u8>, Seq<u8>>,
    first: InstructionId,
    values: Seq<Seq<u8>>,
    instructions: Seq<SignableInstruction>,
)
    requires
        values.len() == instructions.len(),
        first + values.len() <= u32::MAX,
        forall|j: int|
            0 <= j < values.len() ==> bytes_record(#[trigger] values[j]) == Some(
                instructions[j].record(),
            ),
        all_below(table, first),
    ensures
        batch_stored(table, with_consecutive(table, first, values), first, instructions),
{
    let after = with_consecutive(table, first, values);
    assert forall|i: int| 0 <= i < instructions.len() implies !table.contains_key(
        #[trigger] key_after(first, i),
    ) by {
        above_all_is_free(table, first, (first + i) as u32);
    }
    assert forall|i: int| 0 <= i < instructions.len() implies stored_instruction(
        after,
        (first + i) as u32,
    ) == Some((#[trigger] instructions[i]).record()) by {
        with_consecutive_holds(table, first, values);
        assert(after.contains_key(key_after(first, i)));
        assert(after[key_after(first, i)] == values[i]);
        crate::request_store::record::shape_of_instruction_record(instructions[i]);
    }
    assert forall|key: Seq<u8>|
        (forall|i: int|
            0 <= i < instructions.len() ==> key != #[trigger] key_after(first, i)) implies {
        &&& #[trigger] after.contains_key(key) == table.contains_key(key)
        &&& table.contains_key(key) ==> after[key] == table[key]
    } by {
        with_consecutive_holds(table, first, values);
    }
    reveal(batch_stored);
}

/// What a stored batch says of one of its instructions: its identifier was
/// free, and the instruction now stands under it.
pub proof fn batch_stored_at(
    before: Map<Seq<u8>, Seq<u8>>,
    after: Map<Seq<u8>, Seq<u8>>,
    first: InstructionId,
    instructions: Seq<SignableInstruction>,
    i: int,
)
    requires
        batch_stored(before, after, first, instructions),
        0 <= i < instructions.len(),
    ensures
        !before.contains_key(key_after(first, i)),
        stored_instruction(after, (first + i) as u32) == Some(instructions[i].record()),
{
    reveal(batch_stored);
}

/// What a stored batch says of a key that is none of the batch's: what
/// stood under it still does.
pub proof fn batch_stored_elsewhere(
    before: Map<Seq<u8>, Seq<u8>>,
    after: Map<Seq<u8>, Seq<u8>>,
    first: InstructionId,
    instructions: Seq<SignableInstruction>,
    key: Seq<u8>,
)
    requires
        batch_stored(before, after, first, instructions),
        forall|i: int| 0 <= i < instructions.len() ==> key != #[trigger] key_after(first, i),
    ensures
        after.contains_key(key) == before.contains_key(key),
        before.contains_key(key) ==> after[key] == before[key],
{
    reveal(batch_stored);
    assert(after.contains_key(key) == before.contains_key(key));
    assert(after.dom().contains(key) == before.dom().contains(key));
}

/// Writes each instruction of a batch as bytes and gives each its identifier,
/// from `first` on. There is no result where one of the instructions is too
/// long to be stored.
fn encode_batch(first: InstructionId, instructions: &Vec<SignableInstruction>) -> (encoded: Option<
    (Vec<Vec<u8>>, Vec<InstructionId>),
>)
    requires
        first + instructions.len() <= u32::MAX,
    ensures
        encoded is Some <==> forall|i: int|
            0 <= i < instructions@.len() ==> storable((#[trigger] instructions@[i]).record()),
        match encoded {
            Some((values, ids)) => {
                &&& values@.len() == instructions.len()
                &&& ids@ == consecutive_ids(first, instructions@.len())
                &&& forall|j: int|
                    0 <= j < values@.len() ==> {
                        &&& (#[trigger] values@[j])@.len() <= max_entry_len()
                        &&& bytes_record(values_view(values@)[j]) == Some(
                            instructions@[j].record(),
                        )
                    }
            },
            None => true,
        },
{
    let mut values: Vec<Vec<u8>> = Vec::new();
    let mut ids: Vec<u32> = Vec::new();
    let mut i: usize = 0;
    while i < instructions.len()
        invariant
            i <= instructions.len(),
            first + instructions.len() <= u32::MAX,
            values@.len() == i,
            ids@ == consecutive_ids(first, i as nat),
            forall|j: int|
                0 <= j < i ==> {
                    &&& (#[trigger] values@[j])@.len() <= max_entry_len()
                    &&& bytes_record(values@[j]@) == Some(instructions@[j].record())
                },
            forall|j: int| 0 <= j < i ==> storable((#[trigger] instructions@[j]).record()),
        decreases instructions.len() - i,
    {
        let bytes = instructions[i].to_record().to_bytes();
        if bytes.len() > 0xffff_ffff {
            assert(!storable(instructions@[i as int].record()));
            return None;
        }
        values.push(bytes);
        ids.push(first + i as u32);
        assert(ids@ =~= consecutive_ids(first, (i + 1) as nat));
        i = i + 1;
    }
    Some((values, ids))
}

/// Reads the instructions that stand under the identifiers of a list, and
/// passes over the identifiers under which there is none.
fn read_instructions(table: &StableTable, ids: &Vec<InstructionId>) -> (found: Vec<
    SignableInstruction,
>)
    ensures
        records_of(found@) == present_records(table_entries(*table), ids@),
{
    let mut found: Vec<SignableInstruction> = Vec::new();
    let mut i: usize = 0;
    assert(records_of(found@) =~= present_records(table_entries(*table), ids@.take(0)));
    while i < ids.len()
        invariant
            i <= ids.len(),
            records_of(found@) == present_records(table_entries(*table), ids@.take(i as int)),
        decreases ids.len() - i,
    {
        proof {
            assert(ids@.take(i + 1).drop_last() =~= ids@.take(i as int));
            assert(ids@.take(i + 1).last() == ids@[i as int]);
        }
        let ghost before = records_of(found@);
        match read_instruction(table, ids[i]) {
            Some(instruction) => {
                found.push(instruction);
                assert(records_of(found@) =~= before.push(instruction.record()));
            },
            None => {},
        }
        i = i + 1;
    }
    assert(ids@.take(ids.len() as int) =~= ids@);
    found
}

/// Reads the instruction that stands under an identifier.
fn read_instruction(table: &StableTable, id: InstructionId) -> (found: Option<SignableInstruction>)
    ensures
        match found {
            Some(instruction) => stored_instruction(table_entries(*table), id) == Some(
                instruction.record(),
            ),
            None => stored_instruction(table_entries(*table), id) is None,
        },
{
    match table.get(&id_key(id)) {
        Some(bytes) => match Record::from_bytes(&bytes) {
            Some(record) => SignableInstruction::from_record(&record),
            None => None,
        },
        None => None,
    }
}

/// The instructions of a batch stand under the identifiers they were stored
/// under, in the order of the batch.
pub proof fn batch_is_present(
    table: Map<Seq<u8>, Seq<u8>>,
    first: InstructionId,
    instructions: Seq<SignableInstruction>,
)
    requires
        first + instructions.len() <= u32::MAX,
        forall|i: int|
            0 <= i < instructions.len() ==> stored_instruction(table, (first + i) as u32) == Some(
                (#[trigger] instructions[i]).record(),
            ),
    ensures
        present_records(table, consecutive_ids(first, instructions.len())) == records_of(
            instructions,
        ),
    decreases instructions.len(),
{
    let ids = consecutive_ids(first, instructions.len());
    if instructions.len() == 0 {
        assert(records_of(instructions) =~= Seq::empty());
    } else {
        let rest = instructions.drop_last();
        assert forall|i: int| 0 <= i < rest.len() implies stored_instruction(
            table,
            (first + i) as u32,
        ) == Some((#[trigger] rest[i]).record()) by {
            assert(rest[i] == instructions[i]);
        }
        batch_is_present(table, first, rest);
        assert(ids.drop_last() =~= consecutive_ids(first, rest.len()));
        assert(ids.last() == (first + instructions.len() - 1) as u32);
        assert(stored_instruction(table, ids.last()) == Some(instructions.last().record()));
        assert(records_of(instructions) =~= records_of(rest).push(instructions.last().record()));
    }
}

/// A list of transactions, each by its identifier and the records of its
/// instructions.
pub open spec fn listing_view(listing: Seq<(TransactionId, Transaction)>) -> Seq<
    (TransactionId, Seq<(Seq<u64>, Seq<Seq<char>>)>),
> {
    listing.map_values(|entry: (TransactionId, Transaction)| (entry.0, records_of(entry.1.0@)))
}

/// The transactions of a list that are stored, each with the instructions
/// that stand under its identifiers.
pub open spec fn listed_records(
    transactions: Map<Seq<u8>, Seq<u8>>,
    instructions: Map<Seq<u8>, Seq<u8>>,
    owned: Seq<TransactionId>,
) -> Seq<(TransactionId, Seq<(Seq<u64>, Seq<Seq<char>>)>)>
    decreases owned.len(),
{
    if owned.len() == 0 {
        Seq::empty()
    } else {
        let rest = listed_records(transactions, instructions, owned.drop_last());
        match stored_ids(transactions, id_bytes(owned.last())) {
            Some(ids) => rest.push((owned.last(), present_records(instructions, ids))),
            None => rest,
        }
    }
}

/// A table without what stood under the identifiers of a list.
pub open spec fn without_keys(table: Map<Seq<u8>, Seq<u8>>, ids: Seq<InstructionId>) -> Map<
    Seq<u8>,
    Seq<u8>,
>
    decreases ids.len(),
{
    if ids.len() == 0 {
        table
    } else {
        without_keys(table, ids.drop_last()).remove(id_bytes(ids.last()))
    }
}

/// The instructions that leave a table when what stands under the
/// identifiers of a list is removed, one identifier after the other.
pub open spec fn removed_records(table: Map<Seq<u8>, Seq<u8>>, ids: Seq<InstructionId>) -> Seq<
    (Seq<u64>, Seq<Seq<char>>),
>
    decreases ids.len(),
{
    if ids.len() == 0 {
        Seq::empty()
    } else {
        let rest = removed_records(table, ids.drop_last());
        match stored_instruction(without_keys(table, ids.drop_last()), ids.last()) {
            Some(record) => rest.push(record),
            None => rest,
        }
    }
}

/// Nothing stands under an identifier whose key was removed.
pub proof fn without_keys_lack(table: Map<Seq<u8>, Seq<u8>>, ids: Seq<InstructionId>)
    ensures
        forall|i: int|
            0 <= i < ids.len() ==> !without_keys(table, ids).contains_key(
                id_bytes(#[trigger] ids[i]),
            ),
    decreases ids.len(),
{
    if ids.len() > 0 {
        without_keys_lack(table, ids.drop_last());
        assert forall|i: int| 0 <= i < ids.len() implies !without_keys(table, ids).contains_key(
            id_bytes(#[trigger] ids[i]),
        ) by {
            if i < ids.len() - 1 {
                assert(ids.drop_last()[i] == ids[i]);
            }
        }
    }
}

/// Removes what stands under the identifiers of a list, one after the other,
/// and collects the instructions among it.
fn take_instructions(table: &mut StableTable, ids: &Vec<InstructionId>) -> (removed: Vec<
    SignableInstruction,
>)
    ensures
        table_entries(*final(table)) == without_keys(table_entries(*old(table)), ids@),
        records_of(removed@) == removed_records(table_entries(*old(table)), ids@),
{
    let mut removed: Vec<SignableInstruction> = Vec::new();
    let mut i: usize = 0;
    assert(records_of(removed@) =~= removed_records(table_entries(*old(table)), ids@.take(0)));
    while i < ids.len()
        invariant
            i <= ids.len(),
            table_entries(*table) == without_keys(table_entries(*old(table)), ids@.take(i as int)),
            records_of(removed@) == removed_records(
                table_entries(*old(table)),
                ids@.take(i as int),
            ),
        decreases ids.len() - i,
    {
        proof {
            assert(ids@.take(i + 1).drop_last() =~= ids@.take(i as int));
            assert(ids@.take(i + 1).last() == ids@[i as int]);
        }
        let ghost before = records_of(removed@);
        let found = read_instruction(table, ids[i]);
        let _ = table.remove(&id_key(ids[i]));
        match found {
            Some(instruction) => {
                removed.push(instruction);
                assert(records_of(removed@) =~= before.push(instruction.record()));
            },
            None => {},
        }
        i = i + 1;
    }
    assert(ids@.take(ids.len() as int) =~= ids@);
    removed
}

} // verus!