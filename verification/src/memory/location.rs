use vstd::prelude::*;
use crate::memory::constants;

verus! {

/// The tables the library keeps, each in a region of durable memory of its
/// own.
#[derive(Clone, Copy, Debug, PartialEq, Eq, Structural)]
pub enum MemoryLocation {
    Exchanges,
    UserKeys,
    ApiKeys,
    Instructions,
    Transactions,
    UserTransactions,
    ExchangeInstruments,
    Volumes,
}

impl MemoryLocation {
    /// The number of a table's region.
    pub open spec fn region(self) -> u8 {
        match self {
            MemoryLocation::Exchanges => 1,
            MemoryLocation::UserKeys => 2,
            MemoryLocation::ApiKeys => 3,
            MemoryLocation::Instructions => 4,
            MemoryLocation::Transactions => 5,
            MemoryLocation::UserTransactions => 6,
            MemoryLocation::ExchangeInstruments => 7,
            MemoryLocation::Volumes => 8,
        }
    }

    /// The number of a table's region. No two tables share one.
    pub fn memory_id(self) -> (id: u8)
        ensures
            id == self.region(),
            1 <= id <= 8,
    {
        match self {
            MemoryLocation::Exchanges => constants::EXCHANGE_TABLE_MEMORY_ID,
            MemoryLocation::UserKeys => constants::USER_KEYS_TABLE_MEMORY_ID,
            MemoryLocation::ApiKeys => constants::API_KEYS_TABLE_MEMORY_ID,
            MemoryLocation::Instructions => constants::INSTRUCTIONS_TABLE_MEMORY_ID,
            MemoryLocation::Transactions => constants::TRANSACTIONS_TABLE_MEMORY_ID,
            MemoryLocation::UserTransactions => constants::USER_TRANSACTIONS_TABLE_MEMORY_ID,
            MemoryLocation::ExchangeInstruments => constants::EXCHANGE_INSTRUMENTS_TABLE_MEMORY_ID,
            MemoryLocation::Volumes => constants::VOLUMES_TABLE_MEMORY_ID,
        }
    }
}

/// Different tables lie in different regions.
pub proof fn regions_are_distinct(a: MemoryLocation, b: MemoryLocation)
    requires
        a.region() == b.region(),
    ensures
        a == b,
{
}

} // verus!
