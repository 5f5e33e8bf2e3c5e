use vstd::prelude::*;

verus! {

pub const EXCHANGE_TABLE_MEMORY_ID: u8 = 1;

pub const USER_KEYS_TABLE_MEMORY_ID: u8 = 2;

pub const API_KEYS_TABLE_MEMORY_ID: u8 = 3;

pub const INSTRUCTIONS_TABLE_MEMORY_ID: u8 = 4;

pub const TRANSACTIONS_TABLE_MEMORY_ID: u8 = 5;

pub const USER_TRANSACTIONS_TABLE_MEMORY_ID: u8 = 6;

pub const EXCHANGE_INSTRUMENTS_TABLE_MEMORY_ID: u8 = 7;

pub const VOLUMES_TABLE_MEMORY_ID: u8 = 8;

} // verus!
