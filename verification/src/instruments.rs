use vstd::prelude::*;
use crate::exchange::Exchange;
use crate::pair::Pair;
use crate::remote_exchanges::okx::api::InstrumentType;
use crate::remote_exchanges::response::Instrument;
use crate::request_store::record::read_instrument_type;
use crate::storage::{bytes_record, storable, table_entries, texts_view, Record, StableTable};

verus! {

/// The key under which the instruments of one kind at one exchange are
/// stored: the exchange's byte, then the kind's.
pub open spec fn instruments_key(exchange: Exchange, instrument_type: InstrumentType) -> Seq<u8> {
    seq![exchange.code(), instrument_type.code()]
}

/// What a list of instruments is stored as: the kind of each as the
/// numbers; the base and the quote of each, one pair after the other, as the
/// texts.
pub open spec fn instruments_record(instruments: Seq<Instrument>) -> (Seq<u64>, Seq<Seq<char>>) {
    (
        Seq::new(instruments.len(), |i: int| instruments[i].instrument_type.code() as u64),
        Seq::new(
            2 * instruments.len(),
            |j: int|
                if j % 2 == 0 {
                    instruments[j / 2].instrument_id.base@
                } else {
                    instruments[j / 2].instrument_id.quote@
                },
        ),
    )
}

/// Whether a record is that of a list of instruments.
pub open spec fn is_instruments_record(record: (Seq<u64>, Seq<Seq<char>>)) -> bool {
    &&& record.1.len() == 2 * record.0.len()
    &&& forall|i: int| 0 <= i < record.0.len() ==> #[trigger] record.0[i] <= 4
}

/// The list of instruments that a table holds for one kind at one exchange,
/// as the record it is stored as.
pub open spec fn stored_instruments(
    table: Map<Seq<u8>, Seq<u8>>,
    exchange: Exchange,
    instrument_type: InstrumentType,
) -> Option<(Seq<u64>, Seq<Seq<char>>)> {
    let key = instruments_key(exchange, instrument_type);
    if table.contains_key(key) {
        match bytes_record(table[key]) {
            Some(record) => if is_instruments_record(record) {
                Some(record)
            } else {
                None
            },
            None => None,
        }
    } else {
        None
    }
}

/// Writes the key of the instruments of one kind at one exchange.
fn make_key(exchange: Exchange, instrument_type: InstrumentType) -> (key: Vec<u8>)
    ensures
        key@ == instruments_key(exchange, instrument_type),
{
    let mut key: Vec<u8> = Vec::new();
    key.push(exchange.to_u8());
    key.push(instrument_type.to_code());
    assert(key@ =~= instruments_key(exchange, instrument_type));
    key
}

/// Writes a list of instruments as a record.
pub fn to_record(instruments: &Vec<Instrument>) -> (record: Record)
    ensures
        record@ == instruments_record(instruments@),
        is_instruments_record(record@),
{
    let mut record = Record::new();
    let mut i: usize = 0;
    while i < instruments.len()
        invariant
            i <= instruments.len(),
            record@ == instruments_record(instruments@.take(i as int)),
        decreases instruments.len() - i,
    {
        let ghost before = instruments_record(instruments@.take(i as int));
        let ghost after = instruments_record(instruments@.take(i + 1));
        record.push_number(instruments[i].instrument_type.to_code() as u64);
        record.push_text(instruments[i].instrument_id.base.as_str());
        record.push_text(instruments[i].instrument_id.quote.as_str());
        assert(record@.0 =~= after.0);
        assert(record@.1 =~= after.1) by {
            assert forall|j: int| 0 <= j < 2 * (i + 1) implies record@.1[j] == after.1[j] by {
                if j < 2 * i {
                    assert(record@.1[j] == before.1[j]);
                    assert(j / 2 < i);
                }
            }
        }
        i = i + 1;
    }
    assert(instruments@.take(instruments.len() as int) =~= instruments@);
    record
}

/// Reads a list of instruments from a record. A record that has the shape of
/// such a list's gives the list that is stored as that very record; any
/// other record gives nothing.
pub fn from_record(record: &Record) -> (read: Option<Vec<Instrument>>)
    ensures
        read is Some <==> is_instruments_record(record@),
        read is Some ==> instruments_record(read->0@) == record@,
{
    let count = record.numbers.len();
    if record.texts.len() / 2 != count || record.texts.len() % 2 != 0 {
        return None;
    }
    let mut instruments: Vec<Instrument> = Vec::new();
    let mut i: usize = 0;
    while i < count
        invariant
            i <= count,
            count == record.numbers.len(),
            record.texts.len() == 2 * count,
            instruments@.len() == i,
            forall|j: int| 0 <= j < i ==> #[trigger] record@.0[j] <= 4,
            forall|j: int|
                0 <= j < i ==> {
                    &&& (#[trigger] instruments@[j]).instrument_type.code() == record@.0[j]
                    &&& instruments@[j].instrument_id.base@ == record@.1[2 * j]
                    &&& instruments@[j].instrument_id.quote@ == record@.1[2 * j + 1]
                },
        decreases count - i,
    {
        let instrument_type = match read_instrument_type(record.numbers[i]) {
            Some(kind) => kind,
            None => {
                return None;
            },
        };
        assert(texts_view(record.texts@)[2 * i] == record.texts@[2 * i]@);
        assert(texts_view(record.texts@)[2 * i + 1] == record.texts@[2 * i + 1]@);
        instruments.push(
            Instrument {
                instrument_id: Pair {
                    base: record.texts[2 * i].clone(),
                    quote: record.texts[2 * i + 1].clone(),
                },
                instrument_type,
            },
        );
        i = i + 1;
    }
    assert(instruments_record(instruments@).0 =~= record@.0);
    assert(instruments_record(instruments@).1 =~= record@.1) by {
        assert forall|j: int| 0 <= j < 2 * count implies instruments_record(instruments@).1[j]
            == record@.1[j] by {
            let k = j / 2;
            assert(0 <= k < count);
            assert(instruments@[k].instrument_id.base@ == record@.1[2 * k]);
        }
    }
    Some(instruments)
}

/// The instruments that are stored for one kind at one exchange.
pub fn get_instruments(
    table: &StableTable,
    exchange: Exchange,
    instrument_type: InstrumentType,
) -> (found: Option<Vec<Instrument>>)
    ensures
        match found {
            Some(instruments) => stored_instruments(
                table_entries(*table),
                exchange,
                instrument_type,
            ) == Some(instruments_record(instruments@)),
            None => stored_instruments(table_entries(*table), exchange, instrument_type) is None,
        },
{
    match table.read(&make_key(exchange, instrument_type)) {
        Some(record) => from_record(&record),
        None => None,
    }
}

/// Stores the instruments of one kind at one exchange, in place of those
/// that were stored before. A list whose record is too long is not stored.
pub fn save_instruments(
    table: &mut StableTable,
    exchange: Exchange,
    instrument_type: InstrumentType,
    instruments: Vec<Instrument>,
) -> (saved: bool)
    ensures
        saved <==> storable(instruments_record(instruments@)),
        saved ==> {
            &&& stored_instruments(table_entries(*final(table)), exchange, instrument_type)
                == Some(instruments_record(instruments@))
            &&& table_entries(*final(table)).remove(instruments_key(exchange, instrument_type))
                == table_entries(*old(table)).remove(instruments_key(exchange, instrument_type))
        },
        !saved ==> table_entries(*final(table)) == table_entries(*old(table)),
{
    let saved = table.write(make_key(exchange, instrument_type), &to_record(&instruments));
    assert(saved ==> table_entries(*table).remove(instruments_key(exchange, instrument_type))
        =~= table_entries(*old(table)).remove(instruments_key(exchange, instrument_type)));
    saved
}

/// Whether pairs are those of the instruments that a table holds for one
/// kind at one exchange, in the order in which they are stored; none where
/// nothing is stored.
pub open spec fn are_stored_pairs(
    table: Map<Seq<u8>, Seq<u8>>,
    exchange: Exchange,
    instrument_type: InstrumentType,
    pairs: Seq<Pair>,
) -> bool {
    match stored_instruments(table, exchange, instrument_type) {
        Some(record) => {
            &&& pairs.len() == record.0.len()
            &&& forall|i: int|
                0 <= i < pairs.len() ==> {
                    &&& (#[trigger] pairs[i]).base@ == record.1[2 * i]
                    &&& pairs[i].quote@ == record.1[2 * i + 1]
                }
        },
        None => pairs.len() == 0,
    }
}

/// The pairs of the instruments that are stored for one kind at one
/// exchange; none where nothing is stored.
pub fn stored_pairs(table: &StableTable, exchange: Exchange, instrument_type: InstrumentType) -> (pairs:
    Vec<Pair>)
    ensures
        are_stored_pairs(table_entries(*table), exchange, instrument_type, pairs@),
{
    let instruments = match get_instruments(table, exchange, instrument_type) {
        Some(all) => all,
        None => {
            return Vec::new();
        },
    };
    let mut pairs: Vec<Pair> = Vec::new();
    let mut i: usize = 0;
    while i < instruments.len()
        invariant
            i <= instruments.len(),
            pairs@.len() == i,
            forall|j: int| 0 <= j < i ==> #[trigger] pairs@[j] == instruments@[j].instrument_id,
        decreases instruments.len() - i,
    {
        pairs.push(instruments[i].instrument_id.clone());
        i = i + 1;
    }
    pairs
}

} // verus!
