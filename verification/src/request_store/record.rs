use vstd::prelude::*;
use crate::exchange::Exchange;
use crate::pair::Pair;
use crate::remote_exchanges::okx::api::InstrumentType;
use crate::remote_exchanges::request::{
    GeneralBalanceRequest, GeneralInstrumentsRequest, GeneralOrdersListRequest,
    GeneralPostOrderRequest, OrderSide, OrderType, PositionSide, TradeMode,
};
use crate::request_store::request::Request;
use crate::request_store::{Instruction, SignableInstruction};
use crate::storage::{texts_view, Record};

verus! {

/// The number a yes or a no is stored as.
pub open spec fn flag(yes: bool) -> u64 {
    if yes {
        1
    } else {
        0
    }
}

/// The number a position side that may be absent is stored as.
pub open spec fn position_code(side: Option<PositionSide>) -> u64 {
    match side {
        None => 0,
        Some(PositionSide::Short) => 1,
        Some(PositionSide::Long) => 2,
    }
}

/// The text that is stored for a text that may be absent: the text itself,
/// or none.
pub open spec fn stored_optional(text: Option<String>) -> Seq<Seq<char>> {
    match text {
        Some(t) => seq![t@],
        None => Seq::empty(),
    }
}

/// Reads a yes or a no from the number it is stored as.
pub fn read_flag(number: u64) -> (yes: Option<bool>)
    ensures
        match yes {
            Some(v) => flag(v) == number,
            None => number > 1,
        },
{
    if number == 0 {
        Some(false)
    } else if number == 1 {
        Some(true)
    } else {
        None
    }
}

/// Reads a kind of instrument from the number it is stored as.
pub fn read_instrument_type(number: u64) -> (kind: Option<InstrumentType>)
    ensures
        match kind {
            Some(k) => k.code() == number,
            None => number > 4,
        },
{
    if number > 4 {
        None
    } else {
        InstrumentType::from_code(number as u8)
    }
}

/// Reads the pair whose two symbols stand at `at` and after it.
fn read_pair(texts: &Vec<String>, at: usize) -> (pair: Pair)
    requires
        at + 1 < texts.len(),
    ensures
        pair.base == texts@[at as int],
        pair.quote == texts@[at + 1],
{
    Pair { base: texts[at].clone(), quote: texts[at + 1].clone() }
}

/// Copies the texts from `at` on.
fn read_list(texts: &Vec<String>, at: usize) -> (list: Vec<String>)
    requires
        at <= texts.len(),
    ensures
        list@ == texts@.subrange(at as int, texts@.len() as int),
{
    let mut list: Vec<String> = Vec::new();
    let mut i: usize = at;
    while i < texts.len()
        invariant
            at <= i <= texts.len(),
            list@ == texts@.subrange(at as int, i as int),
        decreases texts.len() - i,
    {
        list.push(texts[i].clone());
        assert(list@ =~= texts@.subrange(at as int, i + 1));
        i = i + 1;
    }
    list
}

impl GeneralInstrumentsRequest {
    pub open spec fn numbers(self) -> Seq<u64> {
        seq![self.instrument_type.code() as u64, flag(self.instrument_id is Some)]
    }

    pub open spec fn texts(self) -> Seq<Seq<char>> {
        match self.instrument_id {
            Some(pair) => seq![pair.base@, pair.quote@],
            None => Seq::empty(),
        }
    }

    /// Whether numbers and texts are those of such a request.
    pub open spec fn shaped(numbers: Seq<u64>, texts: Seq<Seq<char>>) -> bool {
        &&& numbers.len() == 2
        &&& numbers[0] <= 4
        &&& numbers[1] <= 1
        &&& texts.len() == 2 * numbers[1]
    }

    fn write(&self, record: &mut Record)
        ensures
            final(record)@ == (old(record)@.0 + self.numbers(), old(record)@.1 + self.texts()),
    {
        record.push_number(self.instrument_type.to_code() as u64);
        match &self.instrument_id {
            Some(pair) => {
                record.push_number(1);
                record.push_text(pair.base.as_str());
                record.push_text(pair.quote.as_str());
            },
            None => {
                record.push_number(0);
            },
        }
        assert(record@.0 =~= old(record)@.0 + self.numbers());
        assert(record@.1 =~= old(record)@.1 + self.texts());
    }

    fn read(n: &Vec<u64>, t: &Vec<String>) -> (read: Option<GeneralInstrumentsRequest>)
        requires
            n.len() >= 3,
            t.len() >= 2,
        ensures
            match read {
                Some(r) => {
                    &&& r.numbers() == n@.skip(3)
                    &&& r.texts() == texts_view(t@).skip(2)
                },
                None => !GeneralInstrumentsRequest::shaped(n@.skip(3), texts_view(t@).skip(2)),
            },
    {
        if n.len() != 5 {
            return None;
        }
        let instrument_type = match read_instrument_type(n[3]) {
            Some(k) => k,
            None => {
                return None;
            },
        };
        let named = match read_flag(n[4]) {
            Some(f) => f,
            None => {
                return None;
            },
        };
        if named {
            if t.len() != 4 {
                return None;
            }
            let r = GeneralInstrumentsRequest {
                instrument_type,
                instrument_id: Some(read_pair(t, 2)),
            };
            assert(r.numbers() =~= n@.skip(3));
            assert(r.texts() =~= texts_view(t@).skip(2));
            Some(r)
        } else {
            if t.len() != 2 {
                return None;
            }
            let r = GeneralInstrumentsRequest { instrument_type, instrument_id: None };
            assert(r.numbers() =~= n@.skip(3));
            assert(r.texts() =~= texts_view(t@).skip(2));
            Some(r)
        }
    }
}

impl GeneralBalanceRequest {
    pub open spec fn numbers(self) -> Seq<u64> {
        seq![flag(self.currency is Some)]
    }

    pub open spec fn texts(self) -> Seq<Seq<char>> {
        match self.currency {
            Some(list) => texts_view(list@),
            None => Seq::empty(),
        }
    }

    /// Whether numbers and texts are those of such a request.
    pub open spec fn shaped(numbers: Seq<u64>, texts: Seq<Seq<char>>) -> bool {
        &&& numbers.len() == 1
        &&& numbers[0] <= 1
        &&& (numbers[0] == 0 ==> texts.len() == 0)
    }

    fn write(&self, record: &mut Record)
        ensures
            final(record)@ == (old(record)@.0 + self.numbers(), old(record)@.1 + self.texts()),
    {
        match &self.currency {
            Some(list) => {
                record.push_number(1);
                let ghost numbers = record@.0;
                let mut i: usize = 0;
                while i < list.len()
                    invariant
                        i <= list.len(),
                        record@.0 == numbers,
                        record@.1 == old(record)@.1 + texts_view(list@.take(i as int)),
                    decreases list.len() - i,
                {
                    record.push_text(list[i].as_str());
                    assert(texts_view(list@.take(i + 1)) =~= texts_view(
                        list@.take(i as int),
                    ).push(list@[i as int]@));
                    assert(record@.1 =~= old(record)@.1 + texts_view(list@.take(i + 1)));
                    i = i + 1;
                }
                assert(list@.take(list.len() as int) =~= list@);
            },
            None => {
                record.push_number(0);
            },
        }
        assert(record@.0 =~= old(record)@.0 + self.numbers());
        assert(record@.1 =~= old(record)@.1 + self.texts());
    }

    fn read(n: &Vec<u64>, t: &Vec<String>) -> (read: Option<GeneralBalanceRequest>)
        requires
            n.len() >= 3,
            t.len() >= 2,
        ensures
            match read {
                Some(r) => {
                    &&& r.numbers() == n@.skip(3)
                    &&& r.texts() == texts_view(t@).skip(2)
                },
                None => !GeneralBalanceRequest::shaped(n@.skip(3), texts_view(t@).skip(2)),
            },
    {
        if n.len() != 4 {
            return None;
        }
        let listed = match read_flag(n[3]) {
            Some(f) => f,
            None => {
                return None;
            },
        };
        if listed {
            let list = read_list(t, 2);
            let r = GeneralBalanceRequest { currency: Some(list) };
            assert(r.numbers() =~= n@.skip(3));
            assert(r.texts() =~= texts_view(t@).skip(2));
            Some(r)
        } else {
            if t.len() != 2 {
                return None;
            }
            let r = GeneralBalanceRequest { currency: None };
            assert(r.numbers() =~= n@.skip(3));
            assert(r.texts() =~= texts_view(t@).skip(2));
            Some(r)
        }
    }
}

impl GeneralPostOrderRequest {
    pub open spec fn numbers(self) -> Seq<u64> {
        seq![
            self.trade_mode.code(),
            self.side.code(),
            self.order_type.code(),
            position_code(self.position_side),
            flag(self.margin_currency is Some),
            flag(self.order_price is Some),
        ]
    }

    pub open spec fn texts(self) -> Seq<Seq<char>> {
        seq![self.instrument_id.base@, self.instrument_id.quote@, self.size@] + stored_optional(
            self.margin_currency,
        ) + stored_optional(self.order_price)
    }

    /// Whether numbers and texts are those of such a request.
    pub open spec fn shaped(numbers: Seq<u64>, texts: Seq<Seq<char>>) -> bool {
        &&& numbers.len() == 6
        &&& numbers[0] <= 3
        &&& numbers[1] <= 1
        &&& numbers[2] <= 4
        &&& numbers[3] <= 2
        &&& numbers[4] <= 1
        &&& numbers[5] <= 1
        &&& texts.len() == 3 + numbers[4] + numbers[5]
    }

    fn write(&self, record: &mut Record)
        ensures
            final(record)@ == (old(record)@.0 + self.numbers(), old(record)@.1 + self.texts()),
    {
        record.push_number(self.trade_mode.to_code());
        record.push_number(self.side.to_code());
        record.push_number(self.order_type.to_code());
        record.push_number(
            match self.position_side {
                None => 0,
                Some(PositionSide::Short) => 1,
                Some(PositionSide::Long) => 2,
            },
        );
        record.push_number(if self.margin_currency.is_some() { 1 } else { 0 });
        record.push_number(if self.order_price.is_some() { 1 } else { 0 });
        record.push_text(self.instrument_id.base.as_str());
        record.push_text(self.instrument_id.quote.as_str());
        record.push_text(self.size.as_str());
        match &self.margin_currency {
            Some(t) => record.push_text(t.as_str()),
            None => {},
        }
        match &self.order_price {
            Some(t) => record.push_text(t.as_str()),
            None => {},
        }
        assert(record@.0 =~= old(record)@.0 + self.numbers());
        assert(record@.1 =~= old(record)@.1 + self.texts());
    }

    fn read(n: &Vec<u64>, t: &Vec<String>) -> (read: Option<GeneralPostOrderRequest>)
        requires
            n.len() >= 3,
            t.len() >= 2,
        ensures
            match read {
                Some(r) => {
                    &&& r.numbers() == n@.skip(3)
                    &&& r.texts() == texts_view(t@).skip(2)
                },
                None => !GeneralPostOrderRequest::shaped(n@.skip(3), texts_view(t@).skip(2)),
            },
    {
        if n.len() != 9 || t.len() < 5 || t.len() > 7 {
            return None;
        }
        let trade_mode = match TradeMode::from_code(n[3]) {
            Some(v) => v,
            None => {
                return None;
            },
        };
        let side = match OrderSide::from_code(n[4]) {
            Some(v) => v,
            None => {
                return None;
            },
        };
        let order_type = match OrderType::from_code(n[5]) {
            Some(v) => v,
            None => {
                return None;
            },
        };
        let position_side = if n[6] == 0 {
            None
        } else if n[6] == 1 {
            Some(PositionSide::Short)
        } else if n[6] == 2 {
            Some(PositionSide::Long)
        } else {
            return None;
        };
        let margined = match read_flag(n[7]) {
            Some(f) => f,
            None => {
                return None;
            },
        };
        let priced = match read_flag(n[8]) {
            Some(f) => f,
            None => {
                return None;
            },
        };
        let expected: usize = 5 + (if margined { 1usize } else { 0usize }) + (if priced {
            1usize
        } else {
            0usize
        });
        if t.len() != expected {
            return None;
        }
        let margin_currency = if margined {
            Some(t[5].clone())
        } else {
            None
        };
        let order_price = if priced {
            Some(t[expected - 1].clone())
        } else {
            None
        };
        let r = GeneralPostOrderRequest {
            instrument_id: read_pair(t, 2),
            trade_mode,
            side,
            margin_currency,
            position_side,
            order_type,
            size: t[4].clone(),
            order_price,
        };
        assert(r.numbers() =~= n@.skip(3));
        assert(r.texts() =~= texts_view(t@).skip(2));
        Some(r)
    }
}

impl GeneralOrdersListRequest {
    pub open spec fn numbers(self) -> Seq<u64> {
        seq![self.instrument_type.code() as u64, flag(self.pending)]
    }

    pub open spec fn texts(self) -> Seq<Seq<char>> {
        seq![self.instrument_id.base@, self.instrument_id.quote@]
    }

    /// Whether numbers and texts are those of such a request.
    pub open spec fn shaped(numbers: Seq<u64>, texts: Seq<Seq<char>>) -> bool {
        &&& numbers.len() == 2
        &&& numbers[0] <= 4
        &&& numbers[1] <= 1
        &&& texts.len() == 2
    }

    fn write(&self, record: &mut Record)
        ensures
            final(record)@ == (old(record)@.0 + self.numbers(), old(record)@.1 + self.texts()),
    {
        record.push_number(self.instrument_type.to_code() as u64);
        record.push_number(if self.pending { 1 } else { 0 });
        record.push_text(self.instrument_id.base.as_str());
        record.push_text(self.instrument_id.quote.as_str());
        assert(record@.0 =~= old(record)@.0 + self.numbers());
        assert(record@.1 =~= old(record)@.1 + self.texts());
    }

    fn read(n: &Vec<u64>, t: &Vec<String>) -> (read: Option<GeneralOrdersListRequest>)
        requires
            n.len() >= 3,
            t.len() >= 2,
        ensures
            match read {
                Some(r) => {
                    &&& r.numbers() == n@.skip(3)
                    &&& r.texts() == texts_view(t@).skip(2)
                },
                None => !GeneralOrdersListRequest::shaped(n@.skip(3), texts_view(t@).skip(2)),
            },
    {
        if n.len() != 5 || t.len() != 4 {
            return None;
        }
        let instrument_type = match read_instrument_type(n[3]) {
            Some(k) => k,
            None => {
                return None;
            },
        };
        let pending = match read_flag(n[4]) {
            Some(f) => f,
            None => {
                return None;
            },
        };
        let r = GeneralOrdersListRequest {
            instrument_type,
            instrument_id: read_pair(t, 2),
            pending,
        };
        assert(r.numbers() =~= n@.skip(3));
        assert(r.texts() =~= texts_view(t@).skip(2));
        Some(r)
    }
}

impl Request {
    /// The number that tells the kinds of request apart.
    pub open spec fn kind(self) -> u64 {
        match self {
            Request::Empty => 0,
            Request::Instruments(_) => 1,
            Request::Balances(_) => 2,
            Request::PostOrder(_) => 3,
            Request::OrdersList(_) => 4,
        }
    }

    /// The numbers a request is stored as.
    pub open spec fn numbers(self) -> Seq<u64> {
        match self {
            Request::Empty => Seq::empty(),
            Request::Instruments(r) => r.numbers(),
            Request::Balances(r) => r.numbers(),
            Request::PostOrder(r) => r.numbers(),
            Request::OrdersList(r) => r.numbers(),
        }
    }

    /// The texts a request is stored as.
    pub open spec fn texts(self) -> Seq<Seq<char>> {
        match self {
            Request::Empty => Seq::empty(),
            Request::Instruments(r) => r.texts(),
            Request::Balances(r) => r.texts(),
            Request::PostOrder(r) => r.texts(),
            Request::OrdersList(r) => r.texts(),
        }
    }

    /// Whether numbers and texts are those of a request of the given kind.
    pub open spec fn shaped(kind: u64, numbers: Seq<u64>, texts: Seq<Seq<char>>) -> bool {
        if kind == 0 {
            numbers.len() == 0 && texts.len() == 0
        } else if kind == 1 {
            GeneralInstrumentsRequest::shaped(numbers, texts)
        } else if kind == 2 {
            GeneralBalanceRequest::shaped(numbers, texts)
        } else if kind == 3 {
            GeneralPostOrderRequest::shaped(numbers, texts)
        } else if kind == 4 {
            GeneralOrdersListRequest::shaped(numbers, texts)
        } else {
            false
        }
    }

    fn write(&self, record: &mut Record)
        ensures
            final(record)@ == (
                old(record)@.0 + seq![self.kind()] + self.numbers(),
                old(record)@.1 + self.texts(),
            ),
    {
        match self {
            Request::Empty => {
                record.push_number(0);
                assert(record@.0 =~= old(record)@.0 + seq![self.kind()] + self.numbers());
                assert(record@.1 =~= old(record)@.1 + self.texts());
            },
            Request::Instruments(r) => {
                record.push_number(1);
                r.write(record);
                assert(record@.0 =~= old(record)@.0 + seq![self.kind()] + self.numbers());
            },
            Request::Balances(r) => {
                record.push_number(2);
                r.write(record);
                assert(record@.0 =~= old(record)@.0 + seq![self.kind()] + self.numbers());
            },
            Request::PostOrder(r) => {
                record.push_number(3);
                r.write(record);
                assert(record@.0 =~= old(record)@.0 + seq![self.kind()] + self.numbers());
            },
            Request::OrdersList(r) => {
                record.push_number(4);
                r.write(record);
                assert(record@.0 =~= old(record)@.0 + seq![self.kind()] + self.numbers());
            },
        }
    }

    fn read(n: &Vec<u64>, t: &Vec<String>) -> (read: Option<Request>)
        requires
            n.len() >= 3,
            t.len() >= 2,
        ensures
            match read {
                Some(r) => {
                    &&& r.kind() == n@[2]
                    &&& r.numbers() == n@.skip(3)
                    &&& r.texts() == texts_view(t@).skip(2)
                },
                None => !Request::shaped(n@[2], n@.skip(3), texts_view(t@).skip(2)),
            },
    {
        let kind = n[2];
        if kind == 0 {
            if n.len() != 3 || t.len() != 2 {
                return None;
            }
            assert(Request::Empty.numbers() =~= n@.skip(3));
            assert(Request::Empty.texts() =~= texts_view(t@).skip(2));
            Some(Request::Empty)
        } else if kind == 1 {
            match GeneralInstrumentsRequest::read(n, t) {
                Some(r) => Some(Request::Instruments(r)),
                None => None,
            }
        } else if kind == 2 {
            match GeneralBalanceRequest::read(n, t) {
                Some(r) => Some(Request::Balances(r)),
                None => None,
            }
        } else if kind == 3 {
            match GeneralPostOrderRequest::read(n, t) {
                Some(r) => Some(Request::PostOrder(r)),
                None => None,
            }
        } else if kind == 4 {
            match GeneralOrdersListRequest::read(n, t) {
                Some(r) => Some(Request::OrdersList(r)),
                None => None,
            }
        } else {
            None
        }
    }
}

/// Whether a record is that of an instruction: an exchange, a mark and a
/// kind of request, an api key and a text to sign, and then what a request
/// of that kind is stored as.
pub open spec fn is_instruction_record(record: (Seq<u64>, Seq<Seq<char>>)) -> bool {
    &&& record.0.len() >= 3
    &&& record.1.len() >= 2
    &&& record.0[0] <= 1
    &&& record.0[1] <= 1
    &&& Request::shaped(record.0[2], record.0.skip(3), record.1.skip(2))
}

impl SignableInstruction {
    /// What an instruction is stored as: the exchange, the mark and the kind
    /// of request, then the numbers of the request; the api key and the text
    /// to sign, then the texts of the request.
    pub open spec fn record(self) -> (Seq<u64>, Seq<Seq<char>>) {
        (
            seq![
                self.instruction.exchange.code() as u64,
                flag(self.executed),
                self.instruction.request.kind(),
            ] + self.instruction.request.numbers(),
            seq![self.instruction.api_key@, self.signature@] + self.instruction.request.texts(),
        )
    }

    /// Writes an instruction as a record.
    pub fn to_record(&self) -> (record: Record)
        ensures
            record@ == self.record(),
    {
        let mut record = Record::new();
        record.push_number(self.instruction.exchange.to_u8() as u64);
        record.push_number(if self.executed { 1 } else { 0 });
        record.push_text(self.instruction.api_key.as_str());
        record.push_text(self.signature.as_str());
        self.instruction.request.write(&mut record);
        assert(record@.0 =~= self.record().0);
        assert(record@.1 =~= self.record().1);
        record
    }

    /// Reads an instruction from a record. A record that has the shape of an
    /// instruction's gives the instruction that is stored as that very
    /// record; any other record gives nothing.
    pub fn from_record(record: &Record) -> (read: Option<SignableInstruction>)
        ensures
            read is Some <==> is_instruction_record(record@),
            read is Some ==> read->0.record() == record@,
    {
        let n = &record.numbers;
        let t = &record.texts;
        if n.len() < 3 || t.len() < 2 {
            return None;
        }
        if n[0] > 1 {
            return None;
        }
        let exchange = match Exchange::from_u8(n[0] as u8) {
            Some(e) => e,
            None => {
                return None;
            },
        };
        let executed = match read_flag(n[1]) {
            Some(e) => e,
            None => {
                return None;
            },
        };
        let request = match Request::read(n, t) {
            Some(r) => r,
            None => {
                return None;
            },
        };
        let read = SignableInstruction {
            instruction: Instruction { exchange, api_key: t[0].clone(), request },
            signature: t[1].clone(),
            executed,
        };
        assert(read.record().0 =~= record@.0);
        assert(read.record().1 =~= record@.1);
        proof {
            shape_of_instruction_record(read);
        }
        Some(read)
    }
}

/// What an instruction is stored as has the shape of an instruction's
/// record, so reading it back gives an instruction.
pub proof fn shape_of_instruction_record(instruction: SignableInstruction)
    ensures
        is_instruction_record(instruction.record()),
{
    let record = instruction.record();
    let request = instruction.instruction.request;
    assert(record.0.skip(3) =~= request.numbers());
    assert(record.1.skip(2) =~= request.texts());
    assert(record.0[2] == request.kind());
    match request {
        Request::Empty => {},
        Request::Instruments(r) => {},
        Request::Balances(r) => {},
        Request::PostOrder(r) => {},
        Request::OrdersList(r) => {},
    }
}

} // verus!
