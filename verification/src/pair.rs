use vstd::prelude::*;
use crate::remote_exchanges::ExchangeErrors;
use crate::text::{alphanumeric, concat3, is_alphanumeric, push_char, to_uppercase, uppercase};
use crate::utf16::{
    code_of, decode_lossy, encode, lossy_inverts_utf16, utf16, utf16_lossy, utf16_without_zero,
};

verus! {

/// A trading pair: the symbol that is traded and the symbol it is priced in.
#[derive(Debug, PartialEq, Eq, PartialOrd, Ord, Hash)]
pub struct Pair {
    pub base: String,
    pub quote: String,
}

impl Clone for Pair {
    fn clone(&self) -> (copy: Self)
        ensures
            copy == *self,
    {
        Pair { base: self.base.clone(), quote: self.quote.clone() }
    }
}

/// Whether the character at `at` is the one character of `text` that is
/// neither a letter nor a digit.
pub open spec fn sole_separator(text: Seq<char>, at: int) -> bool {
    &&& 0 <= at < text.len()
    &&& !alphanumeric(text[at])
    &&& forall|j: int| 0 <= j < text.len() && j != at ==> alphanumeric(#[trigger] text[j])
}

impl Pair {
    /// The pair as TOKEN-TOKEN.
    pub open spec fn text(self) -> Seq<char> {
        self.base@ + "-"@ + self.quote@
    }

    pub fn to_string(&self) -> (shown: String)
        ensures
            shown@ == self.text(),
    {
        concat3(self.base.as_str(), "-", self.quote.as_str())
    }

    /// Reads a pair from two symbols with one separating character between
    /// them, whatever that character is, as long as it is neither a letter
    /// nor a digit. The symbols are kept in upper case. Text with no such
    /// character, or with more than one, is refused.
    pub fn from_str(s: &str) -> (parsed: Result<Pair, ExchangeErrors>)
        ensures
            match parsed {
                Ok(pair) => exists|at: int|
                    {
                        &&& sole_separator(s@, at)
                        &&& pair.base@ == uppercase(s@.subrange(0, at))
                        &&& pair.quote@ == uppercase(s@.subrange(at + 1, s@.len() as int))
                    },
                Err(e) => {
                    &&& e is UnsupportedPairFormat
                    &&& forall|at: int| !sole_separator(s@, at)
                },
            },
    {
        let mut base = String::new();
        let mut quote = String::new();
        let mut separators: u8 = 0;
        let ghost mut first: int = 0;
        let ghost mut second: int = 0;
        for c in it: s.chars()
            invariant
                it.seq() == s@,
                separators <= 2,
                separators == 0 ==> {
                    &&& base@ == s@.subrange(0, it.index())
                    &&& quote@ == Seq::<char>::empty()
                    &&& forall|j: int| 0 <= j < it.index() ==> alphanumeric(#[trigger] s@[j])
                },
                separators == 1 ==> {
                    &&& 0 <= first < it.index()
                    &&& !alphanumeric(s@[first])
                    &&& base@ == s@.subrange(0, first)
                    &&& quote@ == s@.subrange(first + 1, it.index())
                    &&& forall|j: int|
                        0 <= j < it.index() && j != first ==> alphanumeric(#[trigger] s@[j])
                },
                separators == 2 ==> {
                    &&& 0 <= first < second < it.index()
                    &&& !alphanumeric(s@[first])
                    &&& !alphanumeric(s@[second])
                },
        {
            let ghost at = it.index();
            if is_alphanumeric(c) {
                if separators == 0 {
                    push_char(&mut base, c);
                    assert(base@ =~= s@.subrange(0, at + 1));
                } else if separators == 1 {
                    push_char(&mut quote, c);
                    assert(quote@ =~= s@.subrange(first + 1, at + 1));
                }
            } else {
                if separators == 0 {
                    proof {
                        first = at;
                    }
                    separators = 1;
                    assert(quote@ =~= s@.subrange(first + 1, at + 1));
                } else if separators == 1 {
                    proof {
                        second = at;
                    }
                    separators = 2;
                }
            }
        }
        if separators == 1 {
            let pair = Pair {
                base: to_uppercase(base.as_str()),
                quote: to_uppercase(quote.as_str()),
            };
            assert(sole_separator(s@, first));
            Ok(pair)
        } else {
            assert forall|at: int| !sole_separator(s@, at) by {
                if separators == 2 && sole_separator(s@, at) {
                    assert(alphanumeric(s@[first]) || alphanumeric(s@[second]));
                }
            }
            Err(ExchangeErrors::UnsupportedPairFormat)
        }
    }
}

/// The units of a symbol in storage: the symbol in UTF-16, and zeros after it
/// up to the width of twelve units.
pub open spec fn padded(units: Seq<u16>) -> Seq<u16> {
    Seq::new(12, |i: int| if i < units.len() { units[i] } else { 0u16 })
}

/// The units that stand before the first zero.
pub open spec fn before_zero(units: Seq<u16>) -> Seq<u16>
    decreases units.len(),
{
    if units.len() == 0 || units[0] == 0 {
        Seq::empty()
    } else {
        seq![units[0]] + before_zero(units.drop_first())
    }
}

/// The bytes of units: two for each unit, the less significant one first.
pub open spec fn units_bytes(units: Seq<u16>) -> Seq<u8> {
    Seq::new(
        2 * units.len(),
        |i: int| if i % 2 == 0 { (units[i / 2] % 256) as u8 } else { (units[i / 2] / 256) as u8 },
    )
}

/// The twenty-four units that the first forty-eight bytes spell.
pub open spec fn bytes_units(bytes: Seq<u8>) -> Seq<u16> {
    Seq::new(24, |i: int| (bytes[2 * i] + 256 * bytes[2 * i + 1]) as u16)
}

/// Calls `bincode::serialize` on the array: its units one after the other,
/// each as two bytes with the less significant one first, and nothing else.
#[verifier::external_body]
fn write_units(units: &[u16; 24]) -> (bytes: Vec<u8>)
    ensures
        bytes@ == units_bytes(units@),
{
    bincode::serialize(units).unwrap_or_default()
}

/// Calls `bincode::deserialize` for an array of twenty-four units: the units
/// that the first forty-eight bytes spell, or nothing where there are fewer
/// bytes.
#[verifier::external_body]
fn read_units(bytes: &[u8]) -> (units: Option<[u16; 24]>)
    ensures
        match units {
            Some(u) => bytes@.len() >= 48 && u@ == bytes_units(bytes@),
            None => bytes@.len() < 48,
        },
{
    bincode::deserialize(bytes).ok()
}

/// The symbol that twelve units in storage spell.
pub open spec fn stored_symbol(units: Seq<u16>) -> Seq<char> {
    utf16_lossy(before_zero(units))
}

impl Pair {
    /// Whether a pair can be stored and read back unchanged: each symbol
    /// takes twelve units at most and holds no character of code zero.
    pub open spec fn storable(self) -> bool {
        &&& utf16(self.base@).len() <= 12
        &&& utf16(self.quote@).len() <= 12
        &&& forall|i: int| 0 <= i < self.base@.len() ==> code_of(#[trigger] self.base@[i]) != 0
        &&& forall|i: int| 0 <= i < self.quote@.len() ==> code_of(#[trigger] self.quote@[i]) != 0
    }

    /// The forty-eight bytes a pair is stored as: the units of the base in
    /// their twelve places, then those of the quote.
    pub open spec fn bytes(self) -> Seq<u8> {
        units_bytes(padded(utf16(self.base@)) + padded(utf16(self.quote@)))
    }

    /// Reads a symbol from its units in storage: what stands before the
    /// first zero.
    pub fn decode_string(encoded: &[u16]) -> (symbol: String)
        ensures
            symbol@ == stored_symbol(encoded@),
    {
        let mut units: Vec<u16> = Vec::new();
        let mut i: usize = 0;
        assert(encoded@.skip(0) =~= encoded@);
        assert(units@ + before_zero(encoded@) =~= before_zero(encoded@));
        while i < encoded.len() && encoded[i] != 0
            invariant
                i <= encoded.len(),
                units@ + before_zero(encoded@.skip(i as int)) == before_zero(encoded@),
            decreases encoded.len() - i,
        {
            let ghost rest = encoded@.skip(i as int);
            assert(rest[0] == encoded@[i as int]);
            assert(rest.drop_first() =~= encoded@.skip(i + 1));
            units.push(encoded[i]);
            assert(units@ + before_zero(encoded@.skip(i + 1)) =~= before_zero(encoded@));
            i = i + 1;
        }
        proof {
            let rest = encoded@.skip(i as int);
            if i < encoded.len() {
                assert(rest[0] == encoded@[i as int]);
            }
            assert(before_zero(rest) =~= Seq::<u16>::empty());
            assert(units@ =~= before_zero(encoded@));
        }
        decode_lossy(&units)
    }

    /// Writes a symbol as its units in storage. The symbol must fit.
    pub fn encode_u16(s: &str) -> (buffer: [u16; 12])
        requires
            utf16(s@).len() <= 12,
        ensures
            buffer@ == padded(utf16(s@)),
    {
        let units = encode(s);
        let mut buffer: [u16; 12] = [0u16;12];
        let mut i: usize = 0;
        while i < units.len()
            invariant
                i <= units.len(),
                units@.len() <= 12,
                forall|j: int| 0 <= j < i ==> buffer@[j] == units@[j],
                forall|j: int| i <= j < 12 ==> buffer@[j] == 0,
            decreases units.len() - i,
        {
            buffer[i] = units[i];
            i = i + 1;
        }
        assert(buffer@ =~= padded(units@));
        buffer
    }

    /// Whether each symbol of the pair fits its twelve units.
    pub fn fits(&self) -> (fits: bool)
        ensures
            fits == (utf16(self.base@).len() <= 12 && utf16(self.quote@).len() <= 12),
    {
        encode(self.base.as_str()).len() <= 12 && encode(self.quote.as_str()).len() <= 12
    }

    /// Writes the pair as the forty-eight bytes it is stored as. Both symbols
    /// must fit.
    pub fn to_bytes(&self) -> (bytes: Vec<u8>)
        requires
            utf16(self.base@).len() <= 12,
            utf16(self.quote@).len() <= 12,
        ensures
            bytes@ == self.bytes(),
            bytes@.len() == 48,
    {
        let base = Pair::encode_u16(self.base.as_str());
        let quote = Pair::encode_u16(self.quote.as_str());
        let mut units: [u16; 24] = [0u16;24];
        let mut i: usize = 0;
        while i < 12
            invariant
                i <= 12,
                forall|j: int| 0 <= j < i ==> units@[j] == base@[j],
                forall|j: int| 0 <= j < i ==> units@[j + 12] == quote@[j],
            decreases 12 - i,
        {
            units[i] = base[i];
            units[i + 12] = quote[i];
            i = i + 1;
        }
        assert(units@ =~= base@ + quote@);
        write_units(&units)
    }

    /// Reads a pair from the bytes it is stored as: the first forty-eight
    /// decide, what follows them is ignored. Fewer bytes give nothing.
    pub fn from_bytes(bytes: &[u8]) -> (pair: Option<Pair>)
        ensures
            pair is Some <==> bytes@.len() >= 48,
            pair is Some ==> {
                &&& pair->0.base@ == stored_symbol(bytes_units(bytes@).subrange(0, 12))
                &&& pair->0.quote@ == stored_symbol(bytes_units(bytes@).subrange(12, 24))
            },
    {
        let units = match read_units(bytes) {
            Some(u) => u,
            None => {
                return None;
            },
        };
        let all = vstd::array::array_as_slice(&units);
        let base = Pair::decode_string(vstd::slice::slice_subrange(all, 0, 12));
        let quote = Pair::decode_string(vstd::slice::slice_subrange(all, 12, 24));
        Some(Pair { base, quote })
    }
}

/// Units without a zero, followed by anything that starts with a zero or is
/// empty, are what stands before the first zero.
pub proof fn before_zero_of_padded(units: Seq<u16>)
    requires
        units.len() <= 12,
        forall|j: int| 0 <= j < units.len() ==> #[trigger] units[j] != 0,
    ensures
        before_zero(padded(units)) == units,
{
    before_zero_prefix(padded(units), units.len() as int);
    assert(padded(units).take(units.len() as int) =~= units);
}

/// Where the first `count` units hold no zero and a zero or nothing follows
/// them, they are what stands before the first zero.
pub proof fn before_zero_prefix(units: Seq<u16>, count: int)
    requires
        0 <= count <= units.len(),
        forall|j: int| 0 <= j < count ==> #[trigger] units[j] != 0,
        count < units.len() ==> units[count] == 0,
    ensures
        before_zero(units) == units.take(count),
    decreases count,
{
    if count == 0 {
        assert(units.take(0) =~= Seq::<u16>::empty());
    } else {
        let rest = units.drop_first();
        assert forall|j: int| 0 <= j < count - 1 implies #[trigger] rest[j] != 0 by {
            assert(rest[j] == units[j + 1]);
        }
        before_zero_prefix(rest, count - 1);
        assert(units.take(count) =~= seq![units[0]] + rest.take(count - 1));
    }
}

/// The bytes of twenty-four units spell those units.
pub proof fn units_survive_bytes(units: Seq<u16>)
    requires
        units.len() == 24,
    ensures
        bytes_units(units_bytes(units)) == units,
{
    let bytes = units_bytes(units);
    assert forall|i: int| 0 <= i < 24 implies bytes_units(bytes)[i] == units[i] by {
        assert(bytes[2 * i] == (units[i] % 256) as u8);
        assert(bytes[2 * i + 1] == (units[i] / 256) as u8);
    }
    assert(bytes_units(bytes) =~= units);
}

/// A pair that is stored and read back is the same pair: both of its
/// symbols come back unchanged.
pub proof fn pair_survives_storage(pair: Pair)
    requires
        pair.storable(),
    ensures
        pair.bytes().len() == 48,
        stored_symbol(bytes_units(pair.bytes()).subrange(0, 12)) == pair.base@,
        stored_symbol(bytes_units(pair.bytes()).subrange(12, 24)) == pair.quote@,
{
    let base = utf16(pair.base@);
    let quote = utf16(pair.quote@);
    let units = padded(base) + padded(quote);
    units_survive_bytes(units);
    assert(units.subrange(0, 12) =~= padded(base));
    assert(units.subrange(12, 24) =~= padded(quote));
    utf16_without_zero(pair.base@);
    utf16_without_zero(pair.quote@);
    before_zero_of_padded(base);
    before_zero_of_padded(quote);
    lossy_inverts_utf16(pair.base@);
    lossy_inverts_utf16(pair.quote@);
}

} // verus!
