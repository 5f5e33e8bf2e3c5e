use vstd::prelude::*;
use crate::api_client::{headers_view, ApiClientErrors, HttpHeader};
use crate::text::{concat, decimal, replace, replaced, u64_to_decimal};

pub mod coinbase;
pub mod okx;
pub mod request;
pub mod response;

verus! {

/// Everything that can go wrong between a caller's request and an exchange's
/// answer. Each failure ends the one operation that met it and nothing else.
#[derive(Debug)]
pub enum ExchangeErrors {
    /// The outbound call was rejected, or the exchange answered with a
    /// status other than 200.
    ApiClientError(ApiClientErrors),
    /// The pair cannot be written in the exchange's own symbol format.
    InvalidIndex,
    /// The exchange has no index under the pair's name.
    MissingIndex,
    /// No series of any kind is stored for the pair.
    MissingPair,
    /// No candle series is stored for the pair.
    MissingCandles,
    /// No volume series is stored for the pair.
    MissingVolumes,
    /// The window's start does not lie before its end, or does not fit the
    /// exchange's millisecond clock.
    InvalidTimestamps,
    /// The text is not of the form TOKEN-TOKEN.
    UnsupportedPairFormat,
    /// The exchange's answer did not have the expected shape.
    DeserializationFailed { message: String },
    /// The caller holds no credential under the given api key.
    MissingApiKey,
    /// The series exists but holds no sample yet.
    MissingTimestamp,
    /// The exchange answered without an order book.
    MissingOrderbook,
    /// The exchange has no order type that matches the requested one.
    UnsupportedOrderType,
    /// The credential holds no passphrase, and the exchange asks for one.
    MissingPassphrase,
    /// The instruction asks for nothing.
    EmptyRequest,
    /// The store cannot take what it is asked to keep.
    StoreRefused,
}

impl ExchangeErrors {
    /// What a person reads when the error is shown.
    pub open spec fn text(self) -> Seq<char> {
        match self {
            ExchangeErrors::ApiClientError(_) => "api client error"@,
            ExchangeErrors::InvalidIndex => "index format conversion failed"@,
            ExchangeErrors::MissingIndex => "index is missing on the exchange"@,
            ExchangeErrors::MissingPair => "given pair is not initialized"@,
            ExchangeErrors::MissingCandles => "candle store for given pair is not initialized"@,
            ExchangeErrors::MissingVolumes => "volume store for given pair is not initialized"@,
            ExchangeErrors::InvalidTimestamps => "provided timestamps are invalid"@,
            ExchangeErrors::UnsupportedPairFormat =>
                "given pair format is not supported, supported format is TOKEN-TOKEN"@,
            ExchangeErrors::DeserializationFailed { message } =>
                "could not deserialize: "@ + message@,
            ExchangeErrors::MissingApiKey => "given api key not found on contract"@,
            ExchangeErrors::MissingTimestamp =>
                "missing timestamp, pair/volumes are not initialized"@,
            ExchangeErrors::MissingOrderbook => "given orderbook data do not exist"@,
            ExchangeErrors::UnsupportedOrderType =>
                "given order type is not supported by the exchange"@,
            ExchangeErrors::MissingPassphrase => "given api key has no passphrase"@,
            ExchangeErrors::EmptyRequest => "given instruction holds no request"@,
            ExchangeErrors::StoreRefused => "the store cannot take the given data"@,
        }
    }

    pub fn to_string(&self) -> (shown: String)
        ensures
            shown@ == self.text(),
    {
        match self {
            ExchangeErrors::ApiClientError(_) => String::from_str("api client error"),
            ExchangeErrors::InvalidIndex => String::from_str("index format conversion failed"),
            ExchangeErrors::MissingIndex => String::from_str("index is missing on the exchange"),
            ExchangeErrors::MissingPair => String::from_str("given pair is not initialized"),
            ExchangeErrors::MissingCandles => String::from_str(
                "candle store for given pair is not initialized",
            ),
            ExchangeErrors::MissingVolumes => String::from_str(
                "volume store for given pair is not initialized",
            ),
            ExchangeErrors::InvalidTimestamps => String::from_str(
                "provided timestamps are invalid",
            ),
            ExchangeErrors::UnsupportedPairFormat => String::from_str(
                "given pair format is not supported, supported format is TOKEN-TOKEN",
            ),
            ExchangeErrors::DeserializationFailed { message } => concat(
                "could not deserialize: ",
                message.as_str(),
            ),
            ExchangeErrors::MissingApiKey => String::from_str(
                "given api key not found on contract",
            ),
            ExchangeErrors::MissingTimestamp => String::from_str(
                "missing timestamp, pair/volumes are not initialized",
            ),
            ExchangeErrors::MissingOrderbook => String::from_str(
                "given orderbook data do not exist",
            ),
            ExchangeErrors::UnsupportedOrderType => String::from_str(
                "given order type is not supported by the exchange",
            ),
            ExchangeErrors::MissingPassphrase => String::from_str(
                "given api key has no passphrase",
            ),
            ExchangeErrors::EmptyRequest => String::from_str("given instruction holds no request"),
            ExchangeErrors::StoreRefused => String::from_str(
                "the store cannot take the given data",
            ),
        }
    }
}

/// The two verbs the exchanges are spoken to with.
#[derive(Clone, Copy, Debug, PartialEq, Eq, Structural)]
pub enum HttpMethod {
    GET,
    POST,
}

impl HttpMethod {
    pub open spec fn text(self) -> Seq<char> {
        match self {
            HttpMethod::GET => "GET"@,
            HttpMethod::POST => "POST"@,
        }
    }

    /// The verb as it is written in a request line and in a signable string.
    pub fn as_str(&self) -> (verb: &'static str)
        ensures
            verb@ == self.text(),
    {
        match self {
            HttpMethod::GET => "GET",
            HttpMethod::POST => "POST",
        }
    }
}

/// One named value of a request, both already written as text.
#[derive(Debug)]
pub struct Field {
    pub name: String,
    pub value: String,
}

impl View for Field {
    type V = (Seq<char>, Seq<char>);

    open spec fn view(&self) -> (Seq<char>, Seq<char>) {
        (self.name@, self.value@)
    }
}

impl Field {
    pub fn new(name: &str, value: &str) -> (field: Field)
        ensures
            field@ == (name@, value@),
    {
        Field { name: String::from_str(name), value: String::from_str(value) }
    }
}

/// The fields of a list, each by its view.
pub open spec fn fields_view(fields: Seq<Field>) -> Seq<(Seq<char>, Seq<char>)> {
    fields.map_values(|f: Field| f@)
}

/// The view of a text that may be absent.
pub open spec fn opt_text(value: Option<String>) -> Option<Seq<char>> {
    match value {
        Some(v) => Some(v@),
        None => None,
    }
}

/// The decimal text of a number that may be absent.
pub open spec fn opt_decimal(value: Option<u64>) -> Option<Seq<char>> {
    match value {
        Some(v) => Some(decimal(v as nat)),
        None => None,
    }
}

/// The one field of a value that is given, or no field where none is.
pub open spec fn optional_field(name: Seq<char>, value: Option<Seq<char>>) -> Seq<
    (Seq<char>, Seq<char>),
> {
    match value {
        Some(v) => seq![(name, v)],
        None => Seq::empty(),
    }
}

/// Appends a field to a list.
pub fn push_field(fields: &mut Vec<Field>, name: &str, value: &str)
    ensures
        fields_view(final(fields)@) == fields_view(old(fields)@).push((name@, value@)),
{
    fields.push(Field::new(name, value));
    assert(fields_view(fields@) =~= fields_view(old(fields)@).push((name@, value@)));
}

/// Appends a field to a list where a value is given, and leaves the list as
/// it is where none is.
pub fn push_optional(fields: &mut Vec<Field>, name: &str, value: &Option<String>)
    ensures
        fields_view(final(fields)@) == fields_view(old(fields)@) + optional_field(
            name@,
            opt_text(*value),
        ),
{
    match value {
        Some(v) => {
            push_field(fields, name, v.as_str());
            assert(fields_view(fields@) =~= fields_view(old(fields)@) + optional_field(
                name@,
                opt_text(*value),
            ));
        },
        None => {
            assert(fields_view(fields@) =~= fields_view(old(fields)@) + optional_field(
                name@,
                opt_text(*value),
            ));
        },
    }
}

/// Appends a number, written in decimal, to a list where one is given.
pub fn push_optional_number(fields: &mut Vec<Field>, name: &str, value: Option<u64>)
    ensures
        fields_view(final(fields)@) == fields_view(old(fields)@) + optional_field(
            name@,
            opt_decimal(value),
        ),
{
    match value {
        Some(v) => {
            push_field(fields, name, u64_to_decimal(v).as_str());
            assert(fields_view(fields@) =~= fields_view(old(fields)@) + optional_field(
                name@,
                opt_decimal(value),
            ));
        },
        None => {
            assert(fields_view(fields@) =~= fields_view(old(fields)@) + optional_field(
                name@,
                opt_decimal(value),
            ));
        },
    }
}

/// One entry of a query string as `serde_qs` writes it: the name, `=` and the
/// value, both percent-encoded.
pub uninterp spec fn qs_entry(name: Seq<char>, value: Seq<char>) -> Seq<char>;

/// A JSON object whose members are the given names and text values, in the
/// given order, as `serde_json` writes it in its compact form.
pub uninterp spec fn json_object(fields: Seq<(Seq<char>, Seq<char>)>) -> Seq<char>;

/// Calls `serde_qs::to_string` on a map with the one entry `name => value`.
/// The result is the entry as it stands in a query string; how the two texts
/// are escaped is `serde_qs`'s business.
#[verifier::external_body]
fn encode_qs_entry(name: &str, value: &str) -> (entry: String)
    ensures
        entry@ == qs_entry(name@, value@),
{
    serde_qs::to_string(&std::collections::BTreeMap::from([(name, value)])).unwrap_or_default()
}

/// Calls `serde_json::to_string` on a `serde_json::Map` that holds each field
/// as a member with a string value, inserted in the order of the list. The
/// result is that object's compact JSON text.
#[verifier::external_body]
fn encode_json_object(fields: &Vec<Field>) -> (object: String)
    ensures
        object@ == json_object(fields_view(fields@)),
{
    let mut members = serde_json::Map::new();
    for field in fields.iter() {
        members.insert(field.name.clone(), serde_json::Value::String(field.value.clone()));
    }
    serde_json::to_string(&members).unwrap_or_default()
}

/// The entries of a query string, joined by `&`.
pub open spec fn query_text(fields: Seq<(Seq<char>, Seq<char>)>) -> Seq<char>
    decreases fields.len(),
{
    if fields.len() == 0 {
        Seq::<char>::empty()
    } else if fields.len() == 1 {
        qs_entry(fields[0].0, fields[0].1)
    } else {
        query_text(fields.drop_last()) + "&"@ + qs_entry(fields.last().0, fields.last().1)
    }
}

/// A path template in which `{name}` has given way to the value of each
/// named field, one field after the other.
pub open spec fn filled_path(template: Seq<char>, named: Seq<(Seq<char>, Seq<char>)>) -> Seq<
    char,
>
    decreases named.len(),
{
    if named.len() == 0 {
        template
    } else {
        replaced(
            filled_path(template, named.drop_last()),
            "{"@ + named.last().0 + "}"@,
            named.last().1,
        )
    }
}

/// What a request says, apart from how it is sent.
pub struct WireModel {
    pub method: HttpMethod,
    pub host: Seq<char>,
    pub uri: Seq<char>,
    pub body: bool,
    pub path_params: bool,
    pub public: bool,
    pub query: Seq<(Seq<char>, Seq<char>)>,
    pub named: Seq<(Seq<char>, Seq<char>)>,
}

impl WireModel {
    /// The path below the host: the uri itself, or the uri with its
    /// placeholders filled in where the request has any.
    pub open spec fn path(self) -> Seq<char> {
        if self.path_params {
            filled_path(self.uri, self.named)
        } else {
            self.uri
        }
    }

    /// The query string with its leading `?`. A request that carries a body
    /// has none, and neither has one without query fields.
    pub open spec fn query_part(self) -> Seq<char> {
        let query = query_text(self.query);
        if self.body || query.len() == 0 {
            Seq::<char>::empty()
        } else {
            "?"@ + query
        }
    }

    /// The body: the named fields as a JSON object where the request carries
    /// one, nothing otherwise.
    pub open spec fn body_part(self) -> Seq<char> {
        if self.body {
            json_object(self.named)
        } else {
            Seq::<char>::empty()
        }
    }

    /// What follows the host in the request line.
    pub open spec fn target(self) -> Seq<char> {
        "/"@ + self.path() + self.query_part()
    }

    /// The address the request is sent to.
    pub open spec fn url(self) -> Seq<char> {
        "https://"@ + self.host + self.target()
    }

    /// The text an outside signer signs: verb, target and body, with nothing
    /// between them.
    pub open spec fn signable(self) -> Seq<char> {
        self.method.text() + self.target() + self.body_part()
    }
}

/// A request as it goes on the wire: where it goes, how, and the fields it
/// carries, already written as text.
#[derive(Debug)]
pub struct WireRequest {
    pub method: HttpMethod,
    pub host: String,
    pub uri: String,
    /// Whether the fields travel as a JSON body instead of a query string.
    pub body: bool,
    /// Whether the uri holds `{name}` placeholders.
    pub path_params: bool,
    /// Whether the exchange answers without credentials.
    pub public: bool,
    /// The fields of the query string, in order.
    pub query: Vec<Field>,
    /// The fields with text values, by name: they fill the placeholders and
    /// make up the body.
    pub named: Vec<Field>,
}

impl View for WireRequest {
    type V = WireModel;

    open spec fn view(&self) -> WireModel {
        WireModel {
            method: self.method,
            host: self.host@,
            uri: self.uri@,
            body: self.body,
            path_params: self.path_params,
            public: self.public,
            query: fields_view(self.query@),
            named: fields_view(self.named@),
        }
    }
}

impl WireRequest {
    /// A request without fields.
    pub fn new(method: HttpMethod, host: &str, uri: &str, public: bool) -> (request: WireRequest)
        ensures
            request@ == (WireModel {
                method,
                host: host@,
                uri: uri@,
                body: false,
                path_params: false,
                public,
                query: Seq::empty(),
                named: Seq::empty(),
            }),
    {
        let request = WireRequest {
            method,
            host: String::from_str(host),
            uri: String::from_str(uri),
            body: false,
            path_params: false,
            public,
            query: Vec::new(),
            named: Vec::new(),
        };
        assert(request@.query =~= Seq::empty());
        assert(request@.named =~= Seq::empty());
        request
    }

    pub fn to_query_string(&self) -> (query: String)
        ensures
            query@ == query_text(self@.query),
    {
        let mut query = String::new();
        let mut i: usize = 0;
        while i < self.query.len()
            invariant
                i <= self.query.len(),
                query@ == query_text(self@.query.take(i as int)),
            decreases self.query.len() - i,
        {
            let entry = encode_qs_entry(self.query[i].name.as_str(), self.query[i].value.as_str());
            proof {
                let before = self@.query.take(i as int);
                let after = self@.query.take(i + 1);
                assert(after.drop_last() =~= before);
                assert(after.last() == self@.query[i as int]);
                assert(self@.query[i as int] == self.query[i as int]@);
            }
            if i > 0 {
                query.append("&");
                query.append(entry.as_str());
            } else {
                query = entry;
            }
            i = i + 1;
        }
        assert(self@.query.take(self.query.len() as int) =~= self@.query);
        query
    }

    pub fn to_body(&self) -> (body: String)
        ensures
            body@ == json_object(self@.named),
    {
        encode_json_object(&self.named)
    }

    /// Fills the placeholders of a path template with the request's named
    /// fields.
    pub fn get_path(&self, template: &str) -> (path: String)
        ensures
            path@ == filled_path(template@, self@.named),
    {
        let mut path = String::from_str(template);
        let mut i: usize = 0;
        while i < self.named.len()
            invariant
                i <= self.named.len(),
                path@ == filled_path(template@, self@.named.take(i as int)),
            decreases self.named.len() - i,
        {
            let placeholder = crate::text::concat3("{", self.named[i].name.as_str(), "}");
            proof {
                let before = self@.named.take(i as int);
                let after = self@.named.take(i + 1);
                assert(after.drop_last() =~= before);
                assert(after.last() == self.named[i as int]@);
            }
            path = replace(path.as_str(), placeholder.as_str(), self.named[i].value.as_str());
            i = i + 1;
        }
        assert(self@.named.take(self.named.len() as int) =~= self@.named);
        path
    }

    /// What follows the host in the request line.
    pub fn target(&self) -> (target: String)
        ensures
            target@ == self@.target(),
    {
        let path = if self.path_params {
            self.get_path(self.uri.as_str())
        } else {
            self.uri.clone()
        };
        let mut target = concat("/", path.as_str());
        if !self.body {
            let query = self.to_query_string();
            if !query.as_str().is_empty() {
                target.append("?");
                target.append(query.as_str());
            }
        }
        target
    }

    /// The address the request is sent to.
    pub fn url(&self) -> (url: String)
        ensures
            url@ == self@.url(),
    {
        let mut url = concat("https://", self.host.as_str());
        url.append(self.target().as_str());
        url
    }

    /// The body to send, where the request carries one.
    pub fn body_text(&self) -> (body: Option<String>)
        ensures
            body is Some <==> self.body,
            body is Some ==> body->0@ == self@.body_part(),
    {
        if self.body {
            Some(self.to_body())
        } else {
            None
        }
    }

    /// The text an outside signer signs for this request. It is put together
    /// from the same target and body that are sent.
    pub fn signable(&self) -> (text: String)
        ensures
            text@ == self@.signable(),
    {
        let mut text = concat(self.method.as_str(), self.target().as_str());
        if self.body {
            text.append(self.to_body().as_str());
        }
        text
    }
}

/// Credentials that know the headers they travel in.
pub trait Authorize {
    spec fn auth_headers(&self) -> Seq<(Seq<char>, Seq<char>)>;

    fn get_auth_headers(&self) -> (headers: Vec<HttpHeader>)
        ensures
            headers_view(headers@) == self.auth_headers(),
    ;
}

/// A request of one exchange that knows how it goes on the wire.
pub trait ApiRequest {
    spec fn wire(&self) -> WireModel;

    fn to_wire(&self) -> (request: WireRequest)
        ensures
            request@ == self.wire(),
    ;
}

impl ApiRequest for WireRequest {
    open spec fn wire(&self) -> WireModel {
        self@
    }

    fn to_wire(&self) -> (request: WireRequest) {
        let request = WireRequest {
            method: self.method,
            host: self.host.clone(),
            uri: self.uri.clone(),
            body: self.body,
            path_params: self.path_params,
            public: self.public,
            query: clone_fields(&self.query),
            named: clone_fields(&self.named),
        };
        request
    }
}

/// A copy of a list of fields.
pub fn clone_fields(fields: &Vec<Field>) -> (copy: Vec<Field>)
    ensures
        fields_view(copy@) == fields_view(fields@),
{
    let mut copy: Vec<Field> = Vec::new();
    let mut i: usize = 0;
    while i < fields.len()
        invariant
            i <= fields.len(),
            fields_view(copy@) == fields_view(fields@.take(i as int)),
        decreases fields.len() - i,
    {
        let ghost before = fields_view(copy@);
        copy.push(Field::new(fields[i].name.as_str(), fields[i].value.as_str()));
        assert(fields_view(copy@) =~= before.push(fields@[i as int]@));
        assert(fields_view(fields@.take(i + 1)) =~= fields_view(fields@.take(i as int)).push(
            fields@[i as int]@,
        ));
        i = i + 1;
    }
    assert(fields@.take(fields.len() as int) =~= fields@);
    copy
}

/// Something that can fill the placeholders of a path with its own fields.
pub trait PathFormatter {
    /// The fields that fill the placeholders, by name.
    spec fn path_fields(&self) -> Seq<(Seq<char>, Seq<char>)>;

    fn get_path(&self, template: &str) -> (path: String)
        ensures
            path@ == filled_path(template@, self.path_fields()),
    ;
}

impl<T: ApiRequest> PathFormatter for T {
    open spec fn path_fields(&self) -> Seq<(Seq<char>, Seq<char>)> {
        self.wire().named
    }

    fn get_path(&self, template: &str) -> (path: String) {
        self.to_wire().get_path(template)
    }
}

/// The signable string and the address of a request share their target: what
/// is signed is what is sent.
pub proof fn signature_mirrors_request(request: WireModel)
    ensures
        request.signable() == request.method.text() + request.target() + request.body_part(),
        request.url() == "https://"@ + request.host + request.target(),
{
}

/// The most candles an exchange returns for one request.
pub const CHUNK_CANDLES: u64 = 300;

/// Where the chunk that starts at `current` ends: as many candle widths on as
/// one request can return, and at the end of the window at the latest.
pub open spec fn chunk_end(current: u64, end: u64, interval: u32) -> u64 {
    if end - current <= interval * CHUNK_CANDLES {
        end
    } else {
        (current + interval * CHUNK_CANDLES) as u64
    }
}

/// A window of time that is fetched in chunks, one request for each chunk.
#[derive(Debug)]
pub struct ChunkedFetch {
    /// Where the next chunk starts.
    pub current: u64,
    /// Where the window ends.
    pub end: u64,
    /// The width of a candle.
    pub interval: u32,
    /// Whether the instant at which the window ends is itself fetched.
    pub inclusive: bool,
    /// Whether the last chunk has been handed out.
    pub finished: bool,
}

impl ChunkedFetch {
    /// Whether there is a chunk left to fetch.
    pub open spec fn pending(self) -> bool {
        &&& !self.finished
        &&& if self.inclusive {
            self.current <= self.end
        } else {
            self.current < self.end
        }
    }

    /// The fetch of a window, from its start.
    pub fn new(range: std::ops::Range<u64>, interval: u32, inclusive: bool) -> (fetch: ChunkedFetch)
        ensures
            fetch == (ChunkedFetch {
                current: range.start,
                end: range.end,
                interval,
                inclusive,
                finished: false,
            }),
    {
        ChunkedFetch { current: range.start, end: range.end, interval, inclusive, finished: false }
    }

    /// The next chunk to fetch, by its first and its last instant, or nothing
    /// where the window has been covered. Each chunk starts at the instant
    /// after the one before it ended, so the chunks follow one another
    /// without a gap and without an instant in common.
    pub fn next_chunk(&mut self) -> (chunk: Option<(u64, u64)>)
        ensures
            chunk is Some <==> old(self).pending(),
            final(self).end == old(self).end,
            final(self).interval == old(self).interval,
            final(self).inclusive == old(self).inclusive,
            match chunk {
                Some((first, last)) => {
                    &&& first == old(self).current
                    &&& last == chunk_end(first, old(self).end, old(self).interval)
                    &&& first <= last <= old(self).end
                    &&& if last < u64::MAX {
                        final(self).current == last + 1 && !final(self).finished
                    } else {
                        final(self).finished
                    }
                },
                None => *final(self) == *old(self),
            },
    {
        if self.finished {
            return None;
        }
        let pending = if self.inclusive {
            self.current <= self.end
        } else {
            self.current < self.end
        };
        if !pending {
            return None;
        }
        let first = self.current;
        let width: u64 = self.interval as u64 * CHUNK_CANDLES;
        let last = if self.end - first <= width {
            self.end
        } else {
            first + width
        };
        if last < u64::MAX {
            self.current = last + 1;
        } else {
            self.finished = true;
        }
        Some((first, last))
    }
}

} // verus!
