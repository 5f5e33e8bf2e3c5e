use vstd::prelude::*;
use crate::api_client::{call_headers, counter_after, headers_view, ApiClient, HttpCall};
use crate::api_store::ApiData;
use crate::exchange::{signable_text, Exchange};
use crate::remote_exchanges::coinbase::request::OrderType as CoinbaseOrderType;
use crate::remote_exchanges::coinbase::response::{
    Account, Order as CoinbaseOrder, OrderResponse,
};
use crate::remote_exchanges::coinbase::{Coinbase, CoinbaseAuth};
use crate::remote_exchanges::okx::auth::OkxAuth;
use crate::remote_exchanges::okx::response::{
    AccountInfo, ConcreteInstrument, Order as OkxOrder, PlaceOrderDetails,
};
use crate::remote_exchanges::okx::Okx;
use crate::remote_exchanges::{ApiRequest, Authorize, ExchangeErrors, WireModel, WireRequest};
use crate::request_store::request::{Request, Response};
use crate::api_store::{has_passphrase, passphrase_of, ApiStore};
use crate::exchange::ExchangeImpl;
use crate::pair::Pair;
use crate::remote_exchanges::request::{GeneralPostOrderRequest, OrderSide, OrderType, TradeMode};
use crate::request_store::{
    records_of, Instruction, MyPrincipal, SignableInstruction, Transaction, TransactionId,
    TransactionStore,
};
use crate::storage::next_id_of;
use crate::text::decimal;

verus! {

/// What the answer to a call is expected to hold.
#[derive(Clone, Copy, Debug, PartialEq, Eq, Structural)]
pub enum Expected {
    OkxInstruments,
    OkxBalances,
    OkxOrder,
    OkxOrders,
    CoinbaseAccounts,
    CoinbaseOrder,
    CoinbaseOrders,
}

/// The answer to a call, read into the terms of the exchange that gave it.
#[derive(Debug)]
pub enum Payload {
    OkxInstruments(Vec<ConcreteInstrument>),
    OkxBalances(Vec<AccountInfo>),
    OkxOrder(Vec<PlaceOrderDetails>),
    OkxOrders(Vec<OkxOrder>),
    CoinbaseAccounts(Vec<Account>),
    CoinbaseOrder(OrderResponse),
    CoinbaseOrders(Vec<CoinbaseOrder>),
}

impl Payload {
    /// What kind of answer a payload is.
    pub open spec fn kind(self) -> Expected {
        match self {
            Payload::OkxInstruments(_) => Expected::OkxInstruments,
            Payload::OkxBalances(_) => Expected::OkxBalances,
            Payload::OkxOrder(_) => Expected::OkxOrder,
            Payload::OkxOrders(_) => Expected::OkxOrders,
            Payload::CoinbaseAccounts(_) => Expected::CoinbaseAccounts,
            Payload::CoinbaseOrder(_) => Expected::CoinbaseOrder,
            Payload::CoinbaseOrders(_) => Expected::CoinbaseOrders,
        }
    }
}

/// What an instruction comes to: a call to issue, or an answer that is known
/// without asking.
#[derive(Debug)]
pub enum Planned {
    Call { call: HttpCall, expects: Expected },
    Answer(Response),
}

/// What an instruction puts on the wire at its exchange. There is nothing
/// for an instruction that asks for nothing, for one that is answered
/// without asking, and for an order whose type the exchange does not know.
pub open spec fn planned_wire(exchange: Exchange, request: Request) -> Option<WireModel> {
    match exchange {
        Exchange::Coinbase => match request {
            Request::OrdersList(orders) => Some(Coinbase::orders_wire(orders)),
            Request::Balances(_) => Some(Coinbase::balance_wire()),
            Request::PostOrder(order) => match CoinbaseOrderType::of_general(order.order_type) {
                Some(kind) => Some(Coinbase::order_wire(order, kind)),
                None => None,
            },
            _ => None,
        },
        Exchange::Okx => match request {
            Request::OrdersList(orders) => if orders.pending {
                Some(Okx::pending_orders_wire(orders))
            } else {
                Some(Okx::done_orders_wire(orders))
            },
            Request::Instruments(instruments) => Some(Okx::instruments_wire(instruments)),
            Request::Balances(balances) => Some(Okx::balance_wire(balances)),
            Request::PostOrder(order) => Some(Okx::order_wire(order)),
            Request::Empty => None,
        },
    }
}

/// What the answer to an instruction's call is expected to hold.
pub open spec fn expected_answer(exchange: Exchange, request: Request) -> Expected {
    match exchange {
        Exchange::Coinbase => match request {
            Request::OrdersList(_) => Expected::CoinbaseOrders,
            Request::PostOrder(_) => Expected::CoinbaseOrder,
            _ => Expected::CoinbaseAccounts,
        },
        Exchange::Okx => match request {
            Request::OrdersList(_) => Expected::OkxOrders,
            Request::PostOrder(_) => Expected::OkxOrder,
            Request::Balances(_) => Expected::OkxBalances,
            _ => Expected::OkxInstruments,
        },
    }
}

/// The headers that carry an account's credentials to an exchange, with the
/// signature made for the request at the given instant.
pub open spec fn credential_headers(
    exchange: Exchange,
    api_key: Seq<char>,
    passphrase: Seq<char>,
    signature: Seq<char>,
    timestamp_utc: Seq<char>,
    timestamp: u64,
) -> Seq<(Seq<char>, Seq<char>)> {
    match exchange {
        Exchange::Okx => seq![
            ("OK-ACCESS-KEY"@, api_key),
            ("OK-ACCESS-SIGN"@, signature),
            ("OK-ACCESS-TIMESTAMP"@, timestamp_utc),
            ("OK-ACCESS-PASSPHRASE"@, passphrase),
            ("x-simulated-trading"@, "1"@),
        ],
        Exchange::Coinbase => seq![
            ("CB-ACCESS-KEY"@, api_key),
            ("CB-ACCESS-SIGN"@, signature),
            ("CB-ACCESS-TIMESTAMP"@, decimal(timestamp as nat)),
            ("CB-ACCESS-PASSPHRASE"@, passphrase),
            ("x-simulated-trading"@, "1"@),
        ],
    }
}

/// Why an instruction cannot be carried out, if it cannot: the credential
/// lacks its passphrase, the instruction asks for nothing, or it is an order
/// of a type that the exchange does not know.
pub open spec fn refusal(instruction: Instruction, credential: ApiData) -> Option<ExchangeErrors> {
    if credential.passphrase is None {
        Some(ExchangeErrors::MissingPassphrase)
    } else if instruction.request is Empty {
        Some(ExchangeErrors::EmptyRequest)
    } else if instruction.exchange == Exchange::Coinbase && instruction.request is PostOrder
        && CoinbaseOrderType::of_general(instruction.request->PostOrder_0.order_type) is None {
        Some(ExchangeErrors::UnsupportedOrderType)
    } else {
        None
    }
}

/// What is signed for an instruction is what is sent for it: the text to
/// sign is the verb, the target and the body of the instruction's call.
pub proof fn signed_text_is_sent_text(exchange: Exchange, request: Request)
    requires
        planned_wire(exchange, request) is Some,
    ensures
        signable_text(exchange, request) == Some(planned_wire(exchange, request)->0.signable()),
{
}

/// Turns a request into the call that carries it with an account's
/// credentials.
fn authorized_call<A: Authorize>(client: &mut ApiClient, request: WireRequest, auth: &A) -> (call:
    HttpCall)
    ensures
        call.url@ == request@.url(),
        call.method == request@.method,
        headers_view(call.headers@) == call_headers(
            request@,
            Some(auth.auth_headers()),
            old(client).idempotency_counter,
        ),
        call.body is Some <==> request@.body,
        call.body is Some ==> call.body->0@ == request@.body_part(),
        call.max_response_bytes is None,
        final(client).idempotency_counter == counter_after(old(client).idempotency_counter),
{
    client.call(&request, Some(auth))
}

/// Plans one instruction of an account: the call that carries the
/// instruction's request to its exchange, with the account's credentials and
/// the signature that an outside signer made for it, or the answer where the
/// exchange need not be asked. The count of calls goes up by one with each
/// call that is planned.
pub fn plan_instruction(
    client: &mut ApiClient,
    instruction: &Instruction,
    credential: &ApiData,
    signature: &str,
    timestamp_utc: &str,
    timestamp: u64,
) -> (planned: Result<Planned, ExchangeErrors>)
    ensures
        match planned {
            Err(e) => {
                &&& Some(e) == refusal(*instruction, *credential)
                &&& *final(client) == *old(client)
            },
            Ok(Planned::Answer(response)) => {
                &&& refusal(*instruction, *credential) is None
                &&& planned_wire(instruction.exchange, instruction.request) is None
                &&& response is Instruments
                &&& response->Instruments_0@.len() == 0
                &&& *final(client) == *old(client)
            },
            Ok(Planned::Call { call, expects }) => {
                let wire = planned_wire(instruction.exchange, instruction.request);
                &&& refusal(*instruction, *credential) is None
                &&& wire is Some
                &&& expects == expected_answer(instruction.exchange, instruction.request)
                &&& call.url@ == wire->0.url()
                &&& call.method == wire->0.method
                &&& headers_view(call.headers@) == call_headers(
                    wire->0,
                    Some(
                        credential_headers(
                            instruction.exchange,
                            instruction.api_key@,
                            credential.passphrase->0@,
                            signature@,
                            timestamp_utc@,
                            timestamp,
                        ),
                    ),
                    old(client).idempotency_counter,
                )
                &&& call.body is Some <==> wire->0.body
                &&& call.body is Some ==> call.body->0@ == wire->0.body_part()
                &&& call.max_response_bytes is None
                &&& final(client).idempotency_counter == counter_after(
                    old(client).idempotency_counter,
                )
            },
        },
{
    let passphrase = match &credential.passphrase {
        Some(p) => p.clone(),
        None => {
            return Err(ExchangeErrors::MissingPassphrase);
        },
    };
    match instruction.exchange {
        Exchange::Okx => {
            let auth = OkxAuth {
                api_key: instruction.api_key.clone(),
                passphrase,
                signature: String::from_str(signature),
                timestamp: String::from_str(timestamp_utc),
            };
            assert(auth.auth_headers() =~= credential_headers(
                instruction.exchange,
                instruction.api_key@,
                credential.passphrase->0@,
                signature@,
                timestamp_utc@,
                timestamp,
            ));
            match &instruction.request {
                Request::Empty => Err(ExchangeErrors::EmptyRequest),
                Request::Instruments(r) => Ok(
                    Planned::Call {
                        call: authorized_call(client, Okx::instruments_request(r).to_wire(), &auth),
                        expects: Expected::OkxInstruments,
                    },
                ),
                Request::Balances(r) => Ok(
                    Planned::Call {
                        call: authorized_call(client, Okx::balance_request(r).to_wire(), &auth),
                        expects: Expected::OkxBalances,
                    },
                ),
                Request::PostOrder(r) => Ok(
                    Planned::Call {
                        call: authorized_call(client, Okx::order_request(r).to_wire(), &auth),
                        expects: Expected::OkxOrder,
                    },
                ),
                Request::OrdersList(r) => if r.pending {
                    Ok(
                        Planned::Call {
                            call: authorized_call(
                                client,
                                Okx::pending_orders_request(r).to_wire(),
                                &auth,
                            ),
                            expects: Expected::OkxOrders,
                        },
                    )
                } else {
                    Ok(
                        Planned::Call {
                            call: authorized_call(
                                client,
                                Okx::done_orders_request(r).to_wire(),
                                &auth,
                            ),
                            expects: Expected::OkxOrders,
                        },
                    )
                },
            }
        },
        Exchange::Coinbase => {
            let auth = CoinbaseAuth {
                api_key: instruction.api_key.clone(),
                passphrase,
                signature: String::from_str(signature),
                timestamp,
            };
            assert(auth.auth_headers() =~= credential_headers(
                instruction.exchange,
                instruction.api_key@,
                credential.passphrase->0@,
                signature@,
                timestamp_utc@,
                timestamp,
            ));
            match &instruction.request {
                Request::Empty => Err(ExchangeErrors::EmptyRequest),
                Request::Instruments(_) => Ok(Planned::Answer(Coinbase::instruments_response())),
                Request::Balances(r) => Ok(
                    Planned::Call {
                        call: authorized_call(client, Coinbase::balance_request(r).to_wire(), &auth),
                        expects: Expected::CoinbaseAccounts,
                    },
                ),
                Request::PostOrder(r) => match Coinbase::order_request(r) {
                    Ok(body) => Ok(
                        Planned::Call {
                            call: authorized_call(client, body.to_wire(), &auth),
                            expects: Expected::CoinbaseOrder,
                        },
                    ),
                    Err(e) => Err(e),
                },
                Request::OrdersList(r) => Ok(
                    Planned::Call {
                        call: authorized_call(client, Coinbase::orders_request(r).to_wire(), &auth),
                        expects: Expected::CoinbaseOrders,
                    },
                ),
            }
        },
    }
}

/// Whether a payload answers an instruction: it is of the kind that the
/// instruction's call expects.
pub open spec fn answers(instruction: Instruction, payload: Payload) -> bool {
    &&& planned_wire(instruction.exchange, instruction.request) is Some
    &&& payload.kind() == expected_answer(instruction.exchange, instruction.request)
}

/// Whether a response is what a payload says in general terms, as the answer
/// to an instruction.
pub open spec fn reads_as(instruction: Instruction, payload: Payload, response: Response) -> bool {
    match payload {
        Payload::OkxInstruments(listed) => Okx::instruments_answer(listed@, response),
        Payload::OkxBalances(accounts) => Okx::balance_answer(accounts@, response),
        Payload::OkxOrder(placed) => Okx::order_answer(placed@, response),
        Payload::OkxOrders(orders) => Okx::orders_answer(orders@, response),
        Payload::CoinbaseAccounts(accounts) => Coinbase::balance_answer(accounts@, response),
        Payload::CoinbaseOrder(placed) => Coinbase::order_answer(placed, response),
        Payload::CoinbaseOrders(orders) => instruction.request is OrdersList
            && Coinbase::orders_answer(instruction.request->OrdersList_0, orders@, response),
    }
}

/// Reads the answer to an instruction's call into general terms. A payload
/// of another kind than the call expects is refused, and so is the answer to
/// an order that reports no order.
pub fn read_answer(instruction: &Instruction, payload: &Payload) -> (response: Result<
    Response,
    ExchangeErrors,
>)
    ensures
        match response {
            Ok(r) => {
                &&& answers(*instruction, *payload)
                &&& reads_as(*instruction, *payload, r)
            },
            Err(e) => {
                &&& e is DeserializationFailed
                &&& !answers(*instruction, *payload) || (payload is OkxOrder
                    && payload->OkxOrder_0@.len() == 0)
            },
        },
{
    match (instruction.exchange, &instruction.request, payload) {
        (Exchange::Okx, Request::Instruments(_), Payload::OkxInstruments(listed)) => Ok(
            Okx::instruments_response(listed),
        ),
        (Exchange::Okx, Request::Balances(_), Payload::OkxBalances(accounts)) => Ok(
            Okx::balance_response(accounts),
        ),
        (Exchange::Okx, Request::PostOrder(_), Payload::OkxOrder(placed)) => Okx::order_response(
            placed,
        ),
        (Exchange::Okx, Request::OrdersList(_), Payload::OkxOrders(orders)) => Ok(
            Okx::orders_response(orders),
        ),
        (Exchange::Coinbase, Request::Balances(_), Payload::CoinbaseAccounts(accounts)) => Ok(
            Coinbase::balance_response(accounts),
        ),
        (Exchange::Coinbase, Request::PostOrder(r), Payload::CoinbaseOrder(placed)) => {
            if Coinbase::knows_order_type(r.order_type) {
                Ok(Coinbase::order_response(placed))
            } else {
                Err(unexpected_payload())
            }
        },
        (Exchange::Coinbase, Request::OrdersList(r), Payload::CoinbaseOrders(orders)) => Ok(
            Coinbase::orders_response(r, orders),
        ),
        _ => Err(unexpected_payload()),
    }
}

/// The error for a payload that is not what the call expects.
fn unexpected_payload() -> (error: ExchangeErrors)
    ensures
        error is DeserializationFailed,
{
    ExchangeErrors::DeserializationFailed {
        message: String::from_str("the answer is not of the expected kind"),
    }
}

/// What the pipeline asks of its caller next.
#[derive(Debug)]
pub enum Step {
    /// Issue this call and hand the answer back.
    Call { call: HttpCall, expects: Expected },
    /// Every instruction has been carried out.
    Done,
    /// This instruction cannot be carried out; no further one will be.
    Failed(ExchangeErrors),
    /// Nothing: an answer is awaited, or the execution has failed before.
    Halted,
}

/// The execution of a transaction: its instructions are carried out one
/// after the other, each with the signature that was made for it, and none
/// before the one before it has been answered.
pub struct Execution {
    instructions: Vec<SignableInstruction>,
    signatures: Vec<String>,
    timestamp_utc: String,
    timestamp: u64,
    position: usize,
    responses: Vec<Response>,
    failed: bool,
    awaiting: bool,
}

impl Execution {
    /// The instructions of the transaction.
    pub closed spec fn instructions(&self) -> Seq<SignableInstruction> {
        self.instructions@
    }

    /// The signatures, one for each instruction, in the order of the
    /// instructions.
    pub closed spec fn signatures(&self) -> Seq<String> {
        self.signatures@
    }

    /// The instant of the signatures, as the first exchange reads it.
    pub closed spec fn timestamp_utc(&self) -> Seq<char> {
        self.timestamp_utc@
    }

    /// The instant of the signatures, in seconds.
    pub closed spec fn timestamp(&self) -> u64 {
        self.timestamp
    }

    /// How many instructions have been carried out.
    pub closed spec fn position(&self) -> nat {
        self.position as nat
    }

    /// The answers so far, in the order of the instructions.
    pub closed spec fn responses(&self) -> Seq<Response> {
        self.responses@
    }

    /// Whether an instruction could not be carried out.
    pub closed spec fn failed(&self) -> bool {
        self.failed
    }

    /// Whether a call has been handed out whose answer has not come back.
    pub closed spec fn awaiting(&self) -> bool {
        self.awaiting
    }

    /// How many instructions there are to carry out: those that have a
    /// signature.
    pub open spec fn steps(&self) -> nat {
        if self.instructions().len() <= self.signatures().len() {
            self.instructions().len()
        } else {
            self.signatures().len()
        }
    }

    /// Whether the execution is in order: there is an answer for each
    /// instruction that has been carried out and for no other, and a call
    /// is only awaited for an instruction that is there.
    pub closed spec fn wf(&self) -> bool {
        &&& self.position <= self.steps()
        &&& self.responses@.len() == self.position
        &&& self.awaiting ==> self.position < self.steps() && !self.failed
    }

    /// Whether every instruction has been carried out.
    pub open spec fn completed(&self) -> bool {
        !self.failed() && !self.awaiting() && self.position() == self.steps()
    }

    /// The execution of a transaction, before its first instruction.
    pub fn new(
        transaction: Transaction,
        signatures: Vec<String>,
        timestamp_utc: String,
        timestamp: u64,
    ) -> (execution: Execution)
        ensures
            execution.wf(),
            execution.instructions() == transaction.0@,
            execution.signatures() == signatures@,
            execution.timestamp_utc() == timestamp_utc@,
            execution.timestamp() == timestamp,
            execution.position() == 0,
            execution.responses().len() == 0,
            !execution.failed(),
            !execution.awaiting(),
    {
        Execution {
            instructions: transaction.0,
            signatures,
            timestamp_utc,
            timestamp,
            position: 0,
            responses: Vec::new(),
            failed: false,
            awaiting: false,
        }
    }

    /// Whether every instruction has been carried out.
    pub fn is_complete(&self) -> (complete: bool)
        requires
            self.wf(),
        ensures
            complete == self.completed(),
    {
        let steps = if self.instructions.len() <= self.signatures.len() {
            self.instructions.len()
        } else {
            self.signatures.len()
        };
        !self.failed && !self.awaiting && self.position == steps
    }

    /// Finds what to do next. Instructions that are answered without asking
    /// are carried out on the way. The first instruction that needs a call
    /// gives the call, planned with the credential that the caller holds
    /// under the instruction's api key; nothing further is planned until
    /// the answer has been handed back. An instruction that cannot be
    /// carried out fails the execution for good.
    pub fn next(&mut self, keys: &ApiStore, identity: &MyPrincipal, client: &mut ApiClient) -> (step:
        Step)
        requires
            old(self).wf(),
        ensures
            final(self).wf(),
            final(self).instructions() == old(self).instructions(),
            final(self).signatures() == old(self).signatures(),
            final(self).timestamp_utc() == old(self).timestamp_utc(),
            final(self).timestamp() == old(self).timestamp(),
            old(self).failed() || old(self).awaiting() ==> {
                &&& step is Halted
                &&& *final(self) == *old(self)
                &&& *final(client) == *old(client)
            },
            step is Halted ==> old(self).failed() || old(self).awaiting(),
            final(self).position() >= old(self).position(),
            final(self).responses().take(old(self).responses().len() as int)
                == old(self).responses(),
            forall|i: int|
                old(self).position() <= i < final(self).position() ==> {
                    &&& answered_alone(
                        *keys,
                        identity.0@,
                        (#[trigger] final(self).instructions()[i]).instruction,
                    )
                    &&& final(self).responses()[i] is Instruments
                    &&& final(self).responses()[i]->Instruments_0@.len() == 0
                },
            step is Done ==> final(self).completed() && *final(client) == *old(client),
            step is Failed ==> {
                let at = final(self).position() as int;
                &&& final(self).failed()
                &&& !final(self).awaiting()
                &&& at < final(self).steps()
                &&& *final(client) == *old(client)
                &&& planned_as(
                    *keys,
                    identity.0@,
                    final(self).instructions()[at].instruction,
                    final(self).signatures()[at]@,
                    final(self).timestamp_utc(),
                    final(self).timestamp(),
                    old(client).idempotency_counter,
                    Err(step->Failed_0),
                )
            },
            step is Call ==> {
                let at = final(self).position() as int;
                &&& final(self).awaiting()
                &&& !final(self).failed()
                &&& at < final(self).steps()
                &&& final(client).idempotency_counter == counter_after(
                    old(client).idempotency_counter,
                )
                &&& planned_as(
                    *keys,
                    identity.0@,
                    final(self).instructions()[at].instruction,
                    final(self).signatures()[at]@,
                    final(self).timestamp_utc(),
                    final(self).timestamp(),
                    old(client).idempotency_counter,
                    Ok(Planned::Call { call: step->Call_call, expects: step->Call_expects }),
                )
            },
    {
        if self.failed || self.awaiting {
            return Step::Halted;
        }
        let steps = if self.instructions.len() <= self.signatures.len() {
            self.instructions.len()
        } else {
            self.signatures.len()
        };
        while self.position < steps
            invariant
                self.wf(),
                old(self).wf(),
                !old(self).failed,
                !old(self).awaiting,
                !self.failed,
                !self.awaiting,
                steps == self.steps(),
                self.instructions@ == old(self).instructions@,
                self.signatures@ == old(self).signatures@,
                self.timestamp_utc == old(self).timestamp_utc,
                self.timestamp == old(self).timestamp,
                self.position >= old(self).position,
                self.responses@.take(old(self).responses@.len() as int) == old(self).responses@,
                *client == *old(client),
                forall|i: int|
                    old(self).position <= i < self.position ==> {
                        &&& answered_alone(
                            *keys,
                            identity.0@,
                            (#[trigger] self.instructions@[i]).instruction,
                        )
                        &&& self.responses@[i] is Instruments
                        &&& self.responses@[i]->Instruments_0@.len() == 0
                    },
            decreases steps - self.position,
        {
            match plan_for(
                keys,
                identity,
                client,
                &self.instructions[self.position].instruction,
                self.signatures[self.position].as_str(),
                self.timestamp_utc.as_str(),
                self.timestamp,
            ) {
                Err(e) => {
                    self.failed = true;
                    return Step::Failed(e);
                },
                Ok(Planned::Call { call, expects }) => {
                    self.awaiting = true;
                    return Step::Call { call, expects };
                },
                Ok(Planned::Answer(response)) => {
                    let ghost before = self.responses@;
                    self.responses.push(response);
                    self.position = self.position + 1;
                    assert(self.responses@.take(old(self).responses@.len() as int) =~= before.take(
                        old(self).responses@.len() as int,
                    ));
                },
            }
        }
        Step::Done
    }

    /// Takes the answer to the call that was handed out last. An answer that
    /// can be read settles the instruction, and the next one can follow. An
    /// error, or an answer that cannot be read, fails the execution for
    /// good, and is handed back.
    pub fn record(&mut self, answer: Result<Payload, ExchangeErrors>) -> (error: Option<
        ExchangeErrors,
    >)
        requires
            old(self).wf(),
        ensures
            final(self).wf(),
            final(self).instructions() == old(self).instructions(),
            final(self).signatures() == old(self).signatures(),
            final(self).timestamp_utc() == old(self).timestamp_utc(),
            final(self).timestamp() == old(self).timestamp(),
            !final(self).awaiting(),
            !old(self).awaiting() ==> error is None && *final(self) == *old(self),
            old(self).awaiting() ==> {
                &&& error is Some <==> final(self).failed()
                &&& answer is Err ==> error == Some(answer->Err_0)
                &&& error is None ==> {
                    &&& final(self).position() == old(self).position() + 1
                    &&& final(self).responses().len() == old(self).responses().len() + 1
                    &&& final(self).responses().take(old(self).responses().len() as int)
                        == old(self).responses()
                    &&& answer is Ok
                    &&& answers(
                        old(self).instructions()[old(self).position() as int].instruction,
                        answer->Ok_0,
                    )
                    &&& reads_as(
                        old(self).instructions()[old(self).position() as int].instruction,
                        answer->Ok_0,
                        final(self).responses().last(),
                    )
                }
                &&& error is Some && answer is Ok ==> {
                    let instruction = old(self).instructions()[old(self).position() as int].instruction;
                    &&& error->0 is DeserializationFailed
                    &&& !answers(instruction, answer->Ok_0) || (answer->Ok_0 is OkxOrder
                        && answer->Ok_0->OkxOrder_0@.len() == 0)
                }
                &&& error is Some ==> {
                    &&& final(self).position() == old(self).position()
                    &&& final(self).responses() == old(self).responses()
                }
            },
    {
        if !self.awaiting {
            return None;
        }
        self.awaiting = false;
        let payload = match answer {
            Ok(payload) => payload,
            Err(e) => {
                self.failed = true;
                return Some(e);
            },
        };
        let count = self.instructions.len();
        assert(self.position < count);
        match read_answer(&self.instructions[self.position].instruction, &payload) {
            Ok(response) => {
                let ghost before = self.responses@;
                self.responses.push(response);
                self.position = self.position + 1;
                assert(self.responses@.take(before.len() as int) =~= before);
                None
            },
            Err(e) => {
                self.failed = true;
                Some(e)
            },
        }
    }
}

/// Whether an order is of a type that its exchange does not know.
pub open spec fn unknown_order_type(instruction: Instruction) -> bool {
    &&& instruction.exchange == Exchange::Coinbase
    &&& instruction.request is PostOrder
    &&& CoinbaseOrderType::of_general(instruction.request->PostOrder_0.order_type) is None
}

/// Whether an instruction of a caller is answered without asking: the caller
/// holds a credential with a passphrase under the instruction's api key, and
/// the instruction is one that puts nothing on the wire though it asks for
/// something.
pub open spec fn answered_alone(keys: ApiStore, identity: Seq<u8>, instruction: Instruction) -> bool {
    &&& keys.credential_of(identity, instruction.api_key@) is Some
    &&& has_passphrase(keys.credential_of(identity, instruction.api_key@)->0)
    &&& !(instruction.request is Empty)
    &&& !unknown_order_type(instruction)
    &&& planned_wire(instruction.exchange, instruction.request) is None
}

/// Whether a plan is the plan for an instruction of a caller, made with the
/// credential that the caller holds under the instruction's api key when the
/// count of calls stands at `counter`. Without a credential there is no
/// plan, nor with a credential without a passphrase, nor for an instruction
/// that asks for nothing, nor for an order of a type that the exchange does
/// not know. Otherwise the plan is the call that carries what the
/// instruction puts on the wire, with the credential and the signature in
/// its headers, or the empty answer where the instruction puts nothing on
/// the wire.
pub open spec fn planned_as(
    keys: ApiStore,
    identity: Seq<u8>,
    instruction: Instruction,
    signature: Seq<char>,
    timestamp_utc: Seq<char>,
    timestamp: u64,
    counter: u64,
    planned: Result<Planned, ExchangeErrors>,
) -> bool {
    match keys.credential_of(identity, instruction.api_key@) {
        None => planned is Err && planned->Err_0 is MissingApiKey,
        Some(record) => if !has_passphrase(record) {
            planned is Err && planned->Err_0 is MissingPassphrase
        } else if instruction.request is Empty {
            planned is Err && planned->Err_0 is EmptyRequest
        } else if unknown_order_type(instruction) {
            planned is Err && planned->Err_0 is UnsupportedOrderType
        } else {
            match planned_wire(instruction.exchange, instruction.request) {
                None => {
                    &&& planned is Ok
                    &&& planned->Ok_0 is Answer
                    &&& planned->Ok_0->Answer_0 is Instruments
                    &&& planned->Ok_0->Answer_0->Instruments_0@.len() == 0
                },
                Some(wire) => {
                    &&& planned is Ok
                    &&& planned->Ok_0 is Call
                    &&& planned->Ok_0->expects == expected_answer(
                        instruction.exchange,
                        instruction.request,
                    )
                    &&& planned->Ok_0->call.url@ == wire.url()
                    &&& planned->Ok_0->call.method == wire.method
                    &&& headers_view(planned->Ok_0->call.headers@) == call_headers(
                        wire,
                        Some(
                            credential_headers(
                                instruction.exchange,
                                instruction.api_key@,
                                passphrase_of(record),
                                signature,
                                timestamp_utc,
                                timestamp,
                            ),
                        ),
                        counter,
                    )
                    &&& planned->Ok_0->call.body is Some <==> wire.body
                    &&& planned->Ok_0->call.body is Some ==> planned->Ok_0->call.body->0@
                        == wire.body_part()
                    &&& planned->Ok_0->call.max_response_bytes is None
                },
            }
        },
    }
}

/// Plans an instruction with the credential that a caller holds under the
/// instruction's api key.
fn plan_for(
    keys: &ApiStore,
    identity: &MyPrincipal,
    client: &mut ApiClient,
    instruction: &Instruction,
    signature: &str,
    timestamp_utc: &str,
    timestamp: u64,
) -> (planned: Result<Planned, ExchangeErrors>)
    ensures
        planned_as(
            *keys,
            identity.0@,
            *instruction,
            signature@,
            timestamp_utc@,
            timestamp,
            old(client).idempotency_counter,
            planned,
        ),
        final(client).idempotency_counter == if planned is Ok && planned->Ok_0 is Call {
            counter_after(old(client).idempotency_counter)
        } else {
            old(client).idempotency_counter
        },
{
    match keys.get_by_api(identity, &instruction.api_key) {
        Some(credential) => plan_instruction(
            client,
            instruction,
            &credential,
            signature,
            timestamp_utc,
            timestamp,
        ),
        None => Err(ExchangeErrors::MissingApiKey),
    }
}

/// The record of an instruction once it has been carried out: the
/// instruction's record with the mark set.
pub open spec fn executed_record(record: (Seq<u64>, Seq<Seq<char>>)) -> (Seq<u64>, Seq<Seq<char>>) {
    (record.0.update(1, 1), record.1)
}

/// The records of the instructions of a list once they have been carried
/// out.
pub open spec fn executed_records(instructions: Seq<SignableInstruction>) -> Seq<
    (Seq<u64>, Seq<Seq<char>>),
> {
    instructions.map_values(|i: SignableInstruction| executed_record(i.record()))
}

/// Marks the first `count` instructions of a list as carried out and drops
/// the others.
fn mark_executed(instructions: &mut Vec<SignableInstruction>, count: usize)
    requires
        count <= old(instructions)@.len(),
    ensures
        records_of(final(instructions)@) == executed_records(
            old(instructions)@.take(count as int),
        ),
{
    instructions.truncate(count);
    let mut i: usize = 0;
    while i < count
        invariant
            i <= count,
            instructions@.len() == count,
            count <= old(instructions)@.len(),
            forall|j: int|
                0 <= j < i ==> (#[trigger] instructions@[j]).record() == executed_record(
                    old(instructions)@[j].record(),
                ),
            forall|j: int| i <= j < count ==> #[trigger] instructions@[j] == old(instructions)@[j],
        decreases count - i,
    {
        let ghost before = instructions@[i as int];
        instructions[i].executed = true;
        assert(instructions@[i as int].record().0 =~= executed_record(before.record()).0);
        i = i + 1;
    }
    assert(records_of(instructions@) =~= executed_records(old(instructions)@.take(count as int)));
}

impl Execution {
    /// Closes an execution in which every instruction has been carried out,
    /// and hands the answers back in the order of the instructions. Where
    /// the caller still owns the transaction, it is deleted and its
    /// instructions are stored anew as a transaction of the same caller, each
    /// with the mark that it has been carried out. Where the transaction has
    /// gone in the meantime, the store stays as it is.
    pub fn finish(
        self,
        store: &mut TransactionStore,
        identity: &MyPrincipal,
        index: TransactionId,
    ) -> (answers: Result<Vec<Response>, ExchangeErrors>)
        requires
            self.wf(),
            self.completed(),
        ensures
            match answers {
                Ok(all) => {
                    &&& all@ == self.responses()
                    &&& all@.len() == self.steps()
                    &&& if old(store).transaction_records(identity.0@, index) is Some {
                        exists|stored: TransactionId| #[trigger]
                            final(store).transaction_records(identity.0@, stored) == Some(
                                executed_records(self.instructions().take(self.steps() as int)),
                            )
                    } else {
                        &&& final(store).instruction_table() == old(store).instruction_table()
                        &&& final(store).transaction_table() == old(store).transaction_table()
                        &&& final(store).user_table() == old(store).user_table()
                    }
                },
                Err(e) => {
                    &&& e is StoreRefused
                    &&& old(store).transaction_records(identity.0@, index) is Some
                },
            },
            old(store).transaction_records(identity.0@, index) is Some ==> (answers is Ok
                <==> old(store).can_replace(
                identity.0@,
                index,
                executed_records(self.instructions().take(self.steps() as int)),
            )),
    {
        if store.get_transaction(identity, index).is_none() {
            return Ok(self.responses);
        }
        let mut done = self.instructions;
        let count = self.position;
        mark_executed(&mut done, count);
        let _ = store.delete_transaction(identity, index);
        match store.add_transaction(identity, done) {
            Some(stored) => {
                assert(final(store).transaction_records(identity.0@, stored) == Some(
                    executed_records(self.instructions().take(self.steps() as int)),
                ));
                Ok(self.responses)
            },
            None => Err(ExchangeErrors::StoreRefused),
        }
    }
}

/// The record of an instruction as it is stored when a transaction is
/// built: not yet carried out, and with the text that is to be signed for
/// it.
pub open spec fn signed_record(instruction: Instruction, text: Seq<char>) -> (
    Seq<u64>,
    Seq<Seq<char>>,
) {
    (
        seq![instruction.exchange.code() as u64, 0, instruction.request.kind()]
            + instruction.request.numbers(),
        seq![instruction.api_key@, text] + instruction.request.texts(),
    )
}

/// Whether there is a text to sign for each instruction of a list.
pub open spec fn all_signable(instructions: Seq<Instruction>) -> bool {
    forall|i: int|
        0 <= i < instructions.len() ==> signable_text(
            (#[trigger] instructions[i]).exchange,
            instructions[i].request,
        ) is Some
}

/// The records of the instructions of a list as they are stored when a
/// transaction is built.
pub open spec fn signed_records(instructions: Seq<Instruction>) -> Seq<(Seq<u64>, Seq<Seq<char>>)> {
    instructions.map_values(
        |i: Instruction| signed_record(i, signable_text(i.exchange, i.request)->0),
    )
}

/// Gives each instruction of a list the text that is to be signed for it.
/// A list with an order of a type that its exchange does not know is refused.
pub fn sign_instructions(instructions: Vec<Instruction>) -> (signed: Result<
    Vec<SignableInstruction>,
    ExchangeErrors,
>)
    ensures
        signed is Ok <==> all_signable(instructions@),
        match signed {
            Ok(all) => records_of(all@) == signed_records(instructions@),
            Err(e) => e is UnsupportedOrderType,
        },
{
    let mut signed: Vec<SignableInstruction> = Vec::new();
    let ghost all = instructions@;
    let mut rest = instructions;
    while rest.len() > 0
        invariant
            all == instructions@,
            rest@ == all.skip(signed@.len() as int),
            signed@.len() <= all.len(),
            forall|j: int|
                0 <= j < signed@.len() ==> {
                    &&& signable_text((#[trigger] all[j]).exchange, all[j].request) is Some
                    &&& signed@[j].record() == signed_record(
                        all[j],
                        signable_text(all[j].exchange, all[j].request)->0,
                    )
                },
        decreases rest@.len(),
    {
        let ghost at = signed@.len() as int;
        assert(rest@.len() == all.len() - at);
        let instruction = rest.remove(0);
        assert(instruction == all[at]);
        let adapter = ExchangeImpl::new(instruction.exchange);
        let signature = match adapter.get_signature_string(&instruction.request) {
            Ok(text) => text,
            Err(e) => {
                assert(0 <= at < all.len());
                assert(signable_text(all[at].exchange, all[at].request) is None);
                assert(!all_signable(all));
                return Err(e);
            },
        };
        let entry = SignableInstruction { instruction, signature, executed: false };
        assert(entry.record().0 =~= signed_record(all[at], signature@).0);
        assert(entry.record().1 =~= signed_record(all[at], signature@).1);
        signed.push(entry);
        assert(rest@ =~= all.skip(signed@.len() as int));
    }
    assert(records_of(signed@) =~= signed_records(all));
    Ok(signed)
}

/// Builds a transaction of a caller from a list of instructions: each
/// instruction gets the text that is to be signed for it, and the list is
/// stored under a new identifier. The identifier is handed back with the
/// transaction as it is stored.
pub fn build_transaction(
    store: &mut TransactionStore,
    identity: &MyPrincipal,
    instructions: Vec<Instruction>,
) -> (built: Result<(TransactionId, Transaction), ExchangeErrors>)
    ensures
        match built {
            Ok((id, transaction)) => {
                &&& all_signable(instructions@)
                &&& records_of(transaction.0@) == signed_records(instructions@)
                &&& final(store).transaction_records(identity.0@, id) == Some(
                    signed_records(instructions@),
                )
                &&& Some(id) == next_id_of(old(store).transaction_table(), 0)
            },
            Err(e) => {
                &&& final(store).instruction_table() == old(store).instruction_table()
                &&& final(store).transaction_table() == old(store).transaction_table()
                &&& final(store).user_table() == old(store).user_table()
                &&& e is UnsupportedOrderType <==> !all_signable(instructions@)
                &&& e is StoreRefused <==> all_signable(instructions@)
            },
        },
        built is Ok <==> {
            &&& all_signable(instructions@)
            &&& old(store).accepts_from(identity.0@, signed_records(instructions@))
        },
{
    let signed = match sign_instructions(instructions) {
        Ok(all) => all,
        Err(e) => {
            return Err(e);
        },
    };
    let ghost records = records_of(signed@);
    match store.add_transaction(identity, signed) {
        Some(id) => match store.get_transaction(identity, id) {
            Some(transaction) => Ok((id, transaction)),
            None => Err(ExchangeErrors::StoreRefused),
        },
        None => Err(ExchangeErrors::StoreRefused),
    }
}

/// The instructions that split an order between accounts: for each account
/// a market order for its share of the size, paid in cash, on the pair and
/// the side of the order. There are as many instructions as there are
/// accounts with a share.
pub fn split_instructions(keys: &Vec<ApiData>, pair: &Pair, side: OrderSide, shares: &Vec<String>) -> (split:
    Vec<Instruction>)
    ensures
        split@.len() == if keys@.len() <= shares@.len() {
            keys@.len()
        } else {
            shares@.len()
        },
        forall|i: int|
            0 <= i < split@.len() ==> {
                &&& (#[trigger] split@[i]).api_key == keys@[i].api_key
                &&& split@[i].exchange == keys@[i].exchange
                &&& split@[i].request is PostOrder
                &&& split@[i].request->PostOrder_0.instrument_id == *pair
                &&& split@[i].request->PostOrder_0.order_type == OrderType::Market
                &&& split@[i].request->PostOrder_0.side == side
                &&& split@[i].request->PostOrder_0.size == shares@[i]
                &&& split@[i].request->PostOrder_0.trade_mode == TradeMode::Cash
                &&& split@[i].request->PostOrder_0.margin_currency is None
                &&& split@[i].request->PostOrder_0.order_price is None
                &&& split@[i].request->PostOrder_0.position_side is None
            },
{
    let count = if keys.len() <= shares.len() {
        keys.len()
    } else {
        shares.len()
    };
    let mut split: Vec<Instruction> = Vec::new();
    let mut i: usize = 0;
    while i < count
        invariant
            i <= count,
            count <= keys@.len(),
            count <= shares@.len(),
            split@.len() == i,
            forall|j: int|
                0 <= j < i ==> {
                    &&& (#[trigger] split@[j]).api_key == keys@[j].api_key
                    &&& split@[j].exchange == keys@[j].exchange
                    &&& split@[j].request is PostOrder
                    &&& split@[j].request->PostOrder_0.instrument_id == *pair
                    &&& split@[j].request->PostOrder_0.order_type == OrderType::Market
                    &&& split@[j].request->PostOrder_0.side == side
                    &&& split@[j].request->PostOrder_0.size == shares@[j]
                    &&& split@[j].request->PostOrder_0.trade_mode == TradeMode::Cash
                    &&& split@[j].request->PostOrder_0.margin_currency is None
                    &&& split@[j].request->PostOrder_0.order_price is None
                    &&& split@[j].request->PostOrder_0.position_side is None
                },
        decreases count - i,
    {
        split.push(
            Instruction {
                api_key: keys[i].api_key.clone(),
                exchange: keys[i].exchange,
                request: Request::PostOrder(
                    GeneralPostOrderRequest {
                        instrument_id: pair.clone(),
                        order_type: OrderType::Market,
                        side,
                        size: shares[i].clone(),
                        trade_mode: TradeMode::Cash,
                        margin_currency: None,
                        order_price: None,
                        position_side: None,
                    },
                ),
            },
        );
        i = i + 1;
    }
    split
}

} // verus!
