use vstd::prelude::*;
use crate::remote_exchanges::request::{
    GeneralBalanceRequest, GeneralInstrumentsRequest, GeneralOrdersListRequest,
    GeneralPostOrderRequest,
};
use crate::remote_exchanges::response::{Balance, Instrument, Order, OrderData};

verus! {

/// What an instruction asks of an exchange.
#[derive(Debug)]
pub enum Request {
    Empty,
    Instruments(GeneralInstrumentsRequest),
    Balances(GeneralBalanceRequest),
    PostOrder(GeneralPostOrderRequest),
    OrdersList(GeneralOrdersListRequest),
}

/// What an exchange answered to an instruction.
#[derive(Debug)]
pub enum Response {
    Instruments(Vec<Instrument>),
    Balances(Vec<Balance>),
    Order(OrderData),
    OrdersInfo(Vec<Order>),
}

} // verus!
