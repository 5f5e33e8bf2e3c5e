use trendlens_backend::exchange::Exchange;
use trendlens_backend::pair::Pair;
use trendlens_backend::remote_exchanges::okx::api::InstrumentType;
use trendlens_backend::remote_exchanges::request::{
    GeneralBalanceRequest, GeneralInstrumentsRequest, GeneralOrdersListRequest,
    GeneralPostOrderRequest, OrderSide, OrderType, PositionSide, TradeMode,
};
use trendlens_backend::request_store::request::Request;
use trendlens_backend::request_store::{
    Instruction, MyPrincipal, SignableInstruction, TransactionStore,
};
use trendlens_backend::storage::{Memories, Record};

fn pair() -> Pair {
    Pair {
        base: "BTC".to_string(),
        quote: "USD".to_string(),
    }
}

fn order() -> SignableInstruction {
    SignableInstruction {
        instruction: Instruction {
            exchange: Exchange::Coinbase,
            api_key: "key-1".to_string(),
            request: Request::PostOrder(GeneralPostOrderRequest {
                instrument_id: pair(),
                trade_mode: TradeMode::Cash,
                side: OrderSide::Sell,
                margin_currency: None,
                position_side: Some(PositionSide::Long),
                order_type: OrderType::Market,
                size: "0.5".to_string(),
                order_price: Some("100".to_string()),
            }),
        },
        signature: "POST/orders".to_string(),
        executed: false,
    }
}

fn balances() -> SignableInstruction {
    SignableInstruction {
        instruction: Instruction {
            exchange: Exchange::Okx,
            api_key: "key-2".to_string(),
            request: Request::Balances(GeneralBalanceRequest {
                currency: Some(vec!["BTC".to_string(), "ETH".to_string()]),
            }),
        },
        signature: "GET/api/v5/account/balance?ccy=BTC%2CETH".to_string(),
        executed: true,
    }
}

fn same(a: &SignableInstruction, b: &SignableInstruction) -> bool {
    format!("{:?}", a) == format!("{:?}", b)
}

#[test]
fn instruction_survives_its_record() {
    let all = vec![
        order(),
        balances(),
        SignableInstruction {
            instruction: Instruction {
                exchange: Exchange::Okx,
                api_key: "k".to_string(),
                request: Request::Empty,
            },
            signature: "".to_string(),
            executed: false,
        },
        SignableInstruction {
            instruction: Instruction {
                exchange: Exchange::Okx,
                api_key: "k".to_string(),
                request: Request::Instruments(GeneralInstrumentsRequest {
                    instrument_type: InstrumentType::Swap,
                    instrument_id: Some(pair()),
                }),
            },
            signature: "s".to_string(),
            executed: false,
        },
        SignableInstruction {
            instruction: Instruction {
                exchange: Exchange::Coinbase,
                api_key: "k".to_string(),
                request: Request::OrdersList(GeneralOrdersListRequest {
                    instrument_type: InstrumentType::Spot,
                    instrument_id: pair(),
                    pending: true,
                }),
            },
            signature: "s".to_string(),
            executed: true,
        },
    ];
    for instruction in all.iter() {
        let bytes = instruction.to_record().to_bytes();
        let record = Record::from_bytes(&bytes).unwrap();
        let read = SignableInstruction::from_record(&record).unwrap();
        assert!(same(instruction, &read));
    }
}

#[test]
fn record_of_no_instruction_is_refused() {
    let record = Record {
        numbers: vec![0, 0, 9],
        texts: vec!["k".to_string(), "s".to_string()],
    };
    assert!(SignableInstruction::from_record(&record).is_none());
    let record = Record {
        numbers: vec![2, 0, 0],
        texts: vec!["k".to_string(), "s".to_string()],
    };
    assert!(SignableInstruction::from_record(&record).is_none());
    assert!(Record::from_bytes(&vec![1, 2, 3]).is_none());
}

#[test]
fn added_transaction_is_found_by_its_owner() {
    let mut memories = Memories::new();
    let mut store = TransactionStore::new(&mut memories).unwrap();
    let owner = MyPrincipal(vec![1, 2, 3]);
    let stranger = MyPrincipal(vec![4]);

    let first = store.add_transaction(&owner, vec![order(), balances()]);
    assert_eq!(first, Some(0));
    let second = store.add_transaction(&owner, vec![balances()]);
    assert_eq!(second, Some(1));

    let found = store.get_transaction(&owner, 0).unwrap();
    assert_eq!(found.0.len(), 2);
    assert!(same(&found.0[0], &order()));
    assert!(same(&found.0[1], &balances()));
    assert!(store.get_transaction(&stranger, 0).is_none());
    assert!(store.get_transaction(&owner, 7).is_none());

    let listed = store.get_transactions(&owner).unwrap();
    assert_eq!(listed.len(), 2);
    assert_eq!(listed[0].0, 0);
    assert_eq!(listed[1].0, 1);
    assert_eq!(listed[1].1 .0.len(), 1);
    assert!(store.get_transactions(&stranger).is_none());
}

#[test]
fn instruction_ids_follow_one_another() {
    let mut memories = Memories::new();
    let mut store = TransactionStore::new(&mut memories).unwrap();
    assert_eq!(store.insert_instruction(&order()), Some(0));
    assert_eq!(store.insert_instruction(&balances()), Some(1));
    assert_eq!(store.insert_transaction(&vec![order(), order()]), Some(0));
    assert_eq!(store.insert_instruction(&balances()), Some(4));
}

#[test]
fn deleted_transaction_is_not_found() {
    let mut memories = Memories::new();
    let mut store = TransactionStore::new(&mut memories).unwrap();
    let owner = MyPrincipal(vec![9; 29]);

    let kept = store.add_transaction(&owner, vec![balances()]).unwrap();
    let gone = store.add_transaction(&owner, vec![order(), balances()]).unwrap();

    let removed = store.delete_transaction(&owner, gone).unwrap();
    assert_eq!(removed.len(), 2);
    assert!(same(&removed[0], &order()));
    assert!(same(&removed[1], &balances()));

    assert!(store.get_transaction(&owner, gone).is_none());
    assert!(store.get_transaction(&owner, kept).is_some());
    let listed = store.get_transactions(&owner).unwrap();
    assert_eq!(listed.len(), 1);
    assert_eq!(listed[0].0, kept);

    // the instructions are gone from their table: their identifiers are free
    // again once the last of them has left
    assert_eq!(store.insert_instruction(&order()), Some(1));

    // deleting once more finds nothing to hand back
    assert!(store.delete_transaction(&owner, gone).is_none());
}
