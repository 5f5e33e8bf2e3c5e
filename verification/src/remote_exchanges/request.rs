use vstd::prelude::*;
use crate::pair::Pair;
use crate::remote_exchanges::okx::api::InstrumentType;
use crate::text::{concat, same_text};

verus! {

/// Which side of the book an order stands on.
#[derive(Clone, Copy, Debug, PartialEq, Eq, Structural)]
pub enum OrderSide {
    Buy,
    Sell,
}

impl OrderSide {
    /// The number a value is stored as.
    pub open spec fn code(self) -> u64 {
        match self {
            OrderSide::Buy => 0,
            OrderSide::Sell => 1,
        }
    }

    pub fn to_code(self) -> (code: u64)
        ensures
            code == self.code(),
    {
        match self {
            OrderSide::Buy => 0,
            OrderSide::Sell => 1,
        }
    }

    /// The value a number stands for, if it stands for one.
    pub fn from_code(code: u64) -> (value: Option<OrderSide>)
        ensures
            match value {
                Some(v) => v.code() == code,
                None => code >= 2,
            },
    {
        if code == 0 {
            Some(OrderSide::Buy)
        } else if code == 1 {
            Some(OrderSide::Sell)
        } else {
            None
        }
    }

    /// The word the exchanges use for the side.
    pub open spec fn token(self) -> Seq<char> {
        match self {
            OrderSide::Buy => "buy"@,
            OrderSide::Sell => "sell"@,
        }
    }

    pub fn as_str(&self) -> (word: &'static str)
        ensures
            word@ == self.token(),
    {
        match self {
            OrderSide::Buy => "buy",
            OrderSide::Sell => "sell",
        }
    }

    pub fn to_string(&self) -> (word: String)
        ensures
            word@ == self.token(),
    {
        String::from_str(self.as_str())
    }

    /// Reads a side from its word. Any other text is refused, with a message
    /// that repeats it.
    pub fn from_str(s: &str) -> (parsed: Result<OrderSide, String>)
        ensures
            match parsed {
                Ok(side) => s@ == side.token(),
                Err(message) => {
                    &&& message@ == "Unknown order side: "@ + s@
                    &&& forall|side: OrderSide| s@ != side.token()
                },
            },
    {
        if same_text(s, "buy") {
            Ok(OrderSide::Buy)
        } else if same_text(s, "sell") {
            Ok(OrderSide::Sell)
        } else {
            Err(concat("Unknown order side: ", s))
        }
    }
}

/// Which side of a position an order opens or closes.
#[derive(Clone, Copy, Debug, PartialEq, Eq, Structural)]
pub enum PositionSide {
    Short,
    Long,
}

impl PositionSide {
    /// The number a value is stored as.
    pub open spec fn code(self) -> u64 {
        match self {
            PositionSide::Short => 0,
            PositionSide::Long => 1,
        }
    }

    pub fn to_code(self) -> (code: u64)
        ensures
            code == self.code(),
    {
        match self {
            PositionSide::Short => 0,
            PositionSide::Long => 1,
        }
    }

    /// The value a number stands for, if it stands for one.
    pub fn from_code(code: u64) -> (value: Option<PositionSide>)
        ensures
            match value {
                Some(v) => v.code() == code,
                None => code >= 2,
            },
    {
        if code == 0 {
            Some(PositionSide::Short)
        } else if code == 1 {
            Some(PositionSide::Long)
        } else {
            None
        }
    }
}

/// How an order is funded.
#[derive(Clone, Copy, Debug, PartialEq, Eq, Structural)]
pub enum TradeMode {
    Cross,
    Isolated,
    Cash,
    SpotIsolated,
}

impl TradeMode {
    /// The number a value is stored as.
    pub open spec fn code(self) -> u64 {
        match self {
            TradeMode::Cross => 0,
            TradeMode::Isolated => 1,
            TradeMode::Cash => 2,
            TradeMode::SpotIsolated => 3,
        }
    }

    pub fn to_code(self) -> (code: u64)
        ensures
            code == self.code(),
    {
        match self {
            TradeMode::Cross => 0,
            TradeMode::Isolated => 1,
            TradeMode::Cash => 2,
            TradeMode::SpotIsolated => 3,
        }
    }

    /// The value a number stands for, if it stands for one.
    pub fn from_code(code: u64) -> (value: Option<TradeMode>)
        ensures
            match value {
                Some(v) => v.code() == code,
                None => code >= 4,
            },
    {
        if code == 0 {
            Some(TradeMode::Cross)
        } else if code == 1 {
            Some(TradeMode::Isolated)
        } else if code == 2 {
            Some(TradeMode::Cash)
        } else if code == 3 {
            Some(TradeMode::SpotIsolated)
        } else {
            None
        }
    }

    pub open spec fn token(self) -> Seq<char> {
        match self {
            TradeMode::Cross => "cross"@,
            TradeMode::Isolated => "isolated"@,
            TradeMode::Cash => "cash"@,
            TradeMode::SpotIsolated => "spot_isolated"@,
        }
    }

    pub fn as_str(&self) -> (word: &'static str)
        ensures
            word@ == self.token(),
    {
        match self {
            TradeMode::Cross => "cross",
            TradeMode::Isolated => "isolated",
            TradeMode::Cash => "cash",
            TradeMode::SpotIsolated => "spot_isolated",
        }
    }

    pub fn to_string(&self) -> (word: String)
        ensures
            word@ == self.token(),
    {
        String::from_str(self.as_str())
    }

    pub fn from_str(s: &str) -> (parsed: Result<TradeMode, String>)
        ensures
            match parsed {
                Ok(mode) => s@ == mode.token(),
                Err(message) => {
                    &&& message@ == "Unknown trade mode: "@ + s@
                    &&& forall|mode: TradeMode| s@ != mode.token()
                },
            },
    {
        if same_text(s, "cross") {
            Ok(TradeMode::Cross)
        } else if same_text(s, "isolated") {
            Ok(TradeMode::Isolated)
        } else if same_text(s, "cash") {
            Ok(TradeMode::Cash)
        } else if same_text(s, "spot_isolated") {
            Ok(TradeMode::SpotIsolated)
        } else {
            Err(concat("Unknown trade mode: ", s))
        }
    }
}

/// How an order meets the book.
#[derive(Clone, Copy, Debug, PartialEq, Eq, Structural)]
pub enum OrderType {
    Market,
    Limit,
    PostOnly,
    Fok,
    Ioc,
}

impl OrderType {
    /// The number a value is stored as.
    pub open spec fn code(self) -> u64 {
        match self {
            OrderType::Market => 0,
            OrderType::Limit => 1,
            OrderType::PostOnly => 2,
            OrderType::Fok => 3,
            OrderType::Ioc => 4,
        }
    }

    pub fn to_code(self) -> (code: u64)
        ensures
            code == self.code(),
    {
        match self {
            OrderType::Market => 0,
            OrderType::Limit => 1,
            OrderType::PostOnly => 2,
            OrderType::Fok => 3,
            OrderType::Ioc => 4,
        }
    }

    /// The value a number stands for, if it stands for one.
    pub fn from_code(code: u64) -> (value: Option<OrderType>)
        ensures
            match value {
                Some(v) => v.code() == code,
                None => code >= 5,
            },
    {
        if code == 0 {
            Some(OrderType::Market)
        } else if code == 1 {
            Some(OrderType::Limit)
        } else if code == 2 {
            Some(OrderType::PostOnly)
        } else if code == 3 {
            Some(OrderType::Fok)
        } else if code == 4 {
            Some(OrderType::Ioc)
        } else {
            None
        }
    }

    pub open spec fn token(self) -> Seq<char> {
        match self {
            OrderType::Market => "market"@,
            OrderType::Limit => "limit"@,
            OrderType::PostOnly => "post_only"@,
            OrderType::Fok => "fok"@,
            OrderType::Ioc => "ioc"@,
        }
    }

    pub fn as_str(&self) -> (word: &'static str)
        ensures
            word@ == self.token(),
    {
        match self {
            OrderType::Market => "market",
            OrderType::Limit => "limit",
            OrderType::PostOnly => "post_only",
            OrderType::Fok => "fok",
            OrderType::Ioc => "ioc",
        }
    }

    pub fn to_string(&self) -> (word: String)
        ensures
            word@ == self.token(),
    {
        String::from_str(self.as_str())
    }

    pub fn from_str(s: &str) -> (parsed: Result<OrderType, String>)
        ensures
            match parsed {
                Ok(kind) => s@ == kind.token(),
                Err(message) => {
                    &&& message@ == "Unknown order type: "@ + s@
                    &&& forall|kind: OrderType| s@ != kind.token()
                },
            },
    {
        if same_text(s, "market") {
            Ok(OrderType::Market)
        } else if same_text(s, "limit") {
            Ok(OrderType::Limit)
        } else if same_text(s, "post_only") {
            Ok(OrderType::PostOnly)
        } else if same_text(s, "fok") {
            Ok(OrderType::Fok)
        } else if same_text(s, "ioc") {
            Ok(OrderType::Ioc)
        } else {
            Err(concat("Unknown order type: ", s))
        }
    }
}

/// An order to place, in terms that every exchange understands. Size and
/// price are carried as the decimal text that goes on the wire.
#[derive(Debug)]
pub struct GeneralPostOrderRequest {
    pub instrument_id: Pair,
    pub trade_mode: TradeMode,
    pub side: OrderSide,
    pub margin_currency: Option<String>,
    pub position_side: Option<PositionSide>,
    pub order_type: OrderType,
    pub size: String,
    pub order_price: Option<String>,
}

/// A question about the instruments of one kind, or about one of them.
#[derive(Debug)]
pub struct GeneralInstrumentsRequest {
    pub instrument_type: InstrumentType,
    pub instrument_id: Option<Pair>,
}

/// A question about balances, of all currencies or of those listed.
#[derive(Debug)]
pub struct GeneralBalanceRequest {
    pub currency: Option<Vec<String>>,
}

/// A question about the orders on one instrument: those still open when
/// `pending` is set, those finished otherwise.
#[derive(Debug)]
pub struct GeneralOrdersListRequest {
    pub instrument_type: InstrumentType,
    pub instrument_id: Pair,
    pub pending: bool,
}

} // verus!
