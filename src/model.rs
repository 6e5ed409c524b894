//! The records the order engine reads and writes: products, accounts,
//! portfolios, orders and the order form a client submits.
use crate::text::{chars_of, same_chars};
use vstd::prelude::*;
use vstd::string::*;

verus! {

/// Shares in one lot.
pub const LOT_SIZE: u64 = 100;

/// Largest mantissa magnitude of a decimal: 96 bits.
pub const MAX_MANTISSA: i128 = 0xffff_ffff_ffff_ffff_ffff_ffff;

/// Largest number of fractional digits of a decimal.
pub const MAX_SCALE: u32 = 28;

/// A decimal number as plain values: `mantissa / 10^scale`, with the bounds
/// of rust_decimal's `Decimal`.
#[derive(PartialEq, Eq, Structural, Debug, Clone, Copy)]
pub struct Dec {
    pub mantissa: i128,
    pub scale: u32,
}

impl Dec {
    pub open spec fn wf(self) -> bool {
        -MAX_MANTISSA <= self.mantissa <= MAX_MANTISSA && self.scale <= MAX_SCALE
    }

    /// The decimal of an integer.
    pub fn from_int(v: i64) -> (r: Dec)
        ensures
            r.mantissa == v,
            r.scale == 0,
            r.wf(),
    {
        Dec { mantissa: v as i128, scale: 0 }
    }

    pub fn is_valid(&self) -> (r: bool)
        ensures
            r == self.wf(),
    {
        -MAX_MANTISSA <= self.mantissa && self.mantissa <= MAX_MANTISSA && self.scale <= MAX_SCALE
    }
}

#[derive(PartialEq, Eq, Structural, Debug, Clone, Copy)]
pub enum OrderError {
    Serde,
    Redis,
    Database,
    BadRequest,
    NotEnoughFunds,
}

pub open spec fn order_error_message(e: OrderError) -> Seq<char> {
    match e {
        OrderError::Serde => "Serde error"@,
        OrderError::Redis => "Redis error"@,
        OrderError::Database => "Query error"@,
        OrderError::BadRequest => "Request body error"@,
        OrderError::NotEnoughFunds => "Not enough funds"@,
    }
}

impl OrderError {
    pub fn message(&self) -> (r: String)
        ensures
            r@ == order_error_message(*self),
    {
        match self {
            OrderError::Serde => String::from_str("Serde error"),
            OrderError::Redis => String::from_str("Redis error"),
            OrderError::Database => String::from_str("Query error"),
            OrderError::BadRequest => String::from_str("Request body error"),
            OrderError::NotEnoughFunds => String::from_str("Not enough funds"),
        }
    }
}

/// Reference data of a traded symbol.
pub struct Product {
    pub product_id: i32,
    pub name: String,
    pub symbol: String,
}

/// A user's cash account as created at onboarding.
pub struct Account {
    pub account_id: Option<i32>,
    pub user_id: i32,
    pub balance: i64,
    pub invested_value: i64,
}

impl Account {
    pub fn new(user_id: i32) -> (r: Account)
        ensures
            r.account_id is None,
            r.user_id == user_id,
            r.balance == 0,
            r.invested_value == 0,
    {
        Account { account_id: None, user_id, balance: 0, invested_value: 0 }
    }
}

/// A snapshot of an account, as read from the store or the cache.
#[derive(PartialEq, Eq, Structural, Debug, Clone, Copy)]
pub struct GetAccount {
    pub account_id: i32,
    pub balance: i64,
    pub invested_value: i64,
}

impl GetAccount {
    pub fn new(balance: i64, invested_value: i64, account_id: i32) -> (r: GetAccount)
        ensures
            r.account_id == account_id,
            r.balance == balance,
            r.invested_value == invested_value,
    {
        GetAccount { account_id, balance, invested_value }
    }
}

/// A new portfolio row, for a user's first buy of a symbol.
pub struct Portfolio {
    pub portfolio_id: Option<i32>,
    pub user_id: i32,
    pub product_id: i32,
    pub product_name: String,
    pub product_symbol: String,
    pub lot: i32,
    pub invested_value: i64,
    pub avg_price: Dec,
}

impl Portfolio {
    pub fn new(
        user_id: i32,
        product_id: i32,
        product_name: String,
        product_symbol: String,
        lot: i32,
        invested_value: i64,
        avg_price: Dec,
    ) -> (r: Portfolio)
        ensures
            r.portfolio_id is None,
            r.user_id == user_id,
            r.product_id == product_id,
            r.product_name@ == product_name@,
            r.product_symbol@ == product_symbol@,
            r.lot == lot,
            r.invested_value == invested_value,
            r.avg_price == avg_price,
    {
        Portfolio {
            portfolio_id: None,
            user_id,
            product_id,
            product_name,
            product_symbol,
            lot,
            invested_value,
            avg_price,
        }
    }
}

/// The mutable part of an existing portfolio row.
pub struct GetPortfolio {
    pub portfolio_id: i32,
    pub lot: i32,
    pub invested_value: i64,
    pub avg_price: Dec,
}

impl GetPortfolio {
    pub fn new(portfolio_id: i32, lot: i32, invested_value: i64, avg_price: Dec) -> (r: GetPortfolio)
        ensures
            r.portfolio_id == portfolio_id,
            r.lot == lot,
            r.invested_value == invested_value,
            r.avg_price == avg_price,
    {
        GetPortfolio { portfolio_id, lot, invested_value, avg_price }
    }
}

/// Time in force of an order.
#[derive(PartialEq, Eq, Structural, Debug, Clone, Copy)]
pub enum Expiry {
    GTC,
    GFD,
}

pub open spec fn expiry_of(s: Seq<char>) -> Option<Expiry> {
    if s == "GTC"@ {
        Some(Expiry::GTC)
    } else if s == "GFD"@ {
        Some(Expiry::GFD)
    } else {
        None
    }
}

pub open spec fn expiry_name(e: Expiry) -> Seq<char> {
    match e {
        Expiry::GTC => "GTC"@,
        Expiry::GFD => "GFD"@,
    }
}

impl Expiry {
    /// Reads `GTC` or `GFD`; any other text is a bad request.
    pub fn try_from(value: &str) -> (r: Result<Expiry, OrderError>)
        ensures
            match expiry_of(value@) {
                Some(e) => r == Ok::<Expiry, OrderError>(e),
                None => r == Err::<Expiry, OrderError>(OrderError::BadRequest),
            },
    {
        let v = chars_of(value);
        if same_chars(&v, "GTC") {
            Ok(Expiry::GTC)
        } else if same_chars(&v, "GFD") {
            Ok(Expiry::GFD)
        } else {
            Err(OrderError::BadRequest)
        }
    }

    pub fn to_string(&self) -> (r: String)
        ensures
            r@ == expiry_name(*self),
    {
        match self {
            Expiry::GTC => String::from_str("GTC"),
            Expiry::GFD => String::from_str("GFD"),
        }
    }
}

/// An order as a client submits it.
pub struct OrderForm {
    pub symbol: String,
    pub side: char,
    pub price: u32,
    pub lot: u32,
    pub expiry: String,
}

/// An order submitted over plain HTTP, naming its user.
pub struct OrderFormServer {
    pub symbol: String,
    pub side: char,
    pub price: u32,
    pub lot: u32,
    pub expiry: String,
    pub user_id: u32,
}

impl OrderFormServer {
    /// The order itself, without the user the body names: an order is
    /// placed for the verified subject of its token.
    pub fn into_form(self) -> (r: OrderForm)
        ensures
            r.symbol == self.symbol,
            r.side == self.side,
            r.price == self.price,
            r.lot == self.lot,
            r.expiry == self.expiry,
    {
        OrderForm {
            symbol: self.symbol,
            side: self.side,
            price: self.price,
            lot: self.lot,
            expiry: self.expiry,
        }
    }
}

/// Cash cost of an order: `price × lot × LOT_SIZE`.
pub open spec fn notional(price: u32, lot: u32) -> int {
    price as int * lot as int * LOT_SIZE as int
}

/// A row of the order ledger. `created_at` counts microseconds since the
/// Unix epoch, in UTC.
pub struct Order {
    pub order_id: Option<i32>,
    pub product_symbol: String,
    pub product_name: String,
    pub side: char,
    pub price: i32,
    pub lot: i32,
    pub expiry: Expiry,
    pub created_at: i64,
    pub user_id: i32,
    pub product_id: i32,
}

impl Order {
    /// Builds the ledger row of a form. A price or lot beyond `i32` or an
    /// unknown expiry is a bad request.
    pub fn new(
        order_form: &OrderForm,
        user_id: i32,
        product_id: i32,
        product_name: &str,
        created_at: i64,
    ) -> (r: Result<Order, OrderError>)
        ensures
            r is Ok <==> (expiry_of(order_form.expiry@) is Some && order_form.price <= i32::MAX
                && order_form.lot <= i32::MAX),
            r is Err ==> r == Err::<Order, OrderError>(OrderError::BadRequest),
            r matches Ok(o) ==> {
                &&& o.order_id is None
                &&& o.product_symbol@ == order_form.symbol@
                &&& o.product_name@ == product_name@
                &&& o.side == order_form.side
                &&& o.price == order_form.price
                &&& o.lot == order_form.lot
                &&& expiry_of(order_form.expiry@) == Some(o.expiry)
                &&& o.created_at == created_at
                &&& o.user_id == user_id
                &&& o.product_id == product_id
            },
    {
        let expiry = Expiry::try_from(order_form.expiry.as_str())?;
        if order_form.price > i32::MAX as u32 || order_form.lot > i32::MAX as u32 {
            return Err(OrderError::BadRequest);
        }
        Ok(
            Order {
                order_id: None,
                product_symbol: order_form.symbol.clone(),
                product_name: String::from_str(product_name),
                side: order_form.side,
                price: order_form.price as i32,
                lot: order_form.lot as i32,
                expiry,
                created_at,
                user_id,
                product_id,
            },
        )
    }
}

} // verus!
