//! The order flow as a state machine. Each step takes what the cache or the
//! store answered and says what to do next; the caller performs the action
//! and feeds back the answer. The steps follow the engine's order: product
//! lookup, order construction, account lookup, portfolio probe, portfolio
//! write, ledger insert, account debit, and a write-through of the debited
//! account to the cache.
use crate::engine::{buy_refusal, held, new_average, plan_buy, BuyPlan, PortfolioWrite};
use crate::model::{
    expiry_of, Dec, GetAccount, GetPortfolio, Order, OrderError, OrderForm, Portfolio, Product,
};
use crate::text::{chars_of, push_char};
use vstd::prelude::*;
use vstd::string::*;

verus! {

/// Decimal digits of `n`.
pub open spec fn nat_text(n: nat) -> Seq<char>
    decreases n,
{
    if n < 10 {
        seq!["0123456789"@[n as int]]
    } else {
        nat_text(n / 10).push("0123456789"@[(n % 10) as int])
    }
}

/// Decimal text of `n`, with a leading `-` when negative.
pub open spec fn int_text(n: int) -> Seq<char> {
    if n < 0 {
        seq!['-'] + nat_text((-n) as nat)
    } else {
        nat_text(n as nat)
    }
}

fn push_digits(s: &mut String, n: u64)
    ensures
        final(s)@ == old(s)@ + nat_text(n as nat),
    decreases n,
{
    let digits = chars_of("0123456789");
    proof {
        reveal_strlit("0123456789");
    }
    if n < 10 {
        push_char(s, digits[n as usize]);
    } else {
        push_digits(s, n / 10);
        push_char(s, digits[(n % 10) as usize]);
    }
}

/// The decimal text of an integer.
pub fn int_to_text(n: i64) -> (r: String)
    ensures
        r@ == int_text(n as int),
{
    let mut s = String::new();
    if n < 0 {
        push_char(&mut s, '-');
        let m: u64 = if n == i64::MIN {
            0x8000_0000_0000_0000
        } else {
            (-n) as u64
        };
        push_digits(&mut s, m);
    } else {
        push_digits(&mut s, n as u64);
    }
    s
}

/// Cache key of a product.
pub open spec fn product_key(symbol: Seq<char>) -> Seq<char> {
    "product:"@ + symbol
}

/// Cache key of an account.
pub open spec fn account_key(user_id: i32) -> Seq<char> {
    "account:"@ + int_text(user_id as int)
}

/// The success envelope of an order: its identifier as the message.
pub open spec fn ok_reply(order_id: i32) -> Seq<char> {
    "{\"status\":\"ok\",\"message\":\""@ + int_text(order_id as int) + "\"}"@
}

pub fn product_cache_key(symbol: &str) -> (r: String)
    ensures
        r@ == product_key(symbol@),
{
    String::from_str("product:").concat(symbol)
}

pub fn account_cache_key(user_id: i32) -> (r: String)
    ensures
        r@ == account_key(user_id),
{
    String::from_str("account:").concat(int_to_text(user_id as i64).as_str())
}

pub fn order_reply(order_id: i32) -> (r: String)
    ensures
        r@ == ok_reply(order_id),
{
    let s = String::from_str("{\"status\":\"ok\",\"message\":\"").concat(
        int_to_text(order_id as i64).as_str(),
    );
    s.concat("\"}")
}

fn copy_product(p: &Product) -> (r: Product)
    ensures
        r == *p,
{
    Product { product_id: p.product_id, name: p.name.clone(), symbol: p.symbol.clone() }
}

/// `o` is the ledger row of `form`, placed by `user_id` at `created_at` for
/// product `p`.
pub open spec fn order_matches(o: Order, form: OrderForm, user_id: i32, p: Product, created_at: i64) -> bool {
    &&& o.order_id is None
    &&& o.product_symbol@ == form.symbol@
    &&& o.product_name@ == p.name@
    &&& o.side == form.side
    &&& o.price == form.price
    &&& o.lot == form.lot
    &&& expiry_of(form.expiry@) == Some(o.expiry)
    &&& o.created_at == created_at
    &&& o.user_id == user_id
    &&& o.product_id == p.product_id
}

#[derive(PartialEq, Eq, Structural, Debug, Clone, Copy)]
pub enum Phase {
    ProductCache,
    ProductStore,
    ProductCacheWrite,
    AccountCache,
    AccountStore,
    AccountCacheWrite,
    PortfolioProbe,
    PortfolioSave,
    LedgerSave,
    AccountSave,
    AccountRefresh,
    Finished,
}

/// What the cache or the store answered to the last action.
pub enum Event {
    /// The cache answered a product lookup; `None` on a miss.
    ProductCached(Option<Product>),
    /// The cache answered an account lookup; `None` on a miss.
    AccountCached(Option<GetAccount>),
    /// The cache could not be reached.
    CacheFailed,
    /// A cache write was attempted; its outcome does not matter.
    CacheWritten,
    ProductLoaded(Product),
    AccountLoaded(GetAccount),
    PortfolioFound(GetPortfolio),
    PortfolioMissing,
    PortfolioSaved,
    OrderSaved(i32),
    AccountSaved,
    /// The store failed the last operation.
    StoreFailed,
}

/// What to do next.
pub enum Action {
    GetCachedProduct(String),
    LoadProduct(String),
    CacheProduct(String, Product),
    GetCachedAccount(String),
    LoadAccount(i32),
    CacheAccount(String, GetAccount),
    FindPortfolio(String, i32),
    UpdatePortfolio(GetPortfolio),
    InsertPortfolio(Portfolio),
    InsertOrder(Order),
    UpdateAccount(GetAccount),
    /// The order is done; send this envelope.
    Reply(String),
    /// The order failed; nothing further is written.
    Fail(OrderError),
}

pub struct OrderFlow {
    pub form: OrderForm,
    pub user_id: i32,
    pub created_at: i64,
    pub phase: Phase,
    pub product: Option<Product>,
    pub order: Option<Order>,
    pub account: Option<GetAccount>,
    pub debited: Option<GetAccount>,
    pub order_id: i32,
}

/// What the step after the portfolio probe does with the probed row
/// `existing`: refuse the buy, or ask for the row's write with the average
/// price of the buy and remember the debited account.
pub open spec fn probe_outcome(before: OrderFlow, existing: Option<GetPortfolio>, after: OrderFlow, a: Action) -> bool {
    let form = before.form;
    let acc = before.account->0;
    let n = crate::model::notional(form.price, form.lot);
    match buy_refusal(&form, acc, held(&existing)) {
        Some(e) => after.phase == Phase::Finished && a == Action::Fail(e),
        None => match existing {
            Some(p) => {
                let avg = new_average(form.price, form.lot, p.avg_price, p.lot, (p.lot + form.lot) as i32);
                if avg is None {
                    after.phase == Phase::Finished && a == Action::Fail(OrderError::BadRequest)
                } else {
                    &&& after.phase == Phase::PortfolioSave
                    &&& after.debited == Some(
                        GetAccount {
                            account_id: acc.account_id,
                            balance: (acc.balance - n) as i64,
                            invested_value: (acc.invested_value + n) as i64,
                        },
                    )
                    &&& a matches Action::UpdatePortfolio(u)
                    &&& u.portfolio_id == p.portfolio_id
                    &&& u.lot == p.lot + form.lot
                    &&& u.invested_value == p.invested_value + n
                    &&& avg == Some((u.avg_price.mantissa as int, u.avg_price.scale as nat))
                }
            },
            None => {
                &&& after.phase == Phase::PortfolioSave
                &&& after.debited == Some(
                    GetAccount {
                        account_id: acc.account_id,
                        balance: (acc.balance - n) as i64,
                        invested_value: (acc.invested_value + n) as i64,
                    },
                )
                &&& a matches Action::InsertPortfolio(q)
                &&& q.user_id == before.user_id
                &&& q.lot == form.lot
                &&& q.invested_value == n
                &&& q.avg_price == Dec { mantissa: form.price as i128, scale: 0 }
                &&& q.product_id == before.product->0.product_id
                &&& q.product_name@ == before.product->0.name@
                &&& q.product_symbol@ == before.product->0.symbol@
            },
        },
    }
}

impl OrderFlow {
    /// What each phase has gathered so far.
    pub open spec fn wf(&self) -> bool {
        let p = self.phase;
        &&& (p == Phase::ProductCacheWrite || p == Phase::AccountCache || p == Phase::AccountStore
            || p == Phase::AccountCacheWrite || p == Phase::PortfolioProbe) ==> self.product is Some
        &&& (p == Phase::AccountCache || p == Phase::AccountStore || p == Phase::AccountCacheWrite
            || p == Phase::PortfolioProbe || p == Phase::PortfolioSave) ==> self.order is Some
        &&& (p == Phase::AccountCacheWrite || p == Phase::PortfolioProbe) ==> self.account is Some
        &&& (p == Phase::PortfolioSave || p == Phase::LedgerSave || p == Phase::AccountSave || p
            == Phase::AccountRefresh) ==> self.debited is Some
    }

    /// Starts the flow for an order of `user_id`, made at `created_at`
    /// (microseconds since the Unix epoch): the first action looks the
    /// product up in the cache.
    pub fn new(form: OrderForm, user_id: i32, created_at: i64) -> (r: (OrderFlow, Action))
        ensures
            r.0.wf(),
            r.0.phase == Phase::ProductCache,
            r.0.form == form,
            r.0.user_id == user_id,
            r.0.created_at == created_at,
            r.1 matches Action::GetCachedProduct(k) && k@ == product_key(form.symbol@),
    {
        let key = product_cache_key(form.symbol.as_str());
        (
            OrderFlow {
                form,
                user_id,
                created_at,
                phase: Phase::ProductCache,
                product: None,
                order: None,
                account: None,
                debited: None,
                order_id: 0,
            },
            Action::GetCachedProduct(key),
        )
    }

    fn fail(&mut self, e: OrderError) -> (a: Action)
        ensures
            final(self).phase == Phase::Finished,
            final(self).wf(),
            final(self).form == old(self).form,
            final(self).user_id == old(self).user_id,
            final(self).created_at == old(self).created_at,
            final(self).product == old(self).product,
            final(self).order == old(self).order,
            final(self).account == old(self).account,
            final(self).debited == old(self).debited,
            final(self).order_id == old(self).order_id,
            a == Action::Fail(e),
    {
        self.phase = Phase::Finished;
        Action::Fail(e)
    }

    /// With the product known, builds the order row and asks for the account.
    fn after_product(&mut self, product: Product) -> (a: Action)
        requires
            old(self).phase == Phase::ProductCache || old(self).phase == Phase::ProductCacheWrite,
        ensures
            final(self).wf(),
            final(self).form == old(self).form,
            final(self).user_id == old(self).user_id,
            final(self).created_at == old(self).created_at,
            final(self).account == old(self).account,
            final(self).debited == old(self).debited,
            final(self).order_id == old(self).order_id,
            match expiry_of(old(self).form.expiry@) {
                Some(_) => if old(self).form.price <= i32::MAX && old(self).form.lot <= i32::MAX {
                    &&& final(self).phase == Phase::AccountCache
                    &&& final(self).product == Some(product)
                    &&& final(self).order matches Some(o) && order_matches(
                        o,
                        old(self).form,
                        old(self).user_id,
                        product,
                        old(self).created_at,
                    )
                    &&& a matches Action::GetCachedAccount(k) && k@ == account_key(
                        old(self).user_id,
                    )
                } else {
                    final(self).phase == Phase::Finished && a == Action::Fail(
                        OrderError::BadRequest,
                    )
                },
                None => final(self).phase == Phase::Finished && a == Action::Fail(
                    OrderError::BadRequest,
                ),
            },
    {
        match Order::new(
            &self.form,
            self.user_id,
            product.product_id,
            product.name.as_str(),
            self.created_at,
        ) {
            Ok(order) => {
                self.order = Some(order);
                self.product = Some(product);
                self.phase = Phase::AccountCache;
                Action::GetCachedAccount(account_cache_key(self.user_id))
            },
            Err(e) => self.fail(e),
        }
    }

    /// With the account known, probes the portfolio row.
    fn after_account(&mut self, account: GetAccount) -> (a: Action)
        requires
            old(self).wf(),
            old(self).phase == Phase::AccountCache || old(self).phase == Phase::AccountCacheWrite,
        ensures
            final(self).wf(),
            final(self).form == old(self).form,
            final(self).user_id == old(self).user_id,
            final(self).created_at == old(self).created_at,
            final(self).product == old(self).product,
            final(self).order == old(self).order,
            final(self).debited == old(self).debited,
            final(self).order_id == old(self).order_id,
            final(self).phase == Phase::PortfolioProbe,
            final(self).account == Some(account),
            a matches Action::FindPortfolio(s, u) && s@ == old(self).form.symbol@ && u
                == old(self).user_id,
    {
        self.account = Some(account);
        self.phase = Phase::PortfolioProbe;
        Action::FindPortfolio(self.form.symbol.clone(), self.user_id)
    }

    /// Plans the buy against the probed portfolio row and asks for its write.
    fn after_probe(&mut self, existing: Option<GetPortfolio>) -> (a: Action)
        requires
            old(self).wf(),
            old(self).phase == Phase::PortfolioProbe,
        ensures
            final(self).wf(),
            final(self).form == old(self).form,
            final(self).user_id == old(self).user_id,
            final(self).created_at == old(self).created_at,
            final(self).product == old(self).product,
            final(self).order == old(self).order,
            final(self).account == old(self).account,
            final(self).order_id == old(self).order_id,
            probe_outcome(*old(self), existing, *final(self), a),
    {
        let account = match self.account {
            Some(a) => a,
            None => {
                return self.fail(OrderError::Database);
            },
        };
        let plan: Result<BuyPlan, OrderError> = match &self.product {
            Some(product) => plan_buy(&self.form, self.user_id, product, account, existing),
            None => {
                return self.fail(OrderError::Database);
            },
        };
        match plan {
            Ok(plan) => {
                self.debited = Some(plan.account);
                self.phase = Phase::PortfolioSave;
                match plan.portfolio {
                    PortfolioWrite::Update(u) => Action::UpdatePortfolio(u),
                    PortfolioWrite::Insert(q) => Action::InsertPortfolio(q),
                }
            },
            Err(e) => self.fail(e),
        }
    }

    /// Takes the answer to the last action and says what to do next. An
    /// answer that does not fit the phase, or any answer once the flow is
    /// finished, ends it as a bad request.
    pub fn step(&mut self, event: Event) -> (a: Action)
        requires
            old(self).wf(),
        ensures
            final(self).wf(),
            final(self).form == old(self).form,
            final(self).user_id == old(self).user_id,
            final(self).created_at == old(self).created_at,
            !(old(self).phase == Phase::ProductCache || old(self).phase == Phase::ProductStore
                || old(self).phase == Phase::ProductCacheWrite) ==> final(self).product == old(
                self).product,
            !(old(self).phase == Phase::ProductCache || old(self).phase == Phase::ProductCacheWrite
                || old(self).phase == Phase::PortfolioSave) ==> final(self).order == old(self).order,
            !(old(self).phase == Phase::AccountCache || old(self).phase == Phase::AccountStore)
                ==> final(self).account == old(self).account,
            old(self).phase != Phase::PortfolioProbe ==> final(self).debited == old(self).debited,
            old(self).phase != Phase::LedgerSave ==> final(self).order_id == old(self).order_id,
            event matches Event::ProductCached(Some(p)) ==> (old(self).phase == Phase::ProductCache
                && final(self).phase == Phase::AccountCache ==> (final(self).product == Some(p)
                && (final(self).order matches Some(o) && order_matches(
                o,
                old(self).form,
                old(self).user_id,
                p,
                old(self).created_at,
            )))),
            (old(self).phase == Phase::ProductCacheWrite && event is CacheWritten && final(self).phase
                == Phase::AccountCache) ==> (final(self).product == old(self).product && (final(
                self).order matches Some(o) && order_matches(
                o,
                old(self).form,
                old(self).user_id,
                old(self).product->0,
                old(self).created_at,
            ))),
            event matches Event::AccountCached(Some(acc)) ==> (old(self).phase == Phase::AccountCache
                ==> final(self).account == Some(acc)),
            event matches Event::AccountLoaded(acc) ==> (old(self).phase == Phase::AccountStore
                ==> final(self).account == Some(acc)),
            event is CacheFailed && (old(self).phase == Phase::ProductCache || old(self).phase
                == Phase::AccountCache) ==> (a == Action::Fail(OrderError::Redis)
                && final(self).phase == Phase::Finished),
            event is StoreFailed && old(self).phase != Phase::Finished ==> (a == Action::Fail(
                OrderError::Database,
            ) && final(self).phase == Phase::Finished),
            (old(self).phase == Phase::ProductCache && event matches Event::ProductCached(None))
                ==> (final(self).phase == Phase::ProductStore && (a matches Action::LoadProduct(s)
                && s@ == old(self).form.symbol@)),
            event matches Event::ProductLoaded(p) ==> (old(self).phase == Phase::ProductStore
                ==> (final(self).phase == Phase::ProductCacheWrite && final(self).product == Some(p)
                && (a matches Action::CacheProduct(k, q) && k@ == product_key(
                old(self).form.symbol@,
            ) && q == p))),
            (old(self).phase == Phase::ProductCache && event matches Event::ProductCached(Some(_)))
                || (old(self).phase == Phase::ProductCacheWrite && event is CacheWritten) ==> {
                if expiry_of(old(self).form.expiry@) is Some && old(self).form.price <= i32::MAX
                    && old(self).form.lot <= i32::MAX {
                    final(self).phase == Phase::AccountCache && (a matches Action::GetCachedAccount(
                        k,
                    ) && k@ == account_key(old(self).user_id))
                } else {
                    final(self).phase == Phase::Finished && a == Action::Fail(
                        OrderError::BadRequest,
                    )
                }
            },
            (old(self).phase == Phase::AccountCache && event matches Event::AccountCached(None))
                ==> (final(self).phase == Phase::AccountStore && a == Action::LoadAccount(
                old(self).user_id,
            )),
            event matches Event::AccountLoaded(acc) ==> (old(self).phase == Phase::AccountStore
                ==> (final(self).phase == Phase::AccountCacheWrite && (a matches Action::CacheAccount(k, b)
                && k@ == account_key(old(self).user_id) && b == acc))),
            (old(self).phase == Phase::AccountCache && event matches Event::AccountCached(Some(_)))
                || (old(self).phase == Phase::AccountCacheWrite && event is CacheWritten)
                ==> (final(self).phase == Phase::PortfolioProbe && (a matches Action::FindPortfolio(s, u)
                && s@ == old(self).form.symbol@ && u == old(self).user_id)),
            old(self).phase == Phase::PortfolioProbe && (event is PortfolioFound
                || event is PortfolioMissing) ==> probe_outcome(
                *old(self),
                match event {
                    Event::PortfolioFound(p) => Some(p),
                    _ => None,
                },
                *final(self),
                a,
            ),
            old(self).phase == Phase::PortfolioSave && event is PortfolioSaved ==> (final(self).phase
                == Phase::LedgerSave && (a matches Action::InsertOrder(o) && old(self).order
                == Some(o))),
            event matches Event::OrderSaved(id) ==> (old(self).phase == Phase::LedgerSave ==> (final(self).phase
                == Phase::AccountSave && final(self).order_id == id && a
                == Action::UpdateAccount(old(self).debited->0))),
            old(self).phase == Phase::AccountSave && event is AccountSaved ==> (final(self).phase
                == Phase::AccountRefresh && (a matches Action::CacheAccount(k, b) && k@
                == account_key(old(self).user_id) && b == old(self).debited->0)),
            old(self).phase == Phase::AccountRefresh && event is CacheWritten ==> (final(self).phase
                == Phase::Finished && (a matches Action::Reply(m) && m@ == ok_reply(
                old(self).order_id,
            ))),
    {
        match (self.phase, event) {
            (Phase::ProductCache, Event::ProductCached(Some(p))) => self.after_product(p),
            (Phase::ProductCache, Event::ProductCached(None)) => {
                self.phase = Phase::ProductStore;
                Action::LoadProduct(self.form.symbol.clone())
            },
            (Phase::ProductStore, Event::ProductLoaded(p)) => {
                let cached = copy_product(&p);
                self.product = Some(p);
                self.phase = Phase::ProductCacheWrite;
                Action::CacheProduct(product_cache_key(self.form.symbol.as_str()), cached)
            },
            (Phase::ProductCacheWrite, Event::CacheWritten) => {
                match self.product.take() {
                    Some(p) => self.after_product(p),
                    None => self.fail(OrderError::Database),
                }
            },
            (Phase::AccountCache, Event::AccountCached(Some(acc))) => self.after_account(acc),
            (Phase::AccountCache, Event::AccountCached(None)) => {
                self.phase = Phase::AccountStore;
                Action::LoadAccount(self.user_id)
            },
            (Phase::AccountStore, Event::AccountLoaded(acc)) => {
                self.account = Some(acc);
                self.phase = Phase::AccountCacheWrite;
                Action::CacheAccount(account_cache_key(self.user_id), acc)
            },
            (Phase::AccountCacheWrite, Event::CacheWritten) => {
                match self.account {
                    Some(acc) => self.after_account(acc),
                    None => self.fail(OrderError::Database),
                }
            },
            (Phase::PortfolioProbe, Event::PortfolioFound(p)) => self.after_probe(Some(p)),
            (Phase::PortfolioProbe, Event::PortfolioMissing) => self.after_probe(None),
            (Phase::PortfolioSave, Event::PortfolioSaved) => {
                match self.order.take() {
                    Some(o) => {
                        self.phase = Phase::LedgerSave;
                        Action::InsertOrder(o)
                    },
                    None => self.fail(OrderError::Database),
                }
            },
            (Phase::LedgerSave, Event::OrderSaved(id)) => {
                match self.debited {
                    Some(d) => {
                        self.order_id = id;
                        self.phase = Phase::AccountSave;
                        Action::UpdateAccount(d)
                    },
                    None => self.fail(OrderError::Database),
                }
            },
            (Phase::AccountSave, Event::AccountSaved) => {
                match self.debited {
                    Some(d) => {
                        self.phase = Phase::AccountRefresh;
                        Action::CacheAccount(account_cache_key(self.user_id), d)
                    },
                    None => self.fail(OrderError::Database),
                }
            },
            (Phase::AccountRefresh, Event::CacheWritten) => {
                self.phase = Phase::Finished;
                Action::Reply(order_reply(self.order_id))
            },
            (Phase::Finished, _) => self.fail(OrderError::BadRequest),
            (Phase::ProductCache, Event::CacheFailed) => self.fail(OrderError::Redis),
            (Phase::AccountCache, Event::CacheFailed) => self.fail(OrderError::Redis),
            (_, Event::StoreFailed) => self.fail(OrderError::Database),
            _ => self.fail(OrderError::BadRequest),
        }
    }
}

} // verus!
