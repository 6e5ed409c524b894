//! The arithmetic of a buy: the new portfolio row and the debited account,
//! and the bookkeeping laws they keep.
use crate::model::{
    notional, Dec, GetAccount, GetPortfolio, OrderError, OrderForm, Portfolio, Product, LOT_SIZE,
};
use vstd::prelude::*;
use vstd::string::*;

verus! {

/// The decimal product that rust_decimal computes for
/// `(m1 / 10^s1) × (m2 / 10^s2)`, as mantissa and scale.
pub uninterp spec fn product_of(m1: int, s1: nat, m2: int, s2: nat) -> Option<(int, nat)>;

/// The decimal sum that rust_decimal computes for
/// `m1 / 10^s1 + m2 / 10^s2`, as mantissa and scale.
pub uninterp spec fn sum_of(m1: int, s1: nat, m2: int, s2: nat) -> Option<(int, nat)>;

/// The decimal quotient that rust_decimal computes for
/// `(m1 / 10^s1) / (m2 / 10^s2)`, as mantissa and scale.
pub uninterp spec fn quotient_of(m1: int, s1: nat, m2: int, s2: nat) -> Option<(int, nat)>;

pub open spec fn dec_view(r: Option<Dec>) -> Option<(int, nat)> {
    match r {
        Some(d) => Some((d.mantissa as int, d.scale as nat)),
        None => None,
    }
}

/// Relies on rust_decimal::Decimal::checked_mul, with the operands built by
/// Decimal::from_i128_with_scale (which accepts exactly the bounds of
/// `Dec::wf`) and the result read back by `mantissa` and `scale`: the result
/// depends on the operands alone, is a valid decimal, and its sign is the
/// product of the operands' signs.
#[verifier::external_body]
fn dec_mul(a: Dec, b: Dec) -> (r: Option<Dec>)
    requires
        a.wf(),
        b.wf(),
    ensures
        dec_view(r) == product_of(a.mantissa as int, a.scale as nat, b.mantissa as int, b.scale as nat),
        r matches Some(x) ==> x.wf() && (a.mantissa >= 0 && b.mantissa >= 0 ==> x.mantissa >= 0),
{
    let x = rust_decimal::Decimal::from_i128_with_scale(a.mantissa, a.scale);
    let y = rust_decimal::Decimal::from_i128_with_scale(b.mantissa, b.scale);
    match x.checked_mul(y) {
        Some(q) => Some(Dec { mantissa: q.mantissa(), scale: q.scale() }),
        None => None,
    }
}

/// Relies on rust_decimal::Decimal::checked_add, with the operands built and
/// the result read back as for `dec_mul`: the result depends on the operands
/// alone, is a valid decimal, and the sum of two non-negative decimals is not
/// negative.
#[verifier::external_body]
fn dec_add(a: Dec, b: Dec) -> (r: Option<Dec>)
    requires
        a.wf(),
        b.wf(),
    ensures
        dec_view(r) == sum_of(a.mantissa as int, a.scale as nat, b.mantissa as int, b.scale as nat),
        r matches Some(x) ==> x.wf() && (a.mantissa >= 0 && b.mantissa >= 0 ==> x.mantissa >= 0),
{
    let x = rust_decimal::Decimal::from_i128_with_scale(a.mantissa, a.scale);
    let y = rust_decimal::Decimal::from_i128_with_scale(b.mantissa, b.scale);
    match x.checked_add(y) {
        Some(q) => Some(Dec { mantissa: q.mantissa(), scale: q.scale() }),
        None => None,
    }
}

/// Relies on rust_decimal::Decimal::checked_div, with the operands built and
/// the result read back as for `dec_mul`: the result depends on the operands
/// alone; a zero divisor gives `None`; a result is a valid decimal whose sign
/// is the product of the operands' signs.
#[verifier::external_body]
fn dec_div(a: Dec, b: Dec) -> (r: Option<Dec>)
    requires
        a.wf(),
        b.wf(),
    ensures
        dec_view(r) == quotient_of(a.mantissa as int, a.scale as nat, b.mantissa as int, b.scale as nat),
        b.mantissa == 0 ==> r is None,
        r matches Some(x) ==> x.wf() && (a.mantissa >= 0 && b.mantissa > 0 ==> x.mantissa >= 0),
{
    let x = rust_decimal::Decimal::from_i128_with_scale(a.mantissa, a.scale);
    let y = rust_decimal::Decimal::from_i128_with_scale(b.mantissa, b.scale);
    match x.checked_div(y) {
        Some(q) => Some(Dec { mantissa: q.mantissa(), scale: q.scale() }),
        None => None,
    }
}

/// The new average after a buy, computed in decimal as rust_decimal computes
/// it: `(price × lot + old_avg × old_lot) / new_lot`, as mantissa and scale.
pub open spec fn new_average(price: u32, lot: u32, old_avg: Dec, old_lot: i32, new_lot: i32) -> Option<
    (int, nat),
> {
    match product_of(price as int, 0, lot as int, 0) {
        Some((m1, s1)) => match product_of(
            old_avg.mantissa as int,
            old_avg.scale as nat,
            old_lot as int,
            0,
        ) {
            Some((m2, s2)) => match sum_of(m1, s1, m2, s2) {
                Some((m3, s3)) => quotient_of(m3, s3, new_lot as int, 0),
                None => None,
            },
            None => None,
        },
        None => None,
    }
}

/// The average price after a buy, in decimal:
/// `(price × lot + old_avg × old_lot) / new_lot`.
pub fn average_price(price: u32, lot: u32, old_avg: Dec, old_lot: i32, new_lot: i32) -> (r: Option<Dec>)
    requires
        old_avg.wf(),
        old_avg.mantissa >= 0,
        old_lot >= 0,
    ensures
        dec_view(r) == new_average(price, lot, old_avg, old_lot, new_lot),
        r matches Some(q) ==> q.wf() && (new_lot > 0 ==> q.mantissa >= 0),
{
    let order_value = dec_mul(Dec::from_int(price as i64), Dec::from_int(lot as i64))?;
    let existing_value = dec_mul(old_avg, Dec::from_int(old_lot as i64))?;
    let total_value = dec_add(order_value, existing_value)?;
    dec_div(total_value, Dec::from_int(new_lot as i64))
}

/// The write a buy makes to the user's portfolio for the symbol.
pub enum PortfolioWrite {
    Update(GetPortfolio),
    Insert(Portfolio),
}

/// What a buy changes: the portfolio row and the account.
pub struct BuyPlan {
    pub portfolio: PortfolioWrite,
    pub account: GetAccount,
    pub notional: i64,
}

/// Why a buy is refused before any decimal arithmetic: only buys of at least
/// one lot are taken, price and lot must fit `i32`, the notional must be
/// covered by the balance, no sum may leave its integer type, and an
/// existing row must be well formed (lot and average not negative, the
/// average a valid decimal).
pub open spec fn buy_refusal(
    form: &OrderForm,
    account: GetAccount,
    existing: Option<(i32, i64, Dec)>,
) -> Option<OrderError> {
    let n = notional(form.price, form.lot);
    if form.side != 'B' || form.lot == 0 || form.lot > i32::MAX || form.price > i32::MAX {
        Some(OrderError::BadRequest)
    } else if n > account.balance {
        Some(OrderError::NotEnoughFunds)
    } else if account.invested_value + n > i64::MAX {
        Some(OrderError::BadRequest)
    } else {
        match existing {
            Some((l, v, avg)) => if l < 0 || l + form.lot > i32::MAX || v + n > i64::MAX
                || !avg.wf() || avg.mantissa < 0 {
                Some(OrderError::BadRequest)
            } else {
                None
            },
            None => None,
        }
    }
}

pub open spec fn held(existing: &Option<GetPortfolio>) -> Option<(i32, i64, Dec)> {
    match existing {
        Some(p) => Some((p.lot, p.invested_value, p.avg_price)),
        None => None,
    }
}

/// Plans a buy of `form` by `user_id`: the new portfolio state (an update of
/// `existing`, or a first row for the symbol) and the debited account. The
/// average price of a first row is the order's price; that of an updated
/// row is `(price × lot + old_avg × old_lot) / new_lot` computed in decimal,
/// and the buy fails only when that decimal arithmetic fails.
pub fn plan_buy(
    form: &OrderForm,
    user_id: i32,
    product: &Product,
    account: GetAccount,
    existing: Option<GetPortfolio>,
) -> (r: Result<BuyPlan, OrderError>)
    ensures
        ({
            let n = notional(form.price, form.lot);
            match buy_refusal(form, account, held(&existing)) {
                Some(e) => r == Err::<BuyPlan, OrderError>(e),
                None => match r {
                    Err(e) => e == OrderError::BadRequest && match existing {
                        Some(p) => new_average(
                            form.price,
                            form.lot,
                            p.avg_price,
                            p.lot,
                            (p.lot + form.lot) as i32,
                        ) is None,
                        None => false,
                    },
                    Ok(plan) => {
                        &&& plan.notional == n
                        &&& plan.account == GetAccount {
                            account_id: account.account_id,
                            balance: (account.balance - n) as i64,
                            invested_value: (account.invested_value + n) as i64,
                        }
                        &&& plan.account.balance >= 0
                        &&& account.invested_value >= 0 ==> plan.account.invested_value >= 0
                        &&& match existing {
                            Some(p) => match plan.portfolio {
                                PortfolioWrite::Update(u) => {
                                    &&& u.portfolio_id == p.portfolio_id
                                    &&& u.lot == p.lot + form.lot
                                    &&& u.invested_value == p.invested_value + n
                                    &&& new_average(form.price, form.lot, p.avg_price, p.lot, u.lot)
                                        == Some((u.avg_price.mantissa as int, u.avg_price.scale as nat))
                                    &&& u.avg_price.wf() && u.avg_price.mantissa >= 0
                                    &&& u.lot > 0
                                    &&& p.invested_value >= 0 ==> u.invested_value >= 0
                                },
                                PortfolioWrite::Insert(_) => false,
                            },
                            None => match plan.portfolio {
                                PortfolioWrite::Insert(q) => {
                                    &&& q.portfolio_id is None
                                    &&& q.user_id == user_id
                                    &&& q.product_id == product.product_id
                                    &&& q.product_name@ == product.name@
                                    &&& q.product_symbol@ == product.symbol@
                                    &&& q.lot == form.lot
                                    &&& q.invested_value == n
                                    &&& q.avg_price == Dec { mantissa: form.price as i128, scale: 0 }
                                    &&& q.lot > 0 && q.invested_value >= 0
                                },
                                PortfolioWrite::Update(_) => false,
                            },
                        }
                    },
                },
            }
        }),
        existing is None && buy_refusal(form, account, held(&existing)) is None ==> r is Ok,
        (existing matches Some(p) && buy_refusal(form, account, held(&existing)) is None
            && new_average(form.price, form.lot, p.avg_price, p.lot, (p.lot + form.lot) as i32)
            is Some) ==> r is Ok,
{
    if form.side != 'B' || form.lot == 0 || form.lot > i32::MAX as u32 || form.price > i32::MAX as u32 {
        return Err(OrderError::BadRequest);
    }
    let price = form.price as u64;
    let lot = form.lot as u64;
    assert(price * lot <= 0xffff_ffff * 0xffff_ffff) by (nonlinear_arith)
        requires
            price <= 0xffff_ffff,
            lot <= 0xffff_ffff,
    ;
    assert(price * lot * 100 == notional(form.price, form.lot));
    let n128: u128 = price as u128 * lot as u128 * LOT_SIZE as u128;
    if n128 > account.balance as u128 || account.balance < 0 {
        return Err(OrderError::NotEnoughFunds);
    }
    let n = n128 as i64;
    if account.invested_value > i64::MAX - n {
        return Err(OrderError::BadRequest);
    }
    let new_account = GetAccount {
        account_id: account.account_id,
        balance: account.balance - n,
        invested_value: account.invested_value + n,
    };
    match existing {
        Some(p) => {
            if p.lot < 0 || p.lot as i64 + form.lot as i64 > i32::MAX as i64 || p.invested_value
                > i64::MAX - n || !p.avg_price.is_valid() || p.avg_price.mantissa < 0 {
                return Err(OrderError::BadRequest);
            }
            let new_lot = p.lot + form.lot as i32;
            let avg = match average_price(form.price, form.lot, p.avg_price, p.lot, new_lot) {
                Some(a) => a,
                None => {
                    return Err(OrderError::BadRequest);
                },
            };
            let update = GetPortfolio::new(p.portfolio_id, new_lot, p.invested_value + n, avg);
            Ok(BuyPlan { portfolio: PortfolioWrite::Update(update), account: new_account, notional: n })
        },
        None => {
            let first = Portfolio::new(
                user_id,
                product.product_id,
                product.name.clone(),
                product.symbol.clone(),
                form.lot as i32,
                n,
                Dec::from_int(form.price as i64),
            );
            Ok(BuyPlan { portfolio: PortfolioWrite::Insert(first), account: new_account, notional: n })
        },
    }
}

/// Sum of a sequence of amounts.
pub open spec fn total(s: Seq<int>) -> int
    decreases s.len(),
{
    if s.len() == 0 {
        0
    } else {
        total(s.drop_last()) + s.last()
    }
}

/// One user's money as the store holds it: the cash balance, the invested
/// value of each portfolio row, and the notional of each recorded order.
pub struct UserBook {
    pub balance: int,
    pub positions: Seq<int>,
    pub ledger: Seq<int>,
}

/// The balance identity: what the user started with is the balance plus
/// what is invested, and what is invested is what the orders cost.
pub open spec fn book_balanced(b: UserBook, initial: int) -> bool {
    &&& initial == b.balance + total(b.positions)
    &&& total(b.positions) == total(b.ledger)
}

/// A committed buy of notional `n`: the balance is debited, the row at
/// `slot` (or a new row) is credited, and the order is recorded.
pub open spec fn record_buy(b: UserBook, slot: Option<int>, n: int) -> UserBook {
    UserBook {
        balance: b.balance - n,
        positions: match slot {
            Some(i) => b.positions.update(i, b.positions[i] + n),
            None => b.positions.push(n),
        },
        ledger: b.ledger.push(n),
    }
}

proof fn lemma_total_update(s: Seq<int>, i: int, d: int)
    requires
        0 <= i < s.len(),
    ensures
        total(s.update(i, s[i] + d)) == total(s) + d,
    decreases s.len(),
{
    let t = s.update(i, s[i] + d);
    if i == s.len() - 1 {
        assert(t.drop_last() == s.drop_last());
    } else {
        lemma_total_update(s.drop_last(), i, d);
        assert(t.drop_last() == s.drop_last().update(i, s[i] + d));
    }
}

/// Every committed buy keeps the balance identity: the initial balance
/// equals the current balance plus the invested values, which equal the sum
/// of the notionals of the recorded orders.
pub proof fn lemma_buy_keeps_balance_identity(b: UserBook, initial: int, slot: Option<int>, n: int)
    requires
        book_balanced(b, initial),
        slot matches Some(i) ==> 0 <= i < b.positions.len(),
    ensures
        book_balanced(record_buy(b, slot, n), initial),
{
    let a = record_buy(b, slot, n);
    assert(a.ledger.drop_last() == b.ledger);
    match slot {
        Some(i) => lemma_total_update(b.positions, i, n),
        None => assert(a.positions.drop_last() == b.positions),
    }
}

} // verus!
