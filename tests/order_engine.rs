use rust_decimal::Decimal;
use stockbit_order::engine::{plan_buy, PortfolioWrite};
use stockbit_order::model::{
    Account, Dec, Expiry, GetAccount, GetPortfolio, Order, OrderError, OrderForm, Product,
};

fn dec(v: i64) -> Dec {
    Dec { mantissa: v as i128, scale: 0 }
}

fn decimal(d: Dec) -> Decimal {
    Decimal::from_i128_with_scale(d.mantissa, d.scale)
}

fn form(side: char, price: u32, lot: u32, expiry: &str) -> OrderForm {
    OrderForm { symbol: "BBCA".to_string(), side, price, lot, expiry: expiry.to_string() }
}

fn bbca() -> Product {
    Product { product_id: 7, name: "Bank Central Asia".to_string(), symbol: "BBCA".to_string() }
}

#[test]
fn first_buy_creates_portfolio_and_debits_account() {
    let account = GetAccount::new(1_000_000, 0, 3);
    let plan = plan_buy(&form('B', 9000, 1, "GTC"), 42, &bbca(), account, None).ok().unwrap();
    assert_eq!(plan.notional, 900_000);
    assert_eq!(plan.account, GetAccount { account_id: 3, balance: 100_000, invested_value: 900_000 });
    match plan.portfolio {
        PortfolioWrite::Insert(p) => {
            assert_eq!(p.portfolio_id, None);
            assert_eq!(p.user_id, 42);
            assert_eq!(p.product_id, 7);
            assert_eq!(p.product_name, "Bank Central Asia");
            assert_eq!(p.product_symbol, "BBCA");
            assert_eq!(p.lot, 1);
            assert_eq!(p.invested_value, 900_000);
            assert_eq!(p.avg_price, dec(9000));
        }
        PortfolioWrite::Update(_) => panic!("expected a new row"),
    }
}

#[test]
fn two_buys_accumulate_without_lost_update() {
    let account = GetAccount::new(1_000_000, 0, 3);
    let f = form('B', 100, 1, "GTC");
    let first = plan_buy(&f, 42, &bbca(), account, None).ok().unwrap();
    let row = match first.portfolio {
        PortfolioWrite::Insert(p) => GetPortfolio::new(11, p.lot, p.invested_value, p.avg_price),
        PortfolioWrite::Update(_) => panic!("expected a new row"),
    };
    let second = plan_buy(&f, 42, &bbca(), first.account, Some(row)).ok().unwrap();
    match second.portfolio {
        PortfolioWrite::Update(u) => {
            assert_eq!(u.portfolio_id, 11);
            assert_eq!(u.lot, 2);
            assert_eq!(u.invested_value, 20_000);
            assert_eq!(decimal(u.avg_price), Decimal::from(100));
        }
        PortfolioWrite::Insert(_) => panic!("expected an update"),
    }
    assert_eq!(second.account.balance, 1_000_000 - 20_000);
    assert_eq!(second.account.invested_value, 20_000);
}

#[test]
fn average_price_is_weighted() {
    let account = GetAccount::new(1_000_000, 20_000, 3);
    let row = GetPortfolio::new(5, 2, 20_000, dec(100));
    let plan = plan_buy(&form('B', 130, 1, "GTC"), 42, &bbca(), account, Some(row)).ok().unwrap();
    match plan.portfolio {
        PortfolioWrite::Update(u) => {
            assert_eq!(u.lot, 3);
            assert_eq!(u.invested_value, 33_000);
            assert_eq!(decimal(u.avg_price), Decimal::from(110));
        }
        PortfolioWrite::Insert(_) => panic!("expected an update"),
    }
    let row = GetPortfolio::new(5, 2, 0, dec(0));
    let plan = plan_buy(&form('B', 1, 1, "GTC"), 42, &bbca(), account, Some(row)).ok().unwrap();
    match plan.portfolio {
        PortfolioWrite::Update(u) => {
            let drift = decimal(u.avg_price) * Decimal::from(3) - Decimal::from(1);
            assert!(drift.abs() < Decimal::new(1, 6));
            assert!(u.avg_price.mantissa > 0);
        }
        PortfolioWrite::Insert(_) => panic!("expected an update"),
    }
}

#[test]
fn balance_identity_over_several_buys() {
    let initial: i64 = 5_000_000;
    let mut account = GetAccount::new(initial, 0, 1);
    let mut row: Option<GetPortfolio> = None;
    let mut spent: i64 = 0;
    for (price, lot) in [(100u32, 1u32), (250, 3), (90, 2), (1000, 10)] {
        let plan = plan_buy(&form('B', price, lot, "GFD"), 9, &bbca(), account, row.take()).ok().unwrap();
        spent += plan.notional;
        account = plan.account;
        row = Some(match plan.portfolio {
            PortfolioWrite::Insert(p) => GetPortfolio::new(1, p.lot, p.invested_value, p.avg_price),
            PortfolioWrite::Update(u) => u,
        });
        let r = row.as_ref().unwrap();
        assert_eq!(account.balance + r.invested_value, initial);
        assert_eq!(r.invested_value, spent);
        assert_eq!(account.invested_value, spent);
        assert!(r.lot >= 0 && r.invested_value >= 0 && account.balance >= 0);
        let drift = decimal(r.avg_price) * Decimal::from(r.lot) * Decimal::from(100) - Decimal::from(spent);
        assert!(drift.abs() < Decimal::new(1, 6));
    }
}

#[test]
fn buy_beyond_balance_is_refused() {
    let account = GetAccount::new(899_999, 0, 3);
    let r = plan_buy(&form('B', 9000, 1, "GTC"), 42, &bbca(), account, None);
    assert!(matches!(r, Err(OrderError::NotEnoughFunds)));
    let exact = plan_buy(&form('B', 9000, 1, "GTC"), 42, &bbca(), GetAccount::new(900_000, 0, 3), None).ok().unwrap();
    assert_eq!(exact.account.balance, 0);
}

#[test]
fn sell_and_empty_orders_are_refused() {
    let account = GetAccount::new(1_000_000, 0, 3);
    assert!(matches!(plan_buy(&form('S', 100, 1, "GTC"), 42, &bbca(), account, None), Err(OrderError::BadRequest)));
    assert!(matches!(plan_buy(&form('B', 100, 0, "GTC"), 42, &bbca(), account, None), Err(OrderError::BadRequest)));
    assert!(matches!(plan_buy(&form('B', u32::MAX, 1, "GTC"), 42, &bbca(), account, None), Err(OrderError::BadRequest)));
}

#[test]
fn expiry_names() {
    assert_eq!(Expiry::try_from("GTC"), Ok(Expiry::GTC));
    assert_eq!(Expiry::try_from("GFD"), Ok(Expiry::GFD));
    assert_eq!(Expiry::try_from("IOC"), Err(OrderError::BadRequest));
    assert_eq!(Expiry::GFD.to_string(), "GFD");
    assert_eq!(Expiry::GTC.to_string(), "GTC");
}

#[test]
fn order_row_from_form() {
    let o = Order::new(&form('B', 9000, 1, "GFD"), 42, 7, "Bank Central Asia", 1_700_000_000_000_000).ok().unwrap();
    assert_eq!(o.order_id, None);
    assert_eq!(o.product_symbol, "BBCA");
    assert_eq!(o.product_name, "Bank Central Asia");
    assert_eq!(o.expiry, Expiry::GFD);
    assert_eq!((o.price, o.lot, o.user_id, o.product_id), (9000, 1, 42, 7));
    assert_eq!(o.created_at, 1_700_000_000_000_000);
    assert!(matches!(Order::new(&form('B', 1, 1, "IOC"), 42, 7, "n", 0), Err(OrderError::BadRequest)));
}

#[test]
fn new_account_is_empty() {
    let a = Account::new(5);
    assert_eq!((a.account_id, a.user_id, a.balance, a.invested_value), (None, 5, 0, 0));
    assert_eq!(OrderError::NotEnoughFunds.message(), "Not enough funds");
}

#[test]
fn body_user_is_not_part_of_the_form() {
    let server = stockbit_order::model::OrderFormServer {
        symbol: "TLKM".to_string(),
        side: 'B',
        price: 3500,
        lot: 2,
        expiry: "GFD".to_string(),
        user_id: 999,
    };
    let f = server.into_form();
    assert_eq!((f.symbol.as_str(), f.side, f.price, f.lot, f.expiry.as_str()), ("TLKM", 'B', 3500, 2, "GFD"));
}

#[test]
fn corrupted_rows_are_refused() {
    let account = GetAccount::new(1_000_000, 0, 3);
    let negative_avg = GetPortfolio::new(1, 1, 100, Dec { mantissa: -5, scale: 0 });
    assert!(matches!(plan_buy(&form('B', 1, 1, "GTC"), 42, &bbca(), account, Some(negative_avg)), Err(OrderError::BadRequest)));
    let bad_scale = GetPortfolio::new(1, 1, 100, Dec { mantissa: 5, scale: 29 });
    assert!(matches!(plan_buy(&form('B', 1, 1, "GTC"), 42, &bbca(), account, Some(bad_scale)), Err(OrderError::BadRequest)));
    let negative_lot = GetPortfolio::new(1, -1, 100, dec(5));
    assert!(matches!(plan_buy(&form('B', 1, 1, "GTC"), 42, &bbca(), account, Some(negative_lot)), Err(OrderError::BadRequest)));
    let huge = GetPortfolio::new(1, 1, 100, Dec { mantissa: 0xffff_ffff_ffff_ffff_ffff_ffff, scale: 0 });
    assert!(matches!(plan_buy(&form('B', 1, 1, "GTC"), 42, &bbca(), account, Some(huge)), Err(OrderError::BadRequest)));
}

#[test]
fn fractional_average_keeps_its_scale() {
    let account = GetAccount::new(1_000_000, 0, 3);
    let row = GetPortfolio::new(5, 1, 10_050, Dec { mantissa: 10050, scale: 2 });
    let plan = plan_buy(&form('B', 101, 1, "GTC"), 42, &bbca(), account, Some(row)).ok().unwrap();
    match plan.portfolio {
        PortfolioWrite::Update(u) => {
            assert_eq!(u.lot, 2);
            assert_eq!(decimal(u.avg_price), Decimal::new(10075, 2));
        }
        PortfolioWrite::Insert(_) => panic!("expected an update"),
    }
}
