use cloud_champion::{Money, Ops};

#[test]
fn test_money() {
    let money = Money::cents(123_456_789);
    assert_eq!(money, Money::dollars(1_234_567) + Money::cents(89));
    assert_eq!(money, Money::millicents(123456_789_000));
    assert_eq!(money.into_cent_precision(), Money::cents(123_456_789));
    assert_eq!(money.to_dollars(), 1_234_567);
    assert_eq!(money.to_cents(), 123_456_789);
    assert_eq!(money.into_dollar_precision(), Money::dollars(1_234_567));
    assert_eq!(money.into_cent_precision(), money);
    assert_eq!(money.to_string(), "$1\u{2006}234\u{2006}567.89");

    let money2 = Money::dollars(9_000);
    assert_eq!(money2, Money::cents(900_000));
    assert_eq!(money2, Money::millicents(900_000_000));
    assert_eq!(money2.into_cent_precision(), Money::dollars(9_000));
    assert_eq!(money2.into_dollar_precision(), money2);
    assert_eq!(money2.to_string(), "$9k");
    assert_eq!((money2 + Money::dollars(200)).to_string(), "$9.2k");

    let money3 = Money::millicents(5);
    assert_eq!(money3.to_dollars(), 0);
    assert_eq!(money3.to_cents(), 0);
    assert_eq!(money3.into_cent_precision(), Money::cents(0));
    assert_eq!(money3.into_dollar_precision(), Money::dollars(0));
    assert_eq!(money3.to_string(), "$0.00005");

    let mut money4 = money2 + money3;
    assert_eq!(money4.to_string(), "$9\u{2006}000.00005");

    money4 -= money2;
    assert_eq!(money4, money3);
}

#[test]
fn test_ops() {
    let ops1 = Ops(10_000);
    assert_eq!(ops1.to_string(), "10\u{2006}000");
    assert_eq!(ops1.compact().to_string(), "10k");

    let ops2 = Ops(2_000_000);
    assert_eq!(ops2.to_string(), "2\u{2006}000\u{2006}000");
    assert_eq!(ops2.compact().to_string(), "2M");

    let mut ops3 = ops1 + ops2;
    assert_eq!(ops3.to_string(), "2\u{2006}010\u{2006}000");
    assert_eq!(ops3.compact().to_string(), "2\u{2006}010k");

    ops3 -= ops1;
    assert_eq!(ops3, ops2);
}
