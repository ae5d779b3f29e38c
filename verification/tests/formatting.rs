use cloud_champion::display::Separating;
use cloud_champion::ops::Compact;
use cloud_champion::{Cost, Memory, Money, Ops, ServiceKind};

#[test]
fn money_as_text() {
    assert_eq!(Money::zero().to_string(), "$0");
    assert_eq!(Money::dollars(1).to_string(), "$1");
    assert_eq!(Money::dollars(1_000).to_string(), "$1\u{2006}000");
    assert_eq!(Money::dollars(1_100).to_string(), "$1.1k");
    assert_eq!(Money::dollars(1_150).to_string(), "$1\u{2006}150");
    assert_eq!(Money::dollars(999_900).to_string(), "$999.9k");
    assert_eq!(Money::dollars(1_000_000).to_string(), "$1M");
    assert_eq!(Money::dollars(2_500_000).to_string(), "$2.5M");
    assert_eq!(Money::dollars(2_550_000).to_string(), "$2\u{2006}550k");
    assert_eq!(Money::dollars(16_940_000_000).to_string(), "$16\u{2006}940M");
    assert_eq!(Money::cents(5).to_string(), "$0.05");
    assert_eq!(Money::cents(150).to_string(), "$1.50");
    assert_eq!(Money::dec_cents(5).to_string(), "$0.005");
    assert_eq!(Money::millicents(50).to_string(), "$0.0005");
    assert_eq!(Money::millicents(123_456).to_string(), "$1.23456");
    assert_eq!(Money::millicents(-123_450).to_string(), "-$1.2345");
    assert_eq!(Money::dollars(-9_000).to_string(), "-$9k");
    assert_eq!(
        Money::millicents(i64::MIN).to_string(),
        "-$92\u{2006}233\u{2006}720\u{2006}368\u{2006}547.75808"
    );
    assert_eq!(
        Money::millicents(i64::MAX).to_string(),
        "$92\u{2006}233\u{2006}720\u{2006}368\u{2006}547.75807"
    );
}

#[test]
fn money_in_numbers() {
    assert_eq!(Money::dec_cents(7), Money::millicents(700));
    assert_eq!(Money::millicents(-1_999).to_cents(), -1);
    assert_eq!(Money::millicents(-1_999).into_cent_precision(), Money::cents(-1));
    assert_eq!(Money::millicents(-199_999).to_dollars(), -1);
    assert_eq!(Money::millicents(-199_999).into_dollar_precision(), Money::dollars(-1));
    assert_eq!(Money::cents(3).plus(Money::cents(4)), Money::cents(7));
    assert_eq!(Money::cents(3) - Money::cents(4), Money::cents(-1));
    assert_eq!(Money::cents(3) * 4, Money::cents(12));
    assert_eq!(Money::cents(3).max(Money::cents(4)), Money::cents(4));
    assert_eq!(Money::default(), Money::zero());
    assert_eq!(Money::millicents(i64::MAX).saturating_plus(Money::cents(1)).to_millicents(), i64::MAX);
    assert_eq!(Money::millicents(i64::MIN).saturating_minus(Money::cents(1)).to_millicents(), i64::MIN);
    assert_eq!(Money::millicents(i64::MAX / 2).saturating_times(3).to_millicents(), i64::MAX);
    assert_eq!(Money::millicents(i64::MAX / 2).saturating_times(-3).to_millicents(), i64::MIN);
    assert_eq!(Money::millicents(-5).saturating_times(-3), Money::millicents(15));
    let mut sum = Money::cents(1);
    sum += Money::cents(2);
    assert_eq!(sum, Money::cents(3));
}

#[test]
fn separated_numbers() {
    assert_eq!(Separating(999).to_string(), "999");
    assert_eq!(Separating(1_001).to_string(), "1 001");
    assert_eq!(Separating(-1).to_string(), "-1");
    assert_eq!(Separating(10_020_003).to_string(), "10 020 003");
    assert_eq!(Separating(i64::MAX).to_string(), "9 223 372 036 854 775 807");
    assert_eq!(Separating(i64::MIN).to_string(), "-9 223 372 036 854 775 808");
}

#[test]
fn ops_as_text() {
    assert_eq!(Ops(0).to_string(), "0");
    assert_eq!(Ops(-1_234).to_string(), "-1\u{2006}234");
    assert_eq!(Ops(0).compact().to_string(), "0T");
    assert_eq!(Ops(999).compact().to_string(), "999");
    assert_eq!(Ops(1_500).compact().to_string(), "1\u{2006}500");
    assert_eq!(Ops(-3_000).compact().to_string(), "-3k");
    assert_eq!(Ops(5_000_000_000).compact().to_string(), "5G");
    assert_eq!(Ops(7_000_000_000_000).compact().to_string(), "7T");
    assert_eq!(Compact(Ops(1_000_000_000_000_000)).to_string(), "1\u{2006}000T");
    assert_eq!(Ops::from(5_i32), Ops(5));
    assert_eq!(Ops::from(5_i64), Ops(5));
    assert_eq!(Ops(5) * 3, Ops(15));
    assert_eq!(Ops(5) - Ops(8), Ops(-3));
    assert_eq!(Ops::default(), Ops(0));
    assert_eq!(Ops(i64::MAX - 1).saturating_plus(5), Ops(i64::MAX));
    let mut ops = Ops(1);
    ops += Ops(2);
    assert_eq!(ops, Ops(3));
}

#[test]
fn memory_as_text() {
    assert_eq!(Memory::zero().to_string(), "0B");
    assert_eq!(Memory::bytes(9_999).to_string(), "9\u{2006}999B");
    assert_eq!(Memory::bytes(-5).to_string(), "-5B");
    assert_eq!(Memory::kb(10).to_string(), "10KB");
    assert_eq!(Memory::bytes(10_250).to_string(), "10.25KB");
    assert_eq!(Memory::bytes(10_009).to_string(), "10.00KB");
    assert_eq!(Memory::kb(512).to_string(), "512KB");
    assert_eq!(Memory::mb(256).to_string(), "256MB");
    assert_eq!(Memory::kb(32_500).to_string(), "32.50MB");
    assert_eq!(Memory::gb(1).to_string(), "1\u{2006}000MB");
    assert_eq!(Memory::gb(64).to_string(), "64GB");
    assert_eq!(Memory::mb(12_345).to_string(), "12.34GB");
    assert_eq!(Memory::tb(1).to_string(), "1\u{2006}000GB");
    assert_eq!(Memory::tb(10).to_string(), "10TB");
    assert_eq!(Memory::gb(12_070).to_string(), "12.07TB");
    assert_eq!(Memory::from(7_i32), Memory::bytes(7));
    assert_eq!(Memory::from(7_i64), Memory::bytes(7));
    assert_eq!(Memory::kb(1) + Memory::bytes(24), Memory::bytes(1_024));
    assert_eq!(Memory::kb(1) - Memory::bytes(24), Memory::bytes(976));
    assert_eq!(Memory::kb(1) * 3, Memory::kb(3));
    let mut memory = Memory::kb(1);
    memory += Memory::kb(2);
    memory -= Memory::bytes(1);
    assert_eq!(memory, Memory::bytes(2_999));
    let mut least = Memory::bytes(i64::MIN);
    least -= Memory::bytes(1);
    assert_eq!(least, Memory::bytes(i64::MIN));
}

#[test]
fn cost_as_text() {
    assert_eq!(Cost::nothing().to_string(), "");
    assert!(Cost::nothing().is_nothing());
    assert!(Cost::default().is_nothing());
    assert!(!Cost::cents(1).is_nothing());
    assert!(!Cost::awesome_ops(1).is_nothing());
    assert_eq!(Cost::base_ops(8).to_string(), "8 base ops");
    assert_eq!(Cost::dollars(5).to_string(), "$5");
    assert_eq!(
        Cost::base_ops(4_000).and(Cost::dollars(200)).to_string(),
        "4k base ops + $200"
    );
    assert_eq!(
        (Cost::super_ops(20_000) + Cost::base_ops(150_000) + Cost::dollars(5_420)).to_string(),
        "20k super ops + 150k base ops + $5\u{2006}420"
    );
    assert_eq!(
        Cost::money(Money::cents(5))
            .and(Cost::awesome_ops(36_000))
            .and(Cost::epic_ops(128_500))
            .to_string(),
        "36k awesome ops + 128\u{2006}500 epic ops + $0.05"
    );
    assert_eq!(
        Cost::cents(250).and(Cost::cents(250)),
        Cost::money(Money::dollars(5))
    );
}

#[test]
fn tiers_by_name() {
    assert_eq!(ServiceKind::Base.to_string(), "Base");
    assert_eq!(ServiceKind::Super.to_string(), "Super");
    assert_eq!(ServiceKind::Epic.to_string(), "Epic");
    assert_eq!(ServiceKind::Awesome.to_string(), "Awesome");
}
