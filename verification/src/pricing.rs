//! The steps by which the player moves the price of a service.

use vstd::prelude::*;

use crate::money::Money;

verus! {

/// The lowest price, in millicents.
pub const LOWEST_PRICE: i64 = 1;

/// The highest price, in millicents: twenty-five dollars.
pub const HIGHEST_PRICE: i64 = 2_500_000;

/// By how much a price of `price` millicents goes down in one step. The
/// step grows with the price: a millicent up to twenty millicents, fifty
/// cents above two dollars.
pub open spec fn step_down(price: int) -> int {
    if price <= 20 {
        1
    } else if price <= 100 {
        5
    } else if price <= 200 {
        10
    } else if price <= 1_000 {
        50
    } else if price <= 2_000 {
        100
    } else if price <= 10_000 {
        500
    } else if price <= 20_000 {
        1_000
    } else if price <= 100_000 {
        5_000
    } else if price <= 200_000 {
        10_000
    } else {
        50_000
    }
}

/// By how much a price of `price` millicents goes up in one step.
pub open spec fn step_up(price: int) -> int {
    if price >= 200_000 {
        50_000
    } else if price >= 100_000 {
        10_000
    } else if price >= 20_000 {
        5_000
    } else if price >= 10_000 {
        1_000
    } else if price >= 2_000 {
        500
    } else if price >= 1_000 {
        100
    } else if price >= 200 {
        50
    } else if price >= 100 {
        10
    } else if price >= 20 {
        5
    } else {
        1
    }
}

/// The price one step below `price`, and never below the lowest price.
pub open spec fn lowered(price: int) -> int {
    if price <= LOWEST_PRICE {
        LOWEST_PRICE as int
    } else {
        price - step_down(price)
    }
}

/// The price one step above `price`; from the highest price on, the
/// highest price.
pub open spec fn raised(price: int) -> int {
    if price >= HIGHEST_PRICE {
        HIGHEST_PRICE as int
    } else {
        price + step_up(price)
    }
}

/// The price one step below `price`.
pub fn lower_price(price: Money) -> (lower: Money)
    ensures
        lower@ == lowered(price@),
{
    let p: i64 = price.0;
    if p <= 1 {
        Money::millicents(1)
    } else if p <= 20 {
        Money(p - 1)
    } else if p <= 100 {
        Money(p - 5)
    } else if p <= 200 {
        Money(p - 10)
    } else if p <= 1_000 {
        Money(p - 50)
    } else if p <= 2_000 {
        Money(p - 100)
    } else if p <= 10_000 {
        Money(p - 500)
    } else if p <= 20_000 {
        Money(p - 1_000)
    } else if p <= 100_000 {
        Money(p - 5_000)
    } else if p <= 200_000 {
        Money(p - 10_000)
    } else {
        Money(p - 50_000)
    }
}

/// The price one step above `price`.
pub fn raise_price(price: Money) -> (higher: Money)
    ensures
        higher@ == raised(price@),
{
    let p: i64 = price.0;
    if p >= 2_500_000 {
        Money::dollars(25)
    } else if p >= 200_000 {
        Money(p + 50_000)
    } else if p >= 100_000 {
        Money(p + 10_000)
    } else if p >= 20_000 {
        Money(p + 5_000)
    } else if p >= 10_000 {
        Money(p + 1_000)
    } else if p >= 2_000 {
        Money(p + 500)
    } else if p >= 1_000 {
        Money(p + 100)
    } else if p >= 200 {
        Money(p + 50)
    } else if p >= 100 {
        Money(p + 10)
    } else if p >= 20 {
        Money(p + 5)
    } else {
        Money(p + 1)
    }
}

} // verus!
