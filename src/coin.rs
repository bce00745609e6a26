//! Coins and their denominations.
use vstd::prelude::*;

verus! {

/// A state that a quarter may be minted for.
#[derive(Clone, Copy, Debug, PartialEq, Eq, Structural)]
pub enum UsState {
    Alabama,
    Alaska,
}

/// A coin; a quarter carries the state it was minted for.
#[derive(Clone, Copy, Debug, PartialEq, Eq, Structural)]
pub enum Coin {
    Penny,
    Nickel,
    Dime,
    Quarter(UsState),
}

/// The denomination of a coin, in cents.
pub open spec fn cents_of(coin: Coin) -> int {
    match coin {
        Coin::Penny => 1,
        Coin::Nickel => 5,
        Coin::Dime => 10,
        Coin::Quarter(_) => 25,
    }
}

/// The value of `coin` in cents: 1, 5, 10 or 25.
pub fn value_in_cents(coin: Coin) -> (r: u8)
    ensures
        r == cents_of(coin),
        r == 1 || r == 5 || r == 10 || r == 25,
{
    match coin {
        Coin::Penny => 1,
        Coin::Nickel => 5,
        Coin::Dime => 10,
        Coin::Quarter(_) => 25,
    }
}

/// Every coin is worth exactly one of 1, 5, 10 and 25 cents, and the value
/// depends on the coin alone: equal coins are worth the same.
pub proof fn lemma_value_in_cents_stable(a: Coin, b: Coin)
    requires
        a == b,
    ensures
        cents_of(a) == cents_of(b),
        cents_of(a) == 1 || cents_of(a) == 5 || cents_of(a) == 10 || cents_of(a) == 25,
        (a is Penny) <==> cents_of(a) == 1,
        (a is Nickel) <==> cents_of(a) == 5,
        (a is Dime) <==> cents_of(a) == 10,
        (a is Quarter) <==> cents_of(a) == 25,
{
}

} // verus!
