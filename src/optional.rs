//! Optional integers: incrementing through a match, substituting a default
//! for an absent value, and matching against a single literal pattern.
use vstd::prelude::*;

verus! {

/// Adds one to a present value and leaves an absent one absent.
pub fn plus_one(x: Option<i32>) -> (r: Option<i32>)
    requires
        x matches Some(i) ==> i < i32::MAX,
    ensures
        x matches Some(i) ==> r == Some((i + 1) as i32),
        x is None ==> r is None,
{
    match x {
        None => None,
        Some(i) => Some(i + 1),
    }
}

/// The value carried by `x`, or `default` where `x` is absent.
pub open spec fn value_or<T>(x: Option<T>, default: T) -> T {
    match x {
        Some(v) => v,
        None => default,
    }
}

/// The carried value if `x` is present, else `default`.
pub fn unwrap_or<T>(x: Option<T>, default: T) -> (r: T)
    ensures
        r == value_or(x, default),
        x matches Some(v) ==> r == v,
        x is None ==> r == default,
{
    x.unwrap_or(default)
}

/// `x` plus the value carried by `y`, where an absent `y` counts as zero.
pub fn add_or_zero(x: i8, y: Option<i8>) -> (r: i8)
    requires
        i8::MIN <= x + value_or(y, 0i8) <= i8::MAX,
    ensures
        r == x + value_or(y, 0i8),
{
    x + unwrap_or(y, 0)
}

/// Whether `x` matches the single pattern `Some(3)`.
pub fn is_three(x: Option<i32>) -> (r: bool)
    ensures
        r == (x == Some(3i32)),
{
    match x {
        Some(3) => true,
        _ => false,
    }
}

} // verus!
