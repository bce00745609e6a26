//! Small closed variant types (coins, messages, address kinds) and the
//! total functions that dispatch on them by exhaustive matching.

pub mod coin;
pub mod message;
pub mod optional;
