//! Variants that carry payloads of different shapes.
use vstd::prelude::*;

verus! {

/// The kind of an address; only `V6` carries the address text.
#[derive(Clone, Debug)]
pub enum IpAddrKind {
    V4,
    DummyV5,
    V6(String),
}

/// An address together with its kind.
#[derive(Clone, Debug)]
pub struct IpAddr {
    pub kind: IpAddrKind,
    pub address: String,
}

/// A message: no payload, a named pair, one text, or a triple.
#[derive(Clone, Debug)]
pub enum Message {
    Quit,
    Move { x: i32, y: i32 },
    Write(String),
    ChangeColor(i32, i32, i32),
}

impl Message {
    /// An associated function of the type; it does nothing.
    pub fn _some_func() {
    }
}

} // verus!
