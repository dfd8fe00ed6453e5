use vstd::prelude::*;

verus! {

/// The closed set of values that cross between host and engine.
///
/// Floating-point numbers are carried as their IEEE-754 bit patterns, so the
/// library itself holds only integers; a round trip through the bits is
/// lossless.
#[derive(Debug, Clone, PartialEq)]
pub enum Value {
    Bool(bool),
    Number(i64),
    Float(u64),
    Str(String),
    StrList(Vec<String>),
    FloatList(Vec<u64>),
}

} // verus!
