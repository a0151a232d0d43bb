//! The functions that single-precision color arithmetic takes from outside:
//! powers and cube roots.

use crate::float32::Float32;
use vstd::prelude::*;

verus! {

/// A call of one of the functions that the conversions take from outside.
#[derive(Copy, Clone, Debug, PartialEq, Eq, Structural)]
pub enum MathCall {
    /// The first number to the power of the second.
    Powf(Float32, Float32),
    /// The cube root of the number.
    Cbrt(Float32),
}

/// The kernel is a function: it can be asked every call, and gives one
/// answer to each.
pub open spec fn is_function<K: Fn(MathCall) -> Float32>(kernel: K) -> bool {
    &&& forall|call: MathCall| call_requires(kernel, (call,))
    &&& forall|call: MathCall, a: Float32, b: Float32|
        call_ensures(kernel, (call,), a) && call_ensures(kernel, (call,), b) ==> a == b
}

/// What the kernel answers to a call.
pub open spec fn answer<K: Fn(MathCall) -> Float32>(kernel: K, call: MathCall) -> Float32 {
    choose|r: Float32| call_ensures(kernel, (call,), r)
}

/// What the kernel answers to a call.
pub open spec fn spec_ask<K: Fn(MathCall) -> Float32>(kernel: &K, call: MathCall) -> Float32 {
    answer(*kernel, call)
}

/// Asks the kernel.
#[verifier::when_used_as_spec(spec_ask)]
pub fn ask<K: Fn(MathCall) -> Float32>(kernel: &K, call: MathCall) -> (r: Float32)
    requires
        is_function(*kernel),
    ensures
        r == spec_ask(kernel, call),
{
    kernel(call)
}

} // verus!
