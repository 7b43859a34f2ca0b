use vstd::prelude::*;

verus! {

/// The mathematical sum of two bytes, as an unbounded integer.
pub open spec fn sum(a: u8, b: u8) -> int {
    a + b
}

/// Adds two small unsigned integers.
///
/// Overflow policy: the sum must fit in the result width; inputs whose sum
/// would exceed `u8::MAX` are ruled out by the precondition, so the function
/// never wraps and never panics.
pub fn add(a: u8, b: u8) -> (r: u8)
    requires
        sum(a, b) <= u8::MAX,
    ensures
        r == sum(a, b),
{
    a + b
}

/// The reply of the boundary probe: the logical negation of its input.
pub fn ping_reply(ping: bool) -> (r: bool)
    ensures
        r == !ping,
{
    !ping
}

/// Addition is commutative: for every pair of bytes, the sum is the same
/// in either order.
pub proof fn lemma_sum_commutative(a: u8, b: u8)
    ensures
        sum(a, b) == sum(b, a),
{
}

} // verus!
