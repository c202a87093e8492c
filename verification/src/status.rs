use vstd::prelude::*;

verus! {

/// The first digit of the decimal form of `n`.
pub open spec fn leading_digit(n: nat) -> nat
    decreases n,
{
    if n < 10 {
        n
    } else {
        leading_digit(n / 10)
    }
}

/// Whether the decimal form of an HTTP status begins with the digit `2`.
pub open spec fn starts_with_two(status: u16) -> bool {
    leading_digit(status as nat) == 2
}

/// Whether an HTTP status counts as success (the 2xx class).
pub open spec fn is_success(status: u16) -> bool {
    200 <= status <= 299
}

/// Whether the decimal text of `status` begins with the digit `2`.
pub fn status_starts_with_two(status: u16) -> (b: bool)
    ensures
        b == starts_with_two(status),
{
    let mut n: u16 = status;
    while n >= 10
        invariant
            leading_digit(n as nat) == leading_digit(status as nat),
        decreases n,
    {
        n = n / 10;
    }
    n == 2
}

/// Whether `status` is in the success class 200..=299, which is when the
/// service's answer carries a body worth reading.
pub fn is_success_status(status: u16) -> (b: bool)
    ensures
        b == is_success(status),
{
    200 <= status && status <= 299
}

/// Every success status reads as beginning with `2`, so a response whose body
/// was read never counts as an HTTP error.
pub proof fn lemma_success_starts_with_two(status: u16)
    requires
        is_success(status),
    ensures
        starts_with_two(status),
{
    let n = status as nat;
    assert(n / 10 >= 20 && n / 10 < 30);
    assert((n / 10) / 10 == 2);
    reveal_with_fuel(leading_digit, 3);
}

} // verus!
