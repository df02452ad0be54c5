//! The example remote tasks and the counter actor that a worker library
//! registers with Ray.

use vstd::prelude::*;

verus! {

/// Simple addition task.
pub fn add(a: i32, b: i32) -> (r: i32)
    requires
        i32::MIN <= a + b <= i32::MAX,
    ensures
        r == a + b,
{
    a + b
}

/// The greeting that `greet` returns for `name`.
pub open spec fn greeting(name: Seq<char>) -> Seq<char> {
    "Hello, "@ + name + " from Rust worker!"@
}

/// Greeting task.
pub fn greet(name: String) -> (r: String)
    ensures
        r@ == greeting(name@),
{
    String::from_str("Hello, ").concat(name.as_str()).concat(" from Rust worker!")
}

/// Multiply task.
pub fn multiply(a: i64, b: i64) -> (r: i64)
    requires
        i64::MIN <= a * b <= i64::MAX,
    ensures
        r == a * b,
{
    a * b
}

/// The sum 0 + 1 + ... + (n - 1).
pub open spec fn sum_below(n: nat) -> nat
    decreases n,
{
    if n == 0 {
        0
    } else {
        sum_below((n - 1) as nat) + (n - 1) as nat
    }
}

proof fn lemma_sum_below_monotonic(i: nat, j: nat)
    requires
        i <= j,
    ensures
        sum_below(i) <= sum_below(j),
    decreases j - i,
{
    if i < j {
        lemma_sum_below_monotonic(i, (j - 1) as nat);
    }
}

/// CPU-intensive task: the sum of 0..n (0 when n is not positive).
pub fn compute(n: i64) -> (r: i64)
    requires
        n <= 0 || sum_below(n as nat) <= i64::MAX,
    ensures
        r == (if n <= 0 {
            0
        } else {
            sum_below(n as nat)
        }),
{
    let mut total: i64 = 0;
    let mut i: i64 = 0;
    while i < n
        invariant
            0 <= i,
            n > 0 ==> i <= n,
            n <= 0 ==> i == 0,
            n > 0 ==> sum_below(n as nat) <= i64::MAX,
            total == sum_below(i as nat),
        decreases n - i,
    {
        proof {
            lemma_sum_below_monotonic((i + 1) as nat, n as nat);
        }
        total = total + i;
        i = i + 1;
    }
    total
}

/// A simple counter actor.
pub struct Counter {
    value: i64,
}

impl View for Counter {
    type V = int;

    closed spec fn view(&self) -> int {
        self.value as int
    }
}

impl Counter {
    /// A counter starting at `start`.
    pub fn new(start: i64) -> (r: Self)
        ensures
            r@ == start,
    {
        Counter { value: start }
    }

    /// Adds `n` and returns the new value.
    pub fn increment(&mut self, n: i64) -> (r: i64)
        requires
            i64::MIN <= old(self)@ + n <= i64::MAX,
        ensures
            final(self)@ == old(self)@ + n,
            r == final(self)@,
    {
        self.value = self.value + n;
        self.value
    }

    /// The current value.
    pub fn get(&self) -> (r: i64)
        ensures
            r == self@,
    {
        self.value
    }

    /// Sets the value back to 0.
    pub fn reset(&mut self)
        ensures
            final(self)@ == 0,
    {
        self.value = 0;
    }
}

} // verus!
