//! The arithmetic of the sample programs that run on the emulated console.

use vstd::prelude::*;

verus! {

/// n!
pub open spec fn factorial_spec(n: nat) -> nat
    decreases n,
{
    if n == 0 {
        1
    } else {
        n * factorial_spec((n - 1) as nat)
    }
}

/// The n-th Fibonacci number, from fib(0) = 0 and fib(1) = 1.
pub open spec fn fibonacci_spec(n: nat) -> nat
    decreases n,
{
    if n == 0 {
        0
    } else if n == 1 {
        1
    } else {
        fibonacci_spec((n - 1) as nat) + fibonacci_spec((n - 2) as nat)
    }
}

/// n! is at least 1, and grows with n.
proof fn lemma_factorial_monotone(n: nat)
    ensures
        factorial_spec(n) >= 1,
        n > 0 ==> factorial_spec((n - 1) as nat) <= factorial_spec(n),
    decreases n,
{
    if n > 0 {
        lemma_factorial_monotone((n - 1) as nat);
        assert(n * factorial_spec((n - 1) as nat) >= factorial_spec((n - 1) as nat)) by (nonlinear_arith)
            requires
                n >= 1,
                factorial_spec((n - 1) as nat) >= 1,
        ;
    }
}

/// n!, computed recursively.
pub fn factorial(n: u32) -> (r: u32)
    requires
        factorial_spec(n as nat) <= u32::MAX,
    ensures
        r == factorial_spec(n as nat),
    decreases n,
{
    if n == 0 {
        1
    } else {
        proof {
            lemma_factorial_monotone(n as nat);
        }
        let f = factorial(n - 1);
        assert(n * f <= u32::MAX);
        n * f
    }
}

/// The Fibonacci numbers grow with n.
proof fn lemma_fibonacci_monotone(n: nat)
    ensures
        n >= 2 ==> fibonacci_spec((n - 1) as nat) <= fibonacci_spec(n) && fibonacci_spec((n - 2) as nat)
            <= fibonacci_spec(n),
    decreases n,
{
}

/// The n-th Fibonacci number, computed by the naive recursion.
pub fn fibonacci_recursive(n: u32) -> (r: u32)
    requires
        fibonacci_spec(n as nat) <= u32::MAX,
    ensures
        r == fibonacci_spec(n as nat),
    decreases n,
{
    if n == 0 {
        0
    } else if n == 1 {
        1
    } else {
        proof {
            lemma_fibonacci_monotone(n as nat);
        }
        fibonacci_recursive(n - 1) + fibonacci_recursive(n - 2)
    }
}

/// Entries of a table of Fibonacci numbers: zero where not yet known, and
/// otherwise the number.
pub open spec fn fibonacci_table(table: Seq<u32>) -> bool {
    &&& table.len() == 100
    &&& forall|i: int| 0 <= i < 100 && #[trigger] table[i] != 0 ==> table[i] == fibonacci_spec(i as nat)
}

/// The n-th Fibonacci number, remembering each number computed in `table`.
fn fibonacci_memo(n: u32, table: &mut Vec<u32>) -> (r: u32)
    requires
        n < 100,
        fibonacci_table(old(table)@),
        fibonacci_spec(n as nat) <= u32::MAX,
    ensures
        fibonacci_table(final(table)@),
        r == fibonacci_spec(n as nat),
    decreases n,
{
    if n == 0 {
        return 0;
    }
    if n == 1 {
        return 1;
    }
    let known = table[n as usize];
    if known != 0 {
        return known;
    }
    proof {
        lemma_fibonacci_monotone(n as nat);
    }
    let a = fibonacci_memo(n - 1, table);
    let b = fibonacci_memo(n - 2, table);
    let v = a + b;
    table.set(n as usize, v);
    v
}

/// The n-th Fibonacci number by dynamic programming: each of the first 100
/// numbers is computed once.
pub fn fibonacci_dynamic(n: u32) -> (r: u32)
    requires
        n < 100,
        fibonacci_spec(n as nat) <= u32::MAX,
    ensures
        r == fibonacci_spec(n as nat),
{
    let mut table: Vec<u32> = Vec::new();
    let mut i: usize = 0;
    while i < 100
        invariant
            i <= 100,
            table@.len() == i,
            forall|k: int| 0 <= k < i ==> table@[k] == 0,
        decreases 100 - i,
    {
        table.push(0);
        i = i + 1;
    }
    fibonacci_memo(n, &mut table)
}

} // verus!
