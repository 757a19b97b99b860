use vstd::prelude::*;

verus! {

/// The Fibonacci numbers as the runtime's start-up benchmark counts them:
/// zero for every non-positive index, one for the indices one and two.
pub open spec fn spec_fib(n: int) -> int
    decreases n,
{
    if n <= 0 {
        0
    } else if n < 3 {
        1
    } else {
        spec_fib(n - 1) + spec_fib(n - 2)
    }
}

/// The numbers never decrease from one index to the next.
pub proof fn lemma_fib_monotone(i: int, j: int)
    requires
        i <= j,
    ensures
        spec_fib(i) <= spec_fib(j),
    decreases j - i,
{
    if i < j {
        lemma_fib_monotone(i, j - 1);
        assert(spec_fib(j - 1) <= spec_fib(j)) by {
            lemma_fib_nonnegative(j - 2);
        }
    }
}

/// Every Fibonacci number is non-negative.
pub proof fn lemma_fib_nonnegative(n: int)
    ensures
        spec_fib(n) >= 0,
    decreases n,
{
    if n >= 3 {
        lemma_fib_nonnegative(n - 1);
        lemma_fib_nonnegative(n - 2);
    }
}

/// The largest index whose number fits in an `i32`.
pub proof fn lemma_fib_46_fits()
    ensures
        spec_fib(46) == 1836311903,
        spec_fib(47) > i32::MAX,
{
    reveal_with_fuel(spec_fib, 3);
    assert(spec_fib(3) == 2);
    assert(spec_fib(4) == 3);
    assert(spec_fib(5) == 5);
    assert(spec_fib(6) == 8);
    assert(spec_fib(7) == 13);
    assert(spec_fib(8) == 21);
    assert(spec_fib(9) == 34);
    assert(spec_fib(10) == 55);
    assert(spec_fib(11) == 89);
    assert(spec_fib(12) == 144);
    assert(spec_fib(13) == 233);
    assert(spec_fib(14) == 377);
    assert(spec_fib(15) == 610);
    assert(spec_fib(16) == 987);
    assert(spec_fib(17) == 1597);
    assert(spec_fib(18) == 2584);
    assert(spec_fib(19) == 4181);
    assert(spec_fib(20) == 6765);
    assert(spec_fib(21) == 10946);
    assert(spec_fib(22) == 17711);
    assert(spec_fib(23) == 28657);
    assert(spec_fib(24) == 46368);
    assert(spec_fib(25) == 75025);
    assert(spec_fib(26) == 121393);
    assert(spec_fib(27) == 196418);
    assert(spec_fib(28) == 317811);
    assert(spec_fib(29) == 514229);
    assert(spec_fib(30) == 832040);
    assert(spec_fib(31) == 1346269);
    assert(spec_fib(32) == 2178309);
    assert(spec_fib(33) == 3524578);
    assert(spec_fib(34) == 5702887);
    assert(spec_fib(35) == 9227465);
    assert(spec_fib(36) == 14930352);
    assert(spec_fib(37) == 24157817);
    assert(spec_fib(38) == 39088169);
    assert(spec_fib(39) == 63245986);
    assert(spec_fib(40) == 102334155);
    assert(spec_fib(41) == 165580141);
    assert(spec_fib(42) == 267914296);
    assert(spec_fib(43) == 433494437);
    assert(spec_fib(44) == 701408733);
    assert(spec_fib(45) == 1134903170);
    assert(spec_fib(46) == 1836311903);
    assert(spec_fib(47) == 2971215073int);
}

/// Computes the `n`-th Fibonacci number by the doubly recursive definition.
/// The result must fit in an `i32`, which holds exactly for `n <= 46`.
pub fn fib(n: i32) -> (r: i32)
    requires
        spec_fib(n as int) <= i32::MAX,
    ensures
        r == spec_fib(n as int),
        n <= 0 ==> r == 0,
        n == 1 || n == 2 ==> r == 1,
        n >= 3 ==> r == spec_fib(n - 1) + spec_fib(n - 2),
    decreases n,
{
    if n <= 0 {
        return 0;
    }
    if n < 3 {
        return 1;
    }
    proof {
        lemma_fib_monotone(n - 1, n as int);
        lemma_fib_monotone(n - 2, n as int);
        lemma_fib_nonnegative(n - 1);
        lemma_fib_nonnegative(n - 2);
    }
    fib(n - 1) + fib(n - 2)
}


/// The number of Fibonacci numbers that the start-up benchmark computes.
pub const BENCHMARK_COUNT: i32 = 45;

/// The benchmark's work: the Fibonacci numbers of the indices `0..count`,
/// each computed afresh by [`fib`]. Every one fits in an `i32` exactly when
/// `count <= 47`.
pub fn fib_workload(count: i32) -> (r: Vec<i32>)
    requires
        count <= 47,
    ensures
        r@.len() == (if count < 0 { 0 } else { count as int }),
        forall|i: int| 0 <= i < r@.len() ==> r@[i] == spec_fib(i),
        r@.len() > 0 ==> r@[0] == 0,
        r@.len() > 1 ==> r@[1] == 1,
        forall|i: int| 2 <= i < r@.len() ==> #[trigger] r@[i] == r@[i - 1] + r@[i - 2],
{
    proof {
        lemma_fib_46_fits();
    }
    let mut r: Vec<i32> = Vec::new();
    let mut i: i32 = 0;
    while i < count
        invariant
            0 <= i,
            count <= 47,
            i <= count || count < 0 && i == 0,
            r@.len() == i,
            forall|j: int| 0 <= j < r@.len() ==> r@[j] == spec_fib(j),
            spec_fib(46) == 1836311903,
        decreases count - i,
    {
        proof {
            lemma_fib_monotone(i as int, 46);
        }
        let f = fib(i);
        r.push(f);
        i = i + 1;
    }
    proof {
        law_fib_recurrence(0);
        law_fib_recurrence(1);
        assert(r@.len() > 0 ==> r@[0] == spec_fib(0));
        assert(r@.len() > 1 ==> r@[1] == spec_fib(1));
        assert forall|k: int| 2 <= k < r@.len() implies #[trigger] r@[k] == r@[k - 1] + r@[k - 2] by {
            law_fib_recurrence(k);
        }
    }
    r
}


/// The Fibonacci recurrence and its start: zero at every non-positive index,
/// one at the indices one and two, and from index three on each number is
/// the sum of the two before it. These determine every number.
pub proof fn law_fib_recurrence(n: int)
    ensures
        n <= 0 ==> spec_fib(n) == 0,
        n == 1 ==> spec_fib(n) == 1,
        n == 2 ==> spec_fib(n) == 1,
        n >= 3 ==> spec_fib(n) == spec_fib(n - 1) + spec_fib(n - 2),
{
}

/// Two functions that both follow the recurrence and its start agree at
/// every index: the numbers are determined by the recurrence alone.
pub proof fn law_fib_determined_by_recurrence(f: spec_fn(int) -> int, n: int)
    requires
        forall|k: int| k <= 0 ==> #[trigger] f(k) == 0,
        f(1) == 1,
        f(2) == 1,
        forall|k: int| k >= 3 ==> #[trigger] f(k) == f(k - 1) + f(k - 2),
    ensures
        f(n) == spec_fib(n),
    decreases n,
{
    if n >= 3 {
        law_fib_determined_by_recurrence(f, n - 1);
        law_fib_determined_by_recurrence(f, n - 2);
        assert(f(n) == f(n - 1) + f(n - 2));
    }
}

} // verus!
