use vstd::prelude::*;

verus! {

/// The sum `1 + 2 + ... + n`, zero when `n` is not positive.
pub open spec fn triangle_spec(n: int) -> int
    decreases n,
{
    if n <= 0 {
        0
    } else {
        n + triangle_spec(n - 1)
    }
}

proof fn lemma_triangle_closed_form(n: int)
    requires
        n >= 0,
    ensures
        2 * triangle_spec(n) == n * (n + 1),
    decreases n,
{
    if n > 0 {
        lemma_triangle_closed_form(n - 1);
        assert(n * (n + 1) == (n - 1) * n + 2 * n) by (nonlinear_arith);
    }
}

proof fn lemma_triangle_monotonic(m: int, n: int)
    requires
        m <= n,
    ensures
        triangle_spec(m) <= triangle_spec(n),
    decreases n - m,
{
    if m < n {
        lemma_triangle_monotonic(m, n - 1);
    }
}

/// The triangular number of `n`: the sum of the integers from 1 to `n`.
pub fn triangle(n: i32) -> (r: i32)
    requires
        n <= 65535,
    ensures
        r == triangle_spec(n as int),
        n >= 0 ==> 2 * r == n * (n + 1),
{
    let mut sum: i32 = 0;
    let mut item: i32 = 1;
    if n <= 0 {
        assert(n >= 0 ==> 2 * 0 == n * (n + 1)) by (nonlinear_arith)
            requires
                n <= 0,
        ;
        return 0;
    }
    proof {
        lemma_triangle_closed_form(65535);
        lemma_triangle_monotonic(n as int, 65535);
        lemma_triangle_closed_form(n as int);
    }
    while item <= n
        invariant
            1 <= item <= n + 1,
            n <= 65535,
            sum == triangle_spec(item - 1),
            triangle_spec(n as int) <= i32::MAX,
        decreases n + 1 - item,
    {
        proof {
            lemma_triangle_monotonic(item as int, n as int);
        }
        sum = sum + item;
        item = item + 1;
    }
    proof {
        lemma_triangle_closed_form(n as int);
    }
    sum
}

/// The Padovan sequence: 1, 1, 1, and then each term the sum of the terms
/// three and two places before it.
pub open spec fn padovan_spec(i: nat) -> nat
    decreases i,
{
    if i < 3 {
        1
    } else {
        padovan_spec((i - 3) as nat) + padovan_spec((i - 2) as nat)
    }
}

proof fn lemma_padovan_first_ten()
    ensures
        forall|i: nat| i < 10 ==> #[trigger] padovan_spec(i) <= 9,
{
    assert(padovan_spec(0) == 1);
    assert(padovan_spec(1) == 1);
    assert(padovan_spec(2) == 1);
    assert(padovan_spec(3) == 2);
    assert(padovan_spec(4) == 2);
    assert(padovan_spec(5) == 3);
    assert(padovan_spec(6) == 4);
    assert(padovan_spec(7) == 5);
    assert(padovan_spec(8) == 7);
    assert(padovan_spec(9) == 9);
}

/// The first ten terms of the Padovan sequence.
pub fn padovan_terms() -> (r: Vec<u64>)
    ensures
        r@.len() == 10,
        forall|i: int| 0 <= i < 10 ==> r@[i] == padovan_spec(i as nat),
{
    let mut padovan: Vec<u64> = vec![1, 1, 1];
    let mut i: usize = 3;
    assert(padovan@ =~= seq![1u64, 1, 1]);
    while i < 10
        invariant
            3 <= i <= 10,
            padovan@.len() == i,
            forall|j: int| 0 <= j < i ==> padovan@[j] == padovan_spec(j as nat),
        decreases 10 - i,
    {
        proof {
            lemma_padovan_first_ten();
            assert(padovan_spec((i - 3) as nat) <= 9);
            assert(padovan_spec((i - 2) as nat) <= 9);
        }
        let next = padovan[i - 3] + padovan[i - 2];
        padovan.push(next);
        i = i + 1;
    }
    padovan
}

} // verus!
