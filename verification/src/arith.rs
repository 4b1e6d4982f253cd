//! Integer arithmetic that the rules share: remainders towards zero and sums
//! that stop at the limits of 64 bits.
use vstd::prelude::*;

verus! {

/// The remainder of `a` by `b`, with the sign of `a`.
pub open spec fn trunc_rem(a: int, b: int) -> int {
    if a >= 0 {
        a % b
    } else {
        -((-a) % b)
    }
}

/// The quotient of `a` by `b`, towards zero.
pub open spec fn trunc_div(a: int, b: int) -> int {
    if a >= 0 {
        a / b
    } else {
        -((-a) / b)
    }
}

/// `a % b`.
pub fn remainder(a: i64, b: i64) -> (r: i64)
    requires
        b > 0,
    ensures
        r == trunc_rem(a as int, b as int),
        r == 0 <==> a as int % b as int == 0,
        a >= 0 ==> 0 <= r < b && r <= a,
{
    let r: i64 = a.checked_rem(b).unwrap();
    proof {
        let x = a as int;
        let y = b as int;
        if x < 0 {
            lemma_negative_multiple(-x, y);
        } else {
            assert(x % y <= x) by (nonlinear_arith)
                requires
                    x >= 0,
                    y > 0,
            ;
        }
    }
    r
}

/// `a / b`.
pub fn quotient(a: i64, b: i64) -> (r: i64)
    requires
        b > 0,
    ensures
        r == trunc_div(a as int, b as int),
        a >= 0 ==> 0 <= r <= a && r * b <= a,
{
    proof {
        let x = if a >= 0 {
            a as int
        } else {
            -a as int
        };
        let y = b as int;
        assert(0 <= x / y <= x) by (nonlinear_arith)
            requires
                x >= 0,
                y >= 1,
        ;
        assert((x / y) * y <= x) by (nonlinear_arith)
            requires
                x >= 0,
                y >= 1,
        ;
    }
    a.checked_div(b).unwrap()
}

/// Dividing by a positive number never leaves the range.
pub proof fn lemma_checked_div(a: i64, b: i64)
    requires
        b > 0,
    ensures
        a.checked_div(b) == Some(trunc_div(a as int, b as int) as i64),
        i64::MIN <= trunc_div(a as int, b as int) <= i64::MAX,
{
    let x = if a >= 0 {
        a as int
    } else {
        -a as int
    };
    let y = b as int;
    assert(0 <= x / y <= x) by (nonlinear_arith)
        requires
            x >= 0,
            y >= 1,
    ;
}

proof fn lemma_negative_multiple(x: int, y: int)
    requires
        x > 0,
        y > 0,
    ensures
        x % y == 0 <==> (-x) % y == 0,
{
    assert(x % y == 0 ==> (-x) % y == 0) by (nonlinear_arith)
        requires
            x > 0,
            y > 0,
    {
        if x % y == 0 {
            let k = x / y;
            assert(x == k * y);
            vstd::arithmetic::div_mod::lemma_mod_multiples_basic(-k, y);
            assert((-k) * y == -x);
        }
    }
    assert((-x) % y == 0 ==> x % y == 0) by (nonlinear_arith)
        requires
            x > 0,
            y > 0,
    {
        if (-x) % y == 0 {
            let k = (-x) / y;
            assert(-x == k * y);
            vstd::arithmetic::div_mod::lemma_mod_multiples_basic(-k, y);
            assert((-k) * y == x);
        }
    }
}

/// Whether `a` is a whole number of units.
pub open spec fn whole_units(a: int, unit: int) -> bool {
    a % unit == 0
}

/// Whether `a` is a whole number of units.
pub fn is_whole(a: i64, unit: i64) -> (r: bool)
    requires
        unit > 0,
    ensures
        r == whole_units(a as int, unit as int),
{
    remainder(a, unit) == 0
}

/// The sum from left to right, nothing where it leaves the range on the way.
pub open spec fn checked_total(q: Seq<i64>) -> Option<i64>
    decreases q.len(),
{
    if q.len() == 0 {
        Some(0i64)
    } else {
        match checked_total(q.drop_last()) {
            Some(t) => t.checked_add(q.last()),
            None => None,
        }
    }
}

/// The sum as an integer.
pub open spec fn total(q: Seq<i64>) -> int
    decreases q.len(),
{
    if q.len() == 0 {
        0
    } else {
        total(q.drop_last()) + q.last()
    }
}

/// Where the sum stays in range it is the sum.
pub proof fn lemma_checked_total(q: Seq<i64>)
    ensures
        checked_total(q) matches Some(t) ==> t == total(q),
    decreases q.len(),
{
    if q.len() > 0 {
        lemma_checked_total(q.drop_last());
    }
}

/// The sum of a list, where it stays in range.
pub fn total_of(v: &Vec<i64>) -> (r: Option<i64>)
    ensures
        r == checked_total(v@),
{
    let mut sum: Option<i64> = Some(0);
    let mut i: usize = 0;
    assert(v@.take(0) =~= Seq::<i64>::empty());
    while i < v.len()
        invariant
            i <= v@.len(),
            sum == checked_total(v@.take(i as int)),
        decreases v@.len() - i,
    {
        proof {
            assert(v@.take(i + 1).drop_last() =~= v@.take(i as int));
        }
        sum = match sum {
            Some(t) => t.checked_add(v[i]),
            None => None,
        };
        i = i + 1;
    }
    assert(v@.take(v@.len() as int) =~= v@);
    sum
}

/// The smaller of two integers.
pub fn min_i64(a: i64, b: i64) -> (r: i64)
    ensures
        r == (if a <= b {
            a
        } else {
            b
        }),
{
    if a <= b {
        a
    } else {
        b
    }
}

/// The larger of two integers.
pub fn max_i64(a: i64, b: i64) -> (r: i64)
    ensures
        r == (if a >= b {
            a
        } else {
            b
        }),
{
    if a >= b {
        a
    } else {
        b
    }
}

/// The magnitude of an index, where it is representable.
pub open spec fn magnitude(a: i32) -> Option<i32> {
    if a == i32::MIN {
        None
    } else if a < 0 {
        Some((-a) as i32)
    } else {
        Some(a)
    }
}

/// The magnitude of an index, where it is representable.
pub fn magnitude_of(a: i32) -> (r: Option<i32>)
    ensures
        r == magnitude(a),
{
    if a == i32::MIN {
        None
    } else if a < 0 {
        Some(-a)
    } else {
        Some(a)
    }
}

} // verus!
