//! Sharded storage: fixed-length shard vectors and the fold algorithms
//! that every counter variant builds on — wrapped sums, signed sums, and
//! min/max folds, each with a reset-while-draining form.

use vstd::prelude::*;

verus! {

use vstd::arithmetic::div_mod::{lemma_add_mod_noop, lemma_add_mod_noop_right, lemma_small_mod};

/// The mathematical sum of a shard vector of unsigned words.
pub open spec fn sum_u64(s: Seq<u64>) -> int
    decreases s.len(),
{
    if s.len() == 0 {
        0
    } else {
        sum_u64(s.drop_last()) + s.last()
    }
}

/// The 64-bit wrapped form of [`sum_u64`]: what an aggregate read reports.
pub open spec fn wrapped_sum_u64(s: Seq<u64>) -> u64 {
    (sum_u64(s) % 0x1_0000_0000_0000_0000) as u64
}

/// The mathematical sum of a shard vector of signed words.
pub open spec fn sum_i64(s: Seq<i64>) -> int
    decreases s.len(),
{
    if s.len() == 0 {
        0
    } else {
        sum_i64(s.drop_last()) + s.last()
    }
}

/// The 64-bit two's-complement wrap of [`sum_i64`].
pub open spec fn wrapped_sum_i64(s: Seq<i64>) -> i64 {
    vstd::wrapping::i64_specs::signed_crop(sum_i64(s))
}

/// The minimum over a shard vector, with `u64::MAX` for the empty fold
/// (the "no data" sentinel of the minimum tracker).
pub open spec fn min_u64(s: Seq<u64>) -> u64
    decreases s.len(),
{
    if s.len() == 0 {
        u64::MAX
    } else if s.last() < min_u64(s.drop_last()) {
        s.last()
    } else {
        min_u64(s.drop_last())
    }
}

/// The maximum over a shard vector, with `0` for the empty fold
/// (the "no data" sentinel of the maximum tracker).
pub open spec fn max_u64(s: Seq<u64>) -> u64
    decreases s.len(),
{
    if s.len() == 0 {
        0u64
    } else if s.last() > max_u64(s.drop_last()) {
        s.last()
    } else {
        max_u64(s.drop_last())
    }
}

/// The sum is unchanged when a sequence grows by one element at the end.
proof fn lemma_sum_u64_push(s: Seq<u64>, i: int)
    requires
        0 <= i < s.len(),
    ensures
        sum_u64(s.subrange(0, i + 1)) == sum_u64(s.subrange(0, i)) + s[i],
{
    assert(s.subrange(0, i + 1).drop_last() =~= s.subrange(0, i));
    assert(s.subrange(0, i + 1).last() == s[i]);
}

proof fn lemma_sum_i64_push(s: Seq<i64>, i: int)
    requires
        0 <= i < s.len(),
    ensures
        sum_i64(s.subrange(0, i + 1)) == sum_i64(s.subrange(0, i)) + s[i],
{
    assert(s.subrange(0, i + 1).drop_last() =~= s.subrange(0, i));
    assert(s.subrange(0, i + 1).last() == s[i]);
}

/// Cropping is a congruence for addition: adding to an already-cropped
/// signed sum and cropping again equals cropping the exact sum.
proof fn lemma_signed_crop_add(s: int, x: int)
    ensures
        vstd::wrapping::i64_specs::signed_crop(
            vstd::wrapping::i64_specs::signed_crop(s) + x,
        ) == vstd::wrapping::i64_specs::signed_crop(s + x),
{
    let m = 0x1_0000_0000_0000_0000int;
    let c = vstd::wrapping::i64_specs::signed_crop(s) as int;
    assert(c % m == s % m) by {
        if s % m >= m / 2 {
            assert(c == s % m - m);
            assert((s % m - m) % m == s % m) by {
                vstd::arithmetic::div_mod::lemma_mod_sub_multiples_vanish(s % m, m);
                vstd::arithmetic::div_mod::lemma_mod_twice(s, m);
            }
        } else {
            assert(c == s % m);
            vstd::arithmetic::div_mod::lemma_mod_twice(s, m);
        }
    }
    assert((c + x) % m == (s + x) % m) by {
        lemma_add_mod_noop(c, x, m);
        lemma_add_mod_noop(s, x, m);
    }
}

/// Adds `value` into one cell, wrapping at the 64-bit limit; the wrapped
/// sum of the whole vector grows by `value`, wrapping the same way.
pub fn shard_add(v: &mut Vec<u64>, slot: usize, value: u64)
    requires
        slot < old(v)@.len(),
    ensures
        final(v)@ == old(v)@.update(slot as int, old(v)@[slot as int].wrapping_add(value)),
        wrapped_sum_u64(final(v)@) == (
            (wrapped_sum_u64(old(v)@) + value) % 0x1_0000_0000_0000_0000
        ) as u64,
{
    let cell = v[slot];
    let newval = cell.wrapping_add(value);
    v.set(slot, newval);
    proof {
        let m = 0x1_0000_0000_0000_0000int;
        let s = sum_u64(old(v)@);
        lemma_sum_u64_update(old(v)@, slot as int, newval);
        lemma_add_mod_noop_right(s - cell, cell + value, m);
        lemma_add_mod_noop_right(wrapped_sum_u64(old(v)@) as int, value as int, m);
        lemma_add_mod_noop(s, value as int, m);
        lemma_small_mod(value as nat, m as nat);
    }
}

/// Subtracts `value` from one cell; subtraction below zero wraps, and the
/// wrapped sum of the whole vector shrinks by `value`, wrapping the same way.
pub fn shard_sub(v: &mut Vec<u64>, slot: usize, value: u64)
    requires
        slot < old(v)@.len(),
    ensures
        final(v)@ == old(v)@.update(slot as int, old(v)@[slot as int].wrapping_sub(value)),
        wrapped_sum_u64(final(v)@) == (
            (wrapped_sum_u64(old(v)@) - value) % 0x1_0000_0000_0000_0000
        ) as u64,
{
    let cell = v[slot];
    let newval = cell.wrapping_sub(value);
    v.set(slot, newval);
    proof {
        let m = 0x1_0000_0000_0000_0000int;
        let s = sum_u64(old(v)@);
        lemma_sum_u64_update(old(v)@, slot as int, newval);
        lemma_add_mod_noop_right(s - cell, cell - value, m);
        lemma_add_mod_noop_right(wrapped_sum_u64(old(v)@) as int, -(value as int), m);
        lemma_add_mod_noop(s, -(value as int), m);
    }
}

/// Adds `value` into one signed cell, with two's-complement wrap; the
/// wrapped signed sum of the whole vector moves by `value` the same way.
pub fn shard_add_i64(v: &mut Vec<i64>, slot: usize, value: i64)
    requires
        slot < old(v)@.len(),
    ensures
        final(v)@ == old(v)@.update(slot as int, old(v)@[slot as int].wrapping_add(value)),
        wrapped_sum_i64(final(v)@) == vstd::wrapping::i64_specs::signed_crop(
            wrapped_sum_i64(old(v)@) + value,
        ),
{
    let cell = v[slot];
    let newval = cell.wrapping_add(value);
    v.set(slot, newval);
    proof {
        let s = sum_i64(old(v)@);
        lemma_sum_i64_update(old(v)@, slot as int, newval);
        // new exact sum is (s - cell) + crop(cell + value)
        lemma_signed_crop_add(cell + value, s - cell);
        lemma_signed_crop_add(s, value as int);
    }
}

/// Subtracts `value` from one signed cell, with two's-complement wrap.
pub fn shard_sub_i64(v: &mut Vec<i64>, slot: usize, value: i64)
    requires
        slot < old(v)@.len(),
    ensures
        final(v)@ == old(v)@.update(slot as int, old(v)@[slot as int].wrapping_sub(value)),
        wrapped_sum_i64(final(v)@) == vstd::wrapping::i64_specs::signed_crop(
            wrapped_sum_i64(old(v)@) - value,
        ),
{
    let cell = v[slot];
    let newval = cell.wrapping_sub(value);
    v.set(slot, newval);
    proof {
        let s = sum_i64(old(v)@);
        lemma_sum_i64_update(old(v)@, slot as int, newval);
        lemma_signed_crop_add(cell - value, s - cell);
        lemma_signed_crop_add(s, -(value as int));
    }
}

/// A fresh shard vector: `n` cells, each holding `init`.
pub fn make_shards(n: usize, init: u64) -> (r: Vec<u64>)
    ensures
        r@.len() == n,
        forall|i: int| 0 <= i < n ==> r@[i] == init,
{
    let mut v: Vec<u64> = Vec::new();
    let mut k: usize = 0;
    while k < n
        invariant
            k <= n,
            v@.len() == k,
            forall|i: int| 0 <= i < k ==> v@[i] == init,
        decreases n - k,
    {
        v.push(init);
        k = k + 1;
    }
    v
}

/// A fresh signed shard vector: `n` cells, each holding `init`.
pub fn make_shards_i64(n: usize, init: i64) -> (r: Vec<i64>)
    ensures
        r@.len() == n,
        forall|i: int| 0 <= i < n ==> r@[i] == init,
{
    let mut v: Vec<i64> = Vec::new();
    let mut k: usize = 0;
    while k < n
        invariant
            k <= n,
            v@.len() == k,
            forall|i: int| 0 <= i < k ==> v@[i] == init,
        decreases n - k,
    {
        v.push(init);
        k = k + 1;
    }
    v
}

/// Folds all cells into their wrapped sum without touching them.
pub fn fold_sum(v: &Vec<u64>) -> (r: u64)
    ensures
        r == wrapped_sum_u64(v@),
{
    let m_ghost: Ghost<int> = Ghost(0x1_0000_0000_0000_0000int);
    let mut acc: u64 = 0;
    let mut k: usize = 0;
    proof {
        assert(v@.subrange(0, 0) =~= Seq::<u64>::empty());
    }
    while k < v.len()
        invariant
            k <= v@.len(),
            acc == sum_u64(v@.subrange(0, k as int)) % 0x1_0000_0000_0000_0000,
        decreases v@.len() - k,
    {
        let x = v[k];
        proof {
            let s = sum_u64(v@.subrange(0, k as int));
            lemma_sum_u64_push(v@, k as int);
            lemma_small_mod(x as nat, 0x1_0000_0000_0000_0000nat);
            lemma_add_mod_noop(s, x as int, 0x1_0000_0000_0000_0000int);
        }
        acc = acc.wrapping_add(x);
        k = k + 1;
    }
    proof {
        assert(v@.subrange(0, v@.len() as int) =~= v@);
    }
    acc
}

/// Folds all cells into their wrapped sum while swapping each cell to
/// `reset`; the swaps are per-cell, not one multi-cell transaction.
pub fn drain_sum(v: &mut Vec<u64>, reset: u64) -> (r: u64)
    ensures
        r == wrapped_sum_u64(old(v)@),
        final(v)@.len() == old(v)@.len(),
        forall|i: int| 0 <= i < final(v)@.len() ==> final(v)@[i] == reset,
{
    let mut acc: u64 = 0;
    let mut k: usize = 0;
    let n = v.len();
    proof {
        assert(v@.subrange(0, 0) =~= Seq::<u64>::empty());
    }
    while k < n
        invariant
            k <= n,
            n == v@.len(),
            v@.len() == old(v)@.len(),
            forall|i: int| k <= i < v@.len() ==> v@[i] == old(v)@[i],
            forall|i: int| 0 <= i < k ==> v@[i] == reset,
            acc == sum_u64(old(v)@.subrange(0, k as int)) % 0x1_0000_0000_0000_0000,
        decreases n - k,
    {
        let x = v[k];
        proof {
            let s = sum_u64(old(v)@.subrange(0, k as int));
            lemma_sum_u64_push(old(v)@, k as int);
            lemma_small_mod(x as nat, 0x1_0000_0000_0000_0000nat);
            lemma_add_mod_noop(s, x as int, 0x1_0000_0000_0000_0000int);
        }
        acc = acc.wrapping_add(x);
        v.set(k, reset);
        k = k + 1;
    }
    proof {
        assert(old(v)@.subrange(0, n as int) =~= old(v)@);
    }
    acc
}

/// Folds all signed cells into their wrapped sum without touching them.
pub fn fold_sum_i64(v: &Vec<i64>) -> (r: i64)
    ensures
        r == wrapped_sum_i64(v@),
{
    let mut acc: i64 = 0;
    let mut k: usize = 0;
    proof {
        assert(v@.subrange(0, 0) =~= Seq::<i64>::empty());
    }
    while k < v.len()
        invariant
            k <= v@.len(),
            acc == vstd::wrapping::i64_specs::signed_crop(sum_i64(v@.subrange(0, k as int))),
        decreases v@.len() - k,
    {
        let x = v[k];
        proof {
            let s = sum_i64(v@.subrange(0, k as int));
            lemma_sum_i64_push(v@, k as int);
            lemma_signed_crop_add(s, x as int);
        }
        acc = acc.wrapping_add(x);
        k = k + 1;
    }
    proof {
        assert(v@.subrange(0, v@.len() as int) =~= v@);
    }
    acc
}

/// Folds all signed cells into their wrapped sum while zeroing each cell.
pub fn drain_sum_i64(v: &mut Vec<i64>) -> (r: i64)
    ensures
        r == wrapped_sum_i64(old(v)@),
        final(v)@.len() == old(v)@.len(),
        forall|i: int| 0 <= i < final(v)@.len() ==> final(v)@[i] == 0i64,
{
    let mut acc: i64 = 0;
    let mut k: usize = 0;
    let n = v.len();
    proof {
        assert(v@.subrange(0, 0) =~= Seq::<i64>::empty());
    }
    while k < n
        invariant
            k <= n,
            n == v@.len(),
            v@.len() == old(v)@.len(),
            forall|i: int| k <= i < v@.len() ==> v@[i] == old(v)@[i],
            forall|i: int| 0 <= i < k ==> v@[i] == 0i64,
            acc == vstd::wrapping::i64_specs::signed_crop(sum_i64(old(v)@.subrange(0, k as int))),
        decreases n - k,
    {
        let x = v[k];
        proof {
            let s = sum_i64(old(v)@.subrange(0, k as int));
            lemma_sum_i64_push(old(v)@, k as int);
            lemma_signed_crop_add(s, x as int);
        }
        acc = acc.wrapping_add(x);
        v.set(k, 0);
        k = k + 1;
    }
    proof {
        assert(old(v)@.subrange(0, n as int) =~= old(v)@);
    }
    acc
}

/// Folds all cells into their minimum without touching them.
pub fn fold_min(v: &Vec<u64>) -> (r: u64)
    ensures
        r == min_u64(v@),
{
    let mut acc: u64 = u64::MAX;
    let mut k: usize = 0;
    proof {
        assert(v@.subrange(0, 0) =~= Seq::<u64>::empty());
    }
    while k < v.len()
        invariant
            k <= v@.len(),
            acc == min_u64(v@.subrange(0, k as int)),
        decreases v@.len() - k,
    {
        let x = v[k];
        proof {
            assert(v@.subrange(0, k as int + 1).drop_last() =~= v@.subrange(0, k as int));
        }
        if x < acc {
            acc = x;
        }
        k = k + 1;
    }
    proof {
        assert(v@.subrange(0, v@.len() as int) =~= v@);
    }
    acc
}

/// Folds all cells into their minimum while swapping each cell back to the
/// `u64::MAX` sentinel.
pub fn drain_min(v: &mut Vec<u64>) -> (r: u64)
    ensures
        r == min_u64(old(v)@),
        final(v)@.len() == old(v)@.len(),
        forall|i: int| 0 <= i < final(v)@.len() ==> final(v)@[i] == u64::MAX,
{
    let mut acc: u64 = u64::MAX;
    let mut k: usize = 0;
    let n = v.len();
    proof {
        assert(v@.subrange(0, 0) =~= Seq::<u64>::empty());
    }
    while k < n
        invariant
            k <= n,
            n == v@.len(),
            v@.len() == old(v)@.len(),
            forall|i: int| k <= i < v@.len() ==> v@[i] == old(v)@[i],
            forall|i: int| 0 <= i < k ==> v@[i] == u64::MAX,
            acc == min_u64(old(v)@.subrange(0, k as int)),
        decreases n - k,
    {
        let x = v[k];
        proof {
            assert(old(v)@.subrange(0, k as int + 1).drop_last() =~= old(v)@.subrange(
                0,
                k as int,
            ));
        }
        if x < acc {
            acc = x;
        }
        v.set(k, u64::MAX);
        k = k + 1;
    }
    proof {
        assert(old(v)@.subrange(0, n as int) =~= old(v)@);
    }
    acc
}

/// Folds all cells into their maximum without touching them.
pub fn fold_max(v: &Vec<u64>) -> (r: u64)
    ensures
        r == max_u64(v@),
{
    let mut acc: u64 = 0;
    let mut k: usize = 0;
    proof {
        assert(v@.subrange(0, 0) =~= Seq::<u64>::empty());
    }
    while k < v.len()
        invariant
            k <= v@.len(),
            acc == max_u64(v@.subrange(0, k as int)),
        decreases v@.len() - k,
    {
        let x = v[k];
        proof {
            assert(v@.subrange(0, k as int + 1).drop_last() =~= v@.subrange(0, k as int));
        }
        if x > acc {
            acc = x;
        }
        k = k + 1;
    }
    proof {
        assert(v@.subrange(0, v@.len() as int) =~= v@);
    }
    acc
}

/// Folds all cells into their maximum while swapping each cell back to the
/// `0` sentinel.
pub fn drain_max(v: &mut Vec<u64>) -> (r: u64)
    ensures
        r == max_u64(old(v)@),
        final(v)@.len() == old(v)@.len(),
        forall|i: int| 0 <= i < final(v)@.len() ==> final(v)@[i] == 0u64,
{
    let mut acc: u64 = 0;
    let mut k: usize = 0;
    let n = v.len();
    proof {
        assert(v@.subrange(0, 0) =~= Seq::<u64>::empty());
    }
    while k < n
        invariant
            k <= n,
            n == v@.len(),
            v@.len() == old(v)@.len(),
            forall|i: int| k <= i < v@.len() ==> v@[i] == old(v)@[i],
            forall|i: int| 0 <= i < k ==> v@[i] == 0u64,
            acc == max_u64(old(v)@.subrange(0, k as int)),
        decreases n - k,
    {
        let x = v[k];
        proof {
            assert(old(v)@.subrange(0, k as int + 1).drop_last() =~= old(v)@.subrange(
                0,
                k as int,
            ));
        }
        if x > acc {
            acc = x;
        }
        v.set(k, 0);
        k = k + 1;
    }
    proof {
        assert(old(v)@.subrange(0, n as int) =~= old(v)@);
    }
    acc
}

/// A shard vector of zeros sums to zero.
pub proof fn lemma_sum_u64_zero(s: Seq<u64>)
    requires
        forall|i: int| 0 <= i < s.len() ==> s[i] == 0u64,
    ensures
        sum_u64(s) == 0,
    decreases s.len(),
{
    if s.len() > 0 {
        lemma_sum_u64_zero(s.drop_last());
    }
}

/// A signed shard vector of zeros sums to zero.
pub proof fn lemma_sum_i64_zero(s: Seq<i64>)
    requires
        forall|i: int| 0 <= i < s.len() ==> s[i] == 0i64,
    ensures
        sum_i64(s) == 0,
    decreases s.len(),
{
    if s.len() > 0 {
        lemma_sum_i64_zero(s.drop_last());
    }
}

/// The minimum fold is a lower bound on every cell.
pub proof fn lemma_min_is_lower_bound(s: Seq<u64>, i: int)
    requires
        0 <= i < s.len(),
    ensures
        min_u64(s) <= s[i],
    decreases s.len(),
{
    if i == s.len() - 1 {
    } else {
        lemma_min_is_lower_bound(s.drop_last(), i);
    }
}

/// The minimum fold is attained by some cell, unless the vector is empty.
pub proof fn lemma_min_is_attained(s: Seq<u64>)
    requires
        s.len() > 0,
    ensures
        exists|i: int| 0 <= i < s.len() && s[i] == min_u64(s),
    decreases s.len(),
{
    if s.len() == 1 {
        assert(s.drop_last().len() == 0);
        assert(min_u64(s.drop_last()) == u64::MAX);
        assert(s[0] == min_u64(s));
    } else if s.last() < min_u64(s.drop_last()) {
        assert(s[s.len() - 1] == min_u64(s));
    } else {
        lemma_min_is_attained(s.drop_last());
        let i = choose|i: int| 0 <= i < s.drop_last().len() && s.drop_last()[i] == min_u64(
            s.drop_last(),
        );
        assert(s[i] == min_u64(s));
    }
}

/// The maximum fold is an upper bound on every cell.
pub proof fn lemma_max_is_upper_bound(s: Seq<u64>, i: int)
    requires
        0 <= i < s.len(),
    ensures
        s[i] <= max_u64(s),
    decreases s.len(),
{
    if i == s.len() - 1 {
    } else {
        lemma_max_is_upper_bound(s.drop_last(), i);
    }
}

/// The maximum fold is attained by some cell, unless the vector is empty.
pub proof fn lemma_max_is_attained(s: Seq<u64>)
    requires
        s.len() > 0,
    ensures
        exists|i: int| 0 <= i < s.len() && s[i] == max_u64(s),
    decreases s.len(),
{
    if s.len() == 1 {
        assert(s.drop_last().len() == 0);
        assert(max_u64(s.drop_last()) == 0u64);
        assert(s[0] == max_u64(s));
    } else if s.last() > max_u64(s.drop_last()) {
        assert(s[s.len() - 1] == max_u64(s));
    } else {
        lemma_max_is_attained(s.drop_last());
        let i = choose|i: int| 0 <= i < s.drop_last().len() && s.drop_last()[i] == max_u64(
            s.drop_last(),
        );
        assert(s[i] == max_u64(s));
    }
}

/// Updating one cell moves the mathematical sum by exactly the difference
/// between the new and the old cell value.
pub proof fn lemma_sum_u64_update(s: Seq<u64>, i: int, x: u64)
    requires
        0 <= i < s.len(),
    ensures
        sum_u64(s.update(i, x)) == sum_u64(s) - s[i] + x,
    decreases s.len(),
{
    if i == s.len() - 1 {
        assert(s.update(i, x).drop_last() =~= s.drop_last());
    } else {
        assert(s.update(i, x).drop_last() =~= s.drop_last().update(i, x));
        lemma_sum_u64_update(s.drop_last(), i, x);
    }
}

/// The signed form of [`lemma_sum_u64_update`].
pub proof fn lemma_sum_i64_update(s: Seq<i64>, i: int, x: i64)
    requires
        0 <= i < s.len(),
    ensures
        sum_i64(s.update(i, x)) == sum_i64(s) - s[i] + x,
    decreases s.len(),
{
    if i == s.len() - 1 {
        assert(s.update(i, x).drop_last() =~= s.drop_last());
    } else {
        assert(s.update(i, x).drop_last() =~= s.drop_last().update(i, x));
        lemma_sum_i64_update(s.drop_last(), i, x);
    }
}

} // verus!
