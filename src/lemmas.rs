use vstd::prelude::*;
use vstd::arithmetic::power2::{pow2, lemma_pow2_unfold};
use vstd::arithmetic::power::lemma_pow0;
use crate::my_vec::capacity_after_push;

verus! {

/// The elements after each of `values` is pushed, in order, onto `start`.
pub open spec fn after_pushes<T>(start: Seq<T>, values: Seq<T>) -> Seq<T>
    decreases values.len(),
{
    if values.len() == 0 {
        start
    } else {
        after_pushes(start, values.drop_last()).push(values.last())
    }
}

/// The capacity of a fresh array after `n` elements are pushed one by one.
pub open spec fn capacity_after_pushes(n: nat) -> nat
    decreases n,
{
    if n == 0 {
        0
    } else {
        capacity_after_push((n - 1) as nat, capacity_after_pushes((n - 1) as nat))
    }
}

/// `c` is the smallest of 1, 2, 4, 8, ... that is at least `n`.
pub open spec fn is_least_power_of_two_at_least(c: nat, n: nat) -> bool {
    exists|k: nat| #[trigger] pow2(k) == c && n <= c && (k == 0 || pow2((k - 1) as nat) < n)
}

/// Pushing values one by one onto an array appends them in push order.
pub proof fn lemma_after_pushes_appends<T>(start: Seq<T>, values: Seq<T>)
    ensures
        after_pushes(start, values) == start + values,
    decreases values.len(),
{
    if values.len() > 0 {
        lemma_after_pushes_appends(start, values.drop_last());
        assert(start + values =~= (start + values.drop_last()).push(values.last()));
    }
}

/// After `N` pushes onto an empty array its length is `N`, and the element at
/// position `i` is the `i`-th value pushed.
pub proof fn lemma_pushes_in_order<T>(values: Seq<T>)
    ensures
        after_pushes(Seq::empty(), values).len() == values.len(),
        forall|i: int| 0 <= i < values.len() ==> #[trigger] after_pushes(Seq::empty(), values)[i] == values[i],
{
    lemma_after_pushes_appends(Seq::empty(), values);
    assert(Seq::<T>::empty() + values =~= values);
}

/// Growth by doubling: after `n` pushes onto a fresh array the capacity is the
/// smallest of 1, 2, 4, 8, ... that is at least `n`, and it is zero before the
/// first push.
pub proof fn lemma_capacity_doubles(n: nat)
    ensures
        n == 0 ==> capacity_after_pushes(n) == 0,
        0 < n ==> is_least_power_of_two_at_least(capacity_after_pushes(n), n),
    decreases n,
{
    if n == 1 {
        lemma_pow0(2);
        assert(capacity_after_pushes(0) == 0);
        assert(capacity_after_pushes(1) == 1);
        assert(pow2(0) == 1);
        assert(pow2(0) == capacity_after_pushes(n) && n <= pow2(0));
    } else if n > 1 {
        let m = (n - 1) as nat;
        lemma_capacity_doubles(m);
        let c = capacity_after_pushes(m);
        let k = choose|k: nat| #[trigger] pow2(k) == c && m <= c && (k == 0 || pow2((k - 1) as nat) < m);
        if m == c {
            lemma_pow2_unfold(k + 1);
            assert(((k + 1) - 1) as nat == k);
            assert(capacity_after_pushes(n) == 2 * c);
            assert(pow2(k + 1) == capacity_after_pushes(n) && n <= pow2(k + 1) && pow2(
                ((k + 1) - 1) as nat,
            ) < n);
        } else {
            assert(capacity_after_pushes(n) == c);
            assert(pow2(k) == capacity_after_pushes(n) && n <= pow2(k));
        }
    }
}

} // verus!
