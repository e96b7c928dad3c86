//! The growth law of the array's capacity.
use vstd::prelude::*;

verus! {

/// The capacity after one push onto an array of `len` elements and `cap`
/// slots: four when nothing is reserved yet, twice as many when every slot
/// is in use, and unchanged otherwise.
pub open spec fn grown_capacity(len: nat, cap: nat) -> nat {
    if cap == 0 {
        4
    } else if len < cap {
        cap
    } else {
        cap * 2
    }
}

/// The capacity of an array after `n` pushes onto a new one.
pub open spec fn capacity_after(n: nat) -> nat
    decreases n,
{
    if n == 0 {
        0
    } else {
        grown_capacity((n - 1) as nat, capacity_after((n - 1) as nat))
    }
}

/// After at least one push the capacity is at least four and at least the
/// length; above four, it is less than twice the length.
pub proof fn lemma_capacity_bounds(n: nat)
    ensures
        n <= capacity_after(n),
        n >= 1 ==> 4 <= capacity_after(n),
        capacity_after(n) > 4 ==> capacity_after(n) < 2 * n,
        capacity_after(n) == 0 <==> n == 0,
    decreases n,
{
    if n > 0 {
        lemma_capacity_bounds((n - 1) as nat);
    }
}

/// The growth law: capacity is zero on a new array and four after the first
/// push; from then on a push doubles it exactly when the length has reached
/// it, and leaves it as it is otherwise.
pub proof fn lemma_capacity_growth(n: nat)
    ensures
        capacity_after(0) == 0,
        capacity_after(1) == 4,
        n >= 1 ==> capacity_after(n + 1) == if n == capacity_after(n) {
            2 * capacity_after(n)
        } else {
            capacity_after(n)
        },
{
    assert(capacity_after(1) == grown_capacity(0, capacity_after(0)));
    assert(capacity_after(n + 1) == grown_capacity(n, capacity_after(n)));
    lemma_capacity_bounds(n);
}

/// Capacity never shrinks: after more pushes there are at least as many slots.
pub proof fn lemma_capacity_monotone(m: nat, n: nat)
    requires
        m <= n,
    ensures
        capacity_after(m) <= capacity_after(n),
    decreases n - m,
{
    if m < n {
        lemma_capacity_monotone(m, (n - 1) as nat);
        lemma_capacity_bounds((n - 1) as nat);
        assert(capacity_after(n) == grown_capacity((n - 1) as nat, capacity_after((n - 1) as nat)));
    }
}

} // verus!
