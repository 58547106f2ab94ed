use vstd::prelude::*;
use vstd::arithmetic::div_mod::{
    lemma_add_mod_noop_right, lemma_mod_add_multiples_vanish, lemma_mod_division_less_than_divisor,
    lemma_mod_multiples_vanish, lemma_mod_self_0, lemma_small_mod,
};
use vstd::arithmetic::mul::lemma_mul_is_commutative;

verus! {

/// A selection is valid for a list of length `n` when it is absent or an
/// index in `[0, n)`.
pub open spec fn sel_valid(sel: Option<usize>, n: nat) -> bool {
    match sel {
        None => true,
        Some(i) => i < n,
    }
}

/// One step of circular forward navigation over a list of length `n`:
/// an empty list leaves the selection untouched, no selection picks the first
/// row, the last row wraps to the first, any other row advances by one.
pub open spec fn spec_sel_inc(sel: Option<usize>, n: nat) -> Option<usize> {
    if n == 0 {
        sel
    } else {
        match sel {
            None => Some(0usize),
            Some(i) => if i + 1 >= n {
                Some(0usize)
            } else {
                Some((i + 1) as usize)
            },
        }
    }
}

/// One step of circular backward navigation, symmetric to `spec_sel_inc`:
/// no selection picks the last row, the first row wraps to the last.
pub open spec fn spec_sel_dec(sel: Option<usize>, n: nat) -> Option<usize> {
    if n == 0 {
        sel
    } else {
        match sel {
            None => Some((n - 1) as usize),
            Some(i) => if i == 0 {
                Some((n - 1) as usize)
            } else {
                Some((i - 1) as usize)
            },
        }
    }
}

/// `k` forward steps in a row.
pub open spec fn spec_sel_inc_iter(sel: Option<usize>, n: nat, k: nat) -> Option<usize>
    decreases k,
{
    if k == 0 {
        sel
    } else {
        spec_sel_inc(spec_sel_inc_iter(sel, n, (k - 1) as nat), n)
    }
}

/// `k` backward steps in a row.
pub open spec fn spec_sel_dec_iter(sel: Option<usize>, n: nat, k: nat) -> Option<usize>
    decreases k,
{
    if k == 0 {
        sel
    } else {
        spec_sel_dec(spec_sel_dec_iter(sel, n, (k - 1) as nat), n)
    }
}

/// Navigation never leaves the list: a valid selection stays valid under one
/// forward or backward step.
pub proof fn lemma_sel_step_valid(sel: Option<usize>, n: nat)
    requires
        sel_valid(sel, n),
    ensures
        sel_valid(spec_sel_inc(sel, n), n),
        sel_valid(spec_sel_dec(sel, n), n),
{
}

/// On an empty list, forward and backward navigation are no-ops: the
/// selection stays exactly as it was.
pub proof fn lemma_sel_empty_noop(sel: Option<usize>, k: nat)
    ensures
        spec_sel_inc(sel, 0) == sel,
        spec_sel_dec(sel, 0) == sel,
        spec_sel_inc_iter(sel, 0, k) == sel,
        spec_sel_dec_iter(sel, 0, k) == sel,
    decreases k,
{
    if k > 0 {
        lemma_sel_empty_noop(sel, (k - 1) as nat);
    }
}

/// One backward step undoes one forward step and the other way round, for
/// every selection that is valid for a non-empty list.
pub proof fn lemma_sel_inverse(i: usize, n: nat)
    requires
        i < n,
        n <= usize::MAX,
    ensures
        spec_sel_dec(spec_sel_inc(Some(i), n), n) == Some(i),
        spec_sel_inc(spec_sel_dec(Some(i), n), n) == Some(i),
{
}

/// After `k` forward steps from row `i` of a non-empty list the selection
/// sits at row `(i + k) mod n`.
pub proof fn lemma_sel_inc_iter_formula(i: usize, n: nat, k: nat)
    requires
        i < n,
        n <= usize::MAX,
    ensures
        spec_sel_inc_iter(Some(i), n, k) == Some(((i + k) % (n as int)) as usize),
    decreases k,
{
    let ni = n as int;
    if k == 0 {
        lemma_small_mod(i as nat, n);
    } else {
        lemma_sel_inc_iter_formula(i, n, (k - 1) as nat);
        let prev = i + k - 1;
        let m = prev % ni;
        lemma_mod_division_less_than_divisor(prev, ni);
        lemma_add_mod_noop_right(1, prev, ni);
        assert((1 + m) % ni == (i + k) % ni);
        if m + 1 == ni {
            lemma_mod_self_0(ni);
        } else {
            lemma_small_mod((m + 1) as nat, n);
        }
    }
}

/// After `k` backward steps from row `i` of a non-empty list the selection
/// sits at row `(i + (n - 1) * k) mod n`: one backward step is `n - 1`
/// forward steps.
pub proof fn lemma_sel_dec_iter_formula(i: usize, n: nat, k: nat)
    requires
        i < n,
        n <= usize::MAX,
    ensures
        spec_sel_dec_iter(Some(i), n, k) == Some(((i + (n - 1) * k) % (n as int)) as usize),
    decreases k,
{
    let ni = n as int;
    if k == 0 {
        assert((n - 1) * 0 == 0) by (nonlinear_arith);
        lemma_small_mod(i as nat, n);
    } else {
        lemma_sel_dec_iter_formula(i, n, (k - 1) as nat);
        let prev = i + (n - 1) * (k - 1);
        let m = prev % ni;
        lemma_mod_division_less_than_divisor(prev, ni);
        assert(i + (n - 1) * (k as int) == i + (n - 1) * (k - 1) + (n - 1)) by (nonlinear_arith);
        lemma_add_mod_noop_right(ni - 1, prev, ni);
        assert(((ni - 1) + m) % ni == (i + (n - 1) * (k as int)) % ni);
        if m == 0 {
            lemma_small_mod((n - 1) as nat, n);
        } else {
            lemma_mod_add_multiples_vanish(m - 1, ni);
            lemma_small_mod((m - 1) as nat, n);
        }
    }
}

/// Cyclic law: on a list of length `n >= 1`, `n` forward steps return the
/// selection to its starting row, and so do `n` backward steps.
pub proof fn lemma_sel_cycle(i: usize, n: nat)
    requires
        1 <= n,
        i < n,
        n <= usize::MAX,
    ensures
        spec_sel_inc_iter(Some(i), n, n) == Some(i),
        spec_sel_dec_iter(Some(i), n, n) == Some(i),
{
    let ni = n as int;
    lemma_sel_inc_iter_formula(i, n, n);
    lemma_mod_add_multiples_vanish(i as int, ni);
    lemma_small_mod(i as nat, n);
    lemma_sel_dec_iter_formula(i, n, n);
    lemma_mul_is_commutative(ni - 1, ni);
    lemma_mod_multiples_vanish(ni - 1, i as int, ni);
    assert((n - 1) * (n as int) == (ni - 1) * ni);
}

} // verus!
