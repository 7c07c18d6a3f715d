use vstd::prelude::*;

use crate::model::{entry_or, nested, nested_from, padded_len, run, run_prefix, schedule, zero_filled};

verus! {

/// A basis shorter than `|c| - 1` gives the kernels the same steps as that
/// basis filled with zeros to `|c| - 1` entries, whatever the padded length:
/// the two evaluate identically on the scalar and on every vector path.
pub proof fn lemma_short_basis_as_zero_filled<T>(c: Seq<T>, b: Seq<T>, len: nat, zero: T)
    requires
        b.len() < c.len(),
    ensures
        schedule(c, b, len, zero) == schedule(c, zero_filled(b, (c.len() - 1) as nat, zero), len, zero),
{
    let filled = zero_filled(b, (c.len() - 1) as nat, zero);
    assert forall|k: int| #[trigger] entry_or(b, k, zero) == entry_or(filled, k, zero) by {}
    assert(schedule(c, b, len, zero) =~= schedule(c, filled, len, zero));
}

/// After the first `i` steps (all of which multiply), the accumulator holds
/// the nested form from level `len - i` inward, times the shift factor of
/// the level below it.
proof fn lemma_run_prefix_inner(c: Seq<int>, b: Seq<int>, x: int, len: nat, i: nat)
    requires
        c.len() >= 1,
        len >= c.len(),
        i < len,
    ensures
        run_prefix(schedule(c, b, len, 0), x, i) == (x - entry_or(b, len - 1 - i, 0)) * nested_from(
            c,
            b,
            x,
            (len - i) as nat,
        ),
    decreases i,
{
    let steps = schedule(c, b, len, 0);
    if i == 0 {
        assert(nested_from(c, b, x, len) == 0);
    } else {
        lemma_run_prefix_inner(c, b, x, len, (i - 1) as nat);
        let k = len - i;
        let inner = nested_from(c, b, x, (k + 1) as nat);
        assert(entry_or(c, k, 0) + (x - entry_or(b, k, 0)) * inner == nested_from(c, b, x, k as nat));
        assert(steps[i - 1].multiply);
        assert(steps[i - 1].coefficient == entry_or(c, k, 0));
        assert(steps[i - 1].shift == entry_or(b, k - 1, 0));
    }
}

/// In exact arithmetic, folding over the steps of coefficients padded to any
/// length `len >= |c|` yields the nested form
/// `c0 + (x - b0)(c1 + (x - b1)(c2 + ...))` at `x`.
pub proof fn lemma_schedule_computes_nested(c: Seq<int>, b: Seq<int>, x: int, len: nat)
    requires
        c.len() >= 1,
        len >= c.len(),
    ensures
        run(schedule(c, b, len, 0), x) == nested(c, b, x),
{
    let steps = schedule(c, b, len, 0);
    lemma_run_prefix_inner(c, b, x, len, (len - 1) as nat);
    assert(!steps[len - 1].multiply);
    assert(steps[len - 1].coefficient == c[0]);
    assert(nested_from(c, b, x, 0) == c[0] + (x - entry_or(b, 0, 0)) * nested_from(c, b, x, 1));
}

/// In exact arithmetic, the vector path (coefficients padded to a multiple
/// of `group`) and the scalar path (unpadded) agree at every point, and both
/// equal the nested form.
pub proof fn lemma_vector_agrees_with_scalar(c: Seq<int>, b: Seq<int>, x: int, group: nat)
    requires
        c.len() >= 1,
        group > 0,
    ensures
        run(schedule(c, b, padded_len(c.len(), group), 0), x) == run(schedule(c, b, c.len(), 0), x),
        run(schedule(c, b, c.len(), 0), x) == nested(c, b, x),
{
    let n = c.len();
    if n % group != 0 {
        assert(n % group < group) by {
            vstd::arithmetic::div_mod::lemma_mod_bound(n as int, group as int);
        }
    }
    lemma_schedule_computes_nested(c, b, x, padded_len(n, group));
    lemma_schedule_computes_nested(c, b, x, n);
}

} // verus!
