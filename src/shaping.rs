use vstd::prelude::*;

use crate::model::{basis_view, entry_or, padded_len, schedule, zero_filled, Step};

verus! {

/// Coefficients are padded to a multiple of this many before they reach a
/// vector kernel.
pub const COEFFICIENT_GROUP: usize = 4;

/// `n` rounded up to a multiple of `group`.
fn round_up(n: usize, group: usize) -> (r: usize)
    requires
        group > 0,
        n + group <= usize::MAX,
    ensures
        r == padded_len(n as nat, group as nat),
        n <= r,
        r % group == 0,
{
    let rem = n % group;
    if rem == 0 {
        n
    } else {
        assert((n + group - rem) % (group as int) == 0) by (nonlinear_arith)
            requires
                rem == n % group,
                group > 0,
        {
            vstd::arithmetic::div_mod::lemma_fundamental_div_mod(n as int, group as int);
            vstd::arithmetic::div_mod::lemma_mod_multiples_basic(n as int / group as int + 1, group as int);
        }
        n + group - rem
    }
}

/// The coefficients padded with `zero` to a multiple of `group` and then
/// reversed, so that the innermost level comes first.
pub fn reverse_pad_coefficients<T: Copy>(c: &Vec<T>, group: usize, zero: T) -> (r: Vec<T>)
    requires
        group > 0,
        c.len() + group <= usize::MAX,
    ensures
        r@.len() == padded_len(c.len() as nat, group as nat),
        r@ == Seq::new(r@.len(), |j: int| entry_or(c@, r@.len() - 1 - j, zero)),
{
    let len = round_up(c.len(), group);
    let mut r: Vec<T> = Vec::new();
    let mut j: usize = 0;
    while j < len
        invariant
            c.len() <= len,
            j <= len,
            r@.len() == j,
            forall|i: int| 0 <= i < j ==> r@[i] == entry_or(c@, len - 1 - i, zero),
        decreases len - j,
    {
        let k = len - 1 - j;
        if k < c.len() {
            r.push(c[k]);
        } else {
            r.push(zero);
        }
        j = j + 1;
    }
    assert(r@ =~= Seq::new(r@.len(), |j: int| entry_or(c@, r@.len() - 1 - j, zero)));
    r
}

/// The basis filled with `zero` to `len` entries, reversed, and followed by
/// one `zero` sentinel: entry `j` is the shift paired with entry `j` of
/// coefficients of length `len` prepared by `reverse_pad_coefficients`.
pub fn prepare_basis<T: Copy>(basis: Option<&Vec<T>>, len: usize, zero: T) -> (r: Vec<T>)
    requires
        basis_view(basis).len() < len,
    ensures
        r@ == Seq::new(
            len as nat,
            |j: int|
                if j < len - 1 {
                    entry_or(basis_view(basis), len - 2 - j, zero)
                } else {
                    zero
                },
        ),
{
    let filled = expand_basis(basis, len - 1, zero);
    let mut r: Vec<T> = Vec::new();
    let mut j: usize = 0;
    while j < len - 1
        invariant
            filled@ == zero_filled(basis_view(basis), (len - 1) as nat, zero),
            len >= 1,
            j <= len - 1,
            r@.len() == j,
            forall|i: int| 0 <= i < j ==> r@[i] == entry_or(basis_view(basis), len - 2 - i, zero),
        decreases len - 1 - j,
    {
        r.push(filled[len - 2 - j]);
        j = j + 1;
    }
    r.push(zero);
    assert(r@ =~= Seq::new(
        len as nat,
        |j: int|
            if j < len - 1 {
                entry_or(basis_view(basis), len - 2 - j, zero)
            } else {
                zero
            },
    ));
    r
}

/// The basis filled with `zero` to `len` entries; no basis counts as an
/// empty one.
pub fn expand_basis<T: Copy>(basis: Option<&Vec<T>>, len: usize, zero: T) -> (r: Vec<T>)
    requires
        basis_view(basis).len() <= len,
    ensures
        r@ == zero_filled(basis_view(basis), len as nat, zero),
{
    let mut r: Vec<T> = Vec::new();
    let mut k: usize = 0;
    while k < len
        invariant
            basis_view(basis).len() <= len,
            k <= len,
            r@.len() == k,
            forall|i: int| 0 <= i < k ==> r@[i] == entry_or(basis_view(basis), i, zero),
        decreases len - k,
    {
        match basis {
            Some(b) => {
                if k < b.len() {
                    r.push(b[k]);
                } else {
                    r.push(zero);
                }
            },
            None => {
                r.push(zero);
            },
        }
        k = k + 1;
    }
    assert(r@ =~= zero_filled(basis_view(basis), len as nat, zero));
    r
}

/// The steps of the scalar kernel: one per coefficient, innermost first,
/// with the unpadded coefficients and the basis filled with `zero`.
pub fn scalar_steps<T: Copy>(c: &Vec<T>, basis: Option<&Vec<T>>, zero: T) -> (r: Vec<Step<T>>)
    requires
        c.len() >= 1,
        basis_view(basis).len() < c.len(),
    ensures
        r@ == schedule(c@, basis_view(basis), c.len() as nat, zero),
{
    let n = c.len();
    let filled = expand_basis(basis, n - 1, zero);
    let mut r: Vec<Step<T>> = Vec::new();
    let mut j: usize = 0;
    while j < n
        invariant
            n == c.len(),
            n >= 1,
            filled@ == zero_filled(basis_view(basis), (n - 1) as nat, zero),
            j <= n,
            r@.len() == j,
            forall|i: int| 0 <= i < j ==> r@[i] == schedule(c@, basis_view(basis), n as nat, zero)[i],
        decreases n - j,
    {
        let k = n - 1 - j;
        if j + 1 < n {
            r.push(Step { coefficient: c[k], shift: filled[k - 1], multiply: true });
        } else {
            r.push(Step { coefficient: c[0], shift: zero, multiply: false });
        }
        j = j + 1;
    }
    assert(r@ =~= schedule(c@, basis_view(basis), n as nat, zero));
    r
}

/// The steps of a vector kernel: the coefficients padded with `zero` to a
/// multiple of `group` and reversed, each paired with its shift from
/// `prepare_basis`; only the last step, that of the outermost coefficient,
/// omits the multiplication.
pub fn vector_steps<T: Copy>(c: &Vec<T>, basis: Option<&Vec<T>>, group: usize, zero: T) -> (r: Vec<
    Step<T>,
>)
    requires
        c.len() >= 1,
        basis_view(basis).len() < c.len(),
        group > 0,
        c.len() + group <= usize::MAX,
    ensures
        r@ == schedule(c@, basis_view(basis), padded_len(c.len() as nat, group as nat), zero),
{
    let coefficients = reverse_pad_coefficients(c, group, zero);
    let len = coefficients.len();
    let shifts = prepare_basis(basis, len, zero);
    let ghost sched = schedule(c@, basis_view(basis), len as nat, zero);
    let mut r: Vec<Step<T>> = Vec::new();
    let mut j: usize = 0;
    while j < len
        invariant
            len == coefficients.len(),
            len >= 1,
            coefficients@ == Seq::new(len as nat, |j: int| entry_or(c@, len - 1 - j, zero)),
            shifts@ == Seq::new(
                len as nat,
                |j: int|
                    if j < len - 1 {
                        entry_or(basis_view(basis), len - 2 - j, zero)
                    } else {
                        zero
                    },
            ),
            sched == schedule(c@, basis_view(basis), len as nat, zero),
            j <= len,
            r@.len() == j,
            forall|i: int| 0 <= i < j ==> r@[i] == sched[i],
        decreases len - j,
    {
        r.push(Step { coefficient: coefficients[j], shift: shifts[j], multiply: j + 1 < len });
        j = j + 1;
    }
    assert(r@ =~= sched);
    r
}

} // verus!
