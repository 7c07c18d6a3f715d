use vstd::prelude::*;

verus! {

/// One nesting level as a kernel consumes it: with `multiply`, the
/// accumulator `y` becomes `(x - shift) * (coefficient + y)`; without, it
/// becomes `coefficient + y`.
#[derive(Debug, PartialEq, Eq)]
pub struct Step<T> {
    pub coefficient: T,
    pub shift: T,
    pub multiply: bool,
}

/// Entry `k` of `s`, or `zero` where `k` lies outside it: missing basis
/// entries and padding coefficients are zero.
pub open spec fn entry_or<T>(s: Seq<T>, k: int, zero: T) -> T {
    if 0 <= k < s.len() {
        s[k]
    } else {
        zero
    }
}

/// The basis given, or the empty basis when none is.
pub open spec fn basis_view<T>(basis: Option<&Vec<T>>) -> Seq<T> {
    match basis {
        Some(b) => b@,
        None => Seq::empty(),
    }
}

/// `b` filled with `zero` up to length `len`.
pub open spec fn zero_filled<T>(b: Seq<T>, len: nat, zero: T) -> Seq<T> {
    Seq::new(len, |k: int| entry_or(b, k, zero))
}

/// The steps that evaluate coefficients `c` with basis `b`, after the
/// coefficients were padded with zeros to `len` levels: innermost level
/// first. Step `j` handles level `k = len - 1 - j`, pairing coefficient
/// `c[k]` with shift `b[k - 1]`; the last step (level 0) only adds.
pub open spec fn schedule<T>(c: Seq<T>, b: Seq<T>, len: nat, zero: T) -> Seq<Step<T>> {
    Seq::new(
        len,
        |j: int|
            Step {
                coefficient: entry_or(c, len - 1 - j, zero),
                shift: if j < len - 1 {
                    entry_or(b, len - 2 - j, zero)
                } else {
                    zero
                },
                multiply: j < len - 1,
            },
    )
}

/// `n` rounded up to a multiple of `group`.
pub open spec fn padded_len(n: nat, group: nat) -> nat
    recommends
        group > 0,
{
    if n % group == 0 {
        n
    } else {
        (n + group - n % group) as nat
    }
}

/// What a kernel computes from one step, in exact arithmetic.
pub open spec fn apply_step(s: Step<int>, x: int, y: int) -> int {
    if s.multiply {
        (x - s.shift) * (s.coefficient + y)
    } else {
        s.coefficient + y
    }
}

/// The accumulator after the first `i` steps, starting from zero.
pub open spec fn run_prefix(steps: Seq<Step<int>>, x: int, i: nat) -> int
    decreases i,
{
    if i == 0 || i > steps.len() {
        0
    } else {
        apply_step(steps[i - 1], x, run_prefix(steps, x, (i - 1) as nat))
    }
}

/// The value that a kernel folding over `steps` returns at `x`, in exact
/// arithmetic.
pub open spec fn run(steps: Seq<Step<int>>, x: int) -> int {
    run_prefix(steps, x, steps.len())
}

/// The nested form from level `k` inward:
/// `c[k] + (x - b[k]) * (c[k + 1] + (x - b[k + 1]) * (...))`.
pub open spec fn nested_from(c: Seq<int>, b: Seq<int>, x: int, k: nat) -> int
    decreases c.len() - k,
{
    if k >= c.len() {
        0
    } else {
        c[k as int] + (x - entry_or(b, k as int, 0)) * nested_from(c, b, x, k + 1)
    }
}

/// The polynomial `c0 + (x - b0)(c1 + (x - b1)(c2 + ...))` at `x`.
pub open spec fn nested(c: Seq<int>, b: Seq<int>, x: int) -> int {
    nested_from(c, b, x, 0)
}

} // verus!
