use vstd::prelude::*;

use crate::error::EvalError;
use crate::model::{basis_view, padded_len, schedule, Step};
use crate::shaping::{scalar_steps, vector_steps, COEFFICIENT_GROUP};

verus! {

/// Points are handed to a vector kernel in whole batches of this many; the
/// rest goes to the scalar kernel. It is a multiple of every kernel's width.
pub const POINT_BATCH: usize = 8;

/// The evaluation kernels, by the number of points one iteration handles.
#[derive(Debug, Clone, Copy, PartialEq, Eq, Structural)]
pub enum KernelKind {
    Scalar,
    Lanes2,
    Lanes4,
    Lanes8,
}

impl KernelKind {
    /// Number of points that one iteration of the kernel evaluates.
    pub open spec fn width(self) -> nat {
        match self {
            KernelKind::Scalar => 1,
            KernelKind::Lanes2 => 2,
            KernelKind::Lanes4 => 4,
            KernelKind::Lanes8 => 8,
        }
    }

    /// Executable form of `width`.
    pub fn lanes(&self) -> (r: usize)
        ensures
            r == self.width(),
    {
        match self {
            KernelKind::Scalar => 1,
            KernelKind::Lanes2 => 2,
            KernelKind::Lanes4 => 4,
            KernelKind::Lanes8 => 8,
        }
    }
}

/// Which vector kernels the running machine can execute, as found by a
/// capability probe.
#[derive(Debug, Clone, Copy, PartialEq, Eq, Structural)]
pub struct VectorSupport {
    pub width2: bool,
    pub width4: bool,
    pub width8: bool,
}

/// Picks the widest kernel that the machine supports, and the scalar kernel
/// when it supports none.
pub fn select_kernel(support: VectorSupport) -> (r: KernelKind)
    ensures
        support.width8 ==> r == KernelKind::Lanes8,
        !support.width8 && support.width4 ==> r == KernelKind::Lanes4,
        !support.width8 && !support.width4 && support.width2 ==> r == KernelKind::Lanes2,
        !support.width8 && !support.width4 && !support.width2 ==> r == KernelKind::Scalar,
{
    if support.width8 {
        KernelKind::Lanes8
    } else if support.width4 {
        KernelKind::Lanes4
    } else if support.width2 {
        KernelKind::Lanes2
    } else {
        KernelKind::Scalar
    }
}

/// How an evaluation is carried out.
#[derive(Debug, Clone, Copy, PartialEq, Eq, Structural)]
pub enum Plan {
    /// There is nothing to evaluate: the result is empty.
    Empty,
    /// Every point goes to the scalar kernel.
    Scalar,
    /// The first `prefix` points go to `kernel`, the rest to the scalar
    /// kernel; the two results are concatenated in that order.
    Split { kernel: KernelKind, prefix: usize },
}

/// A basis is refused when it has as many entries as there are
/// coefficients, or more.
pub open spec fn basis_too_long(n_coefficients: usize, basis_len: Option<usize>) -> bool {
    basis_len.is_some() && basis_len.unwrap() >= n_coefficients
}

/// Validates the input sizes and chooses the strategy. `kernel` is the
/// kernel chosen for the machine (see `select_kernel`).
pub fn plan_evaluation(
    n_coefficients: usize,
    basis_len: Option<usize>,
    n_points: usize,
    kernel: KernelKind,
) -> (r: Result<Plan, EvalError>)
    ensures
        n_coefficients == 0 || n_points == 0 ==> r == Ok::<Plan, EvalError>(Plan::Empty),
        n_coefficients > 0 && n_points > 0 && basis_too_long(n_coefficients, basis_len) ==> r
            == Err::<Plan, EvalError>(EvalError::InvalidBasisLength),
        n_coefficients > 0 && n_points > 0 && !basis_too_long(n_coefficients, basis_len) && (
        kernel == KernelKind::Scalar || n_points < POINT_BATCH) ==> r == Ok::<Plan, EvalError>(
            Plan::Scalar,
        ),
        n_coefficients > 0 && n_points > 0 && !basis_too_long(n_coefficients, basis_len) && kernel
            != KernelKind::Scalar && n_points >= POINT_BATCH ==> r == Ok::<Plan, EvalError>(
            (Plan::Split { kernel, prefix: (n_points - n_points % POINT_BATCH) as usize }),
        ),
{
    if n_coefficients == 0 || n_points == 0 {
        return Ok(Plan::Empty);
    }
    if let Some(k) = basis_len {
        if k >= n_coefficients {
            return Err(EvalError::InvalidBasisLength);
        }
    }
    if kernel == KernelKind::Scalar || n_points < POINT_BATCH {
        Ok(Plan::Scalar)
    } else {
        Ok(Plan::Split { kernel, prefix: n_points - n_points % POINT_BATCH })
    }
}

/// Splits the points into the first `prefix` and the rest.
pub fn split_points<T: Copy>(points: &Vec<T>, prefix: usize) -> (r: (Vec<T>, Vec<T>))
    requires
        prefix <= points.len(),
    ensures
        r.0@ == points@.subrange(0, prefix as int),
        r.1@ == points@.subrange(prefix as int, points.len() as int),
{
    let mut head: Vec<T> = Vec::new();
    let mut tail: Vec<T> = Vec::new();
    let mut i: usize = 0;
    while i < points.len()
        invariant
            prefix <= points.len(),
            i <= points.len(),
            i <= prefix ==> head@ == points@.subrange(0, i as int) && tail@.len() == 0,
            i > prefix ==> head@ == points@.subrange(0, prefix as int) && tail@
                == points@.subrange(prefix as int, i as int),
        decreases points.len() - i,
    {
        if i < prefix {
            head.push(points[i]);
        } else {
            tail.push(points[i]);
        }
        i = i + 1;
        assert(head@ =~= points@.subrange(0, if i <= prefix { i as int } else { prefix as int }));
        if i > prefix {
            assert(tail@ =~= points@.subrange(prefix as int, i as int));
        }
    }
    (head, tail)
}

/// Joins the results of the vector-evaluated prefix and of the scalar tail,
/// keeping the order of the points.
pub fn stitch<T>(head: Vec<T>, tail: Vec<T>) -> (r: Vec<T>)
    ensures
        r@ == head@ + tail@,
{
    let mut r = head;
    let mut t = tail;
    r.append(&mut t);
    r
}

/// Whole batches of points fill whole lane groups of every kernel.
proof fn lemma_whole_batches_fill_lanes(m: nat, width: nat)
    requires
        width == 1 || width == 2 || width == 4 || width == 8,
    ensures
        (m - m % (POINT_BATCH as nat)) as nat % width == 0,
{
    let q = m / 8;
    vstd::arithmetic::div_mod::lemma_fundamental_div_mod(m as int, 8);
    assert((m - m % 8) as nat == q * 8);
    let k: nat = if width == 1 {
        q * 8
    } else if width == 2 {
        q * 4
    } else if width == 4 {
        q * 2
    } else {
        q
    };
    assert(k * width == q * 8);
    vstd::arithmetic::div_mod::lemma_mod_multiples_basic(k as int, width as int);
}

/// Everything the kernels need for one evaluation: the `head` points go to
/// `kernel` with `head_steps`, the `tail` points to the scalar kernel with
/// `tail_steps`, and the results are joined with `stitch`.
pub struct EvaluationJob<T> {
    pub kernel: KernelKind,
    pub head_steps: Vec<Step<T>>,
    pub head: Vec<T>,
    pub tail_steps: Vec<Step<T>>,
    pub tail: Vec<T>,
}

/// Validates the input, chooses the strategy for `kernel`, and prepares the
/// coefficient and basis steps and the point batches for it. `zero` is the
/// element type's zero, used for padding.
pub fn prepare_evaluation<T: Copy>(
    c: &Vec<T>,
    points: &Vec<T>,
    basis: Option<&Vec<T>>,
    kernel: KernelKind,
    zero: T,
) -> (r: Result<EvaluationJob<T>, EvalError>)
    requires
        c.len() + COEFFICIENT_GROUP <= usize::MAX,
    ensures
        r.is_err() <==> c.len() > 0 && points.len() > 0 && basis_view(basis).len() >= c.len(),
        r.is_err() ==> r == Err::<EvaluationJob<T>, EvalError>(EvalError::InvalidBasisLength),
        r.is_ok() ==> ({
            let job = r.unwrap();
            let b = basis_view(basis);
            let n = c.len();
            let m = points.len();
            &&& n > 0 ==> job.head@ + job.tail@ == points@
            &&& n == 0 ==> job.head@.len() == 0 && job.tail@.len() == 0
            &&& n > 0 && (kernel == KernelKind::Scalar || m < POINT_BATCH) ==> job.head@.len() == 0
            &&& n > 0 && kernel != KernelKind::Scalar && m >= POINT_BATCH ==> job.head@.len() == m
                - m % POINT_BATCH
            &&& job.head@.len() % job.kernel.width() == 0
            &&& job.head@.len() > 0 ==> job.kernel == kernel && job.head_steps@ == schedule(
                c@,
                b,
                padded_len(n as nat, COEFFICIENT_GROUP as nat),
                zero,
            )
            &&& job.head@.len() == 0 ==> job.kernel == KernelKind::Scalar && job.head_steps@.len()
                == 0
            &&& job.tail@.len() > 0 ==> job.tail_steps@ == schedule(c@, b, n as nat, zero)
        }),
{
    let basis_len = match basis {
        Some(b) => Some(b.len()),
        None => None,
    };
    let plan = plan_evaluation(c.len(), basis_len, points.len(), kernel);
    match plan {
        Err(e) => Err(e),
        Ok(Plan::Empty) => {
            assert(c.len() > 0 ==> points@ =~= Seq::<T>::empty() + Seq::<T>::empty());
            Ok(
                EvaluationJob {
                    kernel: KernelKind::Scalar,
                    head_steps: Vec::new(),
                    head: Vec::new(),
                    tail_steps: Vec::new(),
                    tail: Vec::new(),
                },
            )
        },
        Ok(Plan::Scalar) => {
            let (head, tail) = split_points(points, 0);
            assert(points@.subrange(0, points.len() as int) =~= points@);
            Ok(
                EvaluationJob {
                    kernel: KernelKind::Scalar,
                    head_steps: Vec::new(),
                    head,
                    tail_steps: scalar_steps(c, basis, zero),
                    tail,
                },
            )
        },
        Ok(Plan::Split { kernel, prefix }) => {
            let (head, tail) = split_points(points, prefix);
            proof {
                lemma_whole_batches_fill_lanes(points.len() as nat, kernel.width());
            }
            assert(points@.subrange(0, prefix as int) + points@.subrange(
                prefix as int,
                points.len() as int,
            ) =~= points@);
            Ok(
                EvaluationJob {
                    kernel,
                    head_steps: vector_steps(c, basis, COEFFICIENT_GROUP, zero),
                    head,
                    tail_steps: scalar_steps(c, basis, zero),
                    tail,
                },
            )
        },
    }
}

} // verus!
