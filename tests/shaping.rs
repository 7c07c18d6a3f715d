use poly_eval::{expand_basis, prepare_basis, reverse_pad_coefficients, scalar_steps, vector_steps, Step};

fn step(coefficient: i64, shift: i64, multiply: bool) -> Step<i64> {
    Step { coefficient, shift, multiply }
}

#[test]
fn coefficients_are_padded_then_reversed() {
    assert_eq!(reverse_pad_coefficients(&vec![1, 2, 3], 4, 0), vec![0, 3, 2, 1]);
    assert_eq!(reverse_pad_coefficients(&vec![1, 2, 3, 4], 4, 0), vec![4, 3, 2, 1]);
    assert_eq!(reverse_pad_coefficients(&vec![1, 2, 3, 4, 5], 4, 0), vec![0, 0, 0, 5, 4, 3, 2, 1]);
    assert_eq!(reverse_pad_coefficients(&vec![7], 1, 0), vec![7]);
}

#[test]
fn empty_coefficients_stay_empty() {
    assert_eq!(reverse_pad_coefficients(&Vec::<i64>::new(), 4, 0), Vec::<i64>::new());
}

#[test]
fn basis_is_filled_reversed_and_closed_by_sentinel() {
    let b = vec![1, 2];
    assert_eq!(prepare_basis(Some(&b), 4, 0), vec![0, 2, 1, 0]);
    assert_eq!(prepare_basis(None, 4, 0), vec![0, 0, 0, 0]);
    let b = vec![3, 4, 5];
    assert_eq!(prepare_basis(Some(&b), 4, 0), vec![5, 4, 3, 0]);
    assert_eq!(prepare_basis(Some(&b), 8, 0), vec![0, 0, 0, 0, 5, 4, 3, 0]);
}

#[test]
fn basis_expansion_fills_with_zero() {
    let b = vec![3];
    assert_eq!(expand_basis(Some(&b), 3, 0), vec![3, 0, 0]);
    assert_eq!(expand_basis(None, 2, 0), vec![0, 0]);
    assert_eq!(expand_basis(Some(&b), 1, 0), vec![3]);
}

#[test]
fn scalar_steps_pair_each_coefficient_with_shift_below() {
    let c = vec![1, 2, 3];
    let b = vec![4, 5];
    assert_eq!(
        scalar_steps(&c, Some(&b), 0),
        vec![step(3, 5, true), step(2, 4, true), step(1, 0, false)]
    );
}

#[test]
fn scalar_steps_of_constant_only_add() {
    assert_eq!(scalar_steps(&vec![9], None, 0), vec![step(9, 0, false)]);
}

#[test]
fn vector_steps_lead_with_padding() {
    let c = vec![1, 2, 3];
    let b = vec![4, 5];
    assert_eq!(
        vector_steps(&c, Some(&b), 4, 0),
        vec![step(0, 0, true), step(3, 5, true), step(2, 4, true), step(1, 0, false)]
    );
}

#[test]
fn vector_steps_only_last_step_adds() {
    let c: Vec<i64> = (1..=5).collect();
    let steps = vector_steps(&c, None, 4, 0);
    assert_eq!(steps.len(), 8);
    assert!(steps[..7].iter().all(|s| s.multiply));
    assert!(!steps[7].multiply);
    assert_eq!(steps[7].coefficient, 1);
}

#[test]
fn short_basis_gives_same_steps_as_zero_filled() {
    let c = vec![1.0, 2.0, 3.0, 5.0];
    let short = vec![3.0];
    let filled = vec![3.0, 0.0, 0.0];
    assert_eq!(scalar_steps(&c, Some(&short), 0.0), scalar_steps(&c, Some(&filled), 0.0));
    assert_eq!(vector_steps(&c, Some(&short), 4, 0.0), vector_steps(&c, Some(&filled), 4, 0.0));
    assert_eq!(scalar_steps(&c, None, 0.0), scalar_steps(&c, Some(&vec![0.0, 0.0, 0.0]), 0.0));
}
