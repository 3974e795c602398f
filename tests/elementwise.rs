use interp::elementwise::{combine, ArithOp, Interporable, LengthMismatch};

#[test]
fn from_single_replicates_value() {
    let v: Vec<i64> = Vec::from_single(-4, 3);
    assert_eq!(v, vec![-4, -4, -4]);
}

#[test]
fn from_single_zero_length_is_empty() {
    let v: Vec<u32> = Vec::from_single(9, 0);
    assert!(v.is_empty());
}

#[test]
fn sum_adds_element_wise() {
    let a: Vec<i64> = vec![1, 2, 3];
    assert_eq!(a.sum(vec![10, -20, 30]), Ok(vec![11, -18, 33]));
}

#[test]
fn sub_subtracts_element_wise() {
    let a: Vec<i32> = vec![5, 0, -3];
    assert_eq!(a.sub(vec![2, 7, -3]), Ok(vec![3, -7, 0]));
}

#[test]
fn mul_multiplies_element_wise() {
    let a: Vec<u64> = vec![3, 0, 12];
    assert_eq!(a.mul(vec![4, 99, 5]), Ok(vec![12, 0, 60]));
}

#[test]
fn div_divides_element_wise() {
    let a: Vec<u32> = vec![9, 10, 1];
    assert_eq!(a.div(vec![3, 4, 2]), Ok(vec![3, 2, 0]));
}

#[test]
fn div_rounds_toward_zero() {
    let a: Vec<i64> = vec![-7, 7, -7, 7];
    assert_eq!(a.div(vec![2, -2, -2, 2]), Ok(vec![-3, -3, 3, 3]));
}

#[test]
fn empty_sequences_combine_to_empty() {
    let a: Vec<i64> = Vec::new();
    assert_eq!(a.sum(Vec::new()), Ok(Vec::new()));
}

#[test]
fn sum_then_sub_restores_original() {
    let a: Vec<i64> = vec![4, -9, 0, 123];
    let b: Vec<i64> = vec![-1, 17, 5, 8];
    let s = a.sum(b.clone()).unwrap();
    assert_eq!(s.sub(b), Ok(a));
}

#[test]
fn length_one_matches_scalar_arithmetic() {
    let x: i32 = -17;
    let y: i32 = 5;
    let a: Vec<i32> = vec![x];
    assert_eq!(a.sum(vec![y]), Ok(vec![x + y]));
    assert_eq!(a.sub(vec![y]), Ok(vec![x - y]));
    assert_eq!(a.mul(vec![y]), Ok(vec![x * y]));
    assert_eq!(a.div(vec![y]), Ok(vec![x / y]));
}

#[test]
fn sum_rejects_shorter_other() {
    let a: Vec<i64> = vec![1, 2, 3];
    assert_eq!(a.sum(vec![1, 2]), Err(LengthMismatch { expected: 3, found: 2 }));
}

#[test]
fn sub_rejects_longer_other() {
    let a: Vec<i64> = vec![1, 2];
    assert_eq!(a.sub(vec![1, 2, 3]), Err(LengthMismatch { expected: 2, found: 3 }));
}

#[test]
fn mul_rejects_mismatch() {
    let a: Vec<u64> = Vec::new();
    assert_eq!(a.mul(vec![1]), Err(LengthMismatch { expected: 0, found: 1 }));
}

#[test]
fn div_rejects_mismatch() {
    let a: Vec<u32> = vec![8];
    assert_eq!(a.div(Vec::new()), Err(LengthMismatch { expected: 1, found: 0 }));
}

#[test]
fn arith_op_exec_on_scalars() {
    assert_eq!(ArithOp::Add.exec(6i64, -8), -2);
    assert_eq!(ArithOp::Sub.exec(6u64, 6), 0);
    assert_eq!(ArithOp::Mul.exec(-6i32, 7), -42);
    assert_eq!(ArithOp::Div.exec(-9i32, 4), -2);
}

#[test]
fn combine_applies_the_given_operation() {
    let a: Vec<i64> = vec![2, 3];
    let b: Vec<i64> = vec![5, 7];
    assert_eq!(combine(ArithOp::Mul, &a, &b), Ok(vec![10, 21]));
    assert_eq!(
        combine(ArithOp::Add, &a, &vec![1]),
        Err(LengthMismatch { expected: 2, found: 1 })
    );
}

#[test]
fn div_mismatch_is_reported_before_any_division() {
    let a: Vec<i64> = vec![1, 2];
    assert_eq!(a.div(vec![0]), Err(LengthMismatch { expected: 2, found: 1 }));
}
