use perceptron::{DimensionError, Matrix, Perceptron};

#[test]
fn weighted_sum_plus_bias() {
    let weights = Matrix::new([[7, 8, 9]]);
    let inputs = Matrix::new([[1, 2, 3]]);
    assert_eq!(weights.dot_product(&inputs), Ok(50));
    let unit = Perceptron::new(weights, 7);
    assert_eq!(unit.calculate_output(&inputs), Ok(57));
}

#[test]
fn unit_weight_selects_one_input() {
    let weights = Matrix::new([[1, 0, 0]]);
    let inputs = Matrix::new([[5, 9, 2]]);
    assert_eq!(weights.dot_product(&inputs), Ok(5));
    let unit = Perceptron::new(weights, 0);
    assert_eq!(unit.calculate_output(&inputs), Ok(5));
}

#[test]
fn receiver_of_height_two_is_refused() {
    let m = Matrix::new([[1, 2], [3, 4]]);
    let v = Matrix::new([[5, 6]]);
    assert_eq!(
        m.dot_product(&v),
        Err(DimensionError::NotRowVector { height: 2 })
    );
}

#[test]
fn refusal_ignores_entries() {
    let m = Matrix::new([[0, 0, 0], [0, 0, 0], [0, 0, 0]]);
    let v = Matrix::new([[0, 0, 0]]);
    assert_eq!(
        m.dot_product(&v),
        Err(DimensionError::NotRowVector { height: 3 })
    );
}

#[test]
fn shape_accessors() {
    let m = Matrix::new([[1, 2, 3], [4, 5, 6]]);
    assert_eq!(m.get_width(), 3);
    assert_eq!(m.get_height(), 2);
}

#[test]
fn values_are_kept() {
    let grid = [[1, -2, 3], [4, 5, -6]];
    let m = Matrix::new(grid);
    assert_eq!(m.get_values(), grid);
    let mut copy = m.get_values();
    copy[0][0] = 100;
    assert_eq!(m.get_values(), grid);
}

#[test]
fn dot_product_commutes() {
    let a = Matrix::new([[3, -4, 5, 7]]);
    let b = Matrix::new([[-2, 6, 1, 0]]);
    assert_eq!(a.dot_product(&b), Ok(-6 - 24 + 5));
    assert_eq!(a.dot_product(&b), b.dot_product(&a));
}

#[test]
fn empty_rows_give_zero() {
    let a: Matrix<0, 1> = Matrix::new([[]]);
    let b: Matrix<0, 1> = Matrix::new([[]]);
    assert_eq!(a.dot_product(&b), Ok(0));
    let unit = Perceptron::new(a, -4);
    assert_eq!(unit.calculate_output(&b), Ok(-4));
}

#[test]
fn bias_accessor() {
    let unit = Perceptron::new(Matrix::new([[1, 2]]), -13);
    assert_eq!(unit.get_bias(), -13);
}

#[test]
fn sum_wraps_on_overflow() {
    let a = Matrix::new([[i32::MAX, 1]]);
    let b = Matrix::new([[1, 1]]);
    assert_eq!(a.dot_product(&b), Ok(i32::MIN));
    let c = Matrix::new([[65536]]);
    assert_eq!(c.dot_product(&c), Ok(0));
}

#[test]
fn bias_wraps_on_overflow() {
    let unit = Perceptron::new(Matrix::new([[2]]), i32::MAX);
    let inputs = Matrix::new([[1]]);
    assert_eq!(unit.calculate_output(&inputs), Ok(i32::MIN + 1));
}

#[test]
fn output_is_dot_product_plus_bias() {
    let weights = Matrix::new([[2, -3, 4, 1, 0]]);
    let inputs = Matrix::new([[10, 20, -1, 7, 99]]);
    let dot = weights.dot_product(&inputs).unwrap();
    assert_eq!(dot, 20 - 60 - 4 + 7);
    let unit = Perceptron::new(weights, 11);
    assert_eq!(unit.calculate_output(&inputs), Ok(dot + 11));
}
