use ninterp::data_nd::{InterpDataND, ValuesND};
use ninterp::error::ValidateError;

#[test]
fn values_need_as_many_elements_as_the_shape_holds() {
    let v = ValuesND::from_shape_vec(vec![2, 3], vec![0, 1, 2, 3, 4, 5]).unwrap();
    assert_eq!(v.shape(), &vec![2, 3]);
    assert_eq!(v.len(), 6);
    assert_eq!(v.ndim(), 2);
    assert_eq!(v.elems()[4], 4);
    assert!(ValuesND::from_shape_vec(vec![2, 3], vec![0; 5]).is_none());
    assert!(ValuesND::<i32>::from_shape_vec(vec![usize::MAX, 0], vec![]).is_some());
    assert!(ValuesND::<i32>::from_shape_vec(vec![usize::MAX, 2], vec![]).is_none());
    let scalar = ValuesND::from_shape_vec(vec![], vec![7]).unwrap();
    assert_eq!(scalar.len(), 1);
}

#[test]
fn grid_axis_count_must_match_the_values() {
    // 3-D grid, 2-D values
    let err = InterpDataND::new(
        vec![vec![0., 1.], vec![0., 1.], vec![0., 1.]],
        ValuesND::from_shape_vec(vec![2, 2], vec![0., 1., 2., 3.]).unwrap(),
    )
    .unwrap_err();
    assert_eq!(err, ValidateError::GridAxisCount { expected: 2, found: 3 });
    // A single value reads as 0-D: an empty axis is accepted, a non-empty one is not.
    let data = InterpDataND::new(vec![vec![]], ValuesND::from_shape_vec(vec![1], vec![0.]).unwrap()).unwrap();
    assert_eq!(data.ndim(), 0);
    let err = InterpDataND::new(vec![vec![1.]], ValuesND::from_shape_vec(vec![1], vec![0.]).unwrap())
        .unwrap_err();
    assert_eq!(err, ValidateError::GridAxisCount { expected: 0, found: 1 });
}

#[test]
fn every_axis_is_checked() {
    let values = || ValuesND::from_shape_vec(vec![2, 3], vec![0, 1, 2, 3, 4, 5]).unwrap();
    assert_eq!(
        InterpDataND::new(vec![vec![0, 1], vec![0]], values()).unwrap_err(),
        ValidateError::InsufficientGridPoints(1)
    );
    assert_eq!(
        InterpDataND::new(vec![vec![0, 1], vec![0, 2, 1]], values()).unwrap_err(),
        ValidateError::NotStrictlyIncreasing(1)
    );
    assert_eq!(
        InterpDataND::new(vec![vec![0, 1, 2], vec![0, 1, 2]], values()).unwrap_err(),
        ValidateError::IncompatibleShapes(0)
    );
    let data = InterpDataND::new(vec![vec![0, 1], vec![0, 1, 2]], values()).unwrap();
    assert_eq!(data.ndim(), 2);
    assert!(data.validate().is_ok());
    assert_eq!(data.view().grid, data.grid);
    assert_eq!(data.clone().into_owned().grid, vec![vec![0, 1], vec![0, 1, 2]]);
}
