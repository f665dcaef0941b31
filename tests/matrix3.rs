use poli_math::{Matrix3, Matrix4};

/// Converts the given column-major index to its row-major equivalent.
fn cm_to_rm(i: usize) -> usize {
    i % 3 * 3 + i / 3
}

#[test]
fn matrix3_test_new() {
    let m = Matrix3::new(
        1.0, 2.0, 3.0,
        4.0, 5.0, 6.0,
        7.0, 8.0, 9.0,
    );

    for i in 0..9 {
        assert_eq!(m.elements[i], (cm_to_rm(i) + 1) as f32)
    }
}

#[test]
fn test_from_matrix4() {
    let m4 = Matrix4::new(
        1.0, 2.0, 3.0, 4.0,
        5.0, 6.0, 7.0, 8.0,
        9.0, 10.0, 11.0, 12.0,
        13.0, 14.0, 15.0, 16.0,
    );

    let m3 = Matrix3::from_matrix4(&m4);

    assert_eq!(
        m3,
        Matrix3 {
            elements: [1.0f32, 5.0, 9.0, 2.0, 6.0, 10.0, 3.0, 7.0, 11.0]
        }
    );
}

#[test]
fn matrix3_test_set() {
    let mut m = Matrix3::new(
        1.0, 2.0, 3.0,
        4.0, 5.0, 6.0,
        7.0, 8.0, 9.0,
    );

    m.set(
        10.0, 11.0, 12.0,
        13.0, 14.0, 15.0,
        16.0, 17.0, 18.0,
    );

    for i in 0..9 {
        assert_eq!(m.elements[i], (cm_to_rm(i) + 10) as f32);
    }
}

#[test]
fn test_transpose() {
    let m = Matrix3::new(
        1.0, 2.0, 3.0,
        4.0, 5.0, 6.0,
        7.0, 8.0, 9.0
    );

    assert_eq!(
        m.transpose(),
        Matrix3 {
            elements: [1.0f32, 2.0, 3.0, 4.0, 5.0, 6.0, 7.0, 8.0, 9.0],
        }
    );
}

#[test]
fn matrix3_transpose_twice_restores() {
    let m = Matrix3::new(1u32, 2, 3, 4, 5, 6, 7, 8, 9);
    assert_eq!(m.transpose().transpose(), m);
    assert_ne!(m.transpose(), m);
}

#[test]
fn matrix3_from_matrix4_of_sheared_transform() {
    let m4 = Matrix4::new(
        1, 2, 3, 3,
        0, 1, 4, 4,
        5, 6, 0, 5,
        6, 7, 8, 9,
    );
    let expected = Matrix3::new(
        1, 2, 3,
        0, 1, 4,
        5, 6, 0,
    );
    assert_eq!(Matrix3::from_matrix4(&m4), expected);
}
