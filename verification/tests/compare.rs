use image_read::compare::compare_buffers;

#[test]
fn equal_buffers_compare_equal() {
    let a: Vec<u8> = vec![1, 2, 3, 255, 4, 5, 6, 255];
    let b = a.clone();
    assert!(compare_buffers(&a, &b));
}

#[test]
fn empty_buffers_compare_equal() {
    let a: Vec<u8> = Vec::new();
    let b: Vec<u8> = Vec::new();
    assert!(compare_buffers(&a, &b));
}

#[test]
fn a_single_differing_byte_is_detected() {
    let a: Vec<u8> = vec![1, 2, 3, 255, 4, 5, 6, 255];
    let mut b = a.clone();
    b[5] = 99;
    assert!(!compare_buffers(&a, &b));
}

#[test]
fn buffers_of_different_lengths_differ() {
    let a: Vec<u8> = vec![1, 2, 3, 255];
    let b: Vec<u8> = vec![1, 2, 3, 255, 1, 2, 3, 255];
    assert!(!compare_buffers(&a, &b));
}
