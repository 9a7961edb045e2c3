use futuresdr::sizing::buffer_size;

#[test]
fn smallest_size_that_fits() {
    assert_eq!(buffer_size(8, 123, 4096), Some(4096));
    assert_eq!(buffer_size(8, 0, 4096), Some(4096));
    assert_eq!(buffer_size(8, 4096, 4096), Some(4096));
    assert_eq!(buffer_size(8, 4097, 4096), Some(8192));
    assert_eq!(buffer_size(3, 5000, 4096), Some(12288));
    assert_eq!(buffer_size(7, 1, 4096), Some(28672));
    assert_eq!(buffer_size(4096, 1, 16), Some(4096));
    assert_eq!(buffer_size(6, 1, 4), Some(12));
}

#[test]
fn size_that_cannot_be_doubled_is_refused() {
    assert_eq!(buffer_size(1, usize::MAX, 4096), None);
    assert_eq!(buffer_size(1, 1, usize::MAX / 2 + 1), None);
    assert_eq!(buffer_size(1, 1, usize::MAX / 2), Some(usize::MAX / 2));
    assert_eq!(buffer_size(2, 1, usize::MAX / 2), None);
}
