use hyprsnap::pixels::rgba_to_argb32;

#[test]
fn one_pixel_is_swizzled() {
    let out = rgba_to_argb32(&vec![10, 20, 30, 40], 1, 1, 4);
    assert_eq!(out, vec![30, 20, 10, 40]);
}

#[test]
fn rows_are_padded_to_the_stride() {
    // 2 x 2 image, stride 12 bytes
    let rgba = vec![
        1, 2, 3, 4, 5, 6, 7, 8, //
        9, 10, 11, 12, 13, 14, 15, 16,
    ];
    let out = rgba_to_argb32(&rgba, 2, 2, 12);
    assert_eq!(
        out,
        vec![
            3, 2, 1, 4, 7, 6, 5, 8, 0, 0, 0, 0, //
            11, 10, 9, 12, 15, 14, 13, 16, 0, 0, 0, 0,
        ]
    );
}

#[test]
fn empty_image() {
    assert!(rgba_to_argb32(&vec![], 0, 0, 0).is_empty());
    assert_eq!(rgba_to_argb32(&vec![], 0, 2, 4), vec![0; 8]);
}
