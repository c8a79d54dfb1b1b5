use hyprsnap::geometry::{editor_window_size, ocr_crop, CropRect};

#[test]
fn small_image_window() {
    assert_eq!(editor_window_size(800, 600), (800, 650));
}

#[test]
fn large_image_window_is_capped() {
    assert_eq!(editor_window_size(3840, 2160), (1600, 900));
    assert_eq!(editor_window_size(1600, 850), (1600, 900));
    assert_eq!(editor_window_size(1599, 849), (1599, 899));
}

#[test]
fn too_small_selection_is_ignored() {
    assert_eq!(ocr_crop(10, 10, 4, 100, 500, 500), None);
    assert_eq!(ocr_crop(10, 10, 100, 4, 500, 500), None);
}

#[test]
fn selection_inside_is_kept() {
    assert_eq!(
        ocr_crop(10, 20, 30, 40, 500, 500),
        Some(CropRect { x: 10, y: 20, width: 30, height: 40 })
    );
    assert_eq!(
        ocr_crop(0, 0, 5, 5, 500, 500),
        Some(CropRect { x: 0, y: 0, width: 5, height: 5 })
    );
}

#[test]
fn selection_is_cut_at_the_edge() {
    assert_eq!(
        ocr_crop(480, 490, 50, 50, 500, 500),
        Some(CropRect { x: 480, y: 490, width: 20, height: 10 })
    );
}

#[test]
fn selection_beyond_the_image_moves_to_last_pixel() {
    assert_eq!(
        ocr_crop(900, 700, 50, 50, 500, 500),
        Some(CropRect { x: 499, y: 499, width: 1, height: 1 })
    );
}
