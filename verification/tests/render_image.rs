use adabraka_gpui::pixels::{
    rgba_image_from_bgra_rows, rgba_image_from_gpu_rows, rgba_image_from_rgba_rows, ReadbackError,
};

#[test]
fn converts_bgra_pixels_to_rgba() {
    let image = rgba_image_from_bgra_rows(2, 1, 8, &[1, 2, 3, 4, 5, 6, 7, 8]).unwrap();

    assert_eq!(image.get_pixel(0, 0), [3, 2, 1, 4]);
    assert_eq!(image.get_pixel(1, 0), [7, 6, 5, 8]);
}

#[test]
fn preserves_rgba_channel_order() {
    let image = rgba_image_from_rgba_rows(1, 1, 4, &[1, 2, 3, 4]).unwrap();

    assert_eq!(image.get_pixel(0, 0), [1, 2, 3, 4]);
}

#[test]
fn removes_gpu_row_padding() {
    let image = rgba_image_from_bgra_rows(
        1,
        2,
        8,
        &[
            10, 20, 30, 40, 0, 0, 0, 0, // first padded row
            50, 60, 70, 80, 0, 0, 0, 0, // second padded row
        ],
    )
    .unwrap();

    assert_eq!(image.get_pixel(0, 0), [30, 20, 10, 40]);
    assert_eq!(image.get_pixel(0, 1), [70, 60, 50, 80]);
}

#[test]
fn rejects_short_readback_buffers() {
    let error = rgba_image_from_bgra_rows(2, 2, 8, &[0; 15]).unwrap_err();

    assert!(error.message().contains("readback buffer"));
}

#[test]
fn short_buffer_error_names_both_sizes() {
    let error = rgba_image_from_bgra_rows(2, 2, 8, &[0; 15]).unwrap_err();
    assert_eq!(error, ReadbackError::BufferTooShort { required: 16, actual: 15 });
    assert_eq!(
        error.message(),
        "readback buffer is too short: expected at least 16 bytes, got 15"
    );
}

#[test]
fn row_pitch_smaller_than_a_row_is_rejected() {
    let error = rgba_image_from_rgba_rows(2, 1, 7, &[0; 8]).unwrap_err();
    assert_eq!(error, ReadbackError::RowPitchTooSmall { row_pitch: 7, row_bytes: 8 });
    assert_eq!(error.message(), "readback row pitch 7 is smaller than 8");
}

#[test]
fn oversized_rows_are_rejected() {
    let error = rgba_image_from_gpu_rows(u32::MAX, 1, usize::MAX, &[], false).unwrap_err();
    assert_eq!(error, ReadbackError::RowSizeOverflow);
    let error = rgba_image_from_gpu_rows(1, u32::MAX, usize::MAX / 2, &[], false).unwrap_err();
    assert_eq!(error, ReadbackError::BufferSizeOverflow);
}

#[test]
fn empty_images_read_from_empty_buffers() {
    let image = rgba_image_from_rgba_rows(0, 0, 0, &[]).unwrap();
    assert_eq!(image.width, 0);
    assert_eq!(image.height, 0);
    assert!(image.pixels.is_empty());
}
