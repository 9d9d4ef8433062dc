use barcode_bridge::convert_js_image_to_luma;

#[test]
fn transparent_pixel_maps_to_white() {
    let luma = convert_js_image_to_luma(&[12, 200, 99, 0]);
    assert_eq!(luma, vec![255]);
}

#[test]
fn opaque_white_maps_to_white_and_black_to_black() {
    let luma = convert_js_image_to_luma(&[255, 255, 255, 255, 0, 0, 0, 255]);
    assert_eq!(luma, vec![255, 0]);
}

#[test]
fn luma_uses_integer_weighting_with_rounding_bias() {
    // (306 * 100 + 601 * 150 + 117 * 200 + 512) / 1024 == 141
    let luma = convert_js_image_to_luma(&[100, 150, 200, 255]);
    assert_eq!(luma, vec![141]);
}

#[test]
fn trailing_partial_pixel_is_dropped() {
    let luma = convert_js_image_to_luma(&[0, 0, 0, 255, 1, 2, 3]);
    assert_eq!(luma.len(), 1);
}

#[test]
fn empty_input_gives_empty_output() {
    let luma = convert_js_image_to_luma(&[]);
    assert!(luma.is_empty());
}
