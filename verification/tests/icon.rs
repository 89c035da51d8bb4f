use solar_navigator::icon::{decode_icon, icon_from_decoded};

fn one_pixel_png() -> Vec<u8> {
    let img = image::RgbaImage::from_raw(1, 1, vec![10, 20, 30, 255]).unwrap();
    let mut bytes = Vec::new();
    img.write_to(&mut std::io::Cursor::new(&mut bytes), image::ImageFormat::Png).unwrap();
    bytes
}

#[test]
fn decode_icon_reads_png_pixels() {
    let (pixels, width, height) = decode_icon(&one_pixel_png()).unwrap();
    assert_eq!((width, height), (1, 1));
    assert_eq!(pixels, vec![10, 20, 30, 255]);
}

#[test]
fn decode_icon_reports_undecodable_bytes() {
    let message = decode_icon(b"not an image").unwrap_err();
    assert!(message.starts_with("Failed to decode window icon: "));
    assert!(message.len() > "Failed to decode window icon: ".len());
}

#[test]
fn icon_from_decoded_passes_pixels_and_reports_errors() {
    assert_eq!(
        icon_from_decoded(Ok((vec![1, 2, 3, 4], 1, 1))),
        Ok((vec![1, 2, 3, 4], 1, 1))
    );
    assert_eq!(
        icon_from_decoded(Err("bad header".to_string())),
        Err("Failed to decode window icon: bad header".to_string())
    );
}
