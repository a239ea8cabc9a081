use picipaint::paint_object::image_format::extension_is_supported;
use picipaint::paint_object::image_format::extension_is_supported_among;

#[test]
fn extensions_of_readable_formats_are_supported() {
    assert!(extension_is_supported("png"));
    assert!(extension_is_supported("jpg"));
    assert!(extension_is_supported("jpeg"));
    assert!(extension_is_supported("tif"));
    assert!(extension_is_supported("pnm"));
}

#[test]
fn other_extensions_are_not_supported() {
    // Known, but without a decoder.
    assert!(!extension_is_supported("dds"));
    // Unknown.
    assert!(!extension_is_supported("txt"));
    assert!(!extension_is_supported(""));
    // The comparison is exact.
    assert!(!extension_is_supported("PNG"));
    assert!(!extension_is_supported("pn"));
    assert!(!extension_is_supported(".png"));
}

#[test]
fn support_is_decided_among_the_given_formats() {
    let none: Vec<image::ImageFormat> = Vec::new();
    assert!(!extension_is_supported_among(&none, "png"));
    let some = vec![image::ImageFormat::Dds, image::ImageFormat::Jpeg];
    assert!(extension_is_supported_among(&some, "jpg"));
    assert!(extension_is_supported_among(&some, "jpeg"));
    assert!(!extension_is_supported_among(&some, "png"));
    assert!(!extension_is_supported_among(&some, "dds"));
    let all: Vec<image::ImageFormat> = image::ImageFormat::all().collect();
    assert!(extension_is_supported_among(&all, "png"));
    assert!(!extension_is_supported_among(&all, "dds"));
}

#[test]
fn the_file_dialog_offers_the_extensions_of_readable_formats() {
    let offered = picipaint::paint_object::image_format::readable_extensions();
    for extension in ["png", "jpg", "jpeg", "gif", "bmp", "tif", "tiff", "pnm", "webp"] {
        assert!(offered.iter().any(|e| e == extension));
    }
    for extension in ["dds", "pcx", "txt", "PNG", ""] {
        assert!(!offered.iter().any(|e| e == extension));
    }
}
