use openfx_driver::images::{
    crop, crop_image_properties, crop_spec_fits, flipped_index, get_image_stride, OfxRectI,
};
use openfx_driver::layouts::image_properties;
use openfx_driver::PropertyValue;

fn rect(x1: i32, y1: i32, x2: i32, y2: i32) -> OfxRectI {
    OfxRectI { x1, y1, x2, y2 }
}

#[test]
fn crop_intersects() {
    let a = rect(0, 0, 10, 8);
    let b = rect(2, -3, 20, 5);
    assert_eq!(crop(a, b), rect(2, 0, 10, 5));
    assert_eq!(crop(a, b), crop(b, a));
    assert_eq!(crop(a, a), a);
    let c = rect(4, 1, 6, 7);
    assert_eq!(crop(crop(a, b), c), crop(a, crop(b, c)));
}

#[test]
fn width_and_height() {
    let r = rect(-5, 2, 15, 12);
    assert_eq!(r.width(), 20);
    assert_eq!(r.height(), 10);
    // A reversed rectangle wraps like a cast to usize
    assert_eq!(rect(3, 0, 1, 0).width(), usize::MAX - 1);
}

#[test]
fn stride_follows_rowbytes_but_not_below_width() {
    assert_eq!(get_image_stride(100, None), 100);
    assert_eq!(get_image_stride(100, Some(1600)), 100);
    assert_eq!(get_image_stride(100, Some(3200)), 200);
    assert_eq!(get_image_stride(100, Some(16)), 100);
    assert_eq!(get_image_stride(10, Some(175)), 10);
    assert_eq!(get_image_stride(10, Some(177)), 11);
}

#[test]
fn flipped_index_counts_from_bottom() {
    // height 4, stride 10: top row (y = 0) is stored last
    assert_eq!(flipped_index(4, 10, 0, 0), 30);
    assert_eq!(flipped_index(4, 10, 3, 3), 3);
    assert_eq!(flipped_index(4, 10, 2, 1), 22);
}

#[test]
fn image_properties_describe_the_image() {
    let bounds = rect(0, 0, 4, 3);
    let p = image_properties("input", &bounds, 0x1000, 6);
    assert_eq!(p.name(), "input_image");
    assert_eq!(p.get_int("OfxImagePropRowBytes", 0), Some(96));
    assert_eq!(p.get_string("OfxPropType", 0), Some(b"OfxTypeImage\0".to_vec()));
    assert_eq!(p.get_int("OfxImagePropBounds", 2), Some(4));
    assert_eq!(p.get_int("OfxImagePropRegionOfDefinition", 3), Some(3));
    assert_eq!(p.get_double("OfxImagePropPixelAspectRatio", 0), Some(1.0f64.to_bits()));
    assert_eq!(p.get_string("OfxImagePropField", 0), Some(b"OfxFieldNone\0".to_vec()));
    assert!(p.get("OfxImagePropData", 0).unwrap().same_as(&PropertyValue::Pointer(0x1000)));
}

#[test]
fn crop_moves_bounds_and_data_pointer() {
    let bounds = rect(10, 20, 30, 40);
    let mut p = image_properties("img", &bounds, 0x1000, 20);
    crop_image_properties(&mut p, bounds, 20, 0x1000, rect(12, 25, 100, 35));
    assert_eq!(p.get_int("OfxImagePropBounds", 0), Some(12));
    assert_eq!(p.get_int("OfxImagePropBounds", 1), Some(25));
    assert_eq!(p.get_int("OfxImagePropBounds", 2), Some(30));
    assert_eq!(p.get_int("OfxImagePropBounds", 3), Some(35));
    // offset = width 20 * 5 rows + 2 columns = 102 pixels of 16 bytes
    assert!(p.get("OfxImagePropData", 0).unwrap().same_as(&PropertyValue::Pointer(0x1000 + 102 * 16)));
    // The region of definition is not changed by a crop
    assert_eq!(p.get_int("OfxImagePropRegionOfDefinition", 0), Some(10));
}

#[test]
fn crop_fits_checks_the_address() {
    let bounds = rect(10, 20, 30, 40);
    assert!(crop_spec_fits(bounds, 20, 0x1000, rect(12, 25, 100, 35)));
    // The moved address would pass the end of memory
    assert!(!crop_spec_fits(bounds, 20, usize::MAX - 15, rect(11, 20, 30, 40)));
    assert!(crop_spec_fits(bounds, 20, usize::MAX - 16, rect(11, 20, 30, 40)));
    // No move at all fits even at the last address
    assert!(crop_spec_fits(bounds, 20, usize::MAX, rect(0, 0, 30, 40)));
    // A huge stride moves the corner row out of memory
    assert!(!crop_spec_fits(bounds, usize::MAX / 2, 0, rect(10, 21, 30, 40)));
}

#[test]
fn crop_follows_padded_rows() {
    // Rows of 32 pixels for an image 20 pixels wide
    let bounds = rect(10, 20, 30, 40);
    let mut p = image_properties("img", &bounds, 0x1000, 32);
    crop_image_properties(&mut p, bounds, 32, 0x1000, rect(12, 25, 100, 35));
    // The corner (12, 25) is 5 rows of 32 and 2 pixels in
    assert!(p.get("OfxImagePropData", 0).unwrap().same_as(&PropertyValue::Pointer(0x1000 + (5 * 32 + 2) * 16)));
    assert_eq!(p.get_int("OfxImagePropRowBytes", 0), Some(32 * 16));
}
