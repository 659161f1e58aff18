use clear_color_validity::check_clear_color_image;
use clear_color_validity::CheckClearColorImageError;
use clear_color_validity::Device;
use clear_color_validity::Image;
use clear_color_validity::ImageUsage;

fn transfer_destination_usage() -> ImageUsage {
    let mut usage = ImageUsage::none();
    usage.transfer_destination = true;
    usage
}

fn sample_image() -> (Device, Image) {
    let device = Device { id: 7 };
    let image = Image {
        device_id: 7,
        usage: transfer_destination_usage(),
        array_layers: 4,
        mip_levels: 2,
    };
    (device, image)
}

#[test]
fn clear_within_bounds_succeeds() {
    let (device, image) = sample_image();
    let r = check_clear_color_image(&device, &image, 2, 2, 0, 2);
    assert_eq!(r, Ok(()));
}

#[test]
fn layer_range_past_total_is_out_of_range() {
    let (device, image) = sample_image();
    let r = check_clear_color_image(&device, &image, 3, 2, 0, 2);
    assert_eq!(r, Err(CheckClearColorImageError::OutOfRange));
}

#[test]
fn mip_range_past_total_is_out_of_range() {
    let (device, image) = sample_image();
    let r = check_clear_color_image(&device, &image, 0, 4, 1, 2);
    assert_eq!(r, Err(CheckClearColorImageError::OutOfRange));
}

#[test]
fn missing_usage_rejected_on_valid_range() {
    let device = Device { id: 7 };
    let image = Image {
        device_id: 7,
        usage: ImageUsage::none(),
        array_layers: 4,
        mip_levels: 2,
    };
    let r = check_clear_color_image(&device, &image, 0, 4, 0, 2);
    assert_eq!(r, Err(CheckClearColorImageError::MissingTransferUsage));
}

#[test]
fn missing_usage_reported_before_range() {
    let device = Device { id: 7 };
    let image = Image {
        device_id: 7,
        usage: ImageUsage::none(),
        array_layers: 4,
        mip_levels: 2,
    };
    let r = check_clear_color_image(&device, &image, 100, 100, 100, 100);
    assert_eq!(r, Err(CheckClearColorImageError::MissingTransferUsage));
}

#[test]
fn layer_range_at_exact_limit_succeeds() {
    let (device, image) = sample_image();
    let r = check_clear_color_image(&device, &image, 1, 3, 0, 2);
    assert_eq!(r, Ok(()));
}

#[test]
fn layer_range_one_past_limit_fails() {
    let (device, image) = sample_image();
    let r = check_clear_color_image(&device, &image, 1, 4, 0, 2);
    assert_eq!(r, Err(CheckClearColorImageError::OutOfRange));
}

#[test]
fn empty_range_at_total_base_succeeds() {
    let (device, image) = sample_image();
    let r = check_clear_color_image(&device, &image, 4, 0, 2, 0);
    assert_eq!(r, Ok(()));
}

#[test]
fn empty_range_past_total_base_fails() {
    let (device, image) = sample_image();
    let r = check_clear_color_image(&device, &image, 5, 0, 0, 0);
    assert_eq!(r, Err(CheckClearColorImageError::OutOfRange));
}

#[test]
fn huge_range_does_not_wrap_around() {
    let (device, image) = sample_image();
    let r = check_clear_color_image(&device, &image, u32::MAX, u32::MAX, 0, 1);
    assert_eq!(r, Err(CheckClearColorImageError::OutOfRange));
}

#[test]
fn repeated_calls_agree() {
    let (device, image) = sample_image();
    let r1 = check_clear_color_image(&device, &image, 2, 2, 0, 2);
    let r2 = check_clear_color_image(&device, &image, 2, 2, 0, 2);
    assert_eq!(r1, r2);
    let e1 = check_clear_color_image(&device, &image, 3, 2, 0, 2);
    let e2 = check_clear_color_image(&device, &image, 3, 2, 0, 2);
    assert_eq!(e1, e2);
}

#[test]
fn error_messages() {
    assert_eq!(
        CheckClearColorImageError::MissingTransferUsage.message(),
        "the image is missing the transfer destination usage"
    );
    assert_eq!(
        CheckClearColorImageError::OutOfRange.message(),
        "the array layers and mipmap levels are out of range"
    );
}

#[test]
fn empty_usage_has_no_capability() {
    let usage = ImageUsage::none();
    assert!(!usage.transfer_source);
    assert!(!usage.transfer_destination);
    assert!(!usage.sampled);
    assert!(!usage.storage);
    assert!(!usage.color_attachment);
    assert!(!usage.depth_stencil_attachment);
    assert!(!usage.transient_attachment);
    assert!(!usage.input_attachment);
}
