//! Checking whether a clear color image command is valid.

use vstd::prelude::*;

use crate::image::Device;
use crate::image::Image;

verus! {

/// Error that can happen from `check_clear_color_image`.
#[derive(Clone, Copy, Debug, PartialEq, Eq, Structural)]
pub enum CheckClearColorImageError {
    /// The image is missing the transfer destination usage.
    MissingTransferUsage,
    /// The array layers and mipmap levels are out of range.
    OutOfRange,
}

impl CheckClearColorImageError {
    /// The human-readable description of the error, as a sequence of characters.
    pub open spec fn spec_message(self) -> Seq<char> {
        match self {
            CheckClearColorImageError::MissingTransferUsage => {
                "the image is missing the transfer destination usage"@
            },
            CheckClearColorImageError::OutOfRange => {
                "the array layers and mipmap levels are out of range"@
            },
        }
    }

    /// A human-readable description of the error, for display to the user of
    /// the wrapping system.
    pub fn message(&self) -> (s: &'static str)
        ensures
            s@ == self.spec_message(),
    {
        match self {
            CheckClearColorImageError::MissingTransferUsage => {
                "the image is missing the transfer destination usage"
            },
            CheckClearColorImageError::OutOfRange => {
                "the array layers and mipmap levels are out of range"
            },
        }
    }
}

/// The slice of `count` items starting at `base` lies within an extent of
/// `total` items. An empty slice (`count == 0`) is within bounds exactly when
/// its base does not exceed the total, consistently with `base + count <= total`.
pub open spec fn range_within(base: u32, count: u32, total: u32) -> bool {
    base + count <= total
}

/// What checking a clear color image command returns, as a function of the
/// image's properties and the requested sub-resource range. Usage is checked
/// before the ranges: a request that is both out of range and on an image
/// without transfer-destination usage reports the usage error.
pub open spec fn spec_check_clear_color_image(
    image: Image,
    base_array_layer: u32,
    layer_count: u32,
    base_mip_level: u32,
    level_count: u32,
) -> Result<(), CheckClearColorImageError> {
    if !image.usage.transfer_destination {
        Err(CheckClearColorImageError::MissingTransferUsage)
    } else if !range_within(base_array_layer, layer_count, image.array_layers) {
        Err(CheckClearColorImageError::OutOfRange)
    } else if !range_within(base_mip_level, level_count, image.mip_levels) {
        Err(CheckClearColorImageError::OutOfRange)
    } else {
        Ok(())
    }
}

/// Checks whether a clear color image command is valid: the image must have
/// been created with transfer-destination usage, and the requested array-layer
/// and mip-level ranges must lie within the image's extents.
///
/// The image must have been created on `device`; handing in an image from
/// another device is a caller bug, ruled out by the precondition rather than
/// reported through the error type.
///
/// The sums `base + count` are computed in a widened type, so a request whose
/// end does not fit in the offset type is out of range, never wrapped around.
pub fn check_clear_color_image(
    device: &Device,
    image: &Image,
    base_array_layer: u32,
    layer_count: u32,
    base_mip_level: u32,
    level_count: u32,
) -> (r: Result<(), CheckClearColorImageError>)
    requires
        image.created_on(*device),
    ensures
        r == spec_check_clear_color_image(
            *image,
            base_array_layer,
            layer_count,
            base_mip_level,
            level_count,
        ),
        r is Ok <==> image.usage.transfer_destination
            && range_within(base_array_layer, layer_count, image.array_layers)
            && range_within(base_mip_level, level_count, image.mip_levels),
        r == Err::<(), CheckClearColorImageError>(CheckClearColorImageError::MissingTransferUsage)
            <==> !image.usage.transfer_destination,
{
    if !image.usage.transfer_destination {
        return Err(CheckClearColorImageError::MissingTransferUsage);
    }

    let layer_end: u64 = base_array_layer as u64 + layer_count as u64;
    if layer_end > image.array_layers as u64 {
        return Err(CheckClearColorImageError::OutOfRange);
    }

    let level_end: u64 = base_mip_level as u64 + level_count as u64;
    if level_end > image.mip_levels as u64 {
        return Err(CheckClearColorImageError::OutOfRange);
    }

    Ok(())
}

/// Usage is checked first: an image without transfer-destination usage is
/// rejected with `MissingTransferUsage`, whatever range is requested.
pub proof fn lemma_missing_usage_rejected(
    image: Image,
    base_array_layer: u32,
    layer_count: u32,
    base_mip_level: u32,
    level_count: u32,
)
    requires
        !image.usage.transfer_destination,
    ensures
        spec_check_clear_color_image(
            image,
            base_array_layer,
            layer_count,
            base_mip_level,
            level_count,
        ) == Err::<(), CheckClearColorImageError>(
            CheckClearColorImageError::MissingTransferUsage,
        ),
{
}

/// With transfer-destination usage present, the check succeeds exactly when
/// both requested ranges lie within the image's extents, and reports
/// `OutOfRange` otherwise.
pub proof fn lemma_success_iff_ranges_within(
    image: Image,
    base_array_layer: u32,
    layer_count: u32,
    base_mip_level: u32,
    level_count: u32,
)
    requires
        image.usage.transfer_destination,
    ensures
        range_within(base_array_layer, layer_count, image.array_layers)
            && range_within(base_mip_level, level_count, image.mip_levels)
            ==> spec_check_clear_color_image(
            image,
            base_array_layer,
            layer_count,
            base_mip_level,
            level_count,
        ) == Ok::<(), CheckClearColorImageError>(()),
        !(range_within(base_array_layer, layer_count, image.array_layers)
            && range_within(base_mip_level, level_count, image.mip_levels))
            ==> spec_check_clear_color_image(
            image,
            base_array_layer,
            layer_count,
            base_mip_level,
            level_count,
        ) == Err::<(), CheckClearColorImageError>(CheckClearColorImageError::OutOfRange),
{
}

/// The array-layer range check is inclusive at the limit: a range that ends
/// exactly at the image's layer count is accepted, and one that ends one past
/// it is rejected.
pub proof fn lemma_layer_limit_boundary(
    image: Image,
    base_array_layer: u32,
    layer_count: u32,
    base_mip_level: u32,
    level_count: u32,
)
    requires
        image.usage.transfer_destination,
        range_within(base_mip_level, level_count, image.mip_levels),
    ensures
        base_array_layer + layer_count == image.array_layers
            ==> spec_check_clear_color_image(
            image,
            base_array_layer,
            layer_count,
            base_mip_level,
            level_count,
        ) == Ok::<(), CheckClearColorImageError>(()),
        base_array_layer + layer_count == image.array_layers + 1
            ==> spec_check_clear_color_image(
            image,
            base_array_layer,
            layer_count,
            base_mip_level,
            level_count,
        ) == Err::<(), CheckClearColorImageError>(CheckClearColorImageError::OutOfRange),
{
}

/// An empty range (count zero) passes the range checks exactly when each base
/// does not exceed its total: a base one past the extent is out of range even
/// when nothing is selected.
pub proof fn lemma_empty_range(image: Image, base_array_layer: u32, base_mip_level: u32)
    requires
        image.usage.transfer_destination,
    ensures
        spec_check_clear_color_image(image, base_array_layer, 0, base_mip_level, 0) is Ok
            <==> base_array_layer <= image.array_layers && base_mip_level <= image.mip_levels,
{
}

/// Validation is a pure function of its arguments: two results obtained from
/// identical arguments are identical, so repeating a call changes nothing.
pub proof fn lemma_check_deterministic(
    image: Image,
    base_array_layer: u32,
    layer_count: u32,
    base_mip_level: u32,
    level_count: u32,
    r1: Result<(), CheckClearColorImageError>,
    r2: Result<(), CheckClearColorImageError>,
)
    requires
        r1 == spec_check_clear_color_image(
            image,
            base_array_layer,
            layer_count,
            base_mip_level,
            level_count,
        ),
        r2 == spec_check_clear_color_image(
            image,
            base_array_layer,
            layer_count,
            base_mip_level,
            level_count,
        ),
    ensures
        r1 == r2,
{
}

} // verus!
