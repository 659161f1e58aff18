//! The properties of devices and images that command validation reads.

use vstd::prelude::*;

verus! {

/// The capability set of a GPU image: which operations the image was created
/// to support. A clear command needs `transfer_destination`.
#[derive(Clone, Copy, Debug, PartialEq, Eq, Structural)]
pub struct ImageUsage {
    /// The image can be the source of a transfer (copy) operation.
    pub transfer_source: bool,
    /// The image can be the destination of a transfer, copy or clear operation.
    pub transfer_destination: bool,
    /// The image can be sampled from a shader.
    pub sampled: bool,
    /// The image can be used for shader storage reads and writes.
    pub storage: bool,
    /// The image can be a color attachment of a render pass.
    pub color_attachment: bool,
    /// The image can be a depth/stencil attachment of a render pass.
    pub depth_stencil_attachment: bool,
    /// The image's memory may live only for the duration of a render pass.
    pub transient_attachment: bool,
    /// The image can be an input attachment of a render pass.
    pub input_attachment: bool,
}

impl ImageUsage {
    /// A usage set with every capability absent.
    pub fn none() -> (u: ImageUsage)
        ensures
            u == (ImageUsage {
                transfer_source: false,
                transfer_destination: false,
                sampled: false,
                storage: false,
                color_attachment: false,
                depth_stencil_attachment: false,
                transient_attachment: false,
                input_attachment: false,
            }),
    {
        ImageUsage {
            transfer_source: false,
            transfer_destination: false,
            sampled: false,
            storage: false,
            color_attachment: false,
            depth_stencil_attachment: false,
            transient_attachment: false,
            input_attachment: false,
        }
    }
}

/// A handle to a logical graphics device. Two handles denote the same device
/// exactly when their identifiers are equal.
#[derive(Clone, Copy, Debug, PartialEq, Eq, Structural)]
pub struct Device {
    /// The device's identity: what the underlying API object's handle compares by.
    pub id: u64,
}

/// The properties of an image resource that clear-command validation reads:
/// the device it was created on, its usage capabilities, and its sub-resource
/// extents. The image itself is owned elsewhere.
#[derive(Clone, Copy, Debug, PartialEq, Eq, Structural)]
pub struct Image {
    /// The identifier of the device the image was created on.
    pub device_id: u64,
    /// The capabilities the image was created with.
    pub usage: ImageUsage,
    /// The total number of array layers.
    pub array_layers: u32,
    /// The total number of levels in the mipmap chain.
    pub mip_levels: u32,
}

impl Image {
    /// The image was created on `device`.
    pub open spec fn created_on(self, device: Device) -> bool {
        self.device_id == device.id
    }
}

} // verus!
