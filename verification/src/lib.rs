//! Validity checking for the "clear color image" command of a graphics API
//! wrapper: given an image's properties and a requested sub-resource range,
//! decide whether recording the clear command is legal.

pub mod clear_color_image;
pub mod image;

pub use clear_color_image::check_clear_color_image;
pub use clear_color_image::CheckClearColorImageError;
pub use image::Device;
pub use image::Image;
pub use image::ImageUsage;
