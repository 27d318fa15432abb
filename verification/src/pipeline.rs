pub mod export_image;
pub mod radial_parameter;
pub mod viewport;
