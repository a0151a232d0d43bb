//! Color formats, their byte encoding, and conversion between them.

pub mod adaptation;
pub mod channel;
pub mod cie;
pub mod color;
pub mod convert;
pub mod format;
pub mod gamma;
pub mod graph;
pub mod grayscale;
pub mod hsv_hsl;
pub mod hue;
pub mod kernel;
pub mod lab;
pub mod luminance;
pub mod matrix;
pub mod quantize;
pub mod rgb;
pub mod transfer;

pub use color::Color;
pub use cie::{CieLab, CieXyz, ReferenceWhite};
pub use format::{
    get_bpp_for_format, get_bytes_per_pixel, ColorFormat, ColorFormatName, DecodeError,
};
pub use grayscale::{Gray16, Gray8, GrayF};
pub use hsv_hsl::{Hsl, Hsv};
pub use rgb::{Rgb, Rgb48, RgbF, Rgba, Rgba64, RgbaF, Srgb, SrgbF};
