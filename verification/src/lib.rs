//! QR-code images for text payloads, and the decisions behind checking a link.
//!
//! The crate renders a payload as a QR symbol, serialises the symbol as a
//! grayscale PNG and, for transport, as base64 text. It also decides, step by
//! step, whether a string is a well-formed URL that answered a request; the
//! request itself is made by the caller.

pub mod encoder;
pub mod failure;
pub mod greeting;
pub mod link;
pub mod radix64;
pub mod raster;
pub mod symbol;

pub use encoder::{qr_png_b64, qr_png_for};
pub use greeting::msg;
pub use link::validate_link;
