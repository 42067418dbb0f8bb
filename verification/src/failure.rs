//! Why an encoding did not come about.

use vstd::prelude::*;

verus! {

/// The ways in which turning a payload into an image, or an image into text,
/// can fail.
#[derive(Clone, Copy, Debug, PartialEq, Eq, Structural)]
pub enum EncodeError {
    /// The payload holds more than the largest QR symbol can carry.
    Encoding,
    /// The image could not be serialised.
    Io,
}

} // verus!
