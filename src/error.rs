//! Error types shared by the peripherals and the status line.
use vstd::prelude::*;

verus! {

/// core::str::Utf8Error, the error of UTF-8 decoding, carried as an opaque
/// value.
#[verifier::external_type_specification]
#[verifier::external_body]
pub struct ExUtf8Error(core::str::Utf8Error);

/// core::fmt::Error, the error of text formatting, carried as an opaque value.
#[verifier::external_type_specification]
#[verifier::external_body]
pub struct ExFmtError(core::fmt::Error);

/// The display bus could not be brought up.
#[derive(Debug, Clone, Copy, PartialEq, Eq, Structural)]
pub enum I2cError {
    InitializationFailed,
}

/// A pin could not be configured.
#[derive(Debug, Clone, Copy, PartialEq, Eq, Structural)]
pub enum GpioError {
    InitializationFailed,
}

/// Text that could not be decoded or composed.
#[derive(Debug)]
pub enum ConversionError {
    /// The bytes are not well-formed UTF-8.
    Utf(core::str::Utf8Error),
    /// Composing the text failed.
    Format(core::fmt::Error),
}

} // verus!
