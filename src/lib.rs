//! Reads the QR code in an image and hands its text to a caller as UTF-16,
//! through a buffer of fixed capacity and an integer status code.
use vstd::prelude::*;

pub mod adapter;
pub mod codecs;
pub mod output;
pub mod status;
pub mod utf16;

verus! {

} // verus!
