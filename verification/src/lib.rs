//! A verified codec for a compact, fixed-layout binary message protocol.
//!
//! Numeric engineering computations are exposed over a byte-oriented wire
//! format instead of JSON.  A message is a fixed-size record of one-byte
//! and eight-byte fields laid out by C struct rules; request records carry
//! a leading endianness tag so that a client may send multi-byte fields in
//! either byte order.  This crate holds the protocol layer: descriptors
//! and their layout arithmetic, the chunk-accumulating decoder, and the
//! one-shot response encoder.  Eight-byte fields travel as 64-bit patterns;
//! interpreting a pattern as a floating-point number, and the numeric
//! kernels themselves, live outside this crate.

use vstd::prelude::*;

pub mod endianness;
pub mod layout;
pub mod wire;
pub mod record;
pub mod decoder;
pub mod encoder;
pub mod formats;
pub mod proto;

verus! {

/// Failure of decoding a request buffer.
#[derive(Clone, Copy, Debug, PartialEq, Eq, Structural)]
pub enum ProtocolError {
    /// More bytes arrived than the descriptor's computed size allows.
    Overflow,
    /// The stream ended with a buffer whose length is not exactly the
    /// descriptor's computed size.
    LengthMismatch,
    /// The leading tag byte of a request record is neither 0 nor 1.
    InvalidEndianness,
}

/// Failure of a computation kernel, reported by the boundary that runs it.
///
/// The codec never constructs a response parcel after such an error.
#[derive(Debug)]
pub enum Error {
    /// The kernel hit a numerical fault while evaluating its formulas.
    NumericalError,
    /// An argument required by the selected model was not provided.
    ExpectedArgumentMissing(&'static str),
    /// The model number selects no known model.
    UnknownModel,
}

} // verus!
