//! The byte-order tag carried in the first byte of every request record.

use vstd::prelude::*;

verus! {

/// Byte order of the multi-byte fields of a record on the wire.
///
/// The tag is encoded as a single byte: 0 for little-endian, 1 for
/// big-endian.  Comparing the tag of a record with the order a peer wants
/// is the single point of truth for whether the record needs transcoding.
#[derive(Clone, Copy, Debug, PartialEq, Eq, Structural)]
pub enum Endianness {
    Little,
    Big,
}

/// The single-byte encoding of an endianness tag.
pub open spec fn spec_tag_byte(e: Endianness) -> u8 {
    match e {
        Endianness::Little => 0,
        Endianness::Big => 1,
    }
}

/// The tag a byte stands for, if any: 0 and 1 are the only valid encodings.
pub open spec fn spec_tag_of_byte(n: u8) -> Option<Endianness> {
    if n == 0 {
        Some(Endianness::Little)
    } else if n == 1 {
        Some(Endianness::Big)
    } else {
        None
    }
}

impl Endianness {
    /// Decodes a tag byte; `None` for every byte other than 0 and 1.
    pub fn try_from_u8(n: u8) -> (r: Option<Self>)
        ensures
            r == spec_tag_of_byte(n),
    {
        match n {
            0 => Some(Endianness::Little),
            1 => Some(Endianness::Big),
            _ => None,
        }
    }

    /// Decodes a tag byte already known to be valid.
    pub fn from_u8_unchecked(n: u8) -> (r: Self)
        requires
            n == 0 || n == 1,
        ensures
            Some(r) == spec_tag_of_byte(n),
    {
        if n == 0 {
            Endianness::Little
        } else {
            Endianness::Big
        }
    }

    /// The byte that encodes this tag on the wire.
    pub fn tag_byte(self) -> (r: u8)
        ensures
            r == spec_tag_byte(self),
    {
        match self {
            Endianness::Little => 0,
            Endianness::Big => 1,
        }
    }
}

} // verus!
