//! Why a decode call failed.

use vstd::prelude::*;

verus! {

/// A variant that is recognised on the wire and deliberately not decoded.
#[derive(Clone, Copy, Debug, PartialEq, Eq, Structural)]
pub enum UnsupportedKind {
    /// BGP4MP subtype 0.
    StateChange,
    /// BGP4MP subtype 5.
    StateChangeAs4,
    /// BGP4MP subtype 6.
    MessageLocal,
    /// BGP4MP subtype 7.
    MessageAs4Local,
    /// An MRT record whose type is not BGP4MP; its body stays opaque.
    NonBgp4mpRecord,
}

/// The four classes of decode failure, and the misuse of a typed accessor.
#[derive(Clone, Copy, Debug, PartialEq, Eq, Structural)]
pub enum ErrorKind {
    /// The bytes contradict their own framing.
    StructuralError,
    /// A tag holds a value outside its closed set.
    UnknownVariant,
    /// The bytes end inside a field.
    Truncation,
    /// The variant is known and not implemented.
    Unsupported,
    /// The value is not of the type that the accessor decodes.
    WrongType,
}

/// A failed decode, with the offending value where there is one.
#[derive(Clone, Copy, Debug, PartialEq, Eq, Structural)]
pub enum DecodeError {
    /// The bytes end before the field that is being read does.
    Truncated,
    /// One of the sixteen marker bytes of a BGP header is not 0xFF.
    InvalidMarker,
    /// An entry reaches past the end of the section that holds it, or a
    /// declared total is smaller than the header it includes.
    LengthUnderflow,
    /// A path attribute's declared length is not the size of its value.
    LengthMismatch,
    /// One of the low four bits of a path attribute's flags is set.
    ReservedFlagBits,
    /// An MRT type code outside the known set.
    UnknownMrtType(u16),
    /// A BGP4MP subtype code outside the known set.
    UnknownSubtype(u16),
    /// A BGP message type code outside 1..=4.
    UnknownBgpType(u8),
    /// An address family code other than 1 and 2.
    UnknownAddressFamily(u16),
    /// An ORIGIN code outside 0..=2.
    UnknownOrigin(u8),
    /// A NEXT_HOP length other than 4 and 16.
    UnknownNextHopLength(usize),
    /// An AGGREGATOR length other than 6, 8, 18 and 20.
    UnknownAggregatorLength(usize),
    /// A variant that is recognised and not decoded.
    Unsupported(UnsupportedKind),
    /// `parse_update` on a BGP message that is not an UPDATE.
    WrongMessageType,
    /// A BGP4MP accessor on a record of another subtype.
    WrongSubtype,
}

impl DecodeError {
    /// The class that this error belongs to.
    pub open spec fn spec_kind(self) -> ErrorKind {
        match self {
            DecodeError::Truncated => ErrorKind::Truncation,
            DecodeError::InvalidMarker => ErrorKind::StructuralError,
            DecodeError::LengthUnderflow => ErrorKind::StructuralError,
            DecodeError::LengthMismatch => ErrorKind::StructuralError,
            DecodeError::ReservedFlagBits => ErrorKind::StructuralError,
            DecodeError::UnknownMrtType(_) => ErrorKind::UnknownVariant,
            DecodeError::UnknownSubtype(_) => ErrorKind::UnknownVariant,
            DecodeError::UnknownBgpType(_) => ErrorKind::UnknownVariant,
            DecodeError::UnknownAddressFamily(_) => ErrorKind::UnknownVariant,
            DecodeError::UnknownOrigin(_) => ErrorKind::UnknownVariant,
            DecodeError::UnknownNextHopLength(_) => ErrorKind::UnknownVariant,
            DecodeError::UnknownAggregatorLength(_) => ErrorKind::UnknownVariant,
            DecodeError::Unsupported(_) => ErrorKind::Unsupported,
            DecodeError::WrongMessageType => ErrorKind::WrongType,
            DecodeError::WrongSubtype => ErrorKind::WrongType,
        }
    }

    /// The class that this error belongs to.
    #[verifier::when_used_as_spec(spec_kind)]
    pub fn kind(self) -> (k: ErrorKind)
        ensures
            k == self.spec_kind(),
    {
        match self {
            DecodeError::Truncated => ErrorKind::Truncation,
            DecodeError::InvalidMarker => ErrorKind::StructuralError,
            DecodeError::LengthUnderflow => ErrorKind::StructuralError,
            DecodeError::LengthMismatch => ErrorKind::StructuralError,
            DecodeError::ReservedFlagBits => ErrorKind::StructuralError,
            DecodeError::UnknownMrtType(_) => ErrorKind::UnknownVariant,
            DecodeError::UnknownSubtype(_) => ErrorKind::UnknownVariant,
            DecodeError::UnknownBgpType(_) => ErrorKind::UnknownVariant,
            DecodeError::UnknownAddressFamily(_) => ErrorKind::UnknownVariant,
            DecodeError::UnknownOrigin(_) => ErrorKind::UnknownVariant,
            DecodeError::UnknownNextHopLength(_) => ErrorKind::UnknownVariant,
            DecodeError::UnknownAggregatorLength(_) => ErrorKind::UnknownVariant,
            DecodeError::Unsupported(_) => ErrorKind::Unsupported,
            DecodeError::WrongMessageType => ErrorKind::WrongType,
            DecodeError::WrongSubtype => ErrorKind::WrongType,
        }
    }
}

} // verus!
