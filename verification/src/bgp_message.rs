//! The BGP message header: sixteen marker bytes, the total length, the type,
//! and the body that the length leaves.

use vstd::prelude::*;
use vstd::slice::slice_to_vec;

use crate::bgp_update_message::spec_update;
use crate::bgp_update_message::BGPUpdateMessage;
use crate::bgp_update_message::BGPUpdateView;
use crate::error::DecodeError;
use crate::error::ErrorKind;
use crate::wire::be16;
use crate::wire::u16_at;

verus! {

/// The number of marker bytes that open a BGP message.
pub const MARKER_LEN: usize = 16;

/// The size of the BGP header: marker, length and type.
pub const HEADER_LEN: usize = 19;

/// The type of a BGP message.
#[derive(Clone, Copy, Debug, PartialEq, Eq, Structural)]
pub enum BGPType {
    /// Type code 1.
    Open,
    /// Type code 2.
    Update,
    /// Type code 3.
    Notification,
    /// Type code 4.
    KeepAlive,
}

/// A BGP message: its type, and its body as the bytes that followed the
/// header.
#[derive(Clone, Debug, PartialEq, Eq)]
pub struct BGPMessage {
    /// The type of the message.
    pub bgp_type: BGPType,
    /// The bytes that followed the header, undecoded.
    pub buffer: Vec<u8>,
}

/// The mathematical content of a `BGPMessage`.
pub struct BGPMessageView {
    pub bgp_type: BGPType,
    pub body: Seq<u8>,
}

impl BGPType {
    /// The message type that a type code denotes; codes outside 1 to 4
    /// denote none.
    pub open spec fn spec_from_code(code: u8) -> Result<BGPType, DecodeError> {
        if code == 1 {
            Ok(BGPType::Open)
        } else if code == 2 {
            Ok(BGPType::Update)
        } else if code == 3 {
            Ok(BGPType::Notification)
        } else if code == 4 {
            Ok(BGPType::KeepAlive)
        } else {
            Err(DecodeError::UnknownBgpType(code))
        }
    }

    /// The message type that a type code denotes, or `UnknownBgpType` with
    /// the code.
    #[verifier::when_used_as_spec(spec_from_code)]
    pub fn from_code(code: u8) -> (r: Result<BGPType, DecodeError>)
        ensures
            r == BGPType::spec_from_code(code),
    {
        match code {
            1 => Ok(BGPType::Open),
            2 => Ok(BGPType::Update),
            3 => Ok(BGPType::Notification),
            4 => Ok(BGPType::KeepAlive),
            _ => Err(DecodeError::UnknownBgpType(code)),
        }
    }
}

/// Whether one of the marker bytes that `s` holds, the first sixteen at
/// most, is not 0xFF.
pub open spec fn marker_fault(s: Seq<u8>) -> bool {
    exists|i: int| 0 <= i < MARKER_LEN && i < s.len() && #[trigger] s[i] != 0xFF
}

/// The total length that the header of `s` declares, header included.
pub open spec fn declared_len(s: Seq<u8>) -> int {
    be16(s, MARKER_LEN as int) as int
}

/// The BGP message that opens `s`.
///
/// A marker byte other than 0xFF is `InvalidMarker`, before anything else is
/// looked at. A header that `s` is too short for is `Truncated`. Then the
/// type code is read, then the length: one that is smaller than the header
/// is `LengthUnderflow`, one that `s` is too short for is `Truncated`. The
/// body is what the length leaves after the header; bytes of `s` after it
/// are not part of the message.
pub open spec fn spec_bgp_message(s: Seq<u8>) -> Result<BGPMessageView, DecodeError> {
    if marker_fault(s) {
        Err(DecodeError::InvalidMarker)
    } else if s.len() < HEADER_LEN {
        Err(DecodeError::Truncated)
    } else {
        match BGPType::spec_from_code(s[HEADER_LEN - 1]) {
            Err(e) => Err(e),
            Ok(bgp_type) => if declared_len(s) < HEADER_LEN {
                Err(DecodeError::LengthUnderflow)
            } else if s.len() < declared_len(s) {
                Err(DecodeError::Truncated)
            } else {
                Ok(BGPMessageView { bgp_type, body: s.subrange(HEADER_LEN as int, declared_len(s)) })
            },
        }
    }
}

impl View for BGPMessage {
    type V = BGPMessageView;

    open spec fn view(&self) -> BGPMessageView {
        BGPMessageView { bgp_type: self.bgp_type, body: self.buffer@ }
    }
}

impl BGPMessage {
    /// Decodes the BGP message that opens `bytes`.
    pub fn parse(bytes: &[u8]) -> (r: Result<BGPMessage, DecodeError>)
        ensures
            match r {
                Ok(message) => spec_bgp_message(bytes@) == Ok::<BGPMessageView, DecodeError>(
                    message@,
                ),
                Err(e) => spec_bgp_message(bytes@) == Err::<BGPMessageView, DecodeError>(e),
            },
            marker_fault(bytes@) ==> r == Err::<BGPMessage, DecodeError>(
                DecodeError::InvalidMarker,
            ),
    {
        let total: usize = bytes.len();
        let mut i: usize = 0;
        while i < MARKER_LEN && i < total
            invariant
                i <= MARKER_LEN,
                i <= total,
                total == bytes@.len(),
                forall|j: int| 0 <= j < i ==> bytes@[j] == 0xFF,
            decreases MARKER_LEN - i,
        {
            if bytes[i] != 0xFF {
                return Err(DecodeError::InvalidMarker);
            }
            i = i + 1;
        }
        if total < HEADER_LEN {
            return Err(DecodeError::Truncated);
        }
        let bgp_type = BGPType::from_code(bytes[HEADER_LEN - 1])?;
        let length: usize = u16_at(bytes, MARKER_LEN) as usize;
        if length < HEADER_LEN {
            return Err(DecodeError::LengthUnderflow);
        }
        if total < length {
            return Err(DecodeError::Truncated);
        }
        Ok(BGPMessage { bgp_type, buffer: slice_to_vec(&bytes[HEADER_LEN..length]) })
    }

    /// Decodes the body as an UPDATE: `WrongMessageType` unless the message
    /// is one.
    pub fn parse_update(&self) -> (r: Result<BGPUpdateMessage, DecodeError>)
        ensures
            self.bgp_type != BGPType::Update ==> r == Err::<BGPUpdateMessage, DecodeError>(
                DecodeError::WrongMessageType,
            ),
            self.bgp_type == BGPType::Update ==> match r {
                Ok(update) => spec_update(self@.body) == Ok::<BGPUpdateView, DecodeError>(update@),
                Err(e) => spec_update(self@.body) == Err::<BGPUpdateView, DecodeError>(e),
            },
    {
        match self.bgp_type {
            BGPType::Update => BGPUpdateMessage::parse(self.buffer.as_slice()),
            _ => Err(DecodeError::WrongMessageType),
        }
    }
}

/// A message with a marker byte other than 0xFF is rejected as malformed,
/// whatever else it holds and however long it is.
pub proof fn lemma_marker_fault_is_structural(s: Seq<u8>)
    requires
        marker_fault(s),
    ensures
        spec_bgp_message(s) == Err::<BGPMessageView, DecodeError>(DecodeError::InvalidMarker),
        DecodeError::InvalidMarker.spec_kind() == ErrorKind::StructuralError,
{
}

/// A message that decodes is as long as it declares: its body is the bytes
/// that the declared length leaves after the header.
pub proof fn lemma_bgp_message_length(s: Seq<u8>)
    requires
        spec_bgp_message(s) is Ok,
    ensures
        spec_bgp_message(s)->Ok_0.body.len() + HEADER_LEN == declared_len(s),
        declared_len(s) <= s.len(),
{
}

} // verus!
