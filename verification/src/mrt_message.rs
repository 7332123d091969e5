//! The MRT record: a timestamp, a type and a subtype, and a body whose
//! length the header declares.

use vstd::prelude::*;
use vstd::slice::slice_to_vec;

use crate::bgp4mp_message::spec_bgp4mp_message;
use crate::bgp4mp_message::spec_bgp4mp_message_as4;
use crate::bgp4mp_message::spec_envelope;
use crate::bgp4mp_message::BGP4MPEnvelope;
use crate::bgp4mp_message::BGP4MPEnvelopeView;
use crate::bgp4mp_message::BGP4MPMessage;
use crate::bgp4mp_message::BGP4MPMessageAs4;
use crate::bgp4mp_message::BGP4MPMessageAs4View;
use crate::bgp4mp_message::BGP4MPMessageView;
use crate::error::DecodeError;
use crate::error::UnsupportedKind;
use crate::wire::be16;
use crate::wire::be32;
use crate::wire::u16_at;
use crate::wire::u32_at;

verus! {

/// The size of the MRT header: timestamp, type, subtype and length.
pub const MRT_HEADER_LEN: usize = 12;

/// The type of an MRT record.
#[derive(Clone, Copy, Debug, PartialEq, Eq, Structural)]
pub enum MRTType {
    /// Type code 11.
    OspfV2,
    /// Type code 12.
    TableDump,
    /// Type code 13.
    TableDumpV2,
    /// Type code 16.
    Bgp4mp,
    /// Type code 17.
    Bgp4mpEt,
    /// Type code 32.
    Isis,
    /// Type code 33.
    IsisEt,
    /// Type code 48.
    OspfV3,
    /// Type code 49.
    OspfV3Et,
}

/// The subtype of an MRT record, read against its type: the BGP4MP
/// subtypes, and `Unknown` for any other.
#[derive(Clone, Copy, Debug, PartialEq, Eq, Structural)]
pub enum MRTSubType {
    /// BGP4MP subtype 0.
    Bgp4mpStateChange,
    /// BGP4MP subtype 1.
    Bgp4mpMessage,
    /// BGP4MP subtype 4.
    Bgp4mpMessageAs4,
    /// BGP4MP subtype 5.
    Bgp4mpStateChangeAs4,
    /// BGP4MP subtype 6.
    Bgp4mpMessageLocal,
    /// BGP4MP subtype 7.
    Bgp4mpMessageAs4Local,
    /// A subtype of a record that is not BGP4MP, or a code that BGP4MP does
    /// not define.
    Unknown,
}

impl MRTType {
    /// The record type that a type code denotes.
    pub open spec fn spec_from_code(code: u16) -> Result<MRTType, DecodeError> {
        if code == 11 {
            Ok(MRTType::OspfV2)
        } else if code == 12 {
            Ok(MRTType::TableDump)
        } else if code == 13 {
            Ok(MRTType::TableDumpV2)
        } else if code == 16 {
            Ok(MRTType::Bgp4mp)
        } else if code == 17 {
            Ok(MRTType::Bgp4mpEt)
        } else if code == 32 {
            Ok(MRTType::Isis)
        } else if code == 33 {
            Ok(MRTType::IsisEt)
        } else if code == 48 {
            Ok(MRTType::OspfV3)
        } else if code == 49 {
            Ok(MRTType::OspfV3Et)
        } else {
            Err(DecodeError::UnknownMrtType(code))
        }
    }

    /// The record type that a type code denotes, or `UnknownMrtType` with
    /// the code.
    #[verifier::when_used_as_spec(spec_from_code)]
    pub fn from_code(code: u16) -> (r: Result<MRTType, DecodeError>)
        ensures
            r == MRTType::spec_from_code(code),
    {
        match code {
            11 => Ok(MRTType::OspfV2),
            12 => Ok(MRTType::TableDump),
            13 => Ok(MRTType::TableDumpV2),
            16 => Ok(MRTType::Bgp4mp),
            17 => Ok(MRTType::Bgp4mpEt),
            32 => Ok(MRTType::Isis),
            33 => Ok(MRTType::IsisEt),
            48 => Ok(MRTType::OspfV3),
            49 => Ok(MRTType::OspfV3Et),
            _ => Err(DecodeError::UnknownMrtType(code)),
        }
    }
}

impl MRTSubType {
    /// The subtype that `code` denotes in a record of type `mrt_type`.
    pub open spec fn spec_of(mrt_type: MRTType, code: u16) -> MRTSubType {
        if mrt_type != MRTType::Bgp4mp {
            MRTSubType::Unknown
        } else if code == 0 {
            MRTSubType::Bgp4mpStateChange
        } else if code == 1 {
            MRTSubType::Bgp4mpMessage
        } else if code == 4 {
            MRTSubType::Bgp4mpMessageAs4
        } else if code == 5 {
            MRTSubType::Bgp4mpStateChangeAs4
        } else if code == 6 {
            MRTSubType::Bgp4mpMessageLocal
        } else if code == 7 {
            MRTSubType::Bgp4mpMessageAs4Local
        } else {
            MRTSubType::Unknown
        }
    }

    /// The subtype that `code` denotes in a record of type `mrt_type`.
    #[verifier::when_used_as_spec(spec_of)]
    pub fn of(mrt_type: MRTType, code: u16) -> (subtype: MRTSubType)
        ensures
            subtype == MRTSubType::spec_of(mrt_type, code),
    {
        match mrt_type {
            MRTType::Bgp4mp => match code {
                0 => MRTSubType::Bgp4mpStateChange,
                1 => MRTSubType::Bgp4mpMessage,
                4 => MRTSubType::Bgp4mpMessageAs4,
                5 => MRTSubType::Bgp4mpStateChangeAs4,
                6 => MRTSubType::Bgp4mpMessageLocal,
                7 => MRTSubType::Bgp4mpMessageAs4Local,
                _ => MRTSubType::Unknown,
            },
            _ => MRTSubType::Unknown,
        }
    }
}

/// The four fields of an MRT header, as they stand on the wire.
#[derive(Clone, Copy, Debug, PartialEq, Eq, Structural)]
pub struct MRTHeader {
    /// Seconds since the epoch.
    pub timestamp: u32,
    /// The type code.
    pub type_code: u16,
    /// The subtype code.
    pub subtype_code: u16,
    /// The number of bytes in the body.
    pub length: u32,
}

/// The header that the first twelve bytes of `s` denote.
pub open spec fn header_of(s: Seq<u8>) -> MRTHeader {
    MRTHeader {
        timestamp: be32(s, 0),
        type_code: be16(s, 4),
        subtype_code: be16(s, 6),
        length: be32(s, 8),
    }
}

impl MRTHeader {
    /// Reads the header that opens `bytes`: `Truncated` where `bytes` is
    /// shorter than a header.
    pub fn parse(bytes: &[u8]) -> (r: Result<MRTHeader, DecodeError>)
        ensures
            r == if bytes@.len() < MRT_HEADER_LEN {
                Err::<MRTHeader, DecodeError>(DecodeError::Truncated)
            } else {
                Ok(header_of(bytes@))
            },
    {
        if bytes.len() < MRT_HEADER_LEN {
            return Err(DecodeError::Truncated);
        }
        Ok(
            MRTHeader {
                timestamp: u32_at(bytes, 0),
                type_code: u16_at(bytes, 4),
                subtype_code: u16_at(bytes, 6),
                length: u32_at(bytes, 8),
            },
        )
    }
}

/// An MRT record, its body read in full and not yet looked into.
#[derive(Clone, Debug, PartialEq, Eq)]
pub struct MRTMessage {
    /// Seconds since the epoch.
    pub timestamp: u32,
    /// The type of the record.
    pub mrt_type: MRTType,
    /// The subtype, read against the type.
    pub mrt_subtype: MRTSubType,
    /// The subtype code as it stood on the wire.
    pub subtype_code: u16,
    /// The body: as many bytes as the header declared.
    pub buffer: Vec<u8>,
}

/// The mathematical content of an `MRTMessage`.
pub struct MRTMessageView {
    pub timestamp: u32,
    pub mrt_type: MRTType,
    pub mrt_subtype: MRTSubType,
    pub subtype_code: u16,
    pub body: Seq<u8>,
}

impl View for MRTMessage {
    type V = MRTMessageView;

    open spec fn view(&self) -> MRTMessageView {
        MRTMessageView {
            timestamp: self.timestamp,
            mrt_type: self.mrt_type,
            mrt_subtype: self.mrt_subtype,
            subtype_code: self.subtype_code,
            body: self.buffer@,
        }
    }
}

/// The length of the record that opens `s`, header included, as its header
/// declares it.
pub open spec fn record_len(s: Seq<u8>) -> int {
    MRT_HEADER_LEN + be32(s, 8)
}

/// The MRT record that opens `s`.
///
/// A header or a body that `s` is too short for is `Truncated`. Only when
/// the whole body is there is the type looked at: a code outside the known
/// set is `UnknownMrtType`. The subtype code is kept as it stands; what it
/// means is settled when the body is decoded.
pub open spec fn spec_mrt_message(s: Seq<u8>) -> Result<MRTMessageView, DecodeError> {
    if s.len() < MRT_HEADER_LEN || s.len() < record_len(s) {
        Err(DecodeError::Truncated)
    } else {
        match MRTType::spec_from_code(header_of(s).type_code) {
            Err(e) => Err(e),
            Ok(mrt_type) => Ok(
                MRTMessageView {
                    timestamp: header_of(s).timestamp,
                    mrt_type,
                    mrt_subtype: MRTSubType::spec_of(mrt_type, header_of(s).subtype_code),
                    subtype_code: header_of(s).subtype_code,
                    body: s.subrange(MRT_HEADER_LEN as int, record_len(s)),
                },
            ),
        }
    }
}

impl MRTMessageView {
    /// What `as_bgp4mp` returns for this record: a record that is not BGP4MP
    /// is `Unsupported`, and a BGP4MP record decodes as its subtype code and
    /// body say.
    pub open spec fn spec_as_bgp4mp(self) -> Result<BGP4MPEnvelopeView, DecodeError> {
        if self.mrt_type == MRTType::Bgp4mp {
            spec_envelope(self.subtype_code, self.body)
        } else {
            Err(DecodeError::Unsupported(UnsupportedKind::NonBgp4mpRecord))
        }
    }
}

impl MRTMessage {
    /// Decodes the MRT record that opens `bytes`; bytes after the record
    /// are not looked at.
    pub fn parse(bytes: &[u8]) -> (r: Result<MRTMessage, DecodeError>)
        ensures
            match r {
                Ok(message) => spec_mrt_message(bytes@) == Ok::<MRTMessageView, DecodeError>(
                    message@,
                ),
                Err(e) => spec_mrt_message(bytes@) == Err::<MRTMessageView, DecodeError>(e),
            },
    {
        let header = MRTHeader::parse(bytes)?;
        let length: usize = header.length as usize;
        if bytes.len() - MRT_HEADER_LEN < length {
            return Err(DecodeError::Truncated);
        }
        let mrt_type = MRTType::from_code(header.type_code)?;
        Ok(
            MRTMessage {
                timestamp: header.timestamp,
                mrt_type,
                mrt_subtype: MRTSubType::of(mrt_type, header.subtype_code),
                subtype_code: header.subtype_code,
                buffer: slice_to_vec(&bytes[MRT_HEADER_LEN..MRT_HEADER_LEN + length]),
            },
        )
    }

    /// Decodes the body as a BGP4MP message with 16-bit AS numbers:
    /// `WrongSubtype` unless the record's subtype says that it is one.
    pub fn parse_bgp4mp_message(&self) -> (r: Result<BGP4MPMessage, DecodeError>)
        ensures
            self.mrt_subtype != MRTSubType::Bgp4mpMessage ==> r == Err::<
                BGP4MPMessage,
                DecodeError,
            >(DecodeError::WrongSubtype),
            self.mrt_subtype == MRTSubType::Bgp4mpMessage ==> match r {
                Ok(message) => spec_bgp4mp_message(self@.body) == Ok::<
                    BGP4MPMessageView,
                    DecodeError,
                >(message@),
                Err(e) => spec_bgp4mp_message(self@.body) == Err::<BGP4MPMessageView, DecodeError>(
                    e,
                ),
            },
    {
        match self.mrt_subtype {
            MRTSubType::Bgp4mpMessage => BGP4MPMessage::parse(self.buffer.as_slice()),
            _ => Err(DecodeError::WrongSubtype),
        }
    }

    /// Decodes the body as a BGP4MP message with 32-bit AS numbers:
    /// `WrongSubtype` unless the record's subtype says that it is one.
    pub fn parse_bgp4mp_message_as4(&self) -> (r: Result<BGP4MPMessageAs4, DecodeError>)
        ensures
            self.mrt_subtype != MRTSubType::Bgp4mpMessageAs4 ==> r == Err::<
                BGP4MPMessageAs4,
                DecodeError,
            >(DecodeError::WrongSubtype),
            self.mrt_subtype == MRTSubType::Bgp4mpMessageAs4 ==> match r {
                Ok(message) => spec_bgp4mp_message_as4(self@.body) == Ok::<
                    BGP4MPMessageAs4View,
                    DecodeError,
                >(message@),
                Err(e) => spec_bgp4mp_message_as4(self@.body) == Err::<
                    BGP4MPMessageAs4View,
                    DecodeError,
                >(e),
            },
    {
        match self.mrt_subtype {
            MRTSubType::Bgp4mpMessageAs4 => BGP4MPMessageAs4::parse(self.buffer.as_slice()),
            _ => Err(DecodeError::WrongSubtype),
        }
    }

    /// Decodes the body of a BGP4MP record, by its subtype code.
    pub fn as_bgp4mp(&self) -> (r: Result<BGP4MPEnvelope, DecodeError>)
        ensures
            match r {
                Ok(envelope) => self@.spec_as_bgp4mp() == Ok::<BGP4MPEnvelopeView, DecodeError>(
                    envelope@,
                ),
                Err(e) => self@.spec_as_bgp4mp() == Err::<BGP4MPEnvelopeView, DecodeError>(e),
            },
    {
        match self.mrt_type {
            MRTType::Bgp4mp => BGP4MPEnvelope::parse(self.subtype_code, &self.buffer),
            _ => Err(DecodeError::Unsupported(UnsupportedKind::NonBgp4mpRecord)),
        }
    }
}

/// A record that decodes holds as many body bytes as its header declares,
/// and its subtype is its subtype code read against its type.
pub proof fn lemma_record_body_length(s: Seq<u8>)
    requires
        spec_mrt_message(s) is Ok,
    ensures
        spec_mrt_message(s)->Ok_0.body.len() == header_of(s).length,
        spec_mrt_message(s)->Ok_0.body == s.subrange(MRT_HEADER_LEN as int, record_len(s)),
        spec_mrt_message(s)->Ok_0.mrt_subtype == MRTSubType::spec_of(
            spec_mrt_message(s)->Ok_0.mrt_type,
            spec_mrt_message(s)->Ok_0.subtype_code,
        ),
{
}

} // verus!
