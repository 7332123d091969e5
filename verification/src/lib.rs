//! Decoder for MRT routing dumps: MRT record framing, the BGP4MP envelope,
//! the BGP message header and the BGP UPDATE body, each a function on bytes
//! whose contract names the value that the wire format denotes.
//!
//! The scanners walk a byte source that is already in memory, one record at
//! a time. A record's body is taken whole before anything in it is decoded,
//! so a fault inside a body never moves the scanner off a record boundary.

pub mod address;
pub mod bgp4mp_message;
pub mod bgp_message;
pub mod bgp_update_message;
pub mod error;
pub mod mrt_message;
pub mod prefix;
pub mod wire;

use vstd::prelude::*;

use crate::address::AddressFamily;
use crate::bgp4mp_message::spec_envelope;
use crate::bgp4mp_message::BGP4MPEnvelopeView;
use crate::bgp_message::declared_len;
use crate::bgp_message::marker_fault;
use crate::bgp_message::spec_bgp_message;
use crate::bgp_message::BGPMessage;
use crate::bgp_message::BGPMessageView;
use crate::bgp_message::HEADER_LEN;
use crate::bgp_message::MARKER_LEN;
use crate::error::DecodeError;
use crate::mrt_message::record_len;
use crate::mrt_message::spec_mrt_message;
use crate::mrt_message::MRTHeader;
use crate::mrt_message::MRTMessage;
use crate::mrt_message::MRTMessageView;
use crate::mrt_message::MRTType;
use crate::mrt_message::MRT_HEADER_LEN;
use crate::wire::be16;
use crate::wire::u16_at;

verus! {

/// What one scan of a source that holds `s` returns: nothing at the end of
/// the source, else the record that opens `s`, or why there is none.
pub open spec fn spec_mrt_scan(s: Seq<u8>) -> Result<Option<MRTMessageView>, DecodeError> {
    if s.len() == 0 {
        Ok(None)
    } else {
        match spec_mrt_message(s) {
            Ok(message) => Ok(Some(message)),
            Err(e) => Err(e),
        }
    }
}

/// The number of bytes that one scan takes from a source that holds `s`: the
/// record that opens `s`, whatever its type and whatever its body holds, or
/// all of `s` where it ends inside a record.
pub open spec fn mrt_scan_len(s: Seq<u8>) -> int {
    if s.len() < MRT_HEADER_LEN || s.len() < record_len(s) {
        s.len() as int
    } else {
        record_len(s)
    }
}

/// A pull-based reader of MRT records from a byte source held in memory.
pub struct MRTScanner {
    data: Vec<u8>,
    position: usize,
}

impl MRTScanner {
    #[verifier::type_invariant]
    spec fn in_bounds(self) -> bool {
        self.position <= self.data@.len()
    }

    /// The bytes that have not been scanned yet.
    pub closed spec fn remaining(self) -> Seq<u8> {
        self.data@.skip(self.position as int)
    }

    /// A scanner at the start of `data`.
    pub fn new(data: Vec<u8>) -> (scanner: MRTScanner)
        ensures
            scanner.remaining() == data@,
    {
        MRTScanner { data, position: 0 }
    }

    /// Takes the next record off the source.
    ///
    /// `Ok(None)` marks the end of the source, at a record boundary. A source
    /// that ends inside a record is `Truncated`, and is used up by the call.
    /// A record of unknown type is an error of this call only: its body has
    /// been taken, and the next call starts at the next record.
    pub fn scan(&mut self) -> (r: Result<Option<MRTMessage>, DecodeError>)
        ensures
            match r {
                Ok(Some(message)) => spec_mrt_scan(old(self).remaining()) == Ok::<
                    Option<MRTMessageView>,
                    DecodeError,
                >(Some(message@)),
                Ok(None) => spec_mrt_scan(old(self).remaining()) == Ok::<
                    Option<MRTMessageView>,
                    DecodeError,
                >(None),
                Err(e) => spec_mrt_scan(old(self).remaining()) == Err::<
                    Option<MRTMessageView>,
                    DecodeError,
                >(e),
            },
            final(self).remaining() == old(self).remaining().skip(
                mrt_scan_len(old(self).remaining()),
            ),
    {
        proof {
            use_type_invariant(&*self);
        }
        let total: usize = self.data.len();
        let rest = &self.data.as_slice()[self.position..total];
        if rest.len() == 0 {
            assert(old(self).remaining().skip(0) =~= old(self).remaining());
            return Ok(None);
        }
        let step: usize = match MRTHeader::parse(rest) {
            Ok(header) => if rest.len() - MRT_HEADER_LEN < header.length as usize {
                rest.len()
            } else {
                MRT_HEADER_LEN + header.length as usize
            },
            Err(_) => rest.len(),
        };
        let r = MRTMessage::parse(rest);
        self.position = self.position + step;
        proof {
            assert(self.data@.skip(self.position as int) =~= old(self).remaining().skip(
                step as int,
            ));
        }
        match r {
            Ok(message) => Ok(Some(message)),
            Err(e) => Err(e),
        }
    }
}

/// The number of bytes before the interface index in the body of a BGP4MP
/// message: the two AS numbers, of 32 bits each under subtype 4 and of 16
/// under subtype 1.
pub open spec fn as_numbers_len(subtype: u16) -> int {
    if subtype == 4 {
        8
    } else {
        4
    }
}

/// A scan takes the record that the header frames and no byte more, whatever
/// the body holds: where a record is all there, the scan takes exactly its
/// declared length. A faulty marker in the BGP message of such a record does
/// not show in the scan at all, which yields the record; it shows when the
/// record is decoded, as `InvalidMarker`.
pub proof fn lemma_marker_fault_keeps_framing(s: Seq<u8>, family: AddressFamily)
    requires
        spec_mrt_message(s) matches Ok(record) && {
            let session = as_numbers_len(record.subtype_code);
            let message = session + 4 + 2 * family.spec_width();
            &&& record.mrt_type == MRTType::Bgp4mp
            &&& (record.subtype_code == 1 || record.subtype_code == 4)
            &&& record.body.len() >= message
            &&& AddressFamily::spec_from_code(be16(record.body, session + 2)) == Ok::<
                AddressFamily,
                DecodeError,
            >(family)
            &&& marker_fault(record.body.skip(message))
        },
    ensures
        mrt_scan_len(s) == record_len(s),
        spec_mrt_scan(s) == Ok::<Option<MRTMessageView>, DecodeError>(
            Some(spec_mrt_message(s)->Ok_0),
        ),
        spec_mrt_message(s)->Ok_0.spec_as_bgp4mp() == Err::<BGP4MPEnvelopeView, DecodeError>(
            DecodeError::InvalidMarker,
        ),
{
}

/// One scan never takes more than the source holds, and where a whole
/// record opens the source it takes that record's declared length, header
/// included, whether or not the record decodes.
pub proof fn lemma_scan_stays_in_record(s: Seq<u8>)
    ensures
        0 <= mrt_scan_len(s) <= s.len(),
        s.len() >= MRT_HEADER_LEN && s.len() >= record_len(s) ==> mrt_scan_len(s) == record_len(s),
        spec_mrt_scan(s) matches Ok(Some(record)) ==> mrt_scan_len(s) == MRT_HEADER_LEN
            + record.body.len(),
{
}

/// What one scan of a source that holds `s` returns: nothing at the end of
/// the source, else the BGP message that opens `s`, or why there is none.
pub open spec fn spec_bgp_scan(s: Seq<u8>) -> Result<Option<BGPMessageView>, DecodeError> {
    if s.len() == 0 {
        Ok(None)
    } else {
        match spec_bgp_message(s) {
            Ok(message) => Ok(Some(message)),
            Err(e) => Err(e),
        }
    }
}

/// The number of bytes that one scan takes from a source that holds `s`: the
/// message that opens `s`, whatever its type, where its marker is sound and
/// the length that it declares holds the header and is all there; else all
/// of `s`, for then nothing says where the next message starts.
pub open spec fn bgp_scan_len(s: Seq<u8>) -> int {
    if marker_fault(s) || s.len() < HEADER_LEN || declared_len(s) < HEADER_LEN || s.len()
        < declared_len(s) {
        s.len() as int
    } else {
        declared_len(s)
    }
}

/// A pull-based reader of BGP messages from a byte source held in memory.
pub struct BGPScanner {
    data: Vec<u8>,
    position: usize,
}

impl BGPScanner {
    #[verifier::type_invariant]
    spec fn in_bounds(self) -> bool {
        self.position <= self.data@.len()
    }

    /// The bytes that have not been scanned yet.
    pub closed spec fn remaining(self) -> Seq<u8> {
        self.data@.skip(self.position as int)
    }

    /// A scanner at the start of `data`.
    pub fn new(data: Vec<u8>) -> (scanner: BGPScanner)
        ensures
            scanner.remaining() == data@,
    {
        BGPScanner { data, position: 0 }
    }

    /// Takes the next message off the source.
    ///
    /// `Ok(None)` marks the end of the source, at a message boundary. A
    /// message of unknown type is an error of this call only, and the next
    /// call starts behind it. A source that ends inside a message, a faulty
    /// marker and a length too small for the header use the source up.
    pub fn scan(&mut self) -> (r: Result<Option<BGPMessage>, DecodeError>)
        ensures
            match r {
                Ok(Some(message)) => spec_bgp_scan(old(self).remaining()) == Ok::<
                    Option<BGPMessageView>,
                    DecodeError,
                >(Some(message@)),
                Ok(None) => spec_bgp_scan(old(self).remaining()) == Ok::<
                    Option<BGPMessageView>,
                    DecodeError,
                >(None),
                Err(e) => spec_bgp_scan(old(self).remaining()) == Err::<
                    Option<BGPMessageView>,
                    DecodeError,
                >(e),
            },
            final(self).remaining() == old(self).remaining().skip(
                bgp_scan_len(old(self).remaining()),
            ),
    {
        proof {
            use_type_invariant(&*self);
        }
        let total: usize = self.data.len();
        let rest = &self.data.as_slice()[self.position..total];
        if rest.len() == 0 {
            assert(old(self).remaining().skip(0) =~= old(self).remaining());
            return Ok(None);
        }
        let r = BGPMessage::parse(rest);
        let faulty: bool = match &r {
            Err(DecodeError::InvalidMarker) => true,
            _ => false,
        };
        let step: usize = if faulty || rest.len() < HEADER_LEN {
            rest.len()
        } else {
            let length: usize = u16_at(rest, MARKER_LEN) as usize;
            if length < HEADER_LEN || rest.len() < length {
                rest.len()
            } else {
                length
            }
        };
        self.position = self.position + step;
        proof {
            assert(self.data@.skip(self.position as int) =~= old(self).remaining().skip(
                step as int,
            ));
        }
        match r {
            Ok(message) => Ok(Some(message)),
            Err(e) => Err(e),
        }
    }
}

} // verus!
