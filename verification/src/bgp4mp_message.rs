//! The BGP4MP envelope: the two ends of a peering session, and the BGP
//! message that passed between them.

use vstd::prelude::*;

pub use crate::address::AddressFamily;

use crate::address::address_at;
use crate::address::parse_address;
use crate::address::IpAddress;
use crate::bgp_message::spec_bgp_message;
use crate::bgp_message::BGPMessage;
use crate::bgp_message::BGPMessageView;
use crate::error::DecodeError;
use crate::error::UnsupportedKind;
use crate::wire::be16;
use crate::wire::be32;
use crate::wire::u16_at;
use crate::wire::u32_at;

verus! {

/// What follows the AS numbers in a BGP4MP message, whatever their width.
#[derive(Clone, Debug, PartialEq, Eq)]
pub struct PeerSession {
    /// The index of the interface that the message came in on.
    pub interface_index: u16,
    /// The family of both addresses.
    pub address_family: AddressFamily,
    /// The address of the peer.
    pub peer_ip_address: IpAddress,
    /// The address of the collector's end.
    pub local_ip_address: IpAddress,
    /// The BGP message.
    pub bgp_message: BGPMessage,
}

/// The mathematical content of a `PeerSession`.
pub struct PeerSessionView {
    pub interface_index: u16,
    pub address_family: AddressFamily,
    pub peer_ip_address: IpAddress,
    pub local_ip_address: IpAddress,
    pub bgp_message: BGPMessageView,
}

impl View for PeerSession {
    type V = PeerSessionView;

    open spec fn view(&self) -> PeerSessionView {
        PeerSessionView {
            interface_index: self.interface_index,
            address_family: self.address_family,
            peer_ip_address: self.peer_ip_address,
            local_ip_address: self.local_ip_address,
            bgp_message: self.bgp_message@,
        }
    }
}

/// The session fields that stand at `at` in `s`: interface index, address
/// family, the two addresses in the width of the family, and a BGP message
/// in the bytes that are left.
///
/// Bytes that end before the family code does, or before the second address
/// does, are `Truncated`; a family code other than 1 and 2 is
/// `UnknownAddressFamily`; the rest fails as the BGP message does.
pub open spec fn spec_peer_session(s: Seq<u8>, at: int) -> Result<PeerSessionView, DecodeError> {
    if s.len() < at + 4 {
        Err(DecodeError::Truncated)
    } else {
        match AddressFamily::spec_from_code(be16(s, at + 2)) {
            Err(e) => Err(e),
            Ok(family) => if s.len() < at + 4 + 2 * family.spec_width() {
                Err(DecodeError::Truncated)
            } else {
                match spec_bgp_message(s.skip(at + 4 + 2 * family.spec_width())) {
                    Err(e) => Err(e),
                    Ok(message) => Ok(
                        PeerSessionView {
                            interface_index: be16(s, at),
                            address_family: family,
                            peer_ip_address: address_at(s, at + 4, family),
                            local_ip_address: address_at(
                                s,
                                at + 4 + family.spec_width(),
                                family,
                            ),
                            bgp_message: message,
                        },
                    ),
                }
            },
        }
    }
}

/// Decodes the session fields at `at`, where the AS numbers end.
pub fn parse_peer_session(bytes: &[u8], at: usize) -> (r: Result<PeerSession, DecodeError>)
    ensures
        match r {
            Ok(session) => spec_peer_session(bytes@, at as int) == Ok::<
                PeerSessionView,
                DecodeError,
            >(session@),
            Err(e) => spec_peer_session(bytes@, at as int) == Err::<PeerSessionView, DecodeError>(
                e,
            ),
        },
        r matches Ok(session) ==> session.peer_ip_address.spec_family() == session.address_family
            && session.local_ip_address.spec_family() == session.address_family,
{
    let total: usize = bytes.len();
    if total < at || total - at < 4 {
        return Err(DecodeError::Truncated);
    }
    let interface_index = u16_at(bytes, at);
    let address_family = AddressFamily::from_code(u16_at(bytes, at + 2))?;
    let width: usize = address_family.width();
    let peer_at: usize = at + 4;
    if total - peer_at < 2 * width {
        return Err(DecodeError::Truncated);
    }
    let peer_ip_address = parse_address(bytes, peer_at, address_family)?;
    let local_ip_address = parse_address(bytes, peer_at + width, address_family)?;
    let bgp_message = BGPMessage::parse(&bytes[peer_at + 2 * width..total])?;
    Ok(PeerSession { interface_index, address_family, peer_ip_address, local_ip_address, bgp_message })
}

/// A BGP4MP state change. Not decoded.
#[derive(Clone, Copy, Debug, PartialEq, Eq, Structural)]
pub struct BGP4MPStateChange {

}

impl BGP4MPStateChange {
    /// State changes are not decoded: the result is `Unsupported`, whatever
    /// the bytes.
    pub fn parse(buffer: &Vec<u8>) -> (r: Result<BGP4MPStateChange, DecodeError>)
        ensures
            r == Err::<BGP4MPStateChange, DecodeError>(
                DecodeError::Unsupported(UnsupportedKind::StateChange),
            ),
    {
        Err(DecodeError::Unsupported(UnsupportedKind::StateChange))
    }
}

/// A BGP message between two peers with 16-bit AS numbers.
#[derive(Clone, Debug, PartialEq, Eq)]
pub struct BGP4MPMessage {
    /// The AS number of the peer.
    pub peer_as_number: u16,
    /// The AS number of the collector's end.
    pub local_as_number: u16,
    /// The index of the interface that the message came in on.
    pub interface_index: u16,
    /// The family of both addresses.
    pub address_family: AddressFamily,
    /// The address of the peer.
    pub peer_ip_address: IpAddress,
    /// The address of the collector's end.
    pub local_ip_address: IpAddress,
    /// The BGP message.
    pub bgp_message: BGPMessage,
}

/// The mathematical content of a `BGP4MPMessage`.
pub struct BGP4MPMessageView {
    pub peer_as_number: u16,
    pub local_as_number: u16,
    pub interface_index: u16,
    pub address_family: AddressFamily,
    pub peer_ip_address: IpAddress,
    pub local_ip_address: IpAddress,
    pub bgp_message: BGPMessageView,
}

impl View for BGP4MPMessage {
    type V = BGP4MPMessageView;

    open spec fn view(&self) -> BGP4MPMessageView {
        BGP4MPMessageView {
            peer_as_number: self.peer_as_number,
            local_as_number: self.local_as_number,
            interface_index: self.interface_index,
            address_family: self.address_family,
            peer_ip_address: self.peer_ip_address,
            local_ip_address: self.local_ip_address,
            bgp_message: self.bgp_message@,
        }
    }
}

impl BGP4MPMessageView {
    /// Whether both addresses are of the family that the message names.
    pub open spec fn family_matches(self) -> bool {
        self.peer_ip_address.spec_family() == self.address_family
            && self.local_ip_address.spec_family() == self.address_family
    }
}

/// The BGP4MP message that `s` denotes: two 16-bit AS numbers, then the
/// session fields.
pub open spec fn spec_bgp4mp_message(s: Seq<u8>) -> Result<BGP4MPMessageView, DecodeError> {
    if s.len() < 4 {
        Err(DecodeError::Truncated)
    } else {
        match spec_peer_session(s, 4) {
            Err(e) => Err(e),
            Ok(session) => Ok(
                BGP4MPMessageView {
                    peer_as_number: be16(s, 0),
                    local_as_number: be16(s, 2),
                    interface_index: session.interface_index,
                    address_family: session.address_family,
                    peer_ip_address: session.peer_ip_address,
                    local_ip_address: session.local_ip_address,
                    bgp_message: session.bgp_message,
                },
            ),
        }
    }
}

impl BGP4MPMessage {
    /// Decodes the body of a BGP4MP record of subtype Message.
    pub fn parse(bytes: &[u8]) -> (r: Result<BGP4MPMessage, DecodeError>)
        ensures
            match r {
                Ok(message) => spec_bgp4mp_message(bytes@) == Ok::<BGP4MPMessageView, DecodeError>(
                    message@,
                ),
                Err(e) => spec_bgp4mp_message(bytes@) == Err::<BGP4MPMessageView, DecodeError>(e),
            },
            r matches Ok(message) ==> message@.family_matches(),
    {
        if bytes.len() < 4 {
            return Err(DecodeError::Truncated);
        }
        let peer_as_number = u16_at(bytes, 0);
        let local_as_number = u16_at(bytes, 2);
        let session = parse_peer_session(bytes, 4)?;
        Ok(
            BGP4MPMessage {
                peer_as_number,
                local_as_number,
                interface_index: session.interface_index,
                address_family: session.address_family,
                peer_ip_address: session.peer_ip_address,
                local_ip_address: session.local_ip_address,
                bgp_message: session.bgp_message,
            },
        )
    }
}

/// A BGP message between two peers with 32-bit AS numbers.
#[derive(Clone, Debug, PartialEq, Eq)]
pub struct BGP4MPMessageAs4 {
    /// The AS number of the peer.
    pub peer_as_number: u32,
    /// The AS number of the collector's end.
    pub local_as_number: u32,
    /// The index of the interface that the message came in on.
    pub interface_index: u16,
    /// The family of both addresses.
    pub address_family: AddressFamily,
    /// The address of the peer.
    pub peer_ip_address: IpAddress,
    /// The address of the collector's end.
    pub local_ip_address: IpAddress,
    /// The BGP message.
    pub bgp_message: BGPMessage,
}

/// The mathematical content of a `BGP4MPMessageAs4`.
pub struct BGP4MPMessageAs4View {
    pub peer_as_number: u32,
    pub local_as_number: u32,
    pub interface_index: u16,
    pub address_family: AddressFamily,
    pub peer_ip_address: IpAddress,
    pub local_ip_address: IpAddress,
    pub bgp_message: BGPMessageView,
}

impl View for BGP4MPMessageAs4 {
    type V = BGP4MPMessageAs4View;

    open spec fn view(&self) -> BGP4MPMessageAs4View {
        BGP4MPMessageAs4View {
            peer_as_number: self.peer_as_number,
            local_as_number: self.local_as_number,
            interface_index: self.interface_index,
            address_family: self.address_family,
            peer_ip_address: self.peer_ip_address,
            local_ip_address: self.local_ip_address,
            bgp_message: self.bgp_message@,
        }
    }
}

impl BGP4MPMessageAs4View {
    /// Whether both addresses are of the family that the message names.
    pub open spec fn family_matches(self) -> bool {
        self.peer_ip_address.spec_family() == self.address_family
            && self.local_ip_address.spec_family() == self.address_family
    }
}

/// The BGP4MP message that `s` denotes: two 32-bit AS numbers, then the
/// session fields.
pub open spec fn spec_bgp4mp_message_as4(s: Seq<u8>) -> Result<BGP4MPMessageAs4View, DecodeError> {
    if s.len() < 8 {
        Err(DecodeError::Truncated)
    } else {
        match spec_peer_session(s, 8) {
            Err(e) => Err(e),
            Ok(session) => Ok(
                BGP4MPMessageAs4View {
                    peer_as_number: be32(s, 0),
                    local_as_number: be32(s, 4),
                    interface_index: session.interface_index,
                    address_family: session.address_family,
                    peer_ip_address: session.peer_ip_address,
                    local_ip_address: session.local_ip_address,
                    bgp_message: session.bgp_message,
                },
            ),
        }
    }
}

impl BGP4MPMessageAs4 {
    /// Decodes the body of a BGP4MP record of subtype MessageAs4.
    pub fn parse(bytes: &[u8]) -> (r: Result<BGP4MPMessageAs4, DecodeError>)
        ensures
            match r {
                Ok(message) => spec_bgp4mp_message_as4(bytes@) == Ok::<
                    BGP4MPMessageAs4View,
                    DecodeError,
                >(message@),
                Err(e) => spec_bgp4mp_message_as4(bytes@) == Err::<
                    BGP4MPMessageAs4View,
                    DecodeError,
                >(e),
            },
            r matches Ok(message) ==> message@.family_matches(),
    {
        if bytes.len() < 8 {
            return Err(DecodeError::Truncated);
        }
        let peer_as_number = u32_at(bytes, 0);
        let local_as_number = u32_at(bytes, 4);
        let session = parse_peer_session(bytes, 8)?;
        Ok(
            BGP4MPMessageAs4 {
                peer_as_number,
                local_as_number,
                interface_index: session.interface_index,
                address_family: session.address_family,
                peer_ip_address: session.peer_ip_address,
                local_ip_address: session.local_ip_address,
                bgp_message: session.bgp_message,
            },
        )
    }
}

/// A BGP4MP state change with 32-bit AS numbers. Not decoded.
#[derive(Clone, Copy, Debug, PartialEq, Eq, Structural)]
pub struct BGP4MPStateChangeAs4 {

}

impl BGP4MPStateChangeAs4 {
    /// State changes are not decoded: the result is `Unsupported`, whatever
    /// the bytes.
    pub fn parse(buffer: &Vec<u8>) -> (r: Result<BGP4MPStateChangeAs4, DecodeError>)
        ensures
            r == Err::<BGP4MPStateChangeAs4, DecodeError>(
                DecodeError::Unsupported(UnsupportedKind::StateChangeAs4),
            ),
    {
        Err(DecodeError::Unsupported(UnsupportedKind::StateChangeAs4))
    }
}

/// A locally generated BGP message. Not decoded.
#[derive(Clone, Copy, Debug, PartialEq, Eq, Structural)]
pub struct BGP4MPMessageLocal {

}

impl BGP4MPMessageLocal {
    /// Local messages are not decoded: the result is `Unsupported`, whatever
    /// the bytes.
    pub fn parse(buffer: &Vec<u8>) -> (r: Result<BGP4MPMessageLocal, DecodeError>)
        ensures
            r == Err::<BGP4MPMessageLocal, DecodeError>(
                DecodeError::Unsupported(UnsupportedKind::MessageLocal),
            ),
    {
        Err(DecodeError::Unsupported(UnsupportedKind::MessageLocal))
    }
}

/// A locally generated BGP message with 32-bit AS numbers. Not decoded.
#[derive(Clone, Copy, Debug, PartialEq, Eq, Structural)]
pub struct BGP4MPMessageLocalAs4 {

}

impl BGP4MPMessageLocalAs4 {
    /// Local messages are not decoded: the result is `Unsupported`, whatever
    /// the bytes.
    pub fn parse(buffer: &Vec<u8>) -> (r: Result<BGP4MPMessageLocalAs4, DecodeError>)
        ensures
            r == Err::<BGP4MPMessageLocalAs4, DecodeError>(
                DecodeError::Unsupported(UnsupportedKind::MessageAs4Local),
            ),
    {
        Err(DecodeError::Unsupported(UnsupportedKind::MessageAs4Local))
    }
}

/// The body of a BGP4MP record, by subtype.
#[derive(Clone, Debug, PartialEq, Eq)]
pub enum BGP4MPEnvelope {
    /// Subtype 0.
    StateChange(BGP4MPStateChange),
    /// Subtype 1.
    Message(BGP4MPMessage),
    /// Subtype 4.
    MessageAs4(BGP4MPMessageAs4),
    /// Subtype 5.
    StateChangeAs4(BGP4MPStateChangeAs4),
    /// Subtype 6.
    MessageLocal(BGP4MPMessageLocal),
    /// Subtype 7.
    MessageAs4Local(BGP4MPMessageLocalAs4),
}

/// The mathematical content of a `BGP4MPEnvelope`.
pub enum BGP4MPEnvelopeView {
    StateChange,
    Message(BGP4MPMessageView),
    MessageAs4(BGP4MPMessageAs4View),
    StateChangeAs4,
    MessageLocal,
    MessageAs4Local,
}

impl View for BGP4MPEnvelope {
    type V = BGP4MPEnvelopeView;

    open spec fn view(&self) -> BGP4MPEnvelopeView {
        match self {
            BGP4MPEnvelope::StateChange(_) => BGP4MPEnvelopeView::StateChange,
            BGP4MPEnvelope::Message(message) => BGP4MPEnvelopeView::Message(message@),
            BGP4MPEnvelope::MessageAs4(message) => BGP4MPEnvelopeView::MessageAs4(message@),
            BGP4MPEnvelope::StateChangeAs4(_) => BGP4MPEnvelopeView::StateChangeAs4,
            BGP4MPEnvelope::MessageLocal(_) => BGP4MPEnvelopeView::MessageLocal,
            BGP4MPEnvelope::MessageAs4Local(_) => BGP4MPEnvelopeView::MessageAs4Local,
        }
    }
}

/// The envelope that the body `s` of a BGP4MP record of subtype `subtype`
/// denotes. Subtypes 1 and 4 are decoded; 0, 5, 6 and 7 are `Unsupported`,
/// each under its own kind; any other is `UnknownSubtype`.
pub open spec fn spec_envelope(subtype: u16, s: Seq<u8>) -> Result<BGP4MPEnvelopeView, DecodeError> {
    if subtype == 0 {
        Err(DecodeError::Unsupported(UnsupportedKind::StateChange))
    } else if subtype == 1 {
        match spec_bgp4mp_message(s) {
            Ok(message) => Ok(BGP4MPEnvelopeView::Message(message)),
            Err(e) => Err(e),
        }
    } else if subtype == 4 {
        match spec_bgp4mp_message_as4(s) {
            Ok(message) => Ok(BGP4MPEnvelopeView::MessageAs4(message)),
            Err(e) => Err(e),
        }
    } else if subtype == 5 {
        Err(DecodeError::Unsupported(UnsupportedKind::StateChangeAs4))
    } else if subtype == 6 {
        Err(DecodeError::Unsupported(UnsupportedKind::MessageLocal))
    } else if subtype == 7 {
        Err(DecodeError::Unsupported(UnsupportedKind::MessageAs4Local))
    } else {
        Err(DecodeError::UnknownSubtype(subtype))
    }
}

impl BGP4MPEnvelope {
    /// Decodes the body of a BGP4MP record of subtype `subtype`.
    pub fn parse(subtype: u16, buffer: &Vec<u8>) -> (r: Result<BGP4MPEnvelope, DecodeError>)
        ensures
            match r {
                Ok(envelope) => spec_envelope(subtype, buffer@) == Ok::<
                    BGP4MPEnvelopeView,
                    DecodeError,
                >(envelope@),
                Err(e) => spec_envelope(subtype, buffer@) == Err::<BGP4MPEnvelopeView, DecodeError>(
                    e,
                ),
            },
    {
        match subtype {
            0 => Ok(BGP4MPEnvelope::StateChange(BGP4MPStateChange::parse(buffer)?)),
            1 => Ok(BGP4MPEnvelope::Message(BGP4MPMessage::parse(buffer.as_slice())?)),
            4 => Ok(BGP4MPEnvelope::MessageAs4(BGP4MPMessageAs4::parse(buffer.as_slice())?)),
            5 => Ok(BGP4MPEnvelope::StateChangeAs4(BGP4MPStateChangeAs4::parse(buffer)?)),
            6 => Ok(BGP4MPEnvelope::MessageLocal(BGP4MPMessageLocal::parse(buffer)?)),
            7 => Ok(BGP4MPEnvelope::MessageAs4Local(BGP4MPMessageLocalAs4::parse(buffer)?)),
            _ => Err(DecodeError::UnknownSubtype(subtype)),
        }
    }
}

} // verus!
