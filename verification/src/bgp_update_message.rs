//! The body of a BGP UPDATE: withdrawn routes, path attributes, and the
//! prefixes that the message announces.

use vstd::prelude::*;
use vstd::slice::slice_to_vec;

use crate::address::ipv4_at;
use crate::address::ipv6_at;
use crate::address::parse_ipv4_address;
use crate::address::parse_ipv6_address;
use crate::address::IpAddress;
use crate::error::DecodeError;
use crate::prefix::decode_prefixes;
use crate::prefix::encoded_len;
use crate::prefix::lemma_prefixes_fill_section;
use crate::prefix::spec_prefixes;
use crate::prefix::Prefix;
use crate::wire::be16;
use crate::wire::be32;
use crate::wire::u16_at;
use crate::wire::u32_at;

verus! {

/// The kind of a path attribute, by its type code.
#[derive(Clone, Copy, Debug, PartialEq, Eq, Structural)]
pub enum AttributeTypeCode {
    /// Type code 1.
    Origin,
    /// Type code 2.
    AsPath,
    /// Type code 3.
    NextHop,
    /// Type code 4.
    MultiExitDisc,
    /// Type code 5.
    LocalPref,
    /// Type code 6.
    AtomicAggregate,
    /// Type code 7.
    Aggregator,
    /// Any other type code, kept.
    Unknown(u8),
}

/// Where a route came from.
#[derive(Clone, Copy, Debug, PartialEq, Eq, Structural)]
pub enum Origin {
    /// Code 0.
    Igp,
    /// Code 1.
    Egp,
    /// Code 2.
    Incomplete,
}

impl AttributeTypeCode {
    /// The kind that a type code denotes.
    pub open spec fn spec_from_code(code: u8) -> AttributeTypeCode {
        if code == 1 {
            AttributeTypeCode::Origin
        } else if code == 2 {
            AttributeTypeCode::AsPath
        } else if code == 3 {
            AttributeTypeCode::NextHop
        } else if code == 4 {
            AttributeTypeCode::MultiExitDisc
        } else if code == 5 {
            AttributeTypeCode::LocalPref
        } else if code == 6 {
            AttributeTypeCode::AtomicAggregate
        } else if code == 7 {
            AttributeTypeCode::Aggregator
        } else {
            AttributeTypeCode::Unknown(code)
        }
    }

    /// The kind that a type code denotes.
    #[verifier::when_used_as_spec(spec_from_code)]
    pub fn from_code(code: u8) -> (kind: AttributeTypeCode)
        ensures
            kind == AttributeTypeCode::spec_from_code(code),
    {
        match code {
            1 => AttributeTypeCode::Origin,
            2 => AttributeTypeCode::AsPath,
            3 => AttributeTypeCode::NextHop,
            4 => AttributeTypeCode::MultiExitDisc,
            5 => AttributeTypeCode::LocalPref,
            6 => AttributeTypeCode::AtomicAggregate,
            7 => AttributeTypeCode::Aggregator,
            _ => AttributeTypeCode::Unknown(code),
        }
    }
}

impl Origin {
    /// The origin that a code denotes; codes above 2 denote none.
    pub open spec fn spec_from_code(code: u8) -> Result<Origin, DecodeError> {
        if code == 0 {
            Ok(Origin::Igp)
        } else if code == 1 {
            Ok(Origin::Egp)
        } else if code == 2 {
            Ok(Origin::Incomplete)
        } else {
            Err(DecodeError::UnknownOrigin(code))
        }
    }

    /// The origin that a code denotes, or `UnknownOrigin` with the code.
    #[verifier::when_used_as_spec(spec_from_code)]
    pub fn from_code(code: u8) -> (r: Result<Origin, DecodeError>)
        ensures
            r == Origin::spec_from_code(code),
    {
        match code {
            0 => Ok(Origin::Igp),
            1 => Ok(Origin::Egp),
            2 => Ok(Origin::Incomplete),
            _ => Err(DecodeError::UnknownOrigin(code)),
        }
    }
}

/// What a NEXT_HOP value denotes: an IPv4 address in 4 bytes, an IPv6
/// address in 16.
pub open spec fn spec_next_hop(value: Seq<u8>) -> Result<IpAddress, DecodeError> {
    if value.len() == 4 {
        Ok(ipv4_at(value, 0))
    } else if value.len() == 16 {
        Ok(ipv6_at(value, 0))
    } else {
        Err(DecodeError::UnknownNextHopLength(value.len() as usize))
    }
}

/// What an AGGREGATOR value denotes, by its length: 6 bytes hold a 16-bit AS
/// number and an IPv4 address, 8 a 32-bit AS number and an IPv4 address, 18
/// a 16-bit AS number and an IPv6 address, 20 a 32-bit AS number and an IPv6
/// address.
pub open spec fn spec_aggregator(value: Seq<u8>) -> Result<(u32, IpAddress), DecodeError> {
    if value.len() == 6 {
        Ok((be16(value, 0) as u32, ipv4_at(value, 2)))
    } else if value.len() == 8 {
        Ok((be32(value, 0), ipv4_at(value, 4)))
    } else if value.len() == 18 {
        Ok((be16(value, 0) as u32, ipv6_at(value, 2)))
    } else if value.len() == 20 {
        Ok((be32(value, 0), ipv6_at(value, 4)))
    } else {
        Err(DecodeError::UnknownAggregatorLength(value.len() as usize))
    }
}

/// Decodes a NEXT_HOP value: `UnknownNextHopLength` unless it is 4 or 16
/// bytes long.
pub fn decode_next_hop(value: &[u8]) -> (r: Result<IpAddress, DecodeError>)
    ensures
        r == spec_next_hop(value@),
        r is Ok <==> value@.len() == 4 || value@.len() == 16,
{
    if value.len() == 4 {
        parse_ipv4_address(value, 0)
    } else if value.len() == 16 {
        parse_ipv6_address(value, 0)
    } else {
        Err(DecodeError::UnknownNextHopLength(value.len()))
    }
}

/// Decodes an AGGREGATOR value: the AS number, widened to 32 bits, and the
/// address. The length of the value selects the widths; a length other than
/// 6, 8, 18 and 20 is `UnknownAggregatorLength`.
pub fn decode_aggregator(value: &[u8]) -> (r: Result<(u32, IpAddress), DecodeError>)
    ensures
        r == spec_aggregator(value@),
        r is Ok <==> value@.len() == 6 || value@.len() == 8 || value@.len() == 18 || value@.len()
            == 20,
{
    let n = value.len();
    if n == 6 {
        let asn = u16_at(value, 0) as u32;
        let address = parse_ipv4_address(value, 2)?;
        Ok((asn, address))
    } else if n == 8 {
        let asn = u32_at(value, 0);
        let address = parse_ipv4_address(value, 4)?;
        Ok((asn, address))
    } else if n == 18 {
        let asn = u16_at(value, 0) as u32;
        let address = parse_ipv6_address(value, 2)?;
        Ok((asn, address))
    } else if n == 20 {
        let asn = u32_at(value, 0);
        let address = parse_ipv6_address(value, 4)?;
        Ok((asn, address))
    } else {
        Err(DecodeError::UnknownAggregatorLength(n))
    }
}

/// The recognised path attributes of an UPDATE, one value of each kind at
/// most. The AS path is kept as the bytes of its value.
#[derive(Clone, Debug, PartialEq, Eq)]
pub struct PathAttributes {
    /// ORIGIN.
    pub origin: Option<Origin>,
    /// AS_PATH, as the undecoded bytes of its value.
    pub as_path: Option<Vec<u8>>,
    /// NEXT_HOP.
    pub next_hop: Option<IpAddress>,
    /// MULTI_EXIT_DISC.
    pub multi_exit_disc: Option<u32>,
    /// LOCAL_PREF.
    pub local_pref: Option<u32>,
    /// Whether ATOMIC_AGGREGATE is present.
    pub atomic_aggregate: bool,
    /// AGGREGATOR: the AS number and the address.
    pub aggregator: Option<(u32, IpAddress)>,
}

/// The mathematical content of `PathAttributes`.
pub struct PathAttributesView {
    pub origin: Option<Origin>,
    pub as_path: Option<Seq<u8>>,
    pub next_hop: Option<IpAddress>,
    pub multi_exit_disc: Option<u32>,
    pub local_pref: Option<u32>,
    pub atomic_aggregate: bool,
    pub aggregator: Option<(u32, IpAddress)>,
}

impl PathAttributesView {
    /// No attribute present.
    pub open spec fn empty() -> PathAttributesView {
        PathAttributesView {
            origin: None,
            as_path: None,
            next_hop: None,
            multi_exit_disc: None,
            local_pref: None,
            atomic_aggregate: false,
            aggregator: None,
        }
    }
}

impl View for PathAttributes {
    type V = PathAttributesView;

    open spec fn view(&self) -> PathAttributesView {
        PathAttributesView {
            origin: self.origin,
            as_path: match self.as_path {
                Some(v) => Some(v@),
                None => None,
            },
            next_hop: self.next_hop,
            multi_exit_disc: self.multi_exit_disc,
            local_pref: self.local_pref,
            atomic_aggregate: self.atomic_aggregate,
            aggregator: self.aggregator,
        }
    }
}

/// The attributes `acc` after an attribute of type code `code` and value
/// `value`: the value replaces an earlier one of its kind, and an unknown
/// code changes nothing. A value of the wrong size for its kind, or one that
/// denotes nothing, is an error.
pub open spec fn spec_with_attribute(acc: PathAttributesView, code: u8, value: Seq<u8>) -> Result<
    PathAttributesView,
    DecodeError,
> {
    match AttributeTypeCode::spec_from_code(code) {
        AttributeTypeCode::Origin => if value.len() != 1 {
            Err(DecodeError::LengthMismatch)
        } else {
            match Origin::spec_from_code(value[0]) {
                Ok(origin) => Ok(PathAttributesView { origin: Some(origin), ..acc }),
                Err(e) => Err(e),
            }
        },
        AttributeTypeCode::AsPath => Ok(PathAttributesView { as_path: Some(value), ..acc }),
        AttributeTypeCode::NextHop => match spec_next_hop(value) {
            Ok(address) => Ok(PathAttributesView { next_hop: Some(address), ..acc }),
            Err(e) => Err(e),
        },
        AttributeTypeCode::MultiExitDisc => if value.len() != 4 {
            Err(DecodeError::LengthMismatch)
        } else {
            Ok(PathAttributesView { multi_exit_disc: Some(be32(value, 0)), ..acc })
        },
        AttributeTypeCode::LocalPref => if value.len() != 4 {
            Err(DecodeError::LengthMismatch)
        } else {
            Ok(PathAttributesView { local_pref: Some(be32(value, 0)), ..acc })
        },
        AttributeTypeCode::AtomicAggregate => if value.len() != 0 {
            Err(DecodeError::LengthMismatch)
        } else {
            Ok(PathAttributesView { atomic_aggregate: true, ..acc })
        },
        AttributeTypeCode::Aggregator => match spec_aggregator(value) {
            Ok(aggregator) => Ok(PathAttributesView { aggregator: Some(aggregator), ..acc }),
            Err(e) => Err(e),
        },
        AttributeTypeCode::Unknown(_) => Ok(acc),
    }
}

/// Whether the flags byte asks for a two-byte length field.
pub open spec fn extended_length(flags: u8) -> bool {
    flags & 0x10 == 0x10
}

/// Whether one of the four reserved low bits of the flags byte is set.
pub open spec fn reserved_bits_set(flags: u8) -> bool {
    flags & 0x0F != 0
}

/// The size of an attribute's header: flags, type code, and one or two bytes
/// of length.
pub open spec fn header_len(flags: u8) -> int {
    if extended_length(flags) {
        4
    } else {
        3
    }
}

/// The declared length of the value of the attribute whose header stands at
/// `at`.
pub open spec fn value_len(s: Seq<u8>, at: int) -> int {
    if extended_length(s[at]) {
        be16(s, at + 2) as int
    } else {
        s[at + 2] as int
    }
}

/// What the attribute entries of `s` from index `at` on make of `acc`, taken
/// in order. An entry with a reserved flag bit is `ReservedFlagBits`; one
/// whose header or value reaches past the end of `s` is `LengthUnderflow`;
/// then its value is applied as `spec_with_attribute` says.
pub open spec fn attributes_from(s: Seq<u8>, at: int, acc: PathAttributesView) -> Result<
    PathAttributesView,
    DecodeError,
>
    decreases s.len() - at,
{
    if at < 0 || at >= s.len() {
        Ok(acc)
    } else if reserved_bits_set(s[at]) {
        Err(DecodeError::ReservedFlagBits)
    } else if at + header_len(s[at]) > s.len() {
        Err(DecodeError::LengthUnderflow)
    } else {
        let start = at + header_len(s[at]);
        let end = start + value_len(s, at);
        if end > s.len() {
            Err(DecodeError::LengthUnderflow)
        } else {
            match spec_with_attribute(acc, s[at + 1], s.subrange(start, end)) {
                Ok(next) => attributes_from(s, end, next),
                Err(e) => Err(e),
            }
        }
    }
}

/// The path attributes that an attribute section denotes.
pub open spec fn spec_attributes(s: Seq<u8>) -> Result<PathAttributesView, DecodeError> {
    attributes_from(s, 0, PathAttributesView::empty())
}

/// Whether one of the attribute entries of `s` from index `at` on has type
/// code `code`, up to the first entry that reaches past the end of `s`.
pub open spec fn has_attribute_from(s: Seq<u8>, at: int, code: u8) -> bool
    decreases s.len() - at,
{
    if at < 0 || at >= s.len() || at + header_len(s[at]) + value_len(s, at) > s.len() {
        false
    } else {
        s[at + 1] == code || has_attribute_from(s, at + header_len(s[at]) + value_len(s, at), code)
    }
}

/// Whether one of the attribute entries of the section `s` has type code
/// `code`.
pub open spec fn has_attribute(s: Seq<u8>, code: u8) -> bool {
    has_attribute_from(s, 0, code)
}

impl PathAttributes {
    /// No attribute present.
    pub fn new() -> (attributes: PathAttributes)
        ensures
            attributes@ == PathAttributesView::empty(),
    {
        PathAttributes {
            origin: None,
            as_path: None,
            next_hop: None,
            multi_exit_disc: None,
            local_pref: None,
            atomic_aggregate: false,
            aggregator: None,
        }
    }

    /// These attributes after one more attribute, of type code `code` and
    /// value `value`, has been decoded into them.
    pub fn with_attribute(self, code: u8, value: &[u8]) -> (r: Result<PathAttributes, DecodeError>)
        ensures
            match r {
                Ok(next) => spec_with_attribute(self@, code, value@) == Ok::<
                    PathAttributesView,
                    DecodeError,
                >(next@),
                Err(e) => spec_with_attribute(self@, code, value@) == Err::<
                    PathAttributesView,
                    DecodeError,
                >(e),
            },
    {
        let mut next = self;
        match AttributeTypeCode::from_code(code) {
            AttributeTypeCode::Origin => {
                if value.len() != 1 {
                    return Err(DecodeError::LengthMismatch);
                }
                let origin = Origin::from_code(value[0])?;
                next.origin = Some(origin);
            },
            AttributeTypeCode::AsPath => {
                next.as_path = Some(slice_to_vec(value));
            },
            AttributeTypeCode::NextHop => {
                let address = decode_next_hop(value)?;
                next.next_hop = Some(address);
            },
            AttributeTypeCode::MultiExitDisc => {
                if value.len() != 4 {
                    return Err(DecodeError::LengthMismatch);
                }
                next.multi_exit_disc = Some(u32_at(value, 0));
            },
            AttributeTypeCode::LocalPref => {
                if value.len() != 4 {
                    return Err(DecodeError::LengthMismatch);
                }
                next.local_pref = Some(u32_at(value, 0));
            },
            AttributeTypeCode::AtomicAggregate => {
                if value.len() != 0 {
                    return Err(DecodeError::LengthMismatch);
                }
                next.atomic_aggregate = true;
            },
            AttributeTypeCode::Aggregator => {
                let aggregator = decode_aggregator(value)?;
                next.aggregator = Some(aggregator);
            },
            AttributeTypeCode::Unknown(_) => {},
        }
        Ok(next)
    }
}

/// Decodes an attribute section: entries of flags, type code, length and
/// value that fill `bytes`. The length field has two bytes where the flags
/// say so, else one.
pub fn decode_attributes(bytes: &[u8]) -> (r: Result<PathAttributes, DecodeError>)
    ensures
        match r {
            Ok(attributes) => spec_attributes(bytes@) == Ok::<PathAttributesView, DecodeError>(
                attributes@,
            ),
            Err(e) => spec_attributes(bytes@) == Err::<PathAttributesView, DecodeError>(e),
        },
{
    let mut acc = PathAttributes::new();
    let mut at: usize = 0;
    while at < bytes.len()
        invariant
            at <= bytes@.len(),
            spec_attributes(bytes@) == attributes_from(bytes@, at as int, acc@),
        decreases bytes@.len() - at,
    {
        let flags: u8 = bytes[at];
        if flags & 0x0F != 0 {
            return Err(DecodeError::ReservedFlagBits);
        }
        let extended: bool = flags & 0x10 == 0x10;
        let header: usize = if extended {
            4
        } else {
            3
        };
        if bytes.len() - at < header {
            return Err(DecodeError::LengthUnderflow);
        }
        let length: usize = if extended {
            u16_at(bytes, at + 2) as usize
        } else {
            bytes[at + 2] as usize
        };
        let start: usize = at + header;
        if bytes.len() - start < length {
            return Err(DecodeError::LengthUnderflow);
        }
        let end: usize = start + length;
        acc = acc.with_attribute(bytes[at + 1], &bytes[start..end])?;
        at = end;
    }
    Ok(acc)
}

/// A decoded BGP UPDATE.
#[derive(Clone, Debug, PartialEq, Eq)]
pub struct BGPUpdateMessage {
    /// The prefixes withdrawn, in wire order; absent where there is none.
    pub withdrawn_routes: Option<Vec<Prefix>>,
    /// The prefixes announced, in wire order; absent where there is none.
    pub network_layer_reachability_information: Option<Vec<Prefix>>,
    /// ORIGIN.
    pub origin: Option<Origin>,
    /// AS_PATH, as the undecoded bytes of its value.
    pub as_path: Option<Vec<u8>>,
    /// NEXT_HOP.
    pub next_hop: Option<IpAddress>,
    /// MULTI_EXIT_DISC.
    pub multi_exit_disc: Option<u32>,
    /// LOCAL_PREF.
    pub local_pref: Option<u32>,
    /// Whether ATOMIC_AGGREGATE is present.
    pub atomic_aggregate: bool,
    /// AGGREGATOR: the AS number and the address.
    pub aggregator: Option<(u32, IpAddress)>,
}

/// The mathematical content of a `BGPUpdateMessage`.
pub struct BGPUpdateView {
    pub withdrawn_routes: Option<Seq<Prefix>>,
    pub network_layer_reachability_information: Option<Seq<Prefix>>,
    pub origin: Option<Origin>,
    pub as_path: Option<Seq<u8>>,
    pub next_hop: Option<IpAddress>,
    pub multi_exit_disc: Option<u32>,
    pub local_pref: Option<u32>,
    pub atomic_aggregate: bool,
    pub aggregator: Option<(u32, IpAddress)>,
}

/// `ps`, or nothing where `ps` is empty.
pub open spec fn unless_empty(ps: Seq<Prefix>) -> Option<Seq<Prefix>> {
    if ps.len() == 0 {
        None
    } else {
        Some(ps)
    }
}

/// The prefixes of an optional list: none where it is absent.
pub open spec fn prefixes_of(list: Option<Seq<Prefix>>) -> Seq<Prefix> {
    match list {
        Some(ps) => ps,
        None => Seq::empty(),
    }
}

impl BGPUpdateView {
    /// The update made of these withdrawn routes, attributes and announced
    /// prefixes; an empty list of prefixes is absent.
    pub open spec fn assemble(
        withdrawn: Seq<Prefix>,
        attributes: PathAttributesView,
        announced: Seq<Prefix>,
    ) -> BGPUpdateView {
        BGPUpdateView {
            withdrawn_routes: unless_empty(withdrawn),
            network_layer_reachability_information: unless_empty(announced),
            origin: attributes.origin,
            as_path: attributes.as_path,
            next_hop: attributes.next_hop,
            multi_exit_disc: attributes.multi_exit_disc,
            local_pref: attributes.local_pref,
            atomic_aggregate: attributes.atomic_aggregate,
            aggregator: attributes.aggregator,
        }
    }

    /// The update that withdraws nothing, announces nothing and has no
    /// attribute.
    pub open spec fn empty() -> BGPUpdateView {
        BGPUpdateView::assemble(Seq::empty(), PathAttributesView::empty(), Seq::empty())
    }
}

impl View for BGPUpdateMessage {
    type V = BGPUpdateView;

    open spec fn view(&self) -> BGPUpdateView {
        BGPUpdateView {
            withdrawn_routes: match self.withdrawn_routes {
                Some(v) => Some(v@),
                None => None,
            },
            network_layer_reachability_information: match self.network_layer_reachability_information {
                Some(v) => Some(v@),
                None => None,
            },
            origin: self.origin,
            as_path: match self.as_path {
                Some(v) => Some(v@),
                None => None,
            },
            next_hop: self.next_hop,
            multi_exit_disc: self.multi_exit_disc,
            local_pref: self.local_pref,
            atomic_aggregate: self.atomic_aggregate,
            aggregator: self.aggregator,
        }
    }
}

/// The length that the body `s` declares for its withdrawn routes.
pub open spec fn withdrawn_len(s: Seq<u8>) -> int {
    be16(s, 0) as int
}

/// The length that the body `s` declares for its path attributes.
pub open spec fn attributes_len(s: Seq<u8>) -> int {
    be16(s, 2 + withdrawn_len(s)) as int
}

/// The withdrawn-routes section of the body `s`.
pub open spec fn withdrawn_section(s: Seq<u8>) -> Seq<u8> {
    s.subrange(2, 2 + withdrawn_len(s))
}

/// The path-attribute section of the body `s`.
pub open spec fn attribute_section(s: Seq<u8>) -> Seq<u8> {
    s.subrange(4 + withdrawn_len(s), 4 + withdrawn_len(s) + attributes_len(s))
}

/// What follows the path-attribute section of the body `s`: the announced
/// prefixes.
pub open spec fn announced_section(s: Seq<u8>) -> Seq<u8> {
    s.skip(4 + withdrawn_len(s) + attributes_len(s))
}

/// The UPDATE that the body `s` denotes.
///
/// The body opens with the length of the withdrawn routes and their entries;
/// then come the length of the path attributes and their entries; what is
/// left holds the announced prefixes. A section that the body is too short
/// for is `Truncated`, and so is an announced prefix that the body ends in.
/// A withdrawn route that reaches past its section is `LengthUnderflow`. A
/// body whose attribute length is zero ends there: it has no attribute and
/// announces nothing, whatever follows.
pub open spec fn spec_update(s: Seq<u8>) -> Result<BGPUpdateView, DecodeError> {
    if s.len() < 2 || s.len() < 2 + withdrawn_len(s) {
        Err(DecodeError::Truncated)
    } else {
        match spec_prefixes(withdrawn_section(s), DecodeError::LengthUnderflow) {
            Err(e) => Err(e),
            Ok(withdrawn) => if s.len() < 4 + withdrawn_len(s) {
                Err(DecodeError::Truncated)
            } else if attributes_len(s) == 0 {
                Ok(BGPUpdateView::assemble(withdrawn, PathAttributesView::empty(), Seq::empty()))
            } else if s.len() < 4 + withdrawn_len(s) + attributes_len(s) {
                Err(DecodeError::Truncated)
            } else {
                match spec_attributes(attribute_section(s)) {
                    Err(e) => Err(e),
                    Ok(attributes) => match spec_prefixes(
                        announced_section(s),
                        DecodeError::Truncated,
                    ) {
                        Err(e) => Err(e),
                        Ok(announced) => Ok(
                            BGPUpdateView::assemble(withdrawn, attributes, announced),
                        ),
                    },
                }
            }
        }
    }
}

/// `Some(v)`, or `None` where `v` is empty.
fn some_unless_empty(v: Vec<Prefix>) -> (r: Option<Vec<Prefix>>)
    ensures
        match r {
            Some(w) => unless_empty(v@) == Some(w@),
            None => unless_empty(v@) == None::<Seq<Prefix>>,
        },
{
    if v.len() == 0 {
        None
    } else {
        Some(v)
    }
}

impl BGPUpdateMessage {
    /// Decodes the body of a BGP UPDATE.
    pub fn parse(bytes: &[u8]) -> (r: Result<BGPUpdateMessage, DecodeError>)
        ensures
            match r {
                Ok(update) => spec_update(bytes@) == Ok::<BGPUpdateView, DecodeError>(update@),
                Err(e) => spec_update(bytes@) == Err::<BGPUpdateView, DecodeError>(e),
            },
    {
        let total: usize = bytes.len();
        if total < 2 {
            return Err(DecodeError::Truncated);
        }
        let withdrawn_length: usize = u16_at(bytes, 0) as usize;
        if total - 2 < withdrawn_length {
            return Err(DecodeError::Truncated);
        }
        let withdrawn_end: usize = 2 + withdrawn_length;
        let withdrawn = decode_prefixes(&bytes[2..withdrawn_end], DecodeError::LengthUnderflow)?;
        if total - withdrawn_end < 2 {
            return Err(DecodeError::Truncated);
        }
        let attributes_length: usize = u16_at(bytes, withdrawn_end) as usize;
        if attributes_length == 0 {
            return Ok(
                BGPUpdateMessage {
                    withdrawn_routes: some_unless_empty(withdrawn),
                    network_layer_reachability_information: None,
                    origin: None,
                    as_path: None,
                    next_hop: None,
                    multi_exit_disc: None,
                    local_pref: None,
                    atomic_aggregate: false,
                    aggregator: None,
                },
            );
        }
        let attributes_start: usize = withdrawn_end + 2;
        if total - attributes_start < attributes_length {
            return Err(DecodeError::Truncated);
        }
        let attributes_end: usize = attributes_start + attributes_length;
        let attributes = decode_attributes(&bytes[attributes_start..attributes_end])?;
        let announced = decode_prefixes(&bytes[attributes_end..total], DecodeError::Truncated)?;
        Ok(
            BGPUpdateMessage {
                withdrawn_routes: some_unless_empty(withdrawn),
                network_layer_reachability_information: some_unless_empty(announced),
                origin: attributes.origin,
                as_path: attributes.as_path,
                next_hop: attributes.next_hop,
                multi_exit_disc: attributes.multi_exit_disc,
                local_pref: attributes.local_pref,
                atomic_aggregate: attributes.atomic_aggregate,
                aggregator: attributes.aggregator,
            },
        )
    }
}

/// ATOMIC_AGGREGATE is recorded exactly where it stands: after the entries
/// of `s` from `at` on, the flag is set if it was set before or one of the
/// entries has type code 6, and not otherwise.
pub proof fn lemma_atomic_aggregate_from(s: Seq<u8>, at: int, acc: PathAttributesView)
    requires
        0 <= at <= s.len(),
        attributes_from(s, at, acc) is Ok,
    ensures
        attributes_from(s, at, acc)->Ok_0.atomic_aggregate == (acc.atomic_aggregate
            || has_attribute_from(s, at, 6)),
    decreases s.len() - at,
{
    if at < s.len() {
        let start = at + header_len(s[at]);
        let end = start + value_len(s, at);
        let next = spec_with_attribute(acc, s[at + 1], s.subrange(start, end))->Ok_0;
        lemma_atomic_aggregate_from(s, end, next);
    }
}

/// An attribute section that decodes has ATOMIC_AGGREGATE set if one of its
/// entries has type code 6, and clear if none has.
pub proof fn lemma_atomic_aggregate_iff_present(s: Seq<u8>)
    requires
        spec_attributes(s) is Ok,
    ensures
        spec_attributes(s)->Ok_0.atomic_aggregate == has_attribute(s, 6),
{
    lemma_atomic_aggregate_from(s, 0, PathAttributesView::empty());
}

/// An UPDATE that decodes has ATOMIC_AGGREGATE set if its attribute section
/// has an entry of type code 6, and clear if it has none or is empty.
pub proof fn lemma_update_atomic_aggregate(s: Seq<u8>)
    requires
        spec_update(s) is Ok,
    ensures
        spec_update(s)->Ok_0.atomic_aggregate == (attributes_len(s) != 0 && has_attribute(
            attribute_section(s),
            6,
        )),
{
    if attributes_len(s) != 0 {
        lemma_atomic_aggregate_iff_present(attribute_section(s));
    }
}

/// The sections of an UPDATE that decodes balance: the wire lengths of the
/// withdrawn routes add up to the length that the body declares for them,
/// and those of the announced prefixes to what follows the attributes.
pub proof fn lemma_update_lengths_balance(s: Seq<u8>)
    requires
        spec_update(s) is Ok,
    ensures
        encoded_len(prefixes_of(spec_update(s)->Ok_0.withdrawn_routes)) == withdrawn_len(s),
        attributes_len(s) != 0 ==> encoded_len(
            prefixes_of(spec_update(s)->Ok_0.network_layer_reachability_information),
        ) == s.len() - 4 - withdrawn_len(s) - attributes_len(s),
{
    lemma_prefixes_fill_section(withdrawn_section(s), 0, DecodeError::LengthUnderflow);
    if attributes_len(s) != 0 {
        lemma_prefixes_fill_section(announced_section(s), 0, DecodeError::Truncated);
    }
}

/// A body that declares no withdrawn routes and no path attributes is the
/// empty UPDATE: nothing withdrawn, no attribute, ATOMIC_AGGREGATE clear,
/// nothing announced.
pub proof fn lemma_empty_update(s: Seq<u8>)
    requires
        s.len() >= 4,
        be16(s, 0) == 0,
        be16(s, 2) == 0,
    ensures
        spec_update(s) == Ok::<BGPUpdateView, DecodeError>(BGPUpdateView::empty()),
        BGPUpdateView::empty().withdrawn_routes is None,
        BGPUpdateView::empty().network_layer_reachability_information is None,
        BGPUpdateView::empty().origin is None,
        BGPUpdateView::empty().as_path is None,
        BGPUpdateView::empty().next_hop is None,
        BGPUpdateView::empty().multi_exit_disc is None,
        BGPUpdateView::empty().local_pref is None,
        BGPUpdateView::empty().aggregator is None,
        !BGPUpdateView::empty().atomic_aggregate,
{
    assert(withdrawn_section(s).len() == 0);
}

} // verus!
