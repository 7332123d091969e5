//! IPv4 and IPv6 addresses as they stand on the wire.

use vstd::prelude::*;

use crate::error::DecodeError;
use crate::wire::be16;
use crate::wire::u16_at;

verus! {

/// The address family of a BGP4MP envelope.
#[derive(Clone, Copy, Debug, PartialEq, Eq, Structural)]
pub enum AddressFamily {
    /// Family code 1: four-byte addresses.
    IpV4,
    /// Family code 2: sixteen-byte addresses.
    IpV6,
}

/// A network address: four octets, or eight 16-bit groups.
#[derive(Clone, Copy, Debug, PartialEq, Eq, Structural)]
pub enum IpAddress {
    /// The four octets of an IPv4 address, first octet first.
    V4(u8, u8, u8, u8),
    /// The eight groups of an IPv6 address, first group first.
    V6(u16, u16, u16, u16, u16, u16, u16, u16),
}

impl AddressFamily {
    /// The family that a family code denotes: 1 is IPv4, 2 is IPv6, and no
    /// other code denotes one.
    pub open spec fn spec_from_code(code: u16) -> Result<AddressFamily, DecodeError> {
        if code == 1 {
            Ok(AddressFamily::IpV4)
        } else if code == 2 {
            Ok(AddressFamily::IpV6)
        } else {
            Err(DecodeError::UnknownAddressFamily(code))
        }
    }

    /// The family that a family code denotes, or `UnknownAddressFamily` with
    /// the code.
    #[verifier::when_used_as_spec(spec_from_code)]
    pub fn from_code(code: u16) -> (r: Result<AddressFamily, DecodeError>)
        ensures
            r == AddressFamily::spec_from_code(code),
    {
        match code {
            1 => Ok(AddressFamily::IpV4),
            2 => Ok(AddressFamily::IpV6),
            _ => Err(DecodeError::UnknownAddressFamily(code)),
        }
    }

    /// The number of bytes that an address of this family takes on the wire.
    pub open spec fn spec_width(self) -> usize {
        match self {
            AddressFamily::IpV4 => 4,
            AddressFamily::IpV6 => 16,
        }
    }

    /// The number of bytes that an address of this family takes on the wire.
    #[verifier::when_used_as_spec(spec_width)]
    pub fn width(self) -> (w: usize)
        ensures
            w == self.spec_width(),
    {
        match self {
            AddressFamily::IpV4 => 4,
            AddressFamily::IpV6 => 16,
        }
    }
}

impl IpAddress {
    /// The family that this address belongs to.
    pub open spec fn spec_family(&self) -> AddressFamily {
        match self {
            IpAddress::V4(..) => AddressFamily::IpV4,
            IpAddress::V6(..) => AddressFamily::IpV6,
        }
    }

    /// The family that this address belongs to.
    #[verifier::when_used_as_spec(spec_family)]
    pub fn family(&self) -> (f: AddressFamily)
        ensures
            f == self.spec_family(),
    {
        match self {
            IpAddress::V4(..) => AddressFamily::IpV4,
            IpAddress::V6(..) => AddressFamily::IpV6,
        }
    }

    /// The address in network byte order: 4 bytes, or 16 with each group's
    /// high byte first.
    pub open spec fn octets(self) -> Seq<u8> {
        match self {
            IpAddress::V4(a, b, c, d) => seq![a, b, c, d],
            IpAddress::V6(a, b, c, d, e, f, g, h) => seq![
                (a / 256) as u8,
                (a % 256) as u8,
                (b / 256) as u8,
                (b % 256) as u8,
                (c / 256) as u8,
                (c % 256) as u8,
                (d / 256) as u8,
                (d % 256) as u8,
                (e / 256) as u8,
                (e % 256) as u8,
                (f / 256) as u8,
                (f % 256) as u8,
                (g / 256) as u8,
                (g % 256) as u8,
                (h / 256) as u8,
                (h % 256) as u8,
            ],
        }
    }

    /// The address in network byte order.
    pub fn to_octets(&self) -> (v: Vec<u8>)
        ensures
            v@ == self.octets(),
    {
        let mut v: Vec<u8> = Vec::new();
        match *self {
            IpAddress::V4(a, b, c, d) => {
                v.push(a);
                v.push(b);
                v.push(c);
                v.push(d);
            },
            IpAddress::V6(a, b, c, d, e, f, g, h) => {
                v.push((a / 256) as u8);
                v.push((a % 256) as u8);
                v.push((b / 256) as u8);
                v.push((b % 256) as u8);
                v.push((c / 256) as u8);
                v.push((c % 256) as u8);
                v.push((d / 256) as u8);
                v.push((d % 256) as u8);
                v.push((e / 256) as u8);
                v.push((e % 256) as u8);
                v.push((f / 256) as u8);
                v.push((f % 256) as u8);
                v.push((g / 256) as u8);
                v.push((g % 256) as u8);
                v.push((h / 256) as u8);
                v.push((h % 256) as u8);
            },
        }
        assert(v@ =~= self.octets());
        v
    }
}

/// The IPv4 address that the four bytes at `at` denote.
pub open spec fn ipv4_at(s: Seq<u8>, at: int) -> IpAddress {
    IpAddress::V4(s[at], s[at + 1], s[at + 2], s[at + 3])
}

/// The IPv6 address that the sixteen bytes at `at` denote: eight big-endian
/// groups.
pub open spec fn ipv6_at(s: Seq<u8>, at: int) -> IpAddress {
    IpAddress::V6(
        be16(s, at),
        be16(s, at + 2),
        be16(s, at + 4),
        be16(s, at + 6),
        be16(s, at + 8),
        be16(s, at + 10),
        be16(s, at + 12),
        be16(s, at + 14),
    )
}

/// The address of family `family` that the bytes at `at` denote.
pub open spec fn address_at(s: Seq<u8>, at: int, family: AddressFamily) -> IpAddress {
    match family {
        AddressFamily::IpV4 => ipv4_at(s, at),
        AddressFamily::IpV6 => ipv6_at(s, at),
    }
}

/// Reads the IPv4 address at `at`: `Truncated` where fewer than four bytes
/// follow `at`.
pub fn parse_ipv4_address(bytes: &[u8], at: usize) -> (r: Result<IpAddress, DecodeError>)
    ensures
        r == if at + 4 <= bytes@.len() {
            Ok::<IpAddress, DecodeError>(ipv4_at(bytes@, at as int))
        } else {
            Err(DecodeError::Truncated)
        },
{
    if at <= bytes.len() && bytes.len() - at >= 4 {
        Ok(IpAddress::V4(bytes[at], bytes[at + 1], bytes[at + 2], bytes[at + 3]))
    } else {
        Err(DecodeError::Truncated)
    }
}

/// Reads the IPv6 address at `at`, group by group: `Truncated` where fewer
/// than sixteen bytes follow `at`.
pub fn parse_ipv6_address(bytes: &[u8], at: usize) -> (r: Result<IpAddress, DecodeError>)
    ensures
        r == if at + 16 <= bytes@.len() {
            Ok::<IpAddress, DecodeError>(ipv6_at(bytes@, at as int))
        } else {
            Err(DecodeError::Truncated)
        },
{
    if at <= bytes.len() && bytes.len() - at >= 16 {
        let a = u16_at(bytes, at);
        let b = u16_at(bytes, at + 2);
        let c = u16_at(bytes, at + 4);
        let d = u16_at(bytes, at + 6);
        let e = u16_at(bytes, at + 8);
        let f = u16_at(bytes, at + 10);
        let g = u16_at(bytes, at + 12);
        let h = u16_at(bytes, at + 14);
        Ok(IpAddress::V6(a, b, c, d, e, f, g, h))
    } else {
        Err(DecodeError::Truncated)
    }
}

/// Reads the address of family `family` at `at`: `Truncated` where the
/// bytes end before the address does.
pub fn parse_address(bytes: &[u8], at: usize, family: AddressFamily) -> (r: Result<
    IpAddress,
    DecodeError,
>)
    ensures
        r == if at + family.spec_width() <= bytes@.len() {
            Ok::<IpAddress, DecodeError>(address_at(bytes@, at as int, family))
        } else {
            Err(DecodeError::Truncated)
        },
{
    match family {
        AddressFamily::IpV4 => parse_ipv4_address(bytes, at),
        AddressFamily::IpV6 => parse_ipv6_address(bytes, at),
    }
}

} // verus!
