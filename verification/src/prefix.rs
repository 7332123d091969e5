//! CIDR prefixes and their compact wire form: a count of significant bits,
//! then as many address bytes as hold them.

use vstd::prelude::*;

use crate::address::IpAddress;
use crate::error::DecodeError;

verus! {

/// A network address and the number of its leading bits that count.
#[derive(Clone, Copy, Debug, PartialEq, Eq, Structural)]
pub struct Prefix {
    /// The network address.
    pub address: IpAddress,
    /// The number of significant bits: 0 to 32 for IPv4, 0 to 128 for IPv6.
    pub bits: u8,
}

/// The number of bytes that hold `bits` bits: `bits / 8`, rounded up.
pub open spec fn byte_count(bits: int) -> int {
    (bits + 7) / 8
}

/// The byte whose `n` highest bits are set and whose other bits are clear,
/// for `n` from 1 to 7.
pub open spec fn high_bits_mask(n: int) -> u8 {
    if n == 1 {
        0x80
    } else if n == 2 {
        0xC0
    } else if n == 3 {
        0xE0
    } else if n == 4 {
        0xF0
    } else if n == 5 {
        0xF8
    } else if n == 6 {
        0xFC
    } else {
        0xFE
    }
}

/// `octet` with all but its `n` highest bits cleared: unchanged from 8 bits
/// on, zero for none.
pub open spec fn keep_high_bits(octet: u8, n: int) -> u8 {
    if n >= 8 {
        octet
    } else if n <= 0 {
        0
    } else {
        octet & high_bits_mask(n)
    }
}

/// A 16-bit group with all but its `n` highest bits cleared.
pub open spec fn keep_high_bits16(group: u16, n: int) -> u16 {
    (keep_high_bits((group / 256) as u8, n) as int * 256 + keep_high_bits(
        (group % 256) as u8,
        n - 8,
    ) as int) as u16
}

/// `octet` with all but its highest bits cleared, where `bits` bits count
/// and `before` of them stand in earlier octets.
fn mask_octet(octet: u8, bits: u8, before: u8) -> (r: u8)
    ensures
        r == keep_high_bits(octet, bits - before),
{
    if bits <= before {
        0
    } else {
        let n: u8 = bits - before;
        if n >= 8 {
            octet
        } else if n == 1 {
            octet & 0x80
        } else if n == 2 {
            octet & 0xC0
        } else if n == 3 {
            octet & 0xE0
        } else if n == 4 {
            octet & 0xF0
        } else if n == 5 {
            octet & 0xF8
        } else if n == 6 {
            octet & 0xFC
        } else {
            octet & 0xFE
        }
    }
}

/// A group with all but its highest bits cleared, where `bits` bits count
/// and `before` of them stand in earlier groups.
fn mask_group(group: u16, bits: u8, before: u8) -> (r: u16)
    requires
        before <= 112,
    ensures
        r == keep_high_bits16(group, bits - before),
{
    let high: u8 = mask_octet((group / 256) as u8, bits, before);
    let low: u8 = mask_octet((group % 256) as u8, bits, before + 8);
    (high as u16) * 256 + (low as u16)
}

/// Masking is idempotent: a masked octet has no bit left to clear.
pub proof fn lemma_keep_high_bits_idempotent(octet: u8, n: int)
    ensures
        keep_high_bits(keep_high_bits(octet, n), n) == keep_high_bits(octet, n),
{
    let m = high_bits_mask(n);
    assert((octet & m) & m == octet & m) by (bit_vector);
}

/// The byte at index `i` of `s`, or zero where `s` has none: `s` padded with
/// zeros.
pub open spec fn octet_or_zero(s: Seq<u8>, i: int) -> u8 {
    if 0 <= i < s.len() {
        s[i]
    } else {
        0
    }
}

/// The IPv4 prefix of `bits` significant bits whose address bytes are `s`:
/// the first four bytes of `s`, padded with zeros, with every bit beyond the
/// first `bits` cleared.
pub open spec fn prefix_of(s: Seq<u8>, bits: u8) -> Prefix {
    Prefix {
        address: IpAddress::V4(
            octet_or_zero(s, 0),
            octet_or_zero(s, 1),
            octet_or_zero(s, 2),
            octet_or_zero(s, 3),
        ),
        bits,
    }.spec_canonical()
}

/// The prefixes that the entries of `s` from index `at` on denote, each entry
/// a bit count and its address bytes. An entry that reaches past the end of
/// `s` fails with `overrun`.
pub open spec fn prefixes_from(s: Seq<u8>, at: int, overrun: DecodeError) -> Result<
    Seq<Prefix>,
    DecodeError,
>
    decreases s.len() - at,
{
    if at < 0 || at >= s.len() {
        Ok(Seq::empty())
    } else {
        let bits = s[at];
        let next = at + 1 + byte_count(bits as int);
        if next > s.len() {
            Err(overrun)
        } else {
            match prefixes_from(s, next, overrun) {
                Ok(rest) => Ok(seq![prefix_of(s.subrange(at + 1, next), bits)] + rest),
                Err(e) => Err(e),
            }
        }
    }
}

/// The prefixes that the entries of `s` denote; `s` holds whole entries and
/// nothing else, or the result is `overrun`.
pub open spec fn spec_prefixes(s: Seq<u8>, overrun: DecodeError) -> Result<
    Seq<Prefix>,
    DecodeError,
> {
    prefixes_from(s, 0, overrun)
}

/// The number of bytes that the entries of `ps` take on the wire: for each,
/// one byte of bit count and the address bytes that hold the bits.
pub open spec fn encoded_len(ps: Seq<Prefix>) -> int
    decreases ps.len(),
{
    if ps.len() == 0 {
        0
    } else {
        1 + byte_count(ps[0].bits as int) + encoded_len(ps.skip(1))
    }
}

/// `r` with `done` put in front of its prefixes.
pub open spec fn after(done: Seq<Prefix>, r: Result<Seq<Prefix>, DecodeError>) -> Result<
    Seq<Prefix>,
    DecodeError,
> {
    match r {
        Ok(rest) => Ok(done + rest),
        Err(e) => Err(e),
    }
}

impl Prefix {
    /// A prefix of the given address and length, as given.
    pub fn new(address: IpAddress, bits: u8) -> (p: Prefix)
        ensures
            p.address == address,
            p.bits == bits,
    {
        Prefix { address, bits }
    }

    /// The prefix with every address bit beyond the first `bits` cleared.
    pub open spec fn spec_canonical(self) -> Prefix {
        let n = self.bits as int;
        Prefix {
            address: match self.address {
                IpAddress::V4(a, b, c, d) => IpAddress::V4(
                    keep_high_bits(a, n),
                    keep_high_bits(b, n - 8),
                    keep_high_bits(c, n - 16),
                    keep_high_bits(d, n - 24),
                ),
                IpAddress::V6(a, b, c, d, e, f, g, h) => IpAddress::V6(
                    keep_high_bits16(a, n),
                    keep_high_bits16(b, n - 16),
                    keep_high_bits16(c, n - 32),
                    keep_high_bits16(d, n - 48),
                    keep_high_bits16(e, n - 64),
                    keep_high_bits16(f, n - 80),
                    keep_high_bits16(g, n - 96),
                    keep_high_bits16(h, n - 112),
                ),
            },
            bits: self.bits,
        }
    }

    /// Whether no address bit beyond the first `bits` is set.
    pub open spec fn is_canonical(self) -> bool {
        self.spec_canonical() == self
    }

    /// The prefix with every address bit beyond the first `bits` cleared.
    pub fn canonical(&self) -> (p: Prefix)
        ensures
            p == self.spec_canonical(),
    {
        let n = self.bits;
        let address = match self.address {
            IpAddress::V4(a, b, c, d) => IpAddress::V4(
                mask_octet(a, n, 0),
                mask_octet(b, n, 8),
                mask_octet(c, n, 16),
                mask_octet(d, n, 24),
            ),
            IpAddress::V6(a, b, c, d, e, f, g, h) => IpAddress::V6(
                mask_group(a, n, 0),
                mask_group(b, n, 16),
                mask_group(c, n, 32),
                mask_group(d, n, 48),
                mask_group(e, n, 64),
                mask_group(f, n, 80),
                mask_group(g, n, 96),
                mask_group(h, n, 112),
            ),
        };
        Prefix { address, bits: n }
    }

    /// The address bytes of the wire form: of the canonical address, as many
    /// leading bytes as hold `bits` bits, and no more than the address has.
    pub open spec fn spec_encode(self) -> Seq<u8> {
        let octets = self.spec_canonical().address.octets();
        let n = byte_count(self.bits as int);
        if n <= octets.len() {
            octets.take(n)
        } else {
            octets
        }
    }

    /// The address bytes of the wire form; the bit count is not among them.
    pub fn encode(&self) -> (v: Vec<u8>)
        ensures
            v@ == self.spec_encode(),
    {
        let mut v = self.canonical().address.to_octets();
        let n: usize = (self.bits as usize + 7) / 8;
        v.truncate(n);
        v
    }

    /// What `decode` returns: `Truncated` where `s` is shorter than `bits`
    /// bits, else the IPv4 prefix that `s` denotes.
    pub open spec fn spec_decode(s: Seq<u8>, bits: u8) -> Result<Prefix, DecodeError> {
        if s.len() < byte_count(bits as int) {
            Err(DecodeError::Truncated)
        } else {
            Ok(prefix_of(s, bits))
        }
    }

    /// Whether the bit count is one that the address has bits for: at most 32
    /// for IPv4, at most 128 for IPv6.
    pub open spec fn spec_in_range(&self) -> bool {
        self.bits <= 8 * self.address.octets().len()
    }

    /// Whether the bit count is one that the address has bits for: at most 32
    /// for IPv4, at most 128 for IPv6.
    #[verifier::when_used_as_spec(spec_in_range)]
    pub fn in_range(&self) -> (b: bool)
        ensures
            b == self.spec_in_range(),
    {
        match self.address {
            IpAddress::V4(..) => self.bits <= 32,
            IpAddress::V6(..) => self.bits <= 128,
        }
    }

    /// Decodes the address bytes of an IPv4 prefix of `bits` significant bits.
    /// Bytes after those that hold the bits are ignored; bits beyond the
    /// count are cleared whatever the bytes hold. A count above 32 is kept as
    /// it is, with the first four bytes as the address.
    pub fn decode(bytes: &[u8], bits: u8) -> (r: Result<Prefix, DecodeError>)
        ensures
            r == Prefix::spec_decode(bytes@, bits),
            r is Ok <==> bytes@.len() >= byte_count(bits as int),
            r matches Ok(p) ==> p.is_canonical() && p.bits == bits && p.address is V4 && (
            p.spec_in_range() <==> bits <= 32),
    {
        let n: usize = (bits as usize + 7) / 8;
        if bytes.len() < n {
            return Err(DecodeError::Truncated);
        }
        Ok(prefix_from(bytes, bits))
    }
}

/// The IPv4 prefix of `bits` significant bits whose address bytes are
/// `bytes`, padded with zeros where there are fewer than four.
fn prefix_from(bytes: &[u8], bits: u8) -> (p: Prefix)
    ensures
        p == prefix_of(bytes@, bits),
        p.is_canonical(),
{
    let a: u8 = if bytes.len() > 0 {
        bytes[0]
    } else {
        0
    };
    let b: u8 = if bytes.len() > 1 {
        bytes[1]
    } else {
        0
    };
    let c: u8 = if bytes.len() > 2 {
        bytes[2]
    } else {
        0
    };
    let d: u8 = if bytes.len() > 3 {
        bytes[3]
    } else {
        0
    };
    proof {
        lemma_prefix_of_is_canonical(bytes@, bits);
    }
    Prefix { address: IpAddress::V4(a, b, c, d), bits }.canonical()
}

/// A decoded prefix is canonical: decoding leaves no bit set beyond the
/// significant ones.
pub proof fn lemma_prefix_of_is_canonical(s: Seq<u8>, bits: u8)
    ensures
        prefix_of(s, bits).is_canonical(),
        prefix_of(s, bits).bits == bits,
        prefix_of(s, bits).address is V4,
{
    let n = bits as int;
    lemma_keep_high_bits_idempotent(octet_or_zero(s, 0), n);
    lemma_keep_high_bits_idempotent(octet_or_zero(s, 1), n - 8);
    lemma_keep_high_bits_idempotent(octet_or_zero(s, 2), n - 16);
    lemma_keep_high_bits_idempotent(octet_or_zero(s, 3), n - 24);
}

/// Encoding and decoding round-trip: the address bytes of an IPv4 prefix of
/// at most 32 bits decode, under its bit count, to its canonical form.
pub proof fn lemma_decode_encode(p: Prefix)
    requires
        p.address is V4,
        p.bits <= 32,
    ensures
        Prefix::spec_decode(p.spec_encode(), p.bits) == Ok::<Prefix, DecodeError>(
            p.spec_canonical(),
        ),
{
    let n = p.bits as int;
    let e = p.spec_encode();
    let c = p.spec_canonical();
    assert(e.len() == byte_count(n));
    match p.address {
        IpAddress::V4(a, b, c0, d) => {
            lemma_keep_high_bits_idempotent(a, n);
            lemma_keep_high_bits_idempotent(b, n - 8);
            lemma_keep_high_bits_idempotent(c0, n - 16);
            lemma_keep_high_bits_idempotent(d, n - 24);
        },
        IpAddress::V6(..) => {},
    }
}

/// The entries of a section that decodes fill it: their wire lengths, one
/// byte of bit count and the address bytes each, add up to the length of the
/// section from `at` on, and each prefix is canonical.
pub proof fn lemma_prefixes_fill_section(s: Seq<u8>, at: int, overrun: DecodeError)
    requires
        0 <= at <= s.len(),
        prefixes_from(s, at, overrun) is Ok,
    ensures
        encoded_len(prefixes_from(s, at, overrun)->Ok_0) == s.len() - at,
        forall|i: int|
            0 <= i < prefixes_from(s, at, overrun)->Ok_0.len() ==> (
            #[trigger] prefixes_from(s, at, overrun)->Ok_0[i]).is_canonical(),
    decreases s.len() - at,
{
    if at < s.len() {
        let bits = s[at];
        let next = at + 1 + byte_count(bits as int);
        lemma_prefixes_fill_section(s, next, overrun);
        let rest = prefixes_from(s, next, overrun)->Ok_0;
        let first = prefix_of(s.subrange(at + 1, next), bits);
        let all = prefixes_from(s, at, overrun)->Ok_0;
        assert(all == seq![first] + rest);
        assert(all.skip(1) =~= rest);
        lemma_prefix_of_is_canonical(s.subrange(at + 1, next), bits);
        assert forall|i: int| 0 <= i < all.len() implies (#[trigger] all[i]).is_canonical() by {
            if i > 0 {
                assert(all[i] == rest[i - 1]);
            }
        }
    }
}

/// Decodes a run of prefix entries that fills `bytes`: each a bit count and
/// the address bytes that hold the bits. An entry that reaches past the end
/// of `bytes` fails the whole run with `overrun`.
pub fn decode_prefixes(bytes: &[u8], overrun: DecodeError) -> (r: Result<Vec<Prefix>, DecodeError>)
    ensures
        match r {
            Ok(v) => spec_prefixes(bytes@, overrun) == Ok::<Seq<Prefix>, DecodeError>(v@),
            Err(e) => spec_prefixes(bytes@, overrun) == Err::<Seq<Prefix>, DecodeError>(e),
        },
{
    let mut v: Vec<Prefix> = Vec::new();
    let mut at: usize = 0;
    while at < bytes.len()
        invariant
            at <= bytes@.len(),
            spec_prefixes(bytes@, overrun) == after(v@, prefixes_from(bytes@, at as int, overrun)),
        decreases bytes@.len() - at,
    {
        let bits: u8 = bytes[at];
        let n: usize = (bits as usize + 7) / 8;
        if bytes.len() - at - 1 < n {
            return Err(overrun);
        }
        let next: usize = at + 1 + n;
        let p = prefix_from(&bytes[at + 1..next], bits);
        proof {
            let rest = prefixes_from(bytes@, next as int, overrun);
            if rest is Ok {
                assert(v@ + (seq![p] + rest->Ok_0) =~= v@.push(p) + rest->Ok_0);
            }
        }
        v.push(p);
        at = next;
    }
    proof {
        assert(v@ + Seq::<Prefix>::empty() =~= v@);
    }
    Ok(v)
}

} // verus!
