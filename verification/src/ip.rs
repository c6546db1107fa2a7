//! IP addresses and CIDR blocks as unsigned integers.
//!
//! An address of either family is held as the number it denotes, so that
//! blocks and ranges of addresses are intervals of numbers.

use crate::storage::mem::interval::Span;
use vstd::arithmetic::div_mod::{lemma_fundamental_div_mod, lemma_fundamental_div_mod_converse};
use vstd::arithmetic::power2::{lemma2_to64, lemma_pow2_adds, lemma_pow2_pos, pow2};
use vstd::bits::lemma_u128_shr_is_div;
use vstd::prelude::*;

pub mod text;

verus! {

/// An IPv4 or IPv6 address.
#[derive(Clone, Copy, Debug, PartialEq, Eq, Structural)]
pub enum IpAddress {
    V4(u32),
    V6(u128),
}

/// The text that names an address family.
pub open spec fn version_text(v4: bool) -> Seq<char> {
    if v4 {
        "v4"@
    } else {
        "v6"@
    }
}

impl IpAddress {
    /// The address is an IPv4 address.
    pub open spec fn is_v4(self) -> bool {
        self is V4
    }

    /// The address as a number.
    pub open spec fn number(self) -> u128 {
        match self {
            IpAddress::V4(a) => a as u128,
            IpAddress::V6(a) => a,
        }
    }

    /// The width of an address of this family.
    pub open spec fn bits(self) -> nat {
        if self is V4 {
            32
        } else {
            128
        }
    }

    /// The address as a number.
    pub fn to_number(&self) -> (n: u128)
        ensures
            n == self.number(),
    {
        match self {
            IpAddress::V4(a) => *a as u128,
            IpAddress::V6(a) => *a,
        }
    }

    /// Whether the address is an IPv4 address.
    pub fn is_ipv4(&self) -> (b: bool)
        ensures
            b == self.is_v4(),
    {
        match self {
            IpAddress::V4(_) => true,
            IpAddress::V6(_) => false,
        }
    }

    /// The name of the address family: `v4` or `v6`.
    pub fn version(&self) -> (s: &'static str)
        ensures
            s@ == version_text(self.is_v4()),
    {
        match self {
            IpAddress::V4(_) => "v4",
            IpAddress::V6(_) => "v6",
        }
    }
}

/// A CIDR block: the addresses that share the first `prefix_len` bits of
/// `network`, whose remaining bits are zero.
#[derive(Clone, Copy, Debug, PartialEq, Eq)]
pub struct IpCidr {
    network: IpAddress,
    prefix_len: u8,
}

impl IpCidr {
    /// The first address of the block.
    pub closed spec fn network(self) -> IpAddress {
        self.network
    }

    /// The number of leading bits that the addresses of the block share.
    pub closed spec fn prefix_len(self) -> u8 {
        self.prefix_len
    }

    /// The prefix is no longer than an address, and the bits of `network`
    /// behind the prefix are zero.
    #[verifier::type_invariant]
    pub closed spec fn wf(self) -> bool {
        &&& self.prefix_len <= self.network.bits()
        &&& (self.network.number() as int) % (pow2(
            (self.network.bits() - self.prefix_len) as nat,
        ) as int) == 0
    }

    /// The number of bits in which the addresses of the block differ.
    pub open spec fn host_bits(self) -> nat {
        (self.network().bits() - self.prefix_len()) as nat
    }

    /// The last address of the block as a number.
    pub open spec fn last_number(self) -> int {
        self.network().number() + pow2(self.host_bits()) - 1
    }

    /// The last address of the block.
    pub open spec fn last(self) -> IpAddress {
        if self.network() is V4 {
            IpAddress::V4(self.last_number() as u32)
        } else {
            IpAddress::V6(self.last_number() as u128)
        }
    }

    /// The block as an interval of numbers.
    pub open spec fn span(self) -> Span {
        Span { lo: self.network().number(), hi: self.last_number() as u128 }
    }

    /// What well-formedness means, over the public spec functions.
    pub proof fn lemma_wf(self)
        requires
            self.wf(),
        ensures
            self.prefix_len() <= self.network().bits(),
            (self.network().number() as int) % (pow2(self.host_bits()) as int) == 0,
            self.network().number() <= self.last_number() < pow2(self.network().bits()),
            self.span().valid(),
            self.span().hi == self.last_number(),
            self.network() is V4 ==> self.last_number() <= u32::MAX,
            self.last().is_v4() == self.network().is_v4(),
            self.last().number() == self.last_number(),
    {
        let h = self.host_bits();
        lemma_pow2_128();
        lemma2_to64();
        lemma_pow2_le_128(h);
        lemma_pow2_pos(h);
        lemma_block_fits(self.network.number() as int, h, self.network.bits());
    }

    /// The block of `prefix_len` leading bits that holds `addr`, unless the
    /// prefix is longer than an address of that family.
    pub fn new(addr: IpAddress, prefix_len: u8) -> (r: Option<IpCidr>)
        ensures
            match r {
                Some(c) => {
                    &&& prefix_len <= addr.bits()
                    &&& c.wf()
                    &&& c.prefix_len() == prefix_len
                    &&& c.network().is_v4() == addr.is_v4()
                    &&& c.network().number() == addr.number() - (addr.number() as int) % (pow2(
                        (addr.bits() - prefix_len) as nat,
                    ) as int)
                },
                None => prefix_len > addr.bits(),
            },
    {
        let width: u8 = match addr {
            IpAddress::V4(_) => 32,
            IpAddress::V6(_) => 128,
        };
        if prefix_len > width {
            return None;
        }
        let host: u8 = width - prefix_len;
        let mask = low_mask(host);
        let n = addr.to_number();
        let ghost d = pow2(host as nat) as int;
        proof {
            lemma_pow2_pos(host as nat);
            lemma_fundamental_div_mod(n as int, d);
            lemma_pow2_128();
            if host < 128 {
                vstd::arithmetic::power2::lemma_pow2_strictly_increases(host as nat, 128);
            }
        }
        let first: u128 = if host == 128 {
            0
        } else {
            n - n % (mask + 1)
        };
        proof {
            if host == 128 {
                vstd::arithmetic::div_mod::lemma_small_mod(n as nat, d as nat);
            }
            assert(first == n - (n as int) % d);
            let q = n as int / d;
            assert(first == q * d + 0) by (nonlinear_arith)
                requires
                    first == n - (n as int) % d,
                    n == d * q + (n as int) % d,
            ;
            lemma_fundamental_div_mod_converse(first as int, d, q, 0);
        }
        let network = match addr {
            IpAddress::V4(_) => IpAddress::V4(first as u32),
            IpAddress::V6(_) => IpAddress::V6(first),
        };
        Some(IpCidr { network, prefix_len })
    }

    /// The first address of the block.
    pub fn first_address(&self) -> (a: IpAddress)
        ensures
            a == self.network(),
            self.wf(),
    {
        proof {
            use_type_invariant(self);
        }
        self.network
    }

    /// The last address of the block.
    pub fn last_address(&self) -> (a: IpAddress)
        ensures
            a == self.last(),
            self.wf(),
    {
        proof {
            use_type_invariant(self);
            self.lemma_wf();
        }
        let width: u8 = match self.network {
            IpAddress::V4(_) => 32,
            IpAddress::V6(_) => 128,
        };
        let mask = low_mask(width - self.prefix_len);
        match self.network {
            IpAddress::V4(a) => IpAddress::V4((a as u128 + mask) as u32),
            IpAddress::V6(a) => IpAddress::V6(a + mask),
        }
    }

    /// The length of the prefix.
    pub fn prefix_length(&self) -> (n: u8)
        ensures
            n == self.prefix_len(),
            self.wf(),
    {
        proof {
            use_type_invariant(self);
        }
        self.prefix_len
    }

    /// The block as an interval of numbers.
    pub fn to_span(&self) -> (sp: Span)
        ensures
            sp == self.span(),
            sp.valid(),
            self.wf(),
    {
        proof {
            use_type_invariant(self);
            self.lemma_wf();
        }
        Span { lo: self.network.to_number(), hi: self.last_address().to_number() }
    }
}

/// The number whose lowest `h` bits are set and no others.
fn low_mask(h: u8) -> (m: u128)
    requires
        h <= 128,
    ensures
        m == pow2(h as nat) - 1,
{
    if h == 0 {
        proof {
            lemma2_to64();
        }
        0
    } else {
        let shift: u128 = (128 - h) as u128;
        proof {
            lemma_u128_shr_is_div(u128::MAX, shift);
            lemma_mask_quotient(h as nat);
        }
        u128::MAX >> shift
    }
}

/// 2^128 is one more than the largest 128-bit number.
proof fn lemma_pow2_128()
    ensures
        pow2(128) == u128::MAX + 1,
{
    lemma2_to64();
    lemma_pow2_adds(64, 64);
}

/// A power of two with an exponent of at most 128 is at most 2^128.
proof fn lemma_pow2_le_128(h: nat)
    requires
        h <= 128,
    ensures
        pow2(h) <= u128::MAX + 1,
{
    lemma_pow2_128();
    if h < 128 {
        vstd::arithmetic::power2::lemma_pow2_strictly_increases(h, 128);
    }
}

/// Dividing the largest 128-bit number by 2^(128-h) leaves 2^h - 1.
proof fn lemma_mask_quotient(h: nat)
    requires
        1 <= h <= 128,
    ensures
        (u128::MAX as int) / (pow2((128 - h) as nat) as int) == pow2(h) - 1,
{
    let d = pow2((128 - h) as nat) as int;
    let n = pow2(h) as int;
    lemma_pow2_128();
    lemma_pow2_adds(h, (128 - h) as nat);
    lemma_pow2_pos(h);
    lemma_pow2_pos((128 - h) as nat);
    assert(u128::MAX as int == (n - 1) * d + (d - 1)) by (nonlinear_arith)
        requires
            n * d == u128::MAX + 1,
    ;
    lemma_fundamental_div_mod_converse(u128::MAX as int, d, n - 1, d - 1);
}

/// A block that starts at a multiple of its size, below 2^bits, ends below
/// 2^bits.
proof fn lemma_block_fits(n: int, h: nat, bits: nat)
    requires
        0 <= n < pow2(bits),
        h <= bits,
        n % (pow2(h) as int) == 0,
    ensures
        n + pow2(h) - 1 < pow2(bits),
{
    let d = pow2(h) as int;
    let e = pow2((bits - h) as nat) as int;
    let q = n / d;
    lemma_pow2_adds(h, (bits - h) as nat);
    lemma_pow2_pos(h);
    lemma_pow2_pos((bits - h) as nat);
    lemma_fundamental_div_mod(n, d);
    assert(q < e) by (nonlinear_arith)
        requires
            d * q < d * e,
            d > 0,
    ;
    assert(d * (q + 1) <= d * e) by (nonlinear_arith)
        requires
            q + 1 <= e,
            d > 0,
    ;
    assert(d * (q + 1) == d * q + d) by (nonlinear_arith);
}

} // verus!
