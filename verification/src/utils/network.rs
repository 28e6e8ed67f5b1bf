//! Telling local addresses from others.
//!
//! An address is held as its numbers: four octets for IPv4, eight 16-bit
//! groups for IPv6.

use crate::errors::AppError;
use crate::text::decimal_text;
use crate::text::to_decimal;
use vstd::prelude::*;
use vstd::string::*;

verus! {

/// An IPv4 address, most significant octet first.
#[derive(Clone, Copy, Debug, PartialEq, Eq, Structural)]
pub struct Ipv4Addr {
    pub a: u8,
    pub b: u8,
    pub c: u8,
    pub d: u8,
}

/// An IPv6 address as its eight groups, most significant first.
#[derive(Clone, Copy, Debug, PartialEq, Eq, Structural)]
pub struct Ipv6Addr {
    pub g0: u16,
    pub g1: u16,
    pub g2: u16,
    pub g3: u16,
    pub g4: u16,
    pub g5: u16,
    pub g6: u16,
    pub g7: u16,
}

/// An address of either family.
#[derive(Clone, Copy, Debug, PartialEq, Eq, Structural)]
pub enum IpAddr {
    V4(Ipv4Addr),
    V6(Ipv6Addr),
}

impl Ipv4Addr {
    /// In `10.0.0.0/8`, `172.16.0.0/12` or `192.168.0.0/16`.
    pub open spec fn is_private(&self) -> bool {
        self.a == 10 || (self.a == 172 && 16 <= self.b <= 31) || (self.a == 192 && self.b == 168)
    }

    /// In `127.0.0.0/8`.
    pub open spec fn is_loopback(&self) -> bool {
        self.a == 127
    }

    /// In `169.254.0.0/16`.
    pub open spec fn is_link_local(&self) -> bool {
        self.a == 169 && self.b == 254
    }
}

impl Ipv6Addr {
    /// The address `::1`.
    pub open spec fn is_loopback(&self) -> bool {
        self.g0 == 0 && self.g1 == 0 && self.g2 == 0 && self.g3 == 0 && self.g4 == 0 && self.g5
            == 0 && self.g6 == 0 && self.g7 == 1
    }

    /// In `fc00::/7`.
    pub open spec fn is_unique_local(&self) -> bool {
        self.g0 & 0xfe00 == 0xfc00
    }
}

/// The number of an address: the 128 bits of an IPv6 address, most
/// significant group first, and for an IPv4 address the number of the IPv6
/// address that stands for it, `::ffff:a.b.c.d`.
pub open spec fn address_number(ip: IpAddr) -> u128 {
    match ip {
        IpAddr::V4(v4) => 0xffff_0000_0000u128 | ((v4.a as u128) << 24) | ((v4.b as u128) << 16) | ((
        v4.c as u128) << 8) | (v4.d as u128),
        IpAddr::V6(v6) => ((v6.g0 as u128) << 112) | ((v6.g1 as u128) << 96) | ((v6.g2 as u128)
            << 80) | ((v6.g3 as u128) << 64) | ((v6.g4 as u128) << 48) | ((v6.g5 as u128) << 32) | ((
        v6.g6 as u128) << 16) | (v6.g7 as u128),
    }
}

/// Computes the number of an address.
pub fn address_key(ip: &IpAddr) -> (key: u128)
    ensures
        key == address_number(*ip),
{
    match ip {
        IpAddr::V4(v4) => 0xffff_0000_0000u128 | ((v4.a as u128) << 24) | ((v4.b as u128) << 16) | ((
        v4.c as u128) << 8) | (v4.d as u128),
        IpAddr::V6(v6) => ((v6.g0 as u128) << 112) | ((v6.g1 as u128) << 96) | ((v6.g2 as u128)
            << 80) | ((v6.g3 as u128) << 64) | ((v6.g4 as u128) << 48) | ((v6.g5 as u128) << 32) | ((
        v6.g6 as u128) << 16) | (v6.g7 as u128),
    }
}

/// The address belongs to the local network: private, loopback or
/// link-local for IPv4, loopback or unique-local for IPv6.
pub open spec fn local_ip(ip: IpAddr) -> bool {
    match ip {
        IpAddr::V4(v4) => v4.is_private() || v4.is_loopback() || v4.is_link_local(),
        IpAddr::V6(v6) => v6.is_loopback() || v6.is_unique_local(),
    }
}

/// The address is the machine itself.
pub open spec fn localhost(ip: IpAddr) -> bool {
    match ip {
        IpAddr::V4(v4) => v4.is_loopback(),
        IpAddr::V6(v6) => v6.is_loopback(),
    }
}

fn is_local_ipv4(ip: &Ipv4Addr) -> (local: bool)
    ensures
        local == (ip.is_private() || ip.is_loopback() || ip.is_link_local()),
{
    ip.a == 10 || (ip.a == 172 && 16 <= ip.b && ip.b <= 31) || (ip.a == 192 && ip.b == 168)
        || ip.a == 127 || (ip.a == 169 && ip.b == 254)
}

fn is_loopback_ipv6(ip: &Ipv6Addr) -> (loopback: bool)
    ensures
        loopback == ip.is_loopback(),
{
    ip.g0 == 0 && ip.g1 == 0 && ip.g2 == 0 && ip.g3 == 0 && ip.g4 == 0 && ip.g5 == 0 && ip.g6
        == 0 && ip.g7 == 1
}

fn is_local_ipv6(ip: &Ipv6Addr) -> (local: bool)
    ensures
        local == (ip.is_loopback() || ip.is_unique_local()),
{
    is_loopback_ipv6(ip) || (ip.g0 & 0xfe00 == 0xfc00)
}

/// Tells whether an address belongs to the local network.
pub fn is_local_ip(ip: &IpAddr) -> (local: bool)
    ensures
        local == local_ip(*ip),
{
    match ip {
        IpAddr::V4(v4) => is_local_ipv4(v4),
        IpAddr::V6(v6) => is_local_ipv6(v6),
    }
}

/// Tells whether an address is the machine itself.
pub fn is_localhost(ip: &IpAddr) -> (own: bool)
    ensures
        own == localhost(*ip),
{
    match ip {
        IpAddr::V4(v4) => v4.a == 127,
        IpAddr::V6(v6) => is_loopback_ipv6(v6),
    }
}

/// The name of the local machine.
pub fn get_local_hostname() -> (name: Result<String, AppError>)
    ensures
        name is Ok,
        name->Ok_0@ == "localhost"@,
{
    Ok(String::from_str("localhost"))
}

/// The URL of `path` on the server at `ip` and `port`.
pub fn build_local_url(ip: &str, port: u16, path: &str) -> (url: String)
    ensures
        url@ == "http://"@ + ip@ + ":"@ + decimal_text(port as nat) + path@,
{
    let port_text = to_decimal(port as u64);
    String::from_str("http://").concat(ip).concat(":").concat(port_text.as_str()).concat(path)
}

/// The beginning that an address shares with every address of its local
/// network: the first three octets of an IPv4 address in decimal, joined by
/// dots, or the first four groups of an IPv6 address in hexadecimal, joined
/// by colons.
pub open spec fn network_prefix(ip: IpAddr) -> Seq<char> {
    match ip {
        IpAddr::V4(v4) => decimal_text(v4.a as nat) + "."@ + decimal_text(v4.b as nat) + "."@
            + decimal_text(v4.c as nat),
        IpAddr::V6(v6) => crate::text::hex_text(v6.g0 as nat) + ":"@ + crate::text::hex_text(
            v6.g1 as nat,
        ) + ":"@ + crate::text::hex_text(v6.g2 as nat) + ":"@ + crate::text::hex_text(
            v6.g3 as nat,
        ),
    }
}

/// Writes the beginning that an address shares with its local network.
pub fn prefix_of(ip: &IpAddr) -> (prefix: String)
    ensures
        prefix@ == network_prefix(*ip),
{
    match ip {
        IpAddr::V4(v4) => to_decimal(v4.a as u64).concat(".").concat(
            to_decimal(v4.b as u64).as_str(),
        ).concat(".").concat(to_decimal(v4.c as u64).as_str()),
        IpAddr::V6(v6) => crate::text::to_hex(v6.g0 as u64).concat(":").concat(
            crate::text::to_hex(v6.g1 as u64).as_str(),
        ).concat(":").concat(crate::text::to_hex(v6.g2 as u64).as_str()).concat(":").concat(
            crate::text::to_hex(v6.g3 as u64).as_str(),
        ),
    }
}

/// The range of the local network of an address in CIDR notation: a `/24`
/// for IPv4, a `/64` for IPv6.
pub fn get_local_network_range(ip: &IpAddr) -> (range: String)
    ensures
        range@ == network_prefix(*ip) + match ip {
            IpAddr::V4(_) => ".0/24"@,
            IpAddr::V6(_) => "::/64"@,
        },
{
    match ip {
        IpAddr::V4(_) => prefix_of(ip).concat(".0/24"),
        IpAddr::V6(_) => prefix_of(ip).concat("::/64"),
    }
}

/// Tells whether an address lies in a range given in CIDR notation, by the
/// beginning of the text alone: the range must begin with what the address
/// shares with its local network.
pub fn is_ip_in_cidr(ip: &IpAddr, cidr: &str) -> (inside: bool)
    ensures
        inside == (network_prefix(*ip).len() <= cidr@.len() && cidr@.subrange(
            0,
            network_prefix(*ip).len() as int,
        ) == network_prefix(*ip)),
{
    let prefix = prefix_of(ip);
    crate::text::starts_with(cidr, prefix.as_str())
}

} // verus!
