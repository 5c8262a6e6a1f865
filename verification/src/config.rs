//! Configuration assembled from environment-sourced values, with the
//! documented defaults applied to anything absent or unparseable.

use vstd::prelude::*;
use crate::text::{k_default_bind, mk_default_bind};
use crate::wire::{u64_lexeme, parse_u64};

verus! {

/// Bind addresses and ports for the client-facing listener and the ingest
/// socket.
pub struct AppConfig {
    pub http_bind_addr: Vec<u8>,
    pub http_port: u16,
    pub udp_bind_addr: Vec<u8>,
    pub udp_port: u16,
}

/// A supplied bind address, or the wildcard default.
pub open spec fn bind_or_default(v: Option<Seq<u8>>) -> Seq<u8> {
    match v {
        Some(b) => b,
        None => k_default_bind(),
    }
}

/// A supplied port text when it denotes a port, else the default.
pub open spec fn port_or_default(v: Option<Seq<u8>>, default: u16) -> u16 {
    match v {
        Some(t) => match u64_lexeme(t) {
            Some(n) => if n <= 65535 {
                n as u16
            } else {
                default
            },
            None => default,
        },
        None => default,
    }
}

impl AppConfig {
    /// Assemble the configuration from the four environment-sourced values,
    /// absent ones falling back to the documented defaults.
    pub fn from_parts(
        http_bind_addr: Option<Vec<u8>>,
        http_port: Option<Vec<u8>>,
        udp_bind_addr: Option<Vec<u8>>,
        udp_port: Option<Vec<u8>>,
    ) -> (r: AppConfig)
        ensures
            r.http_bind_addr@ == bind_or_default(crate::store::opt_view(http_bind_addr)),
            r.http_port == port_or_default(crate::store::opt_view(http_port), 8080),
            r.udp_bind_addr@ == bind_or_default(crate::store::opt_view(udp_bind_addr)),
            r.udp_port == port_or_default(crate::store::opt_view(udp_port), 6000),
    {
        AppConfig {
            http_bind_addr: bind_value(http_bind_addr),
            http_port: port_value(http_port, 8080),
            udp_bind_addr: bind_value(udp_bind_addr),
            udp_port: port_value(udp_port, 6000),
        }
    }
}

fn bind_value(v: Option<Vec<u8>>) -> (r: Vec<u8>)
    ensures
        r@ == bind_or_default(crate::store::opt_view(v)),
{
    match v {
        Some(b) => b,
        None => mk_default_bind(),
    }
}

fn port_value(v: Option<Vec<u8>>, default: u16) -> (r: u16)
    ensures
        r == port_or_default(crate::store::opt_view(v), default),
{
    match v {
        Some(t) => match parse_u64(&t) {
            Some(n) => if n <= 65535 {
                n as u16
            } else {
                default
            },
            None => default,
        },
        None => default,
    }
}

} // verus!
