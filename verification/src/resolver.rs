//! The address resolver: turns environment-style configuration values into
//! a single target socket address, in two verified steps.
//!
//! Step one (`resolve_config`) applies the precedence rules: a configured
//! local-socket path always wins; otherwise a host must be present, with a
//! port taken from the port value (which must parse as an unsigned 16-bit
//! integer) or from the fixed default. Step two (`select_ipv4`) picks the
//! first IPv4 candidate out of whatever name resolution returned, and fails
//! when there is none — the daemon does not listen on IPv6.
//!
//! Name resolution itself is host I/O and is left to the caller, which
//! hands the outcome back as plain `Candidate` values.

use vstd::prelude::*;

use crate::numtext::{all_digits, digits_value, parse_port};

verus! {

/// The default TCP port of the daemon, used when no port is configured.
pub const DEFAULT_PORT: u16 = 7786;

/// Why address resolution failed. Each failure is a configuration error:
/// it aborts the invocation before any connection attempt is made.
#[derive(Clone, Copy, Debug, PartialEq, Eq, Structural)]
pub enum ConfigError {
    /// Neither a local-socket path nor a host was configured.
    MissingConfig,
    /// A configuration value was not valid text in the host encoding.
    InvalidEncoding,
    /// The configured port does not parse as an unsigned 16-bit integer.
    BadPort,
    /// Name resolution of the configured host failed outright.
    ResolutionFailed,
    /// Name resolution succeeded but produced no IPv4 address.
    NoIpv4,
}

/// What the configuration asks for: either a local socket at a filesystem
/// path, or a host name (in lookup text form) plus port that still has to
/// go through name resolution.
pub enum ResolvePlan {
    Local { path: Vec<u8> },
    Lookup { host: Vec<u8>, port: u16 },
}

/// One result of name resolution: an IPv4 endpoint with its four address
/// octets and port, or an address of some other family.
#[derive(Clone, Copy, Debug, PartialEq, Eq, Structural)]
pub enum Candidate {
    V4 { o1: u8, o2: u8, o3: u8, o4: u8, port: u16 },
    V6,
}

/// The resolved target: exactly one of a filesystem path (local socket)
/// or an IPv4 endpoint (network socket), never both.
pub enum TargetAddress {
    Local { path: Vec<u8> },
    Inet { o1: u8, o2: u8, o3: u8, o4: u8, port: u16 },
}

/// The text form of a host as handed to name resolution: a bare literal
/// that contains a colon is wrapped in brackets (the IPv6 literal text
/// form); every other host is passed through unchanged.
pub open spec fn lookup_host_form(h: Seq<u8>) -> Seq<u8> {
    if h.contains(58u8) && !h.contains(91u8) {
        seq![91u8] + h + seq![93u8]
    } else {
        h
    }
}

/// True when the port configuration bytes parse as an unsigned 16-bit
/// integer: one or more ASCII digits whose value fits in 16 bits.
pub open spec fn valid_port_text(p: Seq<u8>) -> bool {
    p.len() > 0 && all_digits(p) && digits_value(p) <= u16::MAX
}

/// The first IPv4 candidate of a resolution result, if any.
pub open spec fn spec_first_v4(cands: Seq<Candidate>) -> Option<Candidate>
    decreases cands.len(),
{
    if cands.len() == 0 {
        None
    } else if cands.first() is V4 {
        Some(cands.first())
    } else {
        spec_first_v4(cands.drop_first())
    }
}

/// True when `s` holds the byte `b`.
fn contains_byte(s: &[u8], b: u8) -> (r: bool)
    ensures
        r == s@.contains(b),
{
    let mut i: usize = 0;
    while i < s.len()
        invariant
            0 <= i <= s@.len(),
            forall|j: int| 0 <= j < i ==> s@[j] != b,
        decreases s@.len() - i,
    {
        if s[i] == b {
            return true;
        }
        i = i + 1;
    }
    false
}

/// Applies the configuration precedence rules and produces the resolution
/// plan for one invocation:
/// - a configured local-socket path wins unconditionally, even when host
///   and port are also configured;
/// - otherwise a configured host is looked up, with the configured port
///   if it parses as an unsigned 16-bit integer (rejected otherwise), or
///   the fixed default port when no port is configured;
/// - with neither a path nor a host configured, resolution fails.
pub fn resolve_config(
    socket: Option<Vec<u8>>,
    host: Option<Vec<u8>>,
    port: &Option<Vec<u8>>,
) -> (r: Result<ResolvePlan, ConfigError>)
    ensures
        socket matches Some(p) ==> (r matches Ok(ResolvePlan::Local { path }) && path@ == p@),
        socket is None ==> match host {
            Option::None => r == Err::<ResolvePlan, ConfigError>(ConfigError::MissingConfig),
            Option::Some(h) => match port {
                Option::None => (r matches Ok(ResolvePlan::Lookup { host: lh, port: pt }) && lh@
                    == lookup_host_form(h@) && pt == DEFAULT_PORT),
                Option::Some(ps) => if valid_port_text(ps@) {
                    r matches Ok(ResolvePlan::Lookup { host: lh, port: pt }) && lh@
                        == lookup_host_form(h@) && pt == digits_value(ps@)
                } else {
                    r == Err::<ResolvePlan, ConfigError>(ConfigError::BadPort)
                },
            },
        },
{
    match socket {
        Some(path) => Ok(ResolvePlan::Local { path }),
        None => match host {
            None => Err(ConfigError::MissingConfig),
            Some(h) => {
                let pt: u16 = match port {
                    None => DEFAULT_PORT,
                    Some(ps) => match parse_port(ps.as_slice()) {
                        Some(v) => v,
                        None => {
                            return Err(ConfigError::BadPort);
                        },
                    },
                };
                let needs_brackets = contains_byte(h.as_slice(), 58) && !contains_byte(
                    h.as_slice(),
                    91,
                );
                let lh = if needs_brackets {
                    let mut wrapped: Vec<u8> = Vec::new();
                    wrapped.push(91);
                    let mut inner = h;
                    wrapped.append(&mut inner);
                    wrapped.push(93);
                    proof {
                        assert(wrapped@ =~= seq![91u8] + h@ + seq![93u8]);
                    }
                    wrapped
                } else {
                    h
                };
                Ok(ResolvePlan::Lookup { host: lh, port: pt })
            },
        },
    }
}

/// Selects the first IPv4 candidate out of a name-resolution result as the
/// network target, and fails when resolution yielded no IPv4 address at
/// all — IPv6-only results are rejected.
pub fn select_ipv4(cands: &Vec<Candidate>) -> (r: Result<TargetAddress, ConfigError>)
    ensures
        match spec_first_v4(cands@) {
            Option::Some(c) => (r matches Ok(TargetAddress::Inet { o1, o2, o3, o4, port }) && c
                == (Candidate::V4 { o1, o2, o3, o4, port })),
            Option::None => r == Err::<TargetAddress, ConfigError>(ConfigError::NoIpv4),
        },
{
    let mut i: usize = 0;
    proof {
        assert(cands@.skip(0) =~= cands@);
    }
    while i < cands.len()
        invariant
            0 <= i <= cands@.len(),
            spec_first_v4(cands@) == spec_first_v4(cands@.skip(i as int)),
        decreases cands@.len() - i,
    {
        let c = cands[i];
        proof {
            assert(cands@.skip(i as int).first() == cands@[i as int]);
            assert(cands@.skip(i as int).drop_first() =~= cands@.skip(i + 1));
        }
        match c {
            Candidate::V4 { o1, o2, o3, o4, port } => {
                return Ok(TargetAddress::Inet { o1, o2, o3, o4, port });
            },
            Candidate::V6 => {},
        }
        i = i + 1;
    }
    proof {
        assert(cands@.skip(cands@.len() as int) =~= Seq::<Candidate>::empty());
    }
    Err(ConfigError::NoIpv4)
}

} // verus!
