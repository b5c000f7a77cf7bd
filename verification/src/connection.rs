//! The channel between client and adapter: host, port and connect timeout.

use vstd::prelude::*;
use crate::task::{HostAddress, PartialConnectionSpec};

verus! {

/// The port on which the adapter listens unless another is chosen.
pub const DEFAULT_PORT: u16 = 5678;

/// How long the client waits for the adapter, in milliseconds, unless told
/// otherwise.
pub const DEFAULT_TIMEOUT: u64 = 2000;

/// Where the client finds the adapter and how long it waits for it.
#[derive(Clone, Copy, Debug, PartialEq, Eq, Structural)]
pub struct ConnectionParameters {
    pub host: HostAddress,
    pub port: u16,
    pub timeout: u64,
}

/// The loopback address, 127.0.0.1.
pub open spec fn loopback() -> HostAddress {
    HostAddress { a: 127, b: 0, c: 0, d: 1 }
}

/// The parameters that `wishes` lead to: each field that is set, and the
/// default for each that is not.
pub open spec fn negotiated(wishes: Option<PartialConnectionSpec>) -> ConnectionParameters {
    match wishes {
        None => ConnectionParameters {
            host: loopback(),
            port: DEFAULT_PORT,
            timeout: DEFAULT_TIMEOUT,
        },
        Some(template) => ConnectionParameters {
            host: match template.host {
                Some(host) => host,
                None => loopback(),
            },
            port: match template.port {
                Some(port) => port,
                None => DEFAULT_PORT,
            },
            timeout: match template.timeout {
                Some(timeout) => timeout,
                None => DEFAULT_TIMEOUT,
            },
        },
    }
}

/// Settles host, port and timeout. Never fails: what the caller left open
/// is filled in from the defaults.
pub fn negotiate(wishes: Option<PartialConnectionSpec>) -> (parameters: ConnectionParameters)
    ensures
        parameters == negotiated(wishes),
{
    let template = match wishes {
        Some(template) => template,
        None => PartialConnectionSpec { host: None, port: None, timeout: None },
    };
    ConnectionParameters {
        host: match template.host {
            Some(host) => host,
            None => HostAddress { a: 127, b: 0, c: 0, d: 1 },
        },
        port: match template.port {
            Some(port) => port,
            None => DEFAULT_PORT,
        },
        timeout: match template.timeout {
            Some(timeout) => timeout,
            None => DEFAULT_TIMEOUT,
        },
    }
}

/// A port alone, given by the caller, is taken as it is; host and timeout
/// keep their defaults.
pub proof fn lemma_port_alone_keeps_other_defaults(port: u16)
    ensures
        negotiated(Some(PartialConnectionSpec { host: None, port: Some(port), timeout: None }))
            == (ConnectionParameters { host: loopback(), port, timeout: DEFAULT_TIMEOUT }),
        negotiated(Some(PartialConnectionSpec { host: None, port: Some(port), timeout: None })).host
            == negotiated(None).host,
        negotiated(
            Some(PartialConnectionSpec { host: None, port: Some(port), timeout: None }),
        ).timeout == negotiated(None).timeout,
{
}

/// Each field of the outcome depends on the same field of the wishes and
/// on no other.
pub proof fn lemma_fields_are_settled_apart(
    first: PartialConnectionSpec,
    second: PartialConnectionSpec,
)
    ensures
        first.host == second.host ==> negotiated(Some(first)).host == negotiated(Some(second)).host,
        first.port == second.port ==> negotiated(Some(first)).port == negotiated(Some(second)).port,
        first.timeout == second.timeout ==> negotiated(Some(first)).timeout == negotiated(
            Some(second),
        ).timeout,
        negotiated(Some(PartialConnectionSpec { host: None, port: None, timeout: None }))
            == negotiated(None),
{
}

} // verus!
