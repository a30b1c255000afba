//! Port sets that steer admission.
//!
//! Two configured sets of TCP ports shape the inbound pipeline: ports on
//! which protocol detection is skipped and the connection is forwarded
//! opaquely, and ports on which a connection is refused unless TLS
//! termination produced a verified client identity. Both are held in an
//! insertion-ordered set from the `indexmap` crate; its operations are
//! trusted against that crate's source and stated over the set's abstract
//! contents.

use vstd::prelude::*;

verus! {

#[verifier::external_type_specification]
#[verifier::external_body]
#[verifier::reject_recursive_types(T)]
#[verifier::reject_recursive_types(S)]
pub struct ExIndexSet<T, S>(indexmap::IndexSet<T, S>);

/// The abstract contents of a port set: which ports it holds.
pub uninterp spec fn port_set_contents(
    s: indexmap::IndexSet<u16, std::collections::hash_map::RandomState>,
) -> Set<u16>;

/// Relies on `indexmap::IndexSet::new`: a freshly created set is empty.
#[verifier::external_body]
fn port_set_new() -> (s: indexmap::IndexSet<u16, std::collections::hash_map::RandomState>)
    ensures
        port_set_contents(s) == Set::<u16>::empty(),
{
    indexmap::IndexSet::new()
}

/// Relies on `indexmap::IndexSet::insert`: afterwards the set holds the
/// value, and nothing else changed.
#[verifier::external_body]
fn port_set_insert(
    s: &mut indexmap::IndexSet<u16, std::collections::hash_map::RandomState>,
    port: u16,
) -> (added: bool)
    ensures
        port_set_contents(*final(s)) == port_set_contents(*old(s)).insert(port),
        added == !port_set_contents(*old(s)).contains(port),
{
    s.insert(port)
}

/// Relies on `indexmap::IndexSet::contains`: whether the set holds the value.
#[verifier::external_body]
fn port_set_has(
    s: &indexmap::IndexSet<u16, std::collections::hash_map::RandomState>,
    port: u16,
) -> (r: bool)
    ensures
        r == port_set_contents(*s).contains(port),
{
    s.contains(&port)
}

/// Relies on `indexmap::IndexSet`'s `Clone`: the copy holds the same values.
#[verifier::external_body]
fn port_set_clone(
    s: &indexmap::IndexSet<u16, std::collections::hash_map::RandomState>,
) -> (r: indexmap::IndexSet<u16, std::collections::hash_map::RandomState>)
    ensures
        port_set_contents(r) == port_set_contents(*s),
{
    s.clone()
}

/// Fills a port set from a list, in order.
fn port_set_from(list: &Vec<u16>) -> (s: indexmap::IndexSet<
    u16,
    std::collections::hash_map::RandomState,
>)
    ensures
        forall|p: u16| port_set_contents(s).contains(p) <==> list@.contains(p),
{
    let mut ports = port_set_new();
    let mut i: usize = 0;
    while i < list.len()
        invariant
            i <= list@.len(),
            forall|p: u16|
                port_set_contents(ports).contains(p) <==> exists|j: int|
                    0 <= j < i && list@[j] == p,
        decreases list@.len() - i,
    {
        let p = list[i];
        port_set_insert(&mut ports, p);
        proof {
            assert forall|q: u16| port_set_contents(ports).contains(q) implies exists|j: int|
                0 <= j < i + 1 && list@[j] == q by {
                if q == p {
                    assert(list@[i as int] == q);
                } else {
                    let j = choose|j: int| 0 <= j < i && list@[j] == q;
                    assert(0 <= j < i + 1 && list@[j] == q);
                }
            }
        }
        i = i + 1;
    }
    ports
}

/// The ports on which protocol detection is disabled: a connection whose
/// target port is listed here bypasses detection and identity gating and is
/// forwarded opaquely.
pub struct SkipByPort {
    ports: indexmap::IndexSet<u16, std::collections::hash_map::RandomState>,
}

impl SkipByPort {
    /// The set's abstract contents.
    pub closed spec fn spec_ports(self) -> Set<u16> {
        port_set_contents(self.ports)
    }

    /// An empty skip set: detection runs on every port.
    pub fn empty() -> (r: SkipByPort)
        ensures
            r.spec_ports() == Set::<u16>::empty(),
    {
        SkipByPort { ports: port_set_new() }
    }

    /// Builds the set from a list of ports.
    pub fn from_ports(list: &Vec<u16>) -> (r: SkipByPort)
        ensures
            forall|p: u16| r.spec_ports().contains(p) <==> list@.contains(p),
    {
        SkipByPort { ports: port_set_from(list) }
    }

    /// Whether the detected (primary) path should handle a connection
    /// targeting `port`: true unless the port is listed.
    pub fn use_primary(&self, port: u16) -> (r: bool)
        ensures
            r == !self.spec_ports().contains(port),
    {
        !port_set_has(&self.ports, port)
    }

    /// A copy holding the same ports.
    pub fn duplicate(&self) -> (r: SkipByPort)
        ensures
            r.spec_ports() == self.spec_ports(),
    {
        SkipByPort { ports: port_set_clone(&self.ports) }
    }
}

/// The ports that require a verified client identity: a connection targeting
/// a listed port is refused unless TLS termination identified the peer.
pub struct RequireIdentityForPorts {
    ports: indexmap::IndexSet<u16, std::collections::hash_map::RandomState>,
}

impl RequireIdentityForPorts {
    /// The set's abstract contents.
    pub closed spec fn spec_ports(self) -> Set<u16> {
        port_set_contents(self.ports)
    }

    /// An empty set: no port demands an identity.
    pub fn empty() -> (r: RequireIdentityForPorts)
        ensures
            r.spec_ports() == Set::<u16>::empty(),
    {
        RequireIdentityForPorts { ports: port_set_new() }
    }

    /// Builds the set from a list of ports.
    pub fn from_ports(list: &Vec<u16>) -> (r: RequireIdentityForPorts)
        ensures
            forall|p: u16| r.spec_ports().contains(p) <==> list@.contains(p),
    {
        RequireIdentityForPorts { ports: port_set_from(list) }
    }

    /// Whether a connection targeting `port` must present a client identity.
    pub fn requires_identity(&self, port: u16) -> (r: bool)
        ensures
            r == self.spec_ports().contains(port),
    {
        port_set_has(&self.ports, port)
    }

    /// A copy holding the same ports.
    pub fn duplicate(&self) -> (r: RequireIdentityForPorts)
        ensures
            r.spec_ports() == self.spec_ports(),
    {
        RequireIdentityForPorts { ports: port_set_clone(&self.ports) }
    }
}

} // verus!
