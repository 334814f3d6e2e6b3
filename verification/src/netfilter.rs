//! The syscall-filter model: when a policy denies network access, every
//! syscall that could originate network communication is answered with a
//! permission error instead of terminating the program. The filter is
//! installed in the helper before exec, so the whole process tree inherits
//! it.

use vstd::prelude::*;

use crate::policy::SandboxPolicy;
use crate::resolver::resolved_rules_model;

verus! {

/// The address families the filter distinguishes when a socket is created.
pub enum AddressFamily {
    /// Local (unix-domain) sockets, not a path to the network.
    Unix,
    /// IPv4 internet sockets: HTTP fetches, TCP probes, SSH, DNS.
    Inet,
    /// IPv6 internet sockets.
    Inet6,
    /// Raw packet sockets, as ICMP ping uses.
    Packet,
}

/// The syscall classes the filter inspects.
pub enum SyscallClass {
    /// Socket creation with the given address family.
    SocketCreate { family: AddressFamily },
    /// Connection establishment on an existing socket.
    Connect,
    /// Anything else, left alone by the network filter.
    Other,
}

/// The filter's answer for one syscall.
pub enum FilterVerdict {
    Allow,
    /// The syscall returns a permission error to the calling program.
    DenyPermission,
}

/// Whether a syscall of this class can originate network communication:
/// creating an internet or raw-packet socket, or establishing a connection.
/// This covers direct socket use, raw-socket ICMP, name resolution that
/// opens sockets, and shell pseudo-device redirections, each of which must
/// create such a socket or connect before any data can flow.
pub open spec fn originates_network(class: SyscallClass) -> bool {
    match class {
        SyscallClass::SocketCreate { family } => match family {
            AddressFamily::Unix => false,
            AddressFamily::Inet => true,
            AddressFamily::Inet6 => true,
            AddressFamily::Packet => true,
        },
        SyscallClass::Connect => true,
        SyscallClass::Other => false,
    }
}

/// What the installed filter answers: with network allowed it is
/// transparent; with network denied it turns every network-originating
/// syscall into a permission error.
pub open spec fn filter_verdict_model(network_allowed: bool, class: SyscallClass) -> FilterVerdict {
    if !network_allowed && originates_network(class) {
        FilterVerdict::DenyPermission
    } else {
        FilterVerdict::Allow
    }
}

/// Decides one syscall against the filter.
pub fn filter_verdict(network_allowed: bool, class: SyscallClass) -> (v: FilterVerdict)
    ensures
        v == filter_verdict_model(network_allowed, class),
{
    if network_allowed {
        return FilterVerdict::Allow;
    }
    match class {
        SyscallClass::SocketCreate { family } => match family {
            AddressFamily::Unix => FilterVerdict::Allow,
            AddressFamily::Inet => FilterVerdict::DenyPermission,
            AddressFamily::Inet6 => FilterVerdict::DenyPermission,
            AddressFamily::Packet => FilterVerdict::DenyPermission,
        },
        SyscallClass::Connect => FilterVerdict::DenyPermission,
        SyscallClass::Other => FilterVerdict::Allow,
    }
}

/// Under any policy without network access, the resolved rules deny the
/// network and the filter answers every network-originating syscall with a
/// permission error; no such syscall is ever allowed through.
pub proof fn lemma_network_denied_policy_blocks_all_origins(
    policy: SandboxPolicy,
    cwd: Seq<Seq<char>>,
    tmpdir: Option<Seq<Seq<char>>>,
    class: SyscallClass,
)
    requires
        !policy.spec_network_access(),
        originates_network(class),
    ensures
        !resolved_rules_model(policy, cwd, tmpdir).network_allowed,
        filter_verdict_model(resolved_rules_model(policy, cwd, tmpdir).network_allowed, class)
            == FilterVerdict::DenyPermission,
{
}

} // verus!
