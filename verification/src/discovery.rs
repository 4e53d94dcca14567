//! Settings of the authority discovery worker, and the network events it is
//! fed.

use vstd::prelude::*;

verus! {

/// What the node does in authority discovery.
#[derive(Clone, Copy, Debug, PartialEq, Eq, Structural)]
pub enum DiscoveryRole {
    /// Look up the addresses of authorities.
    Discover,
    /// Publish the node's own addresses as well.
    PublishAndDiscover,
}

/// The settings that the authority discovery worker is started with.
#[derive(Clone, Copy, Debug, PartialEq, Eq, Structural)]
pub struct DiscoverySettings {
    pub role: DiscoveryRole,
    pub publish_non_global_ips: bool,
    pub strict_record_validation: bool,
}

/// The kinds of event that the peer network reports.
#[derive(Clone, Copy, Debug, PartialEq, Eq, Structural)]
pub enum NetworkEventKind {
    Dht,
    SyncConnected,
    SyncDisconnected,
    NotificationStreamOpened,
    NotificationStreamClosed,
    NotificationsReceived,
}

/// The settings of the discovery worker of a node that collates.
///
/// Such a node only looks authorities up. It accepts signed records only,
/// and publishes addresses that are not global exactly when the network
/// configuration allows them in the DHT.
pub fn discovery_settings(allow_non_globals_in_dht: bool) -> (settings: DiscoverySettings)
    ensures
        settings == (DiscoverySettings {
            role: DiscoveryRole::Discover,
            publish_non_global_ips: allow_non_globals_in_dht,
            strict_record_validation: true,
        }),
{
    DiscoverySettings {
        role: DiscoveryRole::Discover,
        publish_non_global_ips: allow_non_globals_in_dht,
        strict_record_validation: true,
    }
}

/// Whether an event of the peer network is handed to the discovery worker.
/// Only events of the DHT are.
pub fn feeds_discovery(kind: NetworkEventKind) -> (fed: bool)
    ensures
        fed == (kind is Dht),
{
    match kind {
        NetworkEventKind::Dht => true,
        _ => false,
    }
}

} // verus!
