use relay_chain_minimal_node::bridge::{bridge_plan, BridgePlan, CallSite, RuntimeFlavor};
use relay_chain_minimal_node::discovery::{
    discovery_settings, feeds_discovery, DiscoveryRole, DiscoverySettings, NetworkEventKind,
};
use relay_chain_minimal_node::primitives::BlockHash;

fn site(runtime: Option<RuntimeFlavor>, inside_driving_loop: bool) -> CallSite {
    CallSite { runtime, inside_driving_loop }
}

#[test]
fn blocking_is_allowed_on_a_multi_threaded_runtime_only() {
    assert_eq!(
        bridge_plan(site(Some(RuntimeFlavor::MultiThread), false)),
        BridgePlan::BlockInPlace
    );
    assert_eq!(
        bridge_plan(site(Some(RuntimeFlavor::CurrentThread), false)),
        BridgePlan::RefuseSingleThreaded
    );
    assert_eq!(bridge_plan(site(None, false)), BridgePlan::RefuseOutsideRuntime);
}

#[test]
fn blocking_is_refused_on_the_task_of_the_driving_loop() {
    assert_eq!(
        bridge_plan(site(Some(RuntimeFlavor::MultiThread), true)),
        BridgePlan::RefuseInsideDrivingLoop
    );
    assert_eq!(
        bridge_plan(site(Some(RuntimeFlavor::CurrentThread), true)),
        BridgePlan::RefuseInsideDrivingLoop
    );
    assert_eq!(bridge_plan(site(None, true)), BridgePlan::RefuseOutsideRuntime);
}

#[test]
fn discovery_only_discovers_and_validates_strictly() {
    assert_eq!(
        discovery_settings(false),
        DiscoverySettings {
            role: DiscoveryRole::Discover,
            publish_non_global_ips: false,
            strict_record_validation: true,
        }
    );
    assert_eq!(
        discovery_settings(true),
        DiscoverySettings {
            role: DiscoveryRole::Discover,
            publish_non_global_ips: true,
            strict_record_validation: true,
        }
    );
}

#[test]
fn only_dht_events_feed_discovery() {
    assert!(feeds_discovery(NetworkEventKind::Dht));
    for kind in [
        NetworkEventKind::SyncConnected,
        NetworkEventKind::SyncDisconnected,
        NetworkEventKind::NotificationStreamOpened,
        NetworkEventKind::NotificationStreamClosed,
        NetworkEventKind::NotificationsReceived,
    ] {
        assert!(!feeds_discovery(kind));
    }
}

#[test]
fn zero_hash_is_all_zero_bytes() {
    assert_eq!(BlockHash::zero().bytes, [0u8; 32]);
}

#[test]
fn a_hash_keeps_its_bytes() {
    let mut bytes = [0u8; 32];
    for (i, byte) in bytes.iter_mut().enumerate() {
        *byte = i as u8;
    }
    assert_eq!(BlockHash::from_bytes(bytes).bytes, bytes);
}

/// Waits for `future` on the runtime of the calling thread, if the thread
/// may block there.
fn block_local<T>(future: impl std::future::Future<Output = T>) -> Option<T> {
    let handle = tokio::runtime::Handle::try_current().ok();
    let flavor = handle.as_ref().map(|handle| match handle.runtime_flavor() {
        tokio::runtime::RuntimeFlavor::CurrentThread => RuntimeFlavor::CurrentThread,
        _ => RuntimeFlavor::MultiThread,
    });
    match (bridge_plan(site(flavor, false)), handle) {
        (BridgePlan::BlockInPlace, Some(handle)) => {
            Some(tokio::task::block_in_place(|| handle.block_on(future)))
        },
        _ => None,
    }
}

#[test]
fn two_callers_block_at_once_without_deadlock() {
    let runtime = tokio::runtime::Builder::new_multi_thread().worker_threads(2).build().unwrap();
    let (first_sender, first_receiver) = futures::channel::oneshot::channel::<u32>();
    let (second_sender, second_receiver) = futures::channel::oneshot::channel::<u32>();
    let first = runtime.spawn(async move { block_local(first_receiver) });
    let second = runtime.spawn(async move { block_local(second_receiver) });
    let answers = runtime.spawn(async move {
        tokio::task::yield_now().await;
        second_sender.send(2).unwrap();
        first_sender.send(1).unwrap();
    });
    runtime.block_on(answers).unwrap();
    assert_eq!(runtime.block_on(first).unwrap(), Some(Ok(1)));
    assert_eq!(runtime.block_on(second).unwrap(), Some(Ok(2)));
}

#[test]
fn the_bridge_refuses_to_block_a_single_threaded_runtime() {
    let runtime = tokio::runtime::Builder::new_current_thread().build().unwrap();
    let refused = runtime.block_on(async { block_local(async { 1u32 }) });
    assert_eq!(refused, None);
}

#[test]
fn the_bridge_refuses_to_block_outside_a_runtime() {
    assert_eq!(block_local(async { 1u32 }), None);
}
