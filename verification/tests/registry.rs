use sampwatch::hooks::{all_kinds, hook_offset, kinds_sharing_address, plan_install, DispatchStep,
    EventKind, HookError, HookRegistry, InterceptFault};
use sampwatch::layout::Layout;

const BASE: usize = 0x40_0000;

fn count_callback(steps: &[DispatchStep], cb: u64) -> usize {
    steps.iter().filter(|s| **s == DispatchStep::RunCallback(cb)).count()
}

fn count_original(steps: &[DispatchStep]) -> usize {
    steps.iter().filter(|s| **s == DispatchStep::RunOriginal).count()
}

#[test]
fn install_stores_the_callback_for_its_kind_only() {
    let mut reg = HookRegistry::new();
    let target = plan_install(BASE, Layout::V037, EventKind::NetSessionDestroyed).unwrap();
    assert_eq!(target, BASE + 0x9380);
    assert_eq!(reg.install(EventKind::NetSessionDestroyed, 1, target, Ok(())), Ok(()));

    let plan = reg.trigger(EventKind::NetSessionDestroyed);
    assert_eq!(count_callback(&plan, 1), 1);
    assert!(reg.trigger(EventKind::Banned).is_empty());
}

#[test]
fn second_install_replaces_the_first_callback() {
    let mut reg = HookRegistry::new();
    let kind = EventKind::NetSessionConnected;
    let target = plan_install(BASE, Layout::V037R3, kind).unwrap();
    assert_eq!(reg.install(kind, 1, target, Ok(())), Ok(()));
    assert_eq!(reg.install(kind, 2, target, Ok(())), Ok(()));

    let plan = reg.trigger(kind);
    assert_eq!(count_callback(&plan, 2), 1);
    assert_eq!(count_callback(&plan, 1), 0);
}

#[test]
fn dispatch_runs_callback_then_original_for_ordinary_kinds() {
    let mut reg = HookRegistry::new();
    for kind in [
        EventKind::NetSessionDestroyed,
        EventKind::NetSessionReconnecting,
        EventKind::NetSessionConnected,
        EventKind::NetSessionClosed,
        EventKind::ServerFull,
        EventKind::WrongPassword,
        EventKind::Banned,
    ] {
        reg.install(kind, 9, 0x1234, Ok(())).unwrap();
        let plan = reg.trigger(kind);
        assert_eq!(plan.len(), 2);
        assert_eq!(plan[0], DispatchStep::RunCallback(9));
        assert_eq!(plan[1], DispatchStep::RunOriginal);
        assert_eq!(count_callback(&plan, 9), 1);
        assert_eq!(count_original(&plan), 1);
    }
}

#[test]
fn dispatch_runs_original_then_callback_for_connection_rejection() {
    let mut reg = HookRegistry::new();
    let kind = EventKind::ConnectionRejected;
    reg.install(kind, 9, 0x1234, Ok(())).unwrap();
    let plan = reg.trigger(kind);
    assert_eq!(plan.len(), 2);
    assert_eq!(plan[0], DispatchStep::RunOriginal);
    assert_eq!(plan[1], DispatchStep::RunCallback(9));
}

#[test]
fn trigger_of_an_uninstalled_event_dispatches_nothing() {
    let reg = HookRegistry::new();
    for kind in all_kinds() {
        assert!(reg.trigger(kind).is_empty());
    }
}

#[test]
fn failed_install_surfaces_its_fault_and_changes_nothing() {
    let mut reg = HookRegistry::new();
    let kind = EventKind::ServerFull;
    assert_eq!(
        reg.install(kind, 1, 0x1000, Err(InterceptFault::PageProtection)),
        Err(HookError::PageProtection)
    );
    assert_eq!(
        reg.install(kind, 1, 0x1000, Err(InterceptFault::SignatureRejected)),
        Err(HookError::SignatureRejected)
    );
    assert!(reg.trigger(kind).is_empty());
}

#[test]
fn plan_install_reports_an_unformable_address() {
    assert_eq!(
        plan_install(usize::MAX, Layout::V037, EventKind::Banned),
        Err(HookError::AddressUnavailable)
    );
}

#[test]
fn shared_provisional_addresses_are_surfaced() {
    let shared = kinds_sharing_address(Layout::V037, EventKind::NetSessionClosed);
    assert_eq!(shared.len(), 4);
    assert!(shared.contains(&EventKind::ServerFull));
    assert!(shared.contains(&EventKind::WrongPassword));
    assert!(shared.contains(&EventKind::Banned));
    assert!(shared.contains(&EventKind::ConnectionRejected));
    assert!(!shared.contains(&EventKind::NetSessionClosed));

    assert!(kinds_sharing_address(Layout::V037R3, EventKind::NetSessionClosed).is_empty());
}

#[test]
fn hook_offsets_differ_per_layout() {
    assert_eq!(hook_offset(Layout::V037, EventKind::NetSessionDestroyed), 0x9380);
    assert_eq!(hook_offset(Layout::V037R3, EventKind::NetSessionDestroyed), 0x9510);
    assert_eq!(hook_offset(Layout::V03Dl, EventKind::NetSessionDestroyed), 0x9570);
    assert_eq!(hook_offset(Layout::V037R3, EventKind::ConnectionRejected), 0x10200);
}
