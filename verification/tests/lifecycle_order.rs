use potato::lifecycle::{
    all_kinds, init_sequence, is_swapchain_scoped, kind_depends_on, rebuild_sequence, Ledger,
    LedgerError, LifecycleOp, ResourceKind,
};

fn started(validation: bool) -> Ledger {
    let mut ledger = Ledger::new();
    assert_eq!(ledger.run(&init_sequence(validation)), Ok(()));
    ledger
}

#[test]
fn start_up_is_accepted_in_order() {
    let ledger = started(true);
    let created = ledger.created();
    assert_eq!(created.len(), 17);
    assert_eq!(created[0], ResourceKind::Instance);
    assert_eq!(created[1], ResourceKind::DebugMessenger);
    assert_eq!(created[16], ResourceKind::InFlightFences);
    for kind in all_kinds() {
        assert!(ledger.is_live(kind));
    }
    assert!(!ledger.is_busy());
    assert_eq!(Ledger::initialized(true).created(), created);
}

#[test]
fn there_is_no_debug_messenger_without_validation() {
    let ledger = started(false);
    assert_eq!(ledger.created().len(), 16);
    assert!(!ledger.is_live(ResourceKind::DebugMessenger));
    assert_eq!(Ledger::initialized(false).created(), ledger.created());
}

#[test]
fn teardown_is_the_reverse_of_creation_behind_a_wait() {
    let ledger = started(true);
    let ops = ledger.teardown();
    assert_eq!(ops.len(), 18);
    assert_eq!(ops[0], LifecycleOp::WaitIdle);
    let created = ledger.created();
    for (at, kind) in created.iter().rev().enumerate() {
        assert_eq!(ops[at + 1], LifecycleOp::Destroy(*kind));
    }
    assert_eq!(ops[17], LifecycleOp::Destroy(ResourceKind::Instance));
    assert_eq!(ops[16], LifecycleOp::Destroy(ResourceKind::DebugMessenger));
    assert_eq!(ops[14], LifecycleOp::Destroy(ResourceKind::Device));
    let mut ledger = ledger;
    assert_eq!(ledger.run(&ops), Ok(()));
    assert!(ledger.created().is_empty());
    assert!(Ledger::new().teardown().is_empty());
}

#[test]
fn teardown_never_destroys_what_is_still_needed() {
    let mut ledger = started(true);
    ledger.apply(LifecycleOp::Submit).unwrap();
    for op in ledger.teardown() {
        if let LifecycleOp::Destroy(kind) = op {
            assert!(!ledger.is_busy());
            for other in ledger.created() {
                assert!(!kind_depends_on(other, kind));
            }
        }
        assert_eq!(ledger.apply(op), Ok(()));
    }
    assert!(ledger.created().is_empty());
}

#[test]
fn rebuild_leaves_the_same_kinds_live() {
    let mut ledger = started(true);
    ledger.apply(LifecycleOp::Submit).unwrap();
    let ops = rebuild_sequence();
    assert_eq!(ops.len(), 15);
    assert_eq!(ops[0], LifecycleOp::WaitIdle);
    assert_eq!(ops[1], LifecycleOp::Destroy(ResourceKind::CommandBuffers));
    assert_eq!(ops[7], LifecycleOp::Destroy(ResourceKind::Swapchain));
    assert_eq!(ops[8], LifecycleOp::Create(ResourceKind::Swapchain));
    assert_eq!(ops[14], LifecycleOp::Create(ResourceKind::CommandBuffers));
    for round in 0..3 {
        assert_eq!(ledger.run(&ops), Ok(()), "rebuild {}", round);
        assert_eq!(ledger.created().len(), 17);
        for kind in all_kinds() {
            assert!(ledger.is_live(kind));
        }
        assert!(!ledger.is_busy());
    }
    let created = ledger.created();
    assert_eq!(created[16], ResourceKind::CommandBuffers);
    assert_eq!(created[10], ResourceKind::Swapchain);
    let teardown = ledger.teardown();
    assert_eq!(teardown[1], LifecycleOp::Destroy(ResourceKind::CommandBuffers));
    assert_eq!(ledger.run(&teardown), Ok(()));
    assert!(ledger.created().is_empty());
}

#[test]
fn destroys_and_creates_of_a_rebuild_pair_up() {
    let ops = rebuild_sequence();
    for kind in all_kinds() {
        let destroyed = ops.iter().filter(|op| **op == LifecycleOp::Destroy(kind)).count();
        let created = ops.iter().filter(|op| **op == LifecycleOp::Create(kind)).count();
        let expected = if is_swapchain_scoped(kind) { 1 } else { 0 };
        assert_eq!(destroyed, expected);
        assert_eq!(created, expected);
    }
}

#[test]
fn each_refusal_has_its_reason() {
    let mut ledger = Ledger::new();
    assert_eq!(ledger.apply(LifecycleOp::Submit), Err(LedgerError::NoDevice));
    assert_eq!(ledger.apply(LifecycleOp::WaitIdle), Err(LedgerError::NoDevice));
    assert_eq!(
        ledger.apply(LifecycleOp::Create(ResourceKind::Device)),
        Err(LedgerError::MissingDependency)
    );
    assert_eq!(
        ledger.apply(LifecycleOp::Destroy(ResourceKind::Instance)),
        Err(LedgerError::NotLive)
    );
    assert_eq!(ledger.apply(LifecycleOp::Create(ResourceKind::Instance)), Ok(()));
    assert_eq!(
        ledger.apply(LifecycleOp::Create(ResourceKind::Instance)),
        Err(LedgerError::AlreadyLive)
    );
    assert_eq!(ledger.apply(LifecycleOp::Create(ResourceKind::Device)), Ok(()));
    assert_eq!(
        ledger.apply(LifecycleOp::Destroy(ResourceKind::Instance)),
        Err(LedgerError::StillInUse)
    );
    assert_eq!(ledger.apply(LifecycleOp::Create(ResourceKind::RenderPass)), Ok(()));
    assert_eq!(ledger.apply(LifecycleOp::Submit), Ok(()));
    assert!(ledger.is_busy());
    assert_eq!(
        ledger.apply(LifecycleOp::Destroy(ResourceKind::RenderPass)),
        Err(LedgerError::DeviceBusy)
    );
    assert_eq!(ledger.created().len(), 3);
    assert_eq!(ledger.apply(LifecycleOp::WaitIdle), Ok(()));
    assert_eq!(ledger.apply(LifecycleOp::Destroy(ResourceKind::RenderPass)), Ok(()));
    assert_eq!(
        ledger.created(),
        vec![ResourceKind::Instance, ResourceKind::Device]
    );
}

#[test]
fn a_refused_sequence_stops_at_the_refusal() {
    let mut ledger = Ledger::new();
    let ops = [
        LifecycleOp::Create(ResourceKind::Instance),
        LifecycleOp::Create(ResourceKind::Swapchain),
        LifecycleOp::Create(ResourceKind::Device),
    ];
    assert_eq!(ledger.run(&ops), Err(LedgerError::MissingDependency));
    assert_eq!(ledger.created(), vec![ResourceKind::Instance]);
}

#[test]
fn dependencies_follow_the_ownership_tree() {
    assert!(kind_depends_on(ResourceKind::Swapchain, ResourceKind::Surface));
    assert!(kind_depends_on(ResourceKind::Swapchain, ResourceKind::Device));
    assert!(kind_depends_on(ResourceKind::Framebuffers, ResourceKind::ImageViews));
    assert!(kind_depends_on(ResourceKind::CommandBuffers, ResourceKind::CommandPool));
    assert!(kind_depends_on(ResourceKind::VertexBufferMemory, ResourceKind::VertexBuffer));
    assert!(!kind_depends_on(ResourceKind::Device, ResourceKind::Surface));
    for kind in all_kinds() {
        assert!(!kind_depends_on(kind, kind));
        assert!(!kind_depends_on(ResourceKind::Instance, kind));
    }
    assert!(is_swapchain_scoped(ResourceKind::Pipeline));
    assert!(!is_swapchain_scoped(ResourceKind::CommandPool));
    assert!(!is_swapchain_scoped(ResourceKind::InFlightFences));
}
