//! The ownership tree of the renderer's GPU objects: which object needs which,
//! in what order they are created, rebuilt and torn down, and a ledger that
//! refuses an operation that would break the order.

use vstd::prelude::*;
use crate::lifecycle_laws::{
    lemma_all_kinds_complete, lemma_create, lemma_destroy, lemma_init_accepted,
    lemma_teardown_accepted,
};

verus! {

/// The groups of GPU objects the renderer owns.
#[derive(Clone, Copy, Debug, PartialEq, Eq, Structural)]
pub enum ResourceKind {
    Instance,
    DebugMessenger,
    Surface,
    Device,
    Swapchain,
    ImageViews,
    RenderPass,
    PipelineLayout,
    Pipeline,
    Framebuffers,
    CommandPool,
    VertexBuffer,
    VertexBufferMemory,
    CommandBuffers,
    ImageAvailableSemaphores,
    RenderFinishedSemaphores,
    InFlightFences,
}

/// One step in the life of the renderer's GPU objects.
#[derive(Clone, Copy, Debug, PartialEq, Eq, Structural)]
pub enum LifecycleOp {
    /// Create the objects of a kind.
    Create(ResourceKind),
    /// Destroy the objects of a kind.
    Destroy(ResourceKind),
    /// Hand work to the device; it may run until the next wait.
    Submit,
    /// Block until the device has finished all work handed to it.
    WaitIdle,
}

/// Why the ledger refuses an operation.
#[derive(Clone, Copy, Debug, PartialEq, Eq, Structural)]
pub enum LedgerError {
    /// The kind to create is live already.
    AlreadyLive,
    /// A kind that the new objects need is not live.
    MissingDependency,
    /// The kind to destroy is not live.
    NotLive,
    /// The device may still be working.
    DeviceBusy,
    /// Live objects still need the kind to destroy.
    StillInUse,
    /// There is no device to hand work to or to wait for.
    NoDevice,
}

/// `child` objects are built from, or refer to, `parent` objects: the parent
/// has to exist first and has to outlive the child.
pub open spec fn depends_on(child: ResourceKind, parent: ResourceKind) -> bool {
    match child {
        ResourceKind::Instance => false,
        ResourceKind::DebugMessenger => parent == ResourceKind::Instance,
        ResourceKind::Surface => parent == ResourceKind::Instance,
        ResourceKind::Device => parent == ResourceKind::Instance,
        ResourceKind::Swapchain => parent == ResourceKind::Device || parent
            == ResourceKind::Surface,
        ResourceKind::ImageViews => parent == ResourceKind::Device || parent
            == ResourceKind::Swapchain,
        ResourceKind::RenderPass => parent == ResourceKind::Device,
        ResourceKind::PipelineLayout => parent == ResourceKind::Device,
        ResourceKind::Pipeline => parent == ResourceKind::Device || parent
            == ResourceKind::PipelineLayout || parent == ResourceKind::RenderPass,
        ResourceKind::Framebuffers => parent == ResourceKind::Device || parent
            == ResourceKind::RenderPass || parent == ResourceKind::ImageViews,
        ResourceKind::CommandPool => parent == ResourceKind::Device,
        ResourceKind::VertexBuffer => parent == ResourceKind::Device,
        ResourceKind::VertexBufferMemory => parent == ResourceKind::Device || parent
            == ResourceKind::VertexBuffer,
        ResourceKind::CommandBuffers => parent == ResourceKind::CommandPool || parent
            == ResourceKind::Pipeline || parent == ResourceKind::Framebuffers || parent
            == ResourceKind::RenderPass || parent == ResourceKind::VertexBuffer,
        ResourceKind::ImageAvailableSemaphores => parent == ResourceKind::Device,
        ResourceKind::RenderFinishedSemaphores => parent == ResourceKind::Device,
        ResourceKind::InFlightFences => parent == ResourceKind::Device,
    }
}

/// The kinds that live and die with one swapchain.
pub open spec fn swapchain_scoped(kind: ResourceKind) -> bool {
    kind == ResourceKind::Swapchain || kind == ResourceKind::ImageViews || kind
        == ResourceKind::RenderPass || kind == ResourceKind::PipelineLayout || kind
        == ResourceKind::Pipeline || kind == ResourceKind::Framebuffers || kind
        == ResourceKind::CommandBuffers
}

/// The mathematical state of a ledger: the live kinds in the order they were
/// created, and whether the device may be working.
pub struct LedgerState {
    pub created: Seq<ResourceKind>,
    pub busy: bool,
}

impl LedgerState {
    /// Nothing is live.
    pub open spec fn empty() -> LedgerState {
        LedgerState { created: Seq::empty(), busy: false }
    }

    pub open spec fn live(self, kind: ResourceKind) -> bool {
        self.created.contains(kind)
    }

    /// Everything `kind` needs is live.
    pub open spec fn dependencies_live(self, kind: ResourceKind) -> bool {
        forall|parent: ResourceKind| #[trigger] depends_on(kind, parent) ==> self.live(parent)
    }

    /// Nothing live needs `kind`.
    pub open spec fn unused(self, kind: ResourceKind) -> bool {
        forall|child: ResourceKind| self.live(child) ==> !#[trigger] depends_on(child, kind)
    }

    pub open spec fn can_create(self, kind: ResourceKind) -> bool {
        !self.live(kind) && self.dependencies_live(kind)
    }

    pub open spec fn can_destroy(self, kind: ResourceKind) -> bool {
        self.live(kind) && !self.busy && self.unused(kind)
    }

    /// The state after `op`, or why `op` is refused.
    pub open spec fn apply(self, op: LifecycleOp) -> Result<LedgerState, LedgerError> {
        match op {
            LifecycleOp::Create(kind) => {
                if self.live(kind) {
                    Err(LedgerError::AlreadyLive)
                } else if !self.dependencies_live(kind) {
                    Err(LedgerError::MissingDependency)
                } else {
                    Ok(LedgerState { created: self.created.push(kind), ..self })
                }
            },
            LifecycleOp::Destroy(kind) => {
                if !self.live(kind) {
                    Err(LedgerError::NotLive)
                } else if self.busy {
                    Err(LedgerError::DeviceBusy)
                } else if !self.unused(kind) {
                    Err(LedgerError::StillInUse)
                } else {
                    Ok(
                        LedgerState {
                            created: self.created.remove(self.created.index_of(kind)),
                            ..self
                        },
                    )
                }
            },
            LifecycleOp::Submit => {
                if self.live(ResourceKind::Device) {
                    Ok(LedgerState { busy: true, ..self })
                } else {
                    Err(LedgerError::NoDevice)
                }
            },
            LifecycleOp::WaitIdle => {
                if self.live(ResourceKind::Device) {
                    Ok(LedgerState { busy: false, ..self })
                } else {
                    Err(LedgerError::NoDevice)
                }
            },
        }
    }

    /// The state after all of `ops`, or the first refusal.
    pub open spec fn run(self, ops: Seq<LifecycleOp>) -> Result<LedgerState, LedgerError>
        decreases ops.len(),
    {
        if ops.len() == 0 {
            Ok(self)
        } else {
            match self.apply(ops.first()) {
                Ok(next) => next.run(ops.drop_first()),
                Err(error) => Err(error),
            }
        }
    }

    /// The state in which running `ops` stops: after all of them, or before
    /// the first that is refused.
    pub open spec fn run_until_refused(self, ops: Seq<LifecycleOp>) -> LedgerState
        decreases ops.len(),
    {
        if ops.len() == 0 {
            self
        } else {
            match self.apply(ops.first()) {
                Ok(next) => next.run_until_refused(ops.drop_first()),
                Err(_) => self,
            }
        }
    }

    /// What every state reached through accepted operations satisfies: no kind
    /// is live twice, no live kind needs itself or one created after it,
    /// everything a live kind needs is live, and only a device can be busy.
    pub open spec fn ordered(self) -> bool {
        &&& self.created.no_duplicates()
        &&& forall|i: int, j: int|
            0 <= i <= j < self.created.len() ==> !#[trigger] depends_on(
                self.created[i],
                self.created[j],
            )
        &&& forall|kind: ResourceKind| self.live(kind) ==> #[trigger] self.dependencies_live(kind)
        &&& self.busy ==> self.live(ResourceKind::Device)
    }

    /// The operations that take everything down: a wait for the device where
    /// there is one, then every live kind in reverse order of creation.
    pub open spec fn teardown_ops(self) -> Seq<LifecycleOp> {
        let wait = if self.live(ResourceKind::Device) {
            seq![LifecycleOp::WaitIdle]
        } else {
            Seq::empty()
        };
        wait + reverse_destroys(self.created)
    }
}

/// Destroying `created` from its last element to its first.
pub open spec fn reverse_destroys(created: Seq<ResourceKind>) -> Seq<LifecycleOp> {
    Seq::new(created.len(), |i: int| LifecycleOp::Destroy(created[created.len() - 1 - i]))
}

/// The operations of a rebuild: drain the device, take down what hangs off the
/// swapchain from the newest kind to the swapchain itself, then build it up
/// again from the swapchain on.
pub open spec fn rebuild_ops() -> Seq<LifecycleOp> {
    seq![
        LifecycleOp::WaitIdle,
        LifecycleOp::Destroy(ResourceKind::CommandBuffers),
        LifecycleOp::Destroy(ResourceKind::Framebuffers),
        LifecycleOp::Destroy(ResourceKind::Pipeline),
        LifecycleOp::Destroy(ResourceKind::PipelineLayout),
        LifecycleOp::Destroy(ResourceKind::RenderPass),
        LifecycleOp::Destroy(ResourceKind::ImageViews),
        LifecycleOp::Destroy(ResourceKind::Swapchain),
        LifecycleOp::Create(ResourceKind::Swapchain),
        LifecycleOp::Create(ResourceKind::ImageViews),
        LifecycleOp::Create(ResourceKind::RenderPass),
        LifecycleOp::Create(ResourceKind::PipelineLayout),
        LifecycleOp::Create(ResourceKind::Pipeline),
        LifecycleOp::Create(ResourceKind::Framebuffers),
        LifecycleOp::Create(ResourceKind::CommandBuffers),
    ]
}

/// The kinds the renderer creates at start-up, in order. The debug messenger
/// exists only with validation.
pub open spec fn init_order(validation: bool) -> Seq<ResourceKind> {
    let head = if validation {
        seq![ResourceKind::Instance, ResourceKind::DebugMessenger]
    } else {
        seq![ResourceKind::Instance]
    };
    head + seq![
        ResourceKind::Surface,
        ResourceKind::Device,
        ResourceKind::Swapchain,
        ResourceKind::ImageViews,
        ResourceKind::RenderPass,
        ResourceKind::PipelineLayout,
        ResourceKind::Pipeline,
        ResourceKind::Framebuffers,
        ResourceKind::CommandPool,
        ResourceKind::VertexBuffer,
        ResourceKind::VertexBufferMemory,
        ResourceKind::CommandBuffers,
        ResourceKind::ImageAvailableSemaphores,
        ResourceKind::RenderFinishedSemaphores,
        ResourceKind::InFlightFences,
    ]
}

/// Creating `kinds` one after the other.
pub open spec fn creations(kinds: Seq<ResourceKind>) -> Seq<LifecycleOp> {
    Seq::new(kinds.len(), |i: int| LifecycleOp::Create(kinds[i]))
}

/// The operations of start-up.
pub open spec fn init_ops(validation: bool) -> Seq<LifecycleOp> {
    creations(init_order(validation))
}

/// Every kind, once.
pub open spec fn all_kinds_spec() -> Seq<ResourceKind> {
    seq![
        ResourceKind::Instance,
        ResourceKind::DebugMessenger,
        ResourceKind::Surface,
        ResourceKind::Device,
        ResourceKind::Swapchain,
        ResourceKind::ImageViews,
        ResourceKind::RenderPass,
        ResourceKind::PipelineLayout,
        ResourceKind::Pipeline,
        ResourceKind::Framebuffers,
        ResourceKind::CommandPool,
        ResourceKind::VertexBuffer,
        ResourceKind::VertexBufferMemory,
        ResourceKind::CommandBuffers,
        ResourceKind::ImageAvailableSemaphores,
        ResourceKind::RenderFinishedSemaphores,
        ResourceKind::InFlightFences,
    ]
}

/// Every kind, once.
pub fn all_kinds() -> (kinds: Vec<ResourceKind>)
    ensures
        kinds@ == all_kinds_spec(),
{
    let kinds = vec![
        ResourceKind::Instance,
        ResourceKind::DebugMessenger,
        ResourceKind::Surface,
        ResourceKind::Device,
        ResourceKind::Swapchain,
        ResourceKind::ImageViews,
        ResourceKind::RenderPass,
        ResourceKind::PipelineLayout,
        ResourceKind::Pipeline,
        ResourceKind::Framebuffers,
        ResourceKind::CommandPool,
        ResourceKind::VertexBuffer,
        ResourceKind::VertexBufferMemory,
        ResourceKind::CommandBuffers,
        ResourceKind::ImageAvailableSemaphores,
        ResourceKind::RenderFinishedSemaphores,
        ResourceKind::InFlightFences,
    ];
    assert(kinds@ =~= all_kinds_spec());
    kinds
}

/// Whether `child` objects need `parent` objects.
pub fn kind_depends_on(child: ResourceKind, parent: ResourceKind) -> (needed: bool)
    ensures
        needed == depends_on(child, parent),
{
    match child {
        ResourceKind::Instance => false,
        ResourceKind::DebugMessenger => parent == ResourceKind::Instance,
        ResourceKind::Surface => parent == ResourceKind::Instance,
        ResourceKind::Device => parent == ResourceKind::Instance,
        ResourceKind::Swapchain => parent == ResourceKind::Device || parent
            == ResourceKind::Surface,
        ResourceKind::ImageViews => parent == ResourceKind::Device || parent
            == ResourceKind::Swapchain,
        ResourceKind::RenderPass => parent == ResourceKind::Device,
        ResourceKind::PipelineLayout => parent == ResourceKind::Device,
        ResourceKind::Pipeline => parent == ResourceKind::Device || parent
            == ResourceKind::PipelineLayout || parent == ResourceKind::RenderPass,
        ResourceKind::Framebuffers => parent == ResourceKind::Device || parent
            == ResourceKind::RenderPass || parent == ResourceKind::ImageViews,
        ResourceKind::CommandPool => parent == ResourceKind::Device,
        ResourceKind::VertexBuffer => parent == ResourceKind::Device,
        ResourceKind::VertexBufferMemory => parent == ResourceKind::Device || parent
            == ResourceKind::VertexBuffer,
        ResourceKind::CommandBuffers => parent == ResourceKind::CommandPool || parent
            == ResourceKind::Pipeline || parent == ResourceKind::Framebuffers || parent
            == ResourceKind::RenderPass || parent == ResourceKind::VertexBuffer,
        ResourceKind::ImageAvailableSemaphores => parent == ResourceKind::Device,
        ResourceKind::RenderFinishedSemaphores => parent == ResourceKind::Device,
        ResourceKind::InFlightFences => parent == ResourceKind::Device,
    }
}

/// Whether `kind` lives and dies with one swapchain.
pub fn is_swapchain_scoped(kind: ResourceKind) -> (scoped: bool)
    ensures
        scoped == swapchain_scoped(kind),
{
    match kind {
        ResourceKind::Swapchain => true,
        ResourceKind::ImageViews => true,
        ResourceKind::RenderPass => true,
        ResourceKind::PipelineLayout => true,
        ResourceKind::Pipeline => true,
        ResourceKind::Framebuffers => true,
        ResourceKind::CommandBuffers => true,
        _ => false,
    }
}

/// The operations of a rebuild, in order.
pub fn rebuild_sequence() -> (ops: Vec<LifecycleOp>)
    ensures
        ops@ == rebuild_ops(),
{
    let ops = vec![
        LifecycleOp::WaitIdle,
        LifecycleOp::Destroy(ResourceKind::CommandBuffers),
        LifecycleOp::Destroy(ResourceKind::Framebuffers),
        LifecycleOp::Destroy(ResourceKind::Pipeline),
        LifecycleOp::Destroy(ResourceKind::PipelineLayout),
        LifecycleOp::Destroy(ResourceKind::RenderPass),
        LifecycleOp::Destroy(ResourceKind::ImageViews),
        LifecycleOp::Destroy(ResourceKind::Swapchain),
        LifecycleOp::Create(ResourceKind::Swapchain),
        LifecycleOp::Create(ResourceKind::ImageViews),
        LifecycleOp::Create(ResourceKind::RenderPass),
        LifecycleOp::Create(ResourceKind::PipelineLayout),
        LifecycleOp::Create(ResourceKind::Pipeline),
        LifecycleOp::Create(ResourceKind::Framebuffers),
        LifecycleOp::Create(ResourceKind::CommandBuffers),
    ];
    assert(ops@ =~= rebuild_ops());
    ops
}

/// The operations of start-up, in order; the debug messenger is created only
/// with validation.
pub fn init_sequence(validation: bool) -> (ops: Vec<LifecycleOp>)
    ensures
        ops@ == init_ops(validation),
{
    let mut ops: Vec<LifecycleOp> = Vec::new();
    ops.push(LifecycleOp::Create(ResourceKind::Instance));
    if validation {
        ops.push(LifecycleOp::Create(ResourceKind::DebugMessenger));
    }
    ops.push(LifecycleOp::Create(ResourceKind::Surface));
    ops.push(LifecycleOp::Create(ResourceKind::Device));
    ops.push(LifecycleOp::Create(ResourceKind::Swapchain));
    ops.push(LifecycleOp::Create(ResourceKind::ImageViews));
    ops.push(LifecycleOp::Create(ResourceKind::RenderPass));
    ops.push(LifecycleOp::Create(ResourceKind::PipelineLayout));
    ops.push(LifecycleOp::Create(ResourceKind::Pipeline));
    ops.push(LifecycleOp::Create(ResourceKind::Framebuffers));
    ops.push(LifecycleOp::Create(ResourceKind::CommandPool));
    ops.push(LifecycleOp::Create(ResourceKind::VertexBuffer));
    ops.push(LifecycleOp::Create(ResourceKind::VertexBufferMemory));
    ops.push(LifecycleOp::Create(ResourceKind::CommandBuffers));
    ops.push(LifecycleOp::Create(ResourceKind::ImageAvailableSemaphores));
    ops.push(LifecycleOp::Create(ResourceKind::RenderFinishedSemaphores));
    ops.push(LifecycleOp::Create(ResourceKind::InFlightFences));
    assert(ops@ =~= init_ops(validation));
    ops
}

/// Keeps track of which kinds of GPU objects are live and refuses operations
/// that would create an object before what it needs, destroy one that is
/// still needed, or destroy anything while the device may be working.
pub struct Ledger {
    created: Vec<ResourceKind>,
    busy: bool,
}

impl View for Ledger {
    type V = LedgerState;

    closed spec fn view(&self) -> LedgerState {
        LedgerState { created: self.created@, busy: self.busy }
    }
}

impl Ledger {
    #[verifier::type_invariant]
    spec fn keeps_order(self) -> bool {
        self@.ordered()
    }

    /// A ledger on which nothing is live.
    pub fn new() -> (ledger: Ledger)
        ensures
            ledger@ == LedgerState::empty(),
    {
        let ledger = Ledger { created: Vec::new(), busy: false };
        assert(ledger@.created =~= Seq::<ResourceKind>::empty());
        ledger
    }

    /// The ledger after start-up: every kind is live, the debug messenger only
    /// with validation, in the order of creation.
    pub fn initialized(validation: bool) -> (ledger: Ledger)
        ensures
            ledger@ == (LedgerState { created: init_order(validation), busy: false }),
            LedgerState::empty().run(init_ops(validation)) == Ok::<LedgerState, LedgerError>(
                ledger@,
            ),
            ledger@.ordered(),
    {
        let mut created: Vec<ResourceKind> = Vec::new();
        created.push(ResourceKind::Instance);
        if validation {
            created.push(ResourceKind::DebugMessenger);
        }
        created.push(ResourceKind::Surface);
        created.push(ResourceKind::Device);
        created.push(ResourceKind::Swapchain);
        created.push(ResourceKind::ImageViews);
        created.push(ResourceKind::RenderPass);
        created.push(ResourceKind::PipelineLayout);
        created.push(ResourceKind::Pipeline);
        created.push(ResourceKind::Framebuffers);
        created.push(ResourceKind::CommandPool);
        created.push(ResourceKind::VertexBuffer);
        created.push(ResourceKind::VertexBufferMemory);
        created.push(ResourceKind::CommandBuffers);
        created.push(ResourceKind::ImageAvailableSemaphores);
        created.push(ResourceKind::RenderFinishedSemaphores);
        created.push(ResourceKind::InFlightFences);
        proof {
            assert(created@ =~= init_order(validation));
            lemma_init_accepted(validation);
        }
        Ledger { created, busy: false }
    }

    /// Records `ops` one after the other up to the first that is refused.
    pub fn run(&mut self, ops: &[LifecycleOp]) -> (outcome: Result<(), LedgerError>)
        ensures
            old(self)@.run(ops@) matches Ok(next) ==> outcome is Ok && final(self)@ == next,
            old(self)@.run(ops@) matches Err(error) ==> outcome == Err::<(), LedgerError>(error),
            final(self)@ == old(self)@.run_until_refused(ops@),
            final(self)@.ordered(),
    {
        proof {
            use_type_invariant(&*self);
        }
        let mut i: usize = 0;
        assert(ops@.skip(0) =~= ops@);
        while i < ops.len()
            invariant
                i <= ops@.len(),
                old(self)@.run(ops@) == self@.run(ops@.skip(i as int)),
                old(self)@.run_until_refused(ops@) == self@.run_until_refused(
                    ops@.skip(i as int),
                ),
                self@.ordered(),
            decreases ops@.len() - i,
        {
            proof {
                assert(ops@.skip(i as int).first() == ops@[i as int]);
                assert(ops@.skip(i as int).drop_first() =~= ops@.skip(i + 1));
            }
            match self.apply(ops[i]) {
                Ok(()) => {},
                Err(error) => {
                    return Err(error);
                },
            }
            i += 1;
        }
        Ok(())
    }

    /// Whether objects of `kind` are live.
    pub fn is_live(&self, kind: ResourceKind) -> (live: bool)
        ensures
            live == self@.live(kind),
    {
        let mut i: usize = 0;
        while i < self.created.len()
            invariant
                i <= self.created@.len(),
                forall|j: int| 0 <= j < i ==> self.created@[j] != kind,
            decreases self.created@.len() - i,
        {
            if self.created[i] == kind {
                return true;
            }
            i += 1;
        }
        false
    }

    /// Whether the device may still be working.
    pub fn is_busy(&self) -> (busy: bool)
        ensures
            busy == self@.busy,
    {
        self.busy
    }

    /// The live kinds in the order they were created.
    pub fn created(&self) -> (kinds: Vec<ResourceKind>)
        ensures
            kinds@ == self@.created,
            self@.ordered(),
    {
        proof {
            use_type_invariant(self);
        }
        let mut kinds: Vec<ResourceKind> = Vec::new();
        let mut i: usize = 0;
        while i < self.created.len()
            invariant
                i <= self.created@.len(),
                kinds@ == self.created@.take(i as int),
            decreases self.created@.len() - i,
        {
            kinds.push(self.created[i]);
            assert(self.created@.take(i as int).push(self.created@[i as int])
                =~= self.created@.take(i + 1));
            i += 1;
        }
        assert(self.created@.take(self.created@.len() as int) =~= self.created@);
        kinds
    }

    fn has_dependencies(&self, kind: ResourceKind) -> (complete: bool)
        ensures
            complete == self@.dependencies_live(kind),
    {
        let all = all_kinds();
        let mut i: usize = 0;
        while i < all.len()
            invariant
                all@ == all_kinds_spec(),
                i <= all@.len(),
                forall|j: int| 0 <= j < i && depends_on(kind, all@[j]) ==> self@.live(all@[j]),
            decreases all@.len() - i,
        {
            if kind_depends_on(kind, all[i]) && !self.is_live(all[i]) {
                return false;
            }
            i += 1;
        }
        proof {
            assert forall|parent: ResourceKind| #[trigger] depends_on(kind, parent) implies self@.live(
                parent,
            ) by {
                lemma_all_kinds_complete(parent);
                let j = all@.index_of(parent);
                assert(all@[j] == parent);
            }
        }
        true
    }

    fn is_unused(&self, kind: ResourceKind) -> (unused: bool)
        ensures
            unused == self@.unused(kind),
    {
        let mut i: usize = 0;
        while i < self.created.len()
            invariant
                i <= self.created@.len(),
                forall|j: int| 0 <= j < i ==> !depends_on(self.created@[j], kind),
            decreases self.created@.len() - i,
        {
            if kind_depends_on(self.created[i], kind) {
                assert(self@.live(self.created@[i as int]));
                return false;
            }
            i += 1;
        }
        proof {
            assert forall|child: ResourceKind| self@.live(child) implies !#[trigger] depends_on(
                child,
                kind,
            ) by {
                let j = self.created@.index_of(child);
                assert(self.created@[j] == child);
            }
        }
        true
    }

    /// Records `op` if the ownership order allows it, and refuses it otherwise,
    /// leaving the ledger as it was.
    pub fn apply(&mut self, op: LifecycleOp) -> (outcome: Result<(), LedgerError>)
        ensures
            match old(self)@.apply(op) {
                Ok(next) => outcome is Ok && final(self)@ == next,
                Err(error) => outcome == Err::<(), LedgerError>(error) && final(self)@ == old(
                    self,
                )@,
            },
            final(self)@.ordered(),
    {
        proof {
            use_type_invariant(&*self);
        }
        match op {
            LifecycleOp::Create(kind) => {
                if self.is_live(kind) {
                    return Err(LedgerError::AlreadyLive);
                }
                if !self.has_dependencies(kind) {
                    return Err(LedgerError::MissingDependency);
                }
                proof {
                    lemma_create(self@, kind);
                }
                let mut next = self.created();
                next.push(kind);
                self.created = next;
                Ok(())
            },
            LifecycleOp::Destroy(kind) => {
                if !self.is_live(kind) {
                    return Err(LedgerError::NotLive);
                }
                if self.busy {
                    return Err(LedgerError::DeviceBusy);
                }
                if !self.is_unused(kind) {
                    return Err(LedgerError::StillInUse);
                }
                let count = self.created.len();
                let mut at: usize = 0;
                while self.created[at] != kind
                    invariant
                        count == self.created@.len(),
                        at < self.created@.len(),
                        self@.live(kind),
                        forall|j: int| 0 <= j < at ==> self.created@[j] != kind,
                    decreases self.created@.len() - at,
                {
                    proof {
                        let found = self.created@.index_of(kind);
                        assert(0 <= found < self.created@.len() && self.created@[found] == kind);
                        assert(found > at);
                    }
                    at += 1;
                }
                proof {
                    lemma_destroy(self@, kind);
                    assert(self.created@.index_of(kind) == at);
                }
                let mut next = self.created();
                next.remove(at);
                self.created = next;
                Ok(())
            },
            LifecycleOp::Submit => {
                if self.is_live(ResourceKind::Device) {
                    proof {
                        let state = self@;
                        let next = LedgerState { busy: true, ..state };
                        assert forall|kind: ResourceKind|
                            next.live(kind) implies #[trigger] next.dependencies_live(kind) by {
                            assert(state.dependencies_live(kind));
                        }
                        assert(next.ordered());
                    }
                    self.busy = true;
                    Ok(())
                } else {
                    Err(LedgerError::NoDevice)
                }
            },
            LifecycleOp::WaitIdle => {
                if self.is_live(ResourceKind::Device) {
                    proof {
                        let state = self@;
                        let next = LedgerState { busy: false, ..state };
                        assert forall|kind: ResourceKind|
                            next.live(kind) implies #[trigger] next.dependencies_live(kind) by {
                            assert(state.dependencies_live(kind));
                        }
                        assert(next.ordered());
                    }
                    self.busy = false;
                    Ok(())
                } else {
                    Err(LedgerError::NoDevice)
                }
            },
        }
    }

    /// The operations that take down everything that is live: a wait for the
    /// device where there is one, then every live kind in reverse order of
    /// creation. The ledger accepts them all.
    pub fn teardown(&self) -> (ops: Vec<LifecycleOp>)
        ensures
            ops@ == self@.teardown_ops(),
            self@.run(ops@) == Ok::<LedgerState, LedgerError>(LedgerState::empty()),
    {
        proof {
            use_type_invariant(self);
            lemma_teardown_accepted(self@);
        }
        let mut ops: Vec<LifecycleOp> = Vec::new();
        if self.is_live(ResourceKind::Device) {
            ops.push(LifecycleOp::WaitIdle);
        }
        let ghost wait = ops@;
        let count = self.created.len();
        let mut i: usize = 0;
        while i < count
            invariant
                count == self.created@.len(),
                i <= count,
                ops@ == wait + reverse_destroys(self.created@).take(i as int),
            decreases count - i,
        {
            ops.push(LifecycleOp::Destroy(self.created[count - 1 - i]));
            assert(reverse_destroys(self.created@).take(i as int).push(
                reverse_destroys(self.created@)[i as int],
            ) =~= reverse_destroys(self.created@).take(i + 1));
            i += 1;
        }
        assert(reverse_destroys(self.created@).take(count as int) =~= reverse_destroys(
            self.created@,
        ));
        ops
    }
}

} // verus!
