//! What holds of the ownership tree: start-up, rebuild and teardown are
//! accepted by the ledger, nothing is destroyed while it is needed or while
//! the device may be working, and nothing is left over.

use vstd::prelude::*;
use crate::lifecycle::{
    all_kinds_spec, creations, depends_on, init_ops, init_order, rebuild_ops, reverse_destroys,
    swapchain_scoped, LedgerError, LedgerState, LifecycleOp, ResourceKind,
};

verus! {

/// Nothing needs itself.
pub proof fn lemma_depends_on_irreflexive(kind: ResourceKind)
    ensures
        !depends_on(kind, kind),
{
}

/// An accepted creation adds exactly the created kind and keeps the state ordered.
pub proof fn lemma_create(state: LedgerState, kind: ResourceKind)
    requires
        state.can_create(kind),
    ensures
        state.apply(LifecycleOp::Create(kind)) is Ok,
        state.apply(LifecycleOp::Create(kind))->Ok_0.created == state.created.push(kind),
        state.apply(LifecycleOp::Create(kind))->Ok_0.busy == state.busy,
        forall|other: ResourceKind|
            #[trigger] state.apply(LifecycleOp::Create(kind))->Ok_0.live(other) <==> (state.live(
                other,
            ) || other == kind),
        state.ordered() ==> state.apply(LifecycleOp::Create(kind))->Ok_0.ordered(),
{
    let next = state.apply(LifecycleOp::Create(kind))->Ok_0;
    assert(next.created == state.created.push(kind));
    assert forall|other: ResourceKind| #[trigger] next.live(other) <==> (state.live(other) || other
        == kind) by {
        if state.live(other) {
            let i = state.created.index_of(other);
            assert(next.created[i] == other);
        }
        if other == kind {
            assert(next.created[state.created.len() as int] == kind);
        }
    }
    if state.ordered() {
        assert forall|i: int, j: int| 0 <= i <= j < next.created.len() implies !#[trigger] depends_on(
            next.created[i],
            next.created[j],
        ) by {
            if j == state.created.len() {
                if i == j {
                    lemma_depends_on_irreflexive(kind);
                } else {
                    assert(state.live(state.created[i]));
                    assert(state.dependencies_live(state.created[i]));
                }
            }
        }
        assert forall|other: ResourceKind| next.live(other) implies #[trigger] next.dependencies_live(
            other,
        ) by {
            if other != kind {
                assert(state.dependencies_live(other));
            }
        }
    }
}

/// An accepted destruction removes exactly the destroyed kind and keeps the
/// state ordered.
pub proof fn lemma_destroy(state: LedgerState, kind: ResourceKind)
    requires
        state.can_destroy(kind),
        state.created.no_duplicates(),
    ensures
        state.apply(LifecycleOp::Destroy(kind)) is Ok,
        state.apply(LifecycleOp::Destroy(kind))->Ok_0.busy == state.busy,
        forall|other: ResourceKind|
            #[trigger] state.apply(LifecycleOp::Destroy(kind))->Ok_0.live(other) <==> (state.live(
                other,
            ) && other != kind),
        state.apply(LifecycleOp::Destroy(kind))->Ok_0.created.no_duplicates(),
        state.ordered() ==> state.apply(LifecycleOp::Destroy(kind))->Ok_0.ordered(),
{
    let next = state.apply(LifecycleOp::Destroy(kind))->Ok_0;
    let at = state.created.index_of(kind);
    assert(0 <= at < state.created.len() && state.created[at] == kind);
    assert(next.created == state.created.remove(at));
    assert forall|i: int| 0 <= i < next.created.len() implies #[trigger] next.created[i] == (if i
        < at {
        state.created[i]
    } else {
        state.created[i + 1]
    }) by {}
    assert forall|other: ResourceKind| #[trigger] next.live(other) <==> (state.live(other) && other
        != kind) by {
        if next.live(other) {
            let i = next.created.index_of(other);
            if i < at {
                assert(state.created[i] == other);
            } else {
                assert(state.created[i + 1] == other);
            }
        }
        if state.live(other) && other != kind {
            let i = state.created.index_of(other);
            if i < at {
                assert(next.created[i] == other);
            } else {
                assert(next.created[i - 1] == other);
            }
        }
    }
    assert(next.created.no_duplicates()) by {
        assert forall|i: int, j: int|
            0 <= i < next.created.len() && 0 <= j < next.created.len() && i
                != j implies next.created[i] != next.created[j] by {
            let si = if i < at { i } else { i + 1 };
            let sj = if j < at { j } else { j + 1 };
            assert(next.created[i] == state.created[si]);
            assert(next.created[j] == state.created[sj]);
        }
    }
    if state.ordered() {
        assert forall|i: int, j: int| 0 <= i <= j < next.created.len() implies !#[trigger] depends_on(
            next.created[i],
            next.created[j],
        ) by {
            let si = if i < at { i } else { i + 1 };
            let sj = if j < at { j } else { j + 1 };
            assert(next.created[i] == state.created[si]);
            assert(next.created[j] == state.created[sj]);
            assert(!depends_on(state.created[si], state.created[sj]));
        }
        assert forall|other: ResourceKind| next.live(other) implies #[trigger] next.dependencies_live(
            other,
        ) by {
            assert(state.dependencies_live(other));
            assert forall|parent: ResourceKind| #[trigger] depends_on(other, parent) implies next.live(
                parent,
            ) by {
                assert(state.live(parent));
                assert(state.live(other));
            }
        }
    }
}

/// Running a sequence whose first operation is accepted is running the rest
/// from the state that operation leads to.
pub proof fn lemma_run_first(state: LedgerState, ops: Seq<LifecycleOp>)
    requires
        ops.len() > 0,
        state.apply(ops.first()) is Ok,
    ensures
        state.run(ops) == state.apply(ops.first())->Ok_0.run(ops.drop_first()),
{
}

/// Running two sequences in a row, the first of which is accepted, is running
/// their concatenation.
pub proof fn lemma_run_concat(state: LedgerState, first: Seq<LifecycleOp>, second: Seq<LifecycleOp>)
    requires
        state.run(first) is Ok,
    ensures
        state.run(first + second) == state.run(first)->Ok_0.run(second),
    decreases first.len(),
{
    if first.len() == 0 {
        assert(first + second =~= second);
    } else {
        let next = state.apply(first.first())->Ok_0;
        assert((first + second).first() == first.first());
        assert((first + second).drop_first() =~= first.drop_first() + second);
        lemma_run_concat(next, first.drop_first(), second);
    }
}

/// In an ordered state with an idle device, destroying every live kind in
/// reverse order of creation is accepted step by step and leaves nothing live.
pub proof fn lemma_reverse_destroys_accepted(state: LedgerState)
    requires
        state.ordered(),
        !state.busy,
    ensures
        state.run(reverse_destroys(state.created)) == Ok::<LedgerState, LedgerError>(
            LedgerState::empty(),
        ),
    decreases state.created.len(),
{
    let ops = reverse_destroys(state.created);
    if state.created.len() == 0 {
        assert(state.created =~= Seq::<ResourceKind>::empty());
    } else {
        let last_index = state.created.len() - 1;
        let kind = state.created[last_index];
        assert(ops.first() == LifecycleOp::Destroy(kind));
        assert(state.live(kind));
        assert(state.unused(kind)) by {
            assert forall|child: ResourceKind| state.live(child) implies !#[trigger] depends_on(
                child,
                kind,
            ) by {
                let i = state.created.index_of(child);
                assert(!depends_on(state.created[i], state.created[last_index]));
            }
        }
        lemma_destroy(state, kind);
        let next = state.apply(LifecycleOp::Destroy(kind))->Ok_0;
        assert(state.created.index_of(kind) == last_index);
        assert(next.created =~= state.created.drop_last());
        assert(ops.drop_first() =~= reverse_destroys(next.created));
        lemma_reverse_destroys_accepted(next);
    }
}

/// Teardown is safe from every ordered state: the ledger accepts each of its
/// operations, so no kind is destroyed while the device may be working or while
/// a live kind still needs it, and in the end nothing is live.
pub proof fn lemma_teardown_accepted(state: LedgerState)
    requires
        state.ordered(),
    ensures
        state.run(state.teardown_ops()) == Ok::<LedgerState, LedgerError>(LedgerState::empty()),
{
    if state.live(ResourceKind::Device) {
        let wait = seq![LifecycleOp::WaitIdle];
        let idle = LedgerState { busy: false, ..state };
        assert(wait.first() == LifecycleOp::WaitIdle);
        assert(wait.drop_first() =~= Seq::<LifecycleOp>::empty());
        assert(state.run(wait) == Ok::<LedgerState, LedgerError>(idle)) by {
            lemma_run_first(state, wait);
        }
        assert(idle.ordered()) by {
            assert forall|kind: ResourceKind| idle.live(kind) implies #[trigger] idle.dependencies_live(
                kind,
            ) by {
                assert(state.dependencies_live(kind));
            }
        }
        lemma_reverse_destroys_accepted(idle);
        lemma_run_concat(state, wait, reverse_destroys(state.created));
    } else {
        assert(state.teardown_ops() =~= reverse_destroys(state.created));
        lemma_reverse_destroys_accepted(state);
    }
}

/// A chain of kinds in which each needs the one before it.
pub open spec fn dependency_chain(chain: Seq<ResourceKind>) -> bool {
    forall|i: int| 0 <= i < chain.len() - 1 ==> #[trigger] depends_on(chain[i + 1], chain[i])
}

/// Nothing is destroyed too early: when the ledger accepts a destruction, the
/// device is idle, and nothing live hangs off the kind destroyed, however
/// indirectly: no kind at the end of a chain of needs that starts at it is live.
pub proof fn lemma_no_live_descendants(state: LedgerState, kind: ResourceKind, chain: Seq<ResourceKind>)
    requires
        state.ordered(),
        state.apply(LifecycleOp::Destroy(kind)) is Ok,
        chain.len() >= 2,
        chain[0] == kind,
        dependency_chain(chain),
    ensures
        !state.busy,
        state.live(kind),
        !state.live(chain.last()),
    decreases chain.len(),
{
    if chain.len() == 2 {
        assert(depends_on(chain[0int + 1], chain[0int]));
    } else {
        let shorter = chain.drop_last();
        assert(dependency_chain(shorter)) by {
            assert forall|i: int| 0 <= i < shorter.len() - 1 implies #[trigger] depends_on(
                shorter[i + 1],
                shorter[i],
            ) by {
                assert(depends_on(chain[i + 1], chain[i]));
            }
        }
        lemma_no_live_descendants(state, kind, shorter);
        if state.live(chain.last()) {
            assert(state.dependencies_live(chain.last()));
            let before_last = chain.len() - 2;
            assert(depends_on(chain[before_last + 1], chain[before_last]));
            assert(state.live(shorter.last()));
        }
    }
}

/// Accepted operations keep the ledger ordered.
pub proof fn lemma_apply_keeps_order(state: LedgerState, op: LifecycleOp)
    requires
        state.ordered(),
        state.apply(op) is Ok,
    ensures
        state.apply(op)->Ok_0.ordered(),
{
    let next = state.apply(op)->Ok_0;
    match op {
        LifecycleOp::Create(kind) => {
            lemma_create(state, kind);
        },
        LifecycleOp::Destroy(kind) => {
            lemma_destroy(state, kind);
        },
        _ => {
            assert forall|kind: ResourceKind| next.live(kind) implies #[trigger] next.dependencies_live(
                kind,
            ) by {
                assert(state.dependencies_live(kind));
            }
        },
    }
}

/// What holds of every operation in an accepted sequence: the operations
/// before it are accepted too, and lead to an ordered state that accepts it.
pub proof fn lemma_run_accepts_each(state: LedgerState, ops: Seq<LifecycleOp>, at: int)
    requires
        state.ordered(),
        state.run(ops) is Ok,
        0 <= at < ops.len(),
    ensures
        state.run(ops.take(at)) is Ok,
        state.run(ops.take(at))->Ok_0.ordered(),
        state.run(ops.take(at))->Ok_0.apply(ops[at]) is Ok,
        state.run(ops)->Ok_0.ordered(),
    decreases ops.len(),
{
    let next = state.apply(ops.first())->Ok_0;
    lemma_apply_keeps_order(state, ops.first());
    if at == 0 {
        assert(ops.take(0) =~= Seq::<LifecycleOp>::empty());
    } else {
        lemma_run_accepts_each(next, ops.drop_first(), at - 1);
        assert(ops.take(at).first() == ops.first());
        assert(ops.take(at).drop_first() =~= ops.drop_first().take(at - 1));
    }
    if ops.len() > 1 {
        lemma_run_accepts_each(next, ops.drop_first(), 0);
    }
}

/// No accepted sequence of operations, a teardown least of all, destroys an
/// object too early: at each destruction in it the device is idle and
/// nothing live hangs off the kind destroyed, however indirectly.
pub proof fn lemma_run_destroys_safely(
    state: LedgerState,
    ops: Seq<LifecycleOp>,
    at: int,
    kind: ResourceKind,
    chain: Seq<ResourceKind>,
)
    requires
        state.ordered(),
        state.run(ops) is Ok,
        0 <= at < ops.len(),
        ops[at] == LifecycleOp::Destroy(kind),
        chain.len() >= 2,
        chain[0] == kind,
        dependency_chain(chain),
    ensures
        state.run(ops.take(at)) is Ok,
        !state.run(ops.take(at))->Ok_0.busy,
        state.run(ops.take(at))->Ok_0.live(kind),
        !state.run(ops.take(at))->Ok_0.live(chain.last()),
{
    lemma_run_accepts_each(state, ops, at);
    lemma_no_live_descendants(state.run(ops.take(at))->Ok_0, kind, chain);
}

/// `kinds` can be created one after the other on top of `state`: none of
/// them is live or listed twice, and each comes after everything it needs
/// that `state` does not hold.
pub open spec fn creatable(state: LedgerState, kinds: Seq<ResourceKind>) -> bool {
    &&& kinds.no_duplicates()
    &&& forall|i: int| 0 <= i < kinds.len() ==> !state.live(#[trigger] kinds[i])
    &&& forall|i: int, parent: ResourceKind|
        0 <= i < kinds.len() && #[trigger] depends_on(kinds[i], parent) ==> state.live(parent)
            || kinds.take(i).contains(parent)
}

/// Creating kinds in an order in which each comes after what it needs is
/// accepted step by step, and the ledger then holds them in that order.
pub proof fn lemma_creations_accepted(state: LedgerState, kinds: Seq<ResourceKind>)
    requires
        state.ordered(),
        creatable(state, kinds),
    ensures
        state.run(creations(kinds)) == Ok::<LedgerState, LedgerError>(
            LedgerState { created: state.created + kinds, busy: state.busy },
        ),
        (LedgerState { created: state.created + kinds, busy: state.busy }).ordered(),
        forall|other: ResourceKind|
            #[trigger] (state.created + kinds).contains(other) <==> (state.live(other)
                || kinds.contains(other)),
    decreases kinds.len(),
{
    assert forall|other: ResourceKind| #[trigger]
        (state.created + kinds).contains(other) <==> (state.live(other) || kinds.contains(
            other,
        )) by {
        let all = state.created + kinds;
        if all.contains(other) {
            let at = all.index_of(other);
            if at < state.created.len() {
                assert(state.created[at] == other);
            } else {
                assert(kinds[at - state.created.len()] == other);
            }
        }
        if state.live(other) {
            let at = state.created.index_of(other);
            assert(all[at] == other);
        }
        if kinds.contains(other) {
            let at = kinds.index_of(other);
            assert(all[state.created.len() + at] == other);
        }
    }
    if kinds.len() == 0 {
        assert(state.created + kinds =~= state.created);
    } else {
        let kind = kinds[0];
        let rest = kinds.drop_first();
        assert(state.dependencies_live(kind)) by {
            assert forall|parent: ResourceKind| #[trigger] depends_on(kind, parent) implies state.live(
                parent,
            ) by {
                assert(kinds.take(0) =~= Seq::<ResourceKind>::empty());
            }
        }
        lemma_create(state, kind);
        let next = state.apply(LifecycleOp::Create(kind))->Ok_0;
        assert(creatable(next, rest)) by {
            assert forall|i: int| 0 <= i < rest.len() implies !next.live(#[trigger] rest[i]) by {
                assert(rest[i] == kinds[i + 1]);
            }
            assert forall|i: int, parent: ResourceKind|
                0 <= i < rest.len() && #[trigger] depends_on(rest[i], parent) implies next.live(
                parent,
            ) || rest.take(i).contains(parent) by {
                assert(rest[i] == kinds[i + 1]);
                if !state.live(parent) {
                    let at = kinds.take(i + 1).index_of(parent);
                    assert(kinds.take(i + 1)[at] == parent);
                    if at > 0 {
                        assert(rest.take(i)[at - 1] == parent);
                    }
                }
            }
        }
        lemma_creations_accepted(next, rest);
        assert(creations(kinds).first() == LifecycleOp::Create(kind));
        assert(creations(kinds).drop_first() =~= creations(rest));
        assert(next.created + rest =~= state.created + kinds);
    }
}

/// Destroying `kinds` one after the other.
pub open spec fn destructions(kinds: Seq<ResourceKind>) -> Seq<LifecycleOp> {
    Seq::new(kinds.len(), |i: int| LifecycleOp::Destroy(kinds[i]))
}

/// `kinds` can be destroyed one after the other in `state`: the device is
/// idle, all of them are live and none is listed twice, and whatever live kind
/// needs one of them comes before it in the list.
pub open spec fn destroyable(state: LedgerState, kinds: Seq<ResourceKind>) -> bool {
    &&& !state.busy
    &&& kinds.no_duplicates()
    &&& forall|i: int| 0 <= i < kinds.len() ==> state.live(#[trigger] kinds[i])
    &&& forall|i: int, child: ResourceKind|
        0 <= i < kinds.len() && state.live(child) && #[trigger] depends_on(child, kinds[i])
            ==> kinds.take(i).contains(child)
}

/// Destroying kinds in an order in which each comes after whatever needs it is
/// accepted step by step, and exactly the kinds destroyed are gone afterwards.
pub proof fn lemma_destructions_accepted(state: LedgerState, kinds: Seq<ResourceKind>)
    requires
        state.ordered(),
        destroyable(state, kinds),
    ensures
        state.run(destructions(kinds)) is Ok,
        state.run(destructions(kinds))->Ok_0.ordered(),
        !state.run(destructions(kinds))->Ok_0.busy,
        forall|other: ResourceKind|
            #[trigger] state.run(destructions(kinds))->Ok_0.live(other) <==> (state.live(other)
                && !kinds.contains(other)),
    decreases kinds.len(),
{
    if kinds.len() > 0 {
        let kind = kinds[0];
        let rest = kinds.drop_first();
        assert(state.unused(kind)) by {
            assert forall|child: ResourceKind| state.live(child) implies !#[trigger] depends_on(
                child,
                kind,
            ) by {
                assert(kinds.take(0) =~= Seq::<ResourceKind>::empty());
            }
        }
        lemma_destroy(state, kind);
        let next = state.apply(LifecycleOp::Destroy(kind))->Ok_0;
        assert(destroyable(next, rest)) by {
            assert forall|i: int| 0 <= i < rest.len() implies next.live(#[trigger] rest[i]) by {
                assert(rest[i] == kinds[i + 1]);
            }
            assert forall|i: int, child: ResourceKind|
                0 <= i < rest.len() && next.live(child) && #[trigger] depends_on(
                    child,
                    rest[i],
                ) implies rest.take(i).contains(child) by {
                assert(rest[i] == kinds[i + 1]);
                let at = kinds.take(i + 1).index_of(child);
                assert(kinds.take(i + 1)[at] == child);
                assert(rest.take(i)[at - 1] == child);
            }
        }
        lemma_destructions_accepted(next, rest);
        assert(destructions(kinds).first() == LifecycleOp::Destroy(kind));
        assert(destructions(kinds).drop_first() =~= destructions(rest));
        let last = next.run(destructions(rest))->Ok_0;
        assert forall|other: ResourceKind| #[trigger]
            last.live(other) <==> (state.live(other) && !kinds.contains(other)) by {
            if kinds.contains(other) && other != kind {
                let at = kinds.index_of(other);
                assert(rest[at - 1] == other);
            }
            if rest.contains(other) {
                let at = rest.index_of(other);
                assert(kinds[at + 1] == other);
            }
        }
    }
}

/// The kinds scoped to the swapchain in the order they are created.
pub open spec fn scoped_order() -> Seq<ResourceKind> {
    seq![
        ResourceKind::Swapchain,
        ResourceKind::ImageViews,
        ResourceKind::RenderPass,
        ResourceKind::PipelineLayout,
        ResourceKind::Pipeline,
        ResourceKind::Framebuffers,
        ResourceKind::CommandBuffers,
    ]
}

/// The place of a kind among those scoped to the swapchain.
pub open spec fn scoped_position(kind: ResourceKind) -> int {
    match kind {
        ResourceKind::Swapchain => 0,
        ResourceKind::ImageViews => 1,
        ResourceKind::RenderPass => 2,
        ResourceKind::PipelineLayout => 3,
        ResourceKind::Pipeline => 4,
        ResourceKind::Framebuffers => 5,
        ResourceKind::CommandBuffers => 6,
        _ => -1,
    }
}

/// The kinds scoped to the swapchain stand at their places, build on kinds
/// at earlier places, and are needed by no kind outside their scope.
pub proof fn lemma_scoped_positions()
    ensures
        scoped_order().len() == 7,
        forall|i: int|
            0 <= i < 7 ==> scoped_position(#[trigger] scoped_order()[i]) == i && swapchain_scoped(
                scoped_order()[i],
            ),
        forall|kind: ResourceKind|
            swapchain_scoped(kind) ==> scoped_order()[#[trigger] scoped_position(kind)] == kind,
        forall|kind: ResourceKind| #[trigger]
            swapchain_scoped(kind) <==> 0 <= scoped_position(kind) < 7,
        forall|child: ResourceKind, parent: ResourceKind| #[trigger]
            depends_on(child, parent) && swapchain_scoped(parent) ==> swapchain_scoped(child)
                && scoped_position(parent) < scoped_position(child),
{
    let order = scoped_order();
    assert(order[0] == ResourceKind::Swapchain);
    assert(order[1] == ResourceKind::ImageViews);
    assert(order[2] == ResourceKind::RenderPass);
    assert(order[3] == ResourceKind::PipelineLayout);
    assert(order[4] == ResourceKind::Pipeline);
    assert(order[5] == ResourceKind::Framebuffers);
    assert(order[6] == ResourceKind::CommandBuffers);
}

/// A rebuild is accepted whenever everything scoped to the swapchain is live:
/// each kind it destroys was live and unused, each kind it creates was gone
/// and finds what it needs, and afterwards exactly the same kinds are live as
/// before, with the device idle.
pub proof fn lemma_rebuild_accepted(state: LedgerState)
    requires
        state.ordered(),
        forall|kind: ResourceKind| swapchain_scoped(kind) ==> state.live(kind),
    ensures
        state.run(rebuild_ops()) is Ok,
        state.run(rebuild_ops())->Ok_0.ordered(),
        !state.run(rebuild_ops())->Ok_0.busy,
        forall|kind: ResourceKind|
            #[trigger] state.run(rebuild_ops())->Ok_0.live(kind) <==> state.live(kind),
{
    lemma_scoped_positions();
    let build = scoped_order();
    let teardown = build.reverse();
    assert forall|kind: ResourceKind| #[trigger]
        build.contains(kind) <==> swapchain_scoped(kind) by {
        if build.contains(kind) {
            let at = build.index_of(kind);
            assert(swapchain_scoped(build[at]));
        }
        if swapchain_scoped(kind) {
            assert(build[scoped_position(kind)] == kind);
        }
    }
    assert forall|kind: ResourceKind| #[trigger]
        teardown.contains(kind) <==> swapchain_scoped(kind) by {
        if teardown.contains(kind) {
            let at = teardown.index_of(kind);
            assert(teardown[at] == build[6 - at]);
        }
        if swapchain_scoped(kind) {
            assert(teardown[6 - scoped_position(kind)] == kind);
        }
    }

    assert(swapchain_scoped(ResourceKind::Swapchain));
    assert(state.dependencies_live(ResourceKind::Swapchain));
    assert(depends_on(ResourceKind::Swapchain, ResourceKind::Device));
    let wait = seq![LifecycleOp::WaitIdle];
    let idle = LedgerState { busy: false, ..state };
    assert(wait.first() == LifecycleOp::WaitIdle);
    assert(wait.drop_first() =~= Seq::<LifecycleOp>::empty());
    assert(state.run(wait) == Ok::<LedgerState, LedgerError>(idle)) by {
        lemma_run_first(state, wait);
    }
    lemma_apply_keeps_order(state, LifecycleOp::WaitIdle);

    assert(destroyable(idle, teardown)) by {
        assert forall|i: int, j: int| 0 <= i < 7 && 0 <= j < 7 && i != j implies teardown[i]
            != teardown[j] by {
            assert(scoped_position(build[6 - i]) == 6 - i);
            assert(scoped_position(build[6 - j]) == 6 - j);
        }
        assert forall|i: int| 0 <= i < teardown.len() implies idle.live(#[trigger] teardown[i]) by {
            assert(swapchain_scoped(build[6 - i]));
        }
        assert forall|i: int, child: ResourceKind|
            0 <= i < teardown.len() && idle.live(child) && #[trigger] depends_on(
                child,
                teardown[i],
            ) implies teardown.take(i).contains(child) by {
            assert(teardown[i] == build[6 - i]);
            assert(scoped_position(build[6 - i]) == 6 - i);
            let at = 6 - scoped_position(child);
            assert(teardown[at] == child);
            assert(teardown.take(i)[at] == child);
        }
    }
    lemma_destructions_accepted(idle, teardown);
    let bare = idle.run(destructions(teardown))->Ok_0;

    assert(creatable(bare, build)) by {
        assert forall|i: int, j: int| 0 <= i < 7 && 0 <= j < 7 && i != j implies build[i]
            != build[j] by {
            assert(scoped_position(build[i]) == i);
            assert(scoped_position(build[j]) == j);
        }
        assert forall|i: int, parent: ResourceKind|
            0 <= i < build.len() && #[trigger] depends_on(build[i], parent) implies bare.live(
            parent,
        ) || build.take(i).contains(parent) by {
            assert(scoped_position(build[i]) == i);
            assert(state.live(build[i]));
            assert(state.dependencies_live(build[i]));
            if swapchain_scoped(parent) {
                let at = scoped_position(parent);
                assert(build[at] == parent);
                assert(build.take(i)[at] == parent);
            }
        }
    }
    lemma_creations_accepted(bare, build);
    let rebuilt = LedgerState { created: bare.created + build, busy: false };

    lemma_run_concat(state, wait, destructions(teardown));
    lemma_run_concat(state, wait + destructions(teardown), creations(build));
    assert(rebuild_ops() =~= wait + destructions(teardown) + creations(build));
    assert forall|kind: ResourceKind| #[trigger] rebuilt.live(kind) <==> state.live(kind) by {
        assert(bare.live(kind) <==> (idle.live(kind) && !teardown.contains(kind)));
    }
}

/// The place of `kind` in the order of start-up.
pub open spec fn init_position(validation: bool, kind: ResourceKind) -> int {
    let place: int = match kind {
        ResourceKind::Instance => 0,
        ResourceKind::DebugMessenger => 1,
        ResourceKind::Surface => 2,
        ResourceKind::Device => 3,
        ResourceKind::Swapchain => 4,
        ResourceKind::ImageViews => 5,
        ResourceKind::RenderPass => 6,
        ResourceKind::PipelineLayout => 7,
        ResourceKind::Pipeline => 8,
        ResourceKind::Framebuffers => 9,
        ResourceKind::CommandPool => 10,
        ResourceKind::VertexBuffer => 11,
        ResourceKind::VertexBufferMemory => 12,
        ResourceKind::CommandBuffers => 13,
        ResourceKind::ImageAvailableSemaphores => 14,
        ResourceKind::RenderFinishedSemaphores => 15,
        ResourceKind::InFlightFences => 16,
    };
    if validation || place < 2 {
        place
    } else {
        place - 1
    }
}

/// Start-up creates every kind at its place, and everything a kind needs has
/// an earlier place.
pub proof fn lemma_init_positions(validation: bool)
    ensures
        init_order(validation).len() == if validation {
            17int
        } else {
            16int
        },
        forall|kind: ResourceKind|
            validation || kind != ResourceKind::DebugMessenger ==> init_order(
                validation,
            )[#[trigger] init_position(validation, kind)] == kind,
        forall|i: int|
            0 <= i < init_order(validation).len() ==> init_position(
                validation,
                #[trigger] init_order(validation)[i],
            ) == i,
        forall|child: ResourceKind, parent: ResourceKind| #[trigger]
            depends_on(child, parent) ==> parent != ResourceKind::DebugMessenger && init_position(
                validation,
                parent,
            ) < init_position(validation, child),
{
    let order = init_order(validation);
    assert forall|i: int| 0 <= i < order.len() implies init_position(
        validation,
        #[trigger] order[i],
    ) == i by {
        if validation {
            assert(order[0] == ResourceKind::Instance);
            assert(order[1] == ResourceKind::DebugMessenger);
            assert(order[2] == ResourceKind::Surface);
            assert(order[3] == ResourceKind::Device);
            assert(order[4] == ResourceKind::Swapchain);
            assert(order[5] == ResourceKind::ImageViews);
            assert(order[6] == ResourceKind::RenderPass);
            assert(order[7] == ResourceKind::PipelineLayout);
            assert(order[8] == ResourceKind::Pipeline);
            assert(order[9] == ResourceKind::Framebuffers);
            assert(order[10] == ResourceKind::CommandPool);
            assert(order[11] == ResourceKind::VertexBuffer);
            assert(order[12] == ResourceKind::VertexBufferMemory);
            assert(order[13] == ResourceKind::CommandBuffers);
            assert(order[14] == ResourceKind::ImageAvailableSemaphores);
            assert(order[15] == ResourceKind::RenderFinishedSemaphores);
            assert(order[16] == ResourceKind::InFlightFences);
        } else {
            assert(order[0] == ResourceKind::Instance);
            assert(order[1] == ResourceKind::Surface);
            assert(order[2] == ResourceKind::Device);
            assert(order[3] == ResourceKind::Swapchain);
            assert(order[4] == ResourceKind::ImageViews);
            assert(order[5] == ResourceKind::RenderPass);
            assert(order[6] == ResourceKind::PipelineLayout);
            assert(order[7] == ResourceKind::Pipeline);
            assert(order[8] == ResourceKind::Framebuffers);
            assert(order[9] == ResourceKind::CommandPool);
            assert(order[10] == ResourceKind::VertexBuffer);
            assert(order[11] == ResourceKind::VertexBufferMemory);
            assert(order[12] == ResourceKind::CommandBuffers);
            assert(order[13] == ResourceKind::ImageAvailableSemaphores);
            assert(order[14] == ResourceKind::RenderFinishedSemaphores);
            assert(order[15] == ResourceKind::InFlightFences);
        }
    }
    assert forall|kind: ResourceKind|
        validation || kind != ResourceKind::DebugMessenger implies order[#[trigger] init_position(
        validation,
        kind,
    )] == kind by {
        let at = init_position(validation, kind);
        assert(0 <= at < order.len());
        assert(init_position(validation, order[at]) == at);
    }
}

/// Start-up is accepted from an empty ledger: every kind is created after
/// what it needs, and the ledger then holds the kinds in the order of
/// creation, the debug messenger only with validation.
pub proof fn lemma_init_accepted(validation: bool)
    ensures
        LedgerState::empty().run(init_ops(validation)) == Ok::<LedgerState, LedgerError>(
            LedgerState { created: init_order(validation), busy: false },
        ),
        (LedgerState { created: init_order(validation), busy: false }).ordered(),
        forall|kind: ResourceKind|
            #[trigger] init_order(validation).contains(kind) <==> (validation || kind
                != ResourceKind::DebugMessenger),
{
    let state = LedgerState::empty();
    let order = init_order(validation);
    lemma_init_positions(validation);
    assert(creatable(state, order)) by {
        assert forall|i: int, j: int| 0 <= i < order.len() && 0 <= j < order.len() && i
            != j implies order[i] != order[j] by {
            assert(init_position(validation, order[i]) == i);
            assert(init_position(validation, order[j]) == j);
        }
        assert forall|i: int, parent: ResourceKind|
            0 <= i < order.len() && #[trigger] depends_on(order[i], parent) implies state.live(
            parent,
        ) || order.take(i).contains(parent) by {
            let at = init_position(validation, parent);
            assert(init_position(validation, order[i]) == i);
            assert(order[at] == parent);
            assert(order.take(i)[at] == parent);
        }
    }
    lemma_creations_accepted(state, order);
    assert(state.created + order =~= order);
    assert forall|kind: ResourceKind| #[trigger]
        order.contains(kind) <==> (validation || kind != ResourceKind::DebugMessenger) by {
        if validation || kind != ResourceKind::DebugMessenger {
            assert(order[init_position(validation, kind)] == kind);
        }
        if order.contains(kind) && kind == ResourceKind::DebugMessenger && !validation {
            let at = order.index_of(kind);
            assert(init_position(validation, order[at]) == at);
            assert(order[1] == ResourceKind::Surface);
        }
    }
}

/// The state after `count` rebuilds in a row.
pub open spec fn after_rebuilds(state: LedgerState, count: nat) -> LedgerState
    decreases count,
{
    if count == 0 {
        state
    } else {
        after_rebuilds(state.run(rebuild_ops())->Ok_0, (count - 1) as nat)
    }
}

/// However often the swapchain is rebuilt, nothing leaks: every rebuild is
/// accepted, the same kinds are live afterwards as before, and a teardown then
/// destroys each of them exactly once.
pub proof fn lemma_rebuilds_leak_nothing(state: LedgerState, count: nat)
    requires
        state.ordered(),
        forall|kind: ResourceKind| swapchain_scoped(kind) ==> state.live(kind),
    ensures
        after_rebuilds(state, count).ordered(),
        forall|kind: ResourceKind|
            #[trigger] after_rebuilds(state, count).live(kind) <==> state.live(kind),
        after_rebuilds(state, count).run(after_rebuilds(state, count).teardown_ops()) == Ok::<
            LedgerState,
            LedgerError,
        >(LedgerState::empty()),
    decreases count,
{
    if count == 0 {
        lemma_teardown_accepted(state);
    } else {
        lemma_rebuild_accepted(state);
        let next = state.run(rebuild_ops())->Ok_0;
        assert forall|kind: ResourceKind| swapchain_scoped(kind) implies next.live(kind) by {
            assert(next.live(kind) <==> state.live(kind));
        }
        lemma_rebuilds_leak_nothing(next, (count - 1) as nat);
        assert forall|kind: ResourceKind| #[trigger]
            after_rebuilds(state, count).live(kind) <==> state.live(kind) by {
            assert(after_rebuilds(next, (count - 1) as nat).live(kind) <==> next.live(kind));
            assert(next.live(kind) <==> state.live(kind));
        }
    }
}

/// No kind is missing from the list of all kinds.
pub proof fn lemma_all_kinds_complete(kind: ResourceKind)
    ensures
        all_kinds_spec().contains(kind),
{
    let all = all_kinds_spec();
    match kind {
        ResourceKind::Instance => {
            assert(all[0] == kind);
        },
        ResourceKind::DebugMessenger => {
            assert(all[1] == kind);
        },
        ResourceKind::Surface => {
            assert(all[2] == kind);
        },
        ResourceKind::Device => {
            assert(all[3] == kind);
        },
        ResourceKind::Swapchain => {
            assert(all[4] == kind);
        },
        ResourceKind::ImageViews => {
            assert(all[5] == kind);
        },
        ResourceKind::RenderPass => {
            assert(all[6] == kind);
        },
        ResourceKind::PipelineLayout => {
            assert(all[7] == kind);
        },
        ResourceKind::Pipeline => {
            assert(all[8] == kind);
        },
        ResourceKind::Framebuffers => {
            assert(all[9] == kind);
        },
        ResourceKind::CommandPool => {
            assert(all[10] == kind);
        },
        ResourceKind::VertexBuffer => {
            assert(all[11] == kind);
        },
        ResourceKind::VertexBufferMemory => {
            assert(all[12] == kind);
        },
        ResourceKind::CommandBuffers => {
            assert(all[13] == kind);
        },
        ResourceKind::ImageAvailableSemaphores => {
            assert(all[14] == kind);
        },
        ResourceKind::RenderFinishedSemaphores => {
            assert(all[15] == kind);
        },
        ResourceKind::InFlightFences => {
            assert(all[16] == kind);
        },
    }
}

} // verus!
