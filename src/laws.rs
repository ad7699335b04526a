use vstd::prelude::*;

use crate::context::{strategy_of, traps, ExecutionContext, Privilege, Strategy};
use crate::kernel::{KernelView, Operation, Reply};

verus! {

/// Every context tag reaches the same supervisor implementation: the state
/// after an admitted call and its reply are those of `step`, whatever the
/// tag. The tags differ in the traps alone: `Kernel` resolves to a direct
/// call with no trap, `User` to one trap, `Any` to one trap exactly when the
/// running thread is unprivileged.
pub proof fn lemma_one_implementation_for_every_context(
    s: KernelView,
    op: Operation,
    c1: ExecutionContext,
    c2: ExecutionContext,
)
    requires
        s.wf(),
        s.admits(c1, op),
        s.admits(c2, op),
    ensures
        strategy_of(ExecutionContext::Kernel) == Strategy::Direct,
        strategy_of(ExecutionContext::User) == Strategy::Trapped,
        strategy_of(ExecutionContext::Any) == Strategy::Auto,
        !traps(ExecutionContext::Kernel, s.privilege()),
        traps(ExecutionContext::User, s.privilege()),
        traps(ExecutionContext::Any, s.privilege()) == (s.privilege() == Privilege::Unprivileged),
        c1 == ExecutionContext::Kernel || c2 == ExecutionContext::Kernel ==> s.privilege()
            == Privilege::Supervisor,
{
}

/// A mutex that a thread was granted can be locked from every context its
/// privilege allows, and never by two threads at once: a lock succeeds only
/// on a free mutex and makes the caller its holder, and while one thread
/// holds it another thread's lock blocks and changes nothing.
pub proof fn lemma_mutual_exclusion(s: KernelView, o: usize, other: usize)
    requires
        s.wf(),
        o < s.owners.len(),
        other < s.threads.len(),
        other != s.current,
        s.granted(s.current, o),
    ensures
        s.privilege() == Privilege::Supervisor ==> s.admits(ExecutionContext::Kernel, Operation::Lock(o))
            && s.admits(ExecutionContext::User, Operation::Lock(o))
            && s.admits(ExecutionContext::Any, Operation::Lock(o)),
        s.admits(ExecutionContext::User, Operation::Lock(o)),
        s.admits(ExecutionContext::Any, Operation::Lock(o)),
        s.step(Operation::Lock(o)).1 == Reply::Acquired <==> s.owners[o as int] is None,
        s.step(Operation::Lock(o)).1 == Reply::Acquired ==> s.step(Operation::Lock(o)).0.owners[o as int]
            == Some(s.current),
        s.step(Operation::Lock(o)).1 == Reply::Acquired ==> ({
            let held = s.step(Operation::Lock(o)).0.switch_to(other);
            held.step(Operation::Lock(o)).1 == Reply::Blocked && held.step(Operation::Lock(o)).0
                == held
        }),
{
}

/// A grant from kernel context lets the granted thread use the mutex from
/// user context, also after it drops to user mode. Without a grant a
/// user-context use is not admitted. Granting twice is granting once.
pub proof fn lemma_grant_then_user_use(s: KernelView, o: usize)
    requires
        s.wf(),
        o < s.owners.len(),
    ensures
        s.grant(s.current, o).admits(ExecutionContext::User, Operation::Lock(o)),
        s.grant(s.current, o).demote().admits(ExecutionContext::User, Operation::Lock(o)),
        s.grant(s.current, o).demote().admits(ExecutionContext::Any, Operation::Lock(o)),
        !s.granted(s.current, o) ==> !s.admits(ExecutionContext::User, Operation::Lock(o)),
        s.grant(s.current, o).grant(s.current, o) == s.grant(s.current, o),
{
    let g = s.grant(s.current, o);
    if !s.granted(s.current, o) {
        assert(g.grants[g.grants.len() - 1] == (s.current, o));
    }
    assert(g.granted(s.current, o));
    assert(g.demote().grants == g.grants);
}

/// The thread-local cell keeps its value when its thread drops to user
/// mode, and a write to one thread's cell leaves every other thread's cell
/// as it was.
pub proof fn lemma_cell_across_demotion(s: KernelView, v: u8)
    requires
        s.wf(),
    ensures
        s.demote().cell() == s.cell(),
        s.set_cell(v).demote().cell() == v,
        s.demote().set_cell(v).cell() == v,
        forall|t: int|
            0 <= t < s.threads.len() && t != s.current ==> s.set_cell(v).threads[t] == s.threads[t]
                && s.demote().threads[t] == s.threads[t],
{
}

/// Dropping to user mode is one-way: once thread `t` is unprivileged, no
/// operation the kernel offers makes it a supervisor again, and a call
/// tagged `Kernel` is never admitted while it runs.
pub proof fn lemma_demotion_is_one_way(s: KernelView, t: usize)
    requires
        s.wf(),
        t < s.threads.len(),
        s.threads[t as int].privilege == Privilege::Unprivileged,
    ensures
        forall|op: Operation| #[trigger]
            s.step(op).0.threads[t as int].privilege == Privilege::Unprivileged,
        forall|v: u8| #[trigger] s.set_cell(v).threads[t as int].privilege == Privilege::Unprivileged,
        s.demote().threads[t as int].privilege == Privilege::Unprivileged,
        s.spawn().threads[t as int].privilege == Privilege::Unprivileged,
        forall|u: usize| #[trigger] s.switch_to(u).threads[t as int].privilege == Privilege::Unprivileged,
        forall|ms: u64| #[trigger] s.sleep(ms).threads[t as int].privilege == Privilege::Unprivileged,
        forall|u: usize, o: usize| #[trigger]
            s.grant(u, o).threads[t as int].privilege == Privilege::Unprivileged,
        forall|o: usize| #[trigger] s.bind(o).threads[t as int].privilege == Privilege::Unprivileged,
        forall|o: usize| #[trigger] s.unbind(o).threads[t as int].privilege == Privilege::Unprivileged,
        s.current == t ==> forall|op: Operation| !#[trigger] s.admits(ExecutionContext::Kernel, op),
{
    assert forall|op: Operation| #[trigger]
        s.step(op).0.threads[t as int].privilege == Privilege::Unprivileged by {
        match op {
            Operation::Lock(o) => {},
            _ => {},
        }
    }
    assert forall|v: u8| #[trigger]
        s.set_cell(v).threads[t as int].privilege == Privilege::Unprivileged by {
        if t != s.current {
            assert(s.set_cell(v).threads[t as int] == s.threads[t as int]);
        }
    }
    assert(s.spawn().threads[t as int] == s.threads[t as int]);
}

} // verus!
