use vstd::prelude::*;

verus! {

/// The privilege domain a call site is known to run in.
///
/// `Kernel` and `User` are facts fixed at the call site; `Any` leaves the
/// decision to the privilege level read at run time.
#[derive(Clone, Copy, Debug, PartialEq, Eq, Structural)]
pub enum ExecutionContext {
    Kernel,
    User,
    Any,
}

/// The processor privilege level of a thread.
#[derive(Clone, Copy, Debug, PartialEq, Eq, Structural)]
pub enum Privilege {
    Supervisor,
    Unprivileged,
}

/// How a syscall is invoked.
#[derive(Clone, Copy, Debug, PartialEq, Eq, Structural)]
pub enum Strategy {
    /// Call the supervisor implementation inline, without a trap.
    Direct,
    /// Always issue a privilege trap.
    Trapped,
    /// Read the live privilege level and pick `Direct` or `Trapped`.
    Auto,
}

/// The strategy that a context tag selects.
pub open spec fn strategy_of(ctx: ExecutionContext) -> Strategy {
    match ctx {
        ExecutionContext::Kernel => Strategy::Direct,
        ExecutionContext::User => Strategy::Trapped,
        ExecutionContext::Any => Strategy::Auto,
    }
}

/// Whether a call under `ctx`, made at privilege level `p`, goes through a trap.
pub open spec fn traps(ctx: ExecutionContext, p: Privilege) -> bool {
    match ctx {
        ExecutionContext::Kernel => false,
        ExecutionContext::User => true,
        ExecutionContext::Any => p == Privilege::Unprivileged,
    }
}

/// Whether a call site tagged `ctx` may run at privilege level `p`: code
/// tagged `Kernel` never runs unprivileged.
pub open spec fn context_admits(ctx: ExecutionContext, p: Privilege) -> bool {
    ctx == ExecutionContext::Kernel ==> p == Privilege::Supervisor
}

/// Resolves a context tag to its invocation strategy. There is no default:
/// every tag names exactly one strategy.
pub fn dispatch(ctx: ExecutionContext) -> (r: Strategy)
    ensures
        r == strategy_of(ctx),
{
    match ctx {
        ExecutionContext::Kernel => Strategy::Direct,
        ExecutionContext::User => Strategy::Trapped,
        ExecutionContext::Any => Strategy::Auto,
    }
}

/// Settles a strategy against the live privilege level: `true` when the call
/// is made through a trap.
pub fn resolve(strategy: Strategy, live: Privilege) -> (trapped: bool)
    ensures
        strategy == Strategy::Direct ==> !trapped,
        strategy == Strategy::Trapped ==> trapped,
        strategy == Strategy::Auto ==> trapped == (live == Privilege::Unprivileged),
{
    match strategy {
        Strategy::Direct => false,
        Strategy::Trapped => true,
        Strategy::Auto => live == Privilege::Unprivileged,
    }
}

/// Whether a call under `ctx` at privilege level `live` traps, going through
/// `dispatch` and `resolve`.
pub fn trap_needed(ctx: ExecutionContext, live: Privilege) -> (trapped: bool)
    ensures
        trapped == traps(ctx, live),
{
    resolve(dispatch(ctx), live)
}

} // verus!
