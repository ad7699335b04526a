use vstd::prelude::*;

use crate::context::ExecutionContext;
use crate::kernel::{Operation, Reply, System};

verus! {

/// A statically allocated mutex, named by its index, bound to the data it
/// protects. At most one live binding wraps a given mutex; the mutex itself
/// keeps no record of that, so the caller's proof carries it.
pub struct Binding<T> {
    descriptor: usize,
    payload: T,
}

/// Proof that a thread acquired a binding's mutex. Releasing it goes through
/// the context the mutex was locked with.
pub struct Guard {
    descriptor: usize,
    thread: usize,
    context: ExecutionContext,
}

impl<T> Binding<T> {
    pub closed spec fn obj(&self) -> usize {
        self.descriptor
    }

    pub closed spec fn data(&self) -> T {
        self.payload
    }

    /// Binds mutex `descriptor` to `payload`. No other live binding may wrap
    /// the same mutex.
    pub fn new(sys: &mut System, descriptor: usize, payload: T) -> (r: Self)
        requires
            old(sys).wf(),
            descriptor < old(sys)@.owners.len(),
            !old(sys)@.bound.contains(descriptor),
        ensures
            final(sys).wf(),
            final(sys)@ == old(sys)@.bind(descriptor),
            r.obj() == descriptor,
            r.data() == payload,
    {
        sys.claim(descriptor);
        Binding { descriptor, payload }
    }

    pub fn descriptor(&self) -> (r: usize)
        ensures
            r == self.obj(),
    {
        self.descriptor
    }

    pub fn payload(&self) -> (r: &T)
        ensures
            *r == self.data(),
    {
        &self.payload
    }

    /// Locks the mutex through the strategy `ctx` selects. `Some` when the
    /// running thread acquired it; `None` when another acquisition is live,
    /// and the thread then waits until it is released.
    pub fn lock(&self, sys: &mut System, ctx: ExecutionContext) -> (r: Option<Guard>)
        requires
            old(sys).wf(),
            old(sys)@.admits(ctx, Operation::Lock(self.obj())),
        ensures
            final(sys).wf(),
            final(sys)@ == old(sys)@.step(Operation::Lock(self.obj())).0,
            r is Some <==> old(sys)@.owners[self.obj() as int] is None,
            r matches Some(g) ==> g.obj() == self.obj() && g.holder() == old(sys)@.current
                && g.ctx() == ctx,
    {
        let thread = sys.current_thread();
        let out = sys.syscall(ctx, &Operation::Lock(self.descriptor));
        match out.reply {
            Reply::Acquired => Some(Guard { descriptor: self.descriptor, thread, context: ctx }),
            _ => None,
        }
    }

    /// Ends the binding and hands the data back.
    pub fn into_payload(self, sys: &mut System) -> (r: T)
        requires
            old(sys).wf(),
        ensures
            final(sys).wf(),
            final(sys)@ == old(sys)@.unbind(self.obj()),
            r == self.data(),
    {
        sys.unclaim(self.descriptor);
        self.payload
    }
}

impl Guard {
    pub closed spec fn obj(&self) -> usize {
        self.descriptor
    }

    pub closed spec fn holder(&self) -> usize {
        self.thread
    }

    pub closed spec fn ctx(&self) -> ExecutionContext {
        self.context
    }

    pub fn descriptor(&self) -> (r: usize)
        ensures
            r == self.obj(),
    {
        self.descriptor
    }

    /// Releases the mutex through the context it was locked with.
    pub fn release(self, sys: &mut System)
        requires
            old(sys).wf(),
            old(sys)@.admits(self.ctx(), Operation::Unlock(self.obj())),
        ensures
            final(sys).wf(),
            final(sys)@ == old(sys)@.step(Operation::Unlock(self.obj())).0,
    {
        sys.syscall(self.context, &Operation::Unlock(self.descriptor));
    }
}

} // verus!
