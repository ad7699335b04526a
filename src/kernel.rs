use vstd::prelude::*;

use crate::context::{context_admits, trap_needed, traps, ExecutionContext, Privilege};

verus! {

/// The value every thread-local cell holds when its thread starts.
pub const INITIAL_CELL: u8 = 1;

/// What the kernel keeps for one thread: its privilege level and its
/// thread-local cell.
#[derive(Clone, Copy, Debug, PartialEq, Eq, Structural)]
pub struct ThreadState {
    pub privilege: Privilege,
    pub cell: u8,
}

/// A syscall, with its arguments. Objects and threads are named by their
/// index, which is their identity.
#[derive(Debug)]
pub enum Operation {
    /// Write a byte string to the diagnostic sink.
    StrOut(Vec<u8>),
    /// Read the uptime in milliseconds.
    UptimeGet,
    /// Acquire a mutex for the calling thread.
    Lock(usize),
    /// Release a mutex that the calling thread holds.
    Unlock(usize),
    /// Look a device up by name.
    DeviceGetBinding(Vec<u8>),
}

/// What the supervisor implementation of an operation hands back.
#[derive(Clone, Copy, Debug, PartialEq, Eq, Structural)]
pub enum Reply {
    Done,
    Uptime(u64),
    /// The mutex is now held by the caller.
    Acquired,
    /// The mutex is held by a thread; the caller waits until it is released.
    Blocked,
    /// The index of the device of that name, or `None` when there is none.
    Device(Option<usize>),
}

/// The result of one syscall: whether it went through a trap, and the reply.
#[derive(Clone, Copy, Debug, PartialEq, Eq, Structural)]
pub struct Outcome {
    pub trapped: bool,
    pub reply: Reply,
}

/// The first index at which `devices` holds `name`.
pub open spec fn lookup(devices: Seq<Seq<u8>>, name: Seq<u8>) -> Option<usize>
    decreases devices.len(),
{
    if devices.len() == 0 {
        None
    } else {
        match lookup(devices.drop_last(), name) {
            Some(i) => Some(i),
            None => if devices.last() == name {
                Some((devices.len() - 1) as usize)
            } else {
                None
            },
        }
    }
}

/// The abstract state of the kernel.
pub struct KernelView {
    pub threads: Seq<ThreadState>,
    /// The thread that is running.
    pub current: usize,
    /// The access grants, as (thread, object) pairs.
    pub grants: Seq<(usize, usize)>,
    /// For each mutex, the thread that holds it.
    pub owners: Seq<Option<usize>>,
    pub uptime: u64,
    /// Everything written to the diagnostic sink.
    pub output: Seq<u8>,
    /// The names of the devices.
    pub devices: Seq<Seq<u8>>,
    /// The mutexes that a live binding wraps.
    pub bound: Set<usize>,
}

impl KernelView {
    pub open spec fn wf(self) -> bool {
        self.current < self.threads.len()
    }

    /// The privilege level of the running thread.
    pub open spec fn privilege(self) -> Privilege {
        self.threads[self.current as int].privilege
    }

    /// The thread-local cell of the running thread.
    pub open spec fn cell(self) -> u8 {
        self.threads[self.current as int].cell
    }

    pub open spec fn granted(self, thread: usize, obj: usize) -> bool {
        self.grants.contains((thread, obj))
    }

    /// Whether the running thread may issue `op` from a call site tagged
    /// `ctx`: the tag matches its privilege, and a trapped use of a mutex
    /// comes from a thread that was granted it.
    pub open spec fn admits(self, ctx: ExecutionContext, op: Operation) -> bool {
        &&& context_admits(ctx, self.privilege())
        &&& match op {
            Operation::Lock(o) => o < self.owners.len() && (traps(ctx, self.privilege())
                ==> self.granted(self.current, o)),
            Operation::Unlock(o) => o < self.owners.len() && self.owners[o as int] == Some(
                self.current,
            ) && (traps(ctx, self.privilege()) ==> self.granted(self.current, o)),
            _ => true,
        }
    }

    /// The supervisor implementation of `op`: the state after it and its reply.
    pub open spec fn step(self, op: Operation) -> (KernelView, Reply) {
        match op {
            Operation::StrOut(b) => (KernelView { output: self.output + b@, ..self }, Reply::Done),
            Operation::UptimeGet => (self, Reply::Uptime(self.uptime)),
            Operation::Lock(o) => if self.owners[o as int] is None {
                (
                    KernelView { owners: self.owners.update(o as int, Some(self.current)), ..self },
                    Reply::Acquired,
                )
            } else {
                (self, Reply::Blocked)
            },
            Operation::Unlock(o) => (
                KernelView { owners: self.owners.update(o as int, None), ..self },
                Reply::Done,
            ),
            Operation::DeviceGetBinding(name) => (
                self,
                Reply::Device(lookup(self.devices, name@)),
            ),
        }
    }

    pub open spec fn grant(self, thread: usize, obj: usize) -> KernelView {
        if self.granted(thread, obj) {
            self
        } else {
            KernelView { grants: self.grants.push((thread, obj)), ..self }
        }
    }

    /// The running thread drops to user mode.
    pub open spec fn demote(self) -> KernelView {
        KernelView {
            threads: self.threads.update(
                self.current as int,
                ThreadState { privilege: Privilege::Unprivileged, ..self.threads[self.current as int] },
            ),
            ..self
        }
    }

    pub open spec fn set_cell(self, v: u8) -> KernelView {
        KernelView {
            threads: self.threads.update(
                self.current as int,
                ThreadState { cell: v, ..self.threads[self.current as int] },
            ),
            ..self
        }
    }

    /// A new supervisor thread, with its cell at its initial value.
    pub open spec fn spawn(self) -> KernelView {
        KernelView {
            threads: self.threads.push(
                ThreadState { privilege: Privilege::Supervisor, cell: INITIAL_CELL },
            ),
            ..self
        }
    }

    pub open spec fn switch_to(self, thread: usize) -> KernelView {
        KernelView { current: thread, ..self }
    }

    pub open spec fn sleep(self, ms: u64) -> KernelView {
        KernelView { uptime: (self.uptime + ms) as u64, ..self }
    }

    pub open spec fn bind(self, obj: usize) -> KernelView {
        KernelView { bound: self.bound.insert(obj), ..self }
    }

    pub open spec fn unbind(self, obj: usize) -> KernelView {
        KernelView { bound: self.bound.remove(obj), ..self }
    }
}

/// The kernel: its threads, grants, mutexes, clock, diagnostic sink and
/// devices.
pub struct System {
    threads: Vec<ThreadState>,
    current: usize,
    grants: Vec<(usize, usize)>,
    owners: Vec<Option<usize>>,
    uptime: u64,
    output: Vec<u8>,
    devices: Vec<Vec<u8>>,
    bound: Ghost<Set<usize>>,
}

impl View for System {
    type V = KernelView;

    closed spec fn view(&self) -> KernelView {
        KernelView {
            threads: self.threads@,
            current: self.current,
            grants: self.grants@,
            owners: self.owners@,
            uptime: self.uptime,
            output: self.output@,
            devices: self.devices@.map_values(|d: Vec<u8>| d@),
            bound: self.bound@,
        }
    }
}

/// Whether two byte strings are equal.
fn same_bytes(a: &Vec<u8>, b: &Vec<u8>) -> (r: bool)
    ensures
        r == (a@ == b@),
{
    if a.len() != b.len() {
        return false;
    }
    let mut i: usize = 0;
    while i < a.len()
        invariant
            a@.len() == b@.len(),
            i <= a@.len(),
            forall|j: int| 0 <= j < i ==> a@[j] == b@[j],
        decreases a@.len() - i,
    {
        if a[i] != b[i] {
            return false;
        }
        i = i + 1;
    }
    assert(a@ =~= b@);
    true
}

impl System {
    pub open spec fn wf(&self) -> bool {
        self@.wf()
    }

    /// A kernel with one supervisor thread (index 0) running, `mutexes`
    /// free mutexes, the named devices, no grants, no bindings, an empty sink
    /// and the clock at zero.
    pub fn new(mutexes: usize, devices: Vec<Vec<u8>>) -> (r: System)
        ensures
            r.wf(),
            r@.threads == seq![ThreadState { privilege: Privilege::Supervisor, cell: INITIAL_CELL }],
            r@.current == 0,
            r@.grants == Seq::<(usize, usize)>::empty(),
            r@.owners == Seq::new(mutexes as nat, |i: int| None::<usize>),
            r@.uptime == 0,
            r@.output == Seq::<u8>::empty(),
            r@.devices == devices@.map_values(|d: Vec<u8>| d@),
            r@.bound == Set::<usize>::empty(),
    {
        let mut owners: Vec<Option<usize>> = Vec::new();
        let mut i: usize = 0;
        while i < mutexes
            invariant
                i <= mutexes,
                owners@ == Seq::new(i as nat, |j: int| None::<usize>),
            decreases mutexes - i,
        {
            owners.push(None);
            i = i + 1;
            assert(owners@ =~= Seq::new(i as nat, |j: int| None::<usize>));
        }
        let mut threads: Vec<ThreadState> = Vec::new();
        threads.push(ThreadState { privilege: Privilege::Supervisor, cell: INITIAL_CELL });
        let r = System {
            threads,
            current: 0,
            grants: Vec::new(),
            owners,
            uptime: 0,
            output: Vec::new(),
            devices,
            bound: Ghost(Set::empty()),
        };
        assert(r@.threads =~= seq![ThreadState { privilege: Privilege::Supervisor, cell: INITIAL_CELL }]);
        r
    }

    /// The supervisor implementation of `op`, run once.
    fn perform(&mut self, op: &Operation) -> (r: Reply)
        requires
            old(self).wf(),
            old(self)@.admits(ExecutionContext::Any, *op) || old(self)@.admits(ExecutionContext::User, *op),
        ensures
            final(self)@ == old(self)@.step(*op).0,
            r == old(self)@.step(*op).1,
    {
        match op {
            Operation::StrOut(b) => {
                let mut i: usize = 0;
                while i < b.len()
                    invariant
                        i <= b@.len(),
                        self.output@ == old(self).output@ + b@.subrange(0, i as int),
                        self.threads == old(self).threads,
                        self.current == old(self).current,
                        self.grants == old(self).grants,
                        self.owners == old(self).owners,
                        self.uptime == old(self).uptime,
                        self.devices == old(self).devices,
                        self.bound == old(self).bound,
                    decreases b@.len() - i,
                {
                    self.output.push(b[i]);
                    i = i + 1;
                    assert(self.output@ =~= old(self).output@ + b@.subrange(0, i as int));
                }
                assert(b@.subrange(0, b@.len() as int) =~= b@);
                Reply::Done
            },
            Operation::UptimeGet => Reply::Uptime(self.uptime),
            Operation::Lock(o) => {
                if self.owners[*o].is_none() {
                    let cur = self.current;
                    self.owners.set(*o, Some(cur));
                    Reply::Acquired
                } else {
                    Reply::Blocked
                }
            },
            Operation::Unlock(o) => {
                self.owners.set(*o, None);
                Reply::Done
            },
            Operation::DeviceGetBinding(name) => Reply::Device(self.find_device(name)),
        }
    }

    fn find_device(&self, name: &Vec<u8>) -> (r: Option<usize>)
        ensures
            r == lookup(self@.devices, name@),
    {
        let ghost devs = self@.devices;
        let mut found: Option<usize> = None;
        let mut i: usize = 0;
        while i < self.devices.len()
            invariant
                i <= self.devices@.len(),
                devs == self@.devices,
                devs.len() == self.devices@.len(),
                found == lookup(devs.take(i as int), name@),
            decreases self.devices@.len() - i,
        {
            let same = same_bytes(&self.devices[i], name);
            proof {
                assert(devs.take(i + 1).drop_last() =~= devs.take(i as int));
                assert(devs.take(i + 1).last() == self.devices@[i as int]@);
            }
            if found.is_none() && same {
                found = Some(i);
            }
            i = i + 1;
        }
        assert(devs.take(i as int) =~= devs);
        found
    }

    /// Issues `op` from a call site tagged `ctx`. The supervisor
    /// implementation runs exactly once, whatever the tag; the call traps
    /// under `User`, never under `Kernel`, and under `Any` exactly when the
    /// running thread is unprivileged.
    pub fn syscall(&mut self, ctx: ExecutionContext, op: &Operation) -> (r: Outcome)
        requires
            old(self).wf(),
            old(self)@.admits(ctx, *op),
        ensures
            final(self).wf(),
            final(self)@ == old(self)@.step(*op).0,
            r.reply == old(self)@.step(*op).1,
            r.trapped == traps(ctx, old(self)@.privilege()),
    {
        let trapped = trap_needed(ctx, self.threads[self.current].privilege);
        let reply = self.perform(op);
        Outcome { trapped, reply }
    }

    /// Grants `thread` access to mutex `obj`, from kernel context. Granting
    /// twice is the same as granting once; grants are never revoked.
    pub fn grant(&mut self, ctx: ExecutionContext, thread: usize, obj: usize)
        requires
            old(self).wf(),
            ctx == ExecutionContext::Kernel,
            context_admits(ctx, old(self)@.privilege()),
            thread < old(self)@.threads.len(),
            obj < old(self)@.owners.len(),
        ensures
            final(self).wf(),
            final(self)@ == old(self)@.grant(thread, obj),
            forall|t: usize, o: usize|
                #![trigger final(self)@.granted(t, o)]
                final(self)@.granted(t, o) <==> old(self)@.granted(t, o) || (t == thread && o
                    == obj),
    {
        if !self.is_granted(thread, obj) {
            self.grants.push((thread, obj));
            proof {
                assert(self@.grants[self@.grants.len() - 1] == (thread, obj));
                assert forall|t: usize, o: usize| #[trigger] self@.granted(t, o) <==> old(self)@.granted(t, o)
                    || (t == thread && o == obj) by {
                    if old(self)@.granted(t, o) {
                        let i = choose|i: int| 0 <= i < old(self)@.grants.len() && old(self)@.grants[i] == (t, o);
                        assert(self@.grants[i] == (t, o));
                    }
                    if self@.granted(t, o) && !(t == thread && o == obj) {
                        let i = choose|i: int| 0 <= i < self@.grants.len() && self@.grants[i] == (t, o);
                        assert(old(self)@.grants[i] == (t, o));
                    }
                }
            }
        }
    }

    /// Drops the running thread to user mode, for good: nothing after this
    /// gives it back supervisor privilege. Its thread-local cell is kept.
    pub fn enter_user_mode(&mut self)
        requires
            old(self).wf(),
        ensures
            final(self).wf(),
            final(self)@ == old(self)@.demote(),
    {
        let cur = self.current;
        let t = self.threads[cur];
        self.threads.set(cur, ThreadState { privilege: Privilege::Unprivileged, cell: t.cell });
    }

    /// The thread-local cell of the running thread.
    pub fn cell(&self) -> (r: u8)
        requires
            self.wf(),
        ensures
            r == self@.cell(),
    {
        self.threads[self.current].cell
    }

    /// Writes the thread-local cell of the running thread; no other
    /// thread's cell changes.
    pub fn set_cell(&mut self, v: u8)
        requires
            old(self).wf(),
        ensures
            final(self).wf(),
            final(self)@ == old(self)@.set_cell(v),
    {
        let cur = self.current;
        let t = self.threads[cur];
        self.threads.set(cur, ThreadState { privilege: t.privilege, cell: v });
    }

    /// Creates a supervisor thread, which does not run yet, and returns its
    /// index.
    pub fn spawn(&mut self) -> (r: usize)
        requires
            old(self).wf(),
            old(self)@.threads.len() < usize::MAX,
        ensures
            final(self).wf(),
            final(self)@ == old(self)@.spawn(),
            r == old(self)@.threads.len(),
    {
        let r = self.threads.len();
        self.threads.push(ThreadState { privilege: Privilege::Supervisor, cell: INITIAL_CELL });
        r
    }

    /// The scheduler runs `thread` from now on.
    pub fn switch_to(&mut self, thread: usize)
        requires
            old(self).wf(),
            thread < old(self)@.threads.len(),
        ensures
            final(self).wf(),
            final(self)@ == old(self)@.switch_to(thread),
    {
        self.current = thread;
    }

    /// Lets `ms` milliseconds pass.
    pub fn sleep_ms(&mut self, ms: u64)
        requires
            old(self).wf(),
            old(self)@.uptime + ms <= u64::MAX,
        ensures
            final(self).wf(),
            final(self)@ == old(self)@.sleep(ms),
    {
        self.uptime = self.uptime + ms;
    }

    /// Records that a live binding now wraps mutex `obj`.
    pub(crate) fn claim(&mut self, obj: usize)
        ensures
            final(self)@ == old(self)@.bind(obj),
    {
        self.bound = Ghost(self.bound@.insert(obj));
    }

    /// Records that the binding over mutex `obj` has ended.
    pub(crate) fn unclaim(&mut self, obj: usize)
        ensures
            final(self)@ == old(self)@.unbind(obj),
    {
        self.bound = Ghost(self.bound@.remove(obj));
    }

    /// The index of the running thread.
    pub fn current_thread(&self) -> (r: usize)
        ensures
            r == self@.current,
    {
        self.current
    }

    /// The privilege level of the running thread.
    pub fn privilege(&self) -> (r: Privilege)
        requires
            self.wf(),
        ensures
            r == self@.privilege(),
    {
        self.threads[self.current].privilege
    }

    /// Everything written to the diagnostic sink so far.
    pub fn output(&self) -> (r: &Vec<u8>)
        ensures
            r@ == self@.output,
    {
        &self.output
    }

    /// Whether `thread` has been granted mutex `obj`.
    pub fn is_granted(&self, thread: usize, obj: usize) -> (r: bool)
        ensures
            r == self@.granted(thread, obj),
    {
        let mut i: usize = 0;
        while i < self.grants.len()
            invariant
                i <= self.grants@.len(),
                forall|j: int| 0 <= j < i ==> self.grants@[j] != (thread, obj),
            decreases self.grants@.len() - i,
        {
            let g = self.grants[i];
            if g.0 == thread && g.1 == obj {
                assert(self.grants@[i as int] == (thread, obj));
                return true;
            }
            i = i + 1;
        }
        false
    }

    /// The thread that holds mutex `obj`, if any.
    pub fn owner(&self, obj: usize) -> (r: Option<usize>)
        requires
            obj < self@.owners.len(),
        ensures
            r == self@.owners[obj as int],
    {
        self.owners[obj]
    }
}

} // verus!
