use rtos_dispatch::binding::Binding;
use rtos_dispatch::context::{dispatch, resolve, trap_needed, ExecutionContext, Privilege, Strategy};
use rtos_dispatch::kernel::{Operation, Outcome, Reply, System, INITIAL_CELL};

fn kernel() -> System {
    System::new(2, vec![b"uart0".to_vec(), b"gpio".to_vec(), b"uart0".to_vec()])
}

#[test]
fn each_context_selects_its_strategy() {
    assert_eq!(dispatch(ExecutionContext::Kernel), Strategy::Direct);
    assert_eq!(dispatch(ExecutionContext::User), Strategy::Trapped);
    assert_eq!(dispatch(ExecutionContext::Any), Strategy::Auto);
}

#[test]
fn auto_traps_only_when_unprivileged() {
    assert!(!resolve(Strategy::Auto, Privilege::Supervisor));
    assert!(resolve(Strategy::Auto, Privilege::Unprivileged));
    assert!(!resolve(Strategy::Direct, Privilege::Unprivileged));
    assert!(resolve(Strategy::Trapped, Privilege::Supervisor));
    assert!(!trap_needed(ExecutionContext::Kernel, Privilege::Supervisor));
    assert!(trap_needed(ExecutionContext::User, Privilege::Supervisor));
    assert!(trap_needed(ExecutionContext::Any, Privilege::Unprivileged));
}

#[test]
fn string_output_is_the_same_through_every_context() {
    let mut sys = kernel();
    let op = Operation::StrOut(b"hi\n".to_vec());
    let k = sys.syscall(ExecutionContext::Kernel, &op);
    let u = sys.syscall(ExecutionContext::User, &op);
    let a = sys.syscall(ExecutionContext::Any, &op);
    assert_eq!(k, Outcome { trapped: false, reply: Reply::Done });
    assert_eq!(u, Outcome { trapped: true, reply: Reply::Done });
    assert_eq!(a, Outcome { trapped: false, reply: Reply::Done });
    assert_eq!(sys.output().clone(), b"hi\nhi\nhi\n".to_vec());
}

#[test]
fn any_traps_after_entering_user_mode() {
    let mut sys = kernel();
    sys.enter_user_mode();
    assert_eq!(sys.privilege(), Privilege::Unprivileged);
    let a = sys.syscall(ExecutionContext::Any, &Operation::StrOut(b"x".to_vec()));
    assert!(a.trapped);
    let u = sys.syscall(ExecutionContext::User, &Operation::StrOut(b"y".to_vec()));
    assert!(u.trapped);
    assert_eq!(sys.output().clone(), b"xy".to_vec());
}

#[test]
fn uptime_does_not_decrease_across_a_sleep() {
    let mut sys = kernel();
    let first = sys.syscall(ExecutionContext::Kernel, &Operation::UptimeGet).reply;
    sys.sleep_ms(1);
    let second = sys.syscall(ExecutionContext::Kernel, &Operation::UptimeGet).reply;
    match (first, second) {
        (Reply::Uptime(a), Reply::Uptime(b)) => {
            assert!(b >= a);
            assert_eq!(a, 0);
            assert_eq!(b, 1);
        }
        _ => panic!("uptime reply expected"),
    }
}

#[test]
fn unknown_device_is_absent() {
    let mut sys = kernel();
    let r = sys.syscall(ExecutionContext::Kernel, &Operation::DeviceGetBinding(b"nonexistent".to_vec()));
    assert_eq!(r.reply, Reply::Device(None));
}

#[test]
fn device_lookup_finds_the_first_match() {
    let mut sys = kernel();
    let r = sys.syscall(ExecutionContext::Kernel, &Operation::DeviceGetBinding(b"uart0".to_vec()));
    assert_eq!(r.reply, Reply::Device(Some(0)));
    let g = sys.syscall(ExecutionContext::Any, &Operation::DeviceGetBinding(b"gpio".to_vec()));
    assert_eq!(g.reply, Reply::Device(Some(1)));
    let empty = sys.syscall(ExecutionContext::Any, &Operation::DeviceGetBinding(Vec::new()));
    assert_eq!(empty.reply, Reply::Device(None));
}

#[test]
fn grant_is_idempotent() {
    let mut sys = kernel();
    assert!(!sys.is_granted(0, 1));
    sys.grant(ExecutionContext::Kernel, 0, 1);
    sys.grant(ExecutionContext::Kernel, 0, 1);
    assert!(sys.is_granted(0, 1));
    assert!(!sys.is_granted(0, 0));
    assert!(!sys.is_granted(1, 1));
}

#[test]
fn binding_locks_from_every_context() {
    let mut sys = kernel();
    sys.grant(ExecutionContext::Kernel, 0, 0);
    let b = Binding::new(&mut sys, 0, 1u32);
    assert_eq!(*b.payload(), 1);
    for ctx in [ExecutionContext::Kernel, ExecutionContext::User, ExecutionContext::Any] {
        let g = b.lock(&mut sys, ctx).expect("a free mutex is acquired");
        assert_eq!(g.descriptor(), 0);
        assert_eq!(sys.owner(0), Some(0));
        g.release(&mut sys);
        assert_eq!(sys.owner(0), None);
    }
    assert_eq!(b.into_payload(&mut sys), 1);
}

#[test]
fn second_thread_blocks_while_the_mutex_is_held() {
    let mut sys = kernel();
    let other = sys.spawn();
    sys.grant(ExecutionContext::Kernel, 0, 0);
    sys.grant(ExecutionContext::Kernel, other, 0);
    let b = Binding::new(&mut sys, 0, 7u32);
    let g = b.lock(&mut sys, ExecutionContext::Any).expect("free");
    sys.switch_to(other);
    assert!(b.lock(&mut sys, ExecutionContext::User).is_none());
    assert_eq!(sys.owner(0), Some(0));
    sys.switch_to(0);
    g.release(&mut sys);
    sys.switch_to(other);
    let g2 = b.lock(&mut sys, ExecutionContext::User).expect("released");
    assert_eq!(sys.owner(0), Some(other));
    g2.release(&mut sys);
}

#[test]
fn granted_mutex_is_usable_after_demotion() {
    let mut sys = kernel();
    sys.grant(ExecutionContext::Kernel, 0, 1);
    let b = Binding::new(&mut sys, 1, ());
    sys.enter_user_mode();
    let g = b.lock(&mut sys, ExecutionContext::User).expect("free");
    assert_eq!(sys.owner(1), Some(0));
    g.release(&mut sys);
    let g = b.lock(&mut sys, ExecutionContext::Any).expect("free");
    g.release(&mut sys);
    assert_eq!(sys.owner(1), None);
}

#[test]
fn thread_cell_survives_demotion_and_stays_per_thread() {
    let mut sys = kernel();
    let other = sys.spawn();
    assert_eq!(sys.cell(), INITIAL_CELL);
    sys.set_cell(2);
    sys.enter_user_mode();
    assert_eq!(sys.cell(), 2);
    sys.set_cell(3);
    assert_eq!(sys.cell(), 3);
    sys.switch_to(other);
    assert_eq!(sys.cell(), 1);
    assert_eq!(sys.privilege(), Privilege::Supervisor);
    sys.set_cell(55);
    sys.switch_to(0);
    assert_eq!(sys.cell(), 3);
    assert_eq!(sys.privilege(), Privilege::Unprivileged);
}

#[test]
fn demoted_thread_stays_unprivileged() {
    let mut sys = kernel();
    sys.enter_user_mode();
    let other = sys.spawn();
    sys.switch_to(other);
    sys.switch_to(0);
    sys.set_cell(9);
    sys.sleep_ms(5);
    sys.enter_user_mode();
    assert_eq!(sys.privilege(), Privilege::Unprivileged);
    assert_eq!(sys.current_thread(), 0);
}
