use ferrite::import::{FerVar, FerVarInfo, FerVarPerm, FerVarStatus, FerVarType, FerVarValue};
use ferrite::registry::{GetDowncastErrorKind, Registry};
use ferrite::typed::scalar::F64Bits;
use ferrite::typed::{Poll, TypedVariable, ValueGuard};
use ferrite::variable::{Stage, Variable, UNHANDLED};

fn declare(reg: &mut Registry, name: &str, type_: FerVarType, max_len: usize, perm: FerVarPerm) {
    let raw = FerVar::new(name, FerVarInfo { perm, type_, max_len });
    reg.insert(Variable::initialize(raw));
}

fn plant() -> Registry {
    let mut reg = Registry::new();
    declare(&mut reg, "x:pid", FerVarType::I32, 0, FerVarPerm::all());
    declare(&mut reg, "trace", FerVarType::F64, 4, FerVarPerm::all());
    reg
}

fn enter<V: ferrite::typed::Value + ?Sized, const P: u32>(
    var: &mut TypedVariable<V, P>,
    waker: u64,
) -> ValueGuard<'_, V, P> {
    let acquire = var.wait();
    match acquire.poll(var, waker) {
        Poll::Ready(guard) => guard,
        Poll::Pending => panic!("the variable is not being processed"),
    }
}

#[test]
fn request_write_then_host_cycle() {
    let mut reg = plant();
    let mut var: TypedVariable<i32, 7> = reg.remove_downcast("x:pid").unwrap();
    let acquire = var.request();
    assert!(acquire.poll(&mut var, 11).is_pending());
    assert_eq!(var.stage(), Stage::Requested);
    assert!(var.base().raw().requested);
    assert_eq!(var.proc_begin(), Some(11));
    assert_eq!(var.stage(), Stage::Processing);
    assert!(!var.base().raw().requested);
    let guard = match acquire.poll(&mut var, 11) {
        Poll::Ready(guard) => guard,
        Poll::Pending => panic!("the variable is being processed"),
    };
    let commit = guard.write(42);
    assert_eq!(var.stage(), Stage::Committed);
    assert_eq!(var.base().raw().value.data[0], 42);
    assert_eq!(var.base().raw().commits.len(), 1);
    assert_eq!(var.base().raw().commits[0].status, FerVarStatus::Success);
    assert_eq!(var.base().raw().commits[0].message, "");
    assert!(commit.poll(&mut var, 11).is_pending());
    assert_eq!(var.proc_end(), Some(11));
    assert_eq!(var.stage(), Stage::Idle);
    assert!(commit.poll(&mut var, 11).is_ready());
    assert!(!var.base().raw().locked);
}

#[test]
fn array_write_from_slice_is_seen_by_host() {
    let mut reg = plant();
    let mut var: TypedVariable<[F64Bits], 7> = reg.remove_downcast("trace").unwrap();
    assert_eq!(var.max_len(), 4);
    let acquire = var.request();
    assert!(acquire.poll(&mut var, 3).is_pending());
    var.proc_begin();
    let guard = match acquire.poll(&mut var, 3) {
        Poll::Ready(guard) => guard,
        Poll::Pending => panic!("the variable is being processed"),
    };
    let items = [F64Bits(1.0f64.to_bits()), F64Bits(2.0f64.to_bits()), F64Bits(3.0f64.to_bits())];
    let _commit = guard.write_from_slice(&items);
    let raw = var.base().raw();
    assert_eq!(raw.value.len, 3);
    assert_eq!(raw.value.data.len(), 4);
    let seen: Vec<f64> =
        raw.value.data[..raw.value.len].iter().map(|b| f64::from_bits(*b)).collect();
    assert_eq!(seen, vec![1.0, 2.0, 3.0]);
    assert_eq!(var.stage(), Stage::Committed);
}

#[test]
fn host_begins_of_its_own_accord_and_user_reads() {
    let mut reg = plant();
    let mut var: TypedVariable<i32, 7> = reg.remove_downcast("x:pid").unwrap();
    var.host_store(FerVarValue { len: 0, data: vec![1234] });
    let acquire = var.acquire();
    assert!(acquire.poll(&mut var, 1).is_pending());
    assert_eq!(var.stage(), Stage::Idle);
    assert!(!var.base().raw().requested);
    assert_eq!(var.proc_begin(), Some(1));
    let guard = match acquire.poll(&mut var, 1) {
        Poll::Ready(guard) => guard,
        Poll::Pending => panic!("the variable is being processed"),
    };
    assert_eq!(guard.get(), 1234);
    let (value, commit) = guard.read();
    assert_eq!(value, 1234);
    assert!(commit.poll(&mut var, 1).is_pending());
    var.proc_end();
    assert!(commit.poll(&mut var, 1).is_ready());
    let second = var.acquire();
    assert!(second.poll(&mut var, 2).is_pending());
    assert!(second.poll(&mut var, 2).is_pending());
    assert_eq!(var.stage(), Stage::Idle);
    assert_eq!(var.proc_begin(), Some(2));
    assert!(second.poll(&mut var, 2).is_ready());
}

#[test]
fn released_guard_rejects_and_next_acquire_works() {
    let mut reg = plant();
    let mut var: TypedVariable<i32, 7> = reg.remove_downcast("x:pid").unwrap();
    var.proc_begin();
    let guard = enter(&mut var, 4);
    guard.release();
    assert_eq!(var.stage(), Stage::Committed);
    let raw = var.base().raw();
    assert_eq!(raw.commits.len(), 1);
    assert_eq!(raw.commits[0].status, FerVarStatus::Failure);
    assert_eq!(raw.commits[0].message, "Unhandled error");
    assert_eq!(UNHANDLED, "Unhandled error");
    var.proc_end();
    assert_eq!(var.stage(), Stage::Idle);
    let acquire = var.request();
    assert!(acquire.poll(&mut var, 4).is_pending());
    var.proc_begin();
    assert!(acquire.poll(&mut var, 4).is_ready());
}

#[test]
fn array_as_scalar_is_wrong_type() {
    let mut reg = plant();
    let res = reg.remove_downcast::<TypedVariable<F64Bits, 7>>("trace");
    match res {
        Ok(_) => panic!("an array is no scalar"),
        Err(e) => {
            assert_eq!(e.name, "trace");
            assert_eq!(e.message(), "PV 'trace': Wrong type");
            match e.kind {
                GetDowncastErrorKind::WrongType(info) => {
                    assert_eq!(info.type_, FerVarType::F64);
                    assert_eq!(info.max_len, 4);
                    assert_eq!(info.perm, FerVarPerm::all());
                },
                GetDowncastErrorKind::NotFound => panic!("the variable is declared"),
            }
        },
    }
    assert_eq!(reg.len(), 1);
    assert!(!reg.contains("trace"));
}

#[test]
fn reject_hands_the_message_to_the_host() {
    let mut reg = plant();
    let mut var: TypedVariable<i32, 7> = reg.remove_downcast("x:pid").unwrap();
    var.proc_begin();
    let mut guard = enter(&mut var, 9);
    guard.set(-5);
    let commit = guard.reject("sensor fault");
    let raw = var.base().raw();
    assert_eq!(raw.commits[0].status, FerVarStatus::Failure);
    assert_eq!(raw.commits[0].message, "sensor fault");
    assert_eq!(raw.value.data[0], 0xFFFF_FFFB);
    assert_eq!(var.stage(), Stage::Committed);
    var.proc_end();
    assert!(commit.poll(&mut var, 9).is_ready());
    assert_eq!(var.stage(), Stage::Idle);
}

#[test]
fn try_acquire_only_while_processing() {
    let mut reg = plant();
    let mut var: TypedVariable<i32, 7> = reg.remove_downcast("x:pid").unwrap();
    assert!(var.try_acquire().is_none());
    var.proc_begin();
    let guard = var.try_acquire().expect("the variable is being processed");
    let _ = guard.accept();
    assert!(var.try_acquire().is_none());
}

#[test]
fn commit_poll_is_ready_when_a_new_cycle_has_begun() {
    let mut reg = plant();
    let mut var: TypedVariable<i32, 7> = reg.remove_downcast("x:pid").unwrap();
    var.proc_begin();
    let commit = enter(&mut var, 1).accept();
    var.proc_end();
    var.proc_begin();
    assert!(commit.poll(&mut var, 1).is_ready());
    assert_eq!(var.base().raw().commits.len(), 1);
}

#[test]
fn stages_run_in_cycles() {
    let mut reg = plant();
    let mut var: TypedVariable<i32, 7> = reg.remove_downcast("x:pid").unwrap();
    let mut seen = vec![var.stage()];
    let acquire = var.request();
    let _ = acquire.poll(&mut var, 1);
    seen.push(var.stage());
    var.proc_begin();
    seen.push(var.stage());
    let _ = enter(&mut var, 1).accept();
    seen.push(var.stage());
    var.proc_end();
    seen.push(var.stage());
    var.proc_begin();
    seen.push(var.stage());
    enter(&mut var, 1).release();
    seen.push(var.stage());
    var.proc_end();
    seen.push(var.stage());
    assert_eq!(
        seen,
        vec![
            Stage::Idle,
            Stage::Requested,
            Stage::Processing,
            Stage::Committed,
            Stage::Idle,
            Stage::Processing,
            Stage::Committed,
            Stage::Idle,
        ]
    );
}

#[test]
fn pending_polls_leave_the_stage_alone() {
    let mut reg = plant();
    let mut var: TypedVariable<i32, 7> = reg.remove_downcast("x:pid").unwrap();
    let waiting = var.wait();
    assert!(waiting.poll(&mut var, 1).is_pending());
    assert_eq!(var.stage(), Stage::Idle);
    let asking = var.request();
    assert!(asking.poll(&mut var, 2).is_pending());
    assert!(asking.poll(&mut var, 2).is_pending());
    assert!(waiting.poll(&mut var, 1).is_pending());
    assert_eq!(var.stage(), Stage::Requested);
    assert_eq!(var.proc_begin(), Some(1));
    let commit = enter(&mut var, 3).accept();
    assert!(waiting.poll(&mut var, 1).is_pending());
    assert!(asking.poll(&mut var, 2).is_pending());
    assert_eq!(var.stage(), Stage::Committed);
    assert!(commit.poll(&mut var, 3).is_pending());
    assert_eq!(var.proc_end(), Some(3));
    assert_eq!(var.stage(), Stage::Idle);
}
