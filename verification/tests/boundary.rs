use ferrite::import::{
    FerVar, FerVarInfo, FerVarPerm, FerVarStatus, FerVarType, FerVarValue, PERM_ALL, PERM_READ,
    PERM_REQUEST, PERM_WRITE, STATUS_ERROR, STATUS_OK,
};
use ferrite::registry::{check_separator, is_suffix, GetDowncastErrorKind, Registry};
use ferrite::typed::scalar::{F32Bits, F64Bits};
use ferrite::typed::{
    check_view, decide_acquire, decide_commit, AcquireStep, Poll, Type, TypedVariable,
};
use ferrite::variable::read::ReadVariable;
use ferrite::variable::read_array::ReadArrayVariable;
use ferrite::variable::write::WriteVariable;
use ferrite::variable::{is_legal_edge, LockedVariable, SharedState, Stage, Variable};

fn variable(name: &str, type_: FerVarType, max_len: usize, perm: FerVarPerm) -> Variable {
    Variable::initialize(FerVar::new(name, FerVarInfo { perm, type_, max_len }))
}

fn read_only() -> FerVarPerm {
    FerVarPerm { read: true, write: false, request: false }
}

const STAGES: [Stage; 4] = [Stage::Idle, Stage::Requested, Stage::Processing, Stage::Committed];

#[test]
fn type_codes_are_bit_exact() {
    let all = [
        (FerVarType::U8, 0u32),
        (FerVarType::I8, 1),
        (FerVarType::U16, 2),
        (FerVarType::I16, 3),
        (FerVarType::U32, 4),
        (FerVarType::I32, 5),
        (FerVarType::U64, 6),
        (FerVarType::I64, 7),
        (FerVarType::F32, 8),
        (FerVarType::F64, 9),
    ];
    for (t, code) in all {
        assert_eq!(t.type_id(), code);
        assert_eq!(FerVarType::from_type_id(code), Some(t));
    }
    assert_eq!(FerVarType::from_type_id(10), None);
    assert_eq!(FerVarType::from_type_id(u32::MAX), None);
}

#[test]
fn perm_bits_are_bit_exact() {
    assert_eq!(PERM_READ, 1);
    assert_eq!(PERM_WRITE, 2);
    assert_eq!(PERM_REQUEST, 4);
    assert_eq!(PERM_ALL, 7);
    assert_eq!(FerVarPerm::all().bits(), 7);
    assert_eq!(FerVarPerm::empty().bits(), 0);
    assert_eq!(read_only().bits(), 1);
    assert_eq!(FerVarPerm { read: false, write: true, request: false }.bits(), 2);
    assert_eq!(FerVarPerm { read: false, write: false, request: true }.bits(), 4);
    for bits in 0..8u32 {
        assert_eq!(FerVarPerm::from_bits(bits).unwrap().bits(), bits);
    }
    assert_eq!(FerVarPerm::from_bits(8), None);
    assert!(FerVarPerm::all().contains(read_only()));
    assert!(!read_only().contains(FerVarPerm::all()));
    assert_eq!(read_only().union(FerVarPerm { read: false, write: true, request: true }), FerVarPerm::all());
}

#[test]
fn status_codes_are_bit_exact() {
    assert_eq!(STATUS_OK, 0);
    assert_eq!(STATUS_ERROR, 1);
    assert_eq!(FerVarStatus::Success.code(), 0);
    assert_eq!(FerVarStatus::Failure.code(), 1);
}

#[test]
fn only_five_edges_are_legal() {
    let legal = [
        (Stage::Idle, Stage::Requested),
        (Stage::Idle, Stage::Processing),
        (Stage::Requested, Stage::Processing),
        (Stage::Processing, Stage::Committed),
        (Stage::Committed, Stage::Idle),
    ];
    let mut count = 0;
    for from in STAGES {
        for to in STAGES {
            let expected = legal.contains(&(from, to));
            assert_eq!(is_legal_edge(from, to), expected);
            if expected {
                count += 1;
            }
        }
    }
    assert_eq!(count, 5);
}

#[test]
fn shared_state_moves_along_legal_edges_only() {
    let mut state = SharedState::new();
    assert_eq!(state.stage(), Stage::Idle);
    assert!(!state.try_transition(Stage::Idle, Stage::Committed));
    assert_eq!(state.stage(), Stage::Idle);
    assert!(!state.try_transition(Stage::Requested, Stage::Processing));
    assert_eq!(state.stage(), Stage::Idle);
    assert!(state.try_transition(Stage::Idle, Stage::Requested));
    assert_eq!(state.transition(Stage::Requested, Stage::Processing), Stage::Requested);
    assert_eq!(state.transition(Stage::Processing, Stage::Committed), Stage::Processing);
    assert_eq!(state.transition(Stage::Committed, Stage::Idle), Stage::Committed);
    assert_eq!(state.stage(), Stage::Idle);
}

#[test]
fn waker_slot_holds_one_waker_and_wakes_once() {
    let mut state = SharedState::new();
    assert_eq!(state.wake(), None);
    state.set_waker(1);
    state.set_waker(2);
    assert_eq!(state.wake(), Some(2));
    assert_eq!(state.wake(), None);
}

#[test]
fn host_transitions_wake_the_registered_waker() {
    let mut var = variable("v", FerVarType::U8, 0, FerVarPerm::all());
    var.set_waker(21);
    assert_eq!(var.system().proc_begin(), Some(21));
    assert_eq!(var.stage(), Stage::Processing);
    var.set_waker(22);
    let mut locked = var.lock();
    assert!(locked.base.raw().locked);
    locked.commit(Ok(()));
    locked.unlock();
    assert!(!var.raw().locked);
    assert_eq!(var.system().proc_end(), Some(22));
    assert_eq!(var.stage(), Stage::Idle);
    assert_eq!(var.system().proc_begin(), None);
}

#[test]
fn user_and_host_write_the_value_in_turn() {
    let mut var = variable("v", FerVarType::U8, 2, FerVarPerm::all());
    var.system().store(FerVarValue { len: 1, data: vec![3, 0] });
    assert_eq!(var.len(), 1);
    assert_eq!(var.load(0), 3);
    let mut locked = var.lock();
    locked.request_proc();
    locked.unlock();
    assert!(var.raw().requested);
    let mut host = var.system();
    assert_eq!(host.proc_begin(), None);
    assert_eq!(host.base.stage(), Stage::Processing);
    var.store(1, 9);
    var.set_len(2);
    assert_eq!(var.raw().value.data, vec![3, 9]);
    assert_eq!(var.raw().value.len, 2);
    var.raw_lock();
    assert!(var.raw().locked);
    let mut locked = LockedVariable::without_lock(&mut var);
    locked.commit(Err("late"));
    var.raw_unlock();
    assert!(!var.raw().locked);
    assert_eq!(var.raw().commits[0].status, FerVarStatus::Failure);
    assert_eq!(var.raw().commits[0].message, "late");
    var.system().store(FerVarValue { len: 0, data: vec![0, 0] });
    assert_eq!(var.len(), 0);
    assert!(var.has_name("v"));
    assert!(!var.has_name("w"));
    assert_eq!(var.info().max_len, 2);
}

#[test]
fn guard_without_lock_leaves_the_mutex_to_its_holder() {
    let mut var = variable("v", FerVarType::U8, 0, FerVarPerm::all());
    var.raw_lock();
    let mut locked = LockedVariable::without_lock(&mut var);
    locked.request_proc();
    assert_eq!(locked.base.stage(), Stage::Requested);
    assert!(var.raw().locked);
    var.raw_unlock();
    assert!(!var.raw().locked);
}

#[test]
fn acquire_decisions() {
    assert_eq!(decide_acquire(Stage::Idle, true), AcquireStep::Request);
    assert_eq!(decide_acquire(Stage::Idle, false), AcquireStep::Wait);
    assert_eq!(decide_acquire(Stage::Requested, true), AcquireStep::Wait);
    assert_eq!(decide_acquire(Stage::Requested, false), AcquireStep::Wait);
    assert_eq!(decide_acquire(Stage::Processing, true), AcquireStep::Enter);
    assert_eq!(decide_acquire(Stage::Processing, false), AcquireStep::Enter);
    assert_eq!(decide_acquire(Stage::Committed, true), AcquireStep::Wait);
    assert_eq!(decide_acquire(Stage::Committed, false), AcquireStep::Wait);
    assert!(!decide_commit(Stage::Committed));
    assert!(decide_commit(Stage::Idle));
    assert!(decide_commit(Stage::Processing));
}

#[test]
fn suffix_rule() {
    assert!(is_suffix("record:field", "field"));
    assert!(is_suffix("record.field", "field"));
    assert!(!is_suffix("somefield", "field"));
    assert!(!is_suffix("sub_field", "field"));
    assert!(is_suffix("field", "field"));
    assert!(!is_suffix("eld", "field"));
    assert!(!is_suffix("record:fiel", "field"));
    assert!(is_suffix("a/b", "b"));
    assert!(!is_suffix("a b", "b"));
    assert!(!is_suffix("a1b", "b"));
    assert!(is_suffix("", ""));
    assert!(is_suffix("x:", ""));
    assert!(!is_suffix("x", ""));
    assert!(!is_suffix("\u{e9}field", "field"));
}

#[test]
fn separators_are_ascii_punctuation_without_underscore() {
    for byte in 0..=255u8 {
        let expected = (byte as char).is_ascii_punctuation() && byte != b'_';
        assert_eq!(check_separator(byte), expected);
    }
}

#[test]
fn not_found_exactly_for_missing_names() {
    let mut reg = Registry::new();
    reg.insert(variable("x:pid", FerVarType::I32, 0, FerVarPerm::all()));
    let res = reg.remove_downcast::<TypedVariable<i32, 7>>("y:pid");
    match res {
        Err(e) => {
            assert_eq!(e.kind, GetDowncastErrorKind::NotFound);
            assert_eq!(e.name, "y:pid");
            assert_eq!(e.message(), "PV 'y:pid': Not found");
        },
        Ok(_) => panic!("no such variable"),
    }
    assert_eq!(reg.len(), 1);
    assert!(reg.contains("x:pid"));
    assert!(reg.remove_downcast::<TypedVariable<i32, 7>>("x:pid").is_ok());
    assert!(matches!(
        reg.remove_downcast::<TypedVariable<i32, 7>>("x:pid"),
        Err(e) if e.kind == GetDowncastErrorKind::NotFound
    ));
}

#[test]
fn suffix_lookup() {
    let mut reg = Registry::new();
    reg.insert(variable("somefield", FerVarType::I32, 0, FerVarPerm::all()));
    reg.insert(variable("sub_field", FerVarType::I32, 0, FerVarPerm::all()));
    let res = reg.remove_downcast_suffix::<TypedVariable<i32, 7>>("field");
    match res {
        Err(e) => {
            assert_eq!(e.kind, GetDowncastErrorKind::NotFound);
            assert_eq!(e.name, "*field");
        },
        Ok(_) => panic!("no name has that suffix"),
    }
    assert_eq!(reg.len(), 2);
    reg.insert(variable("record:field", FerVarType::I32, 0, FerVarPerm::all()));
    reg.insert(variable("other.field", FerVarType::I32, 0, FerVarPerm::all()));
    let var = reg.remove_downcast_suffix::<TypedVariable<i32, 7>>("field").unwrap();
    assert_eq!(var.name(), "record:field");
    assert_eq!(reg.names(), vec!["somefield", "sub_field", "other.field"]);
    let wrong = reg.remove_downcast_suffix::<TypedVariable<u8, 7>>("field");
    match wrong {
        Err(e) => {
            assert_eq!(e.name, "other.field");
            assert!(matches!(e.kind, GetDowncastErrorKind::WrongType(_)));
        },
        Ok(_) => panic!("the element type differs"),
    }
    assert_eq!(reg.len(), 2);
}

#[test]
fn read_only_variable_gives_no_writing_view() {
    let mut reg = Registry::new();
    reg.insert(variable("ro", FerVarType::I32, 0, read_only()));
    let res = reg.remove_downcast::<TypedVariable<i32, 2>>("ro");
    match res {
        Err(e) => assert_eq!(
            e.kind,
            GetDowncastErrorKind::WrongType(FerVarInfo {
                perm: read_only(),
                type_: FerVarType::I32,
                max_len: 0
            })
        ),
        Ok(_) => panic!("the variable is read-only"),
    }
    reg.insert(variable("ro", FerVarType::I32, 0, read_only()));
    assert!(reg.remove_downcast::<WriteVariable<i32>>("ro").is_err());
    reg.insert(variable("ro", FerVarType::I32, 0, read_only()));
    assert!(reg.remove_downcast::<ReadVariable<i32>>("ro").is_err());
    reg.insert(variable("ro", FerVarType::I32, 0, read_only()));
    assert!(reg.remove_downcast::<TypedVariable<i32, 1>>("ro").is_ok());
}

#[test]
fn view_checks() {
    let scalar = FerVarInfo { perm: FerVarPerm::all(), type_: FerVarType::U16, max_len: 0 };
    let array = FerVarInfo { perm: FerVarPerm::all(), type_: FerVarType::U16, max_len: 3 };
    assert!(check_view::<u16>(scalar, 7));
    assert!(check_view::<u16>(scalar, 0));
    assert!(!check_view::<u16>(scalar, 8));
    assert!(!check_view::<i16>(scalar, 7));
    assert!(!check_view::<[u16]>(scalar, 7));
    assert!(check_view::<[u16]>(array, 7));
    assert!(!check_view::<u16>(array, 7));
    let no_request = FerVarInfo {
        perm: FerVarPerm { read: true, write: true, request: false },
        type_: FerVarType::F32,
        max_len: 0,
    };
    assert!(check_view::<F32Bits>(no_request, 3));
    assert!(!check_view::<F32Bits>(no_request, 4));
    assert!(!check_view::<F64Bits>(no_request, 3));
}

#[test]
fn check_empty_lists_what_is_left() {
    let mut reg = Registry::new();
    assert!(reg.is_empty());
    assert!(reg.check_empty().is_ok());
    reg.insert(variable("a", FerVarType::U8, 0, FerVarPerm::all()));
    reg.insert(variable("b", FerVarType::U8, 2, FerVarPerm::all()));
    match reg.check_empty() {
        Err(e) => assert_eq!(e.0, vec!["a", "b"]),
        Ok(()) => panic!("two variables are left"),
    }
    let taken = reg.remove("a").expect("it is held");
    assert_eq!(taken.name(), "a");
    assert!(reg.remove("a").is_none());
    let mut handed = reg.take();
    assert!(reg.is_empty());
    assert_eq!(handed.len(), 1);
    assert!(handed.remove_downcast::<TypedVariable<[u8], 7>>("b").is_ok());
    assert!(handed.check_empty().is_ok());
}

#[test]
fn element_bits_round_trip() {
    assert_eq!((-1i8).to_bits(), 0xFF);
    assert_eq!((-1i16).to_bits(), 0xFFFF);
    assert_eq!((-1i32).to_bits(), 0xFFFF_FFFF);
    assert_eq!((-1i64).to_bits(), u64::MAX);
    assert_eq!(i32::MIN.to_bits(), 0x8000_0000);
    assert_eq!(<i32 as Type>::from_bits(0x8000_0000), i32::MIN);
    assert_eq!(<i32 as Type>::from_bits(0x1_0000_0005), 5);
    assert_eq!(<u8 as Type>::from_bits(0x1FF), 0xFF);
    assert_eq!(200u8.to_bits(), 200);
    assert_eq!(<i64 as Type>::from_bits(u64::MAX), -1);
    for v in [i8::MIN, -1, 0, 1, i8::MAX] {
        assert_eq!(<i8 as Type>::from_bits(v.to_bits()), v);
    }
    for v in [i16::MIN, -1, 0, 1, i16::MAX] {
        assert_eq!(<i16 as Type>::from_bits(v.to_bits()), v);
    }
    for v in [i32::MIN, -42, 0, 42, i32::MAX] {
        assert_eq!(<i32 as Type>::from_bits(v.to_bits()), v);
    }
    for v in [i64::MIN, -42, 0, 42, i64::MAX] {
        assert_eq!(<i64 as Type>::from_bits(v.to_bits()), v);
    }
    for v in [0u64, 1, u64::MAX] {
        assert_eq!(<u64 as Type>::from_bits(v.to_bits()), v);
    }
    for v in [0u32, 1, u32::MAX] {
        assert_eq!(<u32 as Type>::from_bits(v.to_bits()), v);
    }
    for v in [0u16, 1, u16::MAX] {
        assert_eq!(<u16 as Type>::from_bits(v.to_bits()), v);
    }
    let f = F32Bits(1.5f32.to_bits());
    assert_eq!(f32::from_bits(<F32Bits as Type>::from_bits(f.to_bits()).0), 1.5);
    let d = F64Bits((-2.25f64).to_bits());
    assert_eq!(f64::from_bits(<F64Bits as Type>::from_bits(d.to_bits()).0), -2.25);
    assert_eq!(<i32 as Type>::type_(), FerVarType::I32);
    assert_eq!(<F64Bits as Type>::type_(), FerVarType::F64);
    assert_eq!(<u8 as Type>::type_(), FerVarType::U8);
}

#[test]
fn scalar_write_then_read_round_trip() {
    let mut reg = Registry::new();
    reg.insert(variable("x", FerVarType::I64, 0, FerVarPerm::all()));
    let mut var: TypedVariable<i64, 7> = reg.remove_downcast("x").unwrap();
    let acquire = var.request();
    acquire.poll(&mut var, 1);
    var.proc_begin();
    let guard = match acquire.poll(&mut var, 1) {
        Poll::Ready(guard) => guard,
        Poll::Pending => panic!("processing"),
    };
    let commit = guard.write(-77);
    var.proc_end();
    assert!(commit.poll(&mut var, 1).is_ready());
    let again = var.request();
    again.poll(&mut var, 1);
    var.proc_begin();
    let guard = match again.poll(&mut var, 1) {
        Poll::Ready(guard) => guard,
        Poll::Pending => panic!("processing"),
    };
    let (value, _) = guard.read();
    assert_eq!(value, -77);
}

fn enter_array(var: &mut TypedVariable<[i16], 7>) -> ferrite::typed::ValueGuard<'_, [i16], 7> {
    let acquire = var.request();
    acquire.poll(var, 1);
    var.proc_begin();
    match acquire.poll(var, 1) {
        Poll::Ready(guard) => guard,
        Poll::Pending => panic!("processing"),
    }
}

#[test]
fn array_write_then_read_round_trip() {
    let mut reg = Registry::new();
    reg.insert(variable("arr", FerVarType::I16, 5, FerVarPerm::all()));
    let mut var: TypedVariable<[i16], 7> = reg.remove_downcast("arr").unwrap();
    for k in 0..=5usize {
        let items: Vec<i16> = (0..k as i16).map(|i| i * 3 - 4).collect();
        let guard = enter_array(&mut var);
        let _ = guard.write_from_slice(&items);
        var.proc_end();
        let guard = enter_array(&mut var);
        assert_eq!(guard.len(), k);
        let (read, _) = guard.read_into_vec();
        assert_eq!(read, items);
        var.proc_end();
    }
}

#[test]
fn array_write_stops_at_capacity() {
    let mut reg = Registry::new();
    reg.insert(variable("arr", FerVarType::I16, 3, FerVarPerm::all()));
    let mut var: TypedVariable<[i16], 7> = reg.remove_downcast("arr").unwrap();
    let guard = enter_array(&mut var);
    let _ = guard.write_from(vec![10, 20, 30, 40]);
    assert_eq!(var.base().raw().value.len, 3);
    assert_eq!(var.base().raw().value.data, vec![10, 20, 30]);
    var.proc_end();
    let guard = enter_array(&mut var);
    let _ = guard.write_from_slice(&[-1]);
    assert_eq!(var.base().raw().value.len, 1);
    assert_eq!(var.base().raw().value.data, vec![0xFFFF, 20, 30]);
    var.proc_end();
    let guard = enter_array(&mut var);
    let _ = guard.write_from_iter((1..=9).map(|i| -i).collect());
    assert_eq!(var.base().raw().value.len, 3);
    assert_eq!(var.base().raw().value.data, vec![0xFFFF, 0xFFFE, 0xFFFD]);
    var.proc_end();
    let guard = enter_array(&mut var);
    let _ = guard.write_from_slice(&[-1]);
    var.proc_end();
    let guard = enter_array(&mut var);
    let mut sink = vec![7i16];
    let _ = guard.read_to_vec(&mut sink);
    assert_eq!(sink, vec![7, -1]);
    var.proc_end();
    var.host_store(FerVarValue { len: 2, data: vec![5, 6, 7] });
    let guard = enter_array(&mut var);
    let mut slice = [0i16; 4];
    let (n, _) = guard.read_to_slice(&mut slice);
    assert_eq!(n, 2);
    assert_eq!(slice, [5, 6, 0, 0]);
}

#[test]
fn array_push_stops_when_full() {
    let mut reg = Registry::new();
    reg.insert(variable("arr", FerVarType::I16, 2, FerVarPerm::all()));
    let mut var: TypedVariable<[i16], 7> = reg.remove_downcast("arr").unwrap();
    let mut guard = enter_array(&mut var);
    assert_eq!(guard.capacity(), 2);
    assert_eq!(guard.push(5), Ok(()));
    assert_eq!(guard.push(-6), Ok(()));
    assert_eq!(guard.push(7), Err(7));
    assert_eq!(guard.len(), 2);
    assert_eq!(guard.get(0), 5);
    assert_eq!(guard.get(1), -6);
    assert_eq!(guard.owner.base().raw().value.data, vec![5, 0xFFFA]);
    guard.clear();
    assert_eq!(guard.len(), 0);
    assert_eq!(guard.owner.base().raw().value.data, vec![5, 0xFFFA]);
    let _ = guard.accept();
    assert_eq!(var.stage(), Stage::Committed);
}

#[test]
fn zeroed_value_fits_its_metadata() {
    let scalar = FerVarValue::zeroed(FerVarInfo {
        perm: FerVarPerm::all(),
        type_: FerVarType::U8,
        max_len: 0,
    });
    assert_eq!(scalar.len, 0);
    assert_eq!(scalar.data, vec![0]);
    let array = FerVarValue::zeroed(FerVarInfo {
        perm: FerVarPerm::all(),
        type_: FerVarType::U8,
        max_len: 3,
    });
    assert_eq!(array.len, 0);
    assert_eq!(array.data, vec![0, 0, 0]);
}

#[test]
fn whole_cycle_write_and_read() {
    assert!(WriteVariable::<u32>::from_raw(variable("a", FerVarType::U32, 1, FerVarPerm::all()))
        .is_none());
    assert!(ReadVariable::<u32>::from_raw(variable("a", FerVarType::I32, 0, FerVarPerm::all()))
        .is_none());
    assert!(ReadArrayVariable::<u32>::from_raw(variable("a", FerVarType::U32, 0, FerVarPerm::all()))
        .is_none());
    assert!(ReadArrayVariable::<u32>::from_raw(variable("a", FerVarType::U32, 1, FerVarPerm::all()))
        .is_some());
    let mut reg = Registry::new();
    reg.insert(variable("w", FerVarType::U32, 0, FerVarPerm::all()));
    reg.insert(variable("r", FerVarType::U32, 0, FerVarPerm::all()));
    let mut w: WriteVariable<u32> = reg.remove_downcast("w").unwrap();
    let mut future = w.write(99);
    assert!(future.poll(&mut w, 1).is_pending());
    assert_eq!(w.typed.stage(), Stage::Requested);
    assert!(future.poll(&mut w, 1).is_pending());
    w.typed.proc_begin();
    assert!(future.poll(&mut w, 1).is_pending());
    assert_eq!(w.typed.stage(), Stage::Committed);
    assert_eq!(w.typed.base().raw().value.data[0], 99);
    assert!(future.poll(&mut w, 1).is_pending());
    w.typed.proc_end();
    assert!(future.poll(&mut w, 1).is_ready());

    let mut r: ReadVariable<u32> = reg.remove_downcast("r").unwrap();
    r.typed.host_store(FerVarValue { len: 0, data: vec![31] });
    let mut future = r.read();
    assert!(future.poll(&mut r, 2).is_pending());
    assert_eq!(r.typed.proc_begin(), Some(2));
    assert!(future.poll(&mut r, 2).is_pending());
    r.typed.proc_end();
    r.typed.host_store(FerVarValue { len: 0, data: vec![32] });
    match future.poll(&mut r, 2) {
        Poll::Ready(value) => assert_eq!(value, 31),
        Poll::Pending => panic!("the cycle is over"),
    }
}

#[test]
fn whole_cycle_array_read() {
    let mut reg = Registry::new();
    reg.insert(variable("a", FerVarType::U8, 3, FerVarPerm::all()));
    let mut a: ReadArrayVariable<u8> = reg.remove_downcast("a").unwrap();
    a.typed.host_store(FerVarValue { len: 2, data: vec![8, 9, 0] });
    let mut dst = [1u8; 3];
    let mut future = a.read_to_slice();
    assert!(future.poll(&mut a, &mut dst, 1).is_pending());
    a.typed.proc_begin();
    assert!(future.poll(&mut a, &mut dst, 1).is_pending());
    assert_eq!(dst, [8, 9, 1]);
    a.typed.proc_end();
    match future.poll(&mut a, &mut dst, 1) {
        Poll::Ready(n) => assert_eq!(n, Some(2)),
        Poll::Pending => panic!("the cycle is over"),
    }
    let mut short = [0u8; 1];
    let mut future = a.read_to_slice();
    future.poll(&mut a, &mut short, 1);
    a.typed.proc_begin();
    future.poll(&mut a, &mut short, 1);
    assert_eq!(short, [0]);
    a.typed.proc_end();
    match future.poll(&mut a, &mut short, 1) {
        Poll::Ready(n) => assert_eq!(n, None),
        Poll::Pending => panic!("the cycle is over"),
    }
    let in_place = a.read_in_place();
    assert!(in_place.poll(&mut a, 1).is_pending());
    a.typed.proc_begin();
    match in_place.poll(&mut a, 1) {
        Poll::Ready(guard) => {
            assert_eq!(guard.len(), 2);
            let (read, _) = guard.read_into_vec();
            assert_eq!(read, vec![8, 9]);
        },
        Poll::Pending => panic!("processing"),
    }
}
