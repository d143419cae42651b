use nvim_oxi::{
    callback_disposition, interpret_call_status, CallStatus, CallbackDisposition,
    ClosureRegistry, Error, LuaFun, Object,
};

#[test]
fn multi_call_closure_runs_twice_sequentially() {
    let mut reg = ClosureRegistry::new();
    let f: LuaFun<(), ()> = LuaFun::from_fn_mut(&mut reg);

    assert_eq!(f.begin_call(&mut reg), Ok(()));
    f.end_call(&mut reg);
    assert_eq!(f.begin_call(&mut reg), Ok(()));
    f.end_call(&mut reg);
}

#[test]
fn once_closure_fails_on_second_call() {
    let mut reg = ClosureRegistry::new();
    let f: LuaFun<(), ()> = LuaFun::from_fn_once(&mut reg);

    assert_eq!(f.begin_call(&mut reg), Ok(()));
    f.end_call(&mut reg);
    assert_eq!(f.begin_call(&mut reg), Err(Error::CalledMoreThanOnce));
}

#[test]
fn released_handle_fails() {
    let mut reg = ClosureRegistry::new();
    let f: LuaFun<(), ()> = LuaFun::from_fn_mut(&mut reg);
    let handle = f.clone();

    f.release(&mut reg);
    assert_eq!(handle.begin_call(&mut reg), Err(Error::HandleReleased));
}

#[test]
fn recursive_reentry_of_mutable_closure_fails() {
    let mut reg = ClosureRegistry::new();
    let f: LuaFun<(), ()> = LuaFun::from_fn_mut(&mut reg);

    assert_eq!(f.begin_call(&mut reg), Ok(()));
    // The foreign runtime calls back into the closure before the first
    // invocation has returned.
    assert_eq!(f.begin_call(&mut reg), Err(Error::RecursiveCall));
    f.end_call(&mut reg);
    // After the first invocation returns, calling again is fine.
    assert_eq!(f.begin_call(&mut reg), Ok(()));
}

#[test]
fn shared_closure_may_reenter() {
    let mut reg = ClosureRegistry::new();
    let f: LuaFun<(), ()> = LuaFun::from_fn(&mut reg);

    assert_eq!(f.begin_call(&mut reg), Ok(()));
    assert_eq!(f.begin_call(&mut reg), Ok(()));
    f.end_call(&mut reg);
    f.end_call(&mut reg);
}

#[test]
fn handles_get_distinct_slots() {
    let mut reg = ClosureRegistry::new();
    let a: LuaFun<(), ()> = LuaFun::from_fn(&mut reg);
    let b: LuaFun<(), ()> = LuaFun::from_fn_once(&mut reg);
    assert_ne!(a.luaref(), b.luaref());
    assert_eq!(reg.len(), 2);

    // Releasing one slot leaves the other callable.
    a.release(&mut reg);
    assert_eq!(b.begin_call(&mut reg), Ok(()));
}

#[test]
fn call_status_success_passes_result_through() {
    let r = interpret_call_status(
        CallStatus::Success,
        String::new(),
        Object::from_integer(9),
    );
    assert_eq!(r, Ok(Object::from_integer(9)));
}

#[test]
fn call_status_errors_carry_the_foreign_message() {
    let r = interpret_call_status(
        CallStatus::RuntimeError,
        String::from("E492: not an editor command"),
        Object::nil(),
    );
    assert_eq!(r, Err(Error::ForeignError(String::from("E492: not an editor command"))));

    let r = interpret_call_status(
        CallStatus::MemoryError,
        String::from("not enough memory"),
        Object::nil(),
    );
    assert_eq!(r, Err(Error::ForeignOutOfMemory(String::from("not enough memory"))));
}

#[test]
fn callback_errors_become_foreign_signals() {
    match callback_disposition(Ok(Object::from_bool(true))) {
        CallbackDisposition::Return(o) => assert_eq!(o, Object::from_bool(true)),
        CallbackDisposition::RaiseForeign(_) => panic!("a result must be returned"),
    }

    match callback_disposition(Err(Error::RecursiveCall)) {
        CallbackDisposition::RaiseForeign(m) => assert_eq!(m, "recursive call"),
        CallbackDisposition::Return(_) => panic!("an error must be raised foreign-side"),
    }

    match callback_disposition(Err(Error::CalledMoreThanOnce)) {
        CallbackDisposition::RaiseForeign(m) => assert_eq!(m, "called more than once"),
        CallbackDisposition::Return(_) => panic!("an error must be raised foreign-side"),
    }
}

#[test]
fn luafun_encodes_as_its_reference() {
    let mut reg = ClosureRegistry::new();
    let f: LuaFun<(), ()> = LuaFun::from_fn(&mut reg);
    let luaref = f.luaref();
    let obj = nvim_oxi::encode(f);
    assert_eq!(obj.try_into_luaref(), Ok(luaref));

    let back: LuaFun<(), ()> = nvim_oxi::decode(Object::from_luaref(luaref)).unwrap();
    assert_eq!(back.luaref(), luaref);
}
