use runtime::engine::{check_source, CompilationUnit, Engine, GobalLibCompilationUnit};
use runtime::error::{EntryPoint, JitError};
use runtime::gate::{GateDecision, GateEvent, GateState, GlobalInitGate, InitToken};
use runtime::session::{JitCompUnit, JitEng, Session};

const LIB_SRC: &str = "int add_one(int x) { return x + 1; }\n";
const FN_SRC: &str = "int add_one(int x);\nint main() { return add_one(-1); }\n";
const FN_SRC_2: &str = "int main() { return 0; }\n";

fn initialized_gate() -> GlobalInitGate {
    let mut gate = GlobalInitGate::new();
    assert_eq!(gate.step(GateEvent::Touch), GateDecision::RunNativeInit);
    assert_eq!(gate.step(GateEvent::NativeInitFinished { ok: true }), GateDecision::Proceed);
    gate
}

fn token() -> InitToken {
    initialized_gate().ready().unwrap()
}

fn compiled(engine: &Engine, session: &mut Session, src: &str, addr: usize) -> CompilationUnit {
    assert!(engine.compile_target(session, src.as_bytes()).is_ok());
    engine.jitc(session, JitCompUnit { addr }, String::new()).unwrap()
}

#[test]
fn test_engine_basic() {
    let ready = token();
    let mut session = Session::new();
    let eng1 = Engine::new(&mut session, &ready, JitEng { addr: 0x1000 }).unwrap();
    let eng2 = Engine::new_with_includes(&mut session, &ready, JitEng { addr: 0x2000 }, Vec::new()).unwrap();
    assert!(eng2.include_dirs().is_empty());

    let _lib = compiled(&eng1, &mut session, LIB_SRC, 0x1100);
    let cu_fn = compiled(&eng1, &mut session, FN_SRC, 0x1200);

    let ret = cu_fn.call_main(&session, Some(0));
    assert_eq!(ret, Ok(0));
}

#[test]
fn test_engine_basic2() {
    let ready = token();
    let mut session = Session::new();
    let eng1 = Engine::new(&mut session, &ready, JitEng { addr: 0x1000 }).unwrap();
    let cu_fn = compiled(&eng1, &mut session, FN_SRC_2, 0x1100);

    let ret = cu_fn.call_main(&session, Some(0));
    assert_eq!(ret, Ok(0));
}

#[test]
fn gate_runs_native_init_once_over_many_touches() {
    let mut gate = GlobalInitGate::new();
    assert_eq!(gate.current(), GateState::Uninitialized);
    let mut runs = 0;
    for _ in 0..8 {
        match gate.step(GateEvent::Touch) {
            GateDecision::RunNativeInit => runs += 1,
            d => assert_eq!(d, GateDecision::Wait),
        }
    }
    assert_eq!(gate.current(), GateState::InProgress);
    assert!(gate.ready().is_none());
    assert_eq!(gate.step(GateEvent::NativeInitFinished { ok: true }), GateDecision::Proceed);
    for _ in 0..8 {
        assert_eq!(gate.step(GateEvent::Touch), GateDecision::Proceed);
    }
    assert_eq!(runs, 1);
    assert!(gate.ready().is_some());
}

#[test]
fn gate_failure_is_reported_to_every_later_caller() {
    let mut gate = GlobalInitGate::new();
    assert_eq!(gate.step(GateEvent::Touch), GateDecision::RunNativeInit);
    assert_eq!(gate.step(GateEvent::NativeInitFinished { ok: false }), GateDecision::Abort);
    assert_eq!(gate.current(), GateState::Failed);
    assert_eq!(gate.step(GateEvent::Touch), GateDecision::Abort);
    assert_eq!(gate.step(GateEvent::NativeInitFinished { ok: true }), GateDecision::Abort);
    assert!(gate.ready().is_none());
}

#[test]
fn gate_ignores_a_report_before_any_touch() {
    let mut gate = GlobalInitGate::new();
    assert_eq!(gate.step(GateEvent::NativeInitFinished { ok: true }), GateDecision::Wait);
    assert_eq!(gate.current(), GateState::Uninitialized);
    assert_eq!(gate.step(GateEvent::Touch), GateDecision::RunNativeInit);
}

#[test]
fn null_engine_context_is_a_creation_error() {
    let ready = token();
    let mut session = Session::new();
    let r = Engine::new(&mut session, &ready, JitEng { addr: 0 });
    assert!(matches!(r, Err(JitError::EngineCreation)));
    let e = Engine::new(&mut session, &ready, JitEng { addr: 8 }).unwrap();
    assert_eq!(e.release(&mut session), Some(JitEng { addr: 8 }));
}

#[test]
fn include_dirs_are_kept() {
    let ready = token();
    let mut session = Session::new();
    let dirs = vec!["/usr/include".to_string(), "lib".to_string()];
    let e = Engine::new_with_includes(&mut session, &ready, JitEng { addr: 16 }, dirs.clone()).unwrap();
    assert_eq!(e.include_dirs(), &dirs);
}

#[test]
fn source_checks() {
    assert_eq!(check_source(b"int main() { return 0; }"), Ok(()));
    assert_eq!(
        check_source(b""),
        Err(JitError::Compilation { diagnostic: "the source text is empty".to_string() })
    );
    assert_eq!(
        check_source(b"int main() {\0}"),
        Err(JitError::Compilation { diagnostic: "the source text holds a NUL byte".to_string() })
    );
}

#[test]
fn compile_target_hands_out_the_engine_context() {
    let ready = token();
    let mut session = Session::new();
    let e = Engine::new(&mut session, &ready, JitEng { addr: 0x40 }).unwrap();
    assert_eq!(e.compile_target(&session, FN_SRC_2.as_bytes()), Ok(JitEng { addr: 0x40 }));
    assert!(matches!(
        e.compile_target(&session, b""),
        Err(JitError::Compilation { .. })
    ));
}

#[test]
fn failed_compilation_carries_a_diagnostic() {
    let ready = token();
    let mut session = Session::new();
    let e = Engine::new(&mut session, &ready, JitEng { addr: 0x40 }).unwrap();
    let r = e.jitc(&mut session, JitCompUnit { addr: 0 }, "1: error: expected ';'".to_string());
    assert!(matches!(r, Err(JitError::Compilation { diagnostic }) if diagnostic == "1: error: expected ';'"));
    let r = e.jitc(&mut session, JitCompUnit { addr: 0 }, String::new());
    match r {
        Err(JitError::Compilation { diagnostic }) => assert!(!diagnostic.is_empty()),
        _ => panic!("expected a compilation error"),
    }
}

#[test]
fn kernel_invocation_is_repeatable() {
    let ready = token();
    let mut session = Session::new();
    let e = Engine::new(&mut session, &ready, JitEng { addr: 0x40 }).unwrap();
    let cu = compiled(&e, &mut session, "unsigned long kernel() { return 42; }", 0x80);
    assert_eq!(cu.target(&session), Ok(JitCompUnit { addr: 0x80 }));
    assert_eq!(cu.call(&session, Some(42)), Ok(42));
    assert_eq!(cu.call(&session, Some(42)), Ok(42));
}

#[test]
fn missing_entry_point_is_an_error() {
    let ready = token();
    let mut session = Session::new();
    let e = Engine::new(&mut session, &ready, JitEng { addr: 0x40 }).unwrap();
    let cu = compiled(&e, &mut session, "int helper() { return 1; }", 0x80);
    assert_eq!(
        cu.call_main(&session, None),
        Err(JitError::EntryPointNotFound { entry: EntryPoint::Main })
    );
    assert_eq!(
        cu.call(&session, None),
        Err(JitError::EntryPointNotFound { entry: EntryPoint::Kernel })
    );
}

#[test]
fn entry_point_names() {
    assert_eq!(EntryPoint::Main.name(), "main");
    assert_eq!(EntryPoint::Kernel.name(), "kernel");
}

#[test]
fn engines_do_not_interfere() {
    let ready = token();
    let mut session = Session::new();
    let a = Engine::new(&mut session, &ready, JitEng { addr: 0x100 }).unwrap();
    let b = Engine::new(&mut session, &ready, JitEng { addr: 0x200 }).unwrap();
    let ua = compiled(&a, &mut session, "int main() { return 1; }", 0x110);
    let ub = compiled(&b, &mut session, "int main() { return 2; }", 0x210);
    assert_eq!(ua.call_main(&session, Some(1)), Ok(1));
    assert_eq!(ub.call_main(&session, Some(2)), Ok(2));
    assert_eq!(a.release(&mut session), Some(JitEng { addr: 0x100 }));
    assert_eq!(ub.target(&session), Ok(JitCompUnit { addr: 0x210 }));
    assert_eq!(ub.call_main(&session, Some(2)), Ok(2));
    assert_eq!(ua.call_main(&session, Some(1)), Err(JitError::UseAfterEngineRelease));
}

#[test]
fn use_after_engine_release_is_refused() {
    let ready = token();
    let mut session = Session::new();
    let e = Engine::new(&mut session, &ready, JitEng { addr: 0x100 }).unwrap();
    let cu = compiled(&e, &mut session, FN_SRC_2, 0x110);
    assert_eq!(e.release(&mut session), Some(JitEng { addr: 0x100 }));
    assert_eq!(cu.target(&session), Err(JitError::UseAfterEngineRelease));
    assert_eq!(cu.call_main(&session, Some(0)), Err(JitError::UseAfterEngineRelease));
    assert_eq!(cu.call(&session, Some(0)), Err(JitError::UseAfterEngineRelease));
    assert_eq!(cu.release(&mut session), None);
}

#[test]
fn unit_release_hands_back_its_native_unit() {
    let ready = token();
    let mut session = Session::new();
    let e = Engine::new(&mut session, &ready, JitEng { addr: 0x100 }).unwrap();
    let cu = compiled(&e, &mut session, FN_SRC_2, 0x110);
    let other = compiled(&e, &mut session, FN_SRC_2, 0x120);
    assert_eq!(cu.release(&mut session), Some(JitCompUnit { addr: 0x110 }));
    assert_eq!(other.call_main(&session, Some(0)), Ok(0));
}

#[test]
fn library_unit_stays_resident() {
    let ready = token();
    let mut session = Session::new();
    let e = Engine::new(&mut session, &ready, JitEng { addr: 0x100 }).unwrap();
    let lib = GobalLibCompilationUnit::init(&e, &mut session, JitCompUnit { addr: 0x110 }, String::new());
    assert!(lib.is_ok());
    let first = compiled(&e, &mut session, FN_SRC, 0x120);
    assert_eq!(first.release(&mut session), Some(JitCompUnit { addr: 0x120 }));
    let second = compiled(&e, &mut session, FN_SRC, 0x130);
    assert_eq!(second.call_main(&session, Some(0)), Ok(0));
    let failed = GobalLibCompilationUnit::init(&e, &mut session, JitCompUnit { addr: 0 }, "bad".to_string());
    assert!(matches!(failed, Err(JitError::Compilation { diagnostic }) if diagnostic == "bad"));
}

#[test]
fn handles_of_another_session_are_foreign() {
    let ready = token();
    let mut first = Session::new();
    let e = Engine::new(&mut first, &ready, JitEng { addr: 0x100 }).unwrap();
    let cu = compiled(&e, &mut first, FN_SRC_2, 0x110);
    let mut second = Session::new();
    assert_eq!(cu.call_main(&second, Some(0)), Err(JitError::ForeignHandle));
    assert_eq!(e.compile_target(&second, FN_SRC_2.as_bytes()), Err(JitError::ForeignHandle));
    assert!(matches!(
        e.jitc(&mut second, JitCompUnit { addr: 0x120 }, String::new()),
        Err(JitError::ForeignHandle)
    ));
    assert_eq!(cu.release(&mut second), None);
    assert_eq!(e.release(&mut second), None);
}
