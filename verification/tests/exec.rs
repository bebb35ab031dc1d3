use std::sync::{Arc, Mutex};

use wasmtime::{Caller, Config, Engine, Linker, Memory, MemoryType, Store};

use hostbridge::bridge;
use hostbridge::orchestrator::{execute, EntryArgs, ExecError, DEFAULT_FUEL};
use hostbridge::store::KvStore;

type Ctx = Arc<Mutex<KvStore>>;

fn fuel_engine() -> Engine {
    let mut config = Config::new();
    config.consume_fuel(true);
    // Keep linear-memory reservations small so guest memories fit in a
    // constrained address space.
    config.memory_reservation(1 << 24);
    config.memory_guard_size(1 << 16);
    Engine::new(&config).expect("engine")
}

fn capability_linker(engine: &Engine) -> Linker<Ctx> {
    let mut linker: Linker<Ctx> = Linker::new(engine);
    linker
        .func_wrap(
            "env",
            "host_log",
            |mut caller: Caller<'_, Ctx>, ptr: u32, len: u32| -> i32 {
                let Some(mem) = caller.get_export("memory").and_then(|e| e.into_memory()) else {
                    return 0;
                };
                let (data, _ctx) = mem.data_and_store_mut(&mut caller);
                let image = data.to_vec();
                let (status, _bytes) = bridge::host_log(&image, ptr, len);
                status
            },
        )
        .expect("define host_log");
    linker
        .func_wrap(
            "env",
            "host_get",
            |mut caller: Caller<'_, Ctx>, kp: u32, kl: u32, vp: u32, vc: u32| -> i32 {
                let Some(mem) = caller.get_export("memory").and_then(|e| e.into_memory()) else {
                    return 0;
                };
                let (data, ctx) = mem.data_and_store_mut(&mut caller);
                let mut image = data.to_vec();
                let written = {
                    let kv = ctx.lock().unwrap();
                    bridge::host_get(&kv, &mut image, kp, kl, vp, vc)
                };
                data.copy_from_slice(&image);
                written
            },
        )
        .expect("define host_get");
    linker
        .func_wrap(
            "env",
            "host_set",
            |mut caller: Caller<'_, Ctx>, kp: u32, kl: u32, vp: u32, vl: u32| -> i32 {
                let Some(mem) = caller.get_export("memory").and_then(|e| e.into_memory()) else {
                    return 0;
                };
                let (data, ctx) = mem.data_and_store_mut(&mut caller);
                let image = data.to_vec();
                let mut kv = ctx.lock().unwrap();
                bridge::host_set(&mut kv, &image, kp, kl, vp, vl)
            },
        )
        .expect("define host_set");
    linker
}

fn shared_store() -> Ctx {
    Arc::new(Mutex::new(KvStore::new()))
}

#[test]
fn exec_end_to_end_scenario() {
    // A module whose two-argument entry point stores "hello" -> "world"
    // through host_set and returns the sum of its arguments.
    let engine = fuel_engine();
    let linker = capability_linker(&engine);
    let ctx = shared_store();
    let wat = r#"
        (module
          (import "env" "host_set" (func $hs (param i32 i32 i32 i32) (result i32)))
          (memory (export "memory") 1)
          (data (i32.const 0) "helloworld")
          (func (export "run") (param i32 i32) (result i32)
            (drop (call $hs (i32.const 0) (i32.const 5) (i32.const 5) (i32.const 5)))
            (i32.add (local.get 0) (local.get 1))))
    "#;
    let result = execute(
        &engine,
        &linker,
        ctx.clone(),
        &wat.as_bytes().to_vec(),
        DEFAULT_FUEL,
        "run",
        EntryArgs::Binary(3, 4),
    );
    match &result {
        Ok(v) => assert_eq!(*v, 7),
        Err(e) => panic!("pipeline failed: {}", e.message()),
    }
    assert_eq!(ctx.lock().unwrap().get(&b"hello".to_vec()), b"world".to_vec());
}

#[test]
fn exec_nullary_entry_reads_store() {
    // Mirrors the direct-API-then-guest flow: a value stored ahead of time
    // is visible to the guest, which reports how many bytes it received.
    let engine = fuel_engine();
    let linker = capability_linker(&engine);
    let ctx = shared_store();
    ctx.lock().unwrap().set(b"k1".to_vec(), b"abc".to_vec());
    let wat = r#"
        (module
          (import "env" "host_get" (func $hg (param i32 i32 i32 i32) (result i32)))
          (memory (export "memory") 1)
          (data (i32.const 0) "k1")
          (func (export "exec") (result i32)
            (call $hg (i32.const 0) (i32.const 2) (i32.const 16) (i32.const 8))))
    "#;
    let result = execute(
        &engine,
        &linker,
        ctx.clone(),
        &wat.as_bytes().to_vec(),
        DEFAULT_FUEL,
        "exec",
        EntryArgs::Nullary,
    );
    assert!(matches!(result, Ok(3)));
}

#[test]
fn exec_fuel_bound_traps_infinite_loop() {
    // An unconditional infinite loop must be halted by fuel exhaustion,
    // under the fixed budget and under a larger but still finite one.
    let engine = fuel_engine();
    let linker = capability_linker(&engine);
    let wat = r#"
        (module
          (func (export "run") (result i32)
            (loop $l (br $l))
            (i32.const 0)))
    "#;
    for fuel in [10_000u64, DEFAULT_FUEL] {
        let result = execute(
            &engine,
            &linker,
            shared_store(),
            &wat.as_bytes().to_vec(),
            fuel,
            "run",
            EntryArgs::Nullary,
        );
        assert!(matches!(result, Err(ExecError::ExecutionTrap(_))));
    }
}

#[test]
fn exec_malformed_payload_fails_cleanly() {
    let engine = fuel_engine();
    let linker = capability_linker(&engine);
    let ctx = shared_store();
    let result = execute(
        &engine,
        &linker,
        ctx.clone(),
        &b"these bytes are not a module".to_vec(),
        DEFAULT_FUEL,
        "run",
        EntryArgs::Nullary,
    );
    assert!(matches!(result, Err(ExecError::CompileError(_))));
    // No partial state was created.
    assert!(ctx.lock().unwrap().lookup(&b"hello".to_vec()).is_none());
}

#[test]
fn exec_unresolved_import_is_rejected_before_running() {
    let engine = fuel_engine();
    let linker = capability_linker(&engine);
    let wat = r#"
        (module
          (import "env" "host_frobnicate" (func $f (param i32) (result i32)))
          (func (export "run") (result i32) (call $f (i32.const 1))))
    "#;
    let result = execute(
        &engine,
        &linker,
        shared_store(),
        &wat.as_bytes().to_vec(),
        DEFAULT_FUEL,
        "run",
        EntryArgs::Nullary,
    );
    match result {
        Err(ExecError::UnresolvedImport(name)) => assert_eq!(name, "host_frobnicate"),
        _ => panic!("expected an unresolved-import failure"),
    }
}

#[test]
fn exec_foreign_store_definition_is_an_error_not_a_fault() {
    // A linker definition bound to another session's store cannot be wired
    // into the fresh per-request session; the pipeline must report an
    // instantiation failure rather than fault the host.
    let engine = fuel_engine();
    let mut other_session: Store<Ctx> = Store::new(&engine, shared_store());
    let foreign_memory =
        Memory::new(&mut other_session, MemoryType::new(1, None)).expect("memory");
    let mut linker: Linker<Ctx> = Linker::new(&engine);
    linker
        .define(&other_session, "env", "host_log", foreign_memory)
        .expect("define foreign memory");
    let wat = r#"(module (import "env" "host_log" (memory 1)))"#;
    let result = execute(
        &engine,
        &linker,
        shared_store(),
        &wat.as_bytes().to_vec(),
        DEFAULT_FUEL,
        "run",
        EntryArgs::Nullary,
    );
    assert!(matches!(result, Err(ExecError::InstantiationTrap(_))));
}

#[test]
fn exec_trap_during_initialization() {
    let engine = fuel_engine();
    let linker = capability_linker(&engine);
    // The module's start function traps before any entry point can run.
    let wat = r#"
        (module
          (func $boom unreachable)
          (start $boom)
          (func (export "run") (result i32) (i32.const 1)))
    "#;
    let result = execute(
        &engine,
        &linker,
        shared_store(),
        &wat.as_bytes().to_vec(),
        DEFAULT_FUEL,
        "run",
        EntryArgs::Nullary,
    );
    assert!(matches!(result, Err(ExecError::InstantiationTrap(_))));
}

#[test]
fn exec_missing_entry_point() {
    let engine = fuel_engine();
    let linker = capability_linker(&engine);
    let wat = r#"(module (func (export "other") (result i32) (i32.const 1)))"#;
    let result = execute(
        &engine,
        &linker,
        shared_store(),
        &wat.as_bytes().to_vec(),
        DEFAULT_FUEL,
        "run",
        EntryArgs::Nullary,
    );
    assert!(matches!(result, Err(ExecError::EntryPointNotFound(_))));
}

#[test]
fn exec_wrong_entry_signature() {
    let engine = fuel_engine();
    let linker = capability_linker(&engine);
    // Exports "run", but with two parameters while the deployment expects none.
    let wat = r#"(module (func (export "run") (param i32 i32) (result i32) (i32.const 1)))"#;
    let result = execute(
        &engine,
        &linker,
        shared_store(),
        &wat.as_bytes().to_vec(),
        DEFAULT_FUEL,
        "run",
        EntryArgs::Nullary,
    );
    assert!(matches!(result, Err(ExecError::EntryPointNotFound(_))));
}

#[test]
fn exec_guest_bounds_violation_gets_sentinel() {
    // A guest-issued host_set whose key range lies outside its own memory
    // is refused with the sentinel status and mutates nothing; the guest
    // keeps running and returns that status.
    let engine = fuel_engine();
    let linker = capability_linker(&engine);
    let ctx = shared_store();
    let wat = r#"
        (module
          (import "env" "host_set" (func $hs (param i32 i32 i32 i32) (result i32)))
          (memory (export "memory") 1)
          (func (export "run") (result i32)
            (call $hs (i32.const 131072) (i32.const 5) (i32.const 0) (i32.const 5))))
    "#;
    let result = execute(
        &engine,
        &linker,
        ctx.clone(),
        &wat.as_bytes().to_vec(),
        DEFAULT_FUEL,
        "run",
        EntryArgs::Nullary,
    );
    assert!(matches!(result, Ok(0)));
    assert!(ctx.lock().unwrap().lookup(&b"hello".to_vec()).is_none());
}

#[test]
fn exec_guest_log_succeeds() {
    let engine = fuel_engine();
    let linker = capability_linker(&engine);
    let wat = r#"
        (module
          (import "env" "host_log" (func $hl (param i32 i32) (result i32)))
          (memory (export "memory") 1)
          (data (i32.const 0) "greetings")
          (func (export "run") (result i32)
            (call $hl (i32.const 0) (i32.const 9))))
    "#;
    let result = execute(
        &engine,
        &linker,
        shared_store(),
        &wat.as_bytes().to_vec(),
        DEFAULT_FUEL,
        "run",
        EntryArgs::Nullary,
    );
    assert!(matches!(result, Ok(1)));
}
