//! The trusted surface over the sandboxing engine.
//!
//! The compiler/verifier/interpreter itself is an external collaborator: it
//! is assumed to compile, instantiate and interpret modules correctly and to
//! enforce the fuel budget.  Each item here declares one engine type or
//! wraps one engine call; everything the pipeline decides around these calls
//! is verified in [`crate::orchestrator`].

use vstd::prelude::*;

verus! {

#[verifier::external_type_specification]
#[verifier::external_body]
pub struct ExEngine(wasmtime::Engine);

#[verifier::external_type_specification]
#[verifier::external_body]
pub struct ExModule(wasmtime::Module);

#[verifier::external_type_specification]
#[verifier::external_body]
#[verifier::reject_recursive_types(T)]
pub struct ExStore<T: 'static>(wasmtime::Store<T>);

#[verifier::external_type_specification]
#[verifier::external_body]
#[verifier::reject_recursive_types(T)]
pub struct ExLinker<T>(wasmtime::Linker<T>);

#[verifier::external_type_specification]
#[verifier::external_body]
pub struct ExInstance(wasmtime::Instance);

#[verifier::external_type_specification]
#[verifier::external_body]
#[verifier::reject_recursive_types(Params)]
#[verifier::reject_recursive_types(Results)]
pub struct ExTypedFunc<Params, Results>(wasmtime::TypedFunc<Params, Results>);

/// Relies on wasmtime::Module::new: compiles and validates the submitted
/// bytecode against the shared engine; malformed or unverifiable bytecode
/// is an error carrying the engine's diagnostic text.
#[verifier::external_body]
pub(crate) fn compile(engine: &wasmtime::Engine, bytecode: &Vec<u8>) -> (r: Result<
    wasmtime::Module,
    String,
>) {
    match wasmtime::Module::new(engine, bytecode.as_slice()) {
        Ok(m) => Ok(m),
        Err(e) => Err(format!("{e:#}")),
    }
}

/// Relies on wasmtime::Module::imports: yields one entry per import the
/// module declares; each entry's field name is handed back as a string.
#[verifier::external_body]
pub(crate) fn import_names(module: &wasmtime::Module) -> (names: Vec<String>) {
    module.imports().map(|imp| imp.name().to_string()).collect()
}

/// Relies on wasmtime::Store::new and wasmtime::Store::set_fuel: allocates
/// the per-request execution context and assigns its fuel budget; the
/// engine halts the guest deterministically once the budget is consumed.
/// Assigning fuel fails when the engine was not configured to consume fuel.
#[verifier::external_body]
pub(crate) fn new_session<T: 'static>(engine: &wasmtime::Engine, data: T, fuel: u64) -> (r: Result<
    wasmtime::Store<T>,
    String,
>) {
    let mut store = wasmtime::Store::new(engine, data);
    match store.set_fuel(fuel) {
        Ok(()) => Ok(store),
        Err(e) => Err(format!("{e:#}")),
    }
}

/// Relies on wasmtime::Linker::instantiate_pre and
/// wasmtime::InstancePre::instantiate: wires the module's imports to the
/// linker's definitions and runs the module's initialization.  An unknown
/// import, a trap during initialization, a linker whose engine differs from
/// the module's, or a linker definition bound to another store are all
/// errors, never faults: the pre-instantiation path reads no store-bound
/// definition before the cross-store check refuses it.
#[verifier::external_body]
pub(crate) fn instantiate<T: 'static>(
    linker: &wasmtime::Linker<T>,
    store: &mut wasmtime::Store<T>,
    module: &wasmtime::Module,
) -> (r: Result<wasmtime::Instance, String>) {
    match linker.instantiate_pre(module) {
        Ok(pre) => match pre.instantiate(&mut *store) {
            Ok(i) => Ok(i),
            Err(e) => Err(format!("{e:#}")),
        },
        Err(e) => Err(format!("{e:#}")),
    }
}

// The four items below hand a session-owned value (an instance, an entry
// handle) back to the engine together with its session.  The engine demands
// that the pair belong together and the store to the module's engine — a
// condition over opaque values that no `requires` here can state.  They are
// crate-private on that account: their one caller, `execute`, threads the
// single session of the request through every call, so no other pairing can
// be formed outside this crate.

/// Relies on wasmtime::Instance::get_typed_func: resolves the named export
/// as a nullary function returning a 32-bit integer; absence or a
/// signature mismatch is an error.
#[verifier::external_body]
pub(crate) fn resolve_entry0<T: 'static>(
    instance: &wasmtime::Instance,
    store: &mut wasmtime::Store<T>,
    name: &str,
) -> (r: Result<wasmtime::TypedFunc<(), i32>, String>) {
    match instance.get_typed_func::<(), i32>(&mut *store, name) {
        Ok(f) => Ok(f),
        Err(e) => Err(format!("{e:#}")),
    }
}

/// Relies on wasmtime::Instance::get_typed_func: resolves the named export
/// as a function of two 32-bit integers returning one; absence or a
/// signature mismatch is an error.
#[verifier::external_body]
pub(crate) fn resolve_entry2<T: 'static>(
    instance: &wasmtime::Instance,
    store: &mut wasmtime::Store<T>,
    name: &str,
) -> (r: Result<wasmtime::TypedFunc<(i32, i32), i32>, String>) {
    match instance.get_typed_func::<(i32, i32), i32>(&mut *store, name) {
        Ok(f) => Ok(f),
        Err(e) => Err(format!("{e:#}")),
    }
}

/// Relies on wasmtime::TypedFunc::call: runs the entry point under the
/// session's fuel budget; any trap — fuel exhaustion, an out-of-bounds
/// guest memory access, an explicit abort — is an error carrying the
/// engine's cause text.
#[verifier::external_body]
pub(crate) fn invoke0<T: 'static>(
    f: &wasmtime::TypedFunc<(), i32>,
    store: &mut wasmtime::Store<T>,
) -> (r: Result<i32, String>) {
    match f.call(&mut *store, ()) {
        Ok(v) => Ok(v),
        Err(e) => Err(format!("{e:#}")),
    }
}

/// Relies on wasmtime::TypedFunc::call: as [`invoke0`], for an entry point
/// taking two 32-bit integer arguments.
#[verifier::external_body]
pub(crate) fn invoke2<T: 'static>(
    f: &wasmtime::TypedFunc<(i32, i32), i32>,
    store: &mut wasmtime::Store<T>,
    a: i32,
    b: i32,
) -> (r: Result<i32, String>) {
    match f.call(&mut *store, (a, b)) {
        Ok(v) => Ok(v),
        Err(e) => Err(format!("{e:#}")),
    }
}

} // verus!
