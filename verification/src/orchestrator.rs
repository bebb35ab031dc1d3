//! The per-request execution pipeline: compile the submitted bytecode,
//! check its declared imports against the closed capability set, allocate a
//! budgeted session, instantiate, resolve the designated entry point, and
//! invoke it.  Every stage is synchronous; a failure at any stage is
//! terminal for the request and is converted into one structured error.

use vstd::prelude::*;

verus! {

use crate::engine;

/// The fuel allowance a deployment assigns to each request when it has no
/// reason to pick another: a fixed count of abstract execution steps, not
/// derived from the request.
pub const DEFAULT_FUEL: u64 = 1_000_000;

/// The closed set of capabilities the host declares available to guests.
#[derive(Clone, Copy, PartialEq, Eq, Structural, Debug)]
pub enum Capability {
    /// `host_log(ptr, len) -> status`
    Log,
    /// `host_get(key_ptr, key_len, value_ptr, value_cap) -> bytes_written`
    Get,
    /// `host_set(key_ptr, key_len, value_ptr, value_len) -> status`
    Insert,
}

/// The argument tuple the deployment fixes for its entry point: either no
/// arguments, or two 32-bit integers.
#[derive(Clone, Copy, PartialEq, Eq, Structural, Debug)]
pub enum EntryArgs {
    Nullary,
    Binary(i32, i32),
}

/// How a request failed, with the engine's human-readable cause.
pub enum ExecError {
    /// Malformed or unverifiable bytecode.
    CompileError(String),
    /// The module declares an import outside the closed capability set;
    /// the payload is the first such name.
    UnresolvedImport(String),
    /// The session could not be initialized, or the module trapped during
    /// its own initialization.
    InstantiationTrap(String),
    /// The designated entry point is absent or has the wrong signature.
    EntryPointNotFound(String),
    /// The invoked guest trapped: fuel exhaustion, an out-of-bounds access,
    /// an explicit abort, or any other engine-detected violation.
    ExecutionTrap(String),
}

impl ExecError {
    /// The cause text the error carries.
    pub open spec fn message_spec(&self) -> Seq<char> {
        match self {
            ExecError::CompileError(s) => s@,
            ExecError::UnresolvedImport(s) => s@,
            ExecError::InstantiationTrap(s) => s@,
            ExecError::EntryPointNotFound(s) => s@,
            ExecError::ExecutionTrap(s) => s@,
        }
    }

    /// A copy of the cause text, for reporting to the caller.
    pub fn message(&self) -> (m: String)
        ensures
            m@ == self.message_spec(),
    {
        match self {
            ExecError::CompileError(s) => s.clone(),
            ExecError::UnresolvedImport(s) => s.clone(),
            ExecError::InstantiationTrap(s) => s.clone(),
            ExecError::EntryPointNotFound(s) => s.clone(),
            ExecError::ExecutionTrap(s) => s.clone(),
        }
    }
}

/// The capability a declared import name binds to, if any.
pub open spec fn capability_of(name: Seq<char>) -> Option<Capability> {
    if name == "host_log"@ {
        Some(Capability::Log)
    } else if name == "host_get"@ {
        Some(Capability::Get)
    } else if name == "host_set"@ {
        Some(Capability::Insert)
    } else {
        None
    }
}

/// Looks one declared import name up in the capability enumeration.
pub fn lookup_capability(name: &String) -> (r: Option<Capability>)
    ensures
        r == capability_of(name@),
{
    let log_name: String = "host_log".to_owned();
    let get_name: String = "host_get".to_owned();
    let set_name: String = "host_set".to_owned();
    if *name == log_name {
        Some(Capability::Log)
    } else if *name == get_name {
        Some(Capability::Get)
    } else if *name == set_name {
        Some(Capability::Insert)
    } else {
        None
    }
}

/// Builds the session's import table: one capability per declared import
/// name, in declaration order.  A name with no match leaves the module
/// unable to run at all — the result is the first unmatched name, so the
/// caller can fail instantiation rather than wire the module partially.
pub fn resolve_imports(names: &Vec<String>) -> (r: Result<Vec<Capability>, String>)
    ensures
        r is Ok <==> (forall|i: int|
            0 <= i < names@.len() ==> #[trigger] capability_of(names@[i]@) is Some),
        r matches Ok(caps) ==> caps@.len() == names@.len() && forall|i: int|
            0 <= i < names@.len() ==> Some(#[trigger] caps@[i]) == capability_of(names@[i]@),
        r matches Err(bad) ==> exists|i: int|
            0 <= i < names@.len() && #[trigger] capability_of(names@[i]@) is None && bad@
                == names@[i]@ && forall|j: int| 0 <= j < i ==> capability_of(names@[j]@) is Some,
{
    let n = names.len();
    let mut caps: Vec<Capability> = Vec::new();
    let mut i: usize = 0;
    while i < n
        invariant
            n == names@.len(),
            i <= n,
            caps@.len() == i,
            forall|j: int| 0 <= j < i ==> Some(#[trigger] caps@[j]) == capability_of(names@[j]@),
            forall|j: int| 0 <= j < i ==> #[trigger] capability_of(names@[j]@) is Some,
        decreases n - i,
    {
        let name = &names[i];
        match lookup_capability(name) {
            Some(c) => caps.push(c),
            None => {
                return Err(name.clone());
            },
        }
        i += 1;
    }
    Ok(caps)
}

/// Drives one request through the whole pipeline.
///
/// The engine, the linker holding the host capability definitions, and the
/// session data are the deployment's; the bytecode is the untrusted request
/// payload.  The module's declared imports are checked against the closed
/// capability set before instantiation, so a module is never run with
/// partially-wired capabilities.  Each stage's failure is classified into
/// the matching [`ExecError`] variant; whether a stage succeeds is the
/// engine's own decision over opaque values, so of the engine-decided
/// stages no more can be promised than that classification.  The one
/// stage this library decides itself is the import check, and that is
/// promised: an unresolved-import error names an import outside the
/// capability set.
pub fn execute<T: 'static>(
    engine: &wasmtime::Engine,
    linker: &wasmtime::Linker<T>,
    data: T,
    bytecode: &Vec<u8>,
    fuel: u64,
    entry: &str,
    args: EntryArgs,
) -> (r: Result<i32, ExecError>)
    ensures
        r matches Err(ExecError::UnresolvedImport(bad)) ==> capability_of(bad@) is None,
{
    let module = match engine::compile(engine, bytecode) {
        Ok(m) => m,
        Err(msg) => {
            return Err(ExecError::CompileError(msg));
        },
    };
    let names = engine::import_names(&module);
    let _table = match resolve_imports(&names) {
        Ok(t) => t,
        Err(bad) => {
            return Err(ExecError::UnresolvedImport(bad));
        },
    };
    let mut session = match engine::new_session(engine, data, fuel) {
        Ok(s) => s,
        Err(msg) => {
            return Err(ExecError::InstantiationTrap(msg));
        },
    };
    let instance = match engine::instantiate(linker, &mut session, &module) {
        Ok(i) => i,
        Err(msg) => {
            return Err(ExecError::InstantiationTrap(msg));
        },
    };
    match args {
        EntryArgs::Nullary => {
            let f = match engine::resolve_entry0(&instance, &mut session, entry) {
                Ok(f) => f,
                Err(msg) => {
                    return Err(ExecError::EntryPointNotFound(msg));
                },
            };
            match engine::invoke0(&f, &mut session) {
                Ok(v) => Ok(v),
                Err(msg) => Err(ExecError::ExecutionTrap(msg)),
            }
        },
        EntryArgs::Binary(a, b) => {
            let f = match engine::resolve_entry2(&instance, &mut session, entry) {
                Ok(f) => f,
                Err(msg) => {
                    return Err(ExecError::EntryPointNotFound(msg));
                },
            };
            match engine::invoke2(&f, &mut session, a, b) {
                Ok(v) => Ok(v),
                Err(msg) => Err(ExecError::ExecutionTrap(msg)),
            }
        },
    }
}

} // verus!
