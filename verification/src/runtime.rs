//! Trusted boundary around the wasmtime virtual machine.
//!
//! Everything below either declares a wasmtime type so that it can stand in a
//! field, or wraps the wasmtime calls of one extraction stage. wasmtime
//! documents panics for mismatched pairings — a store that does not own the
//! instance, memory or function used beside it, a function type from a
//! foreign engine — and no `requires` over opaque types could exclude them.
//! So the boundary admits no pairing at all: each stage of the pipeline is
//! one context type ([`Sandbox`], [`SandboxModule`], [`SandboxInstance`],
//! [`SandboxMemory`]) that owns every wasmtime object together with the store
//! that owns them, the fields are private to this module, and only the
//! trusted constructors below fill them — always from the one engine the
//! sandbox was born with. Verified code can therefore never hand a wasmtime
//! object to the wrong store: the panicking pairings are unwritable, not
//! merely avoided. Handles that would have to be paired with a store on a
//! later call (a typed function) never leave a wrapper at all, which is why
//! the two accessor wrappers resolve and invoke in one step.

use vstd::prelude::*;

verus! {

#[verifier::external_type_specification]
#[verifier::external_body]
pub struct ExEngine(wasmtime::Engine);

#[verifier::external_type_specification]
#[verifier::external_body]
#[verifier::reject_recursive_types(T)]
pub struct ExStore<T: 'static>(wasmtime::Store<T>);

#[verifier::external_type_specification]
#[verifier::external_body]
#[verifier::reject_recursive_types(T)]
pub struct ExLinker<T>(wasmtime::Linker<T>);

#[verifier::external_type_specification]
#[verifier::external_body]
pub struct ExModule(wasmtime::Module);

#[verifier::external_type_specification]
#[verifier::external_body]
pub struct ExInstance(wasmtime::Instance);

#[verifier::external_type_specification]
#[verifier::external_body]
pub struct ExMemory(wasmtime::Memory);

/// A fresh, isolated virtual-machine context: one engine, and the store and
/// linker born from it. Owned by one extraction call and released with it.
pub struct Sandbox {
    engine: wasmtime::Engine,
    store: wasmtime::Store<()>,
    linker: wasmtime::Linker<()>,
}

/// A sandbox whose module bytes have been parsed and validated: the module
/// belongs to the same engine as the store and linker beside it.
pub struct SandboxModule {
    store: wasmtime::Store<()>,
    linker: wasmtime::Linker<()>,
    module: wasmtime::Module,
}

/// A sandbox whose module has been instantiated: the instance is owned by
/// the store beside it.
pub struct SandboxInstance {
    store: wasmtime::Store<()>,
    instance: wasmtime::Instance,
}

/// An instantiated sandbox whose exported memory has been resolved: store,
/// instance and memory all belong together.
pub struct SandboxMemory {
    store: wasmtime::Store<()>,
    instance: wasmtime::Instance,
    memory: wasmtime::Memory,
}

/// One declared import of the module, reduced to plain values: its two-level
/// name, and whether it is a function import (the only kind that is mocked;
/// table, global and memory imports never are).
pub struct ImportItem {
    pub module_name: String,
    pub name: String,
    pub is_function: bool,
}

/// Outcome of resolving and invoking the 32-bit accessor export.
pub enum AccessorCall32 {
    /// No export of the name has exactly the zero-parameter, one-`i32` shape.
    NotTyped,
    /// The accessor ran and trapped.
    Trapped,
    /// The accessor ran to completion and returned this value.
    Returned(i32),
}

/// Outcome of resolving and invoking the 64-bit accessor export.
pub enum AccessorCall64 {
    /// No export of the name has exactly the zero-parameter, one-`i64` shape.
    NotTyped,
    /// The accessor ran and trapped.
    Trapped,
    /// The accessor ran to completion and returned this value.
    Returned(i64),
}

/// Relies on wasmtime's `Engine::new`, `Store::new` and `Linker::new`: one
/// fresh context, all three objects from the one new engine (creating them
/// together is what seals the pairing, so this wrapper holds all three
/// constructor calls). The configuration enables the memory64 proposal and
/// keeps linear memories small — no large virtual-memory reservation and no
/// guard pages — so that one short-lived extraction works under a tight
/// address-space budget. `None` when the engine could not be created.
#[verifier::external_body]
pub(crate) fn new_sandbox() -> (r: Option<Sandbox>) {
    let engine = wasmtime::Engine::new(
        wasmtime::Config::new()
            .wasm_memory64(true)
            .memory_reservation(0)
            .memory_reservation_for_growth(0)
            .memory_guard_size(0),
    )
    .ok()?;
    let store = wasmtime::Store::new(&engine, ());
    let linker = wasmtime::Linker::new(&engine);
    Some(Sandbox { engine, store, linker })
}

/// Relies on wasmtime's `Module::new`: parses and validates the bytes
/// (binary form, or text form where wasmtime accepts it) into a module of
/// the sandbox's own engine; `Err` exactly when wasmtime rejects the bytes,
/// carrying wasmtime's own description of the rejection, with the sandbox
/// consumed either way.
#[verifier::external_body]
pub(crate) fn compile_module(sandbox: Sandbox, bytes: &[u8]) -> (r: Result<SandboxModule, String>) {
    match wasmtime::Module::new(&sandbox.engine, bytes) {
        Ok(module) => Ok(SandboxModule { store: sandbox.store, linker: sandbox.linker, module }),
        Err(e) => Err(e.to_string()),
    }
}

/// Relies on wasmtime's `Module::imports`: hands out the module's declared
/// imports in declaration order, each converted to plain values, one match
/// arm per import kind.
#[verifier::external_body]
pub(crate) fn module_imports(vm: &SandboxModule) -> (r: Vec<ImportItem>) {
    vm.module
        .imports()
        .map(|import| ImportItem {
            module_name: import.module().to_string(),
            name: import.name().to_string(),
            is_function: match import.ty() {
                wasmtime::ExternType::Func(_) => true,
                _ => false,
            },
        })
        .collect()
}

/// Relies on wasmtime's `Module::imports`, `Linker::func_new` and
/// `Val::default_for_ty`: registers in the sandbox's linker an inert
/// stand-in for the module's import at position `idx`, under that import's
/// own two-level name and function type, whose body has no effect and
/// returns the default (zero, or null reference) value of each declared
/// result type. A result type with no default value (a non-nullable
/// reference) gets a null function reference instead, so a call of such a
/// stand-in traps; it still satisfies linking. Returns `false` exactly when
/// registration failed (for example, the same name registered twice); `true`
/// when it succeeded or there was nothing to register (`idx` beyond the
/// imports, or a non-function import). The function type is drawn here from
/// the sandbox's own module, never taken from the caller.
#[verifier::external_body]
pub(crate) fn define_mock(vm: &mut SandboxModule, idx: usize) -> (ok: bool) {
    let Some(import) = vm.module.imports().nth(idx) else { return true };
    let wasmtime::ExternType::Func(ty) = import.ty() else { return true };
    let defaults: Vec<wasmtime::Val> = ty.results().map(
        |t| wasmtime::Val::default_for_ty(&t).unwrap_or(wasmtime::Val::null_func_ref()),
    ).collect();
    vm.linker.func_new(import.module(), import.name(), ty, move |_, _, out| {
        for (slot, v) in out.iter_mut().zip(defaults.iter()) {
            *slot = v.clone();
        }
        Ok(())
    }).is_ok()
}

/// Relies on wasmtime's `Linker::instantiate`: instantiates the sandbox's
/// module in the sandbox's own store with the definitions registered so far,
/// running its start function; `None` when an import stays unsatisfied or
/// instantiation itself fails or traps.
#[verifier::external_body]
pub(crate) fn instantiate(vm: SandboxModule) -> (r: Option<SandboxInstance>) {
    let SandboxModule { mut store, linker, module } = vm;
    match linker.instantiate(&mut store, &module) {
        Ok(instance) => Some(SandboxInstance { store, instance }),
        Err(_) => None,
    }
}

/// Relies on wasmtime's `Instance::get_memory`: resolves the exported memory
/// under `name` in the instance's own store; `None` when no export of that
/// name and kind exists, with the sandbox consumed either way.
#[verifier::external_body]
pub(crate) fn resolve_memory(vm: SandboxInstance, name: &str) -> (r: Option<SandboxMemory>) {
    let SandboxInstance { mut store, instance } = vm;
    match instance.get_memory(&mut store, name) {
        Some(memory) => Some(SandboxMemory { store, instance, memory }),
        None => None,
    }
}

/// Relies on wasmtime's `Memory::ty` and `MemoryType::is_64`: whether the
/// resolved memory's declaration uses 64-bit addressing.
#[verifier::external_body]
pub(crate) fn memory_is_64(vm: &SandboxMemory) -> (r: bool) {
    vm.memory.ty(&vm.store).is_64()
}

/// Relies on wasmtime's `Instance::get_func`: whether a function export
/// under `name` exists at all, whatever its signature.
#[verifier::external_body]
pub(crate) fn has_func_export(vm: &mut SandboxMemory, name: &str) -> (r: bool) {
    vm.instance.get_func(&mut vm.store, name).is_some()
}

/// Relies on wasmtime's `Instance::get_typed_func` and `TypedFunc::call`:
/// resolves the export under `name` as zero parameters and one `i32` result
/// and runs it inside the instance to completion, in one step, so that the
/// typed handle never leaves the boundary (see the module note above). The
/// three outcomes are distinct; what the returned integer is lies entirely
/// with the untrusted module, so nothing is stated of it.
#[verifier::external_body]
pub(crate) fn call_accessor_i32(vm: &mut SandboxMemory, name: &str) -> (r: AccessorCall32) {
    match vm.instance.get_typed_func::<(), i32>(&mut vm.store, name) {
        Err(_) => AccessorCall32::NotTyped,
        Ok(func) => match func.call(&mut vm.store, ()) {
            Err(_) => AccessorCall32::Trapped,
            Ok(v) => AccessorCall32::Returned(v),
        },
    }
}

/// Relies on wasmtime's `Instance::get_typed_func` and `TypedFunc::call`: as
/// `call_accessor_i32`, for the zero-parameter, one-`i64` shape.
#[verifier::external_body]
pub(crate) fn call_accessor_i64(vm: &mut SandboxMemory, name: &str) -> (r: AccessorCall64) {
    match vm.instance.get_typed_func::<(), i64>(&mut vm.store, name) {
        Err(_) => AccessorCall64::NotTyped,
        Ok(func) => match func.call(&mut vm.store, ()) {
            Err(_) => AccessorCall64::Trapped,
            Ok(v) => AccessorCall64::Returned(v),
        },
    }
}

/// Relies on wasmtime's `Memory::data`: the resolved memory's current
/// contents as one byte buffer, copied out so that verified code can scan
/// it.
#[verifier::external_body]
pub(crate) fn memory_bytes(vm: &SandboxMemory) -> (r: Vec<u8>) {
    vm.memory.data(&vm.store).to_vec()
}

} // verus!
