//! The extraction pipeline: bytes of one WebAssembly module in, the embedded
//! interface-description text or one structured failure out.

use vstd::prelude::*;

use crate::error::ExtractError;
use crate::memscan::has_terminator;
use crate::memscan::scan_and_decode;
use crate::memscan::scanned_bytes;
use crate::memscan::utf8_decode;
use crate::runtime::AccessorCall32;
use crate::runtime::AccessorCall64;
use crate::runtime::ImportItem;
use crate::runtime::SandboxMemory;
use crate::runtime::SandboxModule;
use crate::runtime::call_accessor_i32;
use crate::runtime::call_accessor_i64;
use crate::runtime::compile_module;
use crate::runtime::define_mock;
use crate::runtime::has_func_export;
use crate::runtime::instantiate;
use crate::runtime::memory_bytes;
use crate::runtime::memory_is_64;
use crate::runtime::module_imports;
use crate::runtime::new_sandbox;
use crate::runtime::resolve_memory;

verus! {

/// Register an inert stand-in for every function import the module declares,
/// in declaration order, so that instantiation cannot fail for want of a host
/// environment. Non-function imports are left unhandled by design; reports
/// the first stand-in that could not be registered as `ImportUnsatisfiable`,
/// named after one of the declared function imports.
fn satisfy_imports(vm: &mut SandboxModule, imports: &Vec<ImportItem>) -> (r: Result<
    (),
    ExtractError,
>)
    ensures
        r matches Err(e) ==> exists|i: int|
            0 <= i < imports@.len() && (#[trigger] imports@[i]).is_function && (e matches
                ExtractError::ImportUnsatisfiable { module_name, name } && module_name@
                == imports@[i].module_name@ && name@ == imports@[i].name@),
{
    let mut idx: usize = 0;
    while idx < imports.len()
        invariant
            idx <= imports@.len(),
        decreases imports@.len() - idx,
    {
        let item = &imports[idx];
        if item.is_function {
            if !define_mock(vm, idx) {
                let e = ExtractError::ImportUnsatisfiable {
                    module_name: item.module_name.clone(),
                    name: item.name.clone(),
                };
                proof {
                    assert(imports@[idx as int].is_function);
                }
                return Err(e);
            }
        }
        idx = idx + 1;
    }
    Ok(())
}

/// Obtain the memory offset of the embedded text: resolve the zero-argument
/// accessor export whose result width matches the memory's addressing mode
/// (a 32-bit memory requires an `i32` result, a 64-bit memory an `i64`; the
/// other width is never tried), invoke it inside the instance, and read its
/// result as an unsigned offset, so a 32-bit accessor can never name an
/// offset at or above two to the thirty-second power. An absent export, a
/// signature of the wrong shape, and a trap during the call are three
/// distinct failures.
fn obtain_pointer(vm: &mut SandboxMemory, wide: bool, name: &str) -> (r: Result<u64, ExtractError>)
    ensures
        r matches Err(e) ==> (e == ExtractError::MissingAccessorExport || e
            == ExtractError::AccessorSignatureMismatch || e == ExtractError::AccessorTrapped),
        r matches Ok(p) ==> (wide || p < 0x1_0000_0000),
{
    if wide {
        match call_accessor_i64(vm, name) {
            AccessorCall64::Returned(p) => Ok(#[verifier::truncate] (p as u64)),
            AccessorCall64::Trapped => Err(ExtractError::AccessorTrapped),
            AccessorCall64::NotTyped => {
                if has_func_export(vm, name) {
                    Err(ExtractError::AccessorSignatureMismatch)
                } else {
                    Err(ExtractError::MissingAccessorExport)
                }
            },
        }
    } else {
        match call_accessor_i32(vm, name) {
            AccessorCall32::Returned(p) => Ok((#[verifier::truncate] (p as u32)) as u64),
            AccessorCall32::Trapped => Err(ExtractError::AccessorTrapped),
            AccessorCall32::NotTyped => {
                if has_func_export(vm, name) {
                    Err(ExtractError::AccessorSignatureMismatch)
                } else {
                    Err(ExtractError::MissingAccessorExport)
                }
            },
        }
    }
}

/// Extract the embedded interface-description text from the bytes of one
/// WebAssembly module.
///
/// The stages run strictly once, in order, and each contributes exactly one
/// failure kind: parse the bytes (`MalformedModule`), satisfy every function
/// import with an inert stand-in (`ImportUnsatisfiable`), instantiate
/// (`InstantiationFailed`, which also covers a virtual machine that could
/// not be set up), resolve the conventional `memory` export
/// (`MissingMemoryExport`), resolve and invoke the conventional
/// `get_candid_pointer` accessor at the memory's addressing width
/// (`MissingAccessorExport`, `AccessorSignatureMismatch`,
/// `AccessorTrapped`), then scan and decode the memory. What the final
/// in-memory stage returns for a given buffer and offset is pinned down
/// exactly by the contract of [`scan_and_decode`], which this function
/// applies to the memory's contents and the accessor's result; what can be
/// said here of every outcome is that a returned text always stems from such
/// a buffer and offset: a zero-terminated run inside some memory image whose
/// bytes decode, as UTF-8, to exactly that text.
pub fn extract(bytes: &[u8]) -> (r: Result<String, ExtractError>)
    ensures
        r matches Ok(s) ==> exists|m: Seq<u8>, off: int|
            0 <= off < m.len() && #[trigger] has_terminator(m, off) && utf8_decode(
                scanned_bytes(m, off),
            ) == Some(s@),
{
    let sandbox = match new_sandbox() {
        Some(s) => s,
        None => {
            return Err(ExtractError::InstantiationFailed);
        },
    };
    let mut parsed = match compile_module(sandbox, bytes) {
        Ok(m) => m,
        Err(reason) => {
            return Err(ExtractError::MalformedModule { reason });
        },
    };
    let imports = module_imports(&parsed);
    match satisfy_imports(&mut parsed, &imports) {
        Ok(()) => {},
        Err(e) => {
            return Err(e);
        },
    }
    let instance = match instantiate(parsed) {
        Some(i) => i,
        None => {
            return Err(ExtractError::InstantiationFailed);
        },
    };
    let mut vm = match resolve_memory(instance, "memory") {
        Some(m) => m,
        None => {
            return Err(ExtractError::MissingMemoryExport);
        },
    };
    let wide = memory_is_64(&vm);
    let offset = match obtain_pointer(&mut vm, wide, "get_candid_pointer") {
        Ok(p) => p,
        Err(e) => {
            return Err(e);
        },
    };
    let buffer = memory_bytes(&vm);
    scan_and_decode(buffer.as_slice(), offset)
}

} // verus!
